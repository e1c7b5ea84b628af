//! A text rendering of the display, for terminals.

use crate::machine::Chip8;
use vstd::prelude::*;
use vstd::string::*;

verus! {

/// The escape sequence that clears a terminal.
pub open spec fn clear_text() -> Seq<char> {
    seq!['\u{1b}', '[', '2', 'J']
}

/// The text of one display cell: a mark for a cell that holds 1, a space for
/// any other.
pub open spec fn cell_text(cell: u8) -> Seq<char> {
    if cell == 1 {
        seq!['\u{e2}', '\u{2013}', '\u{2c6}']
    } else {
        seq![' ']
    }
}

/// The text of the first `cells` cells of row `y`.
pub open spec fn row_text(display: Seq<u8>, y: int, cells: int) -> Seq<char>
    decreases cells,
{
    if cells <= 0 {
        Seq::empty()
    } else {
        row_text(display, y, cells - 1) + cell_text(display[y * 64 + cells - 1])
    }
}

/// The text of the first `rows` rows, each followed by a line feed.
pub open spec fn rows_text(display: Seq<u8>, rows: int) -> Seq<char>
    decreases rows,
{
    if rows <= 0 {
        Seq::empty()
    } else {
        rows_text(display, rows - 1) + row_text(display, rows - 1, 64) + seq!['\n']
    }
}

/// The text that shows a display: the clearing sequence, then the 32 rows.
pub open spec fn console_text(display: Seq<u8>) -> Seq<char> {
    clear_text() + rows_text(display, 32)
}

impl Chip8 {
    /// The display as text for a terminal: a sequence that clears the
    /// screen, then one line per row.
    pub fn debug_render_console(&self) -> (text: String)
        ensures
            text@ == console_text(self.display@),
    {
        proof {
            reveal_strlit("\u{1b}[2J");
        }
        let mut text = String::from_str("\u{1b}[2J");
        assert(text@ =~= clear_text() + rows_text(self.display@, 0));
        for y in 0..32usize
            invariant
                text@ == clear_text() + rows_text(self.display@, y as int),
        {
            let ghost done = text@;
            assert(text@ =~= done + row_text(self.display@, y as int, 0));
            for x in 0..64usize
                invariant
                    0 <= y < 32,
                    text@ == done + row_text(self.display@, y as int, x as int),
            {
                proof {
                    reveal_strlit("\u{e2}\u{2013}\u{2c6}");
                    reveal_strlit(" ");
                }
                let pixel: u8 = self.display[x + y * 64];
                if pixel == 1 {
                    text.append("\u{e2}\u{2013}\u{2c6}");
                } else {
                    text.append(" ");
                }
                assert(text@ =~= done + row_text(self.display@, y as int, x + 1));
            }
            proof {
                reveal_strlit("\n");
            }
            text.append("\n");
            assert(text@ =~= clear_text() + rows_text(self.display@, y + 1));
        }
        text
    }
}

} // verus!
