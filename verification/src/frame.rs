//! What happens once per frame: a batch of cycles, the timer tick, the tone
//! and the picture handed to whoever presents it.

use crate::cpu::{cycle_fault, cycle_spec, fetch_word, Report};
use crate::instruction::decode_spec;
use crate::machine::{tick_timers_spec, Chip8, MachineState};
use crate::semantics::Fault;
use vstd::prelude::*;

verus! {

/// Number of cycles that run between two timer ticks. At sixty frames a
/// second this gives six hundred instructions a second.
pub const CYCLES_PER_FRAME: usize = 10;

/// Colour of a lit pixel, as 0x00RRGGBB.
pub const LIT: u32 = 0xFFFFFF;

/// Colour of a dark pixel, as 0x00RRGGBB.
pub const DARK: u32 = 0x000000;

/// The state after as many cycles as `randoms` has bytes, the k-th cycle
/// using the k-th byte.
pub open spec fn cycles_spec(s: MachineState, randoms: Seq<u8>) -> MachineState
    decreases randoms.len(),
{
    if randoms.len() == 0 {
        s
    } else {
        cycle_spec(cycles_spec(s, randoms.drop_last()), randoms.last())
    }
}

/// Whether none of those cycles is stopped by a fault.
pub open spec fn cycles_run(s: MachineState, randoms: Seq<u8>) -> bool
    decreases randoms.len(),
{
    randoms.len() == 0 || (cycles_run(s, randoms.drop_last()) && cycle_fault(
        cycles_spec(s, randoms.drop_last()),
    ) is None)
}

/// The words that those cycles fetched and that match no instruction, in the
/// order in which they were fetched.
pub open spec fn cycles_unknown(s: MachineState, randoms: Seq<u8>) -> Seq<u16>
    decreases randoms.len(),
{
    if randoms.len() == 0 {
        Seq::empty()
    } else {
        let earlier = cycles_unknown(s, randoms.drop_last());
        let word = fetch_word(cycles_spec(s, randoms.drop_last()));
        if decode_spec(word) is Unknown {
            earlier.push(word)
        } else {
            earlier
        }
    }
}

/// The colour of a display cell: lit for a cell that holds 1, dark for any
/// other.
pub open spec fn colour_of(cell: u8) -> u32 {
    if cell == 1 {
        LIT
    } else {
        DARK
    }
}

/// The colours of a display, cell by cell.
pub open spec fn colours_of(display: Seq<u8>) -> Seq<u32> {
    Seq::new(display.len(), |p: int| colour_of(display[p]))
}

/// What a frame's cycles came to.
pub struct TickReport {
    /// The fetched words that matched no instruction, in the order in which
    /// they were fetched.
    pub unknown: Vec<u16>,
    /// The fault that stopped the frame, if one did.
    pub fault: Option<Fault>,
}

impl Chip8 {
    /// Runs one frame's worth of cycles, then ticks the timers, and reports
    /// the words that matched no instruction. A fault stops the frame at the
    /// cycle that it stops: the cycles before it stand, the timers are not
    /// ticked, and the fault is reported.
    pub fn tick(&mut self) -> (report: TickReport)
        ensures
            exists|randoms: Seq<u8>|
                {
                    &&& cycles_run(old(self)@, randoms)
                    &&& report.unknown@ == cycles_unknown(old(self)@, randoms)
                    &&& match report.fault {
                        None => {
                            &&& randoms.len() == CYCLES_PER_FRAME
                            &&& final(self)@ == tick_timers_spec(cycles_spec(old(self)@, randoms))
                        },
                        Some(fault) => {
                            &&& randoms.len() < CYCLES_PER_FRAME
                            &&& cycle_fault(cycles_spec(old(self)@, randoms)) == Some(fault)
                            &&& final(self)@ == cycles_spec(old(self)@, randoms)
                        },
                    }
                },
    {
        let mut unknown: Vec<u16> = Vec::new();
        let ghost mut randoms: Seq<u8> = Seq::empty();
        let mut done: usize = 0;
        while done < CYCLES_PER_FRAME
            invariant
                done <= CYCLES_PER_FRAME,
                randoms.len() == done,
                cycles_run(old(self)@, randoms),
                self@ == cycles_spec(old(self)@, randoms),
                unknown@ == cycles_unknown(old(self)@, randoms),
            decreases CYCLES_PER_FRAME - done,
        {
            let ghost before = self@;
            match self.cycle() {
                Err(fault) => {
                    return TickReport { unknown, fault: Some(fault) };
                },
                Ok(report) => {
                    proof {
                        let drawn = choose|random: u8| self@ == cycle_spec(before, random);
                        let longer = randoms.push(drawn);
                        assert(longer.drop_last() == randoms);
                        randoms = longer;
                    }
                    match report {
                        Report::UnknownOpcode(word) => {
                            unknown.push(word);
                        },
                        Report::Executed => {},
                    }
                },
            }
            done += 1;
        }
        self.tick_timers();
        TickReport { unknown, fault: None }
    }

    /// Whether the tone sounds: the sound timer is not zero.
    pub fn sound_on(&self) -> (on: bool)
        ensures
            on == (self.sound_timer > 0),
    {
        self.sound_timer > 0
    }

    /// A copy of the display cells, row by row.
    pub fn frame(&self) -> (cells: Vec<u8>)
        ensures
            cells@ == self.display@,
    {
        let mut cells: Vec<u8> = Vec::new();
        let mut p: usize = 0;
        while p < 2048
            invariant
                p <= 2048,
                cells@ == self.display@.take(p as int),
            decreases 2048 - p,
        {
            cells.push(self.display[p]);
            p += 1;
        }
        cells
    }

    /// Hands over the picture if the display changed since it was last
    /// taken: one colour per cell, row by row. The display then counts as
    /// presented.
    pub fn take_frame(&mut self) -> (picture: Option<Vec<u32>>)
        ensures
            final(self)@ == (MachineState { draw_flag: false, ..old(self)@ }),
            match picture {
                Some(colours) => old(self).draw_flag && colours@ == colours_of(old(self).display@),
                None => !old(self).draw_flag,
            },
    {
        if !self.draw_flag {
            return None;
        }
        let mut colours: Vec<u32> = Vec::new();
        let mut p: usize = 0;
        while p < 2048
            invariant
                p <= 2048,
                self@ == old(self)@,
                colours@ == colours_of(self.display@).take(p as int),
            decreases 2048 - p,
        {
            colours.push(
                if self.display[p] == 1 {
                    LIT
                } else {
                    DARK
                },
            );
            p += 1;
        }
        self.draw_flag = false;
        Some(colours)
    }
}

} // verus!
