//! Properties of the machine that relate several operations, or that hold of
//! every state. Each is stated over the same functions as the contracts of
//! the operations themselves.

use crate::cpu::{after_fetch, can_fetch, cycle_fault, cycle_spec, fetch_word, report_spec, Report};
use crate::frame::{cycles_run, cycles_spec};
use crate::instruction::{decode_spec, Instruction};
use crate::machine::{initial_state, load_rom_spec, tick_timers_spec, MachineState};
use crate::semantics::{
    awaited_key, call_spec, draw_spec, execute_spec, fault_of, first_pressed_from, return_spec,
    sprite_covers, toggled, with_register,
};
use vstd::prelude::*;

verus! {

/// A machine that was just built has arrays of the right lengths and a
/// display of zeros and ones.
pub proof fn initial_state_is_valid()
    ensures
        initial_state().shaped(),
        initial_state().display_is_binary(),
{
}

/// Loading a program keeps the lengths of the arrays and the display.
pub proof fn load_rom_keeps_validity(s: MachineState, data: Seq<u8>)
    requires
        s.shaped(),
    ensures
        load_rom_spec(s, data).shaped(),
        load_rom_spec(s, data).display == s.display,
{
}

/// After a program of at least two bytes is loaded, whatever the state
/// before, the next fetch yields the word made of the program's first two
/// bytes, high byte first, and leaves the program counter at 0x202.
pub proof fn load_then_fetch_reads_first_word(s: MachineState, data: Seq<u8>)
    requires
        data.len() >= 2,
    ensures
        can_fetch(load_rom_spec(s, data)),
        fetch_word(load_rom_spec(s, data)) == data[0] * 256 + data[1],
        after_fetch(load_rom_spec(s, data)).pc == 0x202,
{
}

/// A timer tick never raises a timer, and a timer at zero stays at zero.
pub proof fn timers_saturate_at_zero(s: MachineState)
    ensures
        tick_timers_spec(s).delay_timer <= s.delay_timer,
        tick_timers_spec(s).sound_timer <= s.sound_timer,
        s.delay_timer == 0 ==> tick_timers_spec(s).delay_timer == 0,
        s.sound_timer == 0 ==> tick_timers_spec(s).sound_timer == 0,
{
}

/// The key that a waiting instruction picks up is the lowest pressed key
/// among the keys 1 to 15: it is pressed, and no key between 1 and it is.
/// It is 16 exactly when none of the keys 1 to 15 is pressed.
pub proof fn awaited_key_is_lowest_pressed(keypad: Seq<bool>)
    ensures
        1 <= awaited_key(keypad) <= 16,
        awaited_key(keypad) < 16 ==> keypad[awaited_key(keypad)],
        forall|k: int| 1 <= k < awaited_key(keypad) ==> !keypad[k],
{
    lemma_first_pressed_from(keypad, 1);
}

proof fn lemma_first_pressed_from(keypad: Seq<bool>, from: int)
    requires
        0 <= from <= 16,
    ensures
        from <= first_pressed_from(keypad, from) <= 16,
        first_pressed_from(keypad, from) < 16 ==> keypad[first_pressed_from(keypad, from)],
        forall|k: int| from <= k < first_pressed_from(keypad, from) ==> !keypad[k],
    decreases 16 - from,
{
    if from < 16 && !keypad[from] {
        lemma_first_pressed_from(keypad, from + 1);
    }
}

/// Only a `Random` instruction looks at the random byte.
pub proof fn random_byte_matters_to_random_only(
    s: MachineState,
    instr: Instruction,
    random: u8,
    other: u8,
)
    requires
        !(instr is Random),
    ensures
        execute_spec(s, instr, random) == execute_spec(s, instr, other),
{
}

/// A word that matches no instruction is reported, cannot fault, and leaves
/// the whole state as it was. In a cycle, all that changes is what the fetch
/// changes: the program counter moves past the word.
pub proof fn unknown_word_changes_nothing(s: MachineState, word: u16, random: u8)
    requires
        decode_spec(word) is Unknown,
    ensures
        report_spec(word) == Report::UnknownOpcode(word),
        fault_of(s, decode_spec(word)) is None,
        execute_spec(s, decode_spec(word), random) == s,
        can_fetch(s) && fetch_word(s) == word ==> cycle_fault(s) is None && cycle_spec(s, random)
            == after_fetch(s),
{
}

/// A call followed by a return leaves the machine as it was but for the
/// stack slot that held the return address.
pub proof fn call_then_return_restores(s: MachineState, addr: u16)
    requires
        s.shaped(),
        s.sp < 16,
    ensures
        call_spec(s, addr).pc == addr,
        call_spec(s, addr).sp == s.sp + 1,
        call_spec(s, addr).stack[s.sp as int] == s.pc,
        fault_of(call_spec(s, addr), Instruction::Return) is None,
        return_spec(call_spec(s, addr)) == (MachineState {
            stack: s.stack.update(s.sp as int, s.pc),
            ..s
        }),
{
}

/// A cycle that runs a call, followed by a cycle that runs a return, ends
/// with the program counter on the instruction after the call and the stack
/// pointer where it was: the machine is as it was after the call was
/// fetched, but for the stack slot that held the return address.
pub proof fn call_and_return_round_trip(s: MachineState, addr: u16, first: u8, second: u8)
    requires
        s.shaped(),
        s.sp < 16,
        can_fetch(s),
        decode_spec(fetch_word(s)) == (Instruction::Call { addr }),
        can_fetch(cycle_spec(s, first)),
        decode_spec(fetch_word(cycle_spec(s, first))) is Return,
    ensures
        cycle_fault(s) is None,
        cycle_spec(s, first).pc == addr,
        cycle_spec(s, first).sp == s.sp + 1,
        cycle_spec(s, first).stack[s.sp as int] == s.pc + 2,
        cycle_fault(cycle_spec(s, first)) is None,
        cycle_spec(cycle_spec(s, first), second) == (MachineState {
            stack: s.stack.update(s.sp as int, (s.pc + 2) as u16),
            ..after_fetch(s)
        }),
{
}

/// While the next instruction waits for a key and none of the keys 1 to 15
/// is pressed, a cycle runs without fault and changes nothing: the program
/// counter stays on the waiting instruction.
pub proof fn waiting_cycle_changes_nothing(s: MachineState, random: u8)
    requires
        s.shaped(),
        can_fetch(s),
        decode_spec(fetch_word(s)) is WaitKey,
        awaited_key(s.keypad) >= 16,
    ensures
        cycle_fault(s) is None,
        cycle_spec(s, random) == s,
{
}

/// The same for any number of cycles.
pub proof fn waiting_cycles_change_nothing(s: MachineState, randoms: Seq<u8>)
    requires
        s.shaped(),
        can_fetch(s),
        decode_spec(fetch_word(s)) is WaitKey,
        awaited_key(s.keypad) >= 16,
    ensures
        cycles_run(s, randoms),
        cycles_spec(s, randoms) == s,
    decreases randoms.len(),
{
    if randoms.len() > 0 {
        waiting_cycles_change_nothing(s, randoms.drop_last());
        waiting_cycle_changes_nothing(s, randoms.last());
    }
}

/// Once one of the keys 1 to 15 is pressed, the cycle that runs the waiting
/// instruction stores the lowest pressed key in the instruction's register
/// and moves on to the next instruction.
pub proof fn pressed_key_ends_the_wait(s: MachineState, x: usize, random: u8)
    requires
        s.shaped(),
        can_fetch(s),
        decode_spec(fetch_word(s)) == (Instruction::WaitKey { x }),
        awaited_key(s.keypad) < 16,
    ensures
        cycle_fault(s) is None,
        cycle_spec(s, random) == with_register(
            after_fetch(s),
            x as int,
            awaited_key(s.keypad) as u8,
        ),
{
}

/// Every instruction keeps the lengths of the arrays.
pub proof fn execute_keeps_shape(s: MachineState, instr: Instruction, random: u8)
    requires
        s.shaped(),
        instr.well_formed(),
        fault_of(s, instr) is None,
    ensures
        execute_spec(s, instr, random).shaped(),
{
}

/// Every instruction keeps the display made of zeros and ones.
pub proof fn execute_keeps_display_binary(s: MachineState, instr: Instruction, random: u8)
    requires
        s.shaped(),
        s.display_is_binary(),
    ensures
        execute_spec(s, instr, random).display_is_binary(),
{
}

/// Every cycle that runs keeps the lengths of the arrays and the display
/// made of zeros and ones.
pub proof fn cycle_keeps_validity(s: MachineState, random: u8)
    requires
        s.shaped(),
        s.display_is_binary(),
        cycle_fault(s) is None,
    ensures
        cycle_spec(s, random).shaped(),
        cycle_spec(s, random).display_is_binary(),
{
    crate::instruction::lemma_decode_well_formed(fetch_word(s));
    execute_keeps_shape(after_fetch(s), decode_spec(fetch_word(s)), random);
    execute_keeps_display_binary(after_fetch(s), decode_spec(fetch_word(s)), random);
}

/// Drawing a sprite twice at the same place restores the display. The
/// second draw reports a collision exactly when the sprite has a lit pixel
/// on a cell that held 0 before the first draw, which the first draw lit.
/// The registers that give the place must not be VF, which the first draw
/// overwrites.
pub proof fn drawing_twice_restores_display(s: MachineState, x: int, y: int, n: int)
    requires
        s.shaped(),
        0 <= x < 15,
        0 <= y < 15,
        0 <= n < 16,
    ensures
        draw_spec(draw_spec(s, x, y, n), x, y, n).display == s.display,
        draw_spec(draw_spec(s, x, y, n), x, y, n).draw_flag,
        draw_spec(draw_spec(s, x, y, n), x, y, n).vx[15] == 1 <==> exists|p: int|
            0 <= p < 2048 && sprite_covers(
                s,
                (s.vx[x] % 64) as int,
                (s.vx[y] % 32) as int,
                n,
                p,
            ) && s.display[p] == 0,
{
    let x0 = (s.vx[x] % 64) as int;
    let y0 = (s.vx[y] % 32) as int;
    let once = draw_spec(s, x, y, n);
    let twice = draw_spec(once, x, y, n);
    assert forall|p: int| 0 <= p < 2048 implies sprite_covers(once, x0, y0, n, p) == sprite_covers(
        s,
        x0,
        y0,
        n,
        p,
    ) by {}
    assert forall|c: u8| toggled(toggled(c)) == c by {}
    assert forall|c: u8| (toggled(c) == 1) == (c == 0) by {}
    assert(twice.display =~= s.display);
}

} // verus!
