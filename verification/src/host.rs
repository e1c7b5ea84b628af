//! The keypad as the host's keyboard drives it.

use crate::machine::{Chip8, MachineState};
use vstd::prelude::*;

verus! {

/// A key of the host's keyboard that a keypad key is bound to.
#[derive(Clone, Copy, Debug, PartialEq, Eq, Structural)]
pub enum HostKey {
    Key2,
    Key3,
    Q,
    W,
    E,
    A,
    S,
    D,
    F,
    Z,
    X,
    C,
    V,
    J,
    K,
}

/// The host key that keypad key `key` is bound to. Keys 1 and 5 share W,
/// the first player's "up"; K and J are the second player's "up" and
/// "down".
pub open spec fn key_binding_spec(key: int) -> HostKey {
    if key == 0x0 {
        HostKey::X
    } else if key == 0x1 {
        HostKey::W
    } else if key == 0x2 {
        HostKey::Key2
    } else if key == 0x3 {
        HostKey::Key3
    } else if key == 0x4 {
        HostKey::Q
    } else if key == 0x5 {
        HostKey::W
    } else if key == 0x6 {
        HostKey::E
    } else if key == 0x7 {
        HostKey::A
    } else if key == 0x8 {
        HostKey::S
    } else if key == 0x9 {
        HostKey::D
    } else if key == 0xA {
        HostKey::Z
    } else if key == 0xB {
        HostKey::C
    } else if key == 0xC {
        HostKey::K
    } else if key == 0xD {
        HostKey::J
    } else if key == 0xE {
        HostKey::F
    } else {
        HostKey::V
    }
}

/// The host key that keypad key `key` is bound to.
pub fn key_binding(key: usize) -> (host: HostKey)
    requires
        key < 16,
    ensures
        host == key_binding_spec(key as int),
{
    match key {
        0x0 => HostKey::X,
        0x1 => HostKey::W,
        0x2 => HostKey::Key2,
        0x3 => HostKey::Key3,
        0x4 => HostKey::Q,
        0x5 => HostKey::W,
        0x6 => HostKey::E,
        0x7 => HostKey::A,
        0x8 => HostKey::S,
        0x9 => HostKey::D,
        0xA => HostKey::Z,
        0xB => HostKey::C,
        0xC => HostKey::K,
        0xD => HostKey::J,
        0xE => HostKey::F,
        _ => HostKey::V,
    }
}

impl Chip8 {
    /// Refreshes the keypad from the host's keyboard: each keypad key takes
    /// the state that `is_key_down` reports for the host key it is bound to.
    pub fn update_keypad<F: Fn(HostKey) -> bool>(&mut self, is_key_down: F)
        requires
            forall|host: HostKey| call_requires(is_key_down, (host,)),
        ensures
            final(self)@ == (MachineState { keypad: final(self).keypad@, ..old(self)@ }),
            forall|key: int|
                0 <= key < 16 ==> call_ensures(
                    is_key_down,
                    (key_binding_spec(key),),
                    #[trigger] final(self).keypad@[key],
                ),
    {
        let mut key: usize = 0;
        while key < 16
            invariant
                key <= 16,
                forall|host: HostKey| call_requires(is_key_down, (host,)),
                self@ == (MachineState { keypad: self.keypad@, ..old(self)@ }),
                forall|done: int|
                    0 <= done < key ==> call_ensures(
                        is_key_down,
                        (key_binding_spec(done),),
                        #[trigger] self.keypad@[done],
                    ),
            decreases 16 - key,
        {
            self.keypad[key] = is_key_down(key_binding(key));
            key += 1;
        }
    }

    /// Sets the state of one key. A `key` that the keypad does not have is
    /// ignored.
    pub fn set_key(&mut self, key: u8, pressed: bool)
        ensures
            final(self)@ == if key < 16 {
                MachineState { keypad: old(self).keypad@.update(key as int, pressed), ..old(self)@ }
            } else {
                old(self)@
            },
    {
        let idx: usize = key as usize;
        if idx < 16 {
            self.keypad[idx] = pressed;
        }
    }
}

} // verus!
