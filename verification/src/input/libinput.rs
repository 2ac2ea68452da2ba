//! What the seat's input devices mean beyond the keys themselves: switches of
//! the virtual terminal, and which devices are keyboards.

use super::keyboard::KeyState;
use vstd::prelude::*;

verus! {

/// The raw code of the key that switches to the first virtual terminal.
pub const FIRST_VT_KEY: u32 = 59;

/// The raw code of the key that switches to the last virtual terminal that a
/// key switches to.
pub const LAST_VT_KEY: u32 = 70;

/// The virtual terminal that a key event switches to, if it switches to one:
/// the keys from [`FIRST_VT_KEY`] to [`LAST_VT_KEY`], when they go down, switch
/// to the terminals from 1 on.
pub open spec fn vt_of(keycode: u32, state: KeyState) -> Option<i32> {
    if state is Pressed && FIRST_VT_KEY <= keycode <= LAST_VT_KEY {
        Some((keycode - FIRST_VT_KEY + 1) as i32)
    } else {
        None
    }
}

/// The virtual terminal to ask the session for after a key event.
pub fn vt_for_key(keycode: u32, state: KeyState) -> (vt: Option<i32>)
    ensures
        vt == vt_of(keycode, state),
        vt is Some ==> 1 <= vt->Some_0 <= 12,
{
    match state {
        KeyState::Pressed => {
            if keycode >= FIRST_VT_KEY && keycode <= LAST_VT_KEY {
                Some((keycode - FIRST_VT_KEY + 1) as i32)
            } else {
                None
            }
        },
        KeyState::Released => None,
    }
}

/// The places of the devices that are keyboards, in the order of the devices.
/// `has_keyboard` says of each device whether it has the keyboard capability.
pub fn keyboards(has_keyboard: &[bool]) -> (places: Vec<usize>)
    ensures
        forall|k: int| 0 <= k < places@.len() ==> places@[k] < has_keyboard@.len()
            && has_keyboard@[places@[k] as int],
        forall|j: int, k: int| 0 <= j < k < places@.len() ==> places@[j] < places@[k],
        forall|i: int|
            0 <= i < has_keyboard@.len() && has_keyboard@[i] ==> places@.contains(i as usize),
{
    let n = has_keyboard.len();
    let mut places: Vec<usize> = Vec::new();
    let mut i: usize = 0;
    while i < n
        invariant
            i <= n,
            n == has_keyboard@.len(),
            forall|k: int| 0 <= k < places@.len() ==> places@[k] < i && has_keyboard@[places@[k] as int],
            forall|j: int, k: int| 0 <= j < k < places@.len() ==> places@[j] < places@[k],
            forall|m: int| 0 <= m < i && has_keyboard@[m] ==> places@.contains(m as usize),
        decreases n - i,
    {
        if has_keyboard[i] {
            let ghost before = places@;
            places.push(i);
            assert(places@[before.len() as int] == i);
            assert forall|m: int| 0 <= m < i + 1 && has_keyboard@[m] implies places@.contains(
                m as usize,
            ) by {
                if m < i {
                    let k = choose|k: int| 0 <= k < before.len() && before[k] == m as usize;
                    assert(places@[k] == m as usize);
                }
            }
        }
        i += 1;
    }
    places
}

} // verus!
