use vstd::prelude::*;

use crate::model::{KEY_COUNT, PIXELS};

verus! {

/// What a host shares with a presentation layer: a framebuffer of 32-bit
/// pixels, row by row, and the state of each key.
pub struct IOInterface {
    pub display_buffer: [u32; PIXELS],
    pub keypad: [u8; KEY_COUNT],
}

impl IOInterface {
    /// A blank framebuffer with no key down.
    pub fn new() -> (r: Self)
        ensures
            forall|p: int| 0 <= p < PIXELS ==> r.display_buffer@[p] == 0,
            forall|k: int| 0 <= k < KEY_COUNT ==> r.keypad@[k] == 0,
    {
        Self { display_buffer: [0u32; PIXELS], keypad: [0u8; KEY_COUNT] }
    }

    /// Blanks the framebuffer; the keys are left as they are.
    pub fn clear(&mut self)
        ensures
            forall|p: int| 0 <= p < PIXELS ==> final(self).display_buffer@[p] == 0,
            final(self).keypad == old(self).keypad,
    {
        self.display_buffer = [0u32; PIXELS];
    }
}

} // verus!
