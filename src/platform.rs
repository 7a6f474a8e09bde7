use vstd::prelude::*;

use crate::model::{HEIGHT, WIDTH};

verus! {

/// A screen of 32 rows of 64 pixels, each 0 for off.
pub struct Platform {
    pub display: [[u8; WIDTH]; HEIGHT],
}

/// Every pixel of `display` is off.
pub open spec fn blank(display: [[u8; WIDTH]; HEIGHT]) -> bool {
    forall|r: int, c: int| 0 <= r < HEIGHT && 0 <= c < WIDTH ==> #[trigger] display@[r]@[c] == 0
}

impl Platform {
    /// A blank screen.
    pub fn new() -> (r: Self)
        ensures
            blank(r.display),
    {
        Self { display: [[0u8; WIDTH]; HEIGHT] }
    }

    /// Turns every pixel off.
    pub fn clear(&mut self)
        ensures
            blank(final(self).display),
    {
        self.display = [[0u8; WIDTH]; HEIGHT];
    }
}

} // verus!
