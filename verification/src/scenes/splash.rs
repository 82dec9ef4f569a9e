//! The splash screen: a blank page with a greeting in the middle while the
//! client starts up. The drawing call belongs to the renderer outside this
//! crate; where the text goes is decided here.

use vstd::prelude::*;

verus! {

/// The scene shown while the client starts up.
pub struct SplashScreen;

impl SplashScreen {
    pub fn new() -> (r: Self)
        ensures
            r == (SplashScreen {}),
    {
        SplashScreen {}
    }

    /// Where the splash text is anchored: the middle of a display of the
    /// given size.
    pub fn text_center(width: i32, height: i32) -> (r: (i32, i32))
        requires
            0 <= width,
            0 <= height,
        ensures
            r.0 == width / 2,
            r.1 == height / 2,
    {
        (width / 2, height / 2)
    }
}

} // verus!
