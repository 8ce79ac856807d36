use vstd::prelude::*;

verus! {

/// The rules screen shown before the game starts.
pub struct StartupScreen {}

impl StartupScreen {
    pub fn new() -> (r: StartupScreen) {
        StartupScreen {}
    }
}

} // verus!
