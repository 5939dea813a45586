use vstd::prelude::*;

verus! {

/// Usually Idle; becomes Resizing when the window is resized, which makes the camera
/// entity be recreated with the new window dimensions.
#[derive(Debug, Clone, Copy, PartialEq, Eq, Structural)]
pub enum ResizeState {
    Idle,
    Resizing,
}

impl Default for ResizeState {
    fn default() -> (res: Self)
        ensures
            res == ResizeState::Idle,
    {
        ResizeState::Idle
    }
}

} // verus!
