use vstd::prelude::*;

verus! {

/// Marks entities created to run a movement test; once the test is done they can go.
#[derive(Debug, Clone, Copy, Default)]
pub struct MovementTestScopeTag;

/// The movement tests that can be run.
#[derive(Debug, Clone, Copy, PartialEq, Eq, Structural)]
pub enum MovementTest {
    /// The player can ALWAYS make a jump across a 2-wide gap.
    Jump2Wide,
    /// The player can NEVER make a jump across a 4-wide gap.
    Jump4Wide,
}

} // verus!
