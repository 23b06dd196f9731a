use vstd::prelude::*;

verus! {

/// The counter a classified input event is attributed to, or `Ignored` for an
/// event that no counter tracks.
#[derive(Clone, Copy, Debug, PartialEq, Eq, Structural)]
pub enum Bucket {
    LeftClick,
    RightClick,
    MiddleClick,
    Keystroke,
    MouseMove,
    Ignored,
}

} // verus!
