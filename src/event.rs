use vstd::prelude::*;

verus! {

/// Key events the presentation layer sends to the engine.
#[derive(Clone, Copy, Debug, PartialEq, Eq, Structural)]
pub enum GBEvent {
    ArrowDown,
    ArrowUp,
}

} // verus!
