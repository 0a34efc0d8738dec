use vstd::prelude::*;

verus! {

/// An event that the status LED shows.
#[derive(Debug, Clone, Copy, PartialEq, Eq, Structural)]
pub enum IndicatorEvent {
    CanOnline,
}

} // verus!
