use vstd::prelude::*;

verus! {

/// Lifecycle of one connection-like object. Transitions move only forward
/// along `Established -> (Shutdown ->) Closing -> Closed`; the `Shutdown`
/// stage is an optional half-close phase, `Closing` and `Closed` are the
/// mandatory terminal stages.
#[derive(Clone, Copy, PartialEq, Eq, Structural, Debug)]
pub enum ConnStatus {
    Established,
    Shutdown,
    Closing,
    Closed,
}

impl ConnStatus {
    /// Position of a status along the one-way lifecycle path; a transition
    /// is forward exactly when it does not decrease this rank.
    pub open spec fn rank(self) -> int {
        match self {
            ConnStatus::Established => 0,
            ConnStatus::Shutdown => 1,
            ConnStatus::Closing => 2,
            ConnStatus::Closed => 3,
        }
    }

    pub fn is_closing(self) -> (b: bool)
        ensures
            b == (self is Closing),
    {
        matches!(self, ConnStatus::Closing)
    }

    pub fn is_closed(self) -> (b: bool)
        ensures
            b == (self is Closed),
    {
        matches!(self, ConnStatus::Closed)
    }
}

} // verus!
