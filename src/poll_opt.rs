use vstd::prelude::*;

verus! {

/// How a registration is triggered.
#[derive(Clone, Copy, Debug, PartialEq, Eq, Structural)]
pub enum PollOpt {
    /// Notified on every poll while the condition holds.
    Level,
    /// Notified once per transition into readiness.
    Edge,
    /// Notified once, then disarmed until reregistered.
    Oneshot,
}

impl PollOpt {
    pub fn level() -> (r: PollOpt)
        ensures
            r == PollOpt::Level,
    {
        PollOpt::Level
    }

    pub fn edge() -> (r: PollOpt)
        ensures
            r == PollOpt::Edge,
    {
        PollOpt::Edge
    }

    pub fn oneshot() -> (r: PollOpt)
        ensures
            r == PollOpt::Oneshot,
    {
        PollOpt::Oneshot
    }

    pub fn is_level(&self) -> (r: bool)
        ensures
            r == (*self == PollOpt::Level),
    {
        matches!(self, PollOpt::Level)
    }

    pub fn is_edge(&self) -> (r: bool)
        ensures
            r == (*self == PollOpt::Edge),
    {
        matches!(self, PollOpt::Edge)
    }

    pub fn is_oneshot(&self) -> (r: bool)
        ensures
            r == (*self == PollOpt::Oneshot),
    {
        matches!(self, PollOpt::Oneshot)
    }
}

} // verus!
