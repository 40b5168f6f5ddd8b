use vstd::prelude::*;

verus! {

/// Severity of a log record, from the most to the least severe.
#[derive(Copy, Clone, Debug, Eq, PartialEq, Ord, PartialOrd)]
pub enum Level {
    Critical,
    Error,
    Warning,
    Info,
    Debug,
    Trace,
}

/// Position of a level in the order `Critical < Error < ... < Trace`.
pub open spec fn level_rank(level: Level) -> nat {
    match level {
        Level::Critical => 0,
        Level::Error => 1,
        Level::Warning => 2,
        Level::Info => 3,
        Level::Debug => 4,
        Level::Trace => 5,
    }
}

impl Level {
    /// The number under which the logging backend knows this level
    /// (`1` for critical up to `6` for trace); a logger built with this
    /// level lets through the records at this level and all more severe ones.
    pub fn backend_number(self) -> (n: usize)
        ensures
            n == level_rank(self) + 1,
            1 <= n <= 6,
    {
        match self {
            Level::Critical => 1,
            Level::Error => 2,
            Level::Warning => 3,
            Level::Info => 4,
            Level::Debug => 5,
            Level::Trace => 6,
        }
    }
}

/// Distinct levels map to distinct backend numbers, and the mapping keeps
/// the severity order.
pub proof fn backend_number_is_order_preserving(a: Level, b: Level)
    ensures
        (level_rank(a) + 1 == level_rank(b) + 1) <==> a == b,
        level_rank(a) <= level_rank(b) <==> level_rank(a) + 1 <= level_rank(b) + 1,
{
}

} // verus!
