use vstd::prelude::*;

verus! {

/// The failures that the clock layer and the multiplexer report.
#[derive(Debug, Clone, Copy, PartialEq, Eq, Structural)]
pub enum Error {
    /// A handle names no live entry of the resource table.
    InvalidHandle,
    /// The resource table has no free handle left.
    TableFull,
    /// A duration or instant does not fit the target numeric width.
    TimeConversionOverflow,
    /// The scheduler backend's blocking primitive failed.
    SchedulingError,
    /// A kind of subscription that has no resolution strategy.
    UnimplementedSubscription,
    /// A stream reported a failure with the given code.
    Io(u32),
}

} // verus!
