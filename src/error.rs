use vstd::prelude::*;

verus! {

/// The ways in which the application can fail. All of them are fatal: the
/// entry point reports the error and stops.
#[derive(Clone, Copy, Debug, PartialEq, Eq, Structural)]
pub enum AppError {
    /// The UI surface could not be constructed.
    InitializationFailure,
    /// The event loop could not start, or stopped abnormally.
    RunLoopFailure,
    /// A weak back-reference no longer leads to a live surface.
    InstanceGone,
    /// The counter already holds the largest value its type can hold.
    CounterOverflow,
}

} // verus!
