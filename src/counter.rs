use vstd::prelude::*;

use crate::error::AppError;

verus! {

/// The value that one button activation gives a counter that held `current`.
pub open spec fn next_value(current: int) -> int {
    current + 1
}

/// Whether one more activation still fits in the counter's type.
pub open spec fn can_increment(current: i32) -> bool {
    current < i32::MAX
}

/// Computes the counter's value after one activation.
///
/// Fails with `CounterOverflow`, and only then, when the new value would not
/// fit.
pub fn increment(current: i32) -> (r: Result<i32, AppError>)
    ensures
        can_increment(current) <==> r is Ok,
        r is Ok ==> r->Ok_0 as int == next_value(current as int),
        r is Err ==> r->Err_0 == AppError::CounterOverflow,
{
    if current < i32::MAX {
        Ok(current + 1)
    } else {
        Err(AppError::CounterOverflow)
    }
}

/// Turns the outcome of resolving a weak back-reference into a result: the
/// live value itself, or `InstanceGone` when the referent no longer exists.
pub fn resolve<T>(resolved: Option<T>) -> (r: Result<T, AppError>)
    ensures
        resolved is Some <==> r is Ok,
        r is Ok ==> r->Ok_0 == resolved->Some_0,
        r is Err ==> r->Err_0 == AppError::InstanceGone,
{
    match resolved {
        Some(v) => Ok(v),
        None => Err(AppError::InstanceGone),
    }
}

} // verus!
