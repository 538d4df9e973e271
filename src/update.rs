//! The decisions of the retry loop behind `Atomic::fetch_update`.
//!
//! Each round observes a value, asks the update function for a new one, and
//! either finishes or tries to exchange the observed value for the new one.
//! An exchange either finishes the update or reports the value that was in
//! the cell instead, which the next round observes.
use vstd::prelude::*;

verus! {

/// What a round does with the update function's answer on the observed value.
#[derive(Debug, PartialEq, Eq)]
pub enum UpdateStep<T> {
    /// The update is over, with this result.
    Finish(Result<T, T>),
    /// Try to replace the first value, the observed one, by the second.
    Exchange(T, T),
}

/// What follows an exchange.
#[derive(Debug, PartialEq, Eq)]
pub enum ExchangeOutcome<T> {
    /// The update is over, with this result.
    Finish(Result<T, T>),
    /// The cell held another value; the next round observes it.
    Retry(T),
}

/// Decides a round from the observed value and the update function's answer
/// on it.
pub fn update_step<T>(observed: T, proposed: Option<T>) -> (r: UpdateStep<T>)
    ensures
        proposed matches None ==> r == UpdateStep::<T>::Finish(Err(observed)),
        proposed matches Some(n) ==> r == UpdateStep::Exchange(observed, n),
{
    match proposed {
        None => UpdateStep::Finish(Err(observed)),
        Some(n) => UpdateStep::Exchange(observed, n),
    }
}

/// Decides what follows an exchange from its result.
pub fn exchange_outcome<T>(exchanged: Result<T, T>) -> (r: ExchangeOutcome<T>)
    ensures
        exchanged matches Ok(p) ==> r == ExchangeOutcome::<T>::Finish(Ok(p)),
        exchanged matches Err(p) ==> r == ExchangeOutcome::<T>::Retry(p),
{
    match exchanged {
        Ok(p) => ExchangeOutcome::Finish(Ok(p)),
        Err(p) => ExchangeOutcome::Retry(p),
    }
}

} // verus!
