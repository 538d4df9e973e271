//! Which memory orderings each kind of operation accepts.
use core::sync::atomic::Ordering;
use vstd::prelude::*;

verus! {

/// Orderings that a pure read accepts: `Relaxed`, `Acquire` and `SeqCst`.
/// Also the orderings accepted for the failed path of a compare-exchange.
pub open spec fn is_load_ordering(o: Ordering) -> bool {
    o == Ordering::Relaxed || o == Ordering::Acquire || o == Ordering::SeqCst
}

/// Orderings that a pure write accepts: `Relaxed`, `Release` and `SeqCst`.
pub open spec fn is_store_ordering(o: Ordering) -> bool {
    o == Ordering::Relaxed || o == Ordering::Release || o == Ordering::SeqCst
}

} // verus!
