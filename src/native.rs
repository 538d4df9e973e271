//! The native atomics that a cell stores its bit pattern in.
//!
//! `load`, `store` and `swap` of the native atomics are called directly; the
//! compare-exchange calls go through the wrappers here, whose contracts state
//! what std documents of the value they return.
use core::sync::atomic::{
    AtomicBool, AtomicI16, AtomicI32, AtomicI64, AtomicI8, AtomicU16, AtomicU32, AtomicU64, AtomicU8,
    Ordering,
};
use vstd::prelude::*;

use crate::ordering::is_load_ordering;

verus! {

/// Relies on `AtomicU8::compare_exchange`: on success the previous value
/// equals `current`; on failure the stored value differed from `current`. It
/// panics on a `Release` or `AcqRel` failure ordering.
#[verifier::external_body]
pub(crate) fn compare_exchange_u8(
    a: &AtomicU8,
    current: u8,
    new: u8,
    success: Ordering,
    failure: Ordering,
) -> (r: Result<u8, u8>)
    requires
        is_load_ordering(failure),
    ensures
        r matches Ok(p) ==> p == current,
        r matches Err(p) ==> p != current,
{
    a.compare_exchange(current, new, success, failure)
}

/// Relies on `AtomicU16::compare_exchange`: on success the previous value
/// equals `current`; on failure the stored value differed from `current`. It
/// panics on a `Release` or `AcqRel` failure ordering.
#[verifier::external_body]
pub(crate) fn compare_exchange_u16(
    a: &AtomicU16,
    current: u16,
    new: u16,
    success: Ordering,
    failure: Ordering,
) -> (r: Result<u16, u16>)
    requires
        is_load_ordering(failure),
    ensures
        r matches Ok(p) ==> p == current,
        r matches Err(p) ==> p != current,
{
    a.compare_exchange(current, new, success, failure)
}

/// Relies on `AtomicU32::compare_exchange`: on success the previous value
/// equals `current`; on failure the stored value differed from `current`. It
/// panics on a `Release` or `AcqRel` failure ordering.
#[verifier::external_body]
pub(crate) fn compare_exchange_u32(
    a: &AtomicU32,
    current: u32,
    new: u32,
    success: Ordering,
    failure: Ordering,
) -> (r: Result<u32, u32>)
    requires
        is_load_ordering(failure),
    ensures
        r matches Ok(p) ==> p == current,
        r matches Err(p) ==> p != current,
{
    a.compare_exchange(current, new, success, failure)
}

/// Relies on `AtomicU64::compare_exchange`: on success the previous value
/// equals `current`; on failure the stored value differed from `current`. It
/// panics on a `Release` or `AcqRel` failure ordering.
#[verifier::external_body]
pub(crate) fn compare_exchange_u64(
    a: &AtomicU64,
    current: u64,
    new: u64,
    success: Ordering,
    failure: Ordering,
) -> (r: Result<u64, u64>)
    requires
        is_load_ordering(failure),
    ensures
        r matches Ok(p) ==> p == current,
        r matches Err(p) ==> p != current,
{
    a.compare_exchange(current, new, success, failure)
}

/// Relies on `AtomicU8::compare_exchange_weak`: on success the previous value
/// equals `current`; a failure may be spurious. It panics on a `Release` or
/// `AcqRel` failure ordering.
#[verifier::external_body]
pub(crate) fn compare_exchange_weak_u8(
    a: &AtomicU8,
    current: u8,
    new: u8,
    success: Ordering,
    failure: Ordering,
) -> (r: Result<u8, u8>)
    requires
        is_load_ordering(failure),
    ensures
        r matches Ok(p) ==> p == current,
{
    a.compare_exchange_weak(current, new, success, failure)
}

/// Relies on `AtomicU16::compare_exchange_weak`: on success the previous value
/// equals `current`; a failure may be spurious. It panics on a `Release` or
/// `AcqRel` failure ordering.
#[verifier::external_body]
pub(crate) fn compare_exchange_weak_u16(
    a: &AtomicU16,
    current: u16,
    new: u16,
    success: Ordering,
    failure: Ordering,
) -> (r: Result<u16, u16>)
    requires
        is_load_ordering(failure),
    ensures
        r matches Ok(p) ==> p == current,
{
    a.compare_exchange_weak(current, new, success, failure)
}

/// Relies on `AtomicU32::compare_exchange_weak`: on success the previous value
/// equals `current`; a failure may be spurious. It panics on a `Release` or
/// `AcqRel` failure ordering.
#[verifier::external_body]
pub(crate) fn compare_exchange_weak_u32(
    a: &AtomicU32,
    current: u32,
    new: u32,
    success: Ordering,
    failure: Ordering,
) -> (r: Result<u32, u32>)
    requires
        is_load_ordering(failure),
    ensures
        r matches Ok(p) ==> p == current,
{
    a.compare_exchange_weak(current, new, success, failure)
}

/// Relies on `AtomicU64::compare_exchange_weak`: on success the previous value
/// equals `current`; a failure may be spurious. It panics on a `Release` or
/// `AcqRel` failure ordering.
#[verifier::external_body]
pub(crate) fn compare_exchange_weak_u64(
    a: &AtomicU64,
    current: u64,
    new: u64,
    success: Ordering,
    failure: Ordering,
) -> (r: Result<u64, u64>)
    requires
        is_load_ordering(failure),
    ensures
        r matches Ok(p) ==> p == current,
{
    a.compare_exchange_weak(current, new, success, failure)
}

/// Relies on `AtomicBool::compare_exchange`: on success the previous value
/// equals `current`; on failure the stored value differed from `current`. It
/// panics on a `Release` or `AcqRel` failure ordering.
#[verifier::external_body]
pub(crate) fn compare_exchange_bool(
    a: &AtomicBool,
    current: bool,
    new: bool,
    success: Ordering,
    failure: Ordering,
) -> (r: Result<bool, bool>)
    requires
        is_load_ordering(failure),
    ensures
        r matches Ok(p) ==> p == current,
        r matches Err(p) ==> p != current,
{
    a.compare_exchange(current, new, success, failure)
}

/// Relies on `AtomicBool::compare_exchange_weak`: on success the previous value
/// equals `current`; a failure may be spurious. It panics on a `Release` or
/// `AcqRel` failure ordering.
#[verifier::external_body]
pub(crate) fn compare_exchange_weak_bool(
    a: &AtomicBool,
    current: bool,
    new: bool,
    success: Ordering,
    failure: Ordering,
) -> (r: Result<bool, bool>)
    requires
        is_load_ordering(failure),
    ensures
        r matches Ok(p) ==> p == current,
{
    a.compare_exchange_weak(current, new, success, failure)
}

/// Relies on `AtomicI8::compare_exchange`: on success the previous value
/// equals `current`; on failure the stored value differed from `current`. It
/// panics on a `Release` or `AcqRel` failure ordering.
#[verifier::external_body]
pub(crate) fn compare_exchange_i8(
    a: &AtomicI8,
    current: i8,
    new: i8,
    success: Ordering,
    failure: Ordering,
) -> (r: Result<i8, i8>)
    requires
        is_load_ordering(failure),
    ensures
        r matches Ok(p) ==> p == current,
        r matches Err(p) ==> p != current,
{
    a.compare_exchange(current, new, success, failure)
}

/// Relies on `AtomicI16::compare_exchange`: on success the previous value
/// equals `current`; on failure the stored value differed from `current`. It
/// panics on a `Release` or `AcqRel` failure ordering.
#[verifier::external_body]
pub(crate) fn compare_exchange_i16(
    a: &AtomicI16,
    current: i16,
    new: i16,
    success: Ordering,
    failure: Ordering,
) -> (r: Result<i16, i16>)
    requires
        is_load_ordering(failure),
    ensures
        r matches Ok(p) ==> p == current,
        r matches Err(p) ==> p != current,
{
    a.compare_exchange(current, new, success, failure)
}

/// Relies on `AtomicI32::compare_exchange`: on success the previous value
/// equals `current`; on failure the stored value differed from `current`. It
/// panics on a `Release` or `AcqRel` failure ordering.
#[verifier::external_body]
pub(crate) fn compare_exchange_i32(
    a: &AtomicI32,
    current: i32,
    new: i32,
    success: Ordering,
    failure: Ordering,
) -> (r: Result<i32, i32>)
    requires
        is_load_ordering(failure),
    ensures
        r matches Ok(p) ==> p == current,
        r matches Err(p) ==> p != current,
{
    a.compare_exchange(current, new, success, failure)
}

/// Relies on `AtomicI64::compare_exchange`: on success the previous value
/// equals `current`; on failure the stored value differed from `current`. It
/// panics on a `Release` or `AcqRel` failure ordering.
#[verifier::external_body]
pub(crate) fn compare_exchange_i64(
    a: &AtomicI64,
    current: i64,
    new: i64,
    success: Ordering,
    failure: Ordering,
) -> (r: Result<i64, i64>)
    requires
        is_load_ordering(failure),
    ensures
        r matches Ok(p) ==> p == current,
        r matches Err(p) ==> p != current,
{
    a.compare_exchange(current, new, success, failure)
}

/// Relies on `AtomicI8::compare_exchange_weak`: on success the previous value
/// equals `current`; a failure may be spurious. It panics on a `Release` or
/// `AcqRel` failure ordering.
#[verifier::external_body]
pub(crate) fn compare_exchange_weak_i8(
    a: &AtomicI8,
    current: i8,
    new: i8,
    success: Ordering,
    failure: Ordering,
) -> (r: Result<i8, i8>)
    requires
        is_load_ordering(failure),
    ensures
        r matches Ok(p) ==> p == current,
{
    a.compare_exchange_weak(current, new, success, failure)
}

/// Relies on `AtomicI16::compare_exchange_weak`: on success the previous value
/// equals `current`; a failure may be spurious. It panics on a `Release` or
/// `AcqRel` failure ordering.
#[verifier::external_body]
pub(crate) fn compare_exchange_weak_i16(
    a: &AtomicI16,
    current: i16,
    new: i16,
    success: Ordering,
    failure: Ordering,
) -> (r: Result<i16, i16>)
    requires
        is_load_ordering(failure),
    ensures
        r matches Ok(p) ==> p == current,
{
    a.compare_exchange_weak(current, new, success, failure)
}

/// Relies on `AtomicI32::compare_exchange_weak`: on success the previous value
/// equals `current`; a failure may be spurious. It panics on a `Release` or
/// `AcqRel` failure ordering.
#[verifier::external_body]
pub(crate) fn compare_exchange_weak_i32(
    a: &AtomicI32,
    current: i32,
    new: i32,
    success: Ordering,
    failure: Ordering,
) -> (r: Result<i32, i32>)
    requires
        is_load_ordering(failure),
    ensures
        r matches Ok(p) ==> p == current,
{
    a.compare_exchange_weak(current, new, success, failure)
}

/// Relies on `AtomicI64::compare_exchange_weak`: on success the previous value
/// equals `current`; a failure may be spurious. It panics on a `Release` or
/// `AcqRel` failure ordering.
#[verifier::external_body]
pub(crate) fn compare_exchange_weak_i64(
    a: &AtomicI64,
    current: i64,
    new: i64,
    success: Ordering,
    failure: Ordering,
) -> (r: Result<i64, i64>)
    requires
        is_load_ordering(failure),
    ensures
        r matches Ok(p) ==> p == current,
{
    a.compare_exchange_weak(current, new, success, failure)
}

} // verus!
