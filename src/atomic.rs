//! The generic atomic cell.
use core::marker::PhantomData;
use core::sync::atomic::{
    AtomicBool, AtomicI16, AtomicI32, AtomicI64, AtomicI8, AtomicU16, AtomicU32, AtomicU64, AtomicU8,
    Ordering,
};
use vstd::layout::{align_of, size_of};
use vstd::prelude::*;

use crate::native::{
    compare_exchange_bool, compare_exchange_i16, compare_exchange_i32, compare_exchange_i64,
    compare_exchange_i8, compare_exchange_u16, compare_exchange_u32, compare_exchange_u64,
    compare_exchange_u8, compare_exchange_weak_bool, compare_exchange_weak_i16,
    compare_exchange_weak_i32, compare_exchange_weak_i64, compare_exchange_weak_i8,
    compare_exchange_weak_u16, compare_exchange_weak_u32, compare_exchange_weak_u64,
    compare_exchange_weak_u8,
};
use crate::ordering::{is_load_ordering, is_store_ordering};
use crate::repr::{bit_bound, AtomicRepr};
use crate::update::{exchange_outcome, update_step, ExchangeOutcome, UpdateStep};
use crate::width::{select_width, spec_select_width, Width};

verus! {

broadcast use vstd::layout::layout_of_primitives;

/// The native atomic that holds a cell's bit pattern: a flag for two-valued
/// types, and per width an unsigned one and a signed one for signed integers.
enum NativeCell {
    Flag(AtomicBool),
    U8(AtomicU8),
    U16(AtomicU16),
    U32(AtomicU32),
    U64(AtomicU64),
    I8(AtomicI8),
    I16(AtomicI16),
    I32(AtomicI32),
    I64(AtomicI64),
}

impl NativeCell {
    spec fn width(self) -> Width {
        match self {
            NativeCell::Flag(_) => Width::W8,
            NativeCell::U8(_) | NativeCell::I8(_) => Width::W8,
            NativeCell::U16(_) | NativeCell::I16(_) => Width::W16,
            NativeCell::U32(_) | NativeCell::I32(_) => Width::W32,
            NativeCell::U64(_) | NativeCell::I64(_) => Width::W64,
        }
    }

    spec fn is_signed(self) -> bool {
        self is I8 || self is I16 || self is I32 || self is I64
    }
}

/// The previous value that a compare-exchange on patterns reports, read back
/// as a value of `T`: `Ok` stays `Ok` and `Err` stays `Err`.
spec fn spec_map_result<T: AtomicRepr>(r: Result<u64, u64>) -> Result<T, T> {
    match r {
        Ok(b) => Ok(T::spec_from_bits(b)),
        Err(b) => Err(T::spec_from_bits(b)),
    }
}

/// Lock-free atomic cell for any value of 1, 2, 4 or 8 bytes whose alignment
/// is at least its size.
///
/// Any number of threads may operate on one cell through shared references.
/// The value in the cell can change between any two calls, so the contracts
/// here state what holds of every outcome: a successful compare-exchange saw
/// the expected value, a failed strong one saw another, and `fetch_update`
/// hands back a value on which the update function gave the stated answer.
pub struct Atomic<T: AtomicRepr> {
    cell: NativeCell,
    marker: PhantomData<T>,
}

impl<T: AtomicRepr> Atomic<T> {
    /// The cell's native atomic has `T`'s size and is signed exactly when `T`
    /// is; it is the flag exactly when `T` is two-valued, and otherwise every
    /// pattern of that size is valid.
    #[verifier::type_invariant]
    spec fn wf(self) -> bool {
        &&& size_of::<T>() == self.cell.width().spec_bytes()
        &&& self.cell.is_signed() == T::spec_signed()
        &&& self.cell is Flag ==> forall|b: u64| #[trigger] T::spec_valid_bits(b) <==> b < 2
        &&& !(self.cell is Flag) ==> forall|b: u64| #[trigger] T::spec_valid_bits(b) <==> (b as int)
            < bit_bound(size_of::<T>())
    }

    /// The native atomic of a cell of a two-valued type.
    fn native_flag(&self) -> (a: &AtomicBool)
        requires
            !T::spec_valid_bits(2),
    {
        proof {
            use_type_invariant(self);
            T::lemma_native_size();
        }
        match &self.cell {
            NativeCell::Flag(a) => a,
            _ => unreached(),
        }
    }

    /// The native atomic of a cell of an unsigned type 1 byte wide.
    fn native_u8(&self) -> (a: &AtomicU8)
        requires
            size_of::<T>() == 1,
            T::spec_valid_bits(2),
            !T::spec_signed(),
    {
        proof {
            use_type_invariant(self);
        }
        match &self.cell {
            NativeCell::U8(a) => a,
            _ => unreached(),
        }
    }

    /// The native atomic of a cell of an unsigned type 2 bytes wide.
    fn native_u16(&self) -> (a: &AtomicU16)
        requires
            size_of::<T>() == 2,
            !T::spec_signed(),
    {
        proof {
            use_type_invariant(self);
        }
        match &self.cell {
            NativeCell::U16(a) => a,
            _ => unreached(),
        }
    }

    /// The native atomic of a cell of an unsigned type 4 bytes wide.
    fn native_u32(&self) -> (a: &AtomicU32)
        requires
            size_of::<T>() == 4,
            !T::spec_signed(),
    {
        proof {
            use_type_invariant(self);
        }
        match &self.cell {
            NativeCell::U32(a) => a,
            _ => unreached(),
        }
    }

    /// The native atomic of a cell of an unsigned type 8 bytes wide.
    fn native_u64(&self) -> (a: &AtomicU64)
        requires
            size_of::<T>() == 8,
            !T::spec_signed(),
    {
        proof {
            use_type_invariant(self);
        }
        match &self.cell {
            NativeCell::U64(a) => a,
            _ => unreached(),
        }
    }

    /// The native atomic of a cell of a signed type 1 byte wide.
    fn native_i8(&self) -> (a: &AtomicI8)
        requires
            size_of::<T>() == 1,
            T::spec_signed(),
    {
        proof {
            use_type_invariant(self);
        }
        match &self.cell {
            NativeCell::I8(a) => a,
            _ => unreached(),
        }
    }

    /// The native atomic of a cell of a signed type 2 bytes wide.
    fn native_i16(&self) -> (a: &AtomicI16)
        requires
            size_of::<T>() == 2,
            T::spec_signed(),
    {
        proof {
            use_type_invariant(self);
        }
        match &self.cell {
            NativeCell::I16(a) => a,
            _ => unreached(),
        }
    }

    /// The native atomic of a cell of a signed type 4 bytes wide.
    fn native_i32(&self) -> (a: &AtomicI32)
        requires
            size_of::<T>() == 4,
            T::spec_signed(),
    {
        proof {
            use_type_invariant(self);
        }
        match &self.cell {
            NativeCell::I32(a) => a,
            _ => unreached(),
        }
    }

    /// The native atomic of a cell of a signed type 8 bytes wide.
    fn native_i64(&self) -> (a: &AtomicI64)
        requires
            size_of::<T>() == 8,
            T::spec_signed(),
    {
        proof {
            use_type_invariant(self);
        }
        match &self.cell {
            NativeCell::I64(a) => a,
            _ => unreached(),
        }
    }
}

/// The pattern of a signed native value: its two's-complement bits.
fn pattern_of_i8(v: i8) -> (r: u64)
    ensures
        r == v as u8 as u64,
        r < 0x100,
{
    (#[verifier::truncate] (v as u8)) as u64
}

/// The signed native value whose two's-complement bits are `bits`.
fn i8_of_pattern(bits: u64) -> (r: i8)
    requires
        bits < 0x100,
    ensures
        r as u8 as u64 == bits,
{
    assert(bits < 0x100u64 ==> ((bits as u8) as i8) as u8 as u64 == bits) by (bit_vector);
    #[verifier::truncate] ((bits as u8) as i8)
}

/// The pattern of a signed native value: its two's-complement bits.
fn pattern_of_i16(v: i16) -> (r: u64)
    ensures
        r == v as u16 as u64,
        r < 0x1_0000,
{
    (#[verifier::truncate] (v as u16)) as u64
}

/// The signed native value whose two's-complement bits are `bits`.
fn i16_of_pattern(bits: u64) -> (r: i16)
    requires
        bits < 0x1_0000,
    ensures
        r as u16 as u64 == bits,
{
    assert(bits < 0x1_0000u64 ==> ((bits as u16) as i16) as u16 as u64 == bits) by (bit_vector);
    #[verifier::truncate] ((bits as u16) as i16)
}

/// The pattern of a signed native value: its two's-complement bits.
fn pattern_of_i32(v: i32) -> (r: u64)
    ensures
        r == v as u32 as u64,
        r < 0x1_0000_0000,
{
    (#[verifier::truncate] (v as u32)) as u64
}

/// The signed native value whose two's-complement bits are `bits`.
fn i32_of_pattern(bits: u64) -> (r: i32)
    requires
        bits < 0x1_0000_0000,
    ensures
        r as u32 as u64 == bits,
{
    assert(bits < 0x1_0000_0000u64 ==> ((bits as u32) as i32) as u32 as u64 == bits) by (bit_vector);
    #[verifier::truncate] ((bits as u32) as i32)
}

/// The pattern of a signed native value: its two's-complement bits.
fn pattern_of_i64(v: i64) -> (r: u64)
    ensures
        r == v as u64,
{
    #[verifier::truncate] (v as u64)
}

/// The signed native value whose two's-complement bits are `bits`.
fn i64_of_pattern(bits: u64) -> (r: i64)
    ensures
        r as u64 == bits,
{
    assert((bits as i64) as u64 == bits) by (bit_vector);
    #[verifier::truncate] (bits as i64)
}

/// The pattern of a flag: 1 for `true`, 0 for `false`.
fn pattern_of_flag(b: bool) -> (r: u64)
    ensures
        r < 2,
        r != 0 <==> b,
{
    if b {
        1
    } else {
        0
    }
}

/// Reads a compare-exchange result on patterns back as values of `T`.
fn map_result<T: AtomicRepr>(r: Result<u64, u64>) -> (out: Result<T, T>)
    requires
        r matches Ok(b) ==> T::spec_valid_bits(b),
        r matches Err(b) ==> T::spec_valid_bits(b),
    ensures
        out == spec_map_result::<T>(r),
{
    match r {
        Ok(b) => Ok(T::from_bits(b)),
        Err(b) => Err(T::from_bits(b)),
    }
}

impl<T: AtomicRepr> Atomic<T> {
    /// The native width of this cell.
    pub closed spec fn width(self) -> Width {
        self.cell.width()
    }

    /// Creates a cell holding `value`. `T` must have the size and alignment of
    /// one of the native widths.
    pub fn new(value: T) -> (r: Atomic<T>)
        requires
            spec_select_width(size_of::<T>(), align_of::<T>()) is Some,
        ensures
            spec_select_width(size_of::<T>(), align_of::<T>()) == Some(r.width()),
    {
        Atomic::with_native_cell(value)
    }

    /// Creates a cell holding `value` in the native atomic of `T`'s size.
    fn with_native_cell(value: T) -> (r: Atomic<T>)
        ensures
            r.width().spec_bytes() == size_of::<T>(),
    {
        proof {
            T::lemma_native_size();
        }
        let bits = value.to_bits();
        let size = core::mem::size_of::<T>();
        let cell = if T::two_valued() {
            NativeCell::Flag(AtomicBool::new(bits != 0))
        } else if T::signed() {
            if size == 1 {
                NativeCell::I8(AtomicI8::new(i8_of_pattern(bits)))
            } else if size == 2 {
                NativeCell::I16(AtomicI16::new(i16_of_pattern(bits)))
            } else if size == 4 {
                NativeCell::I32(AtomicI32::new(i32_of_pattern(bits)))
            } else {
                NativeCell::I64(AtomicI64::new(i64_of_pattern(bits)))
            }
        } else if size == 1 {
            NativeCell::U8(AtomicU8::new(bits as u8))
        } else if size == 2 {
            NativeCell::U16(AtomicU16::new(bits as u16))
        } else if size == 4 {
            NativeCell::U32(AtomicU32::new(bits as u32))
        } else {
            NativeCell::U64(AtomicU64::new(bits))
        };
        Atomic { cell, marker: PhantomData }
    }

    /// Creates a cell holding `value` when `T` has the size and alignment of
    /// one of the native widths, and `None` otherwise.
    pub fn try_new(value: T) -> (r: Option<Atomic<T>>)
        ensures
            r is Some <==> spec_select_width(size_of::<T>(), align_of::<T>()) is Some,
            r matches Some(c) ==> spec_select_width(size_of::<T>(), align_of::<T>()) == Some(c.width()),
    {
        if select_width(core::mem::size_of::<T>(), core::mem::align_of::<T>()).is_some() {
            Some(Atomic::new(value))
        } else {
            None
        }
    }

    /// Loads the value. `order` must be `Relaxed`, `Acquire` or `SeqCst`.
    pub fn load(&self, order: Ordering) -> (r: T)
        requires
            is_load_ordering(order),
    {
        proof {
            use_type_invariant(self);
        }
        let bits: u64 = match &self.cell {
            NativeCell::Flag(a) => if a.load(order) {
                1
            } else {
                0
            },
            NativeCell::U8(a) => a.load(order) as u64,
            NativeCell::U16(a) => a.load(order) as u64,
            NativeCell::U32(a) => a.load(order) as u64,
            NativeCell::U64(a) => a.load(order),
            NativeCell::I8(a) => pattern_of_i8(a.load(order)),
            NativeCell::I16(a) => pattern_of_i16(a.load(order)),
            NativeCell::I32(a) => pattern_of_i32(a.load(order)),
            NativeCell::I64(a) => pattern_of_i64(a.load(order)),
        };
        T::from_bits(bits)
    }

    /// Stores `val`. `order` must be `Relaxed`, `Release` or `SeqCst`.
    pub fn store(&self, val: T, order: Ordering)
        requires
            is_store_ordering(order),
    {
        proof {
            use_type_invariant(self);
        }
        let bits = val.to_bits();
        match &self.cell {
            NativeCell::Flag(a) => a.store(bits != 0, order),
            NativeCell::U8(a) => a.store(bits as u8, order),
            NativeCell::U16(a) => a.store(bits as u16, order),
            NativeCell::U32(a) => a.store(bits as u32, order),
            NativeCell::U64(a) => a.store(bits, order),
            NativeCell::I8(a) => a.store(i8_of_pattern(bits), order),
            NativeCell::I16(a) => a.store(i16_of_pattern(bits), order),
            NativeCell::I32(a) => a.store(i32_of_pattern(bits), order),
            NativeCell::I64(a) => a.store(i64_of_pattern(bits), order),
        }
    }

    /// Stores `val` and returns the value it replaced. Every ordering is
    /// accepted.
    pub fn swap(&self, val: T, order: Ordering) -> (r: T) {
        proof {
            use_type_invariant(self);
        }
        let bits = val.to_bits();
        let prev: u64 = match &self.cell {
            NativeCell::Flag(a) => if a.swap(bits != 0, order) {
                1
            } else {
                0
            },
            NativeCell::U8(a) => a.swap(bits as u8, order) as u64,
            NativeCell::U16(a) => a.swap(bits as u16, order) as u64,
            NativeCell::U32(a) => a.swap(bits as u32, order) as u64,
            NativeCell::U64(a) => a.swap(bits, order),
            NativeCell::I8(a) => pattern_of_i8(a.swap(i8_of_pattern(bits), order)),
            NativeCell::I16(a) => pattern_of_i16(a.swap(i16_of_pattern(bits), order)),
            NativeCell::I32(a) => pattern_of_i32(a.swap(i32_of_pattern(bits), order)),
            NativeCell::I64(a) => pattern_of_i64(a.swap(i64_of_pattern(bits), order)),
        };
        T::from_bits(prev)
    }

    /// Stores `new` if the cell holds `current`, and returns the value the
    /// cell held: `Ok` when it was `current` and `new` was written, `Err`
    /// with the other value when it was not, and nothing was written.
    /// `failure` must be `Relaxed`, `Acquire` or `SeqCst`.
    pub fn compare_exchange(
        &self,
        current: T,
        new: T,
        success: Ordering,
        failure: Ordering,
    ) -> (r: Result<T, T>)
        requires
            is_load_ordering(failure),
        ensures
            r matches Ok(p) ==> p == current,
            r matches Err(p) ==> p != current,
    {
        proof {
            use_type_invariant(self);
        }
        let c = current.to_bits();
        let n = new.to_bits();
        let bits: Result<u64, u64> = match &self.cell {
            NativeCell::Flag(a) => match compare_exchange_bool(a, c != 0, n != 0, success, failure) {
                Ok(p) => Ok(pattern_of_flag(p)),
                Err(p) => Err(pattern_of_flag(p)),
            },
            NativeCell::U8(a) => match compare_exchange_u8(a, c as u8, n as u8, success, failure) {
                Ok(p) => Ok(p as u64),
                Err(p) => Err(p as u64),
            },
            NativeCell::U16(a) => match compare_exchange_u16(a, c as u16, n as u16, success, failure) {
                Ok(p) => Ok(p as u64),
                Err(p) => Err(p as u64),
            },
            NativeCell::U32(a) => match compare_exchange_u32(a, c as u32, n as u32, success, failure) {
                Ok(p) => Ok(p as u64),
                Err(p) => Err(p as u64),
            },
            NativeCell::U64(a) => compare_exchange_u64(a, c, n, success, failure),
            NativeCell::I8(a) => {
                let ci = i8_of_pattern(c);
                match compare_exchange_i8(a, ci, i8_of_pattern(n), success, failure) {
                    Ok(p) => Ok(pattern_of_i8(p)),
                    Err(p) => {
                        proof {
                            assert(p as u8 as u64 == ci as u8 as u64 ==> p == ci) by (bit_vector);
                        }
                        Err(pattern_of_i8(p))
                    },
                }
            },
            NativeCell::I16(a) => {
                let ci = i16_of_pattern(c);
                match compare_exchange_i16(a, ci, i16_of_pattern(n), success, failure) {
                    Ok(p) => Ok(pattern_of_i16(p)),
                    Err(p) => {
                        proof {
                            assert(p as u16 as u64 == ci as u16 as u64 ==> p == ci) by (bit_vector);
                        }
                        Err(pattern_of_i16(p))
                    },
                }
            },
            NativeCell::I32(a) => {
                let ci = i32_of_pattern(c);
                match compare_exchange_i32(a, ci, i32_of_pattern(n), success, failure) {
                    Ok(p) => Ok(pattern_of_i32(p)),
                    Err(p) => {
                        proof {
                            assert(p as u32 as u64 == ci as u32 as u64 ==> p == ci) by (bit_vector);
                        }
                        Err(pattern_of_i32(p))
                    },
                }
            },
            NativeCell::I64(a) => {
                let ci = i64_of_pattern(c);
                match compare_exchange_i64(a, ci, i64_of_pattern(n), success, failure) {
                    Ok(p) => Ok(pattern_of_i64(p)),
                    Err(p) => {
                        proof {
                            assert(p as u64 == ci as u64 ==> p == ci) by (bit_vector);
                        }
                        Err(pattern_of_i64(p))
                    },
                }
            },
        };
        proof {
            T::lemma_from_bits_of_bits(current);
            if let Err(b) = bits {
                T::lemma_bits_of_from_bits(b);
            }
        }
        map_result(bits)
    }

    /// Like `compare_exchange`, but may fail even when the cell holds
    /// `current`; a failure writes nothing. Meant to be retried in a loop.
    /// `failure` must be `Relaxed`, `Acquire` or `SeqCst`.
    pub fn compare_exchange_weak(
        &self,
        current: T,
        new: T,
        success: Ordering,
        failure: Ordering,
    ) -> (r: Result<T, T>)
        requires
            is_load_ordering(failure),
        ensures
            r matches Ok(p) ==> p == current,
    {
        proof {
            use_type_invariant(self);
        }
        let c = current.to_bits();
        let n = new.to_bits();
        let bits: Result<u64, u64> = match &self.cell {
            NativeCell::Flag(a) => match compare_exchange_weak_bool(a, c != 0, n != 0, success, failure) {
                Ok(p) => Ok(pattern_of_flag(p)),
                Err(p) => Err(pattern_of_flag(p)),
            },
            NativeCell::U8(a) => match compare_exchange_weak_u8(a, c as u8, n as u8, success, failure) {
                Ok(p) => Ok(p as u64),
                Err(p) => Err(p as u64),
            },
            NativeCell::U16(a) => match compare_exchange_weak_u16(a, c as u16, n as u16, success, failure) {
                Ok(p) => Ok(p as u64),
                Err(p) => Err(p as u64),
            },
            NativeCell::U32(a) => match compare_exchange_weak_u32(a, c as u32, n as u32, success, failure) {
                Ok(p) => Ok(p as u64),
                Err(p) => Err(p as u64),
            },
            NativeCell::U64(a) => compare_exchange_weak_u64(a, c, n, success, failure),
            NativeCell::I8(a) => {
                let ci = i8_of_pattern(c);
                match compare_exchange_weak_i8(a, ci, i8_of_pattern(n), success, failure) {
                    Ok(p) => Ok(pattern_of_i8(p)),
                    Err(p) => {
                        Err(pattern_of_i8(p))
                    },
                }
            },
            NativeCell::I16(a) => {
                let ci = i16_of_pattern(c);
                match compare_exchange_weak_i16(a, ci, i16_of_pattern(n), success, failure) {
                    Ok(p) => Ok(pattern_of_i16(p)),
                    Err(p) => {
                        Err(pattern_of_i16(p))
                    },
                }
            },
            NativeCell::I32(a) => {
                let ci = i32_of_pattern(c);
                match compare_exchange_weak_i32(a, ci, i32_of_pattern(n), success, failure) {
                    Ok(p) => Ok(pattern_of_i32(p)),
                    Err(p) => {
                        Err(pattern_of_i32(p))
                    },
                }
            },
            NativeCell::I64(a) => {
                let ci = i64_of_pattern(c);
                match compare_exchange_weak_i64(a, ci, i64_of_pattern(n), success, failure) {
                    Ok(p) => Ok(pattern_of_i64(p)),
                    Err(p) => {
                        Err(pattern_of_i64(p))
                    },
                }
            },
        };
        proof {
            T::lemma_from_bits_of_bits(current);
        }
        map_result(bits)
    }

    /// Consumes the cell and returns its value.
    pub fn into_inner(self) -> (r: T) {
        self.load(Ordering::Relaxed)
    }

    /// Applies `f` to the value and stores what it returns, retrying on a
    /// value that another thread wrote in between.
    ///
    /// Each round is decided by `update_step` and `exchange_outcome`: the
    /// first round observes the value loaded with `fetch_order`; `f` gives
    /// `None` on it, and the result is `Err` of that value with nothing
    /// written, or `Some(n)`, and the pair (observed, `n`) goes to
    /// `compare_exchange_weak`. Its `Ok(p)` ends the update with `Ok(p)`, the
    /// observed value; its `Err(p)` starts the next round, observing `p`. So
    /// `f` may be called more than once, and the store happens at most once.
    /// `fetch_order` must be `Relaxed`, `Acquire` or `SeqCst`.
    ///
    /// The retries are bounded: after `u64::MAX` weak exchanges in a row that
    /// failed, the last round uses a strong `compare_exchange`, and its `Err`
    /// ends the update with the value found, which differs from the observed
    /// value on which `f` gave `Some`.
    pub fn fetch_update<F: Fn(T) -> Option<T>>(
        &self,
        set_order: Ordering,
        fetch_order: Ordering,
        f: F,
    ) -> (r: Result<T, T>)
        requires
            is_load_ordering(fetch_order),
            forall|x: T| f.requires((x,)),
        ensures
            r matches Ok(p) ==> exists|n: T| f.ensures((p,), Some(n)),
            r matches Err(p) ==> f.ensures((p,), None) || exists|x: T, n: T|
                #![trigger f.ensures((x,), Some(n))]
                f.ensures((x,), Some(n)) && x != p,
            (forall|x: T, n: Option<T>| f.ensures((x,), n) ==> n is None) ==> r is Err,
    {
        let mut observed = self.load(fetch_order);
        let mut attempts: u64 = 0;
        loop
            invariant
                is_load_ordering(fetch_order),
                forall|x: T| f.requires((x,)),
            decreases u64::MAX - attempts,
        {
            let proposed = f(observed);
            match update_step(observed, proposed) {
                UpdateStep::Finish(r) => return r,
                UpdateStep::Exchange(current, new) => {
                    if attempts == u64::MAX {
                        return self.compare_exchange(current, new, set_order, fetch_order);
                    }
                    let exchanged = self.compare_exchange_weak(current, new, set_order, fetch_order);
                    match exchange_outcome(exchanged) {
                        ExchangeOutcome::Finish(r) => return r,
                        ExchangeOutcome::Retry(found) => {
                            observed = found;
                            attempts = attempts + 1;
                        },
                    }
                },
            }
        }
    }
}

impl Atomic<bool> {
    /// Logical and with the current value; returns the previous value.
    pub fn fetch_and(&self, val: bool, order: Ordering) -> bool {
        self.native_flag().fetch_and(val, order)
    }

    /// Logical nand with the current value; returns the previous value.
    pub fn fetch_nand(&self, val: bool, order: Ordering) -> bool {
        self.native_flag().fetch_nand(val, order)
    }

    /// Logical or with the current value; returns the previous value.
    pub fn fetch_or(&self, val: bool, order: Ordering) -> bool {
        self.native_flag().fetch_or(val, order)
    }

    /// Logical xor with the current value; returns the previous value.
    pub fn fetch_xor(&self, val: bool, order: Ordering) -> bool {
        self.native_flag().fetch_xor(val, order)
    }
}

impl<T: AtomicRepr + Default> Default for Atomic<T> {
    /// A cell holding `T`'s default value, in the native atomic of `T`'s size.
    /// `default` takes no precondition, so unlike `new` it does not test the
    /// alignment.
    fn default() -> (r: Self)
        ensures
            r.width().spec_bytes() == size_of::<T>(),
            spec_select_width(size_of::<T>(), align_of::<T>()) is Some ==> spec_select_width(
                size_of::<T>(),
                align_of::<T>(),
            ) == Some(r.width()),
    {
        Atomic::with_native_cell(T::default())
    }
}

impl Atomic<u8> {
    /// Bitwise and with the current value; returns the previous value.
    pub fn fetch_and(&self, val: u8, order: Ordering) -> u8 {
        self.native_u8().fetch_and(val, order)
    }

    /// Bitwise nand with the current value; returns the previous value.
    pub fn fetch_nand(&self, val: u8, order: Ordering) -> u8 {
        self.native_u8().fetch_nand(val, order)
    }

    /// Bitwise or with the current value; returns the previous value.
    pub fn fetch_or(&self, val: u8, order: Ordering) -> u8 {
        self.native_u8().fetch_or(val, order)
    }

    /// Bitwise xor with the current value; returns the previous value.
    pub fn fetch_xor(&self, val: u8, order: Ordering) -> u8 {
        self.native_u8().fetch_xor(val, order)
    }

    /// Adds to the current value, wrapping around at the type's bounds; returns the previous value.
    pub fn fetch_add(&self, val: u8, order: Ordering) -> u8 {
        self.native_u8().fetch_add(val, order)
    }

    /// Subtracts from the current value, wrapping around at the type's bounds; returns the previous value.
    pub fn fetch_sub(&self, val: u8, order: Ordering) -> u8 {
        self.native_u8().fetch_sub(val, order)
    }

    /// Sets the value to the minimum of it and `val`; returns the previous value.
    pub fn fetch_min(&self, val: u8, order: Ordering) -> u8 {
        self.native_u8().fetch_min(val, order)
    }

    /// Sets the value to the maximum of it and `val`; returns the previous value.
    pub fn fetch_max(&self, val: u8, order: Ordering) -> u8 {
        self.native_u8().fetch_max(val, order)
    }
}

impl Atomic<i8> {
    /// Bitwise and with the current value; returns the previous value.
    pub fn fetch_and(&self, val: i8, order: Ordering) -> i8 {
        self.native_i8().fetch_and(val, order)
    }

    /// Bitwise nand with the current value; returns the previous value.
    pub fn fetch_nand(&self, val: i8, order: Ordering) -> i8 {
        self.native_i8().fetch_nand(val, order)
    }

    /// Bitwise or with the current value; returns the previous value.
    pub fn fetch_or(&self, val: i8, order: Ordering) -> i8 {
        self.native_i8().fetch_or(val, order)
    }

    /// Bitwise xor with the current value; returns the previous value.
    pub fn fetch_xor(&self, val: i8, order: Ordering) -> i8 {
        self.native_i8().fetch_xor(val, order)
    }

    /// Adds to the current value, wrapping around at the type's bounds; returns the previous value.
    pub fn fetch_add(&self, val: i8, order: Ordering) -> i8 {
        self.native_i8().fetch_add(val, order)
    }

    /// Subtracts from the current value, wrapping around at the type's bounds; returns the previous value.
    pub fn fetch_sub(&self, val: i8, order: Ordering) -> i8 {
        self.native_i8().fetch_sub(val, order)
    }

    /// Sets the value to the minimum of it and `val`; returns the previous value.
    pub fn fetch_min(&self, val: i8, order: Ordering) -> i8 {
        self.native_i8().fetch_min(val, order)
    }

    /// Sets the value to the maximum of it and `val`; returns the previous value.
    pub fn fetch_max(&self, val: i8, order: Ordering) -> i8 {
        self.native_i8().fetch_max(val, order)
    }
}

impl Atomic<u16> {
    /// Bitwise and with the current value; returns the previous value.
    pub fn fetch_and(&self, val: u16, order: Ordering) -> u16 {
        self.native_u16().fetch_and(val, order)
    }

    /// Bitwise nand with the current value; returns the previous value.
    pub fn fetch_nand(&self, val: u16, order: Ordering) -> u16 {
        self.native_u16().fetch_nand(val, order)
    }

    /// Bitwise or with the current value; returns the previous value.
    pub fn fetch_or(&self, val: u16, order: Ordering) -> u16 {
        self.native_u16().fetch_or(val, order)
    }

    /// Bitwise xor with the current value; returns the previous value.
    pub fn fetch_xor(&self, val: u16, order: Ordering) -> u16 {
        self.native_u16().fetch_xor(val, order)
    }

    /// Adds to the current value, wrapping around at the type's bounds; returns the previous value.
    pub fn fetch_add(&self, val: u16, order: Ordering) -> u16 {
        self.native_u16().fetch_add(val, order)
    }

    /// Subtracts from the current value, wrapping around at the type's bounds; returns the previous value.
    pub fn fetch_sub(&self, val: u16, order: Ordering) -> u16 {
        self.native_u16().fetch_sub(val, order)
    }

    /// Sets the value to the minimum of it and `val`; returns the previous value.
    pub fn fetch_min(&self, val: u16, order: Ordering) -> u16 {
        self.native_u16().fetch_min(val, order)
    }

    /// Sets the value to the maximum of it and `val`; returns the previous value.
    pub fn fetch_max(&self, val: u16, order: Ordering) -> u16 {
        self.native_u16().fetch_max(val, order)
    }
}

impl Atomic<i16> {
    /// Bitwise and with the current value; returns the previous value.
    pub fn fetch_and(&self, val: i16, order: Ordering) -> i16 {
        self.native_i16().fetch_and(val, order)
    }

    /// Bitwise nand with the current value; returns the previous value.
    pub fn fetch_nand(&self, val: i16, order: Ordering) -> i16 {
        self.native_i16().fetch_nand(val, order)
    }

    /// Bitwise or with the current value; returns the previous value.
    pub fn fetch_or(&self, val: i16, order: Ordering) -> i16 {
        self.native_i16().fetch_or(val, order)
    }

    /// Bitwise xor with the current value; returns the previous value.
    pub fn fetch_xor(&self, val: i16, order: Ordering) -> i16 {
        self.native_i16().fetch_xor(val, order)
    }

    /// Adds to the current value, wrapping around at the type's bounds; returns the previous value.
    pub fn fetch_add(&self, val: i16, order: Ordering) -> i16 {
        self.native_i16().fetch_add(val, order)
    }

    /// Subtracts from the current value, wrapping around at the type's bounds; returns the previous value.
    pub fn fetch_sub(&self, val: i16, order: Ordering) -> i16 {
        self.native_i16().fetch_sub(val, order)
    }

    /// Sets the value to the minimum of it and `val`; returns the previous value.
    pub fn fetch_min(&self, val: i16, order: Ordering) -> i16 {
        self.native_i16().fetch_min(val, order)
    }

    /// Sets the value to the maximum of it and `val`; returns the previous value.
    pub fn fetch_max(&self, val: i16, order: Ordering) -> i16 {
        self.native_i16().fetch_max(val, order)
    }
}

impl Atomic<u32> {
    /// Bitwise and with the current value; returns the previous value.
    pub fn fetch_and(&self, val: u32, order: Ordering) -> u32 {
        self.native_u32().fetch_and(val, order)
    }

    /// Bitwise nand with the current value; returns the previous value.
    pub fn fetch_nand(&self, val: u32, order: Ordering) -> u32 {
        self.native_u32().fetch_nand(val, order)
    }

    /// Bitwise or with the current value; returns the previous value.
    pub fn fetch_or(&self, val: u32, order: Ordering) -> u32 {
        self.native_u32().fetch_or(val, order)
    }

    /// Bitwise xor with the current value; returns the previous value.
    pub fn fetch_xor(&self, val: u32, order: Ordering) -> u32 {
        self.native_u32().fetch_xor(val, order)
    }

    /// Adds to the current value, wrapping around at the type's bounds; returns the previous value.
    pub fn fetch_add(&self, val: u32, order: Ordering) -> u32 {
        self.native_u32().fetch_add(val, order)
    }

    /// Subtracts from the current value, wrapping around at the type's bounds; returns the previous value.
    pub fn fetch_sub(&self, val: u32, order: Ordering) -> u32 {
        self.native_u32().fetch_sub(val, order)
    }

    /// Sets the value to the minimum of it and `val`; returns the previous value.
    pub fn fetch_min(&self, val: u32, order: Ordering) -> u32 {
        self.native_u32().fetch_min(val, order)
    }

    /// Sets the value to the maximum of it and `val`; returns the previous value.
    pub fn fetch_max(&self, val: u32, order: Ordering) -> u32 {
        self.native_u32().fetch_max(val, order)
    }
}

impl Atomic<i32> {
    /// Bitwise and with the current value; returns the previous value.
    pub fn fetch_and(&self, val: i32, order: Ordering) -> i32 {
        self.native_i32().fetch_and(val, order)
    }

    /// Bitwise nand with the current value; returns the previous value.
    pub fn fetch_nand(&self, val: i32, order: Ordering) -> i32 {
        self.native_i32().fetch_nand(val, order)
    }

    /// Bitwise or with the current value; returns the previous value.
    pub fn fetch_or(&self, val: i32, order: Ordering) -> i32 {
        self.native_i32().fetch_or(val, order)
    }

    /// Bitwise xor with the current value; returns the previous value.
    pub fn fetch_xor(&self, val: i32, order: Ordering) -> i32 {
        self.native_i32().fetch_xor(val, order)
    }

    /// Adds to the current value, wrapping around at the type's bounds; returns the previous value.
    pub fn fetch_add(&self, val: i32, order: Ordering) -> i32 {
        self.native_i32().fetch_add(val, order)
    }

    /// Subtracts from the current value, wrapping around at the type's bounds; returns the previous value.
    pub fn fetch_sub(&self, val: i32, order: Ordering) -> i32 {
        self.native_i32().fetch_sub(val, order)
    }

    /// Sets the value to the minimum of it and `val`; returns the previous value.
    pub fn fetch_min(&self, val: i32, order: Ordering) -> i32 {
        self.native_i32().fetch_min(val, order)
    }

    /// Sets the value to the maximum of it and `val`; returns the previous value.
    pub fn fetch_max(&self, val: i32, order: Ordering) -> i32 {
        self.native_i32().fetch_max(val, order)
    }
}

impl Atomic<u64> {
    /// Bitwise and with the current value; returns the previous value.
    pub fn fetch_and(&self, val: u64, order: Ordering) -> u64 {
        self.native_u64().fetch_and(val, order)
    }

    /// Bitwise nand with the current value; returns the previous value.
    pub fn fetch_nand(&self, val: u64, order: Ordering) -> u64 {
        self.native_u64().fetch_nand(val, order)
    }

    /// Bitwise or with the current value; returns the previous value.
    pub fn fetch_or(&self, val: u64, order: Ordering) -> u64 {
        self.native_u64().fetch_or(val, order)
    }

    /// Bitwise xor with the current value; returns the previous value.
    pub fn fetch_xor(&self, val: u64, order: Ordering) -> u64 {
        self.native_u64().fetch_xor(val, order)
    }

    /// Adds to the current value, wrapping around at the type's bounds; returns the previous value.
    pub fn fetch_add(&self, val: u64, order: Ordering) -> u64 {
        self.native_u64().fetch_add(val, order)
    }

    /// Subtracts from the current value, wrapping around at the type's bounds; returns the previous value.
    pub fn fetch_sub(&self, val: u64, order: Ordering) -> u64 {
        self.native_u64().fetch_sub(val, order)
    }

    /// Sets the value to the minimum of it and `val`; returns the previous value.
    pub fn fetch_min(&self, val: u64, order: Ordering) -> u64 {
        self.native_u64().fetch_min(val, order)
    }

    /// Sets the value to the maximum of it and `val`; returns the previous value.
    pub fn fetch_max(&self, val: u64, order: Ordering) -> u64 {
        self.native_u64().fetch_max(val, order)
    }
}

impl Atomic<i64> {
    /// Bitwise and with the current value; returns the previous value.
    pub fn fetch_and(&self, val: i64, order: Ordering) -> i64 {
        self.native_i64().fetch_and(val, order)
    }

    /// Bitwise nand with the current value; returns the previous value.
    pub fn fetch_nand(&self, val: i64, order: Ordering) -> i64 {
        self.native_i64().fetch_nand(val, order)
    }

    /// Bitwise or with the current value; returns the previous value.
    pub fn fetch_or(&self, val: i64, order: Ordering) -> i64 {
        self.native_i64().fetch_or(val, order)
    }

    /// Bitwise xor with the current value; returns the previous value.
    pub fn fetch_xor(&self, val: i64, order: Ordering) -> i64 {
        self.native_i64().fetch_xor(val, order)
    }

    /// Adds to the current value, wrapping around at the type's bounds; returns the previous value.
    pub fn fetch_add(&self, val: i64, order: Ordering) -> i64 {
        self.native_i64().fetch_add(val, order)
    }

    /// Subtracts from the current value, wrapping around at the type's bounds; returns the previous value.
    pub fn fetch_sub(&self, val: i64, order: Ordering) -> i64 {
        self.native_i64().fetch_sub(val, order)
    }

    /// Sets the value to the minimum of it and `val`; returns the previous value.
    pub fn fetch_min(&self, val: i64, order: Ordering) -> i64 {
        self.native_i64().fetch_min(val, order)
    }

    /// Sets the value to the maximum of it and `val`; returns the previous value.
    pub fn fetch_max(&self, val: i64, order: Ordering) -> i64 {
        self.native_i64().fetch_max(val, order)
    }
}

impl Atomic<usize> {
    /// Bitwise and with the current value; returns the previous value.
    pub fn fetch_and(&self, val: usize, order: Ordering) -> usize {
        if core::mem::size_of::<usize>() == 8 {
            self.native_u64().fetch_and(val as u64, order) as usize
        } else {
            self.native_u32().fetch_and(val as u32, order) as usize
        }
    }

    /// Bitwise nand with the current value; returns the previous value.
    pub fn fetch_nand(&self, val: usize, order: Ordering) -> usize {
        if core::mem::size_of::<usize>() == 8 {
            self.native_u64().fetch_nand(val as u64, order) as usize
        } else {
            self.native_u32().fetch_nand(val as u32, order) as usize
        }
    }

    /// Bitwise or with the current value; returns the previous value.
    pub fn fetch_or(&self, val: usize, order: Ordering) -> usize {
        if core::mem::size_of::<usize>() == 8 {
            self.native_u64().fetch_or(val as u64, order) as usize
        } else {
            self.native_u32().fetch_or(val as u32, order) as usize
        }
    }

    /// Bitwise xor with the current value; returns the previous value.
    pub fn fetch_xor(&self, val: usize, order: Ordering) -> usize {
        if core::mem::size_of::<usize>() == 8 {
            self.native_u64().fetch_xor(val as u64, order) as usize
        } else {
            self.native_u32().fetch_xor(val as u32, order) as usize
        }
    }

    /// Adds to the current value, wrapping around at the type's bounds; returns the previous value.
    pub fn fetch_add(&self, val: usize, order: Ordering) -> usize {
        if core::mem::size_of::<usize>() == 8 {
            self.native_u64().fetch_add(val as u64, order) as usize
        } else {
            self.native_u32().fetch_add(val as u32, order) as usize
        }
    }

    /// Subtracts from the current value, wrapping around at the type's bounds; returns the previous value.
    pub fn fetch_sub(&self, val: usize, order: Ordering) -> usize {
        if core::mem::size_of::<usize>() == 8 {
            self.native_u64().fetch_sub(val as u64, order) as usize
        } else {
            self.native_u32().fetch_sub(val as u32, order) as usize
        }
    }

    /// Sets the value to the minimum of it and `val`; returns the previous value.
    pub fn fetch_min(&self, val: usize, order: Ordering) -> usize {
        if core::mem::size_of::<usize>() == 8 {
            self.native_u64().fetch_min(val as u64, order) as usize
        } else {
            self.native_u32().fetch_min(val as u32, order) as usize
        }
    }

    /// Sets the value to the maximum of it and `val`; returns the previous value.
    pub fn fetch_max(&self, val: usize, order: Ordering) -> usize {
        if core::mem::size_of::<usize>() == 8 {
            self.native_u64().fetch_max(val as u64, order) as usize
        } else {
            self.native_u32().fetch_max(val as u32, order) as usize
        }
    }
}

impl Atomic<isize> {
    /// Bitwise and with the current value; returns the previous value.
    pub fn fetch_and(&self, val: isize, order: Ordering) -> isize {
        if core::mem::size_of::<isize>() == 8 {
            self.native_i64().fetch_and(val as i64, order) as isize
        } else {
            self.native_i32().fetch_and(val as i32, order) as isize
        }
    }

    /// Bitwise nand with the current value; returns the previous value.
    pub fn fetch_nand(&self, val: isize, order: Ordering) -> isize {
        if core::mem::size_of::<isize>() == 8 {
            self.native_i64().fetch_nand(val as i64, order) as isize
        } else {
            self.native_i32().fetch_nand(val as i32, order) as isize
        }
    }

    /// Bitwise or with the current value; returns the previous value.
    pub fn fetch_or(&self, val: isize, order: Ordering) -> isize {
        if core::mem::size_of::<isize>() == 8 {
            self.native_i64().fetch_or(val as i64, order) as isize
        } else {
            self.native_i32().fetch_or(val as i32, order) as isize
        }
    }

    /// Bitwise xor with the current value; returns the previous value.
    pub fn fetch_xor(&self, val: isize, order: Ordering) -> isize {
        if core::mem::size_of::<isize>() == 8 {
            self.native_i64().fetch_xor(val as i64, order) as isize
        } else {
            self.native_i32().fetch_xor(val as i32, order) as isize
        }
    }

    /// Adds to the current value, wrapping around at the type's bounds; returns the previous value.
    pub fn fetch_add(&self, val: isize, order: Ordering) -> isize {
        if core::mem::size_of::<isize>() == 8 {
            self.native_i64().fetch_add(val as i64, order) as isize
        } else {
            self.native_i32().fetch_add(val as i32, order) as isize
        }
    }

    /// Subtracts from the current value, wrapping around at the type's bounds; returns the previous value.
    pub fn fetch_sub(&self, val: isize, order: Ordering) -> isize {
        if core::mem::size_of::<isize>() == 8 {
            self.native_i64().fetch_sub(val as i64, order) as isize
        } else {
            self.native_i32().fetch_sub(val as i32, order) as isize
        }
    }

    /// Sets the value to the minimum of it and `val`; returns the previous value.
    pub fn fetch_min(&self, val: isize, order: Ordering) -> isize {
        if core::mem::size_of::<isize>() == 8 {
            self.native_i64().fetch_min(val as i64, order) as isize
        } else {
            self.native_i32().fetch_min(val as i32, order) as isize
        }
    }

    /// Sets the value to the maximum of it and `val`; returns the previous value.
    pub fn fetch_max(&self, val: isize, order: Ordering) -> isize {
        if core::mem::size_of::<isize>() == 8 {
            self.native_i64().fetch_max(val as i64, order) as isize
        } else {
            self.native_i32().fetch_max(val as i32, order) as isize
        }
    }
}

} // verus!
