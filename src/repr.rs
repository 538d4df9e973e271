//! Bit patterns of values that an atomic cell can hold.
use vstd::layout::size_of;
use vstd::prelude::*;

verus! {

broadcast use vstd::layout::layout_of_primitives;

/// Number of distinct bit patterns of a value of `bytes` bytes.
pub open spec fn bit_bound(bytes: nat) -> int {
    if bytes == 1 {
        0x100
    } else if bytes == 2 {
        0x1_0000
    } else if bytes == 4 {
        0x1_0000_0000
    } else {
        0x1_0000_0000_0000_0000
    }
}

/// A value that is nothing but its bit pattern, so that an atomic cell can
/// move it through the native atomic of its width without changing it.
///
/// The pattern is zero-extended to 64 bits and fits in the type's own size.
/// Every value has a valid pattern, every valid pattern is the pattern of one
/// value, and the two conversions are inverse to each other. A type is either
/// two-valued, with patterns 0 and 1 alone valid, or has every pattern of its
/// size valid.
pub trait AtomicRepr: Copy + Sized {
    /// The bit pattern of `self`.
    spec fn spec_bits(self) -> u64;

    /// The value whose bit pattern is `bits`.
    spec fn spec_from_bits(bits: u64) -> Self;

    /// Whether `bits` is the pattern of a value.
    spec fn spec_valid_bits(bits: u64) -> bool;

    /// Whether the type is a signed integer, kept in a signed native atomic
    /// so that its minimum and maximum follow the signed order.
    spec fn spec_signed() -> bool;

    /// Whether the type is a signed integer.
    fn signed() -> (r: bool)
        ensures
            r == Self::spec_signed(),
    ;

    /// The bit pattern of `self`, zero-extended.
    fn to_bits(self) -> (r: u64)
        ensures
            r == self.spec_bits(),
            Self::spec_valid_bits(r),
            (r as int) < bit_bound(size_of::<Self>()),
    ;

    /// The value whose bit pattern is `bits`.
    fn from_bits(bits: u64) -> (r: Self)
        requires
            Self::spec_valid_bits(bits),
        ensures
            r == Self::spec_from_bits(bits),
    ;

    /// Whether the type is two-valued, with patterns 0 and 1 alone valid;
    /// otherwise every pattern of its size is valid.
    fn two_valued() -> (r: bool)
        ensures
            r ==> size_of::<Self>() == 1,
            r ==> !Self::spec_signed(),
            r ==> forall|b: u64| #[trigger] Self::spec_valid_bits(b) <==> b < 2,
            !r ==> forall|b: u64| #[trigger] Self::spec_valid_bits(b) <==> (b as int) < bit_bound(size_of::<Self>()),
    ;

    /// The type has the size of one of the native widths.
    proof fn lemma_native_size()
        ensures
            size_of::<Self>() == 1 || size_of::<Self>() == 2 || size_of::<Self>() == 4
                || size_of::<Self>() == 8,
    ;

    /// Every valid pattern is the pattern of a value.
    proof fn lemma_bits_of_from_bits(bits: u64)
        requires
            Self::spec_valid_bits(bits),
        ensures
            Self::spec_from_bits(bits).spec_bits() == bits,
    ;

    /// The pattern of a value is valid and fits the type's size, and reading
    /// it back gives the value.
    proof fn lemma_from_bits_of_bits(v: Self)
        ensures
            Self::spec_valid_bits(v.spec_bits()),
            (v.spec_bits() as int) < bit_bound(size_of::<Self>()),
            Self::spec_from_bits(v.spec_bits()) == v,
    ;
}

impl AtomicRepr for u8 {
    open spec fn spec_bits(self) -> u64 {
        self as u64
    }

    open spec fn spec_from_bits(bits: u64) -> u8 {
        bits as u8
    }

    open spec fn spec_valid_bits(bits: u64) -> bool {
        (bits as int) < bit_bound(size_of::<u8>())
    }

    open spec fn spec_signed() -> bool {
        false
    }

    fn signed() -> (r: bool) {
        false
    }

    fn two_valued() -> (r: bool) {
        false
    }

    proof fn lemma_native_size() {
    }

    fn to_bits(self) -> (r: u64) {
        self as u64
    }

    fn from_bits(bits: u64) -> (r: u8) {
        bits as u8
    }

    proof fn lemma_from_bits_of_bits(v: u8) {
    }

    proof fn lemma_bits_of_from_bits(bits: u64) {
    }
}

impl AtomicRepr for i8 {
    open spec fn spec_bits(self) -> u64 {
        self as u8 as u64
    }

    open spec fn spec_from_bits(bits: u64) -> i8 {
        bits as u8 as i8
    }

    open spec fn spec_valid_bits(bits: u64) -> bool {
        (bits as int) < bit_bound(size_of::<i8>())
    }

    open spec fn spec_signed() -> bool {
        true
    }

    fn signed() -> (r: bool) {
        true
    }

    fn two_valued() -> (r: bool) {
        false
    }

    proof fn lemma_native_size() {
    }

    fn to_bits(self) -> (r: u64) {
        (#[verifier::truncate] (self as u8)) as u64
    }

    fn from_bits(bits: u64) -> (r: i8) {
        #[verifier::truncate] ((bits as u8) as i8)
    }

    proof fn lemma_from_bits_of_bits(v: i8) {
        assert((v as u8 as u64) as u8 as i8 == v) by (bit_vector);
    }

    proof fn lemma_bits_of_from_bits(bits: u64) {
        assert(bits < 0x100u64 ==> (bits as u8 as i8) as u8 as u64 == bits) by (bit_vector);
    }
}

impl AtomicRepr for u16 {
    open spec fn spec_bits(self) -> u64 {
        self as u64
    }

    open spec fn spec_from_bits(bits: u64) -> u16 {
        bits as u16
    }

    open spec fn spec_valid_bits(bits: u64) -> bool {
        (bits as int) < bit_bound(size_of::<u16>())
    }

    open spec fn spec_signed() -> bool {
        false
    }

    fn signed() -> (r: bool) {
        false
    }

    fn two_valued() -> (r: bool) {
        false
    }

    proof fn lemma_native_size() {
    }

    fn to_bits(self) -> (r: u64) {
        self as u64
    }

    fn from_bits(bits: u64) -> (r: u16) {
        bits as u16
    }

    proof fn lemma_from_bits_of_bits(v: u16) {
    }

    proof fn lemma_bits_of_from_bits(bits: u64) {
    }
}

impl AtomicRepr for i16 {
    open spec fn spec_bits(self) -> u64 {
        self as u16 as u64
    }

    open spec fn spec_from_bits(bits: u64) -> i16 {
        bits as u16 as i16
    }

    open spec fn spec_valid_bits(bits: u64) -> bool {
        (bits as int) < bit_bound(size_of::<i16>())
    }

    open spec fn spec_signed() -> bool {
        true
    }

    fn signed() -> (r: bool) {
        true
    }

    fn two_valued() -> (r: bool) {
        false
    }

    proof fn lemma_native_size() {
    }

    fn to_bits(self) -> (r: u64) {
        (#[verifier::truncate] (self as u16)) as u64
    }

    fn from_bits(bits: u64) -> (r: i16) {
        #[verifier::truncate] ((bits as u16) as i16)
    }

    proof fn lemma_from_bits_of_bits(v: i16) {
        assert((v as u16 as u64) as u16 as i16 == v) by (bit_vector);
    }

    proof fn lemma_bits_of_from_bits(bits: u64) {
        assert(bits < 0x1_0000u64 ==> (bits as u16 as i16) as u16 as u64 == bits) by (bit_vector);
    }
}

impl AtomicRepr for u32 {
    open spec fn spec_bits(self) -> u64 {
        self as u64
    }

    open spec fn spec_from_bits(bits: u64) -> u32 {
        bits as u32
    }

    open spec fn spec_valid_bits(bits: u64) -> bool {
        (bits as int) < bit_bound(size_of::<u32>())
    }

    open spec fn spec_signed() -> bool {
        false
    }

    fn signed() -> (r: bool) {
        false
    }

    fn two_valued() -> (r: bool) {
        false
    }

    proof fn lemma_native_size() {
    }

    fn to_bits(self) -> (r: u64) {
        self as u64
    }

    fn from_bits(bits: u64) -> (r: u32) {
        bits as u32
    }

    proof fn lemma_from_bits_of_bits(v: u32) {
    }

    proof fn lemma_bits_of_from_bits(bits: u64) {
    }
}

impl AtomicRepr for i32 {
    open spec fn spec_bits(self) -> u64 {
        self as u32 as u64
    }

    open spec fn spec_from_bits(bits: u64) -> i32 {
        bits as u32 as i32
    }

    open spec fn spec_valid_bits(bits: u64) -> bool {
        (bits as int) < bit_bound(size_of::<i32>())
    }

    open spec fn spec_signed() -> bool {
        true
    }

    fn signed() -> (r: bool) {
        true
    }

    fn two_valued() -> (r: bool) {
        false
    }

    proof fn lemma_native_size() {
    }

    fn to_bits(self) -> (r: u64) {
        (#[verifier::truncate] (self as u32)) as u64
    }

    fn from_bits(bits: u64) -> (r: i32) {
        #[verifier::truncate] ((bits as u32) as i32)
    }

    proof fn lemma_from_bits_of_bits(v: i32) {
        assert((v as u32 as u64) as u32 as i32 == v) by (bit_vector);
    }

    proof fn lemma_bits_of_from_bits(bits: u64) {
        assert(bits < 0x1_0000_0000u64 ==> (bits as u32 as i32) as u32 as u64 == bits) by (bit_vector);
    }
}

impl AtomicRepr for u64 {
    open spec fn spec_bits(self) -> u64 {
        self
    }

    open spec fn spec_from_bits(bits: u64) -> u64 {
        bits
    }

    open spec fn spec_valid_bits(bits: u64) -> bool {
        (bits as int) < bit_bound(size_of::<u64>())
    }

    open spec fn spec_signed() -> bool {
        false
    }

    fn signed() -> (r: bool) {
        false
    }

    fn two_valued() -> (r: bool) {
        false
    }

    proof fn lemma_native_size() {
    }

    fn to_bits(self) -> (r: u64) {
        self
    }

    fn from_bits(bits: u64) -> (r: u64) {
        bits
    }

    proof fn lemma_from_bits_of_bits(v: u64) {
    }

    proof fn lemma_bits_of_from_bits(bits: u64) {
    }
}

impl AtomicRepr for i64 {
    open spec fn spec_bits(self) -> u64 {
        self as u64
    }

    open spec fn spec_from_bits(bits: u64) -> i64 {
        bits as i64
    }

    open spec fn spec_valid_bits(bits: u64) -> bool {
        (bits as int) < bit_bound(size_of::<i64>())
    }

    open spec fn spec_signed() -> bool {
        true
    }

    fn signed() -> (r: bool) {
        true
    }

    fn two_valued() -> (r: bool) {
        false
    }

    proof fn lemma_native_size() {
    }

    fn to_bits(self) -> (r: u64) {
        #[verifier::truncate] (self as u64)
    }

    fn from_bits(bits: u64) -> (r: i64) {
        #[verifier::truncate] (bits as i64)
    }

    proof fn lemma_from_bits_of_bits(v: i64) {
        assert((v as u64) as i64 == v) by (bit_vector);
    }

    proof fn lemma_bits_of_from_bits(bits: u64) {
        assert((bits as i64) as u64 == bits) by (bit_vector);
    }
}

impl AtomicRepr for usize {
    open spec fn spec_bits(self) -> u64 {
        self as u64
    }

    open spec fn spec_from_bits(bits: u64) -> usize {
        bits as usize
    }

    open spec fn spec_valid_bits(bits: u64) -> bool {
        (bits as int) < bit_bound(size_of::<usize>())
    }

    open spec fn spec_signed() -> bool {
        false
    }

    fn signed() -> (r: bool) {
        false
    }

    fn two_valued() -> (r: bool) {
        false
    }

    proof fn lemma_native_size() {
    }

    fn to_bits(self) -> (r: u64) {
        self as u64
    }

    fn from_bits(bits: u64) -> (r: usize) {
        bits as usize
    }

    proof fn lemma_from_bits_of_bits(v: usize) {
    }

    proof fn lemma_bits_of_from_bits(bits: u64) {
    }
}

impl AtomicRepr for isize {
    open spec fn spec_bits(self) -> u64 {
        self as usize as u64
    }

    open spec fn spec_from_bits(bits: u64) -> isize {
        bits as usize as isize
    }

    open spec fn spec_valid_bits(bits: u64) -> bool {
        (bits as int) < bit_bound(size_of::<isize>())
    }

    open spec fn spec_signed() -> bool {
        true
    }

    fn signed() -> (r: bool) {
        true
    }

    fn two_valued() -> (r: bool) {
        false
    }

    proof fn lemma_native_size() {
    }

    fn to_bits(self) -> (r: u64) {
        (#[verifier::truncate] (self as usize)) as u64
    }

    fn from_bits(bits: u64) -> (r: isize) {
        #[verifier::truncate] ((bits as usize) as isize)
    }

    proof fn lemma_from_bits_of_bits(v: isize) {
        assert(((v as usize) as u64) as usize as isize == v) by (bit_vector);
    }

    proof fn lemma_bits_of_from_bits(bits: u64) {
        let u = bits as usize;
        assert(u as u64 == bits);
        assert((u as isize) as usize == u) by (bit_vector);
    }
}

impl AtomicRepr for bool {
    open spec fn spec_bits(self) -> u64 {
        if self {
            1
        } else {
            0
        }
    }

    open spec fn spec_from_bits(bits: u64) -> bool {
        bits != 0
    }

    open spec fn spec_valid_bits(bits: u64) -> bool {
        bits < 2
    }

    open spec fn spec_signed() -> bool {
        false
    }

    fn signed() -> (r: bool) {
        false
    }

    fn two_valued() -> (r: bool) {
        true
    }

    proof fn lemma_native_size() {
    }

    fn to_bits(self) -> (r: u64) {
        if self {
            1
        } else {
            0
        }
    }

    fn from_bits(bits: u64) -> (r: bool) {
        bits != 0
    }

    proof fn lemma_from_bits_of_bits(v: bool) {
    }

    proof fn lemma_bits_of_from_bits(bits: u64) {
    }
}

/// What a store writes for `v` fits the cell's width, and a load that finds
/// that pattern returns `v` again: a value crosses the cell unchanged.
pub proof fn lemma_stored_pattern_reads_back<T: AtomicRepr>(v: T)
    ensures
        T::spec_valid_bits(v.spec_bits()),
        (v.spec_bits() as int) < bit_bound(size_of::<T>()),
        T::spec_from_bits(v.spec_bits()) == v,
{
    T::lemma_from_bits_of_bits(v);
}

/// Two values with the same pattern are the same value, and every valid
/// pattern is the pattern of exactly one value.
pub proof fn lemma_patterns_match_values<T: AtomicRepr>(a: T, b: T, bits: u64)
    requires
        T::spec_valid_bits(bits),
    ensures
        a.spec_bits() == b.spec_bits() <==> a == b,
        T::spec_from_bits(bits).spec_bits() == bits,
{
    T::lemma_from_bits_of_bits(a);
    T::lemma_from_bits_of_bits(b);
    T::lemma_bits_of_from_bits(bits);
}

} // verus!
