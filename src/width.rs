//! Choosing the native atomic width for a value's size and alignment.
use vstd::prelude::*;

verus! {

/// One of the natively atomic widths.
#[derive(Clone, Copy, Debug, PartialEq, Eq, Structural)]
pub enum Width {
    W8,
    W16,
    W32,
    W64,
}

impl Width {
    /// Number of bytes of a value of this width.
    pub open spec fn spec_bytes(self) -> nat {
        match self {
            Width::W8 => 1,
            Width::W16 => 2,
            Width::W32 => 4,
            Width::W64 => 8,
        }
    }
}

/// The width that a value of `size` bytes aligned to `align` bytes is handled
/// with: the one whose byte count is `size` and whose native alignment (equal
/// to its byte count) is at most `align`. `None` when no width fits.
pub open spec fn spec_select_width(size: nat, align: nat) -> Option<Width> {
    if size == 1 && align >= 1 {
        Some(Width::W8)
    } else if size == 2 && align >= 2 {
        Some(Width::W16)
    } else if size == 4 && align >= 4 {
        Some(Width::W32)
    } else if size == 8 && align >= 8 {
        Some(Width::W64)
    } else {
        None
    }
}

/// Picks the native width for a value of `size` bytes aligned to `align`
/// bytes. A size that matches no width, or an alignment looser than the
/// matching width's, gives `None`: such a value is never widened or narrowed.
pub fn select_width(size: usize, align: usize) -> (r: Option<Width>)
    ensures
        r == spec_select_width(size as nat, align as nat),
{
    if size == 1 && align >= 1 {
        Some(Width::W8)
    } else if size == 2 && align >= 2 {
        Some(Width::W16)
    } else if size == 4 && align >= 4 {
        Some(Width::W32)
    } else if size == 8 && align >= 8 {
        Some(Width::W64)
    } else {
        None
    }
}

} // verus!
