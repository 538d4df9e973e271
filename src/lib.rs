//! Generic atomic cell.
//!
//! `Atomic<T>` holds any value whose size and alignment match one of the
//! native atomic widths (1, 2, 4 or 8 bytes). `new` accepts a type only when
//! `select_width` finds a width for its size and alignment; the cell then
//! keeps the value's bit pattern in the native atomic of that width, and
//! every operation moves the pattern through it unchanged. Signed integers
//! use the signed native atomic, so that their minimum and maximum follow the
//! signed order; two-valued types such as `bool` use the native flag. `fetch_update` is a retry loop
//! whose rounds are decided by the functions of `update`.

pub use atomic::Atomic;
pub use core::sync::atomic::Ordering;

pub mod atomic;
mod native;
pub mod ordering;
pub mod repr;
pub mod update;
pub mod width;
