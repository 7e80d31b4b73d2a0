//! A relation between types that share one encoded representation.
use vstd::prelude::*;

verus! {

/// A marker that a type encodes to the same bytes as `T`: a value can then be
/// passed where an encoding of `T` is expected. A value and a reference to it
/// share their encoding, in both directions.
pub trait EncodeLike<T = Self>: Sized {}

impl<'a, T> EncodeLike<&'a T> for T {}

impl<'a, T> EncodeLike<T> for &'a T {}

} // verus!
