//! Mathematical values of optional, fallible and repeated data.

use vstd::prelude::*;

verus! {

/// An optional value, by its view.
pub open spec fn option_view<T: View>(value: Option<T>) -> Option<T::V> {
    match value {
        Some(inner) => Some(inner@),
        None => None,
    }
}

/// A result, its success by its view and its error as it is.
pub open spec fn result_view<T: View, E>(value: Result<T, E>) -> Result<T::V, E> {
    match value {
        Ok(inner) => Ok(inner@),
        Err(error) => Err(error),
    }
}

/// A sequence, each item by its view.
pub open spec fn seq_view<T: View>(values: Seq<T>) -> Seq<T::V> {
    Seq::new(values.len(), |i: int| values[i]@)
}

} // verus!
