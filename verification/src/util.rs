//! List materialization.
//!
//! The foreign library hands enumerations out as linked lists of opaque
//! element records.  [`read_list`] walks such a list once and produces an
//! owned, finite snapshot: a vector with one constructed wrapper per
//! element, in list order.  The result is not a live view; the original
//! foreign list cannot be re-walked through it.

use vstd::prelude::*;

verus! {

/// Materialize a foreign list into an owned vector.
///
/// `constructor` is handed each element record in list order and returns
/// the wrapped instance for it; it is invoked exactly once per element.
/// The output has one entry per element, each related to its element by
/// the constructor's postcondition.
pub fn read_list<E: Copy, T, F: Fn(E) -> T>(list: &Vec<E>, constructor: F) -> (r: Vec<T>)
    requires
        forall|i: int| 0 <= i < list@.len() ==> call_requires(constructor, (list@[i],)),
    ensures
        r@.len() == list@.len(),
        forall|i: int|
            0 <= i < list@.len() ==> call_ensures(constructor, (list@[i],), #[trigger] r@[i]),
{
    let n = list.len();
    let mut values: Vec<T> = Vec::new();
    let mut i: usize = 0;
    while i < n
        invariant
            i <= n,
            n == list@.len(),
            values@.len() == i,
            forall|j: int| 0 <= j < list@.len() ==> call_requires(constructor, (list@[j],)),
            forall|j: int|
                0 <= j < i ==> call_ensures(constructor, (list@[j],), #[trigger] values@[j]),
        decreases n - i,
    {
        let val = constructor(list[i]);
        values.push(val);
        i = i + 1;
    }
    values
}

} // verus!
