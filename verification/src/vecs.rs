//! Moving elements out of vectors in order.
use vstd::prelude::*;

verus! {

/// The elements of `v` in reverse order.
pub fn reversed<T>(v: Vec<T>) -> (r: Vec<T>)
    ensures
        r@.len() == v@.len(),
        forall|j: int| 0 <= j < r@.len() ==> #[trigger] r@[j] == v@[v@.len() - 1 - j],
{
    let ghost orig = v@;
    let mut data = v;
    let mut rest: Vec<T> = Vec::new();
    while data.len() > 0
        invariant
            rest@.len() + data@.len() == orig.len(),
            data@ == orig.subrange(0, data@.len() as int),
            forall|j: int| 0 <= j < rest@.len() ==> #[trigger] rest@[j] == orig[orig.len() - 1 - j],
        decreases data.len(),
    {
        let e = data.pop().unwrap();
        rest.push(e);
    }
    rest
}

} // verus!
