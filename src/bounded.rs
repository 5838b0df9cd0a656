//! What a fixed-capacity record list with a count header holds.
use vstd::prelude::*;

verus! {

/// The list `(count, elements)` packs `data` into `capacity` slots: `count`
/// is the number of records, the first `count` elements are the records in
/// order and every element after them is `zero`.
pub open spec fn packs<R>(list: (nat, Seq<R>), data: Seq<R>, zero: R, capacity: nat) -> bool {
    &&& data.len() <= capacity
    &&& list.0 == data.len()
    &&& list.1.len() == capacity
    &&& forall|i: int| 0 <= i < data.len() ==> #[trigger] list.1[i] == data[i]
    &&& forall|i: int| data.len() <= i < capacity ==> #[trigger] list.1[i] == zero
}

} // verus!
