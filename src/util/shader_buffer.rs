//! A ring of per-frame-in-flight slots, each holding one packed record array.
//!
//! The pool keeps the CPU-side copy of what each slot's device buffer holds
//! and decides when a slot (buffer and descriptor set together) must be
//! created anew. The device objects that back slot `i` are created by the
//! caller whenever `write` at `i` reports `changed`, and dropped whenever the
//! pool is invalidated.
use vstd::prelude::*;

use crate::command::PassCommand;
use crate::error::RenderError;

verus! {

/// Whether frame slot `index` holds written content.
pub open spec fn slot_written<T>(slots: Seq<Option<Seq<T>>>, index: int) -> bool {
    0 <= index < slots.len() && slots[index] is Some
}

/// Whether writing `count` records at `index` must create the slot anew:
/// there is none yet, or the one there holds a different number of records
/// (its buffer has another size).
pub open spec fn write_recreates<T>(slots: Seq<Option<Seq<T>>>, index: int, count: nat) -> bool {
    !slot_written(slots, index) || slots[index]->Some_0.len() != count
}

/// The slots after `data` was written at `index`: the pool grows with empty
/// slots up to `index`, slot `index` holds exactly `data`, every other slot
/// is unchanged.
pub open spec fn slots_after_write<T>(
    slots: Seq<Option<Seq<T>>>,
    index: int,
    data: Seq<T>,
) -> Seq<Option<Seq<T>>> {
    let len = if index < slots.len() {
        slots.len() as int
    } else {
        index + 1
    };
    Seq::new(
        len as nat,
        |i: int|
            if i == index {
                Some(data)
            } else if i < slots.len() {
                slots[i]
            } else {
                None
            },
    )
}

/// A second write to a slot never recreates it when it carries as many
/// records as the first, and always recreates it when it carries another
/// number; either way the slot then holds exactly the second records and the
/// pool keeps its length.
pub proof fn lemma_rewrite_same_slot<T>(
    slots: Seq<Option<Seq<T>>>,
    index: int,
    first: Seq<T>,
    second: Seq<T>,
)
    requires
        0 <= index,
    ensures
        ({
            let after = slots_after_write(slots, index, first);
            let again = slots_after_write(after, index, second);
            &&& slot_written(after, index)
            &&& (second.len() == first.len() <==> !write_recreates(after, index, second.len()))
            &&& again[index] == Some(second)
            &&& again.len() == after.len()
        }),
{
}

/// A pool of per-frame slots of records of type `T`.
pub struct DynamicShaderBuffer<T> {
    per_image: Vec<Option<Vec<T>>>,
}

impl<T> View for DynamicShaderBuffer<T> {
    type V = Seq<Option<Seq<T>>>;

    /// Slot `i` is `None` until written, then the records last written there.
    closed spec fn view(&self) -> Seq<Option<Seq<T>>> {
        Seq::new(
            self.per_image@.len(),
            |i: int|
                match self.per_image@[i] {
                    Some(v) => Some(v@),
                    None => None,
                },
        )
    }
}

impl<T: Copy> DynamicShaderBuffer<T> {
    /// An empty pool: no slot is written.
    pub fn new() -> (r: Self)
        ensures
            r@ == Seq::<Option<Seq<T>>>::empty(),
    {
        DynamicShaderBuffer { per_image: Vec::new() }
    }

    /// Drops every slot, so that the next write to each index creates it
    /// anew. Used when the record layout itself changes.
    pub fn invalidate(&mut self)
        ensures
            final(self)@ == Seq::<Option<Seq<T>>>::empty(),
    {
        self.per_image.clear();
    }

    /// Whether slot `index` holds written content.
    pub fn contains_image_at(&self, index: usize) -> (r: bool)
        ensures
            r == slot_written(self@, index as int),
    {
        index < self.per_image.len() && self.per_image[index].is_some()
    }

    /// The number of records in slot `index`, 0 where it is not written.
    pub fn buffer_len(&self, index: usize) -> (r: usize)
        ensures
            slot_written(self@, index as int) ==> r == self@[index as int]->Some_0.len(),
            !slot_written(self@, index as int) ==> r == 0,
    {
        if index < self.per_image.len() {
            match &self.per_image[index] {
                Some(records) => records.len(),
                None => 0,
            }
        } else {
            0
        }
    }

    /// Overwrites slot `index` with `data`, creating the slot where it is
    /// missing or holds another number of records. Returns whether the slot
    /// was created anew; an existing slot of the right size is rewritten in
    /// place (even with identical content) and reports `false`.
    pub fn write(&mut self, index: usize, data: &[T]) -> (changed: bool)
        requires
            index < usize::MAX,
        ensures
            changed == write_recreates(old(self)@, index as int, data@.len()),
            final(self)@ == slots_after_write(old(self)@, index as int, data@),
    {
        let mut records: Vec<T> = Vec::new();
        let mut i: usize = 0;
        while i < data.len()
            invariant
                i <= data@.len(),
                records@ == data@.subrange(0, i as int),
            decreases data@.len() - i,
        {
            records.push(data[i]);
            i = i + 1;
        }
        assert(records@ =~= data@);
        let changed = if index < self.per_image.len() {
            match &self.per_image[index] {
                Some(old_records) => old_records.len() != data.len(),
                None => true,
            }
        } else {
            true
        };
        let ghost before = self@;
        let ghost before_raw = self.per_image@;
        while self.per_image.len() <= index
            invariant
                index < usize::MAX,
                before_raw.len() <= self.per_image@.len(),
                self.per_image@.len() <= index as int + 1 || self.per_image@.len() == before_raw.len(),
                forall|j: int| 0 <= j < before_raw.len() ==> #[trigger] self.per_image@[j] == before_raw[j],
                forall|j: int|
                    before_raw.len() <= j < self.per_image@.len() ==> #[trigger] self.per_image@[j] is None,
            decreases index as int + 1 - self.per_image@.len(),
        {
            self.per_image.push(None);
        }
        self.per_image[index] = Some(records);
        assert forall|j: int| 0 <= j < self@.len() implies #[trigger] self@[j] == slots_after_write(
            before,
            index as int,
            data@,
        )[j] by {
            if j != index as int && j < before.len() {
                assert(self.per_image@[j] == before_raw[j]);
            }
        }
        assert(self@ =~= slots_after_write(before, index as int, data@));
        changed
    }

    /// The records of slot `index`, or `None` where it is not written.
    pub fn read(&self, index: usize) -> (r: Option<Vec<T>>)
        ensures
            slot_written(self@, index as int) ==> r is Some && r->Some_0@ == self@[index as int]->Some_0,
            !slot_written(self@, index as int) ==> r is None,
    {
        if index < self.per_image.len() {
            match &self.per_image[index] {
                Some(records) => {
                    let mut out: Vec<T> = Vec::new();
                    let mut i: usize = 0;
                    while i < records.len()
                        invariant
                            i <= records@.len(),
                            out@ == records@.subrange(0, i as int),
                        decreases records@.len() - i,
                    {
                        out.push(records[i]);
                        i = i + 1;
                    }
                    assert(out@ =~= records@);
                    Some(out)
                },
                None => None,
            }
        } else {
            None
        }
    }

    /// The command that binds slot `index` at descriptor-set position
    /// `set_id`. Binding a slot that was never written is a contract
    /// violation: `UnwrittenSlot`.
    pub fn bind(&self, index: usize, set_id: u32) -> (r: Result<PassCommand, RenderError>)
        ensures
            slot_written(self@, index as int) ==> r == Ok::<PassCommand, RenderError>(
                PassCommand::BindFrameSlot { set_id, index },
            ),
            !slot_written(self@, index as int) ==> r == Err::<PassCommand, RenderError>(
                RenderError::UnwrittenSlot { index },
            ),
    {
        if self.contains_image_at(index) {
            Ok(PassCommand::BindFrameSlot { set_id, index })
        } else {
            Err(RenderError::UnwrittenSlot { index })
        }
    }
}

} // verus!
