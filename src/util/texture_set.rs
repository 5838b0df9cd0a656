//! A ring of texture slots, each a descriptor set together with the texture
//! it refers to.
use vstd::prelude::*;

use crate::command::PassCommand;
use crate::error::RenderError;

verus! {

/// A pool of texture slots of type `S`. A slot value owns its descriptor set
/// and its texture together, so neither can outlive the other.
pub struct TextureSet<S> {
    per_image: Vec<S>,
}

impl<S> View for TextureSet<S> {
    type V = Seq<S>;

    closed spec fn view(&self) -> Seq<S> {
        self.per_image@
    }
}

impl<S> TextureSet<S> {
    /// An empty pool.
    pub fn new() -> (r: Self)
        ensures
            r@ == Seq::<S>::empty(),
    {
        TextureSet { per_image: Vec::new() }
    }

    /// Drops every slot.
    pub fn invalidate(&mut self)
        ensures
            final(self)@ == Seq::<S>::empty(),
    {
        self.per_image.clear();
    }

    /// The number of slots.
    pub fn len(&self) -> (r: usize)
        ensures
            r == self@.len(),
    {
        self.per_image.len()
    }

    /// Whether slot `index` exists.
    pub fn contains_image_at(&self, index: usize) -> (r: bool)
        ensures
            r == (index < self@.len()),
    {
        index < self.per_image.len()
    }

    /// The slot at `index`, if there is one.
    pub fn get(&self, index: usize) -> (r: Option<&S>)
        ensures
            index < self@.len() ==> r == Some(&self@[index as int]),
            index >= self@.len() ==> r is None,
    {
        if index < self.per_image.len() {
            Some(&self.per_image[index])
        } else {
            None
        }
    }

    /// Writes `slot` at `index`: appends it where `index` is the current
    /// length, replaces the slot there (old pair dropped whole) where
    /// `index` is below it. Either way the slot is new and `Ok(true)` is
    /// returned. An index past the end is a contract violation:
    /// `IndexPastEnd`, and the pool is left as it was.
    pub fn write_unique(&mut self, index: usize, slot: S) -> (r: Result<bool, RenderError>)
        ensures
            index < old(self)@.len() ==> r == Ok::<bool, RenderError>(true) && final(self)@ == old(
                self,
            )@.update(index as int, slot),
            index == old(self)@.len() ==> r == Ok::<bool, RenderError>(true) && final(self)@ == old(
                self,
            )@.push(slot),
            index > old(self)@.len() ==> r == Err::<bool, RenderError>(
                RenderError::IndexPastEnd { index, len: old(self)@.len() as usize },
            ) && final(self)@ == old(self)@,
    {
        let len = self.per_image.len();
        if index < len {
            self.per_image[index] = slot;
            Ok(true)
        } else if index == len {
            self.per_image.push(slot);
            Ok(true)
        } else {
            Err(RenderError::IndexPastEnd { index, len })
        }
    }

    /// The command that binds texture slot `index` at `set_id`;
    /// `UnwrittenSlot` where there is no such slot.
    pub fn bind(&self, index: usize, set_id: u32) -> (r: Result<PassCommand, RenderError>)
        ensures
            index < self@.len() ==> r == Ok::<PassCommand, RenderError>(
                PassCommand::BindTexture { set_id, index },
            ),
            index >= self@.len() ==> r == Err::<PassCommand, RenderError>(
                RenderError::UnwrittenSlot { index },
            ),
    {
        if index < self.per_image.len() {
            Ok(PassCommand::BindTexture { set_id, index })
        } else {
            Err(RenderError::UnwrittenSlot { index })
        }
    }
}

} // verus!
