//! A single storage buffer of records that is replaced whole on each write.
use vstd::prelude::*;

use crate::command::PassCommand;

verus! {

/// One storage buffer, with the records last written to it. Unlike the
/// per-frame pool it is recreated on every write, so it suits data that
/// changes rarely.
pub struct DynamicShaderBuffer<T> {
    binding_data: Option<Vec<T>>,
}

impl<T> View for DynamicShaderBuffer<T> {
    type V = Option<Seq<T>>;

    /// `None` until written, then the records last written.
    closed spec fn view(&self) -> Option<Seq<T>> {
        match self.binding_data {
            Some(v) => Some(v@),
            None => None,
        }
    }
}

impl<T: Copy> DynamicShaderBuffer<T> {
    pub fn new() -> (r: Self)
        ensures
            r@ is None,
    {
        DynamicShaderBuffer { binding_data: None }
    }

    /// Drops the buffer.
    pub fn invalidate(&mut self)
        ensures
            final(self)@ is None,
    {
        self.binding_data = None;
    }

    /// The number of records held, 0 where nothing was written.
    pub fn buffer_len(&self) -> (r: usize)
        ensures
            r == match self@ {
                Some(s) => s.len(),
                None => 0,
            },
    {
        match &self.binding_data {
            Some(records) => records.len(),
            None => 0,
        }
    }

    /// Whether at least one record is held.
    pub fn has_data(&self) -> (r: bool)
        ensures
            r == (self@ is Some && self@->Some_0.len() > 0),
    {
        self.buffer_len() != 0
    }

    /// Replaces the buffer with one holding exactly `data`.
    pub fn write(&mut self, data: &[T])
        ensures
            final(self)@ == Some(data@),
    {
        let mut records: Vec<T> = Vec::new();
        let mut i: usize = 0;
        while i < data.len()
            invariant
                i <= data@.len(),
                records@ == data@.subrange(0, i as int),
            decreases data@.len() - i,
        {
            records.push(data[i]);
            i = i + 1;
        }
        assert(records@ =~= data@);
        self.binding_data = Some(records);
    }

    /// The command that binds the buffer at `set_id`; `Err` where nothing
    /// was written.
    pub fn bind(&self, set_id: u32) -> (r: Result<PassCommand, ()>)
        ensures
            self@ is Some ==> r == Ok::<PassCommand, ()>(PassCommand::BindShaderBuffer { set_id }),
            self@ is None ==> r == Err::<PassCommand, ()>(()),
    {
        if self.binding_data.is_some() {
            Ok(PassCommand::BindShaderBuffer { set_id })
        } else {
            Err(())
        }
    }
}

} // verus!
