//! Gathering the scene's planets into the per-frame planet list.
use vstd::prelude::*;

use crate::command::PassCommand;
use crate::error::RenderError;
use crate::ieee::abs;
use crate::scene::{all_uniform, check_uniform_scales, first_non_uniform};
use crate::planet::{Atmosphere, PlanetData, PlanetList, MAX_PLANETS};
use crate::transform::SceneTransform;
use crate::util::shader_buffer::{slot_written, slots_after_write, write_recreates, DynamicShaderBuffer};

verus! {

/// The record of one planet entry: its translation as center, the magnitude
/// of its first basis scale as radius, the hue, height and density of its atmosphere.
pub open spec fn planet_record(entry: (Atmosphere, SceneTransform)) -> PlanetData {
    PlanetData::of(entry.0, entry.1.translation_spec(), entry.1.radius_spec())
}

/// The records of `entries`, in encounter order.
pub open spec fn planet_records(entries: Seq<(Atmosphere, SceneTransform)>) -> Seq<PlanetData> {
    entries.map_values(|e: (Atmosphere, SceneTransform)| planet_record(e))
}

/// What gathering `entries` yields: `NonUniformScale` naming the first
/// entry whose scale is not uniform; else `CapacityExceeded` where there are
/// more than `MAX_PLANETS` entries; else the list of their records.
pub open spec fn gathered_planets(entries: Seq<(Atmosphere, SceneTransform)>, r: Result<PlanetList, RenderError>) -> bool {
    if !all_uniform(entries) {
        match r {
            Err(RenderError::NonUniformScale { entity }) => first_non_uniform(entries, entity as int),
            _ => false,
        }
    } else if entries.len() > MAX_PLANETS {
        r == Err::<PlanetList, RenderError>(
            RenderError::CapacityExceeded { count: entries.len() as usize, capacity: MAX_PLANETS },
        )
    } else {
        r is Ok && r->Ok_0.holds(planet_records(entries))
    }
}

/// Packs the planets of the scene into a planet list.
pub fn gather_planets(entries: &[(Atmosphere, SceneTransform)]) -> (r: Result<PlanetList, RenderError>)
    ensures
        gathered_planets(entries@, r),
{
    match check_uniform_scales(entries) {
        Ok(()) => {},
        Err(e) => {
            return Err(e);
        },
    }
    let mut records: Vec<PlanetData> = Vec::new();
    let mut i: usize = 0;
    while i < entries.len()
        invariant
            i <= entries@.len(),
            records@ == planet_records(entries@).subrange(0, i as int),
        decreases entries@.len() - i,
    {
        let entry = &entries[i];
        let record = PlanetData::new(&entry.0, entry.1.translation(), abs(entry.1.columns[0][0]));
        records.push(record);
        i = i + 1;
        assert(records@ =~= planet_records(entries@).subrange(0, i as int));
    }
    assert(records@ =~= planet_records(entries@));
    PlanetList::new(records.as_slice())
}

/// The planets of the scene for one pass: the list gathered last, and a pool
/// of per-frame slots each holding one list.
pub struct PlanetSub {
    uniform: DynamicShaderBuffer<PlanetList>,
    data: PlanetList,
}

impl PlanetSub {
    /// The list gathered last.
    pub closed spec fn data_spec(&self) -> PlanetList {
        self.data
    }

    /// The per-frame slots.
    pub closed spec fn slots(&self) -> Seq<Option<Seq<PlanetList>>> {
        self.uniform@
    }

    /// No planet gathered yet, no slot written.
    pub fn new() -> (r: PlanetSub)
        ensures
            r.data_spec().holds(Seq::<PlanetData>::empty()),
            r.slots() == Seq::<Option<Seq<PlanetList>>>::empty(),
    {
        PlanetSub { uniform: DynamicShaderBuffer::new(), data: PlanetList::default() }
    }

    /// Gathers the planets of the scene and writes the list into frame slot
    /// `index`. Returns whether the slot was created anew. On failure
    /// nothing changes.
    pub fn process(&mut self, index: usize, entries: &[(Atmosphere, SceneTransform)]) -> (r: Result<bool, RenderError>)
        requires
            index < usize::MAX,
        ensures
            r is Ok <==> (all_uniform(entries@) && entries@.len() <= MAX_PLANETS),
            r is Ok ==> {
                &&& gathered_planets(entries@, Ok(final(self).data_spec()))
                &&& final(self).slots() == slots_after_write(old(self).slots(), index as int, seq![final(self).data_spec()])
                &&& r->Ok_0 == write_recreates(old(self).slots(), index as int, 1)
            },
            r is Err ==> {
                &&& *final(self) == *old(self)
                &&& gathered_planets(entries@, Err(r->Err_0))
            },
    {
        let list = match gather_planets(entries) {
            Ok(list) => list,
            Err(e) => {
                return Err(e);
            },
        };
        self.data = list;
        let records: [PlanetList; 1] = [list];
        assert(records@ =~= seq![list]);
        let changed = self.uniform.write(index, records.as_slice());
        Ok(changed)
    }

    /// The command that binds frame slot `index` at `set_id`;
    /// `UnwrittenSlot` where that slot was never written.
    pub fn bind(&self, index: usize, set_id: u32) -> (r: Result<PassCommand, RenderError>)
        ensures
            slot_written(self.slots(), index as int) ==> r == Ok::<PassCommand, RenderError>(
                PassCommand::BindFrameSlot { set_id, index },
            ),
            !slot_written(self.slots(), index as int) ==> r == Err::<PassCommand, RenderError>(
                RenderError::UnwrittenSlot { index },
            ),
    {
        self.uniform.bind(index, set_id)
    }

    /// Whether the list gathered last is empty.
    pub fn is_empty(&self) -> (r: bool)
        ensures
            r == (self.data_spec()@.0 == 0),
    {
        self.data.count() == 0
    }

    /// The number of planets gathered last.
    pub fn count(&self) -> (r: usize)
        ensures
            r as nat == self.data_spec()@.0,
    {
        self.data.count() as usize
    }

    /// The list gathered last.
    pub fn data(&self) -> (r: PlanetList)
        ensures
            r == self.data_spec(),
    {
        self.data
    }
}

} // verus!
