//! The background field pass: one billboard per background star.
use vstd::prelude::*;

use crate::command::{PassCommand, PrepareResult, RenderOrder, ENVIRONMENT_SET, FIRST_POOL_SET};
use crate::cosmos::{Cosmos, StarData, StarPoint};
use crate::error::RenderError;
use crate::util::shader_buffer::{slot_written, slots_after_write, DynamicShaderBuffer};

verus! {

/// The records of the background stars `points`, in order.
pub open spec fn sky_records(points: Seq<StarPoint>) -> Seq<StarData> {
    points.map_values(|p: StarPoint| StarData::of_point(p))
}

/// Whether preparing against a field rebuilds the pass's record list: the
/// field changed, or it holds another number of stars than the list.
pub open spec fn sky_rebuilds(list_len: nat, sky_changed: bool, sky_len: nat) -> bool {
    sky_changed || list_len != sky_len
}

/// The commands that draw `count` background stars from frame slot
/// `index`: nothing for no star.
pub open spec fn sky_draw_commands(count: nat, index: usize) -> Seq<PassCommand> {
    if count == 0 {
        Seq::empty()
    } else {
        seq![
            PassCommand::BindPipeline,
            PassCommand::BindEnvironment { set_id: ENVIRONMENT_SET },
            PassCommand::BindFrameSlot { set_id: FIRST_POOL_SET, index },
            PassCommand::Draw { instances: count as u32 },
        ]
    }
}

/// Describes the background field pass.
#[derive(Clone, Copy, Debug, PartialEq, Eq, Structural)]
pub struct DrawCosmosDesc;

impl DrawCosmosDesc {
    pub fn new() -> (r: DrawCosmosDesc)
        ensures
            r == DrawCosmosDesc,
    {
        DrawCosmosDesc
    }

    /// The pass, with an empty list and no slot written.
    pub fn build(&self) -> (r: DrawSky)
        ensures
            r.list_spec() == Seq::<StarData>::empty(),
            r.slots() == Seq::<Option<Seq<StarData>>>::empty(),
    {
        DrawSky { star_list: Vec::new(), star_buffer: DynamicShaderBuffer::new() }
    }
}

/// The background field pass: the records of the field's stars, and a pool
/// of per-frame slots holding them.
pub struct DrawSky {
    star_list: Vec<StarData>,
    star_buffer: DynamicShaderBuffer<StarData>,
}

impl DrawSky {
    /// The records the pass draws.
    pub closed spec fn list_spec(&self) -> Seq<StarData> {
        self.star_list@
    }

    /// The per-frame slots.
    pub closed spec fn slots(&self) -> Seq<Option<Seq<StarData>>> {
        self.star_buffer@
    }

    /// The records the pass draws.
    pub fn star_list(&self) -> (r: &[StarData])
        ensures
            r@ == self.list_spec(),
    {
        self.star_list.as_slice()
    }

    /// The per-frame slots.
    pub fn star_buffer(&self) -> (r: &DynamicShaderBuffer<StarData>)
        ensures
            r@ == self.slots(),
    {
        &self.star_buffer
    }

    /// Prepares frame `index` against the field `sky`. Where the field
    /// changed or its size differs from the list, the list is rebuilt from
    /// it and every slot is dropped. The field is then marked unchanged.
    /// Frame slot `index` is written only where it holds nothing yet, and
    /// then the draw is recorded anew; otherwise the recorded draw is
    /// reused.
    pub fn prepare(&mut self, index: usize, sky: &mut Cosmos) -> (r: PrepareResult)
        requires
            index < usize::MAX,
        ensures
            ({
                let rebuild = sky_rebuilds(old(self).list_spec().len(), old(sky).changed, old(sky).stars@.len());
                let list = if rebuild {
                    sky_records(old(sky).stars@)
                } else {
                    old(self).list_spec()
                };
                let base = if rebuild {
                    Seq::<Option<Seq<StarData>>>::empty()
                } else {
                    old(self).slots()
                };
                &&& final(self).list_spec() == list
                &&& !final(sky).changed
                &&& final(sky).stars@ == old(sky).stars@
                &&& !slot_written(base, index as int) ==> {
                    &&& final(self).slots() == slots_after_write(base, index as int, list)
                    &&& r == PrepareResult::DrawRecord
                }
                &&& slot_written(base, index as int) ==> {
                    &&& final(self).slots() == base
                    &&& r == PrepareResult::DrawReuse
                }
            }),
    {
        if sky.changed || self.star_list.len() != sky.stars.len() {
            let mut star_vec: Vec<StarData> = Vec::new();
            let mut i: usize = 0;
            while i < sky.stars.len()
                invariant
                    i <= sky.stars@.len(),
                    star_vec@ == sky_records(sky.stars@).subrange(0, i as int),
                decreases sky.stars@.len() - i,
            {
                star_vec.push(StarData::from(sky.stars[i]));
                i = i + 1;
                assert(star_vec@ =~= sky_records(sky.stars@).subrange(0, i as int));
            }
            assert(star_vec@ =~= sky_records(sky.stars@));
            self.star_list = star_vec;
            self.star_buffer.invalidate();
        }
        sky.changed = false;
        if !self.star_buffer.contains_image_at(index) {
            let changed = self.star_buffer.write(index, self.star_list.as_slice());
            if changed {
                PrepareResult::DrawRecord
            } else {
                PrepareResult::DrawReuse
            }
        } else {
            PrepareResult::DrawReuse
        }
    }

    /// Prepares a frame for a scene without a background field: the list is
    /// emptied, so nothing is drawn, and the draw is recorded anew.
    pub fn prepare_without_sky(&mut self) -> (r: PrepareResult)
        ensures
            final(self).list_spec() == Seq::<StarData>::empty(),
            final(self).slots() == old(self).slots(),
            r == PrepareResult::DrawRecord,
    {
        self.star_list.clear();
        PrepareResult::DrawRecord
    }

    /// The commands that draw frame `index`. `UnwrittenSlot` where there
    /// are stars to draw but slot `index` was never written.
    pub fn draw_inline(&self, index: usize) -> (r: Result<Vec<PassCommand>, RenderError>)
        ensures
            ({
                let count = self.list_spec().len();
                &&& (count == 0 || slot_written(self.slots(), index as int)) ==> r is Ok
                    && r->Ok_0@ == sky_draw_commands(count, index)
                &&& (count != 0 && !slot_written(self.slots(), index as int)) ==> r
                    == Err::<Vec<PassCommand>, RenderError>(RenderError::UnwrittenSlot { index })
            }),
    {
        let mut commands: Vec<PassCommand> = Vec::new();
        if self.star_list.len() == 0 {
            assert(commands@ =~= sky_draw_commands(0, index));
            return Ok(commands);
        }
        let bind_stars = self.star_buffer.bind(index, FIRST_POOL_SET)?;
        commands.push(PassCommand::BindPipeline);
        commands.push(PassCommand::BindEnvironment { set_id: ENVIRONMENT_SET });
        commands.push(bind_stars);
        commands.push(PassCommand::Draw { instances: self.star_list.len() as u32 });
        assert(commands@ =~= sky_draw_commands(self.list_spec().len(), index));
        Ok(commands)
    }
}

/// Registers the background field pass, handing the field to the scene
/// once.
#[derive(Debug)]
pub struct CosmosRender {
    sky: Option<Cosmos>,
}

impl CosmosRender {
    pub closed spec fn sky_spec(&self) -> Option<Cosmos> {
        self.sky
    }

    pub fn new(sky: Option<Cosmos>) -> (r: CosmosRender)
        ensures
            r.sky_spec() == sky,
    {
        CosmosRender { sky }
    }

    /// Moves the field out, to be placed in the scene; afterwards there is
    /// none left.
    pub fn take_sky(&mut self) -> (r: Option<Cosmos>)
        ensures
            r == old(self).sky_spec(),
            final(self).sky_spec() is None,
    {
        self.sky.take()
    }

    /// The pass runs right after opaque geometry.
    pub fn order(&self) -> (r: RenderOrder)
        ensures
            r == RenderOrder::AfterOpaque,
    {
        RenderOrder::AfterOpaque
    }
}

} // verus!
