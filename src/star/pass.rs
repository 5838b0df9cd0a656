//! The star glow pass: a textured billboard drawn once per star.
use vstd::prelude::*;

use crate::command::{
    PassCommand, PrepareResult, RenderOrder, ENVIRONMENT_SET, FIRST_POOL_SET, SECOND_POOL_SET,
};
use crate::error::RenderError;
use crate::scene::all_uniform;
use crate::star::sub::{gathered_stars, StarSub};
use crate::star::{Star, StarData, StarList, MAX_STARS};
use crate::transform::SceneTransform;
use crate::util::shader_buffer::{slot_written, slots_after_write};

verus! {

/// The commands that draw `count` stars from frame slot `index`, with the
/// star texture in texture slot `ready_texture` where it has finished
/// loading. Nothing is drawn for no star; without a loaded texture the sets
/// are bound but the draw is skipped for this frame.
pub open spec fn star_draw_commands(count: nat, index: usize, ready_texture: Option<usize>) -> Seq<PassCommand> {
    if count == 0 {
        Seq::empty()
    } else {
        let binds = seq![
            PassCommand::BindPipeline,
            PassCommand::BindEnvironment { set_id: ENVIRONMENT_SET },
            PassCommand::BindFrameSlot { set_id: FIRST_POOL_SET, index },
        ];
        match ready_texture {
            Some(texture) => binds + seq![
                PassCommand::BindTexture { set_id: SECOND_POOL_SET, index: texture },
                PassCommand::Draw { instances: count as u32 },
            ],
            None => binds,
        }
    }
}

/// Describes the star glow pass.
#[derive(Clone, Copy, Debug, PartialEq, Eq, Structural)]
pub struct DrawStarDesc;

impl DrawStarDesc {
    pub fn new() -> (r: DrawStarDesc)
        ensures
            r == DrawStarDesc,
    {
        DrawStarDesc
    }

    /// The pass, with nothing gathered and no slot written.
    pub fn build(&self) -> (r: DrawStar)
        ensures
            r.stars_spec().data_spec().holds(Seq::<StarData>::empty()),
            r.stars_spec().slots() == Seq::<Option<Seq<StarList>>>::empty(),
    {
        DrawStar { stars: StarSub::new() }
    }
}

/// The star glow pass.
pub struct DrawStar {
    stars: StarSub,
}

impl DrawStar {
    pub closed spec fn stars_spec(&self) -> StarSub {
        self.stars
    }

    /// The stars gathered for this pass.
    pub fn stars(&self) -> (r: &StarSub)
        ensures
            *r == self.stars_spec(),
    {
        &self.stars
    }

    /// Gathers the scene's stars into frame slot `index`. The pass always
    /// records its draw anew.
    pub fn prepare(&mut self, index: usize, entries: &[(Star, SceneTransform)]) -> (r: Result<PrepareResult, RenderError>)
        requires
            index < usize::MAX,
        ensures
            r is Ok <==> (all_uniform(entries@) && entries@.len() <= MAX_STARS),
            r is Ok ==> {
                &&& r->Ok_0 == PrepareResult::DrawRecord
                &&& gathered_stars(entries@, Ok(final(self).stars_spec().data_spec()))
                &&& final(self).stars_spec().slots() == slots_after_write(
                    old(self).stars_spec().slots(),
                    index as int,
                    seq![final(self).stars_spec().data_spec()],
                )
            },
            r is Err ==> {
                &&& final(self).stars_spec() == old(self).stars_spec()
                &&& gathered_stars(entries@, Err(r->Err_0))
            },
    {
        match self.stars.process(index, entries) {
            Ok(_) => Ok(PrepareResult::DrawRecord),
            Err(e) => Err(e),
        }
    }

    /// The commands that draw frame `index`; `ready_texture` is the star
    /// texture's slot where it has finished loading. `UnwrittenSlot` where
    /// there are stars to draw but slot `index` was never written.
    pub fn draw_inline(&self, index: usize, ready_texture: Option<usize>) -> (r: Result<Vec<PassCommand>, RenderError>)
        ensures
            ({
                let count = self.stars_spec().data_spec()@.0;
                &&& (count == 0 || slot_written(self.stars_spec().slots(), index as int)) ==> r is Ok
                    && r->Ok_0@ == star_draw_commands(count, index, ready_texture)
                &&& (count != 0 && !slot_written(self.stars_spec().slots(), index as int)) ==> r
                    == Err::<Vec<PassCommand>, RenderError>(RenderError::UnwrittenSlot { index })
            }),
    {
        let mut commands: Vec<PassCommand> = Vec::new();
        if self.stars.is_empty() {
            assert(commands@ =~= star_draw_commands(0, index, ready_texture));
            return Ok(commands);
        }
        let bind_stars = self.stars.bind(index, FIRST_POOL_SET)?;
        commands.push(PassCommand::BindPipeline);
        commands.push(PassCommand::BindEnvironment { set_id: ENVIRONMENT_SET });
        commands.push(bind_stars);
        if let Some(texture) = ready_texture {
            commands.push(PassCommand::BindTexture { set_id: SECOND_POOL_SET, index: texture });
            commands.push(PassCommand::Draw { instances: self.stars.count() as u32 });
        }
        assert(commands@ =~= star_draw_commands(self.stars_spec().data_spec()@.0, index, ready_texture));
        Ok(commands)
    }
}

/// Registers the star glow pass; `flash_path` names the star texture.
#[derive(Debug)]
pub struct StarRender {
    flash_path: String,
}

impl StarRender {
    pub closed spec fn flash_path_spec(&self) -> Seq<char> {
        self.flash_path@
    }

    pub fn new(flash_path: String) -> (r: StarRender)
        ensures
            r.flash_path_spec() == flash_path@,
    {
        StarRender { flash_path }
    }

    /// Where the star texture is loaded from.
    pub fn flash_path(&self) -> (r: &str)
        ensures
            r@ == self.flash_path_spec(),
    {
        self.flash_path.as_str()
    }

    /// The pass runs in the final post-effect stage.
    pub fn order(&self) -> (r: RenderOrder)
        ensures
            r == RenderOrder::DisplayPostEffects,
    {
        RenderOrder::DisplayPostEffects
    }
}

impl Default for StarRender {
    /// No texture path.
    fn default() -> (r: StarRender)
        ensures
            r.flash_path_spec() == Seq::<char>::empty(),
    {
        StarRender { flash_path: String::new() }
    }
}

} // verus!
