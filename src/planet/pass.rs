//! The atmosphere overlay pass: one full-screen quad shaded from the
//! planets and stars of the scene.
use vstd::prelude::*;

use crate::command::{
    PassCommand, PrepareResult, RenderOrder, ENVIRONMENT_SET, FIRST_POOL_SET, SECOND_POOL_SET,
};
use crate::error::RenderError;
use crate::planet::sub::{gathered_planets, PlanetSub};
use crate::planet::{Atmosphere, PlanetData, PlanetList, MAX_PLANETS};
use crate::scene::all_uniform;
use crate::star::sub::{gathered_stars, StarSub};
use crate::star::{Star, StarData, StarList, MAX_STARS};
use crate::transform::SceneTransform;
use crate::util::shader_buffer::{slot_written, slots_after_write};

verus! {

/// The commands that draw the overlay from frame slot `index` of both
/// pools: nothing without a planet, else one quad.
pub open spec fn atmosphere_draw_commands(planet_count: nat, index: usize) -> Seq<PassCommand> {
    if planet_count == 0 {
        Seq::empty()
    } else {
        seq![
            PassCommand::BindPipeline,
            PassCommand::BindEnvironment { set_id: ENVIRONMENT_SET },
            PassCommand::BindFrameSlot { set_id: FIRST_POOL_SET, index },
            PassCommand::BindFrameSlot { set_id: SECOND_POOL_SET, index },
            PassCommand::Draw { instances: 1 },
        ]
    }
}

/// Describes the atmosphere overlay pass.
#[derive(Clone, Copy, Debug, PartialEq, Eq, Structural)]
pub struct DrawAtmosphereDesc;

impl DrawAtmosphereDesc {
    pub fn new() -> (r: DrawAtmosphereDesc)
        ensures
            r == DrawAtmosphereDesc,
    {
        DrawAtmosphereDesc
    }

    /// The pass, with nothing gathered and no slot written.
    pub fn build(&self) -> (r: DrawAtmosphere)
        ensures
            r.planets_spec().data_spec().holds(Seq::<PlanetData>::empty()),
            r.planets_spec().slots() == Seq::<Option<Seq<PlanetList>>>::empty(),
            r.stars_spec().data_spec().holds(Seq::<StarData>::empty()),
            r.stars_spec().slots() == Seq::<Option<Seq<StarList>>>::empty(),
    {
        DrawAtmosphere { planets: PlanetSub::new(), stars: StarSub::new() }
    }
}

/// The atmosphere overlay pass.
pub struct DrawAtmosphere {
    planets: PlanetSub,
    stars: StarSub,
}

impl DrawAtmosphere {
    pub closed spec fn planets_spec(&self) -> PlanetSub {
        self.planets
    }

    pub closed spec fn stars_spec(&self) -> StarSub {
        self.stars
    }

    /// The planets gathered for this pass.
    pub fn planets(&self) -> (r: &PlanetSub)
        ensures
            *r == self.planets_spec(),
    {
        &self.planets
    }

    /// The stars gathered for this pass.
    pub fn stars(&self) -> (r: &StarSub)
        ensures
            *r == self.stars_spec(),
    {
        &self.stars
    }

    /// Gathers the scene's planets, then its stars, into frame slot `index`
    /// of each pool. The pass always records its draw anew. Where the
    /// planets fail nothing changes; where only the stars fail the planets
    /// are already written.
    pub fn prepare(
        &mut self,
        index: usize,
        planets: &[(Atmosphere, SceneTransform)],
        stars: &[(Star, SceneTransform)],
    ) -> (r: Result<PrepareResult, RenderError>)
        requires
            index < usize::MAX,
        ensures
            ({
                let planets_ok = all_uniform(planets@) && planets@.len() <= MAX_PLANETS;
                let stars_ok = all_uniform(stars@) && stars@.len() <= MAX_STARS;
                &&& (r is Ok <==> planets_ok && stars_ok)
                &&& (r is Ok ==> r->Ok_0 == PrepareResult::DrawRecord)
                &&& (!planets_ok ==> {
                    &&& final(self).planets_spec() == old(self).planets_spec()
                    &&& final(self).stars_spec() == old(self).stars_spec()
                    &&& gathered_planets(planets@, Err(r->Err_0))
                })
                &&& (planets_ok ==> {
                    &&& gathered_planets(planets@, Ok(final(self).planets_spec().data_spec()))
                    &&& final(self).planets_spec().slots() == slots_after_write(
                        old(self).planets_spec().slots(),
                        index as int,
                        seq![final(self).planets_spec().data_spec()],
                    )
                })
                &&& (planets_ok && !stars_ok ==> {
                    &&& final(self).stars_spec() == old(self).stars_spec()
                    &&& gathered_stars(stars@, Err(r->Err_0))
                })
                &&& (planets_ok && stars_ok ==> {
                    &&& gathered_stars(stars@, Ok(final(self).stars_spec().data_spec()))
                    &&& final(self).stars_spec().slots() == slots_after_write(
                        old(self).stars_spec().slots(),
                        index as int,
                        seq![final(self).stars_spec().data_spec()],
                    )
                })
            }),
    {
        match self.planets.process(index, planets) {
            Ok(_) => {},
            Err(e) => {
                return Err(e);
            },
        }
        match self.stars.process(index, stars) {
            Ok(_) => Ok(PrepareResult::DrawRecord),
            Err(e) => Err(e),
        }
    }

    /// The commands that draw frame `index`. `UnwrittenSlot` where there
    /// are planets to draw but a pool's slot `index` was never written.
    pub fn draw_inline(&self, index: usize) -> (r: Result<Vec<PassCommand>, RenderError>)
        ensures
            ({
                let count = self.planets_spec().data_spec()@.0;
                let written = slot_written(self.planets_spec().slots(), index as int) && slot_written(
                    self.stars_spec().slots(),
                    index as int,
                );
                &&& (count == 0 || written) ==> r is Ok && r->Ok_0@ == atmosphere_draw_commands(count, index)
                &&& (count != 0 && !written) ==> r == Err::<Vec<PassCommand>, RenderError>(
                    RenderError::UnwrittenSlot { index },
                )
            }),
    {
        let mut commands: Vec<PassCommand> = Vec::new();
        if self.planets.is_empty() {
            assert(commands@ =~= atmosphere_draw_commands(0, index));
            return Ok(commands);
        }
        let bind_planets = self.planets.bind(index, FIRST_POOL_SET)?;
        let bind_stars = self.stars.bind(index, SECOND_POOL_SET)?;
        commands.push(PassCommand::BindPipeline);
        commands.push(PassCommand::BindEnvironment { set_id: ENVIRONMENT_SET });
        commands.push(bind_planets);
        commands.push(bind_stars);
        commands.push(PassCommand::Draw { instances: 1 });
        assert(commands@ =~= atmosphere_draw_commands(self.planets_spec().data_spec()@.0, index));
        Ok(commands)
    }
}

/// Registers the atmosphere overlay pass.
#[derive(Clone, Copy, Debug, PartialEq, Eq, Structural)]
pub struct AtmosphereRender;

impl AtmosphereRender {
    /// The pass runs before transparent geometry.
    pub fn order(&self) -> (r: RenderOrder)
        ensures
            r == RenderOrder::BeforeTransparent,
    {
        RenderOrder::BeforeTransparent
    }
}

impl Default for AtmosphereRender {
    fn default() -> (r: AtmosphereRender)
        ensures
            r == AtmosphereRender,
    {
        AtmosphereRender
    }
}

} // verus!
