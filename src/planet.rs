//! Planets and their atmospheres: the scene components and the records the
//! device reads.
pub mod pass;
pub mod sub;

use vstd::prelude::*;

use crate::bounded::packs;
use crate::color::Rgb;
use crate::error::RenderError;

verus! {

/// Number of planet records the device-side list is laid out for.
pub const MAX_PLANETS: usize = 8;

/// A planet's atmosphere, as far as rendering is concerned. Scalars are
/// binary32 bit patterns.
#[derive(Clone, Copy, Debug, PartialEq, Eq, Structural)]
pub struct Atmosphere {
    /// The radius of the atmosphere relative to the planet's radius.
    pub height: u32,
    /// The radius of the base planet.
    pub base_planet_radius: u32,
    /// Hue of the atmosphere.
    pub hue: Rgb,
    /// How strongly the atmosphere obscures what lies behind it.
    pub density: u32,
}

impl Atmosphere {
    pub fn new(height: u32, hue: Rgb, density: u32, base_planet_radius: u32) -> (r: Atmosphere)
        ensures
            r == (Atmosphere { height, base_planet_radius, hue, density }),
    {
        Atmosphere { height, base_planet_radius, hue, density }
    }

    pub fn height(&self) -> (r: u32)
        ensures
            r == self.height,
    {
        self.height
    }

    pub fn hue(&self) -> (r: Rgb)
        ensures
            r == self.hue,
    {
        self.hue
    }

    pub fn density(&self) -> (r: u32)
        ensures
            r == self.density,
    {
        self.density
    }
}

/// A planet body. Scalars are binary32 bit patterns.
#[derive(Clone, Copy, Debug, PartialEq, Eq, Structural)]
pub struct Planet {
    pub radius: u32,
    pub density: u32,
}

impl Planet {
    pub fn new(radius: u32, density: u32) -> (r: Planet)
        ensures
            r == (Planet { radius, density }),
    {
        Planet { radius, density }
    }

    pub fn radius(&self) -> (r: u32)
        ensures
            r == self.radius,
    {
        self.radius
    }

    pub fn density(&self) -> (r: u32)
        ensures
            r == self.density,
    {
        self.density
    }
}

/// One planet as the device reads it. The device-side record holds the
/// atmosphere's absolute radius, `radius * atmosphere_height` in binary32
/// arithmetic, which is formed where the record is laid out for the device.
#[derive(Clone, Copy, Debug, PartialEq)]
pub struct PlanetData {
    pub center: [u32; 3],
    pub radius: u32,
    pub hue: [u32; 3],
    pub atmosphere_height: u32,
    pub atmosphere_density: u32,
}

impl PlanetData {
    /// The record with every scalar `+0.0`.
    pub open spec fn zero() -> PlanetData {
        PlanetData {
            center: [0u32, 0u32, 0u32],
            radius: 0,
            hue: [0u32, 0u32, 0u32],
            atmosphere_height: 0,
            atmosphere_density: 0,
        }
    }

    /// The record of a planet with `atmosphere` placed at `center` with
    /// `radius`.
    pub open spec fn of(atmosphere: Atmosphere, center: [u32; 3], radius: u32) -> PlanetData {
        PlanetData {
            center,
            radius,
            hue: atmosphere.hue.channels_spec(),
            atmosphere_height: atmosphere.height,
            atmosphere_density: atmosphere.density,
        }
    }

    pub fn new(atmosphere: &Atmosphere, center: [u32; 3], radius: u32) -> (r: PlanetData)
        ensures
            r == PlanetData::of(*atmosphere, center, radius),
    {
        PlanetData {
            center,
            radius,
            hue: atmosphere.hue.channels(),
            atmosphere_height: atmosphere.height(),
            atmosphere_density: atmosphere.density(),
        }
    }

    pub fn zeroed() -> (r: PlanetData)
        ensures
            r == PlanetData::zero(),
    {
        PlanetData { center: [0, 0, 0], radius: 0, hue: [0, 0, 0], atmosphere_height: 0, atmosphere_density: 0 }
    }
}

/// The planet records of one frame: a count and `MAX_PLANETS` elements,
/// those past the count zeroed.
#[derive(Clone, Copy, Debug, PartialEq)]
pub struct PlanetList {
    count: u32,
    planets: [PlanetData; MAX_PLANETS],
}

impl View for PlanetList {
    type V = (nat, Seq<PlanetData>);

    closed spec fn view(&self) -> (nat, Seq<PlanetData>) {
        (self.count as nat, self.planets@)
    }
}

impl PlanetList {
    /// The list holds exactly `data`.
    pub open spec fn holds(&self, data: Seq<PlanetData>) -> bool {
        packs(self@, data, PlanetData::zero(), MAX_PLANETS as nat)
    }

    /// Packs `planet_data` into a list. More records than `MAX_PLANETS` is
    /// malformed content: `CapacityExceeded`, never a truncated list.
    pub fn new(planet_data: &[PlanetData]) -> (r: Result<PlanetList, RenderError>)
        ensures
            planet_data@.len() <= MAX_PLANETS ==> r is Ok && r->Ok_0.holds(planet_data@),
            planet_data@.len() > MAX_PLANETS ==> r == Err::<PlanetList, RenderError>(
                RenderError::CapacityExceeded { count: planet_data@.len() as usize, capacity: MAX_PLANETS },
            ),
    {
        if planet_data.len() > MAX_PLANETS {
            return Err(RenderError::CapacityExceeded { count: planet_data.len(), capacity: MAX_PLANETS });
        }
        let zero = PlanetData::zeroed();
        let mut planets: [PlanetData; MAX_PLANETS] = [zero; MAX_PLANETS];
        let mut i: usize = 0;
        while i < planet_data.len()
            invariant
                planet_data@.len() <= MAX_PLANETS,
                i <= planet_data@.len(),
                planets@.len() == MAX_PLANETS,
                forall|j: int| 0 <= j < i ==> #[trigger] planets@[j] == planet_data@[j],
                forall|j: int| i <= j < MAX_PLANETS ==> #[trigger] planets@[j] == PlanetData::zero(),
            decreases planet_data@.len() - i,
        {
            planets[i] = planet_data[i];
            i = i + 1;
        }
        let list = PlanetList { count: planet_data.len() as u32, planets };
        assert(list.holds(planet_data@));
        Ok(list)
    }

    /// The number of records.
    pub fn count(&self) -> (r: u32)
        ensures
            r as nat == self@.0,
    {
        self.count
    }

    /// All `MAX_PLANETS` elements, the zeroed tail included.
    pub fn planets(&self) -> (r: [PlanetData; MAX_PLANETS])
        ensures
            r@ == self@.1,
    {
        self.planets
    }
}

impl Default for PlanetList {
    /// The empty list: count 0, every element zeroed.
    fn default() -> (r: PlanetList)
        ensures
            r.holds(Seq::<PlanetData>::empty()),
    {
        let zero = PlanetData::zeroed();
        let list = PlanetList { count: 0, planets: [zero; MAX_PLANETS] };
        assert(list.holds(Seq::<PlanetData>::empty()));
        list
    }
}

} // verus!
