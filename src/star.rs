//! Stars: the scene component and the records the device reads.
pub mod pass;
pub mod sub;

use vstd::prelude::*;

use crate::bounded::packs;
use crate::color::Rgb;
use crate::error::RenderError;
use crate::ieee::ONE_BITS;

verus! {

/// Number of star records the device-side list is laid out for.
pub const MAX_STARS: usize = 4;

/// A star, as far as rendering is concerned: its color.
#[derive(Clone, Copy, Debug, PartialEq, Eq, Structural)]
pub struct Star {
    pub color: Rgb,
}

impl Star {
    pub fn new(color: Rgb) -> (r: Star)
        ensures
            r.color == color,
    {
        Star { color }
    }
}

impl Default for Star {
    /// A white star.
    fn default() -> (r: Star)
        ensures
            r.color == (Rgb { red: ONE_BITS, green: ONE_BITS, blue: ONE_BITS }),
    {
        Star::new(Rgb::new(ONE_BITS, ONE_BITS, ONE_BITS))
    }
}

/// One star as the device reads it: world-space center, radius and color.
#[derive(Clone, Copy, Debug, PartialEq)]
pub struct StarData {
    pub center: [u32; 3],
    pub radius: u32,
    pub color: [u32; 3],
}

impl StarData {
    /// The record with every scalar `+0.0`.
    pub open spec fn zero() -> StarData {
        StarData { center: [0u32, 0u32, 0u32], radius: 0, color: [0u32, 0u32, 0u32] }
    }

    /// The record of `star` placed at `center` with `radius`.
    pub open spec fn of(star: Star, center: [u32; 3], radius: u32) -> StarData {
        StarData { center, radius, color: star.color.channels_spec() }
    }

    pub fn new(star: &Star, center: [u32; 3], radius: u32) -> (r: StarData)
        ensures
            r == StarData::of(*star, center, radius),
    {
        StarData { center, radius, color: star.color.channels() }
    }

    pub fn zeroed() -> (r: StarData)
        ensures
            r == StarData::zero(),
    {
        StarData { center: [0, 0, 0], radius: 0, color: [0, 0, 0] }
    }
}

/// The star records of one frame: a count and `MAX_STARS` elements, those
/// past the count zeroed.
#[derive(Clone, Copy, Debug, PartialEq)]
pub struct StarList {
    count: u32,
    stars: [StarData; MAX_STARS],
}

impl View for StarList {
    type V = (nat, Seq<StarData>);

    closed spec fn view(&self) -> (nat, Seq<StarData>) {
        (self.count as nat, self.stars@)
    }
}

impl StarList {
    /// The list holds exactly `data`.
    pub open spec fn holds(&self, data: Seq<StarData>) -> bool {
        packs(self@, data, StarData::zero(), MAX_STARS as nat)
    }

    /// Packs `star_data` into a list. More records than `MAX_STARS` is
    /// malformed content: `CapacityExceeded`, never a truncated list.
    pub fn new(star_data: &[StarData]) -> (r: Result<StarList, RenderError>)
        ensures
            star_data@.len() <= MAX_STARS ==> r is Ok && r->Ok_0.holds(star_data@),
            star_data@.len() > MAX_STARS ==> r == Err::<StarList, RenderError>(
                RenderError::CapacityExceeded { count: star_data@.len() as usize, capacity: MAX_STARS },
            ),
    {
        if star_data.len() > MAX_STARS {
            return Err(RenderError::CapacityExceeded { count: star_data.len(), capacity: MAX_STARS });
        }
        let zero = StarData::zeroed();
        let mut stars: [StarData; MAX_STARS] = [zero; MAX_STARS];
        let mut i: usize = 0;
        while i < star_data.len()
            invariant
                star_data@.len() <= MAX_STARS,
                i <= star_data@.len(),
                stars@.len() == MAX_STARS,
                forall|j: int| 0 <= j < i ==> #[trigger] stars@[j] == star_data@[j],
                forall|j: int| i <= j < MAX_STARS ==> #[trigger] stars@[j] == StarData::zero(),
            decreases star_data@.len() - i,
        {
            stars[i] = star_data[i];
            i = i + 1;
        }
        let list = StarList { count: star_data.len() as u32, stars };
        assert(list.holds(star_data@));
        Ok(list)
    }

    /// The number of records.
    pub fn count(&self) -> (r: u32)
        ensures
            r as nat == self@.0,
    {
        self.count
    }

    /// All `MAX_STARS` elements, the zeroed tail included.
    pub fn stars(&self) -> (r: [StarData; MAX_STARS])
        ensures
            r@ == self@.1,
    {
        self.stars
    }
}

impl Default for StarList {
    /// The empty list: count 0, every element zeroed.
    fn default() -> (r: StarList)
        ensures
            r.holds(Seq::<StarData>::empty()),
    {
        let zero = StarData::zeroed();
        let list = StarList { count: 0, stars: [zero; MAX_STARS] };
        assert(list.holds(Seq::<StarData>::empty()));
        list
    }
}

} // verus!
