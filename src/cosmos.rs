//! The background star field: stars fixed on the sky sphere.
pub mod pass;

use vstd::prelude::*;

use crate::color::Rgb;

verus! {

/// A star of the background field, placed by direction on the sky sphere.
/// Scalars are binary32 bit patterns.
#[derive(Clone, Copy, Debug, PartialEq)]
pub struct StarPoint {
    /// Direction as (azimuth, inclination).
    pub spherical_coords: [u32; 2],
    pub color: Rgb,
    pub radius: u32,
}

/// The background field: its stars, and whether they changed since the
/// field was last uploaded.
#[derive(Debug)]
pub struct Cosmos {
    pub changed: bool,
    pub stars: Vec<StarPoint>,
}

impl Cosmos {
    /// A field of `stars`, marked changed so that it is uploaded.
    pub fn new(stars: Vec<StarPoint>) -> (r: Cosmos)
        ensures
            r.changed,
            r.stars@ == stars@,
    {
        Cosmos { changed: true, stars }
    }

    /// Replaces the stars and marks the field changed.
    pub fn set_stars(&mut self, stars: Vec<StarPoint>)
        ensures
            final(self).changed,
            final(self).stars@ == stars@,
    {
        self.stars = stars;
        self.changed = true;
    }
}

/// One background star as the device reads it.
#[derive(Clone, Copy, Debug, PartialEq)]
pub struct StarData {
    pub spherical_coords: [u32; 2],
    pub color: [u32; 3],
    pub scale: u32,
}

impl StarData {
    /// The record of `point`: its direction, color channels and radius.
    pub open spec fn of_point(point: StarPoint) -> StarData {
        StarData {
            spherical_coords: point.spherical_coords,
            color: point.color.channels_spec(),
            scale: point.radius,
        }
    }
}

impl From<StarPoint> for StarData {
    fn from(point: StarPoint) -> (r: StarData)
        ensures
            r == StarData::of_point(point),
    {
        StarData { spherical_coords: point.spherical_coords, color: point.color.channels(), scale: point.radius }
    }
}

impl vstd::std_specs::convert::FromSpecImpl<StarPoint> for StarData {
    open spec fn obeys_from_spec() -> bool {
        true
    }

    open spec fn from_spec(point: StarPoint) -> StarData {
        StarData::of_point(point)
    }
}

} // verus!
