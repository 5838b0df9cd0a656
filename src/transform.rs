//! World transforms of scene entities, and the reading of a sphere's radius
//! from them.
use vstd::prelude::*;

use crate::error::RenderError;
use crate::ieee::{abs, abs_bits, magnitudes_equal, same_magnitude};

verus! {

/// A world-space 4x4 affine matrix, column-major, each entry a binary32
/// bit pattern: `columns[c][r]` is row `r` of column `c`. The translation is
/// in column 3; the basis scales lie on the diagonal.
#[derive(Clone, Copy, Debug)]
pub struct SceneTransform {
    pub columns: [[u32; 4]; 4],
}

impl SceneTransform {
    /// The scale along basis axis `axis` (0, 1 or 2).
    pub open spec fn scale_spec(&self, axis: int) -> u32 {
        self.columns[axis][axis]
    }

    /// The three basis scales have one magnitude (IEEE-754 equality of
    /// absolute values, no tolerance).
    pub open spec fn is_uniform(&self) -> bool {
        same_magnitude(self.scale_spec(0), self.scale_spec(1))
            && same_magnitude(self.scale_spec(1), self.scale_spec(2))
    }

    /// The radius of a sphere under this transform: the magnitude of the
    /// first basis scale.
    pub open spec fn radius_spec(&self) -> u32 {
        abs_bits(self.scale_spec(0))
    }

    /// The world-space translation (x, y, z).
    pub open spec fn translation_spec(&self) -> [u32; 3] {
        [self.columns[3][0], self.columns[3][1], self.columns[3][2]]
    }

    /// The identity transform scaled by `scale` on all three axes and moved
    /// to `center`.
    pub fn uniform(center: [u32; 3], scale: u32) -> (r: SceneTransform)
        ensures
            r.columns == [
                [scale, 0u32, 0u32, 0u32],
                [0u32, scale, 0u32, 0u32],
                [0u32, 0u32, scale, 0u32],
                [center[0], center[1], center[2], crate::ieee::ONE_BITS],
            ],
            r.scale_spec(0) == scale,
            r.scale_spec(1) == scale,
            r.scale_spec(2) == scale,
            r.translation_spec() == center,
    {
        let one: u32 = crate::ieee::ONE_BITS;
        SceneTransform {
            columns: [
                [scale, 0, 0, 0],
                [0, scale, 0, 0],
                [0, 0, scale, 0],
                [center[0], center[1], center[2], one],
            ],
        }
    }

    /// The world-space translation.
    pub fn translation(&self) -> (r: [u32; 3])
        ensures
            r == self.translation_spec(),
    {
        [self.columns[3][0], self.columns[3][1], self.columns[3][2]]
    }

    /// Whether the scale is uniform.
    pub fn has_uniform_scale(&self) -> (r: bool)
        ensures
            r == self.is_uniform(),
    {
        magnitudes_equal(self.columns[0][0], self.columns[1][1])
            && magnitudes_equal(self.columns[1][1], self.columns[2][2])
    }

    /// The radius of a sphere placed by this transform, or
    /// `NonUniformScale { entity }` where the scale is not uniform.
    pub fn sphere_radius(&self, entity: usize) -> (r: Result<u32, RenderError>)
        ensures
            self.is_uniform() ==> r == Ok::<u32, RenderError>(self.radius_spec()),
            !self.is_uniform() ==> r == Err::<u32, RenderError>(
                RenderError::NonUniformScale { entity },
            ),
    {
        if self.has_uniform_scale() {
            Ok(abs(self.columns[0][0]))
        } else {
            Err(RenderError::NonUniformScale { entity })
        }
    }
}

} // verus!
