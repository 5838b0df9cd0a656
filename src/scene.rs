//! Scanning scene entries (a component with its world transform) for
//! spherical bodies.
use vstd::prelude::*;

use crate::error::RenderError;
use crate::transform::SceneTransform;

verus! {

/// The first `n` entries all have a uniform scale.
pub open spec fn uniform_before<C>(entries: Seq<(C, SceneTransform)>, n: int) -> bool {
    forall|j: int| 0 <= j < n ==> (#[trigger] entries[j]).1.is_uniform()
}

/// Every entry has a uniform scale.
pub open spec fn all_uniform<C>(entries: Seq<(C, SceneTransform)>) -> bool {
    uniform_before(entries, entries.len() as int)
}

/// `entity` is the first entry whose scale is not uniform.
pub open spec fn first_non_uniform<C>(entries: Seq<(C, SceneTransform)>, entity: int) -> bool {
    &&& 0 <= entity < entries.len()
    &&& !entries[entity].1.is_uniform()
    &&& uniform_before(entries, entity)
}

/// What checking the scales of `entries` yields: `Ok` where all are uniform,
/// else `NonUniformScale` naming the first entry that is not.
pub open spec fn scale_check_result<C>(entries: Seq<(C, SceneTransform)>, r: Result<(), RenderError>) -> bool {
    match r {
        Ok(()) => all_uniform(entries),
        Err(RenderError::NonUniformScale { entity }) => first_non_uniform(entries, entity as int),
        Err(_) => false,
    }
}

/// Checks that every entry can be read as a sphere (uniform scale).
pub fn check_uniform_scales<C>(entries: &[(C, SceneTransform)]) -> (r: Result<(), RenderError>)
    ensures
        scale_check_result(entries@, r),
        r is Ok <==> all_uniform(entries@),
{
    let mut i: usize = 0;
    while i < entries.len()
        invariant
            i <= entries@.len(),
            uniform_before(entries@, i as int),
        decreases entries@.len() - i,
    {
        let entry = &entries[i];
        if !entry.1.has_uniform_scale() {
            return Err(RenderError::NonUniformScale { entity: i });
        }
        i = i + 1;
    }
    Ok(())
}

} // verus!
