//! The small runtime-facing surface the generated wrappers build on: the
//! trait every generated shader handle implements, and the decoding of a
//! raw uniform-location query result.

use vstd::prelude::*;

verus! {

/// Implemented by every generated shader handle type: the graphics-API
/// constant of its stage, and the live object name once compiled.
pub trait ShaderCommon {
    fn kind(&self) -> u32;

    fn name(&self) -> u32;
}

/// Decodes a raw uniform-location query result: the API returns a negative
/// number for a uniform that does not exist (or was optimized away), which
/// becomes an empty, inert slot rather than an error.
pub fn uniform_location_from_raw(loc: i32) -> (r: Option<u32>)
    ensures
        r == if loc < 0 {
            Option::<u32>::None
        } else {
            Some(loc as u32)
        },
{
    if loc < 0 {
        None
    } else {
        Some(loc as u32)
    }
}

} // verus!
