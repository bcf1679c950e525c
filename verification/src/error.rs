//! The failure taxonomy of the pipeline. A fatal error aborts the current
//! shader's processing; unresolved uniforms are not errors but diagnostics
//! beside a still-valid, smaller descriptor list.

use vstd::prelude::*;

use crate::compiler::TargetType;

verus! {

/// What can fail while compiling, reflecting or wrapping one shader.
#[derive(Debug, PartialEq)]
pub enum Error {
    /// The module declares a type the closed algebra cannot represent (an
    /// unsupported scalar width, a non-square or non-float matrix, an array
    /// without a known positive length), or a decoration references an id
    /// that carries no name.
    UnsupportedType,
    /// The upstream compiler rejected the shader source: error count and its
    /// raw diagnostic text.
    CompilationError(usize, String),
    /// The requested output type cannot be produced for the build target.
    InvalidTargetType(TargetType),
    /// Binary generation cannot be skipped when a binary output is requested.
    InvalidSkipSpirV,
}

} // verus!
