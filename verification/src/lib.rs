//! Reflection of uniform-variable metadata from compiled shader modules and
//! generation of strongly-typed host-side binding code for those uniforms.
//!
//! The pipeline has three layers. The type model (`types`) is a closed
//! algebra of scalar, vector, matrix, array and opaque image types with
//! deterministic mappings to shading-language spellings, host-side value
//! types and upload selectors. The reflector (`reflect`) walks a decoded
//! instruction stream (`ir`) in three passes and returns the uniform
//! descriptors, deduplicated and sorted by location. The code generator
//! (`codegen`) turns a descriptor list into the wrapper declarations for
//! one shader and renders them as source text; `compiler` holds the
//! per-batch configuration, ties the layers together per shader, and emits
//! the aggregate manifest.

pub mod text;
pub mod types;
pub mod idmap;
pub mod casing;
pub mod ir;
pub mod error;
pub mod compiler;
pub mod reflect;
pub mod shader_kind;
pub mod codegen;
pub mod runtime;
