//! The shader kinds the pipeline wraps, recognized from the source file
//! extension, and the API constant each wrapper reports.

use vstd::prelude::*;
use vstd::string::StrSliceExecFns;

verus! {

/// A shader stage.
#[derive(Clone, Copy, Debug, PartialEq, Eq, Structural)]
pub enum ShaderKind {
    Vertex,
    Fragment,
    Compute,
}

/// Which kind a source file extension names.
pub open spec fn spec_kind_of_extension(ext: Seq<char>) -> Option<ShaderKind> {
    if ext == "vert"@ {
        Some(ShaderKind::Vertex)
    } else if ext == "frag"@ {
        Some(ShaderKind::Fragment)
    } else if ext == "comp"@ {
        Some(ShaderKind::Compute)
    } else {
        None
    }
}

impl ShaderKind {
    pub open spec fn spec_constant_name(self) -> Seq<char> {
        match self {
            ShaderKind::Vertex => "VERTEX_SHADER"@,
            ShaderKind::Fragment => "FRAGMENT_SHADER"@,
            ShaderKind::Compute => "COMPUTE_SHADER"@,
        }
    }

    /// The graphics-API constant naming this stage in generated code.
    pub fn constant_name(&self) -> (r: &'static str)
        ensures
            r@ == self.spec_constant_name(),
    {
        match self {
            ShaderKind::Vertex => "VERTEX_SHADER",
            ShaderKind::Fragment => "FRAGMENT_SHADER",
            ShaderKind::Compute => "COMPUTE_SHADER",
        }
    }

    /// Recognizes a shader stage from a source file extension.
    pub fn from_extension(ext: &str) -> (r: Option<ShaderKind>)
        ensures
            r == spec_kind_of_extension(ext@),
    {
        if crate::text::str_eq(ext, "vert") {
            Some(ShaderKind::Vertex)
        } else if crate::text::str_eq(ext, "frag") {
            Some(ShaderKind::Fragment)
        } else if crate::text::str_eq(ext, "comp") {
            Some(ShaderKind::Compute)
        } else {
            None
        }
    }
}

} // verus!
