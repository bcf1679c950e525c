//! The closed algebra of uniform types: scalars, vectors, square matrices,
//! arrays and opaque images, together with the deterministic mappings from
//! each type to its shading-language spelling, the host-side value type a
//! generated setter accepts, and the upload-selector data (method name,
//! component count, count argument, extra arguments) the setter dispatches on.

use vstd::prelude::*;
use vstd::string::StrSliceExecFns;
use vstd::string::StringExecFns;

use crate::text::{push_dec, spec_dec};

verus! {

/// A scalar uniform type.
#[derive(Clone, Copy, Debug, PartialEq, Eq, Structural)]
pub enum AtomType {
    Int,
    Float,
    Double,
    UInt,
    Bool,
}

/// A vector of 2, 3 or 4 scalars.
#[derive(Clone, Copy, Debug, PartialEq, Eq, Structural)]
pub struct VectorType {
    pub base_type: AtomType,
    pub components: u32,
}

/// A square matrix of 2, 3 or 4 rows of a floating-point scalar.
#[derive(Clone, Copy, Debug, PartialEq, Eq, Structural)]
pub struct MatrixType {
    pub base_type: AtomType,
    pub n: u32,
}

/// A scalar, vector or matrix uniform type.
#[derive(Clone, Copy, Debug, PartialEq, Eq, Structural)]
pub enum GenericType {
    Atom(AtomType),
    Vector(VectorType),
    Matrix(MatrixType),
}

/// A single item, a fixed-size array, or an opaque texture/sampler
/// placeholder, which is set through a texture unit index and never holds a
/// numeric uniform value itself.
#[derive(Debug)]
pub enum ItemOrArrayType {
    Item(GenericType),
    Array(Box<ItemOrArrayType>, u32),
    Image,
}

impl Clone for ItemOrArrayType {
    fn clone(&self) -> (r: Self)
        ensures
            r == *self,
        decreases *self,
    {
        match self {
            ItemOrArrayType::Item(g) => ItemOrArrayType::Item(*g),
            ItemOrArrayType::Array(el, n) => ItemOrArrayType::Array(
                Box::new((**el).clone()),
                *n,
            ),
            ItemOrArrayType::Image => ItemOrArrayType::Image,
        }
    }
}

impl PartialEq for ItemOrArrayType {
    fn eq(&self, other: &Self) -> (r: bool)
        ensures
            r == (*self == *other),
        decreases *self,
    {
        match (self, other) {
            (ItemOrArrayType::Item(a), ItemOrArrayType::Item(b)) => a == b,
            (ItemOrArrayType::Array(a, n), ItemOrArrayType::Array(b, m)) => {
                *n == *m && (**a).eq(&**b)
            },
            (ItemOrArrayType::Image, ItemOrArrayType::Image) => true,
            _ => false,
        }
    }
}

impl vstd::std_specs::cmp::PartialEqSpecImpl for ItemOrArrayType {
    open spec fn obeys_eq_spec() -> bool {
        true
    }

    open spec fn eq_spec(&self, other: &Self) -> bool {
        *self == *other
    }
}

/// One extra parameter a generated setter must accept and forward, beyond the
/// value itself (matrices need a transpose flag).
#[derive(Clone, Copy, Debug)]
pub struct ExtraArg {
    pub name: &'static str,
    pub ty: &'static str,
    pub val: &'static str,
}

/// The mathematical content of an `ExtraArg`.
pub struct ExtraArgV {
    pub name: Seq<char>,
    pub ty: Seq<char>,
    pub val: Seq<char>,
}

impl View for ExtraArg {
    type V = ExtraArgV;

    open spec fn view(&self) -> ExtraArgV {
        ExtraArgV { name: self.name@, ty: self.ty@, val: self.val@ }
    }
}

impl AtomType {
    pub open spec fn spec_is_float_type(self) -> bool {
        self == AtomType::Float || self == AtomType::Double
    }

    /// Whether this scalar is one of the floating-point kinds, the only ones a
    /// matrix may be built from.
    pub fn is_float_type(&self) -> (r: bool)
        ensures
            r == self.spec_is_float_type(),
    {
        match self {
            AtomType::Float => true,
            AtomType::Double => true,
            _ => false,
        }
    }

    pub open spec fn spec_glsl_base_type(self) -> Seq<char> {
        match self {
            AtomType::Int => "int"@,
            AtomType::Float => "float"@,
            AtomType::Double => "double"@,
            AtomType::UInt => "uint"@,
            AtomType::Bool => "bool"@,
        }
    }

    /// The shading-language keyword for this scalar.
    pub fn glsl_base_type(&self) -> (r: &'static str)
        ensures
            r@ == self.spec_glsl_base_type(),
    {
        match self {
            AtomType::Int => "int",
            AtomType::Float => "float",
            AtomType::Double => "double",
            AtomType::UInt => "uint",
            AtomType::Bool => "bool",
        }
    }

    pub open spec fn spec_glsl_vec_name(self) -> Seq<char> {
        match self {
            AtomType::Int => "ivec"@,
            AtomType::Float => "vec"@,
            AtomType::Double => "dvec"@,
            AtomType::UInt => "uvec"@,
            AtomType::Bool => "bvec"@,
        }
    }

    /// The shading-language vector family name built from this scalar.
    pub fn glsl_vec_name(&self) -> (r: String)
        ensures
            r@ == self.spec_glsl_vec_name(),
    {
        let f: &str = match self {
            AtomType::Int => "ivec",
            AtomType::Float => "vec",
            AtomType::Double => "dvec",
            AtomType::UInt => "uvec",
            AtomType::Bool => "bvec",
        };
        f.to_owned()
    }

    pub open spec fn spec_glsl_mat_name(self) -> Seq<char> {
        if self == AtomType::Float {
            "mat"@
        } else {
            "dmat"@
        }
    }

    /// The shading-language matrix family name built from this scalar; only
    /// the floating-point kinds have one.
    pub fn glsl_mat_name(&self) -> (r: String)
        requires
            self.spec_is_float_type(),
        ensures
            r@ == self.spec_glsl_mat_name(),
    {
        let f: &str = if matches!(self, AtomType::Float) {
            "mat"
        } else {
            "dmat"
        };
        f.to_owned()
    }

    pub open spec fn spec_rust_primitive_type(self) -> Seq<char> {
        match self {
            AtomType::Int => "i32"@,
            AtomType::Float => "f32"@,
            AtomType::Double => "f64"@,
            AtomType::UInt => "u32"@,
            AtomType::Bool => "bool"@,
        }
    }

    /// The host-language primitive this scalar is carried as.
    pub fn rust_primitive_type(&self) -> (r: &'static str)
        ensures
            r@ == self.spec_rust_primitive_type(),
    {
        match self {
            AtomType::Int => "i32",
            AtomType::Float => "f32",
            AtomType::Double => "f64",
            AtomType::UInt => "u32",
            AtomType::Bool => "bool",
        }
    }

    pub open spec fn spec_rust_value_type(self) -> Seq<char> {
        self.spec_rust_primitive_type()
    }

    /// The parameter type a generated setter accepts for this scalar.
    pub fn rust_value_type(&self) -> (r: String)
        ensures
            r@ == self.spec_rust_value_type(),
    {
        self.rust_primitive_type().to_owned()
    }

    pub open spec fn spec_method_tag(self) -> Seq<char> {
        match self {
            AtomType::Int => "i"@,
            AtomType::Float => "f"@,
            AtomType::Double => "d"@,
            AtomType::UInt => "ui"@,
            // Booleans ride the integer upload path: the underlying API has
            // no native boolean uniform upload.
            AtomType::Bool => "i"@,
        }
    }

    /// The scalar-kind tag inside an upload method name.
    pub fn method_tag(&self) -> (r: &'static str)
        ensures
            r@ == self.spec_method_tag(),
    {
        match self {
            AtomType::Int => "i",
            AtomType::Float => "f",
            AtomType::Double => "d",
            AtomType::UInt => "ui",
            AtomType::Bool => "i",
        }
    }

    pub open spec fn spec_uniform_method_name(self) -> Seq<char> {
        "1"@ + self.spec_method_tag()
    }

    /// The upload method suffix for a single scalar.
    pub fn uniform_method_name(&self) -> (r: String)
        ensures
            r@ == self.spec_uniform_method_name(),
    {
        let mut s = "1".to_owned();
        s.append(self.method_tag());
        s
    }

    pub open spec fn spec_uniform_method_extra_args(self) -> Seq<ExtraArgV> {
        Seq::empty()
    }

    /// Scalars need no extra setter parameters.
    pub fn uniform_method_extra_args(&self) -> (r: Vec<ExtraArg>)
        ensures
            r@.map_values(|a: ExtraArg| a@) == self.spec_uniform_method_extra_args(),
    {
        let r: Vec<ExtraArg> = Vec::new();
        assert(r@.map_values(|a: ExtraArg| a@) =~= Seq::<ExtraArgV>::empty());
        r
    }

    pub open spec fn spec_uniform_count_arg(self) -> Option<usize> {
        None
    }

    /// Scalars upload without a count argument.
    pub fn uniform_count_arg(&self) -> (r: Option<usize>)
        ensures
            r == self.spec_uniform_count_arg(),
    {
        None
    }

    pub open spec fn spec_components(self) -> u32 {
        1
    }

    /// The component count of a scalar.
    pub fn components(&self) -> (r: u32)
        ensures
            r == self.spec_components(),
    {
        1
    }
}

impl VectorType {
    /// Vectors have 2, 3 or 4 components.
    pub open spec fn wf(self) -> bool {
        2 <= self.components <= 4
    }

    pub open spec fn spec_glsl_base_type(self) -> Seq<char> {
        self.base_type.spec_glsl_base_type()
    }

    /// The shading-language keyword of the component scalar.
    pub fn glsl_base_type(&self) -> (r: &'static str)
        ensures
            r@ == self.spec_glsl_base_type(),
    {
        self.base_type.glsl_base_type()
    }

    pub open spec fn spec_glsl_vec_name(self) -> Seq<char> {
        self.base_type.spec_glsl_vec_name() + spec_dec(self.components as nat)
    }

    /// The shading-language spelling of this vector: family name plus
    /// component count.
    pub fn glsl_vec_name(&self) -> (r: String)
        ensures
            r@ == self.spec_glsl_vec_name(),
    {
        let mut s = self.base_type.glsl_vec_name();
        push_dec(&mut s, self.components as u64);
        s
    }

    pub open spec fn spec_rust_value_type(self) -> Seq<char> {
        "impl ::std::convert::AsRef<["@ + self.base_type.spec_rust_primitive_type() + "; "@
            + spec_dec(self.components as nat) + "]>"@
    }

    /// The parameter type a generated setter accepts for this vector: any
    /// borrowable fixed-size aggregate of the component primitive.
    pub fn rust_value_type(&self) -> (r: String)
        ensures
            r@ == self.spec_rust_value_type(),
    {
        let mut s = "impl ::std::convert::AsRef<[".to_owned();
        s.append(self.base_type.rust_primitive_type());
        s.append("; ");
        push_dec(&mut s, self.components as u64);
        s.append("]>");
        assert(s@ =~= self.spec_rust_value_type());
        s
    }

    pub open spec fn spec_rust_primitive_type(self) -> Seq<char> {
        self.base_type.spec_rust_primitive_type()
    }

    /// The host-language primitive of the component scalar.
    pub fn rust_primitive_type(&self) -> (r: &'static str)
        ensures
            r@ == self.spec_rust_primitive_type(),
    {
        self.base_type.rust_primitive_type()
    }

    pub open spec fn spec_uniform_method_name(self) -> Seq<char> {
        spec_dec(self.components as nat) + self.base_type.spec_method_tag() + "v"@
    }

    /// The upload method suffix for this vector: component count, scalar-kind
    /// tag, and the slice marker.
    pub fn uniform_method_name(&self) -> (r: String)
        ensures
            r@ == self.spec_uniform_method_name(),
    {
        let mut s = String::new();
        push_dec(&mut s, self.components as u64);
        s.append(self.base_type.method_tag());
        s.append("v");
        assert(s@ =~= self.spec_uniform_method_name());
        s
    }

    pub open spec fn spec_uniform_method_extra_args(self) -> Seq<ExtraArgV> {
        Seq::empty()
    }

    /// Vectors need no extra setter parameters.
    pub fn uniform_method_extra_args(&self) -> (r: Vec<ExtraArg>)
        ensures
            r@.map_values(|a: ExtraArg| a@) == self.spec_uniform_method_extra_args(),
    {
        let r: Vec<ExtraArg> = Vec::new();
        assert(r@.map_values(|a: ExtraArg| a@) =~= Seq::<ExtraArgV>::empty());
        r
    }

    pub open spec fn spec_uniform_count_arg(self) -> Option<usize> {
        Some(1usize)
    }

    /// A vector uploads one value through the slice path.
    pub fn uniform_count_arg(&self) -> (r: Option<usize>)
        ensures
            r == self.spec_uniform_count_arg(),
    {
        Some(1)
    }

    pub open spec fn spec_components(self) -> u32 {
        self.components
    }

    /// The component count of this vector.
    pub fn components(&self) -> (r: u32)
        ensures
            r == self.spec_components(),
    {
        self.components
    }
}

impl MatrixType {
    /// Matrices are square, 2 to 4 rows, of a floating-point scalar.
    pub open spec fn wf(self) -> bool {
        self.base_type.spec_is_float_type() && 2 <= self.n <= 4
    }

    pub open spec fn spec_glsl_base_type(self) -> Seq<char> {
        self.base_type.spec_glsl_base_type()
    }

    /// The shading-language keyword of the element scalar.
    pub fn glsl_base_type(&self) -> (r: &'static str)
        ensures
            r@ == self.spec_glsl_base_type(),
    {
        self.base_type.glsl_base_type()
    }

    pub open spec fn spec_glsl_mat_name(self) -> Seq<char> {
        self.base_type.spec_glsl_mat_name() + spec_dec(self.n as nat)
    }

    /// The shading-language spelling of this matrix: family name plus
    /// dimension.
    pub fn glsl_mat_name(&self) -> (r: String)
        requires
            self.wf(),
        ensures
            r@ == self.spec_glsl_mat_name(),
    {
        let mut s = self.base_type.glsl_mat_name();
        push_dec(&mut s, self.n as u64);
        s
    }

    pub open spec fn spec_rust_value_type(self) -> Seq<char> {
        "impl ::std::convert::AsRef<[["@ + self.base_type.spec_rust_primitive_type() + "; "@
            + spec_dec(self.n as nat) + "]; "@ + spec_dec(self.n as nat) + "]>"@
    }

    /// The parameter type a generated setter accepts for this matrix: any
    /// borrowable square aggregate of the element primitive.
    pub fn rust_value_type(&self) -> (r: String)
        ensures
            r@ == self.spec_rust_value_type(),
    {
        let mut s = "impl ::std::convert::AsRef<[[".to_owned();
        s.append(self.base_type.rust_primitive_type());
        s.append("; ");
        push_dec(&mut s, self.n as u64);
        s.append("]; ");
        push_dec(&mut s, self.n as u64);
        s.append("]>");
        assert(s@ =~= self.spec_rust_value_type());
        s
    }

    pub open spec fn spec_rust_primitive_type(self) -> Seq<char> {
        self.base_type.spec_rust_primitive_type()
    }

    /// The host-language primitive of the element scalar.
    pub fn rust_primitive_type(&self) -> (r: &'static str)
        ensures
            r@ == self.spec_rust_primitive_type(),
    {
        self.base_type.rust_primitive_type()
    }

    pub open spec fn spec_float_tag(self) -> Seq<char> {
        if self.base_type == AtomType::Float {
            "f"@
        } else {
            "d"@
        }
    }

    pub open spec fn spec_uniform_method_name(self) -> Seq<char> {
        "_matrix"@ + spec_dec(self.n as nat) + self.spec_float_tag() + "v"@
    }

    /// The upload method suffix for this matrix.
    pub fn uniform_method_name(&self) -> (r: String)
        requires
            self.wf(),
        ensures
            r@ == self.spec_uniform_method_name(),
    {
        let mut s = "_matrix".to_owned();
        push_dec(&mut s, self.n as u64);
        if matches!(self.base_type, AtomType::Float) {
            s.append("f");
        } else {
            s.append("d");
        }
        s.append("v");
        assert(s@ =~= self.spec_uniform_method_name());
        s
    }

    pub open spec fn spec_uniform_method_extra_args(self) -> Seq<ExtraArgV> {
        seq![
            ExtraArgV { name: "transpose"@, ty: "bool"@, val: "transpose as u8"@ },
        ]
    }

    /// A matrix setter takes an extra transpose flag and forwards it to the
    /// upload call.
    pub fn uniform_method_extra_args(&self) -> (r: Vec<ExtraArg>)
        ensures
            r@.map_values(|a: ExtraArg| a@) == self.spec_uniform_method_extra_args(),
    {
        let mut r: Vec<ExtraArg> = Vec::new();
        r.push(ExtraArg { name: "transpose", ty: "bool", val: "transpose as u8" });
        assert(r@.map_values(|a: ExtraArg| a@) =~= self.spec_uniform_method_extra_args());
        r
    }

    pub open spec fn spec_uniform_count_arg(self) -> Option<usize> {
        Some(1usize)
    }

    /// A matrix uploads one value through the slice path.
    pub fn uniform_count_arg(&self) -> (r: Option<usize>)
        ensures
            r == self.spec_uniform_count_arg(),
    {
        Some(1)
    }

    pub open spec fn spec_components(self) -> u32 {
        self.n
    }

    /// The dimension of this matrix.
    pub fn components(&self) -> (r: u32)
        ensures
            r == self.spec_components(),
    {
        self.n
    }
}

impl GenericType {
    /// A generic type is well formed when its vector or matrix shape is.
    pub open spec fn wf(self) -> bool {
        match self {
            GenericType::Atom(_) => true,
            GenericType::Vector(v) => v.wf(),
            GenericType::Matrix(m) => m.wf(),
        }
    }

    /// Whether this type has a vector spelling (matrices have none).
    pub open spec fn has_vec_name(self) -> bool {
        !(self is Matrix)
    }

    /// Whether this type has a matrix spelling.
    pub open spec fn has_mat_name(self) -> bool {
        match self {
            GenericType::Atom(a) => a.spec_is_float_type(),
            GenericType::Vector(_) => false,
            GenericType::Matrix(m) => m.wf(),
        }
    }

    pub open spec fn spec_glsl_base_type(self) -> Seq<char> {
        match self {
            GenericType::Atom(a) => a.spec_glsl_base_type(),
            GenericType::Vector(v) => v.spec_glsl_base_type(),
            GenericType::Matrix(m) => m.spec_glsl_base_type(),
        }
    }

    /// The shading-language keyword of the underlying scalar.
    pub fn glsl_base_type(&self) -> (r: &'static str)
        ensures
            r@ == self.spec_glsl_base_type(),
    {
        match self {
            GenericType::Atom(a) => a.glsl_base_type(),
            GenericType::Vector(v) => v.glsl_base_type(),
            GenericType::Matrix(m) => m.glsl_base_type(),
        }
    }

    pub open spec fn spec_glsl_vec_name(self) -> Seq<char> {
        match self {
            GenericType::Atom(a) => a.spec_glsl_vec_name(),
            GenericType::Vector(v) => v.spec_glsl_vec_name(),
            GenericType::Matrix(m) => Seq::empty(),
        }
    }

    /// The vector spelling: the family name for a bare scalar, the full
    /// spelling for a vector.
    pub fn glsl_vec_name(&self) -> (r: String)
        requires
            self.has_vec_name(),
        ensures
            r@ == self.spec_glsl_vec_name(),
    {
        match self {
            GenericType::Atom(a) => a.glsl_vec_name(),
            GenericType::Vector(v) => v.glsl_vec_name(),
            GenericType::Matrix(_) => String::new(),
        }
    }

    pub open spec fn spec_glsl_mat_name(self) -> Seq<char> {
        match self {
            GenericType::Atom(a) => a.spec_glsl_mat_name(),
            GenericType::Vector(v) => Seq::empty(),
            GenericType::Matrix(m) => m.spec_glsl_mat_name(),
        }
    }

    /// The matrix spelling: the family name for a bare floating-point scalar,
    /// the full spelling for a matrix.
    pub fn glsl_mat_name(&self) -> (r: String)
        requires
            self.has_mat_name(),
        ensures
            r@ == self.spec_glsl_mat_name(),
    {
        match self {
            GenericType::Atom(a) => a.glsl_mat_name(),
            GenericType::Vector(_) => String::new(),
            GenericType::Matrix(m) => m.glsl_mat_name(),
        }
    }

    pub open spec fn spec_rust_value_type(self) -> Seq<char> {
        match self {
            GenericType::Atom(a) => a.spec_rust_value_type(),
            GenericType::Vector(v) => v.spec_rust_value_type(),
            GenericType::Matrix(m) => m.spec_rust_value_type(),
        }
    }

    /// The parameter type a generated setter accepts.
    pub fn rust_value_type(&self) -> (r: String)
        ensures
            r@ == self.spec_rust_value_type(),
    {
        match self {
            GenericType::Atom(a) => a.rust_value_type(),
            GenericType::Vector(v) => v.rust_value_type(),
            GenericType::Matrix(m) => m.rust_value_type(),
        }
    }

    pub open spec fn spec_rust_aggregate_type(self) -> Seq<char> {
        match self {
            GenericType::Atom(a) => a.spec_rust_primitive_type(),
            GenericType::Vector(v) => "["@ + v.base_type.spec_rust_primitive_type() + "; "@
                + spec_dec(v.components as nat) + "]"@,
            GenericType::Matrix(m) => "[["@ + m.base_type.spec_rust_primitive_type() + "; "@
                + spec_dec(m.n as nat) + "]; "@ + spec_dec(m.n as nat) + "]"@,
        }
    }

    /// The plain fixed-size aggregate form of this type, usable as an array
    /// element in generated code.
    pub fn rust_aggregate_type(&self) -> (r: String)
        ensures
            r@ == self.spec_rust_aggregate_type(),
    {
        match self {
            GenericType::Atom(a) => a.rust_primitive_type().to_owned(),
            GenericType::Vector(v) => {
                let mut s = "[".to_owned();
                s.append(v.base_type.rust_primitive_type());
                s.append("; ");
                push_dec(&mut s, v.components as u64);
                s.append("]");
                assert(s@ =~= self.spec_rust_aggregate_type());
                s
            },
            GenericType::Matrix(m) => {
                let mut s = "[[".to_owned();
                s.append(m.base_type.rust_primitive_type());
                s.append("; ");
                push_dec(&mut s, m.n as u64);
                s.append("]; ");
                push_dec(&mut s, m.n as u64);
                s.append("]");
                assert(s@ =~= self.spec_rust_aggregate_type());
                s
            },
        }
    }

    pub open spec fn spec_rust_primitive_type(self) -> Seq<char> {
        match self {
            GenericType::Atom(a) => a.spec_rust_primitive_type(),
            GenericType::Vector(v) => v.spec_rust_primitive_type(),
            GenericType::Matrix(m) => m.spec_rust_primitive_type(),
        }
    }

    /// The host-language primitive of the underlying scalar.
    pub fn rust_primitive_type(&self) -> (r: &'static str)
        ensures
            r@ == self.spec_rust_primitive_type(),
    {
        match self {
            GenericType::Atom(a) => a.rust_primitive_type(),
            GenericType::Vector(v) => v.rust_primitive_type(),
            GenericType::Matrix(m) => m.rust_primitive_type(),
        }
    }

    pub open spec fn spec_uniform_method_name(self) -> Seq<char> {
        match self {
            GenericType::Atom(a) => a.spec_uniform_method_name(),
            GenericType::Vector(v) => v.spec_uniform_method_name(),
            GenericType::Matrix(m) => m.spec_uniform_method_name(),
        }
    }

    /// The upload method suffix this type dispatches to.
    pub fn uniform_method_name(&self) -> (r: String)
        requires
            self.wf(),
        ensures
            r@ == self.spec_uniform_method_name(),
    {
        match self {
            GenericType::Atom(a) => a.uniform_method_name(),
            GenericType::Vector(v) => v.uniform_method_name(),
            GenericType::Matrix(m) => m.uniform_method_name(),
        }
    }

    pub open spec fn spec_uniform_method_extra_args(self) -> Seq<ExtraArgV> {
        match self {
            GenericType::Atom(a) => a.spec_uniform_method_extra_args(),
            GenericType::Vector(v) => v.spec_uniform_method_extra_args(),
            GenericType::Matrix(m) => m.spec_uniform_method_extra_args(),
        }
    }

    /// The extra setter parameters this type needs.
    pub fn uniform_method_extra_args(&self) -> (r: Vec<ExtraArg>)
        ensures
            r@.map_values(|a: ExtraArg| a@) == self.spec_uniform_method_extra_args(),
    {
        match self {
            GenericType::Atom(a) => a.uniform_method_extra_args(),
            GenericType::Vector(v) => v.uniform_method_extra_args(),
            GenericType::Matrix(m) => m.uniform_method_extra_args(),
        }
    }

    pub open spec fn spec_uniform_count_arg(self) -> Option<usize> {
        match self {
            GenericType::Atom(a) => a.spec_uniform_count_arg(),
            GenericType::Vector(v) => v.spec_uniform_count_arg(),
            GenericType::Matrix(m) => m.spec_uniform_count_arg(),
        }
    }

    /// The count argument the upload call needs, if any.
    pub fn uniform_count_arg(&self) -> (r: Option<usize>)
        ensures
            r == self.spec_uniform_count_arg(),
    {
        match self {
            GenericType::Atom(a) => a.uniform_count_arg(),
            GenericType::Vector(v) => v.uniform_count_arg(),
            GenericType::Matrix(m) => m.uniform_count_arg(),
        }
    }

    pub open spec fn spec_components(self) -> u32 {
        match self {
            GenericType::Atom(a) => a.spec_components(),
            GenericType::Vector(v) => v.spec_components(),
            GenericType::Matrix(m) => m.spec_components(),
        }
    }

    /// The component count the upload call addresses.
    pub fn components(&self) -> (r: u32)
        ensures
            r == self.spec_components(),
    {
        match self {
            GenericType::Atom(a) => a.components(),
            GenericType::Vector(v) => v.components(),
            GenericType::Matrix(m) => m.components(),
        }
    }
}

impl ItemOrArrayType {
    /// Convenience constructor for a bare scalar type.
    pub fn atom(a: AtomType) -> (r: Self)
        ensures
            r == ItemOrArrayType::Item(GenericType::Atom(a)),
    {
        ItemOrArrayType::Item(GenericType::Atom(a))
    }

    /// Convenience constructor for a vector type.
    pub fn vector(base: AtomType, components: u32) -> (r: Self)
        ensures
            r == ItemOrArrayType::Item(
                GenericType::Vector(VectorType { base_type: base, components }),
            ),
    {
        ItemOrArrayType::Item(GenericType::Vector(VectorType { base_type: base, components }))
    }

    /// Convenience constructor for a square matrix type.
    pub fn matrix(base: AtomType, n: u32) -> (r: Self)
        ensures
            r == ItemOrArrayType::Item(GenericType::Matrix(MatrixType { base_type: base, n })),
    {
        ItemOrArrayType::Item(GenericType::Matrix(MatrixType { base_type: base, n }))
    }

    /// Convenience constructor for an array type.
    pub fn array(element: ItemOrArrayType, size: u32) -> (r: Self)
        ensures
            r == ItemOrArrayType::Array(Box::new(element), size),
    {
        ItemOrArrayType::Array(Box::new(element), size)
    }

    /// Arrays have a positive size and a well-formed element.
    pub open spec fn wf(self) -> bool
        decreases self,
    {
        match self {
            ItemOrArrayType::Item(g) => g.wf(),
            ItemOrArrayType::Array(el, size) => size >= 1 && el.wf(),
            ItemOrArrayType::Image => true,
        }
    }

    /// Whether this type has a vector spelling.
    pub open spec fn has_vec_name(self) -> bool
        decreases self,
    {
        match self {
            ItemOrArrayType::Item(g) => g.has_vec_name(),
            ItemOrArrayType::Array(el, _) => el.has_vec_name(),
            ItemOrArrayType::Image => true,
        }
    }

    /// Whether this type has a matrix spelling.
    pub open spec fn has_mat_name(self) -> bool
        decreases self,
    {
        match self {
            ItemOrArrayType::Item(g) => g.has_mat_name(),
            ItemOrArrayType::Array(el, _) => el.has_mat_name(),
            ItemOrArrayType::Image => true,
        }
    }

    pub open spec fn spec_glsl_base_type(self) -> Seq<char>
        decreases self,
    {
        match self {
            ItemOrArrayType::Item(g) => g.spec_glsl_base_type(),
            ItemOrArrayType::Array(el, _) => el.spec_glsl_base_type(),
            ItemOrArrayType::Image => "image"@,
        }
    }

    /// The shading-language keyword of the innermost scalar.
    pub fn glsl_base_type(&self) -> (r: &'static str)
        ensures
            r@ == self.spec_glsl_base_type(),
        decreases *self,
    {
        match self {
            ItemOrArrayType::Item(g) => g.glsl_base_type(),
            ItemOrArrayType::Array(el, _) => el.glsl_base_type(),
            ItemOrArrayType::Image => "image",
        }
    }

    pub open spec fn spec_glsl_vec_name(self) -> Seq<char>
        decreases self,
    {
        match self {
            ItemOrArrayType::Item(g) => g.spec_glsl_vec_name(),
            ItemOrArrayType::Array(el, _) => el.spec_glsl_vec_name(),
            ItemOrArrayType::Image => "image"@,
        }
    }

    /// The vector spelling of the innermost item.
    pub fn glsl_vec_name(&self) -> (r: String)
        requires
            self.has_vec_name(),
        ensures
            r@ == self.spec_glsl_vec_name(),
        decreases *self,
    {
        match self {
            ItemOrArrayType::Item(g) => g.glsl_vec_name(),
            ItemOrArrayType::Array(el, _) => el.glsl_vec_name(),
            ItemOrArrayType::Image => "image".to_owned(),
        }
    }

    pub open spec fn spec_glsl_mat_name(self) -> Seq<char>
        decreases self,
    {
        match self {
            ItemOrArrayType::Item(g) => g.spec_glsl_mat_name(),
            ItemOrArrayType::Array(el, _) => el.spec_glsl_mat_name(),
            ItemOrArrayType::Image => "image"@,
        }
    }

    /// The matrix spelling of the innermost item.
    pub fn glsl_mat_name(&self) -> (r: String)
        requires
            self.has_mat_name(),
        ensures
            r@ == self.spec_glsl_mat_name(),
        decreases *self,
    {
        match self {
            ItemOrArrayType::Item(g) => g.glsl_mat_name(),
            ItemOrArrayType::Array(el, _) => el.glsl_mat_name(),
            ItemOrArrayType::Image => "image".to_owned(),
        }
    }

    pub open spec fn spec_rust_aggregate_type(self) -> Seq<char>
        decreases self,
    {
        match self {
            ItemOrArrayType::Item(g) => g.spec_rust_aggregate_type(),
            ItemOrArrayType::Array(el, size) => "["@ + el.spec_rust_aggregate_type() + "; "@
                + spec_dec(size as nat) + "]"@,
            ItemOrArrayType::Image => "u32"@,
        }
    }

    /// The plain fixed-size aggregate form of this type.
    pub fn rust_aggregate_type(&self) -> (r: String)
        ensures
            r@ == self.spec_rust_aggregate_type(),
        decreases *self,
    {
        match self {
            ItemOrArrayType::Item(g) => g.rust_aggregate_type(),
            ItemOrArrayType::Array(el, size) => {
                let mut s = "[".to_owned();
                s.append(el.rust_aggregate_type().as_str());
                s.append("; ");
                push_dec(&mut s, *size as u64);
                s.append("]");
                assert(s@ =~= self.spec_rust_aggregate_type());
                s
            },
            ItemOrArrayType::Image => "u32".to_owned(),
        }
    }

    pub open spec fn spec_rust_value_type(self) -> Seq<char>
        decreases self,
    {
        match self {
            ItemOrArrayType::Item(g) => g.spec_rust_value_type(),
            ItemOrArrayType::Array(el, size) => "&["@ + el.spec_rust_aggregate_type() + "; "@
                + spec_dec(size as nat) + "]"@,
            ItemOrArrayType::Image => GenericType::Atom(AtomType::UInt).spec_rust_value_type(),
        }
    }

    /// The parameter type a generated setter accepts: the item's own value
    /// type, a borrowed fixed-length array of the element's aggregate type,
    /// or a texture unit index for an image.
    pub fn rust_value_type(&self) -> (r: String)
        ensures
            r@ == self.spec_rust_value_type(),
        decreases *self,
    {
        match self {
            ItemOrArrayType::Item(g) => g.rust_value_type(),
            ItemOrArrayType::Array(el, size) => {
                let mut s = "&[".to_owned();
                s.append(el.rust_aggregate_type().as_str());
                s.append("; ");
                push_dec(&mut s, *size as u64);
                s.append("]");
                assert(s@ =~= self.spec_rust_value_type());
                s
            },
            ItemOrArrayType::Image => GenericType::Atom(AtomType::UInt).rust_value_type(),
        }
    }

    pub open spec fn spec_rust_primitive_type(self) -> Seq<char>
        decreases self,
    {
        match self {
            ItemOrArrayType::Item(g) => g.spec_rust_primitive_type(),
            ItemOrArrayType::Array(el, _) => el.spec_rust_primitive_type(),
            ItemOrArrayType::Image => GenericType::Atom(
                AtomType::UInt,
            ).spec_rust_primitive_type(),
        }
    }

    /// The host-language primitive of the innermost scalar.
    pub fn rust_primitive_type(&self) -> (r: &'static str)
        ensures
            r@ == self.spec_rust_primitive_type(),
        decreases *self,
    {
        match self {
            ItemOrArrayType::Item(g) => g.rust_primitive_type(),
            ItemOrArrayType::Array(el, _) => el.rust_primitive_type(),
            ItemOrArrayType::Image => GenericType::Atom(AtomType::UInt).rust_primitive_type(),
        }
    }

    pub open spec fn spec_uniform_method_name(self) -> Seq<char>
        decreases self,
    {
        match self {
            ItemOrArrayType::Item(g) => g.spec_uniform_method_name(),
            ItemOrArrayType::Array(el, _) => el.spec_uniform_method_name(),
            ItemOrArrayType::Image => GenericType::Atom(
                AtomType::UInt,
            ).spec_uniform_method_name(),
        }
    }

    /// The upload method suffix this type dispatches to; an image uploads its
    /// texture unit index through the unsigned scalar path.
    pub fn uniform_method_name(&self) -> (r: String)
        requires
            self.wf(),
        ensures
            r@ == self.spec_uniform_method_name(),
        decreases *self,
    {
        match self {
            ItemOrArrayType::Item(g) => g.uniform_method_name(),
            ItemOrArrayType::Array(el, _) => el.uniform_method_name(),
            ItemOrArrayType::Image => GenericType::Atom(AtomType::UInt).uniform_method_name(),
        }
    }

    pub open spec fn spec_uniform_method_extra_args(self) -> Seq<ExtraArgV>
        decreases self,
    {
        match self {
            ItemOrArrayType::Item(g) => g.spec_uniform_method_extra_args(),
            ItemOrArrayType::Array(el, _) => el.spec_uniform_method_extra_args(),
            ItemOrArrayType::Image => Seq::empty(),
        }
    }

    /// The extra setter parameters this type needs.
    pub fn uniform_method_extra_args(&self) -> (r: Vec<ExtraArg>)
        ensures
            r@.map_values(|a: ExtraArg| a@) == self.spec_uniform_method_extra_args(),
        decreases *self,
    {
        match self {
            ItemOrArrayType::Item(g) => g.uniform_method_extra_args(),
            ItemOrArrayType::Array(el, _) => el.uniform_method_extra_args(),
            ItemOrArrayType::Image => {
                let r: Vec<ExtraArg> = Vec::new();
                assert(r@.map_values(|a: ExtraArg| a@) =~= Seq::<ExtraArgV>::empty());
                r
            },
        }
    }

    pub open spec fn spec_uniform_count_arg(self) -> Option<usize>
        decreases self,
    {
        match self {
            ItemOrArrayType::Item(g) => g.spec_uniform_count_arg(),
            ItemOrArrayType::Array(_, size) => Some(size as usize),
            ItemOrArrayType::Image => None,
        }
    }

    /// The count argument the upload call needs: an array uploads as many
    /// values as its size.
    pub fn uniform_count_arg(&self) -> (r: Option<usize>)
        ensures
            r == self.spec_uniform_count_arg(),
    {
        match self {
            ItemOrArrayType::Item(g) => g.uniform_count_arg(),
            ItemOrArrayType::Array(_, size) => Some(*size as usize),
            ItemOrArrayType::Image => None,
        }
    }

    pub open spec fn spec_components(self) -> u32
        decreases self,
    {
        match self {
            ItemOrArrayType::Item(g) => g.spec_components(),
            ItemOrArrayType::Array(el, _) => el.spec_components(),
            ItemOrArrayType::Image => 1,
        }
    }

    /// The component count the upload call addresses.
    pub fn components(&self) -> (r: u32)
        ensures
            r == self.spec_components(),
        decreases *self,
    {
        match self {
            ItemOrArrayType::Item(g) => g.components(),
            ItemOrArrayType::Array(el, _) => el.components(),
            ItemOrArrayType::Image => 1,
        }
    }
}

/// The `", "`-joined rendering of extra arguments as `name: type` pairs.
pub open spec fn spec_args_with_ty(args: Seq<ExtraArgV>) -> Seq<char>
    decreases args.len(),
{
    if args.len() == 0 {
        Seq::empty()
    } else if args.len() == 1 {
        args[0].name + ": "@ + args[0].ty
    } else {
        spec_args_with_ty(args.drop_last()) + ", "@ + args.last().name + ": "@ + args.last().ty
    }
}

/// The `", "`-joined rendering of extra argument names alone.
pub open spec fn spec_args_no_ty(args: Seq<ExtraArgV>) -> Seq<char>
    decreases args.len(),
{
    if args.len() == 0 {
        Seq::empty()
    } else if args.len() == 1 {
        args[0].name
    } else {
        spec_args_no_ty(args.drop_last()) + ", "@ + args.last().name
    }
}

/// Renders the extra setter parameters as a `name: type` list, or nothing
/// when there are none.
pub fn uniform_method_extra_args_with_ty(args: &Vec<ExtraArg>) -> (r: Option<String>)
    ensures
        r is Some <==> args@.len() > 0,
        r matches Some(s) ==> s@ == spec_args_with_ty(args@.map_values(|a: ExtraArg| a@)),
{
    if args.len() == 0 {
        return None;
    }
    let ghost argvs = args@.map_values(|a: ExtraArg| a@);
    let mut s = String::new();
    let mut i: usize = 0;
    while i < args.len()
        invariant
            i <= args@.len(),
            args@.len() > 0,
            argvs == args@.map_values(|a: ExtraArg| a@),
            s@ == spec_args_with_ty(argvs.take(i as int)),
        decreases args@.len() - i,
    {
        if i > 0 {
            s.append(", ");
        }
        s.append(args[i].name);
        s.append(": ");
        s.append(args[i].ty);
        proof {
            assert(argvs.take(i + 1).drop_last() =~= argvs.take(i as int));
            assert(argvs.take(i + 1).last() == argvs[i as int]);
            assert(s@ =~= spec_args_with_ty(argvs.take(i + 1)));
        }
        i = i + 1;
    }
    proof {
        assert(argvs.take(args@.len() as int) =~= argvs);
    }
    Some(s)
}

/// Renders the extra setter parameter names as a plain list, or nothing when
/// there are none.
pub fn uniform_method_extra_args_no_ty(args: &Vec<ExtraArg>) -> (r: Option<String>)
    ensures
        r is Some <==> args@.len() > 0,
        r matches Some(s) ==> s@ == spec_args_no_ty(args@.map_values(|a: ExtraArg| a@)),
{
    if args.len() == 0 {
        return None;
    }
    let ghost argvs = args@.map_values(|a: ExtraArg| a@);
    let mut s = String::new();
    let mut i: usize = 0;
    while i < args.len()
        invariant
            i <= args@.len(),
            args@.len() > 0,
            argvs == args@.map_values(|a: ExtraArg| a@),
            s@ == spec_args_no_ty(argvs.take(i as int)),
        decreases args@.len() - i,
    {
        if i > 0 {
            s.append(", ");
        }
        s.append(args[i].name);
        proof {
            assert(argvs.take(i + 1).drop_last() =~= argvs.take(i as int));
            assert(argvs.take(i + 1).last() == argvs[i as int]);
            assert(s@ =~= spec_args_no_ty(argvs.take(i + 1)));
        }
        i = i + 1;
    }
    proof {
        assert(argvs.take(args@.len() as int) =~= argvs);
    }
    Some(s)
}

} // verus!
