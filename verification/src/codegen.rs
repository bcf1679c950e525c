//! The code generator: turns a reflected descriptor list into the wrapper
//! declarations for one shader — a handle type embedding the asset, a
//! uniform-bindings holder with one optional location slot per descriptor,
//! a constructor, and one setter per descriptor — and renders them as
//! source text. Everything is regenerated per invocation; nothing is
//! cached.

use vstd::prelude::*;
use vstd::string::StrSliceExecFns;
use vstd::string::StringExecFns;

use crate::casing::camel_of;
use crate::casing::snake_of;
use crate::casing::to_camel_case;
use crate::casing::to_snake_case;
use crate::compiler::TargetType;
use crate::reflect::FoundUniform;
use crate::reflect::FoundUniformV;
use crate::reflect::uniforms_view;
use crate::shader_kind::ShaderKind;
use crate::text::push_dec;
use crate::text::spec_dec;
use crate::types::ExtraArg;
use crate::types::ExtraArgV;
use crate::types::ItemOrArrayType;

verus! {

/// One optional location slot in the generated bindings holder.
#[derive(Debug)]
pub struct SlotDecl {
    pub uniform_name: String,
    pub field_name: String,
}

/// The mathematical content of a `SlotDecl`.
pub struct SlotDeclV {
    pub uniform_name: Seq<char>,
    pub field_name: Seq<char>,
}

impl View for SlotDecl {
    type V = SlotDeclV;

    open spec fn view(&self) -> SlotDeclV {
        SlotDeclV { uniform_name: self.uniform_name@, field_name: self.field_name@ }
    }
}

/// How the constructor fills one slot: a location fixed by reflection, or a
/// runtime name lookup that tolerates an absent result.
#[derive(Debug)]
pub enum SlotInit {
    FromReflection(u32),
    LookupByName(String),
}

/// The mathematical content of a `SlotInit`.
pub enum SlotInitV {
    FromReflection(u32),
    LookupByName(Seq<char>),
}

impl View for SlotInit {
    type V = SlotInitV;

    open spec fn view(&self) -> SlotInitV {
        match self {
            SlotInit::FromReflection(loc) => SlotInitV::FromReflection(*loc),
            SlotInit::LookupByName(n) => SlotInitV::LookupByName(n@),
        }
    }
}

/// One constructor entry.
#[derive(Debug)]
pub struct CtorEntry {
    pub field_name: String,
    pub init: SlotInit,
}

/// The mathematical content of a `CtorEntry`.
pub struct CtorEntryV {
    pub field_name: Seq<char>,
    pub init: SlotInitV,
}

impl View for CtorEntry {
    type V = CtorEntryV;

    open spec fn view(&self) -> CtorEntryV {
        CtorEntryV { field_name: self.field_name@, init: self.init@ }
    }
}

/// One generated setter: the uniform it serves, the slot field it reads,
/// the parameter type it accepts, and the upload selector it dispatches to.
#[derive(Debug)]
pub struct SetterDecl {
    pub uniform_name: String,
    pub field_name: String,
    pub param_type: String,
    pub upload_method: String,
    pub count_arg: Option<usize>,
    pub extra_args: Vec<ExtraArg>,
}

/// The mathematical content of a `SetterDecl`.
pub struct SetterDeclV {
    pub uniform_name: Seq<char>,
    pub field_name: Seq<char>,
    pub param_type: Seq<char>,
    pub upload_method: Seq<char>,
    pub count_arg: Option<usize>,
    pub extra_args: Seq<ExtraArgV>,
}

impl View for SetterDecl {
    type V = SetterDeclV;

    open spec fn view(&self) -> SetterDeclV {
        SetterDeclV {
            uniform_name: self.uniform_name@,
            field_name: self.field_name@,
            param_type: self.param_type@,
            upload_method: self.upload_method@,
            count_arg: self.count_arg,
            extra_args: self.extra_args@.map_values(|a: ExtraArg| a@),
        }
    }
}

/// The wrapper declarations generated for one shader.
#[derive(Debug)]
pub struct WrapperModule {
    pub shader_name: String,
    pub struct_name: String,
    pub uniforms_struct_name: String,
    pub kind_constant: String,
    pub source_mode: bool,
    pub asset: Vec<u8>,
    pub slots: Vec<SlotDecl>,
    pub ctor: Vec<CtorEntry>,
    pub setters: Vec<SetterDecl>,
}

/// The mathematical content of a `WrapperModule`.
pub struct WrapperModuleV {
    pub shader_name: Seq<char>,
    pub struct_name: Seq<char>,
    pub uniforms_struct_name: Seq<char>,
    pub kind_constant: Seq<char>,
    pub source_mode: bool,
    pub asset: Seq<u8>,
    pub slots: Seq<SlotDeclV>,
    pub ctor: Seq<CtorEntryV>,
    pub setters: Seq<SetterDeclV>,
}

impl View for WrapperModule {
    type V = WrapperModuleV;

    open spec fn view(&self) -> WrapperModuleV {
        WrapperModuleV {
            shader_name: self.shader_name@,
            struct_name: self.struct_name@,
            uniforms_struct_name: self.uniforms_struct_name@,
            kind_constant: self.kind_constant@,
            source_mode: self.source_mode,
            asset: self.asset@,
            slots: slot_decls_view(self.slots@),
            ctor: ctor_entries_view(self.ctor@),
            setters: setter_decls_view(self.setters@),
        }
    }
}

/// The slot field name for a uniform.
pub open spec fn spec_slot_field(name: Seq<char>) -> Seq<char> {
    snake_of(name + "_location"@)
}

/// The slot declaration for a descriptor.
pub open spec fn spec_slot(u: FoundUniformV) -> SlotDeclV {
    SlotDeclV { uniform_name: u.name, field_name: spec_slot_field(u.name) }
}

/// The constructor entry for a descriptor: in reflected-binary mode the
/// already-resolved location is trusted as fixed; in source-lookup mode the
/// slot is filled by a runtime name query.
pub open spec fn spec_ctor_entry(u: FoundUniformV, source_mode: bool) -> CtorEntryV {
    CtorEntryV {
        field_name: spec_slot_field(u.name),
        init: if source_mode {
            SlotInitV::LookupByName(u.name)
        } else {
            SlotInitV::FromReflection(u.location)
        },
    }
}

/// The resolved type of a descriptor, or the opaque image placeholder where
/// none is recorded (generation requires one).
pub open spec fn spec_ty_of(u: FoundUniformV) -> ItemOrArrayType {
    match u.ty {
        Some(t) => t,
        None => ItemOrArrayType::Image,
    }
}

/// The setter declaration for a descriptor.
pub open spec fn spec_setter(u: FoundUniformV) -> SetterDeclV {
    let ty = spec_ty_of(u);
    SetterDeclV {
        uniform_name: u.name,
        field_name: spec_slot_field(u.name),
        param_type: ty.spec_rust_value_type(),
        upload_method: ty.spec_uniform_method_name(),
        count_arg: ty.spec_uniform_count_arg(),
        extra_args: ty.spec_uniform_method_extra_args(),
    }
}


/// The mathematical content of a slot list.
pub open spec fn slot_decls_view(s: Seq<SlotDecl>) -> Seq<SlotDeclV> {
    s.map_values(|d: SlotDecl| d@)
}

/// The mathematical content of a constructor entry list.
pub open spec fn ctor_entries_view(s: Seq<CtorEntry>) -> Seq<CtorEntryV> {
    s.map_values(|d: CtorEntry| d@)
}

/// The mathematical content of a setter list.
pub open spec fn setter_decls_view(s: Seq<SetterDecl>) -> Seq<SetterDeclV> {
    s.map_values(|d: SetterDecl| d@)
}

/// The mathematical content of a triple list.
pub open spec fn triples_view(s: Seq<(String, bool, String)>) -> Seq<(Seq<char>, bool, Seq<char>)> {
    s.map_values(|t: (String, bool, String)| (t.0@, t.1, t.2@))
}

/// The slot declarations for a descriptor list.
pub open spec fn spec_slots_of(us: Seq<FoundUniformV>) -> Seq<SlotDeclV> {
    us.map_values(|u: FoundUniformV| spec_slot(u))
}

/// The constructor entries for a descriptor list.
pub open spec fn spec_ctors_of(us: Seq<FoundUniformV>, source_mode: bool) -> Seq<CtorEntryV> {
    us.map_values(|u: FoundUniformV| spec_ctor_entry(u, source_mode))
}

/// The setter declarations for a descriptor list.
pub open spec fn spec_setters_of(us: Seq<FoundUniformV>) -> Seq<SetterDeclV> {
    us.map_values(|u: FoundUniformV| spec_setter(u))
}

/// A descriptor list the generator accepts: every record resolved to a
/// well-formed type.
pub open spec fn spec_generatable(us: Seq<FoundUniformV>) -> bool {
    forall|i: int|
        0 <= i < us.len() ==> ((#[trigger] us[i].ty) matches Some(t) && t.wf())
}

/// The wrapper declarations for one shader.
pub open spec fn spec_generate(
    base_name: Seq<char>,
    shader_name: Seq<char>,
    kind: ShaderKind,
    source_mode: bool,
    asset: Seq<u8>,
    us: Seq<FoundUniformV>,
) -> WrapperModuleV {
    WrapperModuleV {
        shader_name,
        struct_name: camel_of(base_name + "_shader"@),
        uniforms_struct_name: camel_of(base_name + "_uniforms"@),
        kind_constant: kind.spec_constant_name(),
        source_mode,
        asset,
        slots: spec_slots_of(us),
        ctor: spec_ctors_of(us, source_mode),
        setters: spec_setters_of(us),
    }
}

/// Generates the wrapper declarations for one shader from its reflected
/// descriptor list. Source-output targets look locations up by name at
/// runtime; the binary target trusts the reflected locations.
pub fn generate_wrapper(
    base_name: &str,
    shader_name: &str,
    kind: ShaderKind,
    target: &TargetType,
    asset: Vec<u8>,
    uniforms: &Vec<FoundUniform>,
) -> (r: WrapperModule)
    requires
        spec_generatable(uniforms_view(uniforms@)),
    ensures
        r@ == spec_generate(
            base_name@,
            shader_name@,
            kind,
            *target is Glsl,
            asset@,
            uniforms_view(uniforms@),
        ),
{
    let ghost us = uniforms_view(uniforms@);
    let source_mode = matches!(target, TargetType::Glsl(_));
    let mut base_shader = base_name.to_owned();
    base_shader.append("_shader");
    let mut base_uniforms = base_name.to_owned();
    base_uniforms.append("_uniforms");
    let struct_name = to_camel_case(base_shader.as_str());
    let uniforms_struct_name = to_camel_case(base_uniforms.as_str());

    let mut slots: Vec<SlotDecl> = Vec::new();
    let mut ctor: Vec<CtorEntry> = Vec::new();
    let mut setters: Vec<SetterDecl> = Vec::new();
    let mut i: usize = 0;
    proof {
        assert(slot_decls_view(slots@) =~= spec_slots_of(us.take(0)));
        assert(ctor_entries_view(ctor@) =~= spec_ctors_of(us.take(0), source_mode));
        assert(setter_decls_view(setters@) =~= spec_setters_of(us.take(0)));
    }
    while i < uniforms.len()
        invariant
            i <= uniforms@.len(),
            us == uniforms_view(uniforms@),
            spec_generatable(us),
            slot_decls_view(slots@) == spec_slots_of(us.take(i as int)),
            ctor_entries_view(ctor@) == spec_ctors_of(us.take(i as int), source_mode),
            setter_decls_view(setters@) == spec_setters_of(us.take(i as int)),
        decreases uniforms@.len() - i,
    {
        let u = &uniforms[i];
        proof {
            assert(us[i as int] == u@);
        }
        let mut with_suffix = u.name.clone();
        with_suffix.append("_location");
        let field_name = to_snake_case(with_suffix.as_str());
        let ctor_field = field_name.clone();
        let setter_field = field_name.clone();

        slots.push(SlotDecl { uniform_name: u.name.clone(), field_name });

        let init = if source_mode {
            SlotInit::LookupByName(u.name.clone())
        } else {
            SlotInit::FromReflection(u.location)
        };
        ctor.push(CtorEntry { field_name: ctor_field, init });

        let ty: &ItemOrArrayType = match &u.ty {
            Some(t) => t,
            None => &ItemOrArrayType::Image,
        };
        proof {
            assert(*ty == spec_ty_of(u@));
            assert(ty.wf());
        }
        setters.push(
            SetterDecl {
                uniform_name: u.name.clone(),
                field_name: setter_field,
                param_type: ty.rust_value_type(),
                upload_method: ty.uniform_method_name(),
                count_arg: ty.uniform_count_arg(),
                extra_args: ty.uniform_method_extra_args(),
            },
        );

        proof {
            broadcast use vstd::prelude::Seq::lemma_push_map_commute;
            broadcast use vstd::prelude::Seq::lemma_map_take_succ;

            assert(us.take(i + 1).drop_last() =~= us.take(i as int));
            assert(us.take(i + 1).last() == us[i as int]);
            assert(slots@.last()@ == spec_slot(us[i as int]));
            assert(ctor@.last()@ == spec_ctor_entry(us[i as int], source_mode));
            assert(setters@.last()@ == spec_setter(us[i as int]));
            assert(slot_decls_view(slots@) =~= spec_slots_of(us.take(i + 1)));
            assert(ctor_entries_view(ctor@) =~= spec_ctors_of(us.take(i + 1), source_mode));
            assert(setter_decls_view(setters@) =~= spec_setters_of(us.take(i + 1)));
        }
        i = i + 1;
    }
    proof {
        assert(us.take(us.len() as int) =~= us);
    }
    WrapperModule {
        shader_name: shader_name.to_owned(),
        struct_name,
        uniforms_struct_name,
        kind_constant: kind.constant_name().to_owned(),
        source_mode,
        asset,
        slots,
        ctor,
        setters,
    }
}

/// The decimal byte list inside the embedded asset literal.
pub open spec fn spec_bytes_list(b: Seq<u8>) -> Seq<char>
    decreases b.len(),
{
    if b.len() == 0 {
        Seq::empty()
    } else if b.len() == 1 {
        spec_dec(b[0] as nat)
    } else {
        spec_bytes_list(b.drop_last()) + ", "@ + spec_dec(b.last() as nat)
    }
}

/// One slot declaration line.
pub open spec fn spec_slot_line(s: SlotDeclV) -> Seq<char> {
    "    "@ + s.field_name + ": Option<u32>,\n"@
}

/// The slot declaration lines.
pub open spec fn spec_slot_lines(ss: Seq<SlotDeclV>) -> Seq<char>
    decreases ss.len(),
{
    if ss.len() == 0 {
        Seq::empty()
    } else {
        spec_slot_lines(ss.drop_last()) + spec_slot_line(ss.last())
    }
}

/// One constructor entry line: a fixed location, or a runtime lookup that
/// tolerates an absent result.
pub open spec fn spec_ctor_line(c: CtorEntryV) -> Seq<char> {
    match c.init {
        SlotInitV::FromReflection(loc) => "            "@ + c.field_name + ": Some("@ + spec_dec(
            loc as nat,
        ) + "),\n"@,
        SlotInitV::LookupByName(n) => "            "@ + c.field_name
            + ": gl.get_uniform_location(program, \""@ + n + "\"),\n"@,
    }
}

/// The constructor entry lines.
pub open spec fn spec_ctor_lines(cs: Seq<CtorEntryV>) -> Seq<char>
    decreases cs.len(),
{
    if cs.len() == 0 {
        Seq::empty()
    } else {
        spec_ctor_lines(cs.drop_last()) + spec_ctor_line(cs.last())
    }
}

/// The extra `", <name>: <type>"` parameter text of a setter, empty when
/// there are no extra arguments.
pub open spec fn spec_extra_params(args: Seq<ExtraArgV>) -> Seq<char> {
    if args.len() == 0 {
        Seq::empty()
    } else {
        ", "@ + crate::types::spec_args_with_ty(args)
    }
}

/// The `", <value>"` argument text the setter forwards for its extra
/// parameters.
pub open spec fn spec_extra_vals(args: Seq<ExtraArgV>) -> Seq<char>
    decreases args.len(),
{
    if args.len() == 0 {
        Seq::empty()
    } else {
        spec_extra_vals(args.drop_last()) + ", "@ + args.last().val
    }
}

/// The `", <count>"` argument text, where the upload needs a count.
pub open spec fn spec_count_part(count: Option<usize>) -> Seq<char> {
    match count {
        Some(c) => ", "@ + spec_dec(c as nat),
        None => Seq::empty(),
    }
}

/// One setter: parameter-typed by the type model, dispatching through the
/// upload selector, a no-op when its slot is empty.
pub open spec fn spec_setter_text(s: SetterDeclV) -> Seq<char> {
    "    pub fn set_"@ + snake_of(s.uniform_name) + "(&self, gl: &::tinygl::Context, value: "@
        + s.param_type + spec_extra_params(s.extra_args) + ") {\n        if let Some(loc) = self."@
        + s.field_name + " {\n            gl.uniform"@ + s.upload_method + "(loc"@
        + spec_count_part(s.count_arg) + ", value"@ + spec_extra_vals(s.extra_args)
        + ");\n        }\n    }\n"@
}

/// The setter declarations.
pub open spec fn spec_setters_text(ss: Seq<SetterDeclV>) -> Seq<char>
    decreases ss.len(),
{
    if ss.len() == 0 {
        Seq::empty()
    } else {
        spec_setters_text(ss.drop_last()) + spec_setter_text(ss.last())
    }
}

/// The asset accessor: the bytes of the module in binary mode, the bytes of
/// the transpiled source in source mode, embedded verbatim so no filesystem
/// access is needed at use-time.
pub open spec fn spec_asset_text(source_mode: bool, asset: Seq<u8>) -> Seq<char> {
    (if source_mode {
        "    pub fn source_bytes() -> &'static [u8] {\n        &["@
    } else {
        "    pub fn binary() -> &'static [u8] {\n        &["@
    }) + spec_bytes_list(asset) + "]\n    }\n"@
}

/// The constructor: parameters named for use in source mode, underscored in
/// binary mode where nothing is looked up.
pub open spec fn spec_ctor_text(w: WrapperModuleV) -> Seq<char> {
    "    pub fn new("@ + (if w.source_mode {
        "gl: &::tinygl::Context, program: u32"@
    } else {
        "_gl: &::tinygl::Context, _program: u32"@
    }) + ") -> Self {\n        Self {\n"@ + spec_ctor_lines(w.ctor) + "        }\n    }\n"@
}

/// The whole wrapper source for one shader.
pub open spec fn spec_render_wrapper(w: WrapperModuleV) -> Seq<char> {
    "/// "@ + w.shader_name + " wrapper\npub struct "@ + w.struct_name
        + ";\n\nimpl "@ + w.struct_name
        + " {\n    pub fn kind() -> u32 {\n        ::tinygl::gl::"@ + w.kind_constant
        + "\n    }\n\n"@ + spec_asset_text(w.source_mode, w.asset)
        + "}\n\n#[derive(Default)]\npub struct "@ + w.uniforms_struct_name + " {\n"@
        + spec_slot_lines(w.slots) + "}\n\nimpl "@ + w.uniforms_struct_name + " {\n"@
        + spec_ctor_text(w) + "\n"@ + spec_setters_text(w.setters) + "}\n"@
}

/// Appends the decimal byte list of the asset.
fn push_bytes_list(out: &mut String, b: &Vec<u8>)
    ensures
        final(out)@ == old(out)@ + spec_bytes_list(b@),
{
    let mut i: usize = 0;
    proof {
        assert(old(out)@ + spec_bytes_list(b@.take(0)) =~= old(out)@);
    }
    while i < b.len()
        invariant
            i <= b@.len(),
            out@ == old(out)@ + spec_bytes_list(b@.take(i as int)),
        decreases b@.len() - i,
    {
        if i > 0 {
            out.append(", ");
        }
        push_dec(out, b[i] as u64);
        proof {
            assert(b@.take(i + 1).drop_last() =~= b@.take(i as int));
            assert(b@.take(i + 1).last() == b@[i as int]);
            assert(out@ =~= old(out)@ + spec_bytes_list(b@.take(i + 1)));
        }
        i = i + 1;
    }
    proof {
        assert(b@.take(b@.len() as int) =~= b@);
    }
}

/// Appends the slot declaration lines.
fn push_slot_lines(out: &mut String, ss: &Vec<SlotDecl>)
    ensures
        final(out)@ == old(out)@ + spec_slot_lines(slot_decls_view(ss@)),
{
    let ghost sv = slot_decls_view(ss@);
    let mut i: usize = 0;
    proof {
        assert(old(out)@ + spec_slot_lines(sv.take(0)) =~= old(out)@);
    }
    while i < ss.len()
        invariant
            i <= ss@.len(),
            sv == slot_decls_view(ss@),
            out@ == old(out)@ + spec_slot_lines(sv.take(i as int)),
        decreases ss@.len() - i,
    {
        out.append("    ");
        out.append(ss[i].field_name.as_str());
        out.append(": Option<u32>,\n");
        proof {
            assert(sv.take(i + 1).drop_last() =~= sv.take(i as int));
            assert(sv.take(i + 1).last() == sv[i as int]);
            assert(sv[i as int] == ss@[i as int]@);
            assert(out@ =~= old(out)@ + spec_slot_lines(sv.take(i + 1)));
        }
        i = i + 1;
    }
    proof {
        assert(sv.take(sv.len() as int) =~= sv);
    }
}

/// Appends the constructor entry lines.
fn push_ctor_lines(out: &mut String, cs: &Vec<CtorEntry>)
    ensures
        final(out)@ == old(out)@ + spec_ctor_lines(ctor_entries_view(cs@)),
{
    let ghost cv = ctor_entries_view(cs@);
    let mut i: usize = 0;
    proof {
        assert(old(out)@ + spec_ctor_lines(cv.take(0)) =~= old(out)@);
    }
    while i < cs.len()
        invariant
            i <= cs@.len(),
            cv == ctor_entries_view(cs@),
            out@ == old(out)@ + spec_ctor_lines(cv.take(i as int)),
        decreases cs@.len() - i,
    {
        out.append("            ");
        out.append(cs[i].field_name.as_str());
        match &cs[i].init {
            SlotInit::FromReflection(loc) => {
                out.append(": Some(");
                push_dec(out, *loc as u64);
                out.append("),\n");
            },
            SlotInit::LookupByName(n) => {
                out.append(": gl.get_uniform_location(program, \"");
                out.append(n.as_str());
                out.append("\"),\n");
            },
        }
        proof {
            assert(cv.take(i + 1).drop_last() =~= cv.take(i as int));
            assert(cv.take(i + 1).last() == cv[i as int]);
            assert(cv[i as int] == cs@[i as int]@);
            assert(out@ =~= old(out)@ + spec_ctor_lines(cv.take(i + 1)));
        }
        i = i + 1;
    }
    proof {
        assert(cv.take(cv.len() as int) =~= cv);
    }
}

/// Appends one setter declaration.
#[verifier::rlimit(80)]
fn push_setter_text(out: &mut String, s: &SetterDecl)
    ensures
        final(out)@ == old(out)@ + spec_setter_text(s@),
{
    out.append("    pub fn set_");
    let snake = to_snake_case(s.uniform_name.as_str());
    out.append(snake.as_str());
    out.append("(&self, gl: &::tinygl::Context, value: ");
    out.append(s.param_type.as_str());
    match crate::types::uniform_method_extra_args_with_ty(&s.extra_args) {
        Some(ps) => {
            out.append(", ");
            out.append(ps.as_str());
        },
        None => {},
    }
    out.append(") {\n        if let Some(loc) = self.");
    out.append(s.field_name.as_str());
    out.append(" {\n            gl.uniform");
    out.append(s.upload_method.as_str());
    out.append("(loc");
    match s.count_arg {
        Some(c) => {
            out.append(", ");
            push_dec(out, c as u64);
        },
        None => {},
    }
    out.append(", value");
    let ghost av = s.extra_args@.map_values(|a: ExtraArg| a@);
    let mut k: usize = 0;
    proof {
        assert(spec_extra_vals(av.take(0)) =~= Seq::<char>::empty());
        assert(out@ =~= out@ + spec_extra_vals(av.take(0)));
    }
    let ghost mid = out@;
    while k < s.extra_args.len()
        invariant
            k <= s.extra_args@.len(),
            av == s.extra_args@.map_values(|a: ExtraArg| a@),
            out@ == mid + spec_extra_vals(av.take(k as int)),
        decreases s.extra_args@.len() - k,
    {
        out.append(", ");
        out.append(s.extra_args[k].val);
        proof {
            assert(av.take(k + 1).drop_last() =~= av.take(k as int));
            assert(av.take(k + 1).last() == av[k as int]);
            assert(out@ =~= mid + spec_extra_vals(av.take(k + 1)));
        }
        k = k + 1;
    }
    proof {
        assert(av.take(av.len() as int) =~= av);
    }
    out.append(");\n        }\n    }\n");
    proof {
        assert(final(out)@ =~= old(out)@ + spec_setter_text(s@));
    }
}

/// Appends the setter declarations.
fn push_setters_text(out: &mut String, ss: &Vec<SetterDecl>)
    ensures
        final(out)@ == old(out)@ + spec_setters_text(setter_decls_view(ss@)),
{
    let ghost sv = setter_decls_view(ss@);
    let mut i: usize = 0;
    proof {
        assert(old(out)@ + spec_setters_text(sv.take(0)) =~= old(out)@);
    }
    while i < ss.len()
        invariant
            i <= ss@.len(),
            sv == setter_decls_view(ss@),
            out@ == old(out)@ + spec_setters_text(sv.take(i as int)),
        decreases ss@.len() - i,
    {
        push_setter_text(out, &ss[i]);
        proof {
            assert(sv.take(i + 1).drop_last() =~= sv.take(i as int));
            assert(sv.take(i + 1).last() == sv[i as int]);
            assert(sv[i as int] == ss@[i as int]@);
            assert(out@ =~= old(out)@ + spec_setters_text(sv.take(i + 1)));
        }
        i = i + 1;
    }
    proof {
        assert(sv.take(sv.len() as int) =~= sv);
    }
}

/// Renders the wrapper declarations for one shader as source text.
pub fn render_wrapper(w: &WrapperModule) -> (r: String)
    ensures
        r@ == spec_render_wrapper(w@),
{
    let mut out = String::new();
    out.append("/// ");
    out.append(w.shader_name.as_str());
    out.append(" wrapper\npub struct ");
    out.append(w.struct_name.as_str());
    out.append(";\n\nimpl ");
    out.append(w.struct_name.as_str());
    out.append(" {\n    pub fn kind() -> u32 {\n        ::tinygl::gl::");
    out.append(w.kind_constant.as_str());
    out.append("\n    }\n\n");
    if w.source_mode {
        out.append("    pub fn source_bytes() -> &'static [u8] {\n        &[");
    } else {
        out.append("    pub fn binary() -> &'static [u8] {\n        &[");
    }
    push_bytes_list(&mut out, &w.asset);
    out.append("]\n    }\n");
    out.append("}\n\n#[derive(Default)]\npub struct ");
    out.append(w.uniforms_struct_name.as_str());
    out.append(" {\n");
    push_slot_lines(&mut out, &w.slots);
    out.append("}\n\nimpl ");
    out.append(w.uniforms_struct_name.as_str());
    out.append(" {\n");
    out.append("    pub fn new(");
    if w.source_mode {
        out.append("gl: &::tinygl::Context, program: u32");
    } else {
        out.append("_gl: &::tinygl::Context, _program: u32");
    }
    out.append(") -> Self {\n        Self {\n");
    push_ctor_lines(&mut out, &w.ctor);
    out.append("        }\n    }\n");
    out.append("\n");
    push_setters_text(&mut out, &w.setters);
    out.append("}\n");
    proof {
        assert(out@ =~= spec_render_wrapper(w@));
    }
    out
}

/// The (name, slot-presence, parameter-type) triple each descriptor asks
/// for: every descriptor gets a slot.
pub open spec fn spec_input_triples(us: Seq<FoundUniformV>) -> Seq<(Seq<char>, bool, Seq<char>)> {
    us.map_values(
        |u: FoundUniformV| (u.name, true, spec_ty_of(u).spec_rust_value_type()),
    )
}

/// The (name, slot-presence, parameter-type) triples the emitted
/// declarations carry: a setter's slot is present when a slot declaration
/// and a constructor entry share its field name at its position.
pub open spec fn spec_wrapper_triples(w: WrapperModuleV) -> Seq<(Seq<char>, bool, Seq<char>)> {
    Seq::new(
        w.setters.len(),
        |i: int|
            (
                w.setters[i].uniform_name,
                i < w.slots.len() && w.slots[i].field_name == w.setters[i].field_name && i
                    < w.ctor.len() && w.ctor[i].field_name == w.setters[i].field_name,
                w.setters[i].param_type,
            ),
    )
}

/// Round trip: re-inspecting the generated constructor and setter
/// declarations recovers exactly the (name, slot-presence, parameter-type)
/// triples of the descriptor list they were generated from.
pub proof fn lemma_wrapper_round_trip(
    base_name: Seq<char>,
    shader_name: Seq<char>,
    kind: ShaderKind,
    source_mode: bool,
    asset: Seq<u8>,
    us: Seq<FoundUniformV>,
)
    ensures
        spec_wrapper_triples(spec_generate(base_name, shader_name, kind, source_mode, asset, us))
            == spec_input_triples(us),
{
    let w = spec_generate(base_name, shader_name, kind, source_mode, asset, us);
    assert(spec_wrapper_triples(w) =~= spec_input_triples(us));
}

/// Reads the (name, slot-presence, parameter-type) triples back off
/// generated wrapper declarations.
pub fn wrapper_triples(w: &WrapperModule) -> (r: Vec<(String, bool, String)>)
    ensures
        triples_view(r@) == spec_wrapper_triples(w@),
{
    let mut out: Vec<(String, bool, String)> = Vec::new();
    let mut i: usize = 0;
    proof {
        assert(triples_view(out@) =~= spec_wrapper_triples(w@).take(0));
    }
    while i < w.setters.len()
        invariant
            i <= w.setters@.len(),
            triples_view(out@) == spec_wrapper_triples(w@).take(i as int),
        decreases w.setters@.len() - i,
    {
        let s = &w.setters[i];
        let present = i < w.slots.len() && crate::text::str_eq(
            w.slots[i].field_name.as_str(),
            s.field_name.as_str(),
        ) && i < w.ctor.len() && crate::text::str_eq(
            w.ctor[i].field_name.as_str(),
            s.field_name.as_str(),
        );
        out.push((s.uniform_name.clone(), present, s.param_type.clone()));
        proof {
            assert(spec_wrapper_triples(w@).take(i + 1).drop_last() =~= spec_wrapper_triples(
                w@,
            ).take(i as int));
            assert(triples_view(out@) =~= spec_wrapper_triples(w@).take(i + 1));
        }
        i = i + 1;
    }
    proof {
        assert(spec_wrapper_triples(w@).take(w.setters@.len() as int) =~= spec_wrapper_triples(
            w@,
        ));
    }
    out
}

/// Reads the same triples off a descriptor list.
pub fn input_triples(uniforms: &Vec<FoundUniform>) -> (r: Vec<(String, bool, String)>)
    ensures
        triples_view(r@) == spec_input_triples(uniforms_view(uniforms@)),
{
    let ghost us = uniforms_view(uniforms@);
    let mut out: Vec<(String, bool, String)> = Vec::new();
    let mut i: usize = 0;
    proof {
        assert(triples_view(out@) =~= spec_input_triples(us).take(0));
    }
    while i < uniforms.len()
        invariant
            i <= uniforms@.len(),
            us == uniforms_view(uniforms@),
            triples_view(out@) == spec_input_triples(us).take(i as int),
        decreases uniforms@.len() - i,
    {
        let u = &uniforms[i];
        let ty: &ItemOrArrayType = match &u.ty {
            Some(t) => t,
            None => &ItemOrArrayType::Image,
        };
        proof {
            assert(us[i as int] == u@);
            assert(*ty == spec_ty_of(u@));
        }
        out.push((u.name.clone(), true, ty.rust_value_type()));
        proof {
            assert(spec_input_triples(us).take(i + 1).drop_last() =~= spec_input_triples(us).take(
                i as int,
            ));
            assert(triples_view(out@) =~= spec_input_triples(us).take(i + 1));
        }
        i = i + 1;
    }
    proof {
        assert(spec_input_triples(us).take(uniforms@.len() as int) =~= spec_input_triples(us));
    }
    out
}

} // verus!
