//! The per-shader pipeline state: the requested output type, its resolution
//! against the build target, and the bookkeeping of wrapped shaders that
//! feeds the aggregate manifest.

use vstd::prelude::*;
use vstd::string::StrSliceExecFns;
use vstd::string::StringExecFns;
use vstd::string::StringSliceAdditionalSpecFns;
use vstd::utf8::encode_utf8;

use crate::codegen::spec_generate;
use crate::codegen::spec_render_wrapper;
use crate::error::Error;
use crate::ir::SpirvModule;
use crate::reflect::FoundUniform;
use crate::reflect::FoundUniformV;
use crate::reflect::SpirVBackend;
use crate::reflect::diags_view;
use crate::reflect::lemma_reflect_generatable;
use crate::reflect::spec_reflect;
use crate::reflect::uniforms_view;
use crate::shader_kind::ShaderKind;
use crate::text::replace_char;
use crate::text::spec_replace_char;

verus! {

/// What one shader's external processing hands the pipeline: the compiled
/// binary module (decoded for reflection), the module beside its transpiled
/// source, or the bare preprocessed source when binary generation was
/// skipped.
#[derive(Debug)]
pub enum ShaderData {
    Binary { bytes: Vec<u8>, module: SpirvModule },
    TranspiledSource { text: String, module: SpirvModule },
    PreprocessedSource { text: String },
}

/// What the external compile step reported for one shader: its processed
/// data, or a failure with an error count and its raw diagnostic text.
#[derive(Debug)]
pub enum CompileOutcome {
    Compiled(ShaderData),
    Failed { num_errors: usize, log: String },
}

/// The artifact file's contents beside the generated wrapper.
#[derive(Debug)]
pub enum ShaderContents {
    Binary(Vec<u8>),
    Text(String),
}

/// Everything generated for one shader, for the caller to write out: no
/// partial artifact exists on failure.
#[derive(Debug)]
pub struct ShaderArtifacts {
    pub shader_file_name: String,
    pub contents: ShaderContents,
    pub rs_file_name: String,
    pub rs_code: String,
    pub diagnostics: Vec<String>,
}

/// The descriptor list the wrapper for this shader is generated from:
/// reflected from the module where there is one, empty where binary
/// generation was skipped.
pub open spec fn spec_wrap_uniforms(data: ShaderData) -> Seq<FoundUniformV> {
    match data {
        ShaderData::Binary { module, .. } => match spec_reflect(module) {
            Some(p) => p.0,
            None => Seq::empty(),
        },
        ShaderData::TranspiledSource { module, .. } => match spec_reflect(module) {
            Some(p) => p.0,
            None => Seq::empty(),
        },
        ShaderData::PreprocessedSource { .. } => Seq::empty(),
    }
}

/// The bytes the generated wrapper embeds: the binary module, the
/// transpiled source, or the fixed-up preprocessed source.
pub open spec fn spec_wrap_asset(data: ShaderData) -> Seq<u8> {
    match data {
        ShaderData::Binary { bytes, .. } => bytes@,
        ShaderData::TranspiledSource { text, .. } => encode_utf8(text@),
        ShaderData::PreprocessedSource { text } => encode_utf8(spec_filter_source(text@)),
    }
}

/// The diagnostics reflection of the module produced.
pub open spec fn spec_reflect_diags(module: SpirvModule) -> Seq<Seq<char>> {
    match spec_reflect(module) {
        Some(p) => p.1,
        None => Seq::empty(),
    }
}

/// A fresh vector with the same bytes.
fn copy_bytes(v: &Vec<u8>) -> (r: Vec<u8>)
    ensures
        r@ == v@,
{
    let mut out: Vec<u8> = Vec::new();
    let mut i: usize = 0;
    while i < v.len()
        invariant
            i <= v@.len(),
            out@ == v@.take(i as int),
        decreases v@.len() - i,
    {
        out.push(v[i]);
        proof {
            assert(out@ =~= v@.take(i + 1));
        }
        i = i + 1;
    }
    proof {
        assert(v@.take(v@.len() as int) =~= v@);
    }
    out
}

/// A target shading-language dialect version for source output.
#[derive(Clone, Copy, Debug, PartialEq, Eq, Structural)]
pub enum GlslVersion {
    V1_00Es,
    V3_00Es,
    V4_60,
}

/// What the pipeline should emit for each shader: the binary module itself,
/// or source text in a given dialect version.
#[derive(Clone, Copy, Debug, PartialEq, Eq, Structural)]
pub enum TargetType {
    Automatic,
    SpirV,
    Glsl(GlslVersion),
}

impl Default for TargetType {
    /// Left unconstrained, the output type is chosen from the build target.
    fn default() -> (r: Self)
        ensures
            r == TargetType::Automatic,
    {
        TargetType::Automatic
    }
}

/// What a requested output type resolves to for a build target. Binary
/// output cannot be produced on a web target, where only the ES dialects
/// are meaningful; skipping binary generation contradicts asking for binary
/// output.
pub open spec fn spec_resolve_target(t: TargetType, is_wasm: bool, skip_spirv: bool) -> Result<
    TargetType,
    Error,
> {
    match t {
        TargetType::Automatic => if is_wasm {
            Ok(TargetType::Glsl(GlslVersion::V3_00Es))
        } else if skip_spirv {
            Ok(TargetType::Glsl(GlslVersion::V4_60))
        } else {
            Ok(TargetType::SpirV)
        },
        TargetType::SpirV => if is_wasm {
            Err(Error::InvalidTargetType(TargetType::SpirV))
        } else if skip_spirv {
            Err(Error::InvalidSkipSpirV)
        } else {
            Ok(TargetType::SpirV)
        },
        TargetType::Glsl(v) => if is_wasm {
            if v == GlslVersion::V3_00Es || v == GlslVersion::V1_00Es {
                Ok(TargetType::Glsl(v))
            } else {
                Err(Error::InvalidTargetType(TargetType::Glsl(v)))
            }
        } else {
            Ok(TargetType::Glsl(v))
        },
    }
}

/// Accumulates the per-shader pipeline configuration before it is checked
/// against the build target.
#[derive(Debug)]
pub struct CompilerBuilder {
    pub skip_cargo: bool,
    pub dest: Option<String>,
    pub skip_spirv: bool,
    pub output_type: TargetType,
}

impl Default for CompilerBuilder {
    /// Build-system notifications on, destination unset, binary generation
    /// on, output type chosen from the build target.
    fn default() -> (r: Self)
        ensures
            r.skip_cargo == false,
            r.dest is None,
            r.skip_spirv == false,
            r.output_type == TargetType::Automatic,
    {
        CompilerBuilder {
            skip_cargo: false,
            dest: None,
            skip_spirv: false,
            output_type: TargetType::Automatic,
        }
    }
}

impl CompilerBuilder {
    /// Suppresses build-system notifications.
    pub fn skip_cargo(self, skip_cargo: bool) -> (r: Self)
        ensures
            r.skip_cargo == skip_cargo,
            r.dest == self.dest,
            r.skip_spirv == self.skip_spirv,
            r.output_type == self.output_type,
    {
        CompilerBuilder { skip_cargo, ..self }
    }

    /// Sets the destination directory the artifacts are written under.
    pub fn dest(self, dest: &str) -> (r: Self)
        ensures
            r.dest matches Some(d) && d@ == dest@,
            r.skip_cargo == self.skip_cargo,
            r.skip_spirv == self.skip_spirv,
            r.output_type == self.output_type,
    {
        CompilerBuilder { dest: Some(dest.to_owned()), ..self }
    }

    /// Skips binary generation: sources are only preprocessed and fixed up.
    pub fn skip_spirv(self, skip_spirv: bool) -> (r: Self)
        ensures
            r.skip_spirv == skip_spirv,
            r.skip_cargo == self.skip_cargo,
            r.dest == self.dest,
            r.output_type == self.output_type,
    {
        CompilerBuilder { skip_spirv, ..self }
    }

    /// Requests an output type.
    pub fn output_type(self, output_type: TargetType) -> (r: Self)
        ensures
            r.output_type == output_type,
            r.skip_cargo == self.skip_cargo,
            r.dest == self.dest,
            r.skip_spirv == self.skip_spirv,
    {
        CompilerBuilder { output_type, ..self }
    }

    /// Checks the configuration against the build target and seals it. The
    /// caller supplies what only the build environment knows: whether the
    /// target is a web target, and the build system's output directory,
    /// which stands in for an unset destination.
    pub fn build(self, is_wasm: bool, out_dir: Option<String>) -> (r: Result<Compiler, Error>)
        requires
            self.dest is Some || out_dir is Some,
        ensures
            r matches Ok(c) ==> spec_resolve_target(self.output_type, is_wasm, self.skip_spirv)
                matches Ok(ot) && c.output_type == ot && c.skip_cargo == self.skip_cargo
                && c.skip_spirv == self.skip_spirv && c.shader_names@.len() == 0 && (match self
                .dest {
                Some(d) => c.dest@ == d@,
                None => out_dir matches Some(o) && c.dest@ == o@,
            }),
            r matches Err(e) ==> spec_resolve_target(self.output_type, is_wasm, self.skip_spirv)
                == Err::<TargetType, Error>(e),
    {
        let output_type = match self.output_type {
            TargetType::Automatic => {
                if is_wasm {
                    TargetType::Glsl(GlslVersion::V3_00Es)
                } else if self.skip_spirv {
                    TargetType::Glsl(GlslVersion::V4_60)
                } else {
                    TargetType::SpirV
                }
            },
            TargetType::SpirV => {
                if is_wasm {
                    return Err(Error::InvalidTargetType(TargetType::SpirV));
                } else if self.skip_spirv {
                    return Err(Error::InvalidSkipSpirV);
                } else {
                    TargetType::SpirV
                }
            },
            TargetType::Glsl(v) => {
                if is_wasm {
                    match v {
                        GlslVersion::V3_00Es => TargetType::Glsl(v),
                        GlslVersion::V1_00Es => TargetType::Glsl(v),
                        _ => {
                            return Err(Error::InvalidTargetType(TargetType::Glsl(v)));
                        },
                    }
                } else {
                    TargetType::Glsl(v)
                }
            },
        };
        let dest = match self.dest {
            Some(d) => d,
            None => match out_dir {
                Some(o) => o,
                None => String::new(),
            },
        };
        Ok(
            Compiler {
                skip_cargo: self.skip_cargo,
                shader_names: Vec::new(),
                dest,
                skip_spirv: self.skip_spirv,
                output_type,
            },
        )
    }
}

/// The sealed pipeline state for a batch of shaders: the resolved output
/// type and the registration-ordered names of the modules wrapped so far.
#[derive(Debug)]
pub struct Compiler {
    pub skip_cargo: bool,
    pub shader_names: Vec<String>,
    pub dest: String,
    pub skip_spirv: bool,
    pub output_type: TargetType,
}

/// The names of the wrapped modules, in registration order.
pub open spec fn shader_names_view(s: Seq<String>) -> Seq<Seq<char>> {
    s.map_values(|n: String| n@)
}

/// The aggregate manifest: one inclusion line per wrapped module file, in
/// registration order.
pub open spec fn spec_root_include(names: Seq<Seq<char>>) -> Seq<char>
    decreases names.len(),
{
    if names.len() == 0 {
        Seq::empty()
    } else {
        spec_root_include(names.drop_last()) + "include!(\""@ + names.last() + "\");\n"@
    }
}

/// The length of the first line of `s`: the characters before the first
/// newline, or all of `s` when it has none.
pub open spec fn spec_take_line(s: Seq<char>) -> int
    decreases s.len(),
{
    if s.len() == 0 {
        0
    } else if s[0] == '\n' {
        0
    } else {
        1 + spec_take_line(s.drop_first())
    }
}

/// The first line is never longer than the text.
pub proof fn lemma_take_line_bounds(s: Seq<char>)
    ensures
        0 <= spec_take_line(s) <= s.len(),
    decreases s.len(),
{
    if s.len() > 0 && s[0] != '\n' {
        lemma_take_line_bounds(s.drop_first());
    }
}

/// A scan that stops at index `k` on a newline (or the end) agrees with
/// `spec_take_line`.
proof fn lemma_take_line_scan(s: Seq<char>, k: int)
    requires
        0 <= k <= s.len(),
        forall|j: int| 0 <= j < k ==> s[j] != '\n',
        k == s.len() || s[k] == '\n',
    ensures
        spec_take_line(s) == k,
    decreases k,
{
    if k > 0 {
        let d = s.drop_first();
        assert(forall|j: int| 0 <= j < d.len() ==> d[j] == s[j + 1]);
        lemma_take_line_scan(d, k - 1);
    }
}

/// What one line of a preprocessed ES source becomes: compiler-internal
/// extension pragmas are dropped, line markers are commented out, anything
/// else is kept, each kept line closed with a newline.
pub open spec fn spec_line_out(line: Seq<char>) -> Seq<char> {
    if crate::text::spec_starts_with(line, "#extension GL_GOOGLE_"@) {
        Seq::empty()
    } else if crate::text::spec_starts_with(line, "#line"@) {
        "//"@ + line + "\n"@
    } else {
        line + "\n"@
    }
}

/// The preprocessed source, fixed up line by line for ES targets, which are
/// sensitive to leftovers of the preprocessing step.
pub open spec fn spec_filter_source(s: Seq<char>) -> Seq<char>
    decreases s.len(),
    via spec_filter_source_decreases
{
    if s.len() == 0 {
        Seq::empty()
    } else {
        let k = spec_take_line(s);
        let rest = if k < s.len() {
            s.skip(k + 1)
        } else {
            s.skip(k)
        };
        spec_line_out(s.take(k)) + spec_filter_source(rest)
    }
}

#[via_fn]
proof fn spec_filter_source_decreases(s: Seq<char>) {
    if s.len() > 0 {
        lemma_take_line_bounds(s);
    }
}

/// Fixes up a preprocessed source for ES targets: drops compiler-internal
/// extension pragmas, comments out line markers, keeps everything else.
pub fn filter_es_source(src: &str) -> (r: String)
    ensures
        r@ == spec_filter_source(src@),
{
    let len = src.unicode_len();
    let mut out = String::new();
    let mut start: usize = 0;
    proof {
        assert(src@.skip(0) =~= src@);
    }
    while start < len
        invariant
            start <= len,
            len == src@.len(),
            spec_filter_source(src@) == out@ + spec_filter_source(src@.skip(start as int)),
        decreases len - start,
    {
        let mut end: usize = start;
        while end < len && src.get_char(end) != '\n'
            invariant
                start <= end <= len,
                len == src@.len(),
                forall|j: int| start <= j < end ==> src@[j] != '\n',
            decreases len - end,
        {
            end = end + 1;
        }
        let line = src.substring_char(start, end);
        let ghost rest = src@.skip(start as int);
        let ghost out_before = out@;
        proof {
            assert(forall|j: int| 0 <= j < rest.len() ==> rest[j] == src@[j + start]);
            lemma_take_line_scan(rest, end - start);
            assert(rest.take((end - start) as int) =~= src@.subrange(start as int, end as int));
        }
        if crate::text::str_starts_with(line, "#extension GL_GOOGLE_") {
        } else if crate::text::str_starts_with(line, "#line") {
            out.append("//");
            out.append(line);
            out.push('\n');
        } else {
            out.append(line);
            out.push('\n');
        }
        let newstart = if end < len {
            end + 1
        } else {
            end
        };
        proof {
            if end < len {
                assert(rest.skip((end - start) + 1) =~= src@.skip(newstart as int));
            } else {
                assert(rest.skip((end - start) as int) =~= src@.skip(newstart as int));
            }
            assert(spec_filter_source(rest) == spec_line_out(line@) + spec_filter_source(
                src@.skip(newstart as int),
            ));
            reveal_strlit("\n");
            assert("\n"@ =~= seq!['\n']);
            assert(out@ =~= out_before + spec_line_out(line@));
            assert(out@ + spec_filter_source(src@.skip(newstart as int)) =~= out_before
                + spec_filter_source(rest));
            assert(spec_filter_source(src@) == out@ + spec_filter_source(
                src@.skip(newstart as int),
            ));
        }
        start = newstart;
    }
    proof {
        assert(src@.skip(len as int) =~= Seq::<char>::empty());
    }
    out
}

impl Compiler {
    /// The file name a shader's artifact is written under: binary output
    /// gets a distinguishing suffix, source output keeps the shader's name.
    pub fn shader_file_name(&self, shader: &str) -> (r: String)
        ensures
            r@ == shader@ + if self.output_type is SpirV {
                ".spv"@
            } else {
                Seq::<char>::empty()
            },
    {
        let mut s = shader.to_owned();
        if matches!(self.output_type, TargetType::SpirV) {
            s.append(".spv");
        }
        proof {
            assert(s@ =~= shader@ + if self.output_type is SpirV {
                ".spv"@
            } else {
                Seq::<char>::empty()
            });
        }
        s
    }

    /// Turns one compiled shader into its artifacts: the artifact file to
    /// write beside the wrapper, and the wrapper source itself, built from
    /// the reflected descriptor list. On success the generated wrapper file
    /// is registered for the aggregate manifest; a failed reflection aborts
    /// this shader atomically and registers nothing.
    pub fn wrap_shader(&mut self, shader: &str, kind: ShaderKind, data: ShaderData) -> (r: Result<
        ShaderArtifacts,
        Error,
    >)
        requires
            match data {
                ShaderData::Binary { .. } => old(self).output_type is SpirV,
                ShaderData::TranspiledSource { .. } => old(self).output_type is Glsl && !old(
                    self,
                ).skip_spirv,
                ShaderData::PreprocessedSource { .. } => old(self).output_type is Glsl && old(
                    self,
                ).skip_spirv,
            },
        ensures
            final(self).skip_cargo == old(self).skip_cargo,
            final(self).dest == old(self).dest,
            final(self).skip_spirv == old(self).skip_spirv,
            final(self).output_type == old(self).output_type,
            r matches Err(e) ==> {
                &&& match data {
                    ShaderData::Binary { module, .. } => spec_reflect(module) is None,
                    ShaderData::TranspiledSource { module, .. } => spec_reflect(module) is None,
                    ShaderData::PreprocessedSource { .. } => false,
                }
                &&& e == Error::UnsupportedType
                &&& final(self).shader_names == old(self).shader_names
            },
            r matches Ok(a) ==> {
                &&& a.shader_file_name@ == shader@ + if old(self).output_type is SpirV {
                    ".spv"@
                } else {
                    Seq::<char>::empty()
                }
                &&& match data {
                    ShaderData::Binary { ref bytes, module } => spec_reflect(module) is Some && (
                    a.contents matches ShaderContents::Binary(b) && b@ == bytes@) && diags_view(
                        a.diagnostics@,
                    ) == spec_reflect_diags(module),
                    ShaderData::TranspiledSource { ref text, module } => spec_reflect(module)
                        is Some && (a.contents matches ShaderContents::Text(t) && t@ == text@)
                        && diags_view(a.diagnostics@) == spec_reflect_diags(module),
                    ShaderData::PreprocessedSource { ref text } => (
                    a.contents matches ShaderContents::Text(t) && t@ == spec_filter_source(text@))
                        && diags_view(a.diagnostics@) == Seq::<Seq<char>>::empty(),
                }
                &&& a.rs_file_name@ == spec_replace_char(shader@, '.', '_') + ".rs"@
                &&& a.rs_code@ == spec_render_wrapper(
                    spec_generate(
                        spec_replace_char(shader@, '.', '_'),
                        shader@,
                        kind,
                        old(self).output_type is Glsl,
                        spec_wrap_asset(data),
                        spec_wrap_uniforms(data),
                    ),
                )
                &&& shader_names_view(final(self).shader_names@) == shader_names_view(
                    old(self).shader_names@,
                ).push(spec_replace_char(shader@, '.', '_') + ".rs"@)
            },
    {
        let backend = SpirVBackend::new();
        match data {
            ShaderData::Binary { bytes, module } => {
                let refl = match backend.reflect(&module) {
                    Ok(refl) => refl,
                    Err(e) => {
                        return Err(e);
                    },
                };
                proof {
                    lemma_reflect_generatable(module);
                }
                let asset = copy_bytes(&bytes);
                Ok(
                    self.assemble(
                        shader,
                        kind,
                        refl.uniforms,
                        refl.diagnostics,
                        ShaderContents::Binary(bytes),
                        asset,
                    ),
                )
            },
            ShaderData::TranspiledSource { text, module } => {
                let refl = match backend.reflect(&module) {
                    Ok(refl) => refl,
                    Err(e) => {
                        return Err(e);
                    },
                };
                proof {
                    lemma_reflect_generatable(module);
                }
                let asset = text.as_str().as_bytes_vec();
                Ok(
                    self.assemble(
                        shader,
                        kind,
                        refl.uniforms,
                        refl.diagnostics,
                        ShaderContents::Text(text),
                        asset,
                    ),
                )
            },
            ShaderData::PreprocessedSource { text } => {
                let filtered = filter_es_source(text.as_str());
                let asset = filtered.as_str().as_bytes_vec();
                let no_uniforms: Vec<FoundUniform> = Vec::new();
                let empty_diags: Vec<String> = Vec::new();
                proof {
                    assert(uniforms_view(no_uniforms@) =~= Seq::<FoundUniformV>::empty());
                    assert(diags_view(empty_diags@) =~= Seq::<Seq<char>>::empty());
                }
                Ok(
                    self.assemble(
                        shader,
                        kind,
                        no_uniforms,
                        empty_diags,
                        ShaderContents::Text(filtered),
                        asset,
                    ),
                )
            },
        }
    }

    /// Handles what the external compile step reported for one shader: a
    /// failed compile aborts this shader atomically, surfaced as its error
    /// count and raw diagnostic text, and registers nothing; a successful
    /// one is wrapped. Sibling shaders in the same batch are unaffected.
    pub fn wrap_compile_result(
        &mut self,
        shader: &str,
        kind: ShaderKind,
        outcome: CompileOutcome,
    ) -> (r: Result<ShaderArtifacts, Error>)
        requires
            match outcome {
                CompileOutcome::Compiled(ShaderData::Binary { .. }) => old(self).output_type
                    is SpirV,
                CompileOutcome::Compiled(ShaderData::TranspiledSource { .. }) => old(self)
                    .output_type is Glsl && !old(self).skip_spirv,
                CompileOutcome::Compiled(ShaderData::PreprocessedSource { .. }) => old(self)
                    .output_type is Glsl && old(self).skip_spirv,
                CompileOutcome::Failed { .. } => true,
            },
        ensures
            final(self).skip_cargo == old(self).skip_cargo,
            final(self).dest == old(self).dest,
            final(self).skip_spirv == old(self).skip_spirv,
            final(self).output_type == old(self).output_type,
            outcome matches CompileOutcome::Failed { num_errors, ref log } ==> (
            r matches Err(e) && (e matches Error::CompilationError(n, ref t) && n == num_errors
                && t@ == log@) && final(self).shader_names == old(self).shader_names),
            outcome matches CompileOutcome::Compiled(data) ==> (r matches Err(e) ==> {
                &&& match data {
                    ShaderData::Binary { module, .. } => spec_reflect(module) is None,
                    ShaderData::TranspiledSource { module, .. } => spec_reflect(module) is None,
                    ShaderData::PreprocessedSource { .. } => false,
                }
                &&& e == Error::UnsupportedType
                &&& final(self).shader_names == old(self).shader_names
            }),
            outcome matches CompileOutcome::Compiled(data) ==> (r matches Ok(a) ==> {
                &&& a.rs_file_name@ == spec_replace_char(shader@, '.', '_') + ".rs"@
                &&& a.rs_code@ == spec_render_wrapper(
                    spec_generate(
                        spec_replace_char(shader@, '.', '_'),
                        shader@,
                        kind,
                        old(self).output_type is Glsl,
                        spec_wrap_asset(data),
                        spec_wrap_uniforms(data),
                    ),
                )
                &&& shader_names_view(final(self).shader_names@) == shader_names_view(
                    old(self).shader_names@,
                ).push(spec_replace_char(shader@, '.', '_') + ".rs"@)
            }),
    {
        match outcome {
            CompileOutcome::Compiled(data) => self.wrap_shader(shader, kind, data),
            CompileOutcome::Failed { num_errors, log } => Err(
                Error::CompilationError(num_errors, log),
            ),
        }
    }

    /// Builds the artifacts for one shader from its descriptor list, its
    /// artifact contents and the bytes the wrapper embeds, and registers
    /// the generated wrapper file for the aggregate manifest.
    fn assemble(
        &mut self,
        shader: &str,
        kind: ShaderKind,
        uniforms: Vec<FoundUniform>,
        diagnostics: Vec<String>,
        contents: ShaderContents,
        asset: Vec<u8>,
    ) -> (a: ShaderArtifacts)
        requires
            crate::codegen::spec_generatable(uniforms_view(uniforms@)),
        ensures
            final(self).skip_cargo == old(self).skip_cargo,
            final(self).dest == old(self).dest,
            final(self).skip_spirv == old(self).skip_spirv,
            final(self).output_type == old(self).output_type,
            shader_names_view(final(self).shader_names@) == shader_names_view(
                old(self).shader_names@,
            ).push(spec_replace_char(shader@, '.', '_') + ".rs"@),
            a.shader_file_name@ == shader@ + if old(self).output_type is SpirV {
                ".spv"@
            } else {
                Seq::<char>::empty()
            },
            a.contents == contents,
            a.diagnostics == diagnostics,
            a.rs_file_name@ == spec_replace_char(shader@, '.', '_') + ".rs"@,
            a.rs_code@ == spec_render_wrapper(
                spec_generate(
                    spec_replace_char(shader@, '.', '_'),
                    shader@,
                    kind,
                    old(self).output_type is Glsl,
                    asset@,
                    uniforms_view(uniforms@),
                ),
            ),
    {
        let base_name = replace_char(shader, '.', '_');
        let shader_file_name = self.shader_file_name(shader);
        let wrapper = crate::codegen::generate_wrapper(
            base_name.as_str(),
            shader,
            kind,
            &self.output_type,
            asset,
            &uniforms,
        );
        let rs_code = crate::codegen::render_wrapper(&wrapper);
        let mut rs_file_name = base_name;
        rs_file_name.append(".rs");
        self.shader_names.push(rs_file_name.clone());
        proof {
            assert(shader_names_view(self.shader_names@) =~= shader_names_view(
                old(self).shader_names@,
            ).push(spec_replace_char(shader@, '.', '_') + ".rs"@));
        }
        ShaderArtifacts { shader_file_name, contents, rs_file_name, rs_code, diagnostics }
    }

    /// The source text of the aggregate manifest for everything wrapped so
    /// far. Downstream builds rely on this order as the load order.
    pub fn root_include_source(&self) -> (r: String)
        ensures
            r@ == spec_root_include(shader_names_view(self.shader_names@)),
    {
        let ghost nv = shader_names_view(self.shader_names@);
        let mut out = String::new();
        let mut i: usize = 0;
        proof {
            assert(out@ =~= spec_root_include(nv.take(0)));
        }
        while i < self.shader_names.len()
            invariant
                i <= self.shader_names@.len(),
                nv == shader_names_view(self.shader_names@),
                out@ == spec_root_include(nv.take(i as int)),
            decreases self.shader_names@.len() - i,
        {
            out.append("include!(\"");
            out.append(self.shader_names[i].as_str());
            out.append("\");\n");
            proof {
                assert(nv.take(i + 1).drop_last() =~= nv.take(i as int));
                assert(nv.take(i + 1).last() == nv[i as int]);
                assert(out@ =~= spec_root_include(nv.take(i + 1)));
            }
            i = i + 1;
        }
        proof {
            assert(nv.take(nv.len() as int) =~= nv);
        }
        out
    }
}

} // verus!
