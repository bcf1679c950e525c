use tinygl_compiler::compiler::Compiler;
use tinygl_compiler::compiler::CompileOutcome;
use tinygl_compiler::compiler::CompilerBuilder;
use tinygl_compiler::compiler::GlslVersion;
use tinygl_compiler::compiler::ShaderContents;
use tinygl_compiler::compiler::ShaderData;
use tinygl_compiler::compiler::TargetType;
use tinygl_compiler::compiler::filter_es_source;
use tinygl_compiler::error::Error;
use tinygl_compiler::ir::Instruction;
use tinygl_compiler::ir::Op;
use tinygl_compiler::ir::Operand;
use tinygl_compiler::ir::SpirvModule;
use tinygl_compiler::ir::StorageClass;
use tinygl_compiler::runtime::uniform_location_from_raw;
use tinygl_compiler::shader_kind::ShaderKind;
use tinygl_compiler::text::dec_string;
use tinygl_compiler::text::replace_char;
use tinygl_compiler::text::str_eq;
use tinygl_compiler::text::str_starts_with;

fn builder() -> CompilerBuilder {
    CompilerBuilder::default().dest("out")
}

#[test]
fn automatic_target_resolves_by_environment() {
    let c = builder().build(false, None).unwrap();
    assert_eq!(c.output_type, TargetType::SpirV);
    let c = builder().build(true, None).unwrap();
    assert_eq!(c.output_type, TargetType::Glsl(GlslVersion::V3_00Es));
    let c = builder().skip_spirv(true).build(false, None).unwrap();
    assert_eq!(c.output_type, TargetType::Glsl(GlslVersion::V4_60));
}

#[test]
fn binary_target_is_rejected_on_web_or_with_skipped_binaries() {
    let r = builder().output_type(TargetType::SpirV).build(true, None);
    assert!(matches!(r, Err(Error::InvalidTargetType(TargetType::SpirV))));
    let r = builder().output_type(TargetType::SpirV).skip_spirv(true).build(false, None);
    assert!(matches!(r, Err(Error::InvalidSkipSpirV)));
    let r = builder().output_type(TargetType::Glsl(GlslVersion::V4_60)).build(true, None);
    assert!(matches!(r, Err(Error::InvalidTargetType(TargetType::Glsl(GlslVersion::V4_60)))));
}

#[test]
fn explicit_source_target_is_kept() {
    let c = builder().output_type(TargetType::Glsl(GlslVersion::V1_00Es)).build(true, None).unwrap();
    assert_eq!(c.output_type, TargetType::Glsl(GlslVersion::V1_00Es));
    let c = builder().output_type(TargetType::Glsl(GlslVersion::V4_60)).build(false, None).unwrap();
    assert_eq!(c.output_type, TargetType::Glsl(GlslVersion::V4_60));
}

#[test]
fn unset_destination_falls_back_to_build_output_dir() {
    let c = CompilerBuilder::default().build(false, Some("target/gen".to_string())).unwrap();
    assert_eq!(c.dest, "target/gen");
    let c = builder().build(false, Some("ignored".to_string())).unwrap();
    assert_eq!(c.dest, "out");
}

#[test]
fn shader_file_name_marks_binary_output() {
    let c = builder().build(false, None).unwrap();
    assert_eq!(c.shader_file_name("quad.vert"), "quad.vert.spv");
    let c = builder().skip_spirv(true).build(false, None).unwrap();
    assert_eq!(c.shader_file_name("quad.vert"), "quad.vert");
}

#[test]
fn es_fixup_drops_pragmas_and_comments_line_markers() {
    let src = "#version 300 es\n#extension GL_GOOGLE_cpp_style_line_directive : enable\n#line 7\nvoid main() {}";
    let out = filter_es_source(src);
    assert_eq!(out, "#version 300 es\n//#line 7\nvoid main() {}\n");
}

fn mat4_module() -> SpirvModule {
    SpirvModule {
        types_global_values: vec![
            Instruction {
                opcode: Op::TypeFloat,
                result_id: Some(1),
                result_type: None,
                operands: vec![Operand::LiteralInt32(32)],
            },
            Instruction {
                opcode: Op::TypeVector,
                result_id: Some(2),
                result_type: None,
                operands: vec![Operand::IdRef(1), Operand::LiteralInt32(4)],
            },
            Instruction {
                opcode: Op::TypeMatrix,
                result_id: Some(3),
                result_type: None,
                operands: vec![Operand::IdRef(2), Operand::LiteralInt32(4)],
            },
            Instruction {
                opcode: Op::TypePointer,
                result_id: Some(4),
                result_type: None,
                operands: vec![
                    Operand::StorageClass(StorageClass::UniformConstant),
                    Operand::IdRef(3),
                ],
            },
            Instruction {
                opcode: Op::Variable,
                result_id: Some(5),
                result_type: Some(4),
                operands: vec![Operand::StorageClass(StorageClass::UniformConstant)],
            },
        ],
        debugs: vec![Instruction {
            opcode: Op::Name,
            result_id: None,
            result_type: None,
            operands: vec![Operand::IdRef(5), Operand::LiteralString("mvp".to_string())],
        }],
        annotations: vec![Instruction {
            opcode: Op::Decorate,
            result_id: None,
            result_type: None,
            operands: vec![
                Operand::IdRef(5),
                Operand::Decoration(tinygl_compiler::ir::Decoration::Location),
                Operand::LiteralInt32(0),
            ],
        }],
    }
}

#[test]
fn wrapping_a_binary_shader_produces_all_artifacts() {
    let mut c: Compiler = builder().build(false, None).unwrap();
    let data = ShaderData::Binary { bytes: vec![3u8, 2u8, 2u8, 3u8], module: mat4_module() };
    let a = c.wrap_shader("quad.vert", ShaderKind::Vertex, data).unwrap();
    assert_eq!(a.shader_file_name, "quad.vert.spv");
    assert_eq!(a.rs_file_name, "quad_vert.rs");
    assert!(matches!(&a.contents, ShaderContents::Binary(b) if b == &vec![3u8, 2u8, 2u8, 3u8]));
    assert!(a.rs_code.contains("pub struct QuadVertShader;"));
    assert!(a.rs_code.contains("mvp_location: Some(0),"));
    assert!(a.rs_code.contains("&[3, 2, 2, 3]"));
    assert!(a.diagnostics.is_empty());
    assert_eq!(c.shader_names, vec!["quad_vert.rs".to_string()]);
    assert_eq!(c.root_include_source(), "include!(\"quad_vert.rs\");\n");
}

#[test]
fn wrapping_a_preprocessed_shader_emits_an_empty_bindings_holder() {
    let mut c: Compiler = builder().skip_spirv(true).build(false, None).unwrap();
    let data = ShaderData::PreprocessedSource {
        text: "#extension GL_GOOGLE_cpp_style_line_directive : enable\nvoid main() {}".to_string(),
    };
    let a = c.wrap_shader("fx.frag", ShaderKind::Fragment, data).unwrap();
    assert_eq!(a.shader_file_name, "fx.frag");
    assert!(matches!(&a.contents, ShaderContents::Text(t) if t == "void main() {}\n"));
    assert!(a.rs_code.contains("pub struct FxFragUniforms {\n}"));
    assert!(a.rs_code.contains("pub fn source_bytes"));
}

#[test]
fn failed_reflection_registers_nothing() {
    let mut c: Compiler = builder().build(false, None).unwrap();
    let module = SpirvModule {
        types_global_values: vec![Instruction {
            opcode: Op::TypeInt,
            result_id: Some(1),
            result_type: None,
            operands: vec![Operand::LiteralInt32(16), Operand::LiteralInt32(1)],
        }],
        debugs: vec![],
        annotations: vec![],
    };
    let r = c.wrap_shader("bad.vert", ShaderKind::Vertex, ShaderData::Binary {
        bytes: vec![],
        module,
    });
    assert!(matches!(r, Err(Error::UnsupportedType)));
    assert!(c.shader_names.is_empty());
}

#[test]
fn manifest_keeps_registration_order() {
    let mut c: Compiler = builder().skip_spirv(true).build(false, None).unwrap();
    c.wrap_shader("a.vert", ShaderKind::Vertex, ShaderData::PreprocessedSource {
        text: String::new(),
    })
    .unwrap();
    c.wrap_shader("b.frag", ShaderKind::Fragment, ShaderData::PreprocessedSource {
        text: String::new(),
    })
    .unwrap();
    assert_eq!(
        c.root_include_source(),
        "include!(\"a_vert.rs\");\ninclude!(\"b_frag.rs\");\n"
    );
}

#[test]
fn text_helpers() {
    assert_eq!(dec_string(0), "0");
    assert_eq!(dec_string(1234), "1234");
    assert_eq!(replace_char("a.b.vert", '.', '_'), "a_b_vert");
    assert!(str_eq("abc", "abc"));
    assert!(!str_eq("abc", "abd"));
    assert!(!str_eq("abc", "ab"));
    assert!(str_starts_with("#line 3", "#line"));
    assert!(!str_starts_with("#li", "#line"));
}

#[test]
fn shader_kinds_from_extensions() {
    assert_eq!(ShaderKind::from_extension("vert"), Some(ShaderKind::Vertex));
    assert_eq!(ShaderKind::from_extension("frag"), Some(ShaderKind::Fragment));
    assert_eq!(ShaderKind::from_extension("comp"), Some(ShaderKind::Compute));
    assert_eq!(ShaderKind::from_extension("png"), None);
    assert_eq!(ShaderKind::Vertex.constant_name(), "VERTEX_SHADER");
}

#[test]
fn negative_raw_locations_become_empty_slots() {
    assert_eq!(uniform_location_from_raw(-1), None);
    assert_eq!(uniform_location_from_raw(0), Some(0));
    assert_eq!(uniform_location_from_raw(7), Some(7));
}

#[test]
fn wrapping_transpiled_source_keeps_reflection_diagnostics() {
    let mut c: Compiler =
        builder().output_type(TargetType::Glsl(GlslVersion::V4_60)).build(false, None).unwrap();
    let module = SpirvModule {
        types_global_values: vec![
            Instruction {
                opcode: Op::Other,
                result_id: Some(1),
                result_type: None,
                operands: vec![],
            },
            Instruction {
                opcode: Op::TypeFloat,
                result_id: Some(2),
                result_type: None,
                operands: vec![Operand::LiteralInt32(32)],
            },
            Instruction {
                opcode: Op::TypePointer,
                result_id: Some(3),
                result_type: None,
                operands: vec![
                    Operand::StorageClass(StorageClass::UniformConstant),
                    Operand::IdRef(1),
                ],
            },
            Instruction {
                opcode: Op::TypePointer,
                result_id: Some(4),
                result_type: None,
                operands: vec![
                    Operand::StorageClass(StorageClass::UniformConstant),
                    Operand::IdRef(2),
                ],
            },
            Instruction {
                opcode: Op::Variable,
                result_id: Some(5),
                result_type: Some(3),
                operands: vec![Operand::StorageClass(StorageClass::UniformConstant)],
            },
            Instruction {
                opcode: Op::Variable,
                result_id: Some(6),
                result_type: Some(4),
                operands: vec![Operand::StorageClass(StorageClass::UniformConstant)],
            },
        ],
        debugs: vec![
            Instruction {
                opcode: Op::Name,
                result_id: None,
                result_type: None,
                operands: vec![Operand::IdRef(5), Operand::LiteralString("strange".to_string())],
            },
            Instruction {
                opcode: Op::Name,
                result_id: None,
                result_type: None,
                operands: vec![Operand::IdRef(6), Operand::LiteralString("plain".to_string())],
            },
        ],
        annotations: vec![],
    };
    let data = ShaderData::TranspiledSource { text: "void main() {}".to_string(), module };
    let a = c.wrap_shader("demo.frag", ShaderKind::Fragment, data).unwrap();
    assert_eq!(a.shader_file_name, "demo.frag");
    assert!(matches!(&a.contents, ShaderContents::Text(t) if t == "void main() {}"));
    assert_eq!(a.diagnostics, vec!["strange".to_string()]);
    assert!(a.rs_code.contains("pub fn set_plain"));
    assert!(a.rs_code.contains("gl.get_uniform_location(program, \"plain\")"));
}

#[test]
fn upstream_compile_errors_carry_count_and_text() {
    let e = Error::CompilationError(3, "syntax error".to_string());
    assert!(matches!(e, Error::CompilationError(3, ref t) if t == "syntax error"));
}

#[test]
fn failed_compiles_surface_count_and_text_and_register_nothing() {
    let mut c: Compiler = builder().build(false, None).unwrap();
    let r = c.wrap_compile_result(
        "bad.vert",
        ShaderKind::Vertex,
        CompileOutcome::Failed { num_errors: 2, log: "unexpected token".to_string() },
    );
    assert!(matches!(r, Err(Error::CompilationError(2, ref t)) if t == "unexpected token"));
    assert!(c.shader_names.is_empty());
}

#[test]
fn successful_compiles_are_wrapped_like_direct_data() {
    let mut c: Compiler = builder().build(false, None).unwrap();
    let outcome = CompileOutcome::Compiled(ShaderData::Binary {
        bytes: vec![9u8],
        module: mat4_module(),
    });
    let a = c.wrap_compile_result("quad.vert", ShaderKind::Vertex, outcome).unwrap();
    assert_eq!(a.rs_file_name, "quad_vert.rs");
    assert_eq!(c.shader_names, vec!["quad_vert.rs".to_string()]);
}
