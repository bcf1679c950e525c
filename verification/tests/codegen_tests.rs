use tinygl_compiler::codegen::SlotInit;
use tinygl_compiler::codegen::generate_wrapper;
use tinygl_compiler::codegen::input_triples;
use tinygl_compiler::codegen::render_wrapper;
use tinygl_compiler::codegen::wrapper_triples;
use tinygl_compiler::compiler::GlslVersion;
use tinygl_compiler::compiler::TargetType;
use tinygl_compiler::reflect::FoundUniform;
use tinygl_compiler::shader_kind::ShaderKind;
use tinygl_compiler::types::AtomType;
use tinygl_compiler::types::GenericType;
use tinygl_compiler::types::ItemOrArrayType;
use tinygl_compiler::types::MatrixType;

fn uniform(name: &str, location: u32, ty: ItemOrArrayType) -> FoundUniform {
    FoundUniform {
        name: name.to_string(),
        location,
        binding: None,
        ty: Some(ty),
        location_name: String::new(),
    }
}

#[test]
fn binary_wrapper_for_one_scalar_uniform() {
    let uniforms = vec![uniform("alpha", 3, ItemOrArrayType::Item(GenericType::Atom(AtomType::Float)))];
    let w = generate_wrapper(
        "demo_frag",
        "demo.frag",
        ShaderKind::Fragment,
        &TargetType::SpirV,
        vec![1u8, 2u8],
        &uniforms,
    );
    assert_eq!(w.struct_name, "DemoFragShader");
    assert_eq!(w.uniforms_struct_name, "DemoFragUniforms");
    assert_eq!(w.kind_constant, "FRAGMENT_SHADER");
    assert!(!w.source_mode);
    assert_eq!(w.slots.len(), 1);
    assert_eq!(w.slots[0].field_name, "alpha_location");
    assert!(matches!(w.ctor[0].init, SlotInit::FromReflection(3)));
    assert_eq!(w.setters[0].param_type, "f32");
    assert_eq!(w.setters[0].upload_method, "1f");

    let text = render_wrapper(&w);
    let expected = "/// demo.frag wrapper
pub struct DemoFragShader;

impl DemoFragShader {
    pub fn kind() -> u32 {
        ::tinygl::gl::FRAGMENT_SHADER
    }

    pub fn binary() -> &'static [u8] {
        &[1, 2]
    }
}

#[derive(Default)]
pub struct DemoFragUniforms {
    alpha_location: Option<u32>,
}

impl DemoFragUniforms {
    pub fn new(_gl: &::tinygl::Context, _program: u32) -> Self {
        Self {
            alpha_location: Some(3),
        }
    }

    pub fn set_alpha(&self, gl: &::tinygl::Context, value: f32) {
        if let Some(loc) = self.alpha_location {
            gl.uniform1f(loc, value);
        }
    }
}
";
    assert_eq!(text, expected);
}

#[test]
fn source_wrapper_looks_locations_up_by_name() {
    let uniforms = vec![uniform("tint", 0, ItemOrArrayType::Item(GenericType::Atom(AtomType::Float)))];
    let w = generate_wrapper(
        "demo_vert",
        "demo.vert",
        ShaderKind::Vertex,
        &TargetType::Glsl(GlslVersion::V3_00Es),
        vec![],
        &uniforms,
    );
    assert!(w.source_mode);
    assert!(matches!(&w.ctor[0].init, SlotInit::LookupByName(n) if n == "tint"));
    let text = render_wrapper(&w);
    assert!(text.contains("pub fn source_bytes() -> &'static [u8] {\n        &[]\n    }\n"));
    assert!(text.contains("pub fn new(gl: &::tinygl::Context, program: u32) -> Self {"));
    assert!(text.contains("tint_location: gl.get_uniform_location(program, \"tint\"),\n"));
    assert!(text.contains("::tinygl::gl::VERTEX_SHADER"));
}

#[test]
fn matrix_setter_forwards_count_and_transpose() {
    let uniforms = vec![uniform(
        "mvp",
        0,
        ItemOrArrayType::Item(GenericType::Matrix(MatrixType { base_type: AtomType::Float, n: 4 })),
    )];
    let w = generate_wrapper(
        "cube_vert",
        "cube.vert",
        ShaderKind::Vertex,
        &TargetType::SpirV,
        vec![],
        &uniforms,
    );
    let text = render_wrapper(&w);
    assert!(text.contains(
        "    pub fn set_mvp(&self, gl: &::tinygl::Context, value: impl ::std::convert::AsRef<[[f32; 4]; 4]>, transpose: bool) {\n"
    ));
    assert!(text.contains("            gl.uniform_matrix4fv(loc, 1, value, transpose as u8);\n"));
}

#[test]
fn array_setter_forwards_its_size_as_count() {
    let uniforms = vec![uniform(
        "weights",
        2,
        ItemOrArrayType::Array(
            Box::new(ItemOrArrayType::Item(GenericType::Atom(AtomType::Float))),
            8,
        ),
    )];
    let w = generate_wrapper(
        "fx_frag",
        "fx.frag",
        ShaderKind::Fragment,
        &TargetType::SpirV,
        vec![],
        &uniforms,
    );
    let text = render_wrapper(&w);
    assert!(text.contains("value: &[f32; 8]"));
    assert!(text.contains("gl.uniform1f(loc, 8, value);"));
}

#[test]
fn wrapper_round_trips_name_slot_and_parameter_type() {
    let uniforms = vec![
        uniform("mvp", 0, ItemOrArrayType::Item(GenericType::Matrix(MatrixType {
            base_type: AtomType::Float,
            n: 4,
        }))),
        uniform("alpha", 1, ItemOrArrayType::Item(GenericType::Atom(AtomType::Float))),
        uniform("tex", 2, ItemOrArrayType::Image),
    ];
    for target in [TargetType::SpirV, TargetType::Glsl(GlslVersion::V4_60)] {
        let w = generate_wrapper(
            "demo_vert",
            "demo.vert",
            ShaderKind::Vertex,
            &target,
            vec![7u8],
            &uniforms,
        );
        assert_eq!(wrapper_triples(&w), input_triples(&uniforms));
    }
    let triples = input_triples(&uniforms);
    assert_eq!(triples[0], ("mvp".to_string(), true, "impl ::std::convert::AsRef<[[f32; 4]; 4]>".to_string()));
    assert_eq!(triples[2], ("tex".to_string(), true, "u32".to_string()));
}
