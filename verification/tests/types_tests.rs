use tinygl_compiler::types::AtomType;
use tinygl_compiler::types::GenericType;
use tinygl_compiler::types::ItemOrArrayType;
use tinygl_compiler::types::MatrixType;
use tinygl_compiler::types::VectorType;
use tinygl_compiler::types::uniform_method_extra_args_no_ty;
use tinygl_compiler::types::uniform_method_extra_args_with_ty;

#[test]
fn atom_glsl_spellings() {
    assert_eq!(AtomType::Int.glsl_base_type(), "int");
    assert_eq!(AtomType::Float.glsl_base_type(), "float");
    assert_eq!(AtomType::Double.glsl_base_type(), "double");
    assert_eq!(AtomType::UInt.glsl_base_type(), "uint");
    assert_eq!(AtomType::Bool.glsl_base_type(), "bool");
    assert_eq!(AtomType::Int.glsl_vec_name(), "ivec");
    assert_eq!(AtomType::Float.glsl_mat_name(), "mat");
    assert_eq!(AtomType::Double.glsl_mat_name(), "dmat");
}

#[test]
fn atom_rust_and_upload_mappings() {
    assert_eq!(AtomType::Float.rust_primitive_type(), "f32");
    assert_eq!(AtomType::UInt.rust_value_type(), "u32");
    assert_eq!(AtomType::Int.uniform_method_name(), "1i");
    assert_eq!(AtomType::UInt.uniform_method_name(), "1ui");
    assert_eq!(AtomType::Double.uniform_method_name(), "1d");
    assert_eq!(AtomType::Float.uniform_count_arg(), None);
    assert!(AtomType::Float.uniform_method_extra_args().is_empty());
}

#[test]
fn bool_uniforms_ride_the_integer_upload_path() {
    assert_eq!(AtomType::Bool.uniform_method_name(), "1i");
    let bvec = VectorType { base_type: AtomType::Bool, components: 3 };
    assert_eq!(bvec.uniform_method_name(), "3iv");
}

#[test]
fn vector_mappings() {
    let v = VectorType { base_type: AtomType::Float, components: 3 };
    assert_eq!(v.glsl_vec_name(), "vec3");
    assert_eq!(v.glsl_base_type(), "float");
    assert_eq!(v.rust_value_type(), "impl ::std::convert::AsRef<[f32; 3]>");
    assert_eq!(v.uniform_method_name(), "3fv");
    assert_eq!(v.uniform_count_arg(), Some(1));
    assert_eq!(v.components(), 3);
    let iv = VectorType { base_type: AtomType::Int, components: 2 };
    assert_eq!(iv.glsl_vec_name(), "ivec2");
    assert_eq!(iv.uniform_method_name(), "2iv");
}

#[test]
fn matrix_mappings() {
    let m = MatrixType { base_type: AtomType::Float, n: 4 };
    assert_eq!(m.glsl_mat_name(), "mat4");
    assert_eq!(m.rust_value_type(), "impl ::std::convert::AsRef<[[f32; 4]; 4]>");
    assert_eq!(m.uniform_method_name(), "_matrix4fv");
    assert_eq!(m.uniform_count_arg(), Some(1));
    let d = MatrixType { base_type: AtomType::Double, n: 2 };
    assert_eq!(d.glsl_mat_name(), "dmat2");
    assert_eq!(d.uniform_method_name(), "_matrix2dv");
}

#[test]
fn matrix_setters_take_a_transpose_flag() {
    let m = MatrixType { base_type: AtomType::Float, n: 3 };
    let args = m.uniform_method_extra_args();
    assert_eq!(args.len(), 1);
    assert_eq!(args[0].name, "transpose");
    assert_eq!(args[0].ty, "bool");
    assert_eq!(args[0].val, "transpose as u8");
    assert_eq!(uniform_method_extra_args_with_ty(&args), Some("transpose: bool".to_string()));
    assert_eq!(uniform_method_extra_args_no_ty(&args), Some("transpose".to_string()));
    let none = AtomType::Float.uniform_method_extra_args();
    assert_eq!(uniform_method_extra_args_with_ty(&none), None);
    assert_eq!(uniform_method_extra_args_no_ty(&none), None);
}

#[test]
fn array_mappings_use_the_element_aggregate() {
    let arr = ItemOrArrayType::Array(
        Box::new(ItemOrArrayType::Item(GenericType::Atom(AtomType::Float))),
        8,
    );
    assert_eq!(arr.rust_value_type(), "&[f32; 8]");
    assert_eq!(arr.uniform_count_arg(), Some(8));
    assert_eq!(arr.uniform_method_name(), "1f");
    let varr = ItemOrArrayType::Array(
        Box::new(ItemOrArrayType::Item(GenericType::Vector(VectorType {
            base_type: AtomType::Float,
            components: 2,
        }))),
        6,
    );
    assert_eq!(varr.rust_value_type(), "&[[f32; 2]; 6]");
    assert_eq!(varr.uniform_count_arg(), Some(6));
    assert_eq!(varr.uniform_method_name(), "2fv");
}

#[test]
fn image_maps_to_texture_unit_index() {
    let img = ItemOrArrayType::Image;
    assert_eq!(img.rust_value_type(), "u32");
    assert_eq!(img.rust_primitive_type(), "u32");
    assert_eq!(img.uniform_method_name(), "1ui");
    assert_eq!(img.uniform_count_arg(), None);
    assert_eq!(img.glsl_base_type(), "image");
    assert_eq!(img.components(), 1);
}

#[test]
fn generic_type_delegates() {
    let g = GenericType::Vector(VectorType { base_type: AtomType::UInt, components: 4 });
    assert_eq!(g.glsl_vec_name(), "uvec4");
    assert_eq!(g.rust_primitive_type(), "u32");
    assert_eq!(g.uniform_method_name(), "4uiv");
    assert_eq!(g.components(), 4);
    let a = GenericType::Atom(AtomType::Float);
    assert_eq!(a.rust_value_type(), "f32");
    assert!(AtomType::Float.is_float_type());
    assert!(!AtomType::Int.is_float_type());
}
