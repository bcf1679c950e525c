use tinygl_compiler::error::Error;
use tinygl_compiler::ir::Decoration;
use tinygl_compiler::ir::Instruction;
use tinygl_compiler::ir::Op;
use tinygl_compiler::ir::Operand;
use tinygl_compiler::ir::SpirvModule;
use tinygl_compiler::ir::StorageClass;
use tinygl_compiler::reflect::SpirVBackend;
use tinygl_compiler::types::AtomType;
use tinygl_compiler::types::GenericType;
use tinygl_compiler::types::ItemOrArrayType;
use tinygl_compiler::types::MatrixType;

fn ins(opcode: Op, result_id: Option<u32>, result_type: Option<u32>, operands: Vec<Operand>) -> Instruction {
    Instruction { opcode, result_id, result_type, operands }
}

fn name_of(id: u32, name: &str) -> Instruction {
    ins(Op::Name, None, None, vec![Operand::IdRef(id), Operand::LiteralString(name.to_string())])
}

fn location_of(id: u32, loc: u32) -> Instruction {
    ins(
        Op::Decorate,
        None,
        None,
        vec![Operand::IdRef(id), Operand::Decoration(Decoration::Location), Operand::LiteralInt32(loc)],
    )
}

fn binding_of(id: u32, b: u32) -> Instruction {
    ins(
        Op::Decorate,
        None,
        None,
        vec![Operand::IdRef(id), Operand::Decoration(Decoration::Binding), Operand::LiteralInt32(b)],
    )
}

fn pointer(id: u32, pointee: u32) -> Instruction {
    ins(
        Op::TypePointer,
        Some(id),
        None,
        vec![Operand::StorageClass(StorageClass::UniformConstant), Operand::IdRef(pointee)],
    )
}

fn uniform_var(id: u32, pointer_type: u32) -> Instruction {
    ins(
        Op::Variable,
        Some(id),
        Some(pointer_type),
        vec![Operand::StorageClass(StorageClass::UniformConstant)],
    )
}

fn float_type(id: u32, width: u32) -> Instruction {
    ins(Op::TypeFloat, Some(id), None, vec![Operand::LiteralInt32(width)])
}

#[test]
fn mat4_uniform_reflects_to_one_descriptor() {
    let module = SpirvModule {
        types_global_values: vec![
            float_type(1, 32),
            ins(Op::TypeVector, Some(2), None, vec![Operand::IdRef(1), Operand::LiteralInt32(4)]),
            ins(Op::TypeMatrix, Some(3), None, vec![Operand::IdRef(2), Operand::LiteralInt32(4)]),
            pointer(4, 3),
            uniform_var(5, 4),
        ],
        debugs: vec![name_of(5, "mvp")],
        annotations: vec![location_of(5, 0)],
    };
    let uniforms = SpirVBackend::new().find_uniforms(&module).unwrap();
    assert_eq!(uniforms.len(), 1);
    assert_eq!(uniforms[0].name, "mvp");
    assert_eq!(uniforms[0].location, 0);
    assert_eq!(uniforms[0].binding, None);
    assert_eq!(
        uniforms[0].ty,
        Some(ItemOrArrayType::Item(GenericType::Matrix(MatrixType {
            base_type: AtomType::Float,
            n: 4,
        })))
    );
    assert_eq!(uniforms[0].location_name, "mvp_location");
}

#[test]
fn sixteen_bit_int_fails_with_unsupported_type() {
    let module = SpirvModule {
        types_global_values: vec![ins(
            Op::TypeInt,
            Some(1),
            None,
            vec![Operand::LiteralInt32(16), Operand::LiteralInt32(1)],
        )],
        debugs: vec![],
        annotations: vec![],
    };
    let r = SpirVBackend::new().find_uniforms(&module);
    assert!(matches!(r, Err(Error::UnsupportedType)));
}

#[test]
fn descriptors_sort_ascending_by_location() {
    let module = SpirvModule {
        types_global_values: vec![
            float_type(1, 32),
            pointer(2, 1),
            uniform_var(3, 2),
            uniform_var(4, 2),
        ],
        debugs: vec![name_of(3, "a"), name_of(4, "b")],
        annotations: vec![location_of(3, 3), location_of(4, 1)],
    };
    let uniforms = SpirVBackend::new().find_uniforms(&module).unwrap();
    assert_eq!(uniforms.len(), 2);
    assert_eq!(uniforms[0].name, "b");
    assert_eq!(uniforms[0].location, 1);
    assert_eq!(uniforms[1].name, "a");
    assert_eq!(uniforms[1].location, 3);
}

#[test]
fn equal_locations_keep_declaration_order() {
    let module = SpirvModule {
        types_global_values: vec![
            float_type(1, 32),
            pointer(2, 1),
            uniform_var(3, 2),
            uniform_var(4, 2),
            uniform_var(5, 2),
        ],
        debugs: vec![name_of(3, "first"), name_of(4, "second"), name_of(5, "third")],
        annotations: vec![location_of(3, 7), location_of(4, 7), location_of(5, 2)],
    };
    let uniforms = SpirVBackend::new().find_uniforms(&module).unwrap();
    assert_eq!(uniforms.len(), 3);
    assert_eq!(uniforms[0].name, "third");
    assert_eq!(uniforms[1].name, "first");
    assert_eq!(uniforms[2].name, "second");
}

#[test]
fn float_array_reflects_with_count_of_eight() {
    let module = SpirvModule {
        types_global_values: vec![
            float_type(1, 32),
            ins(Op::Constant, Some(2), None, vec![Operand::LiteralInt32(8)]),
            ins(Op::TypeArray, Some(3), None, vec![Operand::IdRef(1), Operand::IdRef(2)]),
            pointer(4, 3),
            uniform_var(5, 4),
        ],
        debugs: vec![name_of(5, "weights")],
        annotations: vec![location_of(5, 2)],
    };
    let uniforms = SpirVBackend::new().find_uniforms(&module).unwrap();
    assert_eq!(uniforms.len(), 1);
    assert_eq!(uniforms[0].location, 2);
    let ty = uniforms[0].ty.clone().unwrap();
    assert_eq!(
        ty,
        ItemOrArrayType::Array(
            Box::new(ItemOrArrayType::Item(GenericType::Atom(AtomType::Float))),
            8
        )
    );
    assert_eq!(ty.uniform_count_arg(), Some(8));
}

#[test]
fn unrecognized_pointee_is_silently_excluded() {
    let module = SpirvModule {
        types_global_values: vec![
            ins(Op::Other, Some(1), None, vec![]),
            float_type(2, 32),
            pointer(3, 1),
            pointer(4, 2),
            uniform_var(5, 3),
            uniform_var(6, 4),
        ],
        debugs: vec![name_of(5, "strange"), name_of(6, "plain")],
        annotations: vec![location_of(5, 0), location_of(6, 1)],
    };
    let backend = SpirVBackend::new();
    let uniforms = backend.find_uniforms(&module).unwrap();
    assert_eq!(uniforms.len(), 1);
    assert_eq!(uniforms[0].name, "plain");
    let reflection = backend.reflect(&module).unwrap();
    assert_eq!(reflection.diagnostics, vec!["strange".to_string()]);
}

#[test]
fn binding_decoration_is_recorded() {
    let module = SpirvModule {
        types_global_values: vec![
            ins(Op::TypeImage, Some(1), None, vec![]),
            pointer(2, 1),
            uniform_var(3, 2),
        ],
        debugs: vec![name_of(3, "tex")],
        annotations: vec![location_of(3, 4), binding_of(3, 2)],
    };
    let uniforms = SpirVBackend::new().find_uniforms(&module).unwrap();
    assert_eq!(uniforms.len(), 1);
    assert_eq!(uniforms[0].binding, Some(2));
    assert_eq!(uniforms[0].ty, Some(ItemOrArrayType::Image));
}

#[test]
fn decoration_for_unnamed_id_is_fatal() {
    let module = SpirvModule {
        types_global_values: vec![float_type(1, 32)],
        debugs: vec![],
        annotations: vec![location_of(9, 0)],
    };
    let r = SpirVBackend::new().find_uniforms(&module);
    assert!(matches!(r, Err(Error::UnsupportedType)));
}

#[test]
fn stripped_module_yields_no_uniforms() {
    let module = SpirvModule {
        types_global_values: vec![float_type(1, 32), pointer(2, 1), uniform_var(3, 2)],
        debugs: vec![],
        annotations: vec![],
    };
    let uniforms = SpirVBackend::new().find_uniforms(&module).unwrap();
    assert_eq!(uniforms.len(), 0);
}

#[test]
fn non_square_matrix_is_fatal() {
    let module = SpirvModule {
        types_global_values: vec![
            float_type(1, 32),
            ins(Op::TypeVector, Some(2), None, vec![Operand::IdRef(1), Operand::LiteralInt32(3)]),
            ins(Op::TypeMatrix, Some(3), None, vec![Operand::IdRef(2), Operand::LiteralInt32(4)]),
        ],
        debugs: vec![],
        annotations: vec![],
    };
    let r = SpirVBackend::new().find_uniforms(&module);
    assert!(matches!(r, Err(Error::UnsupportedType)));
}

#[test]
fn input_storage_variables_are_ignored() {
    let module = SpirvModule {
        types_global_values: vec![
            float_type(1, 32),
            pointer(2, 1),
            ins(
                Op::Variable,
                Some(3),
                Some(2),
                vec![Operand::StorageClass(StorageClass::Input)],
            ),
        ],
        debugs: vec![name_of(3, "position")],
        annotations: vec![],
    };
    let uniforms = SpirVBackend::new().find_uniforms(&module).unwrap();
    assert_eq!(uniforms.len(), 0);
}

#[test]
fn camel_case_name_gets_snake_case_location_field() {
    let module = SpirvModule {
        types_global_values: vec![float_type(1, 32), pointer(2, 1), uniform_var(3, 2)],
        debugs: vec![name_of(3, "modelViewProj")],
        annotations: vec![location_of(3, 0)],
    };
    let uniforms = SpirVBackend::new().find_uniforms(&module).unwrap();
    assert_eq!(uniforms[0].location_name, "model_view_proj_location");
}

#[test]
fn double_precision_scalar_is_supported() {
    let module = SpirvModule {
        types_global_values: vec![float_type(1, 64), pointer(2, 1), uniform_var(3, 2)],
        debugs: vec![name_of(3, "t")],
        annotations: vec![location_of(3, 0)],
    };
    let uniforms = SpirVBackend::new().find_uniforms(&module).unwrap();
    assert_eq!(
        uniforms[0].ty,
        Some(ItemOrArrayType::Item(GenericType::Atom(AtomType::Double)))
    );
}

#[test]
fn empty_module_reflects_to_nothing() {
    let module = SpirvModule { types_global_values: vec![], debugs: vec![], annotations: vec![] };
    let backend = SpirVBackend::new();
    let uniforms = backend.find_uniforms(&module).unwrap();
    assert!(uniforms.is_empty());
    assert!(backend.reflect(&module).unwrap().diagnostics.is_empty());
}

#[test]
fn zero_length_array_is_fatal() {
    let module = SpirvModule {
        types_global_values: vec![
            float_type(1, 32),
            ins(Op::Constant, Some(2), None, vec![Operand::LiteralInt32(0)]),
            ins(Op::TypeArray, Some(3), None, vec![Operand::IdRef(1), Operand::IdRef(2)]),
        ],
        debugs: vec![],
        annotations: vec![],
    };
    let r = SpirVBackend::new().find_uniforms(&module);
    assert!(matches!(r, Err(Error::UnsupportedType)));
}

#[test]
fn array_without_a_recorded_length_is_fatal() {
    let module = SpirvModule {
        types_global_values: vec![
            float_type(1, 32),
            ins(Op::TypeArray, Some(3), None, vec![Operand::IdRef(1), Operand::IdRef(9)]),
        ],
        debugs: vec![],
        annotations: vec![],
    };
    let r = SpirVBackend::new().find_uniforms(&module);
    assert!(matches!(r, Err(Error::UnsupportedType)));
}
