use builder::codegen::{
    builder_ident, generate_build_function, generate_builder_impl, generate_builder_named_fields_idents,
    generate_builder_named_fields_types, generate_builder_set_functions, generate_builder_struct,
    generate_return_builder, missing_field_message,
};
use builder::schema::{DeclData, Field, RecordSchema, ShapeError, StructFields, TypeDecl};

fn field(name: &str, ty: &str) -> Field {
    Field { name: name.to_string(), ty: ty.to_string() }
}

fn point() -> RecordSchema {
    RecordSchema { name: "Point".to_string(), fields: vec![field("x", "i32"), field("y", "String")] }
}

#[test]
fn builder_name_appends_suffix() {
    assert_eq!(builder_ident(&"Command".to_string()), "CommandBuilder");
}

#[test]
fn missing_message_names_the_field() {
    assert_eq!(missing_field_message(&"y".to_string()), "field `y` is not set");
}

#[test]
fn builder_struct_wraps_every_field() {
    let b = generate_builder_struct(&point());
    assert_eq!(b.name, "PointBuilder");
    assert_eq!(b.slots.len(), 2);
    assert_eq!((b.slots[0].name.as_str(), b.slots[0].value_ty.as_str()), ("x", "i32"));
    assert_eq!((b.slots[1].name.as_str(), b.slots[1].value_ty.as_str()), ("y", "String"));
}

#[test]
fn builder_struct_does_not_unwrap_optional_fields() {
    let s = RecordSchema { name: "Conf".to_string(), fields: vec![field("path", "Option<String>")] };
    let b = generate_builder_struct(&s);
    assert_eq!(b.slots[0].value_ty, "Option<String>");
}

#[test]
fn factory_starts_every_slot_absent() {
    let f = generate_return_builder(&point());
    assert_eq!(f.record, "Point");
    assert_eq!(f.builder, "PointBuilder");
    assert_eq!(f.absent, vec!["x".to_string(), "y".to_string()]);
}

#[test]
fn one_setter_per_field() {
    let ss = generate_builder_set_functions(&point());
    assert_eq!(ss.len(), 2);
    assert_eq!((ss[0].field.as_str(), ss[0].param_ty.as_str()), ("x", "i32"));
    assert_eq!((ss[1].field.as_str(), ss[1].param_ty.as_str()), ("y", "String"));
}

#[test]
fn finalizer_reads_every_field_in_order() {
    let f = generate_build_function(&point());
    assert_eq!(f.record, "Point");
    assert_eq!(f.reads.len(), 2);
    assert_eq!(f.reads[0].field, "x");
    assert_eq!(f.reads[0].missing, "field `x` is not set");
    assert_eq!(f.reads[1].field, "y");
    assert_eq!(f.reads[1].missing, "field `y` is not set");
}

#[test]
fn builder_impl_holds_setters_and_finalizer() {
    let i = generate_builder_impl(&point());
    assert_eq!(i.builder, "PointBuilder");
    assert_eq!(i.setters.len(), 2);
    assert_eq!(i.finalizer.reads.len(), 2);
}

#[test]
fn field_idents_and_types_in_order() {
    assert_eq!(generate_builder_named_fields_idents(&point()), vec!["x".to_string(), "y".to_string()]);
    assert_eq!(generate_builder_named_fields_types(&point()), vec!["i32".to_string(), "String".to_string()]);
}

#[test]
fn derive_expands_named_struct() {
    let decl = TypeDecl {
        name: "Point".to_string(),
        data: DeclData::Struct(StructFields::Named(vec![field("x", "i32"), field("y", "String")])),
    };
    let x = builder::codegen::derive(&decl).ok().unwrap();
    assert_eq!(x.builder_struct.name, "PointBuilder");
    assert_eq!(x.factory.absent, vec!["x".to_string(), "y".to_string()]);
    assert_eq!(x.builder_impl.setters[1].field, "y");
    assert_eq!(x.builder_impl.finalizer.reads[1].missing, "field `y` is not set");
}

#[test]
fn derive_refuses_tuple_struct_and_enum() {
    let tuple = TypeDecl { name: "Pair".to_string(), data: DeclData::Struct(StructFields::Unnamed(2)) };
    assert_eq!(builder::codegen::derive(&tuple).err(), Some(ShapeError::TupleStruct));
    let e = TypeDecl { name: "Choice".to_string(), data: DeclData::Enum };
    assert_eq!(builder::codegen::derive(&e).err(), Some(ShapeError::Enum));
    let u = TypeDecl { name: "Unit".to_string(), data: DeclData::Struct(StructFields::Unit) };
    assert_eq!(builder::codegen::derive(&u).err(), Some(ShapeError::UnitStruct));
}
