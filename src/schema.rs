//! Declarations as the extractor sees them, and the field schema it produces.
use vstd::prelude::*;

verus! {

/// One named field of a record: its name and its declared type, kept as the
/// type's source text and never inspected.
pub struct Field {
    pub name: String,
    pub ty: String,
}

/// The field list of a struct declaration.
pub enum StructFields {
    /// `struct S { a: A, b: B }`
    Named(Vec<Field>),
    /// `struct S(A, B);`, with the number of its fields.
    Unnamed(usize),
    /// `struct S;`
    Unit,
}

/// The body of a type declaration.
pub enum DeclData {
    Struct(StructFields),
    Enum,
    Union,
}

/// A type declaration that a builder is asked for.
pub struct TypeDecl {
    pub name: String,
    pub data: DeclData,
}

/// The schema of a record with named fields, in declaration order.
pub struct RecordSchema {
    pub name: String,
    pub fields: Vec<Field>,
}

/// Why a declaration has no builder: it is not a struct with named fields.
#[derive(PartialEq, Eq, Structural, Debug, Clone, Copy)]
pub enum ShapeError {
    TupleStruct,
    UnitStruct,
    Enum,
    Union,
}

/// The diagnostic for a declaration of shape `e`.
pub open spec fn shape_message(e: ShapeError) -> Seq<char> {
    match e {
        ShapeError::TupleStruct => "a builder needs a struct with named fields, not a tuple struct"@,
        ShapeError::UnitStruct => "a builder needs a struct with named fields, not a unit struct"@,
        ShapeError::Enum => "a builder needs a struct with named fields, not an enum"@,
        ShapeError::Union => "a builder needs a struct with named fields, not a union"@,
    }
}

impl ShapeError {
    /// The diagnostic to report at build time.
    pub fn message(&self) -> (r: String)
        ensures
            r@ == shape_message(*self),
    {
        match self {
            ShapeError::TupleStruct => String::from_str(
                "a builder needs a struct with named fields, not a tuple struct",
            ),
            ShapeError::UnitStruct => String::from_str(
                "a builder needs a struct with named fields, not a unit struct",
            ),
            ShapeError::Enum => String::from_str("a builder needs a struct with named fields, not an enum"),
            ShapeError::Union => String::from_str("a builder needs a struct with named fields, not a union"),
        }
    }
}

/// The names of a field sequence, in order.
pub open spec fn field_names(fs: Seq<Field>) -> Seq<Seq<char>> {
    fs.map_values(|f: Field| f.name@)
}

/// The declared types of a field sequence, in order.
pub open spec fn field_types(fs: Seq<Field>) -> Seq<Seq<char>> {
    fs.map_values(|f: Field| f.ty@)
}

/// `a` and `b` hold the same fields in the same order.
pub open spec fn same_fields(a: Seq<Field>, b: Seq<Field>) -> bool {
    field_names(a) == field_names(b) && field_types(a) == field_types(b)
}

/// The shape error of a declaration, or none for a struct with named fields.
pub open spec fn shape_error_of(d: DeclData) -> Option<ShapeError> {
    match d {
        DeclData::Struct(StructFields::Named(_)) => None,
        DeclData::Struct(StructFields::Unnamed(_)) => Some(ShapeError::TupleStruct),
        DeclData::Struct(StructFields::Unit) => Some(ShapeError::UnitStruct),
        DeclData::Enum => Some(ShapeError::Enum),
        DeclData::Union => Some(ShapeError::Union),
    }
}

/// The fields of a struct with named fields; empty for any other shape.
pub open spec fn declared_fields(d: DeclData) -> Seq<Field> {
    match d {
        DeclData::Struct(StructFields::Named(fs)) => fs@,
        _ => Seq::empty(),
    }
}

/// Copies a field sequence, field by field.
fn copy_fields(fs: &Vec<Field>) -> (r: Vec<Field>)
    ensures
        same_fields(r@, fs@),
{
    let mut r: Vec<Field> = Vec::new();
    let mut i: usize = 0;
    while i < fs.len()
        invariant
            i <= fs.len(),
            r@.len() == i,
            forall|k: int| 0 <= k < i ==> r@[k].name@ == fs@[k].name@ && r@[k].ty@ == fs@[k].ty@,
        decreases fs.len() - i,
    {
        r.push(Field { name: fs[i].name.clone(), ty: fs[i].ty.clone() });
        i = i + 1;
    }
    assert(field_names(r@) =~= field_names(fs@));
    assert(field_types(r@) =~= field_types(fs@));
    r
}

/// The named fields of a struct declaration, or `None` for any other shape.
pub fn get_named_fields(data: &DeclData) -> (r: Option<&Vec<Field>>)
    ensures
        match *data {
            DeclData::Struct(StructFields::Named(fs)) => r == Some(&fs),
            _ => r.is_none(),
        },
{
    match data {
        DeclData::Struct(StructFields::Named(fs)) => Some(fs),
        _ => None,
    }
}

/// Extracts the schema of a record with named fields: its name and its fields
/// exactly as declared. Any other shape is refused with the shape it has.
pub fn extract_schema(decl: &TypeDecl) -> (r: Result<RecordSchema, ShapeError>)
    ensures
        match r {
            Ok(s) => {
                &&& shape_error_of(decl.data).is_none()
                &&& s.name@ == decl.name@
                &&& same_fields(s.fields@, declared_fields(decl.data))
            },
            Err(e) => shape_error_of(decl.data) == Some(e),
        },
{
    match get_named_fields(&decl.data) {
        Some(fs) => Ok(RecordSchema { name: decl.name.clone(), fields: copy_fields(fs) }),
        None => Err(
            match &decl.data {
                DeclData::Struct(StructFields::Unnamed(_)) => ShapeError::TupleStruct,
                DeclData::Struct(_) => ShapeError::UnitStruct,
                DeclData::Enum => ShapeError::Enum,
                DeclData::Union => ShapeError::Union,
            },
        ),
    }
}

} // verus!
