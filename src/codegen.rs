//! The items generated for a record schema, as typed nodes.
//!
//! For a record `T { f1: T1, .., fn: Tn }` the expansion is
//! - `pub struct TBuilder { f1: Option<T1>, .., fn: Option<Tn> }`;
//! - `impl T { pub fn builder() -> TBuilder }`, with every slot `None`;
//! - `impl TBuilder`, holding `pub fn fi(&mut self, fi: Ti) -> &mut Self` for each
//!   field, which stores `Some(fi)`, and `pub fn build(&mut self) -> Result<T, _>`,
//!   which reads every slot in declaration order and fails at the first unset one.
use vstd::prelude::*;
use crate::schema::{Field, RecordSchema, TypeDecl, field_names, field_types, same_fields,
    declared_fields, shape_error_of, extract_schema, ShapeError};

verus! {

/// The name of the builder type of a record named `n`.
pub open spec fn builder_name(n: Seq<char>) -> Seq<char> {
    n + "Builder"@
}

/// The description that the finalizer gives when field `n` is unset.
pub open spec fn missing_message(n: Seq<char>) -> Seq<char> {
    "field `"@ + n + "` is not set"@
}

/// The views of a sequence of strings.
pub open spec fn strings_view(v: Seq<String>) -> Seq<Seq<char>> {
    v.map_values(|s: String| s@)
}

/// A field of the builder struct, declared as `name: Option<value_ty>`.
pub struct SlotDecl {
    pub name: String,
    pub value_ty: String,
}

/// The builder struct.
pub struct BuilderStruct {
    pub name: String,
    pub slots: Vec<SlotDecl>,
}

/// `impl record { pub fn builder() -> builder { builder { absent: None, .. } } }`
pub struct FactoryMethod {
    pub record: String,
    pub builder: String,
    pub absent: Vec<String>,
}

/// `pub fn field(&mut self, field: param_ty) -> &mut Self { self.field = Some(field); self }`
pub struct SetterMethod {
    pub field: String,
    pub param_ty: String,
}

/// One field of the finalizer's result: read from the slot `field`, or fail
/// with `missing` when that slot is unset.
pub struct SlotRead {
    pub field: String,
    pub missing: String,
}

/// `pub fn build(&mut self) -> Result<record, _>`, reading the slots in order.
pub struct FinalizerMethod {
    pub record: String,
    pub reads: Vec<SlotRead>,
}

/// `impl builder { setters.. finalizer }`
pub struct BuilderImpl {
    pub builder: String,
    pub setters: Vec<SetterMethod>,
    pub finalizer: FinalizerMethod,
}

/// Everything generated for one record.
pub struct Expansion {
    pub builder_struct: BuilderStruct,
    pub factory: FactoryMethod,
    pub builder_impl: BuilderImpl,
}

/// `b` is the builder struct of record `name` with fields `fs`.
pub open spec fn builder_struct_for(b: BuilderStruct, name: Seq<char>, fs: Seq<Field>) -> bool {
    &&& b.name@ == builder_name(name)
    &&& b.slots@.len() == fs.len()
    &&& forall|i: int| 0 <= i < fs.len() ==> #[trigger] b.slots@[i].name@ == fs[i].name@
        && b.slots@[i].value_ty@ == fs[i].ty@
}

/// `f` is the factory of record `name` with fields `fs`.
pub open spec fn factory_for(f: FactoryMethod, name: Seq<char>, fs: Seq<Field>) -> bool {
    &&& f.record@ == name
    &&& f.builder@ == builder_name(name)
    &&& strings_view(f.absent@) == field_names(fs)
}

/// `ss` are the setters of a record with fields `fs`.
pub open spec fn setters_for(ss: Seq<SetterMethod>, fs: Seq<Field>) -> bool {
    &&& ss.len() == fs.len()
    &&& forall|i: int| 0 <= i < fs.len() ==> #[trigger] ss[i].field@ == fs[i].name@
        && ss[i].param_ty@ == fs[i].ty@
}

/// `f` is the finalizer of record `name` with fields `fs`.
pub open spec fn finalizer_for(f: FinalizerMethod, name: Seq<char>, fs: Seq<Field>) -> bool {
    &&& f.record@ == name
    &&& f.reads@.len() == fs.len()
    &&& forall|i: int| 0 <= i < fs.len() ==> #[trigger] f.reads@[i].field@ == fs[i].name@
        && f.reads@[i].missing@ == missing_message(fs[i].name@)
}

/// `b` is the builder's impl block for record `name` with fields `fs`.
pub open spec fn builder_impl_for(b: BuilderImpl, name: Seq<char>, fs: Seq<Field>) -> bool {
    &&& b.builder@ == builder_name(name)
    &&& setters_for(b.setters@, fs)
    &&& finalizer_for(b.finalizer, name, fs)
}

/// `x` is the whole expansion for record `name` with fields `fs`.
pub open spec fn expansion_for(x: Expansion, name: Seq<char>, fs: Seq<Field>) -> bool {
    &&& builder_struct_for(x.builder_struct, name, fs)
    &&& factory_for(x.factory, name, fs)
    &&& builder_impl_for(x.builder_impl, name, fs)
}

/// The builder type's name for a record named `name`.
pub fn builder_ident(name: &String) -> (r: String)
    ensures
        r@ == builder_name(name@),
{
    let mut r = name.clone();
    r.append("Builder");
    r
}

/// The finalizer's description of an unset field `name`.
pub fn missing_field_message(name: &String) -> (r: String)
    ensures
        r@ == missing_message(name@),
{
    let mut r = String::from_str("field `");
    r.append(name.as_str());
    r.append("` is not set");
    r
}

/// The finalizer: one read per field, in declaration order, each with the
/// description of that field as missing.
pub fn generate_build_function(s: &RecordSchema) -> (r: FinalizerMethod)
    ensures
        finalizer_for(r, s.name@, s.fields@),
{
    let mut reads: Vec<SlotRead> = Vec::new();
    let mut i: usize = 0;
    while i < s.fields.len()
        invariant
            i <= s.fields@.len(),
            reads@.len() == i,
            forall|k: int| 0 <= k < i ==> #[trigger] reads@[k].field@ == s.fields@[k].name@
                && reads@[k].missing@ == missing_message(s.fields@[k].name@),
        decreases s.fields@.len() - i,
    {
        let name = &s.fields[i].name;
        reads.push(SlotRead { field: name.clone(), missing: missing_field_message(name) });
        i = i + 1;
    }
    FinalizerMethod { record: s.name.clone(), reads }
}

/// One setter per field, in declaration order, taking a value of the field's type.
pub fn generate_builder_set_functions(s: &RecordSchema) -> (r: Vec<SetterMethod>)
    ensures
        setters_for(r@, s.fields@),
{
    let mut r: Vec<SetterMethod> = Vec::new();
    let mut i: usize = 0;
    while i < s.fields.len()
        invariant
            i <= s.fields@.len(),
            r@.len() == i,
            forall|k: int| 0 <= k < i ==> #[trigger] r@[k].field@ == s.fields@[k].name@
                && r@[k].param_ty@ == s.fields@[k].ty@,
        decreases s.fields@.len() - i,
    {
        let f = &s.fields[i];
        r.push(SetterMethod { field: f.name.clone(), param_ty: f.ty.clone() });
        i = i + 1;
    }
    r
}

/// The builder struct: one optional slot per field, same names, same order.
pub fn generate_builder_struct(s: &RecordSchema) -> (r: BuilderStruct)
    ensures
        builder_struct_for(r, s.name@, s.fields@),
{
    let mut slots: Vec<SlotDecl> = Vec::new();
    let mut i: usize = 0;
    while i < s.fields.len()
        invariant
            i <= s.fields@.len(),
            slots@.len() == i,
            forall|k: int| 0 <= k < i ==> #[trigger] slots@[k].name@ == s.fields@[k].name@
                && slots@[k].value_ty@ == s.fields@[k].ty@,
        decreases s.fields@.len() - i,
    {
        let f = &s.fields[i];
        slots.push(SlotDecl { name: f.name.clone(), value_ty: f.ty.clone() });
        i = i + 1;
    }
    BuilderStruct { name: builder_ident(&s.name), slots }
}

/// The field names of a schema, in order.
pub fn generate_builder_named_fields_idents(s: &RecordSchema) -> (r: Vec<String>)
    ensures
        strings_view(r@) == field_names(s.fields@),
{
    let mut r: Vec<String> = Vec::new();
    let mut i: usize = 0;
    while i < s.fields.len()
        invariant
            i <= s.fields@.len(),
            r@.len() == i,
            forall|k: int| 0 <= k < i ==> #[trigger] r@[k]@ == s.fields@[k].name@,
        decreases s.fields@.len() - i,
    {
        r.push(s.fields[i].name.clone());
        i = i + 1;
    }
    assert(strings_view(r@) =~= field_names(s.fields@));
    r
}

/// The declared field types of a schema, in order.
pub fn generate_builder_named_fields_types(s: &RecordSchema) -> (r: Vec<String>)
    ensures
        strings_view(r@) == field_types(s.fields@),
{
    let mut r: Vec<String> = Vec::new();
    let mut i: usize = 0;
    while i < s.fields.len()
        invariant
            i <= s.fields@.len(),
            r@.len() == i,
            forall|k: int| 0 <= k < i ==> #[trigger] r@[k]@ == s.fields@[k].ty@,
        decreases s.fields@.len() - i,
    {
        r.push(s.fields[i].ty.clone());
        i = i + 1;
    }
    assert(strings_view(r@) =~= field_types(s.fields@));
    r
}

/// The factory on the record, which returns a builder with every slot absent.
pub fn generate_return_builder(s: &RecordSchema) -> (r: FactoryMethod)
    ensures
        factory_for(r, s.name@, s.fields@),
{
    FactoryMethod {
        record: s.name.clone(),
        builder: builder_ident(&s.name),
        absent: generate_builder_named_fields_idents(s),
    }
}

/// The builder's impl block: its setters and its finalizer.
pub fn generate_builder_impl(s: &RecordSchema) -> (r: BuilderImpl)
    ensures
        builder_impl_for(r, s.name@, s.fields@),
{
    BuilderImpl {
        builder: builder_ident(&s.name),
        setters: generate_builder_set_functions(s),
        finalizer: generate_build_function(s),
    }
}

/// The expansion depends on the fields' names and types alone.
proof fn lemma_expansion_same_fields(x: Expansion, name: Seq<char>, a: Seq<Field>, b: Seq<Field>)
    requires
        same_fields(a, b),
        expansion_for(x, name, a),
    ensures
        expansion_for(x, name, b),
{
    assert(field_names(a).len() == a.len() && field_names(b).len() == b.len());
    assert forall|i: int| 0 <= i < a.len() implies a[i].name@ == b[i].name@ && a[i].ty@ == b[i].ty@ by {
        assert(field_names(a)[i] == field_names(b)[i]);
        assert(field_types(a)[i] == field_types(b)[i]);
    }
    assert(strings_view(x.factory.absent@) =~= field_names(b));
}

/// The whole expansion for a declaration: the schema is extracted, then the
/// builder struct, the factory and the builder's impl are generated from it.
/// A declaration that is not a struct with named fields yields its shape error
/// and nothing is generated.
pub fn derive(decl: &TypeDecl) -> (r: Result<Expansion, ShapeError>)
    ensures
        match r {
            Ok(x) => shape_error_of(decl.data).is_none() && expansion_for(
                x,
                decl.name@,
                declared_fields(decl.data),
            ),
            Err(e) => shape_error_of(decl.data) == Some(e),
        },
{
    match extract_schema(decl) {
        Ok(s) => {
            let x = Expansion {
                builder_struct: generate_builder_struct(&s),
                factory: generate_return_builder(&s),
                builder_impl: generate_builder_impl(&s),
            };
            proof {
                lemma_expansion_same_fields(x, decl.name@, s.fields@, declared_fields(decl.data));
            }
            Ok(x)
        },
        Err(e) => Err(e),
    }
}

} // verus!
