use builder::record_builder::{MissingFieldError, RecordBuilder};
use builder::schema::{Field, RecordSchema};

#[derive(Clone, Debug, PartialEq)]
enum Val {
    Int(i64),
    Text(String),
}

fn field(name: &str, ty: &str) -> Field {
    Field { name: name.to_string(), ty: ty.to_string() }
}

fn xy() -> RecordSchema {
    RecordSchema { name: "Rec".to_string(), fields: vec![field("x", "Int"), field("y", "Text")] }
}

fn text(s: &str) -> Val {
    Val::Text(s.to_string())
}

fn missing(name: &str) -> MissingFieldError {
    MissingFieldError { field: name.to_string() }
}

#[test]
fn example_all_fields_set() {
    let mut b = RecordBuilder::new(&xy());
    let r = b.set(0, Val::Int(5)).set(1, text("hi")).build();
    assert_eq!(r, Ok(vec![Val::Int(5), text("hi")]));
}

#[test]
fn example_missing_field() {
    let mut b = RecordBuilder::new(&xy());
    let r = b.set(0, Val::Int(5)).build();
    assert_eq!(r, Err(missing("y")));
}

#[test]
fn fresh_builder_has_every_slot_absent() {
    let b: RecordBuilder<Val> = RecordBuilder::new(&xy());
    assert_eq!(b.fields, vec!["x".to_string(), "y".to_string()]);
    assert!(b.slots.iter().all(|s| s.is_none()));
    assert_eq!(b.build(), Err(missing("x")));
}

#[test]
fn first_unset_field_is_reported() {
    let s = RecordSchema { name: "R".to_string(), fields: vec![field("a", "u8"), field("b", "u8"), field("c", "u8")] };
    let mut b = RecordBuilder::new(&s);
    b.set(0, 1u8);
    assert_eq!(b.build(), Err(missing("b")));
    b.set(2, 3u8);
    assert_eq!(b.build(), Err(missing("b")));
    b.set(1, 2u8);
    assert_eq!(b.build(), Ok(vec![1u8, 2, 3]));
}

#[test]
fn setter_order_does_not_matter() {
    let mut a = RecordBuilder::new(&xy());
    a.set(0, Val::Int(1)).set(1, text("t"));
    let mut b = RecordBuilder::new(&xy());
    b.set(1, text("t")).set(0, Val::Int(1));
    assert_eq!(a.slots, b.slots);
    assert_eq!(a.build(), b.build());
}

#[test]
fn chained_setters_act_on_one_builder() {
    let mut b = RecordBuilder::new(&xy());
    b.set(0, Val::Int(7)).set(1, text("z"));
    assert_eq!(b.slots, vec![Some(Val::Int(7)), Some(text("z"))]);
    let r = b.set(1, text("w"));
    r.set(0, Val::Int(8));
    assert_eq!(b.slots, vec![Some(Val::Int(8)), Some(text("w"))]);
}

#[test]
fn setter_overwrites_previous_value() {
    let mut b = RecordBuilder::new(&xy());
    let r = b.set(0, Val::Int(1)).set(0, Val::Int(2)).set(1, text("c")).build();
    assert_eq!(r, Ok(vec![Val::Int(2), text("c")]));
}

#[test]
fn finalizer_can_run_twice() {
    let mut b = RecordBuilder::new(&xy());
    b.set(0, Val::Int(3)).set(1, text("q"));
    let first = b.build();
    let second = b.build();
    assert_eq!(first, Ok(vec![Val::Int(3), text("q")]));
    assert_eq!(first, second);
}

#[test]
fn empty_record_builds_at_once() {
    let s = RecordSchema { name: "E".to_string(), fields: vec![] };
    let b: RecordBuilder<u8> = RecordBuilder::new(&s);
    assert_eq!(b.build(), Ok(vec![]));
}

#[test]
fn missing_field_error_message() {
    assert_eq!(missing("y").message(), "field `y` is not set");
}
