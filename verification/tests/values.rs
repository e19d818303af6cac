use sass_rs::dispatch::{
    value_for_libsass, CustomFunctionCall, DispatchSlot, Dispatcher, SassFunction,
};
use sass_rs::context::SassOptions;
use sass_rs::value::{render_raw, RawValue, SassValue};

fn text(s: &str) -> RawValue {
    RawValue::String(s.to_string())
}

#[test]
fn string_value_reads_back() {
    let v = SassValue::sass_string("hello");
    assert_eq!(v.to_string(), Some("hello".to_string()));
    assert!(!v.is_const);
    assert!(v.as_raw().is_some());
    assert_eq!(v.render(), "hello");
}

#[test]
fn error_value_is_not_a_string() {
    let v = SassValue::sass_error("boom");
    assert_eq!(v.to_string(), None);
    assert_eq!(v.to_vec_string(), None);
    assert_eq!(v.render(), "boom");
}

#[test]
fn values_from_libsass_are_read_only() {
    let v = SassValue::from_raw(text("x"));
    assert!(v.is_const);
    assert!(v.as_raw().is_none());
    assert_eq!(v.to_string(), Some("x".to_string()));
}

#[test]
fn list_strings_skip_other_elements() {
    let list = RawValue::List(vec![
        text("a"),
        RawValue::Boolean(true),
        text("b"),
        RawValue::Null,
    ]);
    let v = SassValue::from_raw(list);
    assert_eq!(v.to_vec_string(), Some(vec!["a".to_string(), "b".to_string()]));
    assert_eq!(v.list_nth_to_string(0), Some("a".to_string()));
    assert_eq!(v.list_nth_to_string(1), None);
    assert_eq!(v.list_nth_to_string(2), Some("b".to_string()));
    assert_eq!(v.list_nth_to_string(4), None);
    assert_eq!(v.to_string(), None);
}

#[test]
fn readers_of_non_lists() {
    let v = SassValue::from_raw(RawValue::Number("3.5".to_string()));
    assert_eq!(v.to_vec_string(), None);
    assert_eq!(v.list_nth_to_string(0), None);
    let empty = SassValue::from_raw(RawValue::List(vec![]));
    assert_eq!(empty.to_vec_string(), Some(vec![]));
    assert_eq!(empty.list_nth_to_string(0), None);
}

#[test]
fn rendering_of_every_tag() {
    assert_eq!(render_raw(&RawValue::Boolean(true)), "true");
    assert_eq!(render_raw(&RawValue::Boolean(false)), "false");
    assert_eq!(render_raw(&RawValue::Number("12.25".to_string())), "12.25");
    assert_eq!(render_raw(&RawValue::Color), "color(?,?,?,?)");
    assert_eq!(render_raw(&RawValue::Mapping), "{?,?}");
    assert_eq!(render_raw(&RawValue::Null), "(null)");
    assert_eq!(render_raw(&RawValue::Error("e".to_string())), "e");
    assert_eq!(render_raw(&RawValue::Warning("w".to_string())), "w");
    assert_eq!(render_raw(&RawValue::Other(42)), "bad sass tag 42");
    assert_eq!(render_raw(&RawValue::Other(0)), "bad sass tag 0");
}

#[test]
fn rendering_of_nested_lists() {
    let inner = RawValue::List(vec![RawValue::Null, text("q")]);
    let outer = RawValue::List(vec![text("a"), inner, RawValue::List(vec![])]);
    assert_eq!(render_raw(&outer), "[a, [(null), q], []]");
    assert_eq!(render_raw(&RawValue::List(vec![text("only")])), "[only]");
}

struct Upper;

impl SassFunction for Upper {
    fn custom(&self, input: &SassValue) -> SassValue {
        match input.to_string() {
            Some(s) => SassValue::sass_string(&s.to_uppercase()),
            None => SassValue::sass_error("not a string"),
        }
    }
}

struct Echo;

impl SassFunction for Echo {
    fn custom(&self, input: &SassValue) -> SassValue {
        SassValue::sass_string(&input.render())
    }
}

#[test]
fn dispatcher_registers_slots_in_order() {
    let mut record = SassOptions::new();
    let d = Dispatcher::build(
        vec![("upper($s)".to_string(), Upper), ("upper2($s)".to_string(), Upper)],
        &mut record,
    );
    assert_eq!(d.providers.len(), 2);
    assert_eq!(d.dispatch_slots[0].slot, 0);
    assert_eq!(d.dispatch_slots[1].slot, 1);
    let entries = record.c_functions.as_ref().unwrap();
    assert_eq!(entries.len(), 2);
    assert_eq!(entries[0].signature, "upper($s)");
    assert_eq!(entries[0].slot, 0);
    assert_eq!(entries[1].signature, "upper2($s)");
    assert_eq!(entries[1].slot, 1);
    d.release(&mut record);
    assert_eq!(record.c_functions.as_ref().map(|v| v.len()), Some(0));
}

#[test]
fn dispatcher_calls_the_provider_of_the_slot() {
    let mut record = SassOptions::new();
    let d = Dispatcher::build(vec![("echo($v)".to_string(), Echo)], &mut record);
    let call = CustomFunctionCall { slot: 0, argument: SassValue::from_raw(RawValue::Boolean(true)) };
    let out = d.dispatch(Some(&call)).unwrap();
    assert_eq!(out.to_string(), Some("true".to_string()));
    let ended = d.dispatch(None);
    assert_eq!(ended.err(), Some("dispatch recv error".to_string()));
    assert_eq!(Dispatcher::<Echo>::reply_outcome(true), Ok(()));
    assert_eq!(
        Dispatcher::<Echo>::reply_outcome(false),
        Err("dispatch reply error".to_string())
    );
}

#[test]
fn lost_replies_and_read_only_replies_become_errors() {
    let lost = DispatchSlot::send(None);
    assert!(!lost.is_const);
    assert_eq!(lost.render(), "send error");
    let kept = DispatchSlot::send(Some(SassValue::sass_string("ok")));
    assert_eq!(kept.to_string(), Some("ok".to_string()));
    let borrowed = value_for_libsass(SassValue::from_raw(text("mine")));
    assert!(!borrowed.is_const);
    assert_eq!(borrowed.render(), "bad call");
    assert_eq!(borrowed.to_string(), None);
    let made = value_for_libsass(SassValue::sass_string("fresh"));
    assert_eq!(made.to_string(), Some("fresh".to_string()));
}
