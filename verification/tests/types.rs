use neon::env::{Env, ErrorKind, JsData};
use neon::handle::{Handle, Managed};
use neon::raw::Status;
use neon::types::{
    JsArray, JsBoolean, JsNull, JsNumber, JsObject, JsResultExt, JsString, JsUndefined, JsValue,
    Object, StringOverflow, StringResult, This, Value, ValueInternal, MAX_STRING_SIZE,
};

#[test]
fn undefined_and_null_are_singletons() {
    let mut cx = Env::new();
    let a = JsUndefined::new(&mut cx);
    let b = JsUndefined::new(&mut cx);
    assert_eq!(a.to_raw(), b.to_raw());
    let n = JsNull::new(&mut cx);
    assert_eq!(n.to_raw(), JsNull::new(&mut cx).to_raw());
    assert_ne!(a.to_raw(), n.to_raw());
    assert!(matches!(cx.get(a.to_raw()), Some(JsData::Undefined)));
    assert!(matches!(cx.get(n.to_raw()), Some(JsData::Null)));
}

#[test]
fn boolean_round_trip() {
    let mut cx = Env::new();
    let t = JsBoolean::new(&mut cx, true);
    let f = JsBoolean::new(&mut cx, false);
    assert!(t.get().value(&mut cx));
    assert!(!f.get().value(&mut cx));
    assert_ne!(t.to_raw(), f.to_raw());
    assert_eq!(t.to_raw(), JsBoolean::new(&mut cx, true).to_raw());
}

#[test]
fn string_round_trip() {
    let mut cx = Env::new();
    let s = JsString::new(&mut cx, "héllo");
    assert_eq!(s.get().value(&mut cx), "héllo");
    assert_eq!(s.get().size(&mut cx), 6);
    let empty = JsString::new(&mut cx, "");
    assert_eq!(empty.get().value(&mut cx), "");
    assert_eq!(empty.get().size(&mut cx), 0);
    assert_ne!(s.to_raw(), empty.to_raw());
}

#[test]
fn try_new_makes_small_strings() {
    let mut cx = Env::new();
    let made = JsString::try_new(&mut cx, "abc");
    let handle = match made {
        Ok(handle) => handle,
        Err(e) => panic!("unexpected overflow: {:?}", e),
    };
    assert_eq!(handle.get().value(&mut cx), "abc");
}

#[test]
fn try_new_refuses_a_string_of_the_maximum_size() {
    let mut cx = Env::new();
    let big = "a".repeat(MAX_STRING_SIZE);
    let values_before = cx.create_object();
    match JsString::try_new(&mut cx, &big) {
        Ok(_) => panic!("a string of the maximum size was made"),
        Err(overflow) => assert_eq!(overflow, StringOverflow(MAX_STRING_SIZE)),
    }
    // Nothing was made: the next value follows the last one.
    let values_after = cx.create_object();
    assert!(cx.get(values_before).is_some());
    assert!(cx.get(values_after).is_some());
    let between = JsString::new(&mut cx, "x");
    assert_ne!(between.to_raw(), values_after);
}

#[test]
fn max_string_size_is_the_largest_i32() {
    assert_eq!(MAX_STRING_SIZE, i32::MAX as usize);
}

#[test]
fn number_keeps_its_bits() {
    let mut cx = Env::new();
    let n = JsNumber::from_bits(&mut cx, 1.5f64.to_bits());
    assert_eq!(f64::from_bits(n.get().to_bits(&mut cx)), 1.5);
    let nan = JsNumber::from_bits(&mut cx, f64::NAN.to_bits());
    assert!(f64::from_bits(nan.get().to_bits(&mut cx)).is_nan());
}

#[test]
fn names_of_the_types() {
    assert_eq!(JsValue::name(), "any");
    assert_eq!(JsUndefined::name(), "undefined");
    assert_eq!(JsNull::name(), "null");
    assert_eq!(JsBoolean::name(), "boolean");
    assert_eq!(JsString::name(), "string");
    assert_eq!(JsNumber::name(), "number");
    assert_eq!(JsObject::name(), "object");
    assert_eq!(JsArray::name(), "Array");
}

#[test]
fn is_typeof_tells_the_types_apart() {
    let mut cx = Env::new();
    let u = JsUndefined::new(&mut cx).get();
    let n = JsNull::new(&mut cx).get();
    let b = JsBoolean::new(&mut cx, true).get();
    let s = JsString::new(&mut cx, "s").get();
    let x = JsNumber::from_bits(&mut cx, 0).get();
    let o = JsObject::new(&mut cx).get();
    let a = JsArray::new(&mut cx, 0).get();

    assert!(JsUndefined::is_typeof(&cx, u));
    assert!(!JsUndefined::is_typeof(&cx, n));
    assert!(JsNull::is_typeof(&cx, n));
    assert!(!JsNull::is_typeof(&cx, u));
    assert!(JsBoolean::is_typeof(&cx, b));
    assert!(!JsBoolean::is_typeof(&cx, s));
    assert!(JsString::is_typeof(&cx, s));
    assert!(!JsString::is_typeof(&cx, x));
    assert!(JsNumber::is_typeof(&cx, x));
    assert!(!JsNumber::is_typeof(&cx, b));
    assert!(JsObject::is_typeof(&cx, o));
    assert!(JsObject::is_typeof(&cx, a));
    assert!(!JsObject::is_typeof(&cx, s));
    assert!(!JsObject::is_typeof(&cx, n));
    assert!(JsArray::is_typeof(&cx, a));
    assert!(!JsArray::is_typeof(&cx, o));
    assert!(JsValue::is_typeof(&cx, u));
    assert!(JsValue::is_typeof(&cx, a));
}

#[test]
fn is_typeof_of_a_handle_that_names_nothing() {
    let mut other = Env::new();
    let stranger = JsObject::new(&mut other).get();
    let cx = Env::new();
    assert!(!JsObject::is_typeof(&cx, stranger));
    assert!(!JsUndefined::is_typeof(&cx, stranger));
    assert!(JsValue::is_typeof(&cx, stranger));
}

#[test]
fn as_value_and_upcast_keep_the_handle() {
    let mut cx = Env::new();
    let s = JsString::new(&mut cx, "s");
    let v = s.get().as_value(&mut cx);
    assert_eq!(v.to_raw(), s.to_raw());
    let up: Handle<JsValue> = s.upcast();
    assert_eq!(up.to_raw(), s.to_raw());
    let a = JsArray::new(&mut cx, 1);
    let o: Handle<JsObject> = a.upcast();
    assert_eq!(o.to_raw(), a.to_raw());
    assert_eq!(JsString::from_raw(&cx, s.to_raw()).to_raw(), s.to_raw());
}

#[test]
fn new_array_holds_undefined() {
    let mut cx = Env::new();
    let a = JsArray::new(&mut cx, 3).get();
    assert_eq!(a.len(&mut cx), 3);
    assert!(!a.is_empty(&mut cx));
    let undefined = JsUndefined::new(&mut cx).to_raw();
    let elements = a.to_vec(&mut cx).ok().unwrap();
    assert_eq!(elements.len(), 3);
    for element in &elements {
        assert_eq!(element.to_raw(), undefined);
    }
}

#[test]
fn empty_array() {
    let mut cx = Env::new();
    let a = JsArray::new(&mut cx, 0).get();
    assert_eq!(a.len(&mut cx), 0);
    assert!(a.is_empty(&mut cx));
    assert!(a.to_vec(&mut cx).ok().unwrap().is_empty());
}

#[test]
fn to_vec_gives_the_elements_in_order() {
    let mut cx = Env::new();
    let a = JsArray::new(&mut cx, 2).get();
    let s = JsString::new(&mut cx, "zero");
    let t = JsBoolean::new(&mut cx, true);
    let n = JsNumber::from_bits(&mut cx, 7);
    assert_eq!(cx.set_index(a.to_raw(), 0, s.to_raw()), Status::Success);
    assert_eq!(cx.set_index(a.to_raw(), 1, t.to_raw()), Status::Success);
    // Past the end: the array grows, with `undefined` in between.
    assert_eq!(cx.set_index(a.to_raw(), 3, n.to_raw()), Status::Success);
    assert_eq!(a.len(&mut cx), 4);
    let elements = a.to_vec(&mut cx).ok().unwrap();
    let raws: Vec<_> = elements.iter().map(|h| h.to_raw()).collect();
    let undefined = JsUndefined::new(&mut cx).to_raw();
    assert_eq!(raws, vec![s.to_raw(), t.to_raw(), undefined, n.to_raw()]);
    assert_eq!(a.get(&mut cx, 1).ok().unwrap().to_raw(), t.to_raw());
    assert_eq!(a.get(&mut cx, 9).ok().unwrap().to_raw(), undefined);
}

#[test]
fn set_index_is_refused_on_what_is_no_array() {
    let mut cx = Env::new();
    let o = JsObject::new(&mut cx);
    let a = JsArray::new(&mut cx, 1);
    let v = JsNull::new(&mut cx);
    assert_eq!(cx.set_index(o.to_raw(), 0, v.to_raw()), Status::ArrayExpected);
    assert_eq!(cx.set_index(a.to_raw(), u32::MAX, v.to_raw()), Status::InvalidArg);
    let mut other = Env::new();
    let _ = JsObject::new(&mut other);
    let _ = JsObject::new(&mut other);
    let stranger = JsObject::new(&mut other);
    assert_eq!(cx.set_index(a.to_raw(), 0, stranger.to_raw()), Status::InvalidArg);
    assert_eq!(cx.set_index(stranger.to_raw(), 0, v.to_raw()), Status::InvalidArg);
    assert_eq!(a.get().len(&mut cx), 1);
}

#[test]
fn len_of_what_is_no_array_is_zero() {
    let mut cx = Env::new();
    let o = JsObject::new(&mut cx);
    let as_array = JsArray::from_raw(&cx, o.to_raw());
    assert_eq!(as_array.len(&mut cx), 0);
    assert!(as_array.is_empty(&mut cx));
    let undefined = JsUndefined::new(&mut cx).to_raw();
    assert_eq!(o.get().get(&mut cx, 0).ok().unwrap().to_raw(), undefined);
}

#[test]
fn throwing_keeps_the_last_exception() {
    let mut cx = Env::new();
    assert_eq!(cx.exception(), None);
    let first = cx.create_error(ErrorKind::TypeError, "first");
    let second = cx.create_error(ErrorKind::Error, "second");
    assert_eq!(cx.throw(first), Status::Success);
    assert_eq!(cx.throw(second), Status::Success);
    assert_eq!(cx.exception(), Some(second));
    assert_eq!(cx.clear_exception(), Some(second));
    assert_eq!(cx.exception(), None);
    let mut other = Env::new();
    for _ in 0..8 {
        other.create_object();
    }
    let stranger = other.create_object();
    assert_eq!(cx.throw(stranger), Status::InvalidArg);
    assert_eq!(cx.exception(), None);
}

#[test]
fn references_keep_their_count() {
    let mut cx = Env::new();
    let o = cx.create_object();
    assert_eq!(cx.live_references(), 0);
    let a = cx.create_reference(o);
    let b = cx.create_reference(o);
    assert_eq!(cx.live_references(), 2);
    assert!(cx.reference_is_live(&a));
    assert_eq!(cx.delete_reference(a), Status::Success);
    assert_eq!(cx.live_references(), 1);
    assert!(cx.reference_is_live(&b));
}

#[test]
fn string_overflow_in_words() {
    assert_eq!(StringOverflow(2147483647).to_string(), "string size out of range: 2147483647");
    assert_eq!(StringOverflow(0).to_string(), "string size out of range: 0");
}

#[test]
fn string_overflows_are_ordered_by_size() {
    assert!(StringOverflow(1) < StringOverflow(2));
    assert_eq!(StringOverflow(3).clone(), StringOverflow(3));
}

#[test]
fn or_throw_hands_a_string_on() {
    let mut cx = Env::new();
    let made = JsString::try_new(&mut cx, "fine");
    let handle = made.or_throw(&mut cx).ok().unwrap();
    assert_eq!(handle.get().value(&mut cx), "fine");
    assert_eq!(cx.exception(), None);
}

#[test]
fn or_throw_throws_a_range_error() {
    let mut cx = Env::new();
    let overflow: StringResult = Err(StringOverflow(4000000000));
    assert!(overflow.or_throw(&mut cx).is_err());
    let thrown = cx.exception().unwrap();
    match cx.get(thrown) {
        Some(JsData::Error(kind, message)) => {
            assert_eq!(*kind, ErrorKind::RangeError);
            assert_eq!(message, "string size out of range: 4000000000");
        }
        other => panic!("unexpected exception: {:?}", other),
    }
}

#[test]
fn downcast_checks_the_type() {
    let mut cx = Env::new();
    let s = JsString::new(&mut cx, "s");
    let v: Handle<JsValue> = s.upcast();
    assert!(v.is_a::<JsString>(&mut cx));
    assert!(!v.is_a::<JsNumber>(&mut cx));
    let back = v.downcast_or_throw::<JsString>(&mut cx).ok().unwrap();
    assert_eq!(back.to_raw(), s.to_raw());
    assert_eq!(cx.exception(), None);

    assert!(s.downcast_or_throw::<JsArray>(&mut cx).is_err());
    let thrown = cx.exception().unwrap();
    match cx.get(thrown) {
        Some(JsData::Error(kind, message)) => {
            assert_eq!(*kind, ErrorKind::TypeError);
            assert_eq!(message, "failed to downcast string to Array");
        }
        other => panic!("unexpected exception: {:?}", other),
    }
}

#[test]
fn as_this_of_each_type() {
    let mut cx = Env::new();
    let o = JsObject::new(&mut cx).to_raw();
    assert_eq!(JsValue::as_this(&cx, o).to_raw(), o);
    assert_eq!(JsObject::as_this(&cx, o).to_raw(), o);
    let undefined = JsUndefined::new(&mut cx).to_raw();
    assert_eq!(JsUndefined::as_this(&cx, o).to_raw(), undefined);
}

#[test]
fn to_string_asks_the_engine() {
    let mut cx = Env::new();
    let t = JsBoolean::new(&mut cx, true);
    let raw = t.to_raw();
    let s = t
        .get()
        .to_string(&mut cx, move |env, value| {
            assert_eq!(value, raw);
            Some(env.create_string("true"))
        })
        .ok()
        .unwrap();
    assert_eq!(s.get().value(&mut cx), "true");
    assert!(t.get().to_string(&mut cx, |_env, _value| None).is_err());
}
