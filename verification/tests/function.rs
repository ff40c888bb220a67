use neon::env::{Env, ErrorKind, JsData};
use neon::handle::{Handle, Managed};
use neon::types::function::{prepare_call, V8_ARGC_LIMIT};
use neon::types::{
    JsBoolean, JsFunction, JsNull, JsNumber, JsObject, JsString, JsUndefined, JsValue,
    ValueInternal,
};

fn function(cx: &mut Env) -> JsFunction {
    let raw = cx.create_function();
    JsFunction::from_raw(cx, raw)
}

fn raws(args: &[Handle<JsValue>]) -> Vec<neon::raw::Local> {
    args.iter().map(|h| h.to_raw()).collect()
}

#[test]
fn function_is_a_function_and_an_object() {
    let mut cx = Env::new();
    let f = function(&mut cx);
    assert!(JsFunction::<JsObject>::is_typeof(&cx, f));
    assert!(JsObject::is_typeof(&cx, f));
    assert!(!JsString::is_typeof(&cx, f));
    let o = JsObject::new(&mut cx).get();
    assert!(!JsFunction::<JsObject>::is_typeof(&cx, o));
    assert_eq!(JsFunction::<JsObject>::name(), "function");
}

#[test]
fn arg_appends_in_order() {
    let mut cx = Env::new();
    let f = function(&mut cx);
    let a = JsString::new(&mut cx, "42");
    let b = JsBoolean::new(&mut cx, true);
    let c = JsNumber::from_bits(&mut cx, 1);
    let mut call = f.arg(a);
    assert_eq!(raws(call.argument_list()), vec![a.to_raw()]);
    call.arg(b);
    call.arg(c);
    call.arg(a);
    assert_eq!(raws(call.argument_list()), vec![a.to_raw(), b.to_raw(), c.to_raw(), a.to_raw()]);
    assert_eq!(call.function().to_raw(), f.to_raw());
}

#[test]
fn args_appends_a_tuple() {
    let mut cx = Env::new();
    let f = function(&mut cx);
    let a = JsString::new(&mut cx, "a");
    let b = JsNull::new(&mut cx);
    let mut call = f.args((a, b));
    assert_eq!(raws(call.argument_list()), vec![a.to_raw(), b.to_raw()]);
    call.args(());
    assert_eq!(call.argument_list().len(), 2);
    call.args((b,));
    assert_eq!(raws(call.argument_list()), vec![a.to_raw(), b.to_raw(), b.to_raw()]);
    let none = f.args(());
    assert!(none.argument_list().is_empty());
}

#[test]
fn more_arguments_than_fit_inline() {
    let mut cx = Env::new();
    let f = function(&mut cx);
    let mut call = f.args(());
    let mut expected = Vec::new();
    for i in 0..20u64 {
        let n = JsNumber::from_bits(&mut cx, i);
        call.arg(n);
        expected.push(n.to_raw());
    }
    assert_eq!(raws(call.argument_list()), expected);
}

#[test]
fn this_binds_and_rebinds() {
    let mut cx = Env::new();
    let f = function(&mut cx);
    let o = JsObject::new(&mut cx);
    let p = JsObject::new(&mut cx);
    let a = JsUndefined::new(&mut cx);
    let mut call = f.this(o);
    assert_eq!(call.this_handle().to_raw(), o.to_raw());
    assert!(call.argument_list().is_empty());
    call.arg(a);
    call.this(p);
    assert_eq!(call.this_handle().to_raw(), p.to_raw());
    assert_eq!(raws(call.argument_list()), vec![a.to_raw()]);
    call.args((o, p));
    assert_eq!(raws(call.argument_list()), vec![a.to_raw(), o.to_raw(), p.to_raw()]);
    assert_eq!(call.function().to_raw(), f.to_raw());
}

#[test]
fn call_with_this_keeps_callee_and_arguments() {
    let mut cx = Env::new();
    let f = function(&mut cx);
    let o = JsObject::new(&mut cx);
    let a = JsString::new(&mut cx, "a");
    let b = JsString::new(&mut cx, "b");
    let call = f.args((a, b));
    let bound = call.this(o);
    assert_eq!(bound.function().to_raw(), f.to_raw());
    assert_eq!(bound.this_handle().to_raw(), o.to_raw());
    assert_eq!(raws(bound.argument_list()), vec![a.to_raw(), b.to_raw()]);
}

#[test]
fn clone_of_a_call_is_independent() {
    let mut cx = Env::new();
    let f = function(&mut cx);
    let a = JsString::new(&mut cx, "a");
    let b = JsString::new(&mut cx, "b");
    let mut call = f.arg(a);
    let copy = call.clone();
    call.arg(b);
    assert_eq!(raws(copy.argument_list()), vec![a.to_raw()]);
    assert_eq!(raws(call.argument_list()), vec![a.to_raw(), b.to_raw()]);
    let bound = copy.clone().this(b);
    let mut bound_copy = bound.clone();
    bound_copy.arg(b);
    assert_eq!(raws(bound.argument_list()), vec![a.to_raw()]);
    assert_eq!(raws(bound_copy.argument_list()), vec![a.to_raw(), b.to_raw()]);
    assert_eq!(bound_copy.this_handle().to_raw(), b.to_raw());
}

#[test]
fn prepare_call_counts_the_arguments() {
    let mut cx = Env::new();
    let a = JsUndefined::new(&mut cx);
    let args = vec![a; 3];
    assert_eq!(prepare_call(&mut cx, &args).ok(), Some(3));
    let none: Vec<Handle<JsUndefined>> = Vec::new();
    assert_eq!(prepare_call(&mut cx, &none).ok(), Some(0));
    let most = vec![a; V8_ARGC_LIMIT];
    assert_eq!(prepare_call(&mut cx, &most).ok(), Some(65535));
    assert_eq!(cx.exception(), None);
}

#[test]
fn prepare_call_throws_on_too_many_arguments() {
    let mut cx = Env::new();
    let a = JsUndefined::new(&mut cx);
    let args = vec![a; V8_ARGC_LIMIT + 1];
    assert!(prepare_call(&mut cx, &args).is_err());
    let thrown = cx.exception().unwrap();
    match cx.get(thrown) {
        Some(JsData::Error(kind, message)) => {
            assert_eq!(*kind, ErrorKind::RangeError);
            assert_eq!(message, "too many arguments");
        }
        other => panic!("unexpected exception: {:?}", other),
    }
}

#[test]
fn args_appends_the_longest_tuple() {
    let mut cx = Env::new();
    let f = function(&mut cx);
    let v: Vec<Handle<JsNumber>> = (0..32u64).map(|i| JsNumber::from_bits(&mut cx, i)).collect();
    let s = JsString::new(&mut cx, "first");
    let mut call = f.arg(s);
    call.args((
        v[0], v[1], v[2], v[3], v[4], v[5], v[6], v[7], v[8], v[9], v[10], v[11], v[12], v[13],
        v[14], v[15], v[16], v[17], v[18], v[19], v[20], v[21], v[22], v[23], v[24], v[25], v[26],
        v[27], v[28], v[29], v[30], v[31],
    ));
    let mut expected = vec![s.to_raw()];
    expected.extend(v.iter().map(|h| h.to_raw()));
    assert_eq!(raws(call.argument_list()), expected);
}

#[test]
fn args_of_mixed_types_keep_their_order() {
    let mut cx = Env::new();
    let f = function(&mut cx);
    let a = JsString::new(&mut cx, "a");
    let b = JsBoolean::new(&mut cx, false);
    let c = JsObject::new(&mut cx);
    let d = JsNull::new(&mut cx);
    let e = JsNumber::from_bits(&mut cx, 5);
    let call = f.args((a, b, c, d, e));
    assert_eq!(
        raws(call.argument_list()),
        vec![a.to_raw(), b.to_raw(), c.to_raw(), d.to_raw(), e.to_raw()]
    );
}

#[test]
fn call_hands_the_parts_to_the_engine_and_downcasts() {
    let mut cx = Env::new();
    let f = function(&mut cx);
    let o = JsObject::new(&mut cx);
    let a = JsString::new(&mut cx, "42");
    let mut call = f.this(o);
    call.arg(a);
    let (callee, this, arg) = (f.to_raw(), o.to_raw(), a.to_raw());
    let returned = call.call::<JsNumber, _>(&mut cx, move |env, c, t, args| {
        assert_eq!(c, callee);
        assert_eq!(t, this);
        assert_eq!(raws(args), vec![arg]);
        Some(env.create_number(42f64.to_bits()))
    });
    let n = returned.ok().unwrap();
    assert_eq!(f64::from_bits(n.get().to_bits(&mut cx)), 42.0);
    assert_eq!(cx.exception(), None);
}

#[test]
fn call_throws_a_type_error_on_a_failed_downcast() {
    let mut cx = Env::new();
    let f = function(&mut cx);
    let call = f.args(());
    let undefined = JsUndefined::new(&mut cx).to_raw();
    let returned = call.call::<JsString, _>(&mut cx, move |env, _c, this, _args| {
        assert_eq!(this, undefined);
        Some(env.create_object())
    });
    assert!(returned.is_err());
    let thrown = cx.exception().unwrap();
    match cx.get(thrown) {
        Some(JsData::Error(kind, message)) => {
            assert_eq!(*kind, ErrorKind::TypeError);
            assert_eq!(message, "failed to downcast any to string");
        }
        other => panic!("unexpected exception: {:?}", other),
    }
}

#[test]
fn call_passes_on_what_the_engine_threw() {
    let mut cx = Env::new();
    let f = function(&mut cx);
    let call = f.args(()).this(JsNull::new(&mut cx));
    let returned = call.call::<JsValue, _>(&mut cx, |env, _c, _t, _args| {
        let error = env.create_error(ErrorKind::Error, "boom");
        env.throw(error);
        None
    });
    assert!(returned.is_err());
    let thrown = cx.exception().unwrap();
    assert!(matches!(cx.get(thrown), Some(JsData::Error(ErrorKind::Error, _))));
}

#[test]
fn exec_discards_the_result() {
    let mut cx = Env::new();
    let f = function(&mut cx);
    let call = f.args(());
    assert!(call.exec(&mut cx, |env, _c, _t, _args| Some(env.create_object())).is_ok());
    assert!(call.exec(&mut cx, |_env, _c, _t, _args| None).is_err());
    let bound = call.this(JsNull::new(&mut cx));
    let null = JsNull::new(&mut cx).to_raw();
    assert!(bound
        .exec(&mut cx, move |env, _c, t, _args| {
            assert_eq!(t, null);
            Some(env.undefined())
        })
        .is_ok());
    assert!(bound.exec(&mut cx, |_env, _c, _t, _args| None).is_err());
}

#[test]
fn construct_returns_the_object() {
    let mut cx = Env::new();
    let f = function(&mut cx);
    let a = JsString::new(&mut cx, "https://example.org");
    let call = f.arg(a);
    let (callee, arg) = (f.to_raw(), a.to_raw());
    let made = call
        .construct(&mut cx, move |env, c, args| {
            assert_eq!(c, callee);
            assert_eq!(raws(args), vec![arg]);
            Some(env.create_object())
        })
        .ok()
        .unwrap();
    assert!(JsObject::is_typeof(&cx, made.get()));
    assert!(call.construct(&mut cx, |_env, _c, _args| None).is_err());
}

#[test]
fn function_call_and_construct_take_a_slice() {
    let mut cx = Env::new();
    let f = function(&mut cx);
    let this = JsObject::new(&mut cx);
    let args = vec![JsNumber::from_bits(&mut cx, 1), JsNumber::from_bits(&mut cx, 2)];
    let expected: Vec<_> = args.iter().map(|h| h.to_raw()).collect();
    let seen = expected.clone();
    let returned = f
        .call(&mut cx, this, &args, move |env, _c, _t, given: &[Handle<JsNumber>]| {
            let given: Vec<_> = given.iter().map(|h| h.to_raw()).collect();
            assert_eq!(given, seen);
            Some(env.null())
        })
        .ok()
        .unwrap();
    assert_eq!(returned.to_raw(), JsNull::new(&mut cx).to_raw());
    let made = f.construct(&mut cx, &args, |env, _c, _given: &[Handle<JsNumber>]| {
        Some(env.create_object())
    });
    assert!(made.is_ok());
}

#[test]
fn too_many_arguments_never_reach_the_engine() {
    let mut cx = Env::new();
    let f = function(&mut cx);
    let a = JsUndefined::new(&mut cx);
    let args = vec![a; V8_ARGC_LIMIT + 1];
    let returned = f.call(&mut cx, a, &args, |_env, _c, _t, _given: &[Handle<JsUndefined>]| {
        panic!("the engine was asked")
    });
    assert!(returned.is_err());
    let thrown = cx.exception().unwrap();
    assert!(matches!(cx.get(thrown), Some(JsData::Error(ErrorKind::RangeError, _))));

    let mut call = f.args(());
    for _ in 0..=V8_ARGC_LIMIT {
        call.arg(a);
    }
    cx.clear_exception();
    assert!(call.exec(&mut cx, |_env, _c, _t, _args| panic!("the engine was asked")).is_err());
    assert!(cx.exception().is_some());
    cx.clear_exception();
    assert!(call.construct(&mut cx, |_env, _c, _args| panic!("the engine was asked")).is_err());
    assert!(cx.exception().is_some());
}

#[test]
fn builder_methods_chain() {
    let mut cx = Env::new();
    let f = function(&mut cx);
    let o = JsObject::new(&mut cx);
    let p = JsObject::new(&mut cx);
    let a = JsString::new(&mut cx, "a");
    let b = JsBoolean::new(&mut cx, true);
    let mut bound = f.this(o);
    bound.arg(a).arg(b).args((b, a)).this(p).arg(o);
    assert_eq!(bound.this_handle().to_raw(), p.to_raw());
    assert_eq!(
        raws(bound.argument_list()),
        vec![a.to_raw(), b.to_raw(), b.to_raw(), a.to_raw(), o.to_raw()]
    );
    let mut call = f.args(());
    let n = call
        .arg(a)
        .args((b,))
        .call::<JsNumber, _>(&mut cx, |env, _c, _t, args| Some(env.create_number(args.len() as u64)))
        .ok()
        .unwrap();
    assert_eq!(n.get().to_bits(&mut cx), 2);
}
