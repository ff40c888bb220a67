//! Function values, and the builders by which a call of one is put together.
//!
//! A call is assembled from parts: the function, the value of `this`, and the
//! arguments in their order. The arguments are kept in a vector that holds a
//! few of them without allocating.

use vstd::prelude::*;
use smallvec::SmallVec;
use std::marker::PhantomData;
use crate::env::{Env, EnvView, ErrorKind, JsData, JsDataView};
use crate::handle::{Handle, Managed};
use crate::raw::Local;
use crate::result::{NeonResult, Throw};
use crate::types::arguments::Arguments;
use crate::types::{downcast_or_thrown, JsObject, JsUndefined, JsValue, Object, Value, ValueInternal};

verus! {

broadcast use {Local::lemma_undefined_index, Local::lemma_index_injective};

/// The arguments of a call: a vector of `smallvec` that holds eight of them
/// without allocating. The verifier knows it by [`args_of`] alone.
#[verifier::external_body]
pub struct ArgsVec {
    items: SmallVec<[Handle<JsValue>; 8]>,
}

/// What a vector of arguments holds, first to last.
pub uninterp spec fn args_of(args: ArgsVec) -> Seq<Handle<JsValue>>;

/// `SmallVec::new`: the vector it makes holds nothing.
#[verifier::external_body]
fn args_new() -> (args: ArgsVec)
    ensures
        args_of(args) == Seq::<Handle<JsValue>>::empty(),
{
    ArgsVec { items: SmallVec::new() }
}

/// `SmallVec::push`: the value is appended, and what the vector held stays
/// before it in its order.
#[verifier::external_body]
pub(crate) fn args_push(args: &mut ArgsVec, value: Handle<JsValue>)
    ensures
        args_of(*final(args)) == args_of(*old(args)).push(value),
{
    args.items.push(value)
}

/// `SmallVec::as_slice`: the slice is what the vector holds, first to last.
#[verifier::external_body]
fn args_as_slice(args: &ArgsVec) -> (slice: &[Handle<JsValue>])
    ensures
        slice@ == args_of(*args),
{
    args.items.as_slice()
}

/// `SmallVec::clone`: the copy holds what the vector holds, in its order.
#[verifier::external_body]
fn args_clone(args: &ArgsVec) -> (copy: ArgsVec)
    ensures
        args_of(copy) == args_of(*args),
{
    ArgsVec { items: args.items.clone() }
}

/// A function object.
#[derive(Copy, Debug)]
pub struct JsFunction<T: Object = JsObject> {
    raw: Local,
    marker: PhantomData<T>,
}

impl<T: Object> Clone for JsFunction<T> {
    fn clone(&self) -> (copy: Self)
        ensures
            copy == *self,
    {
        *self
    }
}

impl<T: Object> Object for JsFunction<T> {

}

/// Maximum number of function arguments.
pub const V8_ARGC_LIMIT: usize = 65535;

/// Counts the arguments of a call that is about to be made. A call with more
/// than `V8_ARGC_LIMIT` arguments is not made: a `RangeError` that says so is
/// thrown instead.
pub fn prepare_call<A: Value>(cx: &mut Env, args: &[Handle<A>]) -> (argc: NeonResult<i32>)
    ensures
        args@.len() <= V8_ARGC_LIMIT ==> argc == Ok::<i32, crate::result::Throw>(args@.len() as i32)
            && final(cx)@ == old(cx)@,
        args@.len() > V8_ARGC_LIMIT ==> argc is Err && final(cx)@ == old(cx)@.thrown(
            too_many_arguments(),
        ),
        old(cx).wf() ==> final(cx).wf(),
{
    let argc = args.len();
    if argc > V8_ARGC_LIMIT {
        return cx.throw_range_error("too many arguments");
    }
    Ok(argc as i32)
}

/// Whether `returned` is what a call gives back when the engine answers
/// `answer`: a handle to the value that the engine hands over, or the sign
/// that the engine threw.
pub open spec fn answered<T: Managed>(returned: NeonResult<Handle<T>>, answer: Option<Local>) -> bool {
    match answer {
        Some(value) => returned matches Ok(handle) && handle.raw() == value,
        None => returned is Err,
    }
}

/// The error that is thrown in place of a call with too many arguments.
pub open spec fn too_many_arguments() -> JsDataView {
    JsDataView::Error(ErrorKind::RangeError, "too many arguments"@)
}

impl<CL: Object> JsFunction<CL> {
    fn do_call<T, A, E>(self, cx: &mut Env, this: Handle<T>, args: &[Handle<A>], engine: E) -> (returned:
        NeonResult<Handle<JsValue>>) where
        T: Value,
        A: Value,
        E: FnOnce(&mut Env, Local, Local, &[Handle<A>]) -> Option<Local>,

        requires
            args@.len() <= V8_ARGC_LIMIT ==> forall|e: &mut Env|
                e@ == old(cx)@ ==> call_requires(engine, (e, self.raw(), this.raw(), args)),
        ensures
            args@.len() > V8_ARGC_LIMIT ==> returned is Err && final(cx)@ == old(cx)@.thrown(
                too_many_arguments(),
            ),
            args@.len() <= V8_ARGC_LIMIT ==> exists|e: &mut Env, answer: Option<Local>|
                e@ == old(cx)@ && *final(e) == *final(cx) && call_ensures(
                    engine,
                    (e, self.raw(), this.raw(), args),
                    answer,
                ) && answered(returned, answer),
    {
        let _argc = prepare_call(cx, args)?;
        match engine(cx, self.to_raw(), this.to_raw(), args) {
            Some(value) => Ok(JsValue::new_internal(value)),
            None => Err(Throw),
        }
    }

    fn do_construct<A, E>(self, cx: &mut Env, args: &[Handle<A>], engine: E) -> (returned: NeonResult<
        Handle<CL>,
    >) where A: Value, E: FnOnce(&mut Env, Local, &[Handle<A>]) -> Option<Local>
        requires
            args@.len() <= V8_ARGC_LIMIT ==> forall|e: &mut Env|
                e@ == old(cx)@ ==> call_requires(engine, (e, self.raw(), args)),
        ensures
            args@.len() > V8_ARGC_LIMIT ==> returned is Err && final(cx)@ == old(cx)@.thrown(
                too_many_arguments(),
            ),
            args@.len() <= V8_ARGC_LIMIT ==> exists|e: &mut Env, answer: Option<Local>|
                e@ == old(cx)@ && *final(e) == *final(cx) && call_ensures(
                    engine,
                    (e, self.raw(), args),
                    answer,
                ) && answered(returned, answer),
    {
        let _argc = prepare_call(cx, args)?;
        match engine(cx, self.to_raw(), args) {
            Some(value) => Ok(Handle::new_internal(CL::from_raw(cx, value))),
            None => Err(Throw),
        }
    }

    /// Calls the function with a value of `this` and arguments.
    ///
    /// The call itself is made by `engine`, which stands for whatever runs
    /// the function: it is handed the environment, the function, `this` and
    /// the arguments, and answers with the value that the function returned,
    /// or with nothing where the function threw. It is not asked where there
    /// are more than `V8_ARGC_LIMIT` arguments: a `RangeError` is thrown
    /// then.
    pub fn call<T, A, E>(self, cx: &mut Env, this: Handle<T>, args: &[Handle<A>], engine: E) -> (returned:
        NeonResult<Handle<JsValue>>) where
        T: Value,
        A: Value,
        E: FnOnce(&mut Env, Local, Local, &[Handle<A>]) -> Option<Local>,

        requires
            args@.len() <= V8_ARGC_LIMIT ==> forall|e: &mut Env|
                e@ == old(cx)@ ==> call_requires(engine, (e, self.raw(), this.raw(), args)),
        ensures
            args@.len() > V8_ARGC_LIMIT ==> returned is Err && final(cx)@ == old(cx)@.thrown(
                too_many_arguments(),
            ),
            args@.len() <= V8_ARGC_LIMIT ==> exists|e: &mut Env, answer: Option<Local>|
                e@ == old(cx)@ && *final(e) == *final(cx) && call_ensures(
                    engine,
                    (e, self.raw(), this.raw(), args),
                    answer,
                ) && answered(returned, answer),
    {
        self.do_call(cx, this, args, engine)
    }

    /// Calls the function as a constructor. See [`JsFunction::call`] for
    /// `engine`, which here is handed no `this`.
    pub fn construct<A, E>(self, cx: &mut Env, args: &[Handle<A>], engine: E) -> (returned: NeonResult<
        Handle<CL>,
    >) where A: Value, E: FnOnce(&mut Env, Local, &[Handle<A>]) -> Option<Local>
        requires
            args@.len() <= V8_ARGC_LIMIT ==> forall|e: &mut Env|
                e@ == old(cx)@ ==> call_requires(engine, (e, self.raw(), args)),
        ensures
            args@.len() > V8_ARGC_LIMIT ==> returned is Err && final(cx)@ == old(cx)@.thrown(
                too_many_arguments(),
            ),
            args@.len() <= V8_ARGC_LIMIT ==> exists|e: &mut Env, answer: Option<Local>|
                e@ == old(cx)@ && *final(e) == *final(cx) && call_ensures(
                    engine,
                    (e, self.raw(), args),
                    answer,
                ) && answered(returned, answer),
    {
        self.do_construct(cx, args, engine)
    }
}

impl JsFunction {
    /// Build a [`Call`] with an initial single argument.
    pub fn arg<V: Value>(self, v: Handle<V>) -> (call: Call)
        ensures
            call.callee() == self.raw(),
            call.arguments() == seq![v.raw()],
    {
        let mut builder = Call { callee: Handle::new_internal(self), args: args_new() };
        builder.arg(v);
        proof {
            assert(builder.arguments() =~= seq![v.raw()]);
        }
        builder
    }

    /// Build a [`Call`] with an initial arguments list.
    pub fn args<A: Arguments>(self, args: A) -> (call: Call)
        ensures
            call.callee() == self.raw(),
            call.arguments() == args.raws(),
    {
        let mut builder = Call { callee: Handle::new_internal(self), args: args_new() };
        builder.args(args);
        proof {
            assert(builder.arguments() =~= args.raws());
        }
        builder
    }

    /// Build a [`FunctionCall`] with a `this` binding.
    pub fn this<V: Value>(self, this: Handle<V>) -> (call: FunctionCall)
        ensures
            call.callee() == self.raw(),
            call.this_value() == this.raw(),
            call.arguments() == Seq::<Local>::empty(),
    {
        let call = FunctionCall {
            callee: Handle::new_internal(self),
            this: this.upcast(),
            args: args_new(),
        };
        proof {
            assert(call.arguments() =~= Seq::<Local>::empty());
        }
        call
    }
}

impl<T: Object> Value for JsFunction<T> {

}

impl<T: Object> Managed for JsFunction<T> {
    closed spec fn raw(self) -> Local {
        self.raw
    }

    fn to_raw(self) -> Local {
        self.raw
    }

    fn from_raw(_env: &Env, h: Local) -> Self {
        JsFunction { raw: h, marker: PhantomData }
    }
}

impl<T: Object> ValueInternal for JsFunction<T> {
    open spec fn spec_name() -> Seq<char> {
        "function"@
    }

    fn name() -> String {
        "function".to_owned()
    }

    open spec fn is_type_of(env: EnvView, other: Local) -> bool {
        env.has(other) && env.data(other) is Function
    }

    fn is_typeof<Other: Managed>(env: &Env, other: Other) -> bool {
        match env.get(other.to_raw()) {
            Some(JsData::Function) => true,
            _ => false,
        }
    }
}

/// The raw handles of handles, in their order.
pub open spec fn raws_of(handles: Seq<Handle<JsValue>>) -> Seq<Local> {
    handles.map_values(|h: Handle<JsValue>| h.raw())
}

/// A builder for making a function call with a `this` binding.
pub struct FunctionCall {
    callee: Handle<JsFunction>,
    this: Handle<JsValue>,
    args: ArgsVec,
}

/// A builder for making either a function call or a constructor call.
pub struct Call {
    callee: Handle<JsFunction>,
    args: ArgsVec,
}

impl Clone for FunctionCall {
    fn clone(&self) -> (copy: Self)
        ensures
            copy.callee() == self.callee(),
            copy.this_value() == self.this_value(),
            copy.arguments() == self.arguments(),
    {
        FunctionCall { callee: self.callee, this: self.this, args: args_clone(&self.args) }
    }
}

impl Clone for Call {
    fn clone(&self) -> (copy: Self)
        ensures
            copy.callee() == self.callee(),
            copy.arguments() == self.arguments(),
    {
        Call { callee: self.callee, args: args_clone(&self.args) }
    }
}

impl FunctionCall {
    /// The function that is to be called.
    pub closed spec fn callee(self) -> Local {
        self.callee.raw()
    }

    /// The value that `this` is to be in the call.
    pub closed spec fn this_value(self) -> Local {
        self.this.raw()
    }

    /// The arguments of the call, first to last.
    pub closed spec fn arguments(self) -> Seq<Local> {
        raws_of(args_of(self.args))
    }

    /// Set the value of `this` for the function call.
    pub fn this<V: Value>(&mut self, this: Handle<V>) -> (builder: &mut Self)
        ensures
            builder.this_value() == this.raw(),
            builder.callee() == old(self).callee(),
            builder.arguments() == old(self).arguments(),
            *final(self) == *final(builder),
    {
        self.this = this.upcast();
        self
    }

    /// Add an argument to the arguments list.
    pub fn arg<V: Value>(&mut self, arg: Handle<V>) -> (builder: &mut Self)
        ensures
            builder.arguments() == old(self).arguments().push(arg.raw()),
            builder.callee() == old(self).callee(),
            builder.this_value() == old(self).this_value(),
            *final(self) == *final(builder),
    {
        args_push(&mut self.args, arg.upcast());
        proof {
            assert(self.arguments() =~= old(self).arguments().push(arg.raw()));
        }
        self
    }

    /// Add multiple arguments to the arguments list.
    pub fn args<A: Arguments>(&mut self, args: A) -> (builder: &mut Self)
        ensures
            builder.arguments() == old(self).arguments() + args.raws(),
            builder.callee() == old(self).callee(),
            builder.this_value() == old(self).this_value(),
            *final(self) == *final(builder),
    {
        args.append(&mut self.args);
        self
    }

    /// Make the function call. If the function returns without throwing, the
    /// result value is downcast to the type `V`, throwing a `TypeError` if
    /// the downcast fails. See [`JsFunction::call`] for `engine`.
    pub fn call<V, E>(&self, cx: &mut Env, engine: E) -> (returned: NeonResult<Handle<V>>) where
        V: Value,
        E: FnOnce(&mut Env, Local, Local, &[Handle<JsValue>]) -> Option<Local>,

        requires
            self.arguments().len() <= V8_ARGC_LIMIT ==> forall|
                e: &mut Env,
                args: &[Handle<JsValue>],
            |
                e@ == old(cx)@ && raws_of(args@) == self.arguments() ==> call_requires(
                    engine,
                    (e, self.callee(), self.this_value(), args),
                ),
        ensures
            self.arguments().len() > V8_ARGC_LIMIT ==> returned is Err && final(cx)@ == old(
                cx,
            )@.thrown(too_many_arguments()),
            self.arguments().len() <= V8_ARGC_LIMIT ==> exists|
                e: &mut Env,
                args: &[Handle<JsValue>],
                answer: Option<Local>,
            |
                {
                    &&& e@ == old(cx)@
                    &&& raws_of(args@) == self.arguments()
                    &&& call_ensures(engine, (e, self.callee(), self.this_value(), args), answer)
                    &&& match answer {
                        Some(value) => downcast_or_thrown::<JsValue, V>(
                            final(e)@,
                            value,
                            returned,
                            final(cx)@,
                        ),
                        None => returned is Err && final(cx)@ == final(e)@,
                    }
                },
    {
        let callee = self.callee.get();
        let args = args_as_slice(&self.args);
        assert(raws_of(args@).len() == args@.len());
        if args.len() <= V8_ARGC_LIMIT {
            assert forall|e: &mut Env| e@ == cx@ implies call_requires(
                engine,
                (e, callee.raw(), self.this.raw(), args),
            ) by {
                assert(call_requires(engine, (e, self.callee(), self.this_value(), args)));
            }
        }
        let v: Handle<JsValue> = callee.do_call(cx, self.this, args, engine)?;
        v.downcast_or_throw(cx)
    }

    /// Make the function call for side effect, discarding the result value.
    /// See [`JsFunction::call`] for `engine`.
    pub fn exec<E>(&self, cx: &mut Env, engine: E) -> (returned: NeonResult<()>) where
        E: FnOnce(&mut Env, Local, Local, &[Handle<JsValue>]) -> Option<Local>,

        requires
            self.arguments().len() <= V8_ARGC_LIMIT ==> forall|
                e: &mut Env,
                args: &[Handle<JsValue>],
            |
                e@ == old(cx)@ && raws_of(args@) == self.arguments() ==> call_requires(
                    engine,
                    (e, self.callee(), self.this_value(), args),
                ),
        ensures
            self.arguments().len() > V8_ARGC_LIMIT ==> returned is Err && final(cx)@ == old(
                cx,
            )@.thrown(too_many_arguments()),
            self.arguments().len() <= V8_ARGC_LIMIT ==> exists|
                e: &mut Env,
                args: &[Handle<JsValue>],
                answer: Option<Local>,
            |
                {
                    &&& e@ == old(cx)@
                    &&& *final(e) == *final(cx)
                    &&& raws_of(args@) == self.arguments()
                    &&& call_ensures(engine, (e, self.callee(), self.this_value(), args), answer)
                    &&& returned is Ok <==> answer is Some
                },
    {
        let callee = self.callee.get();
        let args = args_as_slice(&self.args);
        assert(raws_of(args@).len() == args@.len());
        if args.len() <= V8_ARGC_LIMIT {
            assert forall|e: &mut Env| e@ == cx@ implies call_requires(
                engine,
                (e, callee.raw(), self.this.raw(), args),
            ) by {
                assert(call_requires(engine, (e, self.callee(), self.this_value(), args)));
            }
        }
        let _: Handle<JsValue> = callee.do_call(cx, self.this, args, engine)?;
        Ok(())
    }

    /// The function that is to be called.
    pub fn function(&self) -> (callee: Handle<JsFunction>)
        ensures
            callee.raw() == self.callee(),
    {
        self.callee
    }

    /// The value that `this` is to be in the call.
    pub fn this_handle(&self) -> (this: Handle<JsValue>)
        ensures
            this.raw() == self.this_value(),
    {
        self.this
    }

    /// The arguments of the call, first to last.
    pub fn argument_list(&self) -> (args: &[Handle<JsValue>])
        ensures
            raws_of(args@) == self.arguments(),
    {
        args_as_slice(&self.args)
    }
}

impl Call {
    /// The function that is to be called.
    pub closed spec fn callee(self) -> Local {
        self.callee.raw()
    }

    /// The arguments of the call, first to last.
    pub closed spec fn arguments(self) -> Seq<Local> {
        raws_of(args_of(self.args))
    }

    /// Set the value of `this` for the function call. Once a call has a
    /// `this` binding specified, it is required to be a [`FunctionCall`].
    pub fn this<V: Value>(self, this: Handle<V>) -> (call: FunctionCall)
        ensures
            call.callee() == self.callee(),
            call.this_value() == this.raw(),
            call.arguments() == self.arguments(),
    {
        FunctionCall { callee: self.callee, this: this.upcast(), args: self.args }
    }

    /// Add an argument to the arguments list.
    pub fn arg<V: Value>(&mut self, arg: Handle<V>) -> (builder: &mut Self)
        ensures
            builder.arguments() == old(self).arguments().push(arg.raw()),
            builder.callee() == old(self).callee(),
            *final(self) == *final(builder),
    {
        args_push(&mut self.args, arg.upcast());
        proof {
            assert(self.arguments() =~= old(self).arguments().push(arg.raw()));
        }
        self
    }

    /// Add multiple arguments to the arguments list.
    pub fn args<A: Arguments>(&mut self, args: A) -> (builder: &mut Self)
        ensures
            builder.arguments() == old(self).arguments() + args.raws(),
            builder.callee() == old(self).callee(),
            *final(self) == *final(builder),
    {
        args.append(&mut self.args);
        self
    }

    /// Call the function as a constructor. If the function returns without
    /// throwing, returns the resulting object. See [`JsFunction::construct`]
    /// for `engine`.
    pub fn construct<E>(&self, cx: &mut Env, engine: E) -> (returned: NeonResult<Handle<JsObject>>) where
        E: FnOnce(&mut Env, Local, &[Handle<JsValue>]) -> Option<Local>,

        requires
            self.arguments().len() <= V8_ARGC_LIMIT ==> forall|
                e: &mut Env,
                args: &[Handle<JsValue>],
            |
                e@ == old(cx)@ && raws_of(args@) == self.arguments() ==> call_requires(
                    engine,
                    (e, self.callee(), args),
                ),
        ensures
            self.arguments().len() > V8_ARGC_LIMIT ==> returned is Err && final(cx)@ == old(
                cx,
            )@.thrown(too_many_arguments()),
            self.arguments().len() <= V8_ARGC_LIMIT ==> exists|
                e: &mut Env,
                args: &[Handle<JsValue>],
                answer: Option<Local>,
            |
                {
                    &&& e@ == old(cx)@
                    &&& *final(e) == *final(cx)
                    &&& raws_of(args@) == self.arguments()
                    &&& call_ensures(engine, (e, self.callee(), args), answer)
                    &&& answered(returned, answer)
                },
    {
        let callee = self.callee.get();
        let args = args_as_slice(&self.args);
        assert(raws_of(args@).len() == args@.len());
        if args.len() <= V8_ARGC_LIMIT {
            assert forall|e: &mut Env| e@ == cx@ implies call_requires(
                engine,
                (e, callee.raw(), args),
            ) by {
                assert(call_requires(engine, (e, self.callee(), args)));
            }
        }
        callee.do_construct(cx, args, engine)
    }

    /// Make the function call, with `undefined` for `this`. If the function
    /// returns without throwing, the result value is downcast to the type
    /// `V`, throwing a `TypeError` if the downcast fails. See
    /// [`JsFunction::call`] for `engine`.
    pub fn call<V, E>(&self, cx: &mut Env, engine: E) -> (returned: NeonResult<Handle<V>>) where
        V: Value,
        E: FnOnce(&mut Env, Local, Local, &[Handle<JsValue>]) -> Option<Local>,

        requires
            self.arguments().len() <= V8_ARGC_LIMIT ==> forall|
                e: &mut Env,
                args: &[Handle<JsValue>],
            |
                e@ == old(cx)@ && raws_of(args@) == self.arguments() ==> call_requires(
                    engine,
                    (e, self.callee(), Local::undefined(), args),
                ),
        ensures
            self.arguments().len() > V8_ARGC_LIMIT ==> returned is Err && final(cx)@ == old(
                cx,
            )@.thrown(too_many_arguments()),
            self.arguments().len() <= V8_ARGC_LIMIT ==> exists|
                e: &mut Env,
                args: &[Handle<JsValue>],
                answer: Option<Local>,
            |
                {
                    &&& e@ == old(cx)@
                    &&& raws_of(args@) == self.arguments()
                    &&& call_ensures(engine, (e, self.callee(), Local::undefined(), args), answer)
                    &&& match answer {
                        Some(value) => downcast_or_thrown::<JsValue, V>(
                            final(e)@,
                            value,
                            returned,
                            final(cx)@,
                        ),
                        None => returned is Err && final(cx)@ == final(e)@,
                    }
                },
    {
        let undefined: Handle<JsValue> = JsUndefined::new(cx).upcast();
        let callee = self.callee.get();
        let args = args_as_slice(&self.args);
        assert(raws_of(args@).len() == args@.len());
        assert(undefined.raw() == Local::undefined());
        if args.len() <= V8_ARGC_LIMIT {
            assert forall|e: &mut Env| e@ == cx@ implies call_requires(
                engine,
                (e, callee.raw(), undefined.raw(), args),
            ) by {
                assert(call_requires(engine, (e, self.callee(), Local::undefined(), args)));
            }
        }
        let v: Handle<JsValue> = callee.do_call(cx, undefined, args, engine)?;
        v.downcast_or_throw(cx)
    }

    /// Make the function call for side effect, with `undefined` for `this`,
    /// discarding the result value. See [`JsFunction::call`] for `engine`.
    pub fn exec<E>(&self, cx: &mut Env, engine: E) -> (returned: NeonResult<()>) where
        E: FnOnce(&mut Env, Local, Local, &[Handle<JsValue>]) -> Option<Local>,

        requires
            self.arguments().len() <= V8_ARGC_LIMIT ==> forall|
                e: &mut Env,
                args: &[Handle<JsValue>],
            |
                e@ == old(cx)@ && raws_of(args@) == self.arguments() ==> call_requires(
                    engine,
                    (e, self.callee(), Local::undefined(), args),
                ),
        ensures
            self.arguments().len() > V8_ARGC_LIMIT ==> returned is Err && final(cx)@ == old(
                cx,
            )@.thrown(too_many_arguments()),
            self.arguments().len() <= V8_ARGC_LIMIT ==> exists|
                e: &mut Env,
                args: &[Handle<JsValue>],
                answer: Option<Local>,
            |
                {
                    &&& e@ == old(cx)@
                    &&& *final(e) == *final(cx)
                    &&& raws_of(args@) == self.arguments()
                    &&& call_ensures(engine, (e, self.callee(), Local::undefined(), args), answer)
                    &&& returned is Ok <==> answer is Some
                },
    {
        let undefined: Handle<JsValue> = JsUndefined::new(cx).upcast();
        let callee = self.callee.get();
        let args = args_as_slice(&self.args);
        assert(raws_of(args@).len() == args@.len());
        assert(undefined.raw() == Local::undefined());
        if args.len() <= V8_ARGC_LIMIT {
            assert forall|e: &mut Env| e@ == cx@ implies call_requires(
                engine,
                (e, callee.raw(), undefined.raw(), args),
            ) by {
                assert(call_requires(engine, (e, self.callee(), Local::undefined(), args)));
            }
        }
        let _: Handle<JsValue> = callee.do_call(cx, undefined, args, engine)?;
        Ok(())
    }

    /// The function that is to be called.
    pub fn function(&self) -> (callee: Handle<JsFunction>)
        ensures
            callee.raw() == self.callee(),
    {
        self.callee
    }

    /// The arguments of the call, first to last.
    pub fn argument_list(&self) -> (args: &[Handle<JsValue>])
        ensures
            raws_of(args@) == self.arguments(),
    {
        args_as_slice(&self.args)
    }
}

} // verus!
