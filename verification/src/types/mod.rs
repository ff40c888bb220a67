//! Representations of the runtime's core builtin types.
//!
//! Every type here is a raw handle under a name; what the handle names is
//! kept by the environment. By convention the types have the prefix `Js` in
//! their name.

pub mod arguments;
pub mod function;

use vstd::prelude::*;
use vstd::string::StringSliceAdditionalSpecFns;
use vstd::string::StringExecFns;
use crate::env::{Env, EnvView, ErrorKind, JsData, JsDataView, FALSE, NULL, TRUE, UNDEFINED};
use crate::handle::{Handle, Managed, SuperType};
use crate::raw::Local;
use crate::result::{JsResult, NeonResult, Throw};

pub use self::arguments::Arguments;
pub use self::function::{ArgsVec, Call, FunctionCall, JsFunction};

verus! {

broadcast use {Local::lemma_undefined_index, Local::lemma_index_injective};

/// What each type of values says of itself.
pub trait ValueInternal: Managed {
    /// The name of the type.
    spec fn spec_name() -> Seq<char>;

    fn name() -> (name: String)
        ensures
            name@ == Self::spec_name(),
    ;

    /// Whether a raw handle names a value of the type.
    spec fn is_type_of(env: EnvView, other: Local) -> bool;

    fn is_typeof<Other: Managed>(env: &Env, other: Other) -> (is: bool)
        ensures
            is == Self::is_type_of(env@, other.raw()),
    ;
}

/// The trait shared by all values of the runtime.
pub trait Value: ValueInternal {
    /// The value as a string.
    ///
    /// The conversion itself is made by `engine`, which stands for whatever
    /// runs the runtime's code: it is handed the environment and the value,
    /// and answers with the string, or with nothing where the conversion
    /// threw.
    fn to_string<E: FnOnce(&mut Env, Local) -> Option<Local>>(self, cx: &mut Env, engine: E) -> (string:
        JsResult<JsString>)
        requires
            forall|e: &mut Env| e@ == old(cx)@ ==> #[trigger] call_requires(engine, (e, self.raw())),
        ensures
            exists|e: &mut Env, answer: Option<Local>|
                e@ == old(cx)@ && *final(e) == *final(cx) && call_ensures(
                    engine,
                    (e, self.raw()),
                    answer,
                ) && match answer {
                    Some(value) => string matches Ok(handle) && handle.raw() == value,
                    None => string is Err,
                },
    {
        let raw = self.to_raw();
        assert forall|e: &mut Env| e@ == cx@ implies #[trigger] call_requires(engine, (e, raw)) by {
            assert(call_requires(engine, (e, self.raw())));
        }
        match engine(cx, raw) {
            Some(value) => Ok(Handle::new_internal(JsString(value))),
            None => Err(Throw),
        }
    }

    fn as_value(self, cx: &mut Env) -> (value: Handle<JsValue>)
        ensures
            value.raw() == self.raw(),
            final(cx)@ == old(cx)@,
    {
        let _ = cx;
        JsValue::new_internal(self.to_raw())
    }
}

/// The trait of all object types.
pub trait Object: Value {
    /// The element at an index: `undefined` where there is none.
    fn get(self, cx: &mut Env, key: u32) -> (element: NeonResult<Handle<JsValue>>)
        ensures
            element matches Ok(handle) && handle.raw() == old(cx)@.element(self.raw(), key as int),
            final(cx)@ == old(cx)@,
    {
        Ok(JsValue::new_internal(cx.get_index(self.to_raw(), key)))
    }
}

/// The trait of types that the value of `this` in a call may be asked to
/// have.
pub trait This: Managed {
    /// The raw handle of `this` as a value of the type, given the raw handle
    /// that the call was made with.
    spec fn this_of(h: Local) -> Local;

    fn as_this(env: &Env, h: Local) -> (this: Self)
        ensures
            this.raw() == Self::this_of(h),
    ;
}

/// The words of the `TypeError` that a failed downcast throws.
pub open spec fn downcast_message<F: Value, T: Value>() -> Seq<char> {
    "failed to downcast "@ + F::spec_name() + " to "@ + T::spec_name()
}

/// The result of a downcast of `value` to `U`, and the environment after
/// it: the handle and the environment as it was, where the value is a `U`;
/// otherwise a `TypeError` thrown.
pub open spec fn downcast_or_thrown<F: Value, U: Value>(
    before: EnvView,
    value: Local,
    cast: JsResult<U>,
    after: EnvView,
) -> bool {
    if U::is_type_of(before, value) {
        cast matches Ok(handle) && handle.raw() == value && after == before
    } else {
        cast is Err && after == before.thrown(
            JsDataView::Error(ErrorKind::TypeError, downcast_message::<F, U>()),
        )
    }
}

impl<T: Value> Handle<T> {
    /// Tests whether this value is an instance of the given type.
    pub fn is_a<U: Value>(&self, cx: &mut Env) -> (is: bool)
        ensures
            is == U::is_type_of(old(cx)@, self.raw()),
            final(cx)@ == old(cx)@,
    {
        U::is_typeof(cx, self.get())
    }

    /// Attempts to downcast a handle to another type, which may fail: a
    /// `TypeError` is then thrown.
    pub fn downcast_or_throw<U: Value>(&self, cx: &mut Env) -> (cast: JsResult<U>)
        ensures
            downcast_or_thrown::<T, U>(old(cx)@, self.raw(), cast, final(cx)@),
            old(cx).wf() ==> final(cx).wf(),
    {
        if U::is_typeof(cx, self.get()) {
            Ok(Handle::new_internal(U::from_raw(cx, self.to_raw())))
        } else {
            let message = String::from_str("failed to downcast ").concat(T::name().as_str()).concat(
                " to ",
            ).concat(U::name().as_str());
            cx.throw_type_error(message.as_str())
        }
    }
}

impl<T: Value> SuperType<T> for JsValue {
    fn upcast_internal(v: T) -> JsValue {
        JsValue(v.to_raw())
    }
}

impl<T: Object> SuperType<T> for JsObject {
    fn upcast_internal(v: T) -> JsObject {
        JsObject(v.to_raw())
    }
}

/// A value of any type.
#[derive(Clone, Copy, Debug)]
pub struct JsValue(Local);

impl Value for JsValue {

}

impl Managed for JsValue {
    closed spec fn raw(self) -> Local {
        self.0
    }

    fn to_raw(self) -> Local {
        self.0
    }

    fn from_raw(_env: &Env, h: Local) -> Self {
        JsValue(h)
    }
}

impl This for JsValue {
    open spec fn this_of(h: Local) -> Local {
        h
    }

    fn as_this(_env: &Env, h: Local) -> Self {
        JsValue(h)
    }
}

impl ValueInternal for JsValue {
    open spec fn spec_name() -> Seq<char> {
        "any"@
    }

    fn name() -> String {
        "any".to_owned()
    }

    open spec fn is_type_of(env: EnvView, other: Local) -> bool {
        true
    }

    fn is_typeof<Other: Managed>(_env: &Env, _other: Other) -> bool {
        true
    }
}

impl JsValue {
    pub fn new_internal(value: Local) -> (handle: Handle<JsValue>)
        ensures
            handle.raw() == value,
    {
        Handle::new_internal(JsValue(value))
    }
}

/// The `undefined` value.
#[derive(Clone, Copy, Debug)]
pub struct JsUndefined(Local);

impl JsUndefined {
    /// A handle to `undefined`. The environment is as it was.
    pub fn new(cx: &mut Env) -> (handle: Handle<JsUndefined>)
        ensures
            handle.raw().index() == UNDEFINED,
            final(cx)@ == old(cx)@,
    {
        JsUndefined::new_internal(cx)
    }

    pub fn new_internal(env: &Env) -> (handle: Handle<JsUndefined>)
        ensures
            handle.raw().index() == UNDEFINED,
    {
        Handle::new_internal(JsUndefined(env.undefined()))
    }
}

impl JsUndefined {
    fn as_this_compat(env: &Env, _h: Local) -> (this: Self)
        ensures
            this.raw() == Local::undefined(),
    {
        JsUndefined(env.undefined())
    }
}

impl This for JsUndefined {
    open spec fn this_of(h: Local) -> Local {
        Local::undefined()
    }

    fn as_this(env: &Env, h: Local) -> Self {
        JsUndefined::as_this_compat(env, h)
    }
}

impl Value for JsUndefined {

}

impl Managed for JsUndefined {
    closed spec fn raw(self) -> Local {
        self.0
    }

    fn to_raw(self) -> Local {
        self.0
    }

    fn from_raw(_env: &Env, h: Local) -> Self {
        JsUndefined(h)
    }
}

impl ValueInternal for JsUndefined {
    open spec fn spec_name() -> Seq<char> {
        "undefined"@
    }

    fn name() -> String {
        "undefined".to_owned()
    }

    open spec fn is_type_of(env: EnvView, other: Local) -> bool {
        env.has(other) && env.data(other) is Undefined
    }

    fn is_typeof<Other: Managed>(env: &Env, other: Other) -> bool {
        match env.get(other.to_raw()) {
            Some(JsData::Undefined) => true,
            _ => false,
        }
    }
}

/// The `null` value.
#[derive(Clone, Copy, Debug)]
pub struct JsNull(Local);

impl JsNull {
    /// A handle to `null`. The environment is as it was.
    pub fn new(cx: &mut Env) -> (handle: Handle<JsNull>)
        ensures
            handle.raw().index() == NULL,
            final(cx)@ == old(cx)@,
    {
        JsNull::new_internal(cx)
    }

    pub fn new_internal(env: &Env) -> (handle: Handle<JsNull>)
        ensures
            handle.raw().index() == NULL,
    {
        Handle::new_internal(JsNull(env.null()))
    }
}

impl Value for JsNull {

}

impl Managed for JsNull {
    closed spec fn raw(self) -> Local {
        self.0
    }

    fn to_raw(self) -> Local {
        self.0
    }

    fn from_raw(_env: &Env, h: Local) -> Self {
        JsNull(h)
    }
}

impl ValueInternal for JsNull {
    open spec fn spec_name() -> Seq<char> {
        "null"@
    }

    fn name() -> String {
        "null".to_owned()
    }

    open spec fn is_type_of(env: EnvView, other: Local) -> bool {
        env.has(other) && env.data(other) is Null
    }

    fn is_typeof<Other: Managed>(env: &Env, other: Other) -> bool {
        match env.get(other.to_raw()) {
            Some(JsData::Null) => true,
            _ => false,
        }
    }
}

/// A boolean primitive value.
#[derive(Clone, Copy, Debug)]
pub struct JsBoolean(Local);

impl JsBoolean {
    /// A handle to `true` or to `false`. The environment is as it was.
    pub fn new(cx: &mut Env, b: bool) -> (handle: Handle<JsBoolean>)
        ensures
            handle.raw().index() == (if b {
                TRUE
            } else {
                FALSE
            }),
            final(cx)@ == old(cx)@,
    {
        JsBoolean::new_internal(cx, b)
    }

    pub fn new_internal(env: &Env, b: bool) -> (handle: Handle<JsBoolean>)
        ensures
            handle.raw().index() == (if b {
                TRUE
            } else {
                FALSE
            }),
    {
        Handle::new_internal(JsBoolean(env.boolean(b)))
    }

    /// The boolean that the handle names.
    pub fn value(self, cx: &mut Env) -> (b: bool)
        requires
            JsBoolean::is_type_of(old(cx)@, self.raw()),
        ensures
            old(cx)@.data(self.raw()) == JsDataView::Boolean(b),
            final(cx)@ == old(cx)@,
    {
        match cx.get(self.0) {
            Some(JsData::Boolean(b)) => *b,
            _ => false,
        }
    }
}

impl Value for JsBoolean {

}

impl Managed for JsBoolean {
    closed spec fn raw(self) -> Local {
        self.0
    }

    fn to_raw(self) -> Local {
        self.0
    }

    fn from_raw(_env: &Env, h: Local) -> Self {
        JsBoolean(h)
    }
}

impl ValueInternal for JsBoolean {
    open spec fn spec_name() -> Seq<char> {
        "boolean"@
    }

    fn name() -> String {
        "boolean".to_owned()
    }

    open spec fn is_type_of(env: EnvView, other: Local) -> bool {
        env.has(other) && env.data(other) is Boolean
    }

    fn is_typeof<Other: Managed>(env: &Env, other: Other) -> bool {
        match env.get(other.to_raw()) {
            Some(JsData::Boolean(_)) => true,
            _ => false,
        }
    }
}

/// A string primitive value.
#[derive(Clone, Copy, Debug)]
pub struct JsString(Local);

/// An error produced when constructing a string that exceeds the maximum
/// string size. It holds the size that was asked for, in bytes.
#[derive(PartialEq, Eq, PartialOrd, Ord, Clone, Debug)]
pub struct StringOverflow(pub usize);

impl StringOverflow {
    /// The error in words: that the size is out of range, and the size in
    /// decimal digits.
    pub fn to_string(&self) -> (message: String)
        ensures
            is_overflow_message(*self, message@),
    {
        let digits = self.0.to_string();
        String::from_str("string size out of range: ").concat(digits.as_str())
    }
}

/// Whether `message` says of an overflow that its size is out of range: the
/// words, and then the size as `usize` displays it.
pub open spec fn is_overflow_message(overflow: StringOverflow, message: Seq<char>) -> bool {
    exists|digits: String|
        #[trigger] vstd::string::to_string_from_display_ensures::<usize>(&overflow.0, digits)
            && message == "string size out of range: "@ + digits@
}

/// The result of constructing a new `JsString`.
pub type StringResult = Result<Handle<JsString>, StringOverflow>;

/// What can be done with a result whose error is not yet an exception.
pub trait JsResultExt<V: Value> {
    /// The error that `or_throw` throws for this result, if it throws.
    spec fn throws(self, error: JsDataView) -> bool;

    /// The handle that the result holds, if it holds one.
    spec fn handle(self) -> Option<Handle<V>>;

    /// Hands a handle on, and throws an error as an exception.
    fn or_throw(self, cx: &mut Env) -> (thrown: JsResult<V>)
        ensures
            self.handle() matches Some(handle) ==> thrown == Ok::<Handle<V>, Throw>(handle)
                && final(cx)@ == old(cx)@,
            self.handle() is None ==> thrown is Err && exists|error: JsDataView|
                #[trigger] self.throws(error) && final(cx)@ == old(cx)@.thrown(error),
            old(cx).wf() ==> final(cx).wf(),
    ;
}

impl JsResultExt<JsString> for StringResult {
    open spec fn throws(self, error: JsDataView) -> bool {
        self matches Err(overflow) && error matches JsDataView::Error(kind, message)
            && kind == ErrorKind::RangeError && is_overflow_message(overflow, message)
    }

    open spec fn handle(self) -> Option<Handle<JsString>> {
        match self {
            Ok(handle) => Some(handle),
            Err(_) => None,
        }
    }

    fn or_throw(self, cx: &mut Env) -> (thrown: JsResult<JsString>) {
        match self {
            Ok(v) => Ok(v),
            Err(e) => {
                let message = e.to_string();
                let thrown = cx.throw_range_error(message.as_str());
                proof {
                    assert(self.throws(JsDataView::Error(ErrorKind::RangeError, message@)));
                }
                thrown
            },
        }
    }
}

/// The size in bytes below which a string can be made.
pub const MAX_STRING_SIZE: usize = 0x7fff_ffff;

impl Value for JsString {

}

impl Managed for JsString {
    closed spec fn raw(self) -> Local {
        self.0
    }

    fn to_raw(self) -> Local {
        self.0
    }

    fn from_raw(_env: &Env, h: Local) -> Self {
        JsString(h)
    }
}

impl ValueInternal for JsString {
    open spec fn spec_name() -> Seq<char> {
        "string"@
    }

    fn name() -> String {
        "string".to_owned()
    }

    open spec fn is_type_of(env: EnvView, other: Local) -> bool {
        env.has(other) && env.data(other) is String
    }

    fn is_typeof<Other: Managed>(env: &Env, other: Other) -> bool {
        match env.get(other.to_raw()) {
            Some(JsData::String(_)) => true,
            _ => false,
        }
    }
}

impl JsString {
    /// The size of the string in bytes of UTF-8, or the largest `isize` where
    /// that is less.
    pub fn size(self, cx: &mut Env) -> (size: isize)
        requires
            JsString::is_type_of(old(cx)@, self.raw()),
        ensures
            old(cx)@.data(self.raw()) matches JsDataView::String(s) && size == (if encoded_len(s)
                <= isize::MAX {
                encoded_len(s) as int
            } else {
                isize::MAX as int
            }),
            final(cx)@ == old(cx)@,
    {
        match cx.get(self.0) {
            Some(JsData::String(s)) => {
                let len = s.as_str().len();
                if len <= isize::MAX as usize {
                    len as isize
                } else {
                    isize::MAX
                }
            },
            _ => 0,
        }
    }

    /// The string that the handle names.
    pub fn value(self, cx: &mut Env) -> (value: String)
        requires
            JsString::is_type_of(old(cx)@, self.raw()),
        ensures
            old(cx)@.data(self.raw()) == JsDataView::String(value@),
            final(cx)@ == old(cx)@,
    {
        match cx.get(self.0) {
            Some(JsData::String(s)) => s.clone(),
            _ => String::new(),
        }
    }

    /// Makes a string, which must be small enough: see [`JsString::try_new`].
    pub fn new(cx: &mut Env, val: &str) -> (handle: Handle<JsString>)
        requires
            encoded_len(val@) < MAX_STRING_SIZE,
        ensures
            handle.raw().index() == old(cx)@.values.len(),
            final(cx)@ == old(cx)@.with_value(JsDataView::String(val@)),
            old(cx).wf() ==> final(cx).wf(),
    {
        JsString::try_new(cx, val).unwrap()
    }

    /// Makes a string, unless its size in bytes of UTF-8 reaches
    /// [`MAX_STRING_SIZE`]; the error then holds the size, and the
    /// environment is as it was.
    pub fn try_new(cx: &mut Env, val: &str) -> (made: StringResult)
        ensures
            encoded_len(val@) < MAX_STRING_SIZE ==> {
                &&& made matches Ok(handle)
                &&& handle.raw().index() == old(cx)@.values.len()
                &&& final(cx)@ == old(cx)@.with_value(JsDataView::String(val@))
            },
            encoded_len(val@) >= MAX_STRING_SIZE ==> {
                &&& made matches Err(overflow)
                &&& overflow.0 == encoded_len(val@)
                &&& final(cx)@ == old(cx)@
            },
            old(cx).wf() ==> final(cx).wf(),
    {
        match JsString::new_internal(cx, val) {
            Some(s) => Ok(s),
            None => Err(StringOverflow(val.len())),
        }
    }

    pub fn new_internal(env: &mut Env, val: &str) -> (made: Option<Handle<JsString>>)
        ensures
            encoded_len(val@) < MAX_STRING_SIZE ==> {
                &&& made matches Some(handle)
                &&& handle.raw().index() == old(env)@.values.len()
                &&& final(env)@ == old(env)@.with_value(JsDataView::String(val@))
            },
            encoded_len(val@) >= MAX_STRING_SIZE ==> made is None && final(env)@ == old(env)@,
            old(env).wf() ==> final(env).wf(),
    {
        if val.len() < MAX_STRING_SIZE {
            Some(Handle::new_internal(JsString(env.create_string(val))))
        } else {
            None
        }
    }
}

/// The size of a string in bytes of UTF-8, as `str::len` gives it.
pub open spec fn encoded_len(s: Seq<char>) -> usize {
    vstd::utf8::encode_utf8(s).len() as usize
}

/// A number value.
#[derive(Clone, Copy, Debug)]
pub struct JsNumber(Local);

impl JsNumber {
    /// Makes a number from the bits of its IEEE 754 double.
    pub fn from_bits(cx: &mut Env, bits: u64) -> (handle: Handle<JsNumber>)
        ensures
            handle.raw().index() == old(cx)@.values.len(),
            final(cx)@ == old(cx)@.with_value(JsDataView::Number(bits)),
            old(cx).wf() ==> final(cx).wf(),
    {
        Handle::new_internal(JsNumber(cx.create_number(bits)))
    }

    /// The bits of the IEEE 754 double of the number that the handle names.
    pub fn to_bits(self, cx: &mut Env) -> (bits: u64)
        requires
            JsNumber::is_type_of(old(cx)@, self.raw()),
        ensures
            old(cx)@.data(self.raw()) == JsDataView::Number(bits),
            final(cx)@ == old(cx)@,
    {
        match cx.get(self.0) {
            Some(JsData::Number(bits)) => *bits,
            _ => 0,
        }
    }
}

impl Value for JsNumber {

}

impl Managed for JsNumber {
    closed spec fn raw(self) -> Local {
        self.0
    }

    fn to_raw(self) -> Local {
        self.0
    }

    fn from_raw(_env: &Env, h: Local) -> Self {
        JsNumber(h)
    }
}

impl ValueInternal for JsNumber {
    open spec fn spec_name() -> Seq<char> {
        "number"@
    }

    fn name() -> String {
        "number".to_owned()
    }

    open spec fn is_type_of(env: EnvView, other: Local) -> bool {
        env.has(other) && env.data(other) is Number
    }

    fn is_typeof<Other: Managed>(env: &Env, other: Other) -> bool {
        match env.get(other.to_raw()) {
            Some(JsData::Number(_)) => true,
            _ => false,
        }
    }
}

/// An object.
#[derive(Clone, Copy, Debug)]
pub struct JsObject(Local);

impl Value for JsObject {

}

impl Managed for JsObject {
    closed spec fn raw(self) -> Local {
        self.0
    }

    fn to_raw(self) -> Local {
        self.0
    }

    fn from_raw(_env: &Env, h: Local) -> Self {
        JsObject(h)
    }
}

impl This for JsObject {
    open spec fn this_of(h: Local) -> Local {
        h
    }

    fn as_this(_env: &Env, h: Local) -> Self {
        JsObject(h)
    }
}

impl ValueInternal for JsObject {
    open spec fn spec_name() -> Seq<char> {
        "object"@
    }

    fn name() -> String {
        "object".to_owned()
    }

    open spec fn is_type_of(env: EnvView, other: Local) -> bool {
        env.has(other) && (env.data(other) is Object || env.data(other) is Array || env.data(
            other,
        ) is Function || env.data(other) is Error)
    }

    fn is_typeof<Other: Managed>(env: &Env, other: Other) -> bool {
        match env.get(other.to_raw()) {
            Some(JsData::Object) => true,
            Some(JsData::Array(_)) => true,
            Some(JsData::Function) => true,
            Some(JsData::Error(_, _)) => true,
            _ => false,
        }
    }
}

impl Object for JsObject {

}

impl JsObject {
    /// Makes an object without properties.
    pub fn new(c: &mut Env) -> (handle: Handle<JsObject>)
        ensures
            handle.raw().index() == old(c)@.values.len(),
            final(c)@ == old(c)@.with_value(JsDataView::Object),
            old(c).wf() ==> final(c).wf(),
    {
        JsObject::new_internal(c)
    }

    pub fn new_internal(env: &mut Env) -> (handle: Handle<JsObject>)
        ensures
            handle.raw().index() == old(env)@.values.len(),
            final(env)@ == old(env)@.with_value(JsDataView::Object),
            old(env).wf() ==> final(env).wf(),
    {
        Handle::new_internal(JsObject(env.create_object()))
    }
}

/// An array object.
#[derive(Clone, Copy, Debug)]
pub struct JsArray(Local);

impl JsArray {
    /// Makes an array of `len` elements, each of them `undefined`.
    pub fn new(cx: &mut Env, len: u32) -> (handle: Handle<JsArray>)
        requires
            old(cx).wf(),
        ensures
            handle.raw().index() == old(cx)@.values.len(),
            final(cx)@ == old(cx)@.with_value(
                JsDataView::Array(Seq::new(len as nat, |i: int| Local::undefined())),
            ),
            final(cx).wf(),
    {
        JsArray::new_internal(cx, len)
    }

    pub fn new_internal(env: &mut Env, len: u32) -> (handle: Handle<JsArray>)
        requires
            old(env).wf(),
        ensures
            handle.raw().index() == old(env)@.values.len(),
            final(env)@ == old(env)@.with_value(
                JsDataView::Array(Seq::new(len as nat, |i: int| Local::undefined())),
            ),
            final(env).wf(),
    {
        Handle::new_internal(JsArray(env.create_array(len)))
    }

    /// The elements of the array, first to last, each by a handle of its
    /// own. The environment is as it was.
    pub fn to_vec(self, cx: &mut Env) -> (elements: NeonResult<Vec<Handle<JsValue>>>)
        requires
            old(cx).wf(),
        ensures
            elements matches Ok(handles) && handles@.len() == old(cx)@.array_len(self.raw())
                && forall|i: int|
                0 <= i < handles@.len() ==> (#[trigger] handles@[i]).raw() == old(cx)@.element(
                    self.raw(),
                    i,
                ),
            final(cx)@ == old(cx)@,
    {
        let mut result: Vec<Handle<JsValue>> = Vec::with_capacity(self.len_inner(cx) as usize);
        let mut i: u32 = 0;
        loop
            invariant
                cx@ == old(cx)@,
                cx.wf(),
                i == result@.len(),
                i <= cx@.array_len(self.raw()),
                forall|k: int|
                    0 <= k < result@.len() ==> (#[trigger] result@[k]).raw() == cx@.element(
                        self.raw(),
                        k,
                    ),
            decreases cx@.array_len(self.raw()) - i,
        {
            // Since getting a property can trigger arbitrary code,
            // we have to re-check the length on every iteration.
            if i >= self.len_inner(cx) {
                return Ok(result);
            }
            let element = self.get(cx, i)?;
            result.push(element);
            i += 1;
        }
    }

    fn len_inner(self, env: &Env) -> (len: u32)
        requires
            env.wf(),
        ensures
            len == env@.array_len(self.raw()),
    {
        match env.get(self.0) {
            Some(JsData::Array(items)) => {
                assert(env@.values[self.0.index()].items().len() <= u32::MAX);
                items.len() as u32
            },
            _ => 0,
        }
    }

    /// The number of elements of the array; of a value that is no array, 0.
    pub fn len(self, cx: &mut Env) -> (len: u32)
        requires
            old(cx).wf(),
        ensures
            len == old(cx)@.array_len(self.raw()),
            final(cx)@ == old(cx)@,
    {
        self.len_inner(cx)
    }

    /// Whether the array has no elements.
    pub fn is_empty(self, cx: &mut Env) -> (empty: bool)
        requires
            old(cx).wf(),
        ensures
            empty == (old(cx)@.array_len(self.raw()) == 0),
            final(cx)@ == old(cx)@,
    {
        self.len(cx) == 0
    }
}

impl EnvView {
    /// The number of elements of an array; of a value that is no array, and
    /// of a handle that names nothing, 0.
    pub open spec fn array_len(self, array: Local) -> int {
        if self.has(array) {
            self.data(array).items().len() as int
        } else {
            0
        }
    }
}

impl Value for JsArray {

}

impl Managed for JsArray {
    closed spec fn raw(self) -> Local {
        self.0
    }

    fn to_raw(self) -> Local {
        self.0
    }

    fn from_raw(_env: &Env, h: Local) -> Self {
        JsArray(h)
    }
}

impl ValueInternal for JsArray {
    open spec fn spec_name() -> Seq<char> {
        "Array"@
    }

    fn name() -> String {
        "Array".to_owned()
    }

    open spec fn is_type_of(env: EnvView, other: Local) -> bool {
        env.has(other) && env.data(other) is Array
    }

    fn is_typeof<Other: Managed>(env: &Env, other: Other) -> bool {
        match env.get(other.to_raw()) {
            Some(JsData::Array(_)) => true,
            _ => false,
        }
    }
}

impl Object for JsArray {

}

} // verus!
