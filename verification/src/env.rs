//! The environment of one runtime instance, as a plain value.
//!
//! Only the owning thread of an instance may touch its environment; here that
//! is the rule of the borrow checker, since every function that changes the
//! environment takes it by `&mut`. What the host keeps for an instance is held
//! in tables, and the handles of [`raw`](crate::raw) index them.

use vstd::prelude::*;
use crate::lifecycle::{InstanceData, InstanceDataView, InstanceIds};
use crate::raw::{AsyncWork, Local, NapiRef, NodeApiDeferred, Status};
use crate::result::{NeonResult, Throw};

verus! {

broadcast use {Local::lemma_undefined_index, Local::lemma_index_injective, Local::lemma_at_index};

/// The kind of an error value.
#[derive(Clone, Copy, PartialEq, Eq, Debug, Structural)]
pub enum ErrorKind {
    Error,
    TypeError,
    RangeError,
}

/// A value of the environment.
#[derive(Debug)]
pub enum JsData {
    Undefined,
    Null,
    Boolean(bool),
    /// A number, by the bits of its IEEE 754 double.
    Number(u64),
    String(String),
    Object,
    /// An array, by the handles of its elements.
    Array(Vec<Local>),
    Function,
    Error(ErrorKind, String),
}

/// A value of the environment, in specifications.
pub enum JsDataView {
    Undefined,
    Null,
    Boolean(bool),
    Number(u64),
    String(Seq<char>),
    Object,
    Array(Seq<Local>),
    Function,
    Error(ErrorKind, Seq<char>),
}

impl View for JsData {
    type V = JsDataView;

    open spec fn view(&self) -> JsDataView {
        match *self {
            JsData::Undefined => JsDataView::Undefined,
            JsData::Null => JsDataView::Null,
            JsData::Boolean(b) => JsDataView::Boolean(b),
            JsData::Number(bits) => JsDataView::Number(bits),
            JsData::String(s) => JsDataView::String(s@),
            JsData::Object => JsDataView::Object,
            JsData::Array(items) => JsDataView::Array(items@),
            JsData::Function => JsDataView::Function,
            JsData::Error(kind, message) => JsDataView::Error(kind, message@),
        }
    }
}

impl JsDataView {
    /// The elements of an array after `value` was put at `index`: those
    /// before, filled up to the index with `undefined` where they end before
    /// it.
    pub open spec fn items_with(self, index: int, value: Local) -> Seq<Local> {
        let items = self.items();
        let filled = if index < items.len() {
            items
        } else {
            items + Seq::new((index + 1 - items.len()) as nat, |i: int| Local::undefined())
        };
        filled.update(index, value)
    }

    /// The elements of an array; of any other value, none.
    pub open spec fn items(self) -> Seq<Local> {
        match self {
            JsDataView::Array(items) => items,
            _ => Seq::empty(),
        }
    }
}

/// Where one unit of pool work stands with the host.
#[derive(Clone, Copy, PartialEq, Eq, Debug, Structural)]
pub enum WorkState {
    /// Registered, not yet handed to the pool.
    Created,
    /// Handed to the pool; its completion is still owed.
    Queued,
    /// Released; the handle is dead.
    Deleted,
}

/// Where a promise that native code is to settle stands.
#[derive(Clone, Copy, PartialEq, Eq, Debug, Structural)]
pub enum DeferredState {
    /// Native code still holds the handle.
    Pending,
    /// The handle was given up: the promise was rejected on its behalf.
    Abandoned,
}

/// The number of work handles in a table that are not released.
pub open spec fn count_live_works(works: Seq<WorkState>) -> nat
    decreases works.len(),
{
    if works.len() == 0 {
        0
    } else {
        count_live_works(works.drop_last()) + if works.last() != WorkState::Deleted {
            1nat
        } else {
            0nat
        }
    }
}

/// The number of references in a table that are not released.
pub open spec fn count_live_references(references: Seq<Option<Local>>) -> nat
    decreases references.len(),
{
    if references.len() == 0 {
        0
    } else {
        count_live_references(references.drop_last()) + if references.last() is Some {
            1nat
        } else {
            0nat
        }
    }
}

/// One more work handle in the table is one more that is not released,
/// unless it is put there released.
pub proof fn lemma_count_live_works_push(works: Seq<WorkState>, state: WorkState)
    ensures
        count_live_works(works.push(state)) == count_live_works(works) + (if state
            != WorkState::Deleted {
            1nat
        } else {
            0nat
        }),
{
    assert(works.push(state).drop_last() =~= works);
}

/// Releasing a work handle that is not released leaves one less that is not,
/// and so does nothing else to their number.
pub proof fn lemma_count_live_works_release(works: Seq<WorkState>, id: int)
    requires
        0 <= id < works.len(),
        works[id] != WorkState::Deleted,
    ensures
        count_live_works(works.update(id, WorkState::Deleted)) == count_live_works(works) - 1,
    decreases works.len(),
{
    let released = works.update(id, WorkState::Deleted);
    if id == works.len() - 1 {
        assert(released.drop_last() =~= works.drop_last());
    } else {
        assert(released.drop_last() =~= works.drop_last().update(id, WorkState::Deleted));
        lemma_count_live_works_release(works.drop_last(), id);
    }
}

/// An environment, in specifications.
pub struct EnvView {
    /// The values, by the index of their handle.
    pub values: Seq<JsDataView>,
    /// The exception that is being thrown, if one is.
    pub exception: Option<Local>,
    /// The work that was ever registered, by the id of its handle.
    pub works: Seq<WorkState>,
    /// Whether the pool takes work that is handed to it.
    pub accepts_work: bool,
    /// The references ever made, by handle id: the value kept alive, if not released.
    pub references: Seq<Option<Local>>,
    /// The promises ever made for native code to settle, by handle id.
    pub deferreds: Seq<DeferredState>,
    /// What the instance keeps in the host's slot for it.
    pub instance_data: Option<InstanceDataView>,
    /// The source that the process draws its instance identifiers from.
    pub instance_ids: InstanceIds,
}

/// The handle of `undefined`.
pub const UNDEFINED: usize = 0;

/// The handle of `null`.
pub const NULL: usize = 1;

/// The handle of `false`.
pub const FALSE: usize = 2;

/// The handle of `true`.
pub const TRUE: usize = 3;

impl EnvView {
    /// The handle names a value of this environment.
    pub open spec fn has(self, local: Local) -> bool {
        0 <= local.index() < self.values.len()
    }

    /// The value that a handle names.
    pub open spec fn data(self, local: Local) -> JsDataView {
        self.values[local.index()]
    }

    /// The work handle was given out by this environment and not released since.
    pub open spec fn work_is_live(self, work: AsyncWork) -> bool {
        0 <= work.id() < self.works.len() && self.works[work.id()] != WorkState::Deleted
    }

    /// The number of work handles that were given out and not released.
    pub open spec fn live_works(self) -> nat {
        count_live_works(self.works)
    }

    /// The number of references that were made and not released.
    pub open spec fn live_references(self) -> nat {
        count_live_references(self.references)
    }

    /// `undefined`, `null`, `false` and `true` stand first; every element of
    /// an array, and the exception, names a value of the environment; an
    /// array is no longer than an array can be.
    pub open spec fn wf(self) -> bool {
        &&& self.values.len() >= 4
        &&& self.values[UNDEFINED as int] == JsDataView::Undefined
        &&& self.values[NULL as int] == JsDataView::Null
        &&& self.values[FALSE as int] == JsDataView::Boolean(false)
        &&& self.values[TRUE as int] == JsDataView::Boolean(true)
        &&& forall|i: int|
            0 <= i < self.values.len() ==> (#[trigger] self.values[i]).items().len() <= u32::MAX
        &&& forall|i: int, j: int|
            0 <= i < self.values.len() && 0 <= j < self.values[i].items().len() ==> self.has(
                #[trigger] self.values[i].items()[j],
            )
        &&& self.exception matches Some(local) ==> self.has(local)
    }

    /// The environment that a host starts an instance with.
    pub open spec fn initial(instance_ids: InstanceIds) -> EnvView {
        EnvView {
            values: seq![
                JsDataView::Undefined, JsDataView::Null,
                JsDataView::Boolean(false), JsDataView::Boolean(true),
            ],
            exception: None,
            works: Seq::empty(),
            accepts_work: true,
            references: Seq::empty(),
            deferreds: Seq::empty(),
            instance_data: None,
            instance_ids,
        }
    }
}

/// The environment of one runtime instance.
pub struct Env {
    values: Vec<JsData>,
    exception: Option<Local>,
    works: Vec<WorkState>,
    accepts_work: bool,
    references: Vec<Option<Local>>,
    deferreds: Vec<DeferredState>,
    instance_data: Option<InstanceData>,
    ids: InstanceIds,
}

impl View for Env {
    type V = EnvView;

    closed spec fn view(&self) -> EnvView {
        EnvView {
            values: self.values@.map_values(|d: JsData| d@),
            exception: self.exception,
            works: self.works@,
            accepts_work: self.accepts_work,
            references: self.references@,
            deferreds: self.deferreds@,
            instance_data: match self.instance_data {
                Some(data) => Some(data@),
                None => None,
            },
            instance_ids: self.ids,
        }
    }
}

impl Env {
    /// See [`EnvView::wf`].
    pub open spec fn wf(&self) -> bool {
        self@.wf()
    }

    /// The environment of the first instance of a process.
    pub fn new() -> (env: Env)
        ensures
            env.wf(),
            env@ == EnvView::initial(env@.instance_ids),
    {
        Env::with_ids(InstanceIds::new())
    }

    /// The environment of one more instance in the process of `self`: the two
    /// draw their instance identifiers from one source.
    pub fn sibling(&self) -> (env: Env)
        ensures
            env.wf(),
            env@ == EnvView::initial(self@.instance_ids),
    {
        Env::with_ids(self.ids.clone())
    }

    fn with_ids(ids: InstanceIds) -> (env: Env)
        ensures
            env.wf(),
            env@ == EnvView::initial(ids),
    {
        let mut values: Vec<JsData> = Vec::new();
        values.push(JsData::Undefined);
        values.push(JsData::Null);
        values.push(JsData::Boolean(false));
        values.push(JsData::Boolean(true));
        let env = Env {
            values,
            exception: None,
            works: Vec::new(),
            accepts_work: true,
            references: Vec::new(),
            deferreds: Vec::new(),
            instance_data: None,
            ids,
        };
        proof {
            assert(env@.values =~= EnvView::initial(ids).values);
            assert(env@.works =~= EnvView::initial(ids).works);
            assert(env@.references =~= EnvView::initial(ids).references);
            assert(env@.deferreds =~= EnvView::initial(ids).deferreds);
        }
        env
    }

    /// The source of instance identifiers of the process.
    pub fn instance_ids(&self) -> (ids: &InstanceIds)
        ensures
            *ids == self@.instance_ids,
    {
        &self.ids
    }

    /// Whether the instance keeps anything in the host's slot for it.
    pub fn has_instance_data(&self) -> (has: bool)
        ensures
            has == self@.instance_data is Some,
    {
        self.instance_data.is_some()
    }

    /// What the instance keeps in the host's slot for it, if anything.
    pub fn get_instance_data(&mut self) -> (data: Option<&mut InstanceData>)
        ensures
            match old(self)@.instance_data {
                None => data is None && final(self)@ == old(self)@,
                Some(kept) => data is Some && data.unwrap()@ == kept && final(self)@ == (EnvView {
                    instance_data: Some(final(data.unwrap())@),
                    ..old(self)@
                }),
            },
    {
        self.instance_data.as_mut()
    }

    /// Puts `data` in the host's slot for the instance, in place of what was
    /// there.
    pub fn set_instance_data(&mut self, data: InstanceData) -> (kept: &mut InstanceData)
        ensures
            *kept == data,
            final(self)@ == (EnvView { instance_data: Some(final(kept)@), ..old(self)@ }),
    {
        self.instance_data = Some(data);
        self.instance_data.as_mut().unwrap()
    }

    /// Makes a reference that keeps `value` alive, and gives out its handle.
    pub fn create_reference(&mut self, value: Local) -> (reference: NapiRef)
        ensures
            reference.id() == old(self)@.references.len(),
            final(self)@ == (EnvView {
                references: old(self)@.references.push(Some(value)),
                ..old(self)@
            }),
    {
        let reference = NapiRef::new(self.references.len());
        self.references.push(Some(value));
        reference
    }

    /// Releases a reference. The host refuses a handle that it did not give
    /// out or that was released before; the environment is then as it was.
    pub fn delete_reference(&mut self, reference: NapiRef) -> (status: Status)
        ensures
            status == (if old(self)@.reference_is_live(reference) {
                Status::Success
            } else {
                Status::InvalidArg
            }),
            final(self)@ == old(self)@.release_reference(reference),
    {
        let id = reference.slot();
        if id >= self.references.len() {
            return Status::InvalidArg;
        }
        if self.references[id].is_none() {
            proof {
                assert(old(self)@.references.update(id as int, None) =~= old(self)@.references);
            }
            return Status::InvalidArg;
        }
        self.references.set(id, None);
        Status::Success
    }

    /// Whether a reference was made by this environment and not released
    /// since.
    pub fn reference_is_live(&self, reference: &NapiRef) -> (live: bool)
        ensures
            live == self@.reference_is_live(*reference),
    {
        let id = reference.slot();
        id < self.references.len() && self.references[id].is_some()
    }

    /// Makes a promise for native code to settle, and gives out its handle.
    pub fn create_deferred(&mut self) -> (deferred: NodeApiDeferred)
        ensures
            deferred.id() == old(self)@.deferreds.len(),
            final(self)@ == (EnvView {
                deferreds: old(self)@.deferreds.push(DeferredState::Pending),
                ..old(self)@
            }),
    {
        let deferred = NodeApiDeferred::new(self.deferreds.len());
        self.deferreds.push(DeferredState::Pending);
        deferred
    }

    /// Rejects a promise on behalf of native code that gave its handle up
    /// without settling it. The host refuses a handle that it did not give
    /// out; the environment is then as it was.
    pub fn abandon_deferred(&mut self, deferred: NodeApiDeferred) -> (status: Status)
        ensures
            status == (if 0 <= deferred.id() < old(self)@.deferreds.len() {
                Status::Success
            } else {
                Status::InvalidArg
            }),
            final(self)@ == old(self)@.abandon_deferred(deferred),
    {
        let id = deferred.slot();
        if id >= self.deferreds.len() {
            return Status::InvalidArg;
        }
        self.deferreds.set(id, DeferredState::Abandoned);
        Status::Success
    }

    /// Where a promise stands, if this environment made it.
    pub fn deferred_state(&self, deferred: &NodeApiDeferred) -> (state: Option<DeferredState>)
        ensures
            state == (if 0 <= deferred.id() < self@.deferreds.len() {
                Some(self@.deferreds[deferred.id()])
            } else {
                None
            }),
    {
        let id = deferred.slot();
        if id < self.deferreds.len() {
            Some(self.deferreds[id])
        } else {
            None
        }
    }

    /// The value that a handle names, if it names one.
    pub fn get(&self, local: Local) -> (data: Option<&JsData>)
        ensures
            data is Some <==> self@.has(local),
            data matches Some(d) ==> d@ == self@.data(local),
    {
        let index = local.slot();
        if index < self.values.len() {
            Some(&self.values[index])
        } else {
            None
        }
    }

    /// The handle of `undefined`.
    pub fn undefined(&self) -> (local: Local)
        ensures
            local.index() == UNDEFINED,
    {
        Local::new(UNDEFINED)
    }

    /// The handle of `null`.
    pub fn null(&self) -> (local: Local)
        ensures
            local.index() == NULL,
    {
        Local::new(NULL)
    }

    /// The handle of `true` or of `false`.
    pub fn boolean(&self, b: bool) -> (local: Local)
        ensures
            local.index() == (if b {
                TRUE
            } else {
                FALSE
            }),
    {
        if b {
            Local::new(TRUE)
        } else {
            Local::new(FALSE)
        }
    }

    fn add_value(&mut self, data: JsData) -> (local: Local)
        requires
            data@.items().len() <= u32::MAX,
            forall|j: int| 0 <= j < data@.items().len() ==> old(self)@.has(#[trigger] data@.items()[j]),
        ensures
            local.index() == old(self)@.values.len(),
            final(self)@ == old(self)@.with_value(data@),
            old(self).wf() ==> final(self).wf(),
    {
        let local = Local::new(self.values.len());
        self.values.push(data);
        proof {
            assert(self@.values =~= old(self)@.values.push(data@));
            if old(self).wf() {
                assert forall|i: int, j: int|
                    0 <= i < self@.values.len() && 0 <= j < self@.values[i].items().len() implies self@.has(
                    #[trigger] self@.values[i].items()[j],
                ) by {
                    if i < old(self)@.values.len() {
                        assert(old(self)@.has(old(self)@.values[i].items()[j]));
                    }
                }

            }
        }
        local
    }

    /// Makes a number from the bits of its IEEE 754 double.
    pub fn create_number(&mut self, bits: u64) -> (local: Local)
        ensures
            local.index() == old(self)@.values.len(),
            final(self)@ == old(self)@.with_value(JsDataView::Number(bits)),
            old(self).wf() ==> final(self).wf(),
    {
        self.add_value(JsData::Number(bits))
    }

    /// Makes a string.
    pub fn create_string(&mut self, val: &str) -> (local: Local)
        ensures
            local.index() == old(self)@.values.len(),
            final(self)@ == old(self)@.with_value(JsDataView::String(val@)),
            old(self).wf() ==> final(self).wf(),
    {
        self.add_value(JsData::String(val.to_owned()))
    }

    /// Makes an object without properties.
    pub fn create_object(&mut self) -> (local: Local)
        ensures
            local.index() == old(self)@.values.len(),
            final(self)@ == old(self)@.with_value(JsDataView::Object),
            old(self).wf() ==> final(self).wf(),
    {
        self.add_value(JsData::Object)
    }

    /// Makes a function.
    pub fn create_function(&mut self) -> (local: Local)
        ensures
            local.index() == old(self)@.values.len(),
            final(self)@ == old(self)@.with_value(JsDataView::Function),
            old(self).wf() ==> final(self).wf(),
    {
        self.add_value(JsData::Function)
    }

    /// Makes an error value.
    pub fn create_error(&mut self, kind: ErrorKind, message: &str) -> (local: Local)
        ensures
            local.index() == old(self)@.values.len(),
            final(self)@ == old(self)@.with_value(JsDataView::Error(kind, message@)),
            old(self).wf() ==> final(self).wf(),
    {
        self.add_value(JsData::Error(kind, message.to_owned()))
    }

    /// Makes an array of `len` elements, each of them `undefined`.
    pub fn create_array(&mut self, len: u32) -> (local: Local)
        requires
            old(self).wf(),
        ensures
            local.index() == old(self)@.values.len(),
            final(self)@ == old(self)@.with_value(
                JsDataView::Array(Seq::new(len as nat, |i: int| Local::undefined())),
            ),
            final(self).wf(),
    {
        let mut items: Vec<Local> = Vec::new();
        let mut i: u32 = 0;
        while i < len
            invariant
                i <= len,
                items@ =~= Seq::new(i as nat, |i: int| Local::undefined()),
            decreases len - i,
        {
            items.push(self.undefined());
            i += 1;
        }
        self.add_value(JsData::Array(items))
    }

    /// The element of an array at an index: `undefined` past the end of the
    /// array, and of a value that is no array.
    pub fn get_index(&self, array: Local, index: u32) -> (element: Local)
        ensures
            element == self@.element(array, index as int),
    {
        match self.get(array) {
            Some(JsData::Array(items)) => {
                if (index as usize) < items.len() {
                    items[index as usize]
                } else {
                    self.undefined()
                }
            },
            _ => self.undefined(),
        }
    }

    /// Puts a value in an array at an index. An array that ends before the
    /// index is first filled up to it with `undefined`. The host refuses a
    /// value that is no array with `ArrayExpected`, and an index that no
    /// array has, or a handle that names nothing, with `InvalidArg`; the
    /// environment is then as it was.
    pub fn set_index(&mut self, array: Local, index: u32, value: Local) -> (status: Status)
        requires
            old(self).wf(),
        ensures
            final(self).wf(),
            status == old(self)@.set_index_status(array, index as int, value),
            final(self)@ == old(self)@.set_index(array, index as int, value),
    {
        if index == u32::MAX || array.slot() >= self.values.len() || value.slot()
            >= self.values.len() {
            return Status::InvalidArg;
        }
        let mut items: Vec<Local> = Vec::new();
        match &self.values[array.slot()] {
            JsData::Array(old_items) => {
                let mut i: usize = 0;
                while i < old_items.len()
                    invariant
                        i <= old_items.len(),
                        items@ =~= old_items@.subrange(0, i as int),
                    decreases old_items.len() - i,
                {
                    items.push(old_items[i]);
                    i += 1;
                }
                assert(items@ =~= old_items@);
            },
            _ => {
                return Status::ArrayExpected;
            },
        }
        let ghost before = items@;
        while items.len() <= index as usize
            invariant
                before.len() <= u32::MAX,
                index < u32::MAX,
                items@ =~= before + Seq::new(
                    (items@.len() - before.len()) as nat,
                    |i: int| Local::undefined(),
                ),
                items@.len() >= before.len(),
                items@.len() <= before.len() || items@.len() <= index + 1,
            decreases index + 1 - items.len(),
        {
            items.push(self.undefined());
        }
        items.set(index as usize, value);
        proof {
            assert(items@ =~= old(self)@.data(array).items_with(index as int, value));
        }
        let ghost new_items = items@;
        self.values.set(array.slot(), JsData::Array(items));
        proof {
            assert(self@.values =~= old(self)@.values.update(
                array.index(),
                JsDataView::Array(new_items),
            ));
            assert forall|i: int, j: int|
                0 <= i < self@.values.len() && 0 <= j < self@.values[i].items().len() implies self@.has(
                #[trigger] self@.values[i].items()[j],
            ) by {
                if i != array.index() {
                    assert(old(self)@.has(old(self)@.values[i].items()[j]));
                } else if j != index && j < before.len() {
                    assert(old(self)@.has(old(self)@.values[i].items()[j]));
                }
            }
            assert forall|i: int| 0 <= i < self@.values.len() implies (
            #[trigger] self@.values[i]).items().len() <= u32::MAX by {
                if i != array.index() {
                    assert(old(self)@.values[i].items().len() <= u32::MAX);
                }
            }
        }
        Status::Success
    }

    /// Throws a value: it is the exception of the environment from now on,
    /// in place of one that was there. A handle that names nothing is not
    /// thrown.
    pub fn throw(&mut self, value: Local) -> (status: Status)
        ensures
            status == (if old(self)@.has(value) {
                Status::Success
            } else {
                Status::InvalidArg
            }),
            final(self)@ == (if old(self)@.has(value) {
                EnvView { exception: Some(value), ..old(self)@ }
            } else {
                old(self)@
            }),
    {
        if value.slot() >= self.values.len() {
            return Status::InvalidArg;
        }
        self.exception = Some(value);
        Status::Success
    }

    /// Throws a `RangeError` with a message.
    pub fn throw_range_error<T>(&mut self, msg: &str) -> (thrown: NeonResult<T>)
        ensures
            thrown is Err,
            final(self)@ == old(self)@.thrown(JsDataView::Error(ErrorKind::RangeError, msg@)),
            old(self).wf() ==> final(self).wf(),
    {
        self.throw_error(ErrorKind::RangeError, msg)
    }

    /// Throws a `TypeError` with a message.
    pub fn throw_type_error<T>(&mut self, msg: &str) -> (thrown: NeonResult<T>)
        ensures
            thrown is Err,
            final(self)@ == old(self)@.thrown(JsDataView::Error(ErrorKind::TypeError, msg@)),
            old(self).wf() ==> final(self).wf(),
    {
        self.throw_error(ErrorKind::TypeError, msg)
    }

    /// Makes an error value and throws it.
    pub fn throw_error<T>(&mut self, kind: ErrorKind, msg: &str) -> (thrown: NeonResult<T>)
        ensures
            thrown is Err,
            final(self)@ == old(self)@.thrown(JsDataView::Error(kind, msg@)),
            old(self).wf() ==> final(self).wf(),
    {
        let error = self.create_error(kind, msg);
        proof {
            let index = old(self)@.values.len() as int;
            Local::lemma_index_bounds(error);
            assert(Local::at(index).index() == index);
            assert(error == Local::at(index));
        }
        self.throw(error);
        Err(Throw)
    }

    /// The exception that is being thrown, if one is.
    pub fn exception(&self) -> (exception: Option<Local>)
        ensures
            exception == self@.exception,
    {
        self.exception
    }

    /// Catches the exception that is being thrown, if one is.
    pub fn clear_exception(&mut self) -> (exception: Option<Local>)
        ensures
            exception == old(self)@.exception,
            final(self)@ == (EnvView { exception: None, ..old(self)@ }),
    {
        self.exception.take()
    }

    /// Makes the pool take, or refuse, the work that is handed to it from now
    /// on. A host refuses work while it shuts down.
    pub fn set_accepts_work(&mut self, accepts: bool)
        ensures
            final(self)@ == (EnvView { accepts_work: accepts, ..old(self)@ }),
    {
        self.accepts_work = accepts;
    }

    /// Registers one unit of pool work and gives out its handle.
    pub fn create_async_work(&mut self) -> (work: AsyncWork)
        ensures
            work.id() == old(self)@.works.len(),
            final(self)@ == (EnvView {
                works: old(self)@.works.push(WorkState::Created),
                ..old(self)@
            }),
    {
        let work = AsyncWork::new(self.works.len());
        self.works.push(WorkState::Created);
        work
    }

    /// Hands registered work to the pool. The host refuses a handle that is not
    /// of registered, unqueued work, and refuses all work while the pool takes
    /// none; the environment is then as it was.
    pub fn queue_async_work(&mut self, work: AsyncWork) -> (status: Status)
        ensures
            status == old(self)@.queue_status(work),
            status == Status::Success ==> final(self)@ == (EnvView {
                works: old(self)@.works.update(work.id(), WorkState::Queued),
                ..old(self)@
            }),
            status != Status::Success ==> final(self)@ == old(self)@,
    {
        let id = work.slot();
        if id >= self.works.len() {
            return Status::InvalidArg;
        }
        match self.works[id] {
            WorkState::Created => {},
            _ => {
                return Status::InvalidArg;
            },
        }
        if !self.accepts_work {
            return Status::GenericFailure;
        }
        self.works.set(id, WorkState::Queued);
        Status::Success
    }

    /// Releases a work handle. The host refuses a handle that it did not give
    /// out or that was released before; the environment is then as it was.
    pub fn delete_async_work(&mut self, work: AsyncWork) -> (status: Status)
        ensures
            status == (if old(self)@.work_is_live(work) {
                Status::Success
            } else {
                Status::InvalidArg
            }),
            status == Status::Success ==> final(self)@ == (EnvView {
                works: old(self)@.works.update(work.id(), WorkState::Deleted),
                ..old(self)@
            }),
            status != Status::Success ==> final(self)@ == old(self)@,
    {
        let id = work.slot();
        if id >= self.works.len() {
            return Status::InvalidArg;
        }
        match self.works[id] {
            WorkState::Deleted => {
                return Status::InvalidArg;
            },
            _ => {},
        }
        self.works.set(id, WorkState::Deleted);
        Status::Success
    }

    /// The number of work handles that were given out and not released.
    pub fn live_works(&self) -> (live: usize)
        ensures
            live == self@.live_works(),
    {
        let mut live: usize = 0;
        let mut i: usize = 0;
        while i < self.works.len()
            invariant
                i <= self.works.len(),
                live <= i,
                live == count_live_works(self.works@.subrange(0, i as int)),
            decreases self.works.len() - i,
        {
            proof {
                assert(self.works@.subrange(0, i + 1).drop_last() =~= self.works@.subrange(
                    0,
                    i as int,
                ));
            }
            match self.works[i] {
                WorkState::Deleted => {},
                _ => {
                    live += 1;
                },
            }
            i += 1;
        }
        proof {
            assert(self.works@.subrange(0, i as int) =~= self.works@);
        }
        live
    }

    /// The number of references that were made and not released.
    pub fn live_references(&self) -> (live: usize)
        ensures
            live == self@.live_references(),
    {
        let mut live: usize = 0;
        let mut i: usize = 0;
        while i < self.references.len()
            invariant
                i <= self.references.len(),
                live <= i,
                live == count_live_references(self.references@.subrange(0, i as int)),
            decreases self.references.len() - i,
        {
            proof {
                assert(self.references@.subrange(0, i + 1).drop_last()
                    =~= self.references@.subrange(0, i as int));
            }
            if self.references[i].is_some() {
                live += 1;
            }
            i += 1;
        }
        proof {
            assert(self.references@.subrange(0, i as int) =~= self.references@);
        }
        live
    }

    /// Whether a work handle was given out by this environment and not
    /// released since.
    pub fn work_is_live(&self, work: AsyncWork) -> (live: bool)
        ensures
            live == self@.work_is_live(work),
    {
        let id = work.slot();
        if id >= self.works.len() {
            return false;
        }
        match self.works[id] {
            WorkState::Deleted => false,
            _ => true,
        }
    }
}

impl EnvView {
    /// The environment after a value was made and thrown.
    pub open spec fn thrown(self, error: JsDataView) -> EnvView {
        EnvView {
            values: self.values.push(error),
            exception: Some(Local::at(self.values.len() as int)),
            ..self
        }
    }

    /// The environment with one more value, at the end of its table.
    pub open spec fn with_value(self, data: JsDataView) -> EnvView {
        EnvView { values: self.values.push(data), ..self }
    }

    /// The element of an array at an index: `undefined` past the end of the
    /// array, and of a value that is no array.
    pub open spec fn element(self, array: Local, index: int) -> Local {
        if self.has(array) && 0 <= index < self.data(array).items().len() {
            self.data(array).items()[index]
        } else {
            Local::undefined()
        }
    }

    /// What the host answers when `value` is to be put in `array` at `index`.
    pub open spec fn set_index_status(self, array: Local, index: int, value: Local) -> Status {
        if index >= u32::MAX || !self.has(array) || !self.has(value) {
            Status::InvalidArg
        } else if !(self.data(array) is Array) {
            Status::ArrayExpected
        } else {
            Status::Success
        }
    }

    /// The environment after `value` was put in `array` at `index`: as
    /// before, where the host refuses.
    pub open spec fn set_index(self, array: Local, index: int, value: Local) -> EnvView {
        if self.set_index_status(array, index, value) == Status::Success {
            EnvView {
                values: self.values.update(
                    array.index(),
                    JsDataView::Array(self.data(array).items_with(index, value)),
                ),
                ..self
            }
        } else {
            self
        }
    }

    /// The reference was made by this environment and not released since.
    pub open spec fn reference_is_live(self, reference: NapiRef) -> bool {
        0 <= reference.id() < self.references.len() && self.references[reference.id()] is Some
    }

    /// The environment after the reference was released: as before, where the
    /// handle is not of this environment.
    pub open spec fn release_reference(self, reference: NapiRef) -> EnvView {
        if 0 <= reference.id() < self.references.len() {
            EnvView { references: self.references.update(reference.id(), None), ..self }
        } else {
            self
        }
    }

    /// The environment after the promise was given up: as before, where the
    /// handle is not of this environment.
    pub open spec fn abandon_deferred(self, deferred: NodeApiDeferred) -> EnvView {
        if 0 <= deferred.id() < self.deferreds.len() {
            EnvView {
                deferreds: self.deferreds.update(deferred.id(), DeferredState::Abandoned),
                ..self
            }
        } else {
            self
        }
    }

    /// The environment after the work handle was released.
    pub open spec fn release_work(self, work: AsyncWork) -> EnvView {
        EnvView { works: self.works.update(work.id(), WorkState::Deleted), ..self }
    }

    /// What the host answers when `work` is handed to the pool.
    pub open spec fn queue_status(self, work: AsyncWork) -> Status {
        if !(0 <= work.id() < self.works.len() && self.works[work.id()] == WorkState::Created) {
            Status::InvalidArg
        } else if !self.accepts_work {
            Status::GenericFailure
        } else {
            Status::Success
        }
    }
}

} // verus!
