//! Work for the pool, and its result brought back.
//!
//! A task is handed to the host as one record. The host owes the record two
//! calls: [`call_execute`] on a pool thread, which turns the input into the
//! output, and [`call_complete`] on the owning thread, which hands the output
//! to the task's completion function and reclaims the record. Unlike the
//! host's own interface, which threads one pointer through both calls, the
//! output of the first is the input of the second.
//!
//! The record is owned by one party at a time: [`schedule`] gives it to
//! whoever plays the pool, `call_execute` borrows it, `call_complete` takes it
//! for good.

use vstd::prelude::*;
use crate::env::{
    lemma_count_live_works_push, lemma_count_live_works_release, Env, EnvView, WorkState,
};
use crate::raw::{AsyncWork, Status};

verus! {

/// State of the task that is transitioned by `execute` and `complete`.
pub enum State<T, O> {
    /// Initial data input passed to `execute`.
    Input(T),
    /// Transient state while `execute` is running.
    Executing,
    /// Return data of `execute` passed to `complete`.
    Output(O),
}

/// How far a task has come: the three states of its record, and the record
/// being gone.
pub enum Stage {
    Input,
    Executing,
    Output,
    Reclaimed,
}

/// The two calls that the host owes a task.
pub enum Trampoline {
    /// [`call_execute`].
    Execute,
    /// [`call_complete`], with the status that the host reports.
    Complete(Status),
}

impl Stage {
    /// Whether a task that has come this far may get the call: the
    /// precondition of the call, as far as it concerns the record.
    pub open spec fn admits(self, call: Trampoline) -> bool {
        match call {
            Trampoline::Execute => self == Stage::Input,
            Trampoline::Complete(status) => {
                &&& self != Stage::Reclaimed
                &&& status == Status::Success || status == Status::Cancelled
                &&& status == Status::Success ==> self == Stage::Output
            },
        }
    }

    /// How far the task has come after the call.
    pub open spec fn after(self, call: Trampoline) -> Stage {
        match call {
            Trampoline::Execute => Stage::Output,
            Trampoline::Complete(_) => Stage::Reclaimed,
        }
    }

    /// Whether the task may get the calls one after another.
    pub open spec fn admits_all(self, calls: Seq<Trampoline>) -> bool
        decreases calls.len(),
    {
        calls.len() > 0 ==> self.admits(calls[0]) && self.after(calls[0]).admits_all(
            calls.drop_first(),
        )
    }

    /// How far the task has come after the calls.
    pub open spec fn after_all(self, calls: Seq<Trampoline>) -> Stage
        decreases calls.len(),
    {
        if calls.len() == 0 {
            self
        } else {
            self.after(calls[0]).after_all(calls.drop_first())
        }
    }
}

impl<T, O> State<T, O> {
    /// The input that the state holds.
    pub open spec fn input(self) -> Option<T> {
        match self {
            State::Input(input) => Some(input),
            _ => None,
        }
    }

    /// The output that the state holds.
    pub open spec fn output(self) -> Option<O> {
        match self {
            State::Output(output) => Some(output),
            _ => None,
        }
    }

    /// The state without its payload.
    pub open spec fn stage(self) -> Stage {
        match self {
            State::Input(_) => Stage::Input,
            State::Executing => Stage::Executing,
            State::Output(_) => Stage::Output,
        }
    }

    /// Return the input if `State::Input`, replacing with `State::Executing`.
    pub fn take_execute_input(&mut self) -> (input: Option<T>)
        ensures
            input == old(self).input(),
            *final(self) == old(self).taken(),
    {
        let mut taken = State::Executing;
        std::mem::swap(self, &mut taken);
        match taken {
            State::Input(input) => Some(input),
            _ => None,
        }
    }

    /// Return the output if `State::Output`, consuming the state.
    pub fn into_output(self) -> (output: Option<O>)
        ensures
            output == self.output(),
    {
        match self {
            State::Output(output) => Some(output),
            _ => None,
        }
    }
}

/// The record of one task: what is passed to the `execute` and `complete`
/// callbacks.
pub struct Data<T, O, E, C> {
    state: State<T, O>,
    execute: E,
    complete: C,
    work: AsyncWork,
}

impl<T, O, E: Fn(T) -> O, C: FnOnce(&mut Env, O)> Data<T, O, E, C> {
    pub closed spec fn state(self) -> State<T, O> {
        self.state
    }

    pub closed spec fn execute(self) -> E {
        self.execute
    }

    pub closed spec fn complete(self) -> C {
        self.complete
    }

    pub closed spec fn work(self) -> AsyncWork {
        self.work
    }

    /// How far the task has come.
    pub open spec fn stage(self) -> Stage {
        self.state().stage()
    }

    /// The two functions of the task accept what the record will hand them:
    /// `execute` the input, and `complete` whatever `execute` returns, in any
    /// well-formed environment.
    pub open spec fn wf(self) -> bool {
        &&& self.state() matches State::Input(input) ==> {
            &&& call_requires(self.execute(), (input,))
            &&& forall|e: &mut Env, output: O|
                e.wf() && call_ensures(self.execute(), (input,), output) ==> call_requires(
                    self.complete(),
                    (e, output),
                )
        }
        &&& self.state() matches State::Output(output) ==> forall|e: &mut Env|
            e.wf() ==> call_requires(self.complete(), (e, output))
    }

    /// The handle of the work that the host registered for the record.
    pub fn work_handle(&self) -> (work: AsyncWork)
        ensures
            work == self.work(),
    {
        self.work
    }
}

/// Schedule work to execute on the pool.
///
/// Registers one unit of work with the host and hands it to the pool. Where
/// the pool takes it, the record of the task is returned for the pool to keep:
/// it holds the input, and its work is queued. Where the pool refuses, the
/// work handle is released at once, the record is dropped with the input in
/// it, and the host's status is returned. Nothing else in the environment
/// changes either way.
pub fn schedule<T, O, E, C>(env: &mut Env, input: T, execute: E, complete: C) -> (scheduled: Result<
    Data<T, O, E, C>,
    Status,
>) where
    T: Send + 'static,
    O: Send + 'static,
    E: Fn(T) -> O + Send + 'static,
    C: FnOnce(&mut Env, O) + Send + 'static,

    requires
        call_requires(execute, (input,)),
        forall|e: &mut Env, output: O|
            e.wf() && call_ensures(execute, (input,), output) ==> call_requires(
                complete,
                (e, output),
            ),
    ensures
        scheduled is Ok <==> old(env)@.accepts_work,
        scheduled matches Ok(data) ==> {
            &&& data.state() == State::<T, O>::Input(input)
            &&& data.execute() == execute
            &&& data.complete() == complete
            &&& data.work().id() == old(env)@.works.len()
            &&& data.wf()
            &&& final(env)@ == (EnvView {
                works: old(env)@.works.push(WorkState::Queued),
                ..old(env)@
            })
        },
        scheduled matches Err(status) ==> {
            &&& status == Status::GenericFailure
            &&& final(env)@ == (EnvView {
                works: old(env)@.works.push(WorkState::Deleted),
                ..old(env)@
            })
        },
        final(env)@.live_works() == old(env)@.live_works() + (if scheduled is Ok {
            1nat
        } else {
            0nat
        }),
{
    proof {
        lemma_count_live_works_push(old(env)@.works, WorkState::Queued);
        lemma_count_live_works_push(old(env)@.works, WorkState::Deleted);
    }
    let work = env.create_async_work();
    let data = Data { state: State::Input(input), execute, complete, work };

    // Queue the work
    match env.queue_async_work(work) {
        Status::Success => {
            proof {
                assert(final(env)@.works =~= old(env)@.works.push(WorkState::Queued));
            }
            Ok(data)
        },
        status => {
            // If queueing failed, delete the work to prevent a leak
            env.delete_async_work(work);
            proof {
                assert(final(env)@.works =~= old(env)@.works.push(WorkState::Deleted));
            }
            Err(status)
        },
    }
}

/// Callback executed on the pool.
///
/// Takes the input out of the record, runs `execute` on it and puts the output
/// in. It is given no environment: work on the pool must not touch one.
pub fn call_execute<T, O, E: Fn(T) -> O, C: FnOnce(&mut Env, O)>(data: &mut Data<T, O, E, C>)
    requires
        old(data).wf(),
        old(data).stage().admits(Trampoline::Execute),
    ensures
        final(data).wf(),
        final(data).stage() == old(data).stage().after(Trampoline::Execute),
        call_ensures(
            old(data).execute(),
            (old(data).state().input().unwrap(),),
            final(data).state().output().unwrap(),
        ),
        final(data).execute() == old(data).execute(),
        final(data).complete() == old(data).complete(),
        final(data).work() == old(data).work(),
{
    let input = data.state.take_execute_input().unwrap();
    let output = (data.execute)(input);
    proof {
        assert(call_ensures(old(data).execute(), (input,), output));
        assert forall|e: &mut Env| e.wf() implies call_requires(data.complete(), (e, output)) by {
            assert(e.wf() && call_ensures(old(data).execute(), (input,), output));
            assert(call_requires(old(data).complete(), (e, output)));
        }
    }
    data.state = State::Output(output);
}

/// Callback executed on the owning thread.
///
/// Reclaims the record and releases its work handle, whatever the status:
/// one handle less is live for it. On `Success` the output then goes to
/// `complete`, which is the only other thing that touches the environment; on
/// `Cancelled` nothing else happens.
pub fn call_complete<T, O, E: Fn(T) -> O, C: FnOnce(&mut Env, O)>(
    env: &mut Env,
    status: Status,
    data: Data<T, O, E, C>,
)
    requires
        old(env).wf(),
        old(env)@.work_is_live(data.work()),
        data.wf(),
        data.stage().admits(Trampoline::Complete(status)),
    ensures
        old(env)@.release_work(data.work()).live_works() == old(env)@.live_works() - 1,
        status == Status::Cancelled ==> final(env)@ == old(env)@.release_work(data.work()),
        status == Status::Success ==> exists|e: &mut Env|
            e@ == old(env)@.release_work(data.work()) && *final(e) == *final(env) && call_ensures(
                data.complete(),
                (e, data.state().output().unwrap()),
                (),
            ),
{
    proof {
        lemma_count_live_works_release(old(env)@.works, data.work().id());
    }
    let Data { state, complete, work, .. } = data;

    env.delete_async_work(work);

    match status {
        Status::Success => {
            let output = state.into_output().unwrap();
            assert(env.wf());
            complete(env, output)
        },
        _ => {},
    }
}

/// Of the calls that a scheduled task may get, `execute` is at most one and
/// `complete` is at most one, `execute` comes before `complete` where both are
/// there, and the record is reclaimed exactly when `complete` was called.
pub proof fn lemma_trampolines_in_order(calls: Seq<Trampoline>)
    requires
        Stage::Input.admits_all(calls),
    ensures
        forall|i: int, j: int|
            0 <= i < calls.len() && 0 <= j < calls.len() && calls[i] is Execute && calls[j] is Execute
                ==> i == j,
        forall|i: int, j: int|
            0 <= i < calls.len() && 0 <= j < calls.len() && calls[i] is Complete
                && calls[j] is Complete ==> i == j,
        forall|i: int, j: int|
            0 <= i < calls.len() && 0 <= j < calls.len() && calls[i] is Execute
                && calls[j] is Complete ==> i < j,
        Stage::Input.after_all(calls) == Stage::Reclaimed <==> exists|j: int|
            0 <= j < calls.len() && calls[j] is Complete,
{
    lemma_calls_of_a_task(calls);
    if calls.len() == 2 {
        assert(calls[1] is Complete);
    } else if calls.len() == 1 && calls[0] is Complete {
        assert(calls[0] is Complete);
    }
}

/// The calls that a scheduled task may get are a beginning of `execute` then
/// `complete`, or the one call of `complete` with `Cancelled`.
pub proof fn lemma_calls_of_a_task(calls: Seq<Trampoline>)
    requires
        Stage::Input.admits_all(calls),
    ensures
        calls.len() <= 2,
        calls.len() == 1 ==> calls[0] is Execute || calls[0] == Trampoline::Complete(
            Status::Cancelled,
        ),
        calls.len() == 2 ==> calls[0] is Execute && calls[1] is Complete,
        Stage::Input.after_all(calls) == (if calls.len() == 0 {
            Stage::Input
        } else if calls.last() is Complete {
            Stage::Reclaimed
        } else {
            Stage::Output
        }),
{
    reveal_with_fuel(Stage::admits_all, 4);
    reveal_with_fuel(Stage::after_all, 4);
    if calls.len() > 0 {
        let rest = calls.drop_first();
        if rest.len() > 0 {
            let rest2 = rest.drop_first();
            assert(calls[1] == rest[0]);
            if rest2.len() > 0 {
                assert(Stage::Reclaimed.admits(rest2[0]));
            }
        }
    }
}

/// A task that is cancelled before its execution starts gets no other call:
/// `execute` never runs, so no output is ever produced.
pub proof fn lemma_cancelled_before_execution(calls: Seq<Trampoline>)
    requires
        Stage::Input.admits_all(calls),
        calls.len() > 0,
        calls[0] is Complete,
    ensures
        calls == seq![Trampoline::Complete(Status::Cancelled)],
        forall|i: int| 0 <= i < calls.len() ==> !(calls[i] is Execute),
{
    lemma_calls_of_a_task(calls);
    assert(calls =~= seq![Trampoline::Complete(Status::Cancelled)]);
}

impl<T, O> State<T, O> {
    /// The state that [`State::take_execute_input`] leaves behind.
    pub open spec fn taken(self) -> State<T, O> {
        State::Executing
    }
}

/// A payload is yielded once. Whatever the state, after the input was asked
/// for, asking for it again yields nothing, and so does asking for the
/// output; and no state holds an input and an output at once.
pub proof fn lemma_no_double_consumption<T, O>(state: State<T, O>)
    ensures
        state.taken().input() is None,
        state.taken().output() is None,
        state.taken().taken() == state.taken(),
        !(state.input() is Some && state.output() is Some),
{
}

} // verus!
