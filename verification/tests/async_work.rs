use std::sync::atomic::{AtomicUsize, Ordering};
use std::sync::{Arc, Mutex};

use neon::async_work::{call_complete, call_execute, schedule, State};
use neon::env::Env;
use neon::raw::Status;

fn double(x: u64) -> u64 {
    x * 2
}

#[test]
fn schedule_runs_execute_then_complete_with_the_output() {
    let recorded = Arc::new(Mutex::new(Vec::new()));
    let sink = Arc::clone(&recorded);
    let mut env = Env::new();

    let mut data = match schedule(&mut env, 5u64, double, move |_env: &mut Env, output: u64| {
        sink.lock().unwrap().push(output);
    }) {
        Ok(data) => data,
        Err(status) => panic!("the pool refused the work: {:?}", status),
    };
    let work = data.work_handle();
    assert!(env.work_is_live(work));
    assert!(recorded.lock().unwrap().is_empty());

    call_execute(&mut data);
    assert!(recorded.lock().unwrap().is_empty());
    assert!(env.work_is_live(work));

    call_complete(&mut env, Status::Success, data);
    assert_eq!(*recorded.lock().unwrap(), vec![10u64]);
    assert!(!env.work_is_live(work));
}

#[test]
fn execute_runs_once_per_task() {
    let runs = Arc::new(AtomicUsize::new(0));
    let counter = Arc::clone(&runs);
    let completions = Arc::new(AtomicUsize::new(0));
    let completed = Arc::clone(&completions);
    let mut env = Env::new();

    let mut data = schedule(
        &mut env,
        7u32,
        move |x: u32| {
            counter.fetch_add(1, Ordering::SeqCst);
            x + 1
        },
        move |_env: &mut Env, output: u32| {
            assert_eq!(output, 8);
            completed.fetch_add(1, Ordering::SeqCst);
        },
    )
    .ok()
    .unwrap();
    assert_eq!(runs.load(Ordering::SeqCst), 0);
    call_execute(&mut data);
    assert_eq!(runs.load(Ordering::SeqCst), 1);
    assert_eq!(completions.load(Ordering::SeqCst), 0);
    call_complete(&mut env, Status::Success, data);
    assert_eq!(runs.load(Ordering::SeqCst), 1);
    assert_eq!(completions.load(Ordering::SeqCst), 1);
}

#[test]
fn cancelled_task_never_reaches_complete() {
    let runs = Arc::new(AtomicUsize::new(0));
    let counter = Arc::clone(&runs);
    let completions = Arc::new(AtomicUsize::new(0));
    let completed = Arc::clone(&completions);
    let mut env = Env::new();

    let data = schedule(
        &mut env,
        5u64,
        move |x: u64| {
            counter.fetch_add(1, Ordering::SeqCst);
            x * 2
        },
        move |_env: &mut Env, _output: u64| {
            completed.fetch_add(1, Ordering::SeqCst);
        },
    )
    .ok()
    .unwrap();
    let work = data.work_handle();
    assert!(env.work_is_live(work));

    assert_eq!(env.live_works(), 1);
    call_complete(&mut env, Status::Cancelled, data);
    assert_eq!(env.live_works(), 0);

    assert_eq!(runs.load(Ordering::SeqCst), 0);
    assert_eq!(completions.load(Ordering::SeqCst), 0);
    assert!(!env.work_is_live(work));
    // The handle is dead: the host refuses to release it a second time.
    assert_eq!(env.delete_async_work(work), Status::InvalidArg);
}

#[test]
fn cancelled_after_execution_drops_the_output() {
    let completions = Arc::new(AtomicUsize::new(0));
    let completed = Arc::clone(&completions);
    let mut env = Env::new();
    let mut data = schedule(&mut env, 1u8, |x: u8| x, move |_env: &mut Env, _output: u8| {
        completed.fetch_add(1, Ordering::SeqCst);
    })
    .ok()
    .unwrap();
    let work = data.work_handle();
    call_execute(&mut data);
    call_complete(&mut env, Status::Cancelled, data);
    assert_eq!(completions.load(Ordering::SeqCst), 0);
    assert!(!env.work_is_live(work));
}

#[test]
fn refused_submission_releases_the_handle() {
    let runs = Arc::new(AtomicUsize::new(0));
    let counter = Arc::clone(&runs);
    let mut env = Env::new();
    env.set_accepts_work(false);

    let scheduled = schedule(
        &mut env,
        5u64,
        move |x: u64| {
            counter.fetch_add(1, Ordering::SeqCst);
            x
        },
        |_env: &mut Env, _output: u64| {},
    );
    let status = match scheduled {
        Ok(_) => panic!("the pool took work that it was to refuse"),
        Err(status) => status,
    };
    assert_eq!(status, Status::GenericFailure);
    assert_eq!(runs.load(Ordering::SeqCst), 0);
    assert_eq!(env.live_works(), 0);

    // The one handle that was given out is dead again.
    env.set_accepts_work(true);
    let next = schedule(&mut env, 1u64, double, |_env: &mut Env, _output: u64| {}).ok().unwrap();
    let work = next.work_handle();
    assert!(env.work_is_live(work));
    call_complete(&mut env, Status::Cancelled, next);
    assert!(!env.work_is_live(work));
}

#[test]
fn refused_submission_drops_the_record() {
    // The input and both functions go down with the record.
    let witness = Arc::new(());
    let in_input = Arc::clone(&witness);
    let in_complete = Arc::clone(&witness);
    let mut env = Env::new();
    env.set_accepts_work(false);
    let scheduled = schedule(
        &mut env,
        in_input,
        |input: Arc<()>| Arc::strong_count(&input),
        move |_env: &mut Env, _count: usize| {
            let _ = &in_complete;
        },
    );
    assert!(scheduled.is_err());
    drop(scheduled);
    assert_eq!(Arc::strong_count(&witness), 1);
}

#[test]
fn completion_frees_the_record() {
    let witness = Arc::new(());
    let in_complete = Arc::clone(&witness);
    let mut env = Env::new();
    let data = schedule(&mut env, 0u8, |x: u8| x, move |_env: &mut Env, _output: u8| {
        let _ = &in_complete;
    })
    .ok()
    .unwrap();
    assert_eq!(Arc::strong_count(&witness), 2);
    call_complete(&mut env, Status::Cancelled, data);
    assert_eq!(Arc::strong_count(&witness), 1);
}

#[test]
fn tasks_complete_in_any_order() {
    let recorded = Arc::new(Mutex::new(Vec::new()));
    let first_sink = Arc::clone(&recorded);
    let second_sink = Arc::clone(&recorded);
    let mut env = Env::new();
    let mut first = schedule(&mut env, 1u64, double, move |_env: &mut Env, o: u64| {
        first_sink.lock().unwrap().push(o);
    })
    .ok()
    .unwrap();
    let mut second = schedule(&mut env, 2u64, double, move |_env: &mut Env, o: u64| {
        second_sink.lock().unwrap().push(o);
    })
    .ok()
    .unwrap();
    assert_ne!(first.work_handle(), second.work_handle());
    assert_eq!(env.live_works(), 2);
    call_execute(&mut second);
    call_execute(&mut first);
    call_complete(&mut env, Status::Success, second);
    call_complete(&mut env, Status::Success, first);
    assert_eq!(*recorded.lock().unwrap(), vec![4u64, 2u64]);
    assert_eq!(env.live_works(), 0);
}

#[test]
fn complete_may_use_the_environment() {
    let mut env = Env::new();
    let mut data = schedule(&mut env, 20u64, double, |env: &mut Env, output: u64| {
        env.create_number(output);
    })
    .ok()
    .unwrap();
    call_execute(&mut data);
    let made = env.create_object();
    call_complete(&mut env, Status::Success, data);
    let next = env.create_object();
    // One value was made between the two objects: the number.
    assert!(env.get(made).is_some());
    assert!(env.get(next).is_some());
    assert_ne!(made, next);
}

#[test]
fn take_execute_input_yields_the_input_once() {
    let mut state: State<u32, u32> = State::Input(5);
    assert_eq!(state.take_execute_input(), Some(5));
    assert!(matches!(state, State::Executing));
    assert_eq!(state.take_execute_input(), None);
    assert!(matches!(state, State::Executing));
    assert_eq!(state.into_output(), None);
}

#[test]
fn take_execute_input_of_an_output_yields_nothing() {
    let mut state: State<u32, u32> = State::Output(9);
    assert_eq!(state.take_execute_input(), None);
    assert!(matches!(state, State::Executing));
}

#[test]
fn into_output_yields_the_output_only() {
    assert_eq!(State::<u32, u32>::Output(9).into_output(), Some(9));
    assert_eq!(State::<u32, u32>::Input(9).into_output(), None);
    assert_eq!(State::<u32, u32>::Executing.into_output(), None);
}

#[test]
fn host_refuses_to_queue_what_is_not_registered() {
    let mut env = Env::new();
    let work = env.create_async_work();
    assert_eq!(env.queue_async_work(work), Status::Success);
    assert_eq!(env.queue_async_work(work), Status::InvalidArg);
    assert_eq!(env.delete_async_work(work), Status::Success);
    assert_eq!(env.queue_async_work(work), Status::InvalidArg);
    let other = Env::new().create_async_work();
    let mut empty = Env::new();
    assert_eq!(empty.queue_async_work(other), Status::InvalidArg);
    assert_eq!(empty.delete_async_work(other), Status::InvalidArg);
}
