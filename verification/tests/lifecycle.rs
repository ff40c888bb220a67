use neon::env::{DeferredState, Env};
use neon::lifecycle::{deliver_drops, DropData, InstanceData, InstanceId, InstanceIds};
use neon::raw::Status;
use neon::tsfn::ThreadsafeFunction;

#[test]
fn instance_data_is_made_once() {
    let mut env = Env::new();
    assert!(!env.has_instance_data());
    let first = InstanceData::id(&mut env);
    assert!(env.has_instance_data());
    let second = InstanceData::id(&mut env);
    assert_eq!(first, second);

    // The queue is the same one: what is put on it stays on it.
    let reference = {
        let value = env.create_object();
        env.create_reference(value)
    };
    InstanceData::drop_queue(&mut env).call(DropData::Ref(reference));
    assert_eq!(InstanceData::drop_queue(&mut env).len(), 1);
    assert_eq!(InstanceData::id(&mut env), first);
    assert_eq!(InstanceData::drop_queue(&mut env).len(), 1);
    let _ = InstanceData::get(&mut env);
    assert_eq!(InstanceData::drop_queue(&mut env).len(), 1);
}

#[test]
fn drop_queue_starts_empty_and_unreferenced() {
    let mut env = Env::new();
    let queue = InstanceData::drop_queue(&mut env);
    assert_eq!(queue.len(), 0);
    assert!(!queue.is_referenced());
}

#[test]
fn instances_of_one_process_have_different_ids() {
    let mut first = Env::new();
    let mut second = first.sibling();
    let mut third = second.sibling();
    // Identifiers go by the order of first use, not of creation.
    let c = InstanceData::id(&mut third);
    let a = InstanceData::id(&mut first);
    let b = InstanceData::id(&mut second);
    assert_ne!(a, b);
    assert_ne!(a, c);
    assert_ne!(b, c);
    assert_eq!(InstanceData::id(&mut first), a);
    assert_eq!(InstanceData::id(&mut third), c);
}

#[test]
fn instance_ids_count_up() {
    let ids = InstanceIds::new();
    let a = InstanceId::next(&ids);
    let b = InstanceId::next(&ids.clone());
    let c = InstanceId::next(&ids);
    assert_ne!(a, b);
    assert_ne!(b, c);
    assert_ne!(a, c);
}

#[test]
fn drops_enqueued_before_teardown_are_each_released_once() {
    let mut env = Env::new();
    let value = env.create_object();
    let kept = env.create_reference(value);
    for _ in 0..5 {
        let reference = env.create_reference(value);
        InstanceData::drop_queue(&mut env).call(DropData::Ref(reference));
    }
    // Nothing is released before the host delivers.
    assert_eq!(env.live_references(), 6);
    assert_eq!(InstanceData::drop_queue(&mut env).len(), 5);

    deliver_drops(&mut env);

    assert_eq!(InstanceData::drop_queue(&mut env).len(), 0);
    assert_eq!(env.live_references(), 1);
    assert!(env.reference_is_live(&kept));

    // Delivering again finds nothing to do.
    deliver_drops(&mut env);
    assert_eq!(env.live_references(), 1);
}

#[test]
fn drop_with_environment_releases_reference() {
    let mut env = Env::new();
    let value = env.create_object();
    let reference = env.create_reference(value);
    let twin = env.create_reference(value);
    assert_eq!(env.live_references(), 2);
    DropData::drop(Some(&mut env), DropData::Ref(reference));
    assert_eq!(env.live_references(), 1);
    assert!(env.reference_is_live(&twin));
}

#[test]
fn released_reference_cannot_be_released_again() {
    let mut env = Env::new();
    let value = env.create_object();
    let reference = env.create_reference(value);
    // A handle of another environment with the same id stands for a second
    // release of the first.
    let again = env.sibling().create_reference(value);
    assert_eq!(env.delete_reference(reference), Status::Success);
    assert_eq!(env.live_references(), 0);
    assert_eq!(env.delete_reference(again), Status::InvalidArg);
    assert_eq!(env.live_references(), 0);
    let stranger = {
        let mut other = env.sibling();
        let _ = other.create_reference(value);
        other.create_reference(value)
    };
    assert_eq!(env.delete_reference(stranger), Status::InvalidArg);
}

#[test]
fn drop_with_environment_abandons_deferred() {
    let mut env = Env::new();
    let deferred = env.create_deferred();
    let untouched = env.create_deferred();
    assert_eq!(env.deferred_state(&deferred), Some(DeferredState::Pending));
    // A handle of another environment with the same id, to look with.
    let probe = env.sibling().create_deferred();
    DropData::drop(Some(&mut env), DropData::Deferred(deferred));
    assert_eq!(env.deferred_state(&probe), Some(DeferredState::Abandoned));
    assert_eq!(env.deferred_state(&untouched), Some(DeferredState::Pending));
}

#[test]
fn deferred_of_another_environment_is_unknown() {
    let env = Env::new();
    let stranger = env.sibling().create_deferred();
    assert_eq!(env.deferred_state(&stranger), None);
    let mut env = env;
    assert_eq!(env.abandon_deferred(stranger), Status::InvalidArg);
}

#[test]
fn drop_without_environment_does_nothing() {
    let mut env = Env::new();
    let value = env.create_object();
    let reference = env.create_reference(value);
    let deferred = env.create_deferred();
    let mut queue: ThreadsafeFunction<DropData> = ThreadsafeFunction::new(&env);
    queue.unref(&env);
    drop(env);

    // The environment is gone; the queue lives on and is still fed.
    queue.call(DropData::Ref(reference));
    queue.call(DropData::Deferred(deferred));
    assert_eq!(queue.len(), 2);
    let mut delivered = 0;
    while let Some(data) = queue.next_call() {
        DropData::drop(None, data);
        delivered += 1;
    }
    assert_eq!(delivered, 2);
    assert_eq!(queue.len(), 0);
}

#[test]
fn two_producers_in_either_order() {
    for swap in [false, true] {
        let mut env = Env::new();
        let value = env.create_object();
        let r1 = env.create_reference(value);
        let r2 = env.create_reference(value);
        let bystander = env.create_reference(value);
        let deferred = env.create_deferred();
        let (first, second) = if swap { (r2, r1) } else { (r1, r2) };
        InstanceData::drop_queue(&mut env).call(DropData::Ref(first));
        InstanceData::drop_queue(&mut env).call(DropData::Ref(second));
        assert_eq!(env.live_references(), 3);
        deliver_drops(&mut env);
        assert_eq!(env.live_references(), 1);
        assert!(env.reference_is_live(&bystander));
        assert_eq!(env.deferred_state(&deferred), Some(DeferredState::Pending));
        assert_eq!(InstanceData::drop_queue(&mut env).len(), 0);
    }
}

#[test]
fn deliver_without_instance_data_does_nothing() {
    let mut env = Env::new();
    deliver_drops(&mut env);
    assert!(!env.has_instance_data());
}

#[test]
fn queue_hands_out_in_order_of_arrival() {
    let env = Env::new();
    let mut queue: ThreadsafeFunction<u32> = ThreadsafeFunction::new(&env);
    assert!(queue.is_referenced());
    assert_eq!(queue.next_call(), None);
    queue.call(1);
    queue.call(2);
    queue.call(3);
    assert_eq!(queue.len(), 3);
    assert_eq!(queue.next_call(), Some(1));
    queue.call(4);
    assert_eq!(queue.next_call(), Some(2));
    assert_eq!(queue.next_call(), Some(3));
    assert_eq!(queue.next_call(), Some(4));
    assert_eq!(queue.next_call(), None);
    assert_eq!(queue.len(), 0);
}

#[test]
fn queue_reference_toggle() {
    let env = Env::new();
    let mut queue: ThreadsafeFunction<u32> = ThreadsafeFunction::new(&env);
    queue.call(9);
    queue.unref(&env);
    assert!(!queue.is_referenced());
    assert_eq!(queue.len(), 1);
    queue.reference(&env);
    assert!(queue.is_referenced());
    assert_eq!(queue.next_call(), Some(9));
}

#[test]
fn pending_calls_keep_the_instance_alive() {
    let env = Env::new();
    let mut queue: ThreadsafeFunction<u32> = ThreadsafeFunction::new(&env);
    assert!(queue.keeps_alive());
    queue.unref(&env);
    assert!(!queue.keeps_alive());
    queue.call(1);
    assert!(queue.keeps_alive());
    assert_eq!(queue.next_call(), Some(1));
    assert!(!queue.keeps_alive());
}

#[test]
fn siblings_draw_from_the_source_of_the_first() {
    let mut first = Env::new();
    let mut second = first.sibling();
    let drawn = InstanceId::next(first.instance_ids());
    let a = InstanceData::id(&mut first);
    let b = InstanceData::id(&mut second);
    let later = InstanceId::next(second.instance_ids());
    assert_ne!(drawn, a);
    assert_ne!(drawn, b);
    assert_ne!(a, b);
    assert_ne!(later, drawn);
    assert_ne!(later, a);
    assert_ne!(later, b);
}

#[test]
fn each_process_starts_its_own_source() {
    let mut one = Env::new();
    let mut other = Env::new();
    assert_eq!(InstanceData::id(&mut one), InstanceData::id(&mut other));
    assert_eq!(InstanceId::next(&InstanceIds::new()), InstanceId::next(&InstanceIds::new()));
}
