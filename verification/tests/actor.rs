use cetf_actor::actor::{Actor, Method, SYSTEM_ACTOR_ID};
use cetf_actor::error::ActorError;
use cetf_actor::store::Store;

fn ready_actor() -> (Actor, Store) {
    let mut store = Store::new();
    let mut actor = Actor::new();
    actor.constructor(&mut store, SYSTEM_ACTOR_ID).unwrap();
    (actor, store)
}

#[test]
fn construct_enqueue_read() {
    let (mut actor, mut store) = ready_actor();
    actor.enqueue_tag(&mut store, 5, b"x".to_vec()).unwrap();
    assert_eq!(actor.read(&store, 5).unwrap(), vec![b"x".to_vec()]);
}

#[test]
fn two_enqueues_read_in_order() {
    let (mut actor, mut store) = ready_actor();
    actor.enqueue_tag(&mut store, 5, b"x".to_vec()).unwrap();
    actor.enqueue_tag(&mut store, 5, b"y".to_vec()).unwrap();
    assert_eq!(
        actor.read(&store, 5).unwrap(),
        vec![b"x".to_vec(), b"y".to_vec()]
    );
    assert_eq!(actor.read(&store, 6).unwrap(), Vec::<Vec<u8>>::new());
}

#[test]
fn three_enqueues_keep_call_order() {
    let (mut actor, mut store) = ready_actor();
    actor.enqueue_tag(&mut store, 7, b"tag1".to_vec()).unwrap();
    actor.enqueue_tag(&mut store, 7, b"tag2".to_vec()).unwrap();
    actor.enqueue_tag(&mut store, 7, b"tag3".to_vec()).unwrap();
    assert_eq!(
        actor.read(&store, 7).unwrap(),
        vec![b"tag1".to_vec(), b"tag2".to_vec(), b"tag3".to_vec()]
    );
}

#[test]
fn heights_are_isolated() {
    let (mut actor, mut store) = ready_actor();
    actor.enqueue_tag(&mut store, 5, b"x".to_vec()).unwrap();
    actor.enqueue_tag(&mut store, 7, b"y".to_vec()).unwrap();
    assert_eq!(actor.read(&store, 5).unwrap(), vec![b"x".to_vec()]);
    assert_eq!(actor.read(&store, 7).unwrap(), vec![b"y".to_vec()]);
    assert_eq!(actor.read(&store, 6).unwrap(), Vec::<Vec<u8>>::new());
}

#[test]
fn clear_after_enqueue_reads_empty() {
    let (mut actor, mut store) = ready_actor();
    actor.enqueue_tag(&mut store, 5, b"x".to_vec()).unwrap();
    actor.clear_tag(&mut store, SYSTEM_ACTOR_ID, 5).unwrap();
    assert_eq!(actor.read(&store, 5).unwrap(), Vec::<Vec<u8>>::new());
}

#[test]
fn clear_untouched_height_is_noop() {
    let (mut actor, mut store) = ready_actor();
    let root_before = actor.state_root;
    actor.clear_tag(&mut store, SYSTEM_ACTOR_ID, 9).unwrap();
    assert_eq!(actor.state_root, root_before);
    assert_eq!(actor.read(&store, 9).unwrap(), Vec::<Vec<u8>>::new());
}

#[test]
fn clear_is_idempotent() {
    let (mut actor, mut store) = ready_actor();
    actor.enqueue_tag(&mut store, 5, b"x".to_vec()).unwrap();
    actor.clear_tag(&mut store, SYSTEM_ACTOR_ID, 5).unwrap();
    let root_after_first = actor.state_root;
    actor.clear_tag(&mut store, SYSTEM_ACTOR_ID, 5).unwrap();
    assert_eq!(actor.state_root, root_after_first);
    assert_eq!(actor.read(&store, 5).unwrap(), Vec::<Vec<u8>>::new());
}

#[test]
fn enqueue_after_clear_starts_fresh() {
    let (mut actor, mut store) = ready_actor();
    actor.enqueue_tag(&mut store, 5, b"x".to_vec()).unwrap();
    actor.clear_tag(&mut store, SYSTEM_ACTOR_ID, 5).unwrap();
    actor.enqueue_tag(&mut store, 5, b"z".to_vec()).unwrap();
    assert_eq!(actor.read(&store, 5).unwrap(), vec![b"z".to_vec()]);
}

#[test]
fn failed_enqueue_commits_nothing() {
    let (mut actor, mut store) = ready_actor();
    actor.enqueue_tag(&mut store, 5, b"x".to_vec()).unwrap();
    let root_before = actor.state_root;
    store.set_write_fault(true);
    let r = actor.enqueue_tag(&mut store, 5, b"y".to_vec());
    assert_eq!(r, Err(ActorError::Storage));
    assert_eq!(actor.state_root, root_before);
    assert_eq!(actor.read(&store, 5).unwrap(), vec![b"x".to_vec()]);
}

#[test]
fn failed_clear_commits_nothing() {
    let (mut actor, mut store) = ready_actor();
    actor.enqueue_tag(&mut store, 5, b"x".to_vec()).unwrap();
    let root_before = actor.state_root;
    store.set_write_fault(true);
    let r = actor.clear_tag(&mut store, SYSTEM_ACTOR_ID, 5);
    assert_eq!(r, Err(ActorError::Storage));
    assert_eq!(actor.state_root, root_before);
    assert_eq!(actor.read(&store, 5).unwrap(), vec![b"x".to_vec()]);
}

#[test]
fn second_construction_is_rejected() {
    let (mut actor, mut store) = ready_actor();
    let root_before = actor.state_root;
    let r = actor.constructor(&mut store, SYSTEM_ACTOR_ID);
    assert_eq!(r, Err(ActorError::Authorization));
    assert_eq!(actor.state_root, root_before);
}

#[test]
fn unprivileged_construction_is_rejected() {
    let mut store = Store::new();
    let mut actor = Actor::new();
    let r = actor.constructor(&mut store, 42);
    assert_eq!(r, Err(ActorError::Authorization));
    assert_eq!(actor.state_root, None);
}

#[test]
fn construction_over_faulty_store_fails() {
    let mut store = Store::new();
    store.set_write_fault(true);
    let mut actor = Actor::new();
    let r = actor.constructor(&mut store, SYSTEM_ACTOR_ID);
    assert_eq!(r, Err(ActorError::Storage));
    assert_eq!(actor.state_root, None);
}

#[test]
fn unprivileged_clear_is_rejected() {
    let (mut actor, mut store) = ready_actor();
    actor.enqueue_tag(&mut store, 5, b"x".to_vec()).unwrap();
    let root_before = actor.state_root;
    let r = actor.clear_tag(&mut store, 42, 5);
    assert_eq!(r, Err(ActorError::Authorization));
    assert_eq!(actor.state_root, root_before);
    assert_eq!(actor.read(&store, 5).unwrap(), vec![b"x".to_vec()]);
}

#[test]
fn calls_before_construction_are_rejected() {
    let mut store = Store::new();
    let mut actor = Actor::new();
    assert_eq!(
        actor.enqueue_tag(&mut store, 5, b"x".to_vec()),
        Err(ActorError::NotInitialized)
    );
    assert_eq!(
        actor.clear_tag(&mut store, SYSTEM_ACTOR_ID, 5),
        Err(ActorError::NotInitialized)
    );
    assert_eq!(actor.read(&store, 5), Err(ActorError::NotInitialized));
}

#[test]
fn empty_tag_is_kept() {
    let (mut actor, mut store) = ready_actor();
    actor.enqueue_tag(&mut store, 0, Vec::new()).unwrap();
    assert_eq!(actor.read(&store, 0).unwrap(), vec![Vec::<u8>::new()]);
}

#[test]
fn duplicate_tags_are_appended_not_deduplicated() {
    let (mut actor, mut store) = ready_actor();
    actor.enqueue_tag(&mut store, 5, b"x".to_vec()).unwrap();
    actor.enqueue_tag(&mut store, 5, b"x".to_vec()).unwrap();
    assert_eq!(
        actor.read(&store, 5).unwrap(),
        vec![b"x".to_vec(), b"x".to_vec()]
    );
}

#[test]
fn extreme_heights_work() {
    let (mut actor, mut store) = ready_actor();
    actor.enqueue_tag(&mut store, 0, b"low".to_vec()).unwrap();
    actor
        .enqueue_tag(&mut store, u64::MAX, b"high".to_vec())
        .unwrap();
    assert_eq!(actor.read(&store, 0).unwrap(), vec![b"low".to_vec()]);
    assert_eq!(actor.read(&store, u64::MAX).unwrap(), vec![b"high".to_vec()]);
}

#[test]
fn dispatch_routes_each_method() {
    let mut store = Store::new();
    let mut actor = Actor::new();
    actor
        .handle(&mut store, SYSTEM_ACTOR_ID, 0, Method::Constructor)
        .unwrap();
    actor
        .handle(&mut store, 7, 5, Method::EnqueueTag(b"x".to_vec()))
        .unwrap();
    assert_eq!(actor.read(&store, 5).unwrap(), vec![b"x".to_vec()]);
    let r = actor.handle(&mut store, 7, 5, Method::ClearTag);
    assert_eq!(r, Err(ActorError::Authorization));
    actor
        .handle(&mut store, SYSTEM_ACTOR_ID, 5, Method::ClearTag)
        .unwrap();
    assert_eq!(actor.read(&store, 5).unwrap(), Vec::<Vec<u8>>::new());
}

#[test]
fn actor_name() {
    assert_eq!(Actor::name(), "cetf");
}
