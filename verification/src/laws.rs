//! The guarantees the controller gives across calls, each proved from the
//! transition relations that the call contracts establish.

use vstd::prelude::*;

use crate::actor::{
    clear_outcome, construct_outcome, enqueue_outcome, is_privileged, Actor,
};
use crate::error::ActorError;
use crate::store::Store;

verus! {

/// Height isolation: a successful enqueue at one height leaves the queue at
/// every other height exactly as it was.
pub proof fn lemma_height_isolation(
    pre: Actor,
    pre_s: Store,
    h1: u64,
    tag: Seq<u8>,
    post: Actor,
    post_s: Store,
    r: Result<(), ActorError>,
    h2: u64,
)
    requires
        enqueue_outcome(pre, pre_s, h1, tag, post, post_s, r),
        r is Ok,
        h1 != h2,
    ensures
        post.tags(post_s, h2) == pre.tags(pre_s, h2),
        post.has(post_s, h2) == pre.has(pre_s, h2),
{
}

/// Append order: three enqueues at one height extend its queue by the three
/// tags in call order, so a read finds them exactly in that order.
pub proof fn lemma_append_order(
    a0: Actor,
    s0: Store,
    h: u64,
    t1: Seq<u8>,
    t2: Seq<u8>,
    t3: Seq<u8>,
    a1: Actor,
    s1: Store,
    r1: Result<(), ActorError>,
    a2: Actor,
    s2: Store,
    r2: Result<(), ActorError>,
    a3: Actor,
    s3: Store,
    r3: Result<(), ActorError>,
)
    requires
        enqueue_outcome(a0, s0, h, t1, a1, s1, r1),
        r1 is Ok,
        enqueue_outcome(a1, s1, h, t2, a2, s2, r2),
        r2 is Ok,
        enqueue_outcome(a2, s2, h, t3, a3, s3, r3),
        r3 is Ok,
    ensures
        a3.tags(s3, h) == a0.tags(s0, h) + seq![t1, t2, t3],
        a0.tags(s0, h) == Seq::<Seq<u8>>::empty() ==> a3.tags(s3, h) == seq![t1, t2, t3],
{
    assert(a3.tags(s3, h) =~= a0.tags(s0, h) + seq![t1, t2, t3]);
    if a0.tags(s0, h) == Seq::<Seq<u8>>::empty() {
        assert(a3.tags(s3, h) =~= seq![t1, t2, t3]);
    }
}

/// Idempotent clear: right after a successful clear at a height, a second
/// clear there succeeds, keeps the very same committed root and store, and
/// the height still reads as never populated.
pub proof fn lemma_clear_idempotent(
    a0: Actor,
    s0: Store,
    caller: u64,
    h: u64,
    a1: Actor,
    s1: Store,
    r1: Result<(), ActorError>,
    a2: Actor,
    s2: Store,
    r2: Result<(), ActorError>,
)
    requires
        clear_outcome(a0, s0, caller, h, a1, s1, r1),
        r1 is Ok,
        clear_outcome(a1, s1, caller, h, a2, s2, r2),
    ensures
        r2 is Ok,
        a2 == a1,
        s2 == s1,
        !a2.has(s2, h),
        a2.tags(s2, h) == Seq::<Seq<u8>>::empty(),
{
}

/// Atomic commit: an enqueue that fails — for want of construction or on a
/// storage fault — leaves the committed root and the store exactly as they
/// were before the call.
pub proof fn lemma_failed_enqueue_commits_nothing(
    pre: Actor,
    pre_s: Store,
    height: u64,
    tag: Seq<u8>,
    post: Actor,
    post_s: Store,
    r: Result<(), ActorError>,
)
    requires
        enqueue_outcome(pre, pre_s, height, tag, post, post_s, r),
        r is Err,
    ensures
        post == pre,
        post_s == pre_s,
{
}

/// Single construction: once a construction has succeeded, any further
/// constructor call fails with an authorization error and leaves the
/// committed root and the store exactly as the first construction left them.
pub proof fn lemma_single_construction(
    a0: Actor,
    s0: Store,
    c1: u64,
    a1: Actor,
    s1: Store,
    r1: Result<(), ActorError>,
    c2: u64,
    a2: Actor,
    s2: Store,
    r2: Result<(), ActorError>,
)
    requires
        construct_outcome(a0, s0, c1, a1, s1, r1),
        r1 is Ok,
        construct_outcome(a1, s1, c2, a2, s2, r2),
    ensures
        r2 == Err::<(), ActorError>(ActorError::Authorization),
        a2 == a1,
        s2 == s1,
{
}

/// Authorization: a clearing call from an unprivileged identity is rejected
/// with an authorization error and changes nothing.
pub proof fn lemma_unprivileged_clear_rejected(
    pre: Actor,
    pre_s: Store,
    caller: u64,
    height: u64,
    post: Actor,
    post_s: Store,
    r: Result<(), ActorError>,
)
    requires
        clear_outcome(pre, pre_s, caller, height, post, post_s, r),
        !is_privileged(caller),
    ensures
        r == Err::<(), ActorError>(ActorError::Authorization),
        post == pre,
        post_s == pre_s,
{
}

} // verus!
