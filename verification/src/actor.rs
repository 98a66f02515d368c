//! The state controller: one actor instance owning the committed root of the
//! Tag Store. Each call loads the committed root, performs one mutation, and
//! commits the new root only when the whole mutation succeeded, so a failed
//! call leaves the committed state exactly as it was. The constructor and
//! the clearing call are open to the privileged system identity alone; the
//! enqueue call is open to anyone.

use vstd::prelude::*;

use crate::error::ActorError;
use crate::store::{queue_view, Store};
use crate::tagstore::{extends, initialize, insert, read, remove, root_has, root_tags, valid_root};

verus! {

/// The distinguished system identity allowed to construct the actor and to
/// clear queues.
pub const SYSTEM_ACTOR_ID: u64 = 0;

/// The capability check gating the constructor and the clearing call.
pub open spec fn is_privileged(caller: u64) -> bool {
    caller == SYSTEM_ACTOR_ID
}

/// The three calls the actor answers, each with its payload.
pub enum Method {
    Constructor,
    EnqueueTag(Vec<u8>),
    ClearTag,
}

/// One actor instance: the committed root of its Tag Store, or nothing
/// before the constructor has run.
pub struct Actor {
    pub state_root: Option<usize>,
}

impl Actor {
    /// The name this actor registers under.
    pub fn name() -> (s: &'static str)
        ensures
            s@ == "cetf"@,
    {
        "cetf"
    }

    /// A freshly deployed actor, not yet constructed.
    pub fn new() -> (a: Actor)
        ensures
            !a.ready(),
    {
        Actor { state_root: None }
    }

    /// Whether the constructor has committed a root.
    pub open spec fn ready(self) -> bool {
        self.state_root is Some
    }

    /// The committed root digest, meaningful only when ready.
    pub open spec fn root(self) -> usize {
        match self.state_root {
            Some(r) => r,
            None => 0,
        }
    }

    /// The committed root denotes a well-formed mapping in `s`.
    pub open spec fn wf(self, s: Store) -> bool {
        self.ready() ==> valid_root(s, self.root())
    }

    /// Whether the committed mapping records height `h`.
    pub open spec fn has(self, s: Store, h: u64) -> bool {
        self.ready() && root_has(s, self.root(), h)
    }

    /// The committed queue at height `h`: every tag enqueued there since the
    /// last clear, oldest first; empty before construction.
    pub open spec fn tags(self, s: Store, h: u64) -> Seq<Seq<u8>> {
        if self.ready() {
            root_tags(s, self.root(), h)
        } else {
            Seq::empty()
        }
    }
}

/// Everything a constructor call does, success and failure alike: run by the
/// privileged identity on a fresh actor it commits the empty mapping; run
/// twice, by anyone else, or over a failing store it reports the exact error
/// and commits nothing.
pub open spec fn construct_outcome(
    pre: Actor,
    pre_s: Store,
    caller: u64,
    post: Actor,
    post_s: Store,
    r: Result<(), ActorError>,
) -> bool {
    match r {
        Ok(_) => {
            &&& is_privileged(caller)
            &&& !pre.ready()
            &&& !pre_s.fail_writes
            &&& post.ready()
            &&& post.wf(post_s)
            &&& extends(pre_s, post_s)
            &&& forall|h: u64| !post.has(post_s, h)
            &&& forall|h: u64| post.tags(post_s, h) == Seq::<Seq<u8>>::empty()
        },
        Err(e) => {
            &&& post == pre
            &&& post_s == pre_s
            &&& (e == ActorError::Authorization <==> (!is_privileged(caller) || pre.ready()))
            &&& (e == ActorError::Storage <==> (is_privileged(caller) && !pre.ready()
                && pre_s.fail_writes))
            &&& e != ActorError::NotInitialized
        },
    }
}

/// Everything an enqueue call does: on a constructed actor with a working
/// store it appends the tag at the caller's height and touches no other
/// height; otherwise it reports the exact error and commits nothing.
pub open spec fn enqueue_outcome(
    pre: Actor,
    pre_s: Store,
    height: u64,
    tag: Seq<u8>,
    post: Actor,
    post_s: Store,
    r: Result<(), ActorError>,
) -> bool {
    match r {
        Ok(_) => {
            &&& pre.ready()
            &&& !pre_s.fail_writes
            &&& post.ready()
            &&& post.wf(post_s)
            &&& extends(pre_s, post_s)
            &&& post.has(post_s, height)
            &&& post.tags(post_s, height) == pre.tags(pre_s, height).push(tag)
            &&& forall|h2: u64| h2 != height ==> post.has(post_s, h2) == pre.has(pre_s, h2)
            &&& forall|h2: u64| h2 != height ==> post.tags(post_s, h2) == pre.tags(pre_s, h2)
        },
        Err(e) => {
            &&& post == pre
            &&& post_s == pre_s
            &&& (e == ActorError::NotInitialized <==> !pre.ready())
            &&& (e == ActorError::Storage <==> (pre.ready() && pre_s.fail_writes))
            &&& e != ActorError::Authorization
        },
    }
}

/// Everything a clearing call does: run by the privileged identity on a
/// constructed actor it erases the entry at the caller's height — clearing a
/// height that was never recorded is a successful no-op that keeps the very
/// same root; otherwise it reports the exact error and commits nothing.
pub open spec fn clear_outcome(
    pre: Actor,
    pre_s: Store,
    caller: u64,
    height: u64,
    post: Actor,
    post_s: Store,
    r: Result<(), ActorError>,
) -> bool {
    match r {
        Ok(_) => {
            &&& is_privileged(caller)
            &&& pre.ready()
            &&& post.ready()
            &&& post.wf(post_s)
            &&& extends(pre_s, post_s)
            &&& !post.has(post_s, height)
            &&& post.tags(post_s, height) == Seq::<Seq<u8>>::empty()
            &&& forall|h2: u64| h2 != height ==> post.has(post_s, h2) == pre.has(pre_s, h2)
            &&& forall|h2: u64| h2 != height ==> post.tags(post_s, h2) == pre.tags(pre_s, h2)
            &&& (!pre.has(pre_s, height) ==> (post == pre && post_s == pre_s))
            &&& (pre.has(pre_s, height) ==> !pre_s.fail_writes)
        },
        Err(e) => {
            &&& post == pre
            &&& post_s == pre_s
            &&& (e == ActorError::Authorization <==> !is_privileged(caller))
            &&& (e == ActorError::NotInitialized <==> (is_privileged(caller) && !pre.ready()))
            &&& (e == ActorError::Storage <==> (is_privileged(caller) && pre.ready()
                && pre_s.fail_writes && pre.has(pre_s, height)))
        },
    }
}

impl Actor {
    /// Bootstrap the actor: commit the empty mapping as its first root.
    /// Privileged-only, and allowed exactly once; a repeat or an
    /// unprivileged attempt is an authorization error that changes nothing.
    pub fn constructor(&mut self, store: &mut Store, caller: u64) -> (r: Result<(), ActorError>)
        ensures
            construct_outcome(*old(self), *old(store), caller, *final(self), *final(store), r),
    {
        if caller != SYSTEM_ACTOR_ID {
            return Err(ActorError::Authorization);
        }
        match self.state_root {
            Some(_) => Err(ActorError::Authorization),
            None => match initialize(store) {
                Ok(root) => {
                    self.state_root = Some(root);
                    Ok(())
                },
                Err(e) => Err(e),
            },
        }
    }

    /// Enqueue one tag at the caller's height, creating the queue on first
    /// use. Open to any caller; a failure commits nothing.
    pub fn enqueue_tag(&mut self, store: &mut Store, height: u64, tag: Vec<u8>) -> (r: Result<
        (),
        ActorError,
    >)
        requires
            old(self).wf(*old(store)),
        ensures
            enqueue_outcome(
                *old(self),
                *old(store),
                height,
                tag@,
                *final(self),
                *final(store),
                r,
            ),
    {
        let root = match self.state_root {
            Some(r) => r,
            None => {
                return Err(ActorError::NotInitialized);
            },
        };
        match insert(store, root, height, tag) {
            Ok(nr) => {
                self.state_root = Some(nr);
                Ok(())
            },
            Err(e) => Err(e),
        }
    }

    /// Erase the whole queue at the caller's height, so a later read finds
    /// it never populated; erasing an absent height succeeds and keeps the
    /// very same root. Privileged-only; a failure commits nothing.
    pub fn clear_tag(&mut self, store: &mut Store, caller: u64, height: u64) -> (r: Result<
        (),
        ActorError,
    >)
        requires
            old(self).wf(*old(store)),
        ensures
            clear_outcome(
                *old(self),
                *old(store),
                caller,
                height,
                *final(self),
                *final(store),
                r,
            ),
    {
        if caller != SYSTEM_ACTOR_ID {
            return Err(ActorError::Authorization);
        }
        let root = match self.state_root {
            Some(r) => r,
            None => {
                return Err(ActorError::NotInitialized);
            },
        };
        match remove(store, root, height) {
            Ok(nr) => {
                self.state_root = Some(nr);
                Ok(())
            },
            Err(e) => Err(e),
        }
    }

    /// Read back the committed queue at a height: exactly the tags enqueued
    /// there since the last clear, oldest first.
    pub fn read(&self, store: &Store, height: u64) -> (r: Result<Vec<Vec<u8>>, ActorError>)
        requires
            self.wf(*store),
        ensures
            match r {
                Ok(q) => self.ready() && queue_view(q@) == self.tags(*store, height),
                Err(e) => e == ActorError::NotInitialized && !self.ready(),
            },
    {
        match self.state_root {
            Some(root) => Ok(read(store, root, height)),
            None => Err(ActorError::NotInitialized),
        }
    }

    /// Answer one dispatched call: route the method variant to its handler
    /// with the caller's identity and height.
    pub fn handle(&mut self, store: &mut Store, caller: u64, height: u64, method: Method) -> (r:
        Result<(), ActorError>)
        requires
            old(self).wf(*old(store)),
        ensures
            match method {
                Method::Constructor => construct_outcome(
                    *old(self),
                    *old(store),
                    caller,
                    *final(self),
                    *final(store),
                    r,
                ),
                Method::EnqueueTag(tag) => enqueue_outcome(
                    *old(self),
                    *old(store),
                    height,
                    tag@,
                    *final(self),
                    *final(store),
                    r,
                ),
                Method::ClearTag => clear_outcome(
                    *old(self),
                    *old(store),
                    caller,
                    height,
                    *final(self),
                    *final(store),
                    r,
                ),
            },
    {
        match method {
            Method::Constructor => self.constructor(store, caller),
            Method::EnqueueTag(tag) => self.enqueue_tag(store, height, tag),
            Method::ClearTag => self.clear_tag(store, caller, height),
        }
    }
}

} // verus!
