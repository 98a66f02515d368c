//! The Tag Store: a durable mapping from height to its queue of tags, kept
//! under a single root digest. Every operation reloads the mapping from a
//! digest, rewrites it, and persists a new digest; nothing is mutated in
//! place, so older roots keep their meaning and a failed write leaves the
//! committed mapping exactly as it was.

use vstd::prelude::*;

use crate::error::ActorError;
use crate::store::{
    Entry, Node, Store, has_height, lemma_equiv_same_mapping, lemma_has_height_index,
    lemma_tags_at_absent, lemma_tags_at_found, lemma_tags_at_push, lemma_tags_at_remove,
    lemma_tags_at_update, queue_view, tags_at, unique_heights,
};

verus! {

/// A digest that denotes a well-formed mapping in `s`.
pub open spec fn valid_root(s: Store, root: usize) -> bool {
    root < s.nodes@.len() && unique_heights(s.nodes@[root as int].entries@)
}

/// Whether the mapping under `root` records height `h` at all.
pub open spec fn root_has(s: Store, root: usize, h: u64) -> bool {
    has_height(s.nodes@[root as int].entries@, h)
}

/// The queue the mapping under `root` holds at height `h`; empty when `h`
/// is absent.
pub open spec fn root_tags(s: Store, root: usize, h: u64) -> Seq<Seq<u8>> {
    tags_at(s.nodes@[root as int].entries@, h)
}

/// The store after a call grew from the store before it: every node already
/// present is still there, unchanged, so every old digest keeps denoting the
/// same mapping.
pub open spec fn extends(pre: Store, post: Store) -> bool {
    &&& pre.nodes@.len() <= post.nodes@.len()
    &&& forall|i: int| 0 <= i < pre.nodes@.len() ==> post.nodes@[i] == pre.nodes@[i]
    &&& post.fail_writes == pre.fail_writes
}

/// Create the empty mapping and persist it. Fails exactly on a write fault,
/// and then changes nothing.
pub fn initialize(store: &mut Store) -> (r: Result<usize, ActorError>)
    ensures
        match r {
            Ok(root) => {
                &&& !old(store).fail_writes
                &&& extends(*old(store), *final(store))
                &&& root == old(store).nodes@.len()
                &&& valid_root(*final(store), root)
                &&& forall|h: u64| !root_has(*final(store), root, h)
                &&& forall|h: u64| root_tags(*final(store), root, h) == Seq::<Seq<u8>>::empty()
            },
            Err(e) => {
                &&& e == ActorError::Storage
                &&& old(store).fail_writes
                &&& *final(store) == *old(store)
            },
        },
{
    let node = Node { entries: Vec::new() };
    store.put(node)
}

/// The index of the entry keyed by `h`, if one is recorded.
fn find_entry(entries: &Vec<Entry>, h: u64) -> (r: Option<usize>)
    ensures
        match r {
            Some(i) => i < entries@.len() && entries@[i as int].height == h,
            None => forall|k: int| 0 <= k < entries@.len() ==> (#[trigger] entries@[k]).height != h,
        },
{
    let mut i: usize = 0;
    while i < entries.len()
        invariant
            i <= entries@.len(),
            forall|k: int| 0 <= k < i ==> (#[trigger] entries@[k]).height != h,
        decreases entries@.len() - i,
    {
        if entries[i].height == h {
            return Some(i);
        }
        i = i + 1;
    }
    None
}

/// Append `tag` to the queue at `height` — a missing queue counts as empty —
/// and persist the rewritten mapping under a fresh root. Fails exactly on a
/// write fault, and then changes nothing.
pub fn insert(store: &mut Store, root: usize, height: u64, tag: Vec<u8>) -> (r: Result<
    usize,
    ActorError,
>)
    requires
        valid_root(*old(store), root),
    ensures
        match r {
            Ok(nr) => {
                &&& !old(store).fail_writes
                &&& extends(*old(store), *final(store))
                &&& nr == old(store).nodes@.len()
                &&& valid_root(*final(store), nr)
                &&& root_has(*final(store), nr, height)
                &&& root_tags(*final(store), nr, height) == root_tags(
                    *old(store),
                    root,
                    height,
                ).push(tag@)
                &&& forall|h2: u64|
                    h2 != height ==> root_has(*final(store), nr, h2) == root_has(
                        *old(store),
                        root,
                        h2,
                    )
                &&& forall|h2: u64|
                    h2 != height ==> root_tags(*final(store), nr, h2) == root_tags(
                        *old(store),
                        root,
                        h2,
                    )
            },
            Err(e) => {
                &&& e == ActorError::Storage
                &&& old(store).fail_writes
                &&& *final(store) == *old(store)
            },
        },
{
    let ghost stored = store.nodes@[root as int].entries@;
    let mut node = match store.get(root) {
        Ok(n) => n,
        Err(_) => {
            proof {
                assert(false);
            }
            return Err(ActorError::Storage);
        },
    };
    let ghost loaded = node.entries@;
    proof {
        lemma_equiv_same_mapping(loaded, stored, height);
    }
    match find_entry(&node.entries, height) {
        Some(i) => {
            let mut e = node.entries.remove(i);
            e.tags.push(tag);
            let ghost e2 = e;
            node.entries.insert(i, e);
            proof {
                assert(node.entries@ =~= loaded.update(i as int, e2));
                assert(queue_view(e2.tags@) =~= queue_view(loaded[i as int].tags@).push(tag@));
                lemma_tags_at_found(loaded, i as int, height);
                lemma_tags_at_update(loaded, i as int, e2, height);
                assert forall|h2: u64| h2 != height implies {
                    &&& has_height(node.entries@, h2) == has_height(stored, h2)
                    &&& tags_at(node.entries@, h2) == tags_at(stored, h2)
                } by {
                    lemma_tags_at_update(loaded, i as int, e2, h2);
                    lemma_equiv_same_mapping(loaded, stored, h2);
                }
                assert(unique_heights(node.entries@));
                assert(has_height(node.entries@, height));
                assert(tags_at(node.entries@, height) == tags_at(stored, height).push(tag@));
            }
        },
        None => {
            let mut tags: Vec<Vec<u8>> = Vec::new();
            tags.push(tag);
            let entry = Entry { height, tags };
            let ghost e2 = entry;
            node.entries.push(entry);
            proof {
                lemma_has_height_index(loaded, height);
                lemma_tags_at_absent(loaded, height);
                lemma_tags_at_absent(stored, height);
                assert(queue_view(e2.tags@) =~= Seq::<Seq<u8>>::empty().push(tag@));
                lemma_tags_at_push(loaded, e2, height);
                assert forall|h2: u64| h2 != height implies {
                    &&& has_height(node.entries@, h2) == has_height(stored, h2)
                    &&& tags_at(node.entries@, h2) == tags_at(stored, h2)
                } by {
                    lemma_tags_at_push(loaded, e2, h2);
                    lemma_equiv_same_mapping(loaded, stored, h2);
                }
                assert(unique_heights(node.entries@));
                assert(has_height(node.entries@, height));
                assert(tags_at(node.entries@, height) == tags_at(stored, height).push(tag@));
            }
        },
    }
    store.put(node)
}

/// Drop the entry for `height` from the mapping and persist the result under
/// a fresh root; when `height` was never recorded this is a no-op that hands
/// the old root back without touching the store, so clearing is idempotent
/// and safe to replay. Fails exactly on a write fault while an entry had to
/// be dropped, and then changes nothing.
pub fn remove(store: &mut Store, root: usize, height: u64) -> (r: Result<usize, ActorError>)
    requires
        valid_root(*old(store), root),
    ensures
        match r {
            Ok(nr) => {
                &&& extends(*old(store), *final(store))
                &&& valid_root(*final(store), nr)
                &&& !root_has(*final(store), nr, height)
                &&& root_tags(*final(store), nr, height) == Seq::<Seq<u8>>::empty()
                &&& forall|h2: u64|
                    h2 != height ==> root_has(*final(store), nr, h2) == root_has(
                        *old(store),
                        root,
                        h2,
                    )
                &&& forall|h2: u64|
                    h2 != height ==> root_tags(*final(store), nr, h2) == root_tags(
                        *old(store),
                        root,
                        h2,
                    )
                &&& !root_has(*old(store), root, height) ==> (nr == root && *final(store) == *old(
                    store,
                ))
                &&& root_has(*old(store), root, height) ==> (!old(store).fail_writes && nr == old(
                    store,
                ).nodes@.len())
            },
            Err(e) => {
                &&& e == ActorError::Storage
                &&& old(store).fail_writes
                &&& root_has(*old(store), root, height)
                &&& *final(store) == *old(store)
            },
        },
{
    let ghost stored = store.nodes@[root as int].entries@;
    let mut node = match store.get(root) {
        Ok(n) => n,
        Err(_) => {
            proof {
                assert(false);
            }
            return Err(ActorError::Storage);
        },
    };
    let ghost loaded = node.entries@;
    proof {
        lemma_equiv_same_mapping(loaded, stored, height);
    }
    match find_entry(&node.entries, height) {
        None => {
            proof {
                lemma_has_height_index(loaded, height);
                lemma_has_height_index(stored, height);
                lemma_tags_at_absent(stored, height);
            }
            Ok(root)
        },
        Some(i) => {
            node.entries.remove(i);
            proof {
                lemma_has_height_index(loaded, height);
                lemma_has_height_index(stored, height);
                lemma_equiv_same_mapping(loaded, stored, height);
                lemma_tags_at_remove(loaded, i as int, height);
                assert(!has_height(node.entries@, height));
                lemma_tags_at_absent(node.entries@, height);
                assert forall|h2: u64| h2 != height implies {
                    &&& has_height(node.entries@, h2) == has_height(stored, h2)
                    &&& tags_at(node.entries@, h2) == tags_at(stored, h2)
                } by {
                    lemma_equiv_same_mapping(loaded, stored, h2);
                    lemma_tags_at_remove(loaded, i as int, h2);
                }
                assert(unique_heights(node.entries@));
            }
            store.put(node)
        },
    }
}

/// Read back the queue at `height`: exactly the tags enqueued there, oldest
/// first, and empty when the height was never recorded or has been cleared.
pub fn read(store: &Store, root: usize, height: u64) -> (r: Vec<Vec<u8>>)
    requires
        valid_root(*store, root),
    ensures
        queue_view(r@) == root_tags(*store, root, height),
{
    let node = match store.get(root) {
        Ok(n) => n,
        Err(_) => {
            proof {
                assert(false);
            }
            return Vec::new();
        },
    };
    let ghost stored = store.nodes@[root as int].entries@;
    let ghost loaded = node.entries@;
    proof {
        lemma_equiv_same_mapping(loaded, stored, height);
    }
    match find_entry(&node.entries, height) {
        Some(i) => {
            let tags = crate::store::copy_tags(&node.entries[i].tags);
            proof {
                lemma_tags_at_found(loaded, i as int, height);
            }
            tags
        },
        None => {
            proof {
                lemma_has_height_index(loaded, height);
                lemma_tags_at_absent(loaded, height);
                assert(queue_view(Seq::<Vec<u8>>::empty()) =~= Seq::<Seq<u8>>::empty());
            }
            Vec::new()
        },
    }
}

} // verus!
