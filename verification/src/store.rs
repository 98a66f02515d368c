//! The persistence substrate: an arena-style store of immutable mapping
//! nodes. A node carries the whole height-to-queue mapping as a list of
//! entries; a digest is an index into the arena, and once written a node is
//! never changed, so a digest denotes the same mapping forever — the
//! copy-on-write discipline of a content-addressed trie. Writes can be made
//! to fail, modelling an I/O fault in the underlying storage.

use vstd::prelude::*;

use crate::error::ActorError;

verus! {

/// One height and the queue of tags enqueued at it, oldest first.
pub struct Entry {
    pub height: u64,
    pub tags: Vec<Vec<u8>>,
}

/// One immutable snapshot of the whole height-to-queue mapping.
pub struct Node {
    pub entries: Vec<Entry>,
}

/// The mathematical value of a queue: the sequence of tag byte-strings.
pub open spec fn queue_view(tags: Seq<Vec<u8>>) -> Seq<Seq<u8>> {
    Seq::new(tags.len(), |i: int| tags[i]@)
}

/// Entry lists keep at most one entry per height.
pub open spec fn unique_heights(s: Seq<Entry>) -> bool {
    forall|i: int, j: int| 0 <= i < j < s.len() ==> s[i].height != s[j].height
}

/// Whether some entry of `s` is keyed by `h`.
pub open spec fn has_height(s: Seq<Entry>, h: u64) -> bool
    decreases s.len(),
{
    s.len() > 0 && (s[0].height == h || has_height(s.drop_first(), h))
}

/// The queue recorded at height `h`, or the empty sequence when `h` is
/// absent. With unique heights the first match is the only match.
pub open spec fn tags_at(s: Seq<Entry>, h: u64) -> Seq<Seq<u8>>
    decreases s.len(),
{
    if s.len() == 0 {
        Seq::empty()
    } else if s[0].height == h {
        queue_view(s[0].tags@)
    } else {
        tags_at(s.drop_first(), h)
    }
}

/// Two entry lists that agree height-by-height and queue-by-queue.
pub open spec fn entries_equiv(a: Seq<Entry>, b: Seq<Entry>) -> bool {
    &&& a.len() == b.len()
    &&& forall|i: int|
        0 <= i < a.len() ==> a[i].height == b[i].height && queue_view(a[i].tags@) == queue_view(
            b[i].tags@,
        )
}

/// Equivalent entry lists record the same mapping.
pub proof fn lemma_equiv_same_mapping(a: Seq<Entry>, b: Seq<Entry>, h: u64)
    requires
        entries_equiv(a, b),
    ensures
        has_height(a, h) == has_height(b, h),
        tags_at(a, h) == tags_at(b, h),
        unique_heights(a) == unique_heights(b),
    decreases a.len(),
{
    if a.len() > 0 {
        assert(entries_equiv(a.drop_first(), b.drop_first()));
        lemma_equiv_same_mapping(a.drop_first(), b.drop_first(), h);
    }
}

/// A height is recorded in `s` exactly when some entry carries it.
pub proof fn lemma_has_height_index(s: Seq<Entry>, h: u64)
    ensures
        has_height(s, h) <==> exists|k: int| 0 <= k < s.len() && (#[trigger] s[k]).height == h,
    decreases s.len(),
{
    if s.len() > 0 {
        lemma_has_height_index(s.drop_first(), h);
        if s[0].height == h {
            assert(s[0].height == h);
        } else if has_height(s.drop_first(), h) {
            let k = choose|k: int|
                0 <= k < s.drop_first().len() && (#[trigger] s.drop_first()[k]).height == h;
            assert(s[k + 1].height == h);
        } else {
            assert(forall|k: int|
                1 <= k < s.len() ==> (#[trigger] s[k]).height == s.drop_first()[k - 1].height);
        }
    }
}

/// An absent height reads as the empty queue.
pub proof fn lemma_tags_at_absent(s: Seq<Entry>, h: u64)
    requires
        !has_height(s, h),
    ensures
        tags_at(s, h) == Seq::<Seq<u8>>::empty(),
    decreases s.len(),
{
    if s.len() > 0 {
        lemma_tags_at_absent(s.drop_first(), h);
    }
}

/// With unique heights, the queue read at a recorded height is the queue of
/// the one entry that carries it.
pub proof fn lemma_tags_at_found(s: Seq<Entry>, k: int, h: u64)
    requires
        unique_heights(s),
        0 <= k < s.len(),
        s[k].height == h,
    ensures
        has_height(s, h),
        tags_at(s, h) == queue_view(s[k].tags@),
    decreases s.len(),
{
    lemma_has_height_index(s, h);
    if k > 0 {
        assert(unique_heights(s.drop_first()));
        lemma_tags_at_found(s.drop_first(), k - 1, h);
        assert(s[0].height != h);
    }
}

/// Replacing the entry at `k` by one with the same height rewrites that
/// height's queue and leaves every other height untouched.
pub proof fn lemma_tags_at_update(s: Seq<Entry>, k: int, e: Entry, h: u64)
    requires
        unique_heights(s),
        0 <= k < s.len(),
        s[k].height == e.height,
    ensures
        unique_heights(s.update(k, e)),
        has_height(s.update(k, e), h) == has_height(s, h),
        tags_at(s.update(k, e), h) == if h == e.height {
            queue_view(e.tags@)
        } else {
            tags_at(s, h)
        },
{
    let t = s.update(k, e);
    assert(unique_heights(t));
    lemma_has_height_index(s, h);
    lemma_has_height_index(t, h);
    if h == e.height {
        lemma_tags_at_found(t, k, h);
    } else {
        if has_height(s, h) {
            let j = choose|j: int| 0 <= j < s.len() && (#[trigger] s[j]).height == h;
            lemma_tags_at_found(s, j, h);
            lemma_tags_at_found(t, j, h);
        } else {
            assert(!has_height(t, h));
            lemma_tags_at_absent(s, h);
            lemma_tags_at_absent(t, h);
        }
    }
}

/// Appending an entry with a fresh height records its queue there and leaves
/// every other height untouched.
pub proof fn lemma_tags_at_push(s: Seq<Entry>, e: Entry, h: u64)
    requires
        unique_heights(s),
        !has_height(s, e.height),
    ensures
        unique_heights(s.push(e)),
        has_height(s.push(e), h) == (has_height(s, h) || h == e.height),
        tags_at(s.push(e), h) == if h == e.height {
            queue_view(e.tags@)
        } else {
            tags_at(s, h)
        },
{
    let t = s.push(e);
    lemma_has_height_index(s, e.height);
    lemma_has_height_index(s, h);
    lemma_has_height_index(t, h);
    assert(unique_heights(t));
    if h == e.height {
        lemma_tags_at_found(t, s.len() as int, h);
    } else {
        if has_height(s, h) {
            let j = choose|j: int| 0 <= j < s.len() && (#[trigger] s[j]).height == h;
            lemma_tags_at_found(s, j, h);
            lemma_tags_at_found(t, j, h);
        } else {
            assert(!has_height(t, h));
            lemma_tags_at_absent(s, h);
            lemma_tags_at_absent(t, h);
        }
    }
}

/// Dropping the entry at `k` erases its height from the mapping and leaves
/// every other height untouched.
pub proof fn lemma_tags_at_remove(s: Seq<Entry>, k: int, h: u64)
    requires
        unique_heights(s),
        0 <= k < s.len(),
    ensures
        unique_heights(s.remove(k)),
        !has_height(s.remove(k), s[k].height),
        h != s[k].height ==> has_height(s.remove(k), h) == has_height(s, h),
        h != s[k].height ==> tags_at(s.remove(k), h) == tags_at(s, h),
{
    let t = s.remove(k);
    assert(unique_heights(t));
    lemma_has_height_index(s, h);
    lemma_has_height_index(t, h);
    lemma_has_height_index(t, s[k].height);
    if h != s[k].height {
        if has_height(s, h) {
            let j = choose|j: int| 0 <= j < s.len() && (#[trigger] s[j]).height == h;
            if j < k {
                lemma_tags_at_found(s, j, h);
                lemma_tags_at_found(t, j, h);
            } else {
                lemma_tags_at_found(s, j, h);
                lemma_tags_at_found(t, j - 1, h);
            }
        } else {
            assert(!has_height(t, h));
            lemma_tags_at_absent(s, h);
            lemma_tags_at_absent(t, h);
        }
    }
}

/// The content-addressed node store, with a write-fault switch that makes
/// every `put` fail, simulating an I/O failure of the underlying storage.
pub struct Store {
    pub nodes: Vec<Node>,
    pub fail_writes: bool,
}

impl Store {
    /// A fresh store holding no nodes, with writes working.
    pub fn new() -> (s: Store)
        ensures
            s.nodes@.len() == 0,
            !s.fail_writes,
    {
        Store { nodes: Vec::new(), fail_writes: false }
    }

    /// Switch write faults on or off; the stored nodes are untouched.
    pub fn set_write_fault(&mut self, fail: bool)
        ensures
            final(self).nodes@ == old(self).nodes@,
            final(self).fail_writes == fail,
    {
        self.fail_writes = fail;
    }

    /// Persist a node, returning its digest. Fails exactly when the write
    /// fault is set, and a failed write leaves the store untouched.
    pub fn put(&mut self, node: Node) -> (r: Result<usize, ActorError>)
        ensures
            match r {
                Ok(d) => {
                    &&& !old(self).fail_writes
                    &&& !final(self).fail_writes
                    &&& d == old(self).nodes@.len()
                    &&& final(self).nodes@ == old(self).nodes@.push(node)
                },
                Err(e) => {
                    &&& e == ActorError::Storage
                    &&& old(self).fail_writes
                    &&& *final(self) == *old(self)
                },
            },
    {
        if self.fail_writes {
            Err(ActorError::Storage)
        } else {
            self.nodes.push(node);
            Ok(self.nodes.len() - 1)
        }
    }

    /// Load the node a digest denotes. The copy handed back records the same
    /// mapping as the stored node. Fails exactly on a dangling digest.
    pub fn get(&self, digest: usize) -> (r: Result<Node, ActorError>)
        ensures
            match r {
                Ok(n) => {
                    &&& digest < self.nodes@.len()
                    &&& entries_equiv(n.entries@, self.nodes@[digest as int].entries@)
                },
                Err(e) => {
                    &&& e == ActorError::Storage
                    &&& digest >= self.nodes@.len()
                },
            },
    {
        if digest < self.nodes.len() {
            let entries = copy_entries(&self.nodes[digest].entries);
            Ok(Node { entries })
        } else {
            Err(ActorError::Storage)
        }
    }
}

/// Byte-for-byte copy of one tag.
fn copy_bytes(v: &Vec<u8>) -> (r: Vec<u8>)
    ensures
        r@ == v@,
{
    let mut r: Vec<u8> = Vec::new();
    let mut i: usize = 0;
    while i < v.len()
        invariant
            i <= v@.len(),
            r@ == v@.subrange(0, i as int),
        decreases v@.len() - i,
    {
        r.push(v[i]);
        i = i + 1;
        proof {
            assert(r@ =~= v@.subrange(0, i as int));
        }
    }
    proof {
        assert(v@.subrange(0, v@.len() as int) =~= v@);
    }
    r
}

/// Copy of one queue, preserving its mathematical value.
pub(crate) fn copy_tags(v: &Vec<Vec<u8>>) -> (r: Vec<Vec<u8>>)
    ensures
        queue_view(r@) == queue_view(v@),
{
    let mut r: Vec<Vec<u8>> = Vec::new();
    let mut i: usize = 0;
    while i < v.len()
        invariant
            i <= v@.len(),
            r@.len() == i,
            forall|j: int| 0 <= j < i ==> r@[j]@ == v@[j]@,
        decreases v@.len() - i,
    {
        r.push(copy_bytes(&v[i]));
        i = i + 1;
    }
    proof {
        assert(queue_view(r@) =~= queue_view(v@));
    }
    r
}

/// Copy of an entry list, preserving heights and queue values.
fn copy_entries(v: &Vec<Entry>) -> (r: Vec<Entry>)
    ensures
        entries_equiv(r@, v@),
{
    let mut r: Vec<Entry> = Vec::new();
    let mut i: usize = 0;
    while i < v.len()
        invariant
            i <= v@.len(),
            r@.len() == i,
            forall|j: int|
                0 <= j < i ==> r@[j].height == v@[j].height && queue_view(r@[j].tags@)
                    == queue_view(v@[j].tags@),
        decreases v@.len() - i,
    {
        let tags = copy_tags(&v[i].tags);
        r.push(Entry { height: v[i].height, tags });
        i = i + 1;
    }
    r
}

} // verus!
