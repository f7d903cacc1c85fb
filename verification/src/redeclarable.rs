//! Redeclaration chains.
//!
//! Every declaration of an identifier is a node of the identifier's chain.
//! The first declaration, the canonical node, identifies the chain and
//! knows its latest node; every other node knows the node it redeclares.
//! Nodes live in a [`RedeclarableArena`] and are referred to by index.
use vstd::prelude::*;

verus! {

/// The nodes of redeclaration chains, each holding a `T`.
pub struct RedeclarableArena<T> {
    canonicals: Vec<usize>,
    prev_or_latest: Vec<usize>,
    data: Vec<T>,
}

impl<T> RedeclarableArena<T> {
    /// The number of nodes.
    pub closed spec fn len(&self) -> nat {
        self.data@.len()
    }

    /// The canonical node of `h`'s chain.
    pub closed spec fn canonical_of(&self, h: usize) -> usize {
        self.canonicals@[h as int]
    }

    /// For a canonical node the latest node of its chain, otherwise the node
    /// it redeclares.
    pub closed spec fn link_of(&self, h: usize) -> usize {
        self.prev_or_latest@[h as int]
    }

    /// The data of node `h`.
    pub closed spec fn data_of(&self, h: usize) -> T {
        self.data@[h as int]
    }

    /// `h` is a node of this arena.
    pub open spec fn valid(&self, h: usize) -> bool {
        h < self.len()
    }

    /// The latest node of `h`'s chain.
    pub open spec fn latest_of(&self, h: usize) -> usize {
        self.link_of(self.canonical_of(h))
    }

    /// The node `h` redeclares; none for a canonical node.
    pub open spec fn prev_of(&self, h: usize) -> Option<usize> {
        if self.canonical_of(h) == h {
            None
        } else {
            Some(self.link_of(h))
        }
    }

    /// The chain structure: canonical nodes are their own canonical and link
    /// to the latest node of their chain, the newest one; every other node
    /// links to an older node of its chain.
    pub open spec fn wf(&self) -> bool {
        &&& self.sizes_agree()
        &&& forall|h: usize|
            #![trigger self.canonical_of(h)]
            self.valid(h) ==> {
                let c = self.canonical_of(h);
                &&& self.valid(c)
                &&& self.canonical_of(c) == c
                &&& self.valid(self.link_of(h))
                &&& self.canonical_of(self.link_of(h)) == c
                &&& (h != c ==> self.link_of(h) < h)
                &&& h <= self.link_of(c)
            }
    }

    /// The three columns of the arena have one entry per node.
    pub closed spec fn sizes_agree(&self) -> bool {
        &&& self.canonicals@.len() == self.data@.len()
        &&& self.prev_or_latest@.len() == self.data@.len()
    }

    /// An arena with no node.
    pub fn new_arena() -> (r: Self)
        ensures
            r.len() == 0,
            r.wf(),
    {
        RedeclarableArena { canonicals: Vec::new(), prev_or_latest: Vec::new(), data: Vec::new() }
    }

    /// The number of nodes.
    pub fn num_nodes(&self) -> (r: usize)
        requires
            self.wf(),
        ensures
            r == self.len(),
    {
        self.data.len()
    }

    /// Starts a new chain with a canonical node holding `data`.
    pub fn new_canonical(&mut self, data: T) -> (r: usize)
        requires
            old(self).wf(),
            old(self).len() < usize::MAX,
        ensures
            final(self).wf(),
            r == old(self).len(),
            final(self).len() == old(self).len() + 1,
            final(self).canonical_of(r) == r,
            final(self).link_of(r) == r,
            final(self).data_of(r) == data,
            forall|h: usize|
                old(self).valid(h) ==> final(self).canonical_of(h) == old(self).canonical_of(h)
                    && final(self).link_of(h) == old(self).link_of(h) && final(self).data_of(h)
                    == old(self).data_of(h),
    {
        let ghost before = *self;
        let n = self.data.len();
        self.canonicals.push(n);
        self.prev_or_latest.push(n);
        self.data.push(data);
        proof {
            assert forall|h: usize| #![trigger self.canonical_of(h)] self.valid(h) implies {
                let c = self.canonical_of(h);
                &&& self.valid(c)
                &&& self.canonical_of(c) == c
                &&& self.valid(self.link_of(h))
                &&& self.canonical_of(self.link_of(h)) == c
                &&& (h != c ==> self.link_of(h) < h)
                &&& h <= self.link_of(c)
            } by {
                if h < n {
                    assert(before.canonical_of(h) == self.canonical_of(h));
                    let c = before.canonical_of(h);
                    assert(before.canonical_of(c) == c);
                    assert(before.canonical_of(before.link_of(h)) == c);
                }
            }
        }
        n
    }

    /// Adds a node redeclaring `prev`, holding `data`; it becomes the latest
    /// node of `prev`'s chain.
    pub fn new_node(&mut self, prev: usize, data: T) -> (r: usize)
        requires
            old(self).wf(),
            old(self).valid(prev),
            old(self).len() < usize::MAX,
        ensures
            final(self).wf(),
            r == old(self).len(),
            final(self).len() == old(self).len() + 1,
            final(self).canonical_of(r) == old(self).canonical_of(prev),
            final(self).link_of(r) == prev,
            final(self).data_of(r) == data,
            final(self).link_of(old(self).canonical_of(prev)) == r,
            forall|h: usize|
                old(self).valid(h) && old(self).canonical_of(h) == old(self).canonical_of(prev)
                    ==> #[trigger] final(self).latest_of(h) == r,
            forall|h: usize|
                old(self).valid(h) ==> final(self).canonical_of(h) == old(self).canonical_of(h)
                    && final(self).data_of(h) == old(self).data_of(h) && (h != old(self).canonical_of(
                    prev,
                ) ==> final(self).link_of(h) == old(self).link_of(h)),
    {
        let ghost before = *self;
        let n = self.data.len();
        assert(self.canonical_of(prev) < self.len());
        let c = self.canonicals[prev];
        self.canonicals.push(c);
        self.prev_or_latest.push(prev);
        self.data.push(data);
        self.prev_or_latest.set(c, n);
        proof {
            assert(before.canonical_of(c) == c);
            assert forall|h: usize| #![trigger self.canonical_of(h)] self.valid(h) implies {
                let ch = self.canonical_of(h);
                &&& self.valid(ch)
                &&& self.canonical_of(ch) == ch
                &&& self.valid(self.link_of(h))
                &&& self.canonical_of(self.link_of(h)) == ch
                &&& (h != ch ==> self.link_of(h) < h)
                &&& h <= self.link_of(ch)
            } by {
                if h < n {
                    assert(before.canonical_of(h) == self.canonical_of(h));
                    let ch = before.canonical_of(h);
                    assert(before.canonical_of(ch) == ch);
                    assert(before.canonical_of(before.link_of(h)) == ch);
                    assert(before.link_of(ch) >= h);
                } else {
                    assert(before.canonical_of(prev) == c);
                }
            }
        }
        n
    }

    /// Adds a node: a redeclaration of `prev` if there is one, else a new chain.
    pub fn new(&mut self, prev: Option<usize>, data: T) -> (r: usize)
        requires
            old(self).wf(),
            prev matches Some(p) ==> old(self).valid(p),
            old(self).len() < usize::MAX,
        ensures
            final(self).wf(),
            r == old(self).len(),
            final(self).len() == old(self).len() + 1,
            final(self).data_of(r) == data,
            final(self).canonical_of(r) == (match prev {
                Some(p) => old(self).canonical_of(p),
                None => r,
            }),
            final(self).prev_of(r) == prev,
            final(self).latest_of(r) == r,
            final(self).link_of(r) == (match prev {
                Some(p) => p,
                None => r,
            }),
            prev matches Some(p) ==> final(self).link_of(old(self).canonical_of(p)) == r,
            prev matches Some(p) ==> forall|h: usize|
                old(self).valid(h) && old(self).canonical_of(h) == old(self).canonical_of(p)
                    ==> #[trigger] final(self).latest_of(h) == r,
            forall|h: usize|
                old(self).valid(h) ==> final(self).canonical_of(h) == old(self).canonical_of(h)
                    && final(self).data_of(h) == old(self).data_of(h),
            forall|h: usize|
                old(self).valid(h) && (match prev {
                    Some(p) => h != old(self).canonical_of(p),
                    None => true,
                }) ==> final(self).link_of(h) == old(self).link_of(h),
    {
        match prev {
            Some(p) => self.new_node(p, data),
            None => self.new_canonical(data),
        }
    }

    /// The canonical node of `h`'s chain.
    pub fn canonical(&self, h: usize) -> (r: usize)
        requires
            self.wf(),
            self.valid(h),
        ensures
            r == self.canonical_of(h),
    {
        self.canonicals[h]
    }

    /// The latest node of `h`'s chain.
    pub fn latest(&self, h: usize) -> (r: usize)
        requires
            self.wf(),
            self.valid(h),
        ensures
            r == self.latest_of(h),
    {
        assert(self.canonical_of(h) < self.len());
        self.prev_or_latest[self.canonicals[h]]
    }

    /// The node `h` redeclares; none for a canonical node.
    pub fn prev(&self, h: usize) -> (r: Option<usize>)
        requires
            self.wf(),
            self.valid(h),
        ensures
            r == self.prev_of(h),
    {
        if self.canonicals[h] == h {
            None
        } else {
            Some(self.prev_or_latest[h])
        }
    }

    pub fn is_canonical(&self, h: usize) -> (r: bool)
        requires
            self.wf(),
            self.valid(h),
        ensures
            r == (self.canonical_of(h) == h),
    {
        self.canonicals[h] == h
    }

    pub fn is_latest(&self, h: usize) -> (r: bool)
        requires
            self.wf(),
            self.valid(h),
        ensures
            r == (self.latest_of(h) == h),
    {
        self.latest(h) == h
    }

    /// The data of node `h`.
    pub fn get(&self, h: usize) -> (r: &T)
        requires
            self.wf(),
            self.valid(h),
        ensures
            *r == self.data_of(h),
    {
        &self.data[h]
    }

    /// Walks the chain from `h` back to its canonical node.
    pub fn iter(&self, h: usize) -> (r: RedeclarableIter)
        requires
            self.wf(),
            self.valid(h),
        ensures
            r.current == Some(h),
    {
        RedeclarableIter { current: Some(h) }
    }
}

/// The nodes of a chain from one node back to the canonical one, newest first.
#[verifier::opaque]
pub open spec fn chain_from<T>(arena: RedeclarableArena<T>, h: usize) -> Seq<usize>
    decreases h,
{
    if !arena.valid(h) {
        seq![]
    } else if arena.canonical_of(h) == h {
        seq![h]
    } else if arena.link_of(h) < h {
        seq![h] + chain_from(arena, arena.link_of(h))
    } else {
        seq![h]
    }
}

/// A chain starts at its node, goes to strictly older nodes of the same
/// chain, and ends at the canonical node.
pub proof fn law_chain_shape<T>(arena: RedeclarableArena<T>, h: usize)
    requires
        arena.wf(),
        arena.valid(h),
    ensures
        chain_from(arena, h).len() >= 1,
        chain_from(arena, h)[0] == h,
        chain_from(arena, h).last() == arena.canonical_of(h),
        forall|k: int|
            0 <= k < chain_from(arena, h).len() ==> arena.valid(#[trigger] chain_from(arena, h)[k])
                && arena.canonical_of(chain_from(arena, h)[k]) == arena.canonical_of(h),
        forall|k: int| 0 < k < chain_from(arena, h).len() ==> #[trigger] chain_from(arena, h)[k] < chain_from(arena, h)[k - 1],
    decreases h,
{
    lemma_chain_step(arena, h);
    match arena.prev_of(h) {
        None => {},
        Some(p) => {
            law_chain_shape(arena, p);
            assert(arena.canonical_of(h) == arena.canonical_of(h));
            let c = chain_from(arena, h);
            let tail = chain_from(arena, p);
            assert(c == seq![h] + tail);
            assert forall|k: int| 0 < k < c.len() implies #[trigger] c[k] < c[k - 1] by {
                if k == 1 {
                    assert(c[1] == tail[0]);
                } else {
                    assert(c[k] == tail[k - 1]);
                    assert(c[k - 1] == tail[k - 2]);
                }
            }
            assert forall|k: int| 0 <= k < c.len() implies arena.valid(#[trigger] c[k])
                && arena.canonical_of(c[k]) == arena.canonical_of(h) by {
                if k > 0 {
                    assert(c[k] == tail[k - 1]);
                }
            }
        },
    }
}

/// A walk along a redeclaration chain, from a node back to the canonical one.
#[derive(Debug, Clone, Copy, PartialEq, Eq, Structural)]
pub struct RedeclarableIter {
    pub current: Option<usize>,
}

impl RedeclarableIter {
    /// The node the walk is at, then steps to the node it redeclares; none
    /// once past the canonical node.
    pub fn next<T>(&mut self, arena: &RedeclarableArena<T>) -> (r: Option<usize>)
        requires
            arena.wf(),
            old(self).current matches Some(h) ==> arena.valid(h),
        ensures
            r == old(self).current,
            final(self).current == (match r {
                Some(h) => arena.prev_of(h),
                None => None,
            }),
            final(self).current matches Some(h) ==> arena.valid(h),
    {
        match self.current {
            Some(h) => {
                self.current = arena.prev(h);
                Some(h)
            },
            None => None,
        }
    }

    /// Collects the rest of the walk.
    pub fn collect_all<T>(&mut self, arena: &RedeclarableArena<T>) -> (r: Vec<usize>)
        requires
            arena.wf(),
            old(self).current matches Some(h) ==> arena.valid(h),
        ensures
            r@ == walk_from(*arena, old(self).current),
            final(self).current is None,
    {
        let mut out: Vec<usize> = Vec::new();
        let ghost start = self.current;
        while self.current.is_some()
            invariant
                arena.wf(),
                self.current matches Some(h) ==> arena.valid(h),
                walk_from(*arena, start) == out@ + walk_from(*arena, self.current),
            decreases (match self.current {
                Some(h) => h + 1,
                None => 0,
            }),
        {
            let h = self.current.unwrap();
            proof {
                lemma_chain_step(*arena, h);
            }
            self.current = arena.prev(h);
            let ghost before = out@;
            out.push(h);
            assert(before + walk_from(*arena, Some(h)) =~= out@ + walk_from(*arena, self.current));
        }
        out
    }
}

/// The rest of a walk that is at `current`.
pub open spec fn walk_from<T>(arena: RedeclarableArena<T>, current: Option<usize>) -> Seq<usize> {
    match current {
        Some(h) => chain_from(arena, h),
        None => Seq::empty(),
    }
}

/// A chain is its first node followed by the chain of the node it redeclares.
pub proof fn lemma_chain_step<T>(arena: RedeclarableArena<T>, h: usize)
    requires
        arena.wf(),
        arena.valid(h),
    ensures
        chain_from(arena, h) == seq![h] + walk_from(arena, arena.prev_of(h)),
        arena.prev_of(h) matches Some(p) ==> arena.valid(p) && p < h,
{
    reveal(chain_from);
    assert(arena.canonical_of(h) == arena.canonical_of(h));
    if arena.canonical_of(h) != h {
        assert(arena.link_of(h) < h);
    } else {
        assert(seq![h] + Seq::<usize>::empty() =~= seq![h]);
    }
}

} // verus!
