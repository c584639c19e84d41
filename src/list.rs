//! The shape of a doubly linked list with a head and a tail sentinel, over
//! node ids: which node follows which, which precedes which, and which
//! nodes are removed. Id 0 is the head, id 1 the tail; data nodes get the
//! next free id when they are inserted, and keep it after removal.
use vstd::prelude::*;

verus! {

/// The id of the head sentinel.
pub const HEAD: u64 = 0;

/// The id of the tail sentinel.
pub const TAIL: u64 = 1;

/// `Links::wf` over the sequences of a `Links`.
pub closed spec fn links_wf(next: Seq<u64>, prev: Seq<u64>, removed: Seq<bool>, c: Seq<u64>) -> bool {
    let n = next.len();
    &&& prev.len() == n
    &&& removed.len() == n
    &&& 2 <= n < u64::MAX
    &&& n <= usize::MAX
    &&& c.len() >= 2
    &&& c[0] == HEAD
    &&& c[c.len() - 1] == TAIL
    &&& forall|i: int| 0 <= i < c.len() ==> #[trigger] c[i] < n
    &&& forall|i: int, j: int| 0 <= i < j < c.len() ==> c[i] != c[j]
    &&& forall|i: int|
        0 <= i < c.len() - 1 ==> next[#[trigger] c[i] as int] == c[i + 1] && prev[c[i + 1] as int]
            == c[i]
    &&& forall|id: int| 0 <= id < n ==> (#[trigger] removed[id] <==> !c.contains(id as u64))
}

#[verifier::rlimit(50)]
proof fn lemma_insert_wf(
    next: Seq<u64>,
    prev: Seq<u64>,
    removed: Seq<bool>,
    c: Seq<u64>,
    k: int,
)
    requires
        links_wf(next, prev, removed, c),
        0 <= k < c.len() - 1,
        next.len() + 1 < u64::MAX,
        next.len() + 1 <= usize::MAX,
    ensures
        ({
            let p = c[k];
            let s = c[k + 1];
            let id = next.len() as u64;
            links_wf(
                next.update(p as int, id).push(s),
                prev.update(s as int, id).push(p),
                removed.push(false),
                c.insert(k + 1, id),
            )
        }),
{
    let p = c[k];
    let s = c[k + 1];
    let id = next.len() as u64;
    let next2 = next.update(p as int, id).push(s);
    let prev2 = prev.update(s as int, id).push(p);
    let removed2 = removed.push(false);
    let c2 = c.insert(k + 1, id);
    let n = next2.len();
    assert(c2.len() == c.len() + 1);
    assert(c2[0] == HEAD);
    assert(c2[c2.len() - 1] == TAIL);
    assert forall|i: int| 0 <= i < c2.len() implies #[trigger] c2[i] < n by {
        if i < k + 1 {
            assert(c2[i] == c[i]);
        } else if i > k + 1 {
            assert(c2[i] == c[i - 1]);
        }
    }
    assert forall|i: int, j: int| 0 <= i < j < c2.len() implies c2[i] != c2[j] by {
        if i != k + 1 && j != k + 1 {
            let i0 = if i < k + 1 { i } else { i - 1 };
            let j0 = if j < k + 1 { j } else { j - 1 };
            assert(c2[i] == c[i0] && c2[j] == c[j0]);
        } else if i == k + 1 {
            assert(c2[j] == c[j - 1]);
            assert(c[j - 1] < id);
        } else {
            assert(c2[i] == c[i]);
            assert(c[i] < id);
        }
    }
    assert forall|i: int| 0 <= i < c2.len() - 1 implies next2[#[trigger] c2[i] as int] == c2[i
        + 1] && prev2[c2[i + 1] as int] == c2[i] by {
        if i < k {
            assert(c2[i] == c[i] && c2[i + 1] == c[i + 1]);
            assert(c[i] != c[k]);
            assert(c[i] < id);
            assert(c[i + 1] != c[k + 1]);
            assert(c[i + 1] < id);
        } else if i == k {
            assert(c2[i] == p && c2[i + 1] == id);
        } else if i == k + 1 {
            assert(c2[i] == id && c2[i + 1] == c[k + 1]);
        } else {
            assert(c2[i] == c[i - 1] && c2[i + 1] == c[i]);
            assert(c[i - 1] != c[k]);
            assert(c[i - 1] < id);
            assert(c[i] != c[k + 1]);
            assert(c[i] < id);
        }
    }
    assert forall|x: int| 0 <= x < n implies (#[trigger] removed2[x] <==> !c2.contains(
        x as u64,
    )) by {
        if x == id {
            assert(c2[k + 1] == id);
        } else {
            assert(removed2[x] == removed[x]);
            if c.contains(x as u64) {
                let j = choose|j: int| 0 <= j < c.len() && c[j] == x as u64;
                let j2 = if j < k + 1 { j } else { j + 1 };
                assert(c2[j2] == x as u64);
            }
            if c2.contains(x as u64) {
                let j = choose|j: int| 0 <= j < c2.len() && c2[j] == x as u64;
                let j0 = if j < k + 1 { j } else { j - 1 };
                assert(c[j0] == x as u64);
            }
        }
    }
}

#[verifier::rlimit(50)]
proof fn lemma_remove_wf(
    next: Seq<u64>,
    prev: Seq<u64>,
    removed: Seq<bool>,
    ch: Seq<u64>,
    k: int,
)
    requires
        links_wf(next, prev, removed, ch),
        0 < k < ch.len() - 1,
    ensures
        ({
            let p = ch[k - 1];
            let s = ch[k + 1];
            links_wf(
                next.update(p as int, s),
                prev.update(s as int, p),
                removed.update(ch[k] as int, true),
                ch.remove(k),
            )
        }),
{
    let p = ch[k - 1];
    let s = ch[k + 1];
    let c = ch[k];
    let next2 = next.update(p as int, s);
    let prev2 = prev.update(s as int, p);
    let removed2 = removed.update(c as int, true);
    let c2 = ch.remove(k);
    let n = next2.len();
    assert(c2[0] == HEAD);
    assert(c2[c2.len() - 1] == TAIL);
    assert forall|i: int| 0 <= i < c2.len() implies #[trigger] c2[i] < n by {
        if i >= k {
            assert(c2[i] == ch[i + 1]);
        }
    }
    assert forall|i: int, j: int| 0 <= i < j < c2.len() implies c2[i] != c2[j] by {
        let i0 = if i < k { i } else { i + 1 };
        let j0 = if j < k { j } else { j + 1 };
        assert(c2[i] == ch[i0] && c2[j] == ch[j0]);
    }
    assert forall|i: int| 0 <= i < c2.len() - 1 implies next2[#[trigger] c2[i] as int] == c2[i
        + 1] && prev2[c2[i + 1] as int] == c2[i] by {
        if i < k - 1 {
            assert(c2[i] == ch[i] && c2[i + 1] == ch[i + 1]);
            assert(ch[i] != ch[k - 1]);
            assert(ch[i + 1] != ch[k + 1]);
        } else if i == k - 1 {
            assert(c2[i] == p && c2[i + 1] == s);
        } else {
            assert(c2[i] == ch[i + 1] && c2[i + 1] == ch[i + 2]);
            assert(ch[i + 1] != ch[k - 1]);
            assert(ch[i + 2] != ch[k + 1]);
        }
    }
    assert forall|x: int| 0 <= x < n implies (#[trigger] removed2[x] <==> !c2.contains(
        x as u64,
    )) by {
        if x == c {
            if c2.contains(x as u64) {
                let j = choose|j: int| 0 <= j < c2.len() && c2[j] == x as u64;
                let j0 = if j < k { j } else { j + 1 };
                assert(ch[j0] == ch[k]);
            }
        } else {
            assert(removed2[x] == removed[x]);
            if ch.contains(x as u64) {
                let j = choose|j: int| 0 <= j < ch.len() && ch[j] == x as u64;
                assert(j != k);
                let j2 = if j < k { j } else { j - 1 };
                assert(c2[j2] == x as u64);
            }
            if c2.contains(x as u64) {
                let j = choose|j: int| 0 <= j < c2.len() && c2[j] == x as u64;
                let j0 = if j < k { j } else { j + 1 };
                assert(ch[j0] == x as u64);
            }
        }
    }
}

/// The links of a list, indexed by node id.
pub struct Links {
    next: Vec<u64>,
    prev: Vec<u64>,
    removed: Vec<bool>,
    /// The chain from the head to the tail, both included.
    chain: Ghost<Seq<u64>>,
}

impl View for Links {
    type V = Seq<u64>;

    /// The data nodes, from front to back.
    open spec fn view(&self) -> Seq<u64> {
        self.chain().subrange(1, self.chain().len() - 1)
    }
}

impl Links {
    /// The chain from the head to the tail, both included.
    pub closed spec fn chain(&self) -> Seq<u64> {
        self.chain@
    }

    /// The number of ids given out, sentinels included.
    pub closed spec fn ids(&self) -> nat {
        self.next@.len()
    }

    /// Whether the node `id` is removed.
    pub closed spec fn is_removed(&self, id: u64) -> bool {
        self.removed@[id as int]
    }

    /// The chain starts at the head and ends at the tail, holds each id
    /// once, `next` and `prev` follow it both ways, and the nodes off the
    /// chain are exactly the removed ones.
    pub closed spec fn wf(&self) -> bool {
        links_wf(self.next@, self.prev@, self.removed@, self.chain@)
    }

    /// An empty list: the head links to the tail.
    pub fn new() -> (l: Self)
        ensures
            l.wf(),
            l@ == Seq::<u64>::empty(),
            l.ids() == 2,
    {
        let ghost start = seq![HEAD, TAIL];
        let l = Links {
            next: vec![TAIL, TAIL],
            prev: vec![HEAD, HEAD],
            removed: vec![false, false],
            chain: Ghost(start),
        };
        proof {
            assert(l.chain@.contains(0));
            assert(l.chain@[0] == 0);
            assert(l.chain@.contains(1)) by {
                assert(l.chain@[1] == 1);
            }
            assert(l@ =~= Seq::<u64>::empty());
        }
        l
    }

    proof fn lemma_position(&self, id: u64) -> (k: int)
        requires
            self.wf(),
            id < self.ids(),
            !self.is_removed(id),
        ensures
            0 <= k < self.chain@.len(),
            self.chain@[k] == id,
            id == HEAD <==> k == 0,
            id == TAIL <==> k == self.chain@.len() - 1,
    {
        assert(self.removed@[id as int] <==> !self.chain@.contains(id));
        let k = choose|k: int| 0 <= k < self.chain@.len() && self.chain@[k] == id;
        if k != 0 {
            assert(self.chain@[0] != self.chain@[k]);
        }
        if k != self.chain@.len() - 1 {
            assert(self.chain@[k] != self.chain@[self.chain@.len() - 1]);
        }
        k
    }

    /// Whether the node `id` is removed.
    pub fn removed(&self, id: u64) -> (r: bool)
        requires
            self.wf(),
            id < self.ids(),
        ensures
            r == self.is_removed(id),
    {
        self.removed[id as usize]
    }

    /// Inserts a new node right after `p`, which must not be the tail. Fails
    /// where `p` is removed, and leaves the links as they were.
    pub fn insert_after(&mut self, p: u64) -> (r: Result<u64, ()>)
        requires
            old(self).wf(),
            p < old(self).ids(),
            p != TAIL,
            old(self).ids() + 1 < u64::MAX,
            old(self).ids() + 1 <= usize::MAX,
        ensures
            final(self).wf(),
            r is Err <==> old(self).is_removed(p),
            r is Err ==> final(self)@ == old(self)@ && final(self).ids() == old(self).ids(),
            r matches Ok(id) ==> {
                &&& id == old(self).ids()
                &&& final(self).ids() == old(self).ids() + 1
                &&& !final(self).is_removed(id)
                &&& exists|k: int|
                    0 <= k < old(self).chain().len() - 1 && old(self).chain()[k] == p
                        && final(self).chain() == old(self).chain().insert(k + 1, id)
            },
    {
        if self.removed[p as usize] {
            return Err(());
        }
        let ghost c = self.chain@;
        let ghost k = self.lemma_position(p);
        let id = self.next.len() as u64;
        let s = self.next[p as usize];
        assert(s == c[k + 1]);
        self.next.set(p as usize, id);
        self.prev.set(s as usize, id);
        self.next.push(s);
        self.prev.push(p);
        self.removed.push(false);
        proof {
            lemma_insert_wf(old(self).next@, old(self).prev@, old(self).removed@, c, k);
        }
        self.chain = Ghost(c.insert(k + 1, id));
        assert(self.next@ =~= old(self).next@.update(p as int, id).push(s));
        assert(self.prev@ =~= old(self).prev@.update(s as int, id).push(p));
        assert(self.removed@ =~= old(self).removed@.push(false));
        assert(old(self).chain()[k] == p && self.chain() == old(self).chain().insert(k + 1, id));
        assert(self.removed@[id as int] == false);
        Ok(id)
    }

    /// Removes the data node `c` from the chain and marks it removed. Does
    /// nothing, and says so, where `c` is removed already.
    pub fn remove(&mut self, c: u64) -> (r: bool)
        requires
            old(self).wf(),
            c < old(self).ids(),
            c != HEAD,
            c != TAIL,
        ensures
            final(self).wf(),
            final(self).ids() == old(self).ids(),
            r <==> !old(self).is_removed(c),
            !r ==> final(self)@ == old(self)@,
            r ==> final(self).is_removed(c) && exists|k: int|
                0 < k < old(self).chain().len() - 1 && old(self).chain()[k] == c
                    && final(self).chain() == old(self).chain().remove(k),
    {
        if self.removed[c as usize] {
            return false;
        }
        let ghost ch = self.chain@;
        let ghost k = self.lemma_position(c);
        let p = self.prev[c as usize];
        let s = self.next[c as usize];
        assert(p == ch[k - 1]);
        assert(s == ch[k + 1]);
        self.next.set(p as usize, s);
        self.prev.set(s as usize, p);
        self.removed.set(c as usize, true);
        proof {
            lemma_remove_wf(old(self).next@, old(self).prev@, old(self).removed@, ch, k);
        }
        self.chain = Ghost(ch.remove(k));
        assert(self.next@ =~= old(self).next@.update(p as int, s));
        assert(self.prev@ =~= old(self).prev@.update(s as int, p));
        assert(self.removed@ =~= old(self).removed@.update(c as int, true));
        assert(old(self).chain()[k] == c && self.chain() == old(self).chain().remove(k));
        true
    }

    /// Inserts a new node right before `c`, which must not be the head.
    /// Fails where `c` is removed, and leaves the links as they were.
    pub fn insert_ahead(&mut self, c: u64) -> (r: Result<u64, ()>)
        requires
            old(self).wf(),
            c < old(self).ids(),
            c != HEAD,
            old(self).ids() + 1 < u64::MAX,
            old(self).ids() + 1 <= usize::MAX,
        ensures
            final(self).wf(),
            r is Err <==> old(self).is_removed(c),
            r is Err ==> final(self)@ == old(self)@ && final(self).ids() == old(self).ids(),
            r matches Ok(id) ==> {
                &&& id == old(self).ids()
                &&& !final(self).is_removed(id)
                &&& exists|k: int|
                    0 < k < old(self).chain().len() && old(self).chain()[k] == c
                        && final(self).chain() == old(self).chain().insert(k, id)
            },
    {
        if self.removed[c as usize] {
            return Err(());
        }
        let ghost ch = self.chain@;
        let ghost k = self.lemma_position(c);
        let p = self.prev[c as usize];
        proof {
            assert(p == ch[k - 1]);
            assert(ch[k - 1] != ch[ch.len() - 1]);
            assert(ch.contains(p)) by {
                assert(ch[k - 1] == p);
            }
        }
        let r = self.insert_after(p);
        proof {
            if let Ok(id) = r {
                let j = choose|j: int|
                    0 <= j < ch.len() - 1 && ch[j] == p && self.chain() == ch.insert(j + 1, id);
                if j != k - 1 {
                    assert(ch[j] != ch[k - 1]);
                }
                assert(ch[k] == c && self.chain() == ch.insert(k, id));
            }
        }
        r
    }

    /// Adds a new data node at the front.
    pub fn push_front(&mut self) -> (id: u64)
        requires
            old(self).wf(),
            old(self).ids() + 1 < u64::MAX,
            old(self).ids() + 1 <= usize::MAX,
        ensures
            final(self).wf(),
            id == old(self).ids(),
            final(self)@ == seq![id] + old(self)@,
    {
        proof {
            assert(old(self).chain@.contains(HEAD)) by {
                assert(old(self).chain@[0] == HEAD);
            }
        }
        let r = self.insert_after(HEAD);
        let id = match r {
            Ok(id) => id,
            Err(_) => 0,
        };
        proof {
            let c = old(self).chain();
            let k = choose|k: int|
                0 <= k < c.len() - 1 && c[k] == HEAD && self.chain() == c.insert(k + 1, id);
            if k != 0 {
                assert(c[0] != c[k]);
            }
            assert(self@ =~= seq![id] + old(self)@);
        }
        id
    }

    /// Adds a new data node at the back.
    pub fn push_back(&mut self) -> (id: u64)
        requires
            old(self).wf(),
            old(self).ids() + 1 < u64::MAX,
            old(self).ids() + 1 <= usize::MAX,
        ensures
            final(self).wf(),
            id == old(self).ids(),
            final(self)@ == old(self)@.push(id),
    {
        let ghost c = self.chain@;
        let p = self.prev[TAIL as usize];
        proof {
            assert(p == c[c.len() - 2]);
            assert(c[c.len() - 2] != c[c.len() - 1]);
            assert(c.contains(p)) by {
                assert(c[c.len() - 2] == p);
            }
        }
        let r = self.insert_after(p);
        let id = match r {
            Ok(id) => id,
            Err(_) => 0,
        };
        proof {
            let k = choose|k: int|
                0 <= k < c.len() - 1 && c[k] == p && self.chain() == c.insert(k + 1, id);
            if k != c.len() - 2 {
                assert(c[k] != c[c.len() - 2]);
            }
            assert(self@ =~= old(self)@.push(id));
        }
        id
    }

    /// The first data node, if any.
    pub fn front(&self) -> (r: Option<u64>)
        requires
            self.wf(),
        ensures
            r == (if self@.len() == 0 { None } else { Some(self@[0]) }),
    {
        let f = self.next[HEAD as usize];
        proof {
            let c = self.chain@;
            assert(f == c[1]);
            if f == TAIL && c.len() > 2 {
                assert(c[1] != c[c.len() - 1]);
            }
        }
        if f == TAIL {
            None
        } else {
            Some(f)
        }
    }

    /// The last data node, if any.
    pub fn back(&self) -> (r: Option<u64>)
        requires
            self.wf(),
        ensures
            r == (if self@.len() == 0 { None } else { Some(self@[self@.len() - 1]) }),
    {
        let b = self.prev[TAIL as usize];
        proof {
            let c = self.chain@;
            assert(b == c[c.len() - 2]);
            if b == HEAD && c.len() > 2 {
                assert(c[0] != c[c.len() - 2]);
            }
        }
        if b == HEAD {
            None
        } else {
            Some(b)
        }
    }

    /// Removes the first data node, if any, and gives its id.
    pub fn pop_front(&mut self) -> (r: Option<u64>)
        requires
            old(self).wf(),
        ensures
            final(self).wf(),
            r == (if old(self)@.len() == 0 { None } else { Some(old(self)@[0]) }),
            r is Some ==> final(self)@ == old(self)@.drop_first(),
            r is None ==> final(self)@ == old(self)@,
    {
        let f = self.front();
        match f {
            None => None,
            Some(id) => {
                let ghost c = self.chain@;
                proof {
                    assert(c[1] == id);
                    assert(c[0] != c[1]);
                    assert(c.contains(id));
                }
                self.remove(id);
                proof {
                    let k = choose|k: int|
                        0 < k < c.len() - 1 && c[k] == id && self.chain() == c.remove(k);
                    if k != 1 {
                        assert(c[k] != c[1]);
                    }
                    assert(self@ =~= old(self)@.drop_first());
                }
                Some(id)
            },
        }
    }

    /// Removes the last data node, if any, and gives its id.
    pub fn pop_back(&mut self) -> (r: Option<u64>)
        requires
            old(self).wf(),
        ensures
            final(self).wf(),
            r == (if old(self)@.len() == 0 { None } else { Some(old(self)@[old(self)@.len() - 1]) }),
            r is Some ==> final(self)@ == old(self)@.drop_last(),
            r is None ==> final(self)@ == old(self)@,
    {
        let b = self.back();
        match b {
            None => None,
            Some(id) => {
                let ghost c = self.chain@;
                proof {
                    assert(c[c.len() - 2] == id);
                    assert(c[c.len() - 2] != c[c.len() - 1]);
                    assert(c.contains(id));
                }
                self.remove(id);
                proof {
                    let k = choose|k: int|
                        0 < k < c.len() - 1 && c[k] == id && self.chain() == c.remove(k);
                    if k != c.len() - 2 {
                        assert(c[k] != c[c.len() - 2]);
                    }
                    assert(self@ =~= old(self)@.drop_last());
                }
                Some(id)
            },
        }
    }

    /// The data nodes from front to back, found by following `next` from
    /// the head until the tail.
    pub fn ids_in_order(&self) -> (v: Vec<u64>)
        requires
            self.wf(),
        ensures
            v@ == self@,
    {
        let ghost c = self.chain@;
        let mut v: Vec<u64> = Vec::new();
        let mut cur = self.next[HEAD as usize];
        let ghost mut i: int = 1;
        while cur != TAIL
            invariant
                self.wf(),
                c == self.chain@,
                1 <= i <= c.len() - 1,
                cur == c[i],
                v@ == c.subrange(1, i),
            decreases c.len() - i,
        {
            proof {
                if i == c.len() - 1 {
                    assert(cur == TAIL);
                }
            }
            v.push(cur);
            cur = self.next[cur as usize];
            proof {
                assert(v@ =~= c.subrange(1, i + 1));
                i = i + 1;
            }
        }
        proof {
            if i != c.len() - 1 {
                assert(c[i] != c[c.len() - 1]);
            }
            assert(v@ =~= self@);
        }
        v
    }
}

} // verus!
