//! The set of peers a node knows.
use vstd::prelude::*;
use crate::addr::PeerAddr;

verus! {

/// The sequence `s` after offering it `a`: `a` is appended unless it is
/// already there or is the owner's own address.
pub open spec fn insert_seq(s: Seq<PeerAddr>, a: PeerAddr, own: PeerAddr) -> Seq<PeerAddr> {
    if s.contains(a) || a == own {
        s
    } else {
        s.push(a)
    }
}

/// Offering an address a second time changes nothing: the set after two
/// offers of `a` is the set after one.
pub proof fn lemma_insert_idempotent(s: Seq<PeerAddr>, a: PeerAddr, own: PeerAddr)
    ensures
        insert_seq(s, a, own).contains(a) || a == own,
        insert_seq(insert_seq(s, a, own), a, own) == insert_seq(s, a, own),
{
    if !(s.contains(a) || a == own) {
        assert(s.push(a)[s.len() as int] == a);
    }
}

/// The sequence `s` after offering it each address of `addrs` in turn.
pub open spec fn merge_seq(s: Seq<PeerAddr>, addrs: Seq<PeerAddr>, own: PeerAddr) -> Seq<PeerAddr>
    decreases addrs.len(),
{
    if addrs.len() == 0 {
        s
    } else {
        insert_seq(merge_seq(s, addrs.drop_last(), own), addrs.last(), own)
    }
}

/// What merging `addrs` into `s` holds: what `s` held, and each address of
/// `addrs` but `own`; still without repeats and without `own`.
pub proof fn lemma_merge_contents(s: Seq<PeerAddr>, addrs: Seq<PeerAddr>, own: PeerAddr)
    requires
        s.no_duplicates(),
        !s.contains(own),
    ensures
        merge_seq(s, addrs, own).no_duplicates(),
        !merge_seq(s, addrs, own).contains(own),
        forall|x: PeerAddr|
            merge_seq(s, addrs, own).contains(x) <==> (s.contains(x) || (addrs.contains(x)
                && x != own)),
    decreases addrs.len(),
{
    if addrs.len() > 0 {
        let init = addrs.drop_last();
        lemma_merge_contents(s, init, own);
        let m = merge_seq(s, init, own);
        let a = addrs.last();
        assert forall|x: PeerAddr| addrs.contains(x) <==> (init.contains(x) || x == a) by {
            if addrs.contains(x) {
                let i = choose|i: int| 0 <= i < addrs.len() && addrs[i] == x;
                if i < addrs.len() - 1 {
                    assert(init[i] == x);
                }
            }
            if init.contains(x) {
                let i = choose|i: int| 0 <= i < init.len() && init[i] == x;
                assert(addrs[i] == x);
            }
            if x == a {
                assert(addrs[addrs.len() - 1] == x);
            }
        }
        if !(m.contains(a) || a == own) {
            assert forall|x: PeerAddr| m.push(a).contains(x) <==> (m.contains(x) || x == a) by {
                if m.push(a).contains(x) {
                    let i = choose|i: int| 0 <= i < m.push(a).len() && m.push(a)[i] == x;
                    if i < m.len() {
                        assert(m[i] == x);
                    }
                }
                if m.contains(x) {
                    let i = choose|i: int| 0 <= i < m.len() && m[i] == x;
                    assert(m.push(a)[i] == x);
                }
                if x == a {
                    assert(m.push(a)[m.len() as int] == x);
                }
            }
            assert(m.push(a).no_duplicates());
        }
    }
}

/// The peers a node knows, in the order it learned them, without repeats and
/// never holding the node's own address.
pub struct PeerSet {
    peers: Vec<PeerAddr>,
    own: PeerAddr,
}

impl View for PeerSet {
    type V = Seq<PeerAddr>;

    closed spec fn view(&self) -> Seq<PeerAddr> {
        self.peers@
    }
}

impl PeerSet {
    /// The address of the node that owns the set.
    pub closed spec fn own(&self) -> PeerAddr {
        self.own
    }

    pub open spec fn wf(&self) -> bool {
        &&& self@.no_duplicates()
        &&& !self@.contains(self.own())
    }

    /// An empty set owned by the node at `own`.
    pub fn new(own: PeerAddr) -> (r: PeerSet)
        ensures
            r.wf(),
            r@ == Seq::<PeerAddr>::empty(),
            r.own() == own,
    {
        PeerSet { peers: Vec::new(), own }
    }

    pub fn own_addr(&self) -> (r: PeerAddr)
        ensures
            r == self.own(),
    {
        self.own
    }

    pub fn len(&self) -> (r: usize)
        ensures
            r == self@.len(),
    {
        self.peers.len()
    }

    pub fn contains(&self, addr: &PeerAddr) -> (r: bool)
        ensures
            r == self@.contains(*addr),
    {
        let mut i: usize = 0;
        while i < self.peers.len()
            invariant
                0 <= i <= self.peers@.len(),
                forall|j: int| 0 <= j < i ==> self.peers@[j] != *addr,
            decreases self.peers@.len() - i,
        {
            if self.peers[i] == *addr {
                return true;
            }
            i = i + 1;
        }
        false
    }

    /// Adds `addr` unless it is already known or is the owner's own address;
    /// tells whether it was added. Offering a known address changes nothing.
    pub fn insert(&mut self, addr: PeerAddr) -> (r: bool)
        requires
            old(self).wf(),
        ensures
            final(self).wf(),
            final(self).own() == old(self).own(),
            r == (!old(self)@.contains(addr) && addr != old(self).own()),
            final(self)@ == insert_seq(old(self)@, addr, old(self).own()),
            old(self)@.contains(addr) ==> !r && final(self)@ == old(self)@,
            !final(self)@.contains(old(self).own()),
    {
        if addr == self.own || self.contains(&addr) {
            false
        } else {
            self.peers.push(addr);
            proof {
                let s = old(self)@;
                assert forall|x: PeerAddr| s.push(addr).contains(x) implies (s.contains(x)
                    || x == addr) by {
                    let i = choose|i: int| 0 <= i < s.push(addr).len() && s.push(addr)[i] == x;
                    if i < s.len() {
                        assert(s[i] == x);
                    }
                }
            }
            true
        }
    }

    /// A copy of the peers, in order, to be read without holding the set.
    pub fn snapshot(&self) -> (r: Vec<PeerAddr>)
        ensures
            r@ == self@,
    {
        let mut out: Vec<PeerAddr> = Vec::new();
        let mut i: usize = 0;
        while i < self.peers.len()
            invariant
                0 <= i <= self.peers@.len(),
                out@ == self.peers@.subrange(0, i as int),
            decreases self.peers@.len() - i,
        {
            out.push(self.peers[i]);
            i = i + 1;
            assert(out@ =~= self.peers@.subrange(0, i as int));
        }
        assert(out@ =~= self.peers@);
        out
    }

    /// Offers each address of `addrs` in turn: the set gains every address
    /// it did not know, but never the owner's own.
    pub fn merge_all(&mut self, addrs: &Vec<PeerAddr>)
        requires
            old(self).wf(),
        ensures
            final(self).wf(),
            final(self).own() == old(self).own(),
            final(self)@ == merge_seq(old(self)@, addrs@, old(self).own()),
            forall|x: PeerAddr|
                final(self)@.contains(x) <==> (old(self)@.contains(x) || (addrs@.contains(x) && x
                    != old(self).own())),
            !final(self)@.contains(old(self).own()),
    {
        let ghost start = self@;
        let mut i: usize = 0;
        while i < addrs.len()
            invariant
                0 <= i <= addrs@.len(),
                self.wf(),
                self.own() == old(self).own(),
                start == old(self)@,
                self@ == merge_seq(start, addrs@.subrange(0, i as int), self.own()),
            decreases addrs@.len() - i,
        {
            let a = addrs[i];
            self.insert(a);
            proof {
                let next = addrs@.subrange(0, i + 1);
                assert(next.drop_last() =~= addrs@.subrange(0, i as int));
                assert(next.last() == a);
            }
            i = i + 1;
        }
        proof {
            assert(addrs@.subrange(0, i as int) =~= addrs@);
            lemma_merge_contents(start, addrs@, self.own());
        }
    }
}

} // verus!
