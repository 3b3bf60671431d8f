//! One partition of the store: records addressed by their owner's public key,
//! at most one record per owner.
use vstd::prelude::*;

use crate::keys::PublicKey;

verus! {

/// A sellable item: its owner and the bids placed on it, in arrival order.
#[derive(Debug)]
pub struct Lot<B> {
    pub owner: PublicKey,
    pub bids: Vec<B>,
}

/// A key-addressed partition of the store.
#[derive(Debug)]
pub struct Partition<B> {
    lots: Vec<Lot<B>>,
}

impl<B> Partition<B> {
    /// No two records share an owner.
    pub closed spec fn wf(&self) -> bool {
        forall|i: int, j: int|
            0 <= i < j < self.lots@.len() ==> self.lots@[i].owner != self.lots@[j].owner
    }

    pub closed spec fn has(&self, k: PublicKey) -> bool {
        exists|i: int| 0 <= i < self.lots@.len() && self.lots@[i].owner == k
    }

    pub closed spec fn index_of(&self, k: PublicKey) -> int {
        choose|i: int| 0 <= i < self.lots@.len() && self.lots@[i].owner == k
    }

    /// The partition as a map from owner to that owner's bid sequence.
    pub closed spec fn view(&self) -> Map<PublicKey, Seq<B>> {
        Map::new(|k: PublicKey| self.has(k), |k: PublicKey| self.lots@[self.index_of(k)].bids@)
    }

    proof fn lemma_view_at(&self, i: int)
        requires
            self.wf(),
            0 <= i < self.lots@.len(),
        ensures
            self.view().contains_key(self.lots@[i].owner),
            self.view()[self.lots@[i].owner] == self.lots@[i].bids@,
    {
        let k = self.lots@[i].owner;
        assert(self.has(k));
        let j = self.index_of(k);
        assert(j == i);
    }

    proof fn lemma_not_in_view(&self, k: PublicKey)
        requires
            forall|i: int| 0 <= i < self.lots@.len() ==> self.lots@[i].owner != k,
        ensures
            !self.view().contains_key(k),
    {
    }

    pub fn new() -> (r: Partition<B>)
        ensures
            r.wf(),
            r.view() == Map::<PublicKey, Seq<B>>::empty(),
    {
        let r = Partition { lots: Vec::new() };
        assert(r.view() =~= Map::<PublicKey, Seq<B>>::empty());
        r
    }

    /// Position of the record owned by `k`, if any.
    fn position(&self, k: &PublicKey) -> (r: Option<usize>)
        requires
            self.wf(),
        ensures
            r is None <==> !self.view().contains_key(*k),
            r matches Some(i) ==> i < self.lots@.len() && self.lots@[i as int].owner == *k
                && self.view()[*k] == self.lots@[i as int].bids@,
    {
        let mut i: usize = 0;
        while i < self.lots.len()
            invariant
                self.wf(),
                i <= self.lots@.len(),
                forall|j: int| 0 <= j < i ==> self.lots@[j].owner != *k,
            decreases self.lots@.len() - i,
        {
            if self.lots[i].owner.same(k) {
                proof {
                    self.lemma_view_at(i as int);
                }
                return Some(i);
            }
            i = i + 1;
        }
        proof {
            self.lemma_not_in_view(*k);
        }
        None
    }

    /// Whether a record exists for `k`.
    pub fn contains(&self, k: &PublicKey) -> (r: bool)
        requires
            self.wf(),
        ensures
            r == self.view().contains_key(*k),
    {
        self.position(k).is_some()
    }

    /// The bids of the record owned by `k`, if it exists.
    pub fn bids_of(&self, k: &PublicKey) -> (r: Option<&Vec<B>>)
        requires
            self.wf(),
        ensures
            r is None <==> !self.view().contains_key(*k),
            r matches Some(v) ==> v@ == self.view()[*k],
    {
        match self.position(k) {
            Some(i) => Some(&self.lots[i].bids),
            None => None,
        }
    }

    /// Adds a record for an owner that has none yet.
    pub fn insert_new(&mut self, lot: Lot<B>)
        requires
            old(self).wf(),
            !old(self).view().contains_key(lot.owner),
        ensures
            final(self).wf(),
            final(self).view() == old(self).view().insert(lot.owner, lot.bids@),
    {
        let ghost k = lot.owner;
        let ghost v = lot.bids@;
        let ghost pre = *self;
        proof {
            assert forall|i: int| 0 <= i < pre.lots@.len() implies pre.lots@[i].owner != k by {
                if pre.lots@[i].owner == k {
                    pre.lemma_view_at(i);
                }
            }
        }
        self.lots.push(lot);
        let ghost post = *self;
        proof {
            let n = pre.lots@.len() as int;
            assert forall|k2: PublicKey|
                post.view().contains_key(k2) <==> pre.view().insert(k, v).contains_key(k2) by {
                if post.has(k2) {
                    let j = post.index_of(k2);
                    if j < n {
                        assert(pre.lots@[j] == post.lots@[j]);
                        pre.lemma_view_at(j);
                    }
                }
                if pre.has(k2) {
                    let j = pre.index_of(k2);
                    assert(post.lots@[j] == pre.lots@[j]);
                }
                if k2 == k {
                    assert(post.lots@[n].owner == k);
                }
            }
            assert forall|k2: PublicKey| #[trigger] post.view().contains_key(k2)
                implies post.view()[k2] == pre.view().insert(k, v)[k2] by {
                let j = post.index_of(k2);
                post.lemma_view_at(j);
                if j < n {
                    assert(pre.lots@[j] == post.lots@[j]);
                    pre.lemma_view_at(j);
                }
            }
            assert(post.view() =~= pre.view().insert(k, v));
        }
    }

    /// Replaces the bids of the record owned by `k`, which must exist.
    pub fn replace_bids(&mut self, k: &PublicKey, bids: Vec<B>)
        requires
            old(self).wf(),
            old(self).view().contains_key(*k),
        ensures
            final(self).wf(),
            final(self).view() == old(self).view().insert(*k, bids@),
    {
        let ghost pre = *self;
        let ghost v = bids@;
        let i = match self.position(k) {
            Some(i) => i,
            None => { return; },
        };
        let owner = self.lots[i].owner;
        self.lots.set(i, Lot { owner, bids });
        let ghost post = *self;
        proof {
            assert forall|k2: PublicKey|
                post.view().contains_key(k2) <==> pre.view().insert(*k, v).contains_key(k2) by {
                if post.has(k2) {
                    let j = post.index_of(k2);
                    if j != i {
                        pre.lemma_view_at(j);
                    }
                }
                if pre.has(k2) {
                    let j = pre.index_of(k2);
                    assert(post.lots@[j].owner == pre.lots@[j].owner);
                }
                if k2 == *k {
                    assert(post.lots@[i as int].owner == *k);
                }
            }
            assert forall|k2: PublicKey| #[trigger] post.view().contains_key(k2)
                implies post.view()[k2] == pre.view().insert(*k, v)[k2] by {
                let j = post.index_of(k2);
                post.lemma_view_at(j);
                if j != i {
                    pre.lemma_view_at(j);
                }
            }
            assert(post.view() =~= pre.view().insert(*k, v));
        }
    }
}

} // verus!

verus! {

impl<B: Copy> Partition<B> {
    /// A copy of the record owned by `k`, if it exists.
    pub fn get(&self, k: &PublicKey) -> (r: Option<Lot<B>>)
        requires
            self.wf(),
        ensures
            r is None <==> !self.view().contains_key(*k),
            r matches Some(lot) ==> lot.owner == *k && lot.bids@ == self.view()[*k],
    {
        match self.bids_of(k) {
            Some(bids) => Some(Lot { owner: *k, bids: copy_seq(bids) }),
            None => None,
        }
    }
}

/// An element-wise copy of `v`.
pub fn copy_seq<B: Copy>(v: &Vec<B>) -> (r: Vec<B>)
    ensures
        r@ == v@,
{
    let mut r: Vec<B> = Vec::new();
    let mut i: usize = 0;
    while i < v.len()
        invariant
            i <= v@.len(),
            r@ == v@.take(i as int),
        decreases v@.len() - i,
    {
        r.push(v[i]);
        i = i + 1;
        assert(r@ =~= v@.take(i as int));
    }
    assert(v@.take(i as int) =~= v@);
    r
}

} // verus!
