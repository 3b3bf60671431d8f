//! The store schema: an open-bid partition and a sealed-bid partition, both
//! keyed by the owner's public key, with the rules that mutate them.
use vstd::prelude::*;

use crate::keys::{PublicKey, Signature};
use crate::partition::{copy_seq, Lot, Partition};

verus! {

/// An open bid: who bid and how much.
#[derive(Clone, Copy, Debug)]
pub struct Bid {
    pub bidder: PublicKey,
    pub value: u64,
}

/// A sealed bid: the bidder, their signature over the encoded value, and the
/// value once revealed (zero until then).
#[derive(Clone, Copy, Debug)]
pub struct SecretBid {
    pub bidder: PublicKey,
    pub value_signature: Signature,
    pub value: u64,
}

/// An open-bid auction record.
pub type Auction = Lot<Bid>;

/// A sealed-bid auction record.
pub type ClosedAuction = Lot<SecretBid>;

impl Bid {
    pub fn new(bidder: &PublicKey, value: u64) -> (r: Bid)
        ensures
            r.bidder == *bidder,
            r.value == value,
    {
        Bid { bidder: *bidder, value }
    }
}

impl SecretBid {
    pub fn new(bidder: &PublicKey, value_signature: &Signature, value: u64) -> (r: SecretBid)
        ensures
            r.bidder == *bidder,
            r.value_signature == *value_signature,
            r.value == value,
    {
        SecretBid { bidder: *bidder, value_signature: *value_signature, value }
    }
}

/// Whether `bids` holds a bid from `k`.
pub open spec fn has_bid_from(bids: Seq<Bid>, k: PublicKey) -> bool {
    exists|i: int| 0 <= i < bids.len() && bids[i].bidder == k
}

/// Open bids after `b` is offered: the first bid of each bidder stands.
pub open spec fn with_bid(bids: Seq<Bid>, b: Bid) -> Seq<Bid> {
    if has_bid_from(bids, b.bidder) {
        bids
    } else {
        bids.push(b)
    }
}

/// Whether `bids` holds a sealed bid from `k`.
pub open spec fn has_secret_bid_from(bids: Seq<SecretBid>, k: PublicKey) -> bool {
    exists|i: int| 0 <= i < bids.len() && bids[i].bidder == k
}

/// Keeps the sealed bids that are not from `k`.
pub open spec fn not_from(k: PublicKey) -> spec_fn(SecretBid) -> bool {
    |x: SecretBid| x.bidder != k
}

/// Sealed bids after `b` is stored: any earlier bid of the same bidder is
/// dropped and `b` goes last.
pub open spec fn with_secret_bid(bids: Seq<SecretBid>, b: SecretBid) -> Seq<SecretBid> {
    bids.filter(not_from(b.bidder)).push(b)
}

/// No two open bids in `bids` come from the same bidder.
pub open spec fn unique_bidders(bids: Seq<Bid>) -> bool {
    forall|i: int, j: int| 0 <= i < j < bids.len() ==> bids[i].bidder != bids[j].bidder
}

/// No two sealed bids in `bids` come from the same bidder.
pub open spec fn unique_secret_bidders(bids: Seq<SecretBid>) -> bool {
    forall|i: int, j: int| 0 <= i < j < bids.len() ==> bids[i].bidder != bids[j].bidder
}

/// Every record of the store holds at most one bid per bidder.
pub open spec fn bids_unique(m: SchemaModel) -> bool {
    &&& forall|k: PublicKey| #[trigger] m.auctions.contains_key(k) ==> unique_bidders(m.auctions[k])
    &&& forall|k: PublicKey| #[trigger] m.closed_auctions.contains_key(k)
        ==> unique_secret_bidders(m.closed_auctions[k])
}

/// Offering a bid keeps the bidders of a record distinct.
pub proof fn lemma_with_bid_unique(bids: Seq<Bid>, b: Bid)
    requires
        unique_bidders(bids),
    ensures
        unique_bidders(with_bid(bids, b)),
{
    if !has_bid_from(bids, b.bidder) {
        let r = bids.push(b);
        assert forall|i: int, j: int| 0 <= i < j < r.len() implies r[i].bidder != r[j].bidder by {
            if j == bids.len() {
                assert(bids[i].bidder != b.bidder);
            }
        }
    }
}

/// Dropping the sealed bids of one bidder keeps the rest distinct.
pub proof fn lemma_filter_unique(bids: Seq<SecretBid>, k: PublicKey)
    requires
        unique_secret_bidders(bids),
    ensures
        unique_secret_bidders(bids.filter(not_from(k))),
    decreases bids.len(),
{
    reveal(Seq::filter);
    if bids.len() > 0 {
        let rest = bids.drop_last();
        let last = bids.last();
        lemma_filter_unique(rest, k);
        let kept = rest.filter(not_from(k));
        if not_from(k)(last) {
            let r = kept.push(last);
            assert forall|i: int, j: int| 0 <= i < j < r.len() implies r[i].bidder
                != r[j].bidder by {
                if j == kept.len() {
                    assert(kept.contains(kept[i]));
                    rest.lemma_filter_contains_rev(not_from(k), kept[i]);
                    let n = choose|n: int| 0 <= n < rest.len() && rest[n] == kept[i];
                    assert(bids[n] == rest[n]);
                    assert(bids[rest.len() as int] == last);
                }
            }
        }
    }
}

/// Storing a sealed bid keeps the bidders of a record distinct.
pub proof fn lemma_with_secret_bid_unique(bids: Seq<SecretBid>, b: SecretBid)
    requires
        unique_secret_bidders(bids),
    ensures
        unique_secret_bidders(with_secret_bid(bids, b)),
{
    lemma_filter_unique(bids, b.bidder);
    let kept = bids.filter(not_from(b.bidder));
    let r = kept.push(b);
    assert forall|i: int, j: int| 0 <= i < j < r.len() implies r[i].bidder != r[j].bidder by {
        if j == kept.len() {
            bids.lemma_filter_pred(not_from(b.bidder), i);
        }
    }
}

proof fn lemma_insert_open_unique(m: SchemaModel, k: PublicKey, bids: Seq<Bid>)
    requires
        bids_unique(m),
        unique_bidders(bids),
    ensures
        bids_unique(SchemaModel { auctions: m.auctions.insert(k, bids), ..m }),
{
}

proof fn lemma_insert_sealed_unique(m: SchemaModel, k: PublicKey, bids: Seq<SecretBid>)
    requires
        bids_unique(m),
        unique_secret_bidders(bids),
    ensures
        bids_unique(SchemaModel { closed_auctions: m.closed_auctions.insert(k, bids), ..m }),
{
}

/// Whether no two open bids in `bids` come from the same bidder.
pub fn check_unique_bidders(bids: &Vec<Bid>) -> (r: bool)
    ensures
        r == unique_bidders(bids@),
{
    let mut j: usize = 1;
    while j < bids.len()
        invariant
            1 <= j || bids@.len() == 0,
            j <= bids@.len() || bids@.len() == 0,
            forall|a: int, b: int| 0 <= a < b < j && b < bids@.len() ==> bids@[a].bidder
                != bids@[b].bidder,
        decreases bids@.len() - j,
    {
        let mut i: usize = 0;
        while i < j
            invariant
                i <= j < bids@.len(),
                forall|a: int| 0 <= a < i ==> bids@[a].bidder != bids@[j as int].bidder,
            decreases j - i,
        {
            if bids[i].bidder.same(&bids[j].bidder) {
                return false;
            }
            i = i + 1;
        }
        j = j + 1;
    }
    true
}

/// Whether no two sealed bids in `bids` come from the same bidder.
pub fn check_unique_secret_bidders(bids: &Vec<SecretBid>) -> (r: bool)
    ensures
        r == unique_secret_bidders(bids@),
{
    let mut j: usize = 1;
    while j < bids.len()
        invariant
            1 <= j || bids@.len() == 0,
            j <= bids@.len() || bids@.len() == 0,
            forall|a: int, b: int| 0 <= a < b < j && b < bids@.len() ==> bids@[a].bidder
                != bids@[b].bidder,
        decreases bids@.len() - j,
    {
        let mut i: usize = 0;
        while i < j
            invariant
                i <= j < bids@.len(),
                forall|a: int| 0 <= a < i ==> bids@[a].bidder != bids@[j as int].bidder,
            decreases j - i,
        {
            if bids[i].bidder.same(&bids[j].bidder) {
                return false;
            }
            i = i + 1;
        }
        j = j + 1;
    }
    true
}

/// Abstract contents of the store.
pub struct SchemaModel {
    pub auctions: Map<PublicKey, Seq<Bid>>,
    pub closed_auctions: Map<PublicKey, Seq<SecretBid>>,
}

/// The auction store: one partition per auction style.
#[derive(Debug)]
pub struct Schema {
    auctions: Partition<Bid>,
    closed_auctions: Partition<SecretBid>,
}

impl Schema {
    pub closed spec fn wf(&self) -> bool {
        self.auctions.wf() && self.closed_auctions.wf() && bids_unique(self.view())
    }

    /// A well-formed store holds at most one bid per bidder in each record.
    pub proof fn lemma_wf_bids_unique(&self)
        requires
            self.wf(),
        ensures
            bids_unique(self.view()),
    {
    }

    pub closed spec fn view(&self) -> SchemaModel {
        SchemaModel {
            auctions: self.auctions.view(),
            closed_auctions: self.closed_auctions.view(),
        }
    }

    /// An empty store.
    pub fn new() -> (r: Schema)
        ensures
            r.wf(),
            r.view().auctions == Map::<PublicKey, Seq<Bid>>::empty(),
            r.view().closed_auctions == Map::<PublicKey, Seq<SecretBid>>::empty(),
    {
        Schema { auctions: Partition::new(), closed_auctions: Partition::new() }
    }

    /// The open-bid partition.
    pub fn auctions(&self) -> (r: &Partition<Bid>)
        requires
            self.wf(),
        ensures
            r.wf(),
            r.view() == self.view().auctions,
    {
        &self.auctions
    }

    /// The sealed-bid partition.
    pub fn closed_auctions(&self) -> (r: &Partition<SecretBid>)
        requires
            self.wf(),
        ensures
            r.wf(),
            r.view() == self.view().closed_auctions,
    {
        &self.closed_auctions
    }

    /// Stores `new_auction` unless its owner already has an open-bid record.
    pub fn add_auction(&mut self, new_auction: Auction)
        requires
            old(self).wf(),
            unique_bidders(new_auction.bids@),
        ensures
            final(self).wf(),
            final(self).view().closed_auctions == old(self).view().closed_auctions,
            final(self).view().auctions == if old(self).view().auctions.contains_key(
                new_auction.owner,
            ) {
                old(self).view().auctions
            } else {
                old(self).view().auctions.insert(new_auction.owner, new_auction.bids@)
            },
    {
        if self.auctions.contains(&new_auction.owner) {
            return;
        }
        let ghost bids = new_auction.bids@;
        self.auctions.insert_new(new_auction);
        proof {
            lemma_insert_open_unique(old(self).view(), new_auction.owner, bids);
        }
    }

    /// Adds `new_bid` to the open auction of `owner`, unless that auction is
    /// absent or already holds a bid from the same bidder.
    pub fn bid(&mut self, owner: &PublicKey, new_bid: Bid)
        requires
            old(self).wf(),
        ensures
            final(self).wf(),
            final(self).view().closed_auctions == old(self).view().closed_auctions,
            final(self).view().auctions == if old(self).view().auctions.contains_key(*owner) {
                old(self).view().auctions.insert(
                    *owner,
                    with_bid(old(self).view().auctions[*owner], new_bid),
                )
            } else {
                old(self).view().auctions
            },
    {
        let bids = match self.auctions.bids_of(owner) {
            Some(bids) => bids,
            None => { return; },
        };
        let mut i: usize = 0;
        while i < bids.len()
            invariant
                self.wf(),
                self.view().auctions.contains_key(*owner),
                bids@ == self.view().auctions[*owner],
                i <= bids@.len(),
                forall|j: int| 0 <= j < i ==> bids@[j].bidder != new_bid.bidder,
            decreases bids@.len() - i,
        {
            if bids[i].bidder.same(&new_bid.bidder) {
                proof {
                    assert(self.view().auctions.insert(*owner, bids@) =~= self.view().auctions);
                }
                return;
            }
            i = i + 1;
        }
        let mut updated = copy_seq(bids);
        updated.push(new_bid);
        proof {
            lemma_with_bid_unique(bids@, new_bid);
            assert(updated@ == with_bid(bids@, new_bid));
        }
        let ghost pre = self.view();
        let ghost v = updated@;
        self.auctions.replace_bids(owner, updated);
        proof {
            lemma_insert_open_unique(pre, *owner, v);
        }
    }

    /// Stores `new_auction` unless its owner already has a sealed-bid record.
    pub fn add_closed_auction(&mut self, new_auction: ClosedAuction)
        requires
            old(self).wf(),
            unique_secret_bidders(new_auction.bids@),
        ensures
            final(self).wf(),
            final(self).view().auctions == old(self).view().auctions,
            final(self).view().closed_auctions == if old(self).view().closed_auctions.contains_key(
                new_auction.owner,
            ) {
                old(self).view().closed_auctions
            } else {
                old(self).view().closed_auctions.insert(new_auction.owner, new_auction.bids@)
            },
    {
        if self.closed_auctions.contains(&new_auction.owner) {
            return;
        }
        let ghost bids = new_auction.bids@;
        self.closed_auctions.insert_new(new_auction);
        proof {
            lemma_insert_sealed_unique(old(self).view(), new_auction.owner, bids);
        }
    }

    /// Stores `new_bid` in the sealed auction of `owner`, replacing any earlier
    /// sealed bid of the same bidder; nothing happens if the auction is absent.
    pub fn secret_bid(&mut self, owner: &PublicKey, new_bid: SecretBid)
        requires
            old(self).wf(),
        ensures
            final(self).wf(),
            final(self).view().auctions == old(self).view().auctions,
            final(self).view().closed_auctions == if old(self).view().closed_auctions.contains_key(
                *owner,
            ) {
                old(self).view().closed_auctions.insert(
                    *owner,
                    with_secret_bid(old(self).view().closed_auctions[*owner], new_bid),
                )
            } else {
                old(self).view().closed_auctions
            },
    {
        let bids = match self.closed_auctions.bids_of(owner) {
            Some(bids) => bids,
            None => { return; },
        };
        let ghost keep = not_from(new_bid.bidder);
        let mut updated: Vec<SecretBid> = Vec::new();
        let mut i: usize = 0;
        while i < bids.len()
            invariant
                self.wf(),
                self.view().closed_auctions.contains_key(*owner),
                bids@ == self.view().closed_auctions[*owner],
                i <= bids@.len(),
                keep == not_from(new_bid.bidder),
                updated@ == bids@.take(i as int).filter(keep),
            decreases bids@.len() - i,
        {
            proof {
                assert(bids@.take(i as int + 1).drop_last() =~= bids@.take(i as int));
                reveal(Seq::filter);
            }
            if !bids[i].bidder.same(&new_bid.bidder) {
                updated.push(bids[i]);
            }
            i = i + 1;
        }
        assert(bids@.take(i as int) =~= bids@);
        updated.push(new_bid);
        proof {
            lemma_with_secret_bid_unique(bids@, new_bid);
        }
        let ghost pre = self.view();
        let ghost v = updated@;
        self.closed_auctions.replace_bids(owner, updated);
        proof {
            lemma_insert_sealed_unique(pre, *owner, v);
        }
    }
}

} // verus!
