//! Properties of the transaction rules, stated over the store model.
use vstd::prelude::*;

use crate::keys::{PublicKey, Signature};
use crate::schema::{
    bids_unique, has_bid_from, lemma_with_bid_unique, lemma_with_secret_bid_unique, not_from,
    with_secret_bid, Bid, SchemaModel, SecretBid,
};
use crate::transactions::{
    bid_step, commit_step, create_auction_step, create_closed_auction_step,
    first_secret_bid_from, is_first_from, reveal_step, transaction_step, AuctionTransactions,
    Error,
};

verus! {

/// After `b` is stored, the last sealed bid is `b`, no other bid is from the
/// same bidder, and `b` is the first bid from that bidder.
pub proof fn lemma_with_secret_bid(bids: Seq<SecretBid>, b: SecretBid)
    ensures
        with_secret_bid(bids, b).len() > 0,
        with_secret_bid(bids, b).last() == b,
        forall|i: int|
            0 <= i < with_secret_bid(bids, b).len() - 1 ==> #[trigger] with_secret_bid(
                bids,
                b,
            )[i].bidder != b.bidder,
        first_secret_bid_from(with_secret_bid(bids, b), b.bidder) == b,
{
    let kept = bids.filter(not_from(b.bidder));
    let r = with_secret_bid(bids, b);
    assert forall|i: int| 0 <= i < r.len() - 1 implies #[trigger] r[i].bidder != b.bidder by {
        bids.lemma_filter_pred(not_from(b.bidder), i);
        assert(r[i] == kept[i]);
    }
    let n = r.len() - 1;
    assert(is_first_from(r, b.bidder, n));
    let c = choose|c: int| is_first_from(r, b.bidder, c);
    if c < n {
        assert(r[c].bidder != b.bidder);
    }
    assert(c == n);
}

/// Creating an auction for a new owner leaves one record with no bids, and a
/// second creation for the same owner is refused with `AuctionAlreadyExists`
/// (a refused transaction leaves the store as it was). The same holds of
/// sealed auctions.
pub proof fn lemma_create_twice(m: SchemaModel, owner: PublicKey)
    ensures
        !m.auctions.contains_key(owner) ==> {
            let m1 = create_auction_step(m, owner)->Ok_0;
            &&& create_auction_step(m, owner) is Ok
            &&& m1.auctions.contains_key(owner)
            &&& m1.auctions[owner] == Seq::<Bid>::empty()
            &&& create_auction_step(m1, owner) == Err::<SchemaModel, Error>(
                Error::AuctionAlreadyExists,
            )
        },
        !m.closed_auctions.contains_key(owner) ==> {
            let m1 = create_closed_auction_step(m, owner)->Ok_0;
            &&& create_closed_auction_step(m, owner) is Ok
            &&& m1.closed_auctions.contains_key(owner)
            &&& m1.closed_auctions[owner] == Seq::<SecretBid>::empty()
            &&& create_closed_auction_step(m1, owner) == Err::<SchemaModel, Error>(
                Error::AuctionAlreadyExists,
            )
        },
{
}

/// A bid on an owner without an open auction is refused with
/// `AuctionDoesNotExists`.
pub proof fn lemma_bid_on_absent(m: SchemaModel, bidder: PublicKey, owner: PublicKey, value: u64)
    requires
        !m.auctions.contains_key(owner),
    ensures
        bid_step(m, bidder, owner, value) == Err::<SchemaModel, Error>(
            Error::AuctionDoesNotExists,
        ),
{
}

/// When a bidder without a bid places two bids on the same open auction,
/// both succeed and the auction holds exactly one bid from that bidder: the
/// first one.
pub proof fn lemma_first_bid_wins(
    m: SchemaModel,
    bidder: PublicKey,
    owner: PublicKey,
    first: u64,
    second: u64,
)
    requires
        m.auctions.contains_key(owner),
        !has_bid_from(m.auctions[owner], bidder),
    ensures
        bid_step(m, bidder, owner, first) is Ok,
        bid_step(bid_step(m, bidder, owner, first)->Ok_0, bidder, owner, second) is Ok,
        ({
            let bids = bid_step(
                bid_step(m, bidder, owner, first)->Ok_0,
                bidder,
                owner,
                second,
            )->Ok_0.auctions[owner];
            &&& bids == m.auctions[owner].push(Bid { bidder, value: first })
            &&& forall|i: int|
                0 <= i < bids.len() && #[trigger] bids[i].bidder == bidder ==> i == bids.len() - 1
                    && bids[i].value == first
        }),
{
    let b0 = m.auctions[owner];
    let m1 = bid_step(m, bidder, owner, first)->Ok_0;
    let b1 = m1.auctions[owner];
    assert(b1 == b0.push(Bid { bidder, value: first }));
    assert(has_bid_from(b1, bidder)) by {
        assert(b1[b0.len() as int].bidder == bidder);
    }
    let bids = bid_step(m1, bidder, owner, second)->Ok_0.auctions[owner];
    assert(bids == b1);
    assert forall|i: int| 0 <= i < bids.len() && #[trigger] bids[i].bidder == bidder implies i
        == bids.len() - 1 && bids[i].value == first by {
        if i < b0.len() {
            assert(b0[i].bidder == bidder);
        }
    }
}

/// A commitment followed by a reveal whose signature check succeeds stores
/// the revealed value in the bidder's sealed bid, under the committed
/// signature; that bid is the only one from the bidder. The reveal is checked
/// against the committed signature.
pub proof fn lemma_commit_then_reveal(
    m: SchemaModel,
    bidder: PublicKey,
    owner: PublicKey,
    sig: Signature,
    value: u64,
)
    requires
        m.closed_auctions.contains_key(owner),
    ensures
        commit_step(m, bidder, owner, sig) is Ok,
        first_secret_bid_from(
            commit_step(m, bidder, owner, sig)->Ok_0.closed_auctions[owner],
            bidder,
        ).value_signature == sig,
        reveal_step(commit_step(m, bidder, owner, sig)->Ok_0, bidder, owner, value, true) is Ok,
        ({
            let bids = reveal_step(
                commit_step(m, bidder, owner, sig)->Ok_0,
                bidder,
                owner,
                value,
                true,
            )->Ok_0.closed_auctions[owner];
            &&& bids.len() > 0
            &&& bids.last() == SecretBid { bidder, value_signature: sig, value }
            &&& forall|i: int| 0 <= i < bids.len() - 1 ==> #[trigger] bids[i].bidder != bidder
        }),
{
    let committed = SecretBid { bidder, value_signature: sig, value: 0 };
    let m1 = commit_step(m, bidder, owner, sig)->Ok_0;
    let b1 = m1.closed_auctions[owner];
    lemma_with_secret_bid(m.closed_auctions[owner], committed);
    assert(b1.last().bidder == bidder);
    let revealed = SecretBid { bidder, value_signature: sig, value };
    lemma_with_secret_bid(b1, revealed);
}

/// After a commitment, a reveal whose signature check fails is refused with
/// `SecretBidVerificationFailed`, and the committed bid keeps value zero
/// (a refused transaction leaves the store as it was).
pub proof fn lemma_reveal_mismatch(
    m: SchemaModel,
    bidder: PublicKey,
    owner: PublicKey,
    sig: Signature,
    value: u64,
)
    requires
        m.closed_auctions.contains_key(owner),
    ensures
        commit_step(m, bidder, owner, sig) is Ok,
        reveal_step(commit_step(m, bidder, owner, sig)->Ok_0, bidder, owner, value, false)
            == Err::<SchemaModel, Error>(Error::SecretBidVerificationFailed),
        first_secret_bid_from(
            commit_step(m, bidder, owner, sig)->Ok_0.closed_auctions[owner],
            bidder,
        ) == (SecretBid { bidder, value_signature: sig, value: 0 }),
{
    let committed = SecretBid { bidder, value_signature: sig, value: 0 };
    let m1 = commit_step(m, bidder, owner, sig)->Ok_0;
    let b1 = m1.closed_auctions[owner];
    lemma_with_secret_bid(m.closed_auctions[owner], committed);
    assert(b1.last().bidder == bidder);
}

/// Two commitments by one bidder to one sealed auction leave exactly one
/// sealed bid from that bidder: the later commitment, unrevealed.
pub proof fn lemma_commit_upsert(
    m: SchemaModel,
    bidder: PublicKey,
    owner: PublicKey,
    first: Signature,
    second: Signature,
)
    requires
        m.closed_auctions.contains_key(owner),
    ensures
        commit_step(m, bidder, owner, first) is Ok,
        commit_step(commit_step(m, bidder, owner, first)->Ok_0, bidder, owner, second) is Ok,
        ({
            let bids = commit_step(
                commit_step(m, bidder, owner, first)->Ok_0,
                bidder,
                owner,
                second,
            )->Ok_0.closed_auctions[owner];
            &&& bids.len() > 0
            &&& bids.last() == SecretBid { bidder, value_signature: second, value: 0 }
            &&& forall|i: int| 0 <= i < bids.len() - 1 ==> #[trigger] bids[i].bidder != bidder
        }),
{
    let m1 = commit_step(m, bidder, owner, first)->Ok_0;
    lemma_with_secret_bid(
        m1.closed_auctions[owner],
        SecretBid { bidder, value_signature: second, value: 0 },
    );
}

/// Creations for two different owners succeed in either order and leave the
/// same store, so any digest computed from the store's contents is the same.
/// This holds for any mix of open and sealed auctions.
pub proof fn lemma_creations_commute(m: SchemaModel, a: PublicKey, b: PublicKey)
    requires
        a != b,
    ensures
        !m.auctions.contains_key(a) && !m.auctions.contains_key(b) ==> {
            &&& create_auction_step(m, a) is Ok
            &&& create_auction_step(m, b) is Ok
            &&& create_auction_step(create_auction_step(m, a)->Ok_0, b) is Ok
            &&& create_auction_step(create_auction_step(m, b)->Ok_0, a) is Ok
            &&& create_auction_step(create_auction_step(m, a)->Ok_0, b)
                == create_auction_step(create_auction_step(m, b)->Ok_0, a)
        },
        !m.closed_auctions.contains_key(a) && !m.closed_auctions.contains_key(b) ==> {
            &&& create_closed_auction_step(create_closed_auction_step(m, a)->Ok_0, b) is Ok
            &&& create_closed_auction_step(create_closed_auction_step(m, a)->Ok_0, b)
                == create_closed_auction_step(create_closed_auction_step(m, b)->Ok_0, a)
        },
        !m.auctions.contains_key(a) && !m.closed_auctions.contains_key(b) ==> {
            &&& create_closed_auction_step(create_auction_step(m, a)->Ok_0, b) is Ok
            &&& create_closed_auction_step(create_auction_step(m, a)->Ok_0, b)
                == create_auction_step(create_closed_auction_step(m, b)->Ok_0, a)
        },
{
    if !m.auctions.contains_key(a) && !m.auctions.contains_key(b) {
        assert(m.auctions.insert(a, Seq::empty()).insert(b, Seq::empty()) =~= m.auctions.insert(
            b,
            Seq::empty(),
        ).insert(a, Seq::empty()));
    }
    if !m.closed_auctions.contains_key(a) && !m.closed_auctions.contains_key(b) {
        assert(m.closed_auctions.insert(a, Seq::empty()).insert(b, Seq::empty())
            =~= m.closed_auctions.insert(b, Seq::empty()).insert(a, Seq::empty()));
    }
}

/// Every transaction that succeeds keeps each record at one bid per bidder.
pub proof fn lemma_transactions_keep_bids_unique(
    m: SchemaModel,
    tx: AuctionTransactions,
    signature_valid: bool,
)
    requires
        bids_unique(m),
        transaction_step(m, tx, signature_valid) is Ok,
    ensures
        bids_unique(transaction_step(m, tx, signature_valid)->Ok_0),
{
    match tx {
        AuctionTransactions::TxBid(t) => {
            lemma_with_bid_unique(m.auctions[t.auction_owner], Bid { bidder: t.pub_key, value: t.value });
        },
        AuctionTransactions::TxSecretBid(t) => {
            lemma_with_secret_bid_unique(
                m.closed_auctions[t.auction_owner],
                SecretBid { bidder: t.pub_key, value_signature: t.value_signature, value: 0 },
            );
        },
        AuctionTransactions::TxProveSecretBid(t) => {
            let bids = m.closed_auctions[t.auction_owner];
            lemma_with_secret_bid_unique(
                bids,
                SecretBid {
                    bidder: t.pub_key,
                    value_signature: first_secret_bid_from(bids, t.pub_key).value_signature,
                    value: t.value,
                },
            );
        },
        _ => {},
    }
    let r = transaction_step(m, tx, signature_valid)->Ok_0;
    assert(bids_unique(r));
}

} // verus!
