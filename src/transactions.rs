//! The five transaction kinds and how each one changes the store.
use vstd::prelude::*;

use crate::codec::{encode_value, le_bytes};
use crate::keys::{PublicKey, Signature};
use crate::partition::Lot;
use crate::schema::{
    has_secret_bid_from, with_bid, with_secret_bid, Bid, Schema, SchemaModel, SecretBid,
};

verus! {

/// Why a transaction failed.
#[derive(Clone, Copy, Debug, PartialEq, Eq, Structural)]
pub enum Error {
    /// The owner already has a record of this kind.
    AuctionAlreadyExists,
    /// No record for the owner, or no sealed bid for the bidder.
    AuctionDoesNotExists,
    /// The revealed value does not match the committed signature.
    SecretBidVerificationFailed,
}

/// The stable wire code of each failure kind.
pub open spec fn error_code(e: Error) -> u8 {
    match e {
        Error::AuctionAlreadyExists => 0,
        Error::AuctionDoesNotExists => 1,
        Error::SecretBidVerificationFailed => 2,
    }
}

/// The human-readable text of each failure kind.
pub open spec fn error_text(e: Error) -> Seq<char> {
    match e {
        Error::AuctionAlreadyExists => "Public key already owns an auction"@,
        Error::AuctionDoesNotExists => "No lot with such public key"@,
        Error::SecretBidVerificationFailed => "Secret bid verification failed"@,
    }
}

impl Error {
    /// The wire code reported for this failure.
    pub fn code(&self) -> (r: u8)
        ensures
            r == error_code(*self),
    {
        match self {
            Error::AuctionAlreadyExists => 0,
            Error::AuctionDoesNotExists => 1,
            Error::SecretBidVerificationFailed => 2,
        }
    }

    /// The description reported with the wire code.
    pub fn description(&self) -> (r: &'static str)
        ensures
            r@ == error_text(*self),
    {
        match self {
            Error::AuctionAlreadyExists => "Public key already owns an auction",
            Error::AuctionDoesNotExists => "No lot with such public key",
            Error::SecretBidVerificationFailed => "Secret bid verification failed",
        }
    }
}

/// Whether `i` is the position of the first sealed bid from `k`.
pub open spec fn is_first_from(bids: Seq<SecretBid>, k: PublicKey, i: int) -> bool {
    0 <= i < bids.len() && bids[i].bidder == k && forall|j: int|
        0 <= j < i ==> #[trigger] bids[j].bidder != k
}

/// The first sealed bid from `k` (meaningful when there is one).
pub open spec fn first_secret_bid_from(bids: Seq<SecretBid>, k: PublicKey) -> SecretBid {
    bids[choose|i: int| is_first_from(bids, k, i)]
}

/// Store after creating an open auction for `owner`.
pub open spec fn create_auction_step(m: SchemaModel, owner: PublicKey) -> Result<SchemaModel, Error> {
    if m.auctions.contains_key(owner) {
        Err(Error::AuctionAlreadyExists)
    } else {
        Ok(SchemaModel { auctions: m.auctions.insert(owner, Seq::empty()), ..m })
    }
}

/// Store after `bidder` bids `value` on the open auction of `owner`.
pub open spec fn bid_step(m: SchemaModel, bidder: PublicKey, owner: PublicKey, value: u64) -> Result<
    SchemaModel,
    Error,
> {
    if !m.auctions.contains_key(owner) {
        Err(Error::AuctionDoesNotExists)
    } else {
        Ok(
            SchemaModel {
                auctions: m.auctions.insert(
                    owner,
                    with_bid(m.auctions[owner], Bid { bidder, value }),
                ),
                ..m
            },
        )
    }
}

/// Store after creating a sealed auction for `owner`.
pub open spec fn create_closed_auction_step(m: SchemaModel, owner: PublicKey) -> Result<
    SchemaModel,
    Error,
> {
    if m.closed_auctions.contains_key(owner) {
        Err(Error::AuctionAlreadyExists)
    } else {
        Ok(SchemaModel { closed_auctions: m.closed_auctions.insert(owner, Seq::empty()), ..m })
    }
}

/// Store after `bidder` commits `sig` to the sealed auction of `owner`.
pub open spec fn commit_step(m: SchemaModel, bidder: PublicKey, owner: PublicKey, sig: Signature) -> Result<
    SchemaModel,
    Error,
> {
    if !m.closed_auctions.contains_key(owner) {
        Err(Error::AuctionDoesNotExists)
    } else {
        Ok(
            SchemaModel {
                closed_auctions: m.closed_auctions.insert(
                    owner,
                    with_secret_bid(
                        m.closed_auctions[owner],
                        SecretBid { bidder, value_signature: sig, value: 0 },
                    ),
                ),
                ..m
            },
        )
    }
}

/// Store after `bidder` reveals `value` on the sealed auction of `owner`,
/// given whether the committed signature verifies over the encoded value.
pub open spec fn reveal_step(
    m: SchemaModel,
    bidder: PublicKey,
    owner: PublicKey,
    value: u64,
    signature_valid: bool,
) -> Result<SchemaModel, Error> {
    if !m.closed_auctions.contains_key(owner) {
        Err(Error::AuctionDoesNotExists)
    } else if !has_secret_bid_from(m.closed_auctions[owner], bidder) {
        Err(Error::AuctionDoesNotExists)
    } else if !signature_valid {
        Err(Error::SecretBidVerificationFailed)
    } else {
        let sig = first_secret_bid_from(m.closed_auctions[owner], bidder).value_signature;
        Ok(
            SchemaModel {
                closed_auctions: m.closed_auctions.insert(
                    owner,
                    with_secret_bid(
                        m.closed_auctions[owner],
                        SecretBid { bidder, value_signature: sig, value },
                    ),
                ),
                ..m
            },
        )
    }
}

/// `r`, `before` and `after` are what running a transaction whose intended
/// outcome is `step` returned and left: on success the new store, on failure
/// the error and an untouched store.
pub open spec fn applied(
    step: Result<SchemaModel, Error>,
    r: Result<(), Error>,
    before: SchemaModel,
    after: SchemaModel,
) -> bool {
    match step {
        Ok(m) => r is Ok && after == m,
        Err(e) => r == Err::<(), Error>(e) && after == before,
    }
}

/// Position of the first sealed bid from `k`.
fn find_secret_bid(bids: &Vec<SecretBid>, k: &PublicKey) -> (r: Option<usize>)
    ensures
        r is None <==> !has_secret_bid_from(bids@, *k),
        r matches Some(i) ==> is_first_from(bids@, *k, i as int) && bids@[i as int]
            == first_secret_bid_from(bids@, *k),
{
    let mut i: usize = 0;
    while i < bids.len()
        invariant
            i <= bids@.len(),
            forall|j: int| 0 <= j < i ==> #[trigger] bids@[j].bidder != *k,
        decreases bids@.len() - i,
    {
        if bids[i].bidder.same(k) {
            proof {
                assert(is_first_from(bids@, *k, i as int));
                let c = choose|c: int| is_first_from(bids@, *k, c);
                if c < i {
                    assert(bids@[c].bidder != *k);
                } else if c > i {
                    assert(bids@[i as int].bidder != *k);
                }
            }
            return Some(i);
        }
        i = i + 1;
    }
    None
}

/// Creates an open auction owned by the signer.
#[derive(Clone, Copy, Debug)]
pub struct TxCreateAuction {
    pub pub_key: PublicKey,
}

/// Bids `value` on the open auction of `auction_owner`.
#[derive(Clone, Copy, Debug)]
pub struct TxBid {
    pub pub_key: PublicKey,
    pub auction_owner: PublicKey,
    pub value: u64,
}

/// Creates a sealed auction owned by the signer.
#[derive(Clone, Copy, Debug)]
pub struct TxCreateClosedAuction {
    pub pub_key: PublicKey,
}

/// Commits to a bid on the sealed auction of `auction_owner` with a
/// signature over the encoded value.
#[derive(Clone, Copy, Debug)]
pub struct TxSecretBid {
    pub pub_key: PublicKey,
    pub auction_owner: PublicKey,
    pub value_signature: Signature,
}

/// Reveals the value committed to earlier on the sealed auction of
/// `auction_owner`.
#[derive(Clone, Copy, Debug)]
pub struct TxProveSecretBid {
    pub pub_key: PublicKey,
    pub auction_owner: PublicKey,
    pub value: u64,
}

impl TxCreateAuction {
    pub fn new(pub_key: &PublicKey) -> (r: TxCreateAuction)
        ensures
            r.pub_key == *pub_key,
    {
        TxCreateAuction { pub_key: *pub_key }
    }

    pub fn execute(&self, schema: &mut Schema) -> (r: Result<(), Error>)
        requires
            old(schema).wf(),
        ensures
            final(schema).wf(),
            applied(
                create_auction_step(old(schema).view(), self.pub_key),
                r,
                old(schema).view(),
                final(schema).view(),
            ),
    {
        if schema.auctions().contains(&self.pub_key) {
            return Err(Error::AuctionAlreadyExists);
        }
        schema.add_auction(Lot { owner: self.pub_key, bids: Vec::new() });
        proof {
            assert(schema.view() == create_auction_step(old(schema).view(), self.pub_key)->Ok_0);
        }
        Ok(())
    }
}

impl TxBid {
    pub fn new(pub_key: &PublicKey, auction_owner: &PublicKey, value: u64) -> (r: TxBid)
        ensures
            r.pub_key == *pub_key,
            r.auction_owner == *auction_owner,
            r.value == value,
    {
        TxBid { pub_key: *pub_key, auction_owner: *auction_owner, value }
    }

    pub fn execute(&self, schema: &mut Schema) -> (r: Result<(), Error>)
        requires
            old(schema).wf(),
        ensures
            final(schema).wf(),
            applied(
                bid_step(old(schema).view(), self.pub_key, self.auction_owner, self.value),
                r,
                old(schema).view(),
                final(schema).view(),
            ),
    {
        if !schema.auctions().contains(&self.auction_owner) {
            return Err(Error::AuctionDoesNotExists);
        }
        schema.bid(&self.auction_owner, Bid::new(&self.pub_key, self.value));
        proof {
            assert(schema.view() == bid_step(
                old(schema).view(),
                self.pub_key,
                self.auction_owner,
                self.value,
            )->Ok_0);
        }
        Ok(())
    }
}

impl TxCreateClosedAuction {
    pub fn new(pub_key: &PublicKey) -> (r: TxCreateClosedAuction)
        ensures
            r.pub_key == *pub_key,
    {
        TxCreateClosedAuction { pub_key: *pub_key }
    }

    pub fn execute(&self, schema: &mut Schema) -> (r: Result<(), Error>)
        requires
            old(schema).wf(),
        ensures
            final(schema).wf(),
            applied(
                create_closed_auction_step(old(schema).view(), self.pub_key),
                r,
                old(schema).view(),
                final(schema).view(),
            ),
    {
        if schema.closed_auctions().contains(&self.pub_key) {
            return Err(Error::AuctionAlreadyExists);
        }
        schema.add_closed_auction(Lot { owner: self.pub_key, bids: Vec::new() });
        proof {
            assert(schema.view() == create_closed_auction_step(
                old(schema).view(),
                self.pub_key,
            )->Ok_0);
        }
        Ok(())
    }
}

impl TxSecretBid {
    pub fn new(pub_key: &PublicKey, auction_owner: &PublicKey, value_signature: &Signature) -> (r:
        TxSecretBid)
        ensures
            r.pub_key == *pub_key,
            r.auction_owner == *auction_owner,
            r.value_signature == *value_signature,
    {
        TxSecretBid {
            pub_key: *pub_key,
            auction_owner: *auction_owner,
            value_signature: *value_signature,
        }
    }

    pub fn execute(&self, schema: &mut Schema) -> (r: Result<(), Error>)
        requires
            old(schema).wf(),
        ensures
            final(schema).wf(),
            applied(
                commit_step(
                    old(schema).view(),
                    self.pub_key,
                    self.auction_owner,
                    self.value_signature,
                ),
                r,
                old(schema).view(),
                final(schema).view(),
            ),
    {
        if !schema.closed_auctions().contains(&self.auction_owner) {
            return Err(Error::AuctionDoesNotExists);
        }
        schema.secret_bid(
            &self.auction_owner,
            SecretBid::new(&self.pub_key, &self.value_signature, 0),
        );
        proof {
            assert(schema.view() == commit_step(
                old(schema).view(),
                self.pub_key,
                self.auction_owner,
                self.value_signature,
            )->Ok_0);
        }
        Ok(())
    }
}

impl TxProveSecretBid {
    pub fn new(pub_key: &PublicKey, auction_owner: &PublicKey, value: u64) -> (r: TxProveSecretBid)
        ensures
            r.pub_key == *pub_key,
            r.auction_owner == *auction_owner,
            r.value == value,
    {
        TxProveSecretBid { pub_key: *pub_key, auction_owner: *auction_owner, value }
    }

    /// What the reveal must be checked against: the signature committed by the
    /// signer to the sealed auction of `auction_owner`, and the encoded
    /// revealed value that it has to sign. `None` when there is no such
    /// commitment.
    pub fn commitment(&self, schema: &Schema) -> (r: Option<(Signature, Vec<u8>)>)
        requires
            schema.wf(),
        ensures
            r is None <==> !(schema.view().closed_auctions.contains_key(self.auction_owner)
                && has_secret_bid_from(
                schema.view().closed_auctions[self.auction_owner],
                self.pub_key,
            )),
            r matches Some((sig, bytes)) ==> sig == first_secret_bid_from(
                schema.view().closed_auctions[self.auction_owner],
                self.pub_key,
            ).value_signature && bytes@ == le_bytes(self.value),
    {
        let bids = match schema.closed_auctions().bids_of(&self.auction_owner) {
            Some(bids) => bids,
            None => { return None; },
        };
        match find_secret_bid(bids, &self.pub_key) {
            Some(i) => Some((bids[i].value_signature, encode_value(self.value))),
            None => None,
        }
    }

    /// Applies the reveal; `signature_valid` says whether the committed
    /// signature verifies, under the signer's key, over the bytes that
    /// `commitment` returns.
    pub fn execute(&self, schema: &mut Schema, signature_valid: bool) -> (r: Result<(), Error>)
        requires
            old(schema).wf(),
        ensures
            final(schema).wf(),
            applied(
                reveal_step(
                    old(schema).view(),
                    self.pub_key,
                    self.auction_owner,
                    self.value,
                    signature_valid,
                ),
                r,
                old(schema).view(),
                final(schema).view(),
            ),
    {
        let bids = match schema.closed_auctions().bids_of(&self.auction_owner) {
            Some(bids) => bids,
            None => { return Err(Error::AuctionDoesNotExists); },
        };
        let i = match find_secret_bid(bids, &self.pub_key) {
            Some(i) => i,
            None => { return Err(Error::AuctionDoesNotExists); },
        };
        if !signature_valid {
            return Err(Error::SecretBidVerificationFailed);
        }
        let entry = SecretBid::new(&self.pub_key, &bids[i].value_signature, self.value);
        schema.secret_bid(&self.auction_owner, entry);
        proof {
            assert(schema.view() == reveal_step(
                old(schema).view(),
                self.pub_key,
                self.auction_owner,
                self.value,
                signature_valid,
            )->Ok_0);
        }
        Ok(())
    }
}

/// A transaction of any of the five kinds.
#[derive(Clone, Copy, Debug)]
pub enum AuctionTransactions {
    TxCreateAuction(TxCreateAuction),
    TxBid(TxBid),
    TxCreateClosedAuction(TxCreateClosedAuction),
    TxSecretBid(TxSecretBid),
    TxProveSecretBid(TxProveSecretBid),
}

/// Intended outcome of `tx` on store `m`; `signature_valid` matters for a
/// reveal only.
pub open spec fn transaction_step(m: SchemaModel, tx: AuctionTransactions, signature_valid: bool) -> Result<
    SchemaModel,
    Error,
> {
    match tx {
        AuctionTransactions::TxCreateAuction(t) => create_auction_step(m, t.pub_key),
        AuctionTransactions::TxBid(t) => bid_step(m, t.pub_key, t.auction_owner, t.value),
        AuctionTransactions::TxCreateClosedAuction(t) => create_closed_auction_step(m, t.pub_key),
        AuctionTransactions::TxSecretBid(t) => commit_step(
            m,
            t.pub_key,
            t.auction_owner,
            t.value_signature,
        ),
        AuctionTransactions::TxProveSecretBid(t) => reveal_step(
            m,
            t.pub_key,
            t.auction_owner,
            t.value,
            signature_valid,
        ),
    }
}

impl AuctionTransactions {
    /// Applies the transaction; for a reveal, `signature_valid` says whether
    /// the committed signature verifies over the bytes that
    /// `TxProveSecretBid::commitment` returns, and is ignored otherwise.
    pub fn execute(&self, schema: &mut Schema, signature_valid: bool) -> (r: Result<(), Error>)
        requires
            old(schema).wf(),
        ensures
            final(schema).wf(),
            applied(
                transaction_step(old(schema).view(), *self, signature_valid),
                r,
                old(schema).view(),
                final(schema).view(),
            ),
    {
        match self {
            AuctionTransactions::TxCreateAuction(t) => t.execute(schema),
            AuctionTransactions::TxBid(t) => t.execute(schema),
            AuctionTransactions::TxCreateClosedAuction(t) => t.execute(schema),
            AuctionTransactions::TxSecretBid(t) => t.execute(schema),
            AuctionTransactions::TxProveSecretBid(t) => t.execute(schema, signature_valid),
        }
    }
}

} // verus!
