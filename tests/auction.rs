use auction::schema::{check_unique_bidders, check_unique_secret_bidders};
use auction::codec::encode_value;
use auction::{
    AuctionTransactions, Bid, Error, LotQuery, PublicApi, PublicKey, Schema, SecretBid, Service,
    ServiceFactory, Signature, TxBid, TxCreateAuction, TxCreateClosedAuction, TxProveSecretBid,
    TxSecretBid, AUCTION_SERVICE,
};
use ed25519_dalek::{Signer, SigningKey, Verifier, VerifyingKey};

fn key(seed: u8) -> PublicKey {
    PublicKey::new([seed; 32])
}

fn signing_key(seed: u8) -> SigningKey {
    SigningKey::from_bytes(&[seed; 32])
}

fn public_of(sk: &SigningKey) -> PublicKey {
    PublicKey::new(sk.verifying_key().to_bytes())
}

fn sign_value(sk: &SigningKey, value: u64) -> Signature {
    Signature::new(sk.sign(&encode_value(value)).to_bytes())
}

fn check_commitment(bidder: &PublicKey, sig: &Signature, bytes: &[u8]) -> bool {
    let vk = match VerifyingKey::from_bytes(&bidder.bytes) {
        Ok(vk) => vk,
        Err(_) => return false,
    };
    let sig = ed25519_dalek::Signature::from_bytes(&sig.bytes);
    vk.verify(bytes, &sig).is_ok()
}

fn run_reveal(schema: &mut Schema, tx: &TxProveSecretBid) -> Result<(), Error> {
    let valid = match tx.commitment(schema) {
        Some((sig, bytes)) => check_commitment(&tx.pub_key, &sig, &bytes),
        None => false,
    };
    tx.execute(schema, valid)
}

fn open_bids(schema: &Schema, owner: &PublicKey) -> Option<Vec<Bid>> {
    PublicApi::handle_lot(schema, LotQuery { owner: *owner }).map(|a| a.bids)
}

fn sealed_bids(schema: &Schema, owner: &PublicKey) -> Option<Vec<SecretBid>> {
    PublicApi::handle_closed_lot(schema, LotQuery { owner: *owner }).map(|a| a.bids)
}

#[test]
fn public_keys_compare_by_bytes() {
    let a = key(1);
    let mut bytes = [1u8; 32];
    assert!(a.same(&PublicKey::new(bytes)));
    bytes[31] = 2;
    assert!(!a.same(&PublicKey::new(bytes)));
    assert!(!a.same(&key(2)));
}

#[test]
fn value_encoding_is_eight_little_endian_bytes() {
    assert_eq!(encode_value(100), vec![100, 0, 0, 0, 0, 0, 0, 0]);
    assert_eq!(encode_value(0x0102_0304_0506_0708), vec![8, 7, 6, 5, 4, 3, 2, 1]);
    assert_eq!(encode_value(0), vec![0; 8]);
    assert_eq!(encode_value(u64::MAX), vec![0xff; 8]);
}

#[test]
fn create_twice_keeps_one_empty_record() {
    let mut schema = Schema::new();
    let owner = key(1);
    let tx = TxCreateAuction::new(&owner);
    assert_eq!(tx.execute(&mut schema), Ok(()));
    let before = format!("{:?}", schema);
    assert_eq!(tx.execute(&mut schema), Err(Error::AuctionAlreadyExists));
    assert_eq!(format!("{:?}", schema), before);
    let bids = open_bids(&schema, &owner).expect("record exists");
    assert!(bids.is_empty());
    assert!(sealed_bids(&schema, &owner).is_none());
}

#[test]
fn create_sealed_twice_keeps_one_empty_record() {
    let mut schema = Schema::new();
    let owner = key(1);
    let tx = TxCreateClosedAuction::new(&owner);
    assert_eq!(tx.execute(&mut schema), Ok(()));
    assert_eq!(tx.execute(&mut schema), Err(Error::AuctionAlreadyExists));
    assert!(sealed_bids(&schema, &owner).expect("record exists").is_empty());
    assert!(open_bids(&schema, &owner).is_none());
}

#[test]
fn bid_on_absent_item_fails() {
    let mut schema = Schema::new();
    let before = format!("{:?}", schema);
    let tx = TxBid::new(&key(2), &key(1), 50);
    assert_eq!(tx.execute(&mut schema), Err(Error::AuctionDoesNotExists));
    assert_eq!(format!("{:?}", schema), before);
    assert!(open_bids(&schema, &key(1)).is_none());
}

#[test]
fn bid_on_sealed_only_owner_fails() {
    let mut schema = Schema::new();
    let owner = key(1);
    TxCreateClosedAuction::new(&owner).execute(&mut schema).unwrap();
    assert_eq!(TxBid::new(&key(2), &owner, 5).execute(&mut schema), Err(Error::AuctionDoesNotExists));
}

#[test]
fn first_bid_wins() {
    let mut schema = Schema::new();
    let owner = key(1);
    let bidder = key(2);
    TxCreateAuction::new(&owner).execute(&mut schema).unwrap();
    assert_eq!(TxBid::new(&bidder, &owner, 10).execute(&mut schema), Ok(()));
    assert_eq!(TxBid::new(&bidder, &owner, 20).execute(&mut schema), Ok(()));
    let bids = open_bids(&schema, &owner).unwrap();
    assert_eq!(bids.len(), 1);
    assert!(bids[0].bidder.same(&bidder));
    assert_eq!(bids[0].value, 10);
}

#[test]
fn bids_of_different_bidders_keep_arrival_order() {
    let mut schema = Schema::new();
    let owner = key(1);
    TxCreateAuction::new(&owner).execute(&mut schema).unwrap();
    TxBid::new(&key(2), &owner, 30).execute(&mut schema).unwrap();
    TxBid::new(&key(3), &owner, 40).execute(&mut schema).unwrap();
    TxBid::new(&key(2), &owner, 50).execute(&mut schema).unwrap();
    let bids = open_bids(&schema, &owner).unwrap();
    assert_eq!(bids.len(), 2);
    assert!(bids[0].bidder.same(&key(2)));
    assert_eq!(bids[0].value, 30);
    assert!(bids[1].bidder.same(&key(3)));
    assert_eq!(bids[1].value, 40);
}

#[test]
fn commit_on_absent_sealed_item_fails() {
    let mut schema = Schema::new();
    let owner = key(1);
    TxCreateAuction::new(&owner).execute(&mut schema).unwrap();
    let tx = TxSecretBid::new(&key(2), &owner, &Signature::new([9; 64]));
    assert_eq!(tx.execute(&mut schema), Err(Error::AuctionDoesNotExists));
    assert!(sealed_bids(&schema, &owner).is_none());
}

#[test]
fn commit_reveal_success() {
    let mut schema = Schema::new();
    let owner = key(1);
    let sk = signing_key(7);
    let bidder = public_of(&sk);
    let sig = sign_value(&sk, 100);
    TxCreateClosedAuction::new(&owner).execute(&mut schema).unwrap();
    assert_eq!(TxSecretBid::new(&bidder, &owner, &sig).execute(&mut schema), Ok(()));
    let committed = sealed_bids(&schema, &owner).unwrap();
    assert_eq!(committed.len(), 1);
    assert_eq!(committed[0].value, 0);

    let tx = TxProveSecretBid::new(&bidder, &owner, 100);
    let (checked_sig, bytes) = tx.commitment(&schema).unwrap();
    assert_eq!(checked_sig.bytes, sig.bytes);
    assert_eq!(bytes, vec![100, 0, 0, 0, 0, 0, 0, 0]);
    assert_eq!(run_reveal(&mut schema, &tx), Ok(()));
    let bids = sealed_bids(&schema, &owner).unwrap();
    assert_eq!(bids.len(), 1);
    assert!(bids[0].bidder.same(&bidder));
    assert_eq!(bids[0].value, 100);
    assert_eq!(bids[0].value_signature.bytes, sig.bytes);
}

#[test]
fn commit_reveal_tamper_rejected() {
    let mut schema = Schema::new();
    let owner = key(1);
    let sk = signing_key(7);
    let bidder = public_of(&sk);
    let sig = sign_value(&sk, 100);
    TxCreateClosedAuction::new(&owner).execute(&mut schema).unwrap();
    TxSecretBid::new(&bidder, &owner, &sig).execute(&mut schema).unwrap();
    let before = format!("{:?}", schema);
    let tx = TxProveSecretBid::new(&bidder, &owner, 200);
    assert_eq!(run_reveal(&mut schema, &tx), Err(Error::SecretBidVerificationFailed));
    assert_eq!(format!("{:?}", schema), before);
    let bids = sealed_bids(&schema, &owner).unwrap();
    assert_eq!(bids.len(), 1);
    assert_eq!(bids[0].value, 0);
}

#[test]
fn reveal_without_record_or_commitment_fails() {
    let mut schema = Schema::new();
    let owner = key(1);
    let tx = TxProveSecretBid::new(&key(2), &owner, 100);
    assert!(tx.commitment(&schema).is_none());
    assert_eq!(tx.execute(&mut schema, true), Err(Error::AuctionDoesNotExists));
    TxCreateClosedAuction::new(&owner).execute(&mut schema).unwrap();
    assert!(tx.commitment(&schema).is_none());
    assert_eq!(tx.execute(&mut schema, true), Err(Error::AuctionDoesNotExists));
}

#[test]
fn commit_upsert_keeps_latest() {
    let mut schema = Schema::new();
    let owner = key(1);
    let bidder = key(2);
    TxCreateClosedAuction::new(&owner).execute(&mut schema).unwrap();
    TxSecretBid::new(&bidder, &owner, &Signature::new([5; 64])).execute(&mut schema).unwrap();
    TxSecretBid::new(&key(3), &owner, &Signature::new([6; 64])).execute(&mut schema).unwrap();
    TxSecretBid::new(&bidder, &owner, &Signature::new([8; 64])).execute(&mut schema).unwrap();
    let bids = sealed_bids(&schema, &owner).unwrap();
    assert_eq!(bids.len(), 2);
    assert!(bids[0].bidder.same(&key(3)));
    assert!(bids[1].bidder.same(&bidder));
    assert_eq!(bids[1].value_signature.bytes, [8; 64]);
    assert_eq!(bids[1].value, 0);
}

#[test]
fn creations_in_either_order_agree() {
    let (a, b) = (key(1), key(2));
    let mut first = Schema::new();
    TxCreateAuction::new(&a).execute(&mut first).unwrap();
    TxCreateAuction::new(&b).execute(&mut first).unwrap();
    let mut second = Schema::new();
    TxCreateAuction::new(&b).execute(&mut second).unwrap();
    TxCreateAuction::new(&a).execute(&mut second).unwrap();
    for k in [a, b, key(3)] {
        let x = open_bids(&first, &k).map(|v| v.len());
        let y = open_bids(&second, &k).map(|v| v.len());
        assert_eq!(x, y);
    }
    assert_eq!(open_bids(&first, &a).map(|v| v.len()), Some(0));
    assert_eq!(open_bids(&first, &key(3)).map(|v| v.len()), None);
}

#[test]
fn schema_level_rules() {
    let mut schema = Schema::new();
    let owner = key(1);
    schema.bid(&owner, Bid::new(&key(2), 1));
    assert!(open_bids(&schema, &owner).is_none());
    schema.add_auction(auction::Lot { owner, bids: vec![Bid::new(&key(4), 4)] });
    schema.add_auction(auction::Lot { owner, bids: Vec::new() });
    assert_eq!(open_bids(&schema, &owner).unwrap().len(), 1);
    schema.add_closed_auction(auction::Lot { owner, bids: Vec::new() });
    schema.secret_bid(&owner, SecretBid::new(&key(2), &Signature::new([1; 64]), 0));
    schema.secret_bid(&owner, SecretBid::new(&key(2), &Signature::new([2; 64]), 3));
    let bids = sealed_bids(&schema, &owner).unwrap();
    assert_eq!(bids.len(), 1);
    assert_eq!(bids[0].value, 3);
    assert!(schema.auctions().contains(&owner));
    assert!(schema.closed_auctions().contains(&owner));
    assert!(!schema.auctions().contains(&key(9)));
}

#[test]
fn dispatcher_applies_each_kind() {
    let mut schema = Schema::new();
    let owner = key(1);
    let txs = [
        AuctionTransactions::TxCreateAuction(TxCreateAuction::new(&owner)),
        AuctionTransactions::TxBid(TxBid::new(&key(2), &owner, 7)),
        AuctionTransactions::TxCreateClosedAuction(TxCreateClosedAuction::new(&owner)),
        AuctionTransactions::TxSecretBid(TxSecretBid::new(&key(2), &owner, &Signature::new([3; 64]))),
    ];
    for tx in txs.iter() {
        assert_eq!(tx.execute(&mut schema, false), Ok(()));
    }
    let reveal_tx = AuctionTransactions::TxProveSecretBid(TxProveSecretBid::new(&key(2), &owner, 7));
    assert_eq!(reveal_tx.execute(&mut schema, false), Err(Error::SecretBidVerificationFailed));
    assert_eq!(reveal_tx.execute(&mut schema, true), Ok(()));
    assert_eq!(sealed_bids(&schema, &owner).unwrap()[0].value, 7);
    assert_eq!(open_bids(&schema, &owner).unwrap()[0].value, 7);
}

#[test]
fn error_codes_and_descriptions() {
    assert_eq!(Error::AuctionAlreadyExists.code(), 0);
    assert_eq!(Error::AuctionDoesNotExists.code(), 1);
    assert_eq!(Error::SecretBidVerificationFailed.code(), 2);
    assert_eq!(Error::AuctionAlreadyExists.description(), "Public key already owns an auction");
    assert_eq!(Error::AuctionDoesNotExists.description(), "No lot with such public key");
    assert_eq!(Error::SecretBidVerificationFailed.description(), "Secret bid verification failed");
}

#[test]
fn service_identity() {
    let service = Service;
    assert_eq!(service.service_id(), AUCTION_SERVICE);
    assert_eq!(AUCTION_SERVICE, 1270);
    assert_eq!(service.service_name(), "auction");
    let mut factory = ServiceFactory;
    assert_eq!(factory.service_name(), "auction");
    assert_eq!(factory.make_service().service_id(), 1270);
}

#[test]
fn unique_bidder_checks() {
    assert!(check_unique_bidders(&Vec::new()));
    assert!(check_unique_bidders(&vec![Bid::new(&key(1), 1), Bid::new(&key(2), 1)]));
    assert!(!check_unique_bidders(&vec![
        Bid::new(&key(1), 1),
        Bid::new(&key(2), 1),
        Bid::new(&key(1), 3),
    ]));
    let s = Signature::new([0; 64]);
    assert!(check_unique_secret_bidders(&vec![SecretBid::new(&key(1), &s, 0)]));
    assert!(!check_unique_secret_bidders(&vec![
        SecretBid::new(&key(1), &s, 0),
        SecretBid::new(&key(1), &s, 2),
    ]));
}
