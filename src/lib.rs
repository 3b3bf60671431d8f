//! Transaction-processing core of an auction ledger: open-bid auctions and
//! sealed (commit-reveal) auctions over a store keyed by owner public keys.
pub mod api;
pub mod codec;
pub mod keys;
pub mod laws;
pub mod partition;
pub mod schema;
pub mod service;
pub mod transactions;

pub use api::{LotQuery, PublicApi};
pub use keys::{PublicKey, Signature};
pub use partition::{Lot, Partition};
pub use schema::{Auction, Bid, ClosedAuction, Schema, SecretBid};
pub use service::{Service, ServiceFactory, AUCTION_SERVICE};
pub use transactions::{
    AuctionTransactions, Error, TxBid, TxCreateAuction, TxCreateClosedAuction, TxProveSecretBid,
    TxSecretBid,
};
