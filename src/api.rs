//! Read queries: the auction records of an owner.
use vstd::prelude::*;

use crate::keys::PublicKey;
use crate::schema::{Auction, ClosedAuction, Schema};

verus! {

/// Names the owner whose record is asked for.
#[derive(Clone, Copy, Debug)]
pub struct LotQuery {
    pub owner: PublicKey,
}

/// The public read queries of the service.
#[derive(Clone, Copy, Debug)]
pub struct PublicApi;

impl PublicApi {
    /// The open-bid auction of `query.owner`, or `None` when there is none.
    pub fn handle_lot(schema: &Schema, query: LotQuery) -> (r: Option<Auction>)
        requires
            schema.wf(),
        ensures
            r is None <==> !schema.view().auctions.contains_key(query.owner),
            r matches Some(a) ==> a.owner == query.owner && a.bids@
                == schema.view().auctions[query.owner],
    {
        schema.auctions().get(&query.owner)
    }

    /// The sealed-bid auction of `query.owner`, or `None` when there is none.
    pub fn handle_closed_lot(schema: &Schema, query: LotQuery) -> (r: Option<ClosedAuction>)
        requires
            schema.wf(),
        ensures
            r is None <==> !schema.view().closed_auctions.contains_key(query.owner),
            r matches Some(a) ==> a.owner == query.owner && a.bids@
                == schema.view().closed_auctions[query.owner],
    {
        schema.closed_auctions().get(&query.owner)
    }
}

} // verus!
