//! Identity of the auction service among the services of a node.
use vstd::prelude::*;

verus! {

/// Numeric identifier of the auction service.
pub const AUCTION_SERVICE: u16 = 1270;

/// The auction service.
#[derive(Clone, Copy, Debug, Default)]
pub struct Service;

/// Makes the auction service for a node.
#[derive(Clone, Copy, Debug)]
pub struct ServiceFactory;

impl Service {
    pub fn service_id(&self) -> (r: u16)
        ensures
            r == AUCTION_SERVICE,
    {
        AUCTION_SERVICE
    }

    pub fn service_name(&self) -> (r: &'static str)
        ensures
            r@ == "auction"@,
    {
        "auction"
    }
}

impl ServiceFactory {
    pub fn service_name(&self) -> (r: &'static str)
        ensures
            r@ == "auction"@,
    {
        "auction"
    }

    pub fn make_service(&mut self) -> (r: Service) {
        Service
    }
}

} // verus!
