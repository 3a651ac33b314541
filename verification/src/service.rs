//! The facade over the messaging backend.

use crate::transports::nats::{Client, ClientView};
use vstd::prelude::*;

verus! {

/// The service client of the process: it speaks over the messaging backend
/// and does not depend on discovery.
#[derive(Debug)]
pub struct ServiceClient {
    nats_client: Client,
}

impl View for ServiceClient {
    type V = ClientView;

    closed spec fn view(&self) -> ClientView {
        self.nats_client@
    }
}

impl ServiceClient {
    /// The service client on the connection of `nats_client`.
    pub fn new(nats_client: Client) -> (client: ServiceClient)
        ensures
            client@ == nats_client@,
    {
        ServiceClient { nats_client }
    }

    /// The connection the client speaks over.
    pub fn nats_client(&self) -> (nats_client: &Client)
        ensures
            nats_client@ == self@,
    {
        &self.nats_client
    }
}

} // verus!
