//! The facade over the coordination backend, scoped to one namespace.

use crate::component::{Endpoint, EndpointView};
use crate::metrics::{identity_path, identity_path_of, MetricsRegistry};
use crate::transports::etcd::{Client, ClientView, Lease};
use vstd::prelude::*;

verus! {

/// What is written to the coordination backend to make an endpoint visible:
/// the key, and the lease that keeps the key alive.
#[derive(Debug)]
pub struct Registration {
    pub key: String,
    pub lease_id: i64,
}

/// What a [`Registration`] holds.
pub struct RegistrationView {
    pub key: Seq<char>,
    pub lease_id: i64,
}

impl View for Registration {
    type V = RegistrationView;

    open spec fn view(&self) -> RegistrationView {
        RegistrationView { key: self.key@, lease_id: self.lease_id }
    }
}

/// The registration of `endpoint` under `lease`. An endpoint of a static
/// namespace has none: it stays out of discovery.
pub open spec fn registration_spec(lease: Lease, endpoint: Endpoint) -> Option<RegistrationView> {
    if endpoint@.component.namespace.is_static {
        None
    } else {
        Some(
            RegistrationView {
                key: identity_path_of(endpoint.parent_hierarchy_spec(), endpoint.basename_spec()),
                lease_id: lease.id,
            },
        )
    }
}

/// The discovery client of one namespace.
#[derive(Debug)]
pub struct DiscoveryClient {
    namespace: String,
    etcd_client: Client,
}

/// What a [`DiscoveryClient`] holds.
pub struct DiscoveryClientView {
    pub namespace: Seq<char>,
    pub etcd_client: ClientView,
}

impl View for DiscoveryClient {
    type V = DiscoveryClientView;

    closed spec fn view(&self) -> DiscoveryClientView {
        DiscoveryClientView { namespace: self.namespace@, etcd_client: self.etcd_client@ }
    }
}

impl DiscoveryClient {
    /// The discovery client of `namespace` on the connection of `etcd_client`.
    pub fn new(namespace: String, etcd_client: Client) -> (client: DiscoveryClient)
        ensures
            client@ == (DiscoveryClientView { namespace: namespace@, etcd_client: etcd_client@ }),
    {
        DiscoveryClient { namespace, etcd_client }
    }

    /// The namespace the client is scoped to.
    pub fn namespace(&self) -> (namespace: String)
        ensures
            namespace@ == self@.namespace,
    {
        self.namespace.clone()
    }

    /// The lease of the process, under which everything is registered.
    pub fn primary_lease(&self) -> (lease: Lease)
        ensures
            lease == self@.etcd_client.primary_lease,
    {
        self.etcd_client.primary_lease()
    }

    /// What to write to the backend to register `endpoint` under the primary
    /// lease; nothing for an endpoint of a static namespace.
    pub fn registration(&self, endpoint: &Endpoint) -> (registration: Option<Registration>)
        ensures
            registration_spec(self@.etcd_client.primary_lease, *endpoint) == (match registration {
                Some(r) => Some(r@),
                None => None,
            }),
    {
        if endpoint.component().namespace().is_static() {
            None
        } else {
            Some(
                Registration {
                    key: identity_path(endpoint),
                    lease_id: self.etcd_client.lease_id(),
                },
            )
        }
    }
}

} // verus!
