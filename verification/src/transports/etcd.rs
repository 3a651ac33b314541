//! The coordination backend: connection options, the connected client and the
//! lease under which registrations are made.

use vstd::prelude::*;

verus! {

/// A time-bounded grant of the coordination backend. Registrations attached to
/// it vanish when it is no longer renewed.
#[derive(Clone, Copy, Debug, PartialEq, Eq, Structural)]
pub struct Lease {
    /// Identifier that the backend gave the lease.
    pub id: i64,
    /// Time to live, in seconds.
    pub ttl: i64,
}

impl Lease {
    pub fn id(&self) -> (id: i64)
        ensures
            id == self.id,
    {
        self.id
    }

    pub fn ttl(&self) -> (ttl: i64)
        ensures
            ttl == self.ttl,
    {
        self.ttl
    }
}

/// How to reach the coordination backend.
#[derive(Debug)]
pub struct ClientOptions {
    /// Addresses of the backend's members.
    pub etcd_url: Vec<String>,
    /// Whether the client attaches its registrations to a lease of its own.
    pub attach_lease: bool,
}

/// What a [`ClientOptions`] holds.
pub struct ClientOptionsView {
    pub etcd_url: Seq<Seq<char>>,
    pub attach_lease: bool,
}

impl View for ClientOptions {
    type V = ClientOptionsView;

    open spec fn view(&self) -> ClientOptionsView {
        ClientOptionsView {
            etcd_url: self.etcd_url.deep_view(),
            attach_lease: self.attach_lease,
        }
    }
}

impl ClientOptions {
    /// The options used where nothing else is configured: one member on the
    /// local host, with a lease attached.
    pub open spec fn default_view() -> ClientOptionsView {
        ClientOptionsView { etcd_url: seq!["http://localhost:2379"@], attach_lease: true }
    }
}

impl Default for ClientOptions {
    fn default() -> (options: ClientOptions)
        ensures
            options@ == ClientOptions::default_view(),
    {
        let mut etcd_url: Vec<String> = Vec::new();
        etcd_url.push(String::from_str("http://localhost:2379"));
        let options = ClientOptions { etcd_url, attach_lease: true };
        assert(options@.etcd_url =~= ClientOptions::default_view().etcd_url);
        options
    }
}

impl Clone for ClientOptions {
    fn clone(&self) -> (copy: ClientOptions)
        ensures
            copy@ == self@,
    {
        let etcd_url = self.etcd_url.clone();
        assert(etcd_url.deep_view() =~= self.etcd_url.deep_view());
        ClientOptions { etcd_url, attach_lease: self.attach_lease }
    }
}

/// A connected client of the coordination backend.
#[derive(Debug)]
pub struct Client {
    options: ClientOptions,
    primary_lease: Lease,
}

/// What a [`Client`] holds.
pub struct ClientView {
    pub options: ClientOptionsView,
    pub primary_lease: Lease,
}

impl View for Client {
    type V = ClientView;

    closed spec fn view(&self) -> ClientView {
        ClientView { options: self.options@, primary_lease: self.primary_lease }
    }
}

impl Client {
    /// The client of a connection that was made with `options` and on which
    /// the backend granted `primary_lease`.
    pub fn new(options: ClientOptions, primary_lease: Lease) -> (client: Client)
        ensures
            client@ == (ClientView { options: options@, primary_lease }),
    {
        Client { options, primary_lease }
    }

    /// The options the connection was made with.
    pub fn options(&self) -> (options: &ClientOptions)
        ensures
            options@ == self@.options,
    {
        &self.options
    }

    /// The lease that every registration of this process is attached to.
    pub fn primary_lease(&self) -> (lease: Lease)
        ensures
            lease == self@.primary_lease,
    {
        self.primary_lease
    }

    /// Identifier of the primary lease.
    pub fn lease_id(&self) -> (id: i64)
        ensures
            id == self@.primary_lease.id,
    {
        self.primary_lease.id
    }
}

impl Clone for Client {
    fn clone(&self) -> (copy: Client)
        ensures
            copy@ == self@,
    {
        Client { options: self.options.clone(), primary_lease: self.primary_lease }
    }
}

} // verus!
