//! The messaging backend: connection options and the connected client.

use vstd::prelude::*;

verus! {

/// How to reach the messaging backend.
#[derive(Debug)]
pub struct ClientOptions {
    /// Address of the broker.
    pub server: String,
}

/// What a [`ClientOptions`] holds.
pub struct ClientOptionsView {
    pub server: Seq<char>,
}

impl View for ClientOptions {
    type V = ClientOptionsView;

    open spec fn view(&self) -> ClientOptionsView {
        ClientOptionsView { server: self.server@ }
    }
}

impl ClientOptions {
    /// The options used where nothing else is configured: a broker on the
    /// local host.
    pub open spec fn default_view() -> ClientOptionsView {
        ClientOptionsView { server: "nats://localhost:4222"@ }
    }
}

impl Default for ClientOptions {
    fn default() -> (options: ClientOptions)
        ensures
            options@ == ClientOptions::default_view(),
    {
        ClientOptions { server: String::from_str("nats://localhost:4222") }
    }
}

impl Clone for ClientOptions {
    fn clone(&self) -> (copy: ClientOptions)
        ensures
            copy@ == self@,
    {
        ClientOptions { server: self.server.clone() }
    }
}

/// A connected client of the messaging backend.
#[derive(Debug)]
pub struct Client {
    options: ClientOptions,
}

/// What a [`Client`] holds.
pub struct ClientView {
    pub options: ClientOptionsView,
}

impl View for Client {
    type V = ClientView;

    closed spec fn view(&self) -> ClientView {
        ClientView { options: self.options@ }
    }
}

impl Client {
    /// The client of a connection that was made with `options`.
    pub fn new(options: ClientOptions) -> (client: Client)
        ensures
            client@ == (ClientView { options: options@ }),
    {
        Client { options }
    }

    /// The options the connection was made with.
    pub fn options(&self) -> (options: &ClientOptions)
        ensures
            options@ == self@.options,
    {
        &self.options
    }
}

impl Clone for Client {
    fn clone(&self) -> (copy: Client)
        ensures
            copy@ == self@,
    {
        Client { options: self.options.clone() }
    }
}

} // verus!
