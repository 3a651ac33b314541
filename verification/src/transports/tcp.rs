//! The point-to-point stream server: the options it is built from and the
//! description of a server that is listening.

use vstd::prelude::*;

verus! {

/// What the stream server is built from.
#[derive(Debug)]
pub struct ServerOptions {
    /// Port to listen on; 0 leaves the choice to the system.
    pub port: u16,
    /// Interface to listen on; `None` leaves the choice to the system.
    pub interface: Option<String>,
}

/// What a [`ServerOptions`] holds.
pub struct ServerOptionsView {
    pub port: u16,
    pub interface: Option<Seq<char>>,
}

impl View for ServerOptions {
    type V = ServerOptionsView;

    open spec fn view(&self) -> ServerOptionsView {
        ServerOptionsView {
            port: self.port,
            interface: match self.interface {
                Some(name) => Some(name@),
                None => None,
            },
        }
    }
}

impl ServerOptions {
    /// The options used where nothing else is configured: port and interface
    /// are both left to the system.
    pub open spec fn default_view() -> ServerOptionsView {
        ServerOptionsView { port: 0, interface: None }
    }
}

impl Default for ServerOptions {
    fn default() -> (options: ServerOptions)
        ensures
            options@ == ServerOptions::default_view(),
    {
        ServerOptions { port: 0, interface: None }
    }
}

/// A stream server that is listening.
#[derive(Debug)]
pub struct TcpStreamServer {
    /// Host part of the address the server is bound to.
    pub host: String,
    /// Port the server is bound to.
    pub port: u16,
}

/// What a [`TcpStreamServer`] holds.
pub struct TcpStreamServerView {
    pub host: Seq<char>,
    pub port: u16,
}

impl View for TcpStreamServer {
    type V = TcpStreamServerView;

    open spec fn view(&self) -> TcpStreamServerView {
        TcpStreamServerView { host: self.host@, port: self.port }
    }
}

impl Clone for TcpStreamServer {
    fn clone(&self) -> (copy: TcpStreamServer)
        ensures
            copy@ == self@,
    {
        TcpStreamServer { host: self.host.clone(), port: self.port }
    }
}

} // verus!
