//! The transport: a factory of outgoing connections that cannot listen.

use crate::address::{protocols, recognized, url_of, websocket_url};
use crate::attempt::Attempt;
use crate::connection::Connection;
use crate::error::{Error, ErrorView};
use crate::model::ConnState;
use libp2p::multiaddr::Multiaddr;
use vstd::prelude::*;

verus! {

/// The identifier that the networking engine gives to a listener. Nothing
/// inside it is visible here.
#[verifier::external_type_specification]
#[verifier::external_body]
pub struct ExListenerId(libp2p::core::transport::ListenerId);

/// A transport that dials WebSocket endpoints from within a browser. It
/// keeps no state of its own.
pub struct WebsocketTransport;

impl Default for WebsocketTransport {
    fn default() -> (transport: Self)
        ensures
            transport == WebsocketTransport,
    {
        WebsocketTransport
    }
}

impl WebsocketTransport {
    /// Listening is not possible in a browser: always `NotSupported`.
    pub fn listen_on(
        &mut self,
        _id: libp2p::core::transport::ListenerId,
        _addr: Multiaddr,
    ) -> (res: Result<(), Error>)
        ensures
            res == Err::<(), Error>(Error::NotSupported),
    {
        Err(Error::NotSupported)
    }

    /// There is never a listener to remove: always `false`.
    pub fn remove_listener(&mut self, _id: libp2p::core::transport::ListenerId) -> (removed: bool)
        ensures
            !removed,
    {
        false
    }

    /// Begins an outgoing connection: resolves the address to the URL at
    /// which the caller is to create the socket. An address whose shape is
    /// not recognized gives `NotSupported`.
    pub fn dial(&mut self, addr: Multiaddr) -> (res: Result<String, Error>)
        ensures
            res is Ok <==> recognized(protocols(addr)),
            match url_of(protocols(addr)) {
                Some(url) => res matches Ok(u) && u@ == url,
                None => res == Err::<String, Error>(Error::NotSupported),
            },
    {
        match websocket_url(&addr) {
            Some(url) => Ok(url),
            None => Err(Error::NotSupported),
        }
    }

    /// Ends an outgoing connection attempt once the socket has been asked
    /// for: a socket is wrapped into a fresh [`Connection`], whether or not
    /// it has opened yet; a failure to create it becomes `JsError` with the
    /// diagnostic.
    pub fn wrap_socket<S>(created: Result<S, String>) -> (res: Result<Connection<S>, Error>)
        ensures
            match created {
                Ok(socket) => {
                    &&& res matches Ok(conn)
                    &&& conn@ == ConnState::initial()
                    &&& conn.registered_waker() is None
                    &&& conn.socket_handle() == socket
                },
                Err(diagnostic) => {
                    &&& res matches Err(error)
                    &&& error@ == ErrorView::JsError(diagnostic@)
                },
            },
    {
        match created {
            Ok(socket) => Ok(Connection::new(socket)),
            Err(diagnostic) => Err(Error::JsError(diagnostic)),
        }
    }

    /// Dialing in the role of a listener is not possible either: always
    /// `NotSupported`.
    pub fn dial_as_listener(&mut self, _addr: Multiaddr) -> (res: Result<String, Error>)
        ensures
            res == Err::<String, Error>(Error::NotSupported),
    {
        Err(Error::NotSupported)
    }

    /// There is never a listener event to report: always pending.
    pub fn poll(&mut self) -> (res: Attempt<()>)
        ensures
            res is Pending,
    {
        Attempt::Pending
    }

    /// Nothing is known about how an observed address relates to a listen
    /// address: always `None`.
    pub fn address_translation(&self, _listen: &Multiaddr, _observed: &Multiaddr) -> (res: Option<
        Multiaddr,
    >)
        ensures
            res is None,
    {
        None
    }
}

} // verus!
