use libp2p::multiaddr::Multiaddr;
use websys_transport::{Attempt, Error, WebsocketTransport};

fn addr(text: &str) -> Multiaddr {
    text.parse().unwrap()
}

#[test]
fn listen_on_is_not_supported() {
    let mut transport = WebsocketTransport::default();
    for text in ["/ip4/0.0.0.0/tcp/9876/ws", "/ip4/127.0.0.1/tcp/1", "", "/dns/h/tcp/443/wss"] {
        let id = libp2p::core::transport::ListenerId::next();
        assert_eq!(transport.listen_on(id, addr(text)), Err(Error::NotSupported));
    }
}

#[test]
fn dial_as_listener_is_not_supported() {
    let mut transport = WebsocketTransport::default();
    for text in ["/ip4/127.0.0.1/tcp/9876/ws", "/ip4/127.0.0.1/tcp/1", ""] {
        assert_eq!(transport.dial_as_listener(addr(text)), Err(Error::NotSupported));
    }
}

#[test]
fn remove_listener_finds_none() {
    let mut transport = WebsocketTransport::default();
    let id = libp2p::core::transport::ListenerId::next();
    assert!(!transport.remove_listener(id));
    let _ = transport.listen_on(id, addr("/ip4/0.0.0.0/tcp/9876/ws"));
    assert!(!transport.remove_listener(id));
}

#[test]
fn poll_is_always_pending() {
    let mut transport = WebsocketTransport::default();
    assert_eq!(transport.poll(), Attempt::Pending);
    let _ = transport.dial(addr("/ip4/127.0.0.1/tcp/9876/ws"));
    assert_eq!(transport.poll(), Attempt::Pending);
}

#[test]
fn address_translation_knows_nothing() {
    let transport = WebsocketTransport::default();
    let listen = addr("/ip4/127.0.0.1/tcp/9876/ws");
    let observed = addr("/ip4/8.8.8.8/tcp/9876/ws");
    assert!(transport.address_translation(&listen, &observed).is_none());
    assert!(transport.address_translation(&listen, &listen).is_none());
}

#[test]
fn dial_resolves_the_address() {
    let mut transport = WebsocketTransport::default();
    assert_eq!(
        transport.dial(addr("/ip4/127.0.0.1/tcp/9876/ws")),
        Ok("ws://127.0.0.1:9876/".to_string())
    );
    assert_eq!(
        transport.dial(addr("/dns4/chat.example.org/tcp/443/wss")),
        Ok("wss://chat.example.org:443/".to_string())
    );
    assert_eq!(
        transport.dial(addr("/ip6/2001:db8::2/tcp/8080/ws")),
        Ok("ws://[2001:db8::2]:8080/".to_string())
    );
}

#[test]
fn dial_of_unsupported_address_fails() {
    let mut transport = WebsocketTransport::default();
    for text in ["", "/ip4/127.0.0.1/tcp/9876", "/ip4/127.0.0.1/udp/9876/quic-v1", "/memory/7"] {
        assert_eq!(transport.dial(addr(text)), Err(Error::NotSupported));
    }
}

#[test]
fn created_socket_becomes_a_fresh_connection() {
    match WebsocketTransport::wrap_socket(Ok(7u8)) {
        Ok(conn) => {
            assert!(!conn.is_open());
            assert_eq!(conn.error(), None);
            assert_eq!(conn.buffered(), 0);
            assert_eq!(*conn.socket(), 7);
        }
        Err(e) => panic!("{e:?}"),
    }
}

#[test]
fn failed_socket_creation_is_a_js_error() {
    match WebsocketTransport::wrap_socket::<u8>(Err("SyntaxError: bad url".to_string())) {
        Ok(_) => panic!("a connection without a socket"),
        Err(e) => assert_eq!(e, Error::JsError("SyntaxError: bad url".to_string())),
    }
}

#[test]
fn error_messages() {
    assert_eq!(Error::NotSupported.message(), "operation not supported");
    assert_eq!(Error::JsError("oops".to_string()).message(), "js function error oops");
    assert_eq!(Error::JsError(String::new()).message(), "js function error ");
}
