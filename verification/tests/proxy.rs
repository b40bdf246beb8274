use imap_proxy::capability::CapabilityPolicy;
use imap_proxy::config::{Bind, Connect, Service};
use imap_proxy::conversation::Phase;
use imap_proxy::proxy::{Proxy, ALPN_PROTOCOL};

fn service() -> Service {
    Service {
        name: "Insecure to TLS".into(),
        bind: Bind::Insecure { host: "127.0.0.1".into(), port: 1143 },
        connect: Connect::Tls { host: "imap.example.org".into(), port: 993 },
    }
}

#[test]
fn alpn_protocol_is_imap() {
    assert_eq!(ALPN_PROTOCOL.as_bytes(), b"imap");
}

#[test]
fn a_proxy_goes_through_its_stages_with_one_service() {
    let bound = Proxy::bind(service(), "listener");
    assert_eq!(bound.service(), &service());
    assert_eq!(bound.listener(), &"listener");
    assert_eq!(bound.service().bind.addr_port(), "127.0.0.1:1143");

    let accepted = bound.accept_client("192.0.2.7:50000", "client stream");
    assert_eq!(accepted.service(), &service());
    assert_eq!(accepted.client_addr(), &"192.0.2.7:50000");
    assert_eq!(accepted.service().connect.addr_port(), "imap.example.org:993");

    let connected = accepted.connect_to_server("server stream");
    assert_eq!(connected.service(), &service());

    let opening = connected.start_conversation(CapabilityPolicy::standard());
    assert_eq!(opening.client_to_proxy, "client stream");
    assert_eq!(opening.proxy_to_server, "server stream");
    assert_eq!(opening.conversation.phase(), Phase::AwaitingGreeting);
}

#[test]
fn a_listener_accepts_many_clients() {
    let bound = Proxy::bind(service(), 0u8);
    let first = bound.accept_client(1u8, "one".to_string());
    let second = bound.accept_client(2u8, "two".to_string());
    assert_eq!(first.client_addr(), &1);
    assert_eq!(second.client_addr(), &2);
    assert_eq!(first.service(), second.service());
    let opening = second.connect_to_server("up".to_string()).start_conversation(
        CapabilityPolicy::standard(),
    );
    assert_eq!(opening.client_to_proxy, "two");
    assert_eq!(opening.proxy_to_server, "up");
}
