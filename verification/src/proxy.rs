//! The life of a proxied connection: bound, client accepted, connected to
//! the server, in conversation. Each stage is a type; a stage is reached
//! only from the one before it, and the service stays the same throughout.
//!
//! The sockets and streams are the caller's. `L` is a listener, `A` a peer
//! address and `T` a duplex stream.

use crate::capability::CapabilityPolicy;
use crate::config::Service;
use crate::conversation::{Conversation, Phase};
use vstd::prelude::*;

verus! {

/// The protocol identifier that is offered and required in TLS, on both
/// sides of the proxy.
pub const ALPN_PROTOCOL: &'static str = "imap";

/// A stage in the life of a proxy.
pub trait State: Send + 'static {

}

/// A proxy for one service, at the stage `S`.
pub struct Proxy<S: State> {
    service: Service,
    state: S,
}

/// The proxy listens.
pub struct BoundState<L> {
    listener: L,
}

impl<L: Send + 'static> State for BoundState<L> {

}

/// A client is accepted, with TLS set up where the service asks for it.
pub struct ClientAcceptedState<A, T> {
    client_addr: A,
    client_to_proxy: T,
}

impl<A: Send + 'static, T: Send + 'static> State for ClientAcceptedState<A, T> {

}

/// The upstream server is reached as well.
pub struct ConnectedState<T> {
    client_to_proxy: T,
    proxy_to_server: T,
}

impl<T: Send + 'static> State for ConnectedState<T> {

}

impl<S: State> Proxy<S> {
    /// The service that is proxied.
    pub closed spec fn spec_service(&self) -> Service {
        self.service
    }

    /// What the stage holds.
    pub closed spec fn spec_state(&self) -> S {
        self.state
    }

    pub fn service(&self) -> (service: &Service)
        ensures
            *service == self.spec_service(),
    {
        &self.service
    }
}

impl<L> BoundState<L> {
    pub closed spec fn spec_listener(&self) -> L {
        self.listener
    }
}

impl<A, T> ClientAcceptedState<A, T> {
    pub closed spec fn spec_client_addr(&self) -> A {
        self.client_addr
    }

    pub closed spec fn spec_client_to_proxy(&self) -> T {
        self.client_to_proxy
    }
}

impl<T> ConnectedState<T> {
    pub closed spec fn spec_client_to_proxy(&self) -> T {
        self.client_to_proxy
    }

    pub closed spec fn spec_proxy_to_server(&self) -> T {
        self.proxy_to_server
    }
}

impl<L: Send + 'static> Proxy<BoundState<L>> {
    /// A proxy for `service` on `listener`, which is bound to the address
    /// `service.bind.addr_port()`.
    pub fn bind(service: Service, listener: L) -> (proxy: Self)
        ensures
            proxy.spec_service() == service,
            proxy.spec_state().spec_listener() == listener,
    {
        Proxy { service, state: BoundState { listener } }
    }

    pub fn listener(&self) -> (listener: &L)
        ensures
            *listener == self.spec_state().spec_listener(),
    {
        &self.state.listener
    }

    /// A proxy for the client at `client_addr`, whose stream is
    /// `client_to_proxy`. The listener goes on accepting.
    pub fn accept_client<A: Send + 'static, T: Send + 'static>(
        &self,
        client_addr: A,
        client_to_proxy: T,
    ) -> (proxy: Proxy<ClientAcceptedState<A, T>>)
        ensures
            proxy.spec_service() == self.spec_service(),
            proxy.spec_state().spec_client_addr() == client_addr,
            proxy.spec_state().spec_client_to_proxy() == client_to_proxy,
    {
        Proxy {
            service: self.service.clone(),
            state: ClientAcceptedState { client_addr, client_to_proxy },
        }
    }
}

impl<A: Send + 'static, T: Send + 'static> Proxy<ClientAcceptedState<A, T>> {
    pub fn client_addr(&self) -> (client_addr: &A)
        ensures
            *client_addr == self.spec_state().spec_client_addr(),
    {
        &self.state.client_addr
    }

    /// The proxy once `proxy_to_server` is the stream to the server at
    /// `service.connect.addr_port()`.
    pub fn connect_to_server(self, proxy_to_server: T) -> (proxy: Proxy<ConnectedState<T>>)
        ensures
            proxy.spec_service() == self.spec_service(),
            proxy.spec_state().spec_client_to_proxy() == self.spec_state().spec_client_to_proxy(),
            proxy.spec_state().spec_proxy_to_server() == proxy_to_server,
    {
        Proxy {
            service: self.service,
            state: ConnectedState {
                client_to_proxy: self.state.client_to_proxy,
                proxy_to_server,
            },
        }
    }
}

/// What a conversation starts with.
pub struct Opening<T> {
    /// The decisions of the conversation, which waits for the greeting.
    pub conversation: Conversation,
    /// The stream to the client.
    pub client_to_proxy: T,
    /// The stream to the server.
    pub proxy_to_server: T,
}

impl<T: Send + 'static> Proxy<ConnectedState<T>> {
    /// Hands out both streams, and a conversation that withholds from the
    /// client what `policy` denies.
    pub fn start_conversation(self, policy: CapabilityPolicy) -> (opening: Opening<T>)
        ensures
            opening.conversation.spec_phase() == Phase::AwaitingGreeting,
            opening.conversation.denied() == policy.denied(),
            opening.client_to_proxy == self.spec_state().spec_client_to_proxy(),
            opening.proxy_to_server == self.spec_state().spec_proxy_to_server(),
    {
        Opening {
            conversation: Conversation::new(policy),
            client_to_proxy: self.state.client_to_proxy,
            proxy_to_server: self.state.proxy_to_server,
        }
    }
}

} // verus!
