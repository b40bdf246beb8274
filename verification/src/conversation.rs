//! One conversation: a client connection, its upstream connection, and the
//! decisions that bind the two protocol state machines together.
//!
//! The driver owns both streams and both machines. It waits for whichever
//! side has something to report, hands the report to the conversation, and
//! performs the step that comes back.

use crate::capability::{
    advertised, filtered_greeting, lemma_filter_uniform, CapabilityPolicy,
};
use crate::message::{
    ContinuationRequestView, DataView, Greeting, GreetingView, StatusView,
};
use crate::text::{
    literal_accept_text, literal_reject_text, Text, LITERAL_ACCEPT_TEXT, LITERAL_REJECT_TEXT,
};
use crate::route::{
    client_outcome, handle_client_event, handle_server_event, server_outcome, ClientAction,
    ClientError, ClientEvent, ServerAction, ServerActionView, ServerError, ServerEvent,
};
use vstd::prelude::*;

verus! {

/// Why a stream had nothing to report. `I` is the I/O error, `L` the TLS
/// error and `E` the error of the state machine that reads the stream.
#[derive(Clone, Debug, PartialEq, Eq)]
pub enum StreamError<I, L, E> {
    /// The peer closed the stream.
    Closed,
    /// The transport failed.
    Io(I),
    /// The TLS layer failed.
    Tls(L),
    /// The state machine dropped a message; the stream itself is sound.
    State(E),
}

/// What is left of a stream's report once the transport is dealt with:
/// nothing where the stream is closed or broken, else the report of the
/// state machine.
pub open spec fn stream_outcome<V, I, L, E>(stream_event: Result<V, StreamError<I, L, E>>) -> Option<
    Result<V, E>,
> {
    match stream_event {
        Ok(event) => Some(Ok(event)),
        Err(StreamError::State(error)) => Some(Err(error)),
        Err(_) => None,
    }
}

/// The greeting that opens a conversation, where the server's first report
/// is one.
pub open spec fn initial_greeting<X, T>(
    server_event: Result<ServerEvent<X, T>, ServerError>,
) -> Option<Greeting<X>> {
    match server_event {
        Ok(ServerEvent::GreetingReceived { greeting }) => Some(greeting),
        _ => None,
    }
}

/// Sorts a stream's report: `None` ends the conversation.
pub fn handle_stream_event<V, I, L, E>(stream_event: Result<V, StreamError<I, L, E>>) -> (event:
    Option<Result<V, E>>)
    ensures
        event == stream_outcome(stream_event),
{
    match stream_event {
        Ok(event) => Some(Ok(event)),
        Err(StreamError::Closed) => None,
        Err(StreamError::Io(_)) => None,
        Err(StreamError::Tls(_)) => None,
        Err(StreamError::State(error)) => Some(Err(error)),
    }
}

/// Takes the greeting out of the server's first report: `None` ends the
/// conversation.
pub fn handle_initial_server_event<X, T>(
    server_event: Result<ServerEvent<X, T>, ServerError>,
) -> (greeting: Option<Greeting<X>>)
    ensures
        greeting == initial_greeting(server_event),
{
    match server_event {
        Ok(ServerEvent::GreetingReceived { greeting }) => Some(greeting),
        Ok(_) => None,
        Err(_) => None,
    }
}

/// Where a conversation stands.
#[derive(Clone, Copy, Debug, PartialEq, Eq, Structural)]
pub enum Phase {
    /// The upstream has not greeted yet; the client is not served yet.
    AwaitingGreeting,
    /// Both machines run and events are routed between them.
    Relaying,
    /// A stream was closed or failed.
    Ended,
}

/// What the driver does after a report of the server side.
#[derive(Clone, Debug, PartialEq, Eq)]
pub enum ServerStep<X, T> {
    /// Start the client-facing machine with this greeting. It accepts and
    /// rejects literals with these texts.
    Greet { greeting: Greeting<X>, literal_accept_text: Text, literal_reject_text: Text },
    /// Perform this on the client-facing machine.
    Act(ServerAction<X, T>),
    /// Nothing to do.
    Continue,
    /// Leave the conversation.
    End,
}

pub enum ServerStepView<X, T> {
    Greet {
        greeting: GreetingView<X>,
        literal_accept_text: Seq<char>,
        literal_reject_text: Seq<char>,
    },
    Act(ServerActionView<X, T>),
    Continue,
    End,
}

impl<X, T> View for ServerStep<X, T> {
    type V = ServerStepView<X, T>;

    open spec fn view(&self) -> ServerStepView<X, T> {
        match self {
            ServerStep::Greet { greeting, literal_accept_text, literal_reject_text } => {
                ServerStepView::Greet {
                    greeting: greeting@,
                    literal_accept_text: literal_accept_text@,
                    literal_reject_text: literal_reject_text@,
                }
            },
            ServerStep::Act(action) => ServerStepView::Act(action@),
            ServerStep::Continue => ServerStepView::Continue,
            ServerStep::End => ServerStepView::End,
        }
    }
}

/// What the driver does after a report of the client side.
#[derive(Clone, Debug, PartialEq, Eq)]
pub enum ClientStep<C, A, D> {
    /// Perform this on the server-facing machine.
    Act(ClientAction<C, A, D>),
    /// Nothing to do.
    Continue,
    /// Leave the conversation.
    End,
}

/// The phase after a report of the server side, and the step it asks for.
pub open spec fn server_step<X, T, I, L>(
    denied: Seq<Seq<char>>,
    phase: Phase,
    stream_event: Result<ServerEvent<X, T>, StreamError<I, L, ServerError>>,
) -> (Phase, ServerStepView<X, T>) {
    match phase {
        Phase::Ended => (Phase::Ended, ServerStepView::End),
        Phase::AwaitingGreeting => match stream_outcome(stream_event) {
            None => (Phase::Ended, ServerStepView::End),
            Some(server_event) => match initial_greeting(server_event) {
                None => (Phase::Ended, ServerStepView::End),
                Some(greeting) => (
                    Phase::Relaying,
                    ServerStepView::Greet {
                        greeting: filtered_greeting(denied, greeting@),
                        literal_accept_text: LITERAL_ACCEPT_TEXT@,
                        literal_reject_text: LITERAL_REJECT_TEXT@,
                    },
                ),
            },
        },
        Phase::Relaying => match stream_outcome(stream_event) {
            None => (Phase::Ended, ServerStepView::End),
            Some(server_event) => match server_outcome(denied, server_event) {
                Some(action) => (Phase::Relaying, ServerStepView::Act(action)),
                None => (Phase::Relaying, ServerStepView::Continue),
            },
        },
    }
}

/// The phase after a report of the client side, and the step it asks for.
/// The client is served only while the conversation relays.
pub open spec fn client_step<C, A, D, I, L>(
    phase: Phase,
    stream_event: Result<ClientEvent<C, A, D>, StreamError<I, L, ClientError>>,
) -> (Phase, ClientStep<C, A, D>) {
    match phase {
        Phase::Relaying => match stream_outcome(stream_event) {
            None => (Phase::Ended, ClientStep::End),
            Some(client_event) => match client_outcome(client_event) {
                Some(action) => (Phase::Relaying, ClientStep::Act(action)),
                None => (Phase::Relaying, ClientStep::Continue),
            },
        },
        _ => (Phase::Ended, ClientStep::End),
    }
}

/// What became of a step that the driver was asked to take.
#[derive(Clone, Copy, Debug, PartialEq, Eq, Structural)]
pub enum Outcome {
    /// The state machine took it.
    Performed,
    /// The state machine was in no state for it, or the message cannot be
    /// written in the protocol.
    Refused,
}

/// The phase after a step was tried: the conversation goes on relaying
/// where the step was taken, and ends where it was refused.
pub open spec fn outcome_step(phase: Phase, outcome: Outcome) -> Phase {
    if phase == Phase::Relaying && outcome == Outcome::Performed {
        Phase::Relaying
    } else {
        Phase::Ended
    }
}

/// The decisions of one conversation.
pub struct Conversation {
    phase: Phase,
    policy: CapabilityPolicy,
}

impl Conversation {
    pub closed spec fn spec_phase(&self) -> Phase {
        self.phase
    }

    /// The capabilities withheld from the client.
    pub closed spec fn denied(&self) -> Seq<Seq<char>> {
        self.policy.denied()
    }

    /// A conversation that waits for the upstream's greeting.
    pub fn new(policy: CapabilityPolicy) -> (conversation: Conversation)
        ensures
            conversation.spec_phase() == Phase::AwaitingGreeting,
            conversation.denied() == policy.denied(),
    {
        Conversation { phase: Phase::AwaitingGreeting, policy }
    }

    pub fn phase(&self) -> (phase: Phase)
        ensures
            phase == self.spec_phase(),
    {
        self.phase
    }

    /// Takes a report of the server-side stream.
    pub fn on_server_event<X, T, I, L>(
        &mut self,
        stream_event: Result<ServerEvent<X, T>, StreamError<I, L, ServerError>>,
    ) -> (step: ServerStep<X, T>)
        ensures
            final(self).denied() == old(self).denied(),
            (final(self).spec_phase(), step@) == server_step(
                old(self).denied(),
                old(self).spec_phase(),
                stream_event,
            ),
    {
        match self.phase {
            Phase::Ended => ServerStep::End,
            Phase::AwaitingGreeting => {
                let Some(server_event) = handle_stream_event(stream_event) else {
                    self.phase = Phase::Ended;
                    return ServerStep::End;
                };
                let Some(greeting) = handle_initial_server_event(server_event) else {
                    self.phase = Phase::Ended;
                    return ServerStep::End;
                };
                self.phase = Phase::Relaying;
                ServerStep::Greet {
                    greeting: self.policy.filter_capabilities_in_greeting(greeting),
                    literal_accept_text: literal_accept_text(),
                    literal_reject_text: literal_reject_text(),
                }
            },
            Phase::Relaying => {
                let Some(server_event) = handle_stream_event(stream_event) else {
                    self.phase = Phase::Ended;
                    return ServerStep::End;
                };
                match handle_server_event(server_event, &self.policy) {
                    Some(action) => ServerStep::Act(action),
                    None => ServerStep::Continue,
                }
            },
        }
    }

    /// Takes what became of a step, be it an action or the start of the
    /// client-facing machine. True if the conversation goes on.
    pub fn on_outcome(&mut self, outcome: Outcome) -> (goes_on: bool)
        ensures
            final(self).denied() == old(self).denied(),
            final(self).spec_phase() == outcome_step(old(self).spec_phase(), outcome),
            goes_on == (final(self).spec_phase() == Phase::Relaying),
    {
        match (self.phase, outcome) {
            (Phase::Relaying, Outcome::Performed) => true,
            _ => {
                self.phase = Phase::Ended;
                false
            },
        }
    }

    /// Takes a report of the client-side stream.
    pub fn on_client_event<C, A, D, I, L>(
        &mut self,
        stream_event: Result<ClientEvent<C, A, D>, StreamError<I, L, ClientError>>,
    ) -> (step: ClientStep<C, A, D>)
        ensures
            final(self).denied() == old(self).denied(),
            (final(self).spec_phase(), step) == client_step(old(self).spec_phase(), stream_event),
    {
        match self.phase {
            Phase::Relaying => {
                let Some(client_event) = handle_stream_event(stream_event) else {
                    self.phase = Phase::Ended;
                    return ClientStep::End;
                };
                match handle_client_event(client_event) {
                    Some(action) => ClientStep::Act(action),
                    None => ClientStep::Continue,
                }
            },
            _ => {
                self.phase = Phase::Ended;
                ClientStep::End
            },
        }
    }
}

/// A message that a state machine had to drop does not end the
/// conversation: it goes on relaying, and asks for nothing.
pub proof fn lemma_dropped_message_keeps_relaying<C, A, D, X, T, I, L>(
    denied: Seq<Seq<char>>,
    client_error: ClientError,
    server_error: ServerError,
)
    ensures
        client_step::<C, A, D, I, L>(Phase::Relaying, Err(StreamError::State(client_error))) == (
            Phase::Relaying,
            ClientStep::<C, A, D>::Continue,
        ),
        server_step::<X, T, I, L>(denied, Phase::Relaying, Err(StreamError::State(server_error)))
            == (Phase::Relaying, ServerStepView::<X, T>::Continue),
{
}

/// A stream that is closed or broken ends the conversation, whichever side
/// it is, and nothing brings an ended conversation back.
pub proof fn lemma_stream_failure_ends<C, A, D, X, T, I, L>(
    denied: Seq<Seq<char>>,
    phase: Phase,
    client_event: Result<ClientEvent<C, A, D>, StreamError<I, L, ClientError>>,
    server_event: Result<ServerEvent<X, T>, StreamError<I, L, ServerError>>,
)
    ensures
        stream_outcome(client_event) is None ==> client_step(phase, client_event) == (
            Phase::Ended,
            ClientStep::<C, A, D>::End,
        ),
        stream_outcome(server_event) is None ==> server_step(denied, phase, server_event) == (
            Phase::Ended,
            ServerStepView::<X, T>::End,
        ),
        client_step(Phase::Ended, client_event) == (Phase::Ended, ClientStep::<C, A, D>::End),
        server_step(denied, Phase::Ended, server_event) == (
            Phase::Ended,
            ServerStepView::<X, T>::End,
        ),
{
}

/// While the conversation relays and the streams hold, every report is
/// handled as the routing says, and the conversation goes on relaying.
pub proof fn lemma_relaying_routes<C, A, D, X, T, I, L>(
    denied: Seq<Seq<char>>,
    client_event: Result<ClientEvent<C, A, D>, ClientError>,
    server_event: Result<ServerEvent<X, T>, ServerError>,
)
    ensures
        client_step::<C, A, D, I, L>(
            Phase::Relaying,
            match client_event {
                Ok(event) => Ok(event),
                Err(error) => Err(StreamError::State(error)),
            },
        ) == (
            Phase::Relaying,
            match client_outcome(client_event) {
                Some(action) => ClientStep::Act(action),
                None => ClientStep::Continue,
            },
        ),
        server_step::<X, T, I, L>(
            denied,
            Phase::Relaying,
            match server_event {
                Ok(event) => Ok(event),
                Err(error) => Err(StreamError::State(error)),
            },
        ) == (
            Phase::Relaying,
            match server_outcome(denied, server_event) {
                Some(action) => ServerStepView::Act(action),
                None => ServerStepView::Continue,
            },
        ),
{
}

/// The greeting with which the client is served advertises no capability
/// that the policy denies, and the client-facing machine is started with
/// the proxy's texts for literals.
pub proof fn lemma_greeting_withholds_denied<X, T, I, L>(
    policy: CapabilityPolicy,
    stream_event: Result<ServerEvent<X, T>, StreamError<I, L, ServerError>>,
    token: Seq<char>,
)
    requires
        policy.wf(),
        policy.denies(token),
    ensures
        server_step(
            policy.denied(),
            Phase::AwaitingGreeting,
            stream_event,
        ).1 matches ServerStepView::Greet { greeting, literal_accept_text, literal_reject_text }
            ==> {
            &&& !advertised(greeting.code).contains(token)
            &&& literal_accept_text == LITERAL_ACCEPT_TEXT@
            &&& literal_reject_text == LITERAL_REJECT_TEXT@
        },
{
    match stream_outcome(stream_event) {
        Some(server_event) => match initial_greeting(server_event) {
            Some(greeting) => {
                lemma_filter_uniform(
                    policy,
                    greeting@,
                    StatusView::<X>::Bye { code: None, text: Seq::empty() },
                    ContinuationRequestView::<X>::Base64(Seq::empty()),
                    DataView::<T>::Capability(Seq::empty()),
                    token,
                );
            },
            None => {},
        },
        None => {},
    }
}

} // verus!
