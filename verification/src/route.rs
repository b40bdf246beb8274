//! The cross-wiring of the two protocol state machines: what each event of
//! one side makes the proxy do on the other.

use crate::capability::{
    advertised, advertised_in_continuation, advertised_in_data, code_passes,
    continuation_passes, data_passes, filtered_continuation, filtered_data, filtered_status,
    lemma_filter_transparent, lemma_filter_uniform, CapabilityPolicy,
};
use crate::message::{
    Code, CodeView, Command, ContinuationRequest, ContinuationRequestView, Data, DataView,
    Greeting, GreetingKind, GreetingView, Status, StatusKind, StatusView,
};
use crate::text::{
    command_rejected_text, lemma_proxy_texts_valid, valid_text, COMMAND_REJECTED_TEXT,
};
use vstd::prelude::*;

verus! {

/// A message of the client that the client-facing machine dropped.
#[derive(Clone, Debug, PartialEq, Eq)]
pub enum ClientError {
    ExpectedCrlfGotLf { discarded_bytes: Vec<u8> },
    MalformedMessage { discarded_bytes: Vec<u8> },
    LiteralTooLong { discarded_bytes: Vec<u8> },
    CommandTooLong { discarded_bytes: Vec<u8> },
}

impl ClientError {
    pub open spec fn spec_discarded_bytes(&self) -> Seq<u8> {
        match self {
            ClientError::ExpectedCrlfGotLf { discarded_bytes } => discarded_bytes@,
            ClientError::MalformedMessage { discarded_bytes } => discarded_bytes@,
            ClientError::LiteralTooLong { discarded_bytes } => discarded_bytes@,
            ClientError::CommandTooLong { discarded_bytes } => discarded_bytes@,
        }
    }

    /// The bytes of the dropped message.
    pub fn discarded_bytes(&self) -> (bytes: &Vec<u8>)
        ensures
            bytes@ == self.spec_discarded_bytes(),
    {
        match self {
            ClientError::ExpectedCrlfGotLf { discarded_bytes } => discarded_bytes,
            ClientError::MalformedMessage { discarded_bytes } => discarded_bytes,
            ClientError::LiteralTooLong { discarded_bytes } => discarded_bytes,
            ClientError::CommandTooLong { discarded_bytes } => discarded_bytes,
        }
    }
}

/// A message of the server that the server-facing machine dropped.
#[derive(Clone, Debug, PartialEq, Eq)]
pub enum ServerError {
    ExpectedCrlfGotLf { discarded_bytes: Vec<u8> },
    MalformedMessage { discarded_bytes: Vec<u8> },
    ResponseTooLong { discarded_bytes: Vec<u8> },
}

impl ServerError {
    pub open spec fn spec_discarded_bytes(&self) -> Seq<u8> {
        match self {
            ServerError::ExpectedCrlfGotLf { discarded_bytes } => discarded_bytes@,
            ServerError::MalformedMessage { discarded_bytes } => discarded_bytes@,
            ServerError::ResponseTooLong { discarded_bytes } => discarded_bytes@,
        }
    }

    /// The bytes of the dropped message.
    pub fn discarded_bytes(&self) -> (bytes: &Vec<u8>)
        ensures
            bytes@ == self.spec_discarded_bytes(),
    {
        match self {
            ServerError::ExpectedCrlfGotLf { discarded_bytes } => discarded_bytes,
            ServerError::MalformedMessage { discarded_bytes } => discarded_bytes,
            ServerError::ResponseTooLong { discarded_bytes } => discarded_bytes,
        }
    }
}

/// What the client-facing machine reports. `C` is an ordinary command, `A`
/// an `AUTHENTICATE` command, `D` a line of authentication data.
#[derive(Clone, Debug, PartialEq, Eq)]
pub enum ClientEvent<C, A, D> {
    GreetingSent,
    ResponseSent,
    CommandReceived { command: C },
    CommandAuthenticateReceived { command_authenticate: A },
    AuthenticateDataReceived { authenticate_data: D },
    IdleCommandReceived { tag: String },
    IdleDoneReceived,
}

/// What the server-facing machine reports. `X` is a response code and `T` a
/// data response that the proxy does not look into.
#[derive(Clone, Debug, PartialEq, Eq)]
pub enum ServerEvent<X, T> {
    GreetingReceived { greeting: Greeting<X> },
    CommandSent,
    /// The server refused the command with this tag before it was sent in full.
    CommandRejected { tag: String, status: Status<X> },
    AuthenticateStarted,
    AuthenticateContinuationRequestReceived { continuation_request: ContinuationRequest<X> },
    AuthenticateStatusReceived { status: Status<X> },
    DataReceived { data: Data<T> },
    StatusReceived { status: Status<X> },
    ContinuationRequestReceived { continuation_request: ContinuationRequest<X> },
    IdleCommandSent,
    IdleAccepted { continuation_request: ContinuationRequest<X> },
    IdleRejected { status: Status<X> },
    IdleDoneSent,
}

/// What the proxy does on the server-facing machine.
#[derive(Clone, Debug, PartialEq, Eq)]
pub enum ClientAction<C, A, D> {
    EnqueueCommand(Command<C, A>),
    SetAuthenticateData(D),
    SetIdleDone,
}

/// What the proxy does on the client-facing machine.
#[derive(Clone, Debug, PartialEq, Eq)]
pub enum ServerAction<X, T> {
    EnqueueData(Data<T>),
    EnqueueStatus(Status<X>),
    EnqueueContinuationRequest(ContinuationRequest<X>),
    AuthenticateContinue(ContinuationRequest<X>),
    AuthenticateFinish(Status<X>),
    IdleAccept(ContinuationRequest<X>),
    IdleReject(Status<X>),
}

pub enum ServerActionView<X, T> {
    EnqueueData(DataView<T>),
    EnqueueStatus(StatusView<X>),
    EnqueueContinuationRequest(ContinuationRequestView<X>),
    AuthenticateContinue(ContinuationRequestView<X>),
    AuthenticateFinish(StatusView<X>),
    IdleAccept(ContinuationRequestView<X>),
    IdleReject(StatusView<X>),
}

impl<X, T> View for ServerAction<X, T> {
    type V = ServerActionView<X, T>;

    open spec fn view(&self) -> ServerActionView<X, T> {
        match self {
            ServerAction::EnqueueData(data) => ServerActionView::EnqueueData(data@),
            ServerAction::EnqueueStatus(status) => ServerActionView::EnqueueStatus(status@),
            ServerAction::EnqueueContinuationRequest(request) => {
                ServerActionView::EnqueueContinuationRequest(request@)
            },
            ServerAction::AuthenticateContinue(request) => ServerActionView::AuthenticateContinue(
                request@,
            ),
            ServerAction::AuthenticateFinish(status) => ServerActionView::AuthenticateFinish(
                status@,
            ),
            ServerAction::IdleAccept(request) => ServerActionView::IdleAccept(request@),
            ServerAction::IdleReject(status) => ServerActionView::IdleReject(status@),
        }
    }
}

/// The view of an optional action.
pub open spec fn server_action_view<X, T>(action: Option<ServerAction<X, T>>) -> Option<
    ServerActionView<X, T>,
> {
    match action {
        Some(action) => Some(action@),
        None => None,
    }
}

/// The status a client sees in place of an upstream rejection of the
/// command `tag`: always `BAD`; the alert kept with its text, anything else
/// replaced by the proxy's own text.
pub open spec fn rejection<X>(tag: Seq<char>, status: StatusView<X>) -> StatusView<X> {
    if status.code() == Some(CodeView::<X>::Alert) {
        StatusView::Tagged {
            tag,
            kind: StatusKind::Bad,
            code: Some(CodeView::Alert),
            text: status.text(),
        }
    } else {
        StatusView::Tagged {
            tag,
            kind: StatusKind::Bad,
            code: None,
            text: COMMAND_REJECTED_TEXT@,
        }
    }
}

/// What an event of the client side asks of the server-facing machine.
pub open spec fn client_route<C, A, D>(event: ClientEvent<C, A, D>) -> Option<
    ClientAction<C, A, D>,
> {
    match event {
        ClientEvent::GreetingSent => None,
        ClientEvent::ResponseSent => None,
        ClientEvent::CommandReceived { command } => Some(
            ClientAction::EnqueueCommand(Command::Plain(command)),
        ),
        ClientEvent::CommandAuthenticateReceived { command_authenticate } => Some(
            ClientAction::EnqueueCommand(Command::Authenticate(command_authenticate)),
        ),
        ClientEvent::AuthenticateDataReceived { authenticate_data } => Some(
            ClientAction::SetAuthenticateData(authenticate_data),
        ),
        ClientEvent::IdleCommandReceived { tag } => Some(
            ClientAction::EnqueueCommand(Command::Idle { tag }),
        ),
        ClientEvent::IdleDoneReceived => Some(ClientAction::SetIdleDone),
    }
}

/// What an event of the server side asks of the client-facing machine, when
/// the capabilities `denied` are withheld.
pub open spec fn server_route<X, T>(denied: Seq<Seq<char>>, event: ServerEvent<X, T>) -> Option<
    ServerActionView<X, T>,
> {
    match event {
        ServerEvent::GreetingReceived { .. } => None,
        ServerEvent::CommandSent => None,
        ServerEvent::CommandRejected { tag, status } => Some(
            ServerActionView::EnqueueStatus(rejection(tag@, status@)),
        ),
        ServerEvent::AuthenticateStarted => None,
        ServerEvent::AuthenticateContinuationRequestReceived { continuation_request } => Some(
            ServerActionView::AuthenticateContinue(
                filtered_continuation(denied, continuation_request@),
            ),
        ),
        ServerEvent::AuthenticateStatusReceived { status } => Some(
            ServerActionView::AuthenticateFinish(filtered_status(denied, status@)),
        ),
        ServerEvent::DataReceived { data } => Some(
            ServerActionView::EnqueueData(filtered_data(denied, data@)),
        ),
        ServerEvent::StatusReceived { status } => Some(
            ServerActionView::EnqueueStatus(filtered_status(denied, status@)),
        ),
        ServerEvent::ContinuationRequestReceived { continuation_request } => Some(
            ServerActionView::EnqueueContinuationRequest(
                filtered_continuation(denied, continuation_request@),
            ),
        ),
        ServerEvent::IdleCommandSent => None,
        ServerEvent::IdleAccepted { continuation_request } => Some(
            ServerActionView::IdleAccept(filtered_continuation(denied, continuation_request@)),
        ),
        ServerEvent::IdleRejected { status } => Some(
            ServerActionView::IdleReject(filtered_status(denied, status@)),
        ),
        ServerEvent::IdleDoneSent => None,
    }
}

/// What the proxy does about a report of the client-facing machine: a
/// dropped message asks for nothing.
pub open spec fn client_outcome<C, A, D>(
    client_event: Result<ClientEvent<C, A, D>, ClientError>,
) -> Option<ClientAction<C, A, D>> {
    match client_event {
        Ok(event) => client_route(event),
        Err(_) => None,
    }
}

/// What the proxy does about a report of the server-facing machine: a
/// dropped message asks for nothing.
pub open spec fn server_outcome<X, T>(
    denied: Seq<Seq<char>>,
    server_event: Result<ServerEvent<X, T>, ServerError>,
) -> Option<ServerActionView<X, T>> {
    match server_event {
        Ok(event) => server_route(denied, event),
        Err(_) => None,
    }
}

/// The actions on the server-facing machine that a run of reports asks for,
/// when each is handled as it arrives.
pub open spec fn client_actions<C, A, D>(
    reports: Seq<Result<ClientEvent<C, A, D>, ClientError>>,
) -> Seq<ClientAction<C, A, D>>
    decreases reports.len(),
{
    if reports.len() == 0 {
        Seq::empty()
    } else {
        let earlier = client_actions(reports.drop_last());
        match client_outcome(reports.last()) {
            Some(action) => earlier.push(action),
            None => earlier,
        }
    }
}

/// The actions on the client-facing machine that a run of reports asks for,
/// when each is handled as it arrives.
pub open spec fn server_actions<X, T>(
    denied: Seq<Seq<char>>,
    reports: Seq<Result<ServerEvent<X, T>, ServerError>>,
) -> Seq<ServerActionView<X, T>>
    decreases reports.len(),
{
    if reports.len() == 0 {
        Seq::empty()
    } else {
        let earlier = server_actions(denied, reports.drop_last());
        match server_outcome(denied, reports.last()) {
            Some(action) => earlier.push(action),
            None => earlier,
        }
    }
}

/// Rewrites the status with which the server refused the command `tag`.
pub fn rewrite_rejection<X>(tag: String, status: Status<X>) -> (rewritten: Status<X>)
    ensures
        rewritten@ == rejection(tag@, status@),
{
    let is_alert = match status.code() {
        Some(Code::Alert) => true,
        _ => false,
    };
    if is_alert {
        // The alert must be displayed to the user: keep its text.
        let text = match status {
            Status::Untagged { text, .. } => text,
            Status::Tagged { text, .. } => text,
            Status::Bye { text, .. } => text,
        };
        Status::bad(tag, Some(Code::Alert), text)
    } else {
        // The code and text of the server may speak of a command that the
        // client did not send in this form.
        Status::bad(tag, None, command_rejected_text())
    }
}

/// Handles what the client-facing machine reported: a dropped message and
/// the machine's own progress ask for nothing, every other event for one
/// action on the server-facing machine.
pub fn handle_client_event<C, A, D>(client_event: Result<ClientEvent<C, A, D>, ClientError>) -> (action:
    Option<ClientAction<C, A, D>>)
    ensures
        action == client_outcome(client_event),
{
    let event = match client_event {
        Ok(event) => event,
        Err(_) => {
            return None;
        },
    };
    match event {
        ClientEvent::GreetingSent => None,
        ClientEvent::ResponseSent => None,
        ClientEvent::CommandReceived { command } => Some(
            ClientAction::EnqueueCommand(Command::Plain(command)),
        ),
        ClientEvent::CommandAuthenticateReceived { command_authenticate } => Some(
            ClientAction::EnqueueCommand(Command::Authenticate(command_authenticate)),
        ),
        ClientEvent::AuthenticateDataReceived { authenticate_data } => Some(
            ClientAction::SetAuthenticateData(authenticate_data),
        ),
        ClientEvent::IdleCommandReceived { tag } => Some(
            ClientAction::EnqueueCommand(Command::Idle { tag }),
        ),
        ClientEvent::IdleDoneReceived => Some(ClientAction::SetIdleDone),
    }
}

/// Handles what the server-facing machine reported: a dropped message, the
/// machine's own progress and a greeting after the first ask for nothing,
/// every other event for one action on the client-facing machine.
pub fn handle_server_event<X, T>(
    server_event: Result<ServerEvent<X, T>, ServerError>,
    policy: &CapabilityPolicy,
) -> (action: Option<ServerAction<X, T>>)
    ensures
        server_action_view(action) == server_outcome(policy.denied(), server_event),
{
    let event = match server_event {
        Ok(event) => event,
        Err(_) => {
            return None;
        },
    };
    match event {
        ServerEvent::GreetingReceived { .. } => None,
        ServerEvent::CommandSent => None,
        ServerEvent::CommandRejected { tag, status } => Some(
            ServerAction::EnqueueStatus(rewrite_rejection(tag, status)),
        ),
        ServerEvent::AuthenticateStarted => None,
        ServerEvent::AuthenticateContinuationRequestReceived { continuation_request } => Some(
            ServerAction::AuthenticateContinue(
                policy.filter_capabilities_in_continuation(continuation_request),
            ),
        ),
        ServerEvent::AuthenticateStatusReceived { status } => Some(
            ServerAction::AuthenticateFinish(policy.filter_capabilities_in_status(status)),
        ),
        ServerEvent::DataReceived { data } => Some(
            ServerAction::EnqueueData(policy.filter_capabilities_in_data(data)),
        ),
        ServerEvent::StatusReceived { status } => Some(
            ServerAction::EnqueueStatus(policy.filter_capabilities_in_status(status)),
        ),
        ServerEvent::ContinuationRequestReceived { continuation_request } => Some(
            ServerAction::EnqueueContinuationRequest(
                policy.filter_capabilities_in_continuation(continuation_request),
            ),
        ),
        ServerEvent::IdleCommandSent => None,
        ServerEvent::IdleAccepted { continuation_request } => Some(
            ServerAction::IdleAccept(
                policy.filter_capabilities_in_continuation(continuation_request),
            ),
        ),
        ServerEvent::IdleRejected { status } => Some(
            ServerAction::IdleReject(policy.filter_capabilities_in_status(status)),
        ),
        ServerEvent::IdleDoneSent => None,
    }
}

/// Commands reach the server-facing machine in the order in which the
/// client issued them: what a run of reports asks for is what its first part
/// asks for, followed by what the rest asks for.
pub proof fn lemma_client_order<C, A, D>(
    first: Seq<Result<ClientEvent<C, A, D>, ClientError>>,
    rest: Seq<Result<ClientEvent<C, A, D>, ClientError>>,
)
    ensures
        client_actions(first + rest) == client_actions(first) + client_actions(rest),
    decreases rest.len(),
{
    if rest.len() == 0 {
        assert(first + rest =~= first);
        assert(client_actions(first) + client_actions(rest) =~= client_actions(first));
    } else {
        lemma_client_order(first, rest.drop_last());
        assert((first + rest).drop_last() =~= first + rest.drop_last());
        assert((first + rest).last() == rest.last());
        match client_outcome(rest.last()) {
            Some(action) => {
                assert((client_actions(first) + client_actions(rest.drop_last())).push(action)
                    =~= client_actions(first) + client_actions(rest.drop_last()).push(action));
            },
            None => {},
        }
    }
}

/// Responses reach the client-facing machine in the order in which the
/// server sent them: what a run of reports asks for is what its first part
/// asks for, followed by what the rest asks for.
pub proof fn lemma_server_order<X, T>(
    denied: Seq<Seq<char>>,
    first: Seq<Result<ServerEvent<X, T>, ServerError>>,
    rest: Seq<Result<ServerEvent<X, T>, ServerError>>,
)
    ensures
        server_actions(denied, first + rest) == server_actions(denied, first) + server_actions(
            denied,
            rest,
        ),
    decreases rest.len(),
{
    if rest.len() == 0 {
        assert(first + rest =~= first);
        assert(server_actions(denied, first) + server_actions(denied, rest) =~= server_actions(
            denied,
            first,
        ));
    } else {
        lemma_server_order(denied, first, rest.drop_last());
        assert((first + rest).drop_last() =~= first + rest.drop_last());
        assert((first + rest).last() == rest.last());
        match server_outcome(denied, rest.last()) {
            Some(action) => {
                assert((server_actions(denied, first) + server_actions(
                    denied,
                    rest.drop_last(),
                )).push(action) =~= server_actions(denied, first) + server_actions(
                    denied,
                    rest.drop_last(),
                ).push(action));
            },
            None => {},
        }
    }
}

/// A run of commands is handed on whole: one action for each command, at the
/// command's place, holding the command as it came.
pub proof fn lemma_commands_pass<C, A, D>(
    reports: Seq<Result<ClientEvent<C, A, D>, ClientError>>,
)
    requires
        forall|i: int|
            0 <= i < reports.len() ==> (#[trigger] reports[i] matches Ok(
                ClientEvent::CommandReceived { .. },
            )),
    ensures
        client_actions(reports).len() == reports.len(),
        forall|i: int|
            0 <= i < reports.len() ==> (#[trigger] reports[i] matches Ok(
                ClientEvent::CommandReceived { command },
            ) && client_actions(reports)[i] == ClientAction::<C, A, D>::EnqueueCommand(
                Command::Plain(command),
            )),
    decreases reports.len(),
{
    if reports.len() > 0 {
        let earlier = reports.drop_last();
        assert forall|i: int| 0 <= i < earlier.len() implies (#[trigger] earlier[i] matches Ok(
            ClientEvent::CommandReceived { .. },
        )) by {
            assert(earlier[i] == reports[i]);
        }
        lemma_commands_pass(earlier);
        assert(reports.last() == reports[reports.len() - 1]);
        assert forall|i: int| 0 <= i < reports.len() implies (#[trigger] reports[i] matches Ok(
            ClientEvent::CommandReceived { command },
        ) && client_actions(reports)[i] == ClientAction::<C, A, D>::EnqueueCommand(
            Command::Plain(command),
        )) by {
            if i < earlier.len() {
                assert(earlier[i] == reports[i]);
            }
        }
    }
}

/// A message that one side had to drop costs that message alone: the
/// reports before it and after it ask for what they would have asked for
/// without it.
pub proof fn lemma_dropped_message_contained<C, A, D, X, T>(
    denied: Seq<Seq<char>>,
    client_before: Seq<Result<ClientEvent<C, A, D>, ClientError>>,
    client_error: ClientError,
    client_after: Seq<Result<ClientEvent<C, A, D>, ClientError>>,
    server_before: Seq<Result<ServerEvent<X, T>, ServerError>>,
    server_error: ServerError,
    server_after: Seq<Result<ServerEvent<X, T>, ServerError>>,
)
    ensures
        client_actions(client_before.push(Err(client_error)) + client_after) == client_actions(
            client_before + client_after,
        ),
        server_actions(denied, server_before.push(Err(server_error)) + server_after)
            == server_actions(denied, server_before + server_after),
{
    let client_dropped = client_before.push(Err(client_error));
    assert(client_dropped.drop_last() =~= client_before);
    lemma_client_order(client_dropped, client_after);
    lemma_client_order(client_before, client_after);
    let server_dropped = server_before.push(Err(server_error));
    assert(server_dropped.drop_last() =~= server_before);
    lemma_server_order(denied, server_dropped, server_after);
    lemma_server_order(denied, server_before, server_after);
}

/// What the server sends reaches the client as it was sent, within
/// `AUTHENTICATE` and `IDLE` and outside them, wherever it advertises no
/// denied capability and is no refusal of a command.
pub proof fn lemma_responses_pass<X, T>(
    denied: Seq<Seq<char>>,
    data: Data<T>,
    status: Status<X>,
    request: ContinuationRequest<X>,
)
    ensures
        data_passes(denied, data@) ==> server_route(
            denied,
            ServerEvent::<X, T>::DataReceived { data },
        ) == Some(ServerActionView::<X, T>::EnqueueData(data@)),
        code_passes(denied, status@.code()) ==> server_route(
            denied,
            ServerEvent::<X, T>::StatusReceived { status },
        ) == Some(ServerActionView::<X, T>::EnqueueStatus(status@)),
        continuation_passes(denied, request@) ==> server_route(
            denied,
            ServerEvent::<X, T>::ContinuationRequestReceived { continuation_request: request },
        ) == Some(ServerActionView::<X, T>::EnqueueContinuationRequest(request@)),
        code_passes(denied, status@.code()) ==> server_route(
            denied,
            ServerEvent::<X, T>::AuthenticateStatusReceived { status },
        ) == Some(ServerActionView::<X, T>::AuthenticateFinish(status@)),
        code_passes(denied, status@.code()) ==> server_route(
            denied,
            ServerEvent::<X, T>::IdleRejected { status },
        ) == Some(ServerActionView::<X, T>::IdleReject(status@)),
        continuation_passes(denied, request@) ==> server_route(
            denied,
            ServerEvent::<X, T>::AuthenticateContinuationRequestReceived {
                continuation_request: request,
            },
        ) == Some(ServerActionView::<X, T>::AuthenticateContinue(request@)),
        continuation_passes(denied, request@) ==> server_route(
            denied,
            ServerEvent::<X, T>::IdleAccepted { continuation_request: request },
        ) == Some(ServerActionView::<X, T>::IdleAccept(request@)),
{
    let greeting = GreetingView::<X> { kind: GreetingKind::Okay, code: None, text: Seq::empty() };
    lemma_filter_transparent(denied, greeting, status@, request@, data@);
}

/// What the client sees of a refused command: the alert of the server with
/// the server's text, or else the proxy's own text without a code; in both
/// cases a `BAD` status with the tag of the command.
pub proof fn lemma_rejection_rewrite<X>(tag: Seq<char>, status: StatusView<X>)
    ensures
        status.code() == Some(CodeView::<X>::Alert) ==> rejection(tag, status) == (
        StatusView::<X>::Tagged {
            tag,
            kind: StatusKind::Bad,
            code: Some(CodeView::Alert),
            text: status.text(),
        }),
        status.code() != Some(CodeView::<X>::Alert) ==> rejection(tag, status) == (
        StatusView::<X>::Tagged {
            tag,
            kind: StatusKind::Bad,
            code: None,
            text: COMMAND_REJECTED_TEXT@,
        }),
        valid_text(rejection(tag, status).text()) <== valid_text(status.text()),
{
    lemma_proxy_texts_valid();
}

/// Answers within `AUTHENTICATE` and `IDLE` go to the client through the
/// operations of these sub-protocols, filtered like every other response;
/// the general operations serve every other response and nothing else.
pub proof fn lemma_sub_protocols_keep_their_operations<X, T>(
    denied: Seq<Seq<char>>,
    event: ServerEvent<X, T>,
)
    ensures
        match event {
            ServerEvent::AuthenticateContinuationRequestReceived { continuation_request } => {
                server_route(denied, event) == Some(
                    ServerActionView::<X, T>::AuthenticateContinue(
                        filtered_continuation(denied, continuation_request@),
                    ),
                )
            },
            ServerEvent::AuthenticateStatusReceived { status } => server_route(denied, event)
                == Some(
                ServerActionView::<X, T>::AuthenticateFinish(filtered_status(denied, status@)),
            ),
            ServerEvent::IdleAccepted { continuation_request } => server_route(denied, event)
                == Some(
                ServerActionView::<X, T>::IdleAccept(
                    filtered_continuation(denied, continuation_request@),
                ),
            ),
            ServerEvent::IdleRejected { status } => server_route(denied, event) == Some(
                ServerActionView::<X, T>::IdleReject(filtered_status(denied, status@)),
            ),
            _ => server_route(denied, event) matches Some(action) ==> (action is EnqueueData
                || action is EnqueueStatus || action is EnqueueContinuationRequest),
        },
{
}

/// The capabilities that an action shows to the client.
pub open spec fn advertised_in_action<X, T>(action: ServerActionView<X, T>) -> Seq<Seq<char>> {
    match action {
        ServerActionView::EnqueueData(data) => advertised_in_data(data),
        ServerActionView::EnqueueStatus(status) => advertised(status.code()),
        ServerActionView::EnqueueContinuationRequest(request) => advertised_in_continuation(
            request,
        ),
        ServerActionView::AuthenticateContinue(request) => advertised_in_continuation(request),
        ServerActionView::AuthenticateFinish(status) => advertised(status.code()),
        ServerActionView::IdleAccept(request) => advertised_in_continuation(request),
        ServerActionView::IdleReject(status) => advertised(status.code()),
    }
}

/// Whatever the routing hands to the client advertises no capability that
/// the policy denies, whatever the server advertised and whichever
/// operation carries it.
pub proof fn lemma_routed_withholds_denied<X, T>(
    policy: CapabilityPolicy,
    event: ServerEvent<X, T>,
    token: Seq<char>,
)
    requires
        policy.wf(),
        policy.denies(token),
    ensures
        server_route(policy.denied(), event) matches Some(action) ==> !advertised_in_action(
            action,
        ).contains(token),
{
    let greeting = GreetingView::<X> { kind: GreetingKind::Okay, code: None, text: Seq::empty() };
    let no_status = StatusView::<X>::Bye { code: None, text: Seq::empty() };
    let no_request = ContinuationRequestView::<X>::Base64(Seq::empty());
    let no_data = DataView::<T>::Capability(Seq::empty());
    match event {
        ServerEvent::DataReceived { data } => {
            lemma_filter_uniform(policy, greeting, no_status, no_request, data@, token);
        },
        ServerEvent::StatusReceived { status } => {
            lemma_filter_uniform(policy, greeting, status@, no_request, no_data, token);
        },
        ServerEvent::AuthenticateStatusReceived { status } => {
            lemma_filter_uniform(policy, greeting, status@, no_request, no_data, token);
        },
        ServerEvent::IdleRejected { status } => {
            lemma_filter_uniform(policy, greeting, status@, no_request, no_data, token);
        },
        ServerEvent::AuthenticateContinuationRequestReceived { continuation_request } => {
            lemma_filter_uniform(
                policy,
                greeting,
                no_status,
                continuation_request@,
                no_data,
                token,
            );
        },
        ServerEvent::IdleAccepted { continuation_request } => {
            lemma_filter_uniform(
                policy,
                greeting,
                no_status,
                continuation_request@,
                no_data,
                token,
            );
        },
        ServerEvent::ContinuationRequestReceived { continuation_request } => {
            lemma_filter_uniform(
                policy,
                greeting,
                no_status,
                continuation_request@,
                no_data,
                token,
            );
        },
        _ => {},
    }
}

} // verus!
