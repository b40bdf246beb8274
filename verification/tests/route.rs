use imap_proxy::capability::CapabilityPolicy;
use imap_proxy::message::{
    Code, Command, ContinuationRequest, Data, Greeting, GreetingKind, Status, StatusKind,
};
use imap_proxy::route::{
    handle_client_event, handle_server_event, rewrite_rejection, ClientAction, ClientError,
    ClientEvent, ServerAction, ServerError, ServerEvent,
};
use imap_proxy::text::Text;

type FromClient = ClientEvent<String, String, Vec<u8>>;
type ToServer = ClientAction<String, String, Vec<u8>>;
type FromServer = ServerEvent<String, String>;
type ToClient = ServerAction<String, String>;

fn text(s: &str) -> Text {
    Text::new(s.to_string()).unwrap()
}

fn tokens(list: &[&str]) -> Vec<String> {
    list.iter().map(|t| t.to_string()).collect()
}

fn tagged(tag: &str, kind: StatusKind, code: Option<Code<String>>, t: &str) -> Status<String> {
    Status::Tagged { tag: tag.into(), kind, code, text: text(t) }
}

fn from_server(event: FromServer) -> Option<ToClient> {
    handle_server_event(Ok(event), &CapabilityPolicy::standard())
}

#[test]
fn rejection_without_alert() {
    let upstream = tagged("a3", StatusKind::Bad, Some(Code::Other("PARSE".into())), "bad");
    assert_eq!(
        rewrite_rejection("a3".to_string(), upstream.clone()),
        tagged("a3", StatusKind::Bad, None, "proxy: Command rejected by server")
    );
    assert_eq!(
        from_server(ServerEvent::CommandRejected { tag: "a3".into(), status: upstream }),
        Some(ServerAction::EnqueueStatus(tagged(
            "a3",
            StatusKind::Bad,
            None,
            "proxy: Command rejected by server"
        )))
    );
}

#[test]
fn rejection_with_alert() {
    let upstream = tagged("a4", StatusKind::Bad, Some(Code::Alert), "disk full");
    assert_eq!(rewrite_rejection("a4".to_string(), upstream.clone()), upstream);
    assert_eq!(
        from_server(ServerEvent::CommandRejected { tag: "a4".into(), status: upstream.clone() }),
        Some(ServerAction::EnqueueStatus(upstream))
    );
}

#[test]
fn a_rejection_is_always_bad_and_bears_the_tag_of_the_command() {
    for kind in [StatusKind::Okay, StatusKind::No, StatusKind::Bad] {
        assert_eq!(
            rewrite_rejection("a9".to_string(), tagged("zz", kind, Some(Code::Alert), "quota")),
            tagged("a9", StatusKind::Bad, Some(Code::Alert), "quota")
        );
        assert_eq!(
            rewrite_rejection("a9".to_string(), tagged("zz", kind, None, "quota")),
            tagged("a9", StatusKind::Bad, None, "proxy: Command rejected by server")
        );
    }
    let untagged: Status<String> =
        Status::Untagged { kind: StatusKind::No, code: Some(Code::Alert), text: text("look") };
    assert_eq!(
        rewrite_rejection("b1".to_string(), untagged),
        tagged("b1", StatusKind::Bad, Some(Code::Alert), "look")
    );
    let bye: Status<String> = Status::Bye { code: Some(Code::Alert), text: text("going down") };
    assert_eq!(
        rewrite_rejection("b2".to_string(), bye),
        tagged("b2", StatusKind::Bad, Some(Code::Alert), "going down")
    );
    let capability: Status<String> = Status::Bye {
        code: Some(Code::Capability(tokens(&["IMAP4rev1"]))),
        text: text("going down"),
    };
    assert_eq!(
        rewrite_rejection("b3".to_string(), capability),
        tagged("b3", StatusKind::Bad, None, "proxy: Command rejected by server")
    );
}

#[test]
fn commands_go_upstream_as_they_came() {
    let action: Option<ToServer> =
        handle_client_event(Ok(ClientEvent::CommandReceived { command: "a3 NOOP".to_string() }));
    assert_eq!(action, Some(ClientAction::EnqueueCommand(Command::Plain("a3 NOOP".to_string()))));
    let action: Option<ToServer> = handle_client_event(Ok(ClientEvent::CommandAuthenticateReceived {
        command_authenticate: "a1 AUTHENTICATE PLAIN".to_string(),
    }));
    assert_eq!(
        action,
        Some(ClientAction::EnqueueCommand(Command::Authenticate(
            "a1 AUTHENTICATE PLAIN".to_string()
        )))
    );
    let action: Option<ToServer> = handle_client_event(Ok(ClientEvent::AuthenticateDataReceived {
        authenticate_data: b"dGVzdA==".to_vec(),
    }));
    assert_eq!(action, Some(ClientAction::SetAuthenticateData(b"dGVzdA==".to_vec())));
}

#[test]
fn idle_goes_upstream_as_a_command_and_done_as_done() {
    let action: Option<ToServer> =
        handle_client_event(Ok(ClientEvent::IdleCommandReceived { tag: "a5".to_string() }));
    assert_eq!(action, Some(ClientAction::EnqueueCommand(Command::Idle { tag: "a5".to_string() })));
    let action: Option<ToServer> = handle_client_event(Ok(ClientEvent::IdleDoneReceived));
    assert_eq!(action, Some(ClientAction::SetIdleDone));
}

#[test]
fn progress_of_the_client_side_asks_for_nothing() {
    let events: [FromClient; 2] = [ClientEvent::GreetingSent, ClientEvent::ResponseSent];
    for event in events {
        assert_eq!(handle_client_event(Ok(event)), None);
    }
}

#[test]
fn a_dropped_client_message_asks_for_nothing() {
    let bytes = b"a1 LOGIN {5\n".to_vec();
    let errors = [
        ClientError::ExpectedCrlfGotLf { discarded_bytes: bytes.clone() },
        ClientError::MalformedMessage { discarded_bytes: bytes.clone() },
        ClientError::LiteralTooLong { discarded_bytes: bytes.clone() },
        ClientError::CommandTooLong { discarded_bytes: bytes.clone() },
    ];
    for error in errors {
        assert_eq!(error.discarded_bytes(), &bytes);
        let action: Option<ToServer> = handle_client_event(Err(error));
        assert_eq!(action, None);
    }
}

#[test]
fn a_dropped_server_message_asks_for_nothing() {
    let bytes = b"* OK\n".to_vec();
    let errors = [
        ServerError::ExpectedCrlfGotLf { discarded_bytes: bytes.clone() },
        ServerError::MalformedMessage { discarded_bytes: bytes.clone() },
        ServerError::ResponseTooLong { discarded_bytes: bytes.clone() },
    ];
    for error in errors {
        assert_eq!(error.discarded_bytes(), &bytes);
        let action: Option<ToClient> = handle_server_event(Err(error), &CapabilityPolicy::standard());
        assert_eq!(action, None);
    }
}

#[test]
fn progress_of_the_server_side_asks_for_nothing() {
    let events: [FromServer; 5] = [
        ServerEvent::CommandSent,
        ServerEvent::AuthenticateStarted,
        ServerEvent::IdleCommandSent,
        ServerEvent::IdleDoneSent,
        ServerEvent::GreetingReceived {
            greeting: Greeting { kind: GreetingKind::Okay, code: None, text: text("again") },
        },
    ];
    for event in events {
        assert_eq!(from_server(event), None);
    }
}

#[test]
fn data_status_and_continuation_are_filtered_and_enqueued() {
    assert_eq!(
        from_server(ServerEvent::DataReceived {
            data: Data::Capability(tokens(&["IMAP4rev1", "STARTTLS", "IDLE"])),
        }),
        Some(ServerAction::EnqueueData(Data::Capability(tokens(&["IMAP4rev1", "IDLE"]))))
    );
    assert_eq!(
        from_server(ServerEvent::DataReceived { data: Data::Other("* 3 EXISTS".into()) }),
        Some(ServerAction::EnqueueData(Data::Other("* 3 EXISTS".into())))
    );
    assert_eq!(
        from_server(ServerEvent::StatusReceived {
            status: tagged(
                "a1",
                StatusKind::Okay,
                Some(Code::Capability(tokens(&["IMAP4rev1", "COMPRESS=DEFLATE"]))),
                "logged in"
            ),
        }),
        Some(ServerAction::EnqueueStatus(tagged(
            "a1",
            StatusKind::Okay,
            Some(Code::Capability(tokens(&["IMAP4rev1"]))),
            "logged in"
        )))
    );
    assert_eq!(
        from_server(ServerEvent::StatusReceived {
            status: tagged("a5", StatusKind::Okay, None, "idle done"),
        }),
        Some(ServerAction::EnqueueStatus(tagged("a5", StatusKind::Okay, None, "idle done")))
    );
    assert_eq!(
        from_server(ServerEvent::ContinuationRequestReceived {
            continuation_request: ContinuationRequest::Basic {
                code: Some(Code::Capability(tokens(&["STARTTLS"]))),
                text: text("more"),
            },
        }),
        Some(ServerAction::EnqueueContinuationRequest(ContinuationRequest::Basic {
            code: Some(Code::Capability(tokens(&["IMAP4rev1"]))),
            text: text("more"),
        }))
    );
}

#[test]
fn authenticate_and_idle_answers_use_their_own_operations() {
    let request = || ContinuationRequest::<String>::Base64(b"challenge".to_vec());
    let idling = || ContinuationRequest::<String>::Basic { code: None, text: text("idling") };
    let status = || tagged("a1", StatusKind::No, Some(Code::Other("AUTHENTICATIONFAILED".into())), "no");
    assert_eq!(
        from_server(ServerEvent::AuthenticateContinuationRequestReceived {
            continuation_request: request(),
        }),
        Some(ServerAction::AuthenticateContinue(request()))
    );
    assert_eq!(
        from_server(ServerEvent::AuthenticateStatusReceived { status: status() }),
        Some(ServerAction::AuthenticateFinish(status()))
    );
    assert_eq!(
        from_server(ServerEvent::IdleAccepted { continuation_request: idling() }),
        Some(ServerAction::IdleAccept(idling()))
    );
    assert_eq!(
        from_server(ServerEvent::IdleRejected { status: status() }),
        Some(ServerAction::IdleReject(status()))
    );
}

#[test]
fn answers_of_the_sub_protocols_are_filtered_too() {
    let advertised = || Some(Code::<String>::Capability(tokens(&["IMAP4rev1", "STARTTLS"])));
    let allowed = || Some(Code::<String>::Capability(tokens(&["IMAP4rev1"])));
    let status = |code| tagged("a1", StatusKind::Okay, code, "welcome");
    let request = |code| ContinuationRequest::Basic { code, text: text("idling") };
    assert_eq!(
        from_server(ServerEvent::AuthenticateStatusReceived { status: status(advertised()) }),
        Some(ServerAction::AuthenticateFinish(status(allowed())))
    );
    assert_eq!(
        from_server(ServerEvent::IdleRejected { status: status(advertised()) }),
        Some(ServerAction::IdleReject(status(allowed())))
    );
    assert_eq!(
        from_server(ServerEvent::IdleAccepted { continuation_request: request(advertised()) }),
        Some(ServerAction::IdleAccept(request(allowed())))
    );
    assert_eq!(
        from_server(ServerEvent::AuthenticateContinuationRequestReceived {
            continuation_request: request(advertised()),
        }),
        Some(ServerAction::AuthenticateContinue(request(allowed())))
    );
}

#[test]
fn a_status_that_advertises_only_denied_capabilities_ends_authenticate_with_the_base() {
    let status = |list: &[&str]| {
        tagged("a1", StatusKind::Okay, Some(Code::Capability(tokens(list))), "welcome")
    };
    assert_eq!(
        from_server(ServerEvent::AuthenticateStatusReceived {
            status: status(&["STARTTLS", "compress=deflate"]),
        }),
        Some(ServerAction::AuthenticateFinish(status(&["IMAP4rev1"])))
    );
}

#[test]
fn actions_come_in_the_order_of_the_events() {
    let reports: Vec<Result<FromClient, ClientError>> = vec![
        Ok(ClientEvent::GreetingSent),
        Ok(ClientEvent::CommandReceived { command: "a1 CAPABILITY".into() }),
        Err(ClientError::MalformedMessage { discarded_bytes: b"???\r\n".to_vec() }),
        Ok(ClientEvent::CommandReceived { command: "a2 NOOP".into() }),
        Ok(ClientEvent::ResponseSent),
        Ok(ClientEvent::IdleCommandReceived { tag: "a3".into() }),
        Ok(ClientEvent::IdleDoneReceived),
    ];
    let actions: Vec<ToServer> = reports.into_iter().filter_map(handle_client_event).collect();
    assert_eq!(
        actions,
        vec![
            ClientAction::EnqueueCommand(Command::Plain("a1 CAPABILITY".into())),
            ClientAction::EnqueueCommand(Command::Plain("a2 NOOP".into())),
            ClientAction::EnqueueCommand(Command::Idle { tag: "a3".into() }),
            ClientAction::SetIdleDone,
        ]
    );
}
