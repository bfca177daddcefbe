use nymview::bridge::{
    inbound_event, report_dispatch, ConnectOutcome, DispatchResult, SessionManager,
};
use nymview::session::{
    decode_reply, request_line, ConnectionStatus, NavigationRequest, ServerReply, SessionEvent,
};

fn content_of(event: Option<SessionEvent>) -> String {
    match event {
        Some(SessionEvent::ContentReceived { raw_text }) => raw_text,
        other => panic!("expected content, got {:?}", other),
    }
}

#[test]
fn request_line_has_the_fixed_form() {
    assert_eq!(request_line("/about", "me.addr@gw"), "GET /about FROM me.addr@gw");
    assert_eq!(request_line("/", "x"), "GET / FROM x");
    assert_eq!(request_line("", ""), "GET  FROM ");
}

#[test]
fn navigation_request_holds_recipient_and_line() {
    let request = NavigationRequest {
        recipient_address: "srv".to_string(),
        request_line: request_line("/p", "me"),
    };
    assert_eq!(request.recipient_address, "srv");
    assert_eq!(request.request_line, "GET /p FROM me");
}

#[test]
fn reply_with_marker_is_a_page() {
    match decode_reply("OK\nHello".to_string()) {
        ServerReply::Page { content } => assert_eq!(content, "Hello"),
        other => panic!("{:?}", other),
    }
    match decode_reply("OK\n".to_string()) {
        ServerReply::Page { content } => assert_eq!(content, ""),
        other => panic!("{:?}", other),
    }
    match decode_reply("OK\nOK\nß".to_string()) {
        ServerReply::Page { content } => assert_eq!(content, "OK\nß"),
        other => panic!("{:?}", other),
    }
}

#[test]
fn reply_without_marker_is_verbatim() {
    for raw in ["ERROR: x", "OK", "OK Hello", "", "ok\nHello", " OK\nHello"] {
        match decode_reply(raw.to_string()) {
            ServerReply::Verbatim { text } => assert_eq!(text, raw),
            other => panic!("{:?}", other),
        }
    }
}

#[test]
fn reply_content_is_what_is_shown() {
    assert_eq!(decode_reply("OK\nHello".to_string()).into_content(), "Hello");
    assert_eq!(decode_reply("ERROR: x".to_string()).into_content(), "ERROR: x");
}

#[test]
fn status_only_leaves_connecting() {
    let s = ConnectionStatus::Connecting.advance(ConnectionStatus::Connected);
    assert!(matches!(s, ConnectionStatus::Connected));
    let s = s.advance(ConnectionStatus::Connecting);
    assert!(matches!(s, ConnectionStatus::Connected));
    let s = s.advance(ConnectionStatus::Failed("late".to_string()));
    assert!(matches!(s, ConnectionStatus::Connected));
    let f = ConnectionStatus::Connecting.advance(ConnectionStatus::Failed("no route".to_string()));
    assert!(matches!(f, ConnectionStatus::Failed(ref r) if r == "no route"));
    let f = f.advance(ConnectionStatus::Connected);
    assert!(matches!(f, ConnectionStatus::Failed(ref r) if r == "no route"));
    let c = ConnectionStatus::Connecting.advance(ConnectionStatus::Connecting);
    assert!(c.is_connecting());
}

#[test]
fn status_text() {
    assert_eq!(ConnectionStatus::Connecting.text(), "Connecting to Mixnet...");
    assert_eq!(ConnectionStatus::Connected.text(), "Connected");
    assert_eq!(
        ConnectionStatus::Failed("no route".to_string()).text(),
        "Connection failed: no route"
    );
    assert!(ConnectionStatus::Connecting.is_connecting());
    assert!(!ConnectionStatus::Connected.is_connecting());
    assert!(!ConnectionStatus::Failed(String::new()).is_connecting());
}

#[test]
fn status_and_event_clone() {
    let s = ConnectionStatus::Failed("x".to_string()).clone();
    assert!(matches!(s, ConnectionStatus::Failed(ref r) if r == "x"));
    let e = SessionEvent::StatusChanged {
        status: ConnectionStatus::Connected,
        local_address: "me".to_string(),
    }
    .clone();
    assert!(matches!(
        e,
        SessionEvent::StatusChanged { status: ConnectionStatus::Connected, ref local_address }
            if local_address == "me"
    ));
    let c = SessionEvent::ContentReceived { raw_text: "t".to_string() }.clone();
    assert!(matches!(c, SessionEvent::ContentReceived { ref raw_text } if raw_text == "t"));
}

#[test]
fn manager_starts_once() {
    let mut m = SessionManager::new();
    assert!(m.status().is_connecting());
    assert_eq!(m.local_address(), "");
    match m.start() {
        Some(SessionEvent::StatusChanged { status, local_address }) => {
            assert!(status.is_connecting());
            assert_eq!(local_address, "");
        }
        other => panic!("{:?}", other),
    }
    assert!(m.start().is_none());
    assert!(m.start().is_none());
}

#[test]
fn manager_establishes_the_session() {
    let mut m = SessionManager::new();
    m.start();
    let step = m.conclude(ConnectOutcome::Established { local_address: "me.x@gw".to_string() });
    assert!(step.start_bridge);
    assert!(step.log_line.is_none());
    match step.event {
        Some(SessionEvent::StatusChanged { status, local_address }) => {
            assert!(matches!(status, ConnectionStatus::Connected));
            assert_eq!(local_address, "me.x@gw");
        }
        other => panic!("{:?}", other),
    }
    assert!(matches!(m.status(), ConnectionStatus::Connected));
    assert_eq!(m.local_address(), "me.x@gw");

    let again = m.conclude(ConnectOutcome::Established { local_address: "other".to_string() });
    assert!(again.event.is_none());
    assert!(!again.start_bridge);
    assert_eq!(m.local_address(), "me.x@gw");
}

#[test]
fn manager_ignores_an_outcome_before_the_start() {
    let mut m = SessionManager::new();
    let step = m.conclude(ConnectOutcome::Established { local_address: "me".to_string() });
    assert!(step.event.is_none());
    assert!(!step.start_bridge);
    assert!(m.status().is_connecting());
    assert_eq!(m.local_address(), "");
}

#[test]
fn manager_stays_connecting_after_a_failure() {
    let mut m = SessionManager::new();
    m.start();
    let step =
        m.conclude(ConnectOutcome::ClientCreationFailed { reason: "bad config".to_string() });
    assert!(step.event.is_none());
    assert!(!step.start_bridge);
    assert_eq!(
        step.log_line.as_deref(),
        Some("Connection failed: Client creation error: bad config")
    );
    assert!(m.status().is_connecting());

    let step = m.conclude(ConnectOutcome::HandshakeFailed { reason: "no gateway".to_string() });
    assert!(step.event.is_none());
    assert!(!step.start_bridge);
    assert_eq!(
        step.log_line.as_deref(),
        Some("Connection failed: Connection error: no gateway")
    );
    assert!(m.status().is_connecting());
    assert_eq!(m.local_address(), "");
}

#[test]
fn bridge_reports_failures_as_content() {
    assert!(report_dispatch(DispatchResult::Delivered).is_none());
    assert_eq!(
        content_of(report_dispatch(DispatchResult::InvalidAddress {
            reason: "bad length".to_string()
        })),
        "ERROR: Invalid address - bad length"
    );
    assert_eq!(
        content_of(report_dispatch(DispatchResult::TransportFailure {
            reason: "closed".to_string()
        })),
        "ERROR: closed"
    );
}

#[test]
fn bridge_decodes_inbound_payloads() {
    assert_eq!(content_of(Some(inbound_event(b"OK\nHello"))), "OK\nHello");
    assert_eq!(content_of(Some(inbound_event("grüß".as_bytes()))), "grüß");
    assert_eq!(content_of(Some(inbound_event(b""))), "");
    assert_eq!(content_of(Some(inbound_event(b"a\xffb"))), "a\u{FFFD}b");
}
