//! The decisions of the network side: how the connection attempt proceeds,
//! and what the bridge reports for each message and each request.
//!
//! The work itself (the handshake, the sending and the waiting) is the
//! caller's: it reports what happened and gets back what to do next.

use crate::channel::{decode_lossy, lossy_text};
use crate::session::{ConnectionStatus, EventView, SessionEvent, StatusView};
use vstd::prelude::*;
use vstd::string::*;
use vstd::utf8::{decode_utf8, valid_utf8};

verus! {

/// How the attempt to connect ended.
#[derive(Debug)]
pub enum ConnectOutcome {
    /// The session stands; `local_address` is the client's own address.
    Established { local_address: String },
    /// No client could be made.
    ClientCreationFailed { reason: String },
    /// The client could not connect.
    HandshakeFailed { reason: String },
}

/// The model of a `ConnectOutcome`.
pub enum OutcomeView {
    Established { local_address: Seq<char> },
    ClientCreationFailed { reason: Seq<char> },
    HandshakeFailed { reason: Seq<char> },
}

impl View for ConnectOutcome {
    type V = OutcomeView;

    open spec fn view(&self) -> OutcomeView {
        match self {
            ConnectOutcome::Established { local_address } => OutcomeView::Established {
                local_address: local_address@,
            },
            ConnectOutcome::ClientCreationFailed { reason } => OutcomeView::ClientCreationFailed {
                reason: reason@,
            },
            ConnectOutcome::HandshakeFailed { reason } => OutcomeView::HandshakeFailed {
                reason: reason@,
            },
        }
    }
}

/// What follows from the end of the connection attempt.
#[derive(Debug)]
pub struct ConnectStep {
    /// The event to report to the browser.
    pub event: Option<SessionEvent>,
    /// Whether the bridge is to be started.
    pub start_bridge: bool,
    /// The line to write to the log.
    pub log_line: Option<String>,
}

/// The model of a `ConnectStep`.
pub struct StepView {
    pub event: Option<EventView>,
    pub start_bridge: bool,
    pub log_line: Option<Seq<char>>,
}

impl View for ConnectStep {
    type V = StepView;

    open spec fn view(&self) -> StepView {
        StepView {
            event: match self.event {
                Some(event) => Some(event@),
                None => None,
            },
            start_bridge: self.start_bridge,
            log_line: match self.log_line {
                Some(line) => Some(line@),
                None => None,
            },
        }
    }
}

/// The model of the session manager.
pub struct ManagerView {
    pub status: StatusView,
    pub local_address: Seq<char>,
    pub started: bool,
}

/// The manager before anything was started.
pub open spec fn idle() -> ManagerView {
    ManagerView { status: StatusView::Connecting, local_address: Seq::empty(), started: false }
}

/// The event that opens the one connection attempt.
pub open spec fn connecting_event() -> EventView {
    EventView::StatusChanged { status: StatusView::Connecting, local_address: Seq::empty() }
}

/// Whether the outcome `outcome` establishes the session of manager `m`: an
/// attempt is under way, and it succeeded.
pub open spec fn establishes(m: ManagerView, outcome: OutcomeView) -> bool {
    m.started && m.status is Connecting && outcome is Established
}

/// The manager after the outcome `outcome` of the attempt. A failure leaves
/// the status at `Connecting`: there is no retry and no state of failure.
pub open spec fn concluded(m: ManagerView, outcome: OutcomeView) -> ManagerView {
    match outcome {
        OutcomeView::Established { local_address } => if establishes(m, outcome) {
            ManagerView { status: StatusView::Connected, local_address, ..m }
        } else {
            m
        },
        _ => m,
    }
}

/// What follows from the outcome `outcome` of the attempt.
pub open spec fn step_for(m: ManagerView, outcome: OutcomeView) -> StepView {
    match outcome {
        OutcomeView::Established { local_address } => if establishes(m, outcome) {
            StepView {
                event: Some(
                    EventView::StatusChanged { status: StatusView::Connected, local_address },
                ),
                start_bridge: true,
                log_line: None,
            }
        } else {
            StepView { event: None, start_bridge: false, log_line: None }
        },
        OutcomeView::ClientCreationFailed { reason } => StepView {
            event: None,
            start_bridge: false,
            log_line: Some("Connection failed: "@ + "Client creation error: "@ + reason),
        },
        OutcomeView::HandshakeFailed { reason } => StepView {
            event: None,
            start_bridge: false,
            log_line: Some("Connection failed: "@ + "Connection error: "@ + reason),
        },
    }
}

/// The connection's lifecycle: one attempt, its status, and the client's own
/// address once it is known.
pub struct SessionManager {
    status: ConnectionStatus,
    local_address: String,
    started: bool,
}

impl View for SessionManager {
    type V = ManagerView;

    closed spec fn view(&self) -> ManagerView {
        ManagerView {
            status: self.status@,
            local_address: self.local_address@,
            started: self.started,
        }
    }
}

impl SessionManager {
    /// A manager that has started nothing yet.
    pub fn new() -> (manager: Self)
        ensures
            manager@ == idle(),
    {
        SessionManager {
            status: ConnectionStatus::Connecting,
            local_address: String::new(),
            started: false,
        }
    }

    /// Starts the one connection attempt: the first call returns the event
    /// that announces it, every later call changes nothing and returns
    /// `None`.
    pub fn start(&mut self) -> (event: Option<SessionEvent>)
        ensures
            final(self)@ == (ManagerView { started: true, ..old(self)@ }),
            match event {
                Some(e) => !old(self)@.started && e@ == connecting_event(),
                None => old(self)@.started,
            },
    {
        if self.started {
            return None;
        }
        self.started = true;
        Some(
            SessionEvent::StatusChanged {
                status: ConnectionStatus::Connecting,
                local_address: String::new(),
            },
        )
    }

    /// Takes in how the attempt ended, and says what follows: on success the
    /// status becomes `Connected`, the address is kept, the browser hears of
    /// both and the bridge is to be started; on failure a line goes to the
    /// log and the status stays as it is.
    pub fn conclude(&mut self, outcome: ConnectOutcome) -> (step: ConnectStep)
        ensures
            final(self)@ == concluded(old(self)@, outcome@),
            step@ == step_for(old(self)@, outcome@),
    {
        match outcome {
            ConnectOutcome::Established { local_address } => {
                if self.started && self.status.is_connecting() {
                    self.status = ConnectionStatus::Connected;
                    self.local_address = local_address.clone();
                    ConnectStep {
                        event: Some(
                            SessionEvent::StatusChanged {
                                status: ConnectionStatus::Connected,
                                local_address,
                            },
                        ),
                        start_bridge: true,
                        log_line: None,
                    }
                } else {
                    ConnectStep { event: None, start_bridge: false, log_line: None }
                }
            },
            ConnectOutcome::ClientCreationFailed { reason } => {
                let mut line = String::from_str("Connection failed: ");
                line.append("Client creation error: ");
                line.append(reason.as_str());
                ConnectStep { event: None, start_bridge: false, log_line: Some(line) }
            },
            ConnectOutcome::HandshakeFailed { reason } => {
                let mut line = String::from_str("Connection failed: ");
                line.append("Connection error: ");
                line.append(reason.as_str());
                ConnectStep { event: None, start_bridge: false, log_line: Some(line) }
            },
        }
    }

    /// Where the connection stands.
    pub fn status(&self) -> (status: ConnectionStatus)
        ensures
            status@ == self@.status,
    {
        self.status.clone()
    }

    /// The client's own address; empty until the session is established.
    pub fn local_address(&self) -> (address: String)
        ensures
            address@ == self@.local_address,
    {
        self.local_address.clone()
    }
}

/// How the bridge fared with one request.
#[derive(Debug)]
pub enum DispatchResult {
    /// The request went out.
    Delivered,
    /// The recipient is no address of a peer.
    InvalidAddress { reason: String },
    /// The transport could not send the request.
    TransportFailure { reason: String },
}

/// The model of a `DispatchResult`.
pub enum DispatchView {
    Delivered,
    InvalidAddress { reason: Seq<char> },
    TransportFailure { reason: Seq<char> },
}

impl View for DispatchResult {
    type V = DispatchView;

    open spec fn view(&self) -> DispatchView {
        match self {
            DispatchResult::Delivered => DispatchView::Delivered,
            DispatchResult::InvalidAddress { reason } => DispatchView::InvalidAddress {
                reason: reason@,
            },
            DispatchResult::TransportFailure { reason } => DispatchView::TransportFailure {
                reason: reason@,
            },
        }
    }
}

/// What the bridge reports to the browser about one request: nothing where
/// it went out, and the error as content where it did not.
pub open spec fn dispatch_report(result: DispatchView) -> Option<EventView> {
    match result {
        DispatchView::Delivered => None,
        DispatchView::InvalidAddress { reason } => Some(
            EventView::ContentReceived { raw_text: "ERROR: Invalid address - "@ + reason },
        ),
        DispatchView::TransportFailure { reason } => Some(
            EventView::ContentReceived { raw_text: "ERROR: "@ + reason },
        ),
    }
}

/// The event, if any, that tells the browser how a request fared.
pub fn report_dispatch(result: DispatchResult) -> (event: Option<SessionEvent>)
    ensures
        match event {
            Some(e) => dispatch_report(result@) == Some(e@),
            None => dispatch_report(result@) is None,
        },
{
    match result {
        DispatchResult::Delivered => None,
        DispatchResult::InvalidAddress { reason } => {
            let mut text = String::from_str("ERROR: Invalid address - ");
            text.append(reason.as_str());
            Some(SessionEvent::ContentReceived { raw_text: text })
        },
        DispatchResult::TransportFailure { reason } => {
            let mut text = String::from_str("ERROR: ");
            text.append(reason.as_str());
            Some(SessionEvent::ContentReceived { raw_text: text })
        },
    }
}

/// The event for a message that arrived from the network: its payload,
/// decoded as text.
pub fn inbound_event(payload: &[u8]) -> (event: SessionEvent)
    ensures
        event@ == (EventView::ContentReceived { raw_text: lossy_text(payload@) }),
        valid_utf8(payload@) ==> event@ == (EventView::ContentReceived {
            raw_text: decode_utf8(payload@),
        }),
{
    SessionEvent::ContentReceived { raw_text: decode_lossy(payload) }
}

} // verus!
