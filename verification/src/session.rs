//! The values that travel between the browser and the network session, and
//! the text conventions of the requests and responses.

use crate::text::occurs_at;
use crate::text::{chars_of, has_at, slice_of};
use vstd::prelude::*;
use vstd::string::*;

verus! {

/// Where the connection to the mixnet stands.
#[derive(Debug)]
pub enum ConnectionStatus {
    /// The connection attempt is under way.
    Connecting,
    /// The session is established.
    Connected,
    /// The attempt failed, for the given reason.
    Failed(String),
}

/// The model of a `ConnectionStatus`.
pub enum StatusView {
    Connecting,
    Connected,
    Failed(Seq<char>),
}

impl View for ConnectionStatus {
    type V = StatusView;

    open spec fn view(&self) -> StatusView {
        match self {
            ConnectionStatus::Connecting => StatusView::Connecting,
            ConnectionStatus::Connected => StatusView::Connected,
            ConnectionStatus::Failed(reason) => StatusView::Failed(reason@),
        }
    }
}

impl Clone for ConnectionStatus {
    fn clone(&self) -> (res: Self)
        ensures
            res@ == self@,
    {
        match self {
            ConnectionStatus::Connecting => ConnectionStatus::Connecting,
            ConnectionStatus::Connected => ConnectionStatus::Connected,
            ConnectionStatus::Failed(reason) => ConnectionStatus::Failed(reason.clone()),
        }
    }
}

/// The status after `next` was reported while the status was `current`: a
/// status only ever leaves `Connecting`.
pub open spec fn advanced(current: StatusView, next: StatusView) -> StatusView {
    if current is Connecting {
        next
    } else {
        current
    }
}

/// The line that shows the status `status`.
pub open spec fn status_line(status: StatusView) -> Seq<char> {
    match status {
        StatusView::Connecting => "Connecting to Mixnet..."@,
        StatusView::Connected => "Connected"@,
        StatusView::Failed(reason) => "Connection failed: "@ + reason,
    }
}

impl ConnectionStatus {
    /// Whether the connection attempt is still under way.
    pub fn is_connecting(&self) -> (b: bool)
        ensures
            b == (self@ is Connecting),
    {
        match self {
            ConnectionStatus::Connecting => true,
            _ => false,
        }
    }

    /// Takes over the reported status `next`, unless this status is final.
    pub fn advance(self, next: ConnectionStatus) -> (res: ConnectionStatus)
        ensures
            res@ == advanced(self@, next@),
    {
        match self {
            ConnectionStatus::Connecting => next,
            other => other,
        }
    }

    /// The line that shows this status to the user.
    pub fn text(&self) -> (line: String)
        ensures
            line@ == status_line(self@),
    {
        match self {
            ConnectionStatus::Connecting => String::from_str("Connecting to Mixnet..."),
            ConnectionStatus::Connected => String::from_str("Connected"),
            ConnectionStatus::Failed(reason) => {
                let mut line = String::from_str("Connection failed: ");
                line.append(reason.as_str());
                line
            },
        }
    }
}

/// What the network session reports to the browser.
#[derive(Debug)]
pub enum SessionEvent {
    /// The connection status changed; `local_address` is empty until the
    /// session knows its own address.
    StatusChanged { status: ConnectionStatus, local_address: String },
    /// A message arrived, decoded as text.
    ContentReceived { raw_text: String },
}

/// The model of a `SessionEvent`.
pub enum EventView {
    StatusChanged { status: StatusView, local_address: Seq<char> },
    ContentReceived { raw_text: Seq<char> },
}

impl View for SessionEvent {
    type V = EventView;

    open spec fn view(&self) -> EventView {
        match self {
            SessionEvent::StatusChanged { status, local_address } => EventView::StatusChanged {
                status: status@,
                local_address: local_address@,
            },
            SessionEvent::ContentReceived { raw_text } => EventView::ContentReceived {
                raw_text: raw_text@,
            },
        }
    }
}

impl Clone for SessionEvent {
    fn clone(&self) -> (res: Self)
        ensures
            res@ == self@,
    {
        match self {
            SessionEvent::StatusChanged { status, local_address } => SessionEvent::StatusChanged {
                status: status.clone(),
                local_address: local_address.clone(),
            },
            SessionEvent::ContentReceived { raw_text } => SessionEvent::ContentReceived {
                raw_text: raw_text.clone(),
            },
        }
    }
}

/// The models of the events `events`, in their order.
pub open spec fn views_of(events: Seq<SessionEvent>) -> Seq<EventView> {
    Seq::new(events.len(), |i: int| events[i]@)
}

/// A request for a page: the peer that is asked, and the line sent to it.
#[derive(Debug)]
pub struct NavigationRequest {
    pub recipient_address: String,
    pub request_line: String,
}

impl View for NavigationRequest {
    type V = (Seq<char>, Seq<char>);

    open spec fn view(&self) -> (Seq<char>, Seq<char>) {
        (self.recipient_address@, self.request_line@)
    }
}

/// The request line for the page at `path`, asked by the client at
/// `local_address`.
pub open spec fn request_line_of(path: Seq<char>, local_address: Seq<char>) -> Seq<char> {
    "GET "@ + path + " FROM "@ + local_address
}

/// Builds the request line `GET <path> FROM <local_address>`.
pub fn request_line(path: &str, local_address: &str) -> (line: String)
    ensures
        line@ == request_line_of(path@, local_address@),
{
    let mut line = String::from_str("GET ");
    line.append(path);
    line.append(" FROM ");
    line.append(local_address);
    line
}

/// The marker that opens a successful response.
pub open spec fn ok_marker() -> Seq<char> {
    "OK\n"@
}

/// A response, told apart once where it arrives.
#[derive(Debug)]
pub enum ServerReply {
    /// The response carried the marker; `content` is what follows it.
    Page { content: String },
    /// Any other response, such as an error text; shown as it is.
    Verbatim { text: String },
}

/// The model of a `ServerReply`.
pub enum ReplyView {
    Page { content: Seq<char> },
    Verbatim { text: Seq<char> },
}

impl View for ServerReply {
    type V = ReplyView;

    open spec fn view(&self) -> ReplyView {
        match self {
            ServerReply::Page { content } => ReplyView::Page { content: content@ },
            ServerReply::Verbatim { text } => ReplyView::Verbatim { text: text@ },
        }
    }
}

/// The reply that the response text `raw` stands for.
pub open spec fn decoded(raw: Seq<char>) -> ReplyView {
    if occurs_at(raw, ok_marker(), 0) {
        ReplyView::Page { content: raw.skip(ok_marker().len() as int) }
    } else {
        ReplyView::Verbatim { text: raw }
    }
}

/// The text that a reply puts on the page.
pub open spec fn shown(reply: ReplyView) -> Seq<char> {
    match reply {
        ReplyView::Page { content } => content,
        ReplyView::Verbatim { text } => text,
    }
}

/// Tells a successful response from any other, and strips its marker.
pub fn decode_reply(raw: String) -> (reply: ServerReply)
    ensures
        reply@ == decoded(raw@),
{
    let chars = chars_of(raw.as_str());
    let marker = chars_of("OK\n");
    if has_at(&chars, &marker, 0) {
        let content = slice_of(raw.as_str(), marker.len(), chars.len());
        assert(raw@.subrange(marker.len() as int, chars.len() as int) =~= raw@.skip(
            ok_marker().len() as int,
        ));
        ServerReply::Page { content }
    } else {
        ServerReply::Verbatim { text: raw }
    }
}

impl ServerReply {
    /// The text that this reply puts on the page.
    pub fn into_content(self) -> (content: String)
        ensures
            content@ == shown(self@),
    {
        match self {
            ServerReply::Page { content } => content,
            ServerReply::Verbatim { text } => text,
        }
    }
}

} // verus!
