//! The mathematical model of the browser: its state as plain values, and each
//! operation as a function from state to state.
//!
//! An operation that hands a request to the network takes one more argument,
//! `accepted`: whether the outbound queue took the request. That is the one
//! thing which the state does not decide.

use crate::address::{extracted_links, link_kind, parsed_url, LinkKind};
use crate::session::{advanced, decoded, request_line_of, shown, EventView, StatusView};
use crate::text::trimmed;
use vstd::prelude::*;

verus! {

/// The model of a history entry.
pub struct EntryView {
    pub server: Seq<char>,
    pub page: Seq<char>,
    pub content: Seq<char>,
    pub created_at: u64,
}

/// The model of the browser's state. `sent` lists the requests that the
/// outbound queue has accepted, oldest first.
pub struct BrowserView {
    pub address_bar: Seq<char>,
    pub current_content: Seq<char>,
    pub loading: bool,
    pub page_loading: bool,
    pub error: Option<Seq<char>>,
    pub connection_status: StatusView,
    pub server_address: Seq<char>,
    pub client_address: Seq<char>,
    pub history: Seq<EntryView>,
    pub current_history_index: int,
    pub page_load_start_time: Option<u64>,
    pub connection_attempted: bool,
    pub pending_navigation: Option<Seq<char>>,
    pub has_inbox: bool,
    pub has_outbound: bool,
    pub sent: Seq<(Seq<char>, Seq<char>)>,
}

/// The longest that a page may load, in nanoseconds: thirty seconds.
pub const PAGE_LOAD_TIMEOUT_NANOS: u64 = 30_000_000_000;

/// The error of a navigation while no server is set.
pub open spec fn no_server_message() -> Seq<char> {
    "No server address specified"@
}

/// The error of a navigation before the client's own address is known.
pub open spec fn no_client_address_message() -> Seq<char> {
    "Not connected yet - waiting for client address"@
}

/// The error of a navigation while no queue to the session is attached.
pub open spec fn no_session_message() -> Seq<char> {
    "Not connected to Mixnet"@
}

/// The error of a navigation whose request the queue did not take.
pub open spec fn queue_closed_message() -> Seq<char> {
    "Send error: "@ + "channel closed"@
}

/// The error of a page load that the watchdog gave up.
pub open spec fn timeout_message() -> Seq<char> {
    "Page load timeout - server not responding"@
}

/// The error of a click on a link of another scheme.
pub open spec fn unsupported_scheme_message() -> Seq<char> {
    "Unsupported link: only nym:// addresses and paths can be opened"@
}

/// The cursor points into the history, or the history is empty and the
/// cursor is 0.
pub open spec fn well_formed(v: BrowserView) -> bool {
    &&& 0 <= v.current_history_index
    &&& v.history.len() == 0 ==> v.current_history_index == 0
    &&& v.history.len() > 0 ==> v.current_history_index < v.history.len()
}

/// The state of a browser that has just been started.
pub open spec fn initial() -> BrowserView {
    BrowserView {
        address_bar: Seq::empty(),
        current_content: Seq::empty(),
        loading: true,
        page_loading: false,
        error: None,
        connection_status: StatusView::Connecting,
        server_address: Seq::empty(),
        client_address: Seq::empty(),
        history: Seq::empty(),
        current_history_index: 0,
        page_load_start_time: None,
        connection_attempted: false,
        pending_navigation: None,
        has_inbox: false,
        has_outbound: false,
        sent: Seq::empty(),
    }
}

/// `path` as a request names it: with a `/` in front unless it has one.
pub open spec fn normalized(path: Seq<char>) -> Seq<char> {
    if path.len() > 0 && path[0] == '/' {
        path
    } else {
        seq!['/'] + path
    }
}

/// The request for `path` in state `v`, or the reason why there is none: no
/// server is set, or the client's own address is not known yet.
pub open spec fn request_for(v: BrowserView, path: Seq<char>) -> Result<
    (Seq<char>, Seq<char>),
    Seq<char>,
> {
    if trimmed(v.server_address).len() == 0 {
        Err(no_server_message())
    } else if trimmed(v.client_address).len() == 0 {
        Err(no_client_address_message())
    } else {
        Ok((trimmed(v.server_address), request_line_of(path, trimmed(v.client_address))))
    }
}

/// How an attempt to send the request for `path` ends, where `accepted` says
/// whether the outbound queue took it.
pub open spec fn dispatch_outcome(v: BrowserView, path: Seq<char>, accepted: bool) -> Result<
    (),
    Seq<char>,
> {
    match request_for(v, path) {
        Err(reason) => Err(reason),
        Ok(_) => if !v.has_outbound {
            Err(no_session_message())
        } else if accepted {
            Ok(())
        } else {
            Err(queue_closed_message())
        },
    }
}

/// The state after that attempt: the request joins `sent` exactly when the
/// attempt succeeded.
pub open spec fn after_dispatch(v: BrowserView, path: Seq<char>, accepted: bool) -> BrowserView {
    match (request_for(v, path), dispatch_outcome(v, path, accepted)) {
        (Ok(request), Ok(_)) => BrowserView { sent: v.sent.push(request), ..v },
        _ => v,
    }
}

/// The model of the result of an attempt to send.
pub open spec fn outcome_of(res: Result<(), String>) -> Result<(), Seq<char>> {
    match res {
        Ok(_) => Ok(()),
        Err(reason) => Err(reason@),
    }
}

/// The state when a page load begins at time `now`.
pub open spec fn load_begun(v: BrowserView, now: u64) -> BrowserView {
    BrowserView { error: None, page_loading: true, page_load_start_time: Some(now), ..v }
}

/// The state when a page load has failed with `reason`.
pub open spec fn load_failed(v: BrowserView, reason: Seq<char>) -> BrowserView {
    BrowserView { error: Some(reason), page_loading: false, page_load_start_time: None, ..v }
}

/// The entries that stay when a new one is committed: those up to the
/// cursor.
pub open spec fn kept_history(v: BrowserView) -> Seq<EntryView> {
    if v.history.len() == 0 {
        v.history
    } else {
        v.history.take(v.current_history_index + 1)
    }
}

/// The entry that records what the browser shows.
pub open spec fn snapshot(v: BrowserView, now: u64) -> EntryView {
    EntryView {
        server: v.server_address,
        page: v.address_bar,
        content: v.current_content,
        created_at: now,
    }
}

/// The state after a new entry was committed: the entries behind the cursor
/// are gone, the snapshot is the last entry, and the cursor is on it.
pub open spec fn committed(v: BrowserView, now: u64) -> BrowserView {
    BrowserView {
        history: kept_history(v).push(snapshot(v, now)),
        current_history_index: kept_history(v).len() as int,
        ..v
    }
}

/// The state after the entry at `index` was put back on the screen.
pub open spec fn restored(v: BrowserView, index: int) -> BrowserView {
    BrowserView {
        server_address: v.history[index].server,
        address_bar: v.history[index].page,
        current_content: v.history[index].content,
        error: None,
        page_loading: false,
        page_load_start_time: None,
        current_history_index: index,
        ..v
    }
}

/// The state after a step back: the entry before the cursor is shown, where
/// there is one.
pub open spec fn after_back(v: BrowserView) -> BrowserView {
    if v.current_history_index > 0 {
        restored(v, v.current_history_index - 1)
    } else {
        v
    }
}

/// The state after a step forward: the entry behind the cursor is shown,
/// where there is one.
pub open spec fn after_forward(v: BrowserView) -> BrowserView {
    if v.current_history_index + 1 < v.history.len() {
        restored(v, v.current_history_index + 1)
    } else {
        v
    }
}

/// The state after the page `path` of the current server was asked for at
/// time `now`, by a request that names it as `request_path`. Where the
/// request was sent, an entry is committed and `path` stands in the address
/// bar; where it was not, the load has failed.
pub open spec fn after_request(
    v: BrowserView,
    path: Seq<char>,
    request_path: Seq<char>,
    now: u64,
    accepted: bool,
) -> BrowserView {
    let begun = load_begun(v, now);
    match dispatch_outcome(begun, request_path, accepted) {
        Ok(_) => BrowserView {
            address_bar: path,
            ..committed(after_dispatch(begun, request_path, accepted), now)
        },
        Err(reason) => load_failed(begun, reason),
    }
}

/// Whether a request that names `request_path`, made in state `v` at time
/// `now`, is sent.
pub open spec fn request_sent(
    v: BrowserView,
    request_path: Seq<char>,
    now: u64,
    accepted: bool,
) -> bool {
    dispatch_outcome(load_begun(v, now), request_path, accepted) is Ok
}

/// The state after a navigation to `path` at time `now`: the request names
/// the path with a `/` in front unless it has one.
pub open spec fn after_navigate(
    v: BrowserView,
    path: Seq<char>,
    now: u64,
    accepted: bool,
) -> BrowserView {
    after_request(v, path, normalized(path), now, accepted)
}

/// The state after the address `url` was taken apart: a full address sets
/// the server and leaves its path in the address bar; any other text goes to
/// the address bar, trimmed.
pub open spec fn address_set(v: BrowserView, url: Seq<char>) -> BrowserView {
    match parsed_url(url) {
        Some((server, page)) => BrowserView {
            server_address: trimmed(server),
            address_bar: page,
            ..v
        },
        None => BrowserView { address_bar: trimmed(url), ..v },
    }
}

/// The state after the address bar was submitted at time `now`.
pub open spec fn after_submit(v: BrowserView, now: u64, accepted: bool) -> BrowserView {
    let begun = load_begun(address_set(v, v.address_bar), now);
    let path = normalized(begun.address_bar);
    match dispatch_outcome(begun, path, accepted) {
        Ok(_) => committed(after_dispatch(begun, path, accepted), now),
        Err(reason) => load_failed(begun, reason),
    }
}

/// The state after a reload at time `now`: with no server set nothing
/// happens; the history stays as it is in every case.
pub open spec fn after_reload(v: BrowserView, now: u64, accepted: bool) -> BrowserView {
    if v.server_address.len() == 0 {
        v
    } else {
        let begun = load_begun(v, now);
        let path = normalized(begun.address_bar);
        match dispatch_outcome(begun, path, accepted) {
            Ok(_) => after_dispatch(begun, path, accepted),
            Err(reason) => load_failed(begun, reason),
        }
    }
}

/// The path on the current server that a link which names no peer leads to.
pub open spec fn local_target(href: Seq<char>) -> Seq<char> {
    match parsed_url(href) {
        Some((server, page)) => if page.len() == 0 {
            server
        } else {
            server + seq!['/'] + page
        },
        None => if href.len() > 0 && href[0] == '/' {
            href.skip(1)
        } else {
            href
        },
    }
}

/// The path by which the request for such a link names its page. Behind the
/// scheme the whole target follows a `/`, also where the target itself
/// begins with one; any other target gets a `/` in front unless it has one.
pub open spec fn local_request(href: Seq<char>) -> Seq<char> {
    match parsed_url(href) {
        Some(_) => seq!['/'] + local_target(href),
        None => normalized(local_target(href)),
    }
}

/// The state after a click on a link to another peer: the browser turns to
/// that peer, and turns back to the previous one where the request could not
/// be sent.
pub open spec fn after_external_link(
    v: BrowserView,
    server: Seq<char>,
    page: Seq<char>,
    now: u64,
    accepted: bool,
) -> BrowserView {
    let begun = load_begun(BrowserView { server_address: server, address_bar: page, ..v }, now);
    let path = seq!['/'] + page;
    match dispatch_outcome(begun, path, accepted) {
        Ok(_) => committed(after_dispatch(begun, path, accepted), now),
        Err(reason) => load_failed(
            BrowserView { server_address: v.server_address, ..begun },
            reason,
        ),
    }
}

/// The state after a click on the link `href` at time `now`.
pub open spec fn after_link_click(
    v: BrowserView,
    href: Seq<char>,
    now: u64,
    accepted: bool,
) -> BrowserView {
    match (link_kind(href), parsed_url(href)) {
        (LinkKind::ExternalMixAddress, Some((server, page))) => after_external_link(
            v,
            server,
            page,
            now,
            accepted,
        ),
        (LinkKind::UnsupportedScheme, _) => BrowserView {
            error: Some(unsupported_scheme_message()),
            ..v
        },
        _ => after_request(v, local_target(href), local_request(href), now, accepted),
    }
}

/// Whether a page load that began at `started` has run out at `now`.
pub open spec fn timed_out(started: u64, now: u64) -> bool {
    now - started > PAGE_LOAD_TIMEOUT_NANOS
}

/// The state after the watchdog looked at the clock.
pub open spec fn after_watchdog(v: BrowserView, now: u64) -> BrowserView {
    if v.page_loading && v.page_load_start_time is Some && timed_out(
        v.page_load_start_time->0,
        now,
    ) {
        load_failed(v, timeout_message())
    } else {
        v
    }
}

/// The state after one event of the session was taken in.
pub open spec fn after_event(v: BrowserView, event: EventView) -> BrowserView {
    match event {
        EventView::StatusChanged { status, local_address } => BrowserView {
            connection_status: advanced(v.connection_status, status),
            loading: advanced(v.connection_status, status) is Connecting,
            client_address: if local_address.len() > 0 {
                local_address
            } else {
                v.client_address
            },
            ..v
        },
        EventView::ContentReceived { raw_text } => BrowserView {
            current_content: shown(decoded(raw_text)),
            error: None,
            page_loading: false,
            page_load_start_time: None,
            ..v
        },
    }
}

/// The state after the events were taken in, in their order.
pub open spec fn after_events(v: BrowserView, events: Seq<EventView>) -> BrowserView
    decreases events.len(),
{
    if events.len() == 0 {
        v
    } else {
        after_event(after_events(v, events.drop_last()), events.last())
    }
}

/// The state after the link that waits to be opened, if there is one, was
/// opened at time `now`.
pub open spec fn after_pending(v: BrowserView, now: u64, accepted: bool) -> BrowserView {
    match v.pending_navigation {
        Some(href) => after_link_click(
            BrowserView { pending_navigation: None, ..v },
            href,
            now,
            accepted,
        ),
        None => v,
    }
}

/// The state after one tick at time `now` in which `events` had arrived.
pub open spec fn after_tick(
    v: BrowserView,
    now: u64,
    accepted: bool,
    events: Seq<EventView>,
) -> BrowserView {
    after_events(after_pending(after_watchdog(v, now), now, accepted), events)
}

/// The state after a click on the page: its first link waits to be opened.
pub open spec fn after_content_click(v: BrowserView) -> BrowserView {
    if extracted_links(v.current_content).len() > 0 {
        BrowserView { pending_navigation: Some(extracted_links(v.current_content)[0]), ..v }
    } else {
        v
    }
}

/// Whether a navigation to `path` in state `v` gets its request sent.
pub open spec fn navigation_sent(
    v: BrowserView,
    path: Seq<char>,
    now: u64,
    accepted: bool,
) -> bool {
    request_sent(v, normalized(path), now, accepted)
}

/// Whether submitting the address bar in state `v` gets its request sent.
pub open spec fn submit_sent(v: BrowserView, now: u64, accepted: bool) -> bool {
    let begun = load_begun(address_set(v, v.address_bar), now);
    dispatch_outcome(begun, normalized(begun.address_bar), accepted) is Ok
}

/// Whether a reload in state `v` gets its request sent.
pub open spec fn reload_sent(v: BrowserView, now: u64, accepted: bool) -> bool {
    v.server_address.len() > 0 && dispatch_outcome(
        load_begun(v, now),
        normalized(v.address_bar),
        accepted,
    ) is Ok
}

/// Whether a click on a link to the peer `server` gets its request sent.
pub open spec fn external_link_sent(
    v: BrowserView,
    server: Seq<char>,
    page: Seq<char>,
    now: u64,
    accepted: bool,
) -> bool {
    dispatch_outcome(
        load_begun(BrowserView { server_address: server, address_bar: page, ..v }, now),
        seq!['/'] + page,
        accepted,
    ) is Ok
}

/// Whether a click on the link `href` in state `v` gets a request sent.
pub open spec fn link_click_sent(
    v: BrowserView,
    href: Seq<char>,
    now: u64,
    accepted: bool,
) -> bool {
    match (link_kind(href), parsed_url(href)) {
        (LinkKind::ExternalMixAddress, Some((server, page))) => external_link_sent(
            v,
            server,
            page,
            now,
            accepted,
        ),
        (LinkKind::UnsupportedScheme, _) => false,
        _ => request_sent(v, local_request(href), now, accepted),
    }
}

/// The state after the first call for a connection: the inbox exists and the
/// attempt is recorded. Every later call leaves the state as it is.
pub open spec fn after_init(v: BrowserView) -> BrowserView {
    if v.connection_attempted {
        v
    } else {
        BrowserView { connection_attempted: true, has_inbox: true, ..v }
    }
}

/// The state of a copy of the browser: what it shows and its history, but no
/// queue to or from the session, no link that waits, and no running timer.
pub open spec fn detached(v: BrowserView) -> BrowserView {
    BrowserView {
        has_inbox: false,
        has_outbound: false,
        sent: Seq::empty(),
        pending_navigation: None,
        page_load_start_time: None,
        ..v
    }
}

/// Whether the controls may start a navigation: the connection is made, no
/// page is loading, and the address bar holds more than white space.
pub open spec fn may_navigate(v: BrowserView) -> bool {
    !v.loading && !v.page_loading && trimmed(v.address_bar).len() > 0
}

/// How long the current page load has lasted at `now`, in nanoseconds.
pub open spec fn load_time(v: BrowserView, now: u64) -> Option<int> {
    if v.page_loading && v.page_load_start_time is Some {
        if now >= v.page_load_start_time->0 {
            Some(now - v.page_load_start_time->0)
        } else {
            Some(0)
        }
    } else {
        None
    }
}

/// Whether opening the link that waits in state `v` gets a request sent.
pub open spec fn pending_sent(v: BrowserView, now: u64, accepted: bool) -> bool {
    match v.pending_navigation {
        Some(href) => link_click_sent(
            BrowserView { pending_navigation: None, ..v },
            href,
            now,
            accepted,
        ),
        None => false,
    }
}

} // verus!
