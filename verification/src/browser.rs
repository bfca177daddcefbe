//! The browser's state and the operations on it. Each operation states the
//! state that it leaves as a function of the model in `crate::model`.

use crate::address::{
    classify_link, extract_links, neutralize_links, parse_nym_url, plain_text, LinkKind,
};
use crate::channel::{accepted, enqueue, open_inbox, poll, send_error_text, waiting};
use crate::model::{
    address_set, after_back, after_content_click, after_dispatch, after_event, after_events,
    after_external_link, after_forward, after_init, after_link_click, after_navigate,
    after_pending, after_reload, after_request, after_submit, after_tick, after_watchdog,
    committed, detached,
    dispatch_outcome, external_link_sent, initial, link_click_sent, load_begun, load_failed,
    load_time, local_request, local_target, may_navigate, navigation_sent, normalized,
    outcome_of, pending_sent, request_sent,
    reload_sent, request_for, restored, submit_sent, well_formed, BrowserView, EntryView,
    PAGE_LOAD_TIMEOUT_NANOS,
};
use crate::session::{
    decode_reply, request_line, views_of, ConnectionStatus, EventView, NavigationRequest,
    SessionEvent,
};
use crate::text::{slice_of, trim};
use tokio::sync::mpsc::{UnboundedReceiver, UnboundedSender};
use vstd::prelude::*;
use vstd::string::*;

verus! {

/// A page that the browser once showed, as it was when the entry was made.
#[derive(Debug)]
pub struct HistoryEntry {
    pub server: String,
    pub page: String,
    pub content: String,
    /// When the entry was made, in nanoseconds on the caller's clock.
    pub created_at: u64,
}

impl View for HistoryEntry {
    type V = EntryView;

    open spec fn view(&self) -> EntryView {
        EntryView {
            server: self.server@,
            page: self.page@,
            content: self.content@,
            created_at: self.created_at,
        }
    }
}

impl DeepView for HistoryEntry {
    type V = EntryView;

    open spec fn deep_view(&self) -> EntryView {
        self@
    }
}

impl Clone for HistoryEntry {
    fn clone(&self) -> (res: Self)
        ensures
            res@ == self@,
    {
        HistoryEntry {
            server: self.server.clone(),
            page: self.page.clone(),
            content: self.content.clone(),
            created_at: self.created_at,
        }
    }
}

/// The state of the browser: what the address bar and the page show, how the
/// connection and the current page load stand, and the history with its
/// cursor.
pub struct NymMixnetBrowser {
    /// The text of the address bar.
    pub address_bar: String,
    /// The page that is shown.
    pub current_content: String,
    /// Whether the connection is still being made.
    pub loading: bool,
    /// Whether a page load is under way.
    pub page_loading: bool,
    /// The error to show, if any.
    pub error: Option<String>,
    /// Where the connection stands.
    pub connection_status: ConnectionStatus,
    /// The peer whose pages are requested.
    pub server_address: String,
    /// The client's own address; empty until the session reports it.
    pub client_address: String,
    /// The queue on which the session's events arrive.
    message_receiver: Option<UnboundedReceiver<SessionEvent>>,
    /// The queue on which requests leave.
    request_sender: Option<UnboundedSender<NavigationRequest>>,
    history: Vec<HistoryEntry>,
    connection_attempted: bool,
    /// The link that waits to be opened at the next tick.
    pending_navigation: Option<String>,
    current_history_index: usize,
    /// When the current page load began, in nanoseconds on the caller's
    /// clock.
    page_load_start_time: Option<u64>,
}

/// The model of an optional string.
pub open spec fn text_of(text: Option<String>) -> Option<Seq<char>> {
    match text {
        Some(t) => Some(t@),
        None => None,
    }
}

impl View for NymMixnetBrowser {
    type V = BrowserView;

    closed spec fn view(&self) -> BrowserView {
        BrowserView {
            address_bar: self.address_bar@,
            current_content: self.current_content@,
            loading: self.loading,
            page_loading: self.page_loading,
            error: text_of(self.error),
            connection_status: self.connection_status@,
            server_address: self.server_address@,
            client_address: self.client_address@,
            history: self.history.deep_view(),
            current_history_index: self.current_history_index as int,
            page_load_start_time: self.page_load_start_time,
            connection_attempted: self.connection_attempted,
            pending_navigation: text_of(self.pending_navigation),
            has_inbox: self.message_receiver is Some,
            has_outbound: self.request_sender is Some,
            sent: match self.request_sender {
                Some(sender) => accepted(sender),
                None => Seq::empty(),
            },
        }
    }
}

impl NymMixnetBrowser {
    /// The invariant of the state: the cursor points into the history.
    pub open spec fn wf(&self) -> bool {
        well_formed(self@)
    }

    /// A browser at startup: nothing shown, no history, the connection still
    /// to be made.
    pub fn new() -> (browser: Self)
        ensures
            browser@ == initial(),
            browser.wf(),
    {
        let browser = NymMixnetBrowser {
            address_bar: String::new(),
            current_content: String::new(),
            loading: true,
            page_loading: false,
            error: None,
            connection_status: ConnectionStatus::Connecting,
            server_address: String::new(),
            client_address: String::new(),
            message_receiver: None,
            request_sender: None,
            history: Vec::new(),
            connection_attempted: false,
            pending_navigation: None,
            current_history_index: 0,
            page_load_start_time: None,
        };
        assert(browser.history.deep_view() =~= Seq::<EntryView>::empty());
        browser
    }

    /// Commits what the browser shows as a new history entry: the entries
    /// behind the cursor go, the new entry is the last, and the cursor is on
    /// it.
    pub fn add_to_history(&mut self, now: u64)
        requires
            old(self).wf(),
        ensures
            final(self)@ == committed(old(self)@, now),
            final(self).wf(),
    {
        if self.history.len() > 0 {
            self.history.truncate(self.current_history_index + 1);
        }
        let entry = HistoryEntry {
            server: self.server_address.clone(),
            page: self.address_bar.clone(),
            content: self.current_content.clone(),
            created_at: now,
        };
        self.history.push(entry);
        self.current_history_index = self.history.len() - 1;
        assert(self@.history =~= committed(old(self)@, now).history);
    }

    /// Puts the entry at `index` back on the screen and moves the cursor
    /// there.
    fn restore(&mut self, index: usize)
        requires
            old(self).wf(),
            index < old(self)@.history.len(),
        ensures
            final(self)@ == restored(old(self)@, index as int),
            final(self).wf(),
    {
        let entry = self.history[index].clone();
        self.server_address = entry.server;
        self.address_bar = entry.page;
        self.current_content = entry.content;
        self.error = None;
        self.page_loading = false;
        self.page_load_start_time = None;
        self.current_history_index = index;
    }

    /// Steps back in the history, where there is an earlier entry, and shows
    /// it as it was recorded. Nothing is sent.
    pub fn go_back(&mut self)
        requires
            old(self).wf(),
        ensures
            final(self)@ == after_back(old(self)@),
            final(self).wf(),
    {
        if self.current_history_index > 0 {
            self.restore(self.current_history_index - 1);
        }
    }

    /// Steps forward in the history, where there is a later entry, and shows
    /// it as it was recorded. Nothing is sent.
    pub fn go_forward(&mut self)
        requires
            old(self).wf(),
        ensures
            final(self)@ == after_forward(old(self)@),
            final(self).wf(),
    {
        if self.history.len() > 0 && self.current_history_index < self.history.len() - 1 {
            self.restore(self.current_history_index + 1);
        }
    }

    /// Takes in a response: after the marker of success the rest is the
    /// page, any other text is shown as it is. The page load is over and the
    /// error is cleared.
    pub fn handle_server_message(&mut self, content: String)
        ensures
            final(self)@ == after_event(
                old(self)@,
                EventView::ContentReceived { raw_text: content@ },
            ),
            old(self).wf() ==> final(self).wf(),
    {
        self.current_content = decode_reply(content).into_content();
        self.error = None;
        self.page_loading = false;
        self.page_load_start_time = None;
    }

    /// Takes in one event of the session. A change of status is mirrored
    /// while the connection is still being made, and an address that comes
    /// with it becomes the client's own; content ends the page load.
    pub fn apply_event(&mut self, event: SessionEvent)
        ensures
            final(self)@ == after_event(old(self)@, event@),
            old(self).wf() ==> final(self).wf(),
    {
        match event {
            SessionEvent::StatusChanged { status, local_address } => {
                if self.connection_status.is_connecting() {
                    self.connection_status = status;
                }
                self.loading = self.connection_status.is_connecting();
                if !local_address.as_str().is_empty() {
                    self.client_address = local_address;
                }
            },
            SessionEvent::ContentReceived { raw_text } => {
                self.handle_server_message(raw_text);
            },
        }
    }

    /// Takes in the events in their order: of several responses the last
    /// one stays on the page.
    pub fn apply_events(&mut self, events: &Vec<SessionEvent>)
        ensures
            final(self)@ == after_events(old(self)@, views_of(events@)),
            old(self).wf() ==> final(self).wf(),
    {
        let mut i: usize = 0;
        assert(views_of(events@).take(0) =~= Seq::<EventView>::empty());
        while i < events.len()
            invariant
                i <= events.len(),
                self@ == after_events(old(self)@, views_of(events@).take(i as int)),
                old(self).wf() ==> self.wf(),
            decreases events.len() - i,
        {
            let event = events[i].clone();
            proof {
                let upto = views_of(events@).take(i + 1);
                assert(upto.drop_last() =~= views_of(events@).take(i as int));
                assert(upto.last() == events@[i as int]@);
            }
            self.apply_event(event);
            i += 1;
        }
        assert(views_of(events@).take(i as int) =~= views_of(events@));
    }

    /// The watchdog: a page load that has lasted more than thirty seconds at
    /// time `now` is given up with an error.
    pub fn check_timeout(&mut self, now: u64)
        ensures
            final(self)@ == after_watchdog(old(self)@, now),
            old(self).wf() ==> final(self).wf(),
    {
        if self.page_loading {
            if let Some(started) = self.page_load_start_time {
                if now > started && now - started > PAGE_LOAD_TIMEOUT_NANOS {
                    self.error = Some(
                        String::from_str("Page load timeout - server not responding"),
                    );
                    self.page_loading = false;
                    self.page_load_start_time = None;
                }
            }
        }
    }

    /// Builds the request for the page at `request_path` on the current
    /// server, or says why there is none: no server is set, or the client's
    /// own address is not known yet.
    pub fn build_request(&self, request_path: &str) -> (res: Result<NavigationRequest, String>)
        ensures
            match res {
                Ok(request) => request_for(self@, request_path@) == Ok::<
                    (Seq<char>, Seq<char>),
                    Seq<char>,
                >(request@),
                Err(reason) => request_for(self@, request_path@) == Err::<
                    (Seq<char>, Seq<char>),
                    Seq<char>,
                >(reason@),
            },
    {
        let recipient = trim(self.server_address.as_str());
        if recipient.as_str().is_empty() {
            return Err(String::from_str("No server address specified"));
        }
        let my_address = trim(self.client_address.as_str());
        if my_address.as_str().is_empty() {
            return Err(String::from_str("Not connected yet - waiting for client address"));
        }
        let line = request_line(request_path, my_address.as_str());
        Ok(NavigationRequest { recipient_address: recipient, request_line: line })
    }

    /// Sends the request for the page at `request_path` to the network
    /// session. Nothing is sent where no request can be built or no session
    /// is attached; where the queue to the session is closed the request is
    /// not taken and the error says so.
    pub fn send_request(&mut self, request_path: &str) -> (res: Result<(), String>)
        ensures
            outcome_of(res) == dispatch_outcome(old(self)@, request_path@, res is Ok),
            final(self)@ == after_dispatch(old(self)@, request_path@, res is Ok),
            old(self).wf() ==> final(self).wf(),
    {
        match self.build_request(request_path) {
            Err(reason) => Err(reason),
            Ok(request) => match &mut self.request_sender {
                None => Err(String::from_str("Not connected to Mixnet")),
                Some(sender) => match enqueue(sender, request) {
                    Ok(_) => Ok(()),
                    Err(error) => {
                        let mut reason = String::from_str("Send error: ");
                        reason.append(send_error_text(&error).as_str());
                        Err(reason)
                    },
                },
            },
        }
    }

    /// Marks the start of a page load at time `now`, and clears the error.
    fn begin_load(&mut self, now: u64)
        ensures
            final(self)@ == load_begun(old(self)@, now),
            old(self).wf() ==> final(self).wf(),
    {
        self.error = None;
        self.page_loading = true;
        self.page_load_start_time = Some(now);
    }

    /// Ends the page load with the error `reason`.
    fn fail_load(&mut self, reason: String)
        ensures
            final(self)@ == load_failed(old(self)@, reason@),
            old(self).wf() ==> final(self).wf(),
    {
        self.error = Some(reason);
        self.page_loading = false;
        self.page_load_start_time = None;
    }

    /// Navigates to `path` on the current server at time `now`, and returns
    /// whether the request was sent. The request names the path with a `/`
    /// in front. Only where it was sent is a history entry committed, the
    /// entries behind the cursor dropped, and `path` put in the address bar
    /// as it was given; where it was not, the history stays and the error
    /// says why.
    pub fn navigate(&mut self, path: &str, now: u64) -> (sent: bool)
        requires
            old(self).wf(),
        ensures
            final(self)@ == after_navigate(old(self)@, path@, now, sent),
            sent == navigation_sent(old(self)@, path@, now, sent),
            final(self).wf(),
    {
        let request_path = normalize_path(path);
        self.request_page(path, request_path.as_str(), now)
    }

    /// Asks for the page `path` of the current server at time `now`, by a
    /// request that names it as `request_path`, and returns whether the
    /// request was sent. Only where it was sent is a history entry
    /// committed and `path` put in the address bar.
    fn request_page(&mut self, path: &str, request_path: &str, now: u64) -> (sent: bool)
        requires
            old(self).wf(),
        ensures
            final(self)@ == after_request(old(self)@, path@, request_path@, now, sent),
            sent == request_sent(old(self)@, request_path@, now, sent),
            final(self).wf(),
    {
        self.begin_load(now);
        match self.send_request(request_path) {
            Ok(_) => {
                self.add_to_history(now);
                self.address_bar = path.to_owned();
                true
            },
            Err(reason) => {
                self.fail_load(reason);
                false
            },
        }
    }

    /// Takes the address `url` apart: a full `nym://` address sets the server
    /// and leaves its path in the address bar; any other text goes to the
    /// address bar, trimmed.
    pub fn parse_and_set_url(&mut self, url: &str)
        ensures
            final(self)@ == address_set(old(self)@, url@),
            old(self).wf() ==> final(self).wf(),
    {
        match parse_nym_url(url) {
            Some((server, page)) => {
                self.server_address = trim(server.as_str());
                self.address_bar = page;
            },
            None => {
                self.address_bar = trim(url);
            },
        }
    }

    /// Submits the address bar at time `now`, and returns whether the request
    /// was sent: the address is taken apart, the page it names is requested,
    /// and a history entry is committed where the request was sent.
    pub fn handle_navigation(&mut self, now: u64) -> (sent: bool)
        requires
            old(self).wf(),
        ensures
            final(self)@ == after_submit(old(self)@, now, sent),
            sent == submit_sent(old(self)@, now, sent),
            final(self).wf(),
    {
        let address = self.address_bar.clone();
        self.parse_and_set_url(address.as_str());
        self.begin_load(now);
        let path = normalize_path(self.address_bar.as_str());
        match self.send_request(path.as_str()) {
            Ok(_) => {
                self.add_to_history(now);
                true
            },
            Err(reason) => {
                self.fail_load(reason);
                false
            },
        }
    }

    /// Requests the page of the address bar once more at time `now`, and
    /// returns whether the request was sent. The history stays as it is; with
    /// no server set nothing happens.
    pub fn reload_current_page(&mut self, now: u64) -> (sent: bool)
        ensures
            final(self)@ == after_reload(old(self)@, now, sent),
            sent == reload_sent(old(self)@, now, sent),
            old(self).wf() ==> final(self).wf(),
    {
        if self.server_address.as_str().is_empty() {
            return false;
        }
        self.begin_load(now);
        let path = normalize_path(self.address_bar.as_str());
        match self.send_request(path.as_str()) {
            Ok(_) => true,
            Err(reason) => {
                self.fail_load(reason);
                false
            },
        }
    }

    /// Follows a link to the page `page` of the peer `server`: the browser
    /// turns to that peer, and turns back to the previous one where the
    /// request could not be sent.
    fn open_external(&mut self, server: String, page: String, now: u64) -> (sent: bool)
        requires
            old(self).wf(),
        ensures
            final(self)@ == after_external_link(old(self)@, server@, page@, now, sent),
            sent == external_link_sent(old(self)@, server@, page@, now, sent),
            final(self).wf(),
    {
        let previous = self.server_address.clone();
        let mut path = String::from_str("/");
        path.append(page.as_str());
        proof {
            reveal_strlit("/");
            assert(path@ =~= seq!['/'] + page@);
        }
        self.server_address = server;
        self.address_bar = page;
        self.begin_load(now);
        match self.send_request(path.as_str()) {
            Ok(_) => {
                self.add_to_history(now);
                true
            },
            Err(reason) => {
                self.server_address = previous;
                self.fail_load(reason);
                false
            },
        }
    }

    /// Handles a click on the link `href` at time `now`, and returns whether
    /// a request was sent. A link to another peer turns the browser to that
    /// peer; a link of another scheme is refused with an error and nothing is
    /// sent; any other link is a path on the current server. For a `nym://`
    /// link that names no peer the request names `/` and all that follows
    /// the scheme.
    pub fn handle_link_click(&mut self, href: &str, now: u64) -> (sent: bool)
        requires
            old(self).wf(),
        ensures
            final(self)@ == after_link_click(old(self)@, href@, now, sent),
            sent == link_click_sent(old(self)@, href@, now, sent),
            final(self).wf(),
    {
        match classify_link(href) {
            LinkKind::ExternalMixAddress => match parse_nym_url(href) {
                Some((server, page)) => self.open_external(server, page, now),
                None => false,
            },
            LinkKind::UnsupportedScheme => {
                self.error = Some(
                    String::from_str(
                        "Unsupported link: only nym:// addresses and paths can be opened",
                    ),
                );
                false
            },
            _ => {
                let target = local_target_of(href);
                let request_path = local_request_path(href);
                self.request_page(target.as_str(), request_path.as_str(), now)
            },
        }
    }

    /// Opens the link that waits to be opened, if there is one, at time
    /// `now`, and returns whether a request was sent.
    pub fn open_pending(&mut self, now: u64) -> (sent: bool)
        requires
            old(self).wf(),
        ensures
            final(self)@ == after_pending(old(self)@, now, sent),
            sent == pending_sent(old(self)@, now, sent),
            final(self).wf(),
    {
        match self.pending_navigation.take() {
            Some(href) => self.handle_link_click(href.as_str(), now),
            None => false,
        }
    }

    /// Takes in the events that wait in the inbox, oldest first. The events
    /// that were waiting when the call began are taken; one that arrives
    /// during the call waits for the next.
    pub fn drain_inbox(&mut self)
        ensures
            exists|events: Seq<EventView>|
                {
                    &&& final(self)@ == after_events(old(self)@, events)
                    &&& !old(self)@.has_inbox ==> events.len() == 0
                },
            old(self).wf() ==> final(self).wf(),
    {
        let ghost mut applied: Seq<EventView> = Seq::empty();
        let budget: usize = match &self.message_receiver {
            Some(inbox) => waiting(inbox),
            None => 0,
        };
        let mut taken: usize = 0;
        while taken < budget
            invariant
                self@ == after_events(old(self)@, applied),
                !old(self)@.has_inbox ==> applied.len() == 0,
                old(self).wf() ==> self.wf(),
            decreases budget - taken,
        {
            let next = match &mut self.message_receiver {
                Some(inbox) => poll(inbox),
                None => None,
            };
            match next {
                Some(event) => {
                    proof {
                        assert(applied.push(event@).drop_last() =~= applied);
                        applied = applied.push(event@);
                    }
                    self.apply_event(event);
                },
                None => {
                    break ;
                },
            }
            taken += 1;
        }
    }

    /// One tick of the user interface at time `now`: the watchdog gives up a
    /// page load that has lasted more than thirty seconds, the link that
    /// waits is opened, and the events that have arrived are taken in, in
    /// their order.
    pub fn on_tick(&mut self, now: u64)
        requires
            old(self).wf(),
        ensures
            exists|accepted: bool, events: Seq<EventView>|
                {
                    &&& final(self)@ == after_tick(old(self)@, now, accepted, events)
                    &&& accepted == pending_sent(after_watchdog(old(self)@, now), now, accepted)
                    &&& !old(self)@.has_inbox ==> events.len() == 0
                },
            final(self).wf(),
    {
        self.check_timeout(now);
        let sent = self.open_pending(now);
        let ghost opened = self@;
        self.drain_inbox();
        proof {
            let events = choose|events: Seq<EventView>|
                {
                    &&& self@ == after_events(opened, events)
                    &&& !opened.has_inbox ==> events.len() == 0
                };
            lemma_inbox_kept(old(self)@, now, sent);
            assert(self@ == after_tick(old(self)@, now, sent, events));
        }
    }

    /// Prepares the connection, once: the first call makes the inbox for the
    /// session's events and returns the end that the session writes to; every
    /// later call changes nothing and returns `None`.
    pub fn init(&mut self) -> (session_end: Option<UnboundedSender<SessionEvent>>)
        ensures
            final(self)@ == after_init(old(self)@),
            session_end is Some <==> !old(self)@.connection_attempted,
            old(self).wf() ==> final(self).wf(),
    {
        if self.connection_attempted {
            return None;
        }
        let (session_end, inbox) = open_inbox();
        self.message_receiver = Some(inbox);
        self.connection_attempted = true;
        Some(session_end)
    }

    /// Attaches the queue to the network session, through which requests
    /// leave from now on.
    pub fn attach_request_sender(&mut self, sender: UnboundedSender<NavigationRequest>)
        ensures
            final(self)@ == (BrowserView {
                has_outbound: true,
                sent: accepted(sender),
                ..old(self)@
            }),
            old(self).wf() ==> final(self).wf(),
    {
        self.request_sender = Some(sender);
    }

    /// A click on the page: its first link, if it has one, waits to be
    /// opened at the next tick.
    pub fn click_content(&mut self)
        ensures
            final(self)@ == after_content_click(old(self)@),
            old(self).wf() ==> final(self).wf(),
    {
        let links = extract_links(self.current_content.as_str());
        if links.len() > 0 {
            assert(links.deep_view()[0] == links@[0]@);
            self.pending_navigation = Some(links[0].clone());
        }
    }

    /// Whether there is an earlier entry to go back to.
    pub fn can_go_back(&self) -> (b: bool)
        ensures
            b == (self@.current_history_index > 0),
    {
        self.current_history_index > 0
    }

    /// Whether there is a later entry to go forward to.
    pub fn can_go_forward(&self) -> (b: bool)
        ensures
            b == (self@.current_history_index + 1 < self@.history.len()),
    {
        self.history.len() > 0 && self.current_history_index < self.history.len() - 1
    }

    /// Whether the controls may start a navigation.
    pub fn can_navigate(&self) -> (b: bool)
        ensures
            b == may_navigate(self@),
    {
        !self.loading && !self.page_loading && !trim(self.address_bar.as_str()).as_str().is_empty()
    }

    /// How long the current page load has lasted at `now`, in nanoseconds;
    /// `None` where no page is loading.
    pub fn loading_for(&self, now: u64) -> (elapsed: Option<u64>)
        ensures
            match elapsed {
                Some(nanos) => load_time(self@, now) == Some(nanos as int),
                None => load_time(self@, now) is None,
            },
    {
        if !self.page_loading {
            return None;
        }
        match self.page_load_start_time {
            Some(started) => if now >= started {
                Some(now - started)
            } else {
                Some(0)
            },
            None => None,
        }
    }

    /// Whether the invariant holds: the cursor points into the history, or
    /// the history is empty and the cursor is 0.
    pub fn is_well_formed(&self) -> (b: bool)
        ensures
            b == self.wf(),
    {
        if self.history.len() == 0 {
            self.current_history_index == 0
        } else {
            self.current_history_index < self.history.len()
        }
    }

    /// The text of the address bar.
    pub fn address_bar(&self) -> (text: &String)
        ensures
            text@ == self@.address_bar,
    {
        &self.address_bar
    }

    /// Puts `text` in the address bar, as typing does; nothing else changes.
    pub fn set_address_bar(&mut self, text: String)
        ensures
            final(self)@ == (BrowserView { address_bar: text@, ..old(self)@ }),
            old(self).wf() ==> final(self).wf(),
    {
        self.address_bar = text;
    }

    /// The page that is shown.
    pub fn current_content(&self) -> (text: &String)
        ensures
            text@ == self@.current_content,
    {
        &self.current_content
    }

    /// The error to show, if any.
    pub fn error(&self) -> (reason: Option<String>)
        ensures
            text_of(reason) == self@.error,
    {
        self.error.clone()
    }

    /// Whether the connection is still being made.
    pub fn loading(&self) -> (b: bool)
        ensures
            b == self@.loading,
    {
        self.loading
    }

    /// Whether a page load is under way.
    pub fn page_loading(&self) -> (b: bool)
        ensures
            b == self@.page_loading,
    {
        self.page_loading
    }

    /// The peer whose pages are requested.
    pub fn server_address(&self) -> (text: &String)
        ensures
            text@ == self@.server_address,
    {
        &self.server_address
    }

    /// The client's own address; empty until the session reports it.
    pub fn client_address(&self) -> (text: &String)
        ensures
            text@ == self@.client_address,
    {
        &self.client_address
    }

    /// Where the connection stands.
    pub fn connection_status(&self) -> (status: ConnectionStatus)
        ensures
            status@ == self@.connection_status,
    {
        self.connection_status.clone()
    }

    /// The number of history entries.
    pub fn history_len(&self) -> (len: usize)
        ensures
            len == self@.history.len(),
    {
        self.history.len()
    }

    /// The position of the history's cursor.
    pub fn current_history_index(&self) -> (index: usize)
        ensures
            index == self@.current_history_index,
    {
        self.current_history_index
    }

    /// The history entry at `index`, or `None` where the history has none
    /// there.
    pub fn history_entry(&self, index: usize) -> (entry: Option<&HistoryEntry>)
        ensures
            match entry {
                Some(e) => index < self@.history.len() && e@ == self@.history[index as int],
                None => index >= self@.history.len(),
            },
    {
        if index < self.history.len() {
            Some(&self.history[index])
        } else {
            None
        }
    }

    /// Whether the connection was prepared.
    pub fn connection_attempted(&self) -> (b: bool)
        ensures
            b == self@.connection_attempted,
    {
        self.connection_attempted
    }

    /// The link that waits to be opened.
    pub fn pending_navigation(&self) -> (href: Option<String>)
        ensures
            text_of(href) == self@.pending_navigation,
    {
        self.pending_navigation.clone()
    }

    /// When the current page load began.
    pub fn page_load_start_time(&self) -> (started: Option<u64>)
        ensures
            started == self@.page_load_start_time,
    {
        self.page_load_start_time
    }

    /// The page as it is handed to the renderer: with the scheme taken off
    /// every link.
    pub fn display_content(&self) -> (plain: String)
        ensures
            plain@ == plain_text(self@.current_content),
    {
        neutralize_links(self.current_content.as_str())
    }
}

impl Clone for NymMixnetBrowser {
    /// A copy of what the browser shows and of its history. The copy has no
    /// queue to or from the session, no link that waits and no running
    /// timer.
    fn clone(&self) -> (res: Self)
        ensures
            res@ == detached(self@),
    {
        let mut history: Vec<HistoryEntry> = Vec::new();
        let mut i: usize = 0;
        while i < self.history.len()
            invariant
                i <= self.history.len(),
                history.deep_view() == self.history.deep_view().take(i as int),
            decreases self.history.len() - i,
        {
            let entry = self.history[i].clone();
            let ghost before = history.deep_view();
            history.push(entry);
            assert(history.deep_view() =~= before.push(self.history@[i as int]@));
            assert(history.deep_view() =~= self.history.deep_view().take(i + 1));
            i += 1;
        }
        assert(self.history.deep_view().take(i as int) =~= self.history.deep_view());
        NymMixnetBrowser {
            address_bar: self.address_bar.clone(),
            current_content: self.current_content.clone(),
            loading: self.loading,
            page_loading: self.page_loading,
            error: self.error.clone(),
            connection_status: self.connection_status.clone(),
            server_address: self.server_address.clone(),
            client_address: self.client_address.clone(),
            message_receiver: None,
            request_sender: None,
            history,
            connection_attempted: self.connection_attempted,
            pending_navigation: None,
            current_history_index: self.current_history_index,
            page_load_start_time: None,
        }
    }
}

/// `path` as a request names it: with a `/` in front unless it has one.
pub fn normalize_path(path: &str) -> (res: String)
    ensures
        res@ == normalized(path@),
{
    if !path.is_empty() && path.get_char(0) == '/' {
        path.to_owned()
    } else {
        let mut res = String::from_str("/");
        res.append(path);
        proof {
            reveal_strlit("/");
            assert(res@ =~= seq!['/'] + path@);
        }
        res
    }
}

/// The path on the current server that the link `href` leads to, where it
/// names no other peer.
pub fn local_target_of(href: &str) -> (target: String)
    ensures
        target@ == local_target(href@),
{
    match parse_nym_url(href) {
        Some((server, page)) => {
            if page.as_str().is_empty() {
                server
            } else {
                let mut target = server;
                target.append("/");
                target.append(page.as_str());
                proof {
                    reveal_strlit("/");
                    assert(target@ =~= server@ + seq!['/'] + page@);
                }
                target
            }
        },
        None => {
            if !href.is_empty() && href.get_char(0) == '/' {
                let chars = href.unicode_len();
                let rest = slice_of(href, 1, chars);
                assert(href@.subrange(1, chars as int) =~= href@.skip(1));
                rest
            } else {
                href.to_owned()
            }
        },
    }
}

/// The path by which the request for the link `href` names its page, where
/// the link names no other peer.
pub fn local_request_path(href: &str) -> (path: String)
    ensures
        path@ == local_request(href@),
{
    let target = local_target_of(href);
    match parse_nym_url(href) {
        Some(_) => {
            let mut path = String::from_str("/");
            path.append(target.as_str());
            proof {
                reveal_strlit("/");
                assert(path@ =~= seq!['/'] + target@);
            }
            path
        },
        None => normalize_path(target.as_str()),
    }
}

/// A tick's first two steps neither make nor drop the inbox.
proof fn lemma_inbox_kept(v: BrowserView, now: u64, accepted: bool)
    ensures
        after_pending(after_watchdog(v, now), now, accepted).has_inbox == v.has_inbox,
{
}

} // verus!
