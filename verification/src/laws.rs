//! What holds of the address parser and of the browser's model, on every
//! input.

use crate::address::{
    first_seen, is_link_end, lemma_link_spans_scheme, lemma_next_link, link_kind, links_from,
    next_link, parsed_url, scheme, scheme_separator, LinkKind,
};
use crate::bridge::{concluded, establishes, step_for, ManagerView, OutcomeView};
use crate::model::{
    after_back, after_content_click, after_event, after_events, after_forward, after_init,
    after_link_click, after_navigate, after_pending, after_reload, after_submit, after_tick,
    after_watchdog, detached, kept_history, link_click_sent, local_target, navigation_sent,
    no_server_message,
    normalized, reload_sent, submit_sent, timed_out, timeout_message,
    unsupported_scheme_message, well_formed, BrowserView,
};
use crate::session::{decoded, ok_marker, request_line_of, shown, EventView};
use crate::text::{
    is_char, is_space, lemma_scan_to, lemma_scan_to_unique, occurs_at, scan_to, trim_end,
    trim_start, trimmed,
};
use vstd::prelude::*;

verus! {

/// `trim_end` keeps a prefix of the text, and what it keeps does not end in
/// white space.
pub proof fn law_trim_end(s: Seq<char>)
    ensures
        trim_end(s).is_prefix_of(s),
        trim_end(s).len() > 0 ==> !is_space(trim_end(s).last()),
    decreases s.len(),
{
    if s.len() > 0 && is_space(s.last()) {
        law_trim_end(s.drop_last());
    }
}

/// `trim_start` keeps a suffix of the text, and what it keeps does not start
/// with white space.
pub proof fn law_trim_start(s: Seq<char>)
    ensures
        trim_start(s).is_suffix_of(s),
        trim_start(s).len() > 0 ==> !is_space(trim_start(s)[0]),
        trim_start(s).len() > 0 ==> trim_start(s).last() == s.last(),
    decreases s.len(),
{
    if s.len() > 0 && is_space(s[0]) {
        law_trim_start(s.drop_first());
        let t = trim_start(s.drop_first());
        let d = s.drop_first();
        assert(d.skip(d.len() - t.len()) =~= s.skip(s.len() - t.len()));
    }
}

/// A trimmed text has no white space at either end, and trimming it again
/// changes nothing.
pub proof fn law_trimmed_is_clean(s: Seq<char>)
    ensures
        trimmed(s).len() > 0 ==> !is_space(trimmed(s)[0]) && !is_space(trimmed(s).last()),
        trimmed(s).len() <= s.len(),
        trimmed(trimmed(s)) == trimmed(s),
{
    law_trim_end(s);
    law_trim_start(trim_end(s));
}

/// An address made of the scheme, a server without `/`, a `/` and a path
/// parses into that server and that path; without the `/` and the path it
/// parses into the server and the empty path.
pub proof fn law_parse_partitions(server: Seq<char>, path: Seq<char>)
    requires
        !server.contains('/'),
    ensures
        parsed_url(scheme() + server + seq!['/'] + path) == Some((server, path)),
        parsed_url(scheme() + server) == Some((server, Seq::<char>::empty())),
{
    let n = scheme().len() as int;
    let cut = n + server.len();
    let full = scheme() + server + seq!['/'] + path;
    assert(full.subrange(0, n) =~= scheme());
    assert forall|i: int| n <= i < cut implies !is_char('/')(#[trigger] full[i]) by {
        assert(full[i] == server[i - n]);
        assert(server.contains(server[i - n]));
    }
    assert(full[cut] == '/');
    lemma_scan_to_unique(full, is_char('/'), n, cut);
    assert(full.subrange(n, cut) =~= server);
    assert(full.skip(cut + 1) =~= path);

    let bare = scheme() + server;
    assert(bare.subrange(0, n) =~= scheme());
    assert forall|i: int| n <= i < cut implies !is_char('/')(#[trigger] bare[i]) by {
        assert(bare[i] == server[i - n]);
        assert(server.contains(server[i - n]));
    }
    lemma_scan_to_unique(bare, is_char('/'), n, cut);
    assert(bare.skip(n) =~= server);
}

/// What an address parses into puts it together again: the server holds no
/// `/`, and the address is the scheme, the server, and either nothing more,
/// with an empty path, or a `/` and the path.
pub proof fn law_parse_reassembles(url: Seq<char>)
    requires
        parsed_url(url) is Some,
    ensures
        ({
            let (server, path) = parsed_url(url)->0;
            &&& !server.contains('/')
            &&& url == scheme() + server + seq!['/'] + path || (url == scheme() + server
                && path.len() == 0)
        }),
{
    let n = scheme().len() as int;
    let (server, path) = parsed_url(url)->0;
    let cut = scan_to(url, is_char('/'), n);
    lemma_scan_to(url, is_char('/'), n);
    assert(url.subrange(0, n) == scheme());
    if server.contains('/') {
        let k = choose|k: int| 0 <= k < server.len() && server[k] == '/';
        assert(url[n + k] == '/');
    }
    if cut < url.len() {
        assert(url =~= scheme() + server + seq!['/'] + path);
    } else {
        assert(url =~= scheme() + server);
    }
}

/// An address that does not start with the scheme does not parse.
pub proof fn law_parse_rejects(url: Seq<char>)
    requires
        !occurs_at(url, scheme(), 0),
    ensures
        parsed_url(url) is None,
{
}

/// Dropping the repetitions leaves no item twice.
pub proof fn law_first_seen_is_distinct(items: Seq<Seq<char>>)
    ensures
        forall|i: int, j: int|
            0 <= i < j < first_seen(items).len() ==> first_seen(items)[i] != first_seen(items)[j],
    decreases items.len(),
{
    if items.len() > 0 {
        law_first_seen_is_distinct(items.drop_last());
        let init = first_seen(items.drop_last());
        if !init.contains(items.last()) {
            assert forall|i: int, j: int| 0 <= i < j < first_seen(items).len() implies first_seen(
                items,
            )[i] != first_seen(items)[j] by {
                if j == init.len() {
                    assert(init.contains(init[i]));
                }
            }
        }
    }
}

/// Dropping the repetitions neither loses an item nor adds one.
pub proof fn law_first_seen_keeps_items(items: Seq<Seq<char>>, item: Seq<char>)
    ensures
        first_seen(items).contains(item) <==> items.contains(item),
    decreases items.len(),
{
    if items.len() > 0 {
        let rest = items.drop_last();
        let init = first_seen(rest);
        law_first_seen_keeps_items(rest, item);
        law_first_seen_keeps_items(rest, items.last());
        if items.contains(item) {
            let k = choose|k: int| 0 <= k < items.len() && items[k] == item;
            if k < rest.len() {
                assert(rest[k] == item);
                assert(rest.contains(item));
            }
        }
        if rest.contains(item) {
            let k = choose|k: int| 0 <= k < rest.len() && rest[k] == item;
            assert(items[k] == item);
        }
        assert(items[items.len() - 1] == items.last());
        if init.contains(item) {
            let k = choose|k: int| 0 <= k < init.len() && init[k] == item;
            if !init.contains(items.last()) {
                assert(init.push(items.last())[k] == item);
            }
        }
        if first_seen(items).contains(item) && !init.contains(items.last()) {
            let k = choose|k: int|
                0 <= k < first_seen(items).len() && first_seen(items)[k] == item;
            if k < init.len() {
                assert(init[k] == item);
            }
        } else if !init.contains(items.last()) {
            assert(init.push(items.last())[init.len() as int] == items.last());
        }
    }
}

/// Every link found in a text starts with the scheme and holds no character
/// that ends a link.
pub proof fn law_links_are_links(text: Seq<char>, from: int)
    ensures
        forall|i: int|
            0 <= i < links_from(text, from).len() ==> {
                &&& occurs_at(#[trigger] links_from(text, from)[i], scheme(), 0)
                &&& forall|k: int|
                    0 <= k < links_from(text, from)[i].len() ==> !is_link_end()(
                        #[trigger] links_from(text, from)[i][k],
                    )
            },
    decreases text.len() - from,
{
    let start = next_link(text, from);
    if start < text.len() {
        let end = scan_to(text, is_link_end(), start);
        lemma_next_link(text, from);
        lemma_link_spans_scheme(text, start);
        lemma_scan_to(text, is_link_end(), start);
        law_links_are_links(text, end);
        let link = text.subrange(start, end);
        assert(link.subrange(0, scheme().len() as int) =~= text.subrange(
            start,
            start + scheme().len(),
        ));
        assert forall|k: int| 0 <= k < link.len() implies !is_link_end()(#[trigger] link[k]) by {
            assert(link[k] == text[start + k]);
        }
        assert forall|i: int| 0 <= i < links_from(text, from).len() implies {
            &&& occurs_at(#[trigger] links_from(text, from)[i], scheme(), 0)
            &&& forall|k: int|
                0 <= k < links_from(text, from)[i].len() ==> !is_link_end()(
                    #[trigger] links_from(text, from)[i][k],
                )
        } by {
            if i > 0 {
                assert(links_from(text, from)[i] == links_from(text, end)[i - 1]);
            }
        }
    }
}

/// A link made of the name of a scheme other than `nym`, the separator `://`
/// and anything behind it is of an unsupported scheme.
pub proof fn law_other_schemes_are_unsupported(name: Seq<char>, rest: Seq<char>)
    requires
        name.len() > 0,
        !name.contains('/'),
        name != "nym"@,
    ensures
        link_kind(name + scheme_separator() + rest) == LinkKind::UnsupportedScheme,
{
    reveal_strlit("nym://");
    reveal_strlit("://");
    reveal_strlit("nym");
    let href = name + scheme_separator() + rest;
    let n = name.len() as int;
    assert(href[n] == ':' && href[n + 1] == '/' && href[n + 2] == '/');
    assert forall|i: int| 0 <= i < n implies href[i] == name[i] && name[i] != '/' by {
        assert(name.contains(name[i]));
    }
    if occurs_at(href, scheme(), 0) {
        let head = href.subrange(0, 6);
        assert(head == scheme());
        assert(head[0] == href[0] && head[1] == href[1] && head[2] == href[2]);
        assert(head[3] == href[3] && head[4] == href[4] && head[5] == href[5]);
        if n == 3 {
            assert(name =~= "nym"@);
        }
    }
    assert forall|i: int| 0 <= i < n + 1 implies !is_char('/')(#[trigger] href[i]) by {}
    lemma_scan_to_unique(href, is_char('/'), 0, n + 1);
    assert(href.subrange(n, n + 3) =~= scheme_separator());
}

/// The position at which `item` first stands in `items`, or the number of
/// the items where it does not stand among them.
pub open spec fn first_position(items: Seq<Seq<char>>, item: Seq<char>) -> int
    decreases items.len(),
{
    if items.len() == 0 {
        0
    } else if first_position(items.drop_last(), item) < items.len() - 1 {
        first_position(items.drop_last(), item)
    } else if items.last() == item {
        items.len() - 1
    } else {
        items.len() as int
    }
}

/// `first_position` is the least position of the item, and is in range
/// exactly where the item stands among the items.
pub proof fn law_first_position(items: Seq<Seq<char>>, item: Seq<char>)
    ensures
        0 <= first_position(items, item) <= items.len(),
        first_position(items, item) < items.len() <==> items.contains(item),
        first_position(items, item) < items.len() ==> items[first_position(items, item)] == item,
        forall|k: int| 0 <= k < first_position(items, item) ==> #[trigger] items[k] != item,
    decreases items.len(),
{
    if items.len() > 0 {
        let rest = items.drop_last();
        law_first_position(rest, item);
        if items.contains(item) {
            let k = choose|k: int| 0 <= k < items.len() && items[k] == item;
            if k < rest.len() {
                assert(rest[k] == item);
            }
        }
        if first_position(rest, item) < rest.len() {
            assert(items[first_position(rest, item)] == item);
        }
        assert forall|k: int| 0 <= k < first_position(items, item) implies #[trigger] items[k]
            != item by {
            if k < rest.len() {
                assert(rest[k] == items[k]);
            }
        }
    }
}

/// Dropping the repetitions keeps the order of first appearance: of two
/// items that stay, the one that stays first is the one that first stood
/// earlier.
pub proof fn law_first_seen_keeps_order(items: Seq<Seq<char>>)
    ensures
        forall|i: int, j: int|
            0 <= i < j < first_seen(items).len() ==> first_position(items, first_seen(items)[i])
                < first_position(items, first_seen(items)[j]),
    decreases items.len(),
{
    if items.len() > 0 {
        let rest = items.drop_last();
        let init = first_seen(rest);
        let all = first_seen(items);
        law_first_seen_keeps_order(rest);
        assert forall|i: int, j: int| 0 <= i < j < all.len() implies first_position(items, all[i])
            < first_position(items, all[j]) by {
            assert(init.contains(init[i]));
            law_first_seen_keeps_items(rest, all[i]);
            law_first_position(rest, all[i]);
            law_first_seen_keeps_items(rest, all[j]);
            law_first_position(rest, all[j]);
            if j < init.len() {
                assert(init.contains(init[j]));
            }
        }
    }
}

/// Whether `link` is a link of `text`: it starts where the scheme stands,
/// and runs to the first character behind that which ends a link, or to the
/// end of the text where there is none.
pub open spec fn is_link_of(text: Seq<char>, link: Seq<char>) -> bool {
    exists|start: int|
        #![trigger occurs_at(text, scheme(), start)]
        occurs_at(text, scheme(), start) && link == text.subrange(
            start,
            scan_to(text, is_link_end(), start),
        )
}

/// Every link found in a text runs from an occurrence of the scheme to its
/// terminator.
pub proof fn law_links_run_to_their_end(text: Seq<char>, from: int)
    ensures
        forall|i: int|
            0 <= i < links_from(text, from).len() ==> is_link_of(
                text,
                #[trigger] links_from(text, from)[i],
            ),
    decreases text.len() - from,
{
    let start = next_link(text, from);
    if start < text.len() {
        let end = scan_to(text, is_link_end(), start);
        lemma_next_link(text, from);
        lemma_link_spans_scheme(text, start);
        lemma_scan_to(text, is_link_end(), start);
        law_links_run_to_their_end(text, end);
        assert forall|i: int| 0 <= i < links_from(text, from).len() implies is_link_of(
            text,
            #[trigger] links_from(text, from)[i],
        ) by {
            if i == 0 {
                assert(occurs_at(text, scheme(), start));
            } else {
                assert(links_from(text, from)[i] == links_from(text, end)[i - 1]);
            }
        }
    }
}

/// A click on a `nym://` link that names no peer asks the current server for
/// the page that the link names behind the scheme: where the request is
/// sent, it is one request, to the current server, whose path is `/` and the
/// link's target. The server stays and the page is loading. The target is
/// all that follows the scheme, but for a single `/` with nothing behind it.
pub proof fn law_local_link_request(v: BrowserView, href: Seq<char>, now: u64, accepted: bool)
    requires
        parsed_url(href) is Some,
        link_kind(href) == LinkKind::LocalRelativePath,
    ensures
        link_click_sent(v, href, now, accepted) ==> ({
            let w = after_link_click(v, href, now, accepted);
            &&& w.sent == v.sent.push(
                (
                    trimmed(v.server_address),
                    request_line_of(seq!['/'] + local_target(href), trimmed(v.client_address)),
                ),
            )
            &&& w.server_address == v.server_address
            &&& w.address_bar == local_target(href)
            &&& w.page_loading
            &&& w.error is None
        }),
        link_click_sent(v, href, now, accepted) <==> accepted && v.has_outbound && trimmed(
            v.server_address,
        ).len() > 0 && trimmed(v.client_address).len() > 0,
        ({
            let (server, page) = parsed_url(href)->0;
            let rest = href.skip(scheme().len() as int);
            &&& page.len() > 0 || !rest.contains('/') ==> local_target(href) == rest
            &&& page.len() == 0 ==> local_target(href) == server
        }),
{
    law_parse_reassembles(href);
    let n = scheme().len() as int;
    let (server, page) = parsed_url(href)->0;
    let rest = href.skip(n);
    let cut = scan_to(href, is_char('/'), n);
    lemma_scan_to(href, is_char('/'), n);
    if cut < href.len() {
        assert(rest =~= server + seq!['/'] + page);
        assert(rest[cut - n] == '/');
    } else {
        assert(rest =~= server);
    }
}

/// With no server set, a navigation sends nothing and leaves the error
/// "No server address specified"; the history stays as it is.
pub proof fn law_no_server_no_request(v: BrowserView, path: Seq<char>, now: u64, accepted: bool)
    requires
        trimmed(v.server_address).len() == 0,
    ensures
        !navigation_sent(v, path, now, accepted),
        after_navigate(v, path, now, accepted).sent == v.sent,
        after_navigate(v, path, now, accepted).error == Some(no_server_message()),
        after_navigate(v, path, now, accepted).history == v.history,
        !after_navigate(v, path, now, accepted).page_loading,
{
}

/// The path that a request names always starts with `/`.
pub proof fn law_requested_paths_are_absolute(path: Seq<char>)
    ensures
        normalized(path).len() > 0,
        normalized(path)[0] == '/',
        path.len() > 0 && path[0] == '/' ==> normalized(path) == path,
        normalized(Seq::<char>::empty()) == seq!['/'],
{
    assert(seq!['/'] + Seq::<char>::empty() =~= seq!['/']);
}

/// A navigation whose request was sent has sent exactly one request: to the
/// current server, for the normalized path, in the name of the client's own
/// address, both trimmed. It leaves no error, and the page is loading since
/// `now`.
pub proof fn law_navigation_request(v: BrowserView, path: Seq<char>, now: u64, accepted: bool)
    requires
        navigation_sent(v, path, now, accepted),
    ensures
        ({
            let w = after_navigate(v, path, now, accepted);
            &&& w.sent == v.sent.push(
                (
                    trimmed(v.server_address),
                    request_line_of(normalized(path), trimmed(v.client_address)),
                ),
            )
            &&& w.error is None
            &&& w.page_loading
            &&& w.page_load_start_time == Some(now)
            &&& w.address_bar == path
            &&& w.server_address == v.server_address
        }),
        trimmed(v.server_address).len() > 0,
        trimmed(v.client_address).len() > 0,
        v.has_outbound,
        accepted,
{
}

/// The end of the connection attempt never takes the manager out of
/// `Connected`, and never empties the address that it holds.
pub proof fn law_manager_keeps_connection(m: ManagerView, outcome: OutcomeView)
    ensures
        m.status is Connected ==> concluded(m, outcome) == m,
        concluded(m, outcome).status == m.status || (m.status is Connecting && concluded(
            m,
            outcome,
        ).status is Connected),
        step_for(m, outcome).start_bridge <==> establishes(m, outcome),
        step_for(m, outcome).event is Some <==> establishes(m, outcome),
        outcome is Established || step_for(m, outcome).log_line is Some,
{
}

/// A navigation whose request was sent leaves the cursor on the last entry;
/// from the end of the history it makes the history longer by exactly one.
pub proof fn law_navigation_appends(v: BrowserView, path: Seq<char>, now: u64, accepted: bool)
    requires
        well_formed(v),
        navigation_sent(v, path, now, accepted),
    ensures
        ({
            let w = after_navigate(v, path, now, accepted);
            &&& well_formed(w)
            &&& w.current_history_index == w.history.len() - 1
            &&& v.current_history_index + 1 >= v.history.len() ==> w.history.len()
                == v.history.len() + 1
        }),
{
}

/// A navigation whose request was sent drops the entries behind the cursor
/// and appends the new entry: the entries up to the cursor stay, the new one
/// follows them, and the cursor is on it.
pub proof fn law_navigation_truncates(v: BrowserView, path: Seq<char>, now: u64, accepted: bool)
    requires
        well_formed(v),
        v.history.len() > 0,
        navigation_sent(v, path, now, accepted),
    ensures
        ({
            let w = after_navigate(v, path, now, accepted);
            &&& w.history.len() == v.current_history_index + 2
            &&& w.current_history_index == v.current_history_index + 1
            &&& forall|i: int|
                0 <= i <= v.current_history_index ==> #[trigger] w.history[i] == v.history[i]
            &&& w.history.last().server == v.server_address
            &&& w.history.last().content == v.current_content
        }),
{
}

/// Every operation keeps the cursor in the history: from a well-formed state
/// it leads to a well-formed state, whatever the queue and the session do.
pub proof fn law_cursor_stays_in_history(
    v: BrowserView,
    text: Seq<char>,
    now: u64,
    accepted: bool,
    events: Seq<EventView>,
)
    requires
        well_formed(v),
    ensures
        well_formed(after_navigate(v, text, now, accepted)),
        well_formed(after_submit(v, now, accepted)),
        well_formed(after_reload(v, now, accepted)),
        well_formed(after_link_click(v, text, now, accepted)),
        well_formed(after_back(v)),
        well_formed(after_forward(v)),
        well_formed(after_watchdog(v, now)),
        well_formed(after_events(v, events)),
        well_formed(after_tick(v, now, accepted, events)),
        well_formed(after_content_click(v)),
        well_formed(after_init(v)),
        well_formed(detached(v)),
{
    law_events_keep_connection(v, events);
    law_events_keep_connection(after_pending(after_watchdog(v, now), now, accepted), events);
}

/// Whether the history of `w` is that of `v` up to its cursor and one new
/// entry behind it, with the cursor of `w` on that entry.
pub open spec fn extends_history(v: BrowserView, w: BrowserView) -> bool {
    &&& w.history.len() == kept_history(v).len() + 1
    &&& w.history.drop_last() == kept_history(v)
    &&& w.current_history_index == w.history.len() - 1
    &&& w.history.last().created_at == w.page_load_start_time->0
}

/// Whatever commits a history entry (a navigation, a submitted address, a
/// followed link) leaves the entries up to the old cursor as they were, the
/// new entry behind them, and the cursor on it.
pub proof fn law_commits_extend_the_kept_history(
    v: BrowserView,
    text: Seq<char>,
    now: u64,
    accepted: bool,
)
    requires
        well_formed(v),
    ensures
        navigation_sent(v, text, now, accepted) ==> extends_history(
            v,
            after_navigate(v, text, now, accepted),
        ),
        submit_sent(v, now, accepted) ==> extends_history(v, after_submit(v, now, accepted)),
        link_click_sent(v, text, now, accepted) ==> extends_history(
            v,
            after_link_click(v, text, now, accepted),
        ),
        !navigation_sent(v, text, now, accepted) ==> after_navigate(v, text, now, accepted).history
            == v.history,
        !submit_sent(v, now, accepted) ==> after_submit(v, now, accepted).history == v.history,
        !link_click_sent(v, text, now, accepted) ==> after_link_click(
            v,
            text,
            now,
            accepted,
        ).history == v.history,
{
    let kept = kept_history(v);
    let navigated = after_navigate(v, text, now, accepted);
    if navigation_sent(v, text, now, accepted) {
        assert(navigated.history.drop_last() =~= kept);
    }
    let submitted = after_submit(v, now, accepted);
    if submit_sent(v, now, accepted) {
        assert(submitted.history.drop_last() =~= kept);
    }
    let clicked = after_link_click(v, text, now, accepted);
    if link_click_sent(v, text, now, accepted) {
        assert(clicked.history.drop_last() =~= kept);
    }
}

/// A navigation whose request was not sent leaves the history and its cursor
/// as they were, and the page is not loading.
pub proof fn law_failed_navigation_keeps_history(
    v: BrowserView,
    path: Seq<char>,
    now: u64,
    accepted: bool,
)
    requires
        !navigation_sent(v, path, now, accepted),
    ensures
        ({
            let w = after_navigate(v, path, now, accepted);
            &&& w.history == v.history
            &&& w.current_history_index == v.current_history_index
            &&& w.sent == v.sent
            &&& w.error is Some
            &&& !w.page_loading
        }),
{
}

/// Whether what the browser shows is what the history entry at `index`
/// recorded.
pub open spec fn shows_entry(v: BrowserView, index: int) -> bool {
    &&& 0 <= index < v.history.len()
    &&& v.history[index].server == v.server_address
    &&& v.history[index].page == v.address_bar
    &&& v.history[index].content == v.current_content
}

/// The entry on which a step back and then a step forward ends, where either
/// step moves at all.
pub open spec fn round_trip_entry(v: BrowserView) -> Option<int> {
    if v.current_history_index > 0 {
        Some(v.current_history_index)
    } else if v.history.len() > 1 {
        Some(1)
    } else {
        None
    }
}

/// A step back and then a step forward put the page, the server and the
/// address bar back as they were, where the browser showed what the entry
/// records on which the two steps end. Neither step sends anything.
pub proof fn law_back_then_forward(v: BrowserView)
    requires
        well_formed(v),
        round_trip_entry(v) is Some ==> shows_entry(v, round_trip_entry(v)->0),
    ensures
        ({
            let w = after_forward(after_back(v));
            &&& w.current_content == v.current_content
            &&& w.server_address == v.server_address
            &&& w.address_bar == v.address_bar
            &&& w.history == v.history
            &&& well_formed(w)
        }),
        after_back(v).sent == v.sent,
        after_forward(after_back(v)).sent == v.sent,
{
}

/// Neither a step back nor a step forward sends a request or changes the
/// history, and both keep the cursor in it.
pub proof fn law_history_steps_are_local(v: BrowserView)
    requires
        well_formed(v),
    ensures
        after_back(v).sent == v.sent,
        after_forward(v).sent == v.sent,
        after_back(v).history == v.history,
        after_forward(v).history == v.history,
        well_formed(after_back(v)),
        well_formed(after_forward(v)),
{
}

/// A reload never changes the history or its cursor.
pub proof fn law_reload_keeps_history(v: BrowserView, now: u64, accepted: bool)
    ensures
        after_reload(v, now, accepted).history == v.history,
        after_reload(v, now, accepted).current_history_index == v.current_history_index,
        !reload_sent(v, now, accepted) ==> after_reload(v, now, accepted).sent == v.sent,
{
}

/// A response is content, whatever it says: after the marker of success the
/// rest is shown, any other text is shown whole, and in both cases the error
/// is cleared and the page load is over.
pub proof fn law_responses_are_content(v: BrowserView, raw: Seq<char>)
    ensures
        ({
            let w = after_event(v, EventView::ContentReceived { raw_text: raw });
            &&& w.error is None
            &&& !w.page_loading
            &&& w.page_load_start_time is None
            &&& occurs_at(raw, ok_marker(), 0) ==> w.current_content == raw.skip(
                ok_marker().len() as int,
            )
            &&& !occurs_at(raw, ok_marker(), 0) ==> w.current_content == raw
        }),
{
}

/// Of the responses that arrive together the last one stays on the page.
pub proof fn law_last_response_wins(v: BrowserView, events: Seq<EventView>, raw: Seq<char>)
    ensures
        after_events(
            v,
            events.push(EventView::ContentReceived { raw_text: raw }),
        ).current_content == shown(decoded(raw)),
{
    let all = events.push(EventView::ContentReceived { raw_text: raw });
    assert(all.drop_last() =~= events);
}

/// Events never take the connection out of `Connected`, never empty the
/// client's address once it is known, and never touch the history or what
/// was sent.
pub proof fn law_events_keep_connection(v: BrowserView, events: Seq<EventView>)
    ensures
        v.connection_status is Connected ==> after_events(v, events).connection_status
            is Connected,
        v.client_address.len() > 0 ==> after_events(v, events).client_address.len() > 0,
        after_events(v, events).history == v.history,
        after_events(v, events).current_history_index == v.current_history_index,
        after_events(v, events).sent == v.sent,
    decreases events.len(),
{
    if events.len() > 0 {
        law_events_keep_connection(v, events.drop_last());
    }
}

/// Once more than thirty seconds have passed since a navigation whose
/// request was sent, the watchdog ends the page load with the timeout error.
pub proof fn law_watchdog_fires(
    v: BrowserView,
    path: Seq<char>,
    now: u64,
    later: u64,
    accepted: bool,
)
    requires
        navigation_sent(v, path, now, accepted),
        timed_out(now, later),
    ensures
        !after_watchdog(after_navigate(v, path, now, accepted), later).page_loading,
        after_watchdog(after_navigate(v, path, now, accepted), later).error == Some(
            timeout_message(),
        ),
{
}

/// The same of a whole tick in which no event arrives, where no link waits
/// to be opened: the tick leaves the page not loading, with the timeout
/// error.
pub proof fn law_tick_without_response_times_out(
    v: BrowserView,
    path: Seq<char>,
    now: u64,
    later: u64,
    accepted: bool,
    accepted_later: bool,
)
    requires
        navigation_sent(v, path, now, accepted),
        timed_out(now, later),
        v.pending_navigation is None,
    ensures
        ({
            let w = after_tick(
                after_navigate(v, path, now, accepted),
                later,
                accepted_later,
                Seq::empty(),
            );
            &&& !w.page_loading
            &&& w.error == Some(timeout_message())
        }),
{
}

/// A click on a link of another scheme sends nothing: it leaves the error
/// that says so, and everything else as it was.
pub proof fn law_unsupported_link_sends_nothing(
    v: BrowserView,
    href: Seq<char>,
    now: u64,
    accepted: bool,
)
    requires
        link_kind(href) == LinkKind::UnsupportedScheme,
    ensures
        !link_click_sent(v, href, now, accepted),
        after_link_click(v, href, now, accepted) == (BrowserView {
            error: Some(unsupported_scheme_message()),
            ..v
        }),
        after_link_click(v, href, now, accepted).sent == v.sent,
{
}

} // verus!
