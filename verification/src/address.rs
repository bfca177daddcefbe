//! Addresses of the form `nym://<server>[/<path>]`: parsing, the kinds of link
//! target, and the links that a page's text holds.

use crate::text::{
    chars_of, contains_char, find_char, has_at, is_char, is_space, is_whitespace, lemma_scan_to,
    occurs_at, scan_to, slice_of,
};
use vstd::prelude::*;
use vstd::string::*;

verus! {

/// The kinds of link target that a page can hold.
#[derive(Clone, Copy, Debug, PartialEq, Eq, Structural)]
pub enum LinkKind {
    /// A `nym://` link whose server is a full peer address.
    ExternalMixAddress,
    /// A `nym://` link whose server is no peer address, or a bare relative
    /// path: a page of the current server.
    LocalRelativePath,
    /// A path that starts with `/`, on the current server.
    AbsolutePath,
    /// A link of another scheme, such as `http://`: never opened.
    UnsupportedScheme,
}

/// The scheme prefix of every address.
pub open spec fn scheme() -> Seq<char> {
    "nym://"@
}

/// The separator that ends a scheme's name.
pub open spec fn scheme_separator() -> Seq<char> {
    "://"@
}

/// Server and path of `url`: what follows the scheme, parted at its first
/// `/`, which belongs to neither. `None` where `url` lacks the scheme.
pub open spec fn parsed_url(url: Seq<char>) -> Option<(Seq<char>, Seq<char>)> {
    if occurs_at(url, scheme(), 0) {
        let cut = scan_to(url, is_char('/'), scheme().len() as int);
        if cut < url.len() {
            Some((url.subrange(scheme().len() as int, cut), url.skip(cut + 1)))
        } else {
            Some((url.skip(scheme().len() as int), Seq::empty()))
        }
    } else {
        None
    }
}

/// A server is a full peer address where it holds both a `.` and an `@`.
pub open spec fn is_peer_address(server: Seq<char>) -> bool {
    server.contains('.') && server.contains('@')
}

/// Whether `href` begins with the name of a scheme: some text without `/`,
/// then `://`.
pub open spec fn names_a_scheme(href: Seq<char>) -> bool {
    let slash = scan_to(href, is_char('/'), 0);
    slash >= 2 && occurs_at(href, scheme_separator(), slash - 1)
}

/// The kind of the link target `href`.
pub open spec fn link_kind(href: Seq<char>) -> LinkKind {
    match parsed_url(href) {
        Some((server, _)) => if is_peer_address(server) {
            LinkKind::ExternalMixAddress
        } else {
            LinkKind::LocalRelativePath
        },
        None => if href.len() > 0 && href[0] == '/' {
            LinkKind::AbsolutePath
        } else if names_a_scheme(href) {
            LinkKind::UnsupportedScheme
        } else {
            LinkKind::LocalRelativePath
        },
    }
}

/// Parses a `nym://` address into its server and its path.
pub fn parse_nym_url(url: &str) -> (res: Option<(String, String)>)
    ensures
        res is Some <==> occurs_at(url@, scheme(), 0),
        match res {
            Some((server, path)) => parsed_url(url@) == Some((server@, path@)),
            None => parsed_url(url@) is None,
        },
{
    let chars = chars_of(url);
    let prefix = chars_of("nym://");
    if !has_at(&chars, &prefix, 0) {
        return None;
    }
    let cut = find_char(&chars, '/', prefix.len());
    if cut < chars.len() {
        let server = slice_of(url, prefix.len(), cut);
        let path = slice_of(url, cut + 1, chars.len());
        Some((server, path))
    } else {
        let server = slice_of(url, prefix.len(), chars.len());
        proof {
            assert(url@.subrange(prefix.len() as int, chars.len() as int) =~= url@.skip(
                scheme().len() as int,
            ));
        }
        Some((server, String::new()))
    }
}

/// Classifies the link target `href`.
pub fn classify_link(href: &str) -> (kind: LinkKind)
    ensures
        kind == link_kind(href@),
{
    match parse_nym_url(href) {
        Some((server, _)) => {
            let name = chars_of(server.as_str());
            if contains_char(&name, '.') && contains_char(&name, '@') {
                LinkKind::ExternalMixAddress
            } else {
                LinkKind::LocalRelativePath
            }
        },
        None => {
            let chars = chars_of(href);
            if chars.len() > 0 && chars[0] == '/' {
                return LinkKind::AbsolutePath;
            }
            let separator = chars_of("://");
            let slash = find_char(&chars, '/', 0);
            if slash >= 2 && has_at(&chars, &separator, slash - 1) {
                LinkKind::UnsupportedScheme
            } else {
                LinkKind::LocalRelativePath
            }
        },
    }
}

/// The predicate that holds of the characters that end a link in running
/// text: white space, a closing bracket or a quote.
pub open spec fn is_link_end() -> spec_fn(char) -> bool {
    |c: char| is_space(c) || c == ')' || c == ']' || c == '>' || c == '"' || c == '\''
}

/// The first position at or after `from` where the scheme stands in `text`,
/// or the length of `text` when there is none.
pub open spec fn next_link(text: Seq<char>, from: int) -> int
    decreases text.len() - from,
{
    if from < 0 || from >= text.len() {
        text.len() as int
    } else if occurs_at(text, scheme(), from) {
        from
    } else {
        next_link(text, from + 1)
    }
}

/// Every link of `text` that starts at or after `from`, in the order of the
/// text: each runs from an occurrence of the scheme to the next character
/// that ends a link, and the search goes on behind it.
pub open spec fn links_from(text: Seq<char>, from: int) -> Seq<Seq<char>>
    decreases text.len() - from,
    via links_from_advances
{
    let start = next_link(text, from);
    if start >= text.len() {
        Seq::empty()
    } else {
        let end = scan_to(text, is_link_end(), start);
        seq![text.subrange(start, end)] + links_from(text, end)
    }
}

#[via_fn]
proof fn links_from_advances(text: Seq<char>, from: int) {
    let start = next_link(text, from);
    if start < text.len() {
        lemma_next_link(text, from);
        lemma_link_spans_scheme(text, start);
        lemma_scan_to(text, is_link_end(), start);
        assert(from < scan_to(text, is_link_end(), start) <= text.len());
    }
}

/// `items` without the repetitions: each item stays where it came first.
pub open spec fn first_seen(items: Seq<Seq<char>>) -> Seq<Seq<char>>
    decreases items.len(),
{
    if items.len() == 0 {
        Seq::empty()
    } else {
        let init = first_seen(items.drop_last());
        if init.contains(items.last()) {
            init
        } else {
            init.push(items.last())
        }
    }
}

/// The links of `text`, each once, in the order of their first occurrence.
pub open spec fn extracted_links(text: Seq<char>) -> Seq<Seq<char>> {
    first_seen(links_from(text, 0))
}

/// `next_link` returns the least position in range where the scheme stands.
pub proof fn lemma_next_link(text: Seq<char>, from: int)
    ensures
        next_link(text, from) <= text.len(),
        0 <= from <= text.len() ==> from <= next_link(text, from),
        forall|i: int| 0 <= from <= i < next_link(text, from) ==> !occurs_at(text, scheme(), i),
        next_link(text, from) < text.len() ==> occurs_at(text, scheme(), next_link(text, from)),
    decreases text.len() - from,
{
    if 0 <= from < text.len() && !occurs_at(text, scheme(), from) {
        lemma_next_link(text, from + 1);
    }
}

/// A link is at least as long as the scheme: no character of the scheme ends
/// a link.
pub proof fn lemma_link_spans_scheme(text: Seq<char>, start: int)
    requires
        occurs_at(text, scheme(), start),
    ensures
        scan_to(text, is_link_end(), start) >= start + scheme().len(),
        scheme().len() == 6,
{
    reveal_strlit("nym://");
    let window = text.subrange(start, start + 6);
    assert(window == scheme());
    assert forall|i: int| start <= i < start + 6 implies !is_link_end()(#[trigger] text[i]) by {
        assert(text[i] == window[i - start]);
    }
    lemma_scan_to(text, is_link_end(), start);
}

/// The first position at or after `from` where `pattern` stands in `chars`.
fn find_scheme(chars: &Vec<char>, pattern: &Vec<char>, from: usize) -> (at: usize)
    requires
        from <= chars.len(),
        pattern@ == scheme(),
    ensures
        at == next_link(chars@, from as int),
        from <= at <= chars.len(),
{
    let mut i: usize = from;
    while i < chars.len() && !has_at(chars, pattern, i)
        invariant
            from <= i <= chars.len(),
            pattern@ == scheme(),
            next_link(chars@, from as int) == next_link(chars@, i as int),
        decreases chars.len() - i,
    {
        i += 1;
    }
    i
}

/// The first position at or after `from` of a character that ends a link.
fn find_link_end(chars: &Vec<char>, from: usize) -> (at: usize)
    requires
        from <= chars.len(),
    ensures
        at == scan_to(chars@, is_link_end(), from as int),
        from <= at <= chars.len(),
{
    let mut i: usize = from;
    while i < chars.len() && !(is_whitespace(chars[i]) || chars[i] == ')' || chars[i] == ']'
        || chars[i] == '>' || chars[i] == '"' || chars[i] == '\'')
        invariant
            from <= i <= chars.len(),
            scan_to(chars@, is_link_end(), from as int) == scan_to(
                chars@,
                is_link_end(),
                i as int,
            ),
        decreases chars.len() - i,
    {
        i += 1;
    }
    i
}

/// Whether `items` holds a string equal to `wanted`.
fn holds(items: &Vec<String>, wanted: &String) -> (b: bool)
    ensures
        b == items.deep_view().contains(wanted@),
{
    let mut i: usize = 0;
    while i < items.len()
        invariant
            i <= items.len(),
            forall|j: int| 0 <= j < i ==> items.deep_view()[j] != wanted@,
        decreases items.len() - i,
    {
        if items[i] == *wanted {
            assert(items.deep_view()[i as int] == wanted@);
            return true;
        }
        i += 1;
    }
    false
}

/// Collects the `nym://` links of `text`: every occurrence of the scheme,
/// extended to the next white space, closing bracket or quote; each link once,
/// in the order in which it is first seen.
pub fn extract_links(text: &str) -> (links: Vec<String>)
    ensures
        links.deep_view() == extracted_links(text@),
{
    let chars = chars_of(text);
    let pattern = chars_of("nym://");
    let mut links: Vec<String> = Vec::new();
    let mut pos: usize = 0;
    let ghost mut seen: Seq<Seq<char>> = Seq::empty();
    assert(seen + links_from(text@, 0) =~= links_from(text@, 0));
    assert(links.deep_view() =~= first_seen(seen));
    while pos < chars.len()
        invariant
            pos <= chars.len(),
            chars@ == text@,
            pattern@ == scheme(),
            links.deep_view() == first_seen(seen),
            seen + links_from(text@, pos as int) == links_from(text@, 0),
        decreases chars.len() - pos,
    {
        let start = find_scheme(&chars, &pattern, pos);
        if start >= chars.len() {
            pos = chars.len();
        } else {
            let end = find_link_end(&chars, start);
            proof {
                lemma_next_link(text@, pos as int);
                lemma_link_spans_scheme(text@, start as int);
            }
            let link = slice_of(text, start, end);
            let ghost grown = seen.push(link@);
            proof {
                assert(grown.drop_last() =~= seen);
                assert(grown + links_from(text@, end as int) =~= seen + links_from(
                    text@,
                    pos as int,
                ));
            }
            if !holds(&links, &link) {
                let ghost before = links.deep_view();
                links.push(link);
                assert(links.deep_view() =~= before.push(link@));
            }
            proof {
                seen = grown;
            }
            pos = end;
        }
    }
    proof {
        assert(links_from(text@, pos as int) =~= Seq::<Seq<char>>::empty());
        assert(seen + Seq::<Seq<char>>::empty() =~= seen);
    }
    links
}

/// `text` from position `from` on, with the scheme taken off every link, so
/// that no link in it can be followed as it stands.
pub open spec fn plain_from(text: Seq<char>, from: int) -> Seq<char>
    decreases text.len() - from,
    via plain_from_advances
{
    let start = next_link(text, from);
    if start >= text.len() {
        text.skip(from)
    } else {
        let end = scan_to(text, is_link_end(), start);
        text.subrange(from, start) + text.subrange(start + scheme().len(), end) + plain_from(
            text,
            end,
        )
    }
}

#[via_fn]
proof fn plain_from_advances(text: Seq<char>, from: int) {
    let start = next_link(text, from);
    if start < text.len() {
        lemma_next_link(text, from);
        lemma_link_spans_scheme(text, start);
        lemma_scan_to(text, is_link_end(), start);
        assert(from < scan_to(text, is_link_end(), start) <= text.len());
    }
}

/// `text` with the scheme taken off every link.
pub open spec fn plain_text(text: Seq<char>) -> Seq<char> {
    plain_from(text, 0)
}

/// Rewrites `text` for display: every link loses its `nym://` prefix and so
/// stands as plain text, which nothing but this library can follow.
pub fn neutralize_links(text: &str) -> (plain: String)
    ensures
        plain@ == plain_text(text@),
{
    let chars = chars_of(text);
    let pattern = chars_of("nym://");
    let mut plain = String::new();
    let mut pos: usize = 0;
    assert(plain@ + plain_from(text@, 0) =~= plain_text(text@));
    while pos < chars.len()
        invariant
            pos <= chars.len(),
            chars@ == text@,
            pattern@ == scheme(),
            plain@ + plain_from(text@, pos as int) == plain_text(text@),
        decreases chars.len() - pos,
    {
        let start = find_scheme(&chars, &pattern, pos);
        let ghost before = plain@;
        if start >= chars.len() {
            plain.append(text.substring_char(pos, chars.len()));
            proof {
                assert(text@.subrange(pos as int, chars.len() as int) =~= text@.skip(pos as int));
                assert(plain_from(text@, chars.len() as int) =~= Seq::<char>::empty());
                assert(plain@ + plain_from(text@, chars.len() as int) =~= before + plain_from(
                    text@,
                    pos as int,
                ));
            }
            pos = chars.len();
        } else {
            let end = find_link_end(&chars, start);
            proof {
                lemma_next_link(text@, pos as int);
                lemma_link_spans_scheme(text@, start as int);
            }
            plain.append(text.substring_char(pos, start));
            plain.append(text.substring_char(start + pattern.len(), end));
            proof {
                assert(plain@ + plain_from(text@, end as int) =~= before + plain_from(
                    text@,
                    pos as int,
                ));
            }
            pos = end;
        }
    }
    proof {
        assert(plain_from(text@, pos as int) =~= Seq::<char>::empty());
        assert(plain@ + Seq::<char>::empty() =~= plain@);
    }
    plain
}

} // verus!
