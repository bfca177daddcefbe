use nymview::address::{classify_link, extract_links, neutralize_links, parse_nym_url, LinkKind};
use nymview::text::{chars_of, contains_char, find_char, has_at, is_whitespace, slice_of, trim};

fn parsed(url: &str) -> Option<(String, String)> {
    parse_nym_url(url)
}

fn pair(server: &str, path: &str) -> Option<(String, String)> {
    Some((server.to_string(), path.to_string()))
}

#[test]
fn parse_splits_at_the_first_slash() {
    assert_eq!(parsed("nym://server/path"), pair("server", "path"));
    assert_eq!(parsed("nym://server/a/b/c"), pair("server", "a/b/c"));
    assert_eq!(
        parsed("nym://abc.def@gateway/docs/index.md"),
        pair("abc.def@gateway", "docs/index.md")
    );
}

#[test]
fn parse_without_a_path_gives_the_empty_path() {
    assert_eq!(parsed("nym://server"), pair("server", ""));
    assert_eq!(parsed("nym://server/"), pair("server", ""));
    assert_eq!(parsed("nym://"), pair("", ""));
    assert_eq!(parsed("nym:///page"), pair("", "page"));
}

#[test]
fn parse_keeps_characters_beyond_ascii() {
    assert_eq!(parsed("nym://sérvér/pâge ü"), pair("sérvér", "pâge ü"));
}

#[test]
fn parse_rejects_what_lacks_the_scheme() {
    assert_eq!(parsed("http://server/path"), None);
    assert_eq!(parsed(""), None);
    assert_eq!(parsed("nym:/server"), None);
    assert_eq!(parsed("nym:"), None);
    assert_eq!(parsed(" nym://server"), None);
    assert_eq!(parsed("NYM://server"), None);
    assert_eq!(parsed("server/path"), None);
}

#[test]
fn classify_rejects_other_schemes() {
    assert_eq!(classify_link("http://example.com"), LinkKind::UnsupportedScheme);
    assert_eq!(classify_link("https://example.com/a/b"), LinkKind::UnsupportedScheme);
    assert_eq!(classify_link("ftp://host"), LinkKind::UnsupportedScheme);
}

#[test]
fn classify_tells_peers_from_pages() {
    assert_eq!(classify_link("nym://abc.def@gateway/page"), LinkKind::ExternalMixAddress);
    assert_eq!(classify_link("nym://abc.def@gateway"), LinkKind::ExternalMixAddress);
    assert_eq!(classify_link("nym://about"), LinkKind::LocalRelativePath);
    assert_eq!(classify_link("nym://about/team"), LinkKind::LocalRelativePath);
    assert_eq!(classify_link("nym://only.dot/x"), LinkKind::LocalRelativePath);
    assert_eq!(classify_link("nym://only@at/x"), LinkKind::LocalRelativePath);
    assert_eq!(classify_link("nym://server/a.b@c"), LinkKind::LocalRelativePath);
}

#[test]
fn classify_paths() {
    assert_eq!(classify_link("/about"), LinkKind::AbsolutePath);
    assert_eq!(classify_link("/"), LinkKind::AbsolutePath);
    assert_eq!(classify_link("/see/http://x"), LinkKind::AbsolutePath);
    assert_eq!(classify_link("about"), LinkKind::LocalRelativePath);
    assert_eq!(classify_link("docs/index.md"), LinkKind::LocalRelativePath);
    assert_eq!(classify_link(""), LinkKind::LocalRelativePath);
    assert_eq!(classify_link("://x"), LinkKind::LocalRelativePath);
    assert_eq!(classify_link("a:/b"), LinkKind::LocalRelativePath);
    assert_eq!(classify_link("a/b://c"), LinkKind::LocalRelativePath);
}

#[test]
fn extract_links_dedups_in_first_seen_order() {
    assert_eq!(
        extract_links("nym://a nym://b nym://a"),
        vec!["nym://a".to_string(), "nym://b".to_string()]
    );
}

#[test]
fn extract_links_ends_at_brackets_and_quotes() {
    let text = "(nym://one) [nym://two] <nym://three> \"nym://four\" 'nym://five'\tnym://six\nend";
    assert_eq!(
        extract_links(text),
        vec![
            "nym://one".to_string(),
            "nym://two".to_string(),
            "nym://three".to_string(),
            "nym://four".to_string(),
            "nym://five".to_string(),
            "nym://six".to_string(),
        ]
    );
}

#[test]
fn extract_links_edge_cases() {
    assert_eq!(extract_links(""), Vec::<String>::new());
    assert_eq!(extract_links("no links here, not even nym:/x"), Vec::<String>::new());
    assert_eq!(extract_links("nym://"), vec!["nym://".to_string()]);
    assert_eq!(extract_links("see nym://srv/page"), vec!["nym://srv/page".to_string()]);
    assert_eq!(extract_links("nym://anym://b"), vec!["nym://anym://b".to_string()]);
    assert_eq!(
        extract_links("é nym://ü/ö\u{3000}nym://x"),
        vec!["nym://ü/ö".to_string(), "nym://x".to_string()]
    );
    assert_eq!(
        extract_links("[home](nym://srv.a@b/home) and [home again](nym://srv.a@b/home)"),
        vec!["nym://srv.a@b/home".to_string()]
    );
}

#[test]
fn neutralize_takes_the_scheme_off_every_link() {
    assert_eq!(neutralize_links("see nym://a/b and nym://c"), "see a/b and c");
    assert_eq!(neutralize_links("[x](nym://srv/page) nym://srv/page"), "[x](srv/page) srv/page");
    assert_eq!(neutralize_links("nothing to do"), "nothing to do");
    assert_eq!(neutralize_links(""), "");
    assert_eq!(neutralize_links("nym://"), "");
    assert_eq!(neutralize_links("nym://anym://b c"), "anym://b c");
    assert_eq!(neutralize_links("ünym://é ö"), "üé ö");
}

#[test]
fn no_link_is_left_after_neutralizing_separate_links() {
    let text = "one nym://a two (nym://b/c) three";
    assert_eq!(extract_links(&neutralize_links(text)), Vec::<String>::new());
}

#[test]
fn whitespace_is_what_std_calls_whitespace() {
    let mut code: u32 = 0;
    while code <= 0x10FFFF {
        if let Some(c) = char::from_u32(code) {
            assert_eq!(is_whitespace(c), c.is_whitespace(), "U+{:04X}", code);
        }
        code += 1;
    }
}

#[test]
fn trim_removes_white_space_at_both_ends() {
    assert_eq!(trim("  a b \n"), "a b");
    assert_eq!(trim("\u{00A0}x\u{2003}"), "x");
    assert_eq!(trim("abc"), "abc");
    assert_eq!(trim(""), "");
    assert_eq!(trim(" \t\r\n"), "");
    assert_eq!(trim(" é "), "é");
    let samples = ["", " ", " a", "a ", "  a  b  ", "\n\tx\u{3000}", "é\u{0085}"];
    for s in samples {
        assert_eq!(trim(s), s.trim());
    }
}

#[test]
fn text_helpers_go_by_characters() {
    let chars = chars_of("héllo/wörld");
    assert_eq!(chars, "héllo/wörld".chars().collect::<Vec<char>>());
    assert_eq!(find_char(&chars, '/', 0), 5);
    assert_eq!(find_char(&chars, '/', 6), chars.len());
    assert_eq!(find_char(&chars, 'l', 3), 3);
    assert!(contains_char(&chars, 'ö'));
    assert!(!contains_char(&chars, 'x'));
    let pattern = chars_of("wör");
    assert!(has_at(&chars, &pattern, 6));
    assert!(!has_at(&chars, &pattern, 5));
    assert!(!has_at(&chars, &pattern, 9));
    assert!(!has_at(&chars, &pattern, usize::MAX));
    assert!(has_at(&chars, &chars_of(""), chars.len()));
    assert_eq!(slice_of("héllo/wörld", 1, 5), "éllo");
    assert_eq!(slice_of("héllo", 5, 5), "");
}
