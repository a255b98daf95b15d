use price_tracker::text::{chars_of, nth_piece_of, str_eq};
use price_tracker::web_url::{WebUrl, MAX_PATH_BYTES};

#[test]
fn parse_keeps_serialization_and_path() {
    let url = WebUrl::parse("https://www.kabum.com.br/produto/12345/slug").unwrap();
    assert_eq!(url.as_str(), "https://www.kabum.com.br/produto/12345/slug");
    assert_eq!(url.path(), "/produto/12345/slug");
}

#[test]
fn parse_normalizes_what_it_reads() {
    let url = WebUrl::parse("HTTPS://Example.COM").unwrap();
    assert_eq!(url.as_str(), "https://example.com/");
    assert_eq!(url.path(), "/");
}

#[test]
fn parse_leaves_query_out_of_the_path() {
    let url = WebUrl::parse("https://example.com/api/versions?page=2").unwrap();
    assert_eq!(url.path(), "/api/versions");
}

#[test]
fn parse_rejects_relative_text() {
    assert!(WebUrl::parse("produto/12345").is_none());
    assert!(WebUrl::parse("").is_none());
    assert!(WebUrl::parse("http").is_none());
}

#[test]
fn with_path_replaces_the_path() {
    let base = WebUrl::parse("https://www.kabum.com.br").unwrap();
    let url = base.with_path("/produto/100/a").unwrap();
    assert_eq!(url.as_str(), "https://www.kabum.com.br/produto/100/a");
    assert_eq!(url.path(), "/produto/100/a");
    assert_eq!(base.as_str(), "https://www.kabum.com.br/");
}

#[test]
fn with_path_keeps_query_and_encodes() {
    let base = WebUrl::parse("https://example.com/old?page=2").unwrap();
    let url = base.with_path("api/some comments").unwrap();
    assert_eq!(url.as_str(), "https://example.com/api/some%20comments?page=2");
    assert_eq!(url.path(), "/api/some%20comments");
}

#[test]
fn with_path_refuses_a_path_that_is_too_long() {
    let base = WebUrl::parse("https://example.com").unwrap();
    let long = "a".repeat(MAX_PATH_BYTES + 1);
    assert!(base.with_path(&long).is_none());
}

#[test]
fn path_piece_counts_from_the_leading_slash() {
    let url = WebUrl::parse("https://www.kabum.com.br/produto/12345/slug").unwrap();
    assert_eq!(url.path_piece(0), Some(String::new()));
    assert_eq!(url.path_piece(1), Some("produto".to_string()));
    assert_eq!(url.path_piece(2), Some("12345".to_string()));
    assert_eq!(url.path_piece(3), Some("slug".to_string()));
    assert_eq!(url.path_piece(4), None);
}

#[test]
fn clone_is_the_same_url() {
    let url = WebUrl::parse("https://example.com/a/b").unwrap();
    let copy = url.clone();
    assert_eq!(copy.as_str(), url.as_str());
    assert_eq!(copy.path(), url.path());
}

#[test]
fn nth_piece_of_splits_like_split() {
    let cases = ["", "/", "a", "/a/b", "a//b", "/produto/12345/slug", "x/", "//", "é/ü/ß"];
    for text in cases {
        let expected: Vec<&str> = text.split('/').collect();
        for n in 0..(expected.len() + 2) {
            let found = nth_piece_of(text, '/', n);
            assert_eq!(found.as_deref(), expected.get(n).copied(), "{:?} at {}", text, n);
        }
    }
}

#[test]
fn nth_piece_of_empty_text_is_one_empty_piece() {
    assert_eq!(nth_piece_of("", '/', 0), Some(String::new()));
    assert_eq!(nth_piece_of("", '/', 1), None);
}

#[test]
fn nth_piece_of_other_separator() {
    assert_eq!(nth_piece_of("a,b,c", ',', 1), Some("b".to_string()));
    assert_eq!(nth_piece_of("a,b,c", '/', 0), Some("a,b,c".to_string()));
}

#[test]
fn str_eq_compares_characters() {
    assert!(str_eq("search", "search"));
    assert!(!str_eq("search", "Search"));
    assert!(!str_eq("search", "searc"));
    assert!(str_eq("", ""));
}

#[test]
fn chars_of_lists_characters() {
    assert_eq!(chars_of("aé/"), vec!['a', 'é', '/']);
    assert_eq!(chars_of(""), Vec::<char>::new());
}
