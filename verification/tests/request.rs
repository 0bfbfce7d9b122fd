//! Which requests fetch a footer.

use object_store_client::request::{footer_fields, footer_spawn_fields, HttpRequest};
use object_store_client::text::{chars_of, contains, ends_with, same};

fn request(authority: Option<&str>, path_and_query: Option<&str>) -> HttpRequest {
    HttpRequest {
        method: "GET".to_string(),
        authority: authority.map(|t| t.to_string()),
        path_and_query: path_and_query.map(|t| t.to_string()),
    }
}

fn path_is_footer(path: &str) -> bool {
    footer_fields("GET", None, path).is_some()
}

#[test]
fn footer_paths() {
    assert!(path_is_footer("/bucket/file.footer"));
    assert!(path_is_footer(".footer"));
    assert!(path_is_footer("/bucket/file%2Efooter"));
    assert!(path_is_footer("/bucket/file%2efooter"));
    // The encoded dot counts anywhere in the path, the plain one at its end only.
    assert!(path_is_footer("/bucket/file%2Efooter/part"));
    assert!(path_is_footer("%2efooter.parquet"));
    assert!(!path_is_footer("/bucket/file.footer/part"));
    assert!(!path_is_footer("/bucket/file.footer "));
    assert!(!path_is_footer("/bucket/file.Footer"));
    assert!(!path_is_footer("/bucket/file%2EFooter"));
    assert!(!path_is_footer("footer"));
    assert!(!path_is_footer(""));
}

#[test]
fn footer_fields_repeat_the_request() {
    let fields = footer_fields("PUT", Some("host"), "/a.footer").unwrap();
    assert_eq!(fields.method, "PUT");
    assert_eq!(fields.host, "host");
    assert_eq!(fields.path, "/a.footer");
    let fields = footer_fields("GET", None, "/a.footer").unwrap();
    assert_eq!(fields.host, "");
    let copy = fields.clone();
    assert_eq!(copy.method, "GET");
    assert_eq!(copy.path, "/a.footer");
}

#[test]
fn host_without_user_and_port() {
    let host = |authority: &str| {
        footer_spawn_fields(&request(Some(authority), Some("/a.footer"))).unwrap().host
    };
    assert_eq!(host("example.org"), "example.org");
    assert_eq!(host("example.org:443"), "example.org");
    assert_eq!(host("user:secret@example.org:443"), "example.org");
    assert_eq!(host("[::1]:8080"), "[::1]");
    assert_eq!(host("user@[::1]"), "[::1]");
    // No authority at all, or a text that is none
    assert_eq!(host("not an authority"), "");
    assert_eq!(footer_spawn_fields(&request(None, Some("/a.footer"))).unwrap().host, "");
}

#[test]
fn path_without_query() {
    let path = |text: &str| {
        footer_spawn_fields(&request(Some("h"), Some(text))).map(|fields| fields.path)
    };
    assert_eq!(path("/b/a.footer").unwrap(), "/b/a.footer");
    assert_eq!(path("/b/a.footer?range=1").unwrap(), "/b/a.footer");
    assert_eq!(path("/b/a.footer?").unwrap(), "/b/a.footer");
    assert_eq!(path("/b/a.footer#there").unwrap(), "/b/a.footer");
    assert_eq!(path("/b/a%2Efooter?x").unwrap(), "/b/a%2Efooter");
    // A footer in the query is none.
    assert!(path("/b/a?x=.footer").is_none());
    assert!(path("/b/a?x=%2Efooter").is_none());
    // Nothing stands for the root, which is no footer.
    assert!(path("?x=.footer").is_none());
    // A text that is no path
    assert!(path("b/a.footer").is_none());
    assert!(path("").is_none());
    // No path at all
    assert!(footer_spawn_fields(&request(Some("h"), None)).is_none());
}

#[test]
fn the_method_is_kept() {
    let mut req = request(Some("h"), Some("/a.footer"));
    req.method = "HEAD".to_string();
    assert_eq!(footer_spawn_fields(&req).unwrap().method, "HEAD");
}

#[test]
fn text_search() {
    assert!(contains("abc", ""));
    assert!(contains("abc", "a"));
    assert!(contains("abc", "c"));
    assert!(contains("aabaabaac", "aabaac"));
    assert!(!contains("abc", "abcd"));
    assert!(!contains("abc", "ac"));
    assert!(!contains("", "a"));
    assert!(contains("grün", "ün"));
    assert!(ends_with("abc", "bc"));
    assert!(ends_with("abc", ""));
    assert!(ends_with("grün", "ün"));
    assert!(!ends_with("abc", "ab"));
    assert!(!ends_with("c", "bc"));
    assert!(same("abc", "abc"));
    assert!(same("", ""));
    assert!(!same("abc", "abd"));
    assert!(!same("abc", "ab"));
    assert_eq!(chars_of("grün"), vec!['g', 'r', 'ü', 'n']);
}
