use songfetch::sanitize::sanitize;
use songfetch::sanitize::search_url;

#[test]
fn sanitize_empty() {
    assert_eq!(sanitize(""), "");
}

#[test]
fn sanitize_space() {
    assert_eq!(sanitize("a b"), "a+b");
}

#[test]
fn sanitize_ampersand() {
    assert_eq!(sanitize("a&b"), "a%26b");
}

#[test]
fn sanitize_ampersand_then_space() {
    assert_eq!(sanitize("a&b c"), "a%26b+c");
}

#[test]
fn sanitize_full_table() {
    assert_eq!(sanitize(",?&/+=$@ "), "%2C%3F%26%2F%3D%2B%24%40+");
}

#[test]
fn sanitize_passthrough() {
    assert_eq!(sanitize("abc-123_OK!"), "abc-123_OK!");
}

#[test]
fn sanitize_no_raw_specials_remain() {
    let out = sanitize("rock & roll / the ?best, cheap= $5 @home");
    for c in [',', '?', '&', '/', '=', '$', '@', ' '] {
        assert!(!out.contains(c), "raw special {:?} survived in {:?}", c, out);
    }
}

#[test]
fn search_url_appends_sanitized_query() {
    assert_eq!(
        search_url("a b"),
        "https://www.youtube.com/results?search_query=a+b"
    );
}
