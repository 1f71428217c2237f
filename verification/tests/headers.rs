use spira::headers::default_headers;

#[test]
fn default_headers_hold_the_four_entries() {
    let headers = default_headers("secret-key", "alice").unwrap();
    assert_eq!(headers.len(), 4);
    assert_eq!(headers.keys_len(), 4);
    assert_eq!(headers.get("accept").unwrap().as_bytes(), b"application/json");
    assert_eq!(headers.get("content-type").unwrap().as_bytes(), b"application/json");
    assert_eq!(headers.get("api-key").unwrap().as_bytes(), b"secret-key");
    assert_eq!(headers.get("username").unwrap().as_bytes(), b"alice");
}

#[test]
fn header_names_are_stored_in_lower_case() {
    let headers = default_headers("k", "u").unwrap();
    let mut names: Vec<String> = headers.keys().map(|name| name.as_str().to_string()).collect();
    names.sort();
    assert_eq!(names, vec!["accept", "api-key", "content-type", "username"]);
}

#[test]
fn each_name_has_one_value() {
    let headers = default_headers("k", "u").unwrap();
    assert_eq!(headers.get_all("accept").iter().count(), 1);
    assert_eq!(headers.get_all("content-type").iter().count(), 1);
    assert_eq!(headers.get_all("api-key").iter().count(), 1);
    assert_eq!(headers.get_all("username").iter().count(), 1);
}

#[test]
fn credentials_are_kept_byte_for_byte() {
    let headers = default_headers("{A1B2-C3D4}", "Bob Smith").unwrap();
    assert_eq!(headers.get("api-key").unwrap().as_bytes(), b"{A1B2-C3D4}");
    assert_eq!(headers.get("username").unwrap().as_bytes(), b"Bob Smith");
}

#[test]
fn empty_credentials_are_accepted() {
    let headers = default_headers("", "").unwrap();
    assert_eq!(headers.get("api-key").unwrap().as_bytes(), b"");
    assert_eq!(headers.get("username").unwrap().as_bytes(), b"");
}

#[test]
fn a_tab_is_accepted() {
    let headers = default_headers("a\tb", "u").unwrap();
    assert_eq!(headers.get("api-key").unwrap().as_bytes(), b"a\tb");
}

#[test]
fn text_beyond_ascii_is_kept_as_utf8() {
    let headers = default_headers("k", "zo\u{eb}").unwrap();
    assert_eq!(headers.get("username").unwrap().as_bytes(), "zo\u{eb}".as_bytes());
    assert_eq!(headers.get("username").unwrap().as_bytes(), &[b'z', b'o', 0xc3, 0xab]);
}

#[test]
fn a_line_break_in_the_key_is_refused() {
    assert!(default_headers("key\n", "alice").is_err());
    assert!(default_headers("k\rey", "alice").is_err());
}

#[test]
fn a_control_character_in_the_username_is_refused() {
    assert!(default_headers("key", "al\u{0}ice").is_err());
    assert!(default_headers("key", "al\u{1f}ice").is_err());
}

#[test]
fn del_is_refused() {
    assert!(default_headers("key\u{7f}", "alice").is_err());
    assert!(default_headers("key", "\u{7f}").is_err());
}

#[test]
fn the_edges_of_the_accepted_range() {
    assert!(default_headers(" ", "~").is_ok());
    assert!(default_headers("\u{80}", "\u{10ffff}").is_ok());
}
