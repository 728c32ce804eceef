use ffcookies::{
    decimal_text, filter_by_domain, flag_from_number, json_object_text, matches_domain, merge_cookies, optional_flag,
    render, render_expressions, render_json, render_table, select_profile, session_payload, Cookie,
    MozSession, OutputFormat, ProfileEntry, SessionError, SESSION_HEADER_LEN,
};

fn sid_cookie() -> Cookie {
    Cookie::from_store_row(
        "sid".to_string(),
        "abc".to_string(),
        ".example.com".to_string(),
        "/".to_string(),
        Some(1700000000),
        Some(1),
        Some(1),
        Some(1),
    )
}

fn bare(name: &str, domain: &str) -> Cookie {
    Cookie {
        name: name.to_string(),
        value: "v".to_string(),
        domain: domain.to_string(),
        path: "/".to_string(),
        expires: None,
        http_only: None,
        secure: None,
        same_site: None,
    }
}

#[test]
fn store_row_renders_as_expression() {
    let out = render(&merge_cookies(vec![sid_cookie()], vec![], None), OutputFormat::Javascript);
    assert_eq!(
        out,
        "sid=abc; Domain=.example.com; Path=/; Expires=1700000000; HttpOnly; Secure; SameSite=Strict"
    );
}

#[test]
fn store_row_renders_as_table() {
    let out = render(&merge_cookies(vec![sid_cookie()], vec![], None), OutputFormat::Netscape);
    assert_eq!(out, ".example.com\tTRUE\t/\tTRUE\t1700000000\tsid\tabc\n");
}

#[test]
fn expression_omits_absent_and_false_flags() {
    let mut c = bare("a", "x.org");
    assert_eq!(c.to_string(), "a=v; Domain=x.org; Path=/");
    c.http_only = Some(false);
    c.secure = Some(false);
    c.same_site = Some(false);
    assert_eq!(c.to_string(), "a=v; Domain=x.org; Path=/; SameSite=None");
}

#[test]
fn table_line_has_seven_columns_and_one_newline() {
    for c in [sid_cookie(), bare("n", "d")] {
        let line = c.to_curl_string();
        assert!(line.ends_with('\n'));
        assert_eq!(line.matches('\n').count(), 1);
        assert_eq!(line.trim_end_matches('\n').split('\t').count(), 7);
    }
}

#[test]
fn table_same_site_column() {
    let mut c = bare("n", "d");
    assert_eq!(c.to_curl_string().split('\t').nth(1), Some("FALSE"));
    c.same_site = Some(true);
    assert_eq!(c.to_curl_string().split('\t').nth(1), Some("TRUE"));
    c.same_site = Some(false);
    assert_eq!(c.to_curl_string().split('\t').nth(1), Some("FALSE"));
}

#[test]
fn table_expires_column() {
    let mut c = bare("n", "d");
    assert_eq!(c.to_curl_string().split('\t').nth(4), Some("0"));
    c.expires = Some(42);
    assert_eq!(c.to_curl_string().split('\t').nth(4), Some("42"));
    c.expires = Some(-7);
    assert_eq!(c.to_curl_string().split('\t').nth(4), Some("-7"));
}

#[test]
fn domain_filter_keeps_exact_and_dotted() {
    let d = "example.com".to_string();
    let cookies = vec![bare("a", "example.com"), bare("b", ".example.com"), bare("c", "sub.example.com")];
    assert!(matches_domain(&cookies[0], &d));
    assert!(matches_domain(&cookies[1], &d));
    assert!(!matches_domain(&cookies[2], &d));
    let kept = filter_by_domain(cookies, &d);
    let names: Vec<&str> = kept.iter().map(|c| c.name.as_str()).collect();
    assert_eq!(names, vec!["a", "b"]);
}

#[test]
fn merge_keeps_store_then_session_order() {
    let store = vec![bare("z", "b.org"), bare("a", "a.org")];
    let session = vec![bare("m", "c.org")];
    let merged = merge_cookies(store, session, None);
    let names: Vec<&str> = merged.iter().map(|c| c.name.as_str()).collect();
    assert_eq!(names, vec!["z", "a", "m"]);
}

#[test]
fn merge_filters_both_sources() {
    let d = "a.org".to_string();
    let store = vec![bare("s1", "a.org"), bare("s2", "b.org")];
    let session = vec![bare("x", ".a.org"), bare("s1", "a.org")];
    let merged = merge_cookies(store, session, Some(&d));
    let names: Vec<&str> = merged.iter().map(|c| c.name.as_str()).collect();
    assert_eq!(names, vec!["s1", "x", "s1"]);
}

#[test]
fn json_round_trip_keeps_fields() {
    let mut other = bare("q\"uote", "d\\x");
    other.secure = Some(false);
    other.expires = Some(-1);
    let cookies = vec![sid_cookie(), other];
    let text = render_json(&cookies);
    assert!(!text.contains('\n'));
    let parsed: serde_json::Value = serde_json::from_str(&text).unwrap();
    let items = parsed.as_array().unwrap();
    assert_eq!(items.len(), 2);
    for (c, v) in cookies.iter().zip(items) {
        assert_eq!(v["name"].as_str(), Some(c.name.as_str()));
        assert_eq!(v["value"].as_str(), Some(c.value.as_str()));
        assert_eq!(v["domain"].as_str(), Some(c.domain.as_str()));
        assert_eq!(v["path"].as_str(), Some(c.path.as_str()));
        assert_eq!(v["expires"].as_i64(), c.expires);
        assert_eq!(v["expires"].is_null(), c.expires.is_none());
        assert_eq!(v["http_only"].as_bool(), c.http_only);
        assert_eq!(v["http_only"].is_null(), c.http_only.is_none());
        assert_eq!(v["secure"].as_bool(), c.secure);
        assert_eq!(v["secure"].is_null(), c.secure.is_none());
        assert_eq!(v["same_site"].as_bool(), c.same_site);
        assert_eq!(v["same_site"].is_null(), c.same_site.is_none());
    }
}

#[test]
fn json_exact_text() {
    let out = render(&vec![sid_cookie()], OutputFormat::Json);
    assert_eq!(
        out,
        "[{\"name\":\"sid\",\"value\":\"abc\",\"domain\":\".example.com\",\"path\":\"/\",\"expires\":1700000000,\"http_only\":true,\"secure\":true,\"same_site\":true}]"
    );
    let out = render_json(&vec![bare("a\"b", "d")]);
    assert!(out.starts_with("[{\"name\":\"a\\\"b\",\"value\":\"v\""));
    assert!(out.ends_with("\"expires\":null,\"http_only\":null,\"secure\":null,\"same_site\":null}]"));
}

#[test]
fn empty_list_renders() {
    let none: Vec<Cookie> = vec![];
    assert_eq!(render_expressions(&none), "");
    assert_eq!(render_table(&none), "");
    assert_eq!(render_json(&none), "[]");
}

#[test]
fn expressions_joined_without_trailing_newline() {
    let out = render_expressions(&vec![bare("a", "d"), bare("b", "d")]);
    assert_eq!(out, "a=v; Domain=d; Path=/\nb=v; Domain=d; Path=/");
    let table = render_table(&vec![bare("a", "d"), bare("b", "d")]);
    assert_eq!(table, "d\tFALSE\t/\tFALSE\t0\ta\tv\nd\tFALSE\t/\tFALSE\t0\tb\tv\n");
}

#[test]
fn nonzero_same_site_is_true() {
    assert!(flag_from_number(2));
    assert!(flag_from_number(-1));
    assert!(!flag_from_number(0));
    assert_eq!(optional_flag(Some(2)), Some(true));
    assert_eq!(optional_flag(None), None);
    let c = Cookie::from_store_row(
        "n".to_string(),
        "v".to_string(),
        "h".to_string(),
        "/".to_string(),
        None,
        None,
        Some(0),
        Some(2),
    );
    assert_eq!(c.same_site, Some(true));
    assert_eq!(c.secure, Some(false));
    assert_eq!(c.http_only, None);
    assert_eq!(c.expires, None);
    assert_eq!(c.domain, "h");
}

#[test]
fn decimal_text_values() {
    assert_eq!(decimal_text(0), "0");
    assert_eq!(decimal_text(1700000000), "1700000000");
    assert_eq!(decimal_text(-305), "-305");
    assert_eq!(decimal_text(i64::MAX), i64::MAX.to_string());
    assert_eq!(decimal_text(i64::MIN), i64::MIN.to_string());
}

#[test]
fn session_payload_strips_header_and_decompresses() {
    let json = br#"{"cookies":[]}"#;
    let block = lz4::block::compress(json, None, true).unwrap();
    let mut file = b"mozLz40\0".to_vec();
    assert_eq!(file.len(), SESSION_HEADER_LEN);
    file.extend_from_slice(&block);
    assert_eq!(session_payload(&file), Ok(json.to_vec()));
}

#[test]
fn session_payload_errors() {
    assert_eq!(session_payload(b"short"), Err(SessionError::MissingHeader));
    assert_eq!(session_payload(b"mozLz40\0"), Err(SessionError::Decompress));
    assert_eq!(session_payload(b"mozLz40\0\xff\xff\xff\xff\x00"), Err(SessionError::Decompress));
}

#[test]
fn session_cookies_come_out_in_order() {
    let s = MozSession { cookies: vec![bare("a", "d"), bare("b", "d")] };
    let names: Vec<String> = s.into_cookies().into_iter().map(|c| c.name).collect();
    assert_eq!(names, vec!["a", "b"]);
}

fn entry(path: &str, name: &str, is_dir: bool) -> ProfileEntry {
    ProfileEntry { path: path.to_string(), file_name: name.to_string(), is_dir }
}

#[test]
fn profile_selection() {
    let entries = vec![
        entry("/p/profiles.ini", "profiles.ini", false),
        entry("/p/abc.default-release", "abc.default-release", true),
        entry("/p/xyz.default", "xyz.default", true),
    ];
    assert_eq!(select_profile(&entries, None), Some(2));
    let work = "work".to_string();
    assert_eq!(select_profile(&entries, Some(&work)), None);
    let release = "release".to_string();
    assert_eq!(select_profile(&entries, Some(&release)), Some(1));
    let abc = "abc".to_string();
    assert_eq!(select_profile(&entries, Some(&abc)), Some(1));
    let ini = "ini".to_string();
    assert_eq!(select_profile(&entries, Some(&ini)), None);
}

#[test]
fn default_output_format() {
    assert_eq!(OutputFormat::default(), OutputFormat::Javascript);
}

#[test]
fn json_object_from_quoted_fields() {
    let mut c = bare("ignored", "ignored");
    c.http_only = Some(true);
    c.same_site = Some(false);
    c.expires = Some(-3);
    let out = json_object_text(&c, "\"n\"", "\"v\"", "\"d\"", "\"/\"");
    assert_eq!(
        out,
        "{\"name\":\"n\",\"value\":\"v\",\"domain\":\"d\",\"path\":\"/\",\"expires\":-3,\"http_only\":true,\"secure\":null,\"same_site\":false}"
    );
}
