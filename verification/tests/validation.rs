use tokengator::validation::{is_valid_url, is_valid_username};

#[test]
fn username_too_short_two_chars_fails() {
    assert!(!is_valid_username("ab"));
}

#[test]
fn username_three_chars_passes() {
    assert!(is_valid_username("abc"));
}

#[test]
fn username_at_ceiling_passes() {
    let name: String = std::iter::repeat('a').take(50).collect();
    assert!(is_valid_username(&name));
}

#[test]
fn username_over_ceiling_fails() {
    let name: String = std::iter::repeat('a').take(51).collect();
    assert!(!is_valid_username(&name));
}

#[test]
fn url_plain_https_passes() {
    assert!(is_valid_url("https://example.com/logo.png"));
}

#[test]
fn url_plain_http_passes() {
    assert!(is_valid_url("http://a.b"));
}

#[test]
fn url_localhost_passes() {
    assert!(is_valid_url("http://localhost:3000/x"));
}

#[test]
fn url_bracketed_host_passes() {
    assert!(is_valid_url("http://[::1]/x"));
}

#[test]
fn url_wrong_scheme_fails() {
    assert!(!is_valid_url("ftp://example.com"));
}

#[test]
fn url_no_content_after_scheme_fails() {
    assert!(!is_valid_url("https://"));
}

#[test]
fn url_bare_slash_after_scheme_fails() {
    assert!(!is_valid_url("https:///"));
}

#[test]
fn url_two_separators_fail() {
    assert!(!is_valid_url("https://a.com://b.com"));
}

#[test]
fn url_double_dot_fails() {
    assert!(!is_valid_url("https://example..com/x"));
}

#[test]
fn url_leading_dot_after_scheme_fails() {
    assert!(!is_valid_url("http://.example.com"));
}

#[test]
fn url_trailing_dot_fails() {
    assert!(!is_valid_url("http://example.com."));
}

#[test]
fn url_no_dot_no_localhost_fails() {
    assert!(!is_valid_url("https://examplecom/x"));
}

#[test]
fn url_hyphen_after_scheme_fails() {
    assert!(!is_valid_url("http://-foo.com"));
}

#[test]
fn url_hyphen_leaning_on_dot_fails() {
    assert!(!is_valid_url("https://foo.-bar.com"));
    assert!(!is_valid_url("https://foo-.bar.com"));
}

#[test]
fn url_mixed_battery() {
    let accepted = [
        "https://example.com",
        "https://sub.domain.example.com/path/to/x",
        "http://[2001:db8::1]/x",
        "https://local-host.com/a-b",
        "https://x.com/",
    ];
    for url in accepted {
        assert!(is_valid_url(url), "{url}");
    }
    let rejected = [
        "http://a.b.",
        "http://a..b",
        "localhost",
        "http:/localhost",
        "https://example.com/a..b",
        "http://example.com/.",
        "HTTPS://EXAMPLE.COM",
    ];
    for url in rejected {
        assert!(!is_valid_url(url), "{url}");
    }
}
