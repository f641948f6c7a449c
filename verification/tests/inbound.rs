use proxy_headers::{blocked_header, transform_header_s2c, Header, BLOCKED_HEADERS};
use url::Url;

fn header(name: &str, value: &str) -> Header {
    Header { name: name.to_string(), value: value.to_string() }
}

fn request() -> Url {
    Url::parse("https://example.com/page").expect("an absolute URL")
}

#[test]
fn blocked_names_are_dropped_inbound() {
    for name in BLOCKED_HEADERS {
        assert_eq!(transform_header_s2c(header(name, "anything"), &request()), None);
    }
    for name in ["Content-Security-Policy", "TRANSFER-ENCODING", "Referrer-policy"] {
        assert_eq!(transform_header_s2c(header(name, "x"), &request()), None);
    }
}

#[test]
fn origin_relative_location_goes_through_the_proxy() {
    let out = transform_header_s2c(header("Location", "/login"), &request());
    assert_eq!(out, Some(header("Location", "/~/https%3A%2F%2Fexample.com%2Flogin")));
}

#[test]
fn location_keeps_the_spelling_of_its_name() {
    let out = transform_header_s2c(header("lOcAtIoN", "/login"), &request());
    assert_eq!(out, Some(header("lOcAtIoN", "/~/https%3A%2F%2Fexample.com%2Flogin")));
}

#[test]
fn absolute_location_goes_through_the_proxy() {
    let out = transform_header_s2c(header("Location", "http://other.example/a?b=c"), &request());
    assert_eq!(out, Some(header("Location", "/~/http%3A%2F%2Fother.example%2Fa%3Fb%3Dc")));
}

#[test]
fn relative_location_resolves_against_the_request() {
    let base = Url::parse("https://example.com/dir/page?x=1").expect("an absolute URL");
    let out = transform_header_s2c(header("Location", "next"), &base);
    assert_eq!(out, Some(header("Location", "/~/https%3A%2F%2Fexample.com%2Fdir%2Fnext")));
    let out = transform_header_s2c(header("Location", "?y=2"), &base);
    assert_eq!(
        out,
        Some(header("Location", "/~/https%3A%2F%2Fexample.com%2Fdir%2Fpage%3Fy%3D2"))
    );
    let out = transform_header_s2c(header("Location", ""), &base);
    assert_eq!(
        out,
        Some(header("Location", "/~/https%3A%2F%2Fexample.com%2Fdir%2Fpage%3Fx%3D1"))
    );
}

#[test]
fn location_that_does_not_resolve_is_left_alone() {
    for value in ["https://[not-an-address]/", "http://exa mple.com/", "https://:80"] {
        assert!(request().join(value).is_err());
        let out = transform_header_s2c(header("Location", value), &request());
        assert_eq!(out, Some(header("Location", value)));
    }
}

#[test]
fn location_against_a_base_without_hierarchy_is_left_alone() {
    let base = Url::parse("mailto:someone@example.com").expect("an absolute URL");
    let out = transform_header_s2c(header("Location", "/login"), &base);
    assert_eq!(out, Some(header("Location", "/login")));
}

#[test]
fn other_response_headers_pass_unchanged() {
    for (name, value) in [
        ("Content-Type", "text/html"),
        ("Set-Cookie", "a=b; Path=/"),
        ("Referer", "https://proxy.example/~/x"),
        ("User-Agent", "curl/8.0"),
        ("X-Forwarded-For", "203.0.113.7"),
        ("Location-", "/login"),
    ] {
        let out = transform_header_s2c(header(name, value), &request());
        assert_eq!(out, Some(header(name, value)));
    }
}

#[test]
fn second_blocklist_check_drops_nothing_inbound() {
    let set = vec![
        header("Content-Type", "text/html"),
        header("Content-Encoding", "gzip"),
        header("Location", "/login"),
        header("Content-Security-Policy", "default-src 'self'"),
    ];
    let back: Vec<Header> =
        set.into_iter().filter_map(|h| transform_header_s2c(h, &request())).collect();
    assert_eq!(back.len(), 2);
    assert!(back.iter().all(|h| !blocked_header(h)));
}
