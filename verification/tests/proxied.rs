use afire::internal::encoding::url::{decode, encode};
use proxy_headers::{
    marker_suffix, proxied_path, rewrite_referer, transform_header_s2c, Header, MARKER,
};
use url::Url;

#[test]
fn marker_is_slash_tilde_slash() {
    assert_eq!(MARKER, "/~/");
}

#[test]
fn proxied_path_puts_the_marker_in_front() {
    assert_eq!(proxied_path("https%3A%2F%2Fexample.com%2F"), "/~/https%3A%2F%2Fexample.com%2F");
    assert_eq!(proxied_path(""), "/~/");
    assert_eq!(proxied_path("/~/"), "/~//~/");
}

#[test]
fn marker_suffix_of_a_path_without_marker() {
    for path in ["", "/", "/~", "~/", "/~x/", "/ ~/", "/a/b/c", "~/~", "\u{00E9}/~"] {
        assert_eq!(marker_suffix(path), None);
    }
}

#[test]
fn marker_suffix_follows_the_first_marker() {
    assert_eq!(marker_suffix("/~/"), Some(""));
    assert_eq!(marker_suffix("/~/x"), Some("x"));
    assert_eq!(marker_suffix("//~/x"), Some("x"));
    assert_eq!(marker_suffix("/~/~/x"), Some("~/x"));
    assert_eq!(marker_suffix("/a/~/b/~/c"), Some("b/~/c"));
    assert_eq!(marker_suffix("/~//~/"), Some("/~/"));
    assert_eq!(marker_suffix("abc/~/"), Some(""));
}

#[test]
fn marker_suffix_counts_characters_not_bytes() {
    assert_eq!(marker_suffix("\u{00E9}\u{1F980}/~/\u{00FC}x"), Some("\u{00FC}x"));
    assert_eq!(marker_suffix("/\u{00E9}~/\u{00E9}/~/\u{4E2D}"), Some("\u{4E2D}"));
}

#[test]
fn proxied_path_hands_its_payload_back() {
    for payload in ["", "x", "/~/", "a/~/b", "https%3A%2F%2Fexample.com%2F", "\u{00FC}"] {
        assert_eq!(marker_suffix(&proxied_path(payload)), Some(payload));
    }
}

#[test]
fn codec_round_trips_on_absolute_urls() {
    for text in [
        "https://en.wikipedia.org/wiki/Main_Page",
        "https://example.com/login",
        "http://user:pw@example.com:8080/a%20b/c+d?e=f&g=h%2Bi#frag",
        "https://example.com/~/x/~/y",
        "mailto:someone@example.com",
        "https://example.com/?q=a+b&r=100%25",
    ] {
        let url = Url::parse(text).expect("an absolute URL");
        assert_eq!(decode(&encode(url.as_str())), url.as_str());
        let path = proxied_path(&encode(url.as_str()));
        assert_eq!(marker_suffix(&path).map(decode), Some(url.as_str().to_string()));
    }
}

#[test]
fn redirect_and_referer_undo_each_other() {
    let request = Url::parse("https://example.com/page").expect("an absolute URL");
    let redirect = Header { name: "Location".to_string(), value: "/a b?c=d+e".to_string() };
    let sent = transform_header_s2c(redirect, &request).expect("kept");
    assert_eq!(sent.value, "/~/https%3A%2F%2Fexample.com%2Fa%2520b%3Fc%3Dd%2Be");
    let referer = format!("https://proxy.example{}", sent.value);
    let restored = rewrite_referer(&referer).expect("kept");
    assert_eq!(restored.value, "https://example.com/a%20b?c=d+e");
    assert_eq!(restored.value, request.join("/a b?c=d+e").expect("resolves").as_str());
}
