use actix_web_opentelemetry::request::{
    flavor, request_attributes, span_name, status_attribute, Attribute, AttributeValue,
    PendingRequest, RequestUri,
};

fn uri(text: &str, scheme: Option<&str>, authority: Option<&str>, path: &str) -> RequestUri {
    RequestUri {
        text: text.to_string(),
        scheme: scheme.map(|s| s.to_string()),
        authority: authority.map(|s| s.to_string()),
        path: path.to_string(),
    }
}

fn request(peer: Option<&str>) -> PendingRequest {
    PendingRequest {
        method: "GET".to_string(),
        uri: uri(
            "http://localhost:8080/items?page=2",
            Some("http"),
            Some("localhost:8080"),
            "/items",
        ),
        version: "HTTP/1.1".to_string(),
        peer_addr: peer.map(|p| p.to_string()),
    }
}

fn text(key: &str, value: &str) -> Attribute {
    Attribute { key: key.to_string(), value: AttributeValue::Text(value.to_string()) }
}

#[test]
fn span_name_with_scheme_and_authority() {
    let u = uri("http://localhost:8080/items", Some("http"), Some("localhost:8080"), "/items");
    assert_eq!(span_name("GET", &u), "GET http://localhost:8080/items");
}

#[test]
fn span_name_of_relative_uri_has_no_separator() {
    let u = uri("/items", None, None, "/items");
    assert_eq!(span_name("GET", &u), "GET /items");
}

#[test]
fn span_name_with_authority_but_no_scheme() {
    let u = uri("example.com:443", None, Some("example.com:443"), "/");
    assert_eq!(span_name("CONNECT", &u), "CONNECT example.com:443/");
}

#[test]
fn flavor_strips_http_prefix() {
    assert_eq!(flavor("HTTP/1.1"), "1.1");
    assert_eq!(flavor("HTTP/2.0"), "2.0");
}

#[test]
fn flavor_without_prefix_is_unchanged() {
    assert_eq!(flavor("2.0"), "2.0");
    assert_eq!(flavor("HTTP"), "HTTP");
    assert_eq!(flavor(""), "");
}

#[test]
fn attributes_without_peer_omit_peer_ip() {
    let attrs = request_attributes(&request(None));
    assert_eq!(
        attrs,
        vec![
            text("http.method", "GET"),
            text("http.url", "http://localhost:8080/items?page=2"),
            text("http.flavor", "1.1"),
        ]
    );
    assert!(attrs.iter().all(|a| a.key != "net.peer.ip"));
}

#[test]
fn attributes_with_peer_include_peer_ip() {
    let attrs = request_attributes(&request(Some("10.0.0.5")));
    assert_eq!(attrs.len(), 4);
    assert_eq!(attrs[3], text("net.peer.ip", "10.0.0.5"));
    assert_eq!(attrs[2], text("http.flavor", "1.1"));
}

#[test]
fn status_attribute_carries_the_code() {
    let a = status_attribute(404);
    assert_eq!(a.key, "http.status_code");
    assert_eq!(a.value, AttributeValue::Int(404));
}
