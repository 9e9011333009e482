//! The parts of an outgoing request that tracing reads, held as plain values,
//! and what is derived from them: the span name and the span attributes.
use opentelemetry_semantic_conventions::trace::{
    HTTP_FLAVOR, HTTP_METHOD, HTTP_STATUS_CODE, HTTP_URL, NET_PEER_IP,
};
use vstd::prelude::*;

verus! {

/// A request URI: its full text and the components that the span name uses.
#[derive(Debug, Clone, PartialEq, Eq)]
pub struct RequestUri {
    pub text: String,
    pub scheme: Option<String>,
    pub authority: Option<String>,
    pub path: String,
}

/// A request that has not been sent yet.
#[derive(Debug, Clone, PartialEq, Eq)]
pub struct PendingRequest {
    /// Method token, such as `GET`.
    pub method: String,
    pub uri: RequestUri,
    /// Protocol version as the client renders it, such as `HTTP/1.1`.
    pub version: String,
    /// Textual address of the peer, when it is known.
    pub peer_addr: Option<String>,
}

/// Value of a span attribute.
#[derive(Debug, Clone, PartialEq, Eq)]
pub enum AttributeValue {
    Text(String),
    Int(i64),
}

/// A key and a typed value attached to a span.
#[derive(Debug, Clone, PartialEq, Eq)]
pub struct Attribute {
    pub key: String,
    pub value: AttributeValue,
}

pub open spec fn is_text_attribute(a: Attribute, key: Seq<char>, value: Seq<char>) -> bool {
    &&& a.key@ == key
    &&& match a.value {
        AttributeValue::Text(t) => t@ == value,
        AttributeValue::Int(_) => false,
    }
}

pub open spec fn is_int_attribute(a: Attribute, key: Seq<char>, value: int) -> bool {
    &&& a.key@ == key
    &&& match a.value {
        AttributeValue::Text(_) => false,
        AttributeValue::Int(n) => n as int == value,
    }
}

/// Relies on `opentelemetry_semantic_conventions::trace::HTTP_METHOD` and
/// `Key::as_str`: the key text is `http.method`.
#[verifier::external_body]
fn method_key() -> (r: String)
    ensures
        r@ == "http.method"@,
{
    HTTP_METHOD.as_str().to_string()
}

/// Relies on `opentelemetry_semantic_conventions::trace::HTTP_URL` and
/// `Key::as_str`: the key text is `http.url`.
#[verifier::external_body]
fn url_key() -> (r: String)
    ensures
        r@ == "http.url"@,
{
    HTTP_URL.as_str().to_string()
}

/// Relies on `opentelemetry_semantic_conventions::trace::HTTP_FLAVOR` and
/// `Key::as_str`: the key text is `http.flavor`.
#[verifier::external_body]
fn flavor_key() -> (r: String)
    ensures
        r@ == "http.flavor"@,
{
    HTTP_FLAVOR.as_str().to_string()
}

/// Relies on `opentelemetry_semantic_conventions::trace::NET_PEER_IP` and
/// `Key::as_str`: the key text is `net.peer.ip`.
#[verifier::external_body]
fn peer_ip_key() -> (r: String)
    ensures
        r@ == "net.peer.ip"@,
{
    NET_PEER_IP.as_str().to_string()
}

/// Relies on `opentelemetry_semantic_conventions::trace::HTTP_STATUS_CODE`
/// and `Key::as_str`: the key text is `http.status_code`.
#[verifier::external_body]
fn status_code_key() -> (r: String)
    ensures
        r@ == "http.status_code"@,
{
    HTTP_STATUS_CODE.as_str().to_string()
}

/// The operation name `METHOD SCHEME://AUTHORITY PATH` (without the blank
/// between authority and path); a missing scheme drops `SCHEME://`, a missing
/// authority drops the authority.
pub open spec fn span_name_of(
    method: Seq<char>,
    scheme: Option<Seq<char>>,
    authority: Option<Seq<char>>,
    path: Seq<char>,
) -> Seq<char> {
    method + " "@ + match scheme {
        Some(s) => s + "://"@,
        None => Seq::<char>::empty(),
    } + match authority {
        Some(a) => a,
        None => Seq::<char>::empty(),
    } + path
}

pub open spec fn opt_view(o: Option<String>) -> Option<Seq<char>> {
    match o {
        Some(s) => Some(s@),
        None => None,
    }
}

/// The span name of a request.
pub open spec fn request_span_name(req: PendingRequest) -> Seq<char> {
    span_name_of(req.method@, opt_view(req.uri.scheme), opt_view(req.uri.authority), req.uri.path@)
}

/// The protocol version with a leading `HTTP/` removed.
pub open spec fn flavor_of(version: Seq<char>) -> Seq<char> {
    if version.len() >= 5 && version.subrange(0, 5) == "HTTP/"@ {
        version.subrange(5, version.len() as int)
    } else {
        version
    }
}

/// `attrs` is the attribute list that describes `req`: method, URL and
/// protocol flavor, then the peer address only when it is known.
pub open spec fn describes_request(attrs: Seq<Attribute>, req: PendingRequest) -> bool {
    &&& attrs.len() == if req.peer_addr is Some { 4nat } else { 3nat }
    &&& is_text_attribute(attrs[0], "http.method"@, req.method@)
    &&& is_text_attribute(attrs[1], "http.url"@, req.uri.text@)
    &&& is_text_attribute(attrs[2], "http.flavor"@, flavor_of(req.version@))
    &&& (req.peer_addr matches Some(p) ==> is_text_attribute(attrs[3], "net.peer.ip"@, p@))
}

/// The operation name of a span for a request to `method` on `uri`.
pub fn span_name(method: &str, uri: &RequestUri) -> (r: String)
    ensures
        r@ == span_name_of(method@, opt_view(uri.scheme), opt_view(uri.authority), uri.path@),
{
    let mut name = method.to_owned();
    name.append(" ");
    match &uri.scheme {
        Some(s) => {
            name.append(s.as_str());
            name.append("://");
        },
        None => {},
    }
    match &uri.authority {
        Some(a) => name.append(a.as_str()),
        None => {},
    }
    name.append(uri.path.as_str());
    name
}

/// The protocol flavor of `version`: the version with a leading `HTTP/`
/// removed.
pub fn flavor(version: &str) -> (r: String)
    ensures
        r@ == flavor_of(version@),
{
    let n = version.unicode_len();
    if n >= 5 {
        let head = version.substring_char(0, 5).to_owned();
        let prefix = "HTTP/".to_owned();
        if head == prefix {
            return version.substring_char(5, n).to_owned();
        }
    }
    version.to_owned()
}

fn copy_text(s: &String) -> (r: String)
    ensures
        r@ == s@,
{
    s.clone()
}

/// The attributes that describe a request at the moment tracing begins.
pub fn request_attributes(req: &PendingRequest) -> (r: Vec<Attribute>)
    ensures
        describes_request(r@, *req),
{
    let mut attrs: Vec<Attribute> = Vec::new();
    attrs.push(Attribute { key: method_key(), value: AttributeValue::Text(copy_text(&req.method)) });
    attrs.push(Attribute { key: url_key(), value: AttributeValue::Text(copy_text(&req.uri.text)) });
    attrs.push(
        Attribute { key: flavor_key(), value: AttributeValue::Text(flavor(req.version.as_str())) },
    );
    match &req.peer_addr {
        Some(p) => {
            attrs.push(Attribute { key: peer_ip_key(), value: AttributeValue::Text(copy_text(p)) });
        },
        None => {},
    }
    attrs
}

/// The attribute that records a response status code.
pub fn status_attribute(status: u16) -> (r: Attribute)
    ensures
        is_int_attribute(r, "http.status_code"@, status as int),
{
    Attribute { key: status_code_key(), value: AttributeValue::Int(status as i64) }
}

/// A copy of an attribute.
pub fn copy_attribute(a: &Attribute) -> (r: Attribute)
    ensures
        r == *a,
{
    let value = match &a.value {
        AttributeValue::Text(t) => AttributeValue::Text(t.clone()),
        AttributeValue::Int(n) => AttributeValue::Int(*n),
    };
    Attribute { key: a.key.clone(), value }
}

/// A copy of a list of attributes.
pub fn copy_attributes(attrs: &Vec<Attribute>) -> (r: Vec<Attribute>)
    ensures
        r@ == attrs@,
{
    let mut copied: Vec<Attribute> = Vec::new();
    let mut i: usize = 0;
    while i < attrs.len()
        invariant
            i <= attrs@.len(),
            copied@ == attrs@.subrange(0, i as int),
        decreases attrs@.len() - i,
    {
        copied.push(copy_attribute(&attrs[i]));
        assert(copied@ =~= attrs@.subrange(0, i + 1));
        i = i + 1;
    }
    assert(copied@ =~= attrs@);
    copied
}

} // verus!
