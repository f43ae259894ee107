use vstd::prelude::*;
use vstd::string::*;

use crate::config::RunConfig;
use crate::decimal::{all_digits, decimal, decimal_digits, digits_value, lemma_decimal_round_trip};

verus! {

/// Host name that the probe authenticates the server by.
pub const SERVER_NAME: &'static str = "cloudflare-dns.com";

/// UDP port of the server.
pub const SERVER_PORT: u16 = 443;

/// The one application protocol that the handshake offers.
pub const ALPN_PROTOCOL: &'static str = "h3";

/// Target of the DNS-over-HTTPS request.
pub const REQUEST_URI: &'static str = "https://cloudflare-dns.com/dns-query";

/// Media type of a DNS wire-format message.
pub const DNS_MESSAGE_MEDIA_TYPE: &'static str = "application/dns-message";

/// IPv4 address of the server, octet by octet.
pub fn server_ipv4() -> (r: [u8; 4])
    ensures
        r@ == seq![1u8, 1u8, 1u8, 1u8],
{
    let r: [u8; 4] = [1, 1, 1, 1];
    assert(r@ =~= seq![1u8, 1u8, 1u8, 1u8]);
    r
}

/// The request headers that the probe can send.
#[derive(Clone, Copy, Debug, PartialEq, Eq, Structural)]
pub enum HeaderName {
    ContentType,
    Accept,
    ContentLength,
}

/// The text of a header name, as it is written on the request.
pub open spec fn header_name_text(n: HeaderName) -> Seq<char> {
    match n {
        HeaderName::ContentType => "Content-Type"@,
        HeaderName::Accept => "Accept"@,
        HeaderName::ContentLength => "Content-Length"@,
    }
}

impl HeaderName {
    /// The text of this header name.
    pub fn as_str(&self) -> (r: &'static str)
        ensures
            r@ == header_name_text(*self),
    {
        match self {
            HeaderName::ContentType => "Content-Type",
            HeaderName::Accept => "Accept",
            HeaderName::ContentLength => "Content-Length",
        }
    }
}

/// One header of the outgoing request: its name and its value as bytes.
#[derive(Debug)]
pub struct HeaderField {
    pub name: HeaderName,
    pub value: Vec<u8>,
}

impl View for HeaderField {
    type V = (HeaderName, Seq<u8>);

    open spec fn view(&self) -> (HeaderName, Seq<u8>) {
        (self.name, self.value@)
    }
}

/// The bytes of the DNS message media type.
pub open spec fn media_type_bytes() -> Seq<u8> {
    DNS_MESSAGE_MEDIA_TYPE.spec_bytes()
}

/// The headers of the request for a run with `config` and a body of
/// `payload_len` bytes, in the order in which they are added.
pub open spec fn spec_request_headers(config: RunConfig, payload_len: nat) -> Seq<(HeaderName, Seq<u8>)> {
    let fixed = seq![
        (HeaderName::ContentType, media_type_bytes()),
        (HeaderName::Accept, media_type_bytes()),
    ];
    if config.send_content_length {
        fixed.push((HeaderName::ContentLength, decimal_digits(payload_len)))
    } else {
        fixed
    }
}

/// The views of a list of header fields.
pub open spec fn fields_view(fields: Seq<HeaderField>) -> Seq<(HeaderName, Seq<u8>)> {
    fields.map_values(|f: HeaderField| f@)
}

/// The headers of the request that a run with `config` sends with a body of
/// `payload_len` bytes: the media type as `Content-Type` and `Accept`, then,
/// only where `config` asks for it, the decimal length as `Content-Length`.
pub fn request_headers(config: RunConfig, payload_len: usize) -> (r: Vec<HeaderField>)
    ensures
        fields_view(r@) == spec_request_headers(config, payload_len as nat),
{
    let mut r: Vec<HeaderField> = Vec::new();
    r.push(HeaderField { name: HeaderName::ContentType, value: DNS_MESSAGE_MEDIA_TYPE.as_bytes_vec() });
    r.push(HeaderField { name: HeaderName::Accept, value: DNS_MESSAGE_MEDIA_TYPE.as_bytes_vec() });
    if config.send_content_length {
        r.push(HeaderField { name: HeaderName::ContentLength, value: decimal(payload_len) });
    }
    assert(fields_view(r@) =~= spec_request_headers(config, payload_len as nat));
    r
}

/// A request carries a `Content-Length` header exactly when its run asks for
/// one, and then only one, whose value is a string of decimal digits that
/// reads back as the exact length of the body.
pub proof fn lemma_content_length_header(config: RunConfig, payload_len: nat)
    ensures
        config.send_content_length <==> exists|i: int|
            0 <= i < spec_request_headers(config, payload_len).len()
                && (#[trigger] spec_request_headers(config, payload_len)[i]).0 == HeaderName::ContentLength,
        forall|i: int|
            0 <= i < spec_request_headers(config, payload_len).len()
                && (#[trigger] spec_request_headers(config, payload_len)[i]).0 == HeaderName::ContentLength
                ==> {
                &&& i == spec_request_headers(config, payload_len).len() - 1
                &&& all_digits(spec_request_headers(config, payload_len)[i].1)
                &&& digits_value(spec_request_headers(config, payload_len)[i].1) == payload_len
            },
{
    let h = spec_request_headers(config, payload_len);
    lemma_decimal_round_trip(payload_len);
    if config.send_content_length {
        assert(h[2].0 == HeaderName::ContentLength);
    }
}

} // verus!
