use vstd::prelude::*;

use crate::hexdump::{hex_dump, hex_list};

verus! {

/// What lossy UTF-8 decoding makes of a byte string.
pub uninterp spec fn lossy_text(b: Seq<u8>) -> Seq<char>;

/// Every byte of `b` is ASCII.
pub open spec fn is_ascii_bytes(b: Seq<u8>) -> bool {
    forall|i: int| 0 <= i < b.len() ==> #[trigger] b[i] < 128
}

/// The characters whose codes are the bytes of `b`.
pub open spec fn ascii_chars(b: Seq<u8>) -> Seq<char> {
    b.map_values(|x: u8| x as char)
}

/// Relies on `String::from_utf8_lossy`: it decodes `b` as UTF-8 and puts
/// U+FFFD in place of each invalid sequence, so that ASCII input comes back
/// as the same code points.
#[verifier::external_body]
fn decode_lossy(b: &Vec<u8>) -> (r: String)
    ensures
        r@ == lossy_text(b@),
        is_ascii_bytes(b@) ==> r@ == ascii_chars(b@),
{
    String::from_utf8_lossy(b.as_slice()).into_owned()
}

/// How one chunk of a response body is shown: as text, and as hex bytes.
#[derive(Debug)]
pub struct BodyLine {
    /// The chunk decoded as UTF-8, invalid sequences replaced.
    pub text: String,
    /// The chunk as a bracketed list of hex bytes, in ASCII.
    pub hex: Vec<u8>,
}

/// The text and hex renderings of one body chunk.
pub fn render_chunk(chunk: &Vec<u8>) -> (r: BodyLine)
    ensures
        r.text@ == lossy_text(chunk@),
        is_ascii_bytes(chunk@) ==> r.text@ == ascii_chars(chunk@),
        r.hex@ == hex_list(chunk@),
{
    BodyLine { text: decode_lossy(chunk), hex: hex_dump(chunk) }
}

} // verus!
