use vstd::prelude::*;

verus! {

/// The lowercase ASCII hex digit for `d`, which is below 16.
pub open spec fn hex_digit(d: u8) -> u8 {
    if d < 10 {
        (48 + d) as u8
    } else {
        (87 + d) as u8
    }
}

/// The two hex digits of a byte, high nibble first.
pub open spec fn hex_pair(b: u8) -> Seq<u8> {
    seq![hex_digit(b / 16), hex_digit(b % 16)]
}

/// The separator between two entries of a list: a comma and a space.
pub open spec fn list_separator() -> Seq<u8> {
    seq![44u8, 32u8]
}

/// The hex pairs of `s`, separated by `", "`.
pub open spec fn hex_entries(s: Seq<u8>) -> Seq<u8>
    decreases s.len(),
{
    if s.len() == 0 {
        Seq::empty()
    } else if s.len() == 1 {
        hex_pair(s[0])
    } else {
        hex_entries(s.drop_last()) + list_separator() + hex_pair(s.last())
    }
}

/// The list of the bytes of `s` in hex, in brackets: `[68, 65, 0a]`, as
/// `format!("{:02x?}", v)` writes a byte vector.
pub open spec fn hex_list(s: Seq<u8>) -> Seq<u8> {
    seq![91u8] + hex_entries(s) + seq![93u8]
}

fn push_hex_pair(out: &mut Vec<u8>, b: u8)
    ensures
        final(out)@ == old(out)@ + hex_pair(b),
{
    let hi = b / 16;
    let lo = b % 16;
    out.push(if hi < 10 { 48 + hi } else { 87 + hi });
    out.push(if lo < 10 { 48 + lo } else { 87 + lo });
    assert(final(out)@ =~= old(out)@ + hex_pair(b));
}

/// The bytes of `bytes` as a bracketed list of two-digit lowercase hex
/// numbers separated by `", "`, in ASCII.
pub fn hex_dump(bytes: &Vec<u8>) -> (r: Vec<u8>)
    ensures
        r@ == hex_list(bytes@),
{
    let mut out: Vec<u8> = Vec::new();
    out.push(91);
    let mut i: usize = 0;
    while i < bytes.len()
        invariant
            i <= bytes@.len(),
            out@ == seq![91u8] + hex_entries(bytes@.take(i as int)),
        decreases bytes@.len() - i,
    {
        assert(bytes@.take(i + 1).drop_last() =~= bytes@.take(i as int));
        if i > 0 {
            out.push(44);
            out.push(32);
        }
        push_hex_pair(&mut out, bytes[i]);
        assert(out@ =~= seq![91u8] + hex_entries(bytes@.take(i + 1)));
        i = i + 1;
    }
    out.push(93);
    assert(bytes@.take(i as int) =~= bytes@);
    assert(out@ =~= hex_list(bytes@));
    out
}

} // verus!
