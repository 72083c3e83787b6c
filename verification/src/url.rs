//! Percent-encoding of query values: every UTF-8 byte outside the unreserved
//! set becomes `%XX` (upper-case hex).
use vstd::prelude::*;
use vstd::utf8::encode_utf8;

verus! {

/// An unreserved byte: ASCII letter, digit, `-`, `.`, `_`, `~`, and `/` when
/// `keep_slash`.
pub open spec fn is_unreserved(b: u8, keep_slash: bool) -> bool {
    (0x41 <= b && b <= 0x5a) || (0x61 <= b && b <= 0x7a) || (0x30 <= b && b <= 0x39) || b == 0x2d
        || b == 0x2e || b == 0x5f || b == 0x7e || (keep_slash && b == 0x2f)
}

/// Upper-case hexadecimal digit of `n < 16`.
pub open spec fn hex_char(n: u8) -> char {
    if n == 0 { '0' } else if n == 1 { '1' } else if n == 2 { '2' } else if n == 3 { '3' }
    else if n == 4 { '4' } else if n == 5 { '5' } else if n == 6 { '6' } else if n == 7 { '7' }
    else if n == 8 { '8' } else if n == 9 { '9' } else if n == 10 { 'A' } else if n == 11 { 'B' }
    else if n == 12 { 'C' } else if n == 13 { 'D' } else if n == 14 { 'E' } else { 'F' }
}

/// The encoding of one byte.
pub open spec fn encode_byte(b: u8, keep_slash: bool) -> Seq<char> {
    if is_unreserved(b, keep_slash) {
        seq![b as char]
    } else {
        seq!['%', hex_char(b / 16), hex_char(b % 16)]
    }
}

/// The encoding of a byte string.
pub open spec fn spec_urlencode(bytes: Seq<u8>, keep_slash: bool) -> Seq<char>
    decreases bytes.len(),
{
    if bytes.len() == 0 {
        Seq::empty()
    } else {
        spec_urlencode(bytes.drop_last(), keep_slash) + encode_byte(bytes.last(), keep_slash)
    }
}

fn hex(n: u8) -> (c: char)
    requires
        n < 16,
    ensures
        c == hex_char(n),
{
    if n == 0 { '0' } else if n == 1 { '1' } else if n == 2 { '2' } else if n == 3 { '3' }
    else if n == 4 { '4' } else if n == 5 { '5' } else if n == 6 { '6' } else if n == 7 { '7' }
    else if n == 8 { '8' } else if n == 9 { '9' } else if n == 10 { 'A' } else if n == 11 { 'B' }
    else if n == 12 { 'C' } else if n == 13 { 'D' } else if n == 14 { 'E' } else { 'F' }
}

fn encode_into(out: &mut String, s: &str, keep_slash: bool)
    ensures
        final(out)@ == old(out)@ + spec_urlencode(encode_utf8(s@), keep_slash),
{
    let bytes = s.as_bytes();
    let ghost bs = bytes@;
    let mut i: usize = 0;
    while i < bytes.len()
        invariant
            bs == bytes@,
            bs == encode_utf8(s@),
            i <= bs.len(),
            out@ == old(out)@ + spec_urlencode(bs.take(i as int), keep_slash),
        decreases bs.len() - i,
    {
        let b = bytes[i];
        proof {
            assert(bs.take(i + 1).drop_last() =~= bs.take(i as int));
            assert(bs.take(i + 1).last() == b);
        }
        if (0x41 <= b && b <= 0x5a) || (0x61 <= b && b <= 0x7a) || (0x30 <= b && b <= 0x39) || b
            == 0x2d || b == 0x2e || b == 0x5f || b == 0x7e || (keep_slash && b == 0x2f) {
            out.push(b as char);
        } else {
            out.push('%');
            out.push(hex(b / 16));
            out.push(hex(b % 16));
        }
        assert(out@ =~= old(out)@ + spec_urlencode(bs.take(i + 1), keep_slash));
        i += 1;
    }
    assert(bs.take(bs.len() as int) =~= bs);
}

/// Percent-encode every byte but the unreserved ones.
pub fn urlencode(s: &str) -> (r: String)
    ensures
        r@ == spec_urlencode(encode_utf8(s@), false),
{
    let mut r = String::new();
    encode_into(&mut r, s, false);
    assert(r@ =~= spec_urlencode(encode_utf8(s@), false));
    r
}

/// Percent-encode every byte but the unreserved ones and `/`.
pub fn urlencode_path(s: &str) -> (r: String)
    ensures
        r@ == spec_urlencode(encode_utf8(s@), true),
{
    let mut r = String::new();
    encode_into(&mut r, s, true);
    assert(r@ =~= spec_urlencode(encode_utf8(s@), true));
    r
}

/// Appends the encoding of `s`.
pub fn push_urlencoded(out: &mut String, s: &str, keep_slash: bool)
    ensures
        final(out)@ == old(out)@ + spec_urlencode(encode_utf8(s@), keep_slash),
{
    encode_into(out, s, keep_slash);
}

} // verus!
