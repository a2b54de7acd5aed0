//! Percent-encoding of text for `data:` URIs, as JavaScript's `encodeURIComponent` does it.
use vstd::prelude::*;
use vstd::utf8::*;
use crate::text::{chars_of, push_char};

verus! {

/// Characters that `encodeURIComponent` leaves as they are.
pub open spec fn uri_unreserved(c: char) -> bool {
    ||| ('A' <= c && c <= 'Z')
    ||| ('a' <= c && c <= 'z')
    ||| ('0' <= c && c <= '9')
    ||| c == '-' || c == '_' || c == '.' || c == '!' || c == '~'
    ||| c == '*' || c == '\'' || c == '(' || c == ')'
}

/// The upper-case hexadecimal digit for `d` in `0..16`.
pub open spec fn hex_upper(d: int) -> char {
    if d < 10 {
        (d + 48) as char
    } else {
        (d + 55) as char
    }
}

/// `%XY` for one byte.
pub open spec fn percent_byte(b: u8) -> Seq<char> {
    seq!['%', hex_upper(b as int / 16), hex_upper(b as int % 16)]
}

pub open spec fn percent_bytes(bs: Seq<u8>) -> Seq<char>
    decreases bs.len(),
{
    if bs.len() == 0 {
        Seq::empty()
    } else {
        percent_byte(bs[0]) + percent_bytes(bs.drop_first())
    }
}

/// One character: itself when unreserved, else its UTF-8 bytes percent-encoded.
pub open spec fn encode_uri_char(c: char) -> Seq<char> {
    if uri_unreserved(c) {
        seq![c]
    } else {
        percent_bytes(encode_scalar(c as u32))
    }
}

/// `encodeURIComponent` of a whole string.
pub open spec fn encode_uri(s: Seq<char>) -> Seq<char>
    decreases s.len(),
{
    if s.len() == 0 {
        Seq::empty()
    } else {
        encode_uri_char(s[0]) + encode_uri(s.drop_first())
    }
}

fn is_unreserved(c: char) -> (b: bool)
    ensures
        b == uri_unreserved(c),
{
    (c >= 'A' && c <= 'Z') || (c >= 'a' && c <= 'z') || (c >= '0' && c <= '9') || c == '-'
        || c == '_' || c == '.' || c == '!' || c == '~' || c == '*' || c == '\'' || c == '('
        || c == ')'
}

fn hex_digit(d: u8) -> (c: char)
    requires
        d < 16,
    ensures
        c == hex_upper(d as int),
{
    if d < 10 {
        (d + 48) as char
    } else {
        (d + 55) as char
    }
}

fn push_percent_byte(out: &mut String, b: u8)
    ensures
        final(out)@ == old(out)@ + percent_byte(b),
{
    push_char(out, '%');
    push_char(out, hex_digit(b / 16));
    push_char(out, hex_digit(b % 16));
    assert(final(out)@ =~= old(out)@ + percent_byte(b));
}

/// The UTF-8 bytes of a character.
fn utf8_bytes(c: char) -> (bs: Vec<u8>)
    ensures
        bs@ == encode_scalar(c as u32),
{
    let v = c as u32;
    let mut bs: Vec<u8> = Vec::new();
    if v <= 0x7F {
        bs.push((v & 0x7F) as u8);
    } else if v <= 0x7FF {
        bs.push(0xC0 | ((v >> 6) & 0x1F) as u8);
        bs.push(0x80 | (v & 0x3F) as u8);
    } else if v <= 0xFFFF {
        bs.push(0xE0 | ((v >> 12) & 0x0F) as u8);
        bs.push(0x80 | ((v >> 6) & 0x3F) as u8);
        bs.push(0x80 | (v & 0x3F) as u8);
    } else {
        bs.push(0xF0 | ((v >> 18) & 0x7) as u8);
        bs.push(0x80 | ((v >> 12) & 0x3F) as u8);
        bs.push(0x80 | ((v >> 6) & 0x3F) as u8);
        bs.push(0x80 | (v & 0x3F) as u8);
    }
    proof {
        vstd::utf8::char_is_scalar(c);
    }
    assert(bs@ =~= encode_scalar(v));
    bs
}

/// Percent-encodes `s` as JavaScript's `encodeURIComponent` does.
pub fn encode_uri_component(s: &str) -> (out: String)
    ensures
        out@ == encode_uri(s@),
{
    let v = chars_of(s);
    let mut out = String::new();
    let mut i: usize = 0;
    assert(v@.skip(0) =~= v@);
    while i < v.len()
        invariant
            v@ == s@,
            i <= v.len(),
            encode_uri(s@) == out@ + encode_uri(v@.skip(i as int)),
        decreases v.len() - i,
    {
        let c = v[i];
        let ghost before = out@;
        assert(v@.skip(i as int)[0] == c);
        assert(v@.skip(i as int).drop_first() =~= v@.skip(i + 1));
        if is_unreserved(c) {
            push_char(&mut out, c);
            assert(before.push(c) =~= before + encode_uri_char(c));
        } else {
            let bs = utf8_bytes(c);
            let mut j: usize = 0;
            assert(bs@.skip(0) =~= bs@);
            while j < bs.len()
                invariant
                    j <= bs.len(),
                    before + percent_bytes(bs@) == out@ + percent_bytes(bs@.skip(j as int)),
                decreases bs.len() - j,
            {
                let ghost mid = out@;
                assert(bs@.skip(j as int)[0] == bs[j as int]);
                assert(bs@.skip(j as int).drop_first() =~= bs@.skip(j + 1));
                push_percent_byte(&mut out, bs[j]);
                assert(mid + percent_bytes(bs@.skip(j as int))
                    =~= out@ + percent_bytes(bs@.skip(j + 1)));
                j = j + 1;
            }
            assert(bs@.skip(j as int).len() == 0);
            assert(out@ + percent_bytes(bs@.skip(j as int)) =~= out@);
        }
        assert(encode_uri(v@.skip(i as int)) == encode_uri_char(c) + encode_uri(v@.skip(i + 1)));
        assert(before + encode_uri_char(c) + encode_uri(v@.skip(i + 1))
            =~= before + (encode_uri_char(c) + encode_uri(v@.skip(i + 1))));
        i = i + 1;
    }
    assert(v@.skip(i as int).len() == 0);
    assert(out@ + encode_uri(v@.skip(i as int)) =~= out@);
    out
}

/// The value of an upper-case hexadecimal digit.
pub open spec fn hex_value(c: char) -> int {
    if '0' <= c && c <= '9' {
        c as int - 48
    } else {
        c as int - 55
    }
}

/// Percent-decoding to bytes: `%XY` stands for the byte with hexadecimal value
/// XY, and any other character for its own code as a byte.
pub open spec fn percent_decode(t: Seq<char>) -> Seq<u8>
    decreases t.len(),
{
    if t.len() == 0 {
        Seq::empty()
    } else if t[0] == '%' && t.len() >= 3 {
        seq![(hex_value(t[1]) * 16 + hex_value(t[2])) as u8] + percent_decode(t.skip(3))
    } else {
        seq![(t[0] as u32) as u8] + percent_decode(t.drop_first())
    }
}

proof fn lemma_hex_digit_value(d: int)
    requires
        0 <= d < 16,
    ensures
        hex_value(hex_upper(d)) == d,
{
}

proof fn lemma_decode_percent_bytes(bs: Seq<u8>, rest: Seq<char>)
    ensures
        percent_decode(percent_bytes(bs) + rest) == bs + percent_decode(rest),
    decreases bs.len(),
{
    if bs.len() == 0 {
        assert(percent_bytes(bs) + rest =~= rest);
        assert(bs + percent_decode(rest) =~= percent_decode(rest));
    } else {
        let b = bs[0];
        let t = percent_bytes(bs) + rest;
        assert(t =~= percent_byte(b) + (percent_bytes(bs.drop_first()) + rest));
        lemma_hex_digit_value(b as int / 16);
        lemma_hex_digit_value(b as int % 16);
        assert(t[0] == '%');
        assert(t[1] == hex_upper(b as int / 16));
        assert(t[2] == hex_upper(b as int % 16));
        assert(t.skip(3) =~= percent_bytes(bs.drop_first()) + rest);
        assert((hex_value(t[1]) * 16 + hex_value(t[2])) as u8 == b);
        lemma_decode_percent_bytes(bs.drop_first(), rest);
        assert(seq![b] + (bs.drop_first() + percent_decode(rest)) =~= bs + percent_decode(rest));
    }
}

proof fn lemma_ascii_scalar(v: u32)
    requires
        v <= 0x7F,
    ensures
        encode_scalar(v) == seq![v as u8],
{
    assert((v & 0x7F) as u8 == v as u8) by (bit_vector)
        requires
            v <= 0x7F,
    ;
}

proof fn lemma_decode_encode_uri(s: Seq<char>)
    ensures
        percent_decode(encode_uri(s)) == encode_utf8(s),
    decreases s.len(),
{
    if s.len() == 0 {
    } else {
        let c = s[0];
        let rest = encode_uri(s.drop_first());
        lemma_decode_encode_uri(s.drop_first());
        if uri_unreserved(c) {
            let t = seq![c] + rest;
            assert(t[0] == c);
            assert(t.drop_first() =~= rest);
            lemma_ascii_scalar(c as u32);
        } else {
            lemma_decode_percent_bytes(encode_scalar(c as u32), rest);
        }
    }
}

/// Percent-decoding the encoded text and reading the bytes as UTF-8 gives the
/// text back: the encoding loses nothing.
pub proof fn lemma_decoding_gives_back_text(s: Seq<char>)
    ensures
        decode_utf8(percent_decode(encode_uri(s))) == s,
{
    lemma_decode_encode_uri(s);
    vstd::utf8::encode_utf8_decode_utf8(s);
}

/// A character is kept as it is exactly when it is a letter, a digit, or one of
/// `- _ . ! ~ * ' ( )`; every other character, `%` included, is replaced by the
/// `%XY` codes of its UTF-8 bytes.
pub proof fn lemma_kept_characters(c: char)
    ensures
        (encode_uri(seq![c]) == seq![c]) <==> (('A' <= c && c <= 'Z') || ('a' <= c && c <= 'z') || ('0' <= c
            && c <= '9') || c == '-' || c == '_' || c == '.' || c == '!' || c == '~' || c == '*' || c == '\''
            || c == '(' || c == ')'),
        !(('A' <= c && c <= 'Z') || ('a' <= c && c <= 'z') || ('0' <= c && c <= '9') || c == '-' || c == '_'
            || c == '.' || c == '!' || c == '~' || c == '*' || c == '\'' || c == '(' || c == ')')
            ==> encode_uri(seq![c]) == percent_bytes(encode_scalar(c as u32)),
{
    let one = seq![c];
    reveal_with_fuel(encode_uri, 2);
    assert(one[0] == c);
    assert(one.drop_first() =~= Seq::<char>::empty());
    assert(encode_uri(Seq::<char>::empty()) == Seq::<char>::empty());
    assert(encode_uri(one) =~= encode_uri_char(c) + Seq::<char>::empty());
    if !uri_unreserved(c) {
        let bs = encode_scalar(c as u32);
        vstd::utf8::char_is_scalar(c);
        assert(bs.len() >= 1);
        assert(percent_bytes(bs) =~= percent_byte(bs[0]) + percent_bytes(bs.drop_first()));
        assert(percent_bytes(bs).len() >= 3);
    }
}

} // verus!
