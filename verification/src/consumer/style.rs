//! Minimal ANSI styling. Whether colour is on (stdout is a terminal and
//! `NO_COLOR` is unset) is decided by the caller and passed as `on`.

use vstd::prelude::*;
use vstd::string::*;
use vstd::utf8::{
    decode_utf8, encode_utf8, encode_utf8_decode_utf8, encode_utf8_valid_utf8,
    is_char_boundary, is_char_boundary_iff_not_is_continuation_byte, is_continuation_byte,
};
use crate::text::owned;

verus! {

/// `s` wrapped in the SGR escape `code` when colour is on.
pub open spec fn painted(code: Seq<char>, s: Seq<char>, on: bool) -> Seq<char> {
    if on {
        "\x1b["@ + code + "m"@ + s + "\x1b[0m"@
    } else {
        s
    }
}

/// Wraps `s` in the SGR escape `code` when colour is on.
pub fn paint(code: &str, s: &str, on: bool) -> (r: String)
    ensures
        r@ == painted(code@, s@, on),
{
    if on {
        let mut out = owned("\x1b[");
        out.append(code);
        out.append("m");
        out.append(s);
        out.append("\x1b[0m");
        out
    } else {
        owned(s)
    }
}

pub fn dim(s: &str, on: bool) -> (r: String)
    ensures
        r@ == painted("2"@, s@, on),
{
    paint("2", s, on)
}

pub fn bold(s: &str, on: bool) -> (r: String)
    ensures
        r@ == painted("1"@, s@, on),
{
    paint("1", s, on)
}

pub fn red(s: &str, on: bool) -> (r: String)
    ensures
        r@ == painted("31"@, s@, on),
{
    paint("31", s, on)
}

pub fn green(s: &str, on: bool) -> (r: String)
    ensures
        r@ == painted("32"@, s@, on),
{
    paint("32", s, on)
}

pub fn yellow(s: &str, on: bool) -> (r: String)
    ensures
        r@ == painted("33"@, s@, on),
{
    paint("33", s, on)
}

pub fn cyan(s: &str, on: bool) -> (r: String)
    ensures
        r@ == painted("36"@, s@, on),
{
    paint("36", s, on)
}

pub fn bold_cyan(s: &str, on: bool) -> (r: String)
    ensures
        r@ == painted("1;36"@, s@, on),
{
    paint("1;36", s, on)
}

/// `0x` and more than twelve further bytes: the form that gets shortened.
pub open spec fn short_hex_applies(b: Seq<u8>) -> bool {
    b.len() > 14 && b[0] == 48 && b[1] == 120
}

/// The cut points after the first and before the last four bytes of the
/// hex body fall between characters, so the byte slices exist.
pub open spec fn short_hex_defined(s: Seq<char>) -> bool {
    let b = encode_utf8(s);
    short_hex_applies(b) ==> !is_continuation_byte(b[6]) && !is_continuation_byte(
        b[b.len() - 4],
    )
}

/// `0x1234…abcd` — a `0x` string trimmed to the first and last four bytes of
/// its body; anything else unchanged.
pub open spec fn short_hex_text(s: Seq<char>) -> Seq<char> {
    let b = encode_utf8(s);
    if short_hex_applies(b) {
        "0x"@ + decode_utf8(b.subrange(2, 6)) + "…"@ + decode_utf8(
            b.subrange(b.len() - 4, b.len() as int),
        )
    } else {
        s
    }
}

proof fn lemma_boundary_after_ascii_pair(b: Seq<u8>)
    requires
        vstd::utf8::valid_utf8(b),
        b.len() > 2,
        b[0] < 0x80,
        b[1] < 0x80,
    ensures
        is_char_boundary(b, 2),
{
    is_char_boundary_iff_not_is_continuation_byte(b, 2);
    if is_continuation_byte(b[2]) {
        reveal_with_fuel(is_char_boundary, 3);
        assert(false) by {
            reveal_with_fuel(vstd::utf8::valid_utf8, 3);
        }
    }
}

/// Every ASCII string can be shortened: no byte of it continues a
/// multi-byte character.
pub proof fn lemma_ascii_short_hex_defined(s: Seq<char>)
    requires
        vstd::utf8::is_ascii_chars(s),
    ensures
        short_hex_defined(s),
{
    vstd::utf8::is_ascii_chars_encode_utf8(s);
    let b = encode_utf8(s);
    if short_hex_applies(b) {
        assert(b[6] == s[6] as u8);
        assert('\0' <= s[6] <= '\u{7f}');
        assert(b[b.len() - 4] == s[b.len() - 4] as u8);
        assert('\0' <= s[b.len() - 4] <= '\u{7f}');
    }
}

/// Whether [`short_hex`] can cut `s`: the check a caller makes before
/// calling it.
pub fn short_hex_cuts(s: &str) -> (r: bool)
    ensures
        r == short_hex_defined(s@),
{
    let b = s.as_bytes();
    proof {
        encode_utf8_valid_utf8(s@);
    }
    if b.len() > 14 && b[0] == 48 && b[1] == 120 {
        let head = b[6];
        let tail = b[b.len() - 4];
        !(0x80 <= head && head <= 0xbf) && !(0x80 <= tail && tail <= 0xbf)
    } else {
        true
    }
}

/// `0x1234…abcd` — a hex string trimmed to head and tail. The cut is made
/// on bytes, so it must fall between characters.
pub fn short_hex(s: &str) -> (r: String)
    requires
        short_hex_defined(s@),
    ensures
        r@ == short_hex_text(s@),
{
    let b = s.as_bytes();
    proof {
        encode_utf8_valid_utf8(s@);
    }
    if b.len() > 14 && b[0] == 48 && b[1] == 120 {
        proof {
            lemma_boundary_after_ascii_pair(b@);
        }
        let (_, body) = s.split_at(2);
        let blen = body.len();
        let ghost bb = body.spec_bytes();
        proof {
            encode_utf8_valid_utf8(body@);
            assert(bb =~= b@.subrange(2, b@.len() as int));
            is_char_boundary_iff_not_is_continuation_byte(bb, 4);
            is_char_boundary_iff_not_is_continuation_byte(bb, blen - 4);
        }
        let (head, _) = body.split_at(4);
        let (_, tail) = body.split_at(blen - 4);
        proof {
            encode_utf8_decode_utf8(head@);
            encode_utf8_decode_utf8(tail@);
            assert(head.spec_bytes() =~= b@.subrange(2, 6));
            assert(tail.spec_bytes() =~= b@.subrange(b@.len() - 4, b@.len() as int));
        }
        let mut out = owned("0x");
        out.append(head);
        out.append("…");
        out.append(tail);
        out
    } else {
        owned(s)
    }
}

} // verus!
