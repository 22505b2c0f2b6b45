//! Percent-encoding of query parameter values.

use vstd::prelude::*;

use crate::text::push_char;

verus! {

/// Bytes that stand for themselves in an encoded value: ASCII letters, digits, `-`, `_`, `.`, `~`.
pub open spec fn is_unreserved(b: u8) -> bool {
    ||| 65 <= b <= 90
    ||| 97 <= b <= 122
    ||| 48 <= b <= 57
    ||| b == 45
    ||| b == 95
    ||| b == 46
    ||| b == 126
}

/// The upper-case hexadecimal digit for a value below 16.
pub open spec fn hex_digit(n: u8) -> char {
    if n < 10 {
        (48 + n) as char
    } else {
        (55 + n) as char
    }
}

/// The encoding of one byte: the byte itself when unreserved, else `%` and two upper-case hex digits.
pub open spec fn encode_byte(b: u8) -> Seq<char> {
    if is_unreserved(b) {
        seq![b as char]
    } else {
        seq!['%', hex_digit(b / 16), hex_digit(b % 16)]
    }
}

/// The percent-encoding of a byte string.
pub open spec fn percent_encoded(bytes: Seq<u8>) -> Seq<char>
    decreases bytes.len(),
{
    if bytes.len() == 0 {
        seq![]
    } else {
        percent_encoded(bytes.drop_last()) + encode_byte(bytes.last())
    }
}

fn hex_digit_char(n: u8) -> (c: char)
    requires
        n < 16,
    ensures
        c == hex_digit(n),
{
    if n < 10 {
        (48 + n) as char
    } else {
        (55 + n) as char
    }
}

/// Percent-encode a string for use in URL query parameters.
///
/// Each byte of the UTF-8 form of `input` is kept when unreserved and written
/// as `%XX` (upper-case hex) otherwise.
pub fn encode(input: &str) -> (r: String)
    ensures
        r@ == percent_encoded(vstd::utf8::encode_utf8(input@)),
{
    let bytes = input.as_bytes();
    let mut result = String::new();
    let mut i: usize = 0;
    while i < bytes.len()
        invariant
            bytes@ == vstd::utf8::encode_utf8(input@),
            i <= bytes@.len(),
            result@ == percent_encoded(bytes@.subrange(0, i as int)),
        decreases bytes.len() - i,
    {
        let byte = bytes[i];
        assert(bytes@.subrange(0, i + 1).drop_last() =~= bytes@.subrange(0, i as int));
        assert(bytes@.subrange(0, i + 1).last() == byte);
        if (65 <= byte && byte <= 90) || (97 <= byte && byte <= 122) || (48 <= byte && byte <= 57)
            || byte == 45 || byte == 95 || byte == 46 || byte == 126 {
            push_char(&mut result, byte as char);
        } else {
            push_char(&mut result, '%');
            push_char(&mut result, hex_digit_char(byte / 16));
            push_char(&mut result, hex_digit_char(byte % 16));
        }
        i = i + 1;
        assert(result@ =~= percent_encoded(bytes@.subrange(0, i as int)));
    }
    assert(bytes@.subrange(0, bytes@.len() as int) =~= bytes@);
    result
}

/// Characters that stand for themselves in an encoded value.
pub open spec fn is_unreserved_char(c: char) -> bool {
    c as u32 <= 127 && is_unreserved((c as u32) as u8)
}

/// Characters that can appear in an encoded value: unreserved characters, `%`,
/// and upper-case hexadecimal digits.
pub open spec fn is_encoded_char(c: char) -> bool {
    is_unreserved_char(c) || c == '%' || (48 <= c as u32 <= 57) || (65 <= c as u32 <= 70)
}

/// Every character of an encoding is an unreserved character, `%` or an upper-case hex digit.
pub proof fn lemma_encoding_is_url_safe(bytes: Seq<u8>)
    ensures
        forall|i: int|
            0 <= i < percent_encoded(bytes).len() ==> is_encoded_char(
                #[trigger] percent_encoded(bytes)[i],
            ),
    decreases bytes.len(),
{
    if bytes.len() > 0 {
        lemma_encoding_is_url_safe(bytes.drop_last());
        let prev = percent_encoded(bytes.drop_last());
        let last = encode_byte(bytes.last());
        let b = bytes.last();
        assert(forall|k: int| 0 <= k < last.len() ==> is_encoded_char(#[trigger] last[k])) by {
            if is_unreserved(b) {
                assert((b as char) as u32 == b as u32);
                assert(((b as char) as u8) == b);
            } else {
                assert(b / 16 < 16 && b % 16 < 16);
            }
        }
        assert forall|i: int| 0 <= i < percent_encoded(bytes).len() implies is_encoded_char(
            #[trigger] percent_encoded(bytes)[i],
        ) by {
            assert(percent_encoded(bytes) == prev + last);
            if i < prev.len() {
                assert(percent_encoded(bytes)[i] == prev[i]);
            } else {
                assert(percent_encoded(bytes)[i] == last[i - prev.len()]);
            }
        }
    }
}

/// The UTF-8 form of a text of ASCII characters is those characters, byte for byte.
proof fn lemma_ascii_utf8(s: Seq<char>)
    requires
        forall|i: int| 0 <= i < s.len() ==> (#[trigger] s[i]) as u32 <= 127,
    ensures
        vstd::utf8::encode_utf8(s) == s.map_values(|c: char| (c as u32) as u8),
    decreases s.len(),
{
    if s.len() > 0 {
        let v = s[0] as u32;
        assert(v <= 127);
        assert(v <= 127 ==> ((v & 0x7f) as u8) == (v as u8)) by (bit_vector);
        let rest = s.drop_first();
        assert forall|i: int| 0 <= i < rest.len() implies (#[trigger] rest[i]) as u32 <= 127 by {
            assert(rest[i] == s[i + 1]);
        }
        lemma_ascii_utf8(rest);
        assert(vstd::utf8::encode_utf8(s) =~= s.map_values(|c: char| (c as u32) as u8));
    }
}

/// A text made only of unreserved characters is its own encoding.
pub proof fn lemma_unreserved_text_unchanged(s: Seq<char>)
    requires
        forall|i: int| 0 <= i < s.len() ==> is_unreserved_char(#[trigger] s[i]),
    ensures
        percent_encoded(vstd::utf8::encode_utf8(s)) == s,
    decreases s.len(),
{
    lemma_ascii_utf8(s);
    if s.len() > 0 {
        let init = s.drop_last();
        assert forall|i: int| 0 <= i < init.len() implies is_unreserved_char(#[trigger] init[i]) by {
            assert(init[i] == s[i]);
        }
        lemma_unreserved_text_unchanged(init);
        lemma_ascii_utf8(init);
        let bytes = vstd::utf8::encode_utf8(s);
        assert(bytes.drop_last() =~= vstd::utf8::encode_utf8(init));
        let c = s.last();
        let x = c as u32;
        assert(is_unreserved_char(c));
        assert(bytes.last() == x as u8);
        assert(x <= 127 ==> (x as u8) as u32 == x) by (bit_vector);
        assert(((x as u8) as char) as u32 == x);
        vstd::utf8::char_u32_cast(c, x);
        assert(((x as u8) as char) == c);
        assert(percent_encoded(bytes) =~= s);
    }
}

/// Encoding a concatenation gives the concatenation of the encodings.
pub proof fn lemma_percent_encoded_concat(a: Seq<u8>, b: Seq<u8>)
    ensures
        percent_encoded(a + b) == percent_encoded(a) + percent_encoded(b),
    decreases b.len(),
{
    if b.len() == 0 {
        assert(a + b =~= a);
        assert(percent_encoded(a) + percent_encoded(b) =~= percent_encoded(a));
    } else {
        lemma_percent_encoded_concat(a, b.drop_last());
        assert((a + b).drop_last() =~= a + b.drop_last());
        assert((a + b).last() == b.last());
        assert(percent_encoded(a + b) =~= percent_encoded(a) + percent_encoded(b));
    }
}

/// The UTF-8 form of a concatenation is the concatenation of the UTF-8 forms.
pub proof fn lemma_utf8_concat(a: Seq<char>, b: Seq<char>)
    ensures
        vstd::utf8::encode_utf8(a + b) == vstd::utf8::encode_utf8(a) + vstd::utf8::encode_utf8(b),
    decreases a.len(),
{
    if a.len() == 0 {
        assert(a + b =~= b);
        assert(vstd::utf8::encode_utf8(a) + vstd::utf8::encode_utf8(b) =~= vstd::utf8::encode_utf8(
            b,
        ));
    } else {
        lemma_utf8_concat(a.drop_first(), b);
        assert((a + b).drop_first() =~= a.drop_first() + b);
        assert((a + b)[0] == a[0]);
        assert(vstd::utf8::encode_utf8(a + b) =~= vstd::utf8::encode_utf8(a)
            + vstd::utf8::encode_utf8(b));
    }
}

/// Percent-encoding a text distributes over concatenation: the encoding of
/// `a + b` is the encoding of `a` followed by that of `b`.
pub proof fn lemma_encode_concat(a: Seq<char>, b: Seq<char>)
    ensures
        percent_encoded(vstd::utf8::encode_utf8(a + b)) == percent_encoded(
            vstd::utf8::encode_utf8(a),
        ) + percent_encoded(vstd::utf8::encode_utf8(b)),
{
    lemma_utf8_concat(a, b);
    lemma_percent_encoded_concat(vstd::utf8::encode_utf8(a), vstd::utf8::encode_utf8(b));
}

/// The value of a hexadecimal digit character (upper-case letters).
pub open spec fn hex_value(c: char) -> int {
    if 48 <= c as u32 <= 57 {
        c as u32 - 48
    } else {
        c as u32 - 55
    }
}

/// Percent-decoding: `%` and two hex digits stand for one byte, any other character for its code.
pub open spec fn percent_decoded(s: Seq<char>) -> Seq<u8>
    decreases s.len(),
{
    if s.len() == 0 {
        seq![]
    } else if s[0] == '%' && s.len() >= 3 {
        seq![(hex_value(s[1]) * 16 + hex_value(s[2])) as u8] + percent_decoded(s.skip(3))
    } else {
        seq![(s[0] as u32) as u8] + percent_decoded(s.skip(1))
    }
}

/// Decoding an encoding gives back the bytes.
pub proof fn lemma_percent_decoding_inverts(bytes: Seq<u8>)
    ensures
        percent_decoded(percent_encoded(bytes)) == bytes,
    decreases bytes.len(),
{
    if bytes.len() > 0 {
        let b = bytes[0];
        let rest = bytes.drop_first();
        assert(bytes =~= seq![b] + rest);
        lemma_percent_encoded_concat(seq![b], rest);
        let single = seq![b];
        assert(single.drop_last() =~= Seq::<u8>::empty());
        assert(single.last() == b);
        assert(percent_encoded(single.drop_last()) =~= Seq::<char>::empty());
        assert(percent_encoded(single) =~= encode_byte(b));
        let head = encode_byte(b);
        let tail = percent_encoded(rest);
        let enc = head + tail;
        lemma_percent_decoding_inverts(rest);
        if is_unreserved(b) {
            assert(enc[0] == b as char);
            assert((b as char) as u32 == b as u32);
            let x = b as u32;
            assert(x <= 255 ==> (x as u8) == b) by (bit_vector)
                requires
                    x == b as u32,
            ;
            assert(enc[0] != '%');
            assert(enc.skip(1) =~= tail);
            assert(percent_decoded(enc) =~= bytes);
        } else {
            let hi = b / 16;
            let lo = b % 16;
            assert(hi < 16 && lo < 16);
            assert((hex_digit(hi) as u32) == (if hi < 10 { 48 + hi } else { 55 + hi }));
            assert((hex_digit(lo) as u32) == (if lo < 10 { 48 + lo } else { 55 + lo }));
            assert(hex_value(hex_digit(hi)) == hi);
            assert(hex_value(hex_digit(lo)) == lo);
            assert(hi * 16 + lo == b);
            assert(enc[0] == '%' && enc[1] == hex_digit(hi) && enc[2] == hex_digit(lo));
            assert(enc.skip(3) =~= tail);
            assert(percent_decoded(enc) =~= bytes);
        }
    }
}

/// Percent-encoding is injective on texts: two texts with the same encoding are equal.
pub proof fn lemma_encode_injective(a: Seq<char>, b: Seq<char>)
    requires
        percent_encoded(vstd::utf8::encode_utf8(a)) == percent_encoded(vstd::utf8::encode_utf8(b)),
    ensures
        a == b,
{
    lemma_percent_decoding_inverts(vstd::utf8::encode_utf8(a));
    lemma_percent_decoding_inverts(vstd::utf8::encode_utf8(b));
    vstd::utf8::encode_utf8_decode_utf8(a);
    vstd::utf8::encode_utf8_decode_utf8(b);
}

} // verus!
