//! Article slugs: making one from a title, and decoding one taken from a URL path.
use vstd::prelude::*;

use crate::app_error::AppError;
use crate::utils::text::{
    all_whitespace, char_is_alphanumeric, chars_of, decimal, is_alphanumeric, lemma_decimal_injective,
    lemma_decimal_len, lemma_trimmed_ignores_surrounding_whitespace, push_char, str_lowercase, string_from_utf8, to_lowercase, trim, trimmed,
    u32_to_decimal,
};
use percent_encoding::percent_decode_str;

verus! {

/// A character that a slug keeps: alphanumeric, or `-`.
pub open spec fn slug_keeps(c: char) -> bool {
    char_is_alphanumeric(c) || c == '-'
}

/// A space becomes `-`; every other character stays.
pub open spec fn dash_for_space(c: char) -> char {
    if c == ' ' {
        '-'
    } else {
        c
    }
}

/// The characters of `s` with spaces turned into `-`, keeping only those that a slug keeps.
pub open spec fn slug_chars(s: Seq<char>) -> Seq<char>
    decreases s.len(),
{
    if s.len() == 0 {
        Seq::empty()
    } else {
        let c = dash_for_space(s.last());
        if slug_keeps(c) {
            slug_chars(s.drop_last()).push(c)
        } else {
            slug_chars(s.drop_last())
        }
    }
}

/// The slug of a title: trimmed, lowercased, spaces turned into `-`, and then only
/// alphanumeric characters and `-` kept.
pub open spec fn slug_of(title: Seq<char>) -> Seq<char> {
    slug_chars(str_lowercase(trimmed(title)))
}

/// Every character of `slug_chars(s)` is one that a slug keeps.
pub proof fn lemma_slug_chars_kept(s: Seq<char>)
    ensures
        forall|i: int| 0 <= i < slug_chars(s).len() ==> slug_keeps(#[trigger] slug_chars(s)[i]),
    decreases s.len(),
{
    if s.len() > 0 {
        let rest = slug_chars(s.drop_last());
        lemma_slug_chars_kept(s.drop_last());
        let c = dash_for_space(s.last());
        if slug_keeps(c) {
            assert forall|i: int| 0 <= i < rest.push(c).len() implies slug_keeps(
                #[trigger] rest.push(c)[i],
            ) by {
                if i < rest.len() {
                    assert(rest.push(c)[i] == rest[i]);
                }
            }
        }
    }
}

/// The slug characters of a title are those of its parts, one after the other: each
/// character contributes on its own, whatever stands around it.
pub proof fn lemma_slug_chars_concat(a: Seq<char>, b: Seq<char>)
    ensures
        slug_chars(a + b) == slug_chars(a) + slug_chars(b),
    decreases b.len(),
{
    if b.len() == 0 {
        assert(a + b =~= a);
        assert(slug_chars(a) + slug_chars(b) =~= slug_chars(a));
    } else {
        let b0 = b.drop_last();
        lemma_slug_chars_concat(a, b0);
        assert((a + b).drop_last() =~= a + b0);
        assert((a + b).last() == b.last());
        let c = dash_for_space(b.last());
        if slug_keeps(c) {
            assert(slug_chars(a) + slug_chars(b0).push(c) =~= (slug_chars(a) + slug_chars(b0)).push(
                c,
            ));
        }
    }
}

/// What one character contributes to a slug: a space becomes `-`, an alphanumeric
/// character or `-` stays as it is, and any other character (punctuation such as an
/// apostrophe) is dropped.
pub proof fn lemma_slug_chars_single(c: char)
    ensures
        slug_chars(seq![c]) == if c == ' ' {
            seq!['-']
        } else if char_is_alphanumeric(c) || c == '-' {
            seq![c]
        } else {
            Seq::<char>::empty()
        },
{
    let s = seq![c];
    assert(s.drop_last() =~= Seq::<char>::empty());
    assert(s.last() == c);
    assert(slug_chars(Seq::<char>::empty()) =~= Seq::<char>::empty());
    assert(Seq::<char>::empty().push(dash_for_space(c)) =~= seq![dash_for_space(c)]);
}

/// Every character of a slug is alphanumeric or `-`.
pub proof fn lemma_slug_chars_alphanumeric_or_dash(s: Seq<char>)
    ensures
        forall|i: int|
            0 <= i < slug_chars(s).len() ==> char_is_alphanumeric(#[trigger] slug_chars(s)[i])
                || slug_chars(s)[i] == '-',
{
    lemma_slug_chars_kept(s);
}

/// Whitespace around a title does not change its slug.
pub proof fn lemma_slug_ignores_surrounding_whitespace(w1: Seq<char>, title: Seq<char>, w2: Seq<
    char,
>)
    requires
        all_whitespace(w1),
        all_whitespace(w2),
    ensures
        slug_of(w1 + title + w2) == slug_of(title),
{
    lemma_trimmed_ignores_surrounding_whitespace(w1, title, w2);
}

/// The slug characters of an already lowercased title: spaces become `-`, and only
/// alphanumeric characters and `-` are kept.
pub fn slug_filter(lowered: &str) -> (r: String)
    ensures
        r@ == slug_chars(lowered@),
        forall|i: int| 0 <= i < r@.len() ==> slug_keeps(#[trigger] r@[i]),
        forall|i: int|
            0 <= i < r@.len() ==> char_is_alphanumeric(#[trigger] r@[i]) || r@[i] == '-',
{
    let chars = chars_of(lowered);
    let mut out = String::new();
    let mut i: usize = 0;
    while i < chars.len()
        invariant
            chars@ == lowered@,
            i <= chars@.len(),
            out@ == slug_chars(chars@.take(i as int)),
        decreases chars.len() - i,
    {
        let c = chars[i];
        let d = if c == ' ' {
            '-'
        } else {
            c
        };
        proof {
            assert(chars@.take(i + 1).drop_last() =~= chars@.take(i as int));
        }
        if d == '-' || is_alphanumeric(d) {
            push_char(&mut out, d);
        }
        i = i + 1;
    }
    proof {
        assert(chars@.take(chars@.len() as int) =~= chars@);
        lemma_slug_chars_kept(chars@);
    }
    out
}

proof fn lemma_slug_chars_no_space(s: Seq<char>)
    ensures
        forall|i: int| 0 <= i < slug_chars(s).len() ==> #[trigger] slug_chars(s)[i] != ' ',
    decreases s.len(),
{
    if s.len() > 0 {
        let rest = slug_chars(s.drop_last());
        lemma_slug_chars_no_space(s.drop_last());
        let c = dash_for_space(s.last());
        if slug_keeps(c) {
            assert forall|i: int| 0 <= i < rest.push(c).len() implies #[trigger] rest.push(c)[i]
                != ' ' by {
                if i < rest.len() {
                    assert(rest.push(c)[i] == rest[i]);
                }
            }
        }
    }
}

proof fn lemma_slug_chars_of_kept(t: Seq<char>)
    requires
        forall|i: int| 0 <= i < t.len() ==> #[trigger] t[i] != ' ' && slug_keeps(t[i]),
    ensures
        slug_chars(t) == t,
    decreases t.len(),
{
    if t.len() > 0 {
        let u = t.drop_last();
        assert forall|i: int| 0 <= i < u.len() implies #[trigger] u[i] != ' ' && slug_keeps(u[i]) by {
            assert(u[i] == t[i]);
        }
        lemma_slug_chars_of_kept(u);
        assert(t.last() == t[t.len() - 1]);
        assert(u.push(t.last()) =~= t);
    }
}

/// Filtering slug characters twice is filtering them once: what `slug_filter` leaves
/// holds no space and only characters a slug keeps.
pub proof fn lemma_slug_filter_idempotent(s: Seq<char>)
    ensures
        slug_chars(slug_chars(s)) == slug_chars(s),
{
    lemma_slug_chars_kept(s);
    lemma_slug_chars_no_space(s);
    lemma_slug_chars_of_kept(slug_chars(s));
}

/// Turns an article title into a URL slug.
pub fn slugify(title: &str) -> (r: String)
    ensures
        r@ == slug_of(title@),
        forall|i: int| 0 <= i < r@.len() ==> slug_keeps(#[trigger] r@[i]),
        forall|i: int|
            0 <= i < r@.len() ==> char_is_alphanumeric(#[trigger] r@[i]) || r@[i] == '-',
{
    let trimmed_title = trim(title);
    let lowered = to_lowercase(trimmed_title.as_str());
    slug_filter(lowered.as_str())
}

/// The slug tried at the given attempt when a title's slug is already taken:
/// the slug itself first, then the slug followed by `-1`, `-2`, ...
pub open spec fn slug_attempt(base: Seq<char>, attempt: nat) -> Seq<char> {
    if attempt == 0 {
        base
    } else {
        base + seq!['-'] + decimal(attempt)
    }
}

/// The candidate slug for `attempt` (see `slug_attempt`).
pub fn slug_candidate(base: &str, attempt: u32) -> (r: String)
    ensures
        r@ == slug_attempt(base@, attempt as nat),
{
    let mut out = String::new();
    let chars = chars_of(base);
    let mut i: usize = 0;
    while i < chars.len()
        invariant
            chars@ == base@,
            i <= chars@.len(),
            out@ == chars@.take(i as int),
        decreases chars.len() - i,
    {
        push_char(&mut out, chars[i]);
        proof {
            assert(chars@.take(i + 1) =~= chars@.take(i as int).push(chars@[i as int]));
        }
        i = i + 1;
    }
    assert(chars@.take(chars@.len() as int) =~= chars@);
    if attempt == 0 {
        return out;
    }
    push_char(&mut out, '-');
    let digits = u32_to_decimal(attempt);
    let digit_chars = chars_of(digits.as_str());
    let mut k: usize = 0;
    while k < digit_chars.len()
        invariant
            digit_chars@ == decimal(attempt as nat),
            k <= digit_chars@.len(),
            out@ == base@ + seq!['-'] + digit_chars@.take(k as int),
        decreases digit_chars.len() - k,
    {
        push_char(&mut out, digit_chars[k]);
        proof {
            assert(digit_chars@.take(k + 1) =~= digit_chars@.take(k as int).push(
                digit_chars@[k as int],
            ));
        }
        k = k + 1;
    }
    assert(digit_chars@.take(digit_chars@.len() as int) =~= digit_chars@);
    out
}

/// What follows the probe of a candidate slug: use it, or try the next attempt.
#[derive(Debug, Clone, PartialEq, Eq)]
pub enum SlugProbe {
    Use(String),
    Retry(u32),
}

/// One step of the search for a free slug: the candidate of `attempt` (see
/// `slug_attempt`) is used when no article has it yet; otherwise the search goes on
/// with the next attempt.
pub fn next_slug(base: &str, attempt: u32, taken: bool) -> (r: SlugProbe)
    requires
        taken ==> attempt < u32::MAX,
    ensures
        !taken ==> (r matches SlugProbe::Use(s) && s@ == slug_attempt(base@, attempt as nat)),
        taken ==> r == SlugProbe::Retry((attempt + 1) as u32),
{
    if taken {
        SlugProbe::Retry(attempt + 1)
    } else {
        SlugProbe::Use(slug_candidate(base, attempt))
    }
}

/// Different attempts give different candidate slugs, so the search for a free
/// slug never tries the same slug twice.
pub proof fn lemma_slug_attempts_distinct(base: Seq<char>, a: nat, b: nat)
    requires
        a != b,
    ensures
        slug_attempt(base, a) != slug_attempt(base, b),
{
    if a == 0 || b == 0 {
        lemma_decimal_len(a);
        lemma_decimal_len(b);
        assert(slug_attempt(base, a).len() != slug_attempt(base, b).len());
    } else {
        if slug_attempt(base, a) == slug_attempt(base, b) {
            let k: int = base.len() as int + 1;
            assert(slug_attempt(base, a).skip(k) =~= decimal(a));
            assert(slug_attempt(base, b).skip(k) =~= decimal(b));
            lemma_decimal_injective(a, b);
        }
    }
}

/// The value of an ASCII hexadecimal digit, if `b` is one.
pub open spec fn hex_value(b: u8) -> Option<u8> {
    if 48 <= b <= 57 {
        Some((b - 48) as u8)
    } else if 97 <= b <= 102 {
        Some((b - 87) as u8)
    } else if 65 <= b <= 70 {
        Some((b - 55) as u8)
    } else {
        None
    }
}

/// Percent-decoding of bytes: every `%` followed by two hexadecimal digits becomes
/// the byte they spell; every other byte, a lone `%` included, stays as it is.
pub open spec fn percent_decode(bytes: Seq<u8>) -> Seq<u8>
    decreases bytes.len(),
{
    if bytes.len() == 0 {
        Seq::empty()
    } else if bytes[0] == 37u8 && bytes.len() >= 3 && hex_value(bytes[1]) is Some && hex_value(
        bytes[2],
    ) is Some {
        seq![(hex_value(bytes[1])->0 * 16 + hex_value(bytes[2])->0) as u8] + percent_decode(
            bytes.skip(3),
        )
    } else {
        seq![bytes[0]] + percent_decode(bytes.skip(1))
    }
}

/// Trusted: `percent_encoding::percent_decode_str`, whose iterator is collected into bytes.
/// The claim is that it decodes the UTF-8 bytes of `s` exactly as `percent_decode` says.
#[verifier::external_body]
fn percent_decoded_bytes(s: &str) -> (r: Vec<u8>)
    ensures
        r@ == percent_decode(vstd::utf8::encode_utf8(s@)),
{
    percent_decode_str(s).collect()
}

/// What decoding a slug from a URL path gives: the percent-decoded bytes read as
/// UTF-8, or `None` when they are not well-formed UTF-8.
pub open spec fn decoded_slug(slug: Seq<char>) -> Option<Seq<char>> {
    let bytes = percent_decode(vstd::utf8::encode_utf8(slug));
    if vstd::utf8::valid_utf8(bytes) {
        Some(vstd::utf8::decode_utf8(bytes))
    } else {
        None
    }
}

/// Percent-decodes a slug taken from a URL path. Bytes that are not UTF-8 after
/// decoding are a bad request.
pub fn decode_slug(slug: &str) -> (r: Result<String, AppError>)
    ensures
        match decoded_slug(slug@) {
            Some(s) => r matches Ok(t) && t@ == s,
            None => r matches Err(AppError::BadRequest),
        },
{
    let bytes = percent_decoded_bytes(slug);
    match string_from_utf8(bytes) {
        Some(s) => Ok(s),
        None => Err(AppError::BadRequest),
    }
}

/// The uppercase hexadecimal digit (as an ASCII byte) for `n < 16`.
pub open spec fn hex_digit(n: u8) -> u8 {
    if n < 10 {
        (48 + n) as u8
    } else {
        (55 + n) as u8
    }
}

/// Whether `b` is an ASCII letter or digit.
pub open spec fn is_ascii_alphanumeric_byte(b: u8) -> bool {
    (48 <= b <= 57) || (65 <= b <= 90) || (97 <= b <= 122)
}

/// Percent-encoding of bytes that escapes every byte but ASCII letters and digits as
/// `%` and two uppercase hexadecimal digits (the `NON_ALPHANUMERIC` set of
/// `percent-encoding`).
pub open spec fn percent_encode(bytes: Seq<u8>) -> Seq<u8>
    decreases bytes.len(),
{
    if bytes.len() == 0 {
        Seq::empty()
    } else {
        let b = bytes[0];
        (if is_ascii_alphanumeric_byte(b) {
            seq![b]
        } else {
            seq![37u8, hex_digit(b / 16), hex_digit(b % 16)]
        }) + percent_encode(bytes.skip(1))
    }
}

/// Percent-decoding undoes percent-encoding.
pub proof fn lemma_percent_decode_encode(bytes: Seq<u8>)
    ensures
        percent_decode(percent_encode(bytes)) == bytes,
    decreases bytes.len(),
{
    if bytes.len() > 0 {
        let b = bytes[0];
        let rest = percent_encode(bytes.skip(1));
        lemma_percent_decode_encode(bytes.skip(1));
        let e = percent_encode(bytes);
        if is_ascii_alphanumeric_byte(b) {
            assert(e =~= seq![b] + rest);
            assert(e[0] == b);
            assert(e.skip(1) =~= rest);
        } else {
            assert(e =~= seq![37u8, hex_digit(b / 16), hex_digit(b % 16)] + rest);
            assert(e[0] == 37u8);
            assert(e[1] == hex_digit(b / 16));
            assert(e[2] == hex_digit(b % 16));
            assert(e.skip(3) =~= rest);
            assert(hex_value(hex_digit(b / 16)) == Some((b / 16) as u8));
            assert(hex_value(hex_digit(b % 16)) == Some((b % 16) as u8));
            assert((b / 16) * 16 + b % 16 == b);
        }
        assert(seq![b] + bytes.skip(1) =~= bytes);
    }
}

/// A slug that is the percent-encoding of a string's UTF-8 bytes (escaping all but
/// ASCII letters and digits) decodes back to that string.
pub proof fn lemma_decode_percent_encoded(s: Seq<char>, encoded: Seq<char>)
    requires
        encoded.len() == percent_encode(vstd::utf8::encode_utf8(s)).len(),
        forall|i: int|
            0 <= i < encoded.len() ==> #[trigger] encoded[i] as u32 == percent_encode(
                vstd::utf8::encode_utf8(s),
            )[i] as u32,
    ensures
        decoded_slug(encoded) == Some(s),
{
    let pe = percent_encode(vstd::utf8::encode_utf8(s));
    assert forall|i: int| 0 <= i < pe.len() implies #[trigger] pe[i] < 128 by {
        lemma_percent_encode_ascii(vstd::utf8::encode_utf8(s), i);
    }
    lemma_encode_ascii_chars(encoded, pe);
    lemma_percent_decode_encode(vstd::utf8::encode_utf8(s));
    vstd::utf8::encode_utf8_valid_utf8(s);
    vstd::utf8::encode_utf8_decode_utf8(s);
}

/// Characters that spell ASCII bytes one for one encode in UTF-8 as those bytes.
proof fn lemma_encode_ascii_chars(chars: Seq<char>, bytes: Seq<u8>)
    requires
        chars.len() == bytes.len(),
        forall|i: int| 0 <= i < bytes.len() ==> #[trigger] bytes[i] < 128,
        forall|i: int| 0 <= i < chars.len() ==> #[trigger] chars[i] as u32 == bytes[i] as u32,
    ensures
        vstd::utf8::encode_utf8(chars) == bytes,
    decreases chars.len(),
{
    if chars.len() > 0 {
        let v = chars[0] as u32;
        let b = bytes[0];
        assert(v == b as u32);
        assert(b < 128);
        assert(vstd::utf8::has_width_1_encoding(v));
        assert((v & 0x7F) as u8 == b) by (bit_vector)
            requires
                v == b as u32,
                b < 128,
        ;
        assert(vstd::utf8::encode_scalar(v) =~= seq![b]);
        let rest_c = chars.drop_first();
        let rest_b = bytes.skip(1);
        assert forall|i: int| 0 <= i < rest_b.len() implies #[trigger] rest_b[i] < 128 by {
            assert(rest_b[i] == bytes[i + 1]);
        }
        assert forall|i: int| 0 <= i < rest_c.len() implies #[trigger] rest_c[i] as u32
            == rest_b[i] as u32 by {
            assert(rest_c[i] == chars[i + 1]);
            assert(rest_b[i] == bytes[i + 1]);
        }
        lemma_encode_ascii_chars(rest_c, rest_b);
        assert(seq![b] + rest_b =~= bytes);
    }
}

/// Every byte of a percent-encoding is ASCII.
proof fn lemma_percent_encode_ascii(bytes: Seq<u8>, i: int)
    requires
        0 <= i < percent_encode(bytes).len(),
    ensures
        percent_encode(bytes)[i] < 128,
    decreases bytes.len(),
{
    let b = bytes[0];
    let rest = percent_encode(bytes.skip(1));
    let head = if is_ascii_alphanumeric_byte(b) {
        seq![b]
    } else {
        seq![37u8, hex_digit(b / 16), hex_digit(b % 16)]
    };
    assert(percent_encode(bytes) =~= head + rest);
    if i < head.len() {
        assert(percent_encode(bytes)[i] == head[i]);
    } else {
        assert(percent_encode(bytes)[i] == rest[i - head.len()]);
        lemma_percent_encode_ascii(bytes.skip(1), i - head.len());
    }
}

/// Percent-decoding leaves bytes without `%` unchanged.
proof fn lemma_percent_decode_plain(bytes: Seq<u8>)
    requires
        forall|i: int| 0 <= i < bytes.len() ==> bytes[i] != 37u8,
    ensures
        percent_decode(bytes) == bytes,
    decreases bytes.len(),
{
    if bytes.len() > 0 {
        lemma_percent_decode_plain(bytes.skip(1));
        assert(seq![bytes[0]] + bytes.skip(1) =~= bytes);
    }
}

/// No byte of the UTF-8 encoding of a scalar other than `%` is the byte of `%`.
proof fn lemma_scalar_without_percent(v: u32)
    requires
        vstd::utf8::is_scalar(v),
        v != 37,
    ensures
        forall|i: int|
            0 <= i < vstd::utf8::encode_scalar(v).len() ==> #[trigger] vstd::utf8::encode_scalar(
                v,
            )[i] != 37u8,
{
    if vstd::utf8::has_width_1_encoding(v) {
        assert((v & 0x7F) as u8 != 37u8) by (bit_vector)
            requires
                v <= 0x7F,
                v != 37,
        ;
    } else {
        assert(0x80u8 | ((v & 0x3F) as u8) != 37u8) by (bit_vector);
        assert(0x80u8 | (((v >> 6) & 0x3F) as u8) != 37u8) by (bit_vector);
        assert(0x80u8 | (((v >> 12) & 0x3F) as u8) != 37u8) by (bit_vector);
        assert(0xC0u8 | (((v >> 6) & 0x1F) as u8) != 37u8) by (bit_vector);
        assert(0xE0u8 | (((v >> 12) & 0x0F) as u8) != 37u8) by (bit_vector);
        assert(0xF0u8 | (((v >> 18) & 0x7) as u8) != 37u8) by (bit_vector);
    }
}

/// The UTF-8 encoding of characters other than `%` holds no `%` byte.
proof fn lemma_encoding_without_percent(chars: Seq<char>)
    requires
        forall|i: int| 0 <= i < chars.len() ==> chars[i] != '%',
    ensures
        forall|i: int|
            0 <= i < vstd::utf8::encode_utf8(chars).len() ==> #[trigger] vstd::utf8::encode_utf8(
                chars,
            )[i] != 37u8,
    decreases chars.len(),
{
    if chars.len() > 0 {
        let v = chars[0] as u32;
        vstd::utf8::char_is_scalar(chars[0]);
        assert(v != 37) by {
            vstd::utf8::char_u32_cast(chars[0], v);
            if v == 37 {
                assert(chars[0] == (37u32 as char));
            }
        }
        lemma_scalar_without_percent(v);
        lemma_encoding_without_percent(chars.drop_first());
        let first = vstd::utf8::encode_scalar(v);
        let rest = vstd::utf8::encode_utf8(chars.drop_first());
        assert forall|i: int| 0 <= i < (first + rest).len() implies #[trigger] (first + rest)[i]
            != 37u8 by {
            if i >= first.len() {
                assert((first + rest)[i] == rest[i - first.len()]);
            }
        }
    }
}

/// A slug without `%` decodes to itself.
pub proof fn lemma_decode_slug_plain(slug: Seq<char>)
    requires
        forall|i: int| 0 <= i < slug.len() ==> slug[i] != '%',
    ensures
        decoded_slug(slug) == Some(slug),
{
    let bytes = vstd::utf8::encode_utf8(slug);
    lemma_encoding_without_percent(slug);
    lemma_percent_decode_plain(bytes);
    vstd::utf8::encode_utf8_valid_utf8(slug);
    vstd::utf8::encode_utf8_decode_utf8(slug);
}

} // verus!
