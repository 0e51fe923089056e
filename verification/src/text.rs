//! Decimal and hexadecimal text: how versions and schema hashes are written
//! into, and read back from, negotiation headers.

use crate::version::{pack, Version};
use vstd::prelude::*;

verus! {

broadcast use vstd::utf8::is_ascii_chars_encode_utf8;

/// The ASCII character of the digit `d` (`0..=15`), lowercase past nine.
pub open spec fn digit_char(d: nat) -> char {
    if d < 10 {
        (48 + d) as char
    } else {
        (87 + d) as char
    }
}

/// The decimal text of `n`, without leading zeros.
pub open spec fn decimal_text(n: nat) -> Seq<char>
    decreases n,
{
    if n < 10 {
        seq![digit_char(n)]
    } else {
        decimal_text(n / 10).push(digit_char(n % 10))
    }
}

/// The lowercase hexadecimal text of `n`, without leading zeros.
pub open spec fn hex_text(n: nat) -> Seq<char>
    decreases n,
{
    if n < 16 {
        seq![digit_char(n)]
    } else {
        hex_text(n / 16).push(digit_char(n % 16))
    }
}

/// Each byte written as two lowercase hexadecimal digits, in order.
pub open spec fn hash_text(bytes: Seq<u8>) -> Seq<char>
    decreases bytes.len(),
{
    if bytes.len() == 0 {
        Seq::empty()
    } else {
        hash_text(bytes.drop_last()).push(digit_char((bytes.last() / 16) as nat)).push(
            digit_char((bytes.last() % 16) as nat),
        )
    }
}

/// `MAJOR.MINOR.PATCH`, followed by `.BUILD` when the build is not zero.
pub open spec fn version_text(v: Version) -> Seq<char> {
    let (major, minor, patch, build) = v.components();
    let dot = seq!['.'];
    let base = decimal_text(major as nat) + dot + decimal_text(minor as nat) + dot
        + decimal_text(patch as nat);
    if build == 0 {
        base
    } else {
        base + dot + decimal_text(build as nat)
    }
}

/// Calls `String::push`, which appends `c` at the end of `text`. The
/// contract claims that the text afterwards is the text before followed by
/// `c`, as std documents.
#[verifier::external_body]
pub(crate) fn push_char(text: &mut String, c: char)
    ensures
        final(text)@ == old(text)@.push(c),
{
    text.push(c);
}

/// The character of the digit `d`.
fn digit_char_of(d: u8) -> (c: char)
    requires
        d < 16,
    ensures
        c == digit_char(d as nat),
{
    if d < 10 {
        (d + 48) as char
    } else {
        (d + 87) as char
    }
}

/// Append the decimal text of `n`.
pub fn push_decimal(text: &mut String, n: u64)
    ensures
        final(text)@ == old(text)@ + decimal_text(n as nat),
    decreases n,
{
    if n >= 10 {
        push_decimal(text, n / 10);
    }
    let c = digit_char_of((n % 10) as u8);
    push_char(text, c);
    assert(text@ =~= old(text)@ + decimal_text(n as nat));
}

/// Append the lowercase hexadecimal text of `n`.
pub fn push_hex(text: &mut String, n: u64)
    ensures
        final(text)@ == old(text)@ + hex_text(n as nat),
    decreases n,
{
    if n >= 16 {
        push_hex(text, n / 16);
    }
    let c = digit_char_of((n % 16) as u8);
    push_char(text, c);
    assert(text@ =~= old(text)@ + hex_text(n as nat));
}

/// Append each byte of `bytes` as two lowercase hexadecimal digits.
pub fn push_hash_text(text: &mut String, bytes: &[u8])
    ensures
        final(text)@ == old(text)@ + hash_text(bytes@),
{
    let mut i: usize = 0;
    while i < bytes.len()
        invariant
            0 <= i <= bytes@.len(),
            text@ == old(text)@ + hash_text(bytes@.take(i as int)),
        decreases bytes@.len() - i,
    {
        let b = bytes[i];
        push_char(text, digit_char_of(b / 16));
        push_char(text, digit_char_of(b % 16));
        assert(bytes@.take(i + 1).drop_last() =~= bytes@.take(i as int));
        i += 1;
        assert(text@ =~= old(text)@ + hash_text(bytes@.take(i as int)));
    }
    assert(bytes@.take(i as int) =~= bytes@);
}

/// Encode a schema hash as 64 lowercase hexadecimal digits.
pub fn encode_hash(hash: &[u8; 32]) -> (r: String)
    ensures
        r@ == hash_text(hash@),
{
    let mut text = String::new();
    push_hash_text(&mut text, hash.as_slice());
    assert(text@ =~= hash_text(hash@));
    text
}

/// Compare two texts character by character.
pub fn text_equal(a: &str, b: &str) -> (r: bool)
    ensures
        r == (a@ == b@),
{
    let x = a.as_bytes();
    let y = b.as_bytes();
    proof {
        vstd::utf8::encode_utf8_decode_utf8(a@);
        vstd::utf8::encode_utf8_decode_utf8(b@);
    }
    if x.len() != y.len() {
        return false;
    }
    let mut i: usize = 0;
    while i < x.len()
        invariant
            x@ == utf8_of(a@),
            y@ == utf8_of(b@),
            x@.len() == y@.len(),
            0 <= i <= x@.len(),
            forall|j: int| 0 <= j < i ==> x@[j] == y@[j],
        decreases x@.len() - i,
    {
        if x[i] != y[i] {
            return false;
        }
        i += 1;
    }
    assert(x@ =~= y@);
    true
}

/// Why a version or hash header could not be read.
#[derive(Clone, Copy, Debug, PartialEq, Eq, Structural)]
pub enum TextError {
    /// The version does not have three or four dot-separated components.
    VersionFormat,
    /// A version component is not a decimal `u16`.
    VersionComponent,
    /// The hash is not exactly 64 characters long.
    HashLength,
    /// The hash holds a character that is not a hexadecimal digit.
    HashDigit,
}

/// The description of a text error.
pub open spec fn text_error_text(e: TextError) -> Seq<char> {
    match e {
        TextError::VersionFormat =>
            "invalid version format: expected MAJOR.MINOR.PATCH or MAJOR.MINOR.PATCH.BUILD"@,
        TextError::VersionComponent => "invalid version component"@,
        TextError::HashLength => "invalid schema hash length: expected 64 hex characters"@,
        TextError::HashDigit => "invalid schema hash hex"@,
    }
}

impl TextError {
    /// Describe the error in words.
    pub fn message(&self) -> (r: String)
        ensures
            r@ == text_error_text(*self),
    {
        match self {
            TextError::VersionFormat => String::from_str(
                "invalid version format: expected MAJOR.MINOR.PATCH or MAJOR.MINOR.PATCH.BUILD",
            ),
            TextError::VersionComponent => String::from_str("invalid version component"),
            TextError::HashLength => String::from_str(
                "invalid schema hash length: expected 64 hex characters",
            ),
            TextError::HashDigit => String::from_str("invalid schema hash hex"),
        }
    }
}

/// The UTF-8 bytes of a text.
pub open spec fn utf8_of(text: Seq<char>) -> Seq<u8> {
    vstd::utf8::encode_utf8(text)
}

/// `true` for the ASCII digits `0..=9`.
pub open spec fn is_decimal_digit(b: u8) -> bool {
    48 <= b <= 57
}

/// The value of a run of decimal digits, most significant first.
pub open spec fn digits_value(s: Seq<u8>) -> nat
    decreases s.len(),
{
    if s.len() == 0 {
        0
    } else {
        digits_value(s.drop_last()) * 10 + (s.last() - 48) as nat
    }
}

/// `true` when `s` is one or more decimal digits.
pub open spec fn is_digit_run(s: Seq<u8>) -> bool {
    s.len() > 0 && forall|i: int| 0 <= i < s.len() ==> is_decimal_digit(#[trigger] s[i])
}

/// The bytes of `s` after an optional leading `+`.
pub open spec fn unsigned_digits(s: Seq<u8>) -> Seq<u8> {
    if s.len() > 0 && s[0] == 43 {
        s.drop_first()
    } else {
        s
    }
}

/// What reading `s` as a `u16` gives: an optional `+` followed by one or
/// more decimal digits whose value fits in 16 bits.
pub open spec fn u16_from_text(s: Seq<u8>) -> Option<u16> {
    let d = unsigned_digits(s);
    if is_digit_run(d) && digits_value(d) <= 0xffff {
        Some(digits_value(d) as u16)
    } else {
        None
    }
}

/// The pieces of `s` between `.` separators, in order; one piece when there
/// is no separator.
pub open spec fn split_dots(s: Seq<u8>) -> Seq<Seq<u8>>
    decreases s.len(),
{
    if s.len() == 0 {
        seq![Seq::empty()]
    } else {
        let init = split_dots(s.drop_last());
        if s.last() == 46 {
            init.push(Seq::empty())
        } else {
            init.update(init.len() - 1, init.last().push(s.last()))
        }
    }
}

/// What reading `s` as a version gives: three or four dot-separated `u16`
/// components, the build being zero when absent.
pub open spec fn version_from_text(s: Seq<u8>) -> Result<(u16, u16, u16, u16), TextError> {
    let parts = split_dots(s);
    if parts.len() < 3 || parts.len() > 4 {
        Err(TextError::VersionFormat)
    } else {
        let build = if parts.len() == 4 {
            u16_from_text(parts[3])
        } else {
            Some(0u16)
        };
        match (u16_from_text(parts[0]), u16_from_text(parts[1]), u16_from_text(parts[2]), build) {
            (Some(a), Some(b), Some(c), Some(d)) => Ok((a, b, c, d)),
            _ => Err(TextError::VersionComponent),
        }
    }
}

/// The value of a hexadecimal digit of either case.
pub open spec fn hex_value(b: u8) -> Option<u8> {
    if 48 <= b <= 57 {
        Some((b - 48) as u8)
    } else if 97 <= b <= 102 {
        Some((b - 87) as u8)
    } else if 65 <= b <= 70 {
        Some((b - 55) as u8)
    } else {
        None
    }
}

/// The byte written by the two hexadecimal digits at `2 * i` and `2 * i + 1`.
pub open spec fn hex_pair(s: Seq<u8>, i: int) -> u8 {
    (hex_value(s[2 * i])->0 * 16 + hex_value(s[2 * i + 1])->0) as u8
}

/// What reading `s` as a schema hash gives: exactly 64 hexadecimal digits,
/// two per byte.
pub open spec fn hash_from_text(s: Seq<u8>) -> Result<Seq<u8>, TextError> {
    if s.len() != 64 {
        Err(TextError::HashLength)
    } else if exists|i: int| 0 <= i < 64 && #[trigger] hex_value(s[i]) is None {
        Err(TextError::HashDigit)
    } else {
        Ok(Seq::new(32, |i: int| hex_pair(s, i)))
    }
}

/// Decode one hexadecimal digit of either case.
pub fn decode_hex_nibble(byte: u8) -> (r: Option<u8>)
    ensures
        r == hex_value(byte),
{
    if 48 <= byte && byte <= 57 {
        Some(byte - 48)
    } else if 97 <= byte && byte <= 102 {
        Some(byte - 87)
    } else if 65 <= byte && byte <= 70 {
        Some(byte - 55)
    } else {
        None
    }
}

/// The prefix of a digit run is worth no more than the whole run.
proof fn lemma_digits_prefix_le(s: Seq<u8>, k: int)
    requires
        0 <= k <= s.len(),
        forall|i: int| 0 <= i < s.len() ==> is_decimal_digit(#[trigger] s[i]),
    ensures
        digits_value(s.take(k)) <= digits_value(s),
    decreases s.len(),
{
    if k < s.len() {
        assert(s.drop_last().take(k) =~= s.take(k));
        lemma_digits_prefix_le(s.drop_last(), k);
    } else {
        assert(s.take(k) =~= s);
    }
}

/// Read a `u16` the way `str::parse::<u16>` does.
fn parse_u16(s: &[u8]) -> (r: Option<u16>)
    ensures
        r == u16_from_text(s@),
{
    let mut start: usize = 0;
    if s.len() > 0 && s[0] == 43 {
        start = 1;
    }
    let ghost d = unsigned_digits(s@);
    assert(d =~= s@.subrange(start as int, s@.len() as int));
    if start == s.len() {
        return None;
    }
    let mut acc: u32 = 0;
    let mut i: usize = start;
    while i < s.len()
        invariant
            start <= i <= s@.len(),
            start < s@.len(),
            d == s@.subrange(start as int, s@.len() as int),
            d == unsigned_digits(s@),
            acc <= 0xffff,
            acc == digits_value(d.take(i - start)),
            forall|j: int| 0 <= j < i - start ==> is_decimal_digit(#[trigger] d[j]),
        decreases s@.len() - i,
    {
        let b = s[i];
        if b < 48 || b > 57 {
            assert(!is_decimal_digit(d[i - start]));
            return None;
        }
        assert(d.take(i - start + 1).drop_last() =~= d.take(i - start));
        acc = acc * 10 + (b - 48) as u32;
        i += 1;
        if acc > 0xffff {
            proof {
                if is_digit_run(d) {
                    lemma_digits_prefix_le(d, i - start);
                }
            }
            return None;
        }
    }
    assert(d.take(i - start) =~= d);
    Some(acc as u16)
}

/// The views of a list of byte vectors.
pub open spec fn views_of(parts: Seq<Vec<u8>>) -> Seq<Seq<u8>> {
    parts.map_values(|p: Vec<u8>| p@)
}

/// `split_dots` always yields at least one piece.
proof fn lemma_split_dots_nonempty(s: Seq<u8>)
    ensures
        split_dots(s).len() >= 1,
    decreases s.len(),
{
    if s.len() > 0 {
        lemma_split_dots_nonempty(s.drop_last());
    }
}

/// Split `s` at every `.`.
fn split_on_dots(s: &[u8]) -> (parts: Vec<Vec<u8>>)
    ensures
        views_of(parts@) == split_dots(s@),
{
    let mut parts: Vec<Vec<u8>> = Vec::new();
    let mut current: Vec<u8> = Vec::new();
    let mut i: usize = 0;
    assert(views_of(parts@).push(current@) =~= split_dots(s@.take(0)));
    while i < s.len()
        invariant
            0 <= i <= s@.len(),
            views_of(parts@).push(current@) == split_dots(s@.take(i as int)),
        decreases s@.len() - i,
    {
        let b = s[i];
        proof {
            assert(s@.take(i + 1).drop_last() =~= s@.take(i as int));
            lemma_split_dots_nonempty(s@.take(i as int));
        }
        if b == 46 {
            parts.push(current);
            current = Vec::new();
            assert(views_of(parts@).push(current@) =~= split_dots(s@.take(i + 1)));
        } else {
            current.push(b);
            assert(views_of(parts@).push(current@) =~= split_dots(s@.take(i + 1)));
        }
        i += 1;
    }
    parts.push(current);
    assert(s@.take(i as int) =~= s@);
    assert(views_of(parts@) =~= split_dots(s@));
    parts
}

/// Read a version written as `MAJOR.MINOR.PATCH` or
/// `MAJOR.MINOR.PATCH.BUILD`, each component a decimal `u16`.
pub fn parse_version(text: &str) -> (r: Result<Version, TextError>)
    ensures
        match r {
            Ok(v) => version_from_text(utf8_of(text@)) matches Ok(c) && v@ == pack(
                c.0,
                c.1,
                c.2,
                c.3,
            ),
            Err(e) => version_from_text(utf8_of(text@)) == Err::<(u16, u16, u16, u16), TextError>(
                e,
            ),
        },
{
    let bytes = text.as_bytes();
    let parts = split_on_dots(bytes);
    proof {
        assert(views_of(parts@).len() == parts@.len());
    }
    if parts.len() < 3 || parts.len() > 4 {
        return Err(TextError::VersionFormat);
    }
    proof {
        assert(parts@[0]@ == split_dots(bytes@)[0]);
        assert(parts@[1]@ == split_dots(bytes@)[1]);
        assert(parts@[2]@ == split_dots(bytes@)[2]);
    }
    let major = parse_u16(parts[0].as_slice());
    let minor = parse_u16(parts[1].as_slice());
    let patch = parse_u16(parts[2].as_slice());
    let build = if parts.len() == 4 {
        assert(parts@[3]@ == split_dots(bytes@)[3]);
        parse_u16(parts[3].as_slice())
    } else {
        Some(0u16)
    };
    match (major, minor, patch, build) {
        (Some(a), Some(b), Some(c), Some(d)) => Ok(Version::new(a, b, c, d)),
        _ => Err(TextError::VersionComponent),
    }
}

/// Read a schema hash written as 64 hexadecimal digits.
pub fn parse_hash(text: &str) -> (r: Result<[u8; 32], TextError>)
    ensures
        match r {
            Ok(h) => hash_from_text(utf8_of(text@)) == Ok::<Seq<u8>, TextError>(h@),
            Err(e) => hash_from_text(utf8_of(text@)) == Err::<Seq<u8>, TextError>(e),
        },
{
    let bytes = text.as_bytes();
    if bytes.len() != 64 {
        return Err(TextError::HashLength);
    }
    let mut hash = [0u8; 32];
    let mut index: usize = 0;
    while index < 32
        invariant
            bytes@ == utf8_of(text@),
            bytes@.len() == 64,
            0 <= index <= 32,
            hash@.len() == 32,
            forall|j: int| 0 <= j < 2 * index ==> #[trigger] hex_value(bytes@[j]) is Some,
            forall|j: int| 0 <= j < index ==> hash@[j] == hex_pair(bytes@, j),
        decreases 32 - index,
    {
        let hi = decode_hex_nibble(bytes[2 * index]);
        let lo = decode_hex_nibble(bytes[2 * index + 1]);
        match (hi, lo) {
            (Some(h), Some(l)) => {
                assert(h < 16 && l < 16);
                assert((h << 4u8) | l == h * 16 + l) by (bit_vector)
                    requires
                        h < 16,
                        l < 16,
                ;
                hash[index] = (h << 4u8) | l;
            },
            _ => {
                proof {
                    let j: int = if hi is None {
                        2 * index
                    } else {
                        2 * index + 1
                    };
                    assert(hex_value(bytes@[j]) is None);
                    assert(0 <= j < 64);
                }
                return Err(TextError::HashDigit);
            },
        }
        index += 1;
    }
    assert(hash@ =~= Seq::new(32, |i: int| hex_pair(bytes@, i)));
    Ok(hash)
}

/// The bytes of an ASCII text, one per character.
pub open spec fn ascii_bytes(text: Seq<char>) -> Seq<u8> {
    Seq::new(text.len(), |i: int| text[i] as u8)
}

/// `true` when no byte of `s` is a `.`.
pub open spec fn dot_free(s: Seq<u8>) -> bool {
    forall|i: int| 0 <= i < s.len() ==> #[trigger] s[i] != 46
}

/// An ASCII text is encoded as UTF-8 one byte per character.
proof fn lemma_ascii_utf8(text: Seq<char>)
    requires
        vstd::utf8::is_ascii_chars(text),
    ensures
        utf8_of(text) == ascii_bytes(text),
{
    assert(utf8_of(text) =~= ascii_bytes(text));
}

/// The decimal text of `n` is ASCII digits worth `n`.
proof fn lemma_decimal_text(n: nat)
    ensures
        vstd::utf8::is_ascii_chars(decimal_text(n)),
        is_digit_run(ascii_bytes(decimal_text(n))),
        digits_value(ascii_bytes(decimal_text(n))) == n,
    decreases n,
{
    let t = decimal_text(n);
    let b = ascii_bytes(t);
    assert(digits_value(Seq::<u8>::empty()) == 0);
    if n < 10 {
        assert(b.drop_last() =~= Seq::<u8>::empty());
        assert(b[0] as int == 48 + n);
    } else {
        lemma_decimal_text(n / 10);
        let tp = decimal_text(n / 10);
        let bp = ascii_bytes(tp);
        assert(b.drop_last() =~= bp);
        assert(b.last() as int == 48 + n % 10);
        assert forall|i: int| 0 <= i < t.len() implies '\0' <= #[trigger] t[i] <= '\u{7f}' by {
            if i < t.len() - 1 {
                assert(t[i] == tp[i]);
            }
        }
        assert forall|i: int| 0 <= i < b.len() implies is_decimal_digit(#[trigger] b[i]) by {
            if i < b.len() - 1 {
                assert(b[i] == bp[i]);
            }
        }
    }
}

/// A text without separators is a single piece.
proof fn lemma_split_dot_free(a: Seq<u8>)
    requires
        dot_free(a),
    ensures
        split_dots(a) == seq![a],
    decreases a.len(),
{
    if a.len() > 0 {
        assert(dot_free(a.drop_last()));
        lemma_split_dot_free(a.drop_last());
        assert(a.last() != 46);
        assert(a.drop_last().push(a.last()) =~= a);
        assert(split_dots(a) =~= seq![a]);
    } else {
        assert(a =~= Seq::<u8>::empty());
        assert(split_dots(a) =~= seq![a]);
    }
}

/// A separator followed by a separator-free text adds that text as the
/// last piece.
proof fn lemma_split_append(x: Seq<u8>, a: Seq<u8>)
    requires
        dot_free(a),
    ensures
        split_dots(x + seq![46u8] + a) == split_dots(x).push(a),
    decreases a.len(),
{
    let s = x + seq![46u8] + a;
    if a.len() == 0 {
        assert(a =~= Seq::<u8>::empty());
        assert(s.drop_last() =~= x);
        assert(s.last() == 46);
        assert(split_dots(s) =~= split_dots(x).push(a));
    } else {
        assert(dot_free(a.drop_last()));
        lemma_split_append(x, a.drop_last());
        assert(s.drop_last() =~= x + seq![46u8] + a.drop_last());
        assert(s.last() == a.last());
        assert(a.last() != 46);
        assert(a.drop_last().push(a.last()) =~= a);
        assert(split_dots(s) =~= split_dots(x).push(a));
    }
}

/// The decimal text of a `u16` reads back as that `u16`.
proof fn lemma_decimal_u16(n: u16)
    ensures
        dot_free(ascii_bytes(decimal_text(n as nat))),
        u16_from_text(ascii_bytes(decimal_text(n as nat))) == Some(n),
{
    lemma_decimal_text(n as nat);
    let b = ascii_bytes(decimal_text(n as nat));
    assert(is_decimal_digit(b[0]));
    assert(unsigned_digits(b) == b);
    assert forall|i: int| 0 <= i < b.len() implies #[trigger] b[i] != 46 by {
        assert(is_decimal_digit(b[i]));
    }
}

/// Writing a version and reading the text back gives the same version.
pub proof fn lemma_version_text_round_trip(v: Version)
    ensures
        version_from_text(utf8_of(version_text(v))) == Ok::<(u16, u16, u16, u16), TextError>(
            v.components(),
        ),
        pack(v.components().0, v.components().1, v.components().2, v.components().3) == v@,
{
    crate::version::lemma_version_pack_components(v);
    let (major, minor, patch, build) = v.components();
    let dot = seq!['.'];
    let t0 = decimal_text(major as nat);
    let t1 = decimal_text(minor as nat);
    let t2 = decimal_text(patch as nat);
    let t3 = decimal_text(build as nat);
    lemma_decimal_u16(major);
    lemma_decimal_u16(minor);
    lemma_decimal_u16(patch);
    lemma_decimal_u16(build);
    lemma_decimal_text(major as nat);
    lemma_decimal_text(minor as nat);
    lemma_decimal_text(patch as nat);
    lemma_decimal_text(build as nat);
    let (b0, b1, b2, b3) = (ascii_bytes(t0), ascii_bytes(t1), ascii_bytes(t2), ascii_bytes(t3));
    let base = t0 + dot + t1 + dot + t2;
    let text = version_text(v);
    assert(vstd::utf8::is_ascii_chars(text));
    lemma_ascii_utf8(text);
    lemma_split_dot_free(b0);
    lemma_split_append(b0, b1);
    lemma_split_append(b0 + seq![46u8] + b1, b2);
    let base_bytes = b0 + seq![46u8] + b1 + seq![46u8] + b2;
    assert(ascii_bytes(base) =~= base_bytes);
    if build == 0 {
        assert(ascii_bytes(text) == base_bytes);
        assert(split_dots(base_bytes) =~= seq![b0, b1, b2]);
    } else {
        lemma_split_append(base_bytes, b3);
        assert(ascii_bytes(text) =~= base_bytes + seq![46u8] + b3);
        assert(split_dots(base_bytes + seq![46u8] + b3) =~= seq![b0, b1, b2, b3]);
    }
}

/// The hash text of `bytes` has two characters per byte: the high and the
/// low hexadecimal digit.
proof fn lemma_hash_text_shape(bytes: Seq<u8>)
    ensures
        hash_text(bytes).len() == 2 * bytes.len(),
        forall|i: int|
            0 <= i < bytes.len() ==> #[trigger] hash_text(bytes)[2 * i] == digit_char(
                (bytes[i] / 16) as nat,
            ) && hash_text(bytes)[2 * i + 1] == digit_char((bytes[i] % 16) as nat),
    decreases bytes.len(),
{
    if bytes.len() > 0 {
        lemma_hash_text_shape(bytes.drop_last());
        let t = hash_text(bytes);
        assert forall|i: int| 0 <= i < bytes.len() implies #[trigger] t[2 * i] == digit_char(
            (bytes[i] / 16) as nat,
        ) && t[2 * i + 1] == digit_char((bytes[i] % 16) as nat) by {
            if i < bytes.len() - 1 {
                assert(bytes.drop_last()[i] == bytes[i]);
                assert(hash_text(bytes.drop_last())[2 * i] == t[2 * i]);
                assert(hash_text(bytes.drop_last())[2 * i + 1] == t[2 * i + 1]);
            }
        }
    }
}

/// Encoding a hash as text and reading the text back gives the same hash.
pub proof fn lemma_hash_text_round_trip(hash: Seq<u8>)
    requires
        hash.len() == 32,
    ensures
        hash_from_text(utf8_of(hash_text(hash))) == Ok::<Seq<u8>, TextError>(hash),
{
    lemma_hash_text_shape(hash);
    let t = hash_text(hash);
    assert forall|j: int| 0 <= j < t.len() implies '\0' <= #[trigger] t[j] <= '\u{7f}' by {
        let i = j / 2;
        assert(j == 2 * i || j == 2 * i + 1);
        assert(t[2 * i] == digit_char((hash[i] / 16) as nat));
    }
    lemma_ascii_utf8(t);
    let s = utf8_of(t);
    assert forall|i: int| 0 <= i < 32 implies hex_value(#[trigger] s[2 * i]) == Some(
        (hash[i] / 16) as u8,
    ) && hex_value(s[2 * i + 1]) == Some((hash[i] % 16) as u8) by {
        assert(t[2 * i] == digit_char((hash[i] / 16) as nat));
    }
    assert forall|j: int| 0 <= j < 64 implies #[trigger] hex_value(s[j]) is Some by {
        let i = j / 2;
        assert(j == 2 * i || j == 2 * i + 1);
        assert(hex_value(s[2 * i]) is Some);
    }
    assert(Seq::new(32, |i: int| hex_pair(s, i)) =~= hash);
}

impl Version {
    /// Format as `MAJOR.MINOR.PATCH`, or `MAJOR.MINOR.PATCH.BUILD` when the
    /// build is not zero.
    pub fn format(&self) -> (r: String)
        ensures
            r@ == version_text(*self),
    {
        let mut text = String::new();
        let dot = '.';
        push_decimal(&mut text, self.major() as u64);
        push_char(&mut text, dot);
        push_decimal(&mut text, self.minor() as u64);
        push_char(&mut text, dot);
        push_decimal(&mut text, self.patch() as u64);
        let build = self.build();
        if build != 0 {
            push_char(&mut text, dot);
            push_decimal(&mut text, build as u64);
        }
        assert(text@ =~= version_text(*self));
        text
    }
}

} // verus!
