//! Album art from a player's metadata by way of a plain `file://` URL: the scheme is
//! stripped and `%` escapes are decoded by hand.
use vstd::prelude::*;
use vstd::slice::slice_subrange;
use vstd::string::*;
use vstd::utf8::*;

use crate::media::TrackMetadata;
use crate::text::bytes_start_with;

verus! {

/// The value of an ASCII hexadecimal digit.
pub open spec fn hex_digit_value(byte: u8) -> Option<u8> {
    if 0x30 <= byte <= 0x39 {
        Some((byte - 0x30) as u8)
    } else if 0x61 <= byte <= 0x66 {
        Some((byte - 0x61 + 10) as u8)
    } else if 0x41 <= byte <= 0x46 {
        Some((byte - 0x41 + 10) as u8)
    } else {
        None
    }
}

/// The value of a hexadecimal digit, or none for any other byte.
pub fn hex_value(byte: u8) -> (r: Option<u8>)
    ensures
        r == hex_digit_value(byte),
{
    if 0x30 <= byte && byte <= 0x39 {
        Some(byte - 0x30)
    } else if 0x61 <= byte && byte <= 0x66 {
        Some(byte - 0x61 + 10)
    } else if 0x41 <= byte && byte <= 0x46 {
        Some(byte - 0x41 + 10)
    } else {
        None
    }
}

/// Whether `bytes` starts with an escape: `%` and two hexadecimal digits.
pub open spec fn starts_with_escape(bytes: Seq<u8>) -> bool {
    &&& bytes.len() > 2
    &&& bytes[0] == 0x25
    &&& hex_digit_value(bytes[1]) is Some
    &&& hex_digit_value(bytes[2]) is Some
}

/// `bytes` with every escape `%XY` replaced by the byte whose hexadecimal digits are `XY`,
/// reading from the front; every other byte, a lone `%` too, stays as it is.
pub open spec fn percent_decode(bytes: Seq<u8>) -> Seq<u8>
    decreases bytes.len(),
{
    if bytes.len() == 0 {
        Seq::empty()
    } else if starts_with_escape(bytes) {
        seq![
            (hex_digit_value(bytes[1])->0 * 16 + hex_digit_value(bytes[2])->0) as u8,
        ] + percent_decode(bytes.skip(3))
    } else {
        seq![bytes[0]] + percent_decode(bytes.skip(1))
    }
}

/// What `String::from_utf8_lossy` makes of `bytes`: their UTF-8 decoding, with each
/// invalid sequence replaced by U+FFFD.
pub uninterp spec fn utf8_lossy(bytes: Seq<u8>) -> Seq<char>;

/// Calls `String::from_utf8_lossy`. Claimed: the result is `utf8_lossy` of the bytes, and
/// for valid UTF-8 it is the bytes' decoding, as the documentation says.
#[verifier::external_body]
fn string_from_utf8_lossy(bytes: &[u8]) -> (r: String)
    ensures
        r@ == utf8_lossy(bytes@),
        valid_utf8(bytes@) ==> r@ == decode_utf8(bytes@),
{
    String::from_utf8_lossy(bytes).into_owned()
}

/// Decodes the `%` escapes in `bytes`, as `percent_decode` describes.
pub fn percent_decode_bytes(bytes: &[u8]) -> (r: Vec<u8>)
    ensures
        r@ == percent_decode(bytes@),
{
    let mut decoded: Vec<u8> = Vec::with_capacity(bytes.len());
    let mut i: usize = 0;
    assert(bytes@.skip(0) =~= bytes@);
    assert(decoded@ + percent_decode(bytes@) =~= percent_decode(bytes@));
    while i < bytes.len()
        invariant
            i <= bytes@.len(),
            decoded@ + percent_decode(bytes@.skip(i as int)) == percent_decode(bytes@),
        decreases bytes.len() - i,
    {
        let ghost rest = bytes@.skip(i as int);
        if bytes[i] == 0x25 && bytes.len() - i > 2 {
            let high = hex_value(bytes[i + 1]);
            let low = hex_value(bytes[i + 2]);
            if let (Some(high), Some(low)) = (high, low) {
                assert(high < 16 && low < 16);
                let byte = (high << 4) | low;
                assert((high << 4u8) | low == (high * 16 + low) as u8) by (bit_vector)
                    requires
                        high < 16,
                        low < 16,
                ;
                assert(rest[0] == bytes@[i as int] && rest[1] == bytes@[i + 1] && rest[2]
                    == bytes@[i + 2]);
                assert(rest.skip(3) =~= bytes@.skip(i + 3));
                assert(starts_with_escape(rest));
                decoded.push(byte);
                assert(decoded@ + percent_decode(bytes@.skip(i + 3)) =~= percent_decode(
                    bytes@,
                ));
                i += 3;
                continue;
            }
        }
        assert(rest.skip(1) =~= bytes@.skip(i + 1));
        assert(rest[0] == bytes@[i as int]);
        proof {
            if rest.len() > 2 {
                assert(rest[1] == bytes@[i + 1] && rest[2] == bytes@[i + 2]);
            }
        }
        decoded.push(bytes[i]);
        assert(decoded@ + percent_decode(bytes@.skip(i + 1)) =~= percent_decode(bytes@));
        i += 1;
    }
    assert(bytes@.skip(i as int) =~= Seq::<u8>::empty());
    assert(decoded@ =~= percent_decode(bytes@));
    decoded
}

/// The path that a URL path names once its `%` escapes are decoded; bytes that do not
/// form valid UTF-8 become U+FFFD.
pub fn percent_decode_path(path: &str) -> (r: String)
    ensures
        r@ == utf8_lossy(percent_decode(path.spec_bytes())),
        valid_utf8(percent_decode(path.spec_bytes())) ==> r@ == decode_utf8(
            percent_decode(path.spec_bytes()),
        ),
{
    let decoded = percent_decode_bytes(path.as_bytes());
    string_from_utf8_lossy(decoded.as_slice())
}

/// The bytes after the `file://localhost` or, failing that, the `file://` prefix.
pub open spec fn strip_file_scheme(url: Seq<u8>) -> Option<Seq<u8>> {
    if "file://localhost".spec_bytes().is_prefix_of(url) {
        Some(url.skip("file://localhost".spec_bytes().len() as int))
    } else if "file://".spec_bytes().is_prefix_of(url) {
        Some(url.skip("file://".spec_bytes().len() as int))
    } else {
        None
    }
}

/// The local path that a `file://` URL names, with its escapes decoded; none for any
/// other URL.
pub fn file_url_to_path(url: &str) -> (r: Option<String>)
    ensures
        match strip_file_scheme(url.spec_bytes()) {
            Some(rest) => r matches Some(path) && path@ == utf8_lossy(percent_decode(rest)) && (
            valid_utf8(percent_decode(rest)) ==> path@ == decode_utf8(percent_decode(rest))),
            None => r is None,
        },
{
    let bytes = url.as_bytes();
    let localhost = "file://localhost".as_bytes();
    let plain = "file://".as_bytes();
    let rest = if bytes_start_with(bytes, localhost) {
        slice_subrange(bytes, localhost.len(), bytes.len())
    } else if bytes_start_with(bytes, plain) {
        slice_subrange(bytes, plain.len(), bytes.len())
    } else {
        return None;
    };
    let decoded = percent_decode_bytes(rest);
    Some(string_from_utf8_lossy(decoded.as_slice()))
}

/// The local album art that a track's art URL names, if it is a `file://` URL.
pub fn album_art_path_from_metadata(meta: &TrackMetadata) -> (r: Option<String>)
    ensures
        match meta.art_url {
            Some(url) => match strip_file_scheme(encode_utf8(url@)) {
                Some(rest) => r matches Some(path) && path@ == utf8_lossy(percent_decode(rest)),
                None => r is None,
            },
            None => r is None,
        },
{
    match &meta.art_url {
        Some(url) => file_url_to_path(url.as_str()),
        None => None,
    }
}

/// Bytes without `%` decode to themselves.
pub proof fn lemma_percent_decode_plain(bytes: Seq<u8>)
    requires
        forall|i: int| 0 <= i < bytes.len() ==> bytes[i] != 0x25,
    ensures
        percent_decode(bytes) == bytes,
    decreases bytes.len(),
{
    if bytes.len() > 0 {
        assert(forall|i: int| 0 <= i < bytes.skip(1).len() ==> bytes.skip(1)[i] == bytes[i + 1]);
        lemma_percent_decode_plain(bytes.skip(1));
        assert(seq![bytes[0]] + bytes.skip(1) =~= bytes);
    }
}

/// The ASCII hexadecimal digit for a value below 16, in upper or lower case.
pub open spec fn hex_digit(value: u8, upper: bool) -> u8 {
    if value < 10 {
        (0x30 + value) as u8
    } else if upper {
        (0x41 + value - 10) as u8
    } else {
        (0x61 + value - 10) as u8
    }
}

/// The escape `%XY` of a byte, its hexadecimal digits in upper or lower case.
pub open spec fn escape_byte(byte: u8, upper: bool) -> Seq<u8> {
    seq![0x25u8, hex_digit(byte / 16, upper), hex_digit(byte % 16, upper)]
}

/// Every byte written as an escape; `upper[i]` chooses the case of the `i`-th escape.
pub open spec fn escape_all(bytes: Seq<u8>, upper: Seq<bool>) -> Seq<u8>
    decreases bytes.len(),
{
    if bytes.len() == 0 {
        Seq::empty()
    } else {
        escape_byte(bytes[0], upper[0]) + escape_all(bytes.drop_first(), upper.drop_first())
    }
}

/// Escaping every byte and decoding gives the bytes back, whatever the case of the
/// digits.
pub proof fn lemma_percent_decode_escaped(bytes: Seq<u8>, upper: Seq<bool>)
    requires
        upper.len() == bytes.len(),
    ensures
        percent_decode(escape_all(bytes, upper)) == bytes,
    decreases bytes.len(),
{
    if bytes.len() > 0 {
        let b = bytes[0];
        let head = escape_byte(b, upper[0]);
        let rest = escape_all(bytes.drop_first(), upper.drop_first());
        let all = escape_all(bytes, upper);
        assert(all == head + rest);
        assert(all[0] == 0x25 && all[1] == head[1] && all[2] == head[2]);
        assert(hex_digit_value(head[1]) == Some(b / 16));
        assert(hex_digit_value(head[2]) == Some(b % 16));
        assert(starts_with_escape(all));
        assert(all.skip(3) =~= rest);
        lemma_percent_decode_escaped(bytes.drop_first(), upper.drop_first());
        assert(((b / 16) * 16 + b % 16) as u8 == b);
        assert(percent_decode(all) =~= seq![b] + bytes.drop_first());
        assert(seq![b] + bytes.drop_first() =~= bytes);
    }
}

/// A path written entirely in escapes decodes to itself: when every byte of the text's
/// encoding is written as an escape (in either case), decoding yields that encoding, which
/// is valid UTF-8 and reads as the text; `percent_decode_path` then gives the text back.
pub proof fn lemma_escaped_path_decodes(path: Seq<char>, upper: Seq<bool>)
    requires
        upper.len() == encode_utf8(path).len(),
    ensures
        percent_decode(escape_all(encode_utf8(path), upper)) == encode_utf8(path),
        valid_utf8(encode_utf8(path)),
        decode_utf8(encode_utf8(path)) == path,
{
    lemma_percent_decode_escaped(encode_utf8(path), upper);
    encode_utf8_valid_utf8(path);
    encode_utf8_decode_utf8(path);
}

/// A path without `%` decodes to itself: its encoding is left as it is, and it is valid
/// UTF-8 that reads as the path; `percent_decode_path` then gives the path back.
pub proof fn lemma_plain_path_decodes(path: Seq<char>)
    requires
        forall|i: int| 0 <= i < path.len() ==> path[i] != '%',
    ensures
        percent_decode(encode_utf8(path)) == encode_utf8(path),
        valid_utf8(encode_utf8(path)),
        decode_utf8(encode_utf8(path)) == path,
{
    lemma_encode_utf8_no_percent(path);
    lemma_percent_decode_plain(encode_utf8(path));
    encode_utf8_valid_utf8(path);
    encode_utf8_decode_utf8(path);
}

/// The encoding of two character sequences one after the other is the two encodings one
/// after the other.
pub proof fn lemma_encode_utf8_concat(a: Seq<char>, b: Seq<char>)
    ensures
        encode_utf8(a + b) == encode_utf8(a) + encode_utf8(b),
    decreases a.len(),
{
    if a.len() == 0 {
        assert(a + b =~= b);
        assert(encode_utf8(a) =~= Seq::<u8>::empty());
        assert(encode_utf8(a) + encode_utf8(b) =~= encode_utf8(b));
    } else {
        assert((a + b).drop_first() =~= a.drop_first() + b);
        assert((a + b)[0] == a[0]);
        lemma_encode_utf8_concat(a.drop_first(), b);
        assert(encode_utf8(a + b) =~= encode_utf8(a) + encode_utf8(b));
    }
}

/// Only `%` itself is encoded with the byte of `%`.
pub proof fn lemma_encode_scalar_no_percent(c: char)
    requires
        c != '%',
    ensures
        forall|i: int|
            0 <= i < encode_scalar(c as u32).len() ==> #[trigger] encode_scalar(c as u32)[i] != 0x25,
{
    let s = c as u32;
    char_is_scalar(c);
    assert(s != 0x25);
    if has_width_1_encoding(s) {
        assert(s <= 0x7F && s != 0x25 ==> (s & 0x7F) as u8 != 0x25u8) by (bit_vector);
    } else if has_width_2_encoding(s) {
        assert((0xC0u8 | ((s >> 6u32) & 0x1Fu32) as u8) != 0x25u8) by (bit_vector);
        assert((0x80u8 | (s & 0x3Fu32) as u8) != 0x25u8) by (bit_vector);
    } else if has_width_3_encoding(s) {
        assert((0xE0u8 | ((s >> 12u32) & 0x0Fu32) as u8) != 0x25u8) by (bit_vector);
        assert((0x80u8 | ((s >> 6u32) & 0x3Fu32) as u8) != 0x25u8) by (bit_vector);
        assert((0x80u8 | (s & 0x3Fu32) as u8) != 0x25u8) by (bit_vector);
    } else {
        assert((0xF0u8 | ((s >> 18u32) & 0x7u32) as u8) != 0x25u8) by (bit_vector);
        assert((0x80u8 | ((s >> 12u32) & 0x3Fu32) as u8) != 0x25u8) by (bit_vector);
        assert((0x80u8 | ((s >> 6u32) & 0x3Fu32) as u8) != 0x25u8) by (bit_vector);
        assert((0x80u8 | (s & 0x3Fu32) as u8) != 0x25u8) by (bit_vector);
    }
}

/// Text without `%` is encoded without the byte of `%`.
pub proof fn lemma_encode_utf8_no_percent(chars: Seq<char>)
    requires
        forall|i: int| 0 <= i < chars.len() ==> chars[i] != '%',
    ensures
        forall|i: int|
            0 <= i < encode_utf8(chars).len() ==> encode_utf8(chars)[i] != 0x25,
    decreases chars.len(),
{
    if chars.len() > 0 {
        lemma_encode_scalar_no_percent(chars[0]);
        assert(forall|i: int|
            0 <= i < chars.drop_first().len() ==> chars.drop_first()[i] == chars[i + 1]);
        lemma_encode_utf8_no_percent(chars.drop_first());
        let head = encode_scalar(chars[0] as u32);
        let tail = encode_utf8(chars.drop_first());
        assert forall|i: int| 0 <= i < encode_utf8(chars).len() implies encode_utf8(chars)[i]
            != 0x25 by {
            if i < head.len() {
                assert(encode_utf8(chars)[i] == head[i]);
            } else {
                assert(encode_utf8(chars)[i] == tail[i - head.len()]);
            }
        }
    }
}

/// A `file://` URL of a plain absolute path (one without `%`) names that very path, with
/// or without `localhost`: the scheme is stripped, nothing is decoded, and the bytes are
/// valid UTF-8 that decode to the path.
pub proof fn lemma_plain_file_url(path: Seq<char>)
    requires
        path.len() > 0,
        path[0] == '/',
        forall|i: int| 0 <= i < path.len() ==> path[i] != '%',
    ensures
        strip_file_scheme(encode_utf8("file://"@ + path)) == Some(encode_utf8(path)),
        strip_file_scheme(encode_utf8("file://localhost"@ + path)) == Some(encode_utf8(path)),
        percent_decode(encode_utf8(path)) == encode_utf8(path),
        valid_utf8(encode_utf8(path)),
        decode_utf8(encode_utf8(path)) == path,
{
    reveal_strlit("file://");
    reveal_strlit("file://localhost");
    let scheme = "file://"@;
    let localhost = "file://localhost"@;
    let enc_path = encode_utf8(path);
    assert(is_ascii_chars(scheme));
    assert(is_ascii_chars(localhost));
    is_ascii_chars_encode_utf8(scheme);
    is_ascii_chars_encode_utf8(localhost);
    lemma_encode_utf8_concat(scheme, path);
    lemma_encode_utf8_concat(localhost, path);
    // The path's first byte is `/`.
    let first = path.take(1);
    assert(is_ascii_chars(first));
    is_ascii_chars_encode_utf8(first);
    assert(first + path.skip(1) =~= path);
    lemma_encode_utf8_concat(first, path.skip(1));
    assert(enc_path[0] == 0x2F);
    // With `localhost`: the long prefix matches.
    let long = encode_utf8(localhost + path);
    assert(long.subrange(0, 16) =~= encode_utf8(localhost));
    assert(long.skip(16) =~= enc_path);
    // Without it: the long prefix fails at the path's first byte, the short one matches.
    let short = encode_utf8(scheme + path);
    assert(short[7] == 0x2F);
    assert(encode_utf8(localhost)[7] == 0x6C);
    if encode_utf8(localhost).is_prefix_of(short) {
        assert(short.subrange(0, 16)[7] == short[7]);
    }
    assert(short.subrange(0, 7) =~= encode_utf8(scheme));
    assert(short.skip(7) =~= enc_path);
    lemma_encode_utf8_no_percent(path);
    lemma_percent_decode_plain(enc_path);
    encode_utf8_valid_utf8(path);
    encode_utf8_decode_utf8(path);
}

} // verus!
