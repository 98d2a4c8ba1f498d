//! Working directories for new tabs and sessions: the live directory a shell reports through
//! OSC 7 (a `file://host/path` URL with percent escapes) wins over the snapshot's anchor.
use vstd::prelude::*;
use vstd::utf8::{
    char_is_scalar, char_u32_cast, decode_utf8, encode_scalar, encode_utf8, encode_utf8_decode_utf8,
    encode_utf8_valid_utf8, valid_utf8,
};

use crate::text::string_from_utf8;

verus! {

/// The value of an ASCII hex digit.
pub open spec fn hex_digit_value(b: u8) -> Option<u8> {
    if 0x30 <= b <= 0x39 {
        Some((b - 0x30) as u8)
    } else if 0x61 <= b <= 0x66 {
        Some((b - 0x61 + 10) as u8)
    } else if 0x41 <= b <= 0x46 {
        Some((b - 0x41 + 10) as u8)
    } else {
        None
    }
}

pub fn hex_value(byte: u8) -> (r: Option<u8>)
    ensures
        r == hex_digit_value(byte),
{
    if 0x30 <= byte && byte <= 0x39 {
        Some(byte - 0x30)
    } else if 0x61 <= byte && byte <= 0x66 {
        Some(byte - 0x61 + 10)
    } else if 0x41 <= byte && byte <= 0x46 {
        Some(byte - 0x41 + 10)
    } else {
        None
    }
}

/// The bytes with every `%XY` escape replaced by the byte with hex value `XY`; `None` when a
/// `%` is not followed by two hex digits.
pub open spec fn percent_decoded(bytes: Seq<u8>) -> Option<Seq<u8>>
    decreases bytes.len(),
{
    if bytes.len() == 0 {
        Some(Seq::empty())
    } else if bytes[0] == 0x25 {
        if bytes.len() < 3 {
            None
        } else {
            match (hex_digit_value(bytes[1]), hex_digit_value(bytes[2])) {
                (Some(hi), Some(lo)) => match percent_decoded(bytes.skip(3)) {
                    Some(rest) => Some(seq![(hi * 16 + lo) as u8] + rest),
                    None => None,
                },
                _ => None,
            }
        }
    } else {
        match percent_decoded(bytes.skip(1)) {
            Some(rest) => Some(seq![bytes[0]] + rest),
            None => None,
        }
    }
}

/// The text of a percent-decoded string: `None` when an escape is malformed or the decoded
/// bytes are not UTF-8.
pub open spec fn percent_decoded_text(bytes: Seq<u8>) -> Option<Seq<char>> {
    match percent_decoded(bytes) {
        Some(decoded) => if valid_utf8(decoded) {
            Some(decode_utf8(decoded))
        } else {
            None
        },
        None => None,
    }
}

proof fn lemma_hex_byte(hi: u8, lo: u8)
    requires
        hi < 16,
        lo < 16,
    ensures
        (hi << 4u8) | lo == hi * 16 + lo,
{
    assert((hi << 4u8) | lo == hi * 16 + lo) by (bit_vector)
        requires
            hi < 16,
            lo < 16,
    ;
}

/// Decode `%XY` escapes in `input`.
pub fn percent_decode(input: &str) -> (r: Option<String>)
    ensures
        match r {
            Some(s) => percent_decoded_text(encode_utf8(input@)) == Some(s@),
            None => percent_decoded_text(encode_utf8(input@)) is None,
        },
{
    percent_decode_bytes(input.as_bytes())
}

/// Whether the bytes start with `file://`.
pub open spec fn is_file_url(bytes: Seq<u8>) -> bool {
    &&& bytes.len() >= 7
    &&& bytes[0] == 0x66
    &&& bytes[1] == 0x69
    &&& bytes[2] == 0x6c
    &&& bytes[3] == 0x65
    &&& bytes[4] == 0x3a
    &&& bytes[5] == 0x2f
    &&& bytes[6] == 0x2f
}

/// The index of the first `/` byte of `bytes` at or after `from`, if any.
pub open spec fn first_slash_from(bytes: Seq<u8>, from: int) -> Option<int>
    decreases bytes.len() - from,
{
    if from < 0 || from >= bytes.len() {
        None
    } else if bytes[from] == 0x2f {
        Some(from)
    } else {
        first_slash_from(bytes, from + 1)
    }
}

/// The directory a reported working directory names: nothing for an empty report; for a
/// `file://host/path` URL the percent-decoded path from the first `/` after `file://` (nothing
/// when there is none, or when it does not decode); any other report as it stands.
pub open spec fn normalized_cwd(cwd: Seq<char>) -> Option<Seq<char>> {
    let bytes = encode_utf8(cwd);
    if cwd.len() == 0 {
        None
    } else if is_file_url(bytes) {
        match first_slash_from(bytes, 7) {
            Some(start) => percent_decoded_text(bytes.skip(start)),
            None => None,
        }
    } else {
        Some(cwd)
    }
}

proof fn lemma_first_slash_found(bytes: Seq<u8>, from: int, i: int)
    requires
        0 <= from <= i < bytes.len(),
        bytes[i] == 0x2f,
        forall|j: int| from <= j < i ==> bytes[j] != 0x2f,
    ensures
        first_slash_from(bytes, from) == Some(i),
    decreases i - from,
{
    if from < i {
        lemma_first_slash_found(bytes, from + 1, i);
    }
}

proof fn lemma_first_slash_absent(bytes: Seq<u8>, from: int)
    requires
        0 <= from,
        forall|j: int| from <= j < bytes.len() ==> bytes[j] != 0x2f,
    ensures
        first_slash_from(bytes, from) is None,
    decreases bytes.len() - from,
{
    if from < bytes.len() {
        lemma_first_slash_absent(bytes, from + 1);
    }
}

/// Turn a reported working directory into a path: see [`normalized_cwd`].
pub fn normalize_terminal_cwd(cwd: &str) -> (r: Option<String>)
    ensures
        match r {
            Some(s) => normalized_cwd(cwd@) == Some(s@),
            None => normalized_cwd(cwd@) is None,
        },
{
    if cwd.unicode_len() == 0 {
        return None;
    }
    let bytes = cwd.as_bytes();
    let ghost all = bytes@;
    assert(all == encode_utf8(cwd@));
    let is_url = bytes.len() >= 7 && bytes[0] == 0x66 && bytes[1] == 0x69 && bytes[2] == 0x6c
        && bytes[3] == 0x65 && bytes[4] == 0x3a && bytes[5] == 0x2f && bytes[6] == 0x2f;
    if is_url {
        let mut i: usize = 7;
        while i < bytes.len() && bytes[i] != 0x2f
            invariant
                bytes@ == all,
                7 <= i <= all.len(),
                forall|j: int| 7 <= j < i ==> all[j] != 0x2f,
            decreases all.len() - i,
        {
            i = i + 1;
        }
        if i >= bytes.len() {
            proof {
                lemma_first_slash_absent(all, 7);
            }
            return None;
        }
        proof {
            lemma_first_slash_found(all, 7, i as int);
        }
        let (_, path_bytes) = bytes.split_at(i);
        assert(path_bytes@ =~= all.skip(i as int));
        return percent_decode_bytes(path_bytes);
    }
    proof {
        encode_utf8_valid_utf8(cwd@);
        encode_utf8_decode_utf8(cwd@);
    }
    Some(cwd.to_owned())
}

/// [`percent_decode`] on bytes.
fn percent_decode_bytes(bytes: &[u8]) -> (r: Option<String>)
    ensures
        match r {
            Some(s) => percent_decoded_text(bytes@) == Some(s@),
            None => percent_decoded_text(bytes@) is None,
        },
{
    let ghost all = bytes@;
    let mut decoded: Vec<u8> = Vec::new();
    let mut index: usize = 0;
    proof {
        assert(all.skip(0) =~= all);
        if let Some(rest) = percent_decoded(all) {
            assert(decoded@ + rest =~= rest);
        }
    }
    while index < bytes.len()
        invariant
            bytes@ == all,
            index <= all.len(),
            percent_decoded(all) == match percent_decoded(all.skip(index as int)) {
                Some(rest) => Some(decoded@ + rest),
                None => None::<Seq<u8>>,
            },
        decreases all.len() - index,
    {
        let ghost tail = all.skip(index as int);
        if bytes[index] == 0x25 {
            if bytes.len() - index < 3 {
                proof {
                    if tail.len() >= 3 {
                        assert(false);
                    }
                }
                return None;
            }
            let hi = match hex_value(bytes[index + 1]) {
                Some(v) => v,
                None => {
                    assert(tail[1] == bytes@[index + 1]);
                    return None;
                },
            };
            let lo = match hex_value(bytes[index + 2]) {
                Some(v) => v,
                None => {
                    assert(tail[2] == bytes@[index + 2]);
                    return None;
                },
            };
            proof {
                assert(tail[1] == bytes@[index + 1]);
                assert(tail[2] == bytes@[index + 2]);
                lemma_hex_byte(hi, lo);
                assert(tail.skip(3) =~= all.skip(index + 3));
            }
            let ghost before = decoded@;
            decoded.push((hi << 4) | lo);
            proof {
                if let Some(rest) = percent_decoded(all.skip(index + 3)) {
                    assert(before + (seq![(hi * 16 + lo) as u8] + rest) =~= decoded@ + rest);
                }
            }
            index = index + 3;
        } else {
            proof {
                assert(tail[0] == bytes@[index as int]);
                assert(tail.skip(1) =~= all.skip(index + 1));
            }
            let ghost before = decoded@;
            decoded.push(bytes[index]);
            proof {
                if let Some(rest) = percent_decoded(all.skip(index + 1)) {
                    assert(before + (seq![all[index as int]] + rest) =~= decoded@ + rest);
                }
            }
            index = index + 1;
        }
    }
    proof {
        assert(all.skip(index as int).len() == 0);
        assert(decoded@ + Seq::<u8>::empty() =~= decoded@);
    }
    string_from_utf8(decoded)
}

/// The directory a new tab or window starts in: the shell's live report when it names a
/// directory, else the snapshot's anchor directory.
pub open spec fn mux_command_cwd(live: Option<Seq<char>>, anchor: Option<Seq<char>>) -> Option<
    Seq<char>,
> {
    match live {
        Some(report) => match normalized_cwd(report) {
            Some(dir) => Some(dir),
            None => anchor,
        },
        None => anchor,
    }
}

/// The text of an optional string.
pub open spec fn opt_text(s: Option<String>) -> Option<Seq<char>> {
    match s {
        Some(s) => Some(s@),
        None => None,
    }
}

pub fn terminal_cwd_for_mux_command(
    live_terminal_cwd: Option<String>,
    anchor_cwd: Option<String>,
) -> (r: Option<String>)
    ensures
        opt_text(r) == mux_command_cwd(opt_text(live_terminal_cwd), opt_text(anchor_cwd)),
{
    let live = match &live_terminal_cwd {
        Some(cwd) => normalize_terminal_cwd(cwd.as_str()),
        None => None,
    };
    match live {
        Some(dir) => Some(dir),
        None => anchor_cwd,
    }
}

/// A text without `%` percent-decodes to itself.
pub proof fn lemma_percent_decode_plain(bytes: Seq<u8>)
    requires
        forall|i: int| 0 <= i < bytes.len() ==> bytes[i] != 0x25,
    ensures
        percent_decoded(bytes) == Some(bytes),
    decreases bytes.len(),
{
    if bytes.len() > 0 {
        let rest = bytes.skip(1);
        assert forall|i: int| 0 <= i < rest.len() implies rest[i] != 0x25 by {
            assert(rest[i] == bytes[i + 1]);
        }
        lemma_percent_decode_plain(rest);
        assert(seq![bytes[0]] + rest =~= bytes);
    }
}

/// The ASCII upper-case hex digit of a value below 16.
pub open spec fn hex_digit_upper(d: u8) -> u8 {
    if d < 10 {
        (0x30 + d) as u8
    } else {
        (0x41 + d - 10) as u8
    }
}

/// Every byte written as a `%XY` escape with upper-case hex digits.
pub open spec fn percent_encoded(bytes: Seq<u8>) -> Seq<u8>
    decreases bytes.len(),
{
    if bytes.len() == 0 {
        Seq::empty()
    } else {
        seq![0x25u8, hex_digit_upper(bytes[0] / 16), hex_digit_upper(bytes[0] % 16)]
            + percent_encoded(bytes.skip(1))
    }
}

/// Escaping every byte and decoding gives the bytes back.
pub proof fn lemma_percent_decode_encoded(bytes: Seq<u8>)
    ensures
        percent_decoded(percent_encoded(bytes)) == Some(bytes),
    decreases bytes.len(),
{
    if bytes.len() > 0 {
        let b = bytes[0];
        let enc = percent_encoded(bytes);
        let rest = percent_encoded(bytes.skip(1));
        assert(enc[0] == 0x25u8);
        assert(enc[1] == hex_digit_upper(b / 16));
        assert(enc[2] == hex_digit_upper(b % 16));
        assert(enc.skip(3) =~= rest);
        lemma_percent_decode_encoded(bytes.skip(1));
        assert(hex_digit_value(hex_digit_upper(b / 16)) == Some((b / 16) as u8));
        assert(hex_digit_value(hex_digit_upper(b % 16)) == Some((b % 16) as u8));
        assert(((b / 16) * 16 + b % 16) as u8 == b);
        assert(seq![b] + bytes.skip(1) =~= bytes);
    }
}

/// Escaping every byte of a text and decoding gives the text back.
pub proof fn lemma_percent_decode_encoded_text(text: Seq<char>)
    ensures
        percent_decoded_text(percent_encoded(encode_utf8(text))) == Some(text),
{
    lemma_percent_decode_encoded(encode_utf8(text));
    encode_utf8_valid_utf8(text);
    encode_utf8_decode_utf8(text);
}

/// The text of a string with every byte written as `%XY`, upper-case hex: the characters
/// `%`, `X` and `Y` for each byte in turn.
pub open spec fn percent_escape_text(bytes: Seq<u8>) -> Seq<char>
    decreases bytes.len(),
{
    if bytes.len() == 0 {
        Seq::empty()
    } else {
        seq!['%', hex_digit_upper(bytes[0] / 16) as char, hex_digit_upper(bytes[0] % 16) as char]
            + percent_escape_text(bytes.skip(1))
    }
}

proof fn lemma_ascii_encoding(c: char)
    requires
        (c as u32) <= 0x7F,
    ensures
        encode_scalar(c as u32) == seq![(c as u32) as u8],
{
    let v = c as u32;
    assert(v & 0x7F == v) by (bit_vector)
        requires
            v <= 0x7F,
    ;
}

proof fn lemma_escape_text_encoding(bytes: Seq<u8>)
    ensures
        encode_utf8(percent_escape_text(bytes)) == percent_encoded(bytes),
    decreases bytes.len(),
{
    if bytes.len() > 0 {
        let b = bytes[0];
        let hi = hex_digit_upper(b / 16);
        let lo = hex_digit_upper(b % 16);
        let rest = percent_escape_text(bytes.skip(1));
        let t = percent_escape_text(bytes);
        lemma_escape_text_encoding(bytes.skip(1));
        lemma_ascii_encoding('%');
        lemma_ascii_encoding(hi as char);
        lemma_ascii_encoding(lo as char);
        let t1 = t.drop_first();
        let t2 = t1.drop_first();
        assert(t2.drop_first() =~= rest);
        assert(t[0] == '%' && t1[0] == hi as char && t2[0] == lo as char);
        assert(hi < 0x80 && lo < 0x80);
        assert(((hi as char) as u32) as u8 == hi);
        assert(((lo as char) as u32) as u8 == lo);
        assert(encode_utf8(t2) == encode_scalar(t2[0] as u32) + encode_utf8(rest));
        assert(encode_utf8(t1) == encode_scalar(t1[0] as u32) + encode_utf8(t2));
        assert(encode_utf8(t) == encode_scalar(t[0] as u32) + encode_utf8(t1));
        assert(encode_utf8(t) =~= seq![0x25u8] + (seq![hi] + (seq![lo] + encode_utf8(rest))));
        assert(percent_encoded(bytes) =~= seq![0x25u8] + (seq![hi] + (seq![lo] + percent_encoded(
            bytes.skip(1),
        ))));
    }
}

/// Decoding the text of a string whose every byte is written as an escape gives the string
/// back: `percent_decode` of that text is the string.
pub proof fn lemma_percent_decode_escaped_text(text: Seq<char>)
    ensures
        percent_decoded_text(encode_utf8(percent_escape_text(encode_utf8(text)))) == Some(text),
{
    lemma_escape_text_encoding(encode_utf8(text));
    lemma_percent_decode_encoded_text(text);
}

/// A `%` that is not followed by two hex digits makes the whole decoding fail, wherever it
/// stands: a `%` is never read as one of an escape's digits.
pub proof fn lemma_percent_decode_bad_escape(bytes: Seq<u8>, i: int)
    requires
        0 <= i < bytes.len(),
        bytes[i] == 0x25,
        !(i + 2 < bytes.len() && hex_digit_value(bytes[i + 1]) is Some && hex_digit_value(
            bytes[i + 2],
        ) is Some),
    ensures
        percent_decoded(bytes) is None,
        percent_decoded_text(bytes) is None,
    decreases bytes.len(),
{
    if i > 0 {
        if bytes[0] == 0x25 {
            if bytes.len() >= 3 && hex_digit_value(bytes[1]) is Some && hex_digit_value(bytes[2]) is Some {
                assert(i >= 3);
                let rest = bytes.skip(3);
                assert(rest[i - 3] == bytes[i]);
                lemma_percent_decode_bad_escape(rest, i - 3);
            }
        } else {
            let rest = bytes.skip(1);
            assert(rest[i - 1] == bytes[i]);
            lemma_percent_decode_bad_escape(rest, i - 1);
        }
    }
}

/// Escapes that decode to bytes that are not UTF-8 make the text decoding fail.
pub proof fn lemma_percent_decode_not_utf8(bytes: Seq<u8>, decoded: Seq<u8>)
    requires
        percent_decoded(bytes) == Some(decoded),
        !valid_utf8(decoded),
    ensures
        percent_decoded_text(bytes) is None,
{
}

proof fn lemma_encode_utf8_concat(a: Seq<char>, b: Seq<char>)
    ensures
        encode_utf8(a + b) == encode_utf8(a) + encode_utf8(b),
    decreases a.len(),
{
    if a.len() == 0 {
        assert(a + b =~= b);
        assert(encode_utf8(a) + encode_utf8(b) =~= encode_utf8(b));
    } else {
        assert((a + b).drop_first() =~= a.drop_first() + b);
        assert((a + b)[0] == a[0]);
        lemma_encode_utf8_concat(a.drop_first(), b);
        assert(encode_utf8(a + b) =~= encode_utf8(a) + encode_utf8(b));
    }
}

/// An ASCII character is encoded as its own byte; every byte of any other character's encoding
/// is 0x80 or above.
proof fn lemma_scalar_bytes(c: char)
    ensures
        encode_scalar(c as u32).len() >= 1,
        (c as u32) <= 0x7F ==> encode_scalar(c as u32) == seq![(c as u32) as u8],
        (c as u32) > 0x7F ==> forall|k: int|
            0 <= k < encode_scalar(c as u32).len() ==> #[trigger] encode_scalar(c as u32)[k] >= 0x80,
{
    char_is_scalar(c);
    let v = c as u32;
    if v <= 0x7F {
        lemma_ascii_encoding(c);
    } else {
        let a = ((v >> 6) & 0x1F) as u8;
        let b = ((v >> 12) & 0x0F) as u8;
        let d = ((v >> 18) & 0x7) as u8;
        let x = (v & 0x3F) as u8;
        let y = ((v >> 6) & 0x3F) as u8;
        let z = ((v >> 12) & 0x3F) as u8;
        assert(0xC0u8 | a >= 0x80u8) by (bit_vector);
        assert(0xE0u8 | b >= 0x80u8) by (bit_vector);
        assert(0xF0u8 | d >= 0x80u8) by (bit_vector);
        assert(0x80u8 | x >= 0x80u8) by (bit_vector);
        assert(0x80u8 | y >= 0x80u8) by (bit_vector);
        assert(0x80u8 | z >= 0x80u8) by (bit_vector);
    }
}

proof fn lemma_encode_first(chars: Seq<char>)
    requires
        chars.len() > 0,
    ensures
        encode_utf8(chars) == encode_scalar(chars[0] as u32) + encode_utf8(chars.drop_first()),
{
}

proof fn lemma_no_percent_byte(text: Seq<char>)
    requires
        forall|i: int| 0 <= i < text.len() ==> text[i] != '%',
    ensures
        forall|k: int| 0 <= k < encode_utf8(text).len() ==> encode_utf8(text)[k] != 0x25,
    decreases text.len(),
{
    if text.len() > 0 {
        let rest = text.drop_first();
        assert forall|i: int| 0 <= i < rest.len() implies rest[i] != '%' by {
            assert(rest[i] == text[i + 1]);
        }
        lemma_no_percent_byte(rest);
        lemma_scalar_bytes(text[0]);
        lemma_encode_first(text);
        let e = encode_scalar(text[0] as u32);
        assert forall|k: int| 0 <= k < encode_utf8(text).len() implies encode_utf8(text)[k] != 0x25 by {
            if k < e.len() {
                assert(encode_utf8(text)[k] == e[k]);
                let v = text[0] as u32;
                if v <= 0x7F {
                    assert(text[0] != '%');
                    assert(v != 0x25) by {
                        if v == 0x25 {
                            char_u32_cast(text[0], v);
                            char_u32_cast('%', '%' as u32);
                            assert('%' as u32 == 0x25);
                        }
                    }
                    assert(e[k] == v as u8);
                    assert(v as u8 == v);
                } else {
                    assert(encode_scalar(text[0] as u32)[k] >= 0x80);
                }
            } else {
                assert(encode_utf8(text)[k] == encode_utf8(rest)[k - e.len()]);
            }
        }
    }
}

/// A text without `%` decodes to itself.
pub proof fn lemma_percent_decode_plain_text(text: Seq<char>)
    requires
        forall|i: int| 0 <= i < text.len() ==> text[i] != '%',
    ensures
        percent_decoded_text(encode_utf8(text)) == Some(text),
{
    lemma_no_percent_byte(text);
    lemma_percent_decode_plain(encode_utf8(text));
    encode_utf8_valid_utf8(text);
    encode_utf8_decode_utf8(text);
}

/// Whether a character is an ASCII hex digit.
pub open spec fn is_hex_char(c: char) -> bool {
    (c as u32) <= 0x7F && hex_digit_value((c as u32) as u8) is Some
}

/// The first byte of the encoding of `chars[i..]` tells whether `chars[i]` is a hex digit.
proof fn lemma_first_byte_hex(chars: Seq<char>)
    requires
        chars.len() > 0,
    ensures
        encode_utf8(chars).len() > 0,
        hex_digit_value(encode_utf8(chars)[0]) is Some <==> is_hex_char(chars[0]),
        is_hex_char(chars[0]) ==> encode_utf8(chars) == seq![(chars[0] as u32) as u8] + encode_utf8(
            chars.drop_first(),
        ),
{
    lemma_scalar_bytes(chars[0]);
    lemma_encode_first(chars);
    let e = encode_scalar(chars[0] as u32);
    assert(encode_utf8(chars)[0] == e[0]);
}

/// A `%` in a text that is not followed by two hex digits makes the decoding fail.
pub proof fn lemma_percent_decode_bad_escape_text(text: Seq<char>, i: int)
    requires
        0 <= i < text.len(),
        text[i] == '%',
        !(i + 2 < text.len() && is_hex_char(text[i + 1]) && is_hex_char(text[i + 2])),
    ensures
        percent_decoded_text(encode_utf8(text)) is None,
{
    let head = text.take(i);
    let tail = text.skip(i);
    assert(head + tail =~= text);
    lemma_encode_utf8_concat(head, tail);
    let n = encode_utf8(head).len() as int;
    let bytes = encode_utf8(text);
    let t1 = tail.drop_first();
    lemma_encode_first(tail);
    lemma_ascii_encoding('%');
    assert(encode_utf8(tail) =~= seq![0x25u8] + encode_utf8(t1));
    assert(bytes[n] == 0x25);
    assert(bytes.len() == n + 1 + encode_utf8(t1).len());
    if t1.len() > 0 {
        lemma_first_byte_hex(t1);
        assert(bytes[n + 1] == encode_utf8(t1)[0]);
        assert(t1[0] == text[i + 1]);
        if is_hex_char(t1[0]) {
            let t2 = t1.drop_first();
            assert(encode_utf8(t1).len() == 1 + encode_utf8(t2).len());
            if t2.len() > 0 {
                lemma_first_byte_hex(t2);
                assert(bytes[n + 2] == encode_utf8(t1)[1]);
                assert(encode_utf8(t1)[1] == encode_utf8(t2)[0]);
                assert(t2[0] == text[i + 2]);
            } else {
                assert(encode_utf8(t2).len() == 0);
            }
        }
    } else {
        assert(encode_utf8(t1).len() == 0);
    }
    lemma_percent_decode_bad_escape(bytes, n);
}

/// A directory that is not a URL is used as it was reported.
pub proof fn lemma_plain_cwd_kept(cwd: Seq<char>)
    requires
        cwd.len() > 0,
        !is_file_url(encode_utf8(cwd)),
    ensures
        normalized_cwd(cwd) == Some(cwd),
{
}

/// A session request: the name to create the session under and the directory it starts in.
pub struct NewMuxSessionRequest {
    pub session_id: String,
    pub cwd: String,
}

/// The directory a new session starts in: the configured working directory, else the default
/// one (the home directory), else the process's current directory, else the directory holding
/// the config file, else `.`.
pub open spec fn new_session_cwd(
    configured: Option<Seq<char>>,
    default_dir: Option<Seq<char>>,
    current_dir: Option<Seq<char>>,
    config_dir: Option<Seq<char>>,
) -> Seq<char> {
    match configured {
        Some(dir) => dir,
        None => match default_dir {
            Some(dir) => dir,
            None => match current_dir {
                Some(dir) => dir,
                None => match config_dir {
                    Some(dir) => dir,
                    None => seq!['.'],
                },
            },
        },
    }
}

/// A request to create a session named `name`, in the first directory that is known.
pub fn new_mux_session_request_with_name(
    name: String,
    configured: Option<String>,
    default_dir: Option<String>,
    current_dir: Option<String>,
    config_dir: Option<String>,
) -> (r: NewMuxSessionRequest)
    ensures
        r.session_id@ == name@,
        r.cwd@ == new_session_cwd(
            opt_text(configured),
            opt_text(default_dir),
            opt_text(current_dir),
            opt_text(config_dir),
        ),
{
    let cwd = match configured {
        Some(dir) => dir,
        None => match default_dir {
            Some(dir) => dir,
            None => match current_dir {
                Some(dir) => dir,
                None => match config_dir {
                    Some(dir) => dir,
                    None => {
                        let mut dot = String::new();
                        crate::text::push_char(&mut dot, '.');
                        proof {
                            assert(dot@ =~= seq!['.']);
                        }
                        dot
                    },
                },
            },
        },
    };
    NewMuxSessionRequest { session_id: name, cwd }
}

} // verus!
