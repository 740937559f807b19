//! Validation of an update artifact against a published SHA-256 digest.
//!
//! The checksum file starts with the digest, written as 64 hexadecimal
//! characters in either case, optionally preceded by a byte-order mark and
//! optionally followed by further text after a whitespace. The artifact is
//! accepted exactly when that digest equals the SHA-256 digest of the
//! artifact's bytes, compared case-insensitively.

use vstd::prelude::*;

use crate::errors::ValidationError;
use sha2::Digest;

verus! {

/// The SHA-256 digest of a byte sequence.
pub uninterp spec fn sha256_of(data: Seq<u8>) -> Seq<u8>;

/// Relies on `sha2::Sha256` through `digest::Digest::digest`: the result is
/// the SHA-256 digest of the input, which is 32 bytes long and a function of
/// the input bytes alone.
#[verifier::external_body]
fn sha256_digest(data: &[u8]) -> (r: Vec<u8>)
    ensures
        r@ == sha256_of(data@),
        r@.len() == 32,
{
    sha2::Sha256::digest(data).to_vec()
}

/// Whether a character is a hexadecimal digit.
pub open spec fn is_hex_char(c: char) -> bool {
    (('0' as u32) <= (c as u32) && (c as u32) <= ('9' as u32)) || (('a' as u32) <= (c as u32) && (c
        as u32) <= ('f' as u32)) || (('A' as u32) <= (c as u32) && (c as u32) <= ('F' as u32))
}

/// The numeric value of a hexadecimal digit.
pub open spec fn hex_val(c: char) -> int {
    if ('0' as u32) <= (c as u32) && (c as u32) <= ('9' as u32) {
        (c as u32) - ('0' as u32)
    } else if ('a' as u32) <= (c as u32) && (c as u32) <= ('f' as u32) {
        (c as u32) - ('a' as u32) + 10
    } else {
        (c as u32) - ('A' as u32) + 10
    }
}

/// The text with a leading byte-order mark removed, if one is present.
pub open spec fn strip_bom(text: Seq<char>) -> Seq<char> {
    if text.len() > 0 && text[0] == '\u{FEFF}' {
        text.skip(1)
    } else {
        text
    }
}

/// The length of the leading run of hexadecimal characters.
pub open spec fn hex_prefix_len(s: Seq<char>) -> int
    decreases s.len(),
{
    if s.len() == 0 || !is_hex_char(s[0]) {
        0
    } else {
        1 + hex_prefix_len(s.skip(1))
    }
}

/// The digest token published by a checksum file: the leading run of
/// hexadecimal characters, after any byte-order mark.
pub open spec fn spec_extract_token(text: Seq<char>) -> Seq<char> {
    let t = strip_bom(text);
    t.take(hex_prefix_len(t))
}

/// Whether a run of hexadecimal characters spells the given bytes, two
/// characters per byte, in either case.
pub open spec fn spec_hex_matches(token: Seq<char>, bytes: Seq<u8>) -> bool {
    &&& token.len() == 2 * bytes.len()
    &&& forall|i: int|
        0 <= i < bytes.len() ==> hex_val(token[2 * i]) * 16 + hex_val(token[2 * i + 1]) == bytes[i]
}

/// What validating a payload against the text of a checksum file returns.
pub open spec fn spec_validate(payload: Seq<u8>, text: Seq<char>) -> Result<(), ValidationError> {
    let token = spec_extract_token(text);
    if token.len() != 64 {
        Err(ValidationError::MalformedChecksumFile)
    } else if spec_hex_matches(token, sha256_of(payload)) {
        Ok(())
    } else {
        Err(ValidationError::HashMismatch)
    }
}

/// The leading hexadecimal run is no longer than the text, consists of
/// hexadecimal characters, and ends at the end of the text or at its first
/// non-hexadecimal character.
proof fn lemma_hex_prefix_props(s: Seq<char>)
    ensures
        0 <= hex_prefix_len(s) <= s.len(),
        forall|j: int| 0 <= j < hex_prefix_len(s) ==> is_hex_char(s[j]),
        hex_prefix_len(s) == s.len() || !is_hex_char(s[hex_prefix_len(s)]),
    decreases s.len(),
{
    if s.len() > 0 && is_hex_char(s[0]) {
        lemma_hex_prefix_props(s.skip(1));
        let h = hex_prefix_len(s.skip(1));
        assert forall|j: int| 0 <= j < h + 1 implies is_hex_char(s[j]) by {
            if j > 0 {
                assert(is_hex_char(s.skip(1)[j - 1]));
            }
        }
        if h < s.len() - 1 {
            assert(!is_hex_char(s.skip(1)[h]));
        }
    }
}

/// A position bounding a run of hexadecimal characters from both sides is
/// exactly the length of the leading hexadecimal run.
proof fn lemma_hex_prefix_exact(s: Seq<char>, i: int)
    requires
        0 <= i <= s.len(),
        forall|j: int| 0 <= j < i ==> is_hex_char(s[j]),
        i == s.len() || !is_hex_char(s[i]),
    ensures
        hex_prefix_len(s) == i,
    decreases i,
{
    if i == 0 {
    } else {
        assert(is_hex_char(s[0]));
        assert forall|j: int| 0 <= j < i - 1 implies is_hex_char(#[trigger] s.skip(1)[j]) by {
            assert(s.skip(1)[j] == s[j + 1]);
        }
        if i < s.len() {
            assert(s.skip(1)[i - 1] == s[i]);
        }
        lemma_hex_prefix_exact(s.skip(1), i - 1);
    }
}

/// The lowercase character for a hexadecimal digit value.
pub open spec fn hex_char_lower(d: int) -> char {
    if d < 10 {
        crate::decimal::dec_char(d)
    } else if d == 10 {
        'a'
    } else if d == 11 {
        'b'
    } else if d == 12 {
        'c'
    } else if d == 13 {
        'd'
    } else if d == 14 {
        'e'
    } else {
        'f'
    }
}

/// The uppercase character for a hexadecimal digit value.
pub open spec fn hex_char_upper(d: int) -> char {
    if d < 10 {
        crate::decimal::dec_char(d)
    } else if d == 10 {
        'A'
    } else if d == 11 {
        'B'
    } else if d == 12 {
        'C'
    } else if d == 13 {
        'D'
    } else if d == 14 {
        'E'
    } else {
        'F'
    }
}

/// Bytes written as lowercase hexadecimal characters, two per byte.
pub open spec fn hex_lower_str(bytes: Seq<u8>) -> Seq<char>
    decreases bytes.len(),
{
    if bytes.len() == 0 {
        Seq::empty()
    } else {
        seq![
            hex_char_lower(bytes[0] as int / 16),
            hex_char_lower(bytes[0] as int % 16),
        ] + hex_lower_str(bytes.skip(1))
    }
}

/// Bytes written as uppercase hexadecimal characters, two per byte.
pub open spec fn hex_upper_str(bytes: Seq<u8>) -> Seq<char>
    decreases bytes.len(),
{
    if bytes.len() == 0 {
        Seq::empty()
    } else {
        seq![
            hex_char_upper(bytes[0] as int / 16),
            hex_char_upper(bytes[0] as int % 16),
        ] + hex_upper_str(bytes.skip(1))
    }
}

/// The lowercase hexadecimal rendering of bytes consists of hexadecimal
/// characters, is twice as long as the bytes, and spells those bytes.
proof fn lemma_hex_lower_props(bytes: Seq<u8>)
    ensures
        hex_lower_str(bytes).len() == 2 * bytes.len(),
        forall|j: int| 0 <= j < hex_lower_str(bytes).len() ==> is_hex_char(hex_lower_str(bytes)[j]),
        spec_hex_matches(hex_lower_str(bytes), bytes),
    decreases bytes.len(),
{
    let s = hex_lower_str(bytes);
    if bytes.len() == 0 {
    } else {
        let rest = bytes.skip(1);
        lemma_hex_lower_props(rest);
        let srest = hex_lower_str(rest);
        let b0 = bytes[0] as int;
        vstd::arithmetic::div_mod::lemma_fundamental_div_mod(b0, 16);
        assert(0 <= b0 / 16 < 16 && 0 <= b0 % 16 < 16);
        assert(is_hex_char(s[0]) && is_hex_char(s[1]));
        assert(hex_val(s[0]) == b0 / 16 && hex_val(s[1]) == b0 % 16);
        assert forall|j: int| 0 <= j < s.len() implies is_hex_char(s[j]) by {
            if j >= 2 {
                assert(s[j] == srest[j - 2]);
                assert(is_hex_char(srest[j - 2]));
            }
        }
        assert forall|i: int|
            0 <= i < bytes.len() implies hex_val(s[2 * i]) * 16 + hex_val(s[2 * i + 1])
            == bytes[i] by {
            if i > 0 {
                assert(s[2 * i] == srest[2 * (i - 1)]);
                assert(s[2 * i + 1] == srest[2 * (i - 1) + 1]);
                assert(hex_val(srest[2 * (i - 1)]) * 16 + hex_val(srest[2 * (i - 1) + 1]) == rest[i
                    - 1]);
            }
        }
    }
}

/// The uppercase hexadecimal rendering of bytes consists of hexadecimal
/// characters, is twice as long as the bytes, and spells those bytes.
proof fn lemma_hex_upper_props(bytes: Seq<u8>)
    ensures
        hex_upper_str(bytes).len() == 2 * bytes.len(),
        forall|j: int| 0 <= j < hex_upper_str(bytes).len() ==> is_hex_char(hex_upper_str(bytes)[j]),
        spec_hex_matches(hex_upper_str(bytes), bytes),
    decreases bytes.len(),
{
    let s = hex_upper_str(bytes);
    if bytes.len() == 0 {
    } else {
        let rest = bytes.skip(1);
        lemma_hex_upper_props(rest);
        let srest = hex_upper_str(rest);
        let b0 = bytes[0] as int;
        vstd::arithmetic::div_mod::lemma_fundamental_div_mod(b0, 16);
        assert(0 <= b0 / 16 < 16 && 0 <= b0 % 16 < 16);
        assert(is_hex_char(s[0]) && is_hex_char(s[1]));
        assert(hex_val(s[0]) == b0 / 16 && hex_val(s[1]) == b0 % 16);
        assert forall|j: int| 0 <= j < s.len() implies is_hex_char(s[j]) by {
            if j >= 2 {
                assert(s[j] == srest[j - 2]);
                assert(is_hex_char(srest[j - 2]));
            }
        }
        assert forall|i: int|
            0 <= i < bytes.len() implies hex_val(s[2 * i]) * 16 + hex_val(s[2 * i + 1])
            == bytes[i] by {
            if i > 0 {
                assert(s[2 * i] == srest[2 * (i - 1)]);
                assert(s[2 * i + 1] == srest[2 * (i - 1) + 1]);
                assert(hex_val(srest[2 * (i - 1)]) * 16 + hex_val(srest[2 * (i - 1) + 1]) == rest[i
                    - 1]);
            }
        }
    }
}

/// A checksum file that publishes the payload's own SHA-256 digest — written
/// in 64 hexadecimal characters of either case, optionally preceded by a
/// byte-order mark and optionally followed by text after a space — validates
/// successfully.
pub proof fn lemma_correct_checksum_accepted(
    payload: Seq<u8>,
    text: Seq<char>,
    bom: Seq<char>,
    digits: Seq<char>,
    tail: Seq<char>,
)
    requires
        text == bom + digits + tail,
        bom == Seq::<char>::empty() || bom == seq!['\u{FEFF}'],
        digits == hex_lower_str(sha256_of(payload)) || digits == hex_upper_str(sha256_of(payload)),
        sha256_of(payload).len() == 32,
        tail.len() == 0 || tail[0] == ' ',
    ensures
        spec_validate(payload, text) == Ok::<(), ValidationError>(()),
{
    lemma_hex_lower_props(sha256_of(payload));
    lemma_hex_upper_props(sha256_of(payload));
    let body = digits + tail;
    assert(strip_bom(text) =~= body) by {
        if bom == seq!['\u{FEFF}'] {
            assert(text[0] == '\u{FEFF}');
            assert(text.skip(1) =~= body);
        } else {
            assert(text =~= body);
            assert(body.len() > 0);
            assert(body[0] == digits[0]);
            assert(is_hex_char(digits[0]));
            assert(body[0] != '\u{FEFF}');
        }
    }
    assert(digits.len() == 64);
    assert forall|j: int| 0 <= j < 64 implies is_hex_char(body[j]) by {
        assert(body[j] == digits[j]);
        assert(is_hex_char(digits[j]));
    }
    if body.len() > 64 {
        assert(body[64] == tail[0]);
        assert(!is_hex_char(' '));
    }
    lemma_hex_prefix_exact(body, 64);
    assert(spec_extract_token(text) =~= digits);
    assert(spec_hex_matches(digits, sha256_of(payload)));
}

/// A checksum file whose published 64-character digest does not spell the
/// payload's SHA-256 digest is rejected as a mismatch.
pub proof fn lemma_wrong_checksum_rejected(payload: Seq<u8>, text: Seq<char>)
    requires
        spec_extract_token(text).len() == 64,
        !spec_hex_matches(spec_extract_token(text), sha256_of(payload)),
    ensures
        spec_validate(payload, text) == Err::<(), ValidationError>(ValidationError::HashMismatch),
{
}

/// A checksum file whose published digest is not exactly 64 characters long
/// is rejected as malformed.
pub proof fn lemma_short_token_rejected(payload: Seq<u8>, text: Seq<char>)
    requires
        spec_extract_token(text).len() != 64,
    ensures
        spec_validate(payload, text) == Err::<(), ValidationError>(
            ValidationError::MalformedChecksumFile,
        ),
{
}

/// Whether a character is a hexadecimal digit.
pub fn is_hex(c: char) -> (r: bool)
    ensures
        r == is_hex_char(c),
{
    let u = c as u32;
    (('0' as u32) <= u && u <= ('9' as u32)) || (('a' as u32) <= u && u <= ('f' as u32)) || (('A'
        as u32) <= u && u <= ('F' as u32))
}

/// The numeric value of a hexadecimal digit character.
fn hex_digit_value(c: char) -> (r: u8)
    requires
        is_hex_char(c),
    ensures
        r == hex_val(c),
        r < 16,
{
    let u = c as u32;
    if ('0' as u32) <= u && u <= ('9' as u32) {
        (u - ('0' as u32)) as u8
    } else if ('a' as u32) <= u && u <= ('f' as u32) {
        (u - ('a' as u32) + 10) as u8
    } else {
        (u - ('A' as u32) + 10) as u8
    }
}

/// Extracts the digest token contained in the given checksum file text: the
/// leading run of hexadecimal characters, after any byte-order mark.
pub fn extract_hash(text: &str) -> (r: String)
    ensures
        r@ == spec_extract_token(text@),
{
    let len = text.unicode_len();
    let body: &str = if len > 0 && text.get_char(0) == '\u{FEFF}' {
        let b = text.substring_char(1, len);
        proof {
            assert(b@ =~= strip_bom(text@));
        }
        b
    } else {
        proof {
            assert(text@ =~= strip_bom(text@));
        }
        text
    };
    let body_len = body.unicode_len();
    let mut i: usize = 0;
    while i < body_len && is_hex(body.get_char(i))
        invariant
            0 <= i <= body_len,
            body_len == body@.len(),
            forall|j: int| 0 <= j < i ==> is_hex_char(body@[j]),
        decreases body_len - i,
    {
        i += 1;
    }
    proof {
        lemma_hex_prefix_exact(body@, i as int);
    }
    let token = body.substring_char(0, i);
    proof {
        assert(token@ =~= body@.take(i as int));
    }
    String::from_str(token)
}

/// Validates a payload against the text of its checksum file.
///
/// The result is `Ok` exactly when the checksum file publishes a 64-character
/// hexadecimal digest equal, ignoring case, to the SHA-256 digest of the
/// payload; a published digest of any other length is malformed, and a
/// 64-character digest that differs is a mismatch.
pub fn validate_file_hash(payload: &[u8], checksum_text: &str) -> (r: Result<(), ValidationError>)
    ensures
        r == spec_validate(payload@, checksum_text@),
{
    let token = extract_hash(checksum_text);
    let token_str = token.as_str();
    let token_len = token_str.unicode_len();
    if token_len != 64 {
        return Err(ValidationError::MalformedChecksumFile);
    }
    proof {
        lemma_hex_prefix_props(strip_bom(checksum_text@));
    }
    let digest = sha256_digest(payload);
    let ghost bytes = sha256_of(payload@);
    let mut i: usize = 0;
    while i < 32
        invariant
            0 <= i <= 32,
            token_str@ == spec_extract_token(checksum_text@),
            token_str@.len() == 64,
            forall|j: int| 0 <= j < token_str@.len() ==> is_hex_char(token_str@[j]),
            digest@ == bytes,
            bytes == sha256_of(payload@),
            digest@.len() == 32,
            forall|j: int|
                0 <= j < i ==> hex_val(token_str@[2 * j]) * 16 + hex_val(token_str@[2 * j + 1])
                    == bytes[j],
        decreases 32 - i,
    {
        let hi = hex_digit_value(token_str.get_char(2 * i));
        let lo = hex_digit_value(token_str.get_char(2 * i + 1));
        if hi * 16 + lo != digest[i] {
            assert(!spec_hex_matches(token_str@, bytes));
            return Err(ValidationError::HashMismatch);
        }
        i += 1;
    }
    assert(spec_hex_matches(token_str@, bytes));
    Ok(())
}

} // verus!
