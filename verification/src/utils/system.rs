//! What the library takes from the machine it runs on: random bytes, the
//! clock, the host's name, fresh identifiers and SHA-256.

use vstd::prelude::*;
use vstd::array::array_as_slice;
use vstd::string::{StrSliceExecFns, StringExecFns};
use crate::utils::hex::{
    encode_hex, hex_lower, is_lower_hex, is_lower_hex_digit, lemma_hex_lower_shape,
};
use rand::Rng;
use sha2::Digest;

verus! {

/// The SHA-256 digest of a byte string.
pub uninterp spec fn sha256_digest(data: Seq<u8>) -> Seq<u8>;

/// Thirty-two digits in groups of 8, 4, 4, 4 and 12, with hyphens
/// between the groups.
pub open spec fn hyphenated(digits: Seq<char>) -> Seq<char> {
    digits.subrange(0, 8) + "-"@ + digits.subrange(8, 12) + "-"@ + digits.subrange(12, 16) + "-"@
        + digits.subrange(16, 20) + "-"@ + digits.subrange(20, 32)
}

/// Text of a hyphenated UUID: 36 characters, hyphens after the 8th, 12th,
/// 16th and 20th digit, lower-case hexadecimal digits elsewhere.
pub open spec fn is_hyphenated_uuid(s: Seq<char>) -> bool {
    &&& s.len() == 36
    &&& forall|i: int|
        0 <= i < 36 ==> if i == 8 || i == 13 || i == 18 || i == 23 {
            #[trigger] s[i] == '-'
        } else {
            is_lower_hex_digit(s[i])
        }
}

/// `Rng::gen` on `rand::thread_rng()`: one byte from the thread-local
/// generator. Nothing is promised of its value.
#[verifier::external_body]
pub(crate) fn random_byte() -> (byte: u8) {
    rand::thread_rng().gen()
}

/// Sixteen random bytes.
pub(crate) fn random_bytes_16() -> (bytes: [u8; 16]) {
    [
        random_byte(),
        random_byte(),
        random_byte(),
        random_byte(),
        random_byte(),
        random_byte(),
        random_byte(),
        random_byte(),
        random_byte(),
        random_byte(),
        random_byte(),
        random_byte(),
        random_byte(),
        random_byte(),
        random_byte(),
        random_byte(),
    ]
}

/// Eight random bytes.
pub(crate) fn random_bytes_8() -> (bytes: [u8; 8]) {
    [
        random_byte(),
        random_byte(),
        random_byte(),
        random_byte(),
        random_byte(),
        random_byte(),
        random_byte(),
        random_byte(),
    ]
}

/// Six random bytes.
pub(crate) fn random_bytes_6() -> (bytes: [u8; 6]) {
    [random_byte(), random_byte(), random_byte(), random_byte(), random_byte(), random_byte()]
}

/// `sha2::Sha256`, fed `data` and finalized: the 32-byte digest.
#[verifier::external_body]
pub(crate) fn sha256(data: &[u8]) -> (digest: [u8; 32])
    ensures
        digest@ == sha256_digest(data@),
{
    let mut hasher = sha2::Sha256::new();
    hasher.update(data);
    hasher.finalize().into()
}

/// `SystemTime::now`, as whole seconds since the Unix epoch, or nothing
/// when the clock stands before the epoch. Nothing is promised of the
/// reading.
#[verifier::external_body]
pub(crate) fn clock_reading() -> (secs: Option<u64>) {
    match std::time::SystemTime::now().duration_since(std::time::UNIX_EPOCH) {
        Ok(elapsed) => Some(elapsed.as_secs()),
        Err(_) => None,
    }
}

/// The seconds of a clock reading; a clock that stands before the epoch
/// counts as standing at it.
pub fn seconds_or_zero(reading: Option<u64>) -> (secs: u64)
    ensures
        secs == match reading {
            Some(s) => s,
            None => 0,
        },
{
    match reading {
        Some(s) => s,
        None => 0,
    }
}

/// Whole seconds since the Unix epoch by the system clock.
pub(crate) fn unix_time_secs() -> (secs: u64) {
    seconds_or_zero(clock_reading())
}

/// `hostname::get`, with the name converted lossily to text and the
/// error to its message. Nothing is promised of either.
#[verifier::external_body]
pub(crate) fn system_hostname() -> (name: Result<String, String>) {
    match hostname::get() {
        Ok(name) => Ok(name.to_string_lossy().to_string()),
        Err(e) => Err(e.to_string()),
    }
}

/// `uuid::Uuid::new_v4`: the sixteen bytes of a fresh random UUID.
/// Nothing is promised of their values.
#[verifier::external_body]
pub(crate) fn uuid_v4_bytes() -> (bytes: [u8; 16]) {
    uuid::Uuid::new_v4().into_bytes()
}

/// The simple text of a UUID: the 32 lower-case hexadecimal digits of
/// its bytes.
pub fn simple_uuid_text(bytes: &[u8; 16]) -> (text: String)
    ensures
        text@ == hex_lower(bytes@),
        text@.len() == 32,
        is_lower_hex(text@),
{
    proof {
        lemma_hex_lower_shape(bytes@);
    }
    encode_hex(array_as_slice(bytes))
}

/// The hyphenated text of a UUID: its simple text in groups of 8, 4, 4,
/// 4 and 12 digits, with hyphens between the groups.
pub fn hyphenated_uuid_text(bytes: &[u8; 16]) -> (text: String)
    ensures
        text@ == hyphenated(hex_lower(bytes@)),
        is_hyphenated_uuid(text@),
{
    let simple = simple_uuid_text(bytes);
    let digits = simple.as_str();
    let mut text = digits.substring_char(0, 8).to_string();
    text.append("-");
    text.append(digits.substring_char(8, 12));
    text.append("-");
    text.append(digits.substring_char(12, 16));
    text.append("-");
    text.append(digits.substring_char(16, 20));
    text.append("-");
    text.append(digits.substring_char(20, 32));
    proof {
        reveal_strlit("-");
        let s = hex_lower(bytes@);
        assert(text@ =~= hyphenated(s));
        assert forall|i: int| 0 <= i < 36 implies if i == 8 || i == 13 || i == 18 || i == 23 {
            #[trigger] text@[i] == '-'
        } else {
            is_lower_hex_digit(text@[i])
        } by {
            if i < 8 {
                assert(text@[i] == s[i]);
            } else if 8 < i < 13 {
                assert(text@[i] == s[i - 1]);
            } else if 13 < i < 18 {
                assert(text@[i] == s[i - 2]);
            } else if 18 < i < 23 {
                assert(text@[i] == s[i - 3]);
            } else if 23 < i {
                assert(text@[i] == s[i - 4]);
            }
        }
    }
    text
}

/// A fresh random UUID in its simple form: 32 lower-case hexadecimal
/// digits.
pub fn uuid_v4_simple() -> (text: String)
    ensures
        text@.len() == 32,
        is_lower_hex(text@),
{
    let bytes = uuid_v4_bytes();
    simple_uuid_text(&bytes)
}

/// A fresh random UUID in its hyphenated form.
pub fn uuid_v4_hyphenated() -> (text: String)
    ensures
        is_hyphenated_uuid(text@),
{
    let bytes = uuid_v4_bytes();
    hyphenated_uuid_text(&bytes)
}

} // verus!
