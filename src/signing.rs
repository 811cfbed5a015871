//! HMAC-SHA256 signatures in lowercase hex, and the clock that stamps them.
use vstd::prelude::*;

use hmac::{Hmac, Mac};
use sha2::Sha256;

use crate::error::BinanceError;
use crate::text::{decimal_of, decimal_text};

verus! {

#[verifier::external_type_specification]
#[verifier::external_body]
pub struct ExInvalidLength(hmac::digest::InvalidLength);

/// HMAC-SHA256 over the UTF-8 bytes of `message`, keyed by the UTF-8 bytes of `key`.
pub uninterp spec fn hmac_sha256_of(key: Seq<char>, message: Seq<char>) -> Seq<u8>;

/// The lowercase hex digit of a value below 16.
pub open spec fn hex_digit(d: nat) -> char {
    if d < 10 {
        crate::text::digit_char(d)
    } else if d == 10 {
        'a'
    } else if d == 11 {
        'b'
    } else if d == 12 {
        'c'
    } else if d == 13 {
        'd'
    } else if d == 14 {
        'e'
    } else {
        'f'
    }
}

/// Two lowercase hex digits per byte, the high half first.
pub open spec fn hex_of(bytes: Seq<u8>) -> Seq<char>
    decreases bytes.len(),
{
    if bytes.len() == 0 {
        Seq::empty()
    } else {
        let b = bytes.last();
        hex_of(bytes.drop_last()) + seq![hex_digit(b as nat / 16), hex_digit(b as nat % 16)]
    }
}

/// The signature that the exchange expects for `message` under `secret`.
pub open spec fn signature_of(secret: Seq<char>, message: Seq<char>) -> Seq<char> {
    hex_of(hmac_sha256_of(secret, message))
}

/// Relies on hmac's `Hmac::<Sha256>::new_from_slice`, `Mac::update` and
/// `Mac::finalize`: the MAC of `message`'s bytes under `key`'s bytes, as many
/// bytes as SHA-256's output (32). Keying `HmacCore` accepts a key of any
/// length, so construction does not fail.
#[verifier::external_body]
fn hmac_sha256(key: &str, message: &str) -> (r: Result<Vec<u8>, hmac::digest::InvalidLength>)
    ensures
        r is Ok,
        r is Ok ==> r.unwrap()@ == hmac_sha256_of(key@, message@),
        r is Ok ==> r.unwrap()@.len() == 32,
{
    let mut mac = Hmac::<Sha256>::new_from_slice(key.as_bytes())?;
    mac.update(message.as_bytes());
    Ok(mac.finalize().into_bytes().to_vec())
}

/// Relies on `hex::encode`: two lowercase digits per byte, high half first.
#[verifier::external_body]
fn hex_encode(bytes: &[u8]) -> (r: String)
    ensures
        r@ == hex_of(bytes@),
{
    hex::encode(bytes)
}

/// Hex text has two digits per byte.
pub proof fn lemma_hex_len(bytes: Seq<u8>)
    ensures
        hex_of(bytes).len() == 2 * bytes.len(),
    decreases bytes.len(),
{
    if bytes.len() > 0 {
        lemma_hex_len(bytes.drop_last());
    }
}

/// Signs `query` with `secret_key`: HMAC-SHA256 in lowercase hex.
pub fn create_signature(secret_key: &str, query: &str) -> (r: Result<String, BinanceError>)
    ensures
        r is Ok,
        r is Ok ==> r.unwrap()@ == signature_of(secret_key@, query@),
        r is Ok ==> r.unwrap()@.len() == 64,
{
    match hmac_sha256(secret_key, query) {
        Ok(digest) => {
            proof { lemma_hex_len(digest@); }
            Ok(hex_encode(digest.as_slice()))
        },
        Err(_) => Err(BinanceError::Configuration),
    }
}

/// Relies on std's `SystemTime::now` and `duration_since(UNIX_EPOCH)`: the
/// milliseconds elapsed since the epoch, `None` when the clock reads earlier.
#[verifier::external_body]
fn epoch_millis() -> (r: Option<u128>) {
    std::time::SystemTime::now().duration_since(std::time::UNIX_EPOCH).ok().map(|d| d.as_millis())
}

/// The milliseconds that a clock reading gives: the clock error when the
/// clock reads before the epoch or past what 64 bits hold.
pub open spec fn millis_of_reading(reading: Option<u128>) -> Result<u64, BinanceError> {
    match reading {
        Some(ms) => if ms <= u64::MAX as u128 {
            Ok(ms as u64)
        } else {
            Err(BinanceError::Clock)
        },
        None => Err(BinanceError::Clock),
    }
}

/// Milliseconds from a clock reading (`None` when it is before the epoch).
pub fn millis_from_reading(reading: Option<u128>) -> (r: Result<u64, BinanceError>)
    ensures
        r == millis_of_reading(reading),
{
    match reading {
        Some(ms) => {
            if ms <= u64::MAX as u128 {
                Ok(ms as u64)
            } else {
                Err(BinanceError::Clock)
            }
        },
        None => Err(BinanceError::Clock),
    }
}

/// Milliseconds since the Unix epoch by the system clock.
pub fn timestamp_millis() -> (r: Result<u64, BinanceError>)
    ensures
        exists|reading: Option<u128>| r == #[trigger] millis_of_reading(reading),
{
    let reading = epoch_millis();
    millis_from_reading(reading)
}

/// `r` is what a clock reading gives as text: the decimal milliseconds, or
/// the clock error when the clock reads before the epoch.
pub open spec fn is_text_of_reading(r: Result<String, BinanceError>, reading: Option<u128>) -> bool {
    match reading {
        Some(ms) => r is Ok && r.unwrap()@ == decimal_of(ms as nat),
        None => r == Err::<String, BinanceError>(BinanceError::Clock),
    }
}

/// The decimal text of a clock reading (`None` when it is before the epoch).
pub fn timestamp_text_from_reading(reading: Option<u128>) -> (r: Result<String, BinanceError>)
    ensures
        is_text_of_reading(r, reading),
{
    match reading {
        Some(ms) => Ok(decimal_text(ms)),
        None => Err(BinanceError::Clock),
    }
}

/// The current time in milliseconds since the Unix epoch, as decimal text.
pub fn create_timestamp() -> (r: Result<String, BinanceError>)
    ensures
        exists|reading: Option<u128>| #[trigger] is_text_of_reading(r, reading),
{
    let reading = epoch_millis();
    timestamp_text_from_reading(reading)
}

} // verus!
