//! Calls into the outside crates this library builds on (uuid, chrono, std
//! string case mapping, serde_json, hmac/sha2, base64, hex and alloy), each
//! behind a small function whose contract states what the crate's source or
//! documentation shows of it.

use vstd::prelude::*;
use alloy::sol_types::SolValue;
use base64::Engine;
use hmac::Mac;

verus! {

/// `serde_json::Value`, carried through opaquely.
#[verifier::external_type_specification]
#[verifier::external_body]
pub struct ExJsonValue(serde_json::Value);

/// What `uuid::Uuid::parse_str` makes of a text: the UUID, or the text of
/// its error.
pub uninterp spec fn uuid_parse(text: Seq<char>) -> Result<u128, Seq<char>>;

/// The lower-case hex digit of a value below 16.
pub open spec fn hex_digit(n: int) -> char {
    if n < 10 { (48 + n) as char } else { (87 + n) as char }
}

/// The `i`-th of the 32 hex digits of a 128-bit value, most significant first.
pub open spec fn nibble(id: u128, i: int) -> int {
    (id as int / vstd::arithmetic::power::pow(16, (31 - i) as nat)) % 16
}

/// The 32 lower-case hex digits of a UUID, most significant first
/// (`uuid::Uuid::simple`).
pub open spec fn uuid_simple_text(id: u128) -> Seq<char> {
    Seq::new(32, |i: int| hex_digit(nibble(id, i)))
}

/// The hyphenated lower-case text of a UUID, its hex digits in groups of 8,
/// 4, 4, 4 and 12 (`Display` of `uuid::Uuid`).
pub open spec fn uuid_text(id: u128) -> Seq<char> {
    let d = uuid_simple_text(id);
    d.subrange(0, 8) + seq!['-'] + d.subrange(8, 12) + seq!['-'] + d.subrange(12, 16) + seq!['-']
        + d.subrange(16, 20) + seq!['-'] + d.subrange(20, 32)
}

/// Unicode lower-case mapping of a text (`str::to_lowercase`).
pub uninterp spec fn lowercase(text: Seq<char>) -> Seq<char>;

/// A text without leading and trailing white space (`str::trim`).
pub uninterp spec fn trimmed(text: Seq<char>) -> Seq<char>;

/// The instant that `chrono` reads from a text as a `DateTime<Utc>` (its
/// `FromStr`, RFC 3339 with an offset), in milliseconds since the epoch;
/// `None` where it refuses the text.
pub uninterp spec fn utc_datetime_millis(text: Seq<char>) -> Option<i64>;

/// How `serde_json` writes a character inside a string literal: the quote
/// and the backslash behind a backslash, backspace, tab, line feed, form feed
/// and carriage return as `\b`, `\t`, `\n`, `\f` and `\r`, the other control
/// characters below U+0020 as `\u00` and two lower-case hex digits, and every
/// other character as itself.
pub open spec fn json_char_escaped(c: char) -> Seq<char> {
    let n = c as int;
    if c == '"' {
        seq!['\\', '"']
    } else if c == '\\' {
        seq!['\\', '\\']
    } else if n == 8 {
        seq!['\\', 'b']
    } else if n == 9 {
        seq!['\\', 't']
    } else if n == 10 {
        seq!['\\', 'n']
    } else if n == 12 {
        seq!['\\', 'f']
    } else if n == 13 {
        seq!['\\', 'r']
    } else if n < 32 {
        seq!['\\', 'u', '0', '0', hex_digit(n / 16), hex_digit(n % 16)]
    } else {
        seq![c]
    }
}

/// A text with each character written as [`json_char_escaped`] says.
pub open spec fn json_escaped(text: Seq<char>) -> Seq<char>
    decreases text.len(),
{
    if text.len() == 0 {
        Seq::empty()
    } else {
        json_escaped(text.drop_last()) + json_char_escaped(text.last())
    }
}

/// The JSON string literal `serde_json` writes for a text: the escaped text
/// between double quotes.
pub open spec fn json_quoted(text: Seq<char>) -> Seq<char> {
    seq!['"'] + json_escaped(text) + seq!['"']
}

/// An instant in milliseconds since the epoch as `chrono` formats it with
/// `%Y-%m-%dT%H:%M:%S%.3fZ` in UTC; `None` outside `chrono`'s range.
pub uninterp spec fn iso_millis_text(ms: i64) -> Option<Seq<char>>;

/// Whether a `v` byte is one of the parity encodings `alloy` accepts: 0 or 1,
/// 27 or 28, or 35 and above (EIP-155).
pub open spec fn valid_parity_byte(v: u8) -> bool {
    v == 0 || v == 1 || v == 27 || v == 28 || v >= 35
}

/// HMAC-SHA256 of the UTF-8 bytes of `message` under the UTF-8 bytes of `key`.
pub uninterp spec fn hmac_sha256_of(key: Seq<char>, message: Seq<char>) -> Seq<u8>;

/// Standard (padded) base64 text of a byte string.
pub uninterp spec fn base64_of(bytes: Seq<u8>) -> Seq<char>;

/// Keccak-256 digest of a byte string.
pub uninterp spec fn keccak256_of(bytes: Seq<u8>) -> Seq<u8>;

/// What `alloy::primitives::Address` parses from a hex text: the 20 address
/// bytes, or the text of its error.
pub uninterp spec fn address_parse(text: Seq<char>) -> Result<Seq<u8>, Seq<char>>;

/// The value of a hex digit of either case, if `c` is one.
pub open spec fn hex_value(c: char) -> Option<int> {
    if '0' <= c <= '9' {
        Some(c as int - 48)
    } else if 'a' <= c <= 'f' {
        Some(c as int - 87)
    } else if 'A' <= c <= 'F' {
        Some(c as int - 55)
    } else {
        None
    }
}

/// The bytes `hex::decode` reads from a text: each pair of hex digits (either
/// case) is a byte, high digit first; a text of odd length or with any other
/// character is refused.
pub open spec fn hex_bytes(text: Seq<char>) -> Option<Seq<u8>> {
    if text.len() % 2 == 0 && forall|i: int| 0 <= i < text.len() ==> #[trigger] hex_value(text[i]) is Some {
        Some(Seq::new(text.len() / 2, |i: int| (hex_value(text[2 * i])->0 * 16 + hex_value(text[2 * i + 1])->0) as u8))
    } else {
        None
    }
}

/// The address that signed `message` (EIP-191 personal message) with a raw
/// 65-byte signature, as `alloy` recovers it.
pub uninterp spec fn signer_of(signature: Seq<u8>, message: Seq<char>) -> Option<Seq<u8>>;

/// What `alloy` makes of a hex private key: the address of its signer, or the
/// text of its error.
pub uninterp spec fn signer_key_parse(key: Seq<char>) -> Result<Seq<u8>, Seq<char>>;

/// Solidity ABI parameter encoding of `(address, uint256, uint256)`.
pub uninterp spec fn abi_address_uint_uint(address: Seq<u8>, a: u64, b: u64) -> Seq<u8>;

/// Solidity ABI parameter encoding of `(address, string)`.
pub uninterp spec fn abi_address_string(address: Seq<u8>, text: Seq<char>) -> Seq<u8>;

/// A fresh random (version 4) UUID from `uuid::Uuid::new_v4`; the version and
/// variant bits it always sets make it non-zero. Nothing else is promised.
#[verifier::external_body]
pub(crate) fn new_uuid() -> (r: u128)
    ensures
        r != 0,
{
    uuid::Uuid::new_v4().as_u128()
}

/// `uuid::Uuid::parse_str`; on refusal, the text of the parser's error.
#[verifier::external_body]
pub(crate) fn parse_uuid_text(text: &str) -> (r: Result<u128, String>)
    ensures
        r matches Ok(id) ==> (uuid_parse(text@) matches Ok(v) && v == id),
        r matches Err(e) ==> (uuid_parse(text@) matches Err(m) && m == e@),
{
    match uuid::Uuid::parse_str(text) {
        Ok(u) => Ok(u.as_u128()),
        Err(e) => Err(e.to_string()),
    }
}

/// Hyphenated text of a UUID (`uuid::Uuid` `Display`).
#[verifier::external_body]
pub(crate) fn uuid_to_text(id: u128) -> (r: String)
    ensures
        r@ == uuid_text(id),
{
    uuid::Uuid::from_u128(id).to_string()
}

/// Simple (unhyphenated) text of a UUID (`uuid::Uuid::simple`).
#[verifier::external_body]
pub(crate) fn uuid_to_simple_text(id: u128) -> (r: String)
    ensures
        r@ == uuid_simple_text(id),
{
    uuid::Uuid::from_u128(id).simple().to_string()
}

/// The current time from `chrono::Utc::now`, in milliseconds since the epoch.
/// It depends on the clock, so nothing is promised of it.
#[verifier::external_body]
pub(crate) fn now_millis() -> (r: i64) {
    chrono::Utc::now().timestamp_millis()
}

/// `text.parse::<chrono::DateTime<chrono::Utc>>()`, as milliseconds since the
/// epoch (`timestamp_millis`).
#[verifier::external_body]
pub(crate) fn parse_utc_datetime(text: &str) -> (r: Option<i64>)
    ensures
        r == utc_datetime_millis(text@),
{
    match text.parse::<chrono::DateTime<chrono::Utc>>() {
        Ok(t) => Some(t.timestamp_millis()),
        Err(_) => None,
    }
}

/// `serde_json::to_string` of a text: its JSON string literal. Writing a
/// `str` into memory cannot fail.
#[verifier::external_body]
pub(crate) fn json_quote(text: &str) -> (r: String)
    ensures
        r@ == json_quoted(text@),
{
    match serde_json::to_string(text) {
        Ok(s) => s,
        Err(_) => String::new(),
    }
}

/// Formats an instant (milliseconds since the epoch) with `chrono` as
/// `%Y-%m-%dT%H:%M:%S%.3fZ`; `None` where `DateTime::from_timestamp_millis`
/// refuses it.
#[verifier::external_body]
pub(crate) fn format_iso_millis(ms: i64) -> (r: Option<String>)
    ensures
        match r { Some(t) => iso_millis_text(ms) == Some(t@), None => iso_millis_text(ms) is None },
{
    match chrono::DateTime::from_timestamp_millis(ms) {
        Some(t) => Some(t.format("%Y-%m-%dT%H:%M:%S%.3fZ").to_string()),
        None => None,
    }
}

/// Whether `alloy::primitives::Signature::from_raw` accepts a raw signature:
/// exactly 65 bytes whose last byte is a valid parity encoding.
#[verifier::external_body]
pub(crate) fn raw_signature_valid(bytes: &[u8]) -> (r: bool)
    ensures
        r == (bytes@.len() == 65 && valid_parity_byte(bytes@[64])),
{
    alloy::primitives::Signature::from_raw(bytes).is_ok()
}

/// `str::to_lowercase`.
#[verifier::external_body]
pub(crate) fn to_lowercase(text: &str) -> (r: String)
    ensures
        r@ == lowercase(text@),
{
    text.to_lowercase()
}

/// `str::trim`.
#[verifier::external_body]
pub(crate) fn trim(text: &str) -> (r: String)
    ensures
        r@ == trimmed(text@),
{
    text.trim().to_string()
}

/// HMAC-SHA256 through `hmac::Hmac<sha2::Sha256>`. `new_from_slice` accepts
/// keys of every length for this MAC (longer keys are hashed first), so the
/// result is always `Ok`.
#[verifier::external_body]
pub(crate) fn hmac_sha256(key: &str, message: &str) -> (r: Result<Vec<u8>, String>)
    ensures
        r is Ok,
        r matches Ok(mac) ==> mac@ == hmac_sha256_of(key@, message@),
{
    match hmac::Hmac::<sha2::Sha256>::new_from_slice(key.as_bytes()) {
        Ok(mut m) => {
            m.update(message.as_bytes());
            Ok(m.finalize().into_bytes().to_vec())
        },
        Err(e) => Err(e.to_string()),
    }
}

/// `base64::engine::general_purpose::STANDARD.encode`.
#[verifier::external_body]
pub(crate) fn base64_encode(bytes: &[u8]) -> (r: String)
    ensures
        r@ == base64_of(bytes@),
{
    base64::engine::general_purpose::STANDARD.encode(bytes)
}

/// `alloy::primitives::keccak256`; the digest is 32 bytes long.
#[verifier::external_body]
pub(crate) fn keccak256(bytes: &[u8]) -> (r: Vec<u8>)
    ensures
        r@ == keccak256_of(bytes@),
        r@.len() == 32,
{
    alloy::primitives::keccak256(bytes).to_vec()
}

/// Parses a hex text (with or without `0x`) as an `alloy::primitives::Address`;
/// on refusal, the text of the parser's error.
#[verifier::external_body]
pub(crate) fn parse_address(text: &str) -> (r: Result<Vec<u8>, String>)
    ensures
        r matches Ok(a) ==> (address_parse(text@) matches Ok(v) && v == a@) && a@.len() == 20,
        r matches Err(e) ==> (address_parse(text@) matches Err(m) && m == e@),
{
    match text.parse::<alloy::primitives::Address>() {
        Ok(a) => Ok(a.to_vec()),
        Err(e) => Err(e.to_string()),
    }
}

/// `hex::decode`.
#[verifier::external_body]
pub(crate) fn hex_decode(text: &str) -> (r: Option<Vec<u8>>)
    ensures
        r is Some <==> hex_bytes(text@) is Some,
        r matches Some(b) ==> hex_bytes(text@) == Some(b@),
{
    hex::decode(text).ok()
}

/// Reads a raw 65-byte signature with `alloy::primitives::Signature::from_raw`
/// and recovers the signer of an EIP-191 message with
/// `recover_address_from_msg`; `None` where either refuses.
#[verifier::external_body]
pub(crate) fn recover_signer(signature: &[u8], message: &str) -> (r: Option<Vec<u8>>)
    ensures
        r is Some <==> signer_of(signature@, message@) is Some,
        r matches Some(a) ==> signer_of(signature@, message@) == Some(a@),
{
    let sig = alloy::primitives::Signature::from_raw(signature).ok()?;
    sig.recover_address_from_msg(message.as_bytes()).ok().map(|a| a.to_vec())
}

/// ABI parameter encoding of `(address, uint256, uint256)` through
/// `alloy::sol_types::SolValue::abi_encode_params`; three static words.
#[verifier::external_body]
pub(crate) fn abi_encode_address_uint_uint(address: &[u8], a: u64, b: u64) -> (r: Vec<u8>)
    requires
        address@.len() == 20,
    ensures
        r@ == abi_address_uint_uint(address@, a, b),
        r@.len() == 96,
{
    let addr = alloy::primitives::Address::from_slice(address);
    (addr, alloy::primitives::U256::from(a), alloy::primitives::U256::from(b)).abi_encode_params()
}

/// ABI parameter encoding of `(address, string)` through
/// `alloy::sol_types::SolValue::abi_encode_params`: the address word, the
/// offset word, the length word and the UTF-8 bytes padded to whole words.
#[verifier::external_body]
pub(crate) fn abi_encode_address_string(address: &[u8], text: &str) -> (r: Vec<u8>)
    requires
        address@.len() == 20,
    ensures
        r@ == abi_address_string(address@, text@),
        r@.len() == 96 + 32 * ((vstd::utf8::encode_utf8(text@).len() + 31) / 32),
{
    let addr = alloy::primitives::Address::from_slice(address);
    (addr, text.to_string()).abi_encode_params()
}

/// Parses a hex private key as an `alloy::signers::local::PrivateKeySigner` and
/// gives its 20-byte address; on refusal, the text of the parser's error.
#[verifier::external_body]
pub(crate) fn signer_address(key: &str) -> (r: Result<Vec<u8>, String>)
    ensures
        r matches Ok(a) ==> (signer_key_parse(key@) matches Ok(v) && v == a@) && a@.len() == 20,
        r matches Err(e) ==> (signer_key_parse(key@) matches Err(m) && m == e@),
{
    match key.parse::<alloy::signers::local::PrivateKeySigner>() {
        Ok(s) => Ok(s.address().to_vec()),
        Err(e) => Err(e.to_string()),
    }
}

} // verus!
