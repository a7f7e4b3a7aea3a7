//! Calls into other crates, each behind a function whose contract is believed
//! and not proved. Everything else in this library is proved from these.

use vstd::prelude::*;
use crate::model::Network;
use crate::text::hex_lower;
use nostr::bitcoin::hashes::sha256;
use nostr::secp256k1::rand::rngs::OsRng;
use nostr::secp256k1::rand::RngCore;
use nostr::secp256k1::{Secp256k1, SecretKey};
use nostr::{Event, EventBuilder, Keys};
use lightning_invoice::{Currency, InvoiceBuilder, PaymentSecret};
use std::time::{Duration, SystemTime};

verus! {

/// `nostr::Event`: a signed event. Verus sees nothing inside it.
#[verifier::external_type_specification]
#[verifier::external_body]
pub struct ExEvent(nostr::Event);

/// `nostr::Keys`: an identity that signs events. Verus sees nothing inside it.
#[verifier::external_type_specification]
#[verifier::external_body]
pub struct ExKeys(nostr::Keys);

/// `std::time::SystemTime`: a reading of the system clock.
#[verifier::external_type_specification]
#[verifier::external_body]
pub struct ExSystemTime(std::time::SystemTime);

/// The SHA-256 digest of a byte string.
pub uninterp spec fn sha256_digest(data: Seq<u8>) -> Seq<u8>;

/// The kind number of the signed event that a text holds, or `None` where the
/// text is no event with a matching id and a valid signature.
pub uninterp spec fn event_kind(payload: Seq<char>) -> Option<u64>;

/// The serialization that the `nostr` crate gives to the signed event that a
/// text holds, or `None` where the text is no such event.
pub uninterp spec fn event_json(payload: Seq<char>) -> Option<Seq<char>>;

/// The encoded invoice that `lightning_invoice` builds from these fields and
/// signs with this key, or `None` where it refuses them.
pub uninterp spec fn signed_invoice(
    network: Network,
    amount_msats: u64,
    description_hash: Seq<u8>,
    payment_hash: Seq<u8>,
    payment_secret: Seq<u8>,
    min_final_cltv_expiry_delta: u64,
    timestamp: u64,
    key: Seq<u8>,
) -> Option<Seq<char>>;

/// The serialization of the URL that a text parses to, or `None` where the
/// `url` crate rejects the text.
pub uninterp spec fn parsed_url(text: Seq<char>) -> Option<Seq<char>>;

/// The normalized form of the bare address that a text parses to, or `None`
/// where the `jid` crate rejects the text.
pub uninterp spec fn bare_jid(text: Seq<char>) -> Option<Seq<char>>;

/// The text that `serde_json` writes for an object of three members: a text, a
/// number and a text, each under its key.
pub uninterp spec fn json_object(
    key1: Seq<char>,
    text1: Seq<char>,
    key2: Seq<char>,
    number2: u64,
    key3: Seq<char>,
    text3: Seq<char>,
) -> Seq<char>;

/// The number that a byte string denotes, most significant byte first.
pub open spec fn be_value(bytes: Seq<u8>) -> nat
    decreases bytes.len(),
{
    if bytes.len() == 0 {
        0
    } else {
        be_value(bytes.drop_last()) * 256 + bytes.last() as nat
    }
}

/// The order of the group of the curve secp256k1.
pub open spec fn curve_order() -> nat {
    let high: nat = 0xFFFFFFFF_FFFFFFFF_FFFFFFFF_FFFFFFFE;
    let low: nat = 0xBAAEDCE6_AF48A03B_BFD25E8C_D0364141;
    let half: nat = 0x1_00000000_00000000;
    high * (half * half) + low
}

/// A secret key is 32 bytes that denote a number from 1 to the curve's order
/// less 1.
pub open spec fn valid_secret_key(bytes: Seq<u8>) -> bool {
    bytes.len() == 32 && 0 < be_value(bytes) < curve_order()
}

/// `bitcoin_hashes::sha256::Hash::hash`: the result is the SHA-256 digest of
/// `data`.
#[verifier::external_body]
pub(crate) fn sha256(data: &[u8]) -> (r: [u8; 32])
    ensures
        r@ == sha256_digest(data@),
{
    let digest: sha256::Hash = nostr::bitcoin::hashes::Hash::hash(data);
    nostr::bitcoin::hashes::Hash::to_byte_array(digest)
}

/// `hex::encode`: two lower-case hex characters for each byte, in order.
#[verifier::external_body]
pub(crate) fn hex_encode(data: &[u8]) -> (r: String)
    ensures
        r@ == hex_lower(data@),
{
    hex::encode(data)
}

/// `rand::RngCore::fill_bytes` on `OsRng`: 32 bytes from the operating
/// system's random source. Nothing is claimed of them.
#[verifier::external_body]
pub(crate) fn random_bytes() -> (r: [u8; 32]) {
    let mut bytes = [0u8; 32];
    OsRng.fill_bytes(&mut bytes);
    bytes
}

/// `std::time::SystemTime::now`: the system clock, as it reads now.
#[verifier::external_body]
pub(crate) fn system_time_now() -> (r: SystemTime) {
    SystemTime::now()
}

/// `std::time::SystemTime::duration_since` the Unix epoch, in whole seconds;
/// `None` where the time lies before the epoch. Nothing is claimed of the number.
#[verifier::external_body]
pub(crate) fn unix_seconds(time: &SystemTime) -> (r: Option<u64>) {
    time.duration_since(SystemTime::UNIX_EPOCH).ok().map(|d| d.as_secs())
}

/// `secp256k1::SecretKey::from_slice`: accepts exactly the 32-byte strings
/// that denote a number from 1 to the curve's order less 1.
#[verifier::external_body]
pub(crate) fn secret_key_accepted(bytes: &[u8; 32]) -> (r: bool)
    ensures
        r == valid_secret_key(bytes@),
{
    SecretKey::from_slice(bytes).is_ok()
}

/// `nostr::Event::from_json`, then the event's kind as a number: `None` where
/// the text is no event, or its id or signature does not match.
#[verifier::external_body]
pub(crate) fn payload_kind(payload: &str) -> (r: Option<u64>)
    ensures
        r == event_kind(payload@),
{
    Event::from_json(payload).ok().map(|event| event.kind.as_u64())
}

/// `nostr::Event::as_json` on the event that `nostr::Event::from_json` reads
/// from the text: `None` where the text is no event, or its id or signature
/// does not match.
#[verifier::external_body]
pub(crate) fn payload_json(payload: &str) -> (r: Option<String>)
    ensures
        r.deep_view() == event_json(payload@),
{
    Event::from_json(payload).ok().map(|event| event.as_json())
}

/// `lightning_invoice::Currency`, declared so that a value can be handed on.
#[verifier::external_type_specification]
#[verifier::external_body]
pub struct ExCurrency(lightning_invoice::Currency);

/// The variant of `lightning_invoice::Currency` of the same name, for the
/// builder of invoices. Verus sees nothing inside it, so nothing is claimed.
#[verifier::external_body]
pub(crate) fn currency(network: Network) -> (r: Currency) {
    match network {
        Network::Bitcoin => Currency::Bitcoin,
        Network::BitcoinTestnet => Currency::BitcoinTestnet,
        Network::Regtest => Currency::Regtest,
        Network::Simnet => Currency::Simnet,
        Network::Signet => Currency::Signet,
    }
}

/// `lightning_invoice::InvoiceBuilder`, from `new` to `build_signed`, with a
/// recoverable ECDSA signature by `key`, and the invoice written out as text.
/// The builder multiplies the amount by ten and the key must be one that
/// `secp256k1` accepts: both are asked of the caller. The signature is
/// deterministic, so the text depends on the arguments alone.
#[verifier::external_body]
pub(crate) fn sign_invoice(
    network: Network,
    amount_msats: u64,
    description_hash: &[u8; 32],
    payment_hash: &[u8; 32],
    payment_secret: &[u8; 32],
    min_final_cltv_expiry_delta: u64,
    timestamp: u64,
    key: &[u8; 32],
) -> (r: Option<String>)
    requires
        amount_msats * 10 <= u64::MAX,
        valid_secret_key(key@),
    ensures
        r.deep_view() == signed_invoice(
            network,
            amount_msats,
            description_hash@,
            payment_hash@,
            payment_secret@,
            min_final_cltv_expiry_delta,
            timestamp,
            key@,
        ),
{
    let key = SecretKey::from_slice(key).expect("the caller checked the key");
    InvoiceBuilder::new(currency(network))
        .amount_milli_satoshis(amount_msats)
        .description_hash(nostr::bitcoin::hashes::Hash::from_byte_array(*description_hash))
        .duration_since_epoch(Duration::from_secs(timestamp))
        .payment_hash(nostr::bitcoin::hashes::Hash::from_byte_array(*payment_hash))
        .payment_secret(PaymentSecret(*payment_secret))
        .min_final_cltv_expiry_delta(min_final_cltv_expiry_delta)
        .build_signed(|hash| Secp256k1::new().sign_ecdsa_recoverable(hash, &key))
        .ok()
        .map(|invoice| invoice.to_string())
}

/// `nostr::EventBuilder::new_zap_receipt`, then `to_event`: a receipt event
/// for the request that the text holds, signed by `keys`. `None` where the
/// text is no signed event or the keys cannot sign. The event carries the time
/// of signing and a randomized signature: nothing is claimed of it.
#[verifier::external_body]
pub(crate) fn sign_receipt(bolt11: &str, preimage: &str, request: &str, keys: &Keys) -> (r: Option<
    Event,
>) {
    let request = Event::from_json(request).ok()?;
    EventBuilder::new_zap_receipt(bolt11, Some(preimage), request).to_event(keys).ok()
}

/// `url::Url::parse`, and the URL written out again.
#[verifier::external_body]
pub(crate) fn parse_url(text: &str) -> (r: Option<String>)
    ensures
        r.deep_view() == parsed_url(text@),
{
    url::Url::parse(text).ok().map(String::from)
}

/// `jid::BareJid::new`, and the address in its normalized form.
#[verifier::external_body]
pub(crate) fn parse_bare_jid(text: &str) -> (r: Option<String>)
    ensures
        r.deep_view() == bare_jid(text@),
{
    xmpp::BareJid::new(text).ok().map(xmpp::BareJid::into_inner)
}

/// `serde_json::Value`'s `to_string` on an object of three members.
#[verifier::external_body]
pub(crate) fn json_object_text(
    key1: &str,
    text1: &str,
    key2: &str,
    number2: u64,
    key3: &str,
    text3: &str,
) -> (r: String)
    ensures
        r@ == json_object(key1@, text1@, key2@, number2, key3@, text3@),
{
    let mut object = serde_json::Map::new();
    object.insert(key1.to_string(), serde_json::Value::from(text1));
    object.insert(key2.to_string(), serde_json::Value::from(number2));
    object.insert(key3.to_string(), serde_json::Value::from(text3));
    serde_json::Value::Object(object).to_string()
}

} // verus!
