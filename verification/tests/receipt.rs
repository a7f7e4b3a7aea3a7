use std::str::FromStr;
use std::time::{Duration, SystemTime, UNIX_EPOCH};

use lightning_invoice::{Bolt11Invoice, Bolt11InvoiceDescription, Currency};
use lnurl_settle::receipt::{
    build_zap_event, create_zap_event, finish_receipt, prepare_receipt, ReceiptError,
    MAX_INVOICE_MSATS, MIN_FINAL_CLTV_EXPIRY_DELTA,
};
use nostr::secp256k1::{PublicKey, Secp256k1, SecretKey};
use nostr::{Event, EventBuilder, Keys, Kind, Tag};

const PREIMAGE: [u8; 32] = [
    0, 1, 2, 3, 4, 5, 6, 7, 8, 9, 10, 11, 12, 13, 14, 15, 16, 17, 18, 19, 20, 21, 22, 23, 24, 25,
    26, 27, 28, 29, 30, 31,
];

// SHA-256 of PREIMAGE.
const PAYMENT_HASH: [u8; 32] = [
    99, 13, 205, 41, 102, 196, 51, 102, 145, 18, 84, 72, 187, 178, 91, 79, 244, 18, 164, 156, 115,
    45, 178, 200, 171, 193, 184, 88, 27, 215, 16, 221,
];

// The order of the curve, most significant byte first.
const CURVE_ORDER: [u8; 32] = [
    255, 255, 255, 255, 255, 255, 255, 255, 255, 255, 255, 255, 255, 255, 255, 254, 186, 174, 220,
    230, 175, 72, 160, 59, 191, 210, 94, 140, 208, 54, 65, 65,
];

const SECRET: [u8; 32] = [7; 32];

const KEY: [u8; 32] = [9; 32];

const TIMESTAMP: u64 = 1_700_000_000;

fn payer_keys() -> Keys {
    Keys::new(SecretKey::from_slice(&[1; 32]).unwrap())
}

fn service_keys() -> Keys {
    Keys::new(SecretKey::from_slice(&[2; 32]).unwrap())
}

fn zap_request() -> Event {
    let recipient = service_keys().public_key();
    EventBuilder::new(Kind::ZapRequest, "", &[Tag::PubKey(recipient, None)])
        .to_event(&payer_keys())
        .unwrap()
}

fn sha256(data: &[u8]) -> [u8; 32] {
    let digest: nostr::hashes::sha256::Hash = nostr::hashes::Hash::hash(data);
    nostr::hashes::Hash::to_byte_array(digest)
}

fn description_hash_of(invoice: &Bolt11Invoice) -> [u8; 32] {
    match invoice.description() {
        Bolt11InvoiceDescription::Hash(hash) => nostr::hashes::Hash::to_byte_array(hash.0),
        Bolt11InvoiceDescription::Direct(_) => panic!("the invoice carries a description"),
    }
}

#[test]
fn parts_hold_the_hash_of_the_preimage() {
    let request = zap_request().as_json();
    let parts = prepare_receipt(&request, 2000, &PREIMAGE, &SECRET, &KEY, TIMESTAMP).unwrap();
    assert_eq!(parts.preimage, PREIMAGE);
    assert_eq!(parts.payment_hash, PAYMENT_HASH);
    assert_eq!(
        parts.preimage_hex,
        "000102030405060708090a0b0c0d0e0f101112131415161718191a1b1c1d1e1f"
    );
    assert_eq!(parts.amount_msats, 2000);
}

#[test]
fn preimage_is_written_in_lower_case_hex() {
    let request = zap_request().as_json();
    let mut preimage = [0u8; 32];
    for (i, byte) in preimage.iter_mut().enumerate() {
        *byte = 0x9f + 3 * i as u8;
    }
    let parts = prepare_receipt(&request, 2000, &preimage, &SECRET, &KEY, TIMESTAMP).unwrap();
    assert_eq!(
        parts.preimage_hex,
        "9fa2a5a8abaeb1b4b7babdc0c3c6c9cccfd2d5d8dbdee1e4e7eaedf0f3f6f9fc"
    );
    assert_eq!(parts.payment_hash, sha256(&preimage));
}

#[test]
fn parts_hold_the_hash_of_the_serialized_request() {
    let request = zap_request();
    let parts =
        prepare_receipt(&request.as_json(), 2000, &PREIMAGE, &SECRET, &KEY, TIMESTAMP).unwrap();
    assert_eq!(parts.description, request.as_json());
    assert_eq!(parts.description_hash, sha256(request.as_json().as_bytes()));
    assert_ne!(parts.description.as_bytes(), &parts.description_hash[..]);
}

#[test]
fn request_is_serialized_anew() {
    // The same event with its members in another order and with spaces.
    let request = zap_request();
    let value = nostr::serde_json::to_value(&request).unwrap();
    let spaced = nostr::serde_json::to_string_pretty(&value).unwrap();
    assert_ne!(spaced, request.as_json());
    let parts = prepare_receipt(&spaced, 2000, &PREIMAGE, &SECRET, &KEY, TIMESTAMP).unwrap();
    assert_eq!(parts.description, request.as_json());
}

#[test]
fn invoice_carries_what_it_was_built_from() {
    let request = zap_request().as_json();
    let parts = prepare_receipt(&request, 2000, &PREIMAGE, &SECRET, &KEY, TIMESTAMP).unwrap();
    let invoice = Bolt11Invoice::from_str(&parts.invoice).unwrap();
    assert_eq!(invoice.currency(), Currency::Bitcoin);
    assert_eq!(invoice.amount_milli_satoshis(), Some(2000));
    assert_eq!(nostr::hashes::Hash::to_byte_array(*invoice.payment_hash()), PAYMENT_HASH);
    assert_eq!(description_hash_of(&invoice), parts.description_hash);
    assert_eq!(invoice.payment_secret().0, SECRET);
    assert_eq!(invoice.min_final_cltv_expiry_delta(), 144);
    assert_eq!(MIN_FINAL_CLTV_EXPIRY_DELTA, 144);
    assert_eq!(invoice.duration_since_epoch(), Duration::from_secs(TIMESTAMP));
    let signer = PublicKey::from_secret_key(&Secp256k1::new(), &SecretKey::from_slice(&KEY).unwrap());
    assert_eq!(invoice.recover_payee_pub_key(), signer);
    assert!(parts.invoice.starts_with("lnbc20n1"));
}

#[test]
fn invoice_depends_on_its_fields_alone() {
    let request = zap_request().as_json();
    let one = prepare_receipt(&request, 2000, &PREIMAGE, &SECRET, &KEY, TIMESTAMP).unwrap();
    let two = prepare_receipt(&request, 2000, &PREIMAGE, &SECRET, &KEY, TIMESTAMP).unwrap();
    assert_eq!(one, two);
    let other = prepare_receipt(&request, 2001, &PREIMAGE, &SECRET, &KEY, TIMESTAMP).unwrap();
    assert_ne!(one.invoice, other.invoice);
}

#[test]
fn request_that_is_no_event_fails_first() {
    let zero = [0; 32];
    assert_eq!(
        prepare_receipt("{}", u64::MAX, &PREIMAGE, &SECRET, &zero, u64::MAX),
        Err(ReceiptError::InvalidRequest)
    );
    assert_eq!(
        prepare_receipt("", 2000, &PREIMAGE, &SECRET, &KEY, TIMESTAMP),
        Err(ReceiptError::InvalidRequest)
    );
}

#[test]
fn request_with_a_wrong_signature_is_no_event() {
    let request = zap_request();
    let other = EventBuilder::new(Kind::ZapRequest, "", &[]).to_event(&payer_keys()).unwrap();
    let mut value = nostr::serde_json::to_value(&request).unwrap();
    value["sig"] = nostr::serde_json::to_value(other.sig).unwrap();
    let forged = value.to_string();
    assert_eq!(
        prepare_receipt(&forged, 2000, &PREIMAGE, &SECRET, &KEY, TIMESTAMP),
        Err(ReceiptError::InvalidRequest)
    );
}

#[test]
fn key_must_lie_below_the_curve_order() {
    let request = zap_request().as_json();
    let zero = [0; 32];
    assert_eq!(
        prepare_receipt(&request, 2000, &PREIMAGE, &SECRET, &zero, TIMESTAMP),
        Err(ReceiptError::InvalidKey)
    );
    assert_eq!(
        prepare_receipt(&request, 2000, &PREIMAGE, &SECRET, &CURVE_ORDER, TIMESTAMP),
        Err(ReceiptError::InvalidKey)
    );
    assert_eq!(
        prepare_receipt(&request, 2000, &PREIMAGE, &SECRET, &[255; 32], TIMESTAMP),
        Err(ReceiptError::InvalidKey)
    );
    let mut largest = CURVE_ORDER;
    largest[31] = 64;
    assert!(prepare_receipt(&request, 2000, &PREIMAGE, &SECRET, &largest, TIMESTAMP).is_ok());
    let mut one = [0; 32];
    one[31] = 1;
    assert!(prepare_receipt(&request, 2000, &PREIMAGE, &SECRET, &one, TIMESTAMP).is_ok());
}

#[test]
fn key_fails_before_the_amount() {
    let request = zap_request().as_json();
    assert_eq!(
        prepare_receipt(&request, u64::MAX, &PREIMAGE, &SECRET, &[0; 32], TIMESTAMP),
        Err(ReceiptError::InvalidKey)
    );
}

#[test]
fn amount_must_fit_an_invoice() {
    let request = zap_request().as_json();
    assert_eq!(MAX_INVOICE_MSATS, 1_844_674_407_370_955_161);
    assert_eq!(
        prepare_receipt(&request, MAX_INVOICE_MSATS + 1, &PREIMAGE, &SECRET, &KEY, TIMESTAMP),
        Err(ReceiptError::AmountTooLarge)
    );
    assert_eq!(
        prepare_receipt(&request, u64::MAX, &PREIMAGE, &SECRET, &KEY, TIMESTAMP),
        Err(ReceiptError::AmountTooLarge)
    );
    let parts =
        prepare_receipt(&request, MAX_INVOICE_MSATS, &PREIMAGE, &SECRET, &KEY, TIMESTAMP).unwrap();
    let invoice = Bolt11Invoice::from_str(&parts.invoice).unwrap();
    assert_eq!(invoice.amount_milli_satoshis(), Some(MAX_INVOICE_MSATS));
}

#[test]
fn time_must_fit_an_invoice() {
    let request = zap_request().as_json();
    let last = (1u64 << 35) - 1;
    assert!(prepare_receipt(&request, 2000, &PREIMAGE, &SECRET, &KEY, last).is_ok());
    assert_eq!(
        prepare_receipt(&request, 2000, &PREIMAGE, &SECRET, &KEY, last + 1),
        Err(ReceiptError::InvoiceRefused)
    );
}

#[test]
fn no_event_no_receipt() {
    let request = zap_request().as_json();
    let parts = prepare_receipt(&request, 2000, &PREIMAGE, &SECRET, &KEY, TIMESTAMP).unwrap();
    assert_eq!(finish_receipt(parts, None), Err(ReceiptError::EventNotSigned));
}

#[test]
fn event_is_joined_to_its_parts() {
    let request = zap_request();
    let parts =
        prepare_receipt(&request.as_json(), 2000, &PREIMAGE, &SECRET, &KEY, TIMESTAMP).unwrap();
    let receipt = finish_receipt(parts, Some(request.clone())).unwrap();
    assert_eq!(receipt.event, request);
    assert_eq!(receipt.parts.payment_hash, PAYMENT_HASH);
}

#[test]
fn receipt_event_refers_to_invoice_preimage_and_request() {
    let request = zap_request();
    let receipt = build_zap_event(
        &request.as_json(),
        2000,
        &PREIMAGE,
        &SECRET,
        &KEY,
        TIMESTAMP,
        &service_keys(),
    )
    .unwrap();
    let event = &receipt.event;
    assert_eq!(event.kind, Kind::ZapReceipt);
    assert_eq!(event.pubkey, service_keys().public_key());
    assert!(event.verify().is_ok());
    assert!(event.tags.contains(&Tag::Bolt11(receipt.parts.invoice.clone())));
    assert!(event.tags.contains(&Tag::Preimage(
        "000102030405060708090a0b0c0d0e0f101112131415161718191a1b1c1d1e1f".to_string()
    )));
    assert!(event.tags.contains(&Tag::Description(request.as_json())));
    assert!(event.tags.contains(&Tag::PubKey(service_keys().public_key(), None)));
    assert_ne!(event.as_json(), request.as_json());
}

#[test]
fn keys_without_a_secret_sign_nothing() {
    let request = zap_request().as_json();
    let public_only = Keys::from_public_key(service_keys().public_key());
    assert_eq!(
        build_zap_event(&request, 2000, &PREIMAGE, &SECRET, &KEY, TIMESTAMP, &public_only),
        Err(ReceiptError::EventNotSigned)
    );
}

#[test]
fn build_fails_as_the_parts_fail() {
    let request = zap_request().as_json();
    let keys = service_keys();
    assert_eq!(
        build_zap_event("no event", 2000, &PREIMAGE, &SECRET, &KEY, TIMESTAMP, &keys),
        Err(ReceiptError::InvalidRequest)
    );
    assert_eq!(
        build_zap_event(&request, 2000, &PREIMAGE, &SECRET, &[0; 32], TIMESTAMP, &keys),
        Err(ReceiptError::InvalidKey)
    );
    assert_eq!(
        build_zap_event(&request, u64::MAX, &PREIMAGE, &SECRET, &KEY, TIMESTAMP, &keys),
        Err(ReceiptError::AmountTooLarge)
    );
}

#[test]
fn created_receipt_is_bound_to_request_and_amount() {
    let request = zap_request();
    let before = SystemTime::now().duration_since(UNIX_EPOCH).unwrap().as_secs();
    let receipt = create_zap_event(&request.as_json(), 2000, &service_keys()).unwrap();
    let after = SystemTime::now().duration_since(UNIX_EPOCH).unwrap().as_secs();
    let parts = &receipt.parts;
    assert_eq!(parts.amount_msats, 2000);
    assert_eq!(parts.payment_hash, sha256(&parts.preimage));
    assert_eq!(parts.description, request.as_json());
    assert_eq!(parts.description_hash, sha256(request.as_json().as_bytes()));
    assert_eq!(hex::decode(&parts.preimage_hex).unwrap(), parts.preimage);
    let invoice = Bolt11Invoice::from_str(&parts.invoice).unwrap();
    assert_eq!(invoice.currency(), Currency::Bitcoin);
    assert_eq!(invoice.amount_milli_satoshis(), Some(2000));
    assert_eq!(nostr::hashes::Hash::to_byte_array(*invoice.payment_hash()), parts.payment_hash);
    assert_eq!(description_hash_of(&invoice), parts.description_hash);
    assert_eq!(invoice.min_final_cltv_expiry_delta(), 144);
    let stamped = invoice.duration_since_epoch().as_secs();
    assert!(before <= stamped && stamped <= after);
    assert!(receipt.event.tags.contains(&Tag::Bolt11(parts.invoice.clone())));
    assert!(receipt.event.tags.contains(&Tag::Preimage(parts.preimage_hex.clone())));
    assert!(receipt.event.tags.contains(&Tag::Description(request.as_json())));
}

#[test]
fn created_receipts_differ() {
    let request = zap_request().as_json();
    let one = create_zap_event(&request, 2000, &service_keys()).unwrap();
    let two = create_zap_event(&request, 2000, &service_keys()).unwrap();
    assert_ne!(one.parts.preimage, two.parts.preimage);
    assert_ne!(one.parts.payment_hash, two.parts.payment_hash);
    assert_ne!(one.parts.invoice, two.parts.invoice);
    assert_eq!(one.parts.description_hash, two.parts.description_hash);
}

#[test]
fn created_receipt_needs_a_signed_request() {
    assert_eq!(
        create_zap_event("not an event", 2000, &service_keys()).map(|r| r.parts),
        Err(ReceiptError::InvalidRequest)
    );
}

#[test]
fn created_receipt_needs_an_amount_that_fits() {
    let request = zap_request().as_json();
    assert!(create_zap_event(&request, MAX_INVOICE_MSATS + 1, &service_keys()).is_err());
}
