//! The receipt signer: the public receipt for a payment that came with a
//! payment request.
//!
//! The receipt protocol asks for an invoice that carries the hash of the
//! request as its description hash, and for the preimage of its payment hash.
//! The invoice that was paid has neither, so a second one is made up here,
//! bound to the amount and to the request, signed by a key that is thrown
//! away. It is never meant to be paid.

use vstd::prelude::*;
use vstd::string::*;
use vstd::utf8::encode_utf8;
use nostr::{Event, Keys};
use crate::model::Network;
use crate::text::hex_lower;
use crate::trusted::{
    event_json, hex_encode, payload_json, random_bytes, secret_key_accepted, sha256,
    sha256_digest, sign_invoice, sign_receipt, signed_invoice, system_time_now, unix_seconds,
    valid_secret_key,
};

verus! {

/// The `min_final_cltv_expiry_delta` of the invoice in a receipt, in blocks.
pub const MIN_FINAL_CLTV_EXPIRY_DELTA: u64 = 144;

/// The largest amount, in millisatoshi, that an invoice can hold: invoices
/// count in tenths of a millisatoshi.
pub const MAX_INVOICE_MSATS: u64 = u64::MAX / 10;

/// Why no receipt was made.
#[derive(Clone, Copy, Debug, PartialEq, Eq, Structural)]
pub enum ReceiptError {
    /// The payment request is no signed event.
    InvalidRequest,
    /// The bytes drawn for the key that signs the invoice are no secret key.
    InvalidKey,
    /// The amount is more than an invoice can hold.
    AmountTooLarge,
    /// The system clock reads a time before 1970.
    ClockBeforeEpoch,
    /// The invoice could not be built.
    InvoiceRefused,
    /// The receipt event could not be signed.
    EventNotSigned,
}

/// What a receipt is built from.
#[derive(Debug, PartialEq, Eq)]
pub struct ReceiptParts {
    /// The amount that was settled, in millisatoshi.
    pub amount_msats: u64,
    /// The payment request in the serialization that is hashed.
    pub description: String,
    /// The hash of `description`.
    pub description_hash: [u8; 32],
    /// The preimage.
    pub preimage: [u8; 32],
    /// The preimage in hex.
    pub preimage_hex: String,
    /// The hash of `preimage`.
    pub payment_hash: [u8; 32],
    /// The encoded invoice.
    pub invoice: String,
}

/// What a `ReceiptParts` holds.
pub struct ReceiptPartsView {
    pub amount_msats: u64,
    pub description: Seq<char>,
    pub description_hash: Seq<u8>,
    pub preimage: Seq<u8>,
    pub preimage_hex: Seq<char>,
    pub payment_hash: Seq<u8>,
    pub invoice: Seq<char>,
}

impl View for ReceiptParts {
    type V = ReceiptPartsView;

    open spec fn view(&self) -> ReceiptPartsView {
        ReceiptPartsView {
            amount_msats: self.amount_msats,
            description: self.description@,
            description_hash: self.description_hash@,
            preimage: self.preimage@,
            preimage_hex: self.preimage_hex@,
            payment_hash: self.payment_hash@,
            invoice: self.invoice@,
        }
    }
}

/// A signed receipt event, with what it was built from.
#[derive(Debug, PartialEq, Eq)]
pub struct ZapReceipt {
    /// The event to broadcast.
    pub event: Event,
    /// What was handed to the signer of the event: the invoice, the preimage
    /// in hex and the payment request.
    pub parts: ReceiptParts,
}

impl View for ZapReceipt {
    type V = ReceiptPartsView;

    /// A receipt is looked at by its parts: nothing is known of the event.
    open spec fn view(&self) -> ReceiptPartsView {
        self.parts@
    }
}

/// The parts of the receipt for a request and an amount, from the three byte
/// strings that were drawn for it and the time. A request that is no signed
/// event fails first, then a key that is none, then an amount that no invoice
/// can hold, then an invoice that the builder refuses.
pub open spec fn receipt_parts(
    request: Seq<char>,
    amount_msats: u64,
    preimage: Seq<u8>,
    payment_secret: Seq<u8>,
    key: Seq<u8>,
    timestamp: u64,
) -> Result<ReceiptPartsView, ReceiptError> {
    if event_json(request) is None {
        Err(ReceiptError::InvalidRequest)
    } else if !valid_secret_key(key) {
        Err(ReceiptError::InvalidKey)
    } else if amount_msats > MAX_INVOICE_MSATS {
        Err(ReceiptError::AmountTooLarge)
    } else {
        let description = event_json(request)->0;
        let description_hash = sha256_digest(encode_utf8(description));
        let payment_hash = sha256_digest(preimage);
        match signed_invoice(
            Network::Bitcoin,
            amount_msats,
            description_hash,
            payment_hash,
            payment_secret,
            MIN_FINAL_CLTV_EXPIRY_DELTA,
            timestamp,
            key,
        ) {
            None => Err(ReceiptError::InvoiceRefused),
            Some(invoice) => Ok(
                ReceiptPartsView {
                    amount_msats,
                    description,
                    description_hash,
                    preimage,
                    preimage_hex: hex_lower(preimage),
                    payment_hash,
                    invoice,
                },
            ),
        }
    }
}

/// A receipt is bound to a request and an amount where its payment hash is
/// the hash of its preimage, its description hash is the hash of the request
/// as it is serialized, and its invoice is one that was built from these two
/// hashes and the amount, for the main network.
pub open spec fn bound_to(parts: ReceiptPartsView, request: Seq<char>, amount_msats: u64) -> bool {
    &&& parts.amount_msats == amount_msats
    &&& event_json(request) == Some(parts.description)
    &&& parts.description_hash == sha256_digest(encode_utf8(parts.description))
    &&& parts.payment_hash == sha256_digest(parts.preimage)
    &&& parts.preimage_hex == hex_lower(parts.preimage)
    &&& exists|payment_secret: Seq<u8>, key: Seq<u8>, timestamp: u64|
        #[trigger] signed_invoice(
            Network::Bitcoin,
            amount_msats,
            parts.description_hash,
            parts.payment_hash,
            payment_secret,
            MIN_FINAL_CLTV_EXPIRY_DELTA,
            timestamp,
            key,
        ) == Some(parts.invoice)
}

/// Every receipt that is built from drawn bytes is bound to its request and
/// amount: the hash of the preimage is the payment hash, and the hash of the
/// serialized request is the description hash.
pub proof fn lemma_parts_are_bound(
    request: Seq<char>,
    amount_msats: u64,
    preimage: Seq<u8>,
    payment_secret: Seq<u8>,
    key: Seq<u8>,
    timestamp: u64,
)
    requires
        receipt_parts(request, amount_msats, preimage, payment_secret, key, timestamp) is Ok,
    ensures
        bound_to(
            receipt_parts(request, amount_msats, preimage, payment_secret, key, timestamp)->Ok_0,
            request,
            amount_msats,
        ),
{
    let parts = receipt_parts(request, amount_msats, preimage, payment_secret, key, timestamp)->Ok_0;
    assert(signed_invoice(
        Network::Bitcoin,
        amount_msats,
        parts.description_hash,
        parts.payment_hash,
        payment_secret,
        MIN_FINAL_CLTV_EXPIRY_DELTA,
        timestamp,
        key,
    ) == Some(parts.invoice));
}

/// Builds the parts of a receipt: hashes the preimage and the serialized
/// request, and has the invoice built from the two hashes, the amount, the
/// payment secret and the time, and signed by the key.
pub fn prepare_receipt(
    request: &str,
    amt_msats: u64,
    preimage: &[u8; 32],
    payment_secret: &[u8; 32],
    key: &[u8; 32],
    timestamp: u64,
) -> (r: Result<ReceiptParts, ReceiptError>)
    ensures
        match receipt_parts(request@, amt_msats, preimage@, payment_secret@, key@, timestamp) {
            Ok(parts) => r is Ok && r->Ok_0@ == parts,
            Err(error) => r == Err::<ReceiptParts, ReceiptError>(error),
        },
{
    let description = match payload_json(request) {
        Some(description) => description,
        None => {
            return Err(ReceiptError::InvalidRequest);
        },
    };
    if !secret_key_accepted(key) {
        return Err(ReceiptError::InvalidKey);
    }
    if amt_msats > MAX_INVOICE_MSATS {
        return Err(ReceiptError::AmountTooLarge);
    }
    let payment_hash = sha256(preimage.as_slice());
    let description_hash = sha256(description.as_str().as_bytes());
    let invoice = match sign_invoice(
        Network::Bitcoin,
        amt_msats,
        &description_hash,
        &payment_hash,
        payment_secret,
        MIN_FINAL_CLTV_EXPIRY_DELTA,
        timestamp,
        key,
    ) {
        Some(invoice) => invoice,
        None => {
            return Err(ReceiptError::InvoiceRefused);
        },
    };
    Ok(
        ReceiptParts {
            amount_msats: amt_msats,
            description,
            description_hash,
            preimage: *preimage,
            preimage_hex: hex_encode(preimage.as_slice()),
            payment_hash,
            invoice,
        },
    )
}

/// Joins the parts of a receipt and the event that was signed for them. Where
/// no event was signed there is no receipt.
pub fn finish_receipt(parts: ReceiptParts, event: Option<Event>) -> (r: Result<
    ZapReceipt,
    ReceiptError,
>)
    ensures
        event is Some ==> r is Ok && r->Ok_0@ == parts@ && r->Ok_0.event == event->0,
        event is None ==> r == Err::<ZapReceipt, ReceiptError>(ReceiptError::EventNotSigned),
{
    match event {
        Some(event) => Ok(ZapReceipt { event, parts }),
        None => Err(ReceiptError::EventNotSigned),
    }
}

/// Builds the receipt for a request and an amount from the three byte strings
/// that were drawn for it and the time, and has the receipt event signed by
/// the service's keys. The parts are those of `receipt_parts`; whether the
/// event is signed is for the signer to say.
pub fn build_zap_event(
    request: &str,
    amt_msats: u64,
    preimage: &[u8; 32],
    payment_secret: &[u8; 32],
    key: &[u8; 32],
    timestamp: u64,
    keys: &Keys,
) -> (r: Result<ZapReceipt, ReceiptError>)
    ensures
        match receipt_parts(request@, amt_msats, preimage@, payment_secret@, key@, timestamp) {
            Ok(parts) => match r {
                Ok(receipt) => receipt@ == parts,
                Err(error) => error == ReceiptError::EventNotSigned,
            },
            Err(error) => r == Err::<ZapReceipt, ReceiptError>(error),
        },
{
    match prepare_receipt(request, amt_msats, preimage, payment_secret, key, timestamp) {
        Ok(parts) => {
            let event = sign_receipt(
                parts.invoice.as_str(),
                parts.preimage_hex.as_str(),
                request,
                keys,
            );
            finish_receipt(parts, event)
        },
        Err(error) => Err(error),
    }
}

/// Creates the receipt for a payment request and the amount that was settled.
/// Draws a preimage, a payment secret and a key at random, reads the clock,
/// and builds the receipt from them.
///
/// A receipt that comes back is bound to the request and the amount. A
/// request that is no signed event always fails, with `InvalidRequest`, and
/// nothing else fails with it; an amount that no invoice can hold always
/// fails.
pub fn create_zap_event(request: &str, amt_msats: u64, keys: &Keys) -> (r: Result<
    ZapReceipt,
    ReceiptError,
>)
    ensures
        r matches Ok(receipt) ==> bound_to(receipt@, request@, amt_msats),
        r matches Ok(receipt) ==> exists|
            preimage: Seq<u8>,
            payment_secret: Seq<u8>,
            key: Seq<u8>,
            timestamp: u64,
        |
            #[trigger] receipt_parts(
                request@,
                amt_msats,
                preimage,
                payment_secret,
                key,
                timestamp,
            ) == Ok::<ReceiptPartsView, ReceiptError>(receipt@),
        event_json(request@) is None <==> r == Err::<ZapReceipt, ReceiptError>(
            ReceiptError::InvalidRequest,
        ),
        event_json(request@) is Some && amt_msats > MAX_INVOICE_MSATS ==> r is Err,
{
    let preimage = random_bytes();
    let payment_secret = random_bytes();
    let key = random_bytes();
    let now = system_time_now();
    let timestamp: u64 = match unix_seconds(&now) {
        Some(timestamp) => timestamp,
        None => {
            // The request is looked at first, as in every other case.
            return match payload_json(request) {
                Some(_) => Err(ReceiptError::ClockBeforeEpoch),
                None => Err(ReceiptError::InvalidRequest),
            };
        },
    };
    let r = build_zap_event(request, amt_msats, &preimage, &payment_secret, &key, timestamp, keys);
    proof {
        if r is Ok {
            lemma_parts_are_bound(
                request@,
                amt_msats,
                preimage@,
                payment_secret@,
                key@,
                timestamp,
            );
        }
    }
    r
}

} // verus!
