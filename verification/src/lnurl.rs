//! The messages of the LNURL-pay protocol.

use vstd::prelude::*;
use vstd::string::*;

verus! {

/// The tag of a pay request.
#[derive(Clone, Copy, Debug, PartialEq, Eq, Structural)]
pub enum LnurlType {
    PayRequest,
}

impl LnurlType {
    /// The tag as the protocol writes it.
    pub open spec fn wire_name(self) -> Seq<char> {
        match self {
            LnurlType::PayRequest => "payRequest"@,
        }
    }

    /// The tag as the protocol writes it: `payRequest`.
    pub fn as_str(&self) -> (r: &'static str)
        ensures
            r@ == self.wire_name(),
    {
        match self {
            LnurlType::PayRequest => "payRequest",
        }
    }
}

/// Whether a request succeeded.
#[derive(Clone, Copy, Debug, PartialEq, Eq, Structural)]
pub enum LnurlStatus {
    Okay,
    Error,
}

impl LnurlStatus {
    /// The status as the protocol writes it.
    pub open spec fn wire_name(self) -> Seq<char> {
        match self {
            LnurlStatus::Okay => "OK"@,
            LnurlStatus::Error => "ERROR"@,
        }
    }

    /// The status as the protocol writes it: `OK` or `ERROR`.
    pub fn as_str(&self) -> (r: &'static str)
        ensures
            r@ == self.wire_name(),
    {
        match self {
            LnurlStatus::Okay => "OK",
            LnurlStatus::Error => "ERROR",
        }
    }
}

/// The kind of content that an entry of the metadata holds.
#[derive(Clone, Copy, Debug, PartialEq, Eq, Structural)]
pub enum MetadataType {
    TextPlain,
    ImagePngBase64,
    ImageJpegBase64,
    TextEmail,
    TextIdentifier,
}

impl MetadataType {
    /// The name under which the kind is written into the metadata.
    pub open spec fn name(self) -> Seq<char> {
        match self {
            MetadataType::TextPlain => "TextPlain"@,
            MetadataType::ImagePngBase64 => "ImagePngBase64"@,
            MetadataType::ImageJpegBase64 => "ImageJpegBase64"@,
            MetadataType::TextEmail => "TextEmail"@,
            MetadataType::TextIdentifier => "TextIdentifier"@,
        }
    }

    /// The name under which the kind is written into the metadata.
    pub fn as_str(&self) -> (r: &'static str)
        ensures
            r@ == self.name(),
    {
        match self {
            MetadataType::TextPlain => "TextPlain",
            MetadataType::ImagePngBase64 => "ImagePngBase64",
            MetadataType::ImageJpegBase64 => "ImageJpegBase64",
            MetadataType::TextEmail => "TextEmail",
            MetadataType::TextIdentifier => "TextIdentifier",
        }
    }
}

/// One entry of the metadata: a kind and the content of that kind.
#[derive(Debug, PartialEq, Eq)]
pub struct MetadataEntry {
    pub metadata_type: MetadataType,
    pub content: String,
}

impl MetadataEntry {
    /// The two members that the entry is written as: the name of its kind, then
    /// its content.
    pub fn serialize(&self) -> (r: (String, String))
        ensures
            r.0@ == self.metadata_type.name(),
            r.1@ == self.content@,
    {
        (String::from_str(self.metadata_type.as_str()), self.content.clone())
    }
}

/// The answer to the first request of the protocol: how and within which
/// bounds the recipient can be paid.
#[derive(Debug, PartialEq, Eq)]
pub struct LnurlWellKnownResponse {
    /// The URL of the callback.
    pub callback: String,
    /// The largest amount that can be sent, in millisatoshi.
    pub max_sendable: u64,
    /// The smallest amount that can be sent, in millisatoshi.
    pub min_sendable: u64,
    pub metadata: String,
    pub comment_allowed: Option<i32>,
    pub tag: LnurlType,
    pub status: LnurlStatus,
    /// The public key that signs receipts, in hex.
    pub nostr_pubkey: Option<String>,
    pub allows_nostr: bool,
}

/// The parameters of a callback.
#[derive(Debug, PartialEq, Eq)]
pub struct LnurlCallbackParams {
    /// The amount that the payer chose, in millisatoshi.
    pub amount: u64,
    /// Prevents caching of the response.
    pub nonce: Option<String>,
    /// A comment of the payer for the recipient.
    pub comment: Option<String>,
    /// An ephemeral public key that the payer made.
    pub proofofpayer: Option<String>,
}

/// What the payer's wallet does once the payment went through.
#[derive(Debug, PartialEq, Eq)]
pub struct LnurlCallbackSuccessAction {
    pub tag: String,
    pub message: String,
}

/// The answer to a callback.
#[derive(Debug, PartialEq, Eq)]
pub struct LnurlCallbackResponse {
    pub status: LnurlStatus,
    pub reason: Option<String>,
    /// The invoice to pay.
    pub pr: String,
    /// The URL under which the payment can be verified.
    pub verify: String,
    pub success_action: Option<LnurlCallbackSuccessAction>,
    pub routes: Option<Vec<String>>,
}

/// The answer to a request to verify a payment.
#[derive(Debug, PartialEq, Eq)]
pub struct LnurlVerifyResponse {
    pub status: LnurlStatus,
    pub settled: bool,
    pub preimage: String,
    /// The invoice that was to be paid.
    pub pr: String,
}

} // verus!
