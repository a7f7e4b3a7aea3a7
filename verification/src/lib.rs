//! The settlement pipeline behind an LNURL-pay service that is backed by a
//! federated e-cash mint.
//!
//! A callback of the pay protocol is checked and answered with an invoice
//! ([`callback`]). A watcher follows the payment of each invoice and brings
//! the stored invoice to a terminal state, once ([`watcher`]). When an invoice
//! is settled, notes of the same value are withdrawn and sent to the recipient
//! over the channel of their choice ([`notifier`]), and where a payment
//! request came with the payment, a signed receipt is published for it
//! ([`receipt`]).
//!
//! The library decides and the program around it acts. Talking to the mint,
//! to the store, to the relays and to the chat server is left to the program:
//! each of the three parts says what is due next and is told how it went. What
//! holds of every run of such steps is stated and proved in [`callback_laws`],
//! [`watcher_laws`] and [`notifier_laws`].
//!
//! Calls into other crates that only compute (hashing, signing, parsing,
//! encoding) are made from within the library, through [`trusted`].

pub mod callback;
pub mod callback_laws;
pub mod lnurl;
pub mod model;
pub mod notifier;
pub mod notifier_laws;
pub mod receipt;
pub mod registry;
pub mod text;
pub mod trusted;
pub mod watcher;
pub mod watcher_laws;
