//! Core of the Manta signer service.
//!
//! The signer holds one root seed and answers the requests of a wallet: it derives addresses and
//! assets from the seed, and it signs transfers and reclaims once the user has authorized them.
//! This crate holds what the service decides. Sockets, files, the dialog with the user and the
//! ledger's cryptography are the application's: it performs the actions that the functions of this
//! crate return, and hands their outcomes back as events.
//!
//! What the user is shown:
//! - [`asset`]: asset identifiers, balances and currency symbols.
//! - [`decimal`]: the decimal notation of balances.
//! - [`base58`]: the notation of addresses.
//! - [`summary`]: the summary of a transaction.
//!
//! The root seed:
//! - [`secret`]: secrets that are wiped when dropped.
//! - [`seed`]: root seeds and passwords.
//! - [`state`]: the state of the signer, and the steps of a request for the seed.
//! - [`settlement`]: what such a request comes to.
//!
//! The service:
//! - [`message`]: the messages that answer the wallet.
//! - [`handler`]: the events, actions and replies of a handler.
//! - [`service`]: the state, the routes and the handlers of the service.
//! - [`exchange`]: what a request of the wallet comes to.
//! - [`startup`]: the start of the service.
//! - [`guarantees`]: what the service does, in terms of what goes in and what comes out.

pub mod asset;
pub mod base58;
pub mod decimal;
pub mod exchange;
pub mod guarantees;
pub mod handler;
pub mod message;
pub mod secret;
pub mod seed;
pub mod service;
pub mod settlement;
pub mod startup;
pub mod state;
pub mod summary;
