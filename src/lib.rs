//! Buyer-side adapter for a federated commerce network: builds outbound
//! protocol envelopes, folds inbound callbacks into a commerce record and
//! keeps the catalog and participant caches that envelope assembly reads.

pub mod accounts;
pub mod amount;
pub mod catalog;
pub mod commerce;
pub mod determinism;
pub mod directory;
pub mod dispatch;
pub mod envelope;
pub mod init_intake;
pub mod order_envelope;
pub mod protocol;
pub mod quote;
pub mod quote_intake;
pub mod schemas;
pub mod select;
pub mod status;
pub mod table;
pub mod tags;
