//! Client-side logic of a cross-chain mailbox: decoding of dispatch events,
//! correlation of the two event streams into message records, query filtering,
//! and the decision steps of message submission.

pub mod abi;
pub mod decoder;
pub mod types;
pub mod indexer;
pub mod send;
