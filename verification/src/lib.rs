//! RGB functionality of a lightning node: what is kept for colored channels, payments and
//! transfers, how the transactions of a channel are colored, and how inbound colored fundings are
//! accepted, rolled back and recovered.
//!
//! Everything durable goes through a key-value store, [`store::KVStoreSync`]. Contracts describe a
//! function by what it does to the state of the store, [`store::StoreView`], call by call and
//! failure by failure; the laws of each module follow from these descriptions.
//!
//! The wallet, the network and the file system are not called from here. Where one of them has to
//! act between two decisions, a function returns what is to be done, and another one takes what
//! came of it.

pub mod channel;
pub mod coloring;
pub mod coloring_laws;
pub mod contract_id_serde;
pub mod errors;
pub mod funding;
pub mod funding_laws;
pub mod htlc;
pub mod info;
pub mod journal;
pub mod media;
pub mod memory;
pub mod outside;
pub mod records;
pub mod recovery;
pub mod rename;
pub mod store;
pub mod text;
pub mod wallet;
pub mod witness;
