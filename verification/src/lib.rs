//! A verified model of a snapshot transfer service.
//!
//! The heart of the crate is the transfer bridge: a byte stream produced or
//! consumed by a blocking storage call is carried across a message-oriented
//! network channel as a sequence of segments.  The bridge couples the two
//! execution models through a bounded in-process byte channel, enforces
//! strict segment ordering on receipt, and defines the failure semantics
//! when either side aborts mid-transfer.
//!
//! Around the bridge stand the dataset-facing pieces of the service: the
//! property list model, the dataset handles and builders, and the listing
//! helpers.  The operating-system edges (pipes, worker threads, external
//! processes, the native storage calls) live outside this crate; everything
//! here works on plain values and carries a proved contract.

pub mod bridge;
pub mod bunch;
pub mod collector;
pub mod dataset;
pub mod error;
pub mod handle;
pub mod iterator;
pub mod list;
pub mod lzc;
pub mod mnttab;
pub mod nvpair;
pub mod receiver;
pub mod segment;
pub mod session;
pub mod text;
pub mod transmitter;
pub mod zfs_property;
pub mod zfscore;
