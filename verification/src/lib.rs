//! Certification and durability core of a stake-weighted, view-based BFT
//! consensus protocol, with the pieces of the node that live around it.
//!
//! - [`bitmap`], [`stake`] and [`qc`]: quorum certificates. A certificate is
//!   an aggregate signature and the bitmap of its signers; it stands for a
//!   stake snapshot when the stake at the set bits reaches the threshold.
//! - [`proposal`], [`share_table`] and [`storage`]: the consensus storage, the
//!   state a replica consults before it votes or proposes.
//! - [`anytrace`]: errors with a log level and a trace of causes.
//! - [`exit_root`]: call data of the global exit root contract.
//! - [`client_state`] and [`explorer`]: the clients of the metrics service and
//!   the histograms it draws.

pub mod anytrace;
pub mod bitmap;
pub mod client_state;
pub mod exit_root;
pub mod explorer;
pub mod proposal;
pub mod qc;
pub mod share_table;
pub mod stake;
pub mod storage;
