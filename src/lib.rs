//! A persistent secondary index that correlates host-chain blocks with the
//! blocks and transactions of an embedded Ethereum-compatible execution layer,
//! together with the driver that keeps it in step with the host chain's
//! canonical view.
pub mod hash;
pub mod table;
pub mod error;
pub mod meta;
pub mod mapping;
pub mod backend;
pub mod sync;
pub mod rpc_types;
