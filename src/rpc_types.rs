use vstd::prelude::*;

verus! {

/// A 160-bit account address, held as its big-endian high and low parts.
#[derive(Clone, Copy, PartialEq, Eq, Structural, Debug)]
pub struct H160 {
    pub high: u32,
    pub low: u128,
}

/// A 256-bit unsigned integer, held as its high and low halves.
#[derive(Clone, Copy, PartialEq, Eq, Structural, Debug)]
pub struct U256 {
    pub high: u128,
    pub low: u128,
}

/// A summary of one internal transaction, as served over RPC.
#[derive(Clone, Copy, PartialEq, Eq, Structural, Debug)]
pub struct InternalTransaction {
    /// Sender.
    pub from: Option<H160>,
    /// Recipient.
    pub to: Option<H160>,
    /// Gas used.
    pub gas_used: Option<U256>,
}

/// The reward paid to a contract's developer.
#[derive(Clone, Copy, PartialEq, Eq, Structural, Debug)]
pub struct RewardInfo {
    pub developer: H160,
    pub reward: U256,
}

/// An internal transaction with the developer reward it paid, if any.
#[derive(Clone, Copy, PartialEq, Eq, Structural, Debug)]
pub struct InternalTxDetails {
    pub tx: InternalTransaction,
    pub reward: Option<RewardInfo>,
}

} // verus!
