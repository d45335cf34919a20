use vstd::prelude::*;

verus! {

/// A 256-bit hash, held as its big-endian high and low halves.
#[derive(Clone, Copy, PartialEq, Eq, Structural, Debug, Hash)]
pub struct H256 {
    pub high: u128,
    pub low: u128,
}

impl H256 {
    /// The all-zero hash.
    pub fn zero() -> (r: H256)
        ensures
            r.high == 0 && r.low == 0,
    {
        H256 { high: 0, low: 0 }
    }

    /// The hash whose low 64 bits are `n` and whose other bits are zero.
    pub fn from_low_u64_be(n: u64) -> (r: H256)
        ensures
            r.high == 0 && r.low == n as u128,
    {
        H256 { high: 0, low: n as u128 }
    }

    /// The hash with the given big-endian halves.
    pub fn from_halves(high: u128, low: u128) -> (r: H256)
        ensures
            r.high == high && r.low == low,
    {
        H256 { high, low }
    }
}

/// A key that a table can compare for equality in executable code.
pub trait TableKey: Copy + Sized {
    fn same(&self, other: &Self) -> (r: bool)
        ensures
            r == (*self == *other),
    ;
}

impl TableKey for H256 {
    fn same(&self, other: &Self) -> (r: bool) {
        *self == *other
    }
}

impl TableKey for u32 {
    fn same(&self, other: &Self) -> (r: bool) {
        *self == *other
    }
}

} // verus!
