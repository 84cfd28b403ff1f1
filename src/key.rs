use vstd::prelude::*;

verus! {

/// A 32-byte account identity (a public key), held as its big-endian
/// upper and lower halves.
#[derive(Clone, Copy, Debug, PartialEq, Eq, Structural)]
pub struct AccountKey {
    pub high: u128,
    pub low: u128,
}

impl AccountKey {
    /// The all-zero key, used where no account has been recorded yet.
    pub fn zero() -> (r: AccountKey)
        ensures
            r.high == 0 && r.low == 0,
    {
        AccountKey { high: 0, low: 0 }
    }

    pub fn new(high: u128, low: u128) -> (r: AccountKey)
        ensures
            r.high == high && r.low == low,
    {
        AccountKey { high, low }
    }
}

} // verus!
