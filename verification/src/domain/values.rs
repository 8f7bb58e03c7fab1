use vstd::prelude::*;

verus! {

/// The identity of a stored record: 128 bits that the store assigns.
#[derive(Debug, Clone, Copy, PartialEq, Eq, Structural, Hash)]
pub struct EntityId {
    pub bits: u128,
}

/// A point in time, in microseconds since the Unix epoch.
#[derive(Debug, Clone, Copy, PartialEq, Eq, Structural, Hash)]
pub struct Timestamp {
    pub micros: i64,
}

/// A fixed-point decimal amount: `mantissa` divided by ten to the `scale`.
#[derive(Debug, Clone, Copy, PartialEq, Eq, Structural, Hash)]
pub struct Amount {
    pub mantissa: i128,
    pub scale: u32,
}

impl Amount {
    /// The amount zero, which every new account starts with.
    pub fn zero() -> (amount: Amount)
        ensures
            amount == (Amount { mantissa: 0, scale: 0 }),
    {
        Amount { mantissa: 0, scale: 0 }
    }
}

/// The text that an optional string holds, if any.
pub open spec fn optional_text(value: Option<String>) -> Option<Seq<char>> {
    match value {
        Some(text) => Some(text@),
        None => None,
    }
}

} // verus!
