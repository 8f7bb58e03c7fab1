use vstd::prelude::*;
use vstd::string::StringExecFns;

verus! {

/// The category of an account.
#[allow(non_camel_case_types)]
#[derive(Debug, Clone, Copy, PartialEq, Eq, Structural, Hash)]
pub enum AccountType {
    CHECKING,
    SAVINGS,
    PAYMENT,
}

/// The name under which an account type is stored and shown.
pub open spec fn account_type_name(account_type: AccountType) -> Seq<char> {
    match account_type {
        AccountType::CHECKING => "CHECKING"@,
        AccountType::SAVINGS => "SAVINGS"@,
        AccountType::PAYMENT => "PAYMENT"@,
    }
}

impl AccountType {
    /// The name under which this account type is stored and shown.
    pub fn name(&self) -> (text: String)
        ensures
            text@ == account_type_name(*self),
    {
        match self {
            AccountType::CHECKING => String::from_str("CHECKING"),
            AccountType::SAVINGS => String::from_str("SAVINGS"),
            AccountType::PAYMENT => String::from_str("PAYMENT"),
        }
    }
}

} // verus!
