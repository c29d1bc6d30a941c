//! Accounts of the chart of accounts.

use crate::text::ascii_upper;
use crate::text::same_text;
use crate::text::to_ascii_upper;
use vstd::prelude::*;
use vstd::string::*;

verus! {

/// The kind of an account.
#[derive(Clone, Copy, Debug, PartialEq, Eq, Structural)]
pub enum AccountType {
    Bank,
    Current,
    Currliab,
    Depreciatn,
    Directcosts,
    Equity,
    Expense,
    Fixed,
    Inventory,
    Liability,
    Noncurrent,
    Otherincome,
    Overheads,
    Prepayment,
    Revenue,
    Sales,
    Termliab,
}

impl Default for AccountType {
    fn default() -> (value: AccountType)
        ensures
            value == AccountType::Bank,
    {
        AccountType::Bank
    }
}

/// Whether an account is in use.
#[derive(Clone, Copy, Debug, PartialEq, Eq, Structural)]
pub enum AccountStatus {
    Active,
    Archived,
}

/// The kind of a bank account. The API names three kinds; whatever else it
/// sends is kept as it came.
#[derive(Clone, Debug, PartialEq, Eq)]
pub enum BankAccountType {
    Bank,
    Creditcard,
    Paypal,
    Unknown(String),
}

impl BankAccountType {
    /// The kind that an upper-case text names: one of the three the API
    /// knows, or the text itself as an unknown kind.
    pub open spec fn named(upper: Seq<char>, kind: BankAccountType) -> bool {
        if upper == "BANK"@ {
            kind == BankAccountType::Bank
        } else if upper == "CREDITCARD"@ {
            kind == BankAccountType::Creditcard
        } else if upper == "PAYPAL"@ {
            kind == BankAccountType::Paypal
        } else {
            kind matches BankAccountType::Unknown(text) && text@ == upper
        }
    }

    /// The kind of bank account that a text of the API names. Letter case
    /// does not matter. A text that names none of the three known kinds,
    /// the empty one among them, is kept in upper case as an unknown kind.
    pub fn from_text(value: &str) -> (kind: BankAccountType)
        ensures
            BankAccountType::named(ascii_upper(value@), kind),
    {
        let upper = to_ascii_upper(value);
        if same_text(upper.as_str(), "BANK") {
            BankAccountType::Bank
        } else if same_text(upper.as_str(), "CREDITCARD") {
            BankAccountType::Creditcard
        } else if same_text(upper.as_str(), "PAYPAL") {
            BankAccountType::Paypal
        } else {
            BankAccountType::Unknown(upper)
        }
    }

    /// The kind for a value of the API that is no text: an empty object, or
    /// nothing at all. It is unknown, with no text to keep.
    pub fn unknown() -> (kind: BankAccountType)
        ensures
            kind matches BankAccountType::Unknown(text) && text@ == Seq::<char>::empty(),
    {
        BankAccountType::Unknown(String::new())
    }
}

/// The class an account reports under.
#[derive(Clone, Copy, Debug, PartialEq, Eq, Structural)]
pub enum AccountClass {
    Asset,
    Equity,
    Expense,
    Liability,
    Revenue,
}

} // verus!
