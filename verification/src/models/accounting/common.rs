//! Types that several resources of the Accounting API share.

use crate::text::same_text;
use vstd::prelude::*;
use vstd::string::*;

verus! {

/// The upper-case form of a text, by the rules of Unicode.
pub uninterp spec fn unicode_upper(text: Seq<char>) -> Seq<char>;

/// `str::to_uppercase`: the text in upper case, as Unicode defines it. The
/// result depends on the text alone.
#[verifier::external_body]
pub(crate) fn to_unicode_upper(s: &str) -> (upper: String)
    ensures
        upper@ == unicode_upper(s@),
{
    s.to_uppercase()
}

/// What an address is used for.
#[derive(Clone, Copy, Debug, PartialEq, Eq, Structural)]
pub enum AddressType {
    Pobox,
    Street,
    Delivery,
}

impl Default for AddressType {
    fn default() -> (value: AddressType)
        ensures
            value == AddressType::Street,
    {
        AddressType::Street
    }
}

/// What a phone number is used for.
#[derive(Clone, Copy, Debug, PartialEq, Eq, Structural)]
pub enum PhoneType {
    Default,
    Ddi,
    Mobile,
    Fax,
    Office,
}

impl Default for PhoneType {
    fn default() -> (value: PhoneType)
        ensures
            value == PhoneType::Default,
    {
        PhoneType::Default
    }
}

/// From which day a payment term counts.
#[derive(Clone, Copy, Debug, PartialEq, Eq, Structural)]
pub enum PaymentTermType {
    Daysafterbilldate,
    Daysafterbillmonth,
    Ofcurrentmonth,
    Offollowingmonth,
}

/// Whether the amounts of line items include tax.
#[derive(Clone, Copy, Debug, PartialEq, Eq, Structural)]
pub enum LineAmountType {
    Exclusive,
    Inclusive,
    NoTax,
    Unspecified,
}

impl LineAmountType {
    /// The value that an upper-case text names, if it names one.
    pub open spec fn named(upper: Seq<char>) -> Option<LineAmountType> {
        if upper == "EXCLUSIVE"@ {
            Some(LineAmountType::Exclusive)
        } else if upper == "INCLUSIVE"@ {
            Some(LineAmountType::Inclusive)
        } else if upper == "NOTAX"@ {
            Some(LineAmountType::NoTax)
        } else if upper == "NONE"@ {
            Some(LineAmountType::Unspecified)
        } else {
            None
        }
    }

    /// The value that a text of the API names. The API writes the names in
    /// more than one letter case, so the text is compared in upper case.
    /// `None` for a text that names no value.
    pub fn from_text(value: &str) -> (kind: Option<LineAmountType>)
        ensures
            kind == LineAmountType::named(unicode_upper(value@)),
    {
        let upper = to_unicode_upper(value);
        if same_text(upper.as_str(), "EXCLUSIVE") {
            Some(LineAmountType::Exclusive)
        } else if same_text(upper.as_str(), "INCLUSIVE") {
            Some(LineAmountType::Inclusive)
        } else if same_text(upper.as_str(), "NOTAX") {
            Some(LineAmountType::NoTax)
        } else if same_text(upper.as_str(), "NONE") {
            Some(LineAmountType::Unspecified)
        } else {
            None
        }
    }
}

/// A postal address.
#[derive(Clone, Debug, PartialEq)]
pub struct Address {
    pub address_type: AddressType,
    pub address_line1: Option<String>,
    pub address_line2: Option<String>,
    pub address_line3: Option<String>,
    pub address_line4: Option<String>,
    pub city: Option<String>,
    pub region: Option<String>,
    pub postal_code: Option<String>,
    pub country: Option<String>,
    pub attention_to: Option<String>,
}

impl Default for Address {
    fn default() -> (value: Address)
        ensures
            value.address_type == AddressType::Street,
            value.address_line1 is None,
            value.address_line2 is None,
            value.address_line3 is None,
            value.address_line4 is None,
            value.city is None,
            value.region is None,
            value.postal_code is None,
            value.country is None,
            value.attention_to is None,
    {
        Address {
            address_type: AddressType::Street,
            address_line1: None,
            address_line2: None,
            address_line3: None,
            address_line4: None,
            city: None,
            region: None,
            postal_code: None,
            country: None,
            attention_to: None,
        }
    }
}

/// A phone number.
#[derive(Clone, Debug, PartialEq)]
pub struct Phone {
    pub phone_type: PhoneType,
    pub phone_number: Option<String>,
    pub phone_area_code: Option<String>,
    pub phone_country_code: Option<String>,
}

impl Default for Phone {
    fn default() -> (value: Phone)
        ensures
            value.phone_type == PhoneType::Default,
            value.phone_number is None,
            value.phone_area_code is None,
            value.phone_country_code is None,
    {
        Phone {
            phone_type: PhoneType::Default,
            phone_number: None,
            phone_area_code: None,
            phone_country_code: None,
        }
    }
}

/// When a payment falls due.
#[derive(Clone, Debug, PartialEq)]
pub struct PaymentTerm {
    pub day: Option<u32>,
    pub term_type: PaymentTermType,
}

/// A link to a page outside Xero.
#[derive(Clone, Debug, PartialEq)]
pub struct Link {
    pub url: Option<String>,
    pub description: Option<String>,
}

} // verus!
