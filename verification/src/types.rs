//! Common types used across the SDK.

use vstd::prelude::*;

verus! {

/// Standard response wrapper for most API calls.
#[derive(Debug, Clone, PartialEq, Eq)]
pub struct ApiResponse<T> {
    /// The wrapped payload.
    pub data: T,
}

/// Standard error response from the API.
#[derive(Debug, Clone, PartialEq, Eq)]
pub struct ErrorResponse {
    /// The API's error message.
    pub error_message: String,
    /// The API's error code, when given.
    pub error_code: Option<String>,
}

/// Pagination information for list responses.
#[derive(Debug, Clone, Copy, PartialEq, Eq)]
pub struct Pagination {
    /// The page returned.
    pub page: u32,
    /// Entries per page.
    pub per_page: u32,
    /// Total entries across all pages.
    pub total: u32,
    /// Total number of pages.
    pub total_pages: u32,
}

/// Currency codes the API accepts.
#[derive(Debug, Clone, Copy, PartialEq, Eq)]
pub enum Currency {
    Kes,
    Usd,
    Ugx,
    Tzs,
    Rwf,
    Zmw,
    Ngn,
    Ghs,
}

/// The ISO code string of each currency.
pub open spec fn spec_currency_code(c: Currency) -> Seq<char> {
    match c {
        Currency::Kes => "KES"@,
        Currency::Usd => "USD"@,
        Currency::Ugx => "UGX"@,
        Currency::Tzs => "TZS"@,
        Currency::Rwf => "RWF"@,
        Currency::Zmw => "ZMW"@,
        Currency::Ngn => "NGN"@,
        Currency::Ghs => "GHS"@,
    }
}

impl Currency {
    /// The currency's ISO code as the API spells it.
    pub fn as_str(&self) -> (r: &str)
        ensures
            r@ == spec_currency_code(*self),
    {
        match self {
            Currency::Kes => "KES",
            Currency::Usd => "USD",
            Currency::Ugx => "UGX",
            Currency::Tzs => "TZS",
            Currency::Rwf => "RWF",
            Currency::Zmw => "ZMW",
            Currency::Ngn => "NGN",
            Currency::Ghs => "GHS",
        }
    }
}

/// Phone number with an optional country code.
#[derive(Debug, Clone, PartialEq, Eq)]
pub struct PhoneNumber {
    /// The subscriber number.
    pub number: String,
    /// The country code, when split out.
    pub country_code: Option<String>,
}

impl PhoneNumber {
    /// A number without a separate country code.
    pub fn new(number: &str) -> (r: Self)
        ensures
            r.number@ == number@,
            r.country_code is None,
    {
        PhoneNumber { number: number.to_owned(), country_code: None }
    }

    /// A number with its country code split out.
    pub fn with_country_code(number: &str, country_code: &str) -> (r: Self)
        ensures
            r.number@ == number@,
            r.country_code matches Some(c) && c@ == country_code@,
    {
        PhoneNumber { number: number.to_owned(), country_code: Some(country_code.to_owned()) }
    }
}

} // verus!
