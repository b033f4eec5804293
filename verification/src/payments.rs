//! Payments request and response shapes, and the wallet-transactions
//! query builder.

use std::collections::HashMap;

use vstd::prelude::*;

use crate::error::AfricasTalkingError;
use crate::strutil::spec_nat_string;
use crate::strutil::u64_to_string;

verus! {

/// Request body for a mobile checkout.
#[derive(Debug, Clone, PartialEq, Eq)]
pub struct MobileCheckoutRequest {
    /// The product to charge against.
    pub product_name: String,
    /// The carrier to charge through.
    pub provider: String,
    /// The ISO code of the currency.
    pub currency_code: String,
    /// The amount, as a plain decimal string.
    pub amount: String,
    /// Caller-supplied metadata.
    pub metadata: Option<HashMap<String, String>>,
    /// The payer's phone number.
    pub phone_number: String,
    /// The payer's country code.
    pub country_code: String,
}

/// Response to a mobile checkout.
#[derive(Debug, Clone, PartialEq, Eq)]
pub struct MobileCheckoutResponse {
    /// The carrier that handled the charge.
    pub provider: String,
    /// Status description.
    pub status: String,
    /// The API's request id.
    pub request_id: String,
    /// When the request was taken.
    pub request_time: String,
    /// The receipt, once the charge settles.
    pub receipt: Option<String>,
    /// The cost charged, once known.
    pub cost: Option<String>,
}

/// Query settings for listing wallet transactions.
#[derive(Debug, Clone, PartialEq, Eq)]
pub struct WalletTransactionsRequest {
    /// The page to return.
    pub page: Option<u32>,
    /// Entries per page.
    pub per_page: Option<u32>,
    /// Lower date bound.
    pub start_date: Option<String>,
    /// Upper date bound.
    pub end_date: Option<String>,
}

/// The query pairs a wallet-transactions request contributes, in the
/// fixed order the API documents them.
pub open spec fn spec_query_pairs(r: WalletTransactionsRequest) -> Seq<(Seq<char>, Seq<char>)> {
    (match r.page {
        Some(p) => seq![("page"@, spec_nat_string(p as nat))],
        None => Seq::empty(),
    }) + (match r.per_page {
        Some(p) => seq![("perPage"@, spec_nat_string(p as nat))],
        None => Seq::empty(),
    }) + (match r.start_date {
        Some(d) => seq![("startDate"@, d@)],
        None => Seq::empty(),
    }) + (match r.end_date {
        Some(d) => seq![("endDate"@, d@)],
        None => Seq::empty(),
    })
}

/// The form encoding of key-value pairs, as the URL-encoding of the
/// crate that computes it; a function of the pairs alone.
pub uninterp spec fn urlencoded_of(pairs: Seq<(Seq<char>, Seq<char>)>) -> Seq<char>;

/// Relies on `serde_urlencoded::to_string`: the `k=v&k=v` form encoding
/// of the pairs, percent-escaped, depending on the pairs alone.
#[verifier::external_body]
fn urlencode_pairs(pairs: &Vec<(String, String)>) -> (r: Result<String, AfricasTalkingError>)
    ensures
        r matches Ok(s) ==> s@ == urlencoded_of(pairs.deep_view()),
        r matches Err(e) ==> e is Serialization,
{
    match serde_urlencoded::to_string(pairs) {
        Ok(s) => Ok(s),
        Err(e) => Err(AfricasTalkingError::Serialization(e.to_string())),
    }
}

impl WalletTransactionsRequest {
    /// The set query settings as key-value pairs, in the API's order.
    pub fn query_pairs(&self) -> (r: Vec<(String, String)>)
        ensures
            r.deep_view() == spec_query_pairs(*self),
    {
        let mut pairs: Vec<(String, String)> = Vec::new();
        if let Some(page) = &self.page {
            let ghost prev = pairs.deep_view();
            pairs.push(("page".to_owned(), u64_to_string(*page as u64)));
            proof {
                assert(pairs.deep_view() =~= prev.push(
                    ("page"@, spec_nat_string(self.page->0 as nat)),
                ));
            }
        }
        if let Some(per_page) = &self.per_page {
            let ghost prev = pairs.deep_view();
            pairs.push(("perPage".to_owned(), u64_to_string(*per_page as u64)));
            proof {
                assert(pairs.deep_view() =~= prev.push(
                    ("perPage"@, spec_nat_string(self.per_page->0 as nat)),
                ));
            }
        }
        if let Some(start_date) = &self.start_date {
            let ghost prev = pairs.deep_view();
            pairs.push(("startDate".to_owned(), start_date.clone()));
            proof {
                assert(pairs.deep_view() =~= prev.push(("startDate"@, self.start_date->0@)));
            }
        }
        if let Some(end_date) = &self.end_date {
            let ghost prev = pairs.deep_view();
            pairs.push(("endDate".to_owned(), end_date.clone()));
            proof {
                assert(pairs.deep_view() =~= prev.push(("endDate"@, self.end_date->0@)));
            }
        }
        proof {
            assert(pairs.deep_view() =~= spec_query_pairs(*self));
        }
        pairs
    }

    /// The wallet-transactions path with this request's encoded query.
    pub fn transactions_query(&self) -> (r: Result<String, AfricasTalkingError>)
        ensures
            r matches Ok(s) ==> s@ == "/version1/payments/transactions?"@ + urlencoded_of(
                spec_query_pairs(*self),
            ),
            r matches Err(e) ==> e is Serialization,
    {
        let pairs = self.query_pairs();
        match urlencode_pairs(&pairs) {
            Ok(qs) => {
                let mut s: String = "/version1/payments/transactions?".to_owned();
                s.append(qs.as_str());
                Ok(s)
            },
            Err(e) => Err(e),
        }
    }
}

/// Response to a wallet-transactions listing.
#[derive(Debug, Clone, PartialEq, Eq)]
pub struct WalletTransactionsResponse {
    /// The transactions of the requested page.
    pub transactions: Vec<WalletTransaction>,
    /// Total entries across all pages.
    pub total: u32,
    /// The page returned.
    pub page: u32,
    /// Entries per page.
    pub per_page: u32,
}

/// One wallet transaction.
#[derive(Debug, Clone, PartialEq, Eq)]
pub struct WalletTransaction {
    /// The API's transaction id.
    pub transaction_id: String,
    /// The amount moved.
    pub amount: String,
    /// Status description.
    pub status: String,
    /// When the transaction happened.
    pub date: String,
    /// The ISO code of the currency.
    pub currency: String,
}

} // verus!
