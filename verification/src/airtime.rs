//! Airtime request and response shapes.

use vstd::prelude::*;

use crate::types::spec_currency_code;
use crate::types::Currency;

verus! {

/// Request body for sending airtime.
#[derive(Debug, Clone, PartialEq, Eq)]
pub struct SendAirtimeRequest {
    /// The recipients and their amounts.
    pub recipients: Vec<AirtimeRecipient>,
}

/// One airtime recipient.
#[derive(Debug, Clone, PartialEq, Eq)]
pub struct AirtimeRecipient {
    /// The recipient's phone number.
    pub phone_number: String,
    /// The ISO code of the currency.
    pub currency_code: String,
    /// The amount, as the API expects it: a plain decimal string.
    pub amount: String,
}

impl AirtimeRecipient {
    /// A recipient entry with the currency spelled as its ISO code.
    pub fn new(phone_number: &str, amount: &str, currency: Currency) -> (r: Self)
        ensures
            r.phone_number@ == phone_number@,
            r.currency_code@ == spec_currency_code(currency),
            r.amount@ == amount@,
    {
        AirtimeRecipient {
            phone_number: phone_number.to_owned(),
            currency_code: currency.as_str().to_owned(),
            amount: amount.to_owned(),
        }
    }
}

/// Response to a send request.
#[derive(Debug, Clone, PartialEq, Eq)]
pub struct SendAirtimeResponse {
    /// The API's error message, or `None` spelled out.
    pub error_message: String,
    /// How many sends were accepted.
    pub num_sent: u32,
    /// The total amount charged.
    pub total_amount: String,
    /// The total discount applied.
    pub total_discount: String,
    /// Per-recipient outcomes.
    pub responses: Vec<AirtimeResponse>,
}

/// Per-recipient outcome of a send request.
#[derive(Debug, Clone, PartialEq, Eq)]
pub struct AirtimeResponse {
    /// The recipient's phone number.
    pub phone_number: String,
    /// The amount sent.
    pub amount: String,
    /// Status description.
    pub status: String,
    /// The id of the request.
    pub request_id: String,
    /// The discount applied.
    pub discount: String,
    /// The error message for this recipient.
    pub error_message: String,
}

} // verus!
