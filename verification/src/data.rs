//! Mobile-data request and response shapes.

use vstd::prelude::*;

verus! {

/// Request body for sending mobile data bundles.
#[derive(Debug, Clone, PartialEq, Eq)]
pub struct MobileDataRequest {
    /// The application username.
    pub user_name: String,
    /// The product to charge against.
    pub product_name: String,
    /// The recipients and their bundles.
    pub recipients: Vec<Recipient>,
}

/// Caller-supplied metadata attached to a recipient.
#[derive(Debug, Clone, PartialEq, Eq)]
pub struct RecipientMetadata {
    /// The caller's own transaction id.
    pub transaction_id: String,
}

/// The available data validity classes.
#[derive(Debug, Clone, Copy, PartialEq, Eq)]
pub enum DataValidity {
    Day,
    Week,
    Month,
}

impl DataValidity {
    /// The validity class as the API spells it.
    pub fn as_str(&self) -> (r: &str)
        ensures
            *self is Day ==> r@ == "Day"@,
            *self is Week ==> r@ == "Week"@,
            *self is Month ==> r@ == "Month"@,
    {
        match self {
            DataValidity::Day => "Day",
            DataValidity::Week => "Week",
            DataValidity::Month => "Month",
        }
    }
}

/// The available data units.
#[derive(Debug, Clone, Copy, PartialEq, Eq)]
pub enum DataUnits {
    MB,
    GB,
}

impl DataUnits {
    /// The unit as the API spells it.
    pub fn as_str(&self) -> (r: &str)
        ensures
            *self is MB ==> r@ == "MB"@,
            *self is GB ==> r@ == "GB"@,
    {
        match self {
            DataUnits::MB => "MB",
            DataUnits::GB => "GB",
        }
    }
}

/// One data-bundle recipient.
#[derive(Debug, Clone, PartialEq, Eq)]
pub struct Recipient {
    /// The recipient's phone number.
    pub phone_number: String,
    /// How many units to send.
    pub quantity: u32,
    /// The unit of the bundle.
    pub unit: DataUnits,
    /// How long the bundle stays valid.
    pub validity: DataValidity,
    /// Whether this is a promotional bundle.
    pub is_promo_bundle: bool,
    /// Caller-supplied metadata.
    pub metadata: RecipientMetadata,
}

/// Per-recipient outcome of a data request.
#[derive(Debug, Clone, PartialEq, Eq)]
pub struct MobileDataResponse {
    /// The error message for this entry, when given.
    pub error_message: Option<String>,
    /// The recipient's phone number.
    pub phone_number: Option<String>,
    /// The carrier that served the bundle.
    pub provider: Option<String>,
    /// Status description.
    pub status: Option<String>,
    /// The API's transaction id.
    pub transaction_id: Option<String>,
    /// The value charged.
    pub value: Option<String>,
}

/// Response to a data request.
#[derive(Debug, Clone, PartialEq, Eq)]
pub struct MobileDataResponseList {
    /// Per-recipient outcomes.
    pub entries: Vec<MobileDataResponse>,
    /// The request-level error message, when given.
    pub error_message: Option<String>,
}

/// Response to a transaction lookup.
#[derive(Debug, Clone, PartialEq, Eq)]
pub struct FindTransactionResponse {
    /// Status description.
    pub status: String,
    /// The transaction's details, when found.
    pub data: Option<MobileDataResponse>,
}

/// The details block of a transaction lookup.
#[derive(Debug, Clone, PartialEq, Eq)]
pub struct FindTrandactionResponseData {
    /// The caller's metadata echoed back.
    pub request_metadata: FindTrandactionResponseRequestMetadata,
    /// The type of the paying side.
    pub source_type: String,
    /// The paying side.
    pub source: String,
    /// The carrier involved.
    pub provider: String,
    /// The type of the receiving side.
    pub destination_type: String,
    /// Free-form description.
    pub description: String,
    /// The carrier channel used.
    pub provider_channel: String,
    /// The fee charged.
    pub transaction_fee: String,
    /// The carrier's metadata.
    pub provider_metadata: FindTrandactionResponseProviderMetadata,
    /// Status description.
    pub stratus: String,
    /// The product charged against.
    pub product_name: String,
    /// The transaction's category.
    pub category: String,
    /// When the transaction happened.
    pub transaction_date: String,
    /// The receiving side.
    pub destination: String,
    /// The value moved.
    pub value: String,
    /// The API's transaction id.
    pub transaction_id: String,
    /// When the record was created.
    pub creation_time: String,
}

/// The caller-metadata block of a transaction lookup.
#[derive(Debug, Clone, PartialEq, Eq)]
pub struct FindTrandactionResponseRequestMetadata {
    /// The reason the caller attached.
    pub reason: String,
}

/// The carrier-metadata block of a transaction lookup.
#[derive(Debug, Clone, PartialEq, Eq)]
pub struct FindTrandactionResponseProviderMetadata {
    /// Whether the recipient is registered with the carrier.
    pub recipient_registred: String,
    /// The recipient's registered name.
    pub recipient_name: String,
}

} // verus!
