//! SMS request and response shapes, and the request builder.

use vstd::prelude::*;

use crate::strutil::concat_all;
use crate::strutil::concat_strings;

verus! {

/// Request body for sending SMS to one or more recipients.
#[derive(Debug, Clone, PartialEq, Eq)]
pub struct SendSmsRequest {
    /// The recipients, concatenated as the API field expects.
    pub to: String,
    /// The message content.
    pub message: String,
    /// Sender id or short code, when set.
    pub from: Option<String>,
    /// Bulk mode flag: one for bulk, zero for premium.
    pub bulk_sms_mode: Option<u32>,
    /// Queueing flag.
    pub enqueue: Option<u32>,
    /// Premium keyword, when set.
    pub keyword: Option<String>,
    /// Link id for two-way premium messages, when set.
    pub link_id: Option<String>,
    /// Retry window for premium messages, in hours.
    pub retry_duration_in_hours: Option<u32>,
}

impl SendSmsRequest {
    /// A request to the given recipients with the given message; every
    /// optional field starts unset.
    pub fn new(to: Vec<String>, message: &str) -> (r: Self)
        ensures
            r.to@ == concat_all(to.deep_view()),
            r.message@ == message@,
            r.from is None,
            r.bulk_sms_mode is None,
            r.enqueue is None,
            r.keyword is None,
            r.link_id is None,
            r.retry_duration_in_hours is None,
    {
        SendSmsRequest {
            to: concat_strings(&to),
            message: message.to_owned(),
            from: None,
            bulk_sms_mode: None,
            enqueue: None,
            keyword: None,
            link_id: None,
            retry_duration_in_hours: None,
        }
    }

    /// Sets the sender id.
    pub fn from(self, from: &str) -> (r: Self)
        ensures
            r.from matches Some(f) && f@ == from@,
            r.to == self.to,
            r.message == self.message,
            r.bulk_sms_mode == self.bulk_sms_mode,
            r.enqueue == self.enqueue,
            r.keyword == self.keyword,
            r.link_id == self.link_id,
            r.retry_duration_in_hours == self.retry_duration_in_hours,
    {
        SendSmsRequest { from: Some(from.to_owned()), ..self }
    }

    /// Switches bulk mode on or off: one for bulk, zero for premium.
    pub fn bulk_mode(self, enabled: bool) -> (r: Self)
        ensures
            r.bulk_sms_mode == Some(if enabled { 1u32 } else { 0u32 }),
            r.to == self.to,
            r.message == self.message,
            r.from == self.from,
            r.enqueue == self.enqueue,
            r.keyword == self.keyword,
            r.link_id == self.link_id,
            r.retry_duration_in_hours == self.retry_duration_in_hours,
    {
        SendSmsRequest {
            bulk_sms_mode: Some(if enabled { 1 } else { 0 }),
            ..self
        }
    }
}

/// Response to a send request.
#[derive(Debug, Clone, PartialEq, Eq)]
pub struct SendSmsResponse {
    /// The response's message data block.
    pub sms_message_data: SmsMessageData,
}

/// The message data block of a send response.
#[derive(Debug, Clone, PartialEq, Eq)]
pub struct SmsMessageData {
    /// The API's summary line.
    pub message: String,
    /// Per-recipient outcomes.
    pub recipients: Vec<SmsRecipient>,
}

/// Per-recipient outcome of a send request.
#[derive(Debug, Clone, PartialEq, Eq)]
pub struct SmsRecipient {
    /// Numeric status code.
    pub status_code: u32,
    /// The recipient's number.
    pub number: String,
    /// Status description.
    pub status: String,
    /// The cost charged for this recipient.
    pub cost: String,
    /// The id of the queued message.
    pub message_id: String,
}

/// Response to a fetch request.
#[derive(Debug, Clone, PartialEq, Eq)]
pub struct FetchMessagesResponse {
    /// The response's message data block.
    pub sms_message_data: FetchSmsMessageData,
}

/// The message data block of a fetch response.
#[derive(Debug, Clone, PartialEq, Eq)]
pub struct FetchSmsMessageData {
    /// The fetched messages.
    pub messages: Vec<SmsMessage>,
}

/// One fetched message.
#[derive(Debug, Clone, PartialEq, Eq)]
pub struct SmsMessage {
    /// The message's id, the cursor for the next fetch.
    pub id: u32,
    /// The message text.
    pub text: String,
    /// The sender.
    pub from: String,
    /// The recipient.
    pub to: String,
    /// When the message arrived.
    pub date: String,
    /// Link id for two-way messages, when given.
    pub link_id: Option<String>,
}

/// Bulk request body sent as JSON rather than form data.
#[derive(Debug, Clone, PartialEq, Eq)]
pub struct MordernBulkSmsRequest {
    /// The application username.
    pub username: String,
    /// The message content.
    pub message: String,
    /// The registered short code or alphanumeric sender id.
    pub sender_id: String,
    /// The recipients' phone numbers.
    pub recipients: Vec<String>,
}

} // verus!
