//! Voice request and response shapes, and the XML action builders that
//! describe call handling to the gateway.

use vstd::prelude::*;

use crate::strutil::join_comma;
use crate::strutil::join_with_commas;
use crate::strutil::push_char;
use crate::strutil::spec_nat_string;
use crate::strutil::u64_to_string;

verus! {

/// Fields of the voice event callback.
#[derive(Debug, Clone, PartialEq, Eq)]
pub struct VoiceCallback {
    /// Whether the call is still active.
    pub is_active: String,
    /// The call's session id.
    pub session_id: String,
    /// The call's direction.
    pub direction: String,
    /// The calling number.
    pub caller_number: String,
    /// The called number.
    pub destination_number: String,
    /// The digits the caller pressed, when any.
    pub dtmf_digits: String,
}

/// Request to make an outbound call.
#[derive(Debug, Clone, PartialEq, Eq)]
pub struct MakeCallRequest {
    /// The application username; filled in by the client.
    pub username: String,
    /// The calling number, in international format.
    pub call_from: String,
    /// The recipients' numbers, comma-separated.
    pub call_to: String,
    /// Optional client request id for tagging.
    pub client_request_id: Option<String>,
}

impl MakeCallRequest {
    /// A call request from one number to the given recipients, joined
    /// with commas as the API field expects.
    pub fn new(from: &str, to: Vec<String>) -> (r: Self)
        ensures
            r.username@.len() == 0,
            r.call_from@ == from@,
            r.call_to@ == join_comma(to.deep_view()),
            r.client_request_id is None,
    {
        MakeCallRequest {
            username: String::new(),
            call_from: from.to_owned(),
            call_to: join_with_commas(&to),
            client_request_id: None,
        }
    }

    /// Tags the request with a client request id.
    pub fn with_client_request_id(self, id: &str) -> (r: Self)
        ensures
            r.client_request_id matches Some(c) && c@ == id@,
            r.username == self.username,
            r.call_from == self.call_from,
            r.call_to == self.call_to,
    {
        MakeCallRequest { client_request_id: Some(id.to_owned()), ..self }
    }
}

/// Response from making a call.
#[derive(Debug, Clone, PartialEq, Eq)]
pub struct MakeCallResponse {
    /// One entry per phone number called.
    pub entries: Vec<CallEntry>,
    /// Error message if the entire request failed.
    pub error_message: Option<String>,
}

/// Individual call entry in the response.
#[derive(Debug, Clone, PartialEq, Eq)]
pub struct CallEntry {
    /// Phone number that was called.
    pub phone_number: String,
    /// Status of the call request.
    pub status: CallStatus,
    /// Unique session id, absent when an error occurred.
    pub session_id: Option<String>,
}

/// Status of a call request.
#[derive(Debug, Clone, Copy, PartialEq, Eq)]
pub enum CallStatus {
    /// Call request accepted and queued.
    Queued,
    /// Invalid phone number format.
    InvalidPhoneNumber,
    /// Destination not supported.
    DestinationNotSupported,
    /// Insufficient account balance.
    InsufficientCredit,
}

impl CallStatus {
    /// The status as a display label.
    pub fn label(&self) -> (r: &str)
        ensures
            *self is Queued ==> r@ == "Queued"@,
            *self is InvalidPhoneNumber ==> r@ == "Invalid Phone Number"@,
            *self is DestinationNotSupported ==> r@ == "Destination Not Supported"@,
            *self is InsufficientCredit ==> r@ == "Insufficient Credit"@,
    {
        match self {
            CallStatus::Queued => "Queued",
            CallStatus::InvalidPhoneNumber => "Invalid Phone Number",
            CallStatus::DestinationNotSupported => "Destination Not Supported",
            CallStatus::InsufficientCredit => "Insufficient Credit",
        }
    }
}

/// Request for the number of queued calls.
#[derive(Debug, Clone, PartialEq, Eq)]
pub struct QueueStatusRequest {
    /// The application username; filled in by the client.
    pub username: String,
    /// The phone numbers to query.
    pub phone_numbers: Vec<String>,
}

impl QueueStatusRequest {
    /// A queue-status request for the given numbers.
    pub fn new(phone_numbers: Vec<String>) -> (r: Self)
        ensures
            r.username@.len() == 0,
            r.phone_numbers == phone_numbers,
    {
        QueueStatusRequest { username: String::new(), phone_numbers }
    }
}

/// Response to a queue-status request.
#[derive(Debug, Clone, PartialEq, Eq)]
pub struct QueueStatusResponse {
    /// Status of the request.
    pub status: String,
    /// Number of queued calls.
    pub num_queued_calls: u32,
    /// Per-number queue counts.
    pub phone_numbers: Vec<QueuedNumber>,
    /// Error message if the request failed.
    pub error_message: Option<String>,
}

/// Queue count for one number.
#[derive(Debug, Clone, PartialEq, Eq)]
pub struct QueuedNumber {
    /// The phone number.
    pub phone_number: String,
    /// Number of queued calls for this number.
    pub num_queued_calls: u32,
}

/// Request to register a media file.
#[derive(Debug, Clone, PartialEq, Eq)]
pub struct UploadMediaRequest {
    /// The application username; filled in by the client.
    pub username: String,
    /// HTTPS URL of the media file.
    pub url: String,
    /// Phone number associated with the upload.
    pub phone_number: String,
}

impl UploadMediaRequest {
    /// An upload request for the given file and number.
    pub fn new(url: &str, phone_number: &str) -> (r: Self)
        ensures
            r.username@.len() == 0,
            r.url@ == url@,
            r.phone_number@ == phone_number@,
    {
        UploadMediaRequest {
            username: String::new(),
            url: url.to_owned(),
            phone_number: phone_number.to_owned(),
        }
    }
}

/// Response to a media upload.
#[derive(Debug, Clone, PartialEq, Eq)]
pub struct UploadMediaResponse {
    /// Status message.
    pub status: String,
    /// Error message if the upload failed.
    pub error_message: Option<String>,
}

/// What one character of text becomes inside an XML text node.
pub open spec fn escape_char(c: char) -> Seq<char> {
    if c == '&' {
        "&amp;"@
    } else if c == '<' {
        "&lt;"@
    } else if c == '>' {
        "&gt;"@
    } else if c == '"' {
        "&quot;"@
    } else if c == '\'' {
        "&apos;"@
    } else {
        seq![c]
    }
}

/// The XML-escaped form of a text: each character replaced by its
/// escape, in order.
pub open spec fn escape_xml_text(s: Seq<char>) -> Seq<char>
    decreases s.len(),
{
    if s.len() == 0 {
        Seq::empty()
    } else {
        escape_xml_text(s.drop_last()) + escape_char(s.last())
    }
}

/// Escapes the five XML-special characters of a text.
pub fn escape_xml(s: &str) -> (r: String)
    ensures
        r@ == escape_xml_text(s@),
{
    let n = s.unicode_len();
    let mut out = String::new();
    let mut i: usize = 0;
    proof {
        assert(s@.take(0) =~= Seq::<char>::empty());
    }
    while i < n
        invariant
            i <= n,
            n == s@.len(),
            out@ == escape_xml_text(s@.take(i as int)),
        decreases n - i,
    {
        proof {
            assert(s@.take(i as int + 1).drop_last() =~= s@.take(i as int));
        }
        let c = s.get_char(i);
        if c == '&' {
            out.append("&amp;");
        } else if c == '<' {
            out.append("&lt;");
        } else if c == '>' {
            out.append("&gt;");
        } else if c == '"' {
            out.append("&quot;");
        } else if c == '\'' {
            out.append("&apos;");
        } else {
            push_char(&mut out, c);
        }
        i = i + 1;
    }
    proof {
        assert(s@.take(n as int) =~= s@);
    }
    out
}

/// The textual form a boolean attribute takes.
pub open spec fn spec_bool_string(b: bool) -> Seq<char> {
    if b {
        "true"@
    } else {
        "false"@
    }
}

fn bool_to_str(b: bool) -> (r: &'static str)
    ensures
        r@ == spec_bool_string(b),
{
    if b {
        "true"
    } else {
        "false"
    }
}

fn opt_str_attr(prefix: &str, value: &Option<String>) -> (r: String)
    ensures
        r@ == (match *value {
            Some(v) => prefix@ + v@ + "\""@,
            None => Seq::<char>::empty(),
        }),
{
    match value {
        None => String::new(),
        Some(v) => {
            let mut s = prefix.to_owned();
            s.append(v.as_str());
            s.append("\"");
            s
        },
    }
}

fn opt_u32_attr(prefix: &str, value: &Option<u32>) -> (r: String)
    ensures
        r@ == (match *value {
            Some(n) => prefix@ + spec_nat_string(n as nat) + "\""@,
            None => Seq::<char>::empty(),
        }),
{
    match value {
        None => String::new(),
        Some(n) => {
            let mut s = prefix.to_owned();
            let digits = u64_to_string(*n as u64);
            s.append(digits.as_str());
            s.append("\"");
            s
        },
    }
}

fn opt_bool_attr(prefix: &str, value: &Option<bool>) -> (r: String)
    ensures
        r@ == (match *value {
            Some(b) => prefix@ + spec_bool_string(b) + "\""@,
            None => Seq::<char>::empty(),
        }),
{
    match value {
        None => String::new(),
        Some(b) => {
            let mut s = prefix.to_owned();
            s.append(bool_to_str(*b));
            s.append("\"");
            s
        },
    }
}

fn opt_char_attr(prefix: &str, value: &Option<char>) -> (r: String)
    ensures
        r@ == (match *value {
            Some(c) => prefix@ + seq![c] + "\""@,
            None => Seq::<char>::empty(),
        }),
{
    match value {
        None => String::new(),
        Some(c) => {
            let mut s = prefix.to_owned();
            push_char(&mut s, *c);
            s.append("\"");
            s
        },
    }
}

/// Mathematical shape of [`SayAttributes`].
pub struct SayAttributesModel {
    /// The voice to use, when set.
    pub voice: Option<Seq<char>>,
    /// Whether to play a beep first, when set.
    pub play_beep: Option<bool>,
}

/// Attributes for a text-to-speech action.
#[derive(Debug, Clone, PartialEq, Eq)]
pub struct SayAttributes {
    /// Voice to use (male or female).
    pub voice: Option<String>,
    /// Play a beep before speaking.
    pub play_beep: Option<bool>,
}

impl View for SayAttributes {
    type V = SayAttributesModel;

    open spec fn view(&self) -> SayAttributesModel {
        SayAttributesModel {
            voice: match self.voice {
                Some(v) => Some(v@),
                None => None,
            },
            play_beep: self.play_beep,
        }
    }
}

/// The attributes, when given, of a say element.
pub open spec fn spec_say_attrs(attrs: Option<SayAttributesModel>) -> Seq<char> {
    match attrs {
        None => Seq::empty(),
        Some(a) => (match a.voice {
            Some(v) => " voice=\""@ + v + "\""@,
            None => Seq::<char>::empty(),
        }) + (match a.play_beep {
            Some(b) => " playBeep=\""@ + spec_bool_string(b) + "\""@,
            None => Seq::<char>::empty(),
        }),
    }
}

/// The shape of the option an exec-side optional attribute set takes.
pub open spec fn spec_attrs_of(attrs: Option<SayAttributes>) -> Option<SayAttributesModel> {
    match attrs {
        Some(a) => Some(a@),
        None => None,
    }
}

/// A complete say element: attributes, then the escaped text.
pub open spec fn spec_say_xml(text: Seq<char>, attrs: Option<SayAttributesModel>) -> Seq<char> {
    "<Say"@ + spec_say_attrs(attrs) + ">"@ + escape_xml_text(text) + "</Say>"@
}

/// A play element for an audio URL.
pub open spec fn spec_play_xml(url: Seq<char>) -> Seq<char> {
    "<Play url=\""@ + url + "\"/>"@
}

fn say_attrs_fragment(attributes: &Option<SayAttributes>) -> (r: String)
    ensures
        r@ == spec_say_attrs(spec_attrs_of(*attributes)),
{
    match attributes {
        None => String::new(),
        Some(attrs) => {
            let mut s = opt_str_attr(" voice=\"", &attrs.voice);
            let beep = opt_bool_attr(" playBeep=\"", &attrs.play_beep);
            s.append(beep.as_str());
            s
        },
    }
}

fn say_fragment(text: &str, attributes: &Option<SayAttributes>) -> (r: String)
    ensures
        r@ == spec_say_xml(text@, spec_attrs_of(*attributes)),
{
    let mut s: String = "<Say".to_owned();
    let attrs_run = say_attrs_fragment(attributes);
    s.append(attrs_run.as_str());
    s.append(">");
    let escaped = escape_xml(text);
    s.append(escaped.as_str());
    s.append("</Say>");
    s
}

fn play_fragment(url: &str) -> (r: String)
    ensures
        r@ == spec_play_xml(url@),
{
    let mut s: String = "<Play url=\"".to_owned();
    s.append(url);
    s.append("\"/>");
    s
}

/// Mathematical shape of a [`GetDigitsAction`].
pub struct GetDigitsModel {
    /// The key that ends input, when set.
    pub finish_on_key: Option<char>,
    /// How many digits to collect, when set.
    pub num_digits: Option<u32>,
    /// The input timeout in seconds, when set.
    pub timeout: Option<u32>,
    /// Where to post the digits, when set.
    pub callback_url: Option<Seq<char>>,
    /// The prompt spoken, when set.
    pub say_text: Option<(Seq<char>, Option<SayAttributesModel>)>,
    /// The prompt played, when set and nothing is spoken.
    pub play_url: Option<Seq<char>>,
}

/// Builder for a get-digits element: collect DTMF digits from the
/// caller, optionally prompting first.
#[derive(Debug, Clone, PartialEq, Eq)]
pub struct GetDigitsAction {
    finish_on_key: Option<char>,
    num_digits: Option<u32>,
    timeout: Option<u32>,
    callback_url: Option<String>,
    say_text: Option<(String, Option<SayAttributes>)>,
    play_url: Option<String>,
}

impl View for GetDigitsAction {
    type V = GetDigitsModel;

    closed spec fn view(&self) -> GetDigitsModel {
        GetDigitsModel {
            finish_on_key: self.finish_on_key,
            num_digits: self.num_digits,
            timeout: self.timeout,
            callback_url: match self.callback_url {
                Some(u) => Some(u@),
                None => None,
            },
            say_text: match self.say_text {
                Some((t, a)) => Some((t@, spec_attrs_of(a))),
                None => None,
            },
            play_url: match self.play_url {
                Some(u) => Some(u@),
                None => None,
            },
        }
    }
}

/// The prompt a get-digits or record element carries: the spoken text
/// when one is set, else the played URL, else nothing.
pub open spec fn spec_prompt_xml(
    say_text: Option<(Seq<char>, Option<SayAttributesModel>)>,
    play_url: Option<Seq<char>>,
) -> Seq<char> {
    match say_text {
        Some(t) => spec_say_xml(t.0, t.1),
        None => match play_url {
            Some(u) => spec_play_xml(u),
            None => Seq::<char>::empty(),
        },
    }
}

fn prompt_fragment(
    say_text: &Option<(String, Option<SayAttributes>)>,
    play_url: &Option<String>,
) -> (r: String)
    ensures
        r@ == spec_prompt_xml(
            match *say_text {
                Some((t, a)) => Some((t@, spec_attrs_of(a))),
                None => None,
            },
            match *play_url {
                Some(u) => Some(u@),
                None => None,
            },
        ),
{
    match say_text {
        Some(pair) => say_fragment(pair.0.as_str(), &pair.1),
        None => {
            match play_url {
                Some(url) => play_fragment(url.as_str()),
                None => String::new(),
            }
        },
    }
}

/// The rendered get-digits element.
pub open spec fn spec_get_digits_xml(g: GetDigitsModel) -> Seq<char> {
    "<GetDigits"@ + (match g.finish_on_key {
        Some(c) => " finishOnKey=\""@ + seq![c] + "\""@,
        None => Seq::<char>::empty(),
    }) + (match g.num_digits {
        Some(n) => " numDigits=\""@ + spec_nat_string(n as nat) + "\""@,
        None => Seq::<char>::empty(),
    }) + (match g.timeout {
        Some(n) => " timeout=\""@ + spec_nat_string(n as nat) + "\""@,
        None => Seq::<char>::empty(),
    }) + (match g.callback_url {
        Some(v) => " callbackUrl=\""@ + v + "\""@,
        None => Seq::<char>::empty(),
    }) + ">"@ + spec_prompt_xml(g.say_text, g.play_url) + "</GetDigits>"@
}

impl GetDigitsAction {
    /// An empty get-digits element.
    pub fn new() -> (r: Self)
        ensures
            r@.finish_on_key is None,
            r@.num_digits is None,
            r@.timeout is None,
            r@.callback_url is None,
            r@.say_text is None,
            r@.play_url is None,
    {
        GetDigitsAction {
            finish_on_key: None,
            num_digits: None,
            timeout: None,
            callback_url: None,
            say_text: None,
            play_url: None,
        }
    }

    /// Sets the key that ends input.
    pub fn finish_on_key(self, key: char) -> (r: Self)
        ensures
            r@ == (GetDigitsModel { finish_on_key: Some(key), ..self@ }),
    {
        GetDigitsAction { finish_on_key: Some(key), ..self }
    }

    /// Sets how many digits to collect.
    pub fn num_digits(self, num: u32) -> (r: Self)
        ensures
            r@ == (GetDigitsModel { num_digits: Some(num), ..self@ }),
    {
        GetDigitsAction { num_digits: Some(num), ..self }
    }

    /// Sets the input timeout, in seconds.
    pub fn timeout(self, seconds: u32) -> (r: Self)
        ensures
            r@ == (GetDigitsModel { timeout: Some(seconds), ..self@ }),
    {
        GetDigitsAction { timeout: Some(seconds), ..self }
    }

    /// Sets where the collected digits are posted.
    pub fn callback_url(self, url: &str) -> (r: Self)
        ensures
            r@ == (GetDigitsModel { callback_url: Some(url@), ..self@ }),
    {
        GetDigitsAction { callback_url: Some(url.to_owned()), ..self }
    }

    /// Sets a spoken prompt.
    pub fn say(self, text: &str, attrs: Option<SayAttributes>) -> (r: Self)
        ensures
            r@ == (GetDigitsModel {
                say_text: Some((text@, spec_attrs_of(attrs))),
                ..self@
            }),
    {
        GetDigitsAction { say_text: Some((text.to_owned(), attrs)), ..self }
    }

    /// Sets a played prompt.
    pub fn play(self, url: &str) -> (r: Self)
        ensures
            r@ == (GetDigitsModel { play_url: Some(url@), ..self@ }),
    {
        GetDigitsAction { play_url: Some(url.to_owned()), ..self }
    }

    fn to_xml(&self) -> (r: String)
        ensures
            r@ == spec_get_digits_xml(self@),
    {
        let mut xml: String = "<GetDigits".to_owned();
        let finish = opt_char_attr(" finishOnKey=\"", &self.finish_on_key);
        xml.append(finish.as_str());
        let num = opt_u32_attr(" numDigits=\"", &self.num_digits);
        xml.append(num.as_str());
        let timeout = opt_u32_attr(" timeout=\"", &self.timeout);
        xml.append(timeout.as_str());
        let callback = opt_str_attr(" callbackUrl=\"", &self.callback_url);
        xml.append(callback.as_str());
        xml.append(">");
        let prompt = prompt_fragment(&self.say_text, &self.play_url);
        xml.append(prompt.as_str());
        xml.append("</GetDigits>");
        xml
    }
}

impl Default for GetDigitsAction {
    /// Same as [`GetDigitsAction::new`]: an empty element.
    fn default() -> (r: Self)
        ensures
            r@.finish_on_key is None,
            r@.num_digits is None,
            r@.timeout is None,
            r@.callback_url is None,
            r@.say_text is None,
            r@.play_url is None,
    {
        GetDigitsAction::new()
    }
}

/// Mathematical shape of a [`DialAction`].
pub struct DialModel {
    /// The joined recipient numbers.
    pub phone_numbers: Seq<char>,
    /// The caller id presented, when set.
    pub caller_id: Option<Seq<char>>,
    /// Whether to record the call, when set.
    pub record: Option<bool>,
    /// Whether to ring the numbers one by one, when set.
    pub sequential: Option<bool>,
    /// The call's duration ceiling in seconds, when set.
    pub max_duration: Option<u32>,
    /// The ring-back tone played, when set.
    pub ring_back_tone: Option<Seq<char>>,
}

/// Builder for a dial element: bridge the caller to other numbers.
#[derive(Debug, Clone, PartialEq, Eq)]
pub struct DialAction {
    phone_numbers: String,
    caller_id: Option<String>,
    record: Option<bool>,
    sequential: Option<bool>,
    max_duration: Option<u32>,
    ring_back_tone: Option<String>,
}

impl View for DialAction {
    type V = DialModel;

    closed spec fn view(&self) -> DialModel {
        DialModel {
            phone_numbers: self.phone_numbers@,
            caller_id: match self.caller_id {
                Some(c) => Some(c@),
                None => None,
            },
            record: self.record,
            sequential: self.sequential,
            max_duration: self.max_duration,
            ring_back_tone: match self.ring_back_tone {
                Some(t) => Some(t@),
                None => None,
            },
        }
    }
}

/// The rendered dial element.
pub open spec fn spec_dial_xml(d: DialModel) -> Seq<char> {
    "<Dial phoneNumbers=\""@ + d.phone_numbers + "\""@ + (match d.caller_id {
        Some(v) => " callerId=\""@ + v + "\""@,
        None => Seq::<char>::empty(),
    }) + (match d.record {
        Some(b) => " record=\""@ + spec_bool_string(b) + "\""@,
        None => Seq::<char>::empty(),
    }) + (match d.sequential {
        Some(b) => " sequential=\""@ + spec_bool_string(b) + "\""@,
        None => Seq::<char>::empty(),
    }) + (match d.max_duration {
        Some(n) => " maxDuration=\""@ + spec_nat_string(n as nat) + "\""@,
        None => Seq::<char>::empty(),
    }) + (match d.ring_back_tone {
        Some(v) => " ringBackTone=\""@ + v + "\""@,
        None => Seq::<char>::empty(),
    }) + "/>"@
}

impl DialAction {
    /// A dial element for the given numbers, joined with commas.
    pub fn new(phone_numbers: Vec<String>) -> (r: Self)
        ensures
            r@.phone_numbers == join_comma(phone_numbers.deep_view()),
            r@.caller_id is None,
            r@.record is None,
            r@.sequential is None,
            r@.max_duration is None,
            r@.ring_back_tone is None,
    {
        DialAction {
            phone_numbers: join_with_commas(&phone_numbers),
            caller_id: None,
            record: None,
            sequential: None,
            max_duration: None,
            ring_back_tone: None,
        }
    }

    /// Sets the caller id presented.
    pub fn caller_id(self, id: &str) -> (r: Self)
        ensures
            r@ == (DialModel { caller_id: Some(id@), ..self@ }),
    {
        DialAction { caller_id: Some(id.to_owned()), ..self }
    }

    /// Switches call recording on or off.
    pub fn record(self, enable: bool) -> (r: Self)
        ensures
            r@ == (DialModel { record: Some(enable), ..self@ }),
    {
        DialAction { record: Some(enable), ..self }
    }

    /// Switches sequential ringing on or off.
    pub fn sequential(self, enable: bool) -> (r: Self)
        ensures
            r@ == (DialModel { sequential: Some(enable), ..self@ }),
    {
        DialAction { sequential: Some(enable), ..self }
    }

    /// Sets the call's duration ceiling, in seconds.
    pub fn max_duration(self, seconds: u32) -> (r: Self)
        ensures
            r@ == (DialModel { max_duration: Some(seconds), ..self@ }),
    {
        DialAction { max_duration: Some(seconds), ..self }
    }

    /// Sets the ring-back tone played while waiting.
    pub fn ring_back_tone(self, url: &str) -> (r: Self)
        ensures
            r@ == (DialModel { ring_back_tone: Some(url@), ..self@ }),
    {
        DialAction { ring_back_tone: Some(url.to_owned()), ..self }
    }

    fn to_xml(&self) -> (r: String)
        ensures
            r@ == spec_dial_xml(self@),
    {
        let mut xml: String = "<Dial phoneNumbers=\"".to_owned();
        xml.append(self.phone_numbers.as_str());
        xml.append("\"");
        let caller = opt_str_attr(" callerId=\"", &self.caller_id);
        xml.append(caller.as_str());
        let rec = opt_bool_attr(" record=\"", &self.record);
        xml.append(rec.as_str());
        let sequential = opt_bool_attr(" sequential=\"", &self.sequential);
        xml.append(sequential.as_str());
        let duration = opt_u32_attr(" maxDuration=\"", &self.max_duration);
        xml.append(duration.as_str());
        let tone = opt_str_attr(" ringBackTone=\"", &self.ring_back_tone);
        xml.append(tone.as_str());
        xml.append("/>");
        xml
    }
}

/// Mathematical shape of a [`RecordAction`].
pub struct RecordModel {
    /// The key that ends recording, when set.
    pub finish_on_key: Option<char>,
    /// The recording's length ceiling in seconds, when set.
    pub max_length: Option<u32>,
    /// The silence timeout in seconds, when set.
    pub timeout: Option<u32>,
    /// Whether to play a beep first, when set.
    pub play_beep: Option<bool>,
    /// Whether to trim trailing silence, when set.
    pub trim_silence: Option<bool>,
    /// Where to post the recording, when set.
    pub callback_url: Option<Seq<char>>,
    /// The prompt spoken, when set.
    pub say_text: Option<(Seq<char>, Option<SayAttributesModel>)>,
    /// The prompt played, when set and nothing is spoken.
    pub play_url: Option<Seq<char>>,
}

/// Builder for a record element: record the caller, optionally
/// prompting first.
#[derive(Debug, Clone, PartialEq, Eq)]
pub struct RecordAction {
    finish_on_key: Option<char>,
    max_length: Option<u32>,
    timeout: Option<u32>,
    play_beep: Option<bool>,
    trim_silence: Option<bool>,
    callback_url: Option<String>,
    say_text: Option<(String, Option<SayAttributes>)>,
    play_url: Option<String>,
}

impl View for RecordAction {
    type V = RecordModel;

    closed spec fn view(&self) -> RecordModel {
        RecordModel {
            finish_on_key: self.finish_on_key,
            max_length: self.max_length,
            timeout: self.timeout,
            play_beep: self.play_beep,
            trim_silence: self.trim_silence,
            callback_url: match self.callback_url {
                Some(u) => Some(u@),
                None => None,
            },
            say_text: match self.say_text {
                Some((t, a)) => Some((t@, spec_attrs_of(a))),
                None => None,
            },
            play_url: match self.play_url {
                Some(u) => Some(u@),
                None => None,
            },
        }
    }
}

/// The rendered record element.
pub open spec fn spec_record_xml(r: RecordModel) -> Seq<char> {
    "<Record"@ + (match r.finish_on_key {
        Some(c) => " finishOnKey=\""@ + seq![c] + "\""@,
        None => Seq::<char>::empty(),
    }) + (match r.max_length {
        Some(n) => " maxLength=\""@ + spec_nat_string(n as nat) + "\""@,
        None => Seq::<char>::empty(),
    }) + (match r.timeout {
        Some(n) => " timeout=\""@ + spec_nat_string(n as nat) + "\""@,
        None => Seq::<char>::empty(),
    }) + (match r.play_beep {
        Some(b) => " playBeep=\""@ + spec_bool_string(b) + "\""@,
        None => Seq::<char>::empty(),
    }) + (match r.trim_silence {
        Some(b) => " trimSilence=\""@ + spec_bool_string(b) + "\""@,
        None => Seq::<char>::empty(),
    }) + (match r.callback_url {
        Some(v) => " callbackUrl=\""@ + v + "\""@,
        None => Seq::<char>::empty(),
    }) + ">"@ + spec_prompt_xml(r.say_text, r.play_url) + "</Record>"@
}

impl RecordAction {
    /// An empty record element.
    pub fn new() -> (r: Self)
        ensures
            r@.finish_on_key is None,
            r@.max_length is None,
            r@.timeout is None,
            r@.play_beep is None,
            r@.trim_silence is None,
            r@.callback_url is None,
            r@.say_text is None,
            r@.play_url is None,
    {
        RecordAction {
            finish_on_key: None,
            max_length: None,
            timeout: None,
            play_beep: None,
            trim_silence: None,
            callback_url: None,
            say_text: None,
            play_url: None,
        }
    }

    /// Sets the key that ends recording.
    pub fn finish_on_key(self, key: char) -> (r: Self)
        ensures
            r@ == (RecordModel { finish_on_key: Some(key), ..self@ }),
    {
        RecordAction { finish_on_key: Some(key), ..self }
    }

    /// Sets the recording's length ceiling, in seconds.
    pub fn max_length(self, seconds: u32) -> (r: Self)
        ensures
            r@ == (RecordModel { max_length: Some(seconds), ..self@ }),
    {
        RecordAction { max_length: Some(seconds), ..self }
    }

    /// Sets the silence timeout, in seconds.
    pub fn timeout(self, seconds: u32) -> (r: Self)
        ensures
            r@ == (RecordModel { timeout: Some(seconds), ..self@ }),
    {
        RecordAction { timeout: Some(seconds), ..self }
    }

    /// Switches the starting beep on or off.
    pub fn play_beep(self, enable: bool) -> (r: Self)
        ensures
            r@ == (RecordModel { play_beep: Some(enable), ..self@ }),
    {
        RecordAction { play_beep: Some(enable), ..self }
    }

    /// Switches trailing-silence trimming on or off.
    pub fn trim_silence(self, enable: bool) -> (r: Self)
        ensures
            r@ == (RecordModel { trim_silence: Some(enable), ..self@ }),
    {
        RecordAction { trim_silence: Some(enable), ..self }
    }

    /// Sets where the recording is posted.
    pub fn callback_url(self, url: &str) -> (r: Self)
        ensures
            r@ == (RecordModel { callback_url: Some(url@), ..self@ }),
    {
        RecordAction { callback_url: Some(url.to_owned()), ..self }
    }

    /// Sets a spoken prompt.
    pub fn say(self, text: &str, attrs: Option<SayAttributes>) -> (r: Self)
        ensures
            r@ == (RecordModel { say_text: Some((text@, spec_attrs_of(attrs))), ..self@ }),
    {
        RecordAction { say_text: Some((text.to_owned(), attrs)), ..self }
    }

    /// Sets a played prompt.
    pub fn play(self, url: &str) -> (r: Self)
        ensures
            r@ == (RecordModel { play_url: Some(url@), ..self@ }),
    {
        RecordAction { play_url: Some(url.to_owned()), ..self }
    }

    fn to_xml(&self) -> (r: String)
        ensures
            r@ == spec_record_xml(self@),
    {
        let mut xml: String = "<Record".to_owned();
        let finish = opt_char_attr(" finishOnKey=\"", &self.finish_on_key);
        xml.append(finish.as_str());
        let len = opt_u32_attr(" maxLength=\"", &self.max_length);
        xml.append(len.as_str());
        let timeout = opt_u32_attr(" timeout=\"", &self.timeout);
        xml.append(timeout.as_str());
        let beep = opt_bool_attr(" playBeep=\"", &self.play_beep);
        xml.append(beep.as_str());
        let trim = opt_bool_attr(" trimSilence=\"", &self.trim_silence);
        xml.append(trim.as_str());
        let callback = opt_str_attr(" callbackUrl=\"", &self.callback_url);
        xml.append(callback.as_str());
        xml.append(">");
        let prompt = prompt_fragment(&self.say_text, &self.play_url);
        xml.append(prompt.as_str());
        xml.append("</Record>");
        xml
    }
}

impl Default for RecordAction {
    /// Same as [`RecordAction::new`]: an empty element.
    fn default() -> (r: Self)
        ensures
            r@.finish_on_key is None,
            r@.max_length is None,
            r@.timeout is None,
            r@.play_beep is None,
            r@.trim_silence is None,
            r@.callback_url is None,
            r@.say_text is None,
            r@.play_url is None,
    {
        RecordAction::new()
    }
}

/// Mathematical shape of [`EnqueueAttributes`].
pub struct EnqueueModel {
    /// The hold music played, when set.
    pub hold_music: Option<Seq<char>>,
    /// The queue's name, when set.
    pub name: Option<Seq<char>>,
}

/// Attributes for an enqueue action.
#[derive(Debug, Clone, PartialEq, Eq)]
pub struct EnqueueAttributes {
    /// URL of the music played while the caller waits.
    pub hold_music: Option<String>,
    /// The queue to join.
    pub name: Option<String>,
}

impl View for EnqueueAttributes {
    type V = EnqueueModel;

    open spec fn view(&self) -> EnqueueModel {
        EnqueueModel {
            hold_music: match self.hold_music {
                Some(m) => Some(m@),
                None => None,
            },
            name: match self.name {
                Some(n) => Some(n@),
                None => None,
            },
        }
    }
}

/// The attributes, when given, of an enqueue element.
pub open spec fn spec_enqueue_attrs(attrs: Option<EnqueueModel>) -> Seq<char> {
    match attrs {
        None => Seq::empty(),
        Some(a) => (match a.hold_music {
            Some(v) => " holdMusic=\""@ + v + "\""@,
            None => Seq::<char>::empty(),
        }) + (match a.name {
            Some(v) => " name=\""@ + v + "\""@,
            None => Seq::<char>::empty(),
        }),
    }
}

/// The shape of the option an exec-side enqueue attribute set takes.
pub open spec fn spec_enqueue_of(attrs: Option<EnqueueAttributes>) -> Option<EnqueueModel> {
    match attrs {
        Some(a) => Some(a@),
        None => None,
    }
}

fn enqueue_attrs_fragment(attributes: &Option<EnqueueAttributes>) -> (r: String)
    ensures
        r@ == spec_enqueue_attrs(spec_enqueue_of(*attributes)),
{
    match attributes {
        None => String::new(),
        Some(attrs) => {
            let mut s = opt_str_attr(" holdMusic=\"", &attrs.hold_music);
            let name = opt_str_attr(" name=\"", &attrs.name);
            s.append(name.as_str());
            s
        },
    }
}

/// Mathematical shape of an [`ActionBuilder`].
pub struct BuilderModel {
    /// The XML accumulated so far.
    pub xml: Seq<char>,
    /// Whether the closing tag has been written.
    pub finalized: bool,
}

/// Builder for the XML response that tells the gateway how to handle a
/// call: a fixed header, any number of action elements, and a closing
/// tag written once by [`ActionBuilder::build`].
#[derive(Debug, Clone, PartialEq, Eq)]
pub struct ActionBuilder {
    xml: String,
    finalized: bool,
}

impl View for ActionBuilder {
    type V = BuilderModel;

    closed spec fn view(&self) -> BuilderModel {
        BuilderModel { xml: self.xml@, finalized: self.finalized }
    }
}

impl ActionBuilder {
    /// A builder holding the XML declaration and the opened response
    /// element.
    pub fn new() -> (r: Self)
        ensures
            r@.xml == "<?xml version=\"1.0\" encoding=\"UTF-8\"?><Response>"@,
            !r@.finalized,
    {
        ActionBuilder {
            xml: "<?xml version=\"1.0\" encoding=\"UTF-8\"?><Response>".to_owned(),
            finalized: false,
        }
    }

    /// Appends a text-to-speech action.
    pub fn say(self, text: &str, attributes: Option<SayAttributes>) -> (r: Self)
        requires
            !self@.finalized,
        ensures
            r@.xml == self@.xml + spec_say_xml(text@, spec_attrs_of(attributes)),
            !r@.finalized,
    {
        let mut xml = self.xml;
        let fragment = say_fragment(text, &attributes);
        xml.append(fragment.as_str());
        ActionBuilder { xml, finalized: false }
    }

    /// Appends a play action for an audio URL.
    pub fn play(self, url: &str) -> (r: Self)
        requires
            !self@.finalized,
        ensures
            r@.xml == self@.xml + spec_play_xml(url@),
            !r@.finalized,
    {
        let mut xml = self.xml;
        let fragment = play_fragment(url);
        xml.append(fragment.as_str());
        ActionBuilder { xml, finalized: false }
    }

    /// Appends a get-digits action.
    pub fn get_digits(self, action: GetDigitsAction) -> (r: Self)
        requires
            !self@.finalized,
        ensures
            r@.xml == self@.xml + spec_get_digits_xml(action@),
            !r@.finalized,
    {
        let mut xml = self.xml;
        let fragment = action.to_xml();
        xml.append(fragment.as_str());
        ActionBuilder { xml, finalized: false }
    }

    /// Appends a dial action.
    pub fn dial(self, action: DialAction) -> (r: Self)
        requires
            !self@.finalized,
        ensures
            r@.xml == self@.xml + spec_dial_xml(action@),
            !r@.finalized,
    {
        let mut xml = self.xml;
        let fragment = action.to_xml();
        xml.append(fragment.as_str());
        ActionBuilder { xml, finalized: false }
    }

    /// Appends a record action.
    pub fn record(self, action: RecordAction) -> (r: Self)
        requires
            !self@.finalized,
        ensures
            r@.xml == self@.xml + spec_record_xml(action@),
            !r@.finalized,
    {
        let mut xml = self.xml;
        let fragment = action.to_xml();
        xml.append(fragment.as_str());
        ActionBuilder { xml, finalized: false }
    }

    /// Appends an enqueue action.
    pub fn enqueue(self, attributes: Option<EnqueueAttributes>) -> (r: Self)
        requires
            !self@.finalized,
        ensures
            r@.xml == self@.xml + "<Enqueue"@ + spec_enqueue_attrs(spec_enqueue_of(attributes))
                + "/>"@,
            !r@.finalized,
    {
        let mut xml = self.xml;
        xml.append("<Enqueue");
        let attrs_run = enqueue_attrs_fragment(&attributes);
        xml.append(attrs_run.as_str());
        xml.append("/>");
        ActionBuilder { xml, finalized: false }
    }

    /// Appends a dequeue action, bridging the queued caller to this
    /// number.
    pub fn dequeue(self, phone_number: &str, name: Option<String>) -> (r: Self)
        requires
            !self@.finalized,
        ensures
            r@.xml == self@.xml + "<Dequeue phoneNumber=\""@ + phone_number@ + "\""@ + (match
                name {
                Some(n) => " name=\""@ + n@ + "\""@,
                None => Seq::<char>::empty(),
            }) + "/>"@,
            !r@.finalized,
    {
        let mut xml = self.xml;
        xml.append("<Dequeue phoneNumber=\"");
        xml.append(phone_number);
        xml.append("\"");
        let name_attr = opt_str_attr(" name=\"", &name);
        xml.append(name_attr.as_str());
        xml.append("/>");
        ActionBuilder { xml, finalized: false }
    }

    /// Appends a redirect action to another handler URL.
    pub fn redirect(self, url: &str) -> (r: Self)
        requires
            !self@.finalized,
        ensures
            r@.xml == self@.xml + "<Redirect>"@ + url@ + "</Redirect>"@,
            !r@.finalized,
    {
        let mut xml = self.xml;
        xml.append("<Redirect>");
        xml.append(url);
        xml.append("</Redirect>");
        ActionBuilder { xml, finalized: false }
    }

    /// Appends a conference action.
    pub fn conference(self) -> (r: Self)
        requires
            !self@.finalized,
        ensures
            r@.xml == self@.xml + "<Conference/>"@,
            !r@.finalized,
    {
        let mut xml = self.xml;
        xml.append("<Conference/>");
        ActionBuilder { xml, finalized: false }
    }

    /// Appends a reject action.
    pub fn reject(self) -> (r: Self)
        requires
            !self@.finalized,
        ensures
            r@.xml == self@.xml + "<Reject/>"@,
            !r@.finalized,
    {
        let mut xml = self.xml;
        xml.append("<Reject/>");
        ActionBuilder { xml, finalized: false }
    }

    /// Closes the response element and hands the finished XML out.
    pub fn build(self) -> (r: String)
        ensures
            r@ == self@.xml + "</Response>"@,
    {
        let mut xml = self.xml;
        xml.append("</Response>");
        xml
    }
}

impl Default for ActionBuilder {
    /// Same as [`ActionBuilder::new`]: the header with nothing appended.
    fn default() -> (r: Self)
        ensures
            r@.xml == "<?xml version=\"1.0\" encoding=\"UTF-8\"?><Response>"@,
            !r@.finalized,
    {
        ActionBuilder::new()
    }
}

} // verus!
