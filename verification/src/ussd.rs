//! The USSD core: the gateway's accumulated-input convention parsed into a
//! navigation path, and the `CON`/`END` wire directives with their menu
//! builder.
//!
//! A session's `text` is every input the user entered so far, joined with
//! `*`. Everything here is derived purely from that string.

use vstd::prelude::*;

use crate::strutil::is_prefix_of;
use crate::strutil::str_eq;
use crate::strutil::str_starts_with;

verus! {

/// Number of `*` delimiters in `s`.
pub open spec fn count_delimiters(s: Seq<char>) -> nat
    decreases s.len(),
{
    if s.len() == 0 {
        0
    } else {
        count_delimiters(s.drop_last()) + if s.last() == '*' {
            1nat
        } else {
            0nat
        }
    }
}

/// Navigation depth of an accumulated-input string: zero when empty, else
/// one more than the number of delimiters.
pub open spec fn spec_depth(s: Seq<char>) -> nat {
    if s.len() == 0 {
        0
    } else {
        count_delimiters(s) + 1
    }
}

/// The substring after the last `*` (the whole string when it has none).
pub open spec fn last_segment(s: Seq<char>) -> Seq<char>
    decreases s.len(),
{
    if s.len() == 0 {
        Seq::empty()
    } else if s.last() == '*' {
        Seq::empty()
    } else {
        last_segment(s.drop_last()).push(s.last())
    }
}

/// The full split of `s` on `*`, preserving empty segments; splitting the
/// empty string yields one empty segment.
pub open spec fn path_segments(s: Seq<char>) -> Seq<Seq<char>>
    decreases s.len(),
{
    if s.len() == 0 {
        seq![Seq::<char>::empty()]
    } else if s.last() == '*' {
        path_segments(s.drop_last()).push(Seq::empty())
    } else {
        let rest = path_segments(s.drop_last());
        rest.update(rest.len() - 1, rest.last().push(s.last()))
    }
}

/// A split always has one segment per delimiter, plus one.
pub proof fn lemma_path_segments_len(s: Seq<char>)
    ensures
        path_segments(s).len() == count_delimiters(s) + 1,
    decreases s.len(),
{
    if s.len() > 0 {
        lemma_path_segments_len(s.drop_last());
    }
}

/// The current input is the last path segment: the substring after the
/// last delimiter is exactly the final element of the full split.
pub proof fn lemma_last_segment_is_last(s: Seq<char>)
    ensures
        path_segments(s).last() == last_segment(s),
    decreases s.len(),
{
    if s.len() > 0 {
        lemma_path_segments_len(s.drop_last());
        lemma_last_segment_is_last(s.drop_last());
    }
}

/// USSD request payload as delivered by the gateway for one interaction.
#[derive(Debug, Clone, PartialEq, Eq)]
pub struct UssdRequest {
    /// Unique session identifier, stable for the lifetime of one session.
    pub session_id: String,
    /// The short code the user dialled (e.g. `*384*123#`).
    pub service_code: String,
    /// Caller's phone number as delivered by the gateway.
    pub phone_number: String,
    /// Accumulated user input: empty on the first interaction, then every
    /// input so far joined with `*`.
    pub text: String,
    /// Carrier identifier string, used only for display lookup.
    pub network_code: String,
}

impl UssdRequest {
    /// Builds a request from its five fields.
    pub fn new(
        session_id: &str,
        service_code: &str,
        phone_number: &str,
        text: &str,
        network_code: &str,
    ) -> (r: Self)
        ensures
            r.session_id@ == session_id@,
            r.service_code@ == service_code@,
            r.phone_number@ == phone_number@,
            r.text@ == text@,
            r.network_code@ == network_code@,
    {
        UssdRequest {
            session_id: session_id.to_owned(),
            service_code: service_code.to_owned(),
            phone_number: phone_number.to_owned(),
            text: text.to_owned(),
            network_code: network_code.to_owned(),
        }
    }

    /// True exactly on the first interaction of a session.
    pub fn is_initial(&self) -> (r: bool)
        ensures
            r == (self.text@.len() == 0),
    {
        self.text.as_str().is_empty()
    }

    /// Navigation depth: zero when the input is empty, else the number of
    /// delimiters plus one.
    pub fn depth(&self) -> (r: usize)
        requires
            self.text@.len() < usize::MAX,
        ensures
            r == spec_depth(self.text@),
    {
        let s = self.text.as_str();
        let n = s.unicode_len();
        if n == 0 {
            return 0;
        }
        let mut count: usize = 0;
        let mut i: usize = 0;
        while i < n
            invariant
                i <= n,
                n == s@.len(),
                count == count_delimiters(s@.take(i as int)),
                count <= i,
            decreases n - i,
        {
            proof {
                assert(s@.take(i as int + 1).drop_last() =~= s@.take(i as int));
            }
            if s.get_char(i) == '*' {
                count = count + 1;
            }
            i = i + 1;
        }
        proof {
            assert(s@.take(n as int) =~= s@);
        }
        count + 1
    }

    /// The most recent user input: `None` when the accumulated input is
    /// empty, else the (possibly empty) substring after the last delimiter.
    pub fn current_input(&self) -> (r: Option<&str>)
        ensures
            match r {
                None => self.text@.len() == 0,
                Some(seg) => self.text@.len() > 0 && seg@ == last_segment(self.text@),
            },
    {
        let s = self.text.as_str();
        let n = s.unicode_len();
        if n == 0 {
            return None;
        }
        let mut start: usize = 0;
        let mut i: usize = 0;
        while i < n
            invariant
                start <= i <= n,
                n == s@.len(),
                last_segment(s@.take(i as int)) == s@.subrange(start as int, i as int),
            decreases n - i,
        {
            proof {
                assert(s@.take(i as int + 1).drop_last() =~= s@.take(i as int));
            }
            if s.get_char(i) == '*' {
                start = i + 1;
                proof {
                    assert(last_segment(s@.take(i as int + 1)) =~= s@.subrange(i as int + 1, i as int + 1));
                }
            } else {
                proof {
                    assert(last_segment(s@.take(i as int + 1)) =~= s@.subrange(
                        start as int,
                        i + 1,
                    ));
                }
            }
            i = i + 1;
        }
        proof {
            assert(s@.take(n as int) =~= s@);
        }
        Some(s.substring_char(start, n))
    }

    /// The ordered sequence of all path segments; empty for an empty input.
    pub fn navigation_path(&self) -> (r: Vec<&str>)
        ensures
            self.text@.len() == 0 ==> r@.len() == 0,
            self.text@.len() > 0 ==> r.deep_view() == path_segments(self.text@),
    {
        let s = self.text.as_str();
        let n = s.unicode_len();
        let mut r: Vec<&str> = Vec::new();
        if n == 0 {
            return r;
        }
        let mut start: usize = 0;
        let mut i: usize = 0;
        proof {
            assert(s@.subrange(0, 0) =~= Seq::<char>::empty());
            assert(s@.take(0) =~= Seq::<char>::empty());
            assert(r.deep_view().push(s@.subrange(0, 0)) =~= path_segments(s@.take(0)));
        }
        while i < n
            invariant
                start <= i <= n,
                n == s@.len(),
                r.deep_view().push(s@.subrange(start as int, i as int)) == path_segments(
                    s@.take(i as int),
                ),
            decreases n - i,
        {
            proof {
                assert(s@.take(i as int + 1).drop_last() =~= s@.take(i as int));
            }
            if s.get_char(i) == '*' {
                let seg = s.substring_char(start, i);
                let ghost prev = r.deep_view();
                r.push(seg);
                proof {
                    assert(s@.subrange(i as int + 1, i as int + 1) =~= Seq::<char>::empty());
                    assert(r.deep_view() =~= prev.push(seg@));
                    assert(r.deep_view().push(s@.subrange(i as int + 1, i as int + 1))
                        =~= path_segments(s@.take(i as int)).push(Seq::<char>::empty()));
                }
                start = i + 1;
            } else {
                proof {
                    let rest = path_segments(s@.take(i as int));
                    assert(rest.last().push(s@[i as int]) =~= s@.subrange(
                        start as int,
                        i as int + 1,
                    ));
                    assert(rest.update(rest.len() - 1, rest.last().push(s@[i as int]))
                        =~= r.deep_view().push(s@.subrange(start as int, i as int + 1)));
                }
            }
            i = i + 1;
        }
        proof {
            assert(s@.take(n as int) =~= s@);
        }
        let seg = s.substring_char(start, n);
        let ghost prev = r.deep_view();
        r.push(seg);
        proof {
            assert(r.deep_view() =~= prev.push(seg@));
        }
        r
    }

    /// Exact string equality of the accumulated input against a pattern.
    pub fn matches_path(&self, pattern: &str) -> (r: bool)
        ensures
            r == (self.text@ == pattern@),
    {
        str_eq(self.text.as_str(), pattern)
    }

    /// Prefix test of a pattern against the raw accumulated input.
    pub fn starts_with_path(&self, pattern: &str) -> (r: bool)
        ensures
            r == is_prefix_of(pattern@, self.text@),
    {
        str_starts_with(self.text.as_str(), pattern)
    }
}

/// Status of a completed USSD session, as reported by the gateway's
/// end-of-session notification.
#[derive(Debug, Clone, Copy, PartialEq, Eq)]
pub enum UssdSessionStatus {
    /// The session was terminated while more input was expected.
    Incomplete,
    /// The session reached its expected end.
    Success,
    /// The session terminated due to a server error.
    Failed,
}

impl UssdSessionStatus {
    /// The status label as the gateway spells it.
    pub fn label(&self) -> (r: &str)
        ensures
            *self is Incomplete ==> r@ == "Incomplete"@,
            *self is Success ==> r@ == "Success"@,
            *self is Failed ==> r@ == "Failed"@,
    {
        match self {
            UssdSessionStatus::Incomplete => "Incomplete",
            UssdSessionStatus::Success => "Success",
            UssdSessionStatus::Failed => "Failed",
        }
    }
}

/// End-of-session notification delivered to the application's callback
/// endpoint. Purely informational: no state transition depends on it.
#[derive(Debug, Clone, PartialEq, Eq)]
pub struct UssdNotification {
    /// Timestamp when the notification was sent (UTC).
    pub date: String,
    /// Session identifier, matching the requests of the session.
    pub session_id: String,
    /// The USSD code for this application.
    pub service_code: String,
    /// Network code identifying the telco.
    pub network_code: String,
    /// Phone number of the user.
    pub phone_number: String,
    /// Session completion status.
    pub status: UssdSessionStatus,
    /// Cost of the USSD session.
    pub cost: String,
    /// Duration of the session in milliseconds.
    pub duration_in_millis: String,
    /// Number of steps the user went through.
    pub hops_count: i32,
    /// All user inputs concatenated with asterisks.
    pub input: String,
    /// Last response sent before the session ended.
    pub last_app_response: String,
    /// Error message for failed sessions.
    pub error_message: Option<String>,
}

/// Mathematical shape of a [`UssdResponse`]: which of the two tags holds,
/// and the message carried.
pub struct ResponseModel {
    /// True for a `Continue` directive, false for a terminating one.
    pub continues: bool,
    /// The message without its wire prefix.
    pub message: Seq<char>,
}

#[derive(Debug, Clone, PartialEq, Eq)]
enum UssdResponseContent {
    Continue(String),
    End(String),
}

/// USSD directive sent back to the gateway: either continue the session
/// or terminate it, each with a message.
#[derive(Debug, Clone, PartialEq, Eq)]
pub struct UssdResponse {
    content: UssdResponseContent,
}

impl View for UssdResponse {
    type V = ResponseModel;

    closed spec fn view(&self) -> ResponseModel {
        match self.content {
            UssdResponseContent::Continue(m) => ResponseModel { continues: true, message: m@ },
            UssdResponseContent::End(m) => ResponseModel { continues: false, message: m@ },
        }
    }
}

impl UssdResponse {
    /// A directive that keeps the session open, expecting more input.
    pub fn continues(message: &str) -> (r: Self)
        ensures
            r@.continues,
            r@.message == message@,
    {
        UssdResponse { content: UssdResponseContent::Continue(message.to_owned()) }
    }

    /// A directive that terminates the session.
    pub fn ends(message: &str) -> (r: Self)
        ensures
            !r@.continues,
            r@.message == message@,
    {
        UssdResponse { content: UssdResponseContent::End(message.to_owned()) }
    }

    /// True when this directive continues the session.
    pub fn is_continuing(&self) -> (r: bool)
        ensures
            r == self@.continues,
    {
        match &self.content {
            UssdResponseContent::Continue(_) => true,
            UssdResponseContent::End(_) => false,
        }
    }

    /// True when this directive ends the session.
    pub fn is_ending(&self) -> (r: bool)
        ensures
            r == !self@.continues,
    {
        match &self.content {
            UssdResponseContent::Continue(_) => false,
            UssdResponseContent::End(_) => true,
        }
    }

    /// The message content, without the wire prefix.
    pub fn message(&self) -> (r: &str)
        ensures
            r@ == self@.message,
    {
        match &self.content {
            UssdResponseContent::Continue(m) => m.as_str(),
            UssdResponseContent::End(m) => m.as_str(),
        }
    }

    /// The exact wire form: `"CON "` or `"END "` followed by the message,
    /// nothing more. The four-character prefix, trailing space included, is
    /// mandated verbatim by the gateway protocol.
    pub fn render(&self) -> (r: String)
        ensures
            self@.continues ==> r@ == "CON "@ + self@.message,
            !self@.continues ==> r@ == "END "@ + self@.message,
    {
        let mut out: String = if self.is_continuing() {
            "CON ".to_owned()
        } else {
            "END ".to_owned()
        };
        out.append(self.message());
        out
    }
}

/// One rendered menu line: a newline, the key, `". "`, and the label.
pub open spec fn menu_line(key: Seq<char>, label: Seq<char>) -> Seq<char> {
    seq!['\n'] + key + seq!['.', ' '] + label
}

/// The rendered body of a menu: its title followed by one line per
/// option, in insertion order, with no trailing newline.
pub open spec fn menu_text(title: Seq<char>, options: Seq<(Seq<char>, Seq<char>)>) -> Seq<char>
    decreases options.len(),
{
    if options.len() == 0 {
        title
    } else {
        menu_text(title, options.drop_last()) + menu_line(options.last().0, options.last().1)
    }
}

/// Mathematical shape of a [`UssdMenu`]: its title and ordered options.
pub struct MenuModel {
    /// The menu's heading line.
    pub title: Seq<char>,
    /// The `(key, label)` pairs, in insertion order.
    pub options: Seq<(Seq<char>, Seq<char>)>,
}

/// Builder for menus: a title plus ordered `(key, label)` options, rendered
/// as `"{title}\n{key}. {label}..."` and wrapped in a directive.
#[derive(Debug, Clone)]
pub struct UssdMenu {
    title: String,
    options: Vec<(String, String)>,
}

impl View for UssdMenu {
    type V = MenuModel;

    closed spec fn view(&self) -> MenuModel {
        MenuModel { title: self.title@, options: self.options.deep_view() }
    }
}

impl UssdMenu {
    /// A menu with the given title and no options yet.
    pub fn new(title: &str) -> (r: Self)
        ensures
            r@.title == title@,
            r@.options == Seq::<(Seq<char>, Seq<char>)>::empty(),
    {
        let r = UssdMenu { title: title.to_owned(), options: Vec::new() };
        proof {
            assert(r@.options =~= Seq::<(Seq<char>, Seq<char>)>::empty());
        }
        r
    }

    /// Appends one `(key, label)` option.
    pub fn add_option(self, key: &str, label: &str) -> (r: Self)
        ensures
            r@.title == self@.title,
            r@.options == self@.options.push((key@, label@)),
    {
        let ghost prev = self.options.deep_view();
        let mut options = self.options;
        options.push((key.to_owned(), label.to_owned()));
        proof {
            assert(options.deep_view() =~= prev.push((key@, label@)));
        }
        UssdMenu { title: self.title, options }
    }

    /// Appends several options at once, in the order given.
    pub fn add_options(self, options: Vec<(&str, &str)>) -> (r: Self)
        ensures
            r@.title == self@.title,
            r@.options == self@.options + options.deep_view(),
    {
        let ghost orig = self@.options;
        let ghost title = self@.title;
        let mut menu = self;
        let mut i: usize = 0;
        proof {
            assert(orig + options.deep_view().take(0) =~= orig);
        }
        while i < options.len()
            invariant
                i <= options@.len(),
                menu@.title == title,
                menu@.options == orig + options.deep_view().take(i as int),
            decreases options@.len() - i,
        {
            let (key, label) = options[i];
            menu = menu.add_option(key, label);
            proof {
                assert(orig + options.deep_view().take(i as int + 1) =~= (orig
                    + options.deep_view().take(i as int)).push(options.deep_view()[i as int]));
            }
            i = i + 1;
        }
        proof {
            assert(options.deep_view().take(options@.len() as int) =~= options.deep_view());
        }
        menu
    }

    /// Renders the menu body and wraps it in a continuing directive.
    pub fn build_continue(self) -> (r: UssdResponse)
        ensures
            r@.continues,
            r@.message == menu_text(self@.title, self@.options),
    {
        let body = self.format_menu();
        UssdResponse::continues(body.as_str())
    }

    /// Renders the menu body and wraps it in a terminating directive.
    pub fn build_end(self) -> (r: UssdResponse)
        ensures
            !r@.continues,
            r@.message == menu_text(self@.title, self@.options),
    {
        let body = self.format_menu();
        UssdResponse::ends(body.as_str())
    }

    fn format_menu(&self) -> (r: String)
        ensures
            r@ == menu_text(self@.title, self@.options),
    {
        let mut out = self.title.clone();
        let ghost opts = self.options.deep_view();
        let mut i: usize = 0;
        proof {
            assert(opts.take(0) =~= Seq::<(Seq<char>, Seq<char>)>::empty());
        }
        while i < self.options.len()
            invariant
                i <= self.options@.len(),
                opts == self.options.deep_view(),
                opts.len() == self.options@.len(),
                out@ == menu_text(self@.title, opts.take(i as int)),
            decreases self.options@.len() - i,
        {
            proof {
                reveal_strlit("\n");
                reveal_strlit(". ");
                assert(opts.take(i as int + 1).drop_last() =~= opts.take(i as int));
                assert(opts[i as int].0 == self.options@[i as int].0@);
            }
            out.append("\n");
            let pair = &self.options[i];
            out.append(pair.0.as_str());
            out.append(". ");
            out.append(pair.1.as_str());
            proof {
                assert(out@ =~= menu_text(self@.title, opts.take(i as int)) + menu_line(
                    opts[i as int].0,
                    opts[i as int].1,
                ));
            }
            i = i + 1;
        }
        proof {
            assert(opts.take(self.options@.len() as int) =~= opts);
        }
        out
    }
}

} // verus!
