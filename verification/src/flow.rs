//! The session-flow controller: an explicit state machine, keyed by
//! session id, that walks a caller through a multi-field money-transfer
//! collection flow (recipient name, then amount, then confirmation).
//!
//! The controller itself is a pure function from the stored state and the
//! incoming interaction to a directive plus one store instruction; the
//! store itself (an external key-value collaborator) is supplied by the
//! integrator, which applies the instruction.

use vstd::prelude::*;

use crate::strutil::cents_to_string;
use crate::strutil::i64_to_string;
use crate::strutil::spec_cents_string;
use crate::strutil::spec_int_string;
use crate::strutil::str_eq;
use crate::ussd::last_segment;
use crate::ussd::menu_text;
use crate::ussd::ResponseModel;
use crate::ussd::UssdMenu;
use crate::ussd::UssdRequest;
use crate::ussd::UssdResponse;

verus! {

/// The largest accepted amount, in cents: one hundred thousand whole
/// units.
pub const MAX_AMOUNT_CENTS: u64 = 10_000_000;

/// True for a decimal digit character.
pub open spec fn is_digit(c: char) -> bool {
    '0' as u32 <= c as u32 && c as u32 <= '9' as u32
}

/// The numeric value of a digit character.
pub open spec fn digit_val(c: char) -> nat {
    (c as u32 - '0' as u32) as nat
}

/// True when every character of `s` is a decimal digit.
pub open spec fn all_digits(s: Seq<char>) -> bool {
    forall|i: int| 0 <= i < s.len() ==> is_digit(#[trigger] s[i])
}

/// The value of a digit string read in base ten.
pub open spec fn digits_val(s: Seq<char>) -> nat
    decreases s.len(),
{
    if s.len() == 0 {
        0
    } else {
        digits_val(s.drop_last()) * 10 + digit_val(s.last())
    }
}

/// True when `s` splits at position `i` into a non-empty digit string, a
/// dot, and one or two fraction digits.
pub open spec fn dotted_at(s: Seq<char>, i: int) -> bool {
    &&& 0 < i < s.len()
    &&& s[i] == '.'
    &&& all_digits(s.take(i))
    &&& 1 <= s.len() - i - 1 <= 2
    &&& all_digits(s.skip(i + 1))
}

/// The split position of a dotted amount string is unique: everything
/// before it must be digits, so no second dot can qualify.
pub proof fn lemma_dotted_at_unique(s: Seq<char>, i: int, j: int)
    requires
        dotted_at(s, i),
        dotted_at(s, j),
    ensures
        i == j,
{
    if i < j {
        assert(is_digit(s.take(j)[i]));
    }
    if j < i {
        assert(is_digit(s.take(i)[j]));
    }
}

/// The value in cents of an amount string, under the flow's fixed-point
/// grammar: one or more digits, optionally followed by a dot and one or
/// two fraction digits. Anything else is not a number here.
pub open spec fn spec_parse_cents(s: Seq<char>) -> Option<nat> {
    if s.len() > 0 && all_digits(s) {
        Some(digits_val(s) * 100)
    } else if exists|i: int| dotted_at(s, i) {
        let i = choose|i: int| dotted_at(s, i);
        let frac = s.skip(i + 1);
        Some(
            digits_val(s.take(i)) * 100 + digits_val(frac) * (if frac.len() == 1 {
                10nat
            } else {
                1nat
            }),
        )
    } else {
        None
    }
}

/// Outcome of validating an amount input.
#[derive(Debug, Clone, Copy, PartialEq, Eq)]
pub enum ParsedAmount {
    /// Not a number under the flow's grammar.
    Invalid,
    /// A representable amount, in cents, within the accepted ceiling.
    Cents(u64),
    /// A well-formed number beyond the accepted ceiling.
    TooLarge,
}

fn is_digit_char(c: char) -> (r: bool)
    ensures
        r == is_digit(c),
{
    let v = c as u32;
    '0' as u32 <= v && v <= '9' as u32
}

fn check_all_digits(s: &str, from: usize, to: usize) -> (r: bool)
    requires
        from <= to <= s@.len(),
    ensures
        r == all_digits(s@.subrange(from as int, to as int)),
{
    let mut i: usize = from;
    while i < to
        invariant
            from <= i <= to <= s@.len(),
            forall|j: int| from <= j < i ==> is_digit(#[trigger] s@[j]),
        decreases to - i,
    {
        if !is_digit_char(s.get_char(i)) {
            proof {
                assert(s@.subrange(from as int, to as int)[i - from] == s@[i as int]);
            }
            return false;
        }
        i = i + 1;
    }
    proof {
        assert forall|k: int| 0 <= k < to - from implies is_digit(
            #[trigger] s@.subrange(from as int, to as int)[k],
        ) by {
            assert(s@.subrange(from as int, to as int)[k] == s@[from + k]);
        }
    }
    true
}

/// Base-ten value of the digit substring, computed exactly up to the
/// ceiling and clamped to one past it beyond that.
fn digits_value_capped(s: &str, from: usize, to: usize) -> (r: u64)
    requires
        from <= to <= s@.len(),
        all_digits(s@.subrange(from as int, to as int)),
    ensures
        digits_val(s@.subrange(from as int, to as int)) <= MAX_AMOUNT_CENTS ==> r == digits_val(
            s@.subrange(from as int, to as int),
        ),
        digits_val(s@.subrange(from as int, to as int)) > MAX_AMOUNT_CENTS ==> r
            == MAX_AMOUNT_CENTS + 1,
{
    let mut acc: u64 = 0;
    let mut i: usize = from;
    proof {
        assert(s@.subrange(from as int, from as int) =~= Seq::<char>::empty());
    }
    while i < to
        invariant
            from <= i <= to <= s@.len(),
            all_digits(s@.subrange(from as int, to as int)),
            acc <= MAX_AMOUNT_CENTS + 1,
            digits_val(s@.subrange(from as int, i as int)) <= MAX_AMOUNT_CENTS ==> acc
                == digits_val(s@.subrange(from as int, i as int)),
            digits_val(s@.subrange(from as int, i as int)) > MAX_AMOUNT_CENTS ==> acc
                == MAX_AMOUNT_CENTS + 1,
        decreases to - i,
    {
        let ghost pre = s@.subrange(from as int, i as int);
        let ghost post = s@.subrange(from as int, i as int + 1);
        proof {
            assert(post.drop_last() =~= pre);
            assert(post.last() == s@[i as int]);
            assert(s@.subrange(from as int, to as int)[i - from] == s@[i as int]);
            assert(digits_val(post) == digits_val(pre) * 10 + digit_val(s@[i as int]));
            assert(digits_val(pre) * 10 >= digits_val(pre)) by (nonlinear_arith)
                requires digits_val(pre) >= 0;
        }
        let c = s.get_char(i);
        proof {
            assert(is_digit(c));
        }
        let d: u32 = (c as u32) - ('0' as u32);
        let computed: u64 = acc * 10 + (d as u64);
        if computed > MAX_AMOUNT_CENTS {
            acc = MAX_AMOUNT_CENTS + 1;
        } else {
            acc = computed;
        }
        i = i + 1;
    }
    acc
}

fn first_dot(s: &str) -> (r: Option<usize>)
    ensures
        match r {
            Some(i) => i < s@.len() && s@[i as int] == '.' && forall|j: int|
                0 <= j < i ==> s@[j] != '.',
            None => forall|j: int| 0 <= j < s@.len() ==> s@[j] != '.',
        },
{
    let n = s.unicode_len();
    let mut i: usize = 0;
    while i < n
        invariant
            i <= n,
            n == s@.len(),
            forall|j: int| 0 <= j < i ==> s@[j] != '.',
        decreases n - i,
    {
        if s.get_char(i) == '.' {
            return Some(i);
        }
        i = i + 1;
    }
    None
}

/// Validates an amount input against the flow's fixed-point grammar and
/// ceiling. Strictly positive range enforcement is the caller's: zero
/// parses as zero cents.
pub fn parse_amount(s: &str) -> (r: ParsedAmount)
    ensures
        match spec_parse_cents(s@) {
            None => r is Invalid,
            Some(v) => if v <= MAX_AMOUNT_CENTS {
                r == ParsedAmount::Cents(v as u64)
            } else {
                r is TooLarge
            },
        },
{
    let n = s.unicode_len();
    match first_dot(s) {
        None => {
            if n == 0 {
                return ParsedAmount::Invalid;
            }
            let all = check_all_digits(s, 0, n);
            proof {
                assert(s@.subrange(0, n as int) =~= s@);
            }
            if !all {
                proof {
                    assert forall|i: int| !dotted_at(s@, i) by {
                        if 0 < i < s@.len() {
                            assert(s@[i] != '.');
                        }
                    }
                }
                return ParsedAmount::Invalid;
            }
            let whole = digits_value_capped(s, 0, n);
            let cents: u64 = whole * 100;
            if cents > MAX_AMOUNT_CENTS {
                proof {
                    if digits_val(s@) <= MAX_AMOUNT_CENTS {
                        assert(cents == digits_val(s@) * 100);
                    } else {
                        assert(digits_val(s@) * 100 > MAX_AMOUNT_CENTS) by (nonlinear_arith)
                            requires digits_val(s@) > MAX_AMOUNT_CENTS as nat;
                    }
                }
                ParsedAmount::TooLarge
            } else {
                proof {
                    assert(whole <= MAX_AMOUNT_CENTS);
                    assert(digits_val(s@) <= MAX_AMOUNT_CENTS) by {
                        if digits_val(s@) > MAX_AMOUNT_CENTS {
                            assert(whole == MAX_AMOUNT_CENTS + 1);
                        }
                    }
                }
                ParsedAmount::Cents(cents)
            }
        },
        Some(dot) => {
            proof {
                assert(!is_digit('.'));
                assert(!all_digits(s@)) by {
                    assert(!is_digit(s@[dot as int]));
                }
            }
            if dot == 0 || n - dot - 1 < 1 || n - dot - 1 > 2 {
                proof {
                    assert forall|i: int| !dotted_at(s@, i) by {
                        if dotted_at(s@, i) {
                            if i > dot {
                                assert(is_digit(s@.take(i)[dot as int]));
                            }
                            if i < dot {
                                assert(s@[i] != '.');
                            }
                        }
                    }
                }
                return ParsedAmount::Invalid;
            }
            let whole_ok = check_all_digits(s, 0, dot);
            let frac_ok = check_all_digits(s, dot + 1, n);
            proof {
                assert(s@.subrange(0, dot as int) =~= s@.take(dot as int));
                assert(s@.subrange(dot as int + 1, n as int) =~= s@.skip(dot as int + 1));
            }
            if !whole_ok || !frac_ok {
                proof {
                    assert forall|i: int| !dotted_at(s@, i) by {
                        if dotted_at(s@, i) {
                            if i > dot {
                                assert(is_digit(s@.take(i)[dot as int]));
                            }
                            if i < dot {
                                assert(s@[i] != '.');
                            }
                        }
                    }
                }
                return ParsedAmount::Invalid;
            }
            proof {
                assert(dotted_at(s@, dot as int));
                lemma_dotted_at_unique(s@, dot as int, choose|i: int| dotted_at(s@, i));
            }
            let whole = digits_value_capped(s, 0, dot);
            let frac = digits_value_capped(s, dot + 1, n);
            let ghost fseq = s@.skip(dot as int + 1);
            proof {
                lemma_two_digits_small(fseq);
            }
            let scale: u64 = if n - dot - 1 == 1 {
                10
            } else {
                1
            };
            let cents: u64 = whole * 100 + frac * scale;
            let ghost real_whole = digits_val(s@.take(dot as int));
            let ghost exact = real_whole * 100 + digits_val(fseq) * (if fseq.len() == 1 {
                10nat
            } else {
                1nat
            });
            if cents > MAX_AMOUNT_CENTS {
                proof {
                    if real_whole > MAX_AMOUNT_CENTS {
                        assert(real_whole * 100 > MAX_AMOUNT_CENTS) by (nonlinear_arith)
                            requires real_whole > MAX_AMOUNT_CENTS as nat;
                    }
                }
                ParsedAmount::TooLarge
            } else {
                proof {
                    assert(whole <= MAX_AMOUNT_CENTS);
                    if real_whole > MAX_AMOUNT_CENTS {
                        assert(whole == MAX_AMOUNT_CENTS + 1);
                    }
                    assert(real_whole <= MAX_AMOUNT_CENTS);
                    assert(cents == exact);
                }
                ParsedAmount::Cents(cents)
            }
        },
    }
}

/// True for the whitespace characters that blank-name detection strips.
pub open spec fn is_space(c: char) -> bool {
    c == ' ' || c == '\t' || c == '\n' || c == '\r'
}

/// True when `s` has no visible character: empty, or whitespace only.
pub open spec fn is_blank(s: Seq<char>) -> bool {
    forall|i: int| 0 <= i < s.len() ==> is_space(#[trigger] s[i])
}

fn str_is_blank(s: &str) -> (r: bool)
    ensures
        r == is_blank(s@),
{
    let n = s.unicode_len();
    let mut i: usize = 0;
    while i < n
        invariant
            i <= n,
            n == s@.len(),
            forall|j: int| 0 <= j < i ==> is_space(#[trigger] s@[j]),
        decreases n - i,
    {
        let c = s.get_char(i);
        if !(c == ' ' || c == '\t' || c == '\n' || c == '\r') {
            return false;
        }
        i = i + 1;
    }
    true
}

/// Mathematical shape of a [`FlowState`].
pub enum FlowStateModel {
    Initial,
    CollectingName,
    CollectingAmount { recipient_name: Seq<char> },
    Confirming { recipient_name: Seq<char>, amount_cents: u64 },
    Complete,
}

/// One session's position in the collection flow. Each phase carries
/// exactly the fields collected so far, so a confirmation with missing
/// fields is unrepresentable.
#[derive(Debug, Clone, PartialEq, Eq)]
pub enum FlowState {
    /// Freshly created, nothing asked yet.
    Initial,
    /// The name prompt is out; the next input answers it.
    CollectingName,
    /// The amount prompt is out.
    CollectingAmount {
        /// The collected recipient name.
        recipient_name: String,
    },
    /// The confirmation menu is out.
    Confirming {
        /// The collected recipient name.
        recipient_name: String,
        /// The collected amount, in cents.
        amount_cents: u64,
    },
    /// Terminal: any further interaction is stale.
    Complete,
}

impl View for FlowState {
    type V = FlowStateModel;

    open spec fn view(&self) -> FlowStateModel {
        match self {
            FlowState::Initial => FlowStateModel::Initial,
            FlowState::CollectingName => FlowStateModel::CollectingName,
            FlowState::CollectingAmount { recipient_name } => FlowStateModel::CollectingAmount {
                recipient_name: recipient_name@,
            },
            FlowState::Confirming { recipient_name, amount_cents } => FlowStateModel::Confirming {
                recipient_name: recipient_name@,
                amount_cents: *amount_cents,
            },
            FlowState::Complete => FlowStateModel::Complete,
        }
    }
}

impl Default for FlowState {
    /// A session starts in the `Initial` phase.
    fn default() -> (r: Self)
        ensures
            r is Initial,
    {
        FlowState::Initial
    }
}

/// Mathematical shape of a [`StoreAction`].
pub enum StoreActionModel {
    /// Write this state under the session's key.
    Put(FlowStateModel),
    /// Remove the session's entry.
    Delete,
    /// Leave the store untouched.
    Keep,
}

/// The single store instruction an interaction produces; the integrator's
/// session store applies it under the session's id.
#[derive(Debug, Clone, PartialEq, Eq)]
pub enum StoreAction {
    /// Write this state under the session's key.
    Put(FlowState),
    /// Remove the session's entry.
    Delete,
    /// Leave the store untouched.
    Keep,
}

impl View for StoreAction {
    type V = StoreActionModel;

    open spec fn view(&self) -> StoreActionModel {
        match self {
            StoreAction::Put(s) => StoreActionModel::Put(s@),
            StoreAction::Delete => StoreActionModel::Delete,
            StoreAction::Keep => StoreActionModel::Keep,
        }
    }
}

/// Mathematical shape of a [`FlowStep`].
pub struct FlowStepModel {
    /// The directive answered to the gateway.
    pub directive: ResponseModel,
    /// The store instruction for this interaction.
    pub action: StoreActionModel,
}

/// The outcome of one interaction: the directive to send back, and the
/// one store mutation (or none) to apply.
#[derive(Debug, Clone, PartialEq, Eq)]
pub struct FlowStep {
    /// The directive answered to the gateway.
    pub directive: UssdResponse,
    /// The store instruction for this interaction.
    pub action: StoreAction,
}

impl View for FlowStep {
    type V = FlowStepModel;

    open spec fn view(&self) -> FlowStepModel {
        FlowStepModel { directive: self.directive@, action: self.action@ }
    }
}

/// The stored state as the controller sees it.
pub open spec fn spec_state_of(state: Option<FlowState>) -> Option<FlowStateModel> {
    match state {
        None => None,
        Some(s) => Some(s@),
    }
}

/// The title of the confirmation menu, embedding both collected values.
pub open spec fn spec_confirm_title(name: Seq<char>, cents: nat) -> Seq<char> {
    "Confirm transfer:\n\nRecipient: "@ + name + "\nAmount: KES "@ + spec_cents_string(cents)
        + "\n\nConfirm?"@
}

/// The options of the confirmation menu.
pub open spec fn confirm_options() -> Seq<(Seq<char>, Seq<char>)> {
    seq![("1"@, "Yes, send money"@), ("2"@, "Cancel"@)]
}

/// The full confirmation menu body.
pub open spec fn spec_confirm_message(name: Seq<char>, cents: nat) -> Seq<char> {
    menu_text(spec_confirm_title(name, cents), confirm_options())
}

/// The terminal success message, embedding the collected values and the
/// generated transaction reference.
pub open spec fn spec_success_message(name: Seq<char>, cents: nat, ts: int) -> Seq<char> {
    "Success!\n\nSent KES "@ + spec_cents_string(cents) + " to "@ + name
        + "\n\nTransaction ID: TXN"@ + spec_int_string(ts)
}

/// The transition relation of the flow controller: from the stored state
/// (absent on first touch) and the interaction's accumulated input to the
/// directive and the one store instruction. `ts` seeds the transaction
/// reference of a confirmed transfer.
///
/// An absent entry together with a non-empty accumulated input means the
/// session's entry is already gone — completed, cancelled or evicted —
/// and is answered as stale, not resumed.
pub open spec fn spec_flow_step(
    state: Option<FlowStateModel>,
    text: Seq<char>,
    ts: int,
) -> FlowStepModel {
    let st = match state {
        Some(st) => st,
        None => if text.len() == 0 {
            FlowStateModel::Initial
        } else {
            FlowStateModel::Complete
        },
    };
    match st {
        FlowStateModel::Initial => FlowStepModel {
            directive: ResponseModel {
                continues: true,
                message: "Welcome to Money Transfer\n\nPlease enter recipient's name:"@,
            },
            action: StoreActionModel::Put(FlowStateModel::CollectingName),
        },
        FlowStateModel::CollectingName => {
            if text.len() == 0 {
                FlowStepModel {
                    directive: ResponseModel {
                        continues: false,
                        message: "Invalid input. Please try again."@,
                    },
                    action: StoreActionModel::Delete,
                }
            } else if is_blank(last_segment(text)) {
                FlowStepModel {
                    directive: ResponseModel {
                        continues: true,
                        message: "Name cannot be empty.\nPlease enter recipient's name:"@,
                    },
                    action: StoreActionModel::Put(FlowStateModel::CollectingName),
                }
            } else {
                FlowStepModel {
                    directive: ResponseModel {
                        continues: true,
                        message: "Enter amount to send (KES):"@,
                    },
                    action: StoreActionModel::Put(
                        FlowStateModel::CollectingAmount { recipient_name: last_segment(text) },
                    ),
                }
            }
        },
        FlowStateModel::CollectingAmount { recipient_name } => {
            if text.len() == 0 {
                FlowStepModel {
                    directive: ResponseModel {
                        continues: false,
                        message: "Invalid input. Please try again."@,
                    },
                    action: StoreActionModel::Delete,
                }
            } else {
                match spec_parse_cents(last_segment(text)) {
                    Some(c) => if 1 <= c && c <= MAX_AMOUNT_CENTS {
                        FlowStepModel {
                            directive: ResponseModel {
                                continues: true,
                                message: spec_confirm_message(recipient_name, c),
                            },
                            action: StoreActionModel::Put(
                                FlowStateModel::Confirming {
                                    recipient_name,
                                    amount_cents: c as u64,
                                },
                            ),
                        }
                    } else {
                        FlowStepModel {
                            directive: ResponseModel {
                                continues: true,
                                message: "Amount must be between 1 and 100,000.\nEnter amount:"@,
                            },
                            action: StoreActionModel::Put(
                                FlowStateModel::CollectingAmount { recipient_name },
                            ),
                        }
                    },
                    None => FlowStepModel {
                        directive: ResponseModel {
                            continues: true,
                            message: "Invalid amount.\nEnter amount (KES):"@,
                        },
                        action: StoreActionModel::Put(
                            FlowStateModel::CollectingAmount { recipient_name },
                        ),
                    },
                }
            }
        },
        FlowStateModel::Confirming { recipient_name, amount_cents } => {
            if text.len() > 0 && last_segment(text) == "1"@ {
                FlowStepModel {
                    directive: ResponseModel {
                        continues: false,
                        message: spec_success_message(recipient_name, amount_cents as nat, ts),
                    },
                    action: StoreActionModel::Delete,
                }
            } else if text.len() > 0 && last_segment(text) == "2"@ {
                FlowStepModel {
                    directive: ResponseModel {
                        continues: false,
                        message: "Transaction cancelled."@,
                    },
                    action: StoreActionModel::Delete,
                }
            } else if text.len() > 0 {
                FlowStepModel {
                    directive: ResponseModel {
                        continues: false,
                        message: "Invalid option. Transaction cancelled."@,
                    },
                    action: StoreActionModel::Delete,
                }
            } else {
                FlowStepModel {
                    directive: ResponseModel {
                        continues: false,
                        message: "Invalid input. Transaction cancelled."@,
                    },
                    action: StoreActionModel::Delete,
                }
            }
        },
        FlowStateModel::Complete => FlowStepModel {
            directive: ResponseModel {
                continues: false,
                message: "Session already completed."@,
            },
            action: StoreActionModel::Keep,
        },
    }
}

fn confirm_title(name: &str, cents: u64) -> (r: String)
    ensures
        r@ == spec_confirm_title(name@, cents as nat),
{
    let mut s: String = "Confirm transfer:\n\nRecipient: ".to_owned();
    s.append(name);
    s.append("\nAmount: KES ");
    let c = cents_to_string(cents);
    s.append(c.as_str());
    s.append("\n\nConfirm?");
    proof {
        assert(s@ =~= spec_confirm_title(name@, cents as nat));
    }
    s
}

fn success_message(name: &str, cents: u64, ts: i64) -> (r: String)
    ensures
        r@ == spec_success_message(name@, cents as nat, ts as int),
{
    let mut s: String = "Success!\n\nSent KES ".to_owned();
    let c = cents_to_string(cents);
    s.append(c.as_str());
    s.append(" to ");
    s.append(name);
    s.append("\n\nTransaction ID: TXN");
    let t = i64_to_string(ts);
    s.append(t.as_str());
    proof {
        assert(s@ =~= spec_success_message(name@, cents as nat, ts as int));
    }
    s
}

/// One transition of the flow controller, as a pure function: exactly
/// [`spec_flow_step`] over the stored state, the request's accumulated
/// input, and the timestamp that seeds a confirmed transfer's reference.
pub fn flow_step(state: Option<FlowState>, req: &UssdRequest, timestamp: i64) -> (r: FlowStep)
    ensures
        r@ == spec_flow_step(spec_state_of(state), req.text@, timestamp as int),
{
    let st: FlowState = match state {
        Some(s) => s,
        None => {
            if req.is_initial() {
                FlowState::Initial
            } else {
                FlowState::Complete
            }
        },
    };
    match st {
        FlowState::Initial => FlowStep {
            directive: UssdResponse::continues(
                "Welcome to Money Transfer\n\nPlease enter recipient's name:",
            ),
            action: StoreAction::Put(FlowState::CollectingName),
        },
        FlowState::CollectingName => {
            match req.current_input() {
                None => FlowStep {
                    directive: UssdResponse::ends("Invalid input. Please try again."),
                    action: StoreAction::Delete,
                },
                Some(name) => {
                    if str_is_blank(name) {
                        FlowStep {
                            directive: UssdResponse::continues(
                                "Name cannot be empty.\nPlease enter recipient's name:",
                            ),
                            action: StoreAction::Put(FlowState::CollectingName),
                        }
                    } else {
                        FlowStep {
                            directive: UssdResponse::continues("Enter amount to send (KES):"),
                            action: StoreAction::Put(
                                FlowState::CollectingAmount { recipient_name: name.to_owned() },
                            ),
                        }
                    }
                },
            }
        },
        FlowState::CollectingAmount { recipient_name } => {
            match req.current_input() {
                None => FlowStep {
                    directive: UssdResponse::ends("Invalid input. Please try again."),
                    action: StoreAction::Delete,
                },
                Some(input) => {
                    match parse_amount(input) {
                        ParsedAmount::Cents(c) => {
                            if c >= 1 {
                                let title = confirm_title(recipient_name.as_str(), c);
                                let menu = UssdMenu::new(title.as_str()).add_option(
                                    "1",
                                    "Yes, send money",
                                ).add_option("2", "Cancel");
                                proof {
                                    assert(menu@.options =~= confirm_options());
                                }
                                FlowStep {
                                    directive: menu.build_continue(),
                                    action: StoreAction::Put(
                                        FlowState::Confirming { recipient_name, amount_cents: c },
                                    ),
                                }
                            } else {
                                FlowStep {
                                    directive: UssdResponse::continues(
                                        "Amount must be between 1 and 100,000.\nEnter amount:",
                                    ),
                                    action: StoreAction::Put(
                                        FlowState::CollectingAmount { recipient_name },
                                    ),
                                }
                            }
                        },
                        ParsedAmount::TooLarge => FlowStep {
                            directive: UssdResponse::continues(
                                "Amount must be between 1 and 100,000.\nEnter amount:",
                            ),
                            action: StoreAction::Put(
                                FlowState::CollectingAmount { recipient_name },
                            ),
                        },
                        ParsedAmount::Invalid => FlowStep {
                            directive: UssdResponse::continues(
                                "Invalid amount.\nEnter amount (KES):",
                            ),
                            action: StoreAction::Put(
                                FlowState::CollectingAmount { recipient_name },
                            ),
                        },
                    }
                },
            }
        },
        FlowState::Confirming { recipient_name, amount_cents } => {
            match req.current_input() {
                None => FlowStep {
                    directive: UssdResponse::ends("Invalid input. Transaction cancelled."),
                    action: StoreAction::Delete,
                },
                Some(choice) => {
                    if str_eq(choice, "1") {
                        let msg = success_message(recipient_name.as_str(), amount_cents, timestamp);
                        FlowStep {
                            directive: UssdResponse::ends(msg.as_str()),
                            action: StoreAction::Delete,
                        }
                    } else if str_eq(choice, "2") {
                        FlowStep {
                            directive: UssdResponse::ends("Transaction cancelled."),
                            action: StoreAction::Delete,
                        }
                    } else {
                        FlowStep {
                            directive: UssdResponse::ends(
                                "Invalid option. Transaction cancelled.",
                            ),
                            action: StoreAction::Delete,
                        }
                    }
                },
            }
        },
        FlowState::Complete => FlowStep {
            directive: UssdResponse::ends("Session already completed."),
            action: StoreAction::Keep,
        },
    }
}

/// Relies on `chrono::Utc::now` and `DateTime::timestamp` for the current
/// time as whole seconds since the epoch; nothing is assumed of the value.
#[verifier::external_body]
fn now_timestamp() -> i64 {
    chrono::Utc::now().timestamp()
}

/// One full interaction: reads the clock to seed a confirmed transfer's
/// reference, then takes the pure transition. Whatever the clock
/// returned, the result is the transition for some timestamp.
pub fn interact(state: Option<FlowState>, req: &UssdRequest) -> (r: FlowStep)
    ensures
        exists|ts: int| r@ == spec_flow_step(spec_state_of(state), req.text@, ts),
{
    let ts = now_timestamp();
    let r = flow_step(state, req, ts);
    proof {
        assert(r@ == spec_flow_step(spec_state_of(state), req.text@, ts as int));
    }
    r
}

/// Submitting an amount that the validator rejects leaves the phase and
/// the collected fields exactly as they were and re-prompts with a
/// `Continue` directive. The state written back equals the state read,
/// so any number of repeated invalid submissions leaves the flow where
/// it stood, with no corruption of previously collected fields.
pub proof fn lemma_rejected_amount_preserves_state(name: Seq<char>, text: Seq<char>, ts: int)
    requires
        text.len() > 0,
        match spec_parse_cents(last_segment(text)) {
            Some(c) => !(1 <= c && c <= MAX_AMOUNT_CENTS),
            None => true,
        },
    ensures
        spec_flow_step(
            Some(FlowStateModel::CollectingAmount { recipient_name: name }),
            text,
            ts,
        ).action == StoreActionModel::Put(
            FlowStateModel::CollectingAmount { recipient_name: name },
        ),
        spec_flow_step(
            Some(FlowStateModel::CollectingAmount { recipient_name: name }),
            text,
            ts,
        ).directive.continues,
{
}

/// Completion deletes the session: a confirm choice in the `Confirming`
/// phase terminates with the success message and instructs the store to
/// delete the entry. Once the entry is gone, a later interaction of the
/// same session — whose accumulated input is non-empty, as it is for
/// every interaction after a session's first — is answered with the
/// fixed already-completed terminal message and no store change, never
/// a resumed flow.
pub proof fn lemma_completion_deletes_session(
    name: Seq<char>,
    cents: u64,
    text: Seq<char>,
    later_text: Seq<char>,
    ts: int,
    later_ts: int,
)
    requires
        text.len() > 0,
        last_segment(text) == "1"@,
        later_text.len() > 0,
    ensures
        spec_flow_step(
            Some(FlowStateModel::Confirming { recipient_name: name, amount_cents: cents }),
            text,
            ts,
        ).action is Delete,
        !spec_flow_step(
            Some(FlowStateModel::Confirming { recipient_name: name, amount_cents: cents }),
            text,
            ts,
        ).directive.continues,
        spec_flow_step(
            Some(FlowStateModel::Confirming { recipient_name: name, amount_cents: cents }),
            text,
            ts,
        ).directive.message == spec_success_message(name, cents as nat, ts),
        spec_flow_step(None, later_text, later_ts).directive == (ResponseModel {
            continues: false,
            message: "Session already completed."@,
        }),
        spec_flow_step(None, later_text, later_ts).action is Keep,
{
}

/// A digit string of at most two characters values below one hundred.
proof fn lemma_two_digits_small(s: Seq<char>)
    requires
        all_digits(s),
        s.len() <= 2,
    ensures
        digits_val(s) < 100,
{
    if s.len() == 1 {
        assert(is_digit(s.last()));
        assert(digits_val(s.drop_last()) == 0);
    } else if s.len() == 2 {
        let first = s.drop_last();
        assert(is_digit(s[0]));
        assert(first.last() == s[0]);
        assert(digits_val(first.drop_last()) == 0);
        assert(digits_val(first) <= 9);
        assert(is_digit(s.last()));
    }
}

} // verus!
