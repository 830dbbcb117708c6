use vstd::prelude::*;
use vstd::string::*;

verus! {

/// How many passwords a sign-in checks at most.
pub const MAX_PASSWORD_ATTEMPTS: u8 = 4;

/// The prompt for the phone number.
pub const PHONE_PROMPT: &'static str = "Enter your phone number (international format): ";

/// The prompt for the login code.
pub const CODE_PROMPT: &'static str = "Enter the code you received: ";

/// What is printed when the password matches.
pub const PASSWORD_MATCHES: &'static str = "The password matches!";

/// What is printed before the description of a failed password check.
pub const PASSWORD_ERROR_PREFIX: &'static str = "Error checking the password, ";

/// What is printed when the sign-in is over.
pub const SIGNED_IN: &'static str = "Singed in!";

/// How the account's password hint is shown: `hint: "<hint>"`, or `no hint`.
pub open spec fn spec_hint_message(hint: Option<Seq<char>>) -> Seq<char> {
    match hint {
        Some(h) => "hint: \""@ + h + "\""@,
        None => "no hint"@,
    }
}

/// The prompt for the password: `Enter the password (<hint message>): `.
pub open spec fn spec_password_prompt(hint_message: Seq<char>) -> Seq<char> {
    "Enter the password ("@ + hint_message + "): "@
}

/// How a hint is shown.
pub fn hint_message(hint: &Option<String>) -> (r: String)
    ensures
        r@ == spec_hint_message(
            match hint {
                Some(h) => Some(h@),
                None => None,
            },
        ),
{
    match hint {
        Some(h) => {
            let mut r = String::from_str("hint: \"");
            r.append(h.as_str());
            r.append("\"");
            r
        },
        None => String::from_str("no hint"),
    }
}

/// The prompt for the password, given how the hint is shown.
pub fn password_prompt(hint_message: &String) -> (r: String)
    ensures
        r@ == spec_password_prompt(hint_message@),
{
    let mut r = String::from_str("Enter the password (");
    r.append(hint_message.as_str());
    r.append("): ");
    r
}

/// How Telegram answered the login code.
#[derive(Clone, Debug)]
pub enum SignInOutcome {
    /// The account is signed in.
    SignedIn,
    /// The account has a password, with this hint if any.
    PasswordRequired { hint: Option<String> },
    /// Any other error; the text describes it.
    Failed(String),
}

/// How Telegram answered a password.
#[derive(Clone, Debug)]
pub enum PasswordOutcome {
    Matches,
    Invalid,
    /// Any other error; the text describes it.
    Failed(String),
}

/// What happened since the last action.
#[derive(Clone, Debug)]
pub enum SignInEvent {
    /// The sign-in starts.
    Begin,
    /// The user answered a prompt with this line (without surrounding whitespace).
    Line(String),
    /// Telegram sent the login code.
    LoginCodeSent,
    /// Telegram answered the login code.
    SignInDone(SignInOutcome),
    /// Telegram answered a password.
    PasswordChecked(PasswordOutcome),
    /// A message was printed.
    Printed,
    /// Performing the last action failed: the terminal could not be read or
    /// the login code could not be requested.
    StepFailed,
}

/// What the caller is to do next.
#[derive(Clone, Debug)]
pub enum SignInAction {
    /// Show this prompt and read a line; answer with `Line`.
    Prompt(String),
    /// Ask Telegram for a login code for this phone number; answer with `LoginCodeSent`.
    RequestLoginCode(String),
    /// Sign in with this login code; answer with `SignInDone`.
    SignIn(String),
    /// Check this password; answer with `PasswordChecked`.
    CheckPassword(String),
    /// Print this line; answer with `Printed`.
    Print(String),
    /// The sign-in is over.
    Finish,
    /// Stop the program with this message.
    Abort(String),
    /// End the sign-in with the error that the last action met.
    Fail,
}

/// Where a sign-in stands.
#[derive(Clone, Debug)]
pub enum SignInState {
    Start,
    AwaitingPhone,
    RequestingCode,
    AwaitingCode,
    SigningIn,
    /// Waiting for password number `attempt` (from 0).
    AwaitingPassword { hint_message: String, attempt: u8 },
    /// Checking password number `attempt`.
    CheckingPassword { hint_message: String, attempt: u8 },
    /// Reporting that checking password number `attempt` failed.
    ReportingPasswordError { hint_message: String, attempt: u8 },
    /// Reporting that the password matches.
    ReportingMatch,
    /// Announcing that the sign-in is over.
    Announcing,
    Finished,
    Aborted,
    /// Ended by the error of an action.
    Failed,
}

/// The action and state after password number `attempt` was not accepted:
/// the next password is asked for while fewer than four were tried, else the
/// sign-in is announced as over.
pub open spec fn spec_after_rejected(hint_message: Seq<char>, attempt: u8, t: SignInState, a: SignInAction) -> bool {
    if attempt + 1 < MAX_PASSWORD_ATTEMPTS {
        &&& t matches SignInState::AwaitingPassword { hint_message: h, attempt: n } && h@ == hint_message && n
            == attempt + 1
        &&& a matches SignInAction::Prompt(m) && m@ == spec_password_prompt(hint_message)
    } else {
        &&& t == SignInState::Announcing
        &&& a matches SignInAction::Print(m) && m@ == SIGNED_IN@
    }
}

/// One step of a sign-in: in state `s`, on event `e`, the state becomes `t`
/// and the caller is asked to perform `a`.
pub open spec fn spec_transition(s: SignInState, e: SignInEvent, t: SignInState, a: SignInAction) -> bool {
    if e == SignInEvent::StepFailed {
        spec_may_fail(s) && t == SignInState::Failed && a == SignInAction::Fail
    } else {
        spec_transition_on_success(s, e, t, a)
    }
}

/// The states whose last action can fail: reading the terminal (for the
/// phone number, the login code or a password) and requesting the login code.
pub open spec fn spec_may_fail(s: SignInState) -> bool {
    ||| s is AwaitingPhone
    ||| s is RequestingCode
    ||| s is AwaitingCode
    ||| s is AwaitingPassword
}

/// One step of a sign-in whose last action succeeded.
pub open spec fn spec_transition_on_success(s: SignInState, e: SignInEvent, t: SignInState, a: SignInAction) -> bool {
    match s {
        SignInState::Start => e == SignInEvent::Begin && t == SignInState::AwaitingPhone && (a matches SignInAction::Prompt(
            m,
        ) && m@ == PHONE_PROMPT@),
        SignInState::AwaitingPhone => e matches SignInEvent::Line(l) && t == SignInState::RequestingCode && (a matches SignInAction::RequestLoginCode(
            p,
        ) && p@ == l@),
        SignInState::RequestingCode => e == SignInEvent::LoginCodeSent && t == SignInState::AwaitingCode && (a matches SignInAction::Prompt(
            m,
        ) && m@ == CODE_PROMPT@),
        SignInState::AwaitingCode => e matches SignInEvent::Line(l) && t == SignInState::SigningIn && (a matches SignInAction::SignIn(
            c,
        ) && c@ == l@),
        SignInState::SigningIn => e matches SignInEvent::SignInDone(o) && match o {
            SignInOutcome::SignedIn => t == SignInState::Announcing && (a matches SignInAction::Print(m) && m@
                == SIGNED_IN@),
            SignInOutcome::PasswordRequired { hint } => {
                let hm = spec_hint_message(
                    match hint {
                        Some(h) => Some(h@),
                        None => None,
                    },
                );
                &&& t matches SignInState::AwaitingPassword { hint_message: h, attempt: n } && h@ == hm && n == 0
                &&& a matches SignInAction::Prompt(m) && m@ == spec_password_prompt(hm)
            },
            SignInOutcome::Failed(d) => t == SignInState::Aborted && (a matches SignInAction::Abort(m) && m@
                == d@),
        },
        SignInState::AwaitingPassword { hint_message, attempt } => e matches SignInEvent::Line(l) && (t matches SignInState::CheckingPassword {
            hint_message: h,
            attempt: n,
        } && h@ == hint_message@ && n == attempt) && (a matches SignInAction::CheckPassword(p) && p@ == l@),
        SignInState::CheckingPassword { hint_message, attempt } => e matches SignInEvent::PasswordChecked(o)
            && match o {
            PasswordOutcome::Matches => t == SignInState::ReportingMatch && (a matches SignInAction::Print(m) && m@
                == PASSWORD_MATCHES@),
            PasswordOutcome::Invalid => spec_after_rejected(hint_message@, attempt, t, a),
            PasswordOutcome::Failed(d) => (t matches SignInState::ReportingPasswordError {
                hint_message: h,
                attempt: n,
            } && h@ == hint_message@ && n == attempt) && (a matches SignInAction::Print(m) && m@
                == PASSWORD_ERROR_PREFIX@ + d@),
        },
        SignInState::ReportingPasswordError { hint_message, attempt } => e == SignInEvent::Printed
            && spec_after_rejected(hint_message@, attempt, t, a),
        SignInState::ReportingMatch => e == SignInEvent::Printed && t == SignInState::Announcing && (a matches SignInAction::Print(
            m,
        ) && m@ == SIGNED_IN@),
        SignInState::Announcing => e == SignInEvent::Printed && t == SignInState::Finished && a
            == SignInAction::Finish,
        SignInState::Finished => false,
        SignInState::Aborted => false,
        SignInState::Failed => false,
    }
}

/// Whether a state expects an event.
pub open spec fn spec_accepts(s: SignInState, e: SignInEvent) -> bool {
    if e == SignInEvent::StepFailed {
        spec_may_fail(s)
    } else {
        spec_accepts_on_success(s, e)
    }
}

/// Whether a state expects an event that reports success.
pub open spec fn spec_accepts_on_success(s: SignInState, e: SignInEvent) -> bool {
    match s {
        SignInState::Start => e == SignInEvent::Begin,
        SignInState::AwaitingPhone => e is Line,
        SignInState::RequestingCode => e == SignInEvent::LoginCodeSent,
        SignInState::AwaitingCode => e is Line,
        SignInState::SigningIn => e is SignInDone,
        SignInState::AwaitingPassword { .. } => e is Line,
        SignInState::CheckingPassword { .. } => e is PasswordChecked,
        SignInState::ReportingPasswordError { .. } => e == SignInEvent::Printed,
        SignInState::ReportingMatch => e == SignInEvent::Printed,
        SignInState::Announcing => e == SignInEvent::Printed,
        SignInState::Finished => false,
        SignInState::Aborted => false,
        SignInState::Failed => false,
    }
}

/// The states a sign-in can reach: no password number beyond the fourth.
pub open spec fn spec_well_formed(s: SignInState) -> bool {
    match s {
        SignInState::AwaitingPassword { attempt, .. } => attempt < MAX_PASSWORD_ATTEMPTS,
        SignInState::CheckingPassword { attempt, .. } => attempt < MAX_PASSWORD_ATTEMPTS,
        SignInState::ReportingPasswordError { attempt, .. } => attempt < MAX_PASSWORD_ATTEMPTS,
        _ => true,
    }
}

impl SignInState {
    /// A sign-in that has not started.
    pub fn new() -> (r: Self)
        ensures
            r == SignInState::Start,
    {
        SignInState::Start
    }

    /// Whether this state expects the event.
    pub fn accepts(&self, e: &SignInEvent) -> (r: bool)
        ensures
            r == spec_accepts(*self, *e),
    {
        if matches!(e, SignInEvent::StepFailed) {
            return matches!(
                self,
                SignInState::AwaitingPhone | SignInState::RequestingCode | SignInState::AwaitingCode
                    | SignInState::AwaitingPassword { .. }
            );
        }
        match self {
            SignInState::Start => matches!(e, SignInEvent::Begin),
            SignInState::AwaitingPhone => matches!(e, SignInEvent::Line(_)),
            SignInState::RequestingCode => matches!(e, SignInEvent::LoginCodeSent),
            SignInState::AwaitingCode => matches!(e, SignInEvent::Line(_)),
            SignInState::SigningIn => matches!(e, SignInEvent::SignInDone(_)),
            SignInState::AwaitingPassword { .. } => matches!(e, SignInEvent::Line(_)),
            SignInState::CheckingPassword { .. } => matches!(e, SignInEvent::PasswordChecked(_)),
            SignInState::ReportingPasswordError { .. } => matches!(e, SignInEvent::Printed),
            SignInState::ReportingMatch => matches!(e, SignInEvent::Printed),
            SignInState::Announcing => matches!(e, SignInEvent::Printed),
            SignInState::Finished => false,
            SignInState::Aborted => false,
            SignInState::Failed => false,
        }
    }
}

/// The state and action after password number `attempt` was not accepted.
fn after_rejected(hint_message: String, attempt: u8) -> (r: (SignInState, SignInAction))
    ensures
        spec_after_rejected(hint_message@, attempt, r.0, r.1),
{
    if attempt < MAX_PASSWORD_ATTEMPTS - 1 {
        let prompt = password_prompt(&hint_message);
        (SignInState::AwaitingPassword { hint_message, attempt: attempt + 1 }, SignInAction::Prompt(prompt))
    } else {
        (SignInState::Announcing, SignInAction::Print(String::from_str(SIGNED_IN)))
    }
}

/// Performs one step of a sign-in: the next state and action where the
/// state expects the event, else the state given back unchanged.
pub fn step(s: SignInState, e: SignInEvent) -> (r: Result<(SignInState, SignInAction), SignInState>)
    ensures
        match r {
            Ok((t, a)) => {
                &&& spec_accepts(s, e)
                &&& spec_transition(s, e, t, a)
                &&& spec_well_formed(s) ==> spec_well_formed(t)
            },
            Err(t) => !spec_accepts(s, e) && t == s,
        },
{
    if !s.accepts(&e) {
        return Err(s);
    }
    if matches!(e, SignInEvent::StepFailed) {
        return Ok((SignInState::Failed, SignInAction::Fail));
    }
    Ok(step_on_success(s, e))
}

/// One step of a sign-in whose last action succeeded.
fn step_on_success(s: SignInState, e: SignInEvent) -> (r: (SignInState, SignInAction))
    requires
        spec_accepts_on_success(s, e),
        e != SignInEvent::StepFailed,
    ensures
        spec_transition(s, e, r.0, r.1),
        spec_well_formed(s) ==> spec_well_formed(r.0),
{
    match s {
        SignInState::Start => (SignInState::AwaitingPhone, SignInAction::Prompt(String::from_str(PHONE_PROMPT))),
        SignInState::AwaitingPhone => match e {
            SignInEvent::Line(l) => (SignInState::RequestingCode, SignInAction::RequestLoginCode(l)),
            _ => {
                assert(false);
                (SignInState::Aborted, SignInAction::Finish)
            },
        },
        SignInState::RequestingCode => (SignInState::AwaitingCode, SignInAction::Prompt(String::from_str(CODE_PROMPT))),
        SignInState::AwaitingCode => match e {
            SignInEvent::Line(l) => (SignInState::SigningIn, SignInAction::SignIn(l)),
            _ => {
                assert(false);
                (SignInState::Aborted, SignInAction::Finish)
            },
        },
        SignInState::SigningIn => match e {
            SignInEvent::SignInDone(o) => match o {
                SignInOutcome::SignedIn => (SignInState::Announcing, SignInAction::Print(String::from_str(SIGNED_IN))),
                SignInOutcome::PasswordRequired { hint } => {
                    let hm = hint_message(&hint);
                    let prompt = password_prompt(&hm);
                    (SignInState::AwaitingPassword { hint_message: hm, attempt: 0 }, SignInAction::Prompt(prompt))
                },
                SignInOutcome::Failed(d) => (SignInState::Aborted, SignInAction::Abort(d)),
            },
            _ => {
                assert(false);
                (SignInState::Aborted, SignInAction::Finish)
            },
        },
        SignInState::AwaitingPassword { hint_message, attempt } => match e {
            SignInEvent::Line(l) => (SignInState::CheckingPassword { hint_message, attempt }, SignInAction::CheckPassword(l)),
            _ => {
                assert(false);
                (SignInState::Aborted, SignInAction::Finish)
            },
        },
        SignInState::CheckingPassword { hint_message, attempt } => match e {
            SignInEvent::PasswordChecked(o) => match o {
                PasswordOutcome::Matches => (SignInState::ReportingMatch, SignInAction::Print(String::from_str(PASSWORD_MATCHES))),
                PasswordOutcome::Invalid => after_rejected(hint_message, attempt),
                PasswordOutcome::Failed(d) => {
                    let mut m = String::from_str(PASSWORD_ERROR_PREFIX);
                    m.append(d.as_str());
                    (SignInState::ReportingPasswordError { hint_message, attempt }, SignInAction::Print(m))
                },
            },
            _ => {
                assert(false);
                (SignInState::Aborted, SignInAction::Finish)
            },
        },
        SignInState::ReportingPasswordError { hint_message, attempt } => after_rejected(hint_message, attempt),
        SignInState::ReportingMatch => (SignInState::Announcing, SignInAction::Print(String::from_str(SIGNED_IN))),
        SignInState::Announcing => (SignInState::Finished, SignInAction::Finish),
        SignInState::Finished => {
            assert(false);
            (SignInState::Finished, SignInAction::Finish)
        },
        SignInState::Aborted => {
            assert(false);
            (SignInState::Aborted, SignInAction::Finish)
        },
        SignInState::Failed => {
            assert(false);
            (SignInState::Failed, SignInAction::Finish)
        },
    }
}

/// Whether `states`, `events` and `actions` are a run of sign-in steps:
/// each event moves each state to the next and asks for the action beside it.
pub open spec fn spec_is_run(
    states: Seq<SignInState>,
    events: Seq<SignInEvent>,
    actions: Seq<SignInAction>,
) -> bool {
    &&& states.len() == events.len() + 1
    &&& actions.len() == events.len()
    &&& forall|i: int|
        #![trigger actions[i]]
        0 <= i < events.len() ==> spec_transition(states[i], events[i], states[i + 1], actions[i])
}

/// How many of the actions ask for a password check.
pub open spec fn spec_password_checks(actions: Seq<SignInAction>) -> nat
    decreases actions.len(),
{
    if actions.len() == 0 {
        0
    } else {
        (if actions[0] is CheckPassword {
            1nat
        } else {
            0nat
        }) + spec_password_checks(actions.drop_first())
    }
}

/// How many password checks a sign-in can still ask for from a state.
pub open spec fn spec_remaining_checks(s: SignInState) -> int {
    match s {
        SignInState::Start => 4,
        SignInState::AwaitingPhone => 4,
        SignInState::RequestingCode => 4,
        SignInState::AwaitingCode => 4,
        SignInState::SigningIn => 4,
        SignInState::AwaitingPassword { attempt, .. } => 4 - attempt,
        SignInState::CheckingPassword { attempt, .. } => 3 - attempt,
        SignInState::ReportingPasswordError { attempt, .. } => 3 - attempt,
        _ => 0,
    }
}

proof fn lemma_step_uses_checks(s: SignInState, e: SignInEvent, t: SignInState, a: SignInAction)
    requires
        spec_transition(s, e, t, a),
        spec_well_formed(s),
    ensures
        spec_well_formed(t),
        spec_remaining_checks(t) >= 0,
        spec_remaining_checks(t) + (if a is CheckPassword {
            1int
        } else {
            0int
        }) <= spec_remaining_checks(s),
{
}

proof fn lemma_run_checks(states: Seq<SignInState>, events: Seq<SignInEvent>, actions: Seq<SignInAction>)
    requires
        spec_is_run(states, events, actions),
        spec_well_formed(states[0]),
    ensures
        spec_password_checks(actions) <= spec_remaining_checks(states[0]),
    decreases events.len(),
{
    if events.len() > 0 {
        assert(spec_transition(states[0], events[0], states[1], actions[0]));
        lemma_step_uses_checks(states[0], events[0], states[1], actions[0]);
        let s2 = states.drop_first();
        let e2 = events.drop_first();
        let a2 = actions.drop_first();
        assert forall|i: int| 0 <= i < e2.len() implies spec_transition(
            s2[i],
            e2[i],
            s2[i + 1],
            #[trigger] a2[i],
        ) by {
            assert(spec_transition(states[i + 1], events[i + 1], states[i + 2], actions[i + 1]));
        }
        lemma_run_checks(s2, e2, a2);
    }
}

/// A sign-in checks at most four passwords: however Telegram and the user
/// answer, no run from the start asks for more than four password checks.
pub proof fn lemma_at_most_four_password_checks(
    states: Seq<SignInState>,
    events: Seq<SignInEvent>,
    actions: Seq<SignInAction>,
)
    requires
        spec_is_run(states, events, actions),
        states[0] == SignInState::Start,
    ensures
        spec_password_checks(actions) <= MAX_PASSWORD_ATTEMPTS,
{
    lemma_run_checks(states, events, actions);
}

/// A sign-in is only over once it was announced: in a run from the start,
/// every `Finish` comes right after printing `Singed in!`.
pub proof fn lemma_finish_is_announced(
    states: Seq<SignInState>,
    events: Seq<SignInEvent>,
    actions: Seq<SignInAction>,
    i: int,
)
    requires
        spec_is_run(states, events, actions),
        states[0] == SignInState::Start,
        0 <= i < actions.len(),
        actions[i] is Finish,
    ensures
        i >= 1,
        actions[i - 1] matches SignInAction::Print(m) && m@ == SIGNED_IN@,
{
    assert(spec_transition(states[i], events[i], states[i + 1], actions[i]));
    assert(states[i] == SignInState::Announcing);
    assert(i != 0);
    assert(spec_transition(states[i - 1], events[i - 1], states[i], actions[i - 1]));
}

/// Only an unexpected answer to the login code stops the program: every
/// `Abort` answers a failed sign-in and carries its description; wrong or
/// failing passwords never stop it.
pub proof fn lemma_abort_only_on_failed_sign_in(s: SignInState, e: SignInEvent, t: SignInState, a: SignInAction)
    requires
        spec_transition(s, e, t, a),
        a is Abort,
    ensures
        s == SignInState::SigningIn,
        e matches SignInEvent::SignInDone(SignInOutcome::Failed(d)) && (a matches SignInAction::Abort(m) && m@ == d@),
{
}

/// A failed action ends the sign-in: `Fail` answers only a failure of
/// reading the terminal or of requesting the login code, and the sign-in then
/// expects nothing more.
pub proof fn lemma_failure_ends_sign_in(s: SignInState, e: SignInEvent, t: SignInState, a: SignInAction)
    requires
        spec_transition(s, e, t, a),
        a is Fail,
    ensures
        e == SignInEvent::StepFailed,
        spec_may_fail(s),
        t == SignInState::Failed,
        forall|e2: SignInEvent| !spec_accepts(t, e2),
{
}

/// Every password prompt shows how the account's hint was given: the
/// prompt that comes with a wait for a password is `Enter the password
/// (<hint message>): ` for the hint message of that wait; the first one gets
/// the message `hint: "<hint>"` (or `no hint`) from Telegram's answer, and
/// each later one keeps the message of the password that was rejected.
pub proof fn lemma_password_prompt_shows_hint(s: SignInState, e: SignInEvent, t: SignInState, a: SignInAction)
    requires
        spec_transition(s, e, t, a),
        t is AwaitingPassword,
    ensures
        a matches SignInAction::Prompt(m) && m@ == "Enter the password ("@ + t->AwaitingPassword_hint_message@
            + "): "@,
        s is SigningIn ==> (e matches SignInEvent::SignInDone(SignInOutcome::PasswordRequired { hint })
            && t->AwaitingPassword_hint_message@ == match hint {
            Some(h) => "hint: \""@ + h@ + "\""@,
            None => "no hint"@,
        }),
        s is CheckingPassword ==> t->AwaitingPassword_hint_message@ == s->CheckingPassword_hint_message@
            && t->AwaitingPassword_attempt == s->CheckingPassword_attempt + 1,
        s is ReportingPasswordError ==> t->AwaitingPassword_hint_message@
            == s->ReportingPasswordError_hint_message@ && t->AwaitingPassword_attempt
            == s->ReportingPasswordError_attempt + 1,
        s is SigningIn || s is CheckingPassword || s is ReportingPasswordError,
{
}

/// How far a sign-in has come: 0 before the password, 1 while passwords are
/// asked for and checked, 2 once that is over.
pub open spec fn spec_phase(s: SignInState) -> int {
    match s {
        SignInState::Start => 0,
        SignInState::AwaitingPhone => 0,
        SignInState::RequestingCode => 0,
        SignInState::AwaitingCode => 0,
        SignInState::SigningIn => 0,
        SignInState::AwaitingPassword { .. } => 1,
        SignInState::CheckingPassword { .. } => 1,
        SignInState::ReportingPasswordError { .. } => 1,
        _ => 2,
    }
}

/// The hint message that a state of the password phase carries.
pub open spec fn spec_carried_hint(s: SignInState) -> Seq<char> {
    match s {
        SignInState::AwaitingPassword { hint_message, .. } => hint_message@,
        SignInState::CheckingPassword { hint_message, .. } => hint_message@,
        SignInState::ReportingPasswordError { hint_message, .. } => hint_message@,
        _ => Seq::empty(),
    }
}

proof fn lemma_step_keeps_phase(s: SignInState, e: SignInEvent, t: SignInState, a: SignInAction)
    requires
        spec_transition(s, e, t, a),
    ensures
        spec_phase(s) <= spec_phase(t),
        spec_phase(s) == 1 && spec_phase(t) == 1 ==> spec_carried_hint(s) == spec_carried_hint(t),
{
}

proof fn lemma_run_phase_grows(
    states: Seq<SignInState>,
    events: Seq<SignInEvent>,
    actions: Seq<SignInAction>,
    i: int,
    j: int,
)
    requires
        spec_is_run(states, events, actions),
        0 <= i <= j < states.len(),
    ensures
        spec_phase(states[i]) <= spec_phase(states[j]),
    decreases j - i,
{
    if i < j {
        assert(spec_transition(states[i], events[i], states[i + 1], actions[i]));
        lemma_step_keeps_phase(states[i], events[i], states[i + 1], actions[i]);
        lemma_run_phase_grows(states, events, actions, i + 1, j);
    }
}

proof fn lemma_run_keeps_hint(
    states: Seq<SignInState>,
    events: Seq<SignInEvent>,
    actions: Seq<SignInAction>,
    i: int,
    j: int,
)
    requires
        spec_is_run(states, events, actions),
        0 <= i <= j < states.len(),
        spec_phase(states[i]) == 1,
        spec_phase(states[j]) == 1,
    ensures
        spec_carried_hint(states[i]) == spec_carried_hint(states[j]),
    decreases j - i,
{
    if i < j {
        assert(spec_transition(states[i], events[i], states[i + 1], actions[i]));
        lemma_step_keeps_phase(states[i], events[i], states[i + 1], actions[i]);
        lemma_run_phase_grows(states, events, actions, i + 1, j);
        lemma_run_keeps_hint(states, events, actions, i + 1, j);
    }
}

/// All password prompts of a sign-in are the same: in any run, two prompts
/// that ask for a password (the first one or one after a rejected or failed
/// password) show the same text, the hint included.
pub proof fn lemma_password_prompts_agree(
    states: Seq<SignInState>,
    events: Seq<SignInEvent>,
    actions: Seq<SignInAction>,
    i: int,
    j: int,
)
    requires
        spec_is_run(states, events, actions),
        0 <= i < actions.len(),
        0 <= j < actions.len(),
        states[i + 1] is AwaitingPassword,
        states[j + 1] is AwaitingPassword,
    ensures
        actions[i] is Prompt,
        actions[j] is Prompt,
        actions[i]->Prompt_0@ == actions[j]->Prompt_0@,
{
    assert(spec_transition(states[i], events[i], states[i + 1], actions[i]));
    assert(spec_transition(states[j], events[j], states[j + 1], actions[j]));
    lemma_password_prompt_shows_hint(states[i], events[i], states[i + 1], actions[i]);
    lemma_password_prompt_shows_hint(states[j], events[j], states[j + 1], actions[j]);
    if i <= j {
        lemma_run_keeps_hint(states, events, actions, i + 1, j + 1);
    } else {
        lemma_run_keeps_hint(states, events, actions, j + 1, i + 1);
    }
}

} // verus!
