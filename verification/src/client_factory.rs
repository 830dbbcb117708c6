use vstd::prelude::*;
use vstd::string::*;

use crate::session::{ListedEntry, SessionsManager};

verus! {

/// What is printed before the description of a failure to save the session.
pub const SAVE_FAILURE_PREFIX: &'static str = "NOTE: failed to save the session: ";

/// How to connect a client.
#[derive(Clone, Debug)]
pub struct ConnectParams {
    /// The file from which the session is loaded, or where it is created.
    pub session_file: String,
    pub api_id: i32,
    pub api_hash: String,
    /// Whether the client catches up on the updates it missed.
    pub catch_up: bool,
}

/// How saving the session ended.
#[derive(Clone, Debug)]
pub enum SaveOutcome {
    Saved,
    /// The text describes the failure.
    Failed(String),
}

/// What happened since the last action.
#[derive(Clone, Debug)]
pub enum ClientEvent {
    /// Making a client starts.
    Begin,
    /// The session file was found, at this path.
    SessionLocated(String),
    /// The client is connected.
    Connected,
    /// Whether the client is authorized.
    Authorized(bool),
    /// The sign-in is over.
    SignedIn,
    /// How saving the session ended.
    SessionSaved(SaveOutcome),
    /// A message was printed.
    Printed,
    /// Performing the last action failed: loading the session or connecting,
    /// asking whether the client is authorized, or signing in.
    StepFailed,
}

/// What the caller is to do next.
#[derive(Clone, Debug)]
pub enum ClientAction {
    /// Find the session file (see `SessionsManager`); answer with `SessionLocated`.
    LocateSession,
    /// Connect with these parameters; answer with `Connected`.
    Connect(ConnectParams),
    /// Ask whether the client is authorized; answer with `Authorized`.
    CheckAuthorization,
    /// Sign the client in (see `sign_in::step`); answer with `SignedIn`.
    SignIn,
    /// Save the client's session to this file; answer with `SessionSaved`.
    SaveSession(String),
    /// Print this line; answer with `Printed`.
    Print(String),
    /// The client is ready.
    Finish,
    /// End with the error that the last action met.
    Fail,
}

/// Where making a client stands.
#[derive(Clone, Debug)]
pub enum ClientState {
    Start,
    LocatingSession,
    Connecting { session_file: String },
    CheckingAuthorization { session_file: String },
    SigningIn { session_file: String },
    SavingSession,
    ReportingSaveFailure,
    Done,
    /// Ended by the error of an action.
    Failed,
}

/// The states whose last action can fail: connecting (which loads or creates
/// the session file), asking whether the client is authorized, and signing in.
pub open spec fn spec_may_fail(s: ClientState) -> bool {
    ||| s is Connecting
    ||| s is CheckingAuthorization
    ||| s is SigningIn
}

/// Makes connected, authorized clients.
#[derive(Clone, Debug)]
pub struct ClientFactory {
    pub api_id: i32,
    pub api_hash: String,
    pub sessions_manager: SessionsManager,
}

impl ClientFactory {
    /// A factory for clients of the application `api_id` / `api_hash` whose
    /// sessions are kept in `sessions_folder`, which listed `present_sessions_files`.
    pub fn new(
        sessions_folder: String,
        present_sessions_files: Vec<ListedEntry>,
        api_id: i32,
        api_hash: String,
    ) -> (r: Self)
        ensures
            r.api_id == api_id,
            r.api_hash == api_hash,
            r.sessions_manager.sessions_folder == sessions_folder,
            r.sessions_manager.present_sessions_files == present_sessions_files,
            r.sessions_manager.next_entry == 0,
    {
        let sessions_manager = SessionsManager::new(sessions_folder, present_sessions_files);
        ClientFactory { api_id, api_hash, sessions_manager }
    }

    /// One step of making a client: in state `s`, on event `e`, the state
    /// becomes `t` and the caller is asked to perform `a`.
    pub open spec fn spec_transition(self, s: ClientState, e: ClientEvent, t: ClientState, a: ClientAction) -> bool {
        if e == ClientEvent::StepFailed {
            spec_may_fail(s) && t == ClientState::Failed && a == ClientAction::Fail
        } else {
            self.spec_transition_on_success(s, e, t, a)
        }
    }

    /// One step of making a client whose last action succeeded.
    pub open spec fn spec_transition_on_success(
        self,
        s: ClientState,
        e: ClientEvent,
        t: ClientState,
        a: ClientAction,
    ) -> bool {
        match s {
            ClientState::Start => e == ClientEvent::Begin && t == ClientState::LocatingSession && a
                == ClientAction::LocateSession,
            ClientState::LocatingSession => e matches ClientEvent::SessionLocated(f) && t == (ClientState::Connecting {
                session_file: f,
            }) && a == ClientAction::Connect(
                ConnectParams {
                    session_file: f,
                    api_id: self.api_id,
                    api_hash: self.api_hash,
                    catch_up: true,
                },
            ),
            ClientState::Connecting { session_file } => e == ClientEvent::Connected && t
                == (ClientState::CheckingAuthorization { session_file }) && a == ClientAction::CheckAuthorization,
            ClientState::CheckingAuthorization { session_file } => e matches ClientEvent::Authorized(yes) && if yes {
                t == ClientState::Done && a == ClientAction::Finish
            } else {
                t == (ClientState::SigningIn { session_file }) && a == ClientAction::SignIn
            },
            ClientState::SigningIn { session_file } => e == ClientEvent::SignedIn && t == ClientState::SavingSession
                && a == ClientAction::SaveSession(session_file),
            ClientState::SavingSession => e matches ClientEvent::SessionSaved(o) && match o {
                SaveOutcome::Saved => t == ClientState::Done && a == ClientAction::Finish,
                SaveOutcome::Failed(d) => t == ClientState::ReportingSaveFailure && (a matches ClientAction::Print(m)
                    && m@ == SAVE_FAILURE_PREFIX@ + d@),
            },
            ClientState::ReportingSaveFailure => e == ClientEvent::Printed && t == ClientState::Done && a
                == ClientAction::Finish,
            ClientState::Done => false,
            ClientState::Failed => false,
        }
    }

    /// Whether a state expects an event.
    pub open spec fn spec_accepts(s: ClientState, e: ClientEvent) -> bool {
        if e == ClientEvent::StepFailed {
            spec_may_fail(s)
        } else {
            Self::spec_accepts_on_success(s, e)
        }
    }

    /// Whether a state expects an event that reports success.
    pub open spec fn spec_accepts_on_success(s: ClientState, e: ClientEvent) -> bool {
        match s {
            ClientState::Start => e == ClientEvent::Begin,
            ClientState::LocatingSession => e is SessionLocated,
            ClientState::Connecting { .. } => e == ClientEvent::Connected,
            ClientState::CheckingAuthorization { .. } => e is Authorized,
            ClientState::SigningIn { .. } => e == ClientEvent::SignedIn,
            ClientState::SavingSession => e is SessionSaved,
            ClientState::ReportingSaveFailure => e == ClientEvent::Printed,
            ClientState::Done => false,
            ClientState::Failed => false,
        }
    }

    /// Whether a state expects an event.
    pub fn accepts(s: &ClientState, e: &ClientEvent) -> (r: bool)
        ensures
            r == Self::spec_accepts(*s, *e),
    {
        if matches!(e, ClientEvent::StepFailed) {
            return matches!(
                s,
                ClientState::Connecting { .. } | ClientState::CheckingAuthorization { .. }
                    | ClientState::SigningIn { .. }
            );
        }
        match s {
            ClientState::Start => matches!(e, ClientEvent::Begin),
            ClientState::LocatingSession => matches!(e, ClientEvent::SessionLocated(_)),
            ClientState::Connecting { .. } => matches!(e, ClientEvent::Connected),
            ClientState::CheckingAuthorization { .. } => matches!(e, ClientEvent::Authorized(_)),
            ClientState::SigningIn { .. } => matches!(e, ClientEvent::SignedIn),
            ClientState::SavingSession => matches!(e, ClientEvent::SessionSaved(_)),
            ClientState::ReportingSaveFailure => matches!(e, ClientEvent::Printed),
            ClientState::Done => false,
            ClientState::Failed => false,
        }
    }

    /// Performs one step of making a client: the next state and action where
    /// the state expects the event, else the state given back unchanged.
    pub fn make_client_step(&self, s: ClientState, e: ClientEvent) -> (r: Result<(ClientState, ClientAction), ClientState>)
        ensures
            match r {
                Ok((t, a)) => Self::spec_accepts(s, e) && self.spec_transition(s, e, t, a),
                Err(t) => !Self::spec_accepts(s, e) && t == s,
            },
    {
        if !Self::accepts(&s, &e) {
            return Err(s);
        }
        if matches!(e, ClientEvent::StepFailed) {
            return Ok((ClientState::Failed, ClientAction::Fail));
        }
        Ok(self.step_on_success(s, e))
    }

    /// One step of making a client whose last action succeeded.
    fn step_on_success(&self, s: ClientState, e: ClientEvent) -> (r: (ClientState, ClientAction))
        requires
            Self::spec_accepts_on_success(s, e),
            e != ClientEvent::StepFailed,
        ensures
            self.spec_transition(s, e, r.0, r.1),
    {
        match s {
            ClientState::Start => (ClientState::LocatingSession, ClientAction::LocateSession),
            ClientState::LocatingSession => match e {
                ClientEvent::SessionLocated(f) => {
                    let params = ConnectParams {
                        session_file: f.clone(),
                        api_id: self.api_id,
                        api_hash: self.api_hash.clone(),
                        catch_up: true,
                    };
                    (ClientState::Connecting { session_file: f }, ClientAction::Connect(params))
                },
                _ => {
                    assert(false);
                    (ClientState::Done, ClientAction::Finish)
                },
            },
            ClientState::Connecting { session_file } => (
                ClientState::CheckingAuthorization { session_file },
                ClientAction::CheckAuthorization,
            ),
            ClientState::CheckingAuthorization { session_file } => match e {
                ClientEvent::Authorized(yes) => {
                    if yes {
                        (ClientState::Done, ClientAction::Finish)
                    } else {
                        (ClientState::SigningIn { session_file }, ClientAction::SignIn)
                    }
                },
                _ => {
                    assert(false);
                    (ClientState::Done, ClientAction::Finish)
                },
            },
            ClientState::SigningIn { session_file } => (ClientState::SavingSession, ClientAction::SaveSession(session_file)),
            ClientState::SavingSession => match e {
                ClientEvent::SessionSaved(o) => match o {
                    SaveOutcome::Saved => (ClientState::Done, ClientAction::Finish),
                    SaveOutcome::Failed(d) => {
                        let mut m = String::from_str(SAVE_FAILURE_PREFIX);
                        m.append(d.as_str());
                        (ClientState::ReportingSaveFailure, ClientAction::Print(m))
                    },
                },
                _ => {
                    assert(false);
                    (ClientState::Done, ClientAction::Finish)
                },
            },
            ClientState::ReportingSaveFailure => (ClientState::Done, ClientAction::Finish),
            ClientState::Done => {
                assert(false);
                (ClientState::Done, ClientAction::Finish)
            },
            ClientState::Failed => {
                assert(false);
                (ClientState::Failed, ClientAction::Finish)
            },
        }
    }

    /// Whether `states`, `events` and `actions` are a run of steps of making a client.
    pub open spec fn spec_is_run(
        self,
        states: Seq<ClientState>,
        events: Seq<ClientEvent>,
        actions: Seq<ClientAction>,
    ) -> bool {
        &&& states.len() == events.len() + 1
        &&& actions.len() == events.len()
        &&& forall|i: int|
            #![trigger actions[i]]
            0 <= i < events.len() ==> self.spec_transition(states[i], events[i], states[i + 1], actions[i])
    }

    /// A client is signed in, and its session saved, only where it was not
    /// authorized: in a run from the start, a sign-in answers the report that
    /// the client is not authorized, and a save follows the sign-in, to the
    /// session file that the client was connected with.
    pub proof fn lemma_sign_in_only_when_unauthorized(
        self,
        states: Seq<ClientState>,
        events: Seq<ClientEvent>,
        actions: Seq<ClientAction>,
        i: int,
    )
        requires
            self.spec_is_run(states, events, actions),
            states[0] == ClientState::Start,
            0 <= i < actions.len(),
        ensures
            actions[i] is SignIn ==> events[i] == ClientEvent::Authorized(false),
            actions[i] is SaveSession ==> {
                &&& i >= 2
                &&& actions[i - 1] is SignIn
                &&& events[i - 1] == ClientEvent::Authorized(false)
                &&& actions[i] == ClientAction::SaveSession(states[i]->SigningIn_session_file)
            },
    {
        assert(self.spec_transition(states[i], events[i], states[i + 1], actions[i]));
        if actions[i] is SaveSession {
            assert(states[i] is SigningIn);
            assert(i != 0);
            assert(self.spec_transition(states[i - 1], events[i - 1], states[i], actions[i - 1]));
        }
    }

    /// A client that is already authorized is handed over as it is: the
    /// answer `Authorized(true)` ends the making of the client, with no sign-in
    /// and no save.
    pub proof fn lemma_authorized_client_is_finished(self, s: ClientState, t: ClientState, a: ClientAction)
        requires
            self.spec_transition(s, ClientEvent::Authorized(true), t, a),
        ensures
            t == ClientState::Done,
            a == ClientAction::Finish,
    {
    }

    /// A client is connected with this factory's credentials, with catching
    /// up on missed updates, and with the session file that was located.
    pub proof fn lemma_connect_uses_factory_credentials(
        self,
        s: ClientState,
        e: ClientEvent,
        t: ClientState,
        a: ClientAction,
    )
        requires
            self.spec_transition(s, e, t, a),
            a is Connect,
        ensures
            e is SessionLocated,
            a == ClientAction::Connect(
                ConnectParams {
                    session_file: e->SessionLocated_0,
                    api_id: self.api_id,
                    api_hash: self.api_hash,
                    catch_up: true,
                },
            ),
    {
    }

    /// A failed action ends the making of the client: `Fail` answers only a
    /// failure to connect, to ask for the authorization or to sign in, and
    /// nothing more is expected then.
    pub proof fn lemma_failure_ends_making(self, s: ClientState, e: ClientEvent, t: ClientState, a: ClientAction)
        requires
            self.spec_transition(s, e, t, a),
            a is Fail,
        ensures
            e == ClientEvent::StepFailed,
            spec_may_fail(s),
            t == ClientState::Failed,
            forall|e2: ClientEvent| !Self::spec_accepts(t, e2),
    {
    }

    /// A session is saved to the very file it was located at and loaded
    /// from: in a run from the start, a save is the fifth action, after the
    /// start, the located session file (`events[1]`), the connection with
    /// that file, and the reports that the client is connected and not
    /// authorized; its path is the located one, letter for letter.
    pub proof fn lemma_session_saved_where_located(
        self,
        states: Seq<ClientState>,
        events: Seq<ClientEvent>,
        actions: Seq<ClientAction>,
        i: int,
    )
        requires
            self.spec_is_run(states, events, actions),
            states[0] == ClientState::Start,
            0 <= i < actions.len(),
            actions[i] is SaveSession,
        ensures
            i == 4,
            events[0] == ClientEvent::Begin,
            events[1] is SessionLocated,
            actions[1] is Connect,
            actions[1]->Connect_0.session_file == events[1]->SessionLocated_0,
            events[2] == ClientEvent::Connected,
            events[3] == ClientEvent::Authorized(false),
            events[4] == ClientEvent::SignedIn,
            actions[i] == ClientAction::SaveSession(events[1]->SessionLocated_0),
    {
        assert(self.spec_transition(states[i], events[i], states[i + 1], actions[i]));
        assert(states[i] is SigningIn);
        assert(i >= 1);
        assert(self.spec_transition(states[i - 1], events[i - 1], states[i], actions[i - 1]));
        assert(states[i - 1] is CheckingAuthorization);
        assert(i >= 2);
        assert(self.spec_transition(states[i - 2], events[i - 2], states[i - 1], actions[i - 2]));
        assert(states[i - 2] is Connecting);
        assert(i >= 3);
        assert(self.spec_transition(states[i - 3], events[i - 3], states[i - 2], actions[i - 3]));
        assert(states[i - 3] == ClientState::LocatingSession);
        assert(i >= 4);
        assert(self.spec_transition(states[i - 4], events[i - 4], states[i - 3], actions[i - 4]));
        assert(states[i - 4] == ClientState::Start);
        if i > 4 {
            assert(self.spec_transition(states[i - 5], events[i - 5], states[i - 4], actions[i - 5]));
        }
    }
}

} // verus!
