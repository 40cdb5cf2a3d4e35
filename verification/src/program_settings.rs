use vstd::prelude::*;
use crate::session::{Effect, EffectView, Session, SessionView};

verus! {

/// What the user has typed into the login form of the program settings.
#[derive(Clone, Default, Debug, PartialEq, Eq)]
pub struct ProgramSettingsState {
    pub box_key: String,
    pub box_secret: String,
}

/// The login form as contracts see it.
pub struct SettingsView {
    pub box_key: Seq<char>,
    pub box_secret: Seq<char>,
}

impl View for ProgramSettingsState {
    type V = SettingsView;

    open spec fn view(&self) -> SettingsView {
        SettingsView { box_key: self.box_key@, box_secret: self.box_secret@ }
    }
}

impl SettingsView {
    /// The form with nothing entered.
    pub open spec fn empty() -> SettingsView {
        SettingsView { box_key: Seq::empty(), box_secret: Seq::empty() }
    }
}

/// What happens in the program settings: the user types, asks to log in,
/// and the answer to a login arrives.
#[derive(Debug)]
pub enum ProgramSettingsMessage {
    UpdateKey(String),
    UpdateSecret(String),
    LoginButton,
    /// The remote storage has answered a login: with a token, or with the
    /// description of what went wrong.
    Login(Result<String, String>),
}

impl ProgramSettingsState {
    /// A form with nothing entered.
    pub fn empty() -> (form: ProgramSettingsState)
        ensures
            form@ == SettingsView::empty(),
    {
        ProgramSettingsState { box_key: String::new(), box_secret: String::new() }
    }
}

/// The answer to a login as contracts see it.
pub open spec fn answer_view(answer: Result<String, String>) -> Result<Seq<char>, Seq<char>> {
    match answer {
        Ok(token) => Ok(token@),
        Err(error) => Err(error@),
    }
}

/// The notice that a successful login leaves.
pub open spec fn login_notice() -> Seq<char> {
    "Logged in successfully"@
}

/// The session after the answer to a login has arrived. A token takes the
/// place of any earlier one, and a notice tells of the login. A failure
/// leaves its description as the notice, and the token as it was.
pub open spec fn session_after_login(
    before: SessionView,
    answer: Result<Seq<char>, Seq<char>>,
) -> SessionView {
    match answer {
        Ok(token) => SessionView { box_token: Some(token), notice: Some(login_notice()), ..before },
        Err(error) => SessionView { notice: Some(error), ..before },
    }
}

/// The session after something happened in the program settings.
pub open spec fn session_after_settings(
    before: SessionView,
    event: ProgramSettingsMessage,
) -> SessionView {
    match event {
        ProgramSettingsMessage::UpdateKey(key) => SessionView {
            program_set_state: SettingsView { box_key: key@, ..before.program_set_state },
            ..before
        },
        ProgramSettingsMessage::UpdateSecret(secret) => SessionView {
            program_set_state: SettingsView { box_secret: secret@, ..before.program_set_state },
            ..before
        },
        ProgramSettingsMessage::LoginButton => before,
        ProgramSettingsMessage::Login(answer) => session_after_login(before, answer_view(answer)),
    }
}

/// What the host is asked to do after something happened in the program
/// settings: each press of the login button asks for one token, with the
/// key and secret as they stand and the directory of the credentials.
pub open spec fn effect_of_settings(before: SessionView, event: ProgramSettingsMessage) -> EffectView {
    if event is LoginButton {
        EffectView::FetchToken {
            key: before.program_set_state.box_key,
            secret: before.program_set_state.box_secret,
            storage_dir: before.config_dir,
        }
    } else {
        EffectView::Nothing
    }
}

/// The name of the file, inside the directory that a request for a token
/// names, in which the credentials are kept.
pub fn credentials_file() -> (name: &'static str)
    ensures
        name@ == "auth.json"@,
{
    "auth.json"
}

/// Takes the answer to a login into the session, whenever it arrives and
/// whichever login it answers.
pub fn apply_login(state: &mut Session, answer: Result<String, String>)
    requires
        old(state).wf(),
    ensures
        final(state).wf(),
        final(state)@ == session_after_login(old(state)@, answer_view(answer)),
        final(state).panes == old(state).panes,
{
    match answer {
        Ok(token) => {
            state.box_token = Some(token);
            state.notice = Some("Logged in successfully".to_owned());
        },
        Err(error) => {
            state.notice = Some(error);
        },
    }
}

/// Handles what happens in the program settings.
pub fn handle_prog_settings(state: &mut Session, event: ProgramSettingsMessage) -> (effect: Effect)
    requires
        old(state).wf(),
    ensures
        final(state).wf(),
        final(state)@ == session_after_settings(old(state)@, event),
        effect@ == effect_of_settings(old(state)@, event),
        final(state).panes == old(state).panes,
{
    match event {
        ProgramSettingsMessage::UpdateKey(key) => {
            state.program_set_state.box_key = key;
            Effect::Nothing
        },
        ProgramSettingsMessage::UpdateSecret(secret) => {
            state.program_set_state.box_secret = secret;
            Effect::Nothing
        },
        ProgramSettingsMessage::LoginButton => Effect::FetchToken {
            key: state.program_set_state.box_key.clone(),
            secret: state.program_set_state.box_secret.clone(),
            storage_dir: state.config_dir.clone(),
        },
        ProgramSettingsMessage::Login(answer) => {
            apply_login(state, answer);
            Effect::Nothing
        },
    }
}

/// Of two logins whose answers arrive one after the other, the later answer
/// decides: its token is the one in effect, whichever login was asked for
/// first. A later failure leaves the token that the earlier answer left.
pub proof fn lemma_last_answer_decides(
    before: SessionView,
    earlier: Result<Seq<char>, Seq<char>>,
    later: Result<Seq<char>, Seq<char>>,
)
    ensures
        later matches Ok(token) ==> session_after_login(
            session_after_login(before, earlier),
            later,
        ).box_token == Some(token),
        later is Err ==> session_after_login(session_after_login(before, earlier), later).box_token
            == session_after_login(before, earlier).box_token,
        later matches Err(error) ==> session_after_login(
            session_after_login(before, earlier),
            later,
        ).notice == Some(error),
{
}

} // verus!
