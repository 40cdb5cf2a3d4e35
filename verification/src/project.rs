use vstd::prelude::*;
use crate::panes::{canonical_leaves, PaneLayout};
use crate::screens::Screen;
use crate::session::{Effect, EffectView, Session, SessionView};
use crate::subwindows::{
    entries_after_close_kind, outcome_of_close_kind, CloseOutcome, Subwindow,
};

verus! {

/// The active project: its name and the root of its file tree.
#[derive(Debug, Clone, PartialEq, Eq)]
pub struct Project {
    pub name: String,
    pub root: String,
}

/// A project as contracts see it.
pub struct ProjectView {
    pub name: Seq<char>,
    pub root: Seq<char>,
}

impl View for Project {
    type V = ProjectView;

    open spec fn view(&self) -> ProjectView {
        ProjectView { name: self.name@, root: self.root@ }
    }
}

/// Where the files of a project come from.
#[derive(Debug, Clone, PartialEq, Eq)]
pub enum ProjectSource {
    /// A folder on this machine.
    LocalPath(String),
    /// A folder of the remote storage, by its address.
    RemoteFolder(String),
}

/// A source as contracts see it.
pub enum SourceView {
    LocalPath(Seq<char>),
    RemoteFolder(Seq<char>),
}

impl View for ProjectSource {
    type V = SourceView;

    open spec fn view(&self) -> SourceView {
        match self {
            ProjectSource::LocalPath(path) => SourceView::LocalPath(path@),
            ProjectSource::RemoteFolder(url) => SourceView::RemoteFolder(url@),
        }
    }
}

impl SourceView {
    /// The path or address that the source names.
    pub open spec fn location(self) -> Seq<char> {
        match self {
            SourceView::LocalPath(path) => path,
            SourceView::RemoteFolder(url) => url,
        }
    }

    /// A remote folder can be reached only after a login.
    pub open spec fn needs_login(self) -> bool {
        self is RemoteFolder
    }
}

/// What the user has entered so far for a new project.
#[derive(Debug, Clone, PartialEq, Eq)]
pub struct NewProjState {
    pub name: String,
    pub source: Option<ProjectSource>,
}

/// The form as contracts see it.
pub struct FormView {
    pub name: Seq<char>,
    pub source: Option<SourceView>,
}

impl View for NewProjState {
    type V = FormView;

    open spec fn view(&self) -> FormView {
        FormView {
            name: self.name@,
            source: match self.source {
                Some(source) => Some(source@),
                None => None,
            },
        }
    }
}

impl FormView {
    /// The form with nothing entered.
    pub open spec fn empty() -> FormView {
        FormView { name: Seq::empty(), source: None }
    }

    /// The form names a source, and the source a place.
    pub open spec fn source_resolved(self) -> bool {
        self.source matches Some(source) && source.location().len() > 0
    }

    /// Whether a project can be created from the form, and if not, the first
    /// thing that stands against it.
    pub open spec fn verdict(self, logged_in: bool) -> Result<(), CreationError> {
        if self.name.len() == 0 {
            Err(CreationError::EmptyName)
        } else if !self.source_resolved() {
            Err(CreationError::MissingSource)
        } else if self.source.unwrap().needs_login() && !logged_in {
            Err(CreationError::LoginRequired)
        } else {
            Ok(())
        }
    }

    /// The form after an event.
    pub open spec fn after(self, event: NewProjEvent) -> FormView {
        match event {
            NewProjEvent::SetName(name) => FormView { name: name@, ..self },
            NewProjEvent::SetUrl(url) => FormView {
                source: Some(SourceView::RemoteFolder(url@)),
                ..self
            },
            NewProjEvent::FolderPicked(Some(path)) => FormView {
                source: Some(SourceView::LocalPath(path@)),
                ..self
            },
            NewProjEvent::FolderPicked(None) => self,
            NewProjEvent::PickFolder => self,
        }
    }

    /// The project that the form describes.
    pub open spec fn project(self) -> ProjectView {
        ProjectView { name: self.name, root: self.source.unwrap().location() }
    }
}

/// What the user does in the window for a new project, and what the folder
/// picker answers.
#[derive(Debug)]
pub enum NewProjEvent {
    SetName(String),
    SetUrl(String),
    /// The user asks for the folder picker.
    PickFolder,
    /// The folder picker has closed: with a folder, or with none where the
    /// user gave up.
    FolderPicked(Option<String>),
}

/// Why a project cannot be created from the form.
#[derive(Debug, Clone, Copy, PartialEq, Eq, Structural)]
pub enum CreationError {
    EmptyName,
    MissingSource,
    LoginRequired,
}

impl CreationError {
    /// The words in which the error is shown to the user.
    pub open spec fn text(self) -> Seq<char> {
        match self {
            CreationError::EmptyName => "The project needs a name"@,
            CreationError::MissingSource => "The project needs a source folder"@,
            CreationError::LoginRequired => "Log in before creating a project from a remote folder"@,
        }
    }

    /// The words in which the error is shown to the user.
    pub fn message(self) -> (text: &'static str)
        ensures
            text@ == self.text(),
    {
        match self {
            CreationError::EmptyName => "The project needs a name",
            CreationError::MissingSource => "The project needs a source folder",
            CreationError::LoginRequired => "Log in before creating a project from a remote folder",
        }
    }
}

impl NewProjState {
    /// A form with nothing entered.
    pub fn empty() -> (form: NewProjState)
        ensures
            form@ == FormView::empty(),
    {
        NewProjState { name: String::new(), source: None }
    }

    /// Whether a project can be created from the form. `logged_in` says
    /// whether a token is at hand.
    pub fn check(&self, logged_in: bool) -> (verdict: Result<(), CreationError>)
        ensures
            verdict == self@.verdict(logged_in),
    {
        if self.name.as_str().is_empty() {
            return Err(CreationError::EmptyName);
        }
        match &self.source {
            None => Err(CreationError::MissingSource),
            Some(ProjectSource::LocalPath(path)) => {
                if path.as_str().is_empty() {
                    Err(CreationError::MissingSource)
                } else {
                    Ok(())
                }
            },
            Some(ProjectSource::RemoteFolder(url)) => {
                if url.as_str().is_empty() {
                    Err(CreationError::MissingSource)
                } else if !logged_in {
                    Err(CreationError::LoginRequired)
                } else {
                    Ok(())
                }
            },
        }
    }

    /// The project that the form describes, for a form that names a source.
    pub fn to_project(&self) -> (project: Option<Project>)
        ensures
            project.is_some() == self@.source.is_some(),
            project matches Some(made) ==> made@ == self@.project(),
    {
        match &self.source {
            None => None,
            Some(ProjectSource::LocalPath(path)) => Some(
                Project { name: self.name.clone(), root: path.clone() },
            ),
            Some(ProjectSource::RemoteFolder(url)) => Some(
                Project { name: self.name.clone(), root: url.clone() },
            ),
        }
    }
}

/// The session after the project was closed: none is active, and the home
/// screen is shown.
pub open spec fn session_after_close_project(before: SessionView) -> SessionView {
    SessionView { project: None, screen: Screen::Home, ..before }
}

/// The session after the user asked to create the project of the form.
/// Where the form does not allow it, only a notice says why. Otherwise the
/// new project takes the place of any other, the project screen is shown,
/// the pane layout is the canonical one, the form is cleared and the first
/// window for a new project leaves the registry.
pub open spec fn session_after_creation(before: SessionView) -> SessionView {
    match before.new_proj_state.verdict(before.box_token is Some) {
        Err(error) => SessionView { notice: Some(error.text()), ..before },
        Ok(_) => SessionView {
            project: Some(before.new_proj_state.project()),
            screen: Screen::Project,
            panes: canonical_leaves(),
            ids_used: 5,
            new_proj_state: FormView::empty(),
            windows: entries_after_close_kind(before.windows, Subwindow::NewProject),
            ..before
        },
    }
}

/// What the host is asked to do after the user asked to create the project:
/// to destroy the window for a new project that left the registry.
pub open spec fn effect_of_creation(before: SessionView) -> EffectView {
    match before.new_proj_state.verdict(before.box_token is Some) {
        Err(_) => EffectView::Nothing,
        Ok(_) => match outcome_of_close_kind(before.windows, Subwindow::NewProject) {
            CloseOutcome::Closed { handle, .. } => EffectView::CloseWindow(handle),
            _ => EffectView::Nothing,
        },
    }
}

/// Closes the active project, if there is one, and shows the home screen.
pub fn close_project(state: &mut Session)
    requires
        old(state).wf(),
    ensures
        final(state).wf(),
        final(state)@ == session_after_close_project(old(state)@),
        final(state).panes == old(state).panes,
{
    state.screen = Screen::Home;
    state.project = None;
}

/// Creates the project that the form describes, where the form allows it:
/// with a name, a source that names a place and, for a remote folder, a
/// token. The layout is then the canonical one. Otherwise nothing changes
/// but the notice.
pub fn new_project(state: &mut Session) -> (effect: Effect)
    requires
        old(state).wf(),
    ensures
        final(state).wf(),
        final(state)@ == session_after_creation(old(state)@),
        effect@ == effect_of_creation(old(state)@),
        old(state)@.new_proj_state.verdict(old(state)@.box_token is Some) is Err ==> {
            final(state).panes == old(state).panes
        },
{
    let logged_in = state.box_token.is_some();
    match state.new_proj_state.check(logged_in) {
        Err(error) => {
            state.notice = Some(error.message().to_owned());
            Effect::Nothing
        },
        Ok(_) => {
            let project = state.new_proj_state.to_project();
            close_project(state);
            state.project = project;
            state.panes.reset(PaneLayout::canonical());
            state.new_proj_state = NewProjState::empty();
            state.screen = Screen::Project;
            match state.windows.close_kind(Subwindow::NewProject) {
                CloseOutcome::Closed { handle, .. } => Effect::CloseWindow(handle),
                _ => Effect::Nothing,
            }
        },
    }
}

/// Handles what happens in the window for a new project. A request for the
/// folder picker is passed on to the host; a picker that closed without a
/// folder changes nothing.
pub fn handle_new_proj_ev(state: &mut NewProjState, ev: NewProjEvent) -> (effect: Effect)
    ensures
        final(state)@ == old(state)@.after(ev),
        effect@ == if ev is PickFolder {
            EffectView::PickFolder
        } else {
            EffectView::Nothing
        },
{
    match ev {
        NewProjEvent::SetName(name) => {
            state.name = name;
            Effect::Nothing
        },
        NewProjEvent::SetUrl(url) => {
            state.source = Some(ProjectSource::RemoteFolder(url));
            Effect::Nothing
        },
        NewProjEvent::PickFolder => Effect::PickFolder,
        NewProjEvent::FolderPicked(Some(path)) => {
            state.source = Some(ProjectSource::LocalPath(path));
            Effect::Nothing
        },
        NewProjEvent::FolderPicked(None) => Effect::Nothing,
    }
}

/// A form without a name never leads to a project: the project stays as it
/// was, and so does the screen.
pub proof fn lemma_nameless_creation_rejected(before: SessionView)
    requires
        before.new_proj_state.name.len() == 0,
    ensures
        session_after_creation(before).project == before.project,
        session_after_creation(before).screen == before.screen,
        before.screen is Home ==> session_after_creation(before).screen is Home,
        session_after_creation(before).windows == before.windows,
        session_after_creation(before).panes == before.panes,
        effect_of_creation(before) == EffectView::Nothing,
{
}

/// Closing the project twice is closing it once.
pub proof fn lemma_close_project_idempotent(before: SessionView)
    ensures
        session_after_close_project(session_after_close_project(before))
            == session_after_close_project(before),
{
}

} // verus!
