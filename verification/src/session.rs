use vstd::prelude::*;
use crate::panes::{
    distinct_contents, drop_takes_effect, ids_after_drop, leaves_after_drop,
    lemma_drop_keeps_arrangement, numbered_within, pane_number, ratios_after_resize,
    resize_ratio, resize_split, DragEvent, PaneContent, PaneLayout, ResizeRequest,
};
use crate::program_settings::{
    effect_of_settings, handle_prog_settings, session_after_settings, ProgramSettingsMessage,
    ProgramSettingsState, SettingsView,
};
use crate::project::{
    close_project, effect_of_creation, handle_new_proj_ev, new_project,
    session_after_close_project, session_after_creation, FormView, NewProjEvent, NewProjState,
    Project, ProjectView,
};
use crate::screens::{change_screen, session_after_screen, Screen};
use crate::subwindows::{
    entries_after_close_handle, entries_after_close_kind, entries_after_open, has_handle,
    has_kind, first_of_kind, first_with_handle, lemma_close_keeps_singletons,
    lemma_handle_has_first, lemma_kind_has_first, lemma_open_keeps_singletons, singletons_unique,
    outcome_of_close_handle, outcome_of_close_kind,
    outcome_of_open, CloseOutcome, OpenOutcome, Subwindow, WindowHandle, WindowRegistry,
    WindowSize,
};

verus! {

/// The whole state of a running application. One owner holds it and hands it
/// to `update` for each message in turn.
#[derive(Debug)]
pub struct Session {
    pub windows: WindowRegistry,
    pub screen: Screen,
    pub panes: PaneLayout,
    pub project: Option<Project>,
    pub box_token: Option<String>,
    pub new_proj_state: NewProjState,
    pub program_set_state: ProgramSettingsState,
    pub config_dir: String,
    pub notice: Option<String>,
}

/// A session as contracts see it. Of the pane layout it holds the leaves,
/// each as the number of its pane and what it shows, and how many numbers
/// the grid has handed out.
pub struct SessionView {
    pub windows: Seq<(WindowHandle, Subwindow)>,
    pub screen: Screen,
    pub panes: Seq<(int, PaneContent)>,
    pub ids_used: nat,
    pub project: Option<ProjectView>,
    pub box_token: Option<Seq<char>>,
    pub new_proj_state: FormView,
    pub program_set_state: SettingsView,
    pub config_dir: Seq<char>,
    pub notice: Option<Seq<char>>,
}

impl SessionView {
    /// What holds of every session: each singleton kind of window is open at
    /// most once, the project screen is shown only while a project is
    /// active, and the pane layout has a leaf, no pane number and no content
    /// twice, and no number beyond those handed out.
    pub open spec fn wf(self) -> bool {
        &&& singletons_unique(self.windows)
        &&& self.screen is Project ==> self.project is Some
        &&& numbered_within(self.panes, self.ids_used as int)
        &&& distinct_contents(self.panes)
    }
}

/// An optional text as contracts see it.
pub open spec fn text_view(text: Option<String>) -> Option<Seq<char>> {
    match text {
        Some(text) => Some(text@),
        None => None,
    }
}

/// An optional project as contracts see it.
pub open spec fn project_view(project: Option<Project>) -> Option<ProjectView> {
    match project {
        Some(project) => Some(project@),
        None => None,
    }
}

impl View for Session {
    type V = SessionView;

    open spec fn view(&self) -> SessionView {
        SessionView {
            windows: self.windows@,
            screen: self.screen,
            panes: self.panes@,
            ids_used: self.panes.ids_used(),
            project: project_view(self.project),
            box_token: text_view(self.box_token),
            new_proj_state: self.new_proj_state@,
            program_set_state: self.program_set_state@,
            config_dir: self.config_dir@,
            notice: text_view(self.notice),
        }
    }
}

/// What the host is asked to do after a message has been handled.
#[derive(Debug, PartialEq, Eq)]
pub enum Effect {
    /// Nothing.
    Nothing,
    /// Show the window that was registered under `handle`, at `size`.
    OpenWindow { handle: WindowHandle, size: WindowSize },
    /// Destroy the window.
    CloseWindow(WindowHandle),
    /// Destroy the main window and end the process.
    CloseMainAndExit(WindowHandle),
    /// Ask the remote storage for a token, off the event loop; the answer
    /// comes back as a message.
    FetchToken { key: String, secret: String, storage_dir: String },
    /// Show the folder picker, off the event loop; the answer comes back as
    /// a message.
    PickFolder,
    /// Show the address in the user's browser.
    OpenLink(String),
}

/// An effect as contracts see it.
pub enum EffectView {
    Nothing,
    OpenWindow { handle: WindowHandle, size: WindowSize },
    CloseWindow(WindowHandle),
    CloseMainAndExit(WindowHandle),
    FetchToken { key: Seq<char>, secret: Seq<char>, storage_dir: Seq<char> },
    PickFolder,
    OpenLink(Seq<char>),
}

impl View for Effect {
    type V = EffectView;

    open spec fn view(&self) -> EffectView {
        match self {
            Effect::Nothing => EffectView::Nothing,
            Effect::OpenWindow { handle, size } => EffectView::OpenWindow {
                handle: *handle,
                size: *size,
            },
            Effect::CloseWindow(handle) => EffectView::CloseWindow(*handle),
            Effect::CloseMainAndExit(handle) => EffectView::CloseMainAndExit(*handle),
            Effect::FetchToken { key, secret, storage_dir } => EffectView::FetchToken {
                key: key@,
                secret: secret@,
                storage_dir: storage_dir@,
            },
            Effect::PickFolder => EffectView::PickFolder,
            Effect::OpenLink(url) => EffectView::OpenLink(url@),
        }
    }
}

/// Everything that can happen to a session.
#[derive(Debug)]
pub enum Message {
    /// Nothing happened that concerns the session.
    Nothing,
    /// A notice to record.
    Debug(String),
    /// A window of the kind is asked for; the handle is the one that the
    /// host offers for it.
    OpenWindow(Subwindow, WindowHandle),
    CloseWindow(Subwindow),
    CloseWinById(WindowHandle),
    ChangeScreen(Screen),
    NewProj,
    CloseProj,
    PaneResized(ResizeRequest),
    PaneSwap(DragEvent),
    ProgSetMessage(ProgramSettingsMessage),
    NewProjMessage(NewProjEvent),
    OpenLink(String),
}

impl Session {
    /// The session's invariant: what holds of its view, and a well-formed
    /// pane layout.
    pub open spec fn wf(&self) -> bool {
        &&& self@.wf()
        &&& self.panes.wf()
    }

    /// The session at the start of the application: no window, the home
    /// screen, no project, no token, and a layout of the file list alone.
    /// `config_dir` is the directory in which credentials are kept.
    pub fn new(config_dir: String) -> (session: Session)
        ensures
            session.wf(),
            session@ == (SessionView {
                windows: Seq::empty(),
                screen: Screen::Home,
                panes: seq![(0int, PaneContent::FileList)],
                ids_used: 1,
                project: None,
                box_token: None,
                new_proj_state: FormView::empty(),
                program_set_state: SettingsView::empty(),
                config_dir: config_dir@,
                notice: None,
            }),
    {
        Session {
            windows: WindowRegistry::new(),
            screen: Screen::Home,
            panes: PaneLayout::single(PaneContent::FileList),
            project: None,
            box_token: None,
            new_proj_state: NewProjState::empty(),
            program_set_state: ProgramSettingsState::empty(),
            config_dir,
            notice: None,
        }
    }
}

/// What the host reports of a window.
#[derive(Debug, Clone, Copy, PartialEq, Eq, Structural)]
pub enum WindowEvent {
    /// The window is gone.
    Closed,
    /// The user asked to close the window.
    CloseRequested,
    /// Anything else.
    Other,
}

/// The session after a window was asked to close, with `outcome` as what
/// the registry reported and `entries` as what it then holds. With the main
/// window the project closes. With a window for a new project the form is
/// discarded.
pub open spec fn session_after_close(
    before: SessionView,
    outcome: CloseOutcome,
    entries: Seq<(WindowHandle, Subwindow)>,
) -> SessionView {
    match outcome {
        CloseOutcome::Unknown => before,
        CloseOutcome::MainClosing { .. } => session_after_close_project(before),
        CloseOutcome::Closed { kind, .. } => SessionView {
            windows: entries,
            new_proj_state: if kind is NewProject {
                FormView::empty()
            } else {
                before.new_proj_state
            },
            ..before
        },
    }
}

/// What the host is asked to do after a window was asked to close.
pub open spec fn effect_of_close(outcome: CloseOutcome) -> EffectView {
    match outcome {
        CloseOutcome::Unknown => EffectView::Nothing,
        CloseOutcome::MainClosing { handle } => EffectView::CloseMainAndExit(handle),
        CloseOutcome::Closed { handle, .. } => EffectView::CloseWindow(handle),
    }
}

/// What the host is asked to do after a window was asked for.
pub open spec fn effect_of_open(outcome: OpenOutcome) -> EffectView {
    match outcome {
        OpenOutcome::Opened { handle, size } => EffectView::OpenWindow { handle, size },
        OpenOutcome::AlreadyOpen { .. } => EffectView::Nothing,
    }
}

/// The session after `message`.
pub open spec fn next_session(before: SessionView, message: Message) -> SessionView {
    match message {
        Message::Nothing => before,
        Message::Debug(text) => SessionView { notice: Some(text@), ..before },
        Message::OpenWindow(kind, candidate) => SessionView {
            windows: entries_after_open(before.windows, kind, candidate),
            ..before
        },
        Message::CloseWindow(kind) => session_after_close(
            before,
            outcome_of_close_kind(before.windows, kind),
            entries_after_close_kind(before.windows, kind),
        ),
        Message::CloseWinById(handle) => session_after_close(
            before,
            outcome_of_close_handle(before.windows, handle),
            entries_after_close_handle(before.windows, handle),
        ),
        Message::ChangeScreen(screen) => session_after_screen(before, screen),
        Message::NewProj => session_after_creation(before),
        Message::CloseProj => session_after_close_project(before),
        Message::PaneResized(_) => before,
        Message::PaneSwap(DragEvent::Dropped { pane, target }) => SessionView {
            panes: leaves_after_drop(before.panes, before.ids_used, pane_number(pane), target),
            ids_used: ids_after_drop(before.panes, before.ids_used, pane_number(pane), target),
            ..before
        },
        Message::PaneSwap(_) => before,
        Message::ProgSetMessage(event) => session_after_settings(before, event),
        Message::NewProjMessage(event) => SessionView {
            new_proj_state: before.new_proj_state.after(event),
            ..before
        },
        Message::OpenLink(_) => before,
    }
}

/// What the host is asked to do after `message`.
pub open spec fn effect_of(before: SessionView, message: Message) -> EffectView {
    match message {
        Message::OpenWindow(kind, candidate) => effect_of_open(
            outcome_of_open(before.windows, kind, candidate),
        ),
        Message::CloseWindow(kind) => effect_of_close(outcome_of_close_kind(before.windows, kind)),
        Message::CloseWinById(handle) => effect_of_close(
            outcome_of_close_handle(before.windows, handle),
        ),
        Message::NewProj => effect_of_creation(before),
        Message::ProgSetMessage(event) => effect_of_settings(before, event),
        Message::NewProjMessage(NewProjEvent::PickFolder) => EffectView::PickFolder,
        Message::OpenLink(url) => EffectView::OpenLink(url@),
        _ => EffectView::Nothing,
    }
}

/// Whether `message` leaves the grid untouched, down to the places of its
/// dividers. All do but a resize, a release of a pane that has an effect,
/// and the creation of a project.
pub open spec fn keeps_grid(before: SessionView, message: Message) -> bool {
    match message {
        Message::PaneResized(_) => false,
        Message::PaneSwap(DragEvent::Dropped { pane, target }) => !drop_takes_effect(
            before.panes,
            before.ids_used,
            pane_number(pane),
            target,
        ),
        Message::NewProj => before.new_proj_state.verdict(before.box_token is Some) is Err,
        _ => true,
    }
}

/// No message leads out of the sessions in which each singleton kind of
/// window is open at most once, the project screen has its project, and the
/// pane layout is well arranged.
pub proof fn lemma_every_message_keeps_invariant(before: SessionView, message: Message)
    requires
        before.wf(),
    ensures
        next_session(before, message).wf(),
{
    match message {
        Message::PaneSwap(DragEvent::Dropped { pane, target }) => {
            lemma_drop_keeps_arrangement(before.panes, before.ids_used, pane_number(pane), target);
        },
        Message::OpenWindow(kind, candidate) => {
            lemma_open_keeps_singletons(before.windows, kind, candidate);
        },
        Message::CloseWindow(kind) => {
            if has_kind(before.windows, kind) {
                lemma_kind_has_first(before.windows, kind);
                lemma_close_keeps_singletons(before.windows, first_of_kind(before.windows, kind));
            }
        },
        Message::CloseWinById(handle) => {
            if has_handle(before.windows, handle) {
                lemma_handle_has_first(before.windows, handle);
                lemma_close_keeps_singletons(
                    before.windows,
                    first_with_handle(before.windows, handle),
                );
            }
        },
        Message::NewProj => {
            if has_kind(before.windows, Subwindow::NewProject) {
                lemma_kind_has_first(before.windows, Subwindow::NewProject);
                lemma_close_keeps_singletons(
                    before.windows,
                    first_of_kind(before.windows, Subwindow::NewProject),
                );
            }
        },
        _ => {},
    }
}

/// The place in the registry of the window that `message` asks to close,
/// if it asks for that and the registry has such a window.
pub open spec fn closing(before: SessionView, message: Message) -> Option<int> {
    match message {
        Message::CloseWindow(kind) => if has_kind(before.windows, kind) {
            Some(first_of_kind(before.windows, kind))
        } else {
            None
        },
        Message::CloseWinById(handle) => if has_handle(before.windows, handle) {
            Some(first_with_handle(before.windows, handle))
        } else {
            None
        },
        _ => None,
    }
}

/// Closing the main window, by its kind or by its handle, closes the
/// project and asks the host to end the process.
pub proof fn lemma_closing_main_ends_session(before: SessionView, message: Message)
    requires
        closing(before, message) matches Some(at) && before.windows[at].1 is Main,
    ensures
        next_session(before, message).project is None,
        next_session(before, message).screen is Home,
        effect_of(before, message) == EffectView::CloseMainAndExit(
            before.windows[closing(before, message).unwrap()].0,
        ),
{
}

/// Closing any other window, by its kind or by its handle, removes exactly
/// its entry from the registry, asks the host to destroy that window, and
/// leaves the project and the screen as they were.
pub proof fn lemma_closing_other_removes_one(before: SessionView, message: Message)
    requires
        closing(before, message) matches Some(at) && !(before.windows[at].1 is Main),
    ensures
        0 <= closing(before, message).unwrap() < before.windows.len(),
        next_session(before, message).windows == before.windows.remove(
            closing(before, message).unwrap(),
        ),
        next_session(before, message).windows.len() == before.windows.len() - 1,
        next_session(before, message).project == before.project,
        next_session(before, message).screen == before.screen,
        effect_of(before, message) == EffectView::CloseWindow(
            before.windows[closing(before, message).unwrap()].0,
        ),
{
    match message {
        Message::CloseWindow(kind) => {
            lemma_kind_has_first(before.windows, kind);
        },
        Message::CloseWinById(handle) => {
            lemma_handle_has_first(before.windows, handle);
        },
        _ => {},
    }
}

/// A message for an unknown window (a kind that is not open, a handle that
/// is not registered) changes nothing and asks nothing of the host.
pub proof fn lemma_closing_unknown_is_ignored(before: SessionView, message: Message)
    requires
        message is CloseWindow || message is CloseWinById,
        closing(before, message) is None,
    ensures
        next_session(before, message) == before,
        effect_of(before, message) == EffectView::Nothing,
{
}

/// The message that a report of the host about the window `handle` stands
/// for: a window that is gone, or that the user asked to close, is closed;
/// nothing else concerns the session.
pub fn window_message(handle: WindowHandle, event: WindowEvent) -> (message: Message)
    ensures
        message == if event is Other {
            Message::Nothing
        } else {
            Message::CloseWinById(handle)
        },
{
    match event {
        WindowEvent::Closed | WindowEvent::CloseRequested => Message::CloseWinById(handle),
        WindowEvent::Other => Message::Nothing,
    }
}

fn window_closed(state: &mut Session, outcome: CloseOutcome, Ghost(before): Ghost<SessionView>) -> (effect: Effect)
    requires
        old(state).wf(),
        old(state)@ == (SessionView { windows: old(state)@.windows, ..before }),
        outcome is Unknown ==> old(state)@.windows == before.windows,
        outcome is MainClosing ==> old(state)@.windows == before.windows,
    ensures
        final(state).wf(),
        final(state)@ == session_after_close(before, outcome, old(state)@.windows),
        final(state).panes == old(state).panes,
        effect@ == effect_of_close(outcome),
{
    match outcome {
        CloseOutcome::Unknown => Effect::Nothing,
        CloseOutcome::MainClosing { handle } => {
            close_project(state);
            Effect::CloseMainAndExit(handle)
        },
        CloseOutcome::Closed { handle, kind } => {
            if kind == Subwindow::NewProject {
                state.new_proj_state = NewProjState::empty();
            }
            Effect::CloseWindow(handle)
        },
    }
}

/// Handles one message: the single place where a session changes. The
/// result says what the host is to do next.
pub fn update(state: &mut Session, message: Message) -> (effect: Effect)
    requires
        old(state).wf(),
    ensures
        final(state).wf(),
        final(state)@ == next_session(old(state)@, message),
        effect@ == effect_of(old(state)@, message),
        keeps_grid(old(state)@, message) ==> final(state).panes == old(state).panes,
        message matches Message::PaneResized(event) ==> final(state).panes.ratios()
            == ratios_after_resize(
            old(state).panes.ratios(),
            resize_split(event),
            resize_ratio(event),
        ),
{
    let ghost before = state@;
    let effect = match message {
        Message::Nothing => Effect::Nothing,
        Message::Debug(text) => {
            state.notice = Some(text);
            Effect::Nothing
        },
        Message::OpenWindow(kind, candidate) => {
            match state.windows.open(kind, candidate) {
                OpenOutcome::Opened { handle, size } => Effect::OpenWindow { handle, size },
                OpenOutcome::AlreadyOpen { .. } => Effect::Nothing,
            }
        },
        Message::CloseWindow(kind) => {
            let outcome = state.windows.close_kind(kind);
            window_closed(state, outcome, Ghost(before))
        },
        Message::CloseWinById(handle) => {
            let outcome = state.windows.close_handle(handle);
            window_closed(state, outcome, Ghost(before))
        },
        Message::ChangeScreen(screen) => {
            change_screen(state, screen);
            Effect::Nothing
        },
        Message::NewProj => new_project(state),
        Message::CloseProj => {
            close_project(state);
            Effect::Nothing
        },
        Message::PaneResized(event) => {
            state.panes.resize(&event);
            Effect::Nothing
        },
        Message::PaneSwap(DragEvent::Dropped { pane, target }) => {
            state.panes.drag_swap(pane, target);
            Effect::Nothing
        },
        Message::PaneSwap(_) => Effect::Nothing,
        Message::ProgSetMessage(event) => handle_prog_settings(state, event),
        Message::NewProjMessage(event) => handle_new_proj_ev(&mut state.new_proj_state, event),
        Message::OpenLink(url) => Effect::OpenLink(url),
    };
    proof {
        state.panes.lemma_always_well_arranged();
    }
    effect
}

impl Session {
    /// The kind of window to draw for `handle`; `None` for a handle that the
    /// registry does not know, for which nothing is drawn.
    pub fn route(&self, handle: WindowHandle) -> (kind: Option<Subwindow>)
        ensures
            kind == if has_handle(self@.windows, handle) {
                Some(self@.windows[first_with_handle(self@.windows, handle)].1)
            } else {
                None
            },
    {
        self.windows.route(handle)
    }

    /// The screens that the main window offers to go to: the home screen,
    /// and the project screen while a project is active.
    pub fn tabs(&self) -> (tabs: Vec<Screen>)
        ensures
            tabs@ == if self@.project is Some {
                seq![Screen::Home, Screen::Project]
            } else {
                seq![Screen::Home]
            },
    {
        let mut tabs = Vec::new();
        tabs.push(Screen::Home);
        if self.project.is_some() {
            tabs.push(Screen::Project);
        }
        assert(tabs@ =~= if self@.project is Some {
            seq![Screen::Home, Screen::Project]
        } else {
            seq![Screen::Home]
        });
        tabs
    }

    /// Whether the form for a new project allows its creation now.
    pub fn can_create(&self) -> (allowed: bool)
        ensures
            allowed == (self@.new_proj_state.verdict(self@.box_token is Some) is Ok),
    {
        self.new_proj_state.check(self.box_token.is_some()).is_ok()
    }
}

} // verus!
