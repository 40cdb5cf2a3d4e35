use vstd::prelude::*;
use crate::session::{Session, SessionView};

verus! {

/// The logical screen shown in the main window.
#[derive(Debug, Clone, Copy, PartialEq, Eq, Structural)]
pub enum Screen {
    Home,
    Project,
}

/// The screen that a request for `target` leads to: the project screen is
/// reached only while a project is active, and a request for it without one
/// leads home.
pub open spec fn effective_screen(has_project: bool, target: Screen) -> Screen {
    if has_project && target is Project {
        Screen::Project
    } else {
        Screen::Home
    }
}

/// The session after a request for the screen `target`.
pub open spec fn session_after_screen(before: SessionView, target: Screen) -> SessionView {
    SessionView { screen: effective_screen(before.project is Some, target), ..before }
}

/// Decides the screen to show for a request.
pub fn resolve_screen(has_project: bool, target: Screen) -> (shown: Screen)
    ensures
        shown == effective_screen(has_project, target),
{
    if has_project && target == Screen::Project {
        Screen::Project
    } else {
        Screen::Home
    }
}

/// Handles a request for the screen `screen`. Nothing but the screen
/// changes.
pub fn change_screen(state: &mut Session, screen: Screen)
    requires
        old(state).wf(),
    ensures
        final(state).wf(),
        final(state)@ == session_after_screen(old(state)@, screen),
        final(state).panes == old(state).panes,
{
    state.screen = resolve_screen(state.project.is_some(), screen);
}

/// The session after the requests of `targets` were handled one after
/// another.
pub open spec fn session_after_screens(before: SessionView, targets: Seq<Screen>) -> SessionView
    decreases targets.len(),
{
    if targets.len() == 0 {
        before
    } else {
        session_after_screen(session_after_screens(before, targets.drop_last()), targets.last())
    }
}

/// Requests for a screen change nothing but the screen. After any number of
/// them, the project screen is shown exactly if the last request was for it
/// and a project was active when it was made.
pub proof fn lemma_last_request_decides(before: SessionView, targets: Seq<Screen>)
    requires
        targets.len() > 0,
    ensures
        session_after_screens(before, targets) == (SessionView {
            screen: session_after_screens(before, targets).screen,
            ..before
        }),
        session_after_screens(before, targets).screen is Project <==> before.project is Some
            && targets.last() is Project,
        targets.last() is Project ==> (session_after_screens(before, targets).screen is Project
            <==> before.project is Some),
    decreases targets.len(),
{
    if targets.len() > 1 {
        lemma_last_request_decides(before, targets.drop_last());
    } else {
        assert(session_after_screens(before, targets.drop_last()) == before);
    }
}

} // verus!
