use iced::window::Id;
use tagmaster::subwindows::{CloseOutcome, OpenOutcome, Subwindow, WindowRegistry, WindowSize};

fn entries(registry: &WindowRegistry) -> Vec<(Id, Subwindow)> {
    (0..registry.len()).map(|at| registry.entry(at).expect("an entry")).collect()
}

#[test]
fn new_registry_is_empty() {
    let registry = WindowRegistry::new();
    assert_eq!(registry.len(), 0);
    assert_eq!(registry.entry(0), None);
}

#[test]
fn singleton_kinds_are_the_three_fixed_windows() {
    assert!(Subwindow::Main.singleton());
    assert!(Subwindow::ProjectSettings.singleton());
    assert!(Subwindow::ProgramSettings.singleton());
    assert!(!Subwindow::NewProject.singleton());
}

#[test]
fn settings_windows_are_compact() {
    assert_eq!(Subwindow::Main.size(), WindowSize::Standard);
    assert_eq!(Subwindow::ProjectSettings.size(), WindowSize::Compact);
    assert_eq!(Subwindow::ProgramSettings.size(), WindowSize::Compact);
    assert_eq!(Subwindow::NewProject.size(), WindowSize::Standard);
}

#[test]
fn open_registers_the_offered_handle() {
    let mut registry = WindowRegistry::new();
    let main = Id::unique();
    let outcome = registry.open(Subwindow::Main, main);
    assert_eq!(outcome, OpenOutcome::Opened { handle: main, size: WindowSize::Standard });
    assert_eq!(entries(&registry), vec![(main, Subwindow::Main)]);
    let settings = Id::unique();
    let outcome = registry.open(Subwindow::ProgramSettings, settings);
    assert_eq!(outcome, OpenOutcome::Opened { handle: settings, size: WindowSize::Compact });
    assert_eq!(
        entries(&registry),
        vec![(main, Subwindow::Main), (settings, Subwindow::ProgramSettings)]
    );
}

#[test]
fn open_main_twice_keeps_one_entry() {
    let mut registry = WindowRegistry::new();
    let first = Id::unique();
    let second = Id::unique();
    assert_ne!(first, second);
    registry.open(Subwindow::Main, first);
    let again = registry.open(Subwindow::Main, second);
    assert_eq!(again, OpenOutcome::AlreadyOpen { handle: first });
    assert_eq!(entries(&registry), vec![(first, Subwindow::Main)]);
    assert_eq!(registry.handle_of(Subwindow::Main), Some(first));
    assert_eq!(registry.route(second), None);
}

#[test]
fn windows_for_new_projects_may_be_many() {
    let mut registry = WindowRegistry::new();
    let first = Id::unique();
    let second = Id::unique();
    registry.open(Subwindow::NewProject, first);
    let outcome = registry.open(Subwindow::NewProject, second);
    assert_eq!(outcome, OpenOutcome::Opened { handle: second, size: WindowSize::Standard });
    assert_eq!(
        entries(&registry),
        vec![(first, Subwindow::NewProject), (second, Subwindow::NewProject)]
    );
    assert_eq!(registry.handle_of(Subwindow::NewProject), Some(first));
    assert_eq!(
        registry.close_kind(Subwindow::NewProject),
        CloseOutcome::Closed { handle: first, kind: Subwindow::NewProject }
    );
    assert_eq!(entries(&registry), vec![(second, Subwindow::NewProject)]);
}

#[test]
fn route_finds_the_kind_of_a_handle() {
    let mut registry = WindowRegistry::new();
    let main = Id::unique();
    let settings = Id::unique();
    registry.open(Subwindow::Main, main);
    registry.open(Subwindow::ProjectSettings, settings);
    assert_eq!(registry.route(main), Some(Subwindow::Main));
    assert_eq!(registry.route(settings), Some(Subwindow::ProjectSettings));
    assert_eq!(registry.route(Id::unique()), None);
    assert_eq!(registry.handle_of(Subwindow::ProgramSettings), None);
}

#[test]
fn close_by_kind_removes_exactly_that_entry() {
    let mut registry = WindowRegistry::new();
    let main = Id::unique();
    let project = Id::unique();
    let program = Id::unique();
    registry.open(Subwindow::Main, main);
    registry.open(Subwindow::ProjectSettings, project);
    registry.open(Subwindow::ProgramSettings, program);
    let outcome = registry.close_kind(Subwindow::ProjectSettings);
    assert_eq!(
        outcome,
        CloseOutcome::Closed { handle: project, kind: Subwindow::ProjectSettings }
    );
    assert_eq!(
        entries(&registry),
        vec![(main, Subwindow::Main), (program, Subwindow::ProgramSettings)]
    );
}

#[test]
fn close_by_handle_removes_exactly_that_entry() {
    let mut registry = WindowRegistry::new();
    let main = Id::unique();
    let program = Id::unique();
    registry.open(Subwindow::Main, main);
    registry.open(Subwindow::ProgramSettings, program);
    let outcome = registry.close_handle(program);
    assert_eq!(
        outcome,
        CloseOutcome::Closed { handle: program, kind: Subwindow::ProgramSettings }
    );
    assert_eq!(entries(&registry), vec![(main, Subwindow::Main)]);
}

#[test]
fn close_of_unknown_window_changes_nothing() {
    let mut registry = WindowRegistry::new();
    let main = Id::unique();
    registry.open(Subwindow::Main, main);
    assert_eq!(registry.close_kind(Subwindow::ProgramSettings), CloseOutcome::Unknown);
    assert_eq!(registry.close_handle(Id::unique()), CloseOutcome::Unknown);
    assert_eq!(entries(&registry), vec![(main, Subwindow::Main)]);
}

#[test]
fn close_of_main_reports_the_end_and_keeps_the_registry() {
    let mut registry = WindowRegistry::new();
    let main = Id::unique();
    let program = Id::unique();
    registry.open(Subwindow::Main, main);
    registry.open(Subwindow::ProgramSettings, program);
    assert_eq!(registry.close_kind(Subwindow::Main), CloseOutcome::MainClosing { handle: main });
    assert_eq!(registry.close_handle(main), CloseOutcome::MainClosing { handle: main });
    assert_eq!(
        entries(&registry),
        vec![(main, Subwindow::Main), (program, Subwindow::ProgramSettings)]
    );
}

#[test]
fn reopening_after_close_registers_the_new_handle() {
    let mut registry = WindowRegistry::new();
    let first = Id::unique();
    let second = Id::unique();
    registry.open(Subwindow::ProgramSettings, first);
    registry.close_kind(Subwindow::ProgramSettings);
    let outcome = registry.open(Subwindow::ProgramSettings, second);
    assert_eq!(outcome, OpenOutcome::Opened { handle: second, size: WindowSize::Compact });
    assert_eq!(registry.route(first), None);
    assert_eq!(registry.route(second), Some(Subwindow::ProgramSettings));
}
