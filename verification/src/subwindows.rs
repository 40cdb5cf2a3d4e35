use vstd::prelude::*;

verus! {

/// `window::Id`, the identifier of a window: a number that only the host
/// hands out.
#[verifier::external_type_specification]
#[verifier::external_body]
pub struct ExWindowId(iced::window::Id);

/// The handle by which the host's windowing layer knows a window.
pub type WindowHandle = iced::window::Id;

/// The logical kinds of top-level windows.
#[derive(Debug, Copy, Clone, PartialEq, Eq, Structural)]
pub enum Subwindow {
    Main,
    ProjectSettings,
    ProgramSettings,
    NewProject,
}

/// The size at which a window is opened.
#[derive(Debug, Copy, Clone, PartialEq, Eq, Structural)]
pub enum WindowSize {
    /// The host's default size.
    Standard,
    /// The fixed small size of a settings window.
    Compact,
}

impl Subwindow {
    /// Of a singleton kind at most one window is open at a time.
    pub open spec fn is_singleton(self) -> bool {
        self is Main || self is ProjectSettings || self is ProgramSettings
    }

    /// The size at which a window of this kind opens: the settings windows
    /// are compact, the others have the host's default size.
    pub open spec fn size_policy(self) -> WindowSize {
        if self is ProjectSettings || self is ProgramSettings {
            WindowSize::Compact
        } else {
            WindowSize::Standard
        }
    }

    /// Whether at most one window of this kind may be open.
    pub fn singleton(self) -> (single: bool)
        ensures
            single == self.is_singleton(),
    {
        match self {
            Subwindow::Main | Subwindow::ProjectSettings | Subwindow::ProgramSettings => true,
            Subwindow::NewProject => false,
        }
    }

    /// The size at which a window of this kind opens.
    pub fn size(self) -> (size: WindowSize)
        ensures
            size == self.size_policy(),
    {
        match self {
            Subwindow::ProjectSettings | Subwindow::ProgramSettings => WindowSize::Compact,
            Subwindow::Main | Subwindow::NewProject => WindowSize::Standard,
        }
    }
}

/// What a request to open a window led to.
#[derive(Debug, Copy, Clone, PartialEq, Eq)]
pub enum OpenOutcome {
    /// A new entry was registered under `handle`; the host is to show the
    /// window at `size`.
    Opened { handle: WindowHandle, size: WindowSize },
    /// A window of that singleton kind is open already, under `handle`.
    AlreadyOpen { handle: WindowHandle },
}

/// What a request to close a window led to.
#[derive(Debug, Copy, Clone, PartialEq, Eq)]
pub enum CloseOutcome {
    /// No entry matched: nothing changed.
    Unknown,
    /// The entry was removed; the host is to destroy the window.
    Closed { handle: WindowHandle, kind: Subwindow },
    /// The main window is closing, and the application with it.
    MainClosing { handle: WindowHandle },
}

/// The number inside a window identifier.
pub uninterp spec fn window_number(handle: iced::window::Id) -> int;

/// `==` on `window::Id`, which compares the numbers inside.
#[verifier::external_body]
fn same_window(a: WindowHandle, b: WindowHandle) -> (same: bool)
    ensures
        same == (window_number(a) == window_number(b)),
{
    a == b
}

/// Each singleton kind has at most one entry.
pub open spec fn singletons_unique(entries: Seq<(WindowHandle, Subwindow)>) -> bool {
    forall|i: int, j: int|
        0 <= i < j < entries.len() && entries[i].1 == entries[j].1 ==> !entries[i].1.is_singleton()
}

/// Some entry is of `kind`.
pub open spec fn has_kind(entries: Seq<(WindowHandle, Subwindow)>, kind: Subwindow) -> bool {
    exists|i: int| 0 <= i < entries.len() && entries[i].1 == kind
}

/// Some entry is registered under `handle`, that is, under a handle with
/// the same number.
pub open spec fn has_handle(entries: Seq<(WindowHandle, Subwindow)>, handle: WindowHandle) -> bool {
    exists|i: int|
        0 <= i < entries.len() && window_number((#[trigger] entries[i]).0) == window_number(handle)
}

/// The entry at `at` is the first of `kind`.
pub open spec fn is_first_of_kind(
    entries: Seq<(WindowHandle, Subwindow)>,
    kind: Subwindow,
    at: int,
) -> bool {
    &&& 0 <= at < entries.len()
    &&& entries[at].1 == kind
    &&& forall|j: int| 0 <= j < at ==> entries[j].1 != kind
}

/// The entry at `at` is the first under `handle`.
pub open spec fn is_first_with_handle(
    entries: Seq<(WindowHandle, Subwindow)>,
    handle: WindowHandle,
    at: int,
) -> bool {
    &&& 0 <= at < entries.len()
    &&& window_number(entries[at].0) == window_number(handle)
    &&& forall|j: int|
        0 <= j < at ==> window_number((#[trigger] entries[j]).0) != window_number(handle)
}

/// The place of the first entry of `kind`, where there is one.
pub open spec fn first_of_kind(entries: Seq<(WindowHandle, Subwindow)>, kind: Subwindow) -> int {
    choose|at: int| is_first_of_kind(entries, kind, at)
}

/// The place of the first entry under `handle`, where there is one.
pub open spec fn first_with_handle(
    entries: Seq<(WindowHandle, Subwindow)>,
    handle: WindowHandle,
) -> int {
    choose|at: int| is_first_with_handle(entries, handle, at)
}

/// Whether a request to open a window of `kind` registers a new entry: it
/// does unless the kind is a singleton that has an entry already.
pub open spec fn opens_new(entries: Seq<(WindowHandle, Subwindow)>, kind: Subwindow) -> bool {
    !(kind.is_singleton() && has_kind(entries, kind))
}

/// The entries after a request to open a window of `kind`, for which the
/// host offers `candidate` as the handle.
pub open spec fn entries_after_open(
    entries: Seq<(WindowHandle, Subwindow)>,
    kind: Subwindow,
    candidate: WindowHandle,
) -> Seq<(WindowHandle, Subwindow)> {
    if opens_new(entries, kind) {
        entries.push((candidate, kind))
    } else {
        entries
    }
}

/// What the request to open reports.
pub open spec fn outcome_of_open(
    entries: Seq<(WindowHandle, Subwindow)>,
    kind: Subwindow,
    candidate: WindowHandle,
) -> OpenOutcome {
    if opens_new(entries, kind) {
        OpenOutcome::Opened { handle: candidate, size: kind.size_policy() }
    } else {
        OpenOutcome::AlreadyOpen { handle: entries[first_of_kind(entries, kind)].0 }
    }
}

/// The entries after the one at `at` was asked to close: the main window's
/// entry stays, as the application ends with it; any other is removed.
pub open spec fn entries_after_close(
    entries: Seq<(WindowHandle, Subwindow)>,
    at: int,
) -> Seq<(WindowHandle, Subwindow)> {
    if entries[at].1 is Main {
        entries
    } else {
        entries.remove(at)
    }
}

/// What the request to close the entry at `at` reports.
pub open spec fn outcome_of_close(entries: Seq<(WindowHandle, Subwindow)>, at: int) -> CloseOutcome {
    if entries[at].1 is Main {
        CloseOutcome::MainClosing { handle: entries[at].0 }
    } else {
        CloseOutcome::Closed { handle: entries[at].0, kind: entries[at].1 }
    }
}

/// The entries after the first window of `kind` was asked to close.
pub open spec fn entries_after_close_kind(
    entries: Seq<(WindowHandle, Subwindow)>,
    kind: Subwindow,
) -> Seq<(WindowHandle, Subwindow)> {
    if has_kind(entries, kind) {
        entries_after_close(entries, first_of_kind(entries, kind))
    } else {
        entries
    }
}

/// What the request to close the first window of `kind` reports.
pub open spec fn outcome_of_close_kind(
    entries: Seq<(WindowHandle, Subwindow)>,
    kind: Subwindow,
) -> CloseOutcome {
    if has_kind(entries, kind) {
        outcome_of_close(entries, first_of_kind(entries, kind))
    } else {
        CloseOutcome::Unknown
    }
}

/// The entries after the window under `handle` was asked to close.
pub open spec fn entries_after_close_handle(
    entries: Seq<(WindowHandle, Subwindow)>,
    handle: WindowHandle,
) -> Seq<(WindowHandle, Subwindow)> {
    if has_handle(entries, handle) {
        entries_after_close(entries, first_with_handle(entries, handle))
    } else {
        entries
    }
}

/// What the request to close the window under `handle` reports.
pub open spec fn outcome_of_close_handle(
    entries: Seq<(WindowHandle, Subwindow)>,
    handle: WindowHandle,
) -> CloseOutcome {
    if has_handle(entries, handle) {
        outcome_of_close(entries, first_with_handle(entries, handle))
    } else {
        CloseOutcome::Unknown
    }
}

/// The first entry of a kind is where it is found with none before it.
pub proof fn lemma_first_of_kind(entries: Seq<(WindowHandle, Subwindow)>, kind: Subwindow, at: int)
    requires
        is_first_of_kind(entries, kind, at),
    ensures
        has_kind(entries, kind),
        first_of_kind(entries, kind) == at,
{
    let found = first_of_kind(entries, kind);
    assert(is_first_of_kind(entries, kind, found));
}

/// The first entry under a handle is where it is found with none before it.
pub proof fn lemma_first_with_handle(
    entries: Seq<(WindowHandle, Subwindow)>,
    handle: WindowHandle,
    at: int,
)
    requires
        is_first_with_handle(entries, handle, at),
    ensures
        has_handle(entries, handle),
        first_with_handle(entries, handle) == at,
{
    let found = first_with_handle(entries, handle);
    assert(is_first_with_handle(entries, handle, found));
}

/// Among the numbers from 0 on that have a property, if there is one, there
/// is a least.
pub proof fn lemma_least_index(holds: spec_fn(int) -> bool, some: int) -> (least: int)
    requires
        0 <= some,
        holds(some),
    ensures
        0 <= least <= some,
        holds(least),
        forall|j: int| 0 <= j < least ==> !#[trigger] holds(j),
    decreases some,
{
    if exists|j: int| 0 <= j < some && #[trigger] holds(j) {
        let below = choose|j: int| 0 <= j < some && #[trigger] holds(j);
        lemma_least_index(holds, below)
    } else {
        some
    }
}

/// Where some entry is of `kind`, one of them is the first.
pub proof fn lemma_kind_has_first(entries: Seq<(WindowHandle, Subwindow)>, kind: Subwindow)
    requires
        has_kind(entries, kind),
    ensures
        is_first_of_kind(entries, kind, first_of_kind(entries, kind)),
{
    let some = choose|i: int| 0 <= i < entries.len() && entries[i].1 == kind;
    let of_kind = |i: int| 0 <= i < entries.len() && entries[i].1 == kind;
    let least = lemma_least_index(of_kind, some);
    assert forall|j: int| 0 <= j < least implies entries[j].1 != kind by {
        assert(!of_kind(j));
    }
    assert(is_first_of_kind(entries, kind, least));
}

/// Where some entry is under `handle`, one of them is the first.
pub proof fn lemma_handle_has_first(entries: Seq<(WindowHandle, Subwindow)>, handle: WindowHandle)
    requires
        has_handle(entries, handle),
    ensures
        is_first_with_handle(entries, handle, first_with_handle(entries, handle)),
{
    let some = choose|i: int|
        0 <= i < entries.len() && window_number((#[trigger] entries[i]).0) == window_number(handle);
    let under_handle = |i: int|
        0 <= i < entries.len() && window_number(entries[i].0) == window_number(handle);
    let least = lemma_least_index(under_handle, some);
    assert forall|j: int| 0 <= j < least implies window_number((#[trigger] entries[j]).0)
        != window_number(handle) by {
        assert(!under_handle(j));
    }
    assert(is_first_with_handle(entries, handle, least));
}

/// A request to open a window keeps each singleton kind to one entry.
pub proof fn lemma_open_keeps_singletons(
    entries: Seq<(WindowHandle, Subwindow)>,
    kind: Subwindow,
    candidate: WindowHandle,
)
    requires
        singletons_unique(entries),
    ensures
        singletons_unique(entries_after_open(entries, kind, candidate)),
{
    let after = entries_after_open(entries, kind, candidate);
    if opens_new(entries, kind) {
        assert forall|i: int, j: int|
            0 <= i < j < after.len() && after[i].1 == after[j].1 implies !after[i].1.is_singleton() by {
            assert(after[i] == entries[i]);
            if j < entries.len() {
                assert(after[j] == entries[j]);
            }
        }
    }
}

/// A request to close a window keeps each singleton kind to one entry.
pub proof fn lemma_close_keeps_singletons(entries: Seq<(WindowHandle, Subwindow)>, at: int)
    requires
        singletons_unique(entries),
        0 <= at < entries.len(),
    ensures
        singletons_unique(entries_after_close(entries, at)),
{
    lemma_remove_keeps_singletons(entries, at);
}

/// Removing an entry keeps each singleton kind to one entry.
pub proof fn lemma_remove_keeps_singletons(entries: Seq<(WindowHandle, Subwindow)>, at: int)
    requires
        singletons_unique(entries),
        0 <= at < entries.len(),
    ensures
        singletons_unique(entries.remove(at)),
{
    let rest = entries.remove(at);
    let from = |k: int| if k < at { k } else { k + 1 };
    assert forall|i: int, j: int|
        0 <= i < j < rest.len() && rest[i].1 == rest[j].1 implies !rest[i].1.is_singleton() by {
        assert(rest[i] == entries[from(i)] && rest[j] == entries[from(j)]);
        assert(from(i) < from(j));
    }
}

impl OpenOutcome {
    /// The handle under which the window that was asked for is registered.
    pub open spec fn registered(self) -> WindowHandle {
        match self {
            OpenOutcome::Opened { handle, .. } => handle,
            OpenOutcome::AlreadyOpen { handle } => handle,
        }
    }
}

/// Asking twice in a row for a window of a singleton kind registers it at
/// most once: the second request adds no entry and reports the handle under
/// which the first one left the window registered.
pub proof fn lemma_open_twice_is_open_once(
    entries: Seq<(WindowHandle, Subwindow)>,
    kind: Subwindow,
    first: WindowHandle,
    second: WindowHandle,
)
    requires
        kind.is_singleton(),
    ensures
        entries_after_open(entries_after_open(entries, kind, first), kind, second)
            == entries_after_open(entries, kind, first),
        outcome_of_open(entries_after_open(entries, kind, first), kind, second)
            == (OpenOutcome::AlreadyOpen {
            handle: outcome_of_open(entries, kind, first).registered(),
        }),
        singletons_unique(entries) ==> singletons_unique(entries_after_open(entries, kind, first)),
{
    let once = entries_after_open(entries, kind, first);
    if opens_new(entries, kind) {
        assert(once[entries.len() as int].1 == kind);
        assert forall|j: int| 0 <= j < entries.len() implies once[j].1 != kind by {
            assert(once[j] == entries[j]);
        }
        lemma_first_of_kind(once, kind, entries.len() as int);
    } else {
        assert(once == entries);
    }
}

/// The open top-level windows: pairs of a handle and the kind of window it
/// shows, in the order in which they were opened.
#[derive(Debug)]
pub struct WindowRegistry {
    entries: Vec<(WindowHandle, Subwindow)>,
}

impl View for WindowRegistry {
    type V = Seq<(WindowHandle, Subwindow)>;

    closed spec fn view(&self) -> Seq<(WindowHandle, Subwindow)> {
        self.entries@
    }
}

impl WindowRegistry {
    /// The registry's invariant: each singleton kind has at most one entry.
    pub open spec fn wf(&self) -> bool {
        singletons_unique(self@)
    }

    /// A registry without entries.
    pub fn new() -> (registry: WindowRegistry)
        ensures
            registry@ == Seq::<(WindowHandle, Subwindow)>::empty(),
            registry.wf(),
    {
        WindowRegistry { entries: Vec::new() }
    }

    /// The number of entries.
    pub fn len(&self) -> (n: usize)
        ensures
            n == self@.len(),
    {
        self.entries.len()
    }

    /// The entry at `at`.
    pub fn entry(&self, at: usize) -> (entry: Option<(WindowHandle, Subwindow)>)
        ensures
            entry == if at < self@.len() {
                Some(self@[at as int])
            } else {
                None
            },
    {
        if at < self.entries.len() {
            Some(self.entries[at])
        } else {
            None
        }
    }

    fn find_kind(&self, kind: Subwindow) -> (found: Option<usize>)
        ensures
            found.is_some() == has_kind(self@, kind),
            found matches Some(at) ==> is_first_of_kind(self@, kind, at as int) && first_of_kind(
                self@,
                kind,
            ) == at,
    {
        let mut at: usize = 0;
        while at < self.entries.len()
            invariant
                at <= self.entries.len(),
                forall|j: int| 0 <= j < at ==> self@[j].1 != kind,
            decreases self.entries.len() - at,
        {
            if self.entries[at].1 == kind {
                proof {
                    lemma_first_of_kind(self@, kind, at as int);
                }
                return Some(at);
            }
            at = at + 1;
        }
        None
    }

    fn find_handle(&self, handle: WindowHandle) -> (found: Option<usize>)
        ensures
            found.is_some() == has_handle(self@, handle),
            found matches Some(at) ==> is_first_with_handle(self@, handle, at as int)
                && first_with_handle(self@, handle) == at,
    {
        let mut at: usize = 0;
        while at < self.entries.len()
            invariant
                at <= self.entries.len(),
                forall|j: int|
                    0 <= j < at ==> window_number((#[trigger] self@[j]).0) != window_number(handle),
            decreases self.entries.len() - at,
        {
            if same_window(self.entries[at].0, handle) {
                proof {
                    lemma_first_with_handle(self@, handle, at as int);
                }
                return Some(at);
            }
            at = at + 1;
        }
        None
    }

    /// The handle of the first window of `kind`, if one is open.
    pub fn handle_of(&self, kind: Subwindow) -> (handle: Option<WindowHandle>)
        ensures
            handle == if has_kind(self@, kind) {
                Some(self@[first_of_kind(self@, kind)].0)
            } else {
                None
            },
    {
        match self.find_kind(kind) {
            Some(at) => Some(self.entries[at].0),
            None => None,
        }
    }

    /// The kind of window that is registered under `handle`; `None` for a
    /// handle that the registry does not know, for which nothing is drawn.
    pub fn route(&self, handle: WindowHandle) -> (kind: Option<Subwindow>)
        ensures
            kind == if has_handle(self@, handle) {
                Some(self@[first_with_handle(self@, handle)].1)
            } else {
                None
            },
    {
        match self.find_handle(handle) {
            Some(at) => Some(self.entries[at].1),
            None => None,
        }
    }

    /// Asks for a window of `kind`. For a singleton kind that is open
    /// already nothing is registered and the open window's handle comes
    /// back. Otherwise `candidate`, the handle that the host offers for a
    /// new window, is registered under `kind`.
    pub fn open(&mut self, kind: Subwindow, candidate: WindowHandle) -> (outcome: OpenOutcome)
        requires
            old(self).wf(),
        ensures
            final(self).wf(),
            final(self)@ == entries_after_open(old(self)@, kind, candidate),
            outcome == outcome_of_open(old(self)@, kind, candidate),
    {
        if kind.singleton() {
            if let Some(at) = self.find_kind(kind) {
                return OpenOutcome::AlreadyOpen { handle: self.entries[at].0 };
            }
        }
        self.entries.push((candidate, kind));
        OpenOutcome::Opened { handle: candidate, size: kind.size() }
    }

    /// Closes the first window of `kind`, if one is open.
    pub fn close_kind(&mut self, kind: Subwindow) -> (outcome: CloseOutcome)
        requires
            old(self).wf(),
        ensures
            final(self).wf(),
            final(self)@ == entries_after_close_kind(old(self)@, kind),
            outcome == outcome_of_close_kind(old(self)@, kind),
    {
        match self.find_kind(kind) {
            Some(at) => self.close_at(at),
            None => CloseOutcome::Unknown,
        }
    }

    /// Closes the window registered under `handle`, if there is one.
    pub fn close_handle(&mut self, handle: WindowHandle) -> (outcome: CloseOutcome)
        requires
            old(self).wf(),
        ensures
            final(self).wf(),
            final(self)@ == entries_after_close_handle(old(self)@, handle),
            outcome == outcome_of_close_handle(old(self)@, handle),
    {
        match self.find_handle(handle) {
            Some(at) => self.close_at(at),
            None => CloseOutcome::Unknown,
        }
    }

    fn close_at(&mut self, at: usize) -> (outcome: CloseOutcome)
        requires
            old(self).wf(),
            at < old(self)@.len(),
        ensures
            final(self).wf(),
            final(self)@ == entries_after_close(old(self)@, at as int),
            outcome == outcome_of_close(old(self)@, at as int),
    {
        let (handle, kind) = self.entries[at];
        match kind {
            Subwindow::Main => CloseOutcome::MainClosing { handle },
            _ => {
                proof {
                    lemma_remove_keeps_singletons(self@, at as int);
                }
                let _gone = self.entries.remove(at);
                CloseOutcome::Closed { handle, kind }
            },
        }
    }
}

} // verus!
