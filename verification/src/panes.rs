use vstd::prelude::*;

verus! {

/// `pane_grid::State`, the grid of the toolkit. Nothing of its inside is
/// known here; what it holds is spoken of through `grid_leaves`.
#[verifier::external_type_specification]
#[verifier::external_body]
#[verifier::reject_recursive_types(T)]
pub struct ExGrid<T>(iced::widget::pane_grid::State<T>);

/// `pane_grid::Pane`, the identifier of a pane: a number that only the grid
/// hands out.
#[verifier::external_type_specification]
#[verifier::external_body]
pub struct ExPaneId(iced::widget::pane_grid::Pane);

/// `pane_grid::ResizeEvent`, which names a split and the ratio it is to
/// take. It is carried to the grid as it comes.
#[verifier::external_type_specification]
#[verifier::external_body]
pub struct ExResizeEvent(iced::widget::pane_grid::ResizeEvent);

/// The identifier that the grid gives to one of its panes.
pub type PaneId = iced::widget::pane_grid::Pane;

/// The grid that arranges the panes of the project screen.
pub type Grid = iced::widget::pane_grid::State<PaneContent>;

/// A request to move the divider of one split of the grid.
pub type ResizeRequest = iced::widget::pane_grid::ResizeEvent;

/// What one pane of the project screen shows.
#[derive(Debug, Clone, Copy, PartialEq, Eq, Structural)]
pub enum PaneContent {
    FileList,
    DataEntry,
    Viewer,
}

/// The direction of the line that divides a region in two.
#[derive(Debug, Clone, Copy, PartialEq, Eq, Structural)]
pub enum Axis {
    Horizontal,
    Vertical,
}

/// One side of a pane or of the whole grid.
#[derive(Debug, Clone, Copy, PartialEq, Eq, Structural)]
pub enum Edge {
    Top,
    Left,
    Right,
    Bottom,
}

/// Where inside a pane a dragged pane was released.
#[derive(Debug, Clone, Copy)]
pub enum Region {
    Center,
    Edge(Edge),
}

/// Where a dragged pane was released.
#[derive(Debug, Clone, Copy)]
pub enum DropTarget {
    /// On a side of the whole grid.
    GridEdge(Edge),
    /// On another pane, in the given region of it.
    Pane(PaneId, Region),
}

/// What a drag interaction on the grid reports.
#[derive(Debug, Clone, Copy)]
pub enum DragEvent {
    Picked { pane: PaneId },
    Dropped { pane: PaneId, target: DropTarget },
    Canceled { pane: PaneId },
}

impl PaneContent {
    /// The words in the title bar of a pane with this content.
    pub open spec fn title_text(self) -> Seq<char> {
        match self {
            PaneContent::FileList => "File Tree"@,
            PaneContent::DataEntry => "Metadata"@,
            PaneContent::Viewer => "Viewer"@,
        }
    }

    /// The words in the title bar of a pane with this content.
    pub fn title(self) -> (title: &'static str)
        ensures
            title@ == self.title_text(),
    {
        match self {
            PaneContent::FileList => "File Tree",
            PaneContent::DataEntry => "Metadata",
            PaneContent::Viewer => "Viewer",
        }
    }
}

impl Edge {
    /// A pane that is moved to a leading side (top or left) comes before its
    /// neighbour, one moved to a trailing side (bottom or right) after it.
    pub open spec fn leads(self) -> bool {
        self is Top || self is Left
    }
}

/// No pane number occurs twice.
pub open spec fn distinct_panes(leaves: Seq<(int, PaneContent)>) -> bool {
    forall|i: int, j: int| 0 <= i < j < leaves.len() ==> leaves[i].0 != leaves[j].0
}

/// No content is shown twice.
pub open spec fn distinct_contents(leaves: Seq<(int, PaneContent)>) -> bool {
    forall|i: int, j: int| 0 <= i < j < leaves.len() ==> leaves[i].1 != leaves[j].1
}

/// The pane with the number `pane` is one of the leaves.
pub open spec fn holds_pane(leaves: Seq<(int, PaneContent)>, pane: int) -> bool {
    exists|i: int| 0 <= i < leaves.len() && leaves[i].0 == pane
}

/// The place of the pane with the number `pane` among the leaves, counted
/// from the first.
pub open spec fn position_of(leaves: Seq<(int, PaneContent)>, pane: int) -> int {
    choose|i: int| 0 <= i < leaves.len() && leaves[i].0 == pane
}

/// What the leaves show, from the first to the last.
pub open spec fn contents_of(leaves: Seq<(int, PaneContent)>) -> Seq<PaneContent> {
    leaves.map_values(|leaf: (int, PaneContent)| leaf.1)
}

/// The numbers of the leaves, from the first to the last.
pub open spec fn numbers_of(leaves: Seq<(int, PaneContent)>) -> Seq<int> {
    leaves.map_values(|leaf: (int, PaneContent)| leaf.0)
}

/// The leaves of the layout of an opened project: the file list, the data
/// entry and the viewer, under the numbers that a new grid gives them.
pub open spec fn canonical_leaves() -> Seq<(int, PaneContent)> {
    seq![(0, PaneContent::FileList), (4, PaneContent::DataEntry), (2, PaneContent::Viewer)]
}

/// What the layout of an opened project shows, from the first leaf to the
/// last.
pub open spec fn canonical_contents() -> Seq<PaneContent> {
    seq![PaneContent::FileList, PaneContent::DataEntry, PaneContent::Viewer]
}

/// The leaves are at least one, no number occurs twice, and each is one of
/// the `ids_used` numbers handed out so far.
pub open spec fn numbered_within(leaves: Seq<(int, PaneContent)>, ids_used: int) -> bool {
    &&& leaves.len() >= 1
    &&& distinct_panes(leaves)
    &&& forall|i: int| 0 <= i < leaves.len() ==> 0 <= (#[trigger] leaves[i]).0 <= ids_used
}

/// The invariant of every arrangement: at least one leaf, every pane
/// number used once, every content shown once.
pub open spec fn well_arranged(leaves: Seq<(int, PaneContent)>) -> bool {
    &&& leaves.len() >= 1
    &&& distinct_panes(leaves)
    &&& distinct_contents(leaves)
}

/// The leaves after the panes `source` and `other` have changed places.
pub open spec fn swapped_leaves(
    leaves: Seq<(int, PaneContent)>,
    source: int,
    other: int,
) -> Seq<(int, PaneContent)> {
    let i = position_of(leaves, source);
    let j = position_of(leaves, other);
    leaves.update(i, leaves[j]).update(j, leaves[i])
}

impl DropTarget {
    /// Whether a pane released here leaves its place and comes back under a
    /// new number; on the centre of a pane the two only change places.
    pub open spec fn relocates(self) -> bool {
        !(self matches DropTarget::Pane(_, Region::Center))
    }
}

/// The leaves after the pane `source` has left its place and its content
/// has come back under the number `fresh`: beside the target pane, or at
/// the start or the end of the arrangement for a side of the grid.
pub open spec fn relocated_leaves(
    leaves: Seq<(int, PaneContent)>,
    source: int,
    target: DropTarget,
    fresh: int,
) -> Seq<(int, PaneContent)> {
    let i = position_of(leaves, source);
    let moved = (fresh, leaves[i].1);
    let rest = leaves.remove(i);
    match target {
        DropTarget::Pane(other, Region::Edge(edge)) => {
            let j = position_of(rest, pane_number(other));
            rest.insert(if edge.leads() { j } else { j + 1 }, moved)
        },
        DropTarget::GridEdge(edge) => {
            if edge.leads() {
                rest.insert(0, moved)
            } else {
                rest.push(moved)
            }
        },
        DropTarget::Pane(_, Region::Center) => leaves,
    }
}

/// Whether releasing the pane `source` on `target` changes the arrangement.
/// It does not where `source` is no leaf, where the target pane is `source`
/// itself or no leaf, where a side of the grid is named and `source` is the
/// only leaf, or where new numbers are needed and fewer than two are left
/// after the `ids_used` handed out so far.
pub open spec fn drop_takes_effect(
    leaves: Seq<(int, PaneContent)>,
    ids_used: nat,
    source: int,
    target: DropTarget,
) -> bool {
    &&& holds_pane(leaves, source)
    &&& target.relocates() ==> ids_used + 2 <= usize::MAX
    &&& match target {
        DropTarget::Pane(other, _) => pane_number(other) != source && holds_pane(
            leaves,
            pane_number(other),
        ),
        DropTarget::GridEdge(_) => leaves.len() >= 2,
    }
}

/// The leaves after the dragged pane `source` was released on `target`. On
/// the centre of another pane the two change places. On a side of another
/// pane, or of the grid, `source` moves there and takes the next number.
pub open spec fn leaves_after_drop(
    leaves: Seq<(int, PaneContent)>,
    ids_used: nat,
    source: int,
    target: DropTarget,
) -> Seq<(int, PaneContent)> {
    if !drop_takes_effect(leaves, ids_used, source, target) {
        leaves
    } else if let DropTarget::Pane(other, Region::Center) = target {
        swapped_leaves(leaves, source, pane_number(other))
    } else {
        relocated_leaves(leaves, source, target, ids_used as int + 1)
    }
}

/// How many numbers are handed out after the dragged pane `source` was
/// released on `target`: a pane that moves to a new place takes one, and
/// its split another.
pub open spec fn ids_after_drop(
    leaves: Seq<(int, PaneContent)>,
    ids_used: nat,
    source: int,
    target: DropTarget,
) -> nat {
    if drop_takes_effect(leaves, ids_used, source, target) && target.relocates() {
        (ids_used + 2) as nat
    } else {
        ids_used
    }
}

/// The leaves of the grid from the first to the last (left before right, top
/// before bottom), each as the number of its pane and what the grid holds
/// for it. It speaks of a grid whose layout and contents name the same
/// panes, as every grid does that `State::new` made and only `split`, `drop`
/// and `resize` changed.
pub uninterp spec fn grid_leaves(grid: iced::widget::pane_grid::State<PaneContent>) -> Seq<(int, PaneContent)>;

/// The last number that the grid has handed out to a pane or a split.
pub uninterp spec fn grid_last_id(grid: iced::widget::pane_grid::State<PaneContent>) -> int;

/// The number inside a pane identifier.
pub uninterp spec fn pane_number(pane: iced::widget::pane_grid::Pane) -> int;

/// What holds of a grid that its own methods have built: it has a leaf, no
/// number twice, and none above the last number handed out.
pub open spec fn grid_sound(grid: Grid) -> bool {
    numbered_within(grid_leaves(grid), grid_last_id(grid))
}

/// `pane_grid::State::new`: a grid of one pane, numbered 0, that shows
/// `first`; the grid's counter then stands at 1.
#[verifier::external_body]
fn grid_new(first: PaneContent) -> (made: (Grid, PaneId))
    ensures
        grid_leaves(made.0) == seq![(0int, first)],
        pane_number(made.1) == 0,
        grid_last_id(made.0) == 1,
{
    iced::widget::pane_grid::State::new(first)
}

/// `pane_grid::State::split`: where `pane` is a leaf, it is divided along
/// `axis` and a new pane showing `content` comes directly after it; the new
/// pane takes the next number and the split the one after. Where `pane` is
/// no leaf nothing changes. The counter's overflow is left out.
#[verifier::external_body]
fn grid_split(grid: &mut Grid, axis: Axis, pane: PaneId, content: PaneContent) -> (added: Option<PaneId>)
    requires
        grid_sound(*old(grid)),
        grid_last_id(*old(grid)) + 2 <= usize::MAX,
    ensures
        added.is_some() == holds_pane(grid_leaves(*old(grid)), pane_number(pane)),
        added matches Some(fresh) ==> {
            &&& pane_number(fresh) == grid_last_id(*old(grid)) + 1
            &&& grid_last_id(*final(grid)) == grid_last_id(*old(grid)) + 2
            &&& grid_leaves(*final(grid)) == grid_leaves(*old(grid)).insert(
                position_of(grid_leaves(*old(grid)), pane_number(pane)) + 1,
                (grid_last_id(*old(grid)) + 1, content),
            )
        },
        added is None ==> {
            &&& grid_last_id(*final(grid)) == grid_last_id(*old(grid))
            &&& grid_leaves(*final(grid)) == grid_leaves(*old(grid))
        },
{
    let axis = match axis {
        Axis::Horizontal => iced::widget::pane_grid::Axis::Horizontal,
        Axis::Vertical => iced::widget::pane_grid::Axis::Vertical,
    };
    grid.split(axis, pane, content).map(|(fresh, _)| fresh)
}

/// `pane_grid::State::drop`, for a leaf `pane` released on another leaf or,
/// in a grid of several leaves, on a side of the grid. On the centre of a
/// leaf the two change places. Otherwise `pane` is closed and its content
/// comes back under the next number, beside the leaf or at the start or end
/// of the grid; the counter moves on by two. The counter's overflow is left
/// out.
#[verifier::external_body]
fn grid_drop(grid: &mut Grid, pane: PaneId, target: DropTarget)
    requires
        grid_sound(*old(grid)),
        target.relocates() ==> grid_last_id(*old(grid)) + 2 <= usize::MAX,
        holds_pane(grid_leaves(*old(grid)), pane_number(pane)),
        target matches DropTarget::Pane(other, _) ==> pane_number(other) != pane_number(pane)
            && holds_pane(grid_leaves(*old(grid)), pane_number(other)),
        target is GridEdge ==> grid_leaves(*old(grid)).len() >= 2,
    ensures
        target matches DropTarget::Pane(other, Region::Center) ==> {
            &&& grid_last_id(*final(grid)) == grid_last_id(*old(grid))
            &&& grid_leaves(*final(grid)) == swapped_leaves(
                grid_leaves(*old(grid)),
                pane_number(pane),
                pane_number(other),
            )
        },
        target.relocates() ==> {
            &&& grid_last_id(*final(grid)) == grid_last_id(*old(grid)) + 2
            &&& grid_leaves(*final(grid)) == relocated_leaves(
                grid_leaves(*old(grid)),
                pane_number(pane),
                target,
                grid_last_id(*old(grid)) + 1,
            )
        },
{
    let side = |edge: Edge| match edge {
        Edge::Top => iced::widget::pane_grid::Edge::Top,
        Edge::Left => iced::widget::pane_grid::Edge::Left,
        Edge::Right => iced::widget::pane_grid::Edge::Right,
        Edge::Bottom => iced::widget::pane_grid::Edge::Bottom,
    };
    grid.drop(pane, match target {
        DropTarget::GridEdge(e) => iced::widget::pane_grid::Target::Edge(side(e)),
        DropTarget::Pane(p, Region::Center) => iced::widget::pane_grid::Target::Pane(p, iced::widget::pane_grid::Region::Center),
        DropTarget::Pane(p, Region::Edge(e)) => iced::widget::pane_grid::Target::Pane(p, iced::widget::pane_grid::Region::Edge(side(e))),
    })
}

/// The dividers of the grid: for the number of each split, the ratio at
/// which it divides its region, as the integer that stands for that float
/// one for one. It speaks of a grid in which no split number occurs twice,
/// as in every grid that `State::new` made and only `split`, `drop` and
/// `resize` changed.
pub uninterp spec fn grid_ratios(grid: iced::widget::pane_grid::State<PaneContent>) -> Map<int, int>;

/// The number inside the split identifier that a resize event names.
pub uninterp spec fn resize_split(event: iced::widget::pane_grid::ResizeEvent) -> int;

/// The ratio that a resize event carries, as the integer that stands for
/// that float one for one.
pub uninterp spec fn resize_ratio(event: iced::widget::pane_grid::ResizeEvent) -> int;

/// The dividers after the split `split` was asked to take the ratio
/// `ratio`: a split of the grid takes it and the others keep theirs; a
/// number that is no split of the grid changes nothing.
pub open spec fn ratios_after_resize(ratios: Map<int, int>, split: int, ratio: int) -> Map<int, int> {
    if ratios.dom().contains(split) {
        ratios.insert(split, ratio)
    } else {
        ratios
    }
}

/// `pane_grid::State::resize`: the split that the event names takes the
/// event's ratio and no other divider moves; where the grid has no such
/// split, nothing at all changes. The leaves and the counter stay as they
/// are in either case.
#[verifier::external_body]
fn grid_resize(grid: &mut Grid, event: &ResizeRequest)
    ensures
        grid_leaves(*final(grid)) == grid_leaves(*old(grid)),
        grid_last_id(*final(grid)) == grid_last_id(*old(grid)),
        grid_ratios(*final(grid)) == ratios_after_resize(
            grid_ratios(*old(grid)),
            resize_split(*event),
            resize_ratio(*event),
        ),
        !grid_ratios(*old(grid)).dom().contains(resize_split(*event)) ==> *final(grid) == *old(grid),
{
    grid.resize(event.split, event.ratio)
}

/// `pane_grid::State::get`: what the grid holds for `pane`, if it is a leaf.
#[verifier::external_body]
fn grid_get(grid: &Grid, pane: PaneId) -> (shown: Option<PaneContent>)
    requires
        grid_sound(*grid),
    ensures
        shown.is_some() == holds_pane(grid_leaves(*grid), pane_number(pane)),
        shown matches Some(content) ==> grid_leaves(*grid)[position_of(
            grid_leaves(*grid),
            pane_number(pane),
        )].1 == content,
{
    grid.get(pane).copied()
}

/// `pane_grid::State::len`: the number of panes.
#[verifier::external_body]
fn grid_len(grid: &Grid) -> (n: usize)
    ensures
        n == grid_leaves(*grid).len(),
{
    grid.len()
}

/// `==` on `pane_grid::Pane`, which compares the numbers inside.
#[verifier::external_body]
fn same_pane(a: PaneId, b: PaneId) -> (same: bool)
    ensures
        same == (pane_number(a) == pane_number(b)),
{
    a == b
}

/// With no number twice, a pane stands where it is found.
pub proof fn lemma_position_unique(leaves: Seq<(int, PaneContent)>, pane: int, at: int)
    requires
        distinct_panes(leaves),
        0 <= at < leaves.len(),
        leaves[at].0 == pane,
    ensures
        holds_pane(leaves, pane),
        position_of(leaves, pane) == at,
{
    let found = position_of(leaves, pane);
    assert(0 <= found < leaves.len() && leaves[found].0 == pane);
    if found < at {
        assert(leaves[found].0 != leaves[at].0);
    }
    if at < found {
        assert(leaves[at].0 != leaves[found].0);
    }
}

/// Two leaves that change places leave the arrangement well arranged, with
/// the numbers that were there, and what is shown is the same, counted with
/// multiplicity.
pub proof fn lemma_swap_keeps_arrangement(
    leaves: Seq<(int, PaneContent)>,
    ids_used: int,
    source: int,
    other: int,
)
    requires
        numbered_within(leaves, ids_used),
        holds_pane(leaves, source),
        holds_pane(leaves, other),
    ensures
        swapped_leaves(leaves, source, other).len() == leaves.len(),
        numbered_within(swapped_leaves(leaves, source, other), ids_used),
        distinct_contents(leaves) ==> distinct_contents(swapped_leaves(leaves, source, other)),
        contents_of(swapped_leaves(leaves, source, other)).to_multiset() == contents_of(
            leaves,
        ).to_multiset(),
{
    broadcast use vstd::seq_lib::group_to_multiset_ensures;

    let i = position_of(leaves, source);
    let j = position_of(leaves, other);
    let after = swapped_leaves(leaves, source, other);
    assert(0 <= i < leaves.len() && 0 <= j < leaves.len());
    let place = |k: int| if k == i { j } else if k == j { i } else { k };
    assert forall|k: int| 0 <= k < leaves.len() implies #[trigger] after[k] == leaves[place(k)] by {}
    assert forall|a: int, b: int| 0 <= a < b < after.len() implies after[a].0 != after[b].0 by {
        assert(after[a] == leaves[place(a)] && after[b] == leaves[place(b)]);
        if place(a) < place(b) {
            assert(leaves[place(a)].0 != leaves[place(b)].0);
        } else {
            assert(leaves[place(b)].0 != leaves[place(a)].0);
        }
    }
    if distinct_contents(leaves) {
        assert forall|a: int, b: int| 0 <= a < b < after.len() implies after[a].1 != after[b].1 by {
            assert(after[a] == leaves[place(a)] && after[b] == leaves[place(b)]);
            if place(a) < place(b) {
                assert(leaves[place(a)].1 != leaves[place(b)].1);
            } else {
                assert(leaves[place(b)].1 != leaves[place(a)].1);
            }
        }
    }
    assert forall|k: int| 0 <= k < after.len() implies 0 <= (#[trigger] after[k]).0 <= ids_used by {
        assert(after[k] == leaves[place(k)]);
    }
    let shown = contents_of(leaves);
    let first = shown.update(i, shown[j]);
    assert(contents_of(after) =~= first.update(j, shown[i]));
    assert(first.to_multiset() == shown.to_multiset().insert(shown[j]).remove(shown[i]));
    assert(first.update(j, shown[i]).to_multiset() == first.to_multiset().insert(shown[i]).remove(
        first[j],
    ));
    assert(shown.contains(shown[i]) && shown.contains(shown[j]));
    assert(first.update(j, shown[i]).to_multiset() =~= shown.to_multiset());
}

/// Where a relocation puts the moved leaf: the place among the remaining
/// leaves at which it comes back.
pub open spec fn landing_place(
    leaves: Seq<(int, PaneContent)>,
    source: int,
    target: DropTarget,
) -> int {
    let rest = leaves.remove(position_of(leaves, source));
    match target {
        DropTarget::Pane(other, Region::Edge(edge)) => {
            let j = position_of(rest, pane_number(other));
            if edge.leads() {
                j
            } else {
                j + 1
            }
        },
        DropTarget::GridEdge(edge) => if edge.leads() {
            0
        } else {
            rest.len() as int
        },
        DropTarget::Pane(_, Region::Center) => 0,
    }
}

/// A relocation takes the leaf out of its place and puts it back, under the
/// new number, at its landing place.
pub proof fn lemma_relocation_is_remove_insert(
    leaves: Seq<(int, PaneContent)>,
    source: int,
    target: DropTarget,
    fresh: int,
)
    requires
        distinct_panes(leaves),
        holds_pane(leaves, source),
        target.relocates(),
        target matches DropTarget::Pane(other, _) ==> pane_number(other) != source && holds_pane(
            leaves,
            pane_number(other),
        ),
    ensures
        0 <= position_of(leaves, source) < leaves.len(),
        leaves[position_of(leaves, source)].0 == source,
        0 <= landing_place(leaves, source, target) < leaves.len(),
        relocated_leaves(leaves, source, target, fresh) == leaves.remove(
            position_of(leaves, source),
        ).insert(
            landing_place(leaves, source, target),
            (fresh, leaves[position_of(leaves, source)].1),
        ),
{
    let i = position_of(leaves, source);
    let rest = leaves.remove(i);
    match target {
        DropTarget::Pane(other, Region::Edge(edge)) => {
            let found = position_of(leaves, pane_number(other));
            assert(0 <= found < leaves.len() && leaves[found].0 == pane_number(other));
            let there = if found < i { found } else { found - 1 };
            assert(rest[there] == leaves[found]);
            let j = position_of(rest, pane_number(other));
            assert(0 <= j < rest.len());
        },
        DropTarget::GridEdge(edge) => {
            assert(rest.push((fresh, leaves[i].1)) =~= rest.insert(
                rest.len() as int,
                (fresh, leaves[i].1),
            ));
        },
        DropTarget::Pane(_, Region::Center) => {},
    }
}

/// A leaf that is taken out and put back elsewhere under a number that no
/// leaf has keeps every number to one leaf.
pub proof fn lemma_reinsert_keeps_numbers(
    leaves: Seq<(int, PaneContent)>,
    ids_used: int,
    i: int,
    at: int,
)
    requires
        numbered_within(leaves, ids_used),
        0 <= i < leaves.len(),
        0 <= at < leaves.len(),
    ensures
        leaves.remove(i).insert(at, (ids_used + 1, leaves[i].1)).len() == leaves.len(),
        numbered_within(leaves.remove(i).insert(at, (ids_used + 1, leaves[i].1)), ids_used + 2),
{
    let after = leaves.remove(i).insert(at, (ids_used + 1, leaves[i].1));
    assert forall|k: int| 0 <= k < after.len() && k != at implies 0 <= (#[trigger] after[k]).0
        <= ids_used by {
        let origin = if k < at {
            if k < i { k } else { k + 1 }
        } else {
            if k - 1 < i { k - 1 } else { k }
        };
        assert(after[k] == leaves[origin]);
    }
    assert forall|a: int, b: int| 0 <= a < b < after.len() implies after[a].0 != after[b].0 by {
        let origin_a = if a < at {
            if a < i { a } else { a + 1 }
        } else {
            if a - 1 < i { a - 1 } else { a }
        };
        let origin_b = if b < at {
            if b < i { b } else { b + 1 }
        } else {
            if b - 1 < i { b - 1 } else { b }
        };
        if a != at && b != at {
            assert(after[a] == leaves[origin_a] && after[b] == leaves[origin_b]);
            assert(origin_a < origin_b);
        }
    }
}

/// A leaf that is taken out and put back elsewhere keeps every content to
/// one leaf.
pub proof fn lemma_reinsert_keeps_contents(
    leaves: Seq<(int, PaneContent)>,
    fresh: int,
    i: int,
    at: int,
)
    requires
        distinct_contents(leaves),
        0 <= i < leaves.len(),
        0 <= at < leaves.len(),
    ensures
        distinct_contents(leaves.remove(i).insert(at, (fresh, leaves[i].1))),
{
    let after = leaves.remove(i).insert(at, (fresh, leaves[i].1));
    assert forall|a: int, b: int| 0 <= a < b < after.len() implies after[a].1 != after[b].1 by {
        let origin_a = if a == at {
            i
        } else if a < at {
            if a < i { a } else { a + 1 }
        } else {
            if a - 1 < i { a - 1 } else { a }
        };
        let origin_b = if b == at {
            i
        } else if b < at {
            if b < i { b } else { b + 1 }
        } else {
            if b - 1 < i { b - 1 } else { b }
        };
        assert(after[a].1 == leaves[origin_a].1 && after[b].1 == leaves[origin_b].1);
        assert(origin_a != origin_b);
        if origin_a < origin_b {
            assert(leaves[origin_a].1 != leaves[origin_b].1);
        } else {
            assert(leaves[origin_b].1 != leaves[origin_a].1);
        }
    }
}

/// A leaf that is taken out and put back elsewhere leaves the same contents
/// on show, counted with multiplicity.
pub proof fn lemma_reinsert_keeps_multiset(
    leaves: Seq<(int, PaneContent)>,
    fresh: int,
    i: int,
    at: int,
)
    requires
        0 <= i < leaves.len(),
        0 <= at < leaves.len(),
    ensures
        contents_of(leaves.remove(i).insert(at, (fresh, leaves[i].1))).to_multiset()
            == contents_of(leaves).to_multiset(),
{
    broadcast use vstd::seq_lib::group_to_multiset_ensures;

    let shown = contents_of(leaves);
    let after = leaves.remove(i).insert(at, (fresh, leaves[i].1));
    assert(contents_of(after) =~= shown.remove(i).insert(at, shown[i]));
    assert(shown.contains(shown[i]));
    assert(shown.remove(i).to_multiset() == shown.to_multiset().remove(shown[i]));
    assert(shown.remove(i).insert(at, shown[i]).to_multiset() =~= shown.to_multiset());
}

/// A leaf that is taken out and put back under the next number leaves the
/// arrangement well arranged, with one leaf for each that was there and the
/// same contents, counted with multiplicity.
pub proof fn lemma_relocation_keeps_arrangement(
    leaves: Seq<(int, PaneContent)>,
    ids_used: int,
    source: int,
    target: DropTarget,
)
    requires
        numbered_within(leaves, ids_used),
        holds_pane(leaves, source),
        target.relocates(),
        target matches DropTarget::Pane(other, _) ==> pane_number(other) != source && holds_pane(
            leaves,
            pane_number(other),
        ),
    ensures
        relocated_leaves(leaves, source, target, ids_used + 1).len() == leaves.len(),
        numbered_within(relocated_leaves(leaves, source, target, ids_used + 1), ids_used + 2),
        distinct_contents(leaves) ==> distinct_contents(
            relocated_leaves(leaves, source, target, ids_used + 1),
        ),
        contents_of(relocated_leaves(leaves, source, target, ids_used + 1)).to_multiset()
            == contents_of(leaves).to_multiset(),
{
    let i = position_of(leaves, source);
    let at = landing_place(leaves, source, target);
    lemma_relocation_is_remove_insert(leaves, source, target, ids_used + 1);
    lemma_reinsert_keeps_numbers(leaves, ids_used, i, at);
    if distinct_contents(leaves) {
        lemma_reinsert_keeps_contents(leaves, ids_used + 1, i, at);
    }
    lemma_reinsert_keeps_multiset(leaves, ids_used + 1, i, at);
}

/// Whatever is released where, the arrangement stays well arranged within
/// the numbers handed out, no leaf is lost or added, and the same contents
/// are shown, counted with multiplicity.
pub proof fn lemma_drop_keeps_arrangement(
    leaves: Seq<(int, PaneContent)>,
    ids_used: nat,
    source: int,
    target: DropTarget,
)
    requires
        numbered_within(leaves, ids_used as int),
    ensures
        numbered_within(
            leaves_after_drop(leaves, ids_used, source, target),
            ids_after_drop(leaves, ids_used, source, target) as int,
        ),
        leaves_after_drop(leaves, ids_used, source, target).len() == leaves.len(),
        distinct_contents(leaves) ==> distinct_contents(
            leaves_after_drop(leaves, ids_used, source, target),
        ),
        contents_of(leaves_after_drop(leaves, ids_used, source, target)).to_multiset()
            == contents_of(leaves).to_multiset(),
{
    if drop_takes_effect(leaves, ids_used, source, target) {
        if let DropTarget::Pane(other, Region::Center) = target {
            lemma_swap_keeps_arrangement(leaves, ids_used as int, source, pane_number(other));
        } else {
            lemma_relocation_keeps_arrangement(leaves, ids_used as int, source, target);
        }
    }
}

/// The arrangement of the panes of the project screen: the grid, with the
/// leaves it holds as its view.
#[derive(Debug)]
pub struct PaneLayout {
    grid: Grid,
    last_id: usize,
}

impl View for PaneLayout {
    type V = Seq<(int, PaneContent)>;

    closed spec fn view(&self) -> Seq<(int, PaneContent)> {
        grid_leaves(self.grid)
    }
}

impl PaneLayout {
    /// The layout's invariant. Every constructor gives it and every method
    /// keeps it.
    pub closed spec fn wf(&self) -> bool {
        &&& grid_sound(self.grid)
        &&& grid_last_id(self.grid) == self.last_id
        &&& distinct_contents(self@)
    }

    /// How many numbers the grid has handed out to panes and splits. Moving
    /// a pane to a new place takes two: one for the pane and one for its
    /// split.
    pub closed spec fn ids_used(&self) -> nat {
        self.last_id as nat
    }

    /// The dividers of the layout: for the number of each split, the ratio
    /// at which it divides its region.
    pub closed spec fn ratios(&self) -> Map<int, int> {
        grid_ratios(self.grid)
    }

    /// The leaves of a layout are never none, neither a pane number nor a
    /// content occurs twice among them, and every number is one that the
    /// grid has handed out.
    pub proof fn lemma_always_well_arranged(&self)
        requires
            self.wf(),
        ensures
            well_arranged(self@),
            numbered_within(self@, self.ids_used() as int),
            numbers_of(self@).no_duplicates(),
            numbers_of(self@).to_set().len() == self@.len(),
    {
        let ids = numbers_of(self@);
        assert forall|i: int, j: int| 0 <= i < ids.len() && 0 <= j < ids.len() && i != j implies ids[i]
            != ids[j] by {
            if i < j {
                assert(self@[i].0 != self@[j].0);
            } else {
                assert(self@[j].0 != self@[i].0);
            }
        }
        ids.unique_seq_to_set();
    }

    /// A layout of one pane that shows `content`.
    pub fn single(content: PaneContent) -> (layout: PaneLayout)
        ensures
            layout.wf(),
            layout@ == seq![(0int, content)],
            layout.ids_used() == 1,
    {
        let (grid, _first) = grid_new(content);
        PaneLayout { grid, last_id: 1 }
    }

    /// The layout of an opened project: the file list, the data entry and
    /// the viewer, in this order. The file list and the viewer stand side by
    /// side, and the data entry takes the lower part of the file list's
    /// region.
    pub fn canonical() -> (layout: PaneLayout)
        ensures
            layout.wf(),
            layout@ == canonical_leaves(),
            contents_of(layout@) == canonical_contents(),
            layout.ids_used() == 5,
    {
        let (mut grid, first) = grid_new(PaneContent::FileList);
        proof {
            lemma_position_unique(grid_leaves(grid), 0, 0);
        }
        let _viewer = grid_split(&mut grid, Axis::Vertical, first, PaneContent::Viewer);
        proof {
            assert(grid_leaves(grid) =~= seq![(0int, PaneContent::FileList), (2int, PaneContent::Viewer)]);
            lemma_position_unique(grid_leaves(grid), 0, 0);
        }
        let _entry = grid_split(&mut grid, Axis::Horizontal, first, PaneContent::DataEntry);
        proof {
            assert(grid_leaves(grid) =~= canonical_leaves());
            assert(contents_of(canonical_leaves()) =~= canonical_contents());
        }
        PaneLayout { grid, last_id: 5 }
    }

    /// Replaces the whole arrangement by `layout`.
    pub fn reset(&mut self, layout: PaneLayout)
        requires
            layout.wf(),
        ensures
            *final(self) == layout,
            final(self).wf(),
    {
        *self = layout;
    }

    /// Moves the divider of a split: the split that the request names takes
    /// the ratio that the request carries, and no other divider moves. A
    /// request that names no split of the layout leaves the layout
    /// untouched. The leaves stay as they are in either case.
    pub fn resize(&mut self, event: &ResizeRequest)
        requires
            old(self).wf(),
        ensures
            final(self).wf(),
            final(self)@ == old(self)@,
            final(self).ids_used() == old(self).ids_used(),
            final(self).ratios() == ratios_after_resize(
                old(self).ratios(),
                resize_split(*event),
                resize_ratio(*event),
            ),
            !old(self).ratios().dom().contains(resize_split(*event)) ==> *final(self) == *old(self),
    {
        grid_resize(&mut self.grid, event);
    }

    /// Releases the dragged pane `source` on `target`. On the centre of
    /// another pane the two change places; on a side of another pane, or of
    /// the grid, `source` moves there under the next number. A release that
    /// has no effect leaves the layout untouched. Whatever happens, the same
    /// contents are shown afterwards.
    pub fn drag_swap(&mut self, source: PaneId, target: DropTarget)
        requires
            old(self).wf(),
        ensures
            final(self).wf(),
            final(self)@ == leaves_after_drop(
                old(self)@,
                old(self).ids_used(),
                pane_number(source),
                target,
            ),
            final(self).ids_used() == ids_after_drop(
                old(self)@,
                old(self).ids_used(),
                pane_number(source),
                target,
            ),
            !drop_takes_effect(old(self)@, old(self).ids_used(), pane_number(source), target)
                ==> *final(self) == *old(self),
            final(self)@.len() == old(self)@.len(),
            contents_of(final(self)@).to_multiset() == contents_of(old(self)@).to_multiset(),
    {
        proof {
            lemma_drop_keeps_arrangement(self@, self.ids_used(), pane_number(source), target);
        }
        if grid_get(&self.grid, source).is_none() {
            return ;
        }
        match target {
            DropTarget::Pane(other, region) => {
                if same_pane(other, source) || grid_get(&self.grid, other).is_none() {
                    return ;
                }
                match region {
                    Region::Center => {
                        grid_drop(&mut self.grid, source, target);
                    },
                    Region::Edge(_) => {
                        if self.last_id > usize::MAX - 2 {
                            return ;
                        }
                        grid_drop(&mut self.grid, source, target);
                        self.last_id = self.last_id + 2;
                    },
                }
            },
            DropTarget::GridEdge(_) => {
                if grid_len(&self.grid) < 2 || self.last_id > usize::MAX - 2 {
                    return ;
                }
                grid_drop(&mut self.grid, source, target);
                self.last_id = self.last_id + 2;
            },
        }
    }

    /// What `pane` shows, if it is a leaf of the layout.
    pub fn content_of(&self, pane: PaneId) -> (shown: Option<PaneContent>)
        requires
            self.wf(),
        ensures
            shown.is_some() == holds_pane(self@, pane_number(pane)),
            shown matches Some(content) ==> self@[position_of(self@, pane_number(pane))].1
                == content,
    {
        grid_get(&self.grid, pane)
    }

    /// The number of leaves.
    pub fn leaf_count(&self) -> (n: usize)
        ensures
            n == self@.len(),
    {
        grid_len(&self.grid)
    }

    /// The grid itself, for a renderer to draw.
    pub fn grid(&self) -> (grid: &Grid)
        ensures
            grid_leaves(*grid) == self@,
    {
        &self.grid
    }
}

} // verus!
