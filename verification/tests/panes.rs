use iced::widget::pane_grid::{Node, Pane, ResizeEvent, Split};
use tagmaster::panes::{DropTarget, Edge, PaneContent, PaneLayout, Region};

fn walk(node: &Node, out: &mut Vec<Pane>) {
    match node {
        Node::Split { a, b, .. } => {
            walk(a, out);
            walk(b, out);
        }
        Node::Pane(pane) => out.push(*pane),
    }
}

fn leaves(layout: &PaneLayout) -> Vec<(Pane, PaneContent)> {
    let mut ids = Vec::new();
    walk(layout.grid().layout(), &mut ids);
    ids.into_iter()
        .map(|id| (id, *layout.grid().get(id).expect("a leaf has a content")))
        .collect()
}

fn shown(layout: &PaneLayout) -> Vec<PaneContent> {
    leaves(layout).into_iter().map(|leaf| leaf.1).collect()
}

fn pane_of(layout: &PaneLayout, content: PaneContent) -> Pane {
    leaves(layout)
        .into_iter()
        .find(|leaf| leaf.1 == content)
        .expect("the content is shown")
        .0
}

fn first_split(layout: &PaneLayout) -> (Split, f32) {
    match layout.grid().layout() {
        Node::Split { id, ratio, .. } => (*id, *ratio),
        Node::Pane(_) => panic!("the layout has no split"),
    }
}

fn sorted(mut contents: Vec<PaneContent>) -> Vec<u8> {
    let mut keys: Vec<u8> = contents
        .drain(..)
        .map(|c| match c {
            PaneContent::FileList => 0,
            PaneContent::DataEntry => 1,
            PaneContent::Viewer => 2,
        })
        .collect();
    keys.sort();
    keys
}

#[test]
fn single_layout_has_one_leaf() {
    let layout = PaneLayout::single(PaneContent::FileList);
    assert_eq!(layout.leaf_count(), 1);
    assert_eq!(shown(&layout), vec![PaneContent::FileList]);
}

#[test]
fn canonical_layout_shows_three_panes_in_order() {
    let layout = PaneLayout::canonical();
    assert_eq!(layout.leaf_count(), 3);
    assert_eq!(
        shown(&layout),
        vec![PaneContent::FileList, PaneContent::DataEntry, PaneContent::Viewer]
    );
}

#[test]
fn canonical_layout_splits_side_by_side_then_stacked() {
    let layout = PaneLayout::canonical();
    match layout.grid().layout() {
        Node::Split { axis, a, b, .. } => {
            assert_eq!(*axis, iced::widget::pane_grid::Axis::Vertical);
            assert!(matches!(**b, Node::Pane(_)));
            match &**a {
                Node::Split { axis, .. } => {
                    assert_eq!(*axis, iced::widget::pane_grid::Axis::Horizontal)
                }
                Node::Pane(_) => panic!("the first region is split"),
            }
        }
        Node::Pane(_) => panic!("the layout is split"),
    }
}

#[test]
fn content_of_finds_leaves_only() {
    let layout = PaneLayout::canonical();
    let viewer = pane_of(&layout, PaneContent::Viewer);
    assert_eq!(layout.content_of(viewer), Some(PaneContent::Viewer));
    let mut other = PaneLayout::canonical();
    let entry = pane_of(&other, PaneContent::DataEntry);
    other.drag_swap(entry, DropTarget::GridEdge(Edge::Top));
    // the old identifier left with the move
    assert_eq!(other.content_of(entry), None);
}

#[test]
fn drop_on_centre_swaps_two_leaves() {
    let mut layout = PaneLayout::canonical();
    let before = leaves(&layout);
    let files = pane_of(&layout, PaneContent::FileList);
    let viewer = pane_of(&layout, PaneContent::Viewer);
    layout.drag_swap(files, DropTarget::Pane(viewer, Region::Center));
    let after = leaves(&layout);
    assert_eq!(after, vec![before[2], before[1], before[0]]);
    assert_eq!(
        shown(&layout),
        vec![PaneContent::Viewer, PaneContent::DataEntry, PaneContent::FileList]
    );
}

#[test]
fn drop_on_itself_changes_nothing() {
    let mut layout = PaneLayout::canonical();
    let before = leaves(&layout);
    let files = pane_of(&layout, PaneContent::FileList);
    layout.drag_swap(files, DropTarget::Pane(files, Region::Center));
    assert_eq!(leaves(&layout), before);
    layout.drag_swap(files, DropTarget::Pane(files, Region::Edge(Edge::Left)));
    assert_eq!(leaves(&layout), before);
    layout.drag_swap(files, DropTarget::Pane(files, Region::Edge(Edge::Bottom)));
    assert_eq!(leaves(&layout), before);
}

#[test]
fn drop_of_unknown_pane_changes_nothing() {
    let mut layout = PaneLayout::canonical();
    let mut other = PaneLayout::canonical();
    let entry = pane_of(&other, PaneContent::DataEntry);
    other.drag_swap(entry, DropTarget::GridEdge(Edge::Right));
    // an identifier that the first layout has never handed out
    let stranger = pane_of(&other, PaneContent::DataEntry);
    let before = leaves(&layout);
    assert_eq!(layout.content_of(stranger), None);
    let viewer = pane_of(&layout, PaneContent::Viewer);
    layout.drag_swap(stranger, DropTarget::Pane(viewer, Region::Center));
    assert_eq!(leaves(&layout), before);
    layout.drag_swap(stranger, DropTarget::GridEdge(Edge::Left));
    assert_eq!(leaves(&layout), before);
    layout.drag_swap(viewer, DropTarget::Pane(stranger, Region::Center));
    assert_eq!(leaves(&layout), before);
    layout.drag_swap(viewer, DropTarget::Pane(stranger, Region::Edge(Edge::Top)));
    assert_eq!(leaves(&layout), before);
}

#[test]
fn drop_on_trailing_side_of_a_pane_moves_behind_it() {
    let mut layout = PaneLayout::canonical();
    let before = leaves(&layout);
    let files = pane_of(&layout, PaneContent::FileList);
    let viewer = pane_of(&layout, PaneContent::Viewer);
    layout.drag_swap(files, DropTarget::Pane(viewer, Region::Edge(Edge::Right)));
    let after = leaves(&layout);
    assert_eq!(after.len(), 3);
    assert_eq!(after[0], before[1]);
    assert_eq!(after[1], before[2]);
    assert_eq!(after[2].1, PaneContent::FileList);
    assert!(before.iter().all(|leaf| leaf.0 != after[2].0));
    let mut layout = PaneLayout::canonical();
    let files = pane_of(&layout, PaneContent::FileList);
    let entry = pane_of(&layout, PaneContent::DataEntry);
    layout.drag_swap(files, DropTarget::Pane(entry, Region::Edge(Edge::Bottom)));
    assert_eq!(
        shown(&layout),
        vec![PaneContent::DataEntry, PaneContent::FileList, PaneContent::Viewer]
    );
}

#[test]
fn drop_on_leading_side_of_a_pane_moves_before_it() {
    let mut layout = PaneLayout::canonical();
    let before = leaves(&layout);
    let files = pane_of(&layout, PaneContent::FileList);
    let viewer = pane_of(&layout, PaneContent::Viewer);
    layout.drag_swap(viewer, DropTarget::Pane(files, Region::Edge(Edge::Left)));
    let after = leaves(&layout);
    assert_eq!(after.len(), 3);
    assert_eq!(after[0].1, PaneContent::Viewer);
    assert!(before.iter().all(|leaf| leaf.0 != after[0].0));
    assert_eq!(after[1], before[0]);
    assert_eq!(after[2], before[1]);
    let mut layout = PaneLayout::canonical();
    let entry = pane_of(&layout, PaneContent::DataEntry);
    let viewer = pane_of(&layout, PaneContent::Viewer);
    layout.drag_swap(viewer, DropTarget::Pane(entry, Region::Edge(Edge::Top)));
    assert_eq!(
        shown(&layout),
        vec![PaneContent::FileList, PaneContent::Viewer, PaneContent::DataEntry]
    );
}

#[test]
fn drop_on_side_of_grid_moves_to_start_or_end() {
    let mut layout = PaneLayout::canonical();
    let entry = pane_of(&layout, PaneContent::DataEntry);
    layout.drag_swap(entry, DropTarget::GridEdge(Edge::Top));
    assert_eq!(
        shown(&layout),
        vec![PaneContent::DataEntry, PaneContent::FileList, PaneContent::Viewer]
    );
    let files = pane_of(&layout, PaneContent::FileList);
    layout.drag_swap(files, DropTarget::GridEdge(Edge::Right));
    assert_eq!(
        shown(&layout),
        vec![PaneContent::DataEntry, PaneContent::Viewer, PaneContent::FileList]
    );
    let viewer = pane_of(&layout, PaneContent::Viewer);
    layout.drag_swap(viewer, DropTarget::GridEdge(Edge::Left));
    assert_eq!(
        shown(&layout),
        vec![PaneContent::Viewer, PaneContent::DataEntry, PaneContent::FileList]
    );
    let viewer = pane_of(&layout, PaneContent::Viewer);
    layout.drag_swap(viewer, DropTarget::GridEdge(Edge::Bottom));
    assert_eq!(
        shown(&layout),
        vec![PaneContent::DataEntry, PaneContent::FileList, PaneContent::Viewer]
    );
}

#[test]
fn drop_on_side_of_grid_with_one_leaf_changes_nothing() {
    let mut layout = PaneLayout::single(PaneContent::Viewer);
    let before = leaves(&layout);
    layout.drag_swap(before[0].0, DropTarget::GridEdge(Edge::Left));
    assert_eq!(leaves(&layout), before);
}

#[test]
fn every_drop_keeps_the_contents() {
    let edges = [Edge::Top, Edge::Left, Edge::Right, Edge::Bottom];
    let contents = [PaneContent::FileList, PaneContent::DataEntry, PaneContent::Viewer];
    for source in contents {
        for edge in edges {
            let mut layout = PaneLayout::canonical();
            let pane = pane_of(&layout, source);
            layout.drag_swap(pane, DropTarget::GridEdge(edge));
            assert_eq!(sorted(shown(&layout)), vec![0, 1, 2]);
            for other in contents {
                let mut layout = PaneLayout::canonical();
                let pane = pane_of(&layout, source);
                let target = pane_of(&layout, other);
                layout.drag_swap(pane, DropTarget::Pane(target, Region::Edge(edge)));
                assert_eq!(sorted(shown(&layout)), vec![0, 1, 2]);
                assert_eq!(layout.leaf_count(), 3);
                let ids: Vec<Pane> = leaves(&layout).into_iter().map(|leaf| leaf.0).collect();
                assert!(ids[0] != ids[1] && ids[1] != ids[2] && ids[0] != ids[2]);
            }
        }
    }
}

#[test]
fn resize_moves_the_divider_and_keeps_the_leaves() {
    let mut layout = PaneLayout::canonical();
    let before = leaves(&layout);
    let (split, ratio) = first_split(&layout);
    assert_eq!(ratio, 0.5);
    layout.resize(&ResizeEvent { split, ratio: 0.25 });
    assert_eq!(first_split(&layout), (split, 0.25));
    assert_eq!(leaves(&layout), before);
}

#[test]
fn resize_of_unknown_split_changes_nothing() {
    let mut big = PaneLayout::canonical();
    let (outer, _) = first_split(&big);
    let mut layout = PaneLayout::single(PaneContent::FileList);
    let before = leaves(&layout);
    layout.resize(&ResizeEvent { split: outer, ratio: 0.75 });
    assert_eq!(leaves(&layout), before);
    assert_eq!(layout.leaf_count(), 1);
    big.resize(&ResizeEvent { split: outer, ratio: 0.75 });
    assert_eq!(first_split(&big).1, 0.75);
}

#[test]
fn reset_installs_the_given_layout() {
    let mut layout = PaneLayout::single(PaneContent::FileList);
    layout.reset(PaneLayout::canonical());
    assert_eq!(
        shown(&layout),
        vec![PaneContent::FileList, PaneContent::DataEntry, PaneContent::Viewer]
    );
}

#[test]
fn panes_take_the_numbers_the_grid_hands_out() {
    let single = PaneLayout::single(PaneContent::Viewer);
    assert_eq!(format!("{:?}", leaves(&single)[0].0), "Pane(0)");
    let mut layout = PaneLayout::canonical();
    let numbers: Vec<String> =
        leaves(&layout).into_iter().map(|leaf| format!("{:?}", leaf.0)).collect();
    assert_eq!(numbers, vec!["Pane(0)", "Pane(4)", "Pane(2)"]);
    let viewer = pane_of(&layout, PaneContent::Viewer);
    layout.drag_swap(viewer, DropTarget::GridEdge(Edge::Left));
    let numbers: Vec<String> =
        leaves(&layout).into_iter().map(|leaf| format!("{:?}", leaf.0)).collect();
    assert_eq!(numbers, vec!["Pane(6)", "Pane(0)", "Pane(4)"]);
    let entry = pane_of(&layout, PaneContent::DataEntry);
    let files = pane_of(&layout, PaneContent::FileList);
    layout.drag_swap(entry, DropTarget::Pane(files, Region::Edge(Edge::Top)));
    let numbers: Vec<String> =
        leaves(&layout).into_iter().map(|leaf| format!("{:?}", leaf.0)).collect();
    assert_eq!(numbers, vec!["Pane(6)", "Pane(8)", "Pane(0)"]);
    layout.drag_swap(files, DropTarget::Pane(viewer, Region::Center));
    let numbers: Vec<String> =
        leaves(&layout).into_iter().map(|leaf| format!("{:?}", leaf.0)).collect();
    assert_eq!(numbers, vec!["Pane(6)", "Pane(8)", "Pane(0)"]);
}

fn dividers(node: &Node, out: &mut Vec<(Split, f32)>) {
    if let Node::Split { id, ratio, a, b, .. } = node {
        out.push((*id, *ratio));
        dividers(a, out);
        dividers(b, out);
    }
}

#[test]
fn resize_moves_the_named_divider_only() {
    let mut layout = PaneLayout::canonical();
    let mut before = Vec::new();
    dividers(layout.grid().layout(), &mut before);
    assert_eq!(before.len(), 2);
    assert_eq!(format!("{:?}", before[0].0), "Split(3)");
    assert_eq!(format!("{:?}", before[1].0), "Split(5)");
    let (outer, inner) = (before[0].0, before[1].0);
    layout.resize(&ResizeEvent { split: inner, ratio: 0.75 });
    let mut after = Vec::new();
    dividers(layout.grid().layout(), &mut after);
    assert_eq!(after, vec![(outer, 0.5), (inner, 0.75)]);
    layout.resize(&ResizeEvent { split: outer, ratio: 0.25 });
    let mut after = Vec::new();
    dividers(layout.grid().layout(), &mut after);
    assert_eq!(after, vec![(outer, 0.25), (inner, 0.75)]);
    assert_eq!(
        shown(&layout),
        vec![PaneContent::FileList, PaneContent::DataEntry, PaneContent::Viewer]
    );
}
