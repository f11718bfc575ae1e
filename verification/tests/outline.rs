use marquee::geometry::{ScreenPoint, ScreenRect, Viewport, WorldPoint};
use marquee::outline::{
    outline_edges, EdgeKind, Outline, OutlineAction, OutlineEdge, OUTLINE_DEPTH,
    OUTLINE_THICKNESS,
};
use marquee::pointer::PointerState;

fn sp(x: i32, y: i32) -> ScreenPoint {
    ScreenPoint { x, y }
}

fn edge(kind: EdgeKind, x: i64, y: i64, width: i64, height: i64) -> OutlineEdge {
    OutlineEdge { kind, position: WorldPoint { x, y }, width, height }
}

fn dragging(from: ScreenPoint, to: ScreenPoint) -> PointerState {
    let mut s = PointerState::new();
    s.move_to(from);
    s.press();
    s.move_to(to);
    s
}

const WINDOW: Viewport = Viewport { width: 800, height: 600 };

#[test]
fn thickness_is_one_unit_at_depth_zero() {
    assert_eq!(OUTLINE_THICKNESS, 1);
    assert_eq!(OUTLINE_DEPTH, 0);
}

#[test]
fn outline_edges_trace_the_rectangle() {
    let rect = ScreenRect::from_corners(sp(100, 100), sp(300, 250));
    let edges = outline_edges(rect, WINDOW);
    assert_eq!(
        edges,
        vec![
            edge(EdgeKind::Top, -200, -50, 200, 1),
            edge(EdgeKind::Bottom, -200, -200, 200, 1),
            edge(EdgeKind::Right, -100, -125, 1, 150),
            edge(EdgeKind::Left, -300, -125, 1, 150),
        ]
    );
}

#[test]
fn outline_edges_do_not_depend_on_the_drag_direction() {
    let forth = outline_edges(ScreenRect::from_corners(sp(300, 250), sp(100, 100)), WINDOW);
    let back = outline_edges(ScreenRect::from_corners(sp(100, 100), sp(300, 250)), WINDOW);
    let across = outline_edges(ScreenRect::from_corners(sp(100, 250), sp(300, 100)), WINDOW);
    assert_eq!(forth, back);
    assert_eq!(across, back);
    for e in forth {
        assert!(e.width >= 0 && e.height >= 0);
    }
}

#[test]
fn outline_edges_round_an_odd_middle_down() {
    let rect = ScreenRect::from_corners(sp(0, 0), sp(5, 3));
    let edges = outline_edges(rect, Viewport { width: 0, height: 0 });
    assert_eq!(
        edges,
        vec![
            edge(EdgeKind::Top, 2, 3, 5, 1),
            edge(EdgeKind::Bottom, 2, 0, 5, 1),
            edge(EdgeKind::Right, 5, 1, 1, 3),
            edge(EdgeKind::Left, 0, 1, 1, 3),
        ]
    );
    let below = outline_edges(
        ScreenRect::from_corners(sp(-5, -3), sp(0, 0)),
        Viewport { width: 0, height: 0 },
    );
    assert_eq!(below[0], edge(EdgeKind::Top, -3, 0, 5, 1));
    assert_eq!(below[2], edge(EdgeKind::Right, 0, -2, 1, 3));
}

#[test]
fn outline_edges_of_a_point_have_no_length() {
    let rect = ScreenRect::from_corners(sp(400, 300), sp(400, 300));
    let edges = outline_edges(rect, WINDOW);
    assert_eq!(
        edges,
        vec![
            edge(EdgeKind::Top, 0, 0, 0, 1),
            edge(EdgeKind::Bottom, 0, 0, 0, 1),
            edge(EdgeKind::Right, 0, 0, 1, 0),
            edge(EdgeKind::Left, 0, 0, 1, 0),
        ]
    );
}

#[test]
fn outline_edges_take_the_widest_rectangle() {
    let rect = ScreenRect::from_corners(sp(i32::MIN, i32::MIN), sp(i32::MAX, i32::MAX));
    let edges = outline_edges(rect, Viewport { width: u32::MAX, height: u32::MAX });
    assert_eq!(edges.len(), 4);
    assert_eq!(edges[0].width, 4294967295);
    assert_eq!(edges[2].height, 4294967295);
    assert_eq!(edges[3].position.x, -2147483648 - 2147483647);
    assert_eq!(edges[0].position.y, 0);
    assert_eq!(edges[0].position.x, -2147483648 - 2147483647 + 2147483647);
}

#[test]
fn new_outline_is_empty() {
    let o = Outline::new();
    assert_eq!(o.count(), 0);
    assert!(o.edges().is_empty());
    assert_eq!(o.edge(EdgeKind::Top), None);
}

#[test]
fn sync_creates_updates_and_destroys() {
    let mut o = Outline::new();
    let idle = PointerState::new();
    assert_eq!(o.sync(&idle, Some(WINDOW)), OutlineAction::Keep);
    assert_eq!(o.count(), 0);

    let mut s = dragging(sp(100, 100), sp(100, 100));
    assert_eq!(o.sync(&s, Some(WINDOW)), OutlineAction::Create);
    assert_eq!(o.count(), 4);
    assert_eq!(o.edge(EdgeKind::Top), Some(edge(EdgeKind::Top, -300, -200, 0, 1)));

    s.move_to(sp(300, 250));
    assert_eq!(o.sync(&s, Some(WINDOW)), OutlineAction::Update);
    assert_eq!(o.count(), 4);
    assert_eq!(
        o.edges(),
        &outline_edges(ScreenRect::from_corners(sp(100, 100), sp(300, 250)), WINDOW)
    );

    assert_eq!(o.sync(&s, Some(WINDOW)), OutlineAction::Update);
    assert_eq!(o.count(), 4);

    s.release();
    assert_eq!(o.sync(&s, Some(WINDOW)), OutlineAction::Destroy);
    assert_eq!(o.count(), 0);
    assert_eq!(o.sync(&s, Some(WINDOW)), OutlineAction::Keep);
    assert_eq!(o.count(), 0);
}

#[test]
fn sync_without_viewport_keeps_a_drag_outline_as_it_is() {
    let mut o = Outline::new();
    let mut s = dragging(sp(10, 10), sp(20, 20));
    assert_eq!(o.sync(&s, None), OutlineAction::Keep);
    assert_eq!(o.count(), 0);
    assert_eq!(o.sync(&s, Some(WINDOW)), OutlineAction::Create);
    let shown = o.edges().clone();
    s.move_to(sp(500, 500));
    assert_eq!(o.sync(&s, None), OutlineAction::Keep);
    assert_eq!(o.edges(), &shown);
    assert_eq!(o.sync(&s, Some(WINDOW)), OutlineAction::Update);
    assert_eq!(
        o.edges(),
        &outline_edges(ScreenRect::from_corners(sp(10, 10), sp(500, 500)), WINDOW)
    );
}

#[test]
fn sync_without_viewport_still_removes_the_outline() {
    let mut o = Outline::new();
    let mut s = dragging(sp(10, 10), sp(20, 20));
    o.sync(&s, Some(WINDOW));
    s.release();
    assert_eq!(o.sync(&s, None), OutlineAction::Destroy);
    assert_eq!(o.count(), 0);
    assert_eq!(o.sync(&s, None), OutlineAction::Keep);
}

#[test]
fn sync_follows_a_resized_viewport() {
    let mut o = Outline::new();
    let s = dragging(sp(100, 100), sp(300, 250));
    o.sync(&s, Some(WINDOW));
    assert_eq!(o.edge(EdgeKind::Left), Some(edge(EdgeKind::Left, -300, -125, 1, 150)));
    let resized = Viewport { width: 400, height: 200 };
    assert_eq!(o.sync(&s, Some(resized)), OutlineAction::Update);
    assert_eq!(o.edge(EdgeKind::Left), Some(edge(EdgeKind::Left, -100, 75, 1, 150)));
    assert_eq!(o.edge(EdgeKind::Top), Some(edge(EdgeKind::Top, 0, 150, 200, 1)));
}

#[test]
fn edge_finds_each_side() {
    let mut o = Outline::new();
    let s = dragging(sp(100, 100), sp(300, 250));
    o.sync(&s, Some(WINDOW));
    for kind in [EdgeKind::Top, EdgeKind::Bottom, EdgeKind::Left, EdgeKind::Right] {
        let found = o.edge(kind).unwrap();
        assert_eq!(found.kind, kind);
        assert!(o.edges().contains(&found));
    }
    assert_eq!(o.edge(EdgeKind::Bottom), Some(edge(EdgeKind::Bottom, -200, -200, 200, 1)));
    assert_eq!(o.edge(EdgeKind::Right), Some(edge(EdgeKind::Right, -100, -125, 1, 150)));
    let kinds: Vec<EdgeKind> = o.edges().iter().map(|e| e.kind).collect();
    assert_eq!(kinds, vec![EdgeKind::Top, EdgeKind::Bottom, EdgeKind::Right, EdgeKind::Left]);
}

#[test]
fn outline_lifecycle_counts() {
    let mut o = Outline::new();
    let mut s = PointerState::new();
    let script: [(bool, bool, i32, i32, Option<Viewport>); 9] = [
        (false, false, 5, 5, Some(WINDOW)),
        (true, false, 10, 10, Some(WINDOW)),
        (false, false, 30, 40, None),
        (false, false, 50, 60, Some(WINDOW)),
        (true, false, 70, 80, Some(WINDOW)),
        (false, true, 90, 10, None),
        (false, true, 90, 10, Some(WINDOW)),
        (true, false, 1, 1, None),
        (false, true, 2, 2, Some(WINDOW)),
    ];
    for (press, release, x, y, viewport) in script {
        if press {
            s.press();
        }
        if release {
            s.release();
        }
        s.move_to(sp(x, y));
        o.sync(&s, viewport);
        let n = o.count();
        assert!(n == 0 || n == 4);
        assert_eq!(o.edges().len(), n);
        if !s.is_dragging() {
            assert_eq!(n, 0);
        }
        if s.is_dragging() && viewport.is_some() {
            assert_eq!(n, 4);
        }
    }
}
