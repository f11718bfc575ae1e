use marquee::geometry::{ScreenPoint, ScreenRect, Viewport, WorldPoint};
use marquee::frame::Marquee;
use marquee::outline::{outline_edges, EdgeKind, Outline, OutlineAction};
use marquee::pointer::{ButtonEvent, PointerState};
use marquee::selection::SelectableObject;

fn sp(x: i32, y: i32) -> ScreenPoint {
    ScreenPoint { x, y }
}

fn at(x: i64, y: i64) -> SelectableObject {
    SelectableObject::new(WorldPoint { x, y })
}

fn flags(objects: &[SelectableObject]) -> Vec<bool> {
    objects.iter().map(|o| o.selected).collect()
}

const WINDOW: Viewport = Viewport { width: 800, height: 600 };

#[test]
fn new_marquee_is_idle() {
    let m = Marquee::new();
    assert_eq!(m.pointer().position(), sp(0, 0));
    assert_eq!(m.pointer().anchor(), None);
    assert_eq!(m.pointer().finalized(), None);
    assert_eq!(m.outline().count(), 0);
}

#[test]
fn default_values_are_the_new_ones() {
    let m = Marquee::default();
    assert_eq!(m.pointer(), &PointerState::new());
    assert_eq!(m.outline().count(), 0);
    assert_eq!(PointerState::default(), PointerState::new());
    assert_eq!(Outline::default().count(), 0);
}

#[test]
fn tick_runs_a_whole_drag() {
    let mut m = Marquee::new();
    let mut objects = vec![at(-150, -100), at(0, 0)];

    let a = m.tick(&[], &[sp(100, 100)], Some(WINDOW), &mut objects);
    assert_eq!(a, OutlineAction::Keep);
    assert_eq!(m.outline().count(), 0);

    let a = m.tick(&[ButtonEvent::Pressed], &[], Some(WINDOW), &mut objects);
    assert_eq!(a, OutlineAction::Create);
    assert_eq!(m.outline().count(), 4);
    assert_eq!(m.pointer().anchor(), Some(sp(100, 100)));

    let a = m.tick(&[], &[sp(200, 200), sp(300, 250)], Some(WINDOW), &mut objects);
    assert_eq!(a, OutlineAction::Update);
    assert_eq!(
        m.outline().edges(),
        &outline_edges(ScreenRect::from_corners(sp(100, 100), sp(300, 250)), WINDOW)
    );
    assert_eq!(flags(&objects), vec![false, false]);

    let a = m.tick(&[ButtonEvent::Released], &[], Some(WINDOW), &mut objects);
    assert_eq!(a, OutlineAction::Destroy);
    assert_eq!(m.outline().count(), 0);
    assert_eq!(flags(&objects), vec![true, false]);
    assert_eq!(m.pointer().finalized(), None);
    assert_eq!(m.pointer().anchor(), None);

    let a = m.tick(&[], &[sp(5, 5)], Some(WINDOW), &mut objects);
    assert_eq!(a, OutlineAction::Keep);
    assert_eq!(flags(&objects), vec![true, false]);
}

#[test]
fn tick_renders_before_it_selects() {
    let mut m = Marquee::new();
    let mut objects = vec![at(-390, -290)];
    m.tick(&[], &[sp(20, 20)], Some(WINDOW), &mut objects);
    let a = m.tick(
        &[ButtonEvent::Pressed, ButtonEvent::Released],
        &[sp(0, 0)],
        Some(WINDOW),
        &mut objects,
    );
    assert_eq!(a, OutlineAction::Keep);
    assert_eq!(m.outline().count(), 0);
    assert_eq!(flags(&objects), vec![false]);
    assert_eq!(m.pointer().finalized(), None);
    assert_eq!(m.pointer().position(), sp(0, 0));
}

#[test]
fn tick_keeps_selection_until_the_next_release() {
    let mut m = Marquee::new();
    let mut objects = vec![at(-150, -100), at(0, 0)];
    m.tick(&[], &[sp(100, 100)], Some(WINDOW), &mut objects);
    m.tick(&[ButtonEvent::Pressed], &[sp(300, 250)], Some(WINDOW), &mut objects);
    m.tick(&[ButtonEvent::Released], &[], Some(WINDOW), &mut objects);
    assert_eq!(flags(&objects), vec![true, false]);

    m.tick(&[], &[sp(390, 290)], Some(WINDOW), &mut objects);
    assert_eq!(flags(&objects), vec![true, false]);
    m.tick(&[ButtonEvent::Pressed], &[sp(410, 310)], Some(WINDOW), &mut objects);
    assert_eq!(flags(&objects), vec![true, false]);
    m.tick(&[], &[sp(420, 320)], None, &mut objects);
    assert_eq!(flags(&objects), vec![true, false]);
    m.tick(&[ButtonEvent::Pressed], &[], Some(WINDOW), &mut objects);
    assert_eq!(flags(&objects), vec![true, false]);

    m.tick(&[ButtonEvent::Released], &[], Some(WINDOW), &mut objects);
    assert_eq!(flags(&objects), vec![false, false]);
}

#[test]
fn tick_without_viewport_retries_in_the_next_frame() {
    let mut m = Marquee::new();
    let mut objects = vec![at(-150, -100), at(0, 0)];
    m.tick(&[], &[sp(100, 100)], None, &mut objects);
    let a = m.tick(&[ButtonEvent::Pressed], &[sp(300, 250)], None, &mut objects);
    assert_eq!(a, OutlineAction::Keep);
    assert_eq!(m.outline().count(), 0);
    let a = m.tick(&[], &[], Some(WINDOW), &mut objects);
    assert_eq!(a, OutlineAction::Create);
    assert_eq!(m.outline().count(), 4);

    let a = m.tick(&[ButtonEvent::Released], &[], None, &mut objects);
    assert_eq!(a, OutlineAction::Destroy);
    assert_eq!(m.outline().count(), 0);
    assert_eq!(flags(&objects), vec![false, false]);
    assert!(m.pointer().finalized().is_some());

    let a = m.tick(&[], &[], Some(WINDOW), &mut objects);
    assert_eq!(a, OutlineAction::Keep);
    assert_eq!(flags(&objects), vec![true, false]);
    assert_eq!(m.pointer().finalized(), None);
}

#[test]
fn tick_leaves_no_stray_drawables() {
    let mut m = Marquee::new();
    let mut objects = vec![at(0, 0)];
    let frames: Vec<(Vec<ButtonEvent>, Vec<ScreenPoint>, Option<Viewport>)> = vec![
        (vec![ButtonEvent::Released], vec![sp(1, 1)], Some(WINDOW)),
        (vec![ButtonEvent::Pressed], vec![sp(2, 2)], Some(WINDOW)),
        (vec![ButtonEvent::Pressed], vec![], None),
        (vec![], vec![sp(700, 500)], Some(WINDOW)),
        (vec![ButtonEvent::Released, ButtonEvent::Pressed], vec![sp(3, 3)], Some(WINDOW)),
        (vec![ButtonEvent::Released], vec![], None),
        (vec![ButtonEvent::Released], vec![], Some(WINDOW)),
        (vec![ButtonEvent::Pressed, ButtonEvent::Released], vec![sp(9, 9)], Some(WINDOW)),
        (vec![], vec![], None),
    ];
    for (buttons, moves, viewport) in frames {
        let before = m.outline().count();
        let action = m.tick(&buttons, &moves, viewport, &mut objects);
        let after = m.outline().count();
        assert!(after == 0 || after == 4);
        match action {
            OutlineAction::Create => assert!(before == 0 && after == 4),
            OutlineAction::Update => assert!(before == 4 && after == 4),
            OutlineAction::Destroy => assert!(before == 4 && after == 0),
            OutlineAction::Keep => assert_eq!(before, after),
        }
        assert_eq!(m.pointer().is_dragging() && viewport.is_some(), after == 4 && viewport.is_some());
        if !m.pointer().is_dragging() {
            assert_eq!(after, 0);
        }
        if let Some(ButtonEvent::Pressed) = buttons.last() {
            if viewport.is_some() {
                assert_eq!(after, 4);
            }
        }
        if let Some(ButtonEvent::Released) = buttons.last() {
            assert_eq!(after, 0);
        }
        if viewport.is_some() {
            assert_eq!(m.pointer().finalized(), None);
        }
    }
}

#[test]
fn tick_outline_uses_the_position_after_the_moves() {
    let mut m = Marquee::new();
    let mut objects: Vec<SelectableObject> = Vec::new();
    m.tick(&[], &[sp(400, 300)], Some(WINDOW), &mut objects);
    m.tick(&[ButtonEvent::Pressed], &[sp(410, 320)], Some(WINDOW), &mut objects);
    let top = m.outline().edge(EdgeKind::Top).unwrap();
    assert_eq!((top.position.x, top.position.y, top.width, top.height), (5, 20, 10, 1));
    let left = m.outline().edge(EdgeKind::Left).unwrap();
    assert_eq!((left.position.x, left.position.y, left.width, left.height), (0, 10, 1, 20));
}
