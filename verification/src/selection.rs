//! Applying a finished drag: every object strictly inside the rectangle is
//! selected, every other object is deselected, and the rectangle is used up.

use vstd::prelude::*;
use crate::geometry::{BoundingBox, Point, Rect, Viewport, WorldPoint};
use crate::pointer::{PointerModel, PointerState};

verus! {

/// An object of the scene that a drag can select.
#[derive(Clone, Copy, Debug, PartialEq, Eq, Structural)]
pub struct SelectableObject {
    /// Where the object is, in world space.
    pub position: WorldPoint,
    /// Whether the last applied rectangle held the object.
    pub selected: bool,
}

impl SelectableObject {
    /// An object at `position` that is not selected.
    pub fn new(position: WorldPoint) -> (o: SelectableObject)
        ensures
            o.position == position,
            !o.selected,
    {
        SelectableObject { position, selected: false }
    }
}

/// The objects after a rectangle given in world space was applied: each
/// stays where it is, and is selected exactly if the rectangle encloses it.
pub open spec fn marked(objects: Seq<SelectableObject>, r: Rect) -> Seq<SelectableObject> {
    Seq::new(
        objects.len(),
        |i: int|
            SelectableObject {
                position: objects[i].position,
                selected: r.encloses(objects[i].position@),
            },
    )
}

/// Whether a frame's selection stage has a rectangle to apply: one is
/// waiting, and the viewport is known.
pub open spec fn applies(pointer: PointerModel, viewport: Option<Viewport>) -> bool {
    pointer.finalized is Some && viewport is Some
}

/// The pointer's state after a frame's selection stage: the rectangle is used
/// up if it was applied.
pub open spec fn pointer_after_selection(
    pointer: PointerModel,
    viewport: Option<Viewport>,
) -> PointerModel {
    if applies(pointer, viewport) {
        pointer.consumed()
    } else {
        pointer
    }
}

/// The objects after a frame's selection stage: marked by the waiting
/// rectangle, in the world space of the frame's viewport, if there are both;
/// else as they were.
pub open spec fn objects_after_selection(
    pointer: PointerModel,
    viewport: Option<Viewport>,
    objects: Seq<SelectableObject>,
) -> Seq<SelectableObject> {
    if applies(pointer, viewport) {
        marked(objects, viewport->0.world_rect_of(pointer.finalized->0))
    } else {
        objects
    }
}

/// Sets the flag of every object by the hit test against `bounds`.
pub fn select_within(bounds: BoundingBox, objects: &mut Vec<SelectableObject>)
    ensures
        final(objects)@ == marked(old(objects)@, bounds@),
{
    let n = objects.len();
    let mut i: usize = 0;
    while i < n
        invariant
            i <= n,
            n == objects@.len(),
            n == old(objects)@.len(),
            forall|j: int| 0 <= j < i ==> objects@[j] == marked(old(objects)@, bounds@)[j],
            forall|j: int| i <= j < n ==> objects@[j] == old(objects)@[j],
        decreases n - i,
    {
        let position = objects[i].position;
        let selected = bounds.contains(position);
        objects.set(i, SelectableObject { position, selected });
        i = i + 1;
    }
    proof {
        assert(objects@ =~= marked(old(objects)@, bounds@));
    }
}

/// The selection stage of a frame. If a finished rectangle is waiting and the
/// viewport is known, the rectangle is applied to every object and used up,
/// and the result is `true`. If none is waiting, nothing changes. If the
/// viewport is not known, nothing changes either: the rectangle waits for a
/// later frame.
pub fn apply_selection(
    pointer: &mut PointerState,
    viewport: Option<Viewport>,
    objects: &mut Vec<SelectableObject>,
) -> (applied: bool)
    ensures
        applied == applies(old(pointer)@, viewport),
        final(pointer)@ == pointer_after_selection(old(pointer)@, viewport),
        final(objects)@ == objects_after_selection(old(pointer)@, viewport, old(objects)@),
{
    match viewport {
        None => false,
        Some(v) => match pointer.take_finalized() {
            None => false,
            Some(rect) => {
                select_within(rect.to_world(v), objects);
                true
            },
        },
    }
}

/// A waiting rectangle is applied exactly once. The selection stage that
/// finds it applies it and uses it up; the one after that finds none and
/// changes neither the pointer's state nor any object, whatever its viewport.
pub proof fn lemma_rect_is_applied_once(
    pointer: PointerModel,
    first: Viewport,
    second: Option<Viewport>,
    objects: Seq<SelectableObject>,
)
    requires
        pointer.finalized is Some,
    ensures
        applies(pointer, Some(first)),
        pointer_after_selection(pointer, Some(first)).finalized is None,
        !applies(pointer_after_selection(pointer, Some(first)), second),
        pointer_after_selection(pointer_after_selection(pointer, Some(first)), second)
            == pointer_after_selection(pointer, Some(first)),
        objects_after_selection(
            pointer_after_selection(pointer, Some(first)),
            second,
            objects_after_selection(pointer, Some(first), objects),
        ) == objects_after_selection(pointer, Some(first), objects),
{
}

/// While no rectangle is waiting, the selection stage leaves every object as
/// it is: its place and its flag.
pub proof fn lemma_selection_is_sticky(
    pointer: PointerModel,
    viewport: Option<Viewport>,
    objects: Seq<SelectableObject>,
)
    requires
        pointer.finalized is None,
    ensures
        objects_after_selection(pointer, viewport, objects) == objects,
        pointer_after_selection(pointer, viewport) == pointer,
{
}

/// Applying a rectangle moves no object, and adds and removes none.
pub proof fn lemma_marking_keeps_places(objects: Seq<SelectableObject>, r: Rect)
    ensures
        marked(objects, r).len() == objects.len(),
        forall|i: int|
            0 <= i < objects.len() ==> (#[trigger] marked(objects, r)[i]).position
                == objects[i].position,
{
}

/// A drag that ends where it began selects no object, in any viewport.
pub proof fn lemma_point_drag_selects_nothing(
    pointer: PointerModel,
    a: Point,
    viewport: Viewport,
    objects: Seq<SelectableObject>,
)
    ensures
        applies(pointer.dragged(a, a), Some(viewport)),
        forall|i: int|
            0 <= i < objects.len() ==> !(#[trigger] objects_after_selection(
                pointer.dragged(a, a),
                Some(viewport),
                objects,
            )[i]).selected,
{
}

/// An object on a side of the applied rectangle is not selected.
pub proof fn lemma_objects_on_sides_are_not_selected(
    objects: Seq<SelectableObject>,
    r: Rect,
    i: int,
)
    requires
        0 <= i < objects.len(),
        objects[i].position@.x == r.left || objects[i].position@.x == r.right
            || objects[i].position@.y == r.top || objects[i].position@.y == r.bottom,
    ensures
        !marked(objects, r)[i].selected,
{
}

} // verus!
