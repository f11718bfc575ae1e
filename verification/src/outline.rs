//! The outline of a drag in progress: four thin drawables that trace the
//! sides of the rectangle between the anchor and the pointer.
//!
//! The outline is computed afresh from the pointer's state in every frame.
//! The host mirrors it: what it has to do with its own drawables is told by
//! an [`OutlineAction`].

use vstd::prelude::*;
use crate::geometry::{lemma_spanning_normalized, Point, Rect, ScreenRect, Viewport, WorldPoint};
use crate::pointer::{PointerModel, PointerState};

verus! {

/// How thick an edge is drawn, in world units.
pub const OUTLINE_THICKNESS: i64 = 1;

/// The depth at which the host draws every edge.
pub const OUTLINE_DEPTH: i64 = 0;

/// The side of the rectangle that an edge traces.
#[derive(Clone, Copy, Debug, PartialEq, Eq, Structural)]
pub enum EdgeKind {
    Top,
    Bottom,
    Left,
    Right,
}

/// One edge of the outline, as contracts speak of it: a drawable centred at
/// `center` that is `width` wide and `height` high.
pub struct Edge {
    pub kind: EdgeKind,
    pub center: Point,
    pub width: int,
    pub height: int,
}

/// One edge of the outline, for the host to draw at [`OUTLINE_DEPTH`].
#[derive(Clone, Copy, Debug, PartialEq, Eq, Structural)]
pub struct OutlineEdge {
    pub kind: EdgeKind,
    /// The centre of the drawable, in world space.
    pub position: WorldPoint,
    pub width: i64,
    pub height: i64,
}

impl View for OutlineEdge {
    type V = Edge;

    open spec fn view(&self) -> Edge {
        Edge {
            kind: self.kind,
            center: self.position@,
            width: self.width as int,
            height: self.height as int,
        }
    }
}

/// The edge that traces one side of a rectangle given in world space. The
/// horizontal edges lie on the rectangle's top and bottom and are as wide as
/// it; the vertical edges lie on its left and right and are as high as it.
/// Each is centred on the middle of its side, rounded down.
pub open spec fn edge_of(kind: EdgeKind, r: Rect) -> Edge {
    match kind {
        EdgeKind::Top => Edge {
            kind,
            center: Point { x: r.left + r.width() / 2, y: r.top },
            width: r.width(),
            height: OUTLINE_THICKNESS as int,
        },
        EdgeKind::Bottom => Edge {
            kind,
            center: Point { x: r.left + r.width() / 2, y: r.bottom },
            width: r.width(),
            height: OUTLINE_THICKNESS as int,
        },
        EdgeKind::Left => Edge {
            kind,
            center: Point { x: r.left, y: r.bottom + r.height() / 2 },
            width: OUTLINE_THICKNESS as int,
            height: r.height(),
        },
        EdgeKind::Right => Edge {
            kind,
            center: Point { x: r.right, y: r.bottom + r.height() / 2 },
            width: OUTLINE_THICKNESS as int,
            height: r.height(),
        },
    }
}

/// The four edges of a rectangle given in world space: top, bottom, right,
/// left.
pub open spec fn outline_of(r: Rect) -> Seq<Edge> {
    seq![
        edge_of(EdgeKind::Top, r),
        edge_of(EdgeKind::Bottom, r),
        edge_of(EdgeKind::Right, r),
        edge_of(EdgeKind::Left, r),
    ]
}

/// Where the edge of a side stands among the four.
pub open spec fn slot_of(kind: EdgeKind) -> int {
    match kind {
        EdgeKind::Top => 0,
        EdgeKind::Bottom => 1,
        EdgeKind::Right => 2,
        EdgeKind::Left => 3,
    }
}

/// An outline is absent or whole: no edge, or the four edges in their order.
pub open spec fn absent_or_whole(edges: Seq<Edge>) -> bool {
    ||| edges.len() == 0
    ||| {
        &&& edges.len() == 4
        &&& edges[slot_of(EdgeKind::Top)].kind == EdgeKind::Top
        &&& edges[slot_of(EdgeKind::Bottom)].kind == EdgeKind::Bottom
        &&& edges[slot_of(EdgeKind::Right)].kind == EdgeKind::Right
        &&& edges[slot_of(EdgeKind::Left)].kind == EdgeKind::Left
    }
}

/// The outline after a frame's rendering. Without a drag there is none. With
/// a drag and a viewport it is the outline of the rectangle between the
/// anchor and the pointer, in the world space of that viewport. With a drag
/// and no viewport it stays as it was.
pub open spec fn synced(
    current: Seq<Edge>,
    pointer: PointerModel,
    viewport: Option<Viewport>,
) -> Seq<Edge> {
    match pointer.anchor {
        None => Seq::empty(),
        Some(a) => match viewport {
            None => current,
            Some(v) => outline_of(v.world_rect_of(Rect::spanning(a, pointer.position))),
        },
    }
}

/// What the host has to do with its drawables after a frame's rendering.
#[derive(Clone, Copy, Debug, PartialEq, Eq, Structural)]
pub enum OutlineAction {
    /// Nothing changed.
    Keep,
    /// There were no drawables: make one for each of the four edges.
    Create,
    /// The four drawables are there: give each the place and size of its edge.
    Update,
    /// Remove the four drawables.
    Destroy,
}

/// The action that takes the host from `current` to `synced(current, ..)`.
pub open spec fn action_for(
    current: Seq<Edge>,
    pointer: PointerModel,
    viewport: Option<Viewport>,
) -> OutlineAction {
    match pointer.anchor {
        None => if current.len() == 0 {
            OutlineAction::Keep
        } else {
            OutlineAction::Destroy
        },
        Some(a) => match viewport {
            None => OutlineAction::Keep,
            Some(v) => if current.len() == 0 {
                OutlineAction::Create
            } else {
                OutlineAction::Update
            },
        },
    }
}

/// The edges of a list of drawables, as contracts speak of them.
pub open spec fn edges_of(drawables: Seq<OutlineEdge>) -> Seq<Edge> {
    drawables.map_values(|e: OutlineEdge| e@)
}

/// Computes the four edges of a drag's rectangle in the world space of
/// `viewport`.
pub fn outline_edges(rect: ScreenRect, viewport: Viewport) -> (edges: Vec<OutlineEdge>)
    ensures
        edges_of(edges@) == outline_of(viewport.world_rect_of(rect@)),
        forall|i: int| 0 <= i < edges@.len() ==> edges@[i].width >= 0 && edges@[i].height >= 0,
{
    let world = rect.to_world(viewport);
    proof {
        rect.lemma_sides_in_range();
        use_type_invariant(&world);
    }
    let width: i64 = world.right() - world.left();
    let height: i64 = world.top() - world.bottom();
    let mid_x: i64 = world.left() + width / 2;
    let mid_y: i64 = world.bottom() + height / 2;
    let mut edges: Vec<OutlineEdge> = Vec::new();
    edges.push(
        OutlineEdge {
            kind: EdgeKind::Top,
            position: WorldPoint { x: mid_x, y: world.top() },
            width,
            height: OUTLINE_THICKNESS,
        },
    );
    edges.push(
        OutlineEdge {
            kind: EdgeKind::Bottom,
            position: WorldPoint { x: mid_x, y: world.bottom() },
            width,
            height: OUTLINE_THICKNESS,
        },
    );
    edges.push(
        OutlineEdge {
            kind: EdgeKind::Right,
            position: WorldPoint { x: world.right(), y: mid_y },
            width: OUTLINE_THICKNESS,
            height,
        },
    );
    edges.push(
        OutlineEdge {
            kind: EdgeKind::Left,
            position: WorldPoint { x: world.left(), y: mid_y },
            width: OUTLINE_THICKNESS,
            height,
        },
    );
    proof {
        assert(edges_of(edges@) =~= outline_of(viewport.world_rect_of(rect@)));
    }
    edges
}

/// The outline that the host shows: no drawable, or the four of one drag.
#[derive(Debug)]
pub struct Outline {
    edges: Vec<OutlineEdge>,
}

impl View for Outline {
    type V = Seq<Edge>;

    closed spec fn view(&self) -> Seq<Edge> {
        edges_of(self.edges@)
    }
}

impl Outline {
    /// Every value of this type is absent or whole.
    #[verifier::type_invariant]
    pub open spec fn well_formed(self) -> bool {
        absent_or_whole(self@)
    }

    /// No outline.
    pub fn new() -> (o: Outline)
        ensures
            o@ == Seq::<Edge>::empty(),
    {
        let o = Outline { edges: Vec::new() };
        proof {
            assert(edges_of(o.edges@) =~= Seq::<Edge>::empty());
        }
        o
    }

    /// Renders one frame: brings the outline in line with the pointer's state
    /// and says what the host has to do to follow.
    pub fn sync(&mut self, pointer: &PointerState, viewport: Option<Viewport>) -> (action:
        OutlineAction)
        ensures
            final(self)@ == synced(old(self)@, pointer@, viewport),
            action == action_for(old(self)@, pointer@, viewport),
    {
        proof {
            use_type_invariant(&*self);
        }
        let shown = self.edges.len() > 0;
        match pointer.anchor() {
            None => {
                if shown {
                    self.edges = Vec::new();
                    proof {
                        assert(edges_of(self.edges@) =~= Seq::<Edge>::empty());
                    }
                    OutlineAction::Destroy
                } else {
                    proof {
                        assert(edges_of(self.edges@) =~= Seq::<Edge>::empty());
                    }
                    OutlineAction::Keep
                }
            },
            Some(anchor) => match viewport {
                None => OutlineAction::Keep,
                Some(v) => {
                    let rect = ScreenRect::from_corners(anchor, pointer.position());
                    self.edges = outline_edges(rect, v);
                    if shown {
                        OutlineAction::Update
                    } else {
                        OutlineAction::Create
                    }
                },
            },
        }
    }

    /// How many drawables the outline has: none or four.
    pub fn count(&self) -> (n: usize)
        ensures
            n == self@.len(),
            n == 0 || n == 4,
    {
        proof {
            use_type_invariant(self);
        }
        self.edges.len()
    }

    /// The drawables of the outline: none, or top, bottom, right, left.
    pub fn edges(&self) -> (drawables: &Vec<OutlineEdge>)
        ensures
            edges_of(drawables@) == self@,
    {
        proof {
            use_type_invariant(self);
        }
        &self.edges
    }

    /// The drawable that traces the given side, while there is an outline.
    pub fn edge(&self, kind: EdgeKind) -> (found: Option<OutlineEdge>)
        ensures
            match found {
                Some(e) => self@.len() == 4 && e@ == self@[slot_of(kind)] && e.kind == kind,
                None => self@.len() == 0,
            },
    {
        proof {
            use_type_invariant(self);
        }
        if self.edges.len() == 0 {
            None
        } else {
            let i: usize = match kind {
                EdgeKind::Top => 0,
                EdgeKind::Bottom => 1,
                EdgeKind::Right => 2,
                EdgeKind::Left => 3,
            };
            assert(self@[i as int] == self.edges[i as int]@);
            Some(self.edges[i])
        }
    }
}

impl Default for Outline {
    fn default() -> (o: Outline)
        ensures
            o@ == Seq::<Edge>::empty(),
    {
        Outline::new()
    }
}

/// The outline of a normalized rectangle is whole, none of its edges has a
/// negative extent, and each edge lies on its side of the rectangle.
pub proof fn lemma_outline_traces_rect(r: Rect)
    requires
        r.normalized(),
    ensures
        outline_of(r).len() == 4,
        absent_or_whole(outline_of(r)),
        forall|i: int|
            0 <= i < 4 ==> (#[trigger] outline_of(r)[i]).width >= 0 && outline_of(r)[i].height
                >= 0,
        edge_of(EdgeKind::Top, r).center.y == r.top,
        edge_of(EdgeKind::Bottom, r).center.y == r.bottom,
        edge_of(EdgeKind::Left, r).center.x == r.left,
        edge_of(EdgeKind::Right, r).center.x == r.right,
        r.left <= edge_of(EdgeKind::Top, r).center.x <= r.right,
        r.bottom <= edge_of(EdgeKind::Left, r).center.y <= r.top,
{
}

/// Rendering keeps an outline absent or whole, and rendering the same frame
/// again changes nothing and asks for no drawable to be made or removed.
pub proof fn lemma_sync_is_stable(
    current: Seq<Edge>,
    pointer: PointerModel,
    viewport: Option<Viewport>,
)
    requires
        absent_or_whole(current),
    ensures
        absent_or_whole(synced(current, pointer, viewport)),
        synced(synced(current, pointer, viewport), pointer, viewport) == synced(
            current,
            pointer,
            viewport,
        ),
        action_for(synced(current, pointer, viewport), pointer, viewport) != OutlineAction::Create,
        action_for(synced(current, pointer, viewport), pointer, viewport)
            != OutlineAction::Destroy,
{
    if pointer.anchor is Some && viewport is Some {
        lemma_spanning_normalized(pointer.anchor->0, pointer.position);
    }
}

/// The outline of a drag is the same whichever of the two corners is the
/// anchor and whichever the pointer.
pub proof fn lemma_outline_ignores_direction(
    current: Seq<Edge>,
    pointer: PointerModel,
    a: Point,
    b: Point,
    viewport: Viewport,
)
    ensures
        synced(current, pointer.moved(a).pressed().moved(b), Some(viewport)) == synced(
            current,
            pointer.moved(b).pressed().moved(a),
            Some(viewport),
        ),
{
}

} // verus!
