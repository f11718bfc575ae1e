//! The pointer's state across frames: where it is, where the button went
//! down, and the rectangle that the last release left behind.
//!
//! Nothing here converts to world space. The rectangle is kept as the screen
//! saw it and is converted by whoever consumes it, with the viewport of that
//! frame.

use vstd::prelude::*;
use crate::geometry::{Point, Rect, ScreenPoint, ScreenRect, Viewport};

verus! {

/// What the pointer's button did.
#[derive(Clone, Copy, Debug, PartialEq, Eq, Structural)]
pub enum ButtonEvent {
    Pressed,
    Released,
}

/// The pointer's state, as contracts speak of it.
pub struct PointerModel {
    /// Where the pointer is, in screen space.
    pub position: Point,
    /// Where the button went down, while it is held.
    pub anchor: Option<Point>,
    /// The rectangle of the last finished drag, until it is consumed.
    pub finalized: Option<Rect>,
}

impl PointerModel {
    /// The state before any event: at the origin, no drag, no rectangle.
    pub open spec fn initial() -> PointerModel {
        PointerModel { position: Point { x: 0, y: 0 }, anchor: None, finalized: None }
    }

    /// A drag and a finished rectangle are never there together, and a
    /// finished rectangle is normalized.
    pub open spec fn consistent(self) -> bool {
        &&& !(self.anchor is Some && self.finalized is Some)
        &&& self.finalized matches Some(r) ==> r.normalized()
    }

    /// The pointer moved to `p`.
    pub open spec fn moved(self, p: Point) -> PointerModel {
        PointerModel { position: p, ..self }
    }

    /// The button went down: a drag starts where the pointer is, and a
    /// rectangle that nobody consumed is dropped. A drag under way starts
    /// over.
    pub open spec fn pressed(self) -> PointerModel {
        PointerModel { anchor: Some(self.position), finalized: None, ..self }
    }

    /// The button came up: the drag ends and leaves the rectangle between its
    /// anchor and the pointer. Without a drag nothing changes.
    pub open spec fn released(self) -> PointerModel {
        match self.anchor {
            Some(a) => PointerModel {
                anchor: None,
                finalized: Some(Rect::spanning(a, self.position)),
                ..self
            },
            None => self,
        }
    }

    /// One button event.
    pub open spec fn after_button(self, event: ButtonEvent) -> PointerModel {
        match event {
            ButtonEvent::Pressed => self.pressed(),
            ButtonEvent::Released => self.released(),
        }
    }

    /// Button events, first to last.
    pub open spec fn after_buttons(self, events: Seq<ButtonEvent>) -> PointerModel
        decreases events.len(),
    {
        if events.len() == 0 {
            self
        } else {
            self.after_buttons(events.drop_last()).after_button(events.last())
        }
    }

    /// Move events, first to last: the pointer is where the last one put it.
    pub open spec fn after_moves(self, moves: Seq<ScreenPoint>) -> PointerModel {
        if moves.len() == 0 {
            self
        } else {
            self.moved(moves.last()@)
        }
    }

    /// One frame's events: the button events, then the move events.
    pub open spec fn aggregated(
        self,
        buttons: Seq<ButtonEvent>,
        moves: Seq<ScreenPoint>,
    ) -> PointerModel {
        self.after_buttons(buttons).after_moves(moves)
    }

    /// The finished rectangle was handed on.
    pub open spec fn consumed(self) -> PointerModel {
        PointerModel { finalized: None, ..self }
    }

    /// A whole drag: the pointer goes to `from`, the button goes down, the
    /// pointer goes to `to`, the button comes up.
    pub open spec fn dragged(self, from: Point, to: Point) -> PointerModel {
        self.moved(from).pressed().moved(to).released()
    }
}

/// The pointer's state. One value of it is threaded through the stages of
/// every frame.
#[derive(Clone, Copy, Debug, PartialEq, Eq, Structural)]
pub struct PointerState {
    position: ScreenPoint,
    anchor: Option<ScreenPoint>,
    finalized: Option<ScreenRect>,
}

impl View for PointerState {
    type V = PointerModel;

    closed spec fn view(&self) -> PointerModel {
        PointerModel {
            position: self.position@,
            anchor: match self.anchor {
                Some(a) => Some(a@),
                None => None,
            },
            finalized: match self.finalized {
                Some(r) => Some(r@),
                None => None,
            },
        }
    }
}

impl PointerState {
    /// Every value of this type is consistent.
    #[verifier::type_invariant]
    pub open spec fn well_formed(self) -> bool {
        self@.consistent()
    }

    /// The state before any event.
    pub fn new() -> (s: PointerState)
        ensures
            s@ == PointerModel::initial(),
    {
        PointerState { position: ScreenPoint { x: 0, y: 0 }, anchor: None, finalized: None }
    }

    /// Takes a move event.
    pub fn move_to(&mut self, p: ScreenPoint)
        ensures
            final(self)@ == old(self)@.moved(p@),
    {
        proof {
            use_type_invariant(&*self);
        }
        self.position = p;
    }

    /// Takes a press of the button.
    pub fn press(&mut self)
        ensures
            final(self)@ == old(self)@.pressed(),
    {
        self.finalized = None;
        self.anchor = Some(self.position);
    }

    /// Takes a release of the button. A release without a drag is ignored.
    pub fn release(&mut self)
        ensures
            final(self)@ == old(self)@.released(),
    {
        proof {
            use_type_invariant(&*self);
        }
        if let Some(a) = self.anchor {
            let rect = ScreenRect::from_corners(a, self.position);
            proof {
                use_type_invariant(&rect);
            }
            self.anchor = None;
            self.finalized = Some(rect);
        }
    }

    /// Takes one button event.
    pub fn handle_button(&mut self, event: ButtonEvent)
        ensures
            final(self)@ == old(self)@.after_button(event),
    {
        match event {
            ButtonEvent::Pressed => self.press(),
            ButtonEvent::Released => self.release(),
        }
    }

    /// Takes the events of one frame: every button event in the order given,
    /// each at the position that the pointer had when the frame began, then
    /// every move event in the order given.
    pub fn aggregate(&mut self, buttons: &[ButtonEvent], moves: &[ScreenPoint])
        ensures
            final(self)@ == old(self)@.aggregated(buttons@, moves@),
    {
        let mut i: usize = 0;
        while i < buttons.len()
            invariant
                i <= buttons.len(),
                self@ == old(self)@.after_buttons(buttons@.take(i as int)),
            decreases buttons.len() - i,
        {
            proof {
                assert(buttons@.take(i + 1).drop_last() =~= buttons@.take(i as int));
            }
            self.handle_button(buttons[i]);
            i = i + 1;
        }
        proof {
            assert(buttons@.take(i as int) =~= buttons@);
        }
        let mut j: usize = 0;
        while j < moves.len()
            invariant
                j <= moves.len(),
                self@ == old(self)@.after_buttons(buttons@).after_moves(moves@.take(j as int)),
            decreases moves.len() - j,
        {
            self.move_to(moves[j]);
            j = j + 1;
        }
        proof {
            assert(moves@.take(j as int) =~= moves@);
        }
    }

    /// Hands out the finished rectangle, if there is one, and forgets it: the
    /// next call finds none.
    pub fn take_finalized(&mut self) -> (taken: Option<ScreenRect>)
        ensures
            final(self)@ == old(self)@.consumed(),
            match taken {
                Some(r) => old(self)@.finalized == Some(r@),
                None => old(self)@.finalized is None,
            },
    {
        proof {
            use_type_invariant(&*self);
        }
        let taken = self.finalized;
        self.finalized = None;
        taken
    }

    /// Where the pointer is.
    pub fn position(&self) -> (p: ScreenPoint)
        ensures
            p@ == self@.position,
    {
        self.position
    }

    /// Where the button went down, while a drag is under way.
    pub fn anchor(&self) -> (a: Option<ScreenPoint>)
        ensures
            match a {
                Some(p) => self@.anchor == Some(p@),
                None => self@.anchor is None,
            },
    {
        self.anchor
    }

    /// The finished rectangle, while nobody has consumed it.
    pub fn finalized(&self) -> (f: Option<ScreenRect>)
        ensures
            match f {
                Some(r) => self@.finalized == Some(r@),
                None => self@.finalized is None,
            },
    {
        self.finalized
    }

    /// Whether a drag is under way.
    pub fn is_dragging(&self) -> (d: bool)
        ensures
            d == self@.anchor is Some,
    {
        self.anchor.is_some()
    }
}

impl Default for PointerState {
    fn default() -> (s: PointerState)
        ensures
            s@ == PointerModel::initial(),
    {
        PointerState::new()
    }
}

/// No event of the list is a release.
pub open spec fn no_release(buttons: Seq<ButtonEvent>) -> bool {
    forall|i: int| 0 <= i < buttons.len() ==> buttons[i] != ButtonEvent::Released
}

/// A drag leaves the same rectangle whichever of its two corners it began
/// at: the rectangle that the corners span, which is the same in every
/// viewport's world space too. The drag itself is over.
pub proof fn lemma_drag_direction_is_forgotten(
    s: PointerModel,
    a: Point,
    b: Point,
    viewport: Viewport,
)
    ensures
        s.dragged(a, b).finalized == Some(Rect::spanning(a, b)),
        s.dragged(b, a).finalized == s.dragged(a, b).finalized,
        viewport.world_rect_of(s.dragged(b, a).finalized->0) == viewport.world_rect_of(
            s.dragged(a, b).finalized->0,
        ),
        s.dragged(a, b).anchor is None,
        s.dragged(b, a).anchor is None,
{
}

/// Every single event, and the handing on of the rectangle, keeps a
/// consistent state consistent.
pub proof fn lemma_events_keep_consistency(s: PointerModel, p: Point, event: ButtonEvent)
    requires
        s.consistent(),
    ensures
        s.moved(p).consistent(),
        s.pressed().consistent(),
        s.released().consistent(),
        s.after_button(event).consistent(),
        s.consumed().consistent(),
{
}

/// The events of a frame keep a consistent state consistent.
pub proof fn lemma_aggregation_keeps_consistency(
    s: PointerModel,
    buttons: Seq<ButtonEvent>,
    moves: Seq<ScreenPoint>,
)
    requires
        s.consistent(),
    ensures
        s.after_buttons(buttons).consistent(),
        s.aggregated(buttons, moves).consistent(),
    decreases buttons.len(),
{
    if buttons.len() > 0 {
        lemma_aggregation_keeps_consistency(s, buttons.drop_last(), moves);
    }
}

/// After a frame with button events a drag is under way exactly if the last
/// of them was a press. Move events start and end no drag.
pub proof fn lemma_last_button_decides_drag(
    s: PointerModel,
    buttons: Seq<ButtonEvent>,
    moves: Seq<ScreenPoint>,
)
    ensures
        buttons.len() > 0 ==> (s.aggregated(buttons, moves).anchor is Some <==> buttons.last()
            == ButtonEvent::Pressed),
        buttons.len() == 0 ==> s.aggregated(buttons, moves).anchor == s.anchor,
{
}

/// Without a release no rectangle appears: if none is waiting before a
/// frame whose button events are all presses, none is waiting after its
/// events are taken in, wherever the pointer moves.
pub proof fn lemma_no_release_leaves_no_rect(
    s: PointerModel,
    buttons: Seq<ButtonEvent>,
    moves: Seq<ScreenPoint>,
)
    requires
        s.finalized is None,
        no_release(buttons),
    ensures
        s.after_buttons(buttons).finalized is None,
        s.aggregated(buttons, moves).finalized is None,
    decreases buttons.len(),
{
    if buttons.len() > 0 {
        lemma_no_release_leaves_no_rect(s, buttons.drop_last(), moves);
    }
}

} // verus!
