//! One frame of marquee selection: the stages in their fixed order, on a
//! context that the caller owns.
//!
//! A frame first takes in the pointer's events, then renders the outline of
//! the drag that is under way, then applies the rectangle that a release has
//! left. Each stage sees what the stage before it wrote.

use vstd::prelude::*;
use crate::geometry::{ScreenPoint, Viewport};
use crate::outline::{absent_or_whole, action_for, synced, Edge, Outline, OutlineAction};
use crate::pointer::{
    lemma_aggregation_keeps_consistency,
    lemma_last_button_decides_drag,
    lemma_no_release_leaves_no_rect,
    no_release,
    ButtonEvent,
    PointerModel,
    PointerState,
};
use crate::selection::{
    apply_selection,
    objects_after_selection,
    pointer_after_selection,
    SelectableObject,
};

verus! {

/// What the host hands to one frame, as contracts speak of it.
pub struct FrameInput {
    pub buttons: Seq<ButtonEvent>,
    pub moves: Seq<ScreenPoint>,
    pub viewport: Option<Viewport>,
}

/// The state that lives from frame to frame, as contracts speak of it.
pub struct MarqueeModel {
    pub pointer: PointerModel,
    pub outline: Seq<Edge>,
}

impl MarqueeModel {
    /// What holds between frames: the pointer is consistent, and the outline
    /// is absent or whole.
    pub open spec fn well_formed(self) -> bool {
        self.pointer.consistent() && absent_or_whole(self.outline)
    }

    /// The state before the first frame.
    pub open spec fn initial() -> MarqueeModel {
        MarqueeModel { pointer: PointerModel::initial(), outline: Seq::empty() }
    }

    /// The pointer's state of a frame once its events are taken in: what the
    /// outline and the selection of that frame go by.
    pub open spec fn pointer_in_frame(
        self,
        buttons: Seq<ButtonEvent>,
        moves: Seq<ScreenPoint>,
    ) -> PointerModel {
        self.pointer.aggregated(buttons, moves)
    }

    /// The state after a frame.
    pub open spec fn after_tick(
        self,
        buttons: Seq<ButtonEvent>,
        moves: Seq<ScreenPoint>,
        viewport: Option<Viewport>,
    ) -> MarqueeModel {
        let pointer = self.pointer_in_frame(buttons, moves);
        MarqueeModel {
            pointer: pointer_after_selection(pointer, viewport),
            outline: synced(self.outline, pointer, viewport),
        }
    }

    /// The objects after a frame.
    pub open spec fn objects_after_tick(
        self,
        buttons: Seq<ButtonEvent>,
        moves: Seq<ScreenPoint>,
        viewport: Option<Viewport>,
        objects: Seq<SelectableObject>,
    ) -> Seq<SelectableObject> {
        objects_after_selection(self.pointer_in_frame(buttons, moves), viewport, objects)
    }

    /// The state after a run of frames, first to last.
    pub open spec fn after_frames(self, frames: Seq<FrameInput>) -> MarqueeModel
        decreases frames.len(),
    {
        if frames.len() == 0 {
            self
        } else {
            self.after_frames(frames.drop_last()).after_tick(
                frames.last().buttons,
                frames.last().moves,
                frames.last().viewport,
            )
        }
    }

    /// The objects after a run of frames, first to last.
    pub open spec fn objects_after_frames(
        self,
        frames: Seq<FrameInput>,
        objects: Seq<SelectableObject>,
    ) -> Seq<SelectableObject>
        decreases frames.len(),
    {
        if frames.len() == 0 {
            objects
        } else {
            self.after_frames(frames.drop_last()).objects_after_tick(
                frames.last().buttons,
                frames.last().moves,
                frames.last().viewport,
                self.objects_after_frames(frames.drop_last(), objects),
            )
        }
    }

    /// What a frame asks the host to do with the outline's drawables.
    pub open spec fn action_of_tick(
        self,
        buttons: Seq<ButtonEvent>,
        moves: Seq<ScreenPoint>,
        viewport: Option<Viewport>,
    ) -> OutlineAction {
        action_for(self.outline, self.pointer_in_frame(buttons, moves), viewport)
    }
}

/// The state that lives from frame to frame: the pointer and the outline.
#[derive(Debug)]
pub struct Marquee {
    pointer: PointerState,
    outline: Outline,
}

impl View for Marquee {
    type V = MarqueeModel;

    closed spec fn view(&self) -> MarqueeModel {
        MarqueeModel { pointer: self.pointer@, outline: self.outline@ }
    }
}

impl Marquee {
    /// The state before the first frame.
    pub fn new() -> (m: Marquee)
        ensures
            m@ == MarqueeModel::initial(),
    {
        Marquee { pointer: PointerState::new(), outline: Outline::new() }
    }

    /// Runs one frame. `buttons` and `moves` are the events since the last
    /// frame, each list in the order in which the host saw them; `viewport`
    /// is `None` while the host has no window to ask. The result says what
    /// the host has to do with the outline's drawables.
    pub fn tick(
        &mut self,
        buttons: &[ButtonEvent],
        moves: &[ScreenPoint],
        viewport: Option<Viewport>,
        objects: &mut Vec<SelectableObject>,
    ) -> (action: OutlineAction)
        ensures
            final(self)@ == old(self)@.after_tick(buttons@, moves@, viewport),
            final(objects)@ == old(self)@.objects_after_tick(
                buttons@,
                moves@,
                viewport,
                old(objects)@,
            ),
            action == old(self)@.action_of_tick(buttons@, moves@, viewport),
            final(self)@.well_formed(),
    {
        self.pointer.aggregate(buttons, moves);
        let action = self.outline.sync(&self.pointer, viewport);
        apply_selection(&mut self.pointer, viewport, objects);
        proof {
            use_type_invariant(&self.pointer);
            use_type_invariant(&self.outline);
        }
        action
    }

    /// The pointer's state.
    pub fn pointer(&self) -> (p: &PointerState)
        ensures
            p@ == self@.pointer,
            self@.well_formed(),
    {
        proof {
            use_type_invariant(&self.pointer);
            use_type_invariant(&self.outline);
        }
        &self.pointer
    }

    /// The outline.
    pub fn outline(&self) -> (o: &Outline)
        ensures
            o@ == self@.outline,
            self@.well_formed(),
    {
        proof {
            use_type_invariant(&self.pointer);
            use_type_invariant(&self.outline);
        }
        &self.outline
    }
}

impl Default for Marquee {
    fn default() -> (m: Marquee)
        ensures
            m@ == MarqueeModel::initial(),
    {
        Marquee::new()
    }
}

/// Every frame keeps the state well formed: between frames the outline has
/// no drawable or four, never one to three.
pub proof fn lemma_tick_keeps_well_formed(
    m: MarqueeModel,
    buttons: Seq<ButtonEvent>,
    moves: Seq<ScreenPoint>,
    viewport: Option<Viewport>,
)
    requires
        m.well_formed(),
    ensures
        m.after_tick(buttons, moves, viewport).well_formed(),
        m.after_tick(buttons, moves, viewport).outline.len() == 0 || m.after_tick(
            buttons,
            moves,
            viewport,
        ).outline.len() == 4,
{
    lemma_aggregation_keeps_consistency(m.pointer, buttons, moves);
}

/// So does every run of frames.
pub proof fn lemma_frames_keep_well_formed(m: MarqueeModel, frames: Seq<FrameInput>)
    requires
        m.well_formed(),
    ensures
        m.after_frames(frames).well_formed(),
    decreases frames.len(),
{
    if frames.len() > 0 {
        lemma_frames_keep_well_formed(m, frames.drop_last());
        let before = m.after_frames(frames.drop_last());
        let f = frames.last();
        lemma_tick_keeps_well_formed(before, f.buttons, f.moves, f.viewport);
    }
}

/// The state is well formed before the first frame, and so after every run
/// of frames from there: at no frame boundary are there one to three
/// drawables.
pub proof fn lemma_always_well_formed(frames: Seq<FrameInput>)
    ensures
        MarqueeModel::initial().well_formed(),
        MarqueeModel::initial().after_frames(frames).well_formed(),
        MarqueeModel::initial().after_frames(frames).outline.len() == 0
            || MarqueeModel::initial().after_frames(frames).outline.len() == 4,
{
    lemma_frames_keep_well_formed(MarqueeModel::initial(), frames);
}

/// The outline follows the drag within the frame. A frame that ends with no
/// drag under way leaves no drawable. A frame that ends with a drag under way
/// and knows its viewport leaves the four edges of the rectangle between the
/// anchor and the pointer.
pub proof fn lemma_outline_follows_drag(
    m: MarqueeModel,
    buttons: Seq<ButtonEvent>,
    moves: Seq<ScreenPoint>,
    viewport: Option<Viewport>,
)
    ensures
        m.after_tick(buttons, moves, viewport).pointer.anchor == m.pointer_in_frame(
            buttons,
            moves,
        ).anchor,
        m.after_tick(buttons, moves, viewport).pointer.anchor is None ==> m.after_tick(
            buttons,
            moves,
            viewport,
        ).outline.len() == 0,
        m.after_tick(buttons, moves, viewport).pointer.anchor is Some && viewport is Some
            ==> m.after_tick(buttons, moves, viewport).outline.len() == 4,
{
}

/// A press makes the outline in its own frame, and a release removes it in
/// its own frame. If the last button event of a frame is a press and the
/// viewport is known, the frame leaves four drawables, and asks the host to
/// create them if there were none. If the last button event of a frame is a
/// release, the frame leaves no drawable, and asks the host to destroy those
/// that there were.
pub proof fn lemma_press_creates_release_destroys(
    m: MarqueeModel,
    buttons: Seq<ButtonEvent>,
    moves: Seq<ScreenPoint>,
    viewport: Option<Viewport>,
)
    requires
        buttons.len() > 0,
    ensures
        buttons.last() == ButtonEvent::Pressed && viewport is Some ==> {
            &&& m.after_tick(buttons, moves, viewport).outline.len() == 4
            &&& m.outline.len() == 0 ==> m.action_of_tick(buttons, moves, viewport)
                == OutlineAction::Create
            &&& m.outline.len() != 0 ==> m.action_of_tick(buttons, moves, viewport)
                == OutlineAction::Update
        },
        buttons.last() == ButtonEvent::Released ==> {
            &&& m.after_tick(buttons, moves, viewport).outline.len() == 0
            &&& m.outline.len() != 0 ==> m.action_of_tick(buttons, moves, viewport)
                == OutlineAction::Destroy
            &&& m.outline.len() == 0 ==> m.action_of_tick(buttons, moves, viewport)
                == OutlineAction::Keep
        },
{
    lemma_last_button_decides_drag(m.pointer, buttons, moves);
}

/// A frame that knows its viewport leaves no rectangle waiting: what a
/// release left is applied in the frame of the release.
pub proof fn lemma_tick_uses_up_rect(
    m: MarqueeModel,
    buttons: Seq<ButtonEvent>,
    moves: Seq<ScreenPoint>,
    viewport: Viewport,
)
    ensures
        m.after_tick(buttons, moves, Some(viewport)).pointer.finalized is None,
{
}

/// Selection is sticky. If no rectangle is waiting, a frame without a
/// release changes no object and leaves no rectangle waiting, whatever
/// presses and moves it holds.
pub proof fn lemma_tick_without_release_keeps_selection(
    m: MarqueeModel,
    buttons: Seq<ButtonEvent>,
    moves: Seq<ScreenPoint>,
    viewport: Option<Viewport>,
    objects: Seq<SelectableObject>,
)
    requires
        m.pointer.finalized is None,
        no_release(buttons),
    ensures
        m.objects_after_tick(buttons, moves, viewport, objects) == objects,
        m.after_tick(buttons, moves, viewport).pointer.finalized is None,
{
    lemma_no_release_leaves_no_rect(m.pointer, buttons, moves);
}

/// So is it over any run of frames without a release.
pub proof fn lemma_frames_without_release_keep_selection(
    m: MarqueeModel,
    frames: Seq<FrameInput>,
    objects: Seq<SelectableObject>,
)
    requires
        m.pointer.finalized is None,
        forall|k: int| 0 <= k < frames.len() ==> no_release(#[trigger] frames[k].buttons),
    ensures
        m.objects_after_frames(frames, objects) == objects,
        m.after_frames(frames).pointer.finalized is None,
    decreases frames.len(),
{
    if frames.len() > 0 {
        lemma_frames_without_release_keep_selection(m, frames.drop_last(), objects);
        let before = m.after_frames(frames.drop_last());
        let f = frames.last();
        lemma_tick_without_release_keeps_selection(
            before,
            f.buttons,
            f.moves,
            f.viewport,
            objects,
        );
    }
}

} // verus!
