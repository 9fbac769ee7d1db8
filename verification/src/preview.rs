//! The preview overlay: a small window beside the pointer that shows the
//! colour under it.
//!
//! `Preview` keeps the book on the overlay.  It knows which parts of the
//! overlay exist, which colour its brush holds and where its window stands,
//! and it says what the host has to build, draw or free next.  The host owns
//! the handles and does the work.

use vstd::prelude::*;

use crate::color::Color;
use crate::win::{hr, S_OK};

verus! {

/// The identifier of the window message "the window is being destroyed".
pub const WM_DESTROY: u32 = 0x0002;

/// The identifier of the window message "the window needs painting".
pub const WM_PAINT: u32 = 0x000F;

/// The number of parts an overlay is made of.
pub const PART_COUNT: u8 = 7;

/// A place on the screen, in device pixels.
#[derive(Clone, Copy, Debug, PartialEq, Eq, Structural)]
pub struct Point {
    pub x: i32,
    pub y: i32,
}

/// Where an overlay is in its life.
#[derive(Clone, Copy, Debug, PartialEq, Eq, Structural)]
pub enum SurfaceState {
    /// Not all parts are built yet.
    Uninitialized,
    /// Every part is built; the overlay can be coloured, drawn and moved.
    Ready,
    /// The parts are freed.  Nothing leads out of this state.
    Released,
}

/// The parts of an overlay.
#[derive(Clone, Copy, Debug, PartialEq, Eq, Structural)]
pub enum Part {
    /// The borderless, topmost window that clicks pass through.
    Window,
    /// The rendering device.
    Device,
    /// The drawing context on that device.
    Context,
    /// The presentation target that the compositor shows.
    Target,
    /// The solid brush.
    Brush,
    /// The filled disc, ready to draw.
    Disc,
    /// The outline of the disc, ready to draw.
    Ring,
}

/// The steps of building an overlay, as a failure names them.
#[derive(Clone, Copy, Debug, PartialEq, Eq, Structural)]
pub enum Stage {
    Window,
    Device,
    Target,
    Geometry,
}

/// The error for an overlay that could not be built: the stage that failed
/// and the status code it failed with.
#[derive(Clone, Copy, Debug, PartialEq, Eq, Structural)]
pub struct SurfaceCreateFailed {
    pub stage: Stage,
    pub code: i32,
}

/// One instruction of a frame.
#[derive(Clone, Copy, Debug, PartialEq, Eq)]
pub enum DrawCommand {
    /// Begin the draw pass.
    Begin,
    /// Clear the target to full transparency.
    Clear,
    /// Fill the disc with the brush.
    FillDisc,
    /// Give the brush the fixed dark colour that sets the outline off.
    UseContrast,
    /// Stroke the outline with the brush.
    StrokeRing,
    /// Give the brush this colour.
    UseColor(Color),
    /// End the draw pass.
    End,
    /// Present the frame.
    Present,
}

/// The parts in the order in which they are built.
pub open spec fn creation_order() -> Seq<Part> {
    seq![
        Part::Window,
        Part::Device,
        Part::Context,
        Part::Target,
        Part::Brush,
        Part::Disc,
        Part::Ring,
    ]
}

/// The place of a part in `creation_order`.
pub open spec fn place(part: Part) -> nat {
    match part {
        Part::Window => 0,
        Part::Device => 1,
        Part::Context => 2,
        Part::Target => 3,
        Part::Brush => 4,
        Part::Disc => 5,
        Part::Ring => 6,
    }
}

/// The stage that building a part belongs to.
pub open spec fn stage_of(part: Part) -> Stage {
    match part {
        Part::Window => Stage::Window,
        Part::Device | Part::Context => Stage::Device,
        Part::Target => Stage::Target,
        Part::Brush | Part::Disc | Part::Ring => Stage::Geometry,
    }
}

/// The frame that shows `brush`: the disc in the brush's colour, its outline
/// in the contrast colour, and the brush given back its colour before the
/// pass ends.
pub open spec fn frame(brush: Color) -> Seq<DrawCommand> {
    seq![
        DrawCommand::Begin,
        DrawCommand::Clear,
        DrawCommand::FillDisc,
        DrawCommand::UseContrast,
        DrawCommand::StrokeRing,
        DrawCommand::UseColor(brush),
        DrawCommand::End,
        DrawCommand::Present,
    ]
}

/// What is known of an overlay.
pub struct PreviewView {
    /// Where the overlay is in its life.
    pub state: SurfaceState,
    /// How many parts were built, counted along `creation_order`.
    pub built: nat,
    /// Whether building a part failed.
    pub failed: bool,
    /// The colour that the brush holds.
    pub brush: Color,
    /// Where the window stands.
    pub position: Point,
    /// The length of the window's edge.
    pub size: u8,
}

impl PreviewView {
    /// An overlay holds the parts built so far until it is released.
    pub open spec fn holds(self, part: Part) -> bool {
        self.state != SurfaceState::Released && place(part) < self.built
    }

    /// The part to build next, if any.
    pub open spec fn pending(self) -> Option<Part> {
        if self.state == SurfaceState::Uninitialized && !self.failed && self.built
            < creation_order().len() {
            Some(creation_order()[self.built as int])
        } else {
            None
        }
    }

    /// Whether giving the brush `color` changes it: whether `color` differs
    /// from the brush's colour in at least one channel.
    pub open spec fn changes(self, color: Color) -> bool {
        self.brush@ != color@
    }

    /// The overlay after its brush was given `color`: the brush is written
    /// only when that changes it.
    pub open spec fn with_color(self, color: Color) -> PreviewView {
        PreviewView {
            brush: if self.changes(color) {
                color
            } else {
                self.brush
            },
            ..self
        }
    }

    /// The overlay after its release.
    pub open spec fn released(self) -> PreviewView {
        PreviewView { state: SurfaceState::Released, ..self }
    }

    /// The one part `part` if the overlay holds it, and nothing otherwise.
    pub open spec fn held(self, part: Part) -> Seq<Part> {
        if self.holds(part) {
            seq![part]
        } else {
            Seq::empty()
        }
    }

    /// The parts that a release frees: of the brush, the disc, the ring, the
    /// context, the target and the device, in this order, those that the
    /// overlay holds.  The window is not among them: it goes when it is
    /// destroyed.
    pub open spec fn to_free(self) -> Seq<Part> {
        self.held(Part::Brush) + self.held(Part::Disc) + self.held(Part::Ring) + self.held(
            Part::Context,
        ) + self.held(Part::Target) + self.held(Part::Device)
    }

    /// What holds of every overlay: it is ready exactly when every part is
    /// built and it was not released, and a failed one never gets ready.
    pub open spec fn wf(self) -> bool {
        &&& self.built <= creation_order().len()
        &&& self.state == SurfaceState::Ready ==> self.built == creation_order().len()
        &&& self.state == SurfaceState::Uninitialized ==> self.built < creation_order().len()
        &&& self.failed ==> self.built < creation_order().len()
    }
}

/// The book on one overlay.
#[derive(Debug)]
pub struct Preview {
    state: SurfaceState,
    built: u8,
    failed: bool,
    brush: Color,
    position: Point,
    size: u8,
}

impl View for Preview {
    type V = PreviewView;

    closed spec fn view(&self) -> PreviewView {
        PreviewView {
            state: self.state,
            built: self.built as nat,
            failed: self.failed,
            brush: self.brush,
            position: self.position,
            size: self.size,
        }
    }
}

/// The part at place `index` of `creation_order`.
fn part_at(index: u8) -> (part: Part)
    requires
        index < creation_order().len(),
    ensures
        part == creation_order()[index as int],
{
    match index {
        0 => Part::Window,
        1 => Part::Device,
        2 => Part::Context,
        3 => Part::Target,
        4 => Part::Brush,
        5 => Part::Disc,
        _ => Part::Ring,
    }
}

impl Part {
    /// The stage that building this part belongs to.
    pub fn stage(&self) -> (stage: Stage)
        ensures
            stage == stage_of(*self),
    {
        match self {
            Part::Window => Stage::Window,
            Part::Device | Part::Context => Stage::Device,
            Part::Target => Stage::Target,
            Part::Brush | Part::Disc | Part::Ring => Stage::Geometry,
        }
    }
}

/// Opens the book on an overlay of `size` by `size` pixels at `position`.
/// Nothing is built yet, and the brush is black.
pub fn create_preview(position: Point, size: u8) -> (preview: Preview)
    ensures
        preview@.wf(),
        preview@ == (PreviewView {
            state: SurfaceState::Uninitialized,
            built: 0,
            failed: false,
            brush: Color(0),
            position,
            size,
        }),
{
    Preview {
        state: SurfaceState::Uninitialized,
        built: 0,
        failed: false,
        brush: Color(0),
        position,
        size,
    }
}

impl Preview {
    /// Where the overlay is in its life.
    pub fn state(&self) -> (state: SurfaceState)
        ensures
            state == self@.state,
    {
        self.state
    }

    /// The colour that the brush holds.
    pub fn brush(&self) -> (brush: Color)
        ensures
            brush == self@.brush,
    {
        self.brush
    }

    /// Where the window stands.
    pub fn position(&self) -> (position: Point)
        ensures
            position == self@.position,
    {
        self.position
    }

    /// The length of the window's edge.
    pub fn size(&self) -> (size: u8)
        ensures
            size == self@.size,
    {
        self.size
    }

    /// The part that the host has to build next; `None` once every part is
    /// built, after a failure and after the release.
    pub fn next_part(&self) -> (part: Option<Part>)
        requires
            self@.wf(),
        ensures
            part == self@.pending(),
    {
        if self.state == SurfaceState::Uninitialized && !self.failed && self.built < PART_COUNT {
            Some(part_at(self.built))
        } else {
            None
        }
    }

    /// Records how building the pending part ended: `code` is the status
    /// code of the attempt.
    ///
    /// On success the part counts as built, and with the last part the
    /// overlay becomes ready.  On failure nothing more is pending, and the
    /// error names the stage of the part and the code.
    pub fn part_built(&mut self, code: i32) -> (outcome: Result<(), SurfaceCreateFailed>)
        requires
            old(self)@.wf(),
            old(self)@.pending() is Some,
        ensures
            final(self)@.wf(),
            code == S_OK ==> outcome is Ok && final(self)@ == (PreviewView {
                built: old(self)@.built + 1,
                state: if old(self)@.built + 1 == creation_order().len() {
                    SurfaceState::Ready
                } else {
                    SurfaceState::Uninitialized
                },
                ..old(self)@
            }),
            code == S_OK ==> final(self)@.holds(old(self)@.pending()->0),
            code != S_OK ==> outcome == Err::<(), SurfaceCreateFailed>(
                SurfaceCreateFailed { stage: stage_of(old(self)@.pending()->0), code },
            ) && final(self)@ == (PreviewView { failed: true, ..old(self)@ }),
    {
        let part = part_at(self.built);
        proof {
            lemma_creation_order();
        }
        match hr(code) {
            Ok(()) => {
                self.built = self.built + 1;
                if self.built == PART_COUNT {
                    self.state = SurfaceState::Ready;
                }
                Ok(())
            },
            Err(code) => {
                self.failed = true;
                Err(SurfaceCreateFailed { stage: part.stage(), code })
            },
        }
    }

    /// Gives the brush the colour `color`, and says whether that changed
    /// anything: the brush is written, and `true` returned, exactly when
    /// `color` differs from the brush's colour in at least one channel.
    pub fn set_color(&mut self, color: Color) -> (changed: bool)
        requires
            old(self)@.wf(),
            old(self)@.state == SurfaceState::Ready,
        ensures
            changed == old(self)@.changes(color),
            changed <==> old(self)@.brush@.0 != color@.0 || old(self)@.brush@.1 != color@.1
                || old(self)@.brush@.2 != color@.2,
            final(self)@ == old(self)@.with_color(color),
            final(self)@.brush@ == color@,
    {
        if self.brush == color {
            false
        } else {
            self.brush = color;
            true
        }
    }

    /// The frame that shows the brush's colour.  Drawing changes nothing in
    /// the book: the same overlay gives the same frame again.
    pub fn draw(&self) -> (commands: Vec<DrawCommand>)
        requires
            self@.wf(),
            self@.state == SurfaceState::Ready,
        ensures
            commands@ == frame(self@.brush),
    {
        let mut commands: Vec<DrawCommand> = Vec::new();
        commands.push(DrawCommand::Begin);
        commands.push(DrawCommand::Clear);
        commands.push(DrawCommand::FillDisc);
        commands.push(DrawCommand::UseContrast);
        commands.push(DrawCommand::StrokeRing);
        commands.push(DrawCommand::UseColor(self.brush));
        commands.push(DrawCommand::End);
        commands.push(DrawCommand::Present);
        assert(commands@ =~= frame(self@.brush));
        commands
    }

    /// Puts the window at `position`.  Its size, its brush and its state stay
    /// as they are, and no frame is drawn.
    pub fn move_to(&mut self, position: Point)
        requires
            old(self)@.wf(),
            old(self)@.state == SurfaceState::Ready,
        ensures
            final(self)@ == (PreviewView { position, ..old(self)@ }),
    {
        self.position = position;
    }

    /// Ends the overlay's life and lists what the host has to free: every
    /// part the overlay holds, once, in release order.  A released overlay
    /// holds nothing, so a second release frees nothing.
    pub fn release(&mut self) -> (freed: Vec<Part>)
        requires
            old(self)@.wf(),
        ensures
            final(self)@.wf(),
            final(self)@ == old(self)@.released(),
            freed@ == old(self)@.to_free(),
    {
        let mut freed: Vec<Part> = Vec::new();
        if self.state != SurfaceState::Released {
            if self.built > 4 {
                freed.push(Part::Brush);
            }
            if self.built > 5 {
                freed.push(Part::Disc);
            }
            if self.built > 6 {
                freed.push(Part::Ring);
            }
            if self.built > 2 {
                freed.push(Part::Context);
            }
            if self.built > 3 {
                freed.push(Part::Target);
            }
            if self.built > 1 {
                freed.push(Part::Device);
            }
        }
        assert(freed@ =~= old(self)@.to_free());
        self.state = SurfaceState::Released;
        freed
    }
}

/// What the overlay's window does with a message.
#[derive(Debug)]
pub enum MessageReply {
    /// Paint: run these commands between the begin and the end of painting,
    /// and answer zero.
    Paint(Vec<DrawCommand>),
    /// The window is going: free these parts, ask the message loop to end,
    /// and answer zero.
    Quit(Vec<Part>),
    /// Leave the message to the default window procedure.
    Default,
}

/// Decides what the overlay's window does with the message `msg`.
///
/// A paint request is answered with the frame of a ready overlay, and with
/// no commands at all while the overlay is not ready.  The destruction of
/// the window releases the overlay.  Nothing else touches the book.
pub fn window_proc(preview: &mut Preview, msg: u32) -> (reply: MessageReply)
    requires
        old(preview)@.wf(),
    ensures
        final(preview)@.wf(),
        msg == WM_PAINT ==> final(preview)@ == old(preview)@,
        msg == WM_PAINT ==> (reply matches MessageReply::Paint(commands) && commands@ == if old(
            preview,
        )@.state == SurfaceState::Ready {
            frame(old(preview)@.brush)
        } else {
            Seq::<DrawCommand>::empty()
        }),
        msg == WM_DESTROY ==> final(preview)@ == old(preview)@.released(),
        msg == WM_DESTROY ==> (reply matches MessageReply::Quit(freed) && freed@ == old(
            preview,
        )@.to_free()),
        msg != WM_PAINT && msg != WM_DESTROY ==> final(preview)@ == old(preview)@
            && reply is Default,
{
    if msg == WM_PAINT {
        if preview.state == SurfaceState::Ready {
            MessageReply::Paint(preview.draw())
        } else {
            MessageReply::Paint(Vec::new())
        }
    } else if msg == WM_DESTROY {
        MessageReply::Quit(preview.release())
    } else {
        MessageReply::Default
    }
}

/// Every part stands in `creation_order` at its place, and nothing else
/// stands there.
pub proof fn lemma_creation_order()
    ensures
        creation_order().len() == 7,
        forall|part: Part| #[trigger] creation_order()[place(part) as int] == part,
        forall|i: int| 0 <= i < 7 ==> place(#[trigger] creation_order()[i]) == i,
{
}

/// Giving the brush a colour that it does not hold reports a change, and
/// giving it the same colour once more reports none.  After both the brush
/// holds that colour.
pub proof fn lemma_set_color_twice(view: PreviewView, color: Color)
    requires
        view.brush@ != color@,
    ensures
        view.changes(color),
        !view.with_color(color).changes(color),
        view.with_color(color).with_color(color).brush == color,
{
}

/// Whatever the brush held, once it was given a colour it holds that colour
/// channel for channel, and giving it the same colour again changes nothing.
pub proof fn lemma_set_color_settles(view: PreviewView, color: Color)
    ensures
        view.with_color(color).brush@ == color@,
        !view.with_color(color).changes(color),
        view.with_color(color).with_color(color) == view.with_color(color),
{
}

/// A released overlay holds nothing, so releasing it again frees nothing
/// and leaves it as it is.
pub proof fn lemma_release_twice(view: PreviewView)
    ensures
        forall|part: Part| !view.released().holds(part),
        view.released().to_free() == Seq::<Part>::empty(),
        view.released().released() == view.released(),
{
    assert(view.released().to_free() =~= Seq::<Part>::empty());
}

/// A release frees every part that the overlay holds, the window apart, and
/// frees no part twice.
pub proof fn lemma_release_frees_each_once(view: PreviewView)
    ensures
        forall|part: Part|
            view.to_free().contains(part) <==> view.holds(part) && part != Part::Window,
        view.to_free().no_duplicates(),
{
    let freed = view.to_free();
    let none = Seq::<Part>::empty();
    if view.state == SurfaceState::Released || view.built <= 1 {
        assert(freed =~= none);
    } else if view.built == 2 {
        assert(freed =~= seq![Part::Device]);
    } else if view.built == 3 {
        assert(freed =~= seq![Part::Context, Part::Device]);
    } else if view.built == 4 {
        assert(freed =~= seq![Part::Context, Part::Target, Part::Device]);
    } else if view.built == 5 {
        assert(freed =~= seq![Part::Brush, Part::Context, Part::Target, Part::Device]);
    } else if view.built == 6 {
        assert(freed =~= seq![
            Part::Brush,
            Part::Disc,
            Part::Context,
            Part::Target,
            Part::Device,
        ]);
    } else {
        assert(freed =~= seq![
            Part::Brush,
            Part::Disc,
            Part::Ring,
            Part::Context,
            Part::Target,
            Part::Device,
        ]);
    }
    assert forall|part: Part| view.holds(part) && part != Part::Window implies freed.contains(
        part,
    ) by {
        let skipped: int = if view.built >= 7 {
            0
        } else if view.built >= 6 {
            1
        } else if view.built >= 5 {
            2
        } else {
            3
        };
        let i: int = match part {
            Part::Brush => 0,
            Part::Disc => 1,
            Part::Ring => 2,
            Part::Context => 3 - skipped,
            Part::Target => 4 - skipped,
            _ => freed.len() - 1,
        };
        assert(0 <= i < freed.len() && freed[i] == part);
    }
}

} // verus!
