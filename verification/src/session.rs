//! The sampling session: what happens on each tick while the user aims, and
//! what is reported once the user has clicked.

use vstd::prelude::*;

use crate::color::{format_text, Format};
use crate::preview::{
    frame, window_proc, DrawCommand, MessageReply, Part, Point, Preview, PreviewView,
    SurfaceState, WM_DESTROY, WM_PAINT,
};
use crate::win::{color_at, copy_to_clipboard, pixel_color, wide, CLR_INVALID};

verus! {

/// How far right of the pointer the overlay is first put.
pub const INITIAL_OFFSET_X: i32 = 20;

/// How far below the pointer the overlay is first put.
pub const INITIAL_OFFSET_Y: i32 = 20;

/// How far right of the pointer the overlay follows it.
pub const TRACKING_OFFSET_X: i32 = 10;

/// How far below the pointer the overlay follows it.
pub const TRACKING_OFFSET_Y: i32 = 15;

/// Whether a session shows an overlay: it does unless the overlay was
/// switched off or given the size zero.
pub fn preview_enabled(size: u8, no_preview: bool) -> (enabled: bool)
    ensures
        enabled == (size > 0 && !no_preview),
{
    size > 0 && !no_preview
}

/// Where the overlay is first put when the pointer is at `cursor`.
pub fn initial_position(cursor: Point) -> (position: Point)
    requires
        cursor.x + INITIAL_OFFSET_X <= i32::MAX,
        cursor.y + INITIAL_OFFSET_Y <= i32::MAX,
    ensures
        position.x == cursor.x + INITIAL_OFFSET_X,
        position.y == cursor.y + INITIAL_OFFSET_Y,
{
    Point { x: cursor.x + INITIAL_OFFSET_X, y: cursor.y + INITIAL_OFFSET_Y }
}

/// Where the overlay stands while the pointer is at `cursor`.
pub fn tracking_position(cursor: Point) -> (position: Point)
    requires
        cursor.x + TRACKING_OFFSET_X <= i32::MAX,
        cursor.y + TRACKING_OFFSET_Y <= i32::MAX,
    ensures
        position.x == cursor.x + TRACKING_OFFSET_X,
        position.y == cursor.y + TRACKING_OFFSET_Y,
{
    Point { x: cursor.x + TRACKING_OFFSET_X, y: cursor.y + TRACKING_OFFSET_Y }
}

/// What the host does on one tick.
#[derive(Debug)]
pub struct Tick {
    /// The frame to draw, when the colour under the pointer has changed.
    pub frame: Option<Vec<DrawCommand>>,
    /// Where to put the overlay's window, when there is an overlay.
    pub move_to: Option<Point>,
}

/// What is reported at the end of a session.
#[derive(Debug)]
pub struct Report {
    /// The line to print: the colour under the pointer in the session's
    /// format.
    pub text: String,
    /// The same text in the clipboard's form, when the session copies to the
    /// clipboard.
    pub clipboard: Option<Vec<u16>>,
    /// The parts of the overlay to free.
    pub freed: Vec<Part>,
}

/// How finishing went.
#[derive(Debug)]
pub enum Finish {
    /// The pixel could not be read.  Read it again at once and finish the
    /// session given here with that read.
    Retry(Session),
    /// The colour was read.  Print, copy and free as the report says, then
    /// ask the event loop to end.
    Emit(Report),
    /// The pixel could not be read the second time either.  No colour is
    /// reported; free these parts and end with an error.
    Unavailable(Vec<Part>),
}

/// What is known of a session.
pub struct SessionView {
    /// The format of the report.
    pub format: Format,
    /// Whether the report also goes to the clipboard.
    pub clipboard: bool,
    /// The overlay, when there is one.
    pub preview: Option<PreviewView>,
    /// Whether finishing has failed once already.
    pub retried: bool,
}

impl SessionView {
    /// A session's overlay is ready for its whole life.
    pub open spec fn wf(self) -> bool {
        self.preview matches Some(preview) ==> preview.wf() && preview.state
            == SurfaceState::Ready
    }

    /// The parts that the end of the session frees.
    pub open spec fn to_free(self) -> Seq<Part> {
        match self.preview {
            Some(preview) => preview.to_free(),
            None => Seq::empty(),
        }
    }
}

/// The book on one session.
#[derive(Debug)]
pub struct Session {
    format: Format,
    clipboard: bool,
    preview: Option<Preview>,
    retried: bool,
}

impl View for Session {
    type V = SessionView;

    closed spec fn view(&self) -> SessionView {
        SessionView {
            format: self.format,
            clipboard: self.clipboard,
            preview: match self.preview {
                Some(preview) => Some(preview@),
                None => None,
            },
            retried: self.retried,
        }
    }
}

impl Session {
    /// Opens a session that reports in `format`, copies to the clipboard if
    /// `clipboard` says so, and shows `preview` if there is one.
    pub fn new(format: Format, clipboard: bool, preview: Option<Preview>) -> (session: Session)
        requires
            preview matches Some(p) ==> p@.wf() && p@.state == SurfaceState::Ready,
        ensures
            session@.wf(),
            session@ == (SessionView {
                format,
                clipboard,
                preview: match preview {
                    Some(p) => Some(p@),
                    None => None,
                },
                retried: false,
            }),
    {
        Session { format, clipboard, preview, retried: false }
    }

    /// One tick: the pointer is at `cursor` and the pixel under it read as
    /// `pixel`.
    ///
    /// Without an overlay nothing is to do.  With one, the brush takes the
    /// colour of the pixel and a frame is drawn exactly when the pixel could
    /// be read and its colour differs from the brush's; a pixel that could
    /// not be read leaves the brush alone.  Either way the overlay follows
    /// the pointer.
    pub fn tick(&mut self, cursor: Point, pixel: u32) -> (tick: Tick)
        requires
            old(self)@.wf(),
            cursor.x + TRACKING_OFFSET_X <= i32::MAX,
            cursor.y + TRACKING_OFFSET_Y <= i32::MAX,
        ensures
            final(self)@.wf(),
            old(self)@.preview is None ==> final(self)@ == old(self)@ && tick.frame is None
                && tick.move_to is None,
            old(self)@.preview matches Some(before) ==> {
                let changed = pixel != CLR_INVALID && before.brush@ != pixel_color(pixel)@;
                let position = Point {
                    x: (cursor.x + TRACKING_OFFSET_X) as i32,
                    y: (cursor.y + TRACKING_OFFSET_Y) as i32,
                };
                &&& final(self)@ == (SessionView {
                    preview: Some(
                        PreviewView {
                            brush: if changed {
                                pixel_color(pixel)
                            } else {
                                before.brush
                            },
                            position,
                            ..before
                        },
                    ),
                    ..old(self)@
                })
                &&& tick.move_to == Some(position)
                &&& changed ==> (tick.frame matches Some(commands) && commands@ == frame(
                    pixel_color(pixel),
                ))
                &&& !changed ==> tick.frame is None
            },
    {
        let mut frame: Option<Vec<DrawCommand>> = None;
        let mut move_to: Option<Point> = None;
        match &mut self.preview {
            Some(preview) => {
                match color_at(pixel) {
                    Ok(color) => {
                        if preview.set_color(color) {
                            frame = Some(preview.draw());
                        }
                    },
                    Err(_) => {},
                }
                let position = tracking_position(cursor);
                preview.move_to(position);
                move_to = Some(position);
            },
            None => {},
        }
        Tick { frame, move_to }
    }

    /// Decides what the overlay's window does with the message `msg`.
    ///
    /// A paint request is answered with the frame of the overlay.  The
    /// destruction of the window releases the overlay, and the session goes
    /// on without one.  Every other message, and every message of a session
    /// without an overlay, is left to the default window procedure.
    pub fn window_message(&mut self, msg: u32) -> (reply: MessageReply)
        requires
            old(self)@.wf(),
        ensures
            final(self)@.wf(),
            msg == WM_DESTROY ==> final(self)@ == (SessionView { preview: None, ..old(self)@ }),
            msg != WM_DESTROY ==> final(self)@ == old(self)@,
            old(self)@.preview is None || (msg != WM_PAINT && msg != WM_DESTROY)
                ==> reply is Default,
            old(self)@.preview matches Some(before) ==> {
                &&& msg == WM_PAINT ==> (reply matches MessageReply::Paint(commands)
                    && commands@ == frame(before.brush))
                &&& msg == WM_DESTROY ==> (reply matches MessageReply::Quit(freed) && freed@
                    == before.to_free())
            },
    {
        match self.preview.take() {
            Some(preview) => {
                let mut preview = preview;
                let reply = window_proc(&mut preview, msg);
                if msg != WM_DESTROY {
                    self.preview = Some(preview);
                }
                reply
            },
            None => MessageReply::Default,
        }
    }

    /// The end of the session: the user has clicked and the pixel under the
    /// pointer read as `pixel`.
    ///
    /// A pixel that was read is reported in the session's format, and the
    /// overlay is released.  A pixel that could not be read is read once
    /// more: the first failure hands the session back for the retry, the
    /// second ends it without a colour.
    pub fn finish(self, pixel: u32) -> (finish: Finish)
        requires
            self@.wf(),
        ensures
            match finish {
                Finish::Retry(session) => pixel == CLR_INVALID && !self@.retried && session@ == (
                    SessionView { retried: true, ..self@ }),
                Finish::Emit(report) => {
                    let text = format_text(pixel_color(pixel)@, self@.format);
                    &&& pixel != CLR_INVALID
                    &&& report.text@ == text
                    &&& self@.clipboard ==> (report.clipboard matches Some(data) && data@ == wide(
                        text,
                    ).push(0))
                    &&& !self@.clipboard ==> report.clipboard is None
                    &&& report.freed@ == self@.to_free()
                },
                Finish::Unavailable(freed) => pixel == CLR_INVALID && self@.retried && freed@
                    == self@.to_free(),
            },
    {
        let mut session = self;
        match color_at(pixel) {
            Ok(color) => {
                let text = session.format.render(color);
                let clipboard = if session.clipboard {
                    Some(copy_to_clipboard(text.as_str()))
                } else {
                    None
                };
                let freed = session.release();
                Finish::Emit(Report { text, clipboard, freed })
            },
            Err(_) => {
                if session.retried {
                    Finish::Unavailable(session.release())
                } else {
                    session.retried = true;
                    Finish::Retry(session)
                }
            },
        }
    }

    /// Releases the overlay, if there is one, and lists the parts to free.
    fn release(self) -> (freed: Vec<Part>)
        requires
            self@.wf(),
        ensures
            freed@ == self@.to_free(),
    {
        match self.preview {
            Some(preview) => {
                let mut preview = preview;
                preview.release()
            },
            None => Vec::new(),
        }
    }
}

} // verus!
