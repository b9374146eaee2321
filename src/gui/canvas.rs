use super::acquisition::{Acquisition, ACQUIRE_STEP_COUNT};
use super::ops::NativeOp;
use crate::coordinate_box::CoordinateBox;
use crate::object::Object;
use vstd::prelude::*;

verus! {

/// What the canvas knows of its screen and of the close protocol.
#[derive(Clone, Copy, Debug)]
pub struct GCanvasState {
    pub screen_width: u32,
    pub screen_height: u32,
    /// The atom naming the window-manager protocols property; set by `open`.
    pub wm_protocols: Option<u64>,
    /// The atom naming the close-window protocol; set by `open`.
    pub wm_delete_window: Option<u64>,
}

impl Default for GCanvasState {
    fn default() -> (r: Self)
        ensures
            r == (GCanvasState {
                screen_width: 0,
                screen_height: 0,
                wm_protocols: None,
                wm_delete_window: None,
            }),
    {
        GCanvasState { screen_width: 0, screen_height: 0, wm_protocols: None, wm_delete_window: None }
    }
}

/// What was read from the screen while the canvas was built.
pub struct ScreenMetrics {
    pub width: u32,
    pub height: u32,
    /// The screen's black pixel value, the window's background.
    pub black_pixel: u64,
    /// The screen's white pixel value, the colour text is drawn in.
    pub white_pixel: u64,
}

/// Where a canvas is in its life.
#[derive(Clone, Copy, Debug, PartialEq, Eq)]
pub enum CanvasPhase {
    /// Built, not yet opened.
    Created,
    /// Opened: visible, with the close protocol registered.
    Open,
    /// Torn down; nothing may be asked of it any more.
    Closed,
}

/// An event pulled from the display, as far as the event loop reads it.
#[derive(Clone, Copy, Debug, PartialEq, Eq)]
pub enum CanvasEvent {
    /// A client message: its type atom, its data format (8, 16 or 32) and
    /// its first data word.
    ClientMessage { message_type: u64, format: i32, first_word: u64 },
    /// Any other event, by its type code.
    Other { kind: i32 },
}

/// A canvas as a value.
pub struct CanvasView {
    pub display_id: Seq<char>,
    /// The rectangle of the root node, which spans the screen.
    pub root_rect: CoordinateBox,
    /// How many children the root node holds.
    pub root_children: nat,
    pub state: GCanvasState,
    pub black_pixel: u64,
    pub white_pixel: u64,
    pub mapped: bool,
    pub phase: CanvasPhase,
}

impl CanvasView {
    /// The same canvas with its window mapped (`true`) or unmapped.
    pub open spec fn mapped_as(self, mapped: bool) -> CanvasView {
        CanvasView { mapped, ..self }
    }

    /// The same canvas in another phase.
    pub open spec fn in_phase(self, phase: CanvasPhase) -> CanvasView {
        CanvasView { phase, ..self }
    }

    /// The canvas after `open` cached these two atoms.
    pub open spec fn opened(self, wm_protocols: u64, wm_delete_window: u64) -> CanvasView {
        CanvasView {
            state: GCanvasState {
                wm_protocols: Some(wm_protocols),
                wm_delete_window: Some(wm_delete_window),
                ..self.state
            },
            mapped: true,
            phase: CanvasPhase::Open,
            ..self
        }
    }

    /// `event` asks that the window be closed: a client message of the
    /// protocols type, in the 32-bit format, whose first word is the
    /// close-window atom.
    pub open spec fn closes(self, event: CanvasEvent) -> bool {
        match event {
            CanvasEvent::ClientMessage { message_type, format, first_word } => {
                &&& self.state.wm_protocols == Some(message_type)
                &&& format == 32
                &&& self.state.wm_delete_window == Some(first_word)
            },
            CanvasEvent::Other { .. } => false,
        }
    }
}

/// What `open` asks of the server: colours for the graphics context, the
/// window mapped, and the close protocol registered.
pub open spec fn open_plan(v: CanvasView, wm_delete_window: u64) -> Seq<NativeOp> {
    seq![
        NativeOp::SetBackground(v.black_pixel),
        NativeOp::SetForeground(v.white_pixel),
        NativeOp::Flush,
        NativeOp::MapWindow,
        NativeOp::Flush,
        NativeOp::SetWmProtocols(wm_delete_window),
    ]
}

/// What `close` asks: hide the window, destroy both contexts, and close the
/// connection last.
pub open spec fn teardown_plan() -> Seq<NativeOp> {
    seq![
        NativeOp::UnmapWindow,
        NativeOp::Flush,
        NativeOp::DestroyRenderContext,
        NativeOp::FreeGraphicsContext,
        NativeOp::CloseDisplay,
    ]
}

/// `ops` sets the window's title to `title` and flushes.
pub open spec fn is_title_plan(ops: Seq<NativeOp>, title: Seq<char>) -> bool {
    &&& ops.len() == 2
    &&& ops[0] matches NativeOp::StoreName(t) && t@ == title
    &&& ops[1] == NativeOp::Flush
}

/// `ops` clears the accelerated framebuffer, draws `text` at `(x, y)`
/// through the graphics context, and flushes.
pub open spec fn is_text_plan(ops: Seq<NativeOp>, text: Seq<char>, x: i32, y: i32) -> bool {
    &&& ops.len() == 3
    &&& ops[0] == NativeOp::ClearFramebuffer
    &&& ops[1] matches NativeOp::DrawString { text: t, x: tx, y: ty } && t@ == text && tx == x
        && ty == y
    &&& ops[2] == NativeOp::Flush
}

/// Showing a shown window leaves it shown, and showing a hidden one shows
/// it again: either way the canvas ends as after a single `show`. Neither
/// call changes the phase, so a second call is always allowed.
pub proof fn show_is_idempotent(v: CanvasView)
    ensures
        v.mapped_as(true).mapped_as(true) == v.mapped_as(true),
        v.mapped_as(false).mapped_as(true) == v.mapped_as(true),
        v.mapped_as(true).mapped,
        v.mapped_as(true).phase == v.phase,
        v.mapped_as(false).phase == v.phase,
{
}

/// Once both atoms are known, a 32-bit client message of the protocols
/// type carrying the close-window atom ends the event loop, and a client
/// message that differs from it in its type, its format or its atom does
/// not.
pub proof fn only_close_requests_end_the_loop(
    v: CanvasView,
    message_type: u64,
    format: i32,
    first_word: u64,
)
    requires
        v.state.wm_protocols is Some,
        v.state.wm_delete_window is Some,
    ensures
        v.closes(
            CanvasEvent::ClientMessage {
                message_type: v.state.wm_protocols->0,
                format: 32,
                first_word: v.state.wm_delete_window->0,
            },
        ),
        message_type != v.state.wm_protocols->0 ==> !v.closes(
            CanvasEvent::ClientMessage { message_type, format, first_word },
        ),
        format != 32 ==> !v.closes(CanvasEvent::ClientMessage { message_type, format, first_word }),
        first_word != v.state.wm_delete_window->0 ==> !v.closes(
            CanvasEvent::ClientMessage { message_type, format, first_word },
        ),
        forall|kind: i32| !#[trigger] v.closes(CanvasEvent::Other { kind }),
{
}

/// Teardown hides the window first, destroys both contexts, and closes the
/// connection once, as the last request.
pub proof fn teardown_closes_connection_last()
    ensures
        teardown_plan()[0] == NativeOp::UnmapWindow,
        teardown_plan().last() == NativeOp::CloseDisplay,
        forall|i: int|
            0 <= i < teardown_plan().len() - 1 ==> teardown_plan()[i] != NativeOp::CloseDisplay,
        teardown_plan().drop_last().contains(NativeOp::DestroyRenderContext),
        teardown_plan().drop_last().contains(NativeOp::FreeGraphicsContext),
{
    assert(teardown_plan().drop_last()[2] == NativeOp::DestroyRenderContext);
    assert(teardown_plan().drop_last()[3] == NativeOp::FreeGraphicsContext);
}

/// A text's UTF-8 encoding takes at most four bytes per character, so any
/// text of at most `i32::MAX / 4` characters has a drawable length.
pub proof fn utf8_len_at_most_four_per_char(text: Seq<char>)
    ensures
        vstd::utf8::encode_utf8(text).len() <= 4 * text.len(),
    decreases text.len(),
{
    if text.len() > 0 {
        utf8_len_at_most_four_per_char(text.drop_first());
        assert(vstd::utf8::encode_scalar(text[0] as u32).len() <= 4);
    }
}

/// A window on the display, with its contexts. The canvas holds what the
/// lifecycle depends on and answers each operation with the requests to
/// make, in order.
pub struct GCanvas {
    display_id: String,
    root: Object<GCanvasState>,
    black_pixel: u64,
    white_pixel: u64,
    mapped: bool,
    phase: CanvasPhase,
}

impl View for GCanvas {
    type V = CanvasView;

    closed spec fn view(&self) -> CanvasView {
        CanvasView {
            display_id: self.display_id@,
            root_rect: self.root.rect,
            root_children: self.root.children@.len(),
            state: self.root.state,
            black_pixel: self.black_pixel,
            white_pixel: self.white_pixel,
            mapped: self.mapped,
            phase: self.phase,
        }
    }
}

impl GCanvas {
    /// The root node spans the screen, and while open the canvas knows both
    /// protocol atoms.
    pub closed spec fn wf(&self) -> bool {
        &&& self.root.rect.wf()
        &&& self.root.rect.x == 0 && self.root.rect.y == 0
        &&& self.root.rect.width == self.root.state.screen_width
        &&& self.root.rect.height == self.root.state.screen_height
        &&& self.phase == CanvasPhase::Open ==> {
            &&& self.root.state.wm_protocols is Some
            &&& self.root.state.wm_delete_window is Some
        }
    }

    /// The canvas over resources that were all acquired, on a screen of
    /// the given metrics. Its window is not shown yet.
    pub fn new(acquired: Acquisition, screen: ScreenMetrics) -> (r: Self)
        requires
            acquired@.done == ACQUIRE_STEP_COUNT,
            screen.width <= i32::MAX,
            screen.height <= i32::MAX,
        ensures
            r.wf(),
            r@.root_rect.wf(),
            r@.root_rect.x == 0 && r@.root_rect.y == 0,
            r@.root_rect.width == screen.width && r@.root_rect.height == screen.height,
            r@ == (CanvasView {
                display_id: acquired@.display_id,
                root_rect: r@.root_rect,
                root_children: 0,
                state: GCanvasState {
                    screen_width: screen.width,
                    screen_height: screen.height,
                    wm_protocols: None,
                    wm_delete_window: None,
                },
                black_pixel: screen.black_pixel,
                white_pixel: screen.white_pixel,
                mapped: false,
                phase: CanvasPhase::Created,
            }),
    {
        let display_id = acquired.display_id().clone();
        let state = GCanvasState {
            screen_width: screen.width,
            screen_height: screen.height,
            wm_protocols: None,
            wm_delete_window: None,
        };
        GCanvas {
            display_id,
            root: Object::new_with_state(0, 0, screen.width, screen.height, state),
            black_pixel: screen.black_pixel,
            white_pixel: screen.white_pixel,
            mapped: false,
            phase: CanvasPhase::Created,
        }
    }

    /// Sets the window's title, which holds no NUL character.
    pub fn set_title(&self, title: &str) -> (r: Vec<NativeOp>)
        requires
            self@.phase != CanvasPhase::Closed,
            !title@.contains('\0'),
        ensures
            is_title_plan(r@, title@),
    {
        let mut ops: Vec<NativeOp> = Vec::new();
        ops.push(NativeOp::StoreName(title.to_owned()));
        ops.append(&mut self.flush());
        ops
    }

    /// Caches the two protocol atoms, registers the close protocol on the
    /// window and shows it. A canvas is opened once.
    pub fn open(&mut self, wm_protocols: u64, wm_delete_window: u64) -> (r: Vec<NativeOp>)
        requires
            old(self).wf(),
            old(self)@.phase == CanvasPhase::Created,
        ensures
            final(self).wf(),
            final(self)@ == old(self)@.opened(wm_protocols, wm_delete_window),
            r@ == open_plan(old(self)@, wm_delete_window),
    {
        let mut ops: Vec<NativeOp> = Vec::new();
        ops.push(NativeOp::SetBackground(self.black_pixel));
        ops.push(NativeOp::SetForeground(self.white_pixel));
        ops.append(&mut self.flush());
        ops.append(&mut self.show());
        self.root.state.wm_protocols = Some(wm_protocols);
        self.root.state.wm_delete_window = Some(wm_delete_window);
        ops.push(NativeOp::SetWmProtocols(wm_delete_window));
        self.phase = CanvasPhase::Open;
        assert(ops@ =~= open_plan(old(self)@, wm_delete_window));
        ops
    }

    /// Whether `event` is a request to close the window.
    pub fn is_close_request(&self, event: &CanvasEvent) -> (r: bool)
        ensures
            r == self@.closes(*event),
    {
        match *event {
            CanvasEvent::ClientMessage { message_type, format, first_word } => {
                match (self.root.state.wm_protocols, self.root.state.wm_delete_window) {
                    (Some(p), Some(d)) => message_type == p && format == 32 && first_word == d,
                    _ => false,
                }
            },
            CanvasEvent::Other { .. } => false,
        }
    }

    /// Takes the events that the display delivered, in order, until one
    /// asks that the window be closed. Then it tears the canvas down and
    /// returns that event's position with the teardown requests; the canvas
    /// is closed. When no event asked it, it returns `None`, the canvas is
    /// unchanged, and the loop goes on with the next batch.
    pub fn run(&mut self, events: &Vec<CanvasEvent>) -> (r: Option<(usize, Vec<NativeOp>)>)
        requires
            old(self).wf(),
            old(self)@.phase == CanvasPhase::Open,
        ensures
            final(self).wf(),
            r matches Some((i, ops)) ==> {
                &&& i < events@.len()
                &&& old(self)@.closes(events@[i as int])
                &&& forall|j: int| 0 <= j < i ==> !old(self)@.closes(#[trigger] events@[j])
                &&& ops@ == teardown_plan()
                &&& final(self)@ == old(self)@.mapped_as(false).in_phase(CanvasPhase::Closed)
            },
            r is None ==> {
                &&& forall|j: int| 0 <= j < events@.len() ==> !old(self)@.closes(
                    #[trigger] events@[j],
                )
                &&& final(self)@ == old(self)@
            },
    {
        let mut i: usize = 0;
        while i < events.len()
            invariant
                i <= events@.len(),
                *self == *old(self),
                self.wf(),
                self@.phase == CanvasPhase::Open,
                forall|j: int| 0 <= j < i ==> !old(self)@.closes(#[trigger] events@[j]),
            decreases events@.len() - i,
        {
            if self.is_close_request(&events[i]) {
                let ops = self.close();
                return Some((i, ops));
            }
            i = i + 1;
        }
        None
    }

    /// Pushes buffered requests to the server.
    pub fn flush(&self) -> (r: Vec<NativeOp>)
        requires
            self@.phase != CanvasPhase::Closed,
        ensures
            r@ == seq![NativeOp::Flush],
    {
        let mut ops: Vec<NativeOp> = Vec::new();
        ops.push(NativeOp::Flush);
        ops
    }

    /// Maps the window. Showing a shown window changes nothing.
    pub fn show(&mut self) -> (r: Vec<NativeOp>)
        requires
            old(self).wf(),
            old(self)@.phase != CanvasPhase::Closed,
        ensures
            final(self).wf(),
            final(self)@ == old(self)@.mapped_as(true),
            r@ == seq![NativeOp::MapWindow, NativeOp::Flush],
    {
        let mut ops: Vec<NativeOp> = Vec::new();
        ops.push(NativeOp::MapWindow);
        ops.append(&mut self.flush());
        self.mapped = true;
        ops
    }

    /// Unmaps the window. Hiding a hidden window changes nothing.
    pub fn hide_window(&mut self) -> (r: Vec<NativeOp>)
        requires
            old(self).wf(),
            old(self)@.phase != CanvasPhase::Closed,
        ensures
            final(self).wf(),
            final(self)@ == old(self)@.mapped_as(false),
            r@ == seq![NativeOp::UnmapWindow, NativeOp::Flush],
    {
        let mut ops: Vec<NativeOp> = Vec::new();
        ops.push(NativeOp::UnmapWindow);
        ops.append(&mut self.flush());
        self.mapped = false;
        ops
    }

    /// Tears the canvas down: hides the window, destroys the rendering and
    /// graphics contexts, and closes the connection last. Nothing may be
    /// asked of the canvas afterwards.
    pub fn close(&mut self) -> (r: Vec<NativeOp>)
        requires
            old(self).wf(),
            old(self)@.phase != CanvasPhase::Closed,
        ensures
            final(self).wf(),
            final(self)@ == old(self)@.mapped_as(false).in_phase(CanvasPhase::Closed),
            r@ == teardown_plan(),
    {
        let mut ops = self.hide_window();
        ops.push(NativeOp::DestroyRenderContext);
        ops.push(NativeOp::FreeGraphicsContext);
        ops.push(NativeOp::CloseDisplay);
        self.phase = CanvasPhase::Closed;
        assert(ops@ =~= teardown_plan());
        ops
    }

    /// Draws `text` at `(x, y)` through the graphics context. The text holds
    /// no NUL character, and its UTF-8 length is a drawable string length. The
    /// accelerated path only clears its framebuffer: drawing text there is
    /// left for later.
    pub fn add_text(&self, text: &str, x: i32, y: i32) -> (r: Vec<NativeOp>)
        requires
            self@.phase != CanvasPhase::Closed,
            !text@.contains('\0'),
            vstd::utf8::encode_utf8(text@).len() <= i32::MAX,
        ensures
            is_text_plan(r@, text@, x, y),
    {
        let mut ops: Vec<NativeOp> = Vec::new();
        ops.push(NativeOp::ClearFramebuffer);
        ops.push(NativeOp::DrawString { text: text.to_owned(), x, y });
        ops.append(&mut self.flush());
        ops
    }
    /// The identifier of the display the canvas is on.
    pub fn display_id(&self) -> (r: &String)
        ensures
            r@ == self@.display_id,
    {
        &self.display_id
    }

    /// The root node of the canvas's scene.
    pub fn root(&self) -> (r: &Object<GCanvasState>)
        ensures
            r.rect == self@.root_rect,
            r.children@.len() == self@.root_children,
            r.state == self@.state,
    {
        &self.root
    }

    /// The screen metrics and protocol atoms the canvas holds.
    pub fn state(&self) -> (r: GCanvasState)
        ensures
            r == self@.state,
    {
        self.root.state
    }

    /// Whether the window is mapped.
    pub fn is_mapped(&self) -> (r: bool)
        ensures
            r == self@.mapped,
    {
        self.mapped
    }

    /// Where the canvas is in its life.
    pub fn phase(&self) -> (r: CanvasPhase)
        ensures
            r == self@.phase,
    {
        self.phase
    }
}

} // verus!
