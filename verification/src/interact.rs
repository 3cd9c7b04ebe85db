//! The pointer-driven pan/zoom/drag state machine.
//!
//! The interaction controller translates raw window events into
//! mutations of the session's frame state and answers, per event, what
//! the event loop should do next.  All decisions are made here; the
//! windowing shell only performs them (render, reconfigure, reload,
//! exit).
//!
//! Pointer positions arrive in device space (origin top-left, `y`
//! down) and are flipped to render space (`y_render = window_height -
//! y_device`) at ingestion.  While the right button drags, the live
//! translation is the committed pan plus the anchored displacement
//! `(anchor.x - pointer.x, pointer.y - anchor.y)`; releasing freezes
//! the live translation into the committed accumulator.

use vstd::prelude::*;

use crate::geom::Vec2;
use crate::gpu::SurfaceConfig;
use crate::maprender::{Metadata, ZOOM_MAX, ZOOM_MIN};
use crate::session::{resize_post, RenderSession};

verus! {

/// One scroll unit (a "line", or a pixel of fine-grained scroll) is
/// carried in thousandths, so fractional deltas stay exact.
pub const SCROLL_UNIT: i64 = 1000;

/// The zoom factor after one scroll of `delta` thousandths of a line:
/// the current zoom scaled by `1 + delta/4`, clamped into
/// [[`ZOOM_MIN`], [`ZOOM_MAX`]].  A negative scale collapses to the
/// minimum zoom.
pub open spec fn zoom_next(zoom: int, delta: int) -> int {
    let raw = (zoom * (4 * SCROLL_UNIT + delta)) / (4 * SCROLL_UNIT);
    if raw < ZOOM_MIN {
        ZOOM_MIN as int
    } else if raw > ZOOM_MAX {
        ZOOM_MAX as int
    } else {
        raw
    }
}

/// The zoom factor after a whole sequence of scroll deltas, applied in
/// order.
pub open spec fn zoom_fold(start: int, deltas: Seq<int>) -> int
    decreases deltas.len(),
{
    if deltas.len() == 0 {
        start
    } else {
        zoom_next(zoom_fold(start, deltas.drop_last()), deltas.last())
    }
}

/// Zoom clamp: for any sequence of scroll deltas, starting from any
/// zoom within range, the resulting zoom factor stays within
/// [[`ZOOM_MIN`], [`ZOOM_MAX`]].
pub proof fn lemma_zoom_clamp(start: int, deltas: Seq<int>)
    requires
        ZOOM_MIN <= start <= ZOOM_MAX,
    ensures
        ZOOM_MIN <= zoom_fold(start, deltas) <= ZOOM_MAX,
    decreases deltas.len(),
{
    if deltas.len() > 0 {
        lemma_zoom_clamp(start, deltas.drop_last());
    }
}

/// Applies one scroll step to the zoom factor, exactly as
/// [`zoom_next`] says.
pub fn apply_scroll(zoom: i64, delta: i64) -> (z: i64)
    requires
        ZOOM_MIN <= zoom <= ZOOM_MAX,
    ensures
        z == zoom_next(zoom as int, delta as int),
        ZOOM_MIN <= z <= ZOOM_MAX,
{
    let zi: i128 = zoom as i128;
    let fi: i128 = 4000 + (delta as i128);
    proof {
        assert(zi * fi <= 10000000i128 * 9223372036854779807i128 && zi * fi
            >= 10000000i128 * (-9223372036854771808i128)) by (nonlinear_arith)
            requires
                100000 <= zi <= 10000000,
                -9223372036854771808 <= fi <= 9223372036854779807,
        ;
    }
    let prod: i128 = zi * fi;
    if prod < 0 {
        proof {
            assert(prod / 4000 <= 0) by (nonlinear_arith)
                requires
                    prod < 0,
            ;
        }
        ZOOM_MIN
    } else {
        let q: u128 = (prod as u128) / 4000;
        proof {
            assert(q == (zoom as int) * (4000 + delta as int) / 4000);
        }
        if q < 100000 {
            ZOOM_MIN
        } else if q > 10000000 {
            ZOOM_MAX
        } else {
            q as i64
        }
    }
}

/// The three states of the drag machine.  The anchor point is only
/// meaningful while a drag is live; the committed translation is only
/// updated on the transition back to `Free`.
#[derive(Clone, Copy, Debug, PartialEq, Eq, Structural)]
pub enum DragState {
    Free,
    DraggingLeft,
    DraggingRight,
}

/// A mouse button, as far as the machine distinguishes them.
#[derive(Clone, Copy, Debug, PartialEq, Eq, Structural)]
pub enum MouseButton {
    Left,
    Right,
    Middle,
    Other,
}

/// A scroll step: the vertical line delta of a wheel, or the vertical
/// pixel delta of a fine-grained pointing device, both in thousandths.
#[derive(Clone, Copy, Debug, PartialEq, Eq, Structural)]
pub enum ScrollDelta {
    LineDelta(i64),
    PixelDelta(i64),
}

impl ScrollDelta {
    /// Both flavours unify into one scalar before use.
    pub open spec fn unified_spec(self) -> int {
        match self {
            ScrollDelta::LineDelta(d) => d as int,
            ScrollDelta::PixelDelta(d) => d as int,
        }
    }

    /// Unifies the delta into one scalar.
    pub fn unified(self) -> (d: i64)
        ensures
            d == self.unified_spec(),
    {
        match self {
            ScrollDelta::LineDelta(d) => d,
            ScrollDelta::PixelDelta(d) => d,
        }
    }
}

/// The window events the viewer consumes.  Pointer coordinates are in
/// device space (origin top-left); scroll deltas are unified scalars in
/// thousandths.
#[derive(Clone, Debug)]
pub enum InputEvent {
    CloseRequested,
    RedrawRequested,
    Resized { width: u32, height: u32 },
    KeyboardInput { text: Vec<char> },
    MouseInput { button: MouseButton, pressed: bool },
    CursorMoved { x: i64, y: i64 },
    MouseWheel { delta: ScrollDelta },
    Unrecognized,
}

/// What the event loop must do after an event is handled.
#[derive(Clone, Debug)]
pub enum Action {
    /// Stop scheduling frames and leave the loop.
    Exit,
    /// Render one frame, then request the next redraw.
    Render,
    /// Reconfigure the surface with this configuration before the next
    /// frame.
    Reconfigure(SurfaceConfig),
    /// Re-read the shader text and rebuild every pass's pipeline.
    ReloadShaders,
    /// Nothing: the event was consumed (or unrecognized) silently.
    Ignore,
}

/// The designated reload key: the text input `"r"`.
pub open spec fn is_reload_key(text: Seq<char>) -> bool {
    text.len() == 1 && text[0] == 'r'
}

/// The top-level event handler's state: the drag machine plus the
/// anchor point and the committed (accumulated) translation.
#[derive(Clone, Copy, Debug, PartialEq, Eq, Structural)]
pub struct InteractionController {
    pub drag: DragState,
    pub anchor: Vec2,
    pub committed: Vec2,
}

/// Free -> DraggingRight on right press, recording the anchor at the
/// current pointer position; in any other state the press is inert.
pub open spec fn right_press_post(
    c0: InteractionController,
    m: Metadata,
    c1: InteractionController,
) -> bool {
    if c0.drag == DragState::Free {
        c1 == (InteractionController { drag: DragState::DraggingRight, anchor: m.mouse_pos, ..c0 })
    } else {
        c1 == c0
    }
}

/// DraggingRight -> Free on right release, freezing the live
/// translation into the committed accumulator; otherwise inert.
pub open spec fn right_release_post(
    c0: InteractionController,
    m: Metadata,
    c1: InteractionController,
) -> bool {
    if c0.drag == DragState::DraggingRight {
        c1 == (InteractionController {
            drag: DragState::Free,
            committed: m.map_translation,
            ..c0
        })
    } else {
        c1 == c0
    }
}

/// Free -> DraggingLeft on left press (reserved interaction, no visible
/// effect); otherwise inert.
pub open spec fn left_press_post(
    c0: InteractionController,
    m: Metadata,
    c1: InteractionController,
) -> bool {
    if c0.drag == DragState::Free {
        c1 == (InteractionController { drag: DragState::DraggingLeft, anchor: m.mouse_pos, ..c0 })
    } else {
        c1 == c0
    }
}

/// DraggingLeft -> Free on left release; otherwise inert.
pub open spec fn left_release_post(
    c0: InteractionController,
    m: Metadata,
    c1: InteractionController,
) -> bool {
    if c0.drag == DragState::DraggingLeft {
        c1 == (InteractionController { drag: DragState::Free, anchor: m.mouse_pos, ..c0 })
    } else {
        c1 == c0
    }
}

/// How a pointer move changes the frame state: the pointer is flipped
/// to render space; while the right button drags, the live translation
/// becomes the committed pan plus the anchored displacement with the
/// documented axis flip; nothing else moves.
pub open spec fn cursor_moved_post(
    c: InteractionController,
    m0: Metadata,
    x: int,
    y: int,
    m1: Metadata,
) -> bool {
    &&& m1.mouse_pos.x == x
    &&& m1.mouse_pos.y == m0.window_size.y - y
    &&& (c.drag == DragState::DraggingRight ==> {
        &&& m1.map_translation.x == c.committed.x + c.anchor.x - m1.mouse_pos.x
        &&& m1.map_translation.y == c.committed.y + m1.mouse_pos.y - c.anchor.y
    })
    &&& (c.drag != DragState::DraggingRight ==> m1.map_translation == m0.map_translation)
    &&& m1.map_zoom == m0.map_zoom
    &&& m1.time_micros == m0.time_micros
    &&& m1.window_size == m0.window_size
}

/// The machine-limit side conditions of a pointer move: the flipped
/// coordinate and the live translation must fit the pixel type.
pub open spec fn cursor_moved_fits(
    c: InteractionController,
    m: Metadata,
    x: int,
    y: int,
) -> bool {
    &&& i64::MIN <= m.window_size.y - y <= i64::MAX
    &&& (c.drag == DragState::DraggingRight ==> {
        &&& i64::MIN <= c.committed.x + c.anchor.x - x <= i64::MAX
        &&& i64::MIN <= c.committed.y + (m.window_size.y - y) - c.anchor.y <= i64::MAX
    })
}

/// The machine-limit side conditions of an event.  Only pointer moves
/// have any: every other event is total.
pub open spec fn event_fits(c: InteractionController, m: Metadata, e: InputEvent) -> bool {
    match e {
        InputEvent::CursorMoved { x, y } => cursor_moved_fits(c, m, x as int, y as int),
        _ => true,
    }
}

impl InteractionController {
    /// The machine starts free, with nothing anchored and nothing
    /// committed.
    pub fn new() -> (c: InteractionController)
        ensures
            c == (InteractionController {
                drag: DragState::Free,
                anchor: Vec2 { x: 0, y: 0 },
                committed: Vec2 { x: 0, y: 0 },
            }),
    {
        InteractionController {
            drag: DragState::Free,
            anchor: Vec2::zero(),
            committed: Vec2::zero(),
        }
    }

    /// The controller/session consistency invariant: whenever no right
    /// drag is live, the committed pan equals the live translation.
    /// It holds at session start and every event preserves it.
    pub open spec fn consistent_with(self, m: Metadata) -> bool {
        self.drag != DragState::DraggingRight ==> self.committed == m.map_translation
    }

    /// Handles one window event: mutates the drag machine and the
    /// session's frame state exactly as the transition relations say,
    /// and answers what the event loop must do next.
    pub fn handle_event(&mut self, session: &mut RenderSession, event: InputEvent) -> (a: Action)
        requires
            old(session).wf(),
            event_fits(*old(self), old(session).metadata, event),
        ensures
            final(session).wf(),
            old(self).consistent_with(old(session).metadata) ==> final(self).consistent_with(
                final(session).metadata,
            ),
            match event {
                InputEvent::CloseRequested => {
                    &&& *final(self) == *old(self)
                    &&& *final(session) == *old(session)
                    &&& a is Exit
                },
                InputEvent::RedrawRequested => {
                    &&& *final(self) == *old(self)
                    &&& *final(session) == *old(session)
                    &&& a is Render
                },
                InputEvent::Resized { width, height } => {
                    &&& *final(self) == *old(self)
                    &&& a matches Action::Reconfigure(cfg) && resize_post(
                        *old(session),
                        *final(session),
                        cfg,
                        width,
                        height,
                    )
                },
                InputEvent::KeyboardInput { text } => {
                    &&& *final(self) == *old(self)
                    &&& *final(session) == *old(session)
                    &&& is_reload_key(text@) ==> a is ReloadShaders
                    &&& !is_reload_key(text@) ==> a is Ignore
                },
                InputEvent::MouseInput { button, pressed } => {
                    &&& *final(session) == *old(session)
                    &&& a is Ignore
                    &&& match (button, pressed) {
                        (MouseButton::Right, true) => right_press_post(
                            *old(self),
                            old(session).metadata,
                            *final(self),
                        ),
                        (MouseButton::Right, false) => right_release_post(
                            *old(self),
                            old(session).metadata,
                            *final(self),
                        ),
                        (MouseButton::Left, true) => left_press_post(
                            *old(self),
                            old(session).metadata,
                            *final(self),
                        ),
                        (MouseButton::Left, false) => left_release_post(
                            *old(self),
                            old(session).metadata,
                            *final(self),
                        ),
                        _ => *final(self) == *old(self),
                    }
                },
                InputEvent::CursorMoved { x, y } => {
                    &&& *final(self) == *old(self)
                    &&& cursor_moved_post(
                        *old(self),
                        old(session).metadata,
                        x as int,
                        y as int,
                        final(session).metadata,
                    )
                    &&& *final(session) == (RenderSession {
                        metadata: final(session).metadata,
                        ..*old(session)
                    })
                    &&& a is Ignore
                },
                InputEvent::MouseWheel { delta } => {
                    &&& *final(self) == *old(self)
                    &&& *final(session) == (RenderSession {
                        metadata: Metadata {
                            map_zoom: zoom_next(
                                old(session).metadata.map_zoom as int,
                                delta.unified_spec(),
                            ) as i64,
                            ..old(session).metadata
                        },
                        ..*old(session)
                    })
                    &&& a is Ignore
                },
                InputEvent::Unrecognized => {
                    &&& *final(self) == *old(self)
                    &&& *final(session) == *old(session)
                    &&& a is Ignore
                },
            },
    {
        match event {
            InputEvent::CloseRequested => Action::Exit,
            InputEvent::RedrawRequested => Action::Render,
            InputEvent::Resized { width, height } => {
                // Resizes are always followed up by a redraw request, so
                // no frame is rendered here.
                let cfg = session.resize(width, height);
                Action::Reconfigure(cfg)
            },
            InputEvent::KeyboardInput { text } => {
                if text.len() == 1 && text[0] == 'r' {
                    Action::ReloadShaders
                } else {
                    Action::Ignore
                }
            },
            InputEvent::MouseInput { button, pressed } => {
                match (button, pressed) {
                    (MouseButton::Right, true) => {
                        if self.drag == DragState::Free {
                            self.drag = DragState::DraggingRight;
                            self.anchor = session.metadata.mouse_pos;
                        }
                    },
                    (MouseButton::Right, false) => {
                        if self.drag == DragState::DraggingRight {
                            self.drag = DragState::Free;
                            self.committed = session.metadata.map_translation;
                        }
                    },
                    (MouseButton::Left, true) => {
                        if self.drag == DragState::Free {
                            self.drag = DragState::DraggingLeft;
                            self.anchor = session.metadata.mouse_pos;
                        }
                    },
                    (MouseButton::Left, false) => {
                        if self.drag == DragState::DraggingLeft {
                            self.drag = DragState::Free;
                            self.anchor = session.metadata.mouse_pos;
                        }
                    },
                    _ => {},
                }
                Action::Ignore
            },
            InputEvent::CursorMoved { x, y } => {
                let flipped_y: i64 = ((session.metadata.window_size.y as i128) - (y as i128))
                    as i64;
                session.metadata.mouse_pos = Vec2::new(x, flipped_y);
                if self.drag == DragState::DraggingRight {
                    let tx: i64 = ((self.committed.x as i128) + (self.anchor.x as i128) - (
                    x as i128)) as i64;
                    let ty: i64 = ((self.committed.y as i128) + (flipped_y as i128) - (
                    self.anchor.y as i128)) as i64;
                    session.metadata.map_translation = Vec2::new(tx, ty);
                }
                // A left drag is reserved for a future interaction and
                // moves nothing yet.
                Action::Ignore
            },
            InputEvent::MouseWheel { delta } => {
                let unified = delta.unified();
                session.metadata.map_zoom = apply_scroll(session.metadata.map_zoom, unified);
                Action::Ignore
            },
            InputEvent::Unrecognized => Action::Ignore,
        }
    }
}

/// Drag commit invariant: pressing the right button at pointer `P0`,
/// moving to `P1`, releasing, moving to `P2`, pressing again and
/// moving to `P3` yields a live translation equal to the translation
/// at release plus `(P2.x - P3.x, P3.y - P2.y)` — drag sessions
/// compose additively across press/release cycles.
///
/// States are chained by the same transition relations the event
/// handler ensures; `P2` is `m2.mouse_pos`, `P3` is `m3.mouse_pos`.
pub proof fn lemma_drag_sessions_compose(
    c0: InteractionController,
    m0: Metadata,
    c1: InteractionController,
    m1: Metadata,
    c2: InteractionController,
    m2: Metadata,
    c3: InteractionController,
    m3: Metadata,
    x1: int,
    y1: int,
    x2: int,
    y2: int,
    x3: int,
    y3: int,
)
    requires
        c0.drag == DragState::Free,
        right_press_post(c0, m0, c1),
        cursor_moved_post(c1, m0, x1, y1, m1),
        right_release_post(c1, m1, c2),
        cursor_moved_post(c2, m1, x2, y2, m2),
        right_press_post(c2, m2, c3),
        cursor_moved_post(c3, m2, x3, y3, m3),
    ensures
        m3.map_translation.x == m1.map_translation.x + (m2.mouse_pos.x - m3.mouse_pos.x),
        m3.map_translation.y == m1.map_translation.y + (m3.mouse_pos.y - m2.mouse_pos.y),
{
}

/// Zero-motion idempotence, moving form: a right-drag cycle whose
/// pointer returns to the anchor before release leaves the committed
/// translation unchanged.
pub proof fn lemma_zero_net_motion_drag(
    c0: InteractionController,
    m0: Metadata,
    c1: InteractionController,
    m1: Metadata,
    c2: InteractionController,
    x: int,
    y: int,
)
    requires
        c0.drag == DragState::Free,
        right_press_post(c0, m0, c1),
        cursor_moved_post(c1, m0, x, y, m1),
        m1.mouse_pos == m0.mouse_pos,
        right_release_post(c1, m1, c2),
    ensures
        c2.committed == c0.committed,
{
}

/// Zero-motion idempotence, still form: a press/release cycle with no
/// pointer move at all leaves the committed translation unchanged.
/// Uses the maintained consistency between controller and session.
pub proof fn lemma_zero_motion_drag(
    c0: InteractionController,
    m0: Metadata,
    c1: InteractionController,
    c2: InteractionController,
)
    requires
        c0.drag == DragState::Free,
        c0.consistent_with(m0),
        right_press_post(c0, m0, c1),
        right_release_post(c1, m0, c2),
    ensures
        c2.committed == c0.committed,
{
}

} // verus!
