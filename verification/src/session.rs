//! The event-loop decisions the examples share.
//!
//! Every example runs the same loop: close or escape ends the program, a
//! resize forces the swap surface to be reconfigured with the window's new
//! pixel size, and once the input events of an iteration are processed a
//! frame is rendered.  This module holds that loop's decision logic as a
//! state machine over plain values; the caller performs the returned
//! action against the window system and the GPU.

use vstd::prelude::*;

verus! {

/// An event delivered by the window system, reduced to what the examples
/// react to.
#[derive(Clone, Copy, PartialEq, Eq, Structural, Debug)]
pub enum SessionEvent {
    /// The user asked to close the window.
    CloseRequested,
    /// The escape key was pressed.
    EscapePressed,
    /// The window now measures `width` by `height` pixels.
    Resized { width: u32, height: u32 },
    /// The input events of this loop iteration are processed; a frame may
    /// be rendered.
    RedrawReady,
    /// Any event the examples do not react to.
    Other,
}

/// What the caller must do next.
#[derive(Clone, Copy, PartialEq, Eq, Structural, Debug)]
pub enum SessionAction {
    /// Leave the event loop.
    Exit,
    /// Configure the swap surface for `width` by `height` pixels, then ask
    /// again.
    Reconfigure { width: u32, height: u32 },
    /// Render and present one frame.
    Render,
    /// Nothing.
    Ignore,
}

/// How many frames pass between two frame-rate reports.
pub const REPORT_INTERVAL: u64 = 100;

/// The state of one example's window session: the window's current pixel
/// size, the size the swap surface was last configured with, and how many
/// frames were completed.
pub struct RenderSession {
    pub window_width: u32,
    pub window_height: u32,
    pub configured_width: u32,
    pub configured_height: u32,
    pub configured: bool,
    pub frames_rendered: u64,
}

/// A session is well formed when a configured surface matches the window's
/// current pixel size.
pub open spec fn session_wf(s: RenderSession) -> bool {
    s.configured ==> s.configured_width == s.window_width && s.configured_height
        == s.window_height
}

/// The decision step: the state after an event, and the action the caller
/// must perform.
pub open spec fn spec_step(s: RenderSession, e: SessionEvent) -> (RenderSession, SessionAction) {
    match e {
        SessionEvent::CloseRequested => (s, SessionAction::Exit),
        SessionEvent::EscapePressed => (s, SessionAction::Exit),
        SessionEvent::Resized { width, height } => (
            RenderSession {
                window_width: width,
                window_height: height,
                configured_width: width,
                configured_height: height,
                configured: true,
                frames_rendered: s.frames_rendered,
            },
            SessionAction::Reconfigure { width, height },
        ),
        SessionEvent::RedrawReady => if s.configured {
            (s, SessionAction::Render)
        } else {
            (
                RenderSession {
                    window_width: s.window_width,
                    window_height: s.window_height,
                    configured_width: s.window_width,
                    configured_height: s.window_height,
                    configured: true,
                    frames_rendered: s.frames_rendered,
                },
                SessionAction::Reconfigure { width: s.window_width, height: s.window_height },
            )
        },
        SessionEvent::Other => (s, SessionAction::Ignore),
    }
}

impl RenderSession {
    /// A fresh session for a window of the given pixel size; the surface
    /// is not configured yet.
    pub fn new(width: u32, height: u32) -> (s: Self)
        ensures
            s == (RenderSession {
                window_width: width,
                window_height: height,
                configured_width: width,
                configured_height: height,
                configured: false,
                frames_rendered: 0u64,
            }),
            session_wf(s),
    {
        RenderSession {
            window_width: width,
            window_height: height,
            configured_width: width,
            configured_height: height,
            configured: false,
            frames_rendered: 0,
        }
    }

    /// Handles one event: updates the session and returns the action the
    /// caller must perform.
    pub fn handle(&mut self, e: SessionEvent) -> (a: SessionAction)
        ensures
            (*final(self), a) == spec_step(*old(self), e),
            session_wf(*final(self)) || !session_wf(*old(self)),
    {
        match e {
            SessionEvent::CloseRequested => SessionAction::Exit,
            SessionEvent::EscapePressed => SessionAction::Exit,
            SessionEvent::Resized { width, height } => {
                self.window_width = width;
                self.window_height = height;
                self.configured_width = width;
                self.configured_height = height;
                self.configured = true;
                SessionAction::Reconfigure { width, height }
            },
            SessionEvent::RedrawReady => {
                if self.configured {
                    SessionAction::Render
                } else {
                    self.configured_width = self.window_width;
                    self.configured_height = self.window_height;
                    self.configured = true;
                    SessionAction::Reconfigure {
                        width: self.window_width,
                        height: self.window_height,
                    }
                }
            },
            SessionEvent::Other => SessionAction::Ignore,
        }
    }

    /// Records a completed frame; true every hundredth frame, when the
    /// examples report their frame rate.
    pub fn finish_frame(&mut self) -> (report: bool)
        requires
            old(self).frames_rendered < u64::MAX,
        ensures
            *final(self) == (RenderSession {
                frames_rendered: (old(self).frames_rendered + 1) as u64,
                ..*old(self)
            }),
            report == ((old(self).frames_rendered + 1) % (REPORT_INTERVAL as int) == 0),
    {
        self.frames_rendered = self.frames_rendered + 1;
        self.frames_rendered % REPORT_INTERVAL == 0
    }
}

/// Resizing the window is followed by a surface reconfiguration with the
/// new pixel dimensions before the next frame: handling the resize itself
/// demands exactly that reconfiguration, and the next redraw renders in a
/// state whose surface is configured to the new size.
pub proof fn lemma_resize_then_render(s: RenderSession, width: u32, height: u32)
    ensures
        spec_step(s, SessionEvent::Resized { width, height }).1
            == (SessionAction::Reconfigure { width, height }),
        spec_step(s, SessionEvent::Resized { width, height }).0.configured,
        spec_step(s, SessionEvent::Resized { width, height }).0.configured_width == width,
        spec_step(s, SessionEvent::Resized { width, height }).0.configured_height == height,
        spec_step(spec_step(s, SessionEvent::Resized { width, height }).0,
            SessionEvent::RedrawReady).1 == SessionAction::Render,
        spec_step(spec_step(s, SessionEvent::Resized { width, height }).0,
            SessionEvent::RedrawReady).0.configured_width == width,
        spec_step(spec_step(s, SessionEvent::Resized { width, height }).0,
            SessionEvent::RedrawReady).0.configured_height == height,
{
}

/// A frame is only ever rendered with the surface configured, and — in a
/// well-formed session — configured to the window's current pixel size;
/// and every step preserves well-formedness.
pub proof fn lemma_render_needs_current_surface(s: RenderSession, e: SessionEvent)
    ensures
        spec_step(s, e).1 == SessionAction::Render ==> s.configured,
        session_wf(s) && spec_step(s, e).1 == SessionAction::Render ==> s.configured_width
            == s.window_width && s.configured_height == s.window_height,
        session_wf(s) ==> session_wf(spec_step(s, e).0),
{
}

} // verus!
