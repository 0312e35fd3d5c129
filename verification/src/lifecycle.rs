//! The application's event-driven control logic.
//!
//! The windowing system delivers lifecycle events; this module decides, from
//! the current state and one event, what the unverified shell must do next:
//! build the renderer, reconfigure the surface, render a frame, skip a frame,
//! terminate the loop, or nothing. The shell performs the outside work — it
//! opens the window, talks to the backend and reports failures back as
//! events — and carries out exactly the action returned here.
use crate::frame::{is_fatal, AcquireError, Renderer};
use vstd::prelude::*;

verus! {

/// One lifecycle event, as delivered by the windowing system or reported
/// back by the shell after a failed frame.
#[derive(Clone, Copy, Debug, PartialEq, Eq, Structural)]
pub enum Event {
    /// The window is (or became) available; rendering may start.
    Resumed,
    /// The window's pixel dimensions changed.
    Resized { width: u32, height: u32 },
    /// The windowing system asks for one frame.
    RedrawRequested,
    /// The user asked to close the window.
    CloseRequested,
    /// The last frame's image acquisition failed with the given error.
    FrameFailed { error: AcquireError },
}

/// What the shell must do in response to one event.
#[derive(Clone, Copy, Debug, PartialEq, Eq, Structural)]
pub enum Action {
    /// Open the window, negotiate the graphics device, build the renderer,
    /// and install it.
    CreateRenderer,
    /// Reconfigure the surface from the stored configuration before the next
    /// frame is acquired.
    Reconfigure,
    /// Schedule the next redraw, then acquire, record, submit and present
    /// one frame.
    RenderFrame,
    /// Log the failure and skip the frame; the loop continues.
    SkipFrame,
    /// Terminate the event loop.
    Exit,
    /// Nothing to do.
    Nothing,
}

/// The application: nothing before the window is available, a renderer
/// afterwards.
pub struct App {
    pub renderer: Option<Renderer>,
}

impl App {
    /// An installed renderer is always consistent.
    pub open spec fn wf(self) -> bool {
        self.renderer matches Some(r) ==> r.wf()
    }

    /// The application before any event: no renderer yet.
    pub fn new() -> (a: App)
        ensures
            a.renderer is None,
            a.wf(),
    {
        App { renderer: None }
    }

    /// Installs the renderer the shell built in response to
    /// `Action::CreateRenderer`.
    pub fn install_renderer(&mut self, r: Renderer)
        requires
            old(self).renderer is None,
            r.wf(),
        ensures
            final(self).renderer == Some(r),
            final(self).wf(),
    {
        self.renderer = Some(r);
    }

    /// Decides what one event means for the current state.
    ///
    /// A resume creates the renderer once and never a second time. A resize
    /// with both dimensions non-zero stores them and demands reconfiguration;
    /// a zero-area resize changes nothing. A redraw request renders exactly
    /// when a renderer exists, and a close request terminates. A failed frame
    /// terminates exactly on an out-of-memory error; every other failure
    /// skips the frame and the loop continues. Before the renderer exists,
    /// window events mean nothing.
    pub fn handle_event(&mut self, event: Event) -> (a: Action)
        requires
            old(self).wf(),
        ensures
            final(self).wf(),
            event is Resumed ==> *final(self) == *old(self) && a == (if old(self).renderer
                is None {
                Action::CreateRenderer
            } else {
                Action::Nothing
            }),
            event matches Event::Resized { width, height } ==> match old(self).renderer {
                Some(r) => {
                    &&& final(self).renderer matches Some(r2)
                        && r2.config == r.config.spec_resize(width, height)
                        && r2.pipeline == r.pipeline
                        && r2.num_indices == r.num_indices
                    &&& a == (if width > 0 && height > 0 {
                        Action::Reconfigure
                    } else {
                        Action::Nothing
                    })
                },
                None => a is Nothing && *final(self) == *old(self),
            },
            event is RedrawRequested ==> *final(self) == *old(self) && a == (if old(
                self,
            ).renderer is Some {
                Action::RenderFrame
            } else {
                Action::Nothing
            }),
            event is CloseRequested ==> *final(self) == *old(self) && a == (if old(
                self,
            ).renderer is Some {
                Action::Exit
            } else {
                Action::Nothing
            }),
            event matches Event::FrameFailed { error } ==> *final(self) == *old(self) && a == (
            if is_fatal(error) {
                Action::Exit
            } else {
                Action::SkipFrame
            }),
    {
        match event {
            Event::Resumed => {
                if self.renderer.is_none() {
                    Action::CreateRenderer
                } else {
                    Action::Nothing
                }
            },
            Event::Resized { width, height } => {
                match &mut self.renderer {
                    Some(r) => {
                        let reconfigure = r.resize(width, height);
                        if reconfigure {
                            Action::Reconfigure
                        } else {
                            Action::Nothing
                        }
                    },
                    None => Action::Nothing,
                }
            },
            Event::RedrawRequested => {
                if self.renderer.is_some() {
                    Action::RenderFrame
                } else {
                    Action::Nothing
                }
            },
            Event::CloseRequested => {
                if self.renderer.is_some() {
                    Action::Exit
                } else {
                    Action::Nothing
                }
            },
            Event::FrameFailed { error } => {
                if matches!(error, AcquireError::OutOfMemory) {
                    Action::Exit
                } else {
                    Action::SkipFrame
                }
            },
        }
    }
}

} // verus!
