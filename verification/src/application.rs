//! The application: what each window event asks of the render context and of
//! the shell.

use vstd::prelude::*;
use crate::command::{Command, Fullscreen};
use crate::context::{Context, ContextView, NUM_FRAMES, startup_commands, teardown_commands};
use crate::descriptor::{TextureFormat, TextureUsages};
use crate::frame::{Acquisition, FrameStep, SurfaceError, spec_frame_step};
use crate::layout::PointPosition;

verus! {

/// The keys that the application tells apart.
#[derive(Clone, Copy, Debug, PartialEq, Eq, Structural)]
pub enum Key {
    Escape,
    F11,
    Other,
}

/// A window event, with what the application reads of it.
#[derive(Clone, Copy, Debug, PartialEq, Eq)]
pub enum WindowEvent {
    /// The window has a new inner size.
    Resized { width: u32, height: u32 },
    /// The window wants a frame. `points` are the positions of the points
    /// at the time of the redraw.
    RedrawRequested { points: [PointPosition; 4] },
    /// A key went down or up. `fullscreen` says whether the window is
    /// fullscreen at that moment.
    KeyboardInput { key: Key, pressed: bool, repeat: bool, fullscreen: bool },
    /// The user asked to close the window.
    CloseRequested,
    /// Any other event.
    Other,
}

/// The commands that a key asks for: a fresh press of Escape leaves, a fresh
/// press of F11 toggles fullscreen, and nothing else does anything.
pub open spec fn key_commands(key: Key, pressed: bool, repeat: bool, fullscreen: bool) -> Seq<
    Command,
> {
    if pressed && !repeat {
        match key {
            Key::Escape => seq![Command::Exit],
            Key::F11 => seq![
                Command::SetFullscreen {
                    mode: if fullscreen {
                        Fullscreen::Windowed
                    } else {
                        Fullscreen::Borderless
                    },
                },
            ],
            Key::Other => Seq::empty(),
        }
    } else {
        Seq::empty()
    }
}

/// The application as a value.
pub struct ApplicationView {
    pub context: Option<ContextView>,
}

impl ApplicationView {
    /// The render context, if there is one, is well formed.
    pub open spec fn wf(self) -> bool {
        self.context matches Some(context) ==> context.wf()
    }

    /// The application after an event: a resize and the beginning of a frame
    /// change the context, nothing else changes anything.
    pub open spec fn spec_window_event(self, event: WindowEvent) -> ApplicationView {
        match (self.context, event) {
            (Some(context), WindowEvent::Resized { width, height }) => ApplicationView {
                context: Some(context.spec_resize(width, height)),
            },
            (Some(context), WindowEvent::RedrawRequested { .. }) => ApplicationView {
                context: Some(context.spec_redraw()),
            },
            _ => self,
        }
    }

    /// The commands that an event asks for.
    pub open spec fn event_commands(self, event: WindowEvent) -> Seq<Command> {
        match event {
            WindowEvent::Resized { width, height } => self.context->0.resize_commands(
                width,
                height,
            ),
            WindowEvent::RedrawRequested { points } => self.context->0.upload_commands(points),
            WindowEvent::KeyboardInput { key, pressed, repeat, fullscreen } => key_commands(
                key,
                pressed,
                repeat,
                fullscreen,
            ),
            WindowEvent::CloseRequested => seq![Command::Exit],
            WindowEvent::Other => Seq::empty(),
        }
    }
}

pub struct Application {
    context: Option<Context>,
}

impl View for Application {
    type V = ApplicationView;

    closed spec fn view(&self) -> ApplicationView {
        ApplicationView {
            context: match self.context {
                Some(context) => Some(context@),
                None => None,
            },
        }
    }
}

impl Default for Application {
    /// An application without a render context.
    fn default() -> (application: Application)
        ensures
            application@.context is None,
            application.wf(),
    {
        Application { context: None }
    }
}

impl Application {
    pub open spec fn wf(&self) -> bool {
        self@.wf()
    }

    /// The application was resumed. Says whether the shell is to bring up a
    /// window and a device and hand them over with `create_context`: it is
    /// when there is no render context yet.
    pub fn resumed(&self) -> (create: bool)
        ensures
            create == (self@.context is None),
    {
        self.context.is_none()
    }

    /// Creates the render context for the window that the shell brought up,
    /// unless there is one already, and returns the commands that bring it
    /// up. The arguments are those of `Context::new`.
    pub fn create_context(
        &mut self,
        width: u32,
        height: u32,
        surface_format: TextureFormat,
        surface_usage: TextureUsages,
        turbo: bool,
        now: u64,
    ) -> (plan: Vec<Command>)
        requires
            old(self).wf(),
        ensures
            final(self).wf(),
            old(self)@.context is Some ==> final(self)@ == old(self)@ && plan@ == Seq::<
                Command,
            >::empty(),
            old(self)@.context is None ==> final(self)@.context == Some(
                ContextView::spec_with_frames(
                    NUM_FRAMES as nat,
                    width,
                    height,
                    surface_format,
                    surface_usage,
                    turbo,
                    now,
                ),
            ) && final(self)@.context->0.config.format == surface_format && plan@
                == startup_commands(NUM_FRAMES as nat, final(self)@.context->0.config),
    {
        if self.context.is_none() {
            let (context, plan) = Context::new(
                width,
                height,
                surface_format,
                surface_usage,
                turbo,
                now,
            );
            self.context = Some(context);
            plan
        } else {
            Vec::new()
        }
    }

    /// Handles a window event and returns the commands that it asks for. A
    /// resize goes to the render context, and a redraw begins a frame there;
    /// a fresh press of Escape and a close request leave the event loop; a
    /// fresh press of F11 toggles fullscreen. There is a render context.
    pub fn window_event(&mut self, event: WindowEvent) -> (plan: Vec<Command>)
        requires
            old(self).wf(),
            old(self)@.context is Some,
        ensures
            final(self)@ == old(self)@.spec_window_event(event),
            final(self).wf(),
            plan@ == old(self)@.event_commands(event),
    {
        let mut plan: Vec<Command> = Vec::new();
        match &mut self.context {
            Some(context) => {
                match event {
                    WindowEvent::Resized { width, height } => {
                        plan = context.resize(width, height);
                    },
                    WindowEvent::RedrawRequested { points } => {
                        plan = context.redraw(points);
                    },
                    WindowEvent::KeyboardInput { key, pressed, repeat, fullscreen } => {
                        if pressed && !repeat {
                            match key {
                                Key::Escape => {
                                    plan.push(Command::Exit);
                                },
                                Key::F11 => {
                                    plan.push(context.toggle_fullscreen(fullscreen));
                                },
                                Key::Other => {},
                            }
                        }
                    },
                    WindowEvent::CloseRequested => {
                        plan.push(Command::Exit);
                    },
                    WindowEvent::Other => {},
                }
            },
            None => {},
        }
        plan
    }

    /// Goes on with the frame that a redraw began, now that the request for
    /// the surface image has ended in `outcome`: what `Context::frame_acquired`
    /// decides. There is a render context, and a frame is not rendered before
    /// the frame drawn last.
    pub fn frame_acquired(&mut self, now: u64, outcome: Acquisition) -> (result: Result<
        Vec<Command>,
        SurfaceError,
    >)
        requires
            old(self).wf(),
            old(self)@.context is Some,
            outcome is Acquired ==> old(self)@.context->0.timing.time_last_draw <= now,
        ensures
            final(self)@.context == Some(
                old(self)@.context->0.spec_step(
                    now,
                    spec_frame_step(outcome, old(self)@.context->0.retried),
                ),
            ),
            final(self).wf(),
            match result {
                Ok(plan) => {
                    &&& spec_frame_step(outcome, old(self)@.context->0.retried) !is Fail
                    &&& plan@ == old(self)@.context->0.step_commands(
                        now,
                        spec_frame_step(outcome, old(self)@.context->0.retried),
                    )
                },
                Err(error) => {
                    &&& spec_frame_step(outcome, old(self)@.context->0.retried) == (FrameStep::Fail {
                        error,
                    })
                    &&& outcome == (Acquisition::Failed { error })
                },
            },
    {
        match &mut self.context {
            Some(context) => context.frame_acquired(now, outcome),
            None => Ok(Vec::new()),
        }
    }

    /// Ends the application: tears the render context down, if there is one,
    /// and returns the commands that release what it holds.
    pub fn shutdown(&mut self) -> (plan: Vec<Command>)
        ensures
            final(self)@.context is None,
            final(self).wf(),
            old(self)@.context matches Some(context) ==> plan@ == teardown_commands(
                context.pool.slots.len(),
            ),
            old(self)@.context is None ==> plan@ == Seq::<Command>::empty(),
    {
        match self.context.take() {
            Some(context) => context.teardown(),
            None => Vec::new(),
        }
    }

    /// The render context, if there is one.
    pub fn context(&self) -> (context: Option<&Context>)
        ensures
            context is Some == self@.context is Some,
            context matches Some(c) ==> c@ == self@.context->0,
    {
        self.context.as_ref()
    }
}

} // verus!
