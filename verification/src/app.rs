//! The life of the window, as far as the renderer decides it: when a window
//! is asked for, what an event leads to, and what a redraw paints.
//!
//! The platform does the rest. It creates the window, delivers the events,
//! lends the pixel buffer and shows it; each step here takes what the
//! platform reported and says what to do next.

use vstd::prelude::*;
use crate::font::Glyph;
use crate::frame::{frame_pixel, render_glyphs};
use crate::geometry::{Placement, Position, Size};
use crate::raster::{column_of, row_of};

verus! {

/// The renderer's state: before the first window, or with a window whose
/// place in the world is known.
#[derive(Clone, Copy, Debug, PartialEq, Eq, Structural)]
pub enum App {
    /// No window yet; nothing is drawn.
    Uninitialized,
    /// The window exists. `window_position` is where it was last seen, and
    /// `monitor_size` the size of the monitor as it was at the start.
    Active { window_position: Position, monitor_size: Size },
}

/// What the platform reports about the window.
#[derive(Clone, Copy, Debug, PartialEq, Eq, Structural)]
pub enum Event {
    /// The user asked to close the window.
    CloseRequested,
    /// The window has to be painted again.
    RedrawRequested,
    /// The window was moved to this position.
    Moved(Position),
    /// Anything else.
    Other,
}

/// What the platform is to do after a step.
#[derive(Clone, Copy, Debug, PartialEq, Eq, Structural)]
pub enum Action {
    /// Leave the event loop.
    Exit,
    /// Create the window, after [`WindowPlan::for_monitor`] for the first of
    /// the monitors, and report it with [`App::activate`].
    CreateWindow,
    /// Lend a buffer of the window's size, have it painted by
    /// [`App::redraw`], and show it.
    Redraw,
    /// Nothing.
    Nothing,
}

/// The window that the platform is asked to create.
#[derive(Clone, Copy, Debug, PartialEq, Eq, Structural)]
pub struct WindowPlan {
    /// Size of the window's interior.
    pub size: Size,
    /// Whether the user may resize the window.
    pub resizable: bool,
}

impl WindowPlan {
    /// The window for a monitor of `monitor_size`: half as wide and half as
    /// high as the monitor, and of fixed size.
    pub fn for_monitor(monitor_size: Size) -> (plan: WindowPlan)
        ensures
            plan.size.width == monitor_size.width / 2,
            plan.size.height == monitor_size.height / 2,
            !plan.resizable,
    {
        WindowPlan { size: monitor_size.half(), resizable: false }
    }
}

impl App {
    /// The state before the first window.
    pub fn new() -> (app: App)
        ensures
            app == App::Uninitialized,
    {
        App::Uninitialized
    }

    /// Whether the window exists.
    pub fn is_active(&self) -> (active: bool)
        ensures
            active == (*self is Active),
    {
        match self {
            App::Uninitialized => false,
            App::Active { .. } => true,
        }
    }

    /// The platform is ready for windows. Before the first window this asks
    /// for one, to be made after [`WindowPlan::for_monitor`]; once the window
    /// exists it asks for nothing.
    pub fn resumed(&self) -> (action: Action)
        ensures
            action == (if *self is Uninitialized {
                Action::CreateWindow
            } else {
                Action::Nothing
            }),
    {
        match self {
            App::Uninitialized => Action::CreateWindow,
            App::Active { .. } => Action::Nothing,
        }
    }

    /// The window that [`App::resumed`] asked for was created on a monitor
    /// of `monitor_size`, and `queried` is its position, or `None` where the
    /// platform cannot tell, which stands for the origin. The renderer is
    /// active from now on and wants a first frame. Once active, nothing
    /// changes any more.
    pub fn activate(&mut self, monitor_size: Size, queried: Option<Position>) -> (action: Action)
        ensures
            *final(self) == match *old(self) {
                App::Uninitialized => App::Active {
                    window_position: match queried {
                        Some(p) => p,
                        None => (Position { x: 0, y: 0 }),
                    },
                    monitor_size,
                },
                App::Active { window_position, monitor_size } => *old(self),
            },
            action == (if *old(self) is Uninitialized {
                Action::Redraw
            } else {
                Action::Nothing
            }),
    {
        match self {
            App::Uninitialized => {
                *self = App::Active { window_position: Position::or_origin(queried), monitor_size };
                Action::Redraw
            },
            App::Active { .. } => Action::Nothing,
        }
    }

    /// One event of the window. A request to close ends the loop. While the
    /// window exists, a request to redraw leads to a redraw, and a move is
    /// taken note of and leads to a redraw too. Everything else, and every
    /// redraw or move before the window exists, leads to nothing.
    pub fn window_event(&mut self, event: Event) -> (action: Action)
        ensures
            *final(self) == match (*old(self), event) {
                (App::Active { window_position, monitor_size }, Event::Moved(position)) => (
                App::Active { window_position: position, monitor_size }),
                _ => *old(self),
            },
            action == match event {
                Event::CloseRequested => Action::Exit,
                Event::RedrawRequested | Event::Moved(_) => if *old(self) is Active {
                    Action::Redraw
                } else {
                    Action::Nothing
                },
                Event::Other => Action::Nothing,
            },
    {
        match event {
            Event::CloseRequested => Action::Exit,
            Event::RedrawRequested => {
                if self.is_active() {
                    Action::Redraw
                } else {
                    Action::Nothing
                }
            },
            Event::Moved(position) => {
                match self {
                    App::Uninitialized => Action::Nothing,
                    App::Active { window_position: _, monitor_size } => {
                        let monitor_size = *monitor_size;
                        *self = App::Active { window_position: position, monitor_size };
                        Action::Redraw
                    },
                }
            },
            Event::Other => Action::Nothing,
        }
    }

    /// Paints a frame into the buffer of a window of `window_size`. The
    /// position that the platform reports now, `queried`, replaces the one
    /// that was kept, and `None`, where the platform cannot tell, stands for
    /// the origin. Before the window exists nothing is painted and the
    /// buffer stays as it is. Returns whether a frame was painted.
    pub fn redraw(
        &mut self,
        buffer: &mut [u32],
        window_size: Size,
        queried: Option<Position>,
        glyphs: &[Glyph],
        placement: Placement,
    ) -> (painted: bool)
        requires
            old(buffer)@.len() == window_size.area(),
        ensures
            painted == (*old(self) is Active),
            final(buffer)@.len() == old(buffer)@.len(),
            match *old(self) {
                App::Uninitialized => *final(self) == *old(self) && final(buffer)@ == old(
                    buffer,
                )@,
                App::Active { window_position, monitor_size } => {
                    let position = match queried {
                        Some(p) => p,
                        None => (Position { x: 0, y: 0 }),
                    };
                    &&& *final(self) == (App::Active { window_position: position, monitor_size })
                    &&& forall|i: int|
                        0 <= i < old(buffer)@.len() ==> #[trigger] final(buffer)@[i]
                            == frame_pixel(
                            position,
                            monitor_size,
                            glyphs@,
                            placement,
                            column_of(i, window_size.width as int),
                            row_of(i, window_size.width as int),
                        )
                },
            },
    {
        match self {
            App::Uninitialized => false,
            App::Active { window_position: _, monitor_size } => {
                let monitor_size = *monitor_size;
                let position = Position::or_origin(queried);
                *self = App::Active { window_position: position, monitor_size };
                render_glyphs(buffer, window_size, position, monitor_size, glyphs, placement);
                true
            },
        }
    }
}

} // verus!
