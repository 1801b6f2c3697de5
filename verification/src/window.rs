//! How the window is asked for, and what its events mean to a context.

use vstd::prelude::*;
use crate::context::{Context, FramePhase};
use crate::image::Image;
use crate::prim::{Dimensions, Point};
use crate::frame_laws::{after_step, Step};
use crate::state::{button_pressed, key_after, known, KeyEvent, MouseButton, State};

verus! {

/// How a window may change its size.
#[derive(Clone, Copy, Debug, PartialEq, Eq, Structural)]
pub enum WindowSizing {
    NonResizable,
    Resizable,
    Fullscreen,
}

/// What an application asks its window to be.
#[derive(Clone, Debug, PartialEq, Eq)]
pub struct WindowConfig {
    pub title: String,
    /// The inner size in pixels.
    pub resolution: Dimensions,
    pub fullscreen: bool,
    /// The element to draw into, where the window is part of a page.
    pub canvas_id: Option<String>,
    pub disable_decorations: bool,
    pub icon: Option<Image>,
    pub resizeable: bool,
}

/// The smallest inner size a window is allowed, each side in pixels.
pub const MIN_INNER_SIZE: u32 = 40;

/// What the window system is asked for.
#[derive(Clone, Debug, PartialEq, Eq)]
pub struct WindowAttributes {
    pub title: String,
    /// Borderless fullscreen on the current monitor.
    pub fullscreen: bool,
    pub resizable: bool,
    pub decorations: bool,
    /// The smallest inner size, in pixels.
    pub min_width: u32,
    pub min_height: u32,
    /// The inner size, in pixels.
    pub width: u32,
    pub height: u32,
}

impl WindowConfig {
    /// The configuration every application starts from.
    pub fn new() -> (out: WindowConfig)
        ensures
            out.title@ == "Purple Application"@,
            out.resolution == (Dimensions { width: 960, height: 540 }),
            !out.fullscreen,
            out.canvas_id matches Some(id) && id@ == "canvas"@,
            !out.disable_decorations,
            out.icon is None,
            out.resizeable,
    {
        WindowConfig {
            title: "Purple Application".to_string(),
            resolution: Dimensions { width: 960, height: 540 },
            fullscreen: false,
            canvas_id: Some("canvas".to_string()),
            disable_decorations: false,
            icon: None,
            resizeable: true,
        }
    }

    pub fn with_title(self, title: String) -> (out: WindowConfig)
        ensures
            out == (WindowConfig { title, ..self }),
    {
        WindowConfig { title, ..self }
    }

    pub fn with_resolution(self, resolution: Dimensions) -> (out: WindowConfig)
        ensures
            out == (WindowConfig { resolution, ..self }),
    {
        WindowConfig { resolution, ..self }
    }

    pub fn with_fullscreen(self, fullscreen: bool) -> (out: WindowConfig)
        ensures
            out == (WindowConfig { fullscreen, ..self }),
    {
        WindowConfig { fullscreen, ..self }
    }

    pub fn with_canvas_id(self, canvas_id: String) -> (out: WindowConfig)
        ensures
            out == (WindowConfig { canvas_id: Some(canvas_id), ..self }),
    {
        WindowConfig { canvas_id: Some(canvas_id), ..self }
    }

    pub fn with_icon(self, icon: Option<Image>) -> (out: WindowConfig)
        ensures
            out == (WindowConfig { icon, ..self }),
    {
        WindowConfig { icon, ..self }
    }

    pub fn with_resizable(self, resizeable: bool) -> (out: WindowConfig)
        ensures
            out == (WindowConfig { resizeable, ..self }),
    {
        WindowConfig { resizeable, ..self }
    }

    pub fn with_decorations(self, decorations: bool) -> (out: WindowConfig)
        ensures
            out == (WindowConfig { disable_decorations: !decorations, ..self }),
    {
        WindowConfig { disable_decorations: !decorations, ..self }
    }

    /// What the window system is asked for under this configuration.
    pub fn attributes(&self) -> (out: WindowAttributes)
        ensures
            out.title@ == self.title@,
            out.fullscreen == self.fullscreen,
            out.resizable == self.resizeable,
            out.decorations == !self.disable_decorations,
            out.min_width == MIN_INNER_SIZE,
            out.min_height == MIN_INNER_SIZE,
            (out.width, out.height) == self.resolution.clamped(),
    {
        let (width, height) = self.resolution.to_pixels();
        WindowAttributes {
            title: self.title.clone(),
            fullscreen: self.fullscreen,
            resizable: self.resizeable,
            decorations: !self.disable_decorations,
            min_width: MIN_INNER_SIZE,
            min_height: MIN_INNER_SIZE,
            width,
            height,
        }
    }
}

impl Default for WindowConfig {
    fn default() -> (out: WindowConfig)
        ensures
            out.title@ == "Purple Application"@,
            out.resolution == (Dimensions { width: 960, height: 540 }),
            !out.fullscreen,
            out.canvas_id matches Some(id) && id@ == "canvas"@,
            !out.disable_decorations,
            out.icon is None,
            out.resizeable,
    {
        WindowConfig::new()
    }
}

/// What the window reports.
#[derive(Clone, Copy, Debug, PartialEq, Eq, Structural)]
pub enum WindowEvent {
    RedrawRequested,
    CloseRequested,
    /// The inner size is now this many pixels.
    Resized { width: u32, height: u32 },
    CursorMoved(Point),
    CursorLeft,
    KeyboardInput(KeyEvent),
    MouseInput { button: MouseButton, pressed: bool },
    /// The wheel turned, across and down.
    MouseWheel { x: i64, y: i64 },
    Other,
}

/// What the shell is to do after an event.
#[derive(Clone, Copy, Debug, PartialEq, Eq, Structural)]
pub enum WindowAction {
    Nothing,
    /// Run the application's frame callback, begin the frame with
    /// `State::update`, render, and ask for the next redraw; then leave the
    /// event loop if the state says so.
    Redraw,
    /// Take the window out of its maximized state: it is not to be resized.
    Unmaximize,
    /// The surface manager has a new generation of resources, which are to
    /// be made.
    Rebuild,
}

/// What the shell is to do after an event, given whether the window may be
/// resized and where the frame stands.
pub open spec fn window_action(event: WindowEvent, resizable: bool, phase: FramePhase) -> WindowAction {
    match event {
        WindowEvent::RedrawRequested => WindowAction::Redraw,
        WindowEvent::Resized { width, height } => if !resizable {
            WindowAction::Unmaximize
        } else if phase == FramePhase::Idle {
            WindowAction::Rebuild
        } else {
            WindowAction::Nothing
        },
        _ => WindowAction::Nothing,
    }
}

/// The buttons after one of them went down or up; a button that is not one
/// of the three leaves all three.
pub open spec fn buttons_after(state: State, button: MouseButton, pressed: bool) -> State {
    match button {
        MouseButton::Left => State {
            mouse_left: button_pressed(state.mouse_left, pressed),
            ..state
        },
        MouseButton::Right => State {
            mouse_right: button_pressed(state.mouse_right, pressed),
            ..state
        },
        MouseButton::Middle => State {
            mouse_middle: button_pressed(state.mouse_middle, pressed),
            ..state
        },
        MouseButton::Other => state,
    }
}

impl Context {
    /// Takes an event of the window. `resizable` says whether the window may
    /// change its size. Each event changes what it is about and nothing
    /// else: a new size goes the way of `resize` where the window may be
    /// resized, a key changes the keys, a button the buttons, the pointer
    /// and the wheel their fields, a request to close sets `exiting`.
    pub fn window_event(&mut self, event: WindowEvent, resizable: bool) -> (action: WindowAction)
        ensures
            action == window_action(event, resizable, old(self).phase),
            final(self).scene == old(self).scene,
            final(self).driver() == (match event {
                WindowEvent::Resized { width, height } if resizable => after_step(
                    old(self).driver(),
                    Step::Resize { width, height },
                ),
                _ => old(self).driver(),
            }),
            match event {
                WindowEvent::Resized { width, height } => final(self).state == (if resizable {
                    State {
                        resolution: Dimensions { width: width as i64, height: height as i64 },
                        ..old(self).state
                    }
                } else {
                    old(self).state
                }),
                WindowEvent::CloseRequested => final(self).state == (State {
                    exiting: true,
                    ..old(self).state
                }),
                WindowEvent::CursorMoved(at) => final(self).state == (State {
                    mouse: Some(at),
                    ..old(self).state
                }),
                WindowEvent::CursorLeft => final(self).state == (State {
                    mouse: None,
                    ..old(self).state
                }),
                WindowEvent::MouseWheel { x, y } => final(self).state == (State {
                    wheel: y,
                    wheel_x: x,
                    ..old(self).state
                }),
                WindowEvent::KeyboardInput(key) => {
                    &&& final(self).state == (State {
                        keys: final(self).state.keys,
                        ..old(self).state
                    })
                    &&& final(self).state.keys@ == (match key.key {
                        Some(code) => old(self).state.keys@.insert(
                            code,
                            key_after(known(old(self).state.keys@, code), key.pressed, key.repeat),
                        ),
                        None => old(self).state.keys@,
                    })
                },
                WindowEvent::MouseInput { button, pressed } => final(self).state == buttons_after(
                    old(self).state,
                    button,
                    pressed,
                ),
                _ => final(self).state == old(self).state,
            },
    {
        match event {
            WindowEvent::RedrawRequested => WindowAction::Redraw,
            WindowEvent::CloseRequested => {
                self.state.exiting = true;
                WindowAction::Nothing
            },
            WindowEvent::Resized { width, height } => {
                if !resizable {
                    WindowAction::Unmaximize
                } else if self.resize(width, height) {
                    WindowAction::Rebuild
                } else {
                    WindowAction::Nothing
                }
            },
            WindowEvent::CursorMoved(at) => {
                self.state.mouse = Some(at);
                WindowAction::Nothing
            },
            WindowEvent::CursorLeft => {
                self.state.mouse = None;
                WindowAction::Nothing
            },
            WindowEvent::KeyboardInput(key) => {
                self.state.keyboard_event(key);
                WindowAction::Nothing
            },
            WindowEvent::MouseInput { button, pressed } => {
                self.state.button_event(button, pressed);
                WindowAction::Nothing
            },
            WindowEvent::MouseWheel { x, y } => {
                self.state.wheel = y;
                self.state.wheel_x = x;
                WindowAction::Nothing
            },
            WindowEvent::Other => WindowAction::Nothing,
        }
    }
}

} // verus!
