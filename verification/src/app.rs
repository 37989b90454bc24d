//! Window dimensions, the input that the demos read, and the decisions of
//! the event loop.

use vstd::prelude::*;

verus! {

/// Size of the window's drawable area, in physical pixels.
#[derive(Clone, Copy, Debug, PartialEq, Eq, Structural)]
pub struct Dimensions {
    pub width: u32,
    pub height: u32,
}

impl Dimensions {
    pub fn new(width: u32, height: u32) -> (dimensions: Self)
        ensures
            dimensions.width == width,
            dimensions.height == height,
    {
        Self { width, height }
    }
}

impl Default for Dimensions {
    fn default() -> (dimensions: Self)
        ensures
            dimensions == (Dimensions { width: 0, height: 0 }),
    {
        Dimensions { width: 0, height: 0 }
    }
}

/// The keys that the library reads.
#[derive(Clone, Copy, Debug, PartialEq, Eq, Structural)]
pub enum Key {
    W,
    A,
    S,
    D,
    LeftShift,
    Space,
    Escape,
    /// Any other key.
    Other,
}

/// The mouse buttons.
#[derive(Clone, Copy, Debug, PartialEq, Eq, Structural)]
pub enum MouseButton {
    Left,
    Right,
    /// Any other button.
    Other,
}

/// Which of the movement keys are held down.
#[derive(Clone, Copy, Debug, PartialEq, Eq, Structural)]
pub struct KeyStates {
    pub w: bool,
    pub a: bool,
    pub s: bool,
    pub d: bool,
    pub left_shift: bool,
    pub space: bool,
}

/// The state of the mouse. The offset is that of the window's center from
/// the cursor, in whole pixels.
#[derive(Clone, Copy, Debug, PartialEq, Eq, Structural)]
pub struct Mouse {
    pub is_left_clicked: bool,
    pub is_right_clicked: bool,
    pub offset_x: i64,
    pub offset_y: i64,
    pub moved: bool,
}

/// Keyboard and mouse.
#[derive(Clone, Copy, Debug, PartialEq, Eq, Structural)]
pub struct Input {
    pub keystates: KeyStates,
    pub mouse: Mouse,
}

/// What the demos read of the application between two events.
#[derive(Clone, Copy, Debug, PartialEq, Eq, Structural)]
pub struct AppState {
    pub window_dimensions: Dimensions,
    pub input: Input,
}

/// What the window system reports.
#[derive(Clone, Copy, Debug, PartialEq, Eq, Structural)]
pub enum AppEvent {
    /// A new batch of events begins.
    NewEvents,
    /// The window is asked to close.
    CloseRequested,
    /// A key went down or up.
    KeyboardInput { key: Key, pressed: bool },
    /// The window has a new size.
    Resized { width: u32, height: u32 },
    /// A mouse button went down or up.
    MouseInput { button: MouseButton, pressed: bool },
    /// The cursor is at pixel (`x`, `y`) of the window.
    CursorMoved { x: i32, y: i32 },
    /// All events of the batch were handed over.
    MainEventsCleared,
    /// The window wants to be drawn.
    RedrawRequested,
}

/// What the event loop does after an event.
#[derive(Clone, Copy, Debug, PartialEq, Eq, Structural)]
pub enum AppAction {
    /// Go on polling.
    Poll,
    /// Update the application with the time since the last update.
    Update,
    /// Ask the window for a redraw.
    RequestRedraw,
    /// Draw a frame.
    Draw,
    /// Leave the event loop.
    Exit,
}

impl KeyStates {
    /// The states after `key` went down (`pressed`) or up.
    pub open spec fn with_key(self, key: Key, pressed: bool) -> Self {
        match key {
            Key::W => KeyStates { w: pressed, ..self },
            Key::A => KeyStates { a: pressed, ..self },
            Key::S => KeyStates { s: pressed, ..self },
            Key::D => KeyStates { d: pressed, ..self },
            Key::LeftShift => KeyStates { left_shift: pressed, ..self },
            Key::Space => KeyStates { space: pressed, ..self },
            Key::Escape => self,
            Key::Other => self,
        }
    }

    /// Whether `key` is held down. Only the movement keys are tracked.
    pub open spec fn spec_is_key_pressed(&self, key: Key) -> bool {
        match key {
            Key::W => self.w,
            Key::A => self.a,
            Key::S => self.s,
            Key::D => self.d,
            Key::LeftShift => self.left_shift,
            Key::Space => self.space,
            Key::Escape => false,
            Key::Other => false,
        }
    }

    /// Whether `key` is held down. Only the movement keys are tracked.
    #[verifier::when_used_as_spec(spec_is_key_pressed)]
    pub fn is_key_pressed(&self, key: Key) -> (pressed: bool)
        ensures
            pressed == self.spec_is_key_pressed(key),
    {
        match key {
            Key::W => self.w,
            Key::A => self.a,
            Key::S => self.s,
            Key::D => self.d,
            Key::LeftShift => self.left_shift,
            Key::Space => self.space,
            Key::Escape => false,
            Key::Other => false,
        }
    }
}

/// The pixel at the center of a window of size `dimensions`.
pub open spec fn center_of(dimensions: Dimensions) -> (int, int) {
    (dimensions.width as int / 2, dimensions.height as int / 2)
}

/// The state after `event` and what the event loop does then.
///
/// A close request and the escape key leave the loop. A resize is taken
/// over as the new window dimensions. When the batch of events is over, a
/// redraw is asked for, and the redraw draws the frame.
pub open spec fn handle(state: AppState, event: AppEvent) -> (AppState, AppAction) {
    match event {
        AppEvent::NewEvents => (state, AppAction::Update),
        AppEvent::CloseRequested => (state, AppAction::Exit),
        AppEvent::KeyboardInput { key, pressed } => (
            AppState {
                input: Input { keystates: state.input.keystates.with_key(key, pressed), ..state.input },
                ..state
            },
            if key == Key::Escape {
                AppAction::Exit
            } else {
                AppAction::Poll
            },
        ),
        AppEvent::Resized { width, height } => (
            AppState { window_dimensions: Dimensions { width, height }, ..state },
            AppAction::Poll,
        ),
        AppEvent::MouseInput { button, pressed } => (
            AppState {
                input: Input {
                    mouse: match button {
                        MouseButton::Left => Mouse { is_left_clicked: pressed, ..state.input.mouse },
                        MouseButton::Right => Mouse { is_right_clicked: pressed, ..state.input.mouse },
                        MouseButton::Other => state.input.mouse,
                    },
                    ..state.input
                },
                ..state
            },
            AppAction::Poll,
        ),
        AppEvent::CursorMoved { x, y } => (
            AppState {
                input: Input {
                    mouse: Mouse {
                        offset_x: (center_of(state.window_dimensions).0 - x) as i64,
                        offset_y: (center_of(state.window_dimensions).1 - y) as i64,
                        moved: true,
                        ..state.input.mouse
                    },
                    ..state.input
                },
                ..state
            },
            AppAction::Poll,
        ),
        AppEvent::MainEventsCleared => (
            AppState {
                input: Input { mouse: Mouse { moved: false, ..state.input.mouse }, ..state.input },
                ..state
            },
            AppAction::RequestRedraw,
        ),
        AppEvent::RedrawRequested => (state, AppAction::Draw),
    }
}

impl AppState {
    /// The state of a window of size `window_dimensions` with no key or
    /// button down and the cursor at the center.
    pub fn new(window_dimensions: Dimensions) -> (state: Self)
        ensures
            state == (AppState {
                window_dimensions,
                input: Input {
                    keystates: KeyStates {
                        w: false,
                        a: false,
                        s: false,
                        d: false,
                        left_shift: false,
                        space: false,
                    },
                    mouse: Mouse {
                        is_left_clicked: false,
                        is_right_clicked: false,
                        offset_x: 0,
                        offset_y: 0,
                        moved: false,
                    },
                },
            }),
    {
        AppState {
            window_dimensions,
            input: Input {
                keystates: KeyStates {
                    w: false,
                    a: false,
                    s: false,
                    d: false,
                    left_shift: false,
                    space: false,
                },
                mouse: Mouse {
                    is_left_clicked: false,
                    is_right_clicked: false,
                    offset_x: 0,
                    offset_y: 0,
                    moved: false,
                },
            },
        }
    }

    /// The pixel at the center of the window.
    pub fn window_center(&self) -> (center: (i32, i32))
        ensures
            (center.0 as int, center.1 as int) == center_of(self.window_dimensions),
    {
        ((self.window_dimensions.width / 2) as i32, (self.window_dimensions.height / 2) as i32)
    }

    /// Takes `event` and says what the event loop does next, as `handle` has
    /// it.
    pub fn handle_event(&mut self, event: AppEvent) -> (action: AppAction)
        ensures
            (*final(self), action) == handle(*old(self), event),
    {
        match event {
            AppEvent::NewEvents => AppAction::Update,
            AppEvent::CloseRequested => AppAction::Exit,
            AppEvent::KeyboardInput { key, pressed } => {
                match key {
                    Key::W => {
                        self.input.keystates.w = pressed;
                    },
                    Key::A => {
                        self.input.keystates.a = pressed;
                    },
                    Key::S => {
                        self.input.keystates.s = pressed;
                    },
                    Key::D => {
                        self.input.keystates.d = pressed;
                    },
                    Key::LeftShift => {
                        self.input.keystates.left_shift = pressed;
                    },
                    Key::Space => {
                        self.input.keystates.space = pressed;
                    },
                    Key::Escape => {
                        return AppAction::Exit;
                    },
                    Key::Other => {},
                }
                AppAction::Poll
            },
            AppEvent::Resized { width, height } => {
                self.window_dimensions = Dimensions::new(width, height);
                AppAction::Poll
            },
            AppEvent::MouseInput { button, pressed } => {
                match button {
                    MouseButton::Left => {
                        self.input.mouse.is_left_clicked = pressed;
                    },
                    MouseButton::Right => {
                        self.input.mouse.is_right_clicked = pressed;
                    },
                    MouseButton::Other => {},
                }
                AppAction::Poll
            },
            AppEvent::CursorMoved { x, y } => {
                let center = self.window_center();
                self.input.mouse.offset_x = center.0 as i64 - x as i64;
                self.input.mouse.offset_y = center.1 as i64 - y as i64;
                self.input.mouse.moved = true;
                AppAction::Poll
            },
            AppEvent::MainEventsCleared => {
                self.input.mouse.moved = false;
                AppAction::RequestRedraw
            },
            AppEvent::RedrawRequested => AppAction::Draw,
        }
    }
}

} // verus!
