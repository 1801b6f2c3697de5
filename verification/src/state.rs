//! What the shell knows of time, pointer and keys between two frames.

use std::collections::HashMap;
use vstd::prelude::*;
use vstd::std_specs::iter::IteratorSpec;
use crate::prim::{Dimensions, Point};

verus! {

/// A key, as seen over the frames: the three edge flags hold for one frame,
/// `is_down` until the key is released.
#[derive(Clone, Copy, Debug, Default, PartialEq, Eq, Structural)]
pub struct KeyState {
    pub on_pressed: bool,
    pub on_released: bool,
    pub on_typed: bool,
    pub is_down: bool,
}

/// A mouse button, as seen over the frames.
#[derive(Clone, Copy, Debug, Default, PartialEq, Eq, Structural)]
pub struct ButtonState {
    pub on_pressed: bool,
    pub on_released: bool,
    pub is_down: bool,
}

/// The buttons of a mouse.
#[derive(Clone, Copy, Debug, PartialEq, Eq, Structural)]
pub enum MouseButton {
    Left,
    Right,
    Middle,
    Other,
}

/// A key went down or up. `key` is the code of the physical key, `None`
/// where the window system could not tell which key it was.
#[derive(Clone, Copy, Debug, PartialEq, Eq, Structural)]
pub struct KeyEvent {
    pub key: Option<u32>,
    pub pressed: bool,
    pub repeat: bool,
}

/// Frame time, pointer and keys.
#[derive(Clone, Debug, PartialEq, Eq)]
pub struct State {
    /// The size of the window in pixels.
    pub resolution: Dimensions,
    /// How long the last frame took, in nanoseconds.
    pub delta: u64,
    /// Where the pointer is, while it is over the window.
    pub mouse: Option<Point>,
    /// The keys seen so far, by the code of the key.
    pub keys: HashMap<u32, KeyState>,
    /// How far the wheel turned in this frame, down and across.
    pub wheel: i64,
    pub wheel_x: i64,
    pub mouse_left: ButtonState,
    pub mouse_right: ButtonState,
    pub mouse_middle: ButtonState,
    /// Set once the window was asked to close.
    pub exiting: bool,
    /// When the last frame began, in nanoseconds of a clock that never goes
    /// back.
    pub last_time: u64,
}

/// A key that was never seen.
pub open spec fn idle_key() -> KeyState {
    KeyState { on_pressed: false, on_released: false, on_typed: false, is_down: false }
}

/// A button that was never seen.
pub open spec fn idle_button() -> ButtonState {
    ButtonState { on_pressed: false, on_released: false, is_down: false }
}

/// The state of a key after an event, given what was known of it before.
pub open spec fn key_after(before: Option<KeyState>, pressed: bool, repeat: bool) -> KeyState {
    match before {
        Some(_) => KeyState {
            on_pressed: pressed && !repeat,
            on_released: !pressed,
            on_typed: repeat || (pressed && !repeat),
            is_down: pressed,
        },
        None => KeyState {
            on_pressed: pressed,
            on_released: !pressed,
            on_typed: repeat || pressed,
            is_down: pressed,
        },
    }
}

/// A key at the start of a frame: what held for one frame is over.
pub open spec fn key_settled(key: KeyState) -> KeyState {
    KeyState { on_pressed: false, on_released: false, on_typed: false, is_down: key.is_down }
}

/// A button at the start of a frame.
pub open spec fn button_settled(button: ButtonState) -> ButtonState {
    ButtonState { on_pressed: false, on_released: false, is_down: button.is_down }
}

/// What is known of a key: its state, `None` where it was never seen.
pub open spec fn known(keys: Map<u32, KeyState>, code: u32) -> Option<KeyState> {
    if keys.contains_key(code) {
        Some(keys[code])
    } else {
        None
    }
}

/// The keys with every state settled: the same keys, each at the start of a
/// frame.
pub open spec fn settled_keys(keys: Map<u32, KeyState>) -> Map<u32, KeyState> {
    Map::new(|code: u32| keys.contains_key(code), |code: u32| key_settled(keys[code]))
}

impl State {
    /// Whether nothing has happened yet in a window of the given size whose
    /// first frame begins at `now`.
    pub open spec fn is_fresh(&self, resolution: Dimensions, now: u64) -> bool {
        &&& self.resolution == resolution
        &&& self.delta == 0
        &&& self.mouse is None
        &&& self.keys@ == Map::<u32, KeyState>::empty()
        &&& self.wheel == 0
        &&& self.wheel_x == 0
        &&& self.mouse_left == idle_button()
        &&& self.mouse_right == idle_button()
        &&& self.mouse_middle == idle_button()
        &&& !self.exiting
        &&& self.last_time == now
    }

    /// The state of a window of the given size before its first frame,
    /// which begins at `now`.
    pub fn new(resolution: Dimensions, now: u64) -> (out: State)
        ensures
            out.is_fresh(resolution, now),
    {
        State {
            resolution,
            delta: 0,
            mouse: None,
            keys: HashMap::new(),
            wheel: 0,
            wheel_x: 0,
            mouse_left: ButtonState { on_pressed: false, on_released: false, is_down: false },
            mouse_right: ButtonState { on_pressed: false, on_released: false, is_down: false },
            mouse_middle: ButtonState { on_pressed: false, on_released: false, is_down: false },
            exiting: false,
            last_time: now,
        }
    }

    /// Begins a frame at `now`: measures the frame before it and ends what
    /// lasts for one frame only, the edge flags of keys and buttons and the
    /// turn of the wheel. A clock that went back measures zero.
    pub fn update(&mut self, now: u64)
        ensures
            final(self).delta == (if now >= old(self).last_time {
                now - old(self).last_time
            } else {
                0
            }),
            final(self).last_time == now,
            final(self).keys@ == settled_keys(old(self).keys@),
            final(self).mouse_left == button_settled(old(self).mouse_left),
            final(self).mouse_right == button_settled(old(self).mouse_right),
            final(self).mouse_middle == button_settled(old(self).mouse_middle),
            final(self).wheel == 0 && final(self).wheel_x == 0,
            final(self).resolution == old(self).resolution,
            final(self).mouse == old(self).mouse,
            final(self).exiting == old(self).exiting,
    {
        self.delta = if now >= self.last_time { now - self.last_time } else { 0 };
        self.last_time = now;
        settle(&mut self.keys);
        self.mouse_left.on_pressed = false;
        self.mouse_left.on_released = false;
        self.mouse_right.on_pressed = false;
        self.mouse_right.on_released = false;
        self.mouse_middle.on_pressed = false;
        self.mouse_middle.on_released = false;
        self.wheel = 0;
        self.wheel_x = 0;
    }

    /// Takes a key event. An event without a key code changes nothing.
    pub fn keyboard_event(&mut self, event: KeyEvent)
        ensures
            final(self).keys@ == (match event.key {
                Some(code) => old(self).keys@.insert(
                    code,
                    key_after(known(old(self).keys@, code), event.pressed, event.repeat),
                ),
                None => old(self).keys@,
            }),
            final(self).resolution == old(self).resolution,
            final(self).delta == old(self).delta,
            final(self).last_time == old(self).last_time,
            final(self).mouse == old(self).mouse,
            final(self).wheel == old(self).wheel,
            final(self).wheel_x == old(self).wheel_x,
            final(self).mouse_left == old(self).mouse_left,
            final(self).mouse_right == old(self).mouse_right,
            final(self).mouse_middle == old(self).mouse_middle,
            final(self).exiting == old(self).exiting,
    {
        broadcast use vstd::std_specs::hash::group_hash_axioms;

        let code = match event.key {
            Some(code) => code,
            None => {
                return ;
            },
        };
        let after = match self.keys.get(&code) {
            Some(_) => {
                let on_pressed = event.pressed && !event.repeat;
                KeyState {
                    on_pressed,
                    on_released: !event.pressed,
                    on_typed: event.repeat || on_pressed,
                    is_down: event.pressed,
                }
            },
            None => KeyState {
                on_pressed: event.pressed,
                on_released: !event.pressed,
                on_typed: event.repeat || event.pressed,
                is_down: event.pressed,
            },
        };
        self.keys.insert(code, after);
    }

    /// The state of a key; that of a key never seen is all false.
    pub fn key(&self, code: u32) -> (out: KeyState)
        ensures
            out == (match known(self.keys@, code) {
                Some(state) => state,
                None => idle_key(),
            }),
    {
        broadcast use vstd::std_specs::hash::group_hash_axioms;

        match self.keys.get(&code) {
            Some(state) => *state,
            None => KeyState { on_pressed: false, on_released: false, on_typed: false, is_down: false },
        }
    }

    /// Takes a press or release of a mouse button. Going down sets
    /// `on_pressed`, going up sets `on_released`, and the other edge flag
    /// stays as it is until the frame ends. Buttons other than the three
    /// that are tracked change nothing.
    pub fn button_event(&mut self, button: MouseButton, pressed: bool)
        ensures
            final(self).mouse_left == (if button == MouseButton::Left {
                button_pressed(old(self).mouse_left, pressed)
            } else {
                old(self).mouse_left
            }),
            final(self).mouse_right == (if button == MouseButton::Right {
                button_pressed(old(self).mouse_right, pressed)
            } else {
                old(self).mouse_right
            }),
            final(self).mouse_middle == (if button == MouseButton::Middle {
                button_pressed(old(self).mouse_middle, pressed)
            } else {
                old(self).mouse_middle
            }),
            final(self).keys == old(self).keys,
            final(self).resolution == old(self).resolution,
            final(self).delta == old(self).delta,
            final(self).last_time == old(self).last_time,
            final(self).mouse == old(self).mouse,
            final(self).wheel == old(self).wheel,
            final(self).wheel_x == old(self).wheel_x,
            final(self).exiting == old(self).exiting,
    {
        match button {
            MouseButton::Left => {
                self.mouse_left = press(self.mouse_left, pressed);
            },
            MouseButton::Right => {
                self.mouse_right = press(self.mouse_right, pressed);
            },
            MouseButton::Middle => {
                self.mouse_middle = press(self.mouse_middle, pressed);
            },
            MouseButton::Other => {},
        }
    }
}

/// A button after it went down or up.
pub open spec fn button_pressed(before: ButtonState, pressed: bool) -> ButtonState {
    if pressed {
        ButtonState { on_pressed: true, on_released: before.on_released, is_down: true }
    } else {
        ButtonState { on_pressed: before.on_pressed, on_released: true, is_down: false }
    }
}

/// The codes of the keys, each once, in the order in which the map hands
/// them out.
fn codes_of(keys: &HashMap<u32, KeyState>) -> (codes: Vec<u32>)
    ensures
        codes@.to_set() == keys@.dom(),
        codes@.no_duplicates(),
{
    broadcast use vstd::std_specs::hash::group_hash_axioms;

    let ghost target = keys.keys().remaining().unref();
    let mut codes: Vec<u32> = Vec::new();
    for code in it: keys.keys()
        invariant
            it.seq().unref() == target,
            codes@ =~= target.subrange(0, it.index() as int),
            it.index() <= it.seq().len(),
    {
        codes.push(*code);
    }
    assert(codes@ =~= target);
    codes
}

/// Settles every key.
fn settle(keys: &mut HashMap<u32, KeyState>)
    ensures
        final(keys)@ == settled_keys(old(keys)@),
{
    broadcast use vstd::std_specs::hash::group_hash_axioms;

    let ghost before = keys@;
    let codes = codes_of(keys);
    let mut i: usize = 0;
    while i < codes.len()
        invariant
            i <= codes@.len(),
            codes@.to_set() == before.dom(),
            codes@.no_duplicates(),
            keys@.dom() == before.dom(),
            forall|j: int| 0 <= j < i ==> #[trigger] keys@[codes@[j]] == key_settled(before[codes@[j]]),
            forall|j: int| i <= j < codes@.len() ==> #[trigger] keys@[codes@[j]] == before[codes@[j]],
        decreases codes@.len() - i,
    {
        let code = codes[i];
        assert(codes@.to_set().contains(codes@[i as int]));
        let is_down = match keys.get(&code) {
            Some(state) => state.is_down,
            None => false,
        };
        let ghost earlier = keys@;
        keys.insert(
            code,
            KeyState { on_pressed: false, on_released: false, on_typed: false, is_down },
        );
        assert(keys@.dom() =~= before.dom());
        assert forall|j: int| 0 <= j < i + 1 implies #[trigger] keys@[codes@[j]] == key_settled(
            before[codes@[j]],
        ) by {
            if j < i {
                assert(codes@[j] != codes@[i as int]);
                assert(earlier[codes@[j]] == key_settled(before[codes@[j]]));
            }
        }
        assert forall|j: int| i + 1 <= j < codes@.len() implies #[trigger] keys@[codes@[j]]
            == before[codes@[j]] by {
            assert(codes@[j] != codes@[i as int]);
            assert(earlier[codes@[j]] == before[codes@[j]]);
        }
        i += 1;
    }
    assert forall|code: u32| keys@.contains_key(code) implies #[trigger] keys@[code] == key_settled(
        before[code],
    ) by {
        assert(codes@.to_set().contains(code));
        let j = choose|j: int| 0 <= j < codes@.len() && codes@[j] == code;
        assert(keys@[codes@[j]] == key_settled(before[codes@[j]]));
    }
    assert(keys@ =~= settled_keys(before));
}

fn press(before: ButtonState, pressed: bool) -> (out: ButtonState)
    ensures
        out == button_pressed(before, pressed),
{
    if pressed {
        ButtonState { on_pressed: true, on_released: before.on_released, is_down: true }
    } else {
        ButtonState { on_pressed: before.on_pressed, on_released: true, is_down: false }
    }
}

} // verus!
