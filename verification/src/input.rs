//! The input state that the terminal context feeds: which keys and mouse
//! buttons are held, where the mouse is, and the log of input events.

use vstd::prelude::*;
use std::collections::VecDeque;
use bracket_geometry::prelude::Point;
use crate::geometry::{new_point, point_of};
use crate::keycodes::VirtualKeyCode;

verus! {

/// An input event, as the window system reported it.
#[derive(Debug, Clone, Copy, PartialEq)]
pub enum BEvent {
    /// The window was moved.
    Moved { new_position: Point },
    /// The window was asked to close.
    CloseRequested,
    /// A character was typed.
    Character { c: char },
    /// The window gained or lost focus.
    Focused { focused: bool },
    /// The mouse cursor entered the window.
    CursorEntered,
    /// The mouse cursor left the window.
    CursorLeft,
    /// The mouse cursor moved to a pixel position.
    CursorMoved { position: Point },
    /// A mouse button was pressed or released.
    MouseClick { button: usize, pressed: bool },
    /// A mouse button went down.
    MouseButtonDown { button: usize },
    /// A mouse button went up.
    MouseButtonUp { button: usize },
    /// A key was pressed or released.
    KeyboardInput { key: VirtualKeyCode, scan_code: u32, pressed: bool },
}

/// The input state as the contracts see it.
pub struct InputView {
    /// The keys that are down.
    pub keys_down: Set<VirtualKeyCode>,
    /// The mouse buttons that are down.
    pub buttons_down: Set<usize>,
    /// The mouse position in pixels.
    pub mouse_pixel: (i32, i32),
    /// The mouse position in cells of each console, by console index.
    pub mouse_tile: Seq<(i32, i32)>,
    /// The events that wait to be read, oldest first.
    pub events: Seq<BEvent>,
}

impl InputView {
    /// The state after `key` went down.
    pub open spec fn key_down(self, key: VirtualKeyCode) -> InputView {
        InputView { keys_down: self.keys_down.insert(key), ..self }
    }

    /// The state after `key` went up.
    pub open spec fn key_up(self, key: VirtualKeyCode) -> InputView {
        InputView { keys_down: self.keys_down.remove(key), ..self }
    }

    /// The state after mouse button `button` went down.
    pub open spec fn button_down(self, button: usize) -> InputView {
        InputView { buttons_down: self.buttons_down.insert(button), ..self }
    }

    /// The state after mouse button `button` went up.
    pub open spec fn button_up(self, button: usize) -> InputView {
        InputView { buttons_down: self.buttons_down.remove(button), ..self }
    }

    /// The state after `event` was appended to the log.
    pub open spec fn logged(self, event: BEvent) -> InputView {
        InputView { events: self.events.push(event), ..self }
    }

    /// The state after the mouse moved to pixel (`x`, `y`): the position is
    /// kept, and the move is logged.
    pub open spec fn pixel_moved(self, x: i32, y: i32) -> InputView {
        InputView { mouse_pixel: (x, y), ..self }.logged(
            BEvent::CursorMoved { position: point_of(x, y) },
        )
    }

    /// The tile positions after that of console `console` was set to
    /// `position`: consoles up to `console` that had none get (0, 0).
    pub open spec fn tiles_with(self, console: int, position: (i32, i32)) -> Seq<(i32, i32)> {
        Seq::new(
            if console < self.mouse_tile.len() {
                self.mouse_tile.len()
            } else {
                (console + 1) as nat
            },
            |i: int|
                if i == console {
                    position
                } else if i < self.mouse_tile.len() {
                    self.mouse_tile[i]
                } else {
                    (0i32, 0i32)
                },
        )
    }

    /// The state after the tile position of console `console` was set.
    pub open spec fn tile_moved(self, console: int, position: (i32, i32)) -> InputView {
        InputView { mouse_tile: self.tiles_with(console, position), ..self }
    }

    /// The mouse position in cells of console `console`, and (0, 0) for a
    /// console of which none is known.
    pub open spec fn tile_of(self, console: int) -> (i32, i32) {
        if 0 <= console < self.mouse_tile.len() {
            self.mouse_tile[console]
        } else {
            (0i32, 0i32)
        }
    }
}

/// The input state: the keys and mouse buttons that are down, the mouse
/// position, and the log of events.
pub struct Input {
    keys_down: Vec<VirtualKeyCode>,
    mouse_buttons: Vec<usize>,
    mouse_pixel: (i32, i32),
    mouse_tile: Vec<(i32, i32)>,
    event_queue: VecDeque<BEvent>,
}

impl View for Input {
    type V = InputView;

    closed spec fn view(&self) -> InputView {
        InputView {
            keys_down: Set::new(|key: VirtualKeyCode| self.keys_down@.contains(key)),
            buttons_down: Set::new(|button: usize| self.mouse_buttons@.contains(button)),
            mouse_pixel: self.mouse_pixel,
            mouse_tile: self.mouse_tile@,
            events: self.event_queue@,
        }
    }
}

/// Whether `key` occurs in `keys`.
fn holds_key(keys: &Vec<VirtualKeyCode>, key: VirtualKeyCode) -> (found: bool)
    ensures
        found == keys@.contains(key),
{
    let mut i: usize = 0;
    while i < keys.len()
        invariant
            i <= keys.len(),
            forall|j: int| 0 <= j < i ==> keys@[j] != key,
        decreases keys.len() - i,
    {
        if keys[i] == key {
            return true;
        }
        i = i + 1;
    }
    false
}

/// The keys of `keys` other than `key`, in their order.
fn without_key(keys: &Vec<VirtualKeyCode>, key: VirtualKeyCode) -> (kept: Vec<VirtualKeyCode>)
    ensures
        forall|k: VirtualKeyCode| kept@.contains(k) <==> keys@.contains(k) && k != key,
{
    let mut kept: Vec<VirtualKeyCode> = Vec::new();
    let mut i: usize = 0;
    while i < keys.len()
        invariant
            i <= keys.len(),
            forall|k: VirtualKeyCode|
                kept@.contains(k) <==> keys@.subrange(0, i as int).contains(k) && k
                    != key,
        decreases keys.len() - i,
    {
        broadcast use vstd::seq_lib::lemma_seq_contains_after_push;

        let ghost seen = keys@.subrange(0, i as int);
        let ghost kept_before = kept@;
        if keys[i] != key {
            kept.push(keys[i]);
        }
        assert(keys@.subrange(0, i + 1) == seen.push(keys@[i as int]));
        assert(kept@ == kept_before || kept@ == kept_before.push(keys@[i as int]));
        i = i + 1;
    }
    assert(keys@.subrange(0, keys@.len() as int) == keys@);
    kept
}

/// Whether `button` occurs in `buttons`.
fn holds_button(buttons: &Vec<usize>, button: usize) -> (found: bool)
    ensures
        found == buttons@.contains(button),
{
    let mut i: usize = 0;
    while i < buttons.len()
        invariant
            i <= buttons.len(),
            forall|j: int| 0 <= j < i ==> buttons@[j] != button,
        decreases buttons.len() - i,
    {
        if buttons[i] == button {
            return true;
        }
        i = i + 1;
    }
    false
}

/// The buttons of `buttons` other than `button`, in their order.
fn without_button(buttons: &Vec<usize>, button: usize) -> (kept: Vec<usize>)
    ensures
        forall|b: usize| kept@.contains(b) <==> buttons@.contains(b) && b != button,
{
    let mut kept: Vec<usize> = Vec::new();
    let mut i: usize = 0;
    while i < buttons.len()
        invariant
            i <= buttons.len(),
            forall|b: usize|
                kept@.contains(b) <==> buttons@.subrange(0, i as int).contains(b) && b
                    != button,
        decreases buttons.len() - i,
    {
        broadcast use vstd::seq_lib::lemma_seq_contains_after_push;

        let ghost seen = buttons@.subrange(0, i as int);
        let ghost kept_before = kept@;
        if buttons[i] != button {
            kept.push(buttons[i]);
        }
        assert(buttons@.subrange(0, i + 1) == seen.push(buttons@[i as int]));
        assert(kept@ == kept_before || kept@ == kept_before.push(buttons@[i as int]));
        i = i + 1;
    }
    assert(buttons@.subrange(0, buttons@.len() as int) == buttons@);
    kept
}

impl Input {
    /// The state in which nothing is down, the mouse is at the origin and
    /// the log is empty.
    pub open spec fn initial() -> InputView {
        InputView {
            keys_down: Set::empty(),
            buttons_down: Set::empty(),
            mouse_pixel: (0i32, 0i32),
            mouse_tile: Seq::empty(),
            events: Seq::empty(),
        }
    }

    /// Creates the initial input state.
    pub fn new() -> (input: Input)
        ensures
            input@ == Input::initial(),
    {
        let input = Input {
            keys_down: Vec::new(),
            mouse_buttons: Vec::new(),
            mouse_pixel: (0, 0),
            mouse_tile: Vec::new(),
            event_queue: VecDeque::new(),
        };
        assert(input@.keys_down == Set::<VirtualKeyCode>::empty());
        assert(input@.buttons_down == Set::<usize>::empty());
        input
    }

    /// Whether `key` is down.
    pub fn is_key_pressed(&self, key: VirtualKeyCode) -> (pressed: bool)
        ensures
            pressed == self@.keys_down.contains(key),
    {
        holds_key(&self.keys_down, key)
    }

    /// Whether mouse button `button_num` is down.
    pub fn is_mouse_button_pressed(&self, button_num: usize) -> (pressed: bool)
        ensures
            pressed == self@.buttons_down.contains(button_num),
    {
        holds_button(&self.mouse_buttons, button_num)
    }

    /// The mouse position in cells of console `console`, and (0, 0) for a
    /// console of which none is known.
    pub fn mouse_tile_pos(&self, console: usize) -> (position: (i32, i32))
        ensures
            position == self@.tile_of(console as int),
    {
        if console < self.mouse_tile.len() {
            self.mouse_tile[console]
        } else {
            (0, 0)
        }
    }

    /// The mouse position in cells of console `console`, as a point.
    pub fn mouse_tile(&self, console: usize) -> (position: Point)
        ensures
            position == point_of(
                self@.tile_of(console as int).0,
                self@.tile_of(console as int).1,
            ),
    {
        let (x, y) = self.mouse_tile_pos(console);
        new_point(x, y)
    }

    /// The mouse position in pixels.
    pub fn mouse_pixel_pos(&self) -> (position: (i32, i32))
        ensures
            position == self@.mouse_pixel,
    {
        self.mouse_pixel
    }

    /// The number of events that wait to be read.
    pub fn pending(&self) -> (count: usize)
        ensures
            count == self@.events.len(),
    {
        self.event_queue.len()
    }

    /// Takes the oldest event out of the log, if there is one.
    pub fn pop(&mut self) -> (event: Option<BEvent>)
        ensures
            old(self)@.events.len() == 0 ==> event is None && final(self)@ == old(self)@,
            old(self)@.events.len() > 0 ==> event == Some(old(self)@.events[0]) && final(self)@
                == (InputView {
                events: old(self)@.events.subrange(1, old(self)@.events.len() as int),
                ..old(self)@
            }),
    {
        self.event_queue.pop_front()
    }

    /// Records that `key` went down.
    pub fn on_key_down(&mut self, key: VirtualKeyCode)
        ensures
            final(self)@ == old(self)@.key_down(key),
    {
        broadcast use vstd::seq_lib::lemma_seq_contains_after_push;

        if !holds_key(&self.keys_down, key) {
            self.keys_down.push(key);
        }
        assert(self@.keys_down == old(self)@.keys_down.insert(key));
    }

    /// Records that `key` went up.
    pub fn on_key_up(&mut self, key: VirtualKeyCode)
        ensures
            final(self)@ == old(self)@.key_up(key),
    {
        self.keys_down = without_key(&self.keys_down, key);
        assert(self@.keys_down == old(self)@.keys_down.remove(key));
    }

    /// Records that mouse button `button_num` went down.
    pub fn on_mouse_button_down(&mut self, button_num: usize)
        ensures
            final(self)@ == old(self)@.button_down(button_num),
    {
        broadcast use vstd::seq_lib::lemma_seq_contains_after_push;

        if !holds_button(&self.mouse_buttons, button_num) {
            self.mouse_buttons.push(button_num);
        }
        assert(self@.buttons_down == old(self)@.buttons_down.insert(button_num));
    }

    /// Records that mouse button `button_num` went up.
    pub fn on_mouse_button_up(&mut self, button_num: usize)
        ensures
            final(self)@ == old(self)@.button_up(button_num),
    {
        self.mouse_buttons = without_button(&self.mouse_buttons, button_num);
        assert(self@.buttons_down == old(self)@.buttons_down.remove(button_num));
    }

    /// Records the mouse position in pixels, and logs the move.
    pub fn on_mouse_pixel_position(&mut self, x: i32, y: i32)
        ensures
            final(self)@ == old(self)@.pixel_moved(x, y),
    {
        self.mouse_pixel = (x, y);
        self.push_event(BEvent::CursorMoved { position: new_point(x, y) });
    }

    /// Records the mouse position in cells of console `console`.
    pub fn on_mouse_tile_position(&mut self, console: usize, x: i32, y: i32)
        ensures
            final(self)@ == old(self)@.tile_moved(console as int, (x, y)),
    {
        while self.mouse_tile.len() <= console
            invariant
                self.keys_down == old(self).keys_down,
                self.mouse_buttons == old(self).mouse_buttons,
                self.mouse_pixel == old(self).mouse_pixel,
                self.event_queue == old(self).event_queue,
                old(self).mouse_tile@.len() <= self.mouse_tile@.len(),
                self.mouse_tile@.len() <= console + 1 || self.mouse_tile@.len() == old(
                    self,
                ).mouse_tile@.len(),
                forall|i: int|
                    0 <= i < self.mouse_tile@.len() ==> self.mouse_tile@[i] == if i < old(
                        self,
                    ).mouse_tile@.len() {
                        old(self).mouse_tile@[i]
                    } else {
                        (0i32, 0i32)
                    },
            decreases console + 1 - self.mouse_tile.len(),
        {
            self.mouse_tile.push((0, 0));
        }
        self.mouse_tile.set(console, (x, y));
        assert(self@.mouse_tile == old(self)@.tiles_with(console as int, (x, y)));
    }

    /// Appends an event to the log.
    pub fn push_event(&mut self, event: BEvent)
        ensures
            final(self)@ == old(self)@.logged(event),
    {
        self.event_queue.push_back(event);
    }
}

/// A key that goes down twice with nothing between is down, as after the
/// first time; and a key that went down and then up is up.
pub proof fn lemma_key_state_transitions(state: InputView, key: VirtualKeyCode)
    ensures
        state.key_down(key).keys_down.contains(key),
        state.key_down(key).key_down(key) == state.key_down(key),
        !state.key_down(key).key_up(key).keys_down.contains(key),
        !state.key_up(key).keys_down.contains(key),
        state.key_up(key).key_down(key).keys_down.contains(key),
{
    assert(state.key_down(key).keys_down.insert(key) == state.key_down(key).keys_down);
}

/// A change of one key's state leaves every other key as it was.
pub proof fn lemma_key_state_is_per_key(
    state: InputView,
    key: VirtualKeyCode,
    other: VirtualKeyCode,
)
    requires
        key != other,
    ensures
        state.key_down(key).keys_down.contains(other) == state.keys_down.contains(other),
        state.key_up(key).keys_down.contains(other) == state.keys_down.contains(other),
{
}

/// A mouse button that goes down twice with nothing between is down, as
/// after the first time; and a button that went down and then up is up.
pub proof fn lemma_button_state_transitions(state: InputView, button: usize)
    ensures
        state.button_down(button).buttons_down.contains(button),
        state.button_down(button).button_down(button) == state.button_down(button),
        !state.button_down(button).button_up(button).buttons_down.contains(button),
        !state.button_up(button).buttons_down.contains(button),
{
    assert(state.button_down(button).buttons_down.insert(button) == state.button_down(
        button,
    ).buttons_down);
}

} // verus!
