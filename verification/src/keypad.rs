//! The sixteen-key keypad: the state of each key, and the latch by which the
//! interpreter waits for a key press without blocking.

use vstd::prelude::*;

verus! {

/// Number of keys.
pub const KEY_COUNT: usize = 16;

/// The value of `last_key_pressed` while no key has been pressed.
pub const NO_KEY: u8 = 0x10;

/// The keys of the host keyboard that the keypad listens to. Every other key
/// is `Other`.
#[derive(Clone, Copy, Debug, PartialEq, Eq, Structural)]
pub enum PhysicalKey {
    Num1,
    Num2,
    Num3,
    Num4,
    Q,
    W,
    E,
    R,
    A,
    S,
    D,
    F,
    Z,
    X,
    C,
    V,
    Other,
}

/// What the host reports of its keyboard.
#[derive(Clone, Copy, Debug, PartialEq, Eq, Structural)]
pub enum KeyEvent {
    KeyDown(PhysicalKey),
    KeyUp(PhysicalKey),
    Other,
}

/// The keypad.
pub struct Keypad {
    /// Whether each key is down.
    pub keys: [bool; 16],
    /// Whether the interpreter is waiting for a key press.
    pub waiting_for_keypress: bool,
    /// The key that ends the wait, or [`NO_KEY`] while there is none. The
    /// host records it here.
    pub last_key_pressed: u8,
}

/// Mathematical model of a [`Keypad`].
pub struct KeypadView {
    pub keys: Seq<bool>,
    pub waiting_for_keypress: bool,
    pub last_key_pressed: u8,
}

impl View for Keypad {
    type V = KeypadView;

    open spec fn view(&self) -> KeypadView {
        KeypadView {
            keys: self.keys@,
            waiting_for_keypress: self.waiting_for_keypress,
            last_key_pressed: self.last_key_pressed,
        }
    }
}

/// The keypad key that a key of the host keyboard stands for. The left four
/// columns of the keyboard are laid out like the keypad:
///
/// ```text
/// 1 2 3 4      1 2 3 C
/// Q W E R  ->  4 5 6 D
/// A S D F      7 8 9 E
/// Z X C V      A 0 B F
/// ```
///
/// Every other key stands for key 0.
pub open spec fn key_index(key: PhysicalKey) -> int {
    match key {
        PhysicalKey::Num1 => 0x1,
        PhysicalKey::Num2 => 0x2,
        PhysicalKey::Num3 => 0x3,
        PhysicalKey::Num4 => 0xC,
        PhysicalKey::Q => 0x4,
        PhysicalKey::W => 0x5,
        PhysicalKey::E => 0x6,
        PhysicalKey::R => 0xD,
        PhysicalKey::A => 0x7,
        PhysicalKey::S => 0x8,
        PhysicalKey::D => 0x9,
        PhysicalKey::F => 0xE,
        PhysicalKey::Z => 0xA,
        PhysicalKey::X => 0x0,
        PhysicalKey::C => 0xB,
        PhysicalKey::V => 0xF,
        PhysicalKey::Other => 0x0,
    }
}

impl KeypadView {
    /// The shape of every view of a [`Keypad`].
    pub open spec fn wf(self) -> bool {
        self.keys.len() == 16
    }

    /// A keypad with no key down and no wait in progress.
    pub open spec fn idle() -> KeypadView {
        KeypadView {
            keys: Seq::new(16, |k: int| false),
            waiting_for_keypress: false,
            last_key_pressed: NO_KEY,
        }
    }

    /// The keypad after an event: a key press sets the flag of the key it
    /// stands for, a release clears it, and anything else changes nothing.
    pub open spec fn after_event(self, event: KeyEvent) -> KeypadView {
        match event {
            KeyEvent::KeyDown(key) => KeypadView {
                keys: self.keys.update(key_index(key), true),
                ..self
            },
            KeyEvent::KeyUp(key) => KeypadView {
                keys: self.keys.update(key_index(key), false),
                ..self
            },
            KeyEvent::Other => self,
        }
    }

    /// What one poll of the latch returns.
    ///
    /// With no wait in progress the poll answers [`NO_KEY`]; during a wait it
    /// answers the last key pressed, which is [`NO_KEY`] until a key arrives.
    pub open spec fn wait_result(self) -> u8 {
        if self.waiting_for_keypress {
            self.last_key_pressed
        } else {
            NO_KEY
        }
    }

    /// The keypad after one poll of the latch.
    ///
    /// With no wait in progress the poll forgets the last key and starts a
    /// wait. During a wait it ends the wait once a key has arrived, and
    /// changes nothing before that.
    pub open spec fn after_wait(self) -> KeypadView {
        if self.waiting_for_keypress {
            KeypadView { waiting_for_keypress: self.last_key_pressed == NO_KEY, ..self }
        } else {
            KeypadView { waiting_for_keypress: true, last_key_pressed: NO_KEY, ..self }
        }
    }

    /// The keypad after a key was recorded as the last one pressed.
    pub open spec fn latched(self, key: u8) -> KeypadView {
        KeypadView { last_key_pressed: key, ..self }
    }
}

impl Keypad {
    /// A keypad with no key down and no wait in progress.
    pub fn new() -> (keypad: Keypad)
        ensures
            keypad@ == KeypadView::idle(),
    {
        let keypad = Keypad {
            keys: [false; KEY_COUNT],
            waiting_for_keypress: false,
            last_key_pressed: NO_KEY,
        };
        assert(keypad@.keys =~= KeypadView::idle().keys);
        keypad
    }

    /// Whether key `key` is down.
    pub fn get_key(&mut self, key: usize) -> (down: bool)
        requires
            key < 16,
        ensures
            down == old(self)@.keys[key as int],
            *final(self) == *old(self),
    {
        self.keys[key]
    }

    /// Records a key press or release.
    pub fn handle_event(&mut self, event: &KeyEvent)
        ensures
            final(self)@ == old(self)@.after_event(*event),
    {
        match event {
            KeyEvent::KeyDown(keycode) => {
                self.keys[Keypad::map_key(*keycode)] = true;
            },
            KeyEvent::KeyUp(keycode) => {
                self.keys[Keypad::map_key(*keycode)] = false;
            },
            KeyEvent::Other => {},
        }
    }

    /// The keypad key that a key of the host keyboard stands for.
    pub fn map_key(keycode: PhysicalKey) -> (key: usize)
        ensures
            key == key_index(keycode),
            key < 16,
    {
        match keycode {
            PhysicalKey::Num1 => 1,
            PhysicalKey::Num2 => 2,
            PhysicalKey::Num3 => 3,
            PhysicalKey::Num4 => 0xC,
            PhysicalKey::Q => 4,
            PhysicalKey::W => 5,
            PhysicalKey::E => 6,
            PhysicalKey::R => 0xD,
            PhysicalKey::A => 7,
            PhysicalKey::S => 8,
            PhysicalKey::D => 9,
            PhysicalKey::F => 0xE,
            PhysicalKey::Z => 0xA,
            PhysicalKey::X => 0,
            PhysicalKey::C => 0xB,
            PhysicalKey::V => 0xF,
            PhysicalKey::Other => 0,
        }
    }

    /// Polls the latch: returns [`NO_KEY`] if no key has been pressed since
    /// the wait began, and otherwise the last key pressed, ending the wait.
    pub fn wait_for_keypress(&mut self) -> (key: u8)
        ensures
            key == old(self)@.wait_result(),
            final(self)@ == old(self)@.after_wait(),
    {
        if self.waiting_for_keypress {
            if self.last_key_pressed != NO_KEY {
                self.waiting_for_keypress = false;
            }
        } else {
            self.last_key_pressed = NO_KEY;
            self.waiting_for_keypress = true;
        }
        self.last_key_pressed
    }
}

/// The wait for a key, from start to end: the poll that starts a wait answers
/// [`NO_KEY`] and leaves the keypad waiting; polls go on answering [`NO_KEY`]
/// while no key has arrived; and once `key` has been recorded as the last key
/// pressed, the next poll answers `key` and ends the wait.
pub proof fn lemma_wait_protocol(keypad: KeypadView, key: u8)
    requires
        !keypad.waiting_for_keypress,
        key != NO_KEY,
    ensures
        keypad.wait_result() == NO_KEY,
        keypad.after_wait().waiting_for_keypress,
        keypad.after_wait().wait_result() == NO_KEY,
        keypad.after_wait().after_wait() == keypad.after_wait(),
        keypad.after_wait().latched(key).wait_result() == key,
        !keypad.after_wait().latched(key).after_wait().waiting_for_keypress,
        keypad.after_wait().latched(key).after_wait().last_key_pressed == key,
{
}

} // verus!
