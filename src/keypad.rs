//! The 16-key logical keypad and its "last key pressed" latch.
use vstd::prelude::*;

verus! {

/// Number of logical keys, `0x0` to `0xF`.
pub const KEY_COUNT: u8 = 16;

/// A logical key going down or coming up.
#[derive(Copy, Clone, Debug, PartialEq, Eq, Structural)]
pub enum KeyEvent {
    Pressed(u8),
    Released(u8),
}

/// Which keys are held, and the most recently pressed one.
pub struct Keypad {
    keys: Vec<bool>,
    last_key: u8,
}

/// The abstract keypad: one flag per key, and the latch.
pub struct KeypadView {
    pub keys: Seq<bool>,
    pub last_key: u8,
}

impl View for Keypad {
    type V = KeypadView;

    closed spec fn view(&self) -> KeypadView {
        KeypadView { keys: self.keys@, last_key: self.last_key }
    }
}

/// The keypad after `event`, and whether the event was a key press. A press
/// marks the key held and latches it; a release marks it up and leaves the
/// latch alone. Events for keys outside `0x0..=0xF` change nothing.
pub open spec fn after_event(k: KeypadView, event: KeyEvent) -> (KeypadView, bool) {
    match event {
        KeyEvent::Pressed(key) => if key < KEY_COUNT {
            (KeypadView { keys: k.keys.update(key as int, true), last_key: key }, true)
        } else {
            (k, false)
        },
        KeyEvent::Released(key) => if key < KEY_COUNT {
            (KeypadView { keys: k.keys.update(key as int, false), last_key: k.last_key }, false)
        } else {
            (k, false)
        },
    }
}

/// The logical key that a host key labelled `c` stands for, in the usual
/// four-by-four layout:
///
/// ```text
/// 1 2 3 4        1 2 3 C
/// Q W E R   ->   4 5 6 D
/// A S D F        7 8 9 E
/// Z X C V        A 0 B F
/// ```
///
/// Letters are matched in either case.
pub open spec fn key_for(c: char) -> Option<u8> {
    if c == '1' { Some(0x1u8) }
    else if c == '2' { Some(0x2u8) }
    else if c == '3' { Some(0x3u8) }
    else if c == '4' { Some(0xCu8) }
    else if c == 'q' || c == 'Q' { Some(0x4u8) }
    else if c == 'w' || c == 'W' { Some(0x5u8) }
    else if c == 'e' || c == 'E' { Some(0x6u8) }
    else if c == 'r' || c == 'R' { Some(0xDu8) }
    else if c == 'a' || c == 'A' { Some(0x7u8) }
    else if c == 's' || c == 'S' { Some(0x8u8) }
    else if c == 'd' || c == 'D' { Some(0x9u8) }
    else if c == 'f' || c == 'F' { Some(0xEu8) }
    else if c == 'z' || c == 'Z' { Some(0xAu8) }
    else if c == 'x' || c == 'X' { Some(0x0u8) }
    else if c == 'c' || c == 'C' { Some(0xBu8) }
    else if c == 'v' || c == 'V' { Some(0xFu8) }
    else { None }
}

/// The logical key for the host key labelled `c`, if it is one of the sixteen.
pub fn logical_key(c: char) -> (r: Option<u8>)
    ensures
        r == key_for(c),
        r matches Some(k) ==> k < KEY_COUNT,
{
    match c {
        '1' => Some(0x1),
        '2' => Some(0x2),
        '3' => Some(0x3),
        '4' => Some(0xC),
        'q' | 'Q' => Some(0x4),
        'w' | 'W' => Some(0x5),
        'e' | 'E' => Some(0x6),
        'r' | 'R' => Some(0xD),
        'a' | 'A' => Some(0x7),
        's' | 'S' => Some(0x8),
        'd' | 'D' => Some(0x9),
        'f' | 'F' => Some(0xE),
        'z' | 'Z' => Some(0xA),
        'x' | 'X' => Some(0x0),
        'c' | 'C' => Some(0xB),
        'v' | 'V' => Some(0xF),
        _ => None,
    }
}

impl Default for Keypad {
    fn default() -> (k: Self)
        ensures
            k.wf(),
            k@.keys == Seq::new(KEY_COUNT as nat, |i: int| false),
            k@.last_key == 0,
    {
        let k = Keypad { keys: vec![false; KEY_COUNT as usize], last_key: 0 };
        assert(k@.keys =~= Seq::new(KEY_COUNT as nat, |i: int| false));
        k
    }
}

impl Keypad {
    pub open spec fn wf(&self) -> bool {
        &&& self@.keys.len() == KEY_COUNT
        &&& self@.last_key < KEY_COUNT
    }

    /// Releases every key and clears the latch.
    pub fn reset(&mut self)
        requires
            old(self).wf(),
        ensures
            final(self).wf(),
            final(self)@.keys == Seq::new(KEY_COUNT as nat, |i: int| false),
            final(self)@.last_key == 0,
    {
        self.keys = vec![false; KEY_COUNT as usize];
        self.last_key = 0;
        assert(self@.keys =~= Seq::new(KEY_COUNT as nat, |i: int| false));
    }

    /// Applies a key event; returns whether it pressed one of the sixteen keys.
    pub fn handle_input(&mut self, event: KeyEvent) -> (r: bool)
        requires
            old(self).wf(),
        ensures
            final(self).wf(),
            (final(self)@, r) == after_event(old(self)@, event),
    {
        match event {
            KeyEvent::Pressed(k) => {
                if k < KEY_COUNT {
                    self.keys.set(k as usize, true);
                    self.last_key = k;
                    true
                } else {
                    false
                }
            },
            KeyEvent::Released(k) => {
                if k < KEY_COUNT {
                    self.keys.set(k as usize, false);
                }
                false
            },
        }
    }

    /// Whether `key` is held.
    pub fn is_key_pressed(&self, key: u8) -> (r: bool)
        requires
            self.wf(),
            key < KEY_COUNT,
        ensures
            r == self@.keys[key as int],
    {
        self.keys[key as usize]
    }

    /// The most recently pressed key.
    pub fn get_last_key(&self) -> (r: u8)
        requires
            self.wf(),
        ensures
            r == self@.last_key,
            r < KEY_COUNT,
    {
        self.last_key
    }
}

} // verus!
