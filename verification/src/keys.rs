//! Keyboard events as the editing core sees them: a key, an optional
//! character, and the modifier state. The surrounding application translates
//! its windowing framework's events into these.

use vstd::prelude::*;

verus! {

#[derive(Debug, Clone, Copy)]
pub enum Key {
    KeyUp,
    KeyDown,
    KeyRight,
    KeyLeft,
    KeyBackSpace,
    KeyDelete,
    KeyEnter,
    KeyTab,
    KeyEsc,
    KeyHome,
    KeyEnd,
    KeyPgUp,
    KeyPgDown,
    Key(char),
    NoKey,
    KeyA,
    KeyB,
    KeyC,
    KeyD,
    KeyE,
    KeyF,
    KeyG,
    KeyH,
    KeyI,
    KeyJ,
    KeyK,
    KeyL,
    KeyM,
    KeyN,
    KeyO,
    KeyP,
    KeyQ,
    KeyR,
    KeyS,
    KeyT,
    KeyU,
    KeyV,
    KeyW,
    KeyX,
    KeyY,
    KeyZ,
}

#[derive(Debug, Clone, Copy)]
pub enum KeyEvent {
    Special(Key, Modifiers),
    CharacterReceived(char),
}

#[derive(Debug, Clone, Copy)]
pub struct Modifiers {
    pub ctrl: bool,
    pub shift: bool,
    pub alt: bool,
}

impl Default for Modifiers {
    fn default() -> (r: Self)
        ensures
            !r.ctrl && !r.shift && !r.alt,
    {
        Modifiers { ctrl: false, shift: false, alt: false }
    }
}

} // verus!
