use vstd::prelude::*;

verus! {

/// Left control modifier bit.
pub const MOD_LCTRL: u8 = 0x01;
/// Left shift modifier bit.
pub const MOD_LSHIFT: u8 = 0x02;
/// Left alt modifier bit.
pub const MOD_LALT: u8 = 0x04;
/// Left GUI modifier bit.
pub const MOD_LGUI: u8 = 0x08;
/// Right control modifier bit.
pub const MOD_RCTRL: u8 = 0x10;
/// Right shift modifier bit.
pub const MOD_RSHIFT: u8 = 0x20;
/// Right alt modifier bit.
pub const MOD_RALT: u8 = 0x40;
/// Right GUI modifier bit.
pub const MOD_RGUI: u8 = 0x80;

/// The HID keycodes this firmware's keymap uses.
#[derive(Clone, Copy, Debug, PartialEq, Eq, Structural)]
pub enum HidKeyCode {
    A, B, C, D, E, F, G, H, I, J, K, L, M,
    N, O, P, Q, R, S, T, U, V, W, X, Y, Z,
    Kc1, Kc2, Kc3, Kc4, Kc5, Kc6, Kc7, Kc8, Kc9, Kc0,
    Enter, Escape, Backspace, Tab, Space, Minus, Equal,
    LeftBracket, RightBracket, Backslash, Semicolon, Quote, Grave,
    Comma, Dot, Slash,
    F1, F2, F3, F4, F5, F6, F7, F8, F9, F10, F11, F12,
    Insert, Home, End, Delete, Right, Left, Down, Up,
    LCtrl, LShift, LAlt, LGui, RCtrl, RShift, RAlt, RGui,
    MouseBtn1, MouseBtn2, MouseBtn3,
}

/// Keyboard control actions.
#[derive(Clone, Copy, Debug, PartialEq, Eq, Structural)]
pub enum KeyboardAction {
    Bootloader,
    Reboot,
}

/// A single action a key can perform.
#[derive(Clone, Copy, Debug, PartialEq, Eq, Structural)]
pub enum Action {
    /// Press a key.
    Key(HidKeyCode),
    /// Press a key with the given modifier bits held.
    KeyWithModifier(HidKeyCode, u8),
    /// Hold the given modifier bits.
    Modifier(u8),
    /// Activate a layer while held.
    LayerOn(u8),
    /// Toggle a layer.
    LayerToggle(u8),
    /// Switch to a layer, turning every other layer off.
    LayerToggleOnly(u8),
    /// A user-defined action.
    User(u8),
    /// A keyboard control action.
    KeyboardControl(KeyboardAction),
}

/// What a key position is bound to.
#[derive(Clone, Copy, Debug, PartialEq, Eq, Structural)]
pub enum KeyAction {
    /// Does nothing.
    No,
    /// Falls through to the next active layer below.
    Transparent,
    /// One action.
    Single(Action),
    /// `tap` when tapped, `hold` when held.
    TapHold(Action, Action),
}

/// The layer an action switches to, if it switches layers.
pub open spec fn spec_action_layer(a: Action) -> Option<u8> {
    match a {
        Action::LayerOn(l) => Some(l),
        Action::LayerToggle(l) => Some(l),
        Action::LayerToggleOnly(l) => Some(l),
        _ => None,
    }
}

/// Every layer that `a` switches to lies below `n`.
pub open spec fn spec_action_targets_below(a: Action, n: nat) -> bool {
    match spec_action_layer(a) {
        Some(l) => l < n,
        None => true,
    }
}

/// Every layer that key `k` switches to, tapped or held, lies below `n`.
pub open spec fn spec_key_targets_below(k: KeyAction, n: nat) -> bool {
    match k {
        KeyAction::Single(a) => spec_action_targets_below(a, n),
        KeyAction::TapHold(t, h) => spec_action_targets_below(t, n) && spec_action_targets_below(h, n),
        _ => true,
    }
}

/// The actions an encoder performs on each direction.
#[derive(Clone, Copy, Debug, PartialEq, Eq, Structural)]
pub struct EncoderAction {
    pub clockwise: KeyAction,
    pub counter_clockwise: KeyAction,
}

impl EncoderAction {
    /// An encoder that does nothing in either direction.
    pub fn new_empty() -> (r: EncoderAction)
        ensures
            r.clockwise == KeyAction::No,
            r.counter_clockwise == KeyAction::No,
    {
        EncoderAction { clockwise: KeyAction::No, counter_clockwise: KeyAction::No }
    }
}

} // verus!
