//! The board's default keymap: nine layers of four rows by twelve columns
//! (both halves side by side), written with one constructor per kind of key.
use vstd::prelude::*;

use crate::action::{
    Action, HidKeyCode, KeyAction, KeyboardAction, MOD_LALT, MOD_LCTRL, MOD_LGUI, MOD_LSHIFT, MOD_RCTRL,
    MOD_RSHIFT, spec_key_targets_below,
};
use crate::action::HidKeyCode as H;

verus! {

/// Rows of the keymap.
pub const ROW: usize = 4;
/// Columns of the keymap (both halves).
pub const COL: usize = 12;
/// Layers of the keymap.
pub const NUM_LAYER: usize = 9;

/// Press `code`.
#[verifier::allow_in_spec]
pub fn k(code: HidKeyCode) -> KeyAction
    returns
        KeyAction::Single(Action::Key(code)),
{
    KeyAction::Single(Action::Key(code))
}

/// A key that does nothing.
#[verifier::allow_in_spec]
pub fn no() -> KeyAction
    returns
        KeyAction::No,
{
    KeyAction::No
}

/// A key that falls through to the layer below.
#[verifier::allow_in_spec]
pub fn trns() -> KeyAction
    returns
        KeyAction::Transparent,
{
    KeyAction::Transparent
}

/// Tap for `code`, hold for layer `layer`.
#[verifier::allow_in_spec]
pub fn lt(layer: u8, code: HidKeyCode) -> KeyAction
    returns
        KeyAction::TapHold(Action::Key(code), Action::LayerOn(layer)),
{
    KeyAction::TapHold(Action::Key(code), Action::LayerOn(layer))
}

/// Tap for `code`, hold for the modifiers `mods`.
#[verifier::allow_in_spec]
pub fn mt(code: HidKeyCode, mods: u8) -> KeyAction
    returns
        KeyAction::TapHold(Action::Key(code), Action::Modifier(mods)),
{
    KeyAction::TapHold(Action::Key(code), Action::Modifier(mods))
}

/// Press `code` with the modifiers `mods` held.
#[verifier::allow_in_spec]
pub fn wm(code: HidKeyCode, mods: u8) -> KeyAction
    returns
        KeyAction::Single(Action::KeyWithModifier(code, mods)),
{
    KeyAction::Single(Action::KeyWithModifier(code, mods))
}

/// Layer `layer` while held.
#[verifier::allow_in_spec]
pub fn mo(layer: u8) -> KeyAction
    returns
        KeyAction::Single(Action::LayerOn(layer)),
{
    KeyAction::Single(Action::LayerOn(layer))
}

/// Toggle layer `layer`.
#[verifier::allow_in_spec]
pub fn tg(layer: u8) -> KeyAction
    returns
        KeyAction::Single(Action::LayerToggle(layer)),
{
    KeyAction::Single(Action::LayerToggle(layer))
}

/// Switch to layer `layer` alone.
#[verifier::allow_in_spec]
pub fn to(layer: u8) -> KeyAction
    returns
        KeyAction::Single(Action::LayerToggleOnly(layer)),
{
    KeyAction::Single(Action::LayerToggleOnly(layer))
}

/// User action number `id`.
#[verifier::allow_in_spec]
pub fn user(id: u8) -> KeyAction
    returns
        KeyAction::Single(Action::User(id)),
{
    KeyAction::Single(Action::User(id))
}

/// Reboot into the bootloader.
#[verifier::allow_in_spec]
pub fn bootloader() -> KeyAction
    returns
        KeyAction::Single(Action::KeyboardControl(KeyboardAction::Bootloader)),
{
    KeyAction::Single(Action::KeyboardControl(KeyboardAction::Bootloader))
}

/// The default keymap, layer by layer, row by row.
pub open spec fn spec_default_keymap() -> Seq<Seq<Seq<KeyAction>>> {
    seq![
        // Base
        seq![
            seq![k(H::Tab), k(H::Q), lt(7, H::W), lt(1, H::E), lt(6, H::R), k(H::T), k(H::LeftBracket), k(H::P), k(H::O), k(H::I), k(H::U), k(H::Y)],
            seq![k(H::LGui), k(H::A), k(H::S), k(H::D), mt(H::F, MOD_LCTRL), mt(H::G, MOD_LALT), mt(H::Quote, MOD_LCTRL), k(H::Semicolon), k(H::L), k(H::K), k(H::J), k(H::H)],
            seq![k(H::RGui), k(H::Z), k(H::X), k(H::C), k(H::V), k(H::B), mt(H::Escape, MOD_LALT), k(H::Slash), k(H::Dot), k(H::Comma), k(H::M), k(H::N)],
            seq![no(), mt(H::Space, MOD_LSHIFT), no(), mt(H::Delete, MOD_LGUI), lt(2, H::Delete), no(), no(), mt(H::Enter, MOD_LSHIFT), no(), lt(3, H::Backspace), no(), no()],
        ],
        // Mouse
        seq![
            seq![trns(), trns(), mo(7), mo(6), trns(), trns(), trns(), trns(), trns(), trns(), trns(), trns()],
            seq![trns(), k(H::LGui), k(H::LAlt), k(H::LShift), k(H::LCtrl), trns(), trns(), trns(), k(H::MouseBtn3), k(H::MouseBtn2), k(H::MouseBtn1), trns()],
            seq![trns(), trns(), trns(), mo(3), mo(2), trns(), trns(), trns(), trns(), trns(), trns(), trns()],
            seq![no(), k(H::MouseBtn1), no(), k(H::MouseBtn2), k(H::MouseBtn3), no(), no(), trns(), no(), to(0), no(), no()],
        ],
        // Symbol
        seq![
            seq![wm(H::Insert, MOD_RSHIFT), wm(H::Kc1, MOD_LSHIFT), wm(H::Kc2, MOD_LSHIFT), wm(H::Kc3, MOD_LSHIFT), wm(H::Kc4, MOD_LSHIFT), wm(H::Kc5, MOD_LSHIFT), k(H::Backspace), wm(H::Kc0, MOD_LSHIFT), wm(H::Kc9, MOD_LSHIFT), wm(H::Kc8, MOD_LSHIFT), wm(H::Kc7, MOD_LSHIFT), wm(H::Kc6, MOD_LSHIFT)],
            seq![k(H::LCtrl), tg(4), no(), k(H::RGui), k(H::Backspace), tg(3), k(H::Grave), k(H::Backslash), k(H::RightBracket), k(H::LeftBracket), k(H::Equal), k(H::Minus)],
            seq![k(H::LAlt), tg(5), wm(H::X, MOD_LCTRL), no(), wm(H::P, MOD_LCTRL | MOD_LALT), no(), wm(H::Grave, MOD_LSHIFT), wm(H::Backslash, MOD_LSHIFT), wm(H::RightBracket, MOD_LSHIFT), wm(H::LeftBracket, MOD_LSHIFT), wm(H::Equal, MOD_LSHIFT), wm(H::Minus, MOD_LSHIFT)],
            seq![no(), k(H::Space), no(), k(H::RGui), trns(), no(), no(), mt(H::Enter, MOD_LSHIFT), no(), trns(), no(), no()],
        ],
        // Number
        seq![
            seq![wm(H::C, MOD_RCTRL), k(H::Kc1), k(H::Kc2), k(H::Kc3), k(H::Kc4), k(H::Kc5), k(H::Semicolon), k(H::Kc0), k(H::Kc9), k(H::Kc8), k(H::Kc7), k(H::Kc6)],
            seq![wm(H::V, MOD_RCTRL), wm(H::I, MOD_RCTRL | MOD_LSHIFT), k(H::Home), k(H::End), k(H::Backspace), wm(H::F12, MOD_LCTRL), mt(H::F12, MOD_LCTRL), k(H::Minus), k(H::Right), k(H::Up), k(H::Down), k(H::Left)],
            seq![wm(H::X, MOD_RCTRL), k(H::F1), k(H::F2), k(H::F3), k(H::F4), k(H::F5), k(H::F11), k(H::F10), k(H::F9), k(H::F8), k(H::F7), k(H::F6)],
            seq![no(), mt(H::Tab, MOD_LCTRL), no(), wm(H::F3, MOD_LCTRL), k(H::LAlt), no(), no(), mt(H::Enter, MOD_LSHIFT), no(), trns(), no(), no()],
        ],
        // Function
        seq![
            seq![trns(), wm(H::Delete, MOD_LCTRL | MOD_LALT), k(H::F7), k(H::F8), k(H::F9), k(H::F10), trns(), no(), no(), no(), no(), no()],
            seq![trns(), no(), k(H::F4), k(H::F5), k(H::F6), k(H::F11), trns(), k(H::LGui), k(H::LAlt), k(H::LShift), k(H::LCtrl), no()],
            seq![trns(), no(), k(H::F1), k(H::F2), k(H::F3), k(H::F12), trns(), no(), no(), no(), no(), no()],
            seq![no(), no(), no(), no(), no(), no(), no(), no(), no(), no(), no(), no()],
        ],
        // Button (Game)
        seq![
            seq![k(H::Escape), k(H::Escape), k(H::Q), k(H::W), k(H::E), k(H::R), trns(), no(), no(), no(), no(), no()],
            seq![trns(), k(H::LCtrl), k(H::A), k(H::S), k(H::D), k(H::F), trns(), no(), k(H::MouseBtn3), k(H::MouseBtn2), k(H::MouseBtn1), no()],
            seq![trns(), k(H::LShift), k(H::Z), k(H::X), k(H::C), k(H::V), trns(), k(H::Kc5), k(H::Kc4), k(H::Kc3), k(H::Kc2), k(H::Kc1)],
            seq![no(), k(H::M), no(), k(H::LAlt), k(H::Space), no(), no(), k(H::T), no(), k(H::B), no(), no()],
        ],
        // MouseSnip (Sniper Mode: 1/6 speed)
        seq![
            seq![trns(), trns(), mo(7), trns(), trns(), trns(), trns(), trns(), trns(), trns(), trns(), trns()],
            seq![trns(), k(H::LGui), k(H::LAlt), k(H::LShift), k(H::LCtrl), trns(), trns(), trns(), k(H::MouseBtn3), k(H::MouseBtn2), k(H::MouseBtn1), trns()],
            seq![trns(), trns(), trns(), mo(3), mo(2), trns(), trns(), trns(), trns(), trns(), trns(), trns()],
            seq![no(), k(H::MouseBtn1), no(), k(H::MouseBtn2), k(H::MouseBtn3), no(), no(), trns(), no(), to(0), no(), no()],
        ],
        // MouseScroll (Scroll Mode: 1/3 speed, Y inverted)
        seq![
            seq![trns(), trns(), mo(7), mo(6), trns(), trns(), trns(), trns(), trns(), trns(), trns(), trns()],
            seq![trns(), k(H::LGui), k(H::LAlt), k(H::LShift), k(H::LCtrl), trns(), trns(), trns(), k(H::MouseBtn3), k(H::MouseBtn2), k(H::MouseBtn1), trns()],
            seq![trns(), trns(), trns(), mo(3), mo(2), trns(), trns(), trns(), trns(), trns(), trns(), trns()],
            seq![no(), k(H::MouseBtn1), no(), k(H::MouseBtn2), k(H::MouseBtn3), no(), no(), trns(), no(), to(0), no(), no()],
        ],
        // Reset (Bootloader, Dual-Dongle & BLE profile switching)
        seq![
            seq![user(8), user(9), user(0), user(1), user(2), bootloader(), trns(), no(), no(), no(), no(), no()],
            seq![trns(), no(), no(), no(), no(), no(), trns(), no(), no(), no(), no(), no()],
            seq![trns(), no(), no(), no(), no(), no(), trns(), no(), no(), no(), no(), no()],
            seq![no(), bootloader(), no(), no(), no(), no(), no(), bootloader(), no(), no(), no(), no()],
        ],
    ]
}

/// Every layer switch in the default keymap, tapped or held, names one of its
/// layers, and its base layer holds no transparent key.
pub proof fn lemma_default_keymap_is_closed()
    ensures
        spec_default_keymap().len() == NUM_LAYER,
        forall|l: int| 0 <= l < NUM_LAYER ==> #[trigger] spec_default_keymap()[l].len() == ROW,
        forall|l: int, r: int|
            0 <= l < NUM_LAYER && 0 <= r < ROW ==> #[trigger] spec_default_keymap()[l][r].len() == COL,
        forall|l: int, r: int, c: int|
            0 <= l < NUM_LAYER && 0 <= r < ROW && 0 <= c < COL ==> spec_key_targets_below(
                #[trigger] spec_default_keymap()[l][r][c],
                NUM_LAYER as nat,
            ),
        forall|r: int, c: int|
            0 <= r < ROW && 0 <= c < COL ==> #[trigger] spec_default_keymap()[0][r][c] != KeyAction::Transparent,
{
}

/// Layer 0 of the default keymap (Base), key by key, each position as the
/// matrix numbers it (row, then column), with the action the board binds there.
pub proof fn lemma_base_layer_keys()
    ensures
        spec_default_keymap()[0][0][0] == KeyAction::Single(Action::Key(H::Tab)),
        spec_default_keymap()[0][0][1] == KeyAction::Single(Action::Key(H::Q)),
        spec_default_keymap()[0][0][2] == KeyAction::TapHold(Action::Key(H::W), Action::LayerOn(7)),
        spec_default_keymap()[0][0][3] == KeyAction::TapHold(Action::Key(H::E), Action::LayerOn(1)),
        spec_default_keymap()[0][0][4] == KeyAction::TapHold(Action::Key(H::R), Action::LayerOn(6)),
        spec_default_keymap()[0][0][5] == KeyAction::Single(Action::Key(H::T)),
        spec_default_keymap()[0][0][6] == KeyAction::Single(Action::Key(H::LeftBracket)),
        spec_default_keymap()[0][0][7] == KeyAction::Single(Action::Key(H::P)),
        spec_default_keymap()[0][0][8] == KeyAction::Single(Action::Key(H::O)),
        spec_default_keymap()[0][0][9] == KeyAction::Single(Action::Key(H::I)),
        spec_default_keymap()[0][0][10] == KeyAction::Single(Action::Key(H::U)),
        spec_default_keymap()[0][0][11] == KeyAction::Single(Action::Key(H::Y)),
        spec_default_keymap()[0][1][0] == KeyAction::Single(Action::Key(H::LGui)),
        spec_default_keymap()[0][1][1] == KeyAction::Single(Action::Key(H::A)),
        spec_default_keymap()[0][1][2] == KeyAction::Single(Action::Key(H::S)),
        spec_default_keymap()[0][1][3] == KeyAction::Single(Action::Key(H::D)),
        spec_default_keymap()[0][1][4] == KeyAction::TapHold(Action::Key(H::F), Action::Modifier(MOD_LCTRL)),
        spec_default_keymap()[0][1][5] == KeyAction::TapHold(Action::Key(H::G), Action::Modifier(MOD_LALT)),
        spec_default_keymap()[0][1][6] == KeyAction::TapHold(Action::Key(H::Quote), Action::Modifier(MOD_LCTRL)),
        spec_default_keymap()[0][1][7] == KeyAction::Single(Action::Key(H::Semicolon)),
        spec_default_keymap()[0][1][8] == KeyAction::Single(Action::Key(H::L)),
        spec_default_keymap()[0][1][9] == KeyAction::Single(Action::Key(H::K)),
        spec_default_keymap()[0][1][10] == KeyAction::Single(Action::Key(H::J)),
        spec_default_keymap()[0][1][11] == KeyAction::Single(Action::Key(H::H)),
        spec_default_keymap()[0][2][0] == KeyAction::Single(Action::Key(H::RGui)),
        spec_default_keymap()[0][2][1] == KeyAction::Single(Action::Key(H::Z)),
        spec_default_keymap()[0][2][2] == KeyAction::Single(Action::Key(H::X)),
        spec_default_keymap()[0][2][3] == KeyAction::Single(Action::Key(H::C)),
        spec_default_keymap()[0][2][4] == KeyAction::Single(Action::Key(H::V)),
        spec_default_keymap()[0][2][5] == KeyAction::Single(Action::Key(H::B)),
        spec_default_keymap()[0][2][6] == KeyAction::TapHold(Action::Key(H::Escape), Action::Modifier(MOD_LALT)),
        spec_default_keymap()[0][2][7] == KeyAction::Single(Action::Key(H::Slash)),
        spec_default_keymap()[0][2][8] == KeyAction::Single(Action::Key(H::Dot)),
        spec_default_keymap()[0][2][9] == KeyAction::Single(Action::Key(H::Comma)),
        spec_default_keymap()[0][2][10] == KeyAction::Single(Action::Key(H::M)),
        spec_default_keymap()[0][2][11] == KeyAction::Single(Action::Key(H::N)),
        spec_default_keymap()[0][3][0] == KeyAction::No,
        spec_default_keymap()[0][3][1] == KeyAction::TapHold(Action::Key(H::Space), Action::Modifier(MOD_LSHIFT)),
        spec_default_keymap()[0][3][2] == KeyAction::No,
        spec_default_keymap()[0][3][3] == KeyAction::TapHold(Action::Key(H::Delete), Action::Modifier(MOD_LGUI)),
        spec_default_keymap()[0][3][4] == KeyAction::TapHold(Action::Key(H::Delete), Action::LayerOn(2)),
        spec_default_keymap()[0][3][5] == KeyAction::No,
        spec_default_keymap()[0][3][6] == KeyAction::No,
        spec_default_keymap()[0][3][7] == KeyAction::TapHold(Action::Key(H::Enter), Action::Modifier(MOD_LSHIFT)),
        spec_default_keymap()[0][3][8] == KeyAction::No,
        spec_default_keymap()[0][3][9] == KeyAction::TapHold(Action::Key(H::Backspace), Action::LayerOn(3)),
        spec_default_keymap()[0][3][10] == KeyAction::No,
        spec_default_keymap()[0][3][11] == KeyAction::No,
{
}

/// Layer 1 of the default keymap (Mouse), key by key, each position as the
/// matrix numbers it (row, then column), with the action the board binds there.
pub proof fn lemma_mouse_layer_keys()
    ensures
        spec_default_keymap()[1][0][0] == KeyAction::Transparent,
        spec_default_keymap()[1][0][1] == KeyAction::Transparent,
        spec_default_keymap()[1][0][2] == KeyAction::Single(Action::LayerOn(7)),
        spec_default_keymap()[1][0][3] == KeyAction::Single(Action::LayerOn(6)),
        spec_default_keymap()[1][0][4] == KeyAction::Transparent,
        spec_default_keymap()[1][0][5] == KeyAction::Transparent,
        spec_default_keymap()[1][0][6] == KeyAction::Transparent,
        spec_default_keymap()[1][0][7] == KeyAction::Transparent,
        spec_default_keymap()[1][0][8] == KeyAction::Transparent,
        spec_default_keymap()[1][0][9] == KeyAction::Transparent,
        spec_default_keymap()[1][0][10] == KeyAction::Transparent,
        spec_default_keymap()[1][0][11] == KeyAction::Transparent,
        spec_default_keymap()[1][1][0] == KeyAction::Transparent,
        spec_default_keymap()[1][1][1] == KeyAction::Single(Action::Key(H::LGui)),
        spec_default_keymap()[1][1][2] == KeyAction::Single(Action::Key(H::LAlt)),
        spec_default_keymap()[1][1][3] == KeyAction::Single(Action::Key(H::LShift)),
        spec_default_keymap()[1][1][4] == KeyAction::Single(Action::Key(H::LCtrl)),
        spec_default_keymap()[1][1][5] == KeyAction::Transparent,
        spec_default_keymap()[1][1][6] == KeyAction::Transparent,
        spec_default_keymap()[1][1][7] == KeyAction::Transparent,
        spec_default_keymap()[1][1][8] == KeyAction::Single(Action::Key(H::MouseBtn3)),
        spec_default_keymap()[1][1][9] == KeyAction::Single(Action::Key(H::MouseBtn2)),
        spec_default_keymap()[1][1][10] == KeyAction::Single(Action::Key(H::MouseBtn1)),
        spec_default_keymap()[1][1][11] == KeyAction::Transparent,
        spec_default_keymap()[1][2][0] == KeyAction::Transparent,
        spec_default_keymap()[1][2][1] == KeyAction::Transparent,
        spec_default_keymap()[1][2][2] == KeyAction::Transparent,
        spec_default_keymap()[1][2][3] == KeyAction::Single(Action::LayerOn(3)),
        spec_default_keymap()[1][2][4] == KeyAction::Single(Action::LayerOn(2)),
        spec_default_keymap()[1][2][5] == KeyAction::Transparent,
        spec_default_keymap()[1][2][6] == KeyAction::Transparent,
        spec_default_keymap()[1][2][7] == KeyAction::Transparent,
        spec_default_keymap()[1][2][8] == KeyAction::Transparent,
        spec_default_keymap()[1][2][9] == KeyAction::Transparent,
        spec_default_keymap()[1][2][10] == KeyAction::Transparent,
        spec_default_keymap()[1][2][11] == KeyAction::Transparent,
        spec_default_keymap()[1][3][0] == KeyAction::No,
        spec_default_keymap()[1][3][1] == KeyAction::Single(Action::Key(H::MouseBtn1)),
        spec_default_keymap()[1][3][2] == KeyAction::No,
        spec_default_keymap()[1][3][3] == KeyAction::Single(Action::Key(H::MouseBtn2)),
        spec_default_keymap()[1][3][4] == KeyAction::Single(Action::Key(H::MouseBtn3)),
        spec_default_keymap()[1][3][5] == KeyAction::No,
        spec_default_keymap()[1][3][6] == KeyAction::No,
        spec_default_keymap()[1][3][7] == KeyAction::Transparent,
        spec_default_keymap()[1][3][8] == KeyAction::No,
        spec_default_keymap()[1][3][9] == KeyAction::Single(Action::LayerToggleOnly(0)),
        spec_default_keymap()[1][3][10] == KeyAction::No,
        spec_default_keymap()[1][3][11] == KeyAction::No,
{
}

/// Layer 2 of the default keymap (Symbol), key by key, each position as the
/// matrix numbers it (row, then column), with the action the board binds there.
pub proof fn lemma_symbol_layer_keys()
    ensures
        spec_default_keymap()[2][0][0] == KeyAction::Single(Action::KeyWithModifier(H::Insert, MOD_RSHIFT)),
        spec_default_keymap()[2][0][1] == KeyAction::Single(Action::KeyWithModifier(H::Kc1, MOD_LSHIFT)),
        spec_default_keymap()[2][0][2] == KeyAction::Single(Action::KeyWithModifier(H::Kc2, MOD_LSHIFT)),
        spec_default_keymap()[2][0][3] == KeyAction::Single(Action::KeyWithModifier(H::Kc3, MOD_LSHIFT)),
        spec_default_keymap()[2][0][4] == KeyAction::Single(Action::KeyWithModifier(H::Kc4, MOD_LSHIFT)),
        spec_default_keymap()[2][0][5] == KeyAction::Single(Action::KeyWithModifier(H::Kc5, MOD_LSHIFT)),
        spec_default_keymap()[2][0][6] == KeyAction::Single(Action::Key(H::Backspace)),
        spec_default_keymap()[2][0][7] == KeyAction::Single(Action::KeyWithModifier(H::Kc0, MOD_LSHIFT)),
        spec_default_keymap()[2][0][8] == KeyAction::Single(Action::KeyWithModifier(H::Kc9, MOD_LSHIFT)),
        spec_default_keymap()[2][0][9] == KeyAction::Single(Action::KeyWithModifier(H::Kc8, MOD_LSHIFT)),
        spec_default_keymap()[2][0][10] == KeyAction::Single(Action::KeyWithModifier(H::Kc7, MOD_LSHIFT)),
        spec_default_keymap()[2][0][11] == KeyAction::Single(Action::KeyWithModifier(H::Kc6, MOD_LSHIFT)),
        spec_default_keymap()[2][1][0] == KeyAction::Single(Action::Key(H::LCtrl)),
        spec_default_keymap()[2][1][1] == KeyAction::Single(Action::LayerToggle(4)),
        spec_default_keymap()[2][1][2] == KeyAction::No,
        spec_default_keymap()[2][1][3] == KeyAction::Single(Action::Key(H::RGui)),
        spec_default_keymap()[2][1][4] == KeyAction::Single(Action::Key(H::Backspace)),
        spec_default_keymap()[2][1][5] == KeyAction::Single(Action::LayerToggle(3)),
        spec_default_keymap()[2][1][6] == KeyAction::Single(Action::Key(H::Grave)),
        spec_default_keymap()[2][1][7] == KeyAction::Single(Action::Key(H::Backslash)),
        spec_default_keymap()[2][1][8] == KeyAction::Single(Action::Key(H::RightBracket)),
        spec_default_keymap()[2][1][9] == KeyAction::Single(Action::Key(H::LeftBracket)),
        spec_default_keymap()[2][1][10] == KeyAction::Single(Action::Key(H::Equal)),
        spec_default_keymap()[2][1][11] == KeyAction::Single(Action::Key(H::Minus)),
        spec_default_keymap()[2][2][0] == KeyAction::Single(Action::Key(H::LAlt)),
        spec_default_keymap()[2][2][1] == KeyAction::Single(Action::LayerToggle(5)),
        spec_default_keymap()[2][2][2] == KeyAction::Single(Action::KeyWithModifier(H::X, MOD_LCTRL)),
        spec_default_keymap()[2][2][3] == KeyAction::No,
        spec_default_keymap()[2][2][4] == KeyAction::Single(Action::KeyWithModifier(H::P, MOD_LCTRL | MOD_LALT)),
        spec_default_keymap()[2][2][5] == KeyAction::No,
        spec_default_keymap()[2][2][6] == KeyAction::Single(Action::KeyWithModifier(H::Grave, MOD_LSHIFT)),
        spec_default_keymap()[2][2][7] == KeyAction::Single(Action::KeyWithModifier(H::Backslash, MOD_LSHIFT)),
        spec_default_keymap()[2][2][8] == KeyAction::Single(Action::KeyWithModifier(H::RightBracket, MOD_LSHIFT)),
        spec_default_keymap()[2][2][9] == KeyAction::Single(Action::KeyWithModifier(H::LeftBracket, MOD_LSHIFT)),
        spec_default_keymap()[2][2][10] == KeyAction::Single(Action::KeyWithModifier(H::Equal, MOD_LSHIFT)),
        spec_default_keymap()[2][2][11] == KeyAction::Single(Action::KeyWithModifier(H::Minus, MOD_LSHIFT)),
        spec_default_keymap()[2][3][0] == KeyAction::No,
        spec_default_keymap()[2][3][1] == KeyAction::Single(Action::Key(H::Space)),
        spec_default_keymap()[2][3][2] == KeyAction::No,
        spec_default_keymap()[2][3][3] == KeyAction::Single(Action::Key(H::RGui)),
        spec_default_keymap()[2][3][4] == KeyAction::Transparent,
        spec_default_keymap()[2][3][5] == KeyAction::No,
        spec_default_keymap()[2][3][6] == KeyAction::No,
        spec_default_keymap()[2][3][7] == KeyAction::TapHold(Action::Key(H::Enter), Action::Modifier(MOD_LSHIFT)),
        spec_default_keymap()[2][3][8] == KeyAction::No,
        spec_default_keymap()[2][3][9] == KeyAction::Transparent,
        spec_default_keymap()[2][3][10] == KeyAction::No,
        spec_default_keymap()[2][3][11] == KeyAction::No,
{
}

/// Layer 3 of the default keymap (Number), key by key, each position as the
/// matrix numbers it (row, then column), with the action the board binds there.
pub proof fn lemma_number_layer_keys()
    ensures
        spec_default_keymap()[3][0][0] == KeyAction::Single(Action::KeyWithModifier(H::C, MOD_RCTRL)),
        spec_default_keymap()[3][0][1] == KeyAction::Single(Action::Key(H::Kc1)),
        spec_default_keymap()[3][0][2] == KeyAction::Single(Action::Key(H::Kc2)),
        spec_default_keymap()[3][0][3] == KeyAction::Single(Action::Key(H::Kc3)),
        spec_default_keymap()[3][0][4] == KeyAction::Single(Action::Key(H::Kc4)),
        spec_default_keymap()[3][0][5] == KeyAction::Single(Action::Key(H::Kc5)),
        spec_default_keymap()[3][0][6] == KeyAction::Single(Action::Key(H::Semicolon)),
        spec_default_keymap()[3][0][7] == KeyAction::Single(Action::Key(H::Kc0)),
        spec_default_keymap()[3][0][8] == KeyAction::Single(Action::Key(H::Kc9)),
        spec_default_keymap()[3][0][9] == KeyAction::Single(Action::Key(H::Kc8)),
        spec_default_keymap()[3][0][10] == KeyAction::Single(Action::Key(H::Kc7)),
        spec_default_keymap()[3][0][11] == KeyAction::Single(Action::Key(H::Kc6)),
        spec_default_keymap()[3][1][0] == KeyAction::Single(Action::KeyWithModifier(H::V, MOD_RCTRL)),
        spec_default_keymap()[3][1][1] == KeyAction::Single(Action::KeyWithModifier(H::I, MOD_RCTRL | MOD_LSHIFT)),
        spec_default_keymap()[3][1][2] == KeyAction::Single(Action::Key(H::Home)),
        spec_default_keymap()[3][1][3] == KeyAction::Single(Action::Key(H::End)),
        spec_default_keymap()[3][1][4] == KeyAction::Single(Action::Key(H::Backspace)),
        spec_default_keymap()[3][1][5] == KeyAction::Single(Action::KeyWithModifier(H::F12, MOD_LCTRL)),
        spec_default_keymap()[3][1][6] == KeyAction::TapHold(Action::Key(H::F12), Action::Modifier(MOD_LCTRL)),
        spec_default_keymap()[3][1][7] == KeyAction::Single(Action::Key(H::Minus)),
        spec_default_keymap()[3][1][8] == KeyAction::Single(Action::Key(H::Right)),
        spec_default_keymap()[3][1][9] == KeyAction::Single(Action::Key(H::Up)),
        spec_default_keymap()[3][1][10] == KeyAction::Single(Action::Key(H::Down)),
        spec_default_keymap()[3][1][11] == KeyAction::Single(Action::Key(H::Left)),
        spec_default_keymap()[3][2][0] == KeyAction::Single(Action::KeyWithModifier(H::X, MOD_RCTRL)),
        spec_default_keymap()[3][2][1] == KeyAction::Single(Action::Key(H::F1)),
        spec_default_keymap()[3][2][2] == KeyAction::Single(Action::Key(H::F2)),
        spec_default_keymap()[3][2][3] == KeyAction::Single(Action::Key(H::F3)),
        spec_default_keymap()[3][2][4] == KeyAction::Single(Action::Key(H::F4)),
        spec_default_keymap()[3][2][5] == KeyAction::Single(Action::Key(H::F5)),
        spec_default_keymap()[3][2][6] == KeyAction::Single(Action::Key(H::F11)),
        spec_default_keymap()[3][2][7] == KeyAction::Single(Action::Key(H::F10)),
        spec_default_keymap()[3][2][8] == KeyAction::Single(Action::Key(H::F9)),
        spec_default_keymap()[3][2][9] == KeyAction::Single(Action::Key(H::F8)),
        spec_default_keymap()[3][2][10] == KeyAction::Single(Action::Key(H::F7)),
        spec_default_keymap()[3][2][11] == KeyAction::Single(Action::Key(H::F6)),
        spec_default_keymap()[3][3][0] == KeyAction::No,
        spec_default_keymap()[3][3][1] == KeyAction::TapHold(Action::Key(H::Tab), Action::Modifier(MOD_LCTRL)),
        spec_default_keymap()[3][3][2] == KeyAction::No,
        spec_default_keymap()[3][3][3] == KeyAction::Single(Action::KeyWithModifier(H::F3, MOD_LCTRL)),
        spec_default_keymap()[3][3][4] == KeyAction::Single(Action::Key(H::LAlt)),
        spec_default_keymap()[3][3][5] == KeyAction::No,
        spec_default_keymap()[3][3][6] == KeyAction::No,
        spec_default_keymap()[3][3][7] == KeyAction::TapHold(Action::Key(H::Enter), Action::Modifier(MOD_LSHIFT)),
        spec_default_keymap()[3][3][8] == KeyAction::No,
        spec_default_keymap()[3][3][9] == KeyAction::Transparent,
        spec_default_keymap()[3][3][10] == KeyAction::No,
        spec_default_keymap()[3][3][11] == KeyAction::No,
{
}

/// Layer 4 of the default keymap (Function), key by key, each position as the
/// matrix numbers it (row, then column), with the action the board binds there.
pub proof fn lemma_function_layer_keys()
    ensures
        spec_default_keymap()[4][0][0] == KeyAction::Transparent,
        spec_default_keymap()[4][0][1] == KeyAction::Single(Action::KeyWithModifier(H::Delete, MOD_LCTRL | MOD_LALT)),
        spec_default_keymap()[4][0][2] == KeyAction::Single(Action::Key(H::F7)),
        spec_default_keymap()[4][0][3] == KeyAction::Single(Action::Key(H::F8)),
        spec_default_keymap()[4][0][4] == KeyAction::Single(Action::Key(H::F9)),
        spec_default_keymap()[4][0][5] == KeyAction::Single(Action::Key(H::F10)),
        spec_default_keymap()[4][0][6] == KeyAction::Transparent,
        spec_default_keymap()[4][0][7] == KeyAction::No,
        spec_default_keymap()[4][0][8] == KeyAction::No,
        spec_default_keymap()[4][0][9] == KeyAction::No,
        spec_default_keymap()[4][0][10] == KeyAction::No,
        spec_default_keymap()[4][0][11] == KeyAction::No,
        spec_default_keymap()[4][1][0] == KeyAction::Transparent,
        spec_default_keymap()[4][1][1] == KeyAction::No,
        spec_default_keymap()[4][1][2] == KeyAction::Single(Action::Key(H::F4)),
        spec_default_keymap()[4][1][3] == KeyAction::Single(Action::Key(H::F5)),
        spec_default_keymap()[4][1][4] == KeyAction::Single(Action::Key(H::F6)),
        spec_default_keymap()[4][1][5] == KeyAction::Single(Action::Key(H::F11)),
        spec_default_keymap()[4][1][6] == KeyAction::Transparent,
        spec_default_keymap()[4][1][7] == KeyAction::Single(Action::Key(H::LGui)),
        spec_default_keymap()[4][1][8] == KeyAction::Single(Action::Key(H::LAlt)),
        spec_default_keymap()[4][1][9] == KeyAction::Single(Action::Key(H::LShift)),
        spec_default_keymap()[4][1][10] == KeyAction::Single(Action::Key(H::LCtrl)),
        spec_default_keymap()[4][1][11] == KeyAction::No,
        spec_default_keymap()[4][2][0] == KeyAction::Transparent,
        spec_default_keymap()[4][2][1] == KeyAction::No,
        spec_default_keymap()[4][2][2] == KeyAction::Single(Action::Key(H::F1)),
        spec_default_keymap()[4][2][3] == KeyAction::Single(Action::Key(H::F2)),
        spec_default_keymap()[4][2][4] == KeyAction::Single(Action::Key(H::F3)),
        spec_default_keymap()[4][2][5] == KeyAction::Single(Action::Key(H::F12)),
        spec_default_keymap()[4][2][6] == KeyAction::Transparent,
        spec_default_keymap()[4][2][7] == KeyAction::No,
        spec_default_keymap()[4][2][8] == KeyAction::No,
        spec_default_keymap()[4][2][9] == KeyAction::No,
        spec_default_keymap()[4][2][10] == KeyAction::No,
        spec_default_keymap()[4][2][11] == KeyAction::No,
        spec_default_keymap()[4][3][0] == KeyAction::No,
        spec_default_keymap()[4][3][1] == KeyAction::No,
        spec_default_keymap()[4][3][2] == KeyAction::No,
        spec_default_keymap()[4][3][3] == KeyAction::No,
        spec_default_keymap()[4][3][4] == KeyAction::No,
        spec_default_keymap()[4][3][5] == KeyAction::No,
        spec_default_keymap()[4][3][6] == KeyAction::No,
        spec_default_keymap()[4][3][7] == KeyAction::No,
        spec_default_keymap()[4][3][8] == KeyAction::No,
        spec_default_keymap()[4][3][9] == KeyAction::No,
        spec_default_keymap()[4][3][10] == KeyAction::No,
        spec_default_keymap()[4][3][11] == KeyAction::No,
{
}

/// Layer 5 of the default keymap (Button), key by key, each position as the
/// matrix numbers it (row, then column), with the action the board binds there.
pub proof fn lemma_game_layer_keys()
    ensures
        spec_default_keymap()[5][0][0] == KeyAction::Single(Action::Key(H::Escape)),
        spec_default_keymap()[5][0][1] == KeyAction::Single(Action::Key(H::Escape)),
        spec_default_keymap()[5][0][2] == KeyAction::Single(Action::Key(H::Q)),
        spec_default_keymap()[5][0][3] == KeyAction::Single(Action::Key(H::W)),
        spec_default_keymap()[5][0][4] == KeyAction::Single(Action::Key(H::E)),
        spec_default_keymap()[5][0][5] == KeyAction::Single(Action::Key(H::R)),
        spec_default_keymap()[5][0][6] == KeyAction::Transparent,
        spec_default_keymap()[5][0][7] == KeyAction::No,
        spec_default_keymap()[5][0][8] == KeyAction::No,
        spec_default_keymap()[5][0][9] == KeyAction::No,
        spec_default_keymap()[5][0][10] == KeyAction::No,
        spec_default_keymap()[5][0][11] == KeyAction::No,
        spec_default_keymap()[5][1][0] == KeyAction::Transparent,
        spec_default_keymap()[5][1][1] == KeyAction::Single(Action::Key(H::LCtrl)),
        spec_default_keymap()[5][1][2] == KeyAction::Single(Action::Key(H::A)),
        spec_default_keymap()[5][1][3] == KeyAction::Single(Action::Key(H::S)),
        spec_default_keymap()[5][1][4] == KeyAction::Single(Action::Key(H::D)),
        spec_default_keymap()[5][1][5] == KeyAction::Single(Action::Key(H::F)),
        spec_default_keymap()[5][1][6] == KeyAction::Transparent,
        spec_default_keymap()[5][1][7] == KeyAction::No,
        spec_default_keymap()[5][1][8] == KeyAction::Single(Action::Key(H::MouseBtn3)),
        spec_default_keymap()[5][1][9] == KeyAction::Single(Action::Key(H::MouseBtn2)),
        spec_default_keymap()[5][1][10] == KeyAction::Single(Action::Key(H::MouseBtn1)),
        spec_default_keymap()[5][1][11] == KeyAction::No,
        spec_default_keymap()[5][2][0] == KeyAction::Transparent,
        spec_default_keymap()[5][2][1] == KeyAction::Single(Action::Key(H::LShift)),
        spec_default_keymap()[5][2][2] == KeyAction::Single(Action::Key(H::Z)),
        spec_default_keymap()[5][2][3] == KeyAction::Single(Action::Key(H::X)),
        spec_default_keymap()[5][2][4] == KeyAction::Single(Action::Key(H::C)),
        spec_default_keymap()[5][2][5] == KeyAction::Single(Action::Key(H::V)),
        spec_default_keymap()[5][2][6] == KeyAction::Transparent,
        spec_default_keymap()[5][2][7] == KeyAction::Single(Action::Key(H::Kc5)),
        spec_default_keymap()[5][2][8] == KeyAction::Single(Action::Key(H::Kc4)),
        spec_default_keymap()[5][2][9] == KeyAction::Single(Action::Key(H::Kc3)),
        spec_default_keymap()[5][2][10] == KeyAction::Single(Action::Key(H::Kc2)),
        spec_default_keymap()[5][2][11] == KeyAction::Single(Action::Key(H::Kc1)),
        spec_default_keymap()[5][3][0] == KeyAction::No,
        spec_default_keymap()[5][3][1] == KeyAction::Single(Action::Key(H::M)),
        spec_default_keymap()[5][3][2] == KeyAction::No,
        spec_default_keymap()[5][3][3] == KeyAction::Single(Action::Key(H::LAlt)),
        spec_default_keymap()[5][3][4] == KeyAction::Single(Action::Key(H::Space)),
        spec_default_keymap()[5][3][5] == KeyAction::No,
        spec_default_keymap()[5][3][6] == KeyAction::No,
        spec_default_keymap()[5][3][7] == KeyAction::Single(Action::Key(H::T)),
        spec_default_keymap()[5][3][8] == KeyAction::No,
        spec_default_keymap()[5][3][9] == KeyAction::Single(Action::Key(H::B)),
        spec_default_keymap()[5][3][10] == KeyAction::No,
        spec_default_keymap()[5][3][11] == KeyAction::No,
{
}

/// Layer 6 of the default keymap (MouseSnip), key by key, each position as the
/// matrix numbers it (row, then column), with the action the board binds there.
pub proof fn lemma_sniper_layer_keys()
    ensures
        spec_default_keymap()[6][0][0] == KeyAction::Transparent,
        spec_default_keymap()[6][0][1] == KeyAction::Transparent,
        spec_default_keymap()[6][0][2] == KeyAction::Single(Action::LayerOn(7)),
        spec_default_keymap()[6][0][3] == KeyAction::Transparent,
        spec_default_keymap()[6][0][4] == KeyAction::Transparent,
        spec_default_keymap()[6][0][5] == KeyAction::Transparent,
        spec_default_keymap()[6][0][6] == KeyAction::Transparent,
        spec_default_keymap()[6][0][7] == KeyAction::Transparent,
        spec_default_keymap()[6][0][8] == KeyAction::Transparent,
        spec_default_keymap()[6][0][9] == KeyAction::Transparent,
        spec_default_keymap()[6][0][10] == KeyAction::Transparent,
        spec_default_keymap()[6][0][11] == KeyAction::Transparent,
        spec_default_keymap()[6][1][0] == KeyAction::Transparent,
        spec_default_keymap()[6][1][1] == KeyAction::Single(Action::Key(H::LGui)),
        spec_default_keymap()[6][1][2] == KeyAction::Single(Action::Key(H::LAlt)),
        spec_default_keymap()[6][1][3] == KeyAction::Single(Action::Key(H::LShift)),
        spec_default_keymap()[6][1][4] == KeyAction::Single(Action::Key(H::LCtrl)),
        spec_default_keymap()[6][1][5] == KeyAction::Transparent,
        spec_default_keymap()[6][1][6] == KeyAction::Transparent,
        spec_default_keymap()[6][1][7] == KeyAction::Transparent,
        spec_default_keymap()[6][1][8] == KeyAction::Single(Action::Key(H::MouseBtn3)),
        spec_default_keymap()[6][1][9] == KeyAction::Single(Action::Key(H::MouseBtn2)),
        spec_default_keymap()[6][1][10] == KeyAction::Single(Action::Key(H::MouseBtn1)),
        spec_default_keymap()[6][1][11] == KeyAction::Transparent,
        spec_default_keymap()[6][2][0] == KeyAction::Transparent,
        spec_default_keymap()[6][2][1] == KeyAction::Transparent,
        spec_default_keymap()[6][2][2] == KeyAction::Transparent,
        spec_default_keymap()[6][2][3] == KeyAction::Single(Action::LayerOn(3)),
        spec_default_keymap()[6][2][4] == KeyAction::Single(Action::LayerOn(2)),
        spec_default_keymap()[6][2][5] == KeyAction::Transparent,
        spec_default_keymap()[6][2][6] == KeyAction::Transparent,
        spec_default_keymap()[6][2][7] == KeyAction::Transparent,
        spec_default_keymap()[6][2][8] == KeyAction::Transparent,
        spec_default_keymap()[6][2][9] == KeyAction::Transparent,
        spec_default_keymap()[6][2][10] == KeyAction::Transparent,
        spec_default_keymap()[6][2][11] == KeyAction::Transparent,
        spec_default_keymap()[6][3][0] == KeyAction::No,
        spec_default_keymap()[6][3][1] == KeyAction::Single(Action::Key(H::MouseBtn1)),
        spec_default_keymap()[6][3][2] == KeyAction::No,
        spec_default_keymap()[6][3][3] == KeyAction::Single(Action::Key(H::MouseBtn2)),
        spec_default_keymap()[6][3][4] == KeyAction::Single(Action::Key(H::MouseBtn3)),
        spec_default_keymap()[6][3][5] == KeyAction::No,
        spec_default_keymap()[6][3][6] == KeyAction::No,
        spec_default_keymap()[6][3][7] == KeyAction::Transparent,
        spec_default_keymap()[6][3][8] == KeyAction::No,
        spec_default_keymap()[6][3][9] == KeyAction::Single(Action::LayerToggleOnly(0)),
        spec_default_keymap()[6][3][10] == KeyAction::No,
        spec_default_keymap()[6][3][11] == KeyAction::No,
{
}

/// Layer 7 of the default keymap (MouseScroll), key by key, each position as the
/// matrix numbers it (row, then column), with the action the board binds there.
pub proof fn lemma_scroll_layer_keys()
    ensures
        spec_default_keymap()[7][0][0] == KeyAction::Transparent,
        spec_default_keymap()[7][0][1] == KeyAction::Transparent,
        spec_default_keymap()[7][0][2] == KeyAction::Single(Action::LayerOn(7)),
        spec_default_keymap()[7][0][3] == KeyAction::Single(Action::LayerOn(6)),
        spec_default_keymap()[7][0][4] == KeyAction::Transparent,
        spec_default_keymap()[7][0][5] == KeyAction::Transparent,
        spec_default_keymap()[7][0][6] == KeyAction::Transparent,
        spec_default_keymap()[7][0][7] == KeyAction::Transparent,
        spec_default_keymap()[7][0][8] == KeyAction::Transparent,
        spec_default_keymap()[7][0][9] == KeyAction::Transparent,
        spec_default_keymap()[7][0][10] == KeyAction::Transparent,
        spec_default_keymap()[7][0][11] == KeyAction::Transparent,
        spec_default_keymap()[7][1][0] == KeyAction::Transparent,
        spec_default_keymap()[7][1][1] == KeyAction::Single(Action::Key(H::LGui)),
        spec_default_keymap()[7][1][2] == KeyAction::Single(Action::Key(H::LAlt)),
        spec_default_keymap()[7][1][3] == KeyAction::Single(Action::Key(H::LShift)),
        spec_default_keymap()[7][1][4] == KeyAction::Single(Action::Key(H::LCtrl)),
        spec_default_keymap()[7][1][5] == KeyAction::Transparent,
        spec_default_keymap()[7][1][6] == KeyAction::Transparent,
        spec_default_keymap()[7][1][7] == KeyAction::Transparent,
        spec_default_keymap()[7][1][8] == KeyAction::Single(Action::Key(H::MouseBtn3)),
        spec_default_keymap()[7][1][9] == KeyAction::Single(Action::Key(H::MouseBtn2)),
        spec_default_keymap()[7][1][10] == KeyAction::Single(Action::Key(H::MouseBtn1)),
        spec_default_keymap()[7][1][11] == KeyAction::Transparent,
        spec_default_keymap()[7][2][0] == KeyAction::Transparent,
        spec_default_keymap()[7][2][1] == KeyAction::Transparent,
        spec_default_keymap()[7][2][2] == KeyAction::Transparent,
        spec_default_keymap()[7][2][3] == KeyAction::Single(Action::LayerOn(3)),
        spec_default_keymap()[7][2][4] == KeyAction::Single(Action::LayerOn(2)),
        spec_default_keymap()[7][2][5] == KeyAction::Transparent,
        spec_default_keymap()[7][2][6] == KeyAction::Transparent,
        spec_default_keymap()[7][2][7] == KeyAction::Transparent,
        spec_default_keymap()[7][2][8] == KeyAction::Transparent,
        spec_default_keymap()[7][2][9] == KeyAction::Transparent,
        spec_default_keymap()[7][2][10] == KeyAction::Transparent,
        spec_default_keymap()[7][2][11] == KeyAction::Transparent,
        spec_default_keymap()[7][3][0] == KeyAction::No,
        spec_default_keymap()[7][3][1] == KeyAction::Single(Action::Key(H::MouseBtn1)),
        spec_default_keymap()[7][3][2] == KeyAction::No,
        spec_default_keymap()[7][3][3] == KeyAction::Single(Action::Key(H::MouseBtn2)),
        spec_default_keymap()[7][3][4] == KeyAction::Single(Action::Key(H::MouseBtn3)),
        spec_default_keymap()[7][3][5] == KeyAction::No,
        spec_default_keymap()[7][3][6] == KeyAction::No,
        spec_default_keymap()[7][3][7] == KeyAction::Transparent,
        spec_default_keymap()[7][3][8] == KeyAction::No,
        spec_default_keymap()[7][3][9] == KeyAction::Single(Action::LayerToggleOnly(0)),
        spec_default_keymap()[7][3][10] == KeyAction::No,
        spec_default_keymap()[7][3][11] == KeyAction::No,
{
}

/// Layer 8 of the default keymap (Reset), key by key, each position as the
/// matrix numbers it (row, then column), with the action the board binds there.
pub proof fn lemma_reset_layer_keys()
    ensures
        spec_default_keymap()[8][0][0] == KeyAction::Single(Action::User(8)),
        spec_default_keymap()[8][0][1] == KeyAction::Single(Action::User(9)),
        spec_default_keymap()[8][0][2] == KeyAction::Single(Action::User(0)),
        spec_default_keymap()[8][0][3] == KeyAction::Single(Action::User(1)),
        spec_default_keymap()[8][0][4] == KeyAction::Single(Action::User(2)),
        spec_default_keymap()[8][0][5] == KeyAction::Single(Action::KeyboardControl(KeyboardAction::Bootloader)),
        spec_default_keymap()[8][0][6] == KeyAction::Transparent,
        spec_default_keymap()[8][0][7] == KeyAction::No,
        spec_default_keymap()[8][0][8] == KeyAction::No,
        spec_default_keymap()[8][0][9] == KeyAction::No,
        spec_default_keymap()[8][0][10] == KeyAction::No,
        spec_default_keymap()[8][0][11] == KeyAction::No,
        spec_default_keymap()[8][1][0] == KeyAction::Transparent,
        spec_default_keymap()[8][1][1] == KeyAction::No,
        spec_default_keymap()[8][1][2] == KeyAction::No,
        spec_default_keymap()[8][1][3] == KeyAction::No,
        spec_default_keymap()[8][1][4] == KeyAction::No,
        spec_default_keymap()[8][1][5] == KeyAction::No,
        spec_default_keymap()[8][1][6] == KeyAction::Transparent,
        spec_default_keymap()[8][1][7] == KeyAction::No,
        spec_default_keymap()[8][1][8] == KeyAction::No,
        spec_default_keymap()[8][1][9] == KeyAction::No,
        spec_default_keymap()[8][1][10] == KeyAction::No,
        spec_default_keymap()[8][1][11] == KeyAction::No,
        spec_default_keymap()[8][2][0] == KeyAction::Transparent,
        spec_default_keymap()[8][2][1] == KeyAction::No,
        spec_default_keymap()[8][2][2] == KeyAction::No,
        spec_default_keymap()[8][2][3] == KeyAction::No,
        spec_default_keymap()[8][2][4] == KeyAction::No,
        spec_default_keymap()[8][2][5] == KeyAction::No,
        spec_default_keymap()[8][2][6] == KeyAction::Transparent,
        spec_default_keymap()[8][2][7] == KeyAction::No,
        spec_default_keymap()[8][2][8] == KeyAction::No,
        spec_default_keymap()[8][2][9] == KeyAction::No,
        spec_default_keymap()[8][2][10] == KeyAction::No,
        spec_default_keymap()[8][2][11] == KeyAction::No,
        spec_default_keymap()[8][3][0] == KeyAction::No,
        spec_default_keymap()[8][3][1] == KeyAction::Single(Action::KeyboardControl(KeyboardAction::Bootloader)),
        spec_default_keymap()[8][3][2] == KeyAction::No,
        spec_default_keymap()[8][3][3] == KeyAction::No,
        spec_default_keymap()[8][3][4] == KeyAction::No,
        spec_default_keymap()[8][3][5] == KeyAction::No,
        spec_default_keymap()[8][3][6] == KeyAction::No,
        spec_default_keymap()[8][3][7] == KeyAction::Single(Action::KeyboardControl(KeyboardAction::Bootloader)),
        spec_default_keymap()[8][3][8] == KeyAction::No,
        spec_default_keymap()[8][3][9] == KeyAction::No,
        spec_default_keymap()[8][3][10] == KeyAction::No,
        spec_default_keymap()[8][3][11] == KeyAction::No,
{
}

/// A keymap array as nested sequences.
pub open spec fn spec_layers(a: [[[KeyAction; COL]; ROW]; NUM_LAYER]) -> Seq<Seq<Seq<KeyAction>>> {
    a@.map_values(|layer: [[KeyAction; COL]; ROW]| layer@.map_values(|row: [KeyAction; COL]| row@))
}

/// The default keymap.
pub fn get_default_keymap() -> (r: [[[KeyAction; COL]; ROW]; NUM_LAYER])
    ensures
        spec_layers(r) == spec_default_keymap(),
{
    let r = [
        // Base
        [
            [k(H::Tab), k(H::Q), lt(7, H::W), lt(1, H::E), lt(6, H::R), k(H::T), k(H::LeftBracket), k(H::P), k(H::O), k(H::I), k(H::U), k(H::Y)],
            [k(H::LGui), k(H::A), k(H::S), k(H::D), mt(H::F, MOD_LCTRL), mt(H::G, MOD_LALT), mt(H::Quote, MOD_LCTRL), k(H::Semicolon), k(H::L), k(H::K), k(H::J), k(H::H)],
            [k(H::RGui), k(H::Z), k(H::X), k(H::C), k(H::V), k(H::B), mt(H::Escape, MOD_LALT), k(H::Slash), k(H::Dot), k(H::Comma), k(H::M), k(H::N)],
            [no(), mt(H::Space, MOD_LSHIFT), no(), mt(H::Delete, MOD_LGUI), lt(2, H::Delete), no(), no(), mt(H::Enter, MOD_LSHIFT), no(), lt(3, H::Backspace), no(), no()],
        ],
        // Mouse
        [
            [trns(), trns(), mo(7), mo(6), trns(), trns(), trns(), trns(), trns(), trns(), trns(), trns()],
            [trns(), k(H::LGui), k(H::LAlt), k(H::LShift), k(H::LCtrl), trns(), trns(), trns(), k(H::MouseBtn3), k(H::MouseBtn2), k(H::MouseBtn1), trns()],
            [trns(), trns(), trns(), mo(3), mo(2), trns(), trns(), trns(), trns(), trns(), trns(), trns()],
            [no(), k(H::MouseBtn1), no(), k(H::MouseBtn2), k(H::MouseBtn3), no(), no(), trns(), no(), to(0), no(), no()],
        ],
        // Symbol
        [
            [wm(H::Insert, MOD_RSHIFT), wm(H::Kc1, MOD_LSHIFT), wm(H::Kc2, MOD_LSHIFT), wm(H::Kc3, MOD_LSHIFT), wm(H::Kc4, MOD_LSHIFT), wm(H::Kc5, MOD_LSHIFT), k(H::Backspace), wm(H::Kc0, MOD_LSHIFT), wm(H::Kc9, MOD_LSHIFT), wm(H::Kc8, MOD_LSHIFT), wm(H::Kc7, MOD_LSHIFT), wm(H::Kc6, MOD_LSHIFT)],
            [k(H::LCtrl), tg(4), no(), k(H::RGui), k(H::Backspace), tg(3), k(H::Grave), k(H::Backslash), k(H::RightBracket), k(H::LeftBracket), k(H::Equal), k(H::Minus)],
            [k(H::LAlt), tg(5), wm(H::X, MOD_LCTRL), no(), wm(H::P, MOD_LCTRL | MOD_LALT), no(), wm(H::Grave, MOD_LSHIFT), wm(H::Backslash, MOD_LSHIFT), wm(H::RightBracket, MOD_LSHIFT), wm(H::LeftBracket, MOD_LSHIFT), wm(H::Equal, MOD_LSHIFT), wm(H::Minus, MOD_LSHIFT)],
            [no(), k(H::Space), no(), k(H::RGui), trns(), no(), no(), mt(H::Enter, MOD_LSHIFT), no(), trns(), no(), no()],
        ],
        // Number
        [
            [wm(H::C, MOD_RCTRL), k(H::Kc1), k(H::Kc2), k(H::Kc3), k(H::Kc4), k(H::Kc5), k(H::Semicolon), k(H::Kc0), k(H::Kc9), k(H::Kc8), k(H::Kc7), k(H::Kc6)],
            [wm(H::V, MOD_RCTRL), wm(H::I, MOD_RCTRL | MOD_LSHIFT), k(H::Home), k(H::End), k(H::Backspace), wm(H::F12, MOD_LCTRL), mt(H::F12, MOD_LCTRL), k(H::Minus), k(H::Right), k(H::Up), k(H::Down), k(H::Left)],
            [wm(H::X, MOD_RCTRL), k(H::F1), k(H::F2), k(H::F3), k(H::F4), k(H::F5), k(H::F11), k(H::F10), k(H::F9), k(H::F8), k(H::F7), k(H::F6)],
            [no(), mt(H::Tab, MOD_LCTRL), no(), wm(H::F3, MOD_LCTRL), k(H::LAlt), no(), no(), mt(H::Enter, MOD_LSHIFT), no(), trns(), no(), no()],
        ],
        // Function
        [
            [trns(), wm(H::Delete, MOD_LCTRL | MOD_LALT), k(H::F7), k(H::F8), k(H::F9), k(H::F10), trns(), no(), no(), no(), no(), no()],
            [trns(), no(), k(H::F4), k(H::F5), k(H::F6), k(H::F11), trns(), k(H::LGui), k(H::LAlt), k(H::LShift), k(H::LCtrl), no()],
            [trns(), no(), k(H::F1), k(H::F2), k(H::F3), k(H::F12), trns(), no(), no(), no(), no(), no()],
            [no(), no(), no(), no(), no(), no(), no(), no(), no(), no(), no(), no()],
        ],
        // Button (Game)
        [
            [k(H::Escape), k(H::Escape), k(H::Q), k(H::W), k(H::E), k(H::R), trns(), no(), no(), no(), no(), no()],
            [trns(), k(H::LCtrl), k(H::A), k(H::S), k(H::D), k(H::F), trns(), no(), k(H::MouseBtn3), k(H::MouseBtn2), k(H::MouseBtn1), no()],
            [trns(), k(H::LShift), k(H::Z), k(H::X), k(H::C), k(H::V), trns(), k(H::Kc5), k(H::Kc4), k(H::Kc3), k(H::Kc2), k(H::Kc1)],
            [no(), k(H::M), no(), k(H::LAlt), k(H::Space), no(), no(), k(H::T), no(), k(H::B), no(), no()],
        ],
        // MouseSnip (Sniper Mode: 1/6 speed)
        [
            [trns(), trns(), mo(7), trns(), trns(), trns(), trns(), trns(), trns(), trns(), trns(), trns()],
            [trns(), k(H::LGui), k(H::LAlt), k(H::LShift), k(H::LCtrl), trns(), trns(), trns(), k(H::MouseBtn3), k(H::MouseBtn2), k(H::MouseBtn1), trns()],
            [trns(), trns(), trns(), mo(3), mo(2), trns(), trns(), trns(), trns(), trns(), trns(), trns()],
            [no(), k(H::MouseBtn1), no(), k(H::MouseBtn2), k(H::MouseBtn3), no(), no(), trns(), no(), to(0), no(), no()],
        ],
        // MouseScroll (Scroll Mode: 1/3 speed, Y inverted)
        [
            [trns(), trns(), mo(7), mo(6), trns(), trns(), trns(), trns(), trns(), trns(), trns(), trns()],
            [trns(), k(H::LGui), k(H::LAlt), k(H::LShift), k(H::LCtrl), trns(), trns(), trns(), k(H::MouseBtn3), k(H::MouseBtn2), k(H::MouseBtn1), trns()],
            [trns(), trns(), trns(), mo(3), mo(2), trns(), trns(), trns(), trns(), trns(), trns(), trns()],
            [no(), k(H::MouseBtn1), no(), k(H::MouseBtn2), k(H::MouseBtn3), no(), no(), trns(), no(), to(0), no(), no()],
        ],
        // Reset (Bootloader, Dual-Dongle & BLE profile switching)
        [
            [user(8), user(9), user(0), user(1), user(2), bootloader(), trns(), no(), no(), no(), no(), no()],
            [trns(), no(), no(), no(), no(), no(), trns(), no(), no(), no(), no(), no()],
            [trns(), no(), no(), no(), no(), no(), trns(), no(), no(), no(), no(), no()],
            [no(), bootloader(), no(), no(), no(), no(), no(), bootloader(), no(), no(), no(), no()],
        ],
    ];
    assert(spec_layers(r) =~~= spec_default_keymap());
    r
}

} // verus!
