//! The pointing mode that follows the active layer: sniper on the precision
//! layer, scrolling on the scroll layer, the cursor everywhere else.
use vstd::prelude::*;

verus! {

/// The layer on which the trackball moves the cursor at reduced speed.
pub const SNIPER_LAYER: u8 = 6;

/// The layer on which the trackball scrolls.
pub const SCROLL_LAYER: u8 = 7;

/// The device id that addresses every pointing device.
pub const ALL_POINTING_DEVICES: u8 = 255;

/// Cursor motion scaling.
#[derive(Clone, Copy, Debug, PartialEq, Eq, Structural)]
pub struct CursorConfig {
    pub multiplier: u8,
    pub divisor: u8,
    pub invert_x: bool,
    pub invert_y: bool,
}

impl CursorConfig {
    /// Unscaled, uninverted cursor motion.
    pub fn default() -> (r: CursorConfig)
        ensures
            r == spec_default_cursor(),
    {
        CursorConfig { multiplier: 1, divisor: 1, invert_x: false, invert_y: false }
    }
}

/// Unscaled, uninverted cursor motion.
pub open spec fn spec_default_cursor() -> CursorConfig {
    CursorConfig { multiplier: 1, divisor: 1, invert_x: false, invert_y: false }
}

/// Reduced-speed cursor motion.
#[derive(Clone, Copy, Debug, PartialEq, Eq, Structural)]
pub struct SniperConfig {
    pub multiplier: u8,
    pub divisor: u8,
    pub invert_x: bool,
    pub invert_y: bool,
}

/// Motion turned into scrolling.
#[derive(Clone, Copy, Debug, PartialEq, Eq, Structural)]
pub struct ScrollConfig {
    pub multiplier_x: u8,
    pub divisor_x: u8,
    pub multiplier_y: u8,
    pub divisor_y: u8,
    pub invert_x: bool,
    pub invert_y: bool,
}

/// What the trackball's motion does.
#[derive(Clone, Copy, Debug, PartialEq, Eq, Structural)]
pub enum PointingMode {
    Cursor(CursorConfig),
    Sniper(SniperConfig),
    Scroll(ScrollConfig),
}

/// A change of pointing mode for the given device.
#[derive(Clone, Copy, Debug, PartialEq, Eq, Structural)]
pub struct PointingProcessorEvent {
    pub device_id: u8,
    pub mode: PointingMode,
}

/// The pointing mode of a layer: 1:6 sniper motion on the sniper layer,
/// 1:3 scrolling with the vertical axis inverted on the scroll layer, plain
/// cursor motion elsewhere.
pub open spec fn spec_mode_for_layer(layer: u8) -> PointingMode {
    if layer == SNIPER_LAYER {
        PointingMode::Sniper(SniperConfig { multiplier: 1, divisor: 6, invert_x: false, invert_y: false })
    } else if layer == SCROLL_LAYER {
        PointingMode::Scroll(
            ScrollConfig {
                multiplier_x: 1,
                divisor_x: 3,
                multiplier_y: 1,
                divisor_y: 3,
                invert_x: false,
                invert_y: true,
            },
        )
    } else {
        PointingMode::Cursor(spec_default_cursor())
    }
}

/// Which layers change how the trackball moves: only the sniper layer slows
/// the cursor (1:6, no axis inverted), only the scroll layer turns motion into
/// scrolling (1:3 on both axes, the vertical one inverted), and every other
/// layer, the mouse layer included, gives normal cursor motion.
pub proof fn lemma_mode_follows_layer(layer: u8)
    ensures
        layer != SNIPER_LAYER && layer != SCROLL_LAYER ==> spec_mode_for_layer(layer) == PointingMode::Cursor(
            spec_default_cursor(),
        ),
        spec_mode_for_layer(layer) is Scroll <==> layer == 7,
        spec_mode_for_layer(layer) is Sniper <==> layer == 6,
        spec_mode_for_layer(layer) is Cursor <==> (layer != 6 && layer != 7),
        layer == 6 ==> spec_mode_for_layer(layer) == PointingMode::Sniper(
            SniperConfig { multiplier: 1, divisor: 6, invert_x: false, invert_y: false },
        ),
        layer == 7 ==> spec_mode_for_layer(layer) == PointingMode::Scroll(
            ScrollConfig { multiplier_x: 1, divisor_x: 3, multiplier_y: 1, divisor_y: 3, invert_x: false, invert_y: true },
        ),
{
}

/// Switches the pointing mode whenever the active layer changes.
pub struct PointingProcessorController;

impl PointingProcessorController {
    /// The controller.
    pub fn new() -> (r: PointingProcessorController)
        ensures
            r == PointingProcessorController,
    {
        PointingProcessorController
    }

    /// The event to publish when `layer` becomes active: every pointing
    /// device takes that layer's mode.
    pub fn on_layer_change_event(&mut self, layer: u8) -> (r: PointingProcessorEvent)
        ensures
            r.device_id == ALL_POINTING_DEVICES,
            r.mode == spec_mode_for_layer(layer),
    {
        match layer {
            // Precision layer: 1:6 scaling divisor.
            6 => PointingProcessorEvent {
                device_id: ALL_POINTING_DEVICES,
                mode: PointingMode::Sniper(SniperConfig { multiplier: 1, divisor: 6, invert_x: false, invert_y: false }),
            },
            // Scroll layer: 1:3 scaling divisor, vertical axis inverted.
            7 => PointingProcessorEvent {
                device_id: ALL_POINTING_DEVICES,
                mode: PointingMode::Scroll(
                    ScrollConfig {
                        multiplier_x: 1,
                        divisor_x: 3,
                        multiplier_y: 1,
                        divisor_y: 3,
                        invert_x: false,
                        invert_y: true,
                    },
                ),
            },
            // Everywhere else: normal cursor mode.
            _ => PointingProcessorEvent {
                device_id: ALL_POINTING_DEVICES,
                mode: PointingMode::Cursor(CursorConfig::default()),
            },
        }
    }
}

} // verus!
