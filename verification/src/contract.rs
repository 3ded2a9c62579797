//! Value types of the host/guest interface contract.
//!
//! Every value crossing the trust boundary is a plain record with every field
//! present.  Scalar quantities that the host merely forwards (positions,
//! sizes, colors, elapsed time) are carried as IEEE-754 single-precision bit
//! patterns in `u32` fields: the host never computes on them, it only hands
//! them between the guest and the scene graph, so bit-level identity is the
//! exact statement of what the host preserves.

use vstd::prelude::*;

verus! {

/// Directional input for one tick, both in its raw host-native form and in
/// the guest-mapped form returned by `map_input`.
#[derive(Clone, Copy, Debug, PartialEq, Eq, Structural)]
pub struct InputState {
    pub right: bool,
    pub left: bool,
    pub up: bool,
    pub down: bool,
}

/// Player position and speed, as IEEE-754 single-precision bit patterns.
#[derive(Clone, Copy, Debug, PartialEq, Eq, Structural)]
pub struct PlayerState {
    pub x_bits: u32,
    pub y_bits: u32,
    pub speed_bits: u32,
}

/// Bit pattern of the zero coordinate the player starts at.
pub const INITIAL_COORD_BITS: u32 = 0;

/// Bit pattern of the single-precision speed the player starts with
/// (two hundred distance units per second).
pub const INITIAL_SPEED_BITS: u32 = 0x4348_0000;

impl PlayerState {
    /// The state the host seeds the game with at startup.
    pub fn initial() -> (s: PlayerState)
        ensures
            s == (PlayerState {
                x_bits: INITIAL_COORD_BITS,
                y_bits: INITIAL_COORD_BITS,
                speed_bits: INITIAL_SPEED_BITS,
            }),
    {
        PlayerState {
            x_bits: INITIAL_COORD_BITS,
            y_bits: INITIAL_COORD_BITS,
            speed_bits: INITIAL_SPEED_BITS,
        }
    }
}

/// Configuration of a panel object the guest asks the host to create.
#[derive(Debug, Clone, PartialEq, Eq)]
pub struct PanelConfig {
    /// Guest-visible name; must not be live in the registry when applied.
    pub name: String,
    pub x_bits: u32,
    pub y_bits: u32,
    pub width_bits: u32,
    pub height_bits: u32,
    pub color_r_bits: u32,
    pub color_g_bits: u32,
    pub color_b_bits: u32,
    pub color_a_bits: u32,
}

/// Configuration of a text object the guest asks the host to create.
#[derive(Debug, Clone, PartialEq, Eq)]
pub struct TextConfig {
    /// Guest-visible name; must not be live in the registry when applied.
    pub name: String,
    /// Name of the object the text attaches to; must be live when applied.
    pub parent: String,
    pub text: String,
    pub font_size_bits: u32,
    pub color_r_bits: u32,
    pub color_g_bits: u32,
    pub color_b_bits: u32,
}

/// Error value a guest call hands back when it traps or breaks the contract.
/// The driver converts the sandbox's own error into this plain record.
#[derive(Debug, Clone, PartialEq, Eq)]
pub struct GuestError {
    pub message: String,
}

/// Severity of a diagnostic message.
#[derive(Clone, Copy, Debug, PartialEq, Eq, Structural)]
pub enum LogLevel {
    Info,
    Error,
}

/// A leveled message for the diagnostic sink.  Diagnostics never fail the
/// tick; the driver prints them after the orchestrator pass.
#[derive(Debug, Clone, PartialEq, Eq)]
pub struct Diagnostic {
    pub level: LogLevel,
    pub message: String,
}

impl Diagnostic {
    /// An error-level diagnostic with the given text.
    pub fn error(message: String) -> (d: Diagnostic)
        ensures
            d.level == LogLevel::Error,
            d.message@ == message@,
    {
        Diagnostic { level: LogLevel::Error, message }
    }

    /// An info-level diagnostic with the given text.
    pub fn info(message: String) -> (d: Diagnostic)
        ensures
            d.level == LogLevel::Info,
            d.message@ == message@,
    {
        Diagnostic { level: LogLevel::Info, message }
    }
}

} // verus!
