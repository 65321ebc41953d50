//! Canonical input events: their sources, payloads, and the raw
//! platform callbacks they are normalized from. Pointer coordinates are
//! carried as 64-bit patterns of the platform's binary floating-point
//! values; the serialization boundary restores the numeric form.

use vstd::prelude::*;

use crate::keys::Button;
use crate::keys::Key;

verus! {

/// The origin of an event; immutable once created.
#[derive(Clone, Copy, Debug, PartialEq, Eq, Structural)]
pub enum InputSource {
    Keyboard,
    MouseMove,
    MouseButton,
    MouseWheel,
}

/// A key or a mouse button, as a raw platform code.
#[derive(Clone, Copy, Debug, PartialEq, Eq, Structural)]
pub enum KeyButton {
    Key(Key),
    Button(Button),
}

/// One raw OS hook callback, before normalization.
#[derive(Clone, Copy, Debug, PartialEq, Eq, Structural)]
pub enum RawEvent {
    KeyPress(Key),
    KeyRelease(Key),
    ButtonPress(Button),
    ButtonRelease(Button),
    MouseMove { x_bits: u64, y_bits: u64 },
    Wheel { delta_x: i64, delta_y: i64 },
}

/// Abstract value of an [`InputInfo`].
pub ghost enum InputInfoV {
    Pressing { name: Seq<char>, pressing: bool },
    Coord { x_bits: u64, y_bits: u64, screen_size: (u64, u64) },
    Roll { delta_x: i64, delta_y: i64 },
}

/// The payload of an event; its shape is constrained by the event's
/// [`InputSource`].
#[derive(Debug, PartialEq)]
pub enum InputInfo {
    /// For keyboard keys and mouse buttons: the canonical identifier
    /// and whether it is now held.
    Pressing { name: String, pressing: bool },
    /// For pointer moves: the absolute position (as 64-bit patterns)
    /// and the display resolution, fixed per process lifetime.
    Coord { x_bits: u64, y_bits: u64, screen_size: (u64, u64) },
    /// For wheel events: the relative scroll deltas.
    Roll { delta_x: i64, delta_y: i64 },
}

impl View for InputInfo {
    type V = InputInfoV;

    open spec fn view(&self) -> InputInfoV {
        match *self {
            InputInfo::Pressing { name, pressing } => InputInfoV::Pressing {
                name: name@,
                pressing,
            },
            InputInfo::Coord { x_bits, y_bits, screen_size } => InputInfoV::Coord {
                x_bits,
                y_bits,
                screen_size,
            },
            InputInfo::Roll { delta_x, delta_y } => InputInfoV::Roll { delta_x, delta_y },
        }
    }
}

impl Clone for InputInfo {
    fn clone(&self) -> (r: Self)
        ensures
            r@ == self@,
    {
        match self {
            InputInfo::Pressing { name, pressing } => InputInfo::Pressing {
                name: name.clone(),
                pressing: *pressing,
            },
            InputInfo::Coord { x_bits, y_bits, screen_size } => InputInfo::Coord {
                x_bits: *x_bits,
                y_bits: *y_bits,
                screen_size: *screen_size,
            },
            InputInfo::Roll { delta_x, delta_y } => InputInfo::Roll {
                delta_x: *delta_x,
                delta_y: *delta_y,
            },
        }
    }
}

/// Abstract value of an [`InputMessage`].
pub ghost struct InputMessageV {
    pub source: InputSource,
    pub info: InputInfoV,
    pub time: u64,
}

/// One normalized input event, carrying the OS-reported event time in
/// milliseconds.
#[derive(Debug, PartialEq)]
pub struct InputMessage {
    /// The origin of the event.
    pub source: InputSource,
    /// The payload, shaped by `source`.
    pub info: InputInfo,
    /// The OS-reported event time, in milliseconds.
    pub time: u64,
}

impl View for InputMessage {
    type V = InputMessageV;

    open spec fn view(&self) -> InputMessageV {
        InputMessageV { source: self.source, info: self.info@, time: self.time }
    }
}

impl Clone for InputMessage {
    fn clone(&self) -> (r: Self)
        ensures
            r@ == self@,
    {
        InputMessage { source: self.source, info: self.info.clone(), time: self.time }
    }
}

} // verus!
