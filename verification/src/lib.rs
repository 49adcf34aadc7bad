//! Protocol layer for an FT260 USB bridge chip: builds the chip's fixed-layout
//! command and data-write report frames, recovers payloads from received
//! report buffers, and decodes the device status report into a structured
//! configuration snapshot. Transport (opening the device, sending and
//! receiving reports) is left to the caller.

use vstd::prelude::*;

pub mod frames;
pub mod ft260_config;
pub mod response;

verus! {

/// USB vendor id of the bridge chip.
pub const VENDOR_ID: u16 = 0x0403;

/// USB product id of the bridge chip.
pub const PRODUCT_ID: u16 = 0x6030;

/// The status-report fields whose raw byte can fall outside the documented
/// value set; a failed decode names the offending field.
#[derive(Clone, Copy, Debug, PartialEq, Eq, Structural)]
pub enum ConfigField {
    ClkCtl,
    UartMode,
    Gpio2Function,
    GpioAFunction,
    GpioGFunction,
    IntrLevelDuration,
}

/// Everything that can go wrong in this protocol layer. Transport failures
/// (timeouts, device errors) belong to the transport and never reach here.
#[derive(Clone, Copy, Debug, PartialEq, Eq, Structural)]
pub enum ProtocolError {
    /// A data-write payload exceeds the largest size a single report carries.
    PayloadTooLarge,
    /// A received buffer's declared payload length exceeds its capacity.
    MalformedFrame,
    /// A status-report field's raw value is outside its documented set.
    UnknownConfigValue(ConfigField),
}

} // verus!
