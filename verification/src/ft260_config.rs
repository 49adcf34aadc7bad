//! Decoder for the chip's 15-byte device status report: each field comes from
//! one byte (or a sub-byte bit field) of the fixed layout, and every raw value
//! outside a field's documented set fails the whole decode with the name of
//! the offending field.

use vstd::prelude::*;

use crate::{ConfigField, ProtocolError};

verus! {

/// Chip mode strapping, from bit 0 of status byte 1.
#[derive(Clone, Copy, Debug, PartialEq, Eq, Structural)]
pub enum ChipMode {
    DCNF0,
    DCNF1,
}

/// System clock selection, from status byte 2.
#[derive(Clone, Copy, Debug, PartialEq, Eq, Structural)]
pub enum ClkCtl {
    MHz12,
    MHz24,
    MHz48,
}

/// Suspend state, from status byte 3.
#[derive(Clone, Copy, Debug, PartialEq, Eq, Structural)]
pub enum SuspendStatus {
    NotSuspended,
    Suspended,
}

/// Power-ready state, from status byte 4.
#[derive(Clone, Copy, Debug, PartialEq, Eq, Structural)]
pub enum PwrenStatus {
    NotReady,
    Ready,
}

/// I2C function state, from status byte 5.
#[derive(Clone, Copy, Debug, PartialEq, Eq, Structural)]
pub enum I2cEnable {
    Disabled,
    Enabled,
}

/// UART flow-control mode, from status byte 6.
#[derive(Clone, Copy, Debug, PartialEq, Eq, Structural)]
pub enum UartMode {
    Off,
    RtsCts,
    DtrDsr,
    XonXoff,
    NoFlowControl,
}

/// HID-over-I2C configuration state, from status byte 7.
#[derive(Clone, Copy, Debug, PartialEq, Eq, Structural)]
pub enum HidOverI2cEnable {
    NotConfigured,
    Configured,
}

/// GPIO2 pin function, from status byte 8.
#[derive(Clone, Copy, Debug, PartialEq, Eq, Structural)]
pub enum Gpio2Function {
    Gpio,
    SuspOut,
    PwrenLowActive,
    TxLed,
}

/// GPIOA pin function, from status byte 9.
#[derive(Clone, Copy, Debug, PartialEq, Eq, Structural)]
pub enum GpioAFunction {
    Gpio,
    TxActive,
    TxLed,
}

/// GPIOG pin function, from status byte 10.
#[derive(Clone, Copy, Debug, PartialEq, Eq, Structural)]
pub enum GpioGFunction {
    Gpio,
    PwrenLowActive,
    RxLed,
    BcdDet,
}

/// Suspend-output polarity, from status byte 11.
#[derive(Clone, Copy, Debug, PartialEq, Eq, Structural)]
pub enum SuspendOutPol {
    ActiveHigh,
    ActiveLow,
}

/// Interrupt trigger condition, from the low two bits of status byte 13.
#[derive(Clone, Copy, Debug, PartialEq, Eq, Structural)]
pub enum IntrCond {
    RisingEdge,
    LevelHigh,
    FallingEdge,
    LevelLow,
}

/// Interrupt level duration, from bits 2..=3 of status byte 13.
#[derive(Clone, Copy, Debug, PartialEq, Eq, Structural)]
pub enum IntrLevelDuration {
    Ms1,
    Ms5,
    Ms30,
}

/// Snapshot of the chip's configuration as one status report describes it.
#[derive(Clone, Copy, Debug, PartialEq, Eq, Structural)]
pub struct Ft260Config {
    pub report_id: u8,
    pub chip_mode: ChipMode,
    pub clk_ctl: ClkCtl,
    pub suspend_status: SuspendStatus,
    pub pwren_status: PwrenStatus,
    pub i2c_enable: bool,
    pub uart_mode: UartMode,
    pub hid_over_i2c_enable: bool,
    pub gpio2_function: Gpio2Function,
    pub gpio_a_function: GpioAFunction,
    pub gpio_g_function: GpioGFunction,
    pub suspend_out_pol: SuspendOutPol,
    pub enable_wakeup_int: bool,
    pub intr_cond: IntrCond,
    pub intr_level_duration: IntrLevelDuration,
    pub enable_power_saving: bool,
}

/// Chip mode read from bit 0 of its status byte; both bit values are valid.
pub open spec fn chip_mode_of(raw: u8) -> ChipMode {
    if raw & 1 != 0 {
        ChipMode::DCNF0
    } else {
        ChipMode::DCNF1
    }
}

/// Clock selection read from its status byte; only 0, 1 and 2 are documented.
pub open spec fn clk_ctl_of(raw: u8) -> Option<ClkCtl> {
    if raw == 0 {
        Some(ClkCtl::MHz12)
    } else if raw == 1 {
        Some(ClkCtl::MHz24)
    } else if raw == 2 {
        Some(ClkCtl::MHz48)
    } else {
        None
    }
}

/// Suspend state read from its status byte; any nonzero byte means suspended.
pub open spec fn suspend_status_of(raw: u8) -> SuspendStatus {
    if raw == 0 {
        SuspendStatus::NotSuspended
    } else {
        SuspendStatus::Suspended
    }
}

/// Power-ready state read from its status byte; any nonzero byte means ready.
pub open spec fn pwren_status_of(raw: u8) -> PwrenStatus {
    if raw == 0 {
        PwrenStatus::NotReady
    } else {
        PwrenStatus::Ready
    }
}

/// UART flow-control mode read from its status byte; only 0 through 4 are
/// documented.
pub open spec fn uart_mode_of(raw: u8) -> Option<UartMode> {
    if raw == 0 {
        Some(UartMode::Off)
    } else if raw == 1 {
        Some(UartMode::RtsCts)
    } else if raw == 2 {
        Some(UartMode::DtrDsr)
    } else if raw == 3 {
        Some(UartMode::XonXoff)
    } else if raw == 4 {
        Some(UartMode::NoFlowControl)
    } else {
        None
    }
}

/// GPIO2 function read from its status byte; only 0, 1, 2 and 4 are
/// documented.
pub open spec fn gpio2_function_of(raw: u8) -> Option<Gpio2Function> {
    if raw == 0 {
        Some(Gpio2Function::Gpio)
    } else if raw == 1 {
        Some(Gpio2Function::SuspOut)
    } else if raw == 2 {
        Some(Gpio2Function::PwrenLowActive)
    } else if raw == 4 {
        Some(Gpio2Function::TxLed)
    } else {
        None
    }
}

/// GPIOA function read from its status byte; only 0, 3 and 4 are documented.
pub open spec fn gpio_a_function_of(raw: u8) -> Option<GpioAFunction> {
    if raw == 0 {
        Some(GpioAFunction::Gpio)
    } else if raw == 3 {
        Some(GpioAFunction::TxActive)
    } else if raw == 4 {
        Some(GpioAFunction::TxLed)
    } else {
        None
    }
}

/// GPIOG function read from its status byte; only 0, 2, 5 and 6 are
/// documented.
pub open spec fn gpio_g_function_of(raw: u8) -> Option<GpioGFunction> {
    if raw == 0 {
        Some(GpioGFunction::Gpio)
    } else if raw == 2 {
        Some(GpioGFunction::PwrenLowActive)
    } else if raw == 5 {
        Some(GpioGFunction::RxLed)
    } else if raw == 6 {
        Some(GpioGFunction::BcdDet)
    } else {
        None
    }
}

/// Suspend-output polarity read from its status byte; any nonzero byte means
/// active low.
pub open spec fn suspend_out_pol_of(raw: u8) -> SuspendOutPol {
    if raw == 0 {
        SuspendOutPol::ActiveHigh
    } else {
        SuspendOutPol::ActiveLow
    }
}

/// Interrupt condition read from the low two bits of the packed byte; all
/// four values are valid.
pub open spec fn intr_cond_of(packed: u8) -> IntrCond {
    if packed & 3 == 0 {
        IntrCond::RisingEdge
    } else if packed & 3 == 1 {
        IntrCond::LevelHigh
    } else if packed & 3 == 2 {
        IntrCond::FallingEdge
    } else {
        IntrCond::LevelLow
    }
}

/// Interrupt level duration read from bits 2..=3 of the packed byte; only 1,
/// 2 and 3 are documented, 0 is out of range.
pub open spec fn intr_level_duration_of(packed: u8) -> Option<IntrLevelDuration> {
    if (packed >> 2) & 3 == 1 {
        Some(IntrLevelDuration::Ms1)
    } else if (packed >> 2) & 3 == 2 {
        Some(IntrLevelDuration::Ms5)
    } else if (packed >> 2) & 3 == 3 {
        Some(IntrLevelDuration::Ms30)
    } else {
        None
    }
}

impl ChipMode {
    /// Decodes the chip mode from its status byte.
    pub fn from_raw(raw: u8) -> (r: ChipMode)
        ensures
            r == chip_mode_of(raw),
    {
        if raw & 1 != 0 {
            ChipMode::DCNF0
        } else {
            ChipMode::DCNF1
        }
    }
}

impl ClkCtl {
    /// Decodes the clock selection, rejecting any byte outside its set.
    pub fn from_raw(raw: u8) -> (r: Result<ClkCtl, ProtocolError>)
        ensures
            (clk_ctl_of(raw) matches Some(v) && r == Ok::<ClkCtl, ProtocolError>(v))
                || (clk_ctl_of(raw) is None
                    && r == Err::<ClkCtl, ProtocolError>(
                        ProtocolError::UnknownConfigValue(ConfigField::ClkCtl))),
    {
        match raw {
            0 => Ok(ClkCtl::MHz12),
            1 => Ok(ClkCtl::MHz24),
            2 => Ok(ClkCtl::MHz48),
            _ => Err(ProtocolError::UnknownConfigValue(ConfigField::ClkCtl)),
        }
    }
}

impl SuspendStatus {
    /// Decodes the suspend state from its status byte.
    pub fn from_raw(raw: u8) -> (r: SuspendStatus)
        ensures
            r == suspend_status_of(raw),
    {
        if raw == 0 {
            SuspendStatus::NotSuspended
        } else {
            SuspendStatus::Suspended
        }
    }
}

impl PwrenStatus {
    /// Decodes the power-ready state from its status byte.
    pub fn from_raw(raw: u8) -> (r: PwrenStatus)
        ensures
            r == pwren_status_of(raw),
    {
        if raw == 0 {
            PwrenStatus::NotReady
        } else {
            PwrenStatus::Ready
        }
    }
}

impl UartMode {
    /// Decodes the flow-control mode, rejecting any byte outside its set.
    pub fn from_raw(raw: u8) -> (r: Result<UartMode, ProtocolError>)
        ensures
            (uart_mode_of(raw) matches Some(v) && r == Ok::<UartMode, ProtocolError>(v))
                || (uart_mode_of(raw) is None
                    && r == Err::<UartMode, ProtocolError>(
                        ProtocolError::UnknownConfigValue(ConfigField::UartMode))),
    {
        match raw {
            0 => Ok(UartMode::Off),
            1 => Ok(UartMode::RtsCts),
            2 => Ok(UartMode::DtrDsr),
            3 => Ok(UartMode::XonXoff),
            4 => Ok(UartMode::NoFlowControl),
            _ => Err(ProtocolError::UnknownConfigValue(ConfigField::UartMode)),
        }
    }
}

impl Gpio2Function {
    /// Decodes the GPIO2 function, rejecting any byte outside its set.
    pub fn from_raw(raw: u8) -> (r: Result<Gpio2Function, ProtocolError>)
        ensures
            (gpio2_function_of(raw) matches Some(v)
                && r == Ok::<Gpio2Function, ProtocolError>(v))
                || (gpio2_function_of(raw) is None
                    && r == Err::<Gpio2Function, ProtocolError>(
                        ProtocolError::UnknownConfigValue(ConfigField::Gpio2Function))),
    {
        match raw {
            0 => Ok(Gpio2Function::Gpio),
            1 => Ok(Gpio2Function::SuspOut),
            2 => Ok(Gpio2Function::PwrenLowActive),
            4 => Ok(Gpio2Function::TxLed),
            _ => Err(ProtocolError::UnknownConfigValue(ConfigField::Gpio2Function)),
        }
    }
}

impl GpioAFunction {
    /// Decodes the GPIOA function, rejecting any byte outside its set.
    pub fn from_raw(raw: u8) -> (r: Result<GpioAFunction, ProtocolError>)
        ensures
            (gpio_a_function_of(raw) matches Some(v)
                && r == Ok::<GpioAFunction, ProtocolError>(v))
                || (gpio_a_function_of(raw) is None
                    && r == Err::<GpioAFunction, ProtocolError>(
                        ProtocolError::UnknownConfigValue(ConfigField::GpioAFunction))),
    {
        match raw {
            0 => Ok(GpioAFunction::Gpio),
            3 => Ok(GpioAFunction::TxActive),
            4 => Ok(GpioAFunction::TxLed),
            _ => Err(ProtocolError::UnknownConfigValue(ConfigField::GpioAFunction)),
        }
    }
}

impl GpioGFunction {
    /// Decodes the GPIOG function, rejecting any byte outside its set.
    pub fn from_raw(raw: u8) -> (r: Result<GpioGFunction, ProtocolError>)
        ensures
            (gpio_g_function_of(raw) matches Some(v)
                && r == Ok::<GpioGFunction, ProtocolError>(v))
                || (gpio_g_function_of(raw) is None
                    && r == Err::<GpioGFunction, ProtocolError>(
                        ProtocolError::UnknownConfigValue(ConfigField::GpioGFunction))),
    {
        match raw {
            0 => Ok(GpioGFunction::Gpio),
            2 => Ok(GpioGFunction::PwrenLowActive),
            5 => Ok(GpioGFunction::RxLed),
            6 => Ok(GpioGFunction::BcdDet),
            _ => Err(ProtocolError::UnknownConfigValue(ConfigField::GpioGFunction)),
        }
    }
}

impl SuspendOutPol {
    /// Decodes the suspend-output polarity from its status byte.
    pub fn from_raw(raw: u8) -> (r: SuspendOutPol)
        ensures
            r == suspend_out_pol_of(raw),
    {
        if raw == 0 {
            SuspendOutPol::ActiveHigh
        } else {
            SuspendOutPol::ActiveLow
        }
    }
}

impl IntrCond {
    /// Decodes the interrupt condition from the low two bits of the packed
    /// byte.
    pub fn from_packed(packed: u8) -> (r: IntrCond)
        ensures
            r == intr_cond_of(packed),
    {
        let low: u8 = packed & 3;
        if low == 0 {
            IntrCond::RisingEdge
        } else if low == 1 {
            IntrCond::LevelHigh
        } else if low == 2 {
            IntrCond::FallingEdge
        } else {
            IntrCond::LevelLow
        }
    }
}

impl IntrLevelDuration {
    /// Decodes the interrupt level duration from bits 2..=3 of the packed
    /// byte, rejecting the one out-of-range value.
    pub fn from_packed(packed: u8) -> (r: Result<IntrLevelDuration, ProtocolError>)
        ensures
            (intr_level_duration_of(packed) matches Some(v)
                && r == Ok::<IntrLevelDuration, ProtocolError>(v))
                || (intr_level_duration_of(packed) is None
                    && r == Err::<IntrLevelDuration, ProtocolError>(
                        ProtocolError::UnknownConfigValue(ConfigField::IntrLevelDuration))),
    {
        let bits: u8 = (packed >> 2) & 3;
        if bits == 1 {
            Ok(IntrLevelDuration::Ms1)
        } else if bits == 2 {
            Ok(IntrLevelDuration::Ms5)
        } else if bits == 3 {
            Ok(IntrLevelDuration::Ms30)
        } else {
            Err(ProtocolError::UnknownConfigValue(ConfigField::IntrLevelDuration))
        }
    }
}

/// Whether every enumerated field of the status report carries a raw value
/// inside its documented set. The remaining fields accept any byte.
pub open spec fn config_bytes_valid(data: Seq<u8>) -> bool
    recommends
        data.len() >= 15,
{
    &&& clk_ctl_of(data[2]) is Some
    &&& uart_mode_of(data[6]) is Some
    &&& gpio2_function_of(data[8]) is Some
    &&& gpio_a_function_of(data[9]) is Some
    &&& gpio_g_function_of(data[10]) is Some
    &&& intr_level_duration_of(data[13]) is Some
}

/// The first field, in status-report layout order, whose raw value is
/// outside its documented set.
pub open spec fn first_invalid_field(data: Seq<u8>) -> ConfigField
    recommends
        data.len() >= 15,
        !config_bytes_valid(data),
{
    if clk_ctl_of(data[2]) is None {
        ConfigField::ClkCtl
    } else if uart_mode_of(data[6]) is None {
        ConfigField::UartMode
    } else if gpio2_function_of(data[8]) is None {
        ConfigField::Gpio2Function
    } else if gpio_a_function_of(data[9]) is None {
        ConfigField::GpioAFunction
    } else if gpio_g_function_of(data[10]) is None {
        ConfigField::GpioGFunction
    } else {
        ConfigField::IntrLevelDuration
    }
}

/// The configuration a valid status report describes, field by field.
pub open spec fn spec_config(data: Seq<u8>) -> Ft260Config
    recommends
        data.len() >= 15,
        config_bytes_valid(data),
{
    Ft260Config {
        report_id: data[0],
        chip_mode: chip_mode_of(data[1]),
        clk_ctl: clk_ctl_of(data[2]).unwrap(),
        suspend_status: suspend_status_of(data[3]),
        pwren_status: pwren_status_of(data[4]),
        i2c_enable: data[5] != 0,
        uart_mode: uart_mode_of(data[6]).unwrap(),
        hid_over_i2c_enable: data[7] != 0,
        gpio2_function: gpio2_function_of(data[8]).unwrap(),
        gpio_a_function: gpio_a_function_of(data[9]).unwrap(),
        gpio_g_function: gpio_g_function_of(data[10]).unwrap(),
        suspend_out_pol: suspend_out_pol_of(data[11]),
        enable_wakeup_int: data[12] != 0,
        intr_cond: intr_cond_of(data[13]),
        intr_level_duration: intr_level_duration_of(data[13]).unwrap(),
        enable_power_saving: data[14] != 0,
    }
}

impl Ft260Config {
    /// Decodes a device status report. A report whose enumerated fields all
    /// lie in their documented sets decodes to exactly the configuration it
    /// describes; otherwise the decode fails naming the first field, in
    /// layout order, whose raw value is out of range.
    pub fn from_bytes(data_slice: &[u8]) -> (r: Result<Ft260Config, ProtocolError>)
        requires
            data_slice@.len() >= 15,
        ensures
            config_bytes_valid(data_slice@)
                ==> (r matches Ok(c) && c == spec_config(data_slice@)),
            !config_bytes_valid(data_slice@)
                ==> r == Err::<Ft260Config, ProtocolError>(
                    ProtocolError::UnknownConfigValue(first_invalid_field(data_slice@))),
    {
        let clk_ctl = match ClkCtl::from_raw(data_slice[2]) {
            Ok(v) => v,
            Err(e) => {
                return Err(e);
            },
        };
        let uart_mode = match UartMode::from_raw(data_slice[6]) {
            Ok(v) => v,
            Err(e) => {
                return Err(e);
            },
        };
        let gpio2_function = match Gpio2Function::from_raw(data_slice[8]) {
            Ok(v) => v,
            Err(e) => {
                return Err(e);
            },
        };
        let gpio_a_function = match GpioAFunction::from_raw(data_slice[9]) {
            Ok(v) => v,
            Err(e) => {
                return Err(e);
            },
        };
        let gpio_g_function = match GpioGFunction::from_raw(data_slice[10]) {
            Ok(v) => v,
            Err(e) => {
                return Err(e);
            },
        };
        let intr_level_duration = match IntrLevelDuration::from_packed(data_slice[13]) {
            Ok(v) => v,
            Err(e) => {
                return Err(e);
            },
        };
        Ok(Ft260Config {
            report_id: data_slice[0],
            chip_mode: ChipMode::from_raw(data_slice[1]),
            clk_ctl,
            suspend_status: SuspendStatus::from_raw(data_slice[3]),
            pwren_status: PwrenStatus::from_raw(data_slice[4]),
            i2c_enable: data_slice[5] != 0,
            uart_mode,
            hid_over_i2c_enable: data_slice[7] != 0,
            gpio2_function,
            gpio_a_function,
            gpio_g_function,
            suspend_out_pol: SuspendOutPol::from_raw(data_slice[11]),
            enable_wakeup_int: data_slice[12] != 0,
            intr_cond: IntrCond::from_packed(data_slice[13]),
            intr_level_duration,
            enable_power_saving: data_slice[14] != 0,
        })
    }
}

} // verus!
