use ft260::ft260_config::{
    ChipMode, ClkCtl, Ft260Config, Gpio2Function, GpioAFunction, GpioGFunction, IntrCond,
    IntrLevelDuration, PwrenStatus, SuspendOutPol, SuspendStatus, UartMode,
};
use ft260::{ConfigField, ProtocolError};

/// A status report whose every field lies in its documented set.
fn valid_report() -> [u8; 15] {
    let mut data = [0u8; 15];
    data[0] = 0xB0; // report id
    data[1] = 0x01; // chip mode: bit 0 set
    data[2] = 1; // clock: 24 MHz
    data[3] = 0; // not suspended
    data[4] = 1; // power ready
    data[5] = 1; // i2c enabled
    data[6] = 4; // no flow control
    data[7] = 0; // hid-over-i2c not configured
    data[8] = 2; // gpio2: pwren, low active
    data[9] = 3; // gpioa: tx active
    data[10] = 5; // gpiog: rx led
    data[11] = 1; // suspend out active low
    data[12] = 1; // wakeup interrupt enabled
    data[13] = 0b0000_0101; // condition: level high, duration: 1 ms
    data[14] = 0; // power saving disabled
    data
}

#[test]
fn decode_full_valid_report() {
    let config = Ft260Config::from_bytes(&valid_report()).unwrap();
    assert_eq!(config.report_id, 0xB0);
    assert_eq!(config.chip_mode, ChipMode::DCNF0);
    assert_eq!(config.clk_ctl, ClkCtl::MHz24);
    assert_eq!(config.suspend_status, SuspendStatus::NotSuspended);
    assert_eq!(config.pwren_status, PwrenStatus::Ready);
    assert!(config.i2c_enable);
    assert_eq!(config.uart_mode, UartMode::NoFlowControl);
    assert!(!config.hid_over_i2c_enable);
    assert_eq!(config.gpio2_function, Gpio2Function::PwrenLowActive);
    assert_eq!(config.gpio_a_function, GpioAFunction::TxActive);
    assert_eq!(config.gpio_g_function, GpioGFunction::RxLed);
    assert_eq!(config.suspend_out_pol, SuspendOutPol::ActiveLow);
    assert!(config.enable_wakeup_int);
    assert_eq!(config.intr_cond, IntrCond::LevelHigh);
    assert_eq!(config.intr_level_duration, IntrLevelDuration::Ms1);
    assert!(!config.enable_power_saving);
}

#[test]
fn chip_mode_follows_bit_zero() {
    let mut data = valid_report();
    data[1] = 0b0000_0001;
    assert_eq!(
        Ft260Config::from_bytes(&data).unwrap().chip_mode,
        ChipMode::DCNF0
    );
    data[1] = 0b0000_0000;
    assert_eq!(
        Ft260Config::from_bytes(&data).unwrap().chip_mode,
        ChipMode::DCNF1
    );
    data[1] = 0b1111_1110; // only bit 0 decides
    assert_eq!(
        Ft260Config::from_bytes(&data).unwrap().chip_mode,
        ChipMode::DCNF1
    );
}

#[test]
fn clock_value_outside_set_is_rejected() {
    let mut data = valid_report();
    data[2] = 3;
    assert_eq!(
        Ft260Config::from_bytes(&data),
        Err(ProtocolError::UnknownConfigValue(ConfigField::ClkCtl))
    );
}

#[test]
fn uart_mode_value_outside_set_is_rejected() {
    let mut data = valid_report();
    data[6] = 5;
    assert_eq!(
        Ft260Config::from_bytes(&data),
        Err(ProtocolError::UnknownConfigValue(ConfigField::UartMode))
    );
}

#[test]
fn gpio_values_outside_sets_are_rejected() {
    let mut data = valid_report();
    data[8] = 3; // gpio2 knows 0, 1, 2, 4
    assert_eq!(
        Ft260Config::from_bytes(&data),
        Err(ProtocolError::UnknownConfigValue(ConfigField::Gpio2Function))
    );
    data = valid_report();
    data[9] = 1; // gpioa knows 0, 3, 4
    assert_eq!(
        Ft260Config::from_bytes(&data),
        Err(ProtocolError::UnknownConfigValue(ConfigField::GpioAFunction))
    );
    data = valid_report();
    data[10] = 1; // gpiog knows 0, 2, 5, 6
    assert_eq!(
        Ft260Config::from_bytes(&data),
        Err(ProtocolError::UnknownConfigValue(ConfigField::GpioGFunction))
    );
}

#[test]
fn first_invalid_field_in_layout_order_is_named() {
    let mut data = valid_report();
    data[2] = 9;
    data[6] = 9;
    assert_eq!(
        Ft260Config::from_bytes(&data),
        Err(ProtocolError::UnknownConfigValue(ConfigField::ClkCtl))
    );
}

#[test]
fn packed_interrupt_byte_decodes_both_fields() {
    let mut data = valid_report();
    data[13] = 0b0110_1001; // low bits 01, bits 2..=3 are 10
    let config = Ft260Config::from_bytes(&data).unwrap();
    assert_eq!(config.intr_cond, IntrCond::LevelHigh);
    assert_eq!(config.intr_level_duration, IntrLevelDuration::Ms5);
    data[13] = 0b0000_1111; // low bits 11, bits 2..=3 are 11
    let config = Ft260Config::from_bytes(&data).unwrap();
    assert_eq!(config.intr_cond, IntrCond::LevelLow);
    assert_eq!(config.intr_level_duration, IntrLevelDuration::Ms30);
}

#[test]
fn zero_duration_bits_are_rejected() {
    let mut data = valid_report();
    data[13] = 0b0110_0001; // bits 2..=3 are 00: no documented duration
    assert_eq!(
        Ft260Config::from_bytes(&data),
        Err(ProtocolError::UnknownConfigValue(ConfigField::IntrLevelDuration))
    );
}

#[test]
fn field_decoders_match_report_decode() {
    assert_eq!(ChipMode::from_raw(0xFF), ChipMode::DCNF0);
    assert_eq!(ClkCtl::from_raw(2), Ok(ClkCtl::MHz48));
    assert_eq!(
        ClkCtl::from_raw(0xFF),
        Err(ProtocolError::UnknownConfigValue(ConfigField::ClkCtl))
    );
    assert_eq!(SuspendStatus::from_raw(7), SuspendStatus::Suspended);
    assert_eq!(PwrenStatus::from_raw(0), PwrenStatus::NotReady);
    assert_eq!(UartMode::from_raw(1), Ok(UartMode::RtsCts));
    assert_eq!(Gpio2Function::from_raw(4), Ok(Gpio2Function::TxLed));
    assert_eq!(GpioAFunction::from_raw(4), Ok(GpioAFunction::TxLed));
    assert_eq!(GpioGFunction::from_raw(6), Ok(GpioGFunction::BcdDet));
    assert_eq!(SuspendOutPol::from_raw(0), SuspendOutPol::ActiveHigh);
    assert_eq!(IntrCond::from_packed(0b10), IntrCond::FallingEdge);
    assert_eq!(IntrLevelDuration::from_packed(0b0100), Ok(IntrLevelDuration::Ms1));
    assert_eq!(
        IntrLevelDuration::from_packed(0),
        Err(ProtocolError::UnknownConfigValue(ConfigField::IntrLevelDuration))
    );
}
