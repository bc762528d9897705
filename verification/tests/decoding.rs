use embedded_qmp6988::settings::{power_mode_byte, PowerMode};
use embedded_qmp6988::{Coe, Error, IirFilter, OverSamplingSetting};

#[test]
fn negative_coefficients_are_sign_extended() {
    let bytes = [0xffu8; 25];
    let coe = Coe::from_bytes(&bytes);
    assert_eq!(coe.a0, -1);
    assert_eq!(coe.b00, -1);
    assert_eq!(coe.a1, -1);
    assert_eq!(coe.bp3, -1);
}

#[test]
fn extreme_coefficients() {
    let mut bytes = [0u8; 25];
    bytes[0] = 0x80; // b00 = 0x80000 => -2^19
    bytes[18] = 0x7f; // a0 = 0x7ffff => 2^19 - 1
    bytes[19] = 0xff;
    bytes[24] = 0x0f;
    bytes[20] = 0x80; // a1 = -32768
    bytes[22] = 0x7f; // a2 = 32767
    bytes[23] = 0xff;
    let coe = Coe::from_bytes(&bytes);
    assert_eq!(coe.b00, -524_288);
    assert_eq!(coe.a0, 524_287);
    assert_eq!(coe.a1, -32_768);
    assert_eq!(coe.a2, 32_767);
    assert_eq!(coe.bt1, 0);
}

#[test]
fn nibbles_of_the_last_byte() {
    let mut bytes = [0u8; 25];
    bytes[24] = 0xa5;
    let coe = Coe::from_bytes(&bytes);
    assert_eq!(coe.a0, 5);
    assert_eq!(coe.b00, 10);
}

#[test]
fn power_mode_bytes() {
    assert_eq!(power_mode_byte(0x30, PowerMode::Forced), 0x31);
    assert_eq!(power_mode_byte(0xff, PowerMode::Forced), 0xfd);
    assert_eq!(power_mode_byte(0xff, PowerMode::Sleep), 0xfc);
    assert_eq!(power_mode_byte(0x00, PowerMode::Normal), 0x03);
}

#[test]
fn defaults() {
    assert_eq!(IirFilter::default(), IirFilter::Coeff4);
    assert_eq!(OverSamplingSetting::default(), OverSamplingSetting::Standard);
}

#[test]
fn bus_errors_convert() {
    let e: Error<u8> = Error::from(7u8);
    assert!(matches!(e, Error::I2c(7)));
    let e: Error<u8> = Error::ChipNotDetected;
    assert!(matches!(e, Error::ChipNotDetected));
}
