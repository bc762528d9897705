use embedded_qmp6988::device::{
    CHIP_ID_REGISTER, COE_B00_1_REGISTER, CTRL_MEAS_REGISTER, IIR_CNT_REGISTER, PRESS_TXD2,
    RESET_REGISTER,
};
use embedded_qmp6988::{
    Action, Coe, Event, Outcome, Qmp6988, RawMeasurement, DEFAULT_I2C_ADDRESS, IirFilter,
    OverSamplingSetting,
};

/// One expected exchange on the bus.
#[derive(Debug)]
enum Expect {
    /// A plain write of these bytes.
    Write(u8, Vec<u8>),
    /// A transaction: write of one register, then a read answered with these bytes.
    WriteRead(u8, u8, Vec<u8>),
}

/// Runs the machine from `first` until it finishes, checking each bus action
/// against `expected` (in order) and answering reads from it. Returns the
/// outcome and the waits asked for.
fn drive(device: &mut Qmp6988, first: Action, expected: Vec<Expect>) -> (Outcome, Vec<u32>) {
    let mut expected = expected.into_iter();
    let mut waits = Vec::new();
    let mut action = first;
    loop {
        let event = match action {
            Action::Write { address, register, value } => {
                let mut bytes = vec![register];
                if let Some(v) = value {
                    bytes.push(v);
                }
                match expected.next() {
                    Some(Expect::Write(a, b)) => {
                        assert_eq!(a, address);
                        assert_eq!(b, bytes);
                    }
                    other => panic!("unexpected write {:?} {:?}, expected {:?}", address, bytes, other),
                }
                Event::Completed
            }
            Action::WriteRead { address, register, len } => match expected.next() {
                Some(Expect::WriteRead(a, r, data)) => {
                    assert_eq!(a, address);
                    assert_eq!(r, register);
                    assert_eq!(data.len(), len);
                    Event::Received(data)
                }
                other => panic!("unexpected transaction on {:?}, expected {:?}", register, other),
            },
            Action::Wait { ms } => {
                waits.push(ms);
                Event::Completed
            }
            Action::Finish(outcome) => {
                assert!(expected.next().is_none(), "not every expected exchange happened");
                return (outcome, waits);
            }
        };
        action = device.resume(event);
    }
}

fn calibration_bytes() -> Vec<u8> {
    vec![
        0x00, 0x01, 0x02, 0x03, 0x04, 0x05, 0x06, 0x07, 0x08, 0x09, 0x0a, 0x0b, 0x0c, 0x0d, 0x0e,
        0x0f, 0x10, 0x11, 0x12, 0x13, 0x14, 0x15, 0x16, 0x17, 0x18,
    ]
}

fn create_device() -> Qmp6988 {
    let expectations = vec![
        Expect::WriteRead(DEFAULT_I2C_ADDRESS, CHIP_ID_REGISTER, vec![0x5c]),
        Expect::WriteRead(DEFAULT_I2C_ADDRESS, COE_B00_1_REGISTER, calibration_bytes()),
        Expect::Write(DEFAULT_I2C_ADDRESS, vec![IIR_CNT_REGISTER, 0x02]),
        Expect::Write(DEFAULT_I2C_ADDRESS, vec![CTRL_MEAS_REGISTER, 0x30]),
    ];
    let (mut device, first) = Qmp6988::new(DEFAULT_I2C_ADDRESS);
    let (outcome, waits) = drive(&mut device, first, expectations);
    assert_eq!(outcome, Outcome::Done);
    assert_eq!(waits, vec![20, 20]);
    device
}

#[test]
fn measure() {
    let expectations = vec![
        Expect::WriteRead(DEFAULT_I2C_ADDRESS, CTRL_MEAS_REGISTER, vec![0x30]),
        Expect::Write(DEFAULT_I2C_ADDRESS, vec![CTRL_MEAS_REGISTER, 0x31]),
        Expect::WriteRead(
            DEFAULT_I2C_ADDRESS,
            PRESS_TXD2,
            vec![0x00, 0x01, 0x02, 0x00, 0x01, 0x02],
        ),
    ];
    let mut device = create_device();
    let first = device.measure();
    let (outcome, _) = drive(&mut device, first, expectations);
    assert!(matches!(outcome, Outcome::Measured(_)));
}

#[test]
fn reset() {
    let expectations = vec![Expect::Write(DEFAULT_I2C_ADDRESS, vec![RESET_REGISTER])];
    let mut device = create_device();
    let first = device.reset();
    let (outcome, _) = drive(&mut device, first, expectations);
    assert_eq!(outcome, Outcome::Done);
}

#[test]
fn set_filter() {
    let expectations = vec![Expect::Write(DEFAULT_I2C_ADDRESS, vec![IIR_CNT_REGISTER, 0x05])];
    let mut device = create_device();
    let first = device.set_filter(IirFilter::Coeff32);
    let (outcome, _) = drive(&mut device, first, expectations);
    assert_eq!(outcome, Outcome::Done);
}

#[test]
fn set_oversampling_setting() {
    let expectations = vec![Expect::Write(DEFAULT_I2C_ADDRESS, vec![CTRL_MEAS_REGISTER, 0x28])];
    let mut device = create_device();
    let first = device.set_oversampling_setting(OverSamplingSetting::HighSpeed);
    let (outcome, _) = drive(&mut device, first, expectations);
    assert_eq!(outcome, Outcome::Done);
}

#[test]
fn measure_answers_the_raw_readings_and_waits() {
    let expectations = vec![
        Expect::WriteRead(DEFAULT_I2C_ADDRESS, CTRL_MEAS_REGISTER, vec![0x30]),
        Expect::Write(DEFAULT_I2C_ADDRESS, vec![CTRL_MEAS_REGISTER, 0x31]),
        Expect::WriteRead(
            DEFAULT_I2C_ADDRESS,
            PRESS_TXD2,
            vec![0x00, 0x01, 0x02, 0x80, 0x00, 0x00],
        ),
    ];
    let mut device = create_device();
    let first = device.measure();
    let (outcome, waits) = drive(&mut device, first, expectations);
    assert_eq!(outcome, Outcome::Measured(RawMeasurement { dp: 258 - 8_388_608, dt: 0 }));
    assert_eq!(waits, vec![20, 11]);
}

#[test]
fn measure_keeps_oversampling_bits_and_selects_forced_mode() {
    let expectations = vec![
        Expect::WriteRead(DEFAULT_I2C_ADDRESS, CTRL_MEAS_REGISTER, vec![0xff]),
        Expect::Write(DEFAULT_I2C_ADDRESS, vec![CTRL_MEAS_REGISTER, 0xfd]),
        Expect::WriteRead(
            DEFAULT_I2C_ADDRESS,
            PRESS_TXD2,
            vec![0xff, 0xff, 0xff, 0x00, 0x00, 0x00],
        ),
    ];
    let mut device = create_device();
    let first = device.measure();
    let (outcome, _) = drive(&mut device, first, expectations);
    assert_eq!(
        outcome,
        Outcome::Measured(RawMeasurement { dp: 8_388_607, dt: -8_388_608 })
    );
}

#[test]
fn measurement_waits_grow_with_accuracy() {
    let settings = [
        (OverSamplingSetting::HighSpeed, 0x28u8, 6u32),
        (OverSamplingSetting::LowPower, 0x2c, 8),
        (OverSamplingSetting::Standard, 0x30, 11),
        (OverSamplingSetting::HighAccuracy, 0x54, 19),
        (OverSamplingSetting::UltraHighAccuracy, 0x78, 34),
    ];
    let mut device = create_device();
    for (setting, control, duration) in settings {
        let first = device.set_oversampling_setting(setting);
        let (outcome, waits) = drive(
            &mut device,
            first,
            vec![Expect::Write(DEFAULT_I2C_ADDRESS, vec![CTRL_MEAS_REGISTER, control])],
        );
        assert_eq!(outcome, Outcome::Done);
        assert_eq!(waits, vec![20]);
        let first = device.measure();
        let (_, waits) = drive(
            &mut device,
            first,
            vec![
                Expect::WriteRead(DEFAULT_I2C_ADDRESS, CTRL_MEAS_REGISTER, vec![control]),
                Expect::Write(DEFAULT_I2C_ADDRESS, vec![CTRL_MEAS_REGISTER, control | 1]),
                Expect::WriteRead(DEFAULT_I2C_ADDRESS, PRESS_TXD2, vec![0; 6]),
            ],
        );
        assert_eq!(waits, vec![20, duration]);
        assert_eq!(setting.control_byte(), control);
        assert_eq!(setting.measurement_duration(), duration);
    }
}

#[test]
fn filter_register_values() {
    let filters = [
        (IirFilter::Off, 0u8),
        (IirFilter::Coeff2, 1),
        (IirFilter::Coeff4, 2),
        (IirFilter::Coeff8, 3),
        (IirFilter::Coeff16, 4),
        (IirFilter::Coeff32, 5),
    ];
    let mut device = create_device();
    for (filter, value) in filters {
        assert_eq!(filter.bits(), value);
        let first = device.set_filter(filter);
        let (outcome, waits) = drive(
            &mut device,
            first,
            vec![Expect::Write(DEFAULT_I2C_ADDRESS, vec![IIR_CNT_REGISTER, value])],
        );
        assert_eq!(outcome, Outcome::Done);
        assert_eq!(waits, vec![20]);
    }
}

#[test]
fn reset_waits_ten_milliseconds() {
    let mut device = create_device();
    let first = device.reset();
    let (_, waits) = drive(
        &mut device,
        first,
        vec![Expect::Write(DEFAULT_I2C_ADDRESS, vec![RESET_REGISTER])],
    );
    assert_eq!(waits, vec![10]);
}

#[test]
fn new_rejects_another_chip() {
    let (mut device, first) = Qmp6988::new(DEFAULT_I2C_ADDRESS);
    let (outcome, waits) = drive(
        &mut device,
        first,
        vec![Expect::WriteRead(DEFAULT_I2C_ADDRESS, CHIP_ID_REGISTER, vec![0x58])],
    );
    assert_eq!(outcome, Outcome::ChipNotDetected);
    assert!(waits.is_empty());
}

#[test]
fn new_uses_the_given_address() {
    let address = embedded_qmp6988::I2C_ADDRESS_LOGIC_HIGH;
    let (mut device, first) = Qmp6988::new(address);
    let (outcome, _) = drive(
        &mut device,
        first,
        vec![
            Expect::WriteRead(address, CHIP_ID_REGISTER, vec![0x5c]),
            Expect::WriteRead(address, COE_B00_1_REGISTER, calibration_bytes()),
            Expect::Write(address, vec![IIR_CNT_REGISTER, 0x02]),
            Expect::Write(address, vec![CTRL_MEAS_REGISTER, 0x30]),
        ],
    );
    assert_eq!(outcome, Outcome::Done);
}

#[test]
fn new_keeps_the_calibration_coefficients() {
    let device = create_device();
    assert_eq!(
        device.coe(),
        Coe {
            a0: 0x12138,
            a1: 0x1415,
            a2: 0x1617,
            b00: 0x11,
            bt1: 0x0203,
            bt2: 0x0405,
            bp1: 0x0607,
            b11: 0x0809,
            bp2: 0x0a0b,
            b12: 0x0c0d,
            b21: 0x0e0f,
            bp3: 0x1011,
        }
    );
}

#[test]
fn bus_error_gives_the_request_up() {
    let mut device = create_device();
    let first = device.measure();
    assert!(matches!(first, Action::WriteRead { .. }));
    assert_eq!(device.resume(Event::Failed), Action::Finish(Outcome::BusError));
    let first = device.reset();
    let (outcome, _) = drive(
        &mut device,
        first,
        vec![Expect::Write(DEFAULT_I2C_ADDRESS, vec![RESET_REGISTER])],
    );
    assert_eq!(outcome, Outcome::Done);
}

#[test]
fn bus_error_during_new_keeps_the_defaults() {
    let (mut device, first) = Qmp6988::new(DEFAULT_I2C_ADDRESS);
    assert!(matches!(first, Action::WriteRead { .. }));
    assert_eq!(device.resume(Event::Failed), Action::Finish(Outcome::BusError));
    let first = device.set_filter(IirFilter::Off);
    let (outcome, _) = drive(
        &mut device,
        first,
        vec![Expect::Write(DEFAULT_I2C_ADDRESS, vec![IIR_CNT_REGISTER, 0x00])],
    );
    assert_eq!(outcome, Outcome::Done);
}

#[test]
fn different_calibration_bytes_give_different_coefficients() {
    let base = [0u8; 25];
    let coe = Coe::from_bytes(&base);
    for i in 0..25 {
        for bit in 0..8 {
            let mut bytes = base;
            bytes[i] ^= 1 << bit;
            assert_ne!(Coe::from_bytes(&bytes), coe, "byte {} bit {}", i, bit);
        }
    }
}
