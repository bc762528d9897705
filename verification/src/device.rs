//! The QMP6988 driver, written as a state machine that does no I/O itself.
//!
//! Each request (`new`, `measure`, `reset`, `set_filter`,
//! `set_oversampling_setting`) returns the first bus [`Action`] to perform;
//! the caller performs it, hands the result back to [`Qmp6988::resume`] as an
//! [`Event`], and performs the next action, until the machine answers
//! [`Action::Finish`]. A bus error, reported as [`Event::Failed`], ends the
//! request with [`Outcome::BusError`].

use embedded_hal::i2c::SevenBitAddress;
use vstd::prelude::*;

use crate::calibration::{decode_coe, Coe, CALIBRATION_LEN};
use crate::settings::{power_mode_byte, with_power_mode, IirFilter, OverSamplingSetting, PowerMode};

verus! {

/// The I2C address when the SDO pin is connected to logic low
pub const I2C_ADDRESS_LOGIC_LOW: SevenBitAddress = 0x70;

/// The I2C address when the SDO pin is connected to logic high
pub const I2C_ADDRESS_LOGIC_HIGH: SevenBitAddress = 0x56;

/// The default I2C address (SDO pin connected to low)
pub const DEFAULT_I2C_ADDRESS: SevenBitAddress = I2C_ADDRESS_LOGIC_LOW;

/// The register that holds the chip identification.
pub const CHIP_ID_REGISTER: u8 = 0xd1;

/// The first register of the calibration coefficients.
pub const COE_B00_1_REGISTER: u8 = 0xa0;

/// The register that holds the oversampling ratios and the power mode.
pub const CTRL_MEAS_REGISTER: u8 = 0xf4;

/// The register that selects the IIR filter.
pub const IIR_CNT_REGISTER: u8 = 0xf1;

/// The first register of the pressure and temperature data.
pub const PRESS_TXD2: u8 = 0xf7;

/// The register that performs a soft reset when written.
pub const RESET_REGISTER: u8 = 0xe0;

/// The chip identification of a QMP6988.
pub const CHIP_ID: u8 = 0x5c;

/// How long (in ms) the device is given after a configuration write.
pub const SETTLE_MS: u32 = 20;

/// How long (in ms) the device is given after a soft reset.
pub const RESET_MS: u32 = 10;

/// The offset of the 24-bit raw readings: a raw reading `r` stands for `r - RAW_OFFSET`.
pub const RAW_OFFSET: i32 = 8_388_608;

/// The number of bytes of one pressure-and-temperature reading.
pub const DATA_LEN: usize = 6;

/// The unsigned number that three bytes give, the first one most significant.
pub open spec fn be_u24(b0: u8, b1: u8, b2: u8) -> int {
    b0 as int * 65536 + b1 as int * 256 + b2 as int
}

/// The raw readings of a measurement, before compensation.
#[derive(Clone, Copy, Debug, PartialEq, Eq)]
pub struct RawMeasurement {
    /// The pressure reading, centred on zero.
    pub dp: i32,
    /// The temperature reading, centred on zero.
    pub dt: i32,
}

/// The raw measurement that the six data bytes `d` encode: the pressure in
/// the first three bytes, the temperature in the last three, each one
/// big-endian and offset by `RAW_OFFSET`.
pub open spec fn decode_raw(d: Seq<u8>) -> RawMeasurement {
    RawMeasurement {
        dp: (be_u24(d[0], d[1], d[2]) - RAW_OFFSET) as i32,
        dt: (be_u24(d[3], d[4], d[5]) - RAW_OFFSET) as i32,
    }
}

/// How a request ended.
#[derive(Clone, Copy, Debug, PartialEq, Eq)]
pub enum Outcome {
    /// The request was carried out.
    Done,
    /// A measurement was performed; here are its raw readings.
    Measured(RawMeasurement),
    /// The device did not identify itself as a QMP6988.
    ChipNotDetected,
    /// The bus reported an error; the request was given up.
    BusError,
}

/// What the caller has to do next on the bus.
#[derive(Clone, Copy, Debug, PartialEq, Eq)]
pub enum Action {
    /// Write `register`, followed by `value` when there is one, to the device
    /// at `address`; then report [`Event::Completed`].
    Write { address: SevenBitAddress, register: u8, value: Option<u8> },
    /// In one transaction, write `register` then read `len` bytes from the
    /// device at `address`; then report them with [`Event::Received`].
    WriteRead { address: SevenBitAddress, register: u8, len: usize },
    /// Wait `ms` milliseconds; then report [`Event::Completed`].
    Wait { ms: u32 },
    /// The request is over.
    Finish(Outcome),
}

/// What happened on the bus after an [`Action`].
#[derive(Debug, PartialEq, Eq)]
pub enum Event {
    /// The write or the wait was carried out.
    Completed,
    /// The bytes read by a [`Action::WriteRead`].
    Received(Vec<u8>),
    /// The bus reported an error while carrying out the action.
    Failed,
}

impl View for Event {
    type V = Result<Option<Seq<u8>>, ()>;

    /// `Ok(None)` for a completion, `Ok` of the bytes for a read, `Err` for a
    /// bus error.
    open spec fn view(&self) -> Result<Option<Seq<u8>>, ()> {
        match self {
            Event::Completed => Ok(None),
            Event::Received(bytes) => Ok(Some(bytes@)),
            Event::Failed => Err(()),
        }
    }
}

/// Where the machine stands in the request it is carrying out.
#[derive(Clone, Copy, Debug, PartialEq, Eq)]
pub enum Phase {
    /// No request is under way.
    Idle,
    /// Waiting for the chip identification byte.
    CheckingDevice,
    /// Waiting for the calibration bytes.
    ReadingCalibration,
    /// Waiting for the IIR_CNT write; `initializing` when the control register follows.
    WritingFilter { initializing: bool },
    /// Waiting after the IIR_CNT write; `initializing` when the control register follows.
    SettlingFilter { initializing: bool },
    /// Waiting for the CTRL_MEAS write of the oversampling setting.
    WritingControl,
    /// Waiting after the CTRL_MEAS write of the oversampling setting.
    SettlingControl,
    /// Waiting for the current CTRL_MEAS byte.
    ReadingPowerMode,
    /// Waiting for the CTRL_MEAS write that selects the forced mode.
    WritingPowerMode,
    /// Waiting after the CTRL_MEAS write that selects the forced mode.
    SettlingPowerMode,
    /// Waiting for the measurement to be performed.
    Converting,
    /// Waiting for the data bytes.
    ReadingData,
    /// Waiting for the reset write.
    Resetting,
    /// Waiting after the reset write.
    SettlingReset,
}

/// Everything the driver knows about the device.
#[derive(Clone, Copy, Debug, PartialEq, Eq)]
pub struct DeviceState {
    /// The I2C address of the device.
    pub address: SevenBitAddress,
    /// The calibration coefficients read from the device.
    pub coe: Coe,
    /// The IIR filter in use.
    pub filter: IirFilter,
    /// The oversampling setting in use.
    pub oversampling_setting: OverSamplingSetting,
    /// The request under way.
    pub phase: Phase,
}

/// A request that the driver starts from the idle phase.
#[derive(Clone, Copy, Debug, PartialEq, Eq)]
pub enum Request {
    /// Perform a measurement of pressure and temperature.
    Measure,
    /// Perform a soft reset.
    Reset,
    /// Use another IIR filter.
    SetFilter(IirFilter),
    /// Use another oversampling setting.
    SetOversamplingSetting(OverSamplingSetting),
}

/// The coefficients the driver holds before it has read the device's.
pub open spec fn zero_coe() -> Coe {
    Coe {
        a0: 0,
        a1: 0,
        a2: 0,
        b00: 0,
        bt1: 0,
        bt2: 0,
        bp1: 0,
        b11: 0,
        bp2: 0,
        b12: 0,
        b21: 0,
        bp3: 0,
    }
}

/// The state and first action of a driver created for the device at `address`.
pub open spec fn initial(address: SevenBitAddress) -> (DeviceState, Action) {
    (
        DeviceState {
            address,
            coe: zero_coe(),
            filter: IirFilter::Coeff4,
            oversampling_setting: OverSamplingSetting::Standard,
            phase: Phase::CheckingDevice,
        },
        Action::WriteRead { address, register: CHIP_ID_REGISTER, len: 1 },
    )
}

impl DeviceState {
    /// The same state in another phase.
    pub open spec fn in_phase(self, phase: Phase) -> DeviceState {
        DeviceState { phase, ..self }
    }

    /// The write of the IIR_CNT register that selects the current filter.
    pub open spec fn filter_write(self) -> Action {
        Action::Write {
            address: self.address,
            register: IIR_CNT_REGISTER,
            value: Some(self.filter.register_value()),
        }
    }

    /// The write of the CTRL_MEAS register that selects the current
    /// oversampling setting and the sleep power mode.
    pub open spec fn control_write(self) -> Action {
        Action::Write {
            address: self.address,
            register: CTRL_MEAS_REGISTER,
            value: Some(self.oversampling_setting.control_value()),
        }
    }

    /// The state and first action of `request`, started from the idle phase.
    pub open spec fn start(self, request: Request) -> (DeviceState, Action) {
        match request {
            Request::Measure => (
                self.in_phase(Phase::ReadingPowerMode),
                Action::WriteRead { address: self.address, register: CTRL_MEAS_REGISTER, len: 1 },
            ),
            Request::Reset => (
                self.in_phase(Phase::Resetting),
                Action::Write { address: self.address, register: RESET_REGISTER, value: None },
            ),
            Request::SetFilter(filter) => {
                let s = DeviceState { filter, phase: Phase::WritingFilter { initializing: false }, ..self };
                (s, s.filter_write())
            },
            Request::SetOversamplingSetting(setting) => {
                let s = DeviceState { oversampling_setting: setting, phase: Phase::WritingControl, ..self };
                (s, s.control_write())
            },
        }
    }

    /// Whether `input` is what the action last handed out gives back when
    /// the bus carries it out: the bytes of a read of the requested length,
    /// or a completion.
    pub open spec fn awaits_result(self, input: Option<Seq<u8>>) -> bool {
        match self.phase {
            Phase::Idle => false,
            Phase::CheckingDevice => input matches Some(d) && d.len() == 1,
            Phase::ReadingPowerMode => input matches Some(d) && d.len() == 1,
            Phase::ReadingCalibration => input matches Some(d) && d.len() == CALIBRATION_LEN,
            Phase::ReadingData => input matches Some(d) && d.len() == DATA_LEN,
            _ => input is None,
        }
    }

    /// Whether the machine, with a request under way, takes `input` back
    /// from the action it last handed out: a bus error, or the result that
    /// action gives when it is carried out.
    pub open spec fn awaits(self, input: Result<Option<Seq<u8>>, ()>) -> bool {
        match input {
            Err(_) => !(self.phase is Idle),
            Ok(result) => self.awaits_result(result),
        }
    }

    /// The next state and action once `input` has come back from the action
    /// last handed out: a bus error gives the request up, and leaves the
    /// driver idle and otherwise unchanged.
    pub open spec fn transition(self, input: Result<Option<Seq<u8>>, ()>) -> (DeviceState, Action) {
        match input {
            Err(_) => (self.in_phase(Phase::Idle), Action::Finish(Outcome::BusError)),
            Ok(result) => self.advance(result),
        }
    }

    /// The next state and action once the action last handed out has been
    /// carried out, with `input` the bytes it read, if any.
    pub open spec fn advance(self, input: Option<Seq<u8>>) -> (DeviceState, Action) {
        let d = input.unwrap_or(Seq::empty());
        match self.phase {
            Phase::Idle => (self, Action::Finish(Outcome::Done)),
            Phase::CheckingDevice => if d[0] == CHIP_ID {
                (
                    self.in_phase(Phase::ReadingCalibration),
                    Action::WriteRead {
                        address: self.address,
                        register: COE_B00_1_REGISTER,
                        len: CALIBRATION_LEN,
                    },
                )
            } else {
                (self.in_phase(Phase::Idle), Action::Finish(Outcome::ChipNotDetected))
            },
            Phase::ReadingCalibration => {
                let s = DeviceState {
                    coe: decode_coe(d),
                    phase: Phase::WritingFilter { initializing: true },
                    ..self
                };
                (s, s.filter_write())
            },
            Phase::WritingFilter { initializing } => (
                self.in_phase(Phase::SettlingFilter { initializing }),
                Action::Wait { ms: SETTLE_MS },
            ),
            Phase::SettlingFilter { initializing } => if initializing {
                (self.in_phase(Phase::WritingControl), self.control_write())
            } else {
                (self.in_phase(Phase::Idle), Action::Finish(Outcome::Done))
            },
            Phase::WritingControl => (
                self.in_phase(Phase::SettlingControl),
                Action::Wait { ms: SETTLE_MS },
            ),
            Phase::SettlingControl => (self.in_phase(Phase::Idle), Action::Finish(Outcome::Done)),
            Phase::ReadingPowerMode => (
                self.in_phase(Phase::WritingPowerMode),
                Action::Write {
                    address: self.address,
                    register: CTRL_MEAS_REGISTER,
                    value: Some(with_power_mode(d[0], PowerMode::Forced)),
                },
            ),
            Phase::WritingPowerMode => (
                self.in_phase(Phase::SettlingPowerMode),
                Action::Wait { ms: SETTLE_MS },
            ),
            Phase::SettlingPowerMode => (
                self.in_phase(Phase::Converting),
                Action::Wait { ms: self.oversampling_setting.duration_ms() },
            ),
            Phase::Converting => (
                self.in_phase(Phase::ReadingData),
                Action::WriteRead { address: self.address, register: PRESS_TXD2, len: DATA_LEN },
            ),
            Phase::ReadingData => (
                self.in_phase(Phase::Idle),
                Action::Finish(Outcome::Measured(decode_raw(d))),
            ),
            Phase::Resetting => (self.in_phase(Phase::SettlingReset), Action::Wait { ms: RESET_MS }),
            Phase::SettlingReset => (self.in_phase(Phase::Idle), Action::Finish(Outcome::Done)),
        }
    }
}

/// QMP6988 device driver
#[derive(Debug)]
pub struct Qmp6988 {
    state: DeviceState,
}

impl View for Qmp6988 {
    type V = DeviceState;

    closed spec fn view(&self) -> DeviceState {
        self.state
    }
}

/// The bytes of a read event.
fn received(event: Event) -> (bytes: Vec<u8>)
    requires
        event is Received,
    ensures
        event@ == Ok::<Option<Seq<u8>>, ()>(Some(bytes@)),
{
    match event {
        Event::Received(bytes) => bytes,
        _ => Vec::new(),
    }
}

impl Qmp6988 {
    /// Create a new instance of the QMP6988 device.
    ///
    /// The driver first reads the chip identification, then the calibration
    /// coefficients, then applies the default filter and oversampling
    /// setting; the request finishes with [`Outcome::Done`], or with
    /// [`Outcome::ChipNotDetected`] when the chip identification is not
    /// [`CHIP_ID`].
    pub fn new(address: SevenBitAddress) -> (r: (Qmp6988, Action))
        ensures
            (r.0@, r.1) == initial(address),
    {
        let state = DeviceState {
            address,
            coe: Coe::zero(),
            filter: IirFilter::default(),
            oversampling_setting: OverSamplingSetting::default(),
            phase: Phase::CheckingDevice,
        };
        (Qmp6988 { state }, Action::WriteRead { address, register: CHIP_ID_REGISTER, len: 1 })
    }

    /// Perform a measurement of pressure and temperature.
    ///
    /// This uses the forced power mode to perform a single measurement and
    /// automatically go back to the sleep power mode where the sensor has the
    /// lowest current consumption.
    pub fn measure(&mut self) -> (action: Action)
        requires
            old(self)@.phase is Idle,
        ensures
            (final(self)@, action) == old(self)@.start(Request::Measure),
    {
        self.state.phase = Phase::ReadingPowerMode;
        Action::WriteRead { address: self.state.address, register: CTRL_MEAS_REGISTER, len: 1 }
    }

    /// Perform a soft reset.
    pub fn reset(&mut self) -> (action: Action)
        requires
            old(self)@.phase is Idle,
        ensures
            (final(self)@, action) == old(self)@.start(Request::Reset),
    {
        self.state.phase = Phase::Resetting;
        Action::Write { address: self.state.address, register: RESET_REGISTER, value: None }
    }

    /// Define the IIR (Infinite Impulse Response) filter to use during the
    /// measurements.
    pub fn set_filter(&mut self, filter: IirFilter) -> (action: Action)
        requires
            old(self)@.phase is Idle,
        ensures
            (final(self)@, action) == old(self)@.start(Request::SetFilter(filter)),
    {
        self.state.filter = filter;
        self.state.phase = Phase::WritingFilter { initializing: false };
        self.filter_write()
    }

    /// Define the oversampling setting to use during the measurements.
    pub fn set_oversampling_setting(&mut self, oversampling_setting: OverSamplingSetting) -> (action:
        Action)
        requires
            old(self)@.phase is Idle,
        ensures
            (final(self)@, action) == old(self)@.start(
                Request::SetOversamplingSetting(oversampling_setting),
            ),
    {
        self.state.oversampling_setting = oversampling_setting;
        self.state.phase = Phase::WritingControl;
        self.control_write()
    }

    /// The calibration coefficients read from the device.
    pub fn coe(&self) -> (c: Coe)
        ensures
            c == self@.coe,
    {
        self.state.coe
    }

    /// The write of the IIR_CNT register that selects the current filter.
    fn filter_write(&self) -> (action: Action)
        ensures
            action == self@.filter_write(),
    {
        Action::Write {
            address: self.state.address,
            register: IIR_CNT_REGISTER,
            value: Some(self.state.filter.bits()),
        }
    }

    /// The write of the CTRL_MEAS register that selects the current
    /// oversampling setting.
    fn control_write(&self) -> (action: Action)
        ensures
            action == self@.control_write(),
    {
        Action::Write {
            address: self.state.address,
            register: CTRL_MEAS_REGISTER,
            value: Some(self.state.oversampling_setting.control_byte()),
        }
    }

    /// Joins three bytes into one big-endian 24-bit number.
    fn get_i32_value(data: &[u8; 3]) -> (r: i32)
        ensures
            r == be_u24(data[0], data[1], data[2]),
    {
        let (b0, b1, b2) = (data[0], data[1], data[2]);
        assert(((b0 as u32) << 16u32 | (b1 as u32) << 8u32 | (b2 as u32)) == b0 * 65536 + b1 * 256
            + b2) by (bit_vector);
        ((b0 as u32) << 16u32 | (b1 as u32) << 8u32 | (b2 as u32)) as i32
    }

    /// The raw measurement that six data bytes encode.
    fn raw_measurement(data: &Vec<u8>) -> (m: RawMeasurement)
        requires
            data.len() == DATA_LEN,
        ensures
            m == decode_raw(data@),
    {
        let dp = Self::get_i32_value(&[data[0], data[1], data[2]]) - RAW_OFFSET;
        let dt = Self::get_i32_value(&[data[3], data[4], data[5]]) - RAW_OFFSET;
        RawMeasurement { dp, dt }
    }

    /// Carry on with the request under way, now that `event` has come back
    /// from the action last handed out.
    pub fn resume(&mut self, event: Event) -> (action: Action)
        requires
            old(self)@.awaits(event@),
        ensures
            (final(self)@, action) == old(self)@.transition(event@),
    {
        if let Event::Failed = event {
            self.state.phase = Phase::Idle;
            return Action::Finish(Outcome::BusError);
        }
        match self.state.phase {
            Phase::Idle => Action::Finish(Outcome::Done),
            Phase::CheckingDevice => {
                let data = received(event);
                if data[0] == CHIP_ID {
                    self.state.phase = Phase::ReadingCalibration;
                    Action::WriteRead {
                        address: self.state.address,
                        register: COE_B00_1_REGISTER,
                        len: CALIBRATION_LEN,
                    }
                } else {
                    self.state.phase = Phase::Idle;
                    Action::Finish(Outcome::ChipNotDetected)
                }
            },
            Phase::ReadingCalibration => {
                let d = received(event);
                let bytes: [u8; 25] = [
                    d[0], d[1], d[2], d[3], d[4], d[5], d[6], d[7], d[8], d[9], d[10], d[11], d[12],
                    d[13], d[14], d[15], d[16], d[17], d[18], d[19], d[20], d[21], d[22], d[23],
                    d[24],
                ];
                assert(bytes@ =~= d@);
                self.state.coe = Coe::from_bytes(&bytes);
                self.state.phase = Phase::WritingFilter { initializing: true };
                self.filter_write()
            },
            Phase::WritingFilter { initializing } => {
                self.state.phase = Phase::SettlingFilter { initializing };
                Action::Wait { ms: SETTLE_MS }
            },
            Phase::SettlingFilter { initializing } => {
                if initializing {
                    self.state.phase = Phase::WritingControl;
                    self.control_write()
                } else {
                    self.state.phase = Phase::Idle;
                    Action::Finish(Outcome::Done)
                }
            },
            Phase::WritingControl => {
                self.state.phase = Phase::SettlingControl;
                Action::Wait { ms: SETTLE_MS }
            },
            Phase::SettlingControl => {
                self.state.phase = Phase::Idle;
                Action::Finish(Outcome::Done)
            },
            Phase::ReadingPowerMode => {
                let data = received(event);
                self.state.phase = Phase::WritingPowerMode;
                Action::Write {
                    address: self.state.address,
                    register: CTRL_MEAS_REGISTER,
                    value: Some(power_mode_byte(data[0], PowerMode::Forced)),
                }
            },
            Phase::WritingPowerMode => {
                self.state.phase = Phase::SettlingPowerMode;
                Action::Wait { ms: SETTLE_MS }
            },
            Phase::SettlingPowerMode => {
                self.state.phase = Phase::Converting;
                Action::Wait { ms: self.state.oversampling_setting.measurement_duration() }
            },
            Phase::Converting => {
                self.state.phase = Phase::ReadingData;
                Action::WriteRead { address: self.state.address, register: PRESS_TXD2, len: DATA_LEN }
            },
            Phase::ReadingData => {
                let data = received(event);
                self.state.phase = Phase::Idle;
                Action::Finish(Outcome::Measured(Self::raw_measurement(&data)))
            },
            Phase::Resetting => {
                self.state.phase = Phase::SettlingReset;
                Action::Wait { ms: RESET_MS }
            },
            Phase::SettlingReset => {
                self.state.phase = Phase::Idle;
                Action::Finish(Outcome::Done)
            },
        }
    }
}

} // verus!
