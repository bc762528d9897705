//! Properties of the driver that span several requests or steps.

use embedded_hal::i2c::SevenBitAddress;
use vstd::prelude::*;

use crate::calibration::{decode_coe, word16, CALIBRATION_LEN};
use crate::device::{
    decode_raw, initial, Action, DeviceState, Event, Outcome, Phase, Request, CHIP_ID, CHIP_ID_REGISTER,
    DEFAULT_I2C_ADDRESS, I2C_ADDRESS_LOGIC_HIGH, I2C_ADDRESS_LOGIC_LOW,
    COE_B00_1_REGISTER, CTRL_MEAS_REGISTER, DATA_LEN, IIR_CNT_REGISTER, PRESS_TXD2, RAW_OFFSET,
    RESET_MS, RESET_REGISTER, SETTLE_MS,
};
use crate::settings::{with_power_mode, IirFilter, OverSampling, OverSamplingSetting, PowerMode};
use vstd::arithmetic::power2::{lemma2_to64, pow2};

verus! {

impl Action {
    /// Whether this action, if it uses the bus, talks to the device at `address`.
    pub open spec fn addresses(self, address: SevenBitAddress) -> bool {
        match self {
            Action::Write { address: a, .. } => a == address,
            Action::WriteRead { address: a, .. } => a == address,
            _ => true,
        }
    }
}

/// Whether the machine in state `s`, having just handed out `action`, waits
/// for exactly what that action gives back: a completion after a write or a
/// wait, the requested number of bytes after a read, and nothing (it is idle)
/// after the end of a request.
pub open spec fn expects_result_of(s: DeviceState, action: Action) -> bool {
    match action {
        Action::Write { .. } => s.awaits(completed()) && !(s.phase is Idle),
        Action::Wait { .. } => s.awaits(completed()) && !(s.phase is Idle),
        Action::WriteRead { len, .. } => !(s.phase is Idle) && forall|d: Seq<u8>|
            #![trigger s.awaits(received(d))]
            s.awaits(received(d)) <==> d.len() == len,
        Action::Finish(_) => s.phase is Idle,
    }
}

/// What a write or a wait that was carried out gives back.
pub open spec fn completed() -> Result<Option<Seq<u8>>, ()> {
    Ok(None)
}

/// What a read that was carried out gives back: the bytes read.
pub open spec fn received(bytes: Seq<u8>) -> Result<Option<Seq<u8>>, ()> {
    Ok(Some(bytes))
}

/// The state reached and the actions handed out when `inputs` come back one
/// after the other, starting from `s`.
pub open spec fn run(s: DeviceState, inputs: Seq<Result<Option<Seq<u8>>, ()>>) -> (DeviceState, Seq<Action>)
    decreases inputs.len(),
{
    if inputs.len() == 0 {
        (s, seq![])
    } else {
        let (next, action) = s.transition(inputs[0]);
        let (last, rest) = run(next, inputs.drop_first());
        (last, seq![action] + rest)
    }
}

/// Whether each of `inputs`, in turn, is what the machine waits for.
pub open spec fn accepts(s: DeviceState, inputs: Seq<Result<Option<Seq<u8>>, ()>>) -> bool
    decreases inputs.len(),
{
    if inputs.len() == 0 {
        true
    } else {
        s.awaits(inputs[0]) && accepts(s.transition(inputs[0]).0, inputs.drop_first())
    }
}

/// One step of `run` and `accepts`.
proof fn lemma_run_step(s: DeviceState, inputs: Seq<Result<Option<Seq<u8>>, ()>>)
    requires
        inputs.len() > 0,
    ensures
        run(s, inputs) == (
            run(s.transition(inputs[0]).0, inputs.drop_first()).0,
            seq![s.transition(inputs[0]).1] + run(s.transition(inputs[0]).0, inputs.drop_first()).1,
        ),
        accepts(s, inputs) == (s.awaits(inputs[0]) && accepts(
            s.transition(inputs[0]).0,
            inputs.drop_first(),
        )),
{
}

/// A request from any state, and every step of a request under way, keep the
/// device's address, and every bus action they hand out talks to that
/// address.
pub proof fn lemma_actions_address_the_device(
    s: DeviceState,
    request: Request,
    input: Result<Option<Seq<u8>>, ()>,
)
    ensures
        s.start(request).0.address == s.address,
        s.start(request).1.addresses(s.address),
        s.transition(input).0.address == s.address,
        s.transition(input).1.addresses(s.address),
        initial(s.address).0.address == s.address,
        initial(s.address).1.addresses(s.address),
{
}

/// A step of a request under way changes neither the filter nor the
/// oversampling setting, and changes the calibration coefficients only when
/// they have just been read, to the ones the bytes read encode.
pub proof fn lemma_steps_keep_configuration(s: DeviceState, input: Result<Option<Seq<u8>>, ()>)
    requires
        s.awaits(input),
    ensures
        s.transition(input).0.filter == s.filter,
        s.transition(input).0.oversampling_setting == s.oversampling_setting,
        input matches Ok(Some(d)) ==> (s.phase is ReadingCalibration ==> s.transition(input).0.coe
            == decode_coe(d)),
        !(s.phase is ReadingCalibration && input is Ok) ==> s.transition(input).0.coe == s.coe,
{
}

/// The first action of a new driver, and the first action of every request
/// started from the idle phase, are followed by a state that waits for what
/// that action gives back.
pub proof fn lemma_requests_expect_what_they_ask(address: SevenBitAddress, s: DeviceState, request: Request)
    requires
        s.phase is Idle,
    ensures
        expects_result_of(initial(address).0, initial(address).1),
        expects_result_of(s.start(request).0, s.start(request).1),
{
}

/// Every step of a request under way hands out an action whose result the
/// state it leads to waits for, and leaves the machine idle exactly when the
/// action ends the request.
pub proof fn lemma_steps_expect_what_they_ask(t: DeviceState, input: Result<Option<Seq<u8>>, ()>)
    requires
        t.awaits(input),
    ensures
        expects_result_of(t.transition(input).0, t.transition(input).1),
{
}

/// A new driver reads the chip identification; when it is not the QMP6988's,
/// the request ends there with `ChipNotDetected`; otherwise the driver reads
/// the 25 calibration bytes, keeps the coefficients they encode, writes the
/// default filter then the default oversampling setting (with the sleep
/// power mode), giving the device 20 ms after each write, and ends idle.
#[verifier::rlimit(40)]
pub proof fn lemma_new_protocol(address: SevenBitAddress, chip_id: u8, calibration: Seq<u8>)
    requires
        calibration.len() == CALIBRATION_LEN,
    ensures
        initial(address).1 == (Action::WriteRead { address, register: CHIP_ID_REGISTER, len: 1 }),
        chip_id != CHIP_ID ==> {
            &&& accepts(initial(address).0, seq![received(seq![chip_id])])
            &&& run(initial(address).0, seq![received(seq![chip_id])]) == (
                initial(address).0.in_phase(Phase::Idle),
                seq![Action::Finish(Outcome::ChipNotDetected)],
            )
        },
        chip_id == CHIP_ID ==> {
            let inputs = seq![received(seq![chip_id]), received(calibration), completed(), completed(), completed(), completed()];
            &&& accepts(initial(address).0, inputs)
            &&& run(initial(address).0, inputs) == (
                DeviceState {
                    address,
                    coe: decode_coe(calibration),
                    filter: IirFilter::Coeff4,
                    oversampling_setting: OverSamplingSetting::Standard,
                    phase: Phase::Idle,
                },
                seq![
                    Action::WriteRead { address, register: COE_B00_1_REGISTER, len: CALIBRATION_LEN },
                    Action::Write {
                        address,
                        register: IIR_CNT_REGISTER,
                        value: Some(IirFilter::Coeff4.register_value()),
                    },
                    Action::Wait { ms: SETTLE_MS },
                    Action::Write {
                        address,
                        register: CTRL_MEAS_REGISTER,
                        value: Some(OverSamplingSetting::Standard.control_value()),
                    },
                    Action::Wait { ms: SETTLE_MS },
                    Action::Finish(Outcome::Done),
                ],
            )
        },
{
    let s0 = initial(address).0;
    if chip_id == CHIP_ID {
        let inputs = seq![received(seq![chip_id]), received(calibration), completed(), completed(), completed(), completed()];
        let s1 = s0.transition(inputs[0]).0;
        let s2 = s1.transition(inputs[1]).0;
        let s3 = s2.transition(inputs[2]).0;
        let s4 = s3.transition(inputs[3]).0;
        let s5 = s4.transition(inputs[4]).0;
        let s6 = s5.transition(inputs[5]).0;
        assert(s1.phase == Phase::ReadingCalibration);
        assert(s2.phase == Phase::WritingFilter { initializing: true });
        assert(s3.phase == Phase::SettlingFilter { initializing: true });
        assert(s4.phase == Phase::WritingControl);
        assert(s5.phase == Phase::SettlingControl);
        assert(s6.phase == Phase::Idle);
        let tail5 = inputs.drop_first();
        let tail4 = tail5.drop_first();
        let tail3 = tail4.drop_first();
        let tail2 = tail3.drop_first();
        let tail1 = tail2.drop_first();
        assert(tail1.drop_first() =~= Seq::<Result<Option<Seq<u8>>, ()>>::empty());
        lemma_run_step(s5, tail1);
        lemma_run_step(s4, tail2);
        lemma_run_step(s3, tail3);
        lemma_run_step(s2, tail4);
        lemma_run_step(s1, tail5);
        lemma_run_step(s0, inputs);
        assert(run(s0, inputs).1 =~= seq![
            s0.transition(inputs[0]).1,
            s1.transition(inputs[1]).1,
            s2.transition(inputs[2]).1,
            s3.transition(inputs[3]).1,
            s4.transition(inputs[4]).1,
            s5.transition(inputs[5]).1,
        ]);
    } else {
        lemma_run_step(s0, seq![received(seq![chip_id])]);
        assert(seq![received(seq![chip_id])].drop_first() =~= Seq::<Result<Option<Seq<u8>>, ()>>::empty());
    }
}

/// A measurement reads CTRL_MEAS, writes it back with the forced power mode
/// (keeping the oversampling bits), waits 20 ms then the duration of the
/// oversampling setting, reads the six data bytes and answers the raw
/// readings they encode; the driver ends idle and otherwise unchanged.
pub proof fn lemma_measure_protocol(s: DeviceState, control: u8, data: Seq<u8>)
    requires
        s.phase is Idle,
        data.len() == DATA_LEN,
    ensures
        s.start(Request::Measure).1 == (Action::WriteRead {
            address: s.address,
            register: CTRL_MEAS_REGISTER,
            len: 1,
        }),
        ({
            let inputs = seq![received(seq![control]), completed(), completed(), completed(), received(data)];
            &&& accepts(s.start(Request::Measure).0, inputs)
            &&& run(s.start(Request::Measure).0, inputs) == (
                s,
                seq![
                    Action::Write {
                        address: s.address,
                        register: CTRL_MEAS_REGISTER,
                        value: Some(with_power_mode(control, PowerMode::Forced)),
                    },
                    Action::Wait { ms: SETTLE_MS },
                    Action::Wait { ms: s.oversampling_setting.duration_ms() },
                    Action::WriteRead { address: s.address, register: PRESS_TXD2, len: DATA_LEN },
                    Action::Finish(Outcome::Measured(decode_raw(data))),
                ],
            )
        }),
{
    reveal_with_fuel(run, 6);
    reveal_with_fuel(accepts, 6);
}

/// A soft reset writes the reset register, waits 10 ms and ends; the driver
/// ends idle and otherwise unchanged.
pub proof fn lemma_reset_protocol(s: DeviceState)
    requires
        s.phase is Idle,
    ensures
        s.start(Request::Reset).1 == (Action::Write {
            address: s.address,
            register: RESET_REGISTER,
            value: None,
        }),
        accepts(s.start(Request::Reset).0, seq![completed(), completed()]),
        run(s.start(Request::Reset).0, seq![completed(), completed()]) == (
            s,
            seq![Action::Wait { ms: RESET_MS }, Action::Finish(Outcome::Done)],
        ),
{
    reveal_with_fuel(run, 3);
    reveal_with_fuel(accepts, 3);
}

/// Setting the filter writes its value to IIR_CNT, waits 20 ms and ends; the
/// driver ends idle with the new filter and otherwise unchanged.
pub proof fn lemma_set_filter_protocol(s: DeviceState, filter: IirFilter)
    requires
        s.phase is Idle,
    ensures
        s.start(Request::SetFilter(filter)).1 == (Action::Write {
            address: s.address,
            register: IIR_CNT_REGISTER,
            value: Some(filter.register_value()),
        }),
        accepts(s.start(Request::SetFilter(filter)).0, seq![completed(), completed()]),
        run(s.start(Request::SetFilter(filter)).0, seq![completed(), completed()]) == (
            DeviceState { filter, ..s },
            seq![Action::Wait { ms: SETTLE_MS }, Action::Finish(Outcome::Done)],
        ),
{
    reveal_with_fuel(run, 3);
    reveal_with_fuel(accepts, 3);
}

/// Setting the oversampling writes its control byte (with the sleep power
/// mode) to CTRL_MEAS, waits 20 ms and ends; the driver ends idle with the
/// new setting and otherwise unchanged.
pub proof fn lemma_set_oversampling_setting_protocol(s: DeviceState, setting: OverSamplingSetting)
    requires
        s.phase is Idle,
    ensures
        s.start(Request::SetOversamplingSetting(setting)).1 == (Action::Write {
            address: s.address,
            register: CTRL_MEAS_REGISTER,
            value: Some(setting.control_value()),
        }),
        accepts(s.start(Request::SetOversamplingSetting(setting)).0, seq![completed(), completed()]),
        run(s.start(Request::SetOversamplingSetting(setting)).0, seq![completed(), completed()]) == (
            DeviceState { oversampling_setting: setting, ..s },
            seq![Action::Wait { ms: SETTLE_MS }, Action::Finish(Outcome::Done)],
        ),
{
    reveal_with_fuel(run, 3);
    reveal_with_fuel(accepts, 3);
}

/// The raw readings lie within the 24-bit range centred on zero.
pub proof fn lemma_raw_readings_range(data: Seq<u8>)
    requires
        data.len() == DATA_LEN,
    ensures
        -8_388_608 <= decode_raw(data).dp < 8_388_608,
        -8_388_608 <= decode_raw(data).dt < 8_388_608,
        decode_raw(data).dp + 8_388_608 == data[0] as int * 65536 + data[1] as int * 256
            + data[2] as int,
        decode_raw(data).dt + 8_388_608 == data[3] as int * 65536 + data[4] as int * 256
            + data[5] as int,
{
}

/// The 20-bit coefficients lie within the 20-bit signed range, and every
/// coefficient is congruent to its unsigned reading modulo its word size.
pub proof fn lemma_coefficient_ranges(v: Seq<u8>, i: int)
    requires
        v.len() == CALIBRATION_LEN,
        0 <= i < 24,
    ensures
        -0x8_0000 <= decode_coe(v).a0 < 0x8_0000,
        -0x8_0000 <= decode_coe(v).b00 < 0x8_0000,
        (decode_coe(v).a0 + 0x10_0000) % 0x10_0000 == (v[18] as int * 4096 + v[19] as int * 16
            + v[24] as int % 16),
        (decode_coe(v).b00 + 0x10_0000) % 0x10_0000 == (v[0] as int * 4096 + v[1] as int * 16
            + v[24] as int / 16),
        (word16(v, i) + 0x1_0000) % 0x1_0000 == v[i] as int * 256 + v[i + 1] as int,
{
}

/// Each sixteen-bit coefficient is the two's-complement reading of its two
/// big-endian bytes: it lies in the 16-bit signed range and is congruent,
/// modulo 2^16, to the first byte times 256 plus the second.
pub proof fn lemma_sixteen_bit_coefficients(v: Seq<u8>)
    requires
        v.len() == CALIBRATION_LEN,
    ensures
        ({
            let c = decode_coe(v);
            &&& (c.bt1 + 0x1_0000) % 0x1_0000 == v[2] as int * 256 + v[3] as int
            &&& (c.bt2 + 0x1_0000) % 0x1_0000 == v[4] as int * 256 + v[5] as int
            &&& (c.bp1 + 0x1_0000) % 0x1_0000 == v[6] as int * 256 + v[7] as int
            &&& (c.b11 + 0x1_0000) % 0x1_0000 == v[8] as int * 256 + v[9] as int
            &&& (c.bp2 + 0x1_0000) % 0x1_0000 == v[10] as int * 256 + v[11] as int
            &&& (c.b12 + 0x1_0000) % 0x1_0000 == v[12] as int * 256 + v[13] as int
            &&& (c.b21 + 0x1_0000) % 0x1_0000 == v[14] as int * 256 + v[15] as int
            &&& (c.bp3 + 0x1_0000) % 0x1_0000 == v[16] as int * 256 + v[17] as int
            &&& (c.a1 + 0x1_0000) % 0x1_0000 == v[20] as int * 256 + v[21] as int
            &&& (c.a2 + 0x1_0000) % 0x1_0000 == v[22] as int * 256 + v[23] as int
        }),
{
}

/// The register map of the QMP6988 and the values the driver relies on.
pub proof fn lemma_register_map()
    ensures
        I2C_ADDRESS_LOGIC_LOW == 0x70,
        I2C_ADDRESS_LOGIC_HIGH == 0x56,
        DEFAULT_I2C_ADDRESS == 0x70,
        CHIP_ID_REGISTER == 0xd1,
        COE_B00_1_REGISTER == 0xa0,
        CTRL_MEAS_REGISTER == 0xf4,
        IIR_CNT_REGISTER == 0xf1,
        PRESS_TXD2 == 0xf7,
        RESET_REGISTER == 0xe0,
        CHIP_ID == 0x5c,
        SETTLE_MS == 20,
        RESET_MS == 10,
        RAW_OFFSET == 8_388_608,
        CALIBRATION_LEN == 25,
        DATA_LEN == 6,
{
}

/// The register values of every filter, power mode and oversampling ratio,
/// and, for every oversampling setting, the CTRL_MEAS byte it writes and the
/// time a forced measurement takes.
pub proof fn lemma_setting_encodings()
    ensures
        IirFilter::Off.register_value() == 0,
        IirFilter::Coeff2.register_value() == 1,
        IirFilter::Coeff4.register_value() == 2,
        IirFilter::Coeff8.register_value() == 3,
        IirFilter::Coeff16.register_value() == 4,
        IirFilter::Coeff32.register_value() == 5,
        PowerMode::Sleep.register_value() == 0,
        PowerMode::Forced.register_value() == 1,
        PowerMode::Normal.register_value() == 3,
        forall|r: OverSampling| #![trigger r.samples()]
            r.samples() == pow2((r.register_value() - 1) as nat),
        OverSamplingSetting::HighSpeed.control_value() == 0x28,
        OverSamplingSetting::LowPower.control_value() == 0x2c,
        OverSamplingSetting::Standard.control_value() == 0x30,
        OverSamplingSetting::HighAccuracy.control_value() == 0x54,
        OverSamplingSetting::UltraHighAccuracy.control_value() == 0x78,
        OverSamplingSetting::HighSpeed.duration_ms() == 6,
        OverSamplingSetting::LowPower.duration_ms() == 8,
        OverSamplingSetting::Standard.duration_ms() == 11,
        OverSamplingSetting::HighAccuracy.duration_ms() == 19,
        OverSamplingSetting::UltraHighAccuracy.duration_ms() == 34,
        OverSamplingSetting::HighSpeed.ratios() == (OverSampling::X2, OverSampling::X1),
        OverSamplingSetting::LowPower.ratios() == (OverSampling::X4, OverSampling::X1),
        OverSamplingSetting::Standard.ratios() == (OverSampling::X8, OverSampling::X1),
        OverSamplingSetting::HighAccuracy.ratios() == (OverSampling::X16, OverSampling::X2),
        OverSamplingSetting::UltraHighAccuracy.ratios() == (OverSampling::X32, OverSampling::X4),
{
    assert forall|r: OverSampling| #![trigger r.samples()]
        r.samples() == pow2((r.register_value() - 1) as nat) by {
        lemma2_to64();
    }
}

/// A bus error at any point of a request under way gives the request up at
/// once: the machine answers `BusError` and is idle again, with its address,
/// coefficients and settings unchanged.
pub proof fn lemma_bus_error_ends_request(s: DeviceState)
    requires
        !(s.phase is Idle),
    ensures
        s.awaits(Err(())),
        s.transition(Err(())) == (s.in_phase(Phase::Idle), Action::Finish(Outcome::BusError)),
{
}

/// Two bytes are recovered from the word they make.
proof fn lemma_bytes_from_word(h1: u8, l1: u8, h2: u8, l2: u8)
    requires
        h1 as int * 256 + l1 as int == h2 as int * 256 + l2 as int,
    ensures
        h1 == h2,
        l1 == l2,
{
}

/// Two bytes and a nibble of a third are recovered from the 20-bit word they
/// make (the low nibble when `low`, the high one otherwise).
proof fn lemma_bytes_from_word20(h1: u8, m1: u8, n1: u8, h2: u8, m2: u8, n2: u8, low: bool)
    requires
        low ==> h1 as int * 4096 + m1 as int * 16 + n1 as int % 16 == h2 as int * 4096 + m2 as int
            * 16 + n2 as int % 16,
        !low ==> h1 as int * 4096 + m1 as int * 16 + n1 as int / 16 == h2 as int * 4096 + m2 as int
            * 16 + n2 as int / 16,
    ensures
        h1 == h2,
        m1 == m2,
        low ==> n1 as int % 16 == n2 as int % 16,
        !low ==> n1 as int / 16 == n2 as int / 16,
{
}

/// Decoding the calibration bytes is one-to-one: two byte strings that give
/// the same coefficients are equal, so every byte, and both nibbles of the
/// last one, reach the coefficients.
#[verifier::rlimit(30)]
pub proof fn lemma_calibration_decoding_injective(v1: Seq<u8>, v2: Seq<u8>)
    requires
        v1.len() == CALIBRATION_LEN,
        v2.len() == CALIBRATION_LEN,
        decode_coe(v1) == decode_coe(v2),
    ensures
        v1 == v2,
{
    lemma_sixteen_bit_coefficients(v1);
    lemma_sixteen_bit_coefficients(v2);
    lemma_coefficient_ranges(v1, 0);
    lemma_coefficient_ranges(v2, 0);
    let (c1, c2) = (decode_coe(v1), decode_coe(v2));
    assert(c1 == c2);
    lemma_bytes_from_word(v1[2], v1[3], v2[2], v2[3]);
    lemma_bytes_from_word(v1[4], v1[5], v2[4], v2[5]);
    lemma_bytes_from_word(v1[6], v1[7], v2[6], v2[7]);
    lemma_bytes_from_word(v1[8], v1[9], v2[8], v2[9]);
    lemma_bytes_from_word(v1[10], v1[11], v2[10], v2[11]);
    lemma_bytes_from_word(v1[12], v1[13], v2[12], v2[13]);
    lemma_bytes_from_word(v1[14], v1[15], v2[14], v2[15]);
    lemma_bytes_from_word(v1[16], v1[17], v2[16], v2[17]);
    lemma_bytes_from_word(v1[20], v1[21], v2[20], v2[21]);
    lemma_bytes_from_word(v1[22], v1[23], v2[22], v2[23]);
    lemma_bytes_from_word20(v1[18], v1[19], v1[24], v2[18], v2[19], v2[24], true);
    lemma_bytes_from_word20(v1[0], v1[1], v1[24], v2[0], v2[1], v2[24], false);
    assert(v1[24] as int % 16 == v2[24] as int % 16 && v1[24] as int / 16 == v2[24] as int / 16);
    assert(v1 =~= v2);
}

/// What the machine takes back from each event: nothing from a completion,
/// exactly the bytes read (same length, same order) from a read, and an error
/// from a bus failure.
pub proof fn lemma_event_inputs(bytes: Vec<u8>)
    ensures
        Event::Completed@ == completed(),
        Event::Received(bytes)@ == received(bytes@),
        Event::Received(bytes)@ matches Ok(Some(d)) && d.len() == bytes.len() && forall|i: int|
            0 <= i < bytes.len() ==> d[i] == bytes[i],
        Event::Failed@ is Err,
{
}

} // verus!
