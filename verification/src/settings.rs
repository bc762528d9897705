//! The measurement settings of the QMP6988 and the register bytes that
//! select them.

use vstd::prelude::*;

verus! {

/// IIR (Infinite Impulse Response) filter.
///
/// It chooses the amount of noise reduction being performed on the pressure
/// measurement. The greater the coeff, the higher the noise reduction.
#[derive(Clone, Copy, Debug, PartialEq, Eq, Structural)]
pub enum IirFilter {
    /// No filter is applied
    Off,
    /// A coefficient 2 filter is applied
    Coeff2,
    /// A coefficient 4 filter is applied
    Coeff4,
    /// A coefficient 8 filter is applied
    Coeff8,
    /// A coefficient 16 filter is applied
    Coeff16,
    /// A coefficient 32 filter is applied
    Coeff32,
}

impl IirFilter {
    /// The value written to the IIR_CNT register to select this filter.
    pub open spec fn register_value(self) -> u8 {
        match self {
            IirFilter::Off => 0x00,
            IirFilter::Coeff2 => 0x01,
            IirFilter::Coeff4 => 0x02,
            IirFilter::Coeff8 => 0x03,
            IirFilter::Coeff16 => 0x04,
            IirFilter::Coeff32 => 0x05,
        }
    }

    /// The value written to the IIR_CNT register to select this filter.
    pub fn bits(self) -> (b: u8)
        ensures
            b == self.register_value(),
    {
        match self {
            IirFilter::Off => 0x00,
            IirFilter::Coeff2 => 0x01,
            IirFilter::Coeff4 => 0x02,
            IirFilter::Coeff8 => 0x03,
            IirFilter::Coeff16 => 0x04,
            IirFilter::Coeff32 => 0x05,
        }
    }
}

impl Default for IirFilter {
    /// The coefficient 4 filter.
    fn default() -> (f: Self)
        ensures
            f == IirFilter::Coeff4,
    {
        IirFilter::Coeff4
    }
}

/// The oversampling setting.
///
/// It chooses the accuracy of the measurement, with an impact on the
/// duration of the measurement. The greater the accuracy, the longer the
/// duration of the measurement, and the higher the current consumption.
#[derive(Clone, Copy, Debug, PartialEq, Eq, Structural)]
pub enum OverSamplingSetting {
    /// The shorter measurement, with the lowest accuracy. This is typically
    /// used for weather monitoring.
    HighSpeed,
    /// A measurement with a litle more accuracy, but still a low current
    /// consumption. This might be used for drop detection.
    LowPower,
    /// The standard setting, providing a compromise between the accuracy
    /// of the measurement and its duration. This might be used for elevator
    /// detection.
    Standard,
    /// A high accuracy measurement, with a quite long duration. This might be
    /// used for stair detection.
    HighAccuracy,
    /// The best accuracy measurement, with the longer duration and higher
    /// current consumption. This is typically used for indoor navigation.
    UltraHighAccuracy,
}

impl Default for OverSamplingSetting {
    /// The standard setting.
    fn default() -> (s: Self)
        ensures
            s == OverSamplingSetting::Standard,
    {
        OverSamplingSetting::Standard
    }
}

/// The power mode field (the two low bits) of the CTRL_MEAS register.
#[derive(Clone, Copy, Debug, PartialEq, Eq, Structural)]
pub enum PowerMode {
    /// No measurement is performed.
    Sleep,
    /// One measurement is performed, then the device goes back to sleep.
    Forced,
    /// Measurements are performed repeatedly.
    Normal,
}

impl PowerMode {
    /// The two bits that select this power mode.
    pub open spec fn register_value(self) -> u8 {
        match self {
            PowerMode::Sleep => 0x00,
            PowerMode::Forced => 0x01,
            PowerMode::Normal => 0x03,
        }
    }

    /// The two bits that select this power mode.
    pub fn bits(self) -> (b: u8)
        ensures
            b == self.register_value(),
    {
        match self {
            PowerMode::Sleep => 0x00,
            PowerMode::Forced => 0x01,
            PowerMode::Normal => 0x03,
        }
    }
}

/// The oversampling ratio of one of the two measured quantities.
#[derive(Clone, Copy, Debug, PartialEq, Eq, Structural)]
pub enum OverSampling {
    /// One sample.
    X1,
    /// Two samples.
    X2,
    /// Four samples.
    X4,
    /// Eight samples.
    X8,
    /// Sixteen samples.
    X16,
    /// Thirty-two samples.
    X32,
}

impl OverSampling {
    /// The three bits that select this ratio in the CTRL_MEAS register.
    pub open spec fn register_value(self) -> u8 {
        match self {
            OverSampling::X1 => 0x01,
            OverSampling::X2 => 0x02,
            OverSampling::X4 => 0x03,
            OverSampling::X8 => 0x04,
            OverSampling::X16 => 0x05,
            OverSampling::X32 => 0x06,
        }
    }

    /// The number of samples taken.
    pub open spec fn samples(self) -> nat {
        match self {
            OverSampling::X1 => 1,
            OverSampling::X2 => 2,
            OverSampling::X4 => 4,
            OverSampling::X8 => 8,
            OverSampling::X16 => 16,
            OverSampling::X32 => 32,
        }
    }

    /// The three bits that select this ratio in the CTRL_MEAS register.
    pub fn bits(self) -> (b: u8)
        ensures
            b == self.register_value(),
    {
        match self {
            OverSampling::X1 => 0x01,
            OverSampling::X2 => 0x02,
            OverSampling::X4 => 0x03,
            OverSampling::X8 => 0x04,
            OverSampling::X16 => 0x05,
            OverSampling::X32 => 0x06,
        }
    }
}

impl OverSamplingSetting {
    /// The position of this setting in the order of increasing accuracy.
    pub open spec fn accuracy_rank(self) -> nat {
        match self {
            OverSamplingSetting::HighSpeed => 0,
            OverSamplingSetting::LowPower => 1,
            OverSamplingSetting::Standard => 2,
            OverSamplingSetting::HighAccuracy => 3,
            OverSamplingSetting::UltraHighAccuracy => 4,
        }
    }

    /// How long (in ms) a forced measurement takes with this setting.
    pub open spec fn duration_ms(self) -> u32 {
        match self {
            OverSamplingSetting::HighSpeed => 6,
            OverSamplingSetting::LowPower => 8,
            OverSamplingSetting::Standard => 11,
            OverSamplingSetting::HighAccuracy => 19,
            OverSamplingSetting::UltraHighAccuracy => 34,
        }
    }

    /// The pressure and temperature oversampling ratios of this setting.
    pub open spec fn ratios(self) -> (OverSampling, OverSampling) {
        match self {
            OverSamplingSetting::HighSpeed => (OverSampling::X2, OverSampling::X1),
            OverSamplingSetting::LowPower => (OverSampling::X4, OverSampling::X1),
            OverSamplingSetting::Standard => (OverSampling::X8, OverSampling::X1),
            OverSamplingSetting::HighAccuracy => (OverSampling::X16, OverSampling::X2),
            OverSamplingSetting::UltraHighAccuracy => (OverSampling::X32, OverSampling::X4),
        }
    }

    /// The CTRL_MEAS byte that selects this setting: the temperature ratio in
    /// bits 7..5, the pressure ratio in bits 4..2, and the sleep power mode in
    /// bits 1..0.
    pub open spec fn control_value(self) -> u8 {
        (self.ratios().1.register_value() * 32 + self.ratios().0.register_value() * 4
            + PowerMode::Sleep.register_value()) as u8
    }

    /// How long (in ms) a forced measurement takes with this setting.
    pub fn measurement_duration(self) -> (ms: u32)
        ensures
            ms == self.duration_ms(),
    {
        match self {
            OverSamplingSetting::HighSpeed => 6,
            OverSamplingSetting::LowPower => 8,
            OverSamplingSetting::Standard => 11,
            OverSamplingSetting::HighAccuracy => 19,
            OverSamplingSetting::UltraHighAccuracy => 34,
        }
    }

    /// The pressure and temperature oversampling ratios of this setting.
    pub fn oversamplings(self) -> (r: (OverSampling, OverSampling))
        ensures
            r == self.ratios(),
    {
        match self {
            OverSamplingSetting::HighSpeed => (OverSampling::X2, OverSampling::X1),
            OverSamplingSetting::LowPower => (OverSampling::X4, OverSampling::X1),
            OverSamplingSetting::Standard => (OverSampling::X8, OverSampling::X1),
            OverSamplingSetting::HighAccuracy => (OverSampling::X16, OverSampling::X2),
            OverSamplingSetting::UltraHighAccuracy => (OverSampling::X32, OverSampling::X4),
        }
    }

    /// The CTRL_MEAS byte that selects this setting and the sleep power mode.
    pub fn control_byte(self) -> (b: u8)
        ensures
            b == self.control_value(),
    {
        let (pressure, temperature) = self.oversamplings();
        let t: u8 = temperature.bits();
        let p: u8 = pressure.bits();
        let s: u8 = PowerMode::Sleep.bits();
        assert(t < 8 && p < 8 && s < 4 ==> (t << 5u8 | p << 2u8 | s) == t * 32 + p * 4 + s)
            by (bit_vector);
        t << 5u8 | p << 2u8 | s
    }
}

/// The CTRL_MEAS byte that selects `mode` and keeps the oversampling ratios of
/// `current`: its six high bits are those of `current`, its two low bits those
/// of `mode`.
pub open spec fn with_power_mode(current: u8, mode: PowerMode) -> u8 {
    (current as int - current as int % 4 + mode.register_value() as int) as u8
}

/// The CTRL_MEAS byte that selects `mode` and keeps the oversampling ratios of
/// `current`.
pub fn power_mode_byte(current: u8, mode: PowerMode) -> (b: u8)
    ensures
        b == with_power_mode(current, mode),
{
    let m: u8 = mode.bits();
    assert(m < 4 ==> ((current & 0xfc) | m) == current - current % 4 + m) by (bit_vector);
    (current & 0xfc) | m
}

/// The greater the accuracy of an oversampling setting, the longer the
/// measurement takes, the more pressure samples it takes, and the temperature
/// samples do not decrease.
pub proof fn lemma_accuracy_costs_time(a: OverSamplingSetting, b: OverSamplingSetting)
    requires
        a.accuracy_rank() < b.accuracy_rank(),
    ensures
        a.duration_ms() < b.duration_ms(),
        a.ratios().0.samples() < b.ratios().0.samples(),
        a.ratios().1.samples() <= b.ratios().1.samples(),
{
}

/// Selecting a power mode leaves the oversampling bits unchanged and places
/// exactly the mode's bits in the two low bits.
pub proof fn lemma_power_mode_keeps_ratios(current: u8, mode: PowerMode)
    ensures
        with_power_mode(current, mode) / 4 == current / 4,
        with_power_mode(current, mode) % 4 == mode.register_value(),
{
}

/// A control byte written by a setting selects the sleep power mode, and
/// selecting the forced mode from it gives the byte plus one.
pub proof fn lemma_control_byte_sleeps(s: OverSamplingSetting)
    ensures
        s.control_value() % 4 == PowerMode::Sleep.register_value(),
        with_power_mode(s.control_value(), PowerMode::Forced) == s.control_value() + 1,
{
}

} // verus!
