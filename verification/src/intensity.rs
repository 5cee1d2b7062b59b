//! Brightness and colour temperature.
//!
//! A brightness is held in two encodings at once: a raw byte and a
//! percentage. Each operation sets one of the two and derives the other from
//! it, rounding down.

use vstd::prelude::*;

verus! {

/// `v` limited to the closed range from `lo` to `hi`.
pub open spec fn clamp_int(v: int, lo: int, hi: int) -> int {
    if v < lo {
        lo
    } else if v > hi {
        hi
    } else {
        v
    }
}

/// The raw byte that stands for a percentage: `percent * 2.55`, rounded down,
/// of the percentage limited to 0..=100.
pub open spec fn raw_of_percent(percent: int) -> int {
    clamp_int(percent, 0, 100) * 255 / 100
}

/// The percentage that stands for a raw byte: `raw / 2.55`, rounded down.
pub open spec fn percent_of_raw(raw: int) -> int {
    clamp_int(raw, 0, 255) * 100 / 255
}

/// A brightness in both encodings.
#[derive(Debug, Clone, Copy, PartialEq, Eq, Structural)]
pub struct Intensity {
    pub raw_value: u8,
    pub percentage: u8,
}

impl Intensity {
    /// The percentage was derived from the raw byte.
    pub open spec fn raw_led(&self) -> bool {
        self.percentage == percent_of_raw(self.raw_value as int)
    }

    /// The raw byte was derived from the percentage.
    pub open spec fn percent_led(&self) -> bool {
        self.percentage <= 100 && self.raw_value == raw_of_percent(self.percentage as int)
    }

    /// The two encodings agree: one of them was derived from the other.
    pub open spec fn well_formed(&self) -> bool {
        self.raw_led() || self.percent_led()
    }

    /// The brightness with the given raw byte.
    pub open spec fn spec_from_raw(value: int) -> Intensity {
        Intensity {
            raw_value: clamp_int(value, 0, 255) as u8,
            percentage: percent_of_raw(value) as u8,
        }
    }

    /// The brightness with the given percentage, limited to 0..=100.
    pub open spec fn spec_from_percent(value: int) -> Intensity {
        Intensity {
            raw_value: raw_of_percent(value) as u8,
            percentage: clamp_int(value, 0, 100) as u8,
        }
    }

    /// The brightness after the raw byte was shifted by `delta`.
    pub open spec fn spec_delta_raw(&self, delta: int) -> Intensity {
        Self::spec_from_raw(self.raw_value + delta)
    }

    /// The brightness after the percentage was shifted by `delta`.
    pub open spec fn spec_delta_percent(&self, delta: int) -> Intensity {
        Self::spec_from_percent(self.percentage + delta)
    }

    /// Converts a percentage to the raw byte, rounding down. A percentage
    /// above 100 counts as 100.
    pub fn p100_to_u8(percent: u8) -> (raw: u8)
        ensures
            raw == raw_of_percent(percent as int),
    {
        let limited: u16 = if percent > 100 {
            100
        } else {
            percent as u16
        };
        let scaled: u16 = limited * 255 / 100;
        scaled as u8
    }

    /// Converts a raw byte to the percentage, rounding down.
    pub fn u8_to_p100(raw: u8) -> (percent: u8)
        ensures
            percent == percent_of_raw(raw as int),
            percent <= 100,
    {
        let scaled: u16 = raw as u16 * 100 / 255;
        scaled as u8
    }

    /// A brightness from its raw byte.
    pub fn from_raw(value: u8) -> (r: Self)
        ensures
            r == Self::spec_from_raw(value as int),
            r.raw_value == value,
            r.percentage == percent_of_raw(value as int),
            r.raw_led(),
            r.well_formed(),
    {
        Intensity { raw_value: value, percentage: Self::u8_to_p100(value) }
    }

    /// A brightness from a percentage. A value above 100 is taken as 100.
    pub fn from_percent(value: u8) -> (r: Self)
        ensures
            r == Self::spec_from_percent(value as int),
            r.percentage == clamp_int(value as int, 0, 100),
            r.raw_value == raw_of_percent(value as int),
            r.percent_led(),
            r.well_formed(),
    {
        let percentage: u8 = if value > 100 {
            100
        } else {
            value
        };
        Intensity { raw_value: Self::p100_to_u8(percentage), percentage }
    }

    /// Shifts the raw byte by `delta`, limits it to 0..=255, and then derives
    /// the percentage from the limited byte.
    pub fn delta_raw(&mut self, delta: i16)
        ensures
            *final(self) == old(self).spec_delta_raw(delta as int),
            final(self).raw_value == clamp_int(old(self).raw_value + delta, 0, 255),
            final(self).raw_led(),
            final(self).well_formed(),
    {
        let shifted: i32 = self.raw_value as i32 + delta as i32;
        let limited: u8 = if shifted < 0 {
            0
        } else if shifted > 255 {
            255
        } else {
            shifted as u8
        };
        self.raw_value = limited;
        self.update_p100();
    }

    /// Shifts the percentage by `delta`, limits it to 0..=100, and then
    /// derives the raw byte from the limited percentage.
    pub fn delta_percent(&mut self, delta: i16)
        ensures
            *final(self) == old(self).spec_delta_percent(delta as int),
            final(self).percentage == clamp_int(old(self).percentage + delta, 0, 100),
            final(self).percent_led(),
            final(self).well_formed(),
    {
        let shifted: i32 = self.percentage as i32 + delta as i32;
        let limited: u8 = if shifted < 0 {
            0
        } else if shifted > 100 {
            100
        } else {
            shifted as u8
        };
        self.percentage = limited;
        self.update_u8();
    }

    /// Derives the raw byte anew from the percentage, which it first limits
    /// to 100.
    pub fn update_u8(&mut self)
        ensures
            *final(self) == Self::spec_from_percent(old(self).percentage as int),
    {
        if self.percentage > 100 {
            self.percentage = 100;
        }
        self.raw_value = Self::p100_to_u8(self.percentage);
    }

    /// Derives the percentage anew from the raw byte.
    pub fn update_p100(&mut self)
        ensures
            *final(self) == Self::spec_from_raw(old(self).raw_value as int),
    {
        self.percentage = Self::u8_to_p100(self.raw_value);
    }
}

/// The range of colour temperatures, in kelvin, that a device can show.
#[derive(Debug, Clone, Copy, PartialEq, Eq, Structural)]
pub struct ColorTempSpace {
    pub min_temp: u16,
    pub max_temp: u16,
}

impl ColorTempSpace {
    /// The range is not empty.
    pub open spec fn well_formed(&self) -> bool {
        self.min_temp <= self.max_temp
    }

    /// `value` limited to the range.
    pub open spec fn limit(&self, value: int) -> int {
        clamp_int(value, self.min_temp as int, self.max_temp as int)
    }
}

/// A colour temperature, in kelvin, inside the range of its device.
#[derive(Debug, Clone, Copy, PartialEq, Eq, Structural)]
pub struct ColorTemp {
    pub value: u16,
    pub space: ColorTempSpace,
}

impl ColorTemp {
    /// The range is not empty and holds the value.
    pub open spec fn well_formed(&self) -> bool {
        self.space.well_formed() && self.space.min_temp <= self.value <= self.space.max_temp
    }

    /// The temperature nearest to `value` in `space`.
    pub open spec fn spec_new(value: int, space: ColorTempSpace) -> ColorTemp {
        ColorTemp { value: space.limit(value) as u16, space }
    }

    /// A temperature in `space`. A value outside the range is moved to the
    /// nearer end of it.
    pub fn new(value: u16, space: ColorTempSpace) -> (r: Self)
        requires
            space.well_formed(),
        ensures
            r == Self::spec_new(value as int, space),
            r.well_formed(),
    {
        let limited: u16 = if value < space.min_temp {
            space.min_temp
        } else if value > space.max_temp {
            space.max_temp
        } else {
            value
        };
        ColorTemp { value: limited, space }
    }

    /// Shifts the temperature by `delta` and limits it to the range again.
    pub fn delta(&mut self, delta: i32)
        requires
            old(self).space.well_formed(),
        ensures
            *final(self) == Self::spec_new(old(self).value + delta, old(self).space),
            final(self).well_formed(),
    {
        let shifted: i64 = self.value as i64 + delta as i64;
        let limited: u16 = if shifted < self.space.min_temp as i64 {
            self.space.min_temp
        } else if shifted > self.space.max_temp as i64 {
            self.space.max_temp
        } else {
            shifted as u16
        };
        self.value = limited;
    }
}

/// A change to one brightness: a shift of one encoding, or a new value for
/// it.
pub ghost enum IntensityEdit {
    DeltaPercent(int),
    DeltaRaw(int),
    SetPercent(int),
    SetRaw(int),
}

impl Intensity {
    /// The brightness after `edit`.
    pub open spec fn spec_edit(&self, edit: IntensityEdit) -> Intensity {
        match edit {
            IntensityEdit::DeltaPercent(delta) => self.spec_delta_percent(delta),
            IntensityEdit::DeltaRaw(delta) => self.spec_delta_raw(delta),
            IntensityEdit::SetPercent(value) => Self::spec_from_percent(value),
            IntensityEdit::SetRaw(value) => Self::spec_from_raw(value),
        }
    }
}

/// Shifting the percentage by nothing changes neither encoding of a
/// brightness whose raw byte was derived from its percentage.
pub proof fn lemma_delta_percent_zero(i: Intensity)
    requires
        i.percent_led(),
    ensures
        i.spec_delta_percent(0) == i,
{
}

/// Shifting the raw byte by nothing changes neither encoding of a brightness
/// whose percentage was derived from its raw byte.
pub proof fn lemma_delta_raw_zero(i: Intensity)
    requires
        i.raw_led(),
    ensures
        i.spec_delta_raw(0) == i,
{
}

/// A percentage, turned into a raw byte and back, comes out as itself or as
/// one less: the conversion rounds down both times.
pub proof fn lemma_percent_round_trip(percent: int)
    requires
        0 <= percent <= 100,
    ensures
        percent - 1 <= percent_of_raw(raw_of_percent(percent)) <= percent,
        Intensity::spec_from_raw(Intensity::spec_from_percent(percent).raw_value as int).percentage
            == percent_of_raw(raw_of_percent(percent)),
{
}

/// Every percentage above 100 gives the brightness that 100 gives.
pub proof fn lemma_from_percent_clamps(percent: int)
    requires
        percent >= 100,
    ensures
        Intensity::spec_from_percent(percent) == Intensity::spec_from_percent(100),
        Intensity::spec_from_percent(percent).percentage == 100,
        Intensity::spec_from_percent(percent).raw_value == 255,
{
}

/// A shift of the raw byte by -255 or less leaves both encodings at 0,
/// whatever the brightness was.
pub proof fn lemma_delta_raw_floor(i: Intensity, delta: int)
    requires
        delta <= -255,
    ensures
        i.spec_delta_raw(delta).raw_value == 0,
        i.spec_delta_raw(delta).percentage == 0,
{
}

/// A shift of the raw byte by 255 or more leaves the raw byte at 255 and the
/// percentage at 100.
pub proof fn lemma_delta_raw_ceiling(i: Intensity, delta: int)
    requires
        delta >= 255,
    ensures
        i.spec_delta_raw(delta).raw_value == 255,
        i.spec_delta_raw(delta).percentage == 100,
{
}

} // verus!
