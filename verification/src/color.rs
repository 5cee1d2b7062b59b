//! White light and colour.
//!
//! A colour holds one brightness for each channel that it has. A change
//! names a channel; a colour that lacks the channel is left as it was.

use crate::intensity::{ColorTemp, ColorTempSpace, Intensity, IntensityEdit};
use crate::overlay::{overlay, spec_overlay};
use vstd::prelude::*;

verus! {

/// The fixed kinds of white light.
#[derive(Debug, Clone, Copy, PartialEq, Eq, Structural)]
pub enum WhiteStaticType {
    Warm,
    Cold,
    Mixed,
}

/// White light that is mixed from a warm and a cold source.
#[derive(Debug, Clone, Copy, PartialEq, Eq, Structural)]
pub struct WhiteVariableType {
    pub current: WhiteStaticType,
    /// The share of the mix, in percent.
    pub ratio: u8,
    pub intensity: Intensity,
}

impl WhiteVariableType {
    /// The light with its brightness changed by `edit`.
    pub open spec fn spec_edit(&self, edit: IntensityEdit) -> WhiteVariableType {
        WhiteVariableType {
            current: self.current,
            ratio: self.ratio,
            intensity: self.intensity.spec_edit(edit),
        }
    }

    /// Mixed light of the given brightness, with a share of 0.
    pub open spec fn spec_mixed(intensity: Intensity) -> WhiteVariableType {
        WhiteVariableType { current: WhiteStaticType::Mixed, ratio: 0, intensity }
    }

    /// Mixed light that is dark.
    pub fn new() -> (r: Self)
        ensures
            r == Self::spec_mixed(Intensity::spec_from_percent(0)),
            r.intensity.raw_value == 0,
            r.intensity.percentage == 0,
    {
        Self { current: WhiteStaticType::Mixed, ratio: 0, intensity: Intensity::from_percent(0) }
    }

    /// Shifts the percentage of the brightness.
    pub fn delta_percent(&mut self, delta: i16)
        ensures
            *final(self) == old(self).spec_edit(IntensityEdit::DeltaPercent(delta as int)),
    {
        self.intensity.delta_percent(delta);
    }

    /// Shifts the raw byte of the brightness.
    pub fn delta_raw(&mut self, delta: i16)
        ensures
            *final(self) == old(self).spec_edit(IntensityEdit::DeltaRaw(delta as int)),
    {
        self.intensity.delta_raw(delta);
    }

    /// Sets the brightness to a percentage.
    pub fn patch_percent(&mut self, value: u8)
        ensures
            *final(self) == old(self).spec_edit(IntensityEdit::SetPercent(value as int)),
    {
        self.intensity = Intensity::from_percent(value);
    }

    /// Sets the brightness to a raw byte.
    pub fn patch_raw(&mut self, value: u8)
        ensures
            *final(self) == old(self).spec_edit(IntensityEdit::SetRaw(value as int)),
    {
        self.intensity = Intensity::from_raw(value);
    }
}

/// White light whose colour temperature can be set.
#[derive(Debug, Clone, Copy, PartialEq, Eq, Structural)]
pub struct WhiteTunableType {
    pub temp: ColorTemp,
    pub intensity: Intensity,
}

impl WhiteTunableType {
    /// The light with its brightness changed by `edit`.
    pub open spec fn spec_edit(&self, edit: IntensityEdit) -> WhiteTunableType {
        WhiteTunableType { temp: self.temp, intensity: self.intensity.spec_edit(edit) }
    }

    /// Dark light at the temperature nearest to 5000 K in `space`.
    pub open spec fn spec_new(space: ColorTempSpace) -> WhiteTunableType {
        WhiteTunableType {
            temp: ColorTemp::spec_new(5000, space),
            intensity: Intensity::spec_from_percent(0),
        }
    }

    /// Dark light at 5000 K, or at the end of `space` that is nearest to it.
    pub fn new(space: ColorTempSpace) -> (r: Self)
        requires
            space.well_formed(),
        ensures
            r == Self::spec_new(space),
            r.temp.well_formed(),
    {
        Self { temp: ColorTemp::new(5000, space), intensity: Intensity::from_percent(0) }
    }

    /// Shifts the percentage of the brightness.
    pub fn delta_percent(&mut self, delta: i16)
        ensures
            *final(self) == old(self).spec_edit(IntensityEdit::DeltaPercent(delta as int)),
    {
        self.intensity.delta_percent(delta);
    }

    /// Shifts the raw byte of the brightness.
    pub fn delta_raw(&mut self, delta: i16)
        ensures
            *final(self) == old(self).spec_edit(IntensityEdit::DeltaRaw(delta as int)),
    {
        self.intensity.delta_raw(delta);
    }

    /// Sets the brightness to a percentage.
    pub fn patch_percent(&mut self, value: u8)
        ensures
            *final(self) == old(self).spec_edit(IntensityEdit::SetPercent(value as int)),
    {
        self.intensity = Intensity::from_percent(value);
    }

    /// Sets the brightness to a raw byte.
    pub fn patch_raw(&mut self, value: u8)
        ensures
            *final(self) == old(self).spec_edit(IntensityEdit::SetRaw(value as int)),
    {
        self.intensity = Intensity::from_raw(value);
    }
}

/// The white light of a device: exactly one of the three kinds.
#[derive(Debug, Clone, Copy, PartialEq, Eq, Structural)]
pub enum WhiteType {
    Tunable(WhiteTunableType),
    Dimmable(WhiteStaticType),
    Variable(WhiteVariableType),
}

/// The channels that a change can name.
#[derive(Debug, Clone, Copy, PartialEq, Eq, Structural)]
pub enum ColorChannel {
    Red,
    Green,
    Blue,
    WhiteCold,
    WhiteHot,
}

/// A colour of three channels.
#[derive(Debug, Clone, Copy, PartialEq, Eq, Structural)]
pub struct Rgb {
    pub red: Intensity,
    pub green: Intensity,
    pub blue: Intensity,
}

/// A patch for an [`Rgb`]: the channels to replace.
#[derive(Debug, Clone, Copy, PartialEq, Eq, Structural)]
pub struct OptionalRgb {
    pub red: Option<Intensity>,
    pub green: Option<Intensity>,
    pub blue: Option<Intensity>,
}

impl OptionalRgb {
    /// The patch that changes nothing.
    pub fn empty() -> (r: Self)
        ensures
            r == (OptionalRgb { red: None, green: None, blue: None }),
    {
        OptionalRgb { red: None, green: None, blue: None }
    }
}

impl Rgb {
    /// The colour has this channel.
    pub open spec fn owns(channel: ColorChannel) -> bool {
        channel is Red || channel is Green || channel is Blue
    }

    /// The colour after `edit` was made to `channel`: unchanged where it has
    /// no such channel.
    pub open spec fn spec_edit(&self, channel: ColorChannel, edit: IntensityEdit) -> Rgb {
        match channel {
            ColorChannel::Red => Rgb { red: self.red.spec_edit(edit), ..*self },
            ColorChannel::Green => Rgb { green: self.green.spec_edit(edit), ..*self },
            ColorChannel::Blue => Rgb { blue: self.blue.spec_edit(edit), ..*self },
            _ => *self,
        }
    }

    /// The colour with the channels of `patch` laid over its own.
    pub open spec fn spec_merged(&self, patch: OptionalRgb) -> Rgb {
        Rgb {
            red: spec_overlay(self.red, patch.red),
            green: spec_overlay(self.green, patch.green),
            blue: spec_overlay(self.blue, patch.blue),
        }
    }

    /// A colour from three percentages.
    pub fn new_from_percent(r: u8, g: u8, b: u8) -> (c: Self)
        ensures
            c.red == Intensity::spec_from_percent(r as int),
            c.green == Intensity::spec_from_percent(g as int),
            c.blue == Intensity::spec_from_percent(b as int),
    {
        Self {
            red: Intensity::from_percent(r),
            green: Intensity::from_percent(g),
            blue: Intensity::from_percent(b),
        }
    }

    /// A colour from three raw bytes.
    pub fn new_from_raw(r: u8, g: u8, b: u8) -> (c: Self)
        ensures
            c.red == Intensity::spec_from_raw(r as int),
            c.green == Intensity::spec_from_raw(g as int),
            c.blue == Intensity::spec_from_raw(b as int),
    {
        Self {
            red: Intensity::from_raw(r),
            green: Intensity::from_raw(g),
            blue: Intensity::from_raw(b),
        }
    }

    /// Shifts the percentage of one channel.
    pub fn patch_delta_percent(&mut self, channel: ColorChannel, delta: i16)
        ensures
            *final(self) == old(self).spec_edit(channel, IntensityEdit::DeltaPercent(delta as int)),
            !Self::owns(channel) ==> *final(self) == *old(self),
    {
        match channel {
            ColorChannel::Red => self.red.delta_percent(delta),
            ColorChannel::Green => self.green.delta_percent(delta),
            ColorChannel::Blue => self.blue.delta_percent(delta),
            _ => {},
        }
    }

    /// Shifts the raw byte of one channel.
    pub fn patch_delta_raw(&mut self, channel: ColorChannel, delta: i16)
        ensures
            *final(self) == old(self).spec_edit(channel, IntensityEdit::DeltaRaw(delta as int)),
            !Self::owns(channel) ==> *final(self) == *old(self),
    {
        match channel {
            ColorChannel::Red => self.red.delta_raw(delta),
            ColorChannel::Green => self.green.delta_raw(delta),
            ColorChannel::Blue => self.blue.delta_raw(delta),
            _ => {},
        }
    }

    /// Sets one channel to a percentage.
    pub fn patch_value_percent(&mut self, channel: ColorChannel, value: u8)
        ensures
            *final(self) == old(self).spec_edit(channel, IntensityEdit::SetPercent(value as int)),
            !Self::owns(channel) ==> *final(self) == *old(self),
    {
        match channel {
            ColorChannel::Red => self.red = Intensity::from_percent(value),
            ColorChannel::Green => self.green = Intensity::from_percent(value),
            ColorChannel::Blue => self.blue = Intensity::from_percent(value),
            _ => {},
        }
    }

    /// Sets one channel to a raw byte.
    pub fn patch_value_raw(&mut self, channel: ColorChannel, value: u8)
        ensures
            *final(self) == old(self).spec_edit(channel, IntensityEdit::SetRaw(value as int)),
            !Self::owns(channel) ==> *final(self) == *old(self),
    {
        match channel {
            ColorChannel::Red => self.red = Intensity::from_raw(value),
            ColorChannel::Green => self.green = Intensity::from_raw(value),
            ColorChannel::Blue => self.blue = Intensity::from_raw(value),
            _ => {},
        }
    }

    /// Lays the channels of `patch` over this colour.
    pub fn apply_options(&mut self, patch: OptionalRgb)
        ensures
            *final(self) == old(self).spec_merged(patch),
    {
        self.red = overlay(self.red, patch.red);
        self.green = overlay(self.green, patch.green);
        self.blue = overlay(self.blue, patch.blue);
    }
}

/// A colour of three channels and one white channel.
#[derive(Debug, Clone, Copy, PartialEq, Eq, Structural)]
pub struct Rgbw {
    pub red: Intensity,
    pub green: Intensity,
    pub blue: Intensity,
    pub white: WhiteVariableType,
}

impl Rgbw {
    /// The colour has this channel. Its white channel is the cold one.
    pub open spec fn owns(channel: ColorChannel) -> bool {
        !(channel is WhiteHot)
    }

    /// The colour after `edit` was made to `channel`: unchanged where it has
    /// no such channel.
    pub open spec fn spec_edit(&self, channel: ColorChannel, edit: IntensityEdit) -> Rgbw {
        match channel {
            ColorChannel::Red => Rgbw { red: self.red.spec_edit(edit), ..*self },
            ColorChannel::Green => Rgbw { green: self.green.spec_edit(edit), ..*self },
            ColorChannel::Blue => Rgbw { blue: self.blue.spec_edit(edit), ..*self },
            ColorChannel::WhiteCold => Rgbw { white: self.white.spec_edit(edit), ..*self },
            ColorChannel::WhiteHot => *self,
        }
    }

    /// A colour from four percentages. The white channel is mixed light.
    pub fn new_from_percent(r: u8, g: u8, b: u8, w: u8) -> (c: Self)
        ensures
            c.red == Intensity::spec_from_percent(r as int),
            c.green == Intensity::spec_from_percent(g as int),
            c.blue == Intensity::spec_from_percent(b as int),
            c.white == WhiteVariableType::spec_mixed(Intensity::spec_from_percent(w as int)),
    {
        Self {
            red: Intensity::from_percent(r),
            green: Intensity::from_percent(g),
            blue: Intensity::from_percent(b),
            white: WhiteVariableType {
                current: WhiteStaticType::Mixed,
                ratio: 0,
                intensity: Intensity::from_percent(w),
            },
        }
    }

    /// A colour from four raw bytes. The white channel is mixed light.
    pub fn new_from_raw(r: u8, g: u8, b: u8, w: u8) -> (c: Self)
        ensures
            c.red == Intensity::spec_from_raw(r as int),
            c.green == Intensity::spec_from_raw(g as int),
            c.blue == Intensity::spec_from_raw(b as int),
            c.white == WhiteVariableType::spec_mixed(Intensity::spec_from_raw(w as int)),
    {
        Self {
            red: Intensity::from_raw(r),
            green: Intensity::from_raw(g),
            blue: Intensity::from_raw(b),
            white: WhiteVariableType {
                current: WhiteStaticType::Mixed,
                ratio: 0,
                intensity: Intensity::from_raw(w),
            },
        }
    }

    /// Shifts the percentage of one channel.
    pub fn patch_delta_percent(&mut self, channel: ColorChannel, delta: i16)
        ensures
            *final(self) == old(self).spec_edit(channel, IntensityEdit::DeltaPercent(delta as int)),
            !Self::owns(channel) ==> *final(self) == *old(self),
    {
        match channel {
            ColorChannel::Red => self.red.delta_percent(delta),
            ColorChannel::Green => self.green.delta_percent(delta),
            ColorChannel::Blue => self.blue.delta_percent(delta),
            ColorChannel::WhiteCold => self.white.delta_percent(delta),
            _ => {},
        }
    }

    /// Shifts the raw byte of one channel.
    pub fn patch_delta_raw(&mut self, channel: ColorChannel, delta: i16)
        ensures
            *final(self) == old(self).spec_edit(channel, IntensityEdit::DeltaRaw(delta as int)),
            !Self::owns(channel) ==> *final(self) == *old(self),
    {
        match channel {
            ColorChannel::Red => self.red.delta_raw(delta),
            ColorChannel::Green => self.green.delta_raw(delta),
            ColorChannel::Blue => self.blue.delta_raw(delta),
            ColorChannel::WhiteCold => self.white.delta_raw(delta),
            _ => {},
        }
    }

    /// Sets one channel to a percentage.
    pub fn patch_value_percent(&mut self, channel: ColorChannel, value: u8)
        ensures
            *final(self) == old(self).spec_edit(channel, IntensityEdit::SetPercent(value as int)),
            !Self::owns(channel) ==> *final(self) == *old(self),
    {
        match channel {
            ColorChannel::Red => self.red = Intensity::from_percent(value),
            ColorChannel::Green => self.green = Intensity::from_percent(value),
            ColorChannel::Blue => self.blue = Intensity::from_percent(value),
            ColorChannel::WhiteCold => self.white.patch_percent(value),
            _ => {},
        }
    }

    /// Sets one channel to a raw byte.
    pub fn patch_value_raw(&mut self, channel: ColorChannel, value: u8)
        ensures
            *final(self) == old(self).spec_edit(channel, IntensityEdit::SetRaw(value as int)),
            !Self::owns(channel) ==> *final(self) == *old(self),
    {
        match channel {
            ColorChannel::Red => self.red = Intensity::from_raw(value),
            ColorChannel::Green => self.green = Intensity::from_raw(value),
            ColorChannel::Blue => self.blue = Intensity::from_raw(value),
            ColorChannel::WhiteCold => self.white.patch_raw(value),
            _ => {},
        }
    }
}

/// A colour of three channels and two white channels.
#[derive(Debug, Clone, Copy, PartialEq, Eq, Structural)]
pub struct Rgbww {
    pub red: Intensity,
    pub green: Intensity,
    pub blue: Intensity,
    pub white_cold: WhiteVariableType,
    pub white_hot: WhiteVariableType,
}

impl Rgbww {
    /// The colour has every channel.
    pub open spec fn owns(channel: ColorChannel) -> bool {
        true
    }

    /// The colour after `edit` was made to `channel`.
    pub open spec fn spec_edit(&self, channel: ColorChannel, edit: IntensityEdit) -> Rgbww {
        match channel {
            ColorChannel::Red => Rgbww { red: self.red.spec_edit(edit), ..*self },
            ColorChannel::Green => Rgbww { green: self.green.spec_edit(edit), ..*self },
            ColorChannel::Blue => Rgbww { blue: self.blue.spec_edit(edit), ..*self },
            ColorChannel::WhiteCold => Rgbww {
                white_cold: self.white_cold.spec_edit(edit),
                ..*self
            },
            ColorChannel::WhiteHot => Rgbww { white_hot: self.white_hot.spec_edit(edit), ..*self },
        }
    }

    /// A colour from five percentages. Both white channels are mixed light.
    pub fn new_from_percent(r: u8, g: u8, b: u8, wc: u8, wh: u8) -> (c: Self)
        ensures
            c.red == Intensity::spec_from_percent(r as int),
            c.green == Intensity::spec_from_percent(g as int),
            c.blue == Intensity::spec_from_percent(b as int),
            c.white_cold == WhiteVariableType::spec_mixed(Intensity::spec_from_percent(wc as int)),
            c.white_hot == WhiteVariableType::spec_mixed(Intensity::spec_from_percent(wh as int)),
    {
        Self {
            red: Intensity::from_percent(r),
            green: Intensity::from_percent(g),
            blue: Intensity::from_percent(b),
            white_cold: WhiteVariableType {
                current: WhiteStaticType::Mixed,
                ratio: 0,
                intensity: Intensity::from_percent(wc),
            },
            white_hot: WhiteVariableType {
                current: WhiteStaticType::Mixed,
                ratio: 0,
                intensity: Intensity::from_percent(wh),
            },
        }
    }

    /// A colour from raw bytes for red, green, blue and cold white. The hot
    /// white channel takes `wh` as a percentage. Both white channels are
    /// mixed light.
    pub fn new_from_raw(r: u8, g: u8, b: u8, wc: u8, wh: u8) -> (c: Self)
        ensures
            c.red == Intensity::spec_from_raw(r as int),
            c.green == Intensity::spec_from_raw(g as int),
            c.blue == Intensity::spec_from_raw(b as int),
            c.white_cold == WhiteVariableType::spec_mixed(Intensity::spec_from_raw(wc as int)),
            c.white_hot == WhiteVariableType::spec_mixed(Intensity::spec_from_percent(wh as int)),
    {
        Self {
            red: Intensity::from_raw(r),
            green: Intensity::from_raw(g),
            blue: Intensity::from_raw(b),
            white_cold: WhiteVariableType {
                current: WhiteStaticType::Mixed,
                ratio: 0,
                intensity: Intensity::from_raw(wc),
            },
            white_hot: WhiteVariableType {
                current: WhiteStaticType::Mixed,
                ratio: 0,
                intensity: Intensity::from_percent(wh),
            },
        }
    }

    /// Shifts the percentage of one channel.
    pub fn patch_delta_percent(&mut self, channel: ColorChannel, delta: i16)
        ensures
            *final(self) == old(self).spec_edit(channel, IntensityEdit::DeltaPercent(delta as int)),
    {
        match channel {
            ColorChannel::Red => self.red.delta_percent(delta),
            ColorChannel::Green => self.green.delta_percent(delta),
            ColorChannel::Blue => self.blue.delta_percent(delta),
            ColorChannel::WhiteCold => self.white_cold.delta_percent(delta),
            ColorChannel::WhiteHot => self.white_hot.delta_percent(delta),
        }
    }

    /// Shifts the raw byte of one channel.
    pub fn patch_delta_raw(&mut self, channel: ColorChannel, delta: i16)
        ensures
            *final(self) == old(self).spec_edit(channel, IntensityEdit::DeltaRaw(delta as int)),
    {
        match channel {
            ColorChannel::Red => self.red.delta_raw(delta),
            ColorChannel::Green => self.green.delta_raw(delta),
            ColorChannel::Blue => self.blue.delta_raw(delta),
            ColorChannel::WhiteCold => self.white_cold.delta_raw(delta),
            ColorChannel::WhiteHot => self.white_hot.delta_raw(delta),
        }
    }

    /// Sets one channel to a percentage.
    pub fn patch_value_percent(&mut self, channel: ColorChannel, value: u8)
        ensures
            *final(self) == old(self).spec_edit(channel, IntensityEdit::SetPercent(value as int)),
    {
        match channel {
            ColorChannel::Red => self.red = Intensity::from_percent(value),
            ColorChannel::Green => self.green = Intensity::from_percent(value),
            ColorChannel::Blue => self.blue = Intensity::from_percent(value),
            ColorChannel::WhiteCold => self.white_cold.patch_percent(value),
            ColorChannel::WhiteHot => self.white_hot.patch_percent(value),
        }
    }

    /// Sets one channel to a raw byte.
    pub fn patch_value_raw(&mut self, channel: ColorChannel, value: u8)
        ensures
            *final(self) == old(self).spec_edit(channel, IntensityEdit::SetRaw(value as int)),
    {
        match channel {
            ColorChannel::Red => self.red = Intensity::from_raw(value),
            ColorChannel::Green => self.green = Intensity::from_raw(value),
            ColorChannel::Blue => self.blue = Intensity::from_raw(value),
            ColorChannel::WhiteCold => self.white_cold.patch_raw(value),
            ColorChannel::WhiteHot => self.white_hot.patch_raw(value),
        }
    }
}

/// The colour state of a device: exactly one of the four kinds.
#[derive(Debug, Clone, Copy, PartialEq, Eq, Structural)]
pub enum ColorType {
    Rgb(Rgb),
    Rgbw(Rgbw),
    Rgbww(Rgbww),
    White(WhiteType),
}

} // verus!
