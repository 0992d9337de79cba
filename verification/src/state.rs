//! What is known of the device's settings, as last read from it.

use crate::messages::led::LEDParameter;
use crate::messages::{
    decode_float, decode_i32, decode_rgb, decode_u32, BeacnValue, DomainValue, FloatBits,
    MessageValue, RGB,
};
use vstd::prelude::*;

verus! {

/// The settings of the device.
#[derive(Debug)]
pub struct DeviceState {
    pub led: LEDState,
}

/// The settings of the LED ring, one field for each parameter of the group.
#[derive(Debug)]
pub struct LEDState {
    pub mode: u32,
    pub colour1: RGB,
    pub colour2: RGB,
    pub speed: i32,
    pub brightness: i32,
    pub meter_source: u32,
    pub meter_sensitivity: FloatBits,
    pub mute_mode: u32,
    pub mute_colour: RGB,
    pub suspend_mode: u32,
    pub suspend_brightness: u32,
}

impl Default for LEDState {
    fn default() -> (state: Self)
        ensures
            state == LEDState::spec_zero(),
    {
        LEDState {
            mode: 0,
            colour1: RGB::default(),
            colour2: RGB::default(),
            speed: 0,
            brightness: 0,
            meter_source: 0,
            meter_sensitivity: FloatBits(0),
            mute_mode: 0,
            mute_colour: RGB::default(),
            suspend_mode: 0,
            suspend_brightness: 0,
        }
    }
}

impl Default for DeviceState {
    fn default() -> (state: Self)
        ensures
            state.led == LEDState::spec_zero(),
    {
        DeviceState { led: LEDState::default() }
    }
}

impl DeviceState {
    /// Records the wire value that the device gave for a parameter of the
    /// LED ring. Nothing but that parameter's field changes.
    pub fn set_led_param(&mut self, param: LEDParameter, value: BeacnValue)
        ensures
            final(self).led == old(self).led.spec_set_param(param, value),
    {
        self.led.set_param(param, value);
    }
}

impl LEDState {
    /// The state before anything was read: every field zero.
    pub open spec fn spec_zero() -> LEDState {
        LEDState {
            mode: 0,
            colour1: RGB { red: 0, green: 0, blue: 0, alpha: 0 },
            colour2: RGB { red: 0, green: 0, blue: 0, alpha: 0 },
            speed: 0,
            brightness: 0,
            meter_source: 0,
            meter_sensitivity: FloatBits(0),
            mute_mode: 0,
            mute_colour: RGB { red: 0, green: 0, blue: 0, alpha: 0 },
            suspend_mode: 0,
            suspend_brightness: 0,
        }
    }

    /// The state with the field of `param` replaced by what `value` decodes
    /// to under the type of that parameter.
    pub open spec fn spec_set_param(self, param: LEDParameter, value: BeacnValue) -> LEDState {
        match param {
            LEDParameter::Mode => LEDState { mode: decode_u32(value), ..self },
            LEDParameter::Colour1 => LEDState { colour1: decode_rgb(value), ..self },
            LEDParameter::Colour2 => LEDState { colour2: decode_rgb(value), ..self },
            LEDParameter::Speed => LEDState { speed: decode_i32(value), ..self },
            LEDParameter::Brightness => LEDState { brightness: decode_i32(value), ..self },
            LEDParameter::MeterSource => LEDState { meter_source: decode_u32(value), ..self },
            LEDParameter::MeterSensitivity => LEDState {
                meter_sensitivity: decode_float(value),
                ..self
            },
            LEDParameter::MuteMode => LEDState { mute_mode: decode_u32(value), ..self },
            LEDParameter::MuteColour => LEDState { mute_colour: decode_rgb(value), ..self },
            LEDParameter::SuspendMode => LEDState { suspend_mode: decode_u32(value), ..self },
            LEDParameter::SuspendBrightness => LEDState {
                suspend_brightness: decode_u32(value),
                ..self
            },
        }
    }

    /// The value that the state holds for `param`.
    pub open spec fn spec_value(self, param: LEDParameter) -> DomainValue {
        match param {
            LEDParameter::Mode => DomainValue::Unsigned(self.mode),
            LEDParameter::Colour1 => DomainValue::Colour(self.colour1),
            LEDParameter::Colour2 => DomainValue::Colour(self.colour2),
            LEDParameter::Speed => DomainValue::Signed(self.speed),
            LEDParameter::Brightness => DomainValue::Signed(self.brightness),
            LEDParameter::MeterSource => DomainValue::Unsigned(self.meter_source),
            LEDParameter::MeterSensitivity => DomainValue::Float(self.meter_sensitivity),
            LEDParameter::MuteMode => DomainValue::Unsigned(self.mute_mode),
            LEDParameter::MuteColour => DomainValue::Colour(self.mute_colour),
            LEDParameter::SuspendMode => DomainValue::Unsigned(self.suspend_mode),
            LEDParameter::SuspendBrightness => DomainValue::Unsigned(self.suspend_brightness),
        }
    }

    /// Records the wire value that the device gave for `param`, decoded
    /// under the type of that parameter.
    pub fn set_param(&mut self, param: LEDParameter, value: BeacnValue)
        ensures
            *final(self) == old(self).spec_set_param(param, value),
    {
        match param {
            LEDParameter::Mode => self.mode = MessageValue::<u32>::from(value).0,
            LEDParameter::Colour1 => self.colour1 = MessageValue::<RGB>::from(value).0,
            LEDParameter::Colour2 => self.colour2 = MessageValue::<RGB>::from(value).0,
            LEDParameter::Speed => self.speed = MessageValue::<i32>::from(value).0,
            LEDParameter::Brightness => self.brightness = MessageValue::<i32>::from(value).0,
            LEDParameter::MeterSource => self.meter_source = MessageValue::<u32>::from(value).0,
            LEDParameter::MeterSensitivity => self.meter_sensitivity = MessageValue::<
                FloatBits,
            >::from(value).0,
            LEDParameter::MuteMode => self.mute_mode = MessageValue::<u32>::from(value).0,
            LEDParameter::MuteColour => self.mute_colour = MessageValue::<RGB>::from(value).0,
            LEDParameter::SuspendMode => self.suspend_mode = MessageValue::<u32>::from(value).0,
            LEDParameter::SuspendBrightness => self.suspend_brightness = MessageValue::<
                u32,
            >::from(value).0,
        }
    }

    /// The value that the state holds for `param`.
    pub fn value(&self, param: LEDParameter) -> (value: DomainValue)
        ensures
            value == self.spec_value(param),
            value.kind_of() == param.kind_of(),
    {
        match param {
            LEDParameter::Mode => DomainValue::Unsigned(self.mode),
            LEDParameter::Colour1 => DomainValue::Colour(self.colour1),
            LEDParameter::Colour2 => DomainValue::Colour(self.colour2),
            LEDParameter::Speed => DomainValue::Signed(self.speed),
            LEDParameter::Brightness => DomainValue::Signed(self.brightness),
            LEDParameter::MeterSource => DomainValue::Unsigned(self.meter_source),
            LEDParameter::MeterSensitivity => DomainValue::Float(self.meter_sensitivity),
            LEDParameter::MuteMode => DomainValue::Unsigned(self.mute_mode),
            LEDParameter::MuteColour => DomainValue::Colour(self.mute_colour),
            LEDParameter::SuspendMode => DomainValue::Unsigned(self.suspend_mode),
            LEDParameter::SuspendBrightness => DomainValue::Unsigned(self.suspend_brightness),
        }
    }
}

/// What is recorded for a parameter is what its wire value means under the
/// type that the catalog gives the parameter, and the record of every other
/// parameter stays as it was.
pub proof fn lemma_set_param_by_kind(
    state: LEDState,
    param: LEDParameter,
    other: LEDParameter,
    value: BeacnValue,
)
    ensures
        state.spec_set_param(param, value).spec_value(param) == DomainValue::spec_decode(
            param.kind_of(),
            value,
        ),
        other != param ==> state.spec_set_param(param, value).spec_value(other)
            == state.spec_value(other),
{
}

} // verus!
