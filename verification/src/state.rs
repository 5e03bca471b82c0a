//! The lighting state and its encoding as a feature report.

use crate::error::Error;
use vstd::prelude::*;

verus! {

/// Slowest animation speed the keyboard accepts.
pub const SPEED_MIN: u8 = 1;

/// Fastest animation speed the keyboard accepts.
pub const SPEED_MAX: u8 = 4;

/// Dimmest brightness the keyboard accepts.
pub const BRIGHTNESS_MIN: u8 = 1;

/// Brightest brightness the keyboard accepts.
pub const BRIGHTNESS_MAX: u8 = 2;

/// Number of colour bytes: four zones of three channels each.
pub const COLOR_BYTES: usize = 12;

/// Length of the feature report.
pub const PAYLOAD_LEN: usize = 33;

/// First byte of every report.
pub const REPORT_MARKER: u8 = 0xcc;

/// Command byte of the "set lighting" report.
pub const COMMAND_SET_LIGHTING: u8 = 0x16;

/// Sub-command byte that makes the keyboard apply the report.
pub const APPLY_FLAG: u8 = 0x01;

/// Offset of the first colour byte in the report.
pub const COLOR_OFFSET: usize = 5;

/// The nearest value to `value` within `low..=high`.
pub open spec fn clamp(value: u8, low: u8, high: u8) -> u8 {
    if value < low {
        low
    } else if value > high {
        high
    } else {
        value
    }
}

fn nearest_within(value: u8, low: u8, high: u8) -> (nearest: u8)
    ensures
        nearest == clamp(value, low, high),
{
    if value < low {
        low
    } else if value > high {
        high
    } else {
        value
    }
}

/// What a lighting state is: two settings and the colour bytes in order.
pub struct LightingModel {
    pub speed: u8,
    pub brightness: u8,
    pub colors: Seq<u8>,
}

impl LightingModel {
    /// There are exactly twelve colour bytes.
    pub open spec fn well_formed(self) -> bool {
        self.colors.len() == COLOR_BYTES
    }

    /// The speed is one the keyboard accepts.
    pub open spec fn speed_in_range(self) -> bool {
        SPEED_MIN <= self.speed <= SPEED_MAX
    }

    /// The brightness is one the keyboard accepts.
    pub open spec fn brightness_in_range(self) -> bool {
        BRIGHTNESS_MIN <= self.brightness <= BRIGHTNESS_MAX
    }

    /// The state may be sent to the keyboard.
    pub open spec fn is_valid(self) -> bool {
        self.well_formed() && self.speed_in_range() && self.brightness_in_range()
    }

    /// The state after the speed was set to `speed`, coerced into its range.
    pub open spec fn with_speed(self, speed: u8) -> LightingModel {
        LightingModel { speed: clamp(speed, SPEED_MIN, SPEED_MAX), ..self }
    }

    /// The state after the brightness was set to `brightness`, coerced into its range.
    pub open spec fn with_brightness(self, brightness: u8) -> LightingModel {
        LightingModel { brightness: clamp(brightness, BRIGHTNESS_MIN, BRIGHTNESS_MAX), ..self }
    }

    /// The state after the colours were replaced by `colors`.
    pub open spec fn with_colors(self, colors: Seq<u8>) -> LightingModel {
        LightingModel { colors, ..self }
    }
}

/// The state a keyboard starts with: slowest, dimmest, all colours off.
pub open spec fn default_model() -> LightingModel {
    LightingModel {
        speed: SPEED_MIN,
        brightness: BRIGHTNESS_MIN,
        colors: Seq::new(12, |i: int| 0u8),
    }
}

/// The report for a state: marker, command, apply flag, speed, brightness,
/// the colour bytes, and zeros up to 33 bytes.
pub open spec fn payload_of(m: LightingModel) -> Seq<u8> {
    seq![REPORT_MARKER, COMMAND_SET_LIGHTING, APPLY_FLAG, m.speed, m.brightness] + m.colors
        + Seq::new(16, |i: int| 0u8)
}

/// The outcome of encoding a state: the speed is checked first, then the
/// brightness, and only a state that passes both has a report.
pub open spec fn encode(m: LightingModel) -> Result<Seq<u8>, Error> {
    if !m.speed_in_range() {
        Err(Error::SpeedOutOfRange)
    } else if !m.brightness_in_range() {
        Err(Error::BrightnessOutOfRange)
    } else {
        Ok(payload_of(m))
    }
}

/// `result` is what encoding the state `m` gives.
pub open spec fn is_encoding_of(result: Result<[u8; 33], Error>, m: LightingModel) -> bool {
    match result {
        Ok(payload) => encode(m) == Ok::<Seq<u8>, Error>(payload@),
        Err(e) => encode(m) == Err::<Seq<u8>, Error>(e),
    }
}

/// The state that a report was made from, read back at the report's offsets.
pub open spec fn decode(payload: Seq<u8>) -> LightingModel {
    LightingModel { speed: payload[3], brightness: payload[4], colors: payload.subrange(5, 17) }
}

/// Speed, brightness and the colours of the four zones.
///
/// The fields hold whatever the state was made with; `build_payload` refuses
/// a state whose speed or brightness the keyboard would not accept.
#[derive(Debug, Clone, Copy)]
pub struct LightingState {
    speed: u8,
    brightness: u8,
    rgb_values: [u8; 12],
}

impl View for LightingState {
    type V = LightingModel;

    closed spec fn view(&self) -> LightingModel {
        LightingModel {
            speed: self.speed,
            brightness: self.brightness,
            colors: self.rgb_values@,
        }
    }
}

impl LightingState {
    /// A state with exactly the given values, in range or not.
    pub fn new(speed: u8, brightness: u8, rgb_values: [u8; 12]) -> (state: LightingState)
        ensures
            state@ == (LightingModel { speed, brightness, colors: rgb_values@ }),
            state@.well_formed(),
    {
        LightingState { speed, brightness, rgb_values }
    }

    /// Every state carries exactly twelve colour bytes.
    pub proof fn lemma_well_formed(self)
        ensures
            self@.well_formed(),
    {
    }

    /// The stored speed.
    pub fn speed(&self) -> (speed: u8)
        ensures
            speed == self@.speed,
    {
        self.speed
    }

    /// The stored brightness.
    pub fn brightness(&self) -> (brightness: u8)
        ensures
            brightness == self@.brightness,
    {
        self.brightness
    }

    /// The stored colour bytes, zone by zone.
    pub fn rgb_values(&self) -> (colors: [u8; 12])
        ensures
            colors@ == self@.colors,
    {
        self.rgb_values
    }

    /// Stores the value nearest to `speed` within 1..=4.
    pub fn set_speed(&mut self, speed: u8)
        ensures
            final(self)@ == old(self)@.with_speed(speed),
    {
        self.speed = nearest_within(speed, SPEED_MIN, SPEED_MAX);
    }

    /// Stores the value nearest to `brightness` within 1..=2.
    pub fn set_brightness(&mut self, brightness: u8)
        ensures
            final(self)@ == old(self)@.with_brightness(brightness),
    {
        self.brightness = nearest_within(brightness, BRIGHTNESS_MIN, BRIGHTNESS_MAX);
    }

    /// Stores the twelve colour bytes as they are.
    pub fn set_colors_to(&mut self, new_values: &[u8; 12])
        ensures
            final(self)@ == old(self)@.with_colors(new_values@),
    {
        self.rgb_values = *new_values;
    }

    /// Encodes the state as a feature report, or says which setting is out
    /// of range. The state is left as it is.
    pub fn build_payload(&self) -> (result: Result<[u8; 33], Error>)
        ensures
            self@.well_formed(),
            is_encoding_of(result, self@),
    {
        if self.speed < SPEED_MIN || self.speed > SPEED_MAX {
            return Err(Error::SpeedOutOfRange);
        }
        if self.brightness < BRIGHTNESS_MIN || self.brightness > BRIGHTNESS_MAX {
            return Err(Error::BrightnessOutOfRange);
        }
        let mut payload: [u8; 33] = [0; 33];
        payload[0] = REPORT_MARKER;
        payload[1] = COMMAND_SET_LIGHTING;
        payload[2] = APPLY_FLAG;
        payload[3] = self.speed;
        payload[4] = self.brightness;
        let mut i: usize = 0;
        while i < COLOR_BYTES
            invariant
                i <= COLOR_BYTES,
                payload@.len() == 33,
                payload@[0] == REPORT_MARKER,
                payload@[1] == COMMAND_SET_LIGHTING,
                payload@[2] == APPLY_FLAG,
                payload@[3] == self.speed,
                payload@[4] == self.brightness,
                forall|j: int| 0 <= j < i ==> payload@[COLOR_OFFSET + j] == self.rgb_values@[j],
                forall|j: int| COLOR_OFFSET + i <= j < 33 ==> payload@[j] == 0,
            decreases COLOR_BYTES - i,
        {
            payload[COLOR_OFFSET + i] = self.rgb_values[i];
            i += 1;
        }
        assert(payload@ =~= payload_of(self@));
        Ok(payload)
    }
}

/// Encoding succeeds exactly on the states whose speed and brightness are
/// in range.
pub proof fn lemma_encode_ok_iff_in_range(m: LightingModel)
    ensures
        encode(m) is Ok <==> m.speed_in_range() && m.brightness_in_range(),
        encode(m) == Err::<Seq<u8>, Error>(Error::SpeedOutOfRange) <==> !m.speed_in_range(),
        encode(m) == Err::<Seq<u8>, Error>(Error::BrightnessOutOfRange) <==> m.speed_in_range()
            && !m.brightness_in_range(),
{
}

/// Encoding depends on the state alone: two results of encoding one state
/// are the same result, byte for byte.
pub proof fn lemma_encoding_is_deterministic(
    m: LightingModel,
    first: Result<[u8; 33], Error>,
    second: Result<[u8; 33], Error>,
)
    requires
        is_encoding_of(first, m),
        is_encoding_of(second, m),
    ensures
        first == second,
{
    if let Ok(a) = first {
        if let Ok(b) = second {
            assert(a@ == b@);
            assert(a =~= b);
        }
    }
}

/// A report has 33 bytes, and reading it back at its offsets gives the state
/// it was made from: speed, brightness and every colour byte.
pub proof fn lemma_decode_inverts_payload(m: LightingModel)
    requires
        m.well_formed(),
    ensures
        payload_of(m).len() == PAYLOAD_LEN,
        decode(payload_of(m)) == m,
{
    assert(decode(payload_of(m)).colors =~= m.colors);
}

/// Setting a value a second time changes nothing: the state after the
/// second call, and so its report, is that after the first.
pub proof fn lemma_setters_are_idempotent(m: LightingModel, value: u8, colors: Seq<u8>)
    ensures
        m.with_speed(value).with_speed(value) == m.with_speed(value),
        m.with_brightness(value).with_brightness(value) == m.with_brightness(value),
        m.with_colors(colors).with_colors(colors) == m.with_colors(colors),
        payload_of(m.with_speed(value).with_speed(value)) == payload_of(m.with_speed(value)),
        payload_of(m.with_brightness(value).with_brightness(value)) == payload_of(
            m.with_brightness(value),
        ),
        payload_of(m.with_colors(colors).with_colors(colors)) == payload_of(m.with_colors(colors)),
{
}

/// The setters coerce into range and touch nothing else: after setting the
/// speed, the brightness or twelve colour bytes of a valid state, the state
/// is valid again, and so has a report.
pub proof fn lemma_setters_keep_validity(m: LightingModel, value: u8, colors: Seq<u8>)
    requires
        m.is_valid(),
        colors.len() == COLOR_BYTES,
    ensures
        m.with_speed(value).is_valid(),
        m.with_brightness(value).is_valid(),
        m.with_colors(colors).is_valid(),
        encode(m.with_speed(value)) is Ok,
        encode(m.with_brightness(value)) is Ok,
        encode(m.with_colors(colors)) is Ok,
{
}

} // verus!
