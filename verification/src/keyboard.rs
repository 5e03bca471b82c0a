//! The controller: the keyboard's current lighting state and the reports
//! that bring the keyboard up to date with it.

use crate::device::{find_device, is_first_supported, none_supported, DeviceIdentity, Platform};
use crate::error::Error;
use crate::state::{
    default_model, payload_of, LightingModel, LightingState, BRIGHTNESS_MIN, SPEED_MIN,
};
use vstd::pervasive::unreached;
use vstd::prelude::*;

verus! {

/// The lighting state of one keyboard.
///
/// The state of a `Keyboard` is always one the keyboard accepts. Each setter
/// returns the report to send, which carries the whole state: the keyboard
/// knows no partial update.
#[derive(Debug)]
pub struct Keyboard {
    current_state: LightingState,
}

/// A keyboard that was found among the attached devices.
#[derive(Debug)]
pub struct Acquisition {
    /// Place of the keyboard in the list of devices: the one to open.
    pub device_index: usize,
    /// The controller, in its initial state.
    pub keyboard: Keyboard,
    /// The report that brings the keyboard to the initial state.
    pub initial_payload: [u8; 33],
}

impl View for Keyboard {
    type V = LightingModel;

    closed spec fn view(&self) -> LightingModel {
        self.current_state@
    }
}

impl Keyboard {
    #[verifier::type_invariant]
    spec fn state_is_valid(self) -> bool {
        self.current_state@.is_valid()
    }

    /// A controller in the initial state: speed 1, brightness 1, all colours off.
    pub fn new() -> (keyboard: Keyboard)
        ensures
            keyboard@ == default_model(),
    {
        let keyboard = Keyboard {
            current_state: LightingState::new(SPEED_MIN, BRIGHTNESS_MIN, [0; 12]),
        };
        assert(keyboard@.colors =~= default_model().colors);
        keyboard
    }

    /// The current state.
    pub fn state(&self) -> (state: LightingState)
        ensures
            state@ == self@,
            state@.is_valid(),
    {
        proof {
            use_type_invariant(self);
        }
        self.current_state
    }

    /// The report for the current state. The state is valid, so there always
    /// is one.
    pub fn refresh(&self) -> (payload: [u8; 33])
        ensures
            self@.is_valid(),
            payload@ == payload_of(self@),
    {
        proof {
            use_type_invariant(self);
        }
        match self.current_state.build_payload() {
            Ok(payload) => payload,
            Err(_) => unreached(),
        }
    }

    /// Sets the speed to the value nearest to `speed` within 1..=4 and
    /// returns the report for the new state.
    pub fn set_speed(&mut self, speed: u8) -> (payload: [u8; 33])
        ensures
            final(self)@ == old(self)@.with_speed(speed),
            final(self)@.is_valid(),
            payload@ == payload_of(final(self)@),
    {
        proof {
            use_type_invariant(&*self);
        }
        let mut state = self.current_state;
        state.set_speed(speed);
        self.current_state = state;
        self.refresh()
    }

    /// Sets the brightness to the value nearest to `brightness` within 1..=2
    /// and returns the report for the new state.
    pub fn set_brightness(&mut self, brightness: u8) -> (payload: [u8; 33])
        ensures
            final(self)@ == old(self)@.with_brightness(brightness),
            final(self)@.is_valid(),
            payload@ == payload_of(final(self)@),
    {
        proof {
            use_type_invariant(&*self);
        }
        let mut state = self.current_state;
        state.set_brightness(brightness);
        self.current_state = state;
        self.refresh()
    }

    /// Replaces the colours by `new_values`, byte for byte, and returns the
    /// report for the new state.
    pub fn set_colors_to(&mut self, new_values: &[u8; 12]) -> (payload: [u8; 33])
        ensures
            final(self)@ == old(self)@.with_colors(new_values@),
            final(self)@.is_valid(),
            payload@ == payload_of(final(self)@),
    {
        proof {
            use_type_invariant(&*self);
        }
        let mut state = self.current_state;
        state.set_colors_to(new_values);
        self.current_state = state;
        self.refresh()
    }
}

/// Picks the keyboard out of `devices`, the attached HID devices in the order
/// in which they were listed, and sets up its controller.
///
/// The first device that is a supported keyboard on `platform` is the one
/// taken. Without one, the result is `DeviceNotFound` and names no device.
pub fn get_keyboard(platform: Platform, devices: &[DeviceIdentity]) -> (result: Result<
    Acquisition,
    Error,
>)
    ensures
        match result {
            Ok(found) => {
                &&& is_first_supported(platform, devices@, found.device_index as int)
                &&& found.keyboard@ == default_model()
                &&& found.initial_payload@ == payload_of(default_model())
            },
            Err(e) => e == Error::DeviceNotFound && none_supported(platform, devices@),
        },
{
    let device_index = match find_device(platform, devices) {
        Ok(index) => index,
        Err(e) => {
            return Err(e);
        },
    };
    let keyboard = Keyboard::new();
    let initial_payload = keyboard.refresh();
    Ok(Acquisition { device_index, keyboard, initial_payload })
}

} // verus!
