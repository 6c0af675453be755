//! Trusted declarations for the rppal GPIO types and calls the drivers use.

use vstd::prelude::*;

verus! {

/// rppal's GPIO peripheral handle, opaque to verification.
#[verifier::external_type_specification]
#[verifier::external_body]
pub struct ExGpio(rppal::gpio::Gpio);

/// rppal's unconfigured pin, opaque to verification.
#[verifier::external_type_specification]
#[verifier::external_body]
pub struct ExPin(rppal::gpio::Pin);

/// rppal's output pin, opaque to verification.
#[verifier::external_type_specification]
#[verifier::external_body]
pub struct ExOutputPin(rppal::gpio::OutputPin);

/// rppal's GPIO error, opaque to verification; it is carried inside
/// [crate::Error::Gpio] and never inspected by this crate.
#[verifier::external_type_specification]
#[verifier::external_body]
pub struct ExGpioError(rppal::gpio::Error);

/// Relies on `rppal::gpio::Gpio::new` to open the GPIO peripheral; it fails
/// where the hardware is absent or inaccessible, and nothing is assumed of
/// the outcome.
pub assume_specification[ rppal::gpio::Gpio::new ]() -> (r: Result<
    rppal::gpio::Gpio,
    rppal::gpio::Error,
>);

/// Relies on `rppal::gpio::Gpio::get` to claim the pin with the given BCM
/// number; it fails where the pin is unavailable, and nothing is assumed of
/// the outcome.
pub assume_specification[ rppal::gpio::Gpio::get ](gpio: &rppal::gpio::Gpio, pin: u8) -> (r:
    Result<rppal::gpio::Pin, rppal::gpio::Error>);

/// Relies on `rppal::gpio::Pin::into_output` to configure the pin as an
/// output.
pub assume_specification[ rppal::gpio::Pin::into_output ](pin: rppal::gpio::Pin) -> (r:
    rppal::gpio::OutputPin);

/// Relies on `rppal::gpio::OutputPin::set_low` to drive the line low.
pub assume_specification[ rppal::gpio::OutputPin::set_low ](pin: &mut rppal::gpio::OutputPin);

/// Relies on `rppal::gpio::OutputPin::set_high` to drive the line high.
pub assume_specification[ rppal::gpio::OutputPin::set_high ](pin: &mut rppal::gpio::OutputPin);

/// Claim the BCM pin with the given number and configure it as an output.
pub(crate) fn acquire_output_pin(nr: u8) -> Result<rppal::gpio::OutputPin, rppal::gpio::Error> {
    let gpio = match rppal::gpio::Gpio::new() {
        Ok(g) => g,
        Err(e) => {
            return Err(e);
        },
    };
    let pin = match gpio.get(nr) {
        Ok(p) => p,
        Err(e) => {
            return Err(e);
        },
    };
    Ok(pin.into_output())
}

} // verus!
