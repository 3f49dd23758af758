//! Exercises the pin type states: splitting the peripheral, wrapping pins,
//! and the register bit index each pin token addresses.

use aes_hal::gpio::{Gpio, GpioExt, GpioIndex, GpioPeriph, GPIO0, GPIO3, GPIO7};

#[test]
fn split_yields_all_pins() {
    let parts = GpioPeriph::new().split();
    let g = Gpio::new(parts.gpio0, ());
    // the token and the dummy pin resource come back out of the wrapper
    let _token = g.gpio;
    let _pin: () = g.pin;
    let _g1 = Gpio::new(parts.gpio1, ());
    let _g2 = Gpio::new(parts.gpio2, ());
    let _g3 = Gpio::new(parts.gpio3, ());
    let _g4 = Gpio::new(parts.gpio4, ());
    let _g5 = Gpio::new(parts.gpio5, ());
    let _g6 = Gpio::new(parts.gpio6, ());
    let _g7 = Gpio::new(parts.gpio7, ());
}

#[test]
fn pin_tokens_carry_their_register_index() {
    assert_eq!(<GPIO0 as GpioIndex>::index(), 0);
    assert_eq!(<GPIO3 as GpioIndex>::index(), 3);
    assert_eq!(<GPIO7 as GpioIndex>::index(), 7);
}
