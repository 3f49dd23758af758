//! General-purpose input/output pins with type-state modes.
//!
//! The pin mode (floating, pull-up or pull-down input, push-pull output) is
//! carried in the pin's type, so driving a pin in the wrong mode fails to
//! compile instead of failing at run time. The electrical side of a pin
//! lives outside this crate; here stand the ownership and mode bookkeeping
//! that the rest of the system builds on.

use vstd::prelude::*;
use core::marker::PhantomData;

verus! {

/// Handle for the whole GPIO peripheral, before it is split into pins.
pub struct GpioPeriph {}

impl GpioPeriph {
    /// The peripheral handle as the system hands it over.
    pub fn new() -> GpioPeriph {
        GpioPeriph {  }
    }
}

/// Extension trait to split a GPIO peripheral into independent pins.
pub trait GpioExt {
    /// Split the GPIO peripheral into parts.
    fn split(self) -> Parts;
}

/// GPIO peripheral parts: one ownership token per pin.
pub struct Parts {
    pub gpio0: GPIO0,
    pub gpio1: GPIO1,
    pub gpio2: GPIO2,
    pub gpio3: GPIO3,
    pub gpio4: GPIO4,
    pub gpio5: GPIO5,
    pub gpio6: GPIO6,
    pub gpio7: GPIO7,
}

/// GPIO pin ownership token.
pub struct GPIO0 {
    _ownership: (),
}

/// GPIO pin ownership token.
pub struct GPIO1 {
    _ownership: (),
}

/// GPIO pin ownership token.
pub struct GPIO2 {
    _ownership: (),
}

/// GPIO pin ownership token.
pub struct GPIO3 {
    _ownership: (),
}

/// GPIO pin ownership token.
pub struct GPIO4 {
    _ownership: (),
}

/// GPIO pin ownership token.
pub struct GPIO5 {
    _ownership: (),
}

/// GPIO pin ownership token.
pub struct GPIO6 {
    _ownership: (),
}

/// GPIO pin ownership token.
pub struct GPIO7 {
    _ownership: (),
}

impl GpioExt for GpioPeriph {
    fn split(self) -> Parts {
        Parts {
            gpio0: GPIO0 { _ownership: () },
            gpio1: GPIO1 { _ownership: () },
            gpio2: GPIO2 { _ownership: () },
            gpio3: GPIO3 { _ownership: () },
            gpio4: GPIO4 { _ownership: () },
            gpio5: GPIO5 { _ownership: () },
            gpio6: GPIO6 { _ownership: () },
            gpio7: GPIO7 { _ownership: () },
        }
    }
}

/// Which bit of the data and direction registers a pin token addresses.
pub trait GpioIndex {
    spec fn index_spec() -> int;

    fn index() -> (n: u8)
        ensures
            n as int == Self::index_spec(),
            0 <= Self::index_spec() < 8,
    ;
}

impl GpioIndex for GPIO0 {
    open spec fn index_spec() -> int {
        0
    }

    fn index() -> u8 {
        0
    }
}

impl GpioIndex for GPIO1 {
    open spec fn index_spec() -> int {
        1
    }

    fn index() -> u8 {
        1
    }
}

impl GpioIndex for GPIO2 {
    open spec fn index_spec() -> int {
        2
    }

    fn index() -> u8 {
        2
    }
}

impl GpioIndex for GPIO3 {
    open spec fn index_spec() -> int {
        3
    }

    fn index() -> u8 {
        3
    }
}

impl GpioIndex for GPIO4 {
    open spec fn index_spec() -> int {
        4
    }

    fn index() -> u8 {
        4
    }
}

impl GpioIndex for GPIO5 {
    open spec fn index_spec() -> int {
        5
    }

    fn index() -> u8 {
        5
    }
}

impl GpioIndex for GPIO6 {
    open spec fn index_spec() -> int {
        6
    }

    fn index() -> u8 {
        6
    }
}

impl GpioIndex for GPIO7 {
    open spec fn index_spec() -> int {
        7
    }

    fn index() -> u8 {
        7
    }
}

/// Input mode (type state).
pub struct Input<MODE>(pub MODE);

/// Floating input (type state).
pub struct Floating;

/// Pull-down input (type state).
pub struct PullDown;

/// Pull-up input (type state).
pub struct PullUp;

/// Push-pull output mode (type state).
pub struct Output;

/// Marker trait for the pin modes a configured pin can stand in.
pub trait Active {

}

impl Active for Input<Floating> {

}

impl Active for Input<PullUp> {

}

impl Active for Input<PullDown> {

}

impl Active for Output {

}

/// A GPIO pin bound to its ownership token and its mode.
pub struct Gpio<GPIO, PIN, MODE> {
    pub gpio: GPIO,
    pub pin: PIN,
    pub _mode: PhantomData<MODE>,
}

impl<GPIO, PIN> Gpio<GPIO, PIN, Input<Floating>> {
    /// Wraps a pin in its power-on mode, a floating input.
    pub fn new(gpio: GPIO, pin: PIN) -> (g: Gpio<GPIO, PIN, Input<Floating>>)
        ensures
            g.gpio == gpio,
            g.pin == pin,
    {
        Gpio { gpio, pin, _mode: PhantomData }
    }
}

} // verus!
