//! Register layout: addresses, bit assignments and the fixed constants of the
//! LED pattern.

use vstd::prelude::*;

verus! {

/// Base address of the reset and clock control block.
pub const RCC_BASE: u32 = 0x4002_3800;

/// Base address of GPIO bank D.
pub const GPIOD_BASE: u32 = 0x4002_0C00;

/// Byte offset of the AHB1 peripheral clock enable register in the clock block.
pub const RCC_AHB1ENR_OFFSET: u32 = 0x30;

/// Byte offset of the pin mode register in a GPIO bank.
pub const GPIO_MODER_OFFSET: u32 = 0x00;

/// Byte offset of the output data register in a GPIO bank.
pub const GPIO_ODR_OFFSET: u32 = 0x14;

/// Clock enable bit of GPIO bank D (bit 3).
pub const RCC_AHB1ENR_GPIODEN: u32 = 0x0000_0008;

/// Output bit of the green LED (pin 12).
pub const LED_GREEN: u32 = 0x0000_1000;

/// Output bit of the orange LED (pin 13).
pub const LED_ORANGE: u32 = 0x0000_2000;

/// Output bit of the red LED (pin 14).
pub const LED_RED: u32 = 0x0000_4000;

/// Output bit of the blue LED (pin 15).
pub const LED_BLUE: u32 = 0x0000_8000;

/// The four LED output bits together.
pub const ALL_LEDS: u32 = 0x0000_F000;

/// Number of LEDs in the circle.
pub const LED_COUNT: usize = 4;

/// Low bit of the two-bit mode field of each LED pin (bits 24, 26, 28, 30):
/// the bits that the "output" encoding `01` has set.
pub const LED_MODE_OUTPUT: u32 = 0x5500_0000;

/// High bit of the two-bit mode field of each LED pin (bits 25, 27, 29, 31).
pub const LED_MODE_HIGH: u32 = 0xAA00_0000;

/// The two-bit mode fields of the four LED pins (bits 24 to 31).
pub const LED_MODE_FIELDS: u32 = 0xFF00_0000;

/// Encoding of "general purpose output" in a two-bit mode field.
pub const MODE_OUTPUT: u32 = 1;

/// Iterations of the busy-wait between two steps of the pattern.
pub const DELAY_COUNT: u32 = 1_000_000;

/// The three registers that the firmware touches.
#[derive(Clone, Copy, Debug, PartialEq, Eq, Structural)]
pub enum Register {
    /// AHB1 peripheral clock enable register.
    ClockEnable,
    /// Pin mode register of GPIO bank D.
    PinMode,
    /// Output data register of GPIO bank D.
    OutputData,
}

impl Register {
    /// Base address of the peripheral block that holds the register.
    pub open spec fn spec_base(self) -> u32 {
        match self {
            Register::ClockEnable => RCC_BASE,
            Register::PinMode => GPIOD_BASE,
            Register::OutputData => GPIOD_BASE,
        }
    }

    /// Byte offset of the register inside its block.
    pub open spec fn spec_offset(self) -> u32 {
        match self {
            Register::ClockEnable => RCC_AHB1ENR_OFFSET,
            Register::PinMode => GPIO_MODER_OFFSET,
            Register::OutputData => GPIO_ODR_OFFSET,
        }
    }

    /// Base address of the peripheral block that holds the register.
    #[verifier::when_used_as_spec(spec_base)]
    pub fn base(self) -> (r: u32)
        ensures
            r == self.spec_base(),
    {
        match self {
            Register::ClockEnable => RCC_BASE,
            Register::PinMode => GPIOD_BASE,
            Register::OutputData => GPIOD_BASE,
        }
    }

    /// Byte offset of the register inside its block.
    #[verifier::when_used_as_spec(spec_offset)]
    pub fn offset(self) -> (r: u32)
        ensures
            r == self.spec_offset(),
    {
        match self {
            Register::ClockEnable => RCC_AHB1ENR_OFFSET,
            Register::PinMode => GPIO_MODER_OFFSET,
            Register::OutputData => GPIO_ODR_OFFSET,
        }
    }

    /// Physical address of the register: base plus offset, which never
    /// overflows and is word aligned.
    pub fn address(self) -> (r: u32)
        ensures
            r == self.base() + self.offset(),
            r % 4 == 0,
            self == Register::ClockEnable ==> r == 0x4002_3830,
            self == Register::PinMode ==> r == 0x4002_0C00,
            self == Register::OutputData ==> r == 0x4002_0C14,
    {
        self.base() + self.offset()
    }
}

} // verus!
