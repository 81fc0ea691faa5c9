//! Bit transforms on register words: what each read-modify-write access puts
//! back into the register, as a function of the word it read.

use vstd::prelude::*;
use crate::registers::{
    ALL_LEDS, LED_BLUE, LED_GREEN, LED_MODE_FIELDS, LED_MODE_HIGH, LED_MODE_OUTPUT, LED_ORANGE,
    LED_RED, MODE_OUTPUT, RCC_AHB1ENR_GPIODEN,
};

verus! {

/// Whether bit `index` (0 to 31) of `word` is set.
pub open spec fn bit(word: u32, index: u32) -> bool {
    (word >> index) & 1 == 1
}

/// Whether `pin` (0 to 15) of the bank drives one of the four LEDs.
pub open spec fn is_led_pin(pin: u32) -> bool {
    12 <= pin && pin <= 15
}

/// The two-bit mode field of `pin` (0 to 15) in a pin mode register word.
pub open spec fn pin_mode(moder: u32, pin: u32) -> u32 {
    (moder >> ((2 * pin) as u32)) & 3
}

/// How many of the four LED bits are set in an output data register word.
pub open spec fn lit_count(odr: u32) -> int {
    (if odr & LED_GREEN != 0 { 1int } else { 0int })
    + (if odr & LED_ORANGE != 0 { 1int } else { 0int })
    + (if odr & LED_RED != 0 { 1int } else { 0int })
    + (if odr & LED_BLUE != 0 { 1int } else { 0int })
}

/// The clock enable word with the clock of GPIO bank D switched on.
pub open spec fn spec_enable_gpiod_clock(word: u32) -> u32 {
    word | RCC_AHB1ENR_GPIODEN
}

/// The pin mode word with the low mode bit of each LED pin set.
pub open spec fn spec_configure_led_pins(word: u32) -> u32 {
    word | LED_MODE_OUTPUT
}

/// The output data word with the LED bits of `led_mask` set.
pub open spec fn spec_leds_on(word: u32, led_mask: u32) -> u32 {
    word | (led_mask & ALL_LEDS)
}

/// The output data word with the LED bits of `led_mask` cleared.
pub open spec fn spec_leds_off(word: u32, led_mask: u32) -> u32 {
    word & !(led_mask & ALL_LEDS)
}

/// The output data word with all four LED bits cleared.
pub open spec fn spec_all_leds_off(word: u32) -> u32 {
    spec_leds_off(word, ALL_LEDS)
}

proof fn lemma_set_bit(word: u32, bits: u32, index: u32)
    by (bit_vector)
    requires
        index < 32,
    ensures
        (((word | bits) >> index) & 1 == 1) == ((word >> index) & 1 == 1 || (bits >> index) & 1
            == 1),
{
}

proof fn lemma_clear_bit(word: u32, bits: u32, index: u32)
    by (bit_vector)
    requires
        index < 32,
    ensures
        (((word & !bits) >> index) & 1 == 1) == ((word >> index) & 1 == 1 && !((bits >> index) & 1
            == 1)),
{
}

proof fn lemma_led_bits(mask: u32, index: u32)
    by (bit_vector)
    requires
        index < 32,
    ensures
        (((mask & 0xF000u32) >> index) & 1 == 1) == (12 <= index && index <= 15 && (mask >> index)
            & 1 == 1),
{
}

proof fn lemma_mode_field(moder: u32, pin: u32)
    by (bit_vector)
    requires
        pin < 16,
    ensures
        !(12 <= pin && pin <= 15) ==> ((moder | 0x5500_0000u32) >> ((2 * pin) as u32)) & 3 == (
        moder >> ((2 * pin) as u32)) & 3,
        12 <= pin && pin <= 15 && moder & 0xAA00_0000u32 == 0 ==> ((moder | 0x5500_0000u32) >> ((2
            * pin) as u32)) & 3 == 1,
        12 <= pin && pin <= 15 ==> ((moder | 0x5500_0000u32) >> ((2 * pin) as u32)) & 3 == ((moder
            >> ((2 * pin) as u32)) & 3) | 1,
{
}

/// New word of the clock enable register: the clock of GPIO bank D switched
/// on, every other bit as it was.
#[verifier::when_used_as_spec(spec_enable_gpiod_clock)]
pub fn enable_gpiod_clock(word: u32) -> (r: u32)
    ensures
        r == spec_enable_gpiod_clock(word),
        r & RCC_AHB1ENR_GPIODEN == RCC_AHB1ENR_GPIODEN,
        r & !RCC_AHB1ENR_GPIODEN == word & !RCC_AHB1ENR_GPIODEN,
        forall|i: u32| i < 32 ==> #[trigger] bit(r, i) == (bit(word, i) || i == 3),
{
    let r: u32 = word | RCC_AHB1ENR_GPIODEN;
    proof {
        assert(r & 0x8u32 == 0x8u32 && r & !0x8u32 == word & !0x8u32) by (bit_vector)
            requires
                r == word | 0x8u32,
        ;
        assert forall|i: u32| i < 32 implies #[trigger] bit(r, i) == (bit(word, i) || i == 3) by {
            lemma_set_bit(word, 0x8u32, i);
            assert(((0x8u32 >> i) & 1 == 1) == (i == 3)) by (bit_vector)
                requires
                    i < 32,
            ;
        }
    }
    r
}

/// New word of the pin mode register: the low bit of the mode field of each
/// LED pin set, every other bit as it was.
///
/// The high bit of each field is left alone, so a field reads "output" after
/// the call exactly when its high bit was clear before, as it is after reset.
#[verifier::when_used_as_spec(spec_configure_led_pins)]
pub fn configure_led_pins(word: u32) -> (r: u32)
    ensures
        r == spec_configure_led_pins(word),
        r & !LED_MODE_FIELDS == word & !LED_MODE_FIELDS,
        r & LED_MODE_HIGH == word & LED_MODE_HIGH,
        r & LED_MODE_FIELDS == LED_MODE_OUTPUT <==> word & LED_MODE_HIGH == 0,
        forall|pin: u32| pin < 16 && !is_led_pin(pin) ==> #[trigger] pin_mode(r, pin) == pin_mode(
            word, pin),
        forall|pin: u32| is_led_pin(pin) ==> #[trigger] pin_mode(r, pin) == pin_mode(word, pin) | 1,
        word & LED_MODE_HIGH == 0 ==> forall|pin: u32| is_led_pin(pin) ==> #[trigger] pin_mode(
            r, pin) == MODE_OUTPUT,
{
    let r: u32 = word | LED_MODE_OUTPUT;
    proof {
        assert(r & !0xFF00_0000u32 == word & !0xFF00_0000u32 && r & 0xAA00_0000u32 == word
            & 0xAA00_0000u32 && (word & 0xAA00_0000u32 == 0 <==> r & 0xFF00_0000u32
            == 0x5500_0000u32)) by (bit_vector)
            requires
                r == word | 0x5500_0000u32,
        ;
        assert forall|pin: u32| pin < 16 implies (!is_led_pin(pin) ==> #[trigger] pin_mode(r, pin)
            == pin_mode(word, pin)) && (is_led_pin(pin) ==> pin_mode(r, pin) == pin_mode(word, pin)
            | 1) && (is_led_pin(pin) && word & LED_MODE_HIGH == 0 ==> pin_mode(r, pin)
            == MODE_OUTPUT) by {
            lemma_mode_field(word, pin);
        }
    }
    r
}

/// New word of the output data register with LEDs switched on: the bits of
/// `led_mask` that are LED bits are set, every other bit is as it was. Bits of
/// `led_mask` outside the four LED bits are ignored.
#[verifier::when_used_as_spec(spec_leds_on)]
pub fn leds_on(word: u32, led_mask: u32) -> (r: u32)
    ensures
        r == spec_leds_on(word, led_mask),
        r & !ALL_LEDS == word & !ALL_LEDS,
        r & ALL_LEDS == (word | led_mask) & ALL_LEDS,
        forall|i: u32|
            i < 32 ==> #[trigger] bit(r, i) == (bit(word, i) || (is_led_pin(i) && bit(led_mask, i))),
{
    let r: u32 = word | (led_mask & ALL_LEDS);
    proof {
        assert(r & !0xF000u32 == word & !0xF000u32 && r & 0xF000u32 == (word | led_mask)
            & 0xF000u32) by (bit_vector)
            requires
                r == word | (led_mask & 0xF000u32),
        ;
        assert forall|i: u32| i < 32 implies #[trigger] bit(r, i) == (bit(word, i) || (is_led_pin(i)
            && bit(led_mask, i))) by {
            lemma_set_bit(word, led_mask & 0xF000u32, i);
            lemma_led_bits(led_mask, i);
        }
    }
    r
}

/// New word of the output data register with LEDs switched off: the bits of
/// `led_mask` that are LED bits are cleared, every other bit is as it was.
/// Bits of `led_mask` outside the four LED bits are ignored.
#[verifier::when_used_as_spec(spec_leds_off)]
pub fn leds_off(word: u32, led_mask: u32) -> (r: u32)
    ensures
        r == spec_leds_off(word, led_mask),
        r & !ALL_LEDS == word & !ALL_LEDS,
        r & ALL_LEDS == word & !led_mask & ALL_LEDS,
        forall|i: u32|
            i < 32 ==> #[trigger] bit(r, i) == (bit(word, i) && !(is_led_pin(i) && bit(led_mask, i))),
{
    let r: u32 = word & !(led_mask & ALL_LEDS);
    proof {
        assert(r & !0xF000u32 == word & !0xF000u32 && r & 0xF000u32 == word & !led_mask
            & 0xF000u32) by (bit_vector)
            requires
                r == word & !(led_mask & 0xF000u32),
        ;
        assert forall|i: u32| i < 32 implies #[trigger] bit(r, i) == (bit(word, i) && !(is_led_pin(
            i,
        ) && bit(led_mask, i))) by {
            lemma_clear_bit(word, led_mask & 0xF000u32, i);
            lemma_led_bits(led_mask, i);
        }
    }
    r
}

/// New word of the output data register with all four LEDs switched off:
/// `leds_off` with every LED bit in the mask.
#[verifier::when_used_as_spec(spec_all_leds_off)]
pub fn all_leds_off(word: u32) -> (r: u32)
    ensures
        r == spec_all_leds_off(word),
        r == leds_off(word, ALL_LEDS),
        r == word & !ALL_LEDS,
        r & ALL_LEDS == 0,
        r & !ALL_LEDS == word & !ALL_LEDS,
        lit_count(r) == 0,
        forall|i: u32| i < 32 ==> #[trigger] bit(r, i) == (bit(word, i) && !is_led_pin(i)),
{
    let r: u32 = leds_off(word, ALL_LEDS);
    proof {
        assert(r == word & !0xF000u32 && r & 0xF000u32 == 0 && r & 0x1000u32 == 0 && r & 0x2000u32
            == 0 && r & 0x4000u32 == 0 && r & 0x8000u32 == 0) by (bit_vector)
            requires
                r == word & !(0xF000u32 & 0xF000u32),
        ;
        assert forall|i: u32| i < 32 implies #[trigger] bit(r, i) == (bit(word, i) && !is_led_pin(
            i,
        )) by {
            assert(((0xF000u32 >> i) & 1 == 1) == (12 <= i && i <= 15)) by (bit_vector)
                requires
                    i < 32,
            ;
        }
    }
    r
}

/// Switching LEDs on and then off again with the same mask gives back the
/// word from before exactly when none of the mask's LEDs was lit in it.
pub proof fn law_on_then_off_restores(word: u32, led_mask: u32)
    ensures
        leds_off(leds_on(word, led_mask), led_mask) == word <==> word & led_mask & ALL_LEDS == 0,
{
    assert(((word | (led_mask & 0xF000u32)) & !(led_mask & 0xF000u32) == word) <==> (word & led_mask
        & 0xF000u32 == 0)) by (bit_vector);
}

/// Switching LEDs off and then on again with the same mask gives back the
/// word from before exactly when all of the mask's LEDs were lit in it.
pub proof fn law_off_then_on_restores(word: u32, led_mask: u32)
    ensures
        leds_on(leds_off(word, led_mask), led_mask) == word <==> word & led_mask & ALL_LEDS
            == led_mask & ALL_LEDS,
{
    assert(((word & !(led_mask & 0xF000u32)) | (led_mask & 0xF000u32) == word) <==> (word & led_mask
        & 0xF000u32 == led_mask & 0xF000u32)) by (bit_vector);
}

/// Exactly one LED is lit in a word exactly when its LED bits are those of
/// one of the four LED masks.
pub proof fn law_one_lit_is_one_mask(odr: u32)
    ensures
        lit_count(odr) == 1 <==> (odr & ALL_LEDS == LED_GREEN || odr & ALL_LEDS == LED_ORANGE || odr
            & ALL_LEDS == LED_RED || odr & ALL_LEDS == LED_BLUE),
        lit_count(odr) == 0 <==> odr & ALL_LEDS == 0,
{
    let g = odr & 0x1000u32;
    let o = odr & 0x2000u32;
    let r = odr & 0x4000u32;
    let b = odr & 0x8000u32;
    let all = odr & 0xF000u32;
    assert(all == g | o | r | b && (g == 0 || g == 0x1000u32) && (o == 0 || o == 0x2000u32) && (r
        == 0 || r == 0x4000u32) && (b == 0 || b == 0x8000u32)) by (bit_vector)
        requires
            g == odr & 0x1000u32,
            o == odr & 0x2000u32,
            r == odr & 0x4000u32,
            b == odr & 0x8000u32,
            all == odr & 0xF000u32,
    ;
    assert((g == 0 || g == 0x1000u32) && (o == 0 || o == 0x2000u32) && (r == 0 || r == 0x4000u32)
        && (b == 0 || b == 0x8000u32) ==> ((g | o | r | b == 0x1000u32) <==> (g == 0x1000u32 && o
        == 0 && r == 0 && b == 0)) && ((g | o | r | b == 0x2000u32) <==> (g == 0 && o == 0x2000u32
        && r == 0 && b == 0)) && ((g | o | r | b == 0x4000u32) <==> (g == 0 && o == 0 && r
        == 0x4000u32 && b == 0)) && ((g | o | r | b == 0x8000u32) <==> (g == 0 && o == 0 && r == 0
        && b == 0x8000u32)) && ((g | o | r | b == 0) <==> (g == 0 && o == 0 && r == 0 && b == 0)))
        by (bit_vector);
}

} // verus!
