use led_chaser::leds::{all_leds_off, configure_led_pins, enable_gpiod_clock, leds_off, leds_on};
use led_chaser::registers::{
    Register, ALL_LEDS, DELAY_COUNT, GPIOD_BASE, GPIO_MODER_OFFSET, GPIO_ODR_OFFSET, LED_BLUE,
    LED_COUNT, LED_GREEN, LED_MODE_FIELDS, LED_MODE_HIGH, LED_MODE_OUTPUT, LED_ORANGE, LED_RED,
    MODE_OUTPUT, RCC_AHB1ENR_GPIODEN, RCC_AHB1ENR_OFFSET, RCC_BASE,
};

const MASKS: [u32; 4] = [LED_GREEN, LED_ORANGE, LED_RED, LED_BLUE];

fn pin_mode(moder: u32, pin: u32) -> u32 {
    (moder >> (2 * pin)) & 3
}

#[test]
fn constants_have_the_documented_bits() {
    assert_eq!(RCC_BASE, 0x4002_3800);
    assert_eq!(GPIOD_BASE, 0x4002_0C00);
    assert_eq!(RCC_AHB1ENR_OFFSET, 0x30);
    assert_eq!(GPIO_MODER_OFFSET, 0x00);
    assert_eq!(GPIO_ODR_OFFSET, 0x14);
    assert_eq!(RCC_AHB1ENR_GPIODEN, 1 << 3);
    assert_eq!(LED_GREEN, 1 << 12);
    assert_eq!(LED_ORANGE, 1 << 13);
    assert_eq!(LED_RED, 1 << 14);
    assert_eq!(LED_BLUE, 1 << 15);
    assert_eq!(ALL_LEDS, LED_GREEN | LED_ORANGE | LED_RED | LED_BLUE);
    assert_eq!(LED_MODE_OUTPUT, (1 << 24) | (1 << 26) | (1 << 28) | (1 << 30));
    assert_eq!(LED_MODE_HIGH, (1 << 25) | (1 << 27) | (1 << 29) | (1 << 31));
    assert_eq!(LED_MODE_FIELDS, LED_MODE_OUTPUT | LED_MODE_HIGH);
    assert_eq!(MODE_OUTPUT, 0b01);
    assert_eq!(LED_COUNT, 4);
    assert_eq!(DELAY_COUNT, 1_000_000);
}

#[test]
fn register_addresses_are_base_plus_offset() {
    assert_eq!(Register::ClockEnable.base(), RCC_BASE);
    assert_eq!(Register::ClockEnable.offset(), RCC_AHB1ENR_OFFSET);
    assert_eq!(Register::ClockEnable.address(), 0x4002_3830);
    assert_eq!(Register::PinMode.base(), GPIOD_BASE);
    assert_eq!(Register::PinMode.offset(), GPIO_MODER_OFFSET);
    assert_eq!(Register::PinMode.address(), 0x4002_0C00);
    assert_eq!(Register::OutputData.base(), GPIOD_BASE);
    assert_eq!(Register::OutputData.offset(), GPIO_ODR_OFFSET);
    assert_eq!(Register::OutputData.address(), 0x4002_0C14);
}

#[test]
fn enable_clock_sets_only_the_bank_bit() {
    assert_eq!(enable_gpiod_clock(0), 0x0000_0008);
    assert_eq!(enable_gpiod_clock(0x0010_0000), 0x0010_0008);
    assert_eq!(enable_gpiod_clock(0x0000_0008), 0x0000_0008);
    assert_eq!(enable_gpiod_clock(0xFFFF_FFF7), 0xFFFF_FFFF);
}

#[test]
fn configure_pins_from_reset_gives_output_mode() {
    let moder = configure_led_pins(0);
    assert_eq!(moder, 0x5500_0000);
    for pin in 0..16 {
        let expected = if pin >= 12 { MODE_OUTPUT } else { 0 };
        assert_eq!(pin_mode(moder, pin), expected);
    }
}

#[test]
fn configure_pins_keeps_other_mode_bits() {
    let before: u32 = 0x00A5_93C6;
    let after = configure_led_pins(before);
    assert_eq!(after, 0x55A5_93C6);
    assert_eq!(after & !LED_MODE_FIELDS, before & !LED_MODE_FIELDS);
    for pin in 0..12 {
        assert_eq!(pin_mode(after, pin), pin_mode(before, pin));
    }
    for pin in 12..16 {
        assert_eq!(pin_mode(after, pin), MODE_OUTPUT);
    }
}

#[test]
fn configure_pins_leaves_high_mode_bits_alone() {
    // Pin 12 in alternate-function mode (10) before the call reads 11 after it.
    let after = configure_led_pins(0x0200_0000);
    assert_eq!(after, 0x5700_0000);
    assert_eq!(pin_mode(after, 12), 0b11);
    assert_eq!(pin_mode(after, 13), MODE_OUTPUT);
    assert_eq!(configure_led_pins(0xFFFF_FFFF), 0xFFFF_FFFF);
}

#[test]
fn leds_on_sets_each_led() {
    assert_eq!(leds_on(0, LED_GREEN), 0x1000);
    assert_eq!(leds_on(0, LED_ORANGE), 0x2000);
    assert_eq!(leds_on(0, LED_RED), 0x4000);
    assert_eq!(leds_on(0, LED_BLUE), 0x8000);
    assert_eq!(leds_on(0x1000, LED_RED | LED_BLUE), 0xD000);
    assert_eq!(leds_on(0x0ABC, 0), 0x0ABC);
}

#[test]
fn leds_off_clears_each_led() {
    assert_eq!(leds_off(0xF000, LED_GREEN), 0xE000);
    assert_eq!(leds_off(0xF000, LED_ORANGE), 0xD000);
    assert_eq!(leds_off(0xF000, LED_RED), 0xB000);
    assert_eq!(leds_off(0xF000, LED_BLUE), 0x7000);
    assert_eq!(leds_off(0xFFFF_FFFF, LED_GREEN | LED_BLUE), 0xFFFF_6FFF);
    assert_eq!(leds_off(0x0ABC, 0), 0x0ABC);
}

#[test]
fn on_then_off_restores_the_register() {
    for word in [0u32, 0x0000_0FFF, 0xFFFF_0000, 0x1234_0678, 0xFFFF_0FFF] {
        for mask in MASKS {
            let lit = leds_on(word, mask);
            assert_ne!(lit, word);
            assert_eq!(leds_off(lit, mask), word);
        }
    }
}

#[test]
fn on_then_off_of_a_lit_led_leaves_it_off() {
    let word: u32 = 0x0000_1000;
    let lit = leds_on(word, LED_GREEN);
    assert_eq!(lit, word);
    assert_eq!(leds_off(lit, LED_GREEN), 0);
}

#[test]
fn off_then_on_restores_a_lit_led() {
    for mask in MASKS {
        let word = 0xABCD_F123;
        let dark = leds_off(word, mask);
        assert_ne!(dark, word);
        assert_eq!(leds_on(dark, mask), word);
    }
}

#[test]
fn bits_outside_the_leds_are_never_touched() {
    let words = [0u32, 0xFFFF_FFFF, 0xDEAD_BEEF, 0x0000_F000, 0xFFFF_0FFF, 0x8000_0001];
    let masks = [0u32, 0xFFFF_FFFF, 0x0000_0FFF, 0xFFFF_0000, 0x0001_1001, LED_RED, ALL_LEDS];
    for word in words {
        for mask in masks {
            assert_eq!(leds_on(word, mask) & !ALL_LEDS, word & !ALL_LEDS);
            assert_eq!(leds_off(word, mask) & !ALL_LEDS, word & !ALL_LEDS);
        }
    }
}

#[test]
fn extraneous_mask_bits_are_ignored() {
    assert_eq!(leds_on(0, 0xFFFF_FFFF), 0x0000_F000);
    assert_eq!(leds_on(0x0000_0001, 0x0001_1001), 0x0000_1001);
    assert_eq!(leds_off(0xFFFF_FFFF, 0xFFFF_FFFF), 0xFFFF_0FFF);
    assert_eq!(leds_off(0xFFFF_FFFF, 0x0000_0FFF), 0xFFFF_FFFF);
    assert_eq!(leds_on(0, 0x0000_0FFF), 0);
}

#[test]
fn all_leds_off_is_leds_off_of_every_led() {
    for word in [0u32, 0xFFFF_FFFF, 0x0000_F000, 0x1234_5678, 0x0000_4000] {
        assert_eq!(all_leds_off(word), leds_off(word, ALL_LEDS));
        assert_eq!(all_leds_off(word) & ALL_LEDS, 0);
    }
    assert_eq!(all_leds_off(0xFFFF_FFFF), 0xFFFF_0FFF);
    assert_eq!(all_leds_off(0x1234_5678), 0x1234_0678);
}
