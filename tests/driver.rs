use rpi_kernel::driver::{
    clock_busy, clock_ctl_word, clock_div_word, direction_function, fsel_position, pin_bit,
    pin_level, pud_value, pwm_channel, pwm_ctl_for_mode, pwm_pin_function, uart_received_char,
    with_function, CM_CTL_SRC_OSC, CM_CTL_SRC_OSC_ENABLE, FSEL_ALT0, FSEL_ALT5, FSEL_OUTPUT,
};
use rpi_kernel::interface::gpio::{Dir, Pud};

#[test]
fn function_select_positions() {
    assert_eq!(fsel_position(0), Some((0, 0)));
    assert_eq!(fsel_position(2), Some((0, 6)));
    assert_eq!(fsel_position(17), Some((1, 21)));
    assert_eq!(fsel_position(27), Some((2, 21)));
    assert_eq!(fsel_position(28), None);
}

#[test]
fn function_select_update_keeps_other_fields() {
    assert_eq!(with_function(0xFFFF_FFFF, 21, FSEL_OUTPUT), 0xFF3F_FFFF);
    assert_eq!(with_function(0, 6, FSEL_ALT0), 0b100_000_000);
    assert_eq!(with_function(0x0000_0FFF, 3, 0), 0x0000_0FC7);
    // Pins 14 and 15 to alternate function 0, as the UART mapping does.
    let v = with_function(with_function(0, 12, FSEL_ALT0), 15, FSEL_ALT0);
    assert_eq!(v, (0b100 << 12) | (0b100 << 15));
}

#[test]
fn pin_codes() {
    assert_eq!(direction_function(Dir::Input), 0);
    assert_eq!(direction_function(Dir::Output), 1);
    assert_eq!(pud_value(Pud::PudOff), 0);
    assert_eq!(pud_value(Pud::PudUp), 1);
    assert_eq!(pud_value(Pud::PudDown), 2);
    assert_eq!(pin_bit(0), 1);
    assert_eq!(pin_bit(17), 0x2_0000);
    assert_eq!(pin_bit(31), 0x8000_0000);
    assert_eq!(pin_level(0b100, 2), 1);
    assert_eq!(pin_level(0b100, 1), 0);
    assert_eq!(pin_level(0xFFFF_FFFF, 31), 1);
}

#[test]
fn pwm_routing() {
    assert_eq!(pwm_pin_function(12), Some(FSEL_ALT0));
    assert_eq!(pwm_pin_function(13), Some(FSEL_ALT0));
    assert_eq!(pwm_pin_function(18), Some(FSEL_ALT5));
    assert_eq!(pwm_pin_function(19), Some(FSEL_ALT5));
    assert_eq!(pwm_pin_function(17), None);
    assert_eq!(pwm_channel(12), 1);
    assert_eq!(pwm_channel(18), 1);
    assert_eq!(pwm_channel(13), 2);
    assert_eq!(pwm_channel(19), 2);
    assert_eq!(pwm_channel(0), 0);
    assert_eq!(pwm_channel(27), 0);
    assert_eq!(pwm_ctl_for_mode(0, 0), 0x8181);
    assert_eq!(pwm_ctl_for_mode(0, 1), 0x0101);
    assert_eq!(pwm_ctl_for_mode(0x10, 1), 0x0111);
}

#[test]
fn clock_words() {
    assert_eq!(clock_ctl_word(CM_CTL_SRC_OSC), 0x5A00_0001);
    assert_eq!(clock_ctl_word(CM_CTL_SRC_OSC_ENABLE), 0x5A00_0011);
    assert_eq!(clock_div_word(32), 0x5A02_0000);
    assert_eq!(clock_div_word(0x1020), 0x5A02_0000);
    assert!(clock_busy(0x80));
    assert!(!clock_busy(0x7F));
}

#[test]
fn uart_characters() {
    assert_eq!(uart_received_char(b'a' as u32), 'a');
    assert_eq!(uart_received_char(13), '\n');
    assert_eq!(uart_received_char(0x141), 'A');
}
