//! The register values that the board's GPIO, PWM, clock and UART drivers
//! write; the drivers themselves reach the registers.
use crate::interface::gpio::{Dir, Pud};
use vstd::prelude::*;

verus! {

/// The number of GPIO pins whose function the drivers select.
pub const NUM_GPIO_PINS: u32 = 28;

/// Function select code: input.
pub const FSEL_INPUT: u32 = 0b000;

/// Function select code: output.
pub const FSEL_OUTPUT: u32 = 0b001;

/// Function select code: alternate function 0.
pub const FSEL_ALT0: u32 = 0b100;

/// Function select code: alternate function 5.
pub const FSEL_ALT5: u32 = 0b010;

/// `new` is `old` with the three bits at `shift` replaced by `function`.
pub open spec fn sets_field(old: u32, new: u32, shift: u32, function: u32) -> bool {
    &&& (new >> shift) & 7u32 == function
    &&& new & !(7u32 << shift) == old & !(7u32 << shift)
}

/// The function select register (0 for GPFSEL0, 1 for GPFSEL1, 2 for GPFSEL2) and
/// the bit offset of the field of `pin`; pins past the last have none.
pub fn fsel_position(pin: u32) -> (r: Option<(usize, u32)>)
    ensures
        pin < NUM_GPIO_PINS ==> r == Some(((pin / 10) as usize, ((pin % 10) * 3) as u32)),
        pin >= NUM_GPIO_PINS ==> r is None,
{
    if pin < NUM_GPIO_PINS {
        Some(((pin / 10) as usize, (pin % 10) * 3))
    } else {
        None
    }
}

/// `current` with the function select field at `shift` set to `function`.
pub fn with_function(current: u32, shift: u32, function: u32) -> (r: u32)
    requires
        shift <= 29,
        function < 8,
    ensures
        sets_field(current, r, shift, function),
{
    let r = (current & !(7u32 << shift)) | (function << shift);
    assert(sets_field(current, r, shift, function)) by (bit_vector)
        requires
            shift <= 29,
            function < 8,
            r == (current & !(7u32 << shift)) | (function << shift),
    ;
    r
}

/// The function select code of a pin direction.
pub fn direction_function(direction: Dir) -> (r: u32)
    ensures
        r == (match direction {
            Dir::Input => FSEL_INPUT,
            Dir::Output => FSEL_OUTPUT,
        }),
{
    match direction {
        Dir::Input => FSEL_INPUT,
        Dir::Output => FSEL_OUTPUT,
    }
}

/// The GPPUD value of a pull setting.
pub fn pud_value(pud: Pud) -> (r: u32)
    ensures
        r == (match pud {
            Pud::PudOff => 0u32,
            Pud::PudUp => 1u32,
            Pud::PudDown => 2u32,
        }),
{
    match pud {
        Pud::PudOff => 0,
        Pud::PudUp => 1,
        Pud::PudDown => 2,
    }
}

/// The bit of `pin` in the one-bit-per-pin registers (set, clear, level, pull
/// clock).
pub fn pin_bit(pin: u32) -> (r: u32)
    requires
        pin < 32,
    ensures
        r == 1u32 << pin,
{
    1u32 << pin
}

/// The level of `pin` in a GPLEV0 value: 0 or 1.
pub fn pin_level(lev: u32, pin: u32) -> (r: u32)
    requires
        pin < 32,
    ensures
        r == (lev >> pin) & 1u32,
        r <= 1,
{
    let r = (lev >> pin) & 1u32;
    assert(r <= 1) by (bit_vector)
        requires
            r == (lev >> pin) & 1u32,
    ;
    r
}

/// The function that routes `pin` to a PWM channel: alternate function 0 for
/// pins 12 and 13, 5 for pins 18 and 19; other pins have none.
pub fn pwm_pin_function(pin: u32) -> (r: Option<u32>)
    ensures
        r == (if pin == 12 || pin == 13 {
            Some(FSEL_ALT0)
        } else if pin == 18 || pin == 19 {
            Some(FSEL_ALT5)
        } else {
            None::<u32>
        }),
{
    if pin == 12 || pin == 13 {
        Some(FSEL_ALT0)
    } else if pin == 18 || pin == 19 {
        Some(FSEL_ALT5)
    } else {
        None
    }
}

/// The PWM channel that drives `pin`: 1 for pins 12 and 18, 2 for pins 13 and 19,
/// 0 for a pin that no channel drives.
pub fn pwm_channel(pin: u32) -> (r: u32)
    requires
        pin < NUM_GPIO_PINS,
    ensures
        r == (if pin == 12 || pin == 18 {
            1u32
        } else if pin == 13 || pin == 19 {
            2u32
        } else {
            0u32
        }),
{
    let gpio_to_pwm_port: [u32; 28] = [
        0, 0, 0, 0, 0, 0, 0, 0,
        0, 0, 0, 0, 1, 2, 0, 0,
        0, 0, 1, 2, 0, 0, 0, 0,
        0, 0, 0, 0,
    ];
    gpio_to_pwm_port[pin as usize]
}

/// PWM CTL: channel 1 enabled.
pub const CTL_PWEN1: u32 = 1u32 << 0u32;

/// PWM CTL: channel 1 uses mark-space transmission.
pub const CTL_MSEN1: u32 = 1u32 << 7u32;

/// PWM CTL: channel 2 enabled.
pub const CTL_PWEN2: u32 = 1u32 << 8u32;

/// PWM CTL: channel 2 uses mark-space transmission.
pub const CTL_MSEN2: u32 = 1u32 << 15u32;

/// The PWM CTL value for `mode`: both channels enabled, and in mode 0 both in
/// mark-space transmission; other bits are kept.
pub fn pwm_ctl_for_mode(ctl: u32, mode: u32) -> (r: u32)
    ensures
        mode == 0 ==> r == ctl | CTL_PWEN1 | CTL_PWEN2 | CTL_MSEN1 | CTL_MSEN2,
        mode != 0 ==> r == ctl | CTL_PWEN1 | CTL_PWEN2,
{
    if mode == 0 {
        ctl | CTL_PWEN1 | CTL_PWEN2 | CTL_MSEN1 | CTL_MSEN2
    } else {
        ctl | CTL_PWEN1 | CTL_PWEN2
    }
}

/// The password that every write to a clock manager register carries.
pub const CM_PASSWORD: u32 = 0x5A00_0000;

/// Clock manager CTL: source oscillator, generator off.
pub const CM_CTL_SRC_OSC: u32 = 0x01;

/// Clock manager CTL: source oscillator, generator on.
pub const CM_CTL_SRC_OSC_ENABLE: u32 = 0x11;

/// Clock manager CTL: the generator is busy.
pub const CM_CTL_BUSY: u32 = 0x80;

/// The largest integer divisor the clock manager takes: twelve bits.
pub const CM_DIV_MAX: u32 = 0x0FFF;

/// The clock manager CTL word that writes `bits`, which lie below the
/// password byte.
pub fn clock_ctl_word(bits: u32) -> (r: u32)
    requires
        bits < 0x0100_0000,
    ensures
        r == CM_PASSWORD + bits,
{
    assert(0x5A00_0000u32 | bits == 0x5A00_0000u32 + bits) by (bit_vector)
        requires
            bits < 0x0100_0000u32,
    ;
    CM_PASSWORD | bits
}

/// The clock manager DIV word for an integer divisor, cut to its twelve bits.
pub fn clock_div_word(divisor: u32) -> (r: u32)
    ensures
        r == CM_PASSWORD + (divisor % 4096) * 4096,
{
    let d = divisor & CM_DIV_MAX;
    let r = CM_PASSWORD | (d << 12u32);
    assert(r == 0x5A00_0000u32 + (divisor % 4096) * 4096) by (bit_vector)
        requires
            d == divisor & 0x0FFFu32,
            r == 0x5A00_0000u32 | (d << 12u32),
    ;
    r
}

/// Whether a clock manager CTL value shows the generator busy.
pub fn clock_busy(ctl: u32) -> (r: bool)
    ensures
        r == (ctl & CM_CTL_BUSY != 0),
{
    ctl & CM_CTL_BUSY != 0
}

/// UART integer baud divisor: 115200 baud from the 48 MHz UART clock.
pub const UART_IBRD: u32 = 13;

/// UART fractional baud divisor.
pub const UART_FBRD: u32 = 2;

/// UART ICR: clears every interrupt.
pub const UART_ICR_ALL: u32 = 0x7FF;

/// UART LCRH: eight data bits, FIFOs enabled.
pub const UART_LCRH_8BIT_FIFO: u32 = (0b11u32 << 5u32) | (1u32 << 4u32);

/// UART CR: UART, transmitter and receiver enabled.
pub const UART_CR_ENABLE: u32 = 1u32 | (1u32 << 8u32) | (1u32 << 9u32);

/// UART FR: transmit FIFO empty.
pub const UART_FR_TXFE: u32 = 1u32 << 7u32;

/// UART FR: transmit FIFO full.
pub const UART_FR_TXFF: u32 = 1u32 << 5u32;

/// UART FR: receive FIFO empty.
pub const UART_FR_RXFE: u32 = 1u32 << 4u32;

/// The character that the UART hands out for a received data register value:
/// its low byte, with carriage return read as newline.
pub fn uart_received_char(dr: u32) -> (r: char)
    ensures
        (dr % 256) == 13 ==> r == '\n',
        (dr % 256) != 13 ==> r == ((dr % 256) as u8) as char,
{
    let byte = (dr & 0xFF) as u8;
    assert(dr & 0xFF == dr % 256) by (bit_vector);
    if byte == 13 {
        '\n'
    } else {
        byte as char
    }
}

} // verus!
