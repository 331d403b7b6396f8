use rpi_kernel::text::{push_dec, push_hex, push_padded_left, push_padded_right};

#[test]
fn hex_digits() {
    let mut s = String::from("x");
    push_hex(&mut s, 0);
    assert_eq!(s, "x0");
    let mut s = String::new();
    push_hex(&mut s, 0xdead_beef);
    assert_eq!(s, "deadbeef");
    let mut s = String::new();
    push_hex(&mut s, u64::MAX);
    assert_eq!(s, "ffffffffffffffff");
}

#[test]
fn decimal_digits() {
    let mut s = String::new();
    push_dec(&mut s, 0);
    assert_eq!(s, "0");
    let mut s = String::new();
    push_dec(&mut s, 1_048_576);
    assert_eq!(s, "1048576");
}

#[test]
fn padding() {
    let mut s = String::new();
    push_padded_left(&mut s, "7", 3, ' ');
    assert_eq!(s, "  7");
    let mut s = String::new();
    push_padded_left(&mut s, "1234", 3, ' ');
    assert_eq!(s, "1234");
    let mut s = String::new();
    push_padded_right(&mut s, "C", 3, '.');
    assert_eq!(s, "C..");
}
