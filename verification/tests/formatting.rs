use lib::text::{format_div_zero_message, format_index_message, push_decimal, push_signed_decimal};

#[test]
fn index_messages() {
    assert_eq!(format_index_message(0, 0), b"length is 0, but index is 0".to_vec());
    assert_eq!(format_index_message(10, 10), b"length is 10, but index is 10".to_vec());
    assert_eq!(
        format_index_message(3, i32::MIN),
        b"length is 3, but index is -2147483648".to_vec()
    );
}

#[test]
fn div_zero_message() {
    assert_eq!(format_div_zero_message(), b"divide by zero".to_vec());
}

#[test]
fn decimals() {
    let mut b = Vec::new();
    push_decimal(&mut b, 0);
    push_decimal(&mut b, 1234567890123);
    push_signed_decimal(&mut b, -9);
    assert_eq!(b, b"01234567890123-9".to_vec());
}
