use rjvm::buffer::{decoded_or_error, Buffer, BufferError};

#[test]
fn numbers_are_big_endian() {
    let data = [
        0x01, 0x02, 0x03, 0x04, 0x05, 0x06, 0x07, 0x08, 0x09, 0x0A, 0x0B, 0x0C, 0x0D, 0x0E, 0x0F,
    ];
    let mut buffer = Buffer::new(&data);
    assert_eq!(0, buffer.position());
    assert_eq!(Ok(0x01), buffer.read_u8());
    assert_eq!(1, buffer.position());
    assert_eq!(Ok(0x0203), buffer.read_u16());
    assert_eq!(3, buffer.position());
    assert_eq!(Ok(0x04050607), buffer.read_u32());
    assert_eq!(7, buffer.position());
    assert_eq!(Ok(0x08090A0B0C0D0E0F), buffer.read_u64());
    assert_eq!(15, buffer.position());
    assert_eq!(Err(BufferError::UnexpectedEndOfData), buffer.read_u8());
    assert_eq!(15, buffer.position());
}

#[test]
fn signed_numbers_are_twos_complement() {
    let data = [
        0xFF, 0xFF, 0xFF, 0xFE, 0x80, 0x00, 0x00, 0x00, 0x7F, 0xFF, 0xFF, 0xFF, 0x00, 0x00, 0x00,
        0x2A,
    ];
    let mut buffer = Buffer::new(&data);
    assert_eq!(Ok(-2), buffer.read_i32());
    assert_eq!(Ok(i32::MIN), buffer.read_i32());
    assert_eq!(Ok(i32::MAX), buffer.read_i32());
    assert_eq!(Ok(42), buffer.read_i32());

    let mut buffer = Buffer::new(&data);
    assert_eq!(Ok(-0x1_8000_0000), buffer.read_i64());
    assert_eq!(Ok(0x7FFF_FFFF_0000_002A), buffer.read_i64());

    let least = [0x80, 0, 0, 0, 0, 0, 0, 0];
    assert_eq!(Ok(i64::MIN), Buffer::new(&least).read_i64());
    let minus_one = [0xFF; 8];
    assert_eq!(Ok(-1), Buffer::new(&minus_one).read_i64());
}

#[test]
fn floats_are_read_as_their_bits() {
    let mut data = Vec::new();
    data.extend_from_slice(&2.1f32.to_be_bytes());
    data.extend_from_slice(&3.56f64.to_be_bytes());
    let mut buffer = Buffer::new(&data);
    assert_eq!(Ok(2.1f32.to_bits()), buffer.read_float_bits());
    assert_eq!(Ok(3.56f64.to_bits()), buffer.read_double_bits());
    assert_eq!(Err(BufferError::UnexpectedEndOfData), buffer.read_float_bits());
}

#[test]
fn a_failed_read_leaves_the_cursor_where_it_was() {
    let data = [1, 2, 3];
    let mut buffer = Buffer::new(&data);
    assert_eq!(Err(BufferError::UnexpectedEndOfData), buffer.read_u32());
    assert_eq!(Err(BufferError::UnexpectedEndOfData), buffer.read_i32());
    assert_eq!(Err(BufferError::UnexpectedEndOfData), buffer.read_u64());
    assert_eq!(Err(BufferError::UnexpectedEndOfData), buffer.read_i64());
    assert_eq!(Err(BufferError::UnexpectedEndOfData), buffer.read_bytes(4));
    assert_eq!(Err(BufferError::UnexpectedEndOfData), buffer.read_utf8(4));
    assert_eq!(
        Err(BufferError::UnexpectedEndOfData),
        buffer.read_bytes(usize::MAX)
    );
    assert_eq!(0, buffer.position());
    assert_eq!(Ok(0x0102), buffer.read_u16());
    assert_eq!(Err(BufferError::UnexpectedEndOfData), buffer.read_u16());
    assert_eq!(2, buffer.position());
    assert_eq!(Ok(3), buffer.read_u8());
}

#[test]
fn bytes_are_read_as_they_are() {
    let data = [9, 8, 7, 6, 5];
    let mut buffer = Buffer::new(&data);
    assert_eq!(Ok(&[][..]), buffer.read_bytes(0));
    assert_eq!(Ok(&[9u8, 8][..]), buffer.read_bytes(2));
    assert_eq!(Ok(&[7u8, 6, 5][..]), buffer.read_bytes(3));
    assert_eq!(Ok(&[][..]), buffer.read_bytes(0));
    assert_eq!(Err(BufferError::UnexpectedEndOfData), buffer.read_bytes(1));
    assert_eq!(5, buffer.position());
}

#[test]
fn text_is_decoded_from_modified_utf8() {
    // The zero character in two bytes becomes one character.
    let data = [0x61, 0xC0, 0x80, 0x62, 0x63];
    let mut buffer = Buffer::new(&data);
    assert_eq!(Ok("a\0b".to_string()), buffer.read_utf8(4));
    assert_eq!(4, buffer.position());
    assert_eq!(Ok("c".to_string()), buffer.read_utf8(1));
    assert_eq!(Ok(String::new()), buffer.read_utf8(0));

    // A surrogate pair in six bytes becomes one character.
    let data = [0xED, 0xA0, 0x81, 0xED, 0xB0, 0x81];
    assert_eq!(
        Ok("\u{10401}".to_string()),
        Buffer::new(&data).read_utf8(6)
    );
    let text = "aé日";
    assert_eq!(
        Ok(text.to_string()),
        Buffer::new(text.as_bytes()).read_utf8(text.len())
    );
}

#[test]
fn invalid_text_counts_as_read() {
    let data = [0xED, 0xA0, 0x81, 0x41];
    let mut buffer = Buffer::new(&data);
    assert_eq!(Err(BufferError::InvalidCesu8String), buffer.read_utf8(3));
    assert_eq!(3, buffer.position());
    assert_eq!(Ok("A".to_string()), buffer.read_utf8(1));
}

#[test]
fn decoded_text_or_the_error_for_the_encoding() {
    assert_eq!(Ok("x".to_string()), decoded_or_error(Some("x".to_string())));
    assert_eq!(Err(BufferError::InvalidCesu8String), decoded_or_error(None));
}
