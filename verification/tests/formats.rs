use smali_disassembler::errors::DecodeError;
use smali_disassembler::reader::DexInstructionFormatReader;

#[test]
fn read_byte_returns_the_value_and_its_offset() {
    let stream = [0xABu8, 0xCD];
    let mut reader = DexInstructionFormatReader::new(&stream);
    assert_eq!(reader.read_byte(), Ok((0xAB, 0)));
    assert_eq!(reader.read_byte(), Ok((0xCD, 1)));
    assert_eq!(reader.read_byte(), Err(DecodeError::UnexpectedEndOfStream));
}

#[test]
fn r_12x_splits_the_nibbles_low_first() {
    let stream = [0x21u8];
    let mut reader = DexInstructionFormatReader::new(&stream);
    assert_eq!(reader.r_12x(), Ok((1, 2)));
}

#[test]
fn r_11n_sign_extends_the_high_nibble() {
    let stream = [0xF1u8];
    let mut reader = DexInstructionFormatReader::new(&stream);
    assert_eq!(reader.r_11n(), Ok((1, -1)));

    let stream = [0x71u8];
    let mut reader = DexInstructionFormatReader::new(&stream);
    assert_eq!(reader.r_11n(), Ok((1, 7)));
}

#[test]
fn r_11x_reads_one_plain_register() {
    let stream = [0xFFu8];
    let mut reader = DexInstructionFormatReader::new(&stream);
    assert_eq!(reader.r_11x(), Ok(0xFF));
}

#[test]
fn r_10t_reads_a_signed_byte() {
    let stream = [0x80u8];
    let mut reader = DexInstructionFormatReader::new(&stream);
    assert_eq!(reader.r_10t(), Ok(-128));
}

#[test]
fn r_20t_skips_the_filler_byte() {
    let stream = [0xAAu8, 0x01, 0x00];
    let mut reader = DexInstructionFormatReader::new(&stream);
    assert_eq!(reader.r_20t(), Ok(0x0100));
}

#[test]
fn r_22x_reads_register_then_16_bit_unit() {
    let stream = [0x05u8, 0x12, 0x34];
    let mut reader = DexInstructionFormatReader::new(&stream);
    assert_eq!(reader.r_22x(), Ok((5, 0x1234)));
}

#[test]
fn r_21s_reads_a_signed_16_bit_literal() {
    let stream = [0x01u8, 0xFF, 0xFF];
    let mut reader = DexInstructionFormatReader::new(&stream);
    assert_eq!(reader.r_21s(), Ok((1, -1)));
}

#[test]
fn r_21t_and_r_21h_share_the_signed_layout() {
    let stream = [0x02u8, 0x80, 0x00];
    let mut reader = DexInstructionFormatReader::new(&stream);
    assert_eq!(reader.r_21t(), Ok((2, -32768)));

    let stream = [0x02u8, 0x7F, 0xFF];
    let mut reader = DexInstructionFormatReader::new(&stream);
    assert_eq!(reader.r_21h(), Ok((2, 32767)));
}

#[test]
fn r_21c_reads_an_unsigned_pool_index() {
    let stream = [0x03u8, 0xFF, 0xFE];
    let mut reader = DexInstructionFormatReader::new(&stream);
    assert_eq!(reader.r_21c(), Ok((3, 0xFFFE)));
}

#[test]
fn r_23x_reads_three_registers() {
    let stream = [0x01u8, 0x02, 0x03];
    let mut reader = DexInstructionFormatReader::new(&stream);
    assert_eq!(reader.r_23x(), Ok((1, 2, 3)));
}

#[test]
fn r_22b_sign_extends_its_literal_byte() {
    let stream = [0x01u8, 0x02, 0xFF];
    let mut reader = DexInstructionFormatReader::new(&stream);
    assert_eq!(reader.r_22b(), Ok((1, 2, -1)));
}

#[test]
fn r_22t_packs_registers_and_reads_a_delta() {
    let stream = [0x21u8, 0x00, 0x05];
    let mut reader = DexInstructionFormatReader::new(&stream);
    assert_eq!(reader.r_22t(), Ok((1, 2, 5)));
}

#[test]
fn r_22s_reads_a_signed_literal() {
    let stream = [0x21u8, 0xFF, 0xFE];
    let mut reader = DexInstructionFormatReader::new(&stream);
    assert_eq!(reader.r_22s(), Ok((1, 2, -2)));
}

#[test]
fn r_22c_reads_an_unsigned_index() {
    let stream = [0x21u8, 0xFF, 0xFE];
    let mut reader = DexInstructionFormatReader::new(&stream);
    assert_eq!(reader.r_22c(), Ok((1, 2, 0xFFFE)));
}

#[test]
fn r_30t_skips_the_filler_and_reads_32_bits() {
    let stream = [0xAAu8, 0x00, 0x00, 0x00, 0x05];
    let mut reader = DexInstructionFormatReader::new(&stream);
    assert_eq!(reader.r_30t(), Ok(5));
}

#[test]
fn r_32x_reads_two_16_bit_registers() {
    let stream = [0xAAu8, 0x00, 0x01, 0x00, 0x02];
    let mut reader = DexInstructionFormatReader::new(&stream);
    assert_eq!(reader.r_32x(), Ok((1, 2)));
}

#[test]
fn r_31i_reads_a_signed_32_bit_literal() {
    let stream = [0x01u8, 0xFF, 0xFF, 0xFF, 0xFF];
    let mut reader = DexInstructionFormatReader::new(&stream);
    assert_eq!(reader.r_31i(), Ok((1, -1)));
}

#[test]
fn r_31t_reads_a_signed_payload_offset() {
    let stream = [0x01u8, 0x00, 0x00, 0x01, 0x00];
    let mut reader = DexInstructionFormatReader::new(&stream);
    assert_eq!(reader.r_31t(), Ok((1, 0x100)));
}

#[test]
fn r_31c_reads_an_unsigned_jumbo_index() {
    let stream = [0x01u8, 0x12, 0x34, 0x56, 0x78];
    let mut reader = DexInstructionFormatReader::new(&stream);
    assert_eq!(reader.r_31c(), Ok((1, 0x12345678)));
}

#[test]
fn r_35c_reconstructs_registers_in_order_then_truncates() {
    // count=3, G=7, index 0x0042, C=1, D=2, E=3, F=4.
    let stream = [0x37u8, 0x00, 0x42, 0x21, 0x43];
    let mut reader = DexInstructionFormatReader::new(&stream);
    assert_eq!(reader.r_35c(), Ok((vec![1, 2, 3], 0x0042)));
}

#[test]
fn r_35c_with_count_five_keeps_all_registers() {
    // count=5, G=7: list is [C, D, E, F, G].
    let stream = [0x57u8, 0x00, 0x42, 0x21, 0x43];
    let mut reader = DexInstructionFormatReader::new(&stream);
    assert_eq!(reader.r_35c(), Ok((vec![1, 2, 3, 4, 7], 0x0042)));
}

#[test]
fn r_35c_with_count_zero_yields_no_registers() {
    let stream = [0x07u8, 0x00, 0x42, 0x21, 0x43];
    let mut reader = DexInstructionFormatReader::new(&stream);
    assert_eq!(reader.r_35c(), Ok((vec![], 0x0042)));
}

#[test]
fn r_3rc_reads_count_index_and_first_register() {
    let stream = [0x05u8, 0x00, 0x10, 0x00, 0x20];
    let mut reader = DexInstructionFormatReader::new(&stream);
    assert_eq!(reader.r_3rc(), Ok((5, 0x10, 0x20)));
}

#[test]
fn r_45cc_adds_a_trailing_prototype_index() {
    let stream = [0x37u8, 0x00, 0x42, 0x21, 0x43, 0x01, 0x02];
    let mut reader = DexInstructionFormatReader::new(&stream);
    assert_eq!(reader.r_45cc(), Ok((vec![1, 2, 3], 0x0042, 0x0102)));
}

#[test]
fn r_4rcc_reads_four_fields() {
    let stream = [0x05u8, 0x00, 0x10, 0x00, 0x20, 0x00, 0x30];
    let mut reader = DexInstructionFormatReader::new(&stream);
    assert_eq!(reader.r_4rcc(), Ok((5, 0x10, 0x20, 0x30)));
}

#[test]
fn r_51_assembles_a_64_bit_unit() {
    let stream = [0x01u8, 0x01, 0x02, 0x03, 0x04, 0x05, 0x06, 0x07, 0x08];
    let mut reader = DexInstructionFormatReader::new(&stream);
    assert_eq!(reader.r_51(), Ok((1, 0x0102030405060708)));
}

#[test]
fn a_failed_read_leaves_the_cursor_where_it_was() {
    // Two bytes are not enough for r_22x (three); the following r_12x
    // must still see the first byte.
    let stream = [0x21u8, 0x05];
    let mut reader = DexInstructionFormatReader::new(&stream);
    assert_eq!(reader.r_22x(), Err(DecodeError::UnexpectedEndOfStream));
    assert_eq!(reader.r_12x(), Ok((1, 2)));
}

#[test]
fn short_buffers_fail_with_end_of_stream() {
    let stream = [0x01u8, 0x02];
    let mut reader = DexInstructionFormatReader::new(&stream);
    assert_eq!(reader.r_31i(), Err(DecodeError::UnexpectedEndOfStream));
    assert_eq!(reader.r_35c(), Err(DecodeError::UnexpectedEndOfStream));
    assert_eq!(reader.r_45cc(), Err(DecodeError::UnexpectedEndOfStream));
    assert_eq!(reader.r_51(), Err(DecodeError::UnexpectedEndOfStream));
    let stream: [u8; 0] = [];
    let mut reader = DexInstructionFormatReader::new(&stream);
    assert_eq!(reader.r_12x(), Err(DecodeError::UnexpectedEndOfStream));
    assert_eq!(reader.r_11x(), Err(DecodeError::UnexpectedEndOfStream));
}
