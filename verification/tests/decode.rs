use smali_disassembler::opcodes::{
    DalvikBytecode, IfKind, InvokeKind, MoveKind, ReturnKind,
};
use smali_disassembler::errors::DecodeError;
use smali_disassembler::reader::DexInstructionFormatReader;
use smali_disassembler::{DalvikInstruction, SmaliDecoder};

#[test]
fn nop_run_yields_one_instruction_per_byte() {
    let stream = [0u8, 0u8, 0u8];
    let decoder = SmaliDecoder::new(&stream);
    let result = decoder.decode_all();
    assert_eq!(result.len(), 3);
    for (k, inst) in result.iter().enumerate() {
        assert_eq!(inst.offset, k);
        assert_eq!(inst.inst, DalvikBytecode::Nop);
    }
}

#[test]
fn return_void_run_yields_one_instruction_per_byte() {
    let stream = [0x0eu8, 0x0eu8];
    let decoder = SmaliDecoder::new(&stream);
    let result = decoder.decode_all();
    assert_eq!(result.len(), 2);
    assert_eq!(result[0].offset, 0);
    assert_eq!(result[1].offset, 1);
    assert_eq!(result[0].inst, DalvikBytecode::Return(ReturnKind::ReturnVoid, 0));
    assert_eq!(result[1].inst, DalvikBytecode::Return(ReturnKind::ReturnVoid, 0));
}

#[test]
fn empty_stream_decodes_to_nothing() {
    let stream: [u8; 0] = [];
    let decoder = SmaliDecoder::new(&stream);
    assert!(decoder.decode_all().is_empty());
}

#[test]
fn offsets_strictly_increase_and_stay_in_bounds() {
    // nop; const/4 v1, -1; const/16 v1, 0x1234 -- sizes 1, 2, 4.
    let stream = [0x00u8, 0x12, 0xF1, 0x13, 0x01, 0x12, 0x34];
    let decoder = SmaliDecoder::new(&stream);
    let result = decoder.decode_all();
    assert_eq!(result.len(), 3);
    let offsets: Vec<usize> = result.iter().map(|i| i.offset).collect();
    assert_eq!(offsets, vec![0, 1, 3]);
    for w in offsets.windows(2) {
        assert!(w[0] < w[1]);
    }
    // The last instruction (4 bytes at offset 3) ends exactly at the
    // buffer's length.
    assert_eq!(offsets[2] + 4, stream.len());
}

#[test]
fn packed_register_pair_decodes_low_nibble_first() {
    // move v1, v2: opcode 0x01, then byte 0x21 (low nibble 1, high 2).
    let stream = [0x01u8, 0x21];
    let decoder = SmaliDecoder::new(&stream);
    let result = decoder.decode_all();
    assert_eq!(result.len(), 1);
    assert_eq!(result[0].inst, DalvikBytecode::Move(MoveKind::Move, 1, 2));
}

#[test]
fn const4_sign_extends_from_bit_three() {
    // const/4 v1, 0xF: the literal nibble 0xF means -1, not 15.
    let stream = [0x12u8, 0xF1];
    let decoder = SmaliDecoder::new(&stream);
    let result = decoder.decode_all();
    assert_eq!(result.len(), 1);
    assert_eq!(result[0].inst, DalvikBytecode::Const4(1, -1));
}

#[test]
fn call_site_register_list_truncates_to_count() {
    // invoke-virtual with count=3, G=7, pool index 0x002A, C=1, D=2,
    // E=3, F=4: the list must be [C, D, E] = [1, 2, 3].
    let stream = [0x6eu8, 0x37, 0x00, 0x2A, 0x21, 0x43];
    let decoder = SmaliDecoder::new(&stream);
    let result = decoder.decode_all();
    assert_eq!(result.len(), 1);
    assert_eq!(
        result[0].inst,
        DalvikBytecode::Invoke(InvokeKind::Virtual, vec![1, 2, 3], 0x002A)
    );
}

#[test]
fn unrecognized_opcode_stops_the_decode() {
    // 0x3e matches no instruction; nothing decodes, nothing crashes.
    let stream = [0x3eu8];
    let decoder = SmaliDecoder::new(&stream);
    assert!(decoder.decode_all().is_empty());
}

#[test]
fn unrecognized_opcode_keeps_the_prefix() {
    let stream = [0x00u8, 0x3e, 0x00];
    let decoder = SmaliDecoder::new(&stream);
    let result = decoder.decode_all();
    assert_eq!(result.len(), 1);
    assert_eq!(result[0].offset, 0);
    assert_eq!(result[0].inst, DalvikBytecode::Nop);
}

#[test]
fn return_void_is_a_terminator_and_a_conditional_branch_is_not() {
    let stream = [0x0eu8];
    let decoder = SmaliDecoder::new(&stream);
    let result = decoder.decode_all();
    assert!(result[0].inst.is_basic_block_terminator());

    // if-eq v1, v2, +5
    let stream = [0x32u8, 0x21, 0x00, 0x05];
    let decoder = SmaliDecoder::new(&stream);
    let result = decoder.decode_all();
    assert_eq!(result[0].inst, DalvikBytecode::IfTest(IfKind::Eq, 1, 2, 5));
    assert!(!result[0].inst.is_basic_block_terminator());
}

#[test]
fn truncated_stream_stops_without_a_malformed_instruction() {
    // const/16 needs three more bytes; only one follows.
    let stream = [0x13u8, 0x01];
    let decoder = SmaliDecoder::new(&stream);
    assert!(decoder.decode_all().is_empty());

    let stream = [0x00u8, 0x13, 0x01];
    let decoder = SmaliDecoder::new(&stream);
    let result = decoder.decode_all();
    assert_eq!(result.len(), 1);
    assert_eq!(result[0].inst, DalvikBytecode::Nop);
}

#[test]
fn decode_instruction_reports_the_unrecognized_opcode() {
    let stream = [0xf0u8];
    let mut reader = DexInstructionFormatReader::new(&stream);
    let r = DalvikInstruction::decode_instruction(&mut reader);
    assert_eq!(r, Err(DecodeError::UnrecognizedOpcode));
}

#[test]
fn decode_instruction_reports_end_of_stream() {
    let stream: [u8; 0] = [];
    let mut reader = DexInstructionFormatReader::new(&stream);
    let r = DalvikInstruction::decode_instruction(&mut reader);
    assert_eq!(r, Err(DecodeError::UnexpectedEndOfStream));

    // goto/16 with only one of its three trailing bytes present.
    let stream = [0x29u8, 0xAA];
    let mut reader = DexInstructionFormatReader::new(&stream);
    let r = DalvikInstruction::decode_instruction(&mut reader);
    assert_eq!(r, Err(DecodeError::UnexpectedEndOfStream));
}

#[test]
fn decode_instruction_carries_the_opcode_offset() {
    let stream = [0x00u8, 0x27, 0x05];
    let mut reader = DexInstructionFormatReader::new(&stream);
    let first = DalvikInstruction::decode_instruction(&mut reader).unwrap();
    assert_eq!(first.offset, 0);
    assert_eq!(first.inst, DalvikBytecode::Nop);
    let second = DalvikInstruction::decode_instruction(&mut reader).unwrap();
    assert_eq!(second.offset, 1);
    assert_eq!(second.inst, DalvikBytecode::Throw(5));
}

#[test]
fn wide_constant_assembles_most_significant_byte_first() {
    let stream = [0x18u8, 0x01, 0x01, 0x02, 0x03, 0x04, 0x05, 0x06, 0x07, 0x08];
    let decoder = SmaliDecoder::new(&stream);
    let result = decoder.decode_all();
    assert_eq!(result.len(), 1);
    assert_eq!(
        result[0].inst,
        DalvikBytecode::ConstWide(1, 0x0102030405060708)
    );
}

#[test]
fn goto_family_decodes_signed_deltas() {
    let stream = [0x28u8, 0xFE];
    let decoder = SmaliDecoder::new(&stream);
    assert_eq!(decoder.decode_all()[0].inst, DalvikBytecode::Goto(-2));

    let stream = [0x29u8, 0xAA, 0xFF, 0xFE];
    let decoder = SmaliDecoder::new(&stream);
    assert_eq!(decoder.decode_all()[0].inst, DalvikBytecode::Goto16(-2));

    let stream = [0x2au8, 0xAA, 0xFF, 0xFF, 0xFF, 0xFE];
    let decoder = SmaliDecoder::new(&stream);
    assert_eq!(decoder.decode_all()[0].inst, DalvikBytecode::Goto32(-2));
}

#[test]
fn check_cast_reuses_the_const_class_shape() {
    let stream = [0x1fu8, 0x03, 0x00, 0x07];
    let decoder = SmaliDecoder::new(&stream);
    assert_eq!(
        decoder.decode_all()[0].inst,
        DalvikBytecode::ConstClass(3, 7)
    );
}

#[test]
fn polymorphic_call_site_carries_the_prototype_index() {
    // invoke-polymorphic: count=3, G=7, method 0x0042, C=1 D=2 E=3 F=4,
    // prototype 0x0102.
    let stream = [0xfau8, 0x37, 0x00, 0x42, 0x21, 0x43, 0x01, 0x02];
    let decoder = SmaliDecoder::new(&stream);
    let result = decoder.decode_all();
    assert_eq!(result.len(), 1);
    assert_eq!(
        result[0].inst,
        DalvikBytecode::InvokePolymorphic(vec![1, 2, 3], 0x0042, 0x0102)
    );
}

#[test]
fn decoding_twice_starts_from_offset_zero_each_time() {
    let stream = [0x00u8, 0x0e];
    let decoder = SmaliDecoder::new(&stream);
    let first = decoder.decode_all();
    let second = decoder.decode_all();
    assert_eq!(first, second);
    assert_eq!(first.len(), 2);
}
