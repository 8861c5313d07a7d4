use smali_disassembler::opcodes::{
    ArithmeticKind, CmpKind, DalvikBytecode, IfKind, InvokeKind, MoveKind, OpKind, ReturnKind,
    UnopKind,
};
use smali_disassembler::SmaliDecoder;

#[test]
fn move_kinds_classify_by_opcode() {
    assert_eq!(MoveKind::from_opcode(0x01), MoveKind::Move);
    assert_eq!(MoveKind::from_opcode(0x05), MoveKind::MovWide);
    assert_eq!(MoveKind::from_opcode(0x09), MoveKind::MoveObject);
    assert_eq!(MoveKind::from_opcode(0x0a), MoveKind::Move);
    assert_eq!(MoveKind::from_opcode(0x0d), MoveKind::Exception);
}

#[test]
fn return_kinds_classify_by_opcode() {
    assert_eq!(ReturnKind::from_opcode(0x0e), ReturnKind::ReturnVoid);
    assert_eq!(ReturnKind::from_opcode(0x0f), ReturnKind::Return);
    assert_eq!(ReturnKind::from_opcode(0x10), ReturnKind::ReturnWide);
    assert_eq!(ReturnKind::from_opcode(0x11), ReturnKind::ReturnObject);
}

#[test]
fn cmp_kinds_classify_by_opcode() {
    assert_eq!(CmpKind::from_opcode(0x2d), CmpKind::CmplFloat);
    assert_eq!(CmpKind::from_opcode(0x2e), CmpKind::CmpgFloat);
    assert_eq!(CmpKind::from_opcode(0x2f), CmpKind::CmplDouble);
    assert_eq!(CmpKind::from_opcode(0x30), CmpKind::CmpgDouble);
    assert_eq!(CmpKind::from_opcode(0x31), CmpKind::CmpLong);
}

#[test]
fn if_kinds_cover_both_branch_forms() {
    assert_eq!(IfKind::from_opcode(0x32), IfKind::Eq);
    assert_eq!(IfKind::from_opcode(0x33), IfKind::Ne);
    assert_eq!(IfKind::from_opcode(0x34), IfKind::It);
    assert_eq!(IfKind::from_opcode(0x35), IfKind::Ge);
    assert_eq!(IfKind::from_opcode(0x36), IfKind::Gt);
    assert_eq!(IfKind::from_opcode(0x37), IfKind::Le);
    assert_eq!(IfKind::from_opcode(0x38), IfKind::Eq);
    assert_eq!(IfKind::from_opcode(0x3d), IfKind::Le);
}

#[test]
fn op_kinds_cover_array_instance_and_static_access() {
    assert_eq!(OpKind::from_opcode(0x44), OpKind::Get);
    assert_eq!(OpKind::from_opcode(0x45), OpKind::GetWide);
    assert_eq!(OpKind::from_opcode(0x4b), OpKind::Put);
    assert_eq!(OpKind::from_opcode(0x51), OpKind::PutShort);
    assert_eq!(OpKind::from_opcode(0x52), OpKind::Get);
    assert_eq!(OpKind::from_opcode(0x5b), OpKind::PutObject);
    assert_eq!(OpKind::from_opcode(0x60), OpKind::Get);
    assert_eq!(OpKind::from_opcode(0x63), OpKind::GetBoolean);
    assert_eq!(OpKind::from_opcode(0x6d), OpKind::PutShort);
}

#[test]
fn invoke_kinds_cover_plain_and_range_forms() {
    assert_eq!(InvokeKind::from_opcode(0x6e), InvokeKind::Virtual);
    assert_eq!(InvokeKind::from_opcode(0x6f), InvokeKind::Super);
    assert_eq!(InvokeKind::from_opcode(0x70), InvokeKind::Direct);
    assert_eq!(InvokeKind::from_opcode(0x71), InvokeKind::Static);
    assert_eq!(InvokeKind::from_opcode(0x72), InvokeKind::Interface);
    assert_eq!(InvokeKind::from_opcode(0x74), InvokeKind::Virtual);
    assert_eq!(InvokeKind::from_opcode(0x78), InvokeKind::Interface);
}

#[test]
fn unop_kinds_classify_by_opcode() {
    assert_eq!(UnopKind::from_opcode(0x7b), UnopKind::NegInt);
    assert_eq!(UnopKind::from_opcode(0x7e), UnopKind::NotLong);
    assert_eq!(UnopKind::from_opcode(0x81), UnopKind::IntToLong);
    assert_eq!(UnopKind::from_opcode(0x8a), UnopKind::DoubleToInt);
    assert_eq!(UnopKind::from_opcode(0x8f), UnopKind::IntToShort);
}

#[test]
fn arithmetic_kinds_cover_all_four_forms() {
    assert_eq!(ArithmeticKind::from_opcode(0x90), ArithmeticKind::AddInt);
    assert_eq!(ArithmeticKind::from_opcode(0xb0), ArithmeticKind::AddInt);
    assert_eq!(ArithmeticKind::from_opcode(0xd0), ArithmeticKind::AddInt);
    assert_eq!(ArithmeticKind::from_opcode(0xd8), ArithmeticKind::AddInt);
    assert_eq!(ArithmeticKind::from_opcode(0xd1), ArithmeticKind::RSubInt);
    assert_eq!(ArithmeticKind::from_opcode(0xd9), ArithmeticKind::RSubInt);
    assert_eq!(ArithmeticKind::from_opcode(0x9b), ArithmeticKind::AddLong);
    assert_eq!(ArithmeticKind::from_opcode(0xa6), ArithmeticKind::AddFloat);
    assert_eq!(ArithmeticKind::from_opcode(0xcf), ArithmeticKind::RemDouble);
    assert_eq!(ArithmeticKind::from_opcode(0xe2), ArithmeticKind::UshrInt);
}

#[test]
fn terminators_are_returns_unconditional_branches_and_throw() {
    assert!(DalvikBytecode::Return(ReturnKind::Return, 1).is_basic_block_terminator());
    assert!(DalvikBytecode::Goto(-2).is_basic_block_terminator());
    assert!(DalvikBytecode::Goto16(5).is_basic_block_terminator());
    assert!(DalvikBytecode::Goto32(9).is_basic_block_terminator());
    assert!(DalvikBytecode::Throw(1).is_basic_block_terminator());
    assert!(!DalvikBytecode::Nop.is_basic_block_terminator());
    assert!(!DalvikBytecode::IfTest(IfKind::Eq, 1, 2, 5).is_basic_block_terminator());
    assert!(!DalvikBytecode::IfTestZ(IfKind::Ne, 1, 5).is_basic_block_terminator());
    assert!(!DalvikBytecode::PackedSwitch(1, 4).is_basic_block_terminator());
    assert!(!DalvikBytecode::SparseSwitch(1, 4).is_basic_block_terminator());
}

#[test]
fn binop_forms_decode_through_the_dispatcher() {
    // add-int v1, v2, v3
    let stream = [0x90u8, 0x01, 0x02, 0x03];
    let decoder = SmaliDecoder::new(&stream);
    assert_eq!(
        decoder.decode_all()[0].inst,
        DalvikBytecode::Binop(ArithmeticKind::AddInt, 1, 2, 3)
    );

    // add-int/2addr v1, v2 (packed pair)
    let stream = [0xb0u8, 0x21];
    let decoder = SmaliDecoder::new(&stream);
    assert_eq!(
        decoder.decode_all()[0].inst,
        DalvikBytecode::Binop2Addr(ArithmeticKind::AddInt, 1, 2)
    );

    // rsub-int v1, v2, -2 (16-bit literal)
    let stream = [0xd1u8, 0x21, 0xFF, 0xFE];
    let decoder = SmaliDecoder::new(&stream);
    assert_eq!(
        decoder.decode_all()[0].inst,
        DalvikBytecode::BinopLit16(ArithmeticKind::RSubInt, 1, 2, -2)
    );

    // add-int/lit8 v1, v2, -1
    let stream = [0xd8u8, 0x01, 0x02, 0xFF];
    let decoder = SmaliDecoder::new(&stream);
    assert_eq!(
        decoder.decode_all()[0].inst,
        DalvikBytecode::BinopLit8(ArithmeticKind::AddInt, 1, 2, -1)
    );
}

#[test]
fn unop_decodes_through_the_dispatcher() {
    // int-to-short v1, v2
    let stream = [0x8fu8, 0x21];
    let decoder = SmaliDecoder::new(&stream);
    assert_eq!(
        decoder.decode_all()[0].inst,
        DalvikBytecode::Unop(UnopKind::IntToShort, 1, 2)
    );
}

#[test]
fn move_family_decodes_through_the_dispatcher() {
    // move/from16 v4, v0x0102
    let stream = [0x02u8, 0x04, 0x01, 0x02];
    let decoder = SmaliDecoder::new(&stream);
    assert_eq!(
        decoder.decode_all()[0].inst,
        DalvikBytecode::MoveFrom16(MoveKind::Move, 4, 0x0102)
    );

    // move-wide/16 v0x0001, v0x0002
    let stream = [0x06u8, 0xAA, 0x00, 0x01, 0x00, 0x02];
    let decoder = SmaliDecoder::new(&stream);
    assert_eq!(
        decoder.decode_all()[0].inst,
        DalvikBytecode::Move16(MoveKind::MovWide, 1, 2)
    );

    // move-result-object v7
    let stream = [0x0cu8, 0x07];
    let decoder = SmaliDecoder::new(&stream);
    assert_eq!(
        decoder.decode_all()[0].inst,
        DalvikBytecode::MoveResult(MoveKind::MoveObject, 7)
    );
}

#[test]
fn static_and_instance_ops_decode_through_the_dispatcher() {
    // sget v2, field 0x0010
    let stream = [0x60u8, 0x02, 0x00, 0x10];
    let decoder = SmaliDecoder::new(&stream);
    assert_eq!(
        decoder.decode_all()[0].inst,
        DalvikBytecode::StaticOp(OpKind::Get, 2, 0x10)
    );

    // iput-object v1, v2, field 0x0020 (packed pair)
    let stream = [0x5bu8, 0x21, 0x00, 0x20];
    let decoder = SmaliDecoder::new(&stream);
    assert_eq!(
        decoder.decode_all()[0].inst,
        DalvikBytecode::InstanceOp(OpKind::PutObject, 1, 2, 0x20)
    );

    // aget-wide v1, v2, v3
    let stream = [0x45u8, 0x01, 0x02, 0x03];
    let decoder = SmaliDecoder::new(&stream);
    assert_eq!(
        decoder.decode_all()[0].inst,
        DalvikBytecode::ArrayOp(OpKind::GetWide, 1, 2, 3)
    );
}

#[test]
fn cmp_decodes_through_the_dispatcher() {
    // cmp-long v1, v2, v3
    let stream = [0x31u8, 0x01, 0x02, 0x03];
    let decoder = SmaliDecoder::new(&stream);
    assert_eq!(
        decoder.decode_all()[0].inst,
        DalvikBytecode::Cmp(CmpKind::CmpLong, 1, 2, 3)
    );
}

#[test]
fn invoke_range_decodes_through_the_dispatcher() {
    // invoke-static/range {v0x20 ..}, method 0x0010, count 5
    let stream = [0x77u8, 0x05, 0x00, 0x10, 0x00, 0x20];
    let decoder = SmaliDecoder::new(&stream);
    assert_eq!(
        decoder.decode_all()[0].inst,
        DalvikBytecode::InvokeRange(InvokeKind::Static, 5, 0x10, 0x20)
    );
}
