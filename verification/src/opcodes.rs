//! The Dalvik opcode space, its semantic taxonomy and the decoded
//! instruction data model.
//!
//! Each taxonomy enum partitions a family of opcodes that share one
//! binary format but differ in operation; classification is a pure
//! function from opcode to kind, defined only on that family's range.

use vstd::prelude::*;

verus! {

pub const NOP_OP: u8 = 0x0;

pub const MOV_OP: u8 = 0x1;

pub const MOV_FROM16_OP: u8 = 0x2;

pub const MOV16_OP: u8 = 0x3;

pub const MOV_WIDE_OP: u8 = 0x4;

pub const MOV_WIDE_FROM16_OP: u8 = 0x5;

pub const MOV_WIDE16_OP: u8 = 0x6;

pub const MOV_OBJECT_OP: u8 = 0x7;

pub const MOV_OBJECT_FROM16_OP: u8 = 0x8;

pub const MOV_OBJECT16_OP: u8 = 0x9;

pub const MOV_RESULT_OP: u8 = 0xa;

pub const MOV_RESULT_WIDE_OP: u8 = 0xb;

pub const MOV_RESULT_OBJECT_OP: u8 = 0xc;

pub const MOV_EXCEPTION_OP: u8 = 0xd;

pub const RETURN_VOID_OP: u8 = 0xe;

pub const RETURN_OP: u8 = 0xf;

pub const RETURN_WIDE_OP: u8 = 0x10;

pub const RETURN_OBJECT_OP: u8 = 0x11;

pub const CONST4_OP: u8 = 0x12;

pub const CONST16_OP: u8 = 0x13;

pub const CONST_OP: u8 = 0x14;

pub const CONST_HIGH16_OP: u8 = 0x15;

pub const CONST_WIDE16_OP: u8 = 0x16;

pub const CONST_WIDE32_OP: u8 = 0x17;

pub const CONST_WIDE_OP: u8 = 0x18;

pub const CONST_WIDE_HIGH16_OP: u8 = 0x19;

pub const CONST_STRING_OP: u8 = 0x1a;

pub const CONST_STRING_JUMBO_OP: u8 = 0x1b;

pub const CONST_CLASS_OP: u8 = 0x1c;

pub const MONITOR_ENTER_OP: u8 = 0x1d;

pub const MONITOR_EXIT_OP: u8 = 0x1e;

pub const CHECK_CAST_OP: u8 = 0x1f;

pub const INSTANCE_OF_OP: u8 = 0x20;

pub const ARRAY_LENGTH_OP: u8 = 0x21;

pub const NEW_INSTANCE_OP: u8 = 0x22;

pub const NEW_ARRAY_OP: u8 = 0x23;

pub const FILLED_NEW_ARRAY_OP: u8 = 0x24;

pub const FILLED_NEW_ARRAY_RANGE_OP: u8 = 0x25;

pub const FILL_ARRAY_DATA_OP: u8 = 0x26;

pub const THROW_OP: u8 = 0x27;

pub const GOTO_OP: u8 = 0x28;

pub const GOTO16_OP: u8 = 0x29;

pub const GOTO32_OP: u8 = 0x2a;

pub const PACKED_SWITCH_OP: u8 = 0x2b;

pub const SPARSE_SWITCH_OP: u8 = 0x2c;

pub const CMPL_FLOAT_OP: u8 = 0x2d;

pub const CMPG_FLOAT_OP: u8 = 0x2e;

pub const CMPL_DOUBLE_OP: u8 = 0x2f;

pub const CMPG_DOUBLE_OP: u8 = 0x30;

pub const CMP_LONG_OP: u8 = 0x31;

pub const IF_TEST_EQ_OP: u8 = 0x32;

pub const IF_TEST_NE_OP: u8 = 0x33;

pub const IF_TEST_IT_OP: u8 = 0x34;

pub const IF_TEST_GE_OP: u8 = 0x35;

pub const IF_TEST_GT_OP: u8 = 0x36;

pub const IF_TEST_LE_OP: u8 = 0x37;

pub const IF_TESTZ_EQ_OP: u8 = 0x38;

pub const IF_TESTZ_NE_OP: u8 = 0x39;

pub const IF_TESTZ_IT_OP: u8 = 0x3a;

pub const IF_TESTZ_GE_OP: u8 = 0x3b;

pub const IF_TESTZ_GT_OP: u8 = 0x3c;

pub const IF_TESTZ_LE_OP: u8 = 0x3d;

pub const ARRAY_GET_OP: u8 = 0x44;

pub const ARRAY_GET_WIDE_OP: u8 = 0x45;

pub const ARRAY_GET_OBJECT_OP: u8 = 0x46;

pub const ARRAY_GET_BOOLEAN_OP: u8 = 0x47;

pub const ARRAY_GET_BYTE_OP: u8 = 0x48;

pub const ARRAY_GET_CHAR_OP: u8 = 0x49;

pub const ARRAY_GET_SHORT_OP: u8 = 0x4a;

pub const ARRAY_PUT_OP: u8 = 0x4b;

pub const ARRAY_PUT_WIDE_OP: u8 = 0x4c;

pub const ARRAY_PUT_OBJECT_OP: u8 = 0x4d;

pub const ARRAY_PUT_BOOLEAN_OP: u8 = 0x4e;

pub const ARRAY_PUT_BYTE_OP: u8 = 0x4f;

pub const ARRAY_PUT_CHAR_OP: u8 = 0x50;

pub const ARRAY_PUT_SHORT_OP: u8 = 0x51;

pub const INSTANCE_GET_OP: u8 = 0x52;

pub const INSTANCE_GET_WIDE_OP: u8 = 0x53;

pub const INSTANCE_GET_OBJECT_OP: u8 = 0x54;

pub const INSTANCE_GET_BOOLEAN_OP: u8 = 0x55;

pub const INSTANCE_GET_BYTE_OP: u8 = 0x56;

pub const INSTANCE_GET_CHAR_OP: u8 = 0x57;

pub const INSTANCE_GET_SHORT_OP: u8 = 0x58;

pub const INSTANCE_PUT_OP: u8 = 0x59;

pub const INSTANCE_PUT_WIDE_OP: u8 = 0x5a;

pub const INSTANCE_PUT_OBJECT_OP: u8 = 0x5b;

pub const INSTANCE_PUT_BOOLEAN_OP: u8 = 0x5c;

pub const INSTANCE_PUT_BYTE_OP: u8 = 0x5d;

pub const INSTANCE_PUT_CHAR_OP: u8 = 0x5e;

pub const INSTANCE_PUT_SHORT_OP: u8 = 0x5f;

pub const STATIC_GET_OP: u8 = 0x60;

pub const STATIC_GET_WIDE_OP: u8 = 0x61;

pub const STATIC_GET_OBJECT_OP: u8 = 0x62;

pub const STATIC_GET_BOOLEAN_OP: u8 = 0x63;

pub const STATIC_GET_BYTE_OP: u8 = 0x64;

pub const STATIC_GET_CHAR_OP: u8 = 0x65;

pub const STATIC_GET_SHORT_OP: u8 = 0x66;

pub const STATIC_PUT_OP: u8 = 0x67;

pub const STATIC_PUT_WIDE_OP: u8 = 0x68;

pub const STATIC_PUT_OBJECT_OP: u8 = 0x69;

pub const STATIC_PUT_BOOLEAN_OP: u8 = 0x6a;

pub const STATIC_PUT_BYTE_OP: u8 = 0x6b;

pub const STATIC_PUT_CHAR_OP: u8 = 0x6c;

pub const STATIC_PUT_SHORT_OP: u8 = 0x6d;

pub const INVOKE_VIRTUAL_OP: u8 = 0x6e;

pub const INVOKE_SUPER_OP: u8 = 0x6f;

pub const INVOKE_DIRECT_OP: u8 = 0x70;

pub const INVOKE_STATIC_OP: u8 = 0x71;

pub const INVOKE_INTERFACE_OP: u8 = 0x72;

pub const INVOKE_VIRTUAL_RANGE_OP: u8 = 0x74;

pub const INVOKE_SUPER_RANGE_OP: u8 = 0x75;

pub const INVOKE_DIRECT_RANGE_OP: u8 = 0x76;

pub const INVOKE_STATIC_RANGE_OP: u8 = 0x77;

pub const INVOKE_INTERFACE_RANGE_OP: u8 = 0x78;

pub const NEG_INT_OP: u8 = 0x7b;

pub const NOT_INT_OP: u8 = 0x7c;

pub const NEG_LONG_OP: u8 = 0x7d;

pub const NOT_LONG_OP: u8 = 0x7e;

pub const NEG_FLOAT_OP: u8 = 0x7f;

pub const NEG_DOUBLE_OP: u8 = 0x80;

pub const INT_TO_LONG_OP: u8 = 0x81;

pub const INT_TO_FLOAT_OP: u8 = 0x82;

pub const INT_TO_DOUBLE_OP: u8 = 0x83;

pub const LONG_TO_INT_OP: u8 = 0x84;

pub const LONG_TO_FLOAT_OP: u8 = 0x85;

pub const LONG_TO_DOUBLE_OP: u8 = 0x86;

pub const FLOAT_TO_INT_OP: u8 = 0x87;

pub const FLOAT_TO_LONG_OP: u8 = 0x88;

pub const FLOAT_TO_DOUBLE_OP: u8 = 0x89;

pub const DOUBLE_TO_INT_OP: u8 = 0x8a;

pub const DOUBLE_TO_LONG_OP: u8 = 0x8b;

pub const DOUBLE_TO_FLOAT_OP: u8 = 0x8c;

pub const INT_TO_BYTE_OP: u8 = 0x8d;

pub const INT_TO_CHAR_OP: u8 = 0x8e;

pub const INT_TO_SHORT_OP: u8 = 0x8f;

pub const ADD_INT_OP: u8 = 0x90;

pub const SUB_INT_OP: u8 = 0x91;

pub const MUL_INT_OP: u8 = 0x92;

pub const DIV_INT_OP: u8 = 0x93;

pub const REM_INT_OP: u8 = 0x94;

pub const AND_INT_OP: u8 = 0x95;

pub const OR_INT_OP: u8 = 0x96;

pub const XOR_INT_OP: u8 = 0x97;

pub const SHL_INT_OP: u8 = 0x98;

pub const SHR_INT_OP: u8 = 0x99;

pub const USHR_INT_OP: u8 = 0x9a;

pub const ADD_LONG_OP: u8 = 0x9b;

pub const SUB_LONG_OP: u8 = 0x9c;

pub const MUL_LONG_OP: u8 = 0x9d;

pub const DIV_LONG_OP: u8 = 0x9e;

pub const REM_LONG_OP: u8 = 0x9f;

pub const AND_LONG_OP: u8 = 0xa0;

pub const OR_LONG_OP: u8 = 0xa1;

pub const XOR_LONG_OP: u8 = 0xa2;

pub const SHL_LONG_OP: u8 = 0xa3;

pub const SHR_LONG_OP: u8 = 0xa4;

pub const USHR_LONG_OP: u8 = 0xa5;

pub const ADD_FLOAT_OP: u8 = 0xa6;

pub const SUB_FLOAT_OP: u8 = 0xa7;

pub const MUL_FLOAT_OP: u8 = 0xa8;

pub const DIV_FLOAT_OP: u8 = 0xa9;

pub const REM_FLOAT_OP: u8 = 0xaa;

pub const ADD_DOUBLE_OP: u8 = 0xab;

pub const SUB_DOUBLE_OP: u8 = 0xac;

pub const MUL_DOUBLE_OP: u8 = 0xad;

pub const DIV_DOUBLE_OP: u8 = 0xae;

pub const REM_DOUBLE_OP: u8 = 0xaf;

pub const ADD_INT_2ADDR_OP: u8 = 0xb0;

pub const SUB_INT_2ADDR_OP: u8 = 0xb1;

pub const MUL_INT_2ADDR_OP: u8 = 0xb2;

pub const DIV_INT_2ADDR_OP: u8 = 0xb3;

pub const REM_INT_2ADDR_OP: u8 = 0xb4;

pub const AND_INT_2ADDR_OP: u8 = 0xb5;

pub const OR_INT_2ADDR_OP: u8 = 0xb6;

pub const XOR_INT_2ADDR_OP: u8 = 0xb7;

pub const SHL_INT_2ADDR_OP: u8 = 0xb8;

pub const SHR_INT_2ADDR_OP: u8 = 0xb9;

pub const USHR_INT_2ADDR_OP: u8 = 0xba;

pub const ADD_LONG_2ADDR_OP: u8 = 0xbb;

pub const SUB_LONG_2ADDR_OP: u8 = 0xbc;

pub const MUL_LONG_2ADDR_OP: u8 = 0xbd;

pub const DIV_LONG_2ADDR_OP: u8 = 0xbe;

pub const REM_LONG_2ADDR_OP: u8 = 0xbf;

pub const AND_LONG_2ADDR_OP: u8 = 0xc0;

pub const OR_LONG_2ADDR_OP: u8 = 0xc1;

pub const XOR_LONG_2ADDR_OP: u8 = 0xc2;

pub const SHL_LONG_2ADDR_OP: u8 = 0xc3;

pub const SHR_LONG_2ADDR_OP: u8 = 0xc4;

pub const USHR_LONG_2ADDR_OP: u8 = 0xc5;

pub const ADD_FLOAT_2ADDR_OP: u8 = 0xc6;

pub const SUB_FLOAT_2ADDR_OP: u8 = 0xc7;

pub const MUL_FLOAT_2ADDR_OP: u8 = 0xc8;

pub const DIV_FLOAT_2ADDR_OP: u8 = 0xc9;

pub const REM_FLOAT_2ADDR_OP: u8 = 0xca;

pub const ADD_DOUBLE_2ADDR_OP: u8 = 0xcb;

pub const SUB_DOUBLE_2ADDR_OP: u8 = 0xcc;

pub const MUL_DOUBLE_2ADDR_OP: u8 = 0xcd;

pub const DIV_DOUBLE_2ADDR_OP: u8 = 0xce;

pub const REM_DOUBLE_2ADDR_OP: u8 = 0xcf;

pub const ADD_INT_LIT16_OP: u8 = 0xd0;

/// Reverse subtract.
pub const RSUB_INT_OP: u8 = 0xd1;

pub const MUL_INT_LIT16_OP: u8 = 0xd2;

pub const DIV_INT_LIT16_OP: u8 = 0xd3;

pub const REM_INT_LIT16_OP: u8 = 0xd4;

pub const AND_INT_LIT16_OP: u8 = 0xd5;

pub const OR_INT_LIT16_OP: u8 = 0xd6;

pub const XOR_INT_LIT16_OP: u8 = 0xd7;

pub const ADD_INT_LIT8_OP: u8 = 0xd8;

/// Reverse subtract with an 8-bit literal.
pub const RSUB_INT_LIT8_OP: u8 = 0xd9;

pub const MUL_INT_LIT8_OP: u8 = 0xda;

pub const DIV_INT_LIT8_OP: u8 = 0xdb;

pub const REM_INT_LIT8_OP: u8 = 0xdc;

pub const AND_INT_LIT8_OP: u8 = 0xdd;

pub const OR_INT_LIT8_OP: u8 = 0xde;

pub const XOR_INT_LIT8_OP: u8 = 0xdf;

pub const SHL_INT_LIT8_OP: u8 = 0xe0;

pub const SHR_INT_LIT8_OP: u8 = 0xe1;

pub const USHR_INT_LIT8_OP: u8 = 0xe2;

pub const INVOKE_POLYMORPHIC_OP: u8 = 0xfa;

pub const INVOKE_POLYMORPHIC_RANGE_OP: u8 = 0xfb;

pub const INVOKE_CUSTOM_OP: u8 = 0xfc;

pub const INVOKE_CUSTOM_RANGE_OP: u8 = 0xfd;

pub const CONST_METHOD_HANDLE_OP: u8 = 0xfe;

pub const CONST_METHOD_TYPE_OP: u8 = 0xff;

/// Payload marker that follows a packed-switch instruction.  Pseudo
/// opcodes are distinguished by position, not value, and are never
/// dispatched by the decode loop.
pub const PSEUDO_PACKED_SWITCH_OP: u8 = 0x1;

/// Payload marker that follows a sparse-switch instruction.
pub const PSEUDO_SPARSE_SWITCH_OP: u8 = 0x2;

/// Payload marker that follows a fill-array-data instruction.
pub const PSEUDO_FILL_ARRAY_DATA_OP: u8 = 0x3;

/// One decoded Dalvik instruction: a tag per opcode group, carrying the
/// operands that group's format produces.  Registers are raw indices;
/// pool indices are opaque numbers; branch targets stay raw signed
/// deltas.
#[derive(Debug, PartialEq, Eq)]
pub enum DalvikBytecode {
    Nop,
    Move(MoveKind, u8, u8),
    MoveFrom16(MoveKind, u8, u16),
    Move16(MoveKind, u16, u16),
    MoveResult(MoveKind, u8),
    Return(ReturnKind, u8),
    Const4(u8, i8),
    Const16(u8, i16),
    Const(u8, i32),
    ConstHigh16(u8, i16),
    ConstWide16(u8, i16),
    ConstWide32(u8, i32),
    ConstWide(u8, u64),
    ConstWideHigh16(u8, i16),
    ConstString(u8, u16),
    ConstStringJumbo(u8, u32),
    ConstClass(u8, u16),
    MonitorEnter(u8),
    MonitorExit(u8),
    InstanceOf(u8, u8, u16),
    ArrayLength(u8, u8),
    NewInstance(u8, u16),
    NewArray(u8, u8, u16),
    FilledNewArray(u16, Vec<u8>),
    FilledNewArrayRange(u8, u16, u16),
    FilledArrayData(u8, i32),
    Throw(u8),
    Goto(i8),
    Goto16(i16),
    Goto32(i32),
    PackedSwitch(u8, i32),
    SparseSwitch(u8, i32),
    Cmp(CmpKind, u8, u8, u8),
    IfTest(IfKind, u8, u8, i16),
    IfTestZ(IfKind, u8, i16),
    ArrayOp(OpKind, u8, u8, u8),
    InstanceOp(OpKind, u8, u8, u16),
    StaticOp(OpKind, u8, u16),
    Invoke(InvokeKind, Vec<u8>, u16),
    InvokeRange(InvokeKind, u8, u16, u16),
    Unop(UnopKind, u8, u8),
    Binop(ArithmeticKind, u8, u8, u8),
    Binop2Addr(ArithmeticKind, u8, u8),
    BinopLit16(ArithmeticKind, u8, u8, i16),
    BinopLit8(ArithmeticKind, u8, u8, i8),
    InvokePolymorphic(Vec<u8>, u16, u16),
    InvokePolymorphicRange(u8, u16, u16, u16),
    InvokeCustom(Vec<u8>, u16),
    InvokeCustomRange(u8, u16, u16),
    ConstMethodHandle(u8, u16),
    ConstMethodType(u8, u16),
}

/// The mathematical shape of a decoded instruction: the same tags and
/// operands as `DalvikBytecode`, with register lists as sequences.
/// Contracts and the stream-level decode specification speak of this
/// type.
pub enum DalvikBytecodeView {
    Nop,
    Move(MoveKind, u8, u8),
    MoveFrom16(MoveKind, u8, u16),
    Move16(MoveKind, u16, u16),
    MoveResult(MoveKind, u8),
    Return(ReturnKind, u8),
    Const4(u8, i8),
    Const16(u8, i16),
    Const(u8, i32),
    ConstHigh16(u8, i16),
    ConstWide16(u8, i16),
    ConstWide32(u8, i32),
    ConstWide(u8, u64),
    ConstWideHigh16(u8, i16),
    ConstString(u8, u16),
    ConstStringJumbo(u8, u32),
    ConstClass(u8, u16),
    MonitorEnter(u8),
    MonitorExit(u8),
    InstanceOf(u8, u8, u16),
    ArrayLength(u8, u8),
    NewInstance(u8, u16),
    NewArray(u8, u8, u16),
    FilledNewArray(u16, Seq<u8>),
    FilledNewArrayRange(u8, u16, u16),
    FilledArrayData(u8, i32),
    Throw(u8),
    Goto(i8),
    Goto16(i16),
    Goto32(i32),
    PackedSwitch(u8, i32),
    SparseSwitch(u8, i32),
    Cmp(CmpKind, u8, u8, u8),
    IfTest(IfKind, u8, u8, i16),
    IfTestZ(IfKind, u8, i16),
    ArrayOp(OpKind, u8, u8, u8),
    InstanceOp(OpKind, u8, u8, u16),
    StaticOp(OpKind, u8, u16),
    Invoke(InvokeKind, Seq<u8>, u16),
    InvokeRange(InvokeKind, u8, u16, u16),
    Unop(UnopKind, u8, u8),
    Binop(ArithmeticKind, u8, u8, u8),
    Binop2Addr(ArithmeticKind, u8, u8),
    BinopLit16(ArithmeticKind, u8, u8, i16),
    BinopLit8(ArithmeticKind, u8, u8, i8),
    InvokePolymorphic(Seq<u8>, u16, u16),
    InvokePolymorphicRange(u8, u16, u16, u16),
    InvokeCustom(Seq<u8>, u16),
    InvokeCustomRange(u8, u16, u16),
    ConstMethodHandle(u8, u16),
    ConstMethodType(u8, u16),
}

impl View for DalvikBytecode {
    type V = DalvikBytecodeView;

    open spec fn view(&self) -> DalvikBytecodeView {
        match self {
            DalvikBytecode::Nop => DalvikBytecodeView::Nop,
            DalvikBytecode::Move(k, a, b) => DalvikBytecodeView::Move(*k, *a, *b),
            DalvikBytecode::MoveFrom16(k, a, b) => DalvikBytecodeView::MoveFrom16(*k, *a, *b),
            DalvikBytecode::Move16(k, a, b) => DalvikBytecodeView::Move16(*k, *a, *b),
            DalvikBytecode::MoveResult(k, a) => DalvikBytecodeView::MoveResult(*k, *a),
            DalvikBytecode::Return(k, a) => DalvikBytecodeView::Return(*k, *a),
            DalvikBytecode::Const4(a, v) => DalvikBytecodeView::Const4(*a, *v),
            DalvikBytecode::Const16(a, v) => DalvikBytecodeView::Const16(*a, *v),
            DalvikBytecode::Const(a, v) => DalvikBytecodeView::Const(*a, *v),
            DalvikBytecode::ConstHigh16(a, v) => DalvikBytecodeView::ConstHigh16(*a, *v),
            DalvikBytecode::ConstWide16(a, v) => DalvikBytecodeView::ConstWide16(*a, *v),
            DalvikBytecode::ConstWide32(a, v) => DalvikBytecodeView::ConstWide32(*a, *v),
            DalvikBytecode::ConstWide(a, v) => DalvikBytecodeView::ConstWide(*a, *v),
            DalvikBytecode::ConstWideHigh16(a, v) => DalvikBytecodeView::ConstWideHigh16(*a, *v),
            DalvikBytecode::ConstString(a, v) => DalvikBytecodeView::ConstString(*a, *v),
            DalvikBytecode::ConstStringJumbo(a, v) => DalvikBytecodeView::ConstStringJumbo(*a, *v),
            DalvikBytecode::ConstClass(a, v) => DalvikBytecodeView::ConstClass(*a, *v),
            DalvikBytecode::MonitorEnter(a) => DalvikBytecodeView::MonitorEnter(*a),
            DalvikBytecode::MonitorExit(a) => DalvikBytecodeView::MonitorExit(*a),
            DalvikBytecode::InstanceOf(a, b, v) => DalvikBytecodeView::InstanceOf(*a, *b, *v),
            DalvikBytecode::ArrayLength(a, b) => DalvikBytecodeView::ArrayLength(*a, *b),
            DalvikBytecode::NewInstance(a, v) => DalvikBytecodeView::NewInstance(*a, *v),
            DalvikBytecode::NewArray(a, b, v) => DalvikBytecodeView::NewArray(*a, *b, *v),
            DalvikBytecode::FilledNewArray(v, regs) => DalvikBytecodeView::FilledNewArray(
                *v,
                regs@,
            ),
            DalvikBytecode::FilledNewArrayRange(c, v, f) => DalvikBytecodeView::FilledNewArrayRange(
                *c,
                *v,
                *f,
            ),
            DalvikBytecode::FilledArrayData(a, v) => DalvikBytecodeView::FilledArrayData(*a, *v),
            DalvikBytecode::Throw(a) => DalvikBytecodeView::Throw(*a),
            DalvikBytecode::Goto(d) => DalvikBytecodeView::Goto(*d),
            DalvikBytecode::Goto16(d) => DalvikBytecodeView::Goto16(*d),
            DalvikBytecode::Goto32(d) => DalvikBytecodeView::Goto32(*d),
            DalvikBytecode::PackedSwitch(a, v) => DalvikBytecodeView::PackedSwitch(*a, *v),
            DalvikBytecode::SparseSwitch(a, v) => DalvikBytecodeView::SparseSwitch(*a, *v),
            DalvikBytecode::Cmp(k, a, b, c) => DalvikBytecodeView::Cmp(*k, *a, *b, *c),
            DalvikBytecode::IfTest(k, a, b, d) => DalvikBytecodeView::IfTest(*k, *a, *b, *d),
            DalvikBytecode::IfTestZ(k, a, d) => DalvikBytecodeView::IfTestZ(*k, *a, *d),
            DalvikBytecode::ArrayOp(k, a, b, c) => DalvikBytecodeView::ArrayOp(*k, *a, *b, *c),
            DalvikBytecode::InstanceOp(k, a, b, v) => DalvikBytecodeView::InstanceOp(
                *k,
                *a,
                *b,
                *v,
            ),
            DalvikBytecode::StaticOp(k, a, v) => DalvikBytecodeView::StaticOp(*k, *a, *v),
            DalvikBytecode::Invoke(k, regs, m) => DalvikBytecodeView::Invoke(*k, regs@, *m),
            DalvikBytecode::InvokeRange(k, c, m, f) => DalvikBytecodeView::InvokeRange(
                *k,
                *c,
                *m,
                *f,
            ),
            DalvikBytecode::Unop(k, a, b) => DalvikBytecodeView::Unop(*k, *a, *b),
            DalvikBytecode::Binop(k, a, b, c) => DalvikBytecodeView::Binop(*k, *a, *b, *c),
            DalvikBytecode::Binop2Addr(k, a, b) => DalvikBytecodeView::Binop2Addr(*k, *a, *b),
            DalvikBytecode::BinopLit16(k, a, b, v) => DalvikBytecodeView::BinopLit16(
                *k,
                *a,
                *b,
                *v,
            ),
            DalvikBytecode::BinopLit8(k, a, b, v) => DalvikBytecodeView::BinopLit8(*k, *a, *b, *v),
            DalvikBytecode::InvokePolymorphic(regs, m, p) => DalvikBytecodeView::InvokePolymorphic(
                regs@,
                *m,
                *p,
            ),
            DalvikBytecode::InvokePolymorphicRange(
                c,
                m,
                f,
                p,
            ) => DalvikBytecodeView::InvokePolymorphicRange(*c, *m, *f, *p),
            DalvikBytecode::InvokeCustom(regs, cs) => DalvikBytecodeView::InvokeCustom(regs@, *cs),
            DalvikBytecode::InvokeCustomRange(c, cs, f) => DalvikBytecodeView::InvokeCustomRange(
                *c,
                *cs,
                *f,
            ),
            DalvikBytecode::ConstMethodHandle(a, m) => DalvikBytecodeView::ConstMethodHandle(
                *a,
                *m,
            ),
            DalvikBytecode::ConstMethodType(a, t) => DalvikBytecodeView::ConstMethodType(*a, *t),
        }
    }
}

/// Whether an instruction ends a basic block: any return, any
/// unconditional branch, or a throw.  Conditional branches and switches
/// do not count.
pub open spec fn spec_is_terminator(b: DalvikBytecodeView) -> bool {
    ||| b is Return
    ||| b is Goto
    ||| b is Goto16
    ||| b is Goto32
    ||| b is Throw
}

impl DalvikBytecode {
    /// Whether this instruction ends a basic block: any return, any
    /// unconditional branch (8-, 16- or 32-bit), or a throw.
    /// Conditional branches and switches deliberately report false.
    pub fn is_basic_block_terminator(&self) -> (r: bool)
        ensures
            r == spec_is_terminator(self@),
    {
        match self {
            Self::Return(_, _) => true,
            Self::Goto(_) => true,
            Self::Goto16(_) => true,
            Self::Goto32(_) => true,
            Self::Throw(_) => true,
            _ => false,
        }
    }
}

/// What a move-family instruction moves.
#[derive(Debug, Clone, Copy, PartialEq, Eq, Structural)]
pub enum MoveKind {
    Move,
    MovWide,
    MoveObject,
    Exception,
}

/// The move kind an opcode of the move family stands for.
pub open spec fn spec_move_kind(op: u8) -> MoveKind {
    if op == MOV_OP || op == MOV_FROM16_OP || op == MOV16_OP || op == MOV_RESULT_OP {
        MoveKind::Move
    } else if op == MOV_WIDE_OP || op == MOV_WIDE_FROM16_OP || op == MOV_WIDE16_OP || op
        == MOV_RESULT_WIDE_OP {
        MoveKind::MovWide
    } else if op == MOV_OBJECT_OP || op == MOV_OBJECT_FROM16_OP || op == MOV_OBJECT16_OP || op
        == MOV_RESULT_OBJECT_OP {
        MoveKind::MoveObject
    } else {
        MoveKind::Exception
    }
}

impl MoveKind {
    /// Classifies an opcode of the move family.
    pub fn from_opcode(op: u8) -> (r: Self)
        requires
            MOV_OP <= op <= MOV_EXCEPTION_OP,
        ensures
            r == spec_move_kind(op),
    {
        if op == MOV_OP || op == MOV_FROM16_OP || op == MOV16_OP || op == MOV_RESULT_OP {
            Self::Move
        } else if op == MOV_WIDE_OP || op == MOV_WIDE_FROM16_OP || op == MOV_WIDE16_OP || op
            == MOV_RESULT_WIDE_OP {
            Self::MovWide
        } else if op == MOV_OBJECT_OP || op == MOV_OBJECT_FROM16_OP || op == MOV_OBJECT16_OP || op
            == MOV_RESULT_OBJECT_OP {
            Self::MoveObject
        } else {
            Self::Exception
        }
    }
}

/// What a return-family instruction returns.
#[derive(Debug, Clone, Copy, PartialEq, Eq, Structural)]
pub enum ReturnKind {
    Return,
    ReturnWide,
    ReturnObject,
    ReturnVoid,
}

/// The return kind an opcode of the return family stands for.
pub open spec fn spec_return_kind(op: u8) -> ReturnKind {
    if op == RETURN_VOID_OP {
        ReturnKind::ReturnVoid
    } else if op == RETURN_OP {
        ReturnKind::Return
    } else if op == RETURN_WIDE_OP {
        ReturnKind::ReturnWide
    } else {
        ReturnKind::ReturnObject
    }
}

impl ReturnKind {
    /// Classifies an opcode of the return family.
    pub fn from_opcode(op: u8) -> (r: Self)
        requires
            RETURN_VOID_OP <= op <= RETURN_OBJECT_OP,
        ensures
            r == spec_return_kind(op),
    {
        if op == RETURN_VOID_OP {
            Self::ReturnVoid
        } else if op == RETURN_OP {
            Self::Return
        } else if op == RETURN_WIDE_OP {
            Self::ReturnWide
        } else {
            Self::ReturnObject
        }
    }
}

/// Which long or floating comparison an opcode of the compare family
/// performs, and how an unordered result is biased.
#[derive(Debug, Clone, Copy, PartialEq, Eq, Structural)]
pub enum CmpKind {
    CmplFloat,
    CmpgFloat,
    CmplDouble,
    CmpgDouble,
    CmpLong,
}

/// The comparison kind an opcode of the compare family stands for.
pub open spec fn spec_cmp_kind(op: u8) -> CmpKind {
    if op == CMPL_FLOAT_OP {
        CmpKind::CmplFloat
    } else if op == CMPG_FLOAT_OP {
        CmpKind::CmpgFloat
    } else if op == CMPL_DOUBLE_OP {
        CmpKind::CmplDouble
    } else if op == CMPG_DOUBLE_OP {
        CmpKind::CmpgDouble
    } else {
        CmpKind::CmpLong
    }
}

impl CmpKind {
    /// Classifies an opcode of the compare family.
    pub fn from_opcode(op: u8) -> (r: Self)
        requires
            CMPL_FLOAT_OP <= op <= CMP_LONG_OP,
        ensures
            r == spec_cmp_kind(op),
    {
        if op == CMPL_FLOAT_OP {
            Self::CmplFloat
        } else if op == CMPG_FLOAT_OP {
            Self::CmpgFloat
        } else if op == CMPL_DOUBLE_OP {
            Self::CmplDouble
        } else if op == CMPG_DOUBLE_OP {
            Self::CmpgDouble
        } else {
            Self::CmpLong
        }
    }
}

/// The test a conditional branch performs, shared by the two-register
/// and the register-against-zero forms.
#[derive(Debug, Clone, Copy, PartialEq, Eq, Structural)]
pub enum IfKind {
    Eq,
    Ne,
    It,
    Ge,
    Gt,
    Le,
}

/// The test kind an opcode of the conditional-branch family stands for.
pub open spec fn spec_if_kind(op: u8) -> IfKind {
    if op == IF_TEST_EQ_OP || op == IF_TESTZ_EQ_OP {
        IfKind::Eq
    } else if op == IF_TEST_NE_OP || op == IF_TESTZ_NE_OP {
        IfKind::Ne
    } else if op == IF_TEST_IT_OP || op == IF_TESTZ_IT_OP {
        IfKind::It
    } else if op == IF_TEST_GE_OP || op == IF_TESTZ_GE_OP {
        IfKind::Ge
    } else if op == IF_TEST_GT_OP || op == IF_TESTZ_GT_OP {
        IfKind::Gt
    } else {
        IfKind::Le
    }
}

impl IfKind {
    /// Classifies an opcode of the conditional-branch family.
    pub fn from_opcode(op: u8) -> (r: Self)
        requires
            IF_TEST_EQ_OP <= op <= IF_TESTZ_LE_OP,
        ensures
            r == spec_if_kind(op),
    {
        if op == IF_TEST_EQ_OP || op == IF_TESTZ_EQ_OP {
            Self::Eq
        } else if op == IF_TEST_NE_OP || op == IF_TESTZ_NE_OP {
            Self::Ne
        } else if op == IF_TEST_IT_OP || op == IF_TESTZ_IT_OP {
            Self::It
        } else if op == IF_TEST_GE_OP || op == IF_TESTZ_GE_OP {
            Self::Ge
        } else if op == IF_TEST_GT_OP || op == IF_TESTZ_GT_OP {
            Self::Gt
        } else {
            Self::Le
        }
    }
}

/// The typed get or put an array, instance-field or static-field access
/// performs.
#[derive(Debug, Clone, Copy, PartialEq, Eq, Structural)]
pub enum OpKind {
    Get,
    GetWide,
    GetObject,
    GetBoolean,
    GetByte,
    GetChar,
    GetShort,
    Put,
    PutWide,
    PutObject,
    PutBoolean,
    PutByte,
    PutChar,
    PutShort,
}

/// The access kind an opcode of the array, instance or static access
/// families stands for.
pub open spec fn spec_op_kind(op: u8) -> OpKind {
    if op == ARRAY_GET_OP || op == INSTANCE_GET_OP || op == STATIC_GET_OP {
        OpKind::Get
    } else if op == ARRAY_GET_WIDE_OP || op == INSTANCE_GET_WIDE_OP || op == STATIC_GET_WIDE_OP {
        OpKind::GetWide
    } else if op == ARRAY_GET_OBJECT_OP || op == INSTANCE_GET_OBJECT_OP || op
        == STATIC_GET_OBJECT_OP {
        OpKind::GetObject
    } else if op == ARRAY_GET_BOOLEAN_OP || op == INSTANCE_GET_BOOLEAN_OP || op
        == STATIC_GET_BOOLEAN_OP {
        OpKind::GetBoolean
    } else if op == ARRAY_GET_BYTE_OP || op == INSTANCE_GET_BYTE_OP || op == STATIC_GET_BYTE_OP {
        OpKind::GetByte
    } else if op == ARRAY_GET_CHAR_OP || op == INSTANCE_GET_CHAR_OP || op == STATIC_GET_CHAR_OP {
        OpKind::GetChar
    } else if op == ARRAY_GET_SHORT_OP || op == INSTANCE_GET_SHORT_OP || op
        == STATIC_GET_SHORT_OP {
        OpKind::GetShort
    } else if op == ARRAY_PUT_OP || op == INSTANCE_PUT_OP || op == STATIC_PUT_OP {
        OpKind::Put
    } else if op == ARRAY_PUT_WIDE_OP || op == INSTANCE_PUT_WIDE_OP || op == STATIC_PUT_WIDE_OP {
        OpKind::PutWide
    } else if op == ARRAY_PUT_OBJECT_OP || op == INSTANCE_PUT_OBJECT_OP || op
        == STATIC_PUT_OBJECT_OP {
        OpKind::PutObject
    } else if op == ARRAY_PUT_BOOLEAN_OP || op == INSTANCE_PUT_BOOLEAN_OP || op
        == STATIC_PUT_BOOLEAN_OP {
        OpKind::PutBoolean
    } else if op == ARRAY_PUT_BYTE_OP || op == INSTANCE_PUT_BYTE_OP || op == STATIC_PUT_BYTE_OP {
        OpKind::PutByte
    } else if op == ARRAY_PUT_CHAR_OP || op == INSTANCE_PUT_CHAR_OP || op == STATIC_PUT_CHAR_OP {
        OpKind::PutChar
    } else {
        OpKind::PutShort
    }
}

impl OpKind {
    /// Classifies an opcode of the array, instance or static access
    /// families.
    pub fn from_opcode(op: u8) -> (r: Self)
        requires
            ARRAY_GET_OP <= op <= STATIC_PUT_SHORT_OP,
        ensures
            r == spec_op_kind(op),
    {
        if op == ARRAY_GET_OP || op == INSTANCE_GET_OP || op == STATIC_GET_OP {
            Self::Get
        } else if op == ARRAY_GET_WIDE_OP || op == INSTANCE_GET_WIDE_OP || op
            == STATIC_GET_WIDE_OP {
            Self::GetWide
        } else if op == ARRAY_GET_OBJECT_OP || op == INSTANCE_GET_OBJECT_OP || op
            == STATIC_GET_OBJECT_OP {
            Self::GetObject
        } else if op == ARRAY_GET_BOOLEAN_OP || op == INSTANCE_GET_BOOLEAN_OP || op
            == STATIC_GET_BOOLEAN_OP {
            Self::GetBoolean
        } else if op == ARRAY_GET_BYTE_OP || op == INSTANCE_GET_BYTE_OP || op
            == STATIC_GET_BYTE_OP {
            Self::GetByte
        } else if op == ARRAY_GET_CHAR_OP || op == INSTANCE_GET_CHAR_OP || op
            == STATIC_GET_CHAR_OP {
            Self::GetChar
        } else if op == ARRAY_GET_SHORT_OP || op == INSTANCE_GET_SHORT_OP || op
            == STATIC_GET_SHORT_OP {
            Self::GetShort
        } else if op == ARRAY_PUT_OP || op == INSTANCE_PUT_OP || op == STATIC_PUT_OP {
            Self::Put
        } else if op == ARRAY_PUT_WIDE_OP || op == INSTANCE_PUT_WIDE_OP || op
            == STATIC_PUT_WIDE_OP {
            Self::PutWide
        } else if op == ARRAY_PUT_OBJECT_OP || op == INSTANCE_PUT_OBJECT_OP || op
            == STATIC_PUT_OBJECT_OP {
            Self::PutObject
        } else if op == ARRAY_PUT_BOOLEAN_OP || op == INSTANCE_PUT_BOOLEAN_OP || op
            == STATIC_PUT_BOOLEAN_OP {
            Self::PutBoolean
        } else if op == ARRAY_PUT_BYTE_OP || op == INSTANCE_PUT_BYTE_OP || op
            == STATIC_PUT_BYTE_OP {
            Self::PutByte
        } else if op == ARRAY_PUT_CHAR_OP || op == INSTANCE_PUT_CHAR_OP || op
            == STATIC_PUT_CHAR_OP {
            Self::PutChar
        } else {
            Self::PutShort
        }
    }
}

/// How a call-site instruction dispatches its target.
#[derive(Debug, Clone, Copy, PartialEq, Eq, Structural)]
pub enum InvokeKind {
    Virtual,
    Super,
    Direct,
    Static,
    Interface,
}

/// The dispatch kind an opcode of the invoke families stands for.
pub open spec fn spec_invoke_kind(op: u8) -> InvokeKind {
    if op == INVOKE_VIRTUAL_OP || op == INVOKE_VIRTUAL_RANGE_OP {
        InvokeKind::Virtual
    } else if op == INVOKE_SUPER_OP || op == INVOKE_SUPER_RANGE_OP {
        InvokeKind::Super
    } else if op == INVOKE_DIRECT_OP || op == INVOKE_DIRECT_RANGE_OP {
        InvokeKind::Direct
    } else if op == INVOKE_STATIC_OP || op == INVOKE_STATIC_RANGE_OP {
        InvokeKind::Static
    } else {
        InvokeKind::Interface
    }
}

impl InvokeKind {
    /// Classifies an opcode of the invoke families, plain or range form.
    pub fn from_opcode(op: u8) -> (r: Self)
        requires
            INVOKE_VIRTUAL_OP <= op <= INVOKE_INTERFACE_RANGE_OP,
            op != 0x73,
        ensures
            r == spec_invoke_kind(op),
    {
        if op == INVOKE_VIRTUAL_OP || op == INVOKE_VIRTUAL_RANGE_OP {
            Self::Virtual
        } else if op == INVOKE_SUPER_OP || op == INVOKE_SUPER_RANGE_OP {
            Self::Super
        } else if op == INVOKE_DIRECT_OP || op == INVOKE_DIRECT_RANGE_OP {
            Self::Direct
        } else if op == INVOKE_STATIC_OP || op == INVOKE_STATIC_RANGE_OP {
            Self::Static
        } else {
            Self::Interface
        }
    }
}

/// Which unary operation, negation or numeric conversion, a two-register
/// instruction performs.
#[derive(Debug, Clone, Copy, PartialEq, Eq, Structural)]
pub enum UnopKind {
    NegInt,
    NotInt,
    NegLong,
    NotLong,
    NegFloat,
    NegDouble,
    IntToLong,
    IntToFloat,
    IntToDouble,
    LongToInt,
    LongToFloat,
    LongToDouble,
    FloatToInt,
    FloatToLong,
    FloatToDouble,
    DoubleToInt,
    DoubleToLong,
    DoubleToFloat,
    IntToByte,
    IntToChar,
    IntToShort,
}

/// The unary operation an opcode of the unary family stands for.
pub open spec fn spec_unop_kind(op: u8) -> UnopKind {
    if op == NEG_INT_OP {
        UnopKind::NegInt
    } else if op == NOT_INT_OP {
        UnopKind::NotInt
    } else if op == NEG_LONG_OP {
        UnopKind::NegLong
    } else if op == NOT_LONG_OP {
        UnopKind::NotLong
    } else if op == NEG_FLOAT_OP {
        UnopKind::NegFloat
    } else if op == NEG_DOUBLE_OP {
        UnopKind::NegDouble
    } else if op == INT_TO_LONG_OP {
        UnopKind::IntToLong
    } else if op == INT_TO_FLOAT_OP {
        UnopKind::IntToFloat
    } else if op == INT_TO_DOUBLE_OP {
        UnopKind::IntToDouble
    } else if op == LONG_TO_INT_OP {
        UnopKind::LongToInt
    } else if op == LONG_TO_FLOAT_OP {
        UnopKind::LongToFloat
    } else if op == LONG_TO_DOUBLE_OP {
        UnopKind::LongToDouble
    } else if op == FLOAT_TO_INT_OP {
        UnopKind::FloatToInt
    } else if op == FLOAT_TO_LONG_OP {
        UnopKind::FloatToLong
    } else if op == FLOAT_TO_DOUBLE_OP {
        UnopKind::FloatToDouble
    } else if op == DOUBLE_TO_INT_OP {
        UnopKind::DoubleToInt
    } else if op == DOUBLE_TO_LONG_OP {
        UnopKind::DoubleToLong
    } else if op == DOUBLE_TO_FLOAT_OP {
        UnopKind::DoubleToFloat
    } else if op == INT_TO_BYTE_OP {
        UnopKind::IntToByte
    } else if op == INT_TO_CHAR_OP {
        UnopKind::IntToChar
    } else {
        UnopKind::IntToShort
    }
}

impl UnopKind {
    /// Classifies an opcode of the unary family.
    pub fn from_opcode(op: u8) -> (r: Self)
        requires
            NEG_INT_OP <= op <= INT_TO_SHORT_OP,
        ensures
            r == spec_unop_kind(op),
    {
        if op == NEG_INT_OP {
            Self::NegInt
        } else if op == NOT_INT_OP {
            Self::NotInt
        } else if op == NEG_LONG_OP {
            Self::NegLong
        } else if op == NOT_LONG_OP {
            Self::NotLong
        } else if op == NEG_FLOAT_OP {
            Self::NegFloat
        } else if op == NEG_DOUBLE_OP {
            Self::NegDouble
        } else if op == INT_TO_LONG_OP {
            Self::IntToLong
        } else if op == INT_TO_FLOAT_OP {
            Self::IntToFloat
        } else if op == INT_TO_DOUBLE_OP {
            Self::IntToDouble
        } else if op == LONG_TO_INT_OP {
            Self::LongToInt
        } else if op == LONG_TO_FLOAT_OP {
            Self::LongToFloat
        } else if op == LONG_TO_DOUBLE_OP {
            Self::LongToDouble
        } else if op == FLOAT_TO_INT_OP {
            Self::FloatToInt
        } else if op == FLOAT_TO_LONG_OP {
            Self::FloatToLong
        } else if op == FLOAT_TO_DOUBLE_OP {
            Self::FloatToDouble
        } else if op == DOUBLE_TO_INT_OP {
            Self::DoubleToInt
        } else if op == DOUBLE_TO_LONG_OP {
            Self::DoubleToLong
        } else if op == DOUBLE_TO_FLOAT_OP {
            Self::DoubleToFloat
        } else if op == INT_TO_BYTE_OP {
            Self::IntToByte
        } else if op == INT_TO_CHAR_OP {
            Self::IntToChar
        } else {
            Self::IntToShort
        }
    }
}

/// Which binary arithmetic, logic or shift operation an instruction
/// performs, shared by the plain, two-address and literal forms.
#[derive(Debug, Clone, Copy, PartialEq, Eq, Structural)]
pub enum ArithmeticKind {
    AddInt,
    SubInt,
    MulInt,
    DivInt,
    RemInt,
    AndInt,
    OrInt,
    XorInt,
    ShlInt,
    ShrInt,
    UshrInt,
    AddLong,
    SubLong,
    MulLong,
    DivLong,
    RemLong,
    AndLong,
    OrLong,
    XorLong,
    ShlLong,
    ShrLong,
    UshrLong,
    AddFloat,
    SubFloat,
    MulFloat,
    DivFloat,
    RemFloat,
    AddDouble,
    SubDouble,
    MulDouble,
    DivDouble,
    RemDouble,
    RSubInt,
}

/// The binary operation an opcode of the arithmetic families stands for.
pub open spec fn spec_arithmetic_kind(op: u8) -> ArithmeticKind {
    if op == ADD_INT_OP || op == ADD_INT_2ADDR_OP || op == ADD_INT_LIT16_OP || op
        == ADD_INT_LIT8_OP {
        ArithmeticKind::AddInt
    } else if op == SUB_INT_OP || op == SUB_INT_2ADDR_OP {
        ArithmeticKind::SubInt
    } else if op == MUL_INT_OP || op == MUL_INT_2ADDR_OP || op == MUL_INT_LIT16_OP || op
        == MUL_INT_LIT8_OP {
        ArithmeticKind::MulInt
    } else if op == DIV_INT_OP || op == DIV_INT_2ADDR_OP || op == DIV_INT_LIT16_OP || op
        == DIV_INT_LIT8_OP {
        ArithmeticKind::DivInt
    } else if op == REM_INT_OP || op == REM_INT_2ADDR_OP || op == REM_INT_LIT16_OP || op
        == REM_INT_LIT8_OP {
        ArithmeticKind::RemInt
    } else if op == AND_INT_OP || op == AND_INT_2ADDR_OP || op == AND_INT_LIT16_OP || op
        == AND_INT_LIT8_OP {
        ArithmeticKind::AndInt
    } else if op == OR_INT_OP || op == OR_INT_2ADDR_OP || op == OR_INT_LIT16_OP || op
        == OR_INT_LIT8_OP {
        ArithmeticKind::OrInt
    } else if op == XOR_INT_OP || op == XOR_INT_2ADDR_OP || op == XOR_INT_LIT16_OP || op
        == XOR_INT_LIT8_OP {
        ArithmeticKind::XorInt
    } else if op == SHL_INT_OP || op == SHL_INT_2ADDR_OP || op == SHL_INT_LIT8_OP {
        ArithmeticKind::ShlInt
    } else if op == SHR_INT_OP || op == SHR_INT_2ADDR_OP || op == SHR_INT_LIT8_OP {
        ArithmeticKind::ShrInt
    } else if op == USHR_INT_OP || op == USHR_INT_2ADDR_OP || op == USHR_INT_LIT8_OP {
        ArithmeticKind::UshrInt
    } else if op == ADD_LONG_OP || op == ADD_LONG_2ADDR_OP {
        ArithmeticKind::AddLong
    } else if op == SUB_LONG_OP || op == SUB_LONG_2ADDR_OP {
        ArithmeticKind::SubLong
    } else if op == MUL_LONG_OP || op == MUL_LONG_2ADDR_OP {
        ArithmeticKind::MulLong
    } else if op == DIV_LONG_OP || op == DIV_LONG_2ADDR_OP {
        ArithmeticKind::DivLong
    } else if op == REM_LONG_OP || op == REM_LONG_2ADDR_OP {
        ArithmeticKind::RemLong
    } else if op == AND_LONG_OP || op == AND_LONG_2ADDR_OP {
        ArithmeticKind::AndLong
    } else if op == OR_LONG_OP || op == OR_LONG_2ADDR_OP {
        ArithmeticKind::OrLong
    } else if op == XOR_LONG_OP || op == XOR_LONG_2ADDR_OP {
        ArithmeticKind::XorLong
    } else if op == SHL_LONG_OP || op == SHL_LONG_2ADDR_OP {
        ArithmeticKind::ShlLong
    } else if op == SHR_LONG_OP || op == SHR_LONG_2ADDR_OP {
        ArithmeticKind::ShrLong
    } else if op == USHR_LONG_OP || op == USHR_LONG_2ADDR_OP {
        ArithmeticKind::UshrLong
    } else if op == ADD_FLOAT_OP || op == ADD_FLOAT_2ADDR_OP {
        ArithmeticKind::AddFloat
    } else if op == SUB_FLOAT_OP || op == SUB_FLOAT_2ADDR_OP {
        ArithmeticKind::SubFloat
    } else if op == MUL_FLOAT_OP || op == MUL_FLOAT_2ADDR_OP {
        ArithmeticKind::MulFloat
    } else if op == DIV_FLOAT_OP || op == DIV_FLOAT_2ADDR_OP {
        ArithmeticKind::DivFloat
    } else if op == REM_FLOAT_OP || op == REM_FLOAT_2ADDR_OP {
        ArithmeticKind::RemFloat
    } else if op == ADD_DOUBLE_OP || op == ADD_DOUBLE_2ADDR_OP {
        ArithmeticKind::AddDouble
    } else if op == SUB_DOUBLE_OP || op == SUB_DOUBLE_2ADDR_OP {
        ArithmeticKind::SubDouble
    } else if op == MUL_DOUBLE_OP || op == MUL_DOUBLE_2ADDR_OP {
        ArithmeticKind::MulDouble
    } else if op == DIV_DOUBLE_OP || op == DIV_DOUBLE_2ADDR_OP {
        ArithmeticKind::DivDouble
    } else if op == REM_DOUBLE_OP || op == REM_DOUBLE_2ADDR_OP {
        ArithmeticKind::RemDouble
    } else {
        ArithmeticKind::RSubInt
    }
}

impl ArithmeticKind {
    /// Classifies an opcode of the arithmetic families: plain,
    /// two-address, 16-bit-literal or 8-bit-literal form.
    pub fn from_opcode(op: u8) -> (r: Self)
        requires
            ADD_INT_OP <= op <= USHR_INT_LIT8_OP,
        ensures
            r == spec_arithmetic_kind(op),
    {
        if op == ADD_INT_OP || op == ADD_INT_2ADDR_OP || op == ADD_INT_LIT16_OP || op
            == ADD_INT_LIT8_OP {
            Self::AddInt
        } else if op == SUB_INT_OP || op == SUB_INT_2ADDR_OP {
            Self::SubInt
        } else if op == MUL_INT_OP || op == MUL_INT_2ADDR_OP || op == MUL_INT_LIT16_OP || op
            == MUL_INT_LIT8_OP {
            Self::MulInt
        } else if op == DIV_INT_OP || op == DIV_INT_2ADDR_OP || op == DIV_INT_LIT16_OP || op
            == DIV_INT_LIT8_OP {
            Self::DivInt
        } else if op == REM_INT_OP || op == REM_INT_2ADDR_OP || op == REM_INT_LIT16_OP || op
            == REM_INT_LIT8_OP {
            Self::RemInt
        } else if op == AND_INT_OP || op == AND_INT_2ADDR_OP || op == AND_INT_LIT16_OP || op
            == AND_INT_LIT8_OP {
            Self::AndInt
        } else if op == OR_INT_OP || op == OR_INT_2ADDR_OP || op == OR_INT_LIT16_OP || op
            == OR_INT_LIT8_OP {
            Self::OrInt
        } else if op == XOR_INT_OP || op == XOR_INT_2ADDR_OP || op == XOR_INT_LIT16_OP || op
            == XOR_INT_LIT8_OP {
            Self::XorInt
        } else if op == SHL_INT_OP || op == SHL_INT_2ADDR_OP || op == SHL_INT_LIT8_OP {
            Self::ShlInt
        } else if op == SHR_INT_OP || op == SHR_INT_2ADDR_OP || op == SHR_INT_LIT8_OP {
            Self::ShrInt
        } else if op == USHR_INT_OP || op == USHR_INT_2ADDR_OP || op == USHR_INT_LIT8_OP {
            Self::UshrInt
        } else if op == ADD_LONG_OP || op == ADD_LONG_2ADDR_OP {
            Self::AddLong
        } else if op == SUB_LONG_OP || op == SUB_LONG_2ADDR_OP {
            Self::SubLong
        } else if op == MUL_LONG_OP || op == MUL_LONG_2ADDR_OP {
            Self::MulLong
        } else if op == DIV_LONG_OP || op == DIV_LONG_2ADDR_OP {
            Self::DivLong
        } else if op == REM_LONG_OP || op == REM_LONG_2ADDR_OP {
            Self::RemLong
        } else if op == AND_LONG_OP || op == AND_LONG_2ADDR_OP {
            Self::AndLong
        } else if op == OR_LONG_OP || op == OR_LONG_2ADDR_OP {
            Self::OrLong
        } else if op == XOR_LONG_OP || op == XOR_LONG_2ADDR_OP {
            Self::XorLong
        } else if op == SHL_LONG_OP || op == SHL_LONG_2ADDR_OP {
            Self::ShlLong
        } else if op == SHR_LONG_OP || op == SHR_LONG_2ADDR_OP {
            Self::ShrLong
        } else if op == USHR_LONG_OP || op == USHR_LONG_2ADDR_OP {
            Self::UshrLong
        } else if op == ADD_FLOAT_OP || op == ADD_FLOAT_2ADDR_OP {
            Self::AddFloat
        } else if op == SUB_FLOAT_OP || op == SUB_FLOAT_2ADDR_OP {
            Self::SubFloat
        } else if op == MUL_FLOAT_OP || op == MUL_FLOAT_2ADDR_OP {
            Self::MulFloat
        } else if op == DIV_FLOAT_OP || op == DIV_FLOAT_2ADDR_OP {
            Self::DivFloat
        } else if op == REM_FLOAT_OP || op == REM_FLOAT_2ADDR_OP {
            Self::RemFloat
        } else if op == ADD_DOUBLE_OP || op == ADD_DOUBLE_2ADDR_OP {
            Self::AddDouble
        } else if op == SUB_DOUBLE_OP || op == SUB_DOUBLE_2ADDR_OP {
            Self::SubDouble
        } else if op == MUL_DOUBLE_OP || op == MUL_DOUBLE_2ADDR_OP {
            Self::MulDouble
        } else if op == DIV_DOUBLE_OP || op == DIV_DOUBLE_2ADDR_OP {
            Self::DivDouble
        } else if op == REM_DOUBLE_OP || op == REM_DOUBLE_2ADDR_OP {
            Self::RemDouble
        } else {
            Self::RSubInt
        }
    }
}

} // verus!
