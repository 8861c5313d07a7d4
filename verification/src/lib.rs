//! Decoder for the raw instruction stream of a Dalvik (DEX) method body.
//!
//! Given the opaque byte payload of one method, the decoder recovers the
//! sequence of typed instructions it contains, each tagged with the byte
//! offset at which its opcode was found.  Constant-pool, type and method
//! indices are returned as opaque numbers; resolving them, as well as any
//! textual rendering, is left to the caller.

pub mod errors;
pub mod opcodes;
pub mod reader;

use vstd::prelude::*;

use crate::errors::DecodeError;
use crate::opcodes::{
    spec_arithmetic_kind, spec_cmp_kind, spec_if_kind, spec_invoke_kind, spec_move_kind,
    spec_op_kind, spec_return_kind, spec_unop_kind, ArithmeticKind, CmpKind, DalvikBytecode,
    DalvikBytecodeView, IfKind, InvokeKind, MoveKind, OpKind, ReturnKind, UnopKind,
    ADD_INT_2ADDR_OP, ADD_INT_LIT16_OP, ADD_INT_LIT8_OP, ADD_INT_OP, ARRAY_GET_OP,
    ARRAY_LENGTH_OP, ARRAY_PUT_SHORT_OP, CHECK_CAST_OP, CMPL_FLOAT_OP, CMP_LONG_OP, CONST16_OP,
    CONST4_OP, CONST_CLASS_OP, CONST_HIGH16_OP, CONST_METHOD_HANDLE_OP, CONST_METHOD_TYPE_OP,
    CONST_OP, CONST_STRING_JUMBO_OP, CONST_STRING_OP, CONST_WIDE16_OP, CONST_WIDE32_OP,
    CONST_WIDE_HIGH16_OP, CONST_WIDE_OP, FILLED_NEW_ARRAY_OP, FILLED_NEW_ARRAY_RANGE_OP,
    FILL_ARRAY_DATA_OP, GOTO16_OP, GOTO32_OP, GOTO_OP, IF_TESTZ_EQ_OP, IF_TESTZ_LE_OP,
    IF_TEST_EQ_OP, IF_TEST_LE_OP, INSTANCE_GET_OP, INSTANCE_OF_OP, INSTANCE_PUT_SHORT_OP,
    INT_TO_SHORT_OP, INVOKE_CUSTOM_OP, INVOKE_CUSTOM_RANGE_OP, INVOKE_INTERFACE_OP,
    INVOKE_INTERFACE_RANGE_OP, INVOKE_POLYMORPHIC_OP, INVOKE_POLYMORPHIC_RANGE_OP,
    INVOKE_VIRTUAL_OP, INVOKE_VIRTUAL_RANGE_OP, MONITOR_ENTER_OP, MONITOR_EXIT_OP, MOV16_OP,
    MOV_EXCEPTION_OP, MOV_FROM16_OP, MOV_OBJECT16_OP, MOV_OBJECT_FROM16_OP, MOV_OBJECT_OP, MOV_OP,
    MOV_RESULT_OBJECT_OP, MOV_RESULT_OP, MOV_RESULT_WIDE_OP, MOV_WIDE16_OP, MOV_WIDE_FROM16_OP,
    MOV_WIDE_OP, NEG_INT_OP, NEW_ARRAY_OP, NEW_INSTANCE_OP, NOP_OP, PACKED_SWITCH_OP,
    REM_DOUBLE_2ADDR_OP, REM_DOUBLE_OP, RETURN_OBJECT_OP, RETURN_OP, RETURN_VOID_OP,
    RETURN_WIDE_OP, SPARSE_SWITCH_OP, STATIC_GET_OP, STATIC_PUT_SHORT_OP, THROW_OP,
    USHR_INT_LIT8_OP, XOR_INT_LIT16_OP,
};
use crate::reader::{
    call_site_regs, nib_high, nib_low, sign16, sign32, sign4, sign8, unit16, unit32, unit64,
    DexInstructionFormatReader,
};

verus! {

/// Whether a byte value is the opcode of some decodable instruction.
pub open spec fn opcode_recognized(op: u8) -> bool {
    ||| op <= IF_TESTZ_LE_OP
    ||| ARRAY_GET_OP <= op <= INVOKE_INTERFACE_OP
    ||| INVOKE_VIRTUAL_RANGE_OP <= op <= INVOKE_INTERFACE_RANGE_OP
    ||| NEG_INT_OP <= op <= USHR_INT_LIT8_OP
    ||| op >= INVOKE_POLYMORPHIC_OP
}

/// How many bytes an instruction with this opcode occupies, the opcode
/// byte included.
pub open spec fn opcode_len(op: u8) -> int
    recommends
        opcode_recognized(op),
{
    if op == NOP_OP || op == RETURN_VOID_OP {
        1
    } else if op == MOV_OP || op == MOV_WIDE_OP || op == MOV_OBJECT_OP {
        2
    } else if op == MOV_FROM16_OP || op == MOV_WIDE_FROM16_OP || op == MOV_OBJECT_FROM16_OP {
        4
    } else if op == MOV16_OP || op == MOV_WIDE16_OP || op == MOV_OBJECT16_OP {
        6
    } else if MOV_RESULT_OP <= op <= MOV_EXCEPTION_OP {
        2
    } else if RETURN_OP <= op <= RETURN_OBJECT_OP {
        2
    } else if op == CONST4_OP {
        2
    } else if op == CONST16_OP || op == CONST_HIGH16_OP || op == CONST_WIDE16_OP || op
        == CONST_WIDE_HIGH16_OP {
        4
    } else if op == CONST_OP || op == CONST_WIDE32_OP {
        6
    } else if op == CONST_WIDE_OP {
        10
    } else if op == CONST_STRING_OP || op == CONST_CLASS_OP {
        4
    } else if op == CONST_STRING_JUMBO_OP {
        6
    } else if op == MONITOR_ENTER_OP || op == MONITOR_EXIT_OP {
        2
    } else if op == CHECK_CAST_OP || op == INSTANCE_OF_OP {
        4
    } else if op == ARRAY_LENGTH_OP {
        2
    } else if op == NEW_INSTANCE_OP || op == NEW_ARRAY_OP {
        4
    } else if op == FILLED_NEW_ARRAY_OP || op == FILLED_NEW_ARRAY_RANGE_OP || op
        == FILL_ARRAY_DATA_OP {
        6
    } else if op == THROW_OP || op == GOTO_OP {
        2
    } else if op == GOTO16_OP {
        4
    } else if op == GOTO32_OP || op == PACKED_SWITCH_OP || op == SPARSE_SWITCH_OP {
        6
    } else if CMPL_FLOAT_OP <= op <= CMP_LONG_OP {
        4
    } else if IF_TEST_EQ_OP <= op <= IF_TESTZ_LE_OP {
        4
    } else if ARRAY_GET_OP <= op <= STATIC_PUT_SHORT_OP {
        4
    } else if INVOKE_VIRTUAL_OP <= op <= INVOKE_INTERFACE_OP {
        6
    } else if INVOKE_VIRTUAL_RANGE_OP <= op <= INVOKE_INTERFACE_RANGE_OP {
        6
    } else if NEG_INT_OP <= op <= INT_TO_SHORT_OP {
        2
    } else if ADD_INT_OP <= op <= REM_DOUBLE_OP {
        4
    } else if ADD_INT_2ADDR_OP <= op <= REM_DOUBLE_2ADDR_OP {
        2
    } else if ADD_INT_LIT16_OP <= op <= XOR_INT_LIT16_OP {
        4
    } else if ADD_INT_LIT8_OP <= op <= USHR_INT_LIT8_OP {
        4
    } else if op == INVOKE_POLYMORPHIC_OP || op == INVOKE_POLYMORPHIC_RANGE_OP {
        8
    } else if op == INVOKE_CUSTOM_OP || op == INVOKE_CUSTOM_RANGE_OP {
        6
    } else {
        4
    }
}

/// The instruction whose opcode byte sits at `i`.  Meaningful when the
/// opcode is recognized and the whole instruction fits in the stream.
pub open spec fn spec_instruction(s: Seq<u8>, i: int) -> DalvikBytecodeView
    recommends
        0 <= i < s.len(),
        opcode_recognized(s[i]),
        i + opcode_len(s[i]) <= s.len(),
{
    let op = s[i];
    let p = i + 1;
    if op == NOP_OP {
        DalvikBytecodeView::Nop
    } else if op == MOV_OP || op == MOV_WIDE_OP || op == MOV_OBJECT_OP {
        DalvikBytecodeView::Move(spec_move_kind(op), nib_low(s[p]), nib_high(s[p]))
    } else if op == MOV_FROM16_OP || op == MOV_WIDE_FROM16_OP || op == MOV_OBJECT_FROM16_OP {
        DalvikBytecodeView::MoveFrom16(spec_move_kind(op), s[p], unit16(s, p + 1))
    } else if op == MOV16_OP || op == MOV_WIDE16_OP || op == MOV_OBJECT16_OP {
        DalvikBytecodeView::Move16(spec_move_kind(op), unit16(s, p + 1), unit16(s, p + 3))
    } else if MOV_RESULT_OP <= op <= MOV_EXCEPTION_OP {
        DalvikBytecodeView::MoveResult(spec_move_kind(op), s[p])
    } else if op == RETURN_VOID_OP {
        DalvikBytecodeView::Return(ReturnKind::ReturnVoid, 0)
    } else if RETURN_OP <= op <= RETURN_OBJECT_OP {
        DalvikBytecodeView::Return(spec_return_kind(op), s[p])
    } else if op == CONST4_OP {
        DalvikBytecodeView::Const4(nib_low(s[p]), sign4(nib_high(s[p])))
    } else if op == CONST16_OP {
        DalvikBytecodeView::Const16(s[p], sign16(unit16(s, p + 1)))
    } else if op == CONST_OP {
        DalvikBytecodeView::Const(s[p], sign32(unit32(s, p + 1)))
    } else if op == CONST_HIGH16_OP {
        DalvikBytecodeView::ConstHigh16(s[p], sign16(unit16(s, p + 1)))
    } else if op == CONST_WIDE16_OP {
        DalvikBytecodeView::ConstWide16(s[p], sign16(unit16(s, p + 1)))
    } else if op == CONST_WIDE32_OP {
        DalvikBytecodeView::ConstWide32(s[p], sign32(unit32(s, p + 1)))
    } else if op == CONST_WIDE_OP {
        DalvikBytecodeView::ConstWide(s[p], unit64(s, p + 1))
    } else if op == CONST_WIDE_HIGH16_OP {
        DalvikBytecodeView::ConstWideHigh16(s[p], sign16(unit16(s, p + 1)))
    } else if op == CONST_STRING_OP {
        DalvikBytecodeView::ConstString(s[p], unit16(s, p + 1))
    } else if op == CONST_STRING_JUMBO_OP {
        DalvikBytecodeView::ConstStringJumbo(s[p], unit32(s, p + 1))
    } else if op == CONST_CLASS_OP {
        DalvikBytecodeView::ConstClass(s[p], unit16(s, p + 1))
    } else if op == MONITOR_ENTER_OP {
        DalvikBytecodeView::MonitorEnter(s[p])
    } else if op == MONITOR_EXIT_OP {
        DalvikBytecodeView::MonitorExit(s[p])
    } else if op == CHECK_CAST_OP {
        DalvikBytecodeView::ConstClass(s[p], unit16(s, p + 1))
    } else if op == INSTANCE_OF_OP {
        DalvikBytecodeView::InstanceOf(nib_low(s[p]), nib_high(s[p]), unit16(s, p + 1))
    } else if op == ARRAY_LENGTH_OP {
        DalvikBytecodeView::ArrayLength(nib_low(s[p]), nib_high(s[p]))
    } else if op == NEW_INSTANCE_OP {
        DalvikBytecodeView::NewInstance(s[p], unit16(s, p + 1))
    } else if op == NEW_ARRAY_OP {
        DalvikBytecodeView::NewArray(nib_low(s[p]), nib_high(s[p]), unit16(s, p + 1))
    } else if op == FILLED_NEW_ARRAY_OP {
        DalvikBytecodeView::FilledNewArray(unit16(s, p + 1), call_site_regs(s, p))
    } else if op == FILLED_NEW_ARRAY_RANGE_OP {
        DalvikBytecodeView::FilledNewArrayRange(s[p], unit16(s, p + 1), unit16(s, p + 3))
    } else if op == FILL_ARRAY_DATA_OP {
        DalvikBytecodeView::FilledArrayData(s[p], sign32(unit32(s, p + 1)))
    } else if op == THROW_OP {
        DalvikBytecodeView::Throw(s[p])
    } else if op == GOTO_OP {
        DalvikBytecodeView::Goto(sign8(s[p]))
    } else if op == GOTO16_OP {
        DalvikBytecodeView::Goto16(sign16(unit16(s, p + 1)))
    } else if op == GOTO32_OP {
        DalvikBytecodeView::Goto32(sign32(unit32(s, p + 1)))
    } else if op == PACKED_SWITCH_OP {
        DalvikBytecodeView::PackedSwitch(s[p], sign32(unit32(s, p + 1)))
    } else if op == SPARSE_SWITCH_OP {
        DalvikBytecodeView::SparseSwitch(s[p], sign32(unit32(s, p + 1)))
    } else if CMPL_FLOAT_OP <= op <= CMP_LONG_OP {
        DalvikBytecodeView::Cmp(spec_cmp_kind(op), s[p], s[p + 1], s[p + 2])
    } else if IF_TEST_EQ_OP <= op <= IF_TEST_LE_OP {
        DalvikBytecodeView::IfTest(
            spec_if_kind(op),
            nib_low(s[p]),
            nib_high(s[p]),
            sign16(unit16(s, p + 1)),
        )
    } else if IF_TESTZ_EQ_OP <= op <= IF_TESTZ_LE_OP {
        DalvikBytecodeView::IfTestZ(spec_if_kind(op), s[p], sign16(unit16(s, p + 1)))
    } else if ARRAY_GET_OP <= op <= ARRAY_PUT_SHORT_OP {
        DalvikBytecodeView::ArrayOp(spec_op_kind(op), s[p], s[p + 1], s[p + 2])
    } else if INSTANCE_GET_OP <= op <= INSTANCE_PUT_SHORT_OP {
        DalvikBytecodeView::InstanceOp(
            spec_op_kind(op),
            nib_low(s[p]),
            nib_high(s[p]),
            unit16(s, p + 1),
        )
    } else if STATIC_GET_OP <= op <= STATIC_PUT_SHORT_OP {
        DalvikBytecodeView::StaticOp(spec_op_kind(op), s[p], unit16(s, p + 1))
    } else if INVOKE_VIRTUAL_OP <= op <= INVOKE_INTERFACE_OP {
        DalvikBytecodeView::Invoke(spec_invoke_kind(op), call_site_regs(s, p), unit16(s, p + 1))
    } else if INVOKE_VIRTUAL_RANGE_OP <= op <= INVOKE_INTERFACE_RANGE_OP {
        DalvikBytecodeView::InvokeRange(
            spec_invoke_kind(op),
            s[p],
            unit16(s, p + 1),
            unit16(s, p + 3),
        )
    } else if NEG_INT_OP <= op <= INT_TO_SHORT_OP {
        DalvikBytecodeView::Unop(spec_unop_kind(op), nib_low(s[p]), nib_high(s[p]))
    } else if ADD_INT_OP <= op <= REM_DOUBLE_OP {
        DalvikBytecodeView::Binop(spec_arithmetic_kind(op), s[p], s[p + 1], s[p + 2])
    } else if ADD_INT_2ADDR_OP <= op <= REM_DOUBLE_2ADDR_OP {
        DalvikBytecodeView::Binop2Addr(spec_arithmetic_kind(op), nib_low(s[p]), nib_high(s[p]))
    } else if ADD_INT_LIT16_OP <= op <= XOR_INT_LIT16_OP {
        DalvikBytecodeView::BinopLit16(
            spec_arithmetic_kind(op),
            nib_low(s[p]),
            nib_high(s[p]),
            sign16(unit16(s, p + 1)),
        )
    } else if ADD_INT_LIT8_OP <= op <= USHR_INT_LIT8_OP {
        DalvikBytecodeView::BinopLit8(spec_arithmetic_kind(op), s[p], s[p + 1], sign8(s[p + 2]))
    } else if op == INVOKE_POLYMORPHIC_OP {
        DalvikBytecodeView::InvokePolymorphic(
            call_site_regs(s, p),
            unit16(s, p + 1),
            unit16(s, p + 5),
        )
    } else if op == INVOKE_POLYMORPHIC_RANGE_OP {
        DalvikBytecodeView::InvokePolymorphicRange(
            s[p],
            unit16(s, p + 1),
            unit16(s, p + 3),
            unit16(s, p + 5),
        )
    } else if op == INVOKE_CUSTOM_OP {
        DalvikBytecodeView::InvokeCustom(call_site_regs(s, p), unit16(s, p + 1))
    } else if op == INVOKE_CUSTOM_RANGE_OP {
        DalvikBytecodeView::InvokeCustomRange(s[p], unit16(s, p + 1), unit16(s, p + 3))
    } else if op == CONST_METHOD_HANDLE_OP {
        DalvikBytecodeView::ConstMethodHandle(s[p], unit16(s, p + 1))
    } else {
        DalvikBytecodeView::ConstMethodType(s[p], unit16(s, p + 1))
    }
}

/// Whether one more instruction can be decoded at position `i`: the
/// opcode byte exists, is recognized, and its whole format fits.
pub open spec fn can_step(s: Seq<u8>, i: int) -> bool {
    &&& 0 <= i < s.len()
    &&& opcode_recognized(s[i])
    &&& i + opcode_len(s[i]) <= s.len()
}

/// One decoded instruction together with the stream offset of its
/// opcode byte, at the specification level.
pub struct DalvikInstructionView {
    pub inst: DalvikBytecodeView,
    pub offset: int,
}

/// The full decode of the stream from position `i` on: one instruction
/// per step, stopping at end of stream, at the first unrecognized
/// opcode, or where a format would run past the end.
pub open spec fn spec_decode_all(s: Seq<u8>, i: int) -> Seq<DalvikInstructionView>
    decreases s.len() - i,
    when i >= 0
{
    if !can_step(s, i) {
        Seq::empty()
    } else {
        seq![DalvikInstructionView { inst: spec_instruction(s, i), offset: i }]
            + spec_decode_all(s, i + opcode_len(s[i]))
    }
}

/// One decoded instruction together with the byte offset, from the
/// start of the stream, at which its opcode byte was found.
#[derive(Debug, PartialEq, Eq)]
pub struct DalvikInstruction {
    pub inst: DalvikBytecode,
    pub offset: usize,
}

impl View for DalvikInstruction {
    type V = DalvikInstructionView;

    open spec fn view(&self) -> DalvikInstructionView {
        DalvikInstructionView { inst: self.inst@, offset: self.offset as int }
    }
}

impl DalvikInstruction {
    /// Decodes the next instruction and the offset it starts at, or
    /// reports why none could be decoded: `UnexpectedEndOfStream` when
    /// the stream is exhausted or a format runs past its end,
    /// `UnrecognizedOpcode` when the opcode byte matches no instruction.
    #[verifier::rlimit(100)]
    #[verifier::spinoff_prover]
    pub fn decode_instruction(reader: &mut DexInstructionFormatReader) -> (r: Result<
        Self,
        DecodeError,
    >)
        requires
            old(reader).wf(),
        ensures
            final(reader).wf(),
            final(reader).stream() == old(reader).stream(),
            can_step(old(reader).stream(), old(reader).pos()) ==> (r matches Ok(di) && di@.inst
                == spec_instruction(old(reader).stream(), old(reader).pos()) && di@.offset == old(
                reader,
            ).pos() && final(reader).pos() == old(reader).pos() + opcode_len(
                old(reader).stream()[old(reader).pos()],
            )),
            !can_step(old(reader).stream(), old(reader).pos()) ==> (r matches Err(e) && (e
                == DecodeError::UnrecognizedOpcode <==> (old(reader).pos() < old(
                reader,
            ).stream().len() && !opcode_recognized(old(reader).stream()[old(reader).pos()])))),
    {
        let (opcode, offset) = reader.read_byte()?;

        let dalvik_bytecode: Result<DalvikBytecode, DecodeError> = if opcode == NOP_OP {
            reader.r_10x();
            Ok(DalvikBytecode::Nop)
        } else if opcode == MOV_OP || opcode == MOV_WIDE_OP || opcode == MOV_OBJECT_OP {
            let (dst, src) = reader.r_12x()?;
            Ok(DalvikBytecode::Move(MoveKind::from_opcode(opcode), dst, src))
        } else if opcode == MOV_FROM16_OP || opcode == MOV_WIDE_FROM16_OP || opcode
            == MOV_OBJECT_FROM16_OP {
            let (dst, src) = reader.r_22x()?;
            Ok(DalvikBytecode::MoveFrom16(MoveKind::from_opcode(opcode), dst, src))
        } else if opcode == MOV16_OP || opcode == MOV_WIDE16_OP || opcode == MOV_OBJECT16_OP {
            let (dst, src) = reader.r_32x()?;
            Ok(DalvikBytecode::Move16(MoveKind::from_opcode(opcode), dst, src))
        } else if opcode == MOV_RESULT_OP || opcode == MOV_RESULT_WIDE_OP || opcode
            == MOV_RESULT_OBJECT_OP || opcode == MOV_EXCEPTION_OP {
            let reg = reader.r_11x()?;
            Ok(DalvikBytecode::MoveResult(MoveKind::from_opcode(opcode), reg))
        } else if opcode == RETURN_VOID_OP {
            reader.r_10x();
            Ok(DalvikBytecode::Return(ReturnKind::ReturnVoid, 0))
        } else if opcode == RETURN_OP || opcode == RETURN_WIDE_OP || opcode == RETURN_OBJECT_OP {
            let reg = reader.r_11x()?;
            Ok(DalvikBytecode::Return(ReturnKind::from_opcode(opcode), reg))
        } else if opcode == CONST4_OP {
            let (reg, value) = reader.r_11n()?;
            Ok(DalvikBytecode::Const4(reg, value))
        } else if opcode == CONST16_OP {
            let (reg, value) = reader.r_21s()?;
            Ok(DalvikBytecode::Const16(reg, value))
        } else if opcode == CONST_OP {
            let (reg, value) = reader.r_31i()?;
            Ok(DalvikBytecode::Const(reg, value))
        } else if opcode == CONST_HIGH16_OP {
            let (reg, value) = reader.r_21h()?;
            Ok(DalvikBytecode::ConstHigh16(reg, value))
        } else if opcode == CONST_WIDE16_OP {
            let (reg, value) = reader.r_21s()?;
            Ok(DalvikBytecode::ConstWide16(reg, value))
        } else if opcode == CONST_WIDE32_OP {
            let (reg, value) = reader.r_31i()?;
            Ok(DalvikBytecode::ConstWide32(reg, value))
        } else if opcode == CONST_WIDE_OP {
            let (reg, value) = reader.r_51()?;
            Ok(DalvikBytecode::ConstWide(reg, value))
        } else if opcode == CONST_WIDE_HIGH16_OP {
            let (reg, value) = reader.r_21h()?;
            Ok(DalvikBytecode::ConstWideHigh16(reg, value))
        } else if opcode == CONST_STRING_OP {
            let (reg, str_index) = reader.r_21c()?;
            Ok(DalvikBytecode::ConstString(reg, str_index))
        } else if opcode == CONST_STRING_JUMBO_OP {
            let (reg, str_index) = reader.r_31c()?;
            Ok(DalvikBytecode::ConstStringJumbo(reg, str_index))
        } else if opcode == CONST_CLASS_OP {
            let (reg, type_index) = reader.r_21c()?;
            Ok(DalvikBytecode::ConstClass(reg, type_index))
        } else if opcode == MONITOR_ENTER_OP {
            let reg = reader.r_11x()?;
            Ok(DalvikBytecode::MonitorEnter(reg))
        } else if opcode == MONITOR_EXIT_OP {
            let reg = reader.r_11x()?;
            Ok(DalvikBytecode::MonitorExit(reg))
        } else if opcode == CHECK_CAST_OP {
            let (reg, type_index) = reader.r_21c()?;
            Ok(DalvikBytecode::ConstClass(reg, type_index))
        } else if opcode == INSTANCE_OF_OP {
            let (dst, src, type_index) = reader.r_22c()?;
            Ok(DalvikBytecode::InstanceOf(dst, src, type_index))
        } else if opcode == ARRAY_LENGTH_OP {
            let (dst, src) = reader.r_12x()?;
            Ok(DalvikBytecode::ArrayLength(dst, src))
        } else if opcode == NEW_INSTANCE_OP {
            let (dst, type_index) = reader.r_21c()?;
            Ok(DalvikBytecode::NewInstance(dst, type_index))
        } else if opcode == NEW_ARRAY_OP {
            let (dst, src, type_index) = reader.r_22c()?;
            Ok(DalvikBytecode::NewArray(dst, src, type_index))
        } else if opcode == FILLED_NEW_ARRAY_OP {
            let (argument_regs, type_index) = reader.r_35c()?;
            Ok(DalvikBytecode::FilledNewArray(type_index, argument_regs))
        } else if opcode == FILLED_NEW_ARRAY_RANGE_OP {
            let (regs_count, type_index, first_argument_reg) = reader.r_3rc()?;
            Ok(DalvikBytecode::FilledNewArrayRange(regs_count, type_index, first_argument_reg))
        } else if opcode == FILL_ARRAY_DATA_OP {
            let (reg, value) = reader.r_31t()?;
            Ok(DalvikBytecode::FilledArrayData(reg, value))
        } else if opcode == THROW_OP {
            let reg = reader.r_11x()?;
            Ok(DalvikBytecode::Throw(reg))
        } else if opcode == GOTO_OP {
            let delta = reader.r_10t()?;
            Ok(DalvikBytecode::Goto(delta))
        } else if opcode == GOTO16_OP {
            let delta = reader.r_20t()?;
            Ok(DalvikBytecode::Goto16(delta))
        } else if opcode == GOTO32_OP {
            let delta = reader.r_30t()?;
            Ok(DalvikBytecode::Goto32(delta))
        } else if opcode == PACKED_SWITCH_OP {
            let (reg, value) = reader.r_31t()?;
            Ok(DalvikBytecode::PackedSwitch(reg, value))
        } else if opcode == SPARSE_SWITCH_OP {
            let (reg, value) = reader.r_31t()?;
            Ok(DalvikBytecode::SparseSwitch(reg, value))
        } else if CMPL_FLOAT_OP <= opcode && opcode <= CMP_LONG_OP {
            let (dst, src1, src2) = reader.r_23x()?;
            Ok(DalvikBytecode::Cmp(CmpKind::from_opcode(opcode), dst, src1, src2))
        } else if IF_TEST_EQ_OP <= opcode && opcode <= IF_TEST_LE_OP {
            let (reg1, reg2, offset) = reader.r_22t()?;
            Ok(DalvikBytecode::IfTest(IfKind::from_opcode(opcode), reg1, reg2, offset))
        } else if IF_TESTZ_EQ_OP <= opcode && opcode <= IF_TESTZ_LE_OP {
            let (reg, offset) = reader.r_21t()?;
            Ok(DalvikBytecode::IfTestZ(IfKind::from_opcode(opcode), reg, offset))
        } else if ARRAY_GET_OP <= opcode && opcode <= ARRAY_PUT_SHORT_OP {
            let (reg1, reg2, reg3) = reader.r_23x()?;
            Ok(DalvikBytecode::ArrayOp(OpKind::from_opcode(opcode), reg1, reg2, reg3))
        } else if INSTANCE_GET_OP <= opcode && opcode <= INSTANCE_PUT_SHORT_OP {
            let (reg1, reg2, field_index) = reader.r_22c()?;
            Ok(DalvikBytecode::InstanceOp(OpKind::from_opcode(opcode), reg1, reg2, field_index))
        } else if STATIC_GET_OP <= opcode && opcode <= STATIC_PUT_SHORT_OP {
            let (reg, field_index) = reader.r_21c()?;
            Ok(DalvikBytecode::StaticOp(OpKind::from_opcode(opcode), reg, field_index))
        } else if INVOKE_VIRTUAL_OP <= opcode && opcode <= INVOKE_INTERFACE_OP {
            let (regs, meth_id) = reader.r_35c()?;
            Ok(DalvikBytecode::Invoke(InvokeKind::from_opcode(opcode), regs, meth_id))
        } else if INVOKE_VIRTUAL_RANGE_OP <= opcode && opcode <= INVOKE_INTERFACE_RANGE_OP {
            let (reg, reg_count, meth_id) = reader.r_3rc()?;
            Ok(DalvikBytecode::InvokeRange(InvokeKind::from_opcode(opcode), reg, reg_count, meth_id))
        } else if NEG_INT_OP <= opcode && opcode <= INT_TO_SHORT_OP {
            let (dst, src) = reader.r_12x()?;
            Ok(DalvikBytecode::Unop(UnopKind::from_opcode(opcode), dst, src))
        } else if ADD_INT_OP <= opcode && opcode <= REM_DOUBLE_OP {
            let (dst, src1, src2) = reader.r_23x()?;
            Ok(DalvikBytecode::Binop(ArithmeticKind::from_opcode(opcode), dst, src1, src2))
        } else if ADD_INT_2ADDR_OP <= opcode && opcode <= REM_DOUBLE_2ADDR_OP {
            let (dst, src) = reader.r_12x()?;
            Ok(DalvikBytecode::Binop2Addr(ArithmeticKind::from_opcode(opcode), dst, src))
        } else if ADD_INT_LIT16_OP <= opcode && opcode <= XOR_INT_LIT16_OP {
            let (dst, src, value) = reader.r_22s()?;
            Ok(DalvikBytecode::BinopLit16(ArithmeticKind::from_opcode(opcode), dst, src, value))
        } else if ADD_INT_LIT8_OP <= opcode && opcode <= USHR_INT_LIT8_OP {
            let (dst, src, value) = reader.r_22b()?;
            Ok(DalvikBytecode::BinopLit8(ArithmeticKind::from_opcode(opcode), dst, src, value))
        } else if opcode == INVOKE_POLYMORPHIC_OP {
            let (regs, meth_id, proto_id) = reader.r_45cc()?;
            Ok(DalvikBytecode::InvokePolymorphic(regs, meth_id, proto_id))
        } else if opcode == INVOKE_POLYMORPHIC_RANGE_OP {
            let (reg, meth_id, dst_regs, proto_id) = reader.r_4rcc()?;
            Ok(DalvikBytecode::InvokePolymorphicRange(reg, meth_id, dst_regs, proto_id))
        } else if opcode == INVOKE_CUSTOM_OP {
            let (regs, call_site) = reader.r_35c()?;
            Ok(DalvikBytecode::InvokeCustom(regs, call_site))
        } else if opcode == INVOKE_CUSTOM_RANGE_OP {
            let (regs_count, call_site, first_argument_reg) = reader.r_3rc()?;
            Ok(DalvikBytecode::InvokeCustomRange(regs_count, call_site, first_argument_reg))
        } else if opcode == CONST_METHOD_HANDLE_OP {
            let (dst, meth_id) = reader.r_21c()?;
            Ok(DalvikBytecode::ConstMethodHandle(dst, meth_id))
        } else if opcode == CONST_METHOD_TYPE_OP {
            let (dst, type_index) = reader.r_21c()?;
            Ok(DalvikBytecode::ConstMethodType(dst, type_index))
        } else {
            Err(DecodeError::UnrecognizedOpcode)
        };
        let inst = dalvik_bytecode?;

        Ok(DalvikInstruction { inst, offset })
    }
}

/// Decodes one method's instruction stream from the start.  Each
/// decode-all call drives a fresh reader from offset zero; the decoder
/// itself holds no cursor.
pub struct SmaliDecoder<'a> {
    stream: &'a [u8],
}

impl<'a> View for SmaliDecoder<'a> {
    type V = Seq<u8>;

    closed spec fn view(&self) -> Seq<u8> {
        self.stream@
    }
}

impl<'a> SmaliDecoder<'a> {
    pub fn new(stream: &'a [u8]) -> (r: Self)
        ensures
            r@ == stream@,
    {
        Self { stream }
    }

    /// Decodes every instruction of the stream in order, starting at
    /// offset zero, and returns the sequence decoded so far when the
    /// stream ends, an opcode is unrecognized, or a format runs past
    /// the end.  The result does not say which of the three stopped the
    /// decode.
    pub fn decode_all(&self) -> (r: Vec<DalvikInstruction>)
        ensures
            r@.map_values(|di: DalvikInstruction| di@) == spec_decode_all(self@, 0),
    {
        let ghost s = self@;
        let mut instructions: Vec<DalvikInstruction> = Vec::new();
        let mut new_reader = DexInstructionFormatReader::new(self.stream);

        loop
            invariant_except_break
                new_reader.wf(),
                new_reader.stream() == s,
                spec_decode_all(s, 0) == instructions@.map_values(|di: DalvikInstruction| di@)
                    + spec_decode_all(s, new_reader.pos()),
            ensures
                instructions@.map_values(|di: DalvikInstruction| di@) == spec_decode_all(s, 0),
            decreases s.len() - new_reader.pos(),
        {
            let ghost p = new_reader.pos();
            let ghost done = instructions@.map_values(|di: DalvikInstruction| di@);
            match DalvikInstruction::decode_instruction(&mut new_reader) {
                Ok(inst) => {
                    instructions.push(inst);
                    proof {
                        assert(spec_decode_all(s, p) == seq![inst@] + spec_decode_all(
                            s,
                            new_reader.pos(),
                        ));
                        assert(instructions@.map_values(|di: DalvikInstruction| di@) =~= done
                            + seq![inst@]);
                        assert(done + (seq![inst@] + spec_decode_all(s, new_reader.pos())) =~= (done
                            + seq![inst@]) + spec_decode_all(s, new_reader.pos()));
                    }
                },
                Err(_) => {
                    proof {
                        assert(spec_decode_all(s, p) =~= Seq::<DalvikInstructionView>::empty());
                        assert(done + Seq::<DalvikInstructionView>::empty() =~= done);
                    }
                    break ;
                },
            }
        }
        instructions
    }
}

/// Every opcode length is at least the opcode byte itself.
proof fn lemma_opcode_len_at_least_one(op: u8)
    ensures
        opcode_len(op) >= 1,
{
}

/// The decode of a stream from position `i` tiles the buffer: the first
/// instruction sits at `i`, every decoded instruction starts where one
/// whole instruction fits, and each instruction ends exactly where the
/// next one starts.
proof fn lemma_decode_all_tiling(s: Seq<u8>, i: int)
    requires
        0 <= i <= s.len(),
    ensures
        ({
            let d = spec_decode_all(s, i);
            &&& d.len() > 0 ==> d[0].offset == i
            &&& forall|k: int| 0 <= k < d.len() ==> can_step(s, (#[trigger] d[k]).offset)
            &&& forall|k: int|
                0 <= k < d.len() - 1 ==> (#[trigger] d[k]).offset + opcode_len(
                    s[d[k].offset],
                ) == d[k + 1].offset
        }),
    decreases s.len() - i,
{
    if can_step(s, i) {
        lemma_opcode_len_at_least_one(s[i]);
        let nxt = i + opcode_len(s[i]);
        lemma_decode_all_tiling(s, nxt);
        let d = spec_decode_all(s, i);
        let rest = spec_decode_all(s, nxt);
        assert(forall|k: int| 1 <= k < d.len() ==> (#[trigger] d[k]) == rest[k - 1]);
        if rest.len() > 0 {
            assert(d[1] == rest[0]);
        }
    }
}

/// Offsets strictly increase along any stretch of consecutively tiled
/// instructions.
proof fn lemma_offsets_chain(s: Seq<u8>, d: Seq<DalvikInstructionView>, a: int, b: int)
    requires
        forall|k: int|
            0 <= k < d.len() - 1 ==> (#[trigger] d[k]).offset + opcode_len(s[d[k].offset]) == d[k
                + 1].offset,
        0 <= a < b < d.len(),
    ensures
        d[a].offset < d[b].offset,
    decreases b - a,
{
    lemma_opcode_len_at_least_one(s[d[b - 1].offset]);
    if b > a + 1 {
        lemma_offsets_chain(s, d, a, b - 1);
    }
}

/// Decoding a buffer of length L yields instructions whose offsets
/// strictly increase, and whose last instruction ends at or before L:
/// its offset plus the byte count its opcode consumes stays within the
/// buffer.
pub proof fn lemma_decode_all_offsets(s: Seq<u8>)
    ensures
        ({
            let d = spec_decode_all(s, 0);
            &&& forall|a: int, b: int|
                0 <= a < b < d.len() ==> (#[trigger] d[a]).offset < (#[trigger] d[b]).offset
            &&& d.len() > 0 ==> d[d.len() - 1].offset + opcode_len(s[d[d.len() - 1].offset])
                <= s.len()
        }),
{
    let d = spec_decode_all(s, 0);
    lemma_decode_all_tiling(s, 0);
    assert forall|a: int, b: int|
        0 <= a < b < d.len() implies (#[trigger] d[a]).offset < (#[trigger] d[b]).offset by {
        lemma_offsets_chain(s, d, a, b);
    }
}

/// Decoding a buffer that holds one no-operand opcode `n` times, seen
/// from position `i`, yields one instruction per remaining byte, the
/// k-th at offset `i + k`.
proof fn lemma_uniform_decode_from(op: u8, n: nat, i: int)
    requires
        op == NOP_OP || op == RETURN_VOID_OP,
        0 <= i <= n,
    ensures
        ({
            let d = spec_decode_all(Seq::new(n, |j: int| op), i);
            &&& d.len() == n - i
            &&& forall|k: int| 0 <= k < d.len() ==> (#[trigger] d[k]).offset == i + k
        }),
    decreases n - i,
{
    let s = Seq::new(n, |j: int| op);
    if i < n {
        assert(s[i] == op);
        assert(opcode_len(op) == 1);
        lemma_uniform_decode_from(op, n, i + 1);
        let d = spec_decode_all(s, i);
        let rest = spec_decode_all(s, i + 1);
        assert(forall|k: int| 1 <= k < d.len() ==> (#[trigger] d[k]) == rest[k - 1]);
    } else {
        assert(!can_step(s, i));
    }
}

/// Decoding a buffer that holds a single no-operand opcode `n` times
/// yields exactly `n` instructions, the k-th at offset k, and consumes
/// the whole buffer, so the decode ends at end of stream.
pub proof fn lemma_no_operand_run(op: u8, n: nat)
    requires
        op == NOP_OP || op == RETURN_VOID_OP,
    ensures
        ({
            let d = spec_decode_all(Seq::new(n, |j: int| op), 0);
            &&& d.len() == n
            &&& forall|k: int| 0 <= k < n ==> (#[trigger] d[k]).offset == k
            &&& n > 0 ==> d[n - 1].offset + opcode_len(op) == n
        }),
{
    lemma_uniform_decode_from(op, n, 0);
    let s = Seq::new(n, |j: int| op);
    if n > 0 {
        assert(s[n - 1] == op);
        assert(opcode_len(op) == 1);
    }
}

} // verus!
