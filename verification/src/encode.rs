//! Encoding of instruction lists into `wasm_encoder` function bodies.

use vstd::prelude::*;
use wasm_encoder::{BlockType, Function, Ieee64, MemArg as WasmMemArg, MemArgTarget, ValType};
use crate::instr::{BlockTy, Instr, ValTy};
use crate::leb::{le_bytes64, sleb, uleb, uleb_all};

verus! {

/// A function body under construction in `wasm_encoder`.
#[verifier::external_type_specification]
#[verifier::external_body]
pub struct ExFunction(Function);

/// The bytes that a `wasm_encoder::Function` holds: its locals header followed by
/// the encoded instructions added so far.
pub uninterp spec fn body_bytes(f: Function) -> Seq<u8>;

/// The binary code of a value type.
pub open spec fn val_ty_byte(t: ValTy) -> u8 {
    match t {
        ValTy::I32 => 0x7fu8,
        ValTy::I64 => 0x7eu8,
        ValTy::F64 => 0x7cu8,
    }
}

/// The binary encoding of a block type.
pub open spec fn block_ty_bytes(bt: BlockTy) -> Seq<u8> {
    match bt {
        BlockTy::Empty => seq![0x40u8],
        BlockTy::Result(t) => seq![val_ty_byte(t)],
    }
}

/// The encoding of a run-length list of local declarations.
pub open spec fn local_entries_bytes(locals: Seq<(u32, ValTy)>) -> Seq<u8>
    decreases locals.len(),
{
    if locals.len() == 0 {
        Seq::empty()
    } else {
        uleb(locals[0].0 as nat) + seq![val_ty_byte(locals[0].1)] + local_entries_bytes(locals.drop_first())
    }
}

/// The locals header of a function body.
pub open spec fn locals_bytes(locals: Seq<(u32, ValTy)>) -> Seq<u8> {
    uleb(locals.len()) + local_entries_bytes(locals)
}

/// Calls `Function::byte_len`, which returns the number of bytes the body holds.
#[verifier::external_body]
pub(crate) fn function_byte_len(f: &Function) -> (n: usize)
    ensures
        n == body_bytes(*f).len(),
{
    f.byte_len()
}

/// Calls `Function::new`, which starts a body with the locals header: the number of
/// entries, then each entry's count and value type code.
#[verifier::external_body]
fn new_function(locals: &Vec<(u32, ValTy)>) -> (f: Function)
    requires
        locals.len() <= u32::MAX,
    ensures
        body_bytes(f) == locals_bytes(locals@),
{
    Function::new(locals.iter().map(|&(n, t)| (n, match t {
        ValTy::I32 => ValType::I32,
        ValTy::I64 => ValType::I64,
        ValTy::F64 => ValType::F64,
    })))
}

/// Calls `InstructionSink::unreachable`, which appends the opcode 0x00.
#[verifier::external_body]
fn sink_unreachable(f: &mut Function)
    ensures
        body_bytes(*final(f)) == body_bytes(*old(f)) + seq![0x00u8],
{
    f.instructions().unreachable();
}

/// Calls `InstructionSink::else_`, which appends the opcode 0x05.
#[verifier::external_body]
fn sink_else(f: &mut Function)
    ensures
        body_bytes(*final(f)) == body_bytes(*old(f)) + seq![0x05u8],
{
    f.instructions().else_();
}

/// Calls `InstructionSink::end`, which appends the opcode 0x0B.
#[verifier::external_body]
fn sink_end(f: &mut Function)
    ensures
        body_bytes(*final(f)) == body_bytes(*old(f)) + seq![0x0bu8],
{
    f.instructions().end();
}

/// Calls `InstructionSink::return_`, which appends the opcode 0x0F.
#[verifier::external_body]
fn sink_return(f: &mut Function)
    ensures
        body_bytes(*final(f)) == body_bytes(*old(f)) + seq![0x0fu8],
{
    f.instructions().return_();
}

/// Calls `InstructionSink::drop`, which appends the opcode 0x1A.
#[verifier::external_body]
fn sink_drop(f: &mut Function)
    ensures
        body_bytes(*final(f)) == body_bytes(*old(f)) + seq![0x1au8],
{
    f.instructions().drop();
}

/// Calls `InstructionSink::i32_add`, which appends the opcode 0x6A.
#[verifier::external_body]
fn sink_i32_add(f: &mut Function)
    ensures
        body_bytes(*final(f)) == body_bytes(*old(f)) + seq![0x6au8],
{
    f.instructions().i32_add();
}

/// Calls `InstructionSink::i32_sub`, which appends the opcode 0x6B.
#[verifier::external_body]
fn sink_i32_sub(f: &mut Function)
    ensures
        body_bytes(*final(f)) == body_bytes(*old(f)) + seq![0x6bu8],
{
    f.instructions().i32_sub();
}

/// Calls `InstructionSink::i32_mul`, which appends the opcode 0x6C.
#[verifier::external_body]
fn sink_i32_mul(f: &mut Function)
    ensures
        body_bytes(*final(f)) == body_bytes(*old(f)) + seq![0x6cu8],
{
    f.instructions().i32_mul();
}

/// Calls `InstructionSink::i32_and`, which appends the opcode 0x71.
#[verifier::external_body]
fn sink_i32_and(f: &mut Function)
    ensures
        body_bytes(*final(f)) == body_bytes(*old(f)) + seq![0x71u8],
{
    f.instructions().i32_and();
}

/// Calls `InstructionSink::i32_or`, which appends the opcode 0x72.
#[verifier::external_body]
fn sink_i32_or(f: &mut Function)
    ensures
        body_bytes(*final(f)) == body_bytes(*old(f)) + seq![0x72u8],
{
    f.instructions().i32_or();
}

/// Calls `InstructionSink::i32_shl`, which appends the opcode 0x74.
#[verifier::external_body]
fn sink_i32_shl(f: &mut Function)
    ensures
        body_bytes(*final(f)) == body_bytes(*old(f)) + seq![0x74u8],
{
    f.instructions().i32_shl();
}

/// Calls `InstructionSink::i32_shr_u`, which appends the opcode 0x76.
#[verifier::external_body]
fn sink_i32_shr_u(f: &mut Function)
    ensures
        body_bytes(*final(f)) == body_bytes(*old(f)) + seq![0x76u8],
{
    f.instructions().i32_shr_u();
}

/// Calls `InstructionSink::i32_eq`, which appends the opcode 0x46.
#[verifier::external_body]
fn sink_i32_eq(f: &mut Function)
    ensures
        body_bytes(*final(f)) == body_bytes(*old(f)) + seq![0x46u8],
{
    f.instructions().i32_eq();
}

/// Calls `InstructionSink::i32_ne`, which appends the opcode 0x47.
#[verifier::external_body]
fn sink_i32_ne(f: &mut Function)
    ensures
        body_bytes(*final(f)) == body_bytes(*old(f)) + seq![0x47u8],
{
    f.instructions().i32_ne();
}

/// Calls `InstructionSink::i32_eqz`, which appends the opcode 0x45.
#[verifier::external_body]
fn sink_i32_eqz(f: &mut Function)
    ensures
        body_bytes(*final(f)) == body_bytes(*old(f)) + seq![0x45u8],
{
    f.instructions().i32_eqz();
}

/// Calls `InstructionSink::i32_lt_s`, which appends the opcode 0x48.
#[verifier::external_body]
fn sink_i32_lt_s(f: &mut Function)
    ensures
        body_bytes(*final(f)) == body_bytes(*old(f)) + seq![0x48u8],
{
    f.instructions().i32_lt_s();
}

/// Calls `InstructionSink::i32_lt_u`, which appends the opcode 0x49.
#[verifier::external_body]
fn sink_i32_lt_u(f: &mut Function)
    ensures
        body_bytes(*final(f)) == body_bytes(*old(f)) + seq![0x49u8],
{
    f.instructions().i32_lt_u();
}

/// Calls `InstructionSink::i32_gt_s`, which appends the opcode 0x4A.
#[verifier::external_body]
fn sink_i32_gt_s(f: &mut Function)
    ensures
        body_bytes(*final(f)) == body_bytes(*old(f)) + seq![0x4au8],
{
    f.instructions().i32_gt_s();
}

/// Calls `InstructionSink::i32_gt_u`, which appends the opcode 0x4B.
#[verifier::external_body]
fn sink_i32_gt_u(f: &mut Function)
    ensures
        body_bytes(*final(f)) == body_bytes(*old(f)) + seq![0x4bu8],
{
    f.instructions().i32_gt_u();
}

/// Calls `InstructionSink::i32_le_s`, which appends the opcode 0x4C.
#[verifier::external_body]
fn sink_i32_le_s(f: &mut Function)
    ensures
        body_bytes(*final(f)) == body_bytes(*old(f)) + seq![0x4cu8],
{
    f.instructions().i32_le_s();
}

/// Calls `InstructionSink::i32_le_u`, which appends the opcode 0x4D.
#[verifier::external_body]
fn sink_i32_le_u(f: &mut Function)
    ensures
        body_bytes(*final(f)) == body_bytes(*old(f)) + seq![0x4du8],
{
    f.instructions().i32_le_u();
}

/// Calls `InstructionSink::i32_ge_s`, which appends the opcode 0x4E.
#[verifier::external_body]
fn sink_i32_ge_s(f: &mut Function)
    ensures
        body_bytes(*final(f)) == body_bytes(*old(f)) + seq![0x4eu8],
{
    f.instructions().i32_ge_s();
}

/// Calls `InstructionSink::i32_ge_u`, which appends the opcode 0x4F.
#[verifier::external_body]
fn sink_i32_ge_u(f: &mut Function)
    ensures
        body_bytes(*final(f)) == body_bytes(*old(f)) + seq![0x4fu8],
{
    f.instructions().i32_ge_u();
}

/// Calls `InstructionSink::i64_add`, which appends the opcode 0x7C.
#[verifier::external_body]
fn sink_i64_add(f: &mut Function)
    ensures
        body_bytes(*final(f)) == body_bytes(*old(f)) + seq![0x7cu8],
{
    f.instructions().i64_add();
}

/// Calls `InstructionSink::i64_sub`, which appends the opcode 0x7D.
#[verifier::external_body]
fn sink_i64_sub(f: &mut Function)
    ensures
        body_bytes(*final(f)) == body_bytes(*old(f)) + seq![0x7du8],
{
    f.instructions().i64_sub();
}

/// Calls `InstructionSink::i64_mul`, which appends the opcode 0x7E.
#[verifier::external_body]
fn sink_i64_mul(f: &mut Function)
    ensures
        body_bytes(*final(f)) == body_bytes(*old(f)) + seq![0x7eu8],
{
    f.instructions().i64_mul();
}

/// Calls `InstructionSink::i64_div_s`, which appends the opcode 0x7F.
#[verifier::external_body]
fn sink_i64_div_s(f: &mut Function)
    ensures
        body_bytes(*final(f)) == body_bytes(*old(f)) + seq![0x7fu8],
{
    f.instructions().i64_div_s();
}

/// Calls `InstructionSink::i64_div_u`, which appends the opcode 0x80.
#[verifier::external_body]
fn sink_i64_div_u(f: &mut Function)
    ensures
        body_bytes(*final(f)) == body_bytes(*old(f)) + seq![0x80u8],
{
    f.instructions().i64_div_u();
}

/// Calls `InstructionSink::i64_rem_s`, which appends the opcode 0x81.
#[verifier::external_body]
fn sink_i64_rem_s(f: &mut Function)
    ensures
        body_bytes(*final(f)) == body_bytes(*old(f)) + seq![0x81u8],
{
    f.instructions().i64_rem_s();
}

/// Calls `InstructionSink::i64_rem_u`, which appends the opcode 0x82.
#[verifier::external_body]
fn sink_i64_rem_u(f: &mut Function)
    ensures
        body_bytes(*final(f)) == body_bytes(*old(f)) + seq![0x82u8],
{
    f.instructions().i64_rem_u();
}

/// Calls `InstructionSink::i64_and`, which appends the opcode 0x83.
#[verifier::external_body]
fn sink_i64_and(f: &mut Function)
    ensures
        body_bytes(*final(f)) == body_bytes(*old(f)) + seq![0x83u8],
{
    f.instructions().i64_and();
}

/// Calls `InstructionSink::i64_or`, which appends the opcode 0x84.
#[verifier::external_body]
fn sink_i64_or(f: &mut Function)
    ensures
        body_bytes(*final(f)) == body_bytes(*old(f)) + seq![0x84u8],
{
    f.instructions().i64_or();
}

/// Calls `InstructionSink::i64_xor`, which appends the opcode 0x85.
#[verifier::external_body]
fn sink_i64_xor(f: &mut Function)
    ensures
        body_bytes(*final(f)) == body_bytes(*old(f)) + seq![0x85u8],
{
    f.instructions().i64_xor();
}

/// Calls `InstructionSink::i64_shl`, which appends the opcode 0x86.
#[verifier::external_body]
fn sink_i64_shl(f: &mut Function)
    ensures
        body_bytes(*final(f)) == body_bytes(*old(f)) + seq![0x86u8],
{
    f.instructions().i64_shl();
}

/// Calls `InstructionSink::i64_shr_s`, which appends the opcode 0x87.
#[verifier::external_body]
fn sink_i64_shr_s(f: &mut Function)
    ensures
        body_bytes(*final(f)) == body_bytes(*old(f)) + seq![0x87u8],
{
    f.instructions().i64_shr_s();
}

/// Calls `InstructionSink::i64_shr_u`, which appends the opcode 0x88.
#[verifier::external_body]
fn sink_i64_shr_u(f: &mut Function)
    ensures
        body_bytes(*final(f)) == body_bytes(*old(f)) + seq![0x88u8],
{
    f.instructions().i64_shr_u();
}

/// Calls `InstructionSink::i64_eq`, which appends the opcode 0x51.
#[verifier::external_body]
fn sink_i64_eq(f: &mut Function)
    ensures
        body_bytes(*final(f)) == body_bytes(*old(f)) + seq![0x51u8],
{
    f.instructions().i64_eq();
}

/// Calls `InstructionSink::i64_ne`, which appends the opcode 0x52.
#[verifier::external_body]
fn sink_i64_ne(f: &mut Function)
    ensures
        body_bytes(*final(f)) == body_bytes(*old(f)) + seq![0x52u8],
{
    f.instructions().i64_ne();
}

/// Calls `InstructionSink::i64_eqz`, which appends the opcode 0x50.
#[verifier::external_body]
fn sink_i64_eqz(f: &mut Function)
    ensures
        body_bytes(*final(f)) == body_bytes(*old(f)) + seq![0x50u8],
{
    f.instructions().i64_eqz();
}

/// Calls `InstructionSink::i64_lt_s`, which appends the opcode 0x53.
#[verifier::external_body]
fn sink_i64_lt_s(f: &mut Function)
    ensures
        body_bytes(*final(f)) == body_bytes(*old(f)) + seq![0x53u8],
{
    f.instructions().i64_lt_s();
}

/// Calls `InstructionSink::i64_lt_u`, which appends the opcode 0x54.
#[verifier::external_body]
fn sink_i64_lt_u(f: &mut Function)
    ensures
        body_bytes(*final(f)) == body_bytes(*old(f)) + seq![0x54u8],
{
    f.instructions().i64_lt_u();
}

/// Calls `InstructionSink::i64_gt_s`, which appends the opcode 0x55.
#[verifier::external_body]
fn sink_i64_gt_s(f: &mut Function)
    ensures
        body_bytes(*final(f)) == body_bytes(*old(f)) + seq![0x55u8],
{
    f.instructions().i64_gt_s();
}

/// Calls `InstructionSink::i64_gt_u`, which appends the opcode 0x56.
#[verifier::external_body]
fn sink_i64_gt_u(f: &mut Function)
    ensures
        body_bytes(*final(f)) == body_bytes(*old(f)) + seq![0x56u8],
{
    f.instructions().i64_gt_u();
}

/// Calls `InstructionSink::i64_le_s`, which appends the opcode 0x57.
#[verifier::external_body]
fn sink_i64_le_s(f: &mut Function)
    ensures
        body_bytes(*final(f)) == body_bytes(*old(f)) + seq![0x57u8],
{
    f.instructions().i64_le_s();
}

/// Calls `InstructionSink::i64_le_u`, which appends the opcode 0x58.
#[verifier::external_body]
fn sink_i64_le_u(f: &mut Function)
    ensures
        body_bytes(*final(f)) == body_bytes(*old(f)) + seq![0x58u8],
{
    f.instructions().i64_le_u();
}

/// Calls `InstructionSink::i64_ge_s`, which appends the opcode 0x59.
#[verifier::external_body]
fn sink_i64_ge_s(f: &mut Function)
    ensures
        body_bytes(*final(f)) == body_bytes(*old(f)) + seq![0x59u8],
{
    f.instructions().i64_ge_s();
}

/// Calls `InstructionSink::i64_ge_u`, which appends the opcode 0x5A.
#[verifier::external_body]
fn sink_i64_ge_u(f: &mut Function)
    ensures
        body_bytes(*final(f)) == body_bytes(*old(f)) + seq![0x5au8],
{
    f.instructions().i64_ge_u();
}

/// Calls `InstructionSink::i64_extend_i32_u`, which appends the opcode 0xAD.
#[verifier::external_body]
fn sink_i64_extend_i32_u(f: &mut Function)
    ensures
        body_bytes(*final(f)) == body_bytes(*old(f)) + seq![0xadu8],
{
    f.instructions().i64_extend_i32_u();
}

/// Calls `InstructionSink::i32_wrap_i64`, which appends the opcode 0xA7.
#[verifier::external_body]
fn sink_i32_wrap_i64(f: &mut Function)
    ensures
        body_bytes(*final(f)) == body_bytes(*old(f)) + seq![0xa7u8],
{
    f.instructions().i32_wrap_i64();
}

/// Calls `InstructionSink::f64_add`, which appends the opcode 0xA0.
#[verifier::external_body]
fn sink_f64_add(f: &mut Function)
    ensures
        body_bytes(*final(f)) == body_bytes(*old(f)) + seq![0xa0u8],
{
    f.instructions().f64_add();
}

/// Calls `InstructionSink::f64_sub`, which appends the opcode 0xA1.
#[verifier::external_body]
fn sink_f64_sub(f: &mut Function)
    ensures
        body_bytes(*final(f)) == body_bytes(*old(f)) + seq![0xa1u8],
{
    f.instructions().f64_sub();
}

/// Calls `InstructionSink::f64_mul`, which appends the opcode 0xA2.
#[verifier::external_body]
fn sink_f64_mul(f: &mut Function)
    ensures
        body_bytes(*final(f)) == body_bytes(*old(f)) + seq![0xa2u8],
{
    f.instructions().f64_mul();
}

/// Calls `InstructionSink::f64_div`, which appends the opcode 0xA3.
#[verifier::external_body]
fn sink_f64_div(f: &mut Function)
    ensures
        body_bytes(*final(f)) == body_bytes(*old(f)) + seq![0xa3u8],
{
    f.instructions().f64_div();
}

/// Calls `InstructionSink::f64_neg`, which appends the opcode 0x9A.
#[verifier::external_body]
fn sink_f64_neg(f: &mut Function)
    ensures
        body_bytes(*final(f)) == body_bytes(*old(f)) + seq![0x9au8],
{
    f.instructions().f64_neg();
}

/// Calls `InstructionSink::f64_abs`, which appends the opcode 0x99.
#[verifier::external_body]
fn sink_f64_abs(f: &mut Function)
    ensures
        body_bytes(*final(f)) == body_bytes(*old(f)) + seq![0x99u8],
{
    f.instructions().f64_abs();
}

/// Calls `InstructionSink::f64_trunc`, which appends the opcode 0x9D.
#[verifier::external_body]
fn sink_f64_trunc(f: &mut Function)
    ensures
        body_bytes(*final(f)) == body_bytes(*old(f)) + seq![0x9du8],
{
    f.instructions().f64_trunc();
}

/// Calls `InstructionSink::f64_eq`, which appends the opcode 0x61.
#[verifier::external_body]
fn sink_f64_eq(f: &mut Function)
    ensures
        body_bytes(*final(f)) == body_bytes(*old(f)) + seq![0x61u8],
{
    f.instructions().f64_eq();
}

/// Calls `InstructionSink::f64_ne`, which appends the opcode 0x62.
#[verifier::external_body]
fn sink_f64_ne(f: &mut Function)
    ensures
        body_bytes(*final(f)) == body_bytes(*old(f)) + seq![0x62u8],
{
    f.instructions().f64_ne();
}

/// Calls `InstructionSink::f64_lt`, which appends the opcode 0x63.
#[verifier::external_body]
fn sink_f64_lt(f: &mut Function)
    ensures
        body_bytes(*final(f)) == body_bytes(*old(f)) + seq![0x63u8],
{
    f.instructions().f64_lt();
}

/// Calls `InstructionSink::f64_gt`, which appends the opcode 0x64.
#[verifier::external_body]
fn sink_f64_gt(f: &mut Function)
    ensures
        body_bytes(*final(f)) == body_bytes(*old(f)) + seq![0x64u8],
{
    f.instructions().f64_gt();
}

/// Calls `InstructionSink::f64_le`, which appends the opcode 0x65.
#[verifier::external_body]
fn sink_f64_le(f: &mut Function)
    ensures
        body_bytes(*final(f)) == body_bytes(*old(f)) + seq![0x65u8],
{
    f.instructions().f64_le();
}

/// Calls `InstructionSink::f64_ge`, which appends the opcode 0x66.
#[verifier::external_body]
fn sink_f64_ge(f: &mut Function)
    ensures
        body_bytes(*final(f)) == body_bytes(*old(f)) + seq![0x66u8],
{
    f.instructions().f64_ge();
}

/// Calls `InstructionSink::f64_convert_i64_s`, which appends the opcode 0xB9.
#[verifier::external_body]
fn sink_f64_convert_i64_s(f: &mut Function)
    ensures
        body_bytes(*final(f)) == body_bytes(*old(f)) + seq![0xb9u8],
{
    f.instructions().f64_convert_i64_s();
}

/// Calls `InstructionSink::i64_trunc_sat_f64_s`, which appends the opcode 0xFC 0x06.
#[verifier::external_body]
fn sink_i64_trunc_sat_f64_s(f: &mut Function)
    ensures
        body_bytes(*final(f)) == body_bytes(*old(f)) + seq![0xfcu8, 0x06u8],
{
    f.instructions().i64_trunc_sat_f64_s();
}

/// Calls `InstructionSink::local_get`, which appends the opcode 0x20 and the index as unsigned LEB128.
#[verifier::external_body]
fn sink_local_get(f: &mut Function, x: u32)
    ensures
        body_bytes(*final(f)) == body_bytes(*old(f)) + seq![0x20u8] + uleb(x as nat),
{
    f.instructions().local_get(x);
}

/// Calls `InstructionSink::local_set`, which appends the opcode 0x21 and the index as unsigned LEB128.
#[verifier::external_body]
fn sink_local_set(f: &mut Function, x: u32)
    ensures
        body_bytes(*final(f)) == body_bytes(*old(f)) + seq![0x21u8] + uleb(x as nat),
{
    f.instructions().local_set(x);
}

/// Calls `InstructionSink::local_tee`, which appends the opcode 0x22 and the index as unsigned LEB128.
#[verifier::external_body]
fn sink_local_tee(f: &mut Function, x: u32)
    ensures
        body_bytes(*final(f)) == body_bytes(*old(f)) + seq![0x22u8] + uleb(x as nat),
{
    f.instructions().local_tee(x);
}

/// Calls `InstructionSink::global_get`, which appends the opcode 0x23 and the index as unsigned LEB128.
#[verifier::external_body]
fn sink_global_get(f: &mut Function, x: u32)
    ensures
        body_bytes(*final(f)) == body_bytes(*old(f)) + seq![0x23u8] + uleb(x as nat),
{
    f.instructions().global_get(x);
}

/// Calls `InstructionSink::global_set`, which appends the opcode 0x24 and the index as unsigned LEB128.
#[verifier::external_body]
fn sink_global_set(f: &mut Function, x: u32)
    ensures
        body_bytes(*final(f)) == body_bytes(*old(f)) + seq![0x24u8] + uleb(x as nat),
{
    f.instructions().global_set(x);
}

/// Calls `InstructionSink::br`, which appends the opcode 0x0C and the index as unsigned LEB128.
#[verifier::external_body]
fn sink_br(f: &mut Function, x: u32)
    ensures
        body_bytes(*final(f)) == body_bytes(*old(f)) + seq![0x0cu8] + uleb(x as nat),
{
    f.instructions().br(x);
}

/// Calls `InstructionSink::br_if`, which appends the opcode 0x0D and the index as unsigned LEB128.
#[verifier::external_body]
fn sink_br_if(f: &mut Function, x: u32)
    ensures
        body_bytes(*final(f)) == body_bytes(*old(f)) + seq![0x0du8] + uleb(x as nat),
{
    f.instructions().br_if(x);
}

/// Calls `InstructionSink::call`, which appends the opcode 0x10 and the index as unsigned LEB128.
#[verifier::external_body]
fn sink_call(f: &mut Function, x: u32)
    ensures
        body_bytes(*final(f)) == body_bytes(*old(f)) + seq![0x10u8] + uleb(x as nat),
{
    f.instructions().call(x);
}

/// Calls `InstructionSink::memory_size`, which appends the opcode 0x3F and the index as unsigned LEB128.
#[verifier::external_body]
fn sink_memory_size(f: &mut Function, x: u32)
    ensures
        body_bytes(*final(f)) == body_bytes(*old(f)) + seq![0x3fu8] + uleb(x as nat),
{
    f.instructions().memory_size(x);
}

/// Calls `InstructionSink::memory_grow`, which appends the opcode 0x40 and the index as unsigned LEB128.
#[verifier::external_body]
fn sink_memory_grow(f: &mut Function, x: u32)
    ensures
        body_bytes(*final(f)) == body_bytes(*old(f)) + seq![0x40u8] + uleb(x as nat),
{
    f.instructions().memory_grow(x);
}

/// Calls `InstructionSink::block`, which appends the opcode 0x02 and the block type (0x40 for none, else the value type's code).
#[verifier::external_body]
fn sink_block(f: &mut Function, bt: BlockTy)
    ensures
        body_bytes(*final(f)) == body_bytes(*old(f)) + seq![0x02u8] + block_ty_bytes(bt),
{
    let bt = match bt {
        BlockTy::Empty => BlockType::Empty,
        BlockTy::Result(ValTy::I32) => BlockType::Result(ValType::I32),
        BlockTy::Result(ValTy::I64) => BlockType::Result(ValType::I64),
        BlockTy::Result(ValTy::F64) => BlockType::Result(ValType::F64),
    };
    f.instructions().block(bt);
}

/// Calls `InstructionSink::loop_`, which appends the opcode 0x03 and the block type (0x40 for none, else the value type's code).
#[verifier::external_body]
fn sink_loop(f: &mut Function, bt: BlockTy)
    ensures
        body_bytes(*final(f)) == body_bytes(*old(f)) + seq![0x03u8] + block_ty_bytes(bt),
{
    let bt = match bt {
        BlockTy::Empty => BlockType::Empty,
        BlockTy::Result(ValTy::I32) => BlockType::Result(ValType::I32),
        BlockTy::Result(ValTy::I64) => BlockType::Result(ValType::I64),
        BlockTy::Result(ValTy::F64) => BlockType::Result(ValType::F64),
    };
    f.instructions().loop_(bt);
}

/// Calls `InstructionSink::if_`, which appends the opcode 0x04 and the block type (0x40 for none, else the value type's code).
#[verifier::external_body]
fn sink_if(f: &mut Function, bt: BlockTy)
    ensures
        body_bytes(*final(f)) == body_bytes(*old(f)) + seq![0x04u8] + block_ty_bytes(bt),
{
    let bt = match bt {
        BlockTy::Empty => BlockType::Empty,
        BlockTy::Result(ValTy::I32) => BlockType::Result(ValType::I32),
        BlockTy::Result(ValTy::I64) => BlockType::Result(ValType::I64),
        BlockTy::Result(ValTy::F64) => BlockType::Result(ValType::F64),
    };
    f.instructions().if_(bt);
}

/// Calls `InstructionSink::i32_load` on memory 0, which appends the opcode 0x28, the alignment and the offset, both as unsigned LEB128.
#[verifier::external_body]
fn sink_i32_load(f: &mut Function, align: u32, offset: u64)
    ensures
        body_bytes(*final(f)) == body_bytes(*old(f)) + seq![0x28u8] + uleb(align as nat) + uleb(offset as nat),
{
    f.instructions().i32_load(WasmMemArg { offset, align, target: MemArgTarget::Memory(0), ordering: None });
}

/// Calls `InstructionSink::i64_load` on memory 0, which appends the opcode 0x29, the alignment and the offset, both as unsigned LEB128.
#[verifier::external_body]
fn sink_i64_load(f: &mut Function, align: u32, offset: u64)
    ensures
        body_bytes(*final(f)) == body_bytes(*old(f)) + seq![0x29u8] + uleb(align as nat) + uleb(offset as nat),
{
    f.instructions().i64_load(WasmMemArg { offset, align, target: MemArgTarget::Memory(0), ordering: None });
}

/// Calls `InstructionSink::f64_load` on memory 0, which appends the opcode 0x2B, the alignment and the offset, both as unsigned LEB128.
#[verifier::external_body]
fn sink_f64_load(f: &mut Function, align: u32, offset: u64)
    ensures
        body_bytes(*final(f)) == body_bytes(*old(f)) + seq![0x2bu8] + uleb(align as nat) + uleb(offset as nat),
{
    f.instructions().f64_load(WasmMemArg { offset, align, target: MemArgTarget::Memory(0), ordering: None });
}

/// Calls `InstructionSink::i32_load8_u` on memory 0, which appends the opcode 0x2D, the alignment and the offset, both as unsigned LEB128.
#[verifier::external_body]
fn sink_i32_load8_u(f: &mut Function, align: u32, offset: u64)
    ensures
        body_bytes(*final(f)) == body_bytes(*old(f)) + seq![0x2du8] + uleb(align as nat) + uleb(offset as nat),
{
    f.instructions().i32_load8_u(WasmMemArg { offset, align, target: MemArgTarget::Memory(0), ordering: None });
}

/// Calls `InstructionSink::i32_store` on memory 0, which appends the opcode 0x36, the alignment and the offset, both as unsigned LEB128.
#[verifier::external_body]
fn sink_i32_store(f: &mut Function, align: u32, offset: u64)
    ensures
        body_bytes(*final(f)) == body_bytes(*old(f)) + seq![0x36u8] + uleb(align as nat) + uleb(offset as nat),
{
    f.instructions().i32_store(WasmMemArg { offset, align, target: MemArgTarget::Memory(0), ordering: None });
}

/// Calls `InstructionSink::i64_store` on memory 0, which appends the opcode 0x37, the alignment and the offset, both as unsigned LEB128.
#[verifier::external_body]
fn sink_i64_store(f: &mut Function, align: u32, offset: u64)
    ensures
        body_bytes(*final(f)) == body_bytes(*old(f)) + seq![0x37u8] + uleb(align as nat) + uleb(offset as nat),
{
    f.instructions().i64_store(WasmMemArg { offset, align, target: MemArgTarget::Memory(0), ordering: None });
}

/// Calls `InstructionSink::f64_store` on memory 0, which appends the opcode 0x39, the alignment and the offset, both as unsigned LEB128.
#[verifier::external_body]
fn sink_f64_store(f: &mut Function, align: u32, offset: u64)
    ensures
        body_bytes(*final(f)) == body_bytes(*old(f)) + seq![0x39u8] + uleb(align as nat) + uleb(offset as nat),
{
    f.instructions().f64_store(WasmMemArg { offset, align, target: MemArgTarget::Memory(0), ordering: None });
}

/// Calls `InstructionSink::i32_store8` on memory 0, which appends the opcode 0x3A, the alignment and the offset, both as unsigned LEB128.
#[verifier::external_body]
fn sink_i32_store8(f: &mut Function, align: u32, offset: u64)
    ensures
        body_bytes(*final(f)) == body_bytes(*old(f)) + seq![0x3au8] + uleb(align as nat) + uleb(offset as nat),
{
    f.instructions().i32_store8(WasmMemArg { offset, align, target: MemArgTarget::Memory(0), ordering: None });
}

/// Calls `InstructionSink::i32_const`, which appends the opcode 0x41 and the value as signed LEB128.
#[verifier::external_body]
fn sink_i32_const(f: &mut Function, x: i32)
    ensures
        body_bytes(*final(f)) == body_bytes(*old(f)) + seq![0x41u8] + sleb(x as int),
{
    f.instructions().i32_const(x);
}

/// Calls `InstructionSink::i64_const`, which appends the opcode 0x42 and the value as signed LEB128.
#[verifier::external_body]
fn sink_i64_const(f: &mut Function, x: i64)
    ensures
        body_bytes(*final(f)) == body_bytes(*old(f)) + seq![0x42u8] + sleb(x as int),
{
    f.instructions().i64_const(x);
}

/// Calls `InstructionSink::f64_const` with the float of bit pattern `bits`, which appends the opcode 0x44 and the 8 bytes of the pattern, least significant first.
#[verifier::external_body]
fn sink_f64_const(f: &mut Function, bits: u64)
    ensures
        body_bytes(*final(f)) == body_bytes(*old(f)) + seq![0x44u8] + le_bytes64(bits),
{
    f.instructions().f64_const(Ieee64::new(bits));
}

/// Calls `InstructionSink::call_indirect`, which appends the opcode 0x11, the type index and the table index, both as unsigned LEB128.
#[verifier::external_body]
fn sink_call_indirect(f: &mut Function, table_index: u32, type_index: u32)
    ensures
        body_bytes(*final(f)) == body_bytes(*old(f)) + seq![0x11u8] + uleb(type_index as nat) + uleb(table_index as nat),
{
    f.instructions().call_indirect(table_index, type_index);
}

/// Calls `InstructionSink::memory_copy`, which appends the opcodes 0xFC 0x0A and the destination and source memory indices as unsigned LEB128.
#[verifier::external_body]
fn sink_memory_copy(f: &mut Function, dst_mem: u32, src_mem: u32)
    ensures
        body_bytes(*final(f)) == body_bytes(*old(f)) + seq![0xfcu8, 0x0au8] + uleb(dst_mem as nat) + uleb(src_mem as nat),
{
    f.instructions().memory_copy(dst_mem, src_mem);
}

/// Calls `InstructionSink::br_table`, which appends the opcode 0x0E, the number of
/// targets, each target and the default target, all as unsigned LEB128.
#[verifier::external_body]
fn sink_br_table(f: &mut Function, targets: &Vec<u32>, default: u32)
    requires
        targets.len() <= u32::MAX,
    ensures
        body_bytes(*final(f)) == body_bytes(*old(f)) + seq![0x0eu8] + uleb(targets.view().len()) + uleb_all(targets.view()) + uleb(default as nat),
{
    f.instructions().br_table(targets.iter().copied(), default);
}

/// The binary encoding of one instruction.
pub open spec fn instr_bytes(i: Instr) -> Seq<u8> {
    match i {
        Instr::Unreachable => seq![0x00u8],
        Instr::Else => seq![0x05u8],
        Instr::End => seq![0x0bu8],
        Instr::Return => seq![0x0fu8],
        Instr::Drop => seq![0x1au8],
        Instr::I32Add => seq![0x6au8],
        Instr::I32Sub => seq![0x6bu8],
        Instr::I32Mul => seq![0x6cu8],
        Instr::I32And => seq![0x71u8],
        Instr::I32Or => seq![0x72u8],
        Instr::I32Shl => seq![0x74u8],
        Instr::I32ShrU => seq![0x76u8],
        Instr::I32Eq => seq![0x46u8],
        Instr::I32Ne => seq![0x47u8],
        Instr::I32Eqz => seq![0x45u8],
        Instr::I32LtS => seq![0x48u8],
        Instr::I32LtU => seq![0x49u8],
        Instr::I32GtS => seq![0x4au8],
        Instr::I32GtU => seq![0x4bu8],
        Instr::I32LeS => seq![0x4cu8],
        Instr::I32LeU => seq![0x4du8],
        Instr::I32GeS => seq![0x4eu8],
        Instr::I32GeU => seq![0x4fu8],
        Instr::I64Add => seq![0x7cu8],
        Instr::I64Sub => seq![0x7du8],
        Instr::I64Mul => seq![0x7eu8],
        Instr::I64DivS => seq![0x7fu8],
        Instr::I64DivU => seq![0x80u8],
        Instr::I64RemS => seq![0x81u8],
        Instr::I64RemU => seq![0x82u8],
        Instr::I64And => seq![0x83u8],
        Instr::I64Or => seq![0x84u8],
        Instr::I64Xor => seq![0x85u8],
        Instr::I64Shl => seq![0x86u8],
        Instr::I64ShrS => seq![0x87u8],
        Instr::I64ShrU => seq![0x88u8],
        Instr::I64Eq => seq![0x51u8],
        Instr::I64Ne => seq![0x52u8],
        Instr::I64Eqz => seq![0x50u8],
        Instr::I64LtS => seq![0x53u8],
        Instr::I64LtU => seq![0x54u8],
        Instr::I64GtS => seq![0x55u8],
        Instr::I64GtU => seq![0x56u8],
        Instr::I64LeS => seq![0x57u8],
        Instr::I64LeU => seq![0x58u8],
        Instr::I64GeS => seq![0x59u8],
        Instr::I64GeU => seq![0x5au8],
        Instr::I64ExtendI32U => seq![0xadu8],
        Instr::I32WrapI64 => seq![0xa7u8],
        Instr::F64Add => seq![0xa0u8],
        Instr::F64Sub => seq![0xa1u8],
        Instr::F64Mul => seq![0xa2u8],
        Instr::F64Div => seq![0xa3u8],
        Instr::F64Neg => seq![0x9au8],
        Instr::F64Abs => seq![0x99u8],
        Instr::F64Trunc => seq![0x9du8],
        Instr::F64Eq => seq![0x61u8],
        Instr::F64Ne => seq![0x62u8],
        Instr::F64Lt => seq![0x63u8],
        Instr::F64Gt => seq![0x64u8],
        Instr::F64Le => seq![0x65u8],
        Instr::F64Ge => seq![0x66u8],
        Instr::F64ConvertI64S => seq![0xb9u8],
        Instr::I64TruncSatF64S => seq![0xfcu8, 0x06u8],
        Instr::LocalGet(x) => seq![0x20u8] + uleb(x as nat),
        Instr::LocalSet(x) => seq![0x21u8] + uleb(x as nat),
        Instr::LocalTee(x) => seq![0x22u8] + uleb(x as nat),
        Instr::GlobalGet(x) => seq![0x23u8] + uleb(x as nat),
        Instr::GlobalSet(x) => seq![0x24u8] + uleb(x as nat),
        Instr::Br(x) => seq![0x0cu8] + uleb(x as nat),
        Instr::BrIf(x) => seq![0x0du8] + uleb(x as nat),
        Instr::Call(x) => seq![0x10u8] + uleb(x as nat),
        Instr::MemorySize(x) => seq![0x3fu8] + uleb(x as nat),
        Instr::MemoryGrow(x) => seq![0x40u8] + uleb(x as nat),
        Instr::Block(bt) => seq![0x02u8] + block_ty_bytes(bt),
        Instr::Loop(bt) => seq![0x03u8] + block_ty_bytes(bt),
        Instr::If(bt) => seq![0x04u8] + block_ty_bytes(bt),
        Instr::I32Load(m) => seq![0x28u8] + uleb(m.align as nat) + uleb(m.offset as nat),
        Instr::I64Load(m) => seq![0x29u8] + uleb(m.align as nat) + uleb(m.offset as nat),
        Instr::F64Load(m) => seq![0x2bu8] + uleb(m.align as nat) + uleb(m.offset as nat),
        Instr::I32Load8U(m) => seq![0x2du8] + uleb(m.align as nat) + uleb(m.offset as nat),
        Instr::I32Store(m) => seq![0x36u8] + uleb(m.align as nat) + uleb(m.offset as nat),
        Instr::I64Store(m) => seq![0x37u8] + uleb(m.align as nat) + uleb(m.offset as nat),
        Instr::F64Store(m) => seq![0x39u8] + uleb(m.align as nat) + uleb(m.offset as nat),
        Instr::I32Store8(m) => seq![0x3au8] + uleb(m.align as nat) + uleb(m.offset as nat),
        Instr::I32Const(x) => seq![0x41u8] + sleb(x as int),
        Instr::I64Const(x) => seq![0x42u8] + sleb(x as int),
        Instr::F64Const(bits) => seq![0x44u8] + le_bytes64(bits),
        Instr::BrTable(targets, default) => seq![0x0eu8] + uleb(targets.view().len()) + uleb_all(targets.view()) + uleb(default as nat),
        Instr::CallIndirect { type_index, table_index } => seq![0x11u8] + uleb(type_index as nat) + uleb(table_index as nat),
        Instr::MemoryCopy { src_mem, dst_mem } => seq![0xfcu8, 0x0au8] + uleb(dst_mem as nat) + uleb(src_mem as nat),
    }
}

/// Appends the encoding of `i` to the body of `f`.
pub fn encode_instr(f: &mut Function, i: &Instr)
    ensures
        body_bytes(*final(f)) == body_bytes(*old(f)) + instr_bytes(*i),
{
    match i {
        Instr::Unreachable => sink_unreachable(f),
        Instr::Else => sink_else(f),
        Instr::End => sink_end(f),
        Instr::Return => sink_return(f),
        Instr::Drop => sink_drop(f),
        Instr::I32Add => sink_i32_add(f),
        Instr::I32Sub => sink_i32_sub(f),
        Instr::I32Mul => sink_i32_mul(f),
        Instr::I32And => sink_i32_and(f),
        Instr::I32Or => sink_i32_or(f),
        Instr::I32Shl => sink_i32_shl(f),
        Instr::I32ShrU => sink_i32_shr_u(f),
        Instr::I32Eq => sink_i32_eq(f),
        Instr::I32Ne => sink_i32_ne(f),
        Instr::I32Eqz => sink_i32_eqz(f),
        Instr::I32LtS => sink_i32_lt_s(f),
        Instr::I32LtU => sink_i32_lt_u(f),
        Instr::I32GtS => sink_i32_gt_s(f),
        Instr::I32GtU => sink_i32_gt_u(f),
        Instr::I32LeS => sink_i32_le_s(f),
        Instr::I32LeU => sink_i32_le_u(f),
        Instr::I32GeS => sink_i32_ge_s(f),
        Instr::I32GeU => sink_i32_ge_u(f),
        Instr::I64Add => sink_i64_add(f),
        Instr::I64Sub => sink_i64_sub(f),
        Instr::I64Mul => sink_i64_mul(f),
        Instr::I64DivS => sink_i64_div_s(f),
        Instr::I64DivU => sink_i64_div_u(f),
        Instr::I64RemS => sink_i64_rem_s(f),
        Instr::I64RemU => sink_i64_rem_u(f),
        Instr::I64And => sink_i64_and(f),
        Instr::I64Or => sink_i64_or(f),
        Instr::I64Xor => sink_i64_xor(f),
        Instr::I64Shl => sink_i64_shl(f),
        Instr::I64ShrS => sink_i64_shr_s(f),
        Instr::I64ShrU => sink_i64_shr_u(f),
        Instr::I64Eq => sink_i64_eq(f),
        Instr::I64Ne => sink_i64_ne(f),
        Instr::I64Eqz => sink_i64_eqz(f),
        Instr::I64LtS => sink_i64_lt_s(f),
        Instr::I64LtU => sink_i64_lt_u(f),
        Instr::I64GtS => sink_i64_gt_s(f),
        Instr::I64GtU => sink_i64_gt_u(f),
        Instr::I64LeS => sink_i64_le_s(f),
        Instr::I64LeU => sink_i64_le_u(f),
        Instr::I64GeS => sink_i64_ge_s(f),
        Instr::I64GeU => sink_i64_ge_u(f),
        Instr::I64ExtendI32U => sink_i64_extend_i32_u(f),
        Instr::I32WrapI64 => sink_i32_wrap_i64(f),
        Instr::F64Add => sink_f64_add(f),
        Instr::F64Sub => sink_f64_sub(f),
        Instr::F64Mul => sink_f64_mul(f),
        Instr::F64Div => sink_f64_div(f),
        Instr::F64Neg => sink_f64_neg(f),
        Instr::F64Abs => sink_f64_abs(f),
        Instr::F64Trunc => sink_f64_trunc(f),
        Instr::F64Eq => sink_f64_eq(f),
        Instr::F64Ne => sink_f64_ne(f),
        Instr::F64Lt => sink_f64_lt(f),
        Instr::F64Gt => sink_f64_gt(f),
        Instr::F64Le => sink_f64_le(f),
        Instr::F64Ge => sink_f64_ge(f),
        Instr::F64ConvertI64S => sink_f64_convert_i64_s(f),
        Instr::I64TruncSatF64S => sink_i64_trunc_sat_f64_s(f),
        Instr::LocalGet(x) => sink_local_get(f, *x),
        Instr::LocalSet(x) => sink_local_set(f, *x),
        Instr::LocalTee(x) => sink_local_tee(f, *x),
        Instr::GlobalGet(x) => sink_global_get(f, *x),
        Instr::GlobalSet(x) => sink_global_set(f, *x),
        Instr::Br(x) => sink_br(f, *x),
        Instr::BrIf(x) => sink_br_if(f, *x),
        Instr::Call(x) => sink_call(f, *x),
        Instr::MemorySize(x) => sink_memory_size(f, *x),
        Instr::MemoryGrow(x) => sink_memory_grow(f, *x),
        Instr::Block(bt) => sink_block(f, *bt),
        Instr::Loop(bt) => sink_loop(f, *bt),
        Instr::If(bt) => sink_if(f, *bt),
        Instr::I32Load(m) => sink_i32_load(f, m.align, m.offset),
        Instr::I64Load(m) => sink_i64_load(f, m.align, m.offset),
        Instr::F64Load(m) => sink_f64_load(f, m.align, m.offset),
        Instr::I32Load8U(m) => sink_i32_load8_u(f, m.align, m.offset),
        Instr::I32Store(m) => sink_i32_store(f, m.align, m.offset),
        Instr::I64Store(m) => sink_i64_store(f, m.align, m.offset),
        Instr::F64Store(m) => sink_f64_store(f, m.align, m.offset),
        Instr::I32Store8(m) => sink_i32_store8(f, m.align, m.offset),
        Instr::I32Const(x) => sink_i32_const(f, *x),
        Instr::I64Const(x) => sink_i64_const(f, *x),
        Instr::F64Const(bits) => sink_f64_const(f, *bits),
        Instr::BrTable(targets, default) => sink_br_table(f, &targets.to_vec(), *default),
        Instr::CallIndirect { type_index, table_index } => sink_call_indirect(f, *table_index, *type_index),
        Instr::MemoryCopy { src_mem, dst_mem } => sink_memory_copy(f, *dst_mem, *src_mem),
    }
}


/// Concatenation of the encodings of a list of instructions.
pub open spec fn instrs_bytes(s: Seq<Instr>) -> Seq<u8>
    decreases s.len(),
{
    if s.len() == 0 {
        Seq::empty()
    } else {
        instrs_bytes(s.drop_last()) + instr_bytes(s.last())
    }
}


/// Builds a `wasm_encoder` function body from its locals and instructions.
pub fn encode_body(locals: &Vec<(u32, ValTy)>, instrs: &Vec<Instr>) -> (f: Function)
    requires
        locals.len() <= u32::MAX,
    ensures
        body_bytes(f) == locals_bytes(locals@) + instrs_bytes(instrs@),
{
    let mut f = new_function(locals);
    let mut k: usize = 0;
    while k < instrs.len()
        invariant
            0 <= k <= instrs.len(),
                body_bytes(f) == locals_bytes(locals@) + instrs_bytes(instrs@.take(k as int)),
        decreases instrs.len() - k,
    {
        assert(instrs@.take(k + 1).drop_last() =~= instrs@.take(k as int));
        encode_instr(&mut f, &instrs[k]);
        k = k + 1;
    }
    assert(instrs@.take(k as int) =~= instrs@);
    f
}

} // verus!
