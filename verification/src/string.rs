//! Internal string helpers, emitted as WASM functions.

use vstd::prelude::*;
use wasm_encoder::Function;
use crate::encode::{body_bytes, encode_body, instrs_bytes, locals_bytes};
use crate::instr::{BlockTy, Instr, MemArg, ValTy};

verus! {

/// Tag bit of a special (non-flat) string header.
pub const STRING_SPECIAL_TAG_MASK: i32 = -2147483648i32;
/// Length bits of a string header.
pub const STRING_SPECIAL_LEN_MASK: i32 = 2147483647i32;
/// Special string kind: forwarded.
pub const STRING_FORWARD_SENTINEL: i32 = -1i32;
/// Special string kind: lazily computed MD5 digest.
pub const STRING_MD5_SENTINEL: i32 = -2i32;
/// Special string kind: slice of another string.
pub const STRING_SLICE_SENTINEL: i32 = -3i32;

/// The instructions that `emit_alloc_empty_string` appends.
pub open spec fn spec_emit_alloc_empty_string(alloc_fn_index: u32, out_local: u32) -> Seq<Instr> {
    seq![
            Instr::I32Const(8i32),
            Instr::Call(alloc_fn_index),
            Instr::LocalSet(out_local),
            Instr::LocalGet(out_local),
            Instr::I64Const(0i64),
            Instr::I64Store(MemArg { offset: 0, align: 3 }),
        ]
}

/// The instructions of `emit_alloc_empty_string`, as a new list.
pub(crate) fn emit_alloc_empty_string_vec(alloc_fn_index: u32, out_local: u32) -> (r: Vec<Instr>)
    ensures
        r@ == spec_emit_alloc_empty_string(alloc_fn_index, out_local),
{
    let mut v: Vec<Instr> = vec![Instr::I32Const(8i32), Instr::Call(alloc_fn_index), Instr::LocalSet(out_local), Instr::LocalGet(out_local), Instr::I64Const(0i64), Instr::I64Store(MemArg { offset: 0, align: 3 })];
    v
}

/// Instructions emitted by `emit_alloc_empty_string`.
pub(crate) fn emit_alloc_empty_string(out: &mut Vec<Instr>, alloc_fn_index: u32, out_local: u32)
    ensures
        final(out)@ == old(out)@ + spec_emit_alloc_empty_string(alloc_fn_index, out_local),
{
    let mut v = emit_alloc_empty_string_vec(alloc_fn_index, out_local);
    out.append(&mut v);
}

/// The instructions that `emit_utf8_width_from_absolute_index` appends.
pub open spec fn spec_emit_utf8_width_from_absolute_index(string_local: u32, byte_index_local: u32, width_local: u32, byte_local: u32) -> Seq<Instr> {
    seq![
            Instr::LocalGet(string_local),
            Instr::I32Const(8i32),
            Instr::I32Add,
            Instr::LocalGet(byte_index_local),
            Instr::I32Add,
            Instr::I32Load8U(MemArg { offset: 0, align: 0 }),
            Instr::LocalSet(byte_local),
            Instr::I32Const(4i32),
            Instr::LocalSet(width_local),
            Instr::LocalGet(byte_local),
            Instr::I32Const(0xF0),
            Instr::I32LtU,
            Instr::If(BlockTy::Empty),
            Instr::I32Const(3i32),
            Instr::LocalSet(width_local),
            Instr::LocalGet(byte_local),
            Instr::I32Const(0xE0),
            Instr::I32LtU,
            Instr::If(BlockTy::Empty),
            Instr::I32Const(2i32),
            Instr::LocalSet(width_local),
            Instr::LocalGet(byte_local),
            Instr::I32Const(0x80),
            Instr::I32LtU,
            Instr::If(BlockTy::Empty),
            Instr::I32Const(1i32),
            Instr::LocalSet(width_local),
            Instr::End,
            Instr::End,
            Instr::End,
        ]
}

/// The instructions of `emit_utf8_width_from_absolute_index`, as a new list.
pub(crate) fn emit_utf8_width_from_absolute_index_vec(string_local: u32, byte_index_local: u32, width_local: u32, byte_local: u32) -> (r: Vec<Instr>)
    ensures
        r@ == spec_emit_utf8_width_from_absolute_index(string_local, byte_index_local, width_local, byte_local),
{
    let mut v: Vec<Instr> = vec![Instr::LocalGet(string_local), Instr::I32Const(8i32), Instr::I32Add, Instr::LocalGet(byte_index_local), Instr::I32Add, Instr::I32Load8U(MemArg { offset: 0, align: 0 }), Instr::LocalSet(byte_local), Instr::I32Const(4i32), Instr::LocalSet(width_local), Instr::LocalGet(byte_local), Instr::I32Const(0xF0), Instr::I32LtU, Instr::If(BlockTy::Empty), Instr::I32Const(3i32), Instr::LocalSet(width_local), Instr::LocalGet(byte_local), Instr::I32Const(0xE0), Instr::I32LtU, Instr::If(BlockTy::Empty), Instr::I32Const(2i32), Instr::LocalSet(width_local), Instr::LocalGet(byte_local), Instr::I32Const(0x80), Instr::I32LtU, Instr::If(BlockTy::Empty), Instr::I32Const(1i32), Instr::LocalSet(width_local), Instr::End, Instr::End, Instr::End];
    v
}

/// Instructions emitted by `emit_utf8_width_from_absolute_index`.
pub(crate) fn emit_utf8_width_from_absolute_index(out: &mut Vec<Instr>, string_local: u32, byte_index_local: u32, width_local: u32, byte_local: u32)
    ensures
        final(out)@ == old(out)@ + spec_emit_utf8_width_from_absolute_index(string_local, byte_index_local, width_local, byte_local),
{
    let mut v = emit_utf8_width_from_absolute_index_vec(string_local, byte_index_local, width_local, byte_local);
    out.append(&mut v);
}

/// The instructions that `emit_utf8_codepoint_from_absolute_index` appends.
pub open spec fn spec_emit_utf8_codepoint_from_absolute_index(string_local: u32, byte_index_local: u32, width_local: u32, dst_local: u32) -> Seq<Instr> {
    seq![
            Instr::LocalGet(width_local),
            Instr::I32Const(1i32),
            Instr::I32Eq,
            Instr::If(BlockTy::Empty),
            Instr::LocalGet(string_local),
            Instr::I32Const(8i32),
            Instr::I32Add,
            Instr::LocalGet(byte_index_local),
            Instr::I32Add,
            Instr::I32Load8U(MemArg { offset: 0, align: 0 }),
            Instr::LocalSet(dst_local),
            Instr::Else,
            Instr::LocalGet(width_local),
            Instr::I32Const(2i32),
            Instr::I32Eq,
            Instr::If(BlockTy::Empty),
            Instr::LocalGet(string_local),
            Instr::I32Const(8i32),
            Instr::I32Add,
            Instr::LocalGet(byte_index_local),
            Instr::I32Add,
            Instr::I32Load8U(MemArg { offset: 0, align: 0 }),
            Instr::I32Const(0x1F),
            Instr::I32And,
            Instr::I32Const(6i32),
            Instr::I32Shl,
            Instr::LocalGet(string_local),
            Instr::I32Const(8i32),
            Instr::I32Add,
            Instr::LocalGet(byte_index_local),
            Instr::I32Add,
            Instr::I32Const(1i32),
            Instr::I32Add,
            Instr::I32Load8U(MemArg { offset: 0, align: 0 }),
            Instr::I32Const(0x3F),
            Instr::I32And,
            Instr::I32Or,
            Instr::LocalSet(dst_local),
            Instr::Else,
            Instr::LocalGet(width_local),
            Instr::I32Const(3i32),
            Instr::I32Eq,
            Instr::If(BlockTy::Empty),
            Instr::LocalGet(string_local),
            Instr::I32Const(8i32),
            Instr::I32Add,
            Instr::LocalGet(byte_index_local),
            Instr::I32Add,
            Instr::I32Load8U(MemArg { offset: 0, align: 0 }),
            Instr::I32Const(0x0F),
            Instr::I32And,
            Instr::I32Const(12i32),
            Instr::I32Shl,
            Instr::LocalGet(string_local),
            Instr::I32Const(8i32),
            Instr::I32Add,
            Instr::LocalGet(byte_index_local),
            Instr::I32Add,
            Instr::I32Const(1i32),
            Instr::I32Add,
            Instr::I32Load8U(MemArg { offset: 0, align: 0 }),
            Instr::I32Const(0x3F),
            Instr::I32And,
            Instr::I32Const(6i32),
            Instr::I32Shl,
            Instr::I32Or,
            Instr::LocalGet(string_local),
            Instr::I32Const(8i32),
            Instr::I32Add,
            Instr::LocalGet(byte_index_local),
            Instr::I32Add,
            Instr::I32Const(2i32),
            Instr::I32Add,
            Instr::I32Load8U(MemArg { offset: 0, align: 0 }),
            Instr::I32Const(0x3F),
            Instr::I32And,
            Instr::I32Or,
            Instr::LocalSet(dst_local),
            Instr::Else,
            Instr::LocalGet(string_local),
            Instr::I32Const(8i32),
            Instr::I32Add,
            Instr::LocalGet(byte_index_local),
            Instr::I32Add,
            Instr::I32Load8U(MemArg { offset: 0, align: 0 }),
            Instr::I32Const(0x07),
            Instr::I32And,
            Instr::I32Const(18i32),
            Instr::I32Shl,
            Instr::LocalGet(string_local),
            Instr::I32Const(8i32),
            Instr::I32Add,
            Instr::LocalGet(byte_index_local),
            Instr::I32Add,
            Instr::I32Const(1i32),
            Instr::I32Add,
            Instr::I32Load8U(MemArg { offset: 0, align: 0 }),
            Instr::I32Const(0x3F),
            Instr::I32And,
            Instr::I32Const(12i32),
            Instr::I32Shl,
            Instr::I32Or,
            Instr::LocalGet(string_local),
            Instr::I32Const(8i32),
            Instr::I32Add,
            Instr::LocalGet(byte_index_local),
            Instr::I32Add,
            Instr::I32Const(2i32),
            Instr::I32Add,
            Instr::I32Load8U(MemArg { offset: 0, align: 0 }),
            Instr::I32Const(0x3F),
            Instr::I32And,
            Instr::I32Const(6i32),
            Instr::I32Shl,
            Instr::I32Or,
            Instr::LocalGet(string_local),
            Instr::I32Const(8i32),
            Instr::I32Add,
            Instr::LocalGet(byte_index_local),
            Instr::I32Add,
            Instr::I32Const(3i32),
            Instr::I32Add,
            Instr::I32Load8U(MemArg { offset: 0, align: 0 }),
            Instr::I32Const(0x3F),
            Instr::I32And,
            Instr::I32Or,
            Instr::LocalSet(dst_local),
            Instr::End,
            Instr::End,
            Instr::End,
        ]
}

/// The instructions of `emit_utf8_codepoint_from_absolute_index`, as a new list.
pub(crate) fn emit_utf8_codepoint_from_absolute_index_vec(string_local: u32, byte_index_local: u32, width_local: u32, dst_local: u32) -> (r: Vec<Instr>)
    ensures
        r@ == spec_emit_utf8_codepoint_from_absolute_index(string_local, byte_index_local, width_local, dst_local),
{
    let mut v: Vec<Instr> = vec![Instr::LocalGet(width_local), Instr::I32Const(1i32), Instr::I32Eq, Instr::If(BlockTy::Empty), Instr::LocalGet(string_local), Instr::I32Const(8i32), Instr::I32Add, Instr::LocalGet(byte_index_local), Instr::I32Add, Instr::I32Load8U(MemArg { offset: 0, align: 0 }), Instr::LocalSet(dst_local), Instr::Else, Instr::LocalGet(width_local), Instr::I32Const(2i32), Instr::I32Eq, Instr::If(BlockTy::Empty), Instr::LocalGet(string_local), Instr::I32Const(8i32), Instr::I32Add, Instr::LocalGet(byte_index_local), Instr::I32Add, Instr::I32Load8U(MemArg { offset: 0, align: 0 }), Instr::I32Const(0x1F), Instr::I32And, Instr::I32Const(6i32), Instr::I32Shl, Instr::LocalGet(string_local), Instr::I32Const(8i32), Instr::I32Add, Instr::LocalGet(byte_index_local), Instr::I32Add, Instr::I32Const(1i32), Instr::I32Add, Instr::I32Load8U(MemArg { offset: 0, align: 0 }), Instr::I32Const(0x3F), Instr::I32And, Instr::I32Or, Instr::LocalSet(dst_local), Instr::Else, Instr::LocalGet(width_local), Instr::I32Const(3i32), Instr::I32Eq, Instr::If(BlockTy::Empty), Instr::LocalGet(string_local), Instr::I32Const(8i32), Instr::I32Add, Instr::LocalGet(byte_index_local), Instr::I32Add, Instr::I32Load8U(MemArg { offset: 0, align: 0 }), Instr::I32Const(0x0F), Instr::I32And, Instr::I32Const(12i32), Instr::I32Shl, Instr::LocalGet(string_local), Instr::I32Const(8i32), Instr::I32Add, Instr::LocalGet(byte_index_local), Instr::I32Add, Instr::I32Const(1i32), Instr::I32Add, Instr::I32Load8U(MemArg { offset: 0, align: 0 }), Instr::I32Const(0x3F), Instr::I32And, Instr::I32Const(6i32), Instr::I32Shl, Instr::I32Or, Instr::LocalGet(string_local), Instr::I32Const(8i32), Instr::I32Add, Instr::LocalGet(byte_index_local), Instr::I32Add, Instr::I32Const(2i32), Instr::I32Add, Instr::I32Load8U(MemArg { offset: 0, align: 0 }), Instr::I32Const(0x3F), Instr::I32And, Instr::I32Or, Instr::LocalSet(dst_local), Instr::Else, Instr::LocalGet(string_local), Instr::I32Const(8i32), Instr::I32Add, Instr::LocalGet(byte_index_local), Instr::I32Add, Instr::I32Load8U(MemArg { offset: 0, align: 0 }), Instr::I32Const(0x07), Instr::I32And, Instr::I32Const(18i32), Instr::I32Shl, Instr::LocalGet(string_local), Instr::I32Const(8i32), Instr::I32Add, Instr::LocalGet(byte_index_local), Instr::I32Add, Instr::I32Const(1i32), Instr::I32Add, Instr::I32Load8U(MemArg { offset: 0, align: 0 }), Instr::I32Const(0x3F), Instr::I32And, Instr::I32Const(12i32), Instr::I32Shl, Instr::I32Or, Instr::LocalGet(string_local), Instr::I32Const(8i32), Instr::I32Add, Instr::LocalGet(byte_index_local), Instr::I32Add, Instr::I32Const(2i32), Instr::I32Add, Instr::I32Load8U(MemArg { offset: 0, align: 0 }), Instr::I32Const(0x3F), Instr::I32And, Instr::I32Const(6i32), Instr::I32Shl, Instr::I32Or, Instr::LocalGet(string_local), Instr::I32Const(8i32), Instr::I32Add, Instr::LocalGet(byte_index_local), Instr::I32Add, Instr::I32Const(3i32), Instr::I32Add, Instr::I32Load8U(MemArg { offset: 0, align: 0 }), Instr::I32Const(0x3F), Instr::I32And, Instr::I32Or, Instr::LocalSet(dst_local), Instr::End, Instr::End, Instr::End];
    v
}

/// Instructions emitted by `emit_utf8_codepoint_from_absolute_index`.
pub(crate) fn emit_utf8_codepoint_from_absolute_index(out: &mut Vec<Instr>, string_local: u32, byte_index_local: u32, width_local: u32, dst_local: u32)
    ensures
        final(out)@ == old(out)@ + spec_emit_utf8_codepoint_from_absolute_index(string_local, byte_index_local, width_local, dst_local),
{
    let mut v = emit_utf8_codepoint_from_absolute_index_vec(string_local, byte_index_local, width_local, dst_local);
    out.append(&mut v);
}

/// The instructions that `emit_trim_whitespace_check_from_absolute_index` appends.
pub open spec fn spec_emit_trim_whitespace_check_from_absolute_index(string_local: u32, byte_index_local: u32, width_local: u32, dst_local: u32) -> Seq<Instr> {
    spec_emit_utf8_codepoint_from_absolute_index(string_local, byte_index_local, width_local, dst_local)
        + seq![
            Instr::LocalGet(dst_local),
            Instr::I32Const(0x09),
            Instr::I32GeU,
            Instr::LocalGet(dst_local),
            Instr::I32Const(0x0D),
            Instr::I32LeU,
            Instr::I32And,
            Instr::LocalGet(dst_local),
            Instr::I32Const(0x20),
            Instr::I32Eq,
            Instr::I32Or,
            Instr::LocalGet(dst_local),
            Instr::I32Const(0x85),
            Instr::I32Eq,
            Instr::I32Or,
            Instr::LocalGet(dst_local),
            Instr::I32Const(0xA0),
            Instr::I32Eq,
            Instr::I32Or,
            Instr::LocalGet(dst_local),
            Instr::I32Const(0x1680),
            Instr::I32Eq,
            Instr::I32Or,
            Instr::LocalGet(dst_local),
            Instr::I32Const(0x2000),
            Instr::I32GeU,
            Instr::LocalGet(dst_local),
            Instr::I32Const(0x200A),
            Instr::I32LeU,
            Instr::I32And,
            Instr::I32Or,
            Instr::LocalGet(dst_local),
            Instr::I32Const(0x2028),
            Instr::I32Eq,
            Instr::I32Or,
            Instr::LocalGet(dst_local),
            Instr::I32Const(0x2029),
            Instr::I32Eq,
            Instr::I32Or,
            Instr::LocalGet(dst_local),
            Instr::I32Const(0x202F),
            Instr::I32Eq,
            Instr::I32Or,
            Instr::LocalGet(dst_local),
            Instr::I32Const(0x205F),
            Instr::I32Eq,
            Instr::I32Or,
            Instr::LocalGet(dst_local),
            Instr::I32Const(0x3000),
            Instr::I32Eq,
            Instr::I32Or,
            Instr::LocalSet(dst_local),
        ]
}

/// The instructions of `emit_trim_whitespace_check_from_absolute_index`, as a new list.
pub(crate) fn emit_trim_whitespace_check_from_absolute_index_vec(string_local: u32, byte_index_local: u32, width_local: u32, dst_local: u32) -> (r: Vec<Instr>)
    ensures
        r@ == spec_emit_trim_whitespace_check_from_absolute_index(string_local, byte_index_local, width_local, dst_local),
{
    let mut v: Vec<Instr> = emit_utf8_codepoint_from_absolute_index_vec(string_local, byte_index_local, width_local, dst_local);
    let mut w: Vec<Instr> = vec![Instr::LocalGet(dst_local), Instr::I32Const(0x09), Instr::I32GeU, Instr::LocalGet(dst_local), Instr::I32Const(0x0D), Instr::I32LeU, Instr::I32And, Instr::LocalGet(dst_local), Instr::I32Const(0x20), Instr::I32Eq, Instr::I32Or, Instr::LocalGet(dst_local), Instr::I32Const(0x85), Instr::I32Eq, Instr::I32Or, Instr::LocalGet(dst_local), Instr::I32Const(0xA0), Instr::I32Eq, Instr::I32Or, Instr::LocalGet(dst_local), Instr::I32Const(0x1680), Instr::I32Eq, Instr::I32Or, Instr::LocalGet(dst_local), Instr::I32Const(0x2000), Instr::I32GeU, Instr::LocalGet(dst_local), Instr::I32Const(0x200A), Instr::I32LeU, Instr::I32And, Instr::I32Or, Instr::LocalGet(dst_local), Instr::I32Const(0x2028), Instr::I32Eq, Instr::I32Or, Instr::LocalGet(dst_local), Instr::I32Const(0x2029), Instr::I32Eq, Instr::I32Or, Instr::LocalGet(dst_local), Instr::I32Const(0x202F), Instr::I32Eq, Instr::I32Or, Instr::LocalGet(dst_local), Instr::I32Const(0x205F), Instr::I32Eq, Instr::I32Or, Instr::LocalGet(dst_local), Instr::I32Const(0x3000), Instr::I32Eq, Instr::I32Or, Instr::LocalSet(dst_local)];
    v.append(&mut w);
    v
}

/// Instructions emitted by `emit_trim_whitespace_check_from_absolute_index`.
pub(crate) fn emit_trim_whitespace_check_from_absolute_index(out: &mut Vec<Instr>, string_local: u32, byte_index_local: u32, width_local: u32, dst_local: u32)
    ensures
        final(out)@ == old(out)@ + spec_emit_trim_whitespace_check_from_absolute_index(string_local, byte_index_local, width_local, dst_local),
{
    let mut v = emit_trim_whitespace_check_from_absolute_index_vec(string_local, byte_index_local, width_local, dst_local);
    out.append(&mut v);
}

/// The instructions that `emit_flatten_into_function_body` appends.
pub open spec fn spec_emit_flatten_into_function_body(flatten_into_fn_index: u32, string_md5_materialize_fn_index: Option<u32>) -> Seq<Instr> {
    let materialize_fn_index: u32 = match string_md5_materialize_fn_index { Some(v) => v, None => flatten_into_fn_index };
    seq![
            Instr::LocalGet(0),
            Instr::I32Load(MemArg { offset: 0, align: 2 }),
            Instr::LocalSet(2),
            Instr::LocalGet(2),
            Instr::I32Const(0i32),
            Instr::I32GeS,
            Instr::If(BlockTy::Result(ValTy::I32)),
            Instr::LocalGet(1),
            Instr::LocalGet(0),
            Instr::I32Const(8i32),
            Instr::I32Add,
            Instr::LocalGet(2),
            Instr::MemoryCopy { src_mem: 0, dst_mem: 0 },
            Instr::LocalGet(1),
            Instr::LocalGet(2),
            Instr::I32Add,
            Instr::Else,
            Instr::LocalGet(0),
            Instr::I32Load(MemArg { offset: 12, align: 2 }),
            Instr::LocalSet(3),
            Instr::LocalGet(3),
            Instr::I32Const(STRING_FORWARD_SENTINEL),
            Instr::I32Eq,
            Instr::If(BlockTy::Result(ValTy::I32)),
            Instr::LocalGet(0),
            Instr::I32Load(MemArg { offset: 8, align: 2 }),
            Instr::LocalSet(4),
            Instr::LocalGet(4),
            Instr::I32Load(MemArg { offset: 0, align: 2 }),
            Instr::LocalSet(2),
            Instr::LocalGet(1),
            Instr::LocalGet(4),
            Instr::I32Const(8i32),
            Instr::I32Add,
            Instr::LocalGet(2),
            Instr::MemoryCopy { src_mem: 0, dst_mem: 0 },
            Instr::LocalGet(1),
            Instr::LocalGet(2),
            Instr::I32Add,
            Instr::Else,
            Instr::LocalGet(3),
            Instr::I32Const(STRING_MD5_SENTINEL),
            Instr::I32Eq,
            Instr::If(BlockTy::Result(ValTy::I32)),
            Instr::LocalGet(0),
            Instr::LocalGet(1),
            Instr::Call(materialize_fn_index),
            Instr::I32Const(0i32),
            Instr::I32Ne,
            Instr::If(BlockTy::Empty),
            Instr::Unreachable,
            Instr::End,
            Instr::LocalGet(1),
            Instr::LocalGet(2),
            Instr::I32Const(STRING_SPECIAL_LEN_MASK),
            Instr::I32And,
            Instr::I32Add,
            Instr::Else,
            Instr::LocalGet(3),
            Instr::I32Const(STRING_SLICE_SENTINEL),
            Instr::I32Eq,
            Instr::If(BlockTy::Result(ValTy::I32)),
            Instr::LocalGet(0),
            Instr::I32Load(MemArg { offset: 8, align: 2 }),
            Instr::LocalSet(4),
            Instr::LocalGet(4),
            Instr::I32Load(MemArg { offset: 0, align: 2 }),
            Instr::LocalSet(5),
            Instr::LocalGet(4),
            Instr::I32Load(MemArg { offset: 4, align: 2 }),
            Instr::LocalSet(3),
            Instr::LocalGet(1),
            Instr::LocalGet(5),
            Instr::I32Const(8i32),
            Instr::I32Add,
            Instr::LocalGet(3),
            Instr::I32Add,
            Instr::LocalGet(2),
            Instr::I32Const(STRING_SPECIAL_LEN_MASK),
            Instr::I32And,
            Instr::MemoryCopy { src_mem: 0, dst_mem: 0 },
            Instr::LocalGet(1),
            Instr::LocalGet(2),
            Instr::I32Const(STRING_SPECIAL_LEN_MASK),
            Instr::I32And,
            Instr::I32Add,
            Instr::Else,
            Instr::LocalGet(0),
            Instr::I32Load(MemArg { offset: 8, align: 2 }),
            Instr::LocalGet(1),
            Instr::Call(flatten_into_fn_index),
            Instr::LocalSet(4),
            Instr::LocalGet(3),
            Instr::LocalGet(4),
            Instr::Call(flatten_into_fn_index),
            Instr::End,
            Instr::End,
            Instr::End,
            Instr::End,
            Instr::End,
        ]
}

/// The instructions of `emit_flatten_into_function_body`, as a new list.
pub(crate) fn emit_flatten_into_function_body_vec(flatten_into_fn_index: u32, string_md5_materialize_fn_index: Option<u32>) -> (r: Vec<Instr>)
    ensures
        r@ == spec_emit_flatten_into_function_body(flatten_into_fn_index, string_md5_materialize_fn_index),
{
    let materialize_fn_index: u32 = match string_md5_materialize_fn_index { Some(v) => v, None => flatten_into_fn_index };
    let mut v: Vec<Instr> = vec![Instr::LocalGet(0), Instr::I32Load(MemArg { offset: 0, align: 2 }), Instr::LocalSet(2), Instr::LocalGet(2), Instr::I32Const(0i32), Instr::I32GeS, Instr::If(BlockTy::Result(ValTy::I32)), Instr::LocalGet(1), Instr::LocalGet(0), Instr::I32Const(8i32), Instr::I32Add, Instr::LocalGet(2), Instr::MemoryCopy { src_mem: 0, dst_mem: 0 }, Instr::LocalGet(1), Instr::LocalGet(2), Instr::I32Add, Instr::Else, Instr::LocalGet(0), Instr::I32Load(MemArg { offset: 12, align: 2 }), Instr::LocalSet(3), Instr::LocalGet(3), Instr::I32Const(STRING_FORWARD_SENTINEL), Instr::I32Eq, Instr::If(BlockTy::Result(ValTy::I32)), Instr::LocalGet(0), Instr::I32Load(MemArg { offset: 8, align: 2 }), Instr::LocalSet(4), Instr::LocalGet(4), Instr::I32Load(MemArg { offset: 0, align: 2 }), Instr::LocalSet(2), Instr::LocalGet(1), Instr::LocalGet(4), Instr::I32Const(8i32), Instr::I32Add, Instr::LocalGet(2), Instr::MemoryCopy { src_mem: 0, dst_mem: 0 }, Instr::LocalGet(1), Instr::LocalGet(2), Instr::I32Add, Instr::Else, Instr::LocalGet(3), Instr::I32Const(STRING_MD5_SENTINEL), Instr::I32Eq, Instr::If(BlockTy::Result(ValTy::I32)), Instr::LocalGet(0), Instr::LocalGet(1), Instr::Call(materialize_fn_index), Instr::I32Const(0i32), Instr::I32Ne, Instr::If(BlockTy::Empty), Instr::Unreachable, Instr::End, Instr::LocalGet(1), Instr::LocalGet(2), Instr::I32Const(STRING_SPECIAL_LEN_MASK), Instr::I32And, Instr::I32Add, Instr::Else, Instr::LocalGet(3), Instr::I32Const(STRING_SLICE_SENTINEL), Instr::I32Eq, Instr::If(BlockTy::Result(ValTy::I32)), Instr::LocalGet(0), Instr::I32Load(MemArg { offset: 8, align: 2 }), Instr::LocalSet(4), Instr::LocalGet(4), Instr::I32Load(MemArg { offset: 0, align: 2 }), Instr::LocalSet(5), Instr::LocalGet(4), Instr::I32Load(MemArg { offset: 4, align: 2 }), Instr::LocalSet(3), Instr::LocalGet(1), Instr::LocalGet(5), Instr::I32Const(8i32), Instr::I32Add, Instr::LocalGet(3), Instr::I32Add, Instr::LocalGet(2), Instr::I32Const(STRING_SPECIAL_LEN_MASK), Instr::I32And, Instr::MemoryCopy { src_mem: 0, dst_mem: 0 }, Instr::LocalGet(1), Instr::LocalGet(2), Instr::I32Const(STRING_SPECIAL_LEN_MASK), Instr::I32And, Instr::I32Add, Instr::Else, Instr::LocalGet(0), Instr::I32Load(MemArg { offset: 8, align: 2 }), Instr::LocalGet(1), Instr::Call(flatten_into_fn_index), Instr::LocalSet(4), Instr::LocalGet(3), Instr::LocalGet(4), Instr::Call(flatten_into_fn_index), Instr::End, Instr::End, Instr::End, Instr::End, Instr::End];
    v
}

/// Appends the body of `emit_flatten_into_function`.
pub(crate) fn emit_flatten_into_function_body(out: &mut Vec<Instr>, flatten_into_fn_index: u32, string_md5_materialize_fn_index: Option<u32>)
    ensures
        final(out)@ == old(out)@ + spec_emit_flatten_into_function_body(flatten_into_fn_index, string_md5_materialize_fn_index),
{
    let mut v = emit_flatten_into_function_body_vec(flatten_into_fn_index, string_md5_materialize_fn_index);
    out.append(&mut v);
}

/// The local declarations of `emit_flatten_into_function`.
pub open spec fn spec_emit_flatten_into_function_locals() -> Seq<(u32, ValTy)> {
    seq![(4, ValTy::I32)]
}

/// Emit `$string_flatten_into(src: i32, dst: i32) -> i32`.
///
/// Returns the next free destination pointer after copying `src` into `dst`.
pub fn emit_flatten_into_function(flatten_into_fn_index: u32, string_md5_materialize_fn_index: Option<u32>) -> (func: Function)
    ensures
        body_bytes(func) == locals_bytes(spec_emit_flatten_into_function_locals()) + instrs_bytes(spec_emit_flatten_into_function_body(flatten_into_fn_index, string_md5_materialize_fn_index)),
{
    let instrs = emit_flatten_into_function_body_vec(flatten_into_fn_index, string_md5_materialize_fn_index);
    let mut locals: Vec<(u32, ValTy)> = Vec::new();
    locals.push((4, ValTy::I32));
    assert(locals@ =~= spec_emit_flatten_into_function_locals());
    encode_body(&locals, &instrs)
}

/// The instructions that `emit_flatten_function_body` appends.
pub open spec fn spec_emit_flatten_function_body(alloc_fn_index: u32, flatten_into_fn_index: u32, string_md5_materialize_fn_index: Option<u32>) -> Seq<Instr> {
    let materialize_fn_index: u32 = match string_md5_materialize_fn_index { Some(v) => v, None => flatten_into_fn_index };
    seq![
            Instr::LocalGet(0),
            Instr::I32Load(MemArg { offset: 0, align: 2 }),
            Instr::LocalSet(1),
            Instr::LocalGet(1),
            Instr::I32Const(0i32),
            Instr::I32GeS,
            Instr::If(BlockTy::Result(ValTy::I32)),
            Instr::LocalGet(0),
            Instr::Else,
            Instr::LocalGet(0),
            Instr::I32Load(MemArg { offset: 12, align: 2 }),
            Instr::LocalSet(3),
            Instr::LocalGet(3),
            Instr::I32Const(STRING_FORWARD_SENTINEL),
            Instr::I32Eq,
            Instr::If(BlockTy::Result(ValTy::I32)),
            Instr::LocalGet(0),
            Instr::I32Load(MemArg { offset: 8, align: 2 }),
            Instr::Else,
            Instr::LocalGet(0),
            Instr::I32Load(MemArg { offset: 4, align: 2 }),
            Instr::LocalSet(2),
            Instr::LocalGet(1),
            Instr::I32Const(STRING_SPECIAL_LEN_MASK),
            Instr::I32And,
            Instr::LocalSet(1),
            Instr::LocalGet(1),
            Instr::I32Const(8i32),
            Instr::I32Add,
            Instr::Call(alloc_fn_index),
            Instr::LocalSet(4),
            Instr::LocalGet(4),
            Instr::LocalGet(1),
            Instr::I32Store(MemArg { offset: 0, align: 2 }),
            Instr::LocalGet(4),
            Instr::LocalGet(2),
            Instr::I32Store(MemArg { offset: 4, align: 2 }),
            Instr::LocalGet(3),
            Instr::I32Const(STRING_MD5_SENTINEL),
            Instr::I32Eq,
            Instr::If(BlockTy::Empty),
            Instr::LocalGet(0),
            Instr::LocalGet(4),
            Instr::I32Const(8i32),
            Instr::I32Add,
            Instr::Call(materialize_fn_index),
            Instr::I32Const(0i32),
            Instr::I32Ne,
            Instr::If(BlockTy::Empty),
            Instr::Unreachable,
            Instr::End,
            Instr::Else,
            Instr::LocalGet(0),
            Instr::LocalGet(4),
            Instr::I32Const(8i32),
            Instr::I32Add,
            Instr::Call(flatten_into_fn_index),
            Instr::Drop,
            Instr::End,
            Instr::LocalGet(0),
            Instr::LocalGet(4),
            Instr::I32Store(MemArg { offset: 8, align: 2 }),
            Instr::LocalGet(0),
            Instr::I32Const(STRING_FORWARD_SENTINEL),
            Instr::I32Store(MemArg { offset: 12, align: 2 }),
            Instr::LocalGet(4),
            Instr::End,
            Instr::End,
            Instr::End,
        ]
}

/// The instructions of `emit_flatten_function_body`, as a new list.
pub(crate) fn emit_flatten_function_body_vec(alloc_fn_index: u32, flatten_into_fn_index: u32, string_md5_materialize_fn_index: Option<u32>) -> (r: Vec<Instr>)
    ensures
        r@ == spec_emit_flatten_function_body(alloc_fn_index, flatten_into_fn_index, string_md5_materialize_fn_index),
{
    let materialize_fn_index: u32 = match string_md5_materialize_fn_index { Some(v) => v, None => flatten_into_fn_index };
    let mut v: Vec<Instr> = vec![Instr::LocalGet(0), Instr::I32Load(MemArg { offset: 0, align: 2 }), Instr::LocalSet(1), Instr::LocalGet(1), Instr::I32Const(0i32), Instr::I32GeS, Instr::If(BlockTy::Result(ValTy::I32)), Instr::LocalGet(0), Instr::Else, Instr::LocalGet(0), Instr::I32Load(MemArg { offset: 12, align: 2 }), Instr::LocalSet(3), Instr::LocalGet(3), Instr::I32Const(STRING_FORWARD_SENTINEL), Instr::I32Eq, Instr::If(BlockTy::Result(ValTy::I32)), Instr::LocalGet(0), Instr::I32Load(MemArg { offset: 8, align: 2 }), Instr::Else, Instr::LocalGet(0), Instr::I32Load(MemArg { offset: 4, align: 2 }), Instr::LocalSet(2), Instr::LocalGet(1), Instr::I32Const(STRING_SPECIAL_LEN_MASK), Instr::I32And, Instr::LocalSet(1), Instr::LocalGet(1), Instr::I32Const(8i32), Instr::I32Add, Instr::Call(alloc_fn_index), Instr::LocalSet(4), Instr::LocalGet(4), Instr::LocalGet(1), Instr::I32Store(MemArg { offset: 0, align: 2 }), Instr::LocalGet(4), Instr::LocalGet(2), Instr::I32Store(MemArg { offset: 4, align: 2 }), Instr::LocalGet(3), Instr::I32Const(STRING_MD5_SENTINEL), Instr::I32Eq, Instr::If(BlockTy::Empty), Instr::LocalGet(0), Instr::LocalGet(4), Instr::I32Const(8i32), Instr::I32Add, Instr::Call(materialize_fn_index), Instr::I32Const(0i32), Instr::I32Ne, Instr::If(BlockTy::Empty), Instr::Unreachable, Instr::End, Instr::Else, Instr::LocalGet(0), Instr::LocalGet(4), Instr::I32Const(8i32), Instr::I32Add, Instr::Call(flatten_into_fn_index), Instr::Drop, Instr::End, Instr::LocalGet(0), Instr::LocalGet(4), Instr::I32Store(MemArg { offset: 8, align: 2 }), Instr::LocalGet(0), Instr::I32Const(STRING_FORWARD_SENTINEL), Instr::I32Store(MemArg { offset: 12, align: 2 }), Instr::LocalGet(4), Instr::End, Instr::End, Instr::End];
    v
}

/// Appends the body of `emit_flatten_function`.
pub(crate) fn emit_flatten_function_body(out: &mut Vec<Instr>, alloc_fn_index: u32, flatten_into_fn_index: u32, string_md5_materialize_fn_index: Option<u32>)
    ensures
        final(out)@ == old(out)@ + spec_emit_flatten_function_body(alloc_fn_index, flatten_into_fn_index, string_md5_materialize_fn_index),
{
    let mut v = emit_flatten_function_body_vec(alloc_fn_index, flatten_into_fn_index, string_md5_materialize_fn_index);
    out.append(&mut v);
}

/// The local declarations of `emit_flatten_function`.
pub open spec fn spec_emit_flatten_function_locals() -> Seq<(u32, ValTy)> {
    seq![(4, ValTy::I32)]
}

/// Emit `$string_flatten(ptr: i32) -> i32`.
pub fn emit_flatten_function(alloc_fn_index: u32, flatten_into_fn_index: u32, string_md5_materialize_fn_index: Option<u32>) -> (func: Function)
    ensures
        body_bytes(func) == locals_bytes(spec_emit_flatten_function_locals()) + instrs_bytes(spec_emit_flatten_function_body(alloc_fn_index, flatten_into_fn_index, string_md5_materialize_fn_index)),
{
    let instrs = emit_flatten_function_body_vec(alloc_fn_index, flatten_into_fn_index, string_md5_materialize_fn_index);
    let mut locals: Vec<(u32, ValTy)> = Vec::new();
    locals.push((4, ValTy::I32));
    assert(locals@ =~= spec_emit_flatten_function_locals());
    encode_body(&locals, &instrs)
}

/// The instructions that `emit_trim_function_body` appends.
pub open spec fn spec_emit_trim_function_body(alloc_fn_index: u32, flatten_fn_index: u32) -> Seq<Instr> {
    seq![
            Instr::LocalGet(0),
            Instr::Call(flatten_fn_index),
            Instr::LocalSet(0),
            Instr::LocalGet(0),
            Instr::I32Load(MemArg { offset: 0, align: 2 }),
            Instr::LocalSet(1),
            Instr::LocalGet(0),
            Instr::I32Load(MemArg { offset: 4, align: 2 }),
            Instr::LocalSet(2),
            Instr::I32Const(0i32),
            Instr::LocalSet(3),
            Instr::I32Const(0i32),
            Instr::LocalSet(4),
            Instr::Block(BlockTy::Empty),
            Instr::Loop(BlockTy::Empty),
            Instr::LocalGet(3),
            Instr::LocalGet(1),
            Instr::I32GeU,
            Instr::BrIf(1),
        ]
        + spec_emit_utf8_width_from_absolute_index(0, 3, 5, 6)
        + spec_emit_trim_whitespace_check_from_absolute_index(0, 3, 5, 6)
        + seq![
            Instr::LocalGet(6),
            Instr::I32Eqz,
            Instr::BrIf(1),
            Instr::LocalGet(3),
            Instr::LocalGet(5),
            Instr::I32Add,
            Instr::LocalSet(3),
            Instr::LocalGet(4),
            Instr::I32Const(1i32),
            Instr::I32Add,
            Instr::LocalSet(4),
            Instr::Br(0),
            Instr::End,
            Instr::End,
            Instr::LocalGet(3),
            Instr::LocalGet(1),
            Instr::I32Eq,
            Instr::If(BlockTy::Empty),
        ]
        + spec_emit_alloc_empty_string(alloc_fn_index, 10)
        + seq![
            Instr::Else,
            Instr::LocalGet(1),
            Instr::LocalSet(7),
            Instr::LocalGet(2),
            Instr::LocalSet(8),
            Instr::Block(BlockTy::Empty),
            Instr::Loop(BlockTy::Empty),
            Instr::LocalGet(7),
            Instr::LocalGet(3),
            Instr::I32LeU,
            Instr::BrIf(1),
            Instr::LocalGet(7),
            Instr::I32Const(1i32),
            Instr::I32Sub,
            Instr::LocalSet(9),
            Instr::Block(BlockTy::Empty),
            Instr::Loop(BlockTy::Empty),
            Instr::LocalGet(0),
            Instr::I32Const(8i32),
            Instr::I32Add,
            Instr::LocalGet(9),
            Instr::I32Add,
            Instr::I32Load8U(MemArg { offset: 0, align: 0 }),
            Instr::I32Const(0xC0),
            Instr::I32And,
            Instr::I32Const(0x80),
            Instr::I32Ne,
            Instr::BrIf(1),
            Instr::LocalGet(9),
            Instr::I32Const(1i32),
            Instr::I32Sub,
            Instr::LocalSet(9),
            Instr::Br(0),
            Instr::End,
            Instr::End,
        ]
        + spec_emit_utf8_width_from_absolute_index(0, 9, 2, 6)
        + spec_emit_trim_whitespace_check_from_absolute_index(0, 9, 2, 6)
        + seq![
            Instr::LocalGet(6),
            Instr::I32Eqz,
            Instr::BrIf(1),
            Instr::LocalGet(9),
            Instr::LocalSet(7),
            Instr::LocalGet(8),
            Instr::I32Const(1i32),
            Instr::I32Sub,
            Instr::LocalSet(8),
            Instr::Br(0),
            Instr::End,
            Instr::End,
            Instr::LocalGet(7),
            Instr::LocalGet(3),
            Instr::I32Sub,
            Instr::LocalSet(5),
            Instr::LocalGet(5),
            Instr::I32Const(8i32),
            Instr::I32Add,
            Instr::Call(alloc_fn_index),
            Instr::LocalSet(10),
            Instr::LocalGet(10),
            Instr::LocalGet(5),
            Instr::I32Store(MemArg { offset: 0, align: 2 }),
            Instr::LocalGet(10),
            Instr::LocalGet(8),
            Instr::LocalGet(4),
            Instr::I32Sub,
            Instr::I32Store(MemArg { offset: 4, align: 2 }),
            Instr::LocalGet(10),
            Instr::I32Const(8i32),
            Instr::I32Add,
            Instr::LocalGet(0),
            Instr::I32Const(8i32),
            Instr::I32Add,
            Instr::LocalGet(3),
            Instr::I32Add,
            Instr::LocalGet(5),
            Instr::MemoryCopy { src_mem: 0, dst_mem: 0 },
            Instr::End,
            Instr::LocalGet(10),
            Instr::Return,
            Instr::End,
        ]
}

/// The instructions of `emit_trim_function_body`, as a new list.
pub(crate) fn emit_trim_function_body_vec(alloc_fn_index: u32, flatten_fn_index: u32) -> (r: Vec<Instr>)
    ensures
        r@ == spec_emit_trim_function_body(alloc_fn_index, flatten_fn_index),
{
    let mut v: Vec<Instr> = vec![Instr::LocalGet(0), Instr::Call(flatten_fn_index), Instr::LocalSet(0), Instr::LocalGet(0), Instr::I32Load(MemArg { offset: 0, align: 2 }), Instr::LocalSet(1), Instr::LocalGet(0), Instr::I32Load(MemArg { offset: 4, align: 2 }), Instr::LocalSet(2), Instr::I32Const(0i32), Instr::LocalSet(3), Instr::I32Const(0i32), Instr::LocalSet(4), Instr::Block(BlockTy::Empty), Instr::Loop(BlockTy::Empty), Instr::LocalGet(3), Instr::LocalGet(1), Instr::I32GeU, Instr::BrIf(1)];
    let mut w: Vec<Instr> = emit_utf8_width_from_absolute_index_vec(0, 3, 5, 6);
    v.append(&mut w);
    let mut w: Vec<Instr> = emit_trim_whitespace_check_from_absolute_index_vec(0, 3, 5, 6);
    v.append(&mut w);
    let mut w: Vec<Instr> = vec![Instr::LocalGet(6), Instr::I32Eqz, Instr::BrIf(1), Instr::LocalGet(3), Instr::LocalGet(5), Instr::I32Add, Instr::LocalSet(3), Instr::LocalGet(4), Instr::I32Const(1i32), Instr::I32Add, Instr::LocalSet(4), Instr::Br(0), Instr::End, Instr::End, Instr::LocalGet(3), Instr::LocalGet(1), Instr::I32Eq, Instr::If(BlockTy::Empty)];
    v.append(&mut w);
    let mut w: Vec<Instr> = emit_alloc_empty_string_vec(alloc_fn_index, 10);
    v.append(&mut w);
    let mut w: Vec<Instr> = vec![Instr::Else, Instr::LocalGet(1), Instr::LocalSet(7), Instr::LocalGet(2), Instr::LocalSet(8), Instr::Block(BlockTy::Empty), Instr::Loop(BlockTy::Empty), Instr::LocalGet(7), Instr::LocalGet(3), Instr::I32LeU, Instr::BrIf(1), Instr::LocalGet(7), Instr::I32Const(1i32), Instr::I32Sub, Instr::LocalSet(9), Instr::Block(BlockTy::Empty), Instr::Loop(BlockTy::Empty), Instr::LocalGet(0), Instr::I32Const(8i32), Instr::I32Add, Instr::LocalGet(9), Instr::I32Add, Instr::I32Load8U(MemArg { offset: 0, align: 0 }), Instr::I32Const(0xC0), Instr::I32And, Instr::I32Const(0x80), Instr::I32Ne, Instr::BrIf(1), Instr::LocalGet(9), Instr::I32Const(1i32), Instr::I32Sub, Instr::LocalSet(9), Instr::Br(0), Instr::End, Instr::End];
    v.append(&mut w);
    let mut w: Vec<Instr> = emit_utf8_width_from_absolute_index_vec(0, 9, 2, 6);
    v.append(&mut w);
    let mut w: Vec<Instr> = emit_trim_whitespace_check_from_absolute_index_vec(0, 9, 2, 6);
    v.append(&mut w);
    let mut w: Vec<Instr> = vec![Instr::LocalGet(6), Instr::I32Eqz, Instr::BrIf(1), Instr::LocalGet(9), Instr::LocalSet(7), Instr::LocalGet(8), Instr::I32Const(1i32), Instr::I32Sub, Instr::LocalSet(8), Instr::Br(0), Instr::End, Instr::End, Instr::LocalGet(7), Instr::LocalGet(3), Instr::I32Sub, Instr::LocalSet(5), Instr::LocalGet(5), Instr::I32Const(8i32), Instr::I32Add, Instr::Call(alloc_fn_index), Instr::LocalSet(10), Instr::LocalGet(10), Instr::LocalGet(5), Instr::I32Store(MemArg { offset: 0, align: 2 }), Instr::LocalGet(10), Instr::LocalGet(8), Instr::LocalGet(4), Instr::I32Sub, Instr::I32Store(MemArg { offset: 4, align: 2 }), Instr::LocalGet(10), Instr::I32Const(8i32), Instr::I32Add, Instr::LocalGet(0), Instr::I32Const(8i32), Instr::I32Add, Instr::LocalGet(3), Instr::I32Add, Instr::LocalGet(5), Instr::MemoryCopy { src_mem: 0, dst_mem: 0 }, Instr::End, Instr::LocalGet(10), Instr::Return, Instr::End];
    v.append(&mut w);
    v
}

/// Appends the body of `emit_trim_function`.
pub(crate) fn emit_trim_function_body(out: &mut Vec<Instr>, alloc_fn_index: u32, flatten_fn_index: u32)
    ensures
        final(out)@ == old(out)@ + spec_emit_trim_function_body(alloc_fn_index, flatten_fn_index),
{
    let mut v = emit_trim_function_body_vec(alloc_fn_index, flatten_fn_index);
    out.append(&mut v);
}

/// The local declarations of `emit_trim_function`.
pub open spec fn spec_emit_trim_function_locals() -> Seq<(u32, ValTy)> {
    seq![(10, ValTy::I32)]
}

/// Emit `$string_trim(ptr: i32) -> i32`.
pub fn emit_trim_function(alloc_fn_index: u32, flatten_fn_index: u32) -> (func: Function)
    ensures
        body_bytes(func) == locals_bytes(spec_emit_trim_function_locals()) + instrs_bytes(spec_emit_trim_function_body(alloc_fn_index, flatten_fn_index)),
{
    let instrs = emit_trim_function_body_vec(alloc_fn_index, flatten_fn_index);
    let mut locals: Vec<(u32, ValTy)> = Vec::new();
    locals.push((10, ValTy::I32));
    assert(locals@ =~= spec_emit_trim_function_locals());
    encode_body(&locals, &instrs)
}

} // verus!

