//! Internal seq helpers, emitted as WASM functions.

use vstd::prelude::*;
use wasm_encoder::Function;
use crate::encode::{body_bytes, encode_body, instrs_bytes, locals_bytes};
use crate::instr::{BlockTy, Instr, MemArg, ValTy};

verus! {

/// The instructions that `emit_alloc_exact_list` appends.
pub open spec fn spec_emit_alloc_exact_list(alloc_fn_index: u32, len_local: u32, list_local: u32, data_local: u32, temp_local: u32) -> Seq<Instr> {
    seq![
            Instr::LocalGet(len_local),
            Instr::If(BlockTy::Empty),
            Instr::LocalGet(len_local),
            Instr::I32Const(8i32),
            Instr::I32Mul,
            Instr::LocalSet(temp_local),
            Instr::LocalGet(temp_local),
            Instr::Call(alloc_fn_index),
            Instr::Drop,
            Instr::GlobalGet(0),
            Instr::LocalGet(temp_local),
            Instr::I32Sub,
            Instr::LocalSet(data_local),
            Instr::Else,
            Instr::I32Const(0i32),
            Instr::LocalSet(data_local),
            Instr::End,
            Instr::I32Const(12i32),
            Instr::Call(alloc_fn_index),
            Instr::Drop,
            Instr::GlobalGet(0),
            Instr::I32Const(12i32),
            Instr::I32Sub,
            Instr::LocalSet(list_local),
            Instr::LocalGet(list_local),
            Instr::LocalGet(len_local),
            Instr::I32Store(MemArg { offset: 0, align: 2 }),
            Instr::LocalGet(list_local),
            Instr::LocalGet(len_local),
            Instr::I32Store(MemArg { offset: 4, align: 2 }),
            Instr::LocalGet(list_local),
            Instr::LocalGet(data_local),
            Instr::I32Store(MemArg { offset: 8, align: 2 }),
        ]
}

/// The instructions of `emit_alloc_exact_list`, as a new list.
pub(crate) fn emit_alloc_exact_list_vec(alloc_fn_index: u32, len_local: u32, list_local: u32, data_local: u32, temp_local: u32) -> (r: Vec<Instr>)
    ensures
        r@ == spec_emit_alloc_exact_list(alloc_fn_index, len_local, list_local, data_local, temp_local),
{
    let mut v: Vec<Instr> = vec![Instr::LocalGet(len_local), Instr::If(BlockTy::Empty), Instr::LocalGet(len_local), Instr::I32Const(8i32), Instr::I32Mul, Instr::LocalSet(temp_local), Instr::LocalGet(temp_local), Instr::Call(alloc_fn_index), Instr::Drop, Instr::GlobalGet(0), Instr::LocalGet(temp_local), Instr::I32Sub, Instr::LocalSet(data_local), Instr::Else, Instr::I32Const(0i32), Instr::LocalSet(data_local), Instr::End, Instr::I32Const(12i32), Instr::Call(alloc_fn_index), Instr::Drop, Instr::GlobalGet(0), Instr::I32Const(12i32), Instr::I32Sub, Instr::LocalSet(list_local), Instr::LocalGet(list_local), Instr::LocalGet(len_local), Instr::I32Store(MemArg { offset: 0, align: 2 }), Instr::LocalGet(list_local), Instr::LocalGet(len_local), Instr::I32Store(MemArg { offset: 4, align: 2 }), Instr::LocalGet(list_local), Instr::LocalGet(data_local), Instr::I32Store(MemArg { offset: 8, align: 2 })];
    v
}

/// Instructions emitted by `emit_alloc_exact_list`.
pub(crate) fn emit_alloc_exact_list(out: &mut Vec<Instr>, alloc_fn_index: u32, len_local: u32, list_local: u32, data_local: u32, temp_local: u32)
    ensures
        final(out)@ == old(out)@ + spec_emit_alloc_exact_list(alloc_fn_index, len_local, list_local, data_local, temp_local),
{
    let mut v = emit_alloc_exact_list_vec(alloc_fn_index, len_local, list_local, data_local, temp_local);
    out.append(&mut v);
}

/// The instructions that `emit_store_string_slot` appends.
pub open spec fn spec_emit_store_string_slot(data_local: u32, slot_local: u32, string_local: u32) -> Seq<Instr> {
    seq![
            Instr::LocalGet(data_local),
            Instr::LocalGet(slot_local),
            Instr::I32Const(8i32),
            Instr::I32Mul,
            Instr::I32Add,
            Instr::LocalGet(string_local),
            Instr::I64ExtendI32U,
            Instr::I64Store(MemArg { offset: 0, align: 3 }),
            Instr::LocalGet(slot_local),
            Instr::I32Const(1i32),
            Instr::I32Add,
            Instr::LocalSet(slot_local),
        ]
}

/// The instructions of `emit_store_string_slot`, as a new list.
pub(crate) fn emit_store_string_slot_vec(data_local: u32, slot_local: u32, string_local: u32) -> (r: Vec<Instr>)
    ensures
        r@ == spec_emit_store_string_slot(data_local, slot_local, string_local),
{
    let mut v: Vec<Instr> = vec![Instr::LocalGet(data_local), Instr::LocalGet(slot_local), Instr::I32Const(8i32), Instr::I32Mul, Instr::I32Add, Instr::LocalGet(string_local), Instr::I64ExtendI32U, Instr::I64Store(MemArg { offset: 0, align: 3 }), Instr::LocalGet(slot_local), Instr::I32Const(1i32), Instr::I32Add, Instr::LocalSet(slot_local)];
    v
}

/// Instructions emitted by `emit_store_string_slot`.
pub(crate) fn emit_store_string_slot(out: &mut Vec<Instr>, data_local: u32, slot_local: u32, string_local: u32)
    ensures
        final(out)@ == old(out)@ + spec_emit_store_string_slot(data_local, slot_local, string_local),
{
    let mut v = emit_store_string_slot_vec(data_local, slot_local, string_local);
    out.append(&mut v);
}

/// The instructions that `emit_alloc_empty_string` appends.
pub open spec fn spec_emit_alloc_empty_string(alloc_fn_index: u32, out_local: u32) -> Seq<Instr> {
    seq![
            Instr::I32Const(8i32),
            Instr::Call(alloc_fn_index),
            Instr::Drop,
            Instr::GlobalGet(0),
            Instr::I32Const(8i32),
            Instr::I32Sub,
            Instr::LocalSet(out_local),
            Instr::LocalGet(out_local),
            Instr::I64Const(0i64),
            Instr::I64Store(MemArg { offset: 0, align: 3 }),
        ]
}

/// The instructions of `emit_alloc_empty_string`, as a new list.
pub(crate) fn emit_alloc_empty_string_vec(alloc_fn_index: u32, out_local: u32) -> (r: Vec<Instr>)
    ensures
        r@ == spec_emit_alloc_empty_string(alloc_fn_index, out_local),
{
    let mut v: Vec<Instr> = vec![Instr::I32Const(8i32), Instr::Call(alloc_fn_index), Instr::Drop, Instr::GlobalGet(0), Instr::I32Const(8i32), Instr::I32Sub, Instr::LocalSet(out_local), Instr::LocalGet(out_local), Instr::I64Const(0i64), Instr::I64Store(MemArg { offset: 0, align: 3 })];
    v
}

/// Instructions emitted by `emit_alloc_empty_string`.
pub(crate) fn emit_alloc_empty_string(out: &mut Vec<Instr>, alloc_fn_index: u32, out_local: u32)
    ensures
        final(out)@ == old(out)@ + spec_emit_alloc_empty_string(alloc_fn_index, out_local),
{
    let mut v = emit_alloc_empty_string_vec(alloc_fn_index, out_local);
    out.append(&mut v);
}

/// The instructions that `emit_utf8_width_from_absolute_index` appends.
pub open spec fn spec_emit_utf8_width_from_absolute_index(string_local: u32, byte_index_local: u32, width_local: u32, byte_local: u32) -> Seq<Instr> {
    seq![
            Instr::LocalGet(string_local),
            Instr::I32Const(8i32),
            Instr::I32Add,
            Instr::LocalGet(byte_index_local),
            Instr::I32Add,
            Instr::I32Load8U(MemArg { offset: 0, align: 0 }),
            Instr::LocalSet(byte_local),
            Instr::I32Const(4i32),
            Instr::LocalSet(width_local),
            Instr::LocalGet(byte_local),
            Instr::I32Const(0xF0),
            Instr::I32LtU,
            Instr::If(BlockTy::Empty),
            Instr::I32Const(3i32),
            Instr::LocalSet(width_local),
            Instr::LocalGet(byte_local),
            Instr::I32Const(0xE0),
            Instr::I32LtU,
            Instr::If(BlockTy::Empty),
            Instr::I32Const(2i32),
            Instr::LocalSet(width_local),
            Instr::LocalGet(byte_local),
            Instr::I32Const(0x80),
            Instr::I32LtU,
            Instr::If(BlockTy::Empty),
            Instr::I32Const(1i32),
            Instr::LocalSet(width_local),
            Instr::End,
            Instr::End,
            Instr::End,
        ]
}

/// The instructions of `emit_utf8_width_from_absolute_index`, as a new list.
pub(crate) fn emit_utf8_width_from_absolute_index_vec(string_local: u32, byte_index_local: u32, width_local: u32, byte_local: u32) -> (r: Vec<Instr>)
    ensures
        r@ == spec_emit_utf8_width_from_absolute_index(string_local, byte_index_local, width_local, byte_local),
{
    let mut v: Vec<Instr> = vec![Instr::LocalGet(string_local), Instr::I32Const(8i32), Instr::I32Add, Instr::LocalGet(byte_index_local), Instr::I32Add, Instr::I32Load8U(MemArg { offset: 0, align: 0 }), Instr::LocalSet(byte_local), Instr::I32Const(4i32), Instr::LocalSet(width_local), Instr::LocalGet(byte_local), Instr::I32Const(0xF0), Instr::I32LtU, Instr::If(BlockTy::Empty), Instr::I32Const(3i32), Instr::LocalSet(width_local), Instr::LocalGet(byte_local), Instr::I32Const(0xE0), Instr::I32LtU, Instr::If(BlockTy::Empty), Instr::I32Const(2i32), Instr::LocalSet(width_local), Instr::LocalGet(byte_local), Instr::I32Const(0x80), Instr::I32LtU, Instr::If(BlockTy::Empty), Instr::I32Const(1i32), Instr::LocalSet(width_local), Instr::End, Instr::End, Instr::End];
    v
}

/// Instructions emitted by `emit_utf8_width_from_absolute_index`.
pub(crate) fn emit_utf8_width_from_absolute_index(out: &mut Vec<Instr>, string_local: u32, byte_index_local: u32, width_local: u32, byte_local: u32)
    ensures
        final(out)@ == old(out)@ + spec_emit_utf8_width_from_absolute_index(string_local, byte_index_local, width_local, byte_local),
{
    let mut v = emit_utf8_width_from_absolute_index_vec(string_local, byte_index_local, width_local, byte_local);
    out.append(&mut v);
}

/// The instructions that `emit_string_range_alloc` appends.
pub open spec fn spec_emit_string_range_alloc(alloc_fn_index: u32, base_string_local: u32, slice_start_local: u32, slice_end_local: u32, result_local: u32, char_count_local: u32, scan_local: u32, temp_local: u32, byte_local: u32) -> Seq<Instr> {
    seq![
            Instr::I32Const(0i32),
            Instr::LocalSet(char_count_local),
            Instr::I32Const(0i32),
            Instr::LocalSet(scan_local),
            Instr::Block(BlockTy::Empty),
            Instr::Loop(BlockTy::Empty),
            Instr::LocalGet(scan_local),
            Instr::LocalGet(slice_end_local),
            Instr::LocalGet(slice_start_local),
            Instr::I32Sub,
            Instr::I32GeU,
            Instr::BrIf(1),
            Instr::LocalGet(slice_start_local),
            Instr::LocalGet(scan_local),
            Instr::I32Add,
            Instr::LocalSet(byte_local),
        ]
        + spec_emit_utf8_width_from_absolute_index(base_string_local, byte_local, temp_local, result_local)
        + seq![
            Instr::LocalGet(scan_local),
            Instr::LocalGet(temp_local),
            Instr::I32Add,
            Instr::LocalSet(scan_local),
            Instr::LocalGet(char_count_local),
            Instr::I32Const(1i32),
            Instr::I32Add,
            Instr::LocalSet(char_count_local),
            Instr::Br(0),
            Instr::End,
            Instr::End,
            Instr::LocalGet(slice_end_local),
            Instr::LocalGet(slice_start_local),
            Instr::I32Sub,
            Instr::I32Const(8i32),
            Instr::I32Add,
            Instr::Call(alloc_fn_index),
            Instr::Drop,
            Instr::GlobalGet(0),
            Instr::LocalGet(slice_end_local),
            Instr::LocalGet(slice_start_local),
            Instr::I32Sub,
            Instr::I32Const(8i32),
            Instr::I32Add,
            Instr::I32Sub,
            Instr::LocalSet(result_local),
            Instr::LocalGet(result_local),
            Instr::LocalGet(slice_end_local),
            Instr::LocalGet(slice_start_local),
            Instr::I32Sub,
            Instr::I32Store(MemArg { offset: 0, align: 2 }),
            Instr::LocalGet(result_local),
            Instr::LocalGet(char_count_local),
            Instr::I32Store(MemArg { offset: 4, align: 2 }),
            Instr::LocalGet(result_local),
            Instr::I32Const(8i32),
            Instr::I32Add,
            Instr::LocalGet(base_string_local),
            Instr::I32Const(8i32),
            Instr::I32Add,
            Instr::LocalGet(slice_start_local),
            Instr::I32Add,
            Instr::LocalGet(slice_end_local),
            Instr::LocalGet(slice_start_local),
            Instr::I32Sub,
            Instr::MemoryCopy { src_mem: 0, dst_mem: 0 },
        ]
}

/// The instructions of `emit_string_range_alloc`, as a new list.
pub(crate) fn emit_string_range_alloc_vec(alloc_fn_index: u32, base_string_local: u32, slice_start_local: u32, slice_end_local: u32, result_local: u32, char_count_local: u32, scan_local: u32, temp_local: u32, byte_local: u32) -> (r: Vec<Instr>)
    ensures
        r@ == spec_emit_string_range_alloc(alloc_fn_index, base_string_local, slice_start_local, slice_end_local, result_local, char_count_local, scan_local, temp_local, byte_local),
{
    let mut v: Vec<Instr> = vec![Instr::I32Const(0i32), Instr::LocalSet(char_count_local), Instr::I32Const(0i32), Instr::LocalSet(scan_local), Instr::Block(BlockTy::Empty), Instr::Loop(BlockTy::Empty), Instr::LocalGet(scan_local), Instr::LocalGet(slice_end_local), Instr::LocalGet(slice_start_local), Instr::I32Sub, Instr::I32GeU, Instr::BrIf(1), Instr::LocalGet(slice_start_local), Instr::LocalGet(scan_local), Instr::I32Add, Instr::LocalSet(byte_local)];
    let mut w: Vec<Instr> = emit_utf8_width_from_absolute_index_vec(base_string_local, byte_local, temp_local, result_local);
    v.append(&mut w);
    let mut w: Vec<Instr> = vec![Instr::LocalGet(scan_local), Instr::LocalGet(temp_local), Instr::I32Add, Instr::LocalSet(scan_local), Instr::LocalGet(char_count_local), Instr::I32Const(1i32), Instr::I32Add, Instr::LocalSet(char_count_local), Instr::Br(0), Instr::End, Instr::End, Instr::LocalGet(slice_end_local), Instr::LocalGet(slice_start_local), Instr::I32Sub, Instr::I32Const(8i32), Instr::I32Add, Instr::Call(alloc_fn_index), Instr::Drop, Instr::GlobalGet(0), Instr::LocalGet(slice_end_local), Instr::LocalGet(slice_start_local), Instr::I32Sub, Instr::I32Const(8i32), Instr::I32Add, Instr::I32Sub, Instr::LocalSet(result_local), Instr::LocalGet(result_local), Instr::LocalGet(slice_end_local), Instr::LocalGet(slice_start_local), Instr::I32Sub, Instr::I32Store(MemArg { offset: 0, align: 2 }), Instr::LocalGet(result_local), Instr::LocalGet(char_count_local), Instr::I32Store(MemArg { offset: 4, align: 2 }), Instr::LocalGet(result_local), Instr::I32Const(8i32), Instr::I32Add, Instr::LocalGet(base_string_local), Instr::I32Const(8i32), Instr::I32Add, Instr::LocalGet(slice_start_local), Instr::I32Add, Instr::LocalGet(slice_end_local), Instr::LocalGet(slice_start_local), Instr::I32Sub, Instr::MemoryCopy { src_mem: 0, dst_mem: 0 }];
    v.append(&mut w);
    v
}

/// Instructions emitted by `emit_string_range_alloc`.
pub(crate) fn emit_string_range_alloc(out: &mut Vec<Instr>, alloc_fn_index: u32, base_string_local: u32, slice_start_local: u32, slice_end_local: u32, result_local: u32, char_count_local: u32, scan_local: u32, temp_local: u32, byte_local: u32)
    ensures
        final(out)@ == old(out)@ + spec_emit_string_range_alloc(alloc_fn_index, base_string_local, slice_start_local, slice_end_local, result_local, char_count_local, scan_local, temp_local, byte_local),
{
    let mut v = emit_string_range_alloc_vec(alloc_fn_index, base_string_local, slice_start_local, slice_end_local, result_local, char_count_local, scan_local, temp_local, byte_local);
    out.append(&mut v);
}

/// The instructions that `emit_lines_to_list_function_body` appends.
pub open spec fn spec_emit_lines_to_list_function_body(alloc_fn_index: u32, flatten_fn_index: u32) -> Seq<Instr> {
    seq![
            Instr::LocalGet(0),
            Instr::Call(flatten_fn_index),
            Instr::LocalSet(0),
            Instr::LocalGet(0),
            Instr::I32Load(MemArg { offset: 0, align: 2 }),
            Instr::LocalSet(1),
            Instr::I32Const(0i32),
            Instr::LocalSet(2),
            Instr::I32Const(0i32),
            Instr::LocalSet(3),
            Instr::I32Const(0i32),
            Instr::LocalSet(4),
            Instr::Block(BlockTy::Empty),
            Instr::Loop(BlockTy::Empty),
            Instr::LocalGet(2),
            Instr::LocalGet(1),
            Instr::I32GeU,
            Instr::BrIf(1),
            Instr::LocalGet(0),
            Instr::I32Const(8i32),
            Instr::I32Add,
            Instr::LocalGet(2),
            Instr::I32Add,
            Instr::I32Load8U(MemArg { offset: 0, align: 0 }),
            Instr::I32Const(10i32),
            Instr::I32Eq,
            Instr::If(BlockTy::Empty),
            Instr::LocalGet(4),
            Instr::I32Const(1i32),
            Instr::I32Add,
            Instr::LocalSet(4),
            Instr::LocalGet(2),
            Instr::I32Const(1i32),
            Instr::I32Add,
            Instr::LocalSet(3),
            Instr::End,
            Instr::LocalGet(2),
            Instr::I32Const(1i32),
            Instr::I32Add,
            Instr::LocalSet(2),
            Instr::Br(0),
            Instr::End,
            Instr::End,
            Instr::LocalGet(3),
            Instr::LocalGet(1),
            Instr::I32LtU,
            Instr::If(BlockTy::Empty),
            Instr::LocalGet(4),
            Instr::I32Const(1i32),
            Instr::I32Add,
            Instr::LocalSet(4),
            Instr::End,
        ]
        + spec_emit_alloc_exact_list(alloc_fn_index, 4, 5, 6, 8)
        + seq![
            Instr::I32Const(0i32),
            Instr::LocalSet(7),
            Instr::I32Const(0i32),
            Instr::LocalSet(2),
            Instr::I32Const(0i32),
            Instr::LocalSet(3),
            Instr::Block(BlockTy::Empty),
            Instr::Loop(BlockTy::Empty),
            Instr::LocalGet(2),
            Instr::LocalGet(1),
            Instr::I32GeU,
            Instr::BrIf(1),
            Instr::LocalGet(0),
            Instr::I32Const(8i32),
            Instr::I32Add,
            Instr::LocalGet(2),
            Instr::I32Add,
            Instr::I32Load8U(MemArg { offset: 0, align: 0 }),
            Instr::I32Const(10i32),
            Instr::I32Eq,
            Instr::If(BlockTy::Empty),
            Instr::LocalGet(2),
            Instr::LocalSet(9),
            Instr::LocalGet(2),
            Instr::LocalGet(3),
            Instr::I32GtU,
            Instr::If(BlockTy::Empty),
            Instr::LocalGet(0),
            Instr::I32Const(8i32),
            Instr::I32Add,
            Instr::LocalGet(2),
            Instr::I32Const(1i32),
            Instr::I32Sub,
            Instr::I32Add,
            Instr::I32Load8U(MemArg { offset: 0, align: 0 }),
            Instr::I32Const(13i32),
            Instr::I32Eq,
            Instr::If(BlockTy::Empty),
            Instr::LocalGet(2),
            Instr::I32Const(1i32),
            Instr::I32Sub,
            Instr::LocalSet(9),
            Instr::End,
            Instr::End,
        ]
        + spec_emit_string_range_alloc(alloc_fn_index, 0, 3, 9, 12, 10, 11, 8, 13)
        + spec_emit_store_string_slot(6, 7, 12)
        + seq![
            Instr::LocalGet(2),
            Instr::I32Const(1i32),
            Instr::I32Add,
            Instr::LocalSet(3),
            Instr::End,
            Instr::LocalGet(2),
            Instr::I32Const(1i32),
            Instr::I32Add,
            Instr::LocalSet(2),
            Instr::Br(0),
            Instr::End,
            Instr::End,
            Instr::LocalGet(3),
            Instr::LocalGet(1),
            Instr::I32LtU,
            Instr::If(BlockTy::Empty),
        ]
        + spec_emit_string_range_alloc(alloc_fn_index, 0, 3, 1, 12, 10, 11, 8, 13)
        + spec_emit_store_string_slot(6, 7, 12)
        + seq![
            Instr::End,
            Instr::LocalGet(5),
            Instr::Return,
            Instr::End,
        ]
}

/// The instructions of `emit_lines_to_list_function_body`, as a new list.
pub(crate) fn emit_lines_to_list_function_body_vec(alloc_fn_index: u32, flatten_fn_index: u32) -> (r: Vec<Instr>)
    ensures
        r@ == spec_emit_lines_to_list_function_body(alloc_fn_index, flatten_fn_index),
{
    let mut v: Vec<Instr> = vec![Instr::LocalGet(0), Instr::Call(flatten_fn_index), Instr::LocalSet(0), Instr::LocalGet(0), Instr::I32Load(MemArg { offset: 0, align: 2 }), Instr::LocalSet(1), Instr::I32Const(0i32), Instr::LocalSet(2), Instr::I32Const(0i32), Instr::LocalSet(3), Instr::I32Const(0i32), Instr::LocalSet(4), Instr::Block(BlockTy::Empty), Instr::Loop(BlockTy::Empty), Instr::LocalGet(2), Instr::LocalGet(1), Instr::I32GeU, Instr::BrIf(1), Instr::LocalGet(0), Instr::I32Const(8i32), Instr::I32Add, Instr::LocalGet(2), Instr::I32Add, Instr::I32Load8U(MemArg { offset: 0, align: 0 }), Instr::I32Const(10i32), Instr::I32Eq, Instr::If(BlockTy::Empty), Instr::LocalGet(4), Instr::I32Const(1i32), Instr::I32Add, Instr::LocalSet(4), Instr::LocalGet(2), Instr::I32Const(1i32), Instr::I32Add, Instr::LocalSet(3), Instr::End, Instr::LocalGet(2), Instr::I32Const(1i32), Instr::I32Add, Instr::LocalSet(2), Instr::Br(0), Instr::End, Instr::End, Instr::LocalGet(3), Instr::LocalGet(1), Instr::I32LtU, Instr::If(BlockTy::Empty), Instr::LocalGet(4), Instr::I32Const(1i32), Instr::I32Add, Instr::LocalSet(4), Instr::End];
    let mut w: Vec<Instr> = emit_alloc_exact_list_vec(alloc_fn_index, 4, 5, 6, 8);
    v.append(&mut w);
    let mut w: Vec<Instr> = vec![Instr::I32Const(0i32), Instr::LocalSet(7), Instr::I32Const(0i32), Instr::LocalSet(2), Instr::I32Const(0i32), Instr::LocalSet(3), Instr::Block(BlockTy::Empty), Instr::Loop(BlockTy::Empty), Instr::LocalGet(2), Instr::LocalGet(1), Instr::I32GeU, Instr::BrIf(1), Instr::LocalGet(0), Instr::I32Const(8i32), Instr::I32Add, Instr::LocalGet(2), Instr::I32Add, Instr::I32Load8U(MemArg { offset: 0, align: 0 }), Instr::I32Const(10i32), Instr::I32Eq, Instr::If(BlockTy::Empty), Instr::LocalGet(2), Instr::LocalSet(9), Instr::LocalGet(2), Instr::LocalGet(3), Instr::I32GtU, Instr::If(BlockTy::Empty), Instr::LocalGet(0), Instr::I32Const(8i32), Instr::I32Add, Instr::LocalGet(2), Instr::I32Const(1i32), Instr::I32Sub, Instr::I32Add, Instr::I32Load8U(MemArg { offset: 0, align: 0 }), Instr::I32Const(13i32), Instr::I32Eq, Instr::If(BlockTy::Empty), Instr::LocalGet(2), Instr::I32Const(1i32), Instr::I32Sub, Instr::LocalSet(9), Instr::End, Instr::End];
    v.append(&mut w);
    let mut w: Vec<Instr> = emit_string_range_alloc_vec(alloc_fn_index, 0, 3, 9, 12, 10, 11, 8, 13);
    v.append(&mut w);
    let mut w: Vec<Instr> = emit_store_string_slot_vec(6, 7, 12);
    v.append(&mut w);
    let mut w: Vec<Instr> = vec![Instr::LocalGet(2), Instr::I32Const(1i32), Instr::I32Add, Instr::LocalSet(3), Instr::End, Instr::LocalGet(2), Instr::I32Const(1i32), Instr::I32Add, Instr::LocalSet(2), Instr::Br(0), Instr::End, Instr::End, Instr::LocalGet(3), Instr::LocalGet(1), Instr::I32LtU, Instr::If(BlockTy::Empty)];
    v.append(&mut w);
    let mut w: Vec<Instr> = emit_string_range_alloc_vec(alloc_fn_index, 0, 3, 1, 12, 10, 11, 8, 13);
    v.append(&mut w);
    let mut w: Vec<Instr> = emit_store_string_slot_vec(6, 7, 12);
    v.append(&mut w);
    let mut w: Vec<Instr> = vec![Instr::End, Instr::LocalGet(5), Instr::Return, Instr::End];
    v.append(&mut w);
    v
}

/// Appends the body of `emit_lines_to_list_function`.
pub(crate) fn emit_lines_to_list_function_body(out: &mut Vec<Instr>, alloc_fn_index: u32, flatten_fn_index: u32)
    ensures
        final(out)@ == old(out)@ + spec_emit_lines_to_list_function_body(alloc_fn_index, flatten_fn_index),
{
    let mut v = emit_lines_to_list_function_body_vec(alloc_fn_index, flatten_fn_index);
    out.append(&mut v);
}

/// The local declarations of `emit_lines_to_list_function`.
pub open spec fn spec_emit_lines_to_list_function_locals() -> Seq<(u32, ValTy)> {
    seq![(13, ValTy::I32)]
}

/// Instructions emitted by `emit_lines_to_list_function`.
pub fn emit_lines_to_list_function(alloc_fn_index: u32, flatten_fn_index: u32) -> (func: Function)
    ensures
        body_bytes(func) == locals_bytes(spec_emit_lines_to_list_function_locals()) + instrs_bytes(spec_emit_lines_to_list_function_body(alloc_fn_index, flatten_fn_index)),
{
    let instrs = emit_lines_to_list_function_body_vec(alloc_fn_index, flatten_fn_index);
    let mut locals: Vec<(u32, ValTy)> = Vec::new();
    locals.push((13, ValTy::I32));
    assert(locals@ =~= spec_emit_lines_to_list_function_locals());
    encode_body(&locals, &instrs)
}

/// The instructions that `emit_split_to_list_function_body` appends.
pub open spec fn spec_emit_split_to_list_function_body(alloc_fn_index: u32, flatten_fn_index: u32) -> Seq<Instr> {
    seq![
            Instr::LocalGet(0),
            Instr::I32Load(MemArg { offset: 8, align: 2 }),
            Instr::Call(flatten_fn_index),
            Instr::LocalSet(1),
            Instr::LocalGet(0),
            Instr::I32Load(MemArg { offset: 12, align: 2 }),
            Instr::Call(flatten_fn_index),
            Instr::LocalSet(2),
            Instr::LocalGet(1),
            Instr::I32Load(MemArg { offset: 0, align: 2 }),
            Instr::LocalSet(3),
            Instr::LocalGet(2),
            Instr::I32Load(MemArg { offset: 0, align: 2 }),
            Instr::LocalSet(4),
            Instr::LocalGet(4),
            Instr::I32Eqz,
            Instr::If(BlockTy::Empty),
            Instr::LocalGet(1),
            Instr::I32Load(MemArg { offset: 4, align: 2 }),
            Instr::I32Const(2i32),
            Instr::I32Add,
            Instr::LocalSet(5),
        ]
        + spec_emit_alloc_exact_list(alloc_fn_index, 5, 8, 9, 16)
        + spec_emit_alloc_empty_string(alloc_fn_index, 18)
        + seq![
            Instr::I32Const(0i32),
            Instr::LocalSet(10),
        ]
        + spec_emit_store_string_slot(9, 10, 18)
        + seq![
            Instr::I32Const(0i32),
            Instr::LocalSet(6),
            Instr::Block(BlockTy::Empty),
            Instr::Loop(BlockTy::Empty),
            Instr::LocalGet(6),
            Instr::LocalGet(3),
            Instr::I32GeU,
            Instr::BrIf(1),
        ]
        + spec_emit_utf8_width_from_absolute_index(1, 6, 16, 17)
        + seq![
            Instr::LocalGet(6),
            Instr::LocalGet(16),
            Instr::I32Add,
            Instr::LocalSet(12),
        ]
        + spec_emit_string_range_alloc(alloc_fn_index, 1, 6, 12, 13, 14, 15, 16, 17)
        + spec_emit_store_string_slot(9, 10, 13)
        + seq![
            Instr::LocalGet(12),
            Instr::LocalSet(6),
            Instr::Br(0),
            Instr::End,
            Instr::End,
        ]
        + spec_emit_store_string_slot(9, 10, 18)
        + seq![
            Instr::LocalGet(8),
            Instr::Return,
            Instr::End,
            Instr::I32Const(1i32),
            Instr::LocalSet(5),
            Instr::I32Const(0i32),
            Instr::LocalSet(6),
            Instr::Block(BlockTy::Empty),
            Instr::Loop(BlockTy::Empty),
            Instr::LocalGet(6),
            Instr::LocalGet(4),
            Instr::I32Add,
            Instr::LocalGet(3),
            Instr::I32GtU,
            Instr::BrIf(1),
            Instr::I32Const(1i32),
            Instr::LocalSet(12),
            Instr::I32Const(0i32),
            Instr::LocalSet(11),
            Instr::Block(BlockTy::Empty),
            Instr::Loop(BlockTy::Empty),
            Instr::LocalGet(11),
            Instr::LocalGet(4),
            Instr::I32GeU,
            Instr::BrIf(1),
            Instr::LocalGet(1),
            Instr::I32Const(8i32),
            Instr::I32Add,
            Instr::LocalGet(6),
            Instr::I32Add,
            Instr::LocalGet(11),
            Instr::I32Add,
            Instr::I32Load8U(MemArg { offset: 0, align: 0 }),
            Instr::LocalGet(2),
            Instr::I32Const(8i32),
            Instr::I32Add,
            Instr::LocalGet(11),
            Instr::I32Add,
            Instr::I32Load8U(MemArg { offset: 0, align: 0 }),
            Instr::I32Ne,
            Instr::If(BlockTy::Empty),
            Instr::I32Const(0i32),
            Instr::LocalSet(12),
            Instr::Br(2),
            Instr::End,
            Instr::LocalGet(11),
            Instr::I32Const(1i32),
            Instr::I32Add,
            Instr::LocalSet(11),
            Instr::Br(0),
            Instr::End,
            Instr::End,
            Instr::LocalGet(12),
            Instr::If(BlockTy::Empty),
            Instr::LocalGet(5),
            Instr::I32Const(1i32),
            Instr::I32Add,
            Instr::LocalSet(5),
            Instr::LocalGet(6),
            Instr::LocalGet(4),
            Instr::I32Add,
            Instr::LocalSet(6),
            Instr::Else,
            Instr::LocalGet(6),
            Instr::I32Const(1i32),
            Instr::I32Add,
            Instr::LocalSet(6),
            Instr::End,
            Instr::Br(0),
            Instr::End,
            Instr::End,
        ]
        + spec_emit_alloc_exact_list(alloc_fn_index, 5, 8, 9, 16)
        + seq![
            Instr::I32Const(0i32),
            Instr::LocalSet(10),
            Instr::I32Const(0i32),
            Instr::LocalSet(7),
            Instr::I32Const(0i32),
            Instr::LocalSet(6),
            Instr::Block(BlockTy::Empty),
            Instr::Loop(BlockTy::Empty),
            Instr::LocalGet(6),
            Instr::LocalGet(4),
            Instr::I32Add,
            Instr::LocalGet(3),
            Instr::I32GtU,
            Instr::BrIf(1),
            Instr::I32Const(1i32),
            Instr::LocalSet(12),
            Instr::I32Const(0i32),
            Instr::LocalSet(11),
            Instr::Block(BlockTy::Empty),
            Instr::Loop(BlockTy::Empty),
            Instr::LocalGet(11),
            Instr::LocalGet(4),
            Instr::I32GeU,
            Instr::BrIf(1),
            Instr::LocalGet(1),
            Instr::I32Const(8i32),
            Instr::I32Add,
            Instr::LocalGet(6),
            Instr::I32Add,
            Instr::LocalGet(11),
            Instr::I32Add,
            Instr::I32Load8U(MemArg { offset: 0, align: 0 }),
            Instr::LocalGet(2),
            Instr::I32Const(8i32),
            Instr::I32Add,
            Instr::LocalGet(11),
            Instr::I32Add,
            Instr::I32Load8U(MemArg { offset: 0, align: 0 }),
            Instr::I32Ne,
            Instr::If(BlockTy::Empty),
            Instr::I32Const(0i32),
            Instr::LocalSet(12),
            Instr::Br(2),
            Instr::End,
            Instr::LocalGet(11),
            Instr::I32Const(1i32),
            Instr::I32Add,
            Instr::LocalSet(11),
            Instr::Br(0),
            Instr::End,
            Instr::End,
            Instr::LocalGet(12),
            Instr::If(BlockTy::Empty),
        ]
        + spec_emit_string_range_alloc(alloc_fn_index, 1, 7, 6, 13, 14, 15, 16, 17)
        + spec_emit_store_string_slot(9, 10, 13)
        + seq![
            Instr::LocalGet(6),
            Instr::LocalGet(4),
            Instr::I32Add,
            Instr::LocalSet(6),
            Instr::LocalGet(6),
            Instr::LocalSet(7),
            Instr::Else,
            Instr::LocalGet(6),
            Instr::I32Const(1i32),
            Instr::I32Add,
            Instr::LocalSet(6),
            Instr::End,
            Instr::Br(0),
            Instr::End,
            Instr::End,
        ]
        + spec_emit_string_range_alloc(alloc_fn_index, 1, 7, 3, 13, 14, 15, 16, 17)
        + spec_emit_store_string_slot(9, 10, 13)
        + seq![
            Instr::LocalGet(8),
            Instr::Return,
            Instr::End,
        ]
}

/// The instructions of `emit_split_to_list_function_body`, as a new list.
pub(crate) fn emit_split_to_list_function_body_vec(alloc_fn_index: u32, flatten_fn_index: u32) -> (r: Vec<Instr>)
    ensures
        r@ == spec_emit_split_to_list_function_body(alloc_fn_index, flatten_fn_index),
{
    let mut v: Vec<Instr> = vec![Instr::LocalGet(0), Instr::I32Load(MemArg { offset: 8, align: 2 }), Instr::Call(flatten_fn_index), Instr::LocalSet(1), Instr::LocalGet(0), Instr::I32Load(MemArg { offset: 12, align: 2 }), Instr::Call(flatten_fn_index), Instr::LocalSet(2), Instr::LocalGet(1), Instr::I32Load(MemArg { offset: 0, align: 2 }), Instr::LocalSet(3), Instr::LocalGet(2), Instr::I32Load(MemArg { offset: 0, align: 2 }), Instr::LocalSet(4), Instr::LocalGet(4), Instr::I32Eqz, Instr::If(BlockTy::Empty), Instr::LocalGet(1), Instr::I32Load(MemArg { offset: 4, align: 2 }), Instr::I32Const(2i32), Instr::I32Add, Instr::LocalSet(5)];
    let mut w: Vec<Instr> = emit_alloc_exact_list_vec(alloc_fn_index, 5, 8, 9, 16);
    v.append(&mut w);
    let mut w: Vec<Instr> = emit_alloc_empty_string_vec(alloc_fn_index, 18);
    v.append(&mut w);
    let mut w: Vec<Instr> = vec![Instr::I32Const(0i32), Instr::LocalSet(10)];
    v.append(&mut w);
    let mut w: Vec<Instr> = emit_store_string_slot_vec(9, 10, 18);
    v.append(&mut w);
    let mut w: Vec<Instr> = vec![Instr::I32Const(0i32), Instr::LocalSet(6), Instr::Block(BlockTy::Empty), Instr::Loop(BlockTy::Empty), Instr::LocalGet(6), Instr::LocalGet(3), Instr::I32GeU, Instr::BrIf(1)];
    v.append(&mut w);
    let mut w: Vec<Instr> = emit_utf8_width_from_absolute_index_vec(1, 6, 16, 17);
    v.append(&mut w);
    let mut w: Vec<Instr> = vec![Instr::LocalGet(6), Instr::LocalGet(16), Instr::I32Add, Instr::LocalSet(12)];
    v.append(&mut w);
    let mut w: Vec<Instr> = emit_string_range_alloc_vec(alloc_fn_index, 1, 6, 12, 13, 14, 15, 16, 17);
    v.append(&mut w);
    let mut w: Vec<Instr> = emit_store_string_slot_vec(9, 10, 13);
    v.append(&mut w);
    let mut w: Vec<Instr> = vec![Instr::LocalGet(12), Instr::LocalSet(6), Instr::Br(0), Instr::End, Instr::End];
    v.append(&mut w);
    let mut w: Vec<Instr> = emit_store_string_slot_vec(9, 10, 18);
    v.append(&mut w);
    let mut w: Vec<Instr> = vec![Instr::LocalGet(8), Instr::Return, Instr::End, Instr::I32Const(1i32), Instr::LocalSet(5), Instr::I32Const(0i32), Instr::LocalSet(6), Instr::Block(BlockTy::Empty), Instr::Loop(BlockTy::Empty), Instr::LocalGet(6), Instr::LocalGet(4), Instr::I32Add, Instr::LocalGet(3), Instr::I32GtU, Instr::BrIf(1), Instr::I32Const(1i32), Instr::LocalSet(12), Instr::I32Const(0i32), Instr::LocalSet(11), Instr::Block(BlockTy::Empty), Instr::Loop(BlockTy::Empty), Instr::LocalGet(11), Instr::LocalGet(4), Instr::I32GeU, Instr::BrIf(1), Instr::LocalGet(1), Instr::I32Const(8i32), Instr::I32Add, Instr::LocalGet(6), Instr::I32Add, Instr::LocalGet(11), Instr::I32Add, Instr::I32Load8U(MemArg { offset: 0, align: 0 }), Instr::LocalGet(2), Instr::I32Const(8i32), Instr::I32Add, Instr::LocalGet(11), Instr::I32Add, Instr::I32Load8U(MemArg { offset: 0, align: 0 }), Instr::I32Ne, Instr::If(BlockTy::Empty), Instr::I32Const(0i32), Instr::LocalSet(12), Instr::Br(2), Instr::End, Instr::LocalGet(11), Instr::I32Const(1i32), Instr::I32Add, Instr::LocalSet(11), Instr::Br(0), Instr::End, Instr::End, Instr::LocalGet(12), Instr::If(BlockTy::Empty), Instr::LocalGet(5), Instr::I32Const(1i32), Instr::I32Add, Instr::LocalSet(5), Instr::LocalGet(6), Instr::LocalGet(4), Instr::I32Add, Instr::LocalSet(6), Instr::Else, Instr::LocalGet(6), Instr::I32Const(1i32), Instr::I32Add, Instr::LocalSet(6), Instr::End, Instr::Br(0), Instr::End, Instr::End];
    v.append(&mut w);
    let mut w: Vec<Instr> = emit_alloc_exact_list_vec(alloc_fn_index, 5, 8, 9, 16);
    v.append(&mut w);
    let mut w: Vec<Instr> = vec![Instr::I32Const(0i32), Instr::LocalSet(10), Instr::I32Const(0i32), Instr::LocalSet(7), Instr::I32Const(0i32), Instr::LocalSet(6), Instr::Block(BlockTy::Empty), Instr::Loop(BlockTy::Empty), Instr::LocalGet(6), Instr::LocalGet(4), Instr::I32Add, Instr::LocalGet(3), Instr::I32GtU, Instr::BrIf(1), Instr::I32Const(1i32), Instr::LocalSet(12), Instr::I32Const(0i32), Instr::LocalSet(11), Instr::Block(BlockTy::Empty), Instr::Loop(BlockTy::Empty), Instr::LocalGet(11), Instr::LocalGet(4), Instr::I32GeU, Instr::BrIf(1), Instr::LocalGet(1), Instr::I32Const(8i32), Instr::I32Add, Instr::LocalGet(6), Instr::I32Add, Instr::LocalGet(11), Instr::I32Add, Instr::I32Load8U(MemArg { offset: 0, align: 0 }), Instr::LocalGet(2), Instr::I32Const(8i32), Instr::I32Add, Instr::LocalGet(11), Instr::I32Add, Instr::I32Load8U(MemArg { offset: 0, align: 0 }), Instr::I32Ne, Instr::If(BlockTy::Empty), Instr::I32Const(0i32), Instr::LocalSet(12), Instr::Br(2), Instr::End, Instr::LocalGet(11), Instr::I32Const(1i32), Instr::I32Add, Instr::LocalSet(11), Instr::Br(0), Instr::End, Instr::End, Instr::LocalGet(12), Instr::If(BlockTy::Empty)];
    v.append(&mut w);
    let mut w: Vec<Instr> = emit_string_range_alloc_vec(alloc_fn_index, 1, 7, 6, 13, 14, 15, 16, 17);
    v.append(&mut w);
    let mut w: Vec<Instr> = emit_store_string_slot_vec(9, 10, 13);
    v.append(&mut w);
    let mut w: Vec<Instr> = vec![Instr::LocalGet(6), Instr::LocalGet(4), Instr::I32Add, Instr::LocalSet(6), Instr::LocalGet(6), Instr::LocalSet(7), Instr::Else, Instr::LocalGet(6), Instr::I32Const(1i32), Instr::I32Add, Instr::LocalSet(6), Instr::End, Instr::Br(0), Instr::End, Instr::End];
    v.append(&mut w);
    let mut w: Vec<Instr> = emit_string_range_alloc_vec(alloc_fn_index, 1, 7, 3, 13, 14, 15, 16, 17);
    v.append(&mut w);
    let mut w: Vec<Instr> = emit_store_string_slot_vec(9, 10, 13);
    v.append(&mut w);
    let mut w: Vec<Instr> = vec![Instr::LocalGet(8), Instr::Return, Instr::End];
    v.append(&mut w);
    v
}

/// Appends the body of `emit_split_to_list_function`.
pub(crate) fn emit_split_to_list_function_body(out: &mut Vec<Instr>, alloc_fn_index: u32, flatten_fn_index: u32)
    ensures
        final(out)@ == old(out)@ + spec_emit_split_to_list_function_body(alloc_fn_index, flatten_fn_index),
{
    let mut v = emit_split_to_list_function_body_vec(alloc_fn_index, flatten_fn_index);
    out.append(&mut v);
}

/// The local declarations of `emit_split_to_list_function`.
pub open spec fn spec_emit_split_to_list_function_locals() -> Seq<(u32, ValTy)> {
    seq![(18, ValTy::I32)]
}

/// Instructions emitted by `emit_split_to_list_function`.
pub fn emit_split_to_list_function(alloc_fn_index: u32, flatten_fn_index: u32) -> (func: Function)
    ensures
        body_bytes(func) == locals_bytes(spec_emit_split_to_list_function_locals()) + instrs_bytes(spec_emit_split_to_list_function_body(alloc_fn_index, flatten_fn_index)),
{
    let instrs = emit_split_to_list_function_body_vec(alloc_fn_index, flatten_fn_index);
    let mut locals: Vec<(u32, ValTy)> = Vec::new();
    locals.push((18, ValTy::I32));
    assert(locals@ =~= spec_emit_split_to_list_function_locals());
    encode_body(&locals, &instrs)
}

} // verus!

