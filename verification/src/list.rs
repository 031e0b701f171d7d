//! Internal list helpers, emitted as WASM functions.

use vstd::prelude::*;
use wasm_encoder::Function;
use crate::encode::{body_bytes, encode_body, instrs_bytes, locals_bytes};
use crate::instr::{BlockTy, Instr, MemArg, ValTy};

verus! {

/// The instructions that `emit_alloc_dynamic_bytes_to_local` appends.
pub open spec fn spec_emit_alloc_dynamic_bytes_to_local(alloc_fn_index: u32, size_local: u32, out_local: u32) -> Seq<Instr> {
    seq![
            Instr::LocalGet(size_local),
            Instr::Call(alloc_fn_index),
            Instr::Drop,
            Instr::GlobalGet(0),
            Instr::LocalGet(size_local),
            Instr::I32Sub,
            Instr::LocalSet(out_local),
        ]
}

/// The instructions of `emit_alloc_dynamic_bytes_to_local`, as a new list.
pub(crate) fn emit_alloc_dynamic_bytes_to_local_vec(alloc_fn_index: u32, size_local: u32, out_local: u32) -> (r: Vec<Instr>)
    ensures
        r@ == spec_emit_alloc_dynamic_bytes_to_local(alloc_fn_index, size_local, out_local),
{
    let mut v: Vec<Instr> = vec![Instr::LocalGet(size_local), Instr::Call(alloc_fn_index), Instr::Drop, Instr::GlobalGet(0), Instr::LocalGet(size_local), Instr::I32Sub, Instr::LocalSet(out_local)];
    v
}

/// Instructions emitted by `emit_alloc_dynamic_bytes_to_local`.
pub(crate) fn emit_alloc_dynamic_bytes_to_local(out: &mut Vec<Instr>, alloc_fn_index: u32, size_local: u32, out_local: u32)
    ensures
        final(out)@ == old(out)@ + spec_emit_alloc_dynamic_bytes_to_local(alloc_fn_index, size_local, out_local),
{
    let mut v = emit_alloc_dynamic_bytes_to_local_vec(alloc_fn_index, size_local, out_local);
    out.append(&mut v);
}

/// The instructions that `emit_mutable_list_push_i64_function_body` appends.
pub open spec fn spec_emit_mutable_list_push_i64_function_body(alloc_fn_index: u32) -> Seq<Instr> {
    seq![
            Instr::LocalGet(0),
            Instr::I32Load(MemArg { offset: 0, align: 2 }),
            Instr::LocalSet(2),
            Instr::LocalGet(0),
            Instr::I32Load(MemArg { offset: 4, align: 2 }),
            Instr::LocalSet(3),
            Instr::LocalGet(0),
            Instr::I32Load(MemArg { offset: 8, align: 2 }),
            Instr::LocalSet(4),
            Instr::LocalGet(2),
            Instr::I32Const(1i32),
            Instr::I32Add,
            Instr::LocalSet(5),
            Instr::LocalGet(2),
            Instr::LocalGet(3),
            Instr::I32GeU,
            Instr::If(BlockTy::Empty),
            Instr::LocalGet(3),
            Instr::I32Eqz,
            Instr::If(BlockTy::Empty),
            Instr::I32Const(1i32),
            Instr::LocalSet(6),
            Instr::Else,
            Instr::LocalGet(3),
            Instr::LocalGet(3),
            Instr::I32Add,
            Instr::LocalSet(6),
            Instr::LocalGet(6),
            Instr::LocalGet(5),
            Instr::I32LtU,
            Instr::If(BlockTy::Empty),
            Instr::LocalGet(5),
            Instr::LocalSet(6),
            Instr::End,
            Instr::End,
            Instr::LocalGet(4),
            Instr::LocalGet(3),
            Instr::I32Const(8i32),
            Instr::I32Mul,
            Instr::I32Add,
            Instr::LocalSet(8),
            Instr::GlobalGet(0),
            Instr::LocalSet(9),
            Instr::LocalGet(8),
            Instr::LocalGet(9),
            Instr::I32Eq,
            Instr::If(BlockTy::Empty),
            Instr::LocalGet(6),
            Instr::LocalGet(3),
            Instr::I32Sub,
            Instr::I32Const(8i32),
            Instr::I32Mul,
            Instr::LocalSet(7),
        ]
        + spec_emit_alloc_dynamic_bytes_to_local(alloc_fn_index, 7, 7)
        + seq![
            Instr::LocalGet(6),
            Instr::LocalSet(3),
            Instr::Else,
            Instr::LocalGet(6),
            Instr::I32Const(8i32),
            Instr::I32Mul,
            Instr::LocalSet(7),
        ]
        + spec_emit_alloc_dynamic_bytes_to_local(alloc_fn_index, 7, 7)
        + seq![
            Instr::LocalGet(2),
            Instr::If(BlockTy::Empty),
            Instr::LocalGet(7),
            Instr::LocalGet(4),
            Instr::LocalGet(2),
            Instr::I32Const(8i32),
            Instr::I32Mul,
            Instr::MemoryCopy { src_mem: 0, dst_mem: 0 },
            Instr::End,
            Instr::LocalGet(7),
            Instr::LocalSet(4),
            Instr::LocalGet(6),
            Instr::LocalSet(3),
            Instr::End,
            Instr::End,
            Instr::LocalGet(4),
            Instr::LocalGet(2),
            Instr::I32Const(8i32),
            Instr::I32Mul,
            Instr::I32Add,
            Instr::LocalGet(1),
            Instr::I64Store(MemArg { offset: 0, align: 3 }),
            Instr::LocalGet(0),
            Instr::LocalGet(5),
            Instr::I32Store(MemArg { offset: 0, align: 2 }),
            Instr::LocalGet(0),
            Instr::LocalGet(3),
            Instr::I32Store(MemArg { offset: 4, align: 2 }),
            Instr::LocalGet(0),
            Instr::LocalGet(4),
            Instr::I32Store(MemArg { offset: 8, align: 2 }),
            Instr::LocalGet(0),
            Instr::Return,
            Instr::End,
        ]
}

/// The instructions of `emit_mutable_list_push_i64_function_body`, as a new list.
pub(crate) fn emit_mutable_list_push_i64_function_body_vec(alloc_fn_index: u32) -> (r: Vec<Instr>)
    ensures
        r@ == spec_emit_mutable_list_push_i64_function_body(alloc_fn_index),
{
    let mut v: Vec<Instr> = vec![Instr::LocalGet(0), Instr::I32Load(MemArg { offset: 0, align: 2 }), Instr::LocalSet(2), Instr::LocalGet(0), Instr::I32Load(MemArg { offset: 4, align: 2 }), Instr::LocalSet(3), Instr::LocalGet(0), Instr::I32Load(MemArg { offset: 8, align: 2 }), Instr::LocalSet(4), Instr::LocalGet(2), Instr::I32Const(1i32), Instr::I32Add, Instr::LocalSet(5), Instr::LocalGet(2), Instr::LocalGet(3), Instr::I32GeU, Instr::If(BlockTy::Empty), Instr::LocalGet(3), Instr::I32Eqz, Instr::If(BlockTy::Empty), Instr::I32Const(1i32), Instr::LocalSet(6), Instr::Else, Instr::LocalGet(3), Instr::LocalGet(3), Instr::I32Add, Instr::LocalSet(6), Instr::LocalGet(6), Instr::LocalGet(5), Instr::I32LtU, Instr::If(BlockTy::Empty), Instr::LocalGet(5), Instr::LocalSet(6), Instr::End, Instr::End, Instr::LocalGet(4), Instr::LocalGet(3), Instr::I32Const(8i32), Instr::I32Mul, Instr::I32Add, Instr::LocalSet(8), Instr::GlobalGet(0), Instr::LocalSet(9), Instr::LocalGet(8), Instr::LocalGet(9), Instr::I32Eq, Instr::If(BlockTy::Empty), Instr::LocalGet(6), Instr::LocalGet(3), Instr::I32Sub, Instr::I32Const(8i32), Instr::I32Mul, Instr::LocalSet(7)];
    let mut w: Vec<Instr> = emit_alloc_dynamic_bytes_to_local_vec(alloc_fn_index, 7, 7);
    v.append(&mut w);
    let mut w: Vec<Instr> = vec![Instr::LocalGet(6), Instr::LocalSet(3), Instr::Else, Instr::LocalGet(6), Instr::I32Const(8i32), Instr::I32Mul, Instr::LocalSet(7)];
    v.append(&mut w);
    let mut w: Vec<Instr> = emit_alloc_dynamic_bytes_to_local_vec(alloc_fn_index, 7, 7);
    v.append(&mut w);
    let mut w: Vec<Instr> = vec![Instr::LocalGet(2), Instr::If(BlockTy::Empty), Instr::LocalGet(7), Instr::LocalGet(4), Instr::LocalGet(2), Instr::I32Const(8i32), Instr::I32Mul, Instr::MemoryCopy { src_mem: 0, dst_mem: 0 }, Instr::End, Instr::LocalGet(7), Instr::LocalSet(4), Instr::LocalGet(6), Instr::LocalSet(3), Instr::End, Instr::End, Instr::LocalGet(4), Instr::LocalGet(2), Instr::I32Const(8i32), Instr::I32Mul, Instr::I32Add, Instr::LocalGet(1), Instr::I64Store(MemArg { offset: 0, align: 3 }), Instr::LocalGet(0), Instr::LocalGet(5), Instr::I32Store(MemArg { offset: 0, align: 2 }), Instr::LocalGet(0), Instr::LocalGet(3), Instr::I32Store(MemArg { offset: 4, align: 2 }), Instr::LocalGet(0), Instr::LocalGet(4), Instr::I32Store(MemArg { offset: 8, align: 2 }), Instr::LocalGet(0), Instr::Return, Instr::End];
    v.append(&mut w);
    v
}

/// Appends the body of `emit_mutable_list_push_i64_function`.
pub(crate) fn emit_mutable_list_push_i64_function_body(out: &mut Vec<Instr>, alloc_fn_index: u32)
    ensures
        final(out)@ == old(out)@ + spec_emit_mutable_list_push_i64_function_body(alloc_fn_index),
{
    let mut v = emit_mutable_list_push_i64_function_body_vec(alloc_fn_index);
    out.append(&mut v);
}

/// The local declarations of `emit_mutable_list_push_i64_function`.
pub open spec fn spec_emit_mutable_list_push_i64_function_locals() -> Seq<(u32, ValTy)> {
    seq![(9, ValTy::I32)]
}

/// Instructions emitted by `emit_mutable_list_push_i64_function`.
pub fn emit_mutable_list_push_i64_function(alloc_fn_index: u32) -> (func: Function)
    ensures
        body_bytes(func) == locals_bytes(spec_emit_mutable_list_push_i64_function_locals()) + instrs_bytes(spec_emit_mutable_list_push_i64_function_body(alloc_fn_index)),
{
    let instrs = emit_mutable_list_push_i64_function_body_vec(alloc_fn_index);
    let mut locals: Vec<(u32, ValTy)> = Vec::new();
    locals.push((9, ValTy::I32));
    assert(locals@ =~= spec_emit_mutable_list_push_i64_function_locals());
    encode_body(&locals, &instrs)
}

/// The instructions that `emit_mutable_list_set_i64_function_body` appends.
pub open spec fn spec_emit_mutable_list_set_i64_function_body() -> Seq<Instr> {
    seq![
            Instr::LocalGet(0),
            Instr::I32Load(MemArg { offset: 0, align: 2 }),
            Instr::LocalSet(3),
            Instr::LocalGet(1),
            Instr::I64Const(0i64),
            Instr::I64LtS,
            Instr::If(BlockTy::Empty),
            Instr::Unreachable,
            Instr::End,
            Instr::LocalGet(1),
            Instr::LocalGet(3),
            Instr::I64ExtendI32U,
            Instr::I64GeU,
            Instr::If(BlockTy::Empty),
            Instr::Unreachable,
            Instr::End,
            Instr::LocalGet(1),
            Instr::I32WrapI64,
            Instr::LocalSet(4),
            Instr::LocalGet(0),
            Instr::I32Load(MemArg { offset: 8, align: 2 }),
            Instr::LocalSet(5),
            Instr::LocalGet(5),
            Instr::LocalGet(4),
            Instr::I32Const(8i32),
            Instr::I32Mul,
            Instr::I32Add,
            Instr::LocalGet(2),
            Instr::I64Store(MemArg { offset: 0, align: 3 }),
            Instr::LocalGet(0),
            Instr::Return,
            Instr::End,
        ]
}

/// The instructions of `emit_mutable_list_set_i64_function_body`, as a new list.
pub(crate) fn emit_mutable_list_set_i64_function_body_vec() -> (r: Vec<Instr>)
    ensures
        r@ == spec_emit_mutable_list_set_i64_function_body(),
{
    let mut v: Vec<Instr> = vec![Instr::LocalGet(0), Instr::I32Load(MemArg { offset: 0, align: 2 }), Instr::LocalSet(3), Instr::LocalGet(1), Instr::I64Const(0i64), Instr::I64LtS, Instr::If(BlockTy::Empty), Instr::Unreachable, Instr::End, Instr::LocalGet(1), Instr::LocalGet(3), Instr::I64ExtendI32U, Instr::I64GeU, Instr::If(BlockTy::Empty), Instr::Unreachable, Instr::End, Instr::LocalGet(1), Instr::I32WrapI64, Instr::LocalSet(4), Instr::LocalGet(0), Instr::I32Load(MemArg { offset: 8, align: 2 }), Instr::LocalSet(5), Instr::LocalGet(5), Instr::LocalGet(4), Instr::I32Const(8i32), Instr::I32Mul, Instr::I32Add, Instr::LocalGet(2), Instr::I64Store(MemArg { offset: 0, align: 3 }), Instr::LocalGet(0), Instr::Return, Instr::End];
    v
}

/// Appends the body of `emit_mutable_list_set_i64_function`.
pub(crate) fn emit_mutable_list_set_i64_function_body(out: &mut Vec<Instr>)
    ensures
        final(out)@ == old(out)@ + spec_emit_mutable_list_set_i64_function_body(),
{
    let mut v = emit_mutable_list_set_i64_function_body_vec();
    out.append(&mut v);
}

/// The local declarations of `emit_mutable_list_set_i64_function`.
pub open spec fn spec_emit_mutable_list_set_i64_function_locals() -> Seq<(u32, ValTy)> {
    seq![(3, ValTy::I32)]
}

/// Instructions emitted by `emit_mutable_list_set_i64_function`.
pub fn emit_mutable_list_set_i64_function() -> (func: Function)
    ensures
        body_bytes(func) == locals_bytes(spec_emit_mutable_list_set_i64_function_locals()) + instrs_bytes(spec_emit_mutable_list_set_i64_function_body()),
{
    let instrs = emit_mutable_list_set_i64_function_body_vec();
    let mut locals: Vec<(u32, ValTy)> = Vec::new();
    locals.push((3, ValTy::I32));
    assert(locals@ =~= spec_emit_mutable_list_set_i64_function_locals());
    encode_body(&locals, &instrs)
}

/// The instructions that `emit_list_index_i64_function_body` appends.
pub open spec fn spec_emit_list_index_i64_function_body() -> Seq<Instr> {
    seq![
            Instr::LocalGet(0),
            Instr::I32Load(MemArg { offset: 0, align: 2 }),
            Instr::LocalSet(2),
            Instr::LocalGet(1),
            Instr::I64Const(0i64),
            Instr::I64LtS,
            Instr::If(BlockTy::Empty),
            Instr::Unreachable,
            Instr::End,
            Instr::LocalGet(1),
            Instr::LocalGet(2),
            Instr::I64ExtendI32U,
            Instr::I64GeU,
            Instr::If(BlockTy::Empty),
            Instr::Unreachable,
            Instr::End,
            Instr::LocalGet(1),
            Instr::I32WrapI64,
            Instr::LocalSet(3),
            Instr::LocalGet(0),
            Instr::I32Load(MemArg { offset: 8, align: 2 }),
            Instr::LocalSet(4),
            Instr::LocalGet(4),
            Instr::LocalGet(3),
            Instr::I32Const(8i32),
            Instr::I32Mul,
            Instr::I32Add,
            Instr::I64Load(MemArg { offset: 0, align: 3 }),
            Instr::Return,
            Instr::End,
        ]
}

/// The instructions of `emit_list_index_i64_function_body`, as a new list.
pub(crate) fn emit_list_index_i64_function_body_vec() -> (r: Vec<Instr>)
    ensures
        r@ == spec_emit_list_index_i64_function_body(),
{
    let mut v: Vec<Instr> = vec![Instr::LocalGet(0), Instr::I32Load(MemArg { offset: 0, align: 2 }), Instr::LocalSet(2), Instr::LocalGet(1), Instr::I64Const(0i64), Instr::I64LtS, Instr::If(BlockTy::Empty), Instr::Unreachable, Instr::End, Instr::LocalGet(1), Instr::LocalGet(2), Instr::I64ExtendI32U, Instr::I64GeU, Instr::If(BlockTy::Empty), Instr::Unreachable, Instr::End, Instr::LocalGet(1), Instr::I32WrapI64, Instr::LocalSet(3), Instr::LocalGet(0), Instr::I32Load(MemArg { offset: 8, align: 2 }), Instr::LocalSet(4), Instr::LocalGet(4), Instr::LocalGet(3), Instr::I32Const(8i32), Instr::I32Mul, Instr::I32Add, Instr::I64Load(MemArg { offset: 0, align: 3 }), Instr::Return, Instr::End];
    v
}

/// Appends the body of `emit_list_index_i64_function`.
pub(crate) fn emit_list_index_i64_function_body(out: &mut Vec<Instr>)
    ensures
        final(out)@ == old(out)@ + spec_emit_list_index_i64_function_body(),
{
    let mut v = emit_list_index_i64_function_body_vec();
    out.append(&mut v);
}

/// The local declarations of `emit_list_index_i64_function`.
pub open spec fn spec_emit_list_index_i64_function_locals() -> Seq<(u32, ValTy)> {
    seq![(3, ValTy::I32)]
}

/// Instructions emitted by `emit_list_index_i64_function`.
pub fn emit_list_index_i64_function() -> (func: Function)
    ensures
        body_bytes(func) == locals_bytes(spec_emit_list_index_i64_function_locals()) + instrs_bytes(spec_emit_list_index_i64_function_body()),
{
    let instrs = emit_list_index_i64_function_body_vec();
    let mut locals: Vec<(u32, ValTy)> = Vec::new();
    locals.push((3, ValTy::I32));
    assert(locals@ =~= spec_emit_list_index_i64_function_locals());
    encode_body(&locals, &instrs)
}

/// The instructions that `emit_list_get_i64_function_body` appends.
pub open spec fn spec_emit_list_get_i64_function_body() -> Seq<Instr> {
    seq![
            Instr::LocalGet(0),
            Instr::I32Load(MemArg { offset: 0, align: 2 }),
            Instr::LocalSet(2),
            Instr::LocalGet(1),
            Instr::I64Const(0i64),
            Instr::I64LtS,
            Instr::If(BlockTy::Empty),
            Instr::I32Const(0i32),
            Instr::I64Const(0i64),
            Instr::Return,
            Instr::End,
            Instr::LocalGet(1),
            Instr::LocalGet(2),
            Instr::I64ExtendI32U,
            Instr::I64GeU,
            Instr::If(BlockTy::Empty),
            Instr::I32Const(0i32),
            Instr::I64Const(0i64),
            Instr::Return,
            Instr::End,
            Instr::LocalGet(1),
            Instr::I32WrapI64,
            Instr::LocalSet(3),
            Instr::LocalGet(0),
            Instr::I32Load(MemArg { offset: 8, align: 2 }),
            Instr::LocalSet(4),
            Instr::I32Const(1i32),
            Instr::LocalGet(4),
            Instr::LocalGet(3),
            Instr::I32Const(8i32),
            Instr::I32Mul,
            Instr::I32Add,
            Instr::I64Load(MemArg { offset: 0, align: 3 }),
            Instr::Return,
            Instr::End,
        ]
}

/// The instructions of `emit_list_get_i64_function_body`, as a new list.
pub(crate) fn emit_list_get_i64_function_body_vec() -> (r: Vec<Instr>)
    ensures
        r@ == spec_emit_list_get_i64_function_body(),
{
    let mut v: Vec<Instr> = vec![Instr::LocalGet(0), Instr::I32Load(MemArg { offset: 0, align: 2 }), Instr::LocalSet(2), Instr::LocalGet(1), Instr::I64Const(0i64), Instr::I64LtS, Instr::If(BlockTy::Empty), Instr::I32Const(0i32), Instr::I64Const(0i64), Instr::Return, Instr::End, Instr::LocalGet(1), Instr::LocalGet(2), Instr::I64ExtendI32U, Instr::I64GeU, Instr::If(BlockTy::Empty), Instr::I32Const(0i32), Instr::I64Const(0i64), Instr::Return, Instr::End, Instr::LocalGet(1), Instr::I32WrapI64, Instr::LocalSet(3), Instr::LocalGet(0), Instr::I32Load(MemArg { offset: 8, align: 2 }), Instr::LocalSet(4), Instr::I32Const(1i32), Instr::LocalGet(4), Instr::LocalGet(3), Instr::I32Const(8i32), Instr::I32Mul, Instr::I32Add, Instr::I64Load(MemArg { offset: 0, align: 3 }), Instr::Return, Instr::End];
    v
}

/// Appends the body of `emit_list_get_i64_function`.
pub(crate) fn emit_list_get_i64_function_body(out: &mut Vec<Instr>)
    ensures
        final(out)@ == old(out)@ + spec_emit_list_get_i64_function_body(),
{
    let mut v = emit_list_get_i64_function_body_vec();
    out.append(&mut v);
}

/// The local declarations of `emit_list_get_i64_function`.
pub open spec fn spec_emit_list_get_i64_function_locals() -> Seq<(u32, ValTy)> {
    seq![(3, ValTy::I32)]
}

/// Instructions emitted by `emit_list_get_i64_function`.
pub fn emit_list_get_i64_function() -> (func: Function)
    ensures
        body_bytes(func) == locals_bytes(spec_emit_list_get_i64_function_locals()) + instrs_bytes(spec_emit_list_get_i64_function_body()),
{
    let instrs = emit_list_get_i64_function_body_vec();
    let mut locals: Vec<(u32, ValTy)> = Vec::new();
    locals.push((3, ValTy::I32));
    assert(locals@ =~= spec_emit_list_get_i64_function_locals());
    encode_body(&locals, &instrs)
}

/// The instructions that `emit_mutable_list_pop_i64_function_body` appends.
pub open spec fn spec_emit_mutable_list_pop_i64_function_body() -> Seq<Instr> {
    seq![
            Instr::LocalGet(0),
            Instr::I32Load(MemArg { offset: 0, align: 2 }),
            Instr::LocalSet(1),
            Instr::LocalGet(1),
            Instr::I32Eqz,
            Instr::If(BlockTy::Empty),
            Instr::I32Const(0i32),
            Instr::I64Const(0i64),
            Instr::Return,
            Instr::End,
            Instr::LocalGet(0),
            Instr::I32Load(MemArg { offset: 4, align: 2 }),
            Instr::LocalSet(2),
            Instr::LocalGet(0),
            Instr::I32Load(MemArg { offset: 8, align: 2 }),
            Instr::LocalSet(3),
            Instr::LocalGet(1),
            Instr::I32Const(1i32),
            Instr::I32Sub,
            Instr::LocalSet(4),
            Instr::LocalGet(3),
            Instr::LocalGet(4),
            Instr::I32Const(8i32),
            Instr::I32Mul,
            Instr::I32Add,
            Instr::I64Load(MemArg { offset: 0, align: 3 }),
            Instr::LocalSet(5),
            Instr::LocalGet(0),
            Instr::LocalGet(4),
            Instr::I32Store(MemArg { offset: 0, align: 2 }),
            Instr::LocalGet(0),
            Instr::LocalGet(2),
            Instr::I32Store(MemArg { offset: 4, align: 2 }),
            Instr::LocalGet(0),
            Instr::LocalGet(3),
            Instr::I32Store(MemArg { offset: 8, align: 2 }),
            Instr::I32Const(1i32),
            Instr::LocalGet(5),
            Instr::Return,
            Instr::End,
        ]
}

/// The instructions of `emit_mutable_list_pop_i64_function_body`, as a new list.
pub(crate) fn emit_mutable_list_pop_i64_function_body_vec() -> (r: Vec<Instr>)
    ensures
        r@ == spec_emit_mutable_list_pop_i64_function_body(),
{
    let mut v: Vec<Instr> = vec![Instr::LocalGet(0), Instr::I32Load(MemArg { offset: 0, align: 2 }), Instr::LocalSet(1), Instr::LocalGet(1), Instr::I32Eqz, Instr::If(BlockTy::Empty), Instr::I32Const(0i32), Instr::I64Const(0i64), Instr::Return, Instr::End, Instr::LocalGet(0), Instr::I32Load(MemArg { offset: 4, align: 2 }), Instr::LocalSet(2), Instr::LocalGet(0), Instr::I32Load(MemArg { offset: 8, align: 2 }), Instr::LocalSet(3), Instr::LocalGet(1), Instr::I32Const(1i32), Instr::I32Sub, Instr::LocalSet(4), Instr::LocalGet(3), Instr::LocalGet(4), Instr::I32Const(8i32), Instr::I32Mul, Instr::I32Add, Instr::I64Load(MemArg { offset: 0, align: 3 }), Instr::LocalSet(5), Instr::LocalGet(0), Instr::LocalGet(4), Instr::I32Store(MemArg { offset: 0, align: 2 }), Instr::LocalGet(0), Instr::LocalGet(2), Instr::I32Store(MemArg { offset: 4, align: 2 }), Instr::LocalGet(0), Instr::LocalGet(3), Instr::I32Store(MemArg { offset: 8, align: 2 }), Instr::I32Const(1i32), Instr::LocalGet(5), Instr::Return, Instr::End];
    v
}

/// Appends the body of `emit_mutable_list_pop_i64_function`.
pub(crate) fn emit_mutable_list_pop_i64_function_body(out: &mut Vec<Instr>)
    ensures
        final(out)@ == old(out)@ + spec_emit_mutable_list_pop_i64_function_body(),
{
    let mut v = emit_mutable_list_pop_i64_function_body_vec();
    out.append(&mut v);
}

/// The local declarations of `emit_mutable_list_pop_i64_function`.
pub open spec fn spec_emit_mutable_list_pop_i64_function_locals() -> Seq<(u32, ValTy)> {
    seq![(4, ValTy::I32), (1, ValTy::I64)]
}

/// Instructions emitted by `emit_mutable_list_pop_i64_function`.
pub fn emit_mutable_list_pop_i64_function() -> (func: Function)
    ensures
        body_bytes(func) == locals_bytes(spec_emit_mutable_list_pop_i64_function_locals()) + instrs_bytes(spec_emit_mutable_list_pop_i64_function_body()),
{
    let instrs = emit_mutable_list_pop_i64_function_body_vec();
    let mut locals: Vec<(u32, ValTy)> = Vec::new();
    locals.push((4, ValTy::I32));
    locals.push((1, ValTy::I64));
    assert(locals@ =~= spec_emit_mutable_list_pop_i64_function_locals());
    encode_body(&locals, &instrs)
}

} // verus!

