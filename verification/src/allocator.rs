//! The bump allocator, emitted as a WASM function.

use vstd::prelude::*;
use wasm_encoder::Function;
use crate::encode::{body_bytes, encode_body, instrs_bytes, locals_bytes};
use crate::instr::{BlockTy, Instr, MemArg, ValTy};

verus! {

/// The instructions that `emit_alloc_function_body` appends.
pub open spec fn spec_emit_alloc_function_body() -> Seq<Instr> {
    seq![
            Instr::GlobalGet(0),
            Instr::LocalSet(1),
            Instr::LocalGet(0),
            Instr::I32Const(0i32),
            Instr::I32LtS,
            Instr::If(BlockTy::Empty),
            Instr::Unreachable,
            Instr::End,
            Instr::LocalGet(1),
            Instr::LocalGet(0),
            Instr::I32Add,
            Instr::LocalSet(2),
            Instr::LocalGet(2),
            Instr::LocalGet(1),
            Instr::I32LtU,
            Instr::If(BlockTy::Empty),
            Instr::Unreachable,
            Instr::End,
            Instr::LocalGet(2),
            Instr::I64ExtendI32U,
            Instr::MemorySize(0),
            Instr::I64ExtendI32U,
            Instr::I64Const(65536i64),
            Instr::I64Mul,
            Instr::I64GtU,
            Instr::If(BlockTy::Empty),
            Instr::LocalGet(2),
            Instr::I64ExtendI32U,
            Instr::MemorySize(0),
            Instr::I64ExtendI32U,
            Instr::I64Const(65536i64),
            Instr::I64Mul,
            Instr::I64Sub,
            Instr::I64Const(1i64),
            Instr::I64Sub,
            Instr::I64Const(65536i64),
            Instr::I64DivU,
            Instr::I64Const(1i64),
            Instr::I64Add,
            Instr::I32WrapI64,
            Instr::MemoryGrow(0),
            Instr::I32Const(-1i32),
            Instr::I32Eq,
            Instr::If(BlockTy::Empty),
            Instr::Unreachable,
            Instr::End,
            Instr::End,
            Instr::LocalGet(2),
            Instr::GlobalSet(0),
            Instr::LocalGet(1),
            Instr::End,
        ]
}

/// The instructions of `emit_alloc_function_body`, as a new list.
pub(crate) fn emit_alloc_function_body_vec() -> (r: Vec<Instr>)
    ensures
        r@ == spec_emit_alloc_function_body(),
{
    let mut v: Vec<Instr> = vec![Instr::GlobalGet(0), Instr::LocalSet(1), Instr::LocalGet(0), Instr::I32Const(0i32), Instr::I32LtS, Instr::If(BlockTy::Empty), Instr::Unreachable, Instr::End, Instr::LocalGet(1), Instr::LocalGet(0), Instr::I32Add, Instr::LocalSet(2), Instr::LocalGet(2), Instr::LocalGet(1), Instr::I32LtU, Instr::If(BlockTy::Empty), Instr::Unreachable, Instr::End, Instr::LocalGet(2), Instr::I64ExtendI32U, Instr::MemorySize(0), Instr::I64ExtendI32U, Instr::I64Const(65536i64), Instr::I64Mul, Instr::I64GtU, Instr::If(BlockTy::Empty), Instr::LocalGet(2), Instr::I64ExtendI32U, Instr::MemorySize(0), Instr::I64ExtendI32U, Instr::I64Const(65536i64), Instr::I64Mul, Instr::I64Sub, Instr::I64Const(1i64), Instr::I64Sub, Instr::I64Const(65536i64), Instr::I64DivU, Instr::I64Const(1i64), Instr::I64Add, Instr::I32WrapI64, Instr::MemoryGrow(0), Instr::I32Const(-1i32), Instr::I32Eq, Instr::If(BlockTy::Empty), Instr::Unreachable, Instr::End, Instr::End, Instr::LocalGet(2), Instr::GlobalSet(0), Instr::LocalGet(1), Instr::End];
    v
}

/// Appends the body of `emit_alloc_function`.
pub(crate) fn emit_alloc_function_body(out: &mut Vec<Instr>)
    ensures
        final(out)@ == old(out)@ + spec_emit_alloc_function_body(),
{
    let mut v = emit_alloc_function_body_vec();
    out.append(&mut v);
}

/// The local declarations of `emit_alloc_function`.
pub open spec fn spec_emit_alloc_function_locals() -> Seq<(u32, ValTy)> {
    seq![(2, ValTy::I32)]
}

/// Emit the `$alloc(size: i32) -> i32` bump allocator function body.
///
/// Algorithm:
///   ptr = global $heap_ptr
///   reject if size < 0
///   new_ptr = ptr + size
///   reject on wrapping add (new_ptr < ptr)
///   grow memory if new_ptr exceeds current memory size
///   global $heap_ptr = new_ptr
///   return ptr
pub fn emit_alloc_function() -> (func: Function)
    ensures
        body_bytes(func) == locals_bytes(spec_emit_alloc_function_locals()) + instrs_bytes(spec_emit_alloc_function_body()),
{
    let instrs = emit_alloc_function_body_vec();
    let mut locals: Vec<(u32, ValTy)> = Vec::new();
    locals.push((2, ValTy::I32));
    assert(locals@ =~= spec_emit_alloc_function_locals());
    encode_body(&locals, &instrs)
}

} // verus!

