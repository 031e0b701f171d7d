//! Emission of the string operations: comparison, search, trimming, slicing, concatenation and conversion to strings.

use vstd::prelude::*;
use crate::error::{concat3, CodegenError, ErrorKind};
use crate::func::{chain, emits, FuncCodegen};
use crate::instr::{BlockTy, Instr, MemArg, ValTy};
use crate::ir::{Ty, ValueId};
use crate::module::{spec_typed_load};
use crate::text::ty_text;

verus! {

impl<'a> FuncCodegen<'a> {

    /// The instructions that `emit_string_compare` appends.
    pub open spec fn spec_emit_string_compare(&self, lhs: ValueId, rhs: ValueId) -> Seq<Instr> {
        seq![
            Instr::LocalGet(self.spec_local(lhs)),
            Instr::I32Load(MemArg { offset: 0, align: 2 }),
            Instr::LocalSet(self.scratch_i32),
            Instr::LocalGet(self.spec_local(rhs)),
            Instr::I32Load(MemArg { offset: 0, align: 2 }),
            Instr::LocalSet(self.scratch_i32_2),
            Instr::I32Const(0i32),
            Instr::LocalSet(self.scratch_i32_3),
            Instr::I32Const(0i32),
            Instr::LocalSet(self.scratch_i32_4),
            Instr::Block(BlockTy::Empty),
            Instr::Loop(BlockTy::Empty),
            Instr::LocalGet(self.scratch_i32_3),
            Instr::LocalGet(self.scratch_i32),
            Instr::I32GeU,
            Instr::BrIf(1),
            Instr::LocalGet(self.scratch_i32_3),
            Instr::LocalGet(self.scratch_i32_2),
            Instr::I32GeU,
            Instr::BrIf(1),
            Instr::LocalGet(self.spec_local(lhs)),
            Instr::I32Const(8i32),
            Instr::I32Add,
            Instr::LocalGet(self.scratch_i32_3),
            Instr::I32Add,
            Instr::I32Load8U(MemArg { offset: 0, align: 0 }),
            Instr::LocalSet(self.scratch_i32_5),
            Instr::LocalGet(self.scratch_i32_5),
            Instr::LocalGet(self.spec_local(rhs)),
            Instr::I32Const(8i32),
            Instr::I32Add,
            Instr::LocalGet(self.scratch_i32_3),
            Instr::I32Add,
            Instr::I32Load8U(MemArg { offset: 0, align: 0 }),
            Instr::I32LtU,
            Instr::If(BlockTy::Empty),
            Instr::I32Const(-1i32),
            Instr::LocalSet(self.scratch_i32_4),
            Instr::Br(2),
            Instr::End,
            Instr::LocalGet(self.scratch_i32_5),
            Instr::LocalGet(self.spec_local(rhs)),
            Instr::I32Const(8i32),
            Instr::I32Add,
            Instr::LocalGet(self.scratch_i32_3),
            Instr::I32Add,
            Instr::I32Load8U(MemArg { offset: 0, align: 0 }),
            Instr::I32GtU,
            Instr::If(BlockTy::Empty),
            Instr::I32Const(1i32),
            Instr::LocalSet(self.scratch_i32_4),
            Instr::Br(2),
            Instr::End,
            Instr::LocalGet(self.scratch_i32_3),
            Instr::I32Const(1i32),
            Instr::I32Add,
            Instr::LocalSet(self.scratch_i32_3),
            Instr::Br(0),
            Instr::End,
            Instr::End,
            Instr::LocalGet(self.scratch_i32_4),
            Instr::I32Eqz,
            Instr::If(BlockTy::Empty),
            Instr::LocalGet(self.scratch_i32),
            Instr::LocalGet(self.scratch_i32_2),
            Instr::I32LtU,
            Instr::If(BlockTy::Empty),
            Instr::I32Const(-1i32),
            Instr::LocalSet(self.scratch_i32_4),
            Instr::Else,
            Instr::LocalGet(self.scratch_i32),
            Instr::LocalGet(self.scratch_i32_2),
            Instr::I32GtU,
            Instr::If(BlockTy::Empty),
            Instr::I32Const(1i32),
            Instr::LocalSet(self.scratch_i32_4),
            Instr::End,
            Instr::End,
            Instr::End,
            Instr::LocalGet(self.scratch_i32_4),
        ]
    }

    /// Appends the instructions of `emit_string_compare`.
    pub(crate) fn emit_string_compare(&self, out: &mut Vec<Instr>, lhs: ValueId, rhs: ValueId)
        requires
            self.wf(),
            self.value_ok(lhs),
            self.value_ok(rhs),
        ensures
            final(out)@ == old(out)@ + self.spec_emit_string_compare(lhs, rhs),
    {
        let mut v: Vec<Instr> = vec![
            Instr::LocalGet(self.local_for(lhs)),
            Instr::I32Load(MemArg { offset: 0, align: 2 }),
            Instr::LocalSet(self.scratch_i32),
            Instr::LocalGet(self.local_for(rhs)),
            Instr::I32Load(MemArg { offset: 0, align: 2 }),
            Instr::LocalSet(self.scratch_i32_2),
            Instr::I32Const(0i32),
            Instr::LocalSet(self.scratch_i32_3),
            Instr::I32Const(0i32),
            Instr::LocalSet(self.scratch_i32_4),
            Instr::Block(BlockTy::Empty),
            Instr::Loop(BlockTy::Empty),
            Instr::LocalGet(self.scratch_i32_3),
            Instr::LocalGet(self.scratch_i32),
            Instr::I32GeU,
            Instr::BrIf(1),
            Instr::LocalGet(self.scratch_i32_3),
            Instr::LocalGet(self.scratch_i32_2),
            Instr::I32GeU,
            Instr::BrIf(1),
            Instr::LocalGet(self.local_for(lhs)),
            Instr::I32Const(8i32),
            Instr::I32Add,
            Instr::LocalGet(self.scratch_i32_3),
            Instr::I32Add,
            Instr::I32Load8U(MemArg { offset: 0, align: 0 }),
            Instr::LocalSet(self.scratch_i32_5),
            Instr::LocalGet(self.scratch_i32_5),
            Instr::LocalGet(self.local_for(rhs)),
            Instr::I32Const(8i32),
            Instr::I32Add,
            Instr::LocalGet(self.scratch_i32_3),
            Instr::I32Add,
            Instr::I32Load8U(MemArg { offset: 0, align: 0 }),
            Instr::I32LtU,
            Instr::If(BlockTy::Empty),
            Instr::I32Const(-1i32),
            Instr::LocalSet(self.scratch_i32_4),
            Instr::Br(2),
            Instr::End,
            Instr::LocalGet(self.scratch_i32_5),
            Instr::LocalGet(self.local_for(rhs)),
            Instr::I32Const(8i32),
            Instr::I32Add,
            Instr::LocalGet(self.scratch_i32_3),
            Instr::I32Add,
            Instr::I32Load8U(MemArg { offset: 0, align: 0 }),
            Instr::I32GtU,
            Instr::If(BlockTy::Empty),
            Instr::I32Const(1i32),
            Instr::LocalSet(self.scratch_i32_4),
            Instr::Br(2),
            Instr::End,
            Instr::LocalGet(self.scratch_i32_3),
            Instr::I32Const(1i32),
            Instr::I32Add,
            Instr::LocalSet(self.scratch_i32_3),
            Instr::Br(0),
            Instr::End,
            Instr::End,
            Instr::LocalGet(self.scratch_i32_4),
            Instr::I32Eqz,
            Instr::If(BlockTy::Empty),
            Instr::LocalGet(self.scratch_i32),
            Instr::LocalGet(self.scratch_i32_2),
            Instr::I32LtU,
            Instr::If(BlockTy::Empty),
            Instr::I32Const(-1i32),
            Instr::LocalSet(self.scratch_i32_4),
            Instr::Else,
            Instr::LocalGet(self.scratch_i32),
            Instr::LocalGet(self.scratch_i32_2),
            Instr::I32GtU,
            Instr::If(BlockTy::Empty),
            Instr::I32Const(1i32),
            Instr::LocalSet(self.scratch_i32_4),
            Instr::End,
            Instr::End,
            Instr::End,
            Instr::LocalGet(self.scratch_i32_4),
        ];
        out.append(&mut v);
    }

    /// The instructions that `emit_string_contains` appends.
    pub open spec fn spec_emit_string_contains(&self, haystack: ValueId, needle: ValueId) -> Seq<Instr> {
        seq![
            Instr::LocalGet(self.spec_local(haystack)),
            Instr::I32Load(MemArg { offset: 0, align: 2 }),
            Instr::LocalSet(self.scratch_i32),
            Instr::LocalGet(self.spec_local(needle)),
            Instr::I32Load(MemArg { offset: 0, align: 2 }),
            Instr::LocalSet(self.scratch_i32_2),
            Instr::I32Const(0i32),
            Instr::LocalSet(self.scratch_i32_4),
            Instr::LocalGet(self.scratch_i32_2),
            Instr::I32Eqz,
            Instr::If(BlockTy::Empty),
            Instr::I32Const(1i32),
            Instr::LocalSet(self.scratch_i32_4),
            Instr::Else,
            Instr::LocalGet(self.scratch_i32_2),
            Instr::LocalGet(self.scratch_i32),
            Instr::I32LeU,
            Instr::If(BlockTy::Empty),
            Instr::LocalGet(self.scratch_i32),
            Instr::LocalGet(self.scratch_i32_2),
            Instr::I32Sub,
            Instr::LocalSet(self.scratch_i32_6),
            Instr::I32Const(0i32),
            Instr::LocalSet(self.scratch_i32_3),
            Instr::Block(BlockTy::Empty),
            Instr::Loop(BlockTy::Empty),
            Instr::LocalGet(self.scratch_i32_3),
            Instr::LocalGet(self.scratch_i32_6),
            Instr::I32GtU,
            Instr::BrIf(1),
            Instr::I32Const(1i32),
            Instr::LocalSet(self.scratch_i32_5),
            Instr::I32Const(0i32),
            Instr::LocalSet(self.scratch_i32_7),
            Instr::Block(BlockTy::Empty),
            Instr::Loop(BlockTy::Empty),
            Instr::LocalGet(self.scratch_i32_7),
            Instr::LocalGet(self.scratch_i32_2),
            Instr::I32GeU,
            Instr::BrIf(1),
            Instr::LocalGet(self.spec_local(haystack)),
            Instr::I32Const(8i32),
            Instr::I32Add,
            Instr::LocalGet(self.scratch_i32_3),
            Instr::I32Add,
            Instr::LocalGet(self.scratch_i32_7),
            Instr::I32Add,
            Instr::I32Load8U(MemArg { offset: 0, align: 0 }),
            Instr::LocalSet(self.scratch_i32_8),
            Instr::LocalGet(self.scratch_i32_8),
            Instr::LocalGet(self.spec_local(needle)),
            Instr::I32Const(8i32),
            Instr::I32Add,
            Instr::LocalGet(self.scratch_i32_7),
            Instr::I32Add,
            Instr::I32Load8U(MemArg { offset: 0, align: 0 }),
            Instr::I32Ne,
            Instr::LocalSet(self.scratch_i32_8),
            Instr::LocalGet(self.scratch_i32_8),
            Instr::If(BlockTy::Empty),
            Instr::I32Const(0i32),
            Instr::LocalSet(self.scratch_i32_5),
            Instr::End,
            Instr::LocalGet(self.scratch_i32_8),
            Instr::BrIf(1),
            Instr::LocalGet(self.scratch_i32_7),
            Instr::I32Const(1i32),
            Instr::I32Add,
            Instr::LocalSet(self.scratch_i32_7),
            Instr::Br(0),
            Instr::End,
            Instr::End,
            Instr::LocalGet(self.scratch_i32_5),
            Instr::If(BlockTy::Empty),
            Instr::I32Const(1i32),
            Instr::LocalSet(self.scratch_i32_4),
            Instr::End,
            Instr::LocalGet(self.scratch_i32_5),
            Instr::BrIf(1),
            Instr::LocalGet(self.scratch_i32_3),
            Instr::I32Const(1i32),
            Instr::I32Add,
            Instr::LocalSet(self.scratch_i32_3),
            Instr::Br(0),
            Instr::End,
            Instr::End,
            Instr::End,
            Instr::End,
            Instr::LocalGet(self.scratch_i32_4),
        ]
    }

    /// Appends the instructions of `emit_string_contains`.
    pub(crate) fn emit_string_contains(&self, out: &mut Vec<Instr>, haystack: ValueId, needle: ValueId)
        requires
            self.wf(),
            self.value_ok(haystack),
            self.value_ok(needle),
        ensures
            final(out)@ == old(out)@ + self.spec_emit_string_contains(haystack, needle),
    {
        let mut v: Vec<Instr> = vec![
            Instr::LocalGet(self.local_for(haystack)),
            Instr::I32Load(MemArg { offset: 0, align: 2 }),
            Instr::LocalSet(self.scratch_i32),
            Instr::LocalGet(self.local_for(needle)),
            Instr::I32Load(MemArg { offset: 0, align: 2 }),
            Instr::LocalSet(self.scratch_i32_2),
            Instr::I32Const(0i32),
            Instr::LocalSet(self.scratch_i32_4),
            Instr::LocalGet(self.scratch_i32_2),
            Instr::I32Eqz,
            Instr::If(BlockTy::Empty),
            Instr::I32Const(1i32),
            Instr::LocalSet(self.scratch_i32_4),
            Instr::Else,
            Instr::LocalGet(self.scratch_i32_2),
            Instr::LocalGet(self.scratch_i32),
            Instr::I32LeU,
            Instr::If(BlockTy::Empty),
            Instr::LocalGet(self.scratch_i32),
            Instr::LocalGet(self.scratch_i32_2),
            Instr::I32Sub,
            Instr::LocalSet(self.scratch_i32_6),
            Instr::I32Const(0i32),
            Instr::LocalSet(self.scratch_i32_3),
            Instr::Block(BlockTy::Empty),
            Instr::Loop(BlockTy::Empty),
            Instr::LocalGet(self.scratch_i32_3),
            Instr::LocalGet(self.scratch_i32_6),
            Instr::I32GtU,
            Instr::BrIf(1),
            Instr::I32Const(1i32),
            Instr::LocalSet(self.scratch_i32_5),
            Instr::I32Const(0i32),
            Instr::LocalSet(self.scratch_i32_7),
            Instr::Block(BlockTy::Empty),
            Instr::Loop(BlockTy::Empty),
            Instr::LocalGet(self.scratch_i32_7),
            Instr::LocalGet(self.scratch_i32_2),
            Instr::I32GeU,
            Instr::BrIf(1),
            Instr::LocalGet(self.local_for(haystack)),
            Instr::I32Const(8i32),
            Instr::I32Add,
            Instr::LocalGet(self.scratch_i32_3),
            Instr::I32Add,
            Instr::LocalGet(self.scratch_i32_7),
            Instr::I32Add,
            Instr::I32Load8U(MemArg { offset: 0, align: 0 }),
            Instr::LocalSet(self.scratch_i32_8),
            Instr::LocalGet(self.scratch_i32_8),
            Instr::LocalGet(self.local_for(needle)),
            Instr::I32Const(8i32),
            Instr::I32Add,
            Instr::LocalGet(self.scratch_i32_7),
            Instr::I32Add,
            Instr::I32Load8U(MemArg { offset: 0, align: 0 }),
            Instr::I32Ne,
            Instr::LocalSet(self.scratch_i32_8),
            Instr::LocalGet(self.scratch_i32_8),
            Instr::If(BlockTy::Empty),
            Instr::I32Const(0i32),
            Instr::LocalSet(self.scratch_i32_5),
            Instr::End,
            Instr::LocalGet(self.scratch_i32_8),
            Instr::BrIf(1),
            Instr::LocalGet(self.scratch_i32_7),
            Instr::I32Const(1i32),
            Instr::I32Add,
            Instr::LocalSet(self.scratch_i32_7),
            Instr::Br(0),
            Instr::End,
            Instr::End,
            Instr::LocalGet(self.scratch_i32_5),
            Instr::If(BlockTy::Empty),
            Instr::I32Const(1i32),
            Instr::LocalSet(self.scratch_i32_4),
            Instr::End,
            Instr::LocalGet(self.scratch_i32_5),
            Instr::BrIf(1),
            Instr::LocalGet(self.scratch_i32_3),
            Instr::I32Const(1i32),
            Instr::I32Add,
            Instr::LocalSet(self.scratch_i32_3),
            Instr::Br(0),
            Instr::End,
            Instr::End,
            Instr::End,
            Instr::End,
            Instr::LocalGet(self.scratch_i32_4),
        ];
        out.append(&mut v);
    }

    /// The instructions that `emit_string_starts_with` appends.
    pub open spec fn spec_emit_string_starts_with(&self, s: ValueId, prefix: ValueId) -> Seq<Instr> {
        seq![
            Instr::LocalGet(self.spec_local(s)),
            Instr::I32Load(MemArg { offset: 0, align: 2 }),
            Instr::LocalSet(self.scratch_i32),
            Instr::LocalGet(self.spec_local(prefix)),
            Instr::I32Load(MemArg { offset: 0, align: 2 }),
            Instr::LocalSet(self.scratch_i32_2),
            Instr::I32Const(0i32),
            Instr::LocalSet(self.scratch_i32_4),
            Instr::LocalGet(self.scratch_i32_2),
            Instr::LocalGet(self.scratch_i32),
            Instr::I32LeU,
            Instr::If(BlockTy::Empty),
            Instr::I32Const(0i32),
            Instr::LocalSet(self.scratch_i32_3),
            Instr::I32Const(1i32),
            Instr::LocalSet(self.scratch_i32_4),
            Instr::Block(BlockTy::Empty),
            Instr::Loop(BlockTy::Empty),
            Instr::LocalGet(self.scratch_i32_3),
            Instr::LocalGet(self.scratch_i32_2),
            Instr::I32GeU,
            Instr::BrIf(1),
            Instr::LocalGet(self.spec_local(s)),
            Instr::I32Const(8i32),
            Instr::I32Add,
            Instr::LocalGet(self.scratch_i32_3),
            Instr::I32Add,
            Instr::I32Load8U(MemArg { offset: 0, align: 0 }),
            Instr::LocalSet(self.scratch_i32_5),
            Instr::LocalGet(self.scratch_i32_5),
            Instr::LocalGet(self.spec_local(prefix)),
            Instr::I32Const(8i32),
            Instr::I32Add,
            Instr::LocalGet(self.scratch_i32_3),
            Instr::I32Add,
            Instr::I32Load8U(MemArg { offset: 0, align: 0 }),
            Instr::I32Ne,
            Instr::LocalSet(self.scratch_i32_8),
            Instr::LocalGet(self.scratch_i32_8),
            Instr::If(BlockTy::Empty),
            Instr::I32Const(0i32),
            Instr::LocalSet(self.scratch_i32_4),
            Instr::End,
            Instr::LocalGet(self.scratch_i32_8),
            Instr::BrIf(1),
            Instr::LocalGet(self.scratch_i32_3),
            Instr::I32Const(1i32),
            Instr::I32Add,
            Instr::LocalSet(self.scratch_i32_3),
            Instr::Br(0),
            Instr::End,
            Instr::End,
            Instr::End,
            Instr::LocalGet(self.scratch_i32_4),
        ]
    }

    /// Appends the instructions of `emit_string_starts_with`.
    pub(crate) fn emit_string_starts_with(&self, out: &mut Vec<Instr>, s: ValueId, prefix: ValueId)
        requires
            self.wf(),
            self.value_ok(s),
            self.value_ok(prefix),
        ensures
            final(out)@ == old(out)@ + self.spec_emit_string_starts_with(s, prefix),
    {
        let mut v: Vec<Instr> = vec![
            Instr::LocalGet(self.local_for(s)),
            Instr::I32Load(MemArg { offset: 0, align: 2 }),
            Instr::LocalSet(self.scratch_i32),
            Instr::LocalGet(self.local_for(prefix)),
            Instr::I32Load(MemArg { offset: 0, align: 2 }),
            Instr::LocalSet(self.scratch_i32_2),
            Instr::I32Const(0i32),
            Instr::LocalSet(self.scratch_i32_4),
            Instr::LocalGet(self.scratch_i32_2),
            Instr::LocalGet(self.scratch_i32),
            Instr::I32LeU,
            Instr::If(BlockTy::Empty),
            Instr::I32Const(0i32),
            Instr::LocalSet(self.scratch_i32_3),
            Instr::I32Const(1i32),
            Instr::LocalSet(self.scratch_i32_4),
            Instr::Block(BlockTy::Empty),
            Instr::Loop(BlockTy::Empty),
            Instr::LocalGet(self.scratch_i32_3),
            Instr::LocalGet(self.scratch_i32_2),
            Instr::I32GeU,
            Instr::BrIf(1),
            Instr::LocalGet(self.local_for(s)),
            Instr::I32Const(8i32),
            Instr::I32Add,
            Instr::LocalGet(self.scratch_i32_3),
            Instr::I32Add,
            Instr::I32Load8U(MemArg { offset: 0, align: 0 }),
            Instr::LocalSet(self.scratch_i32_5),
            Instr::LocalGet(self.scratch_i32_5),
            Instr::LocalGet(self.local_for(prefix)),
            Instr::I32Const(8i32),
            Instr::I32Add,
            Instr::LocalGet(self.scratch_i32_3),
            Instr::I32Add,
            Instr::I32Load8U(MemArg { offset: 0, align: 0 }),
            Instr::I32Ne,
            Instr::LocalSet(self.scratch_i32_8),
            Instr::LocalGet(self.scratch_i32_8),
            Instr::If(BlockTy::Empty),
            Instr::I32Const(0i32),
            Instr::LocalSet(self.scratch_i32_4),
            Instr::End,
            Instr::LocalGet(self.scratch_i32_8),
            Instr::BrIf(1),
            Instr::LocalGet(self.scratch_i32_3),
            Instr::I32Const(1i32),
            Instr::I32Add,
            Instr::LocalSet(self.scratch_i32_3),
            Instr::Br(0),
            Instr::End,
            Instr::End,
            Instr::End,
            Instr::LocalGet(self.scratch_i32_4),
        ];
        out.append(&mut v);
    }

    /// The instructions that `emit_string_starts_with_from` appends.
    pub open spec fn spec_emit_string_starts_with_from(&self, s: ValueId, prefix: ValueId, start: ValueId) -> Seq<Instr> {
        seq![
            Instr::LocalGet(self.spec_local(s)),
            Instr::I32Load(MemArg { offset: 0, align: 2 }),
            Instr::LocalSet(self.scratch_i32),
            Instr::LocalGet(self.spec_local(s)),
            Instr::I32Load(MemArg { offset: 4, align: 2 }),
            Instr::LocalSet(self.scratch_i32_2),
            Instr::LocalGet(self.spec_local(prefix)),
            Instr::I32Load(MemArg { offset: 0, align: 2 }),
            Instr::LocalSet(self.scratch_i32_3),
            Instr::I32Const(0i32),
            Instr::LocalSet(self.scratch_i32_4),
            Instr::LocalGet(self.spec_local(start)),
            Instr::I64Const(0i64),
            Instr::I64LtS,
            Instr::If(BlockTy::Empty),
            Instr::Else,
            Instr::LocalGet(self.spec_local(start)),
            Instr::LocalGet(self.scratch_i32_2),
            Instr::I64ExtendI32U,
            Instr::I64LeU,
            Instr::If(BlockTy::Empty),
            Instr::LocalGet(self.spec_local(start)),
            Instr::I32WrapI64,
            Instr::LocalSet(self.scratch_i32_5),
            Instr::I32Const(0i32),
            Instr::LocalSet(self.scratch_i32_6),
            Instr::I32Const(0i32),
            Instr::LocalSet(self.scratch_i32_7),
            Instr::Block(BlockTy::Empty),
            Instr::Loop(BlockTy::Empty),
            Instr::LocalGet(self.scratch_i32_7),
            Instr::LocalGet(self.scratch_i32_5),
            Instr::I32GeU,
            Instr::BrIf(1),
            Instr::LocalGet(self.spec_local(s)),
            Instr::I32Const(8i32),
            Instr::I32Add,
            Instr::LocalGet(self.scratch_i32_6),
            Instr::I32Add,
            Instr::I32Load8U(MemArg { offset: 0, align: 0 }),
            Instr::LocalSet(self.scratch_i32_8),
            Instr::I32Const(4i32),
            Instr::LocalSet(self.scratch_i32_8),
            Instr::LocalGet(self.spec_local(s)),
            Instr::I32Const(8i32),
            Instr::I32Add,
            Instr::LocalGet(self.scratch_i32_6),
            Instr::I32Add,
            Instr::I32Load8U(MemArg { offset: 0, align: 0 }),
            Instr::I32Const(0xF0),
            Instr::I32LtU,
            Instr::If(BlockTy::Empty),
            Instr::I32Const(3i32),
            Instr::LocalSet(self.scratch_i32_8),
            Instr::LocalGet(self.spec_local(s)),
            Instr::I32Const(8i32),
            Instr::I32Add,
            Instr::LocalGet(self.scratch_i32_6),
            Instr::I32Add,
            Instr::I32Load8U(MemArg { offset: 0, align: 0 }),
            Instr::I32Const(0xE0),
            Instr::I32LtU,
            Instr::If(BlockTy::Empty),
            Instr::I32Const(2i32),
            Instr::LocalSet(self.scratch_i32_8),
            Instr::LocalGet(self.spec_local(s)),
            Instr::I32Const(8i32),
            Instr::I32Add,
            Instr::LocalGet(self.scratch_i32_6),
            Instr::I32Add,
            Instr::I32Load8U(MemArg { offset: 0, align: 0 }),
            Instr::I32Const(0x80),
            Instr::I32LtU,
            Instr::If(BlockTy::Empty),
            Instr::I32Const(1i32),
            Instr::LocalSet(self.scratch_i32_8),
            Instr::End,
            Instr::End,
            Instr::End,
            Instr::LocalGet(self.scratch_i32_6),
            Instr::LocalGet(self.scratch_i32_8),
            Instr::I32Add,
            Instr::LocalSet(self.scratch_i32_6),
            Instr::LocalGet(self.scratch_i32_7),
            Instr::I32Const(1i32),
            Instr::I32Add,
            Instr::LocalSet(self.scratch_i32_7),
            Instr::Br(0),
            Instr::End,
            Instr::End,
            Instr::LocalGet(self.scratch_i32_3),
            Instr::LocalGet(self.scratch_i32),
            Instr::LocalGet(self.scratch_i32_6),
            Instr::I32Sub,
            Instr::I32LeU,
            Instr::If(BlockTy::Empty),
            Instr::I32Const(0i32),
            Instr::LocalSet(self.scratch_i32_7),
            Instr::I32Const(1i32),
            Instr::LocalSet(self.scratch_i32_4),
            Instr::Block(BlockTy::Empty),
            Instr::Loop(BlockTy::Empty),
            Instr::LocalGet(self.scratch_i32_7),
            Instr::LocalGet(self.scratch_i32_3),
            Instr::I32GeU,
            Instr::BrIf(1),
            Instr::LocalGet(self.spec_local(s)),
            Instr::I32Const(8i32),
            Instr::I32Add,
            Instr::LocalGet(self.scratch_i32_6),
            Instr::I32Add,
            Instr::LocalGet(self.scratch_i32_7),
            Instr::I32Add,
            Instr::I32Load8U(MemArg { offset: 0, align: 0 }),
            Instr::LocalSet(self.scratch_i32_8),
            Instr::LocalGet(self.scratch_i32_8),
            Instr::LocalGet(self.spec_local(prefix)),
            Instr::I32Const(8i32),
            Instr::I32Add,
            Instr::LocalGet(self.scratch_i32_7),
            Instr::I32Add,
            Instr::I32Load8U(MemArg { offset: 0, align: 0 }),
            Instr::I32Ne,
            Instr::LocalSet(self.scratch_i32_8),
            Instr::LocalGet(self.scratch_i32_8),
            Instr::If(BlockTy::Empty),
            Instr::I32Const(0i32),
            Instr::LocalSet(self.scratch_i32_4),
            Instr::End,
            Instr::LocalGet(self.scratch_i32_8),
            Instr::BrIf(1),
            Instr::LocalGet(self.scratch_i32_7),
            Instr::I32Const(1i32),
            Instr::I32Add,
            Instr::LocalSet(self.scratch_i32_7),
            Instr::Br(0),
            Instr::End,
            Instr::End,
            Instr::End,
            Instr::End,
            Instr::End,
            Instr::LocalGet(self.scratch_i32_4),
        ]
    }

    /// Appends the instructions of `emit_string_starts_with_from`.
    pub(crate) fn emit_string_starts_with_from(&self, out: &mut Vec<Instr>, s: ValueId, prefix: ValueId, start: ValueId)
        requires
            self.wf(),
            self.value_ok(s),
            self.value_ok(prefix),
            self.value_ok(start),
        ensures
            final(out)@ == old(out)@ + self.spec_emit_string_starts_with_from(s, prefix, start),
    {
        let mut v: Vec<Instr> = vec![
            Instr::LocalGet(self.local_for(s)),
            Instr::I32Load(MemArg { offset: 0, align: 2 }),
            Instr::LocalSet(self.scratch_i32),
            Instr::LocalGet(self.local_for(s)),
            Instr::I32Load(MemArg { offset: 4, align: 2 }),
            Instr::LocalSet(self.scratch_i32_2),
            Instr::LocalGet(self.local_for(prefix)),
            Instr::I32Load(MemArg { offset: 0, align: 2 }),
            Instr::LocalSet(self.scratch_i32_3),
            Instr::I32Const(0i32),
            Instr::LocalSet(self.scratch_i32_4),
            Instr::LocalGet(self.local_for(start)),
            Instr::I64Const(0i64),
            Instr::I64LtS,
            Instr::If(BlockTy::Empty),
            Instr::Else,
            Instr::LocalGet(self.local_for(start)),
            Instr::LocalGet(self.scratch_i32_2),
            Instr::I64ExtendI32U,
            Instr::I64LeU,
            Instr::If(BlockTy::Empty),
            Instr::LocalGet(self.local_for(start)),
            Instr::I32WrapI64,
            Instr::LocalSet(self.scratch_i32_5),
            Instr::I32Const(0i32),
            Instr::LocalSet(self.scratch_i32_6),
            Instr::I32Const(0i32),
            Instr::LocalSet(self.scratch_i32_7),
            Instr::Block(BlockTy::Empty),
            Instr::Loop(BlockTy::Empty),
            Instr::LocalGet(self.scratch_i32_7),
            Instr::LocalGet(self.scratch_i32_5),
            Instr::I32GeU,
            Instr::BrIf(1),
            Instr::LocalGet(self.local_for(s)),
            Instr::I32Const(8i32),
            Instr::I32Add,
            Instr::LocalGet(self.scratch_i32_6),
            Instr::I32Add,
            Instr::I32Load8U(MemArg { offset: 0, align: 0 }),
            Instr::LocalSet(self.scratch_i32_8),
            Instr::I32Const(4i32),
            Instr::LocalSet(self.scratch_i32_8),
            Instr::LocalGet(self.local_for(s)),
            Instr::I32Const(8i32),
            Instr::I32Add,
            Instr::LocalGet(self.scratch_i32_6),
            Instr::I32Add,
            Instr::I32Load8U(MemArg { offset: 0, align: 0 }),
            Instr::I32Const(0xF0),
            Instr::I32LtU,
            Instr::If(BlockTy::Empty),
            Instr::I32Const(3i32),
            Instr::LocalSet(self.scratch_i32_8),
            Instr::LocalGet(self.local_for(s)),
            Instr::I32Const(8i32),
            Instr::I32Add,
            Instr::LocalGet(self.scratch_i32_6),
            Instr::I32Add,
            Instr::I32Load8U(MemArg { offset: 0, align: 0 }),
            Instr::I32Const(0xE0),
            Instr::I32LtU,
            Instr::If(BlockTy::Empty),
            Instr::I32Const(2i32),
            Instr::LocalSet(self.scratch_i32_8),
            Instr::LocalGet(self.local_for(s)),
            Instr::I32Const(8i32),
            Instr::I32Add,
            Instr::LocalGet(self.scratch_i32_6),
            Instr::I32Add,
            Instr::I32Load8U(MemArg { offset: 0, align: 0 }),
            Instr::I32Const(0x80),
            Instr::I32LtU,
            Instr::If(BlockTy::Empty),
            Instr::I32Const(1i32),
            Instr::LocalSet(self.scratch_i32_8),
            Instr::End,
            Instr::End,
            Instr::End,
            Instr::LocalGet(self.scratch_i32_6),
            Instr::LocalGet(self.scratch_i32_8),
            Instr::I32Add,
            Instr::LocalSet(self.scratch_i32_6),
            Instr::LocalGet(self.scratch_i32_7),
            Instr::I32Const(1i32),
            Instr::I32Add,
            Instr::LocalSet(self.scratch_i32_7),
            Instr::Br(0),
            Instr::End,
            Instr::End,
            Instr::LocalGet(self.scratch_i32_3),
            Instr::LocalGet(self.scratch_i32),
            Instr::LocalGet(self.scratch_i32_6),
            Instr::I32Sub,
            Instr::I32LeU,
            Instr::If(BlockTy::Empty),
            Instr::I32Const(0i32),
            Instr::LocalSet(self.scratch_i32_7),
            Instr::I32Const(1i32),
            Instr::LocalSet(self.scratch_i32_4),
            Instr::Block(BlockTy::Empty),
            Instr::Loop(BlockTy::Empty),
            Instr::LocalGet(self.scratch_i32_7),
            Instr::LocalGet(self.scratch_i32_3),
            Instr::I32GeU,
            Instr::BrIf(1),
            Instr::LocalGet(self.local_for(s)),
            Instr::I32Const(8i32),
            Instr::I32Add,
            Instr::LocalGet(self.scratch_i32_6),
            Instr::I32Add,
            Instr::LocalGet(self.scratch_i32_7),
            Instr::I32Add,
            Instr::I32Load8U(MemArg { offset: 0, align: 0 }),
            Instr::LocalSet(self.scratch_i32_8),
            Instr::LocalGet(self.scratch_i32_8),
            Instr::LocalGet(self.local_for(prefix)),
            Instr::I32Const(8i32),
            Instr::I32Add,
            Instr::LocalGet(self.scratch_i32_7),
            Instr::I32Add,
            Instr::I32Load8U(MemArg { offset: 0, align: 0 }),
            Instr::I32Ne,
            Instr::LocalSet(self.scratch_i32_8),
            Instr::LocalGet(self.scratch_i32_8),
            Instr::If(BlockTy::Empty),
            Instr::I32Const(0i32),
            Instr::LocalSet(self.scratch_i32_4),
            Instr::End,
            Instr::LocalGet(self.scratch_i32_8),
            Instr::BrIf(1),
            Instr::LocalGet(self.scratch_i32_7),
            Instr::I32Const(1i32),
            Instr::I32Add,
            Instr::LocalSet(self.scratch_i32_7),
            Instr::Br(0),
            Instr::End,
            Instr::End,
            Instr::End,
            Instr::End,
            Instr::End,
            Instr::LocalGet(self.scratch_i32_4),
        ];
        out.append(&mut v);
    }

    /// The instructions that `emit_string_ends_with` appends.
    pub open spec fn spec_emit_string_ends_with(&self, s: ValueId, suffix: ValueId) -> Seq<Instr> {
        seq![
            Instr::LocalGet(self.spec_local(s)),
            Instr::I32Load(MemArg { offset: 0, align: 2 }),
            Instr::LocalSet(self.scratch_i32),
            Instr::LocalGet(self.spec_local(suffix)),
            Instr::I32Load(MemArg { offset: 0, align: 2 }),
            Instr::LocalSet(self.scratch_i32_2),
            Instr::I32Const(0i32),
            Instr::LocalSet(self.scratch_i32_4),
            Instr::LocalGet(self.scratch_i32_2),
            Instr::LocalGet(self.scratch_i32),
            Instr::I32LeU,
            Instr::If(BlockTy::Empty),
            Instr::LocalGet(self.scratch_i32),
            Instr::LocalGet(self.scratch_i32_2),
            Instr::I32Sub,
            Instr::LocalSet(self.scratch_i32_6),
            Instr::I32Const(0i32),
            Instr::LocalSet(self.scratch_i32_3),
            Instr::I32Const(1i32),
            Instr::LocalSet(self.scratch_i32_4),
            Instr::Block(BlockTy::Empty),
            Instr::Loop(BlockTy::Empty),
            Instr::LocalGet(self.scratch_i32_3),
            Instr::LocalGet(self.scratch_i32_2),
            Instr::I32GeU,
            Instr::BrIf(1),
            Instr::LocalGet(self.spec_local(s)),
            Instr::I32Const(8i32),
            Instr::I32Add,
            Instr::LocalGet(self.scratch_i32_6),
            Instr::I32Add,
            Instr::LocalGet(self.scratch_i32_3),
            Instr::I32Add,
            Instr::I32Load8U(MemArg { offset: 0, align: 0 }),
            Instr::LocalSet(self.scratch_i32_5),
            Instr::LocalGet(self.scratch_i32_5),
            Instr::LocalGet(self.spec_local(suffix)),
            Instr::I32Const(8i32),
            Instr::I32Add,
            Instr::LocalGet(self.scratch_i32_3),
            Instr::I32Add,
            Instr::I32Load8U(MemArg { offset: 0, align: 0 }),
            Instr::I32Ne,
            Instr::LocalSet(self.scratch_i32_8),
            Instr::LocalGet(self.scratch_i32_8),
            Instr::If(BlockTy::Empty),
            Instr::I32Const(0i32),
            Instr::LocalSet(self.scratch_i32_4),
            Instr::End,
            Instr::LocalGet(self.scratch_i32_8),
            Instr::BrIf(1),
            Instr::LocalGet(self.scratch_i32_3),
            Instr::I32Const(1i32),
            Instr::I32Add,
            Instr::LocalSet(self.scratch_i32_3),
            Instr::Br(0),
            Instr::End,
            Instr::End,
            Instr::End,
            Instr::LocalGet(self.scratch_i32_4),
        ]
    }

    /// Appends the instructions of `emit_string_ends_with`.
    pub(crate) fn emit_string_ends_with(&self, out: &mut Vec<Instr>, s: ValueId, suffix: ValueId)
        requires
            self.wf(),
            self.value_ok(s),
            self.value_ok(suffix),
        ensures
            final(out)@ == old(out)@ + self.spec_emit_string_ends_with(s, suffix),
    {
        let mut v: Vec<Instr> = vec![
            Instr::LocalGet(self.local_for(s)),
            Instr::I32Load(MemArg { offset: 0, align: 2 }),
            Instr::LocalSet(self.scratch_i32),
            Instr::LocalGet(self.local_for(suffix)),
            Instr::I32Load(MemArg { offset: 0, align: 2 }),
            Instr::LocalSet(self.scratch_i32_2),
            Instr::I32Const(0i32),
            Instr::LocalSet(self.scratch_i32_4),
            Instr::LocalGet(self.scratch_i32_2),
            Instr::LocalGet(self.scratch_i32),
            Instr::I32LeU,
            Instr::If(BlockTy::Empty),
            Instr::LocalGet(self.scratch_i32),
            Instr::LocalGet(self.scratch_i32_2),
            Instr::I32Sub,
            Instr::LocalSet(self.scratch_i32_6),
            Instr::I32Const(0i32),
            Instr::LocalSet(self.scratch_i32_3),
            Instr::I32Const(1i32),
            Instr::LocalSet(self.scratch_i32_4),
            Instr::Block(BlockTy::Empty),
            Instr::Loop(BlockTy::Empty),
            Instr::LocalGet(self.scratch_i32_3),
            Instr::LocalGet(self.scratch_i32_2),
            Instr::I32GeU,
            Instr::BrIf(1),
            Instr::LocalGet(self.local_for(s)),
            Instr::I32Const(8i32),
            Instr::I32Add,
            Instr::LocalGet(self.scratch_i32_6),
            Instr::I32Add,
            Instr::LocalGet(self.scratch_i32_3),
            Instr::I32Add,
            Instr::I32Load8U(MemArg { offset: 0, align: 0 }),
            Instr::LocalSet(self.scratch_i32_5),
            Instr::LocalGet(self.scratch_i32_5),
            Instr::LocalGet(self.local_for(suffix)),
            Instr::I32Const(8i32),
            Instr::I32Add,
            Instr::LocalGet(self.scratch_i32_3),
            Instr::I32Add,
            Instr::I32Load8U(MemArg { offset: 0, align: 0 }),
            Instr::I32Ne,
            Instr::LocalSet(self.scratch_i32_8),
            Instr::LocalGet(self.scratch_i32_8),
            Instr::If(BlockTy::Empty),
            Instr::I32Const(0i32),
            Instr::LocalSet(self.scratch_i32_4),
            Instr::End,
            Instr::LocalGet(self.scratch_i32_8),
            Instr::BrIf(1),
            Instr::LocalGet(self.scratch_i32_3),
            Instr::I32Const(1i32),
            Instr::I32Add,
            Instr::LocalSet(self.scratch_i32_3),
            Instr::Br(0),
            Instr::End,
            Instr::End,
            Instr::End,
            Instr::LocalGet(self.scratch_i32_4),
        ];
        out.append(&mut v);
    }

    /// The instructions that `emit_clamped_string_index` appends.
    pub open spec fn spec_emit_clamped_string_index(&self, value: ValueId, max_local: u32, dst_local: u32) -> Seq<Instr> {
        seq![
            Instr::LocalGet(self.spec_local(value)),
            Instr::I64Const(0i64),
            Instr::I64LtS,
            Instr::If(BlockTy::Empty),
            Instr::I32Const(0i32),
            Instr::LocalSet(dst_local),
            Instr::Else,
            Instr::LocalGet(self.spec_local(value)),
            Instr::LocalGet(max_local),
            Instr::I64ExtendI32U,
            Instr::I64GtU,
            Instr::If(BlockTy::Empty),
            Instr::LocalGet(max_local),
            Instr::LocalSet(dst_local),
            Instr::Else,
            Instr::LocalGet(self.spec_local(value)),
            Instr::I32WrapI64,
            Instr::LocalSet(dst_local),
            Instr::End,
            Instr::End,
        ]
    }

    /// Appends the instructions of `emit_clamped_string_index`.
    pub(crate) fn emit_clamped_string_index(&self, out: &mut Vec<Instr>, value: ValueId, max_local: u32, dst_local: u32)
        requires
            self.wf(),
            self.value_ok(value),
        ensures
            final(out)@ == old(out)@ + self.spec_emit_clamped_string_index(value, max_local, dst_local),
    {
        let mut v: Vec<Instr> = vec![
            Instr::LocalGet(self.local_for(value)),
            Instr::I64Const(0i64),
            Instr::I64LtS,
            Instr::If(BlockTy::Empty),
            Instr::I32Const(0i32),
            Instr::LocalSet(dst_local),
            Instr::Else,
            Instr::LocalGet(self.local_for(value)),
            Instr::LocalGet(max_local),
            Instr::I64ExtendI32U,
            Instr::I64GtU,
            Instr::If(BlockTy::Empty),
            Instr::LocalGet(max_local),
            Instr::LocalSet(dst_local),
            Instr::Else,
            Instr::LocalGet(self.local_for(value)),
            Instr::I32WrapI64,
            Instr::LocalSet(dst_local),
            Instr::End,
            Instr::End,
        ];
        out.append(&mut v);
    }

    /// The instructions that `emit_utf8_char_width` appends.
    pub open spec fn spec_emit_utf8_char_width(&self, s: ValueId, byte_idx_local: u32, dst_local: u32) -> Seq<Instr> {
        seq![
            Instr::I32Const(4i32),
            Instr::LocalSet(dst_local),
            Instr::LocalGet(self.spec_local(s)),
            Instr::I32Const(8i32),
            Instr::I32Add,
            Instr::LocalGet(byte_idx_local),
            Instr::I32Add,
            Instr::I32Load8U(MemArg { offset: 0, align: 0 }),
            Instr::I32Const(0xF0),
            Instr::I32LtU,
            Instr::If(BlockTy::Empty),
            Instr::I32Const(3i32),
            Instr::LocalSet(dst_local),
            Instr::LocalGet(self.spec_local(s)),
            Instr::I32Const(8i32),
            Instr::I32Add,
            Instr::LocalGet(byte_idx_local),
            Instr::I32Add,
            Instr::I32Load8U(MemArg { offset: 0, align: 0 }),
            Instr::I32Const(0xE0),
            Instr::I32LtU,
            Instr::If(BlockTy::Empty),
            Instr::I32Const(2i32),
            Instr::LocalSet(dst_local),
            Instr::LocalGet(self.spec_local(s)),
            Instr::I32Const(8i32),
            Instr::I32Add,
            Instr::LocalGet(byte_idx_local),
            Instr::I32Add,
            Instr::I32Load8U(MemArg { offset: 0, align: 0 }),
            Instr::I32Const(0x80),
            Instr::I32LtU,
            Instr::If(BlockTy::Empty),
            Instr::I32Const(1i32),
            Instr::LocalSet(dst_local),
            Instr::End,
            Instr::End,
            Instr::End,
        ]
    }

    /// Appends the instructions of `emit_utf8_char_width`.
    pub(crate) fn emit_utf8_char_width(&self, out: &mut Vec<Instr>, s: ValueId, byte_idx_local: u32, dst_local: u32)
        requires
            self.wf(),
            self.value_ok(s),
        ensures
            final(out)@ == old(out)@ + self.spec_emit_utf8_char_width(s, byte_idx_local, dst_local),
    {
        let mut v: Vec<Instr> = vec![
            Instr::I32Const(4i32),
            Instr::LocalSet(dst_local),
            Instr::LocalGet(self.local_for(s)),
            Instr::I32Const(8i32),
            Instr::I32Add,
            Instr::LocalGet(byte_idx_local),
            Instr::I32Add,
            Instr::I32Load8U(MemArg { offset: 0, align: 0 }),
            Instr::I32Const(0xF0),
            Instr::I32LtU,
            Instr::If(BlockTy::Empty),
            Instr::I32Const(3i32),
            Instr::LocalSet(dst_local),
            Instr::LocalGet(self.local_for(s)),
            Instr::I32Const(8i32),
            Instr::I32Add,
            Instr::LocalGet(byte_idx_local),
            Instr::I32Add,
            Instr::I32Load8U(MemArg { offset: 0, align: 0 }),
            Instr::I32Const(0xE0),
            Instr::I32LtU,
            Instr::If(BlockTy::Empty),
            Instr::I32Const(2i32),
            Instr::LocalSet(dst_local),
            Instr::LocalGet(self.local_for(s)),
            Instr::I32Const(8i32),
            Instr::I32Add,
            Instr::LocalGet(byte_idx_local),
            Instr::I32Add,
            Instr::I32Load8U(MemArg { offset: 0, align: 0 }),
            Instr::I32Const(0x80),
            Instr::I32LtU,
            Instr::If(BlockTy::Empty),
            Instr::I32Const(1i32),
            Instr::LocalSet(dst_local),
            Instr::End,
            Instr::End,
            Instr::End,
        ];
        out.append(&mut v);
    }

    /// The instructions that `emit_utf8_char_width_from_local` appends.
    pub open spec fn spec_emit_utf8_char_width_from_local(&self, s_local: u32, byte_idx_local: u32, dst_local: u32) -> Seq<Instr> {
        seq![
            Instr::I32Const(4i32),
            Instr::LocalSet(dst_local),
            Instr::LocalGet(s_local),
            Instr::LocalGet(byte_idx_local),
            Instr::I32Add,
            Instr::I32Load8U(MemArg { offset: 8, align: 0 }),
            Instr::I32Const(0xF0),
            Instr::I32LtU,
            Instr::If(BlockTy::Empty),
            Instr::I32Const(3i32),
            Instr::LocalSet(dst_local),
            Instr::LocalGet(s_local),
            Instr::LocalGet(byte_idx_local),
            Instr::I32Add,
            Instr::I32Load8U(MemArg { offset: 8, align: 0 }),
            Instr::I32Const(0xE0),
            Instr::I32LtU,
            Instr::If(BlockTy::Empty),
            Instr::I32Const(2i32),
            Instr::LocalSet(dst_local),
            Instr::LocalGet(s_local),
            Instr::LocalGet(byte_idx_local),
            Instr::I32Add,
            Instr::I32Load8U(MemArg { offset: 8, align: 0 }),
            Instr::I32Const(0x80),
            Instr::I32LtU,
            Instr::If(BlockTy::Empty),
            Instr::I32Const(1i32),
            Instr::LocalSet(dst_local),
            Instr::End,
            Instr::End,
            Instr::End,
        ]
    }

    /// Appends the instructions of `emit_utf8_char_width_from_local`.
    pub(crate) fn emit_utf8_char_width_from_local(&self, out: &mut Vec<Instr>, s_local: u32, byte_idx_local: u32, dst_local: u32)
        requires
            self.wf(),
        ensures
            final(out)@ == old(out)@ + self.spec_emit_utf8_char_width_from_local(s_local, byte_idx_local, dst_local),
    {
        let mut v: Vec<Instr> = vec![
            Instr::I32Const(4i32),
            Instr::LocalSet(dst_local),
            Instr::LocalGet(s_local),
            Instr::LocalGet(byte_idx_local),
            Instr::I32Add,
            Instr::I32Load8U(MemArg { offset: 8, align: 0 }),
            Instr::I32Const(0xF0),
            Instr::I32LtU,
            Instr::If(BlockTy::Empty),
            Instr::I32Const(3i32),
            Instr::LocalSet(dst_local),
            Instr::LocalGet(s_local),
            Instr::LocalGet(byte_idx_local),
            Instr::I32Add,
            Instr::I32Load8U(MemArg { offset: 8, align: 0 }),
            Instr::I32Const(0xE0),
            Instr::I32LtU,
            Instr::If(BlockTy::Empty),
            Instr::I32Const(2i32),
            Instr::LocalSet(dst_local),
            Instr::LocalGet(s_local),
            Instr::LocalGet(byte_idx_local),
            Instr::I32Add,
            Instr::I32Load8U(MemArg { offset: 8, align: 0 }),
            Instr::I32Const(0x80),
            Instr::I32LtU,
            Instr::If(BlockTy::Empty),
            Instr::I32Const(1i32),
            Instr::LocalSet(dst_local),
            Instr::End,
            Instr::End,
            Instr::End,
        ];
        out.append(&mut v);
    }

    /// The instructions that `emit_utf8_codepoint` appends.
    pub open spec fn spec_emit_utf8_codepoint(&self, s: ValueId, byte_idx_local: u32, width_local: u32, dst_local: u32) -> Seq<Instr> {
        seq![
            Instr::LocalGet(width_local),
            Instr::I32Const(1i32),
            Instr::I32Eq,
            Instr::If(BlockTy::Empty),
            Instr::LocalGet(self.spec_local(s)),
            Instr::I32Const(8i32),
            Instr::I32Add,
            Instr::LocalGet(byte_idx_local),
            Instr::I32Add,
            Instr::I32Load8U(MemArg { offset: 0, align: 0 }),
            Instr::LocalSet(dst_local),
            Instr::Else,
            Instr::LocalGet(width_local),
            Instr::I32Const(2i32),
            Instr::I32Eq,
            Instr::If(BlockTy::Empty),
            Instr::LocalGet(self.spec_local(s)),
            Instr::I32Const(8i32),
            Instr::I32Add,
            Instr::LocalGet(byte_idx_local),
            Instr::I32Add,
            Instr::I32Load8U(MemArg { offset: 0, align: 0 }),
            Instr::I32Const(0x1F),
            Instr::I32And,
            Instr::I32Const(6i32),
            Instr::I32Shl,
            Instr::LocalGet(self.spec_local(s)),
            Instr::I32Const(8i32),
            Instr::I32Add,
            Instr::LocalGet(byte_idx_local),
            Instr::I32Add,
            Instr::I32Const(1i32),
            Instr::I32Add,
            Instr::I32Load8U(MemArg { offset: 0, align: 0 }),
            Instr::I32Const(0x3F),
            Instr::I32And,
            Instr::I32Or,
            Instr::LocalSet(dst_local),
            Instr::Else,
            Instr::LocalGet(width_local),
            Instr::I32Const(3i32),
            Instr::I32Eq,
            Instr::If(BlockTy::Empty),
            Instr::LocalGet(self.spec_local(s)),
            Instr::I32Const(8i32),
            Instr::I32Add,
            Instr::LocalGet(byte_idx_local),
            Instr::I32Add,
            Instr::I32Load8U(MemArg { offset: 0, align: 0 }),
            Instr::I32Const(0x0F),
            Instr::I32And,
            Instr::I32Const(12i32),
            Instr::I32Shl,
            Instr::LocalGet(self.spec_local(s)),
            Instr::I32Const(8i32),
            Instr::I32Add,
            Instr::LocalGet(byte_idx_local),
            Instr::I32Add,
            Instr::I32Const(1i32),
            Instr::I32Add,
            Instr::I32Load8U(MemArg { offset: 0, align: 0 }),
            Instr::I32Const(0x3F),
            Instr::I32And,
            Instr::I32Const(6i32),
            Instr::I32Shl,
            Instr::I32Or,
            Instr::LocalGet(self.spec_local(s)),
            Instr::I32Const(8i32),
            Instr::I32Add,
            Instr::LocalGet(byte_idx_local),
            Instr::I32Add,
            Instr::I32Const(2i32),
            Instr::I32Add,
            Instr::I32Load8U(MemArg { offset: 0, align: 0 }),
            Instr::I32Const(0x3F),
            Instr::I32And,
            Instr::I32Or,
            Instr::LocalSet(dst_local),
            Instr::Else,
            Instr::LocalGet(self.spec_local(s)),
            Instr::I32Const(8i32),
            Instr::I32Add,
            Instr::LocalGet(byte_idx_local),
            Instr::I32Add,
            Instr::I32Load8U(MemArg { offset: 0, align: 0 }),
            Instr::I32Const(0x07),
            Instr::I32And,
            Instr::I32Const(18i32),
            Instr::I32Shl,
            Instr::LocalGet(self.spec_local(s)),
            Instr::I32Const(8i32),
            Instr::I32Add,
            Instr::LocalGet(byte_idx_local),
            Instr::I32Add,
            Instr::I32Const(1i32),
            Instr::I32Add,
            Instr::I32Load8U(MemArg { offset: 0, align: 0 }),
            Instr::I32Const(0x3F),
            Instr::I32And,
            Instr::I32Const(12i32),
            Instr::I32Shl,
            Instr::I32Or,
            Instr::LocalGet(self.spec_local(s)),
            Instr::I32Const(8i32),
            Instr::I32Add,
            Instr::LocalGet(byte_idx_local),
            Instr::I32Add,
            Instr::I32Const(2i32),
            Instr::I32Add,
            Instr::I32Load8U(MemArg { offset: 0, align: 0 }),
            Instr::I32Const(0x3F),
            Instr::I32And,
            Instr::I32Const(6i32),
            Instr::I32Shl,
            Instr::I32Or,
            Instr::LocalGet(self.spec_local(s)),
            Instr::I32Const(8i32),
            Instr::I32Add,
            Instr::LocalGet(byte_idx_local),
            Instr::I32Add,
            Instr::I32Const(3i32),
            Instr::I32Add,
            Instr::I32Load8U(MemArg { offset: 0, align: 0 }),
            Instr::I32Const(0x3F),
            Instr::I32And,
            Instr::I32Or,
            Instr::LocalSet(dst_local),
            Instr::End,
            Instr::End,
            Instr::End,
        ]
    }

    /// Appends the instructions of `emit_utf8_codepoint`.
    pub(crate) fn emit_utf8_codepoint(&self, out: &mut Vec<Instr>, s: ValueId, byte_idx_local: u32, width_local: u32, dst_local: u32)
        requires
            self.wf(),
            self.value_ok(s),
        ensures
            final(out)@ == old(out)@ + self.spec_emit_utf8_codepoint(s, byte_idx_local, width_local, dst_local),
    {
        let mut v: Vec<Instr> = vec![
            Instr::LocalGet(width_local),
            Instr::I32Const(1i32),
            Instr::I32Eq,
            Instr::If(BlockTy::Empty),
            Instr::LocalGet(self.local_for(s)),
            Instr::I32Const(8i32),
            Instr::I32Add,
            Instr::LocalGet(byte_idx_local),
            Instr::I32Add,
            Instr::I32Load8U(MemArg { offset: 0, align: 0 }),
            Instr::LocalSet(dst_local),
            Instr::Else,
            Instr::LocalGet(width_local),
            Instr::I32Const(2i32),
            Instr::I32Eq,
            Instr::If(BlockTy::Empty),
            Instr::LocalGet(self.local_for(s)),
            Instr::I32Const(8i32),
            Instr::I32Add,
            Instr::LocalGet(byte_idx_local),
            Instr::I32Add,
            Instr::I32Load8U(MemArg { offset: 0, align: 0 }),
            Instr::I32Const(0x1F),
            Instr::I32And,
            Instr::I32Const(6i32),
            Instr::I32Shl,
            Instr::LocalGet(self.local_for(s)),
            Instr::I32Const(8i32),
            Instr::I32Add,
            Instr::LocalGet(byte_idx_local),
            Instr::I32Add,
            Instr::I32Const(1i32),
            Instr::I32Add,
            Instr::I32Load8U(MemArg { offset: 0, align: 0 }),
            Instr::I32Const(0x3F),
            Instr::I32And,
            Instr::I32Or,
            Instr::LocalSet(dst_local),
            Instr::Else,
            Instr::LocalGet(width_local),
            Instr::I32Const(3i32),
            Instr::I32Eq,
            Instr::If(BlockTy::Empty),
            Instr::LocalGet(self.local_for(s)),
            Instr::I32Const(8i32),
            Instr::I32Add,
            Instr::LocalGet(byte_idx_local),
            Instr::I32Add,
            Instr::I32Load8U(MemArg { offset: 0, align: 0 }),
            Instr::I32Const(0x0F),
            Instr::I32And,
            Instr::I32Const(12i32),
            Instr::I32Shl,
            Instr::LocalGet(self.local_for(s)),
            Instr::I32Const(8i32),
            Instr::I32Add,
            Instr::LocalGet(byte_idx_local),
            Instr::I32Add,
            Instr::I32Const(1i32),
            Instr::I32Add,
            Instr::I32Load8U(MemArg { offset: 0, align: 0 }),
            Instr::I32Const(0x3F),
            Instr::I32And,
            Instr::I32Const(6i32),
            Instr::I32Shl,
            Instr::I32Or,
            Instr::LocalGet(self.local_for(s)),
            Instr::I32Const(8i32),
            Instr::I32Add,
            Instr::LocalGet(byte_idx_local),
            Instr::I32Add,
            Instr::I32Const(2i32),
            Instr::I32Add,
            Instr::I32Load8U(MemArg { offset: 0, align: 0 }),
            Instr::I32Const(0x3F),
            Instr::I32And,
            Instr::I32Or,
            Instr::LocalSet(dst_local),
            Instr::Else,
            Instr::LocalGet(self.local_for(s)),
            Instr::I32Const(8i32),
            Instr::I32Add,
            Instr::LocalGet(byte_idx_local),
            Instr::I32Add,
            Instr::I32Load8U(MemArg { offset: 0, align: 0 }),
            Instr::I32Const(0x07),
            Instr::I32And,
            Instr::I32Const(18i32),
            Instr::I32Shl,
            Instr::LocalGet(self.local_for(s)),
            Instr::I32Const(8i32),
            Instr::I32Add,
            Instr::LocalGet(byte_idx_local),
            Instr::I32Add,
            Instr::I32Const(1i32),
            Instr::I32Add,
            Instr::I32Load8U(MemArg { offset: 0, align: 0 }),
            Instr::I32Const(0x3F),
            Instr::I32And,
            Instr::I32Const(12i32),
            Instr::I32Shl,
            Instr::I32Or,
            Instr::LocalGet(self.local_for(s)),
            Instr::I32Const(8i32),
            Instr::I32Add,
            Instr::LocalGet(byte_idx_local),
            Instr::I32Add,
            Instr::I32Const(2i32),
            Instr::I32Add,
            Instr::I32Load8U(MemArg { offset: 0, align: 0 }),
            Instr::I32Const(0x3F),
            Instr::I32And,
            Instr::I32Const(6i32),
            Instr::I32Shl,
            Instr::I32Or,
            Instr::LocalGet(self.local_for(s)),
            Instr::I32Const(8i32),
            Instr::I32Add,
            Instr::LocalGet(byte_idx_local),
            Instr::I32Add,
            Instr::I32Const(3i32),
            Instr::I32Add,
            Instr::I32Load8U(MemArg { offset: 0, align: 0 }),
            Instr::I32Const(0x3F),
            Instr::I32And,
            Instr::I32Or,
            Instr::LocalSet(dst_local),
            Instr::End,
            Instr::End,
            Instr::End,
        ];
        out.append(&mut v);
    }

    /// The instructions that `emit_utf8_codepoint_from_local` appends.
    pub open spec fn spec_emit_utf8_codepoint_from_local(&self, s_local: u32, byte_idx_local: u32, width_local: u32, dst_local: u32) -> Seq<Instr> {
        seq![
            Instr::LocalGet(width_local),
            Instr::I32Const(1i32),
            Instr::I32Eq,
            Instr::If(BlockTy::Empty),
            Instr::LocalGet(s_local),
            Instr::LocalGet(byte_idx_local),
            Instr::I32Add,
            Instr::I32Load8U(MemArg { offset: 8, align: 0 }),
            Instr::LocalSet(dst_local),
            Instr::Else,
            Instr::LocalGet(width_local),
            Instr::I32Const(2i32),
            Instr::I32Eq,
            Instr::If(BlockTy::Empty),
            Instr::LocalGet(s_local),
            Instr::LocalGet(byte_idx_local),
            Instr::I32Add,
            Instr::I32Load8U(MemArg { offset: 8, align: 0 }),
            Instr::I32Const(0x1F),
            Instr::I32And,
            Instr::I32Const(6i32),
            Instr::I32Shl,
            Instr::LocalGet(s_local),
            Instr::LocalGet(byte_idx_local),
            Instr::I32Add,
            Instr::I32Const(1i32),
            Instr::I32Add,
            Instr::I32Load8U(MemArg { offset: 8, align: 0 }),
            Instr::I32Const(0x3F),
            Instr::I32And,
            Instr::I32Or,
            Instr::LocalSet(dst_local),
            Instr::Else,
            Instr::LocalGet(width_local),
            Instr::I32Const(3i32),
            Instr::I32Eq,
            Instr::If(BlockTy::Empty),
            Instr::LocalGet(s_local),
            Instr::LocalGet(byte_idx_local),
            Instr::I32Add,
            Instr::I32Load8U(MemArg { offset: 8, align: 0 }),
            Instr::I32Const(0x0F),
            Instr::I32And,
            Instr::I32Const(12i32),
            Instr::I32Shl,
            Instr::LocalGet(s_local),
            Instr::LocalGet(byte_idx_local),
            Instr::I32Add,
            Instr::I32Const(1i32),
            Instr::I32Add,
            Instr::I32Load8U(MemArg { offset: 8, align: 0 }),
            Instr::I32Const(0x3F),
            Instr::I32And,
            Instr::I32Const(6i32),
            Instr::I32Shl,
            Instr::I32Or,
            Instr::LocalGet(s_local),
            Instr::LocalGet(byte_idx_local),
            Instr::I32Add,
            Instr::I32Const(2i32),
            Instr::I32Add,
            Instr::I32Load8U(MemArg { offset: 8, align: 0 }),
            Instr::I32Const(0x3F),
            Instr::I32And,
            Instr::I32Or,
            Instr::LocalSet(dst_local),
            Instr::Else,
            Instr::LocalGet(s_local),
            Instr::LocalGet(byte_idx_local),
            Instr::I32Add,
            Instr::I32Load8U(MemArg { offset: 8, align: 0 }),
            Instr::I32Const(0x07),
            Instr::I32And,
            Instr::I32Const(18i32),
            Instr::I32Shl,
            Instr::LocalGet(s_local),
            Instr::LocalGet(byte_idx_local),
            Instr::I32Add,
            Instr::I32Const(1i32),
            Instr::I32Add,
            Instr::I32Load8U(MemArg { offset: 8, align: 0 }),
            Instr::I32Const(0x3F),
            Instr::I32And,
            Instr::I32Const(12i32),
            Instr::I32Shl,
            Instr::I32Or,
            Instr::LocalGet(s_local),
            Instr::LocalGet(byte_idx_local),
            Instr::I32Add,
            Instr::I32Const(2i32),
            Instr::I32Add,
            Instr::I32Load8U(MemArg { offset: 8, align: 0 }),
            Instr::I32Const(0x3F),
            Instr::I32And,
            Instr::I32Const(6i32),
            Instr::I32Shl,
            Instr::I32Or,
            Instr::LocalGet(s_local),
            Instr::LocalGet(byte_idx_local),
            Instr::I32Add,
            Instr::I32Const(3i32),
            Instr::I32Add,
            Instr::I32Load8U(MemArg { offset: 8, align: 0 }),
            Instr::I32Const(0x3F),
            Instr::I32And,
            Instr::I32Or,
            Instr::LocalSet(dst_local),
            Instr::End,
            Instr::End,
            Instr::End,
        ]
    }

    /// Appends the instructions of `emit_utf8_codepoint_from_local`.
    pub(crate) fn emit_utf8_codepoint_from_local(&self, out: &mut Vec<Instr>, s_local: u32, byte_idx_local: u32, width_local: u32, dst_local: u32)
        requires
            self.wf(),
        ensures
            final(out)@ == old(out)@ + self.spec_emit_utf8_codepoint_from_local(s_local, byte_idx_local, width_local, dst_local),
    {
        let mut v: Vec<Instr> = vec![
            Instr::LocalGet(width_local),
            Instr::I32Const(1i32),
            Instr::I32Eq,
            Instr::If(BlockTy::Empty),
            Instr::LocalGet(s_local),
            Instr::LocalGet(byte_idx_local),
            Instr::I32Add,
            Instr::I32Load8U(MemArg { offset: 8, align: 0 }),
            Instr::LocalSet(dst_local),
            Instr::Else,
            Instr::LocalGet(width_local),
            Instr::I32Const(2i32),
            Instr::I32Eq,
            Instr::If(BlockTy::Empty),
            Instr::LocalGet(s_local),
            Instr::LocalGet(byte_idx_local),
            Instr::I32Add,
            Instr::I32Load8U(MemArg { offset: 8, align: 0 }),
            Instr::I32Const(0x1F),
            Instr::I32And,
            Instr::I32Const(6i32),
            Instr::I32Shl,
            Instr::LocalGet(s_local),
            Instr::LocalGet(byte_idx_local),
            Instr::I32Add,
            Instr::I32Const(1i32),
            Instr::I32Add,
            Instr::I32Load8U(MemArg { offset: 8, align: 0 }),
            Instr::I32Const(0x3F),
            Instr::I32And,
            Instr::I32Or,
            Instr::LocalSet(dst_local),
            Instr::Else,
            Instr::LocalGet(width_local),
            Instr::I32Const(3i32),
            Instr::I32Eq,
            Instr::If(BlockTy::Empty),
            Instr::LocalGet(s_local),
            Instr::LocalGet(byte_idx_local),
            Instr::I32Add,
            Instr::I32Load8U(MemArg { offset: 8, align: 0 }),
            Instr::I32Const(0x0F),
            Instr::I32And,
            Instr::I32Const(12i32),
            Instr::I32Shl,
            Instr::LocalGet(s_local),
            Instr::LocalGet(byte_idx_local),
            Instr::I32Add,
            Instr::I32Const(1i32),
            Instr::I32Add,
            Instr::I32Load8U(MemArg { offset: 8, align: 0 }),
            Instr::I32Const(0x3F),
            Instr::I32And,
            Instr::I32Const(6i32),
            Instr::I32Shl,
            Instr::I32Or,
            Instr::LocalGet(s_local),
            Instr::LocalGet(byte_idx_local),
            Instr::I32Add,
            Instr::I32Const(2i32),
            Instr::I32Add,
            Instr::I32Load8U(MemArg { offset: 8, align: 0 }),
            Instr::I32Const(0x3F),
            Instr::I32And,
            Instr::I32Or,
            Instr::LocalSet(dst_local),
            Instr::Else,
            Instr::LocalGet(s_local),
            Instr::LocalGet(byte_idx_local),
            Instr::I32Add,
            Instr::I32Load8U(MemArg { offset: 8, align: 0 }),
            Instr::I32Const(0x07),
            Instr::I32And,
            Instr::I32Const(18i32),
            Instr::I32Shl,
            Instr::LocalGet(s_local),
            Instr::LocalGet(byte_idx_local),
            Instr::I32Add,
            Instr::I32Const(1i32),
            Instr::I32Add,
            Instr::I32Load8U(MemArg { offset: 8, align: 0 }),
            Instr::I32Const(0x3F),
            Instr::I32And,
            Instr::I32Const(12i32),
            Instr::I32Shl,
            Instr::I32Or,
            Instr::LocalGet(s_local),
            Instr::LocalGet(byte_idx_local),
            Instr::I32Add,
            Instr::I32Const(2i32),
            Instr::I32Add,
            Instr::I32Load8U(MemArg { offset: 8, align: 0 }),
            Instr::I32Const(0x3F),
            Instr::I32And,
            Instr::I32Const(6i32),
            Instr::I32Shl,
            Instr::I32Or,
            Instr::LocalGet(s_local),
            Instr::LocalGet(byte_idx_local),
            Instr::I32Add,
            Instr::I32Const(3i32),
            Instr::I32Add,
            Instr::I32Load8U(MemArg { offset: 8, align: 0 }),
            Instr::I32Const(0x3F),
            Instr::I32And,
            Instr::I32Or,
            Instr::LocalSet(dst_local),
            Instr::End,
            Instr::End,
            Instr::End,
        ];
        out.append(&mut v);
    }

    /// The instructions that `emit_trim_whitespace_check` appends.
    pub open spec fn spec_emit_trim_whitespace_check(&self, s: ValueId, byte_idx_local: u32, width_local: u32, dst_local: u32) -> Seq<Instr> {
        self.spec_emit_utf8_codepoint(s, byte_idx_local, width_local, dst_local)
        + seq![
            Instr::LocalGet(dst_local),
            Instr::I32Const(0x09),
            Instr::I32GeU,
            Instr::LocalGet(dst_local),
            Instr::I32Const(0x0D),
            Instr::I32LeU,
            Instr::I32And,
            Instr::LocalGet(dst_local),
            Instr::I32Const(0x20),
            Instr::I32Eq,
            Instr::I32Or,
            Instr::LocalGet(dst_local),
            Instr::I32Const(0x85),
            Instr::I32Eq,
            Instr::I32Or,
            Instr::LocalGet(dst_local),
            Instr::I32Const(0xA0),
            Instr::I32Eq,
            Instr::I32Or,
            Instr::LocalGet(dst_local),
            Instr::I32Const(0x1680),
            Instr::I32Eq,
            Instr::I32Or,
            Instr::LocalGet(dst_local),
            Instr::I32Const(0x2000),
            Instr::I32GeU,
            Instr::LocalGet(dst_local),
            Instr::I32Const(0x200A),
            Instr::I32LeU,
            Instr::I32And,
            Instr::I32Or,
            Instr::LocalGet(dst_local),
            Instr::I32Const(0x2028),
            Instr::I32Eq,
            Instr::I32Or,
            Instr::LocalGet(dst_local),
            Instr::I32Const(0x2029),
            Instr::I32Eq,
            Instr::I32Or,
            Instr::LocalGet(dst_local),
            Instr::I32Const(0x202F),
            Instr::I32Eq,
            Instr::I32Or,
            Instr::LocalGet(dst_local),
            Instr::I32Const(0x205F),
            Instr::I32Eq,
            Instr::I32Or,
            Instr::LocalGet(dst_local),
            Instr::I32Const(0x3000),
            Instr::I32Eq,
            Instr::I32Or,
            Instr::LocalSet(dst_local),
        ]
    }

    /// Appends the instructions of `emit_trim_whitespace_check`.
    pub(crate) fn emit_trim_whitespace_check(&self, out: &mut Vec<Instr>, s: ValueId, byte_idx_local: u32, width_local: u32, dst_local: u32)
        requires
            self.wf(),
            self.value_ok(s),
        ensures
            final(out)@ == old(out)@ + self.spec_emit_trim_whitespace_check(s, byte_idx_local, width_local, dst_local),
    {
        let mut v: Vec<Instr> = Vec::new();
        self.emit_utf8_codepoint(&mut v, s, byte_idx_local, width_local, dst_local);
        let mut w: Vec<Instr> = vec![
            Instr::LocalGet(dst_local),
            Instr::I32Const(0x09),
            Instr::I32GeU,
            Instr::LocalGet(dst_local),
            Instr::I32Const(0x0D),
            Instr::I32LeU,
            Instr::I32And,
            Instr::LocalGet(dst_local),
            Instr::I32Const(0x20),
            Instr::I32Eq,
            Instr::I32Or,
            Instr::LocalGet(dst_local),
            Instr::I32Const(0x85),
            Instr::I32Eq,
            Instr::I32Or,
            Instr::LocalGet(dst_local),
            Instr::I32Const(0xA0),
            Instr::I32Eq,
            Instr::I32Or,
            Instr::LocalGet(dst_local),
            Instr::I32Const(0x1680),
            Instr::I32Eq,
            Instr::I32Or,
            Instr::LocalGet(dst_local),
            Instr::I32Const(0x2000),
            Instr::I32GeU,
            Instr::LocalGet(dst_local),
            Instr::I32Const(0x200A),
            Instr::I32LeU,
            Instr::I32And,
            Instr::I32Or,
            Instr::LocalGet(dst_local),
            Instr::I32Const(0x2028),
            Instr::I32Eq,
            Instr::I32Or,
            Instr::LocalGet(dst_local),
            Instr::I32Const(0x2029),
            Instr::I32Eq,
            Instr::I32Or,
            Instr::LocalGet(dst_local),
            Instr::I32Const(0x202F),
            Instr::I32Eq,
            Instr::I32Or,
            Instr::LocalGet(dst_local),
            Instr::I32Const(0x205F),
            Instr::I32Eq,
            Instr::I32Or,
            Instr::LocalGet(dst_local),
            Instr::I32Const(0x3000),
            Instr::I32Eq,
            Instr::I32Or,
            Instr::LocalSet(dst_local),
        ];
        v.append(&mut w);
        out.append(&mut v);
    }

    /// The instructions that `emit_string_trim` appends.
    pub open spec fn spec_emit_string_trim(&self, s: ValueId) -> Seq<Instr> {
        seq![
            Instr::LocalGet(self.spec_local(s)),
            Instr::I32Load(MemArg { offset: 0, align: 2 }),
            Instr::LocalSet(self.scratch_i32),
            Instr::LocalGet(self.spec_local(s)),
            Instr::I32Load(MemArg { offset: 4, align: 2 }),
            Instr::LocalSet(self.scratch_i32_2),
            Instr::I32Const(0i32),
            Instr::LocalSet(self.scratch_i32_3),
            Instr::I32Const(0i32),
            Instr::LocalSet(self.scratch_i32_4),
            Instr::Block(BlockTy::Empty),
            Instr::Loop(BlockTy::Empty),
            Instr::LocalGet(self.scratch_i32_3),
            Instr::LocalGet(self.scratch_i32),
            Instr::I32GeU,
            Instr::BrIf(1),
        ]
        + self.spec_emit_utf8_char_width(s, self.scratch_i32_3, self.scratch_i32_5)
        + self.spec_emit_trim_whitespace_check(s, self.scratch_i32_3, self.scratch_i32_5, self.scratch_i32_8)
        + seq![
            Instr::LocalGet(self.scratch_i32_8),
            Instr::I32Eqz,
            Instr::BrIf(1),
            Instr::LocalGet(self.scratch_i32_3),
            Instr::LocalGet(self.scratch_i32_5),
            Instr::I32Add,
            Instr::LocalSet(self.scratch_i32_3),
            Instr::LocalGet(self.scratch_i32_4),
            Instr::I32Const(1i32),
            Instr::I32Add,
            Instr::LocalSet(self.scratch_i32_4),
            Instr::Br(0),
            Instr::End,
            Instr::End,
            Instr::LocalGet(self.scratch_i32_3),
            Instr::LocalGet(self.scratch_i32),
            Instr::I32Eq,
            Instr::If(BlockTy::Empty),
        ]
        + self.spec_emit_string_const(Seq::empty(), 0)
        + seq![
            Instr::LocalSet(self.scratch_i32_8),
            Instr::Else,
            Instr::LocalGet(self.scratch_i32),
            Instr::LocalSet(self.scratch_i32_6),
            Instr::LocalGet(self.scratch_i32_2),
            Instr::LocalSet(self.scratch_i32_7),
            Instr::Block(BlockTy::Empty),
            Instr::Loop(BlockTy::Empty),
            Instr::LocalGet(self.scratch_i32_6),
            Instr::LocalGet(self.scratch_i32_3),
            Instr::I32LeU,
            Instr::BrIf(1),
            Instr::LocalGet(self.scratch_i32_6),
            Instr::I32Const(1i32),
            Instr::I32Sub,
            Instr::LocalSet(self.scratch_i32_5),
            Instr::Block(BlockTy::Empty),
            Instr::Loop(BlockTy::Empty),
            Instr::LocalGet(self.spec_local(s)),
            Instr::I32Const(8i32),
            Instr::I32Add,
            Instr::LocalGet(self.scratch_i32_5),
            Instr::I32Add,
            Instr::I32Load8U(MemArg { offset: 0, align: 0 }),
            Instr::I32Const(0xC0),
            Instr::I32And,
            Instr::I32Const(0x80),
            Instr::I32Ne,
            Instr::BrIf(1),
            Instr::LocalGet(self.scratch_i32_5),
            Instr::I32Const(1i32),
            Instr::I32Sub,
            Instr::LocalSet(self.scratch_i32_5),
            Instr::Br(0),
            Instr::End,
            Instr::End,
        ]
        + self.spec_emit_utf8_char_width(s, self.scratch_i32_5, self.scratch_i32_2)
        + self.spec_emit_trim_whitespace_check(s, self.scratch_i32_5, self.scratch_i32_2, self.scratch_i32_8)
        + seq![
            Instr::LocalGet(self.scratch_i32_8),
            Instr::I32Eqz,
            Instr::BrIf(1),
            Instr::LocalGet(self.scratch_i32_5),
            Instr::LocalSet(self.scratch_i32_6),
            Instr::LocalGet(self.scratch_i32_7),
            Instr::I32Const(1i32),
            Instr::I32Sub,
            Instr::LocalSet(self.scratch_i32_7),
            Instr::Br(0),
            Instr::End,
            Instr::End,
            Instr::LocalGet(self.scratch_i32_6),
            Instr::LocalGet(self.scratch_i32_3),
            Instr::I32Sub,
            Instr::LocalSet(self.scratch_i32_5),
            Instr::LocalGet(self.scratch_i32_7),
            Instr::LocalGet(self.scratch_i32_4),
            Instr::I32Sub,
            Instr::LocalSet(self.scratch_i32_2),
            Instr::LocalGet(self.scratch_i32_5),
            Instr::I32Const(8i32),
            Instr::I32Add,
            Instr::Call(self.ctx.alloc_fn_index),
            Instr::LocalSet(self.scratch_i32_8),
            Instr::LocalGet(self.scratch_i32_8),
            Instr::LocalGet(self.scratch_i32_5),
            Instr::I32Store(MemArg { offset: 0, align: 2 }),
            Instr::LocalGet(self.scratch_i32_8),
            Instr::LocalGet(self.scratch_i32_2),
            Instr::I32Store(MemArg { offset: 4, align: 2 }),
            Instr::LocalGet(self.scratch_i32_8),
            Instr::I32Const(8i32),
            Instr::I32Add,
            Instr::LocalGet(self.spec_local(s)),
            Instr::I32Const(8i32),
            Instr::I32Add,
            Instr::LocalGet(self.scratch_i32_3),
            Instr::I32Add,
            Instr::LocalGet(self.scratch_i32_5),
            Instr::MemoryCopy { src_mem: 0, dst_mem: 0 },
            Instr::End,
            Instr::LocalGet(self.scratch_i32_8),
        ]
    }

    /// Appends the instructions of `emit_string_trim`.
    pub(crate) fn emit_string_trim(&self, out: &mut Vec<Instr>, s: ValueId)
        requires
            self.wf(),
            self.value_ok(s),
        ensures
            final(out)@ == old(out)@ + self.spec_emit_string_trim(s),
    {
        let mut v: Vec<Instr> = vec![
            Instr::LocalGet(self.local_for(s)),
            Instr::I32Load(MemArg { offset: 0, align: 2 }),
            Instr::LocalSet(self.scratch_i32),
            Instr::LocalGet(self.local_for(s)),
            Instr::I32Load(MemArg { offset: 4, align: 2 }),
            Instr::LocalSet(self.scratch_i32_2),
            Instr::I32Const(0i32),
            Instr::LocalSet(self.scratch_i32_3),
            Instr::I32Const(0i32),
            Instr::LocalSet(self.scratch_i32_4),
            Instr::Block(BlockTy::Empty),
            Instr::Loop(BlockTy::Empty),
            Instr::LocalGet(self.scratch_i32_3),
            Instr::LocalGet(self.scratch_i32),
            Instr::I32GeU,
            Instr::BrIf(1),
        ];
        self.emit_utf8_char_width(&mut v, s, self.scratch_i32_3, self.scratch_i32_5);
        self.emit_trim_whitespace_check(&mut v, s, self.scratch_i32_3, self.scratch_i32_5, self.scratch_i32_8);
        let mut w: Vec<Instr> = vec![
            Instr::LocalGet(self.scratch_i32_8),
            Instr::I32Eqz,
            Instr::BrIf(1),
            Instr::LocalGet(self.scratch_i32_3),
            Instr::LocalGet(self.scratch_i32_5),
            Instr::I32Add,
            Instr::LocalSet(self.scratch_i32_3),
            Instr::LocalGet(self.scratch_i32_4),
            Instr::I32Const(1i32),
            Instr::I32Add,
            Instr::LocalSet(self.scratch_i32_4),
            Instr::Br(0),
            Instr::End,
            Instr::End,
            Instr::LocalGet(self.scratch_i32_3),
            Instr::LocalGet(self.scratch_i32),
            Instr::I32Eq,
            Instr::If(BlockTy::Empty),
        ];
        v.append(&mut w);
        proof { reveal_strlit(""); }
        self.emit_string_const(&mut v, "");
        let mut w: Vec<Instr> = vec![
            Instr::LocalSet(self.scratch_i32_8),
            Instr::Else,
            Instr::LocalGet(self.scratch_i32),
            Instr::LocalSet(self.scratch_i32_6),
            Instr::LocalGet(self.scratch_i32_2),
            Instr::LocalSet(self.scratch_i32_7),
            Instr::Block(BlockTy::Empty),
            Instr::Loop(BlockTy::Empty),
            Instr::LocalGet(self.scratch_i32_6),
            Instr::LocalGet(self.scratch_i32_3),
            Instr::I32LeU,
            Instr::BrIf(1),
            Instr::LocalGet(self.scratch_i32_6),
            Instr::I32Const(1i32),
            Instr::I32Sub,
            Instr::LocalSet(self.scratch_i32_5),
            Instr::Block(BlockTy::Empty),
            Instr::Loop(BlockTy::Empty),
            Instr::LocalGet(self.local_for(s)),
            Instr::I32Const(8i32),
            Instr::I32Add,
            Instr::LocalGet(self.scratch_i32_5),
            Instr::I32Add,
            Instr::I32Load8U(MemArg { offset: 0, align: 0 }),
            Instr::I32Const(0xC0),
            Instr::I32And,
            Instr::I32Const(0x80),
            Instr::I32Ne,
            Instr::BrIf(1),
            Instr::LocalGet(self.scratch_i32_5),
            Instr::I32Const(1i32),
            Instr::I32Sub,
            Instr::LocalSet(self.scratch_i32_5),
            Instr::Br(0),
            Instr::End,
            Instr::End,
        ];
        v.append(&mut w);
        self.emit_utf8_char_width(&mut v, s, self.scratch_i32_5, self.scratch_i32_2);
        self.emit_trim_whitespace_check(&mut v, s, self.scratch_i32_5, self.scratch_i32_2, self.scratch_i32_8);
        let mut w: Vec<Instr> = vec![
            Instr::LocalGet(self.scratch_i32_8),
            Instr::I32Eqz,
            Instr::BrIf(1),
            Instr::LocalGet(self.scratch_i32_5),
            Instr::LocalSet(self.scratch_i32_6),
            Instr::LocalGet(self.scratch_i32_7),
            Instr::I32Const(1i32),
            Instr::I32Sub,
            Instr::LocalSet(self.scratch_i32_7),
            Instr::Br(0),
            Instr::End,
            Instr::End,
            Instr::LocalGet(self.scratch_i32_6),
            Instr::LocalGet(self.scratch_i32_3),
            Instr::I32Sub,
            Instr::LocalSet(self.scratch_i32_5),
            Instr::LocalGet(self.scratch_i32_7),
            Instr::LocalGet(self.scratch_i32_4),
            Instr::I32Sub,
            Instr::LocalSet(self.scratch_i32_2),
            Instr::LocalGet(self.scratch_i32_5),
            Instr::I32Const(8i32),
            Instr::I32Add,
            Instr::Call(self.ctx.alloc_fn_index),
            Instr::LocalSet(self.scratch_i32_8),
            Instr::LocalGet(self.scratch_i32_8),
            Instr::LocalGet(self.scratch_i32_5),
            Instr::I32Store(MemArg { offset: 0, align: 2 }),
            Instr::LocalGet(self.scratch_i32_8),
            Instr::LocalGet(self.scratch_i32_2),
            Instr::I32Store(MemArg { offset: 4, align: 2 }),
            Instr::LocalGet(self.scratch_i32_8),
            Instr::I32Const(8i32),
            Instr::I32Add,
            Instr::LocalGet(self.local_for(s)),
            Instr::I32Const(8i32),
            Instr::I32Add,
            Instr::LocalGet(self.scratch_i32_3),
            Instr::I32Add,
            Instr::LocalGet(self.scratch_i32_5),
            Instr::MemoryCopy { src_mem: 0, dst_mem: 0 },
            Instr::End,
            Instr::LocalGet(self.scratch_i32_8),
        ];
        v.append(&mut w);
        out.append(&mut v);
    }

    /// The instructions that `emit_string_substring` appends.
    pub open spec fn spec_emit_string_substring(&self, s: ValueId, start: ValueId, end: ValueId) -> Seq<Instr> {
        seq![
            Instr::LocalGet(self.spec_local(s)),
            Instr::I32Load(MemArg { offset: 4, align: 2 }),
            Instr::LocalSet(self.scratch_i32),
        ]
        + self.spec_emit_clamped_string_index(start, self.scratch_i32, self.scratch_i32_2)
        + self.spec_emit_clamped_string_index(end, self.scratch_i32, self.scratch_i32_3)
        + seq![
            Instr::LocalGet(self.scratch_i32_2),
            Instr::LocalGet(self.scratch_i32_3),
            Instr::I32GeU,
            Instr::If(BlockTy::Empty),
        ]
        + self.spec_emit_string_const(Seq::empty(), 0)
        + seq![
            Instr::LocalSet(self.scratch_i32_4),
            Instr::Else,
            Instr::I32Const(0i32),
            Instr::LocalSet(self.scratch_i32_5),
            Instr::I32Const(0i32),
            Instr::LocalSet(self.scratch_i32_6),
            Instr::I32Const(0i32),
            Instr::LocalSet(self.scratch_i32_7),
            Instr::Block(BlockTy::Empty),
            Instr::Loop(BlockTy::Empty),
            Instr::LocalGet(self.scratch_i32_5),
            Instr::LocalGet(self.scratch_i32_3),
            Instr::I32GeU,
            Instr::BrIf(1),
            Instr::LocalGet(self.scratch_i32_5),
            Instr::LocalGet(self.scratch_i32_2),
            Instr::I32Eq,
            Instr::If(BlockTy::Empty),
            Instr::LocalGet(self.scratch_i32_6),
            Instr::LocalSet(self.scratch_i32_7),
            Instr::End,
            Instr::LocalGet(self.spec_local(s)),
            Instr::I32Const(8i32),
            Instr::I32Add,
            Instr::LocalGet(self.scratch_i32_6),
            Instr::I32Add,
            Instr::I32Load8U(MemArg { offset: 0, align: 0 }),
            Instr::LocalSet(self.scratch_i32_8),
            Instr::I32Const(4i32),
            Instr::LocalSet(self.scratch_i32_4),
            Instr::LocalGet(self.scratch_i32_8),
            Instr::I32Const(0xF0),
            Instr::I32LtU,
            Instr::If(BlockTy::Empty),
            Instr::I32Const(3i32),
            Instr::LocalSet(self.scratch_i32_4),
            Instr::LocalGet(self.scratch_i32_8),
            Instr::I32Const(0xE0),
            Instr::I32LtU,
            Instr::If(BlockTy::Empty),
            Instr::I32Const(2i32),
            Instr::LocalSet(self.scratch_i32_4),
            Instr::LocalGet(self.scratch_i32_8),
            Instr::I32Const(0x80),
            Instr::I32LtU,
            Instr::If(BlockTy::Empty),
            Instr::I32Const(1i32),
            Instr::LocalSet(self.scratch_i32_4),
            Instr::End,
            Instr::End,
            Instr::End,
            Instr::LocalGet(self.scratch_i32_6),
            Instr::LocalGet(self.scratch_i32_4),
            Instr::I32Add,
            Instr::LocalSet(self.scratch_i32_6),
            Instr::LocalGet(self.scratch_i32_5),
            Instr::I32Const(1i32),
            Instr::I32Add,
            Instr::LocalSet(self.scratch_i32_5),
            Instr::Br(0),
            Instr::End,
            Instr::End,
            Instr::LocalGet(self.scratch_i32_6),
            Instr::LocalGet(self.scratch_i32_7),
            Instr::I32Sub,
            Instr::LocalSet(self.scratch_i32_8),
            Instr::LocalGet(self.scratch_i32_8),
            Instr::I32Const(8i32),
            Instr::I32Add,
            Instr::Call(self.ctx.alloc_fn_index),
            Instr::LocalSet(self.scratch_i32_4),
            Instr::LocalGet(self.scratch_i32_4),
            Instr::LocalGet(self.scratch_i32_8),
            Instr::I32Store(MemArg { offset: 0, align: 2 }),
            Instr::LocalGet(self.scratch_i32_4),
            Instr::LocalGet(self.scratch_i32_3),
            Instr::LocalGet(self.scratch_i32_2),
            Instr::I32Sub,
            Instr::I32Store(MemArg { offset: 4, align: 2 }),
            Instr::LocalGet(self.scratch_i32_4),
            Instr::I32Const(8i32),
            Instr::I32Add,
            Instr::LocalGet(self.spec_local(s)),
            Instr::I32Const(8i32),
            Instr::I32Add,
            Instr::LocalGet(self.scratch_i32_7),
            Instr::I32Add,
            Instr::LocalGet(self.scratch_i32_8),
            Instr::MemoryCopy { src_mem: 0, dst_mem: 0 },
            Instr::End,
            Instr::LocalGet(self.scratch_i32_4),
        ]
    }

    /// Appends the instructions of `emit_string_substring`.
    pub(crate) fn emit_string_substring(&self, out: &mut Vec<Instr>, s: ValueId, start: ValueId, end: ValueId)
        requires
            self.wf(),
            self.value_ok(s),
            self.value_ok(start),
            self.value_ok(end),
        ensures
            final(out)@ == old(out)@ + self.spec_emit_string_substring(s, start, end),
    {
        let mut v: Vec<Instr> = vec![
            Instr::LocalGet(self.local_for(s)),
            Instr::I32Load(MemArg { offset: 4, align: 2 }),
            Instr::LocalSet(self.scratch_i32),
        ];
        self.emit_clamped_string_index(&mut v, start, self.scratch_i32, self.scratch_i32_2);
        self.emit_clamped_string_index(&mut v, end, self.scratch_i32, self.scratch_i32_3);
        let mut w: Vec<Instr> = vec![
            Instr::LocalGet(self.scratch_i32_2),
            Instr::LocalGet(self.scratch_i32_3),
            Instr::I32GeU,
            Instr::If(BlockTy::Empty),
        ];
        v.append(&mut w);
        proof { reveal_strlit(""); }
        self.emit_string_const(&mut v, "");
        let mut w: Vec<Instr> = vec![
            Instr::LocalSet(self.scratch_i32_4),
            Instr::Else,
            Instr::I32Const(0i32),
            Instr::LocalSet(self.scratch_i32_5),
            Instr::I32Const(0i32),
            Instr::LocalSet(self.scratch_i32_6),
            Instr::I32Const(0i32),
            Instr::LocalSet(self.scratch_i32_7),
            Instr::Block(BlockTy::Empty),
            Instr::Loop(BlockTy::Empty),
            Instr::LocalGet(self.scratch_i32_5),
            Instr::LocalGet(self.scratch_i32_3),
            Instr::I32GeU,
            Instr::BrIf(1),
            Instr::LocalGet(self.scratch_i32_5),
            Instr::LocalGet(self.scratch_i32_2),
            Instr::I32Eq,
            Instr::If(BlockTy::Empty),
            Instr::LocalGet(self.scratch_i32_6),
            Instr::LocalSet(self.scratch_i32_7),
            Instr::End,
            Instr::LocalGet(self.local_for(s)),
            Instr::I32Const(8i32),
            Instr::I32Add,
            Instr::LocalGet(self.scratch_i32_6),
            Instr::I32Add,
            Instr::I32Load8U(MemArg { offset: 0, align: 0 }),
            Instr::LocalSet(self.scratch_i32_8),
            Instr::I32Const(4i32),
            Instr::LocalSet(self.scratch_i32_4),
            Instr::LocalGet(self.scratch_i32_8),
            Instr::I32Const(0xF0),
            Instr::I32LtU,
            Instr::If(BlockTy::Empty),
            Instr::I32Const(3i32),
            Instr::LocalSet(self.scratch_i32_4),
            Instr::LocalGet(self.scratch_i32_8),
            Instr::I32Const(0xE0),
            Instr::I32LtU,
            Instr::If(BlockTy::Empty),
            Instr::I32Const(2i32),
            Instr::LocalSet(self.scratch_i32_4),
            Instr::LocalGet(self.scratch_i32_8),
            Instr::I32Const(0x80),
            Instr::I32LtU,
            Instr::If(BlockTy::Empty),
            Instr::I32Const(1i32),
            Instr::LocalSet(self.scratch_i32_4),
            Instr::End,
            Instr::End,
            Instr::End,
            Instr::LocalGet(self.scratch_i32_6),
            Instr::LocalGet(self.scratch_i32_4),
            Instr::I32Add,
            Instr::LocalSet(self.scratch_i32_6),
            Instr::LocalGet(self.scratch_i32_5),
            Instr::I32Const(1i32),
            Instr::I32Add,
            Instr::LocalSet(self.scratch_i32_5),
            Instr::Br(0),
            Instr::End,
            Instr::End,
            Instr::LocalGet(self.scratch_i32_6),
            Instr::LocalGet(self.scratch_i32_7),
            Instr::I32Sub,
            Instr::LocalSet(self.scratch_i32_8),
            Instr::LocalGet(self.scratch_i32_8),
            Instr::I32Const(8i32),
            Instr::I32Add,
            Instr::Call(self.ctx.alloc_fn_index),
            Instr::LocalSet(self.scratch_i32_4),
            Instr::LocalGet(self.scratch_i32_4),
            Instr::LocalGet(self.scratch_i32_8),
            Instr::I32Store(MemArg { offset: 0, align: 2 }),
            Instr::LocalGet(self.scratch_i32_4),
            Instr::LocalGet(self.scratch_i32_3),
            Instr::LocalGet(self.scratch_i32_2),
            Instr::I32Sub,
            Instr::I32Store(MemArg { offset: 4, align: 2 }),
            Instr::LocalGet(self.scratch_i32_4),
            Instr::I32Const(8i32),
            Instr::I32Add,
            Instr::LocalGet(self.local_for(s)),
            Instr::I32Const(8i32),
            Instr::I32Add,
            Instr::LocalGet(self.scratch_i32_7),
            Instr::I32Add,
            Instr::LocalGet(self.scratch_i32_8),
            Instr::MemoryCopy { src_mem: 0, dst_mem: 0 },
            Instr::End,
            Instr::LocalGet(self.scratch_i32_4),
        ];
        v.append(&mut w);
        out.append(&mut v);
    }

    /// The instructions that `emit_string_host_helper_call` appends.
    pub open spec fn spec_emit_string_host_helper_call(&self, value: ValueId, helper_fn_index: u32) -> Seq<Instr> {
        seq![
            Instr::LocalGet(self.spec_local(value)),
            Instr::I32Const(8i32),
            Instr::I32Add,
            Instr::LocalGet(self.spec_local(value)),
            Instr::I32Load(MemArg { offset: 0, align: 2 }),
            Instr::Call(helper_fn_index),
        ]
    }

    /// Appends the instructions of `emit_string_host_helper_call`.
    pub(crate) fn emit_string_host_helper_call(&self, out: &mut Vec<Instr>, value: ValueId, helper_fn_index: u32)
        requires
            self.wf(),
            self.value_ok(value),
        ensures
            final(out)@ == old(out)@ + self.spec_emit_string_host_helper_call(value, helper_fn_index),
    {
        let mut v: Vec<Instr> = vec![
            Instr::LocalGet(self.local_for(value)),
            Instr::I32Const(8i32),
            Instr::I32Add,
            Instr::LocalGet(self.local_for(value)),
            Instr::I32Load(MemArg { offset: 0, align: 2 }),
            Instr::Call(helper_fn_index),
        ];
        out.append(&mut v);
    }

    /// The instructions that `emit_string_range_alloc_from_locals` appends.
    pub open spec fn spec_emit_string_range_alloc_from_locals(&self, base_string_local: u32, slice_start_local: u32, slice_end_local: u32, result_local: u32, char_count_local: u32, scan_local: u32) -> Seq<Instr> {
        seq![
            Instr::I32Const(0i32),
            Instr::LocalSet(char_count_local),
            Instr::I32Const(0i32),
            Instr::LocalSet(scan_local),
            Instr::Block(BlockTy::Empty),
            Instr::Loop(BlockTy::Empty),
            Instr::LocalGet(scan_local),
            Instr::LocalGet(slice_end_local),
            Instr::LocalGet(slice_start_local),
            Instr::I32Sub,
            Instr::I32GeU,
            Instr::BrIf(1),
            Instr::I32Const(4i32),
            Instr::LocalSet(result_local),
            Instr::LocalGet(base_string_local),
            Instr::I32Const(8i32),
            Instr::I32Add,
            Instr::LocalGet(slice_start_local),
            Instr::I32Add,
            Instr::LocalGet(scan_local),
            Instr::I32Add,
            Instr::I32Load8U(MemArg { offset: 0, align: 0 }),
            Instr::I32Const(0xF0),
            Instr::I32LtU,
            Instr::If(BlockTy::Empty),
            Instr::I32Const(3i32),
            Instr::LocalSet(result_local),
            Instr::LocalGet(base_string_local),
            Instr::I32Const(8i32),
            Instr::I32Add,
            Instr::LocalGet(slice_start_local),
            Instr::I32Add,
            Instr::LocalGet(scan_local),
            Instr::I32Add,
            Instr::I32Load8U(MemArg { offset: 0, align: 0 }),
            Instr::I32Const(0xE0),
            Instr::I32LtU,
            Instr::If(BlockTy::Empty),
            Instr::I32Const(2i32),
            Instr::LocalSet(result_local),
            Instr::LocalGet(base_string_local),
            Instr::I32Const(8i32),
            Instr::I32Add,
            Instr::LocalGet(slice_start_local),
            Instr::I32Add,
            Instr::LocalGet(scan_local),
            Instr::I32Add,
            Instr::I32Load8U(MemArg { offset: 0, align: 0 }),
            Instr::I32Const(0x80),
            Instr::I32LtU,
            Instr::If(BlockTy::Empty),
            Instr::I32Const(1i32),
            Instr::LocalSet(result_local),
            Instr::End,
            Instr::End,
            Instr::End,
            Instr::LocalGet(scan_local),
            Instr::LocalGet(result_local),
            Instr::I32Add,
            Instr::LocalSet(scan_local),
            Instr::LocalGet(char_count_local),
            Instr::I32Const(1i32),
            Instr::I32Add,
            Instr::LocalSet(char_count_local),
            Instr::Br(0),
            Instr::End,
            Instr::End,
            Instr::LocalGet(slice_end_local),
            Instr::LocalGet(slice_start_local),
            Instr::I32Sub,
            Instr::I32Const(8i32),
            Instr::I32Add,
            Instr::Call(self.ctx.alloc_fn_index),
            Instr::LocalSet(result_local),
            Instr::LocalGet(result_local),
            Instr::LocalGet(slice_end_local),
            Instr::LocalGet(slice_start_local),
            Instr::I32Sub,
            Instr::I32Store(MemArg { offset: 0, align: 2 }),
            Instr::LocalGet(result_local),
            Instr::LocalGet(char_count_local),
            Instr::I32Store(MemArg { offset: 4, align: 2 }),
            Instr::LocalGet(result_local),
            Instr::I32Const(8i32),
            Instr::I32Add,
            Instr::LocalGet(base_string_local),
            Instr::I32Const(8i32),
            Instr::I32Add,
            Instr::LocalGet(slice_start_local),
            Instr::I32Add,
            Instr::LocalGet(slice_end_local),
            Instr::LocalGet(slice_start_local),
            Instr::I32Sub,
            Instr::MemoryCopy { src_mem: 0, dst_mem: 0 },
        ]
    }

    /// Appends the instructions of `emit_string_range_alloc_from_locals`.
    pub(crate) fn emit_string_range_alloc_from_locals(&self, out: &mut Vec<Instr>, base_string_local: u32, slice_start_local: u32, slice_end_local: u32, result_local: u32, char_count_local: u32, scan_local: u32)
        requires
            self.wf(),
        ensures
            final(out)@ == old(out)@ + self.spec_emit_string_range_alloc_from_locals(base_string_local, slice_start_local, slice_end_local, result_local, char_count_local, scan_local),
    {
        let mut v: Vec<Instr> = vec![
            Instr::I32Const(0i32),
            Instr::LocalSet(char_count_local),
            Instr::I32Const(0i32),
            Instr::LocalSet(scan_local),
            Instr::Block(BlockTy::Empty),
            Instr::Loop(BlockTy::Empty),
            Instr::LocalGet(scan_local),
            Instr::LocalGet(slice_end_local),
            Instr::LocalGet(slice_start_local),
            Instr::I32Sub,
            Instr::I32GeU,
            Instr::BrIf(1),
            Instr::I32Const(4i32),
            Instr::LocalSet(result_local),
            Instr::LocalGet(base_string_local),
            Instr::I32Const(8i32),
            Instr::I32Add,
            Instr::LocalGet(slice_start_local),
            Instr::I32Add,
            Instr::LocalGet(scan_local),
            Instr::I32Add,
            Instr::I32Load8U(MemArg { offset: 0, align: 0 }),
            Instr::I32Const(0xF0),
            Instr::I32LtU,
            Instr::If(BlockTy::Empty),
            Instr::I32Const(3i32),
            Instr::LocalSet(result_local),
            Instr::LocalGet(base_string_local),
            Instr::I32Const(8i32),
            Instr::I32Add,
            Instr::LocalGet(slice_start_local),
            Instr::I32Add,
            Instr::LocalGet(scan_local),
            Instr::I32Add,
            Instr::I32Load8U(MemArg { offset: 0, align: 0 }),
            Instr::I32Const(0xE0),
            Instr::I32LtU,
            Instr::If(BlockTy::Empty),
            Instr::I32Const(2i32),
            Instr::LocalSet(result_local),
            Instr::LocalGet(base_string_local),
            Instr::I32Const(8i32),
            Instr::I32Add,
            Instr::LocalGet(slice_start_local),
            Instr::I32Add,
            Instr::LocalGet(scan_local),
            Instr::I32Add,
            Instr::I32Load8U(MemArg { offset: 0, align: 0 }),
            Instr::I32Const(0x80),
            Instr::I32LtU,
            Instr::If(BlockTy::Empty),
            Instr::I32Const(1i32),
            Instr::LocalSet(result_local),
            Instr::End,
            Instr::End,
            Instr::End,
            Instr::LocalGet(scan_local),
            Instr::LocalGet(result_local),
            Instr::I32Add,
            Instr::LocalSet(scan_local),
            Instr::LocalGet(char_count_local),
            Instr::I32Const(1i32),
            Instr::I32Add,
            Instr::LocalSet(char_count_local),
            Instr::Br(0),
            Instr::End,
            Instr::End,
            Instr::LocalGet(slice_end_local),
            Instr::LocalGet(slice_start_local),
            Instr::I32Sub,
            Instr::I32Const(8i32),
            Instr::I32Add,
            Instr::Call(self.ctx.alloc_fn_index),
            Instr::LocalSet(result_local),
            Instr::LocalGet(result_local),
            Instr::LocalGet(slice_end_local),
            Instr::LocalGet(slice_start_local),
            Instr::I32Sub,
            Instr::I32Store(MemArg { offset: 0, align: 2 }),
            Instr::LocalGet(result_local),
            Instr::LocalGet(char_count_local),
            Instr::I32Store(MemArg { offset: 4, align: 2 }),
            Instr::LocalGet(result_local),
            Instr::I32Const(8i32),
            Instr::I32Add,
            Instr::LocalGet(base_string_local),
            Instr::I32Const(8i32),
            Instr::I32Add,
            Instr::LocalGet(slice_start_local),
            Instr::I32Add,
            Instr::LocalGet(slice_end_local),
            Instr::LocalGet(slice_start_local),
            Instr::I32Sub,
            Instr::MemoryCopy { src_mem: 0, dst_mem: 0 },
        ];
        out.append(&mut v);
    }

    /// The instructions that `emit_string_slice_equals_string_from_locals` appends.
    pub open spec fn spec_emit_string_slice_equals_string_from_locals(&self, base_string_local: u32, slice_start_local: u32, slice_len_local: u32, string_local: u32, result_local: u32, compare_idx_local: u32) -> Seq<Instr> {
        seq![
            Instr::I32Const(0i32),
            Instr::LocalSet(result_local),
            Instr::LocalGet(slice_len_local),
            Instr::LocalGet(string_local),
            Instr::I32Load(MemArg { offset: 0, align: 2 }),
            Instr::I32Eq,
            Instr::If(BlockTy::Empty),
            Instr::I32Const(0i32),
            Instr::LocalSet(compare_idx_local),
            Instr::I32Const(1i32),
            Instr::LocalSet(result_local),
            Instr::Block(BlockTy::Empty),
            Instr::Loop(BlockTy::Empty),
            Instr::LocalGet(compare_idx_local),
            Instr::LocalGet(slice_len_local),
            Instr::I32GeU,
            Instr::BrIf(1),
            Instr::LocalGet(base_string_local),
            Instr::I32Const(8i32),
            Instr::I32Add,
            Instr::LocalGet(slice_start_local),
            Instr::I32Add,
            Instr::LocalGet(compare_idx_local),
            Instr::I32Add,
            Instr::I32Load8U(MemArg { offset: 0, align: 0 }),
            Instr::LocalGet(string_local),
            Instr::I32Const(8i32),
            Instr::I32Add,
            Instr::LocalGet(compare_idx_local),
            Instr::I32Add,
            Instr::I32Load8U(MemArg { offset: 0, align: 0 }),
            Instr::I32Ne,
            Instr::If(BlockTy::Empty),
            Instr::I32Const(0i32),
            Instr::LocalSet(result_local),
            Instr::Br(2),
            Instr::End,
            Instr::LocalGet(compare_idx_local),
            Instr::I32Const(1i32),
            Instr::I32Add,
            Instr::LocalSet(compare_idx_local),
            Instr::Br(0),
            Instr::End,
            Instr::End,
            Instr::End,
        ]
    }

    /// Appends the instructions of `emit_string_slice_equals_string_from_locals`.
    pub(crate) fn emit_string_slice_equals_string_from_locals(&self, out: &mut Vec<Instr>, base_string_local: u32, slice_start_local: u32, slice_len_local: u32, string_local: u32, result_local: u32, compare_idx_local: u32)
        requires
            self.wf(),
        ensures
            final(out)@ == old(out)@ + self.spec_emit_string_slice_equals_string_from_locals(base_string_local, slice_start_local, slice_len_local, string_local, result_local, compare_idx_local),
    {
        let mut v: Vec<Instr> = vec![
            Instr::I32Const(0i32),
            Instr::LocalSet(result_local),
            Instr::LocalGet(slice_len_local),
            Instr::LocalGet(string_local),
            Instr::I32Load(MemArg { offset: 0, align: 2 }),
            Instr::I32Eq,
            Instr::If(BlockTy::Empty),
            Instr::I32Const(0i32),
            Instr::LocalSet(compare_idx_local),
            Instr::I32Const(1i32),
            Instr::LocalSet(result_local),
            Instr::Block(BlockTy::Empty),
            Instr::Loop(BlockTy::Empty),
            Instr::LocalGet(compare_idx_local),
            Instr::LocalGet(slice_len_local),
            Instr::I32GeU,
            Instr::BrIf(1),
            Instr::LocalGet(base_string_local),
            Instr::I32Const(8i32),
            Instr::I32Add,
            Instr::LocalGet(slice_start_local),
            Instr::I32Add,
            Instr::LocalGet(compare_idx_local),
            Instr::I32Add,
            Instr::I32Load8U(MemArg { offset: 0, align: 0 }),
            Instr::LocalGet(string_local),
            Instr::I32Const(8i32),
            Instr::I32Add,
            Instr::LocalGet(compare_idx_local),
            Instr::I32Add,
            Instr::I32Load8U(MemArg { offset: 0, align: 0 }),
            Instr::I32Ne,
            Instr::If(BlockTy::Empty),
            Instr::I32Const(0i32),
            Instr::LocalSet(result_local),
            Instr::Br(2),
            Instr::End,
            Instr::LocalGet(compare_idx_local),
            Instr::I32Const(1i32),
            Instr::I32Add,
            Instr::LocalSet(compare_idx_local),
            Instr::Br(0),
            Instr::End,
            Instr::End,
            Instr::End,
        ];
        out.append(&mut v);
    }

    /// The instructions that `emit_string_slice_equals_string_value_from_locals` appends.
    pub open spec fn spec_emit_string_slice_equals_string_value_from_locals(&self, base_string_local: u32, slice_start_local: u32, slice_len_local: u32, string: ValueId, result_local: u32, compare_idx_local: u32) -> Seq<Instr> {
        seq![
            Instr::I32Const(0i32),
            Instr::LocalSet(result_local),
            Instr::LocalGet(slice_len_local),
            Instr::LocalGet(self.spec_local(string)),
            Instr::I32Load(MemArg { offset: 0, align: 2 }),
            Instr::I32Eq,
            Instr::If(BlockTy::Empty),
            Instr::I32Const(0i32),
            Instr::LocalSet(compare_idx_local),
            Instr::I32Const(1i32),
            Instr::LocalSet(result_local),
            Instr::Block(BlockTy::Empty),
            Instr::Loop(BlockTy::Empty),
            Instr::LocalGet(compare_idx_local),
            Instr::LocalGet(slice_len_local),
            Instr::I32GeU,
            Instr::BrIf(1),
            Instr::LocalGet(base_string_local),
            Instr::I32Const(8i32),
            Instr::I32Add,
            Instr::LocalGet(slice_start_local),
            Instr::I32Add,
            Instr::LocalGet(compare_idx_local),
            Instr::I32Add,
            Instr::I32Load8U(MemArg { offset: 0, align: 0 }),
            Instr::LocalGet(self.spec_local(string)),
            Instr::I32Const(8i32),
            Instr::I32Add,
            Instr::LocalGet(compare_idx_local),
            Instr::I32Add,
            Instr::I32Load8U(MemArg { offset: 0, align: 0 }),
            Instr::I32Ne,
            Instr::If(BlockTy::Empty),
            Instr::I32Const(0i32),
            Instr::LocalSet(result_local),
            Instr::Br(2),
            Instr::End,
            Instr::LocalGet(compare_idx_local),
            Instr::I32Const(1i32),
            Instr::I32Add,
            Instr::LocalSet(compare_idx_local),
            Instr::Br(0),
            Instr::End,
            Instr::End,
            Instr::End,
        ]
    }

    /// Appends the instructions of `emit_string_slice_equals_string_value_from_locals`.
    pub(crate) fn emit_string_slice_equals_string_value_from_locals(&self, out: &mut Vec<Instr>, base_string_local: u32, slice_start_local: u32, slice_len_local: u32, string: ValueId, result_local: u32, compare_idx_local: u32)
        requires
            self.wf(),
            self.value_ok(string),
        ensures
            final(out)@ == old(out)@ + self.spec_emit_string_slice_equals_string_value_from_locals(base_string_local, slice_start_local, slice_len_local, string, result_local, compare_idx_local),
    {
        let mut v: Vec<Instr> = vec![
            Instr::I32Const(0i32),
            Instr::LocalSet(result_local),
            Instr::LocalGet(slice_len_local),
            Instr::LocalGet(self.local_for(string)),
            Instr::I32Load(MemArg { offset: 0, align: 2 }),
            Instr::I32Eq,
            Instr::If(BlockTy::Empty),
            Instr::I32Const(0i32),
            Instr::LocalSet(compare_idx_local),
            Instr::I32Const(1i32),
            Instr::LocalSet(result_local),
            Instr::Block(BlockTy::Empty),
            Instr::Loop(BlockTy::Empty),
            Instr::LocalGet(compare_idx_local),
            Instr::LocalGet(slice_len_local),
            Instr::I32GeU,
            Instr::BrIf(1),
            Instr::LocalGet(base_string_local),
            Instr::I32Const(8i32),
            Instr::I32Add,
            Instr::LocalGet(slice_start_local),
            Instr::I32Add,
            Instr::LocalGet(compare_idx_local),
            Instr::I32Add,
            Instr::I32Load8U(MemArg { offset: 0, align: 0 }),
            Instr::LocalGet(self.local_for(string)),
            Instr::I32Const(8i32),
            Instr::I32Add,
            Instr::LocalGet(compare_idx_local),
            Instr::I32Add,
            Instr::I32Load8U(MemArg { offset: 0, align: 0 }),
            Instr::I32Ne,
            Instr::If(BlockTy::Empty),
            Instr::I32Const(0i32),
            Instr::LocalSet(result_local),
            Instr::Br(2),
            Instr::End,
            Instr::LocalGet(compare_idx_local),
            Instr::I32Const(1i32),
            Instr::I32Add,
            Instr::LocalSet(compare_idx_local),
            Instr::Br(0),
            Instr::End,
            Instr::End,
            Instr::End,
        ];
        out.append(&mut v);
    }

    /// The instructions that `emit_string_concat` appends.
    pub open spec fn spec_emit_string_concat(&self, lhs: ValueId, rhs: ValueId) -> Seq<Instr> {
        seq![
            Instr::LocalGet(self.spec_local(lhs)),
            Instr::I32Load(MemArg { offset: 0, align: 2 }),
            Instr::LocalSet(self.scratch_i32),
            Instr::LocalGet(self.spec_local(rhs)),
            Instr::I32Load(MemArg { offset: 0, align: 2 }),
            Instr::LocalSet(self.scratch_i32_2),
            Instr::LocalGet(self.spec_local(lhs)),
            Instr::I32Load(MemArg { offset: 4, align: 2 }),
            Instr::LocalSet(self.scratch_i32_3),
            Instr::LocalGet(self.spec_local(rhs)),
            Instr::I32Load(MemArg { offset: 4, align: 2 }),
            Instr::LocalSet(self.scratch_i32_4),
            Instr::LocalGet(self.scratch_i32),
            Instr::LocalGet(self.scratch_i32_2),
            Instr::I32Add,
            Instr::I32Const(8i32),
            Instr::I32Add,
            Instr::Call(self.ctx.alloc_fn_index),
            Instr::LocalSet(self.scratch_i32_5),
            Instr::LocalGet(self.scratch_i32_5),
            Instr::LocalGet(self.scratch_i32),
            Instr::LocalGet(self.scratch_i32_2),
            Instr::I32Add,
            Instr::I32Store(MemArg { offset: 0, align: 2 }),
            Instr::LocalGet(self.scratch_i32_5),
            Instr::LocalGet(self.scratch_i32_3),
            Instr::LocalGet(self.scratch_i32_4),
            Instr::I32Add,
            Instr::I32Store(MemArg { offset: 4, align: 2 }),
            Instr::LocalGet(self.scratch_i32_5),
            Instr::I32Const(8i32),
            Instr::I32Add,
            Instr::LocalGet(self.spec_local(lhs)),
            Instr::I32Const(8i32),
            Instr::I32Add,
            Instr::LocalGet(self.scratch_i32),
            Instr::MemoryCopy { src_mem: 0, dst_mem: 0 },
            Instr::LocalGet(self.scratch_i32_5),
            Instr::I32Const(8i32),
            Instr::I32Add,
            Instr::LocalGet(self.scratch_i32),
            Instr::I32Add,
            Instr::LocalGet(self.spec_local(rhs)),
            Instr::I32Const(8i32),
            Instr::I32Add,
            Instr::LocalGet(self.scratch_i32_2),
            Instr::MemoryCopy { src_mem: 0, dst_mem: 0 },
            Instr::LocalGet(self.scratch_i32_5),
        ]
    }

    /// Appends the instructions of `emit_string_concat`.
    pub(crate) fn emit_string_concat(&self, out: &mut Vec<Instr>, lhs: ValueId, rhs: ValueId)
        requires
            self.wf(),
            self.value_ok(lhs),
            self.value_ok(rhs),
        ensures
            final(out)@ == old(out)@ + self.spec_emit_string_concat(lhs, rhs),
    {
        let mut v: Vec<Instr> = vec![
            Instr::LocalGet(self.local_for(lhs)),
            Instr::I32Load(MemArg { offset: 0, align: 2 }),
            Instr::LocalSet(self.scratch_i32),
            Instr::LocalGet(self.local_for(rhs)),
            Instr::I32Load(MemArg { offset: 0, align: 2 }),
            Instr::LocalSet(self.scratch_i32_2),
            Instr::LocalGet(self.local_for(lhs)),
            Instr::I32Load(MemArg { offset: 4, align: 2 }),
            Instr::LocalSet(self.scratch_i32_3),
            Instr::LocalGet(self.local_for(rhs)),
            Instr::I32Load(MemArg { offset: 4, align: 2 }),
            Instr::LocalSet(self.scratch_i32_4),
            Instr::LocalGet(self.scratch_i32),
            Instr::LocalGet(self.scratch_i32_2),
            Instr::I32Add,
            Instr::I32Const(8i32),
            Instr::I32Add,
            Instr::Call(self.ctx.alloc_fn_index),
            Instr::LocalSet(self.scratch_i32_5),
            Instr::LocalGet(self.scratch_i32_5),
            Instr::LocalGet(self.scratch_i32),
            Instr::LocalGet(self.scratch_i32_2),
            Instr::I32Add,
            Instr::I32Store(MemArg { offset: 0, align: 2 }),
            Instr::LocalGet(self.scratch_i32_5),
            Instr::LocalGet(self.scratch_i32_3),
            Instr::LocalGet(self.scratch_i32_4),
            Instr::I32Add,
            Instr::I32Store(MemArg { offset: 4, align: 2 }),
            Instr::LocalGet(self.scratch_i32_5),
            Instr::I32Const(8i32),
            Instr::I32Add,
            Instr::LocalGet(self.local_for(lhs)),
            Instr::I32Const(8i32),
            Instr::I32Add,
            Instr::LocalGet(self.scratch_i32),
            Instr::MemoryCopy { src_mem: 0, dst_mem: 0 },
            Instr::LocalGet(self.scratch_i32_5),
            Instr::I32Const(8i32),
            Instr::I32Add,
            Instr::LocalGet(self.scratch_i32),
            Instr::I32Add,
            Instr::LocalGet(self.local_for(rhs)),
            Instr::I32Const(8i32),
            Instr::I32Add,
            Instr::LocalGet(self.scratch_i32_2),
            Instr::MemoryCopy { src_mem: 0, dst_mem: 0 },
            Instr::LocalGet(self.scratch_i32_5),
        ];
        out.append(&mut v);
    }

    /// The instructions that `emit_char_to_string` appends.
    pub open spec fn spec_emit_char_to_string(&self, value: ValueId) -> Seq<Instr> {
        seq![
            Instr::I32Const(4i32),
            Instr::LocalSet(self.scratch_i32),
            Instr::LocalGet(self.spec_local(value)),
            Instr::I32Const(0x10000),
            Instr::I32LtU,
            Instr::If(BlockTy::Empty),
            Instr::I32Const(3i32),
            Instr::LocalSet(self.scratch_i32),
            Instr::LocalGet(self.spec_local(value)),
            Instr::I32Const(0x800),
            Instr::I32LtU,
            Instr::If(BlockTy::Empty),
            Instr::I32Const(2i32),
            Instr::LocalSet(self.scratch_i32),
            Instr::LocalGet(self.spec_local(value)),
            Instr::I32Const(0x80),
            Instr::I32LtU,
            Instr::If(BlockTy::Empty),
            Instr::I32Const(1i32),
            Instr::LocalSet(self.scratch_i32),
            Instr::End,
            Instr::End,
            Instr::End,
            Instr::LocalGet(self.scratch_i32),
            Instr::I32Const(8i32),
            Instr::I32Add,
            Instr::Call(self.ctx.alloc_fn_index),
            Instr::LocalSet(self.scratch_i32_2),
            Instr::LocalGet(self.scratch_i32_2),
            Instr::LocalGet(self.scratch_i32),
            Instr::I32Store(MemArg { offset: 0, align: 2 }),
            Instr::LocalGet(self.scratch_i32_2),
            Instr::I32Const(1i32),
            Instr::I32Store(MemArg { offset: 4, align: 2 }),
            Instr::LocalGet(self.scratch_i32),
            Instr::I32Const(1i32),
            Instr::I32Eq,
            Instr::If(BlockTy::Empty),
            Instr::LocalGet(self.scratch_i32_2),
            Instr::LocalGet(self.spec_local(value)),
            Instr::I32Store8(MemArg { offset: 8, align: 0 }),
            Instr::Else,
            Instr::LocalGet(self.scratch_i32),
            Instr::I32Const(2i32),
            Instr::I32Eq,
            Instr::If(BlockTy::Empty),
            Instr::LocalGet(self.scratch_i32_2),
            Instr::LocalGet(self.spec_local(value)),
            Instr::I32Const(6i32),
            Instr::I32ShrU,
            Instr::I32Const(0xC0),
            Instr::I32Or,
            Instr::I32Store8(MemArg { offset: 8, align: 0 }),
            Instr::LocalGet(self.scratch_i32_2),
            Instr::LocalGet(self.spec_local(value)),
            Instr::I32Const(0x3F),
            Instr::I32And,
            Instr::I32Const(0x80),
            Instr::I32Or,
            Instr::I32Store8(MemArg { offset: 9, align: 0 }),
            Instr::Else,
            Instr::LocalGet(self.scratch_i32),
            Instr::I32Const(3i32),
            Instr::I32Eq,
            Instr::If(BlockTy::Empty),
            Instr::LocalGet(self.scratch_i32_2),
            Instr::LocalGet(self.spec_local(value)),
            Instr::I32Const(12i32),
            Instr::I32ShrU,
            Instr::I32Const(0xE0),
            Instr::I32Or,
            Instr::I32Store8(MemArg { offset: 8, align: 0 }),
            Instr::LocalGet(self.scratch_i32_2),
            Instr::LocalGet(self.spec_local(value)),
            Instr::I32Const(6i32),
            Instr::I32ShrU,
            Instr::I32Const(0x3F),
            Instr::I32And,
            Instr::I32Const(0x80),
            Instr::I32Or,
            Instr::I32Store8(MemArg { offset: 9, align: 0 }),
            Instr::LocalGet(self.scratch_i32_2),
            Instr::LocalGet(self.spec_local(value)),
            Instr::I32Const(0x3F),
            Instr::I32And,
            Instr::I32Const(0x80),
            Instr::I32Or,
            Instr::I32Store8(MemArg { offset: 10, align: 0 }),
            Instr::Else,
            Instr::LocalGet(self.scratch_i32_2),
            Instr::LocalGet(self.spec_local(value)),
            Instr::I32Const(18i32),
            Instr::I32ShrU,
            Instr::I32Const(0xF0),
            Instr::I32Or,
            Instr::I32Store8(MemArg { offset: 8, align: 0 }),
            Instr::LocalGet(self.scratch_i32_2),
            Instr::LocalGet(self.spec_local(value)),
            Instr::I32Const(12i32),
            Instr::I32ShrU,
            Instr::I32Const(0x3F),
            Instr::I32And,
            Instr::I32Const(0x80),
            Instr::I32Or,
            Instr::I32Store8(MemArg { offset: 9, align: 0 }),
            Instr::LocalGet(self.scratch_i32_2),
            Instr::LocalGet(self.spec_local(value)),
            Instr::I32Const(6i32),
            Instr::I32ShrU,
            Instr::I32Const(0x3F),
            Instr::I32And,
            Instr::I32Const(0x80),
            Instr::I32Or,
            Instr::I32Store8(MemArg { offset: 10, align: 0 }),
            Instr::LocalGet(self.scratch_i32_2),
            Instr::LocalGet(self.spec_local(value)),
            Instr::I32Const(0x3F),
            Instr::I32And,
            Instr::I32Const(0x80),
            Instr::I32Or,
            Instr::I32Store8(MemArg { offset: 11, align: 0 }),
            Instr::End,
            Instr::End,
            Instr::End,
            Instr::LocalGet(self.scratch_i32_2),
        ]
    }

    /// Appends the instructions of `emit_char_to_string`.
    pub(crate) fn emit_char_to_string(&self, out: &mut Vec<Instr>, value: ValueId)
        requires
            self.wf(),
            self.value_ok(value),
        ensures
            final(out)@ == old(out)@ + self.spec_emit_char_to_string(value),
    {
        let mut v: Vec<Instr> = vec![
            Instr::I32Const(4i32),
            Instr::LocalSet(self.scratch_i32),
            Instr::LocalGet(self.local_for(value)),
            Instr::I32Const(0x10000),
            Instr::I32LtU,
            Instr::If(BlockTy::Empty),
            Instr::I32Const(3i32),
            Instr::LocalSet(self.scratch_i32),
            Instr::LocalGet(self.local_for(value)),
            Instr::I32Const(0x800),
            Instr::I32LtU,
            Instr::If(BlockTy::Empty),
            Instr::I32Const(2i32),
            Instr::LocalSet(self.scratch_i32),
            Instr::LocalGet(self.local_for(value)),
            Instr::I32Const(0x80),
            Instr::I32LtU,
            Instr::If(BlockTy::Empty),
            Instr::I32Const(1i32),
            Instr::LocalSet(self.scratch_i32),
            Instr::End,
            Instr::End,
            Instr::End,
            Instr::LocalGet(self.scratch_i32),
            Instr::I32Const(8i32),
            Instr::I32Add,
            Instr::Call(self.ctx.alloc_fn_index),
            Instr::LocalSet(self.scratch_i32_2),
            Instr::LocalGet(self.scratch_i32_2),
            Instr::LocalGet(self.scratch_i32),
            Instr::I32Store(MemArg { offset: 0, align: 2 }),
            Instr::LocalGet(self.scratch_i32_2),
            Instr::I32Const(1i32),
            Instr::I32Store(MemArg { offset: 4, align: 2 }),
            Instr::LocalGet(self.scratch_i32),
            Instr::I32Const(1i32),
            Instr::I32Eq,
            Instr::If(BlockTy::Empty),
            Instr::LocalGet(self.scratch_i32_2),
            Instr::LocalGet(self.local_for(value)),
            Instr::I32Store8(MemArg { offset: 8, align: 0 }),
            Instr::Else,
            Instr::LocalGet(self.scratch_i32),
            Instr::I32Const(2i32),
            Instr::I32Eq,
            Instr::If(BlockTy::Empty),
            Instr::LocalGet(self.scratch_i32_2),
            Instr::LocalGet(self.local_for(value)),
            Instr::I32Const(6i32),
            Instr::I32ShrU,
            Instr::I32Const(0xC0),
            Instr::I32Or,
            Instr::I32Store8(MemArg { offset: 8, align: 0 }),
            Instr::LocalGet(self.scratch_i32_2),
            Instr::LocalGet(self.local_for(value)),
            Instr::I32Const(0x3F),
            Instr::I32And,
            Instr::I32Const(0x80),
            Instr::I32Or,
            Instr::I32Store8(MemArg { offset: 9, align: 0 }),
            Instr::Else,
            Instr::LocalGet(self.scratch_i32),
            Instr::I32Const(3i32),
            Instr::I32Eq,
            Instr::If(BlockTy::Empty),
            Instr::LocalGet(self.scratch_i32_2),
            Instr::LocalGet(self.local_for(value)),
            Instr::I32Const(12i32),
            Instr::I32ShrU,
            Instr::I32Const(0xE0),
            Instr::I32Or,
            Instr::I32Store8(MemArg { offset: 8, align: 0 }),
            Instr::LocalGet(self.scratch_i32_2),
            Instr::LocalGet(self.local_for(value)),
            Instr::I32Const(6i32),
            Instr::I32ShrU,
            Instr::I32Const(0x3F),
            Instr::I32And,
            Instr::I32Const(0x80),
            Instr::I32Or,
            Instr::I32Store8(MemArg { offset: 9, align: 0 }),
            Instr::LocalGet(self.scratch_i32_2),
            Instr::LocalGet(self.local_for(value)),
            Instr::I32Const(0x3F),
            Instr::I32And,
            Instr::I32Const(0x80),
            Instr::I32Or,
            Instr::I32Store8(MemArg { offset: 10, align: 0 }),
            Instr::Else,
            Instr::LocalGet(self.scratch_i32_2),
            Instr::LocalGet(self.local_for(value)),
            Instr::I32Const(18i32),
            Instr::I32ShrU,
            Instr::I32Const(0xF0),
            Instr::I32Or,
            Instr::I32Store8(MemArg { offset: 8, align: 0 }),
            Instr::LocalGet(self.scratch_i32_2),
            Instr::LocalGet(self.local_for(value)),
            Instr::I32Const(12i32),
            Instr::I32ShrU,
            Instr::I32Const(0x3F),
            Instr::I32And,
            Instr::I32Const(0x80),
            Instr::I32Or,
            Instr::I32Store8(MemArg { offset: 9, align: 0 }),
            Instr::LocalGet(self.scratch_i32_2),
            Instr::LocalGet(self.local_for(value)),
            Instr::I32Const(6i32),
            Instr::I32ShrU,
            Instr::I32Const(0x3F),
            Instr::I32And,
            Instr::I32Const(0x80),
            Instr::I32Or,
            Instr::I32Store8(MemArg { offset: 10, align: 0 }),
            Instr::LocalGet(self.scratch_i32_2),
            Instr::LocalGet(self.local_for(value)),
            Instr::I32Const(0x3F),
            Instr::I32And,
            Instr::I32Const(0x80),
            Instr::I32Or,
            Instr::I32Store8(MemArg { offset: 11, align: 0 }),
            Instr::End,
            Instr::End,
            Instr::End,
            Instr::LocalGet(self.scratch_i32_2),
        ];
        out.append(&mut v);
    }

    /// The instructions that `emit_int_to_string` appends.
    pub open spec fn spec_emit_int_to_string(&self, value: ValueId) -> Seq<Instr> {
        seq![
            Instr::LocalGet(self.spec_local(value)),
            Instr::LocalSet(self.scratch_i64),
            Instr::LocalGet(self.spec_local(value)),
            Instr::I64Const(0i64),
            Instr::I64LtS,
            Instr::LocalSet(self.scratch_i32_2),
            Instr::I32Const(0i32),
            Instr::LocalSet(self.scratch_i32),
            Instr::Block(BlockTy::Empty),
            Instr::Loop(BlockTy::Empty),
            Instr::LocalGet(self.scratch_i32),
            Instr::I32Const(1i32),
            Instr::I32Add,
            Instr::LocalSet(self.scratch_i32),
            Instr::LocalGet(self.scratch_i64),
            Instr::I64Const(10i64),
            Instr::I64DivS,
            Instr::LocalSet(self.scratch_i64),
            Instr::LocalGet(self.scratch_i64),
            Instr::I64Eqz,
            Instr::BrIf(1),
            Instr::Br(0),
            Instr::End,
            Instr::End,
            Instr::LocalGet(self.scratch_i32_2),
            Instr::If(BlockTy::Empty),
            Instr::LocalGet(self.scratch_i32),
            Instr::I32Const(1i32),
            Instr::I32Add,
            Instr::LocalSet(self.scratch_i32),
            Instr::End,
            Instr::LocalGet(self.scratch_i32),
            Instr::I32Const(8i32),
            Instr::I32Add,
            Instr::Call(self.ctx.alloc_fn_index),
            Instr::LocalSet(self.scratch_i32_3),
            Instr::LocalGet(self.scratch_i32_3),
            Instr::LocalGet(self.scratch_i32),
            Instr::I32Store(MemArg { offset: 0, align: 2 }),
            Instr::LocalGet(self.scratch_i32_3),
            Instr::LocalGet(self.scratch_i32),
            Instr::I32Store(MemArg { offset: 4, align: 2 }),
            Instr::LocalGet(self.scratch_i32_3),
            Instr::I32Const(8i32),
            Instr::I32Add,
            Instr::LocalGet(self.scratch_i32),
            Instr::I32Add,
            Instr::LocalSet(self.scratch_i32_4),
            Instr::LocalGet(self.spec_local(value)),
            Instr::LocalSet(self.scratch_i64),
            Instr::Block(BlockTy::Empty),
            Instr::Loop(BlockTy::Empty),
            Instr::LocalGet(self.scratch_i64),
            Instr::I64Const(10i64),
            Instr::I64RemS,
            Instr::I32WrapI64,
            Instr::LocalSet(self.scratch_i32_5),
            Instr::LocalGet(self.scratch_i32_5),
            Instr::I32Const(0i32),
            Instr::I32LtS,
            Instr::If(BlockTy::Empty),
            Instr::I32Const(0i32),
            Instr::LocalGet(self.scratch_i32_5),
            Instr::I32Sub,
            Instr::LocalSet(self.scratch_i32_5),
            Instr::End,
            Instr::LocalGet(self.scratch_i32_4),
            Instr::I32Const(1i32),
            Instr::I32Sub,
            Instr::LocalSet(self.scratch_i32_4),
            Instr::LocalGet(self.scratch_i32_4),
            Instr::LocalGet(self.scratch_i32_5),
            Instr::I32Const(48i32),
            Instr::I32Add,
            Instr::I32Store8(MemArg { offset: 0, align: 0 }),
            Instr::LocalGet(self.scratch_i64),
            Instr::I64Const(10i64),
            Instr::I64DivS,
            Instr::LocalSet(self.scratch_i64),
            Instr::LocalGet(self.scratch_i64),
            Instr::I64Eqz,
            Instr::BrIf(1),
            Instr::Br(0),
            Instr::End,
            Instr::End,
            Instr::LocalGet(self.scratch_i32_2),
            Instr::If(BlockTy::Empty),
            Instr::LocalGet(self.scratch_i32_4),
            Instr::I32Const(1i32),
            Instr::I32Sub,
            Instr::LocalSet(self.scratch_i32_4),
            Instr::LocalGet(self.scratch_i32_4),
            Instr::I32Const(45i32),
            Instr::I32Store8(MemArg { offset: 0, align: 0 }),
            Instr::End,
            Instr::LocalGet(self.scratch_i32_3),
        ]
    }

    /// Appends the instructions of `emit_int_to_string`.
    pub(crate) fn emit_int_to_string(&self, out: &mut Vec<Instr>, value: ValueId)
        requires
            self.wf(),
            self.value_ok(value),
        ensures
            final(out)@ == old(out)@ + self.spec_emit_int_to_string(value),
    {
        let mut v: Vec<Instr> = vec![
            Instr::LocalGet(self.local_for(value)),
            Instr::LocalSet(self.scratch_i64),
            Instr::LocalGet(self.local_for(value)),
            Instr::I64Const(0i64),
            Instr::I64LtS,
            Instr::LocalSet(self.scratch_i32_2),
            Instr::I32Const(0i32),
            Instr::LocalSet(self.scratch_i32),
            Instr::Block(BlockTy::Empty),
            Instr::Loop(BlockTy::Empty),
            Instr::LocalGet(self.scratch_i32),
            Instr::I32Const(1i32),
            Instr::I32Add,
            Instr::LocalSet(self.scratch_i32),
            Instr::LocalGet(self.scratch_i64),
            Instr::I64Const(10i64),
            Instr::I64DivS,
            Instr::LocalSet(self.scratch_i64),
            Instr::LocalGet(self.scratch_i64),
            Instr::I64Eqz,
            Instr::BrIf(1),
            Instr::Br(0),
            Instr::End,
            Instr::End,
            Instr::LocalGet(self.scratch_i32_2),
            Instr::If(BlockTy::Empty),
            Instr::LocalGet(self.scratch_i32),
            Instr::I32Const(1i32),
            Instr::I32Add,
            Instr::LocalSet(self.scratch_i32),
            Instr::End,
            Instr::LocalGet(self.scratch_i32),
            Instr::I32Const(8i32),
            Instr::I32Add,
            Instr::Call(self.ctx.alloc_fn_index),
            Instr::LocalSet(self.scratch_i32_3),
            Instr::LocalGet(self.scratch_i32_3),
            Instr::LocalGet(self.scratch_i32),
            Instr::I32Store(MemArg { offset: 0, align: 2 }),
            Instr::LocalGet(self.scratch_i32_3),
            Instr::LocalGet(self.scratch_i32),
            Instr::I32Store(MemArg { offset: 4, align: 2 }),
            Instr::LocalGet(self.scratch_i32_3),
            Instr::I32Const(8i32),
            Instr::I32Add,
            Instr::LocalGet(self.scratch_i32),
            Instr::I32Add,
            Instr::LocalSet(self.scratch_i32_4),
            Instr::LocalGet(self.local_for(value)),
            Instr::LocalSet(self.scratch_i64),
            Instr::Block(BlockTy::Empty),
            Instr::Loop(BlockTy::Empty),
            Instr::LocalGet(self.scratch_i64),
            Instr::I64Const(10i64),
            Instr::I64RemS,
            Instr::I32WrapI64,
            Instr::LocalSet(self.scratch_i32_5),
            Instr::LocalGet(self.scratch_i32_5),
            Instr::I32Const(0i32),
            Instr::I32LtS,
            Instr::If(BlockTy::Empty),
            Instr::I32Const(0i32),
            Instr::LocalGet(self.scratch_i32_5),
            Instr::I32Sub,
            Instr::LocalSet(self.scratch_i32_5),
            Instr::End,
            Instr::LocalGet(self.scratch_i32_4),
            Instr::I32Const(1i32),
            Instr::I32Sub,
            Instr::LocalSet(self.scratch_i32_4),
            Instr::LocalGet(self.scratch_i32_4),
            Instr::LocalGet(self.scratch_i32_5),
            Instr::I32Const(48i32),
            Instr::I32Add,
            Instr::I32Store8(MemArg { offset: 0, align: 0 }),
            Instr::LocalGet(self.scratch_i64),
            Instr::I64Const(10i64),
            Instr::I64DivS,
            Instr::LocalSet(self.scratch_i64),
            Instr::LocalGet(self.scratch_i64),
            Instr::I64Eqz,
            Instr::BrIf(1),
            Instr::Br(0),
            Instr::End,
            Instr::End,
            Instr::LocalGet(self.scratch_i32_2),
            Instr::If(BlockTy::Empty),
            Instr::LocalGet(self.scratch_i32_4),
            Instr::I32Const(1i32),
            Instr::I32Sub,
            Instr::LocalSet(self.scratch_i32_4),
            Instr::LocalGet(self.scratch_i32_4),
            Instr::I32Const(45i32),
            Instr::I32Store8(MemArg { offset: 0, align: 0 }),
            Instr::End,
            Instr::LocalGet(self.scratch_i32_3),
        ];
        out.append(&mut v);
    }

}

} // verus!

