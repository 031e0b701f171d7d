//! Emission of the core sequence operations: building ranges, characters, lines and splits, and counting and searching them.

use vstd::prelude::*;
use crate::error::{concat3, CodegenError, ErrorKind};
use crate::func::{chain, emits, FuncCodegen};
use crate::instr::{BlockTy, Instr, MemArg, ValTy};
use crate::ir::{Ty, ValueId};
use crate::module::{spec_typed_load};
use crate::text::ty_text;

verus! {

impl<'a> FuncCodegen<'a> {

    /// The instructions that `emit_seq_range` appends.
    pub open spec fn spec_emit_seq_range(&self, start: ValueId, end: ValueId) -> Seq<Instr> {
        seq![
            Instr::I32Const(24i32),
            Instr::Call(self.ctx.alloc_fn_index),
            Instr::Drop,
            Instr::GlobalGet(0),
            Instr::I32Const(24i32),
            Instr::I32Sub,
            Instr::LocalSet(self.scratch_i32),
            Instr::LocalGet(self.scratch_i32),
            Instr::I32Const(0i32),
            Instr::I32Store(MemArg { offset: 0, align: 2 }),
            Instr::LocalGet(self.scratch_i32),
            Instr::LocalGet(self.spec_local(start)),
            Instr::I64Store(MemArg { offset: 8, align: 3 }),
            Instr::LocalGet(self.scratch_i32),
            Instr::LocalGet(self.spec_local(end)),
            Instr::I64Store(MemArg { offset: 16, align: 3 }),
            Instr::LocalGet(self.scratch_i32),
        ]
    }

    /// Appends the instructions of `emit_seq_range`.
    pub(crate) fn emit_seq_range(&self, out: &mut Vec<Instr>, start: ValueId, end: ValueId)
        requires
            self.wf(),
            self.value_ok(start),
            self.value_ok(end),
        ensures
            final(out)@ == old(out)@ + self.spec_emit_seq_range(start, end),
    {
        let mut v: Vec<Instr> = vec![
            Instr::I32Const(24i32),
            Instr::Call(self.ctx.alloc_fn_index),
            Instr::Drop,
            Instr::GlobalGet(0),
            Instr::I32Const(24i32),
            Instr::I32Sub,
            Instr::LocalSet(self.scratch_i32),
            Instr::LocalGet(self.scratch_i32),
            Instr::I32Const(0i32),
            Instr::I32Store(MemArg { offset: 0, align: 2 }),
            Instr::LocalGet(self.scratch_i32),
            Instr::LocalGet(self.local_for(start)),
            Instr::I64Store(MemArg { offset: 8, align: 3 }),
            Instr::LocalGet(self.scratch_i32),
            Instr::LocalGet(self.local_for(end)),
            Instr::I64Store(MemArg { offset: 16, align: 3 }),
            Instr::LocalGet(self.scratch_i32),
        ];
        out.append(&mut v);
    }

    /// The instructions that `emit_seq_chars` appends.
    pub open spec fn spec_emit_seq_chars(&self, value: ValueId) -> Seq<Instr> {
        seq![
            Instr::I32Const(24i32),
            Instr::Call(self.ctx.alloc_fn_index),
            Instr::Drop,
            Instr::GlobalGet(0),
            Instr::I32Const(24i32),
            Instr::I32Sub,
            Instr::LocalSet(self.scratch_i32),
            Instr::LocalGet(self.scratch_i32),
            Instr::I32Const(1i32),
            Instr::I32Store(MemArg { offset: 0, align: 2 }),
            Instr::LocalGet(self.scratch_i32),
            Instr::LocalGet(self.spec_local(value)),
            Instr::I32Store(MemArg { offset: 8, align: 2 }),
            Instr::LocalGet(self.scratch_i32),
        ]
    }

    /// Appends the instructions of `emit_seq_chars`.
    pub(crate) fn emit_seq_chars(&self, out: &mut Vec<Instr>, value: ValueId)
        requires
            self.wf(),
            self.value_ok(value),
        ensures
            final(out)@ == old(out)@ + self.spec_emit_seq_chars(value),
    {
        let mut v: Vec<Instr> = vec![
            Instr::I32Const(24i32),
            Instr::Call(self.ctx.alloc_fn_index),
            Instr::Drop,
            Instr::GlobalGet(0),
            Instr::I32Const(24i32),
            Instr::I32Sub,
            Instr::LocalSet(self.scratch_i32),
            Instr::LocalGet(self.scratch_i32),
            Instr::I32Const(1i32),
            Instr::I32Store(MemArg { offset: 0, align: 2 }),
            Instr::LocalGet(self.scratch_i32),
            Instr::LocalGet(self.local_for(value)),
            Instr::I32Store(MemArg { offset: 8, align: 2 }),
            Instr::LocalGet(self.scratch_i32),
        ];
        out.append(&mut v);
    }

    /// The instructions that `emit_seq_lines` appends.
    pub open spec fn spec_emit_seq_lines(&self, value: ValueId) -> Seq<Instr> {
        seq![
            Instr::I32Const(24i32),
            Instr::Call(self.ctx.alloc_fn_index),
            Instr::Drop,
            Instr::GlobalGet(0),
            Instr::I32Const(24i32),
            Instr::I32Sub,
            Instr::LocalSet(self.scratch_i32),
            Instr::LocalGet(self.scratch_i32),
            Instr::I32Const(2i32),
            Instr::I32Store(MemArg { offset: 0, align: 2 }),
            Instr::LocalGet(self.scratch_i32),
            Instr::LocalGet(self.spec_local(value)),
            Instr::I32Store(MemArg { offset: 8, align: 2 }),
            Instr::LocalGet(self.scratch_i32),
        ]
    }

    /// Appends the instructions of `emit_seq_lines`.
    pub(crate) fn emit_seq_lines(&self, out: &mut Vec<Instr>, value: ValueId)
        requires
            self.wf(),
            self.value_ok(value),
        ensures
            final(out)@ == old(out)@ + self.spec_emit_seq_lines(value),
    {
        let mut v: Vec<Instr> = vec![
            Instr::I32Const(24i32),
            Instr::Call(self.ctx.alloc_fn_index),
            Instr::Drop,
            Instr::GlobalGet(0),
            Instr::I32Const(24i32),
            Instr::I32Sub,
            Instr::LocalSet(self.scratch_i32),
            Instr::LocalGet(self.scratch_i32),
            Instr::I32Const(2i32),
            Instr::I32Store(MemArg { offset: 0, align: 2 }),
            Instr::LocalGet(self.scratch_i32),
            Instr::LocalGet(self.local_for(value)),
            Instr::I32Store(MemArg { offset: 8, align: 2 }),
            Instr::LocalGet(self.scratch_i32),
        ];
        out.append(&mut v);
    }

    /// The instructions that `emit_seq_split` appends.
    pub open spec fn spec_emit_seq_split(&self, value: ValueId, delim: ValueId) -> Seq<Instr> {
        seq![
            Instr::I32Const(24i32),
            Instr::Call(self.ctx.alloc_fn_index),
            Instr::Drop,
            Instr::GlobalGet(0),
            Instr::I32Const(24i32),
            Instr::I32Sub,
            Instr::LocalSet(self.scratch_i32),
            Instr::LocalGet(self.scratch_i32),
            Instr::I32Const(3i32),
            Instr::I32Store(MemArg { offset: 0, align: 2 }),
            Instr::LocalGet(self.scratch_i32),
            Instr::LocalGet(self.spec_local(value)),
            Instr::I32Store(MemArg { offset: 8, align: 2 }),
            Instr::LocalGet(self.scratch_i32),
            Instr::LocalGet(self.spec_local(delim)),
            Instr::I32Store(MemArg { offset: 12, align: 2 }),
            Instr::LocalGet(self.scratch_i32),
        ]
    }

    /// Appends the instructions of `emit_seq_split`.
    pub(crate) fn emit_seq_split(&self, out: &mut Vec<Instr>, value: ValueId, delim: ValueId)
        requires
            self.wf(),
            self.value_ok(value),
            self.value_ok(delim),
        ensures
            final(out)@ == old(out)@ + self.spec_emit_seq_split(value, delim),
    {
        let mut v: Vec<Instr> = vec![
            Instr::I32Const(24i32),
            Instr::Call(self.ctx.alloc_fn_index),
            Instr::Drop,
            Instr::GlobalGet(0),
            Instr::I32Const(24i32),
            Instr::I32Sub,
            Instr::LocalSet(self.scratch_i32),
            Instr::LocalGet(self.scratch_i32),
            Instr::I32Const(3i32),
            Instr::I32Store(MemArg { offset: 0, align: 2 }),
            Instr::LocalGet(self.scratch_i32),
            Instr::LocalGet(self.local_for(value)),
            Instr::I32Store(MemArg { offset: 8, align: 2 }),
            Instr::LocalGet(self.scratch_i32),
            Instr::LocalGet(self.local_for(delim)),
            Instr::I32Store(MemArg { offset: 12, align: 2 }),
            Instr::LocalGet(self.scratch_i32),
        ];
        out.append(&mut v);
    }

    /// The instructions that `emit_seq_count_chars_from_local` appends.
    pub open spec fn spec_emit_seq_count_chars_from_local(&self, seq_local: u32) -> Seq<Instr> {
        seq![
            Instr::LocalGet(seq_local),
            Instr::I32Load(MemArg { offset: 8, align: 2 }),
            Instr::I32Load(MemArg { offset: 4, align: 2 }),
            Instr::I64ExtendI32U,
        ]
    }

    /// Appends the instructions of `emit_seq_count_chars_from_local`.
    pub(crate) fn emit_seq_count_chars_from_local(&self, out: &mut Vec<Instr>, seq_local: u32)
        requires
            self.wf(),
        ensures
            final(out)@ == old(out)@ + self.spec_emit_seq_count_chars_from_local(seq_local),
    {
        let mut v: Vec<Instr> = vec![
            Instr::LocalGet(seq_local),
            Instr::I32Load(MemArg { offset: 8, align: 2 }),
            Instr::I32Load(MemArg { offset: 4, align: 2 }),
            Instr::I64ExtendI32U,
        ];
        out.append(&mut v);
    }

    /// The instructions that `emit_seq_count_lines_from_local` appends.
    pub open spec fn spec_emit_seq_count_lines_from_local(&self, seq_local: u32) -> Seq<Instr> {
        seq![
            Instr::LocalGet(seq_local),
            Instr::I32Load(MemArg { offset: 8, align: 2 }),
            Instr::LocalSet(self.scratch_i32_3),
            Instr::LocalGet(self.scratch_i32_3),
            Instr::I32Load(MemArg { offset: 0, align: 2 }),
            Instr::LocalSet(self.scratch_i32_2),
            Instr::LocalGet(self.scratch_i32_2),
            Instr::If(BlockTy::Result(ValTy::I64)),
            Instr::I64Const(1i64),
            Instr::LocalSet(self.scratch_i64_3),
            Instr::I32Const(0i32),
            Instr::LocalSet(self.scratch_i32_4),
            Instr::Block(BlockTy::Empty),
            Instr::Loop(BlockTy::Empty),
            Instr::LocalGet(self.scratch_i32_4),
            Instr::LocalGet(self.scratch_i32_2),
            Instr::I32GeU,
            Instr::BrIf(1),
            Instr::LocalGet(self.scratch_i32_3),
            Instr::LocalGet(self.scratch_i32_4),
            Instr::I32Load8U(MemArg { offset: 8, align: 0 }),
            Instr::I32Const(10i32),
            Instr::I32Eq,
            Instr::If(BlockTy::Empty),
            Instr::LocalGet(self.scratch_i32_4),
            Instr::I32Const(1i32),
            Instr::I32Add,
            Instr::LocalGet(self.scratch_i32_2),
            Instr::I32LtU,
            Instr::If(BlockTy::Empty),
            Instr::LocalGet(self.scratch_i64_3),
            Instr::I64Const(1i64),
            Instr::I64Add,
            Instr::LocalSet(self.scratch_i64_3),
            Instr::End,
            Instr::End,
            Instr::LocalGet(self.scratch_i32_4),
            Instr::I32Const(1i32),
            Instr::I32Add,
            Instr::LocalSet(self.scratch_i32_4),
            Instr::Br(0),
            Instr::End,
            Instr::End,
            Instr::LocalGet(self.scratch_i64_3),
            Instr::Else,
            Instr::I64Const(0i64),
            Instr::End,
        ]
    }

    /// Appends the instructions of `emit_seq_count_lines_from_local`.
    pub(crate) fn emit_seq_count_lines_from_local(&self, out: &mut Vec<Instr>, seq_local: u32)
        requires
            self.wf(),
        ensures
            final(out)@ == old(out)@ + self.spec_emit_seq_count_lines_from_local(seq_local),
    {
        let mut v: Vec<Instr> = vec![
            Instr::LocalGet(seq_local),
            Instr::I32Load(MemArg { offset: 8, align: 2 }),
            Instr::LocalSet(self.scratch_i32_3),
            Instr::LocalGet(self.scratch_i32_3),
            Instr::I32Load(MemArg { offset: 0, align: 2 }),
            Instr::LocalSet(self.scratch_i32_2),
            Instr::LocalGet(self.scratch_i32_2),
            Instr::If(BlockTy::Result(ValTy::I64)),
            Instr::I64Const(1i64),
            Instr::LocalSet(self.scratch_i64_3),
            Instr::I32Const(0i32),
            Instr::LocalSet(self.scratch_i32_4),
            Instr::Block(BlockTy::Empty),
            Instr::Loop(BlockTy::Empty),
            Instr::LocalGet(self.scratch_i32_4),
            Instr::LocalGet(self.scratch_i32_2),
            Instr::I32GeU,
            Instr::BrIf(1),
            Instr::LocalGet(self.scratch_i32_3),
            Instr::LocalGet(self.scratch_i32_4),
            Instr::I32Load8U(MemArg { offset: 8, align: 0 }),
            Instr::I32Const(10i32),
            Instr::I32Eq,
            Instr::If(BlockTy::Empty),
            Instr::LocalGet(self.scratch_i32_4),
            Instr::I32Const(1i32),
            Instr::I32Add,
            Instr::LocalGet(self.scratch_i32_2),
            Instr::I32LtU,
            Instr::If(BlockTy::Empty),
            Instr::LocalGet(self.scratch_i64_3),
            Instr::I64Const(1i64),
            Instr::I64Add,
            Instr::LocalSet(self.scratch_i64_3),
            Instr::End,
            Instr::End,
            Instr::LocalGet(self.scratch_i32_4),
            Instr::I32Const(1i32),
            Instr::I32Add,
            Instr::LocalSet(self.scratch_i32_4),
            Instr::Br(0),
            Instr::End,
            Instr::End,
            Instr::LocalGet(self.scratch_i64_3),
            Instr::Else,
            Instr::I64Const(0i64),
            Instr::End,
        ];
        out.append(&mut v);
    }

    /// The instructions that `emit_seq_count_split_from_local` appends.
    pub open spec fn spec_emit_seq_count_split_from_local(&self, seq_local: u32) -> Seq<Instr> {
        seq![
            Instr::LocalGet(seq_local),
            Instr::I32Load(MemArg { offset: 8, align: 2 }),
            Instr::LocalSet(self.scratch_i32_3),
            Instr::LocalGet(seq_local),
            Instr::I32Load(MemArg { offset: 12, align: 2 }),
            Instr::LocalSet(self.scratch_i32_4),
            Instr::LocalGet(self.scratch_i32_4),
            Instr::I32Load(MemArg { offset: 0, align: 2 }),
            Instr::LocalSet(self.scratch_i32_2),
            Instr::LocalGet(self.scratch_i32_2),
            Instr::I32Eqz,
            Instr::If(BlockTy::Result(ValTy::I64)),
        ]
        + self.spec_emit_seq_count_empty_delim_split()
        + seq![Instr::Else]
        + self.spec_emit_seq_count_nonempty_delim_split()
        + seq![Instr::End]
    }

    /// Appends the instructions of `emit_seq_count_split_from_local`.
    pub(crate) fn emit_seq_count_split_from_local(&self, out: &mut Vec<Instr>, seq_local: u32)
        requires
            self.wf(),
        ensures
            final(out)@ == old(out)@ + self.spec_emit_seq_count_split_from_local(seq_local),
    {
        let mut v: Vec<Instr> = vec![
            Instr::LocalGet(seq_local),
            Instr::I32Load(MemArg { offset: 8, align: 2 }),
            Instr::LocalSet(self.scratch_i32_3),
            Instr::LocalGet(seq_local),
            Instr::I32Load(MemArg { offset: 12, align: 2 }),
            Instr::LocalSet(self.scratch_i32_4),
            Instr::LocalGet(self.scratch_i32_4),
            Instr::I32Load(MemArg { offset: 0, align: 2 }),
            Instr::LocalSet(self.scratch_i32_2),
            Instr::LocalGet(self.scratch_i32_2),
            Instr::I32Eqz,
            Instr::If(BlockTy::Result(ValTy::I64)),
        ];
        self.emit_seq_count_empty_delim_split(&mut v);
        let mut w: Vec<Instr> = vec![Instr::Else];
        v.append(&mut w);
        self.emit_seq_count_nonempty_delim_split(&mut v);
        let mut w: Vec<Instr> = vec![Instr::End];
        v.append(&mut w);
        out.append(&mut v);
    }

    /// The instructions that `emit_seq_count_empty_delim_split` appends.
    pub open spec fn spec_emit_seq_count_empty_delim_split(&self) -> Seq<Instr> {
        seq![
            Instr::LocalGet(self.scratch_i32_3),
            Instr::I32Load(MemArg { offset: 4, align: 2 }),
            Instr::I64ExtendI32U,
            Instr::I64Const(2i64),
            Instr::I64Add,
        ]
    }

    /// Appends the instructions of `emit_seq_count_empty_delim_split`.
    pub(crate) fn emit_seq_count_empty_delim_split(&self, out: &mut Vec<Instr>)
        requires
            self.wf(),
        ensures
            final(out)@ == old(out)@ + self.spec_emit_seq_count_empty_delim_split(),
    {
        let mut v: Vec<Instr> = vec![
            Instr::LocalGet(self.scratch_i32_3),
            Instr::I32Load(MemArg { offset: 4, align: 2 }),
            Instr::I64ExtendI32U,
            Instr::I64Const(2i64),
            Instr::I64Add,
        ];
        out.append(&mut v);
    }

    /// The instructions that `emit_seq_count_nonempty_delim_split` appends.
    pub open spec fn spec_emit_seq_count_nonempty_delim_split(&self) -> Seq<Instr> {
        seq![
            Instr::I64Const(1i64),
            Instr::LocalSet(self.scratch_i64_3),
            Instr::LocalGet(self.scratch_i32_3),
            Instr::I32Load(MemArg { offset: 0, align: 2 }),
            Instr::LocalSet(self.scratch_i32_5),
            Instr::I32Const(0i32),
            Instr::LocalSet(self.scratch_i32_6),
            Instr::Block(BlockTy::Empty),
            Instr::Loop(BlockTy::Empty),
            Instr::LocalGet(self.scratch_i32_6),
            Instr::LocalGet(self.scratch_i32_2),
            Instr::I32Add,
            Instr::LocalGet(self.scratch_i32_5),
            Instr::I32GtU,
            Instr::BrIf(1),
            Instr::I32Const(1i32),
            Instr::LocalSet(self.scratch_i32_8),
            Instr::I32Const(0i32),
            Instr::LocalSet(self.scratch_i32_7),
            Instr::Block(BlockTy::Empty),
            Instr::Loop(BlockTy::Empty),
            Instr::LocalGet(self.scratch_i32_7),
            Instr::LocalGet(self.scratch_i32_2),
            Instr::I32GeU,
            Instr::BrIf(1),
            Instr::LocalGet(self.scratch_i32_3),
            Instr::LocalGet(self.scratch_i32_6),
            Instr::I32Add,
            Instr::LocalGet(self.scratch_i32_7),
            Instr::I32Add,
            Instr::I32Load8U(MemArg { offset: 8, align: 0 }),
            Instr::LocalGet(self.scratch_i32_4),
            Instr::LocalGet(self.scratch_i32_7),
            Instr::I32Add,
            Instr::I32Load8U(MemArg { offset: 8, align: 0 }),
            Instr::I32Eq,
            Instr::I32Eqz,
            Instr::If(BlockTy::Empty),
            Instr::I32Const(0i32),
            Instr::LocalSet(self.scratch_i32_8),
            Instr::Br(2),
            Instr::End,
            Instr::LocalGet(self.scratch_i32_7),
            Instr::I32Const(1i32),
            Instr::I32Add,
            Instr::LocalSet(self.scratch_i32_7),
            Instr::Br(0),
            Instr::End,
            Instr::End,
            Instr::LocalGet(self.scratch_i32_8),
            Instr::If(BlockTy::Empty),
            Instr::LocalGet(self.scratch_i64_3),
            Instr::I64Const(i64::MAX),
            Instr::I64Eq,
        ]
        + self.spec_emit_trap_if_true()
        + seq![
            Instr::LocalGet(self.scratch_i64_3),
            Instr::I64Const(1i64),
            Instr::I64Add,
            Instr::LocalSet(self.scratch_i64_3),
            Instr::LocalGet(self.scratch_i32_6),
            Instr::LocalGet(self.scratch_i32_2),
            Instr::I32Add,
            Instr::LocalSet(self.scratch_i32_6),
            Instr::Else,
            Instr::LocalGet(self.scratch_i32_6),
            Instr::I32Const(1i32),
            Instr::I32Add,
            Instr::LocalSet(self.scratch_i32_6),
            Instr::End,
            Instr::Br(0),
            Instr::End,
            Instr::End,
            Instr::LocalGet(self.scratch_i64_3),
        ]
    }

    /// Appends the instructions of `emit_seq_count_nonempty_delim_split`.
    pub(crate) fn emit_seq_count_nonempty_delim_split(&self, out: &mut Vec<Instr>)
        requires
            self.wf(),
        ensures
            final(out)@ == old(out)@ + self.spec_emit_seq_count_nonempty_delim_split(),
    {
        let mut v: Vec<Instr> = vec![
            Instr::I64Const(1i64),
            Instr::LocalSet(self.scratch_i64_3),
            Instr::LocalGet(self.scratch_i32_3),
            Instr::I32Load(MemArg { offset: 0, align: 2 }),
            Instr::LocalSet(self.scratch_i32_5),
            Instr::I32Const(0i32),
            Instr::LocalSet(self.scratch_i32_6),
            Instr::Block(BlockTy::Empty),
            Instr::Loop(BlockTy::Empty),
            Instr::LocalGet(self.scratch_i32_6),
            Instr::LocalGet(self.scratch_i32_2),
            Instr::I32Add,
            Instr::LocalGet(self.scratch_i32_5),
            Instr::I32GtU,
            Instr::BrIf(1),
            Instr::I32Const(1i32),
            Instr::LocalSet(self.scratch_i32_8),
            Instr::I32Const(0i32),
            Instr::LocalSet(self.scratch_i32_7),
            Instr::Block(BlockTy::Empty),
            Instr::Loop(BlockTy::Empty),
            Instr::LocalGet(self.scratch_i32_7),
            Instr::LocalGet(self.scratch_i32_2),
            Instr::I32GeU,
            Instr::BrIf(1),
            Instr::LocalGet(self.scratch_i32_3),
            Instr::LocalGet(self.scratch_i32_6),
            Instr::I32Add,
            Instr::LocalGet(self.scratch_i32_7),
            Instr::I32Add,
            Instr::I32Load8U(MemArg { offset: 8, align: 0 }),
            Instr::LocalGet(self.scratch_i32_4),
            Instr::LocalGet(self.scratch_i32_7),
            Instr::I32Add,
            Instr::I32Load8U(MemArg { offset: 8, align: 0 }),
            Instr::I32Eq,
            Instr::I32Eqz,
            Instr::If(BlockTy::Empty),
            Instr::I32Const(0i32),
            Instr::LocalSet(self.scratch_i32_8),
            Instr::Br(2),
            Instr::End,
            Instr::LocalGet(self.scratch_i32_7),
            Instr::I32Const(1i32),
            Instr::I32Add,
            Instr::LocalSet(self.scratch_i32_7),
            Instr::Br(0),
            Instr::End,
            Instr::End,
            Instr::LocalGet(self.scratch_i32_8),
            Instr::If(BlockTy::Empty),
            Instr::LocalGet(self.scratch_i64_3),
            Instr::I64Const(i64::MAX),
            Instr::I64Eq,
        ];
        self.emit_trap_if_true(&mut v);
        let mut w: Vec<Instr> = vec![
            Instr::LocalGet(self.scratch_i64_3),
            Instr::I64Const(1i64),
            Instr::I64Add,
            Instr::LocalSet(self.scratch_i64_3),
            Instr::LocalGet(self.scratch_i32_6),
            Instr::LocalGet(self.scratch_i32_2),
            Instr::I32Add,
            Instr::LocalSet(self.scratch_i32_6),
            Instr::Else,
            Instr::LocalGet(self.scratch_i32_6),
            Instr::I32Const(1i32),
            Instr::I32Add,
            Instr::LocalSet(self.scratch_i32_6),
            Instr::End,
            Instr::Br(0),
            Instr::End,
            Instr::End,
            Instr::LocalGet(self.scratch_i64_3),
        ];
        v.append(&mut w);
        out.append(&mut v);
    }

    /// The instructions that `emit_seq_contains_lines_from_local` appends.
    pub open spec fn spec_emit_seq_contains_lines_from_local(&self, seq_local: u32, needle: ValueId) -> Seq<Instr> {
        seq![
            Instr::LocalGet(seq_local),
            Instr::I32Load(MemArg { offset: 8, align: 2 }),
            Instr::LocalSet(self.scratch_i32_3),
            Instr::LocalGet(self.spec_local(needle)),
            Instr::LocalSet(self.scratch_i32_5),
            Instr::LocalGet(self.scratch_i32_3),
            Instr::I32Load(MemArg { offset: 0, align: 2 }),
            Instr::LocalSet(self.scratch_i32_4),
            Instr::I32Const(0i32),
            Instr::LocalSet(self.scratch_i32_6),
            Instr::I32Const(0i32),
            Instr::LocalSet(self.scratch_i32_7),
            Instr::I32Const(0i32),
            Instr::LocalSet(self.scratch_i32_8),
            Instr::Block(BlockTy::Empty),
            Instr::Loop(BlockTy::Empty),
            Instr::LocalGet(self.scratch_i32_6),
            Instr::LocalGet(self.scratch_i32_4),
            Instr::I32GeU,
            Instr::BrIf(1),
            Instr::LocalGet(self.scratch_i32_3),
            Instr::I32Const(8i32),
            Instr::I32Add,
            Instr::LocalGet(self.scratch_i32_6),
            Instr::I32Add,
            Instr::I32Load8U(MemArg { offset: 0, align: 0 }),
            Instr::I32Const(10i32),
            Instr::I32Eq,
            Instr::If(BlockTy::Empty),
            Instr::LocalGet(self.scratch_i32_6),
            Instr::LocalGet(self.scratch_i32_7),
            Instr::I32Sub,
            Instr::LocalSet(self.scratch_i32_2),
            Instr::LocalGet(self.scratch_i32_6),
            Instr::LocalGet(self.scratch_i32_7),
            Instr::I32GtU,
            Instr::If(BlockTy::Empty),
            Instr::LocalGet(self.scratch_i32_3),
            Instr::I32Const(8i32),
            Instr::I32Add,
            Instr::LocalGet(self.scratch_i32_6),
            Instr::I32Const(1i32),
            Instr::I32Sub,
            Instr::I32Add,
            Instr::I32Load8U(MemArg { offset: 0, align: 0 }),
            Instr::I32Const(13i32),
            Instr::I32Eq,
            Instr::If(BlockTy::Empty),
            Instr::LocalGet(self.scratch_i32_2),
            Instr::I32Const(1i32),
            Instr::I32Sub,
            Instr::LocalSet(self.scratch_i32_2),
            Instr::End,
            Instr::End,
        ]
        + self.spec_emit_string_slice_equals_string_from_locals(self.scratch_i32_3, self.scratch_i32_7, self.scratch_i32_2, self.scratch_i32_5, self.scratch_i32_8, self.scratch_i32)
        + seq![
            Instr::LocalGet(self.scratch_i32_8),
            Instr::If(BlockTy::Empty),
            Instr::Br(3),
            Instr::End,
            Instr::LocalGet(self.scratch_i32_6),
            Instr::I32Const(1i32),
            Instr::I32Add,
            Instr::LocalSet(self.scratch_i32_7),
            Instr::End,
            Instr::LocalGet(self.scratch_i32_6),
            Instr::I32Const(1i32),
            Instr::I32Add,
            Instr::LocalSet(self.scratch_i32_6),
            Instr::Br(0),
            Instr::End,
            Instr::End,
            Instr::LocalGet(self.scratch_i32_8),
            Instr::I32Eqz,
            Instr::If(BlockTy::Empty),
            Instr::LocalGet(self.scratch_i32_7),
            Instr::LocalGet(self.scratch_i32_4),
            Instr::I32LtU,
            Instr::If(BlockTy::Empty),
            Instr::LocalGet(self.scratch_i32_4),
            Instr::LocalGet(self.scratch_i32_7),
            Instr::I32Sub,
            Instr::LocalSet(self.scratch_i32_2),
        ]
        + self.spec_emit_string_slice_equals_string_from_locals(self.scratch_i32_3, self.scratch_i32_7, self.scratch_i32_2, self.scratch_i32_5, self.scratch_i32_8, self.scratch_i32)
        + seq![
            Instr::End,
            Instr::End,
            Instr::LocalGet(self.scratch_i32_8),
        ]
    }

    /// Appends the instructions of `emit_seq_contains_lines_from_local`.
    pub(crate) fn emit_seq_contains_lines_from_local(&self, out: &mut Vec<Instr>, seq_local: u32, needle: ValueId)
        requires
            self.wf(),
            self.value_ok(needle),
        ensures
            final(out)@ == old(out)@ + self.spec_emit_seq_contains_lines_from_local(seq_local, needle),
    {
        let mut v: Vec<Instr> = vec![
            Instr::LocalGet(seq_local),
            Instr::I32Load(MemArg { offset: 8, align: 2 }),
            Instr::LocalSet(self.scratch_i32_3),
            Instr::LocalGet(self.local_for(needle)),
            Instr::LocalSet(self.scratch_i32_5),
            Instr::LocalGet(self.scratch_i32_3),
            Instr::I32Load(MemArg { offset: 0, align: 2 }),
            Instr::LocalSet(self.scratch_i32_4),
            Instr::I32Const(0i32),
            Instr::LocalSet(self.scratch_i32_6),
            Instr::I32Const(0i32),
            Instr::LocalSet(self.scratch_i32_7),
            Instr::I32Const(0i32),
            Instr::LocalSet(self.scratch_i32_8),
            Instr::Block(BlockTy::Empty),
            Instr::Loop(BlockTy::Empty),
            Instr::LocalGet(self.scratch_i32_6),
            Instr::LocalGet(self.scratch_i32_4),
            Instr::I32GeU,
            Instr::BrIf(1),
            Instr::LocalGet(self.scratch_i32_3),
            Instr::I32Const(8i32),
            Instr::I32Add,
            Instr::LocalGet(self.scratch_i32_6),
            Instr::I32Add,
            Instr::I32Load8U(MemArg { offset: 0, align: 0 }),
            Instr::I32Const(10i32),
            Instr::I32Eq,
            Instr::If(BlockTy::Empty),
            Instr::LocalGet(self.scratch_i32_6),
            Instr::LocalGet(self.scratch_i32_7),
            Instr::I32Sub,
            Instr::LocalSet(self.scratch_i32_2),
            Instr::LocalGet(self.scratch_i32_6),
            Instr::LocalGet(self.scratch_i32_7),
            Instr::I32GtU,
            Instr::If(BlockTy::Empty),
            Instr::LocalGet(self.scratch_i32_3),
            Instr::I32Const(8i32),
            Instr::I32Add,
            Instr::LocalGet(self.scratch_i32_6),
            Instr::I32Const(1i32),
            Instr::I32Sub,
            Instr::I32Add,
            Instr::I32Load8U(MemArg { offset: 0, align: 0 }),
            Instr::I32Const(13i32),
            Instr::I32Eq,
            Instr::If(BlockTy::Empty),
            Instr::LocalGet(self.scratch_i32_2),
            Instr::I32Const(1i32),
            Instr::I32Sub,
            Instr::LocalSet(self.scratch_i32_2),
            Instr::End,
            Instr::End,
        ];
        self.emit_string_slice_equals_string_from_locals(&mut v, self.scratch_i32_3, self.scratch_i32_7, self.scratch_i32_2, self.scratch_i32_5, self.scratch_i32_8, self.scratch_i32);
        let mut w: Vec<Instr> = vec![
            Instr::LocalGet(self.scratch_i32_8),
            Instr::If(BlockTy::Empty),
            Instr::Br(3),
            Instr::End,
            Instr::LocalGet(self.scratch_i32_6),
            Instr::I32Const(1i32),
            Instr::I32Add,
            Instr::LocalSet(self.scratch_i32_7),
            Instr::End,
            Instr::LocalGet(self.scratch_i32_6),
            Instr::I32Const(1i32),
            Instr::I32Add,
            Instr::LocalSet(self.scratch_i32_6),
            Instr::Br(0),
            Instr::End,
            Instr::End,
            Instr::LocalGet(self.scratch_i32_8),
            Instr::I32Eqz,
            Instr::If(BlockTy::Empty),
            Instr::LocalGet(self.scratch_i32_7),
            Instr::LocalGet(self.scratch_i32_4),
            Instr::I32LtU,
            Instr::If(BlockTy::Empty),
            Instr::LocalGet(self.scratch_i32_4),
            Instr::LocalGet(self.scratch_i32_7),
            Instr::I32Sub,
            Instr::LocalSet(self.scratch_i32_2),
        ];
        v.append(&mut w);
        self.emit_string_slice_equals_string_from_locals(&mut v, self.scratch_i32_3, self.scratch_i32_7, self.scratch_i32_2, self.scratch_i32_5, self.scratch_i32_8, self.scratch_i32);
        let mut w: Vec<Instr> = vec![
            Instr::End,
            Instr::End,
            Instr::LocalGet(self.scratch_i32_8),
        ];
        v.append(&mut w);
        out.append(&mut v);
    }

    /// The instructions that `emit_seq_contains_split_from_local` appends.
    pub open spec fn spec_emit_seq_contains_split_from_local(&self, seq_local: u32, needle: ValueId) -> Seq<Instr> {
        seq![
            Instr::LocalGet(seq_local),
            Instr::I32Load(MemArg { offset: 8, align: 2 }),
            Instr::LocalSet(self.scratch_i32_3),
            Instr::LocalGet(seq_local),
            Instr::LocalSet(self.scratch_i32_4),
            Instr::LocalGet(self.scratch_i32_3),
            Instr::I32Load(MemArg { offset: 0, align: 2 }),
            Instr::LocalSet(self.scratch_i32_6),
            Instr::LocalGet(self.scratch_i32_4),
            Instr::I32Load(MemArg { offset: 12, align: 2 }),
            Instr::I32Load(MemArg { offset: 0, align: 2 }),
            Instr::I32Eqz,
            Instr::If(BlockTy::Result(ValTy::I32)),
        ]
        + self.spec_emit_seq_contains_empty_delim_split_from_local(self.scratch_i32_3, self.scratch_i32_6, needle)
        + seq![
            Instr::Else,
            Instr::I32Const(0i32),
            Instr::LocalSet(self.scratch_i32_7),
            Instr::I32Const(0i32),
            Instr::LocalSet(self.scratch_i32_2),
            Instr::I32Const(0i32),
            Instr::LocalSet(self.scratch_i32_8),
            Instr::Block(BlockTy::Empty),
            Instr::Loop(BlockTy::Empty),
            Instr::LocalGet(self.scratch_i32_7),
            Instr::LocalGet(self.scratch_i32_4),
            Instr::I32Load(MemArg { offset: 12, align: 2 }),
            Instr::I32Load(MemArg { offset: 0, align: 2 }),
            Instr::I32Add,
            Instr::LocalGet(self.scratch_i32_6),
            Instr::I32GtU,
            Instr::BrIf(1),
            Instr::I32Const(1i32),
            Instr::LocalSet(self.scratch_i32),
            Instr::I32Const(0i32),
            Instr::LocalSet(self.scratch_i32_5),
            Instr::Block(BlockTy::Empty),
            Instr::Loop(BlockTy::Empty),
            Instr::LocalGet(self.scratch_i32_5),
            Instr::LocalGet(self.scratch_i32_4),
            Instr::I32Load(MemArg { offset: 12, align: 2 }),
            Instr::I32Load(MemArg { offset: 0, align: 2 }),
            Instr::I32GeU,
            Instr::BrIf(1),
            Instr::LocalGet(self.scratch_i32_3),
            Instr::I32Const(8i32),
            Instr::I32Add,
            Instr::LocalGet(self.scratch_i32_7),
            Instr::I32Add,
            Instr::LocalGet(self.scratch_i32_5),
            Instr::I32Add,
            Instr::I32Load8U(MemArg { offset: 0, align: 0 }),
            Instr::LocalGet(self.scratch_i32_4),
            Instr::I32Load(MemArg { offset: 12, align: 2 }),
            Instr::I32Const(8i32),
            Instr::I32Add,
            Instr::LocalGet(self.scratch_i32_5),
            Instr::I32Add,
            Instr::I32Load8U(MemArg { offset: 0, align: 0 }),
            Instr::I32Ne,
            Instr::If(BlockTy::Empty),
            Instr::I32Const(0i32),
            Instr::LocalSet(self.scratch_i32),
            Instr::Br(2),
            Instr::End,
            Instr::LocalGet(self.scratch_i32_5),
            Instr::I32Const(1i32),
            Instr::I32Add,
            Instr::LocalSet(self.scratch_i32_5),
            Instr::Br(0),
            Instr::End,
            Instr::End,
            Instr::LocalGet(self.scratch_i32),
            Instr::If(BlockTy::Empty),
            Instr::LocalGet(self.scratch_i32_7),
            Instr::LocalGet(self.scratch_i32_2),
            Instr::I32Sub,
            Instr::LocalSet(self.scratch_i32),
        ]
        + self.spec_emit_string_slice_equals_string_value_from_locals(self.scratch_i32_3, self.scratch_i32_2, self.scratch_i32, needle, self.scratch_i32_8, self.scratch_i32_5)
        + seq![
            Instr::LocalGet(self.scratch_i32_8),
            Instr::If(BlockTy::Empty),
            Instr::Br(3),
            Instr::End,
            Instr::LocalGet(self.scratch_i32_7),
            Instr::LocalGet(self.scratch_i32_4),
            Instr::I32Load(MemArg { offset: 12, align: 2 }),
            Instr::I32Load(MemArg { offset: 0, align: 2 }),
            Instr::I32Add,
            Instr::LocalSet(self.scratch_i32_7),
            Instr::LocalGet(self.scratch_i32_7),
            Instr::LocalSet(self.scratch_i32_2),
            Instr::Else,
            Instr::LocalGet(self.scratch_i32_7),
            Instr::I32Const(1i32),
            Instr::I32Add,
            Instr::LocalSet(self.scratch_i32_7),
            Instr::End,
            Instr::Br(0),
            Instr::End,
            Instr::End,
            Instr::LocalGet(self.scratch_i32_8),
            Instr::I32Eqz,
            Instr::If(BlockTy::Empty),
            Instr::LocalGet(self.scratch_i32_6),
            Instr::LocalGet(self.scratch_i32_2),
            Instr::I32Sub,
            Instr::LocalSet(self.scratch_i32),
        ]
        + self.spec_emit_string_slice_equals_string_value_from_locals(self.scratch_i32_3, self.scratch_i32_2, self.scratch_i32, needle, self.scratch_i32_8, self.scratch_i32_5)
        + seq![
            Instr::End,
            Instr::LocalGet(self.scratch_i32_8),
            Instr::End,
        ]
    }

    /// Appends the instructions of `emit_seq_contains_split_from_local`.
    pub(crate) fn emit_seq_contains_split_from_local(&self, out: &mut Vec<Instr>, seq_local: u32, needle: ValueId)
        requires
            self.wf(),
            self.value_ok(needle),
        ensures
            final(out)@ == old(out)@ + self.spec_emit_seq_contains_split_from_local(seq_local, needle),
    {
        let mut v: Vec<Instr> = vec![
            Instr::LocalGet(seq_local),
            Instr::I32Load(MemArg { offset: 8, align: 2 }),
            Instr::LocalSet(self.scratch_i32_3),
            Instr::LocalGet(seq_local),
            Instr::LocalSet(self.scratch_i32_4),
            Instr::LocalGet(self.scratch_i32_3),
            Instr::I32Load(MemArg { offset: 0, align: 2 }),
            Instr::LocalSet(self.scratch_i32_6),
            Instr::LocalGet(self.scratch_i32_4),
            Instr::I32Load(MemArg { offset: 12, align: 2 }),
            Instr::I32Load(MemArg { offset: 0, align: 2 }),
            Instr::I32Eqz,
            Instr::If(BlockTy::Result(ValTy::I32)),
        ];
        self.emit_seq_contains_empty_delim_split_from_local(&mut v, self.scratch_i32_3, self.scratch_i32_6, needle);
        let mut w: Vec<Instr> = vec![
            Instr::Else,
            Instr::I32Const(0i32),
            Instr::LocalSet(self.scratch_i32_7),
            Instr::I32Const(0i32),
            Instr::LocalSet(self.scratch_i32_2),
            Instr::I32Const(0i32),
            Instr::LocalSet(self.scratch_i32_8),
            Instr::Block(BlockTy::Empty),
            Instr::Loop(BlockTy::Empty),
            Instr::LocalGet(self.scratch_i32_7),
            Instr::LocalGet(self.scratch_i32_4),
            Instr::I32Load(MemArg { offset: 12, align: 2 }),
            Instr::I32Load(MemArg { offset: 0, align: 2 }),
            Instr::I32Add,
            Instr::LocalGet(self.scratch_i32_6),
            Instr::I32GtU,
            Instr::BrIf(1),
            Instr::I32Const(1i32),
            Instr::LocalSet(self.scratch_i32),
            Instr::I32Const(0i32),
            Instr::LocalSet(self.scratch_i32_5),
            Instr::Block(BlockTy::Empty),
            Instr::Loop(BlockTy::Empty),
            Instr::LocalGet(self.scratch_i32_5),
            Instr::LocalGet(self.scratch_i32_4),
            Instr::I32Load(MemArg { offset: 12, align: 2 }),
            Instr::I32Load(MemArg { offset: 0, align: 2 }),
            Instr::I32GeU,
            Instr::BrIf(1),
            Instr::LocalGet(self.scratch_i32_3),
            Instr::I32Const(8i32),
            Instr::I32Add,
            Instr::LocalGet(self.scratch_i32_7),
            Instr::I32Add,
            Instr::LocalGet(self.scratch_i32_5),
            Instr::I32Add,
            Instr::I32Load8U(MemArg { offset: 0, align: 0 }),
            Instr::LocalGet(self.scratch_i32_4),
            Instr::I32Load(MemArg { offset: 12, align: 2 }),
            Instr::I32Const(8i32),
            Instr::I32Add,
            Instr::LocalGet(self.scratch_i32_5),
            Instr::I32Add,
            Instr::I32Load8U(MemArg { offset: 0, align: 0 }),
            Instr::I32Ne,
            Instr::If(BlockTy::Empty),
            Instr::I32Const(0i32),
            Instr::LocalSet(self.scratch_i32),
            Instr::Br(2),
            Instr::End,
            Instr::LocalGet(self.scratch_i32_5),
            Instr::I32Const(1i32),
            Instr::I32Add,
            Instr::LocalSet(self.scratch_i32_5),
            Instr::Br(0),
            Instr::End,
            Instr::End,
            Instr::LocalGet(self.scratch_i32),
            Instr::If(BlockTy::Empty),
            Instr::LocalGet(self.scratch_i32_7),
            Instr::LocalGet(self.scratch_i32_2),
            Instr::I32Sub,
            Instr::LocalSet(self.scratch_i32),
        ];
        v.append(&mut w);
        self.emit_string_slice_equals_string_value_from_locals(&mut v, self.scratch_i32_3, self.scratch_i32_2, self.scratch_i32, needle, self.scratch_i32_8, self.scratch_i32_5);
        let mut w: Vec<Instr> = vec![
            Instr::LocalGet(self.scratch_i32_8),
            Instr::If(BlockTy::Empty),
            Instr::Br(3),
            Instr::End,
            Instr::LocalGet(self.scratch_i32_7),
            Instr::LocalGet(self.scratch_i32_4),
            Instr::I32Load(MemArg { offset: 12, align: 2 }),
            Instr::I32Load(MemArg { offset: 0, align: 2 }),
            Instr::I32Add,
            Instr::LocalSet(self.scratch_i32_7),
            Instr::LocalGet(self.scratch_i32_7),
            Instr::LocalSet(self.scratch_i32_2),
            Instr::Else,
            Instr::LocalGet(self.scratch_i32_7),
            Instr::I32Const(1i32),
            Instr::I32Add,
            Instr::LocalSet(self.scratch_i32_7),
            Instr::End,
            Instr::Br(0),
            Instr::End,
            Instr::End,
            Instr::LocalGet(self.scratch_i32_8),
            Instr::I32Eqz,
            Instr::If(BlockTy::Empty),
            Instr::LocalGet(self.scratch_i32_6),
            Instr::LocalGet(self.scratch_i32_2),
            Instr::I32Sub,
            Instr::LocalSet(self.scratch_i32),
        ];
        v.append(&mut w);
        self.emit_string_slice_equals_string_value_from_locals(&mut v, self.scratch_i32_3, self.scratch_i32_2, self.scratch_i32, needle, self.scratch_i32_8, self.scratch_i32_5);
        let mut w: Vec<Instr> = vec![
            Instr::End,
            Instr::LocalGet(self.scratch_i32_8),
            Instr::End,
        ];
        v.append(&mut w);
        out.append(&mut v);
    }

    /// The instructions that `emit_seq_contains_empty_delim_split_from_local` appends.
    pub open spec fn spec_emit_seq_contains_empty_delim_split_from_local(&self, string_local: u32, string_byte_len_local: u32, needle: ValueId) -> Seq<Instr> {
        seq![
            Instr::LocalGet(self.spec_local(needle)),
            Instr::I32Load(MemArg { offset: 0, align: 2 }),
            Instr::I32Eqz,
            Instr::If(BlockTy::Result(ValTy::I32)),
            Instr::I32Const(1i32),
            Instr::Else,
            Instr::I32Const(0i32),
            Instr::LocalSet(self.scratch_i32_7),
            Instr::I32Const(0i32),
            Instr::LocalSet(self.scratch_i32_8),
            Instr::Block(BlockTy::Empty),
            Instr::Loop(BlockTy::Empty),
            Instr::LocalGet(self.scratch_i32_7),
            Instr::LocalGet(string_byte_len_local),
            Instr::I32GeU,
            Instr::BrIf(1),
        ]
        + self.spec_emit_utf8_char_width_from_local(string_local, self.scratch_i32_7, self.scratch_i32_4)
        + self.spec_emit_string_slice_equals_string_value_from_locals(string_local, self.scratch_i32_7, self.scratch_i32_4, needle, self.scratch_i32_8, self.scratch_i32_5)
        + seq![
            Instr::LocalGet(self.scratch_i32_8),
            Instr::If(BlockTy::Empty),
            Instr::Br(2),
            Instr::End,
            Instr::LocalGet(self.scratch_i32_7),
            Instr::LocalGet(self.scratch_i32_4),
            Instr::I32Add,
            Instr::LocalSet(self.scratch_i32_7),
            Instr::Br(0),
            Instr::End,
            Instr::End,
            Instr::LocalGet(self.scratch_i32_8),
            Instr::End,
        ]
    }

    /// Appends the instructions of `emit_seq_contains_empty_delim_split_from_local`.
    pub(crate) fn emit_seq_contains_empty_delim_split_from_local(&self, out: &mut Vec<Instr>, string_local: u32, string_byte_len_local: u32, needle: ValueId)
        requires
            self.wf(),
            self.value_ok(needle),
        ensures
            final(out)@ == old(out)@ + self.spec_emit_seq_contains_empty_delim_split_from_local(string_local, string_byte_len_local, needle),
    {
        let mut v: Vec<Instr> = vec![
            Instr::LocalGet(self.local_for(needle)),
            Instr::I32Load(MemArg { offset: 0, align: 2 }),
            Instr::I32Eqz,
            Instr::If(BlockTy::Result(ValTy::I32)),
            Instr::I32Const(1i32),
            Instr::Else,
            Instr::I32Const(0i32),
            Instr::LocalSet(self.scratch_i32_7),
            Instr::I32Const(0i32),
            Instr::LocalSet(self.scratch_i32_8),
            Instr::Block(BlockTy::Empty),
            Instr::Loop(BlockTy::Empty),
            Instr::LocalGet(self.scratch_i32_7),
            Instr::LocalGet(string_byte_len_local),
            Instr::I32GeU,
            Instr::BrIf(1),
        ];
        self.emit_utf8_char_width_from_local(&mut v, string_local, self.scratch_i32_7, self.scratch_i32_4);
        self.emit_string_slice_equals_string_value_from_locals(&mut v, string_local, self.scratch_i32_7, self.scratch_i32_4, needle, self.scratch_i32_8, self.scratch_i32_5);
        let mut w: Vec<Instr> = vec![
            Instr::LocalGet(self.scratch_i32_8),
            Instr::If(BlockTy::Empty),
            Instr::Br(2),
            Instr::End,
            Instr::LocalGet(self.scratch_i32_7),
            Instr::LocalGet(self.scratch_i32_4),
            Instr::I32Add,
            Instr::LocalSet(self.scratch_i32_7),
            Instr::Br(0),
            Instr::End,
            Instr::End,
            Instr::LocalGet(self.scratch_i32_8),
            Instr::End,
        ];
        v.append(&mut w);
        out.append(&mut v);
    }

}

} // verus!

