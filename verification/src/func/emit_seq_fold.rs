//! Emission of the higher-order sequence operations: counting, testing, folding, searching and finding the elements of a core sequence.

use vstd::prelude::*;
use crate::error::{concat3, CodegenError, ErrorKind};
use crate::func::{chain, emits, FuncCodegen};
use crate::instr::{BlockTy, Instr, MemArg, ValTy};
use crate::ir::{Ty, ValueId};
use crate::module::{spec_typed_load};
use crate::text::ty_text;

verus! {

impl<'a> FuncCodegen<'a> {

    /// The instructions that `emit_seq_load_range_bounds_from_local` appends when it succeeds, or the kind of its error.
    pub open spec fn spec_emit_seq_load_range_bounds_from_local(&self, seq_local: u32) -> Result<Seq<Instr>, ErrorKind> {
        Ok(seq![
            Instr::LocalGet(seq_local),
            Instr::I32Load(MemArg { offset: 0, align: 2 }),
            Instr::I32Const(0i32),
            Instr::I32Ne,
        ]
        + self.spec_emit_trap_if_true()
        + seq![
            Instr::LocalGet(seq_local),
            Instr::I64Load(MemArg { offset: 8, align: 3 }),
            Instr::LocalSet(self.scratch_i64),
            Instr::LocalGet(seq_local),
            Instr::I64Load(MemArg { offset: 16, align: 3 }),
            Instr::LocalSet(self.scratch_i64_2),
        ])
    }

    /// Appends the instructions of `emit_seq_load_range_bounds_from_local`.
    pub(crate) fn emit_seq_load_range_bounds_from_local(&self, out: &mut Vec<Instr>, seq_local: u32) -> (r: Result<(), CodegenError>)
        requires
            self.wf(),
        ensures
            emits(r, old(out)@, final(out)@, self.spec_emit_seq_load_range_bounds_from_local(seq_local)),
    {
        let mut v: Vec<Instr> = vec![
            Instr::LocalGet(seq_local),
            Instr::I32Load(MemArg { offset: 0, align: 2 }),
            Instr::I32Const(0i32),
            Instr::I32Ne,
        ];
        self.emit_trap_if_true(&mut v);
        let mut w: Vec<Instr> = vec![
            Instr::LocalGet(seq_local),
            Instr::I64Load(MemArg { offset: 8, align: 3 }),
            Instr::LocalSet(self.scratch_i64),
            Instr::LocalGet(seq_local),
            Instr::I64Load(MemArg { offset: 16, align: 3 }),
            Instr::LocalSet(self.scratch_i64_2),
        ];
        v.append(&mut w);
        assert(self.spec_emit_seq_load_range_bounds_from_local(seq_local) matches Ok(s) && v@ =~= s);
        out.append(&mut v);
        Ok(())
    }

    /// The instructions that `emit_seq_count` appends when it succeeds, or the kind of its error.
    pub open spec fn spec_emit_seq_count(&self, seq: ValueId) -> Result<Seq<Instr>, ErrorKind> {
        chain(chain(Ok(seq![
            Instr::LocalGet(self.spec_local(seq)),
            Instr::LocalSet(self.scratch_i32),
            Instr::LocalGet(self.scratch_i32),
            Instr::I32Load(MemArg { offset: 0, align: 2 }),
            Instr::LocalSet(self.scratch_i32_2),
            Instr::LocalGet(self.scratch_i32_2),
            Instr::I32Const(0i32),
            Instr::I32Eq,
            Instr::If(BlockTy::Result(ValTy::I64)),
        ]), self.spec_emit_seq_count_range_from_local(self.scratch_i32)), Ok(seq![
            Instr::Else,
            Instr::LocalGet(self.scratch_i32_2),
            Instr::I32Const(1i32),
            Instr::I32Eq,
            Instr::If(BlockTy::Result(ValTy::I64)),
        ]
        + self.spec_emit_seq_count_chars_from_local(self.scratch_i32)
        + seq![
            Instr::Else,
            Instr::LocalGet(self.scratch_i32_2),
            Instr::I32Const(2i32),
            Instr::I32Eq,
            Instr::If(BlockTy::Result(ValTy::I64)),
        ]
        + self.spec_emit_seq_count_lines_from_local(self.scratch_i32)
        + seq![
            Instr::Else,
            Instr::LocalGet(self.scratch_i32_2),
            Instr::I32Const(3i32),
            Instr::I32Eq,
            Instr::If(BlockTy::Result(ValTy::I64)),
        ]
        + self.spec_emit_seq_count_split_from_local(self.scratch_i32)
        + seq![
            Instr::Else,
            Instr::Unreachable,
            Instr::I64Const(0i64),
            Instr::End,
            Instr::End,
            Instr::End,
            Instr::End,
        ]))
    }

    /// Appends the instructions of `emit_seq_count`.
    pub(crate) fn emit_seq_count(&self, out: &mut Vec<Instr>, seq: ValueId) -> (r: Result<(), CodegenError>)
        requires
            self.wf(),
            self.value_ok(seq),
        ensures
            emits(r, old(out)@, final(out)@, self.spec_emit_seq_count(seq)),
    {
        let mut v: Vec<Instr> = vec![
            Instr::LocalGet(self.local_for(seq)),
            Instr::LocalSet(self.scratch_i32),
            Instr::LocalGet(self.scratch_i32),
            Instr::I32Load(MemArg { offset: 0, align: 2 }),
            Instr::LocalSet(self.scratch_i32_2),
            Instr::LocalGet(self.scratch_i32_2),
            Instr::I32Const(0i32),
            Instr::I32Eq,
            Instr::If(BlockTy::Result(ValTy::I64)),
        ];
        self.emit_seq_count_range_from_local(&mut v, self.scratch_i32)?;
        let mut w: Vec<Instr> = vec![
            Instr::Else,
            Instr::LocalGet(self.scratch_i32_2),
            Instr::I32Const(1i32),
            Instr::I32Eq,
            Instr::If(BlockTy::Result(ValTy::I64)),
        ];
        v.append(&mut w);
        self.emit_seq_count_chars_from_local(&mut v, self.scratch_i32);
        let mut w: Vec<Instr> = vec![
            Instr::Else,
            Instr::LocalGet(self.scratch_i32_2),
            Instr::I32Const(2i32),
            Instr::I32Eq,
            Instr::If(BlockTy::Result(ValTy::I64)),
        ];
        v.append(&mut w);
        self.emit_seq_count_lines_from_local(&mut v, self.scratch_i32);
        let mut w: Vec<Instr> = vec![
            Instr::Else,
            Instr::LocalGet(self.scratch_i32_2),
            Instr::I32Const(3i32),
            Instr::I32Eq,
            Instr::If(BlockTy::Result(ValTy::I64)),
        ];
        v.append(&mut w);
        self.emit_seq_count_split_from_local(&mut v, self.scratch_i32);
        let mut w: Vec<Instr> = vec![
            Instr::Else,
            Instr::Unreachable,
            Instr::I64Const(0i64),
            Instr::End,
            Instr::End,
            Instr::End,
            Instr::End,
        ];
        v.append(&mut w);
        assert(self.spec_emit_seq_count(seq) matches Ok(s) && v@ =~= s);
        out.append(&mut v);
        Ok(())
    }

    /// The instructions that `emit_seq_count_range_from_local` appends when it succeeds, or the kind of its error.
    pub open spec fn spec_emit_seq_count_range_from_local(&self, seq_local: u32) -> Result<Seq<Instr>, ErrorKind> {
        chain(self.spec_emit_seq_load_range_bounds_from_local(seq_local), Ok(seq![
            Instr::LocalGet(self.scratch_i64),
            Instr::LocalGet(self.scratch_i64_2),
            Instr::I64LtS,
            Instr::If(BlockTy::Result(ValTy::I64)),
            Instr::LocalGet(self.scratch_i64_2),
            Instr::LocalGet(self.scratch_i64),
            Instr::I64Sub,
            Instr::LocalTee(self.scratch_i64_3),
            Instr::I64Const(0i64),
            Instr::I64LtS,
        ]
        + self.spec_emit_trap_if_true()
        + seq![
            Instr::LocalGet(self.scratch_i64_3),
            Instr::Else,
            Instr::I64Const(0i64),
            Instr::End,
        ]))
    }

    /// Appends the instructions of `emit_seq_count_range_from_local`.
    pub(crate) fn emit_seq_count_range_from_local(&self, out: &mut Vec<Instr>, seq_local: u32) -> (r: Result<(), CodegenError>)
        requires
            self.wf(),
        ensures
            emits(r, old(out)@, final(out)@, self.spec_emit_seq_count_range_from_local(seq_local)),
    {
        let mut v: Vec<Instr> = Vec::new();
        self.emit_seq_load_range_bounds_from_local(&mut v, seq_local)?;
        let mut w: Vec<Instr> = vec![
            Instr::LocalGet(self.scratch_i64),
            Instr::LocalGet(self.scratch_i64_2),
            Instr::I64LtS,
            Instr::If(BlockTy::Result(ValTy::I64)),
            Instr::LocalGet(self.scratch_i64_2),
            Instr::LocalGet(self.scratch_i64),
            Instr::I64Sub,
            Instr::LocalTee(self.scratch_i64_3),
            Instr::I64Const(0i64),
            Instr::I64LtS,
        ];
        v.append(&mut w);
        self.emit_trap_if_true(&mut v);
        let mut w: Vec<Instr> = vec![
            Instr::LocalGet(self.scratch_i64_3),
            Instr::Else,
            Instr::I64Const(0i64),
            Instr::End,
        ];
        v.append(&mut w);
        assert(self.spec_emit_seq_count_range_from_local(seq_local) matches Ok(s) && v@ =~= s);
        out.append(&mut v);
        Ok(())
    }

    /// The instructions that `emit_seq_count_by` appends when it succeeds, or the kind of its error.
    pub open spec fn spec_emit_seq_count_by(&self, seq: ValueId, predicate: ValueId) -> Result<Seq<Instr>, ErrorKind> {
        chain(Ok(seq![Instr::LocalGet(self.spec_local(seq)), Instr::LocalSet(self.scratch_i32)]), match self.spec_core_seq_element_ty(seq) {
            Some(Ty::Int) => self.spec_emit_seq_count_by_range_from_local(self.scratch_i32, predicate),
            Some(Ty::Char) => self.spec_emit_seq_count_by_chars_from_local(self.scratch_i32, predicate),
            Some(Ty::String) => chain(chain(chain(chain(Ok(seq![
                    Instr::LocalGet(self.scratch_i32),
                    Instr::I32Load(MemArg { offset: 0, align: 2 }),
                    Instr::LocalSet(self.scratch_i32_2),
                    Instr::LocalGet(self.scratch_i32_2),
                    Instr::I32Const(2i32),
                    Instr::I32Eq,
                    Instr::If(BlockTy::Result(ValTy::I64)),
                ]), self.spec_emit_seq_count_by_lines_from_local(self.scratch_i32, predicate)), Ok(seq![
                    Instr::Else,
                    Instr::LocalGet(self.scratch_i32_2),
                    Instr::I32Const(3i32),
                    Instr::I32Eq,
                    Instr::If(BlockTy::Result(ValTy::I64)),
                ])), self.spec_emit_seq_count_by_split_from_local(self.scratch_i32, predicate)), Ok(seq![
                    Instr::Else,
                    Instr::Unreachable,
                    Instr::I64Const(0i64),
                    Instr::End,
                    Instr::End,
                ])),
            Some(elem_ty) => Err(ErrorKind::UnsupportedInstruction),
            None => Err(ErrorKind::UnsupportedInstruction),
        })
    }

    /// Appends the instructions of `emit_seq_count_by`.
    pub(crate) fn emit_seq_count_by(&self, out: &mut Vec<Instr>, seq: ValueId, predicate: ValueId) -> (r: Result<(), CodegenError>)
        requires
            self.wf(),
            self.value_ok(seq),
            self.value_ok(predicate),
        ensures
            emits(r, old(out)@, final(out)@, self.spec_emit_seq_count_by(seq, predicate)),
    {
        let mut v: Vec<Instr> = vec![Instr::LocalGet(self.local_for(seq)), Instr::LocalSet(self.scratch_i32)];
        let mut w: Vec<Instr> = match self.core_seq_element_ty(seq) {
            Some(Ty::Int) => {
                let mut b: Vec<Instr> = Vec::new();
                self.emit_seq_count_by_range_from_local(&mut b, self.scratch_i32, predicate)?;
                b
            },
            Some(Ty::Char) => {
                let mut b: Vec<Instr> = Vec::new();
                self.emit_seq_count_by_chars_from_local(&mut b, self.scratch_i32, predicate)?;
                b
            },
            Some(Ty::String) => {
                let mut b: Vec<Instr> = vec![
                    Instr::LocalGet(self.scratch_i32),
                    Instr::I32Load(MemArg { offset: 0, align: 2 }),
                    Instr::LocalSet(self.scratch_i32_2),
                    Instr::LocalGet(self.scratch_i32_2),
                    Instr::I32Const(2i32),
                    Instr::I32Eq,
                    Instr::If(BlockTy::Result(ValTy::I64)),
                ];
                self.emit_seq_count_by_lines_from_local(&mut b, self.scratch_i32, predicate)?;
                let mut w: Vec<Instr> = vec![
                    Instr::Else,
                    Instr::LocalGet(self.scratch_i32_2),
                    Instr::I32Const(3i32),
                    Instr::I32Eq,
                    Instr::If(BlockTy::Result(ValTy::I64)),
                ];
                b.append(&mut w);
                self.emit_seq_count_by_split_from_local(&mut b, self.scratch_i32, predicate)?;
                let mut w: Vec<Instr> = vec![
                    Instr::Else,
                    Instr::Unreachable,
                    Instr::I64Const(0i64),
                    Instr::End,
                    Instr::End,
                ];
                b.append(&mut w);
                b
            },
            Some(elem_ty) => {
                return Err(CodegenError::UnsupportedInstruction(concat3("seq_count_by over Wasm seq element type ", ty_text(elem_ty).as_str(), " (deferred)")));
            },
            None => {
                return Err(CodegenError::UnsupportedInstruction(concat3("seq_count_by over non-Seq receiver in Wasm: ", ty_text(self.value_ty(seq)).as_str(), "")));
            },
        };
        v.append(&mut w);
        assert(self.spec_emit_seq_count_by(seq, predicate) matches Ok(s) && v@ =~= s);
        out.append(&mut v);
        Ok(())
    }

    /// The instructions that `emit_seq_count_by_range_from_local` appends when it succeeds, or the kind of its error.
    pub open spec fn spec_emit_seq_count_by_range_from_local(&self, seq_local: u32, predicate: ValueId) -> Result<Seq<Instr>, ErrorKind> {
        chain(chain(chain(self.spec_emit_seq_load_range_bounds_from_local(seq_local), Ok(seq![
            Instr::I64Const(0i64),
            Instr::LocalSet(self.scratch_i64_3),
            Instr::Block(BlockTy::Empty),
            Instr::Loop(BlockTy::Empty),
            Instr::LocalGet(self.scratch_i64),
            Instr::LocalGet(self.scratch_i64_2),
            Instr::I64GeS,
            Instr::BrIf(1),
            Instr::LocalGet(self.scratch_i64),
        ])), self.spec_emit_indirect_call_single_arg(predicate)), Ok(seq![
            Instr::LocalSet(self.scratch_i32_2),
            Instr::LocalGet(self.scratch_i32_2),
            Instr::If(BlockTy::Empty),
            Instr::LocalGet(self.scratch_i64_3),
            Instr::I64Const(i64::MAX),
            Instr::I64Eq,
        ]
        + self.spec_emit_trap_if_true()
        + seq![
            Instr::LocalGet(self.scratch_i64_3),
            Instr::I64Const(1i64),
            Instr::I64Add,
            Instr::LocalSet(self.scratch_i64_3),
            Instr::End,
            Instr::LocalGet(self.scratch_i64),
            Instr::I64Const(1i64),
            Instr::I64Add,
            Instr::LocalSet(self.scratch_i64),
            Instr::Br(0),
            Instr::End,
            Instr::End,
            Instr::LocalGet(self.scratch_i64_3),
        ]))
    }

    /// Appends the instructions of `emit_seq_count_by_range_from_local`.
    pub(crate) fn emit_seq_count_by_range_from_local(&self, out: &mut Vec<Instr>, seq_local: u32, predicate: ValueId) -> (r: Result<(), CodegenError>)
        requires
            self.wf(),
            self.value_ok(predicate),
        ensures
            emits(r, old(out)@, final(out)@, self.spec_emit_seq_count_by_range_from_local(seq_local, predicate)),
    {
        let mut v: Vec<Instr> = Vec::new();
        self.emit_seq_load_range_bounds_from_local(&mut v, seq_local)?;
        let mut w: Vec<Instr> = vec![
            Instr::I64Const(0i64),
            Instr::LocalSet(self.scratch_i64_3),
            Instr::Block(BlockTy::Empty),
            Instr::Loop(BlockTy::Empty),
            Instr::LocalGet(self.scratch_i64),
            Instr::LocalGet(self.scratch_i64_2),
            Instr::I64GeS,
            Instr::BrIf(1),
            Instr::LocalGet(self.scratch_i64),
        ];
        v.append(&mut w);
        self.emit_indirect_call_single_arg(&mut v, predicate)?;
        let mut w: Vec<Instr> = vec![
            Instr::LocalSet(self.scratch_i32_2),
            Instr::LocalGet(self.scratch_i32_2),
            Instr::If(BlockTy::Empty),
            Instr::LocalGet(self.scratch_i64_3),
            Instr::I64Const(i64::MAX),
            Instr::I64Eq,
        ];
        v.append(&mut w);
        self.emit_trap_if_true(&mut v);
        let mut w: Vec<Instr> = vec![
            Instr::LocalGet(self.scratch_i64_3),
            Instr::I64Const(1i64),
            Instr::I64Add,
            Instr::LocalSet(self.scratch_i64_3),
            Instr::End,
            Instr::LocalGet(self.scratch_i64),
            Instr::I64Const(1i64),
            Instr::I64Add,
            Instr::LocalSet(self.scratch_i64),
            Instr::Br(0),
            Instr::End,
            Instr::End,
            Instr::LocalGet(self.scratch_i64_3),
        ];
        v.append(&mut w);
        assert(self.spec_emit_seq_count_by_range_from_local(seq_local, predicate) matches Ok(s) && v@ =~= s);
        out.append(&mut v);
        Ok(())
    }

    /// The instructions that `emit_seq_count_by_chars_from_local` appends when it succeeds, or the kind of its error.
    pub open spec fn spec_emit_seq_count_by_chars_from_local(&self, seq_local: u32, predicate: ValueId) -> Result<Seq<Instr>, ErrorKind> {
        chain(chain(Ok(seq![
            Instr::LocalGet(seq_local),
            Instr::I32Load(MemArg { offset: 8, align: 2 }),
            Instr::LocalSet(self.scratch_i32_3),
            Instr::LocalGet(self.scratch_i32_3),
            Instr::I32Load(MemArg { offset: 0, align: 2 }),
            Instr::LocalSet(self.scratch_i32_4),
            Instr::I32Const(0i32),
            Instr::LocalSet(self.scratch_i32_5),
            Instr::I64Const(0i64),
            Instr::LocalSet(self.scratch_i64_3),
            Instr::Block(BlockTy::Empty),
            Instr::Loop(BlockTy::Empty),
            Instr::LocalGet(self.scratch_i32_5),
            Instr::LocalGet(self.scratch_i32_4),
            Instr::I32GeU,
            Instr::BrIf(1),
        ]
        + self.spec_emit_utf8_char_width_from_local(self.scratch_i32_3, self.scratch_i32_5, self.scratch_i32_7)
        + self.spec_emit_utf8_codepoint_from_local(self.scratch_i32_3, self.scratch_i32_5, self.scratch_i32_7, self.scratch_i32_8)
        + seq![Instr::LocalGet(self.scratch_i32_8)]), self.spec_emit_indirect_call_single_arg(predicate)), Ok(seq![
            Instr::If(BlockTy::Empty),
            Instr::LocalGet(self.scratch_i64_3),
            Instr::I64Const(i64::MAX),
            Instr::I64Eq,
        ]
        + self.spec_emit_trap_if_true()
        + seq![
            Instr::LocalGet(self.scratch_i64_3),
            Instr::I64Const(1i64),
            Instr::I64Add,
            Instr::LocalSet(self.scratch_i64_3),
            Instr::End,
            Instr::LocalGet(self.scratch_i32_5),
            Instr::LocalGet(self.scratch_i32_7),
            Instr::I32Add,
            Instr::LocalSet(self.scratch_i32_5),
            Instr::Br(0),
            Instr::End,
            Instr::End,
            Instr::LocalGet(self.scratch_i64_3),
        ]))
    }

    /// Appends the instructions of `emit_seq_count_by_chars_from_local`.
    pub(crate) fn emit_seq_count_by_chars_from_local(&self, out: &mut Vec<Instr>, seq_local: u32, predicate: ValueId) -> (r: Result<(), CodegenError>)
        requires
            self.wf(),
            self.value_ok(predicate),
        ensures
            emits(r, old(out)@, final(out)@, self.spec_emit_seq_count_by_chars_from_local(seq_local, predicate)),
    {
        let mut v: Vec<Instr> = vec![
            Instr::LocalGet(seq_local),
            Instr::I32Load(MemArg { offset: 8, align: 2 }),
            Instr::LocalSet(self.scratch_i32_3),
            Instr::LocalGet(self.scratch_i32_3),
            Instr::I32Load(MemArg { offset: 0, align: 2 }),
            Instr::LocalSet(self.scratch_i32_4),
            Instr::I32Const(0i32),
            Instr::LocalSet(self.scratch_i32_5),
            Instr::I64Const(0i64),
            Instr::LocalSet(self.scratch_i64_3),
            Instr::Block(BlockTy::Empty),
            Instr::Loop(BlockTy::Empty),
            Instr::LocalGet(self.scratch_i32_5),
            Instr::LocalGet(self.scratch_i32_4),
            Instr::I32GeU,
            Instr::BrIf(1),
        ];
        self.emit_utf8_char_width_from_local(&mut v, self.scratch_i32_3, self.scratch_i32_5, self.scratch_i32_7);
        self.emit_utf8_codepoint_from_local(&mut v, self.scratch_i32_3, self.scratch_i32_5, self.scratch_i32_7, self.scratch_i32_8);
        let mut w: Vec<Instr> = vec![Instr::LocalGet(self.scratch_i32_8)];
        v.append(&mut w);
        self.emit_indirect_call_single_arg(&mut v, predicate)?;
        let mut w: Vec<Instr> = vec![
            Instr::If(BlockTy::Empty),
            Instr::LocalGet(self.scratch_i64_3),
            Instr::I64Const(i64::MAX),
            Instr::I64Eq,
        ];
        v.append(&mut w);
        self.emit_trap_if_true(&mut v);
        let mut w: Vec<Instr> = vec![
            Instr::LocalGet(self.scratch_i64_3),
            Instr::I64Const(1i64),
            Instr::I64Add,
            Instr::LocalSet(self.scratch_i64_3),
            Instr::End,
            Instr::LocalGet(self.scratch_i32_5),
            Instr::LocalGet(self.scratch_i32_7),
            Instr::I32Add,
            Instr::LocalSet(self.scratch_i32_5),
            Instr::Br(0),
            Instr::End,
            Instr::End,
            Instr::LocalGet(self.scratch_i64_3),
        ];
        v.append(&mut w);
        assert(self.spec_emit_seq_count_by_chars_from_local(seq_local, predicate) matches Ok(s) && v@ =~= s);
        out.append(&mut v);
        Ok(())
    }

    /// The instructions that `emit_seq_count_by_lines_from_local` appends when it succeeds, or the kind of its error.
    pub open spec fn spec_emit_seq_count_by_lines_from_local(&self, seq_local: u32, predicate: ValueId) -> Result<Seq<Instr>, ErrorKind> {
        chain(chain(chain(chain(Ok(seq![
            Instr::LocalGet(seq_local),
            Instr::I32Load(MemArg { offset: 8, align: 2 }),
            Instr::LocalSet(self.scratch_i32_3),
            Instr::LocalGet(self.scratch_i32_3),
            Instr::I32Load(MemArg { offset: 0, align: 2 }),
            Instr::LocalSet(self.scratch_i32_4),
            Instr::I32Const(0i32),
            Instr::LocalSet(self.scratch_i32_6),
            Instr::I32Const(0i32),
            Instr::LocalSet(self.scratch_i32_7),
            Instr::I64Const(0i64),
            Instr::LocalSet(self.scratch_i64_3),
            Instr::Block(BlockTy::Empty),
            Instr::Loop(BlockTy::Empty),
            Instr::LocalGet(self.scratch_i32_6),
            Instr::LocalGet(self.scratch_i32_4),
            Instr::I32GeU,
            Instr::BrIf(1),
            Instr::LocalGet(self.scratch_i32_3),
            Instr::I32Const(8i32),
            Instr::I32Add,
            Instr::LocalGet(self.scratch_i32_6),
            Instr::I32Add,
            Instr::I32Load8U(MemArg { offset: 0, align: 0 }),
            Instr::I32Const(10i32),
            Instr::I32Eq,
            Instr::If(BlockTy::Empty),
            Instr::LocalGet(self.scratch_i32_6),
            Instr::LocalGet(self.scratch_i32_7),
            Instr::I32Sub,
            Instr::LocalSet(self.scratch_i32_2),
            Instr::LocalGet(self.scratch_i32_6),
            Instr::LocalGet(self.scratch_i32_7),
            Instr::I32GtU,
            Instr::If(BlockTy::Empty),
            Instr::LocalGet(self.scratch_i32_3),
            Instr::I32Const(8i32),
            Instr::I32Add,
            Instr::LocalGet(self.scratch_i32_6),
            Instr::I32Const(1i32),
            Instr::I32Sub,
            Instr::I32Add,
            Instr::I32Load8U(MemArg { offset: 0, align: 0 }),
            Instr::I32Const(13i32),
            Instr::I32Eq,
            Instr::If(BlockTy::Empty),
            Instr::LocalGet(self.scratch_i32_2),
            Instr::I32Const(1i32),
            Instr::I32Sub,
            Instr::LocalSet(self.scratch_i32_2),
            Instr::End,
            Instr::End,
            Instr::LocalGet(self.scratch_i32_7),
            Instr::LocalGet(self.scratch_i32_2),
            Instr::I32Add,
            Instr::LocalSet(self.scratch_i32_10),
        ]
        + self.spec_emit_string_range_alloc_from_locals(self.scratch_i32_3, self.scratch_i32_7, self.scratch_i32_10, self.scratch_i32_5, self.scratch_i32_8, self.scratch_i32_9)
        + seq![Instr::LocalGet(self.scratch_i32_5)]), self.spec_emit_indirect_call_single_arg(predicate)), Ok(seq![
            Instr::If(BlockTy::Empty),
            Instr::LocalGet(self.scratch_i64_3),
            Instr::I64Const(i64::MAX),
            Instr::I64Eq,
        ]
        + self.spec_emit_trap_if_true()
        + seq![
            Instr::LocalGet(self.scratch_i64_3),
            Instr::I64Const(1i64),
            Instr::I64Add,
            Instr::LocalSet(self.scratch_i64_3),
            Instr::End,
            Instr::LocalGet(self.scratch_i32_6),
            Instr::I32Const(1i32),
            Instr::I32Add,
            Instr::LocalSet(self.scratch_i32_7),
            Instr::End,
            Instr::LocalGet(self.scratch_i32_6),
            Instr::I32Const(1i32),
            Instr::I32Add,
            Instr::LocalSet(self.scratch_i32_6),
            Instr::Br(0),
            Instr::End,
            Instr::End,
            Instr::LocalGet(self.scratch_i32_7),
            Instr::LocalGet(self.scratch_i32_4),
            Instr::I32LtU,
            Instr::If(BlockTy::Empty),
        ]
        + self.spec_emit_string_range_alloc_from_locals(self.scratch_i32_3, self.scratch_i32_7, self.scratch_i32_4, self.scratch_i32_5, self.scratch_i32_8, self.scratch_i32_9)
        + seq![Instr::LocalGet(self.scratch_i32_5)])), self.spec_emit_indirect_call_single_arg(predicate)), Ok(seq![
            Instr::If(BlockTy::Empty),
            Instr::LocalGet(self.scratch_i64_3),
            Instr::I64Const(i64::MAX),
            Instr::I64Eq,
        ]
        + self.spec_emit_trap_if_true()
        + seq![
            Instr::LocalGet(self.scratch_i64_3),
            Instr::I64Const(1i64),
            Instr::I64Add,
            Instr::LocalSet(self.scratch_i64_3),
            Instr::End,
            Instr::End,
            Instr::LocalGet(self.scratch_i64_3),
        ]))
    }

    /// Appends the instructions of `emit_seq_count_by_lines_from_local`.
    pub(crate) fn emit_seq_count_by_lines_from_local(&self, out: &mut Vec<Instr>, seq_local: u32, predicate: ValueId) -> (r: Result<(), CodegenError>)
        requires
            self.wf(),
            self.value_ok(predicate),
        ensures
            emits(r, old(out)@, final(out)@, self.spec_emit_seq_count_by_lines_from_local(seq_local, predicate)),
    {
        let mut v: Vec<Instr> = vec![
            Instr::LocalGet(seq_local),
            Instr::I32Load(MemArg { offset: 8, align: 2 }),
            Instr::LocalSet(self.scratch_i32_3),
            Instr::LocalGet(self.scratch_i32_3),
            Instr::I32Load(MemArg { offset: 0, align: 2 }),
            Instr::LocalSet(self.scratch_i32_4),
            Instr::I32Const(0i32),
            Instr::LocalSet(self.scratch_i32_6),
            Instr::I32Const(0i32),
            Instr::LocalSet(self.scratch_i32_7),
            Instr::I64Const(0i64),
            Instr::LocalSet(self.scratch_i64_3),
            Instr::Block(BlockTy::Empty),
            Instr::Loop(BlockTy::Empty),
            Instr::LocalGet(self.scratch_i32_6),
            Instr::LocalGet(self.scratch_i32_4),
            Instr::I32GeU,
            Instr::BrIf(1),
            Instr::LocalGet(self.scratch_i32_3),
            Instr::I32Const(8i32),
            Instr::I32Add,
            Instr::LocalGet(self.scratch_i32_6),
            Instr::I32Add,
            Instr::I32Load8U(MemArg { offset: 0, align: 0 }),
            Instr::I32Const(10i32),
            Instr::I32Eq,
            Instr::If(BlockTy::Empty),
            Instr::LocalGet(self.scratch_i32_6),
            Instr::LocalGet(self.scratch_i32_7),
            Instr::I32Sub,
            Instr::LocalSet(self.scratch_i32_2),
            Instr::LocalGet(self.scratch_i32_6),
            Instr::LocalGet(self.scratch_i32_7),
            Instr::I32GtU,
            Instr::If(BlockTy::Empty),
            Instr::LocalGet(self.scratch_i32_3),
            Instr::I32Const(8i32),
            Instr::I32Add,
            Instr::LocalGet(self.scratch_i32_6),
            Instr::I32Const(1i32),
            Instr::I32Sub,
            Instr::I32Add,
            Instr::I32Load8U(MemArg { offset: 0, align: 0 }),
            Instr::I32Const(13i32),
            Instr::I32Eq,
            Instr::If(BlockTy::Empty),
            Instr::LocalGet(self.scratch_i32_2),
            Instr::I32Const(1i32),
            Instr::I32Sub,
            Instr::LocalSet(self.scratch_i32_2),
            Instr::End,
            Instr::End,
            Instr::LocalGet(self.scratch_i32_7),
            Instr::LocalGet(self.scratch_i32_2),
            Instr::I32Add,
            Instr::LocalSet(self.scratch_i32_10),
        ];
        self.emit_string_range_alloc_from_locals(&mut v, self.scratch_i32_3, self.scratch_i32_7, self.scratch_i32_10, self.scratch_i32_5, self.scratch_i32_8, self.scratch_i32_9);
        let mut w: Vec<Instr> = vec![Instr::LocalGet(self.scratch_i32_5)];
        v.append(&mut w);
        self.emit_indirect_call_single_arg(&mut v, predicate)?;
        let mut w: Vec<Instr> = vec![
            Instr::If(BlockTy::Empty),
            Instr::LocalGet(self.scratch_i64_3),
            Instr::I64Const(i64::MAX),
            Instr::I64Eq,
        ];
        v.append(&mut w);
        self.emit_trap_if_true(&mut v);
        let mut w: Vec<Instr> = vec![
            Instr::LocalGet(self.scratch_i64_3),
            Instr::I64Const(1i64),
            Instr::I64Add,
            Instr::LocalSet(self.scratch_i64_3),
            Instr::End,
            Instr::LocalGet(self.scratch_i32_6),
            Instr::I32Const(1i32),
            Instr::I32Add,
            Instr::LocalSet(self.scratch_i32_7),
            Instr::End,
            Instr::LocalGet(self.scratch_i32_6),
            Instr::I32Const(1i32),
            Instr::I32Add,
            Instr::LocalSet(self.scratch_i32_6),
            Instr::Br(0),
            Instr::End,
            Instr::End,
            Instr::LocalGet(self.scratch_i32_7),
            Instr::LocalGet(self.scratch_i32_4),
            Instr::I32LtU,
            Instr::If(BlockTy::Empty),
        ];
        v.append(&mut w);
        self.emit_string_range_alloc_from_locals(&mut v, self.scratch_i32_3, self.scratch_i32_7, self.scratch_i32_4, self.scratch_i32_5, self.scratch_i32_8, self.scratch_i32_9);
        let mut w: Vec<Instr> = vec![Instr::LocalGet(self.scratch_i32_5)];
        v.append(&mut w);
        self.emit_indirect_call_single_arg(&mut v, predicate)?;
        let mut w: Vec<Instr> = vec![
            Instr::If(BlockTy::Empty),
            Instr::LocalGet(self.scratch_i64_3),
            Instr::I64Const(i64::MAX),
            Instr::I64Eq,
        ];
        v.append(&mut w);
        self.emit_trap_if_true(&mut v);
        let mut w: Vec<Instr> = vec![
            Instr::LocalGet(self.scratch_i64_3),
            Instr::I64Const(1i64),
            Instr::I64Add,
            Instr::LocalSet(self.scratch_i64_3),
            Instr::End,
            Instr::End,
            Instr::LocalGet(self.scratch_i64_3),
        ];
        v.append(&mut w);
        assert(self.spec_emit_seq_count_by_lines_from_local(seq_local, predicate) matches Ok(s) && v@ =~= s);
        out.append(&mut v);
        Ok(())
    }

    /// The instructions that `emit_seq_count_by_split_from_local` appends when it succeeds, or the kind of its error.
    pub open spec fn spec_emit_seq_count_by_split_from_local(&self, seq_local: u32, predicate: ValueId) -> Result<Seq<Instr>, ErrorKind> {
        chain(chain(chain(chain(chain(chain(Ok(seq![
            Instr::LocalGet(seq_local),
            Instr::I32Load(MemArg { offset: 8, align: 2 }),
            Instr::LocalSet(self.scratch_i32_3),
            Instr::LocalGet(seq_local),
            Instr::LocalSet(self.scratch_i32_4),
            Instr::LocalGet(self.scratch_i32_3),
            Instr::I32Load(MemArg { offset: 0, align: 2 }),
            Instr::LocalSet(self.scratch_i32_6),
            Instr::I64Const(0i64),
            Instr::LocalSet(self.scratch_i64_3),
            Instr::LocalGet(self.scratch_i32_4),
            Instr::I32Load(MemArg { offset: 12, align: 2 }),
            Instr::I32Load(MemArg { offset: 0, align: 2 }),
            Instr::I32Eqz,
            Instr::If(BlockTy::Result(ValTy::I64)),
        ]), self.spec_emit_seq_count_by_empty_delim_split_from_local(self.scratch_i32_3, self.scratch_i32_6, predicate)), Ok(seq![
            Instr::Else,
            Instr::I32Const(0i32),
            Instr::LocalSet(self.scratch_i32_7),
            Instr::I32Const(0i32),
            Instr::LocalSet(self.scratch_i32_2),
            Instr::Block(BlockTy::Empty),
            Instr::Loop(BlockTy::Empty),
            Instr::LocalGet(self.scratch_i32_7),
            Instr::LocalGet(self.scratch_i32_4),
            Instr::I32Load(MemArg { offset: 12, align: 2 }),
            Instr::I32Load(MemArg { offset: 0, align: 2 }),
            Instr::I32Add,
            Instr::LocalGet(self.scratch_i32_6),
            Instr::I32GtU,
            Instr::BrIf(1),
            Instr::I32Const(1i32),
            Instr::LocalSet(self.scratch_i32),
            Instr::I32Const(0i32),
            Instr::LocalSet(self.scratch_i32_5),
            Instr::Block(BlockTy::Empty),
            Instr::Loop(BlockTy::Empty),
            Instr::LocalGet(self.scratch_i32_5),
            Instr::LocalGet(self.scratch_i32_4),
            Instr::I32Load(MemArg { offset: 12, align: 2 }),
            Instr::I32Load(MemArg { offset: 0, align: 2 }),
            Instr::I32GeU,
            Instr::BrIf(1),
            Instr::LocalGet(self.scratch_i32_3),
            Instr::I32Const(8i32),
            Instr::I32Add,
            Instr::LocalGet(self.scratch_i32_7),
            Instr::I32Add,
            Instr::LocalGet(self.scratch_i32_5),
            Instr::I32Add,
            Instr::I32Load8U(MemArg { offset: 0, align: 0 }),
            Instr::LocalGet(self.scratch_i32_4),
            Instr::I32Load(MemArg { offset: 12, align: 2 }),
            Instr::I32Const(8i32),
            Instr::I32Add,
            Instr::LocalGet(self.scratch_i32_5),
            Instr::I32Add,
            Instr::I32Load8U(MemArg { offset: 0, align: 0 }),
            Instr::I32Ne,
            Instr::If(BlockTy::Empty),
            Instr::I32Const(0i32),
            Instr::LocalSet(self.scratch_i32),
            Instr::Br(2),
            Instr::End,
            Instr::LocalGet(self.scratch_i32_5),
            Instr::I32Const(1i32),
            Instr::I32Add,
            Instr::LocalSet(self.scratch_i32_5),
            Instr::Br(0),
            Instr::End,
            Instr::End,
            Instr::LocalGet(self.scratch_i32),
            Instr::If(BlockTy::Empty),
        ]
        + self.spec_emit_string_range_alloc_from_locals(self.scratch_i32_3, self.scratch_i32_2, self.scratch_i32_7, self.scratch_i32_5, self.scratch_i32, self.scratch_i32_8)
        + seq![Instr::LocalGet(self.scratch_i32_5)])), self.spec_emit_indirect_call_single_arg(predicate)), Ok(seq![
            Instr::If(BlockTy::Empty),
            Instr::LocalGet(self.scratch_i64_3),
            Instr::I64Const(i64::MAX),
            Instr::I64Eq,
        ]
        + self.spec_emit_trap_if_true()
        + seq![
            Instr::LocalGet(self.scratch_i64_3),
            Instr::I64Const(1i64),
            Instr::I64Add,
            Instr::LocalSet(self.scratch_i64_3),
            Instr::End,
            Instr::LocalGet(self.scratch_i32_7),
            Instr::LocalGet(self.scratch_i32_4),
            Instr::I32Load(MemArg { offset: 12, align: 2 }),
            Instr::I32Load(MemArg { offset: 0, align: 2 }),
            Instr::I32Add,
            Instr::LocalSet(self.scratch_i32_7),
            Instr::LocalGet(self.scratch_i32_7),
            Instr::LocalSet(self.scratch_i32_2),
            Instr::Else,
            Instr::LocalGet(self.scratch_i32_7),
            Instr::I32Const(1i32),
            Instr::I32Add,
            Instr::LocalSet(self.scratch_i32_7),
            Instr::End,
            Instr::Br(0),
            Instr::End,
            Instr::End,
        ]
        + self.spec_emit_string_range_alloc_from_locals(self.scratch_i32_3, self.scratch_i32_2, self.scratch_i32_6, self.scratch_i32_5, self.scratch_i32, self.scratch_i32_8)
        + seq![Instr::LocalGet(self.scratch_i32_5)])), self.spec_emit_indirect_call_single_arg(predicate)), Ok(seq![
            Instr::If(BlockTy::Empty),
            Instr::LocalGet(self.scratch_i64_3),
            Instr::I64Const(i64::MAX),
            Instr::I64Eq,
        ]
        + self.spec_emit_trap_if_true()
        + seq![
            Instr::LocalGet(self.scratch_i64_3),
            Instr::I64Const(1i64),
            Instr::I64Add,
            Instr::LocalSet(self.scratch_i64_3),
            Instr::End,
            Instr::LocalGet(self.scratch_i64_3),
            Instr::End,
        ]))
    }

    /// Appends the instructions of `emit_seq_count_by_split_from_local`.
    #[verifier::rlimit(40)]
    pub(crate) fn emit_seq_count_by_split_from_local(&self, out: &mut Vec<Instr>, seq_local: u32, predicate: ValueId) -> (r: Result<(), CodegenError>)
        requires
            self.wf(),
            self.value_ok(predicate),
        ensures
            emits(r, old(out)@, final(out)@, self.spec_emit_seq_count_by_split_from_local(seq_local, predicate)),
    {
        let mut v: Vec<Instr> = vec![
            Instr::LocalGet(seq_local),
            Instr::I32Load(MemArg { offset: 8, align: 2 }),
            Instr::LocalSet(self.scratch_i32_3),
            Instr::LocalGet(seq_local),
            Instr::LocalSet(self.scratch_i32_4),
            Instr::LocalGet(self.scratch_i32_3),
            Instr::I32Load(MemArg { offset: 0, align: 2 }),
            Instr::LocalSet(self.scratch_i32_6),
            Instr::I64Const(0i64),
            Instr::LocalSet(self.scratch_i64_3),
            Instr::LocalGet(self.scratch_i32_4),
            Instr::I32Load(MemArg { offset: 12, align: 2 }),
            Instr::I32Load(MemArg { offset: 0, align: 2 }),
            Instr::I32Eqz,
            Instr::If(BlockTy::Result(ValTy::I64)),
        ];
        self.emit_seq_count_by_empty_delim_split_from_local(&mut v, self.scratch_i32_3, self.scratch_i32_6, predicate)?;
        let mut w: Vec<Instr> = vec![
            Instr::Else,
            Instr::I32Const(0i32),
            Instr::LocalSet(self.scratch_i32_7),
            Instr::I32Const(0i32),
            Instr::LocalSet(self.scratch_i32_2),
            Instr::Block(BlockTy::Empty),
            Instr::Loop(BlockTy::Empty),
            Instr::LocalGet(self.scratch_i32_7),
            Instr::LocalGet(self.scratch_i32_4),
            Instr::I32Load(MemArg { offset: 12, align: 2 }),
            Instr::I32Load(MemArg { offset: 0, align: 2 }),
            Instr::I32Add,
            Instr::LocalGet(self.scratch_i32_6),
            Instr::I32GtU,
            Instr::BrIf(1),
            Instr::I32Const(1i32),
            Instr::LocalSet(self.scratch_i32),
            Instr::I32Const(0i32),
            Instr::LocalSet(self.scratch_i32_5),
            Instr::Block(BlockTy::Empty),
            Instr::Loop(BlockTy::Empty),
            Instr::LocalGet(self.scratch_i32_5),
            Instr::LocalGet(self.scratch_i32_4),
            Instr::I32Load(MemArg { offset: 12, align: 2 }),
            Instr::I32Load(MemArg { offset: 0, align: 2 }),
            Instr::I32GeU,
            Instr::BrIf(1),
            Instr::LocalGet(self.scratch_i32_3),
            Instr::I32Const(8i32),
            Instr::I32Add,
            Instr::LocalGet(self.scratch_i32_7),
            Instr::I32Add,
            Instr::LocalGet(self.scratch_i32_5),
            Instr::I32Add,
            Instr::I32Load8U(MemArg { offset: 0, align: 0 }),
            Instr::LocalGet(self.scratch_i32_4),
            Instr::I32Load(MemArg { offset: 12, align: 2 }),
            Instr::I32Const(8i32),
            Instr::I32Add,
            Instr::LocalGet(self.scratch_i32_5),
            Instr::I32Add,
            Instr::I32Load8U(MemArg { offset: 0, align: 0 }),
            Instr::I32Ne,
            Instr::If(BlockTy::Empty),
            Instr::I32Const(0i32),
            Instr::LocalSet(self.scratch_i32),
            Instr::Br(2),
            Instr::End,
            Instr::LocalGet(self.scratch_i32_5),
            Instr::I32Const(1i32),
            Instr::I32Add,
            Instr::LocalSet(self.scratch_i32_5),
            Instr::Br(0),
            Instr::End,
            Instr::End,
            Instr::LocalGet(self.scratch_i32),
            Instr::If(BlockTy::Empty),
        ];
        v.append(&mut w);
        self.emit_string_range_alloc_from_locals(&mut v, self.scratch_i32_3, self.scratch_i32_2, self.scratch_i32_7, self.scratch_i32_5, self.scratch_i32, self.scratch_i32_8);
        let mut w: Vec<Instr> = vec![Instr::LocalGet(self.scratch_i32_5)];
        v.append(&mut w);
        self.emit_indirect_call_single_arg(&mut v, predicate)?;
        let mut w: Vec<Instr> = vec![
            Instr::If(BlockTy::Empty),
            Instr::LocalGet(self.scratch_i64_3),
            Instr::I64Const(i64::MAX),
            Instr::I64Eq,
        ];
        v.append(&mut w);
        self.emit_trap_if_true(&mut v);
        let mut w: Vec<Instr> = vec![
            Instr::LocalGet(self.scratch_i64_3),
            Instr::I64Const(1i64),
            Instr::I64Add,
            Instr::LocalSet(self.scratch_i64_3),
            Instr::End,
            Instr::LocalGet(self.scratch_i32_7),
            Instr::LocalGet(self.scratch_i32_4),
            Instr::I32Load(MemArg { offset: 12, align: 2 }),
            Instr::I32Load(MemArg { offset: 0, align: 2 }),
            Instr::I32Add,
            Instr::LocalSet(self.scratch_i32_7),
            Instr::LocalGet(self.scratch_i32_7),
            Instr::LocalSet(self.scratch_i32_2),
            Instr::Else,
            Instr::LocalGet(self.scratch_i32_7),
            Instr::I32Const(1i32),
            Instr::I32Add,
            Instr::LocalSet(self.scratch_i32_7),
            Instr::End,
            Instr::Br(0),
            Instr::End,
            Instr::End,
        ];
        v.append(&mut w);
        self.emit_string_range_alloc_from_locals(&mut v, self.scratch_i32_3, self.scratch_i32_2, self.scratch_i32_6, self.scratch_i32_5, self.scratch_i32, self.scratch_i32_8);
        let mut w: Vec<Instr> = vec![Instr::LocalGet(self.scratch_i32_5)];
        v.append(&mut w);
        self.emit_indirect_call_single_arg(&mut v, predicate)?;
        let mut w: Vec<Instr> = vec![
            Instr::If(BlockTy::Empty),
            Instr::LocalGet(self.scratch_i64_3),
            Instr::I64Const(i64::MAX),
            Instr::I64Eq,
        ];
        v.append(&mut w);
        self.emit_trap_if_true(&mut v);
        let mut w: Vec<Instr> = vec![
            Instr::LocalGet(self.scratch_i64_3),
            Instr::I64Const(1i64),
            Instr::I64Add,
            Instr::LocalSet(self.scratch_i64_3),
            Instr::End,
            Instr::LocalGet(self.scratch_i64_3),
            Instr::End,
        ];
        v.append(&mut w);
        assert(self.spec_emit_seq_count_by_split_from_local(seq_local, predicate) matches Ok(s) && v@ =~= s);
        out.append(&mut v);
        Ok(())
    }

    /// The instructions that `emit_seq_count_by_empty_delim_split_from_local` appends when it succeeds, or the kind of its error.
    pub open spec fn spec_emit_seq_count_by_empty_delim_split_from_local(&self, string_local: u32, string_byte_len_local: u32, predicate: ValueId) -> Result<Seq<Instr>, ErrorKind> {
        chain(chain(chain(chain(chain(chain(Ok(self.spec_emit_string_const(Seq::empty(), 0)
        + seq![
            Instr::LocalSet(self.scratch_i32_5),
            Instr::I64Const(0i64),
            Instr::LocalSet(self.scratch_i64_3),
            Instr::LocalGet(self.scratch_i32_5),
        ]), self.spec_emit_indirect_call_single_arg(predicate)), Ok(seq![
            Instr::If(BlockTy::Empty),
            Instr::LocalGet(self.scratch_i64_3),
            Instr::I64Const(i64::MAX),
            Instr::I64Eq,
        ]
        + self.spec_emit_trap_if_true()
        + seq![
            Instr::LocalGet(self.scratch_i64_3),
            Instr::I64Const(1i64),
            Instr::I64Add,
            Instr::LocalSet(self.scratch_i64_3),
            Instr::End,
            Instr::I32Const(0i32),
            Instr::LocalSet(self.scratch_i32_7),
            Instr::Block(BlockTy::Empty),
            Instr::Loop(BlockTy::Empty),
            Instr::LocalGet(self.scratch_i32_7),
            Instr::LocalGet(string_byte_len_local),
            Instr::I32GeU,
            Instr::BrIf(1),
        ]
        + self.spec_emit_utf8_char_width_from_local(string_local, self.scratch_i32_7, self.scratch_i32_2)
        + seq![
            Instr::LocalGet(self.scratch_i32_7),
            Instr::LocalGet(self.scratch_i32_2),
            Instr::I32Add,
            Instr::LocalSet(self.scratch_i32_8),
        ]
        + self.spec_emit_string_range_alloc_from_locals(string_local, self.scratch_i32_7, self.scratch_i32_8, self.scratch_i32_5, self.scratch_i32, self.scratch_i32_2)
        + seq![Instr::LocalGet(self.scratch_i32_5)])), self.spec_emit_indirect_call_single_arg(predicate)), Ok(seq![
            Instr::If(BlockTy::Empty),
            Instr::LocalGet(self.scratch_i64_3),
            Instr::I64Const(i64::MAX),
            Instr::I64Eq,
        ]
        + self.spec_emit_trap_if_true()
        + seq![
            Instr::LocalGet(self.scratch_i64_3),
            Instr::I64Const(1i64),
            Instr::I64Add,
            Instr::LocalSet(self.scratch_i64_3),
            Instr::End,
            Instr::LocalGet(self.scratch_i32_8),
            Instr::LocalSet(self.scratch_i32_7),
            Instr::Br(0),
            Instr::End,
            Instr::End,
        ]
        + self.spec_emit_string_const(Seq::empty(), 0)
        + seq![Instr::LocalSet(self.scratch_i32_5), Instr::LocalGet(self.scratch_i32_5)])), self.spec_emit_indirect_call_single_arg(predicate)), Ok(seq![
            Instr::If(BlockTy::Empty),
            Instr::LocalGet(self.scratch_i64_3),
            Instr::I64Const(i64::MAX),
            Instr::I64Eq,
        ]
        + self.spec_emit_trap_if_true()
        + seq![
            Instr::LocalGet(self.scratch_i64_3),
            Instr::I64Const(1i64),
            Instr::I64Add,
            Instr::LocalSet(self.scratch_i64_3),
            Instr::End,
            Instr::LocalGet(self.scratch_i64_3),
        ]))
    }

    /// Appends the instructions of `emit_seq_count_by_empty_delim_split_from_local`.
    pub(crate) fn emit_seq_count_by_empty_delim_split_from_local(&self, out: &mut Vec<Instr>, string_local: u32, string_byte_len_local: u32, predicate: ValueId) -> (r: Result<(), CodegenError>)
        requires
            self.wf(),
            self.value_ok(predicate),
        ensures
            emits(r, old(out)@, final(out)@, self.spec_emit_seq_count_by_empty_delim_split_from_local(string_local, string_byte_len_local, predicate)),
    {
        let mut v: Vec<Instr> = Vec::new();
        proof { reveal_strlit(""); }
        self.emit_string_const(&mut v, "");
        let mut w: Vec<Instr> = vec![
            Instr::LocalSet(self.scratch_i32_5),
            Instr::I64Const(0i64),
            Instr::LocalSet(self.scratch_i64_3),
            Instr::LocalGet(self.scratch_i32_5),
        ];
        v.append(&mut w);
        self.emit_indirect_call_single_arg(&mut v, predicate)?;
        let mut w: Vec<Instr> = vec![
            Instr::If(BlockTy::Empty),
            Instr::LocalGet(self.scratch_i64_3),
            Instr::I64Const(i64::MAX),
            Instr::I64Eq,
        ];
        v.append(&mut w);
        self.emit_trap_if_true(&mut v);
        let mut w: Vec<Instr> = vec![
            Instr::LocalGet(self.scratch_i64_3),
            Instr::I64Const(1i64),
            Instr::I64Add,
            Instr::LocalSet(self.scratch_i64_3),
            Instr::End,
            Instr::I32Const(0i32),
            Instr::LocalSet(self.scratch_i32_7),
            Instr::Block(BlockTy::Empty),
            Instr::Loop(BlockTy::Empty),
            Instr::LocalGet(self.scratch_i32_7),
            Instr::LocalGet(string_byte_len_local),
            Instr::I32GeU,
            Instr::BrIf(1),
        ];
        v.append(&mut w);
        self.emit_utf8_char_width_from_local(&mut v, string_local, self.scratch_i32_7, self.scratch_i32_2);
        let mut w: Vec<Instr> = vec![
            Instr::LocalGet(self.scratch_i32_7),
            Instr::LocalGet(self.scratch_i32_2),
            Instr::I32Add,
            Instr::LocalSet(self.scratch_i32_8),
        ];
        v.append(&mut w);
        self.emit_string_range_alloc_from_locals(&mut v, string_local, self.scratch_i32_7, self.scratch_i32_8, self.scratch_i32_5, self.scratch_i32, self.scratch_i32_2);
        let mut w: Vec<Instr> = vec![Instr::LocalGet(self.scratch_i32_5)];
        v.append(&mut w);
        self.emit_indirect_call_single_arg(&mut v, predicate)?;
        let mut w: Vec<Instr> = vec![
            Instr::If(BlockTy::Empty),
            Instr::LocalGet(self.scratch_i64_3),
            Instr::I64Const(i64::MAX),
            Instr::I64Eq,
        ];
        v.append(&mut w);
        self.emit_trap_if_true(&mut v);
        let mut w: Vec<Instr> = vec![
            Instr::LocalGet(self.scratch_i64_3),
            Instr::I64Const(1i64),
            Instr::I64Add,
            Instr::LocalSet(self.scratch_i64_3),
            Instr::End,
            Instr::LocalGet(self.scratch_i32_8),
            Instr::LocalSet(self.scratch_i32_7),
            Instr::Br(0),
            Instr::End,
            Instr::End,
        ];
        v.append(&mut w);
        proof { reveal_strlit(""); }
        self.emit_string_const(&mut v, "");
        let mut w: Vec<Instr> = vec![Instr::LocalSet(self.scratch_i32_5), Instr::LocalGet(self.scratch_i32_5)];
        v.append(&mut w);
        self.emit_indirect_call_single_arg(&mut v, predicate)?;
        let mut w: Vec<Instr> = vec![
            Instr::If(BlockTy::Empty),
            Instr::LocalGet(self.scratch_i64_3),
            Instr::I64Const(i64::MAX),
            Instr::I64Eq,
        ];
        v.append(&mut w);
        self.emit_trap_if_true(&mut v);
        let mut w: Vec<Instr> = vec![
            Instr::LocalGet(self.scratch_i64_3),
            Instr::I64Const(1i64),
            Instr::I64Add,
            Instr::LocalSet(self.scratch_i64_3),
            Instr::End,
            Instr::LocalGet(self.scratch_i64_3),
        ];
        v.append(&mut w);
        assert(self.spec_emit_seq_count_by_empty_delim_split_from_local(string_local, string_byte_len_local, predicate) matches Ok(s) && v@ =~= s);
        out.append(&mut v);
        Ok(())
    }

    /// The instructions that `emit_seq_any` appends when it succeeds, or the kind of its error.
    pub open spec fn spec_emit_seq_any(&self, seq: ValueId, predicate: ValueId) -> Result<Seq<Instr>, ErrorKind> {
        chain(Ok(seq![Instr::LocalGet(self.spec_local(seq)), Instr::LocalSet(self.scratch_i32)]), match self.spec_core_seq_element_ty(seq) {
            Some(Ty::Int) => self.spec_emit_seq_any_range_from_local(self.scratch_i32, predicate),
            Some(Ty::Char) => self.spec_emit_seq_any_chars_from_local(self.scratch_i32, predicate),
            Some(Ty::String) => chain(chain(chain(chain(Ok(seq![
                    Instr::LocalGet(self.scratch_i32),
                    Instr::I32Load(MemArg { offset: 0, align: 2 }),
                    Instr::LocalSet(self.scratch_i32_2),
                    Instr::LocalGet(self.scratch_i32_2),
                    Instr::I32Const(2i32),
                    Instr::I32Eq,
                    Instr::If(BlockTy::Result(ValTy::I32)),
                ]), self.spec_emit_seq_count_by_lines_from_local(self.scratch_i32, predicate)), Ok(seq![
                    Instr::I64Eqz,
                    Instr::I32Eqz,
                    Instr::Else,
                    Instr::LocalGet(self.scratch_i32_2),
                    Instr::I32Const(3i32),
                    Instr::I32Eq,
                    Instr::If(BlockTy::Result(ValTy::I32)),
                ])), self.spec_emit_seq_count_by_split_from_local(self.scratch_i32, predicate)), Ok(seq![
                    Instr::I64Eqz,
                    Instr::I32Eqz,
                    Instr::Else,
                    Instr::Unreachable,
                    Instr::I32Const(0i32),
                    Instr::End,
                    Instr::End,
                ])),
            Some(elem_ty) => Err(ErrorKind::UnsupportedInstruction),
            None => Err(ErrorKind::UnsupportedInstruction),
        })
    }

    /// Appends the instructions of `emit_seq_any`.
    pub(crate) fn emit_seq_any(&self, out: &mut Vec<Instr>, seq: ValueId, predicate: ValueId) -> (r: Result<(), CodegenError>)
        requires
            self.wf(),
            self.value_ok(seq),
            self.value_ok(predicate),
        ensures
            emits(r, old(out)@, final(out)@, self.spec_emit_seq_any(seq, predicate)),
    {
        let mut v: Vec<Instr> = vec![Instr::LocalGet(self.local_for(seq)), Instr::LocalSet(self.scratch_i32)];
        let mut w: Vec<Instr> = match self.core_seq_element_ty(seq) {
            Some(Ty::Int) => {
                let mut b: Vec<Instr> = Vec::new();
                self.emit_seq_any_range_from_local(&mut b, self.scratch_i32, predicate)?;
                b
            },
            Some(Ty::Char) => {
                let mut b: Vec<Instr> = Vec::new();
                self.emit_seq_any_chars_from_local(&mut b, self.scratch_i32, predicate)?;
                b
            },
            Some(Ty::String) => {
                let mut b: Vec<Instr> = vec![
                    Instr::LocalGet(self.scratch_i32),
                    Instr::I32Load(MemArg { offset: 0, align: 2 }),
                    Instr::LocalSet(self.scratch_i32_2),
                    Instr::LocalGet(self.scratch_i32_2),
                    Instr::I32Const(2i32),
                    Instr::I32Eq,
                    Instr::If(BlockTy::Result(ValTy::I32)),
                ];
                self.emit_seq_count_by_lines_from_local(&mut b, self.scratch_i32, predicate)?;
                let mut w: Vec<Instr> = vec![
                    Instr::I64Eqz,
                    Instr::I32Eqz,
                    Instr::Else,
                    Instr::LocalGet(self.scratch_i32_2),
                    Instr::I32Const(3i32),
                    Instr::I32Eq,
                    Instr::If(BlockTy::Result(ValTy::I32)),
                ];
                b.append(&mut w);
                self.emit_seq_count_by_split_from_local(&mut b, self.scratch_i32, predicate)?;
                let mut w: Vec<Instr> = vec![
                    Instr::I64Eqz,
                    Instr::I32Eqz,
                    Instr::Else,
                    Instr::Unreachable,
                    Instr::I32Const(0i32),
                    Instr::End,
                    Instr::End,
                ];
                b.append(&mut w);
                b
            },
            Some(elem_ty) => {
                return Err(CodegenError::UnsupportedInstruction(concat3("seq_any over Wasm seq element type ", ty_text(elem_ty).as_str(), " (deferred)")));
            },
            None => {
                return Err(CodegenError::UnsupportedInstruction(concat3("seq_any over non-Seq receiver in Wasm: ", ty_text(self.value_ty(seq)).as_str(), "")));
            },
        };
        v.append(&mut w);
        assert(self.spec_emit_seq_any(seq, predicate) matches Ok(s) && v@ =~= s);
        out.append(&mut v);
        Ok(())
    }

    /// The instructions that `emit_seq_all` appends when it succeeds, or the kind of its error.
    pub open spec fn spec_emit_seq_all(&self, seq: ValueId, predicate: ValueId) -> Result<Seq<Instr>, ErrorKind> {
        chain(Ok(seq![Instr::LocalGet(self.spec_local(seq)), Instr::LocalSet(self.scratch_i32)]), match self.spec_core_seq_element_ty(seq) {
            Some(Ty::Int) => self.spec_emit_seq_all_range_from_local(self.scratch_i32, predicate),
            Some(Ty::Char) => self.spec_emit_seq_all_chars_from_local(self.scratch_i32, predicate),
            Some(Ty::String) => chain(chain(chain(chain(Ok(seq![
                    Instr::LocalGet(self.scratch_i32),
                    Instr::I32Load(MemArg { offset: 0, align: 2 }),
                    Instr::LocalSet(self.scratch_i32_2),
                    Instr::LocalGet(self.scratch_i32_2),
                    Instr::I32Const(2i32),
                    Instr::I32Eq,
                    Instr::If(BlockTy::Result(ValTy::I32)),
                    Instr::LocalGet(self.scratch_i32),
                    Instr::I64ExtendI32U,
                    Instr::LocalSet(self.scratch_i64_4),
                ]), self.spec_emit_seq_count_by_lines_from_local(self.scratch_i32, predicate)), Ok(seq![
                    Instr::LocalSet(self.scratch_i64_2),
                    Instr::LocalGet(self.scratch_i64_4),
                    Instr::I32WrapI64,
                    Instr::LocalSet(self.scratch_i32_2),
                ]
                + self.spec_emit_seq_count_lines_from_local(self.scratch_i32_2)
                + seq![
                    Instr::LocalGet(self.scratch_i64_2),
                    Instr::I64Eq,
                    Instr::Else,
                    Instr::LocalGet(self.scratch_i32_2),
                    Instr::I32Const(3i32),
                    Instr::I32Eq,
                    Instr::If(BlockTy::Result(ValTy::I32)),
                    Instr::LocalGet(self.scratch_i32),
                    Instr::I64ExtendI32U,
                    Instr::LocalSet(self.scratch_i64_4),
                ])), self.spec_emit_seq_count_by_split_from_local(self.scratch_i32, predicate)), Ok(seq![
                    Instr::LocalSet(self.scratch_i64_2),
                    Instr::LocalGet(self.scratch_i64_4),
                    Instr::I32WrapI64,
                    Instr::LocalSet(self.scratch_i32_2),
                ]
                + self.spec_emit_seq_count_split_from_local(self.scratch_i32_2)
                + seq![
                    Instr::LocalGet(self.scratch_i64_2),
                    Instr::I64Eq,
                    Instr::Else,
                    Instr::Unreachable,
                    Instr::I32Const(0i32),
                    Instr::End,
                    Instr::End,
                ])),
            Some(elem_ty) => Err(ErrorKind::UnsupportedInstruction),
            None => Err(ErrorKind::UnsupportedInstruction),
        })
    }

    /// Appends the instructions of `emit_seq_all`.
    pub(crate) fn emit_seq_all(&self, out: &mut Vec<Instr>, seq: ValueId, predicate: ValueId) -> (r: Result<(), CodegenError>)
        requires
            self.wf(),
            self.value_ok(seq),
            self.value_ok(predicate),
        ensures
            emits(r, old(out)@, final(out)@, self.spec_emit_seq_all(seq, predicate)),
    {
        let mut v: Vec<Instr> = vec![Instr::LocalGet(self.local_for(seq)), Instr::LocalSet(self.scratch_i32)];
        let mut w: Vec<Instr> = match self.core_seq_element_ty(seq) {
            Some(Ty::Int) => {
                let mut b: Vec<Instr> = Vec::new();
                self.emit_seq_all_range_from_local(&mut b, self.scratch_i32, predicate)?;
                b
            },
            Some(Ty::Char) => {
                let mut b: Vec<Instr> = Vec::new();
                self.emit_seq_all_chars_from_local(&mut b, self.scratch_i32, predicate)?;
                b
            },
            Some(Ty::String) => {
                let mut b: Vec<Instr> = vec![
                    Instr::LocalGet(self.scratch_i32),
                    Instr::I32Load(MemArg { offset: 0, align: 2 }),
                    Instr::LocalSet(self.scratch_i32_2),
                    Instr::LocalGet(self.scratch_i32_2),
                    Instr::I32Const(2i32),
                    Instr::I32Eq,
                    Instr::If(BlockTy::Result(ValTy::I32)),
                    Instr::LocalGet(self.scratch_i32),
                    Instr::I64ExtendI32U,
                    Instr::LocalSet(self.scratch_i64_4),
                ];
                self.emit_seq_count_by_lines_from_local(&mut b, self.scratch_i32, predicate)?;
                let mut w: Vec<Instr> = vec![
                    Instr::LocalSet(self.scratch_i64_2),
                    Instr::LocalGet(self.scratch_i64_4),
                    Instr::I32WrapI64,
                    Instr::LocalSet(self.scratch_i32_2),
                ];
                b.append(&mut w);
                self.emit_seq_count_lines_from_local(&mut b, self.scratch_i32_2);
                let mut w: Vec<Instr> = vec![
                    Instr::LocalGet(self.scratch_i64_2),
                    Instr::I64Eq,
                    Instr::Else,
                    Instr::LocalGet(self.scratch_i32_2),
                    Instr::I32Const(3i32),
                    Instr::I32Eq,
                    Instr::If(BlockTy::Result(ValTy::I32)),
                    Instr::LocalGet(self.scratch_i32),
                    Instr::I64ExtendI32U,
                    Instr::LocalSet(self.scratch_i64_4),
                ];
                b.append(&mut w);
                self.emit_seq_count_by_split_from_local(&mut b, self.scratch_i32, predicate)?;
                let mut w: Vec<Instr> = vec![
                    Instr::LocalSet(self.scratch_i64_2),
                    Instr::LocalGet(self.scratch_i64_4),
                    Instr::I32WrapI64,
                    Instr::LocalSet(self.scratch_i32_2),
                ];
                b.append(&mut w);
                self.emit_seq_count_split_from_local(&mut b, self.scratch_i32_2);
                let mut w: Vec<Instr> = vec![
                    Instr::LocalGet(self.scratch_i64_2),
                    Instr::I64Eq,
                    Instr::Else,
                    Instr::Unreachable,
                    Instr::I32Const(0i32),
                    Instr::End,
                    Instr::End,
                ];
                b.append(&mut w);
                b
            },
            Some(elem_ty) => {
                return Err(CodegenError::UnsupportedInstruction(concat3("seq_all over Wasm seq element type ", ty_text(elem_ty).as_str(), " (deferred)")));
            },
            None => {
                return Err(CodegenError::UnsupportedInstruction(concat3("seq_all over non-Seq receiver in Wasm: ", ty_text(self.value_ty(seq)).as_str(), "")));
            },
        };
        v.append(&mut w);
        assert(self.spec_emit_seq_all(seq, predicate) matches Ok(s) && v@ =~= s);
        out.append(&mut v);
        Ok(())
    }

    /// The instructions that `emit_seq_any_range_from_local` appends when it succeeds, or the kind of its error.
    pub open spec fn spec_emit_seq_any_range_from_local(&self, seq_local: u32, predicate: ValueId) -> Result<Seq<Instr>, ErrorKind> {
        chain(chain(chain(self.spec_emit_seq_load_range_bounds_from_local(seq_local), Ok(seq![
            Instr::I32Const(0i32),
            Instr::LocalSet(self.scratch_i32_3),
            Instr::Block(BlockTy::Empty),
            Instr::Loop(BlockTy::Empty),
            Instr::LocalGet(self.scratch_i64),
            Instr::LocalGet(self.scratch_i64_2),
            Instr::I64GeS,
            Instr::BrIf(1),
            Instr::LocalGet(self.scratch_i64),
        ])), self.spec_emit_indirect_call_single_arg(predicate)), Ok(seq![
            Instr::If(BlockTy::Empty),
            Instr::I32Const(1i32),
            Instr::LocalSet(self.scratch_i32_3),
            Instr::Br(2),
            Instr::End,
            Instr::LocalGet(self.scratch_i64),
            Instr::I64Const(1i64),
            Instr::I64Add,
            Instr::LocalSet(self.scratch_i64),
            Instr::Br(0),
            Instr::End,
            Instr::End,
            Instr::LocalGet(self.scratch_i32_3),
        ]))
    }

    /// Appends the instructions of `emit_seq_any_range_from_local`.
    pub(crate) fn emit_seq_any_range_from_local(&self, out: &mut Vec<Instr>, seq_local: u32, predicate: ValueId) -> (r: Result<(), CodegenError>)
        requires
            self.wf(),
            self.value_ok(predicate),
        ensures
            emits(r, old(out)@, final(out)@, self.spec_emit_seq_any_range_from_local(seq_local, predicate)),
    {
        let mut v: Vec<Instr> = Vec::new();
        self.emit_seq_load_range_bounds_from_local(&mut v, seq_local)?;
        let mut w: Vec<Instr> = vec![
            Instr::I32Const(0i32),
            Instr::LocalSet(self.scratch_i32_3),
            Instr::Block(BlockTy::Empty),
            Instr::Loop(BlockTy::Empty),
            Instr::LocalGet(self.scratch_i64),
            Instr::LocalGet(self.scratch_i64_2),
            Instr::I64GeS,
            Instr::BrIf(1),
            Instr::LocalGet(self.scratch_i64),
        ];
        v.append(&mut w);
        self.emit_indirect_call_single_arg(&mut v, predicate)?;
        let mut w: Vec<Instr> = vec![
            Instr::If(BlockTy::Empty),
            Instr::I32Const(1i32),
            Instr::LocalSet(self.scratch_i32_3),
            Instr::Br(2),
            Instr::End,
            Instr::LocalGet(self.scratch_i64),
            Instr::I64Const(1i64),
            Instr::I64Add,
            Instr::LocalSet(self.scratch_i64),
            Instr::Br(0),
            Instr::End,
            Instr::End,
            Instr::LocalGet(self.scratch_i32_3),
        ];
        v.append(&mut w);
        assert(self.spec_emit_seq_any_range_from_local(seq_local, predicate) matches Ok(s) && v@ =~= s);
        out.append(&mut v);
        Ok(())
    }

    /// The instructions that `emit_seq_any_chars_from_local` appends when it succeeds, or the kind of its error.
    pub open spec fn spec_emit_seq_any_chars_from_local(&self, seq_local: u32, predicate: ValueId) -> Result<Seq<Instr>, ErrorKind> {
        chain(chain(Ok(seq![
            Instr::LocalGet(seq_local),
            Instr::I32Load(MemArg { offset: 8, align: 2 }),
            Instr::LocalSet(self.scratch_i32_3),
            Instr::LocalGet(self.scratch_i32_3),
            Instr::I32Load(MemArg { offset: 0, align: 2 }),
            Instr::LocalSet(self.scratch_i32_4),
            Instr::I32Const(0i32),
            Instr::LocalSet(self.scratch_i32_5),
            Instr::I32Const(0i32),
            Instr::LocalSet(self.scratch_i32_6),
            Instr::Block(BlockTy::Empty),
            Instr::Loop(BlockTy::Empty),
            Instr::LocalGet(self.scratch_i32_5),
            Instr::LocalGet(self.scratch_i32_4),
            Instr::I32GeU,
            Instr::BrIf(1),
        ]
        + self.spec_emit_utf8_char_width_from_local(self.scratch_i32_3, self.scratch_i32_5, self.scratch_i32_7)
        + self.spec_emit_utf8_codepoint_from_local(self.scratch_i32_3, self.scratch_i32_5, self.scratch_i32_7, self.scratch_i32_8)
        + seq![Instr::LocalGet(self.scratch_i32_8)]), self.spec_emit_indirect_call_single_arg(predicate)), Ok(seq![
            Instr::If(BlockTy::Empty),
            Instr::I32Const(1i32),
            Instr::LocalSet(self.scratch_i32_6),
            Instr::Br(2),
            Instr::End,
            Instr::LocalGet(self.scratch_i32_5),
            Instr::LocalGet(self.scratch_i32_7),
            Instr::I32Add,
            Instr::LocalSet(self.scratch_i32_5),
            Instr::Br(0),
            Instr::End,
            Instr::End,
            Instr::LocalGet(self.scratch_i32_6),
        ]))
    }

    /// Appends the instructions of `emit_seq_any_chars_from_local`.
    pub(crate) fn emit_seq_any_chars_from_local(&self, out: &mut Vec<Instr>, seq_local: u32, predicate: ValueId) -> (r: Result<(), CodegenError>)
        requires
            self.wf(),
            self.value_ok(predicate),
        ensures
            emits(r, old(out)@, final(out)@, self.spec_emit_seq_any_chars_from_local(seq_local, predicate)),
    {
        let mut v: Vec<Instr> = vec![
            Instr::LocalGet(seq_local),
            Instr::I32Load(MemArg { offset: 8, align: 2 }),
            Instr::LocalSet(self.scratch_i32_3),
            Instr::LocalGet(self.scratch_i32_3),
            Instr::I32Load(MemArg { offset: 0, align: 2 }),
            Instr::LocalSet(self.scratch_i32_4),
            Instr::I32Const(0i32),
            Instr::LocalSet(self.scratch_i32_5),
            Instr::I32Const(0i32),
            Instr::LocalSet(self.scratch_i32_6),
            Instr::Block(BlockTy::Empty),
            Instr::Loop(BlockTy::Empty),
            Instr::LocalGet(self.scratch_i32_5),
            Instr::LocalGet(self.scratch_i32_4),
            Instr::I32GeU,
            Instr::BrIf(1),
        ];
        self.emit_utf8_char_width_from_local(&mut v, self.scratch_i32_3, self.scratch_i32_5, self.scratch_i32_7);
        self.emit_utf8_codepoint_from_local(&mut v, self.scratch_i32_3, self.scratch_i32_5, self.scratch_i32_7, self.scratch_i32_8);
        let mut w: Vec<Instr> = vec![Instr::LocalGet(self.scratch_i32_8)];
        v.append(&mut w);
        self.emit_indirect_call_single_arg(&mut v, predicate)?;
        let mut w: Vec<Instr> = vec![
            Instr::If(BlockTy::Empty),
            Instr::I32Const(1i32),
            Instr::LocalSet(self.scratch_i32_6),
            Instr::Br(2),
            Instr::End,
            Instr::LocalGet(self.scratch_i32_5),
            Instr::LocalGet(self.scratch_i32_7),
            Instr::I32Add,
            Instr::LocalSet(self.scratch_i32_5),
            Instr::Br(0),
            Instr::End,
            Instr::End,
            Instr::LocalGet(self.scratch_i32_6),
        ];
        v.append(&mut w);
        assert(self.spec_emit_seq_any_chars_from_local(seq_local, predicate) matches Ok(s) && v@ =~= s);
        out.append(&mut v);
        Ok(())
    }

    /// The instructions that `emit_seq_all_range_from_local` appends when it succeeds, or the kind of its error.
    pub open spec fn spec_emit_seq_all_range_from_local(&self, seq_local: u32, predicate: ValueId) -> Result<Seq<Instr>, ErrorKind> {
        chain(chain(chain(self.spec_emit_seq_load_range_bounds_from_local(seq_local), Ok(seq![
            Instr::I32Const(1i32),
            Instr::LocalSet(self.scratch_i32_3),
            Instr::Block(BlockTy::Empty),
            Instr::Loop(BlockTy::Empty),
            Instr::LocalGet(self.scratch_i64),
            Instr::LocalGet(self.scratch_i64_2),
            Instr::I64GeS,
            Instr::BrIf(1),
            Instr::LocalGet(self.scratch_i64),
        ])), self.spec_emit_indirect_call_single_arg(predicate)), Ok(seq![
            Instr::I32Eqz,
            Instr::If(BlockTy::Empty),
            Instr::I32Const(0i32),
            Instr::LocalSet(self.scratch_i32_3),
            Instr::Br(2),
            Instr::End,
            Instr::LocalGet(self.scratch_i64),
            Instr::I64Const(1i64),
            Instr::I64Add,
            Instr::LocalSet(self.scratch_i64),
            Instr::Br(0),
            Instr::End,
            Instr::End,
            Instr::LocalGet(self.scratch_i32_3),
        ]))
    }

    /// Appends the instructions of `emit_seq_all_range_from_local`.
    pub(crate) fn emit_seq_all_range_from_local(&self, out: &mut Vec<Instr>, seq_local: u32, predicate: ValueId) -> (r: Result<(), CodegenError>)
        requires
            self.wf(),
            self.value_ok(predicate),
        ensures
            emits(r, old(out)@, final(out)@, self.spec_emit_seq_all_range_from_local(seq_local, predicate)),
    {
        let mut v: Vec<Instr> = Vec::new();
        self.emit_seq_load_range_bounds_from_local(&mut v, seq_local)?;
        let mut w: Vec<Instr> = vec![
            Instr::I32Const(1i32),
            Instr::LocalSet(self.scratch_i32_3),
            Instr::Block(BlockTy::Empty),
            Instr::Loop(BlockTy::Empty),
            Instr::LocalGet(self.scratch_i64),
            Instr::LocalGet(self.scratch_i64_2),
            Instr::I64GeS,
            Instr::BrIf(1),
            Instr::LocalGet(self.scratch_i64),
        ];
        v.append(&mut w);
        self.emit_indirect_call_single_arg(&mut v, predicate)?;
        let mut w: Vec<Instr> = vec![
            Instr::I32Eqz,
            Instr::If(BlockTy::Empty),
            Instr::I32Const(0i32),
            Instr::LocalSet(self.scratch_i32_3),
            Instr::Br(2),
            Instr::End,
            Instr::LocalGet(self.scratch_i64),
            Instr::I64Const(1i64),
            Instr::I64Add,
            Instr::LocalSet(self.scratch_i64),
            Instr::Br(0),
            Instr::End,
            Instr::End,
            Instr::LocalGet(self.scratch_i32_3),
        ];
        v.append(&mut w);
        assert(self.spec_emit_seq_all_range_from_local(seq_local, predicate) matches Ok(s) && v@ =~= s);
        out.append(&mut v);
        Ok(())
    }

    /// The instructions that `emit_seq_all_chars_from_local` appends when it succeeds, or the kind of its error.
    pub open spec fn spec_emit_seq_all_chars_from_local(&self, seq_local: u32, predicate: ValueId) -> Result<Seq<Instr>, ErrorKind> {
        chain(chain(Ok(seq![
            Instr::LocalGet(seq_local),
            Instr::I32Load(MemArg { offset: 8, align: 2 }),
            Instr::LocalSet(self.scratch_i32_3),
            Instr::LocalGet(self.scratch_i32_3),
            Instr::I32Load(MemArg { offset: 0, align: 2 }),
            Instr::LocalSet(self.scratch_i32_4),
            Instr::I32Const(0i32),
            Instr::LocalSet(self.scratch_i32_5),
            Instr::I32Const(1i32),
            Instr::LocalSet(self.scratch_i32_6),
            Instr::Block(BlockTy::Empty),
            Instr::Loop(BlockTy::Empty),
            Instr::LocalGet(self.scratch_i32_5),
            Instr::LocalGet(self.scratch_i32_4),
            Instr::I32GeU,
            Instr::BrIf(1),
        ]
        + self.spec_emit_utf8_char_width_from_local(self.scratch_i32_3, self.scratch_i32_5, self.scratch_i32_7)
        + self.spec_emit_utf8_codepoint_from_local(self.scratch_i32_3, self.scratch_i32_5, self.scratch_i32_7, self.scratch_i32_8)
        + seq![Instr::LocalGet(self.scratch_i32_8)]), self.spec_emit_indirect_call_single_arg(predicate)), Ok(seq![
            Instr::I32Eqz,
            Instr::If(BlockTy::Empty),
            Instr::I32Const(0i32),
            Instr::LocalSet(self.scratch_i32_6),
            Instr::Br(2),
            Instr::End,
            Instr::LocalGet(self.scratch_i32_5),
            Instr::LocalGet(self.scratch_i32_7),
            Instr::I32Add,
            Instr::LocalSet(self.scratch_i32_5),
            Instr::Br(0),
            Instr::End,
            Instr::End,
            Instr::LocalGet(self.scratch_i32_6),
        ]))
    }

    /// Appends the instructions of `emit_seq_all_chars_from_local`.
    pub(crate) fn emit_seq_all_chars_from_local(&self, out: &mut Vec<Instr>, seq_local: u32, predicate: ValueId) -> (r: Result<(), CodegenError>)
        requires
            self.wf(),
            self.value_ok(predicate),
        ensures
            emits(r, old(out)@, final(out)@, self.spec_emit_seq_all_chars_from_local(seq_local, predicate)),
    {
        let mut v: Vec<Instr> = vec![
            Instr::LocalGet(seq_local),
            Instr::I32Load(MemArg { offset: 8, align: 2 }),
            Instr::LocalSet(self.scratch_i32_3),
            Instr::LocalGet(self.scratch_i32_3),
            Instr::I32Load(MemArg { offset: 0, align: 2 }),
            Instr::LocalSet(self.scratch_i32_4),
            Instr::I32Const(0i32),
            Instr::LocalSet(self.scratch_i32_5),
            Instr::I32Const(1i32),
            Instr::LocalSet(self.scratch_i32_6),
            Instr::Block(BlockTy::Empty),
            Instr::Loop(BlockTy::Empty),
            Instr::LocalGet(self.scratch_i32_5),
            Instr::LocalGet(self.scratch_i32_4),
            Instr::I32GeU,
            Instr::BrIf(1),
        ];
        self.emit_utf8_char_width_from_local(&mut v, self.scratch_i32_3, self.scratch_i32_5, self.scratch_i32_7);
        self.emit_utf8_codepoint_from_local(&mut v, self.scratch_i32_3, self.scratch_i32_5, self.scratch_i32_7, self.scratch_i32_8);
        let mut w: Vec<Instr> = vec![Instr::LocalGet(self.scratch_i32_8)];
        v.append(&mut w);
        self.emit_indirect_call_single_arg(&mut v, predicate)?;
        let mut w: Vec<Instr> = vec![
            Instr::I32Eqz,
            Instr::If(BlockTy::Empty),
            Instr::I32Const(0i32),
            Instr::LocalSet(self.scratch_i32_6),
            Instr::Br(2),
            Instr::End,
            Instr::LocalGet(self.scratch_i32_5),
            Instr::LocalGet(self.scratch_i32_7),
            Instr::I32Add,
            Instr::LocalSet(self.scratch_i32_5),
            Instr::Br(0),
            Instr::End,
            Instr::End,
            Instr::LocalGet(self.scratch_i32_6),
        ];
        v.append(&mut w);
        assert(self.spec_emit_seq_all_chars_from_local(seq_local, predicate) matches Ok(s) && v@ =~= s);
        out.append(&mut v);
        Ok(())
    }

    /// The instructions that `emit_seq_fold` appends when it succeeds, or the kind of its error.
    pub open spec fn spec_emit_seq_fold(&self, seq: ValueId, init: ValueId, folder: ValueId, result_ty: Ty) -> Result<Seq<Instr>, ErrorKind> {
        {
            let acc_local = match result_ty { Ty::Float => self.scratch_f64, Ty::Int => self.scratch_i64_3, _ => self.scratch_i32_8, };
            chain(chain(Ok(seq![
                Instr::LocalGet(self.spec_local(init)),
                Instr::LocalSet(acc_local),
                Instr::LocalGet(self.spec_local(seq)),
                Instr::LocalSet(self.scratch_i32),
            ]), match self.spec_core_seq_element_ty(seq) {
                Some(Ty::Int) => self.spec_emit_seq_fold_range_from_local(self.scratch_i32, acc_local, folder),
                Some(Ty::Char) => self.spec_emit_seq_fold_chars_from_local(self.scratch_i32, acc_local, folder),
                Some(Ty::String) => chain(chain(chain(chain(Ok(seq![
                        Instr::LocalGet(self.scratch_i32),
                        Instr::I32Load(MemArg { offset: 0, align: 2 }),
                        Instr::LocalSet(self.scratch_i32_2),
                        Instr::LocalGet(self.scratch_i32_2),
                        Instr::I32Const(2i32),
                        Instr::I32Eq,
                        Instr::If(BlockTy::Empty),
                    ]), self.spec_emit_seq_fold_lines_from_local(self.scratch_i32, acc_local, folder)), Ok(seq![
                        Instr::Else,
                        Instr::LocalGet(self.scratch_i32_2),
                        Instr::I32Const(3i32),
                        Instr::I32Eq,
                        Instr::If(BlockTy::Empty),
                    ])), self.spec_emit_seq_fold_split_from_local(self.scratch_i32, acc_local, folder)), Ok(seq![
                        Instr::Else,
                        Instr::Unreachable,
                        Instr::End,
                        Instr::End,
                    ])),
                Some(elem_ty) => Err(ErrorKind::UnsupportedInstruction),
                None => Err(ErrorKind::UnsupportedInstruction),
            }), Ok(seq![Instr::LocalGet(acc_local)]))
        }
    }

    /// Appends the instructions of `emit_seq_fold`.
    pub(crate) fn emit_seq_fold(&self, out: &mut Vec<Instr>, seq: ValueId, init: ValueId, folder: ValueId, result_ty: &Ty) -> (r: Result<(), CodegenError>)
        requires
            self.wf(),
            self.value_ok(seq),
            self.value_ok(init),
            self.value_ok(folder),
        ensures
            emits(r, old(out)@, final(out)@, self.spec_emit_seq_fold(seq, init, folder, *result_ty)),
    {
        let mut v: Vec<Instr> = Vec::new();
        let acc_local = match result_ty { Ty::Float => self.scratch_f64, Ty::Int => self.scratch_i64_3, _ => self.scratch_i32_8, };
        let mut w: Vec<Instr> = vec![
            Instr::LocalGet(self.local_for(init)),
            Instr::LocalSet(acc_local),
            Instr::LocalGet(self.local_for(seq)),
            Instr::LocalSet(self.scratch_i32),
        ];
        v.append(&mut w);
        let mut w: Vec<Instr> = match self.core_seq_element_ty(seq) {
            Some(Ty::Int) => {
                let mut b: Vec<Instr> = Vec::new();
                self.emit_seq_fold_range_from_local(&mut b, self.scratch_i32, acc_local, folder)?;
                b
            },
            Some(Ty::Char) => {
                let mut b: Vec<Instr> = Vec::new();
                self.emit_seq_fold_chars_from_local(&mut b, self.scratch_i32, acc_local, folder)?;
                b
            },
            Some(Ty::String) => {
                let mut b: Vec<Instr> = vec![
                    Instr::LocalGet(self.scratch_i32),
                    Instr::I32Load(MemArg { offset: 0, align: 2 }),
                    Instr::LocalSet(self.scratch_i32_2),
                    Instr::LocalGet(self.scratch_i32_2),
                    Instr::I32Const(2i32),
                    Instr::I32Eq,
                    Instr::If(BlockTy::Empty),
                ];
                self.emit_seq_fold_lines_from_local(&mut b, self.scratch_i32, acc_local, folder)?;
                let mut w: Vec<Instr> = vec![
                    Instr::Else,
                    Instr::LocalGet(self.scratch_i32_2),
                    Instr::I32Const(3i32),
                    Instr::I32Eq,
                    Instr::If(BlockTy::Empty),
                ];
                b.append(&mut w);
                self.emit_seq_fold_split_from_local(&mut b, self.scratch_i32, acc_local, folder)?;
                let mut w: Vec<Instr> = vec![
                    Instr::Else,
                    Instr::Unreachable,
                    Instr::End,
                    Instr::End,
                ];
                b.append(&mut w);
                b
            },
            Some(elem_ty) => {
                return Err(CodegenError::UnsupportedInstruction(concat3("seq_fold over Wasm seq element type ", ty_text(elem_ty).as_str(), " (deferred)")));
            },
            None => {
                return Err(CodegenError::UnsupportedInstruction(concat3("seq_fold over non-Seq receiver in Wasm: ", ty_text(self.value_ty(seq)).as_str(), "")));
            },
        };
        v.append(&mut w);
        let mut w: Vec<Instr> = vec![Instr::LocalGet(acc_local)];
        v.append(&mut w);
        assert(self.spec_emit_seq_fold(seq, init, folder, *result_ty) matches Ok(s) && v@ =~= s);
        out.append(&mut v);
        Ok(())
    }

    /// The instructions that `emit_seq_fold_range_from_local` appends when it succeeds, or the kind of its error.
    pub open spec fn spec_emit_seq_fold_range_from_local(&self, seq_local: u32, acc_local: u32, folder: ValueId) -> Result<Seq<Instr>, ErrorKind> {
        chain(chain(chain(self.spec_emit_seq_load_range_bounds_from_local(seq_local), Ok(seq![
            Instr::Block(BlockTy::Empty),
            Instr::Loop(BlockTy::Empty),
            Instr::LocalGet(self.scratch_i64),
            Instr::LocalGet(self.scratch_i64_2),
            Instr::I64GeS,
            Instr::BrIf(1),
            Instr::LocalGet(acc_local),
            Instr::LocalGet(self.scratch_i64),
        ])), self.spec_emit_indirect_call_two_args(folder)), Ok(seq![
            Instr::LocalSet(acc_local),
            Instr::LocalGet(self.scratch_i64),
            Instr::I64Const(1i64),
            Instr::I64Add,
            Instr::LocalSet(self.scratch_i64),
            Instr::Br(0),
            Instr::End,
            Instr::End,
        ]))
    }

    /// Appends the instructions of `emit_seq_fold_range_from_local`.
    pub(crate) fn emit_seq_fold_range_from_local(&self, out: &mut Vec<Instr>, seq_local: u32, acc_local: u32, folder: ValueId) -> (r: Result<(), CodegenError>)
        requires
            self.wf(),
            self.value_ok(folder),
        ensures
            emits(r, old(out)@, final(out)@, self.spec_emit_seq_fold_range_from_local(seq_local, acc_local, folder)),
    {
        let mut v: Vec<Instr> = Vec::new();
        self.emit_seq_load_range_bounds_from_local(&mut v, seq_local)?;
        let mut w: Vec<Instr> = vec![
            Instr::Block(BlockTy::Empty),
            Instr::Loop(BlockTy::Empty),
            Instr::LocalGet(self.scratch_i64),
            Instr::LocalGet(self.scratch_i64_2),
            Instr::I64GeS,
            Instr::BrIf(1),
            Instr::LocalGet(acc_local),
            Instr::LocalGet(self.scratch_i64),
        ];
        v.append(&mut w);
        self.emit_indirect_call_two_args(&mut v, folder)?;
        let mut w: Vec<Instr> = vec![
            Instr::LocalSet(acc_local),
            Instr::LocalGet(self.scratch_i64),
            Instr::I64Const(1i64),
            Instr::I64Add,
            Instr::LocalSet(self.scratch_i64),
            Instr::Br(0),
            Instr::End,
            Instr::End,
        ];
        v.append(&mut w);
        assert(self.spec_emit_seq_fold_range_from_local(seq_local, acc_local, folder) matches Ok(s) && v@ =~= s);
        out.append(&mut v);
        Ok(())
    }

    /// The instructions that `emit_seq_fold_chars_from_local` appends when it succeeds, or the kind of its error.
    pub open spec fn spec_emit_seq_fold_chars_from_local(&self, seq_local: u32, acc_local: u32, folder: ValueId) -> Result<Seq<Instr>, ErrorKind> {
        chain(chain(Ok(seq![
            Instr::LocalGet(seq_local),
            Instr::I32Load(MemArg { offset: 8, align: 2 }),
            Instr::LocalSet(self.scratch_i32_3),
            Instr::LocalGet(self.scratch_i32_3),
            Instr::I32Load(MemArg { offset: 0, align: 2 }),
            Instr::LocalSet(self.scratch_i32_4),
            Instr::I32Const(0i32),
            Instr::LocalSet(self.scratch_i32_5),
            Instr::Block(BlockTy::Empty),
            Instr::Loop(BlockTy::Empty),
            Instr::LocalGet(self.scratch_i32_5),
            Instr::LocalGet(self.scratch_i32_4),
            Instr::I32GeU,
            Instr::BrIf(1),
        ]
        + self.spec_emit_utf8_char_width_from_local(self.scratch_i32_3, self.scratch_i32_5, self.scratch_i32_6)
        + self.spec_emit_utf8_codepoint_from_local(self.scratch_i32_3, self.scratch_i32_5, self.scratch_i32_6, self.scratch_i32_7)
        + seq![Instr::LocalGet(acc_local), Instr::LocalGet(self.scratch_i32_7)]), self.spec_emit_indirect_call_two_args(folder)), Ok(seq![
            Instr::LocalSet(acc_local),
            Instr::LocalGet(self.scratch_i32_5),
            Instr::LocalGet(self.scratch_i32_6),
            Instr::I32Add,
            Instr::LocalSet(self.scratch_i32_5),
            Instr::Br(0),
            Instr::End,
            Instr::End,
        ]))
    }

    /// Appends the instructions of `emit_seq_fold_chars_from_local`.
    pub(crate) fn emit_seq_fold_chars_from_local(&self, out: &mut Vec<Instr>, seq_local: u32, acc_local: u32, folder: ValueId) -> (r: Result<(), CodegenError>)
        requires
            self.wf(),
            self.value_ok(folder),
        ensures
            emits(r, old(out)@, final(out)@, self.spec_emit_seq_fold_chars_from_local(seq_local, acc_local, folder)),
    {
        let mut v: Vec<Instr> = vec![
            Instr::LocalGet(seq_local),
            Instr::I32Load(MemArg { offset: 8, align: 2 }),
            Instr::LocalSet(self.scratch_i32_3),
            Instr::LocalGet(self.scratch_i32_3),
            Instr::I32Load(MemArg { offset: 0, align: 2 }),
            Instr::LocalSet(self.scratch_i32_4),
            Instr::I32Const(0i32),
            Instr::LocalSet(self.scratch_i32_5),
            Instr::Block(BlockTy::Empty),
            Instr::Loop(BlockTy::Empty),
            Instr::LocalGet(self.scratch_i32_5),
            Instr::LocalGet(self.scratch_i32_4),
            Instr::I32GeU,
            Instr::BrIf(1),
        ];
        self.emit_utf8_char_width_from_local(&mut v, self.scratch_i32_3, self.scratch_i32_5, self.scratch_i32_6);
        self.emit_utf8_codepoint_from_local(&mut v, self.scratch_i32_3, self.scratch_i32_5, self.scratch_i32_6, self.scratch_i32_7);
        let mut w: Vec<Instr> = vec![Instr::LocalGet(acc_local), Instr::LocalGet(self.scratch_i32_7)];
        v.append(&mut w);
        self.emit_indirect_call_two_args(&mut v, folder)?;
        let mut w: Vec<Instr> = vec![
            Instr::LocalSet(acc_local),
            Instr::LocalGet(self.scratch_i32_5),
            Instr::LocalGet(self.scratch_i32_6),
            Instr::I32Add,
            Instr::LocalSet(self.scratch_i32_5),
            Instr::Br(0),
            Instr::End,
            Instr::End,
        ];
        v.append(&mut w);
        assert(self.spec_emit_seq_fold_chars_from_local(seq_local, acc_local, folder) matches Ok(s) && v@ =~= s);
        out.append(&mut v);
        Ok(())
    }

    /// The instructions that `emit_seq_fold_lines_from_local` appends when it succeeds, or the kind of its error.
    pub open spec fn spec_emit_seq_fold_lines_from_local(&self, seq_local: u32, acc_local: u32, folder: ValueId) -> Result<Seq<Instr>, ErrorKind> {
        chain(chain(chain(chain(Ok(seq![
            Instr::LocalGet(seq_local),
            Instr::I32Load(MemArg { offset: 8, align: 2 }),
            Instr::LocalSet(self.scratch_i32_3),
            Instr::LocalGet(self.scratch_i32_3),
            Instr::I32Load(MemArg { offset: 0, align: 2 }),
            Instr::LocalSet(self.scratch_i32_4),
            Instr::I32Const(0i32),
            Instr::LocalSet(self.scratch_i32_6),
            Instr::I32Const(0i32),
            Instr::LocalSet(self.scratch_i32_7),
            Instr::Block(BlockTy::Empty),
            Instr::Loop(BlockTy::Empty),
            Instr::LocalGet(self.scratch_i32_6),
            Instr::LocalGet(self.scratch_i32_4),
            Instr::I32GeU,
            Instr::BrIf(1),
            Instr::LocalGet(self.scratch_i32_3),
            Instr::I32Const(8i32),
            Instr::I32Add,
            Instr::LocalGet(self.scratch_i32_6),
            Instr::I32Add,
            Instr::I32Load8U(MemArg { offset: 0, align: 0 }),
            Instr::I32Const(10i32),
            Instr::I32Eq,
            Instr::If(BlockTy::Empty),
            Instr::LocalGet(self.scratch_i32_6),
            Instr::LocalGet(self.scratch_i32_7),
            Instr::I32Sub,
            Instr::LocalSet(self.scratch_i32_2),
            Instr::LocalGet(self.scratch_i32_6),
            Instr::LocalGet(self.scratch_i32_7),
            Instr::I32GtU,
            Instr::If(BlockTy::Empty),
            Instr::LocalGet(self.scratch_i32_3),
            Instr::I32Const(8i32),
            Instr::I32Add,
            Instr::LocalGet(self.scratch_i32_6),
            Instr::I32Const(1i32),
            Instr::I32Sub,
            Instr::I32Add,
            Instr::I32Load8U(MemArg { offset: 0, align: 0 }),
            Instr::I32Const(13i32),
            Instr::I32Eq,
            Instr::If(BlockTy::Empty),
            Instr::LocalGet(self.scratch_i32_2),
            Instr::I32Const(1i32),
            Instr::I32Sub,
            Instr::LocalSet(self.scratch_i32_2),
            Instr::End,
            Instr::End,
            Instr::LocalGet(self.scratch_i32_7),
            Instr::LocalGet(self.scratch_i32_2),
            Instr::I32Add,
            Instr::LocalSet(self.scratch_i32_10),
        ]
        + self.spec_emit_string_range_alloc_from_locals(self.scratch_i32_3, self.scratch_i32_7, self.scratch_i32_10, self.scratch_i32_5, self.scratch_i32_8, self.scratch_i32_9)
        + seq![Instr::LocalGet(acc_local), Instr::LocalGet(self.scratch_i32_5)]), self.spec_emit_indirect_call_two_args(folder)), Ok(seq![
            Instr::LocalSet(acc_local),
            Instr::LocalGet(self.scratch_i32_6),
            Instr::I32Const(1i32),
            Instr::I32Add,
            Instr::LocalSet(self.scratch_i32_7),
            Instr::End,
            Instr::LocalGet(self.scratch_i32_6),
            Instr::I32Const(1i32),
            Instr::I32Add,
            Instr::LocalSet(self.scratch_i32_6),
            Instr::Br(0),
            Instr::End,
            Instr::End,
            Instr::LocalGet(self.scratch_i32_7),
            Instr::LocalGet(self.scratch_i32_4),
            Instr::I32LtU,
            Instr::If(BlockTy::Empty),
        ]
        + self.spec_emit_string_range_alloc_from_locals(self.scratch_i32_3, self.scratch_i32_7, self.scratch_i32_4, self.scratch_i32_5, self.scratch_i32_8, self.scratch_i32_9)
        + seq![Instr::LocalGet(acc_local), Instr::LocalGet(self.scratch_i32_5)])), self.spec_emit_indirect_call_two_args(folder)), Ok(seq![Instr::LocalSet(acc_local), Instr::End]))
    }

    /// Appends the instructions of `emit_seq_fold_lines_from_local`.
    pub(crate) fn emit_seq_fold_lines_from_local(&self, out: &mut Vec<Instr>, seq_local: u32, acc_local: u32, folder: ValueId) -> (r: Result<(), CodegenError>)
        requires
            self.wf(),
            self.value_ok(folder),
        ensures
            emits(r, old(out)@, final(out)@, self.spec_emit_seq_fold_lines_from_local(seq_local, acc_local, folder)),
    {
        let mut v: Vec<Instr> = vec![
            Instr::LocalGet(seq_local),
            Instr::I32Load(MemArg { offset: 8, align: 2 }),
            Instr::LocalSet(self.scratch_i32_3),
            Instr::LocalGet(self.scratch_i32_3),
            Instr::I32Load(MemArg { offset: 0, align: 2 }),
            Instr::LocalSet(self.scratch_i32_4),
            Instr::I32Const(0i32),
            Instr::LocalSet(self.scratch_i32_6),
            Instr::I32Const(0i32),
            Instr::LocalSet(self.scratch_i32_7),
            Instr::Block(BlockTy::Empty),
            Instr::Loop(BlockTy::Empty),
            Instr::LocalGet(self.scratch_i32_6),
            Instr::LocalGet(self.scratch_i32_4),
            Instr::I32GeU,
            Instr::BrIf(1),
            Instr::LocalGet(self.scratch_i32_3),
            Instr::I32Const(8i32),
            Instr::I32Add,
            Instr::LocalGet(self.scratch_i32_6),
            Instr::I32Add,
            Instr::I32Load8U(MemArg { offset: 0, align: 0 }),
            Instr::I32Const(10i32),
            Instr::I32Eq,
            Instr::If(BlockTy::Empty),
            Instr::LocalGet(self.scratch_i32_6),
            Instr::LocalGet(self.scratch_i32_7),
            Instr::I32Sub,
            Instr::LocalSet(self.scratch_i32_2),
            Instr::LocalGet(self.scratch_i32_6),
            Instr::LocalGet(self.scratch_i32_7),
            Instr::I32GtU,
            Instr::If(BlockTy::Empty),
            Instr::LocalGet(self.scratch_i32_3),
            Instr::I32Const(8i32),
            Instr::I32Add,
            Instr::LocalGet(self.scratch_i32_6),
            Instr::I32Const(1i32),
            Instr::I32Sub,
            Instr::I32Add,
            Instr::I32Load8U(MemArg { offset: 0, align: 0 }),
            Instr::I32Const(13i32),
            Instr::I32Eq,
            Instr::If(BlockTy::Empty),
            Instr::LocalGet(self.scratch_i32_2),
            Instr::I32Const(1i32),
            Instr::I32Sub,
            Instr::LocalSet(self.scratch_i32_2),
            Instr::End,
            Instr::End,
            Instr::LocalGet(self.scratch_i32_7),
            Instr::LocalGet(self.scratch_i32_2),
            Instr::I32Add,
            Instr::LocalSet(self.scratch_i32_10),
        ];
        self.emit_string_range_alloc_from_locals(&mut v, self.scratch_i32_3, self.scratch_i32_7, self.scratch_i32_10, self.scratch_i32_5, self.scratch_i32_8, self.scratch_i32_9);
        let mut w: Vec<Instr> = vec![Instr::LocalGet(acc_local), Instr::LocalGet(self.scratch_i32_5)];
        v.append(&mut w);
        self.emit_indirect_call_two_args(&mut v, folder)?;
        let mut w: Vec<Instr> = vec![
            Instr::LocalSet(acc_local),
            Instr::LocalGet(self.scratch_i32_6),
            Instr::I32Const(1i32),
            Instr::I32Add,
            Instr::LocalSet(self.scratch_i32_7),
            Instr::End,
            Instr::LocalGet(self.scratch_i32_6),
            Instr::I32Const(1i32),
            Instr::I32Add,
            Instr::LocalSet(self.scratch_i32_6),
            Instr::Br(0),
            Instr::End,
            Instr::End,
            Instr::LocalGet(self.scratch_i32_7),
            Instr::LocalGet(self.scratch_i32_4),
            Instr::I32LtU,
            Instr::If(BlockTy::Empty),
        ];
        v.append(&mut w);
        self.emit_string_range_alloc_from_locals(&mut v, self.scratch_i32_3, self.scratch_i32_7, self.scratch_i32_4, self.scratch_i32_5, self.scratch_i32_8, self.scratch_i32_9);
        let mut w: Vec<Instr> = vec![Instr::LocalGet(acc_local), Instr::LocalGet(self.scratch_i32_5)];
        v.append(&mut w);
        self.emit_indirect_call_two_args(&mut v, folder)?;
        let mut w: Vec<Instr> = vec![Instr::LocalSet(acc_local), Instr::End];
        v.append(&mut w);
        assert(self.spec_emit_seq_fold_lines_from_local(seq_local, acc_local, folder) matches Ok(s) && v@ =~= s);
        out.append(&mut v);
        Ok(())
    }

    /// The instructions that `emit_seq_fold_split_from_local` appends when it succeeds, or the kind of its error.
    pub open spec fn spec_emit_seq_fold_split_from_local(&self, seq_local: u32, acc_local: u32, folder: ValueId) -> Result<Seq<Instr>, ErrorKind> {
        chain(chain(chain(chain(chain(chain(Ok(seq![
            Instr::LocalGet(seq_local),
            Instr::I32Load(MemArg { offset: 8, align: 2 }),
            Instr::LocalSet(self.scratch_i32_3),
            Instr::LocalGet(seq_local),
            Instr::LocalSet(self.scratch_i32_4),
            Instr::LocalGet(self.scratch_i32_3),
            Instr::I32Load(MemArg { offset: 0, align: 2 }),
            Instr::LocalSet(self.scratch_i32_6),
            Instr::LocalGet(self.scratch_i32_4),
            Instr::I32Load(MemArg { offset: 12, align: 2 }),
            Instr::I32Load(MemArg { offset: 0, align: 2 }),
            Instr::I32Eqz,
            Instr::If(BlockTy::Empty),
        ]), self.spec_emit_seq_fold_empty_delim_split_from_local(self.scratch_i32_3, self.scratch_i32_6, acc_local, folder)), Ok(seq![
            Instr::Else,
            Instr::I32Const(0i32),
            Instr::LocalSet(self.scratch_i32_7),
            Instr::I32Const(0i32),
            Instr::LocalSet(self.scratch_i32_2),
            Instr::Block(BlockTy::Empty),
            Instr::Loop(BlockTy::Empty),
            Instr::LocalGet(self.scratch_i32_7),
            Instr::LocalGet(self.scratch_i32_4),
            Instr::I32Load(MemArg { offset: 12, align: 2 }),
            Instr::I32Load(MemArg { offset: 0, align: 2 }),
            Instr::I32Add,
            Instr::LocalGet(self.scratch_i32_6),
            Instr::I32GtU,
            Instr::BrIf(1),
            Instr::I32Const(1i32),
            Instr::LocalSet(self.scratch_i32),
            Instr::I32Const(0i32),
            Instr::LocalSet(self.scratch_i32_5),
            Instr::Block(BlockTy::Empty),
            Instr::Loop(BlockTy::Empty),
            Instr::LocalGet(self.scratch_i32_5),
            Instr::LocalGet(self.scratch_i32_4),
            Instr::I32Load(MemArg { offset: 12, align: 2 }),
            Instr::I32Load(MemArg { offset: 0, align: 2 }),
            Instr::I32GeU,
            Instr::BrIf(1),
            Instr::LocalGet(self.scratch_i32_3),
            Instr::I32Const(8i32),
            Instr::I32Add,
            Instr::LocalGet(self.scratch_i32_7),
            Instr::I32Add,
            Instr::LocalGet(self.scratch_i32_5),
            Instr::I32Add,
            Instr::I32Load8U(MemArg { offset: 0, align: 0 }),
            Instr::LocalGet(self.scratch_i32_4),
            Instr::I32Load(MemArg { offset: 12, align: 2 }),
            Instr::I32Const(8i32),
            Instr::I32Add,
            Instr::LocalGet(self.scratch_i32_5),
            Instr::I32Add,
            Instr::I32Load8U(MemArg { offset: 0, align: 0 }),
            Instr::I32Ne,
            Instr::If(BlockTy::Empty),
            Instr::I32Const(0i32),
            Instr::LocalSet(self.scratch_i32),
            Instr::Br(2),
            Instr::End,
            Instr::LocalGet(self.scratch_i32_5),
            Instr::I32Const(1i32),
            Instr::I32Add,
            Instr::LocalSet(self.scratch_i32_5),
            Instr::Br(0),
            Instr::End,
            Instr::End,
            Instr::LocalGet(self.scratch_i32),
            Instr::If(BlockTy::Empty),
        ]
        + self.spec_emit_string_range_alloc_from_locals(self.scratch_i32_3, self.scratch_i32_2, self.scratch_i32_7, self.scratch_i32_10, self.scratch_i32, self.scratch_i32_8)
        + seq![Instr::LocalGet(acc_local), Instr::LocalGet(self.scratch_i32_10)])), self.spec_emit_indirect_call_two_args(folder)), Ok(seq![
            Instr::LocalSet(acc_local),
            Instr::LocalGet(self.scratch_i32_7),
            Instr::LocalGet(self.scratch_i32_4),
            Instr::I32Load(MemArg { offset: 12, align: 2 }),
            Instr::I32Load(MemArg { offset: 0, align: 2 }),
            Instr::I32Add,
            Instr::LocalSet(self.scratch_i32_7),
            Instr::LocalGet(self.scratch_i32_7),
            Instr::LocalSet(self.scratch_i32_2),
            Instr::Else,
            Instr::LocalGet(self.scratch_i32_7),
            Instr::I32Const(1i32),
            Instr::I32Add,
            Instr::LocalSet(self.scratch_i32_7),
            Instr::End,
            Instr::Br(0),
            Instr::End,
            Instr::End,
        ]
        + self.spec_emit_string_range_alloc_from_locals(self.scratch_i32_3, self.scratch_i32_2, self.scratch_i32_6, self.scratch_i32_10, self.scratch_i32, self.scratch_i32_8)
        + seq![Instr::LocalGet(acc_local), Instr::LocalGet(self.scratch_i32_10)])), self.spec_emit_indirect_call_two_args(folder)), Ok(seq![Instr::LocalSet(acc_local), Instr::End]))
    }

    /// Appends the instructions of `emit_seq_fold_split_from_local`.
    #[verifier::rlimit(40)]
    pub(crate) fn emit_seq_fold_split_from_local(&self, out: &mut Vec<Instr>, seq_local: u32, acc_local: u32, folder: ValueId) -> (r: Result<(), CodegenError>)
        requires
            self.wf(),
            self.value_ok(folder),
        ensures
            emits(r, old(out)@, final(out)@, self.spec_emit_seq_fold_split_from_local(seq_local, acc_local, folder)),
    {
        let mut v: Vec<Instr> = vec![
            Instr::LocalGet(seq_local),
            Instr::I32Load(MemArg { offset: 8, align: 2 }),
            Instr::LocalSet(self.scratch_i32_3),
            Instr::LocalGet(seq_local),
            Instr::LocalSet(self.scratch_i32_4),
            Instr::LocalGet(self.scratch_i32_3),
            Instr::I32Load(MemArg { offset: 0, align: 2 }),
            Instr::LocalSet(self.scratch_i32_6),
            Instr::LocalGet(self.scratch_i32_4),
            Instr::I32Load(MemArg { offset: 12, align: 2 }),
            Instr::I32Load(MemArg { offset: 0, align: 2 }),
            Instr::I32Eqz,
            Instr::If(BlockTy::Empty),
        ];
        self.emit_seq_fold_empty_delim_split_from_local(&mut v, self.scratch_i32_3, self.scratch_i32_6, acc_local, folder)?;
        let mut w: Vec<Instr> = vec![
            Instr::Else,
            Instr::I32Const(0i32),
            Instr::LocalSet(self.scratch_i32_7),
            Instr::I32Const(0i32),
            Instr::LocalSet(self.scratch_i32_2),
            Instr::Block(BlockTy::Empty),
            Instr::Loop(BlockTy::Empty),
            Instr::LocalGet(self.scratch_i32_7),
            Instr::LocalGet(self.scratch_i32_4),
            Instr::I32Load(MemArg { offset: 12, align: 2 }),
            Instr::I32Load(MemArg { offset: 0, align: 2 }),
            Instr::I32Add,
            Instr::LocalGet(self.scratch_i32_6),
            Instr::I32GtU,
            Instr::BrIf(1),
            Instr::I32Const(1i32),
            Instr::LocalSet(self.scratch_i32),
            Instr::I32Const(0i32),
            Instr::LocalSet(self.scratch_i32_5),
            Instr::Block(BlockTy::Empty),
            Instr::Loop(BlockTy::Empty),
            Instr::LocalGet(self.scratch_i32_5),
            Instr::LocalGet(self.scratch_i32_4),
            Instr::I32Load(MemArg { offset: 12, align: 2 }),
            Instr::I32Load(MemArg { offset: 0, align: 2 }),
            Instr::I32GeU,
            Instr::BrIf(1),
            Instr::LocalGet(self.scratch_i32_3),
            Instr::I32Const(8i32),
            Instr::I32Add,
            Instr::LocalGet(self.scratch_i32_7),
            Instr::I32Add,
            Instr::LocalGet(self.scratch_i32_5),
            Instr::I32Add,
            Instr::I32Load8U(MemArg { offset: 0, align: 0 }),
            Instr::LocalGet(self.scratch_i32_4),
            Instr::I32Load(MemArg { offset: 12, align: 2 }),
            Instr::I32Const(8i32),
            Instr::I32Add,
            Instr::LocalGet(self.scratch_i32_5),
            Instr::I32Add,
            Instr::I32Load8U(MemArg { offset: 0, align: 0 }),
            Instr::I32Ne,
            Instr::If(BlockTy::Empty),
            Instr::I32Const(0i32),
            Instr::LocalSet(self.scratch_i32),
            Instr::Br(2),
            Instr::End,
            Instr::LocalGet(self.scratch_i32_5),
            Instr::I32Const(1i32),
            Instr::I32Add,
            Instr::LocalSet(self.scratch_i32_5),
            Instr::Br(0),
            Instr::End,
            Instr::End,
            Instr::LocalGet(self.scratch_i32),
            Instr::If(BlockTy::Empty),
        ];
        v.append(&mut w);
        self.emit_string_range_alloc_from_locals(&mut v, self.scratch_i32_3, self.scratch_i32_2, self.scratch_i32_7, self.scratch_i32_10, self.scratch_i32, self.scratch_i32_8);
        let mut w: Vec<Instr> = vec![Instr::LocalGet(acc_local), Instr::LocalGet(self.scratch_i32_10)];
        v.append(&mut w);
        self.emit_indirect_call_two_args(&mut v, folder)?;
        let mut w: Vec<Instr> = vec![
            Instr::LocalSet(acc_local),
            Instr::LocalGet(self.scratch_i32_7),
            Instr::LocalGet(self.scratch_i32_4),
            Instr::I32Load(MemArg { offset: 12, align: 2 }),
            Instr::I32Load(MemArg { offset: 0, align: 2 }),
            Instr::I32Add,
            Instr::LocalSet(self.scratch_i32_7),
            Instr::LocalGet(self.scratch_i32_7),
            Instr::LocalSet(self.scratch_i32_2),
            Instr::Else,
            Instr::LocalGet(self.scratch_i32_7),
            Instr::I32Const(1i32),
            Instr::I32Add,
            Instr::LocalSet(self.scratch_i32_7),
            Instr::End,
            Instr::Br(0),
            Instr::End,
            Instr::End,
        ];
        v.append(&mut w);
        self.emit_string_range_alloc_from_locals(&mut v, self.scratch_i32_3, self.scratch_i32_2, self.scratch_i32_6, self.scratch_i32_10, self.scratch_i32, self.scratch_i32_8);
        let mut w: Vec<Instr> = vec![Instr::LocalGet(acc_local), Instr::LocalGet(self.scratch_i32_10)];
        v.append(&mut w);
        self.emit_indirect_call_two_args(&mut v, folder)?;
        let mut w: Vec<Instr> = vec![Instr::LocalSet(acc_local), Instr::End];
        v.append(&mut w);
        assert(self.spec_emit_seq_fold_split_from_local(seq_local, acc_local, folder) matches Ok(s) && v@ =~= s);
        out.append(&mut v);
        Ok(())
    }

    /// The instructions that `emit_seq_fold_empty_delim_split_from_local` appends when it succeeds, or the kind of its error.
    pub open spec fn spec_emit_seq_fold_empty_delim_split_from_local(&self, string_local: u32, string_byte_len_local: u32, acc_local: u32, folder: ValueId) -> Result<Seq<Instr>, ErrorKind> {
        chain(chain(chain(chain(chain(chain(Ok(self.spec_emit_string_const(Seq::empty(), 0)
        + seq![
            Instr::LocalSet(self.scratch_i32_5),
            Instr::LocalGet(acc_local),
            Instr::LocalGet(self.scratch_i32_5),
        ]), self.spec_emit_indirect_call_two_args(folder)), Ok(seq![
            Instr::LocalSet(acc_local),
            Instr::I32Const(0i32),
            Instr::LocalSet(self.scratch_i32_7),
            Instr::Block(BlockTy::Empty),
            Instr::Loop(BlockTy::Empty),
            Instr::LocalGet(self.scratch_i32_7),
            Instr::LocalGet(string_byte_len_local),
            Instr::I32GeU,
            Instr::BrIf(1),
        ]
        + self.spec_emit_utf8_char_width_from_local(string_local, self.scratch_i32_7, self.scratch_i32_2)
        + seq![
            Instr::LocalGet(self.scratch_i32_7),
            Instr::LocalGet(self.scratch_i32_2),
            Instr::I32Add,
            Instr::LocalSet(self.scratch_i32_8),
        ]
        + self.spec_emit_string_range_alloc_from_locals(string_local, self.scratch_i32_7, self.scratch_i32_8, self.scratch_i32_5, self.scratch_i32, self.scratch_i32_2)
        + seq![Instr::LocalGet(acc_local), Instr::LocalGet(self.scratch_i32_5)])), self.spec_emit_indirect_call_two_args(folder)), Ok(seq![
            Instr::LocalSet(acc_local),
            Instr::LocalGet(self.scratch_i32_8),
            Instr::LocalSet(self.scratch_i32_7),
            Instr::Br(0),
            Instr::End,
            Instr::End,
        ]
        + self.spec_emit_string_const(Seq::empty(), 0)
        + seq![
            Instr::LocalSet(self.scratch_i32_5),
            Instr::LocalGet(acc_local),
            Instr::LocalGet(self.scratch_i32_5),
        ])), self.spec_emit_indirect_call_two_args(folder)), Ok(seq![Instr::LocalSet(acc_local)]))
    }

    /// Appends the instructions of `emit_seq_fold_empty_delim_split_from_local`.
    pub(crate) fn emit_seq_fold_empty_delim_split_from_local(&self, out: &mut Vec<Instr>, string_local: u32, string_byte_len_local: u32, acc_local: u32, folder: ValueId) -> (r: Result<(), CodegenError>)
        requires
            self.wf(),
            self.value_ok(folder),
        ensures
            emits(r, old(out)@, final(out)@, self.spec_emit_seq_fold_empty_delim_split_from_local(string_local, string_byte_len_local, acc_local, folder)),
    {
        let mut v: Vec<Instr> = Vec::new();
        proof { reveal_strlit(""); }
        self.emit_string_const(&mut v, "");
        let mut w: Vec<Instr> = vec![
            Instr::LocalSet(self.scratch_i32_5),
            Instr::LocalGet(acc_local),
            Instr::LocalGet(self.scratch_i32_5),
        ];
        v.append(&mut w);
        self.emit_indirect_call_two_args(&mut v, folder)?;
        let mut w: Vec<Instr> = vec![
            Instr::LocalSet(acc_local),
            Instr::I32Const(0i32),
            Instr::LocalSet(self.scratch_i32_7),
            Instr::Block(BlockTy::Empty),
            Instr::Loop(BlockTy::Empty),
            Instr::LocalGet(self.scratch_i32_7),
            Instr::LocalGet(string_byte_len_local),
            Instr::I32GeU,
            Instr::BrIf(1),
        ];
        v.append(&mut w);
        self.emit_utf8_char_width_from_local(&mut v, string_local, self.scratch_i32_7, self.scratch_i32_2);
        let mut w: Vec<Instr> = vec![
            Instr::LocalGet(self.scratch_i32_7),
            Instr::LocalGet(self.scratch_i32_2),
            Instr::I32Add,
            Instr::LocalSet(self.scratch_i32_8),
        ];
        v.append(&mut w);
        self.emit_string_range_alloc_from_locals(&mut v, string_local, self.scratch_i32_7, self.scratch_i32_8, self.scratch_i32_5, self.scratch_i32, self.scratch_i32_2);
        let mut w: Vec<Instr> = vec![Instr::LocalGet(acc_local), Instr::LocalGet(self.scratch_i32_5)];
        v.append(&mut w);
        self.emit_indirect_call_two_args(&mut v, folder)?;
        let mut w: Vec<Instr> = vec![
            Instr::LocalSet(acc_local),
            Instr::LocalGet(self.scratch_i32_8),
            Instr::LocalSet(self.scratch_i32_7),
            Instr::Br(0),
            Instr::End,
            Instr::End,
        ];
        v.append(&mut w);
        proof { reveal_strlit(""); }
        self.emit_string_const(&mut v, "");
        let mut w: Vec<Instr> = vec![
            Instr::LocalSet(self.scratch_i32_5),
            Instr::LocalGet(acc_local),
            Instr::LocalGet(self.scratch_i32_5),
        ];
        v.append(&mut w);
        self.emit_indirect_call_two_args(&mut v, folder)?;
        let mut w: Vec<Instr> = vec![Instr::LocalSet(acc_local)];
        v.append(&mut w);
        assert(self.spec_emit_seq_fold_empty_delim_split_from_local(string_local, string_byte_len_local, acc_local, folder) matches Ok(s) && v@ =~= s);
        out.append(&mut v);
        Ok(())
    }

    /// The instructions that `emit_seq_contains` appends when it succeeds, or the kind of its error.
    pub open spec fn spec_emit_seq_contains(&self, seq: ValueId, needle: ValueId) -> Result<Seq<Instr>, ErrorKind> {
        chain(Ok(seq![Instr::LocalGet(self.spec_local(seq)), Instr::LocalSet(self.scratch_i32)]), match self.spec_core_seq_element_ty(seq) {
            Some(Ty::Int) => chain((if !(self.spec_value_ty(needle) is Int) {
                    Err(ErrorKind::UnsupportedInstruction)
                } else {
                    Ok(Seq::empty())
                }), self.spec_emit_seq_contains_range_from_local(self.scratch_i32, needle)),
            Some(Ty::Char) => chain((if !(self.spec_value_ty(needle) is Char) {
                    Err(ErrorKind::UnsupportedInstruction)
                } else {
                    Ok(Seq::empty())
                }), self.spec_emit_seq_contains_chars_from_local(self.scratch_i32, needle)),
            Some(Ty::String) => chain((if !(self.spec_value_ty(needle) is String) {
                    Err(ErrorKind::UnsupportedInstruction)
                } else {
                    Ok(Seq::empty())
                }), Ok(seq![
                    Instr::LocalGet(self.scratch_i32),
                    Instr::I32Load(MemArg { offset: 0, align: 2 }),
                    Instr::LocalSet(self.scratch_i32_2),
                    Instr::LocalGet(self.scratch_i32_2),
                    Instr::I32Const(2i32),
                    Instr::I32Eq,
                    Instr::If(BlockTy::Result(ValTy::I32)),
                ]
                + self.spec_emit_seq_contains_lines_from_local(self.scratch_i32, needle)
                + seq![
                    Instr::Else,
                    Instr::LocalGet(self.scratch_i32_2),
                    Instr::I32Const(3i32),
                    Instr::I32Eq,
                    Instr::If(BlockTy::Result(ValTy::I32)),
                ]
                + self.spec_emit_seq_contains_split_from_local(self.scratch_i32, needle)
                + seq![
                    Instr::Else,
                    Instr::Unreachable,
                    Instr::I32Const(0i32),
                    Instr::End,
                    Instr::End,
                ])),
            Some(elem_ty) => Err(ErrorKind::UnsupportedInstruction),
            None => Err(ErrorKind::UnsupportedInstruction),
        })
    }

    /// Appends the instructions of `emit_seq_contains`.
    pub(crate) fn emit_seq_contains(&self, out: &mut Vec<Instr>, seq: ValueId, needle: ValueId) -> (r: Result<(), CodegenError>)
        requires
            self.wf(),
            self.value_ok(seq),
            self.value_ok(needle),
        ensures
            emits(r, old(out)@, final(out)@, self.spec_emit_seq_contains(seq, needle)),
    {
        let mut v: Vec<Instr> = vec![Instr::LocalGet(self.local_for(seq)), Instr::LocalSet(self.scratch_i32)];
        let mut w: Vec<Instr> = match self.core_seq_element_ty(seq) {
            Some(Ty::Int) => {
                if !matches!(self.value_ty(needle), Ty::Int) {
                    return Err(CodegenError::UnsupportedInstruction(concat3("seq_contains over Wasm Seq<Int> expects Int needle, got ", ty_text(self.value_ty(needle)).as_str(), "")));
                }
                let mut b: Vec<Instr> = Vec::new();
                self.emit_seq_contains_range_from_local(&mut b, self.scratch_i32, needle)?;
                b
            },
            Some(Ty::Char) => {
                if !matches!(self.value_ty(needle), Ty::Char) {
                    return Err(CodegenError::UnsupportedInstruction(concat3("seq_contains over Wasm Seq<Char> expects Char needle, got ", ty_text(self.value_ty(needle)).as_str(), "")));
                }
                let mut b: Vec<Instr> = Vec::new();
                self.emit_seq_contains_chars_from_local(&mut b, self.scratch_i32, needle)?;
                b
            },
            Some(Ty::String) => {
                if !matches!(self.value_ty(needle), Ty::String) {
                    return Err(CodegenError::UnsupportedInstruction(concat3("seq_contains over Wasm Seq<String> expects String needle, got ", ty_text(self.value_ty(needle)).as_str(), "")));
                }
                let mut b: Vec<Instr> = vec![
                    Instr::LocalGet(self.scratch_i32),
                    Instr::I32Load(MemArg { offset: 0, align: 2 }),
                    Instr::LocalSet(self.scratch_i32_2),
                    Instr::LocalGet(self.scratch_i32_2),
                    Instr::I32Const(2i32),
                    Instr::I32Eq,
                    Instr::If(BlockTy::Result(ValTy::I32)),
                ];
                self.emit_seq_contains_lines_from_local(&mut b, self.scratch_i32, needle);
                let mut w: Vec<Instr> = vec![
                    Instr::Else,
                    Instr::LocalGet(self.scratch_i32_2),
                    Instr::I32Const(3i32),
                    Instr::I32Eq,
                    Instr::If(BlockTy::Result(ValTy::I32)),
                ];
                b.append(&mut w);
                self.emit_seq_contains_split_from_local(&mut b, self.scratch_i32, needle);
                let mut w: Vec<Instr> = vec![
                    Instr::Else,
                    Instr::Unreachable,
                    Instr::I32Const(0i32),
                    Instr::End,
                    Instr::End,
                ];
                b.append(&mut w);
                b
            },
            Some(elem_ty) => {
                return Err(CodegenError::UnsupportedInstruction(concat3("seq_contains over Wasm seq element type ", ty_text(elem_ty).as_str(), " (deferred)")));
            },
            None => {
                return Err(CodegenError::UnsupportedInstruction(concat3("seq_contains over non-Seq receiver in Wasm: ", ty_text(self.value_ty(seq)).as_str(), "")));
            },
        };
        v.append(&mut w);
        assert(self.spec_emit_seq_contains(seq, needle) matches Ok(s) && v@ =~= s);
        out.append(&mut v);
        Ok(())
    }

    /// The instructions that `emit_seq_contains_range_from_local` appends when it succeeds, or the kind of its error.
    pub open spec fn spec_emit_seq_contains_range_from_local(&self, seq_local: u32, needle: ValueId) -> Result<Seq<Instr>, ErrorKind> {
        chain(self.spec_emit_seq_load_range_bounds_from_local(seq_local), Ok(seq![
            Instr::LocalGet(self.spec_local(needle)),
            Instr::LocalSet(self.scratch_i64_3),
            Instr::I32Const(0i32),
            Instr::LocalSet(self.scratch_i32_3),
            Instr::Block(BlockTy::Empty),
            Instr::Loop(BlockTy::Empty),
            Instr::LocalGet(self.scratch_i64),
            Instr::LocalGet(self.scratch_i64_2),
            Instr::I64GeS,
            Instr::BrIf(1),
            Instr::LocalGet(self.scratch_i64),
            Instr::LocalGet(self.scratch_i64_3),
            Instr::I64Eq,
            Instr::If(BlockTy::Empty),
            Instr::I32Const(1i32),
            Instr::LocalSet(self.scratch_i32_3),
            Instr::Br(2),
            Instr::End,
            Instr::LocalGet(self.scratch_i64),
            Instr::I64Const(1i64),
            Instr::I64Add,
            Instr::LocalSet(self.scratch_i64),
            Instr::Br(0),
            Instr::End,
            Instr::End,
            Instr::LocalGet(self.scratch_i32_3),
        ]))
    }

    /// Appends the instructions of `emit_seq_contains_range_from_local`.
    pub(crate) fn emit_seq_contains_range_from_local(&self, out: &mut Vec<Instr>, seq_local: u32, needle: ValueId) -> (r: Result<(), CodegenError>)
        requires
            self.wf(),
            self.value_ok(needle),
        ensures
            emits(r, old(out)@, final(out)@, self.spec_emit_seq_contains_range_from_local(seq_local, needle)),
    {
        let mut v: Vec<Instr> = Vec::new();
        self.emit_seq_load_range_bounds_from_local(&mut v, seq_local)?;
        let mut w: Vec<Instr> = vec![
            Instr::LocalGet(self.local_for(needle)),
            Instr::LocalSet(self.scratch_i64_3),
            Instr::I32Const(0i32),
            Instr::LocalSet(self.scratch_i32_3),
            Instr::Block(BlockTy::Empty),
            Instr::Loop(BlockTy::Empty),
            Instr::LocalGet(self.scratch_i64),
            Instr::LocalGet(self.scratch_i64_2),
            Instr::I64GeS,
            Instr::BrIf(1),
            Instr::LocalGet(self.scratch_i64),
            Instr::LocalGet(self.scratch_i64_3),
            Instr::I64Eq,
            Instr::If(BlockTy::Empty),
            Instr::I32Const(1i32),
            Instr::LocalSet(self.scratch_i32_3),
            Instr::Br(2),
            Instr::End,
            Instr::LocalGet(self.scratch_i64),
            Instr::I64Const(1i64),
            Instr::I64Add,
            Instr::LocalSet(self.scratch_i64),
            Instr::Br(0),
            Instr::End,
            Instr::End,
            Instr::LocalGet(self.scratch_i32_3),
        ];
        v.append(&mut w);
        assert(self.spec_emit_seq_contains_range_from_local(seq_local, needle) matches Ok(s) && v@ =~= s);
        out.append(&mut v);
        Ok(())
    }

    /// The instructions that `emit_seq_contains_chars_from_local` appends when it succeeds, or the kind of its error.
    pub open spec fn spec_emit_seq_contains_chars_from_local(&self, seq_local: u32, needle: ValueId) -> Result<Seq<Instr>, ErrorKind> {
        Ok(seq![
            Instr::LocalGet(seq_local),
            Instr::I32Load(MemArg { offset: 8, align: 2 }),
            Instr::LocalSet(self.scratch_i32_3),
            Instr::LocalGet(self.scratch_i32_3),
            Instr::I32Load(MemArg { offset: 0, align: 2 }),
            Instr::LocalSet(self.scratch_i32_4),
            Instr::I32Const(0i32),
            Instr::LocalSet(self.scratch_i32_5),
            Instr::LocalGet(self.spec_local(needle)),
            Instr::LocalSet(self.scratch_i32_6),
            Instr::I32Const(0i32),
            Instr::LocalSet(self.scratch_i32_7),
            Instr::Block(BlockTy::Empty),
            Instr::Loop(BlockTy::Empty),
            Instr::LocalGet(self.scratch_i32_5),
            Instr::LocalGet(self.scratch_i32_4),
            Instr::I32GeU,
            Instr::BrIf(1),
        ]
        + self.spec_emit_utf8_char_width_from_local(self.scratch_i32_3, self.scratch_i32_5, self.scratch_i32_8)
        + self.spec_emit_utf8_codepoint_from_local(self.scratch_i32_3, self.scratch_i32_5, self.scratch_i32_8, self.scratch_i32_2)
        + seq![
            Instr::LocalGet(self.scratch_i32_2),
            Instr::LocalGet(self.scratch_i32_6),
            Instr::I32Eq,
            Instr::If(BlockTy::Empty),
            Instr::I32Const(1i32),
            Instr::LocalSet(self.scratch_i32_7),
            Instr::Br(2),
            Instr::End,
            Instr::LocalGet(self.scratch_i32_5),
            Instr::LocalGet(self.scratch_i32_8),
            Instr::I32Add,
            Instr::LocalSet(self.scratch_i32_5),
            Instr::Br(0),
            Instr::End,
            Instr::End,
            Instr::LocalGet(self.scratch_i32_7),
        ])
    }

    /// Appends the instructions of `emit_seq_contains_chars_from_local`.
    pub(crate) fn emit_seq_contains_chars_from_local(&self, out: &mut Vec<Instr>, seq_local: u32, needle: ValueId) -> (r: Result<(), CodegenError>)
        requires
            self.wf(),
            self.value_ok(needle),
        ensures
            emits(r, old(out)@, final(out)@, self.spec_emit_seq_contains_chars_from_local(seq_local, needle)),
    {
        let mut v: Vec<Instr> = vec![
            Instr::LocalGet(seq_local),
            Instr::I32Load(MemArg { offset: 8, align: 2 }),
            Instr::LocalSet(self.scratch_i32_3),
            Instr::LocalGet(self.scratch_i32_3),
            Instr::I32Load(MemArg { offset: 0, align: 2 }),
            Instr::LocalSet(self.scratch_i32_4),
            Instr::I32Const(0i32),
            Instr::LocalSet(self.scratch_i32_5),
            Instr::LocalGet(self.local_for(needle)),
            Instr::LocalSet(self.scratch_i32_6),
            Instr::I32Const(0i32),
            Instr::LocalSet(self.scratch_i32_7),
            Instr::Block(BlockTy::Empty),
            Instr::Loop(BlockTy::Empty),
            Instr::LocalGet(self.scratch_i32_5),
            Instr::LocalGet(self.scratch_i32_4),
            Instr::I32GeU,
            Instr::BrIf(1),
        ];
        self.emit_utf8_char_width_from_local(&mut v, self.scratch_i32_3, self.scratch_i32_5, self.scratch_i32_8);
        self.emit_utf8_codepoint_from_local(&mut v, self.scratch_i32_3, self.scratch_i32_5, self.scratch_i32_8, self.scratch_i32_2);
        let mut w: Vec<Instr> = vec![
            Instr::LocalGet(self.scratch_i32_2),
            Instr::LocalGet(self.scratch_i32_6),
            Instr::I32Eq,
            Instr::If(BlockTy::Empty),
            Instr::I32Const(1i32),
            Instr::LocalSet(self.scratch_i32_7),
            Instr::Br(2),
            Instr::End,
            Instr::LocalGet(self.scratch_i32_5),
            Instr::LocalGet(self.scratch_i32_8),
            Instr::I32Add,
            Instr::LocalSet(self.scratch_i32_5),
            Instr::Br(0),
            Instr::End,
            Instr::End,
            Instr::LocalGet(self.scratch_i32_7),
        ];
        v.append(&mut w);
        assert(self.spec_emit_seq_contains_chars_from_local(seq_local, needle) matches Ok(s) && v@ =~= s);
        out.append(&mut v);
        Ok(())
    }

    /// The instructions that `emit_seq_find` appends when it succeeds, or the kind of its error.
    pub open spec fn spec_emit_seq_find(&self, seq: ValueId, predicate: ValueId, result_ty: Ty) -> Result<Seq<Instr>, ErrorKind> {
        chain(Ok(seq![Instr::LocalGet(self.spec_local(seq)), Instr::LocalSet(self.scratch_i32)]), match self.spec_core_seq_element_ty(seq) {
            Some(Ty::Int) => self.spec_emit_seq_find_range_from_local(self.scratch_i32, predicate, result_ty),
            Some(Ty::Char) => self.spec_emit_seq_find_chars_from_local(self.scratch_i32, predicate, result_ty),
            Some(Ty::String) => chain(chain(chain(chain(Ok(seq![
                    Instr::LocalGet(self.scratch_i32),
                    Instr::I32Load(MemArg { offset: 0, align: 2 }),
                    Instr::LocalSet(self.scratch_i32_2),
                    Instr::LocalGet(self.scratch_i32_2),
                    Instr::I32Const(2i32),
                    Instr::I32Eq,
                    Instr::If(BlockTy::Result(ValTy::I32)),
                ]), self.spec_emit_seq_find_lines_from_local(self.scratch_i32, predicate, result_ty)), Ok(seq![
                    Instr::Else,
                    Instr::LocalGet(self.scratch_i32_2),
                    Instr::I32Const(3i32),
                    Instr::I32Eq,
                    Instr::If(BlockTy::Result(ValTy::I32)),
                ])), self.spec_emit_seq_find_split_from_local(self.scratch_i32, predicate, result_ty)), Ok(seq![
                    Instr::Else,
                    Instr::Unreachable,
                    Instr::I32Const(0i32),
                    Instr::End,
                    Instr::End,
                ])),
            Some(elem_ty) => Err(ErrorKind::UnsupportedInstruction),
            None => Err(ErrorKind::UnsupportedInstruction),
        })
    }

    /// Appends the instructions of `emit_seq_find`.
    pub(crate) fn emit_seq_find(&self, out: &mut Vec<Instr>, seq: ValueId, predicate: ValueId, result_ty: &Ty) -> (r: Result<(), CodegenError>)
        requires
            self.wf(),
            self.value_ok(seq),
            self.value_ok(predicate),
        ensures
            emits(r, old(out)@, final(out)@, self.spec_emit_seq_find(seq, predicate, *result_ty)),
    {
        let mut v: Vec<Instr> = vec![Instr::LocalGet(self.local_for(seq)), Instr::LocalSet(self.scratch_i32)];
        let mut w: Vec<Instr> = match self.core_seq_element_ty(seq) {
            Some(Ty::Int) => {
                let mut b: Vec<Instr> = Vec::new();
                self.emit_seq_find_range_from_local(&mut b, self.scratch_i32, predicate, result_ty)?;
                b
            },
            Some(Ty::Char) => {
                let mut b: Vec<Instr> = Vec::new();
                self.emit_seq_find_chars_from_local(&mut b, self.scratch_i32, predicate, result_ty)?;
                b
            },
            Some(Ty::String) => {
                let mut b: Vec<Instr> = vec![
                    Instr::LocalGet(self.scratch_i32),
                    Instr::I32Load(MemArg { offset: 0, align: 2 }),
                    Instr::LocalSet(self.scratch_i32_2),
                    Instr::LocalGet(self.scratch_i32_2),
                    Instr::I32Const(2i32),
                    Instr::I32Eq,
                    Instr::If(BlockTy::Result(ValTy::I32)),
                ];
                self.emit_seq_find_lines_from_local(&mut b, self.scratch_i32, predicate, result_ty)?;
                let mut w: Vec<Instr> = vec![
                    Instr::Else,
                    Instr::LocalGet(self.scratch_i32_2),
                    Instr::I32Const(3i32),
                    Instr::I32Eq,
                    Instr::If(BlockTy::Result(ValTy::I32)),
                ];
                b.append(&mut w);
                self.emit_seq_find_split_from_local(&mut b, self.scratch_i32, predicate, result_ty)?;
                let mut w: Vec<Instr> = vec![
                    Instr::Else,
                    Instr::Unreachable,
                    Instr::I32Const(0i32),
                    Instr::End,
                    Instr::End,
                ];
                b.append(&mut w);
                b
            },
            Some(elem_ty) => {
                return Err(CodegenError::UnsupportedInstruction(concat3("seq_find over Wasm seq element type ", ty_text(elem_ty).as_str(), " (deferred)")));
            },
            None => {
                return Err(CodegenError::UnsupportedInstruction(concat3("seq_find over non-Seq receiver in Wasm: ", ty_text(self.value_ty(seq)).as_str(), "")));
            },
        };
        v.append(&mut w);
        assert(self.spec_emit_seq_find(seq, predicate, *result_ty) matches Ok(s) && v@ =~= s);
        out.append(&mut v);
        Ok(())
    }

    /// The instructions that `emit_seq_find_range_from_local` appends when it succeeds, or the kind of its error.
    pub open spec fn spec_emit_seq_find_range_from_local(&self, seq_local: u32, predicate: ValueId, result_ty: Ty) -> Result<Seq<Instr>, ErrorKind> {
        chain(chain(chain(chain(chain(chain(self.spec_emit_seq_load_range_bounds_from_local(seq_local), self.spec_emit_option_none(result_ty, self.scratch_i32_3)), Ok(seq![
            Instr::Block(BlockTy::Empty),
            Instr::Loop(BlockTy::Empty),
            Instr::LocalGet(self.scratch_i64),
            Instr::LocalGet(self.scratch_i64_2),
            Instr::I64GeS,
            Instr::BrIf(1),
            Instr::LocalGet(self.scratch_i64),
        ])), self.spec_emit_indirect_call_single_arg(predicate)), Ok(seq![Instr::If(BlockTy::Empty)])), self.spec_emit_single_field_adt_from_local(result_ty, "Some"@, self.scratch_i64, Ty::Int, self.scratch_i32_3)), Ok(seq![
            Instr::Br(2),
            Instr::End,
            Instr::LocalGet(self.scratch_i64),
            Instr::I64Const(1i64),
            Instr::I64Add,
            Instr::LocalSet(self.scratch_i64),
            Instr::Br(0),
            Instr::End,
            Instr::End,
            Instr::LocalGet(self.scratch_i32_3),
        ]))
    }

    /// Appends the instructions of `emit_seq_find_range_from_local`.
    pub(crate) fn emit_seq_find_range_from_local(&self, out: &mut Vec<Instr>, seq_local: u32, predicate: ValueId, result_ty: &Ty) -> (r: Result<(), CodegenError>)
        requires
            self.wf(),
            self.value_ok(predicate),
        ensures
            emits(r, old(out)@, final(out)@, self.spec_emit_seq_find_range_from_local(seq_local, predicate, *result_ty)),
    {
        let mut v: Vec<Instr> = Vec::new();
        self.emit_seq_load_range_bounds_from_local(&mut v, seq_local)?;
        self.emit_option_none(&mut v, result_ty, self.scratch_i32_3)?;
        let mut w: Vec<Instr> = vec![
            Instr::Block(BlockTy::Empty),
            Instr::Loop(BlockTy::Empty),
            Instr::LocalGet(self.scratch_i64),
            Instr::LocalGet(self.scratch_i64_2),
            Instr::I64GeS,
            Instr::BrIf(1),
            Instr::LocalGet(self.scratch_i64),
        ];
        v.append(&mut w);
        self.emit_indirect_call_single_arg(&mut v, predicate)?;
        let mut w: Vec<Instr> = vec![Instr::If(BlockTy::Empty)];
        v.append(&mut w);
        self.emit_single_field_adt_from_local(&mut v, result_ty, "Some", self.scratch_i64, &Ty::Int, self.scratch_i32_3)?;
        let mut w: Vec<Instr> = vec![
            Instr::Br(2),
            Instr::End,
            Instr::LocalGet(self.scratch_i64),
            Instr::I64Const(1i64),
            Instr::I64Add,
            Instr::LocalSet(self.scratch_i64),
            Instr::Br(0),
            Instr::End,
            Instr::End,
            Instr::LocalGet(self.scratch_i32_3),
        ];
        v.append(&mut w);
        assert(self.spec_emit_seq_find_range_from_local(seq_local, predicate, *result_ty) matches Ok(s) && v@ =~= s);
        out.append(&mut v);
        Ok(())
    }

    /// The instructions that `emit_seq_find_chars_from_local` appends when it succeeds, or the kind of its error.
    pub open spec fn spec_emit_seq_find_chars_from_local(&self, seq_local: u32, predicate: ValueId, result_ty: Ty) -> Result<Seq<Instr>, ErrorKind> {
        chain(chain(chain(chain(chain(chain(Ok(seq![
            Instr::LocalGet(seq_local),
            Instr::I32Load(MemArg { offset: 8, align: 2 }),
            Instr::LocalSet(self.scratch_i32_3),
            Instr::LocalGet(self.scratch_i32_3),
            Instr::I32Load(MemArg { offset: 0, align: 2 }),
            Instr::LocalSet(self.scratch_i32_4),
            Instr::I32Const(0i32),
            Instr::LocalSet(self.scratch_i32_5),
        ]), self.spec_emit_option_none(result_ty, self.scratch_i32_6)), Ok(seq![
            Instr::Block(BlockTy::Empty),
            Instr::Loop(BlockTy::Empty),
            Instr::LocalGet(self.scratch_i32_5),
            Instr::LocalGet(self.scratch_i32_4),
            Instr::I32GeU,
            Instr::BrIf(1),
        ]
        + self.spec_emit_utf8_char_width_from_local(self.scratch_i32_3, self.scratch_i32_5, self.scratch_i32_7)
        + self.spec_emit_utf8_codepoint_from_local(self.scratch_i32_3, self.scratch_i32_5, self.scratch_i32_7, self.scratch_i32_8)
        + seq![Instr::LocalGet(self.scratch_i32_8)])), self.spec_emit_indirect_call_single_arg(predicate)), Ok(seq![Instr::If(BlockTy::Empty)])), self.spec_emit_single_field_adt_from_local(result_ty, "Some"@, self.scratch_i32_8, Ty::Char, self.scratch_i32_6)), Ok(seq![
            Instr::Br(2),
            Instr::End,
            Instr::LocalGet(self.scratch_i32_5),
            Instr::LocalGet(self.scratch_i32_7),
            Instr::I32Add,
            Instr::LocalSet(self.scratch_i32_5),
            Instr::Br(0),
            Instr::End,
            Instr::End,
            Instr::LocalGet(self.scratch_i32_6),
        ]))
    }

    /// Appends the instructions of `emit_seq_find_chars_from_local`.
    pub(crate) fn emit_seq_find_chars_from_local(&self, out: &mut Vec<Instr>, seq_local: u32, predicate: ValueId, result_ty: &Ty) -> (r: Result<(), CodegenError>)
        requires
            self.wf(),
            self.value_ok(predicate),
        ensures
            emits(r, old(out)@, final(out)@, self.spec_emit_seq_find_chars_from_local(seq_local, predicate, *result_ty)),
    {
        let mut v: Vec<Instr> = vec![
            Instr::LocalGet(seq_local),
            Instr::I32Load(MemArg { offset: 8, align: 2 }),
            Instr::LocalSet(self.scratch_i32_3),
            Instr::LocalGet(self.scratch_i32_3),
            Instr::I32Load(MemArg { offset: 0, align: 2 }),
            Instr::LocalSet(self.scratch_i32_4),
            Instr::I32Const(0i32),
            Instr::LocalSet(self.scratch_i32_5),
        ];
        self.emit_option_none(&mut v, result_ty, self.scratch_i32_6)?;
        let mut w: Vec<Instr> = vec![
            Instr::Block(BlockTy::Empty),
            Instr::Loop(BlockTy::Empty),
            Instr::LocalGet(self.scratch_i32_5),
            Instr::LocalGet(self.scratch_i32_4),
            Instr::I32GeU,
            Instr::BrIf(1),
        ];
        v.append(&mut w);
        self.emit_utf8_char_width_from_local(&mut v, self.scratch_i32_3, self.scratch_i32_5, self.scratch_i32_7);
        self.emit_utf8_codepoint_from_local(&mut v, self.scratch_i32_3, self.scratch_i32_5, self.scratch_i32_7, self.scratch_i32_8);
        let mut w: Vec<Instr> = vec![Instr::LocalGet(self.scratch_i32_8)];
        v.append(&mut w);
        self.emit_indirect_call_single_arg(&mut v, predicate)?;
        let mut w: Vec<Instr> = vec![Instr::If(BlockTy::Empty)];
        v.append(&mut w);
        self.emit_single_field_adt_from_local(&mut v, result_ty, "Some", self.scratch_i32_8, &Ty::Char, self.scratch_i32_6)?;
        let mut w: Vec<Instr> = vec![
            Instr::Br(2),
            Instr::End,
            Instr::LocalGet(self.scratch_i32_5),
            Instr::LocalGet(self.scratch_i32_7),
            Instr::I32Add,
            Instr::LocalSet(self.scratch_i32_5),
            Instr::Br(0),
            Instr::End,
            Instr::End,
            Instr::LocalGet(self.scratch_i32_6),
        ];
        v.append(&mut w);
        assert(self.spec_emit_seq_find_chars_from_local(seq_local, predicate, *result_ty) matches Ok(s) && v@ =~= s);
        out.append(&mut v);
        Ok(())
    }

    /// The instructions that `emit_seq_find_lines_from_local` appends when it succeeds, or the kind of its error.
    pub open spec fn spec_emit_seq_find_lines_from_local(&self, seq_local: u32, predicate: ValueId, result_ty: Ty) -> Result<Seq<Instr>, ErrorKind> {
        chain(chain(chain(chain(chain(chain(chain(chain(chain(chain(Ok(seq![
            Instr::LocalGet(seq_local),
            Instr::I32Load(MemArg { offset: 8, align: 2 }),
            Instr::LocalSet(self.scratch_i32_3),
            Instr::LocalGet(self.scratch_i32_3),
            Instr::I32Load(MemArg { offset: 0, align: 2 }),
            Instr::LocalSet(self.scratch_i32_4),
            Instr::I32Const(0i32),
            Instr::LocalSet(self.scratch_i32_6),
            Instr::I32Const(0i32),
            Instr::LocalSet(self.scratch_i32_7),
        ]), self.spec_emit_option_none(result_ty, self.scratch_i32_8)), Ok(seq![
            Instr::Block(BlockTy::Empty),
            Instr::Block(BlockTy::Empty),
            Instr::Loop(BlockTy::Empty),
            Instr::LocalGet(self.scratch_i32_6),
            Instr::LocalGet(self.scratch_i32_4),
            Instr::I32GeU,
            Instr::BrIf(1),
            Instr::LocalGet(self.scratch_i32_3),
            Instr::I32Const(8i32),
            Instr::I32Add,
            Instr::LocalGet(self.scratch_i32_6),
            Instr::I32Add,
            Instr::I32Load8U(MemArg { offset: 0, align: 0 }),
            Instr::I32Const(10i32),
            Instr::I32Eq,
            Instr::If(BlockTy::Empty),
            Instr::LocalGet(self.scratch_i32_6),
            Instr::LocalGet(self.scratch_i32_7),
            Instr::I32Sub,
            Instr::LocalSet(self.scratch_i32_2),
            Instr::LocalGet(self.scratch_i32_6),
            Instr::LocalGet(self.scratch_i32_7),
            Instr::I32GtU,
            Instr::If(BlockTy::Empty),
            Instr::LocalGet(self.scratch_i32_3),
            Instr::I32Const(8i32),
            Instr::I32Add,
            Instr::LocalGet(self.scratch_i32_6),
            Instr::I32Const(1i32),
            Instr::I32Sub,
            Instr::I32Add,
            Instr::I32Load8U(MemArg { offset: 0, align: 0 }),
            Instr::I32Const(13i32),
            Instr::I32Eq,
            Instr::If(BlockTy::Empty),
            Instr::LocalGet(self.scratch_i32_2),
            Instr::I32Const(1i32),
            Instr::I32Sub,
            Instr::LocalSet(self.scratch_i32_2),
            Instr::End,
            Instr::End,
            Instr::LocalGet(self.scratch_i32_7),
            Instr::LocalGet(self.scratch_i32_2),
            Instr::I32Add,
            Instr::LocalSet(self.scratch_i32),
        ]
        + self.spec_emit_string_range_alloc_from_locals(self.scratch_i32_3, self.scratch_i32_7, self.scratch_i32, self.scratch_i32_5, self.scratch_i32_9, self.scratch_i32_10)
        + seq![Instr::LocalGet(self.scratch_i32_5)])), self.spec_emit_indirect_call_single_arg(predicate)), Ok(seq![Instr::If(BlockTy::Empty)])), self.spec_emit_single_field_adt_from_local(result_ty, "Some"@, self.scratch_i32_5, Ty::String, self.scratch_i32_8)), Ok(seq![
            Instr::Br(4),
            Instr::End,
            Instr::LocalGet(self.scratch_i32_6),
            Instr::I32Const(1i32),
            Instr::I32Add,
            Instr::LocalSet(self.scratch_i32_7),
            Instr::End,
            Instr::LocalGet(self.scratch_i32_6),
            Instr::I32Const(1i32),
            Instr::I32Add,
            Instr::LocalSet(self.scratch_i32_6),
            Instr::Br(0),
            Instr::End,
            Instr::End,
            Instr::LocalGet(self.scratch_i32_7),
            Instr::LocalGet(self.scratch_i32_4),
            Instr::I32LtU,
            Instr::If(BlockTy::Empty),
        ]
        + self.spec_emit_string_range_alloc_from_locals(self.scratch_i32_3, self.scratch_i32_7, self.scratch_i32_4, self.scratch_i32_5, self.scratch_i32_9, self.scratch_i32_10)
        + seq![Instr::LocalGet(self.scratch_i32_5)])), self.spec_emit_indirect_call_single_arg(predicate)), Ok(seq![Instr::If(BlockTy::Empty)])), self.spec_emit_single_field_adt_from_local(result_ty, "Some"@, self.scratch_i32_5, Ty::String, self.scratch_i32_8)), Ok(seq![
            Instr::End,
            Instr::End,
            Instr::End,
            Instr::LocalGet(self.scratch_i32_8),
        ]))
    }

    /// Appends the instructions of `emit_seq_find_lines_from_local`: the predicate runs on each line in
    /// turn, and the first line it accepts leaves every enclosing loop and block at
    /// once with `Some` of it, so no later line is tested.
    pub(crate) fn emit_seq_find_lines_from_local(&self, out: &mut Vec<Instr>, seq_local: u32, predicate: ValueId, result_ty: &Ty) -> (r: Result<(), CodegenError>)
        requires
            self.wf(),
            self.value_ok(predicate),
        ensures
            emits(r, old(out)@, final(out)@, self.spec_emit_seq_find_lines_from_local(seq_local, predicate, *result_ty)),
    {
        let mut v: Vec<Instr> = vec![
            Instr::LocalGet(seq_local),
            Instr::I32Load(MemArg { offset: 8, align: 2 }),
            Instr::LocalSet(self.scratch_i32_3),
            Instr::LocalGet(self.scratch_i32_3),
            Instr::I32Load(MemArg { offset: 0, align: 2 }),
            Instr::LocalSet(self.scratch_i32_4),
            Instr::I32Const(0i32),
            Instr::LocalSet(self.scratch_i32_6),
            Instr::I32Const(0i32),
            Instr::LocalSet(self.scratch_i32_7),
        ];
        self.emit_option_none(&mut v, result_ty, self.scratch_i32_8)?;
        let mut w: Vec<Instr> = vec![
            Instr::Block(BlockTy::Empty),
            Instr::Block(BlockTy::Empty),
            Instr::Loop(BlockTy::Empty),
            Instr::LocalGet(self.scratch_i32_6),
            Instr::LocalGet(self.scratch_i32_4),
            Instr::I32GeU,
            Instr::BrIf(1),
            Instr::LocalGet(self.scratch_i32_3),
            Instr::I32Const(8i32),
            Instr::I32Add,
            Instr::LocalGet(self.scratch_i32_6),
            Instr::I32Add,
            Instr::I32Load8U(MemArg { offset: 0, align: 0 }),
            Instr::I32Const(10i32),
            Instr::I32Eq,
            Instr::If(BlockTy::Empty),
            Instr::LocalGet(self.scratch_i32_6),
            Instr::LocalGet(self.scratch_i32_7),
            Instr::I32Sub,
            Instr::LocalSet(self.scratch_i32_2),
            Instr::LocalGet(self.scratch_i32_6),
            Instr::LocalGet(self.scratch_i32_7),
            Instr::I32GtU,
            Instr::If(BlockTy::Empty),
            Instr::LocalGet(self.scratch_i32_3),
            Instr::I32Const(8i32),
            Instr::I32Add,
            Instr::LocalGet(self.scratch_i32_6),
            Instr::I32Const(1i32),
            Instr::I32Sub,
            Instr::I32Add,
            Instr::I32Load8U(MemArg { offset: 0, align: 0 }),
            Instr::I32Const(13i32),
            Instr::I32Eq,
            Instr::If(BlockTy::Empty),
            Instr::LocalGet(self.scratch_i32_2),
            Instr::I32Const(1i32),
            Instr::I32Sub,
            Instr::LocalSet(self.scratch_i32_2),
            Instr::End,
            Instr::End,
            Instr::LocalGet(self.scratch_i32_7),
            Instr::LocalGet(self.scratch_i32_2),
            Instr::I32Add,
            Instr::LocalSet(self.scratch_i32),
        ];
        v.append(&mut w);
        self.emit_string_range_alloc_from_locals(&mut v, self.scratch_i32_3, self.scratch_i32_7, self.scratch_i32, self.scratch_i32_5, self.scratch_i32_9, self.scratch_i32_10);
        let mut w: Vec<Instr> = vec![Instr::LocalGet(self.scratch_i32_5)];
        v.append(&mut w);
        self.emit_indirect_call_single_arg(&mut v, predicate)?;
        let mut w: Vec<Instr> = vec![Instr::If(BlockTy::Empty)];
        v.append(&mut w);
        self.emit_single_field_adt_from_local(&mut v, result_ty, "Some", self.scratch_i32_5, &Ty::String, self.scratch_i32_8)?;
        let mut w: Vec<Instr> = vec![
            Instr::Br(4),
            Instr::End,
            Instr::LocalGet(self.scratch_i32_6),
            Instr::I32Const(1i32),
            Instr::I32Add,
            Instr::LocalSet(self.scratch_i32_7),
            Instr::End,
            Instr::LocalGet(self.scratch_i32_6),
            Instr::I32Const(1i32),
            Instr::I32Add,
            Instr::LocalSet(self.scratch_i32_6),
            Instr::Br(0),
            Instr::End,
            Instr::End,
            Instr::LocalGet(self.scratch_i32_7),
            Instr::LocalGet(self.scratch_i32_4),
            Instr::I32LtU,
            Instr::If(BlockTy::Empty),
        ];
        v.append(&mut w);
        self.emit_string_range_alloc_from_locals(&mut v, self.scratch_i32_3, self.scratch_i32_7, self.scratch_i32_4, self.scratch_i32_5, self.scratch_i32_9, self.scratch_i32_10);
        let mut w: Vec<Instr> = vec![Instr::LocalGet(self.scratch_i32_5)];
        v.append(&mut w);
        self.emit_indirect_call_single_arg(&mut v, predicate)?;
        let mut w: Vec<Instr> = vec![Instr::If(BlockTy::Empty)];
        v.append(&mut w);
        self.emit_single_field_adt_from_local(&mut v, result_ty, "Some", self.scratch_i32_5, &Ty::String, self.scratch_i32_8)?;
        let mut w: Vec<Instr> = vec![
            Instr::End,
            Instr::End,
            Instr::End,
            Instr::LocalGet(self.scratch_i32_8),
        ];
        v.append(&mut w);
        assert(self.spec_emit_seq_find_lines_from_local(seq_local, predicate, *result_ty) matches Ok(s) && v@ =~= s);
        out.append(&mut v);
        Ok(())
    }

    /// The instructions that `emit_seq_find_split_from_local` appends when it succeeds, or the kind of its error.
    pub open spec fn spec_emit_seq_find_split_from_local(&self, seq_local: u32, predicate: ValueId, result_ty: Ty) -> Result<Seq<Instr>, ErrorKind> {
        chain(chain(chain(chain(chain(chain(chain(chain(chain(chain(chain(chain(Ok(seq![
            Instr::LocalGet(seq_local),
            Instr::I32Load(MemArg { offset: 8, align: 2 }),
            Instr::LocalSet(self.scratch_i32_3),
            Instr::LocalGet(seq_local),
            Instr::I32Load(MemArg { offset: 12, align: 2 }),
            Instr::LocalSet(self.scratch_i32_4),
            Instr::LocalGet(self.scratch_i32_3),
            Instr::I32Load(MemArg { offset: 0, align: 2 }),
            Instr::LocalSet(self.scratch_i32_6),
        ]), self.spec_emit_option_none(result_ty, self.scratch_i32_8)), Ok(seq![
            Instr::LocalGet(self.scratch_i32_4),
            Instr::I32Load(MemArg { offset: 0, align: 2 }),
            Instr::LocalSet(self.scratch_i32_5),
            Instr::LocalGet(self.scratch_i32_5),
            Instr::I32Eqz,
            Instr::If(BlockTy::Empty),
        ])), self.spec_emit_seq_find_empty_delim_split_from_local(predicate, result_ty)), Ok(seq![
            Instr::Else,
            Instr::I32Const(0i32),
            Instr::LocalSet(self.scratch_i32_7),
            Instr::I32Const(0i32),
            Instr::LocalSet(self.scratch_i32_2),
            Instr::Block(BlockTy::Empty),
            Instr::Block(BlockTy::Empty),
            Instr::Loop(BlockTy::Empty),
            Instr::LocalGet(self.scratch_i32_7),
            Instr::LocalGet(self.scratch_i32_5),
            Instr::I32Add,
            Instr::LocalGet(self.scratch_i32_6),
            Instr::I32GtU,
            Instr::BrIf(1),
            Instr::I32Const(1i32),
            Instr::LocalSet(self.scratch_i32),
            Instr::I32Const(0i32),
            Instr::LocalSet(self.scratch_i32_9),
            Instr::Block(BlockTy::Empty),
            Instr::Loop(BlockTy::Empty),
            Instr::LocalGet(self.scratch_i32_9),
            Instr::LocalGet(self.scratch_i32_5),
            Instr::I32GeU,
            Instr::BrIf(1),
            Instr::LocalGet(self.scratch_i32_3),
            Instr::I32Const(8i32),
            Instr::I32Add,
            Instr::LocalGet(self.scratch_i32_7),
            Instr::I32Add,
            Instr::LocalGet(self.scratch_i32_9),
            Instr::I32Add,
            Instr::I32Load8U(MemArg { offset: 0, align: 0 }),
            Instr::LocalGet(self.scratch_i32_4),
            Instr::I32Const(8i32),
            Instr::I32Add,
            Instr::LocalGet(self.scratch_i32_9),
            Instr::I32Add,
            Instr::I32Load8U(MemArg { offset: 0, align: 0 }),
            Instr::I32Ne,
            Instr::If(BlockTy::Empty),
            Instr::I32Const(0i32),
            Instr::LocalSet(self.scratch_i32),
            Instr::Br(2),
            Instr::End,
            Instr::LocalGet(self.scratch_i32_9),
            Instr::I32Const(1i32),
            Instr::I32Add,
            Instr::LocalSet(self.scratch_i32_9),
            Instr::Br(0),
            Instr::End,
            Instr::End,
            Instr::LocalGet(self.scratch_i32),
            Instr::If(BlockTy::Empty),
        ]
        + self.spec_emit_string_range_alloc_from_locals(self.scratch_i32_3, self.scratch_i32_2, self.scratch_i32_7, self.scratch_i32_10, self.scratch_i32, self.scratch_i32_9)
        + seq![Instr::LocalGet(self.scratch_i32_10)])), self.spec_emit_indirect_call_single_arg(predicate)), Ok(seq![Instr::If(BlockTy::Empty)])), self.spec_emit_single_field_adt_from_local(result_ty, "Some"@, self.scratch_i32_10, Ty::String, self.scratch_i32_8)), Ok(seq![
            Instr::Br(4),
            Instr::End,
            Instr::LocalGet(self.scratch_i32_7),
            Instr::LocalGet(self.scratch_i32_5),
            Instr::I32Add,
            Instr::LocalSet(self.scratch_i32_7),
            Instr::LocalGet(self.scratch_i32_7),
            Instr::LocalSet(self.scratch_i32_2),
            Instr::Else,
            Instr::LocalGet(self.scratch_i32_7),
            Instr::I32Const(1i32),
            Instr::I32Add,
            Instr::LocalSet(self.scratch_i32_7),
            Instr::End,
            Instr::Br(0),
            Instr::End,
            Instr::End,
        ]
        + self.spec_emit_string_range_alloc_from_locals(self.scratch_i32_3, self.scratch_i32_2, self.scratch_i32_6, self.scratch_i32_10, self.scratch_i32, self.scratch_i32_9)
        + seq![Instr::LocalGet(self.scratch_i32_10)])), self.spec_emit_indirect_call_single_arg(predicate)), Ok(seq![Instr::If(BlockTy::Empty)])), self.spec_emit_single_field_adt_from_local(result_ty, "Some"@, self.scratch_i32_10, Ty::String, self.scratch_i32_8)), Ok(seq![
            Instr::End,
            Instr::End,
            Instr::End,
            Instr::LocalGet(self.scratch_i32_8),
        ]))
    }

    /// Appends the instructions of `emit_seq_find_split_from_local`: the predicate runs on each segment in
    /// turn, and the first segment it accepts leaves every enclosing loop and block at
    /// once with `Some` of it, so no later segment is tested.
    #[verifier::rlimit(40)]
    pub(crate) fn emit_seq_find_split_from_local(&self, out: &mut Vec<Instr>, seq_local: u32, predicate: ValueId, result_ty: &Ty) -> (r: Result<(), CodegenError>)
        requires
            self.wf(),
            self.value_ok(predicate),
        ensures
            emits(r, old(out)@, final(out)@, self.spec_emit_seq_find_split_from_local(seq_local, predicate, *result_ty)),
    {
        let mut v: Vec<Instr> = vec![
            Instr::LocalGet(seq_local),
            Instr::I32Load(MemArg { offset: 8, align: 2 }),
            Instr::LocalSet(self.scratch_i32_3),
            Instr::LocalGet(seq_local),
            Instr::I32Load(MemArg { offset: 12, align: 2 }),
            Instr::LocalSet(self.scratch_i32_4),
            Instr::LocalGet(self.scratch_i32_3),
            Instr::I32Load(MemArg { offset: 0, align: 2 }),
            Instr::LocalSet(self.scratch_i32_6),
        ];
        self.emit_option_none(&mut v, result_ty, self.scratch_i32_8)?;
        let mut w: Vec<Instr> = vec![
            Instr::LocalGet(self.scratch_i32_4),
            Instr::I32Load(MemArg { offset: 0, align: 2 }),
            Instr::LocalSet(self.scratch_i32_5),
            Instr::LocalGet(self.scratch_i32_5),
            Instr::I32Eqz,
            Instr::If(BlockTy::Empty),
        ];
        v.append(&mut w);
        self.emit_seq_find_empty_delim_split_from_local(&mut v, predicate, result_ty)?;
        let mut w: Vec<Instr> = vec![
            Instr::Else,
            Instr::I32Const(0i32),
            Instr::LocalSet(self.scratch_i32_7),
            Instr::I32Const(0i32),
            Instr::LocalSet(self.scratch_i32_2),
            Instr::Block(BlockTy::Empty),
            Instr::Block(BlockTy::Empty),
            Instr::Loop(BlockTy::Empty),
            Instr::LocalGet(self.scratch_i32_7),
            Instr::LocalGet(self.scratch_i32_5),
            Instr::I32Add,
            Instr::LocalGet(self.scratch_i32_6),
            Instr::I32GtU,
            Instr::BrIf(1),
            Instr::I32Const(1i32),
            Instr::LocalSet(self.scratch_i32),
            Instr::I32Const(0i32),
            Instr::LocalSet(self.scratch_i32_9),
            Instr::Block(BlockTy::Empty),
            Instr::Loop(BlockTy::Empty),
            Instr::LocalGet(self.scratch_i32_9),
            Instr::LocalGet(self.scratch_i32_5),
            Instr::I32GeU,
            Instr::BrIf(1),
            Instr::LocalGet(self.scratch_i32_3),
            Instr::I32Const(8i32),
            Instr::I32Add,
            Instr::LocalGet(self.scratch_i32_7),
            Instr::I32Add,
            Instr::LocalGet(self.scratch_i32_9),
            Instr::I32Add,
            Instr::I32Load8U(MemArg { offset: 0, align: 0 }),
            Instr::LocalGet(self.scratch_i32_4),
            Instr::I32Const(8i32),
            Instr::I32Add,
            Instr::LocalGet(self.scratch_i32_9),
            Instr::I32Add,
            Instr::I32Load8U(MemArg { offset: 0, align: 0 }),
            Instr::I32Ne,
            Instr::If(BlockTy::Empty),
            Instr::I32Const(0i32),
            Instr::LocalSet(self.scratch_i32),
            Instr::Br(2),
            Instr::End,
            Instr::LocalGet(self.scratch_i32_9),
            Instr::I32Const(1i32),
            Instr::I32Add,
            Instr::LocalSet(self.scratch_i32_9),
            Instr::Br(0),
            Instr::End,
            Instr::End,
            Instr::LocalGet(self.scratch_i32),
            Instr::If(BlockTy::Empty),
        ];
        v.append(&mut w);
        self.emit_string_range_alloc_from_locals(&mut v, self.scratch_i32_3, self.scratch_i32_2, self.scratch_i32_7, self.scratch_i32_10, self.scratch_i32, self.scratch_i32_9);
        let mut w: Vec<Instr> = vec![Instr::LocalGet(self.scratch_i32_10)];
        v.append(&mut w);
        self.emit_indirect_call_single_arg(&mut v, predicate)?;
        let mut w: Vec<Instr> = vec![Instr::If(BlockTy::Empty)];
        v.append(&mut w);
        self.emit_single_field_adt_from_local(&mut v, result_ty, "Some", self.scratch_i32_10, &Ty::String, self.scratch_i32_8)?;
        let mut w: Vec<Instr> = vec![
            Instr::Br(4),
            Instr::End,
            Instr::LocalGet(self.scratch_i32_7),
            Instr::LocalGet(self.scratch_i32_5),
            Instr::I32Add,
            Instr::LocalSet(self.scratch_i32_7),
            Instr::LocalGet(self.scratch_i32_7),
            Instr::LocalSet(self.scratch_i32_2),
            Instr::Else,
            Instr::LocalGet(self.scratch_i32_7),
            Instr::I32Const(1i32),
            Instr::I32Add,
            Instr::LocalSet(self.scratch_i32_7),
            Instr::End,
            Instr::Br(0),
            Instr::End,
            Instr::End,
        ];
        v.append(&mut w);
        self.emit_string_range_alloc_from_locals(&mut v, self.scratch_i32_3, self.scratch_i32_2, self.scratch_i32_6, self.scratch_i32_10, self.scratch_i32, self.scratch_i32_9);
        let mut w: Vec<Instr> = vec![Instr::LocalGet(self.scratch_i32_10)];
        v.append(&mut w);
        self.emit_indirect_call_single_arg(&mut v, predicate)?;
        let mut w: Vec<Instr> = vec![Instr::If(BlockTy::Empty)];
        v.append(&mut w);
        self.emit_single_field_adt_from_local(&mut v, result_ty, "Some", self.scratch_i32_10, &Ty::String, self.scratch_i32_8)?;
        let mut w: Vec<Instr> = vec![
            Instr::End,
            Instr::End,
            Instr::End,
            Instr::LocalGet(self.scratch_i32_8),
        ];
        v.append(&mut w);
        assert(self.spec_emit_seq_find_split_from_local(seq_local, predicate, *result_ty) matches Ok(s) && v@ =~= s);
        out.append(&mut v);
        Ok(())
    }

    /// The instructions that `emit_seq_find_empty_delim_split_from_local` appends when it succeeds, or the kind of its error.
    pub open spec fn spec_emit_seq_find_empty_delim_split_from_local(&self, predicate: ValueId, result_ty: Ty) -> Result<Seq<Instr>, ErrorKind> {
        chain(chain(chain(chain(chain(chain(chain(chain(chain(chain(chain(chain(Ok(seq![Instr::Block(BlockTy::Empty)]
        + self.spec_emit_string_const(Seq::empty(), 0)
        + seq![Instr::LocalSet(self.scratch_i32_10), Instr::LocalGet(self.scratch_i32_10)]), self.spec_emit_indirect_call_single_arg(predicate)), Ok(seq![Instr::If(BlockTy::Empty)])), self.spec_emit_single_field_adt_from_local(result_ty, "Some"@, self.scratch_i32_10, Ty::String, self.scratch_i32_8)), Ok(seq![
            Instr::Br(1),
            Instr::End,
            Instr::I32Const(0i32),
            Instr::LocalSet(self.scratch_i32_7),
            Instr::Block(BlockTy::Empty),
            Instr::Loop(BlockTy::Empty),
            Instr::LocalGet(self.scratch_i32_7),
            Instr::LocalGet(self.scratch_i32_6),
            Instr::I32GeU,
            Instr::BrIf(1),
        ]
        + self.spec_emit_utf8_char_width_from_local(self.scratch_i32_3, self.scratch_i32_7, self.scratch_i32_9)
        + seq![
            Instr::LocalGet(self.scratch_i32_7),
            Instr::LocalGet(self.scratch_i32_9),
            Instr::I32Add,
            Instr::LocalSet(self.scratch_i32_5),
        ]
        + self.spec_emit_string_range_alloc_from_locals(self.scratch_i32_3, self.scratch_i32_7, self.scratch_i32_5, self.scratch_i32_10, self.scratch_i32, self.scratch_i32_2)
        + seq![Instr::LocalGet(self.scratch_i32_10)])), self.spec_emit_indirect_call_single_arg(predicate)), Ok(seq![Instr::If(BlockTy::Empty)])), self.spec_emit_single_field_adt_from_local(result_ty, "Some"@, self.scratch_i32_10, Ty::String, self.scratch_i32_8)), Ok(seq![
            Instr::Br(3),
            Instr::End,
            Instr::LocalGet(self.scratch_i32_5),
            Instr::LocalSet(self.scratch_i32_7),
            Instr::Br(0),
            Instr::End,
            Instr::End,
        ]
        + self.spec_emit_string_const(Seq::empty(), 0)
        + seq![Instr::LocalSet(self.scratch_i32_10), Instr::LocalGet(self.scratch_i32_10)])), self.spec_emit_indirect_call_single_arg(predicate)), Ok(seq![Instr::If(BlockTy::Empty)])), self.spec_emit_single_field_adt_from_local(result_ty, "Some"@, self.scratch_i32_10, Ty::String, self.scratch_i32_8)), Ok(seq![Instr::End, Instr::End]))
    }

    /// Appends the instructions of `emit_seq_find_empty_delim_split_from_local`: the predicate runs on each segment in
    /// turn, and the first segment it accepts leaves every enclosing loop and block at
    /// once with `Some` of it, so no later segment is tested.
    pub(crate) fn emit_seq_find_empty_delim_split_from_local(&self, out: &mut Vec<Instr>, predicate: ValueId, result_ty: &Ty) -> (r: Result<(), CodegenError>)
        requires
            self.wf(),
            self.value_ok(predicate),
        ensures
            emits(r, old(out)@, final(out)@, self.spec_emit_seq_find_empty_delim_split_from_local(predicate, *result_ty)),
    {
        let mut v: Vec<Instr> = vec![Instr::Block(BlockTy::Empty)];
        proof { reveal_strlit(""); }
        self.emit_string_const(&mut v, "");
        let mut w: Vec<Instr> = vec![Instr::LocalSet(self.scratch_i32_10), Instr::LocalGet(self.scratch_i32_10)];
        v.append(&mut w);
        self.emit_indirect_call_single_arg(&mut v, predicate)?;
        let mut w: Vec<Instr> = vec![Instr::If(BlockTy::Empty)];
        v.append(&mut w);
        self.emit_single_field_adt_from_local(&mut v, result_ty, "Some", self.scratch_i32_10, &Ty::String, self.scratch_i32_8)?;
        let mut w: Vec<Instr> = vec![
            Instr::Br(1),
            Instr::End,
            Instr::I32Const(0i32),
            Instr::LocalSet(self.scratch_i32_7),
            Instr::Block(BlockTy::Empty),
            Instr::Loop(BlockTy::Empty),
            Instr::LocalGet(self.scratch_i32_7),
            Instr::LocalGet(self.scratch_i32_6),
            Instr::I32GeU,
            Instr::BrIf(1),
        ];
        v.append(&mut w);
        self.emit_utf8_char_width_from_local(&mut v, self.scratch_i32_3, self.scratch_i32_7, self.scratch_i32_9);
        let mut w: Vec<Instr> = vec![
            Instr::LocalGet(self.scratch_i32_7),
            Instr::LocalGet(self.scratch_i32_9),
            Instr::I32Add,
            Instr::LocalSet(self.scratch_i32_5),
        ];
        v.append(&mut w);
        self.emit_string_range_alloc_from_locals(&mut v, self.scratch_i32_3, self.scratch_i32_7, self.scratch_i32_5, self.scratch_i32_10, self.scratch_i32, self.scratch_i32_2);
        let mut w: Vec<Instr> = vec![Instr::LocalGet(self.scratch_i32_10)];
        v.append(&mut w);
        self.emit_indirect_call_single_arg(&mut v, predicate)?;
        let mut w: Vec<Instr> = vec![Instr::If(BlockTy::Empty)];
        v.append(&mut w);
        self.emit_single_field_adt_from_local(&mut v, result_ty, "Some", self.scratch_i32_10, &Ty::String, self.scratch_i32_8)?;
        let mut w: Vec<Instr> = vec![
            Instr::Br(3),
            Instr::End,
            Instr::LocalGet(self.scratch_i32_5),
            Instr::LocalSet(self.scratch_i32_7),
            Instr::Br(0),
            Instr::End,
            Instr::End,
        ];
        v.append(&mut w);
        proof { reveal_strlit(""); }
        self.emit_string_const(&mut v, "");
        let mut w: Vec<Instr> = vec![Instr::LocalSet(self.scratch_i32_10), Instr::LocalGet(self.scratch_i32_10)];
        v.append(&mut w);
        self.emit_indirect_call_single_arg(&mut v, predicate)?;
        let mut w: Vec<Instr> = vec![Instr::If(BlockTy::Empty)];
        v.append(&mut w);
        self.emit_single_field_adt_from_local(&mut v, result_ty, "Some", self.scratch_i32_10, &Ty::String, self.scratch_i32_8)?;
        let mut w: Vec<Instr> = vec![Instr::End, Instr::End];
        v.append(&mut w);
        assert(self.spec_emit_seq_find_empty_delim_split_from_local(predicate, *result_ty) matches Ok(s) && v@ =~= s);
        out.append(&mut v);
        Ok(())
    }

}

} // verus!

