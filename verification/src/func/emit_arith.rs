//! Integer, float and character arithmetic with its runtime checks.

use vstd::prelude::*;
use crate::error::{concat3, CodegenError, ErrorKind};
use crate::func::{chain, emits, FuncCodegen};
use crate::instr::{BlockTy, Instr, MemArg, ValTy};
use crate::ir::{Ty, ValueId};
use crate::module::{spec_typed_load};
use crate::text::ty_text;

verus! {

impl<'a> FuncCodegen<'a> {

    /// The instructions that `emit_trap_if_true` appends.
    pub open spec fn spec_emit_trap_if_true(&self) -> Seq<Instr> {
        seq![
            Instr::If(BlockTy::Empty),
            Instr::Unreachable,
            Instr::End,
        ]
    }

    /// Appends the instructions of `emit_trap_if_true`.
    pub(crate) fn emit_trap_if_true(&self, out: &mut Vec<Instr>)
        requires
            self.wf(),
        ensures
            final(out)@ == old(out)@ + self.spec_emit_trap_if_true(),
    {
        let mut v: Vec<Instr> = vec![
            Instr::If(BlockTy::Empty),
            Instr::Unreachable,
            Instr::End,
        ];
        out.append(&mut v);
    }

    /// The instructions that `emit_checked_int_add` appends.
    pub open spec fn spec_emit_checked_int_add(&self, lhs: ValueId, rhs: ValueId) -> Seq<Instr> {
        seq![
            Instr::LocalGet(self.spec_local(lhs)),
            Instr::LocalGet(self.spec_local(rhs)),
            Instr::I64Add,
            Instr::LocalSet(self.scratch_i64),
            Instr::LocalGet(self.spec_local(lhs)),
            Instr::LocalGet(self.scratch_i64),
            Instr::I64Xor,
            Instr::LocalGet(self.spec_local(rhs)),
            Instr::LocalGet(self.scratch_i64),
            Instr::I64Xor,
            Instr::I64And,
            Instr::I64Const(0i64),
            Instr::I64LtS,
        ]
        + self.spec_emit_trap_if_true()
        + seq![Instr::LocalGet(self.scratch_i64)]
    }

    /// Appends the instructions of `emit_checked_int_add`.
    pub(crate) fn emit_checked_int_add(&self, out: &mut Vec<Instr>, lhs: ValueId, rhs: ValueId)
        requires
            self.wf(),
            self.value_ok(lhs),
            self.value_ok(rhs),
        ensures
            final(out)@ == old(out)@ + self.spec_emit_checked_int_add(lhs, rhs),
    {
        let mut v: Vec<Instr> = vec![
            Instr::LocalGet(self.local_for(lhs)),
            Instr::LocalGet(self.local_for(rhs)),
            Instr::I64Add,
            Instr::LocalSet(self.scratch_i64),
            Instr::LocalGet(self.local_for(lhs)),
            Instr::LocalGet(self.scratch_i64),
            Instr::I64Xor,
            Instr::LocalGet(self.local_for(rhs)),
            Instr::LocalGet(self.scratch_i64),
            Instr::I64Xor,
            Instr::I64And,
            Instr::I64Const(0i64),
            Instr::I64LtS,
        ];
        self.emit_trap_if_true(&mut v);
        let mut w: Vec<Instr> = vec![Instr::LocalGet(self.scratch_i64)];
        v.append(&mut w);
        out.append(&mut v);
    }

    /// The instructions that `emit_checked_int_sub` appends.
    pub open spec fn spec_emit_checked_int_sub(&self, lhs: ValueId, rhs: ValueId) -> Seq<Instr> {
        seq![
            Instr::LocalGet(self.spec_local(lhs)),
            Instr::LocalGet(self.spec_local(rhs)),
            Instr::I64Sub,
            Instr::LocalSet(self.scratch_i64),
            Instr::LocalGet(self.spec_local(lhs)),
            Instr::LocalGet(self.spec_local(rhs)),
            Instr::I64Xor,
            Instr::LocalGet(self.spec_local(lhs)),
            Instr::LocalGet(self.scratch_i64),
            Instr::I64Xor,
            Instr::I64And,
            Instr::I64Const(0i64),
            Instr::I64LtS,
        ]
        + self.spec_emit_trap_if_true()
        + seq![Instr::LocalGet(self.scratch_i64)]
    }

    /// Appends the instructions of `emit_checked_int_sub`.
    pub(crate) fn emit_checked_int_sub(&self, out: &mut Vec<Instr>, lhs: ValueId, rhs: ValueId)
        requires
            self.wf(),
            self.value_ok(lhs),
            self.value_ok(rhs),
        ensures
            final(out)@ == old(out)@ + self.spec_emit_checked_int_sub(lhs, rhs),
    {
        let mut v: Vec<Instr> = vec![
            Instr::LocalGet(self.local_for(lhs)),
            Instr::LocalGet(self.local_for(rhs)),
            Instr::I64Sub,
            Instr::LocalSet(self.scratch_i64),
            Instr::LocalGet(self.local_for(lhs)),
            Instr::LocalGet(self.local_for(rhs)),
            Instr::I64Xor,
            Instr::LocalGet(self.local_for(lhs)),
            Instr::LocalGet(self.scratch_i64),
            Instr::I64Xor,
            Instr::I64And,
            Instr::I64Const(0i64),
            Instr::I64LtS,
        ];
        self.emit_trap_if_true(&mut v);
        let mut w: Vec<Instr> = vec![Instr::LocalGet(self.scratch_i64)];
        v.append(&mut w);
        out.append(&mut v);
    }

    /// The instructions that `emit_checked_int_mul` appends.
    pub open spec fn spec_emit_checked_int_mul(&self, lhs: ValueId, rhs: ValueId) -> Seq<Instr> {
        seq![
            Instr::LocalGet(self.spec_local(lhs)),
            Instr::LocalGet(self.spec_local(rhs)),
            Instr::I64Mul,
            Instr::LocalSet(self.scratch_i64),
            Instr::LocalGet(self.spec_local(lhs)),
            Instr::I64Eqz,
            Instr::If(BlockTy::Empty),
            Instr::Else,
            Instr::LocalGet(self.scratch_i64),
            Instr::LocalGet(self.spec_local(lhs)),
            Instr::I64DivS,
            Instr::LocalGet(self.spec_local(rhs)),
            Instr::I64Ne,
        ]
        + self.spec_emit_trap_if_true()
        + seq![Instr::End, Instr::LocalGet(self.scratch_i64)]
    }

    /// Appends the instructions of `emit_checked_int_mul`.
    pub(crate) fn emit_checked_int_mul(&self, out: &mut Vec<Instr>, lhs: ValueId, rhs: ValueId)
        requires
            self.wf(),
            self.value_ok(lhs),
            self.value_ok(rhs),
        ensures
            final(out)@ == old(out)@ + self.spec_emit_checked_int_mul(lhs, rhs),
    {
        let mut v: Vec<Instr> = vec![
            Instr::LocalGet(self.local_for(lhs)),
            Instr::LocalGet(self.local_for(rhs)),
            Instr::I64Mul,
            Instr::LocalSet(self.scratch_i64),
            Instr::LocalGet(self.local_for(lhs)),
            Instr::I64Eqz,
            Instr::If(BlockTy::Empty),
            Instr::Else,
            Instr::LocalGet(self.scratch_i64),
            Instr::LocalGet(self.local_for(lhs)),
            Instr::I64DivS,
            Instr::LocalGet(self.local_for(rhs)),
            Instr::I64Ne,
        ];
        self.emit_trap_if_true(&mut v);
        let mut w: Vec<Instr> = vec![Instr::End, Instr::LocalGet(self.scratch_i64)];
        v.append(&mut w);
        out.append(&mut v);
    }

    /// The instructions that `emit_checked_int_mul_locals` appends.
    pub open spec fn spec_emit_checked_int_mul_locals(&self, lhs_local: u32, rhs_local: u32, temp_local: u32) -> Seq<Instr> {
        seq![
            Instr::LocalGet(lhs_local),
            Instr::LocalGet(rhs_local),
            Instr::I64Mul,
            Instr::LocalSet(temp_local),
            Instr::LocalGet(lhs_local),
            Instr::I64Eqz,
            Instr::If(BlockTy::Empty),
            Instr::Else,
            Instr::LocalGet(temp_local),
            Instr::LocalGet(lhs_local),
            Instr::I64DivS,
            Instr::LocalGet(rhs_local),
            Instr::I64Ne,
        ]
        + self.spec_emit_trap_if_true()
        + seq![Instr::End]
    }

    /// Appends the instructions of `emit_checked_int_mul_locals`.
    pub(crate) fn emit_checked_int_mul_locals(&self, out: &mut Vec<Instr>, lhs_local: u32, rhs_local: u32, temp_local: u32)
        requires
            self.wf(),
        ensures
            final(out)@ == old(out)@ + self.spec_emit_checked_int_mul_locals(lhs_local, rhs_local, temp_local),
    {
        let mut v: Vec<Instr> = vec![
            Instr::LocalGet(lhs_local),
            Instr::LocalGet(rhs_local),
            Instr::I64Mul,
            Instr::LocalSet(temp_local),
            Instr::LocalGet(lhs_local),
            Instr::I64Eqz,
            Instr::If(BlockTy::Empty),
            Instr::Else,
            Instr::LocalGet(temp_local),
            Instr::LocalGet(lhs_local),
            Instr::I64DivS,
            Instr::LocalGet(rhs_local),
            Instr::I64Ne,
        ];
        self.emit_trap_if_true(&mut v);
        let mut w: Vec<Instr> = vec![Instr::End];
        v.append(&mut w);
        out.append(&mut v);
    }

    /// The instructions that `emit_checked_int_mod` appends.
    pub open spec fn spec_emit_checked_int_mod(&self, lhs: ValueId, rhs: ValueId) -> Seq<Instr> {
        seq![
            Instr::LocalGet(self.spec_local(lhs)),
            Instr::I64Const(i64::MIN),
            Instr::I64Eq,
            Instr::LocalGet(self.spec_local(rhs)),
            Instr::I64Const(-1i64),
            Instr::I64Eq,
            Instr::I32And,
        ]
        + self.spec_emit_trap_if_true()
        + seq![
            Instr::LocalGet(self.spec_local(lhs)),
            Instr::LocalGet(self.spec_local(rhs)),
            Instr::I64RemS,
        ]
    }

    /// Appends the instructions of `emit_checked_int_mod`.
    pub(crate) fn emit_checked_int_mod(&self, out: &mut Vec<Instr>, lhs: ValueId, rhs: ValueId)
        requires
            self.wf(),
            self.value_ok(lhs),
            self.value_ok(rhs),
        ensures
            final(out)@ == old(out)@ + self.spec_emit_checked_int_mod(lhs, rhs),
    {
        let mut v: Vec<Instr> = vec![
            Instr::LocalGet(self.local_for(lhs)),
            Instr::I64Const(i64::MIN),
            Instr::I64Eq,
            Instr::LocalGet(self.local_for(rhs)),
            Instr::I64Const(-1i64),
            Instr::I64Eq,
            Instr::I32And,
        ];
        self.emit_trap_if_true(&mut v);
        let mut w: Vec<Instr> = vec![
            Instr::LocalGet(self.local_for(lhs)),
            Instr::LocalGet(self.local_for(rhs)),
            Instr::I64RemS,
        ];
        v.append(&mut w);
        out.append(&mut v);
    }

    /// The instructions that `emit_assert` appends.
    pub open spec fn spec_emit_assert(&self, condition: ValueId) -> Seq<Instr> {
        seq![
            Instr::LocalGet(self.spec_local(condition)),
            Instr::I32Eqz,
            Instr::If(BlockTy::Empty),
            Instr::Unreachable,
            Instr::End,
        ]
    }

    /// Appends the instructions of `emit_assert`.
    pub(crate) fn emit_assert(&self, out: &mut Vec<Instr>, condition: ValueId)
        requires
            self.wf(),
            self.value_ok(condition),
        ensures
            final(out)@ == old(out)@ + self.spec_emit_assert(condition),
    {
        let mut v: Vec<Instr> = vec![
            Instr::LocalGet(self.local_for(condition)),
            Instr::I32Eqz,
            Instr::If(BlockTy::Empty),
            Instr::Unreachable,
            Instr::End,
        ];
        out.append(&mut v);
    }

    /// The instructions that `emit_int_abs` appends.
    pub open spec fn spec_emit_int_abs(&self, value: ValueId) -> Seq<Instr> {
        seq![
            Instr::LocalGet(self.spec_local(value)),
            Instr::I64Const(i64::MIN),
            Instr::I64Eq,
        ]
        + self.spec_emit_trap_if_true()
        + seq![
            Instr::LocalGet(self.spec_local(value)),
            Instr::LocalSet(self.scratch_i64),
            Instr::LocalGet(self.scratch_i64),
            Instr::I64Const(0i64),
            Instr::I64LtS,
            Instr::If(BlockTy::Empty),
            Instr::I64Const(0i64),
            Instr::LocalGet(self.scratch_i64),
            Instr::I64Sub,
            Instr::LocalSet(self.scratch_i64),
            Instr::End,
            Instr::LocalGet(self.scratch_i64),
        ]
    }

    /// Appends the instructions of `emit_int_abs`.
    pub(crate) fn emit_int_abs(&self, out: &mut Vec<Instr>, value: ValueId)
        requires
            self.wf(),
            self.value_ok(value),
        ensures
            final(out)@ == old(out)@ + self.spec_emit_int_abs(value),
    {
        let mut v: Vec<Instr> = vec![
            Instr::LocalGet(self.local_for(value)),
            Instr::I64Const(i64::MIN),
            Instr::I64Eq,
        ];
        self.emit_trap_if_true(&mut v);
        let mut w: Vec<Instr> = vec![
            Instr::LocalGet(self.local_for(value)),
            Instr::LocalSet(self.scratch_i64),
            Instr::LocalGet(self.scratch_i64),
            Instr::I64Const(0i64),
            Instr::I64LtS,
            Instr::If(BlockTy::Empty),
            Instr::I64Const(0i64),
            Instr::LocalGet(self.scratch_i64),
            Instr::I64Sub,
            Instr::LocalSet(self.scratch_i64),
            Instr::End,
            Instr::LocalGet(self.scratch_i64),
        ];
        v.append(&mut w);
        out.append(&mut v);
    }

    /// The instructions that `emit_int_min_max` appends.
    pub open spec fn spec_emit_int_min_max(&self, lhs: ValueId, rhs: ValueId, pick_min: bool) -> Seq<Instr> {
        seq![
            Instr::LocalGet(self.spec_local(lhs)),
            Instr::LocalSet(self.scratch_i64),
            Instr::LocalGet(self.spec_local(rhs)),
            Instr::LocalSet(self.scratch_i64_2),
            Instr::LocalGet(self.scratch_i64),
            Instr::LocalGet(self.scratch_i64_2),
        ]
        + (if pick_min {
            seq![Instr::I64LeS]
        } else {
            seq![Instr::I64GeS]
        })
        + seq![
            Instr::If(BlockTy::Empty),
            Instr::LocalGet(self.scratch_i64),
            Instr::LocalSet(self.scratch_i64_3),
            Instr::Else,
            Instr::LocalGet(self.scratch_i64_2),
            Instr::LocalSet(self.scratch_i64_3),
            Instr::End,
            Instr::LocalGet(self.scratch_i64_3),
        ]
    }

    /// Appends the instructions of `emit_int_min_max`.
    pub(crate) fn emit_int_min_max(&self, out: &mut Vec<Instr>, lhs: ValueId, rhs: ValueId, pick_min: bool)
        requires
            self.wf(),
            self.value_ok(lhs),
            self.value_ok(rhs),
        ensures
            final(out)@ == old(out)@ + self.spec_emit_int_min_max(lhs, rhs, pick_min),
    {
        let mut v: Vec<Instr> = vec![
            Instr::LocalGet(self.local_for(lhs)),
            Instr::LocalSet(self.scratch_i64),
            Instr::LocalGet(self.local_for(rhs)),
            Instr::LocalSet(self.scratch_i64_2),
            Instr::LocalGet(self.scratch_i64),
            Instr::LocalGet(self.scratch_i64_2),
        ];
        let mut w: Vec<Instr> = if pick_min {
            let mut b: Vec<Instr> = vec![Instr::I64LeS];
            b
        } else {
            let mut b: Vec<Instr> = vec![Instr::I64GeS];
            b
        };
        v.append(&mut w);
        let mut w: Vec<Instr> = vec![
            Instr::If(BlockTy::Empty),
            Instr::LocalGet(self.scratch_i64),
            Instr::LocalSet(self.scratch_i64_3),
            Instr::Else,
            Instr::LocalGet(self.scratch_i64_2),
            Instr::LocalSet(self.scratch_i64_3),
            Instr::End,
            Instr::LocalGet(self.scratch_i64_3),
        ];
        v.append(&mut w);
        out.append(&mut v);
    }

    /// The instructions that `emit_unsigned_abs_to_local` appends.
    pub open spec fn spec_emit_unsigned_abs_to_local(&self, value: ValueId, target_local: u32) -> Seq<Instr> {
        seq![
            Instr::LocalGet(self.spec_local(value)),
            Instr::LocalSet(target_local),
            Instr::LocalGet(target_local),
            Instr::I64Const(0i64),
            Instr::I64LtS,
            Instr::If(BlockTy::Empty),
            Instr::I64Const(0i64),
            Instr::LocalGet(target_local),
            Instr::I64Sub,
            Instr::LocalSet(target_local),
            Instr::End,
        ]
    }

    /// Appends the instructions of `emit_unsigned_abs_to_local`.
    pub(crate) fn emit_unsigned_abs_to_local(&self, out: &mut Vec<Instr>, value: ValueId, target_local: u32)
        requires
            self.wf(),
            self.value_ok(value),
        ensures
            final(out)@ == old(out)@ + self.spec_emit_unsigned_abs_to_local(value, target_local),
    {
        let mut v: Vec<Instr> = vec![
            Instr::LocalGet(self.local_for(value)),
            Instr::LocalSet(target_local),
            Instr::LocalGet(target_local),
            Instr::I64Const(0i64),
            Instr::I64LtS,
            Instr::If(BlockTy::Empty),
            Instr::I64Const(0i64),
            Instr::LocalGet(target_local),
            Instr::I64Sub,
            Instr::LocalSet(target_local),
            Instr::End,
        ];
        out.append(&mut v);
    }

    /// The instructions that `emit_unsigned_gcd_loop` appends.
    pub open spec fn spec_emit_unsigned_gcd_loop(&self, a_local: u32, b_local: u32, tmp_local: u32) -> Seq<Instr> {
        seq![
            Instr::Block(BlockTy::Empty),
            Instr::Loop(BlockTy::Empty),
            Instr::LocalGet(b_local),
            Instr::I64Eqz,
            Instr::BrIf(1),
            Instr::LocalGet(b_local),
            Instr::LocalSet(tmp_local),
            Instr::LocalGet(a_local),
            Instr::LocalGet(b_local),
            Instr::I64RemU,
            Instr::LocalSet(b_local),
            Instr::LocalGet(tmp_local),
            Instr::LocalSet(a_local),
            Instr::Br(0),
            Instr::End,
            Instr::End,
        ]
    }

    /// Appends the instructions of `emit_unsigned_gcd_loop`.
    pub(crate) fn emit_unsigned_gcd_loop(&self, out: &mut Vec<Instr>, a_local: u32, b_local: u32, tmp_local: u32)
        requires
            self.wf(),
        ensures
            final(out)@ == old(out)@ + self.spec_emit_unsigned_gcd_loop(a_local, b_local, tmp_local),
    {
        let mut v: Vec<Instr> = vec![
            Instr::Block(BlockTy::Empty),
            Instr::Loop(BlockTy::Empty),
            Instr::LocalGet(b_local),
            Instr::I64Eqz,
            Instr::BrIf(1),
            Instr::LocalGet(b_local),
            Instr::LocalSet(tmp_local),
            Instr::LocalGet(a_local),
            Instr::LocalGet(b_local),
            Instr::I64RemU,
            Instr::LocalSet(b_local),
            Instr::LocalGet(tmp_local),
            Instr::LocalSet(a_local),
            Instr::Br(0),
            Instr::End,
            Instr::End,
        ];
        out.append(&mut v);
    }

    /// The instructions that `emit_gcd` appends.
    pub open spec fn spec_emit_gcd(&self, lhs: ValueId, rhs: ValueId) -> Seq<Instr> {
        self.spec_emit_unsigned_abs_to_local(lhs, self.scratch_i64)
        + self.spec_emit_unsigned_abs_to_local(rhs, self.scratch_i64_2)
        + self.spec_emit_unsigned_gcd_loop(self.scratch_i64, self.scratch_i64_2, self.scratch_i64_3)
        + seq![
            Instr::LocalGet(self.scratch_i64),
            Instr::I64Const(0i64),
            Instr::I64LtS,
        ]
        + self.spec_emit_trap_if_true()
        + seq![Instr::LocalGet(self.scratch_i64)]
    }

    /// Appends the instructions of `emit_gcd`.
    pub(crate) fn emit_gcd(&self, out: &mut Vec<Instr>, lhs: ValueId, rhs: ValueId)
        requires
            self.wf(),
            self.value_ok(lhs),
            self.value_ok(rhs),
        ensures
            final(out)@ == old(out)@ + self.spec_emit_gcd(lhs, rhs),
    {
        let mut v: Vec<Instr> = Vec::new();
        self.emit_unsigned_abs_to_local(&mut v, lhs, self.scratch_i64);
        self.emit_unsigned_abs_to_local(&mut v, rhs, self.scratch_i64_2);
        self.emit_unsigned_gcd_loop(&mut v, self.scratch_i64, self.scratch_i64_2, self.scratch_i64_3);
        let mut w: Vec<Instr> = vec![
            Instr::LocalGet(self.scratch_i64),
            Instr::I64Const(0i64),
            Instr::I64LtS,
        ];
        v.append(&mut w);
        self.emit_trap_if_true(&mut v);
        let mut w: Vec<Instr> = vec![Instr::LocalGet(self.scratch_i64)];
        v.append(&mut w);
        out.append(&mut v);
    }

    /// The instructions that `emit_lcm` appends.
    pub open spec fn spec_emit_lcm(&self, lhs: ValueId, rhs: ValueId) -> Seq<Instr> {
        seq![
            Instr::LocalGet(self.spec_local(lhs)),
            Instr::I64Eqz,
            Instr::LocalGet(self.spec_local(rhs)),
            Instr::I64Eqz,
            Instr::I32Or,
            Instr::If(BlockTy::Empty),
            Instr::I64Const(0i64),
            Instr::LocalSet(self.scratch_i64_3),
            Instr::Else,
        ]
        + self.spec_emit_unsigned_abs_to_local(lhs, self.scratch_i64)
        + self.spec_emit_unsigned_abs_to_local(rhs, self.scratch_i64_2)
        + self.spec_emit_unsigned_gcd_loop(self.scratch_i64, self.scratch_i64_2, self.scratch_i64_3)
        + self.spec_emit_unsigned_abs_to_local(lhs, self.scratch_i64)
        + self.spec_emit_unsigned_abs_to_local(rhs, self.scratch_i64_2)
        + seq![
            Instr::LocalGet(self.scratch_i64),
            Instr::LocalGet(self.scratch_i64_3),
            Instr::I64DivU,
            Instr::LocalSet(self.scratch_i64),
            Instr::I64Const(i64::MAX),
            Instr::LocalGet(self.scratch_i64_2),
            Instr::I64DivU,
            Instr::LocalGet(self.scratch_i64),
            Instr::I64LtU,
        ]
        + self.spec_emit_trap_if_true()
        + seq![
            Instr::LocalGet(self.scratch_i64),
            Instr::LocalGet(self.scratch_i64_2),
            Instr::I64Mul,
            Instr::LocalSet(self.scratch_i64_3),
            Instr::End,
            Instr::LocalGet(self.scratch_i64_3),
        ]
    }

    /// Appends the instructions of `emit_lcm`.
    pub(crate) fn emit_lcm(&self, out: &mut Vec<Instr>, lhs: ValueId, rhs: ValueId)
        requires
            self.wf(),
            self.value_ok(lhs),
            self.value_ok(rhs),
        ensures
            final(out)@ == old(out)@ + self.spec_emit_lcm(lhs, rhs),
    {
        let mut v: Vec<Instr> = vec![
            Instr::LocalGet(self.local_for(lhs)),
            Instr::I64Eqz,
            Instr::LocalGet(self.local_for(rhs)),
            Instr::I64Eqz,
            Instr::I32Or,
            Instr::If(BlockTy::Empty),
            Instr::I64Const(0i64),
            Instr::LocalSet(self.scratch_i64_3),
            Instr::Else,
        ];
        self.emit_unsigned_abs_to_local(&mut v, lhs, self.scratch_i64);
        self.emit_unsigned_abs_to_local(&mut v, rhs, self.scratch_i64_2);
        self.emit_unsigned_gcd_loop(&mut v, self.scratch_i64, self.scratch_i64_2, self.scratch_i64_3);
        self.emit_unsigned_abs_to_local(&mut v, lhs, self.scratch_i64);
        self.emit_unsigned_abs_to_local(&mut v, rhs, self.scratch_i64_2);
        let mut w: Vec<Instr> = vec![
            Instr::LocalGet(self.scratch_i64),
            Instr::LocalGet(self.scratch_i64_3),
            Instr::I64DivU,
            Instr::LocalSet(self.scratch_i64),
            Instr::I64Const(i64::MAX),
            Instr::LocalGet(self.scratch_i64_2),
            Instr::I64DivU,
            Instr::LocalGet(self.scratch_i64),
            Instr::I64LtU,
        ];
        v.append(&mut w);
        self.emit_trap_if_true(&mut v);
        let mut w: Vec<Instr> = vec![
            Instr::LocalGet(self.scratch_i64),
            Instr::LocalGet(self.scratch_i64_2),
            Instr::I64Mul,
            Instr::LocalSet(self.scratch_i64_3),
            Instr::End,
            Instr::LocalGet(self.scratch_i64_3),
        ];
        v.append(&mut w);
        out.append(&mut v);
    }

    /// The instructions that `emit_int_pow` appends.
    pub open spec fn spec_emit_int_pow(&self, base: ValueId, exp: ValueId) -> Seq<Instr> {
        seq![
            Instr::LocalGet(self.spec_local(exp)),
            Instr::I64Const(0i64),
            Instr::I64LtS,
        ]
        + self.spec_emit_trap_if_true()
        + seq![
            Instr::I64Const(1i64),
            Instr::LocalSet(self.scratch_i64),
            Instr::LocalGet(self.spec_local(base)),
            Instr::LocalSet(self.scratch_i64_2),
            Instr::LocalGet(self.spec_local(exp)),
            Instr::LocalSet(self.scratch_i64_3),
            Instr::Block(BlockTy::Empty),
            Instr::Loop(BlockTy::Empty),
            Instr::LocalGet(self.scratch_i64_3),
            Instr::I64Eqz,
            Instr::BrIf(1),
            Instr::LocalGet(self.scratch_i64_3),
            Instr::I64Const(1i64),
            Instr::I64And,
            Instr::I64Const(1i64),
            Instr::I64Eq,
            Instr::If(BlockTy::Empty),
        ]
        + self.spec_emit_checked_int_mul_locals(self.scratch_i64, self.scratch_i64_2, self.scratch_i64_4)
        + seq![
            Instr::LocalGet(self.scratch_i64_4),
            Instr::LocalSet(self.scratch_i64),
            Instr::End,
            Instr::LocalGet(self.scratch_i64_3),
            Instr::I64Const(1i64),
            Instr::I64ShrU,
            Instr::LocalSet(self.scratch_i64_3),
            Instr::LocalGet(self.scratch_i64_3),
            Instr::I64Eqz,
            Instr::If(BlockTy::Empty),
            Instr::Else,
        ]
        + self.spec_emit_checked_int_mul_locals(self.scratch_i64_2, self.scratch_i64_2, self.scratch_i64_4)
        + seq![
            Instr::LocalGet(self.scratch_i64_4),
            Instr::LocalSet(self.scratch_i64_2),
            Instr::End,
            Instr::Br(0),
            Instr::End,
            Instr::End,
            Instr::LocalGet(self.scratch_i64),
        ]
    }

    /// Appends the instructions of `emit_int_pow`.
    pub(crate) fn emit_int_pow(&self, out: &mut Vec<Instr>, base: ValueId, exp: ValueId)
        requires
            self.wf(),
            self.value_ok(base),
            self.value_ok(exp),
        ensures
            final(out)@ == old(out)@ + self.spec_emit_int_pow(base, exp),
    {
        let mut v: Vec<Instr> = vec![
            Instr::LocalGet(self.local_for(exp)),
            Instr::I64Const(0i64),
            Instr::I64LtS,
        ];
        self.emit_trap_if_true(&mut v);
        let mut w: Vec<Instr> = vec![
            Instr::I64Const(1i64),
            Instr::LocalSet(self.scratch_i64),
            Instr::LocalGet(self.local_for(base)),
            Instr::LocalSet(self.scratch_i64_2),
            Instr::LocalGet(self.local_for(exp)),
            Instr::LocalSet(self.scratch_i64_3),
            Instr::Block(BlockTy::Empty),
            Instr::Loop(BlockTy::Empty),
            Instr::LocalGet(self.scratch_i64_3),
            Instr::I64Eqz,
            Instr::BrIf(1),
            Instr::LocalGet(self.scratch_i64_3),
            Instr::I64Const(1i64),
            Instr::I64And,
            Instr::I64Const(1i64),
            Instr::I64Eq,
            Instr::If(BlockTy::Empty),
        ];
        v.append(&mut w);
        self.emit_checked_int_mul_locals(&mut v, self.scratch_i64, self.scratch_i64_2, self.scratch_i64_4);
        let mut w: Vec<Instr> = vec![
            Instr::LocalGet(self.scratch_i64_4),
            Instr::LocalSet(self.scratch_i64),
            Instr::End,
            Instr::LocalGet(self.scratch_i64_3),
            Instr::I64Const(1i64),
            Instr::I64ShrU,
            Instr::LocalSet(self.scratch_i64_3),
            Instr::LocalGet(self.scratch_i64_3),
            Instr::I64Eqz,
            Instr::If(BlockTy::Empty),
            Instr::Else,
        ];
        v.append(&mut w);
        self.emit_checked_int_mul_locals(&mut v, self.scratch_i64_2, self.scratch_i64_2, self.scratch_i64_4);
        let mut w: Vec<Instr> = vec![
            Instr::LocalGet(self.scratch_i64_4),
            Instr::LocalSet(self.scratch_i64_2),
            Instr::End,
            Instr::Br(0),
            Instr::End,
            Instr::End,
            Instr::LocalGet(self.scratch_i64),
        ];
        v.append(&mut w);
        out.append(&mut v);
    }

    /// The instructions that `emit_float_is_nan` appends.
    pub open spec fn spec_emit_float_is_nan(&self, value: ValueId) -> Seq<Instr> {
        seq![
            Instr::LocalGet(self.spec_local(value)),
            Instr::LocalGet(self.spec_local(value)),
            Instr::F64Ne,
        ]
    }

    /// Appends the instructions of `emit_float_is_nan`.
    pub(crate) fn emit_float_is_nan(&self, out: &mut Vec<Instr>, value: ValueId)
        requires
            self.wf(),
            self.value_ok(value),
        ensures
            final(out)@ == old(out)@ + self.spec_emit_float_is_nan(value),
    {
        let mut v: Vec<Instr> = vec![
            Instr::LocalGet(self.local_for(value)),
            Instr::LocalGet(self.local_for(value)),
            Instr::F64Ne,
        ];
        out.append(&mut v);
    }

    /// The instructions that `emit_float_is_infinite` appends.
    pub open spec fn spec_emit_float_is_infinite(&self, value: ValueId) -> Seq<Instr> {
        seq![
            Instr::LocalGet(self.spec_local(value)),
            Instr::F64Abs,
            Instr::F64Const(0x7ff0000000000000u64),
            Instr::F64Eq,
        ]
    }

    /// Appends the instructions of `emit_float_is_infinite`.
    pub(crate) fn emit_float_is_infinite(&self, out: &mut Vec<Instr>, value: ValueId)
        requires
            self.wf(),
            self.value_ok(value),
        ensures
            final(out)@ == old(out)@ + self.spec_emit_float_is_infinite(value),
    {
        let mut v: Vec<Instr> = vec![
            Instr::LocalGet(self.local_for(value)),
            Instr::F64Abs,
            Instr::F64Const(0x7ff0000000000000u64),
            Instr::F64Eq,
        ];
        out.append(&mut v);
    }

    /// The instructions that `emit_float_is_finite` appends.
    pub open spec fn spec_emit_float_is_finite(&self, value: ValueId) -> Seq<Instr> {
        seq![
            Instr::LocalGet(self.spec_local(value)),
            Instr::LocalGet(self.spec_local(value)),
            Instr::F64Eq,
            Instr::LocalGet(self.spec_local(value)),
            Instr::F64Abs,
            Instr::F64Const(0x7ff0000000000000u64),
            Instr::F64Ne,
            Instr::I32And,
        ]
    }

    /// Appends the instructions of `emit_float_is_finite`.
    pub(crate) fn emit_float_is_finite(&self, out: &mut Vec<Instr>, value: ValueId)
        requires
            self.wf(),
            self.value_ok(value),
        ensures
            final(out)@ == old(out)@ + self.spec_emit_float_is_finite(value),
    {
        let mut v: Vec<Instr> = vec![
            Instr::LocalGet(self.local_for(value)),
            Instr::LocalGet(self.local_for(value)),
            Instr::F64Eq,
            Instr::LocalGet(self.local_for(value)),
            Instr::F64Abs,
            Instr::F64Const(0x7ff0000000000000u64),
            Instr::F64Ne,
            Instr::I32And,
        ];
        out.append(&mut v);
    }

    /// The instructions that `emit_float_min_max` appends.
    pub open spec fn spec_emit_float_min_max(&self, lhs: ValueId, rhs: ValueId, pick_min: bool) -> Seq<Instr> {
        seq![
            Instr::LocalGet(self.spec_local(lhs)),
            Instr::LocalGet(self.spec_local(lhs)),
            Instr::F64Eq,
            Instr::If(BlockTy::Result(ValTy::F64)),
            Instr::LocalGet(self.spec_local(rhs)),
            Instr::LocalGet(self.spec_local(rhs)),
            Instr::F64Eq,
            Instr::If(BlockTy::Result(ValTy::F64)),
            Instr::LocalGet(self.spec_local(lhs)),
            Instr::LocalGet(self.spec_local(rhs)),
        ]
        + (if pick_min {
            seq![Instr::F64Lt]
        } else {
            seq![Instr::F64Gt]
        })
        + seq![
            Instr::If(BlockTy::Result(ValTy::F64)),
            Instr::LocalGet(self.spec_local(lhs)),
            Instr::Else,
            Instr::LocalGet(self.spec_local(rhs)),
            Instr::End,
            Instr::Else,
            Instr::LocalGet(self.spec_local(lhs)),
            Instr::End,
            Instr::Else,
            Instr::LocalGet(self.spec_local(rhs)),
            Instr::End,
        ]
    }

    /// Appends the instructions of `emit_float_min_max`.
    pub(crate) fn emit_float_min_max(&self, out: &mut Vec<Instr>, lhs: ValueId, rhs: ValueId, pick_min: bool)
        requires
            self.wf(),
            self.value_ok(lhs),
            self.value_ok(rhs),
        ensures
            final(out)@ == old(out)@ + self.spec_emit_float_min_max(lhs, rhs, pick_min),
    {
        let mut v: Vec<Instr> = vec![
            Instr::LocalGet(self.local_for(lhs)),
            Instr::LocalGet(self.local_for(lhs)),
            Instr::F64Eq,
            Instr::If(BlockTy::Result(ValTy::F64)),
            Instr::LocalGet(self.local_for(rhs)),
            Instr::LocalGet(self.local_for(rhs)),
            Instr::F64Eq,
            Instr::If(BlockTy::Result(ValTy::F64)),
            Instr::LocalGet(self.local_for(lhs)),
            Instr::LocalGet(self.local_for(rhs)),
        ];
        let mut w: Vec<Instr> = if pick_min {
            let mut b: Vec<Instr> = vec![Instr::F64Lt];
            b
        } else {
            let mut b: Vec<Instr> = vec![Instr::F64Gt];
            b
        };
        v.append(&mut w);
        let mut w: Vec<Instr> = vec![
            Instr::If(BlockTy::Result(ValTy::F64)),
            Instr::LocalGet(self.local_for(lhs)),
            Instr::Else,
            Instr::LocalGet(self.local_for(rhs)),
            Instr::End,
            Instr::Else,
            Instr::LocalGet(self.local_for(lhs)),
            Instr::End,
            Instr::Else,
            Instr::LocalGet(self.local_for(rhs)),
            Instr::End,
        ];
        v.append(&mut w);
        out.append(&mut v);
    }

    /// The instructions that `emit_ascii_range_check` appends.
    pub open spec fn spec_emit_ascii_range_check(&self, local: u32, start: char, end: char) -> Seq<Instr> {
        seq![
            Instr::LocalGet(local),
            Instr::I32Const(start as i32),
            Instr::I32GeU,
            Instr::LocalGet(local),
            Instr::I32Const(end as i32),
            Instr::I32LeU,
            Instr::I32And,
        ]
    }

    /// Appends the instructions of `emit_ascii_range_check`.
    pub(crate) fn emit_ascii_range_check(&self, out: &mut Vec<Instr>, local: u32, start: char, end: char)
        requires
            self.wf(),
        ensures
            final(out)@ == old(out)@ + self.spec_emit_ascii_range_check(local, start, end),
    {
        let mut v: Vec<Instr> = vec![
            Instr::LocalGet(local),
            Instr::I32Const(start as i32),
            Instr::I32GeU,
            Instr::LocalGet(local),
            Instr::I32Const(end as i32),
            Instr::I32LeU,
            Instr::I32And,
        ];
        out.append(&mut v);
    }

    /// The instructions that `emit_char_digit_value` appends.
    pub open spec fn spec_emit_char_digit_value(&self, ch: ValueId) -> Seq<Instr> {
        seq![
            Instr::LocalGet(self.spec_local(ch)),
            Instr::LocalSet(self.scratch_i32),
            Instr::I64Const(-1i64),
            Instr::LocalSet(self.scratch_i64),
        ]
        + self.spec_emit_ascii_range_check(self.scratch_i32, '0', '9')
        + seq![
            Instr::If(BlockTy::Empty),
            Instr::LocalGet(self.scratch_i32),
            Instr::I32Const(48i32),
            Instr::I32Sub,
            Instr::I64ExtendI32U,
            Instr::LocalSet(self.scratch_i64),
            Instr::Else,
        ]
        + self.spec_emit_ascii_range_check(self.scratch_i32, 'a', 'z')
        + seq![
            Instr::If(BlockTy::Empty),
            Instr::LocalGet(self.scratch_i32),
            Instr::I32Const(97i32),
            Instr::I32Sub,
            Instr::I32Const(10i32),
            Instr::I32Add,
            Instr::I64ExtendI32U,
            Instr::LocalSet(self.scratch_i64),
            Instr::Else,
        ]
        + self.spec_emit_ascii_range_check(self.scratch_i32, 'A', 'Z')
        + seq![
            Instr::If(BlockTy::Empty),
            Instr::LocalGet(self.scratch_i32),
            Instr::I32Const(65i32),
            Instr::I32Sub,
            Instr::I32Const(10i32),
            Instr::I32Add,
            Instr::I64ExtendI32U,
            Instr::LocalSet(self.scratch_i64),
            Instr::End,
            Instr::End,
            Instr::End,
            Instr::LocalGet(self.scratch_i64),
        ]
    }

    /// Appends the instructions of `emit_char_digit_value`.
    pub(crate) fn emit_char_digit_value(&self, out: &mut Vec<Instr>, ch: ValueId)
        requires
            self.wf(),
            self.value_ok(ch),
        ensures
            final(out)@ == old(out)@ + self.spec_emit_char_digit_value(ch),
    {
        let mut v: Vec<Instr> = vec![
            Instr::LocalGet(self.local_for(ch)),
            Instr::LocalSet(self.scratch_i32),
            Instr::I64Const(-1i64),
            Instr::LocalSet(self.scratch_i64),
        ];
        self.emit_ascii_range_check(&mut v, self.scratch_i32, '0', '9');
        let mut w: Vec<Instr> = vec![
            Instr::If(BlockTy::Empty),
            Instr::LocalGet(self.scratch_i32),
            Instr::I32Const(48i32),
            Instr::I32Sub,
            Instr::I64ExtendI32U,
            Instr::LocalSet(self.scratch_i64),
            Instr::Else,
        ];
        v.append(&mut w);
        self.emit_ascii_range_check(&mut v, self.scratch_i32, 'a', 'z');
        let mut w: Vec<Instr> = vec![
            Instr::If(BlockTy::Empty),
            Instr::LocalGet(self.scratch_i32),
            Instr::I32Const(97i32),
            Instr::I32Sub,
            Instr::I32Const(10i32),
            Instr::I32Add,
            Instr::I64ExtendI32U,
            Instr::LocalSet(self.scratch_i64),
            Instr::Else,
        ];
        v.append(&mut w);
        self.emit_ascii_range_check(&mut v, self.scratch_i32, 'A', 'Z');
        let mut w: Vec<Instr> = vec![
            Instr::If(BlockTy::Empty),
            Instr::LocalGet(self.scratch_i32),
            Instr::I32Const(65i32),
            Instr::I32Sub,
            Instr::I32Const(10i32),
            Instr::I32Add,
            Instr::I64ExtendI32U,
            Instr::LocalSet(self.scratch_i64),
            Instr::End,
            Instr::End,
            Instr::End,
            Instr::LocalGet(self.scratch_i64),
        ];
        v.append(&mut w);
        out.append(&mut v);
    }

}

} // verus!

