//! What the emitted code computes when it runs: laws of the emitters over the
//! machine model of `crate::machine`.

use vstd::prelude::*;
use crate::func::FuncCodegen;
use crate::func::emit_ops::spec_simple_binary;
use crate::ir::{BinaryOp, Intrinsic, Ty, UnaryOp, ValueId};
use crate::module::spec_typed_load;
use crate::ty::spec_is_i32_type;
use crate::instr::{BlockTy, Instr, MemArg, ValTy};
use crate::machine::{binop, div_toward_zero, exec, flag, lemma_exec_plain, lemma_flag_and_or, lemma_if_else, lemma_if_false, lemma_if_true, lemma_scan_skip, load_i64, load_u32, load_u64, scan_end, leaves, run, straight, Machine, Outcome, Val};

verus! {

/// Whether `op` compares its operands.
pub open spec fn is_comparison(op: BinaryOp) -> bool {
    op is Eq || op is NotEq || op is Lt || op is Gt || op is LtEq || op is GtEq
}

/// Whether the comparison `op` holds of `a` and `b`.
pub open spec fn relation_holds(op: BinaryOp, a: int, b: int) -> bool {
    match op {
        BinaryOp::Eq => a == b,
        BinaryOp::NotEq => a != b,
        BinaryOp::Lt => a < b,
        BinaryOp::Gt => a > b,
        BinaryOp::LtEq => a <= b,
        BinaryOp::GtEq => a >= b,
        _ => false,
    }
}

/// A comparison of two `Int` values yields 1 exactly where it holds of them as
/// signed 64-bit integers, 0 where it does not.
pub proof fn law_int_comparison(op: BinaryOp, a: i64, b: i64)
    requires
        is_comparison(op),
    ensures
        spec_simple_binary(op, Ty::Int) matches Some(i)
            && binop(i, Val::I64(a), Val::I64(b)) == Some(flag(relation_holds(op, a as int, b as int))),
{
}

/// A comparison of two `Char` values yields 1 exactly where it holds of their code
/// points, 0 where it does not.
pub proof fn law_char_comparison(op: BinaryOp, a: u32, b: u32)
    requires
        is_comparison(op),
    ensures
        spec_simple_binary(op, Ty::Char) matches Some(i)
            && binop(i, Val::I32(a), Val::I32(b)) == Some(flag(relation_holds(op, a as int, b as int))),
{
}

/// The truth of a `Bool` operator on `a` and `b`: equality, difference, and, or.
pub open spec fn bool_op_holds(op: BinaryOp, a: bool, b: bool) -> bool {
    match op {
        BinaryOp::Eq => a == b,
        BinaryOp::NotEq => a != b,
        BinaryOp::And => a && b,
        BinaryOp::Or => a || b,
        _ => false,
    }
}

/// An operator on two `Bool` values, held as the flags 1 and 0, yields the flag of
/// its truth.
pub proof fn law_bool_operator(op: BinaryOp, a: bool, b: bool)
    requires
        op is Eq || op is NotEq || op is And || op is Or,
    ensures
        spec_simple_binary(op, Ty::Bool) matches Some(i) && binop(i, flag(a), flag(b)) == Some(flag(bool_op_holds(op, a, b))),
{
    assert(1u32 & 1u32 == 1u32) by (bit_vector);
    assert(1u32 & 0u32 == 0u32) by (bit_vector);
    assert(0u32 & 1u32 == 0u32) by (bit_vector);
    assert(0u32 & 0u32 == 0u32) by (bit_vector);
    assert(1u32 | 1u32 == 1u32) by (bit_vector);
    assert(1u32 | 0u32 == 1u32) by (bit_vector);
    assert(0u32 | 1u32 == 1u32) by (bit_vector);
    assert(0u32 | 0u32 == 0u32) by (bit_vector);
}

/// Division of two `Int` values rounds toward zero, and traps where the divisor is
/// zero or the quotient overflows; the bitwise operators act bit by bit.
pub proof fn law_int_division_and_bits(a: i64, b: i64)
    ensures
        spec_simple_binary(BinaryOp::Div, Ty::Int) matches Some(i) && binop(i, Val::I64(a), Val::I64(b)) == (
            if b == 0 || (a == i64::MIN && b == -1) {
                None
            } else {
                Some(Val::I64(div_toward_zero(a as int, b as int) as i64))
            }),
        spec_simple_binary(BinaryOp::BitAnd, Ty::Int) matches Some(i) && binop(i, Val::I64(a), Val::I64(b)) == Some(Val::I64(a & b)),
        spec_simple_binary(BinaryOp::BitOr, Ty::Int) matches Some(i) && binop(i, Val::I64(a), Val::I64(b)) == Some(Val::I64(a | b)),
        spec_simple_binary(BinaryOp::BitXor, Ty::Int) matches Some(i) && binop(i, Val::I64(a), Val::I64(b)) == Some(Val::I64(a ^ b)),
{
}

/// The smaller of `a` and `b`.
pub open spec fn smaller(a: i64, b: i64) -> i64 {
    if a <= b { a } else { b }
}

/// The larger of `a` and `b`.
pub open spec fn larger(a: i64, b: i64) -> i64 {
    if a >= b { a } else { b }
}

/// The value that the 8-byte slot at `a` of `mem` holds as a value of type `ty`: a
/// float's bit pattern, a 32-bit value in the low half for types held in 32 bits,
/// else a 64-bit integer.
pub open spec fn slot_value(mem: Seq<u8>, a: int, ty: Ty) -> Val {
    if ty is Float {
        Val::F64(load_u64(mem, a) as u64)
    } else if spec_is_i32_type(ty) {
        Val::I32(load_i64(mem, a) as u32)
    } else {
        Val::I64(load_i64(mem, a))
    }
}

/// Whether `x` fits a signed 64-bit integer.
pub open spec fn fits_i64(x: int) -> bool {
    i64::MIN <= x <= i64::MAX
}

/// The sum of two 64-bit integers overflows exactly where its wrapped value has a
/// sign different from both operands'.
proof fn lemma_add_overflow_sign(a: i64, b: i64)
    ensures
        ((a ^ ((a + b) as i64)) & (b ^ ((a + b) as i64)) < 0) == !fits_i64(a + b),
        fits_i64(a + b) ==> ((a + b) as i64) as int == a + b,
{
    assert(((a ^ ((a + b) as i64)) & (b ^ ((a + b) as i64)) < 0) == !(i64::MIN <= a + b && a + b <= i64::MAX)) by (bit_vector);
}

/// The difference of two 64-bit integers overflows exactly where the operands'
/// signs differ and the wrapped value's sign differs from the first operand's.
proof fn lemma_sub_overflow_sign(a: i64, b: i64)
    ensures
        ((a ^ b) & (a ^ ((a - b) as i64)) < 0) == !fits_i64(a - b),
        fits_i64(a - b) ==> ((a - b) as i64) as int == a - b,
{
    assert(((a ^ b) & (a ^ ((a - b) as i64)) < 0) == !(i64::MIN <= a - b && a - b <= i64::MAX)) by (bit_vector);
}

/// The remainder of `a` divided by `b`, with the sign of `a`.
pub open spec fn remainder(a: int, b: int) -> int {
    a - b * div_toward_zero(a, b)
}

impl<'a> FuncCodegen<'a> {
    /// Whether `m` holds `v` in the local of value `x`, a local below the scratch
    /// locals, which come one after another.
    pub open spec fn holds_value(&self, m: Machine, x: ValueId, v: Val) -> bool {
        &&& self.locals_allocated()
        &&& self.spec_local(x) < self.scratch_i64
        &&& m.locals.contains_key(self.spec_local(x))
        &&& m.locals[self.spec_local(x)] == v
    }

    /// The integer `min` leaves the smaller operand, `max` the larger; the memory is
    /// unchanged.
    pub proof fn law_int_min_max(&self, lhs: ValueId, rhs: ValueId, pick_min: bool, m: Machine, a: i64, b: i64, fuel: nat)
        requires
            self.holds_value(m, lhs, Val::I64(a)),
            self.holds_value(m, rhs, Val::I64(b)),
        ensures
            leaves(run(self.spec_emit_int_min_max(lhs, rhs, pick_min), m, fuel), m, Val::I64(
                if pick_min { smaller(a, b) } else { larger(a, b) },
            )),
    {
        let code = self.spec_emit_int_min_max(lhs, rhs, pick_min);
        let (la, lb) = (self.spec_local(lhs), self.spec_local(rhs));
        let (s1, s2, s3) = (self.scratch_i64, self.scratch_i64_2, self.scratch_i64_3);
        let c = if pick_min { a <= b } else { a >= b };
        let r = if c { a } else { b };
        let test = if pick_min { Instr::I64LeS } else { Instr::I64GeS };
        assert(code =~= seq![
            Instr::LocalGet(la), Instr::LocalSet(s1), Instr::LocalGet(lb), Instr::LocalSet(s2),
            Instr::LocalGet(s1), Instr::LocalGet(s2), test, Instr::If(BlockTy::Empty),
            Instr::LocalGet(s1), Instr::LocalSet(s3), Instr::Else, Instr::LocalGet(s2), Instr::LocalSet(s3),
            Instr::End, Instr::LocalGet(s3)]);
        let st = m.stack;
        let l1 = m.locals.insert(s1, Val::I64(a));
        let l2 = l1.insert(s2, Val::I64(b));
        let m1 = Machine { stack: st.push(Val::I64(a)), locals: m.locals, mem: m.mem };
        let m2 = Machine { stack: st, locals: l1, mem: m.mem };
        let m3 = Machine { stack: st.push(Val::I64(b)), locals: l1, mem: m.mem };
        let m4 = Machine { stack: st, locals: l2, mem: m.mem };
        let m5 = Machine { stack: st.push(Val::I64(a)), locals: l2, mem: m.mem };
        let m6 = Machine { stack: st.push(Val::I64(a)).push(Val::I64(b)), locals: l2, mem: m.mem };
        let m7 = Machine { stack: st.push(flag(c)), locals: l2, mem: m.mem };
        lemma_exec_plain(code, 0, m, fuel);
        assert(st.push(Val::I64(a)).drop_last() =~= st);
        lemma_exec_plain(code, 1, m1, fuel);
        lemma_exec_plain(code, 2, m2, fuel);
        assert(st.push(Val::I64(b)).drop_last() =~= st);
        lemma_exec_plain(code, 3, m3, fuel);
        lemma_exec_plain(code, 4, m4, fuel);
        lemma_exec_plain(code, 5, m5, fuel);
        assert(st.push(Val::I64(a)).push(Val::I64(b)).subrange(0, st.len() as int) =~= st);
        lemma_exec_plain(code, 6, m6, fuel);
        assert(exec(code, 0, m, fuel) == exec(code, 7, m7, fuel));
        lemma_scan_skip(code, 8, 2, 0);
        lemma_scan_skip(code, 11, 2, 0);
        assert(st.push(flag(c)).drop_last() =~= st);
        let l3 = l2.insert(s3, Val::I64(r));
        let m9 = Machine { stack: st, locals: l3, mem: m.mem };
        let mr = Machine { stack: st.push(Val::I64(r)), locals: l2, mem: m.mem };
        if c {
            lemma_exec_plain(code, 8, m4, fuel);
            lemma_exec_plain(code, 9, mr, fuel);
        } else {
            lemma_exec_plain(code, 11, m4, fuel);
            lemma_exec_plain(code, 12, mr, fuel);
        }
        assert(st.push(Val::I64(r)).drop_last() =~= st);
        lemma_exec_plain(code, 14, m9, fuel);
        assert(exec(code, 7, m7, fuel) == exec(code, 14, m9, fuel));
    }

    /// Counting a range sequence whose object is at `p` (a zero tag, then its start
    /// and end as 64-bit integers at offsets 8 and 16) leaves `end - start` where
    /// the range is not empty, and 0 where it is; a sequence of another kind traps.
    #[verifier::rlimit(50)]
    pub proof fn law_seq_count_range(&self, seq_local: u32, m: Machine, p: u32, fuel: nat)
        requires
            self.locals_allocated(),
            seq_local != self.scratch_i64,
            seq_local != self.scratch_i64_2,
            seq_local != self.scratch_i64_3,
            m.locals.contains_key(seq_local),
            m.locals[seq_local] == Val::I32(p),
            p + 24 <= m.mem.len(),
        ensures
            self.spec_emit_seq_count_range_from_local(seq_local) is Ok,
            load_u32(m.mem, p as int) != 0 ==> run(self.spec_emit_seq_count_range_from_local(seq_local)->Ok_0, m, fuel)
                == Outcome::Trap,
            load_u32(m.mem, p as int) == 0 && load_i64(m.mem, p + 8) >= load_i64(m.mem, p + 16) ==> leaves(
                run(self.spec_emit_seq_count_range_from_local(seq_local)->Ok_0, m, fuel), m, Val::I64(0)),
            load_u32(m.mem, p as int) == 0 && load_i64(m.mem, p + 8) < load_i64(m.mem, p + 16)
                && load_i64(m.mem, p + 16) - load_i64(m.mem, p + 8) <= i64::MAX ==> leaves(
                run(self.spec_emit_seq_count_range_from_local(seq_local)->Ok_0, m, fuel), m,
                Val::I64((load_i64(m.mem, p + 16) - load_i64(m.mem, p + 8)) as i64)),
    {
        let code = self.spec_emit_seq_count_range_from_local(seq_local)->Ok_0;
        let (s1, s2, s3) = (self.scratch_i64, self.scratch_i64_2, self.scratch_i64_3);
        let ld0 = Instr::I32Load(MemArg { offset: 0, align: 2 });
        assert(code =~= seq![
            Instr::LocalGet(seq_local), ld0, Instr::I32Const(0i32), Instr::I32Ne,
            Instr::If(BlockTy::Empty), Instr::Unreachable, Instr::End,
            Instr::LocalGet(seq_local), Instr::I64Load(MemArg { offset: 8, align: 3 }), Instr::LocalSet(s1),
            Instr::LocalGet(seq_local), Instr::I64Load(MemArg { offset: 16, align: 3 }), Instr::LocalSet(s2),
            Instr::LocalGet(s1), Instr::LocalGet(s2), Instr::I64LtS, Instr::If(BlockTy::Result(ValTy::I64)),
            Instr::LocalGet(s2), Instr::LocalGet(s1), Instr::I64Sub, Instr::LocalTee(s3), Instr::I64Const(0i64),
            Instr::I64LtS, Instr::If(BlockTy::Empty), Instr::Unreachable, Instr::End, Instr::LocalGet(s3),
            Instr::Else, Instr::I64Const(0i64), Instr::End]);
        let st = m.stack;
        let mem = m.mem;
        let l0 = m.locals;
        let pv = Val::I32(p);
        let tag = load_u32(mem, p as int) as u32;
        let start = load_i64(mem, p + 8);
        let end = load_i64(mem, p + 16);
        let mk = |s: Seq<Val>, l: Map<u32, Val>| Machine { stack: s, locals: l, mem };
        lemma_exec_plain(code, 0, m, fuel);
        lemma_exec_plain(code, 1, mk(st.push(pv), l0), fuel);
        assert(st.push(pv).drop_last() =~= st);
        lemma_exec_plain(code, 2, mk(st.push(Val::I32(tag)), l0), fuel);
        assert(st.push(Val::I32(tag)).push(Val::I32(0)).subrange(0, st.len() as int) =~= st);
        lemma_exec_plain(code, 3, mk(st.push(Val::I32(tag)).push(Val::I32(0)), l0), fuel);
        assert(st.push(flag(tag != 0)).drop_last() =~= st);
        assert(exec(code, 0, m, fuel) == exec(code, 4, mk(st.push(flag(tag != 0)), l0), fuel));
        assert(scan_end(code, 5, 0) == scan_end(code, 6, 0));
        assert(scan_end(code, 5, 0) == 6);
        if tag != 0 {
            lemma_if_true(code, 4, mk(st.push(flag(tag != 0)), l0), fuel, 6, 6);
            assert(exec(code, 4, mk(st.push(flag(tag != 0)), l0), fuel) == Outcome::Trap);
            return;
        }
        lemma_if_false(code, 4, mk(st.push(flag(tag != 0)), l0), fuel, 6);
        let l1 = l0.insert(s1, Val::I64(start));
        let l2 = l1.insert(s2, Val::I64(end));
        lemma_exec_plain(code, 7, mk(st, l0), fuel);
        lemma_exec_plain(code, 8, mk(st.push(pv), l0), fuel);
        assert(st.push(Val::I64(start)).drop_last() =~= st);
        lemma_exec_plain(code, 9, mk(st.push(Val::I64(start)), l0), fuel);
        lemma_exec_plain(code, 10, mk(st, l1), fuel);
        lemma_exec_plain(code, 11, mk(st.push(pv), l1), fuel);
        assert(st.push(Val::I64(end)).drop_last() =~= st);
        lemma_exec_plain(code, 12, mk(st.push(Val::I64(end)), l1), fuel);
        lemma_exec_plain(code, 13, mk(st, l2), fuel);
        lemma_exec_plain(code, 14, mk(st.push(Val::I64(start)), l2), fuel);
        assert(st.push(Val::I64(start)).push(Val::I64(end)).subrange(0, st.len() as int) =~= st);
        lemma_exec_plain(code, 15, mk(st.push(Val::I64(start)).push(Val::I64(end)), l2), fuel);
        assert(exec(code, 7, mk(st, l0), fuel) == exec(code, 16, mk(st.push(flag(start < end)), l2), fuel));
        assert(st.push(flag(start < end)).drop_last() =~= st);
        lemma_scan_skip(code, 17, 6, 0);
        assert(scan_end(code, 23, 0) == scan_end(code, 24, 1));
        assert(scan_end(code, 24, 1) == scan_end(code, 25, 1));
        assert(scan_end(code, 25, 1) == scan_end(code, 26, 0));
        assert(scan_end(code, 26, 0) == scan_end(code, 27, 0));
        assert(scan_end(code, 17, 0) == 27);
        assert(scan_end(code, 28, 0) == scan_end(code, 29, 0));
        assert(scan_end(code, 28, 0) == 29);
        if start < end {
            let d = (end - start) as i64;
            let l3 = l2.insert(s3, Val::I64(d));
            lemma_exec_plain(code, 17, mk(st, l2), fuel);
            lemma_exec_plain(code, 18, mk(st.push(Val::I64(end)), l2), fuel);
            assert(st.push(Val::I64(end)).push(Val::I64(start)).subrange(0, st.len() as int) =~= st);
            lemma_exec_plain(code, 19, mk(st.push(Val::I64(end)).push(Val::I64(start)), l2), fuel);
            lemma_exec_plain(code, 20, mk(st.push(Val::I64(d)), l2), fuel);
            lemma_exec_plain(code, 21, mk(st.push(Val::I64(d)), l3), fuel);
            assert(st.push(Val::I64(d)).push(Val::I64(0)).subrange(0, st.len() as int) =~= st);
            lemma_exec_plain(code, 22, mk(st.push(Val::I64(d)).push(Val::I64(0)), l3), fuel);
            assert(exec(code, 17, mk(st, l2), fuel) == exec(code, 23, mk(st.push(flag(d < 0)), l3), fuel));
            if load_i64(m.mem, p + 16) - load_i64(m.mem, p + 8) <= i64::MAX {
                assert(d as int == end - start);
                assert(st.push(flag(d < 0)).drop_last() =~= st);
                assert(scan_end(code, 24, 0) == scan_end(code, 25, 0));
                assert(scan_end(code, 24, 0) == 25);
                lemma_if_false(code, 23, mk(st.push(flag(d < 0)), l3), fuel, 25);
                lemma_exec_plain(code, 26, mk(st, l3), fuel);
                lemma_if_true(code, 16, mk(st.push(flag(start < end)), l2), fuel, 27, 29);
                assert(exec(code, 16, mk(st.push(flag(start < end)), l2), fuel) == exec(code, 30, mk(st.push(Val::I64(d)), l3), fuel));
            }
        } else {
            lemma_exec_plain(code, 28, mk(st, l2), fuel);
            lemma_if_else(code, 16, mk(st.push(flag(start < end)), l2), fuel, 27, 29);
            assert(exec(code, 16, mk(st.push(flag(start < end)), l2), fuel) == exec(code, 30, mk(st.push(Val::I64(0)), l2), fuel));
        }
    }

    /// Taking an option whose object is at `p` (its tag, then its payload in the slot
    /// at offset 8) or a fallback leaves the payload where the tag is the `Some` tag,
    /// the fallback where it is the `None` tag, and traps on any other tag.
    #[verifier::rlimit(60)]
    pub proof fn law_option_unwrap_or(
        &self,
        option: ValueId,
        fallback: ValueId,
        result_ty: Ty,
        m: Machine,
        p: u32,
        fv: Val,
        fuel: nat,
    )
        requires
            self.holds_value(m, option, Val::I32(p)),
            self.holds_value(m, fallback, fv),
            p + 16 <= m.mem.len(),
            self.spec_lookup_option_variant_tags(self.spec_value_ty(option)) is Ok,
        ensures
            ({
                let (some_ty, some_tag, none_tag) = self.spec_lookup_option_variant_tags(self.spec_value_ty(option))->Ok_0;
                let tag = load_u32(m.mem, p as int);
                let o = run(self.spec_emit_option_unwrap_or(option, fallback, result_ty)->Ok_0, m, fuel);
                &&& self.spec_emit_option_unwrap_or(option, fallback, result_ty) is Ok
                &&& tag == some_tag ==> leaves(o, m, slot_value(m.mem, p + 8, some_ty))
                &&& tag != some_tag && tag == none_tag ==> leaves(o, m, fv)
                &&& tag != some_tag && tag != none_tag ==> o == Outcome::Trap
            }),
    {
        let (some_ty, some_tag, none_tag) = self.spec_lookup_option_variant_tags(self.spec_value_ty(option))->Ok_0;
        let code = self.spec_emit_option_unwrap_or(option, fallback, result_ty)->Ok_0;
        let (lo, lf) = (self.spec_local(option), self.spec_local(fallback));
        let (si, si2) = (self.scratch_i32, self.scratch_i32_2);
        let temp = self.spec_temp_local_for_ty(result_ty);
        let ld = spec_typed_load(some_ty, 8);
        let pl = ld.len() as int;
        let q = 10 + pl;
        let head = seq![
            Instr::LocalGet(lo), Instr::LocalSet(si), Instr::LocalGet(si), Instr::I32Load(MemArg { offset: 0, align: 2 }),
            Instr::LocalSet(si2), Instr::LocalGet(si2), Instr::I32Const(some_tag as i32), Instr::I32Eq,
            Instr::If(BlockTy::Empty), Instr::LocalGet(si)];
        let tail = seq![
            Instr::LocalSet(temp), Instr::Else, Instr::LocalGet(si2), Instr::I32Const(none_tag as i32), Instr::I32Eq,
            Instr::I32Eqz, Instr::If(BlockTy::Empty), Instr::Unreachable, Instr::End, Instr::LocalGet(lf),
            Instr::LocalSet(temp), Instr::End, Instr::LocalGet(temp)];
        assert(code =~= head + ld + tail);
        assert(forall|j: int| 0 <= j < 10 ==> code[j] == #[trigger] head[j]);
        assert(forall|j: int| 0 <= j < pl ==> code[10 + j] == #[trigger] ld[j]);
        assert(forall|j: int| 0 <= j < 13 ==> code[q + j] == #[trigger] tail[j]);
        assert(((some_tag as i32) as u32) == some_tag) by (bit_vector);
        assert(((none_tag as i32) as u32) == none_tag) by (bit_vector);
        let st = m.stack;
        let mem = m.mem;
        let l0 = m.locals;
        let pv = Val::I32(p);
        let tag = load_u32(mem, p as int) as u32;
        let mk = |s: Seq<Val>, l: Map<u32, Val>| Machine { stack: s, locals: l, mem };
        let l1 = l0.insert(si, pv);
        let l2 = l1.insert(si2, Val::I32(tag));
        assert(code[0] == head[0] && code[1] == head[1] && code[2] == head[2] && code[3] == head[3]);
        assert(code[4] == head[4] && code[5] == head[5] && code[6] == head[6] && code[7] == head[7]);
        assert(code[8] == head[8] && code[9] == head[9]);
        lemma_exec_plain(code, 0, m, fuel);
        assert(st.push(pv).drop_last() =~= st);
        lemma_exec_plain(code, 1, mk(st.push(pv), l0), fuel);
        lemma_exec_plain(code, 2, mk(st, l1), fuel);
        lemma_exec_plain(code, 3, mk(st.push(pv), l1), fuel);
        assert(st.push(Val::I32(tag)).drop_last() =~= st);
        lemma_exec_plain(code, 4, mk(st.push(Val::I32(tag)), l1), fuel);
        lemma_exec_plain(code, 5, mk(st, l2), fuel);
        lemma_exec_plain(code, 6, mk(st.push(Val::I32(tag)), l2), fuel);
        assert(st.push(Val::I32(tag)).push(Val::I32(some_tag)).subrange(0, st.len() as int) =~= st);
        lemma_exec_plain(code, 7, mk(st.push(Val::I32(tag)).push(Val::I32(some_tag)), l2), fuel);
        let c1 = tag == some_tag;
        assert(exec(code, 0, m, fuel) == exec(code, 8, mk(st.push(flag(c1)), l2), fuel));
        assert(st.push(flag(c1)).drop_last() =~= st);
        // The arms' extents.
        assert(code[q] == tail[0] && code[q + 1] == tail[1] && code[q + 2] == tail[2] && code[q + 3] == tail[3]);
        assert(code[q + 4] == tail[4] && code[q + 5] == tail[5] && code[q + 6] == tail[6] && code[q + 7] == tail[7]);
        assert(code[q + 8] == tail[8] && code[q + 9] == tail[9] && code[q + 10] == tail[10] && code[q + 11] == tail[11]);
        assert(code[q + 12] == tail[12]);
        assert(code[10] == ld[0]);
        assert(pl == 2 ==> code[11] == ld[1]);
        lemma_scan_skip(code, 9, pl + 2, 0);
        assert(scan_end(code, q + 1, 0) == q + 1);
        lemma_scan_skip(code, q + 2, 4, 0);
        assert(scan_end(code, q + 6, 0) == scan_end(code, q + 7, 1));
        assert(scan_end(code, q + 7, 1) == scan_end(code, q + 8, 1));
        assert(scan_end(code, q + 8, 1) == scan_end(code, q + 9, 0));
        lemma_scan_skip(code, q + 9, 2, 0);
        assert(scan_end(code, q + 11, 0) == q + 11);
        assert(scan_end(code, q + 2, 0) == q + 11);
        if c1 {
            let pvl = slot_value(mem, p + 8, some_ty);
            let l3 = l2.insert(temp, pvl);
            lemma_exec_plain(code, 9, mk(st, l2), fuel);
            if some_ty is Float {
                lemma_exec_plain(code, 10, mk(st.push(pv), l2), fuel);
            } else if spec_is_i32_type(some_ty) {
                lemma_exec_plain(code, 10, mk(st.push(pv), l2), fuel);
                let w = Val::I64(load_i64(mem, p + 8));
                assert(st.push(w).drop_last() =~= st);
                lemma_exec_plain(code, 11, mk(st.push(w), l2), fuel);
            } else {
                lemma_exec_plain(code, 10, mk(st.push(pv), l2), fuel);
            }
            assert(st.push(pv).drop_last() =~= st);
            assert(exec(code, 9, mk(st, l2), fuel) == exec(code, q, mk(st.push(pvl), l2), fuel));
            assert(st.push(pvl).drop_last() =~= st);
            lemma_exec_plain(code, q, mk(st.push(pvl), l2), fuel);
            lemma_if_true(code, 8, mk(st.push(flag(c1)), l2), fuel, q + 1, q + 11);
            lemma_exec_plain(code, q + 12, mk(st, l3), fuel);
            assert(exec(code, 8, mk(st.push(flag(c1)), l2), fuel) == Outcome::Done(mk(st.push(pvl), l3)));
        } else {
            lemma_if_else(code, 8, mk(st.push(flag(c1)), l2), fuel, q + 1, q + 11);
            let c2 = tag != none_tag;
            lemma_exec_plain(code, q + 2, mk(st, l2), fuel);
            lemma_exec_plain(code, q + 3, mk(st.push(Val::I32(tag)), l2), fuel);
            assert(st.push(Val::I32(tag)).push(Val::I32(none_tag)).subrange(0, st.len() as int) =~= st);
            lemma_exec_plain(code, q + 4, mk(st.push(Val::I32(tag)).push(Val::I32(none_tag)), l2), fuel);
            assert(st.push(flag(!c2)).drop_last() =~= st);
            lemma_exec_plain(code, q + 5, mk(st.push(flag(!c2)), l2), fuel);
            assert(exec(code, q + 2, mk(st, l2), fuel) == exec(code, q + 6, mk(st.push(flag(c2)), l2), fuel));
            assert(st.push(flag(c2)).drop_last() =~= st);
            assert(scan_end(code, q + 7, 0) == scan_end(code, q + 8, 0));
            assert(scan_end(code, q + 7, 0) == q + 8);
            if c2 {
                lemma_if_true(code, q + 6, mk(st.push(flag(c2)), l2), fuel, q + 8, q + 8);
                assert(exec(code, q + 6, mk(st.push(flag(c2)), l2), fuel) == Outcome::Trap);
            } else {
                lemma_if_false(code, q + 6, mk(st.push(flag(c2)), l2), fuel, q + 8);
                let l3 = l2.insert(temp, fv);
                lemma_exec_plain(code, q + 9, mk(st, l2), fuel);
                assert(st.push(fv).drop_last() =~= st);
                lemma_exec_plain(code, q + 10, mk(st.push(fv), l2), fuel);
                lemma_exec_plain(code, q + 12, mk(st, l3), fuel);
                assert(exec(code, q + 2, mk(st, l2), fuel) == Outcome::EndAt(q + 11, mk(st, l3)));
            }
        }
    }

    /// Checked addition leaves the sum where it fits 64 bits and traps where it
    /// overflows.
    #[verifier::rlimit(40)]
    pub proof fn law_checked_int_add(&self, lhs: ValueId, rhs: ValueId, m: Machine, a: i64, b: i64, fuel: nat)
        requires
            self.holds_value(m, lhs, Val::I64(a)),
            self.holds_value(m, rhs, Val::I64(b)),
        ensures
            fits_i64(a + b) ==> leaves(run(self.spec_emit_checked_int_add(lhs, rhs), m, fuel), m, Val::I64((a + b) as i64)),
            !fits_i64(a + b) ==> run(self.spec_emit_checked_int_add(lhs, rhs), m, fuel) == Outcome::Trap,
    {
        let code = self.spec_emit_checked_int_add(lhs, rhs);
        let (la, lb, t) = (self.spec_local(lhs), self.spec_local(rhs), self.scratch_i64);
        assert(code =~= seq![
            Instr::LocalGet(la), Instr::LocalGet(lb), Instr::I64Add, Instr::LocalSet(t), Instr::LocalGet(la),
            Instr::LocalGet(t), Instr::I64Xor, Instr::LocalGet(lb), Instr::LocalGet(t), Instr::I64Xor, Instr::I64And,
            Instr::I64Const(0i64), Instr::I64LtS, Instr::If(BlockTy::Empty), Instr::Unreachable, Instr::End,
            Instr::LocalGet(t)]);
        lemma_add_overflow_sign(a, b);
        let sv = (a + b) as i64;
        let x1 = a ^ sv;
        let x2 = b ^ sv;
        let ov = (x1 & x2) < 0;
        let st = m.stack;
        let l0 = m.locals;
        let l1 = l0.insert(t, Val::I64(sv));
        let mk = |v: Seq<Val>, lo: Map<u32, Val>| Machine { stack: v, locals: lo, mem: m.mem };
        let i = |x: i64| Val::I64(x);
        lemma_exec_plain(code, 0, m, fuel);
        lemma_exec_plain(code, 1, mk(st.push(i(a)), l0), fuel);
        assert(st.push(i(a)).push(i(b)).subrange(0, st.len() as int) =~= st);
        lemma_exec_plain(code, 2, mk(st.push(i(a)).push(i(b)), l0), fuel);
        assert(st.push(i(sv)).drop_last() =~= st);
        lemma_exec_plain(code, 3, mk(st.push(i(sv)), l0), fuel);
        lemma_exec_plain(code, 4, mk(st, l1), fuel);
        lemma_exec_plain(code, 5, mk(st.push(i(a)), l1), fuel);
        assert(st.push(i(a)).push(i(sv)).subrange(0, st.len() as int) =~= st);
        lemma_exec_plain(code, 6, mk(st.push(i(a)).push(i(sv)), l1), fuel);
        let s1 = st.push(i(x1));
        lemma_exec_plain(code, 7, mk(s1, l1), fuel);
        lemma_exec_plain(code, 8, mk(s1.push(i(b)), l1), fuel);
        assert(s1.push(i(b)).push(i(sv)).subrange(0, s1.len() as int) =~= s1);
        lemma_exec_plain(code, 9, mk(s1.push(i(b)).push(i(sv)), l1), fuel);
        assert(st.push(i(x1)).push(i(x2)).subrange(0, st.len() as int) =~= st);
        lemma_exec_plain(code, 10, mk(st.push(i(x1)).push(i(x2)), l1), fuel);
        lemma_exec_plain(code, 11, mk(st.push(i(x1 & x2)), l1), fuel);
        assert(st.push(i(x1 & x2)).push(i(0)).subrange(0, st.len() as int) =~= st);
        lemma_exec_plain(code, 12, mk(st.push(i(x1 & x2)).push(i(0)), l1), fuel);
        assert(exec(code, 0, m, fuel) == exec(code, 13, mk(st.push(flag(ov)), l1), fuel));
        assert(st.push(flag(ov)).drop_last() =~= st);
        assert(scan_end(code, 14, 0) == scan_end(code, 15, 0));
        assert(scan_end(code, 14, 0) == 15);
        if ov {
            lemma_if_true(code, 13, mk(st.push(flag(ov)), l1), fuel, 15, 15);
        } else {
            lemma_if_false(code, 13, mk(st.push(flag(ov)), l1), fuel, 15);
            lemma_exec_plain(code, 16, mk(st, l1), fuel);
        }
    }

    /// Checked subtraction leaves the difference where it fits 64 bits and traps
    /// where it overflows.
    #[verifier::rlimit(40)]
    pub proof fn law_checked_int_sub(&self, lhs: ValueId, rhs: ValueId, m: Machine, a: i64, b: i64, fuel: nat)
        requires
            self.holds_value(m, lhs, Val::I64(a)),
            self.holds_value(m, rhs, Val::I64(b)),
        ensures
            fits_i64(a - b) ==> leaves(run(self.spec_emit_checked_int_sub(lhs, rhs), m, fuel), m, Val::I64((a - b) as i64)),
            !fits_i64(a - b) ==> run(self.spec_emit_checked_int_sub(lhs, rhs), m, fuel) == Outcome::Trap,
    {
        let code = self.spec_emit_checked_int_sub(lhs, rhs);
        let (la, lb, t) = (self.spec_local(lhs), self.spec_local(rhs), self.scratch_i64);
        assert(code =~= seq![
            Instr::LocalGet(la), Instr::LocalGet(lb), Instr::I64Sub, Instr::LocalSet(t), Instr::LocalGet(la),
            Instr::LocalGet(lb), Instr::I64Xor, Instr::LocalGet(la), Instr::LocalGet(t), Instr::I64Xor, Instr::I64And,
            Instr::I64Const(0i64), Instr::I64LtS, Instr::If(BlockTy::Empty), Instr::Unreachable, Instr::End,
            Instr::LocalGet(t)]);
        lemma_sub_overflow_sign(a, b);
        let sv = (a - b) as i64;
        let x1 = a ^ b;
        let x2 = a ^ sv;
        let ov = (x1 & x2) < 0;
        let st = m.stack;
        let l0 = m.locals;
        let l1 = l0.insert(t, Val::I64(sv));
        let mk = |v: Seq<Val>, lo: Map<u32, Val>| Machine { stack: v, locals: lo, mem: m.mem };
        let i = |x: i64| Val::I64(x);
        lemma_exec_plain(code, 0, m, fuel);
        lemma_exec_plain(code, 1, mk(st.push(i(a)), l0), fuel);
        assert(st.push(i(a)).push(i(b)).subrange(0, st.len() as int) =~= st);
        lemma_exec_plain(code, 2, mk(st.push(i(a)).push(i(b)), l0), fuel);
        assert(st.push(i(sv)).drop_last() =~= st);
        lemma_exec_plain(code, 3, mk(st.push(i(sv)), l0), fuel);
        lemma_exec_plain(code, 4, mk(st, l1), fuel);
        lemma_exec_plain(code, 5, mk(st.push(i(a)), l1), fuel);
        lemma_exec_plain(code, 6, mk(st.push(i(a)).push(i(b)), l1), fuel);
        let s1 = st.push(i(x1));
        lemma_exec_plain(code, 7, mk(s1, l1), fuel);
        lemma_exec_plain(code, 8, mk(s1.push(i(a)), l1), fuel);
        assert(s1.push(i(a)).push(i(sv)).subrange(0, s1.len() as int) =~= s1);
        lemma_exec_plain(code, 9, mk(s1.push(i(a)).push(i(sv)), l1), fuel);
        assert(st.push(i(x1)).push(i(x2)).subrange(0, st.len() as int) =~= st);
        lemma_exec_plain(code, 10, mk(st.push(i(x1)).push(i(x2)), l1), fuel);
        lemma_exec_plain(code, 11, mk(st.push(i(x1 & x2)), l1), fuel);
        assert(st.push(i(x1 & x2)).push(i(0)).subrange(0, st.len() as int) =~= st);
        lemma_exec_plain(code, 12, mk(st.push(i(x1 & x2)).push(i(0)), l1), fuel);
        assert(exec(code, 0, m, fuel) == exec(code, 13, mk(st.push(flag(ov)), l1), fuel));
        assert(st.push(flag(ov)).drop_last() =~= st);
        assert(scan_end(code, 14, 0) == scan_end(code, 15, 0));
        assert(scan_end(code, 14, 0) == 15);
        if ov {
            lemma_if_true(code, 13, mk(st.push(flag(ov)), l1), fuel, 15, 15);
        } else {
            lemma_if_false(code, 13, mk(st.push(flag(ov)), l1), fuel, 15);
            lemma_exec_plain(code, 16, mk(st, l1), fuel);
        }
    }

    /// The absolute value of an integer: the integer itself where it is not
    /// negative, its negation where it is; a trap for the smallest integer, whose
    /// negation does not fit.
    #[verifier::rlimit(40)]
    pub proof fn law_int_abs(&self, value: ValueId, m: Machine, a: i64, fuel: nat)
        requires
            self.holds_value(m, value, Val::I64(a)),
        ensures
            a == i64::MIN ==> run(self.spec_emit_int_abs(value), m, fuel) == Outcome::Trap,
            a != i64::MIN ==> leaves(run(self.spec_emit_int_abs(value), m, fuel), m, Val::I64(
                (if a < 0 { -a } else { a as int }) as i64,
            )),
    {
        let code = self.spec_emit_int_abs(value);
        let (la, t) = (self.spec_local(value), self.scratch_i64);
        assert(code =~= seq![
            Instr::LocalGet(la), Instr::I64Const(i64::MIN), Instr::I64Eq, Instr::If(BlockTy::Empty), Instr::Unreachable,
            Instr::End, Instr::LocalGet(la), Instr::LocalSet(t), Instr::LocalGet(t), Instr::I64Const(0i64),
            Instr::I64LtS, Instr::If(BlockTy::Empty), Instr::I64Const(0i64), Instr::LocalGet(t), Instr::I64Sub,
            Instr::LocalSet(t), Instr::End, Instr::LocalGet(t)]);
        let st = m.stack;
        let l0 = m.locals;
        let mk = |v: Seq<Val>, lo: Map<u32, Val>| Machine { stack: v, locals: lo, mem: m.mem };
        let i = |x: i64| Val::I64(x);
        lemma_exec_plain(code, 0, m, fuel);
        assert(st.push(i(a)).push(i(i64::MIN)).subrange(0, st.len() as int) =~= st);
        lemma_exec_plain(code, 1, mk(st.push(i(a)), l0), fuel);
        lemma_exec_plain(code, 2, mk(st.push(i(a)).push(i(i64::MIN)), l0), fuel);
        let c = a == i64::MIN;
        assert(st.push(flag(c)).drop_last() =~= st);
        assert(scan_end(code, 4, 0) == scan_end(code, 5, 0));
        assert(scan_end(code, 4, 0) == 5);
        if c {
            lemma_if_true(code, 3, mk(st.push(flag(c)), l0), fuel, 5, 5);
            return;
        }
        lemma_if_false(code, 3, mk(st.push(flag(c)), l0), fuel, 5);
        let l1 = l0.insert(t, i(a));
        lemma_exec_plain(code, 6, mk(st, l0), fuel);
        assert(st.push(i(a)).drop_last() =~= st);
        lemma_exec_plain(code, 7, mk(st.push(i(a)), l0), fuel);
        lemma_exec_plain(code, 8, mk(st, l1), fuel);
        assert(st.push(i(a)).push(i(0)).subrange(0, st.len() as int) =~= st);
        lemma_exec_plain(code, 9, mk(st.push(i(a)), l1), fuel);
        lemma_exec_plain(code, 10, mk(st.push(i(a)).push(i(0)), l1), fuel);
        let neg = a < 0;
        assert(st.push(flag(neg)).drop_last() =~= st);
        lemma_scan_skip(code, 12, 4, 0);
        assert(scan_end(code, 12, 0) == 16);
        if neg {
            let l2 = l1.insert(t, i((0 - a) as i64));
            lemma_exec_plain(code, 12, mk(st, l1), fuel);
            lemma_exec_plain(code, 13, mk(st.push(i(0)), l1), fuel);
            assert(st.push(i(0)).push(i(a)).subrange(0, st.len() as int) =~= st);
            lemma_exec_plain(code, 14, mk(st.push(i(0)).push(i(a)), l1), fuel);
            assert(st.push(i((0 - a) as i64)).drop_last() =~= st);
            lemma_exec_plain(code, 15, mk(st.push(i((0 - a) as i64)), l1), fuel);
            lemma_if_true(code, 11, mk(st.push(flag(neg)), l1), fuel, 16, 16);
            lemma_exec_plain(code, 17, mk(st, l2), fuel);
        } else {
            lemma_if_false(code, 11, mk(st.push(flag(neg)), l1), fuel, 16);
            lemma_exec_plain(code, 17, mk(st, l1), fuel);
        }
    }

    /// Checked remainder leaves the remainder of `a` by `b`, with the sign of `a`;
    /// it traps where `b` is zero and where the smallest integer is divided by -1.
    #[verifier::rlimit(40)]
    pub proof fn law_checked_int_mod(&self, lhs: ValueId, rhs: ValueId, m: Machine, a: i64, b: i64, fuel: nat)
        requires
            self.holds_value(m, lhs, Val::I64(a)),
            self.holds_value(m, rhs, Val::I64(b)),
        ensures
            b == 0 || (a == i64::MIN && b == -1) ==> run(self.spec_emit_checked_int_mod(lhs, rhs), m, fuel) == Outcome::Trap,
            !(b == 0 || (a == i64::MIN && b == -1)) ==> leaves(run(self.spec_emit_checked_int_mod(lhs, rhs), m, fuel), m,
                Val::I64(remainder(a as int, b as int) as i64)),
    {
        let code = self.spec_emit_checked_int_mod(lhs, rhs);
        let (la, lb) = (self.spec_local(lhs), self.spec_local(rhs));
        assert(code =~= seq![
            Instr::LocalGet(la), Instr::I64Const(i64::MIN), Instr::I64Eq, Instr::LocalGet(lb), Instr::I64Const(-1i64),
            Instr::I64Eq, Instr::I32And, Instr::If(BlockTy::Empty), Instr::Unreachable, Instr::End, Instr::LocalGet(la),
            Instr::LocalGet(lb), Instr::I64RemS]);
        let st = m.stack;
        let l0 = m.locals;
        let mk = |v: Seq<Val>| Machine { stack: v, locals: l0, mem: m.mem };
        let i = |x: i64| Val::I64(x);
        let p1 = a == i64::MIN;
        let p2 = b == -1;
        lemma_flag_and_or(p1, p2);
        lemma_exec_plain(code, 0, m, fuel);
        assert(st.push(i(a)).push(i(i64::MIN)).subrange(0, st.len() as int) =~= st);
        lemma_exec_plain(code, 1, mk(st.push(i(a))), fuel);
        lemma_exec_plain(code, 2, mk(st.push(i(a)).push(i(i64::MIN))), fuel);
        let s1 = st.push(flag(p1));
        lemma_exec_plain(code, 3, mk(s1), fuel);
        assert(s1.push(i(b)).push(i(-1i64)).subrange(0, s1.len() as int) =~= s1);
        lemma_exec_plain(code, 4, mk(s1.push(i(b))), fuel);
        lemma_exec_plain(code, 5, mk(s1.push(i(b)).push(i(-1i64))), fuel);
        assert(st.push(flag(p1)).push(flag(p2)).subrange(0, st.len() as int) =~= st);
        lemma_exec_plain(code, 6, mk(st.push(flag(p1)).push(flag(p2))), fuel);
        let c = p1 && p2;
        assert(exec(code, 0, m, fuel) == exec(code, 7, mk(st.push(flag(c))), fuel));
        assert(st.push(flag(c)).drop_last() =~= st);
        assert(scan_end(code, 8, 0) == scan_end(code, 9, 0));
        assert(scan_end(code, 8, 0) == 9);
        if c {
            lemma_if_true(code, 7, mk(st.push(flag(c))), fuel, 9, 9);
            return;
        }
        lemma_if_false(code, 7, mk(st.push(flag(c))), fuel, 9);
        lemma_exec_plain(code, 10, mk(st), fuel);
        lemma_exec_plain(code, 11, mk(st.push(i(a))), fuel);
        assert(st.push(i(a)).push(i(b)).subrange(0, st.len() as int) =~= st);
        lemma_exec_plain(code, 12, mk(st.push(i(a)).push(i(b))), fuel);
    }

    /// A checked shift by `b` shifts `a` left, or right keeping its sign, by `b`
    /// bits where `0 <= b < 64`, and traps for any other amount.
    #[verifier::rlimit(40)]
    pub proof fn law_checked_int_shift(&self, lhs: ValueId, rhs: ValueId, op: BinaryOp, m: Machine, a: i64, b: i64, fuel: nat)
        requires
            self.holds_value(m, lhs, Val::I64(a)),
            self.holds_value(m, rhs, Val::I64(b)),
            op is Shl || op is Shr,
        ensures
            !(0 <= b < 64) ==> run(self.spec_emit_checked_int_shift(lhs, rhs, op), m, fuel) == Outcome::Trap,
            0 <= b < 64 ==> leaves(run(self.spec_emit_checked_int_shift(lhs, rhs, op), m, fuel), m,
                Val::I64(if op is Shl { a << (b as u64) } else { a >> (b as u64) })),
    {
        let code = self.spec_emit_checked_int_shift(lhs, rhs, op);
        let (la, lb, t) = (self.spec_local(lhs), self.spec_local(rhs), self.scratch_i32);
        let sh = if op is Shl { Instr::I64Shl } else { Instr::I64ShrS };
        assert(code =~= seq![
            Instr::LocalGet(lb), Instr::I64Const(0i64), Instr::I64LtS, Instr::LocalSet(t), Instr::LocalGet(lb),
            Instr::I64Const(64i64), Instr::I64GeS, Instr::LocalGet(t), Instr::I32Or, Instr::If(BlockTy::Empty),
            Instr::Unreachable, Instr::End, Instr::LocalGet(la), Instr::LocalGet(lb), sh]);
        let st = m.stack;
        let l0 = m.locals;
        let mk = |v: Seq<Val>, lo: Map<u32, Val>| Machine { stack: v, locals: lo, mem: m.mem };
        let i = |x: i64| Val::I64(x);
        let p1 = b < 0;
        let p2 = b >= 64;
        let l1 = l0.insert(t, flag(p1));
        lemma_flag_and_or(p2, p1);
        lemma_exec_plain(code, 0, m, fuel);
        assert(st.push(i(b)).push(i(0)).subrange(0, st.len() as int) =~= st);
        lemma_exec_plain(code, 1, mk(st.push(i(b)), l0), fuel);
        lemma_exec_plain(code, 2, mk(st.push(i(b)).push(i(0)), l0), fuel);
        assert(st.push(flag(p1)).drop_last() =~= st);
        lemma_exec_plain(code, 3, mk(st.push(flag(p1)), l0), fuel);
        lemma_exec_plain(code, 4, mk(st, l1), fuel);
        assert(st.push(i(b)).push(i(64)).subrange(0, st.len() as int) =~= st);
        lemma_exec_plain(code, 5, mk(st.push(i(b)), l1), fuel);
        lemma_exec_plain(code, 6, mk(st.push(i(b)).push(i(64)), l1), fuel);
        lemma_exec_plain(code, 7, mk(st.push(flag(p2)), l1), fuel);
        assert(st.push(flag(p2)).push(flag(p1)).subrange(0, st.len() as int) =~= st);
        lemma_exec_plain(code, 8, mk(st.push(flag(p2)).push(flag(p1)), l1), fuel);
        let c = p2 || p1;
        assert(exec(code, 0, m, fuel) == exec(code, 9, mk(st.push(flag(c)), l1), fuel));
        assert(st.push(flag(c)).drop_last() =~= st);
        assert(scan_end(code, 10, 0) == scan_end(code, 11, 0));
        assert(scan_end(code, 10, 0) == 11);
        if c {
            lemma_if_true(code, 9, mk(st.push(flag(c)), l1), fuel, 11, 11);
            return;
        }
        lemma_if_false(code, 9, mk(st.push(flag(c)), l1), fuel, 11);
        lemma_exec_plain(code, 12, mk(st, l1), fuel);
        lemma_exec_plain(code, 13, mk(st.push(i(a)), l1), fuel);
        assert(st.push(i(a)).push(i(b)).subrange(0, st.len() as int) =~= st);
        assert(crate::machine::unsigned64(b) % 64 == b);
        lemma_exec_plain(code, 14, mk(st.push(i(a)).push(i(b)), l1), fuel);
    }

    /// Negating an `Int` leaves its negation and traps for the smallest integer;
    /// `not` on a `Bool` leaves the other flag; bitwise `not` on an `Int` flips every
    /// bit.
    #[verifier::rlimit(40)]
    pub proof fn law_unary(&self, operand: ValueId, m: Machine, a: i64, p: bool, fuel: nat)
        requires
            self.locals_allocated(),
            self.spec_local(operand) < self.scratch_i64,
            m.locals.contains_key(self.spec_local(operand)),
        ensures
            self.spec_value_ty(operand) is Int && m.locals[self.spec_local(operand)] == Val::I64(a) ==> {
                &&& a == i64::MIN ==> run(self.spec_emit_unary(UnaryOp::Neg, operand)->Ok_0, m, fuel) == Outcome::Trap
                &&& a != i64::MIN ==> leaves(run(self.spec_emit_unary(UnaryOp::Neg, operand)->Ok_0, m, fuel), m,
                    Val::I64((-a) as i64))
                &&& leaves(run(self.spec_emit_unary(UnaryOp::BitNot, operand)->Ok_0, m, fuel), m, Val::I64(!a))
            },
            self.spec_value_ty(operand) is Bool && m.locals[self.spec_local(operand)] == flag(p) ==> leaves(
                run(self.spec_emit_unary(UnaryOp::Not, operand)->Ok_0, m, fuel), m, flag(!p)),
    {
        let lv = self.spec_local(operand);
        let st = m.stack;
        let l0 = m.locals;
        let mk = |v: Seq<Val>| Machine { stack: v, locals: l0, mem: m.mem };
        let i = |x: i64| Val::I64(x);
        if self.spec_value_ty(operand) is Int && m.locals[lv] == Val::I64(a) {
            let code = self.spec_emit_unary(UnaryOp::Neg, operand)->Ok_0;
            assert(code =~= seq![
                Instr::LocalGet(lv), Instr::I64Const(i64::MIN), Instr::I64Eq, Instr::If(BlockTy::Empty),
                Instr::Unreachable, Instr::End, Instr::I64Const(0i64), Instr::LocalGet(lv), Instr::I64Sub]);
            lemma_exec_plain(code, 0, m, fuel);
            assert(st.push(i(a)).push(i(i64::MIN)).subrange(0, st.len() as int) =~= st);
            lemma_exec_plain(code, 1, mk(st.push(i(a))), fuel);
            lemma_exec_plain(code, 2, mk(st.push(i(a)).push(i(i64::MIN))), fuel);
            let c = a == i64::MIN;
            assert(st.push(flag(c)).drop_last() =~= st);
            assert(scan_end(code, 4, 0) == scan_end(code, 5, 0));
            assert(scan_end(code, 4, 0) == 5);
            if c {
                lemma_if_true(code, 3, mk(st.push(flag(c))), fuel, 5, 5);
            } else {
                lemma_if_false(code, 3, mk(st.push(flag(c))), fuel, 5);
                lemma_exec_plain(code, 6, mk(st), fuel);
                lemma_exec_plain(code, 7, mk(st.push(i(0))), fuel);
                assert(st.push(i(0)).push(i(a)).subrange(0, st.len() as int) =~= st);
                lemma_exec_plain(code, 8, mk(st.push(i(0)).push(i(a))), fuel);
            }
            let code2 = self.spec_emit_unary(UnaryOp::BitNot, operand)->Ok_0;
            assert(code2 =~= seq![Instr::LocalGet(lv), Instr::I64Const(-1i64), Instr::I64Xor]);
            assert(a ^ -1i64 == !a) by (bit_vector);
            lemma_exec_plain(code2, 0, m, fuel);
            lemma_exec_plain(code2, 1, mk(st.push(i(a))), fuel);
            assert(st.push(i(a)).push(i(-1i64)).subrange(0, st.len() as int) =~= st);
            lemma_exec_plain(code2, 2, mk(st.push(i(a)).push(i(-1i64))), fuel);
        }
        if self.spec_value_ty(operand) is Bool && m.locals[lv] == flag(p) {
            let code = self.spec_emit_unary(UnaryOp::Not, operand)->Ok_0;
            assert(code =~= seq![Instr::LocalGet(lv), Instr::I32Eqz]);
            lemma_exec_plain(code, 0, m, fuel);
            assert(st.push(flag(p)).drop_last() =~= st);
            lemma_exec_plain(code, 1, mk(st.push(flag(p))), fuel);
        }
    }

    /// Taking a result whose object is at `p` (its tag, then its payload in the slot
    /// at offset 8) or a fallback leaves the payload where the tag is the `Ok` tag,
    /// and the fallback for any other tag.
    #[verifier::rlimit(60)]
    pub proof fn law_result_unwrap_or(
        &self,
        result: ValueId,
        fallback: ValueId,
        result_ty: Ty,
        m: Machine,
        p: u32,
        fv: Val,
        fuel: nat,
    )
        requires
            self.holds_value(m, result, Val::I32(p)),
            self.holds_value(m, fallback, fv),
            p + 16 <= m.mem.len(),
            self.spec_lookup_result_variant_tags(self.spec_value_ty(result)) is Ok,
        ensures
            ({
                let (ok_ty, _err_ty, ok_tag, _err_tag) = self.spec_lookup_result_variant_tags(self.spec_value_ty(result))->Ok_0;
                let tag = load_u32(m.mem, p as int);
                let o = run(self.spec_emit_result_unwrap_or(result, fallback, result_ty)->Ok_0, m, fuel);
                &&& self.spec_emit_result_unwrap_or(result, fallback, result_ty) is Ok
                &&& tag == ok_tag ==> leaves(o, m, slot_value(m.mem, p + 8, ok_ty))
                &&& tag != ok_tag ==> leaves(o, m, fv)
            }),
    {
        let (ok_ty, _err_ty, ok_tag, _err_tag) = self.spec_lookup_result_variant_tags(self.spec_value_ty(result))->Ok_0;
        let code = self.spec_emit_result_unwrap_or(result, fallback, result_ty)->Ok_0;
        let (lo, lf) = (self.spec_local(result), self.spec_local(fallback));
        let si = self.scratch_i32;
        let temp = self.spec_temp_local_for_ty(result_ty);
        let ld = spec_typed_load(ok_ty, 8);
        let pl = ld.len() as int;
        let q = 8 + pl;
        let head = seq![
            Instr::LocalGet(lo), Instr::LocalSet(si), Instr::LocalGet(si), Instr::I32Load(MemArg { offset: 0, align: 2 }),
            Instr::I32Const(ok_tag as i32), Instr::I32Eq, Instr::If(BlockTy::Empty), Instr::LocalGet(si)];
        let tail = seq![
            Instr::LocalSet(temp), Instr::Else, Instr::LocalGet(lf), Instr::LocalSet(temp), Instr::End, Instr::LocalGet(temp)];
        assert(code =~= head + ld + tail);
        assert(forall|j: int| 0 <= j < 8 ==> code[j] == #[trigger] head[j]);
        assert(forall|j: int| 0 <= j < pl ==> code[8 + j] == #[trigger] ld[j]);
        assert(forall|j: int| 0 <= j < 6 ==> code[q + j] == #[trigger] tail[j]);
        assert(((ok_tag as i32) as u32) == ok_tag) by (bit_vector);
        let st = m.stack;
        let mem = m.mem;
        let l0 = m.locals;
        let pv = Val::I32(p);
        let tag = load_u32(mem, p as int) as u32;
        let mk = |s: Seq<Val>, l: Map<u32, Val>| Machine { stack: s, locals: l, mem };
        let l1 = l0.insert(si, pv);
        assert(code[0] == head[0] && code[1] == head[1] && code[2] == head[2] && code[3] == head[3]);
        assert(code[4] == head[4] && code[5] == head[5] && code[6] == head[6] && code[7] == head[7]);
        lemma_exec_plain(code, 0, m, fuel);
        assert(st.push(pv).drop_last() =~= st);
        lemma_exec_plain(code, 1, mk(st.push(pv), l0), fuel);
        lemma_exec_plain(code, 2, mk(st, l1), fuel);
        lemma_exec_plain(code, 3, mk(st.push(pv), l1), fuel);
        lemma_exec_plain(code, 4, mk(st.push(Val::I32(tag)), l1), fuel);
        assert(st.push(Val::I32(tag)).push(Val::I32(ok_tag)).subrange(0, st.len() as int) =~= st);
        lemma_exec_plain(code, 5, mk(st.push(Val::I32(tag)).push(Val::I32(ok_tag)), l1), fuel);
        let c1 = tag == ok_tag;
        assert(exec(code, 0, m, fuel) == exec(code, 6, mk(st.push(flag(c1)), l1), fuel));
        assert(st.push(flag(c1)).drop_last() =~= st);
        assert(code[q] == tail[0] && code[q + 1] == tail[1] && code[q + 2] == tail[2] && code[q + 3] == tail[3]);
        assert(code[q + 4] == tail[4] && code[q + 5] == tail[5]);
        assert(code[8] == ld[0]);
        assert(pl == 2 ==> code[9] == ld[1]);
        lemma_scan_skip(code, 7, pl + 2, 0);
        assert(scan_end(code, q + 1, 0) == q + 1);
        lemma_scan_skip(code, q + 2, 2, 0);
        assert(scan_end(code, q + 4, 0) == q + 4);
        if c1 {
            let pvl = slot_value(mem, p + 8, ok_ty);
            let l3 = l1.insert(temp, pvl);
            lemma_exec_plain(code, 7, mk(st, l1), fuel);
            if ok_ty is Float {
                lemma_exec_plain(code, 8, mk(st.push(pv), l1), fuel);
            } else if spec_is_i32_type(ok_ty) {
                lemma_exec_plain(code, 8, mk(st.push(pv), l1), fuel);
                let w = Val::I64(load_i64(mem, p + 8));
                assert(st.push(w).drop_last() =~= st);
                lemma_exec_plain(code, 9, mk(st.push(w), l1), fuel);
            } else {
                lemma_exec_plain(code, 8, mk(st.push(pv), l1), fuel);
            }
            assert(exec(code, 7, mk(st, l1), fuel) == exec(code, q, mk(st.push(pvl), l1), fuel));
            assert(st.push(pvl).drop_last() =~= st);
            lemma_exec_plain(code, q, mk(st.push(pvl), l1), fuel);
            lemma_if_true(code, 6, mk(st.push(flag(c1)), l1), fuel, q + 1, q + 4);
            lemma_exec_plain(code, q + 5, mk(st, l3), fuel);
        } else {
            lemma_if_else(code, 6, mk(st.push(flag(c1)), l1), fuel, q + 1, q + 4);
            let l3 = l1.insert(temp, fv);
            lemma_exec_plain(code, q + 2, mk(st, l1), fuel);
            assert(st.push(fv).drop_last() =~= st);
            lemma_exec_plain(code, q + 3, mk(st.push(fv), l1), fuel);
            lemma_exec_plain(code, q + 5, mk(st, l3), fuel);
            assert(exec(code, q + 2, mk(st, l1), fuel) == Outcome::EndAt(q + 4, mk(st, l3)));
        }
    }

    /// The length intrinsic on a string at `p` leaves the count of its characters,
    /// held at offset 4 of the string object, as an `Int`.
    pub proof fn law_string_len(&self, args: Seq<ValueId>, result_ty: Ty, m: Machine, p: u32, fuel: nat)
        requires
            args.len() >= 1,
            self.holds_value(m, args[0], Val::I32(p)),
            p + 8 <= m.mem.len(),
        ensures
            self.spec_emit_intrinsic(Intrinsic::StringLen, args, result_ty) matches Ok(code)
                && leaves(run(code, m, fuel), m, Val::I64(load_u32(m.mem, p + 4) as i64)),
    {
        reveal(FuncCodegen::spec_emit_intrinsic);
        let code = self.spec_emit_intrinsic(Intrinsic::StringLen, args, result_ty)->Ok_0;
        let st = m.stack;
        let mk = |s: Seq<Val>| Machine { stack: s, locals: m.locals, mem: m.mem };
        let n = load_u32(m.mem, p + 4) as u32;
        assert(code =~= seq![Instr::LocalGet(self.spec_local(args[0])), Instr::I32Load(MemArg { offset: 4, align: 2 }),
            Instr::I64ExtendI32U]);
        lemma_exec_plain(code, 0, m, fuel);
        assert(st.push(Val::I32(p)).drop_last() =~= st);
        lemma_exec_plain(code, 1, mk(st.push(Val::I32(p))), fuel);
        assert(st.push(Val::I32(n)).drop_last() =~= st);
        lemma_exec_plain(code, 2, mk(st.push(Val::I32(n))), fuel);
    }

    /// The code intrinsic on a character leaves its code point as an `Int`; the
    /// decimal-digit test leaves 1 exactly for the characters `0` to `9`.
    pub proof fn law_char_code_and_digit(&self, args: Seq<ValueId>, result_ty: Ty, m: Machine, c: u32, fuel: nat)
        requires
            args.len() >= 1,
            self.holds_value(m, args[0], Val::I32(c)),
        ensures
            self.spec_emit_intrinsic(Intrinsic::CharCode, args, result_ty) matches Ok(code)
                && leaves(run(code, m, fuel), m, Val::I64(c as i64)),
            self.spec_emit_intrinsic(Intrinsic::CharIsDecimalDigit, args, result_ty) matches Ok(code)
                && leaves(run(code, m, fuel), m, flag(48 <= c && c <= 57)),
    {
        reveal(FuncCodegen::spec_emit_intrinsic);
        let lc = self.spec_local(args[0]);
        let st = m.stack;
        let mk = |s: Seq<Val>| Machine { stack: s, locals: m.locals, mem: m.mem };
        let code = self.spec_emit_intrinsic(Intrinsic::CharCode, args, result_ty)->Ok_0;
        assert(code =~= seq![Instr::LocalGet(lc), Instr::I64ExtendI32U]);
        lemma_exec_plain(code, 0, m, fuel);
        assert(st.push(Val::I32(c)).drop_last() =~= st);
        lemma_exec_plain(code, 1, mk(st.push(Val::I32(c))), fuel);
        let code2 = self.spec_emit_intrinsic(Intrinsic::CharIsDecimalDigit, args, result_ty)->Ok_0;
        assert(code2 =~= seq![Instr::LocalGet(lc), Instr::I32Const(48i32), Instr::I32GeU, Instr::LocalGet(lc),
            Instr::I32Const(57i32), Instr::I32LeU, Instr::I32And]);
        let p1 = c >= 48;
        let p2 = c <= 57;
        lemma_flag_and_or(p1, p2);
        lemma_exec_plain(code2, 0, m, fuel);
        assert(st.push(Val::I32(c)).push(Val::I32(48)).subrange(0, st.len() as int) =~= st);
        lemma_exec_plain(code2, 1, mk(st.push(Val::I32(c))), fuel);
        lemma_exec_plain(code2, 2, mk(st.push(Val::I32(c)).push(Val::I32(48))), fuel);
        let s1 = st.push(flag(p1));
        lemma_exec_plain(code2, 3, mk(s1), fuel);
        assert(s1.push(Val::I32(c)).push(Val::I32(57)).subrange(0, s1.len() as int) =~= s1);
        lemma_exec_plain(code2, 4, mk(s1.push(Val::I32(c))), fuel);
        lemma_exec_plain(code2, 5, mk(s1.push(Val::I32(c)).push(Val::I32(57))), fuel);
        assert(st.push(flag(p1)).push(flag(p2)).subrange(0, st.len() as int) =~= st);
        lemma_exec_plain(code2, 6, mk(st.push(flag(p1)).push(flag(p2))), fuel);
    }
}

} // verus!
