//! What the emitted greatest common divisor computes when it runs.

use vstd::prelude::*;
use crate::func::FuncCodegen;
use crate::instr::{BlockTy, Instr};
use crate::ir::ValueId;
use crate::machine::{
    exec, flag, lemma_exec_plain, lemma_if_false, lemma_if_true, lemma_scan_skip, run, scan_end, Machine, Outcome, Val,
};

verus! {

/// Whether `g` is the greatest common divisor of `x` and `y`: it is not negative,
/// and the positive numbers that divide it are exactly those that divide both.
pub open spec fn is_gcd(g: int, x: int, y: int) -> bool {
    g >= 0 && forall|d: int| d > 0 ==> (#[trigger] (g % d) == 0) == (x % d == 0 && y % d == 0)
}

/// Whether `o` ends normally, leaving the greatest common divisor of `x` and `y`
/// on the stack of `m`, with the memory unchanged.
pub open spec fn leaves_gcd(o: Outcome, m: Machine, x: int, y: int) -> bool {
    &&& o is Done
    &&& o->Done_0.mem == m.mem
    &&& o->Done_0.stack.len() == m.stack.len() + 1
    &&& o->Done_0.stack.drop_last() == m.stack
    &&& o->Done_0.stack.last() is I64
    &&& is_gcd(o->Done_0.stack.last()->I64_0 as int, x, y)
}

/// The absolute value of an integer.
pub open spec fn magnitude(a: int) -> int {
    if a < 0 { -a } else { a }
}

/// A number divides `x` and `y` exactly where it divides `y` and the remainder of
/// `x` by `y`.
proof fn lemma_common_divisors(x: int, y: int, d: int)
    requires
        x >= 0,
        y > 0,
        d > 0,
    ensures
        (x % d == 0 && y % d == 0) == (y % d == 0 && (x % y) % d == 0),
{
    let q = x / y;
    let r = x % y;
    vstd::arithmetic::div_mod::lemma_fundamental_div_mod(x, y);
    if y % d == 0 {
        vstd::arithmetic::div_mod::lemma_fundamental_div_mod(y, d);
        let k = y / d;
        assert(y * q == d * (k * q)) by (nonlinear_arith)
            requires
                y == d * k;
        vstd::arithmetic::div_mod::lemma_mod_multiples_vanish(k * q, r, d);
        assert(x == d * (k * q) + r);
    }
}

impl<'a> FuncCodegen<'a> {
    /// The instructions of the greatest common divisor, one by one.
    proof fn lemma_gcd_code(&self, lhs: ValueId, rhs: ValueId)
        ensures
            ({
                let code = self.spec_emit_gcd(lhs, rhs);
                let (la, lb) = (self.spec_local(lhs), self.spec_local(rhs));
                let (s1, s2, t) = (self.scratch_i64, self.scratch_i64_2, self.scratch_i64_3);
                &&& code.len() == 45
                &&& code[0] == Instr::LocalGet(la) && code[1] == Instr::LocalSet(s1) && code[2] == Instr::LocalGet(s1)
                &&& code[3] == Instr::I64Const(0) && code[4] == Instr::I64LtS && code[5] == Instr::If(BlockTy::Empty)
                &&& code[6] == Instr::I64Const(0) && code[7] == Instr::LocalGet(s1) && code[8] == Instr::I64Sub
                &&& code[9] == Instr::LocalSet(s1) && code[10] == Instr::End
                &&& code[11] == Instr::LocalGet(lb) && code[12] == Instr::LocalSet(s2) && code[13] == Instr::LocalGet(s2)
                &&& code[14] == Instr::I64Const(0) && code[15] == Instr::I64LtS && code[16] == Instr::If(BlockTy::Empty)
                &&& code[17] == Instr::I64Const(0) && code[18] == Instr::LocalGet(s2) && code[19] == Instr::I64Sub
                &&& code[20] == Instr::LocalSet(s2) && code[21] == Instr::End
                &&& code[22] == Instr::Block(BlockTy::Empty) && code[23] == Instr::Loop(BlockTy::Empty)
                &&& code[24] == Instr::LocalGet(s2) && code[25] == Instr::I64Eqz && code[26] == Instr::BrIf(1)
                &&& code[27] == Instr::LocalGet(s2) && code[28] == Instr::LocalSet(t) && code[29] == Instr::LocalGet(s1)
                &&& code[30] == Instr::LocalGet(s2) && code[31] == Instr::I64RemU && code[32] == Instr::LocalSet(s2)
                &&& code[33] == Instr::LocalGet(t) && code[34] == Instr::LocalSet(s1) && code[35] == Instr::Br(0)
                &&& code[36] == Instr::End && code[37] == Instr::End && code[38] == Instr::LocalGet(s1)
                &&& code[39] == Instr::I64Const(0) && code[40] == Instr::I64LtS && code[41] == Instr::If(BlockTy::Empty)
                &&& code[42] == Instr::Unreachable && code[43] == Instr::End && code[44] == Instr::LocalGet(s1)
            }),
    {
    }

    /// The absolute value step from `o`: it reads the value `a` from local `src`,
    /// then leaves `|a|` in the local `t`.
    proof fn lemma_gcd_abs(&self, lhs: ValueId, rhs: ValueId, o: int, src: u32, t: u32, m: Machine, a: i64, fuel: nat)
        requires
            o == 0 || o == 11,
            o == 0 ==> src == self.spec_local(lhs) && t == self.scratch_i64,
            o == 11 ==> src == self.spec_local(rhs) && t == self.scratch_i64_2,
            m.locals.contains_key(src),
            m.locals[src] == Val::I64(a),
            a != i64::MIN,
        ensures
            exec(self.spec_emit_gcd(lhs, rhs), o, m, fuel) == exec(self.spec_emit_gcd(lhs, rhs), o + 11, Machine {
                stack: m.stack,
                locals: m.locals.insert(t, Val::I64(magnitude(a as int) as i64)),
                mem: m.mem,
            }, fuel),
    {
        let code = self.spec_emit_gcd(lhs, rhs);
        self.lemma_gcd_code(lhs, rhs);
        let st = m.stack;
        let l0 = m.locals;
        let l1 = l0.insert(t, Val::I64(a));
        let mk = |v: Seq<Val>, lo: Map<u32, Val>| Machine { stack: v, locals: lo, mem: m.mem };
        let i = |v: i64| Val::I64(v);
        lemma_exec_plain(code, o, m, fuel);
        assert(st.push(i(a)).drop_last() =~= st);
        lemma_exec_plain(code, o + 1, mk(st.push(i(a)), l0), fuel);
        lemma_exec_plain(code, o + 2, mk(st, l1), fuel);
        assert(st.push(i(a)).push(i(0)).subrange(0, st.len() as int) =~= st);
        lemma_exec_plain(code, o + 3, mk(st.push(i(a)), l1), fuel);
        lemma_exec_plain(code, o + 4, mk(st.push(i(a)).push(i(0)), l1), fuel);
        let neg = a < 0;
        assert(st.push(flag(neg)).drop_last() =~= st);
        lemma_scan_skip(code, o + 6, 4, 0);
        assert(scan_end(code, o + 6, 0) == o + 10);
        if neg {
            let l2 = l1.insert(t, i((0 - a) as i64));
            lemma_exec_plain(code, o + 6, mk(st, l1), fuel);
            lemma_exec_plain(code, o + 7, mk(st.push(i(0)), l1), fuel);
            assert(st.push(i(0)).push(i(a)).subrange(0, st.len() as int) =~= st);
            lemma_exec_plain(code, o + 8, mk(st.push(i(0)).push(i(a)), l1), fuel);
            assert(st.push(i((0 - a) as i64)).drop_last() =~= st);
            lemma_exec_plain(code, o + 9, mk(st.push(i((0 - a) as i64)), l1), fuel);
            lemma_if_true(code, o + 5, mk(st.push(flag(neg)), l1), fuel, o + 10, o + 10);
            assert(l2 =~= l0.insert(t, Val::I64(magnitude(a as int) as i64)));
        } else {
            lemma_if_false(code, o + 5, mk(st.push(flag(neg)), l1), fuel, o + 10);
            assert(l1 =~= l0.insert(t, Val::I64(magnitude(a as int) as i64)));
        }
    }

    /// From the loop's head with the pair `(x, y)`, whose common divisors are those
    /// of `(xa, yb)`, the loop ends with their greatest common divisor in the first
    /// local.
    #[verifier::rlimit(40)]
    proof fn lemma_gcd_loop(
        &self,
        lhs: ValueId,
        rhs: ValueId,
        m: Machine,
        st: Seq<Val>,
        x: i64,
        y: i64,
        xa: int,
        yb: int,
        fuel: nat,
    )
        requires
            self.locals_allocated(),
            m.stack == st,
            m.locals.contains_key(self.scratch_i64) && m.locals[self.scratch_i64] == Val::I64(x),
            m.locals.contains_key(self.scratch_i64_2) && m.locals[self.scratch_i64_2] == Val::I64(y),
            x >= 0,
            y >= 0,
            forall|d: int| d > 0 ==> (#[trigger] (xa % d) == 0 && yb % d == 0) == ((x as int) % d == 0 && (y as int) % d == 0),
            fuel >= y,
        ensures
            exec(self.spec_emit_gcd(lhs, rhs), 23, m, fuel) is Branch,
            ({
                let mf = exec(self.spec_emit_gcd(lhs, rhs), 23, m, fuel)->Branch_1;
                &&& exec(self.spec_emit_gcd(lhs, rhs), 23, m, fuel)->Branch_0 == 0
                &&& mf.stack == st
                &&& mf.mem == m.mem
                &&& mf.locals.contains_key(self.scratch_i64)
                &&& mf.locals[self.scratch_i64] is I64
                &&& is_gcd(mf.locals[self.scratch_i64]->I64_0 as int, xa, yb)
            }),
        decreases y,
    {
        let code = self.spec_emit_gcd(lhs, rhs);
        self.lemma_gcd_code(lhs, rhs);
        let (s1, s2, t) = (self.scratch_i64, self.scratch_i64_2, self.scratch_i64_3);
        let l = m.locals;
        let mk = |v: Seq<Val>, lo: Map<u32, Val>| Machine { stack: v, locals: lo, mem: m.mem };
        let i = |v: i64| Val::I64(v);
        lemma_exec_plain(code, 24, m, fuel);
        assert(st.push(i(y)).drop_last() =~= st);
        lemma_exec_plain(code, 25, mk(st.push(i(y)), l), fuel);
        assert(st.push(flag(y == 0)).drop_last() =~= st);
        if y == 0 {
            assert(exec(code, 24, m, fuel) == Outcome::Branch(1, mk(st, l)));
            assert(exec(code, 23, m, fuel) == Outcome::Branch(0, mk(st, l)));
            assert forall|d: int| d > 0 implies (#[trigger] ((x as int) % d) == 0) == (xa % d == 0 && yb % d == 0) by {
                assert(0int % d == 0);
            }
            return;
        }
        let r = (x % y) as i64;
        let l1 = l.insert(t, i(y));
        let l2 = l1.insert(s2, i(r));
        let l3 = l2.insert(s1, i(y));
        assert(exec(code, 24, m, fuel) == exec(code, 27, mk(st, l), fuel));
        lemma_exec_plain(code, 27, mk(st, l), fuel);
        lemma_exec_plain(code, 28, mk(st.push(i(y)), l), fuel);
        lemma_exec_plain(code, 29, mk(st, l1), fuel);
        lemma_exec_plain(code, 30, mk(st.push(i(x)), l1), fuel);
        assert(st.push(i(x)).push(i(y)).subrange(0, st.len() as int) =~= st);
        lemma_exec_plain(code, 31, mk(st.push(i(x)).push(i(y)), l1), fuel);
        assert(st.push(i(r)).drop_last() =~= st);
        lemma_exec_plain(code, 32, mk(st.push(i(r)), l1), fuel);
        lemma_exec_plain(code, 33, mk(st, l2), fuel);
        lemma_exec_plain(code, 34, mk(st.push(i(y)), l2), fuel);
        assert(exec(code, 35, mk(st, l3), fuel) == Outcome::Branch(0, mk(st, l3)));
        assert(exec(code, 24, m, fuel) == Outcome::Branch(0, mk(st, l3)));
        assert(exec(code, 23, m, fuel) == exec(code, 23, mk(st, l3), (fuel - 1) as nat));
        assert forall|d: int| d > 0 implies (#[trigger] (xa % d) == 0 && yb % d == 0) == ((y as int) % d == 0 && (r as int) % d == 0) by {
            lemma_common_divisors(x as int, y as int, d);
        }
        self.lemma_gcd_loop(lhs, rhs, mk(st, l3), st, y, r, xa, yb, (fuel - 1) as nat);
    }

    /// The greatest common divisor of `a` and `b`, neither the smallest integer,
    /// leaves the number that the positive common divisors of `|a|` and `|b|`
    /// divide exactly; the memory is unchanged.
    #[verifier::rlimit(60)]
    pub proof fn law_int_gcd(&self, lhs: ValueId, rhs: ValueId, m: Machine, a: i64, b: i64, fuel: nat)
        requires
            self.holds_value(m, lhs, Val::I64(a)),
            self.holds_value(m, rhs, Val::I64(b)),
            a != i64::MIN,
            b != i64::MIN,
            fuel >= magnitude(b as int),
        ensures
            leaves_gcd(run(self.spec_emit_gcd(lhs, rhs), m, fuel), m, magnitude(a as int), magnitude(b as int)),
    {
        let code = self.spec_emit_gcd(lhs, rhs);
        self.lemma_gcd_code(lhs, rhs);
        let (s1, s2) = (self.scratch_i64, self.scratch_i64_2);
        let st = m.stack;
        let xa = magnitude(a as int);
        let yb = magnitude(b as int);
        let l1 = m.locals.insert(s1, Val::I64(xa as i64));
        let m1 = Machine { stack: st, locals: l1, mem: m.mem };
        self.lemma_gcd_abs(lhs, rhs, 0, self.spec_local(lhs), s1, m, a, fuel);
        self.lemma_gcd_abs(lhs, rhs, 11, self.spec_local(rhs), s2, m1, b, fuel);
        let l2 = l1.insert(s2, Val::I64(yb as i64));
        let m2 = Machine { stack: st, locals: l2, mem: m.mem };
        assert(exec(code, 0, m, fuel) == exec(code, 22, m2, fuel));
        self.lemma_gcd_loop(lhs, rhs, m2, st, xa as i64, yb as i64, xa, yb, fuel);
        let mf = exec(code, 23, m2, fuel)->Branch_1;
        lemma_scan_skip(code, 24, 12, 1);
        assert(scan_end(code, 23, 0) == scan_end(code, 24, 1));
        assert(scan_end(code, 36, 1) == scan_end(code, 37, 0));
        assert(scan_end(code, 23, 0) == 37);
        assert(exec(code, 22, m2, fuel) == exec(code, 38, mf, fuel));
        let g = mf.locals[s1]->I64_0;
        let lf = mf.locals;
        let mk = |v: Seq<Val>| Machine { stack: v, locals: lf, mem: m.mem };
        lemma_exec_plain(code, 38, mf, fuel);
        assert(st.push(Val::I64(g)).push(Val::I64(0)).subrange(0, st.len() as int) =~= st);
        lemma_exec_plain(code, 39, mk(st.push(Val::I64(g))), fuel);
        lemma_exec_plain(code, 40, mk(st.push(Val::I64(g)).push(Val::I64(0))), fuel);
        assert(st.push(flag(g < 0)).drop_last() =~= st);
        assert(scan_end(code, 42, 0) == scan_end(code, 43, 0));
        assert(scan_end(code, 42, 0) == 43);
        lemma_if_false(code, 41, mk(st.push(flag(g < 0))), fuel, 43);
        lemma_exec_plain(code, 44, mk(st), fuel);
        assert(st.push(Val::I64(g)).drop_last() =~= st);
    }
}

} // verus!
