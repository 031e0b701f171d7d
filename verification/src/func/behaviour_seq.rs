//! What the emitted membership test on a range sequence computes when it runs.

use vstd::prelude::*;
use crate::func::FuncCodegen;
use crate::instr::{BlockTy, Instr, MemArg};
use crate::ir::ValueId;
use crate::machine::{
    exec, flag, leaves, lemma_exec_plain, lemma_if_false, lemma_if_true, lemma_scan_skip, load_i64, load_u32, run,
    scan_end, Machine, Outcome, Val,
};

verus! {

impl<'a> FuncCodegen<'a> {
    /// The instructions of the membership test on a range, one by one.
    proof fn lemma_contains_range_code(&self, seq_local: u32, needle: ValueId)
        ensures
            self.spec_emit_seq_contains_range_from_local(seq_local, needle) is Ok,
            ({
                let code = self.spec_emit_seq_contains_range_from_local(seq_local, needle)->Ok_0;
                let (c, e, n, f) = (self.scratch_i64, self.scratch_i64_2, self.scratch_i64_3, self.scratch_i32_3);
                &&& code.len() == 39
                &&& code[0] == Instr::LocalGet(seq_local) && code[1] == Instr::I32Load(MemArg { offset: 0, align: 2 })
                &&& code[2] == Instr::I32Const(0) && code[3] == Instr::I32Ne && code[4] == Instr::If(BlockTy::Empty)
                &&& code[5] == Instr::Unreachable && code[6] == Instr::End && code[7] == Instr::LocalGet(seq_local)
                &&& code[8] == Instr::I64Load(MemArg { offset: 8, align: 3 }) && code[9] == Instr::LocalSet(c)
                &&& code[10] == Instr::LocalGet(seq_local) && code[11] == Instr::I64Load(MemArg { offset: 16, align: 3 })
                &&& code[12] == Instr::LocalSet(e) && code[13] == Instr::LocalGet(self.spec_local(needle))
                &&& code[14] == Instr::LocalSet(n) && code[15] == Instr::I32Const(0) && code[16] == Instr::LocalSet(f)
                &&& code[17] == Instr::Block(BlockTy::Empty) && code[18] == Instr::Loop(BlockTy::Empty)
                &&& code[19] == Instr::LocalGet(c) && code[20] == Instr::LocalGet(e) && code[21] == Instr::I64GeS
                &&& code[22] == Instr::BrIf(1) && code[23] == Instr::LocalGet(c) && code[24] == Instr::LocalGet(n)
                &&& code[25] == Instr::I64Eq && code[26] == Instr::If(BlockTy::Empty) && code[27] == Instr::I32Const(1)
                &&& code[28] == Instr::LocalSet(f) && code[29] == Instr::Br(2) && code[30] == Instr::End
                &&& code[31] == Instr::LocalGet(c) && code[32] == Instr::I64Const(1) && code[33] == Instr::I64Add
                &&& code[34] == Instr::LocalSet(c) && code[35] == Instr::Br(0) && code[36] == Instr::End
                &&& code[37] == Instr::End && code[38] == Instr::LocalGet(f)
            }),
    {
    }

    /// The state at the head of the membership loop at the value `k`: the stack
    /// `st`, the memory `mem`, the current value `k`, the end `end`, the needle and
    /// a cleared found flag.
    pub open spec fn contains_range_state(&self, m: Machine, st: Seq<Val>, mem: Seq<u8>, k: i64, end: i64, x: i64) -> bool {
        &&& m.stack == st
        &&& m.mem == mem
        &&& m.locals.contains_key(self.scratch_i64) && m.locals[self.scratch_i64] == Val::I64(k)
        &&& m.locals.contains_key(self.scratch_i64_2) && m.locals[self.scratch_i64_2] == Val::I64(end)
        &&& m.locals.contains_key(self.scratch_i64_3) && m.locals[self.scratch_i64_3] == Val::I64(x)
        &&& m.locals.contains_key(self.scratch_i32_3) && m.locals[self.scratch_i32_3] == Val::I32(0)
    }

    /// From the loop's head at `k`, the loop ends with the found flag telling
    /// whether `k <= x < end`.
    #[verifier::rlimit(60)]
    proof fn lemma_contains_range_loop(
        &self,
        seq_local: u32,
        needle: ValueId,
        m: Machine,
        st: Seq<Val>,
        mem: Seq<u8>,
        k: i64,
        end: i64,
        x: i64,
        fuel: nat,
    )
        requires
            self.locals_allocated(),
            self.contains_range_state(m, st, mem, k, end, x),
            fuel >= end - k,
        ensures
            exec(self.spec_emit_seq_contains_range_from_local(seq_local, needle)->Ok_0, 18, m, fuel)
                matches Outcome::Branch(n, mf) && n == 0 && mf.stack == st && mf.mem == mem
                && mf.locals.contains_key(self.scratch_i32_3) && mf.locals[self.scratch_i32_3] == flag(k <= x && x < end),
        decreases end - k,
    {
        let code = self.spec_emit_seq_contains_range_from_local(seq_local, needle)->Ok_0;
        self.lemma_contains_range_code(seq_local, needle);
        let (c, f) = (self.scratch_i64, self.scratch_i32_3);
        let l = m.locals;
        let mk = |v: Seq<Val>, lo: Map<u32, Val>| Machine { stack: v, locals: lo, mem };
        let i = |v: i64| Val::I64(v);
        lemma_exec_plain(code, 19, m, fuel);
        lemma_exec_plain(code, 20, mk(st.push(i(k)), l), fuel);
        assert(st.push(i(k)).push(i(end)).subrange(0, st.len() as int) =~= st);
        lemma_exec_plain(code, 21, mk(st.push(i(k)).push(i(end)), l), fuel);
        assert(st.push(flag(k >= end)).drop_last() =~= st);
        if k >= end {
            assert(exec(code, 19, m, fuel) == Outcome::Branch(1, mk(st, l)));
            assert(exec(code, 18, m, fuel) == Outcome::Branch(0, mk(st, l)));
            return;
        }
        assert(exec(code, 19, m, fuel) == exec(code, 23, mk(st, l), fuel));
        lemma_exec_plain(code, 23, mk(st, l), fuel);
        lemma_exec_plain(code, 24, mk(st.push(i(k)), l), fuel);
        assert(st.push(i(k)).push(i(x)).subrange(0, st.len() as int) =~= st);
        lemma_exec_plain(code, 25, mk(st.push(i(k)).push(i(x)), l), fuel);
        let hit = k == x;
        assert(st.push(flag(hit)).drop_last() =~= st);
        lemma_scan_skip(code, 27, 3, 0);
        assert(scan_end(code, 27, 0) == 30);
        if hit {
            let l1 = l.insert(f, Val::I32(1));
            lemma_exec_plain(code, 27, mk(st, l), fuel);
            assert(st.push(Val::I32(1)).drop_last() =~= st);
            lemma_exec_plain(code, 28, mk(st.push(Val::I32(1)), l), fuel);
            assert(exec(code, 29, mk(st, l1), fuel) == Outcome::Branch(2, mk(st, l1)));
            lemma_if_true(code, 26, mk(st.push(flag(hit)), l), fuel, 30, 30);
            assert(exec(code, 26, mk(st.push(flag(hit)), l), fuel) == Outcome::Branch(1, mk(st, l1)));
            assert(exec(code, 18, m, fuel) == Outcome::Branch(0, mk(st, l1)));
        } else {
            let k1 = (k + 1) as i64;
            let l1 = l.insert(c, i(k1));
            lemma_if_false(code, 26, mk(st.push(flag(hit)), l), fuel, 30);
            lemma_exec_plain(code, 31, mk(st, l), fuel);
            lemma_exec_plain(code, 32, mk(st.push(i(k)), l), fuel);
            assert(st.push(i(k)).push(i(1)).subrange(0, st.len() as int) =~= st);
            lemma_exec_plain(code, 33, mk(st.push(i(k)).push(i(1)), l), fuel);
            assert(st.push(i(k1)).drop_last() =~= st);
            lemma_exec_plain(code, 34, mk(st.push(i(k1)), l), fuel);
            assert(exec(code, 35, mk(st, l1), fuel) == Outcome::Branch(0, mk(st, l1)));
            assert(exec(code, 19, m, fuel) == Outcome::Branch(0, mk(st, l1)));
            assert(exec(code, 18, m, fuel) == exec(code, 18, mk(st, l1), (fuel - 1) as nat));
            assert(self.contains_range_state(mk(st, l1), st, mem, k1, end, x));
            self.lemma_contains_range_loop(seq_local, needle, mk(st, l1), st, mem, k1, end, x, (fuel - 1) as nat);
        }
    }

    /// The membership test of `x` in a range sequence whose object is at `p` (a zero
    /// tag, then its start and end as 64-bit integers at offsets 8 and 16) leaves 1
    /// exactly where `start <= x < end`; a sequence of another kind traps.
    #[verifier::rlimit(60)]
    pub proof fn law_seq_contains_range(&self, seq_local: u32, needle: ValueId, m: Machine, p: u32, x: i64, fuel: nat)
        requires
            self.holds_value(m, needle, Val::I64(x)),
            seq_local != self.scratch_i64,
            seq_local != self.scratch_i64_2,
            seq_local != self.scratch_i64_3,
            seq_local != self.scratch_i32_3,
            m.locals.contains_key(seq_local),
            m.locals[seq_local] == Val::I32(p),
            p + 24 <= m.mem.len(),
            fuel >= load_i64(m.mem, p + 16) - load_i64(m.mem, p + 8),
        ensures
            self.spec_emit_seq_contains_range_from_local(seq_local, needle) is Ok,
            load_u32(m.mem, p as int) != 0 ==> run(self.spec_emit_seq_contains_range_from_local(seq_local, needle)->Ok_0, m,
                fuel) == Outcome::Trap,
            load_u32(m.mem, p as int) == 0 ==> leaves(run(self.spec_emit_seq_contains_range_from_local(seq_local, needle)->Ok_0,
                m, fuel), m, flag(load_i64(m.mem, p + 8) <= x && x < load_i64(m.mem, p + 16))),
    {
        self.lemma_contains_range_code(seq_local, needle);
        let code = self.spec_emit_seq_contains_range_from_local(seq_local, needle)->Ok_0;
        let (s1, s2, s3, f) = (self.scratch_i64, self.scratch_i64_2, self.scratch_i64_3, self.scratch_i32_3);
        let st = m.stack;
        let mem = m.mem;
        let l0 = m.locals;
        let pv = Val::I32(p);
        let tag = load_u32(mem, p as int) as u32;
        let start = load_i64(mem, p + 8);
        let end = load_i64(mem, p + 16);
        let mk = |s: Seq<Val>, l: Map<u32, Val>| Machine { stack: s, locals: l, mem };
        lemma_exec_plain(code, 0, m, fuel);
        lemma_exec_plain(code, 1, mk(st.push(pv), l0), fuel);
        assert(st.push(pv).drop_last() =~= st);
        lemma_exec_plain(code, 2, mk(st.push(Val::I32(tag)), l0), fuel);
        assert(st.push(Val::I32(tag)).push(Val::I32(0)).subrange(0, st.len() as int) =~= st);
        lemma_exec_plain(code, 3, mk(st.push(Val::I32(tag)).push(Val::I32(0)), l0), fuel);
        assert(st.push(flag(tag != 0)).drop_last() =~= st);
        assert(exec(code, 0, m, fuel) == exec(code, 4, mk(st.push(flag(tag != 0)), l0), fuel));
        assert(scan_end(code, 5, 0) == scan_end(code, 6, 0));
        assert(scan_end(code, 5, 0) == 6);
        if tag != 0 {
            lemma_if_true(code, 4, mk(st.push(flag(tag != 0)), l0), fuel, 6, 6);
            assert(exec(code, 4, mk(st.push(flag(tag != 0)), l0), fuel) == Outcome::Trap);
            return;
        }
        lemma_if_false(code, 4, mk(st.push(flag(tag != 0)), l0), fuel, 6);
        let l1 = l0.insert(s1, Val::I64(start));
        let l2 = l1.insert(s2, Val::I64(end));
        let l3 = l2.insert(s3, Val::I64(x));
        let l4 = l3.insert(f, Val::I32(0));
        lemma_exec_plain(code, 7, mk(st, l0), fuel);
        lemma_exec_plain(code, 8, mk(st.push(pv), l0), fuel);
        assert(st.push(Val::I64(start)).drop_last() =~= st);
        lemma_exec_plain(code, 9, mk(st.push(Val::I64(start)), l0), fuel);
        lemma_exec_plain(code, 10, mk(st, l1), fuel);
        lemma_exec_plain(code, 11, mk(st.push(pv), l1), fuel);
        assert(st.push(Val::I64(end)).drop_last() =~= st);
        lemma_exec_plain(code, 12, mk(st.push(Val::I64(end)), l1), fuel);
        lemma_exec_plain(code, 13, mk(st, l2), fuel);
        assert(st.push(Val::I64(x)).drop_last() =~= st);
        lemma_exec_plain(code, 14, mk(st.push(Val::I64(x)), l2), fuel);
        lemma_exec_plain(code, 15, mk(st, l3), fuel);
        assert(st.push(Val::I32(0)).drop_last() =~= st);
        lemma_exec_plain(code, 16, mk(st.push(Val::I32(0)), l3), fuel);
        assert(exec(code, 7, mk(st, l0), fuel) == exec(code, 17, mk(st, l4), fuel));
        assert(self.contains_range_state(mk(st, l4), st, mem, start, end, x));
        self.lemma_contains_range_loop(seq_local, needle, mk(st, l4), st, mem, start, end, x, fuel);
        let mf = exec(code, 18, mk(st, l4), fuel)->Branch_1;
        lemma_scan_skip(code, 19, 7, 1);
        lemma_scan_skip(code, 27, 3, 2);
        lemma_scan_skip(code, 31, 5, 1);
        assert(scan_end(code, 18, 0) == scan_end(code, 19, 1));
        assert(scan_end(code, 26, 1) == scan_end(code, 27, 2));
        assert(scan_end(code, 30, 2) == scan_end(code, 31, 1));
        assert(scan_end(code, 36, 1) == scan_end(code, 37, 0));
        assert(scan_end(code, 18, 0) == 37);
        assert(exec(code, 17, mk(st, l4), fuel) == exec(code, 38, mf, fuel));
        lemma_exec_plain(code, 38, mf, fuel);
    }
}

} // verus!
