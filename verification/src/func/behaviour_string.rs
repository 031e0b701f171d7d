//! What the emitted string prefix and suffix tests compute when they run.

use vstd::prelude::*;
use crate::func::FuncCodegen;
use crate::instr::{BlockTy, Instr, MemArg};
use crate::ir::ValueId;
use crate::machine::{
    exec, flag, leaves, lemma_exec_plain, lemma_if_false, lemma_if_true, lemma_scan_skip, load_u32, run, scan_end,
    with_stack, Machine, Outcome, Val,
};

verus! {

/// Whether `mem` holds a string object at `p` with the bytes `bytes`: its length
/// at `p`, its bytes from `p + 8`.
pub open spec fn holds_string(mem: Seq<u8>, p: u32, bytes: Seq<u8>) -> bool {
    &&& p + 8 + bytes.len() <= mem.len()
    &&& load_u32(mem, p as int) == bytes.len()
    &&& mem.subrange(p + 8, p + 8 + bytes.len()) == bytes
}

/// Whether `tail` is a suffix of `text`.
pub open spec fn is_suffix(tail: Seq<u8>, text: Seq<u8>) -> bool {
    tail.len() <= text.len() && text.subrange(text.len() - tail.len(), text.len() as int) == tail
}

/// Whether byte `j` of the string at `pt` equals byte `d + j` of the string at `ps`.
pub open spec fn byte_agrees(mem: Seq<u8>, ps: u32, pt: u32, d: int, j: int) -> bool {
    mem[ps + 8 + d + j] == mem[pt + 8 + j]
}

/// Whether `head` is a prefix of `text`.
pub open spec fn is_prefix(head: Seq<u8>, text: Seq<u8>) -> bool {
    head.len() <= text.len() && text.subrange(0, head.len() as int) == head
}

impl<'a> FuncCodegen<'a> {
    /// The state at the head of the comparison loop of the suffix test after `k`
    /// bytes: the stack `st`, the memory `mem`, the pointers in the locals of `s`
    /// and `suffix`, the suffix's length `lt`, the distance `ls - lt`, the index `k`
    /// and the result flag 1.
    pub open spec fn ends_with_state(
        &self,
        s: ValueId,
        suffix: ValueId,
        m: Machine,
        st: Seq<Val>,
        mem: Seq<u8>,
        ps: u32,
        pt: u32,
        ls: u32,
        lt: u32,
        k: u32,
    ) -> bool {
        &&& m.stack == st
        &&& m.mem == mem
        &&& m.locals.contains_key(self.spec_local(s)) && m.locals[self.spec_local(s)] == Val::I32(ps)
        &&& m.locals.contains_key(self.spec_local(suffix)) && m.locals[self.spec_local(suffix)] == Val::I32(pt)
        &&& m.locals.contains_key(self.scratch_i32_2) && m.locals[self.scratch_i32_2] == Val::I32(lt)
        &&& m.locals.contains_key(self.scratch_i32_6) && m.locals[self.scratch_i32_6] == Val::I32((ls - lt) as u32)
        &&& m.locals.contains_key(self.scratch_i32_3) && m.locals[self.scratch_i32_3] == Val::I32(k)
        &&& m.locals.contains_key(self.scratch_i32_4) && m.locals[self.scratch_i32_4] == Val::I32(1)
    }

    /// Whether the locals of `s` and `suffix` lie below the scratch locals, which
    /// come one after another.
    pub open spec fn ends_with_locals(&self, s: ValueId, suffix: ValueId) -> bool {
        &&& self.locals_allocated()
        &&& self.spec_local(s) < self.scratch_i64
        &&& self.spec_local(suffix) < self.scratch_i64
    }

    /// The instructions of the suffix test, one by one.
    proof fn lemma_ends_with_code(&self, s: ValueId, suffix: ValueId)
        ensures
            ({
                let code = self.spec_emit_string_ends_with(s, suffix);
                let (ls_l, lt_l) = (self.spec_local(s), self.spec_local(suffix));
                let (a, b, i, r, x, d, mm) = (self.scratch_i32, self.scratch_i32_2, self.scratch_i32_3,
                    self.scratch_i32_4, self.scratch_i32_5, self.scratch_i32_6, self.scratch_i32_8);
                let l0 = MemArg { offset: 0, align: 2 };
                let l8 = MemArg { offset: 0, align: 0 };
                &&& code.len() == 60
                &&& code[0] == Instr::LocalGet(ls_l) && code[1] == Instr::I32Load(l0) && code[2] == Instr::LocalSet(a)
                &&& code[3] == Instr::LocalGet(lt_l) && code[4] == Instr::I32Load(l0) && code[5] == Instr::LocalSet(b)
                &&& code[6] == Instr::I32Const(0) && code[7] == Instr::LocalSet(r) && code[8] == Instr::LocalGet(b)
                &&& code[9] == Instr::LocalGet(a) && code[10] == Instr::I32LeU && code[11] == Instr::If(BlockTy::Empty)
                &&& code[12] == Instr::LocalGet(a) && code[13] == Instr::LocalGet(b) && code[14] == Instr::I32Sub
                &&& code[15] == Instr::LocalSet(d) && code[16] == Instr::I32Const(0) && code[17] == Instr::LocalSet(i)
                &&& code[18] == Instr::I32Const(1) && code[19] == Instr::LocalSet(r) && code[20] == Instr::Block(BlockTy::Empty)
                &&& code[21] == Instr::Loop(BlockTy::Empty) && code[22] == Instr::LocalGet(i) && code[23] == Instr::LocalGet(b)
                &&& code[24] == Instr::I32GeU && code[25] == Instr::BrIf(1) && code[26] == Instr::LocalGet(ls_l)
                &&& code[27] == Instr::I32Const(8) && code[28] == Instr::I32Add && code[29] == Instr::LocalGet(d)
                &&& code[30] == Instr::I32Add && code[31] == Instr::LocalGet(i) && code[32] == Instr::I32Add
                &&& code[33] == Instr::I32Load8U(l8) && code[34] == Instr::LocalSet(x) && code[35] == Instr::LocalGet(x)
                &&& code[36] == Instr::LocalGet(lt_l) && code[37] == Instr::I32Const(8) && code[38] == Instr::I32Add
                &&& code[39] == Instr::LocalGet(i) && code[40] == Instr::I32Add && code[41] == Instr::I32Load8U(l8)
                &&& code[42] == Instr::I32Ne && code[43] == Instr::LocalSet(mm) && code[44] == Instr::LocalGet(mm)
                &&& code[45] == Instr::If(BlockTy::Empty) && code[46] == Instr::I32Const(0) && code[47] == Instr::LocalSet(r)
                &&& code[48] == Instr::End && code[49] == Instr::LocalGet(mm) && code[50] == Instr::BrIf(1)
                &&& code[51] == Instr::LocalGet(i) && code[52] == Instr::I32Const(1) && code[53] == Instr::I32Add
                &&& code[54] == Instr::LocalSet(i) && code[55] == Instr::Br(0) && code[56] == Instr::End
                &&& code[57] == Instr::End && code[58] == Instr::End && code[59] == Instr::LocalGet(r)
            }),
    {
    }

    /// Where all the suffix's bytes are compared, the loop body leaves the loop.
    proof fn lemma_ends_with_body_done(
        &self,
        s: ValueId,
        suffix: ValueId,
        m: Machine,
        st: Seq<Val>,
        mem: Seq<u8>,
        ps: u32,
        pt: u32,
        ls: u32,
        lt: u32,
        k: u32,
        fuel: nat,
    )
        requires
            self.ends_with_locals(s, suffix),
            self.ends_with_state(s, suffix, m, st, mem, ps, pt, ls, lt, k),
            k >= lt,
        ensures
            exec(self.spec_emit_string_ends_with(s, suffix), 22, m, fuel) == Outcome::Branch(1, m),
    {
        let code = self.spec_emit_string_ends_with(s, suffix);
        self.lemma_ends_with_code(s, suffix);
        let l = m.locals;
        let mk = |v: Seq<Val>| Machine { stack: v, locals: l, mem };
        lemma_exec_plain(code, 22, m, fuel);
        lemma_exec_plain(code, 23, mk(st.push(Val::I32(k))), fuel);
        assert(st.push(Val::I32(k)).push(Val::I32(lt)).subrange(0, st.len() as int) =~= st);
        lemma_exec_plain(code, 24, mk(st.push(Val::I32(k)).push(Val::I32(lt))), fuel);
        assert(st.push(flag(true)).drop_last() =~= st);
        assert(exec(code, 25, mk(st.push(flag(true))), fuel) == Outcome::Branch(1, mk(st)));
    }

    /// Where bytes remain to compare, the loop body compares the next one: on a
    /// mismatch it clears the result flag and leaves the loop, else it goes back to
    /// the loop's head with the next index.
    #[verifier::rlimit(60)]
    proof fn lemma_ends_with_body_step(
        &self,
        s: ValueId,
        suffix: ValueId,
        m: Machine,
        st: Seq<Val>,
        mem: Seq<u8>,
        ps: u32,
        pt: u32,
        ls: u32,
        lt: u32,
        k: u32,
        fuel: nat,
    )
        requires
            self.ends_with_locals(s, suffix),
            self.ends_with_state(s, suffix, m, st, mem, ps, pt, ls, lt, k),
            k < lt,
            lt <= ls,
            ps + 8 + ls <= mem.len(),
            pt + 8 + lt <= mem.len(),
            mem.len() <= u32::MAX,
        ensures
            !byte_agrees(mem, ps, pt, ls - lt, k as int) ==> (exec(self.spec_emit_string_ends_with(s, suffix), 22, m, fuel)
                matches Outcome::Branch(n, m2) && n == 1 && m2.stack == st && m2.mem == mem
                && m2.locals.contains_key(self.scratch_i32_4) && m2.locals[self.scratch_i32_4] == Val::I32(0)),
            byte_agrees(mem, ps, pt, ls - lt, k as int) ==> (exec(self.spec_emit_string_ends_with(s, suffix), 22, m, fuel)
                matches Outcome::Branch(n, m2) && n == 0
                && self.ends_with_state(s, suffix, m2, st, mem, ps, pt, ls, lt, (k + 1) as u32)),
    {
        let code = self.spec_emit_string_ends_with(s, suffix);
        self.lemma_ends_with_code(s, suffix);
        let (x, d, i, r, mm) = (self.scratch_i32_5, self.scratch_i32_6, self.scratch_i32_3, self.scratch_i32_4, self.scratch_i32_8);
        let dv = (ls - lt) as u32;
        let l = m.locals;
        let mk = |v: Seq<Val>, lo: Map<u32, Val>| Machine { stack: v, locals: lo, mem };
        lemma_exec_plain(code, 22, m, fuel);
        lemma_exec_plain(code, 23, mk(st.push(Val::I32(k)), l), fuel);
        assert(st.push(Val::I32(k)).push(Val::I32(lt)).subrange(0, st.len() as int) =~= st);
        lemma_exec_plain(code, 24, mk(st.push(Val::I32(k)).push(Val::I32(lt)), l), fuel);
        assert(st.push(flag(false)).drop_last() =~= st);
        assert(exec(code, 22, m, fuel) == exec(code, 26, mk(st, l), fuel));
        let a1 = ps + 8 + dv + k;
        let a2 = pt + 8 + k;
        let bx = mem[a1] as u32;
        let by = mem[a2] as u32;
        let ne = bx != by;
        let l1 = l.insert(x, Val::I32(bx));
        let l2 = l1.insert(mm, flag(ne));
        lemma_exec_plain(code, 26, mk(st, l), fuel);
        lemma_exec_plain(code, 27, mk(st.push(Val::I32(ps)), l), fuel);
        assert(st.push(Val::I32(ps)).push(Val::I32(8)).subrange(0, st.len() as int) =~= st);
        lemma_exec_plain(code, 28, mk(st.push(Val::I32(ps)).push(Val::I32(8)), l), fuel);
        lemma_exec_plain(code, 29, mk(st.push(Val::I32((ps + 8) as u32)), l), fuel);
        assert(st.push(Val::I32((ps + 8) as u32)).push(Val::I32(dv)).subrange(0, st.len() as int) =~= st);
        lemma_exec_plain(code, 30, mk(st.push(Val::I32((ps + 8) as u32)).push(Val::I32(dv)), l), fuel);
        lemma_exec_plain(code, 31, mk(st.push(Val::I32((ps + 8 + dv) as u32)), l), fuel);
        assert(st.push(Val::I32((ps + 8 + dv) as u32)).push(Val::I32(k)).subrange(0, st.len() as int) =~= st);
        lemma_exec_plain(code, 32, mk(st.push(Val::I32((ps + 8 + dv) as u32)).push(Val::I32(k)), l), fuel);
        assert(st.push(Val::I32(a1 as u32)).drop_last() =~= st);
        lemma_exec_plain(code, 33, mk(st.push(Val::I32(a1 as u32)), l), fuel);
        assert(st.push(Val::I32(bx)).drop_last() =~= st);
        lemma_exec_plain(code, 34, mk(st.push(Val::I32(bx)), l), fuel);
        assert(exec(code, 26, mk(st, l), fuel) == exec(code, 35, mk(st, l1), fuel));
        let sx = st.push(Val::I32(bx));
        lemma_exec_plain(code, 35, mk(st, l1), fuel);
        lemma_exec_plain(code, 36, mk(sx, l1), fuel);
        assert(sx.push(Val::I32(pt)).push(Val::I32(8)).subrange(0, sx.len() as int) =~= sx);
        lemma_exec_plain(code, 37, mk(sx.push(Val::I32(pt)), l1), fuel);
        lemma_exec_plain(code, 38, mk(sx.push(Val::I32(pt)).push(Val::I32(8)), l1), fuel);
        assert(sx.push(Val::I32((pt + 8) as u32)).push(Val::I32(k)).subrange(0, sx.len() as int) =~= sx);
        lemma_exec_plain(code, 39, mk(sx.push(Val::I32((pt + 8) as u32)), l1), fuel);
        lemma_exec_plain(code, 40, mk(sx.push(Val::I32((pt + 8) as u32)).push(Val::I32(k)), l1), fuel);
        assert(sx.push(Val::I32(a2 as u32)).drop_last() =~= sx);
        lemma_exec_plain(code, 41, mk(sx.push(Val::I32(a2 as u32)), l1), fuel);
        assert(sx.push(Val::I32(by)).subrange(0, st.len() as int) =~= st);
        assert(sx.push(Val::I32(by)).len() == st.len() + 2);
        lemma_exec_plain(code, 42, mk(sx.push(Val::I32(by)), l1), fuel);
        assert(st.push(flag(ne)).drop_last() =~= st);
        lemma_exec_plain(code, 43, mk(st.push(flag(ne)), l1), fuel);
        lemma_exec_plain(code, 44, mk(st, l2), fuel);
        assert(exec(code, 35, mk(st, l1), fuel) == exec(code, 45, mk(st.push(flag(ne)), l2), fuel));
        lemma_scan_skip(code, 46, 2, 0);
        assert(scan_end(code, 46, 0) == 48);
        assert(bx == by <==> byte_agrees(mem, ps, pt, ls - lt, k as int));
        if ne {
            let l3 = l2.insert(r, Val::I32(0));
            lemma_exec_plain(code, 46, mk(st, l2), fuel);
            assert(st.push(Val::I32(0)).drop_last() =~= st);
            lemma_exec_plain(code, 47, mk(st.push(Val::I32(0)), l2), fuel);
            lemma_if_true(code, 45, mk(st.push(flag(ne)), l2), fuel, 48, 48);
            lemma_exec_plain(code, 49, mk(st, l3), fuel);
            assert(exec(code, 50, mk(st.push(flag(ne)), l3), fuel) == Outcome::Branch(1, mk(st, l3)));
        } else {
            let l3 = l2.insert(i, Val::I32((k + 1) as u32));
            lemma_if_false(code, 45, mk(st.push(flag(ne)), l2), fuel, 48);
            lemma_exec_plain(code, 49, mk(st, l2), fuel);
            assert(exec(code, 50, mk(st.push(flag(ne)), l2), fuel) == exec(code, 51, mk(st, l2), fuel));
            lemma_exec_plain(code, 51, mk(st, l2), fuel);
            lemma_exec_plain(code, 52, mk(st.push(Val::I32(k)), l2), fuel);
            assert(st.push(Val::I32(k)).push(Val::I32(1)).subrange(0, st.len() as int) =~= st);
            lemma_exec_plain(code, 53, mk(st.push(Val::I32(k)).push(Val::I32(1)), l2), fuel);
            assert(st.push(Val::I32((k + 1) as u32)).drop_last() =~= st);
            lemma_exec_plain(code, 54, mk(st.push(Val::I32((k + 1) as u32)), l2), fuel);
            assert(exec(code, 55, mk(st, l3), fuel) == Outcome::Branch(0, mk(st, l3)));
            assert(self.ends_with_state(s, suffix, mk(st, l3), st, mem, ps, pt, ls, lt, (k + 1) as u32));
        }
    }

    /// From the loop's head after `k` agreeing bytes, the loop ends with the result
    /// flag telling whether every byte of the suffix agrees.
    proof fn lemma_ends_with_loop(
        &self,
        s: ValueId,
        suffix: ValueId,
        m: Machine,
        st: Seq<Val>,
        mem: Seq<u8>,
        ps: u32,
        pt: u32,
        ls: u32,
        lt: u32,
        k: u32,
        fuel: nat,
    )
        requires
            self.ends_with_locals(s, suffix),
            self.ends_with_state(s, suffix, m, st, mem, ps, pt, ls, lt, k),
            k <= lt,
            lt <= ls,
            ps + 8 + ls <= mem.len(),
            pt + 8 + lt <= mem.len(),
            mem.len() <= u32::MAX,
            forall|j: int| 0 <= j < k ==> #[trigger] byte_agrees(mem, ps, pt, ls - lt, j),
            fuel >= lt - k,
        ensures
            exec(self.spec_emit_string_ends_with(s, suffix), 21, m, fuel) matches Outcome::Branch(n, mf) && n == 0
                && mf.stack == st && mf.mem == mem && mf.locals.contains_key(self.scratch_i32_4)
                && mf.locals[self.scratch_i32_4] == flag(forall|j: int| 0 <= j < lt ==> #[trigger] byte_agrees(mem, ps, pt, ls - lt, j)),
        decreases lt - k,
    {
        let code = self.spec_emit_string_ends_with(s, suffix);
        self.lemma_ends_with_code(s, suffix);
        if k >= lt {
            self.lemma_ends_with_body_done(s, suffix, m, st, mem, ps, pt, ls, lt, k, fuel);
            assert(exec(code, 21, m, fuel) == Outcome::Branch(0, m));
        } else {
            self.lemma_ends_with_body_step(s, suffix, m, st, mem, ps, pt, ls, lt, k, fuel);
            if !byte_agrees(mem, ps, pt, ls - lt, k as int) {
                let m2 = exec(code, 22, m, fuel)->Branch_1;
                assert(exec(code, 21, m, fuel) == Outcome::Branch(0, m2));
                assert(!(forall|j: int| 0 <= j < lt ==> #[trigger] byte_agrees(mem, ps, pt, ls - lt, j)));
            } else {
                let m2 = exec(code, 22, m, fuel)->Branch_1;
                assert(exec(code, 21, m, fuel) == exec(code, 21, m2, (fuel - 1) as nat));
                self.lemma_ends_with_loop(s, suffix, m2, st, mem, ps, pt, ls, lt, (k + 1) as u32, (fuel - 1) as nat);
            }
        }
    }

    /// The suffix test on strings at `ps` and `pt` leaves 1 where the second string
    /// ends the first, 0 where it does not; the memory is unchanged.
    #[verifier::rlimit(60)]
    pub proof fn law_string_ends_with(
        &self,
        s: ValueId,
        suffix: ValueId,
        m: Machine,
        ps: u32,
        pt: u32,
        text: Seq<u8>,
        tail: Seq<u8>,
        fuel: nat,
    )
        requires
            self.holds_value(m, s, Val::I32(ps)),
            self.holds_value(m, suffix, Val::I32(pt)),
            m.mem.len() <= u32::MAX,
            holds_string(m.mem, ps, text),
            holds_string(m.mem, pt, tail),
            fuel >= tail.len(),
        ensures
            leaves(run(self.spec_emit_string_ends_with(s, suffix), m, fuel), m, flag(is_suffix(tail, text))),
    {
        let code = self.spec_emit_string_ends_with(s, suffix);
        self.lemma_ends_with_code(s, suffix);
        let (lsl, ltl) = (self.spec_local(s), self.spec_local(suffix));
        let (a, b, i, r, d) = (self.scratch_i32, self.scratch_i32_2, self.scratch_i32_3, self.scratch_i32_4, self.scratch_i32_6);
        let st = m.stack;
        let mem = m.mem;
        let ls = text.len() as u32;
        let lt = tail.len() as u32;
        let mk = |v: Seq<Val>, lo: Map<u32, Val>| Machine { stack: v, locals: lo, mem };
        let l0 = m.locals;
        let l1 = l0.insert(a, Val::I32(ls));
        let l2 = l1.insert(b, Val::I32(lt));
        let l3 = l2.insert(r, Val::I32(0));
        lemma_exec_plain(code, 0, m, fuel);
        assert(exec(code, 0, m, fuel) == exec(code, 1, mk(st.push(Val::I32(ps)), l0), fuel));
        assert(load_u32(mem, ps as int) == ls);
        assert(st.push(Val::I32(ps)).drop_last() =~= st);
        lemma_exec_plain(code, 1, mk(st.push(Val::I32(ps)), l0), fuel);
        assert(exec(code, 1, mk(st.push(Val::I32(ps)), l0), fuel) == exec(code, 2, mk(st.push(Val::I32(ls)), l0), fuel));
        assert(st.push(Val::I32(ls)).drop_last() =~= st);
        lemma_exec_plain(code, 2, mk(st.push(Val::I32(ls)), l0), fuel);
        lemma_exec_plain(code, 3, mk(st, l1), fuel);
        assert(exec(code, 2, mk(st.push(Val::I32(ls)), l0), fuel) == exec(code, 4, mk(st.push(Val::I32(pt)), l1), fuel));
        assert(load_u32(mem, pt as int) == lt);
        assert(st.push(Val::I32(pt)).drop_last() =~= st);
        lemma_exec_plain(code, 4, mk(st.push(Val::I32(pt)), l1), fuel);
        assert(exec(code, 4, mk(st.push(Val::I32(pt)), l1), fuel) == exec(code, 5, mk(st.push(Val::I32(lt)), l1), fuel));
        assert(st.push(Val::I32(lt)).drop_last() =~= st);
        lemma_exec_plain(code, 5, mk(st.push(Val::I32(lt)), l1), fuel);
        lemma_exec_plain(code, 6, mk(st, l2), fuel);
        assert(st.push(Val::I32(0)).drop_last() =~= st);
        lemma_exec_plain(code, 7, mk(st.push(Val::I32(0)), l2), fuel);
        assert(exec(code, 5, mk(st.push(Val::I32(lt)), l1), fuel) == exec(code, 8, mk(st, l3), fuel));
        lemma_exec_plain(code, 8, mk(st, l3), fuel);
        lemma_exec_plain(code, 9, mk(st.push(Val::I32(lt)), l3), fuel);
        assert(st.push(Val::I32(lt)).push(Val::I32(ls)).subrange(0, st.len() as int) =~= st);
        lemma_exec_plain(code, 10, mk(st.push(Val::I32(lt)).push(Val::I32(ls)), l3), fuel);
        let c = lt <= ls;
        assert(exec(code, 0, m, fuel) == exec(code, 11, mk(st.push(flag(c)), l3), fuel));
        assert(st.push(flag(c)).drop_last() =~= st);
        // Where the constructs close.
        lemma_scan_skip(code, 12, 8, 0);
        lemma_scan_skip(code, 22, 23, 2);
        lemma_scan_skip(code, 46, 2, 3);
        lemma_scan_skip(code, 49, 7, 2);
        assert(scan_end(code, 20, 0) == scan_end(code, 21, 1));
        assert(scan_end(code, 21, 1) == scan_end(code, 22, 2));
        assert(scan_end(code, 45, 2) == scan_end(code, 46, 3));
        assert(scan_end(code, 48, 3) == scan_end(code, 49, 2));
        assert(scan_end(code, 56, 2) == scan_end(code, 57, 1));
        assert(scan_end(code, 57, 1) == scan_end(code, 58, 0));
        assert(scan_end(code, 12, 0) == 58);
        lemma_scan_skip(code, 22, 23, 1);
        lemma_scan_skip(code, 46, 2, 2);
        lemma_scan_skip(code, 49, 7, 1);
        assert(scan_end(code, 21, 0) == scan_end(code, 22, 1));
        assert(scan_end(code, 45, 1) == scan_end(code, 46, 2));
        assert(scan_end(code, 48, 2) == scan_end(code, 49, 1));
        assert(scan_end(code, 56, 1) == scan_end(code, 57, 0));
        assert(scan_end(code, 21, 0) == 57);
        if !c {
            lemma_if_false(code, 11, mk(st.push(flag(c)), l3), fuel, 58);
            lemma_exec_plain(code, 59, mk(st, l3), fuel);
            assert(exec(code, 60, mk(st.push(Val::I32(0)), l3), fuel) == Outcome::Done(mk(st.push(Val::I32(0)), l3)));
        } else {
            lemma_if_true(code, 11, mk(st.push(flag(c)), l3), fuel, 58, 58);
            let dv = (ls - lt) as u32;
            let l4 = l3.insert(d, Val::I32(dv));
            let l5 = l4.insert(i, Val::I32(0));
            let l6 = l5.insert(r, Val::I32(1));
            lemma_exec_plain(code, 12, mk(st, l3), fuel);
            lemma_exec_plain(code, 13, mk(st.push(Val::I32(ls)), l3), fuel);
            assert(st.push(Val::I32(ls)).push(Val::I32(lt)).subrange(0, st.len() as int) =~= st);
            lemma_exec_plain(code, 14, mk(st.push(Val::I32(ls)).push(Val::I32(lt)), l3), fuel);
            assert(st.push(Val::I32(dv)).drop_last() =~= st);
            lemma_exec_plain(code, 15, mk(st.push(Val::I32(dv)), l3), fuel);
            lemma_exec_plain(code, 16, mk(st, l4), fuel);
            lemma_exec_plain(code, 17, mk(st.push(Val::I32(0)), l4), fuel);
            lemma_exec_plain(code, 18, mk(st, l5), fuel);
            assert(st.push(Val::I32(1)).drop_last() =~= st);
            lemma_exec_plain(code, 19, mk(st.push(Val::I32(1)), l5), fuel);
            assert(exec(code, 12, mk(st, l3), fuel) == exec(code, 20, mk(st, l6), fuel));
            assert(self.ends_with_state(s, suffix, mk(st, l6), st, mem, ps, pt, ls, lt, 0));
            self.lemma_ends_with_loop(s, suffix, mk(st, l6), st, mem, ps, pt, ls, lt, 0, fuel);
            let mf = exec(code, 21, mk(st, l6), fuel)->Branch_1;
            assert(exec(code, 20, mk(st, l6), fuel) == exec(code, 58, mf, fuel));
            assert(exec(code, 58, mf, fuel) == Outcome::EndAt(58, mf));
            lemma_exec_plain(code, 59, mf, fuel);
            let agree = forall|j: int| 0 <= j < lt ==> #[trigger] byte_agrees(mem, ps, pt, ls - lt, j);
            assert(agree == is_suffix(tail, text)) by {
                let sub = text.subrange(text.len() - tail.len(), text.len() as int);
                if agree {
                    assert forall|j: int| 0 <= j < tail.len() implies sub[j] == tail[j] by {
                        assert(byte_agrees(mem, ps, pt, ls - lt, j));
                        assert(mem.subrange(ps + 8, ps + 8 + text.len())[ls - lt + j] == mem[ps + 8 + (ls - lt) + j]);
                        assert(mem.subrange(pt + 8, pt + 8 + tail.len())[j] == mem[pt + 8 + j]);
                    }
                    assert(sub =~= tail);
                }
                if is_suffix(tail, text) {
                    assert forall|j: int| 0 <= j < lt implies #[trigger] byte_agrees(mem, ps, pt, ls - lt, j) by {
                        assert(sub[j] == tail[j]);
                        assert(mem.subrange(ps + 8, ps + 8 + text.len())[ls - lt + j] == mem[ps + 8 + (ls - lt) + j]);
                        assert(mem.subrange(pt + 8, pt + 8 + tail.len())[j] == mem[pt + 8 + j]);
                    }
                }
            }
        }
    }
}

impl<'a> FuncCodegen<'a> {
    /// The state at the head of the comparison loop of the prefix test after `k`
    /// bytes: the stack `st`, the memory `mem`, the pointers in the locals of `s`
    /// and `prefix`, the prefix's length `lt`, the index `k` and the result flag 1.
    pub open spec fn starts_with_state(
        &self,
        s: ValueId,
        prefix: ValueId,
        m: Machine,
        st: Seq<Val>,
        mem: Seq<u8>,
        ps: u32,
        pt: u32,
        lt: u32,
        k: u32,
    ) -> bool {
        &&& m.stack == st
        &&& m.mem == mem
        &&& m.locals.contains_key(self.spec_local(s)) && m.locals[self.spec_local(s)] == Val::I32(ps)
        &&& m.locals.contains_key(self.spec_local(prefix)) && m.locals[self.spec_local(prefix)] == Val::I32(pt)
        &&& m.locals.contains_key(self.scratch_i32_2) && m.locals[self.scratch_i32_2] == Val::I32(lt)
        &&& m.locals.contains_key(self.scratch_i32_3) && m.locals[self.scratch_i32_3] == Val::I32(k)
        &&& m.locals.contains_key(self.scratch_i32_4) && m.locals[self.scratch_i32_4] == Val::I32(1)
    }

    /// The instructions of the prefix test, one by one.
    proof fn lemma_starts_with_code(&self, s: ValueId, prefix: ValueId)
        ensures
            ({
                let code = self.spec_emit_string_starts_with(s, prefix);
                let (ls_l, lt_l) = (self.spec_local(s), self.spec_local(prefix));
                let (a, b, i, r, x, mm) = (self.scratch_i32, self.scratch_i32_2, self.scratch_i32_3,
                    self.scratch_i32_4, self.scratch_i32_5, self.scratch_i32_8);
                let l0 = MemArg { offset: 0, align: 2 };
                let l8 = MemArg { offset: 0, align: 0 };
                &&& code.len() == 54
                &&& code[0] == Instr::LocalGet(ls_l) && code[1] == Instr::I32Load(l0) && code[2] == Instr::LocalSet(a)
                &&& code[3] == Instr::LocalGet(lt_l) && code[4] == Instr::I32Load(l0) && code[5] == Instr::LocalSet(b)
                &&& code[6] == Instr::I32Const(0) && code[7] == Instr::LocalSet(r) && code[8] == Instr::LocalGet(b)
                &&& code[9] == Instr::LocalGet(a) && code[10] == Instr::I32LeU && code[11] == Instr::If(BlockTy::Empty)
                &&& code[12] == Instr::I32Const(0) && code[13] == Instr::LocalSet(i)
                &&& code[14] == Instr::I32Const(1) && code[15] == Instr::LocalSet(r) && code[16] == Instr::Block(BlockTy::Empty)
                &&& code[17] == Instr::Loop(BlockTy::Empty) && code[18] == Instr::LocalGet(i) && code[19] == Instr::LocalGet(b)
                &&& code[20] == Instr::I32GeU && code[21] == Instr::BrIf(1) && code[22] == Instr::LocalGet(ls_l)
                &&& code[23] == Instr::I32Const(8) && code[24] == Instr::I32Add
                &&& code[25] == Instr::LocalGet(i) && code[26] == Instr::I32Add
                &&& code[27] == Instr::I32Load8U(l8) && code[28] == Instr::LocalSet(x) && code[29] == Instr::LocalGet(x)
                &&& code[30] == Instr::LocalGet(lt_l) && code[31] == Instr::I32Const(8) && code[32] == Instr::I32Add
                &&& code[33] == Instr::LocalGet(i) && code[34] == Instr::I32Add && code[35] == Instr::I32Load8U(l8)
                &&& code[36] == Instr::I32Ne && code[37] == Instr::LocalSet(mm) && code[38] == Instr::LocalGet(mm)
                &&& code[39] == Instr::If(BlockTy::Empty) && code[40] == Instr::I32Const(0) && code[41] == Instr::LocalSet(r)
                &&& code[42] == Instr::End && code[43] == Instr::LocalGet(mm) && code[44] == Instr::BrIf(1)
                &&& code[45] == Instr::LocalGet(i) && code[46] == Instr::I32Const(1) && code[47] == Instr::I32Add
                &&& code[48] == Instr::LocalSet(i) && code[49] == Instr::Br(0) && code[50] == Instr::End
                &&& code[51] == Instr::End && code[52] == Instr::End && code[53] == Instr::LocalGet(r)
            }),
    {
    }

    /// Where all the prefix's bytes are compared, the loop body leaves the loop.
    proof fn lemma_starts_with_body_done(
        &self,
        s: ValueId,
        prefix: ValueId,
        m: Machine,
        st: Seq<Val>,
        mem: Seq<u8>,
        ps: u32,
        pt: u32,
        lt: u32,
        k: u32,
        fuel: nat,
    )
        requires
            self.ends_with_locals(s, prefix),
            self.starts_with_state(s, prefix, m, st, mem, ps, pt, lt, k),
            k >= lt,
        ensures
            exec(self.spec_emit_string_starts_with(s, prefix), 18, m, fuel) == Outcome::Branch(1, m),
    {
        let code = self.spec_emit_string_starts_with(s, prefix);
        self.lemma_starts_with_code(s, prefix);
        let l = m.locals;
        let mk = |v: Seq<Val>| Machine { stack: v, locals: l, mem };
        lemma_exec_plain(code, 18, m, fuel);
        lemma_exec_plain(code, 19, mk(st.push(Val::I32(k))), fuel);
        assert(st.push(Val::I32(k)).push(Val::I32(lt)).subrange(0, st.len() as int) =~= st);
        lemma_exec_plain(code, 20, mk(st.push(Val::I32(k)).push(Val::I32(lt))), fuel);
        assert(st.push(flag(true)).drop_last() =~= st);
        assert(exec(code, 21, mk(st.push(flag(true))), fuel) == Outcome::Branch(1, mk(st)));
    }

    /// Where bytes remain to compare, the loop body compares the next one: on a
    /// mismatch it clears the result flag and leaves the loop, else it goes back to
    /// the loop's head with the next index.
    #[verifier::rlimit(60)]
    proof fn lemma_starts_with_body_step(
        &self,
        s: ValueId,
        prefix: ValueId,
        m: Machine,
        st: Seq<Val>,
        mem: Seq<u8>,
        ps: u32,
        pt: u32,
        ls: u32,
        lt: u32,
        k: u32,
        fuel: nat,
    )
        requires
            self.ends_with_locals(s, prefix),
            self.starts_with_state(s, prefix, m, st, mem, ps, pt, lt, k),
            k < lt,
            lt <= ls,
            ps + 8 + ls <= mem.len(),
            pt + 8 + lt <= mem.len(),
            mem.len() <= u32::MAX,
        ensures
            !byte_agrees(mem, ps, pt, 0, k as int) ==> (exec(self.spec_emit_string_starts_with(s, prefix), 18, m, fuel)
                matches Outcome::Branch(n, m2) && n == 1 && m2.stack == st && m2.mem == mem
                && m2.locals.contains_key(self.scratch_i32_4) && m2.locals[self.scratch_i32_4] == Val::I32(0)),
            byte_agrees(mem, ps, pt, 0, k as int) ==> (exec(self.spec_emit_string_starts_with(s, prefix), 18, m, fuel)
                matches Outcome::Branch(n, m2) && n == 0
                && self.starts_with_state(s, prefix, m2, st, mem, ps, pt, lt, (k + 1) as u32)),
    {
        let code = self.spec_emit_string_starts_with(s, prefix);
        self.lemma_starts_with_code(s, prefix);
        let (x, i, r, mm) = (self.scratch_i32_5, self.scratch_i32_3, self.scratch_i32_4, self.scratch_i32_8);
        let l = m.locals;
        let mk = |v: Seq<Val>, lo: Map<u32, Val>| Machine { stack: v, locals: lo, mem };
        lemma_exec_plain(code, 18, m, fuel);
        lemma_exec_plain(code, 19, mk(st.push(Val::I32(k)), l), fuel);
        assert(st.push(Val::I32(k)).push(Val::I32(lt)).subrange(0, st.len() as int) =~= st);
        lemma_exec_plain(code, 20, mk(st.push(Val::I32(k)).push(Val::I32(lt)), l), fuel);
        assert(st.push(flag(false)).drop_last() =~= st);
        assert(exec(code, 18, m, fuel) == exec(code, 22, mk(st, l), fuel));
        let a1 = ps + 8 + k;
        let a2 = pt + 8 + k;
        let bx = mem[a1] as u32;
        let by = mem[a2] as u32;
        let ne = bx != by;
        let l1 = l.insert(x, Val::I32(bx));
        let l2 = l1.insert(mm, flag(ne));
        lemma_exec_plain(code, 22, mk(st, l), fuel);
        lemma_exec_plain(code, 23, mk(st.push(Val::I32(ps)), l), fuel);
        assert(st.push(Val::I32(ps)).push(Val::I32(8)).subrange(0, st.len() as int) =~= st);
        lemma_exec_plain(code, 24, mk(st.push(Val::I32(ps)).push(Val::I32(8)), l), fuel);
        lemma_exec_plain(code, 25, mk(st.push(Val::I32((ps + 8) as u32)), l), fuel);
        assert(st.push(Val::I32((ps + 8) as u32)).push(Val::I32(k)).subrange(0, st.len() as int) =~= st);
        lemma_exec_plain(code, 26, mk(st.push(Val::I32((ps + 8) as u32)).push(Val::I32(k)), l), fuel);
        assert(st.push(Val::I32(a1 as u32)).drop_last() =~= st);
        lemma_exec_plain(code, 27, mk(st.push(Val::I32(a1 as u32)), l), fuel);
        assert(st.push(Val::I32(bx)).drop_last() =~= st);
        lemma_exec_plain(code, 28, mk(st.push(Val::I32(bx)), l), fuel);
        assert(exec(code, 22, mk(st, l), fuel) == exec(code, 29, mk(st, l1), fuel));
        let sx = st.push(Val::I32(bx));
        lemma_exec_plain(code, 29, mk(st, l1), fuel);
        lemma_exec_plain(code, 30, mk(sx, l1), fuel);
        assert(sx.push(Val::I32(pt)).push(Val::I32(8)).subrange(0, sx.len() as int) =~= sx);
        lemma_exec_plain(code, 31, mk(sx.push(Val::I32(pt)), l1), fuel);
        lemma_exec_plain(code, 32, mk(sx.push(Val::I32(pt)).push(Val::I32(8)), l1), fuel);
        assert(sx.push(Val::I32((pt + 8) as u32)).push(Val::I32(k)).subrange(0, sx.len() as int) =~= sx);
        lemma_exec_plain(code, 33, mk(sx.push(Val::I32((pt + 8) as u32)), l1), fuel);
        lemma_exec_plain(code, 34, mk(sx.push(Val::I32((pt + 8) as u32)).push(Val::I32(k)), l1), fuel);
        assert(sx.push(Val::I32(a2 as u32)).drop_last() =~= sx);
        lemma_exec_plain(code, 35, mk(sx.push(Val::I32(a2 as u32)), l1), fuel);
        assert(sx.push(Val::I32(by)).subrange(0, st.len() as int) =~= st);
        assert(sx.push(Val::I32(by)).len() == st.len() + 2);
        lemma_exec_plain(code, 36, mk(sx.push(Val::I32(by)), l1), fuel);
        assert(st.push(flag(ne)).drop_last() =~= st);
        lemma_exec_plain(code, 37, mk(st.push(flag(ne)), l1), fuel);
        lemma_exec_plain(code, 38, mk(st, l2), fuel);
        assert(exec(code, 29, mk(st, l1), fuel) == exec(code, 39, mk(st.push(flag(ne)), l2), fuel));
        lemma_scan_skip(code, 40, 2, 0);
        assert(scan_end(code, 40, 0) == 42);
        assert(bx == by <==> byte_agrees(mem, ps, pt, 0, k as int));
        if ne {
            let l3 = l2.insert(r, Val::I32(0));
            lemma_exec_plain(code, 40, mk(st, l2), fuel);
            assert(st.push(Val::I32(0)).drop_last() =~= st);
            lemma_exec_plain(code, 41, mk(st.push(Val::I32(0)), l2), fuel);
            lemma_if_true(code, 39, mk(st.push(flag(ne)), l2), fuel, 42, 42);
            lemma_exec_plain(code, 43, mk(st, l3), fuel);
            assert(exec(code, 44, mk(st.push(flag(ne)), l3), fuel) == Outcome::Branch(1, mk(st, l3)));
        } else {
            let l3 = l2.insert(i, Val::I32((k + 1) as u32));
            lemma_if_false(code, 39, mk(st.push(flag(ne)), l2), fuel, 42);
            lemma_exec_plain(code, 43, mk(st, l2), fuel);
            assert(exec(code, 44, mk(st.push(flag(ne)), l2), fuel) == exec(code, 45, mk(st, l2), fuel));
            lemma_exec_plain(code, 45, mk(st, l2), fuel);
            lemma_exec_plain(code, 46, mk(st.push(Val::I32(k)), l2), fuel);
            assert(st.push(Val::I32(k)).push(Val::I32(1)).subrange(0, st.len() as int) =~= st);
            lemma_exec_plain(code, 47, mk(st.push(Val::I32(k)).push(Val::I32(1)), l2), fuel);
            assert(st.push(Val::I32((k + 1) as u32)).drop_last() =~= st);
            lemma_exec_plain(code, 48, mk(st.push(Val::I32((k + 1) as u32)), l2), fuel);
            assert(exec(code, 49, mk(st, l3), fuel) == Outcome::Branch(0, mk(st, l3)));
            assert(self.starts_with_state(s, prefix, mk(st, l3), st, mem, ps, pt, lt, (k + 1) as u32));
        }
    }

    /// From the loop's head after `k` agreeing bytes, the loop ends with the result
    /// flag telling whether every byte of the prefix agrees.
    proof fn lemma_starts_with_loop(
        &self,
        s: ValueId,
        prefix: ValueId,
        m: Machine,
        st: Seq<Val>,
        mem: Seq<u8>,
        ps: u32,
        pt: u32,
        ls: u32,
        lt: u32,
        k: u32,
        fuel: nat,
    )
        requires
            self.ends_with_locals(s, prefix),
            self.starts_with_state(s, prefix, m, st, mem, ps, pt, lt, k),
            k <= lt,
            lt <= ls,
            ps + 8 + ls <= mem.len(),
            pt + 8 + lt <= mem.len(),
            mem.len() <= u32::MAX,
            forall|j: int| 0 <= j < k ==> #[trigger] byte_agrees(mem, ps, pt, 0, j),
            fuel >= lt - k,
        ensures
            exec(self.spec_emit_string_starts_with(s, prefix), 17, m, fuel) matches Outcome::Branch(n, mf) && n == 0
                && mf.stack == st && mf.mem == mem && mf.locals.contains_key(self.scratch_i32_4)
                && mf.locals[self.scratch_i32_4] == flag(forall|j: int| 0 <= j < lt ==> #[trigger] byte_agrees(mem, ps, pt, 0, j)),
        decreases lt - k,
    {
        let code = self.spec_emit_string_starts_with(s, prefix);
        self.lemma_starts_with_code(s, prefix);
        if k >= lt {
            self.lemma_starts_with_body_done(s, prefix, m, st, mem, ps, pt, lt, k, fuel);
            assert(exec(code, 17, m, fuel) == Outcome::Branch(0, m));
        } else {
            self.lemma_starts_with_body_step(s, prefix, m, st, mem, ps, pt, ls, lt, k, fuel);
            if !byte_agrees(mem, ps, pt, 0, k as int) {
                let m2 = exec(code, 18, m, fuel)->Branch_1;
                assert(exec(code, 17, m, fuel) == Outcome::Branch(0, m2));
                assert(!(forall|j: int| 0 <= j < lt ==> #[trigger] byte_agrees(mem, ps, pt, 0, j)));
            } else {
                let m2 = exec(code, 18, m, fuel)->Branch_1;
                assert(exec(code, 17, m, fuel) == exec(code, 17, m2, (fuel - 1) as nat));
                self.lemma_starts_with_loop(s, prefix, m2, st, mem, ps, pt, ls, lt, (k + 1) as u32, (fuel - 1) as nat);
            }
        }
    }

    /// The prefix test on strings at `ps` and `pt` leaves 1 where the second string
    /// begins the first, 0 where it does not; the memory is unchanged.
    #[verifier::rlimit(60)]
    pub proof fn law_string_starts_with(
        &self,
        s: ValueId,
        prefix: ValueId,
        m: Machine,
        ps: u32,
        pt: u32,
        text: Seq<u8>,
        head: Seq<u8>,
        fuel: nat,
    )
        requires
            self.holds_value(m, s, Val::I32(ps)),
            self.holds_value(m, prefix, Val::I32(pt)),
            m.mem.len() <= u32::MAX,
            holds_string(m.mem, ps, text),
            holds_string(m.mem, pt, head),
            fuel >= head.len(),
        ensures
            leaves(run(self.spec_emit_string_starts_with(s, prefix), m, fuel), m, flag(is_prefix(head, text))),
    {
        let code = self.spec_emit_string_starts_with(s, prefix);
        self.lemma_starts_with_code(s, prefix);
        let (a, b, i, r) = (self.scratch_i32, self.scratch_i32_2, self.scratch_i32_3, self.scratch_i32_4);
        let st = m.stack;
        let mem = m.mem;
        let ls = text.len() as u32;
        let lt = head.len() as u32;
        let mk = |v: Seq<Val>, lo: Map<u32, Val>| Machine { stack: v, locals: lo, mem };
        let l0 = m.locals;
        let l1 = l0.insert(a, Val::I32(ls));
        let l2 = l1.insert(b, Val::I32(lt));
        let l3 = l2.insert(r, Val::I32(0));
        lemma_exec_plain(code, 0, m, fuel);
        assert(load_u32(mem, ps as int) == ls);
        assert(st.push(Val::I32(ps)).drop_last() =~= st);
        lemma_exec_plain(code, 1, mk(st.push(Val::I32(ps)), l0), fuel);
        assert(st.push(Val::I32(ls)).drop_last() =~= st);
        lemma_exec_plain(code, 2, mk(st.push(Val::I32(ls)), l0), fuel);
        lemma_exec_plain(code, 3, mk(st, l1), fuel);
        assert(load_u32(mem, pt as int) == lt);
        assert(st.push(Val::I32(pt)).drop_last() =~= st);
        lemma_exec_plain(code, 4, mk(st.push(Val::I32(pt)), l1), fuel);
        assert(st.push(Val::I32(lt)).drop_last() =~= st);
        lemma_exec_plain(code, 5, mk(st.push(Val::I32(lt)), l1), fuel);
        lemma_exec_plain(code, 6, mk(st, l2), fuel);
        assert(st.push(Val::I32(0)).drop_last() =~= st);
        lemma_exec_plain(code, 7, mk(st.push(Val::I32(0)), l2), fuel);
        assert(exec(code, 0, m, fuel) == exec(code, 8, mk(st, l3), fuel));
        lemma_exec_plain(code, 8, mk(st, l3), fuel);
        lemma_exec_plain(code, 9, mk(st.push(Val::I32(lt)), l3), fuel);
        assert(st.push(Val::I32(lt)).push(Val::I32(ls)).subrange(0, st.len() as int) =~= st);
        lemma_exec_plain(code, 10, mk(st.push(Val::I32(lt)).push(Val::I32(ls)), l3), fuel);
        let c = lt <= ls;
        assert(exec(code, 0, m, fuel) == exec(code, 11, mk(st.push(flag(c)), l3), fuel));
        assert(st.push(flag(c)).drop_last() =~= st);
        lemma_scan_skip(code, 12, 4, 0);
        lemma_scan_skip(code, 18, 21, 2);
        lemma_scan_skip(code, 40, 2, 3);
        lemma_scan_skip(code, 43, 7, 2);
        assert(scan_end(code, 16, 0) == scan_end(code, 17, 1));
        assert(scan_end(code, 17, 1) == scan_end(code, 18, 2));
        assert(scan_end(code, 39, 2) == scan_end(code, 40, 3));
        assert(scan_end(code, 42, 3) == scan_end(code, 43, 2));
        assert(scan_end(code, 50, 2) == scan_end(code, 51, 1));
        assert(scan_end(code, 51, 1) == scan_end(code, 52, 0));
        assert(scan_end(code, 12, 0) == 52);
        lemma_scan_skip(code, 18, 21, 1);
        lemma_scan_skip(code, 40, 2, 2);
        lemma_scan_skip(code, 43, 7, 1);
        assert(scan_end(code, 17, 0) == scan_end(code, 18, 1));
        assert(scan_end(code, 39, 1) == scan_end(code, 40, 2));
        assert(scan_end(code, 42, 2) == scan_end(code, 43, 1));
        assert(scan_end(code, 50, 1) == scan_end(code, 51, 0));
        assert(scan_end(code, 17, 0) == 51);
        if !c {
            lemma_if_false(code, 11, mk(st.push(flag(c)), l3), fuel, 52);
            lemma_exec_plain(code, 53, mk(st, l3), fuel);
            assert(exec(code, 54, mk(st.push(Val::I32(0)), l3), fuel) == Outcome::Done(mk(st.push(Val::I32(0)), l3)));
        } else {
            lemma_if_true(code, 11, mk(st.push(flag(c)), l3), fuel, 52, 52);
            let l5 = l3.insert(i, Val::I32(0));
            let l6 = l5.insert(r, Val::I32(1));
            lemma_exec_plain(code, 12, mk(st, l3), fuel);
            lemma_exec_plain(code, 13, mk(st.push(Val::I32(0)), l3), fuel);
            lemma_exec_plain(code, 14, mk(st, l5), fuel);
            assert(st.push(Val::I32(1)).drop_last() =~= st);
            lemma_exec_plain(code, 15, mk(st.push(Val::I32(1)), l5), fuel);
            assert(exec(code, 12, mk(st, l3), fuel) == exec(code, 16, mk(st, l6), fuel));
            assert(self.starts_with_state(s, prefix, mk(st, l6), st, mem, ps, pt, lt, 0));
            self.lemma_starts_with_loop(s, prefix, mk(st, l6), st, mem, ps, pt, ls, lt, 0, fuel);
            let mf = exec(code, 17, mk(st, l6), fuel)->Branch_1;
            assert(exec(code, 16, mk(st, l6), fuel) == exec(code, 52, mf, fuel));
            assert(exec(code, 52, mf, fuel) == Outcome::EndAt(52, mf));
            lemma_exec_plain(code, 53, mf, fuel);
            let agree = forall|j: int| 0 <= j < lt ==> #[trigger] byte_agrees(mem, ps, pt, 0, j);
            assert(agree == is_prefix(head, text)) by {
                let sub = text.subrange(0, head.len() as int);
                if agree {
                    assert forall|j: int| 0 <= j < head.len() implies sub[j] == head[j] by {
                        assert(byte_agrees(mem, ps, pt, 0, j));
                        assert(mem.subrange(ps + 8, ps + 8 + text.len())[j] == mem[ps + 8 + j]);
                        assert(mem.subrange(pt + 8, pt + 8 + head.len())[j] == mem[pt + 8 + j]);
                    }
                    assert(sub =~= head);
                }
                if is_prefix(head, text) {
                    assert forall|j: int| 0 <= j < lt implies #[trigger] byte_agrees(mem, ps, pt, 0, j) by {
                        assert(sub[j] == head[j]);
                        assert(mem.subrange(ps + 8, ps + 8 + text.len())[j] == mem[ps + 8 + j]);
                        assert(mem.subrange(pt + 8, pt + 8 + head.len())[j] == mem[pt + 8 + j]);
                    }
                }
            }
        }
    }
}

} // verus!
