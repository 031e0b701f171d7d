//! Structured control flow: the analyses that find loops and merge blocks in the
//! block graph.

use vstd::prelude::*;
use crate::control::{blocks_wf, lemma_unvisited_mark, reaches, reverse_postorder, spec_succs, unvisited};
use crate::error::{concat3, CodegenError, ErrorKind};
use crate::func::{block_values_ok, chain, emits, target_values_ok, term_values_ok, values_wf, FuncCodegen};
use crate::instr::{BlockTy, BrTargets, Instr, MemArg};
use crate::ir::{BlockId, BranchTarget, SwitchCase, Terminator, Ty, ValueId};
use crate::layout::AdtLayout;

verus! {

/// Whether all entries are below `n`.
pub open spec fn all_below(s: Seq<BlockId>, n: nat) -> bool {
    forall|k: int| 0 <= k < s.len() ==> #[trigger] s[k] < n
}

impl<'a> FuncCodegen<'a> {
    /// The block graph is well formed besides the codegen state.
    pub open spec fn cf_wf(&self) -> bool {
        &&& self.wf()
        &&& blocks_wf(self.kir_func)
    }

    /// The number of blocks.
    pub open spec fn num_blocks(&self) -> nat {
        self.kir_func.blocks@.len()
    }

    /// For each block, a walk length from `start` to it, for the blocks that
    /// `start` reaches.
    pub(crate) fn reachable_block_distances(&self, start: BlockId) -> (r: Vec<Option<usize>>)
        requires
            self.cf_wf(),
            start < self.num_blocks(),
        ensures
            r@.len() == self.num_blocks(),
            forall|b: BlockId| b < self.num_blocks() ==> (r@[b as int] is Some <==> reaches(self.kir_func, start, b)),
            forall|b: BlockId| b < self.num_blocks() ==> (#[trigger] r@[b as int] matches Some(d) ==> d <= self.num_blocks()),
    {
        crate::control::reachable_block_distances(self.kir_func, start)
    }

    /// The successor blocks of `block_id`, in order.
    pub(crate) fn successor_blocks(&self, block_id: BlockId) -> (r: Vec<BlockId>)
        requires
            block_id < self.num_blocks(),
        ensures
            r@ == spec_succs(self.kir_func, block_id),
    {
        crate::control::successor_blocks(self.kir_func, block_id)
    }

    /// Which arm of a branch at `header` is a loop body: the arm that leads back to
    /// `header` where exactly one does (`Some(true)` for the then arm), provided the
    /// header takes block parameters.
    pub open spec fn spec_classify_loop_branch(&self, header: BlockId, then_block: BlockId, else_block: BlockId) -> Option<bool> {
        if self.kir_func.blocks@[header as int].params@.len() == 0 {
            None
        } else {
            let t = reaches(self.kir_func, then_block, header);
            let e = reaches(self.kir_func, else_block, header);
            if t && !e {
                Some(true)
            } else if !t && e {
                Some(false)
            } else {
                None
            }
        }
    }

    /// The body and exit targets of a branch at `header` that forms a loop.
    pub(crate) fn classify_loop_branch<'b>(&self, header: BlockId, then_target: &'b BranchTarget, else_target: &'b BranchTarget)
        -> (r: Option<(&'b BranchTarget, &'b BranchTarget)>)
        requires
            self.cf_wf(),
            header < self.num_blocks(),
            then_target.block < self.num_blocks(),
            else_target.block < self.num_blocks(),
        ensures
            match self.spec_classify_loop_branch(header, then_target.block, else_target.block) {
                None => r is None,
                Some(true) => r matches Some(p) && *p.0 == *then_target && *p.1 == *else_target,
                Some(false) => r matches Some(p) && *p.0 == *else_target && *p.1 == *then_target,
            },
    {
        if self.kir_func.blocks[header as usize].params.len() == 0 {
            return None;
        }
        let then_reaches_header = self.reachable_block_distances(then_target.block)[header as usize].is_some();
        let else_reaches_header = self.reachable_block_distances(else_target.block)[header as usize].is_some();
        if then_reaches_header && !else_reaches_header {
            Some((then_target, else_target))
        } else if !then_reaches_header && else_reaches_header {
            Some((else_target, then_target))
        } else {
            None
        }
    }

    /// The merge block of a branch inside a loop: among the blocks that both arms
    /// reach, other than the loop header and exit, the one with the least sum of
    /// walk lengths from the two arms, then the least longer length, then the least
    /// id; none where the arms reach no such common block.
    pub(crate) fn find_loop_branch_merge(&self, then_target: &BranchTarget, else_target: &BranchTarget, header: BlockId, exit: BlockId)
        -> (r: Option<BlockId>)
        requires
            self.cf_wf(),
            then_target.block < self.num_blocks(),
            else_target.block < self.num_blocks(),
        ensures
            match r {
                Some(b) => b < self.num_blocks() && b != header && b != exit
                    && reaches(self.kir_func, then_target.block, b) && reaches(self.kir_func, else_target.block, b),
                None => forall|b: BlockId| b < self.num_blocks() && b != header && b != exit
                    ==> !(reaches(self.kir_func, then_target.block, b) && reaches(self.kir_func, else_target.block, b)),
            },
    {
        let then_reachable = self.reachable_block_distances(then_target.block);
        let else_reachable = self.reachable_block_distances(else_target.block);
        let n = then_reachable.len();
        let mut best: Option<(BlockId, u64, u64)> = None;
        let mut b: usize = 0;
        while b < n
            invariant
                n == self.num_blocks(),
                n <= u32::MAX,
                then_reachable@.len() == n,
                else_reachable@.len() == n,
                forall|x: BlockId| x < n ==> (then_reachable@[x as int] is Some <==> reaches(self.kir_func, then_target.block, x)),
                forall|x: BlockId| x < n ==> (else_reachable@[x as int] is Some <==> reaches(self.kir_func, else_target.block, x)),
                forall|x: BlockId| x < n ==> (#[trigger] then_reachable@[x as int] matches Some(d) ==> d <= n),
                forall|x: BlockId| x < n ==> (#[trigger] else_reachable@[x as int] matches Some(d) ==> d <= n),
                0 <= b <= n,
                match best {
                    Some(c) => c.0 < n && c.0 != header && c.0 != exit
                        && reaches(self.kir_func, then_target.block, c.0) && reaches(self.kir_func, else_target.block, c.0),
                    None => forall|x: BlockId| x < b && x != header && x != exit
                        ==> !(reaches(self.kir_func, then_target.block, x) && reaches(self.kir_func, else_target.block, x)),
                },
            decreases n - b,
        {
            let block = b as BlockId;
            if block != header && block != exit {
                if let (Some(t), Some(e)) = (then_reachable[b], else_reachable[b]) {
                    assert(t <= n && e <= n) by {
                        assert(then_reachable@[b as int] matches Some(d) ==> d <= n);
                        assert(else_reachable@[b as int] matches Some(d) ==> d <= n);
                    }
                    let total = t as u64 + e as u64;
                    let max_side = if t > e { t as u64 } else { e as u64 };
                    let better = match best {
                        None => true,
                        Some((_, bt, bm)) => total < bt || (total == bt && max_side < bm),
                    };
                    if better {
                        best = Some((block, total, max_side));
                    }
                }
            }
            b = b + 1;
        }
        match best {
            Some((block, _, _)) => Some(block),
            None => None,
        }
    }

    /// Whether a switch target inside a loop leaves the switch at once: it jumps to
    /// the loop header or exit, returns, or is unreachable.
    pub open spec fn spec_loop_switch_target_exits_directly(&self, block_id: BlockId, header: BlockId, exit: BlockId) -> bool {
        match self.kir_func.blocks@[block_id as int].terminator {
            Some(Terminator::Jump(target)) => target.block == header || target.block == exit,
            Some(Terminator::Return(_)) | Some(Terminator::Unreachable) => true,
            _ => false,
        }
    }

    /// Whether a switch target inside a loop leaves the switch at once.
    pub(crate) fn loop_switch_target_exits_directly(&self, block_id: BlockId, header: BlockId, exit: BlockId) -> (r: bool)
        requires
            block_id < self.num_blocks(),
        ensures
            r == self.spec_loop_switch_target_exits_directly(block_id, header, exit),
    {
        match &self.kir_func.blocks[block_id as usize].terminator {
            Some(Terminator::Jump(target)) => target.block == header || target.block == exit,
            Some(Terminator::Return(_)) | Some(Terminator::Unreachable) => true,
            _ => false,
        }
    }

    /// Whether block `b` may merge a switch inside a loop: it is none of the current
    /// block, the loop header and exit, and the switch targets.
    pub open spec fn loop_switch_merge_candidate(
        &self,
        b: BlockId,
        cases: Seq<SwitchCase>,
        default: Option<&BranchTarget>,
        current_block: BlockId,
        header: BlockId,
        exit: BlockId,
    ) -> bool {
        &&& b != current_block && b != header && b != exit
        &&& forall|i: int| 0 <= i < cases.len() ==> #[trigger] cases[i].target.block != b
        &&& (default matches Some(d) ==> d.block != b)
    }

    /// Whether `b` is reached from every switch target inside a loop that does not
    /// leave the switch at once.
    pub open spec fn reached_by_staying(&self, b: BlockId, cases: Seq<SwitchCase>, default: Option<&BranchTarget>, header: BlockId, exit: BlockId) -> bool {
        &&& forall|i: int| 0 <= i < cases.len() && !self.spec_loop_switch_target_exits_directly(cases[i].target.block, header, exit)
            ==> reaches(self.kir_func, #[trigger] cases[i].target.block, b)
        &&& match default {
            Some(d) => !self.spec_loop_switch_target_exits_directly(d.block, header, exit) ==> reaches(self.kir_func, d.block, b),
            None => true,
        }
    }

    /// Whether some switch target inside a loop does not leave the switch at once.
    pub open spec fn some_staying(&self, cases: Seq<SwitchCase>, default: Option<&BranchTarget>, header: BlockId, exit: BlockId) -> bool {
        ||| exists|i: int| 0 <= i < cases.len() && !self.spec_loop_switch_target_exits_directly(#[trigger] cases[i].target.block, header, exit)
        ||| match default {
            Some(d) => !self.spec_loop_switch_target_exits_directly(d.block, header, exit),
            None => false,
        }
    }

    /// Whether every switch target is a block of the function.
    pub open spec fn targets_ok(&self, cases: Seq<SwitchCase>, default: Option<&BranchTarget>) -> bool {
        &&& forall|i: int| 0 <= i < cases.len() ==> #[trigger] cases[i].target.block < self.num_blocks()
        &&& (default matches Some(d) ==> d.block < self.num_blocks())
    }

    /// Whether `b` is one of the switch targets.
    fn is_switch_target(cases: &[SwitchCase], default: Option<&BranchTarget>, b: BlockId) -> (r: bool)
        ensures
            r == !((forall|i: int| 0 <= i < cases@.len() ==> #[trigger] cases@[i].target.block != b)
                && (default matches Some(d) ==> d.block != b)),
    {
        let mut i: usize = 0;
        while i < cases.len()
            invariant
                0 <= i <= cases@.len(),
                forall|k: int| 0 <= k < i ==> #[trigger] cases@[k].target.block != b,
            decreases cases@.len() - i,
        {
            if cases[i].target.block == b {
                return true;
            }
            i = i + 1;
        }
        match default {
            Some(d) => d.block == b,
            None => false,
        }
    }

    /// The merge block of a switch inside a loop: among the blocks that every
    /// target not leaving the switch at once reaches, other than the current block,
    /// the loop header and exit and the switch targets, the one with the least sum
    /// of walk lengths from those targets, then the least longest length, then the
    /// least id; none where no target stays or there is no such block.
    pub(crate) fn find_loop_switch_merge(
        &self,
        cases: &[SwitchCase],
        default: Option<&BranchTarget>,
        current_block: BlockId,
        header: BlockId,
        exit: BlockId,
    ) -> (r: Option<BlockId>)
        requires
            self.cf_wf(),
            self.targets_ok(cases@, default),
        ensures
            match r {
                Some(b) => b < self.num_blocks()
                    && self.loop_switch_merge_candidate(b, cases@, default, current_block, header, exit)
                    && self.reached_by_staying(b, cases@, default, header, exit)
                    && self.some_staying(cases@, default, header, exit),
                None => !self.some_staying(cases@, default, header, exit)
                    || forall|b: BlockId| b < self.num_blocks()
                        && self.loop_switch_merge_candidate(b, cases@, default, current_block, header, exit)
                        ==> !self.reached_by_staying(b, cases@, default, header, exit),
            },
    {
        let n = self.kir_func.blocks.len();
        let mut sets: Vec<Vec<Option<usize>>> = Vec::new();
        let ghost mut starts: Seq<BlockId> = Seq::empty();
        let ghost mut idx: Seq<int> = Seq::empty();
        let mut i: usize = 0;
        while i < cases.len()
            invariant
                self.cf_wf(),
                self.targets_ok(cases@, default),
                n == self.num_blocks(),
                0 <= i <= cases@.len(),
                sets@.len() == starts.len(),
                sets@.len() <= i,
                forall|k: int| 0 <= k < sets@.len() ==> (#[trigger] sets@[k])@.len() == n,
                forall|k: int, x: BlockId| 0 <= k < sets@.len() && x < n ==>
                    (#[trigger] sets@[k]@[x as int] is Some <==> reaches(self.kir_func, starts[k], x)),
                forall|k: int, x: BlockId| 0 <= k < sets@.len() && x < n ==>
                    (#[trigger] sets@[k]@[x as int] matches Some(d) ==> d <= n),
                forall|k: int| 0 <= k < i && !self.spec_loop_switch_target_exits_directly(#[trigger] cases@[k].target.block, header, exit)
                    ==> starts.contains(cases@[k].target.block),
                idx.len() == starts.len(),
                forall|k: int| 0 <= k < starts.len() ==> 0 <= #[trigger] idx[k] < i && cases@[idx[k]].target.block == starts[k]
                    && !self.spec_loop_switch_target_exits_directly(starts[k], header, exit),
            decreases cases@.len() - i,
        {
            let t = cases[i].target.block;
            let ghost old_starts = starts;
            if !self.loop_switch_target_exits_directly(t, header, exit) {
                let d = self.reachable_block_distances(t);
                sets.push(d);
                proof {
                    starts = starts.push(t);
                    idx = idx.push(i as int);
                    assert(starts[starts.len() - 1] == t);
                }
            }
            i = i + 1;
            proof {
                assert forall|k: int| 0 <= k < i && !self.spec_loop_switch_target_exits_directly(#[trigger] cases@[k].target.block, header, exit)
                    implies starts.contains(cases@[k].target.block) by {
                    if k == i - 1 {
                        assert(starts[starts.len() - 1] == t);
                    } else {
                        let j = choose|j: int| 0 <= j < old_starts.len() && old_starts[j] == cases@[k].target.block;
                        assert(starts[j] == old_starts[j]);
                    }
                }
            }
        }
        let ghost case_starts = starts;
        if let Some(d) = default {
            if !self.loop_switch_target_exits_directly(d.block, header, exit) {
                let dd = self.reachable_block_distances(d.block);
                sets.push(dd);
                proof {
                    starts = starts.push(d.block);
                    assert(starts[starts.len() - 1] == d.block);
                }
            }
        }
        proof {
            assert(case_starts.len() <= starts.len());
            assert forall|k: int| 0 <= k < case_starts.len() implies #[trigger] starts[k] == case_starts[k] by {}
            assert forall|x: BlockId| #[trigger] self.reached_by_staying(x, cases@, default, header, exit)
                implies (forall|k: int| 0 <= k < starts.len() ==> reaches(self.kir_func, #[trigger] starts[k], x)) by {
                assert forall|k: int| 0 <= k < starts.len() implies reaches(self.kir_func, #[trigger] starts[k], x) by {
                    if k < case_starts.len() {
                        let j = idx[k];
                        assert(cases@[j].target.block == starts[k]);
                    }
                }
            }
        }
        proof {
            assert forall|x: BlockId| x < n && (forall|k: int| 0 <= k < starts.len() ==> reaches(self.kir_func, #[trigger] starts[k], x))
                implies self.reached_by_staying(x, cases@, default, header, exit) by {
                assert forall|k: int| 0 <= k < cases@.len() && !self.spec_loop_switch_target_exits_directly(cases@[k].target.block, header, exit)
                    implies reaches(self.kir_func, #[trigger] cases@[k].target.block, x) by {
                    assert(case_starts.contains(cases@[k].target.block));
                    let j = choose|j: int| 0 <= j < case_starts.len() && case_starts[j] == cases@[k].target.block;
                    assert(starts[j] == case_starts[j]);
                }
                if let Some(dt) = default {
                    if !self.spec_loop_switch_target_exits_directly(dt.block, header, exit) {
                        let j = choose|j: int| 0 <= j < starts.len() && starts[j] == dt.block;
                    }
                }
            }
            assert(starts.len() > 0 <==> self.some_staying(cases@, default, header, exit)) by {
                if starts.len() > 0 {
                    if case_starts.len() > 0 {
                        let j = idx[0];
                        assert(cases@[j].target.block == case_starts[0]);
                    }
                }
                if self.some_staying(cases@, default, header, exit) {
                    if exists|k: int| 0 <= k < cases@.len() && !self.spec_loop_switch_target_exits_directly(#[trigger] cases@[k].target.block, header, exit) {
                        let k = choose|k: int| 0 <= k < cases@.len() && !self.spec_loop_switch_target_exits_directly(#[trigger] cases@[k].target.block, header, exit);
                        assert(case_starts.contains(cases@[k].target.block));
                    }
                }
            }
        }
        if sets.len() == 0 {
            return None;
        }
        let mut best: Option<(BlockId, u128, u128)> = None;
        let mut b: usize = 0;
        while b < n
            invariant
                self.cf_wf(),
                n == self.num_blocks(),
                n <= u32::MAX,
                sets@.len() == starts.len(),
                sets@.len() > 0,
                sets@.len() <= cases@.len() + 1,
                self.some_staying(cases@, default, header, exit),
                forall|k: int| 0 <= k < sets@.len() ==> (#[trigger] sets@[k])@.len() == n,
                forall|k: int, x: BlockId| 0 <= k < sets@.len() && x < n ==>
                    (#[trigger] sets@[k]@[x as int] is Some <==> reaches(self.kir_func, starts[k], x)),
                forall|k: int, x: BlockId| 0 <= k < sets@.len() && x < n ==>
                    (#[trigger] sets@[k]@[x as int] matches Some(d) ==> d <= n),
                forall|x: BlockId| x < n && (forall|k: int| 0 <= k < starts.len() ==> reaches(self.kir_func, #[trigger] starts[k], x))
                    ==> self.reached_by_staying(x, cases@, default, header, exit),
                forall|x: BlockId| #[trigger] self.reached_by_staying(x, cases@, default, header, exit)
                    ==> (forall|k: int| 0 <= k < starts.len() ==> reaches(self.kir_func, #[trigger] starts[k], x)),
                0 <= b <= n,
                match best {
                    Some(c) => c.0 < n && self.loop_switch_merge_candidate(c.0, cases@, default, current_block, header, exit)
                        && self.reached_by_staying(c.0, cases@, default, header, exit),
                    None => forall|x: BlockId| x < b && self.loop_switch_merge_candidate(x, cases@, default, current_block, header, exit)
                        ==> !(forall|k: int| 0 <= k < starts.len() ==> reaches(self.kir_func, #[trigger] starts[k], x)),
                },
            decreases n - b,
        {
            let block = b as BlockId;
            let excluded = block == current_block || block == header || block == exit
                || Self::is_switch_target(cases, default, block);
            if !excluded {
                let mut total: u128 = 0;
                let mut max_side: u128 = 0;
                let mut all = true;
                let mut k: usize = 0;
                while k < sets.len()
                    invariant
                        n == self.num_blocks(),
                        b < n,
                        sets@.len() == starts.len(),
                        forall|q: int| 0 <= q < sets@.len() ==> (#[trigger] sets@[q])@.len() == n,
                        forall|q: int, x: BlockId| 0 <= q < sets@.len() && x < n ==>
                            (#[trigger] sets@[q]@[x as int] is Some <==> reaches(self.kir_func, starts[q], x)),
                        forall|q: int, x: BlockId| 0 <= q < sets@.len() && x < n ==>
                            (#[trigger] sets@[q]@[x as int] matches Some(d) ==> d <= n),
                        sets@.len() <= cases@.len() + 1,
                        n <= u32::MAX,
                        0 <= k <= sets@.len(),
                        total <= k * n,
                        all ==> forall|q: int| 0 <= q < k ==> reaches(self.kir_func, #[trigger] starts[q], block),
                        !all ==> !(forall|q: int| 0 <= q < starts.len() ==> reaches(self.kir_func, #[trigger] starts[q], block)),
                        block == b,
                    decreases sets@.len() - k,
                {
                    match sets[k][b] {
                        Some(d) => {
                            assert(d <= n) by {
                                assert(sets@[k as int]@[b as int] matches Some(dd) ==> dd <= n);
                            }
                            assert(total + d <= (k + 1) * n) by (nonlinear_arith)
                                requires total <= k * n, d <= n;
                            assert((k + 1) * n <= 0x1_0000_0000_0000_0000 * 0x1_0000_0000) by (nonlinear_arith)
                                requires k + 1 <= 0x1_0000_0000_0000_0000, n <= 0x1_0000_0000;
                            total = total + d as u128;
                            if d as u128 > max_side {
                                max_side = d as u128;
                            }
                        },
                        None => {
                            all = false;
                            assert(!reaches(self.kir_func, starts[k as int], block));
                            assert(k * n <= (k + 1) * n) by (nonlinear_arith);
                        },
                    }
                    k = k + 1;
                }
                if all {
                    let better = match best {
                        None => true,
                        Some((_, bt, bm)) => total < bt || (total == bt && max_side < bm),
                    };
                    if better {
                        best = Some((block, total, max_side));
                    }
                }
            }
            b = b + 1;
        }
        match best {
            Some((block, _, _)) => Some(block),
            None => None,
        }
    }
}

/// An optional target, borrowed.
pub open spec fn opt_ref(o: &Option<BranchTarget>) -> Option<&BranchTarget> {
    match o {
        Some(d) => Some(d),
        None => None,
    }
}

/// The emitted flags only grow, over the same blocks.
pub open spec fn emitted_grows(before: Seq<bool>, after: Seq<bool>) -> bool {
    &&& after.len() == before.len()
    &&& forall|b: int| 0 <= b < before.len() && #[trigger] before[b] ==> after[b]
}

/// `after` starts with `before`.
pub open spec fn extends(before: Seq<Instr>, after: Seq<Instr>) -> bool {
    &&& before.len() <= after.len()
    &&& forall|i: int| 0 <= i < before.len() ==> #[trigger] after[i] == before[i]
}

/// The outcome of a control-flow emitter: the emitted flags only grow, and on success
/// the instructions were only appended to.
pub open spec fn cf_post(r: Result<(), CodegenError>, out_before: Seq<Instr>, out_after: Seq<Instr>, em_before: Seq<bool>, em_after: Seq<bool>) -> bool {
    &&& emitted_grows(em_before, em_after)
    &&& (r is Ok ==> extends(out_before, out_after))
}

impl<'a> FuncCodegen<'a> {
    /// A jump target names a block, passes values of the function, and the
    /// parameters of its block are values of the function.
    pub open spec fn target_ok(&self, t: BranchTarget) -> bool {
        &&& t.block < self.num_blocks()
        &&& target_values_ok(t, self.kir_func.values@.len())
    }

    /// Every switch target is a valid jump target.
    pub open spec fn switch_ok(&self, cases: Seq<SwitchCase>, default: Option<&BranchTarget>) -> bool {
        &&& forall|i: int| 0 <= i < cases.len() ==> #[trigger] self.target_ok(cases[i].target)
        &&& match default {
            Some(d) => self.target_ok(*d),
            None => true,
        }
    }

    /// A terminator reads values of the function and names valid jump targets.
    pub open spec fn term_ok(&self, t: Terminator) -> bool {
        match t {
            Terminator::Return(v) => self.value_ok(v),
            Terminator::Jump(t) => self.target_ok(t),
            Terminator::Branch { condition, then_target, else_target } =>
                self.value_ok(condition) && self.target_ok(then_target) && self.target_ok(else_target),
            Terminator::Switch { scrutinee, cases, default } =>
                self.value_ok(scrutinee) && self.switch_ok(cases@, opt_ref(&default))
                    && self.targets_ok(cases@, opt_ref(&default)),
            Terminator::Unreachable => true,
        }
    }

    /// What well-formedness says of block `b`: its body and parameters are values
    /// of the function, and its terminator reads values and names targets of it.
    pub proof fn lemma_block_ok(&self, b: BlockId)
        requires
            self.cf_wf(),
            b < self.num_blocks(),
        ensures
            forall|k: int| 0 <= k < self.kir_func.blocks@[b as int].body@.len()
                ==> self.value_ok(#[trigger] self.kir_func.blocks@[b as int].body@[k]),
            forall|k: int| 0 <= k < self.kir_func.blocks@[b as int].params@.len()
                ==> self.value_ok(#[trigger] self.kir_func.blocks@[b as int].params@[k].value),
            self.kir_func.blocks@[b as int].terminator matches Some(t) ==> self.term_ok(t),
    {
        assert(block_values_ok(self.kir_func, b as int));
        let f = self.kir_func;
        match f.blocks@[b as int].terminator {
            Some(Terminator::Jump(t)) => {
                assert(spec_succs(f, b)[0] == t.block);
            },
            Some(Terminator::Branch { condition, then_target, else_target }) => {
                assert(spec_succs(f, b)[0] == then_target.block);
                assert(spec_succs(f, b)[1] == else_target.block);
            },
            Some(Terminator::Switch { scrutinee, cases, default }) => {
                assert forall|i: int| 0 <= i < cases@.len() implies #[trigger] self.target_ok(cases@[i].target) by {
                    assert(spec_succs(f, b)[i] == cases@[i].target.block);
                    assert(target_values_ok(cases@[i].target, f.values@.len()));
                }
                assert forall|i: int| 0 <= i < cases@.len() implies #[trigger] cases@[i].target.block < self.num_blocks() by {
                    assert(self.target_ok(cases@[i].target));
                }
                if let Some(d) = default {
                    assert(spec_succs(f, b)[cases@.len() as int] == d.block);
                }
            },
            _ => {},
        }
    }

    /// The instructions of the values `vids`, in order, or the first error.
    pub open spec fn spec_emit_insts(&self, vids: Seq<ValueId>) -> Result<Seq<Instr>, ErrorKind>
        decreases vids.len(),
    {
        if vids.len() == 0 {
            Ok(Seq::empty())
        } else {
            chain(self.spec_emit_insts(vids.drop_last()), self.spec_emit_inst(vids.last()))
        }
    }

    /// Emit the instructions of a block's body.
    pub(crate) fn emit_block_body(&self, out: &mut Vec<Instr>, block_id: BlockId) -> (r: Result<(), CodegenError>)
        requires
            self.cf_wf(),
            block_id < self.num_blocks(),
        ensures
            emits(r, old(out)@, final(out)@, self.spec_emit_insts(self.kir_func.blocks@[block_id as int].body@)),
    {
        proof {
            self.lemma_block_ok(block_id);
        }
        let body = &self.kir_func.blocks[block_id as usize].body;
        let mut v: Vec<Instr> = Vec::new();
        let mut i: usize = 0;
        while i < body.len()
            invariant
                self.cf_wf(),
                block_id < self.num_blocks(),
                body@ == self.kir_func.blocks@[block_id as int].body@,
                forall|k: int| 0 <= k < body@.len() ==> self.value_ok(#[trigger] body@[k]),
                0 <= i <= body@.len(),
                self.spec_emit_insts(body@.take(i as int)) == Ok::<Seq<Instr>, ErrorKind>(v@),
            decreases body@.len() - i,
        {
            assert(body@.take(i + 1).drop_last() =~= body@.take(i as int));
            let ghost before = v@;
            match self.emit_inst(&mut v, body[i]) {
                Ok(()) => {},
                Err(e) => {
                    proof {
                        assert(self.spec_emit_inst(body@[i as int]) == Err::<Seq<Instr>, ErrorKind>(e.kind()));
                        assert(self.spec_emit_insts(body@.take(i + 1)) == chain(Ok::<Seq<Instr>, ErrorKind>(before), self.spec_emit_inst(body@[i as int])));
                        assert(body@.take(i + 1).last() == body@[i as int]);
                        assert(body@.take(i + 1).len() > 0);
                        assert(self.spec_emit_insts(body@.take(i as int)) == Ok::<Seq<Instr>, ErrorKind>(before));
                        lemma_insts_prefix_err(self, body@, i as int + 1);
                    }
                    return Err(e);
                },
            }
            i = i + 1;
        }
        assert(body@.take(i as int) =~= body@);
        out.append(&mut v);
        Ok(())
    }
}

/// Once the instructions of a prefix of `vids` fail, those of `vids` fail with the
/// same kind.
proof fn lemma_insts_prefix_err(c: &FuncCodegen, vids: Seq<ValueId>, i: int)
    requires
        0 <= i <= vids.len(),
        c.spec_emit_insts(vids.take(i)) is Err,
    ensures
        c.spec_emit_insts(vids) == c.spec_emit_insts(vids.take(i)),
    decreases vids.len() - i,
{
    if i < vids.len() {
        assert(vids.take(i + 1).drop_last() =~= vids.take(i));
        lemma_insts_prefix_err(c, vids, i + 1);
    } else {
        assert(vids.take(i) =~= vids);
    }
}

} // verus!
