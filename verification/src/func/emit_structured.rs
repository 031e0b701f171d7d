//! Structured control flow: the block graph of a function emitted as nested WASM
//! blocks, loops, ifs and branch tables.
//!
//! The emitters recurse through the graph. Each takes a recursion budget `fuel`;
//! recursion deeper than the budget is reported as unsupported control flow.

use vstd::prelude::*;
use crate::control::{lemma_reverse_postorder, lemma_unvisited_mark, reaches, reverse_postorder, unvisited};
use crate::error::{concat3, CodegenError, ErrorKind};
use crate::func::{chain, emits, FuncCodegen};
use crate::func::emit_control::{all_below, cf_post, emitted_grows, extends, opt_ref};
use crate::instr::{BlockTy, BrTargets, Instr, MemArg};
use crate::ir::{BlockId, BranchTarget, Name, SwitchCase, Terminator, Ty, ValueId};
use crate::layout::AdtLayout;
use vstd::std_specs::iter::IteratorSpec;

verus! {

broadcast use vstd::std_specs::hash::group_hash_axioms;

/// Whether `x` occurs in `s`.
fn chain_contains(s: &Vec<BlockId>, x: BlockId) -> (r: bool)
    ensures
        r == s@.contains(x),
{
    let mut i: usize = 0;
    while i < s.len()
        invariant
            0 <= i <= s@.len(),
            forall|k: int| 0 <= k < i ==> s@[k] != x,
        decreases s@.len() - i,
    {
        if s[i] == x {
            assert(s@[i as int] == x);
            return true;
        }
        i = i + 1;
    }
    false
}

/// Whether a terminator ends the function: a return, `unreachable`, or none.
pub open spec fn ends_function(t: Option<Terminator>) -> bool {
    t is None || t matches Some(Terminator::Return(_)) || t matches Some(Terminator::Unreachable)
}

impl<'a> FuncCodegen<'a> {
    /// Where block `b` ends the function, nothing; where it jumps to another block
    /// that ends the function, that block: the chain of a simple arm of a branch.
    pub open spec fn spec_simple_chain(&self, b: BlockId) -> Option<Seq<BlockId>> {
        let t = self.kir_func.blocks@[b as int].terminator;
        if ends_function(t) {
            Some(Seq::empty())
        } else {
            match t {
                Some(Terminator::Jump(j)) => if j.block != b && j.block < self.kir_func.blocks@.len()
                    && ends_function(self.kir_func.blocks@[j.block as int].terminator) {
                    Some(seq![j.block])
                } else {
                    None
                },
                _ => None,
            }
        }
    }

    /// The merge block of a branch whose arms are simple: none where both arms end
    /// the function, the one block where both arms jump to the same block that ends
    /// the function; no answer for other arms.
    pub open spec fn spec_simple_merge(&self, then_block: BlockId, else_block: BlockId) -> Option<Option<BlockId>> {
        match (self.spec_simple_chain(then_block), self.spec_simple_chain(else_block)) {
            (Some(a), Some(b)) => if a.len() == 0 && b.len() == 0 {
                Some(None)
            } else if a.len() == 1 && b.len() == 1 && a[0] == b[0] {
                Some(Some(a[0]))
            } else {
                None
            },
            _ => None,
        }
    }

    /// The instructions of a simple arm of a branch that enters block `t.block`: the
    /// stores of the jump's arguments and the block's body, then, where the branch
    /// has no merge block, its return or `unreachable`, or, where the block jumps to
    /// the merge block, the stores of that jump; or the first error.
    pub open spec fn spec_simple_arm(&self, t: BranchTarget, merge: Option<BlockId>) -> Option<Result<Seq<Instr>, ErrorKind>> {
        let b = t.block;
        let head = chain(Ok(self.spec_emit_block_param_stores(t)), self.spec_emit_insts(self.kir_func.blocks@[b as int].body@));
        match self.kir_func.blocks@[b as int].terminator {
            None => if merge is None { Some(head) } else { None },
            Some(Terminator::Return(v)) => if merge is None {
                Some(chain(head, Ok(self.spec_emit_get(v) + seq![Instr::Return])))
            } else {
                None
            },
            Some(Terminator::Unreachable) => if merge is None { Some(chain(head, Ok(seq![Instr::Unreachable]))) } else { None },
            Some(Terminator::Jump(j)) => if merge == Some(j.block) {
                Some(chain(head, Ok(self.spec_emit_block_param_stores(j))))
            } else {
                None
            },
            _ => None,
        }
    }
    /// The instructions of a branch whose arms are simple: the condition, `if`, the
    /// then arm, `else`, the else arm and `end`, then the merge block where the arms
    /// meet at a block that ends the function, or `unreachable` where both arms end
    /// it; or the first error.
    pub open spec fn spec_simple_branch(&self, condition: ValueId, then_target: BranchTarget, else_target: BranchTarget)
        -> Option<Result<Seq<Instr>, ErrorKind>> {
        match self.spec_simple_merge(then_target.block, else_target.block) {
            Some(m) => match (self.spec_simple_arm(then_target, m), self.spec_simple_arm(else_target, m)) {
                (Some(a1), Some(a2)) => {
                    let arms = chain(
                        chain(Ok(self.spec_emit_get(condition) + seq![Instr::If(BlockTy::Empty)]), a1),
                        chain(Ok(seq![Instr::Else]), a2),
                    );
                    match m {
                        None => Some(chain(arms, Ok(seq![Instr::End, Instr::Unreachable]))),
                        Some(mb) => match self.spec_leaf_block(mb) {
                            Some(l) => Some(chain(arms, chain(Ok(seq![Instr::End]), l))),
                            None => None,
                        },
                    }
                },
                _ => None,
            },
            None => None,
        }
    }
    /// The instructions of a loop body block that jumps back to the loop header: its
    /// body, the stores of the jump's arguments and a branch back to the loop by
    /// `continue_depth`; or the first error. None for any other block.
    pub open spec fn spec_back_jump(&self, b: BlockId, header: BlockId, continue_depth: u32) -> Option<Result<Seq<Instr>, ErrorKind>> {
        match self.kir_func.blocks@[b as int].terminator {
            Some(Terminator::Jump(j)) => if j.block == header {
                Some(chain(
                    self.spec_emit_insts(self.kir_func.blocks@[b as int].body@),
                    Ok(self.spec_emit_block_param_stores(j) + seq![Instr::Br(continue_depth)]),
                ))
            } else {
                None
            },
            _ => None,
        }
    }
    /// The instructions of a loop at `header` whose arms are simple: a block and a
    /// loop opened, the header's body and condition, then an `if` whose body stores
    /// the arguments for the body block and runs it back to the loop, and whose `else`
    /// stores the exit's arguments and leaves; after the loop, the exit block, which
    /// ends the function; or the first error. None for loops of other shapes.
    pub open spec fn spec_simple_loop(&self, header: BlockId, condition: ValueId, body_target: BranchTarget, exit_target: BranchTarget)
        -> Option<Result<Seq<Instr>, ErrorKind>> {
        match (self.spec_back_jump(body_target.block, header, 1), self.spec_leaf_block(exit_target.block)) {
            (Some(arm), Some(exit)) => {
                let head = chain(
                    Ok(seq![Instr::Block(BlockTy::Empty), Instr::Loop(BlockTy::Empty)]),
                    chain(
                        self.spec_emit_insts(self.kir_func.blocks@[header as int].body@),
                        Ok(self.spec_emit_get(condition) + seq![Instr::If(BlockTy::Empty)]
                            + self.spec_emit_block_param_stores(body_target)),
                    ),
                );
                let looped = chain(
                    chain(head, arm),
                    Ok(seq![Instr::Else] + self.spec_emit_block_param_stores(exit_target)
                        + seq![Instr::Br(2), Instr::End, Instr::End, Instr::End]),
                );
                Some(chain(looped, exit))
            },
            _ => None,
        }
    }



}

impl<'a> FuncCodegen<'a> {
    /// The blocks that control passes through from `start`, following jumps and the
    /// merge blocks of branches and switches, until a block repeats or control does
    /// not converge; `None` where the recursion budget runs out.
    pub(crate) fn follow_chain(&self, start: BlockId, fuel: u64) -> (r: Option<Vec<BlockId>>)
        requires
            self.cf_wf(),
            start < self.num_blocks(),
        ensures
            r matches Some(c) ==> all_below(c@, self.num_blocks()),
            self.spec_simple_chain(start) matches Some(c) ==> r matches Some(v) && v@ == c,
        decreases fuel, 0u64,
    {
        let n = self.kir_func.blocks.len();
        let mut visited: Vec<bool> = Vec::new();
        let mut k: usize = 0;
        while k < n
            invariant
                0 <= k <= n,
                visited@.len() == k,
                forall|j: int| 0 <= j < k ==> !visited@[j],
            decreases n - k,
        {
            visited.push(false);
            k = k + 1;
        }
        proof {
            assert(visited@ =~= Seq::new(n as nat, |i: int| false));
            crate::control::lemma_unvisited_all_false(n as nat);
        }
        let mut chain: Vec<BlockId> = Vec::new();
        let mut current = start;
        loop
            invariant_except_break
                self.spec_simple_chain(start) is Some ==> {
                    &&& chain@.len() <= 1
                    &&& chain@.len() == 0 ==> current == start && forall|j: int| 0 <= j < n ==> !visited@[j]
                    &&& chain@.len() == 1 ==> chain@ == self.spec_simple_chain(start).unwrap() && current == chain@[0]
                        && forall|j: int| 0 <= j < n && j != start ==> !visited@[j]
                },
            invariant
                self.cf_wf(),
                n == self.num_blocks(),
                visited@.len() == n,
                current < n,
                start < n,
                all_below(chain@, n as nat),
                unvisited(visited@) <= n,
            ensures
                all_below(chain@, n as nat),
                self.spec_simple_chain(start) matches Some(c) ==> chain@ == c,
            decreases unvisited(visited@),
        {
            if visited[current as usize] {
                break;
            }
            proof {
                lemma_unvisited_mark(visited@, current as int);
                self.lemma_block_ok(current);
            }
            visited.set(current as usize, true);
            match &self.kir_func.blocks[current as usize].terminator {
                Some(Terminator::Jump(target)) => {
                    chain.push(target.block);
                    current = target.block;
                },
                Some(Terminator::Branch { then_target, else_target, .. }) => {
                    if fuel == 0 {
                        return None;
                    }
                    match self.find_branch_merge_deep(then_target, else_target, fuel - 1) {
                        None => {
                            return None;
                        },
                        Some(Some(merge)) => {
                            chain.push(merge);
                            current = merge;
                        },
                        Some(None) => {
                            break;
                        },
                    }
                },
                Some(Terminator::Switch { cases, default, .. }) => {
                    if fuel == 0 {
                        return None;
                    }
                    match self.find_switch_merge(cases.as_slice(), default.as_ref(), fuel - 1) {
                        None => {
                            return None;
                        },
                        Some(Some(merge)) => {
                            chain.push(merge);
                            current = merge;
                        },
                        Some(None) => {
                            break;
                        },
                    }
                },
                _ => {
                    break;
                },
            }
        }
        Some(chain)
    }

    /// The merge block of a branch: its target where both arms go to one block, or
    /// else the first block of the then arm's chain that the else arm's chain also
    /// passes; `None` where the recursion budget runs out.
    pub(crate) fn find_branch_merge_deep(&self, then_target: &BranchTarget, else_target: &BranchTarget, fuel: u64)
        -> (r: Option<Option<BlockId>>)
        requires
            self.cf_wf(),
            then_target.block < self.num_blocks(),
            else_target.block < self.num_blocks(),
        ensures
            then_target.block == else_target.block ==> r == Some(Some(then_target.block)),
            r matches Some(Some(b)) ==> b < self.num_blocks(),
            then_target.block != else_target.block ==> (self.spec_simple_merge(then_target.block, else_target.block) matches Some(m)
                ==> r == Some(m)),
        decreases fuel, 1u64,
    {
        if then_target.block == else_target.block {
            return Some(Some(then_target.block));
        }
        let then_chain = match self.follow_chain(then_target.block, fuel) {
            Some(c) => c,
            None => {
                return None;
            },
        };
        let else_chain = match self.follow_chain(else_target.block, fuel) {
            Some(c) => c,
            None => {
                return None;
            },
        };
        let mut i: usize = 0;
        while i < then_chain.len()
            invariant
                0 <= i <= then_chain@.len(),
                all_below(then_chain@, self.num_blocks()),
                then_target.block != else_target.block,
                self.spec_simple_merge(then_target.block, else_target.block) is Some ==> i == 0,
                self.spec_simple_chain(then_target.block) matches Some(c) ==> then_chain@ == c,
                self.spec_simple_chain(else_target.block) matches Some(c) ==> else_chain@ == c,
            decreases then_chain@.len() - i,
        {
            if chain_contains(&else_chain, then_chain[i]) {
                return Some(Some(then_chain[i]));
            }
            proof {
                if self.spec_simple_merge(then_target.block, else_target.block) is Some {
                    assert(else_chain@[0] == then_chain@[0]);
                    assert(else_chain@.contains(then_chain@[0]));
                }
            }
            i = i + 1;
        }
        Some(None)
    }

    /// Whether every target of a switch enters a block that ends the function.
    pub open spec fn switch_targets_end(&self, cases: Seq<SwitchCase>, default: Option<&BranchTarget>) -> bool {
        &&& forall|k: int| 0 <= k < cases.len() ==> ends_function(self.kir_func.blocks@[#[trigger] cases[k].target.block as int].terminator)
        &&& (default matches Some(d) ==> ends_function(self.kir_func.blocks@[d.block as int].terminator))
    }

    /// The merge block of a switch: the first block of the first target's chain that
    /// every other target's chain passes, the default target's last; `None` where the
    /// recursion budget runs out.
    pub(crate) fn find_switch_merge(&self, cases: &[SwitchCase], default: Option<&BranchTarget>, fuel: u64)
        -> (r: Option<Option<BlockId>>)
        requires
            self.cf_wf(),
            self.targets_ok(cases@, default),
        ensures
            r matches Some(Some(b)) ==> b < self.num_blocks(),
            self.switch_targets_end(cases@, default) ==> r == Some(None::<BlockId>),
            self.spec_switch_merge(cases@, default) matches Some(m) ==> r == Some(m),
        decreases fuel, 1u64,
    {
        let ghost merge = self.spec_switch_merge(cases@, default);
        let ghost mb: BlockId = match merge {
            Some(Some(b)) => b,
            _ => 0,
        };
        let ghost joins = merge == Some(Some(mb));
        proof {
            if joins {
                assert(!self.switch_targets_end(cases@, default));
            }
        }
        let mut chains: Vec<Vec<BlockId>> = Vec::new();
        let mut i: usize = 0;
        while i < cases.len()
            invariant
                self.cf_wf(),
                self.targets_ok(cases@, default),
                0 <= i <= cases@.len(),
                forall|k: int| 0 <= k < chains@.len() ==> all_below(#[trigger] chains@[k]@, self.num_blocks()),
                self.switch_targets_end(cases@, default) ==> chains@.len() == i
                    && forall|k: int| 0 <= k < chains@.len() ==> (#[trigger] chains@[k])@.len() == 0,
                joins == (self.spec_switch_merge(cases@, default) == Some(Some(mb))),
                joins ==> self.switch_targets_jump_to(cases@, default, mb) && chains@.len() == i
                    && forall|k: int| 0 <= k < chains@.len() ==> (#[trigger] chains@[k])@ == seq![mb],
            decreases cases@.len() - i,
        {
            assert(self.switch_targets_end(cases@, default) ==> ends_function(self.kir_func.blocks@[cases@[i as int].target.block as int].terminator));
            proof {
                if joins {
                    assert(self.jumps_to_leaf(cases@[i as int].target.block, mb));
                }
            }
            match self.follow_chain(cases[i].target.block, fuel) {
                Some(c) => chains.push(c),
                None => {
                    return None;
                },
            }
            i = i + 1;
        }
        if let Some(d) = default {
            proof {
                if joins {
                    assert(self.jumps_to_leaf(d.block, mb));
                }
            }
            match self.follow_chain(d.block, fuel) {
                Some(c) => chains.push(c),
                None => {
                    return None;
                },
            }
        }
        proof {
            if joins && cases@.len() == 0 {
                assert(default is Some);
            }
        }
        if chains.len() == 0 {
            return Some(None);
        }
        let first = &chains[0];
        assert(self.switch_targets_end(cases@, default) ==> first@.len() == 0);
        assert(all_below(first@, self.num_blocks()));
        assert(joins ==> first@ == seq![mb]);
        let mut j: usize = 0;
        while j < first.len()
            invariant
                0 <= j <= first@.len(),
                all_below(first@, self.num_blocks()),
                chains@.len() > 0,
                first == &chains@[0],
                self.switch_targets_end(cases@, default) ==> first@.len() == 0,
                joins ==> j == 0 && first@ == seq![mb] && forall|k: int| 0 <= k < chains@.len() ==> (#[trigger] chains@[k])@ == seq![mb],
                self.spec_switch_merge(cases@, default) matches Some(Some(x)) ==> joins && x == mb,
                self.spec_switch_merge(cases@, default) == Some(None::<BlockId>) ==> first@.len() == 0,
            decreases first@.len() - j,
        {
            let block = first[j];
            let mut all = true;
            let mut k: usize = 1;
            while k < chains.len()
                invariant
                    1 <= k <= chains@.len(),
                    joins ==> all && block == mb && forall|q: int| 0 <= q < chains@.len() ==> (#[trigger] chains@[q])@ == seq![mb],
                decreases chains@.len() - k,
            {
                proof {
                    if joins {
                        assert(chains@[k as int]@ == seq![mb]);
                        assert(chains@[k as int]@[0] == mb);
                    }
                }
                if !chain_contains(&chains[k], block) {
                    all = false;
                }
                k = k + 1;
            }
            if all {
                return Some(Some(block));
            }
            j = j + 1;
        }
        Some(None)
    }
}

/// An error for recursion deeper than the budget, or depths beyond 32 bits.
fn too_deep() -> (e: CodegenError)
    ensures
        e is UnsupportedControlFlow,
{
    CodegenError::UnsupportedControlFlow
}

/// The error for a block without a terminator.
fn missing_terminator() -> (e: CodegenError)
    ensures
        e is MissingTerminator,
{
    CodegenError::MissingTerminator(concat3("block has no terminator", "", ""))
}

/// Append one instruction.
fn push(out: &mut Vec<Instr>, i: Instr)
    ensures
        final(out)@ == old(out)@.push(i),
        extends(old(out)@, final(out)@),
{
    out.push(i);
}

/// Appending extends.
proof fn lemma_extends_append(a: Seq<Instr>, s: Seq<Instr>)
    ensures
        extends(a, a + s),
{
}

/// Mark block `b` emitted.
fn mark(emitted: &mut Vec<bool>, b: BlockId)
    requires
        b < old(emitted)@.len(),
    ensures
        final(emitted)@ == old(emitted)@.update(b as int, true),
        emitted_grows(old(emitted)@, final(emitted)@),
{
    emitted.set(b as usize, true);
}

impl<'a> FuncCodegen<'a> {
    /// Emit `local.get` of a value.
    fn get_ext(&self, out: &mut Vec<Instr>, v: ValueId)
        requires
            self.wf(),
            self.value_ok(v),
        ensures
            extends(old(out)@, final(out)@),
            final(out)@ == old(out)@ + self.spec_emit_get(v),
    {
        self.emit_get(out, v);
        proof {
            lemma_extends_append(old(out)@, self.spec_emit_get(v));
        }
    }

    /// Emit the stores of a jump's arguments into its target's parameters.
    fn stores_ext(&self, out: &mut Vec<Instr>, target: &BranchTarget) -> (r: Result<(), CodegenError>)
        requires
            self.cf_wf(),
            self.target_ok(*target),
        ensures
            r is Ok ==> extends(old(out)@, final(out)@),
            emits(r, old(out)@, final(out)@, Ok(self.spec_emit_block_param_stores(*target))),
    {
        proof {
            self.lemma_block_ok(target.block);
        }
        let r = self.emit_block_param_stores(out, target);
        proof {
            lemma_extends_append(old(out)@, self.spec_emit_block_param_stores(*target));
        }
        r
    }

    /// Emit the body of a block.
    fn body_ext(&self, out: &mut Vec<Instr>, b: BlockId) -> (r: Result<(), CodegenError>)
        requires
            self.cf_wf(),
            b < self.num_blocks(),
        ensures
            r is Ok ==> extends(old(out)@, final(out)@),
            emits(r, old(out)@, final(out)@, self.spec_emit_insts(self.kir_func.blocks@[b as int].body@)),
    {
        let r = self.emit_block_body(out, b);
        proof {
            if let Ok(s) = self.spec_emit_insts(self.kir_func.blocks@[b as int].body@) {
                lemma_extends_append(old(out)@, s);
            }
        }
        r
    }
}

impl<'a> FuncCodegen<'a> {
    /// The instructions of a block that ends the function: its body, then the return
    /// of its value, or `unreachable`; or the first error of its body. None for a
    /// block with any other terminator.
    pub open spec fn spec_leaf_block(&self, b: BlockId) -> Option<Result<Seq<Instr>, ErrorKind>> {
        let body = self.spec_emit_insts(self.kir_func.blocks@[b as int].body@);
        match self.kir_func.blocks@[b as int].terminator {
            Some(Terminator::Return(v)) => Some(chain(body, Ok(self.spec_emit_get(v) + seq![Instr::Return]))),
            Some(Terminator::Unreachable) => Some(chain(body, Ok(seq![Instr::Unreachable]))),
            _ => None,
        }
    }
    /// Whether block `b` jumps to block `m`, another block of the function, which
    /// returns or is unreachable.
    pub open spec fn jumps_to_leaf(&self, b: BlockId, m: BlockId) -> bool {
        &&& self.kir_func.blocks@[b as int].terminator matches Some(Terminator::Jump(j)) && j.block == m
        &&& m != b
        &&& m < self.kir_func.blocks@.len()
        &&& self.spec_leaf_block(m) is Some
    }

    /// Whether every target of a switch jumps to block `m`, which returns or is
    /// unreachable.
    pub open spec fn switch_targets_jump_to(&self, cases: Seq<SwitchCase>, default: Option<&BranchTarget>, m: BlockId) -> bool {
        &&& forall|k: int| 0 <= k < cases.len() ==> self.jumps_to_leaf(#[trigger] cases[k].target.block, m)
        &&& (default matches Some(d) ==> self.jumps_to_leaf(d.block, m))
    }

    /// The merge block of a switch whose arms are simple: none where every target
    /// ends the function, the one block where every target jumps to the same other
    /// block that returns or is unreachable; no answer for other switches.
    pub open spec fn spec_switch_merge(&self, cases: Seq<SwitchCase>, default: Option<&BranchTarget>) -> Option<Option<BlockId>> {
        if self.switch_targets_end(cases, default) {
            Some(None)
        } else {
            let first = if cases.len() > 0 {
                cases[0].target.block
            } else {
                match default {
                    Some(d) => d.block,
                    None => 0,
                }
            };
            match self.kir_func.blocks@[first as int].terminator {
                Some(Terminator::Jump(j)) => if self.switch_targets_jump_to(cases, default, j.block) {
                    Some(Some(j.block))
                } else {
                    None
                },
                _ => None,
            }
        }
    }

    /// The code of a switch arm that enters `t.block`, `depth` blocks inside the
    /// switch's merge block: the end of the arm's enclosing block, the stores of the
    /// target's arguments, the block's body, then the return of its value,
    /// `unreachable`, or the stores of its jump's arguments and a branch out to the
    /// merge block by `depth` (nothing where it has no terminator); or the first
    /// error of its body.
    pub open spec fn spec_switch_arm(&self, t: BranchTarget, depth: int) -> Result<Seq<Instr>, ErrorKind> {
        let blk = self.kir_func.blocks@[t.block as int];
        chain(
            Ok(seq![Instr::End] + self.spec_emit_block_param_stores(t)),
            chain(
                self.spec_emit_insts(blk.body@),
                Ok(match blk.terminator {
                    Some(Terminator::Return(v)) => self.spec_emit_get(v) + seq![Instr::Return],
                    Some(Terminator::Unreachable) => seq![Instr::Unreachable],
                    Some(Terminator::Jump(j)) => self.spec_emit_block_param_stores(j) + seq![Instr::Br(depth as u32)],
                    _ => Seq::empty(),
                }),
            ),
        )
    }

    /// The code of the arms of the first `k` cases, each as `spec_switch_arm` gives
    /// it at its depth: the number of later cases, and one more where there is a
    /// default; or the first error.
    pub open spec fn spec_switch_arms(&self, cases: Seq<SwitchCase>, k: nat, has_default: bool) -> Result<Seq<Instr>, ErrorKind>
        decreases k,
    {
        if k == 0 || k > cases.len() {
            Ok(Seq::empty())
        } else {
            chain(
                self.spec_switch_arms(cases, (k - 1) as nat, has_default),
                self.spec_switch_arm(cases[k - 1].target, cases.len() - k + if has_default { 1int } else { 0 }),
            )
        }
    }

    /// The dispatch of a switch on `scrutinee` over `cases` whose variants have the
    /// tags `tags`: the merge block and one block per arm opened, the tag loaded,
    /// then the branch table for the largest tag.
    pub open spec fn spec_switch_head(&self, scrutinee: ValueId, tags: Map<Name, u32>, cases: Seq<SwitchCase>, has_default: bool)
        -> Seq<Instr> {
        let d = spec_default_depth(cases.len(), has_default);
        let m = choose|m: u32| is_max_tag(tags, m);
        self.spec_dispatch_head(scrutinee, cases.len(), has_default)
            + seq![Instr::BrTable(BrTargets::of_seq(spec_switch_targets(tags, cases, (m + 1) as nat, d)), d)]
    }

    /// An error among the first `k` arms stays the error of more arms.
    proof fn lemma_switch_arms_err(&self, cases: Seq<SwitchCase>, k: nat, n: nat, has_default: bool)
        requires
            k <= n <= cases.len(),
            self.spec_switch_arms(cases, k, has_default) is Err,
        ensures
            self.spec_switch_arms(cases, n, has_default) == self.spec_switch_arms(cases, k, has_default),
        decreases n,
    {
        if n > k {
            self.lemma_switch_arms_err(cases, k, (n - 1) as nat, has_default);
        }
    }

    /// The instructions of a switch on `scrutinee` whose arms are simple: its
    /// dispatch (the merge block and one block per arm opened, the tag loaded, the
    /// branch table that sends each tag up to the largest to the last case with that
    /// tag, others to the default), the code of each case's arm and then of the
    /// default's, the end of the merge block, then the merge block where the arms
    /// meet there, or `unreachable` where they all end the function. An unsupported
    /// type error where the scrutinee is no ADT, a missing ADT definition error where
    /// its definition has no layout, unsupported control flow where the largest tag
    /// is `u32::MAX` or the cases exceed 32 bits; else the first error of an arm or
    /// of the merge block.
    pub open spec fn spec_simple_switch(&self, scrutinee: ValueId, cases: Seq<SwitchCase>, default: Option<&BranchTarget>)
        -> Result<Seq<Instr>, ErrorKind> {
        let tail = match self.spec_switch_merge(cases, default) {
            Some(Some(mb)) => match self.spec_leaf_block(mb) {
                Some(l) => chain(Ok(seq![Instr::End]), l),
                None => Ok(seq![Instr::End, Instr::Unreachable]),
            },
            _ => Ok(seq![Instr::End, Instr::Unreachable]),
        };
        match self.spec_value_ty(scrutinee) {
            Ty::Adt { def, .. } => if !self.ctx.adt_layouts@.contains_key(def) {
                Err(ErrorKind::MissingAdtDef)
            } else {
                let tags = self.ctx.adt_layouts@[def].tag_map@;
                if is_max_tag(tags, u32::MAX) || cases.len() > u32::MAX {
                    Err(ErrorKind::UnsupportedControlFlow)
                } else {
                    chain(
                        chain(
                            Ok(self.spec_switch_head(scrutinee, tags, cases, default is Some)),
                            self.spec_switch_arms(cases, cases.len(), default is Some),
                        ),
                        chain(
                            match default {
                                Some(t) => self.spec_switch_arm(*t, 0),
                                None => Ok(Seq::empty()),
                            },
                            tail,
                        ),
                    )
                }
            },
            _ => Err(ErrorKind::UnsupportedType),
        }
    }

    /// The code of an arm of a switch inside a loop whose target block leaves at
    /// once, `depth` blocks inside the switch's merge block: the end of the arm's
    /// enclosing block, the stores of the target's arguments, the block's body, then
    /// the return of its value, `unreachable`, or the stores of its jump's arguments
    /// and a branch out to the loop (by `continue_depth + depth + 1` to the header,
    /// `break_depth + depth + 1` to the exit); or the first error of its body.
    pub open spec fn spec_loop_leaf_arm(
        &self,
        t: BranchTarget,
        depth: int,
        header: BlockId,
        continue_depth: u32,
        break_depth: u32,
    ) -> Result<Seq<Instr>, ErrorKind> {
        let blk = self.kir_func.blocks@[t.block as int];
        chain(
            Ok(seq![Instr::End] + self.spec_emit_block_param_stores(t)),
            chain(
                self.spec_emit_insts(blk.body@),
                Ok(match blk.terminator {
                    Some(Terminator::Return(v)) => self.spec_emit_get(v) + seq![Instr::Return],
                    Some(Terminator::Jump(j)) => self.spec_emit_block_param_stores(j) + seq![Instr::Br(
                        (if j.block == header { continue_depth + depth + 1 } else { break_depth + depth + 1 }) as u32,
                    )],
                    Some(Terminator::Unreachable) => seq![Instr::Unreachable],
                    _ => Seq::empty(),
                }),
            ),
        )
    }

    /// The code of the arms of the first `k` cases of a switch inside a loop, each
    /// as `spec_loop_leaf_arm` gives it at its depth: the number of later cases, and
    /// one more where there is a default; or the first error.
    pub open spec fn spec_loop_leaf_arms(
        &self,
        cases: Seq<SwitchCase>,
        k: nat,
        has_default: bool,
        header: BlockId,
        continue_depth: u32,
        break_depth: u32,
    ) -> Result<Seq<Instr>, ErrorKind>
        decreases k,
    {
        if k == 0 || k > cases.len() {
            Ok(Seq::empty())
        } else {
            chain(
                self.spec_loop_leaf_arms(cases, (k - 1) as nat, has_default, header, continue_depth, break_depth),
                self.spec_loop_leaf_arm(cases[k - 1].target, cases.len() - k + if has_default { 1int } else { 0 },
                    header, continue_depth, break_depth),
            )
        }
    }

    /// An error among the first `k` arms stays the error of more arms.
    proof fn lemma_loop_leaf_arms_err(
        &self,
        cases: Seq<SwitchCase>,
        k: nat,
        n: nat,
        has_default: bool,
        header: BlockId,
        continue_depth: u32,
        break_depth: u32,
    )
        requires
            k <= n <= cases.len(),
            self.spec_loop_leaf_arms(cases, k, has_default, header, continue_depth, break_depth) is Err,
        ensures
            self.spec_loop_leaf_arms(cases, n, has_default, header, continue_depth, break_depth)
                == self.spec_loop_leaf_arms(cases, k, has_default, header, continue_depth, break_depth),
        decreases n,
    {
        if n > k {
            self.lemma_loop_leaf_arms_err(cases, k, (n - 1) as nat, has_default, header, continue_depth, break_depth);
        }
    }

    /// Whether every target of a switch inside a loop leaves at once, and the
    /// branches out to the loop fit in 32 bits.
    pub open spec fn loop_switch_targets_exit(
        &self,
        cases: Seq<SwitchCase>,
        default: Option<&BranchTarget>,
        header: BlockId,
        exit: BlockId,
        continue_depth: u32,
        break_depth: u32,
    ) -> bool {
        &&& cases.len() + continue_depth + 1 <= u32::MAX
        &&& cases.len() + break_depth + 1 <= u32::MAX
        &&& forall|k: int| 0 <= k < cases.len()
            ==> self.spec_loop_switch_target_exits_directly(#[trigger] cases[k].target.block, header, exit)
        &&& (default matches Some(d) ==> self.spec_loop_switch_target_exits_directly(d.block, header, exit))
    }

    /// The instructions of a switch inside a loop whose targets all leave at once:
    /// its dispatch, the code of each case's arm and then of the default's, the end
    /// of the merge block and `unreachable`; the errors as for `spec_simple_switch`.
    pub open spec fn spec_loop_leaf_switch(
        &self,
        scrutinee: ValueId,
        cases: Seq<SwitchCase>,
        default: Option<&BranchTarget>,
        header: BlockId,
        continue_depth: u32,
        break_depth: u32,
    ) -> Result<Seq<Instr>, ErrorKind> {
        match self.spec_value_ty(scrutinee) {
            Ty::Adt { def, .. } => if !self.ctx.adt_layouts@.contains_key(def) {
                Err(ErrorKind::MissingAdtDef)
            } else {
                let tags = self.ctx.adt_layouts@[def].tag_map@;
                if is_max_tag(tags, u32::MAX) || cases.len() > u32::MAX {
                    Err(ErrorKind::UnsupportedControlFlow)
                } else {
                    chain(
                        chain(
                            Ok(self.spec_switch_head(scrutinee, tags, cases, default is Some)),
                            self.spec_loop_leaf_arms(cases, cases.len(), default is Some, header, continue_depth, break_depth),
                        ),
                        chain(
                            match default {
                                Some(t) => self.spec_loop_leaf_arm(*t, 0, header, continue_depth, break_depth),
                                None => Ok(Seq::empty()),
                            },
                            Ok(seq![Instr::End, Instr::Unreachable]),
                        ),
                    )
                }
            },
            _ => Err(ErrorKind::UnsupportedType),
        }
    }

    /// The merge block of the branch that ends block `b`, where its arms are simple
    /// and meet.
    pub open spec fn spec_branch_merge(&self, b: BlockId) -> Option<BlockId> {
        match self.kir_func.blocks@[b as int].terminator {
            Some(Terminator::Branch { then_target, else_target, .. }) => match self.spec_simple_merge(
                then_target.block,
                else_target.block,
            ) {
                Some(Some(mb)) => Some(mb),
                _ => None,
            },
            _ => None,
        }
    }

    /// The instructions of a block whose own control flow is simple: one that ends
    /// the function; one without parameters that branches to two different simple
    /// arms which end the function or meet at another block that ends it (its body,
    /// then the branch); a loop header with parameters whose branch runs a body
    /// block that jumps back to it, or leaves to a block that ends the function (the
    /// loop); or one that switches to targets that all end the function or all jump
    /// to one other block that ends it (its body, then the switch). The first error
    /// where one comes; None for any other block.
    pub open spec fn spec_simple_core(&self, b: BlockId) -> Option<Result<Seq<Instr>, ErrorKind>> {
        match self.spec_leaf_block(b) {
            Some(e) => Some(e),
            None => match self.kir_func.blocks@[b as int].terminator {
                Some(Terminator::Branch { condition, then_target, else_target }) => {
                    if self.kir_func.blocks@[b as int].params@.len() == 0 && then_target.block != else_target.block
                        && self.spec_branch_merge(b) != Some(b) {
                        match self.spec_simple_branch(condition, then_target, else_target) {
                            Some(br) => Some(chain(self.spec_emit_insts(self.kir_func.blocks@[b as int].body@), br)),
                            None => None,
                        }
                    } else if self.kir_func.blocks@[b as int].params@.len() > 0 && then_target.block != b
                        && else_target.block != b && then_target.block != else_target.block {
                        self.spec_simple_loop(b, condition, then_target, else_target)
                    } else {
                        None
                    }
                },
                Some(Terminator::Switch { scrutinee, cases, default }) => if self.spec_switch_merge(cases@, opt_ref(&default)) is Some
                    && self.spec_switch_merge(cases@, opt_ref(&default)) != Some(Some(b)) {
                    Some(chain(
                        self.spec_emit_insts(self.kir_func.blocks@[b as int].body@),
                        self.spec_simple_switch(scrutinee, cases@, opt_ref(&default)),
                    ))
                } else {
                    None
                },
                _ => None,
            },
        }
    }

    /// The blocks that the simple control flow of block `b` enters after `b`: the
    /// merge block of its branch or switch, or the body and exit blocks of its loop.
    pub open spec fn spec_core_visits(&self, b: BlockId) -> Seq<BlockId> {
        match self.kir_func.blocks@[b as int].terminator {
            Some(Terminator::Branch { then_target, else_target, .. }) => if self.kir_func.blocks@[b as int].params@.len() > 0 {
                seq![then_target.block, else_target.block]
            } else {
                match self.spec_branch_merge(b) {
                    Some(mb) => seq![mb],
                    None => Seq::empty(),
                }
            },
            Some(Terminator::Switch { cases, default, .. }) => match self.spec_switch_merge(cases@, opt_ref(&default)) {
                Some(Some(mb)) => seq![mb],
                _ => Seq::empty(),
            },
            _ => Seq::empty(),
        }
    }

    /// The instructions of a block whose control flow is simple: a block with
    /// simple control flow of its own, or one that jumps to another such block (its
    /// body, the stores of the jump's arguments, then that block's instructions).
    pub open spec fn spec_simple_block(&self, b: BlockId) -> Option<Result<Seq<Instr>, ErrorKind>> {
        match self.spec_simple_core(b) {
            Some(e) => Some(e),
            None => match self.kir_func.blocks@[b as int].terminator {
                Some(Terminator::Jump(t)) => if t.block != b && !self.spec_core_visits(t.block).contains(b) {
                    match self.spec_simple_core(t.block) {
                        Some(c) => Some(chain(
                            self.spec_emit_insts(self.kir_func.blocks@[b as int].body@),
                            chain(Ok(self.spec_emit_block_param_stores(t)), c),
                        )),
                        None => None,
                    }
                } else {
                    None
                },
                _ => None,
            },
        }
    }

    /// The blocks that the simple control flow of block `b` enters after `b`.
    pub open spec fn spec_entered(&self, b: BlockId) -> Seq<BlockId> {
        if self.spec_simple_core(b) is Some {
            self.spec_core_visits(b)
        } else {
            match self.kir_func.blocks@[b as int].terminator {
                Some(Terminator::Jump(t)) => seq![t.block] + self.spec_core_visits(t.block),
                _ => Seq::empty(),
            }
        }
    }

    /// The blocks that simple control flow enters are blocks of the function.
    proof fn lemma_visits_below(&self, b: BlockId)
        requires
            self.cf_wf(),
            b < self.num_blocks(),
        ensures
            forall|k: int| 0 <= k < self.spec_core_visits(b).len() ==> #[trigger] self.spec_core_visits(b)[k] < self.num_blocks(),
    {
        let f = self.kir_func;
        if let Some(Terminator::Branch { then_target, else_target, .. }) = f.blocks@[b as int].terminator {
            assert(crate::control::spec_succs(f, b)[0] == then_target.block);
            assert(crate::control::spec_succs(f, b)[1] == else_target.block);
        }
    }

    /// The blocks that the simple control flow of a block enters are blocks of the
    /// function.
    proof fn lemma_entered_below(&self, b: BlockId)
        requires
            self.cf_wf(),
            b < self.num_blocks(),
        ensures
            forall|k: int| 0 <= k < self.spec_entered(b).len() ==> #[trigger] self.spec_entered(b)[k] < self.num_blocks(),
    {
        let f = self.kir_func;
        self.lemma_visits_below(b);
        if self.spec_simple_core(b) is None {
            if let Some(Terminator::Jump(t)) = f.blocks@[b as int].terminator {
                assert(crate::control::spec_succs(f, b)[0] == t.block);
                self.lemma_visits_below(t.block);
                assert forall|k: int| 0 <= k < self.spec_entered(b).len() implies #[trigger] self.spec_entered(b)[k] < self.num_blocks() by {
                    if k > 0 {
                        assert(self.spec_entered(b)[k] == self.spec_core_visits(t.block)[k - 1]);
                    }
                }
            }
        }
    }

    /// A block whose control flow is simple does not enter itself again.
    proof fn lemma_entered_not_self(&self, b: BlockId)
        requires
            self.spec_simple_block(b) is Some,
        ensures
            !self.spec_entered(b).contains(b),
    {
        let f = self.kir_func;
        if self.spec_simple_core(b) is Some {
            if let Some(Terminator::Branch { then_target, else_target, .. }) = f.blocks@[b as int].terminator {
                if f.blocks@[b as int].params@.len() > 0 {
                    assert(self.spec_core_visits(b) =~= seq![then_target.block, else_target.block]);
                }
            }
        } else {
            if let Some(Terminator::Jump(t)) = f.blocks@[b as int].terminator {
                if self.spec_entered(b).contains(b) {
                    let k = choose|k: int| 0 <= k < self.spec_entered(b).len() && self.spec_entered(b)[k] == b;
                    if k > 0 {
                        assert(self.spec_core_visits(t.block)[k - 1] == b);
                        assert(self.spec_core_visits(t.block).contains(b));
                    }
                }
            }
        }
    }

    /// A simple loop's branch sends control into the body block, which reaches the
    /// header, and out through the exit block, which does not.
    proof fn lemma_simple_loop_classified(&self, h: BlockId, then_target: BranchTarget, else_target: BranchTarget)
        requires
            self.cf_wf(),
            h < self.num_blocks(),
            then_target.block < self.num_blocks(),
            else_target.block < self.num_blocks(),
            self.kir_func.blocks@[h as int].params@.len() > 0,
            else_target.block != h,
            self.spec_back_jump(then_target.block, h, 1) is Some,
            self.spec_leaf_block(else_target.block) is Some,
        ensures
            self.spec_classify_loop_branch(h, then_target.block, else_target.block) == Some(true),
    {
        let f = self.kir_func;
        assert(crate::control::spec_succs(f, then_target.block)[0] == h);
        crate::control::lemma_reaches_successor(f, then_target.block, h);
        if crate::control::reaches(f, else_target.block, h) {
            crate::control::lemma_dead_end_reaches_only_itself(f, else_target.block, h);
        }
    }

    /// What emitting block `b` inside a loop with header `header` and exit `exit`
    /// does, from instructions `o0` and emitted flags `e0` to `o1` and `e1` with
    /// outcome `r`: the header is `br continue_depth`, the exit `br break_depth`, a
    /// block already emitted adds nothing; any other block is marked emitted, and on
    /// success it has a terminator and its body's instructions come first.
    pub open spec fn loop_chain_outcome(
        &self,
        b: BlockId,
        header: BlockId,
        exit: BlockId,
        continue_depth: u32,
        break_depth: u32,
        o0: Seq<Instr>,
        o1: Seq<Instr>,
        e0: Seq<bool>,
        e1: Seq<bool>,
        r: Result<(), CodegenError>,
    ) -> bool {
        if b == header {
            r is Ok && o1 == o0.push(Instr::Br(continue_depth)) && e1 == e0
        } else if b == exit {
            r is Ok && o1 == o0.push(Instr::Br(break_depth)) && e1 == e0
        } else if e0[b as int] {
            r is Ok && o1 == o0 && e1 == e0
        } else {
            &&& e1[b as int]
            &&& r is Ok ==> self.kir_func.blocks@[b as int].terminator is Some
                && (self.spec_emit_insts(self.kir_func.blocks@[b as int].body@) matches Ok(s) && extends(o0 + s, o1))
        }
    }

    /// Whether `o1` is `o0` followed by a branch inside a loop on `condition`: the
    /// condition, an `if`, the then arm's stores and code `a1`, an `else`, the else
    /// arm's stores and code `a2`, an `end`, then the code `tail` of the merge block.
    /// An arm that jumps to the loop header is one branch out by `continue_depth + 1`,
    /// an arm that jumps to the exit one branch out by `break_depth + 1`.
    pub open spec fn loop_if_shape(
        &self,
        o0: Seq<Instr>,
        o1: Seq<Instr>,
        condition: ValueId,
        then_target: BranchTarget,
        else_target: BranchTarget,
        header: BlockId,
        exit: BlockId,
        continue_depth: u32,
        break_depth: u32,
        a1: Seq<Instr>,
        a2: Seq<Instr>,
        tail: Seq<Instr>,
    ) -> bool {
        &&& o1 == o0 + self.spec_emit_get(condition) + seq![Instr::If(BlockTy::Empty)]
            + self.spec_emit_block_param_stores(then_target) + a1 + seq![Instr::Else]
            + self.spec_emit_block_param_stores(else_target) + a2 + seq![Instr::End] + tail
        &&& then_target.block == header ==> a1 == seq![Instr::Br((continue_depth + 1) as u32)]
        &&& then_target.block != header && then_target.block == exit ==> a1 == seq![Instr::Br((break_depth + 1) as u32)]
        &&& else_target.block == header ==> a2 == seq![Instr::Br((continue_depth + 1) as u32)]
        &&& else_target.block != header && else_target.block == exit ==> a2 == seq![Instr::Br((break_depth + 1) as u32)]
    }

    /// Whether none of `bs` is emitted or the block to stop at.
    pub open spec fn fresh_blocks(bs: Seq<BlockId>, emitted: Seq<bool>, stop_at: Option<BlockId>) -> bool {
        forall|k: int| 0 <= k < bs.len() ==> !emitted[#[trigger] bs[k] as int] && stop_at != Some(bs[k])
    }


}

impl<'a> FuncCodegen<'a> {
    /// Emit the function body as structured control flow from the entry block; a
    /// missing entry block error where the function has no blocks in reverse
    /// postorder.
    pub(crate) fn emit_body(&self, out: &mut Vec<Instr>) -> (r: Result<(), CodegenError>)
        requires
            self.cf_wf(),
        ensures
            r is Ok ==> extends(old(out)@, final(out)@),
            self.spec_simple_block(self.kir_func.entry_block) matches Some(e) ==> emits(r, old(out)@, final(out)@, e),
    {
        let rpo = reverse_postorder(self.kir_func);
        proof {
            lemma_reverse_postorder(self.kir_func);
        }
        if rpo.len() == 0 {
            return Err(CodegenError::MissingEntryBlock);
        }
        self.emit_structured(out, rpo.as_slice())
    }

    /// Emit structured control flow for the function, starting at its entry block
    /// with no block emitted yet.
    pub(crate) fn emit_structured(&self, out: &mut Vec<Instr>, rpo: &[BlockId]) -> (r: Result<(), CodegenError>)
        requires
            self.cf_wf(),
        ensures
            r is Ok ==> extends(old(out)@, final(out)@),
            self.spec_simple_block(self.kir_func.entry_block) matches Some(e) ==> emits(r, old(out)@, final(out)@, e),
    {
        let n = self.kir_func.blocks.len();
        let mut emitted: Vec<bool> = Vec::new();
        let mut k: usize = 0;
        while k < n
            invariant
                0 <= k <= n,
                emitted@ == Seq::new(k as nat, |i: int| false),
            decreases n - k,
        {
            emitted.push(false);
            k = k + 1;
            assert(emitted@ =~= Seq::new(k as nat, |i: int| false));
        }
        proof {
            self.lemma_entered_below(self.kir_func.entry_block);
            assert(Self::fresh_blocks(self.spec_entered(self.kir_func.entry_block), emitted@, None));
        }
        self.emit_block_chain(out, self.kir_func.entry_block, None, &mut emitted, u64::MAX)
    }

    /// Emit block `block_id` and what follows it, stopping at `stop_at` (a merge
    /// block that an outer branch or switch owns) and at blocks already emitted.
    #[verifier::rlimit(40)]
    #[verifier::spinoff_prover]
    pub(crate) fn emit_block_chain(
        &self,
        out: &mut Vec<Instr>,
        block_id: BlockId,
        stop_at: Option<BlockId>,
        emitted: &mut Vec<bool>,
        fuel: u64,
    ) -> (r: Result<(), CodegenError>)
        requires
            self.cf_wf(),
            old(emitted)@.len() == self.num_blocks(),
            block_id < self.num_blocks(),
        ensures
            cf_post(r, old(out)@, final(out)@, old(emitted)@, final(emitted)@),
            r is Ok && stop_at != Some(block_id) ==> final(emitted)@[block_id as int],
            fuel > 1 && stop_at != Some(block_id) && !old(emitted)@[block_id as int] ==> (
                self.spec_leaf_block(block_id) matches Some(e) ==> emits(r, old(out)@, final(out)@, e)),
            fuel > 10 && stop_at != Some(block_id) && !old(emitted)@[block_id as int]
                && Self::fresh_blocks(self.spec_core_visits(block_id), old(emitted)@, stop_at) ==> (
                self.spec_simple_core(block_id) matches Some(e) ==> emits(r, old(out)@, final(out)@, e)),
            fuel > 12 && stop_at != Some(block_id) && !old(emitted)@[block_id as int]
                && Self::fresh_blocks(self.spec_entered(block_id), old(emitted)@, stop_at) ==> (
                self.spec_simple_block(block_id) matches Some(e) ==> emits(r, old(out)@, final(out)@, e)),
        decreases fuel, 2u64,
    {
        if fuel == 0 {
            return Err(too_deep());
        }
        if stop_at == Some(block_id) || emitted[block_id as usize] {
            return Ok(());
        }
        mark(emitted, block_id);
        let ghost mid = emitted@;
        proof {
            self.lemma_block_ok(block_id);
        }
        let block = &self.kir_func.blocks[block_id as usize];
        let term = match &block.terminator {
            Some(t) => t,
            None => {
                return Err(missing_terminator());
            },
        };
        let ghost fresh = stop_at != Some(block_id) && !old(emitted)@[block_id as int]
            && Self::fresh_blocks(self.spec_entered(block_id), old(emitted)@, stop_at)
            && ((fuel > 10 && self.spec_simple_core(block_id) is Some) || fuel > 12);
        proof {
            if self.spec_simple_core(block_id) is Some {
                assert(self.spec_entered(block_id) == self.spec_core_visits(block_id));
                assert(self.spec_simple_block(block_id) == self.spec_simple_core(block_id));
            }
        }
        proof {
            self.lemma_entered_below(block_id);
            if fresh && self.spec_simple_block(block_id) is Some {
                assert forall|k: int| 0 <= k < self.spec_entered(block_id).len() implies !mid[#[trigger] self.spec_entered(block_id)[k] as int] by {
                    assert(self.spec_entered(block_id)[k] != block_id) by {
                        self.lemma_entered_not_self(block_id);
                    }
                }
            }
        }
        if let Terminator::Branch { condition, then_target, else_target } = term {
            proof {
                if self.kir_func.blocks@[block_id as int].params@.len() > 0 && then_target.block != block_id
                    && else_target.block != block_id && then_target.block != else_target.block
                    && self.spec_simple_loop(block_id, *condition, *then_target, *else_target) is Some {
                    self.lemma_simple_loop_classified(block_id, *then_target, *else_target);
                }
            }
            if let Some((body_target, exit_target)) = self.classify_loop_branch(block_id, then_target, else_target) {
                let r = self.emit_loop(out, block_id, *condition, body_target, exit_target, stop_at, emitted, fuel - 1);
                assert(mid[block_id as int]);
                proof {
                    if fresh && self.spec_simple_block(block_id) is Some && self.kir_func.blocks@[block_id as int].params@.len() > 0 {
                        assert(self.spec_entered(block_id)[0] == then_target.block);
                        assert(self.spec_entered(block_id)[1] == else_target.block);
                    }
                }
                return r;
            }
        }
        let ghost before = out@;
        self.body_ext(out, block_id)?;
        let ghost after_body = out@;
        proof {
            if fresh && self.spec_simple_block(block_id) is Some {
                if let Some(mb) = self.spec_branch_merge(block_id) {
                    if self.kir_func.blocks@[block_id as int].params@.len() == 0 && self.spec_simple_core(block_id) is Some
                        && self.spec_leaf_block(block_id) is None {
                        assert(self.spec_entered(block_id)[0] == mb);
                    }
                }
                if let Terminator::Switch { cases, default, .. } = term {
                    if self.spec_simple_core(block_id) is Some && self.spec_leaf_block(block_id) is None {
                        if let Some(Some(mb)) = self.spec_switch_merge(cases@, opt_ref(default)) {
                            assert(self.spec_entered(block_id)[0] == mb);
                        }
                    }
                }
                if let Terminator::Jump(t) = term {
                    if self.spec_simple_core(block_id) is None {
                        assert(self.spec_entered(block_id)[0] == t.block);
                        assert forall|k: int| 0 <= k < self.spec_core_visits(t.block).len() implies
                            !mid[#[trigger] self.spec_core_visits(t.block)[k] as int] && stop_at != Some(self.spec_core_visits(t.block)[k]) by {
                            assert(self.spec_entered(block_id)[k + 1] == self.spec_core_visits(t.block)[k]);
                        }
                    }
                }
            }
        }
        let r = self.emit_terminator(out, term, stop_at, emitted, fuel - 1);
        assert(mid[block_id as int]);
        proof {
            if fuel > 1 {
                if let Ok(s) = self.spec_emit_insts(block.body@) {
                    assert(after_body == before + s);
                    match term {
                        Terminator::Return(v) => {
                            assert(out@ =~= before + (s + (self.spec_emit_get(*v) + seq![Instr::Return])));
                        },
                        Terminator::Unreachable => {
                            assert(out@ =~= before + (s + seq![Instr::Unreachable]));
                        },
                        Terminator::Branch { condition, then_target, else_target } => {
                            if fresh && self.spec_simple_block(block_id) is Some && self.spec_leaf_block(block_id) is None {
                                if let Some(Ok(br)) = self.spec_simple_branch(*condition, *then_target, *else_target) {
                                    if r is Ok {
                                        assert(out@ =~= before + (s + br));
                                    }
                                }
                            }
                        },
                        Terminator::Switch { scrutinee, cases, default } => {
                            if fresh && self.spec_simple_block(block_id) is Some && self.spec_leaf_block(block_id) is None {
                                if let Ok(sw) = self.spec_simple_switch(*scrutinee, cases@, opt_ref(default)) {
                                    if r is Ok {
                                        assert(out@ =~= before + (s + sw));
                                    }
                                }
                            }
                        },
                        Terminator::Jump(t) => {
                            if fresh && self.spec_simple_block(block_id) is Some {
                                if let Some(Ok(c)) = self.spec_simple_core(t.block) {
                                    if r is Ok {
                                        assert(out@ =~= before + (s + (self.spec_emit_block_param_stores(*t) + c)));
                                    }
                                }
                            }
                        },
                        _ => {},
                    }
                }
            }
        }
        r
    }

    /// Emit the terminator of a block in a chain.
    fn emit_terminator(
        &self,
        out: &mut Vec<Instr>,
        term: &Terminator,
        stop_at: Option<BlockId>,
        emitted: &mut Vec<bool>,
        fuel: u64,
    ) -> (r: Result<(), CodegenError>)
        requires
            self.cf_wf(),
            old(emitted)@.len() == self.num_blocks(),
            self.term_ok(*term),
        ensures
            cf_post(r, old(out)@, final(out)@, old(emitted)@, final(emitted)@),
            fuel > 0 ==> (term matches Terminator::Return(v) ==> r is Ok
                && final(out)@ == old(out)@ + self.spec_emit_get(*v) + seq![Instr::Return]),
            fuel > 0 && term is Unreachable ==> r is Ok && final(out)@ == old(out)@ + seq![Instr::Unreachable],
            fuel > 3 ==> (term matches Terminator::Branch { condition, then_target, else_target } ==> (
                then_target.block != else_target.block
                    && self.spec_simple_branch(*condition, *then_target, *else_target) is Some
                    && (self.spec_simple_merge(then_target.block, else_target.block) matches Some(Some(mb))
                        ==> !old(emitted)@[mb as int] && stop_at != Some(mb))
                    ==> emits(r, old(out)@, final(out)@, self.spec_simple_branch(*condition, *then_target, *else_target).unwrap()))),
            fuel > 3 ==> (term matches Terminator::Switch { scrutinee, cases, default } ==> (
                self.spec_switch_merge(cases@, opt_ref(default)) matches Some(m)
                    && (m matches Some(mb) ==> !old(emitted)@[mb as int] && stop_at != Some(mb))
                    ==> emits(r, old(out)@, final(out)@, self.spec_simple_switch(*scrutinee, cases@, opt_ref(default))))),
            fuel > 11 ==> (term matches Terminator::Jump(t) ==> (
                self.spec_simple_core(t.block) is Some && stop_at != Some(t.block) && !old(emitted)@[t.block as int]
                    && Self::fresh_blocks(self.spec_core_visits(t.block), old(emitted)@, stop_at)
                    ==> emits(r, old(out)@, final(out)@, chain(Ok(self.spec_emit_block_param_stores(*t)), self.spec_simple_core(t.block).unwrap())))),
        decreases fuel, 1u64,
    {
        if fuel == 0 {
            return Err(too_deep());
        }
        match term {
            Terminator::Return(val) => {
                self.get_ext(out, *val);
                push(out, Instr::Return);
                Ok(())
            },
            Terminator::Unreachable => {
                push(out, Instr::Unreachable);
                Ok(())
            },
            Terminator::Jump(target) => {
                proof {
                    self.lemma_block_ok(target.block);
                }
                let ghost o = out@;
                self.stores_ext(out, target)?;
                let ghost o1 = out@;
                proof {
                    if self.spec_simple_core(target.block) is Some {
                        assert(self.spec_entered(target.block) == self.spec_core_visits(target.block));
                        assert(self.spec_simple_block(target.block) == self.spec_simple_core(target.block));
                    }
                }
                let r = self.emit_block_chain(out, target.block, stop_at, emitted, fuel - 1);
                proof {
                    if fuel > 11 && self.spec_simple_core(target.block) is Some && stop_at != Some(target.block)
                        && !old(emitted)@[target.block as int]
                        && Self::fresh_blocks(self.spec_core_visits(target.block), old(emitted)@, stop_at) {
                        if let Some(Ok(c)) = self.spec_simple_core(target.block) {
                            if r is Ok {
                                assert(out@ =~= o + (self.spec_emit_block_param_stores(*target) + c));
                            }
                        }
                    }
                }
                r
            },
            Terminator::Branch { condition, then_target, else_target } => {
                self.emit_branch(out, *condition, then_target, else_target, stop_at, emitted, fuel - 1)
            },
            Terminator::Switch { scrutinee, cases, default } => {
                let d = default.as_ref();
                assert(d == opt_ref(default));
                self.emit_switch(out, *scrutinee, cases.as_slice(), d, stop_at, emitted, fuel - 1)
            },
        }
    }

    /// Copy the emitted flags.
    fn copy_flags(flags: &Vec<bool>) -> (r: Vec<bool>)
        ensures
            r@ == flags@,
    {
        let mut r: Vec<bool> = Vec::new();
        let mut i: usize = 0;
        while i < flags.len()
            invariant
                0 <= i <= flags@.len(),
                r@ == flags@.take(i as int),
            decreases flags@.len() - i,
        {
            r.push(flags[i]);
            i = i + 1;
            assert(r@ =~= flags@.take(i as int));
        }
        assert(flags@.take(i as int) =~= flags@);
        r
    }

    /// Emit a loop whose header `header` branches on `condition` into the loop body
    /// or out to the exit, then what follows the exit.
    #[verifier::rlimit(40)]
    #[verifier::spinoff_prover]
    pub(crate) fn emit_loop(
        &self,
        out: &mut Vec<Instr>,
        header: BlockId,
        condition: ValueId,
        body_target: &BranchTarget,
        exit_target: &BranchTarget,
        outer_stop: Option<BlockId>,
        emitted: &mut Vec<bool>,
        fuel: u64,
    ) -> (r: Result<(), CodegenError>)
        requires
            self.cf_wf(),
            old(emitted)@.len() == self.num_blocks(),
            header < self.num_blocks(),
            self.value_ok(condition),
            self.target_ok(*body_target),
            self.target_ok(*exit_target),
        ensures
            cf_post(r, old(out)@, final(out)@, old(emitted)@, final(emitted)@),
            fuel > 2 && body_target.block != header && body_target.block != exit_target.block
                && exit_target.block != header && !old(emitted)@[body_target.block as int]
                && !old(emitted)@[exit_target.block as int] && outer_stop != Some(exit_target.block) ==> (
                self.spec_simple_loop(header, condition, *body_target, *exit_target) matches Some(e)
                    ==> emits(r, old(out)@, final(out)@, e)),
        decreases fuel, 0u64,
    {
        if fuel == 0 {
            return Err(too_deep());
        }
        proof {
            self.lemma_block_ok(body_target.block);
            self.lemma_block_ok(exit_target.block);
        }
        let ghost o = out@;
        push(out, Instr::Block(BlockTy::Empty));
        push(out, Instr::Loop(BlockTy::Empty));
        self.body_ext(out, header)?;
        let ghost o1 = out@;
        self.get_ext(out, condition);
        push(out, Instr::If(BlockTy::Empty));
        self.stores_ext(out, body_target)?;
        let ghost o2 = out@;
        let mut loop_emitted = Self::copy_flags(emitted);
        self.emit_loop_block_chain(out, body_target.block, header, exit_target.block, 1, 2, &mut loop_emitted, fuel - 1)?;
        let ghost o3 = out@;
        push(out, Instr::Else);
        self.stores_ext(out, exit_target)?;
        push(out, Instr::Br(2));
        push(out, Instr::End);
        push(out, Instr::End);
        push(out, Instr::End);
        let ghost o4 = out@;
        let ghost before_union = emitted@;
        let mut i: usize = 0;
        while i < loop_emitted.len()
            invariant
                loop_emitted@.len() == before_union.len(),
                emitted@.len() == before_union.len(),
                0 <= i <= loop_emitted@.len(),
                emitted_grows(before_union, emitted@),
                forall|j: int| 0 <= j < before_union.len() ==> #[trigger] emitted@[j] == (before_union[j] || (j < i && loop_emitted@[j])),
            decreases loop_emitted@.len() - i,
        {
            if loop_emitted[i] {
                emitted.set(i, true);
            }
            i = i + 1;
        }
        let r = self.emit_block_chain(out, exit_target.block, outer_stop, emitted, fuel - 1);
        proof {
            if fuel > 2 && body_target.block != header && body_target.block != exit_target.block
                && exit_target.block != header && !before_union[body_target.block as int]
                && !before_union[exit_target.block as int] && outer_stop != Some(exit_target.block) {
                if let Some(_) = self.spec_simple_loop(header, condition, *body_target, *exit_target) {
                    let hb = self.spec_emit_insts(self.kir_func.blocks@[header as int].body@);
                    let arm = self.spec_back_jump(body_target.block, header, 1).unwrap();
                    let ex = self.spec_leaf_block(exit_target.block).unwrap();
                    if let (Ok(hs), Ok(arms), Ok(exs)) = (hb, arm, ex) {
                        let x1 = seq![Instr::Block(BlockTy::Empty), Instr::Loop(BlockTy::Empty)];
                        let x2 = self.spec_emit_get(condition) + seq![Instr::If(BlockTy::Empty)]
                            + self.spec_emit_block_param_stores(*body_target);
                        let x3 = seq![Instr::Else] + self.spec_emit_block_param_stores(*exit_target)
                            + seq![Instr::Br(2), Instr::End, Instr::End, Instr::End];
                        assert(o2 =~= o + (x1 + (hs + x2)));
                        assert(o4 =~= o + (((x1 + (hs + x2)) + arms) + x3));
                        if r is Ok {
                            assert(out@ =~= o + ((((x1 + (hs + x2)) + arms) + x3) + exs));
                        }
                    }
                }
            }
        }
        r
    }

    /// Emit block `block_id` and what follows it inside a loop: a jump back to the
    /// header continues the loop (`br continue_depth`), a jump to the exit leaves it
    /// (`br break_depth`).
    #[verifier::rlimit(40)]
    #[verifier::spinoff_prover]
    pub(crate) fn emit_loop_block_chain(
        &self,
        out: &mut Vec<Instr>,
        block_id: BlockId,
        header: BlockId,
        exit: BlockId,
        continue_depth: u32,
        break_depth: u32,
        emitted: &mut Vec<bool>,
        fuel: u64,
    ) -> (r: Result<(), CodegenError>)
        requires
            self.cf_wf(),
            old(emitted)@.len() == self.num_blocks(),
            block_id < self.num_blocks(),
        ensures
            cf_post(r, old(out)@, final(out)@, old(emitted)@, final(emitted)@),
            fuel > 0 ==> self.loop_chain_outcome(block_id, header, exit, continue_depth, break_depth,
                old(out)@, final(out)@, old(emitted)@, final(emitted)@, r),
            fuel > 1 && block_id != header && block_id != exit && !old(emitted)@[block_id as int] ==> (
                self.spec_back_jump(block_id, header, continue_depth) matches Some(e) ==> (
                emits(r, old(out)@, final(out)@, e) && final(emitted)@ == old(emitted)@.update(block_id as int, true))),
        decreases fuel, 2u64,
    {
        if fuel == 0 {
            return Err(too_deep());
        }
        if block_id == header {
            push(out, Instr::Br(continue_depth));
            return Ok(());
        }
        if block_id == exit {
            push(out, Instr::Br(break_depth));
            return Ok(());
        }
        if emitted[block_id as usize] {
            return Ok(());
        }
        mark(emitted, block_id);
        proof {
            self.lemma_block_ok(block_id);
        }
        let ghost before_body = out@;
        self.body_ext(out, block_id)?;
        let ghost after_body = out@;
        let block = &self.kir_func.blocks[block_id as usize];
        let term = match &block.terminator {
            Some(t) => t,
            None => {
                return Err(missing_terminator());
            },
        };
        let r = match term {
            Terminator::Return(val) => {
                self.get_ext(out, *val);
                push(out, Instr::Return);
                Ok(())
            },
            Terminator::Unreachable => {
                push(out, Instr::Unreachable);
                Ok(())
            },
            Terminator::Jump(target) => {
                proof {
                    self.lemma_block_ok(target.block);
                }
                let ghost o1 = out@;
                self.stores_ext(out, target)?;
                let r = self.emit_loop_block_chain(out, target.block, header, exit, continue_depth, break_depth, emitted, fuel - 1);
                proof {
                    if fuel > 1 && target.block == header {
                        if let Ok(bs) = self.spec_emit_insts(block.body@) {
                            assert(out@ =~= before_body + (bs + (self.spec_emit_block_param_stores(*target) + seq![Instr::Br(continue_depth)])));
                        }
                    }
                }
                r
            },
            Terminator::Branch { condition, then_target, else_target } => {
                self.emit_loop_branch(out, *condition, then_target, else_target, header, exit, continue_depth, break_depth, emitted, fuel - 1)
            },
            Terminator::Switch { scrutinee, cases, default } => {
                self.emit_loop_switch(
                    out,
                    *scrutinee,
                    cases.as_slice(),
                    default.as_ref(),
                    block_id,
                    header,
                    exit,
                    continue_depth,
                    break_depth,
                    emitted,
                    fuel - 1,
                )
            },
        };
        assert(r is Ok ==> extends(after_body, out@));
        r
    }

    /// Emit a branch inside a loop: both arms in an `if`, then the merge block.
    #[verifier::rlimit(40)]
    #[verifier::spinoff_prover]
    pub(crate) fn emit_loop_branch(
        &self,
        out: &mut Vec<Instr>,
        condition: ValueId,
        then_target: &BranchTarget,
        else_target: &BranchTarget,
        header: BlockId,
        exit: BlockId,
        continue_depth: u32,
        break_depth: u32,
        emitted: &mut Vec<bool>,
        fuel: u64,
    ) -> (r: Result<(), CodegenError>)
        requires
            self.cf_wf(),
            old(emitted)@.len() == self.num_blocks(),
            self.value_ok(condition),
            self.target_ok(*then_target),
            self.target_ok(*else_target),
        ensures
            cf_post(r, old(out)@, final(out)@, old(emitted)@, final(emitted)@),
            continue_depth == u32::MAX || break_depth == u32::MAX ==> (r matches Err(e) && e is UnsupportedControlFlow
                && final(out)@ == old(out)@ && final(emitted)@ == old(emitted)@),
            fuel > 2 && r is Ok ==> exists|a1: Seq<Instr>, a2: Seq<Instr>, tail: Seq<Instr>|
                #[trigger] self.loop_if_shape(old(out)@, final(out)@, condition, *then_target, *else_target, header, exit,
                    continue_depth, break_depth, a1, a2, tail)
                && ((forall|b: BlockId| b < self.num_blocks() && b != header && b != exit
                    ==> !(reaches(self.kir_func, then_target.block, b) && reaches(self.kir_func, else_target.block, b)))
                    ==> tail == Seq::<Instr>::empty()),
            fuel > 2 && r is Ok && then_target.block != header && then_target.block != exit
                ==> final(emitted)@[then_target.block as int],
            fuel > 2 && r is Ok && else_target.block != header && else_target.block != exit
                ==> final(emitted)@[else_target.block as int],
        decreases fuel, 0u64,
    {
        if fuel == 0 {
            return Err(too_deep());
        }
        let merge_id = self.find_loop_branch_merge(then_target, else_target, header, exit);
        let inner_continue = match continue_depth.checked_add(1) {
            Some(d) => d,
            None => {
                return Err(too_deep());
            },
        };
        let inner_break = match break_depth.checked_add(1) {
            Some(d) => d,
            None => {
                return Err(too_deep());
            },
        };
        let ghost o0 = out@;
        self.get_ext(out, condition);
        push(out, Instr::If(BlockTy::Empty));
        let ghost p1 = out@ + self.spec_emit_block_param_stores(*then_target);
        self.emit_loop_branch_arm(out, then_target, merge_id, header, exit, inner_continue, inner_break, emitted, fuel - 1)?;
        let ghost p2 = out@;
        let ghost e2 = emitted@;
        push(out, Instr::Else);
        let ghost p3 = out@ + self.spec_emit_block_param_stores(*else_target);
        self.emit_loop_branch_arm(out, else_target, merge_id, header, exit, inner_continue, inner_break, emitted, fuel - 1)?;
        let ghost p4 = out@;
        let ghost e4 = emitted@;
        push(out, Instr::End);
        let ghost p5 = out@;
        if let Some(merge_id) = merge_id {
            self.emit_loop_block_chain(out, merge_id, header, exit, continue_depth, break_depth, emitted, fuel - 1)?;
        }
        proof {
            if fuel > 2 {
                assert(extends(p1, p2));
                assert(extends(p3, p4));
                let a1 = p2.subrange(p1.len() as int, p2.len() as int);
                let a2 = p4.subrange(p3.len() as int, p4.len() as int);
                let tail = out@.subrange(p5.len() as int, out@.len() as int);
                assert(p2 =~= p1 + a1);
                assert(p4 =~= p3 + a2);
                assert(out@ =~= p5 + tail);
                assert(out@ =~= o0 + self.spec_emit_get(condition) + seq![Instr::If(BlockTy::Empty)]
                    + self.spec_emit_block_param_stores(*then_target) + a1 + seq![Instr::Else]
                    + self.spec_emit_block_param_stores(*else_target) + a2 + seq![Instr::End] + tail);
                if then_target.block == header {
                    assert(a1 =~= seq![Instr::Br((continue_depth + 1) as u32)]);
                } else if then_target.block == exit {
                    assert(a1 =~= seq![Instr::Br((break_depth + 1) as u32)]);
                }
                if else_target.block == header {
                    assert(a2 =~= seq![Instr::Br((continue_depth + 1) as u32)]);
                } else if else_target.block == exit {
                    assert(a2 =~= seq![Instr::Br((break_depth + 1) as u32)]);
                }
                if merge_id is None {
                    assert(tail =~= Seq::<Instr>::empty());
                }
                assert(self.loop_if_shape(o0, out@, condition, *then_target, *else_target, header, exit,
                    continue_depth, break_depth, a1, a2, tail));
                if then_target.block != header && then_target.block != exit {
                    assert(e2[then_target.block as int] || Some(then_target.block) == merge_id);
                }
                if else_target.block != header && else_target.block != exit {
                    assert(e4[else_target.block as int] || Some(else_target.block) == merge_id);
                }
            }
        }
        Ok(())
    }

    /// Emit one arm of a branch inside a loop.
    pub(crate) fn emit_loop_branch_arm(
        &self,
        out: &mut Vec<Instr>,
        target: &BranchTarget,
        merge_id: Option<BlockId>,
        header: BlockId,
        exit: BlockId,
        continue_depth: u32,
        break_depth: u32,
        emitted: &mut Vec<bool>,
        fuel: u64,
    ) -> (r: Result<(), CodegenError>)
        requires
            self.cf_wf(),
            old(emitted)@.len() == self.num_blocks(),
            self.target_ok(*target),
        ensures
            cf_post(r, old(out)@, final(out)@, old(emitted)@, final(emitted)@),
            fuel > 0 && Some(target.block) == merge_id ==> r is Ok
                && final(out)@ == old(out)@ + self.spec_emit_block_param_stores(*target)
                && final(emitted)@ == old(emitted)@,
            fuel > 1 && Some(target.block) != merge_id ==> self.loop_chain_outcome(target.block, header, exit,
                continue_depth, break_depth, old(out)@ + self.spec_emit_block_param_stores(*target), final(out)@,
                old(emitted)@, final(emitted)@, r),
        decreases fuel, 1u64,
    {
        if fuel == 0 {
            return Err(too_deep());
        }
        proof {
            self.lemma_block_ok(target.block);
        }
        if Some(target.block) == merge_id {
            self.stores_ext(out, target)?;
            return Ok(());
        }
        self.stores_ext(out, target)?;
        self.emit_loop_block_chain(out, target.block, header, exit, continue_depth, break_depth, emitted, fuel - 1)
    }

    /// Emit a branch: both arms in an `if`, each stopping at the merge block, then
    /// the merge block; `unreachable` where the arms do not meet.
    pub(crate) fn emit_branch(
        &self,
        out: &mut Vec<Instr>,
        condition: ValueId,
        then_target: &BranchTarget,
        else_target: &BranchTarget,
        outer_stop: Option<BlockId>,
        emitted: &mut Vec<bool>,
        fuel: u64,
    ) -> (r: Result<(), CodegenError>)
        requires
            self.cf_wf(),
            old(emitted)@.len() == self.num_blocks(),
            self.value_ok(condition),
            self.target_ok(*then_target),
            self.target_ok(*else_target),
        ensures
            cf_post(r, old(out)@, final(out)@, old(emitted)@, final(emitted)@),
            fuel > 2 && then_target.block != else_target.block ==> (
                self.spec_simple_branch(condition, *then_target, *else_target) matches Some(e) ==> (
                (self.spec_simple_merge(then_target.block, else_target.block) matches Some(Some(mb))
                    ==> !old(emitted)@[mb as int] && outer_stop != Some(mb)) ==> emits(r, old(out)@, final(out)@, e))),
        decreases fuel, 0u64,
    {
        if fuel == 0 {
            return Err(too_deep());
        }
        let merge_id = match self.find_branch_merge_deep(then_target, else_target, fuel - 1) {
            Some(m) => m,
            None => {
                return Err(too_deep());
            },
        };
        let ghost o = out@;
        let ghost simple = fuel > 2 && then_target.block != else_target.block
            && self.spec_simple_branch(condition, *then_target, *else_target) is Some
            && (self.spec_simple_merge(then_target.block, else_target.block) matches Some(Some(mb))
                ==> !emitted@[mb as int] && outer_stop != Some(mb));
        let ghost em0 = emitted@;
        self.get_ext(out, condition);
        push(out, Instr::If(BlockTy::Empty));
        let ghost o1 = out@;
        proof {
            if simple {
                assert(merge_id == self.spec_simple_merge(then_target.block, else_target.block).unwrap());
                assert(self.spec_simple_arm(*then_target, merge_id) is Some);
                assert(Some(then_target.block) != merge_id);
            }
        }
        self.emit_branch_arm(out, then_target, merge_id, emitted, fuel - 1)?;
        let ghost o2 = out@;
        let ghost em1 = emitted@;
        assert(simple ==> em1 == em0.update(then_target.block as int, true));
        push(out, Instr::Else);
        let ghost o3 = out@;
        proof {
            if simple {
                assert(self.spec_simple_arm(*else_target, merge_id) is Some);
                assert(Some(else_target.block) != merge_id);
            }
        }
        self.emit_branch_arm(out, else_target, merge_id, emitted, fuel - 1)?;
        let ghost o4 = out@;
        assert(simple ==> emitted@ == em1.update(else_target.block as int, true));
        push(out, Instr::End);
        let ghost o5 = out@;
        if let Some(mid) = merge_id {
            proof {
                if simple {
                    assert(then_target.block != mid && else_target.block != mid);
                    assert(emitted@[mid as int] == em0[mid as int]);
                }
            }
            self.emit_block_chain(out, mid, outer_stop, emitted, fuel - 1)?;
        } else {
            push(out, Instr::Unreachable);
        }
        proof {
            if simple {
                let m = merge_id;
                let a1 = self.spec_simple_arm(*then_target, m).unwrap();
                let a2 = self.spec_simple_arm(*else_target, m).unwrap();
                assert(a1 is Ok);
                assert(a2 is Ok);
                assert(m matches Some(mb) ==> self.spec_leaf_block(mb) matches Some(Ok(_)));
                if let (Ok(s1), Ok(s2)) = (a1, a2) {
                    assert(o1 =~= o + (self.spec_emit_get(condition) + seq![Instr::If(BlockTy::Empty)]));
                    assert(o4 =~= o + ((self.spec_emit_get(condition) + seq![Instr::If(BlockTy::Empty)]) + s1) + (seq![Instr::Else] + s2));
                    match m {
                        None => {
                            assert(out@ =~= o + ((((self.spec_emit_get(condition) + seq![Instr::If(BlockTy::Empty)]) + s1) + (seq![Instr::Else] + s2)) + seq![Instr::End, Instr::Unreachable]));
                        },
                        Some(mb) => {
                            if let Some(Ok(l)) = self.spec_leaf_block(mb) {
                                assert(out@ =~= o + ((((self.spec_emit_get(condition) + seq![Instr::If(BlockTy::Empty)]) + s1) + (seq![Instr::Else] + s2)) + (seq![Instr::End] + l)));
                            }
                        },
                    }
                }
                assert(emits(Ok(()), o, out@, self.spec_simple_branch(condition, *then_target, *else_target).unwrap()));
            }
        }
        Ok(())
    }

    /// Emit one arm of a branch, stopping at the merge block.
    pub(crate) fn emit_branch_arm(
        &self,
        out: &mut Vec<Instr>,
        target: &BranchTarget,
        merge_id: Option<BlockId>,
        emitted: &mut Vec<bool>,
        fuel: u64,
    ) -> (r: Result<(), CodegenError>)
        requires
            self.cf_wf(),
            old(emitted)@.len() == self.num_blocks(),
            self.target_ok(*target),
        ensures
            cf_post(r, old(out)@, final(out)@, old(emitted)@, final(emitted)@),
            fuel > 0 && Some(target.block) != merge_id ==> (self.spec_simple_arm(*target, merge_id) matches Some(e) ==> (
                emits(r, old(out)@, final(out)@, e) && final(emitted)@ == old(emitted)@.update(target.block as int, true))),
        decreases fuel, 1u64,
    {
        if fuel == 0 {
            return Err(too_deep());
        }
        proof {
            self.lemma_block_ok(target.block);
        }
        if Some(target.block) == merge_id {
            self.stores_ext(out, target)?;
            return Ok(());
        }
        let ghost o = out@;
        self.stores_ext(out, target)?;
        let ghost o1 = out@;
        mark(emitted, target.block);
        let ghost em1 = emitted@;
        self.body_ext(out, target.block)?;
        let ghost o2 = out@;
        let target_block = &self.kir_func.blocks[target.block as usize];
        proof {
            let st = self.spec_emit_block_param_stores(*target);
            if let Ok(bs) = self.spec_emit_insts(target_block.body@) {
                assert(o2 =~= o + (st + bs));
            }
        }
        if let Some(term) = &target_block.terminator {
            match term {
                Terminator::Return(val) => {
                    self.get_ext(out, *val);
                    push(out, Instr::Return);
                    proof {
                        let st = self.spec_emit_block_param_stores(*target);
                        if let Ok(bs) = self.spec_emit_insts(target_block.body@) {
                            assert(out@ =~= o + ((st + bs) + (self.spec_emit_get(*val) + seq![Instr::Return])));
                        }
                    }
                },
                Terminator::Jump(inner) => {
                    proof {
                        self.lemma_block_ok(inner.block);
                    }
                    self.stores_ext(out, inner)?;
                    proof {
                        let st = self.spec_emit_block_param_stores(*target);
                        if let Ok(bs) = self.spec_emit_insts(target_block.body@) {
                            assert(out@ =~= o + ((st + bs) + self.spec_emit_block_param_stores(*inner)));
                        }
                    }
                    if Some(inner.block) != merge_id {
                        self.emit_block_chain(out, inner.block, merge_id, emitted, fuel - 1)?;
                    }
                },
                Terminator::Unreachable => {
                    push(out, Instr::Unreachable);
                    proof {
                        let st = self.spec_emit_block_param_stores(*target);
                        if let Ok(bs) = self.spec_emit_insts(target_block.body@) {
                            assert(out@ =~= o + ((st + bs) + seq![Instr::Unreachable]));
                        }
                    }
                },
                Terminator::Branch { condition, then_target, else_target } => {
                    self.emit_branch(out, *condition, then_target, else_target, merge_id, emitted, fuel - 1)?;
                },
                Terminator::Switch { scrutinee, cases, default } => {
                    self.emit_switch(out, *scrutinee, cases.as_slice(), default.as_ref(), merge_id, emitted, fuel - 1)?;
                },
            }
        }
        Ok(())
    }
}

/// Whether `m` is the largest tag of `tags`: every tag is at most `m`, and `m` is a
/// tag, or zero where there is none.
pub open spec fn is_max_tag(tags: Map<Name, u32>, m: u32) -> bool {
    &&& forall|n: Name| #[trigger] tags.contains_key(n) ==> tags[n] <= m
    &&& (m == 0 || exists|n: Name| #[trigger] tags.contains_key(n) && tags[n] == m)
}

/// A map of tags has one largest tag.
proof fn lemma_max_tag_unique(tags: Map<Name, u32>, a: u32, b: u32)
    requires
        is_max_tag(tags, a),
        is_max_tag(tags, b),
    ensures
        a == b,
{
    if a != 0 {
        let n = choose|n: Name| #[trigger] tags.contains_key(n) && tags[n] == a;
        assert(a <= b);
    }
    if b != 0 {
        let n = choose|n: Name| #[trigger] tags.contains_key(n) && tags[n] == b;
        assert(b <= a);
    }
}

/// The position of the last of the first `k` cases whose variant has tag `t`.
pub open spec fn last_case_with_tag(tags: Map<Name, u32>, cases: Seq<SwitchCase>, t: int, k: int) -> Option<int>
    decreases k,
{
    if k <= 0 {
        None
    } else if tags.contains_key(cases[k - 1].variant) && tags[cases[k - 1].variant] == t {
        Some(k - 1)
    } else {
        last_case_with_tag(tags, cases, t, k - 1)
    }
}

/// The last case with a tag is one of the cases searched.
proof fn lemma_last_case_range(tags: Map<Name, u32>, cases: Seq<SwitchCase>, t: int, k: int)
    ensures
        last_case_with_tag(tags, cases, t, k) matches Some(i) ==> 0 <= i < k,
    decreases k,
{
    if k > 0 {
        lemma_last_case_range(tags, cases, t, k - 1);
    }
}

/// The targets of a switch's branch table, one for each tag up to `len`: the position
/// of the last case with that tag, or else the default depth.
pub open spec fn spec_switch_targets(tags: Map<Name, u32>, cases: Seq<SwitchCase>, len: nat, default_depth: u32) -> Seq<u32> {
    Seq::new(
        len,
        |t: int|
            match last_case_with_tag(tags, cases, t, cases.len() as int) {
                Some(i) => i as u32,
                None => default_depth,
            },
    )
}

/// The depth of a switch's default arm: the number of cases where there is a
/// default, zero otherwise.
pub open spec fn spec_default_depth(num_cases: nat, has_default: bool) -> u32 {
    if has_default { num_cases as u32 } else { 0 }
}

/// The `br_table` of a switch: for each tag up to the largest tag of the layout, the
/// position of the last case whose variant has that tag, or else the default's
/// depth; and that default depth. Unsupported control flow where the largest tag is
/// `u32::MAX`, which no table can cover, or where case positions exceed 32 bits.
fn switch_table(layout: &AdtLayout, cases: &[SwitchCase], has_default: bool) -> (r: Result<(Vec<u32>, u32), CodegenError>)
    ensures
        match r {
            Ok((targets, d)) => cases@.len() <= u32::MAX && exists|m: u32| #[trigger] is_max_tag(layout.tag_map@, m) && m < u32::MAX
                && targets@ == spec_switch_targets(layout.tag_map@, cases@, (m + 1) as nat, d)
                && d == spec_default_depth(cases@.len(), has_default),
            Err(e) => e is UnsupportedControlFlow && (is_max_tag(layout.tag_map@, u32::MAX) || cases@.len() > u32::MAX),
        },
{
    let mut max_tag: u32 = 0;
    let ghost all: Seq<u32> = vstd::std_specs::hash::spec_values_iter(&layout.tag_map).remaining().unref();
    let ghost mut seen: int = 0;
    for t in iter: layout.tag_map.values()
        invariant
            iter.seq().unref() == all,
            seen == iter.index(),
            forall|k: int| 0 <= k < seen ==> all[k] <= max_tag,
            max_tag == 0 || exists|k: int| 0 <= k < seen && all[k] == max_tag,
    {
        proof {
            seen = seen + 1;
        }
        if *t > max_tag {
            max_tag = *t;
        }
    }
    proof {
        let vals = layout.tag_map@.values();
        assert(all.to_set() =~= vals) by {
            broadcast use vstd::std_specs::hash::axiom_spec_values_iter;
        }
        assert(seen == all.len());
        assert forall|n: Name| #[trigger] layout.tag_map@.contains_key(n) implies layout.tag_map@[n] <= max_tag by {
            assert(vals.contains(layout.tag_map@[n]));
            assert(all.to_set().contains(layout.tag_map@[n]));
        }
        if max_tag != 0 {
            let k = choose|k: int| 0 <= k < seen && all[k] == max_tag;
            assert(all.to_set().contains(max_tag));
            assert(vals.contains(max_tag));
        }
    }
    assert(is_max_tag(layout.tag_map@, max_tag));
    if max_tag == u32::MAX || cases.len() > u32::MAX as usize {
        return Err(too_deep());
    }
    let len = max_tag as usize + 1;
    let mut tag_to_case: Vec<Option<usize>> = Vec::new();
    let mut k: usize = 0;
    while k < len
        invariant
            0 <= k <= len,
            tag_to_case@ == Seq::new(k as nat, |t: int| None::<usize>),
        decreases len - k,
    {
        tag_to_case.push(None);
        k = k + 1;
        assert(tag_to_case@ =~= Seq::new(k as nat, |t: int| None::<usize>));
    }
    let ghost tags = layout.tag_map@;
    let mut case_idx: usize = 0;
    while case_idx < cases.len()
        invariant
            0 <= case_idx <= cases@.len(),
            tags == layout.tag_map@,
            tag_to_case@.len() == len,
            forall|t: int| 0 <= t < len ==> #[trigger] tag_to_case@[t] == match last_case_with_tag(tags, cases@, t, case_idx as int) {
                Some(i) => Some(i as usize),
                None => None::<usize>,
            },
        decreases cases@.len() - case_idx,
    {
        if let Some(tag) = layout.tag_map.get(&cases[case_idx].variant) {
            if (*tag as usize) < len {
                tag_to_case.set(*tag as usize, Some(case_idx));
            }
        }
        case_idx = case_idx + 1;
    }
    let default_depth: usize = if has_default { cases.len() } else { 0 };
    let mut targets: Vec<u32> = Vec::new();
    let mut tag: usize = 0;
    while tag < len
        invariant
            0 <= tag <= len,
            len <= u32::MAX,
            cases@.len() <= u32::MAX,
            tags == layout.tag_map@,
            default_depth == spec_default_depth(cases@.len(), has_default),
            tag_to_case@.len() == len,
            forall|t: int| 0 <= t < len ==> #[trigger] tag_to_case@[t] == match last_case_with_tag(tags, cases@, t, cases@.len() as int) {
                Some(i) => Some(i as usize),
                None => None::<usize>,
            },
            targets@ == spec_switch_targets(tags, cases@, len as nat, default_depth as u32).take(tag as int),
        decreases len - tag,
    {
        proof {
            lemma_last_case_range(tags, cases@, tag as int, cases@.len() as int);
        }
        match tag_to_case[tag] {
            Some(i) => targets.push(i as u32),
            None => targets.push(default_depth as u32),
        }
        tag = tag + 1;
        assert(targets@ =~= spec_switch_targets(tags, cases@, len as nat, default_depth as u32).take(tag as int));
    }
    assert(targets@ =~= spec_switch_targets(tags, cases@, len as nat, default_depth as u32));
    Ok((targets, default_depth as u32))
}

impl<'a> FuncCodegen<'a> {
    /// The layout of the ADT type of a switch scrutinee; an unsupported type error
    /// where the type is no ADT, a missing ADT definition error where it has no layout.
    fn scrutinee_layout(&self, scrutinee: ValueId) -> (r: Result<&AdtLayout, CodegenError>)
        requires
            self.value_ok(scrutinee),
        ensures
            match self.spec_value_ty(scrutinee) {
                Ty::Adt { def, .. } => if self.ctx.adt_layouts@.contains_key(def) {
                    r matches Ok(l) && *l == self.ctx.adt_layouts@[def]
                } else {
                    r matches Err(e) && e is MissingAdtDef
                },
                _ => r matches Err(e) && e is UnsupportedType,
            },
    {
        match self.value_ty(scrutinee) {
            Ty::Adt { def, .. } => match self.ctx.adt_layouts.get(def) {
                Some(l) => Ok(l),
                None => Err(CodegenError::MissingAdtDef),
            },
            _ => Err(CodegenError::UnsupportedType(concat3("switch on non-ADT", "", ""))),
        }
    }

    /// The depth of the merge block from the arm of case `case_idx` of `num_cases`:
    /// the number of later cases, and one more where there is a default.
    fn depth_to_merge(num_cases: usize, case_idx: usize, has_default: bool) -> (r: Result<u32, CodegenError>)
        requires
            case_idx < num_cases <= u32::MAX,
        ensures
            r == Ok::<u32, CodegenError>((num_cases - 1 - case_idx + if has_default { 1int } else { 0 }) as u32),
    {
        let base = (num_cases - 1 - case_idx) as u32;
        match base.checked_add(if has_default { 1 } else { 0 }) {
            Some(d) => Ok(d),
            None => Err(too_deep()),
        }
    }

    /// The start of a switch's dispatch: the merge block, one block per case and one
    /// for the default opened, then the scrutinee's tag loaded.
    pub open spec fn spec_dispatch_head(&self, scrutinee: ValueId, num_cases: nat, has_default: bool) -> Seq<Instr> {
        Seq::new(num_cases + 1 + if has_default { 1nat } else { 0nat }, |_i: int| Instr::Block(BlockTy::Empty))
            + self.spec_emit_get(scrutinee) + seq![Instr::I32Load(MemArg { offset: 0, align: 2 })]
    }

    /// Whether `o1` is `o0` followed by the dispatch of a switch on `scrutinee` over
    /// `cases`, whose variants have the tags `tags`, and more: the merge block and one
    /// block per arm opened, the scrutinee's tag loaded, the branch table that sends
    /// each tag up to the largest to the last case with that tag, others to the
    /// default, then the end of the first arm's block.
    pub open spec fn switch_dispatched(
        &self,
        o0: Seq<Instr>,
        o1: Seq<Instr>,
        scrutinee: ValueId,
        tags: Map<Name, u32>,
        cases: Seq<SwitchCase>,
        has_default: bool,
    ) -> bool {
        let head = o0 + self.spec_dispatch_head(scrutinee, cases.len(), has_default);
        &&& cases.len() <= u32::MAX
        &&& extends(head, o1)
        &&& head.len() + 1 < o1.len()
        &&& o1[head.len() + 1int] == Instr::End
        &&& exists|m: u32| #[trigger] is_max_tag(tags, m) && (o1[head.len() as int] matches Instr::BrTable(bt, d)
            && d == spec_default_depth(cases.len(), has_default)
            && bt.view() == spec_switch_targets(tags, cases, (m + 1) as nat, d))
    }

    /// Whether an arm of a switch inside a loop that enters block `b` leaves at once
    /// without error: the block's body emits, and it returns, is unreachable, or
    /// jumps to the loop header or exit.
    pub open spec fn loop_arm_exits_cleanly(&self, b: BlockId, header: BlockId, exit: BlockId) -> bool {
        &&& self.spec_loop_switch_target_exits_directly(b, header, exit)
        &&& self.spec_emit_insts(self.kir_func.blocks@[b as int].body@) is Ok
    }

    /// Whether a switch has an ADT scrutinee with a layout whose tags a branch table
    /// can cover, at most `u32::MAX` cases, and arms that each enter a block whose body
    /// emits and that ends the function.
    pub open spec fn switch_exits_cleanly(&self, scrutinee: ValueId, cases: Seq<SwitchCase>, default: Option<&BranchTarget>) -> bool {
        &&& self.spec_value_ty(scrutinee) matches Ty::Adt { def, .. } && self.ctx.adt_layouts@.contains_key(def)
            && !is_max_tag(self.ctx.adt_layouts@[def].tag_map@, u32::MAX)
        &&& cases.len() <= u32::MAX
        &&& self.switch_targets_end(cases, default)
        &&& forall|k: int| 0 <= k < cases.len()
            ==> self.spec_emit_insts(self.kir_func.blocks@[#[trigger] cases[k].target.block as int].body@) is Ok
        &&& (default matches Some(d) ==> self.spec_emit_insts(self.kir_func.blocks@[d.block as int].body@) is Ok)
    }

    /// Whether a switch inside a loop has an ADT scrutinee with a layout whose tags a
    /// branch table can cover, depths from its arms to the loop's blocks that fit in
    /// 32 bits, and arms that all leave at once without error.
    pub open spec fn loop_switch_exits_cleanly(
        &self,
        scrutinee: ValueId,
        cases: Seq<SwitchCase>,
        default: Option<&BranchTarget>,
        header: BlockId,
        exit: BlockId,
        continue_depth: u32,
        break_depth: u32,
    ) -> bool {
        &&& self.spec_value_ty(scrutinee) matches Ty::Adt { def, .. } && self.ctx.adt_layouts@.contains_key(def)
            && !is_max_tag(self.ctx.adt_layouts@[def].tag_map@, u32::MAX)
        &&& cases.len() + continue_depth + 1 <= u32::MAX
        &&& cases.len() + break_depth + 1 <= u32::MAX
        &&& forall|k: int| 0 <= k < cases.len() ==> #[trigger] self.loop_arm_exits_cleanly(cases[k].target.block, header, exit)
        &&& (default matches Some(d) ==> self.loop_arm_exits_cleanly(d.block, header, exit))
    }

    /// Whether `o1` is `o0` followed by a switch on `scrutinee` over `cases`: the
    /// scrutinee has an ADT type with a layout, and the switch's dispatch comes first.
    pub open spec fn switch_emitted(&self, o0: Seq<Instr>, o1: Seq<Instr>, scrutinee: ValueId, cases: Seq<SwitchCase>, has_default: bool) -> bool {
        self.spec_value_ty(scrutinee) matches Ty::Adt { def, .. } && self.ctx.adt_layouts@.contains_key(def)
            && self.switch_dispatched(o0, o1, scrutinee, self.ctx.adt_layouts@[def].tag_map@, cases, has_default)
    }

    /// Emit the dispatch of a switch: the merge block and one block per arm opened,
    /// then the scrutinee's tag selecting the arm through a branch table, which sends
    /// each tag to the last case with that tag, others to the default.
    fn emit_switch_dispatch(&self, out: &mut Vec<Instr>, scrutinee: ValueId, layout: &AdtLayout, cases: &[SwitchCase], has_default: bool)
        -> (r: Result<(), CodegenError>)
        requires
            self.wf(),
            self.value_ok(scrutinee),
        ensures
            r is Ok ==> extends(old(out)@, final(out)@),
            r is Ok ==> cases@.len() <= u32::MAX && exists|m: u32| #[trigger] is_max_tag(layout.tag_map@, m) && m < u32::MAX && {
                let head = old(out)@ + self.spec_dispatch_head(scrutinee, cases@.len(), has_default);
                &&& final(out)@.len() == head.len() + 1
                &&& final(out)@.take(head.len() as int) == head
                &&& final(out)@.last() matches Instr::BrTable(bt, d) && d == spec_default_depth(cases@.len(), has_default)
                    && bt.view() == spec_switch_targets(layout.tag_map@, cases@, (m + 1) as nat, d)
            },
            r matches Err(e) ==> e is UnsupportedControlFlow && *final(out) == *old(out)
                && (is_max_tag(layout.tag_map@, u32::MAX) || cases@.len() > u32::MAX),
    {
        let (targets, default_depth) = switch_table(layout, cases, has_default)?;
        let ghost m = choose|m: u32| #[trigger] is_max_tag(layout.tag_map@, m) && m < u32::MAX
            && targets@ == spec_switch_targets(layout.tag_map@, cases@, (m + 1) as nat, default_depth)
            && default_depth == spec_default_depth(cases@.len(), has_default);
        let ghost o = out@;
        push(out, Instr::Block(BlockTy::Empty));
        let mut k: usize = 0;
        while k < cases.len()
            invariant
                0 <= k <= cases@.len(),
                out@ == o + Seq::new(k as nat + 1, |_i: int| Instr::Block(BlockTy::Empty)),
            decreases cases@.len() - k,
        {
            push(out, Instr::Block(BlockTy::Empty));
            k = k + 1;
            assert(out@ =~= o + Seq::new(k as nat + 1, |_i: int| Instr::Block(BlockTy::Empty)));
        }
        if has_default {
            push(out, Instr::Block(BlockTy::Empty));
        }
        assert(out@ =~= o + Seq::new(cases@.len() + 1 + if has_default { 1nat } else { 0nat }, |_i: int| Instr::Block(BlockTy::Empty)));
        self.emit_get(out, scrutinee);
        push(out, Instr::I32Load(MemArg { offset: 0, align: 2 }));
        let ghost head = out@;
        assert(head =~= o + self.spec_dispatch_head(scrutinee, cases@.len(), has_default));
        let bt = BrTargets::new(targets);
        push(out, Instr::BrTable(bt, default_depth));
        assert(out@.take(head.len() as int) =~= head);
        assert(is_max_tag(layout.tag_map@, m) && m < u32::MAX);
        proof {
            lemma_extends_append(o, out@.subrange(o.len() as int, out@.len() as int));
            assert(o + out@.subrange(o.len() as int, out@.len() as int) =~= out@);
        }
        Ok(())
    }

    /// Emit a switch: the branch table, each arm in its block, then the merge block;
    /// `unreachable` where the arms do not meet.
    #[verifier::rlimit(80)]
    #[verifier::spinoff_prover]
    pub(crate) fn emit_switch(
        &self,
        out: &mut Vec<Instr>,
        scrutinee: ValueId,
        cases: &[SwitchCase],
        default: Option<&BranchTarget>,
        outer_stop: Option<BlockId>,
        emitted: &mut Vec<bool>,
        fuel: u64,
    ) -> (r: Result<(), CodegenError>)
        requires
            self.cf_wf(),
            old(emitted)@.len() == self.num_blocks(),
            self.value_ok(scrutinee),
            self.switch_ok(cases@, default),
            self.targets_ok(cases@, default),
        ensures
            cf_post(r, old(out)@, final(out)@, old(emitted)@, final(emitted)@),
            fuel > 0 ==> match self.spec_value_ty(scrutinee) {
                Ty::Adt { def, .. } => if self.ctx.adt_layouts@.contains_key(def) {
                    &&& is_max_tag(self.ctx.adt_layouts@[def].tag_map@, u32::MAX) || cases@.len() > u32::MAX
                        ==> (r matches Err(e) && e is UnsupportedControlFlow)
                    &&& r is Ok ==> self.switch_dispatched(old(out)@, final(out)@, scrutinee,
                        self.ctx.adt_layouts@[def].tag_map@, cases@, default is Some)
                } else {
                    r matches Err(e) && e is MissingAdtDef && final(out)@ == old(out)@ && final(emitted)@ == old(emitted)@
                },
                _ => r matches Err(e) && e is UnsupportedType && final(out)@ == old(out)@ && final(emitted)@ == old(emitted)@,
            },
            r is Ok ==> forall|k: int| 0 <= k < cases@.len() ==> final(emitted)@[#[trigger] cases@[k].target.block as int],
            r is Ok ==> (default matches Some(d) ==> final(emitted)@[d.block as int]),
            fuel > 1 && self.switch_exits_cleanly(scrutinee, cases@, default) ==> r is Ok,
            fuel > 2 ==> (self.spec_switch_merge(cases@, default) matches Some(m)
                && (m matches Some(mb) ==> !old(emitted)@[mb as int] && outer_stop != Some(mb))
                ==> emits(r, old(out)@, final(out)@, self.spec_simple_switch(scrutinee, cases@, default))),
        decreases fuel, 1u64,
    {
        if fuel == 0 {
            return Err(too_deep());
        }
        let layout = self.scrutinee_layout(scrutinee)?;
        let merge_block_id = match self.find_switch_merge(cases, default, fuel - 1) {
            Some(m) => m,
            None => {
                return Err(too_deep());
            },
        };
        let ghost clean = fuel > 1 && self.switch_exits_cleanly(scrutinee, cases@, default);
        let ghost merge = self.spec_switch_merge(cases@, default);
        let ghost leaf = fuel > 2 && merge is Some
            && (merge matches Some(Some(mb)) ==> !emitted@[mb as int] && outer_stop != Some(mb));
        assert(leaf ==> merge_block_id == merge.unwrap());
        proof {
            if leaf {
                if let Some(Some(mb)) = merge {
                    assert(self.switch_targets_jump_to(cases@, default, mb));
                } else {
                    assert(self.switch_targets_end(cases@, default));
                }
            }
        }
        let num_cases = cases.len();
        let has_default = default.is_some();
        let ghost o = out@;
        self.emit_switch_dispatch(out, scrutinee, layout, cases, has_default)?;
        let ghost ad = out@;
        proof {
            let m = choose|m: u32| #[trigger] is_max_tag(layout.tag_map@, m) && m < u32::MAX && {
                let head = o + self.spec_dispatch_head(scrutinee, cases@.len(), has_default);
                &&& ad.len() == head.len() + 1
                &&& ad.take(head.len() as int) == head
                &&& ad.last() matches Instr::BrTable(bt, d) && d == spec_default_depth(cases@.len(), has_default)
                    && bt.view() == spec_switch_targets(layout.tag_map@, cases@, (m + 1) as nat, d)
            };
            if is_max_tag(layout.tag_map@, u32::MAX) {
                lemma_max_tag_unique(layout.tag_map@, m, u32::MAX);
            }
            let mc = choose|mc: u32| is_max_tag(layout.tag_map@, mc);
            lemma_max_tag_unique(layout.tag_map@, m, mc);
            if let Instr::BrTable(bt, d) = ad.last() {
                BrTargets::lemma_view_determines(bt);
            }
            let head = o + self.spec_dispatch_head(scrutinee, cases@.len(), has_default);
            assert(ad =~= ad.take(head.len() as int).push(ad.last()));
            assert(ad =~= o + self.spec_switch_head(scrutinee, layout.tag_map@, cases@, has_default));
        }
        let mut case_idx: usize = 0;
        while case_idx < num_cases
            invariant
                self.cf_wf(),
                emitted@.len() == self.num_blocks(),
                num_cases == cases@.len(),
                num_cases <= u32::MAX,
                self.switch_ok(cases@, default),
                self.targets_ok(cases@, default),
                0 <= case_idx <= num_cases,
                fuel > 0,
                merge_block_id matches Some(m) ==> m < self.num_blocks(),
                emitted_grows(old(emitted)@, emitted@),
                extends(old(out)@, out@),
                extends(ad, out@),
                ad.len() < out@.len() ==> out@[ad.len() as int] == Instr::End,
                forall|k: int| 0 <= k < case_idx ==> emitted@[#[trigger] cases@[k].target.block as int],
                !is_max_tag(layout.tag_map@, u32::MAX),
                self.spec_value_ty(scrutinee) matches Ty::Adt { def, .. } && self.ctx.adt_layouts@.contains_key(def)
                    && *layout == self.ctx.adt_layouts@[def],
                clean ==> merge_block_id is None && self.switch_exits_cleanly(scrutinee, cases@, default),
                !clean ==> !(fuel > 1 && self.switch_exits_cleanly(scrutinee, cases@, default)),
                merge == self.spec_switch_merge(cases@, default),
                leaf == (fuel > 2 && merge is Some
                    && (merge matches Some(Some(mb)) ==> !old(emitted)@[mb as int] && outer_stop != Some(mb))),
                leaf ==> merge_block_id == merge.unwrap(),
                leaf ==> (merge_block_id matches Some(mb) ==> self.switch_targets_jump_to(cases@, default, mb)
                    && !emitted@[mb as int]),
                leaf ==> (merge_block_id is None ==> self.switch_targets_end(cases@, default)),
                leaf ==> ad == o + self.spec_switch_head(scrutinee, layout.tag_map@, cases@, has_default),
                leaf ==> (self.spec_switch_arms(cases@, case_idx as nat, has_default) matches Ok(a) && out@ == ad + a),
                o == old(out)@,
                has_default == default is Some,
            decreases num_cases - case_idx,
        {
            let case = &cases[case_idx];
            assert(self.target_ok(cases@[case_idx as int].target));
            let depth = Self::depth_to_merge(num_cases, case_idx, has_default)?;
            proof {
                if clean {
                    assert(self.spec_emit_insts(self.kir_func.blocks@[cases@[case_idx as int].target.block as int].body@) is Ok);
                }
                if leaf {
                    match merge_block_id {
                        Some(mb) => {
                            assert(self.jumps_to_leaf(cases@[case_idx as int].target.block, mb));
                        },
                        None => {
                            assert(ends_function(self.kir_func.blocks@[cases@[case_idx as int].target.block as int].terminator));
                        },
                    }
                }
            }
            let ghost em0 = emitted@;
            let ghost p0 = out@;
            let ra = self.emit_switch_arm(out, &case.target, depth, merge_block_id, emitted, fuel);
            proof {
                if leaf {
                    let dk = cases@.len() - (case_idx + 1) + if has_default { 1int } else { 0 };
                    assert(depth as int == dk);
                    assert(self.spec_switch_arms(cases@, (case_idx + 1) as nat, has_default)
                        == chain(self.spec_switch_arms(cases@, case_idx as nat, has_default),
                            self.spec_switch_arm(cases@[case_idx as int].target, dk)));
                    if ra is Err {
                        self.lemma_switch_arms_err(cases@, (case_idx + 1) as nat, cases@.len(), has_default);
                    } else if let (Ok(arm), Ok(a)) = (self.spec_switch_arm(cases@[case_idx as int].target, dk),
                        self.spec_switch_arms(cases@, case_idx as nat, has_default)) {
                        assert(out@ =~= ad + (a + arm));
                    }
                }
            }
            ra?;
            assert forall|k: int| 0 <= k < case_idx + 1 implies emitted@[#[trigger] cases@[k].target.block as int] by {
                if k < case_idx {
                    assert(em0[cases@[k].target.block as int]);
                }
            }
            case_idx = case_idx + 1;
        }
        let ghost em2 = emitted@;
        let ghost p3 = out@;
        if let Some(def_target) = default {
            proof {
                if leaf {
                    match merge_block_id {
                        Some(mb) => {
                            assert(self.jumps_to_leaf(def_target.block, mb));
                        },
                        None => {
                            assert(ends_function(self.kir_func.blocks@[def_target.block as int].terminator));
                        },
                    }
                }
            }
            let ra = self.emit_switch_arm(out, def_target, 0, merge_block_id, emitted, fuel);
            proof {
                if leaf && ra is Err {
                    assert(self.spec_switch_arms(cases@, cases@.len(), has_default) is Ok);
                }
            }
            ra?;
        }
        let ghost p4 = out@;
        let ghost em4 = emitted@;
        let ghost dc = match default {
            Some(t) => self.spec_switch_arm(*t, 0),
            None => Ok(Seq::<Instr>::empty()),
        };
        proof {
            if leaf {
                assert(self.spec_switch_arms(cases@, cases@.len(), has_default) is Ok);
                assert(dc is Ok);
                assert(merge_block_id matches Some(mb) ==> !em4[mb as int]);
            }
        }
        push(out, Instr::End);
        if let Some(merge_id) = merge_block_id {
            let rm = self.emit_block_chain(out, merge_id, outer_stop, emitted, fuel - 1);
            proof {
                if leaf && rm is Err {
                    assert(self.spec_leaf_block(merge_id) is Some);
                    if let (Ok(dcs), Ok(a), Some(Err(k))) = (dc, self.spec_switch_arms(cases@, cases@.len(), has_default), self.spec_leaf_block(merge_id)) {
                        assert(self.spec_simple_switch(scrutinee, cases@, default) == Err::<Seq<Instr>, ErrorKind>(k));
                    }
                }
            }
            rm?;
        } else {
            push(out, Instr::Unreachable);
        }
        proof {
            let head = o + self.spec_dispatch_head(scrutinee, cases@.len(), has_default);
            assert(ad.len() == head.len() + 1);
            assert(out@[ad.len() as int] == Instr::End);
            assert forall|i: int| 0 <= i < head.len() implies #[trigger] out@[i] == head[i] by {
                assert(ad.take(head.len() as int)[i] == ad[i]);
            }
            let m = choose|m: u32| #[trigger] is_max_tag(layout.tag_map@, m) && m < u32::MAX && {
                let head = o + self.spec_dispatch_head(scrutinee, cases@.len(), has_default);
                &&& ad.len() == head.len() + 1
                &&& ad.take(head.len() as int) == head
                &&& ad.last() matches Instr::BrTable(bt, d) && d == spec_default_depth(cases@.len(), has_default)
                    && bt.view() == spec_switch_targets(layout.tag_map@, cases@, (m + 1) as nat, d)
            };
            assert(out@[head.len() as int] == ad.last());
            assert(is_max_tag(layout.tag_map@, m));
            assert forall|k: int| 0 <= k < cases@.len() implies emitted@[#[trigger] cases@[k].target.block as int] by {
                assert(em2[cases@[k].target.block as int]);
                assert(em4[cases@[k].target.block as int]);
            }
            if let Some(d) = default {
                assert(em4[d.block as int]);
            }
            if leaf {
                if let (Ok(dcs), Ok(a)) = (dc, self.spec_switch_arms(cases@, cases@.len(), has_default)) {
                    assert(p4 == p3 + dcs);
                    match merge_block_id {
                        None => {
                            assert(out@ =~= o + ((self.spec_switch_head(scrutinee, layout.tag_map@, cases@, has_default) + a)
                                + (dcs + seq![Instr::End, Instr::Unreachable])));
                        },
                        Some(mb) => {
                            if let Some(Ok(l)) = self.spec_leaf_block(mb) {
                                assert(out@ =~= o + ((self.spec_switch_head(scrutinee, layout.tag_map@, cases@, has_default) + a)
                                    + (dcs + (seq![Instr::End] + l))));
                            }
                        },
                    }
                }
            }
        }
        Ok(())
    }

    /// Emit one arm of a switch: close the block before it, store the target's
    /// arguments, mark the target emitted, then its body and terminator.
    pub(crate) fn emit_switch_arm(
        &self,
        out: &mut Vec<Instr>,
        target: &BranchTarget,
        depth_to_merge: u32,
        switch_merge: Option<BlockId>,
        emitted: &mut Vec<bool>,
        fuel: u64,
    ) -> (r: Result<(), CodegenError>)
        requires
            self.cf_wf(),
            old(emitted)@.len() == self.num_blocks(),
            self.target_ok(*target),
            switch_merge matches Some(m) ==> m < self.num_blocks(),
            fuel > 0,
        ensures
            cf_post(r, old(out)@, final(out)@, old(emitted)@, final(emitted)@),
            final(emitted)@[target.block as int],
            r is Ok ==> old(out)@.len() < final(out)@.len() && final(out)@[old(out)@.len() as int] == Instr::End,
            fuel > 1 && (ends_function(self.kir_func.blocks@[target.block as int].terminator)
                || self.kir_func.blocks@[target.block as int].terminator matches Some(Terminator::Jump(_)))
                ==> emits(r, old(out)@, final(out)@, self.spec_switch_arm(*target, depth_to_merge as int))
                    && (r is Ok ==> final(emitted)@ == old(emitted)@.update(target.block as int, true)),
        decreases fuel, 0u64,
    {
        proof {
            self.lemma_block_ok(target.block);
        }
        let ghost o = out@;
        push(out, Instr::End);
        self.stores_ext(out, target)?;
        let ghost o1 = out@;
        mark(emitted, target.block);
        let ghost em1 = emitted@;
        self.body_ext(out, target.block)?;
        let ghost o2 = out@;
        if let Some(term) = &self.kir_func.blocks[target.block as usize].terminator {
            let rt = self.emit_switch_arm_terminator(out, term, depth_to_merge, switch_merge, emitted, fuel - 1);
            assert(em1[target.block as int]);
            rt?;
        }
        proof {
            assert(out@[o.len() as int] == Instr::End);
            if let Ok(bs) = self.spec_emit_insts(self.kir_func.blocks@[target.block as int].body@) {
                let st = seq![Instr::End] + self.spec_emit_block_param_stores(*target);
                assert(o1 == o + st);
                assert(o2 == o1 + bs);
                if fuel > 1 {
                    match self.kir_func.blocks@[target.block as int].terminator {
                        Some(Terminator::Return(v)) => {
                            assert(out@ =~= o + (st + (bs + (self.spec_emit_get(v) + seq![Instr::Return]))));
                        },
                        Some(Terminator::Unreachable) => {
                            assert(out@ =~= o + (st + (bs + seq![Instr::Unreachable])));
                        },
                        Some(Terminator::Jump(j)) => {
                            assert(out@ =~= o + (st + (bs + (self.spec_emit_block_param_stores(j) + seq![Instr::Br(depth_to_merge)]))));
                        },
                        None => {
                            assert(out@ =~= o + (st + (bs + Seq::<Instr>::empty())));
                        },
                        _ => {},
                    }
                }
            }
        }
        Ok(())
    }

    /// Emit one arm of a switch inside a loop: close the block before it, store the
    /// target's arguments, mark the target emitted, then its body and terminator.
    pub(crate) fn emit_loop_switch_arm(
        &self,
        out: &mut Vec<Instr>,
        target: &BranchTarget,
        depth_to_merge: u32,
        switch_merge: Option<BlockId>,
        header: BlockId,
        exit: BlockId,
        continue_depth: u32,
        break_depth: u32,
        emitted: &mut Vec<bool>,
        fuel: u64,
    ) -> (r: Result<(), CodegenError>)
        requires
            self.cf_wf(),
            old(emitted)@.len() == self.num_blocks(),
            self.target_ok(*target),
            switch_merge matches Some(m) ==> m < self.num_blocks(),
            fuel > 0,
        ensures
            cf_post(r, old(out)@, final(out)@, old(emitted)@, final(emitted)@),
            final(emitted)@[target.block as int],
            r is Ok ==> old(out)@.len() < final(out)@.len() && final(out)@[old(out)@.len() as int] == Instr::End,
            fuel > 1 && switch_merge is None && self.spec_loop_switch_target_exits_directly(target.block, header, exit)
                && continue_depth + depth_to_merge + 1 <= u32::MAX && break_depth + depth_to_merge + 1 <= u32::MAX
                ==> emits(r, old(out)@, final(out)@,
                    self.spec_loop_leaf_arm(*target, depth_to_merge as int, header, continue_depth, break_depth)),
        decreases fuel, 0u64,
    {
        proof {
            self.lemma_block_ok(target.block);
        }
        let ghost o = out@;
        push(out, Instr::End);
        self.stores_ext(out, target)?;
        let ghost o1 = out@;
        mark(emitted, target.block);
        let ghost em1 = emitted@;
        self.body_ext(out, target.block)?;
        let ghost o2 = out@;
        if let Some(term) = &self.kir_func.blocks[target.block as usize].terminator {
            let rt = self.emit_loop_switch_arm_terminator(
                out, term, depth_to_merge, switch_merge, header, exit, continue_depth, break_depth, emitted, fuel - 1,
            );
            assert(em1[target.block as int]);
            rt?;
        }
        proof {
            assert(out@[o.len() as int] == Instr::End);
            if let Ok(bs) = self.spec_emit_insts(self.kir_func.blocks@[target.block as int].body@) {
                let st = seq![Instr::End] + self.spec_emit_block_param_stores(*target);
                assert(o1 == o + st);
                assert(o2 == o1 + bs);
                if fuel > 1 && switch_merge is None && self.spec_loop_switch_target_exits_directly(target.block, header, exit)
                    && continue_depth + depth_to_merge + 1 <= u32::MAX && break_depth + depth_to_merge + 1 <= u32::MAX {
                    match self.kir_func.blocks@[target.block as int].terminator {
                        Some(Terminator::Return(v)) => {
                            assert(out@ =~= o + (st + (bs + (self.spec_emit_get(v) + seq![Instr::Return]))));
                        },
                        Some(Terminator::Unreachable) => {
                            assert(out@ =~= o + (st + (bs + seq![Instr::Unreachable])));
                        },
                        Some(Terminator::Jump(j)) => {
                            let d = (if j.block == header { continue_depth + depth_to_merge + 1 } else {
                                break_depth + depth_to_merge + 1 }) as u32;
                            assert(out@ =~= o + (st + (bs + (self.spec_emit_block_param_stores(j) + seq![Instr::Br(d)]))));
                        },
                        _ => {},
                    }
                }
            }
        }
        Ok(())
    }

    /// Emit the terminator of a switch arm, then leave the switch for its merge block.
    pub(crate) fn emit_switch_arm_terminator(
        &self,
        out: &mut Vec<Instr>,
        term: &Terminator,
        depth_to_merge: u32,
        switch_merge: Option<BlockId>,
        emitted: &mut Vec<bool>,
        fuel: u64,
    ) -> (r: Result<(), CodegenError>)
        requires
            self.cf_wf(),
            old(emitted)@.len() == self.num_blocks(),
            self.term_ok(*term),
            switch_merge matches Some(m) ==> m < self.num_blocks(),
        ensures
            cf_post(r, old(out)@, final(out)@, old(emitted)@, final(emitted)@),
            fuel > 0 ==> (term matches Terminator::Return(v) ==> r is Ok
                && final(out)@ == old(out)@ + self.spec_emit_get(*v) + seq![Instr::Return]
                && final(emitted)@ == old(emitted)@),
            fuel > 0 && term is Unreachable ==> r is Ok && final(out)@ == old(out)@.push(Instr::Unreachable)
                && final(emitted)@ == old(emitted)@,
            fuel > 0 ==> (term matches Terminator::Jump(t) ==> r is Ok
                && final(out)@ == old(out)@ + self.spec_emit_block_param_stores(*t) + seq![Instr::Br(depth_to_merge)]
                && final(emitted)@ == old(emitted)@),
            fuel > 3 ==> (term matches Terminator::Branch { condition, then_target, else_target } ==> (
                then_target.block != else_target.block
                    && self.spec_simple_branch(*condition, *then_target, *else_target) is Some
                    && (self.spec_simple_merge(then_target.block, else_target.block) matches Some(Some(mb))
                        ==> !old(emitted)@[mb as int] && switch_merge != Some(mb))
                    ==> emits(r, old(out)@, final(out)@, chain(self.spec_simple_branch(*condition, *then_target, *else_target).unwrap(),
                        Ok(seq![Instr::Br(depth_to_merge)]))))),
            r is Ok && (term is Branch || term is Switch) ==> old(out)@.len() < final(out)@.len()
                && final(out)@.last() == Instr::Br(depth_to_merge),
            fuel > 1 && r is Ok ==> (term matches Terminator::Switch { scrutinee, cases, default } ==> self.switch_emitted(
                old(out)@, final(out)@.drop_last(), *scrutinee, cases@, default is Some)),
        decreases fuel, 1u64,
    {
        if fuel == 0 {
            return Err(too_deep());
        }
        let ghost o = out@;
        match term {
            Terminator::Return(val) => {
                self.get_ext(out, *val);
                push(out, Instr::Return);
            },
            Terminator::Jump(target) => {
                proof {
                    self.lemma_block_ok(target.block);
                }
                self.stores_ext(out, target)?;
                push(out, Instr::Br(depth_to_merge));
            },
            Terminator::Unreachable => {
                push(out, Instr::Unreachable);
            },
            Terminator::Branch { condition, then_target, else_target } => {
                self.emit_branch(out, *condition, then_target, else_target, switch_merge, emitted, fuel - 1)?;
                let ghost o1 = out@;
                push(out, Instr::Br(depth_to_merge));
                proof {
                    if let Some(Ok(b)) = self.spec_simple_branch(*condition, *then_target, *else_target) {
                        if o1 == o + b {
                            assert(out@ =~= o + (b + seq![Instr::Br(depth_to_merge)]));
                        }
                    }
                }
            },
            Terminator::Switch { scrutinee, cases, default } => {
                self.emit_switch(out, *scrutinee, cases.as_slice(), default.as_ref(), switch_merge, emitted, fuel - 1)?;
                push(out, Instr::Br(depth_to_merge));
            },
        }
        Ok(())
    }

    /// Emit a switch inside a loop: as a switch, with jumps to the loop header and
    /// exit leaving through the loop's blocks.
    #[verifier::rlimit(40)]
    #[verifier::spinoff_prover]
    pub(crate) fn emit_loop_switch(
        &self,
        out: &mut Vec<Instr>,
        scrutinee: ValueId,
        cases: &[SwitchCase],
        default: Option<&BranchTarget>,
        current_block: BlockId,
        header: BlockId,
        exit: BlockId,
        continue_depth: u32,
        break_depth: u32,
        emitted: &mut Vec<bool>,
        fuel: u64,
    ) -> (r: Result<(), CodegenError>)
        requires
            self.cf_wf(),
            old(emitted)@.len() == self.num_blocks(),
            self.value_ok(scrutinee),
            self.switch_ok(cases@, default),
            self.targets_ok(cases@, default),
        ensures
            cf_post(r, old(out)@, final(out)@, old(emitted)@, final(emitted)@),
            fuel > 0 ==> match self.spec_value_ty(scrutinee) {
                Ty::Adt { def, .. } => if self.ctx.adt_layouts@.contains_key(def) {
                    &&& is_max_tag(self.ctx.adt_layouts@[def].tag_map@, u32::MAX) || cases@.len() > u32::MAX
                        ==> (r matches Err(e) && e is UnsupportedControlFlow)
                    &&& r is Ok ==> self.switch_dispatched(old(out)@, final(out)@, scrutinee,
                        self.ctx.adt_layouts@[def].tag_map@, cases@, default is Some)
                } else {
                    r matches Err(e) && e is MissingAdtDef && final(out)@ == old(out)@ && final(emitted)@ == old(emitted)@
                },
                _ => r matches Err(e) && e is UnsupportedType && final(out)@ == old(out)@ && final(emitted)@ == old(emitted)@,
            },
            r is Ok ==> forall|k: int| 0 <= k < cases@.len() ==> final(emitted)@[#[trigger] cases@[k].target.block as int],
            r is Ok ==> (default matches Some(d) ==> final(emitted)@[d.block as int]),
            fuel > 1 && self.loop_switch_exits_cleanly(scrutinee, cases@, default, header, exit, continue_depth, break_depth)
                ==> r is Ok,
            fuel > 1 && self.loop_switch_targets_exit(cases@, default, header, exit, continue_depth, break_depth)
                ==> emits(r, old(out)@, final(out)@,
                    self.spec_loop_leaf_switch(scrutinee, cases@, default, header, continue_depth, break_depth)),
        decreases fuel, 1u64,
    {
        if fuel == 0 {
            return Err(too_deep());
        }
        let layout = self.scrutinee_layout(scrutinee)?;
        let merge_block_id = self.find_loop_switch_merge(cases, default, current_block, header, exit);
        let ghost clean = fuel > 1
            && self.loop_switch_exits_cleanly(scrutinee, cases@, default, header, exit, continue_depth, break_depth);
        let ghost leaf = fuel > 1 && self.loop_switch_targets_exit(cases@, default, header, exit, continue_depth, break_depth);
        proof {
            if leaf && merge_block_id is Some {
                if exists|i: int| 0 <= i < cases@.len()
                    && !self.spec_loop_switch_target_exits_directly(#[trigger] cases@[i].target.block, header, exit) {
                    let i = choose|i: int| 0 <= i < cases@.len()
                        && !self.spec_loop_switch_target_exits_directly(#[trigger] cases@[i].target.block, header, exit);
                    assert(self.spec_loop_switch_target_exits_directly(cases@[i].target.block, header, exit));
                }
            }
            if clean && merge_block_id is Some {
                if exists|i: int| 0 <= i < cases@.len()
                    && !self.spec_loop_switch_target_exits_directly(#[trigger] cases@[i].target.block, header, exit) {
                    let i = choose|i: int| 0 <= i < cases@.len()
                        && !self.spec_loop_switch_target_exits_directly(#[trigger] cases@[i].target.block, header, exit);
                    assert(self.loop_arm_exits_cleanly(cases@[i].target.block, header, exit));
                }
            }
        }
        let num_cases = cases.len();
        let has_default = default.is_some();
        let ghost o = out@;
        self.emit_switch_dispatch(out, scrutinee, layout, cases, has_default)?;
        let ghost ad = out@;
        proof {
            let m = choose|m: u32| #[trigger] is_max_tag(layout.tag_map@, m) && m < u32::MAX && {
                let head = o + self.spec_dispatch_head(scrutinee, cases@.len(), has_default);
                &&& ad.len() == head.len() + 1
                &&& ad.take(head.len() as int) == head
                &&& ad.last() matches Instr::BrTable(bt, d) && d == spec_default_depth(cases@.len(), has_default)
                    && bt.view() == spec_switch_targets(layout.tag_map@, cases@, (m + 1) as nat, d)
            };
            if is_max_tag(layout.tag_map@, u32::MAX) {
                lemma_max_tag_unique(layout.tag_map@, m, u32::MAX);
            }
            let mc = choose|mc: u32| is_max_tag(layout.tag_map@, mc);
            lemma_max_tag_unique(layout.tag_map@, m, mc);
            if let Instr::BrTable(bt, d) = ad.last() {
                BrTargets::lemma_view_determines(bt);
            }
            let head = o + self.spec_dispatch_head(scrutinee, cases@.len(), has_default);
            assert(ad =~= ad.take(head.len() as int).push(ad.last()));
            assert(ad =~= o + self.spec_switch_head(scrutinee, layout.tag_map@, cases@, has_default));
        }
        let mut case_idx: usize = 0;
        while case_idx < num_cases
            invariant
                self.cf_wf(),
                emitted@.len() == self.num_blocks(),
                num_cases == cases@.len(),
                num_cases <= u32::MAX,
                self.switch_ok(cases@, default),
                self.targets_ok(cases@, default),
                0 <= case_idx <= num_cases,
                fuel > 0,
                merge_block_id matches Some(m) ==> m < self.num_blocks(),
                emitted_grows(old(emitted)@, emitted@),
                extends(old(out)@, out@),
                extends(ad, out@),
                ad.len() < out@.len() ==> out@[ad.len() as int] == Instr::End,
                forall|k: int| 0 <= k < case_idx ==> emitted@[#[trigger] cases@[k].target.block as int],
                !is_max_tag(layout.tag_map@, u32::MAX),
                self.spec_value_ty(scrutinee) matches Ty::Adt { def, .. } && self.ctx.adt_layouts@.contains_key(def)
                    && *layout == self.ctx.adt_layouts@[def],
                clean ==> merge_block_id is None
                    && self.loop_switch_exits_cleanly(scrutinee, cases@, default, header, exit, continue_depth, break_depth),
                !clean ==> !(fuel > 1
                    && self.loop_switch_exits_cleanly(scrutinee, cases@, default, header, exit, continue_depth, break_depth)),
                leaf == (fuel > 1 && self.loop_switch_targets_exit(cases@, default, header, exit, continue_depth, break_depth)),
                leaf ==> merge_block_id is None,
                leaf ==> ad == o + self.spec_switch_head(scrutinee, layout.tag_map@, cases@, has_default),
                leaf ==> (self.spec_loop_leaf_arms(cases@, case_idx as nat, has_default, header, continue_depth, break_depth)
                    matches Ok(a) && out@ == ad + a),
                o == old(out)@,
                has_default == default is Some,
            decreases num_cases - case_idx,
        {
            let case = &cases[case_idx];
            assert(self.target_ok(cases@[case_idx as int].target));
            let depth = Self::depth_to_merge(num_cases, case_idx, has_default)?;
            proof {
                if clean {
                    assert(self.loop_arm_exits_cleanly(cases@[case_idx as int].target.block, header, exit));
                }
                if leaf {
                    assert(self.spec_loop_switch_target_exits_directly(cases@[case_idx as int].target.block, header, exit));
                }
            }
            let ghost em0 = emitted@;
            let ra = self.emit_loop_switch_arm(
                out, &case.target, depth, merge_block_id, header, exit, continue_depth, break_depth, emitted, fuel,
            );
            proof {
                if leaf {
                    assert(self.spec_loop_leaf_arms(cases@, (case_idx + 1) as nat, has_default, header, continue_depth, break_depth)
                        == chain(self.spec_loop_leaf_arms(cases@, case_idx as nat, has_default, header, continue_depth, break_depth),
                            self.spec_loop_leaf_arm(cases@[case_idx as int].target, depth as int, header, continue_depth, break_depth)));
                    if ra is Err {
                        self.lemma_loop_leaf_arms_err(cases@, (case_idx + 1) as nat, cases@.len(), has_default, header,
                            continue_depth, break_depth);
                    } else if let (Ok(arm), Ok(a)) = (
                        self.spec_loop_leaf_arm(cases@[case_idx as int].target, depth as int, header, continue_depth, break_depth),
                        self.spec_loop_leaf_arms(cases@, case_idx as nat, has_default, header, continue_depth, break_depth),
                    ) {
                        assert(out@ =~= ad + (a + arm));
                    }
                }
            }
            ra?;
            assert forall|k: int| 0 <= k < case_idx + 1 implies emitted@[#[trigger] cases@[k].target.block as int] by {
                if k < case_idx {
                    assert(em0[cases@[k].target.block as int]);
                }
            }
            case_idx = case_idx + 1;
        }
        let ghost em2 = emitted@;
        let ghost p3 = out@;
        if let Some(def_target) = default {
            proof {
                if leaf {
                    assert(self.spec_loop_switch_target_exits_directly(def_target.block, header, exit));
                }
            }
            let ra = self.emit_loop_switch_arm(
                out, def_target, 0, merge_block_id, header, exit, continue_depth, break_depth, emitted, fuel,
            );
            proof {
                if leaf && ra is Err {
                    assert(self.spec_loop_leaf_arms(cases@, cases@.len(), has_default, header, continue_depth, break_depth) is Ok);
                }
            }
            ra?;
        }
        let ghost p4 = out@;
        let ghost em4 = emitted@;
        push(out, Instr::End);
        if let Some(merge_id) = merge_block_id {
            self.emit_loop_block_chain(out, merge_id, header, exit, continue_depth, break_depth, emitted, fuel - 1)?;
        } else {
            push(out, Instr::Unreachable);
        }
        proof {
            let head = o + self.spec_dispatch_head(scrutinee, cases@.len(), has_default);
            assert(ad.len() == head.len() + 1);
            assert(out@[ad.len() as int] == Instr::End);
            assert forall|i: int| 0 <= i < head.len() implies #[trigger] out@[i] == head[i] by {
                assert(ad.take(head.len() as int)[i] == ad[i]);
            }
            let m = choose|m: u32| #[trigger] is_max_tag(layout.tag_map@, m) && m < u32::MAX && {
                let head = o + self.spec_dispatch_head(scrutinee, cases@.len(), has_default);
                &&& ad.len() == head.len() + 1
                &&& ad.take(head.len() as int) == head
                &&& ad.last() matches Instr::BrTable(bt, d) && d == spec_default_depth(cases@.len(), has_default)
                    && bt.view() == spec_switch_targets(layout.tag_map@, cases@, (m + 1) as nat, d)
            };
            assert(out@[head.len() as int] == ad.last());
            assert(is_max_tag(layout.tag_map@, m));
            assert forall|k: int| 0 <= k < cases@.len() implies emitted@[#[trigger] cases@[k].target.block as int] by {
                assert(em2[cases@[k].target.block as int]);
                assert(em4[cases@[k].target.block as int]);
            }
            if let Some(d) = default {
                assert(em4[d.block as int]);
            }
            if leaf {
                let dc = match default {
                    Some(t) => self.spec_loop_leaf_arm(*t, 0, header, continue_depth, break_depth),
                    None => Ok(Seq::<Instr>::empty()),
                };
                if let (Ok(dcs), Ok(a)) = (dc, self.spec_loop_leaf_arms(cases@, cases@.len(), has_default, header,
                    continue_depth, break_depth)) {
                    assert(p4 == p3 + dcs);
                    assert(out@ =~= o + ((self.spec_switch_head(scrutinee, layout.tag_map@, cases@, has_default) + a)
                        + (dcs + seq![Instr::End, Instr::Unreachable])));
                }
            }
        }
        Ok(())
    }

    /// Emit the terminator of an arm of a switch inside a loop: a jump to the merge
    /// block, the loop header or the loop exit leaves through the matching block.
    pub(crate) fn emit_loop_switch_arm_terminator(
        &self,
        out: &mut Vec<Instr>,
        term: &Terminator,
        depth_to_merge: u32,
        switch_merge: Option<BlockId>,
        header: BlockId,
        exit: BlockId,
        continue_depth: u32,
        break_depth: u32,
        emitted: &mut Vec<bool>,
        fuel: u64,
    ) -> (r: Result<(), CodegenError>)
        requires
            self.cf_wf(),
            old(emitted)@.len() == self.num_blocks(),
            self.term_ok(*term),
            switch_merge matches Some(m) ==> m < self.num_blocks(),
        ensures
            cf_post(r, old(out)@, final(out)@, old(emitted)@, final(emitted)@),
            fuel > 0 ==> (term matches Terminator::Return(v) ==> r is Ok
                && final(out)@ == old(out)@ + self.spec_emit_get(*v) + seq![Instr::Return]
                && final(emitted)@ == old(emitted)@),
            fuel > 0 && term is Unreachable ==> r is Ok && final(out)@ == old(out)@.push(Instr::Unreachable)
                && final(emitted)@ == old(emitted)@,
            fuel > 0 ==> (term matches Terminator::Jump(t) ==> (Some(t.block) == switch_merge ==> r is Ok
                && final(out)@ == old(out)@ + self.spec_emit_block_param_stores(*t) + seq![Instr::Br(depth_to_merge)]
                && final(emitted)@ == old(emitted)@)),
            fuel > 0 ==> (term matches Terminator::Jump(t) ==> (Some(t.block) != switch_merge && t.block == header ==> (
                if continue_depth + depth_to_merge + 1 <= u32::MAX {
                    r is Ok && final(emitted)@ == old(emitted)@ && final(out)@ == old(out)@
                        + self.spec_emit_block_param_stores(*t) + seq![Instr::Br((continue_depth + depth_to_merge + 1) as u32)]
                } else {
                    r matches Err(e) && e is UnsupportedControlFlow
                }))),
            fuel > 0 ==> (term matches Terminator::Jump(t) ==> (Some(t.block) != switch_merge && t.block != header
                && t.block == exit ==> (
                if break_depth + depth_to_merge + 1 <= u32::MAX {
                    r is Ok && final(emitted)@ == old(emitted)@ && final(out)@ == old(out)@
                        + self.spec_emit_block_param_stores(*t) + seq![Instr::Br((break_depth + depth_to_merge + 1) as u32)]
                } else {
                    r matches Err(e) && e is UnsupportedControlFlow
                }))),
            fuel > 0 ==> (term matches Terminator::Jump(t) ==> (Some(t.block) != switch_merge && t.block != header
                && t.block != exit && r is Ok ==> extends(old(out)@ + self.spec_emit_block_param_stores(*t), final(out)@)
                && final(out)@.last() == Instr::Br(depth_to_merge) && final(emitted)@[t.block as int])),
            fuel > 13 ==> (term matches Terminator::Jump(t) ==> (Some(t.block) != switch_merge && t.block != header
                && t.block != exit && !old(emitted)@[t.block as int]
                && Self::fresh_blocks(self.spec_entered(t.block), old(emitted)@, switch_merge) ==> (
                self.spec_simple_block(t.block) matches Some(e) ==> emits(r, old(out)@, final(out)@,
                    chain(Ok(self.spec_emit_block_param_stores(*t)), chain(e, Ok(seq![Instr::Br(depth_to_merge)]))))))),
            fuel > 3 ==> (term matches Terminator::Branch { condition, then_target, else_target } ==> (
                then_target.block != else_target.block
                    && self.spec_simple_branch(*condition, *then_target, *else_target) is Some
                    && (self.spec_simple_merge(then_target.block, else_target.block) matches Some(Some(mb))
                        ==> !old(emitted)@[mb as int] && switch_merge != Some(mb))
                    ==> emits(r, old(out)@, final(out)@, chain(self.spec_simple_branch(*condition, *then_target, *else_target).unwrap(),
                        Ok(seq![Instr::Br(depth_to_merge)]))))),
            r is Ok && (term is Branch || term is Switch) ==> old(out)@.len() < final(out)@.len()
                && final(out)@.last() == Instr::Br(depth_to_merge),
            fuel > 1 && r is Ok ==> (term matches Terminator::Switch { scrutinee, cases, default } ==> self.switch_emitted(
                old(out)@, final(out)@.drop_last(), *scrutinee, cases@, default is Some)),
        decreases fuel, 1u64,
    {
        if fuel == 0 {
            return Err(too_deep());
        }
        let ghost o = out@;
        match term {
            Terminator::Return(val) => {
                self.get_ext(out, *val);
                push(out, Instr::Return);
            },
            Terminator::Unreachable => {
                push(out, Instr::Unreachable);
            },
            Terminator::Jump(target) => {
                proof {
                    self.lemma_block_ok(target.block);
                }
                self.stores_ext(out, target)?;
                if Some(target.block) == switch_merge {
                    push(out, Instr::Br(depth_to_merge));
                } else if target.block == header {
                    let d = match continue_depth.checked_add(depth_to_merge) {
                        Some(x) => x,
                        None => {
                            return Err(too_deep());
                        },
                    };
                    let d = match d.checked_add(1) {
                        Some(x) => x,
                        None => {
                            return Err(too_deep());
                        },
                    };
                    push(out, Instr::Br(d));
                } else if target.block == exit {
                    let d = match break_depth.checked_add(depth_to_merge) {
                        Some(x) => x,
                        None => {
                            return Err(too_deep());
                        },
                    };
                    let d = match d.checked_add(1) {
                        Some(x) => x,
                        None => {
                            return Err(too_deep());
                        },
                    };
                    push(out, Instr::Br(d));
                } else {
                    let ghost o1 = out@;
                    self.emit_block_chain(out, target.block, switch_merge, emitted, fuel - 1)?;
                    let ghost o2 = out@;
                    push(out, Instr::Br(depth_to_merge));
                    proof {
                        let st = self.spec_emit_block_param_stores(*target);
                        if let Some(Ok(c)) = self.spec_simple_block(target.block) {
                            if o2 == o1 + c {
                                assert(out@ =~= o + (st + (c + seq![Instr::Br(depth_to_merge)])));
                            }
                        }
                    }
                }
            },
            Terminator::Branch { condition, then_target, else_target } => {
                self.emit_branch(out, *condition, then_target, else_target, switch_merge, emitted, fuel - 1)?;
                let ghost o1 = out@;
                push(out, Instr::Br(depth_to_merge));
                proof {
                    if let Some(Ok(b)) = self.spec_simple_branch(*condition, *then_target, *else_target) {
                        if o1 == o + b {
                            assert(out@ =~= o + (b + seq![Instr::Br(depth_to_merge)]));
                        }
                    }
                }
            },
            Terminator::Switch { scrutinee, cases, default } => {
                self.emit_switch(out, *scrutinee, cases.as_slice(), default.as_ref(), switch_merge, emitted, fuel - 1)?;
                push(out, Instr::Br(depth_to_merge));
            },
        }
        Ok(())
    }
}

} // verus!
