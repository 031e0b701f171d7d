//! Emission of one instruction into the local of the value it defines, and of the
//! stores of jump arguments into block parameters.

use vstd::prelude::*;
use crate::error::{CodegenError, ErrorKind};
use crate::func::{chain, def_ok, emits, inst_operands, FuncCodegen};
use crate::func::emit_core::spec_const;
use crate::instr::Instr;
use crate::ir::{BlockParamDef, BranchTarget, Constant, Inst, ValueId};

verus! {

impl<'a> FuncCodegen<'a> {
    /// The instructions of a constant.
    pub open spec fn spec_emit_constant(&self, c: Constant) -> Seq<Instr> {
        match c {
            Constant::String(s) => self.spec_emit_string_const(vstd::utf8::encode_utf8(s@), s@.len()),
            _ => spec_const(c),
        }
    }

    /// The instructions of value `vid`'s instruction, which compute the value and
    /// set its local; none for parameters, a trap for a typed hole; an error where
    /// the instruction cannot be lowered.
    #[verifier::opaque]
    pub open spec fn spec_emit_inst(&self, vid: ValueId) -> Result<Seq<Instr>, ErrorKind> {
        let vd = self.kir_func.values@[vid as int];
        let set = seq![Instr::LocalSet(self.spec_local(vid))];
        match vd.inst {
            Inst::FnParam { .. } | Inst::BlockParam { .. } => Ok(Seq::empty()),
            Inst::Const(c) => Ok(self.spec_emit_constant(c) + set),
            Inst::Binary { op, lhs, rhs } => chain(self.spec_emit_binary(op, lhs, rhs), Ok(set)),
            Inst::Unary { op, operand } => chain(self.spec_emit_unary(op, operand), Ok(set)),
            Inst::Call { target, args } => chain(self.spec_emit_call(target, args@, vd.ty), Ok(set)),
            Inst::AdtConstruct { type_def, variant, fields } => chain(self.spec_emit_adt_construct(type_def, variant, fields@), Ok(set)),
            Inst::AdtFieldGet { base, field_index } => chain(self.spec_emit_adt_field_get(base, field_index, vd.ty), Ok(set)),
            Inst::RecordCreate { fields } => chain(self.spec_emit_record_create(fields@), Ok(set)),
            Inst::FieldGet { base, field } => chain(self.spec_emit_field_get(base, field, vd.ty), Ok(set)),
            Inst::Assert { condition } => Ok(self.spec_emit_assert(condition) + seq![Instr::I32Const(0)] + set),
            Inst::RecordUpdate { base, updates } => chain(self.spec_emit_record_update(base, updates@, vd.ty), Ok(set)),
            Inst::Hole => Ok(seq![Instr::Unreachable]),
            Inst::FnRef { name } => chain(self.spec_emit_closure_create(name, Seq::empty()), Ok(set)),
            Inst::ClosureCreate { name, captures } => chain(self.spec_emit_closure_create(name, captures@), Ok(set)),
        }
    }

    /// Emit the instruction that defines value `vid`.
    #[verifier::spinoff_prover]
    #[verifier::rlimit(40)]
    pub(crate) fn emit_inst(&self, out: &mut Vec<Instr>, vid: ValueId) -> (r: Result<(), CodegenError>)
        requires
            self.wf(),
            self.value_ok(vid),
        ensures
            emits(r, old(out)@, final(out)@, self.spec_emit_inst(vid)),
    {
        proof {
            reveal(FuncCodegen::spec_emit_inst);
            self.lemma_value_def_ok(vid);
            self.lemma_operands_ok(vid);
        }
        let vdef = &self.kir_func.values[vid as usize];
        let local_idx = self.local_for(vid);
        let ghost start = out@;
        match &vdef.inst {
            Inst::FnParam { .. } | Inst::BlockParam { .. } => {
                assert(out@ =~= start + Seq::<Instr>::empty());
                return Ok(());
            },
            Inst::Const(c) => {
                self.emit_const(out, c);
            },
            Inst::Binary { op, lhs, rhs } => {
                assert(inst_operands(vdef.inst)[0] == *lhs && inst_operands(vdef.inst)[1] == *rhs);
                self.emit_binary(out, *op, *lhs, *rhs, &vdef.ty)?;
            },
            Inst::Unary { op, operand } => {
                assert(inst_operands(vdef.inst)[0] == *operand);
                self.emit_unary(out, *op, *operand)?;
            },
            Inst::Call { target, args } => {
                assert forall|k: int| 0 <= k < args@.len() implies self.value_ok(#[trigger] args@[k]) by {
                    assert(inst_operands(vdef.inst)[k] == args@[k]);
                }
                if let crate::ir::CallTarget::Indirect(callee) = target {
                    assert(inst_operands(vdef.inst)[args@.len() as int] == *callee);
                }
                self.emit_call(out, target, args.as_slice(), &vdef.ty)?;
            },
            Inst::AdtConstruct { type_def, variant, fields } => {
                assert forall|k: int| 0 <= k < fields@.len() implies self.value_ok(#[trigger] fields@[k]) by {
                    assert(inst_operands(vdef.inst)[k] == fields@[k]);
                }
                self.emit_adt_construct(out, *type_def, *variant, fields.as_slice())?;
            },
            Inst::AdtFieldGet { base, field_index } => {
                assert(inst_operands(vdef.inst)[0] == *base);
                self.emit_adt_field_get(out, *base, *field_index, &vdef.ty)?;
            },
            Inst::RecordCreate { fields } => {
                assert forall|k: int| 0 <= k < fields@.len() implies self.value_ok(#[trigger] fields@[k].1) by {
                    assert(inst_operands(vdef.inst)[k] == fields@[k].1);
                }
                self.emit_record_create(out, fields.as_slice())?;
            },
            Inst::FieldGet { base, field } => {
                assert(inst_operands(vdef.inst)[0] == *base);
                self.emit_field_get(out, *base, *field, &vdef.ty)?;
            },
            Inst::Assert { condition } => {
                assert(inst_operands(vdef.inst)[0] == *condition);
                self.emit_assert(out, *condition);
                out.push(Instr::I32Const(0));
            },
            Inst::RecordUpdate { base, updates } => {
                assert forall|k: int| 0 <= k < updates@.len() implies self.value_ok(#[trigger] updates@[k].1) by {
                    assert(inst_operands(vdef.inst)[k] == updates@[k].1);
                }
                assert(inst_operands(vdef.inst)[updates@.len() as int] == *base);
                self.emit_record_update(out, *base, updates.as_slice(), &vdef.ty)?;
            },
            Inst::Hole => {
                out.push(Instr::Unreachable);
                assert(out@ =~= start + seq![Instr::Unreachable]);
                return Ok(());
            },
            Inst::FnRef { name } => {
                let no_captures: Vec<ValueId> = Vec::new();
                self.emit_closure_create(out, *name, no_captures.as_slice())?;
                assert(no_captures@ =~= Seq::<ValueId>::empty());
            },
            Inst::ClosureCreate { name, captures } => {
                assert forall|k: int| 0 <= k < captures@.len() implies self.value_ok(#[trigger] captures@[k]) by {
                    assert(inst_operands(vdef.inst)[k] == captures@[k]);
                }
                self.emit_closure_create(out, *name, captures.as_slice())?;
            },
        }
        out.push(Instr::LocalSet(local_idx));
        assert(self.spec_emit_inst(vid) matches Ok(s) && out@ =~= start + s);
        Ok(())
    }

    /// The stores of jump arguments into the locals of the target block's
    /// parameters, pairwise, as far as both lists go.
    pub open spec fn spec_param_stores(&self, args: Seq<ValueId>, params: Seq<BlockParamDef>) -> Seq<Instr>
        decreases args.len(),
    {
        if args.len() == 0 || params.len() == 0 {
            Seq::empty()
        } else {
            seq![Instr::LocalGet(self.spec_local(args[0])), Instr::LocalSet(self.spec_local(params[0].value))]
                + self.spec_param_stores(args.drop_first(), params.drop_first())
        }
    }

    /// The stores of the arguments of a jump to `target`.
    pub open spec fn spec_emit_block_param_stores(&self, target: BranchTarget) -> Seq<Instr> {
        self.spec_param_stores(target.args@, self.kir_func.blocks@[target.block as int].params@)
    }

    /// Store the arguments of a jump to `target` into the target block's parameters.
    pub(crate) fn emit_block_param_stores(&self, out: &mut Vec<Instr>, target: &BranchTarget) -> (r: Result<(), CodegenError>)
        requires
            self.wf(),
            target.block < self.kir_func.blocks@.len(),
            forall|k: int| 0 <= k < target.args@.len() ==> self.value_ok(#[trigger] target.args@[k]),
            forall|k: int| 0 <= k < self.kir_func.blocks@[target.block as int].params@.len()
                ==> self.value_ok(#[trigger] self.kir_func.blocks@[target.block as int].params@[k].value),
        ensures
            emits(r, old(out)@, final(out)@, Ok(self.spec_emit_block_param_stores(*target))),
    {
        let block = &self.kir_func.blocks[target.block as usize];
        let ghost start = out@;
        let ghost args = target.args@;
        let ghost params = block.params@;
        let mut i: usize = 0;
        assert(args.skip(0) =~= args);
        assert(params.skip(0) =~= params);
        while i < target.args.len() && i < block.params.len()
            invariant
                self.wf(),
                args == target.args@,
                params == block.params@,
                forall|k: int| 0 <= k < args.len() ==> self.value_ok(#[trigger] args[k]),
                forall|k: int| 0 <= k < params.len() ==> self.value_ok(#[trigger] params[k].value),
                0 <= i <= args.len(),
                i <= params.len(),
                out@ + self.spec_param_stores(args.skip(i as int), params.skip(i as int))
                    == start + self.spec_param_stores(args, params),
            decreases args.len() - i,
        {
            assert(args.skip(i as int).drop_first() =~= args.skip(i + 1));
            assert(params.skip(i as int).drop_first() =~= params.skip(i + 1));
            assert(args.skip(i as int)[0] == args[i as int]);
            assert(params.skip(i as int)[0] == params[i as int]);
            let mut w: Vec<Instr> = vec![
                Instr::LocalGet(self.local_for(target.args[i])),
                Instr::LocalSet(self.local_for(block.params[i].value)),
            ];
            out.append(&mut w);
            i = i + 1;
            assert(out@ + self.spec_param_stores(args.skip(i as int), params.skip(i as int))
                =~= start + self.spec_param_stores(args, params));
        }
        assert(self.spec_param_stores(args.skip(i as int), params.skip(i as int)) =~= Seq::<Instr>::empty());
        assert(out@ =~= start + self.spec_param_stores(args, params));
        Ok(())
    }
}

} // verus!
