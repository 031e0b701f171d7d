//! Per-function WASM code generation.

pub mod emit_arith;
pub mod emit_core;
pub mod emit_string;
pub mod emit_seq;
pub mod emit_closure;
pub mod emit_variant;
pub mod emit_seq_fold;
pub mod emit_option;
pub mod emit_ops;
pub mod emit_record;
pub mod emit_inst;
pub mod emit_control;
pub mod emit_structured;
pub mod behaviour;
pub mod behaviour_string;
pub mod behaviour_seq;
pub mod behaviour_math;

use vstd::prelude::*;
use crate::error::{CodegenError, ErrorKind};
use crate::instr::{BlockTy, Instr, ValTy};
use crate::encode::{body_bytes, encode_body, instrs_bytes, locals_bytes};
use wasm_encoder::Function;
use crate::ir::{str_eq, BinaryOp, BranchTarget, CallTarget, Constant, Inst, Intrinsic, KirFunction, Terminator, Ty, UnaryOp, ValueDef, ValueId};
use crate::module::ModuleCtx;
use crate::ir::ItemTree;
use crate::ty::{spec_valtype, ty_to_valtype};

verus! {

/// The values that an instruction reads.
pub open spec fn inst_operands(i: Inst) -> Seq<ValueId> {
    match i {
        Inst::Binary { lhs, rhs, .. } => seq![lhs, rhs],
        Inst::Unary { operand, .. } => seq![operand],
        Inst::Call { target, args } => match target {
            CallTarget::Indirect(callee) => args@.push(callee),
            _ => args@,
        },
        Inst::AdtConstruct { fields, .. } => fields@,
        Inst::AdtFieldGet { base, .. } => seq![base],
        Inst::RecordCreate { fields } => fields@.map_values(|p: (crate::ir::Name, ValueId)| p.1),
        Inst::FieldGet { base, .. } => seq![base],
        Inst::Assert { condition } => seq![condition],
        Inst::RecordUpdate { base, updates } => updates@.map_values(|p: (crate::ir::Name, ValueId)| p.1).push(base),
        Inst::ClosureCreate { captures, .. } => captures@,
        _ => Seq::empty(),
    }
}

/// Whether the values that jump target `t` passes are among the first `n` values.
pub open spec fn target_values_ok(t: BranchTarget, n: nat) -> bool {
    forall|k: int| 0 <= k < t.args@.len() ==> #[trigger] t.args@[k] < n
}

/// Whether the values that a terminator reads, its jump arguments included, are
/// among the first `n` values.
pub open spec fn term_values_ok(t: Terminator, n: nat) -> bool {
    match t {
        Terminator::Return(v) => v < n,
        Terminator::Jump(target) => target_values_ok(target, n),
        Terminator::Branch { condition, then_target, else_target } =>
            condition < n && target_values_ok(then_target, n) && target_values_ok(else_target, n),
        Terminator::Switch { scrutinee, cases, default } => {
            &&& scrutinee < n
            &&& forall|i: int| 0 <= i < cases@.len() ==> #[trigger] target_values_ok(cases@[i].target, n)
            &&& (default matches Some(d) ==> target_values_ok(d, n))
        },
        Terminator::Unreachable => true,
    }
}

/// Whether every value that block `b` mentions exists.
pub open spec fn block_values_ok(f: &KirFunction, b: int) -> bool {
    let n = f.values@.len();
    &&& forall|k: int| 0 <= k < f.blocks@[b].body@.len() ==> #[trigger] f.blocks@[b].body@[k] < n
    &&& forall|k: int| 0 <= k < f.blocks@[b].params@.len() ==> #[trigger] f.blocks@[b].params@[k].value < n
    &&& match f.blocks@[b].terminator {
        Some(t) => term_values_ok(t, n),
        None => true,
    }
}

/// Whether every value that `f` mentions exists.
pub open spec fn values_wf(f: &KirFunction) -> bool {
    let n = f.values@.len();
    &&& n <= u32::MAX
    &&& forall|v: int, k: int|
        0 <= v < n && 0 <= k < inst_operands(f.values@[v].inst).len() ==> #[trigger] inst_operands(f.values@[v].inst)[k] < n
    &&& forall|b: int| 0 <= b < f.blocks@.len() ==> #[trigger] block_values_ok(f, b)
}

/// Per-function codegen state.
pub struct FuncCodegen<'a> {
    pub kir_func: &'a KirFunction,
    pub ctx: &'a ModuleCtx<'a>,
    /// Value -> WASM local index.
    pub local_map: Vec<u32>,
    /// Types of the non-parameter locals (for WASM local declarations).
    pub local_types: Vec<ValTy>,
    /// Next available local index.
    pub next_local: u32,
    pub scratch_i64: u32,
    pub scratch_i64_2: u32,
    pub scratch_i64_3: u32,
    pub scratch_i64_4: u32,
    pub scratch_f64: u32,
    pub scratch_i32: u32,
    pub scratch_i32_2: u32,
    pub scratch_i32_3: u32,
    pub scratch_i32_4: u32,
    pub scratch_i32_5: u32,
    pub scratch_i32_6: u32,
    pub scratch_i32_7: u32,
    pub scratch_i32_8: u32,
    pub scratch_i32_9: u32,
    pub scratch_i32_10: u32,
}

/// The number of arguments that an intrinsic reads.
pub open spec fn intrinsic_arity(i: Intrinsic) -> nat {
    match i {
        Intrinsic::CharToDigit | Intrinsic::FloatMax | Intrinsic::FloatMin | Intrinsic::Gcd
        | Intrinsic::IntPow | Intrinsic::Lcm | Intrinsic::Max | Intrinsic::Min | Intrinsic::SeqRange
        | Intrinsic::SeqAny | Intrinsic::SeqAll | Intrinsic::SeqCountBy | Intrinsic::SeqContains
        | Intrinsic::SeqFind | Intrinsic::OptionUnwrapOr | Intrinsic::OptionMap
        | Intrinsic::OptionAndThen | Intrinsic::ResultUnwrapOr | Intrinsic::ResultMap
        | Intrinsic::ResultAndThen | Intrinsic::ResultMapErr | Intrinsic::StringContains
        | Intrinsic::StringConcat | Intrinsic::StringEndsWith | Intrinsic::StringSplit
        | Intrinsic::StringStartsWith => 2,
        Intrinsic::SeqFold | Intrinsic::OptionMapOr | Intrinsic::ResultMapOr
        | Intrinsic::StringStartsWithFrom | Intrinsic::StringSubstring => 3,
        Intrinsic::ReadFile | Intrinsic::Print | Intrinsic::Println | Intrinsic::Other(_) => 0,
        _ => 1,
    }
}

/// Whether the host helper that an intrinsic calls, if any, is imported.
pub open spec fn helper_imported(ctx: &ModuleCtx, i: Intrinsic) -> bool {
    match i {
        Intrinsic::StringMd5 => ctx.string_md5_fn_index is Some,
        Intrinsic::StringToLower => ctx.string_to_lower_fn_index is Some,
        Intrinsic::StringToUpper => ctx.string_to_upper_fn_index is Some,
        Intrinsic::ParseInt => ctx.parse_int_fn_index is Some,
        Intrinsic::ParseFloat => ctx.parse_float_fn_index is Some,
        _ => true,
    }
}

/// Whether the ADT type of a value, and the ADT that its instruction constructs, name
/// definitions among the first `ntypes`, and an intrinsic call has the arguments that
/// the intrinsic reads.
pub open spec fn def_ok(vd: ValueDef, ntypes: nat) -> bool {
    &&& (vd.ty matches Ty::Adt { def, .. } ==> def < ntypes)
    &&& (vd.inst matches Inst::AdtConstruct { type_def, .. } ==> type_def < ntypes)
    &&& (vd.inst matches Inst::Call { target: CallTarget::Intrinsic(i), args } ==> args@.len() >= intrinsic_arity(i))
    &&& (vd.inst matches Inst::RecordCreate { fields } ==> fields@.len() * 8 <= u32::MAX)
    &&& (vd.inst matches Inst::AdtConstruct { fields, .. } ==> 8 + fields@.len() * 8 <= u32::MAX)
    &&& (vd.inst matches Inst::AdtFieldGet { field_index, .. } ==> 8 + field_index * 8 <= u32::MAX)
    &&& (vd.inst matches Inst::ClosureCreate { captures, .. } ==> 8 * (captures@.len() + 1) <= i32::MAX)
    &&& (vd.inst matches Inst::Const(Constant::String(s)) ==> 8 + s@.len() <= i32::MAX
        && 8 + vstd::utf8::encode_utf8(s@).len() <= i32::MAX)
}

/// Whether the host helpers that the intrinsic calls of `f` need are imported.
pub open spec fn helpers_imported(f: &KirFunction, ctx: &ModuleCtx) -> bool {
    forall|v: int|
        0 <= v < f.values@.len() ==> ((#[trigger] f.values@[v]).inst matches Inst::Call { target: CallTarget::Intrinsic(i), .. }
            ==> helper_imported(ctx, i))
}

/// Whether a record type has few enough fields for its slots to be addressed with
/// 32-bit offsets.
pub open spec fn record_fits(tree: &ItemTree, ty: Ty) -> bool {
    crate::func::emit_record::record_names(tree, ty) matches Some(names) ==> names.len() * 8 <= u32::MAX
}

/// Whether every ADT that the values of `f` mention names one of `ntypes` definitions.
pub open spec fn defs_in_range(f: &KirFunction, ntypes: nat) -> bool {
    forall|v: int| 0 <= v < f.values@.len() ==> #[trigger] def_ok(f.values@[v], ntypes)
}

/// The instructions of two emission steps in turn, or the error of the first that fails.
pub open spec fn chain(a: Result<Seq<Instr>, ErrorKind>, b: Result<Seq<Instr>, ErrorKind>) -> Result<Seq<Instr>, ErrorKind> {
    match a {
        Err(k) => Err(k),
        Ok(x) => match b {
            Err(k) => Err(k),
            Ok(y) => Ok(x + y),
        },
    }
}

/// A fallible emitter's outcome `r` agrees with its specification `e`: where `e` holds
/// instructions, the emitter succeeded and appended them to `before`, giving `after`;
/// where `e` holds an error kind, the emitter failed with an error of that kind.
pub open spec fn emits(r: Result<(), CodegenError>, before: Seq<Instr>, after: Seq<Instr>, e: Result<Seq<Instr>, ErrorKind>) -> bool {
    match e {
        Ok(s) => r is Ok && after == before + s,
        Err(k) => r matches Err(err) && err.kind() == k,
    }
}

/// A function emission's outcome `r` agrees with the specification `e` of its body's
/// instructions: where `e` holds instructions, the function's bytes are its locals
/// header, those instructions and `end`; where `e` holds an error kind, emission
/// failed with an error of that kind.
pub open spec fn body_emitted(r: Result<Function, CodegenError>, locals: Seq<(u32, ValTy)>, e: Result<Seq<Instr>, ErrorKind>) -> bool {
    match e {
        Ok(s) => r matches Ok(func) && body_bytes(func) == locals_bytes(locals) + instrs_bytes(s.push(Instr::End)),
        Err(k) => r matches Err(err) && err.kind() == k,
    }
}

/// The WASM type of a value whose type is poison, read off its instruction.
pub open spec fn spec_infer_wasm_type(i: Inst) -> ValTy {
    match i {
        Inst::Const(Constant::Int(_)) => ValTy::I64,
        Inst::Const(Constant::Float(_)) => ValTy::F64,
        Inst::Binary { op, .. } => if op.spec_returns_bool() { ValTy::I32 } else { ValTy::I64 },
        Inst::Unary { op: UnaryOp::Neg, .. } => ValTy::I64,
        Inst::Unary { op: UnaryOp::BitNot, .. } => ValTy::I64,
        _ => ValTy::I32,
    }
}

/// Number of values before `v` that are not function parameters.
pub open spec fn non_param_before(f: &KirFunction, v: int) -> nat
    decreases v,
{
    if v <= 0 {
        0
    } else {
        non_param_before(f, v - 1) + if f.values@[v - 1].inst is FnParam { 0nat } else { 1nat }
    }
}

/// The local of each value: a parameter's own index; otherwise the next free local
/// after the parameters, in value order.
pub open spec fn spec_local_of(f: &KirFunction, v: int) -> u32 {
    match f.values@[v].inst {
        Inst::FnParam { index } => index,
        _ => (f.params@.len() + non_param_before(f, v)) as u32,
    }
}

/// The WASM type of the local of a non-parameter value.
pub open spec fn spec_value_local_type(f: &KirFunction, v: int) -> ValTy {
    if f.values@[v].ty.spec_is_poison() {
        spec_infer_wasm_type(f.values@[v].inst)
    } else {
        spec_valtype(f.values@[v].ty).unwrap()
    }
}

/// The types of the locals of the non-parameter values among the first `v` values.
pub open spec fn spec_value_local_types(f: &KirFunction, v: int) -> Seq<ValTy>
    decreases v,
{
    if v <= 0 {
        Seq::empty()
    } else {
        let prev = spec_value_local_types(f, v - 1);
        if f.values@[v - 1].inst is FnParam { prev } else { prev.push(spec_value_local_type(f, v - 1)) }
    }
}

/// Whether every non-parameter value has a WASM type.
pub open spec fn all_values_typed(f: &KirFunction) -> bool {
    forall|v: int|
        0 <= v < f.values@.len() && !(f.values@[v].inst is FnParam) && !f.values@[v].ty.spec_is_poison()
            ==> #[trigger] spec_valtype(f.values@[v].ty) is Some
}

/// The types of the scratch locals, which follow the value locals.
pub open spec fn scratch_types() -> Seq<ValTy> {
    seq![ValTy::I64, ValTy::I64, ValTy::I64, ValTy::I64, ValTy::F64, ValTy::I32, ValTy::I32, ValTy::I32,
        ValTy::I32, ValTy::I32, ValTy::I32, ValTy::I32, ValTy::I32, ValTy::I32, ValTy::I32]
}

proof fn lemma_non_param_before_bound(f: &KirFunction, v: int)
    requires
        0 <= v <= f.values@.len(),
    ensures
        non_param_before(f, v) <= v,
        spec_value_local_types(f, v).len() == non_param_before(f, v),
    decreases v,
{
    if v > 0 {
        lemma_non_param_before_bound(f, v - 1);
    }
}

impl<'a> FuncCodegen<'a> {
    /// The codegen state is consistent with its function.
    pub open spec fn wf(&self) -> bool {
        &&& self.inputs_ok()
        &&& self.local_map@.len() == self.kir_func.values@.len()
    }

    /// The function and the module context are consistent: the function's values
    /// and blocks refer to each other and to the module's definitions within range,
    /// and the helpers that its intrinsics call are imported.
    pub open spec fn inputs_ok(&self) -> bool {
        &&& values_wf(self.kir_func)
        &&& crate::control::blocks_wf(self.kir_func)
        &&& self.ctx.wf()
        &&& defs_in_range(self.kir_func, self.ctx.item_tree.types@.len())
        &&& helpers_imported(self.kir_func, self.ctx)
        &&& forall|v: ValueId| self.value_ok(v) ==> #[trigger] self.value_fits(v)
    }

    /// A record type of value `v` has few enough fields for its slots to be
    /// addressed with 32-bit offsets.
    pub open spec fn value_fits(&self, v: ValueId) -> bool {
        record_fits(self.ctx.item_tree, self.spec_value_ty(v))
    }

    /// The values that the instruction of value `v` reads are values of the function.
    pub proof fn lemma_operands_ok(&self, v: ValueId)
        requires
            self.wf(),
            self.value_ok(v),
        ensures
            forall|k: int| 0 <= k < inst_operands(self.kir_func.values@[v as int].inst).len()
                ==> self.value_ok(#[trigger] inst_operands(self.kir_func.values@[v as int].inst)[k]),
    {
    }

    /// What well-formedness says of one value.
    pub proof fn lemma_value_def_ok(&self, v: ValueId)
        requires
            self.wf(),
            self.value_ok(v),
        ensures
            def_ok(self.kir_func.values@[v as int], self.ctx.item_tree.types@.len()),
            self.ty_def_ok(self.spec_value_ty(v)),
            self.value_fits(v),
    {
        assert(def_ok(self.kir_func.values@[v as int], self.ctx.item_tree.types@.len()));
        assert(self.value_fits(v));
    }

    /// The type of value `v`.
    pub open spec fn spec_value_ty(&self, v: ValueId) -> Ty {
        self.kir_func.values@[v as int].ty
    }

    /// The local that holds value `v`.
    pub open spec fn spec_local(&self, v: ValueId) -> u32 {
        self.local_map@[v as int]
    }

    /// Whether `v` names a value of the function.
    pub open spec fn value_ok(&self, v: ValueId) -> bool {
        v < self.kir_func.values@.len()
    }

    /// Fresh codegen state for a function: no locals allocated yet.
    pub fn new(kir_func: &'a KirFunction, ctx: &'a ModuleCtx<'a>) -> (s: Self)
        requires
            kir_func.params@.len() <= u32::MAX,
        ensures
            s.kir_func == kir_func,
            s.ctx == ctx,
            s.local_map@.len() == 0,
            s.local_types@.len() == 0,
            s.next_local == kir_func.params@.len(),
    {
        FuncCodegen {
            kir_func,
            ctx,
            local_map: Vec::new(),
            local_types: Vec::new(),
            next_local: kir_func.params.len() as u32,
            scratch_i64: 0,
            scratch_i64_2: 0,
            scratch_i64_3: 0,
            scratch_i64_4: 0,
            scratch_f64: 0,
            scratch_i32: 0,
            scratch_i32_2: 0,
            scratch_i32_3: 0,
            scratch_i32_4: 0,
            scratch_i32_5: 0,
            scratch_i32_6: 0,
            scratch_i32_7: 0,
            scratch_i32_8: 0,
            scratch_i32_9: 0,
            scratch_i32_10: 0,
        }
    }

    /// The WASM type of a value whose type is poison, read off its instruction.
    fn infer_wasm_type_from_inst(&self, inst: &Inst) -> (r: ValTy)
        ensures
            r == spec_infer_wasm_type(*inst),
    {
        match inst {
            Inst::Const(Constant::Int(_)) => ValTy::I64,
            Inst::Const(Constant::Float(_)) => ValTy::F64,
            Inst::Binary { op, .. } => {
                if op.returns_bool() {
                    ValTy::I32
                } else {
                    ValTy::I64
                }
            },
            Inst::Unary { op: UnaryOp::Neg, .. } | Inst::Unary { op: UnaryOp::BitNot, .. } => ValTy::I64,
            _ => ValTy::I32,
        }
    }

    /// The locals of the codegen state are those allocated for its function: each
    /// value's local, the value locals' types followed by the scratch locals' types,
    /// and the scratch locals after the value locals.
    pub open spec fn locals_allocated(&self) -> bool {
        let f = self.kir_func;
        let base = (f.params@.len() + non_param_before(f, f.values@.len() as int)) as u32;
        &&& self.local_map@.len() == f.values@.len()
        &&& forall|v: int| 0 <= v < f.values@.len() ==> #[trigger] self.local_map@[v] == spec_local_of(f, v)
        &&& self.local_types@ == spec_value_local_types(f, f.values@.len() as int) + scratch_types()
        &&& self.next_local == base + 15
        &&& self.scratch_i64 == base
        &&& self.scratch_i64_2 == base + 1
        &&& self.scratch_i64_3 == base + 2
        &&& self.scratch_i64_4 == base + 3
        &&& self.scratch_f64 == base + 4
        &&& self.scratch_i32 == base + 5
        &&& self.scratch_i32_2 == base + 6
        &&& self.scratch_i32_3 == base + 7
        &&& self.scratch_i32_4 == base + 8
        &&& self.scratch_i32_5 == base + 9
        &&& self.scratch_i32_6 == base + 10
        &&& self.scratch_i32_7 == base + 11
        &&& self.scratch_i32_8 == base + 12
        &&& self.scratch_i32_9 == base + 13
        &&& self.scratch_i32_10 == base + 14
    }

    /// Allocate a local for every value and the scratch locals after them.
    pub(crate) fn allocate_locals(&mut self) -> (r: Result<(), CodegenError>)
        requires
            old(self).local_map@.len() == 0,
            old(self).local_types@.len() == 0,
            old(self).next_local == old(self).kir_func.params@.len(),
            old(self).kir_func.params@.len() + old(self).kir_func.values@.len() + 15 <= u32::MAX,
        ensures
            final(self).kir_func == old(self).kir_func,
            final(self).ctx == old(self).ctx,
            r is Ok <==> all_values_typed(old(self).kir_func),
            r is Err ==> r matches Err(CodegenError::UnsupportedType(_)),
            r is Ok ==> final(self).locals_allocated(),
    {
        let f = self.kir_func;
        let n = f.values.len();
        let ghost np = f.params@.len();
        let mut local_map: Vec<u32> = Vec::new();
        let mut v: usize = 0;
        while v < n
            invariant
                n == f.values@.len(),
                0 <= v <= n,
                np == f.params@.len(),
                np + n + 15 <= u32::MAX,
                self.kir_func == f,
                f == old(self).kir_func,
                self.ctx == old(self).ctx,
                self.next_local == np + non_param_before(f, v as int),
                self.local_types@ == spec_value_local_types(f, v as int),
                local_map@.len() == v,
                forall|k: int| 0 <= k < v ==> #[trigger] local_map@[k] == spec_local_of(f, k),
                all_values_typed(f) ==> true,
                forall|k: int|
                    0 <= k < v && !(f.values@[k].inst is FnParam) && !f.values@[k].ty.spec_is_poison()
                        ==> #[trigger] spec_valtype(f.values@[k].ty) is Some,
            decreases n - v,
        {
            proof {
                lemma_non_param_before_bound(f, v as int);
            }
            let vdef = &f.values[v];
            match &vdef.inst {
                Inst::FnParam { index } => {
                    local_map.push(*index);
                },
                _ => {
                    let wasm_ty = if vdef.ty.is_poison() {
                        self.infer_wasm_type_from_inst(&vdef.inst)
                    } else {
                        match ty_to_valtype(&vdef.ty) {
                            Ok(t) => t,
                            Err(e) => {
                                return Err(e);
                            },
                        }
                    };
                    let local_idx = self.next_local;
                    self.next_local = self.next_local + 1;
                    self.local_types.push(wasm_ty);
                    local_map.push(local_idx);
                },
            }
            v = v + 1;
        }
        proof {
            lemma_non_param_before_bound(f, n as int);
        }
        self.local_map = local_map;
        self.scratch_i64 = self.next_local;
        self.scratch_i64_2 = self.next_local + 1;
        self.scratch_i64_3 = self.next_local + 2;
        self.scratch_i64_4 = self.next_local + 3;
        self.scratch_f64 = self.next_local + 4;
        self.scratch_i32 = self.next_local + 5;
        self.scratch_i32_2 = self.next_local + 6;
        self.scratch_i32_3 = self.next_local + 7;
        self.scratch_i32_4 = self.next_local + 8;
        self.scratch_i32_5 = self.next_local + 9;
        self.scratch_i32_6 = self.next_local + 10;
        self.scratch_i32_7 = self.next_local + 11;
        self.scratch_i32_8 = self.next_local + 12;
        self.scratch_i32_9 = self.next_local + 13;
        self.scratch_i32_10 = self.next_local + 14;
        self.next_local = self.next_local + 15;
        let mut scratch: Vec<ValTy> = vec![ValTy::I64, ValTy::I64, ValTy::I64, ValTy::I64, ValTy::F64, ValTy::I32, ValTy::I32, ValTy::I32,
            ValTy::I32, ValTy::I32, ValTy::I32, ValTy::I32, ValTy::I32, ValTy::I32, ValTy::I32];
        self.local_types.append(&mut scratch);
        Ok(())
    }

    /// The locals of the function body: one entry per local after the parameters,
    /// each a single local of its type.
    pub open spec fn spec_locals(f: &KirFunction) -> Seq<(u32, ValTy)> {
        (spec_value_local_types(f, f.values@.len() as int) + scratch_types()).map_values(|t: ValTy| (1u32, t))
    }

    /// Allocate locals for all values and emit the function body: the locals header
    /// and the body's instructions, ending in `end`. An unsupported type error where
    /// a value that is no parameter has a type without a WASM value type. Where the
    /// entry block's control flow is simple (it ends the function; branches to arms
    /// that end it or meet at a block that ends it; heads a loop whose body jumps
    /// back and whose exit ends the function; switches to arms that all end it or
    /// all jump to one block that ends it; or jumps to such a block), the
    /// instructions are exactly those of that control flow, with the locals as
    /// allocated.
    pub fn emit(self) -> (r: Result<Function, CodegenError>)
        requires
            self.local_map@.len() == 0,
            self.local_types@.len() == 0,
            self.next_local == self.kir_func.params@.len(),
            self.kir_func.params@.len() + self.kir_func.values@.len() + 15 <= u32::MAX,
            self.inputs_ok(),
        ensures
            !all_values_typed(self.kir_func) ==> (r matches Err(e) && e.kind() == ErrorKind::UnsupportedType),
            r matches Ok(f) ==> exists|instrs: Seq<Instr>|
                body_bytes(f) == locals_bytes(Self::spec_locals(self.kir_func)) + instrs_bytes(instrs)
                && instrs.len() > 0 && instrs.last() == Instr::End,
            all_values_typed(self.kir_func) ==> exists|cg: FuncCodegen<'a>|
                #[trigger] cg.locals_allocated() && cg.kir_func == self.kir_func && cg.ctx == self.ctx
                && (cg.spec_simple_block(self.kir_func.entry_block) matches Some(e)
                    ==> body_emitted(r, Self::spec_locals(self.kir_func), e)),
    {
        let ghost f = self.kir_func;
        let ghost s0 = self;
        let mut cg = self;
        cg.allocate_locals()?;
        assert forall|v: ValueId| cg.value_ok(v) implies #[trigger] cg.value_fits(v) by {
            assert(s0.value_fits(v));
        }
        let mut locals: Vec<(u32, ValTy)> = Vec::new();
        let mut i: usize = 0;
        while i < cg.local_types.len()
            invariant
                0 <= i <= cg.local_types@.len(),
                locals@ == cg.local_types@.take(i as int).map_values(|t: ValTy| (1u32, t)),
            decreases cg.local_types@.len() - i,
        {
            locals.push((1, cg.local_types[i]));
            i = i + 1;
            assert(locals@ =~= cg.local_types@.take(i as int).map_values(|t: ValTy| (1u32, t)));
        }
        assert(cg.local_types@.take(i as int) =~= cg.local_types@);
        proof {
            lemma_non_param_before_bound(f, f.values@.len() as int);
        }
        let ghost snap = cg;
        let mut instrs: Vec<Instr> = Vec::new();
        let rb = cg.emit_body(&mut instrs);
        if let Err(e) = rb {
            assert(snap.locals_allocated());
            return Err(e);
        }
        let ghost body = instrs@;
        instrs.push(Instr::End);
        let func = encode_body(&locals, &instrs);
        proof {
            assert(snap.locals_allocated());
            if let Some(Ok(s)) = snap.spec_simple_block(f.entry_block) {
                assert(body =~= Seq::<Instr>::empty() + s);
                assert(instrs@ =~= s.push(Instr::End));
            }
        }
        Ok(func)
    }

    /// The local that holds value `vid`.
    pub(crate) fn local_for(&self, vid: ValueId) -> (r: u32)
        requires
            self.wf(),
            self.value_ok(vid),
        ensures
            r == self.spec_local(vid),
    {
        self.local_map[vid as usize]
    }

    /// The type of value `vid`.
    pub(crate) fn value_ty(&self, vid: ValueId) -> (r: &Ty)
        requires
            self.value_ok(vid),
        ensures
            *r == self.kir_func.values@[vid as int].ty,
    {
        &self.kir_func.values[vid as usize].ty
    }

    /// The element type of a core `Seq` value: the first type argument of a value
    /// whose ADT definition is named `$core_Seq` or `Seq`.
    pub open spec fn spec_core_seq_element_ty(&self, seq: ValueId) -> Option<Ty> {
        match self.spec_value_ty(seq) {
            Ty::Adt { def, args } => {
                let name = self.ctx.interner.spec_text(self.ctx.item_tree.types@[def as int].name);
                if (name == "$core_Seq"@ || name == "Seq"@) && args@.len() > 0 {
                    Some(args@[0])
                } else {
                    None
                }
            },
            _ => None,
        }
    }

    /// The element type of a core `Seq` value.
    pub(crate) fn core_seq_element_ty(&self, seq: ValueId) -> (r: Option<&Ty>)
        requires
            self.wf(),
            self.value_ok(seq),
        ensures
            match self.spec_core_seq_element_ty(seq) {
                Some(t) => r matches Some(x) && *x == t,
                None => r is None,
            },
    {
        proof {
            assert(def_ok(self.kir_func.values@[seq as int], self.ctx.item_tree.types@.len()));
        }
        match self.value_ty(seq) {
            Ty::Adt { def, args } => {
                let name = self.ctx.interner.text(self.ctx.item_tree.types[*def as usize].name);
                if (str_eq(name, "$core_Seq") || str_eq(name, "Seq")) && args.len() > 0 {
                    Some(&args[0])
                } else {
                    None
                }
            },
            _ => None,
        }
    }
}

} // verus!
