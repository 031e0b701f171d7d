//! Emission of operators and calls.

use vstd::prelude::*;
use crate::error::{concat3, CodegenError, ErrorKind};
use crate::func::{chain, emits, helper_imported, intrinsic_arity, FuncCodegen};
use crate::instr::{Instr, MemArg};
use crate::ir::{BinaryOp, CallTarget, Intrinsic, Ty, UnaryOp, ValueId};
use crate::text::{binop_text, ty_text, unop_text};

verus! {

broadcast use vstd::std_specs::hash::group_hash_axioms;

/// Whether code generation for an intrinsic is deferred: the host file reader and
/// printers, and any intrinsic that the language does not name.
pub open spec fn intrinsic_deferred(i: Intrinsic) -> bool {
    i is ReadFile || i is Print || i is Println || i is Other
}

/// Whether an operator compares its operands.
pub open spec fn is_comparison(op: BinaryOp) -> bool {
    op is Eq || op is NotEq || op is Lt || op is Gt || op is LtEq || op is GtEq
}

/// The single instruction of a binary operator on operands of type `t` that needs
/// no runtime check, if there is one.
pub open spec fn spec_simple_binary(op: BinaryOp, t: Ty) -> Option<Instr> {
    match (op, t) {
        (BinaryOp::Div, Ty::Int) => Some(Instr::I64DivS),
        (BinaryOp::BitAnd, Ty::Int) => Some(Instr::I64And),
        (BinaryOp::BitOr, Ty::Int) => Some(Instr::I64Or),
        (BinaryOp::BitXor, Ty::Int) => Some(Instr::I64Xor),
        (BinaryOp::Add, Ty::Float) => Some(Instr::F64Add),
        (BinaryOp::Sub, Ty::Float) => Some(Instr::F64Sub),
        (BinaryOp::Mul, Ty::Float) => Some(Instr::F64Mul),
        (BinaryOp::Div, Ty::Float) => Some(Instr::F64Div),
        (BinaryOp::Eq, Ty::Int) => Some(Instr::I64Eq),
        (BinaryOp::NotEq, Ty::Int) => Some(Instr::I64Ne),
        (BinaryOp::Lt, Ty::Int) => Some(Instr::I64LtS),
        (BinaryOp::Gt, Ty::Int) => Some(Instr::I64GtS),
        (BinaryOp::LtEq, Ty::Int) => Some(Instr::I64LeS),
        (BinaryOp::GtEq, Ty::Int) => Some(Instr::I64GeS),
        (BinaryOp::Eq, Ty::Float) => Some(Instr::F64Eq),
        (BinaryOp::NotEq, Ty::Float) => Some(Instr::F64Ne),
        (BinaryOp::Lt, Ty::Float) => Some(Instr::F64Lt),
        (BinaryOp::Gt, Ty::Float) => Some(Instr::F64Gt),
        (BinaryOp::LtEq, Ty::Float) => Some(Instr::F64Le),
        (BinaryOp::GtEq, Ty::Float) => Some(Instr::F64Ge),
        (BinaryOp::Eq, Ty::Bool) => Some(Instr::I32Eq),
        (BinaryOp::NotEq, Ty::Bool) => Some(Instr::I32Ne),
        (BinaryOp::And, Ty::Bool) => Some(Instr::I32And),
        (BinaryOp::Or, Ty::Bool) => Some(Instr::I32Or),
        (BinaryOp::Eq, Ty::Char) => Some(Instr::I32Eq),
        (BinaryOp::NotEq, Ty::Char) => Some(Instr::I32Ne),
        (BinaryOp::Lt, Ty::Char) => Some(Instr::I32LtU),
        (BinaryOp::Gt, Ty::Char) => Some(Instr::I32GtU),
        (BinaryOp::LtEq, Ty::Char) => Some(Instr::I32LeU),
        (BinaryOp::GtEq, Ty::Char) => Some(Instr::I32GeU),
        _ => None,
    }
}

/// The single instruction of a binary operator that needs no runtime check.
fn simple_binary(op: BinaryOp, t: &Ty) -> (r: Option<Instr>)
    ensures
        r == spec_simple_binary(op, *t),
{
    match (op, t) {
        (BinaryOp::Div, Ty::Int) => Some(Instr::I64DivS),
        (BinaryOp::BitAnd, Ty::Int) => Some(Instr::I64And),
        (BinaryOp::BitOr, Ty::Int) => Some(Instr::I64Or),
        (BinaryOp::BitXor, Ty::Int) => Some(Instr::I64Xor),
        (BinaryOp::Add, Ty::Float) => Some(Instr::F64Add),
        (BinaryOp::Sub, Ty::Float) => Some(Instr::F64Sub),
        (BinaryOp::Mul, Ty::Float) => Some(Instr::F64Mul),
        (BinaryOp::Div, Ty::Float) => Some(Instr::F64Div),
        (BinaryOp::Eq, Ty::Int) => Some(Instr::I64Eq),
        (BinaryOp::NotEq, Ty::Int) => Some(Instr::I64Ne),
        (BinaryOp::Lt, Ty::Int) => Some(Instr::I64LtS),
        (BinaryOp::Gt, Ty::Int) => Some(Instr::I64GtS),
        (BinaryOp::LtEq, Ty::Int) => Some(Instr::I64LeS),
        (BinaryOp::GtEq, Ty::Int) => Some(Instr::I64GeS),
        (BinaryOp::Eq, Ty::Float) => Some(Instr::F64Eq),
        (BinaryOp::NotEq, Ty::Float) => Some(Instr::F64Ne),
        (BinaryOp::Lt, Ty::Float) => Some(Instr::F64Lt),
        (BinaryOp::Gt, Ty::Float) => Some(Instr::F64Gt),
        (BinaryOp::LtEq, Ty::Float) => Some(Instr::F64Le),
        (BinaryOp::GtEq, Ty::Float) => Some(Instr::F64Ge),
        (BinaryOp::Eq, Ty::Bool) => Some(Instr::I32Eq),
        (BinaryOp::NotEq, Ty::Bool) => Some(Instr::I32Ne),
        (BinaryOp::And, Ty::Bool) => Some(Instr::I32And),
        (BinaryOp::Or, Ty::Bool) => Some(Instr::I32Or),
        (BinaryOp::Eq, Ty::Char) => Some(Instr::I32Eq),
        (BinaryOp::NotEq, Ty::Char) => Some(Instr::I32Ne),
        (BinaryOp::Lt, Ty::Char) => Some(Instr::I32LtU),
        (BinaryOp::Gt, Ty::Char) => Some(Instr::I32GtU),
        (BinaryOp::LtEq, Ty::Char) => Some(Instr::I32LeU),
        (BinaryOp::GtEq, Ty::Char) => Some(Instr::I32GeU),
        _ => None,
    }
}

/// The instructions that turn a string comparison's three-way result into the
/// outcome of the comparison operator `op`.
pub open spec fn spec_string_compare_tail(op: BinaryOp) -> Seq<Instr> {
    match op {
        BinaryOp::Eq => seq![Instr::I32Eqz],
        BinaryOp::NotEq => seq![Instr::I32Const(0), Instr::I32Ne],
        BinaryOp::Lt => seq![Instr::I32Const(0), Instr::I32LtS],
        BinaryOp::Gt => seq![Instr::I32Const(0), Instr::I32GtS],
        BinaryOp::LtEq => seq![Instr::I32Const(0), Instr::I32LeS],
        BinaryOp::GtEq => seq![Instr::I32Const(0), Instr::I32GeS],
        _ => Seq::empty(),
    }
}

impl<'a> FuncCodegen<'a> {
    /// The instructions of a checked shift: trap unless the amount is in `0..64`.
    pub open spec fn spec_emit_checked_int_shift(&self, lhs: ValueId, rhs: ValueId, op: BinaryOp) -> Seq<Instr> {
        seq![
            Instr::LocalGet(self.spec_local(rhs)),
            Instr::I64Const(0i64),
            Instr::I64LtS,
            Instr::LocalSet(self.scratch_i32),
            Instr::LocalGet(self.spec_local(rhs)),
            Instr::I64Const(64i64),
            Instr::I64GeS,
            Instr::LocalGet(self.scratch_i32),
            Instr::I32Or,
        ] + self.spec_emit_trap_if_true() + seq![
            Instr::LocalGet(self.spec_local(lhs)),
            Instr::LocalGet(self.spec_local(rhs)),
            if op is Shl { Instr::I64Shl } else { Instr::I64ShrS },
        ]
    }

    /// Shift with a runtime check of the shift amount.
    pub(crate) fn emit_checked_int_shift(&self, out: &mut Vec<Instr>, lhs: ValueId, rhs: ValueId, op: BinaryOp)
        requires
            self.wf(),
            self.value_ok(lhs),
            self.value_ok(rhs),
            op is Shl || op is Shr,
        ensures
            final(out)@ == old(out)@ + self.spec_emit_checked_int_shift(lhs, rhs, op),
    {
        let mut v: Vec<Instr> = vec![
            Instr::LocalGet(self.local_for(rhs)),
            Instr::I64Const(0),
            Instr::I64LtS,
            Instr::LocalSet(self.scratch_i32),
            Instr::LocalGet(self.local_for(rhs)),
            Instr::I64Const(64),
            Instr::I64GeS,
            Instr::LocalGet(self.scratch_i32),
            Instr::I32Or,
        ];
        self.emit_trap_if_true(&mut v);
        let shift = match op {
            BinaryOp::Shl => Instr::I64Shl,
            _ => Instr::I64ShrS,
        };
        let mut w: Vec<Instr> = vec![
            Instr::LocalGet(self.local_for(lhs)),
            Instr::LocalGet(self.local_for(rhs)),
            shift,
        ];
        v.append(&mut w);
        out.append(&mut v);
    }

    /// The type that decides a binary operation: the left operand's, or the right
    /// operand's where the left one's is poison.
    pub open spec fn spec_binary_operand_ty(&self, lhs: ValueId, rhs: ValueId) -> Ty {
        if self.spec_value_ty(lhs).spec_is_poison() {
            self.spec_value_ty(rhs)
        } else {
            self.spec_value_ty(lhs)
        }
    }

    /// The instructions of a binary operation: float remainder as
    /// `lhs - trunc(lhs / rhs) * rhs`; checked integer arithmetic and shifts; string
    /// comparison through the three-way compare; a single instruction otherwise; an
    /// unsupported instruction error for an operator that the operand type lacks.
    #[verifier::opaque]
    pub open spec fn spec_emit_binary(&self, op: BinaryOp, lhs: ValueId, rhs: ValueId) -> Result<Seq<Instr>, ErrorKind> {
        let t = self.spec_binary_operand_ty(lhs, rhs);
        if op is Mod && t is Float {
            Ok(seq![
                Instr::LocalGet(self.spec_local(lhs)),
                Instr::LocalGet(self.spec_local(lhs)),
                Instr::LocalGet(self.spec_local(rhs)),
                Instr::F64Div,
                Instr::F64Trunc,
                Instr::LocalGet(self.spec_local(rhs)),
                Instr::F64Mul,
                Instr::F64Sub,
            ])
        } else if t is Int && op is Add {
            Ok(self.spec_emit_checked_int_add(lhs, rhs))
        } else if t is Int && op is Sub {
            Ok(self.spec_emit_checked_int_sub(lhs, rhs))
        } else if t is Int && op is Mul {
            Ok(self.spec_emit_checked_int_mul(lhs, rhs))
        } else if t is Int && op is Mod {
            Ok(self.spec_emit_checked_int_mod(lhs, rhs))
        } else if t is Int && (op is Shl || op is Shr) {
            Ok(self.spec_emit_checked_int_shift(lhs, rhs, op))
        } else if t is String && is_comparison(op) {
            Ok(self.spec_emit_string_compare(lhs, rhs) + spec_string_compare_tail(op))
        } else {
            match spec_simple_binary(op, t) {
                Some(i) => Ok(seq![Instr::LocalGet(self.spec_local(lhs)), Instr::LocalGet(self.spec_local(rhs)), i]),
                None => Err(ErrorKind::UnsupportedInstruction),
            }
        }
    }

    /// Emit a binary operation.
    pub(crate) fn emit_binary(&self, out: &mut Vec<Instr>, op: BinaryOp, lhs: ValueId, rhs: ValueId, result_ty: &Ty) -> (r: Result<(), CodegenError>)
        requires
            self.wf(),
            self.value_ok(lhs),
            self.value_ok(rhs),
        ensures
            emits(r, old(out)@, final(out)@, self.spec_emit_binary(op, lhs, rhs)),
    {
        proof {
            reveal(FuncCodegen::spec_emit_binary);
        }
        let lhs_ty = self.value_ty(lhs);
        let lhs_ty = if lhs_ty.is_poison() {
            self.value_ty(rhs)
        } else {
            lhs_ty
        };
        if matches!((op, lhs_ty), (BinaryOp::Mod, Ty::Float)) {
            let mut v: Vec<Instr> = vec![
                Instr::LocalGet(self.local_for(lhs)),
                Instr::LocalGet(self.local_for(lhs)),
                Instr::LocalGet(self.local_for(rhs)),
                Instr::F64Div,
                Instr::F64Trunc,
                Instr::LocalGet(self.local_for(rhs)),
                Instr::F64Mul,
                Instr::F64Sub,
            ];
            out.append(&mut v);
            return Ok(());
        }
        if matches!(lhs_ty, Ty::Int) {
            match op {
                BinaryOp::Add => {
                    self.emit_checked_int_add(out, lhs, rhs);
                    return Ok(());
                },
                BinaryOp::Sub => {
                    self.emit_checked_int_sub(out, lhs, rhs);
                    return Ok(());
                },
                BinaryOp::Mul => {
                    self.emit_checked_int_mul(out, lhs, rhs);
                    return Ok(());
                },
                BinaryOp::Mod => {
                    self.emit_checked_int_mod(out, lhs, rhs);
                    return Ok(());
                },
                BinaryOp::Shl | BinaryOp::Shr => {
                    self.emit_checked_int_shift(out, lhs, rhs, op);
                    return Ok(());
                },
                _ => {},
            }
        }
        if matches!(lhs_ty, Ty::String) && matches!(
            op,
            BinaryOp::Eq | BinaryOp::NotEq | BinaryOp::Lt | BinaryOp::Gt | BinaryOp::LtEq | BinaryOp::GtEq
        ) {
            let ghost start = out@;
            self.emit_string_compare(out, lhs, rhs);
            let mut v: Vec<Instr> = match op {
                BinaryOp::Eq => vec![Instr::I32Eqz],
                BinaryOp::NotEq => vec![Instr::I32Const(0), Instr::I32Ne],
                BinaryOp::Lt => vec![Instr::I32Const(0), Instr::I32LtS],
                BinaryOp::Gt => vec![Instr::I32Const(0), Instr::I32GtS],
                BinaryOp::LtEq => vec![Instr::I32Const(0), Instr::I32LeS],
                _ => vec![Instr::I32Const(0), Instr::I32GeS],
            };
            assert(v@ == spec_string_compare_tail(op));
            out.append(&mut v);
            assert(out@ =~= start + (self.spec_emit_string_compare(lhs, rhs) + spec_string_compare_tail(op)));
            return Ok(());
        }
        match simple_binary(op, lhs_ty) {
            Some(i) => {
                let mut v: Vec<Instr> = vec![
                    Instr::LocalGet(self.local_for(lhs)),
                    Instr::LocalGet(self.local_for(rhs)),
                    i,
                ];
                out.append(&mut v);
                Ok(())
            },
            None => {
                let head = concat3("binary ", binop_text(op).as_str(), " on ");
                Err(CodegenError::UnsupportedInstruction(concat3(head.as_str(), ty_text(lhs_ty).as_str(), "")))
            },
        }
    }

    /// The instructions of a unary operation: checked integer negation, float
    /// negation, boolean not and bitwise not; an unsupported instruction error for
    /// an operator that the operand type lacks.
    pub open spec fn spec_emit_unary(&self, op: UnaryOp, operand: ValueId) -> Result<Seq<Instr>, ErrorKind> {
        let get = Instr::LocalGet(self.spec_local(operand));
        match (op, self.spec_value_ty(operand)) {
            (UnaryOp::Neg, Ty::Int) => Ok(seq![get, Instr::I64Const(i64::MIN), Instr::I64Eq]
                + self.spec_emit_trap_if_true()
                + seq![Instr::I64Const(0i64), get, Instr::I64Sub]),
            (UnaryOp::Neg, Ty::Float) => Ok(seq![get, Instr::F64Neg]),
            (UnaryOp::Not, Ty::Bool) => Ok(seq![get, Instr::I32Eqz]),
            (UnaryOp::BitNot, Ty::Int) => Ok(seq![get, Instr::I64Const(-1i64), Instr::I64Xor]),
            _ => Err(ErrorKind::UnsupportedInstruction),
        }
    }

    /// Emit a unary operation.
    pub(crate) fn emit_unary(&self, out: &mut Vec<Instr>, op: UnaryOp, operand: ValueId) -> (r: Result<(), CodegenError>)
        requires
            self.wf(),
            self.value_ok(operand),
        ensures
            emits(r, old(out)@, final(out)@, self.spec_emit_unary(op, operand)),
    {
        let operand_ty = self.value_ty(operand);
        let get = Instr::LocalGet(self.local_for(operand));
        match (op, operand_ty) {
            (UnaryOp::Neg, Ty::Int) => {
                let mut v: Vec<Instr> = vec![get, Instr::I64Const(i64::MIN), Instr::I64Eq];
                self.emit_trap_if_true(&mut v);
                let mut w: Vec<Instr> = vec![Instr::I64Const(0), Instr::LocalGet(self.local_for(operand)), Instr::I64Sub];
                v.append(&mut w);
                out.append(&mut v);
            },
            (UnaryOp::Neg, Ty::Float) => {
                let mut v: Vec<Instr> = vec![get, Instr::F64Neg];
                out.append(&mut v);
            },
            (UnaryOp::Not, Ty::Bool) => {
                let mut v: Vec<Instr> = vec![get, Instr::I32Eqz];
                out.append(&mut v);
            },
            (UnaryOp::BitNot, Ty::Int) => {
                let mut v: Vec<Instr> = vec![get, Instr::I64Const(-1), Instr::I64Xor];
                out.append(&mut v);
            },
            _ => {
                let head = concat3("unary ", unop_text(op).as_str(), " on ");
                return Err(CodegenError::UnsupportedInstruction(concat3(head.as_str(), ty_text(operand_ty).as_str(), "")));
            },
        }
        Ok(())
    }

    /// The gets of the call arguments, in order.
    pub open spec fn spec_arg_gets(&self, args: Seq<ValueId>) -> Seq<Instr>
        decreases args.len(),
    {
        if args.len() == 0 {
            Seq::empty()
        } else {
            self.spec_arg_gets(args.drop_last()) + seq![Instr::LocalGet(self.spec_local(args.last()))]
        }
    }

    /// Push the call arguments.
    fn emit_arg_gets(&self, out: &mut Vec<Instr>, args: &[ValueId])
        requires
            self.wf(),
            forall|i: int| 0 <= i < args@.len() ==> self.value_ok(#[trigger] args@[i]),
        ensures
            final(out)@ == old(out)@ + self.spec_arg_gets(args@),
    {
        let ghost start = out@;
        let mut i: usize = 0;
        while i < args.len()
            invariant
                self.wf(),
                forall|k: int| 0 <= k < args@.len() ==> self.value_ok(#[trigger] args@[k]),
                0 <= i <= args@.len(),
                out@ == start + self.spec_arg_gets(args@.take(i as int)),
            decreases args@.len() - i,
        {
            assert(args@.take(i + 1).drop_last() =~= args@.take(i as int));
            out.push(Instr::LocalGet(self.local_for(args[i])));
            i = i + 1;
            assert(out@ =~= start + self.spec_arg_gets(args@.take(i as int)));
        }
        assert(args@.take(i as int) =~= args@);
    }

    /// The instructions of an intrinsic call with arguments `args`; an unsupported
    /// instruction error for an intrinsic that has no WASM lowering.
    #[verifier::opaque]
    pub open spec fn spec_emit_intrinsic(&self, i: Intrinsic, args: Seq<ValueId>, result_ty: Ty) -> Result<Seq<Instr>, ErrorKind> {
        match i {
            Intrinsic::CharCode => Ok(seq![Instr::LocalGet(self.spec_local(args[0])), Instr::I64ExtendI32U]),
            Intrinsic::CharIsDecimalDigit => Ok(seq![
                    Instr::LocalGet(self.spec_local(args[0])),
                    Instr::I32Const(48i32),
                    Instr::I32GeU,
                    Instr::LocalGet(self.spec_local(args[0])),
                    Instr::I32Const(57i32),
                    Instr::I32LeU,
                    Instr::I32And,
                ]),
            Intrinsic::CharToDecimalDigit => self.spec_emit_char_to_digit_option(args[0], None, result_ty),
            Intrinsic::CharToDigit => self.spec_emit_char_to_digit_option(args[0], Some(args[1]), result_ty),
            Intrinsic::CharToString => Ok(self.spec_emit_char_to_string(args[0])),
            Intrinsic::Abs => Ok(self.spec_emit_int_abs(args[0])),
            Intrinsic::FloatAbs => Ok(seq![Instr::LocalGet(self.spec_local(args[0])), Instr::F64Abs]),
            Intrinsic::FloatMax => Ok(self.spec_emit_float_min_max(args[0], args[1], false)),
            Intrinsic::FloatIsFinite => Ok(self.spec_emit_float_is_finite(args[0])),
            Intrinsic::FloatIsInfinite => Ok(self.spec_emit_float_is_infinite(args[0])),
            Intrinsic::FloatIsNan => Ok(self.spec_emit_float_is_nan(args[0])),
            Intrinsic::FloatMin => Ok(self.spec_emit_float_min_max(args[0], args[1], true)),
            Intrinsic::FloatToInt => Ok(seq![Instr::LocalGet(self.spec_local(args[0])), Instr::I64TruncSatF64S]),
            Intrinsic::Gcd => Ok(self.spec_emit_gcd(args[0], args[1])),
            Intrinsic::IntPow => Ok(self.spec_emit_int_pow(args[0], args[1])),
            Intrinsic::IntToFloat => Ok(seq![Instr::LocalGet(self.spec_local(args[0])), Instr::F64ConvertI64S]),
            Intrinsic::Lcm => Ok(self.spec_emit_lcm(args[0], args[1])),
            Intrinsic::IntToString => Ok(self.spec_emit_int_to_string(args[0])),
            Intrinsic::Max => Ok(self.spec_emit_int_min_max(args[0], args[1], false)),
            Intrinsic::Min => Ok(self.spec_emit_int_min_max(args[0], args[1], true)),
            Intrinsic::SeqRange => Ok(self.spec_emit_seq_range(args[0], args[1])),
            Intrinsic::SeqAny => self.spec_emit_seq_any(args[0], args[1]),
            Intrinsic::SeqAll => self.spec_emit_seq_all(args[0], args[1]),
            Intrinsic::SeqCount => self.spec_emit_seq_count(args[0]),
            Intrinsic::SeqCountBy => self.spec_emit_seq_count_by(args[0], args[1]),
            Intrinsic::SeqContains => self.spec_emit_seq_contains(args[0], args[1]),
            Intrinsic::SeqFind => self.spec_emit_seq_find(args[0], args[1], result_ty),
            Intrinsic::SeqFold => self.spec_emit_seq_fold(args[0], args[1], args[2], result_ty),
            Intrinsic::OptionUnwrapOr => self.spec_emit_option_unwrap_or(args[0], args[1], result_ty),
            Intrinsic::OptionMap => self.spec_emit_option_map(args[0], args[1], result_ty),
            Intrinsic::OptionAndThen => self.spec_emit_option_and_then(args[0], args[1], result_ty),
            Intrinsic::OptionMapOr => self.spec_emit_option_map_or(args[0], args[1], args[2], result_ty),
            Intrinsic::ResultUnwrapOr => self.spec_emit_result_unwrap_or(args[0], args[1], result_ty),
            Intrinsic::ResultMap => self.spec_emit_result_map(args[0], args[1], result_ty),
            Intrinsic::ResultAndThen => self.spec_emit_result_and_then(args[0], args[1], result_ty),
            Intrinsic::ResultMapErr => self.spec_emit_result_map_err(args[0], args[1], result_ty),
            Intrinsic::ResultMapOr => self.spec_emit_result_map_or(args[0], args[1], args[2], result_ty),
            Intrinsic::ParseFloat => self.spec_emit_parse_float_result(args[0], result_ty),
            Intrinsic::ParseInt => self.spec_emit_parse_int_result(args[0], result_ty),
            Intrinsic::StringContains => Ok(self.spec_emit_string_contains(args[0], args[1])),
            Intrinsic::StringChars => Ok(self.spec_emit_seq_chars(args[0])),
            Intrinsic::StringConcat => Ok(self.spec_emit_string_concat(args[0], args[1])),
            Intrinsic::StringEndsWith => Ok(self.spec_emit_string_ends_with(args[0], args[1])),
            Intrinsic::StringLines => Ok(self.spec_emit_seq_lines(args[0])),
            Intrinsic::StringSplit => Ok(self.spec_emit_seq_split(args[0], args[1])),
            Intrinsic::StringMd5 => Ok(self.spec_emit_string_host_helper_call(args[0], self.ctx.string_md5_fn_index.unwrap())),
            Intrinsic::StringLen => Ok(seq![
                    Instr::LocalGet(self.spec_local(args[0])),
                    Instr::I32Load(MemArg { offset: 4, align: 2 }),
                    Instr::I64ExtendI32U,
                ]),
            Intrinsic::StringStartsWith => Ok(self.spec_emit_string_starts_with(args[0], args[1])),
            Intrinsic::StringStartsWithFrom => Ok(self.spec_emit_string_starts_with_from(args[0], args[1], args[2])),
            Intrinsic::StringSubstring => Ok(self.spec_emit_string_substring(args[0], args[1], args[2])),
            Intrinsic::StringToLower => Ok(self.spec_emit_string_host_helper_call(args[0], self.ctx.string_to_lower_fn_index.unwrap())),
            Intrinsic::StringToUpper => Ok(self.spec_emit_string_host_helper_call(args[0], self.ctx.string_to_upper_fn_index.unwrap())),
            Intrinsic::StringTrim => Ok(self.spec_emit_string_trim(args[0])),
            _ => Err(ErrorKind::UnsupportedInstruction),
        }
    }

    /// The instructions of a call: the arguments, then a direct call of the named
    /// function, an indirect call of a closure, or an intrinsic's lowering; a missing
    /// function error where a direct callee has no function index.
    pub open spec fn spec_emit_call(&self, target: CallTarget, args: Seq<ValueId>, result_ty: Ty) -> Result<Seq<Instr>, ErrorKind> {
        match target {
            CallTarget::Direct(name) => if self.ctx.fn_name_map@.contains_key(name) {
                Ok(self.spec_arg_gets(args) + seq![Instr::Call(self.ctx.fn_name_map@[name])])
            } else {
                Err(ErrorKind::MissingFunction)
            },
            CallTarget::Indirect(callee) => chain(Ok(self.spec_arg_gets(args)), self.spec_emit_indirect_call(callee)),
            CallTarget::Intrinsic(i) => self.spec_emit_intrinsic(i, args, result_ty),
        }
    }

    /// Emit an intrinsic call.
    fn emit_intrinsic(&self, out: &mut Vec<Instr>, i: &Intrinsic, args: &[ValueId], result_ty: &Ty) -> (r: Result<(), CodegenError>)
        requires
            self.wf(),
            forall|k: int| 0 <= k < args@.len() ==> self.value_ok(#[trigger] args@[k]),
            args@.len() >= intrinsic_arity(*i),
            helper_imported(self.ctx, *i),
        ensures
            emits(r, old(out)@, final(out)@, self.spec_emit_intrinsic(*i, args@, *result_ty)),
            intrinsic_deferred(*i) ==> (r matches Err(CodegenError::UnsupportedInstruction(m))
                && m@ == "intrinsic "@ + i.spec_name() + " (deferred)"@),
    {
        proof {
            reveal(FuncCodegen::spec_emit_intrinsic);
        }
        match i {
            Intrinsic::CharCode => {
                let mut v: Vec<Instr> = vec![Instr::LocalGet(self.local_for(args[0])), Instr::I64ExtendI32U];
                out.append(&mut v);
                Ok(())
            },
            Intrinsic::CharIsDecimalDigit => {
                let mut v: Vec<Instr> = vec![
                    Instr::LocalGet(self.local_for(args[0])),
                    Instr::I32Const(48i32),
                    Instr::I32GeU,
                    Instr::LocalGet(self.local_for(args[0])),
                    Instr::I32Const(57i32),
                    Instr::I32LeU,
                    Instr::I32And,
                ];
                out.append(&mut v);
                Ok(())
            },
            Intrinsic::CharToDecimalDigit => self.emit_char_to_digit_option(out, args[0], None, result_ty),
            Intrinsic::CharToDigit => self.emit_char_to_digit_option(out, args[0], Some(args[1]), result_ty),
            Intrinsic::CharToString => {
                self.emit_char_to_string(out, args[0]);
                Ok(())
            },
            Intrinsic::Abs => {
                self.emit_int_abs(out, args[0]);
                Ok(())
            },
            Intrinsic::FloatAbs => {
                let mut v: Vec<Instr> = vec![Instr::LocalGet(self.local_for(args[0])), Instr::F64Abs];
                out.append(&mut v);
                Ok(())
            },
            Intrinsic::FloatMax => {
                self.emit_float_min_max(out, args[0], args[1], false);
                Ok(())
            },
            Intrinsic::FloatIsFinite => {
                self.emit_float_is_finite(out, args[0]);
                Ok(())
            },
            Intrinsic::FloatIsInfinite => {
                self.emit_float_is_infinite(out, args[0]);
                Ok(())
            },
            Intrinsic::FloatIsNan => {
                self.emit_float_is_nan(out, args[0]);
                Ok(())
            },
            Intrinsic::FloatMin => {
                self.emit_float_min_max(out, args[0], args[1], true);
                Ok(())
            },
            Intrinsic::FloatToInt => {
                let mut v: Vec<Instr> = vec![Instr::LocalGet(self.local_for(args[0])), Instr::I64TruncSatF64S];
                out.append(&mut v);
                Ok(())
            },
            Intrinsic::Gcd => {
                self.emit_gcd(out, args[0], args[1]);
                Ok(())
            },
            Intrinsic::IntPow => {
                self.emit_int_pow(out, args[0], args[1]);
                Ok(())
            },
            Intrinsic::IntToFloat => {
                let mut v: Vec<Instr> = vec![Instr::LocalGet(self.local_for(args[0])), Instr::F64ConvertI64S];
                out.append(&mut v);
                Ok(())
            },
            Intrinsic::Lcm => {
                self.emit_lcm(out, args[0], args[1]);
                Ok(())
            },
            Intrinsic::IntToString => {
                self.emit_int_to_string(out, args[0]);
                Ok(())
            },
            Intrinsic::Max => {
                self.emit_int_min_max(out, args[0], args[1], false);
                Ok(())
            },
            Intrinsic::Min => {
                self.emit_int_min_max(out, args[0], args[1], true);
                Ok(())
            },
            Intrinsic::SeqRange => {
                self.emit_seq_range(out, args[0], args[1]);
                Ok(())
            },
            Intrinsic::SeqAny => self.emit_seq_any(out, args[0], args[1]),
            Intrinsic::SeqAll => self.emit_seq_all(out, args[0], args[1]),
            Intrinsic::SeqCount => self.emit_seq_count(out, args[0]),
            Intrinsic::SeqCountBy => self.emit_seq_count_by(out, args[0], args[1]),
            Intrinsic::SeqContains => self.emit_seq_contains(out, args[0], args[1]),
            Intrinsic::SeqFind => self.emit_seq_find(out, args[0], args[1], result_ty),
            Intrinsic::SeqFold => self.emit_seq_fold(out, args[0], args[1], args[2], result_ty),
            Intrinsic::OptionUnwrapOr => self.emit_option_unwrap_or(out, args[0], args[1], result_ty),
            Intrinsic::OptionMap => self.emit_option_map(out, args[0], args[1], result_ty),
            Intrinsic::OptionAndThen => self.emit_option_and_then(out, args[0], args[1], result_ty),
            Intrinsic::OptionMapOr => self.emit_option_map_or(out, args[0], args[1], args[2], result_ty),
            Intrinsic::ResultUnwrapOr => self.emit_result_unwrap_or(out, args[0], args[1], result_ty),
            Intrinsic::ResultMap => self.emit_result_map(out, args[0], args[1], result_ty),
            Intrinsic::ResultAndThen => self.emit_result_and_then(out, args[0], args[1], result_ty),
            Intrinsic::ResultMapErr => self.emit_result_map_err(out, args[0], args[1], result_ty),
            Intrinsic::ResultMapOr => self.emit_result_map_or(out, args[0], args[1], args[2], result_ty),
            Intrinsic::ParseFloat => self.emit_parse_float_result(out, args[0], result_ty),
            Intrinsic::ParseInt => self.emit_parse_int_result(out, args[0], result_ty),
            Intrinsic::StringContains => {
                self.emit_string_contains(out, args[0], args[1]);
                Ok(())
            },
            Intrinsic::StringChars => {
                self.emit_seq_chars(out, args[0]);
                Ok(())
            },
            Intrinsic::StringConcat => {
                self.emit_string_concat(out, args[0], args[1]);
                Ok(())
            },
            Intrinsic::StringEndsWith => {
                self.emit_string_ends_with(out, args[0], args[1]);
                Ok(())
            },
            Intrinsic::StringLines => {
                self.emit_seq_lines(out, args[0]);
                Ok(())
            },
            Intrinsic::StringSplit => {
                self.emit_seq_split(out, args[0], args[1]);
                Ok(())
            },
            Intrinsic::StringMd5 => {
                self.emit_string_host_helper_call(out, args[0], self.ctx.string_md5_fn_index.expect("string_md5 helper should be imported when used"));
                Ok(())
            },
            Intrinsic::StringLen => {
                let mut v: Vec<Instr> = vec![
                    Instr::LocalGet(self.local_for(args[0])),
                    Instr::I32Load(MemArg { offset: 4, align: 2 }),
                    Instr::I64ExtendI32U,
                ];
                out.append(&mut v);
                Ok(())
            },
            Intrinsic::StringStartsWith => {
                self.emit_string_starts_with(out, args[0], args[1]);
                Ok(())
            },
            Intrinsic::StringStartsWithFrom => {
                self.emit_string_starts_with_from(out, args[0], args[1], args[2]);
                Ok(())
            },
            Intrinsic::StringSubstring => {
                self.emit_string_substring(out, args[0], args[1], args[2]);
                Ok(())
            },
            Intrinsic::StringToLower => {
                self.emit_string_host_helper_call(out, args[0], self.ctx.string_to_lower_fn_index.expect("string_to_lower helper should be imported when used"));
                Ok(())
            },
            Intrinsic::StringToUpper => {
                self.emit_string_host_helper_call(out, args[0], self.ctx.string_to_upper_fn_index.expect("string_to_upper helper should be imported when used"));
                Ok(())
            },
            Intrinsic::StringTrim => {
                self.emit_string_trim(out, args[0]);
                Ok(())
            },
            _ => Err(CodegenError::UnsupportedInstruction(concat3("intrinsic ", i.name(), " (deferred)"))),
        }
    }

    /// Emit a call.
    pub(crate) fn emit_call(&self, out: &mut Vec<Instr>, target: &CallTarget, args: &[ValueId], result_ty: &Ty) -> (r: Result<(), CodegenError>)
        requires
            self.wf(),
            forall|k: int| 0 <= k < args@.len() ==> self.value_ok(#[trigger] args@[k]),
            *target matches CallTarget::Indirect(callee) ==> self.value_ok(callee),
            *target matches CallTarget::Intrinsic(i) ==> args@.len() >= intrinsic_arity(i) && helper_imported(self.ctx, i),
        ensures
            emits(r, old(out)@, final(out)@, self.spec_emit_call(*target, args@, *result_ty)),
            *target matches CallTarget::Direct(name) ==> (!self.ctx.fn_name_map@.contains_key(name)
                ==> (r matches Err(CodegenError::MissingFunction(m)) && m@ == self.ctx.interner.spec_text(name))),
            *target matches CallTarget::Intrinsic(i) ==> (intrinsic_deferred(i)
                ==> (r matches Err(CodegenError::UnsupportedInstruction(m)) && m@ == "intrinsic "@ + i.spec_name() + " (deferred)"@)),
    {
        match target {
            CallTarget::Direct(name) => {
                let mut v: Vec<Instr> = Vec::new();
                self.emit_arg_gets(&mut v, args);
                let fn_idx = match self.ctx.fn_name_map.get(name) {
                    Some(f) => *f,
                    None => {
                        proof {
                            reveal_strlit("");
                        }
                        return Err(CodegenError::MissingFunction(concat3(self.ctx.interner.text(*name), "", "")));
                    },
                };
                v.push(Instr::Call(fn_idx));
                assert(v@ =~= self.spec_arg_gets(args@) + seq![Instr::Call(self.ctx.fn_name_map@[*name])]);
                out.append(&mut v);
                Ok(())
            },
            CallTarget::Indirect(callee) => {
                let mut v: Vec<Instr> = Vec::new();
                self.emit_arg_gets(&mut v, args);
                self.emit_indirect_call(&mut v, *callee)?;
                assert(self.spec_emit_call(*target, args@, *result_ty) matches Ok(s) && v@ =~= s);
                out.append(&mut v);
                Ok(())
            },
            CallTarget::Intrinsic(i) => self.emit_intrinsic(out, i, args, result_ty),
        }
    }
}

} // verus!
