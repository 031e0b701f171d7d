//! Text renderings of types and operators for error messages, in the form that
//! `{:?}` gives them.

use vstd::prelude::*;
use crate::ir::{BinaryOp, Name, Ty, UnaryOp};

verus! {

/// The digit character for `d`, below ten.
pub open spec fn spec_digit_char(d: nat) -> char {
    if d == 0 { '0' } else if d == 1 { '1' } else if d == 2 { '2' } else if d == 3 { '3' } else if d == 4 { '4' }
    else if d == 5 { '5' } else if d == 6 { '6' } else if d == 7 { '7' } else if d == 8 { '8' } else { '9' }
}

/// The decimal digits of `n`, without leading zeros.
pub open spec fn spec_decimal(n: nat) -> Seq<char>
    decreases n,
{
    if n < 10 {
        seq![spec_digit_char(n)]
    } else {
        spec_decimal(n / 10).push(spec_digit_char(n % 10))
    }
}

/// The text of one digit.
fn digit_str(d: u32) -> (r: &'static str)
    requires
        d < 10,
    ensures
        r@ == seq![spec_digit_char(d as nat)],
{
    proof {
        reveal_strlit("0");
        reveal_strlit("1");
        reveal_strlit("2");
        reveal_strlit("3");
        reveal_strlit("4");
        reveal_strlit("5");
        reveal_strlit("6");
        reveal_strlit("7");
        reveal_strlit("8");
        reveal_strlit("9");
    }
    match d {
        0 => "0",
        1 => "1",
        2 => "2",
        3 => "3",
        4 => "4",
        5 => "5",
        6 => "6",
        7 => "7",
        8 => "8",
        _ => "9",
    }
}

/// The decimal text of `n`.
pub fn decimal_text(n: u32) -> (r: String)
    ensures
        r@ == spec_decimal(n as nat),
    decreases n,
{
    if n < 10 {
        String::from_str(digit_str(n))
    } else {
        let mut s = decimal_text(n / 10);
        s.append(digit_str(n % 10));
        s
    }
}

/// The text of a type: its variant's name, and its fields as a struct variant or a
/// tuple variant shows them, lists in square brackets with `, ` between items.
pub open spec fn spec_ty_text(ty: Ty) -> Seq<char>
    decreases ty, 0nat,
{
    match ty {
        Ty::Int => "Int"@,
        Ty::Float => "Float"@,
        Ty::Bool => "Bool"@,
        Ty::Unit => "Unit"@,
        Ty::Char => "Char"@,
        Ty::String => "String"@,
        Ty::Adt { def, args } => "Adt { def: "@ + spec_decimal(def as nat) + ", args: ["@
            + spec_tys_text(args@, args@.len()) + "] }"@,
        Ty::Record { fields } => "Record { fields: ["@ + spec_fields_text(fields@, fields@.len()) + "] }"@,
        Ty::Fn { params, ret } => "Fn { params: ["@ + spec_tys_text(params@, params@.len()) + "], ret: "@
            + spec_ty_text(*ret) + " }"@,
        Ty::Never => "Never"@,
        Ty::Error => "Error"@,
        Ty::Var(v) => "Var("@ + spec_decimal(v as nat) + ")"@,
    }
}

/// The texts of the first `k` types of `tys`, with `, ` between them.
pub open spec fn spec_tys_text(tys: Seq<Ty>, k: nat) -> Seq<char>
    decreases tys, k,
{
    if k == 0 || k > tys.len() {
        Seq::empty()
    } else if k == 1 {
        spec_ty_text(tys[0])
    } else {
        spec_tys_text(tys, (k - 1) as nat) + ", "@ + spec_ty_text(tys[k - 1])
    }
}

/// The texts of the first `k` record fields of `fields`, each as the pair of its
/// name and type in round brackets, with `, ` between them.
pub open spec fn spec_fields_text(fields: Seq<(Name, Ty)>, k: nat) -> Seq<char>
    decreases fields, k,
{
    if k == 0 || k > fields.len() {
        Seq::empty()
    } else if k == 1 {
        "("@ + spec_decimal(fields[0].0 as nat) + ", "@ + spec_ty_text(fields[0].1) + ")"@
    } else {
        spec_fields_text(fields, (k - 1) as nat) + ", "@ + "("@ + spec_decimal(fields[k - 1].0 as nat) + ", "@
            + spec_ty_text(fields[k - 1].1) + ")"@
    }
}

/// The text of a type, as `spec_ty_text` gives it.
pub fn ty_text(ty: &Ty) -> (r: String)
    ensures
        r@ == spec_ty_text(*ty),
    decreases *ty, 0nat,
{
    proof {
        reveal_strlit("");
    }
    match ty {
        Ty::Int => String::from_str("Int"),
        Ty::Float => String::from_str("Float"),
        Ty::Bool => String::from_str("Bool"),
        Ty::Unit => String::from_str("Unit"),
        Ty::Char => String::from_str("Char"),
        Ty::String => String::from_str("String"),
        Ty::Adt { def, args } => {
            let mut s = String::from_str("Adt { def: ");
            s.append(decimal_text(*def).as_str());
            s.append(", args: [");
            s.append(tys_text(args, args.len()).as_str());
            s.append("] }");
            s
        },
        Ty::Record { fields } => {
            let mut s = String::from_str("Record { fields: [");
            s.append(fields_text(fields, fields.len()).as_str());
            s.append("] }");
            s
        },
        Ty::Fn { params, ret } => {
            let mut s = String::from_str("Fn { params: [");
            s.append(tys_text(params, params.len()).as_str());
            s.append("], ret: ");
            s.append(ty_text(ret).as_str());
            s.append(" }");
            s
        },
        Ty::Never => String::from_str("Never"),
        Ty::Error => String::from_str("Error"),
        Ty::Var(v) => {
            let mut s = String::from_str("Var(");
            s.append(decimal_text(*v).as_str());
            s.append(")");
            s
        },
    }
}

/// The texts of the first `k` types of `tys`, as `spec_tys_text` gives them.
fn tys_text(tys: &Vec<Ty>, k: usize) -> (r: String)
    requires
        k <= tys@.len(),
    ensures
        r@ == spec_tys_text(tys@, k as nat),
    decreases tys@, k,
{
    proof {
        reveal_strlit("");
    }
    if k == 0 {
        String::from_str("")
    } else if k == 1 {
        ty_text(&tys[0])
    } else {
        let mut s = tys_text(tys, k - 1);
        s.append(", ");
        s.append(ty_text(&tys[k - 1]).as_str());
        s
    }
}

/// The texts of the first `k` record fields, as `spec_fields_text` gives them.
fn fields_text(fields: &Vec<(Name, Ty)>, k: usize) -> (r: String)
    requires
        k <= fields@.len(),
    ensures
        r@ == spec_fields_text(fields@, k as nat),
    decreases fields@, k,
{
    proof {
        reveal_strlit("");
    }
    if k == 0 {
        String::from_str("")
    } else {
        let mut s = if k == 1 {
            String::from_str("")
        } else {
            let mut p = fields_text(fields, k - 1);
            p.append(", ");
            p
        };
        s.append("(");
        s.append(decimal_text(fields[k - 1].0).as_str());
        s.append(", ");
        s.append(ty_text(&fields[k - 1].1).as_str());
        s.append(")");
        s
    }
}

/// The name of a binary operator.
pub open spec fn spec_binop_text(op: BinaryOp) -> Seq<char> {
    match op {
        BinaryOp::Add => "Add"@,
        BinaryOp::Sub => "Sub"@,
        BinaryOp::Mul => "Mul"@,
        BinaryOp::Div => "Div"@,
        BinaryOp::Mod => "Mod"@,
        BinaryOp::Eq => "Eq"@,
        BinaryOp::NotEq => "NotEq"@,
        BinaryOp::Lt => "Lt"@,
        BinaryOp::Gt => "Gt"@,
        BinaryOp::LtEq => "LtEq"@,
        BinaryOp::GtEq => "GtEq"@,
        BinaryOp::And => "And"@,
        BinaryOp::Or => "Or"@,
        BinaryOp::BitAnd => "BitAnd"@,
        BinaryOp::BitOr => "BitOr"@,
        BinaryOp::BitXor => "BitXor"@,
        BinaryOp::Shl => "Shl"@,
        BinaryOp::Shr => "Shr"@,
    }
}

/// The name of a binary operator, as `spec_binop_text` gives it.
pub fn binop_text(op: BinaryOp) -> (r: String)
    ensures
        r@ == spec_binop_text(op),
{
    let t = match op {
        BinaryOp::Add => "Add",
        BinaryOp::Sub => "Sub",
        BinaryOp::Mul => "Mul",
        BinaryOp::Div => "Div",
        BinaryOp::Mod => "Mod",
        BinaryOp::Eq => "Eq",
        BinaryOp::NotEq => "NotEq",
        BinaryOp::Lt => "Lt",
        BinaryOp::Gt => "Gt",
        BinaryOp::LtEq => "LtEq",
        BinaryOp::GtEq => "GtEq",
        BinaryOp::And => "And",
        BinaryOp::Or => "Or",
        BinaryOp::BitAnd => "BitAnd",
        BinaryOp::BitOr => "BitOr",
        BinaryOp::BitXor => "BitXor",
        BinaryOp::Shl => "Shl",
        BinaryOp::Shr => "Shr",
    };
    String::from_str(t)
}

/// The name of a unary operator.
pub open spec fn spec_unop_text(op: UnaryOp) -> Seq<char> {
    match op {
        UnaryOp::Neg => "Neg"@,
        UnaryOp::Not => "Not"@,
        UnaryOp::BitNot => "BitNot"@,
    }
}

/// The name of a unary operator, as `spec_unop_text` gives it.
pub fn unop_text(op: UnaryOp) -> (r: String)
    ensures
        r@ == spec_unop_text(op),
{
    let t = match op {
        UnaryOp::Neg => "Neg",
        UnaryOp::Not => "Not",
        UnaryOp::BitNot => "BitNot",
    };
    String::from_str(t)
}

} // verus!
