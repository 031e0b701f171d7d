use kyokara_codegen::error::CodegenError;
use kyokara_codegen::ir::{BinaryOp, Ty, UnaryOp};
use kyokara_codegen::text::{binop_text, decimal_text, ty_text, unop_text};
use kyokara_codegen::ty::ty_to_valtype;

#[test]
fn decimal_text_writes_digits() {
    assert_eq!(decimal_text(0), "0");
    assert_eq!(decimal_text(7), "7");
    assert_eq!(decimal_text(10), "10");
    assert_eq!(decimal_text(4_294_967_295), "4294967295");
}

#[test]
fn ty_text_matches_debug_rendering() {
    let tys = vec![
        Ty::Int,
        Ty::Float,
        Ty::Bool,
        Ty::Unit,
        Ty::Char,
        Ty::String,
        Ty::Never,
        Ty::Error,
        Ty::Var(12),
        Ty::Adt { def: 3, args: vec![] },
        Ty::Adt { def: 0, args: vec![Ty::Int, Ty::Adt { def: 1, args: vec![Ty::String] }] },
        Ty::Record { fields: vec![] },
        Ty::Record { fields: vec![(5, Ty::Int), (6, Ty::Var(2))] },
        Ty::Fn { params: vec![], ret: Box::new(Ty::Unit) },
        Ty::Fn { params: vec![Ty::Int, Ty::Float], ret: Box::new(Ty::Fn { params: vec![Ty::Char], ret: Box::new(Ty::Bool) }) },
    ];
    for ty in &tys {
        assert_eq!(ty_text(ty), format!("{ty:?}"));
    }
}

#[test]
fn operator_texts_match_debug_rendering() {
    for op in [BinaryOp::Add, BinaryOp::NotEq, BinaryOp::LtEq, BinaryOp::BitXor, BinaryOp::Shr] {
        assert_eq!(binop_text(op), format!("{op:?}"));
    }
    for op in [UnaryOp::Neg, UnaryOp::Not, UnaryOp::BitNot] {
        assert_eq!(unop_text(op), format!("{op:?}"));
    }
}

#[test]
fn unresolved_type_var_names_itself() {
    match ty_to_valtype(&Ty::Var(4)) {
        Err(CodegenError::UnsupportedType(m)) => assert_eq!(m, "unresolved type var"),
        _ => panic!("a type variable has no value type"),
    }
}
