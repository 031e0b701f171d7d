//! Mapping of Kyokara types to WASM value types.

use vstd::prelude::*;
use crate::error::CodegenError;
use crate::instr::ValTy;
use crate::ir::Ty;

verus! {

/// The WASM value type of a Kyokara type, when it has one: `Int` is i64, `Float` is
/// f64, every other type is i32 (scalars, or a pointer into linear memory), and an
/// unresolved type variable has none.
pub open spec fn spec_valtype(ty: Ty) -> Option<ValTy> {
    match ty {
        Ty::Int => Some(ValTy::I64),
        Ty::Float => Some(ValTy::F64),
        Ty::Var(_) => None,
        _ => Some(ValTy::I32),
    }
}

/// Whether a type is represented as i32.
pub open spec fn spec_is_i32_type(ty: Ty) -> bool {
    !(ty is Int || ty is Float || ty is Var)
}

/// Map a Kyokara type to a WASM value type.
pub fn ty_to_valtype(ty: &Ty) -> (r: Result<ValTy, CodegenError>)
    ensures
        match spec_valtype(*ty) {
            Some(v) => r == Ok::<ValTy, CodegenError>(v),
            None => r matches Err(CodegenError::UnsupportedType(m)) && m@ == "unresolved type var"@,
        },
{
    match ty {
        Ty::Int => Ok(ValTy::I64),
        Ty::Float => Ok(ValTy::F64),
        Ty::Bool | Ty::Unit | Ty::Char => Ok(ValTy::I32),
        Ty::String | Ty::Adt { .. } | Ty::Record { .. } => Ok(ValTy::I32),
        Ty::Fn { .. } => Ok(ValTy::I32),
        Ty::Never | Ty::Error => Ok(ValTy::I32),
        Ty::Var(_) => Err(CodegenError::UnsupportedType("unresolved type var".to_owned())),
    }
}

/// Returns true if the type is represented as i32 in WASM (Bool, Unit, pointers).
pub fn is_i32_type(ty: &Ty) -> (r: bool)
    ensures
        r == spec_is_i32_type(*ty),
{
    matches!(
        ty,
        Ty::Bool | Ty::Unit | Ty::Char | Ty::String | Ty::Fn { .. } | Ty::Adt { .. }
            | Ty::Record { .. } | Ty::Never | Ty::Error
    )
}

/// A type is represented as i32 exactly when its value type is i32.
pub proof fn lemma_i32_type_iff_valtype_i32(ty: Ty)
    ensures
        spec_is_i32_type(ty) <==> spec_valtype(ty) == Some(ValTy::I32),
{
}

} // verus!
