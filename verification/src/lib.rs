//! WASM code generation from the Kyokara intermediate representation (KIR).
//!
//! Compiles a KIR module to a WASM binary: scalars, control flow, function calls,
//! closures, ADTs, records, strings, collections and the host helper imports.

pub mod encode;
pub mod error;
pub mod instr;
pub mod ir;
pub mod leb;
pub mod ty;
pub mod text;
pub mod layout;
pub mod control;
pub mod module;
pub mod allocator;
pub mod list;
pub mod seq;
pub mod string;
pub mod func;
pub mod sections;
pub mod assemble;
pub mod machine;

use vstd::prelude::*;
use crate::assemble::{
    all_signatures_typed, bodies_typed, compile_module, exports_fit, module_emits_simply, module_fits, ModuleSections,
};
use crate::error::CodegenError;
use crate::ir::{Interner, ItemTree, KirModule};

verus! {

/// Compile a KIR module to WASM bytecode: the raw binary, for a WASM runtime such as
/// wasmtime to load.
pub fn compile(kir: &KirModule, item_tree: &ItemTree, interner: &Interner) -> (r: Result<Vec<u8>, CodegenError>)
    requires
        module_fits(kir, item_tree),
        exports_fit(kir, interner),
    ensures
        !all_signatures_typed(kir) ==> (r matches Err(CodegenError::UnsupportedType(m)) && m@ == "unresolved type var"@),
        r is Ok ==> bodies_typed(kir),
        r matches Ok(bytes) ==> exists|s: ModuleSections| #[trigger] s.describes(kir, item_tree, interner) && bytes@ == s.encoding(),
        all_signatures_typed(kir) && bodies_typed(kir) && module_emits_simply(kir, item_tree, interner) ==> r is Ok,
{
    compile_module(kir, item_tree, interner)
}

} // verus!
