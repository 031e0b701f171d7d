//! Assembly of a whole module: the host imports, the signatures, the function
//! table, memory, globals, exports and the code of every function.

use vstd::prelude::*;
use std::collections::HashMap;
use wasm_encoder::{
    CodeSection, ElementSection, ExportSection, FunctionSection, GlobalSection, ImportSection, MemorySection,
    TableSection, TypeSection,
};
use crate::allocator::{emit_alloc_function, spec_emit_alloc_function_body, spec_emit_alloc_function_locals};
use crate::control::blocks_wf;
use wasm_encoder::Function;
use crate::encode::{body_bytes, function_byte_len, instrs_bytes, locals_bytes};
use crate::error::CodegenError;
use crate::func::{all_values_typed, defs_in_range, helpers_imported, record_fits, values_wf, FuncCodegen};
use crate::instr::{Instr, ValTy};
use crate::ir::{CallTarget, Inst, Interner, Intrinsic, ItemTree, KirFunction, KirModule, Name, Ty, ValueDef};
use crate::layout::{compute_adt_layouts, item_tree_fits};
use crate::module::{
    add_function_type, all_have_valtype, emit_wrapper_function, new_type_section, register_fn_type,
    spec_wrapper_instrs, type_entries, type_entries_size, valtypes_of, ModuleCtx, TypeMap, CURRENT_CLOSURE_GLOBAL_INDEX,
};
use crate::sections::{
    add_active_functions, add_code, add_export, add_function, add_function_import, add_funcref_table, add_memory,
    add_mutable_i32_global, code_entries, code_entries_size, code_section_encoding, element_entries_size,
    export_entries_size, import_entries_size, element_entries, element_section_encoding,
    element_section_is_empty, export_entries, export_section_encoding, finish_module, function_entries,
    function_section_encoding, global_entries, global_section_encoding, import_entries, import_section_encoding,
    import_section_is_empty, memory_entries, memory_section_encoding, module_bytes, module_header, new_code_section,
    new_element_section, new_export_section, new_function_section, new_global_section, new_import_section,
    new_memory_section, new_module, new_table_section, table_entries, table_section_encoding, table_section_is_empty,
    type_section_encoding, write_code_section, write_element_section, write_export_section, write_function_section,
    write_global_section, write_import_section, write_memory_section, write_table_section, write_type_section,
    ExportItem,
};
use crate::ty::{spec_valtype, ty_to_valtype};

verus! {

/// A function that the host provides to a module; it is imported where a function of
/// the module calls the intrinsic that needs it.
#[derive(Clone, Copy, Debug, PartialEq, Eq, Structural)]
pub enum HostHelper {
    StringToUpper,
    StringToLower,
    StringMd5,
    ParseInt,
    ParseFloat,
    ReadFile,
    Print,
    Println,
}

impl HostHelper {
    /// The intrinsic whose calls need this helper.
    pub open spec fn intrinsic(self) -> Intrinsic {
        match self {
            HostHelper::StringToUpper => Intrinsic::StringToUpper,
            HostHelper::StringToLower => Intrinsic::StringToLower,
            HostHelper::StringMd5 => Intrinsic::StringMd5,
            HostHelper::ParseInt => Intrinsic::ParseInt,
            HostHelper::ParseFloat => Intrinsic::ParseFloat,
            HostHelper::ReadFile => Intrinsic::ReadFile,
            HostHelper::Print => Intrinsic::Print,
            HostHelper::Println => Intrinsic::Println,
        }
    }

    /// The name under which the host module exports the helper.
    pub open spec fn spec_import_name(self) -> Seq<char> {
        match self {
            HostHelper::StringToUpper => "string_to_upper"@,
            HostHelper::StringToLower => "string_to_lower"@,
            HostHelper::StringMd5 => "string_md5"@,
            HostHelper::ParseInt => "parse_int"@,
            HostHelper::ParseFloat => "parse_float"@,
            HostHelper::ReadFile => "fs_read_file"@,
            HostHelper::Print => "io_print"@,
            HostHelper::Println => "io_println"@,
        }
    }

    /// The index of the helper's type among the fixed types of every module: 1 for
    /// the string helpers, 2 for the parse and print helpers, 3 for the file reader.
    pub open spec fn spec_type_index(self) -> u32 {
        match self {
            HostHelper::StringToUpper | HostHelper::StringToLower | HostHelper::StringMd5 => 1,
            HostHelper::ReadFile => 3,
            _ => 2,
        }
    }

    /// The name under which the host module exports the helper.
    pub fn import_name(self) -> (r: &'static str)
        ensures
            r@ == self.spec_import_name(),
    {
        match self {
            HostHelper::StringToUpper => "string_to_upper",
            HostHelper::StringToLower => "string_to_lower",
            HostHelper::StringMd5 => "string_md5",
            HostHelper::ParseInt => "parse_int",
            HostHelper::ParseFloat => "parse_float",
            HostHelper::ReadFile => "fs_read_file",
            HostHelper::Print => "io_print",
            HostHelper::Println => "io_println",
        }
    }

    /// The index of the helper's type among the fixed types of every module.
    pub fn type_index(self) -> (r: u32)
        ensures
            r == self.spec_type_index(),
    {
        match self {
            HostHelper::StringToUpper | HostHelper::StringToLower | HostHelper::StringMd5 => 1,
            HostHelper::ReadFile => 3,
            _ => 2,
        }
    }
}

/// A host helper's import name is short.
proof fn lemma_import_name_len(h: HostHelper)
    ensures
        h.spec_import_name().len() <= 15,
{
    reveal_strlit("string_to_upper");
    reveal_strlit("string_to_lower");
    reveal_strlit("string_md5");
    reveal_strlit("parse_int");
    reveal_strlit("parse_float");
    reveal_strlit("fs_read_file");
    reveal_strlit("io_print");
    reveal_strlit("io_println");
}

/// The host helpers in the order in which a module imports them.
pub open spec fn host_helpers() -> Seq<HostHelper> {
    seq![
        HostHelper::StringToUpper,
        HostHelper::StringToLower,
        HostHelper::StringMd5,
        HostHelper::ParseInt,
        HostHelper::ParseFloat,
        HostHelper::ReadFile,
        HostHelper::Print,
        HostHelper::Println,
    ]
}

/// The `k`-th host helper in import order.
fn host_helper_at(k: usize) -> (h: HostHelper)
    requires
        k < 8,
    ensures
        h == host_helpers()[k as int],
{
    if k == 0 {
        HostHelper::StringToUpper
    } else if k == 1 {
        HostHelper::StringToLower
    } else if k == 2 {
        HostHelper::StringMd5
    } else if k == 3 {
        HostHelper::ParseInt
    } else if k == 4 {
        HostHelper::ParseFloat
    } else if k == 5 {
        HostHelper::ReadFile
    } else if k == 6 {
        HostHelper::Print
    } else {
        HostHelper::Println
    }
}

/// Whether value `vd` calls intrinsic `i`.
pub open spec fn value_calls(vd: ValueDef, i: Intrinsic) -> bool {
    vd.inst matches Inst::Call { target: CallTarget::Intrinsic(j), .. } && j == i
}

/// Whether some function of the module calls intrinsic `i`.
pub open spec fn calls_intrinsic(kir: &KirModule, i: Intrinsic) -> bool {
    exists|fi: int, vi: int|
        0 <= fi < kir.functions@.len() && 0 <= vi < kir.functions@[fi].values@.len()
            && #[trigger] value_calls(kir.functions@[fi].values@[vi], i)
}

/// Whether the module needs the `k`-th host helper.
pub open spec fn helper_needed(kir: &KirModule, k: int) -> bool {
    calls_intrinsic(kir, host_helpers()[k].intrinsic())
}

/// The number of host helpers among the first `k` that the module needs.
pub open spec fn needed_before(kir: &KirModule, k: nat) -> nat
    decreases k,
{
    if k == 0 {
        0
    } else {
        needed_before(kir, (k - 1) as nat) + if helper_needed(kir, k - 1) { 1nat } else { 0nat }
    }
}

/// The function index of the `k`-th host helper, where the module needs it: the
/// needed helpers take the first function indices, in import order.
pub open spec fn helper_slot(kir: &KirModule, k: int) -> Option<u32> {
    if helper_needed(kir, k) {
        Some(needed_before(kir, k as nat) as u32)
    } else {
        None
    }
}

/// The imports of the needed helpers among the first `k`, in order: the host
/// module, the helper's name and its type index.
pub open spec fn helper_imports(kir: &KirModule, k: nat) -> Seq<(Seq<char>, Seq<char>, u32)>
    decreases k,
{
    if k == 0 {
        Seq::empty()
    } else {
        let prev = helper_imports(kir, (k - 1) as nat);
        let h = host_helpers()[k - 1];
        if helper_needed(kir, k - 1) {
            prev.push(("kyokara_host"@, h.spec_import_name(), h.spec_type_index()))
        } else {
            prev
        }
    }
}

/// Whether value `vd` calls the intrinsic that helper `h` serves.
fn is_helper_call(vd: &ValueDef, h: HostHelper) -> (r: bool)
    ensures
        r == value_calls(*vd, h.intrinsic()),
{
    match &vd.inst {
        Inst::Call { target: CallTarget::Intrinsic(i), .. } => match h {
            HostHelper::StringToUpper => matches!(i, Intrinsic::StringToUpper),
            HostHelper::StringToLower => matches!(i, Intrinsic::StringToLower),
            HostHelper::StringMd5 => matches!(i, Intrinsic::StringMd5),
            HostHelper::ParseInt => matches!(i, Intrinsic::ParseInt),
            HostHelper::ParseFloat => matches!(i, Intrinsic::ParseFloat),
            HostHelper::ReadFile => matches!(i, Intrinsic::ReadFile),
            HostHelper::Print => matches!(i, Intrinsic::Print),
            HostHelper::Println => matches!(i, Intrinsic::Println),
        },
        _ => false,
    }
}

/// Whether some function of the module calls the intrinsic that helper `h` serves.
fn module_calls_helper(kir: &KirModule, h: HostHelper) -> (r: bool)
    ensures
        r == calls_intrinsic(kir, h.intrinsic()),
{
    let mut fi: usize = 0;
    while fi < kir.functions.len()
        invariant
            0 <= fi <= kir.functions@.len(),
            forall|a: int, b: int|
                0 <= a < fi && 0 <= b < kir.functions@[a].values@.len()
                    ==> !(#[trigger] value_calls(kir.functions@[a].values@[b], h.intrinsic())),
        decreases kir.functions@.len() - fi,
    {
        let f = &kir.functions[fi];
        let mut vi: usize = 0;
        while vi < f.values.len()
            invariant
                0 <= fi < kir.functions@.len(),
                *f == kir.functions@[fi as int],
                0 <= vi <= f.values@.len(),
                forall|a: int, b: int|
                    0 <= a < fi && 0 <= b < kir.functions@[a].values@.len()
                        ==> !(#[trigger] value_calls(kir.functions@[a].values@[b], h.intrinsic())),
                forall|b: int| 0 <= b < vi ==> !(#[trigger] value_calls(f.values@[b], h.intrinsic())),
            decreases f.values@.len() - vi,
        {
            if is_helper_call(&f.values[vi], h) {
                assert(value_calls(kir.functions@[fi as int].values@[vi as int], h.intrinsic()));
                return true;
            }
            vi = vi + 1;
        }
        fi = fi + 1;
    }
    false
}

/// Decide which host helpers the module needs: the function index of each helper
/// in import order (none where it is not needed), and the import section that
/// imports the needed ones from the host module.
fn plan_host_imports(kir: &KirModule) -> (r: (Vec<Option<u32>>, ImportSection, u32))
    ensures
        r.0@ == Seq::new(8, |k: int| helper_slot(kir, k)),
        import_entries(r.1) == helper_imports(kir, 8),
        r.2 == needed_before(kir, 8),
        r.2 <= 8,
        import_entries_size(import_entries(r.1)) <= 124 * 8,
{
    let mut slots: Vec<Option<u32>> = Vec::new();
    let mut imports = new_import_section();
    let mut next: u32 = 0;
    let mut k: usize = 0;
    while k < 8
        invariant
            0 <= k <= 8,
            next == needed_before(kir, k as nat),
            next <= k,
            slots@ == Seq::new(k as nat, |j: int| helper_slot(kir, j)),
            import_entries(imports) == helper_imports(kir, k as nat),
            import_entries(imports).len() == next,
            import_entries_size(import_entries(imports)) <= 124 * k,
        decreases 8 - k,
    {
        let h = host_helper_at(k);
        if module_calls_helper(kir, h) {
            slots.push(Some(next));
            let ghost e0 = import_entries(imports);
            proof {
                reveal_strlit("kyokara_host");
                lemma_import_name_len(h);
            }
            add_function_import(&mut imports, "kyokara_host", h.import_name(), h.type_index());
            assert(import_entries(imports).drop_last() =~= e0);
            next = next + 1;
        } else {
            slots.push(None);
        }
        k = k + 1;
        assert(slots@ =~= Seq::new(k as nat, |j: int| helper_slot(kir, j)));
    }
    (slots, imports, next)
}

/// `n` times the value type `i32`.
pub open spec fn i32s(n: nat) -> Seq<ValTy> {
    Seq::new(n, |_i: int| ValTy::I32)
}

/// A vector of `n` times `i32`.
fn i32_vec(n: usize) -> (v: Vec<ValTy>)
    ensures
        v@ == i32s(n as nat),
{
    let mut v: Vec<ValTy> = Vec::new();
    let mut i: usize = 0;
    while i < n
        invariant
            0 <= i <= n,
            v@ == i32s(i as nat),
        decreases n - i,
    {
        v.push(ValTy::I32);
        i = i + 1;
        assert(v@ =~= i32s(i as nat));
    }
    v
}

/// The types that every module declares first: the allocator's `(i32) -> i32`, the
/// string helpers' `(i32, i32) -> i32`, the parse and print helpers' four `i32`
/// parameters and the file reader's seven, each with one `i32` result.
pub open spec fn fixed_types() -> Seq<(Seq<ValTy>, Seq<ValTy>)> {
    seq![(i32s(1), i32s(1)), (i32s(2), i32s(1)), (i32s(4), i32s(1)), (i32s(7), i32s(1))]
}

/// The types of a list of parameters.
pub open spec fn tys_of(params: Seq<(Name, Ty)>) -> Seq<Ty> {
    params.map_values(|p: (Name, Ty)| p.1)
}

/// The number of parameters of the table wrapper of `f`: those before the captures,
/// none where the captures outnumber the parameters.
pub open spec fn wrapper_param_count(f: &KirFunction) -> nat {
    if f.params@.len() >= f.closure_capture_tys@.len() {
        (f.params@.len() - f.closure_capture_tys@.len()) as nat
    } else {
        0
    }
}

/// At most the bytes that the signatures of the first `k` functions and of their
/// table wrappers take in a type section: each its form byte, two counts, a byte per
/// parameter and one result.
pub open spec fn signatures_size(kir: &KirModule, k: nat) -> nat
    decreases k,
{
    if k == 0 {
        0
    } else {
        signatures_size(kir, (k - 1) as nat) + 24 + 2 * kir.functions@[k - 1].params@.len()
    }
}

/// At most the bytes that the names of the first `k` functions take as exports.
pub open spec fn export_names_size(kir: &KirModule, interner: &Interner, k: nat) -> nat
    decreases k,
{
    if k == 0 {
        0
    } else {
        export_names_size(kir, interner, (k - 1) as nat) + 11 + 4 * interner.spec_text(kir.functions@[k - 1].name).len()
    }
}

/// Whether the exports of a module fit the 32-bit size of its export section.
pub open spec fn exports_fit(kir: &KirModule, interner: &Interner) -> bool {
    export_names_size(kir, interner, kir.functions@.len()) + 111 <= u32::MAX
}

/// The sum of the export sizes only grows.
proof fn lemma_export_names_grow(kir: &KirModule, interner: &Interner, k: nat, n: nat)
    requires
        k <= n,
    ensures
        export_names_size(kir, interner, k) <= export_names_size(kir, interner, n),
    decreases n,
{
    if k < n {
        lemma_export_names_grow(kir, interner, k, (n - 1) as nat);
    }
}

/// Whether the parameters and the result of `f` have value types.
pub open spec fn signature_typed(f: &KirFunction) -> bool {
    all_have_valtype(tys_of(f.params@)) && spec_valtype(f.ret_ty) is Some
}

/// Whether every function of the module has a signature of value types.
pub open spec fn all_signatures_typed(kir: &KirModule) -> bool {
    forall|k: int| 0 <= k < kir.functions@.len() ==> #[trigger] signature_typed(&kir.functions@[k])
}

/// The signature of `f`.
pub open spec fn fn_signature(f: &KirFunction) -> (Seq<ValTy>, Seq<ValTy>) {
    (valtypes_of(tys_of(f.params@)), seq![spec_valtype(f.ret_ty).unwrap()])
}

/// The signature of the table wrapper of `f`: its parameters before the captures,
/// and its result.
pub open spec fn wrapper_signature(f: &KirFunction) -> (Seq<ValTy>, Seq<ValTy>) {
    (valtypes_of(tys_of(f.params@).take(wrapper_param_count(f) as int)), seq![spec_valtype(f.ret_ty).unwrap()])
}

/// Whether `s` is the signature of `f` or of its table wrapper.
pub open spec fn is_signature_of(f: &KirFunction, s: (Seq<ValTy>, Seq<ValTy>)) -> bool {
    fn_signature(f) == s || wrapper_signature(f) == s
}

/// Whether `s` is the signature of one of the first `n` functions or of its wrapper.
pub open spec fn signature_among(kir: &KirModule, n: int, s: (Seq<ValTy>, Seq<ValTy>)) -> bool {
    exists|k: int| 0 <= k < n && #[trigger] is_signature_of(&kir.functions@[k], s)
}

/// Whether no type occurs twice after the fixed types.
pub open spec fn distinct_after_fixed(e: Seq<(Seq<ValTy>, Seq<ValTy>)>) -> bool {
    forall|i: int, j: int| 4 <= i < j < e.len() ==> #[trigger] e[i] != #[trigger] e[j]
}

/// What the type section and the signature indices of a module hold: the fixed
/// types, then each distinct signature of a function or of its wrapper once; the
/// type index of each function's signature and of its wrapper's; and a map from
/// each wrapper signature to its type index.
pub open spec fn types_built(kir: &KirModule, types: TypeSection, fmap: TypeMap, ft: Seq<u32>, wt: Seq<u32>) -> bool {
    let e = type_entries(types);
    let n = kir.functions@.len();
    &&& 4 <= e.len() <= 4 + 2 * n
    &&& e.take(4) == fixed_types()
    &&& distinct_after_fixed(e)
    &&& forall|j: int| 4 <= j < e.len() ==> signature_among(kir, n as int, #[trigger] e[j])
    &&& ft.len() == n
    &&& wt.len() == n
    &&& forall|k: int| 0 <= k < n ==> {
        &&& #[trigger] ft[k] < e.len()
        &&& e[ft[k] as int] == fn_signature(&kir.functions@[k])
        &&& wt[k] < e.len()
        &&& e[wt[k] as int] == wrapper_signature(&kir.functions@[k])
    }
    &&& fmap.wf()
    &&& forall|key| #[trigger] fmap.map().contains_key(key) ==> {
        &&& fmap.map()[key] < e.len()
        &&& e[fmap.map()[key] as int] == key
        &&& exists|k: int| 0 <= k < n && #[trigger] wrapper_signature(&kir.functions@[k]) == key
    }
    &&& forall|k: int| 0 <= k < n ==> fmap.map().contains_key(#[trigger] wrapper_signature(&kir.functions@[k]))
}

/// The value types of the first `count` parameters, or an unsupported type error.
fn param_valtypes(params: &Vec<(Name, Ty)>, count: usize) -> (r: Result<Vec<ValTy>, CodegenError>)
    requires
        count <= params@.len(),
    ensures
        all_have_valtype(tys_of(params@).take(count as int))
            ==> (r matches Ok(v) && v@ == valtypes_of(tys_of(params@).take(count as int))),
        !all_have_valtype(tys_of(params@).take(count as int))
            ==> (r matches Err(CodegenError::UnsupportedType(m)) && m@ == "unresolved type var"@),
{
    let ghost tys = tys_of(params@);
    let mut out: Vec<ValTy> = Vec::new();
    let mut i: usize = 0;
    while i < count
        invariant
            0 <= i <= count <= params@.len(),
            tys == tys_of(params@),
            all_have_valtype(tys.take(i as int)),
            out@ == valtypes_of(tys.take(i as int)),
        decreases count - i,
    {
        match ty_to_valtype(&params[i].1) {
            Ok(v) => {
                out.push(v);
            },
            Err(e) => {
                assert(tys.take(count as int)[i as int] == params@[i as int].1);
                assert(spec_valtype(tys.take(count as int)[i as int]) is None);
                return Err(e);
            },
        }
        i = i + 1;
        assert(tys.take(i as int).drop_last() =~= tys.take(i - 1));
        assert(out@ =~= valtypes_of(tys.take(i as int)));
    }
    assert(tys.take(i as int) =~= tys.take(count as int));
    Ok(out)
}

/// Registering a signature keeps each type after the fixed ones the map's entry for
/// it at its own index.
proof fn lemma_register_indices(
    e0: Seq<(Seq<ValTy>, Seq<ValTy>)>,
    e1: Seq<(Seq<ValTy>, Seq<ValTy>)>,
    m0: Map<(Seq<ValTy>, Seq<ValTy>), u32>,
    m1: Map<(Seq<ValTy>, Seq<ValTy>), u32>,
    key: (Seq<ValTy>, Seq<ValTy>),
)
    requires
        4 <= e0.len() < u32::MAX,
        forall|j: int| 4 <= j < e0.len() ==> m0.contains_key(#[trigger] e0[j]) && m0[e0[j]] == j,
        m0.contains_key(key) ==> m1 == m0 && e1 == e0,
        !m0.contains_key(key) ==> m1 == m0.insert(key, e0.len() as u32) && e1 == e0.push(key),
    ensures
        forall|j: int| 4 <= j < e1.len() ==> m1.contains_key(#[trigger] e1[j]) && m1[e1[j]] == j,
{
    if !m0.contains_key(key) {
        assert forall|j: int| 4 <= j < e1.len() implies m1.contains_key(#[trigger] e1[j]) && m1[e1[j]] == j by {
            if j < e0.len() {
                assert(e1[j] == e0[j]);
                assert(m0.contains_key(e0[j]));
            }
        }
    }
}

/// Build the type section: the fixed types, then the signature of each function and
/// of its table wrapper, each distinct signature once. Returns the section, the map
/// from wrapper signatures to type indices, and the type index of each function and
/// of each wrapper; an unsupported type error where a signature has a type without
/// a value type.
#[verifier::rlimit(50)]
fn build_types(kir: &KirModule) -> (r: Result<(TypeSection, TypeMap, Vec<u32>, Vec<u32>), CodegenError>)
    requires
        kir.functions@.len() * 2 + 4 < u32::MAX,
        forall|k: int| 0 <= k < kir.functions@.len() ==> (#[trigger] kir.functions@[k]).params@.len() <= u32::MAX,
    ensures
        !all_signatures_typed(kir) ==> (r matches Err(CodegenError::UnsupportedType(m)) && m@ == "unresolved type var"@),
        all_signatures_typed(kir) ==> (r matches Ok((types, fmap, ft, wt)) && types_built(kir, types, fmap, ft@, wt@)),
        r matches Ok((types, _, _, _)) ==> type_entries_size(type_entries(types)) <= 62 + signatures_size(kir, kir.functions@.len()),
{
    let mut types = new_type_section();
    add_function_type(&mut types, &i32_vec(1), &i32_vec(1));
    add_function_type(&mut types, &i32_vec(2), &i32_vec(1));
    add_function_type(&mut types, &i32_vec(4), &i32_vec(1));
    add_function_type(&mut types, &i32_vec(7), &i32_vec(1));
    assert(type_entries(types) =~= fixed_types());
    proof {
        let a = seq![(i32s(1), i32s(1))];
        let b = a.push((i32s(2), i32s(1)));
        let c = b.push((i32s(4), i32s(1)));
        let d = c.push((i32s(7), i32s(1)));
        assert(d =~= fixed_types());
        assert(a.drop_last() =~= Seq::<(Seq<ValTy>, Seq<ValTy>)>::empty());
        assert(b.drop_last() =~= a);
        assert(c.drop_last() =~= b);
        assert(d.drop_last() =~= c);
        assert(type_entries_size(Seq::<(Seq<ValTy>, Seq<ValTy>)>::empty()) == 0);
        assert(type_entries_size(a) == 13);
        assert(type_entries_size(b) == 27);
        assert(type_entries_size(c) == 43);
        assert(type_entries_size(d) == 62);
    }
    let mut amap = TypeMap::new();
    let mut fmap = TypeMap::new();
    let mut ft: Vec<u32> = Vec::new();
    let mut wt: Vec<u32> = Vec::new();
    let n = kir.functions.len();
    let mut fi: usize = 0;
    while fi < n
        invariant
            n == kir.functions@.len(),
            n * 2 + 4 < u32::MAX,
            forall|k: int| 0 <= k < n ==> (#[trigger] kir.functions@[k]).params@.len() <= u32::MAX,
            0 <= fi <= n,
            4 <= type_entries(types).len() <= 4 + 2 * fi,
            type_entries(types).take(4) == fixed_types(),
            type_entries_size(type_entries(types)) <= 62 + signatures_size(kir, fi as nat),
            amap.wf(),
            fmap.wf(),
            forall|key| #[trigger] amap.map().contains_key(key) ==> amap.map()[key] < type_entries(types).len()
                && type_entries(types)[amap.map()[key] as int] == key,
            forall|j: int| 4 <= j < type_entries(types).len()
                ==> amap.map().contains_key(#[trigger] type_entries(types)[j]) && amap.map()[type_entries(types)[j]] == j,
            forall|j: int| 4 <= j < type_entries(types).len() ==> signature_among(kir, fi as int, #[trigger] type_entries(types)[j]),
            forall|key| #[trigger] fmap.map().contains_key(key) ==> amap.map().contains_key(key)
                && fmap.map()[key] == amap.map()[key]
                && exists|k: int| 0 <= k < fi && #[trigger] wrapper_signature(&kir.functions@[k]) == key,
            forall|k: int| 0 <= k < fi ==> fmap.map().contains_key(#[trigger] wrapper_signature(&kir.functions@[k])),
            forall|k: int| 0 <= k < fi ==> #[trigger] signature_typed(&kir.functions@[k]),
            ft@.len() == fi,
            wt@.len() == fi,
            forall|k: int| 0 <= k < fi ==> {
                &&& #[trigger] ft@[k] < type_entries(types).len()
                &&& type_entries(types)[ft@[k] as int] == fn_signature(&kir.functions@[k])
                &&& wt@[k] < type_entries(types).len()
                &&& type_entries(types)[wt@[k] as int] == wrapper_signature(&kir.functions@[k])
            },
        decreases n - fi,
    {
        let f = &kir.functions[fi];
        let ghost tys = tys_of(f.params@);
        let ghost e0 = type_entries(types);
        let params = match param_valtypes(&f.params, f.params.len()) {
            Ok(v) => v,
            Err(e) => {
                assert(tys.take(tys.len() as int) =~= tys);
                assert(!signature_typed(&kir.functions@[fi as int]));
                return Err(e);
            },
        };
        assert(tys.take(tys.len() as int) =~= tys);
        let ret = match ty_to_valtype(&f.ret_ty) {
            Ok(v) => v,
            Err(e) => {
                assert(!signature_typed(&kir.functions@[fi as int]));
                return Err(e);
            },
        };
        assert(signature_typed(&kir.functions@[fi as int]));
        let mut results: Vec<ValTy> = Vec::new();
        results.push(ret);
        assert(results@ =~= seq![spec_valtype(f.ret_ty).unwrap()]);
        let ghost fsig = (params@, results@);
        assert(fsig == fn_signature(f));
        let ghost m0 = amap.map();
        let type_idx = register_fn_type(&mut types, &mut amap, params, results);
        proof {
            lemma_register_indices(e0, type_entries(types), m0, amap.map(), fsig);
            assert(fsig.0.len() == f.params@.len());
            if type_entries(types) != e0 {
                assert(type_entries(types).drop_last() =~= e0);
                assert(type_entries(types).last() == fsig);
            }
            assert(type_entries_size(type_entries(types)) <= type_entries_size(e0) + 12 + f.params@.len());
        }
        ft.push(type_idx);

        let ghost e1 = type_entries(types);
        let wcount: usize = if f.params.len() >= f.closure_capture_tys.len() {
            f.params.len() - f.closure_capture_tys.len()
        } else {
            0
        };
        let wparams = match param_valtypes(&f.params, wcount) {
            Ok(v) => v,
            Err(e) => {
                let ghost i = choose|i: int| 0 <= i < wcount && !(spec_valtype(#[trigger] tys.take(wcount as int)[i]) is Some);
                assert(tys.take(wcount as int)[i] == tys[i]);
                return Err(e);
            },
        };
        let mut wresults: Vec<ValTy> = Vec::new();
        wresults.push(ret);
        let ghost wsig = (wparams@, wresults@);
        assert(wresults@ =~= seq![spec_valtype(f.ret_ty).unwrap()]);
        assert(wsig == wrapper_signature(f));
        let ghost m1 = amap.map();
        let widx = register_fn_type(&mut types, &mut amap, wparams, wresults);
        proof {
            lemma_register_indices(e1, type_entries(types), m1, amap.map(), wsig);
            assert(wsig.0.len() <= f.params@.len());
            if type_entries(types) != e1 {
                assert(type_entries(types).drop_last() =~= e1);
                assert(type_entries(types).last() == wsig);
            }
            assert(type_entries_size(type_entries(types)) <= type_entries_size(e1) + 12 + f.params@.len());
            assert(signatures_size(kir, (fi + 1) as nat) == signatures_size(kir, fi as nat) + 24 + 2 * f.params@.len());
            assert(type_entries_size(type_entries(types)) <= 62 + signatures_size(kir, (fi + 1) as nat));
        }
        wt.push(widx);
        let wparams2 = match param_valtypes(&f.params, wcount) {
            Ok(v) => v,
            Err(e) => {
                return Err(e);
            },
        };
        let mut wresults2: Vec<ValTy> = Vec::new();
        wresults2.push(ret);
        assert(wresults2@ =~= wresults@);
        if fmap.get(&wparams2, &wresults2).is_none() {
            fmap.insert_new(wparams2, wresults2, widx);
        }
        proof {
            let e2 = type_entries(types);
            assert(is_signature_of(&kir.functions@[fi as int], fsig));
            assert(is_signature_of(&kir.functions@[fi as int], wsig));
            assert forall|j: int| 4 <= j < e2.len() implies signature_among(kir, fi + 1, #[trigger] e2[j]) by {
                if j < e0.len() {
                    assert(e2[j] == e0[j]);
                    assert(signature_among(kir, fi as int, e0[j]));
                } else if j < e1.len() {
                    assert(e2[j] == e1[j]);
                    assert(e1[j] == fsig);
                } else {
                    assert(e2[j] == wsig);
                }
            }
            assert forall|k: int| 0 <= k < fi + 1 implies {
                &&& #[trigger] ft@[k] < e2.len()
                &&& e2[ft@[k] as int] == fn_signature(&kir.functions@[k])
                &&& wt@[k] < e2.len()
                &&& e2[wt@[k] as int] == wrapper_signature(&kir.functions@[k])
            } by {
                if k < fi {
                    assert(e2[ft@[k] as int] == e0[ft@[k] as int]);
                    assert(e2[wt@[k] as int] == e0[wt@[k] as int]);
                } else {
                    assert(e2[ft@[k] as int] == e1[ft@[k] as int]);
                }
            }
        }
        fi = fi + 1;
    }
    proof {
        let e = type_entries(types);
        assert forall|i: int, j: int| 4 <= i < j < e.len() implies #[trigger] e[i] != #[trigger] e[j] by {
            assert(amap.map()[e[i]] == i);
            assert(amap.map()[e[j]] == j);
        }
        assert(all_signatures_typed(kir));
    }
    Ok((types, fmap, ft, wt))
}

/// The exports of a module: its memory, the allocator at index `alloc`, and each
/// function under its name at the indices after the allocator's.
pub open spec fn spec_exports(kir: &KirModule, interner: &Interner, alloc: nat) -> Seq<(Seq<char>, ExportItem, u32)> {
    seq![("memory"@, ExportItem::Memory, 0u32), ("__kyokara_alloc"@, ExportItem::Func, alloc as u32)]
        + Seq::new(
        kir.functions@.len(),
        |k: int| (interner.spec_text(kir.functions@[k].name), ExportItem::Func, (alloc + 1 + k) as u32),
    )
}

/// Build the export section.
fn build_exports(kir: &KirModule, interner: &Interner, alloc: u32) -> (s: ExportSection)
    requires
        alloc + 3 + kir.functions@.len() <= u32::MAX,
        exports_fit(kir, interner),
    ensures
        export_entries(s) == spec_exports(kir, interner, alloc as nat),
        export_entries_size(export_entries(s)) == 106 + export_names_size(kir, interner, kir.functions@.len()),
{
    proof {
        reveal_strlit("memory");
        reveal_strlit("__kyokara_alloc");
    }
    let mut exports = new_export_section();
    add_export(&mut exports, "memory", ExportItem::Memory, 0);
    add_export(&mut exports, "__kyokara_alloc", ExportItem::Func, alloc);
    let ghost head = export_entries(exports);
    proof {
        let h1 = seq![("memory"@, ExportItem::Memory, 0u32)];
        assert(head.drop_last() =~= h1);
        assert(h1.drop_last() =~= Seq::<(Seq<char>, ExportItem, u32)>::empty());
        assert(export_entries_size(Seq::<(Seq<char>, ExportItem, u32)>::empty()) == 0);
        assert(export_entries_size(h1) == 35);
        assert(export_entries_size(head) == 106);
    }
    let n = kir.functions.len();
    let mut k: usize = 0;
    while k < n
        invariant
            n == kir.functions@.len(),
            alloc + 3 + n <= u32::MAX,
            exports_fit(kir, interner),
            head.len() == 2,
            export_entries_size(export_entries(exports)) == 106 + export_names_size(kir, interner, k as nat),
            0 <= k <= n,
            export_entries(exports) == head + Seq::new(
                k as nat,
                |j: int| (interner.spec_text(kir.functions@[j].name), ExportItem::Func, (alloc + 1 + j) as u32),
            ),
        decreases n - k,
    {
        let f = &kir.functions[k];
        let ghost e0 = export_entries(exports);
        proof {
            lemma_export_names_grow(kir, interner, (k + 1) as nat, n as nat);
        }
        add_export(&mut exports, interner.text(f.name), ExportItem::Func, alloc + 1 + k as u32);
        assert(export_entries(exports).drop_last() =~= e0);
        k = k + 1;
        assert(export_entries(exports) =~= head + Seq::new(
            k as nat,
            |j: int| (interner.spec_text(kir.functions@[j].name), ExportItem::Func, (alloc + 1 + j) as u32),
        ));
    }
    exports
}

/// Whether `body` is the encoding of a body that `FuncCodegen::emit` gives for `f`
/// in the context `ctx`: its locals, then instructions that end in `end`; where the
/// entry block's control flow is simple, exactly its instructions and `end`.
pub open spec fn function_body_emitted<'a>(f: &'a KirFunction, ctx: ModuleCtx<'a>, body: Seq<u8>) -> bool {
    &&& exists|instrs: Seq<Instr>|
        body == locals_bytes(FuncCodegen::spec_locals(f)) + instrs_bytes(instrs) && instrs.len() > 0
            && instrs.last() == Instr::End
    &&& exists|cg: FuncCodegen<'a>|
        #[trigger] cg.locals_allocated() && cg.kir_func == f && *cg.ctx == ctx
            && (cg.spec_simple_block(f.entry_block) matches Some(Ok(s))
                ==> body == locals_bytes(FuncCodegen::spec_locals(f)) + instrs_bytes(s.push(Instr::End)))
}

/// Whether the bodies `c` are the allocator, then the body of each function, then
/// the table wrapper of each function, which calls the function at `first + k`.
pub open spec fn code_seq_built<'a>(kir: &'a KirModule, ctx: ModuleCtx<'a>, c: Seq<Seq<u8>>, first: nat) -> bool {
    let n = kir.functions@.len();
    &&& c.len() == 1 + 2 * n
    &&& c[0] == locals_bytes(spec_emit_alloc_function_locals()) + instrs_bytes(spec_emit_alloc_function_body())
    &&& forall|k: int| #![trigger kir.functions@[k]]
        0 <= k < n ==> function_body_emitted(&kir.functions@[k], ctx, c[1 + k])
    &&& forall|k: int| #![trigger kir.functions@[k]]
        0 <= k < n ==> c[1 + n + k] == locals_bytes(Seq::empty()) + instrs_bytes(
            spec_wrapper_instrs(&kir.functions@[k], (first + k) as u32, CURRENT_CLOSURE_GLOBAL_INDEX),
        )
}

/// Whether a code section holds the bodies that `code_seq_built` describes.
pub open spec fn code_built<'a>(kir: &'a KirModule, ctx: ModuleCtx<'a>, code: CodeSection, first: nat) -> bool {
    code_seq_built(kir, ctx, code_entries(code), first)
}

/// Whether, in the context `ctx`, the body of every function of `kir` has simple
/// control flow that emits without error, and any bodies that the module's code
/// can then hold, with the table wrappers calling the functions from `first`, fit
/// the 32-bit size of a code section.
#[verifier::opaque]
pub open spec fn code_emits_simply<'a>(kir: &'a KirModule, ctx: ModuleCtx<'a>, first: nat) -> bool {
    &&& forall|k: int, cg: FuncCodegen<'a>| #![trigger kir.functions@[k], cg.locals_allocated()]
        0 <= k < kir.functions@.len() && cg.locals_allocated() && cg.kir_func == &kir.functions@[k] && *cg.ctx == ctx
            ==> (cg.spec_simple_block(kir.functions@[k].entry_block) matches Some(Ok(_)))
    &&& forall|c: Seq<Seq<u8>>| #[trigger] code_seq_built(kir, ctx, c, first) ==> code_entries_size(c) + 5 <= u32::MAX
}

/// Whether a function's values and blocks refer to each other and to the item tree
/// within range, and its locals, records and closure captures fit their 32- and
/// 64-bit encodings.
pub open spec fn function_fits(f: &KirFunction, tree: &ItemTree) -> bool {
    &&& values_wf(f)
    &&& blocks_wf(f)
    &&& defs_in_range(f, tree.types@.len())
    &&& forall|v: int| 0 <= v < f.values@.len() ==> record_fits(tree, #[trigger] f.values@[v].ty)
    &&& f.params@.len() + f.values@.len() + 15 <= u32::MAX
    &&& 8 + f.closure_capture_tys@.len() * 8 <= u64::MAX
}

/// Whether every value of every function has a value type, and every function has at
/// least as many parameters as captures.
pub open spec fn bodies_typed(kir: &KirModule) -> bool {
    forall|k: int| 0 <= k < kir.functions@.len() ==> #[trigger] all_values_typed(&kir.functions@[k])
        && kir.functions@[k].params@.len() >= kir.functions@[k].closure_capture_tys@.len()
}

/// The error for a code section whose size would not fit in 32 bits.
fn code_too_large() -> (e: CodegenError)
    ensures
        e is UnsupportedInstruction,
{
    CodegenError::UnsupportedInstruction(crate::error::concat3("code section exceeds the 32-bit size limit", "", ""))
}

/// The bytes of a list of function bodies.
pub open spec fn bodies_bytes(fs: Seq<Function>) -> Seq<Seq<u8>> {
    fs.map_values(|f: Function| body_bytes(f))
}

/// Build the code section: the allocator, the body of each function, then the table
/// wrapper of each. Fails where a function body or a wrapper cannot be emitted, or
/// where the section would outgrow its 32-bit size; succeeds where every function
/// has a simple body that emits, and its bodies fit.
#[verifier::rlimit(40)]
#[verifier::spinoff_prover]
fn build_code<'a>(kir: &'a KirModule, ctx: &'a ModuleCtx<'a>, first: u32) -> (r: Result<CodeSection, CodegenError>)
    requires
        ctx.wf(),
        first + 2 * kir.functions@.len() <= u32::MAX,
        forall|k: int| 0 <= k < kir.functions@.len() ==> function_fits(#[trigger] &kir.functions@[k], ctx.item_tree),
        forall|k: int| 0 <= k < kir.functions@.len() ==> helpers_imported(#[trigger] &kir.functions@[k], ctx),
    ensures
        r is Ok ==> bodies_typed(kir),
        r matches Ok(code) ==> code_built(kir, *ctx, code, first as nat),
        r matches Ok(code) ==> code_entries_size(code_entries(code)) + 5 <= u32::MAX,
        bodies_typed(kir) && code_emits_simply(kir, *ctx, first as nat) ==> r is Ok,
{
    proof {
        reveal(code_emits_simply);
    }
    let n = kir.functions.len();
    let alloc = emit_alloc_function();
    let mut bodies: Vec<Function> = Vec::new();
    let mut k: usize = 0;
    while k < n
        invariant
            n == kir.functions@.len(),
            ctx.wf(),
            first + 2 * n <= u32::MAX,
            forall|j: int| 0 <= j < n ==> function_fits(#[trigger] &kir.functions@[j], ctx.item_tree),
            forall|j: int| 0 <= j < n ==> helpers_imported(#[trigger] &kir.functions@[j], ctx),
            0 <= k <= n,
            bodies@.len() == k,
            forall|j: int| 0 <= j < k ==> function_body_emitted(&kir.functions@[j], *ctx, #[trigger] body_bytes(bodies@[j])),
            forall|j: int| 0 <= j < k ==> #[trigger] all_values_typed(&kir.functions@[j]),
        decreases n - k,
    {
        let f = &kir.functions[k];
        assert(function_fits(&kir.functions@[k as int], ctx.item_tree));
        assert(helpers_imported(&kir.functions@[k as int], ctx));
        let cg = FuncCodegen::new(f, ctx);
        assert forall|v: u32| cg.value_ok(v) implies #[trigger] cg.value_fits(v) by {
            assert(record_fits(ctx.item_tree, f.values@[v as int].ty));
        }
        let res = cg.emit();
        let body = match res {
            Ok(b) => b,
            Err(e) => {
                proof {
                    reveal(code_emits_simply);
                    if bodies_typed(kir) && code_emits_simply(kir, *ctx, first as nat) {
                        assert(all_values_typed(&kir.functions@[k as int]));
                        let w = choose|w: FuncCodegen<'a>| #[trigger] w.locals_allocated() && w.kir_func == f && w.ctx == ctx
                            && (w.spec_simple_block(f.entry_block) matches Some(x)
                                ==> crate::func::body_emitted(res, FuncCodegen::spec_locals(f), x));
                        assert(kir.functions@[k as int] == *f);
                        assert(w.spec_simple_block(kir.functions@[k as int].entry_block) matches Some(Ok(_)));
                    }
                }
                return Err(e);
            },
        };
        bodies.push(body);
        assert forall|j: int| 0 <= j < k + 1 implies function_body_emitted(&kir.functions@[j], *ctx, #[trigger] body_bytes(bodies@[j])) by {
        }
        k = k + 1;
    }
    let mut wrappers: Vec<Function> = Vec::new();
    let mut w: usize = 0;
    while w < n
        invariant
            n == kir.functions@.len(),
            first + 2 * n <= u32::MAX,
            forall|j: int| 0 <= j < n ==> function_fits(#[trigger] &kir.functions@[j], ctx.item_tree),
            0 <= w <= n,
            wrappers@.len() == w,
            forall|j: int| #![trigger kir.functions@[j]]
                0 <= j < w ==> body_bytes(wrappers@[j]) == locals_bytes(Seq::empty()) + instrs_bytes(
                    spec_wrapper_instrs(&kir.functions@[j], (first + j) as u32, CURRENT_CLOSURE_GLOBAL_INDEX),
                ) && kir.functions@[j].params@.len() >= kir.functions@[j].closure_capture_tys@.len(),
        decreases n - w,
    {
        let f = &kir.functions[w];
        assert(function_fits(&kir.functions@[w as int], ctx.item_tree));
        let wrapper = match emit_wrapper_function(f, first + w as u32, CURRENT_CLOSURE_GLOBAL_INDEX) {
            Ok(b) => b,
            Err(e) => {
                proof {
                    if bodies_typed(kir) {
                        assert(all_values_typed(&kir.functions@[w as int]));
                        assert(kir.functions@[w as int].params@.len() >= kir.functions@[w as int].closure_capture_tys@.len());
                    }
                }
                return Err(e);
            },
        };
        wrappers.push(wrapper);
        w = w + 1;
    }
    let ghost all: Seq<Seq<u8>> = seq![body_bytes(alloc)] + bodies_bytes(bodies@) + bodies_bytes(wrappers@);
    proof {
        assert(code_seq_built(kir, *ctx, all, first as nat)) by {
            assert forall|j: int| #![trigger kir.functions@[j]] 0 <= j < n implies
                function_body_emitted(&kir.functions@[j], *ctx, all[1 + j]) by {
                assert(all[1 + j] == body_bytes(bodies@[j]));
            }
            assert forall|j: int| #![trigger kir.functions@[j]] 0 <= j < n implies
                all[1 + n + j] == locals_bytes(Seq::empty()) + instrs_bytes(
                    spec_wrapper_instrs(&kir.functions@[j], (first + j) as u32, CURRENT_CLOSURE_GLOBAL_INDEX)) by {
                assert(all[1 + n + j] == body_bytes(wrappers@[j]));
            }
        }
    }
    let limit: usize = u32::MAX as usize - 5;
    let mut total: usize = function_byte_len(&alloc);
    proof {
        assert(all.take(1).drop_last() =~= Seq::<Seq<u8>>::empty());
        assert(code_entries_size(Seq::<Seq<u8>>::empty()) == 0);
        assert(all.take(1).last() == body_bytes(alloc));
    }
    if total > limit - 5 {
        proof {
            lemma_code_size_prefix(all, 1);
        }
        return Err(code_too_large());
    }
    total = total + 5;
    let mut i: usize = 0;
    while i < 2 * n
        invariant
            n == kir.functions@.len(),
            bodies@.len() == n,
            wrappers@.len() == n,
            0 <= i <= 2 * n,
            first + 2 * n <= u32::MAX,
            code_seq_built(kir, *ctx, all, first as nat),
            limit == u32::MAX - 5,
            all.len() == 1 + 2 * n,
            all == seq![body_bytes(alloc)] + bodies_bytes(bodies@) + bodies_bytes(wrappers@),
            total == code_entries_size(all.take(1 + i)),
            total <= limit,
        decreases 2 * n - i,
    {
        let f = if i < n { &bodies[i] } else { &wrappers[i - n] };
        assert(body_bytes(*f) == all[1 + i]);
        let len = function_byte_len(f);
        assert(all.take(2 + i).drop_last() =~= all.take(1 + i));
        assert(all.take(2 + i).last() == all[1 + i]);
        if len > limit - total || limit - total - len < 5 {
            proof {
                lemma_code_size_prefix(all, 2 + i);
                reveal(code_emits_simply);
            }
            return Err(code_too_large());
        }
        total = total + 5 + len;
        i = i + 1;
    }
    assert(all.take(1 + 2 * n) =~= all);
    let mut code = new_code_section();
    proof {
        lemma_code_size_prefix(all, 1);
        lemma_code_entry_size(all.take(1));
    }
    add_code(&mut code, &alloc);
    assert(code_entries(code) =~= all.take(1));
    let mut i: usize = 0;
    while i < 2 * n
        invariant
            n == kir.functions@.len(),
            bodies@.len() == n,
            wrappers@.len() == n,
            first + 2 * n <= u32::MAX,
            0 <= i <= 2 * n,
            all == seq![body_bytes(alloc)] + bodies_bytes(bodies@) + bodies_bytes(wrappers@),
            code_entries_size(all) + 5 <= u32::MAX,
            code_entries(code) == all.take(1 + i),
        decreases 2 * n - i,
    {
        let f = if i < n { &bodies[i] } else { &wrappers[i - n] };
        assert(body_bytes(*f) == all[1 + i]);
        proof {
            lemma_code_size_prefix(all, 2 + i);
            lemma_code_entry_size(all.take(2 + i));
        }
        add_code(&mut code, f);
        assert(code_entries(code) =~= all.take(2 + i));
        i = i + 1;
    }
    assert(code_entries(code) =~= all);
    proof {
        assert forall|j: int| 0 <= j < n implies #[trigger] all_values_typed(&kir.functions@[j]) by {}
    }
    Ok(code)
}

/// A prefix of a list of bodies takes no more room than the whole list.
proof fn lemma_code_size_prefix(c: Seq<Seq<u8>>, k: int)
    requires
        0 <= k <= c.len(),
    ensures
        code_entries_size(c.take(k)) <= code_entries_size(c),
    decreases c.len(),
{
    if k < c.len() {
        assert(c.drop_last().take(k) =~= c.take(k));
        lemma_code_size_prefix(c.drop_last(), k);
    } else {
        assert(c.take(k) =~= c);
    }
}

/// The last body of a list takes no more room than the whole list.
proof fn lemma_code_entry_size(c: Seq<Seq<u8>>)
    requires
        c.len() > 0,
    ensures
        c.last().len() + 5 <= code_entries_size(c),
{
}

/// Whether a module is one the generator takes: the item tree's layouts fit, every
/// function fits, the function indices and type indices fit in 32 bits, and so do
/// the sizes of the function, element and type sections.
pub open spec fn module_fits(kir: &KirModule, tree: &ItemTree) -> bool {
    &&& item_tree_fits(tree)
    &&& kir.functions@.len() * 10 + 64 <= u32::MAX
    &&& signatures_size(kir, kir.functions@.len()) + 67 <= u32::MAX
    &&& forall|k: int| 0 <= k < kir.functions@.len() ==> function_fits(#[trigger] &kir.functions@[k], tree)
}

/// Each name of the first `k` functions mapped to `first` plus the position of the
/// last function with that name.
pub open spec fn name_positions(kir: &KirModule, first: nat, k: nat) -> Map<Name, u32>
    decreases k,
{
    if k == 0 {
        Map::empty()
    } else {
        name_positions(kir, first, (k - 1) as nat).insert(kir.functions@[k - 1].name, (first + k - 1) as u32)
    }
}

/// The sections of a compiled module.
pub struct ModuleSections {
    pub types: TypeSection,
    pub imports: ImportSection,
    pub functions: FunctionSection,
    pub tables: TableSection,
    pub memories: MemorySection,
    pub globals: GlobalSection,
    pub exports: ExportSection,
    pub elements: ElementSection,
    pub code: CodeSection,
}

impl ModuleSections {
    /// The module's bytes: the header, then each section's id and encoding in the
    /// order of the format, the import, table and element sections only where they
    /// hold something.
    pub open spec fn encoding(&self) -> Seq<u8> {
        module_header() + seq![1u8] + type_section_encoding(self.types)
            + (if import_entries(self.imports).len() == 0 {
            Seq::empty()
        } else {
            seq![2u8] + import_section_encoding(self.imports)
        }) + seq![3u8] + function_section_encoding(self.functions)
            + (if table_entries(self.tables).len() == 0 {
            Seq::empty()
        } else {
            seq![4u8] + table_section_encoding(self.tables)
        }) + seq![5u8] + memory_section_encoding(self.memories) + seq![6u8] + global_section_encoding(self.globals)
            + seq![7u8] + export_section_encoding(self.exports)
            + (if element_entries(self.elements).len() == 0 {
            Seq::empty()
        } else {
            seq![9u8] + element_section_encoding(self.elements)
        }) + seq![10u8] + code_section_encoding(self.code)
    }

    /// Whether each section's size fits in 32 bits, by the bounds of its entries.
    pub open spec fn sizes_fit(&self) -> bool {
        &&& type_entries_size(type_entries(self.types)) + 5 <= u32::MAX
        &&& import_entries_size(import_entries(self.imports)) + 5 <= u32::MAX
        &&& 5 * function_entries(self.functions).len() + 5 <= u32::MAX
        &&& 22 * table_entries(self.tables).len() + 5 <= u32::MAX
        &&& 11 * memory_entries(self.memories).len() + 5 <= u32::MAX
        &&& 9 * global_entries(self.globals).len() + 5 <= u32::MAX
        &&& export_entries_size(export_entries(self.exports)) + 5 <= u32::MAX
        &&& element_entries_size(element_entries(self.elements)) + 5 <= u32::MAX
        &&& code_entries_size(code_entries(self.code)) + 5 <= u32::MAX
    }

    /// Whether `ctx` is the context that compiling `kir` builds: the item tree and
    /// interner, each function name at the index of the last function with it and
    /// at its table slot, the allocator and the needed host helpers at their
    /// indices, and each wrapper signature at its type index.
    pub open spec fn context_of<'a>(&self, ctx: ModuleCtx<'a>, kir: &'a KirModule, tree: &'a ItemTree, interner: &'a Interner) -> bool {
        let n = kir.functions@.len();
        let h = needed_before(kir, 8);
        let e = type_entries(self.types);
        &&& *ctx.item_tree == *tree
        &&& *ctx.interner == *interner
        &&& ctx.wf()
        &&& ctx.fn_name_map@ == name_positions(kir, h + 1, n)
        &&& ctx.fn_table_map@ == name_positions(kir, 0, n)
        &&& ctx.alloc_fn_index == h
        &&& ctx.string_to_upper_fn_index == helper_slot(kir, 0)
        &&& ctx.string_to_lower_fn_index == helper_slot(kir, 1)
        &&& ctx.string_md5_fn_index == helper_slot(kir, 2)
        &&& ctx.parse_int_fn_index == helper_slot(kir, 3)
        &&& ctx.parse_float_fn_index == helper_slot(kir, 4)
        &&& ctx.fs_read_file_fn_index == helper_slot(kir, 5)
        &&& ctx.io_print_fn_index == helper_slot(kir, 6)
        &&& ctx.io_println_fn_index == helper_slot(kir, 7)
        &&& ctx.current_closure_global_index == CURRENT_CLOSURE_GLOBAL_INDEX
        &&& forall|key| #[trigger] ctx.fn_type_map.map().contains_key(key) ==> {
            &&& ctx.fn_type_map.map()[key] < e.len()
            &&& e[ctx.fn_type_map.map()[key] as int] == key
            &&& exists|k: int| 0 <= k < n && #[trigger] wrapper_signature(&kir.functions@[k]) == key
        }
        &&& forall|k: int| 0 <= k < n ==> ctx.fn_type_map.map().contains_key(#[trigger] wrapper_signature(&kir.functions@[k]))
    }

    /// Whether the sections are those of `kir`: the needed host helpers imported
    /// first; the allocator, each function and each function's table wrapper, with
    /// their signatures' types; a table of the wrappers where there are functions;
    /// one memory page; the heap and current-closure globals at zero; the memory,
    /// the allocator and each function exported; and the code of each, emitted in
    /// the context that the module builds.
    pub open spec fn describes<'a>(&self, kir: &'a KirModule, tree: &'a ItemTree, interner: &'a Interner) -> bool {
        let n = kir.functions@.len();
        let h = needed_before(kir, 8);
        let e = type_entries(self.types);
        let fe = function_entries(self.functions);
        &&& 4 <= e.len()
        &&& e.take(4) == fixed_types()
        &&& distinct_after_fixed(e)
        &&& forall|j: int| 4 <= j < e.len() ==> signature_among(kir, n as int, #[trigger] e[j])
        &&& import_entries(self.imports) == helper_imports(kir, 8)
        &&& fe.len() == 1 + 2 * n
        &&& fe[0] == 0
        &&& forall|k: int| #![trigger kir.functions@[k]] 0 <= k < n ==> {
            &&& fe[1 + k] < e.len()
            &&& e[fe[1 + k] as int] == fn_signature(&kir.functions@[k])
            &&& fe[1 + n + k] < e.len()
            &&& e[fe[1 + n + k] as int] == wrapper_signature(&kir.functions@[k])
        }
        &&& table_entries(self.tables) == (if n > 0 { seq![n as u64] } else { Seq::empty() })
        &&& element_entries(self.elements) == (if n > 0 {
            seq![(0i32, Seq::new(n, |k: int| (h + 1 + n + k) as u32))]
        } else {
            Seq::empty()
        })
        &&& memory_entries(self.memories) == seq![1u64]
        &&& global_entries(self.globals) == seq![0i32, 0i32]
        &&& export_entries(self.exports) == spec_exports(kir, interner, h)
        &&& exists|ctx: ModuleCtx<'a>| #[trigger] self.context_of(ctx, kir, tree, interner) && code_built(kir, ctx, self.code, h + 1)
    }
}

/// Whether, in every context that compiling `kir` builds, every function of `kir`
/// has a simple body that emits, and the module's bodies fit its code section
/// (`code_emits_simply`).
pub open spec fn module_emits_simply<'a>(kir: &'a KirModule, tree: &'a ItemTree, interner: &'a Interner) -> bool {
    forall|s: ModuleSections, ctx: ModuleCtx<'a>| #[trigger] s.context_of(ctx, kir, tree, interner)
        ==> code_emits_simply(kir, ctx, needed_before(kir, 8) + 1)
}

/// Where the context imports each host helper that the module needs, every function
/// finds the helpers that its intrinsic calls need.
proof fn lemma_helpers_imported(kir: &KirModule, ctx: &ModuleCtx)
    requires
        ctx.string_to_upper_fn_index == helper_slot(kir, 0),
        ctx.string_to_lower_fn_index == helper_slot(kir, 1),
        ctx.string_md5_fn_index == helper_slot(kir, 2),
        ctx.parse_int_fn_index == helper_slot(kir, 3),
        ctx.parse_float_fn_index == helper_slot(kir, 4),
    ensures
        forall|fi: int| 0 <= fi < kir.functions@.len() ==> helpers_imported(#[trigger] &kir.functions@[fi], ctx),
{
    assert forall|fi: int| 0 <= fi < kir.functions@.len() implies helpers_imported(#[trigger] &kir.functions@[fi], ctx) by {
        let f = &kir.functions@[fi];
        assert forall|v: int| 0 <= v < f.values@.len() implies ((#[trigger] f.values@[v]).inst matches Inst::Call {
            target: CallTarget::Intrinsic(i),
            ..
        } ==> crate::func::helper_imported(ctx, i)) by {
            if let Inst::Call { target: CallTarget::Intrinsic(i), .. } = f.values@[v].inst {
                assert(value_calls(kir.functions@[fi].values@[v], i));
                assert(calls_intrinsic(kir, i));
                assert(host_helpers()[0].intrinsic() == Intrinsic::StringToUpper);
                assert(host_helpers()[1].intrinsic() == Intrinsic::StringToLower);
                assert(host_helpers()[2].intrinsic() == Intrinsic::StringMd5);
                assert(host_helpers()[3].intrinsic() == Intrinsic::ParseInt);
                assert(host_helpers()[4].intrinsic() == Intrinsic::ParseFloat);
            }
        }
    }
}

/// Map each function name to its index and to its table slot: the functions take
/// the indices from `first` on, and the table slots from 0 on, in order.
fn name_maps(kir: &KirModule, first: u32) -> (r: (HashMap<Name, u32>, HashMap<Name, u32>))
    requires
        first + kir.functions@.len() <= u32::MAX,
    ensures
        r.0@ == name_positions(kir, first as nat, kir.functions@.len()),
        r.1@ == name_positions(kir, 0, kir.functions@.len()),
{
    let n = kir.functions.len();
    let mut fn_name_map: HashMap<Name, u32> = HashMap::new();
    let mut fn_table_map: HashMap<Name, u32> = HashMap::new();
    let mut k: usize = 0;
    while k < n
        invariant
            n == kir.functions@.len(),
            first + n <= u32::MAX,
            0 <= k <= n,
            fn_name_map@ == name_positions(kir, first as nat, k as nat),
            fn_table_map@ == name_positions(kir, 0, k as nat),
        decreases n - k,
    {
        let name = kir.functions[k].name;
        fn_name_map.insert(name, first + k as u32);
        fn_table_map.insert(name, k as u32);
        k = k + 1;
    }
    (fn_name_map, fn_table_map)
}

/// Build the function section: the allocator's type, then each function's, then
/// each wrapper's.
fn build_function_section(fn_types: &Vec<u32>, wrapper_types: &Vec<u32>) -> (s: FunctionSection)
    requires
        fn_types@.len() == wrapper_types@.len(),
        1 + 2 * fn_types@.len() < u32::MAX,
    ensures
        function_entries(s) == seq![0u32] + fn_types@ + wrapper_types@,
{
    let n = fn_types.len();
    let mut functions = new_function_section();
    add_function(&mut functions, 0);
    let mut k: usize = 0;
    while k < n
        invariant
            n == fn_types@.len(),
            1 + 2 * n < u32::MAX,
            0 <= k <= n,
            function_entries(functions) == seq![0u32] + fn_types@.take(k as int),
        decreases n - k,
    {
        add_function(&mut functions, fn_types[k]);
        k = k + 1;
        assert(function_entries(functions) =~= seq![0u32] + fn_types@.take(k as int));
    }
    assert(fn_types@.take(n as int) =~= fn_types@);
    let mut k: usize = 0;
    while k < n
        invariant
            n == fn_types@.len(),
            n == wrapper_types@.len(),
            1 + 2 * n < u32::MAX,
            0 <= k <= n,
            function_entries(functions) == seq![0u32] + fn_types@ + wrapper_types@.take(k as int),
        decreases n - k,
    {
        add_function(&mut functions, wrapper_types[k]);
        k = k + 1;
        assert(function_entries(functions) =~= seq![0u32] + fn_types@ + wrapper_types@.take(k as int));
    }
    assert(wrapper_types@.take(n as int) =~= wrapper_types@);
    functions
}

/// Build the table of the `n` wrappers and the element segment that fills it with
/// the wrapper indices, which follow the `n` function indices from `first`; both
/// empty where there are no functions.
fn build_table(n: usize, first: u32) -> (r: (TableSection, ElementSection))
    requires
        first + 2 * n <= u32::MAX,
    ensures
        table_entries(r.0) == (if n > 0 { seq![n as u64] } else { Seq::<u64>::empty() }),
        element_entries(r.1) == (if n > 0 {
            seq![(0i32, Seq::new(n as nat, |k: int| (first + n + k) as u32))]
        } else {
            Seq::<(i32, Seq<u32>)>::empty()
        }),
{
    let mut tables = new_table_section();
    let mut elements = new_element_section();
    if n > 0 {
        add_funcref_table(&mut tables, n as u64);
        let mut wrapper_indices: Vec<u32> = Vec::new();
        let mut k: usize = 0;
        while k < n
            invariant
                first + 2 * n <= u32::MAX,
                0 <= k <= n,
                wrapper_indices@ == Seq::new(k as nat, |j: int| (first + n + j) as u32),
            decreases n - k,
        {
            wrapper_indices.push(first + n as u32 + k as u32);
            k = k + 1;
            assert(wrapper_indices@ =~= Seq::new(k as nat, |j: int| (first + n + j) as u32));
        }
        add_active_functions(&mut elements, 0, &wrapper_indices);
    }
    (tables, elements)
}

/// Write the sections into a module in the order of the format, the import, table
/// and element sections only where they hold something, and hand out its bytes.
fn write_module(s: &ModuleSections) -> (bytes: Vec<u8>)
    requires
        s.sizes_fit(),
    ensures
        bytes@ == s.encoding(),
{
    let mut module = new_module();
    let ghost m0 = module_bytes(module);
    write_type_section(&mut module, &s.types);
    let ghost m1 = module_bytes(module);
    if !import_section_is_empty(&s.imports) {
        write_import_section(&mut module, &s.imports);
    }
    let ghost m2 = module_bytes(module);
    write_function_section(&mut module, &s.functions);
    if !table_section_is_empty(&s.tables) {
        write_table_section(&mut module, &s.tables);
    }
    let ghost m3 = module_bytes(module);
    write_memory_section(&mut module, &s.memories);
    write_global_section(&mut module, &s.globals);
    write_export_section(&mut module, &s.exports);
    if !element_section_is_empty(&s.elements) {
        write_element_section(&mut module, &s.elements);
    }
    let ghost m4 = module_bytes(module);
    write_code_section(&mut module, &s.code);
    let bytes = finish_module(module);
    assert(bytes@ =~= s.encoding());
    bytes
}

/// Build the sections of the module that compiling `kir` gives, or the first error.
#[verifier::rlimit(100)]
#[verifier::spinoff_prover]
fn build_sections(kir: &KirModule, item_tree: &ItemTree, interner: &Interner) -> (r: Result<ModuleSections, CodegenError>)
    requires
        module_fits(kir, item_tree),
        exports_fit(kir, interner),
    ensures
        !all_signatures_typed(kir) ==> (r matches Err(CodegenError::UnsupportedType(m)) && m@ == "unresolved type var"@),
        r is Ok ==> bodies_typed(kir),
        r matches Ok(s) ==> s.describes(kir, item_tree, interner) && s.sizes_fit(),
        all_signatures_typed(kir) && bodies_typed(kir) && module_emits_simply(kir, item_tree, interner) ==> r is Ok,
{
    let adt_layouts = compute_adt_layouts(item_tree);
    let (slots, imports, helper_count) = plan_host_imports(kir);
    let alloc_fn_index = helper_count;
    let n = kir.functions.len();
    let first = alloc_fn_index + 1;
    let (fn_name_map, fn_table_map) = name_maps(kir, first);
    let (types, fn_type_map, fn_type_indices, wrapper_type_indices) = match build_types(kir) {
        Ok(t) => t,
        Err(e) => {
            return Err(e);
        },
    };
    let ctx = ModuleCtx {
        item_tree,
        interner,
        fn_name_map,
        fn_table_map,
        fn_type_map,
        adt_layouts,
        alloc_fn_index,
        string_to_upper_fn_index: slots[0],
        string_to_lower_fn_index: slots[1],
        string_md5_fn_index: slots[2],
        parse_int_fn_index: slots[3],
        parse_float_fn_index: slots[4],
        fs_read_file_fn_index: slots[5],
        io_print_fn_index: slots[6],
        io_println_fn_index: slots[7],
        current_closure_global_index: CURRENT_CLOSURE_GLOBAL_INDEX,
    };
    let functions = build_function_section(&fn_type_indices, &wrapper_type_indices);
    let (tables, elements) = build_table(n, first);
    let mut memories = new_memory_section();
    add_memory(&mut memories, 1);
    let mut globals = new_global_section();
    add_mutable_i32_global(&mut globals, 0);
    add_mutable_i32_global(&mut globals, 0);
    let exports = build_exports(kir, interner, alloc_fn_index);
    proof {
        lemma_helpers_imported(kir, &ctx);
        let s0 = ModuleSections {
            types: types,
            imports: vstd::pervasive::arbitrary(),
            functions: vstd::pervasive::arbitrary(),
            tables: vstd::pervasive::arbitrary(),
            memories: vstd::pervasive::arbitrary(),
            globals: vstd::pervasive::arbitrary(),
            exports: vstd::pervasive::arbitrary(),
            elements: vstd::pervasive::arbitrary(),
            code: vstd::pervasive::arbitrary(),
        };
        assert(s0.context_of(ctx, kir, item_tree, interner));
    }
    let code = match build_code(kir, &ctx, first) {
        Ok(c) => c,
        Err(e) => {
            return Err(e);
        },
    };
    let sections = ModuleSections { types, imports, functions, tables, memories, globals, exports, elements, code };
    proof {
        if n > 0 {
            let el = element_entries(sections.elements);
            assert(el.drop_last() =~= Seq::<(i32, Seq<u32>)>::empty());
            assert(el.last().1.len() == n);
            assert(element_entries_size(Seq::<(i32, Seq<u32>)>::empty()) == 0);
            assert(element_entries_size(el) == 20 + 5 * n);
        }
    }
    proof {
        let s = sections;
        let e = type_entries(s.types);
        let fe = function_entries(s.functions);
        let h = needed_before(kir, 8);
        assert(fe.len() == 1 + 2 * n);
        assert(fe[0] == 0);
        assert(forall|k: int| #![trigger kir.functions@[k]] 0 <= k < n ==> {
            &&& fe[1 + k] < e.len()
            &&& e[fe[1 + k] as int] == fn_signature(&kir.functions@[k])
            &&& fe[1 + n + k] < e.len()
            &&& e[fe[1 + n + k] as int] == wrapper_signature(&kir.functions@[k])
        }) by {
            assert forall|k: int| #![trigger kir.functions@[k]] 0 <= k < n implies {
                &&& fe[1 + k] < e.len()
                &&& e[fe[1 + k] as int] == fn_signature(&kir.functions@[k])
                &&& fe[1 + n + k] < e.len()
                &&& e[fe[1 + n + k] as int] == wrapper_signature(&kir.functions@[k])
            } by {
                assert(fe[1 + k] == fn_type_indices@[k]);
                assert(fe[1 + n + k] == wrapper_type_indices@[k]);
                assert(fn_type_indices@[k] < e.len());
            }
        }
        assert(s.context_of(ctx, kir, item_tree, interner));
        assert(code_built(kir, ctx, s.code, h + 1));
        assert(4 <= e.len());
        assert(e.take(4) == fixed_types());
        assert(distinct_after_fixed(e));
        assert(forall|j: int| 4 <= j < e.len() ==> signature_among(kir, n as int, #[trigger] e[j]));
        assert(import_entries(s.imports) == helper_imports(kir, 8));
        assert(table_entries(s.tables) == (if n > 0 { seq![n as u64] } else { Seq::<u64>::empty() }));
        assert(element_entries(s.elements) == (if n > 0 {
            seq![(0i32, Seq::new(n as nat, |k: int| (h + 1 + n + k) as u32))]
        } else {
            Seq::<(i32, Seq<u32>)>::empty()
        }));
        assert(memory_entries(s.memories) == seq![1u64]);
        assert(global_entries(s.globals) == seq![0i32, 0i32]);
        assert(export_entries(s.exports) == spec_exports(kir, interner, h));
        assert(s.describes(kir, item_tree, interner));
    }
    Ok(sections)
}

/// Compile a KIR module to a WASM binary. An unsupported type error where the
/// signature of a function has a type without a value type; an error, too, where a
/// function has a value without a value type or fewer parameters than captures,
/// where a function body or wrapper cannot be emitted, or where the bodies outgrow
/// the 32-bit size of the code section. Where every signature and value has a value
/// type, every function has at least as many parameters as captures, and every body
/// has simple control flow that emits and fits, the module compiles.
pub fn compile_module(kir: &KirModule, item_tree: &ItemTree, interner: &Interner) -> (r: Result<Vec<u8>, CodegenError>)
    requires
        module_fits(kir, item_tree),
        exports_fit(kir, interner),
    ensures
        !all_signatures_typed(kir) ==> (r matches Err(CodegenError::UnsupportedType(m)) && m@ == "unresolved type var"@),
        r is Ok ==> bodies_typed(kir),
        r matches Ok(bytes) ==> exists|s: ModuleSections| #[trigger] s.describes(kir, item_tree, interner) && bytes@ == s.encoding(),
        all_signatures_typed(kir) && bodies_typed(kir) && module_emits_simply(kir, item_tree, interner) ==> r is Ok,
{
    match build_sections(kir, item_tree, interner) {
        Ok(sections) => {
            let bytes = write_module(&sections);
            assert(sections.describes(kir, item_tree, interner));
            Ok(bytes)
        },
        Err(e) => Err(e),
    }
}

} // verus!
