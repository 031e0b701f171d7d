//! Module-level pieces: function signatures, closures and the type section.

use vstd::prelude::*;
use std::collections::HashMap;
use wasm_encoder::{TypeSection, ValType};
use crate::encode::{body_bytes, encode_body, instrs_bytes, locals_bytes};
use crate::error::{concat3, CodegenError, ErrorKind};
use crate::instr::{Instr, MemArg, ValTy};
use crate::ir::{BinaryOp, UnaryOp, Interner, ItemTree, KirFunction, Name, Ty, TypeDefKind, TypeItemIdx, Variant};
use crate::layout::{is_layout_of, item_tree_fits, AdtLayout};
use crate::text::ty_text;
use crate::ty::{is_i32_type, spec_is_i32_type, spec_valtype, ty_to_valtype};
use wasm_encoder::Function;

verus! {

/// Index of the global that holds the closure object of the current indirect call.
pub const CURRENT_CLOSURE_GLOBAL_INDEX: u32 = 1;

/// Byte size of a closure object with `capture_count` captures: the table slot and
/// one 8-byte slot per capture.
pub fn closure_object_size(capture_count: usize) -> (r: i32)
    requires
        8 * (capture_count + 1) <= i32::MAX,
    ensures
        r == 8 * (capture_count + 1),
{
    8 * (capture_count as i32 + 1)
}

/// Byte offset of the `index`-th capture in a closure object.
pub fn closure_capture_offset(index: usize) -> (r: u64)
    requires
        8 + index * 8 <= u64::MAX,
    ensures
        r == 8 + index * 8,
{
    8 + (index as u64 * 8)
}

/// Every capture slot of a closure object lies inside the object: the slot at a
/// capture's offset ends within the object's size.
pub proof fn lemma_capture_within_closure(capture_count: usize, index: usize)
    requires
        index < capture_count,
    ensures
        8 + index * 8 + 8 <= 8 * (capture_count + 1),
{
}

/// A structural function signature.
pub struct FnTypeKey {
    pub params: Vec<ValTy>,
    pub results: Vec<ValTy>,
}

impl View for FnTypeKey {
    type V = (Seq<ValTy>, Seq<ValTy>);

    open spec fn view(&self) -> (Seq<ValTy>, Seq<ValTy>) {
        (self.params@, self.results@)
    }
}

/// Whether every type of `tys` has a value type.
pub open spec fn all_have_valtype(tys: Seq<Ty>) -> bool {
    forall|i: int| 0 <= i < tys.len() ==> spec_valtype(#[trigger] tys[i]) is Some
}

/// The value types of `tys`.
pub open spec fn valtypes_of(tys: Seq<Ty>) -> Seq<ValTy> {
    tys.map_values(|t: Ty| spec_valtype(t).unwrap())
}

/// The signature of a function type: its parameters' and result's value types;
/// none for a non-function type or one with an unresolved type.
pub open spec fn spec_fn_type_key(ty: Ty) -> Option<(Seq<ValTy>, Seq<ValTy>)> {
    match ty {
        Ty::Fn { params, ret } => if all_have_valtype(params@) && spec_valtype(*ret) is Some {
            Some((valtypes_of(params@), seq![spec_valtype(*ret).unwrap()]))
        } else {
            None
        },
        _ => None,
    }
}

/// The value types of a list of types, or the first error.
pub fn valtypes(tys: &Vec<Ty>) -> (r: Result<Vec<ValTy>, CodegenError>)
    ensures
        all_have_valtype(tys@) ==> (r matches Ok(v) && v@ == valtypes_of(tys@)),
        !all_have_valtype(tys@) ==> r matches Err(CodegenError::UnsupportedType(_)),
{
    let mut out: Vec<ValTy> = Vec::new();
    let mut i: usize = 0;
    while i < tys.len()
        invariant
            0 <= i <= tys@.len(),
            all_have_valtype(tys@.take(i as int)),
            out@ == valtypes_of(tys@.take(i as int)),
        decreases tys@.len() - i,
    {
        match ty_to_valtype(&tys[i]) {
            Ok(v) => {
                out.push(v);
            },
            Err(e) => {
                return Err(e);
            },
        }
        i = i + 1;
        assert(tys@.take(i as int).drop_last() =~= tys@.take(i - 1));
        assert(out@ =~= valtypes_of(tys@.take(i as int)));
    }
    assert(tys@.take(i as int) =~= tys@);
    Ok(out)
}

impl FnTypeKey {
    /// The signature of a function type.
    pub fn from_ty(ty: &Ty) -> (r: Result<Self, CodegenError>)
        ensures
            match spec_fn_type_key(*ty) {
                Some(k) => (r matches Ok(key) && key@ == k),
                None => r matches Err(CodegenError::UnsupportedType(_)),
            },
    {
        match ty {
            Ty::Fn { params, ret } => {
                let ps = valtypes(params)?;
                let rt = ty_to_valtype(ret)?;
                let mut results: Vec<ValTy> = Vec::new();
                results.push(rt);
                Ok(FnTypeKey { params: ps, results })
            },
            _ => Err(CodegenError::UnsupportedType(ty_text(ty))),
        }
    }
}

/// Whether two value type lists are equal.
pub fn valtys_eq(a: &Vec<ValTy>, b: &Vec<ValTy>) -> (r: bool)
    ensures
        r == (a@ == b@),
{
    if a.len() != b.len() {
        return false;
    }
    let mut i: usize = 0;
    while i < a.len()
        invariant
            0 <= i <= a@.len(),
            a@.len() == b@.len(),
            forall|k: int| 0 <= k < i ==> a@[k] == b@[k],
        decreases a@.len() - i,
    {
        if a[i] != b[i] {
            return false;
        }
        i = i + 1;
    }
    assert(a@ =~= b@);
    true
}

/// A map from signatures to type indices, kept as a list without repeated keys.
pub struct TypeMap {
    pub entries: Vec<(FnTypeKey, u32)>,
}

impl TypeMap {
    /// The signatures mapped, in insertion order.
    pub open spec fn keys(&self) -> Seq<(Seq<ValTy>, Seq<ValTy>)> {
        self.entries@.map_values(|e: (FnTypeKey, u32)| e.0@)
    }

    /// No signature occurs twice.
    pub open spec fn wf(&self) -> bool {
        forall|i: int, j: int|
            0 <= i < j < self.entries@.len() ==> #[trigger] self.entries@[i].0@ != #[trigger] self.entries@[j].0@
    }

    /// The map from signatures to type indices.
    pub open spec fn map(&self) -> Map<(Seq<ValTy>, Seq<ValTy>), u32> {
        Map::new(
            |k: (Seq<ValTy>, Seq<ValTy>)| exists|i: int| 0 <= i < self.entries@.len() && self.entries@[i].0@ == k,
            |k: (Seq<ValTy>, Seq<ValTy>)| {
                let i = choose|i: int| 0 <= i < self.entries@.len() && self.entries@[i].0@ == k;
                self.entries@[i].1
            },
        )
    }

    /// An empty map.
    pub fn new() -> (m: Self)
        ensures
            m.wf(),
            m.map() == Map::<(Seq<ValTy>, Seq<ValTy>), u32>::empty(),
    {
        let m = TypeMap { entries: Vec::new() };
        assert(m.map() =~= Map::<(Seq<ValTy>, Seq<ValTy>), u32>::empty());
        m
    }

    /// The index mapped to a signature, if any.
    pub fn get(&self, params: &Vec<ValTy>, results: &Vec<ValTy>) -> (r: Option<u32>)
        requires
            self.wf(),
        ensures
            match r {
                Some(v) => self.map().contains_key((params@, results@)) && self.map()[(params@, results@)] == v,
                None => !self.map().contains_key((params@, results@)),
            },
    {
        let mut i: usize = 0;
        while i < self.entries.len()
            invariant
                self.wf(),
                0 <= i <= self.entries@.len(),
                forall|k: int| 0 <= k < i ==> self.entries@[k].0@ != (params@, results@),
            decreases self.entries@.len() - i,
        {
            let e = &self.entries[i];
            if valtys_eq(&e.0.params, params) && valtys_eq(&e.0.results, results) {
                let ghost key = (params@, results@);
                assert(self.entries@[i as int].0@ == key);
                let ghost j = choose|j: int| 0 <= j < self.entries@.len() && self.entries@[j].0@ == key;
                assert(j == i) by {
                    if j != i {
                        if j < i {
                        } else {
                            assert(self.entries@[i as int].0@ != self.entries@[j].0@);
                        }
                    }
                }
                return Some(e.1);
            }
            i = i + 1;
        }
        None
    }

    /// A lookup after mapping a new signature finds the index it was mapped to, and
    /// lookups of other signatures find what they found before.
    pub proof fn lemma_get_after_insert(m0: TypeMap, m1: TypeMap, key: (Seq<ValTy>, Seq<ValTy>), idx: u32, other: (Seq<ValTy>, Seq<ValTy>))
        requires
            m1.map() == m0.map().insert(key, idx),
            other != key,
        ensures
            m1.map().contains_key(key),
            m1.map()[key] == idx,
            m1.map().contains_key(other) == m0.map().contains_key(other),
            m0.map().contains_key(other) ==> m1.map()[other] == m0.map()[other],
    {
    }

    /// Maps a new signature to `idx`.
    pub fn insert_new(&mut self, params: Vec<ValTy>, results: Vec<ValTy>, idx: u32)
        requires
            old(self).wf(),
            !old(self).map().contains_key((params@, results@)),
        ensures
            final(self).wf(),
            final(self).map() == old(self).map().insert((params@, results@), idx),
    {
        let ghost key = (params@, results@);
        let ghost old_entries = self.entries@;
        self.entries.push((FnTypeKey { params, results }, idx));
        assert(self.entries@.len() == old_entries.len() + 1);
        assert forall|i: int, j: int|
            0 <= i < j < self.entries@.len() implies #[trigger] self.entries@[i].0@ != #[trigger] self.entries@[j].0@ by {
            if j == old_entries.len() {
                assert(self.entries@[i] == old_entries[i]);
            } else {
                assert(self.entries@[i] == old_entries[i]);
                assert(self.entries@[j] == old_entries[j]);
            }
        }
        assert forall|k: (Seq<ValTy>, Seq<ValTy>)| #![trigger self.map().contains_key(k)]
            self.map().contains_key(k) == old(self).map().insert(key, idx).contains_key(k) by {
            if k == key {
                assert(self.entries@[old_entries.len() as int].0@ == key);
            } else if old(self).map().contains_key(k) {
                let i = choose|i: int| 0 <= i < old_entries.len() && old_entries[i].0@ == k;
                assert(self.entries@[i] == old_entries[i]);
            } else if self.map().contains_key(k) {
                let i = choose|i: int| 0 <= i < self.entries@.len() && self.entries@[i].0@ == k;
                if i < old_entries.len() {
                    assert(self.entries@[i] == old_entries[i]);
                }
            }
        }
        assert forall|k: (Seq<ValTy>, Seq<ValTy>)| #![trigger self.map()[k]]
            self.map().contains_key(k) implies self.map()[k] == old(self).map().insert(key, idx)[k] by {
            let i = choose|i: int| 0 <= i < self.entries@.len() && self.entries@[i].0@ == k;
            if k == key {
                if i < old_entries.len() {
                    assert(self.entries@[i] == old_entries[i]);
                    assert(old(self).map().contains_key(key));
                }
                assert(i == old_entries.len());
            } else {
                assert(i < old_entries.len());
                assert(self.entries@[i] == old_entries[i]);
                let i0 = choose|i0: int| 0 <= i0 < old_entries.len() && old_entries[i0].0@ == k;
                assert(self.entries@[i0] == old_entries[i0]);
                assert(i0 == i) by {
                    if i0 < i {
                        assert(self.entries@[i0].0@ != self.entries@[i].0@);
                    } else if i < i0 {
                        assert(self.entries@[i].0@ != self.entries@[i0].0@);
                    }
                }
            }
        }
        assert(self.map() =~= old(self).map().insert(key, idx));
    }
}

/// Shared state during module code generation.
pub struct ModuleCtx<'a> {
    pub item_tree: &'a ItemTree,
    pub interner: &'a Interner,
    /// Function name -> WASM function index.
    pub fn_name_map: HashMap<Name, u32>,
    /// Function name -> table slot for first-class function references.
    pub fn_table_map: HashMap<Name, u32>,
    /// Structural function signature -> type section index.
    pub fn_type_map: TypeMap,
    /// ADT type index -> precomputed layout.
    pub adt_layouts: HashMap<TypeItemIdx, AdtLayout>,
    /// WASM function index of the allocator.
    pub alloc_fn_index: u32,
    pub string_to_upper_fn_index: Option<u32>,
    pub string_to_lower_fn_index: Option<u32>,
    pub string_md5_fn_index: Option<u32>,
    pub parse_int_fn_index: Option<u32>,
    pub parse_float_fn_index: Option<u32>,
    pub fs_read_file_fn_index: Option<u32>,
    pub io_print_fn_index: Option<u32>,
    pub io_println_fn_index: Option<u32>,
    pub current_closure_global_index: u32,
}

/// The first variant among `vs` whose name reads `text`.
pub open spec fn first_variant_named(interner: &Interner, vs: Seq<Variant>, text: Seq<char>) -> Option<Variant>
    decreases vs.len(),
{
    if vs.len() == 0 {
        None
    } else if interner.spec_text(vs[0].name) == text {
        Some(vs[0])
    } else {
        first_variant_named(interner, vs.drop_first(), text)
    }
}

impl<'a> ModuleCtx<'a> {
    /// The context is consistent: signatures occur once in the type map, and
    /// exactly the ADT definitions of the item tree have their layouts.
    pub open spec fn wf(&self) -> bool {
        &&& self.fn_type_map.wf()
        &&& item_tree_fits(self.item_tree)
        &&& forall|idx: TypeItemIdx|
            #![trigger self.adt_layouts@.contains_key(idx)]
            self.adt_layouts@.contains_key(idx) <==> (idx < self.item_tree.types@.len()
                && self.item_tree.types@[idx as int].kind is Adt)
        &&& forall|idx: TypeItemIdx|
            #![trigger self.adt_layouts@[idx]]
            self.adt_layouts@.contains_key(idx) ==> match self.item_tree.types@[idx as int].kind {
                TypeDefKind::Adt { variants } => is_layout_of(self.adt_layouts@[idx], variants@),
                _ => false,
            }
    }

    /// The byte size of the layout of ADT definition `def`.
    pub open spec fn spec_adt_size(&self, def: TypeItemIdx) -> u32 {
        self.adt_layouts@[def].size
    }

    /// The tag of the first variant named `name` of ADT definition `def`; a missing
    /// ADT definition error where `def` has no layout or no ADT definition, no
    /// variant has that name, or the layout knows no tag for it.
    pub open spec fn spec_variant_tag(&self, def: TypeItemIdx, name: Seq<char>) -> Result<u32, ErrorKind> {
        if !self.adt_layouts@.contains_key(def) {
            Err(ErrorKind::MissingAdtDef)
        } else {
            match self.item_tree.types@[def as int].kind {
                TypeDefKind::Adt { variants } => match first_variant_named(self.interner, variants@, name) {
                    None => Err(ErrorKind::MissingAdtDef),
                    Some(v) => if self.adt_layouts@[def].tag_map@.contains_key(v.name) {
                        Ok(self.adt_layouts@[def].tag_map@[v.name])
                    } else {
                        Err(ErrorKind::MissingAdtDef)
                    },
                },
                _ => Err(ErrorKind::MissingAdtDef),
            }
        }
    }

    /// The first variant named `name` among `variants`.
    fn find_variant<'b>(&self, variants: &'b Vec<Variant>, name: &str) -> (r: Option<&'b Variant>)
        ensures
            match first_variant_named(self.interner, variants@, name@) {
                Some(v) => r matches Some(w) && *w == v,
                None => r is None,
            },
    {
        let mut i: usize = 0;
        assert(variants@.skip(0) =~= variants@);
        while i < variants.len()
            invariant
                0 <= i <= variants@.len(),
                first_variant_named(self.interner, variants@, name@)
                    == first_variant_named(self.interner, variants@.skip(i as int), name@),
            decreases variants@.len() - i,
        {
            assert(variants@.skip(i as int)[0] == variants@[i as int]);
            assert(variants@.skip(i as int).drop_first() =~= variants@.skip(i + 1));
            if self.interner.text_is(variants[i].name, name) {
                return Some(&variants[i]);
            }
            i = i + 1;
        }
        None
    }

    /// The layout of ADT definition `def` and the tag of its first variant named `name`.
    pub fn variant_tag(&self, def: TypeItemIdx, name: &str) -> (r: Result<(&AdtLayout, u32), CodegenError>)
        requires
            self.wf(),
        ensures
            match self.spec_variant_tag(def, name@) {
                Ok(t) => r matches Ok((l, u)) && u == t && *l == self.adt_layouts@[def],
                Err(k) => r matches Err(e) && e.kind() == k,
            },
    {
        let layout = match self.adt_layouts.get(&def) {
            Some(l) => l,
            None => {
                return Err(CodegenError::MissingAdtDef);
            },
        };
        let type_item = &self.item_tree.types[def as usize];
        let variants = match &type_item.kind {
            TypeDefKind::Adt { variants } => variants,
            _ => {
                return Err(CodegenError::MissingAdtDef);
            },
        };
        let variant = match self.find_variant(variants, name) {
            Some(v) => v,
            None => {
                return Err(CodegenError::MissingAdtDef);
            },
        };
        match layout.tag_map.get(&variant.name) {
            Some(t) => Ok((layout, *t)),
            None => Err(CodegenError::MissingAdtDef),
        }
    }
}

/// A type section under construction in `wasm_encoder`.
#[verifier::external_type_specification]
#[verifier::external_body]
pub struct ExTypeSection(TypeSection);

/// The function types that a type section holds, in order.
pub uninterp spec fn type_entries(t: TypeSection) -> Seq<(Seq<ValTy>, Seq<ValTy>)>;

/// At most the bytes that the function types `e` take in a type section: each is
/// its form byte, the counts of its parameters and results in at most five bytes
/// each, and one byte per value type.
pub open spec fn type_entries_size(e: Seq<(Seq<ValTy>, Seq<ValTy>)>) -> nat
    decreases e.len(),
{
    if e.len() == 0 {
        0
    } else {
        type_entries_size(e.drop_last()) + 11 + e.last().0.len() + e.last().1.len()
    }
}

/// Calls `TypeSection::new`, which starts an empty type section.
#[verifier::external_body]
pub(crate) fn new_type_section() -> (t: TypeSection)
    ensures
        type_entries(t) == Seq::<(Seq<ValTy>, Seq<ValTy>)>::empty(),
{
    TypeSection::new()
}

/// Calls `TypeSection::len`, which returns the number of types added.
#[verifier::external_body]
pub(crate) fn type_section_len(t: &TypeSection) -> (n: u32)
    ensures
        n == type_entries(*t).len(),
{
    t.len()
}

/// Calls `TypeSection::ty` and `CoreTypeEncoder::function`, which add one function
/// type with the given parameters and results.
#[verifier::external_body]
pub(crate) fn add_function_type(t: &mut TypeSection, params: &Vec<ValTy>, results: &Vec<ValTy>)
    requires
        type_entries(*old(t)).len() < u32::MAX,
        params.len() <= u32::MAX,
        results.len() <= u32::MAX,
    ensures
        type_entries(*final(t)) == type_entries(*old(t)).push((params@, results@)),
{
    let conv = |v: &ValTy| match v {
        ValTy::I32 => ValType::I32,
        ValTy::I64 => ValType::I64,
        ValTy::F64 => ValType::F64,
    };
    t.ty().function(params.iter().map(conv), results.iter().map(conv));
}

/// Return the type index of a signature, adding it to the type section when it is
/// new: equal signatures share one index.
pub fn register_fn_type(
    types: &mut TypeSection,
    type_map: &mut TypeMap,
    params: Vec<ValTy>,
    results: Vec<ValTy>,
) -> (idx: u32)
    requires
        old(type_map).wf(),
        type_entries(*old(types)).len() < u32::MAX,
        params.len() <= u32::MAX,
        results.len() <= u32::MAX,
        forall|k| #[trigger] old(type_map).map().contains_key(k) ==> old(type_map).map()[k] < type_entries(*old(types)).len()
            && type_entries(*old(types))[old(type_map).map()[k] as int] == k,
    ensures
        final(type_map).wf(),
        old(type_map).map().contains_key((params@, results@)) ==> {
            &&& idx == old(type_map).map()[(params@, results@)]
            &&& *final(type_map) == *old(type_map)
            &&& type_entries(*final(types)) == type_entries(*old(types))
        },
        !old(type_map).map().contains_key((params@, results@)) ==> {
            &&& idx == type_entries(*old(types)).len()
            &&& final(type_map).map() == old(type_map).map().insert((params@, results@), idx)
            &&& type_entries(*final(types)) == type_entries(*old(types)).push((params@, results@))
        },
        forall|k| #[trigger] final(type_map).map().contains_key(k) ==> final(type_map).map()[k] < type_entries(*final(types)).len()
            && type_entries(*final(types))[final(type_map).map()[k] as int] == k,
        final(type_map).map().contains_key((params@, results@)),
        final(type_map).map()[(params@, results@)] == idx,
        idx < type_entries(*final(types)).len(),
        type_entries(*final(types))[idx as int] == (params@, results@),
{
    if let Some(existing) = type_map.get(&params, &results) {
        existing
    } else {
        let type_idx = type_section_len(types);
        add_function_type(types, &params, &results);
        let ghost key = (params@, results@);
        type_map.insert_new(params, results, type_idx);
        assert forall|k| #[trigger] type_map.map().contains_key(k) implies type_map.map()[k] < type_entries(*types).len()
            && type_entries(*types)[type_map.map()[k] as int] == k by {
            if k != key {
                assert(old(type_map).map().contains_key(k));
            }
        }
        type_idx
    }
}

/// The instructions that load an 8-byte slot at `offset` from the address on the
/// stack, as a value of type `ty`: f64 for `Float`, i64 for `Int` (and an unresolved
/// type), and the i64 slot wrapped to i32 for every other type.
pub open spec fn spec_typed_load(ty: Ty, offset: u64) -> Seq<Instr> {
    if ty is Float {
        seq![Instr::F64Load(MemArg { offset, align: 3 })]
    } else if spec_is_i32_type(ty) {
        seq![Instr::I64Load(MemArg { offset, align: 3 }), Instr::I32WrapI64]
    } else {
        seq![Instr::I64Load(MemArg { offset, align: 3 })]
    }
}

/// Append the load of a slot at `offset` as a value of type `ty`.
pub fn emit_typed_load_static(out: &mut Vec<Instr>, ty: &Ty, offset: u64)
    ensures
        final(out)@ == old(out)@ + spec_typed_load(*ty, offset),
{
    match ty {
        Ty::Float => {
            out.push(Instr::F64Load(MemArg { offset, align: 3 }));
        },
        _ => {
            if is_i32_type(ty) {
                out.push(Instr::I64Load(MemArg { offset, align: 3 }));
                out.push(Instr::I32WrapI64);
            } else {
                out.push(Instr::I64Load(MemArg { offset, align: 3 }));
            }
        },
    }
    assert(final(out)@ =~= old(out)@ + spec_typed_load(*ty, offset));
}

/// The loads of the captured values of a closure, whose object is in the
/// current-closure global, each from its slot after the table slot.
pub open spec fn spec_capture_loads(tys: Seq<Ty>, closure_global: u32) -> Seq<Instr>
    decreases tys.len(),
{
    if tys.len() == 0 {
        Seq::empty()
    } else {
        let i = tys.len() - 1;
        spec_capture_loads(tys.drop_last(), closure_global) + seq![Instr::GlobalGet(closure_global)]
            + spec_typed_load(tys[i], (8 + i * 8) as u64)
    }
}

/// The gets of the first `n` locals.
pub open spec fn spec_param_gets(n: nat) -> Seq<Instr> {
    Seq::new(n, |i: int| Instr::LocalGet(i as u32))
}

/// The instructions of the table wrapper of a function: its own parameters (those
/// before the captures) passed on, the captures loaded from the current closure,
/// and the call of the function.
pub open spec fn spec_wrapper_instrs(f: &KirFunction, actual_fn_index: u32, closure_global: u32) -> Seq<Instr> {
    spec_param_gets((f.params@.len() - f.closure_capture_tys@.len()) as nat)
        + spec_capture_loads(f.closure_capture_tys@, closure_global)
        + seq![Instr::Call(actual_fn_index), Instr::End]
}

/// Emit the table wrapper of a function, which indirect calls reach: it takes the
/// function's own parameters and loads the captured values from the closure object
/// in the current-closure global before calling the function. An unsupported
/// instruction error where the function has fewer parameters than captures.
pub fn emit_wrapper_function(kir_func: &KirFunction, actual_fn_index: u32, current_closure_global_index: u32)
    -> (r: Result<Function, CodegenError>)
    requires
        kir_func.params@.len() <= u32::MAX,
        8 + kir_func.closure_capture_tys@.len() * 8 <= u64::MAX,
    ensures
        kir_func.params@.len() < kir_func.closure_capture_tys@.len()
            ==> (r matches Err(CodegenError::UnsupportedInstruction(m)) && m@ == "closure wrapper param underflow"@),
        kir_func.params@.len() >= kir_func.closure_capture_tys@.len() ==> (r matches Ok(func)
            && body_bytes(func) == locals_bytes(Seq::empty())
                + instrs_bytes(spec_wrapper_instrs(kir_func, actual_fn_index, current_closure_global_index))),
{
    let capture_count = kir_func.closure_capture_tys.len();
    let wrapper_param_count = match kir_func.params.len().checked_sub(capture_count) {
        Some(n) => n,
        None => {
            proof {
                reveal_strlit("");
            }
            return Err(CodegenError::UnsupportedInstruction(concat3("closure wrapper param underflow", "", "")));
        },
    };
    let mut instrs: Vec<Instr> = Vec::new();
    let mut index: usize = 0;
    while index < wrapper_param_count
        invariant
            0 <= index <= wrapper_param_count,
            wrapper_param_count <= u32::MAX,
            instrs@ == spec_param_gets(index as nat),
        decreases wrapper_param_count - index,
    {
        instrs.push(Instr::LocalGet(index as u32));
        index = index + 1;
        assert(instrs@ =~= spec_param_gets(index as nat));
    }
    let ghost head = instrs@;
    let tys = &kir_func.closure_capture_tys;
    let mut k: usize = 0;
    while k < tys.len()
        invariant
            0 <= k <= tys@.len(),
            8 + tys@.len() * 8 <= u64::MAX,
            instrs@ == head + spec_capture_loads(tys@.take(k as int), current_closure_global_index),
        decreases tys@.len() - k,
    {
        assert(tys@.take(k + 1).drop_last() =~= tys@.take(k as int));
        instrs.push(Instr::GlobalGet(current_closure_global_index));
        emit_typed_load_static(&mut instrs, &tys[k], closure_capture_offset(k));
        k = k + 1;
        assert(instrs@ =~= head + spec_capture_loads(tys@.take(k as int), current_closure_global_index));
    }
    assert(tys@.take(k as int) =~= tys@);
    instrs.push(Instr::Call(actual_fn_index));
    instrs.push(Instr::End);
    assert(instrs@ =~= spec_wrapper_instrs(kir_func, actual_fn_index, current_closure_global_index));
    let locals: Vec<(u32, ValTy)> = Vec::new();
    assert(locals@ =~= Seq::<(u32, ValTy)>::empty());
    Ok(encode_body(&locals, &instrs))
}

} // verus!
