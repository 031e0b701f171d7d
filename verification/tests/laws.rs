use kyokara_codegen::control::{reachable_block_distances, reverse_postorder, rpo_index_map};
use kyokara_codegen::func::emit_record::sort_entries_by_name;
use kyokara_codegen::instr::ValTy;
use kyokara_codegen::ir::{
    Block, BranchTarget, Inst, Interner, Intrinsic, ItemTree, KirFunction, Terminator, Ty, TypeDefKind,
    TypeItem, TypeRef, ValueDef, Variant,
};
use kyokara_codegen::layout::{compute_adt_layouts, record_field_offset, record_size, AdtLayout};
use kyokara_codegen::module::{
    closure_capture_offset, closure_object_size, register_fn_type, FnTypeKey, TypeMap,
};
use kyokara_codegen::ty::{is_i32_type, ty_to_valtype};
use wasm_encoder::TypeSection;

fn target(block: u32) -> BranchTarget {
    BranchTarget { block, args: vec![] }
}

fn block(terminator: Terminator) -> Block {
    Block { params: vec![], body: vec![], terminator: Some(terminator) }
}

/// Blocks: 0 branches to 1 and 2, both jump to 3, which returns; 4 is unreachable
/// and jumps to 3.
fn diamond() -> KirFunction {
    KirFunction {
        name: 0,
        params: vec![],
        ret_ty: Ty::Int,
        blocks: vec![
            block(Terminator::Branch { condition: 0, then_target: target(1), else_target: target(2) }),
            block(Terminator::Jump(target(3))),
            block(Terminator::Jump(target(3))),
            block(Terminator::Return(0)),
            block(Terminator::Jump(target(3))),
        ],
        values: vec![ValueDef { inst: Inst::FnParam { index: 0 }, ty: Ty::Bool }],
        entry_block: 0,
        closure_capture_tys: vec![],
    }
}

#[test]
fn reverse_postorder_lists_reachable_blocks_once_entry_first() {
    let rpo = reverse_postorder(&diamond());
    assert_eq!(rpo, vec![0, 2, 1, 3]);
    assert!(!rpo.contains(&4));
}

#[test]
fn rpo_index_map_gives_positions() {
    let rpo = reverse_postorder(&diamond());
    let m = rpo_index_map(&rpo);
    assert_eq!(m.len(), 4);
    for (i, b) in rpo.iter().enumerate() {
        assert_eq!(m[b], i);
    }
}

#[test]
fn reachable_distances_mark_exactly_reachable_blocks() {
    let d = reachable_block_distances(&diamond(), 0);
    assert_eq!(d, vec![Some(0), Some(1), Some(1), Some(2), None]);
    let from_unreachable = reachable_block_distances(&diamond(), 4);
    assert_eq!(from_unreachable, vec![None, None, None, Some(1), Some(0)]);
}

#[test]
fn sort_by_name_orders_by_text_and_keeps_entries() {
    let interner = Interner { names: vec!["zeta".into(), "alpha".into(), "mid".into(), "alpha".into()] };
    let sorted = sort_entries_by_name(&interner, vec![(0, 'a'), (1, 'b'), (2, 'c'), (3, 'd')]);
    assert_eq!(sorted, vec![(1, 'b'), (3, 'd'), (2, 'c'), (0, 'a')]);
}

#[test]
fn register_fn_type_shares_index_of_equal_signatures() {
    let mut types = TypeSection::new();
    types.ty().function([wasm_encoder::ValType::I32], [wasm_encoder::ValType::I32]);
    let mut map = TypeMap::new();
    let a = register_fn_type(&mut types, &mut map, vec![ValTy::I64, ValTy::I64], vec![ValTy::I64]);
    let b = register_fn_type(&mut types, &mut map, vec![ValTy::I32], vec![ValTy::F64]);
    let c = register_fn_type(&mut types, &mut map, vec![ValTy::I64, ValTy::I64], vec![ValTy::I64]);
    assert_eq!((a, b, c), (1, 2, 1));
    assert_eq!(types.len(), 3);
    assert_eq!(map.get(&vec![ValTy::I32], &vec![ValTy::F64]), Some(2));
    assert_eq!(map.get(&vec![ValTy::I32], &vec![ValTy::I32]), None);
}

#[test]
fn adt_layout_sizes_tags_and_fields_fit() {
    let variant = |name: u32, fields: usize| Variant { name, fields: (0..fields).map(|_| TypeRef::Other).collect() };
    let tree = ItemTree {
        types: vec![
            TypeItem { name: 0, kind: TypeDefKind::Adt { variants: vec![variant(1, 0), variant(2, 3), variant(3, 1)] } },
            TypeItem { name: 4, kind: TypeDefKind::Record { fields: vec![] } },
        ],
    };
    let layouts = compute_adt_layouts(&tree);
    assert_eq!(layouts.len(), 1);
    let l = &layouts[&0];
    assert_eq!(l.size, 32);
    assert_eq!(l.tag_map[&1], 0);
    assert_eq!(l.tag_map[&2], 1);
    assert_eq!(l.tag_map[&3], 2);
    assert_eq!(l.variant_field_counts[&2], 3);
    assert!(AdtLayout::field_offset(2) + 8 <= l.size);
    assert_eq!(AdtLayout::field_offset(0), 8);
    assert!(!layouts.contains_key(&1));
}

#[test]
fn record_and_closure_slots_fit() {
    assert_eq!(record_size(3), 24);
    assert_eq!(record_field_offset(2), 16);
    assert!(record_field_offset(2) + 8 <= record_size(3));
    assert_eq!(closure_object_size(2), 24);
    assert_eq!(closure_capture_offset(1), 16);
    assert!(closure_capture_offset(1) as i32 + 8 <= closure_object_size(2));
}

#[test]
fn value_types_of_language_types() {
    assert!(matches!(ty_to_valtype(&Ty::Int), Ok(ValTy::I64)));
    assert!(matches!(ty_to_valtype(&Ty::Float), Ok(ValTy::F64)));
    assert!(matches!(ty_to_valtype(&Ty::String), Ok(ValTy::I32)));
    assert!(ty_to_valtype(&Ty::Var(3)).is_err());
    assert!(is_i32_type(&Ty::Bool));
    assert!(!is_i32_type(&Ty::Int));
    let key = FnTypeKey::from_ty(&Ty::Fn { params: vec![Ty::Int, Ty::Bool], ret: Box::new(Ty::Float) }).unwrap();
    assert_eq!(key.params, vec![ValTy::I64, ValTy::I32]);
    assert_eq!(key.results, vec![ValTy::F64]);
    assert!(FnTypeKey::from_ty(&Ty::Int).is_err());
}

#[test]
fn intrinsic_names_round_trip() {
    for name in ["string_to_upper", "seq_fold", "read_file", "char_code", "result_map_or"] {
        let i = Intrinsic::from_name(name);
        assert!(!matches!(i, Intrinsic::Other(_)));
        assert_eq!(i.name(), name);
    }
    let other = Intrinsic::from_name("no_such_intrinsic");
    assert!(matches!(other, Intrinsic::Other(_)));
    assert_eq!(other.name(), "no_such_intrinsic");
}
