//! ADT and record memory layout.

use vstd::prelude::*;
use std::collections::HashMap;
use crate::ir::{ItemTree, Name, TypeDefKind, TypeItemIdx, Variant};

verus! {

broadcast use vstd::std_specs::hash::group_hash_axioms;

/// Size of the ADT header: the tag (i32) and 4 bytes of padding.
pub const ADT_HEADER_SIZE: u32 = 8;

/// Size of one field slot.
pub const FIELD_SIZE: u32 = 8;

/// Precomputed memory layout for an ADT type.
pub struct AdtLayout {
    /// Total allocation size in bytes (8 + max_fields * 8).
    pub size: u32,
    /// Variant name -> tag value (its position among the variants).
    pub tag_map: HashMap<Name, u32>,
    /// Variant name -> number of fields.
    pub variant_field_counts: HashMap<Name, u32>,
}

impl AdtLayout {
    /// Byte offset of the i-th field in an ADT variant: fields follow the header,
    /// 8 bytes each.
    pub fn field_offset(field_index: u32) -> (r: u32)
        requires
            8 + field_index * 8 <= u32::MAX,
        ensures
            r == 8 + field_index * 8,
    {
        ADT_HEADER_SIZE + field_index * FIELD_SIZE
    }
}

/// Variant name -> position, the last variant winning for a repeated name.
pub open spec fn spec_tag_map(vs: Seq<Variant>) -> Map<Name, u32>
    decreases vs.len(),
{
    if vs.len() == 0 {
        Map::empty()
    } else {
        spec_tag_map(vs.drop_last()).insert(vs.last().name, (vs.len() - 1) as u32)
    }
}

/// Variant name -> field count, the last variant winning for a repeated name.
pub open spec fn spec_field_counts(vs: Seq<Variant>) -> Map<Name, u32>
    decreases vs.len(),
{
    if vs.len() == 0 {
        Map::empty()
    } else {
        spec_field_counts(vs.drop_last()).insert(vs.last().name, vs.last().fields@.len() as u32)
    }
}

/// The largest field count among the variants (0 when there are none).
pub open spec fn spec_max_fields(vs: Seq<Variant>) -> nat
    decreases vs.len(),
{
    if vs.len() == 0 {
        0
    } else {
        let m = spec_max_fields(vs.drop_last());
        if vs.last().fields@.len() > m { vs.last().fields@.len() } else { m }
    }
}

/// Whether every variant's field count keeps the layout size within 32 bits.
pub open spec fn variants_fit(vs: Seq<Variant>) -> bool {
    &&& vs.len() <= u32::MAX
    &&& forall|i: int| 0 <= i < vs.len() ==> 8 + (#[trigger] vs[i]).fields@.len() * 8 <= u32::MAX
}

/// Whether every ADT definition of the tree has a layout that fits in 32 bits.
pub open spec fn item_tree_fits(tree: &ItemTree) -> bool {
    &&& tree.types@.len() <= u32::MAX
    &&& forall|i: int|
        0 <= i < tree.types@.len() ==> match (#[trigger] tree.types@[i]).kind {
            TypeDefKind::Adt { variants } => variants_fit(variants@),
            _ => true,
        }
}

/// Whether `l` is the layout of an ADT with the given variants.
pub open spec fn is_layout_of(l: AdtLayout, vs: Seq<Variant>) -> bool {
    &&& l.size == 8 + spec_max_fields(vs) * 8
    &&& l.tag_map@ == spec_tag_map(vs)
    &&& l.variant_field_counts@ == spec_field_counts(vs)
}

proof fn lemma_max_fields_bound(vs: Seq<Variant>)
    requires
        variants_fit(vs),
    ensures
        8 + spec_max_fields(vs) * 8 <= u32::MAX,
    decreases vs.len(),
{
    if vs.len() > 0 {
        assert(variants_fit(vs.drop_last())) by {
            assert(vs.drop_last().len() <= u32::MAX);
            assert forall|i: int| 0 <= i < vs.drop_last().len() implies 8 + (#[trigger] vs.drop_last()[i]).fields@.len() * 8 <= u32::MAX by {
                assert(vs.drop_last()[i] == vs[i]);
            }
        }
        lemma_max_fields_bound(vs.drop_last());
        assert(8 + vs[vs.len() - 1].fields@.len() * 8 <= u32::MAX);
    }
}

/// No variant has more fields than the largest field count.
pub proof fn lemma_max_fields_bounds(vs: Seq<Variant>, v: int)
    requires
        0 <= v < vs.len(),
    ensures
        vs[v].fields@.len() <= spec_max_fields(vs),
    decreases vs.len(),
{
    if v < vs.len() - 1 {
        assert(vs.drop_last()[v] == vs[v]);
        lemma_max_fields_bounds(vs.drop_last(), v);
    }
}

/// Every field of every variant lies inside the ADT's allocation: the 8-byte slot at
/// the field's offset ends within the layout's size.
pub proof fn lemma_field_within_layout(l: AdtLayout, vs: Seq<Variant>, v: int, i: int)
    requires
        is_layout_of(l, vs),
        0 <= v < vs.len(),
        0 <= i < vs[v].fields@.len(),
    ensures
        8 + i * 8 + 8 <= l.size,
{
    lemma_max_fields_bounds(vs, v);
}

/// Where no two variants share a name, each variant's tag is its position and its
/// field count is its number of fields.
pub proof fn lemma_tag_is_position(vs: Seq<Variant>, i: int)
    requires
        0 <= i < vs.len(),
        vs.len() <= u32::MAX,
        forall|a: int, b: int| 0 <= a < b < vs.len() ==> #[trigger] vs[a].name != #[trigger] vs[b].name,
    ensures
        spec_tag_map(vs).contains_key(vs[i].name),
        spec_tag_map(vs)[vs[i].name] == i,
        spec_field_counts(vs).contains_key(vs[i].name),
        spec_field_counts(vs)[vs[i].name] == vs[i].fields@.len() as u32,
    decreases vs.len(),
{
    if i < vs.len() - 1 {
        let p = vs.drop_last();
        assert(p[i] == vs[i]);
        assert forall|a: int, b: int| 0 <= a < b < p.len() implies #[trigger] p[a].name != #[trigger] p[b].name by {
            assert(p[a] == vs[a]);
            assert(p[b] == vs[b]);
        }
        lemma_tag_is_position(p, i);
        assert(vs[i].name != vs[vs.len() - 1].name);
    }
}

/// Every field slot of a record lies inside the record: the slot at a field's offset
/// ends within the record's size.
pub proof fn lemma_record_field_within(field_count: u32, field_index: u32)
    requires
        field_index < field_count,
    ensures
        field_index * 8 + 8 <= field_count * 8,
{
}

/// Compute the layout of one ADT from its variants.
fn layout_of_variants(variants: &Vec<Variant>) -> (l: AdtLayout)
    requires
        variants_fit(variants@),
        variants@.len() <= u32::MAX,
    ensures
        is_layout_of(l, variants@),
{
    let mut tag_map: HashMap<Name, u32> = HashMap::new();
    let mut variant_field_counts: HashMap<Name, u32> = HashMap::new();
    let mut max_fields: u32 = 0;
    let mut i: usize = 0;
    while i < variants.len()
        invariant
            0 <= i <= variants@.len(),
            variants@.len() <= u32::MAX,
            variants_fit(variants@),
            tag_map@ == spec_tag_map(variants@.take(i as int)),
            variant_field_counts@ == spec_field_counts(variants@.take(i as int)),
            max_fields == spec_max_fields(variants@.take(i as int)),
            8 + max_fields * 8 <= u32::MAX,
        decreases variants@.len() - i,
    {
        let variant = &variants[i];
        assert(variants@.take(i + 1).drop_last() =~= variants@.take(i as int));
        assert(variants@.take(i + 1).last() == variants@[i as int]);
        assert(8 + variants@[i as int].fields@.len() * 8 <= u32::MAX);
        tag_map.insert(variant.name, i as u32);
        let field_count = variant.fields.len() as u32;
        variant_field_counts.insert(variant.name, field_count);
        if field_count > max_fields {
            max_fields = field_count;
        }
        i = i + 1;
    }
    assert(variants@.take(i as int) =~= variants@);
    let size = ADT_HEADER_SIZE + max_fields * FIELD_SIZE;
    AdtLayout { size, tag_map, variant_field_counts }
}

/// Compute layouts for all ADT types in the item tree: each ADT definition's index
/// maps to its layout, and no other index has one.
pub fn compute_adt_layouts(item_tree: &ItemTree) -> (layouts: HashMap<TypeItemIdx, AdtLayout>)
    requires
        item_tree_fits(item_tree),
    ensures
        forall|idx: TypeItemIdx|
            #![trigger layouts@.contains_key(idx)]
            layouts@.contains_key(idx) <==> (idx < item_tree.types@.len()
                && item_tree.types@[idx as int].kind is Adt),
        forall|idx: TypeItemIdx|
            #![trigger layouts@[idx]]
            layouts@.contains_key(idx) ==> match item_tree.types@[idx as int].kind {
                TypeDefKind::Adt { variants } => is_layout_of(layouts@[idx], variants@),
                _ => false,
            },
{
    let mut layouts: HashMap<TypeItemIdx, AdtLayout> = HashMap::new();
    let mut idx: usize = 0;
    while idx < item_tree.types.len()
        invariant
            0 <= idx <= item_tree.types@.len(),
            item_tree_fits(item_tree),
            forall|k: TypeItemIdx|
                #![trigger layouts@.contains_key(k)]
                layouts@.contains_key(k) <==> (k < idx && item_tree.types@[k as int].kind is Adt),
            forall|k: TypeItemIdx|
                #![trigger layouts@[k]]
                layouts@.contains_key(k) ==> match item_tree.types@[k as int].kind {
                    TypeDefKind::Adt { variants } => is_layout_of(layouts@[k], variants@),
                    _ => false,
                },
        decreases item_tree.types@.len() - idx,
    {
        let type_item = &item_tree.types[idx];
        if let TypeDefKind::Adt { variants } = &type_item.kind {
            assert(variants_fit(variants@));
            let layout = layout_of_variants(variants);
            layouts.insert(idx as u32, layout);
        }
        idx = idx + 1;
    }
    layouts
}

/// Compute byte size for a record with `field_count` fields: records have no tag
/// header, just 8-byte fields sorted by name.
pub fn record_size(field_count: u32) -> (r: u32)
    requires
        field_count * 8 <= u32::MAX,
    ensures
        r == field_count * 8,
{
    field_count * FIELD_SIZE
}

/// Byte offset for the i-th field in a record (fields sorted by name).
pub fn record_field_offset(field_index: u32) -> (r: u32)
    requires
        field_index * 8 <= u32::MAX,
    ensures
        r == field_index * 8,
{
    field_index * FIELD_SIZE
}

} // verus!
