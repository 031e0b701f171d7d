//! Emission of records and ADT values: construction, field access and functional
//! update. Record fields are laid out sorted by the text of their names.

use vstd::prelude::*;
use vstd::string::StringSliceAdditionalSpecFns;
use vstd::multiset::Multiset;
use crate::error::{concat3, CodegenError, ErrorKind};
use crate::func::{emits, FuncCodegen};
use crate::func::emit_core::spec_typed_store;
use crate::instr::{Instr, MemArg};
use crate::ir::{Interner, ItemTree, Name, Ty, TypeDefKind, TypeItemIdx, TypeRef, ValueId};
use crate::layout::{record_field_offset, record_size, AdtLayout};
use crate::module::spec_typed_load;

verus! {

broadcast use vstd::std_specs::hash::group_hash_axioms;

/// The byte-wise lexicographic order of byte strings, the order in which `str`
/// values compare.
pub open spec fn bytes_le(a: Seq<u8>, b: Seq<u8>) -> bool
    decreases a.len(),
{
    if a.len() == 0 {
        true
    } else if b.len() == 0 {
        false
    } else if a[0] < b[0] {
        true
    } else if a[0] > b[0] {
        false
    } else {
        bytes_le(a.drop_first(), b.drop_first())
    }
}

/// Whether the text of name `a` sorts no later than the text of name `b`.
pub open spec fn name_le(interner: &Interner, a: Name, b: Name) -> bool {
    bytes_le(vstd::utf8::encode_utf8(interner.spec_text(a)), vstd::utf8::encode_utf8(interner.spec_text(b)))
}

/// `x` inserted into `sorted` before the first entry whose name sorts after its own.
pub open spec fn insert_by_name<X>(interner: &Interner, sorted: Seq<(Name, X)>, x: (Name, X)) -> Seq<(Name, X)>
    decreases sorted.len(),
{
    if sorted.len() == 0 {
        seq![x]
    } else if !name_le(interner, sorted[0].0, x.0) {
        seq![x] + sorted
    } else {
        seq![sorted[0]] + insert_by_name(interner, sorted.drop_first(), x)
    }
}

/// The entries of `s` sorted by the text of their names; entries with equal names
/// keep their order.
pub open spec fn sort_by_name<X>(interner: &Interner, s: Seq<(Name, X)>) -> Seq<(Name, X)>
    decreases s.len(),
{
    if s.len() == 0 {
        Seq::empty()
    } else {
        insert_by_name(interner, sort_by_name(interner, s.drop_last()), s.last())
    }
}

/// Whether the entries are in the order of their names' text.
pub open spec fn sorted_by_name<X>(interner: &Interner, s: Seq<(Name, X)>) -> bool {
    forall|i: int, j: int| 0 <= i < j < s.len() ==> name_le(interner, #[trigger] s[i].0, #[trigger] s[j].0)
}

/// Of two byte strings, one sorts no later than the other.
proof fn lemma_bytes_le_total(a: Seq<u8>, b: Seq<u8>)
    ensures
        bytes_le(a, b) || bytes_le(b, a),
    decreases a.len(),
{
    if a.len() > 0 && b.len() > 0 && a[0] == b[0] {
        lemma_bytes_le_total(a.drop_first(), b.drop_first());
    }
}

/// The order of byte strings is transitive.
proof fn lemma_bytes_le_trans(a: Seq<u8>, b: Seq<u8>, c: Seq<u8>)
    requires
        bytes_le(a, b),
        bytes_le(b, c),
    ensures
        bytes_le(a, c),
    decreases a.len(),
{
    if a.len() > 0 && a[0] == b[0] && b[0] == c[0] {
        lemma_bytes_le_trans(a.drop_first(), b.drop_first(), c.drop_first());
    }
}

/// The empty sequence holds no entries, and a one-entry sequence holds its entry.
proof fn lemma_small_multisets<X>(x: (Name, X))
    ensures
        Seq::<(Name, X)>::empty().to_multiset() =~= Multiset::<(Name, X)>::empty(),
        seq![x].to_multiset() =~= Multiset::<(Name, X)>::empty().insert(x),
{
    let e = Seq::<(Name, X)>::empty();
    vstd::seq_lib::to_multiset_len(e);
    vstd::multiset::lemma_multiset_empty_len(e.to_multiset());
    vstd::seq_lib::to_multiset_build(e, x);
    assert(seq![x] =~= e.push(x));
}

/// Inserting into a sorted sequence keeps it sorted and adds the entry once.
proof fn lemma_insert_sorted<X>(interner: &Interner, sorted: Seq<(Name, X)>, x: (Name, X))
    requires
        sorted_by_name(interner, sorted),
    ensures
        sorted_by_name(interner, insert_by_name(interner, sorted, x)),
        insert_by_name(interner, sorted, x).to_multiset() =~= sorted.to_multiset().insert(x),
    decreases sorted.len(),
{
    broadcast use vstd::multiset::group_multiset_axioms;
    lemma_insert_len(interner, sorted, x);
    let t = insert_by_name(interner, sorted, x);
    lemma_small_multisets(x);
    if sorted.len() == 0 {
        assert(t =~= seq![x]);
        assert(sorted =~= Seq::<(Name, X)>::empty());
    } else if !name_le(interner, sorted[0].0, x.0) {
        lemma_bytes_le_total(
            vstd::utf8::encode_utf8(interner.spec_text(sorted[0].0)),
            vstd::utf8::encode_utf8(interner.spec_text(x.0)),
        );
        assert(t =~= seq![x] + sorted);
        assert forall|i: int, j: int| 0 <= i < j < t.len() implies name_le(interner, #[trigger] t[i].0, #[trigger] t[j].0) by {
            if i == 0 {
                assert(t[j] == sorted[j - 1]);
                if j > 1 {
                    assert(name_le(interner, sorted[0].0, sorted[j - 1].0));
                    lemma_bytes_le_trans(
                        vstd::utf8::encode_utf8(interner.spec_text(x.0)),
                        vstd::utf8::encode_utf8(interner.spec_text(sorted[0].0)),
                        vstd::utf8::encode_utf8(interner.spec_text(sorted[j - 1].0)),
                    );
                }
            } else {
                assert(t[i] == sorted[i - 1] && t[j] == sorted[j - 1]);
            }
        }
        vstd::seq_lib::lemma_multiset_commutative(seq![x], sorted);
    } else {
        let rest = sorted.drop_first();
        assert forall|i: int, j: int| 0 <= i < j < rest.len() implies name_le(interner, #[trigger] rest[i].0, #[trigger] rest[j].0) by {
            assert(rest[i] == sorted[i + 1] && rest[j] == sorted[j + 1]);
        }
        lemma_insert_sorted(interner, rest, x);
        lemma_insert_members(interner, rest, x);
        let u = insert_by_name(interner, rest, x);
        assert(t =~= seq![sorted[0]] + u);
        assert forall|i: int, j: int| 0 <= i < j < t.len() implies name_le(interner, #[trigger] t[i].0, #[trigger] t[j].0) by {
            if i == 0 {
                assert(t[j] == u[j - 1]);
                if u[j - 1] != x {
                    let m = choose|m: int| 0 <= m < rest.len() && rest[m] == u[j - 1];
                    assert(rest[m] == sorted[m + 1]);
                }
            } else {
                assert(t[i] == u[i - 1] && t[j] == u[j - 1]);
            }
        }
        lemma_small_multisets(sorted[0]);
        vstd::seq_lib::lemma_multiset_commutative(seq![sorted[0]], u);
        vstd::seq_lib::lemma_multiset_commutative(seq![sorted[0]], rest);
        assert(sorted =~= seq![sorted[0]] + rest);
    }
}

/// Sorting by name puts the entries in the order of their names' text and keeps
/// every entry, as often as it occurs.
pub proof fn lemma_sort_by_name<X>(interner: &Interner, s: Seq<(Name, X)>)
    ensures
        sorted_by_name(interner, sort_by_name(interner, s)),
        sort_by_name(interner, s).to_multiset() =~= s.to_multiset(),
    decreases s.len(),
{
    broadcast use vstd::multiset::group_multiset_axioms;
    if s.len() > 0 {
        lemma_sort_by_name(interner, s.drop_last());
        lemma_insert_sorted(interner, sort_by_name(interner, s.drop_last()), s.last());
        vstd::seq_lib::to_multiset_build(s.drop_last(), s.last());
        assert(s.drop_last().push(s.last()) =~= s);
    } else {
        assert(sort_by_name(interner, s) =~= s);
    }
}

/// Inserting an entry adds one.
proof fn lemma_insert_len<X>(interner: &Interner, sorted: Seq<(Name, X)>, x: (Name, X))
    ensures
        insert_by_name(interner, sorted, x).len() == sorted.len() + 1,
    decreases sorted.len(),
{
    if sorted.len() > 0 {
        lemma_insert_len(interner, sorted.drop_first(), x);
    }
}

/// Sorting keeps the number of entries.
pub proof fn lemma_sort_len<X>(interner: &Interner, s: Seq<(Name, X)>)
    ensures
        sort_by_name(interner, s).len() == s.len(),
    decreases s.len(),
{
    if s.len() > 0 {
        lemma_sort_len(interner, s.drop_last());
        lemma_insert_len(interner, sort_by_name(interner, s.drop_last()), s.last());
    }
}

/// Every entry of the sorted sequence is an entry of the input.
pub proof fn lemma_sort_members<X>(interner: &Interner, s: Seq<(Name, X)>)
    ensures
        forall|k: int| #![trigger sort_by_name(interner, s)[k]] 0 <= k < sort_by_name(interner, s).len()
            ==> exists|m: int| 0 <= m < s.len() && s[m] == sort_by_name(interner, s)[k],
    decreases s.len(),
{
    if s.len() > 0 {
        lemma_sort_members(interner, s.drop_last());
        lemma_insert_members(interner, sort_by_name(interner, s.drop_last()), s.last());
        let t = sort_by_name(interner, s);
        assert forall|k: int| #![trigger t[k]] 0 <= k < t.len() implies exists|m: int| 0 <= m < s.len() && s[m] == t[k] by {
            let prev = sort_by_name(interner, s.drop_last());
            if t[k] == s.last() {
                assert(s[s.len() - 1] == t[k]);
            } else {
                let j = choose|j: int| 0 <= j < prev.len() && prev[j] == t[k];
                let m = choose|m: int| 0 <= m < s.drop_last().len() && s.drop_last()[m] == prev[j];
                assert(s[m] == t[k]);
            }
        }
    }
}

/// Every entry after an insertion is the inserted entry or an entry from before.
proof fn lemma_insert_members<X>(interner: &Interner, sorted: Seq<(Name, X)>, x: (Name, X))
    ensures
        forall|k: int| 0 <= k < insert_by_name(interner, sorted, x).len() ==>
            #[trigger] insert_by_name(interner, sorted, x)[k] == x
            || exists|j: int| 0 <= j < sorted.len() && sorted[j] == insert_by_name(interner, sorted, x)[k],
    decreases sorted.len(),
{
    lemma_insert_len(interner, sorted, x);
    if sorted.len() > 0 && name_le(interner, sorted[0].0, x.0) {
        let rest = sorted.drop_first();
        lemma_insert_members(interner, rest, x);
        lemma_insert_len(interner, rest, x);
        let t = insert_by_name(interner, sorted, x);
        assert forall|k: int| 0 <= k < t.len() implies #[trigger] t[k] == x
            || exists|j: int| 0 <= j < sorted.len() && sorted[j] == t[k] by {
            if k == 0 {
                assert(sorted[0] == t[0]);
            } else {
                let r = insert_by_name(interner, rest, x);
                assert(t[k] == r[k - 1]);
                if r[k - 1] != x {
                    let j = choose|j: int| 0 <= j < rest.len() && rest[j] == r[k - 1];
                    assert(sorted[j + 1] == t[k]);
                }
            }
        }
    } else if sorted.len() > 0 {
        let t = insert_by_name(interner, sorted, x);
        assert forall|k: int| 0 <= k < t.len() implies #[trigger] t[k] == x
            || exists|j: int| 0 <= j < sorted.len() && sorted[j] == t[k] by {
            if k > 0 {
                assert(sorted[k - 1] == t[k]);
            }
        }
    }
}

/// The position of the first entry named `field`, if any.
pub open spec fn first_name_index<X>(s: Seq<(Name, X)>, field: Name) -> Option<int>
    decreases s.len(),
{
    if s.len() == 0 {
        None
    } else if s[0].0 == field {
        Some(0)
    } else {
        match first_name_index(s.drop_first(), field) {
            Some(i) => Some(i + 1),
            None => None,
        }
    }
}

/// The first position named `field` is a position of the sequence.
proof fn lemma_first_name_index_range<X>(s: Seq<(Name, X)>, field: Name)
    ensures
        first_name_index(s, field) matches Some(i) ==> 0 <= i < s.len() && s[i].0 == field,
    decreases s.len(),
{
    if s.len() > 0 {
        lemma_first_name_index_range(s.drop_first(), field);
    }
}

/// The first position named `field` is `i` where no earlier entry has that name;
/// there is none where no entry up to `i` has it.
proof fn lemma_first_name_index<X>(s: Seq<(Name, X)>, field: Name, i: int)
    requires
        0 <= i <= s.len(),
        forall|k: int| 0 <= k < i ==> #[trigger] s[k].0 != field,
    ensures
        i < s.len() && s[i].0 == field ==> first_name_index(s, field) == Some(i),
        i == s.len() ==> first_name_index(s, field) is None,
    decreases i,
{
    if i > 0 {
        let t = s.drop_first();
        assert forall|k: int| 0 <= k < i - 1 implies #[trigger] t[k].0 != field by {
            assert(t[k] == s[k + 1]);
        }
        assert(s[0].0 != field);
        lemma_first_name_index(t, field, i - 1);
        if i < s.len() {
            assert(t[i - 1] == s[i]);
        }
    }
}

/// Inserting at the first position whose entry sorts after `x` is `insert_by_name`.
proof fn lemma_insert_at<X>(interner: &Interner, sorted: Seq<(Name, X)>, x: (Name, X), p: int)
    requires
        0 <= p <= sorted.len(),
        forall|i: int| 0 <= i < p ==> name_le(interner, #[trigger] sorted[i].0, x.0),
        p < sorted.len() ==> !name_le(interner, sorted[p].0, x.0),
    ensures
        insert_by_name(interner, sorted, x) == sorted.insert(p, x),
    decreases sorted.len(),
{
    if sorted.len() == 0 {
        assert(sorted.insert(p, x) =~= seq![x]);
    } else if p == 0 {
        assert(sorted.insert(p, x) =~= seq![x] + sorted);
    } else {
        let rest = sorted.drop_first();
        assert forall|i: int| 0 <= i < p - 1 implies name_le(interner, #[trigger] rest[i].0, x.0) by {
            assert(rest[i] == sorted[i + 1]);
        }
        lemma_insert_at(interner, rest, x, p - 1);
        assert(sorted.insert(p, x) =~= seq![sorted[0]] + rest.insert(p - 1, x));
    }
}

/// Whether byte string `a` sorts no later than `b`.
fn bytes_le_exec(a: &[u8], b: &[u8]) -> (r: bool)
    ensures
        r == bytes_le(a@, b@),
{
    let mut i: usize = 0;
    assert(a@.skip(0) =~= a@);
    assert(b@.skip(0) =~= b@);
    while i < a.len()
        invariant
            0 <= i <= a@.len(),
            i <= b@.len(),
            a@.subrange(0, i as int) == b@.subrange(0, i as int),
            bytes_le(a@, b@) == bytes_le(a@.skip(i as int), b@.skip(i as int)),
        decreases a@.len() - i,
    {
        if i >= b.len() {
            return false;
        }
        if a[i] < b[i] {
            return true;
        }
        if a[i] > b[i] {
            return false;
        }
        assert(a@.skip(i as int).drop_first() =~= a@.skip(i + 1));
        assert(b@.skip(i as int).drop_first() =~= b@.skip(i + 1));
        assert(a@.subrange(0, i + 1) =~= a@.subrange(0, i as int).push(a@[i as int]));
        assert(b@.subrange(0, i + 1) =~= b@.subrange(0, i as int).push(b@[i as int]));
        i = i + 1;
    }
    true
}

/// Whether the text of name `a` sorts no later than the text of name `b`.
fn name_le_exec(interner: &Interner, a: Name, b: Name) -> (r: bool)
    ensures
        r == name_le(interner, a, b),
{
    bytes_le_exec(interner.text(a).as_bytes(), interner.text(b).as_bytes())
}

/// Sort entries by the text of their names, keeping the order of equal names.
pub fn sort_entries_by_name<X>(interner: &Interner, v: Vec<(Name, X)>) -> (r: Vec<(Name, X)>)
    ensures
        r@ == sort_by_name(interner, v@),
{
    let ghost orig = v@;
    let mut rest = v;
    let mut out: Vec<(Name, X)> = Vec::new();
    let ghost mut k: int = 0;
    while rest.len() > 0
        invariant
            0 <= k <= orig.len(),
            rest@ == orig.skip(k),
            out@ == sort_by_name(interner, orig.take(k)),
        decreases rest@.len(),
    {
        let x = rest.remove(0);
        let mut p: usize = 0;
        while p < out.len() && name_le_exec(interner, out[p].0, x.0)
            invariant
                0 <= p <= out@.len(),
                forall|i: int| 0 <= i < p ==> name_le(interner, #[trigger] out@[i].0, x.0),
            decreases out@.len() - p,
        {
            p = p + 1;
        }
        proof {
            lemma_insert_at(interner, out@, x, p as int);
            assert(orig.take(k + 1).drop_last() =~= orig.take(k));
            assert(orig.take(k + 1).last() == orig[k]);
            assert(orig.skip(k)[0] == orig[k]);
            assert(orig.skip(k).drop_first() =~= orig.skip(k + 1));
        }
        out.insert(p, x);
        proof {
            k = k + 1;
        }
    }
    assert(orig.take(k) =~= orig);
    out
}

/// The declared fields of a type definition's record body, if it has one.
pub open spec fn record_def_fields(kind: TypeDefKind) -> Option<Seq<(Name, TypeRef)>> {
    match kind {
        TypeDefKind::Record { fields } => Some(fields@),
        TypeDefKind::Alias(TypeRef::Record { fields }) => Some(fields@),
        _ => None,
    }
}

/// The type in which a record field declared with `type_ref` is stored: the builtin
/// type that a single-segment path names, or the error type.
pub open spec fn spec_storage_ty(type_ref: TypeRef) -> Ty {
    match type_ref {
        TypeRef::Path { single: true, builtin: Some(t) } => t,
        _ => Ty::Error,
    }
}

/// The declared field names of a record type, in declaration order: those of a
/// record type itself, or of an ADT definition of `tree` with a record body; none
/// for any other type.
pub open spec fn record_names(tree: &ItemTree, ty: Ty) -> Option<Seq<Name>> {
    match ty {
        Ty::Record { fields } => Some(fields@.map_values(|f: (Name, Ty)| f.0)),
        Ty::Adt { def, .. } => match record_def_fields(tree.types@[def as int].kind) {
            Some(fs) => Some(fs.map_values(|f: (Name, TypeRef)| f.0)),
            None => None,
        },
        _ => None,
    }
}

/// Each declared name paired with its position.
pub open spec fn enumerate_names(names: Seq<Name>) -> Seq<(Name, usize)> {
    Seq::new(names.len(), |i: int| (names[i], i as usize))
}

impl<'a> FuncCodegen<'a> {
    /// The declared field names of a record type, in declaration order: those of a
    /// record type itself, or of an ADT definition with a record body; none for any
    /// other type.
    pub open spec fn spec_record_names(&self, ty: Ty) -> Option<Seq<Name>> {
        record_names(self.ctx.item_tree, ty)
    }

    /// The storage type of the `j`-th declared field of a record type.
    pub open spec fn spec_record_field_ty(&self, ty: Ty, j: int) -> Ty {
        match ty {
            Ty::Record { fields } => fields@[j].1,
            Ty::Adt { def, .. } => match record_def_fields(self.ctx.item_tree.types@[def as int].kind) {
                Some(fs) => spec_storage_ty(fs[j].1),
                None => Ty::Error,
            },
            _ => Ty::Error,
        }
    }

    /// The declared fields of a record type, sorted by name, each with its
    /// declaration position; an unsupported type error for a type with no record body.
    pub open spec fn spec_sorted_record_fields(&self, ty: Ty) -> Result<Seq<(Name, usize)>, ErrorKind> {
        match self.spec_record_names(ty) {
            Some(names) => Ok(sort_by_name(self.ctx.interner, enumerate_names(names))),
            None => Err(ErrorKind::UnsupportedType),
        }
    }

    /// Whether an ADT type names a definition of the item tree.
    pub open spec fn ty_def_ok(&self, ty: Ty) -> bool {
        ty matches Ty::Adt { def, .. } ==> def < self.ctx.item_tree.types@.len()
    }

    /// The declared field names of a record type, each with its position, sorted by
    /// name; the error message names the operation `what`.
    fn sorted_record_fields(&self, ty: &Ty, what: &str) -> (r: Result<Vec<(Name, usize)>, CodegenError>)
        requires
            self.ty_def_ok(*ty),
        ensures
            match self.spec_sorted_record_fields(*ty) {
                Ok(s) => r matches Ok(v) && v@ == s,
                Err(k) => r matches Err(e) && e.kind() == k,
            },
    {
        let mut entries: Vec<(Name, usize)> = Vec::new();
        let ghost mut names: Seq<Name> = Seq::empty();
        match ty {
            Ty::Record { fields } => {
                proof {
                    names = fields@.map_values(|f: (Name, Ty)| f.0);
                }
                let mut j: usize = 0;
                while j < fields.len()
                    invariant
                        0 <= j <= fields@.len(),
                        names == fields@.map_values(|f: (Name, Ty)| f.0),
                        entries@ == enumerate_names(names).take(j as int),
                    decreases fields@.len() - j,
                {
                    entries.push((fields[j].0, j));
                    j = j + 1;
                    assert(entries@ =~= enumerate_names(names).take(j as int));
                }
                assert(enumerate_names(names).take(j as int) =~= enumerate_names(names));
            },
            Ty::Adt { def, .. } => {
                let kind = &self.ctx.item_tree.types[*def as usize].kind;
                let fields = match kind {
                    TypeDefKind::Record { fields } => fields,
                    TypeDefKind::Alias(TypeRef::Record { fields }) => fields,
                    _ => {
                        return Err(CodegenError::UnsupportedType(concat3(what, " on non-record ADT", "")));
                    },
                };
                proof {
                    names = fields@.map_values(|f: (Name, TypeRef)| f.0);
                }
                let mut j: usize = 0;
                while j < fields.len()
                    invariant
                        0 <= j <= fields@.len(),
                        names == fields@.map_values(|f: (Name, TypeRef)| f.0),
                        entries@ == enumerate_names(names).take(j as int),
                    decreases fields@.len() - j,
                {
                    entries.push((fields[j].0, j));
                    j = j + 1;
                    assert(entries@ =~= enumerate_names(names).take(j as int));
                }
                assert(enumerate_names(names).take(j as int) =~= enumerate_names(names));
            },
            _ => {
                return Err(CodegenError::UnsupportedType(concat3(what, " on non-record", "")));
            },
        }
        assert(self.spec_record_names(*ty) == Some(names));
        Ok(sort_entries_by_name(self.ctx.interner, entries))
    }

    /// The storage type of the `j`-th declared field of a record type; `None` stands
    /// for the error type.
    fn record_field_ty<'b>(&'b self, ty: &'b Ty, j: usize) -> (r: Option<&'b Ty>)
        requires
            self.ty_def_ok(*ty),
            self.spec_record_names(*ty) matches Some(names) && j < names.len(),
        ensures
            match r {
                Some(t) => *t == self.spec_record_field_ty(*ty, j as int),
                None => self.spec_record_field_ty(*ty, j as int) == Ty::Error,
            },
    {
        match ty {
            Ty::Record { fields } => Some(&fields[j].1),
            Ty::Adt { def, .. } => {
                let kind = &self.ctx.item_tree.types[*def as usize].kind;
                let fields = match kind {
                    TypeDefKind::Record { fields } => fields,
                    TypeDefKind::Alias(TypeRef::Record { fields }) => fields,
                    _ => {
                        return None;
                    },
                };
                match &fields[j].1 {
                    TypeRef::Path { single: true, builtin: Some(t) } => Some(t),
                    _ => None,
                }
            },
            _ => None,
        }
    }

    /// The position of `field` among the sorted fields of the record type `base_ty`;
    /// an unsupported type error where the type has no record body or no such field.
    pub open spec fn spec_resolve_record_field_index(&self, base_ty: Ty, field: Name) -> Result<u32, ErrorKind> {
        match self.spec_sorted_record_fields(base_ty) {
            Err(k) => Err(k),
            Ok(s) => match first_name_index(s, field) {
                Some(i) => Ok(i as u32),
                None => Err(ErrorKind::UnsupportedType),
            },
        }
    }

    /// The position of `field` among the sorted fields of a record type.
    pub(crate) fn resolve_record_field_index(&self, base_ty: &Ty, field: Name) -> (r: Result<u32, CodegenError>)
        requires
            self.ty_def_ok(*base_ty),
            self.spec_record_names(*base_ty) matches Some(names) ==> names.len() <= u32::MAX,
        ensures
            match self.spec_resolve_record_field_index(*base_ty, field) {
                Ok(i) => r == Ok::<u32, CodegenError>(i),
                Err(k) => r matches Err(e) && e.kind() == k,
            },
            r matches Ok(i) ==> (self.spec_record_names(*base_ty) matches Some(names) && i < names.len()),
    {
        let names = self.sorted_record_fields(base_ty, "field access")?;
        let ghost s = names@;
        proof {
            let ns = self.spec_record_names(*base_ty)->Some_0;
            lemma_sort_len(self.ctx.interner, enumerate_names(ns));
        }
        let mut i: usize = 0;
        while i < names.len()
            invariant
                s == names@,
                0 <= i <= s.len(),
                s.len() <= u32::MAX,
                forall|k: int| 0 <= k < i ==> s[k].0 != field,
                self.spec_sorted_record_fields(*base_ty) == Ok::<Seq<(Name, usize)>, ErrorKind>(s),
                self.spec_record_names(*base_ty) matches Some(ns) && s.len() == ns.len(),
            decreases s.len() - i,
        {
            if names[i].0 == field {
                proof {
                    lemma_first_name_index(s, field, i as int);
                }
                return Ok(i as u32);
            }
            i = i + 1;
        }
        proof {
            lemma_first_name_index(s, field, i as int);
        }
        let what = concat3("field ", self.ctx.interner.text(field), " not found in record");
        Err(CodegenError::UnsupportedType(what))
    }

    /// The instructions of a record field read: the field's slot, at eight bytes per
    /// preceding field in name order, loaded as `result_ty`.
    pub open spec fn spec_emit_field_get(&self, base: ValueId, field: Name, result_ty: Ty) -> Result<Seq<Instr>, ErrorKind> {
        match self.spec_resolve_record_field_index(self.spec_value_ty(base), field) {
            Err(k) => Err(k),
            Ok(i) => Ok(seq![Instr::LocalGet(self.spec_local(base))] + spec_typed_load(result_ty, (i * 8) as u64)),
        }
    }

    /// Read a record field.
    pub(crate) fn emit_field_get(&self, out: &mut Vec<Instr>, base: ValueId, field: Name, result_ty: &Ty) -> (r: Result<(), CodegenError>)
        requires
            self.wf(),
            self.value_ok(base),
        ensures
            emits(r, old(out)@, final(out)@, self.spec_emit_field_get(base, field, *result_ty)),
    {
        proof {
            self.lemma_value_def_ok(base);
        }
        let base_ty = self.value_ty(base);
        let field_index = self.resolve_record_field_index(base_ty, field)?;
        let offset = record_field_offset(field_index);
        let ghost start = out@;
        out.push(Instr::LocalGet(self.local_for(base)));
        self.emit_typed_load(out, result_ty, offset as u64);
        assert(out@ =~= start + (seq![Instr::LocalGet(self.spec_local(base))] + spec_typed_load(*result_ty, (field_index * 8) as u64)));
        Ok(())
    }
    /// The stores of `vids` into consecutive 8-byte slots after `header` bytes of the
    /// object of `size` bytes that was allocated last, each as its value's type.
    pub open spec fn spec_field_stores(&self, vids: Seq<ValueId>, size: u32, header: nat) -> Seq<Instr>
        decreases vids.len(),
    {
        if vids.len() == 0 {
            Seq::empty()
        } else {
            let i = vids.len() - 1;
            self.spec_field_stores(vids.drop_last(), size, header) + seq![
                Instr::GlobalGet(0),
                Instr::I32Const(size as i32),
                Instr::I32Sub,
                Instr::LocalGet(self.spec_local(vids[i])),
            ] + spec_typed_store(self.spec_value_ty(vids[i]), (header + i * 8) as u64)
        }
    }

    /// Store `vids` into consecutive slots of the object allocated last.
    fn emit_field_stores(&self, out: &mut Vec<Instr>, vids: &Vec<ValueId>, size: u32, header: u32)
        requires
            self.wf(),
            forall|k: int| 0 <= k < vids@.len() ==> self.value_ok(#[trigger] vids@[k]),
            header + vids@.len() * 8 <= u32::MAX,
        ensures
            final(out)@ == old(out)@ + self.spec_field_stores(vids@, size, header as nat),
    {
        let ghost start = out@;
        let mut i: usize = 0;
        while i < vids.len()
            invariant
                self.wf(),
                forall|k: int| 0 <= k < vids@.len() ==> self.value_ok(#[trigger] vids@[k]),
                header + vids@.len() * 8 <= u32::MAX,
                0 <= i <= vids@.len(),
                out@ == start + self.spec_field_stores(vids@.take(i as int), size, header as nat),
            decreases vids@.len() - i,
        {
            assert(vids@.take(i + 1).drop_last() =~= vids@.take(i as int));
            let vid = vids[i];
            let mut w: Vec<Instr> = vec![
                Instr::GlobalGet(0),
                Instr::I32Const(size as i32),
                Instr::I32Sub,
                Instr::LocalGet(self.local_for(vid)),
            ];
            out.append(&mut w);
            self.emit_typed_store_stack(out, self.value_ty(vid), (header + (i as u32) * 8) as u64);
            i = i + 1;
            assert(out@ =~= start + self.spec_field_stores(vids@.take(i as int), size, header as nat));
        }
        assert(vids@.take(i as int) =~= vids@);
    }

    /// The instructions of a record construction: allocate eight bytes per field and
    /// store the fields in the order of their names' text, leaving the pointer on
    /// the stack.
    pub open spec fn spec_emit_record_create(&self, fields: Seq<(Name, ValueId)>) -> Result<Seq<Instr>, ErrorKind> {
        let sorted = sort_by_name(self.ctx.interner, fields);
        let size = (fields.len() * 8) as u32;
        Ok(seq![Instr::I32Const(size as i32), Instr::Call(self.ctx.alloc_fn_index), Instr::Drop]
            + self.spec_field_stores(sorted.map_values(|e: (Name, ValueId)| e.1), size, 0)
            + seq![Instr::GlobalGet(0), Instr::I32Const(size as i32), Instr::I32Sub])
    }

    /// Construct a record.
    pub(crate) fn emit_record_create(&self, out: &mut Vec<Instr>, fields: &[(Name, ValueId)]) -> (r: Result<(), CodegenError>)
        requires
            self.wf(),
            forall|k: int| 0 <= k < fields@.len() ==> self.value_ok(#[trigger] fields@[k].1),
            fields@.len() * 8 <= u32::MAX,
        ensures
            emits(r, old(out)@, final(out)@, self.spec_emit_record_create(fields@)),
    {
        let mut copy: Vec<(Name, ValueId)> = Vec::new();
        let mut i: usize = 0;
        while i < fields.len()
            invariant
                0 <= i <= fields@.len(),
                copy@ == fields@.take(i as int),
            decreases fields@.len() - i,
        {
            copy.push(fields[i]);
            i = i + 1;
            assert(copy@ =~= fields@.take(i as int));
        }
        assert(fields@.take(i as int) =~= fields@);
        let sorted = sort_entries_by_name(self.ctx.interner, copy);
        proof {
            lemma_sort_len(self.ctx.interner, fields@);
            lemma_sort_members(self.ctx.interner, fields@);
        }
        let mut vids: Vec<ValueId> = Vec::new();
        let mut j: usize = 0;
        while j < sorted.len()
            invariant
                0 <= j <= sorted@.len(),
                vids@ == sorted@.map_values(|e: (Name, ValueId)| e.1).take(j as int),
            decreases sorted@.len() - j,
        {
            vids.push(sorted[j].1);
            j = j + 1;
            assert(vids@ =~= sorted@.map_values(|e: (Name, ValueId)| e.1).take(j as int));
        }
        assert(sorted@.map_values(|e: (Name, ValueId)| e.1).take(j as int) =~= sorted@.map_values(|e: (Name, ValueId)| e.1));
        assert forall|k: int| 0 <= k < vids@.len() implies self.value_ok(#[trigger] vids@[k]) by {
            assert(vids@[k] == sorted@[k].1);
            let m = choose|m: int| 0 <= m < fields@.len() && fields@[m] == sorted@[k];
        }
        let field_count = sorted.len() as u32;
        let size = record_size(field_count);
        let mut v: Vec<Instr> = vec![Instr::I32Const(size as i32), Instr::Call(self.ctx.alloc_fn_index), Instr::Drop];
        self.emit_field_stores(&mut v, &vids, size, 0);
        let mut w: Vec<Instr> = vec![Instr::GlobalGet(0), Instr::I32Const(size as i32), Instr::I32Sub];
        v.append(&mut w);
        out.append(&mut v);
        Ok(())
    }

    /// The instructions of an ADT construction: allocate the layout's size, store the
    /// variant's tag and the fields after the 8-byte header, and leave the pointer on
    /// the stack; a missing ADT definition error where the definition has no layout,
    /// an unknown variant error where the layout has no tag for the variant.
    pub open spec fn spec_emit_adt_construct(&self, type_def: TypeItemIdx, variant: Name, fields: Seq<ValueId>) -> Result<Seq<Instr>, ErrorKind> {
        if !self.ctx.adt_layouts@.contains_key(type_def) {
            Err(ErrorKind::MissingAdtDef)
        } else if !self.ctx.adt_layouts@[type_def].tag_map@.contains_key(variant) {
            Err(ErrorKind::UnknownVariant)
        } else {
            let size = self.ctx.adt_layouts@[type_def].size;
            let tag = self.ctx.adt_layouts@[type_def].tag_map@[variant];
            Ok(seq![
                Instr::I32Const(size as i32),
                Instr::Call(self.ctx.alloc_fn_index),
                Instr::Drop,
                Instr::GlobalGet(0),
                Instr::I32Const(size as i32),
                Instr::I32Sub,
                Instr::I32Const(tag as i32),
                Instr::I32Store(MemArg { offset: 0, align: 2 }),
            ] + self.spec_field_stores(fields, size, 8) + seq![Instr::GlobalGet(0), Instr::I32Const(size as i32), Instr::I32Sub])
        }
    }

    /// Construct an ADT value.
    pub(crate) fn emit_adt_construct(&self, out: &mut Vec<Instr>, type_def: TypeItemIdx, variant: Name, fields: &[ValueId]) -> (r: Result<(), CodegenError>)
        requires
            self.wf(),
            forall|k: int| 0 <= k < fields@.len() ==> self.value_ok(#[trigger] fields@[k]),
            8 + fields@.len() * 8 <= u32::MAX,
        ensures
            emits(r, old(out)@, final(out)@, self.spec_emit_adt_construct(type_def, variant, fields@)),
            self.ctx.adt_layouts@.contains_key(type_def) && !self.ctx.adt_layouts@[type_def].tag_map@.contains_key(variant)
                ==> (r matches Err(CodegenError::UnknownVariant(m)) && m@ == self.ctx.interner.spec_text(variant)),
    {
        let layout = match self.ctx.adt_layouts.get(&type_def) {
            Some(l) => l,
            None => {
                return Err(CodegenError::MissingAdtDef);
            },
        };
        let tag = match layout.tag_map.get(&variant) {
            Some(t) => *t,
            None => {
                proof {
                    reveal_strlit("");
                }
                return Err(CodegenError::UnknownVariant(concat3(self.ctx.interner.text(variant), "", "")));
            },
        };
        let size = layout.size;
        let mut vids: Vec<ValueId> = Vec::new();
        let mut i: usize = 0;
        while i < fields.len()
            invariant
                0 <= i <= fields@.len(),
                vids@ == fields@.take(i as int),
            decreases fields@.len() - i,
        {
            vids.push(fields[i]);
            i = i + 1;
            assert(vids@ =~= fields@.take(i as int));
        }
        assert(fields@.take(i as int) =~= fields@);
        let mut v: Vec<Instr> = vec![
            Instr::I32Const(size as i32),
            Instr::Call(self.ctx.alloc_fn_index),
            Instr::Drop,
            Instr::GlobalGet(0),
            Instr::I32Const(size as i32),
            Instr::I32Sub,
            Instr::I32Const(tag as i32),
            Instr::I32Store(MemArg { offset: 0, align: 2 }),
        ];
        self.emit_field_stores(&mut v, &vids, size, 8);
        let mut w: Vec<Instr> = vec![Instr::GlobalGet(0), Instr::I32Const(size as i32), Instr::I32Sub];
        v.append(&mut w);
        out.append(&mut v);
        Ok(())
    }

    /// The instructions of an ADT field read: the `field_index`-th slot after the
    /// header, loaded as `result_ty`.
    pub open spec fn spec_emit_adt_field_get(&self, base: ValueId, field_index: u32, result_ty: Ty) -> Result<Seq<Instr>, ErrorKind> {
        Ok(seq![Instr::LocalGet(self.spec_local(base))] + spec_typed_load(result_ty, (8 + field_index * 8) as u64))
    }

    /// Read an ADT field.
    pub(crate) fn emit_adt_field_get(&self, out: &mut Vec<Instr>, base: ValueId, field_index: u32, result_ty: &Ty) -> (r: Result<(), CodegenError>)
        requires
            self.wf(),
            self.value_ok(base),
            8 + field_index * 8 <= u32::MAX,
        ensures
            emits(r, old(out)@, final(out)@, self.spec_emit_adt_field_get(base, field_index, *result_ty)),
    {
        let offset = AdtLayout::field_offset(field_index);
        let ghost start = out@;
        out.push(Instr::LocalGet(self.local_for(base)));
        self.emit_typed_load(out, result_ty, offset as u64);
        assert(out@ =~= start + (seq![Instr::LocalGet(self.spec_local(base))] + spec_typed_load(*result_ty, (8 + field_index * 8) as u64)));
        Ok(())
    }
    /// The slot writes of a record update for the sorted fields `s` of `result_ty`:
    /// for each field, its updated value where `updates` names it (the first such
    /// update), or else its value in `base`, copied with the field's type.
    pub open spec fn spec_update_stores(
        &self,
        s: Seq<(Name, usize)>,
        base: ValueId,
        updates: Seq<(Name, ValueId)>,
        result_ty: Ty,
        size: u32,
    ) -> Seq<Instr>
        decreases s.len(),
    {
        if s.len() == 0 {
            Seq::empty()
        } else {
            let i = s.len() - 1;
            let offset = (i * 8) as u64;
            let derive = seq![Instr::GlobalGet(0), Instr::I32Const(size as i32), Instr::I32Sub];
            let store = match first_name_index(updates, s[i].0) {
                Some(u) => seq![Instr::LocalGet(self.spec_local(updates[u].1))]
                    + spec_typed_store(self.spec_value_ty(updates[u].1), offset),
                None => {
                    let ft = self.spec_record_field_ty(result_ty, s[i].1 as int);
                    seq![Instr::LocalGet(self.spec_local(base))] + spec_typed_load(ft, offset) + spec_typed_store(ft, offset)
                },
            };
            self.spec_update_stores(s.drop_last(), base, updates, result_ty, size) + derive + store
        }
    }

    /// The instructions of a functional record update: allocate a record of
    /// `result_ty` and fill each slot from the update that names its field or from
    /// `base`, leaving the pointer on the stack; an unsupported type error where
    /// `result_ty` has no record body.
    pub open spec fn spec_emit_record_update(&self, base: ValueId, updates: Seq<(Name, ValueId)>, result_ty: Ty) -> Result<Seq<Instr>, ErrorKind> {
        match self.spec_sorted_record_fields(result_ty) {
            Err(k) => Err(k),
            Ok(s) => {
                let size = (s.len() * 8) as u32;
                Ok(seq![Instr::I32Const(size as i32), Instr::Call(self.ctx.alloc_fn_index), Instr::Drop]
                    + self.spec_update_stores(s, base, updates, result_ty, size)
                    + seq![Instr::GlobalGet(0), Instr::I32Const(size as i32), Instr::I32Sub])
            },
        }
    }

    /// The first update that names `name`.
    fn find_update(updates: &[(Name, ValueId)], name: Name) -> (r: Option<ValueId>)
        ensures
            match first_name_index(updates@, name) {
                Some(u) => r == Some(updates@[u].1),
                None => r is None,
            },
            first_name_index(updates@, name) matches Some(u) ==> 0 <= u < updates@.len(),
    {
        proof {
            lemma_first_name_index_range(updates@, name);
        }
        let mut i: usize = 0;
        while i < updates.len()
            invariant
                0 <= i <= updates@.len(),
                forall|k: int| 0 <= k < i ==> #[trigger] updates@[k].0 != name,
            decreases updates@.len() - i,
        {
            if updates[i].0 == name {
                proof {
                    lemma_first_name_index(updates@, name, i as int);
                }
                return Some(updates[i].1);
            }
            i = i + 1;
        }
        proof {
            lemma_first_name_index(updates@, name, i as int);
        }
        None
    }

    /// Build an updated copy of a record.
    pub(crate) fn emit_record_update(&self, out: &mut Vec<Instr>, base: ValueId, updates: &[(Name, ValueId)], result_ty: &Ty) -> (r: Result<(), CodegenError>)
        requires
            self.wf(),
            self.value_ok(base),
            forall|k: int| 0 <= k < updates@.len() ==> self.value_ok(#[trigger] updates@[k].1),
            self.ty_def_ok(*result_ty),
            self.spec_record_names(*result_ty) matches Some(names) ==> names.len() * 8 <= u32::MAX,
        ensures
            emits(r, old(out)@, final(out)@, self.spec_emit_record_update(base, updates@, *result_ty)),
    {
        let sorted = self.sorted_record_fields(result_ty, "record update")?;
        let ghost s = sorted@;
        proof {
            let ns = self.spec_record_names(*result_ty)->Some_0;
            lemma_sort_len(self.ctx.interner, enumerate_names(ns));
            lemma_sort_members(self.ctx.interner, enumerate_names(ns));
        }
        let field_count = sorted.len() as u32;
        let size = record_size(field_count);
        let mut v: Vec<Instr> = vec![Instr::I32Const(size as i32), Instr::Call(self.ctx.alloc_fn_index), Instr::Drop];
        let ghost head = v@;
        let err = Ty::Error;
        let mut i: usize = 0;
        while i < sorted.len()
            invariant
                self.wf(),
                self.value_ok(base),
                forall|k: int| 0 <= k < updates@.len() ==> self.value_ok(#[trigger] updates@[k].1),
                self.ty_def_ok(*result_ty),
                s == sorted@,
                self.spec_record_names(*result_ty) matches Some(ns) && s.len() == ns.len()
                    && s.len() * 8 <= u32::MAX
                    && (forall|k: int| 0 <= k < s.len() ==> #[trigger] s[k].1 < ns.len()),
                size == s.len() * 8,
                err == Ty::Error,
                0 <= i <= s.len(),
                v@ == head + self.spec_update_stores(s.take(i as int), base, updates@, *result_ty, size),
            decreases s.len() - i,
        {
            assert(s.take(i + 1).drop_last() =~= s.take(i as int));
            let (name, j) = sorted[i];
            let offset = record_field_offset(i as u32) as u64;
            let mut w: Vec<Instr> = vec![Instr::GlobalGet(0), Instr::I32Const(size as i32), Instr::I32Sub];
            v.append(&mut w);
            match Self::find_update(updates, name) {
                Some(update_vid) => {
                    v.push(Instr::LocalGet(self.local_for(update_vid)));
                    self.emit_typed_store_stack(&mut v, self.value_ty(update_vid), offset);
                },
                None => {
                    let ft: &Ty = match self.record_field_ty(result_ty, j) {
                        Some(t) => t,
                        None => &err,
                    };
                    v.push(Instr::LocalGet(self.local_for(base)));
                    self.emit_typed_load(&mut v, ft, offset);
                    self.emit_typed_store_stack(&mut v, ft, offset);
                },
            }
            i = i + 1;
            assert(v@ =~= head + self.spec_update_stores(s.take(i as int), base, updates@, *result_ty, size));
        }
        assert(s.take(i as int) =~= s);
        let mut w: Vec<Instr> = vec![Instr::GlobalGet(0), Instr::I32Const(size as i32), Instr::I32Sub];
        v.append(&mut w);
        out.append(&mut v);
        Ok(())
    }
}

/// Byte strings that sort no later than each other are equal.
proof fn lemma_bytes_le_antisym(a: Seq<u8>, b: Seq<u8>)
    requires
        bytes_le(a, b),
        bytes_le(b, a),
    ensures
        a == b,
    decreases a.len(),
{
    if a.len() > 0 && b.len() > 0 {
        lemma_bytes_le_antisym(a.drop_first(), b.drop_first());
        assert(a =~= seq![a[0]] + a.drop_first());
        assert(b =~= seq![b[0]] + b.drop_first());
    }
}

/// Names that sort no later than each other have the same text.
proof fn lemma_name_le_antisym(interner: &Interner, a: Name, b: Name)
    requires
        name_le(interner, a, b),
        name_le(interner, b, a),
    ensures
        interner.spec_text(a) == interner.spec_text(b),
{
    let ea = vstd::utf8::encode_utf8(interner.spec_text(a));
    let eb = vstd::utf8::encode_utf8(interner.spec_text(b));
    lemma_bytes_le_antisym(ea, eb);
    vstd::utf8::encode_utf8_decode_utf8(interner.spec_text(a));
    vstd::utf8::encode_utf8_decode_utf8(interner.spec_text(b));
}

/// Whether no two entries have names with the same text.
pub open spec fn texts_distinct<X>(interner: &Interner, s: Seq<(Name, X)>) -> bool {
    forall|p: int, q: int| 0 <= p < s.len() && 0 <= q < s.len() && p != q
        ==> interner.spec_text(#[trigger] s[p].0) != interner.spec_text(#[trigger] s[q].0)
}

/// Whether some entry of `t` has the name `n`.
pub open spec fn has_name<Y>(t: Seq<(Name, Y)>, n: Name) -> bool {
    exists|q: int| 0 <= q < t.len() && #[trigger] t[q].0 == n
}

/// Whether every name of `s` is a name of `t`.
pub open spec fn names_within<X, Y>(s: Seq<(Name, X)>, t: Seq<(Name, Y)>) -> bool {
    forall|p: int| 0 <= p < s.len() ==> has_name(t, #[trigger] s[p].0)
}

/// Two sequences sorted by name, with the same names and no two names of the same
/// text, list the names in the same order.
proof fn lemma_sorted_same_names<X, Y>(interner: &Interner, s: Seq<(Name, X)>, t: Seq<(Name, Y)>)
    requires
        sorted_by_name(interner, s),
        sorted_by_name(interner, t),
        s.len() == t.len(),
        texts_distinct(interner, s),
        texts_distinct(interner, t),
        names_within(s, t),
        names_within(t, s),
    ensures
        forall|i: int| 0 <= i < s.len() ==> #[trigger] s[i].0 == t[i].0,
    decreases s.len(),
{
    if s.len() > 0 {
        let a = s[0].0;
        let b = t[0].0;
        assert(has_name(t, s[0].0));
        assert(has_name(s, t[0].0));
        let j = choose|q: int| 0 <= q < t.len() && #[trigger] t[q].0 == s[0].0;
        let i = choose|p: int| 0 <= p < s.len() && #[trigger] s[p].0 == t[0].0;
        if j > 0 {
            assert(name_le(interner, t[0].0, t[j].0));
        } else {
            lemma_bytes_le_total(vstd::utf8::encode_utf8(interner.spec_text(a)), vstd::utf8::encode_utf8(interner.spec_text(a)));
        }
        if i > 0 {
            assert(name_le(interner, s[0].0, s[i].0));
        } else {
            lemma_bytes_le_total(vstd::utf8::encode_utf8(interner.spec_text(a)), vstd::utf8::encode_utf8(interner.spec_text(a)));
        }
        lemma_name_le_antisym(interner, a, b);
        assert(i == 0);
        assert(a == b);
        let s1 = s.drop_first();
        let t1 = t.drop_first();
        assert forall|p: int, q: int| 0 <= p < s1.len() && 0 <= q < s1.len() && p != q
            implies interner.spec_text(#[trigger] s1[p].0) != interner.spec_text(#[trigger] s1[q].0) by {
            assert(s1[p] == s[p + 1] && s1[q] == s[q + 1]);
        }
        assert forall|p: int, q: int| 0 <= p < t1.len() && 0 <= q < t1.len() && p != q
            implies interner.spec_text(#[trigger] t1[p].0) != interner.spec_text(#[trigger] t1[q].0) by {
            assert(t1[p] == t[p + 1] && t1[q] == t[q + 1]);
        }
        assert forall|p: int| 0 <= p < s1.len() implies has_name(t1, #[trigger] s1[p].0) by {
            assert(s1[p] == s[p + 1]);
            assert(has_name(t, s[p + 1].0));
            let q = choose|q: int| 0 <= q < t.len() && #[trigger] t[q].0 == s[p + 1].0;
            assert(interner.spec_text(s[p + 1].0) != interner.spec_text(s[0].0));
            assert(q != 0);
            assert(t1[q - 1] == t[q]);
            assert(t1[q - 1].0 == s1[p].0);
        }
        assert forall|p: int| 0 <= p < t1.len() implies has_name(s1, #[trigger] t1[p].0) by {
            assert(t1[p] == t[p + 1]);
            assert(has_name(s, t[p + 1].0));
            let q = choose|q: int| 0 <= q < s.len() && #[trigger] s[q].0 == t[p + 1].0;
            assert(interner.spec_text(t[p + 1].0) != interner.spec_text(t[0].0));
            assert(q != 0);
            assert(s1[q - 1] == s[q]);
            assert(s1[q - 1].0 == t1[p].0);
        }
        assert forall|p: int, q: int| 0 <= p < q < s1.len() implies name_le(interner, #[trigger] s1[p].0, #[trigger] s1[q].0) by {
            assert(s1[p] == s[p + 1] && s1[q] == s[q + 1]);
        }
        assert forall|p: int, q: int| 0 <= p < q < t1.len() implies name_le(interner, #[trigger] t1[p].0, #[trigger] t1[q].0) by {
            assert(t1[p] == t[p + 1] && t1[q] == t[q + 1]);
        }
        lemma_sorted_same_names(interner, s1, t1);
        assert forall|k: int| 0 <= k < s.len() implies #[trigger] s[k].0 == t[k].0 by {
            if k > 0 {
                assert(s1[k - 1] == s[k] && t1[k - 1] == t[k]);
            }
        }
    }
}

/// Sorting by name keeps exactly the entries of the input, each as often.
proof fn lemma_sort_same_entries<X>(interner: &Interner, s: Seq<(Name, X)>)
    ensures
        forall|x: (Name, X)| #[trigger] sort_by_name(interner, s).contains(x) <==> s.contains(x),
        s.no_duplicates() ==> sort_by_name(interner, s).no_duplicates(),
{
    broadcast use vstd::seq_lib::group_to_multiset_ensures;
    lemma_sort_by_name(interner, s);
    let t = sort_by_name(interner, s);
    assert forall|x: (Name, X)| #[trigger] t.contains(x) <==> s.contains(x) by {
        assert(t.to_multiset().count(x) == s.to_multiset().count(x));
    }
    if s.no_duplicates() {
        s.lemma_multiset_has_no_duplicates();
        t.lemma_multiset_has_no_duplicates_conv();
    }
}

impl<'a> FuncCodegen<'a> {
    /// A record created from `fields` stores each field in the slot that a field
    /// access on the record type resolves its name to: where the record type
    /// declares exactly the names of `fields`, no two with the same text, field
    /// `fields[j]`'s name resolves to the position `k` at which record creation
    /// places the value `fields[j].1` among its sorted fields.
    pub proof fn lemma_record_field_slot(&self, base_ty: Ty, fields: Seq<(Name, ValueId)>, j: int)
        requires
            self.spec_record_names(base_ty) is Some,
            enumerate_names(self.spec_record_names(base_ty)->Some_0).len() == fields.len(),
            texts_distinct(self.ctx.interner, enumerate_names(self.spec_record_names(base_ty)->Some_0)),
            texts_distinct(self.ctx.interner, fields),
            names_within(enumerate_names(self.spec_record_names(base_ty)->Some_0), fields),
            names_within(fields, enumerate_names(self.spec_record_names(base_ty)->Some_0)),
            0 <= j < fields.len(),
            fields.len() <= u32::MAX,
        ensures
            self.spec_resolve_record_field_index(base_ty, fields[j].0) matches Ok(k)
                && k < fields.len() && sort_by_name(self.ctx.interner, fields)[k as int] == fields[j],
    {
        let interner = self.ctx.interner;
        let e = enumerate_names(self.spec_record_names(base_ty)->Some_0);
        let s = sort_by_name(interner, e);
        let t = sort_by_name(interner, fields);
        lemma_sort_by_name(interner, e);
        lemma_sort_by_name(interner, fields);
        lemma_sort_len(interner, e);
        lemma_sort_len(interner, fields);
        lemma_sort_same_entries(interner, e);
        lemma_sort_same_entries(interner, fields);
        assert(e.no_duplicates()) by {
            assert forall|p: int, q: int| 0 <= p < e.len() && 0 <= q < e.len() && p != q implies e[p] != e[q] by {
                assert(e[p].1 == p as usize && e[q].1 == q as usize);
            }
        }
        assert(fields.no_duplicates()) by {
            assert forall|p: int, q: int| 0 <= p < fields.len() && 0 <= q < fields.len() && p != q implies fields[p] != fields[q] by {
                assert(interner.spec_text(fields[p].0) != interner.spec_text(fields[q].0));
            }
        }
        assert(texts_distinct(interner, s)) by {
            assert forall|p: int, q: int| 0 <= p < s.len() && 0 <= q < s.len() && p != q
                implies interner.spec_text(#[trigger] s[p].0) != interner.spec_text(#[trigger] s[q].0) by {
                assert(s.contains(s[p]) && s.contains(s[q]));
                assert(e.contains(s[p]) && e.contains(s[q]));
                let m1 = choose|m: int| 0 <= m < e.len() && e[m] == s[p];
                let m2 = choose|m: int| 0 <= m < e.len() && e[m] == s[q];
            }
        }
        assert(texts_distinct(interner, t)) by {
            assert forall|p: int, q: int| 0 <= p < t.len() && 0 <= q < t.len() && p != q
                implies interner.spec_text(#[trigger] t[p].0) != interner.spec_text(#[trigger] t[q].0) by {
                assert(t.contains(t[p]) && t.contains(t[q]));
                assert(fields.contains(t[p]) && fields.contains(t[q]));
                let m1 = choose|m: int| 0 <= m < fields.len() && fields[m] == t[p];
                let m2 = choose|m: int| 0 <= m < fields.len() && fields[m] == t[q];
            }
        }
        assert(names_within(s, t)) by {
            assert forall|p: int| 0 <= p < s.len() implies has_name(t, #[trigger] s[p].0) by {
                assert(s.contains(s[p]));
                assert(e.contains(s[p]));
                let m = choose|m: int| 0 <= m < e.len() && e[m] == s[p];
                assert(has_name(fields, e[m].0));
                let f = choose|q: int| 0 <= q < fields.len() && #[trigger] fields[q].0 == e[m].0;
                assert(fields.contains(fields[f]));
                assert(t.contains(fields[f]));
                let q = choose|q: int| 0 <= q < t.len() && t[q] == fields[f];
                assert(t[q].0 == s[p].0);
            }
        }
        assert(names_within(t, s)) by {
            assert forall|p: int| 0 <= p < t.len() implies has_name(s, #[trigger] t[p].0) by {
                assert(t.contains(t[p]));
                assert(fields.contains(t[p]));
                let m = choose|m: int| 0 <= m < fields.len() && fields[m] == t[p];
                assert(has_name(e, fields[m].0));
                let f = choose|q: int| 0 <= q < e.len() && #[trigger] e[q].0 == fields[m].0;
                assert(e.contains(e[f]));
                assert(s.contains(e[f]));
                let q = choose|q: int| 0 <= q < s.len() && s[q] == e[f];
                assert(s[q].0 == t[p].0);
            }
        }
        lemma_sorted_same_names(interner, s, t);
        assert(fields.contains(fields[j]));
        assert(t.contains(fields[j]));
        let k = choose|k: int| 0 <= k < t.len() && t[k] == fields[j];
        assert(s[k].0 == fields[j].0);
        assert forall|p: int| 0 <= p < k implies #[trigger] s[p].0 != fields[j].0 by {
            assert(interner.spec_text(s[p].0) != interner.spec_text(s[k].0));
        }
        lemma_first_name_index(s, fields[j].0, k);
        assert(self.spec_sorted_record_fields(base_ty) == Ok::<Seq<(Name, usize)>, ErrorKind>(s));
        assert((k as u32) as int == k);
    }
}

} // verus!
