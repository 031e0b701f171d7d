//! The sections of a WASM module, built with `wasm_encoder`: what each section
//! holds, and the module's bytes as sections are written into it.

use vstd::prelude::*;
use std::borrow::Cow;
use wasm_encoder::{
    CodeSection, ConstExpr, ElementSection, Elements, EntityType, ExportKind, ExportSection, Function,
    FunctionSection, GlobalSection, GlobalType, ImportSection, MemorySection, MemoryType, Module, RefType,
    TableSection, TableType, TypeSection, ValType,
};
use crate::encode::{body_bytes, val_ty_byte};
use crate::instr::ValTy;
use crate::leb::{sleb, uleb, uleb_all};
use crate::module::{type_entries, type_entries_size};

verus! {

/// What an export names.
#[derive(Clone, Copy, Debug, PartialEq, Eq, Structural)]
pub enum ExportItem {
    Func,
    Memory,
}

/// An import section under construction.
#[verifier::external_type_specification]
#[verifier::external_body]
pub struct ExImportSection(ImportSection);

/// A function section under construction.
#[verifier::external_type_specification]
#[verifier::external_body]
pub struct ExFunctionSection(FunctionSection);

/// A table section under construction.
#[verifier::external_type_specification]
#[verifier::external_body]
pub struct ExTableSection(TableSection);

/// An element section under construction.
#[verifier::external_type_specification]
#[verifier::external_body]
pub struct ExElementSection(ElementSection);

/// A memory section under construction.
#[verifier::external_type_specification]
#[verifier::external_body]
pub struct ExMemorySection(MemorySection);

/// A global section under construction.
#[verifier::external_type_specification]
#[verifier::external_body]
pub struct ExGlobalSection(GlobalSection);

/// An export section under construction.
#[verifier::external_type_specification]
#[verifier::external_body]
pub struct ExExportSection(ExportSection);

/// A code section under construction.
#[verifier::external_type_specification]
#[verifier::external_body]
pub struct ExCodeSection(CodeSection);

/// A module under construction.
#[verifier::external_type_specification]
#[verifier::external_body]
pub struct ExModule(Module);

/// The imports of an import section, in order: module name, field name and the
/// index of the imported function's type.
pub uninterp spec fn import_entries(s: ImportSection) -> Seq<(Seq<char>, Seq<char>, u32)>;

/// The type indices of the functions of a function section, in order.
pub uninterp spec fn function_entries(s: FunctionSection) -> Seq<u32>;

/// The sizes of the function-reference tables of a table section, in order.
pub uninterp spec fn table_entries(s: TableSection) -> Seq<u64>;

/// The active segments of an element section, in order: the offset into table 0
/// and the function indices it holds.
pub uninterp spec fn element_entries(s: ElementSection) -> Seq<(i32, Seq<u32>)>;

/// The minimum page counts of the memories of a memory section, in order.
pub uninterp spec fn memory_entries(s: MemorySection) -> Seq<u64>;

/// The initial values of the mutable `i32` globals of a global section, in order.
pub uninterp spec fn global_entries(s: GlobalSection) -> Seq<i32>;

/// The exports of an export section, in order: name, kind and index.
pub uninterp spec fn export_entries(s: ExportSection) -> Seq<(Seq<char>, ExportItem, u32)>;

/// The encoded function bodies of a code section, in order.
pub uninterp spec fn code_entries(s: CodeSection) -> Seq<Seq<u8>>;

/// The bytes written into a module so far.
pub uninterp spec fn module_bytes(m: Module) -> Seq<u8>;

/// The UTF-8 encoding of a character.
pub open spec fn utf8_char(c: char) -> Seq<u8> {
    let v = c as u32;
    if v < 0x80 {
        seq![v as u8]
    } else if v < 0x800 {
        seq![(0xc0 + v / 64) as u8, (0x80 + v % 64) as u8]
    } else if v < 0x10000 {
        seq![(0xe0 + v / 4096) as u8, (0x80 + (v / 64) % 64) as u8, (0x80 + v % 64) as u8]
    } else {
        seq![(0xf0 + v / 262144) as u8, (0x80 + (v / 4096) % 64) as u8, (0x80 + (v / 64) % 64) as u8, (0x80 + v % 64) as u8]
    }
}

/// The UTF-8 encoding of a text.
pub open spec fn utf8(s: Seq<char>) -> Seq<u8>
    decreases s.len(),
{
    if s.len() == 0 {
        Seq::empty()
    } else {
        utf8(s.drop_last()) + utf8_char(s.last())
    }
}

/// A name as the binary format writes it: its length in bytes, then its UTF-8 bytes.
pub open spec fn name_bytes(s: Seq<char>) -> Seq<u8> {
    uleb(utf8(s).len()) + utf8(s)
}

/// A section's contents as `Encode::encode` writes them: the size of what follows,
/// the number of entries, then the entries' bytes.
pub open spec fn section_bytes(count: nat, data: Seq<u8>) -> Seq<u8> {
    uleb(uleb(count).len() + data.len()) + uleb(count) + data
}

/// The value type codes of a list of value types.
pub open spec fn val_tys_bytes(ts: Seq<ValTy>) -> Seq<u8> {
    ts.map_values(|t: ValTy| val_ty_byte(t))
}

/// The bytes of function types: for each, the form `0x60`, then its parameters'
/// and results' counts and value type codes.
pub open spec fn type_data(e: Seq<(Seq<ValTy>, Seq<ValTy>)>) -> Seq<u8>
    decreases e.len(),
{
    if e.len() == 0 {
        Seq::empty()
    } else {
        type_data(e.drop_last()) + seq![0x60u8] + uleb(e.last().0.len()) + val_tys_bytes(e.last().0)
            + uleb(e.last().1.len()) + val_tys_bytes(e.last().1)
    }
}

/// The bytes of function imports: for each, the module and field names, the
/// function kind `0x00` and the type index.
pub open spec fn import_data(e: Seq<(Seq<char>, Seq<char>, u32)>) -> Seq<u8>
    decreases e.len(),
{
    if e.len() == 0 {
        Seq::empty()
    } else {
        import_data(e.drop_last()) + name_bytes(e.last().0) + name_bytes(e.last().1) + seq![0x00u8]
            + uleb(e.last().2 as nat)
    }
}

/// The bytes of a function section's type indices.
pub open spec fn function_data(e: Seq<u32>) -> Seq<u8>
    decreases e.len(),
{
    if e.len() == 0 {
        Seq::empty()
    } else {
        function_data(e.drop_last()) + uleb(e.last() as nat)
    }
}

/// The bytes of function-reference tables whose minimum and maximum are each size:
/// the `funcref` code `0x70`, the flag `0x01` for a maximum, then the two sizes.
pub open spec fn table_data(e: Seq<u64>) -> Seq<u8>
    decreases e.len(),
{
    if e.len() == 0 {
        Seq::empty()
    } else {
        table_data(e.drop_last()) + seq![0x70u8, 0x01u8] + uleb(e.last() as nat) + uleb(e.last() as nat)
    }
}

/// The bytes of memories with a minimum and no maximum: the flags `0x00`, then the
/// minimum.
pub open spec fn memory_data(e: Seq<u64>) -> Seq<u8>
    decreases e.len(),
{
    if e.len() == 0 {
        Seq::empty()
    } else {
        memory_data(e.drop_last()) + seq![0x00u8] + uleb(e.last() as nat)
    }
}

/// The bytes of mutable `i32` globals: the type code `0x7f`, the flag `0x01`, then
/// the initial value's constant expression, `i32.const` and `end`.
pub open spec fn global_data(e: Seq<i32>) -> Seq<u8>
    decreases e.len(),
{
    if e.len() == 0 {
        Seq::empty()
    } else {
        global_data(e.drop_last()) + seq![0x7fu8, 0x01u8, 0x41u8] + sleb(e.last() as int) + seq![0x0bu8]
    }
}

/// The byte of an export's kind.
pub open spec fn export_kind_byte(k: ExportItem) -> u8 {
    match k {
        ExportItem::Func => 0x00u8,
        ExportItem::Memory => 0x02u8,
    }
}

/// The bytes of exports: for each, its name, its kind and its index.
pub open spec fn export_data(e: Seq<(Seq<char>, ExportItem, u32)>) -> Seq<u8>
    decreases e.len(),
{
    if e.len() == 0 {
        Seq::empty()
    } else {
        export_data(e.drop_last()) + name_bytes(e.last().0) + seq![export_kind_byte(e.last().1)] + uleb(e.last().2 as nat)
    }
}

/// The bytes of active segments of function indices for table 0: for each, the
/// flags `0x00`, the offset's constant expression, then the count and indices.
pub open spec fn element_data(e: Seq<(i32, Seq<u32>)>) -> Seq<u8>
    decreases e.len(),
{
    if e.len() == 0 {
        Seq::empty()
    } else {
        element_data(e.drop_last()) + seq![0x00u8, 0x41u8] + sleb(e.last().0 as int) + seq![0x0bu8]
            + uleb(e.last().1.len()) + uleb_all(e.last().1)
    }
}

/// The bytes of function bodies: for each, its length, then its bytes.
pub open spec fn code_data(e: Seq<Seq<u8>>) -> Seq<u8>
    decreases e.len(),
{
    if e.len() == 0 {
        Seq::empty()
    } else {
        code_data(e.drop_last()) + uleb(e.last().len()) + e.last()
    }
}

/// The encoding of a type section's contents.
pub closed spec fn type_section_encoding(s: TypeSection) -> Seq<u8> {
    section_bytes(type_entries(s).len(), type_data(type_entries(s)))
}

/// The encoding of an import section's contents.
pub closed spec fn import_section_encoding(s: ImportSection) -> Seq<u8> {
    section_bytes(import_entries(s).len(), import_data(import_entries(s)))
}

/// The encoding of a function section's contents.
pub closed spec fn function_section_encoding(s: FunctionSection) -> Seq<u8> {
    section_bytes(function_entries(s).len(), function_data(function_entries(s)))
}

/// The encoding of a table section's contents.
pub closed spec fn table_section_encoding(s: TableSection) -> Seq<u8> {
    section_bytes(table_entries(s).len(), table_data(table_entries(s)))
}

/// The encoding of a memory section's contents.
pub closed spec fn memory_section_encoding(s: MemorySection) -> Seq<u8> {
    section_bytes(memory_entries(s).len(), memory_data(memory_entries(s)))
}

/// The encoding of a global section's contents.
pub closed spec fn global_section_encoding(s: GlobalSection) -> Seq<u8> {
    section_bytes(global_entries(s).len(), global_data(global_entries(s)))
}

/// The encoding of an export section's contents.
pub closed spec fn export_section_encoding(s: ExportSection) -> Seq<u8> {
    section_bytes(export_entries(s).len(), export_data(export_entries(s)))
}

/// The encoding of an element section's contents.
pub closed spec fn element_section_encoding(s: ElementSection) -> Seq<u8> {
    section_bytes(element_entries(s).len(), element_data(element_entries(s)))
}

/// The encoding of a code section's contents.
pub closed spec fn code_section_encoding(s: CodeSection) -> Seq<u8> {
    section_bytes(code_entries(s).len(), code_data(code_entries(s)))
}

/// At most the bytes that the imports `e` take in an import section: each is two
/// names, every name its length in at most five bytes and its text in at most four
/// bytes per character, then the kind byte and the type index in at most five bytes.
pub open spec fn import_entries_size(e: Seq<(Seq<char>, Seq<char>, u32)>) -> nat
    decreases e.len(),
{
    if e.len() == 0 {
        0
    } else {
        import_entries_size(e.drop_last()) + 16 + 4 * e.last().0.len() + 4 * e.last().1.len()
    }
}

/// At most the bytes that the segments `e` take in an element section: each is its
/// flags, its offset expression, the count of its functions and each function index,
/// none over five bytes, the offset expression over seven.
pub open spec fn element_entries_size(e: Seq<(i32, Seq<u32>)>) -> nat
    decreases e.len(),
{
    if e.len() == 0 {
        0
    } else {
        element_entries_size(e.drop_last()) + 20 + 5 * e.last().1.len()
    }
}

/// At most the bytes that the exports `e` take in an export section: each is its
/// name's length in at most five bytes and its text in at most four bytes per
/// character, the kind byte and the index in at most five bytes.
pub open spec fn export_entries_size(e: Seq<(Seq<char>, ExportItem, u32)>) -> nat
    decreases e.len(),
{
    if e.len() == 0 {
        0
    } else {
        export_entries_size(e.drop_last()) + 11 + 4 * e.last().0.len()
    }
}

/// At most the bytes that the bodies `e` take in a code section: each is its length
/// in at most five bytes, then its bytes.
pub open spec fn code_entries_size(e: Seq<Seq<u8>>) -> nat
    decreases e.len(),
{
    if e.len() == 0 {
        0
    } else {
        code_entries_size(e.drop_last()) + 5 + e.last().len()
    }
}

/// Calls `ImportSection::new`, which starts an empty import section.
#[verifier::external_body]
pub(crate) fn new_import_section() -> (s: ImportSection)
    ensures
        import_entries(s) == Seq::<(Seq<char>, Seq<char>, u32)>::empty(),
{
    ImportSection::new()
}

/// Calls `ImportSection::import`, which adds the import of a function of type
/// `type_index` named `name` in module `module`. Each name's length is encoded as a
/// 32-bit number, which the encoder asserts; four bytes per character bound it.
#[verifier::external_body]
pub(crate) fn add_function_import(s: &mut ImportSection, module: &str, name: &str, type_index: u32)
    requires
        import_entries(*old(s)).len() < u32::MAX,
        4 * module@.len() <= u32::MAX,
        4 * name@.len() <= u32::MAX,
    ensures
        import_entries(*final(s)) == import_entries(*old(s)).push((module@, name@, type_index)),
{
    s.import(module, name, EntityType::Function(type_index));
}

/// Calls `ImportSection::is_empty`, which tells whether no import was added.
#[verifier::external_body]
pub(crate) fn import_section_is_empty(s: &ImportSection) -> (r: bool)
    ensures
        r == (import_entries(*s).len() == 0),
{
    s.is_empty()
}

/// Calls `FunctionSection::new`, which starts an empty function section.
#[verifier::external_body]
pub(crate) fn new_function_section() -> (s: FunctionSection)
    ensures
        function_entries(s) == Seq::<u32>::empty(),
{
    FunctionSection::new()
}

/// Calls `FunctionSection::function`, which adds a function of type `type_index`.
#[verifier::external_body]
pub(crate) fn add_function(s: &mut FunctionSection, type_index: u32)
    requires
        function_entries(*old(s)).len() < u32::MAX,
    ensures
        function_entries(*final(s)) == function_entries(*old(s)).push(type_index),
{
    s.function(type_index);
}

/// Calls `TableSection::new`, which starts an empty table section.
#[verifier::external_body]
pub(crate) fn new_table_section() -> (s: TableSection)
    ensures
        table_entries(s) == Seq::<u64>::empty(),
{
    TableSection::new()
}

/// Calls `TableSection::table`, which adds a 32-bit, unshared table of function
/// references whose minimum and maximum size are both `size`.
#[verifier::external_body]
pub(crate) fn add_funcref_table(s: &mut TableSection, size: u64)
    requires
        table_entries(*old(s)).len() < u32::MAX,
    ensures
        table_entries(*final(s)) == table_entries(*old(s)).push(size),
{
    s.table(TableType { element_type: RefType::FUNCREF, table64: false, minimum: size, maximum: Some(size), shared: false });
}

/// Calls `TableSection::is_empty`, which tells whether no table was added.
#[verifier::external_body]
pub(crate) fn table_section_is_empty(s: &TableSection) -> (r: bool)
    ensures
        r == (table_entries(*s).len() == 0),
{
    s.is_empty()
}

/// Calls `ElementSection::new`, which starts an empty element section.
#[verifier::external_body]
pub(crate) fn new_element_section() -> (s: ElementSection)
    ensures
        element_entries(s) == Seq::<(i32, Seq<u32>)>::empty(),
{
    ElementSection::new()
}

/// Calls `ElementSection::active` with no table index, which adds an active segment
/// that places the functions `funcs` into table 0 from the offset `offset`. The
/// encoder asserts that the number of functions fits in 32 bits.
#[verifier::external_body]
pub(crate) fn add_active_functions(s: &mut ElementSection, offset: i32, funcs: &Vec<u32>)
    requires
        element_entries(*old(s)).len() < u32::MAX,
        funcs@.len() <= u32::MAX,
    ensures
        element_entries(*final(s)) == element_entries(*old(s)).push((offset, funcs@)),
{
    s.active(None, &ConstExpr::i32_const(offset), Elements::Functions(Cow::Owned(funcs.clone())));
}

/// Calls `ElementSection::is_empty`, which tells whether no segment was added.
#[verifier::external_body]
pub(crate) fn element_section_is_empty(s: &ElementSection) -> (r: bool)
    ensures
        r == (element_entries(*s).len() == 0),
{
    s.is_empty()
}

/// Calls `MemorySection::new`, which starts an empty memory section.
#[verifier::external_body]
pub(crate) fn new_memory_section() -> (s: MemorySection)
    ensures
        memory_entries(s) == Seq::<u64>::empty(),
{
    MemorySection::new()
}

/// Calls `MemorySection::memory`, which adds a 32-bit, unshared memory of `minimum`
/// pages of the default size, without a maximum.
#[verifier::external_body]
pub(crate) fn add_memory(s: &mut MemorySection, minimum: u64)
    requires
        memory_entries(*old(s)).len() < u32::MAX,
    ensures
        memory_entries(*final(s)) == memory_entries(*old(s)).push(minimum),
{
    s.memory(MemoryType { minimum, maximum: None, memory64: false, shared: false, page_size_log2: None });
}

/// Calls `GlobalSection::new`, which starts an empty global section.
#[verifier::external_body]
pub(crate) fn new_global_section() -> (s: GlobalSection)
    ensures
        global_entries(s) == Seq::<i32>::empty(),
{
    GlobalSection::new()
}

/// Calls `GlobalSection::global`, which adds a mutable, unshared `i32` global whose
/// initial value is the constant `init`.
#[verifier::external_body]
pub(crate) fn add_mutable_i32_global(s: &mut GlobalSection, init: i32)
    requires
        global_entries(*old(s)).len() < u32::MAX,
    ensures
        global_entries(*final(s)) == global_entries(*old(s)).push(init),
{
    s.global(GlobalType { val_type: ValType::I32, mutable: true, shared: false }, &ConstExpr::i32_const(init));
}

/// Calls `ExportSection::new`, which starts an empty export section.
#[verifier::external_body]
pub(crate) fn new_export_section() -> (s: ExportSection)
    ensures
        export_entries(s) == Seq::<(Seq<char>, ExportItem, u32)>::empty(),
{
    ExportSection::new()
}

/// Calls `ExportSection::export`, which adds the export of item `index` of kind
/// `kind` under `name`. The encoder asserts that the name's length in bytes fits in
/// 32 bits; four bytes per character bound it.
#[verifier::external_body]
pub(crate) fn add_export(s: &mut ExportSection, name: &str, kind: ExportItem, index: u32)
    requires
        export_entries(*old(s)).len() < u32::MAX,
        4 * name@.len() <= u32::MAX,
    ensures
        export_entries(*final(s)) == export_entries(*old(s)).push((name@, kind, index)),
{
    let k = match kind {
        ExportItem::Func => ExportKind::Func,
        ExportItem::Memory => ExportKind::Memory,
    };
    s.export(name, k, index);
}

/// Calls `CodeSection::new`, which starts an empty code section.
#[verifier::external_body]
pub(crate) fn new_code_section() -> (s: CodeSection)
    ensures
        code_entries(s) == Seq::<Seq<u8>>::empty(),
{
    CodeSection::new()
}

/// Calls `CodeSection::function`, which adds the body of `f`. The encoder asserts
/// that the body's length fits in 32 bits.
#[verifier::external_body]
pub(crate) fn add_code(s: &mut CodeSection, f: &Function)
    requires
        code_entries(*old(s)).len() < u32::MAX,
        body_bytes(*f).len() <= u32::MAX,
    ensures
        code_entries(*final(s)) == code_entries(*old(s)).push(body_bytes(*f)),
{
    s.function(f);
}

/// The bytes that start every module: the magic number and version 1.
pub open spec fn module_header() -> Seq<u8> {
    seq![0x00u8, 0x61u8, 0x73u8, 0x6du8, 0x01u8, 0x00u8, 0x00u8, 0x00u8]
}

/// Calls `Module::new`, which starts a module with the magic number and version.
#[verifier::external_body]
pub(crate) fn new_module() -> (m: Module)
    ensures
        module_bytes(m) == module_header(),
{
    Module::new()
}

/// Calls `Module::section` with a type section, which writes its id (1) and its
/// encoding: the section's entry count and bytes, as `section_bytes` lays them out,
/// where the bytes are what each call that added an entry wrote, in order (the
/// `*_data` functions above). Each `write_*_section` below does the same with its
/// own section. The
/// encoder asserts that the section's size fits in 32 bits: its entry count takes at
/// most five bytes, and each entry that the wrappers of this library add takes at
/// most the bytes that the `*_entries_size` bounds give (a function index five, a
/// table twenty-two, a memory eleven, a global nine).
#[verifier::external_body]
pub(crate) fn write_type_section(m: &mut Module, s: &TypeSection)
    requires
        type_entries_size(type_entries(*s)) + 5 <= u32::MAX,
    ensures
        module_bytes(*final(m)) == module_bytes(*old(m)) + seq![1u8] + type_section_encoding(*s),
{
    m.section(s);
}

/// Calls `Module::section` with an import section, which writes its id (2) and its
/// encoding.
#[verifier::external_body]
pub(crate) fn write_import_section(m: &mut Module, s: &ImportSection)
    requires
        import_entries_size(import_entries(*s)) + 5 <= u32::MAX,
    ensures
        module_bytes(*final(m)) == module_bytes(*old(m)) + seq![2u8] + import_section_encoding(*s),
{
    m.section(s);
}

/// Calls `Module::section` with a function section, which writes its id (3) and
/// its encoding.
#[verifier::external_body]
pub(crate) fn write_function_section(m: &mut Module, s: &FunctionSection)
    requires
        5 * function_entries(*s).len() + 5 <= u32::MAX,
    ensures
        module_bytes(*final(m)) == module_bytes(*old(m)) + seq![3u8] + function_section_encoding(*s),
{
    m.section(s);
}

/// Calls `Module::section` with a table section, which writes its id (4) and its
/// encoding.
#[verifier::external_body]
pub(crate) fn write_table_section(m: &mut Module, s: &TableSection)
    requires
        22 * table_entries(*s).len() + 5 <= u32::MAX,
    ensures
        module_bytes(*final(m)) == module_bytes(*old(m)) + seq![4u8] + table_section_encoding(*s),
{
    m.section(s);
}

/// Calls `Module::section` with a memory section, which writes its id (5) and its
/// encoding.
#[verifier::external_body]
pub(crate) fn write_memory_section(m: &mut Module, s: &MemorySection)
    requires
        11 * memory_entries(*s).len() + 5 <= u32::MAX,
    ensures
        module_bytes(*final(m)) == module_bytes(*old(m)) + seq![5u8] + memory_section_encoding(*s),
{
    m.section(s);
}

/// Calls `Module::section` with a global section, which writes its id (6) and its
/// encoding.
#[verifier::external_body]
pub(crate) fn write_global_section(m: &mut Module, s: &GlobalSection)
    requires
        9 * global_entries(*s).len() + 5 <= u32::MAX,
    ensures
        module_bytes(*final(m)) == module_bytes(*old(m)) + seq![6u8] + global_section_encoding(*s),
{
    m.section(s);
}

/// Calls `Module::section` with an export section, which writes its id (7) and its
/// encoding.
#[verifier::external_body]
pub(crate) fn write_export_section(m: &mut Module, s: &ExportSection)
    requires
        export_entries_size(export_entries(*s)) + 5 <= u32::MAX,
    ensures
        module_bytes(*final(m)) == module_bytes(*old(m)) + seq![7u8] + export_section_encoding(*s),
{
    m.section(s);
}

/// Calls `Module::section` with an element section, which writes its id (9) and its
/// encoding.
#[verifier::external_body]
pub(crate) fn write_element_section(m: &mut Module, s: &ElementSection)
    requires
        element_entries_size(element_entries(*s)) + 5 <= u32::MAX,
    ensures
        module_bytes(*final(m)) == module_bytes(*old(m)) + seq![9u8] + element_section_encoding(*s),
{
    m.section(s);
}

/// Calls `Module::section` with a code section, which writes its id (10) and its
/// encoding.
#[verifier::external_body]
pub(crate) fn write_code_section(m: &mut Module, s: &CodeSection)
    requires
        code_entries_size(code_entries(*s)) + 5 <= u32::MAX,
    ensures
        module_bytes(*final(m)) == module_bytes(*old(m)) + seq![10u8] + code_section_encoding(*s),
{
    m.section(s);
}

/// Calls `Module::finish`, which hands out the bytes written.
#[verifier::external_body]
pub(crate) fn finish_module(m: Module) -> (bytes: Vec<u8>)
    ensures
        bytes@ == module_bytes(m),
{
    m.finish()
}

} // verus!
