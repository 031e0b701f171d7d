//! The code generator's input: the SSA intermediate representation (KIR) of a module,
//! the item tree of its type definitions and the interner of its names, held as plain
//! values.

use vstd::prelude::*;
use vstd::string::StringSliceAdditionalSpecFns;
use vstd::string::StringExecFns;

verus! {

/// An interned name: an index into `Interner::names`.
pub type Name = u32;

/// Index of a type definition in `ItemTree::types`.
pub type TypeItemIdx = u32;

/// Index of a block in `KirFunction::blocks`.
pub type BlockId = u32;

/// Index of a value in `KirFunction::values`.
pub type ValueId = u32;

/// The text of each interned name.
pub struct Interner {
    pub names: Vec<String>,
}

/// A resolved Kyokara type.
#[derive(Debug)]
pub enum Ty {
    Int,
    Float,
    Bool,
    Unit,
    Char,
    String,
    Adt { def: TypeItemIdx, args: Vec<Ty> },
    Record { fields: Vec<(Name, Ty)> },
    Fn { params: Vec<Ty>, ret: Box<Ty> },
    Never,
    Error,
    Var(u32),
}

/// A type as written in a type definition.
#[derive(Debug)]
pub enum TypeRef {
    /// A named type. `single` holds when the path has one segment and no type
    /// arguments; `builtin` is the builtin type that the name resolves to, if any.
    Path { single: bool, builtin: Option<Ty> },
    /// An anonymous record type.
    Record { fields: Vec<(Name, TypeRef)> },
    /// Any other form.
    Other,
}

/// One variant of an algebraic data type.
pub struct Variant {
    pub name: Name,
    pub fields: Vec<TypeRef>,
}

/// The body of a type definition.
pub enum TypeDefKind {
    Adt { variants: Vec<Variant> },
    Record { fields: Vec<(Name, TypeRef)> },
    Alias(TypeRef),
}

/// A type definition.
pub struct TypeItem {
    pub name: Name,
    pub kind: TypeDefKind,
}

/// The type definitions of a program.
pub struct ItemTree {
    pub types: Vec<TypeItem>,
}

/// Binary operators.
#[derive(Clone, Copy, Debug, PartialEq, Eq, Structural)]
pub enum BinaryOp {
    Add,
    Sub,
    Mul,
    Div,
    Mod,
    Eq,
    NotEq,
    Lt,
    Gt,
    LtEq,
    GtEq,
    And,
    Or,
    BitAnd,
    BitOr,
    BitXor,
    Shl,
    Shr,
}

/// Unary operators.
#[derive(Clone, Copy, Debug, PartialEq, Eq, Structural)]
pub enum UnaryOp {
    Neg,
    Not,
    BitNot,
}

/// Literal constants.
#[derive(Debug)]
pub enum Constant {
    Int(i64),
    /// A float constant, given by its IEEE 754 bit pattern.
    Float(u64),
    Bool(bool),
    Unit,
    String(String),
    /// A character, given by its Unicode scalar value.
    Char(u32),
}

/// Builtin operations that calls can name, by their names in the language.
#[derive(Debug)]
pub enum Intrinsic {
    CharCode,
    CharIsDecimalDigit,
    CharToDecimalDigit,
    CharToDigit,
    CharToString,
    Abs,
    FloatAbs,
    FloatMax,
    FloatIsFinite,
    FloatIsInfinite,
    FloatIsNan,
    FloatMin,
    FloatToInt,
    Gcd,
    IntPow,
    IntToFloat,
    Lcm,
    IntToString,
    Max,
    Min,
    SeqRange,
    SeqAny,
    SeqAll,
    SeqCount,
    SeqCountBy,
    SeqContains,
    SeqFind,
    SeqFold,
    OptionUnwrapOr,
    OptionMap,
    OptionAndThen,
    OptionMapOr,
    ResultUnwrapOr,
    ResultMap,
    ResultAndThen,
    ResultMapErr,
    ResultMapOr,
    ParseFloat,
    ParseInt,
    StringContains,
    StringChars,
    StringConcat,
    StringEndsWith,
    StringLines,
    StringSplit,
    StringMd5,
    StringLen,
    StringStartsWith,
    StringStartsWithFrom,
    StringSubstring,
    StringToLower,
    StringToUpper,
    StringTrim,
    ReadFile,
    Print,
    Println,
    /// Any other intrinsic, by its name.
    Other(String),
}

/// The callee of a call.
#[derive(Debug)]
pub enum CallTarget {
    Direct(Name),
    Indirect(ValueId),
    Intrinsic(Intrinsic),
}

/// One SSA instruction.
#[derive(Debug)]
#[allow(inconsistent_fields)]
pub enum Inst {
    FnParam { index: u32 },
    BlockParam { block: BlockId, index: u32 },
    Const(Constant),
    Binary { op: BinaryOp, lhs: ValueId, rhs: ValueId },
    Unary { op: UnaryOp, operand: ValueId },
    Call { target: CallTarget, args: Vec<ValueId> },
    AdtConstruct { type_def: TypeItemIdx, variant: Name, fields: Vec<ValueId> },
    AdtFieldGet { base: ValueId, field_index: u32 },
    RecordCreate { fields: Vec<(Name, ValueId)> },
    FieldGet { base: ValueId, field: Name },
    Assert { condition: ValueId },
    RecordUpdate { base: ValueId, updates: Vec<(Name, ValueId)> },
    Hole,
    FnRef { name: Name },
    ClosureCreate { name: Name, captures: Vec<ValueId> },
}

/// A value: the instruction that defines it and its type.
pub struct ValueDef {
    pub inst: Inst,
    pub ty: Ty,
}

/// A jump to a block, with the arguments for its parameters.
pub struct BranchTarget {
    pub block: BlockId,
    pub args: Vec<ValueId>,
}

/// One arm of a switch on an ADT value.
pub struct SwitchCase {
    pub variant: Name,
    pub target: BranchTarget,
}

/// How a block ends.
pub enum Terminator {
    Return(ValueId),
    Jump(BranchTarget),
    Branch { condition: ValueId, then_target: BranchTarget, else_target: BranchTarget },
    Switch { scrutinee: ValueId, cases: Vec<SwitchCase>, default: Option<BranchTarget> },
    Unreachable,
}

/// A block parameter.
pub struct BlockParamDef {
    pub value: ValueId,
}

/// A basic block.
pub struct Block {
    pub params: Vec<BlockParamDef>,
    pub body: Vec<ValueId>,
    pub terminator: Option<Terminator>,
}

/// A function of the module.
pub struct KirFunction {
    pub name: Name,
    pub params: Vec<(Name, Ty)>,
    pub ret_ty: Ty,
    pub blocks: Vec<Block>,
    pub values: Vec<ValueDef>,
    pub entry_block: BlockId,
    /// Types of the trailing parameters that hold closure captures.
    pub closure_capture_tys: Vec<Ty>,
}

/// A module: its functions in order.
pub struct KirModule {
    pub functions: Vec<KirFunction>,
}

impl Ty {
    /// Whether the type stands for an ill-typed or unreachable value.
    pub open spec fn spec_is_poison(&self) -> bool {
        self is Error || self is Never
    }

    /// Whether the type stands for an ill-typed or unreachable value.
    #[verifier::when_used_as_spec(spec_is_poison)]
    pub fn is_poison(&self) -> (r: bool)
        ensures
            r == self.spec_is_poison(),
    {
        matches!(self, Ty::Error | Ty::Never)
    }
}

impl BinaryOp {
    /// Whether the operator yields a `Bool`.
    pub open spec fn spec_returns_bool(self) -> bool {
        self is Eq || self is NotEq || self is Lt || self is Gt || self is LtEq || self is GtEq
            || self is And || self is Or
    }

    /// Whether the operator yields a `Bool`.
    #[verifier::when_used_as_spec(spec_returns_bool)]
    pub fn returns_bool(self) -> (r: bool)
        ensures
            r == self.spec_returns_bool(),
    {
        matches!(
            self,
            BinaryOp::Eq | BinaryOp::NotEq | BinaryOp::Lt | BinaryOp::Gt | BinaryOp::LtEq
                | BinaryOp::GtEq | BinaryOp::And | BinaryOp::Or
        )
    }
}

impl Interner {
    /// The text of a name; a name that the interner does not hold reads as empty.
    pub open spec fn spec_text(&self, n: Name) -> Seq<char> {
        if n < self.names@.len() {
            self.names@[n as int]@
        } else {
            Seq::empty()
        }
    }

    /// The text of a name.
    pub fn text(&self, n: Name) -> (r: &str)
        ensures
            r@ == self.spec_text(n),
    {
        if (n as usize) < self.names.len() {
            self.names[n as usize].as_str()
        } else {
            proof {
                reveal_strlit("");
            }
            ""
        }
    }

    /// Whether the text of a name is `lit`.
    pub fn text_is(&self, n: Name, lit: &str) -> (r: bool)
        ensures
            r == (self.spec_text(n) == lit@),
    {
        str_eq(self.text(n), lit)
    }
}

/// Whether two strings have the same characters.
pub fn str_eq(a: &str, b: &str) -> (r: bool)
    ensures
        r == (a@ == b@),
{
    broadcast use vstd::utf8::encode_utf8_decode_utf8;

    let x = a.as_bytes();
    let y = b.as_bytes();
    if x.len() != y.len() {
        assert(a@ != b@) by {
            if a@ == b@ {
                assert(a.spec_bytes() == b.spec_bytes());
            }
        }
        return false;
    }
    let mut i: usize = 0;
    while i < x.len()
        invariant
            x@ == a.spec_bytes(),
            y@ == b.spec_bytes(),
            x@.len() == y@.len(),
            0 <= i <= x@.len(),
            forall|k: int| 0 <= k < i ==> x@[k] == y@[k],
        decreases x@.len() - i,
    {
        if x[i] != y[i] {
            assert(a@ != b@) by {
                if a@ == b@ {
                    assert(a.spec_bytes() == b.spec_bytes());
                }
            }
            return false;
        }
        i = i + 1;
    }
    assert(x@ =~= y@);
    assert(vstd::utf8::decode_utf8(a.spec_bytes()) == a@);
    assert(vstd::utf8::decode_utf8(b.spec_bytes()) == b@);
    true
}

/// Whether `s` is the name of a known intrinsic.
pub open spec fn is_known_intrinsic_name(s: Seq<char>) -> bool {
    s == "char_code"@
            || s == "char_is_decimal_digit"@
            || s == "char_to_decimal_digit"@
            || s == "char_to_digit"@
            || s == "char_to_string"@
            || s == "abs"@
            || s == "float_abs"@
            || s == "float_max"@
            || s == "float_is_finite"@
            || s == "float_is_infinite"@
            || s == "float_is_nan"@
            || s == "float_min"@
            || s == "float_to_int"@
            || s == "gcd"@
            || s == "int_pow"@
            || s == "int_to_float"@
            || s == "lcm"@
            || s == "int_to_string"@
            || s == "max"@
            || s == "min"@
            || s == "seq_range"@
            || s == "seq_any"@
            || s == "seq_all"@
            || s == "seq_count"@
            || s == "seq_count_by"@
            || s == "seq_contains"@
            || s == "seq_find"@
            || s == "seq_fold"@
            || s == "option_unwrap_or"@
            || s == "option_map"@
            || s == "option_and_then"@
            || s == "option_map_or"@
            || s == "result_unwrap_or"@
            || s == "result_map"@
            || s == "result_and_then"@
            || s == "result_map_err"@
            || s == "result_map_or"@
            || s == "parse_float"@
            || s == "parse_int"@
            || s == "string_contains"@
            || s == "string_chars"@
            || s == "string_concat"@
            || s == "string_ends_with"@
            || s == "string_lines"@
            || s == "string_split"@
            || s == "string_md5"@
            || s == "string_len"@
            || s == "string_starts_with"@
            || s == "string_starts_with_from"@
            || s == "string_substring"@
            || s == "string_to_lower"@
            || s == "string_to_upper"@
            || s == "string_trim"@
            || s == "read_file"@
            || s == "print"@
            || s == "println"@
}

impl Intrinsic {
    /// The name of the intrinsic in the language.
    pub open spec fn spec_name(&self) -> Seq<char> {
        match self {
            Intrinsic::CharCode => "char_code"@,
            Intrinsic::CharIsDecimalDigit => "char_is_decimal_digit"@,
            Intrinsic::CharToDecimalDigit => "char_to_decimal_digit"@,
            Intrinsic::CharToDigit => "char_to_digit"@,
            Intrinsic::CharToString => "char_to_string"@,
            Intrinsic::Abs => "abs"@,
            Intrinsic::FloatAbs => "float_abs"@,
            Intrinsic::FloatMax => "float_max"@,
            Intrinsic::FloatIsFinite => "float_is_finite"@,
            Intrinsic::FloatIsInfinite => "float_is_infinite"@,
            Intrinsic::FloatIsNan => "float_is_nan"@,
            Intrinsic::FloatMin => "float_min"@,
            Intrinsic::FloatToInt => "float_to_int"@,
            Intrinsic::Gcd => "gcd"@,
            Intrinsic::IntPow => "int_pow"@,
            Intrinsic::IntToFloat => "int_to_float"@,
            Intrinsic::Lcm => "lcm"@,
            Intrinsic::IntToString => "int_to_string"@,
            Intrinsic::Max => "max"@,
            Intrinsic::Min => "min"@,
            Intrinsic::SeqRange => "seq_range"@,
            Intrinsic::SeqAny => "seq_any"@,
            Intrinsic::SeqAll => "seq_all"@,
            Intrinsic::SeqCount => "seq_count"@,
            Intrinsic::SeqCountBy => "seq_count_by"@,
            Intrinsic::SeqContains => "seq_contains"@,
            Intrinsic::SeqFind => "seq_find"@,
            Intrinsic::SeqFold => "seq_fold"@,
            Intrinsic::OptionUnwrapOr => "option_unwrap_or"@,
            Intrinsic::OptionMap => "option_map"@,
            Intrinsic::OptionAndThen => "option_and_then"@,
            Intrinsic::OptionMapOr => "option_map_or"@,
            Intrinsic::ResultUnwrapOr => "result_unwrap_or"@,
            Intrinsic::ResultMap => "result_map"@,
            Intrinsic::ResultAndThen => "result_and_then"@,
            Intrinsic::ResultMapErr => "result_map_err"@,
            Intrinsic::ResultMapOr => "result_map_or"@,
            Intrinsic::ParseFloat => "parse_float"@,
            Intrinsic::ParseInt => "parse_int"@,
            Intrinsic::StringContains => "string_contains"@,
            Intrinsic::StringChars => "string_chars"@,
            Intrinsic::StringConcat => "string_concat"@,
            Intrinsic::StringEndsWith => "string_ends_with"@,
            Intrinsic::StringLines => "string_lines"@,
            Intrinsic::StringSplit => "string_split"@,
            Intrinsic::StringMd5 => "string_md5"@,
            Intrinsic::StringLen => "string_len"@,
            Intrinsic::StringStartsWith => "string_starts_with"@,
            Intrinsic::StringStartsWithFrom => "string_starts_with_from"@,
            Intrinsic::StringSubstring => "string_substring"@,
            Intrinsic::StringToLower => "string_to_lower"@,
            Intrinsic::StringToUpper => "string_to_upper"@,
            Intrinsic::StringTrim => "string_trim"@,
            Intrinsic::ReadFile => "read_file"@,
            Intrinsic::Print => "print"@,
            Intrinsic::Println => "println"@,
            Intrinsic::Other(n) => n@,
        }
    }

    /// The name of the intrinsic in the language.
    pub fn name(&self) -> (r: &str)
        ensures
            r@ == self.spec_name(),
    {
        match self {
            Intrinsic::CharCode => "char_code",
            Intrinsic::CharIsDecimalDigit => "char_is_decimal_digit",
            Intrinsic::CharToDecimalDigit => "char_to_decimal_digit",
            Intrinsic::CharToDigit => "char_to_digit",
            Intrinsic::CharToString => "char_to_string",
            Intrinsic::Abs => "abs",
            Intrinsic::FloatAbs => "float_abs",
            Intrinsic::FloatMax => "float_max",
            Intrinsic::FloatIsFinite => "float_is_finite",
            Intrinsic::FloatIsInfinite => "float_is_infinite",
            Intrinsic::FloatIsNan => "float_is_nan",
            Intrinsic::FloatMin => "float_min",
            Intrinsic::FloatToInt => "float_to_int",
            Intrinsic::Gcd => "gcd",
            Intrinsic::IntPow => "int_pow",
            Intrinsic::IntToFloat => "int_to_float",
            Intrinsic::Lcm => "lcm",
            Intrinsic::IntToString => "int_to_string",
            Intrinsic::Max => "max",
            Intrinsic::Min => "min",
            Intrinsic::SeqRange => "seq_range",
            Intrinsic::SeqAny => "seq_any",
            Intrinsic::SeqAll => "seq_all",
            Intrinsic::SeqCount => "seq_count",
            Intrinsic::SeqCountBy => "seq_count_by",
            Intrinsic::SeqContains => "seq_contains",
            Intrinsic::SeqFind => "seq_find",
            Intrinsic::SeqFold => "seq_fold",
            Intrinsic::OptionUnwrapOr => "option_unwrap_or",
            Intrinsic::OptionMap => "option_map",
            Intrinsic::OptionAndThen => "option_and_then",
            Intrinsic::OptionMapOr => "option_map_or",
            Intrinsic::ResultUnwrapOr => "result_unwrap_or",
            Intrinsic::ResultMap => "result_map",
            Intrinsic::ResultAndThen => "result_and_then",
            Intrinsic::ResultMapErr => "result_map_err",
            Intrinsic::ResultMapOr => "result_map_or",
            Intrinsic::ParseFloat => "parse_float",
            Intrinsic::ParseInt => "parse_int",
            Intrinsic::StringContains => "string_contains",
            Intrinsic::StringChars => "string_chars",
            Intrinsic::StringConcat => "string_concat",
            Intrinsic::StringEndsWith => "string_ends_with",
            Intrinsic::StringLines => "string_lines",
            Intrinsic::StringSplit => "string_split",
            Intrinsic::StringMd5 => "string_md5",
            Intrinsic::StringLen => "string_len",
            Intrinsic::StringStartsWith => "string_starts_with",
            Intrinsic::StringStartsWithFrom => "string_starts_with_from",
            Intrinsic::StringSubstring => "string_substring",
            Intrinsic::StringToLower => "string_to_lower",
            Intrinsic::StringToUpper => "string_to_upper",
            Intrinsic::StringTrim => "string_trim",
            Intrinsic::ReadFile => "read_file",
            Intrinsic::Print => "print",
            Intrinsic::Println => "println",
            Intrinsic::Other(n) => n.as_str(),
        }
    }

    /// The intrinsic with the given name; a name that no known intrinsic has gives
    /// `Other`.
    pub fn from_name(name: &str) -> (r: Intrinsic)
        ensures
            r.spec_name() == name@,
            r is Other <==> !is_known_intrinsic_name(name@),
            forall|i: Intrinsic| !(i is Other) && #[trigger] i.spec_name() == name@ ==> r == i,
    {
        let r = Self::lookup_name(name);
        assert forall|i: Intrinsic| !(i is Other) && #[trigger] i.spec_name() == name@ implies r == i by {
            if r is Other {
                Self::lemma_known_name(i);
            } else {
                Self::lemma_name_injective(r, i);
            }
        }
        r
    }

    /// The name of a known intrinsic is a known name.
    proof fn lemma_known_name(i: Intrinsic)
        requires
            !(i is Other),
        ensures
            is_known_intrinsic_name(i.spec_name()),
    {
    }

    /// Two known intrinsics with the same name are the same intrinsic, so the name of
    /// a known intrinsic leads back to it.
    #[verifier::rlimit(100)]
    #[verifier::spinoff_prover]
    pub proof fn lemma_name_injective(a: Intrinsic, b: Intrinsic)
        requires
            !(a is Other),
            !(b is Other),
            a.spec_name() == b.spec_name(),
        ensures
            a == b,
    {
        reveal_strlit("char_code");
        reveal_strlit("char_is_decimal_digit");
        reveal_strlit("char_to_decimal_digit");
        reveal_strlit("char_to_digit");
        reveal_strlit("char_to_string");
        reveal_strlit("abs");
        reveal_strlit("float_abs");
        reveal_strlit("float_max");
        reveal_strlit("float_is_finite");
        reveal_strlit("float_is_infinite");
        reveal_strlit("float_is_nan");
        reveal_strlit("float_min");
        reveal_strlit("float_to_int");
        reveal_strlit("gcd");
        reveal_strlit("int_pow");
        reveal_strlit("int_to_float");
        reveal_strlit("lcm");
        reveal_strlit("int_to_string");
        reveal_strlit("max");
        reveal_strlit("min");
        reveal_strlit("seq_range");
        reveal_strlit("seq_any");
        reveal_strlit("seq_all");
        reveal_strlit("seq_count");
        reveal_strlit("seq_count_by");
        reveal_strlit("seq_contains");
        reveal_strlit("seq_find");
        reveal_strlit("seq_fold");
        reveal_strlit("option_unwrap_or");
        reveal_strlit("option_map");
        reveal_strlit("option_and_then");
        reveal_strlit("option_map_or");
        reveal_strlit("result_unwrap_or");
        reveal_strlit("result_map");
        reveal_strlit("result_and_then");
        reveal_strlit("result_map_err");
        reveal_strlit("result_map_or");
        reveal_strlit("parse_float");
        reveal_strlit("parse_int");
        reveal_strlit("string_contains");
        reveal_strlit("string_chars");
        reveal_strlit("string_concat");
        reveal_strlit("string_ends_with");
        reveal_strlit("string_lines");
        reveal_strlit("string_split");
        reveal_strlit("string_md5");
        reveal_strlit("string_len");
        reveal_strlit("string_starts_with");
        reveal_strlit("string_starts_with_from");
        reveal_strlit("string_substring");
        reveal_strlit("string_to_lower");
        reveal_strlit("string_to_upper");
        reveal_strlit("string_trim");
        reveal_strlit("read_file");
        reveal_strlit("print");
        reveal_strlit("println");
        match a {
            Intrinsic::CharCode => {
                reveal_strlit("char_code");
                let n = b.spec_name();
                assert(n.len() == 9);
                assert(n[0] == 'c');
                assert(n[1] == 'h');
                assert(n[2] == 'a');
                assert(n[3] == 'r');
                assert(n[4] == '_');
                assert(n[5] == 'c');
                assert(n[6] == 'o');
                assert(n[7] == 'd');
                assert(n[8] == 'e');
            },
            Intrinsic::CharIsDecimalDigit => {
                reveal_strlit("char_is_decimal_digit");
                let n = b.spec_name();
                assert(n.len() == 21);
                assert(n[0] == 'c');
                assert(n[1] == 'h');
                assert(n[2] == 'a');
                assert(n[3] == 'r');
                assert(n[4] == '_');
                assert(n[5] == 'i');
                assert(n[6] == 's');
                assert(n[7] == '_');
                assert(n[8] == 'd');
                assert(n[9] == 'e');
                assert(n[10] == 'c');
                assert(n[11] == 'i');
                assert(n[12] == 'm');
                assert(n[13] == 'a');
                assert(n[14] == 'l');
                assert(n[15] == '_');
                assert(n[16] == 'd');
                assert(n[17] == 'i');
                assert(n[18] == 'g');
                assert(n[19] == 'i');
                assert(n[20] == 't');
            },
            Intrinsic::CharToDecimalDigit => {
                reveal_strlit("char_to_decimal_digit");
                let n = b.spec_name();
                assert(n.len() == 21);
                assert(n[0] == 'c');
                assert(n[1] == 'h');
                assert(n[2] == 'a');
                assert(n[3] == 'r');
                assert(n[4] == '_');
                assert(n[5] == 't');
                assert(n[6] == 'o');
                assert(n[7] == '_');
                assert(n[8] == 'd');
                assert(n[9] == 'e');
                assert(n[10] == 'c');
                assert(n[11] == 'i');
                assert(n[12] == 'm');
                assert(n[13] == 'a');
                assert(n[14] == 'l');
                assert(n[15] == '_');
                assert(n[16] == 'd');
                assert(n[17] == 'i');
                assert(n[18] == 'g');
                assert(n[19] == 'i');
                assert(n[20] == 't');
            },
            Intrinsic::CharToDigit => {
                reveal_strlit("char_to_digit");
                let n = b.spec_name();
                assert(n.len() == 13);
                assert(n[0] == 'c');
                assert(n[1] == 'h');
                assert(n[2] == 'a');
                assert(n[3] == 'r');
                assert(n[4] == '_');
                assert(n[5] == 't');
                assert(n[6] == 'o');
                assert(n[7] == '_');
                assert(n[8] == 'd');
                assert(n[9] == 'i');
                assert(n[10] == 'g');
                assert(n[11] == 'i');
                assert(n[12] == 't');
            },
            Intrinsic::CharToString => {
                reveal_strlit("char_to_string");
                let n = b.spec_name();
                assert(n.len() == 14);
                assert(n[0] == 'c');
                assert(n[1] == 'h');
                assert(n[2] == 'a');
                assert(n[3] == 'r');
                assert(n[4] == '_');
                assert(n[5] == 't');
                assert(n[6] == 'o');
                assert(n[7] == '_');
                assert(n[8] == 's');
                assert(n[9] == 't');
                assert(n[10] == 'r');
                assert(n[11] == 'i');
                assert(n[12] == 'n');
                assert(n[13] == 'g');
            },
            Intrinsic::Abs => {
                reveal_strlit("abs");
                let n = b.spec_name();
                assert(n.len() == 3);
                assert(n[0] == 'a');
                assert(n[1] == 'b');
                assert(n[2] == 's');
            },
            Intrinsic::FloatAbs => {
                reveal_strlit("float_abs");
                let n = b.spec_name();
                assert(n.len() == 9);
                assert(n[0] == 'f');
                assert(n[1] == 'l');
                assert(n[2] == 'o');
                assert(n[3] == 'a');
                assert(n[4] == 't');
                assert(n[5] == '_');
                assert(n[6] == 'a');
                assert(n[7] == 'b');
                assert(n[8] == 's');
            },
            Intrinsic::FloatMax => {
                reveal_strlit("float_max");
                let n = b.spec_name();
                assert(n.len() == 9);
                assert(n[0] == 'f');
                assert(n[1] == 'l');
                assert(n[2] == 'o');
                assert(n[3] == 'a');
                assert(n[4] == 't');
                assert(n[5] == '_');
                assert(n[6] == 'm');
                assert(n[7] == 'a');
                assert(n[8] == 'x');
            },
            Intrinsic::FloatIsFinite => {
                reveal_strlit("float_is_finite");
                let n = b.spec_name();
                assert(n.len() == 15);
                assert(n[0] == 'f');
                assert(n[1] == 'l');
                assert(n[2] == 'o');
                assert(n[3] == 'a');
                assert(n[4] == 't');
                assert(n[5] == '_');
                assert(n[6] == 'i');
                assert(n[7] == 's');
                assert(n[8] == '_');
                assert(n[9] == 'f');
                assert(n[10] == 'i');
                assert(n[11] == 'n');
                assert(n[12] == 'i');
                assert(n[13] == 't');
                assert(n[14] == 'e');
            },
            Intrinsic::FloatIsInfinite => {
                reveal_strlit("float_is_infinite");
                let n = b.spec_name();
                assert(n.len() == 17);
                assert(n[0] == 'f');
                assert(n[1] == 'l');
                assert(n[2] == 'o');
                assert(n[3] == 'a');
                assert(n[4] == 't');
                assert(n[5] == '_');
                assert(n[6] == 'i');
                assert(n[7] == 's');
                assert(n[8] == '_');
                assert(n[9] == 'i');
                assert(n[10] == 'n');
                assert(n[11] == 'f');
                assert(n[12] == 'i');
                assert(n[13] == 'n');
                assert(n[14] == 'i');
                assert(n[15] == 't');
                assert(n[16] == 'e');
            },
            Intrinsic::FloatIsNan => {
                reveal_strlit("float_is_nan");
                let n = b.spec_name();
                assert(n.len() == 12);
                assert(n[0] == 'f');
                assert(n[1] == 'l');
                assert(n[2] == 'o');
                assert(n[3] == 'a');
                assert(n[4] == 't');
                assert(n[5] == '_');
                assert(n[6] == 'i');
                assert(n[7] == 's');
                assert(n[8] == '_');
                assert(n[9] == 'n');
                assert(n[10] == 'a');
                assert(n[11] == 'n');
            },
            Intrinsic::FloatMin => {
                reveal_strlit("float_min");
                let n = b.spec_name();
                assert(n.len() == 9);
                assert(n[0] == 'f');
                assert(n[1] == 'l');
                assert(n[2] == 'o');
                assert(n[3] == 'a');
                assert(n[4] == 't');
                assert(n[5] == '_');
                assert(n[6] == 'm');
                assert(n[7] == 'i');
                assert(n[8] == 'n');
            },
            Intrinsic::FloatToInt => {
                reveal_strlit("float_to_int");
                let n = b.spec_name();
                assert(n.len() == 12);
                assert(n[0] == 'f');
                assert(n[1] == 'l');
                assert(n[2] == 'o');
                assert(n[3] == 'a');
                assert(n[4] == 't');
                assert(n[5] == '_');
                assert(n[6] == 't');
                assert(n[7] == 'o');
                assert(n[8] == '_');
                assert(n[9] == 'i');
                assert(n[10] == 'n');
                assert(n[11] == 't');
            },
            Intrinsic::Gcd => {
                reveal_strlit("gcd");
                let n = b.spec_name();
                assert(n.len() == 3);
                assert(n[0] == 'g');
                assert(n[1] == 'c');
                assert(n[2] == 'd');
            },
            Intrinsic::IntPow => {
                reveal_strlit("int_pow");
                let n = b.spec_name();
                assert(n.len() == 7);
                assert(n[0] == 'i');
                assert(n[1] == 'n');
                assert(n[2] == 't');
                assert(n[3] == '_');
                assert(n[4] == 'p');
                assert(n[5] == 'o');
                assert(n[6] == 'w');
            },
            Intrinsic::IntToFloat => {
                reveal_strlit("int_to_float");
                let n = b.spec_name();
                assert(n.len() == 12);
                assert(n[0] == 'i');
                assert(n[1] == 'n');
                assert(n[2] == 't');
                assert(n[3] == '_');
                assert(n[4] == 't');
                assert(n[5] == 'o');
                assert(n[6] == '_');
                assert(n[7] == 'f');
                assert(n[8] == 'l');
                assert(n[9] == 'o');
                assert(n[10] == 'a');
                assert(n[11] == 't');
            },
            Intrinsic::Lcm => {
                reveal_strlit("lcm");
                let n = b.spec_name();
                assert(n.len() == 3);
                assert(n[0] == 'l');
                assert(n[1] == 'c');
                assert(n[2] == 'm');
            },
            Intrinsic::IntToString => {
                reveal_strlit("int_to_string");
                let n = b.spec_name();
                assert(n.len() == 13);
                assert(n[0] == 'i');
                assert(n[1] == 'n');
                assert(n[2] == 't');
                assert(n[3] == '_');
                assert(n[4] == 't');
                assert(n[5] == 'o');
                assert(n[6] == '_');
                assert(n[7] == 's');
                assert(n[8] == 't');
                assert(n[9] == 'r');
                assert(n[10] == 'i');
                assert(n[11] == 'n');
                assert(n[12] == 'g');
            },
            Intrinsic::Max => {
                reveal_strlit("max");
                let n = b.spec_name();
                assert(n.len() == 3);
                assert(n[0] == 'm');
                assert(n[1] == 'a');
                assert(n[2] == 'x');
            },
            Intrinsic::Min => {
                reveal_strlit("min");
                let n = b.spec_name();
                assert(n.len() == 3);
                assert(n[0] == 'm');
                assert(n[1] == 'i');
                assert(n[2] == 'n');
            },
            Intrinsic::SeqRange => {
                reveal_strlit("seq_range");
                let n = b.spec_name();
                assert(n.len() == 9);
                assert(n[0] == 's');
                assert(n[1] == 'e');
                assert(n[2] == 'q');
                assert(n[3] == '_');
                assert(n[4] == 'r');
                assert(n[5] == 'a');
                assert(n[6] == 'n');
                assert(n[7] == 'g');
                assert(n[8] == 'e');
            },
            Intrinsic::SeqAny => {
                reveal_strlit("seq_any");
                let n = b.spec_name();
                assert(n.len() == 7);
                assert(n[0] == 's');
                assert(n[1] == 'e');
                assert(n[2] == 'q');
                assert(n[3] == '_');
                assert(n[4] == 'a');
                assert(n[5] == 'n');
                assert(n[6] == 'y');
            },
            Intrinsic::SeqAll => {
                reveal_strlit("seq_all");
                let n = b.spec_name();
                assert(n.len() == 7);
                assert(n[0] == 's');
                assert(n[1] == 'e');
                assert(n[2] == 'q');
                assert(n[3] == '_');
                assert(n[4] == 'a');
                assert(n[5] == 'l');
                assert(n[6] == 'l');
            },
            Intrinsic::SeqCount => {
                reveal_strlit("seq_count");
                let n = b.spec_name();
                assert(n.len() == 9);
                assert(n[0] == 's');
                assert(n[1] == 'e');
                assert(n[2] == 'q');
                assert(n[3] == '_');
                assert(n[4] == 'c');
                assert(n[5] == 'o');
                assert(n[6] == 'u');
                assert(n[7] == 'n');
                assert(n[8] == 't');
            },
            Intrinsic::SeqCountBy => {
                reveal_strlit("seq_count_by");
                let n = b.spec_name();
                assert(n.len() == 12);
                assert(n[0] == 's');
                assert(n[1] == 'e');
                assert(n[2] == 'q');
                assert(n[3] == '_');
                assert(n[4] == 'c');
                assert(n[5] == 'o');
                assert(n[6] == 'u');
                assert(n[7] == 'n');
                assert(n[8] == 't');
                assert(n[9] == '_');
                assert(n[10] == 'b');
                assert(n[11] == 'y');
            },
            Intrinsic::SeqContains => {
                reveal_strlit("seq_contains");
                let n = b.spec_name();
                assert(n.len() == 12);
                assert(n[0] == 's');
                assert(n[1] == 'e');
                assert(n[2] == 'q');
                assert(n[3] == '_');
                assert(n[4] == 'c');
                assert(n[5] == 'o');
                assert(n[6] == 'n');
                assert(n[7] == 't');
                assert(n[8] == 'a');
                assert(n[9] == 'i');
                assert(n[10] == 'n');
                assert(n[11] == 's');
            },
            Intrinsic::SeqFind => {
                reveal_strlit("seq_find");
                let n = b.spec_name();
                assert(n.len() == 8);
                assert(n[0] == 's');
                assert(n[1] == 'e');
                assert(n[2] == 'q');
                assert(n[3] == '_');
                assert(n[4] == 'f');
                assert(n[5] == 'i');
                assert(n[6] == 'n');
                assert(n[7] == 'd');
            },
            Intrinsic::SeqFold => {
                reveal_strlit("seq_fold");
                let n = b.spec_name();
                assert(n.len() == 8);
                assert(n[0] == 's');
                assert(n[1] == 'e');
                assert(n[2] == 'q');
                assert(n[3] == '_');
                assert(n[4] == 'f');
                assert(n[5] == 'o');
                assert(n[6] == 'l');
                assert(n[7] == 'd');
            },
            Intrinsic::OptionUnwrapOr => {
                reveal_strlit("option_unwrap_or");
                let n = b.spec_name();
                assert(n.len() == 16);
                assert(n[0] == 'o');
                assert(n[1] == 'p');
                assert(n[2] == 't');
                assert(n[3] == 'i');
                assert(n[4] == 'o');
                assert(n[5] == 'n');
                assert(n[6] == '_');
                assert(n[7] == 'u');
                assert(n[8] == 'n');
                assert(n[9] == 'w');
                assert(n[10] == 'r');
                assert(n[11] == 'a');
                assert(n[12] == 'p');
                assert(n[13] == '_');
                assert(n[14] == 'o');
                assert(n[15] == 'r');
            },
            Intrinsic::OptionMap => {
                reveal_strlit("option_map");
                let n = b.spec_name();
                assert(n.len() == 10);
                assert(n[0] == 'o');
                assert(n[1] == 'p');
                assert(n[2] == 't');
                assert(n[3] == 'i');
                assert(n[4] == 'o');
                assert(n[5] == 'n');
                assert(n[6] == '_');
                assert(n[7] == 'm');
                assert(n[8] == 'a');
                assert(n[9] == 'p');
            },
            Intrinsic::OptionAndThen => {
                reveal_strlit("option_and_then");
                let n = b.spec_name();
                assert(n.len() == 15);
                assert(n[0] == 'o');
                assert(n[1] == 'p');
                assert(n[2] == 't');
                assert(n[3] == 'i');
                assert(n[4] == 'o');
                assert(n[5] == 'n');
                assert(n[6] == '_');
                assert(n[7] == 'a');
                assert(n[8] == 'n');
                assert(n[9] == 'd');
                assert(n[10] == '_');
                assert(n[11] == 't');
                assert(n[12] == 'h');
                assert(n[13] == 'e');
                assert(n[14] == 'n');
            },
            Intrinsic::OptionMapOr => {
                reveal_strlit("option_map_or");
                let n = b.spec_name();
                assert(n.len() == 13);
                assert(n[0] == 'o');
                assert(n[1] == 'p');
                assert(n[2] == 't');
                assert(n[3] == 'i');
                assert(n[4] == 'o');
                assert(n[5] == 'n');
                assert(n[6] == '_');
                assert(n[7] == 'm');
                assert(n[8] == 'a');
                assert(n[9] == 'p');
                assert(n[10] == '_');
                assert(n[11] == 'o');
                assert(n[12] == 'r');
            },
            Intrinsic::ResultUnwrapOr => {
                reveal_strlit("result_unwrap_or");
                let n = b.spec_name();
                assert(n.len() == 16);
                assert(n[0] == 'r');
                assert(n[1] == 'e');
                assert(n[2] == 's');
                assert(n[3] == 'u');
                assert(n[4] == 'l');
                assert(n[5] == 't');
                assert(n[6] == '_');
                assert(n[7] == 'u');
                assert(n[8] == 'n');
                assert(n[9] == 'w');
                assert(n[10] == 'r');
                assert(n[11] == 'a');
                assert(n[12] == 'p');
                assert(n[13] == '_');
                assert(n[14] == 'o');
                assert(n[15] == 'r');
            },
            Intrinsic::ResultMap => {
                reveal_strlit("result_map");
                let n = b.spec_name();
                assert(n.len() == 10);
                assert(n[0] == 'r');
                assert(n[1] == 'e');
                assert(n[2] == 's');
                assert(n[3] == 'u');
                assert(n[4] == 'l');
                assert(n[5] == 't');
                assert(n[6] == '_');
                assert(n[7] == 'm');
                assert(n[8] == 'a');
                assert(n[9] == 'p');
            },
            Intrinsic::ResultAndThen => {
                reveal_strlit("result_and_then");
                let n = b.spec_name();
                assert(n.len() == 15);
                assert(n[0] == 'r');
                assert(n[1] == 'e');
                assert(n[2] == 's');
                assert(n[3] == 'u');
                assert(n[4] == 'l');
                assert(n[5] == 't');
                assert(n[6] == '_');
                assert(n[7] == 'a');
                assert(n[8] == 'n');
                assert(n[9] == 'd');
                assert(n[10] == '_');
                assert(n[11] == 't');
                assert(n[12] == 'h');
                assert(n[13] == 'e');
                assert(n[14] == 'n');
            },
            Intrinsic::ResultMapErr => {
                reveal_strlit("result_map_err");
                let n = b.spec_name();
                assert(n.len() == 14);
                assert(n[0] == 'r');
                assert(n[1] == 'e');
                assert(n[2] == 's');
                assert(n[3] == 'u');
                assert(n[4] == 'l');
                assert(n[5] == 't');
                assert(n[6] == '_');
                assert(n[7] == 'm');
                assert(n[8] == 'a');
                assert(n[9] == 'p');
                assert(n[10] == '_');
                assert(n[11] == 'e');
                assert(n[12] == 'r');
                assert(n[13] == 'r');
            },
            Intrinsic::ResultMapOr => {
                reveal_strlit("result_map_or");
                let n = b.spec_name();
                assert(n.len() == 13);
                assert(n[0] == 'r');
                assert(n[1] == 'e');
                assert(n[2] == 's');
                assert(n[3] == 'u');
                assert(n[4] == 'l');
                assert(n[5] == 't');
                assert(n[6] == '_');
                assert(n[7] == 'm');
                assert(n[8] == 'a');
                assert(n[9] == 'p');
                assert(n[10] == '_');
                assert(n[11] == 'o');
                assert(n[12] == 'r');
            },
            Intrinsic::ParseFloat => {
                reveal_strlit("parse_float");
                let n = b.spec_name();
                assert(n.len() == 11);
                assert(n[0] == 'p');
                assert(n[1] == 'a');
                assert(n[2] == 'r');
                assert(n[3] == 's');
                assert(n[4] == 'e');
                assert(n[5] == '_');
                assert(n[6] == 'f');
                assert(n[7] == 'l');
                assert(n[8] == 'o');
                assert(n[9] == 'a');
                assert(n[10] == 't');
            },
            Intrinsic::ParseInt => {
                reveal_strlit("parse_int");
                let n = b.spec_name();
                assert(n.len() == 9);
                assert(n[0] == 'p');
                assert(n[1] == 'a');
                assert(n[2] == 'r');
                assert(n[3] == 's');
                assert(n[4] == 'e');
                assert(n[5] == '_');
                assert(n[6] == 'i');
                assert(n[7] == 'n');
                assert(n[8] == 't');
            },
            Intrinsic::StringContains => {
                reveal_strlit("string_contains");
                let n = b.spec_name();
                assert(n.len() == 15);
                assert(n[0] == 's');
                assert(n[1] == 't');
                assert(n[2] == 'r');
                assert(n[3] == 'i');
                assert(n[4] == 'n');
                assert(n[5] == 'g');
                assert(n[6] == '_');
                assert(n[7] == 'c');
                assert(n[8] == 'o');
                assert(n[9] == 'n');
                assert(n[10] == 't');
                assert(n[11] == 'a');
                assert(n[12] == 'i');
                assert(n[13] == 'n');
                assert(n[14] == 's');
            },
            Intrinsic::StringChars => {
                reveal_strlit("string_chars");
                let n = b.spec_name();
                assert(n.len() == 12);
                assert(n[0] == 's');
                assert(n[1] == 't');
                assert(n[2] == 'r');
                assert(n[3] == 'i');
                assert(n[4] == 'n');
                assert(n[5] == 'g');
                assert(n[6] == '_');
                assert(n[7] == 'c');
                assert(n[8] == 'h');
                assert(n[9] == 'a');
                assert(n[10] == 'r');
                assert(n[11] == 's');
            },
            Intrinsic::StringConcat => {
                reveal_strlit("string_concat");
                let n = b.spec_name();
                assert(n.len() == 13);
                assert(n[0] == 's');
                assert(n[1] == 't');
                assert(n[2] == 'r');
                assert(n[3] == 'i');
                assert(n[4] == 'n');
                assert(n[5] == 'g');
                assert(n[6] == '_');
                assert(n[7] == 'c');
                assert(n[8] == 'o');
                assert(n[9] == 'n');
                assert(n[10] == 'c');
                assert(n[11] == 'a');
                assert(n[12] == 't');
            },
            Intrinsic::StringEndsWith => {
                reveal_strlit("string_ends_with");
                let n = b.spec_name();
                assert(n.len() == 16);
                assert(n[0] == 's');
                assert(n[1] == 't');
                assert(n[2] == 'r');
                assert(n[3] == 'i');
                assert(n[4] == 'n');
                assert(n[5] == 'g');
                assert(n[6] == '_');
                assert(n[7] == 'e');
                assert(n[8] == 'n');
                assert(n[9] == 'd');
                assert(n[10] == 's');
                assert(n[11] == '_');
                assert(n[12] == 'w');
                assert(n[13] == 'i');
                assert(n[14] == 't');
                assert(n[15] == 'h');
            },
            Intrinsic::StringLines => {
                reveal_strlit("string_lines");
                let n = b.spec_name();
                assert(n.len() == 12);
                assert(n[0] == 's');
                assert(n[1] == 't');
                assert(n[2] == 'r');
                assert(n[3] == 'i');
                assert(n[4] == 'n');
                assert(n[5] == 'g');
                assert(n[6] == '_');
                assert(n[7] == 'l');
                assert(n[8] == 'i');
                assert(n[9] == 'n');
                assert(n[10] == 'e');
                assert(n[11] == 's');
            },
            Intrinsic::StringSplit => {
                reveal_strlit("string_split");
                let n = b.spec_name();
                assert(n.len() == 12);
                assert(n[0] == 's');
                assert(n[1] == 't');
                assert(n[2] == 'r');
                assert(n[3] == 'i');
                assert(n[4] == 'n');
                assert(n[5] == 'g');
                assert(n[6] == '_');
                assert(n[7] == 's');
                assert(n[8] == 'p');
                assert(n[9] == 'l');
                assert(n[10] == 'i');
                assert(n[11] == 't');
            },
            Intrinsic::StringMd5 => {
                reveal_strlit("string_md5");
                let n = b.spec_name();
                assert(n.len() == 10);
                assert(n[0] == 's');
                assert(n[1] == 't');
                assert(n[2] == 'r');
                assert(n[3] == 'i');
                assert(n[4] == 'n');
                assert(n[5] == 'g');
                assert(n[6] == '_');
                assert(n[7] == 'm');
                assert(n[8] == 'd');
                assert(n[9] == '5');
            },
            Intrinsic::StringLen => {
                reveal_strlit("string_len");
                let n = b.spec_name();
                assert(n.len() == 10);
                assert(n[0] == 's');
                assert(n[1] == 't');
                assert(n[2] == 'r');
                assert(n[3] == 'i');
                assert(n[4] == 'n');
                assert(n[5] == 'g');
                assert(n[6] == '_');
                assert(n[7] == 'l');
                assert(n[8] == 'e');
                assert(n[9] == 'n');
            },
            Intrinsic::StringStartsWith => {
                reveal_strlit("string_starts_with");
                let n = b.spec_name();
                assert(n.len() == 18);
                assert(n[0] == 's');
                assert(n[1] == 't');
                assert(n[2] == 'r');
                assert(n[3] == 'i');
                assert(n[4] == 'n');
                assert(n[5] == 'g');
                assert(n[6] == '_');
                assert(n[7] == 's');
                assert(n[8] == 't');
                assert(n[9] == 'a');
                assert(n[10] == 'r');
                assert(n[11] == 't');
                assert(n[12] == 's');
                assert(n[13] == '_');
                assert(n[14] == 'w');
                assert(n[15] == 'i');
                assert(n[16] == 't');
                assert(n[17] == 'h');
            },
            Intrinsic::StringStartsWithFrom => {
                reveal_strlit("string_starts_with_from");
                let n = b.spec_name();
                assert(n.len() == 23);
                assert(n[0] == 's');
                assert(n[1] == 't');
                assert(n[2] == 'r');
                assert(n[3] == 'i');
                assert(n[4] == 'n');
                assert(n[5] == 'g');
                assert(n[6] == '_');
                assert(n[7] == 's');
                assert(n[8] == 't');
                assert(n[9] == 'a');
                assert(n[10] == 'r');
                assert(n[11] == 't');
                assert(n[12] == 's');
                assert(n[13] == '_');
                assert(n[14] == 'w');
                assert(n[15] == 'i');
                assert(n[16] == 't');
                assert(n[17] == 'h');
                assert(n[18] == '_');
                assert(n[19] == 'f');
                assert(n[20] == 'r');
                assert(n[21] == 'o');
                assert(n[22] == 'm');
            },
            Intrinsic::StringSubstring => {
                reveal_strlit("string_substring");
                let n = b.spec_name();
                assert(n.len() == 16);
                assert(n[0] == 's');
                assert(n[1] == 't');
                assert(n[2] == 'r');
                assert(n[3] == 'i');
                assert(n[4] == 'n');
                assert(n[5] == 'g');
                assert(n[6] == '_');
                assert(n[7] == 's');
                assert(n[8] == 'u');
                assert(n[9] == 'b');
                assert(n[10] == 's');
                assert(n[11] == 't');
                assert(n[12] == 'r');
                assert(n[13] == 'i');
                assert(n[14] == 'n');
                assert(n[15] == 'g');
            },
            Intrinsic::StringToLower => {
                reveal_strlit("string_to_lower");
                let n = b.spec_name();
                assert(n.len() == 15);
                assert(n[0] == 's');
                assert(n[1] == 't');
                assert(n[2] == 'r');
                assert(n[3] == 'i');
                assert(n[4] == 'n');
                assert(n[5] == 'g');
                assert(n[6] == '_');
                assert(n[7] == 't');
                assert(n[8] == 'o');
                assert(n[9] == '_');
                assert(n[10] == 'l');
                assert(n[11] == 'o');
                assert(n[12] == 'w');
                assert(n[13] == 'e');
                assert(n[14] == 'r');
            },
            Intrinsic::StringToUpper => {
                reveal_strlit("string_to_upper");
                let n = b.spec_name();
                assert(n.len() == 15);
                assert(n[0] == 's');
                assert(n[1] == 't');
                assert(n[2] == 'r');
                assert(n[3] == 'i');
                assert(n[4] == 'n');
                assert(n[5] == 'g');
                assert(n[6] == '_');
                assert(n[7] == 't');
                assert(n[8] == 'o');
                assert(n[9] == '_');
                assert(n[10] == 'u');
                assert(n[11] == 'p');
                assert(n[12] == 'p');
                assert(n[13] == 'e');
                assert(n[14] == 'r');
            },
            Intrinsic::StringTrim => {
                reveal_strlit("string_trim");
                let n = b.spec_name();
                assert(n.len() == 11);
                assert(n[0] == 's');
                assert(n[1] == 't');
                assert(n[2] == 'r');
                assert(n[3] == 'i');
                assert(n[4] == 'n');
                assert(n[5] == 'g');
                assert(n[6] == '_');
                assert(n[7] == 't');
                assert(n[8] == 'r');
                assert(n[9] == 'i');
                assert(n[10] == 'm');
            },
            Intrinsic::ReadFile => {
                reveal_strlit("read_file");
                let n = b.spec_name();
                assert(n.len() == 9);
                assert(n[0] == 'r');
                assert(n[1] == 'e');
                assert(n[2] == 'a');
                assert(n[3] == 'd');
                assert(n[4] == '_');
                assert(n[5] == 'f');
                assert(n[6] == 'i');
                assert(n[7] == 'l');
                assert(n[8] == 'e');
            },
            Intrinsic::Print => {
                reveal_strlit("print");
                let n = b.spec_name();
                assert(n.len() == 5);
                assert(n[0] == 'p');
                assert(n[1] == 'r');
                assert(n[2] == 'i');
                assert(n[3] == 'n');
                assert(n[4] == 't');
            },
            Intrinsic::Println => {
                reveal_strlit("println");
                let n = b.spec_name();
                assert(n.len() == 7);
                assert(n[0] == 'p');
                assert(n[1] == 'r');
                assert(n[2] == 'i');
                assert(n[3] == 'n');
                assert(n[4] == 't');
                assert(n[5] == 'l');
                assert(n[6] == 'n');
            },
            Intrinsic::Other(_) => {},
        }
    }

    /// The intrinsic named `name`, read by comparing with each known name in turn.
    fn lookup_name(name: &str) -> (r: Intrinsic)
        ensures
            r.spec_name() == name@,
            r is Other <==> !is_known_intrinsic_name(name@),
    {
        proof {
            reveal_strlit("char_code");
            reveal_strlit("char_is_decimal_digit");
            reveal_strlit("char_to_decimal_digit");
            reveal_strlit("char_to_digit");
            reveal_strlit("char_to_string");
            reveal_strlit("abs");
            reveal_strlit("float_abs");
            reveal_strlit("float_max");
            reveal_strlit("float_is_finite");
            reveal_strlit("float_is_infinite");
            reveal_strlit("float_is_nan");
            reveal_strlit("float_min");
            reveal_strlit("float_to_int");
            reveal_strlit("gcd");
            reveal_strlit("int_pow");
            reveal_strlit("int_to_float");
            reveal_strlit("lcm");
            reveal_strlit("int_to_string");
            reveal_strlit("max");
            reveal_strlit("min");
            reveal_strlit("seq_range");
            reveal_strlit("seq_any");
            reveal_strlit("seq_all");
            reveal_strlit("seq_count");
            reveal_strlit("seq_count_by");
            reveal_strlit("seq_contains");
            reveal_strlit("seq_find");
            reveal_strlit("seq_fold");
            reveal_strlit("option_unwrap_or");
            reveal_strlit("option_map");
            reveal_strlit("option_and_then");
            reveal_strlit("option_map_or");
            reveal_strlit("result_unwrap_or");
            reveal_strlit("result_map");
            reveal_strlit("result_and_then");
            reveal_strlit("result_map_err");
            reveal_strlit("result_map_or");
            reveal_strlit("parse_float");
            reveal_strlit("parse_int");
            reveal_strlit("string_contains");
            reveal_strlit("string_chars");
            reveal_strlit("string_concat");
            reveal_strlit("string_ends_with");
            reveal_strlit("string_lines");
            reveal_strlit("string_split");
            reveal_strlit("string_md5");
            reveal_strlit("string_len");
            reveal_strlit("string_starts_with");
            reveal_strlit("string_starts_with_from");
            reveal_strlit("string_substring");
            reveal_strlit("string_to_lower");
            reveal_strlit("string_to_upper");
            reveal_strlit("string_trim");
            reveal_strlit("read_file");
            reveal_strlit("print");
            reveal_strlit("println");
        }
        if str_eq(name, "char_code") {
            return Intrinsic::CharCode;
        }
        if str_eq(name, "char_is_decimal_digit") {
            return Intrinsic::CharIsDecimalDigit;
        }
        if str_eq(name, "char_to_decimal_digit") {
            return Intrinsic::CharToDecimalDigit;
        }
        if str_eq(name, "char_to_digit") {
            return Intrinsic::CharToDigit;
        }
        if str_eq(name, "char_to_string") {
            return Intrinsic::CharToString;
        }
        if str_eq(name, "abs") {
            return Intrinsic::Abs;
        }
        if str_eq(name, "float_abs") {
            return Intrinsic::FloatAbs;
        }
        if str_eq(name, "float_max") {
            return Intrinsic::FloatMax;
        }
        if str_eq(name, "float_is_finite") {
            return Intrinsic::FloatIsFinite;
        }
        if str_eq(name, "float_is_infinite") {
            return Intrinsic::FloatIsInfinite;
        }
        if str_eq(name, "float_is_nan") {
            return Intrinsic::FloatIsNan;
        }
        if str_eq(name, "float_min") {
            return Intrinsic::FloatMin;
        }
        if str_eq(name, "float_to_int") {
            return Intrinsic::FloatToInt;
        }
        if str_eq(name, "gcd") {
            return Intrinsic::Gcd;
        }
        if str_eq(name, "int_pow") {
            return Intrinsic::IntPow;
        }
        if str_eq(name, "int_to_float") {
            return Intrinsic::IntToFloat;
        }
        if str_eq(name, "lcm") {
            return Intrinsic::Lcm;
        }
        if str_eq(name, "int_to_string") {
            return Intrinsic::IntToString;
        }
        if str_eq(name, "max") {
            return Intrinsic::Max;
        }
        if str_eq(name, "min") {
            return Intrinsic::Min;
        }
        if str_eq(name, "seq_range") {
            return Intrinsic::SeqRange;
        }
        if str_eq(name, "seq_any") {
            return Intrinsic::SeqAny;
        }
        if str_eq(name, "seq_all") {
            return Intrinsic::SeqAll;
        }
        if str_eq(name, "seq_count") {
            return Intrinsic::SeqCount;
        }
        if str_eq(name, "seq_count_by") {
            return Intrinsic::SeqCountBy;
        }
        if str_eq(name, "seq_contains") {
            return Intrinsic::SeqContains;
        }
        if str_eq(name, "seq_find") {
            return Intrinsic::SeqFind;
        }
        if str_eq(name, "seq_fold") {
            return Intrinsic::SeqFold;
        }
        if str_eq(name, "option_unwrap_or") {
            return Intrinsic::OptionUnwrapOr;
        }
        if str_eq(name, "option_map") {
            return Intrinsic::OptionMap;
        }
        if str_eq(name, "option_and_then") {
            return Intrinsic::OptionAndThen;
        }
        if str_eq(name, "option_map_or") {
            return Intrinsic::OptionMapOr;
        }
        if str_eq(name, "result_unwrap_or") {
            return Intrinsic::ResultUnwrapOr;
        }
        if str_eq(name, "result_map") {
            return Intrinsic::ResultMap;
        }
        if str_eq(name, "result_and_then") {
            return Intrinsic::ResultAndThen;
        }
        if str_eq(name, "result_map_err") {
            return Intrinsic::ResultMapErr;
        }
        if str_eq(name, "result_map_or") {
            return Intrinsic::ResultMapOr;
        }
        if str_eq(name, "parse_float") {
            return Intrinsic::ParseFloat;
        }
        if str_eq(name, "parse_int") {
            return Intrinsic::ParseInt;
        }
        if str_eq(name, "string_contains") {
            return Intrinsic::StringContains;
        }
        if str_eq(name, "string_chars") {
            return Intrinsic::StringChars;
        }
        if str_eq(name, "string_concat") {
            return Intrinsic::StringConcat;
        }
        if str_eq(name, "string_ends_with") {
            return Intrinsic::StringEndsWith;
        }
        if str_eq(name, "string_lines") {
            return Intrinsic::StringLines;
        }
        if str_eq(name, "string_split") {
            return Intrinsic::StringSplit;
        }
        if str_eq(name, "string_md5") {
            return Intrinsic::StringMd5;
        }
        if str_eq(name, "string_len") {
            return Intrinsic::StringLen;
        }
        if str_eq(name, "string_starts_with") {
            return Intrinsic::StringStartsWith;
        }
        if str_eq(name, "string_starts_with_from") {
            return Intrinsic::StringStartsWithFrom;
        }
        if str_eq(name, "string_substring") {
            return Intrinsic::StringSubstring;
        }
        if str_eq(name, "string_to_lower") {
            return Intrinsic::StringToLower;
        }
        if str_eq(name, "string_to_upper") {
            return Intrinsic::StringToUpper;
        }
        if str_eq(name, "string_trim") {
            return Intrinsic::StringTrim;
        }
        if str_eq(name, "read_file") {
            return Intrinsic::ReadFile;
        }
        if str_eq(name, "print") {
            return Intrinsic::Print;
        }
        if str_eq(name, "println") {
            return Intrinsic::Println;
        }
        Intrinsic::Other(String::from_str(name))
    }
}

} // verus!
