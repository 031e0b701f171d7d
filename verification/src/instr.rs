//! The WebAssembly instructions that the code generator emits, as plain values.

use vstd::prelude::*;

verus! {

/// A WebAssembly value type of the subset the generator uses.
#[derive(Clone, Copy, Debug, PartialEq, Eq, Structural)]
pub enum ValTy {
    I32,
    I64,
    F64,
}

/// The type annotation of a structured control instruction.
#[derive(Clone, Copy, Debug, PartialEq, Eq, Structural)]
pub enum BlockTy {
    Empty,
    Result(ValTy),
}

/// The immediate of a memory instruction on memory 0.
#[derive(Clone, Copy, Debug, PartialEq, Eq, Structural)]
pub struct MemArg {
    pub offset: u64,
    pub align: u32,
}

/// Branch-table target depths held one after another, so that two lists with the
/// same depths are the same value.
#[derive(Debug)]
pub enum TargetList {
    Nil,
    Cons(u32, Box<TargetList>),
}

impl TargetList {
    /// The depths, in order.
    pub open spec fn view(&self) -> Seq<u32>
        decreases self,
    {
        match self {
            TargetList::Nil => Seq::empty(),
            TargetList::Cons(t, rest) => seq![*t] + rest.view(),
        }
    }

    /// The list of the depths `s`.
    pub open spec fn of_seq(s: Seq<u32>) -> TargetList
        decreases s.len(),
    {
        if s.len() == 0 {
            TargetList::Nil
        } else {
            TargetList::Cons(s[0], Box::new(TargetList::of_seq(s.drop_first())))
        }
    }

    /// A list is the one its depths give.
    pub proof fn lemma_view_determines(l: TargetList)
        ensures
            l == TargetList::of_seq(l.view()),
        decreases l,
    {
        if let TargetList::Cons(t, rest) = l {
            TargetList::lemma_view_determines(*rest);
            assert(l.view().drop_first() =~= rest.view());
        }
    }

    /// The list of the depths `s` has those depths.
    pub proof fn lemma_of_seq_view(s: Seq<u32>)
        ensures
            TargetList::of_seq(s).view() == s,
        decreases s.len(),
    {
        if s.len() > 0 {
            TargetList::lemma_of_seq_view(s.drop_first());
            assert(s =~= seq![s[0]] + s.drop_first());
        }
    }
}

/// The targets of a branch table: at most `u32::MAX` of them.
#[derive(Debug)]
pub struct BrTargets {
    targets: TargetList,
}

impl BrTargets {
    #[verifier::type_invariant]
    spec fn fits(&self) -> bool {
        self.targets.view().len() <= u32::MAX
    }

    /// The target depths.
    pub closed spec fn view(&self) -> Seq<u32> {
        self.targets.view()
    }

    /// The branch targets with the depths `s`.
    pub closed spec fn of_seq(s: Seq<u32>) -> BrTargets {
        BrTargets { targets: TargetList::of_seq(s) }
    }

    /// Branch targets are the ones their depths give: two with the same depths are
    /// equal.
    pub proof fn lemma_view_determines(bt: BrTargets)
        ensures
            bt == BrTargets::of_seq(bt.view()),
            BrTargets::of_seq(bt.view()).view() == bt.view(),
    {
        TargetList::lemma_view_determines(bt.targets);
        TargetList::lemma_of_seq_view(bt.view());
    }

    /// Wraps a list of target depths.
    pub fn new(targets: Vec<u32>) -> (r: Self)
        requires
            targets@.len() <= u32::MAX,
        ensures
            r.view() == targets@,
    {
        let n = targets.len();
        let mut list = TargetList::Nil;
        let mut i: usize = n;
        while i > 0
            invariant
                0 <= i <= n,
                n == targets@.len(),
                list.view() == targets@.subrange(i as int, n as int),
            decreases i,
        {
            i = i - 1;
            list = TargetList::Cons(targets[i], Box::new(list));
            assert(list.view() =~= targets@.subrange(i as int, n as int));
        }
        BrTargets { targets: list }
    }

    /// The target depths.
    pub fn to_vec(&self) -> (r: Vec<u32>)
        ensures
            r@ == self.view(),
            r@.len() <= u32::MAX,
    {
        proof {
            use_type_invariant(self);
        }
        let mut out: Vec<u32> = Vec::new();
        let mut cur: &TargetList = &self.targets;
        loop
            invariant
                out@ + cur.view() == self.view(),
                self.view().len() <= u32::MAX,
            decreases cur,
        {
            match cur {
                TargetList::Nil => {
                    assert(out@ =~= self.view());
                    return out;
                },
                TargetList::Cons(t, rest) => {
                    out.push(*t);
                    cur = rest;
                    assert(out@ + cur.view() =~= self.view());
                },
            }
        }
    }
}

/// One WebAssembly instruction.
#[derive(Debug)]
pub enum Instr {
    Unreachable,
    Else,
    End,
    Return,
    Drop,
    I32Add,
    I32Sub,
    I32Mul,
    I32And,
    I32Or,
    I32Shl,
    I32ShrU,
    I32Eq,
    I32Ne,
    I32Eqz,
    I32LtS,
    I32LtU,
    I32GtS,
    I32GtU,
    I32LeS,
    I32LeU,
    I32GeS,
    I32GeU,
    I64Add,
    I64Sub,
    I64Mul,
    I64DivS,
    I64DivU,
    I64RemS,
    I64RemU,
    I64And,
    I64Or,
    I64Xor,
    I64Shl,
    I64ShrS,
    I64ShrU,
    I64Eq,
    I64Ne,
    I64Eqz,
    I64LtS,
    I64LtU,
    I64GtS,
    I64GtU,
    I64LeS,
    I64LeU,
    I64GeS,
    I64GeU,
    I64ExtendI32U,
    I32WrapI64,
    F64Add,
    F64Sub,
    F64Mul,
    F64Div,
    F64Neg,
    F64Abs,
    F64Trunc,
    F64Eq,
    F64Ne,
    F64Lt,
    F64Gt,
    F64Le,
    F64Ge,
    F64ConvertI64S,
    I64TruncSatF64S,
    LocalGet(u32),
    LocalSet(u32),
    LocalTee(u32),
    GlobalGet(u32),
    GlobalSet(u32),
    Br(u32),
    BrIf(u32),
    Call(u32),
    MemorySize(u32),
    MemoryGrow(u32),
    Block(BlockTy),
    Loop(BlockTy),
    If(BlockTy),
    I32Load(MemArg),
    I64Load(MemArg),
    F64Load(MemArg),
    I32Load8U(MemArg),
    I32Store(MemArg),
    I64Store(MemArg),
    F64Store(MemArg),
    I32Store8(MemArg),
    I32Const(i32),
    I64Const(i64),
    /// A 64-bit float constant, given by its IEEE 754 bit pattern.
    F64Const(u64),
    BrTable(BrTargets, u32),
    CallIndirect { type_index: u32, table_index: u32 },
    MemoryCopy { src_mem: u32, dst_mem: u32 },
}

} // verus!
