//! Emission of single values: gets, constants, typed loads and stores.

use vstd::prelude::*;
use vstd::string::StringSliceAdditionalSpecFns;
use crate::instr::{BlockTy, Instr, MemArg};
use crate::ir::{Constant, Ty, ValueId};
use crate::func::FuncCodegen;
use crate::module::{emit_typed_load_static, spec_typed_load};
use crate::ty::{is_i32_type, spec_is_i32_type};

verus! {

/// The stores of each byte of a string constant into the object at `ptr_local`,
/// after its 8-byte header.
pub open spec fn spec_byte_stores(ptr_local: u32, bytes: Seq<u8>) -> Seq<Instr>
    decreases bytes.len(),
{
    if bytes.len() == 0 {
        Seq::empty()
    } else {
        spec_byte_stores(ptr_local, bytes.drop_last()) + seq![
            Instr::LocalGet(ptr_local),
            Instr::I32Const(bytes.last() as i32),
            Instr::I32Store8(MemArg { offset: (8 + bytes.len() - 1) as u64, align: 0 }),
        ]
    }
}

/// The store of the value on the stack, of type `ty`, into an 8-byte slot at
/// `offset`: f64 for `Float`, i64 for `Int`, and an i32 value widened to i64.
pub open spec fn spec_typed_store(ty: Ty, offset: u64) -> Seq<Instr> {
    if ty is Float {
        seq![Instr::F64Store(MemArg { offset, align: 3 })]
    } else if ty is Int {
        seq![Instr::I64Store(MemArg { offset, align: 3 })]
    } else if spec_is_i32_type(ty) {
        seq![Instr::I64ExtendI32U, Instr::I64Store(MemArg { offset, align: 3 })]
    } else {
        seq![Instr::I64Store(MemArg { offset, align: 3 })]
    }
}

/// The instructions of a constant: `i64.const`, `f64.const` of its bits, or
/// `i32.const` for booleans (0 or 1), unit (0) and characters (their scalar value);
/// a string is allocated and filled in place.
pub open spec fn spec_const(c: Constant) -> Seq<Instr> {
    match c {
        Constant::Int(v) => seq![Instr::I64Const(v)],
        Constant::Float(bits) => seq![Instr::F64Const(bits)],
        Constant::Bool(b) => seq![Instr::I32Const(if b { 1i32 } else { 0i32 })],
        Constant::Unit => seq![Instr::I32Const(0i32)],
        Constant::Char(ch) => seq![Instr::I32Const(ch as i32)],
        Constant::String(_) => Seq::empty(),
    }
}

impl<'a> FuncCodegen<'a> {
    /// The instruction that `emit_get` appends.
    pub open spec fn spec_emit_get(&self, vid: ValueId) -> Seq<Instr> {
        seq![Instr::LocalGet(self.spec_local(vid))]
    }

    /// Emit `local.get` for a value.
    pub(crate) fn emit_get(&self, out: &mut Vec<Instr>, vid: ValueId)
        requires
            self.wf(),
            self.value_ok(vid),
        ensures
            final(out)@ == old(out)@ + self.spec_emit_get(vid),
    {
        let mut v: Vec<Instr> = vec![Instr::LocalGet(self.local_for(vid))];
        out.append(&mut v);
    }

    /// Type-aware store of the value on the stack into an 8-byte slot.
    pub(crate) fn emit_typed_store_stack(&self, out: &mut Vec<Instr>, ty: &Ty, offset: u64)
        ensures
            final(out)@ == old(out)@ + spec_typed_store(*ty, offset),
    {
        let mut v: Vec<Instr> = match ty {
            Ty::Float => vec![Instr::F64Store(MemArg { offset, align: 3 })],
            Ty::Int => vec![Instr::I64Store(MemArg { offset, align: 3 })],
            _ => {
                if is_i32_type(ty) {
                    vec![Instr::I64ExtendI32U, Instr::I64Store(MemArg { offset, align: 3 })]
                } else {
                    vec![Instr::I64Store(MemArg { offset, align: 3 })]
                }
            },
        };
        out.append(&mut v);
    }

    /// Type-aware store of value `vid` into an 8-byte slot.
    pub(crate) fn emit_typed_store(&self, out: &mut Vec<Instr>, vid: ValueId, ty: &Ty, offset: u64)
        requires
            self.wf(),
            self.value_ok(vid),
        ensures
            final(out)@ == old(out)@ + self.spec_emit_get(vid) + spec_typed_store(*ty, offset),
    {
        self.emit_get(out, vid);
        self.emit_typed_store_stack(out, ty, offset);
    }

    /// Type-aware load of an 8-byte slot.
    pub(crate) fn emit_typed_load(&self, out: &mut Vec<Instr>, ty: &Ty, offset: u64)
        ensures
            final(out)@ == old(out)@ + spec_typed_load(*ty, offset),
    {
        emit_typed_load_static(out, ty, offset);
    }

    /// The instructions that `emit_string_const` appends for a string with the
    /// given bytes and character count.
    pub open spec fn spec_emit_string_const(&self, bytes: Seq<u8>, char_len: nat) -> Seq<Instr> {
        seq![
            Instr::I32Const((8 + bytes.len()) as i32),
            Instr::Call(self.ctx.alloc_fn_index),
            Instr::LocalSet(self.scratch_i32),
            Instr::LocalGet(self.scratch_i32),
            Instr::I32Const(bytes.len() as i32),
            Instr::I32Store(MemArg { offset: 0, align: 2 }),
            Instr::LocalGet(self.scratch_i32),
            Instr::I32Const(char_len as i32),
            Instr::I32Store(MemArg { offset: 4, align: 2 }),
        ] + spec_byte_stores(self.scratch_i32, bytes) + seq![Instr::LocalGet(self.scratch_i32)]
    }

    /// Allocate a string object `[byte_len: i32][char_len: i32][bytes]` and leave
    /// its pointer on the stack.
    pub(crate) fn emit_string_const(&self, out: &mut Vec<Instr>, s: &str)
        requires
            8 + s.spec_bytes().len() <= i32::MAX,
            s@.len() <= i32::MAX,
        ensures
            final(out)@ == old(out)@ + self.spec_emit_string_const(s.spec_bytes(), s@.len()),
    {
        let bytes = s.as_bytes();
        let byte_len = bytes.len() as i32;
        let mut char_len: usize = 0;
        for _c in iter: s.chars()
            invariant
                char_len == iter.index(),
                iter.seq().len() == s@.len(),
                s@.len() <= i32::MAX,
        {
            char_len = char_len + 1;
        }
        let total_size = 8 + byte_len;
        let mut v: Vec<Instr> = vec![
            Instr::I32Const(total_size),
            Instr::Call(self.ctx.alloc_fn_index),
            Instr::LocalSet(self.scratch_i32),
            Instr::LocalGet(self.scratch_i32),
            Instr::I32Const(byte_len),
            Instr::I32Store(MemArg { offset: 0, align: 2 }),
            Instr::LocalGet(self.scratch_i32),
            Instr::I32Const(char_len as i32),
            Instr::I32Store(MemArg { offset: 4, align: 2 }),
        ];
        let ghost head = v@;
        let mut idx: usize = 0;
        while idx < bytes.len()
            invariant
                0 <= idx <= bytes@.len(),
                bytes@ == s.spec_bytes(),
                8 + bytes@.len() <= i32::MAX,
                v@ == head + spec_byte_stores(self.scratch_i32, bytes@.take(idx as int)),
            decreases bytes@.len() - idx,
        {
            assert(bytes@.take(idx + 1).drop_last() =~= bytes@.take(idx as int));
            let mut w: Vec<Instr> = vec![
                Instr::LocalGet(self.scratch_i32),
                Instr::I32Const(bytes[idx] as i32),
                Instr::I32Store8(MemArg { offset: 8 + idx as u64, align: 0 }),
            ];
            v.append(&mut w);
            idx = idx + 1;
            assert(v@ =~= head + spec_byte_stores(self.scratch_i32, bytes@.take(idx as int)));
        }
        assert(bytes@.take(idx as int) =~= bytes@);
        let mut w: Vec<Instr> = vec![Instr::LocalGet(self.scratch_i32)];
        v.append(&mut w);
        out.append(&mut v);
    }

    /// Emit a constant.
    pub(crate) fn emit_const(&self, out: &mut Vec<Instr>, c: &Constant)
        requires
            c matches Constant::String(s) ==> 8 + s@.len() <= i32::MAX && 8 + vstd::utf8::encode_utf8(s@).len() <= i32::MAX,
        ensures
            final(out)@ == old(out)@ + match *c {
                Constant::String(s) => self.spec_emit_string_const(vstd::utf8::encode_utf8(s@), s@.len()),
                _ => spec_const(*c),
            },
    {
        match c {
            Constant::Int(v) => {
                out.push(Instr::I64Const(*v));
            },
            Constant::Float(bits) => {
                out.push(Instr::F64Const(*bits));
            },
            Constant::Bool(b) => {
                out.push(Instr::I32Const(if *b { 1 } else { 0 }));
            },
            Constant::Unit => {
                out.push(Instr::I32Const(0));
            },
            Constant::String(s) => {
                self.emit_string_const(out, s.as_str());
            },
            Constant::Char(ch) => {
                out.push(Instr::I32Const(*ch as i32));
            },
        }
    }
}

} // verus!
