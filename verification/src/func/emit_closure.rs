//! Emission of closures: creating closure objects and calling them indirectly.

use vstd::prelude::*;
use crate::error::{concat3, CodegenError, ErrorKind};
use crate::func::{emits, FuncCodegen};
use crate::func::emit_core::spec_typed_store;
use crate::instr::{Instr, MemArg};
use crate::ir::{Name, Ty, ValueId};
use crate::module::{closure_capture_offset, closure_object_size, spec_fn_type_key, FnTypeKey};
use crate::text::ty_text;

verus! {

broadcast use vstd::std_specs::hash::group_hash_axioms;

impl<'a> FuncCodegen<'a> {
    /// The type index of the signature of an indirect callee: an unsupported type
    /// error where its type is no function type with WASM value types, an
    /// unsupported instruction error where the module registered no such signature.
    pub open spec fn spec_indirect_type_index(&self, callee: ValueId) -> Result<u32, ErrorKind> {
        match spec_fn_type_key(self.spec_value_ty(callee)) {
            None => Err(ErrorKind::UnsupportedType),
            Some(k) => if self.ctx.fn_type_map.map().contains_key(k) {
                Ok(self.ctx.fn_type_map.map()[k])
            } else {
                Err(ErrorKind::UnsupportedInstruction)
            },
        }
    }

    /// The instructions of an indirect call of the closure `callee` whose arguments
    /// are on the stack: the closure object goes to the current-closure global and
    /// its table slot selects the callee.
    pub open spec fn spec_emit_indirect_call(&self, callee: ValueId) -> Result<Seq<Instr>, ErrorKind> {
        match self.spec_indirect_type_index(callee) {
            Err(k) => Err(k),
            Ok(t) => Ok(seq![
                Instr::LocalGet(self.spec_local(callee)),
                Instr::LocalSet(self.scratch_i32),
                Instr::LocalGet(self.scratch_i32),
                Instr::GlobalSet(self.ctx.current_closure_global_index),
                Instr::LocalGet(self.scratch_i32),
                Instr::I32Load(MemArg { offset: 0, align: 2 }),
                Instr::CallIndirect { type_index: t, table_index: 0 },
            ]),
        }
    }

    /// The instructions of an indirect call with one argument on the stack.
    pub open spec fn spec_emit_indirect_call_single_arg(&self, callee: ValueId) -> Result<Seq<Instr>, ErrorKind> {
        self.spec_emit_indirect_call(callee)
    }

    /// The instructions of an indirect call with two arguments on the stack.
    pub open spec fn spec_emit_indirect_call_two_args(&self, callee: ValueId) -> Result<Seq<Instr>, ErrorKind> {
        self.spec_emit_indirect_call(callee)
    }

    /// Call the closure `callee` with the arguments on the stack.
    pub(crate) fn emit_indirect_call(&self, out: &mut Vec<Instr>, callee: ValueId) -> (r: Result<(), CodegenError>)
        requires
            self.wf(),
            self.value_ok(callee),
        ensures
            emits(r, old(out)@, final(out)@, self.spec_emit_indirect_call(callee)),
    {
        let callee_ty = self.value_ty(callee);
        let sig = FnTypeKey::from_ty(callee_ty)?;
        let type_index = match self.ctx.fn_type_map.get(&sig.params, &sig.results) {
            Some(t) => t,
            None => {
                return Err(CodegenError::UnsupportedInstruction(
                    concat3("missing wasm function type for indirect callee ", ty_text(callee_ty).as_str(), ""),
                ));
            },
        };
        let mut v: Vec<Instr> = vec![
            Instr::LocalGet(self.local_for(callee)),
            Instr::LocalSet(self.scratch_i32),
            Instr::LocalGet(self.scratch_i32),
            Instr::GlobalSet(self.ctx.current_closure_global_index),
            Instr::LocalGet(self.scratch_i32),
            Instr::I32Load(MemArg { offset: 0, align: 2 }),
            Instr::CallIndirect { type_index, table_index: 0 },
        ];
        out.append(&mut v);
        Ok(())
    }

    /// Call the closure `callee` with its one argument on the stack.
    pub(crate) fn emit_indirect_call_single_arg(&self, out: &mut Vec<Instr>, callee: ValueId) -> (r: Result<(), CodegenError>)
        requires
            self.wf(),
            self.value_ok(callee),
        ensures
            emits(r, old(out)@, final(out)@, self.spec_emit_indirect_call_single_arg(callee)),
    {
        self.emit_indirect_call(out, callee)
    }

    /// Call the closure `callee` with its two arguments on the stack.
    pub(crate) fn emit_indirect_call_two_args(&self, out: &mut Vec<Instr>, callee: ValueId) -> (r: Result<(), CodegenError>)
        requires
            self.wf(),
            self.value_ok(callee),
        ensures
            emits(r, old(out)@, final(out)@, self.spec_emit_indirect_call_two_args(callee)),
    {
        self.emit_indirect_call(out, callee)
    }

    /// The stores of the captured values into a closure object whose pointer is in
    /// the first i32 scratch local, each into its 8-byte slot after the table slot.
    pub open spec fn spec_capture_stores(&self, captures: Seq<ValueId>) -> Seq<Instr>
        decreases captures.len(),
    {
        if captures.len() == 0 {
            Seq::empty()
        } else {
            let i = captures.len() - 1;
            self.spec_capture_stores(captures.drop_last())
                + seq![Instr::LocalGet(self.scratch_i32), Instr::LocalGet(self.spec_local(captures[i]))]
                + spec_typed_store(self.spec_value_ty(captures[i]), (8 + i * 8) as u64)
        }
    }

    /// The instructions that create a closure of function `name` over `captures`:
    /// allocate the object, store the function's table slot and each capture, and
    /// leave the pointer on the stack; a missing function error where `name` has no
    /// table slot.
    pub open spec fn spec_emit_closure_create(&self, name: Name, captures: Seq<ValueId>) -> Result<Seq<Instr>, ErrorKind> {
        if !self.ctx.fn_table_map@.contains_key(name) {
            Err(ErrorKind::MissingFunction)
        } else {
            let size = (8 * (captures.len() + 1)) as i32;
            Ok(seq![
                Instr::I32Const(size),
                Instr::Call(self.ctx.alloc_fn_index),
                Instr::Drop,
                Instr::GlobalGet(0),
                Instr::I32Const(size),
                Instr::I32Sub,
                Instr::LocalSet(self.scratch_i32),
                Instr::LocalGet(self.scratch_i32),
                Instr::I32Const(self.ctx.fn_table_map@[name] as i32),
                Instr::I32Store(MemArg { offset: 0, align: 2 }),
            ] + self.spec_capture_stores(captures) + seq![Instr::LocalGet(self.scratch_i32)])
        }
    }

    /// Create a closure object for function `name` capturing `captures`.
    pub(crate) fn emit_closure_create(&self, out: &mut Vec<Instr>, name: Name, captures: &[ValueId]) -> (r: Result<(), CodegenError>)
        requires
            self.wf(),
            forall|i: int| 0 <= i < captures@.len() ==> self.value_ok(#[trigger] captures@[i]),
            8 * (captures@.len() + 1) <= i32::MAX,
        ensures
            emits(r, old(out)@, final(out)@, self.spec_emit_closure_create(name, captures@)),
            !self.ctx.fn_table_map@.contains_key(name)
                ==> (r matches Err(CodegenError::MissingFunction(m)) && m@ == self.ctx.interner.spec_text(name)),
    {
        let slot = match self.ctx.fn_table_map.get(&name) {
            Some(s) => *s,
            None => {
                proof {
                    reveal_strlit("");
                }
                return Err(CodegenError::MissingFunction(concat3(self.ctx.interner.text(name), "", "")));
            },
        };
        let size = closure_object_size(captures.len());
        let mut v: Vec<Instr> = vec![
            Instr::I32Const(size),
            Instr::Call(self.ctx.alloc_fn_index),
            Instr::Drop,
            Instr::GlobalGet(0),
            Instr::I32Const(size),
            Instr::I32Sub,
            Instr::LocalSet(self.scratch_i32),
            Instr::LocalGet(self.scratch_i32),
            Instr::I32Const(#[verifier::truncate] (slot as i32)),
            Instr::I32Store(MemArg { offset: 0, align: 2 }),
        ];
        let ghost head = v@;
        let mut index: usize = 0;
        while index < captures.len()
            invariant
                self.wf(),
                forall|i: int| 0 <= i < captures@.len() ==> self.value_ok(#[trigger] captures@[i]),
                8 * (captures@.len() + 1) <= i32::MAX,
                0 <= index <= captures@.len(),
                v@ == head + self.spec_capture_stores(captures@.take(index as int)),
            decreases captures@.len() - index,
        {
            assert(captures@.take(index + 1).drop_last() =~= captures@.take(index as int));
            let capture = captures[index];
            v.push(Instr::LocalGet(self.scratch_i32));
            self.emit_typed_store(&mut v, capture, self.value_ty(capture), closure_capture_offset(index));
            index = index + 1;
            assert(v@ =~= head + self.spec_capture_stores(captures@.take(index as int)));
        }
        assert(captures@.take(index as int) =~= captures@);
        v.push(Instr::LocalGet(self.scratch_i32));
        assert(slot == self.ctx.fn_table_map@[name]);
        assert(v@ =~= head + self.spec_capture_stores(captures@) + seq![Instr::LocalGet(self.scratch_i32)]);
        out.append(&mut v);
        Ok(())
    }

    /// The scratch local that holds a temporary of type `ty`.
    pub open spec fn spec_temp_local_for_ty(&self, ty: Ty) -> u32 {
        match ty {
            Ty::Float => self.scratch_f64,
            Ty::Int => self.scratch_i64,
            _ => self.scratch_i32_7,
        }
    }

    /// The scratch local that holds a temporary of type `ty`.
    pub(crate) fn temp_local_for_ty(&self, ty: &Ty) -> (r: u32)
        ensures
            r == self.spec_temp_local_for_ty(*ty),
    {
        match ty {
            Ty::Float => self.scratch_f64,
            Ty::Int => self.scratch_i64,
            _ => self.scratch_i32_7,
        }
    }
}

} // verus!
