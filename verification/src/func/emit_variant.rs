//! Variant lookups and the construction of variant values (options, results and
//! single-field ADT values) in freshly allocated objects.

use vstd::prelude::*;
use crate::error::{concat3, CodegenError, ErrorKind};
use crate::func::{emits, FuncCodegen};
use crate::func::emit_core::spec_typed_store;
use crate::instr::{BlockTy, Instr, MemArg};
use crate::ir::{Ty, TypeItemIdx};
use crate::module::{spec_typed_load};
use crate::text::ty_text;

verus! {

impl<'a> FuncCodegen<'a> {
    /// The payload type and the `Some` and `None` tags of an option type; an
    /// unsupported instruction error where the type is no ADT with a type argument.
    pub open spec fn spec_lookup_option_variant_tags(&self, option_ty: Ty) -> Result<(Ty, u32, u32), ErrorKind> {
        match option_ty {
            Ty::Adt { def, args } => if args@.len() == 0 {
                Err(ErrorKind::UnsupportedInstruction)
            } else {
                match self.ctx.spec_variant_tag(def, "Some"@) {
                    Err(k) => Err(k),
                    Ok(some_tag) => match self.ctx.spec_variant_tag(def, "None"@) {
                        Err(k) => Err(k),
                        Ok(none_tag) => Ok((args@[0], some_tag, none_tag)),
                    },
                }
            },
            _ => Err(ErrorKind::UnsupportedInstruction),
        }
    }

    /// Look up the payload type and the `Some` and `None` tags of an option type,
    /// for the operation named `op`.
    pub(crate) fn lookup_option_variant_tags<'b>(&self, option_ty: &'b Ty, op: &str) -> (r: Result<(&'b Ty, u32, u32), CodegenError>)
        requires
            self.wf(),
        ensures
            match self.spec_lookup_option_variant_tags(*option_ty) {
                Ok(t) => r matches Ok(x) && (*x.0, x.1, x.2) == t,
                Err(k) => r matches Err(e) && e.kind() == k,
            },
    {
        let (def, args) = match option_ty {
            Ty::Adt { def, args } => (def, args),
            _ => {
                return Err(CodegenError::UnsupportedInstruction(
                    concat3(op, " expected Option<_>, got ", ty_text(option_ty).as_str()),
                ));
            },
        };
        if args.len() == 0 {
            return Err(CodegenError::UnsupportedInstruction(
                concat3(op, " expected Option<_>, got ", ty_text(option_ty).as_str()),
            ));
        }
        let some_ty = &args[0];
        let (_, some_tag) = self.ctx.variant_tag(*def, "Some")?;
        let (_, none_tag) = self.ctx.variant_tag(*def, "None")?;
        Ok((some_ty, some_tag, none_tag))
    }

    /// The `Ok` and `Err` payload types and tags of a result type; an unsupported
    /// instruction error where the type is no ADT with two type arguments.
    pub open spec fn spec_lookup_result_variant_tags(&self, result_ty: Ty) -> Result<(Ty, Ty, u32, u32), ErrorKind> {
        match result_ty {
            Ty::Adt { def, args } => if args@.len() < 2 {
                Err(ErrorKind::UnsupportedInstruction)
            } else {
                match self.ctx.spec_variant_tag(def, "Ok"@) {
                    Err(k) => Err(k),
                    Ok(ok_tag) => match self.ctx.spec_variant_tag(def, "Err"@) {
                        Err(k) => Err(k),
                        Ok(err_tag) => Ok((args@[0], args@[1], ok_tag, err_tag)),
                    },
                }
            },
            _ => Err(ErrorKind::UnsupportedInstruction),
        }
    }

    /// Look up the payload types and the `Ok` and `Err` tags of a result type, for
    /// the operation named `op`.
    pub(crate) fn lookup_result_variant_tags<'b>(&self, result_ty: &'b Ty, op: &str) -> (r: Result<(&'b Ty, &'b Ty, u32, u32), CodegenError>)
        requires
            self.wf(),
        ensures
            match self.spec_lookup_result_variant_tags(*result_ty) {
                Ok(t) => r matches Ok(x) && (*x.0, *x.1, x.2, x.3) == t,
                Err(k) => r matches Err(e) && e.kind() == k,
            },
    {
        let (def, args) = match result_ty {
            Ty::Adt { def, args } => (def, args),
            _ => {
                return Err(CodegenError::UnsupportedInstruction(
                    concat3(op, " expected Result<_, _>, got ", ty_text(result_ty).as_str()),
                ));
            },
        };
        if args.len() < 2 {
            return Err(CodegenError::UnsupportedInstruction(
                concat3(op, " expected Result<_, _>, got ", ty_text(result_ty).as_str()),
            ));
        }
        let ok_ty = &args[0];
        let err_ty = &args[1];
        let (_, ok_tag) = self.ctx.variant_tag(*def, "Ok")?;
        let (_, err_tag) = self.ctx.variant_tag(*def, "Err")?;
        Ok((ok_ty, err_ty, ok_tag, err_tag))
    }

    /// The two type arguments of a result type; an unsupported instruction error
    /// where the type is no ADT with two type arguments.
    pub open spec fn spec_lookup_result_payload_tys(&self, result_ty: Ty) -> Result<(Ty, Ty), ErrorKind> {
        match result_ty {
            Ty::Adt { args, .. } => if args@.len() < 2 {
                Err(ErrorKind::UnsupportedInstruction)
            } else {
                Ok((args@[0], args@[1]))
            },
            _ => Err(ErrorKind::UnsupportedInstruction),
        }
    }

    /// The two type arguments of a result type; the error message starts with `what`.
    pub(crate) fn lookup_result_payload_tys<'b>(&self, result_ty: &'b Ty, what: &str) -> (r: Result<(&'b Ty, &'b Ty), CodegenError>)
        ensures
            match self.spec_lookup_result_payload_tys(*result_ty) {
                Ok(t) => r matches Ok(x) && (*x.0, *x.1) == t,
                Err(k) => r matches Err(e) && e.kind() == k,
            },
    {
        match result_ty {
            Ty::Adt { args, .. } => {
                if args.len() < 2 {
                    Err(CodegenError::UnsupportedInstruction(concat3(what, ty_text(result_ty).as_str(), "")))
                } else {
                    Ok((&args[0], &args[1]))
                }
            },
            _ => Err(CodegenError::UnsupportedInstruction(concat3(what, ty_text(result_ty).as_str(), ""))),
        }
    }

    /// The load of the payload of the option object whose pointer is in `option_ptr_local`.
    pub open spec fn spec_emit_option_payload_load_from_local(&self, option_ptr_local: u32, payload_ty: Ty) -> Seq<Instr> {
        seq![Instr::LocalGet(option_ptr_local)] + spec_typed_load(payload_ty, 8)
    }

    /// Load the payload of the option object whose pointer is in `option_ptr_local`.
    pub(crate) fn emit_option_payload_load_from_local(&self, out: &mut Vec<Instr>, option_ptr_local: u32, payload_ty: &Ty)
        ensures
            final(out)@ == old(out)@ + self.spec_emit_option_payload_load_from_local(option_ptr_local, *payload_ty),
    {
        out.push(Instr::LocalGet(option_ptr_local));
        self.emit_typed_load(out, payload_ty, 8);
    }

    /// The load of the payload of the result object whose pointer is in `result_ptr_local`.
    pub open spec fn spec_emit_result_payload_load_from_local(&self, result_ptr_local: u32, payload_ty: Ty) -> Seq<Instr> {
        seq![Instr::LocalGet(result_ptr_local)] + spec_typed_load(payload_ty, 8)
    }

    /// Load the payload of the result object whose pointer is in `result_ptr_local`.
    pub(crate) fn emit_result_payload_load_from_local(&self, out: &mut Vec<Instr>, result_ptr_local: u32, payload_ty: &Ty)
        ensures
            final(out)@ == old(out)@ + self.spec_emit_result_payload_load_from_local(result_ptr_local, *payload_ty),
    {
        out.push(Instr::LocalGet(result_ptr_local));
        self.emit_typed_load(out, payload_ty, 8);
    }

    /// The instructions that build a `None` of `option_ty` and put its pointer in
    /// `out_local`; an unsupported instruction error where the type is no ADT.
    pub open spec fn spec_emit_option_none(&self, option_ty: Ty, out_local: u32) -> Result<Seq<Instr>, ErrorKind> {
        match option_ty {
            Ty::Adt { def, .. } => match self.ctx.spec_variant_tag(def, "None"@) {
                Err(k) => Err(k),
                Ok(none_tag) => {
                    let size = self.ctx.spec_adt_size(def);
                    Ok(seq![
                        Instr::I32Const(size as i32),
                        Instr::Call(self.ctx.alloc_fn_index),
                        Instr::Drop,
                        Instr::GlobalGet(0),
                        Instr::I32Const(size as i32),
                        Instr::I32Sub,
                        Instr::I32Const(none_tag as i32),
                        Instr::I32Store(MemArg { offset: 0, align: 2 }),
                        Instr::GlobalGet(0),
                        Instr::I32Const(size as i32),
                        Instr::I32Sub,
                        Instr::LocalSet(out_local),
                    ])
                },
            },
            _ => Err(ErrorKind::UnsupportedInstruction),
        }
    }

    /// Build a `None` of `option_ty` and put its pointer in `out_local`.
    pub(crate) fn emit_option_none(&self, out: &mut Vec<Instr>, option_ty: &Ty, out_local: u32) -> (r: Result<(), CodegenError>)
        requires
            self.wf(),
        ensures
            emits(r, old(out)@, final(out)@, self.spec_emit_option_none(*option_ty, out_local)),
    {
        let def: TypeItemIdx = match option_ty {
            Ty::Adt { def, .. } => *def,
            _ => {
                return Err(CodegenError::UnsupportedInstruction(
                    concat3("expected Option<_>, got ", ty_text(option_ty).as_str(), ""),
                ));
            },
        };
        let (layout, none_tag) = self.ctx.variant_tag(def, "None")?;
        let size = layout.size;
        let mut v: Vec<Instr> = vec![
            Instr::I32Const(size as i32),
            Instr::Call(self.ctx.alloc_fn_index),
            Instr::Drop,
            Instr::GlobalGet(0),
            Instr::I32Const(size as i32),
            Instr::I32Sub,
            Instr::I32Const(none_tag as i32),
            Instr::I32Store(MemArg { offset: 0, align: 2 }),
            Instr::GlobalGet(0),
            Instr::I32Const(size as i32),
            Instr::I32Sub,
            Instr::LocalSet(out_local),
        ];
        out.append(&mut v);
        Ok(())
    }

    /// The instructions that build an `Option<Int>` from a presence flag in
    /// `has_value_local` and an i64 in `value_local`, leaving its pointer on the stack;
    /// an unsupported instruction error where the type is no ADT.
    pub open spec fn spec_emit_option_int_from_locals(&self, result_ty: Ty, has_value_local: u32, value_local: u32) -> Result<Seq<Instr>, ErrorKind> {
        match result_ty {
            Ty::Adt { def, .. } => match self.ctx.spec_variant_tag(def, "Some"@) {
                Err(k) => Err(k),
                Ok(some_tag) => match self.ctx.spec_variant_tag(def, "None"@) {
                    Err(k) => Err(k),
                    Ok(none_tag) => {
                        let size = self.ctx.spec_adt_size(def);
                        Ok(seq![
                            Instr::I32Const(size as i32),
                            Instr::Call(self.ctx.alloc_fn_index),
                            Instr::Drop,
                            Instr::LocalGet(has_value_local),
                            Instr::If(BlockTy::Empty),
                            Instr::GlobalGet(0),
                            Instr::I32Const(size as i32),
                            Instr::I32Sub,
                            Instr::I32Const(some_tag as i32),
                            Instr::I32Store(MemArg { offset: 0, align: 2 }),
                            Instr::GlobalGet(0),
                            Instr::I32Const(size as i32),
                            Instr::I32Sub,
                            Instr::LocalGet(value_local),
                            Instr::I64Store(MemArg { offset: 8, align: 3 }),
                            Instr::Else,
                            Instr::GlobalGet(0),
                            Instr::I32Const(size as i32),
                            Instr::I32Sub,
                            Instr::I32Const(none_tag as i32),
                            Instr::I32Store(MemArg { offset: 0, align: 2 }),
                            Instr::End,
                            Instr::GlobalGet(0),
                            Instr::I32Const(size as i32),
                            Instr::I32Sub,
                        ])
                    },
                },
            },
            _ => Err(ErrorKind::UnsupportedInstruction),
        }
    }

    /// Build an `Option<Int>` from a presence flag and a value held in locals.
    pub(crate) fn emit_option_int_from_locals(&self, out: &mut Vec<Instr>, result_ty: &Ty, has_value_local: u32, value_local: u32) -> (r: Result<(), CodegenError>)
        requires
            self.wf(),
        ensures
            emits(r, old(out)@, final(out)@, self.spec_emit_option_int_from_locals(*result_ty, has_value_local, value_local)),
    {
        let def: TypeItemIdx = match result_ty {
            Ty::Adt { def, .. } => *def,
            _ => {
                return Err(CodegenError::UnsupportedInstruction(
                    concat3("char digit conversion expected Option<Int>, got ", ty_text(result_ty).as_str(), ""),
                ));
            },
        };
        let (layout, some_tag) = self.ctx.variant_tag(def, "Some")?;
        let (_, none_tag) = self.ctx.variant_tag(def, "None")?;
        let size = layout.size;
        let mut v: Vec<Instr> = vec![
            Instr::I32Const(size as i32),
            Instr::Call(self.ctx.alloc_fn_index),
            Instr::Drop,
            Instr::LocalGet(has_value_local),
            Instr::If(BlockTy::Empty),
            Instr::GlobalGet(0),
            Instr::I32Const(size as i32),
            Instr::I32Sub,
            Instr::I32Const(some_tag as i32),
            Instr::I32Store(MemArg { offset: 0, align: 2 }),
            Instr::GlobalGet(0),
            Instr::I32Const(size as i32),
            Instr::I32Sub,
            Instr::LocalGet(value_local),
            Instr::I64Store(MemArg { offset: 8, align: 3 }),
            Instr::Else,
            Instr::GlobalGet(0),
            Instr::I32Const(size as i32),
            Instr::I32Sub,
            Instr::I32Const(none_tag as i32),
            Instr::I32Store(MemArg { offset: 0, align: 2 }),
            Instr::End,
            Instr::GlobalGet(0),
            Instr::I32Const(size as i32),
            Instr::I32Sub,
        ];
        out.append(&mut v);
        Ok(())
    }

    /// The instructions that build the single-field variant `variant_name` of
    /// `adt_ty` around the payload in `payload_local` and put its pointer in
    /// `out_local`; an unsupported instruction error where the type is no ADT.
    pub open spec fn spec_emit_single_field_adt_from_local(
        &self,
        adt_ty: Ty,
        variant_name: Seq<char>,
        payload_local: u32,
        payload_ty: Ty,
        out_local: u32,
    ) -> Result<Seq<Instr>, ErrorKind> {
        match adt_ty {
            Ty::Adt { def, .. } => match self.ctx.spec_variant_tag(def, variant_name) {
                Err(k) => Err(k),
                Ok(tag) => {
                    let size = self.ctx.spec_adt_size(def);
                    Ok(seq![
                        Instr::I32Const(size as i32),
                        Instr::Call(self.ctx.alloc_fn_index),
                        Instr::Drop,
                        Instr::GlobalGet(0),
                        Instr::I32Const(size as i32),
                        Instr::I32Sub,
                        Instr::I32Const(tag as i32),
                        Instr::I32Store(MemArg { offset: 0, align: 2 }),
                        Instr::GlobalGet(0),
                        Instr::I32Const(size as i32),
                        Instr::I32Sub,
                        Instr::LocalGet(payload_local),
                    ] + spec_typed_store(payload_ty, 8) + seq![
                        Instr::GlobalGet(0),
                        Instr::I32Const(size as i32),
                        Instr::I32Sub,
                        Instr::LocalSet(out_local),
                    ])
                },
            },
            _ => Err(ErrorKind::UnsupportedInstruction),
        }
    }

    /// Build the single-field variant `variant_name` of `adt_ty` around a payload
    /// held in a local.
    pub(crate) fn emit_single_field_adt_from_local(
        &self,
        out: &mut Vec<Instr>,
        adt_ty: &Ty,
        variant_name: &str,
        payload_local: u32,
        payload_ty: &Ty,
        out_local: u32,
    ) -> (r: Result<(), CodegenError>)
        requires
            self.wf(),
        ensures
            emits(r, old(out)@, final(out)@, self.spec_emit_single_field_adt_from_local(*adt_ty, variant_name@, payload_local, *payload_ty, out_local)),
    {
        let def: TypeItemIdx = match adt_ty {
            Ty::Adt { def, .. } => *def,
            _ => {
                let prefix = concat3("expected ADT for variant `", variant_name, "`, got ");
                return Err(CodegenError::UnsupportedInstruction(
                    concat3(prefix.as_str(), ty_text(adt_ty).as_str(), ""),
                ));
            },
        };
        let (layout, tag) = self.ctx.variant_tag(def, variant_name)?;
        let size = layout.size;
        let mut v: Vec<Instr> = vec![
            Instr::I32Const(size as i32),
            Instr::Call(self.ctx.alloc_fn_index),
            Instr::Drop,
            Instr::GlobalGet(0),
            Instr::I32Const(size as i32),
            Instr::I32Sub,
            Instr::I32Const(tag as i32),
            Instr::I32Store(MemArg { offset: 0, align: 2 }),
            Instr::GlobalGet(0),
            Instr::I32Const(size as i32),
            Instr::I32Sub,
            Instr::LocalGet(payload_local),
        ];
        self.emit_typed_store_stack(&mut v, payload_ty, 8);
        let mut w: Vec<Instr> = vec![
            Instr::GlobalGet(0),
            Instr::I32Const(size as i32),
            Instr::I32Sub,
            Instr::LocalSet(out_local),
        ];
        v.append(&mut w);
        out.append(&mut v);
        Ok(())
    }
}

} // verus!
