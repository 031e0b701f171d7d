//! Emission of the option and result combinators, the parse results and the digit conversion of characters.

use vstd::prelude::*;
use crate::error::{concat3, CodegenError, ErrorKind};
use crate::func::{chain, emits, FuncCodegen};
use crate::instr::{BlockTy, Instr, MemArg, ValTy};
use crate::ir::{Ty, ValueId};
use crate::module::{spec_typed_load};
use crate::text::ty_text;

verus! {

impl<'a> FuncCodegen<'a> {

    /// The instructions that `emit_option_unwrap_or` appends when it succeeds, or the kind of its error.
    pub open spec fn spec_emit_option_unwrap_or(&self, option: ValueId, fallback: ValueId, result_ty: Ty) -> Result<Seq<Instr>, ErrorKind> {
        {
            let input_option_ty = self.spec_value_ty(option);
            match self.spec_lookup_option_variant_tags(input_option_ty) {
                Err(k) => Err(k),
                Ok((some_ty, some_tag, none_tag)) => Ok({
                    let temp_local = self.spec_temp_local_for_ty(result_ty);
                    seq![
                        Instr::LocalGet(self.spec_local(option)),
                        Instr::LocalSet(self.scratch_i32),
                        Instr::LocalGet(self.scratch_i32),
                        Instr::I32Load(MemArg { offset: 0, align: 2 }),
                        Instr::LocalSet(self.scratch_i32_2),
                        Instr::LocalGet(self.scratch_i32_2),
                        Instr::I32Const(some_tag as i32),
                        Instr::I32Eq,
                        Instr::If(BlockTy::Empty),
                    ]
                    + self.spec_emit_option_payload_load_from_local(self.scratch_i32, some_ty)
                    + seq![
                        Instr::LocalSet(temp_local),
                        Instr::Else,
                        Instr::LocalGet(self.scratch_i32_2),
                        Instr::I32Const(none_tag as i32),
                        Instr::I32Eq,
                        Instr::I32Eqz,
                    ]
                    + self.spec_emit_trap_if_true()
                    + seq![
                        Instr::LocalGet(self.spec_local(fallback)),
                        Instr::LocalSet(temp_local),
                        Instr::End,
                        Instr::LocalGet(temp_local),
                    ]
                }),
            }
        }
    }

    /// Appends the instructions of `emit_option_unwrap_or`.
    pub(crate) fn emit_option_unwrap_or(&self, out: &mut Vec<Instr>, option: ValueId, fallback: ValueId, result_ty: &Ty) -> (r: Result<(), CodegenError>)
        requires
            self.wf(),
            self.value_ok(option),
            self.value_ok(fallback),
        ensures
            emits(r, old(out)@, final(out)@, self.spec_emit_option_unwrap_or(option, fallback, *result_ty)),
    {
        let mut v: Vec<Instr> = Vec::new();
        let input_option_ty = self.value_ty(option);
        let (some_ty, some_tag, none_tag) = self.lookup_option_variant_tags(input_option_ty, "option_unwrap_or")?;
        let temp_local = self.temp_local_for_ty(result_ty);
        let mut w: Vec<Instr> = vec![
            Instr::LocalGet(self.local_for(option)),
            Instr::LocalSet(self.scratch_i32),
            Instr::LocalGet(self.scratch_i32),
            Instr::I32Load(MemArg { offset: 0, align: 2 }),
            Instr::LocalSet(self.scratch_i32_2),
            Instr::LocalGet(self.scratch_i32_2),
            Instr::I32Const(some_tag as i32),
            Instr::I32Eq,
            Instr::If(BlockTy::Empty),
        ];
        v.append(&mut w);
        self.emit_option_payload_load_from_local(&mut v, self.scratch_i32, some_ty);
        let mut w: Vec<Instr> = vec![
            Instr::LocalSet(temp_local),
            Instr::Else,
            Instr::LocalGet(self.scratch_i32_2),
            Instr::I32Const(none_tag as i32),
            Instr::I32Eq,
            Instr::I32Eqz,
        ];
        v.append(&mut w);
        self.emit_trap_if_true(&mut v);
        let mut w: Vec<Instr> = vec![
            Instr::LocalGet(self.local_for(fallback)),
            Instr::LocalSet(temp_local),
            Instr::End,
            Instr::LocalGet(temp_local),
        ];
        v.append(&mut w);
        assert(self.spec_emit_option_unwrap_or(option, fallback, *result_ty) matches Ok(s) && v@ =~= s);
        out.append(&mut v);
        Ok(())
    }

    /// The instructions that `emit_option_map` appends when it succeeds, or the kind of its error.
    pub open spec fn spec_emit_option_map(&self, option: ValueId, mapper: ValueId, result_ty: Ty) -> Result<Seq<Instr>, ErrorKind> {
        {
            let input_option_ty = self.spec_value_ty(option);
            match self.spec_lookup_option_variant_tags(input_option_ty) {
                Err(k) => Err(k),
                Ok((input_some_ty, input_some_tag, input_none_tag)) => match self.spec_lookup_option_variant_tags(result_ty) {
                    Err(k) => Err(k),
                    Ok((output_some_ty, _output_some_tag, _output_none_tag)) => {
                        let mapped_local = self.spec_temp_local_for_ty(output_some_ty);
                        chain(chain(chain(chain(chain(chain(Ok(seq![
                            Instr::LocalGet(self.spec_local(option)),
                            Instr::LocalSet(self.scratch_i32),
                            Instr::LocalGet(self.scratch_i32),
                            Instr::I32Load(MemArg { offset: 0, align: 2 }),
                            Instr::LocalSet(self.scratch_i32_2),
                            Instr::LocalGet(self.scratch_i32_2),
                            Instr::I32Const(input_some_tag as i32),
                            Instr::I32Eq,
                            Instr::If(BlockTy::Empty),
                        ]
                        + self.spec_emit_option_payload_load_from_local(self.scratch_i32, input_some_ty)), self.spec_emit_indirect_call_single_arg(mapper)), Ok(seq![Instr::LocalSet(mapped_local)])), self.spec_emit_single_field_adt_from_local(result_ty, "Some"@, mapped_local, output_some_ty, self.scratch_i32_6)), Ok(seq![
                            Instr::Else,
                            Instr::LocalGet(self.scratch_i32_2),
                            Instr::I32Const(input_none_tag as i32),
                            Instr::I32Eq,
                            Instr::I32Eqz,
                        ]
                        + self.spec_emit_trap_if_true())), self.spec_emit_option_none(result_ty, self.scratch_i32_6)), Ok(seq![Instr::End, Instr::LocalGet(self.scratch_i32_6)]))
                    },
                },
            }
        }
    }

    /// Appends the instructions of `emit_option_map`.
    pub(crate) fn emit_option_map(&self, out: &mut Vec<Instr>, option: ValueId, mapper: ValueId, result_ty: &Ty) -> (r: Result<(), CodegenError>)
        requires
            self.wf(),
            self.value_ok(option),
            self.value_ok(mapper),
        ensures
            emits(r, old(out)@, final(out)@, self.spec_emit_option_map(option, mapper, *result_ty)),
    {
        let mut v: Vec<Instr> = Vec::new();
        let input_option_ty = self.value_ty(option);
        let (input_some_ty, input_some_tag, input_none_tag) = self.lookup_option_variant_tags(input_option_ty, "option_map")?;
        let (output_some_ty, _output_some_tag, _output_none_tag) = self.lookup_option_variant_tags(result_ty, "option_map")?;
        let mapped_local = self.temp_local_for_ty(output_some_ty);
        let mut w: Vec<Instr> = vec![
            Instr::LocalGet(self.local_for(option)),
            Instr::LocalSet(self.scratch_i32),
            Instr::LocalGet(self.scratch_i32),
            Instr::I32Load(MemArg { offset: 0, align: 2 }),
            Instr::LocalSet(self.scratch_i32_2),
            Instr::LocalGet(self.scratch_i32_2),
            Instr::I32Const(input_some_tag as i32),
            Instr::I32Eq,
            Instr::If(BlockTy::Empty),
        ];
        v.append(&mut w);
        self.emit_option_payload_load_from_local(&mut v, self.scratch_i32, input_some_ty);
        self.emit_indirect_call_single_arg(&mut v, mapper)?;
        let mut w: Vec<Instr> = vec![Instr::LocalSet(mapped_local)];
        v.append(&mut w);
        self.emit_single_field_adt_from_local(&mut v, result_ty, "Some", mapped_local, output_some_ty, self.scratch_i32_6)?;
        let mut w: Vec<Instr> = vec![
            Instr::Else,
            Instr::LocalGet(self.scratch_i32_2),
            Instr::I32Const(input_none_tag as i32),
            Instr::I32Eq,
            Instr::I32Eqz,
        ];
        v.append(&mut w);
        self.emit_trap_if_true(&mut v);
        self.emit_option_none(&mut v, result_ty, self.scratch_i32_6)?;
        let mut w: Vec<Instr> = vec![Instr::End, Instr::LocalGet(self.scratch_i32_6)];
        v.append(&mut w);
        assert(self.spec_emit_option_map(option, mapper, *result_ty) matches Ok(s) && v@ =~= s);
        out.append(&mut v);
        Ok(())
    }

    /// The instructions that `emit_option_and_then` appends when it succeeds, or the kind of its error.
    pub open spec fn spec_emit_option_and_then(&self, option: ValueId, mapper: ValueId, result_ty: Ty) -> Result<Seq<Instr>, ErrorKind> {
        {
            let input_option_ty = self.spec_value_ty(option);
            match self.spec_lookup_option_variant_tags(input_option_ty) {
                Err(k) => Err(k),
                Ok((input_some_ty, input_some_tag, input_none_tag)) => chain(chain(chain(chain(Ok(seq![
                    Instr::LocalGet(self.spec_local(option)),
                    Instr::LocalSet(self.scratch_i32),
                    Instr::LocalGet(self.scratch_i32),
                    Instr::I32Load(MemArg { offset: 0, align: 2 }),
                    Instr::LocalSet(self.scratch_i32_2),
                    Instr::LocalGet(self.scratch_i32_2),
                    Instr::I32Const(input_some_tag as i32),
                    Instr::I32Eq,
                    Instr::If(BlockTy::Empty),
                ]
                + self.spec_emit_option_payload_load_from_local(self.scratch_i32, input_some_ty)), self.spec_emit_indirect_call_single_arg(mapper)), Ok(seq![
                    Instr::LocalSet(self.scratch_i32_6),
                    Instr::Else,
                    Instr::LocalGet(self.scratch_i32_2),
                    Instr::I32Const(input_none_tag as i32),
                    Instr::I32Eq,
                    Instr::I32Eqz,
                ]
                + self.spec_emit_trap_if_true())), self.spec_emit_option_none(result_ty, self.scratch_i32_6)), Ok(seq![Instr::End, Instr::LocalGet(self.scratch_i32_6)])),
            }
        }
    }

    /// Appends the instructions of `emit_option_and_then`.
    pub(crate) fn emit_option_and_then(&self, out: &mut Vec<Instr>, option: ValueId, mapper: ValueId, result_ty: &Ty) -> (r: Result<(), CodegenError>)
        requires
            self.wf(),
            self.value_ok(option),
            self.value_ok(mapper),
        ensures
            emits(r, old(out)@, final(out)@, self.spec_emit_option_and_then(option, mapper, *result_ty)),
    {
        let mut v: Vec<Instr> = Vec::new();
        let input_option_ty = self.value_ty(option);
        let (input_some_ty, input_some_tag, input_none_tag) = self.lookup_option_variant_tags(input_option_ty, "option_and_then")?;
        let mut w: Vec<Instr> = vec![
            Instr::LocalGet(self.local_for(option)),
            Instr::LocalSet(self.scratch_i32),
            Instr::LocalGet(self.scratch_i32),
            Instr::I32Load(MemArg { offset: 0, align: 2 }),
            Instr::LocalSet(self.scratch_i32_2),
            Instr::LocalGet(self.scratch_i32_2),
            Instr::I32Const(input_some_tag as i32),
            Instr::I32Eq,
            Instr::If(BlockTy::Empty),
        ];
        v.append(&mut w);
        self.emit_option_payload_load_from_local(&mut v, self.scratch_i32, input_some_ty);
        self.emit_indirect_call_single_arg(&mut v, mapper)?;
        let mut w: Vec<Instr> = vec![
            Instr::LocalSet(self.scratch_i32_6),
            Instr::Else,
            Instr::LocalGet(self.scratch_i32_2),
            Instr::I32Const(input_none_tag as i32),
            Instr::I32Eq,
            Instr::I32Eqz,
        ];
        v.append(&mut w);
        self.emit_trap_if_true(&mut v);
        self.emit_option_none(&mut v, result_ty, self.scratch_i32_6)?;
        let mut w: Vec<Instr> = vec![Instr::End, Instr::LocalGet(self.scratch_i32_6)];
        v.append(&mut w);
        assert(self.spec_emit_option_and_then(option, mapper, *result_ty) matches Ok(s) && v@ =~= s);
        out.append(&mut v);
        Ok(())
    }

    /// The instructions that `emit_option_map_or` appends when it succeeds, or the kind of its error.
    pub open spec fn spec_emit_option_map_or(&self, option: ValueId, fallback: ValueId, mapper: ValueId, result_ty: Ty) -> Result<Seq<Instr>, ErrorKind> {
        {
            let input_option_ty = self.spec_value_ty(option);
            match self.spec_lookup_option_variant_tags(input_option_ty) {
                Err(k) => Err(k),
                Ok((input_some_ty, input_some_tag, input_none_tag)) => {
                    let temp_local = self.spec_temp_local_for_ty(result_ty);
                    chain(chain(Ok(seq![
                        Instr::LocalGet(self.spec_local(option)),
                        Instr::LocalSet(self.scratch_i32),
                        Instr::LocalGet(self.scratch_i32),
                        Instr::I32Load(MemArg { offset: 0, align: 2 }),
                        Instr::LocalSet(self.scratch_i32_2),
                        Instr::LocalGet(self.scratch_i32_2),
                        Instr::I32Const(input_some_tag as i32),
                        Instr::I32Eq,
                        Instr::If(BlockTy::Empty),
                    ]
                    + self.spec_emit_option_payload_load_from_local(self.scratch_i32, input_some_ty)), self.spec_emit_indirect_call_single_arg(mapper)), Ok(seq![
                        Instr::LocalSet(temp_local),
                        Instr::Else,
                        Instr::LocalGet(self.scratch_i32_2),
                        Instr::I32Const(input_none_tag as i32),
                        Instr::I32Eq,
                        Instr::I32Eqz,
                    ]
                    + self.spec_emit_trap_if_true()
                    + seq![
                        Instr::LocalGet(self.spec_local(fallback)),
                        Instr::LocalSet(temp_local),
                        Instr::End,
                        Instr::LocalGet(temp_local),
                    ]))
                },
            }
        }
    }

    /// Appends the instructions of `emit_option_map_or`.
    pub(crate) fn emit_option_map_or(&self, out: &mut Vec<Instr>, option: ValueId, fallback: ValueId, mapper: ValueId, result_ty: &Ty) -> (r: Result<(), CodegenError>)
        requires
            self.wf(),
            self.value_ok(option),
            self.value_ok(fallback),
            self.value_ok(mapper),
        ensures
            emits(r, old(out)@, final(out)@, self.spec_emit_option_map_or(option, fallback, mapper, *result_ty)),
    {
        let mut v: Vec<Instr> = Vec::new();
        let input_option_ty = self.value_ty(option);
        let (input_some_ty, input_some_tag, input_none_tag) = self.lookup_option_variant_tags(input_option_ty, "option_map_or")?;
        let temp_local = self.temp_local_for_ty(result_ty);
        let mut w: Vec<Instr> = vec![
            Instr::LocalGet(self.local_for(option)),
            Instr::LocalSet(self.scratch_i32),
            Instr::LocalGet(self.scratch_i32),
            Instr::I32Load(MemArg { offset: 0, align: 2 }),
            Instr::LocalSet(self.scratch_i32_2),
            Instr::LocalGet(self.scratch_i32_2),
            Instr::I32Const(input_some_tag as i32),
            Instr::I32Eq,
            Instr::If(BlockTy::Empty),
        ];
        v.append(&mut w);
        self.emit_option_payload_load_from_local(&mut v, self.scratch_i32, input_some_ty);
        self.emit_indirect_call_single_arg(&mut v, mapper)?;
        let mut w: Vec<Instr> = vec![
            Instr::LocalSet(temp_local),
            Instr::Else,
            Instr::LocalGet(self.scratch_i32_2),
            Instr::I32Const(input_none_tag as i32),
            Instr::I32Eq,
            Instr::I32Eqz,
        ];
        v.append(&mut w);
        self.emit_trap_if_true(&mut v);
        let mut w: Vec<Instr> = vec![
            Instr::LocalGet(self.local_for(fallback)),
            Instr::LocalSet(temp_local),
            Instr::End,
            Instr::LocalGet(temp_local),
        ];
        v.append(&mut w);
        assert(self.spec_emit_option_map_or(option, fallback, mapper, *result_ty) matches Ok(s) && v@ =~= s);
        out.append(&mut v);
        Ok(())
    }

    /// The instructions that `emit_result_unwrap_or` appends when it succeeds, or the kind of its error.
    pub open spec fn spec_emit_result_unwrap_or(&self, result: ValueId, fallback: ValueId, result_ty: Ty) -> Result<Seq<Instr>, ErrorKind> {
        {
            let input_result_ty = self.spec_value_ty(result);
            match self.spec_lookup_result_variant_tags(input_result_ty) {
                Err(k) => Err(k),
                Ok((ok_ty, _err_ty, ok_tag, _err_tag)) => Ok({
                    let temp_local = self.spec_temp_local_for_ty(result_ty);
                    seq![
                        Instr::LocalGet(self.spec_local(result)),
                        Instr::LocalSet(self.scratch_i32),
                        Instr::LocalGet(self.scratch_i32),
                        Instr::I32Load(MemArg { offset: 0, align: 2 }),
                        Instr::I32Const(ok_tag as i32),
                        Instr::I32Eq,
                        Instr::If(BlockTy::Empty),
                    ]
                    + self.spec_emit_result_payload_load_from_local(self.scratch_i32, ok_ty)
                    + seq![
                        Instr::LocalSet(temp_local),
                        Instr::Else,
                        Instr::LocalGet(self.spec_local(fallback)),
                        Instr::LocalSet(temp_local),
                        Instr::End,
                        Instr::LocalGet(temp_local),
                    ]
                }),
            }
        }
    }

    /// Appends the instructions of `emit_result_unwrap_or`.
    pub(crate) fn emit_result_unwrap_or(&self, out: &mut Vec<Instr>, result: ValueId, fallback: ValueId, result_ty: &Ty) -> (r: Result<(), CodegenError>)
        requires
            self.wf(),
            self.value_ok(result),
            self.value_ok(fallback),
        ensures
            emits(r, old(out)@, final(out)@, self.spec_emit_result_unwrap_or(result, fallback, *result_ty)),
    {
        let mut v: Vec<Instr> = Vec::new();
        let input_result_ty = self.value_ty(result);
        let (ok_ty, _err_ty, ok_tag, _err_tag) = self.lookup_result_variant_tags(input_result_ty, "result_unwrap_or")?;
        let temp_local = self.temp_local_for_ty(result_ty);
        let mut w: Vec<Instr> = vec![
            Instr::LocalGet(self.local_for(result)),
            Instr::LocalSet(self.scratch_i32),
            Instr::LocalGet(self.scratch_i32),
            Instr::I32Load(MemArg { offset: 0, align: 2 }),
            Instr::I32Const(ok_tag as i32),
            Instr::I32Eq,
            Instr::If(BlockTy::Empty),
        ];
        v.append(&mut w);
        self.emit_result_payload_load_from_local(&mut v, self.scratch_i32, ok_ty);
        let mut w: Vec<Instr> = vec![
            Instr::LocalSet(temp_local),
            Instr::Else,
            Instr::LocalGet(self.local_for(fallback)),
            Instr::LocalSet(temp_local),
            Instr::End,
            Instr::LocalGet(temp_local),
        ];
        v.append(&mut w);
        assert(self.spec_emit_result_unwrap_or(result, fallback, *result_ty) matches Ok(s) && v@ =~= s);
        out.append(&mut v);
        Ok(())
    }

    /// The instructions that `emit_result_map` appends when it succeeds, or the kind of its error.
    pub open spec fn spec_emit_result_map(&self, result: ValueId, mapper: ValueId, result_ty: Ty) -> Result<Seq<Instr>, ErrorKind> {
        {
            let input_result_ty = self.spec_value_ty(result);
            match self.spec_lookup_result_variant_tags(input_result_ty) {
                Err(k) => Err(k),
                Ok((input_ok_ty, input_err_ty, input_ok_tag, _input_err_tag)) => match self.spec_lookup_result_variant_tags(result_ty) {
                    Err(k) => Err(k),
                    Ok((output_ok_ty, output_err_ty, _output_ok_tag, _output_err_tag)) => {
                        let mapped_local = self.spec_temp_local_for_ty(output_ok_ty);
                        {
                            let err_local = self.spec_temp_local_for_ty(output_err_ty);
                            chain(chain(chain(chain(chain(chain(Ok(seq![
                                Instr::LocalGet(self.spec_local(result)),
                                Instr::LocalSet(self.scratch_i32),
                                Instr::LocalGet(self.scratch_i32),
                                Instr::I32Load(MemArg { offset: 0, align: 2 }),
                                Instr::I32Const(input_ok_tag as i32),
                                Instr::I32Eq,
                                Instr::If(BlockTy::Empty),
                            ]
                            + self.spec_emit_result_payload_load_from_local(self.scratch_i32, input_ok_ty)), self.spec_emit_indirect_call_single_arg(mapper)), Ok(seq![Instr::LocalSet(mapped_local)])), self.spec_emit_single_field_adt_from_local(result_ty, "Ok"@, mapped_local, output_ok_ty, self.scratch_i32_6)), Ok(seq![Instr::Else]
                            + self.spec_emit_result_payload_load_from_local(self.scratch_i32, input_err_ty)
                            + seq![Instr::LocalSet(err_local)])), self.spec_emit_single_field_adt_from_local(result_ty, "Err"@, err_local, output_err_ty, self.scratch_i32_6)), Ok(seq![Instr::End, Instr::LocalGet(self.scratch_i32_6)]))
                        }
                    },
                },
            }
        }
    }

    /// Appends the instructions of `emit_result_map`.
    pub(crate) fn emit_result_map(&self, out: &mut Vec<Instr>, result: ValueId, mapper: ValueId, result_ty: &Ty) -> (r: Result<(), CodegenError>)
        requires
            self.wf(),
            self.value_ok(result),
            self.value_ok(mapper),
        ensures
            emits(r, old(out)@, final(out)@, self.spec_emit_result_map(result, mapper, *result_ty)),
    {
        let mut v: Vec<Instr> = Vec::new();
        let input_result_ty = self.value_ty(result);
        let (input_ok_ty, input_err_ty, input_ok_tag, _input_err_tag) = self.lookup_result_variant_tags(input_result_ty, "result_map")?;
        let (output_ok_ty, output_err_ty, _output_ok_tag, _output_err_tag) = self.lookup_result_variant_tags(result_ty, "result_map")?;
        let mapped_local = self.temp_local_for_ty(output_ok_ty);
        let err_local = self.temp_local_for_ty(output_err_ty);
        let mut w: Vec<Instr> = vec![
            Instr::LocalGet(self.local_for(result)),
            Instr::LocalSet(self.scratch_i32),
            Instr::LocalGet(self.scratch_i32),
            Instr::I32Load(MemArg { offset: 0, align: 2 }),
            Instr::I32Const(input_ok_tag as i32),
            Instr::I32Eq,
            Instr::If(BlockTy::Empty),
        ];
        v.append(&mut w);
        self.emit_result_payload_load_from_local(&mut v, self.scratch_i32, input_ok_ty);
        self.emit_indirect_call_single_arg(&mut v, mapper)?;
        let mut w: Vec<Instr> = vec![Instr::LocalSet(mapped_local)];
        v.append(&mut w);
        self.emit_single_field_adt_from_local(&mut v, result_ty, "Ok", mapped_local, output_ok_ty, self.scratch_i32_6)?;
        let mut w: Vec<Instr> = vec![Instr::Else];
        v.append(&mut w);
        self.emit_result_payload_load_from_local(&mut v, self.scratch_i32, input_err_ty);
        let mut w: Vec<Instr> = vec![Instr::LocalSet(err_local)];
        v.append(&mut w);
        self.emit_single_field_adt_from_local(&mut v, result_ty, "Err", err_local, output_err_ty, self.scratch_i32_6)?;
        let mut w: Vec<Instr> = vec![Instr::End, Instr::LocalGet(self.scratch_i32_6)];
        v.append(&mut w);
        assert(self.spec_emit_result_map(result, mapper, *result_ty) matches Ok(s) && v@ =~= s);
        out.append(&mut v);
        Ok(())
    }

    /// The instructions that `emit_result_and_then` appends when it succeeds, or the kind of its error.
    pub open spec fn spec_emit_result_and_then(&self, result: ValueId, mapper: ValueId, result_ty: Ty) -> Result<Seq<Instr>, ErrorKind> {
        {
            let input_result_ty = self.spec_value_ty(result);
            match self.spec_lookup_result_variant_tags(input_result_ty) {
                Err(k) => Err(k),
                Ok((input_ok_ty, input_err_ty, input_ok_tag, _input_err_tag)) => match self.spec_lookup_result_variant_tags(result_ty) {
                    Err(k) => Err(k),
                    Ok((_output_ok_ty, output_err_ty, _output_ok_tag, _output_err_tag)) => {
                        let err_local = self.spec_temp_local_for_ty(output_err_ty);
                        chain(chain(chain(chain(Ok(seq![
                            Instr::LocalGet(self.spec_local(result)),
                            Instr::LocalSet(self.scratch_i32),
                            Instr::LocalGet(self.scratch_i32),
                            Instr::I32Load(MemArg { offset: 0, align: 2 }),
                            Instr::I32Const(input_ok_tag as i32),
                            Instr::I32Eq,
                            Instr::If(BlockTy::Empty),
                        ]
                        + self.spec_emit_result_payload_load_from_local(self.scratch_i32, input_ok_ty)), self.spec_emit_indirect_call_single_arg(mapper)), Ok(seq![Instr::LocalSet(self.scratch_i32_6), Instr::Else]
                        + self.spec_emit_result_payload_load_from_local(self.scratch_i32, input_err_ty)
                        + seq![Instr::LocalSet(err_local)])), self.spec_emit_single_field_adt_from_local(result_ty, "Err"@, err_local, output_err_ty, self.scratch_i32_6)), Ok(seq![Instr::End, Instr::LocalGet(self.scratch_i32_6)]))
                    },
                },
            }
        }
    }

    /// Appends the instructions of `emit_result_and_then`.
    pub(crate) fn emit_result_and_then(&self, out: &mut Vec<Instr>, result: ValueId, mapper: ValueId, result_ty: &Ty) -> (r: Result<(), CodegenError>)
        requires
            self.wf(),
            self.value_ok(result),
            self.value_ok(mapper),
        ensures
            emits(r, old(out)@, final(out)@, self.spec_emit_result_and_then(result, mapper, *result_ty)),
    {
        let mut v: Vec<Instr> = Vec::new();
        let input_result_ty = self.value_ty(result);
        let (input_ok_ty, input_err_ty, input_ok_tag, _input_err_tag) = self.lookup_result_variant_tags(input_result_ty, "result_and_then")?;
        let (_output_ok_ty, output_err_ty, _output_ok_tag, _output_err_tag) = self.lookup_result_variant_tags(result_ty, "result_and_then")?;
        let err_local = self.temp_local_for_ty(output_err_ty);
        let mut w: Vec<Instr> = vec![
            Instr::LocalGet(self.local_for(result)),
            Instr::LocalSet(self.scratch_i32),
            Instr::LocalGet(self.scratch_i32),
            Instr::I32Load(MemArg { offset: 0, align: 2 }),
            Instr::I32Const(input_ok_tag as i32),
            Instr::I32Eq,
            Instr::If(BlockTy::Empty),
        ];
        v.append(&mut w);
        self.emit_result_payload_load_from_local(&mut v, self.scratch_i32, input_ok_ty);
        self.emit_indirect_call_single_arg(&mut v, mapper)?;
        let mut w: Vec<Instr> = vec![Instr::LocalSet(self.scratch_i32_6), Instr::Else];
        v.append(&mut w);
        self.emit_result_payload_load_from_local(&mut v, self.scratch_i32, input_err_ty);
        let mut w: Vec<Instr> = vec![Instr::LocalSet(err_local)];
        v.append(&mut w);
        self.emit_single_field_adt_from_local(&mut v, result_ty, "Err", err_local, output_err_ty, self.scratch_i32_6)?;
        let mut w: Vec<Instr> = vec![Instr::End, Instr::LocalGet(self.scratch_i32_6)];
        v.append(&mut w);
        assert(self.spec_emit_result_and_then(result, mapper, *result_ty) matches Ok(s) && v@ =~= s);
        out.append(&mut v);
        Ok(())
    }

    /// The instructions that `emit_result_map_err` appends when it succeeds, or the kind of its error.
    pub open spec fn spec_emit_result_map_err(&self, result: ValueId, mapper: ValueId, result_ty: Ty) -> Result<Seq<Instr>, ErrorKind> {
        {
            let input_result_ty = self.spec_value_ty(result);
            match self.spec_lookup_result_variant_tags(input_result_ty) {
                Err(k) => Err(k),
                Ok((input_ok_ty, input_err_ty, input_ok_tag, _input_err_tag)) => match self.spec_lookup_result_variant_tags(result_ty) {
                    Err(k) => Err(k),
                    Ok((output_ok_ty, output_err_ty, _output_ok_tag, _output_err_tag)) => {
                        let ok_local = self.spec_temp_local_for_ty(output_ok_ty);
                        {
                            let mapped_err_local = self.spec_temp_local_for_ty(output_err_ty);
                            chain(chain(chain(chain(chain(chain(Ok(seq![
                                Instr::LocalGet(self.spec_local(result)),
                                Instr::LocalSet(self.scratch_i32),
                                Instr::LocalGet(self.scratch_i32),
                                Instr::I32Load(MemArg { offset: 0, align: 2 }),
                                Instr::I32Const(input_ok_tag as i32),
                                Instr::I32Eq,
                                Instr::If(BlockTy::Empty),
                            ]
                            + self.spec_emit_result_payload_load_from_local(self.scratch_i32, input_ok_ty)
                            + seq![Instr::LocalSet(ok_local)]), self.spec_emit_single_field_adt_from_local(result_ty, "Ok"@, ok_local, output_ok_ty, self.scratch_i32_6)), Ok(seq![Instr::Else]
                            + self.spec_emit_result_payload_load_from_local(self.scratch_i32, input_err_ty))), self.spec_emit_indirect_call_single_arg(mapper)), Ok(seq![Instr::LocalSet(mapped_err_local)])), self.spec_emit_single_field_adt_from_local(result_ty, "Err"@, mapped_err_local, output_err_ty, self.scratch_i32_6)), Ok(seq![Instr::End, Instr::LocalGet(self.scratch_i32_6)]))
                        }
                    },
                },
            }
        }
    }

    /// Appends the instructions of `emit_result_map_err`.
    pub(crate) fn emit_result_map_err(&self, out: &mut Vec<Instr>, result: ValueId, mapper: ValueId, result_ty: &Ty) -> (r: Result<(), CodegenError>)
        requires
            self.wf(),
            self.value_ok(result),
            self.value_ok(mapper),
        ensures
            emits(r, old(out)@, final(out)@, self.spec_emit_result_map_err(result, mapper, *result_ty)),
    {
        let mut v: Vec<Instr> = Vec::new();
        let input_result_ty = self.value_ty(result);
        let (input_ok_ty, input_err_ty, input_ok_tag, _input_err_tag) = self.lookup_result_variant_tags(input_result_ty, "result_map_err")?;
        let (output_ok_ty, output_err_ty, _output_ok_tag, _output_err_tag) = self.lookup_result_variant_tags(result_ty, "result_map_err")?;
        let ok_local = self.temp_local_for_ty(output_ok_ty);
        let mapped_err_local = self.temp_local_for_ty(output_err_ty);
        let mut w: Vec<Instr> = vec![
            Instr::LocalGet(self.local_for(result)),
            Instr::LocalSet(self.scratch_i32),
            Instr::LocalGet(self.scratch_i32),
            Instr::I32Load(MemArg { offset: 0, align: 2 }),
            Instr::I32Const(input_ok_tag as i32),
            Instr::I32Eq,
            Instr::If(BlockTy::Empty),
        ];
        v.append(&mut w);
        self.emit_result_payload_load_from_local(&mut v, self.scratch_i32, input_ok_ty);
        let mut w: Vec<Instr> = vec![Instr::LocalSet(ok_local)];
        v.append(&mut w);
        self.emit_single_field_adt_from_local(&mut v, result_ty, "Ok", ok_local, output_ok_ty, self.scratch_i32_6)?;
        let mut w: Vec<Instr> = vec![Instr::Else];
        v.append(&mut w);
        self.emit_result_payload_load_from_local(&mut v, self.scratch_i32, input_err_ty);
        self.emit_indirect_call_single_arg(&mut v, mapper)?;
        let mut w: Vec<Instr> = vec![Instr::LocalSet(mapped_err_local)];
        v.append(&mut w);
        self.emit_single_field_adt_from_local(&mut v, result_ty, "Err", mapped_err_local, output_err_ty, self.scratch_i32_6)?;
        let mut w: Vec<Instr> = vec![Instr::End, Instr::LocalGet(self.scratch_i32_6)];
        v.append(&mut w);
        assert(self.spec_emit_result_map_err(result, mapper, *result_ty) matches Ok(s) && v@ =~= s);
        out.append(&mut v);
        Ok(())
    }

    /// The instructions that `emit_result_map_or` appends when it succeeds, or the kind of its error.
    pub open spec fn spec_emit_result_map_or(&self, result: ValueId, fallback: ValueId, mapper: ValueId, result_ty: Ty) -> Result<Seq<Instr>, ErrorKind> {
        {
            let input_result_ty = self.spec_value_ty(result);
            match self.spec_lookup_result_variant_tags(input_result_ty) {
                Err(k) => Err(k),
                Ok((input_ok_ty, _input_err_ty, input_ok_tag, _input_err_tag)) => {
                    let temp_local = self.spec_temp_local_for_ty(result_ty);
                    chain(chain(Ok(seq![
                        Instr::LocalGet(self.spec_local(result)),
                        Instr::LocalSet(self.scratch_i32),
                        Instr::LocalGet(self.scratch_i32),
                        Instr::I32Load(MemArg { offset: 0, align: 2 }),
                        Instr::I32Const(input_ok_tag as i32),
                        Instr::I32Eq,
                        Instr::If(BlockTy::Empty),
                    ]
                    + self.spec_emit_result_payload_load_from_local(self.scratch_i32, input_ok_ty)), self.spec_emit_indirect_call_single_arg(mapper)), Ok(seq![
                        Instr::LocalSet(temp_local),
                        Instr::Else,
                        Instr::LocalGet(self.spec_local(fallback)),
                        Instr::LocalSet(temp_local),
                        Instr::End,
                        Instr::LocalGet(temp_local),
                    ]))
                },
            }
        }
    }

    /// Appends the instructions of `emit_result_map_or`.
    pub(crate) fn emit_result_map_or(&self, out: &mut Vec<Instr>, result: ValueId, fallback: ValueId, mapper: ValueId, result_ty: &Ty) -> (r: Result<(), CodegenError>)
        requires
            self.wf(),
            self.value_ok(result),
            self.value_ok(fallback),
            self.value_ok(mapper),
        ensures
            emits(r, old(out)@, final(out)@, self.spec_emit_result_map_or(result, fallback, mapper, *result_ty)),
    {
        let mut v: Vec<Instr> = Vec::new();
        let input_result_ty = self.value_ty(result);
        let (input_ok_ty, _input_err_ty, input_ok_tag, _input_err_tag) = self.lookup_result_variant_tags(input_result_ty, "result_map_or")?;
        let temp_local = self.temp_local_for_ty(result_ty);
        let mut w: Vec<Instr> = vec![
            Instr::LocalGet(self.local_for(result)),
            Instr::LocalSet(self.scratch_i32),
            Instr::LocalGet(self.scratch_i32),
            Instr::I32Load(MemArg { offset: 0, align: 2 }),
            Instr::I32Const(input_ok_tag as i32),
            Instr::I32Eq,
            Instr::If(BlockTy::Empty),
        ];
        v.append(&mut w);
        self.emit_result_payload_load_from_local(&mut v, self.scratch_i32, input_ok_ty);
        self.emit_indirect_call_single_arg(&mut v, mapper)?;
        let mut w: Vec<Instr> = vec![
            Instr::LocalSet(temp_local),
            Instr::Else,
            Instr::LocalGet(self.local_for(fallback)),
            Instr::LocalSet(temp_local),
            Instr::End,
            Instr::LocalGet(temp_local),
        ];
        v.append(&mut w);
        assert(self.spec_emit_result_map_or(result, fallback, mapper, *result_ty) matches Ok(s) && v@ =~= s);
        out.append(&mut v);
        Ok(())
    }

    /// The instructions that `emit_parse_int_result` appends when it succeeds, or the kind of its error.
    pub open spec fn spec_emit_parse_int_result(&self, value: ValueId, result_ty: Ty) -> Result<Seq<Instr>, ErrorKind> {
        match self.spec_lookup_result_payload_tys(result_ty) {
            Err(k) => Err(k),
            Ok((ok_ty, err_ty)) => chain(chain(chain(chain(chain(Ok(seq![
                Instr::I32Const(12i32),
                Instr::Call(self.ctx.alloc_fn_index),
                Instr::LocalSet(self.scratch_i32),
                Instr::LocalGet(self.spec_local(value)),
                Instr::I32Const(8i32),
                Instr::I32Add,
                Instr::LocalGet(self.spec_local(value)),
                Instr::I32Load(MemArg { offset: 0, align: 2 }),
                Instr::LocalGet(self.scratch_i32),
                Instr::LocalGet(self.scratch_i32),
                Instr::I32Const(8i32),
                Instr::I32Add,
                Instr::Call(self.ctx.parse_int_fn_index.unwrap()),
                Instr::LocalSet(self.scratch_i32_2),
                Instr::LocalGet(self.scratch_i32_2),
                Instr::I32Const(1i32),
                Instr::I32GtU,
            ]
            + self.spec_emit_trap_if_true()
            + seq![
                Instr::LocalGet(self.scratch_i32_2),
                Instr::If(BlockTy::Empty),
                Instr::LocalGet(self.scratch_i32),
                Instr::I32Load(MemArg { offset: 8, align: 2 }),
                Instr::LocalSet(self.scratch_i32_3),
            ]), self.spec_emit_single_field_adt_from_local(err_ty, "InvalidInt"@, self.scratch_i32_3, Ty::String, self.scratch_i32_4)), self.spec_emit_single_field_adt_from_local(result_ty, "Err"@, self.scratch_i32_4, err_ty, self.scratch_i32_6)), Ok(seq![
                Instr::Else,
                Instr::LocalGet(self.scratch_i32),
                Instr::I64Load(MemArg { offset: 0, align: 3 }),
                Instr::LocalSet(self.scratch_i64),
            ])), self.spec_emit_single_field_adt_from_local(result_ty, "Ok"@, self.scratch_i64, ok_ty, self.scratch_i32_6)), Ok(seq![Instr::End, Instr::LocalGet(self.scratch_i32_6)])),
        }
    }

    /// Appends the instructions of `emit_parse_int_result`.
    pub(crate) fn emit_parse_int_result(&self, out: &mut Vec<Instr>, value: ValueId, result_ty: &Ty) -> (r: Result<(), CodegenError>)
        requires
            self.wf(),
            self.value_ok(value),
            self.ctx.parse_int_fn_index is Some,
        ensures
            emits(r, old(out)@, final(out)@, self.spec_emit_parse_int_result(value, *result_ty)),
    {
        let mut v: Vec<Instr> = Vec::new();
        let (ok_ty, err_ty) = self.lookup_result_payload_tys(result_ty, "parse_int expected Result<Int, ParseError>, got ")?;
        let mut w: Vec<Instr> = vec![
            Instr::I32Const(12i32),
            Instr::Call(self.ctx.alloc_fn_index),
            Instr::LocalSet(self.scratch_i32),
            Instr::LocalGet(self.local_for(value)),
            Instr::I32Const(8i32),
            Instr::I32Add,
            Instr::LocalGet(self.local_for(value)),
            Instr::I32Load(MemArg { offset: 0, align: 2 }),
            Instr::LocalGet(self.scratch_i32),
            Instr::LocalGet(self.scratch_i32),
            Instr::I32Const(8i32),
            Instr::I32Add,
            Instr::Call(self.ctx.parse_int_fn_index.expect("parse_int helper should be imported when used")),
            Instr::LocalSet(self.scratch_i32_2),
            Instr::LocalGet(self.scratch_i32_2),
            Instr::I32Const(1i32),
            Instr::I32GtU,
        ];
        v.append(&mut w);
        self.emit_trap_if_true(&mut v);
        let mut w: Vec<Instr> = vec![
            Instr::LocalGet(self.scratch_i32_2),
            Instr::If(BlockTy::Empty),
            Instr::LocalGet(self.scratch_i32),
            Instr::I32Load(MemArg { offset: 8, align: 2 }),
            Instr::LocalSet(self.scratch_i32_3),
        ];
        v.append(&mut w);
        self.emit_single_field_adt_from_local(&mut v, err_ty, "InvalidInt", self.scratch_i32_3, &Ty::String, self.scratch_i32_4)?;
        self.emit_single_field_adt_from_local(&mut v, result_ty, "Err", self.scratch_i32_4, err_ty, self.scratch_i32_6)?;
        let mut w: Vec<Instr> = vec![
            Instr::Else,
            Instr::LocalGet(self.scratch_i32),
            Instr::I64Load(MemArg { offset: 0, align: 3 }),
            Instr::LocalSet(self.scratch_i64),
        ];
        v.append(&mut w);
        self.emit_single_field_adt_from_local(&mut v, result_ty, "Ok", self.scratch_i64, ok_ty, self.scratch_i32_6)?;
        let mut w: Vec<Instr> = vec![Instr::End, Instr::LocalGet(self.scratch_i32_6)];
        v.append(&mut w);
        assert(self.spec_emit_parse_int_result(value, *result_ty) matches Ok(s) && v@ =~= s);
        out.append(&mut v);
        Ok(())
    }

    /// The instructions that `emit_parse_float_result` appends when it succeeds, or the kind of its error.
    pub open spec fn spec_emit_parse_float_result(&self, value: ValueId, result_ty: Ty) -> Result<Seq<Instr>, ErrorKind> {
        match self.spec_lookup_result_payload_tys(result_ty) {
            Err(k) => Err(k),
            Ok((ok_ty, err_ty)) => chain(chain(chain(chain(chain(Ok(seq![
                Instr::I32Const(12i32),
                Instr::Call(self.ctx.alloc_fn_index),
                Instr::LocalSet(self.scratch_i32),
                Instr::LocalGet(self.spec_local(value)),
                Instr::I32Const(8i32),
                Instr::I32Add,
                Instr::LocalGet(self.spec_local(value)),
                Instr::I32Load(MemArg { offset: 0, align: 2 }),
                Instr::LocalGet(self.scratch_i32),
                Instr::LocalGet(self.scratch_i32),
                Instr::I32Const(8i32),
                Instr::I32Add,
                Instr::Call(self.ctx.parse_float_fn_index.unwrap()),
                Instr::LocalSet(self.scratch_i32_2),
                Instr::LocalGet(self.scratch_i32_2),
                Instr::I32Const(1i32),
                Instr::I32GtU,
            ]
            + self.spec_emit_trap_if_true()
            + seq![
                Instr::LocalGet(self.scratch_i32_2),
                Instr::If(BlockTy::Empty),
                Instr::LocalGet(self.scratch_i32),
                Instr::I32Load(MemArg { offset: 8, align: 2 }),
                Instr::LocalSet(self.scratch_i32_3),
            ]), self.spec_emit_single_field_adt_from_local(err_ty, "InvalidFloat"@, self.scratch_i32_3, Ty::String, self.scratch_i32_4)), self.spec_emit_single_field_adt_from_local(result_ty, "Err"@, self.scratch_i32_4, err_ty, self.scratch_i32_6)), Ok(seq![
                Instr::Else,
                Instr::LocalGet(self.scratch_i32),
                Instr::F64Load(MemArg { offset: 0, align: 3 }),
                Instr::LocalSet(self.scratch_f64),
            ])), self.spec_emit_single_field_adt_from_local(result_ty, "Ok"@, self.scratch_f64, ok_ty, self.scratch_i32_6)), Ok(seq![Instr::End, Instr::LocalGet(self.scratch_i32_6)])),
        }
    }

    /// Appends the instructions of `emit_parse_float_result`.
    pub(crate) fn emit_parse_float_result(&self, out: &mut Vec<Instr>, value: ValueId, result_ty: &Ty) -> (r: Result<(), CodegenError>)
        requires
            self.wf(),
            self.value_ok(value),
            self.ctx.parse_float_fn_index is Some,
        ensures
            emits(r, old(out)@, final(out)@, self.spec_emit_parse_float_result(value, *result_ty)),
    {
        let mut v: Vec<Instr> = Vec::new();
        let (ok_ty, err_ty) = self.lookup_result_payload_tys(result_ty, "parse_float expected Result<Float, ParseError>, got ")?;
        let mut w: Vec<Instr> = vec![
            Instr::I32Const(12i32),
            Instr::Call(self.ctx.alloc_fn_index),
            Instr::LocalSet(self.scratch_i32),
            Instr::LocalGet(self.local_for(value)),
            Instr::I32Const(8i32),
            Instr::I32Add,
            Instr::LocalGet(self.local_for(value)),
            Instr::I32Load(MemArg { offset: 0, align: 2 }),
            Instr::LocalGet(self.scratch_i32),
            Instr::LocalGet(self.scratch_i32),
            Instr::I32Const(8i32),
            Instr::I32Add,
            Instr::Call(self.ctx.parse_float_fn_index.expect("parse_float helper should be imported when used")),
            Instr::LocalSet(self.scratch_i32_2),
            Instr::LocalGet(self.scratch_i32_2),
            Instr::I32Const(1i32),
            Instr::I32GtU,
        ];
        v.append(&mut w);
        self.emit_trap_if_true(&mut v);
        let mut w: Vec<Instr> = vec![
            Instr::LocalGet(self.scratch_i32_2),
            Instr::If(BlockTy::Empty),
            Instr::LocalGet(self.scratch_i32),
            Instr::I32Load(MemArg { offset: 8, align: 2 }),
            Instr::LocalSet(self.scratch_i32_3),
        ];
        v.append(&mut w);
        self.emit_single_field_adt_from_local(&mut v, err_ty, "InvalidFloat", self.scratch_i32_3, &Ty::String, self.scratch_i32_4)?;
        self.emit_single_field_adt_from_local(&mut v, result_ty, "Err", self.scratch_i32_4, err_ty, self.scratch_i32_6)?;
        let mut w: Vec<Instr> = vec![
            Instr::Else,
            Instr::LocalGet(self.scratch_i32),
            Instr::F64Load(MemArg { offset: 0, align: 3 }),
            Instr::LocalSet(self.scratch_f64),
        ];
        v.append(&mut w);
        self.emit_single_field_adt_from_local(&mut v, result_ty, "Ok", self.scratch_f64, ok_ty, self.scratch_i32_6)?;
        let mut w: Vec<Instr> = vec![Instr::End, Instr::LocalGet(self.scratch_i32_6)];
        v.append(&mut w);
        assert(self.spec_emit_parse_float_result(value, *result_ty) matches Ok(s) && v@ =~= s);
        out.append(&mut v);
        Ok(())
    }

    /// The instructions that `emit_char_to_digit_option` appends when it succeeds, or the kind of its error.
    pub open spec fn spec_emit_char_to_digit_option(&self, ch: ValueId, radix: Option<ValueId>, result_ty: Ty) -> Result<Seq<Instr>, ErrorKind> {
        chain(Ok((if let Some(radix) = radix {
            seq![
                Instr::LocalGet(self.spec_local(radix)),
                Instr::I64Const(2i64),
                Instr::I64LtS,
                Instr::LocalGet(self.spec_local(radix)),
                Instr::I64Const(36i64),
                Instr::I64GtS,
                Instr::I32Or,
            ]
            + self.spec_emit_trap_if_true()
            + seq![
                Instr::LocalGet(self.spec_local(radix)),
                Instr::I32WrapI64,
                Instr::LocalSet(self.scratch_i32_2),
            ]
        } else {
            seq![Instr::I32Const(10i32), Instr::LocalSet(self.scratch_i32_2)]
        })
        + self.spec_emit_char_digit_value(ch)
        + seq![
            Instr::LocalSet(self.scratch_i64),
            Instr::LocalGet(self.scratch_i64),
            Instr::I64Const(0i64),
            Instr::I64GeS,
            Instr::LocalGet(self.scratch_i64),
            Instr::LocalGet(self.scratch_i32_2),
            Instr::I64ExtendI32U,
            Instr::I64LtU,
            Instr::I32And,
            Instr::LocalSet(self.scratch_i32_3),
        ]), self.spec_emit_option_int_from_locals(result_ty, self.scratch_i32_3, self.scratch_i64))
    }

    /// Appends the instructions of `emit_char_to_digit_option`.
    pub(crate) fn emit_char_to_digit_option(&self, out: &mut Vec<Instr>, ch: ValueId, radix: Option<ValueId>, result_ty: &Ty) -> (r: Result<(), CodegenError>)
        requires
            self.wf(),
            self.value_ok(ch),
            radix matches Some(x) ==> self.value_ok(x),
        ensures
            emits(r, old(out)@, final(out)@, self.spec_emit_char_to_digit_option(ch, radix, *result_ty)),
    {
        let mut v: Vec<Instr> = Vec::new();
        let mut w: Vec<Instr> = if let Some(radix) = radix {
            let mut b: Vec<Instr> = vec![
                Instr::LocalGet(self.local_for(radix)),
                Instr::I64Const(2i64),
                Instr::I64LtS,
                Instr::LocalGet(self.local_for(radix)),
                Instr::I64Const(36i64),
                Instr::I64GtS,
                Instr::I32Or,
            ];
            self.emit_trap_if_true(&mut b);
            let mut w: Vec<Instr> = vec![
                Instr::LocalGet(self.local_for(radix)),
                Instr::I32WrapI64,
                Instr::LocalSet(self.scratch_i32_2),
            ];
            b.append(&mut w);
            b
        } else {
            let mut b: Vec<Instr> = vec![Instr::I32Const(10i32), Instr::LocalSet(self.scratch_i32_2)];
            b
        };
        v.append(&mut w);
        self.emit_char_digit_value(&mut v, ch);
        let mut w: Vec<Instr> = vec![
            Instr::LocalSet(self.scratch_i64),
            Instr::LocalGet(self.scratch_i64),
            Instr::I64Const(0i64),
            Instr::I64GeS,
            Instr::LocalGet(self.scratch_i64),
            Instr::LocalGet(self.scratch_i32_2),
            Instr::I64ExtendI32U,
            Instr::I64LtU,
            Instr::I32And,
            Instr::LocalSet(self.scratch_i32_3),
        ];
        v.append(&mut w);
        self.emit_option_int_from_locals(&mut v, result_ty, self.scratch_i32_3, self.scratch_i64)?;
        assert(self.spec_emit_char_to_digit_option(ch, radix, *result_ty) matches Ok(s) && v@ =~= s);
        out.append(&mut v);
        Ok(())
    }

}

} // verus!

