use kyokara_codegen::compile;
use kyokara_codegen::assemble::compile_module;
use kyokara_codegen::error::CodegenError;
use kyokara_codegen::ir::{
    BinaryOp, Block, BlockParamDef, BranchTarget, CallTarget, Constant, Inst, Interner, Intrinsic, ItemTree,
    KirFunction, KirModule, Terminator, Ty, TypeDefKind, TypeItem, TypeRef, ValueDef, Variant,
};


/// An engine whose memories reserve little address space, so that instances load
/// under a tight virtual-memory limit.
fn small_engine() -> wasmtime::Engine {
    let mut config = wasmtime::Config::new();
    config.memory_reservation(1 << 20);
    config.memory_guard_size(0);
    config.memory_reservation_for_growth(1 << 20);
    wasmtime::Engine::new(&config).expect("engine configuration should be valid")
}

fn value(inst: Inst, ty: Ty) -> ValueDef {
    ValueDef { inst, ty }
}

fn block(params: Vec<u32>, body: Vec<u32>, terminator: Terminator) -> Block {
    Block {
        params: params.into_iter().map(|value| BlockParamDef { value }).collect(),
        body,
        terminator: Some(terminator),
    }
}

fn target(block: u32, args: Vec<u32>) -> BranchTarget {
    BranchTarget { block, args }
}

fn interner(names: &[&str]) -> Interner {
    Interner { names: names.iter().map(|s| s.to_string()).collect() }
}

fn empty_tree() -> ItemTree {
    ItemTree { types: Vec::new() }
}

/// `add(a: Int, b: Int) -> Int { a + b }`
fn add_function() -> KirFunction {
    KirFunction {
        name: 0,
        params: vec![(1, Ty::Int), (2, Ty::Int)],
        ret_ty: Ty::Int,
        blocks: vec![block(vec![], vec![0, 1, 2], Terminator::Return(2))],
        values: vec![
            value(Inst::FnParam { index: 0 }, Ty::Int),
            value(Inst::FnParam { index: 1 }, Ty::Int),
            value(Inst::Binary { op: BinaryOp::Add, lhs: 0, rhs: 1 }, Ty::Int),
        ],
        entry_block: 0,
        closure_capture_tys: vec![],
    }
}

/// `max(a: Int, b: Int) -> Int { if a > b { a } else { b } }`
fn max_function() -> KirFunction {
    KirFunction {
        name: 0,
        params: vec![(1, Ty::Int), (2, Ty::Int)],
        ret_ty: Ty::Int,
        blocks: vec![
            block(
                vec![],
                vec![0, 1, 2],
                Terminator::Branch { condition: 2, then_target: target(1, vec![]), else_target: target(2, vec![]) },
            ),
            block(vec![], vec![], Terminator::Return(0)),
            block(vec![], vec![], Terminator::Return(1)),
        ],
        values: vec![
            value(Inst::FnParam { index: 0 }, Ty::Int),
            value(Inst::FnParam { index: 1 }, Ty::Int),
            value(Inst::Binary { op: BinaryOp::Gt, lhs: 0, rhs: 1 }, Ty::Bool),
        ],
        entry_block: 0,
        closure_capture_tys: vec![],
    }
}

/// `sum(n: Int) -> Int`: the sum of `1..=n`, counted down in a loop.
fn sum_function() -> KirFunction {
    KirFunction {
        name: 0,
        params: vec![(1, Ty::Int)],
        ret_ty: Ty::Int,
        blocks: vec![
            block(vec![], vec![0, 1], Terminator::Jump(target(1, vec![0, 1]))),
            block(
                vec![2, 3],
                vec![4, 5],
                Terminator::Branch { condition: 5, then_target: target(2, vec![]), else_target: target(3, vec![]) },
            ),
            block(vec![], vec![6, 7, 8], Terminator::Jump(target(1, vec![7, 8]))),
            block(vec![], vec![], Terminator::Return(3)),
        ],
        values: vec![
            value(Inst::FnParam { index: 0 }, Ty::Int),
            value(Inst::Const(Constant::Int(0)), Ty::Int),
            value(Inst::BlockParam { block: 1, index: 0 }, Ty::Int),
            value(Inst::BlockParam { block: 1, index: 1 }, Ty::Int),
            value(Inst::Const(Constant::Int(0)), Ty::Int),
            value(Inst::Binary { op: BinaryOp::Gt, lhs: 2, rhs: 4 }, Ty::Bool),
            value(Inst::Const(Constant::Int(1)), Ty::Int),
            value(Inst::Binary { op: BinaryOp::Sub, lhs: 2, rhs: 6 }, Ty::Int),
            value(Inst::Binary { op: BinaryOp::Add, lhs: 3, rhs: 2 }, Ty::Int),
        ],
        entry_block: 0,
        closure_capture_tys: vec![],
    }
}

fn instantiate(bytes: &[u8]) -> (wasmtime::Store<()>, wasmtime::Instance) {
    let engine = small_engine();
    let module = wasmtime::Module::new(&engine, bytes).expect("compiled module should validate");
    let mut store = wasmtime::Store::new(&engine, ());
    let instance = wasmtime::Instance::new(&mut store, &module, &[]).expect("instance should load");
    (store, instance)
}

fn export_names(bytes: &[u8]) -> Vec<String> {
    let engine = small_engine();
    let module = wasmtime::Module::new(&engine, bytes).expect("compiled module should validate");
    module.exports().map(|e| e.name().to_string()).collect()
}

fn import_names(bytes: &[u8]) -> Vec<(String, String)> {
    let engine = small_engine();
    let module = wasmtime::Module::new(&engine, bytes).expect("compiled module should validate");
    module.imports().map(|i| (i.module().to_string(), i.name().to_string())).collect()
}

#[test]
fn compile_add_runs() {
    let kir = KirModule { functions: vec![add_function()] };
    let bytes = compile(&kir, &empty_tree(), &interner(&["add", "a", "b"])).expect("add should compile");
    assert_eq!(&bytes[0..8], &[0x00, 0x61, 0x73, 0x6d, 0x01, 0x00, 0x00, 0x00]);
    let (mut store, instance) = instantiate(&bytes);
    let add = instance.get_typed_func::<(i64, i64), i64>(&mut store, "add").expect("add export");
    assert_eq!(add.call(&mut store, (2, 3)).unwrap(), 5);
    assert_eq!(add.call(&mut store, (-7, 4)).unwrap(), -3);
}

#[test]
fn compile_exports_memory_alloc_and_functions_in_order() {
    let kir = KirModule { functions: vec![add_function()] };
    let bytes = compile(&kir, &empty_tree(), &interner(&["add", "a", "b"])).unwrap();
    assert_eq!(export_names(&bytes), vec!["memory", "__kyokara_alloc", "add"]);
    assert!(import_names(&bytes).is_empty());
}

#[test]
fn compile_empty_module_keeps_allocator() {
    let kir = KirModule { functions: vec![] };
    let bytes = compile_module(&kir, &empty_tree(), &interner(&[])).expect("empty module should compile");
    assert_eq!(export_names(&bytes), vec!["memory", "__kyokara_alloc"]);
    let (mut store, instance) = instantiate(&bytes);
    let alloc = instance.get_typed_func::<i32, i32>(&mut store, "__kyokara_alloc").unwrap();
    assert_eq!(alloc.call(&mut store, 16).unwrap(), 0);
    assert_eq!(alloc.call(&mut store, 8).unwrap(), 16);
}

#[test]
fn compile_branch_picks_larger() {
    let kir = KirModule { functions: vec![max_function()] };
    let bytes = compile(&kir, &empty_tree(), &interner(&["max", "a", "b"])).expect("max should compile");
    let (mut store, instance) = instantiate(&bytes);
    let max = instance.get_typed_func::<(i64, i64), i64>(&mut store, "max").unwrap();
    assert_eq!(max.call(&mut store, (3, 7)).unwrap(), 7);
    assert_eq!(max.call(&mut store, (9, 4)).unwrap(), 9);
}

#[test]
fn compile_loop_sums() {
    let kir = KirModule { functions: vec![sum_function()] };
    let bytes = compile(&kir, &empty_tree(), &interner(&["sum", "n"])).expect("sum should compile");
    let (mut store, instance) = instantiate(&bytes);
    let sum = instance.get_typed_func::<i64, i64>(&mut store, "sum").unwrap();
    assert_eq!(sum.call(&mut store, 4).unwrap(), 10);
    assert_eq!(sum.call(&mut store, 0).unwrap(), 0);
}

#[test]
fn compile_two_functions_call_each_other() {
    // twice(x: Int) -> Int { add(x, x) }
    let twice = KirFunction {
        name: 3,
        params: vec![(4, Ty::Int)],
        ret_ty: Ty::Int,
        blocks: vec![block(vec![], vec![0, 1], Terminator::Return(1))],
        values: vec![
            value(Inst::FnParam { index: 0 }, Ty::Int),
            value(Inst::Call { target: CallTarget::Direct(0), args: vec![0, 0] }, Ty::Int),
        ],
        entry_block: 0,
        closure_capture_tys: vec![],
    };
    let kir = KirModule { functions: vec![add_function(), twice] };
    let bytes = compile(&kir, &empty_tree(), &interner(&["add", "a", "b", "twice", "x"])).unwrap();
    assert_eq!(export_names(&bytes), vec!["memory", "__kyokara_alloc", "add", "twice"]);
    let (mut store, instance) = instantiate(&bytes);
    let f = instance.get_typed_func::<i64, i64>(&mut store, "twice").unwrap();
    assert_eq!(f.call(&mut store, 21).unwrap(), 42);
}

#[test]
fn compile_imports_needed_host_helper() {
    // shout(s: String) -> String { string_to_upper(s) }
    let shout = KirFunction {
        name: 0,
        params: vec![(1, Ty::String)],
        ret_ty: Ty::String,
        blocks: vec![block(vec![], vec![0, 1], Terminator::Return(1))],
        values: vec![
            value(Inst::FnParam { index: 0 }, Ty::String),
            value(Inst::Call { target: CallTarget::Intrinsic(Intrinsic::StringToUpper), args: vec![0] }, Ty::String),
        ],
        entry_block: 0,
        closure_capture_tys: vec![],
    };
    let kir = KirModule { functions: vec![shout] };
    let bytes = compile(&kir, &empty_tree(), &interner(&["shout", "s"])).expect("shout should compile");
    assert_eq!(import_names(&bytes), vec![("kyokara_host".to_string(), "string_to_upper".to_string())]);
}

#[test]
fn compile_unresolved_param_type_is_unsupported() {
    let mut f = add_function();
    f.params[1].1 = Ty::Var(0);
    let kir = KirModule { functions: vec![f] };
    let err = compile(&kir, &empty_tree(), &interner(&["add", "a", "b"])).unwrap_err();
    assert!(matches!(err, CodegenError::UnsupportedType(_)));
    assert_eq!(err.message(), "unsupported type for WASM codegen: unresolved type var");
}

#[test]
fn compile_fewer_params_than_captures_fails() {
    let mut f = add_function();
    f.closure_capture_tys = vec![Ty::Int, Ty::Int, Ty::Int];
    let kir = KirModule { functions: vec![f] };
    let err = compile(&kir, &empty_tree(), &interner(&["add", "a", "b"])).unwrap_err();
    assert!(matches!(err, CodegenError::UnsupportedInstruction(_)));
    assert_eq!(err.message(), "unsupported instruction: closure wrapper param underflow");
}

#[test]
fn error_messages_match_display() {
    assert_eq!(CodegenError::UnsupportedControlFlow.message(), "unsupported control flow pattern");
    assert_eq!(CodegenError::MissingEntryBlock.message(), "missing entry block");
    assert_eq!(CodegenError::MissingAdtDef.message(), "ADT type definition not found");
    assert_eq!(CodegenError::MissingFunction("f".to_string()).message(), "missing function: f");
    assert_eq!(CodegenError::MissingTerminator("bb1".to_string()).message(), "block missing terminator: bb1");
    assert_eq!(CodegenError::UnknownVariant("Some".to_string()).message(), "unknown variant: Some");
}

/// `abs(x: Int) -> Int`: both arms of the branch jump to one block, which returns
/// its parameter.
fn abs_function() -> KirFunction {
    KirFunction {
        name: 0,
        params: vec![(1, Ty::Int)],
        ret_ty: Ty::Int,
        blocks: vec![
            block(
                vec![],
                vec![0, 1, 2],
                Terminator::Branch { condition: 2, then_target: target(1, vec![]), else_target: target(2, vec![]) },
            ),
            block(vec![], vec![3], Terminator::Jump(target(3, vec![3]))),
            block(vec![], vec![], Terminator::Jump(target(3, vec![0]))),
            block(vec![4], vec![], Terminator::Return(4)),
        ],
        values: vec![
            value(Inst::FnParam { index: 0 }, Ty::Int),
            value(Inst::Const(Constant::Int(0)), Ty::Int),
            value(Inst::Binary { op: BinaryOp::Lt, lhs: 0, rhs: 1 }, Ty::Bool),
            value(Inst::Binary { op: BinaryOp::Sub, lhs: 1, rhs: 0 }, Ty::Int),
            value(Inst::BlockParam { block: 3, index: 0 }, Ty::Int),
        ],
        entry_block: 0,
        closure_capture_tys: vec![],
    }
}

#[test]
fn compile_branch_arms_meet_at_merge_block() {
    let kir = KirModule { functions: vec![abs_function()] };
    let bytes = compile(&kir, &empty_tree(), &interner(&["abs", "x"])).expect("abs should compile");
    let (mut store, instance) = instantiate(&bytes);
    let abs = instance.get_typed_func::<i64, i64>(&mut store, "abs").unwrap();
    assert_eq!(abs.call(&mut store, -5).unwrap(), 5);
    assert_eq!(abs.call(&mut store, 7).unwrap(), 7);
    assert_eq!(abs.call(&mut store, 0).unwrap(), 0);
}

#[test]
fn compile_call_to_unknown_function_is_missing_function() {
    let f = KirFunction {
        name: 0,
        params: vec![],
        ret_ty: Ty::Int,
        blocks: vec![block(vec![], vec![0], Terminator::Return(0))],
        values: vec![value(Inst::Call { target: CallTarget::Direct(1), args: vec![] }, Ty::Int)],
        entry_block: 0,
        closure_capture_tys: vec![],
    };
    let kir = KirModule { functions: vec![f] };
    let err = compile(&kir, &empty_tree(), &interner(&["main", "nowhere"])).unwrap_err();
    assert!(matches!(err, CodegenError::MissingFunction(_)));
}

#[test]
fn compile_block_without_terminator_is_missing_terminator() {
    let f = KirFunction {
        name: 0,
        params: vec![],
        ret_ty: Ty::Int,
        blocks: vec![Block { params: vec![], body: vec![0], terminator: None }],
        values: vec![value(Inst::Const(Constant::Int(1)), Ty::Int)],
        entry_block: 0,
        closure_capture_tys: vec![],
    };
    let kir = KirModule { functions: vec![f] };
    let err = compile(&kir, &empty_tree(), &interner(&["main"])).unwrap_err();
    assert!(matches!(err, CodegenError::MissingTerminator(_)));
}

/// The length of the text that `find` gives for a sequence of `text`, split at
/// `","` where `split` holds and into lines otherwise, with the predicate "starts
/// with x".
fn find_starting_with_x(text: &str, split: bool) -> i64 {
    // names: 0 main, 1 pred, 2 Option, 3 Some, 4 None, 5 Seq, 6 s
    let tree = ItemTree {
        types: vec![
            TypeItem {
                name: 2,
                kind: TypeDefKind::Adt {
                    variants: vec![Variant { name: 3, fields: vec![TypeRef::Other] }, Variant { name: 4, fields: vec![] }],
                },
            },
            TypeItem { name: 5, kind: TypeDefKind::Adt { variants: vec![] } },
        ],
    };
    let pred = KirFunction {
        name: 1,
        params: vec![(6, Ty::String)],
        ret_ty: Ty::Bool,
        blocks: vec![block(vec![], vec![0, 1, 2], Terminator::Return(2))],
        values: vec![
            value(Inst::FnParam { index: 0 }, Ty::String),
            value(Inst::Const(Constant::String("x".to_string())), Ty::String),
            value(Inst::Call { target: CallTarget::Intrinsic(Intrinsic::StringStartsWith), args: vec![0, 1] }, Ty::Bool),
        ],
        entry_block: 0,
        closure_capture_tys: vec![],
    };
    let seq_ty = Ty::Adt { def: 1, args: vec![Ty::String] };
    let opt_ty = Ty::Adt { def: 0, args: vec![Ty::String] };
    let make_seq = if split {
        Inst::Call { target: CallTarget::Intrinsic(Intrinsic::StringSplit), args: vec![0, 1] }
    } else {
        Inst::Call { target: CallTarget::Intrinsic(Intrinsic::StringLines), args: vec![0] }
    };
    let main = KirFunction {
        name: 0,
        params: vec![],
        ret_ty: Ty::Int,
        blocks: vec![block(vec![], vec![0, 1, 2, 3, 4, 5, 6], Terminator::Return(6))],
        values: vec![
            value(Inst::Const(Constant::String(text.to_string())), Ty::String),
            value(Inst::Const(Constant::String(",".to_string())), Ty::String),
            value(make_seq, seq_ty),
            value(Inst::FnRef { name: 1 }, Ty::Fn { params: vec![Ty::String], ret: Box::new(Ty::Bool) }),
            value(Inst::Call { target: CallTarget::Intrinsic(Intrinsic::SeqFind), args: vec![2, 3] }, opt_ty),
            value(Inst::AdtFieldGet { base: 4, field_index: 0 }, Ty::String),
            value(Inst::Call { target: CallTarget::Intrinsic(Intrinsic::StringLen), args: vec![5] }, Ty::Int),
        ],
        entry_block: 0,
        closure_capture_tys: vec![],
    };
    let kir = KirModule { functions: vec![main, pred] };
    let names = interner(&["main", "pred", "Option", "Some", "None", "Seq", "s"]);
    let bytes = compile(&kir, &tree, &names).expect("find module should compile");
    let (mut store, instance) = instantiate(&bytes);
    let f = instance.get_typed_func::<(), i64>(&mut store, "main").expect("main should be exported");
    f.call(&mut store, ()).expect("main should run")
}

#[test]
fn find_on_split_stops_at_first_match() {
    assert_eq!(find_starting_with_x("x,yx", true), 1);
    assert_eq!(find_starting_with_x("ab,xcd,xe", true), 3);
}

#[test]
fn find_on_lines_stops_at_first_match() {
    assert_eq!(find_starting_with_x("xa\nxb", false), 2);
    assert_eq!(find_starting_with_x("a\nxyz\nxq", false), 3);
}

#[test]
fn type_section_encodes_fixed_types_first() {
    let kir = KirModule { functions: vec![] };
    let bytes = compile_module(&kir, &empty_tree(), &interner(&[])).expect("empty module should compile");
    let mut expected: Vec<u8> = vec![0x00, 0x61, 0x73, 0x6d, 0x01, 0x00, 0x00, 0x00, 0x01, 0x1f, 0x04];
    for params in [1usize, 2, 4, 7] {
        expected.push(0x60);
        expected.push(params as u8);
        expected.extend(std::iter::repeat(0x7f).take(params));
        expected.extend([0x01, 0x7f]);
    }
    assert_eq!(&bytes[..expected.len()], &expected[..]);
}

/// `main(x: Int) -> Int { let s = if x > 0 { A } else { B }; match s { A => 10, B => 20 } }`:
/// the arms of the match pass their values to one merge block.
fn match_merge_function() -> KirFunction {
    let shape = || Ty::Adt { def: 0, args: vec![] };
    let case = |variant: u32, block: u32| kyokara_codegen::ir::SwitchCase { variant, target: target(block, vec![]) };
    KirFunction {
        name: 0,
        params: vec![(4, Ty::Int)],
        ret_ty: Ty::Int,
        blocks: vec![
            block(
                vec![],
                vec![0, 1, 2],
                Terminator::Branch { condition: 2, then_target: target(1, vec![]), else_target: target(2, vec![]) },
            ),
            block(vec![], vec![3], Terminator::Jump(target(3, vec![3]))),
            block(vec![], vec![4], Terminator::Jump(target(3, vec![4]))),
            block(vec![5], vec![], Terminator::Switch { scrutinee: 5, cases: vec![case(2, 4), case(3, 5)], default: None }),
            block(vec![], vec![6], Terminator::Jump(target(6, vec![6]))),
            block(vec![], vec![7], Terminator::Jump(target(6, vec![7]))),
            block(vec![8], vec![], Terminator::Return(8)),
        ],
        values: vec![
            value(Inst::FnParam { index: 0 }, Ty::Int),
            value(Inst::Const(Constant::Int(0)), Ty::Int),
            value(Inst::Binary { op: BinaryOp::Gt, lhs: 0, rhs: 1 }, Ty::Bool),
            value(Inst::AdtConstruct { type_def: 0, variant: 2, fields: vec![] }, shape()),
            value(Inst::AdtConstruct { type_def: 0, variant: 3, fields: vec![] }, shape()),
            value(Inst::BlockParam { block: 3, index: 0 }, shape()),
            value(Inst::Const(Constant::Int(10)), Ty::Int),
            value(Inst::Const(Constant::Int(20)), Ty::Int),
            value(Inst::BlockParam { block: 6, index: 0 }, Ty::Int),
        ],
        entry_block: 0,
        closure_capture_tys: vec![],
    }
}

#[test]
fn compile_match_arms_meet_at_merge_block() {
    let tree = ItemTree {
        types: vec![TypeItem {
            name: 1,
            kind: TypeDefKind::Adt {
                variants: vec![Variant { name: 2, fields: vec![] }, Variant { name: 3, fields: vec![] }],
            },
        }],
    };
    let kir = KirModule { functions: vec![match_merge_function()] };
    let bytes = compile(&kir, &tree, &interner(&["main", "Shape", "A", "B", "x"])).expect("match should compile");
    let (mut store, instance) = instantiate(&bytes);
    let main = instance.get_typed_func::<i64, i64>(&mut store, "main").unwrap();
    assert_eq!(main.call(&mut store, 5).unwrap(), 10);
    assert_eq!(main.call(&mut store, -5).unwrap(), 20);
}

/// `main(x: Int) -> Int { let r = { y: x, b: 7 }; r.y - r.b }`: each field access
/// reads the value that record creation stored for that field, whatever the order
/// of the fields as written.
#[test]
fn record_field_access_reads_the_created_field() {
    let rec = || Ty::Record { fields: vec![(2, Ty::Int), (3, Ty::Int)] };
    let main = KirFunction {
        name: 0,
        params: vec![(1, Ty::Int)],
        ret_ty: Ty::Int,
        blocks: vec![block(vec![], vec![0, 1, 2, 3, 4, 5], Terminator::Return(5))],
        values: vec![
            value(Inst::FnParam { index: 0 }, Ty::Int),
            value(Inst::Const(Constant::Int(7)), Ty::Int),
            value(Inst::RecordCreate { fields: vec![(2, 0), (3, 1)] }, rec()),
            value(Inst::FieldGet { base: 2, field: 2 }, Ty::Int),
            value(Inst::FieldGet { base: 2, field: 3 }, Ty::Int),
            value(Inst::Binary { op: BinaryOp::Sub, lhs: 3, rhs: 4 }, Ty::Int),
        ],
        entry_block: 0,
        closure_capture_tys: vec![],
    };
    let kir = KirModule { functions: vec![main] };
    let bytes = compile(&kir, &empty_tree(), &interner(&["main", "x", "y", "b"])).expect("record module should compile");
    let (mut store, instance) = instantiate(&bytes);
    let f = instance.get_typed_func::<i64, i64>(&mut store, "main").unwrap();
    assert_eq!(f.call(&mut store, 50).unwrap(), 43);
    assert_eq!(f.call(&mut store, 7).unwrap(), 0);
}
