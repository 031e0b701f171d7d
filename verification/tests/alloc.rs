use kyokara_codegen::allocator::emit_alloc_function;
use wasm_encoder::{
    CodeSection, ConstExpr, ExportKind, ExportSection, FunctionSection, GlobalSection, GlobalType,
    MemorySection, MemoryType, Module, TypeSection, ValType,
};


/// An engine whose memories reserve little address space, so that instances load
/// under a tight virtual-memory limit.
fn small_engine() -> wasmtime::Engine {
    let mut config = wasmtime::Config::new();
    config.memory_reservation(1 << 20);
    config.memory_guard_size(0);
    config.memory_reservation_for_growth(1 << 20);
    wasmtime::Engine::new(&config).expect("engine configuration should be valid")
}

fn instantiate_alloc_module() -> (wasmtime::Store<()>, wasmtime::Instance) {
    let mut module = Module::new();

    let mut types = TypeSection::new();
    types.ty().function([ValType::I32], [ValType::I32]);

    let mut funcs = FunctionSection::new();
    funcs.function(0);

    let mut memories = MemorySection::new();
    memories.memory(MemoryType {
        minimum: 1,
        maximum: None,
        memory64: false,
        shared: false,
        page_size_log2: None,
    });

    let mut globals = GlobalSection::new();
    globals.global(
        GlobalType {
            val_type: ValType::I32,
            mutable: true,
            shared: false,
        },
        &ConstExpr::i32_const(0),
    );

    let mut exports = ExportSection::new();
    exports.export("alloc", ExportKind::Func, 0);
    exports.export("heap_ptr", ExportKind::Global, 0);
    exports.export("memory", ExportKind::Memory, 0);

    let mut code = CodeSection::new();
    code.function(&emit_alloc_function());

    module.section(&types);
    module.section(&funcs);
    module.section(&memories);
    module.section(&globals);
    module.section(&exports);
    module.section(&code);

    let engine = small_engine();
    let wasm_module =
        wasmtime::Module::new(&engine, module.finish()).expect("valid alloc test module");
    let mut store = wasmtime::Store::new(&engine, ());
    let instance =
        wasmtime::Instance::new(&mut store, &wasm_module, &[]).expect("instance should load");
    (store, instance)
}

fn call_alloc(
    store: &mut wasmtime::Store<()>,
    instance: &wasmtime::Instance,
    size: i32,
) -> Result<i32, wasmtime::Error> {
    let alloc = instance
        .get_typed_func::<i32, i32>(&mut *store, "alloc")
        .expect("alloc export should exist");
    alloc.call(store, size)
}

fn heap_ptr_get(store: &mut wasmtime::Store<()>, instance: &wasmtime::Instance) -> i32 {
    let global = instance
        .get_global(&mut *store, "heap_ptr")
        .expect("heap_ptr export should exist");
    global
        .get(store)
        .i32()
        .expect("heap_ptr should be exported as i32 global")
}

fn heap_ptr_set(store: &mut wasmtime::Store<()>, instance: &wasmtime::Instance, value: i32) {
    let global = instance
        .get_global(&mut *store, "heap_ptr")
        .expect("heap_ptr export should exist");
    global
        .set(store, wasmtime::Val::I32(value))
        .expect("heap_ptr should be mutable");
}

fn memory_pages_get(store: &mut wasmtime::Store<()>, instance: &wasmtime::Instance) -> u64 {
    instance
        .get_memory(&mut *store, "memory")
        .expect("memory export should exist")
        .size(store)
}

#[test]
fn alloc_positive_size_returns_old_ptr_and_advances_heap() {
    let (mut store, instance) = instantiate_alloc_module();
    assert_eq!(heap_ptr_get(&mut store, &instance), 0);

    assert_eq!(
        call_alloc(&mut store, &instance, 16).expect("positive alloc(16) should succeed"),
        0
    );
    assert_eq!(heap_ptr_get(&mut store, &instance), 16);

    assert_eq!(
        call_alloc(&mut store, &instance, 8).expect("positive alloc(8) should succeed"),
        16
    );
    assert_eq!(heap_ptr_get(&mut store, &instance), 24);
}

#[test]
fn alloc_negative_size_traps() {
    let (mut store, instance) = instantiate_alloc_module();

    assert!(call_alloc(&mut store, &instance, -1).is_err());
    assert_eq!(
        heap_ptr_get(&mut store, &instance),
        0,
        "heap_ptr should remain unchanged on rejected allocation"
    );
}

#[test]
fn alloc_wrapping_addition_traps() {
    let (mut store, instance) = instantiate_alloc_module();
    let start = -8;
    heap_ptr_set(&mut store, &instance, start);

    assert!(call_alloc(&mut store, &instance, 16).is_err());
    assert_eq!(
        heap_ptr_get(&mut store, &instance),
        start,
        "heap_ptr should remain unchanged on overflow"
    );
}

#[test]
fn alloc_beyond_memory_limit_grows_memory() {
    let (mut store, instance) = instantiate_alloc_module();
    // Memory is one page = 65536 bytes.
    heap_ptr_set(&mut store, &instance, 65_520);
    assert_eq!(memory_pages_get(&mut store, &instance), 1);

    assert_eq!(
        call_alloc(&mut store, &instance, 32).expect("alloc should grow guest memory"),
        65_520
    );
    assert_eq!(
        heap_ptr_get(&mut store, &instance),
        65_552,
        "heap_ptr should advance after growth"
    );
    assert_eq!(memory_pages_get(&mut store, &instance), 2);
}
