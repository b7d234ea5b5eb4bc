use wasmer_engine::{
    memory_style_covers, resolve_imports, ChainableNamedResolver, Export, ExportFunction,
    ExportFunctionMetadata, ExportGlobal, ExportMemory, ExportTable, ExternType, FatalError,
    FunctionKind, FunctionType, GlobalType, Import, ImportError, ImportFunctionEnv, ImportIndex,
    Imports, IndexedExport, IndexedExports, LinkError, MemoryStyle, MemoryType, ModuleInfo,
    Mutability, NamedExport, NamedExports, NamedResolver, NativeAbi, NullResolver, Resolver,
    TableStyle, TableType, ValType,
};

fn sig(params: Vec<ValType>, results: Vec<ValType>) -> FunctionType {
    FunctionType { params, results }
}

fn import(module: &str, field: &str, index: u32, import_index: ImportIndex) -> Import {
    Import { module: module.to_string(), field: field.to_string(), index, import_index }
}

fn empty_module() -> ModuleInfo {
    ModuleInfo {
        imports: vec![],
        functions: vec![],
        signatures: vec![],
        tables: vec![],
        memories: vec![],
        globals: vec![],
    }
}

fn static_fn(signature: FunctionType, address: u64) -> Export {
    Export::Function(ExportFunction {
        signature,
        kind: FunctionKind::Static,
        address,
        host_env: 7,
        metadata: None,
    })
}

fn dynamic_fn(signature: FunctionType, address: u64) -> Export {
    Export::Function(ExportFunction {
        signature,
        kind: FunctionKind::Dynamic,
        address,
        host_env: 7,
        metadata: None,
    })
}

fn global(ty: ValType, mutability: Mutability, definition: u64) -> Export {
    Export::Global(ExportGlobal { ty: GlobalType { ty, mutability }, definition, owner: 1 })
}

fn named(entries: Vec<(&str, &str, Export)>) -> NamedExports {
    NamedExports {
        entries: entries
            .into_iter()
            .map(|(m, f, export)| NamedExport {
                module: m.to_string(),
                field: f.to_string(),
                export,
            })
            .collect(),
    }
}

fn link<R: Resolver + ?Sized>(
    module: &ModuleInfo,
    resolver: &R,
    trampolines: Vec<u64>,
    styles: Vec<MemoryStyle>,
    abi: NativeAbi,
) -> Result<Imports, LinkError> {
    let table_styles: Vec<TableStyle> = vec![];
    resolve_imports(module, resolver, &trampolines, &styles, &table_styles, abi, |_c, e| e + 1000)
}

/// A module with one function import `env.logFn` of signature `(i32) -> ()`.
fn log_module() -> ModuleInfo {
    let mut m = empty_module();
    m.signatures.push(sig(vec![ValType::I32], vec![]));
    m.functions.push(0);
    m.imports.push(import("env", "logFn", 0, ImportIndex::Function(0)));
    m
}

/// A module with one memory import `env.mem` of at least `minimum` pages.
fn memory_module(minimum: u32) -> ModuleInfo {
    let mut m = empty_module();
    m.memories.push(MemoryType { minimum, maximum: None, shared: false });
    m.imports.push(import("env", "mem", 0, ImportIndex::Memory(0)));
    m
}

fn memory_export(minimum: u32, style: MemoryStyle) -> Export {
    Export::Memory(ExportMemory {
        ty: MemoryType { minimum, maximum: None, shared: false },
        style,
        definition: 40,
        owner: 41,
    })
}

#[test]
fn empty_module_links_to_empty_bindings() {
    let out = link(&empty_module(), &NullResolver {}, vec![], vec![], NativeAbi::Other).unwrap();
    assert!(out.functions.is_empty());
    assert!(out.host_function_env_initializers.is_empty());
    assert!(out.tables.is_empty());
    assert!(out.memories.is_empty());
    assert!(out.globals.is_empty());
}

#[test]
fn missing_import_is_unknown() {
    let err = link(&log_module(), &named(vec![]), vec![0], vec![], NativeAbi::Other).unwrap_err();
    assert_eq!(
        err,
        LinkError::Import(
            "env".to_string(),
            "logFn".to_string(),
            ImportError::UnknownImport(ExternType::Function(sig(vec![ValType::I32], vec![]))),
        )
    );
}

#[test]
fn null_resolver_offers_nothing() {
    assert!(NullResolver {}.resolve(0, "env", "logFn").is_none());
    let err = link(&log_module(), &NullResolver {}, vec![0], vec![], NativeAbi::Other).unwrap_err();
    assert!(matches!(err, LinkError::Import(_, _, ImportError::UnknownImport(_))));
}

#[test]
fn other_kind_is_incompatible() {
    let offered = global(ValType::I32, Mutability::Const, 5);
    let resolver = named(vec![("env", "logFn", offered)]);
    let err = link(&log_module(), &resolver, vec![0], vec![], NativeAbi::Other).unwrap_err();
    assert_eq!(
        err,
        LinkError::Import(
            "env".to_string(),
            "logFn".to_string(),
            ImportError::IncompatibleType(
                ExternType::Function(sig(vec![ValType::I32], vec![])),
                ExternType::Global(GlobalType { ty: ValType::I32, mutability: Mutability::Const }),
            ),
        )
    );
}

#[test]
fn global_mutability_mismatch_is_incompatible() {
    let mut m = empty_module();
    m.globals.push(GlobalType { ty: ValType::I64, mutability: Mutability::Var });
    m.imports.push(import("env", "g", 0, ImportIndex::Global(0)));
    let resolver = named(vec![("env", "g", global(ValType::I64, Mutability::Const, 5))]);
    let err = link(&m, &resolver, vec![], vec![], NativeAbi::Other).unwrap_err();
    assert!(matches!(err, LinkError::Import(_, _, ImportError::IncompatibleType(_, _))));
    let resolver = named(vec![("env", "g", global(ValType::I64, Mutability::Var, 5))]);
    let out = link(&m, &resolver, vec![], vec![], NativeAbi::Other).unwrap();
    assert_eq!(out.globals.len(), 1);
    assert_eq!(out.globals[0].definition, 5);
    assert_eq!(out.globals[0].from, 1);
}

#[test]
fn ordinal_distinguishes_same_names() {
    let mut m = empty_module();
    m.globals.push(GlobalType { ty: ValType::I32, mutability: Mutability::Const });
    m.imports.push(import("", "", 0, ImportIndex::Global(0)));
    m.imports.push(import("", "", 1, ImportIndex::Global(0)));
    let resolver = IndexedExports {
        entries: vec![
            IndexedExport {
                index: 1,
                module: String::new(),
                field: String::new(),
                export: global(ValType::I32, Mutability::Const, 22),
            },
            IndexedExport {
                index: 0,
                module: String::new(),
                field: String::new(),
                export: global(ValType::I32, Mutability::Const, 11),
            },
        ],
    };
    let out = link(&m, &resolver, vec![], vec![], NativeAbi::Other).unwrap();
    assert_eq!(out.globals[0].definition, 11);
    assert_eq!(out.globals[1].definition, 22);
}

#[test]
fn dynamic_addresses_follow_function_import_order() {
    let mut m = empty_module();
    m.signatures.push(sig(vec![], vec![]));
    m.functions.push(0);
    m.functions.push(0);
    m.globals.push(GlobalType { ty: ValType::I32, mutability: Mutability::Const });
    m.tables.push(TableType { ty: ValType::FuncRef, minimum: 1, maximum: None });
    m.imports.push(import("env", "g", 0, ImportIndex::Global(0)));
    m.imports.push(import("env", "a", 1, ImportIndex::Function(1)));
    m.imports.push(import("env", "t", 2, ImportIndex::Table(0)));
    m.imports.push(import("env", "b", 3, ImportIndex::Function(0)));
    let table = Export::Table(ExportTable {
        ty: TableType { ty: ValType::FuncRef, minimum: 1, maximum: None },
        definition: 30,
        owner: 31,
    });
    let resolver = named(vec![
        ("env", "g", global(ValType::I32, Mutability::Const, 5)),
        ("env", "a", dynamic_fn(sig(vec![], vec![]), 1)),
        ("env", "t", table),
        ("env", "b", dynamic_fn(sig(vec![], vec![]), 2)),
    ]);
    let out = link(&m, &resolver, vec![100, 200], vec![], NativeAbi::Other).unwrap();
    assert_eq!(out.functions.len(), 2);
    assert_eq!(out.functions[0].body, 100);
    assert_eq!(out.functions[1].body, 200);
    assert_eq!(out.tables.len(), 1);
    assert_eq!(out.tables[0].definition, 30);
    assert_eq!(out.tables[0].from, 31);
    assert_eq!(out.globals.len(), 1);
}

#[test]
fn static_address_is_entry_point() {
    let resolver = named(vec![("env", "logFn", static_fn(sig(vec![ValType::I32], vec![]), 0xabc))]);
    let out = link(&log_module(), &resolver, vec![999], vec![], NativeAbi::Other).unwrap();
    assert_eq!(out.functions.len(), 1);
    assert_eq!(out.functions[0].body, 0xabc);
    assert_eq!(out.functions[0].host_env, 7);
    assert_eq!(out.host_function_env_initializers, vec![ImportFunctionEnv::NoEnv]);
}

#[test]
fn log_function_links_to_host_entry_point() {
    let resolver = named(vec![("env", "logFn", static_fn(sig(vec![ValType::I32], vec![]), 4096))]);
    let out = link(&log_module(), &resolver, vec![0], vec![], NativeAbi::Other).unwrap();
    assert_eq!(out.functions.len(), 1);
    assert_eq!(out.functions[0].body, 4096);
}

#[test]
fn log_function_with_wrong_signature_is_incompatible() {
    let resolver = named(vec![("env", "logFn", static_fn(sig(vec![ValType::I64], vec![]), 4096))]);
    let err = link(&log_module(), &resolver, vec![0], vec![], NativeAbi::Other).unwrap_err();
    assert_eq!(
        err,
        LinkError::Import(
            "env".to_string(),
            "logFn".to_string(),
            ImportError::IncompatibleType(
                ExternType::Function(sig(vec![ValType::I32], vec![])),
                ExternType::Function(sig(vec![ValType::I64], vec![])),
            ),
        )
    );
}

#[test]
fn static_memory_with_larger_bound_links() {
    let import_style = MemoryStyle::Static { bound: 10, offset_guard_size: 65536 };
    let export_style = MemoryStyle::Static { bound: 20, offset_guard_size: 65536 };
    let resolver = named(vec![("env", "mem", memory_export(1, export_style))]);
    let out = link(&memory_module(1), &resolver, vec![], vec![import_style], NativeAbi::Other)
        .unwrap();
    assert_eq!(out.memories.len(), 1);
    assert_eq!(out.memories[0].definition, 40);
    assert_eq!(out.memories[0].from, 41);
}

#[test]
fn memory_with_smaller_guard_is_fatal() {
    let guard: u64 = 4096;
    let import_style = MemoryStyle::Static { bound: 100, offset_guard_size: guard };
    let ok_style = MemoryStyle::Static { bound: 100, offset_guard_size: guard };
    let small_guard = MemoryStyle::Static { bound: 150, offset_guard_size: guard - 1 };
    let small_bound = MemoryStyle::Static { bound: 99, offset_guard_size: guard };
    assert!(memory_style_covers(&ok_style, &import_style));
    assert!(memory_style_covers(&MemoryStyle::Static { bound: 101, offset_guard_size: 8192 }, &import_style));
    assert!(!memory_style_covers(&small_guard, &import_style));
    assert!(!memory_style_covers(&small_bound, &import_style));
    assert!(memory_style_covers(&MemoryStyle::Dynamic { offset_guard_size: guard }, &import_style));
    assert!(!memory_style_covers(&MemoryStyle::Dynamic { offset_guard_size: 0 }, &import_style));

    let resolver = named(vec![("env", "mem", memory_export(1, small_guard))]);
    let err = link(&memory_module(1), &resolver, vec![], vec![import_style], NativeAbi::Other)
        .unwrap_err();
    assert_eq!(
        err,
        LinkError::Fatal("env".to_string(), "mem".to_string(), FatalError::MemoryStyleMismatch)
    );
    let resolver = named(vec![("env", "mem", memory_export(1, ok_style))]);
    assert!(link(&memory_module(1), &resolver, vec![], vec![import_style], NativeAbi::Other).is_ok());
}

#[test]
fn memory_too_small_is_incompatible() {
    let style = MemoryStyle::Dynamic { offset_guard_size: 0 };
    let resolver = named(vec![("env", "mem", memory_export(1, style))]);
    let err = link(&memory_module(2), &resolver, vec![], vec![style], NativeAbi::Other).unwrap_err();
    assert!(matches!(err, LinkError::Import(_, _, ImportError::IncompatibleType(_, _))));
}

#[test]
fn too_many_native_params_is_fatal_on_apple_aarch64() {
    let params = vec![ValType::I32; 9];
    let mut m = empty_module();
    m.signatures.push(sig(params.clone(), vec![]));
    m.functions.push(0);
    m.imports.push(import("env", "wide", 0, ImportIndex::Function(0)));
    let resolver = named(vec![("env", "wide", static_fn(sig(params.clone(), vec![]), 8))]);
    let err = link(&m, &resolver, vec![0], vec![], NativeAbi::AppleAarch64).unwrap_err();
    assert_eq!(
        err,
        LinkError::Fatal(
            "env".to_string(),
            "wide".to_string(),
            FatalError::TooManyNativeParams { count: 9, limit: 8 },
        )
    );
    assert!(link(&m, &resolver, vec![0], vec![], NativeAbi::Other).is_ok());
    let dynamic = named(vec![("env", "wide", dynamic_fn(sig(params, vec![]), 8))]);
    assert!(link(&m, &dynamic, vec![0], vec![], NativeAbi::AppleAarch64).is_ok());
    assert_eq!(NativeAbi::AppleAarch64.max_static_params(), Some(8));
    assert_eq!(NativeAbi::Other.max_static_params(), None);
}

#[test]
fn host_env_is_cloned_with_callbacks() {
    let metadata = ExportFunctionMetadata {
        host_env_clone_fn: 61,
        host_env_drop_fn: 62,
        import_init_function_ptr: Some(63),
    };
    let f = Export::Function(ExportFunction {
        signature: sig(vec![ValType::I32], vec![]),
        kind: FunctionKind::Static,
        address: 50,
        host_env: 7,
        metadata: Some(metadata),
    });
    let resolver = named(vec![("env", "logFn", f)]);
    let out = link(&log_module(), &resolver, vec![0], vec![], NativeAbi::Other).unwrap();
    assert_eq!(out.functions[0].host_env, 1007);
    assert_eq!(
        out.host_function_env_initializers,
        vec![ImportFunctionEnv::Env { env: 1007, clone: 61, initializer: Some(63), destructor: 62 }]
    );
}

#[test]
fn callbacks_without_env_are_fatal() {
    let metadata = ExportFunctionMetadata {
        host_env_clone_fn: 61,
        host_env_drop_fn: 62,
        import_init_function_ptr: None,
    };
    let f = Export::Function(ExportFunction {
        signature: sig(vec![ValType::I32], vec![]),
        kind: FunctionKind::Static,
        address: 50,
        host_env: 0,
        metadata: Some(metadata),
    });
    let resolver = named(vec![("env", "logFn", f)]);
    let err = link(&log_module(), &resolver, vec![0], vec![], NativeAbi::Other).unwrap_err();
    assert_eq!(
        err,
        LinkError::Fatal("env".to_string(), "logFn".to_string(), FatalError::NullHostEnv)
    );
}

#[test]
fn first_failing_import_decides_the_error() {
    let mut m = log_module();
    m.globals.push(GlobalType { ty: ValType::I32, mutability: Mutability::Const });
    m.imports.push(import("env", "g", 1, ImportIndex::Global(0)));
    let resolver = named(vec![("env", "g", global(ValType::F32, Mutability::Const, 5))]);
    let err = link(&m, &resolver, vec![0], vec![], NativeAbi::Other).unwrap_err();
    assert!(matches!(err, LinkError::Import(ref m, ref f, ImportError::UnknownImport(_)) if m == "env" && f == "logFn"));
}

#[test]
fn chain_front_prefers_the_other_resolver() {
    let a = named(vec![("env", "x", global(ValType::I32, Mutability::Const, 1))]);
    let b = named(vec![
        ("env", "x", global(ValType::I32, Mutability::Const, 2)),
        ("env", "y", global(ValType::I32, Mutability::Const, 3)),
    ]);
    let chain = b.chain_front(a);
    assert_eq!(chain.resolve_by_name("env", "x"), Some(global(ValType::I32, Mutability::Const, 1)));
    assert_eq!(chain.resolve_by_name("env", "y"), Some(global(ValType::I32, Mutability::Const, 3)));
    assert_eq!(chain.resolve_by_name("env", "z"), None);
    assert_eq!(chain.resolve(5, "env", "x"), Some(global(ValType::I32, Mutability::Const, 1)));
}

#[test]
fn chain_back_prefers_this_resolver() {
    let a = named(vec![("env", "x", global(ValType::I32, Mutability::Const, 1))]);
    let b = named(vec![
        ("env", "x", global(ValType::I32, Mutability::Const, 2)),
        ("env", "y", global(ValType::I32, Mutability::Const, 3)),
    ]);
    let chain = a.chain_back(b);
    assert_eq!(chain.resolve_by_name("env", "x"), Some(global(ValType::I32, Mutability::Const, 1)));
    assert_eq!(chain.resolve_by_name("env", "y"), Some(global(ValType::I32, Mutability::Const, 3)));
    let copy = chain.clone();
    assert_eq!(copy.resolve_by_name("env", "x"), Some(global(ValType::I32, Mutability::Const, 1)));
    let by_ref = (&copy).resolve_by_name("env", "y");
    assert_eq!(by_ref, Some(global(ValType::I32, Mutability::Const, 3)));
}

#[test]
fn named_exports_offer_the_first_duplicate() {
    let r = named(vec![
        ("m", "f", global(ValType::I32, Mutability::Const, 1)),
        ("m", "f", global(ValType::I32, Mutability::Const, 2)),
    ]);
    assert_eq!(r.resolve_by_name("m", "f"), Some(global(ValType::I32, Mutability::Const, 1)));
    assert_eq!(r.resolve_by_name("m", "g"), None);
    assert_eq!(r.resolve(9, "m", "f"), r.resolve(0, "m", "f"));
}

#[test]
fn table_compatibility_rules() {
    let t = |ty, minimum, maximum| ExternType::Table(TableType { ty, minimum, maximum });
    assert!(t(ValType::FuncRef, 2, Some(5)).is_compatible_with(&t(ValType::FuncRef, 1, Some(10))));
    assert!(t(ValType::FuncRef, 2, None).is_compatible_with(&t(ValType::ExternRef, 1, None)));
    assert!(!t(ValType::ExternRef, 2, None).is_compatible_with(&t(ValType::FuncRef, 1, None)));
    assert!(!t(ValType::FuncRef, 0, None).is_compatible_with(&t(ValType::FuncRef, 1, None)));
    assert!(!t(ValType::FuncRef, 2, None).is_compatible_with(&t(ValType::FuncRef, 1, Some(10))));
    assert!(!t(ValType::FuncRef, 2, Some(11)).is_compatible_with(&t(ValType::FuncRef, 1, Some(10))));
}

#[test]
fn memory_compatibility_rules() {
    let m = |minimum, maximum, shared| ExternType::Memory(MemoryType { minimum, maximum, shared });
    assert!(m(2, Some(4), false).is_compatible_with(&m(1, Some(4), false)));
    assert!(!m(2, Some(4), true).is_compatible_with(&m(1, Some(4), false)));
    assert!(!m(2, None, false).is_compatible_with(&m(1, Some(4), false)));
    assert!(m(2, None, false).is_compatible_with(&m(2, None, false)));
}

#[test]
fn export_types_are_projected() {
    let f = static_fn(sig(vec![ValType::F64], vec![ValType::I32]), 1);
    assert_eq!(f.extern_type(), ExternType::Function(sig(vec![ValType::F64], vec![ValType::I32])));
    assert_eq!(f.duplicate(), f);
    let g = global(ValType::V128, Mutability::Var, 3);
    assert_eq!(
        g.extern_type(),
        ExternType::Global(GlobalType { ty: ValType::V128, mutability: Mutability::Var })
    );
    assert_eq!(MemoryStyle::Static { bound: 1, offset_guard_size: 9 }.offset_guard_size(), 9);
    assert_eq!(MemoryStyle::Dynamic { offset_guard_size: 3 }.offset_guard_size(), 3);
}

#[test]
fn declared_types_are_projected() {
    let m = log_module();
    assert_eq!(
        m.extern_type_of(&ImportIndex::Function(0)),
        ExternType::Function(sig(vec![ValType::I32], vec![]))
    );
    let a = sig(vec![ValType::I32], vec![]);
    assert!(a.same_as(&a.duplicate()));
    assert!(!a.same_as(&sig(vec![ValType::I32, ValType::I32], vec![])));
}

#[test]
fn boxed_resolver_resolves_as_its_contents() {
    let boxed: Box<dyn NamedResolver> =
        Box::new(named(vec![("env", "x", global(ValType::I32, Mutability::Const, 4))]));
    assert_eq!(boxed.resolve_by_name("env", "x"), Some(global(ValType::I32, Mutability::Const, 4)));
    assert_eq!(boxed.resolve_by_name("env", "y"), None);
    let fallback = named(vec![("env", "y", global(ValType::I32, Mutability::Const, 5))]);
    let chain = fallback.chain_front(boxed);
    assert_eq!(chain.resolve_by_name("env", "x"), Some(global(ValType::I32, Mutability::Const, 4)));
    assert_eq!(chain.resolve_by_name("env", "y"), Some(global(ValType::I32, Mutability::Const, 5)));
}

#[test]
fn linker_accepts_a_resolver_trait_object() {
    let resolver = named(vec![("env", "logFn", static_fn(sig(vec![ValType::I32], vec![]), 77))]);
    let object: &dyn Resolver = &resolver;
    let out = link(&log_module(), object, vec![0], vec![], NativeAbi::Other).unwrap();
    assert_eq!(out.functions[0].body, 77);
}

#[test]
fn cloned_chain_resolves_as_the_original() {
    let a = named(vec![("env", "x", global(ValType::I32, Mutability::Const, 1))]);
    let b = named(vec![("env", "y", global(ValType::I64, Mutability::Var, 2))]);
    let chain = a.chain_back(b);
    let copy = chain.clone();
    for field in ["x", "y", "z"] {
        assert_eq!(copy.resolve_by_name("env", field), chain.resolve_by_name("env", field));
    }
}
