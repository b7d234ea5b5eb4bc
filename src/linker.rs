//! The linker: binds each import of a module to the export that a resolver
//! offers for it, after checking that the export fits.

use vstd::prelude::*;
use crate::export::{same_export, Export, ExportFunction, FunctionKind, MemoryStyle, TableStyle, export_type};
use crate::resolver::Resolver;
use crate::types::{
    extern_compatible, same_extern, ExternType, FunctionType, GlobalType, MemoryType, TableType,
};

verus! {

/// What an import refers to in the module's own index spaces.
#[derive(PartialEq, Eq, Structural, Clone, Copy, Debug)]
pub enum ImportIndex {
    Function(usize),
    Table(usize),
    Memory(usize),
    Global(usize),
}

/// One import of a module: its names, its position among the module's
/// imports, and what it refers to.
#[derive(Clone, Debug)]
pub struct Import {
    pub module: String,
    pub field: String,
    pub index: u32,
    pub import_index: ImportIndex,
}

/// What the linker reads of a compiled module: its imports in declaration
/// order, and the type tables that they refer to.
#[derive(Clone, Debug)]
pub struct ModuleInfo {
    pub imports: Vec<Import>,
    /// The signature index of each function.
    pub functions: Vec<usize>,
    pub signatures: Vec<FunctionType>,
    pub tables: Vec<TableType>,
    pub memories: Vec<MemoryType>,
    pub globals: Vec<GlobalType>,
}

/// The native calling convention of the target, as far as statically
/// compiled host functions are concerned.
#[derive(PartialEq, Eq, Structural, Clone, Copy, Debug)]
pub enum NativeAbi {
    /// macOS on aarch64, whose native convention is only supported for
    /// functions of fewer than nine parameters.
    AppleAarch64,
    /// Any other target: no limit.
    Other,
}

pub open spec fn spec_max_static_params(abi: NativeAbi) -> Option<usize> {
    match abi {
        NativeAbi::AppleAarch64 => Some(8),
        NativeAbi::Other => None,
    }
}

impl NativeAbi {
    /// The most parameters a statically compiled host function may take.
    pub fn max_static_params(&self) -> (r: Option<usize>)
        ensures
            r == spec_max_static_params(*self),
    {
        match self {
            NativeAbi::AppleAarch64 => Some(8),
            NativeAbi::Other => None,
        }
    }
}

/// The binding of an imported function: where to call it and what context
/// to hand it.
#[derive(PartialEq, Eq, Structural, Clone, Copy, Debug)]
pub struct VMFunctionImport {
    pub body: u64,
    pub host_env: u64,
}

/// How an instance manages the host environment of an imported function.
#[derive(PartialEq, Eq, Structural, Clone, Copy, Debug)]
pub enum ImportFunctionEnv {
    /// The function's context is not a host environment: nothing to do.
    NoEnv,
    /// The instance owns `env`, copies it with `clone`, may set it up with
    /// `initializer`, and releases it once with `destructor`.
    Env { env: u64, clone: u64, initializer: Option<u64>, destructor: u64 },
}

/// The binding of an imported table.
#[derive(PartialEq, Eq, Structural, Clone, Copy, Debug)]
pub struct VMTableImport {
    pub definition: u64,
    pub from: u64,
}

/// The binding of an imported memory.
#[derive(PartialEq, Eq, Structural, Clone, Copy, Debug)]
pub struct VMMemoryImport {
    pub definition: u64,
    pub from: u64,
}

/// The binding of an imported global.
#[derive(PartialEq, Eq, Structural, Clone, Copy, Debug)]
pub struct VMGlobalImport {
    pub definition: u64,
    pub from: u64,
}

/// The bindings of all imports of a module, one list per kind, each in
/// declaration order.
#[derive(Clone, Debug, PartialEq, Eq)]
pub struct Imports {
    pub functions: Vec<VMFunctionImport>,
    pub host_function_env_initializers: Vec<ImportFunctionEnv>,
    pub tables: Vec<VMTableImport>,
    pub memories: Vec<VMMemoryImport>,
    pub globals: Vec<VMGlobalImport>,
}

/// Why an import could not be linked.
#[derive(Clone, Debug, PartialEq, Eq)]
pub enum ImportError {
    /// No export was offered; holds the type that the module expected.
    UnknownImport(ExternType),
    /// The export offered does not fit; holds the expected type, then the
    /// offered one.
    IncompatibleType(ExternType, ExternType),
}

/// A configuration or consistency fault that no other resolver would mend.
#[derive(PartialEq, Eq, Structural, Clone, Copy, Debug)]
pub enum FatalError {
    /// A statically compiled host function takes more parameters than the
    /// native convention supports.
    TooManyNativeParams { count: usize, limit: usize },
    /// An exported memory is less protected than the importing module
    /// expects, though its type fits.
    MemoryStyleMismatch,
    /// A function with host environment callbacks carries no environment.
    NullHostEnv,
}

/// A failure to link a module, naming the import by its module and field.
#[derive(Clone, Debug, PartialEq, Eq)]
pub enum LinkError {
    Import(String, String, ImportError),
    Fatal(String, String, FatalError),
}

/// Which of the four kinds an import refers to.
pub open spec fn kind_of(ii: ImportIndex) -> nat {
    match ii {
        ImportIndex::Function(_) => 0,
        ImportIndex::Table(_) => 1,
        ImportIndex::Memory(_) => 2,
        ImportIndex::Global(_) => 3,
    }
}

/// The number of imports of kind `kind` among the first `n`.
pub open spec fn count_kind(imports: Seq<Import>, kind: nat, n: int) -> nat
    decreases n,
{
    if n <= 0 {
        0
    } else {
        count_kind(imports, kind, n - 1) + if kind_of(imports[n - 1].import_index) == kind {
            1nat
        } else {
            0nat
        }
    }
}

impl ModuleInfo {
    /// Every import refers to an entry of the module's type tables.
    pub open spec fn wf(&self) -> bool {
        forall|i: int| 0 <= i < self.imports@.len() ==> self.refers_within(#[trigger] self.imports@[i].import_index)
    }

    pub open spec fn refers_within(&self, ii: ImportIndex) -> bool {
        match ii {
            ImportIndex::Function(f) => f < self.functions@.len() && self.functions@[f as int]
                < self.signatures@.len(),
            ImportIndex::Table(t) => t < self.tables@.len(),
            ImportIndex::Memory(m) => m < self.memories@.len(),
            ImportIndex::Global(g) => g < self.globals@.len(),
        }
    }

    /// The type that an import declares.
    pub open spec fn import_type(&self, ii: ImportIndex) -> ExternType
        recommends
            self.refers_within(ii),
    {
        match ii {
            ImportIndex::Function(f) => ExternType::Function(
                self.signatures@[self.functions@[f as int] as int],
            ),
            ImportIndex::Table(t) => ExternType::Table(self.tables@[t as int]),
            ImportIndex::Memory(m) => ExternType::Memory(self.memories@[m as int]),
            ImportIndex::Global(g) => ExternType::Global(self.globals@[g as int]),
        }
    }

    /// The type that an import declares.
    pub fn extern_type_of(&self, ii: &ImportIndex) -> (r: ExternType)
        requires
            self.refers_within(*ii),
        ensures
            same_extern(r, self.import_type(*ii)),
    {
        match ii {
            ImportIndex::Function(f) => ExternType::Function(
                self.signatures[self.functions[*f]].duplicate(),
            ),
            ImportIndex::Table(t) => ExternType::Table(self.tables[*t]),
            ImportIndex::Memory(m) => ExternType::Memory(self.memories[*m]),
            ImportIndex::Global(g) => ExternType::Global(self.globals[*g]),
        }
    }
}

/// Whether a memory of style `exported` gives at least the protection that
/// an import expecting style `imported` was compiled for: a bound no smaller
/// where both are static, and a guard region no smaller in every case.
pub open spec fn style_covers(exported: MemoryStyle, imported: MemoryStyle) -> bool {
    &&& match (exported, imported) {
        (
            MemoryStyle::Static { bound: exported_bound, .. },
            MemoryStyle::Static { bound: imported_bound, .. },
        ) => exported_bound >= imported_bound,
        _ => true,
    }
    &&& exported.spec_offset_guard_size() >= imported.spec_offset_guard_size()
}

/// Whether a memory of style `exported` may back an import that expects
/// style `imported`.
pub fn memory_style_covers(exported: &MemoryStyle, imported: &MemoryStyle) -> (r: bool)
    ensures
        r == style_covers(*exported, *imported),
{
    let bound_ok = match (exported, imported) {
        (
            MemoryStyle::Static { bound: exported_bound, .. },
            MemoryStyle::Static { bound: imported_bound, .. },
        ) => *exported_bound >= *imported_bound,
        _ => true,
    };
    bound_ok && exported.offset_guard_size() >= imported.offset_guard_size()
}

/// The fault, if any, that makes an export of fitting type unusable for an
/// import: a static host function with more parameters than the native
/// convention allows, a host environment callback pair without an
/// environment, or a memory less protected than the import's style asks.
pub open spec fn fatal_cause(
    styles: Seq<MemoryStyle>,
    abi: NativeAbi,
    ii: ImportIndex,
    e: Export,
) -> Option<FatalError> {
    match e {
        Export::Function(f) => {
            let limit = spec_max_static_params(abi);
            if f.kind == FunctionKind::Static && limit is Some && f.signature.params@.len()
                > limit->0 {
                Some(
                    FatalError::TooManyNativeParams {
                        count: f.signature.params@.len() as usize,
                        limit: limit->0,
                    },
                )
            } else if f.metadata is Some && f.host_env == 0 {
                Some(FatalError::NullHostEnv)
            } else {
                None
            }
        },
        Export::Memory(m) => match ii {
            ImportIndex::Memory(idx) => if style_covers(m.style, styles[idx as int]) {
                None
            } else {
                Some(FatalError::MemoryStyleMismatch)
            },
            _ => None,
        },
        _ => None,
    }
}

/// The export that `r` offers for `imp`, asked with the import's own
/// position and names.
pub open spec fn resolved<R: Resolver + ?Sized>(r: &R, imp: Import) -> Option<Export> {
    r.resolution(imp.index, imp.module@, imp.field@)
}

/// Whether `imp` links: an export is offered, its type fits the declared
/// one, and nothing makes it unusable.
pub open spec fn import_links<R: Resolver + ?Sized>(
    module: ModuleInfo,
    r: &R,
    styles: Seq<MemoryStyle>,
    abi: NativeAbi,
    imp: Import,
) -> bool {
    match resolved(r, imp) {
        None => false,
        Some(e) => extern_compatible(export_type(e), module.import_type(imp.import_index))
            && fatal_cause(styles, abi, imp.import_index, e) is None,
    }
}

/// Whether `err` is the failure that linking `imp` ends in: an unknown
/// import with the declared type where nothing is offered; else an
/// incompatible type with the declared and the offered types where they do
/// not fit; else the fault that makes the export unusable.
pub open spec fn is_link_error<R: Resolver + ?Sized>(
    module: ModuleInfo,
    r: &R,
    styles: Seq<MemoryStyle>,
    abi: NativeAbi,
    imp: Import,
    err: LinkError,
) -> bool {
    let expected = module.import_type(imp.import_index);
    match resolved(r, imp) {
        None => match err {
            LinkError::Import(m, f, ImportError::UnknownImport(t)) => m == imp.module && f
                == imp.field && same_extern(t, expected),
            _ => false,
        },
        Some(e) => if !extern_compatible(export_type(e), expected) {
            match err {
                LinkError::Import(m, f, ImportError::IncompatibleType(t, u)) => m == imp.module
                    && f == imp.field && same_extern(t, expected) && same_extern(
                    u,
                    export_type(e),
                ),
                _ => false,
            }
        } else {
            match fatal_cause(styles, abi, imp.import_index, e) {
                Some(c) => err == LinkError::Fatal(imp.module, imp.field, c),
                None => false,
            }
        },
    }
}

/// The address at which the `k`-th imported function is entered: the
/// finished trampoline at position `k` for a dynamic function, the
/// function's own entry point for a static one.
pub open spec fn function_address(f: ExportFunction, k: int, trampolines: Seq<u64>) -> u64 {
    match f.kind {
        FunctionKind::Dynamic => trampolines[k],
        FunctionKind::Static => f.address,
    }
}

/// The lifecycle record of an imported function whose bound context is
/// `env`: the environment with its callbacks where the export has them,
/// none otherwise.
pub open spec fn lifecycle_of(f: ExportFunction, env: u64) -> ImportFunctionEnv {
    match f.metadata {
        Some(m) => ImportFunctionEnv::Env {
            env,
            clone: m.host_env_clone_fn,
            initializer: m.import_init_function_ptr,
            destructor: m.host_env_drop_fn,
        },
        None => ImportFunctionEnv::NoEnv,
    }
}

/// Whether `b` and `life` bind the `k`-th imported function to `f`: at its
/// address, with a copy of its environment made by `clone_env` where it has
/// host environment callbacks, and with its own context otherwise.
pub open spec fn function_bound<F: Fn(u64, u64) -> u64>(
    clone_env: F,
    f: ExportFunction,
    k: int,
    trampolines: Seq<u64>,
    b: VMFunctionImport,
    life: ImportFunctionEnv,
) -> bool {
    &&& b.body == function_address(f, k, trampolines)
    &&& match f.metadata {
        Some(m) => clone_env.ensures((m.host_env_clone_fn, f.host_env), b.host_env),
        None => b.host_env == f.host_env,
    }
    &&& life == lifecycle_of(f, b.host_env)
}

/// Whether the `i`-th import is bound, in the lists of its kind at the
/// position given by the imports of that kind before it, to the export
/// offered for it.
pub open spec fn bound_as_resolved<R: Resolver + ?Sized, F: Fn(u64, u64) -> u64>(
    module: ModuleInfo,
    r: &R,
    trampolines: Seq<u64>,
    clone_env: F,
    functions: Seq<VMFunctionImport>,
    envs: Seq<ImportFunctionEnv>,
    tables: Seq<VMTableImport>,
    memories: Seq<VMMemoryImport>,
    globals: Seq<VMGlobalImport>,
    i: int,
) -> bool {
    let imports = module.imports@;
    match resolved(r, imports[i]) {
        Some(Export::Function(f)) => {
            let k = count_kind(imports, 0, i) as int;
            function_bound(clone_env, f, k, trampolines, functions[k], envs[k])
        },
        Some(Export::Table(t)) => tables[count_kind(imports, 1, i) as int] == VMTableImport {
            definition: t.definition,
            from: t.owner,
        },
        Some(Export::Memory(m)) => memories[count_kind(imports, 2, i) as int] == VMMemoryImport {
            definition: m.definition,
            from: m.owner,
        },
        Some(Export::Global(g)) => globals[count_kind(imports, 3, i) as int] == VMGlobalImport {
            definition: g.definition,
            from: g.owner,
        },
        None => false,
    }
}

/// Whether every memory import refers to an entry of `n` memory styles.
pub open spec fn styles_cover_imports(imports: Seq<Import>, n: int) -> bool {
    forall|i: int|
        0 <= i < imports.len() ==> match #[trigger] imports[i].import_index {
            ImportIndex::Memory(idx) => idx < n,
            _ => true,
        }
}

/// The kind of an extern type, numbered as `kind_of` numbers import kinds.
pub open spec fn extern_kind(t: ExternType) -> nat {
    match t {
        ExternType::Function(_) => 0,
        ExternType::Table(_) => 1,
        ExternType::Memory(_) => 2,
        ExternType::Global(_) => 3,
    }
}

/// An import for which nothing is offered fails as an unknown import that
/// names it and holds its declared type.
pub proof fn lemma_unknown_import<R: Resolver + ?Sized>(
    module: ModuleInfo,
    r: &R,
    styles: Seq<MemoryStyle>,
    abi: NativeAbi,
    imp: Import,
    err: LinkError,
)
    requires
        resolved(r, imp) is None,
        is_link_error(module, r, styles, abi, imp, err),
    ensures
        !import_links(module, r, styles, abi, imp),
        err matches LinkError::Import(m, f, ImportError::UnknownImport(t)) && m == imp.module && f
            == imp.field && same_extern(t, module.import_type(imp.import_index)),
{
}

/// An export of another kind than the import, or of the same kind with
/// another signature, other limits or another mutability, makes the import
/// fail as an incompatible type holding the declared and the offered types.
pub proof fn lemma_incompatible_import<R: Resolver + ?Sized>(
    module: ModuleInfo,
    r: &R,
    styles: Seq<MemoryStyle>,
    abi: NativeAbi,
    imp: Import,
    e: Export,
    err: LinkError,
)
    requires
        resolved(r, imp) == Some(e),
        !extern_compatible(export_type(e), module.import_type(imp.import_index)),
        is_link_error(module, r, styles, abi, imp, err),
    ensures
        !import_links(module, r, styles, abi, imp),
        err matches LinkError::Import(m, f, ImportError::IncompatibleType(t, u)) && m == imp.module
            && f == imp.field && same_extern(t, module.import_type(imp.import_index)) && same_extern(
            u,
            export_type(e),
        ),
{
}

/// Types of two different kinds are never compatible.
pub proof fn lemma_kinds_differ(exported: ExternType, imported: ExternType)
    requires
        extern_kind(exported) != extern_kind(imported),
    ensures
        !extern_compatible(exported, imported),
{
}

/// A static memory bounded at `exported_bound` pages with a guard region of
/// `exported_guard` bytes covers an import that expects a static memory of
/// `imported_bound` pages and `imported_guard` bytes exactly when neither is
/// smaller; where it does not, an export of that memory whose type fits is
/// still refused as a fatal fault.
pub proof fn lemma_static_memory_cover(
    exported_bound: u32,
    exported_guard: u64,
    imported_bound: u32,
    imported_guard: u64,
    m: crate::export::ExportMemory,
    styles: Seq<MemoryStyle>,
    abi: NativeAbi,
    idx: usize,
)
    requires
        m.style == (MemoryStyle::Static { bound: exported_bound, offset_guard_size: exported_guard }),
        idx < styles.len(),
        styles[idx as int] == (MemoryStyle::Static {
            bound: imported_bound,
            offset_guard_size: imported_guard,
        }),
    ensures
        style_covers(m.style, styles[idx as int]) <==> (exported_bound >= imported_bound
            && exported_guard >= imported_guard),
        fatal_cause(styles, abi, ImportIndex::Memory(idx), Export::Memory(m)) == if exported_bound
            >= imported_bound && exported_guard >= imported_guard {
            None
        } else {
            Some(FatalError::MemoryStyleMismatch)
        },
{
}

proof fn lemma_count_grows(imports: Seq<Import>, j: int, i: int)
    requires
        0 <= j < i,
    ensures
        forall|kind: nat| count_kind(imports, kind, j + 1) <= #[trigger] count_kind(imports, kind, i),
    decreases i - j,
{
    if j + 1 < i {
        lemma_count_grows(imports, j, i - 1);
        assert forall|kind: nat|
            count_kind(imports, kind, i - 1) <= #[trigger] count_kind(imports, kind, i) by {}
    }
}

/// Whether import `i` is the first of `module`'s imports that does not link.
pub open spec fn first_failure_at<R: Resolver + ?Sized>(
    module: ModuleInfo,
    r: &R,
    styles: Seq<MemoryStyle>,
    abi: NativeAbi,
    i: int,
) -> bool {
    &&& 0 <= i < module.imports@.len()
    &&& forall|j: int|
        0 <= j < i ==> import_links(module, r, styles, abi, #[trigger] module.imports@[j])
    &&& !import_links(module, r, styles, abi, module.imports@[i])
}

proof fn lemma_error_means_failure<R: Resolver + ?Sized>(
    module: ModuleInfo,
    r: &R,
    styles: Seq<MemoryStyle>,
    abi: NativeAbi,
    imp: Import,
    err: LinkError,
)
    requires
        is_link_error(module, r, styles, abi, imp, err),
    ensures
        !import_links(module, r, styles, abi, imp),
{
}

/// The linking loop; `resolve_imports` states what follows from its result.
fn link_imports<R: Resolver + ?Sized, F: Fn(u64, u64) -> u64>(
    module: &ModuleInfo,
    resolver: &R,
    finished_dynamic_function_trampolines: &Vec<u64>,
    memory_styles: &Vec<MemoryStyle>,
    abi: NativeAbi,
    clone_env: F,
) -> (r: Result<Imports, LinkError>)
    requires
        module.wf(),
        count_kind(module.imports@, 0, module.imports@.len() as int)
            <= finished_dynamic_function_trampolines@.len(),
        styles_cover_imports(module.imports@, memory_styles@.len() as int),
        forall|c: u64, e: u64| clone_env.requires((c, e)),
    ensures
        match r {
            Ok(out) => {
                let imports = module.imports@;
                let n = imports.len() as int;
                &&& forall|i: int|
                    0 <= i < n ==> import_links(
                        *module,
                        resolver,
                        memory_styles@,
                        abi,
                        #[trigger] imports[i],
                    )
                &&& out.functions@.len() == count_kind(imports, 0, n)
                &&& out.host_function_env_initializers@.len() == count_kind(imports, 0, n)
                &&& out.tables@.len() == count_kind(imports, 1, n)
                &&& out.memories@.len() == count_kind(imports, 2, n)
                &&& out.globals@.len() == count_kind(imports, 3, n)
                &&& forall|i: int|
                    0 <= i < n ==> #[trigger] bound_as_resolved(
                        *module,
                        resolver,
                        finished_dynamic_function_trampolines@,
                        clone_env,
                        out.functions@,
                        out.host_function_env_initializers@,
                        out.tables@,
                        out.memories@,
                        out.globals@,
                        i,
                    )
            },
            Err(err) => exists|i: int|
                0 <= i < module.imports@.len() && (forall|j: int|
                    0 <= j < i ==> import_links(
                        *module,
                        resolver,
                        memory_styles@,
                        abi,
                        #[trigger] module.imports@[j],
                    )) && #[trigger] is_link_error(
                    *module,
                    resolver,
                    memory_styles@,
                    abi,
                    module.imports@[i],
                    err,
                ),
        },
        module.imports@.len() == 0 ==> (r matches Ok(out) && out.functions@.len() == 0
            && out.host_function_env_initializers@.len() == 0 && out.tables@.len() == 0
            && out.memories@.len() == 0 && out.globals@.len() == 0),
        forall|i: int|
            0 <= i < module.imports@.len() && !import_links(
                *module,
                resolver,
                memory_styles@,
                abi,
                #[trigger] module.imports@[i],
            ) ==> r is Err,
{
    let ghost imports = module.imports@;
    let ghost trampolines = finished_dynamic_function_trampolines@;
    let mut functions: Vec<VMFunctionImport> = Vec::new();
    let mut envs: Vec<ImportFunctionEnv> = Vec::new();
    let mut tables: Vec<VMTableImport> = Vec::new();
    let mut memories: Vec<VMMemoryImport> = Vec::new();
    let mut globals: Vec<VMGlobalImport> = Vec::new();
    let mut i: usize = 0;
    while i < module.imports.len()
        invariant
            imports == module.imports@,
            trampolines == finished_dynamic_function_trampolines@,
            module.wf(),
            count_kind(imports, 0, imports.len() as int) <= trampolines.len(),
            styles_cover_imports(imports, memory_styles@.len() as int),
            forall|c: u64, e: u64| clone_env.requires((c, e)),
            i <= imports.len(),
            functions@.len() == count_kind(imports, 0, i as int),
            envs@.len() == count_kind(imports, 0, i as int),
            tables@.len() == count_kind(imports, 1, i as int),
            memories@.len() == count_kind(imports, 2, i as int),
            globals@.len() == count_kind(imports, 3, i as int),
            forall|j: int|
                0 <= j < i ==> import_links(
                    *module,
                    resolver,
                    memory_styles@,
                    abi,
                    #[trigger] imports[j],
                ),
            forall|j: int|
                0 <= j < i ==> #[trigger] bound_as_resolved(
                    *module,
                    resolver,
                    trampolines,
                    clone_env,
                    functions@,
                    envs@,
                    tables@,
                    memories@,
                    globals@,
                    j,
                ),
        decreases imports.len() - i,
    {
        let imp = &module.imports[i];
        assert(module.refers_within(imports[i as int].import_index));
        let offered = resolver.resolve(imp.index, imp.module.as_str(), imp.field.as_str());
        let import_extern = module.extern_type_of(&imp.import_index);
        let export = match offered {
            None => {
                let err = LinkError::Import(
                    imp.module.clone(),
                    imp.field.clone(),
                    ImportError::UnknownImport(import_extern),
                );
                assert(is_link_error(*module, resolver, memory_styles@, abi, imports[i as int], err));
                return Err(err);
            },
            Some(e) => e,
        };
        let ghost spec_export = resolved(resolver, imports[i as int])->0;
        assert(same_export(export, spec_export));
        let export_extern = export.extern_type();
        if !export_extern.is_compatible_with(&import_extern) {
            let err = LinkError::Import(
                imp.module.clone(),
                imp.field.clone(),
                ImportError::IncompatibleType(import_extern, export_extern),
            );
            assert(is_link_error(*module, resolver, memory_styles@, abi, imports[i as int], err));
            return Err(err);
        }
        let ghost old_functions = functions@;
        let ghost old_envs = envs@;
        let ghost old_tables = tables@;
        let ghost old_memories = memories@;
        let ghost old_globals = globals@;
        match export {
            Export::Function(f) => {
                let k = functions.len();
                proof {
                    lemma_count_grows(imports, i as int, imports.len() as int);
                    assert(kind_of(imports[i as int].import_index) == 0);
                }
                let address = match f.kind {
                    FunctionKind::Dynamic => finished_dynamic_function_trampolines[k],
                    FunctionKind::Static => {
                        match abi.max_static_params() {
                            Some(limit) => {
                                if f.signature.params.len() > limit {
                                    let err = LinkError::Fatal(
                                        imp.module.clone(),
                                        imp.field.clone(),
                                        FatalError::TooManyNativeParams {
                                            count: f.signature.params.len(),
                                            limit,
                                        },
                                    );
                                    assert(is_link_error(*module, resolver, memory_styles@, abi, imports[i as int], err));
                                    return Err(err);
                                }
                            },
                            None => {},
                        }
                        f.address
                    },
                };
                let env = match f.metadata {
                    Some(m) => {
                        if f.host_env == 0 {
                            let err = LinkError::Fatal(
                                imp.module.clone(),
                                imp.field.clone(),
                                FatalError::NullHostEnv,
                            );
                            assert(is_link_error(*module, resolver, memory_styles@, abi, imports[i as int], err));
                            return Err(err);
                        }
                        clone_env(m.host_env_clone_fn, f.host_env)
                    },
                    None => f.host_env,
                };
                functions.push(VMFunctionImport { body: address, host_env: env });
                let life = match f.metadata {
                    Some(m) => ImportFunctionEnv::Env {
                        env,
                        clone: m.host_env_clone_fn,
                        initializer: m.import_init_function_ptr,
                        destructor: m.host_env_drop_fn,
                    },
                    None => ImportFunctionEnv::NoEnv,
                };
                envs.push(life);
            },
            Export::Table(t) => {
                tables.push(VMTableImport { definition: t.definition, from: t.owner });
            },
            Export::Memory(m) => {
                match imp.import_index {
                    ImportIndex::Memory(idx) => {
                        if !memory_style_covers(&m.style, &memory_styles[idx]) {
                            let err = LinkError::Fatal(
                                imp.module.clone(),
                                imp.field.clone(),
                                FatalError::MemoryStyleMismatch,
                            );
                            assert(is_link_error(*module, resolver, memory_styles@, abi, imports[i as int], err));
                            return Err(err);
                        }
                    },
                    _ => {},
                }
                memories.push(VMMemoryImport { definition: m.definition, from: m.owner });
            },
            Export::Global(g) => {
                globals.push(VMGlobalImport { definition: g.definition, from: g.owner });
            },
        }
        proof {
            assert(import_links(*module, resolver, memory_styles@, abi, imports[i as int]));
            assert forall|j: int| 0 <= j < i implies #[trigger] bound_as_resolved(
                *module,
                resolver,
                trampolines,
                clone_env,
                functions@,
                envs@,
                tables@,
                memories@,
                globals@,
                j,
            ) by {
                lemma_count_grows(imports, j, i as int);
                assert(bound_as_resolved(
                    *module,
                    resolver,
                    trampolines,
                    clone_env,
                    old_functions,
                    old_envs,
                    old_tables,
                    old_memories,
                    old_globals,
                    j,
                ));
                assert(import_links(*module, resolver, memory_styles@, abi, imports[j]));
            }
        }
        i = i + 1;
    }
    Ok(
        Imports {
            functions,
            host_function_env_initializers: envs,
            tables,
            memories,
            globals,
        },
    )
}


/// Links every import of `module` to the export that `resolver` offers for
/// it, in declaration order, and returns the bindings, one list per kind.
///
/// Each import is resolved with its own position and names. Linking stops at
/// the first import that does not link, with the error for that import: an
/// unknown import, an incompatible type, or a fatal fault (a static host
/// function over `abi`'s parameter limit, callbacks without an environment,
/// or a memory whose style is less protective than the entry of
/// `memory_styles` that the import refers to).
///
/// The `k`-th imported function is entered, where it is dynamic, at entry `k`
/// of `finished_dynamic_function_trampolines`, and where it is static at its
/// own address. Where it carries host environment callbacks, its environment
/// is the copy that `clone_env(clone callback, environment)` returns.
pub fn resolve_imports<R: Resolver + ?Sized, F: Fn(u64, u64) -> u64>(
    module: &ModuleInfo,
    resolver: &R,
    finished_dynamic_function_trampolines: &Vec<u64>,
    memory_styles: &Vec<MemoryStyle>,
    _table_styles: &Vec<TableStyle>,
    abi: NativeAbi,
    clone_env: F,
) -> (r: Result<Imports, LinkError>)
    requires
        module.wf(),
        count_kind(module.imports@, 0, module.imports@.len() as int)
            <= finished_dynamic_function_trampolines@.len(),
        styles_cover_imports(module.imports@, memory_styles@.len() as int),
        forall|c: u64, e: u64| clone_env.requires((c, e)),
    ensures
        match r {
            Ok(out) => {
                let imports = module.imports@;
                let n = imports.len() as int;
                &&& forall|i: int|
                    0 <= i < n ==> import_links(
                        *module,
                        resolver,
                        memory_styles@,
                        abi,
                        #[trigger] imports[i],
                    )
                &&& out.functions@.len() == count_kind(imports, 0, n)
                &&& out.host_function_env_initializers@.len() == count_kind(imports, 0, n)
                &&& out.tables@.len() == count_kind(imports, 1, n)
                &&& out.memories@.len() == count_kind(imports, 2, n)
                &&& out.globals@.len() == count_kind(imports, 3, n)
                &&& forall|i: int|
                    0 <= i < n ==> #[trigger] bound_as_resolved(
                        *module,
                        resolver,
                        finished_dynamic_function_trampolines@,
                        clone_env,
                        out.functions@,
                        out.host_function_env_initializers@,
                        out.tables@,
                        out.memories@,
                        out.globals@,
                        i,
                    )
            },
            Err(err) => exists|i: int|
                0 <= i < module.imports@.len() && (forall|j: int|
                    0 <= j < i ==> import_links(
                        *module,
                        resolver,
                        memory_styles@,
                        abi,
                        #[trigger] module.imports@[j],
                    )) && #[trigger] is_link_error(
                    *module,
                    resolver,
                    memory_styles@,
                    abi,
                    module.imports@[i],
                    err,
                ),
        },
        module.imports@.len() == 0 ==> (r matches Ok(out) && out.functions@.len() == 0
            && out.host_function_env_initializers@.len() == 0 && out.tables@.len() == 0
            && out.memories@.len() == 0 && out.globals@.len() == 0),
        forall|i: int|
            0 <= i < module.imports@.len() && !import_links(
                *module,
                resolver,
                memory_styles@,
                abi,
                #[trigger] module.imports@[i],
            ) ==> r is Err,
        (forall|i: int|
            0 <= i < module.imports@.len() ==> import_links(
                *module,
                resolver,
                memory_styles@,
                abi,
                #[trigger] module.imports@[i],
            )) ==> r is Ok,
        forall|i: int|
            #[trigger] first_failure_at(*module, resolver, memory_styles@, abi, i) ==> (r matches Err(
                err,
            ) && is_link_error(*module, resolver, memory_styles@, abi, module.imports@[i], err)),
{
    let r = link_imports(
        module,
        resolver,
        finished_dynamic_function_trampolines,
        memory_styles,
        abi,
        clone_env,
    );
    proof {
        assert forall|i: int|
            #[trigger] first_failure_at(*module, resolver, memory_styles@, abi, i) implies (
            r matches Err(err) && is_link_error(
                *module,
                resolver,
                memory_styles@,
                abi,
                module.imports@[i],
                err,
            )) by {
            if let Err(err) = r {
                let w = choose|w: int|
                    0 <= w < module.imports@.len() && (forall|j: int|
                        0 <= j < w ==> import_links(
                            *module,
                            resolver,
                            memory_styles@,
                            abi,
                            #[trigger] module.imports@[j],
                        )) && #[trigger] is_link_error(
                        *module,
                        resolver,
                        memory_styles@,
                        abi,
                        module.imports@[w],
                        err,
                    );
                lemma_error_means_failure(*module, resolver, memory_styles@, abi, module.imports@[w], err);
                assert(w == i);
            }
        }
    }
    r
}

} // verus!
