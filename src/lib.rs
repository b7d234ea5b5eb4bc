//! Import resolution and linking for WebAssembly module instantiation.
//!
//! A module declares imports; a resolver offers exports for them; the linker
//! checks each offered export against its declaration and produces the
//! per-kind bindings that an instance is built from.

pub mod export;
pub mod linker;
pub mod resolver;
pub mod types;

pub use types::{
    same_extern, ExternType, FunctionType, GlobalType, MemoryType, Mutability, TableType, ValType,
};
pub use export::{
    Export, ExportFunction, ExportFunctionMetadata, ExportGlobal, ExportMemory, ExportTable,
    FunctionKind, MemoryStyle, TableStyle,
};
pub use resolver::{
    ChainableNamedResolver, IndexedExport, IndexedExports, NamedExport, NamedExports, NamedResolver,
    NamedResolverChain, NullResolver, Resolver,
};
pub use linker::{
    memory_style_covers, resolve_imports, FatalError, Import, ImportError, ImportFunctionEnv,
    ImportIndex, Imports, LinkError, ModuleInfo, NativeAbi, VMFunctionImport, VMGlobalImport, VMMemoryImport,
    VMTableImport,
};
