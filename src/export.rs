//! Values that a host or another instance offers to satisfy imports.

use vstd::prelude::*;
use crate::types::{same_extern, same_signature, ExternType, FunctionType, GlobalType, MemoryType, TableType};

verus! {

/// How an exported function is entered.
#[derive(PartialEq, Eq, Structural, Clone, Copy, Debug)]
pub enum FunctionKind {
    /// Compiled with the native calling convention: its address is called directly.
    Static,
    /// Registered through a generic trampoline, whose finished address the
    /// instantiating engine supplies.
    Dynamic,
}

/// How a host environment attached to a function is copied, set up and
/// released for each instance that imports the function.
#[derive(PartialEq, Eq, Structural, Clone, Copy, Debug)]
pub struct ExportFunctionMetadata {
    /// Address of the callback that copies the host environment.
    pub host_env_clone_fn: u64,
    /// Address of the callback that releases a copy of the host environment.
    pub host_env_drop_fn: u64,
    /// Address of the callback that initialises a copy, if there is one.
    pub import_init_function_ptr: Option<u64>,
}

/// An exported function.
#[derive(Clone, Debug, PartialEq, Eq)]
pub struct ExportFunction {
    pub signature: FunctionType,
    pub kind: FunctionKind,
    /// The function's own native entry point.
    pub address: u64,
    /// The opaque context handed to the function on each call.
    pub host_env: u64,
    pub metadata: Option<ExportFunctionMetadata>,
}

/// How a memory is laid out in the address space, as far as imports care.
#[derive(PartialEq, Eq, Structural, Clone, Copy, Debug)]
pub enum MemoryStyle {
    /// The memory may be resized and moved.
    Dynamic { offset_guard_size: u64 },
    /// Address space for `bound` pages is reserved up front.
    Static { bound: u32, offset_guard_size: u64 },
}

impl MemoryStyle {
    pub open spec fn spec_offset_guard_size(&self) -> u64 {
        match *self {
            MemoryStyle::Dynamic { offset_guard_size } => offset_guard_size,
            MemoryStyle::Static { offset_guard_size, .. } => offset_guard_size,
        }
    }

    /// The size in bytes of the guard region after the memory's end.
    #[verifier::when_used_as_spec(spec_offset_guard_size)]
    pub fn offset_guard_size(&self) -> (r: u64)
        ensures
            r == self.spec_offset_guard_size(),
    {
        match self {
            MemoryStyle::Dynamic { offset_guard_size } => *offset_guard_size,
            MemoryStyle::Static { offset_guard_size, .. } => *offset_guard_size,
        }
    }
}

/// How a table is laid out; it takes no part in checking an import.
#[derive(PartialEq, Eq, Structural, Clone, Copy, Debug)]
pub enum TableStyle {
    /// Signatures are stored in the table and checked by the caller.
    CallerChecksSignature,
}

/// An exported table: its type and the handles of its definition and owner.
#[derive(PartialEq, Eq, Structural, Clone, Copy, Debug)]
pub struct ExportTable {
    pub ty: TableType,
    pub definition: u64,
    pub owner: u64,
}

/// An exported memory: its type, its style and the handles of its definition
/// and owner.
#[derive(PartialEq, Eq, Structural, Clone, Copy, Debug)]
pub struct ExportMemory {
    pub ty: MemoryType,
    pub style: MemoryStyle,
    pub definition: u64,
    pub owner: u64,
}

/// An exported global: its type and the handles of its definition and owner.
#[derive(PartialEq, Eq, Structural, Clone, Copy, Debug)]
pub struct ExportGlobal {
    pub ty: GlobalType,
    pub definition: u64,
    pub owner: u64,
}

/// A value offered to satisfy an import.
#[derive(Clone, Debug, PartialEq, Eq)]
pub enum Export {
    Function(ExportFunction),
    Table(ExportTable),
    Memory(ExportMemory),
    Global(ExportGlobal),
}

/// The type of an export.
pub open spec fn export_type(e: Export) -> ExternType {
    match e {
        Export::Function(f) => ExternType::Function(f.signature),
        Export::Table(t) => ExternType::Table(t.ty),
        Export::Memory(m) => ExternType::Memory(m.ty),
        Export::Global(g) => ExternType::Global(g.ty),
    }
}

/// Two exports are the same when they are of one kind and agree on every
/// field, signatures compared by their parameter and result lists.
pub open spec fn same_export(a: Export, b: Export) -> bool {
    match (a, b) {
        (Export::Function(x), Export::Function(y)) => {
            &&& same_signature(x.signature, y.signature)
            &&& x.kind == y.kind
            &&& x.address == y.address
            &&& x.host_env == y.host_env
            &&& x.metadata == y.metadata
        },
        (Export::Table(x), Export::Table(y)) => x == y,
        (Export::Memory(x), Export::Memory(y)) => x == y,
        (Export::Global(x), Export::Global(y)) => x == y,
        _ => false,
    }
}

/// Two resolutions are the same when both offer nothing, or both offer the
/// same export.
pub open spec fn same_resolution(a: Option<Export>, b: Option<Export>) -> bool {
    match (a, b) {
        (None, None) => true,
        (Some(x), Some(y)) => same_export(x, y),
        _ => false,
    }
}

impl Export {
    /// A copy of this export.
    pub fn duplicate(&self) -> (r: Export)
        ensures
            same_export(r, *self),
    {
        match self {
            Export::Function(f) => Export::Function(
                ExportFunction {
                    signature: f.signature.duplicate(),
                    kind: f.kind,
                    address: f.address,
                    host_env: f.host_env,
                    metadata: f.metadata,
                },
            ),
            Export::Table(t) => Export::Table(*t),
            Export::Memory(m) => Export::Memory(*m),
            Export::Global(g) => Export::Global(*g),
        }
    }

    /// The type of this export.
    pub fn extern_type(&self) -> (r: ExternType)
        ensures
            same_extern(r, export_type(*self)),
    {
        match self {
            Export::Function(f) => ExternType::Function(f.signature.duplicate()),
            Export::Table(t) => ExternType::Table(t.ty),
            Export::Memory(m) => ExternType::Memory(m.ty),
            Export::Global(g) => ExternType::Global(g.ty),
        }
    }
}

} // verus!
