//! The types that imports declare and exports carry, and when an export's
//! type satisfies an import's.

use vstd::prelude::*;

verus! {

/// A WebAssembly value type.
#[derive(PartialEq, Eq, Structural, Clone, Copy, Debug)]
pub enum ValType {
    I32,
    I64,
    F32,
    F64,
    V128,
    ExternRef,
    FuncRef,
}

/// Whether a global can be written after instantiation.
#[derive(PartialEq, Eq, Structural, Clone, Copy, Debug)]
pub enum Mutability {
    Const,
    Var,
}

/// The signature of a function: its parameter and result types.
#[derive(Clone, Debug, PartialEq, Eq)]
pub struct FunctionType {
    pub params: Vec<ValType>,
    pub results: Vec<ValType>,
}

/// The element type and size limits of a table.
#[derive(PartialEq, Eq, Structural, Clone, Copy, Debug)]
pub struct TableType {
    pub ty: ValType,
    pub minimum: u32,
    pub maximum: Option<u32>,
}

/// The size limits of a memory, in pages, and whether it is shared.
#[derive(PartialEq, Eq, Structural, Clone, Copy, Debug)]
pub struct MemoryType {
    pub minimum: u32,
    pub maximum: Option<u32>,
    pub shared: bool,
}

/// The value type and mutability of a global.
#[derive(PartialEq, Eq, Structural, Clone, Copy, Debug)]
pub struct GlobalType {
    pub ty: ValType,
    pub mutability: Mutability,
}

/// The type of an importable or exportable entity.
#[derive(Clone, Debug, PartialEq, Eq)]
pub enum ExternType {
    Function(FunctionType),
    Table(TableType),
    Memory(MemoryType),
    Global(GlobalType),
}

/// Two signatures are the same when their parameter and result lists are.
pub open spec fn same_signature(a: FunctionType, b: FunctionType) -> bool {
    a.params@ == b.params@ && a.results@ == b.results@
}

/// An imported upper limit is met when there is none, or when the exported
/// limit exists and does not exceed it.
pub open spec fn maximum_satisfies(exported: Option<u32>, imported: Option<u32>) -> bool {
    match imported {
        None => true,
        Some(im) => match exported {
            Some(ex) => im >= ex,
            None => false,
        },
    }
}

/// A table of `funcref` elements may stand for a table of any element type;
/// any other element type only for itself.
pub open spec fn element_compatible(exported: ValType, imported: ValType) -> bool {
    exported == ValType::FuncRef || exported == imported
}

/// An exported table satisfies an imported one when its element type fits,
/// it is at least as large and it is bounded at least as tightly.
pub open spec fn table_compatible(exported: TableType, imported: TableType) -> bool {
    &&& element_compatible(exported.ty, imported.ty)
    &&& imported.minimum <= exported.minimum
    &&& maximum_satisfies(exported.maximum, imported.maximum)
}

/// An exported memory satisfies an imported one when it agrees on sharing,
/// is at least as large and is bounded at least as tightly.
pub open spec fn memory_compatible(exported: MemoryType, imported: MemoryType) -> bool {
    &&& exported.shared == imported.shared
    &&& imported.minimum <= exported.minimum
    &&& maximum_satisfies(exported.maximum, imported.maximum)
}

/// Whether an export of type `exported` may satisfy an import of type
/// `imported`: the kinds agree, signatures and globals match exactly, and
/// tables and memories meet the imported limits.
pub open spec fn extern_compatible(exported: ExternType, imported: ExternType) -> bool {
    match (exported, imported) {
        (ExternType::Function(a), ExternType::Function(b)) => same_signature(a, b),
        (ExternType::Global(a), ExternType::Global(b)) => a == b,
        (ExternType::Table(a), ExternType::Table(b)) => table_compatible(a, b),
        (ExternType::Memory(a), ExternType::Memory(b)) => memory_compatible(a, b),
        _ => false,
    }
}

/// Two extern types are the same when they are of one kind and agree on
/// everything that kind holds.
pub open spec fn same_extern(a: ExternType, b: ExternType) -> bool {
    match (a, b) {
        (ExternType::Function(x), ExternType::Function(y)) => same_signature(x, y),
        (ExternType::Table(x), ExternType::Table(y)) => x == y,
        (ExternType::Memory(x), ExternType::Memory(y)) => x == y,
        (ExternType::Global(x), ExternType::Global(y)) => x == y,
        _ => false,
    }
}

/// A copy of a list of value types.
pub fn copy_val_types(v: &Vec<ValType>) -> (r: Vec<ValType>)
    ensures
        r@ == v@,
{
    let mut r: Vec<ValType> = Vec::new();
    let mut i: usize = 0;
    while i < v.len()
        invariant
            i <= v@.len(),
            r@ == v@.subrange(0, i as int),
        decreases v@.len() - i,
    {
        r.push(v[i]);
        i = i + 1;
        assert(r@ =~= v@.subrange(0, i as int));
    }
    assert(r@ =~= v@);
    r
}

/// Whether two lists of value types are equal, element by element.
pub fn same_val_types(a: &Vec<ValType>, b: &Vec<ValType>) -> (r: bool)
    ensures
        r == (a@ == b@),
{
    if a.len() != b.len() {
        return false;
    }
    let mut i: usize = 0;
    while i < a.len()
        invariant
            a@.len() == b@.len(),
            i <= a@.len(),
            forall|j: int| 0 <= j < i ==> a@[j] == b@[j],
        decreases a@.len() - i,
    {
        if a[i] != b[i] {
            return false;
        }
        i = i + 1;
    }
    assert(a@ =~= b@);
    true
}

fn maximum_satisfied(exported: Option<u32>, imported: Option<u32>) -> (r: bool)
    ensures
        r == maximum_satisfies(exported, imported),
{
    match imported {
        None => true,
        Some(im) => match exported {
            Some(ex) => im >= ex,
            None => false,
        },
    }
}

impl FunctionType {
    /// A copy of this signature.
    pub fn duplicate(&self) -> (r: FunctionType)
        ensures
            same_signature(r, *self),
    {
        FunctionType { params: copy_val_types(&self.params), results: copy_val_types(&self.results) }
    }

    /// Whether this signature is the same as `other`.
    pub fn same_as(&self, other: &FunctionType) -> (r: bool)
        ensures
            r == same_signature(*self, *other),
    {
        same_val_types(&self.params, &other.params) && same_val_types(&self.results, &other.results)
    }
}

impl ExternType {
    /// Whether an export of this type may satisfy an import of type `imported`.
    pub fn is_compatible_with(&self, imported: &ExternType) -> (r: bool)
        ensures
            r == extern_compatible(*self, *imported),
    {
        match (self, imported) {
            (ExternType::Function(a), ExternType::Function(b)) => a.same_as(b),
            (ExternType::Global(a), ExternType::Global(b)) => a.ty == b.ty && a.mutability
                == b.mutability,
            (ExternType::Table(a), ExternType::Table(b)) => {
                (a.ty == ValType::FuncRef || a.ty == b.ty) && b.minimum <= a.minimum
                    && maximum_satisfied(a.maximum, b.maximum)
            },
            (ExternType::Memory(a), ExternType::Memory(b)) => {
                a.shared == b.shared && b.minimum <= a.minimum && maximum_satisfied(
                    a.maximum,
                    b.maximum,
                )
            },
            _ => false,
        }
    }
}

} // verus!
