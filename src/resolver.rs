//! Resolvers: what offers an export for each import, and how resolvers are
//! layered on one another.

use vstd::prelude::*;
use crate::export::{same_export, same_resolution, Export};

verus! {

/// Connects imports with the exports that satisfy them.
pub trait Resolver {
    /// The export offered for the import at position `index` of the module,
    /// named `module` and `field`, if any.
    spec fn resolution(&self, index: u32, module: Seq<char>, field: Seq<char>) -> Option<Export>;

    /// Resolves the import at position `index` (1 is the module's second
    /// import), named `module` and `field`. The position tells apart imports
    /// that share a name.
    fn resolve(&self, index: u32, module: &str, field: &str) -> (r: Option<Export>)
        ensures
            same_resolution(r, self.resolution(index, module@, field@)),
    ;
}

/// A resolver that looks only at the names of an import, not its position.
pub trait NamedResolver {
    /// The export offered under the names `module` and `field`, if any.
    spec fn lookup(&self, module: Seq<char>, field: Seq<char>) -> Option<Export>;

    /// Resolves the import named `module` and `field`.
    fn resolve_by_name(&self, module: &str, field: &str) -> (r: Option<Export>)
        ensures
            same_resolution(r, self.lookup(module@, field@)),
    ;
}

/// Every named resolver is a resolver that ignores the position.
impl<T: NamedResolver> Resolver for T {
    open spec fn resolution(&self, index: u32, module: Seq<char>, field: Seq<char>) -> Option<
        Export,
    > {
        self.lookup(module, field)
    }

    fn resolve(&self, index: u32, module: &str, field: &str) -> (r: Option<Export>) {
        self.resolve_by_name(module, field)
    }
}

/// A reference to a named resolver resolves as the resolver does.
impl<T: NamedResolver> NamedResolver for &T {
    open spec fn lookup(&self, module: Seq<char>, field: Seq<char>) -> Option<Export> {
        (**self).lookup(module, field)
    }

    fn resolve_by_name(&self, module: &str, field: &str) -> (r: Option<Export>) {
        (**self).resolve_by_name(module, field)
    }
}

/// A boxed named resolver resolves as the resolver inside does.
impl NamedResolver for Box<dyn NamedResolver> {
    open spec fn lookup(&self, module: Seq<char>, field: Seq<char>) -> Option<Export> {
        (**self).lookup(module, field)
    }

    fn resolve_by_name(&self, module: &str, field: &str) -> (r: Option<Export>) {
        (**self).resolve_by_name(module, field)
    }
}

/// A resolver that offers nothing.
pub struct NullResolver {}

impl Resolver for NullResolver {
    open spec fn resolution(&self, index: u32, module: Seq<char>, field: Seq<char>) -> Option<
        Export,
    > {
        None
    }

    fn resolve(&self, _idx: u32, _module: &str, _field: &str) -> (r: Option<Export>) {
        None
    }
}

/// An export offered under a module and field name.
#[derive(Clone, Debug)]
pub struct NamedExport {
    pub module: String,
    pub field: String,
    pub export: Export,
}

/// The export of the first of `entries`, from position `i` on, offered under
/// `module` and `field`.
pub open spec fn first_named(entries: Seq<NamedExport>, module: Seq<char>, field: Seq<char>, i: int) -> Option<
    Export,
>
    decreases entries.len() - i,
{
    if i < 0 || i >= entries.len() {
        None
    } else if entries[i].module@ == module && entries[i].field@ == field {
        Some(entries[i].export)
    } else {
        first_named(entries, module, field, i + 1)
    }
}

/// A named resolver over a list of exports: where several share a name, the
/// first one is offered.
#[derive(Clone, Debug)]
pub struct NamedExports {
    pub entries: Vec<NamedExport>,
}

impl NamedResolver for NamedExports {
    open spec fn lookup(&self, module: Seq<char>, field: Seq<char>) -> Option<Export> {
        first_named(self.entries@, module, field, 0)
    }

    fn resolve_by_name(&self, module: &str, field: &str) -> (r: Option<Export>) {
        let wanted_module = module.to_owned();
        let wanted_field = field.to_owned();
        let mut i: usize = 0;
        while i < self.entries.len()
            invariant
                i <= self.entries@.len(),
                wanted_module@ == module@,
                wanted_field@ == field@,
                first_named(self.entries@, module@, field@, 0) == first_named(
                    self.entries@,
                    module@,
                    field@,
                    i as int,
                ),
            decreases self.entries@.len() - i,
        {
            let entry = &self.entries[i];
            if entry.module == wanted_module && entry.field == wanted_field {
                return Some(entry.export.duplicate());
            }
            i = i + 1;
        }
        None
    }
}

/// An export offered to the import at one position under one name pair.
#[derive(Clone, Debug)]
pub struct IndexedExport {
    pub index: u32,
    pub module: String,
    pub field: String,
    pub export: Export,
}

/// The export of the first of `entries`, from position `i` on, offered to
/// the import at position `index` named `module` and `field`.
pub open spec fn first_indexed(
    entries: Seq<IndexedExport>,
    index: u32,
    module: Seq<char>,
    field: Seq<char>,
    i: int,
) -> Option<Export>
    decreases entries.len() - i,
{
    if i < 0 || i >= entries.len() {
        None
    } else if entries[i].index == index && entries[i].module@ == module && entries[i].field@
        == field {
        Some(entries[i].export)
    } else {
        first_indexed(entries, index, module, field, i + 1)
    }
}

/// A resolver over a list of exports that tells imports apart by position
/// as well as by name.
#[derive(Clone, Debug)]
pub struct IndexedExports {
    pub entries: Vec<IndexedExport>,
}

impl Resolver for IndexedExports {
    open spec fn resolution(&self, index: u32, module: Seq<char>, field: Seq<char>) -> Option<
        Export,
    > {
        first_indexed(self.entries@, index, module, field, 0)
    }

    fn resolve(&self, index: u32, module: &str, field: &str) -> (r: Option<Export>) {
        let wanted_module = module.to_owned();
        let wanted_field = field.to_owned();
        let mut i: usize = 0;
        while i < self.entries.len()
            invariant
                i <= self.entries@.len(),
                wanted_module@ == module@,
                wanted_field@ == field@,
                first_indexed(self.entries@, index, module@, field@, 0) == first_indexed(
                    self.entries@,
                    index,
                    module@,
                    field@,
                    i as int,
                ),
            decreases self.entries@.len() - i,
        {
            let entry = &self.entries[i];
            if entry.index == index && entry.module == wanted_module && entry.field == wanted_field {
                return Some(entry.export.duplicate());
            }
            i = i + 1;
        }
        None
    }
}

/// Two named resolvers in a chain: the front one is asked first, and the
/// back one only where the front one offers nothing.
pub struct NamedResolverChain<A: NamedResolver, B: NamedResolver> {
    a: A,
    b: B,
}

impl<A: NamedResolver, B: NamedResolver> NamedResolverChain<A, B> {
    /// The chain of `front` before `back`.
    pub closed spec fn spec_new(front: A, back: B) -> Self {
        NamedResolverChain { a: front, b: back }
    }

    /// The resolver asked first.
    pub closed spec fn front(self) -> A {
        self.a
    }

    /// The resolver asked where the front one offers nothing.
    pub closed spec fn back(self) -> B {
        self.b
    }

    pub proof fn lemma_parts(front: A, back: B)
        ensures
            Self::spec_new(front, back).front() == front,
            Self::spec_new(front, back).back() == back,
    {
    }
}

/// A chain is copied member by member, front and back kept in place.
impl<A: NamedResolver + Clone, B: NamedResolver + Clone> Clone for NamedResolverChain<A, B> {
    fn clone(&self) -> (r: Self)
        ensures
            cloned::<A>(self.front(), r.front()),
            cloned::<B>(self.back(), r.back()),
    {
        NamedResolverChain { a: self.a.clone(), b: self.b.clone() }
    }
}

/// A copy of a chain whose members resolve a name as the originals do
/// resolves that name as the original chain does.
pub proof fn lemma_chain_copy_resolves<A: NamedResolver, B: NamedResolver>(
    original: NamedResolverChain<A, B>,
    copy: NamedResolverChain<A, B>,
    module: Seq<char>,
    field: Seq<char>,
)
    requires
        copy.front().lookup(module, field) == original.front().lookup(module, field),
        copy.back().lookup(module, field) == original.back().lookup(module, field),
    ensures
        copy.lookup(module, field) == original.lookup(module, field),
{
}

/// What a chain offers: the front resolver's export if it has one, else the
/// back resolver's.
pub open spec fn first_match(front: Option<Export>, back: Option<Export>) -> Option<Export> {
    match front {
        Some(e) => Some(e),
        None => back,
    }
}

impl<A: NamedResolver, B: NamedResolver> NamedResolver for NamedResolverChain<A, B> {
    open spec fn lookup(&self, module: Seq<char>, field: Seq<char>) -> Option<Export> {
        first_match(self.front().lookup(module, field), self.back().lookup(module, field))
    }

    fn resolve_by_name(&self, module: &str, field: &str) -> (r: Option<Export>) {
        match self.a.resolve_by_name(module, field) {
            Some(e) => Some(e),
            None => self.b.resolve_by_name(module, field),
        }
    }
}

/// Chaining of named resolvers.
pub trait ChainableNamedResolver: NamedResolver + Sized {
    /// Chains `other` in front of this resolver, so that `other` overrides it.
    fn chain_front<U: NamedResolver>(self, other: U) -> (r: NamedResolverChain<U, Self>)
        ensures
            r == NamedResolverChain::spec_new(other, self),
    {
        NamedResolverChain { a: other, b: self }
    }

    /// Chains `other` behind this resolver, so that this resolver overrides it.
    fn chain_back<U: NamedResolver>(self, other: U) -> (r: NamedResolverChain<Self, U>)
        ensures
            r == NamedResolverChain::spec_new(self, other),
    {
        NamedResolverChain { a: self, b: other }
    }
}

impl<T: NamedResolver> ChainableNamedResolver for T {}

/// Whichever resolver stands in front shadows the other: chaining `a` in
/// front of `b`, or `b` behind `a`, gives a chain that offers `a`'s export
/// wherever `a` has one, and `b`'s export under every name that `a` lacks.
pub proof fn lemma_chain_precedence<A: NamedResolver, B: NamedResolver>(
    a: A,
    b: B,
    module: Seq<char>,
    field: Seq<char>,
)
    ensures
        a.lookup(module, field) is Some ==> NamedResolverChain::spec_new(a, b).lookup(
            module,
            field,
        ) == a.lookup(module, field),
        a.lookup(module, field) is None ==> NamedResolverChain::spec_new(a, b).lookup(
            module,
            field,
        ) == b.lookup(module, field),
{
    NamedResolverChain::lemma_parts(a, b);
}

/// A chain of chains searches its members in one flat order: `(a, b)` before
/// `c` offers the same export as `a` before `(b, c)`, under every name.
pub proof fn lemma_chain_associative<A: NamedResolver, B: NamedResolver, C: NamedResolver>(
    a: A,
    b: B,
    c: C,
    module: Seq<char>,
    field: Seq<char>,
)
    ensures
        NamedResolverChain::spec_new(NamedResolverChain::spec_new(a, b), c).lookup(module, field)
            == NamedResolverChain::spec_new(a, NamedResolverChain::spec_new(b, c)).lookup(
            module,
            field,
        ),
{
    NamedResolverChain::lemma_parts(a, b);
    NamedResolverChain::lemma_parts(b, c);
    NamedResolverChain::lemma_parts(NamedResolverChain::spec_new(a, b), c);
    NamedResolverChain::lemma_parts(a, NamedResolverChain::spec_new(b, c));
}

/// A named resolver ignores the position of an import: every position gets
/// what the names alone would.
pub proof fn lemma_named_ignores_position<T: NamedResolver>(
    r: T,
    i: u32,
    j: u32,
    module: Seq<char>,
    field: Seq<char>,
)
    ensures
        r.resolution(i, module, field) == r.resolution(j, module, field),
        r.resolution(i, module, field) == r.lookup(module, field),
{
}

} // verus!
