//! The intermediate representation of one contract, in one of three forms.

use vstd::prelude::*;

use crate::names::NameSet;

verus! {

/// One segment's code as the frontend handed it over, with what it refers to.
#[derive(Debug)]
pub struct CodeObject {
    /// The object identifier (a Yul object name, or an assembly's full path).
    pub identifier: String,
    /// The code text handed to the code generator.
    pub source: String,
    /// Identifiers of contracts that this code may create.
    pub factory_dependencies: NameSet,
    /// Libraries referred to whose addresses are not known yet.
    pub unlinked_libraries: NameSet,
    /// Identifiers of the objects that this code refers to.
    pub dependencies: NameSet,
}

impl CodeObject {
    /// Each of the object's sets holds every identifier once.
    pub open spec fn wf(&self) -> bool {
        &&& self.factory_dependencies.wf()
        &&& self.unlinked_libraries.wf()
        &&& self.dependencies.wf()
    }
}

/// A Yul object tree: the deploy object and its nested runtime object.
#[derive(Debug)]
pub struct Yul {
    /// The deploy object.
    pub object: CodeObject,
    /// The runtime sub-object, where the frontend produced one.
    pub runtime: Option<CodeObject>,
}

/// Legacy EVM assembly: the deploy assembly and the runtime part that it holds.
#[derive(Debug)]
pub struct EVMLA {
    /// The deploy assembly.
    pub assembly: CodeObject,
    /// The runtime part of the assembly, where there is one.
    pub runtime: Option<CodeObject>,
}

/// A textual module of the code generator's own IR.
#[derive(Debug)]
pub struct LLVMIR {
    /// The module path.
    pub path: String,
    /// The module text.
    pub source: String,
}

/// The contract source code.
#[derive(Debug)]
pub enum IR {
    /// The Yul source code.
    Yul(Yul),
    /// The EVM legacy assembly source code.
    EVMLA(EVMLA),
    /// The raw code generator IR.
    LLVMIR(LLVMIR),
}

/// Whether `b` is `a` with, at most, another factory dependency set.
pub open spec fn same_object_but_factory(a: CodeObject, b: CodeObject) -> bool {
    &&& b.identifier == a.identifier
    &&& b.source == a.source
    &&& b.unlinked_libraries == a.unlinked_libraries
    &&& b.dependencies == a.dependencies
}

/// The libraries of an object and of its optional runtime part.
pub open spec fn tree_libraries(object: CodeObject, runtime: Option<CodeObject>) -> Set<Seq<char>> {
    match runtime {
        Some(r) => object.unlinked_libraries@.union(r.unlinked_libraries@),
        None => object.unlinked_libraries@,
    }
}

/// An object and its optional runtime part are well formed.
pub open spec fn tree_wf(object: CodeObject, runtime: Option<CodeObject>) -> bool {
    object.wf() && match runtime {
        Some(r) => r.wf(),
        None => true,
    }
}

/// The libraries of an object tree.
fn libraries_of_tree(object: &CodeObject, runtime: &Option<CodeObject>) -> (r: NameSet)
    requires
        tree_wf(*object, *runtime),
    ensures
        r.wf(),
        r@ == tree_libraries(*object, *runtime),
{
    match runtime {
        Some(r) => object.unlinked_libraries.union(&r.unlinked_libraries),
        None => object.unlinked_libraries.duplicate(),
    }
}

impl IR {
    /// Every set in the representation holds each identifier once.
    pub open spec fn wf(&self) -> bool {
        match self {
            IR::Yul(y) => tree_wf(y.object, y.runtime),
            IR::EVMLA(e) => tree_wf(e.assembly, e.runtime),
            IR::LLVMIR(_) => true,
        }
    }

    /// The factory dependencies that the representation holds.
    pub open spec fn factory_dependencies(&self) -> Set<Seq<char>> {
        match self {
            IR::Yul(y) => y.object.factory_dependencies@,
            IR::EVMLA(e) => e.assembly.factory_dependencies@,
            IR::LLVMIR(_) => Set::empty(),
        }
    }

    /// The libraries referred to anywhere in the representation and not yet linked.
    pub open spec fn unlinked_libraries(&self) -> Set<Seq<char>> {
        match self {
            IR::Yul(y) => tree_libraries(y.object, y.runtime),
            IR::EVMLA(e) => tree_libraries(e.assembly, e.runtime),
            IR::LLVMIR(_) => Set::empty(),
        }
    }

    /// Whether `next` is `self` with, at most, another factory dependency set:
    /// the same form, identifiers, code, libraries, dependencies and runtime part.
    pub open spec fn same_but_factory(&self, next: IR) -> bool {
        match (*self, next) {
            (IR::Yul(a), IR::Yul(b)) => b.runtime == a.runtime && same_object_but_factory(a.object, b.object),
            (IR::EVMLA(a), IR::EVMLA(b)) => b.runtime == a.runtime && same_object_but_factory(a.assembly, b.assembly),
            (IR::LLVMIR(a), IR::LLVMIR(b)) => a == b,
            _ => false,
        }
    }

    /// Drains the list of factory dependencies.
    pub fn drain_factory_dependencies(&mut self) -> (r: NameSet)
        requires
            old(self).wf(),
        ensures
            r.wf(),
            r@ == old(self).factory_dependencies(),
            final(self).wf(),
            final(self).factory_dependencies() == Set::<Seq<char>>::empty(),
            final(self).unlinked_libraries() == old(self).unlinked_libraries(),
            old(self).same_but_factory(*final(self)),
            old(self).factory_dependencies() == Set::<Seq<char>>::empty() ==> *final(self) == *old(self),
    {
        match self {
            IR::Yul(yul) => yul.object.factory_dependencies.drain(),
            IR::EVMLA(evm) => evm.assembly.factory_dependencies.drain(),
            IR::LLVMIR(_) => NameSet::new(),
        }
    }

    /// Get the list of unlinked deployable libraries.
    pub fn get_unlinked_libraries(&self) -> (r: NameSet)
        requires
            self.wf(),
        ensures
            r.wf(),
            r@ == self.unlinked_libraries(),
    {
        match self {
            IR::Yul(inner) => libraries_of_tree(&inner.object, &inner.runtime),
            IR::EVMLA(inner) => libraries_of_tree(&inner.assembly, &inner.runtime),
            IR::LLVMIR(_) => NameSet::new(),
        }
    }
}

impl From<Yul> for IR {
    fn from(inner: Yul) -> IR {
        IR::Yul(inner)
    }
}

impl vstd::std_specs::convert::FromSpecImpl<Yul> for IR {
    open spec fn obeys_from_spec() -> bool {
        true
    }

    open spec fn from_spec(inner: Yul) -> IR {
        IR::Yul(inner)
    }
}

impl From<EVMLA> for IR {
    fn from(inner: EVMLA) -> IR {
        IR::EVMLA(inner)
    }
}

impl vstd::std_specs::convert::FromSpecImpl<EVMLA> for IR {
    open spec fn obeys_from_spec() -> bool {
        true
    }

    open spec fn from_spec(inner: EVMLA) -> IR {
        IR::EVMLA(inner)
    }
}

impl From<LLVMIR> for IR {
    fn from(inner: LLVMIR) -> IR {
        IR::LLVMIR(inner)
    }
}

impl vstd::std_specs::convert::FromSpecImpl<LLVMIR> for IR {
    open spec fn obeys_from_spec() -> bool {
        true
    }

    open spec fn from_spec(inner: LLVMIR) -> IR {
        IR::LLVMIR(inner)
    }
}

} // verus!
