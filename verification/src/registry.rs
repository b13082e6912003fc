//! The import registry: importable items aggregated under namespace/name
//! keys for instantiation.
//!
//! Only the four supported kinds — function, memory, global, table — can be
//! registered; anything else fails before the registry changes.
//! Registering a namespace a second time replaces that namespace's entire
//! item set: last write wins, at namespace granularity.

use crate::errors::RegistrationError;
use crate::types::{FunctionType, GlobalType, MemoryType, TableType};
use vstd::prelude::*;

verus! {

/// The kind of an imported or exported item.
#[derive(Clone, Copy, Debug, PartialEq, Eq, Structural)]
pub enum ExportImportKind {
    Function,
    Memory,
    Global,
    Table,
}

impl ExportImportKind {
    /// The numeric tag under which a kind crosses the host boundary.
    pub open spec fn spec_tag(&self) -> u8 {
        match self {
            ExportImportKind::Function => 1,
            ExportImportKind::Memory => 2,
            ExportImportKind::Global => 3,
            ExportImportKind::Table => 4,
        }
    }

    #[verifier::when_used_as_spec(spec_tag)]
    pub fn tag(&self) -> (r: u8)
        ensures
            r == self.spec_tag(),
    {
        match self {
            ExportImportKind::Function => 1,
            ExportImportKind::Memory => 2,
            ExportImportKind::Global => 3,
            ExportImportKind::Table => 4,
        }
    }

    /// Every kind, in declaration order.
    pub fn iter() -> (r: Vec<ExportImportKind>)
        ensures
            r@ =~= seq![
                ExportImportKind::Function,
                ExportImportKind::Memory,
                ExportImportKind::Global,
                ExportImportKind::Table,
            ],
    {
        let mut v: Vec<ExportImportKind> = Vec::new();
        v.push(ExportImportKind::Function);
        v.push(ExportImportKind::Memory);
        v.push(ExportImportKind::Global);
        v.push(ExportImportKind::Table);
        v
    }
}

/// An item handed over for registration.  The first four variants carry
/// the type descriptor the engine matches against a module's declared
/// imports; the last stands for any other host object, which no registry
/// accepts.
#[derive(Debug)]
pub enum ImportableItem {
    Function(FunctionType),
    Memory(MemoryType),
    Global(GlobalType),
    Table(TableType),
    /// A host object of an unsupported kind, carrying the host's name for
    /// its type.
    Other { kind_name: String },
}

impl ImportableItem {
    /// Whether the registry accepts this item.
    pub open spec fn spec_supported(&self) -> bool {
        !(self is Other)
    }

    #[verifier::when_used_as_spec(spec_supported)]
    pub fn supported(&self) -> (r: bool)
        ensures
            r == self.spec_supported(),
    {
        !matches!(self, ImportableItem::Other { .. })
    }

    /// The kind of a supported item.
    pub open spec fn spec_kind(&self) -> ExportImportKind
        recommends
            self.spec_supported(),
    {
        match self {
            ImportableItem::Function(_) => ExportImportKind::Function,
            ImportableItem::Memory(_) => ExportImportKind::Memory,
            ImportableItem::Global(_) => ExportImportKind::Global,
            ImportableItem::Table(_) => ExportImportKind::Table,
            ImportableItem::Other { .. } => ExportImportKind::Function,
        }
    }
}

/// One named item inside a namespace.
#[derive(Debug)]
pub struct NamedItem {
    /// The item's name inside its namespace.
    pub name: String,

    /// The item itself.
    pub item: ImportableItem,
}

/// One namespace: a name and the items registered under it.
#[derive(Debug)]
pub struct Namespace {
    /// The namespace's name.
    pub name: String,

    /// The items registered under this namespace, in registration order.
    pub items: Vec<NamedItem>,
}

/// The import registry: namespaces in first-registration order, each name
/// appearing once.
#[derive(Debug)]
pub struct ImportObject {
    /// The registered namespaces.
    pub namespaces: Vec<Namespace>,
}

impl ImportObject {
    /// Namespace names are unique.
    pub open spec fn wf(&self) -> bool {
        forall|i: int, j: int|
            0 <= i < j < self.namespaces@.len() ==> (#[trigger] self.namespaces@[i].name@)
                != (#[trigger] self.namespaces@[j].name@)
    }

    /// Whether a namespace of the given name is registered.
    pub open spec fn spec_contains_namespace(&self, name: Seq<char>) -> bool {
        exists|i: int|
            0 <= i < self.namespaces@.len() && (#[trigger] self.namespaces@[i].name@) == name
    }

    /// An empty registry.
    pub fn new() -> (r: ImportObject)
        ensures
            r.wf(),
            r.namespaces@.len() == 0,
    {
        ImportObject { namespaces: Vec::new() }
    }

    /// Checks whether the registry contains a namespace of this name.
    pub fn contains_namespace(&self, namespace_name: &str) -> (r: bool)
        ensures
            r == self.spec_contains_namespace(namespace_name@),
    {
        let wanted: String = namespace_name.to_owned();
        let mut i: usize = 0;
        while i < self.namespaces.len()
            invariant
                i <= self.namespaces@.len(),
                wanted@ == namespace_name@,
                forall|j: int|
                    0 <= j < i ==> (#[trigger] self.namespaces@[j].name@) != namespace_name@,
            decreases self.namespaces@.len() - i,
        {
            if self.namespaces[i].name == wanted {
                return true;
            }
            i = i + 1;
        }
        false
    }

    /// Registers a set of items under a namespace.  Every item must be of
    /// a supported kind, or the registration fails — naming the rejected
    /// kind — and the registry is unchanged.  Registering a name that
    /// already exists replaces that namespace's entire item set.
    pub fn register(&mut self, namespace_name: String, items: Vec<NamedItem>) -> (r: Result<
        (),
        RegistrationError,
    >)
        requires
            old(self).wf(),
        ensures
            final(self).wf(),
            r is Err ==> *final(self) == *old(self),
            r is Ok <==> (forall|p: int|
                0 <= p < items@.len() ==> (#[trigger] items@[p].item).spec_supported()),
            r matches Err(e) ==> (exists|p: int|
                {
                    &&& 0 <= p < items@.len()
                    &&& !(#[trigger] items@[p].item).spec_supported()
                    &&& (forall|q: int| 0 <= q < p ==> (#[trigger] items@[q].item).spec_supported())
                    &&& e == (RegistrationError::UnsupportedKind {
                        kind_name: items@[p].item->kind_name,
                    })
                }),
            r is Ok ==> final(self).spec_contains_namespace(namespace_name@),
            r is Ok ==> (if old(self).spec_contains_namespace(namespace_name@) {
                exists|i: int|
                    {
                        &&& 0 <= i < old(self).namespaces@.len()
                        &&& (#[trigger] old(self).namespaces@[i].name@) == namespace_name@
                        &&& final(self).namespaces@ =~= old(self).namespaces@.update(
                            i,
                            Namespace { name: namespace_name, items },
                        )
                    }
            } else {
                final(self).namespaces@ =~= old(self).namespaces@.push(
                    Namespace { name: namespace_name, items },
                )
            }),
    {
        let mut p: usize = 0;
        while p < items.len()
            invariant
                p <= items@.len(),
                *self == *old(self),
                old(self).wf(),
                forall|q: int| 0 <= q < p ==> (#[trigger] items@[q].item).spec_supported(),
            decreases items@.len() - p,
        {
            match &items[p].item {
                ImportableItem::Other { kind_name } => {
                    return Err(RegistrationError::UnsupportedKind { kind_name: kind_name.clone() });
                },
                _ => {},
            }
            p = p + 1;
        }
        let mut i: usize = 0;
        while i < self.namespaces.len()
            invariant
                i <= self.namespaces@.len(),
                *self == *old(self),
                old(self).wf(),
                forall|q: int| 0 <= q < items@.len() ==> (#[trigger] items@[q].item).spec_supported(),
                forall|j: int|
                    0 <= j < i ==> (#[trigger] self.namespaces@[j].name@) != namespace_name@,
            decreases self.namespaces@.len() - i,
        {
            if self.namespaces[i].name == namespace_name {
                let ghost before = self.namespaces@;
                self.namespaces.set(i, Namespace { name: namespace_name, items });
                proof {
                    assert(self.namespaces@[i as int].name@ == namespace_name@);
                    assert(self.spec_contains_namespace(namespace_name@));
                    assert forall|a: int, b: int|
                        0 <= a < b < self.namespaces@.len() implies (
                        #[trigger] self.namespaces@[a].name@) != (
                        #[trigger] self.namespaces@[b].name@) by {
                        assert(before[a].name@ != before[b].name@);
                    }
                }
                return Ok(());
            }
            i = i + 1;
        }
        let ghost before = self.namespaces@;
        self.namespaces.push(Namespace { name: namespace_name, items });
        proof {
            assert(self.namespaces@[before.len() as int].name@ == namespace_name@);
            assert(self.spec_contains_namespace(namespace_name@));
            assert forall|a: int, b: int|
                0 <= a < b < self.namespaces@.len() implies (#[trigger] self.namespaces@[a].name@)
                    != (#[trigger] self.namespaces@[b].name@) by {
                if b < before.len() {
                    assert(before[a].name@ != before[b].name@);
                } else {
                    assert(self.namespaces@[b].name@ == namespace_name@);
                    assert(before[a].name@ != namespace_name@);
                }
            }
        }
        Ok(())
    }
}

} // verus!
