//! Runtime type identity and safe casting for a composable type hierarchy.
//!
//! The crate keeps a registry that maps canonical type names to caller-chosen
//! identifiers, answers per-instance identity queries (exact-type tests and
//! interface-membership tests), and routes downcast requests to the handler
//! registered by the library that defines the handle's concrete type. All
//! shared state is passed explicitly: each caller owns its registry and
//! routing tables, and the single-writer/many-reader discipline is enforced
//! by borrows instead of a process-wide lock.

pub mod checkbox;
pub mod construct;
pub mod dispatch;
pub mod extension;
pub mod handles;
pub mod necromancy;
pub mod thaumaturgy;
pub mod transmutation;
pub mod ui_element;

use vstd::prelude::*;

use crate::construct::CONSTRUCT_TYPE_UUID;
use crate::construct::ICONSTRUCT_TYPE_UUID;
use crate::handles::lemma_hierarchy_names_distinct;
use crate::thaumaturgy::LibraryIdentifier;
use crate::thaumaturgy::TypeIdentifier;
use crate::thaumaturgy::TypeRegistry;

verus! {

/// The unique identifier for the core library, which defines the hierarchy
/// root.
pub const RDH_LIBRARY_UUID: u128 = 88009063541924297814935272469493149666;

/// Initializes the core library: registers the root interface and the root
/// concrete type in the given registry. Every extension library's
/// initialization routine invokes this first, establishing a total order
/// across the library dependency graph. The root names and discriminators
/// must still be free — registering twice is a configuration error, excluded
/// here by precondition.
pub fn init(registry: &mut TypeRegistry)
    requires
        old(registry).wf(),
        !old(registry).contains_name("IConstruct"@),
        !old(registry).contains_name("Construct"@),
        !old(registry).contains_uuid(ICONSTRUCT_TYPE_UUID),
        !old(registry).contains_uuid(CONSTRUCT_TYPE_UUID),
    ensures
        final(registry).wf(),
        final(registry).id_of("IConstruct"@) == (TypeIdentifier {
            type_uuid: ICONSTRUCT_TYPE_UUID,
            library_identifier: LibraryIdentifier { uuid: RDH_LIBRARY_UUID },
        }),
        final(registry).id_of("Construct"@) == (TypeIdentifier {
            type_uuid: CONSTRUCT_TYPE_UUID,
            library_identifier: LibraryIdentifier { uuid: RDH_LIBRARY_UUID },
        }),
        forall|n: Seq<char>|
            final(registry).contains_name(n) <==> (old(registry).contains_name(n) || n
                == "IConstruct"@ || n == "Construct"@),
        forall|u: u128|
            final(registry).contains_uuid(u) <==> (old(registry).contains_uuid(u) || u
                == ICONSTRUCT_TYPE_UUID || u == CONSTRUCT_TYPE_UUID),
        forall|n: Seq<char>|
            n != "IConstruct"@ && n != "Construct"@ ==> final(registry).id_of(n) == old(
                registry,
            ).id_of(n),
{
    proof {
        lemma_hierarchy_names_distinct();
    }
    // Register framework types defined within the core library.
    let _ = registry.register_type("IConstruct", ICONSTRUCT_TYPE_UUID, RDH_LIBRARY_UUID);
    let _ = registry.register_type("Construct", CONSTRUCT_TYPE_UUID, RDH_LIBRARY_UUID);
}

} // verus!
