//! Initialization of the extension library that contributes the UI-element
//! and checkbox types. A library's initialization routine first invokes its
//! ancestor library's routine, then registers its own types, then registers
//! one downcast handler per interface its concrete types help implement —
//! after which previously written code that only knows those interfaces can
//! downcast handles whose concrete type lives here.

use vstd::prelude::*;

use crate::checkbox::CHECKBOX_TYPE_UUID;
use crate::checkbox::ICHECKBOX_TYPE_UUID;
use crate::construct::CONSTRUCT_TYPE_UUID;
use crate::construct::ICONSTRUCT_TYPE_UUID;
use crate::handles::lemma_hierarchy_names_distinct;
use crate::thaumaturgy::LibraryIdentifier;
use crate::thaumaturgy::TypeIdentifier;
use crate::thaumaturgy::TypeRegistry;
use crate::transmutation::DowncastHandler;
use crate::transmutation::DowncastRouter;
use crate::ui_element::IUI_ELEMENT_TYPE_UUID;
use crate::ui_element::UI_ELEMENT_TYPE_UUID;

verus! {

/// The unique identifier for this extension library.
pub const RDH_EXTENSION_UUID: u128 = 41377672462483076378035019486899738808;

/// Initializes the extension library and its ancestors: initializes the
/// core library first, registers the extension's interfaces and concrete
/// types, and builds the downcast routing tables for the interfaces its
/// concrete types introduce — one router for UI-element narrowing, handled
/// for this library's types in the order UI element then checkbox, and one
/// for checkbox narrowing. Every name and discriminator involved must still
/// be free; registering twice is a configuration error, excluded here by
/// precondition.
pub fn init(registry: &mut TypeRegistry) -> (routers: (DowncastRouter, DowncastRouter))
    requires
        old(registry).wf(),
        !old(registry).contains_name("IConstruct"@),
        !old(registry).contains_name("Construct"@),
        !old(registry).contains_name("IUIElement"@),
        !old(registry).contains_name("UIElement"@),
        !old(registry).contains_name("ICheckbox"@),
        !old(registry).contains_name("Checkbox"@),
        !old(registry).contains_uuid(ICONSTRUCT_TYPE_UUID),
        !old(registry).contains_uuid(CONSTRUCT_TYPE_UUID),
        !old(registry).contains_uuid(IUI_ELEMENT_TYPE_UUID),
        !old(registry).contains_uuid(UI_ELEMENT_TYPE_UUID),
        !old(registry).contains_uuid(ICHECKBOX_TYPE_UUID),
        !old(registry).contains_uuid(CHECKBOX_TYPE_UUID),
    ensures
        final(registry).wf(),
        final(registry).id_of("IConstruct"@) == (TypeIdentifier {
            type_uuid: ICONSTRUCT_TYPE_UUID,
            library_identifier: LibraryIdentifier { uuid: crate::RDH_LIBRARY_UUID },
        }),
        final(registry).id_of("Construct"@) == (TypeIdentifier {
            type_uuid: CONSTRUCT_TYPE_UUID,
            library_identifier: LibraryIdentifier { uuid: crate::RDH_LIBRARY_UUID },
        }),
        final(registry).id_of("IUIElement"@) == (TypeIdentifier {
            type_uuid: IUI_ELEMENT_TYPE_UUID,
            library_identifier: LibraryIdentifier { uuid: RDH_EXTENSION_UUID },
        }),
        final(registry).id_of("UIElement"@) == (TypeIdentifier {
            type_uuid: UI_ELEMENT_TYPE_UUID,
            library_identifier: LibraryIdentifier { uuid: RDH_EXTENSION_UUID },
        }),
        final(registry).id_of("ICheckbox"@) == (TypeIdentifier {
            type_uuid: ICHECKBOX_TYPE_UUID,
            library_identifier: LibraryIdentifier { uuid: RDH_EXTENSION_UUID },
        }),
        final(registry).id_of("Checkbox"@) == (TypeIdentifier {
            type_uuid: CHECKBOX_TYPE_UUID,
            library_identifier: LibraryIdentifier { uuid: RDH_EXTENSION_UUID },
        }),
        forall|n: Seq<char>|
            final(registry).contains_name(n) <==> (old(registry).contains_name(n) || n
                == "IConstruct"@ || n == "Construct"@ || n == "IUIElement"@ || n == "UIElement"@
                || n == "ICheckbox"@ || n == "Checkbox"@),
        forall|u: u128|
            final(registry).contains_uuid(u) <==> (old(registry).contains_uuid(u) || u
                == ICONSTRUCT_TYPE_UUID || u == CONSTRUCT_TYPE_UUID || u == IUI_ELEMENT_TYPE_UUID
                || u == UI_ELEMENT_TYPE_UUID || u == ICHECKBOX_TYPE_UUID || u
                == CHECKBOX_TYPE_UUID),
        forall|n: Seq<char>|
            n != "IConstruct"@ && n != "Construct"@ && n != "IUIElement"@ && n != "UIElement"@
                && n != "ICheckbox"@ && n != "Checkbox"@ ==> final(registry).id_of(n) == old(
                registry,
            ).id_of(n),
        routers.0.wf(),
        routers.0.target() == final(registry).id_of("IUIElement"@),
        forall|library: LibraryIdentifier|
            routers.0.has_handler(library) <==> library == (LibraryIdentifier {
                uuid: RDH_EXTENSION_UUID,
            }),
        routers.0.handler_types(LibraryIdentifier { uuid: RDH_EXTENSION_UUID }) == seq![
            final(registry).id_of("UIElement"@),
            final(registry).id_of("Checkbox"@),
        ],
        routers.1.wf(),
        routers.1.target() == final(registry).id_of("ICheckbox"@),
        forall|library: LibraryIdentifier|
            routers.1.has_handler(library) <==> library == (LibraryIdentifier {
                uuid: RDH_EXTENSION_UUID,
            }),
        routers.1.handler_types(LibraryIdentifier { uuid: RDH_EXTENSION_UUID }) == seq![
            final(registry).id_of("Checkbox"@),
        ],
{
    proof {
        lemma_hierarchy_names_distinct();
    }
    // Initialize the core library.
    crate::init(registry);

    // Register new framework types added within this library.
    let _ = registry.register_type("IUIElement", IUI_ELEMENT_TYPE_UUID, RDH_EXTENSION_UUID);
    let _ = registry.register_type("UIElement", UI_ELEMENT_TYPE_UUID, RDH_EXTENSION_UUID);
    let _ = registry.register_type("ICheckbox", ICHECKBOX_TYPE_UUID, RDH_EXTENSION_UUID);
    let _ = registry.register_type("Checkbox", CHECKBOX_TYPE_UUID, RDH_EXTENSION_UUID);

    // Create and register downcast handlers for existing interfaces whose
    // concrete types are defined within this library.
    let ui_element_id = registry.type_identifier_of("UIElement");
    let checkbox_id = registry.type_identifier_of("Checkbox");

    let mut iui_element_downcaster = DowncastRouter::new(
        registry.type_identifier_of("IUIElement"),
    );
    let mut iui_element_types: Vec<TypeIdentifier> = Vec::new();
    iui_element_types.push(ui_element_id);
    iui_element_types.push(checkbox_id);
    proof {
        assert(iui_element_types@ =~= seq![
            registry.id_of("UIElement"@),
            registry.id_of("Checkbox"@),
        ]);
    }
    let _ = iui_element_downcaster.register_handler(
        registry.library_identifier_of("UIElement"),
        DowncastHandler::new(iui_element_types),
    );

    let mut icheckbox_downcaster = DowncastRouter::new(registry.type_identifier_of("ICheckbox"));
    let mut icheckbox_types: Vec<TypeIdentifier> = Vec::new();
    icheckbox_types.push(checkbox_id);
    proof {
        assert(icheckbox_types@ =~= seq![registry.id_of("Checkbox"@)]);
    }
    let _ = icheckbox_downcaster.register_handler(
        registry.library_identifier_of("Checkbox"),
        DowncastHandler::new(icheckbox_types),
    );

    (iui_element_downcaster, icheckbox_downcaster)
}

} // verus!
