//! Tests for the type registry: registration, canonical-name extraction,
//! identifier stability and uniqueness, and the fatal configuration errors.

use rdh::thaumaturgy::RegistryError;
use rdh::thaumaturgy::TypeRegistry;

#[test]
fn register_and_look_up() {
    let mut registry = TypeRegistry::new();
    assert!(registry.register_type("Widget", 11, 1).is_ok());
    assert!(registry.register_type("Gadget", 22, 2).is_ok());

    let widget = registry.type_identifier_of("Widget");
    assert_eq!(widget.type_uuid, 11);
    assert_eq!(widget.library_identifier.uuid, 1);

    let gadget = registry.type_identifier_of("Gadget");
    assert_eq!(gadget.type_uuid, 22);
    assert_eq!(gadget.library_identifier.uuid, 2);

    assert_eq!(registry.library_identifier_of("Widget").uuid, 1);
}

#[test]
fn duplicate_type_name_is_fatal() {
    let mut registry = TypeRegistry::new();
    assert!(registry.register_type("Widget", 11, 1).is_ok());
    let second = registry.register_type("Widget", 33, 1);
    assert_eq!(second, Err(RegistryError::DuplicateTypeName));
    // The registry is unchanged: the first binding still answers.
    assert_eq!(registry.type_identifier_of("Widget").type_uuid, 11);
}

#[test]
fn duplicate_discriminator_is_fatal() {
    let mut registry = TypeRegistry::new();
    assert!(registry.register_type("Widget", 11, 1).is_ok());
    let second = registry.register_type("Gadget", 11, 1);
    assert_eq!(second, Err(RegistryError::DuplicateDiscriminator));
}

#[test]
fn identifier_stable_across_repeated_calls() {
    let mut registry = TypeRegistry::new();
    assert!(registry.register_type("Widget", 11, 1).is_ok());
    let first = registry.type_identifier_of("Widget");
    let second = registry.type_identifier_of("Widget");
    assert_eq!(first, second);
    // Registering further types does not disturb the binding.
    assert!(registry.register_type("Gadget", 22, 2).is_ok());
    assert_eq!(registry.type_identifier_of("Widget"), first);
}

#[test]
fn identifiers_unique_among_registered_types() {
    let mut registry = TypeRegistry::new();
    let (_iui_router, _icb_router) = rdh::extension::init(&mut registry);
    let names = [
        "IConstruct",
        "Construct",
        "IUIElement",
        "UIElement",
        "ICheckbox",
        "Checkbox",
    ];
    for i in 0..names.len() {
        for j in 0..names.len() {
            if i != j {
                assert_ne!(
                    registry.type_identifier_of(names[i]),
                    registry.type_identifier_of(names[j])
                );
            }
        }
    }
}

#[test]
fn get_type_name_bare_identifier() {
    assert_eq!(TypeRegistry::get_type_name("Construct").unwrap(), "Construct");
}

#[test]
fn get_type_name_keeps_module_path() {
    assert_eq!(
        TypeRegistry::get_type_name("rdh::construct::Construct").unwrap(),
        "rdh::construct::Construct"
    );
}

#[test]
fn get_type_name_trims_dyn_prefix() {
    assert_eq!(
        TypeRegistry::get_type_name("dyn rdh::construct::IConstruct").unwrap(),
        "rdh::construct::IConstruct"
    );
}

#[test]
fn get_type_name_trims_generic_wrapper() {
    assert_eq!(
        TypeRegistry::get_type_name("alloc::boxed::Box<dyn rdh::construct::IConstruct>").unwrap(),
        "rdh::construct::IConstruct"
    );
}

#[test]
fn get_type_name_takes_the_last_segment() {
    // Only the rightmost run of name characters survives: a generic
    // parameter hides the type constructor to its left.
    assert_eq!(TypeRegistry::get_type_name("Vec<Construct>").unwrap(), "Construct");
}

#[test]
fn get_type_name_empty_is_absent() {
    assert!(TypeRegistry::get_type_name("").is_none());
}

#[test]
fn get_type_name_without_identifier_chars_is_absent() {
    assert!(TypeRegistry::get_type_name("<<&' >>").is_none());
}

#[test]
fn get_type_name_registers_round_trip() {
    // A registration keyed by an extracted name is found under that name.
    let mut registry = TypeRegistry::new();
    let name = TypeRegistry::get_type_name("dyn demo::IWidget").unwrap();
    assert!(registry.register_type(name.as_str(), 44, 4).is_ok());
    assert_eq!(registry.type_identifier_of("demo::IWidget").type_uuid, 44);
}
