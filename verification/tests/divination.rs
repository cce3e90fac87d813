//! Tests for the identity capabilities: per-type identity, per-instance
//! concrete identity, interface membership and the exact-type test, asked
//! through concrete values and through every interface view.

use rdh::checkbox::Checkbox;
use rdh::construct::Construct;
use rdh::extension;
use rdh::thaumaturgy::ConcreteDivinator;
use rdh::thaumaturgy::Divinator;
use rdh::thaumaturgy::TypeRegistry;
use rdh::ui_element::UIElement;

fn initialized_registry() -> TypeRegistry {
    let mut registry = TypeRegistry::new();
    let _routers = extension::init(&mut registry);
    registry
}

#[test]
fn concrete_identifiers() {
    let registry = initialized_registry();

    let construct = Construct::new();
    let construct_id = construct.concrete_type_identifier(&registry);
    assert_eq!(construct_id.type_uuid, 276154362193470083307838638451583829221);
    assert_eq!(construct_id.library_identifier.uuid, 88009063541924297814935272469493149666);
    assert_eq!(
        construct.concrete_library_identifier(&registry).uuid,
        88009063541924297814935272469493149666
    );

    // The answers do not change when the object is viewed abstractly.
    let iconstruct = construct.as_iconstruct();
    assert_eq!(iconstruct.concrete_type_identifier(&registry), construct_id);
    assert_eq!(
        iconstruct.concrete_library_identifier(&registry).uuid,
        88009063541924297814935272469493149666
    );

    let ui_element = UIElement::new();
    let ui_element_id = ui_element.concrete_type_identifier(&registry);
    assert_eq!(ui_element_id.type_uuid, 216176100787323494951291243294143776575);
    assert_eq!(ui_element_id.library_identifier.uuid, 41377672462483076378035019486899738808);

    let iconstruct2 = ui_element.as_iconstruct();
    assert_eq!(iconstruct2.concrete_type_identifier(&registry), ui_element_id);

    let iui_element = ui_element.as_iui_element();
    assert_eq!(iui_element.concrete_type_identifier(&registry), ui_element_id);
    assert_eq!(
        iui_element.concrete_library_identifier(&registry).uuid,
        41377672462483076378035019486899738808
    );
}

#[test]
fn concrete_implements() {
    let registry = initialized_registry();
    let iconstruct_id = registry.type_identifier_of("IConstruct");
    let construct_id = registry.type_identifier_of("Construct");
    let iui_element_id = registry.type_identifier_of("IUIElement");
    let ui_element_id = registry.type_identifier_of("UIElement");
    let icheckbox_id = registry.type_identifier_of("ICheckbox");

    let construct = Construct::new();
    assert!(construct.implements(&registry, iconstruct_id));
    assert!(!construct.implements(&registry, construct_id));
    assert!(!construct.implements(&registry, iui_element_id));
    assert!(!construct.implements(&registry, ui_element_id));

    let iconstruct = construct.as_iconstruct();
    assert!(iconstruct.implements(&registry, iconstruct_id));
    assert!(!iconstruct.implements(&registry, construct_id));
    assert!(!iconstruct.implements(&registry, iui_element_id));
    assert!(!iconstruct.implements(&registry, ui_element_id));

    let ui_element = UIElement::new();
    assert!(ui_element.implements(&registry, iconstruct_id));
    assert!(!ui_element.implements(&registry, construct_id));
    assert!(ui_element.implements(&registry, iui_element_id));
    assert!(!ui_element.implements(&registry, ui_element_id));

    let iconstruct2 = ui_element.as_iconstruct();
    assert!(iconstruct2.implements(&registry, iconstruct_id));
    assert!(!iconstruct2.implements(&registry, construct_id));
    assert!(iconstruct2.implements(&registry, iui_element_id));
    assert!(!iconstruct2.implements(&registry, ui_element_id));

    let iui_element = ui_element.as_iui_element();
    assert!(iui_element.implements(&registry, iconstruct_id));
    assert!(!iui_element.implements(&registry, construct_id));
    assert!(iui_element.implements(&registry, iui_element_id));
    assert!(!iui_element.implements(&registry, ui_element_id));

    let checkbox = Checkbox::new();
    assert!(checkbox.implements(&registry, iconstruct_id));
    assert!(checkbox.implements(&registry, iui_element_id));
    assert!(checkbox.implements(&registry, icheckbox_id));
    assert!(!checkbox.implements(&registry, construct_id));
    assert!(!checkbox.implements(&registry, ui_element_id));
}

#[test]
fn concrete_is() {
    let registry = initialized_registry();
    let iconstruct_id = registry.type_identifier_of("IConstruct");
    let construct_id = registry.type_identifier_of("Construct");
    let iui_element_id = registry.type_identifier_of("IUIElement");
    let ui_element_id = registry.type_identifier_of("UIElement");

    let construct = Construct::new();
    assert!(construct.is(&registry, construct_id));
    assert!(!construct.is(&registry, iconstruct_id));
    assert!(!construct.is(&registry, ui_element_id));
    assert!(!construct.is(&registry, iui_element_id));

    let iconstruct = construct.as_iconstruct();
    assert!(iconstruct.is(&registry, construct_id));
    assert!(!iconstruct.is(&registry, iconstruct_id));
    assert!(!iconstruct.is(&registry, ui_element_id));
    assert!(!iconstruct.is(&registry, iui_element_id));

    let ui_element = UIElement::new();
    assert!(!ui_element.is(&registry, construct_id));
    assert!(!ui_element.is(&registry, iconstruct_id));
    assert!(ui_element.is(&registry, ui_element_id));
    assert!(!ui_element.is(&registry, iui_element_id));

    let iconstruct2 = ui_element.as_iconstruct();
    assert!(!iconstruct2.is(&registry, construct_id));
    assert!(!iconstruct2.is(&registry, iconstruct_id));
    assert!(iconstruct2.is(&registry, ui_element_id));
    assert!(!iconstruct2.is(&registry, iui_element_id));

    let iui_element = ui_element.as_iui_element();
    assert!(!iui_element.is(&registry, construct_id));
    assert!(!iui_element.is(&registry, iconstruct_id));
    assert!(iui_element.is(&registry, ui_element_id));
    assert!(!iui_element.is(&registry, iui_element_id));
}

#[test]
fn divinator_answers_for_the_statically_named_type() {
    let registry = initialized_registry();

    let construct = Construct::new();
    assert_eq!(
        construct.type_identifier(&registry).type_uuid,
        276154362193470083307838638451583829221
    );
    assert_eq!(
        construct.library_identifier(&registry).uuid,
        88009063541924297814935272469493149666
    );

    // Through an interface view the *interface's* identifier answers.
    let iconstruct = construct.as_iconstruct();
    assert_eq!(
        iconstruct.type_identifier(&registry).type_uuid,
        50657587353538260646247596146820191381
    );
    assert_eq!(
        iconstruct.library_identifier(&registry).uuid,
        88009063541924297814935272469493149666
    );

    let ui_element = UIElement::new();
    assert_eq!(
        ui_element.type_identifier(&registry).type_uuid,
        216176100787323494951291243294143776575
    );
    assert_eq!(
        ui_element.library_identifier(&registry).uuid,
        41377672462483076378035019486899738808
    );

    let iconstruct2 = ui_element.as_iconstruct();
    assert_eq!(
        iconstruct2.type_identifier(&registry).type_uuid,
        50657587353538260646247596146820191381
    );
    assert_eq!(
        iconstruct2.library_identifier(&registry).uuid,
        88009063541924297814935272469493149666
    );

    let iui_element = ui_element.as_iui_element();
    assert_eq!(
        iui_element.type_identifier(&registry).type_uuid,
        299721098913151508281319992374550808386
    );
    assert_eq!(
        iui_element.library_identifier(&registry).uuid,
        41377672462483076378035019486899738808
    );

    let checkbox = Checkbox::new();
    let icheckbox = checkbox.as_icheckbox();
    assert_eq!(
        icheckbox.type_identifier(&registry).type_uuid,
        72533741563326067592427286561735479339
    );
}
