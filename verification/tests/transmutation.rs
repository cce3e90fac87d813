//! Tests for upcasting and routed downcasting: upcasts never fail,
//! downcasts succeed exactly when the defining library registered a handler
//! and the concrete type implements the target interface, and absence is an
//! expected outcome, never a crash.

use rdh::checkbox::Checkbox;
use rdh::construct::Construct;
use rdh::extension;
use rdh::handles::ICheckboxRef;
use rdh::handles::IUIElementRef;
use rdh::thaumaturgy::ConcreteDivinator;
use rdh::thaumaturgy::TypeRegistry;
use rdh::transmutation::DowncastHandler;
use rdh::transmutation::DowncastRouter;
use rdh::transmutation::RouterError;
use rdh::ui_element::UIElement;

fn initialized() -> (TypeRegistry, DowncastRouter, DowncastRouter) {
    let mut registry = TypeRegistry::new();
    let (iui_element_downcaster, icheckbox_downcaster) = extension::init(&mut registry);
    (registry, iui_element_downcaster, icheckbox_downcaster)
}

#[test]
fn upcast_never_fails_and_preserves_identity() {
    let (registry, _iui, _icb) = initialized();
    let checkbox = Checkbox::new();
    let checkbox_id = checkbox.concrete_type_identifier(&registry);

    // Widening at every level: no Option anywhere, identity preserved.
    let icheckbox = checkbox.as_icheckbox();
    let iui_element = icheckbox.as_iui_element();
    let iconstruct = iui_element.as_iconstruct();
    assert_eq!(icheckbox.concrete_type_identifier(&registry), checkbox_id);
    assert_eq!(iui_element.concrete_type_identifier(&registry), checkbox_id);
    assert_eq!(iconstruct.concrete_type_identifier(&registry), checkbox_id);
}

#[test]
fn downcast_reaches_the_concrete_types_of_a_registered_library() {
    let (registry, iui_element_downcaster, _icb) = initialized();

    let ui_element = UIElement::new();
    let narrowed = ui_element.as_iconstruct().as_iui_element(&registry, &iui_element_downcaster);
    assert!(narrowed.is_some());

    let checkbox = Checkbox::new();
    let narrowed = checkbox.as_iconstruct().as_iui_element(&registry, &iui_element_downcaster);
    assert!(narrowed.is_some());
}

#[test]
fn downcast_yields_the_same_underlying_object() {
    let (registry, iui_element_downcaster, _icb) = initialized();
    let ui_element = UIElement::new();

    let view = ui_element.as_iconstruct().as_iui_element(&registry, &iui_element_downcaster);
    match view {
        Some(IUIElementRef::UIElement(inner)) => {
            assert!(std::ptr::eq(inner, &ui_element));
        }
        _ => panic!("expected the UI-element view of the same instance"),
    }
}

#[test]
fn downcast_to_an_unimplemented_interface_is_absent() {
    let (registry, iui_element_downcaster, icheckbox_downcaster) = initialized();

    // A root instance implements neither extension interface.
    let construct = Construct::new();
    assert!(construct.as_iconstruct().as_iui_element(&registry, &iui_element_downcaster).is_none());
    assert!(construct.as_iconstruct().as_icheckbox(&registry, &icheckbox_downcaster).is_none());

    // A UI element does not implement the checkbox interface.
    let ui_element = UIElement::new();
    assert!(ui_element.as_iconstruct().as_icheckbox(&registry, &icheckbox_downcaster).is_none());
}

#[test]
fn downcast_without_a_handler_is_absent() {
    let (registry, _iui, _icb) = initialized();
    // A fresh routing table with no handler registered: every request is
    // absent, whatever the concrete type.
    let empty_router = DowncastRouter::new(registry.type_identifier_of("IUIElement"));
    let checkbox = Checkbox::new();
    assert!(checkbox.as_iconstruct().as_iui_element(&registry, &empty_router).is_none());
}

#[test]
fn duplicate_handler_is_fatal() {
    let (registry, _iui, _icb) = initialized();
    let library = registry.library_identifier_of("Checkbox");
    let mut router = DowncastRouter::new(registry.type_identifier_of("ICheckbox"));

    let first = router.register_handler(
        library,
        DowncastHandler::new(vec![registry.type_identifier_of("Checkbox")]),
    );
    assert!(first.is_ok());

    let second = router.register_handler(
        library,
        DowncastHandler::new(vec![registry.type_identifier_of("Checkbox")]),
    );
    assert_eq!(second, Err(RouterError::DuplicateHandler));
}

#[test]
fn downcast_from_an_intermediate_view() {
    let (registry, _iui, icheckbox_downcaster) = initialized();
    let checkbox = Checkbox::new();
    let checkbox_id = checkbox.concrete_type_identifier(&registry);

    // UI-element view of a checkbox narrows onward to the checkbox interface.
    let iui_element = checkbox.as_iui_element();
    let icheckbox = iui_element.as_icheckbox(&registry, &icheckbox_downcaster);
    match icheckbox {
        Some(view) => {
            assert_eq!(view.concrete_type_identifier(&registry), checkbox_id);
            let ICheckboxRef::Checkbox(inner) = view;
            assert!(std::ptr::eq(inner, &checkbox));
        }
        None => panic!("expected the checkbox view"),
    }
}

#[test]
fn root_and_leaf_scenario() {
    // Register a root type and two leaf types, each leaf introducing its own
    // interface and its library registering downcast handlers for them.
    // Given a root-interface handle over a UI-element instance: downcasting
    // to the checkbox interface is absent, downcasting to the UI-element
    // interface reaches the same instance, and the concrete identity answers
    // the same through every view.
    let (registry, iui_element_downcaster, icheckbox_downcaster) = initialized();

    let instance = UIElement::new();
    let root_handle = instance.as_iconstruct();

    assert!(root_handle.as_icheckbox(&registry, &icheckbox_downcaster).is_none());

    let narrowed = root_handle.as_iui_element(&registry, &iui_element_downcaster);
    let view = narrowed.expect("the defining library registered a handler");
    match view {
        IUIElementRef::UIElement(inner) => assert!(std::ptr::eq(inner, &instance)),
        _ => panic!("expected the UI-element variant"),
    }

    let expected = registry.type_identifier_of("UIElement");
    assert_eq!(root_handle.concrete_type_identifier(&registry), expected);
    assert_eq!(view.concrete_type_identifier(&registry), expected);
}
