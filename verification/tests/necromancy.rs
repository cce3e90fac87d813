//! Tests for narrowing to concrete types: it succeeds exactly when the
//! exact-type test succeeds, hands back the very same instance, and never
//! casts between related concrete types.

use rdh::checkbox::Checkbox;
use rdh::construct::Construct;
use rdh::construct::IConstruct;
use rdh::extension;
use rdh::handles::AnyConstruct;
use rdh::necromancy::Necromancer;
use rdh::thaumaturgy::ConcreteDivinator;
use rdh::thaumaturgy::TypeRegistry;
use rdh::ui_element::UIElement;

fn initialized_registry() -> TypeRegistry {
    let mut registry = TypeRegistry::new();
    let _routers = extension::init(&mut registry);
    registry
}

#[test]
fn narrow_succeeds_on_the_exact_type() {
    let registry = initialized_registry();
    let handle = AnyConstruct::UIElement(UIElement::new());

    let narrowed: Option<&UIElement> = handle.as_concrete(&registry);
    assert!(narrowed.is_some());
}

#[test]
fn narrow_yields_the_same_instance() {
    let registry = initialized_registry();
    let mut ui_element = UIElement::new();
    ui_element.set_name("the one and only");
    let handle = AnyConstruct::UIElement(ui_element);

    let narrowed: &UIElement = handle.as_concrete(&registry).unwrap();
    assert_eq!(narrowed.get_name(), "the one and only");
    // The borrow refers into the handle itself, not to a copy.
    if let AnyConstruct::UIElement(inner) = &handle {
        assert!(std::ptr::eq(narrowed, inner));
    } else {
        unreachable!();
    }
}

#[test]
fn narrow_fails_on_any_other_type() {
    let registry = initialized_registry();
    let handle = AnyConstruct::UIElement(UIElement::new());

    // Not the exact type: absent, even though a UI element encompasses a
    // Construct and a Checkbox encompasses a UI element.
    let as_construct: Option<&Construct> = handle.as_concrete(&registry);
    assert!(as_construct.is_none());
    let as_checkbox: Option<&Checkbox> = handle.as_concrete(&registry);
    assert!(as_checkbox.is_none());

    let checkbox_handle = AnyConstruct::Checkbox(Checkbox::new());
    let as_ui_element: Option<&UIElement> = checkbox_handle.as_concrete(&registry);
    assert!(as_ui_element.is_none());
}

#[test]
fn unearth_concrete_through_a_view() {
    let registry = initialized_registry();
    let handle = AnyConstruct::Construct(Construct::new());
    let view = handle.as_iconstruct();

    let narrowed: Option<&Construct> = Necromancer::unearth_concrete(view, &registry);
    assert!(narrowed.is_some());
    let missed: Option<&UIElement> = Necromancer::unearth_concrete(view, &registry);
    assert!(missed.is_none());
}

#[test]
fn narrow_mut_edits_the_object_behind_the_handle() {
    let registry = initialized_registry();
    let mut handle = AnyConstruct::Checkbox(Checkbox::new());

    {
        let narrowed: Option<&mut Checkbox> = handle.as_concrete_mut(&registry);
        let checkbox = narrowed.expect("the handle holds exactly a checkbox");
        checkbox.set_name("edited through the narrowed borrow");
    }
    assert_eq!(handle.get_name(), "edited through the narrowed borrow");

    // The guard still applies: a mutable narrowing to any other type misses.
    let missed: Option<&mut UIElement> = handle.as_concrete_mut(&registry);
    assert!(missed.is_none());
    let missed: Option<&mut Construct> = Necromancer::unearth_concrete_mut(&mut handle, &registry);
    assert!(missed.is_none());
}

#[test]
fn narrow_agrees_with_the_exact_type_test() {
    let registry = initialized_registry();
    let handles = [
        AnyConstruct::Construct(Construct::new()),
        AnyConstruct::UIElement(UIElement::new()),
        AnyConstruct::Checkbox(Checkbox::new()),
    ];
    for handle in handles.iter() {
        let construct_id = registry.type_identifier_of("Construct");
        let narrowed: Option<&Construct> = handle.as_concrete(&registry);
        assert_eq!(narrowed.is_some(), handle.is(&registry, construct_id));
    }
}
