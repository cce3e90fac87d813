//! Tests for the cast-and-dispatch examples and the placeholder name and
//! click-handling behavior they exercise.

use rdh::checkbox::Checkbox;
use rdh::construct::Construct;
use rdh::construct::ConstructVirtuals;
use rdh::construct::IConstruct;
use rdh::dispatch::dispatch_iconstruct_by_concrete_type;
use rdh::dispatch::dispatch_iconstruct_by_implemented_interface;
use rdh::extension;
use rdh::handles::AnyConstruct;
use rdh::thaumaturgy::TypeRegistry;
use rdh::ui_element::UIElement;

fn initialized_registry() -> TypeRegistry {
    let mut registry = TypeRegistry::new();
    let _routers = extension::init(&mut registry);
    registry
}

const CONSTRUCT_CLICK: &str = "on_click handled by Construct implementation!";
const UI_ELEMENT_CLICK: &str = "on_click handled by UIElement implementation! \"Inheritance\" FTW!";
const CHECKBOX_CLICK: &str = "on_click handled by Checkbox implementation! \"Inheritance\" FTW!";

#[test]
fn click_handling_layers_the_hierarchy() {
    let mut construct = Construct::new();
    assert_eq!(construct.on_click(), vec![CONSTRUCT_CLICK.to_string()]);

    let mut ui_element = UIElement::new();
    assert_eq!(
        ui_element.on_click(),
        vec![CONSTRUCT_CLICK.to_string(), UI_ELEMENT_CLICK.to_string()]
    );

    let mut checkbox = Checkbox::new();
    assert_eq!(
        checkbox.on_click(),
        vec![
            CONSTRUCT_CLICK.to_string(),
            UI_ELEMENT_CLICK.to_string(),
            CHECKBOX_CLICK.to_string()
        ]
    );
}

#[test]
fn name_property_round_trips() {
    let mut construct = Construct::new();
    assert_eq!(construct.get_name(), "my construct");
    construct.set_name("Nifty new name!");
    assert_eq!(construct.get_name(), "Nifty new name!");

    let mut checkbox = Checkbox::new();
    assert_eq!(checkbox.get_name(), "my construct");
    checkbox.set_name("ticked");
    assert_eq!(checkbox.get_name(), "ticked");

    let mut handle = AnyConstruct::UIElement(UIElement::new());
    handle.set_name("abstractly renamed");
    assert_eq!(handle.get_name(), "abstractly renamed");
}

#[test]
fn dispatch_by_concrete_type_picks_the_exact_handler() {
    let registry = initialized_registry();

    let mut handle = AnyConstruct::UIElement(UIElement::new());
    assert_eq!(
        dispatch_iconstruct_by_concrete_type(&mut handle, &registry),
        vec![
            "Processing a UIElement instance!".to_string(),
            CONSTRUCT_CLICK.to_string(),
            UI_ELEMENT_CLICK.to_string()
        ]
    );

    let mut handle = AnyConstruct::Construct(Construct::new());
    assert_eq!(
        dispatch_iconstruct_by_concrete_type(&mut handle, &registry),
        vec![
            "Processing a Construct instance!".to_string(),
            CONSTRUCT_CLICK.to_string()
        ]
    );
}

#[test]
fn dispatch_by_implemented_interface_buckets_by_capability() {
    let registry = initialized_registry();

    // A checkbox is a UI element of some kind: the UI-element bucket runs.
    let mut handle = AnyConstruct::Checkbox(Checkbox::new());
    assert_eq!(
        dispatch_iconstruct_by_implemented_interface(&mut handle, &registry),
        vec![
            "Processing a UIElement instance OF ANY KIND!".to_string(),
            CONSTRUCT_CLICK.to_string(),
            UI_ELEMENT_CLICK.to_string(),
            CHECKBOX_CLICK.to_string()
        ]
    );

    // A bare root instance falls through to the root bucket.
    let mut handle = AnyConstruct::Construct(Construct::new());
    assert_eq!(
        dispatch_iconstruct_by_implemented_interface(&mut handle, &registry),
        vec![
            "Processing a Construct instance OF ANY KIND!".to_string(),
            CONSTRUCT_CLICK.to_string()
        ]
    );
}
