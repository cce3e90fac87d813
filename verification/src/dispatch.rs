//! Cast-and-dispatch examples: processing abstract handles whose concrete
//! type is unknown at compile time, either by narrowing to a supported
//! concrete type or by bucketing on an implemented interface. The handlers
//! report what they did as message lines, which the host program displays.

use vstd::prelude::*;

use crate::construct::ConstructVirtuals;
use crate::construct::IConstruct;
use crate::handles::AnyConstruct;
use crate::thaumaturgy::ConcreteDivinator;
use crate::thaumaturgy::TypeRegistry;
use crate::thaumaturgy::lemma_registered_identifiers_unique;
use crate::thaumaturgy::names_implement;
use crate::handles::lemma_hierarchy_names_distinct;
use crate::ui_element::IUIElement;

verus! {

/// The report lines of dispatch by concrete type: the chosen handler's
/// banner, then the lines of the click handling it runs. Meaningful for the
/// supported concrete types only.
pub open spec fn dispatch_concrete_messages(handle: AnyConstruct) -> Seq<Seq<char>> {
    match handle {
        AnyConstruct::UIElement(u) => seq!["Processing a UIElement instance!"@]
            + u.click_messages(),
        AnyConstruct::Construct(c) => seq!["Processing a Construct instance!"@]
            + c.click_messages(),
        AnyConstruct::Checkbox(_) => Seq::empty(),
    }
}

/// The report lines of dispatch by implemented interface: the bucket's
/// banner — the UI-element bucket when the concrete type implements the
/// UI-element interface, the root bucket otherwise — then the lines of the
/// click handling it runs.
pub open spec fn dispatch_interface_messages(
    registry: TypeRegistry,
    handle: AnyConstruct,
) -> Seq<Seq<char>> {
    if names_implement(registry, handle.interface_names(), registry.id_of("IUIElement"@)) {
        seq!["Processing a UIElement instance OF ANY KIND!"@] + handle.click_messages()
    } else {
        seq!["Processing a Construct instance OF ANY KIND!"@] + handle.click_messages()
    }
}

/// Processes an abstract handle by discovering its concrete type at run
/// time and dispatching to the handler written for exactly that type. Each
/// supported concrete type has its own handler; a handle of any other
/// concrete type is a programmer error and is excluded by precondition.
pub fn dispatch_iconstruct_by_concrete_type(
    iconstruct: &mut AnyConstruct,
    registry: &TypeRegistry,
) -> (messages: Vec<String>)
    requires
        registry.wf(),
        registry.contains_name("UIElement"@),
        registry.contains_name("Construct"@),
        registry.contains_name(old(iconstruct).concrete_name()),
        (*old(iconstruct)) is UIElement || (*old(iconstruct)) is Construct,
    ensures
        *final(iconstruct) == *old(iconstruct),
        messages@.map_values(|m: String| m@) == dispatch_concrete_messages(*old(iconstruct)),
{
    proof {
        lemma_hierarchy_names_distinct();
    }
    let ui_element_id = registry.type_identifier_of("UIElement");
    let construct_id = registry.type_identifier_of("Construct");
    if iconstruct.is(registry, ui_element_id) {
        match iconstruct.as_concrete_mut::<crate::ui_element::UIElement>(registry) {
            Some(u) => {
                let mut messages: Vec<String> = Vec::new();
                messages.push("Processing a UIElement instance!".to_owned());
                let mut clicks = process_ui_element(u);
                messages.append(&mut clicks);
                proof {
                    assert(messages@.map_values(|m: String| m@) =~= dispatch_concrete_messages(
                        *old(iconstruct),
                    ));
                }
                messages
            },
            None => {
                // Unreachable: the concrete type was positively identified
                // just above, so narrowing to it cannot miss.
                proof {
                    assert(false);
                }
                Vec::new()
            },
        }
    } else if iconstruct.is(registry, construct_id) {
        match iconstruct.as_concrete_mut::<crate::construct::Construct>(registry) {
            Some(c) => {
                let mut messages: Vec<String> = Vec::new();
                messages.push("Processing a Construct instance!".to_owned());
                let mut clicks = process_construct(c);
                messages.append(&mut clicks);
                proof {
                    assert(messages@.map_values(|m: String| m@) =~= dispatch_concrete_messages(
                        *old(iconstruct),
                    ));
                }
                messages
            },
            None => {
                // Unreachable: the concrete type was positively identified
                // just above, so narrowing to it cannot miss.
                proof {
                    assert(false);
                }
                Vec::new()
            },
        }
    } else {
        // Unreachable: the precondition admits the two supported concrete
        // types only, and each passes its own exact-type test above.
        proof {
            assert(false);
        }
        Vec::new()
    }
}

/// Processes an abstract handle by bucketing on the interfaces its concrete
/// type implements: UI elements of any concrete kind take the UI-element
/// path, everything else takes the root path. The order of the membership
/// checks matters — the most specific bucket is asked first.
pub fn dispatch_iconstruct_by_implemented_interface(
    iconstruct: &mut AnyConstruct,
    registry: &TypeRegistry,
) -> (messages: Vec<String>)
    requires
        registry.wf(),
        registry.contains_name("IUIElement"@),
        forall|k: int|
            0 <= k < old(iconstruct).interface_names().len() ==> registry.contains_name(
                #[trigger] old(iconstruct).interface_names()[k],
            ),
    ensures
        *final(iconstruct) == *old(iconstruct),
        messages@.map_values(|m: String| m@) == dispatch_interface_messages(
            *registry,
            *old(iconstruct),
        ),
{
    proof {
        lemma_hierarchy_names_distinct();
    }
    let iui_element_id = registry.type_identifier_of("IUIElement");
    if iconstruct.implements(registry, iui_element_id) {
        proof {
            // Membership in the UI-element interface rules out the bare root
            // variant: its one declared interface is registered under a
            // different identifier.
            if (*iconstruct) is Construct {
                assert(iconstruct.interface_names()[0] == "IConstruct"@);
                lemma_registered_identifiers_unique(*registry, "IConstruct"@, "IUIElement"@);
                let k = choose|k: int|
                    0 <= k < iconstruct.interface_names().len() && registry.id_of(
                        #[trigger] iconstruct.interface_names()[k],
                    ) == iui_element_id;
                assert(iconstruct.interface_names()[k] == "IConstruct"@);
            }
        }
        match iconstruct {
            AnyConstruct::UIElement(u) => process_any_iui_element(u),
            AnyConstruct::Checkbox(b) => process_any_iui_element(b),
            AnyConstruct::Construct(_) => Vec::new(),
        }
    } else {
        // Every hierarchy member implements the root interface: no
        // membership check and no cast are needed before this handler.
        process_any_iconstruct(iconstruct)
    }
}

/// Handler for UI elements of any concrete kind: anything known to
/// implement the UI-element interface qualifies. Runs the object's click
/// handling and reports the bucket banner followed by the lines it
/// produced.
fn process_any_iui_element<T: IUIElement>(ui_element: &mut T) -> (messages: Vec<String>)
    ensures
        *final(ui_element) == *old(ui_element),
        messages@.map_values(|m: String| m@) == seq![
            "Processing a UIElement instance OF ANY KIND!"@,
        ] + old(ui_element).click_messages(),
{
    let mut messages: Vec<String> = Vec::new();
    messages.push("Processing a UIElement instance OF ANY KIND!".to_owned());
    let mut clicks = ui_element.on_click();
    messages.append(&mut clicks);
    proof {
        assert(messages@.map_values(|m: String| m@) =~= seq![
            "Processing a UIElement instance OF ANY KIND!"@,
        ] + old(ui_element).click_messages());
    }
    messages
}

/// Handler for hierarchy members of any concrete kind: every one implements
/// the root interface, so no membership check gates this bucket. Runs the
/// object's click handling and reports the bucket banner followed by the
/// lines it produced.
fn process_any_iconstruct<T: IConstruct>(construct: &mut T) -> (messages: Vec<String>)
    ensures
        *final(construct) == *old(construct),
        messages@.map_values(|m: String| m@) == seq![
            "Processing a Construct instance OF ANY KIND!"@,
        ] + old(construct).click_messages(),
{
    let mut messages: Vec<String> = Vec::new();
    messages.push("Processing a Construct instance OF ANY KIND!".to_owned());
    let mut clicks = construct.on_click();
    messages.append(&mut clicks);
    proof {
        assert(messages@.map_values(|m: String| m@) =~= seq![
            "Processing a Construct instance OF ANY KIND!"@,
        ] + old(construct).click_messages());
    }
    messages
}

/// Handler for handles narrowed to exactly `UIElement`: runs its click
/// handling and reports the lines it produced.
fn process_ui_element(ui_element: &mut crate::ui_element::UIElement) -> (messages: Vec<String>)
    ensures
        *final(ui_element) == *old(ui_element),
        messages@.map_values(|m: String| m@) == old(ui_element).click_messages(),
{
    ui_element.on_click()
}

/// Handler for handles narrowed to exactly `Construct`: runs its click
/// handling and reports the lines it produced.
fn process_construct(construct: &mut crate::construct::Construct) -> (messages: Vec<String>)
    ensures
        *final(construct) == *old(construct),
        messages@.map_values(|m: String| m@) == old(construct).click_messages(),
{
    construct.on_click()
}

} // verus!
