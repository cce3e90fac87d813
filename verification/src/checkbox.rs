//! The public interface and struct for checkboxes: the second extension
//! level of the hierarchy, encompassing `UIElement` and, through it, the
//! root `Construct` type.

use vstd::prelude::*;

use crate::construct::ConstructVirtuals;
use crate::construct::IConstruct;
use crate::thaumaturgy::ConcreteDivinator;
use crate::thaumaturgy::Divinator;
use crate::ui_element::IUIElement;
use crate::ui_element::UIElement;
use crate::ui_element::UIElementVirtuals;

verus! {

/// The unique identifier for the `ICheckbox` interface.
pub const ICHECKBOX_TYPE_UUID: u128 = 72533741563326067592427286561735479339;

/// The unique identifier for the `Checkbox` type.
pub const CHECKBOX_TYPE_UUID: u128 = 20792203623865871595846094854671916392;

/// The implementation of checkbox functionality. Encompasses a `UIElement`
/// instance and layers its own behavior over it.
pub struct Checkbox {
    /// The encompassed UI-element instance.
    pub ui_element: UIElement,
}

impl Checkbox {
    /// Creates a new instance of the `Checkbox` struct.
    pub fn new() -> (checkbox: Checkbox)
        ensures
            checkbox.ui_element.construct.name@ == "my construct"@,
    {
        Checkbox { ui_element: UIElement::new() }
    }
}

/// The interface implemented by all checkboxes. It introduces no methods of
/// its own: holding it grants the capabilities of `IUIElement` and
/// `IConstruct` plus the checkbox virtual behavior.
pub trait ICheckbox: IUIElement + CheckboxVirtuals {

}

/// The virtual behavior introduced at the checkbox level. Empty for now:
/// checkboxes refine only the click handling inherited from the root.
pub trait CheckboxVirtuals {

}

impl ICheckbox for Checkbox {

}

impl CheckboxVirtuals for Checkbox {

}

impl IUIElement for Checkbox {

}

impl UIElementVirtuals for Checkbox {

}

impl ConstructVirtuals for Checkbox {
    open spec fn click_messages(&self) -> Seq<Seq<char>> {
        self.ui_element.click_messages().push(
            "on_click handled by Checkbox implementation! \"Inheritance\" FTW!"@,
        )
    }

    fn on_click(&mut self) -> (messages: Vec<String>) {
        // Carry out base type actions, then layer this level's handling on top.
        let mut messages = self.ui_element.on_click();
        messages.push("on_click handled by Checkbox implementation! \"Inheritance\" FTW!".to_owned());
        proof {
            assert(messages@.map_values(|m: String| m@) =~= old(self).click_messages());
        }
        messages
    }
}

impl IConstruct for Checkbox {
    open spec fn spec_name(&self) -> Seq<char> {
        self.ui_element.construct.name@
    }

    fn get_name(&self) -> (name: &String) {
        &self.ui_element.construct.name
    }

    fn set_name(&mut self, value: &str) {
        self.ui_element.set_name(value);
    }
}

impl ConcreteDivinator for Checkbox {
    open spec fn concrete_name(&self) -> Seq<char> {
        "Checkbox"@
    }

    open spec fn interface_names(&self) -> Seq<Seq<char>> {
        seq!["ICheckbox"@, "IUIElement"@, "IConstruct"@]
    }

    fn concrete_name_owned(&self) -> (name: String) {
        "Checkbox".to_owned()
    }

    fn interface_names_owned(&self) -> (names: Vec<String>) {
        let mut names: Vec<String> = Vec::new();
        names.push("ICheckbox".to_owned());
        names.push("IUIElement".to_owned());
        names.push("IConstruct".to_owned());
        proof {
            assert(names@.map_values(|n: String| n@) =~= self.interface_names());
        }
        names
    }
}

impl Divinator for Checkbox {
    open spec fn divined_name(&self) -> Seq<char> {
        "Checkbox"@
    }

    fn divined_name_owned(&self) -> (name: String) {
        "Checkbox".to_owned()
    }
}

} // verus!
