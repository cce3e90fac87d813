//! The public interface and struct that serve as the root for UI elements:
//! the first extension level of the hierarchy, encompassing the root
//! `Construct` type.

use vstd::prelude::*;

use crate::construct::Construct;
use crate::construct::ConstructVirtuals;
use crate::construct::IConstruct;
use crate::thaumaturgy::ConcreteDivinator;
use crate::thaumaturgy::Divinator;

verus! {

/// The unique identifier for the `IUIElement` interface.
pub const IUI_ELEMENT_TYPE_UUID: u128 = 299721098913151508281319992374550808386;

/// The unique identifier for the `UIElement` type.
pub const UI_ELEMENT_TYPE_UUID: u128 = 216176100787323494951291243294143776575;

/// The implementation of UI-element functionality. Encompasses a
/// `Construct` instance and layers its own behavior over it.
pub struct UIElement {
    /// The encompassed root instance.
    pub construct: Construct,
}

impl UIElement {
    /// Creates a new instance of the `UIElement` struct.
    pub fn new() -> (ui_element: UIElement)
        ensures
            ui_element.construct.name@ == "my construct"@,
    {
        UIElement { construct: Construct::new() }
    }
}

/// The interface implemented by all UI elements. It introduces no methods of
/// its own: holding it grants the capabilities of `IConstruct` plus the
/// UI-element virtual behavior.
pub trait IUIElement: IConstruct + UIElementVirtuals {

}

/// The virtual behavior introduced at the UI-element level. Empty for now:
/// UI elements refine only the click handling inherited from the root.
pub trait UIElementVirtuals {

}

impl IUIElement for UIElement {

}

impl UIElementVirtuals for UIElement {

}

impl ConstructVirtuals for UIElement {
    open spec fn click_messages(&self) -> Seq<Seq<char>> {
        self.construct.click_messages().push(
            "on_click handled by UIElement implementation! \"Inheritance\" FTW!"@,
        )
    }

    fn on_click(&mut self) -> (messages: Vec<String>) {
        // Carry out base type actions, then layer this level's handling on top.
        let mut messages = self.construct.on_click();
        messages.push("on_click handled by UIElement implementation! \"Inheritance\" FTW!".to_owned());
        proof {
            assert(messages@.map_values(|m: String| m@) =~= old(self).click_messages());
        }
        messages
    }
}

impl IConstruct for UIElement {
    open spec fn spec_name(&self) -> Seq<char> {
        self.construct.name@
    }

    fn get_name(&self) -> (name: &String) {
        &self.construct.name
    }

    fn set_name(&mut self, value: &str) {
        self.construct.set_name(value);
    }
}

impl ConcreteDivinator for UIElement {
    open spec fn concrete_name(&self) -> Seq<char> {
        "UIElement"@
    }

    open spec fn interface_names(&self) -> Seq<Seq<char>> {
        seq!["IUIElement"@, "IConstruct"@]
    }

    fn concrete_name_owned(&self) -> (name: String) {
        "UIElement".to_owned()
    }

    fn interface_names_owned(&self) -> (names: Vec<String>) {
        let mut names: Vec<String> = Vec::new();
        names.push("IUIElement".to_owned());
        names.push("IConstruct".to_owned());
        proof {
            assert(names@.map_values(|n: String| n@) =~= self.interface_names());
        }
        names
    }
}

impl Divinator for UIElement {
    open spec fn divined_name(&self) -> Seq<char> {
        "UIElement"@
    }

    fn divined_name_owned(&self) -> (name: String) {
        "UIElement".to_owned()
    }
}

} // verus!
