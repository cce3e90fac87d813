//! Handles: the closed tagged union that stands for an abstract root-typed
//! object, and the borrowed views that stand for interface-typed handles.
//!
//! The hierarchy is modeled as a closed sum per abstraction level: an owned
//! [`AnyConstruct`] carries any concrete instance, and the `*Ref` views
//! borrow one while recording, in their type, the interface the caller holds
//! it as. Widening a view — an upcast — always succeeds and never allocates;
//! narrowing is a checked variant extraction and lives with the necromancy
//! and transmutation code.

use vstd::prelude::*;

use crate::checkbox::Checkbox;
use crate::construct::Construct;
use crate::construct::ConstructVirtuals;
use crate::construct::IConstruct;
use crate::thaumaturgy::ConcreteDivinator;
use crate::thaumaturgy::Divinator;
use crate::ui_element::UIElement;

verus! {

/// An owned abstract handle to any concrete instance of the hierarchy: the
/// closed union of every concrete type. Plays the role of a root-interface
/// object and answers every root-interface capability by dispatching on the
/// variant.
pub enum AnyConstruct {
    /// The root concrete type.
    Construct(Construct),
    /// The UI-element concrete type.
    UIElement(UIElement),
    /// The checkbox concrete type.
    Checkbox(Checkbox),
}

/// A borrowed handle viewed as the root interface.
#[derive(Clone, Copy)]
pub enum IConstructRef<'a> {
    /// A root instance viewed as the root interface.
    Construct(&'a Construct),
    /// A UI element viewed as the root interface.
    UIElement(&'a UIElement),
    /// A checkbox viewed as the root interface.
    Checkbox(&'a Checkbox),
}

/// A borrowed handle viewed as the UI-element interface: only the concrete
/// types that implement it can stand behind one.
#[derive(Clone, Copy)]
pub enum IUIElementRef<'a> {
    /// A UI element viewed as the UI-element interface.
    UIElement(&'a UIElement),
    /// A checkbox viewed as the UI-element interface.
    Checkbox(&'a Checkbox),
}

/// A borrowed handle viewed as the checkbox interface.
#[derive(Clone, Copy)]
pub enum ICheckboxRef<'a> {
    /// A checkbox viewed as the checkbox interface.
    Checkbox(&'a Checkbox),
}

impl<'a> IConstructRef<'a> {
    /// The underlying concrete value this view borrows.
    pub open spec fn spec_value(self) -> AnyConstruct {
        match self {
            IConstructRef::Construct(c) => AnyConstruct::Construct(*c),
            IConstructRef::UIElement(u) => AnyConstruct::UIElement(*u),
            IConstructRef::Checkbox(b) => AnyConstruct::Checkbox(*b),
        }
    }
}

impl<'a> IUIElementRef<'a> {
    /// The underlying concrete value this view borrows.
    pub open spec fn spec_value(self) -> AnyConstruct {
        match self {
            IUIElementRef::UIElement(u) => AnyConstruct::UIElement(*u),
            IUIElementRef::Checkbox(b) => AnyConstruct::Checkbox(*b),
        }
    }

    /// Upcasts this UI-element view to the root interface. Always succeeds.
    pub fn as_iconstruct(self) -> (r: IConstructRef<'a>)
        ensures
            r.spec_value() == self.spec_value(),
    {
        match self {
            IUIElementRef::UIElement(u) => IConstructRef::UIElement(u),
            IUIElementRef::Checkbox(b) => IConstructRef::Checkbox(b),
        }
    }
}

impl<'a> ICheckboxRef<'a> {
    /// The underlying concrete value this view borrows.
    pub open spec fn spec_value(self) -> AnyConstruct {
        match self {
            ICheckboxRef::Checkbox(b) => AnyConstruct::Checkbox(*b),
        }
    }

    /// Upcasts this checkbox view to the root interface. Always succeeds.
    pub fn as_iconstruct(self) -> (r: IConstructRef<'a>)
        ensures
            r.spec_value() == self.spec_value(),
    {
        match self {
            ICheckboxRef::Checkbox(b) => IConstructRef::Checkbox(b),
        }
    }

    /// Upcasts this checkbox view to the UI-element interface. Always
    /// succeeds.
    pub fn as_iui_element(self) -> (r: IUIElementRef<'a>)
        ensures
            r.spec_value() == self.spec_value(),
    {
        match self {
            ICheckboxRef::Checkbox(b) => IUIElementRef::Checkbox(b),
        }
    }
}

impl AnyConstruct {
    /// Views this owned handle as the root interface. Always succeeds.
    pub fn as_iconstruct<'a>(&'a self) -> (r: IConstructRef<'a>)
        ensures
            r.spec_value() == *self,
    {
        match self {
            AnyConstruct::Construct(c) => IConstructRef::Construct(c),
            AnyConstruct::UIElement(u) => IConstructRef::UIElement(u),
            AnyConstruct::Checkbox(b) => IConstructRef::Checkbox(b),
        }
    }
}

impl Construct {
    /// Upcasts this root instance to the root interface. Always succeeds.
    pub fn as_iconstruct<'a>(&'a self) -> (r: IConstructRef<'a>)
        ensures
            r.spec_value() == (AnyConstruct::Construct(*self)),
    {
        IConstructRef::Construct(self)
    }
}

impl UIElement {
    /// Upcasts this UI element to the root interface. Always succeeds.
    pub fn as_iconstruct<'a>(&'a self) -> (r: IConstructRef<'a>)
        ensures
            r.spec_value() == (AnyConstruct::UIElement(*self)),
    {
        IConstructRef::UIElement(self)
    }

    /// Upcasts this UI element to the UI-element interface. Always succeeds.
    pub fn as_iui_element<'a>(&'a self) -> (r: IUIElementRef<'a>)
        ensures
            r.spec_value() == (AnyConstruct::UIElement(*self)),
    {
        IUIElementRef::UIElement(self)
    }
}

impl Checkbox {
    /// Upcasts this checkbox to the root interface. Always succeeds.
    pub fn as_iconstruct<'a>(&'a self) -> (r: IConstructRef<'a>)
        ensures
            r.spec_value() == (AnyConstruct::Checkbox(*self)),
    {
        IConstructRef::Checkbox(self)
    }

    /// Upcasts this checkbox to the UI-element interface. Always succeeds.
    pub fn as_iui_element<'a>(&'a self) -> (r: IUIElementRef<'a>)
        ensures
            r.spec_value() == (AnyConstruct::Checkbox(*self)),
    {
        IUIElementRef::Checkbox(self)
    }

    /// Upcasts this checkbox to the checkbox interface. Always succeeds.
    pub fn as_icheckbox<'a>(&'a self) -> (r: ICheckboxRef<'a>)
        ensures
            r.spec_value() == (AnyConstruct::Checkbox(*self)),
    {
        ICheckboxRef::Checkbox(self)
    }
}

impl ConcreteDivinator for AnyConstruct {
    open spec fn concrete_name(&self) -> Seq<char> {
        match self {
            AnyConstruct::Construct(c) => c.concrete_name(),
            AnyConstruct::UIElement(u) => u.concrete_name(),
            AnyConstruct::Checkbox(b) => b.concrete_name(),
        }
    }

    open spec fn interface_names(&self) -> Seq<Seq<char>> {
        match self {
            AnyConstruct::Construct(c) => c.interface_names(),
            AnyConstruct::UIElement(u) => u.interface_names(),
            AnyConstruct::Checkbox(b) => b.interface_names(),
        }
    }

    fn concrete_name_owned(&self) -> (name: String) {
        match self {
            AnyConstruct::Construct(c) => c.concrete_name_owned(),
            AnyConstruct::UIElement(u) => u.concrete_name_owned(),
            AnyConstruct::Checkbox(b) => b.concrete_name_owned(),
        }
    }

    fn interface_names_owned(&self) -> (names: Vec<String>) {
        match self {
            AnyConstruct::Construct(c) => c.interface_names_owned(),
            AnyConstruct::UIElement(u) => u.interface_names_owned(),
            AnyConstruct::Checkbox(b) => b.interface_names_owned(),
        }
    }
}

impl<'a> ConcreteDivinator for IConstructRef<'a> {
    open spec fn concrete_name(&self) -> Seq<char> {
        self.spec_value().concrete_name()
    }

    open spec fn interface_names(&self) -> Seq<Seq<char>> {
        self.spec_value().interface_names()
    }

    fn concrete_name_owned(&self) -> (name: String) {
        match self {
            IConstructRef::Construct(c) => c.concrete_name_owned(),
            IConstructRef::UIElement(u) => u.concrete_name_owned(),
            IConstructRef::Checkbox(b) => b.concrete_name_owned(),
        }
    }

    fn interface_names_owned(&self) -> (names: Vec<String>) {
        match self {
            IConstructRef::Construct(c) => c.interface_names_owned(),
            IConstructRef::UIElement(u) => u.interface_names_owned(),
            IConstructRef::Checkbox(b) => b.interface_names_owned(),
        }
    }
}

impl<'a> ConcreteDivinator for IUIElementRef<'a> {
    open spec fn concrete_name(&self) -> Seq<char> {
        self.spec_value().concrete_name()
    }

    open spec fn interface_names(&self) -> Seq<Seq<char>> {
        self.spec_value().interface_names()
    }

    fn concrete_name_owned(&self) -> (name: String) {
        match self {
            IUIElementRef::UIElement(u) => u.concrete_name_owned(),
            IUIElementRef::Checkbox(b) => b.concrete_name_owned(),
        }
    }

    fn interface_names_owned(&self) -> (names: Vec<String>) {
        match self {
            IUIElementRef::UIElement(u) => u.interface_names_owned(),
            IUIElementRef::Checkbox(b) => b.interface_names_owned(),
        }
    }
}

impl<'a> ConcreteDivinator for ICheckboxRef<'a> {
    open spec fn concrete_name(&self) -> Seq<char> {
        self.spec_value().concrete_name()
    }

    open spec fn interface_names(&self) -> Seq<Seq<char>> {
        self.spec_value().interface_names()
    }

    fn concrete_name_owned(&self) -> (name: String) {
        match self {
            ICheckboxRef::Checkbox(b) => b.concrete_name_owned(),
        }
    }

    fn interface_names_owned(&self) -> (names: Vec<String>) {
        match self {
            ICheckboxRef::Checkbox(b) => b.interface_names_owned(),
        }
    }
}

impl Divinator for AnyConstruct {
    open spec fn divined_name(&self) -> Seq<char> {
        "IConstruct"@
    }

    fn divined_name_owned(&self) -> (name: String) {
        "IConstruct".to_owned()
    }
}

impl<'a> Divinator for IConstructRef<'a> {
    open spec fn divined_name(&self) -> Seq<char> {
        "IConstruct"@
    }

    fn divined_name_owned(&self) -> (name: String) {
        "IConstruct".to_owned()
    }
}

impl<'a> Divinator for IUIElementRef<'a> {
    open spec fn divined_name(&self) -> Seq<char> {
        "IUIElement"@
    }

    fn divined_name_owned(&self) -> (name: String) {
        "IUIElement".to_owned()
    }
}

impl<'a> Divinator for ICheckboxRef<'a> {
    open spec fn divined_name(&self) -> Seq<char> {
        "ICheckbox"@
    }

    fn divined_name_owned(&self) -> (name: String) {
        "ICheckbox".to_owned()
    }
}

impl ConstructVirtuals for AnyConstruct {
    open spec fn click_messages(&self) -> Seq<Seq<char>> {
        match self {
            AnyConstruct::Construct(c) => c.click_messages(),
            AnyConstruct::UIElement(u) => u.click_messages(),
            AnyConstruct::Checkbox(b) => b.click_messages(),
        }
    }

    fn on_click(&mut self) -> (messages: Vec<String>) {
        match self {
            AnyConstruct::Construct(c) => c.on_click(),
            AnyConstruct::UIElement(u) => u.on_click(),
            AnyConstruct::Checkbox(b) => b.on_click(),
        }
    }
}

impl IConstruct for AnyConstruct {
    open spec fn spec_name(&self) -> Seq<char> {
        match self {
            AnyConstruct::Construct(c) => c.spec_name(),
            AnyConstruct::UIElement(u) => u.spec_name(),
            AnyConstruct::Checkbox(b) => b.spec_name(),
        }
    }

    fn get_name(&self) -> (name: &String) {
        match self {
            AnyConstruct::Construct(c) => c.get_name(),
            AnyConstruct::UIElement(u) => u.get_name(),
            AnyConstruct::Checkbox(b) => b.get_name(),
        }
    }

    fn set_name(&mut self, value: &str) {
        match self {
            AnyConstruct::Construct(c) => c.set_name(value),
            AnyConstruct::UIElement(u) => u.set_name(value),
            AnyConstruct::Checkbox(b) => b.set_name(value),
        }
    }
}

/// The canonical names of the hierarchy's concrete types and interfaces are
/// pairwise distinct, so registering them under distinct discriminators is
/// well-formed and their identifiers never collide.
pub proof fn lemma_hierarchy_names_distinct()
    ensures
        "Construct"@ != "UIElement"@,
        "Construct"@ != "Checkbox"@,
        "UIElement"@ != "Checkbox"@,
        "IConstruct"@ != "IUIElement"@,
        "IConstruct"@ != "ICheckbox"@,
        "IUIElement"@ != "ICheckbox"@,
        "Construct"@ != "IConstruct"@,
        "Construct"@ != "IUIElement"@,
        "Construct"@ != "ICheckbox"@,
        "UIElement"@ != "IConstruct"@,
        "UIElement"@ != "IUIElement"@,
        "UIElement"@ != "ICheckbox"@,
        "Checkbox"@ != "IConstruct"@,
        "Checkbox"@ != "IUIElement"@,
        "Checkbox"@ != "ICheckbox"@,
{
    reveal_strlit("Construct");
    reveal_strlit("UIElement");
    reveal_strlit("Checkbox");
    reveal_strlit("IConstruct");
    reveal_strlit("IUIElement");
    reveal_strlit("ICheckbox");
    assert("Construct"@.len() == 9);
    assert("UIElement"@.len() == 9);
    assert("Checkbox"@.len() == 8);
    assert("IConstruct"@.len() == 10);
    assert("IUIElement"@.len() == 10);
    assert("ICheckbox"@.len() == 9);
    assert("Construct"@[0] != "UIElement"@[0]);
    assert("Construct"@[0] != "ICheckbox"@[0]);
    assert("UIElement"@[0] != "ICheckbox"@[0]);
    assert("IConstruct"@[1] != "IUIElement"@[1]);
}

} // verus!
