//! The public interface and struct that serve as the root of the type
//! hierarchy. Every concrete type encompasses a `Construct`, directly or
//! through intermediate types, and implements `IConstruct` through it.

use vstd::prelude::*;

use crate::thaumaturgy::ConcreteDivinator;
use crate::thaumaturgy::Divinator;

verus! {

/// The unique identifier for the `IConstruct` interface.
pub const ICONSTRUCT_TYPE_UUID: u128 = 50657587353538260646247596146820191381;

/// The unique identifier for the `Construct` type.
pub const CONSTRUCT_TYPE_UUID: u128 = 276154362193470083307838638451583829221;

/// The implementation of base hierarchy functionality: the root concrete
/// type every other concrete type encompasses.
pub struct Construct {
    /// The object's current name.
    pub name: String,
}

impl Construct {
    /// Creates a new instance of the `Construct` struct.
    pub fn new() -> (construct: Construct)
        ensures
            construct.name@ == "my construct"@,
    {
        Construct { name: "my construct".to_owned() }
    }
}

/// The interface implemented by every member of the hierarchy: the
/// placeholder name property, plus the virtual behavior of
/// [`ConstructVirtuals`] and the identity queries of [`ConcreteDivinator`].
pub trait IConstruct: Sized + ConstructVirtuals + ConcreteDivinator {
    /// The object's current name.
    spec fn spec_name(&self) -> Seq<char>;

    /// Gets the object's name.
    fn get_name(&self) -> (name: &String)
        ensures
            name@ == self.spec_name(),
    ;

    /// Sets the object's name. Renaming never changes what the object is:
    /// its concrete identity, declared interfaces and click handling stay as
    /// they were.
    fn set_name(&mut self, value: &str)
        ensures
            final(self).spec_name() == value@,
            final(self).concrete_name() == old(self).concrete_name(),
            final(self).interface_names() == old(self).interface_names(),
            final(self).click_messages() == old(self).click_messages(),
    ;
}

/// The virtual behavior of the hierarchy root: every concrete type provides
/// its own click handling, layered over the handling of the types it
/// encompasses. The handler reports what it did as a list of messages, base
/// behavior first, for the host program to display.
pub trait ConstructVirtuals: Sized {
    /// The report lines this object's click handling produces.
    spec fn click_messages(&self) -> Seq<Seq<char>>;

    /// Handles click events for this object, according to its concrete type.
    fn on_click(&mut self) -> (messages: Vec<String>)
        ensures
            *final(self) == *old(self),
            messages@.map_values(|m: String| m@) == old(self).click_messages(),
    ;
}

impl ConstructVirtuals for Construct {
    open spec fn click_messages(&self) -> Seq<Seq<char>> {
        seq!["on_click handled by Construct implementation!"@]
    }

    fn on_click(&mut self) -> (messages: Vec<String>) {
        let mut messages: Vec<String> = Vec::new();
        messages.push("on_click handled by Construct implementation!".to_owned());
        proof {
            assert(messages@.map_values(|m: String| m@) =~= old(self).click_messages());
        }
        messages
    }
}

impl IConstruct for Construct {
    open spec fn spec_name(&self) -> Seq<char> {
        self.name@
    }

    fn get_name(&self) -> (name: &String) {
        &self.name
    }

    fn set_name(&mut self, value: &str) {
        self.name = value.to_owned();
    }
}

impl ConcreteDivinator for Construct {
    open spec fn concrete_name(&self) -> Seq<char> {
        "Construct"@
    }

    open spec fn interface_names(&self) -> Seq<Seq<char>> {
        seq!["IConstruct"@]
    }

    fn concrete_name_owned(&self) -> (name: String) {
        "Construct".to_owned()
    }

    fn interface_names_owned(&self) -> (names: Vec<String>) {
        let mut names: Vec<String> = Vec::new();
        names.push("IConstruct".to_owned());
        proof {
            assert(names@.map_values(|n: String| n@) =~= self.interface_names());
        }
        names
    }
}

impl Divinator for Construct {
    open spec fn divined_name(&self) -> Seq<char> {
        "Construct"@
    }

    fn divined_name_owned(&self) -> (name: String) {
        "Construct".to_owned()
    }
}

} // verus!
