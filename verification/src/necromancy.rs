//! Necromancy: narrowing an abstract handle back to the concrete instance
//! underneath it.
//!
//! A narrowing request names a target concrete type and succeeds exactly
//! when the handle's exact-type test accepts that target's identifier. On
//! success the caller receives a borrow of the very instance the handle
//! already refers to — narrowing is a checked variant extraction, never a
//! copy. On failure the result is absent: an expected outcome, not an error.
//!
//! Narrowing does not cast between related concrete types: a handle over a
//! `Checkbox` will not narrow to `UIElement`, even though a checkbox
//! encompasses one. Exact identity and interface membership are deliberately
//! separate questions; for the latter, the transmutation casts apply.

use vstd::prelude::*;

use crate::checkbox::Checkbox;
use crate::construct::Construct;
use crate::handles::AnyConstruct;
use crate::handles::IConstructRef;
use crate::handles::lemma_hierarchy_names_distinct;
use crate::thaumaturgy::ConcreteDivinator;
use crate::thaumaturgy::TypeRegistry;
use crate::thaumaturgy::is_exact_type;
use crate::thaumaturgy::lemma_registered_identifiers_unique;
use crate::ui_element::UIElement;

verus! {

/// The capability of a concrete type to be unearthed from an abstract
/// handle: a checked extraction that hands out the borrowed instance exactly
/// when the handle's underlying concrete type is this type.
pub trait Necromances: Sized {
    /// The canonical name of this concrete type.
    spec fn target_name() -> Seq<char>;

    /// The abstract handle that holds exactly the instance `value` of this
    /// type.
    spec fn wrap(value: Self) -> AnyConstruct;

    /// An owned copy of the target's canonical name.
    fn target_name_owned() -> (name: String)
        ensures
            name@ == Self::target_name(),
    ;

    /// Extracts the borrowed instance when, and only when, the handle's
    /// underlying concrete type is this type.
    fn extract_from<'a>(handle: IConstructRef<'a>) -> (r: Option<&'a Self>)
        ensures
            r is Some <==> handle.spec_value().concrete_name() == Self::target_name(),
            r matches Some(value) ==> handle.spec_value() == Self::wrap(*value),
    ;

    /// Extracts the borrowed instance mutably when, and only when, the
    /// handle's underlying concrete type is this type. Changes made through
    /// the result are changes to the object behind the handle.
    fn extract_from_mut<'a>(handle: &'a mut AnyConstruct) -> (r: Option<&'a mut Self>)
        ensures
            r is Some <==> old(handle).concrete_name() == Self::target_name(),
            r matches Some(value) ==> *old(handle) == Self::wrap(*value)
                && *final(handle) == Self::wrap(*final(value)),
            r is None ==> *final(handle) == *old(handle),
    ;
}

impl Necromances for Construct {
    open spec fn target_name() -> Seq<char> {
        "Construct"@
    }

    open spec fn wrap(value: Construct) -> AnyConstruct {
        AnyConstruct::Construct(value)
    }

    fn target_name_owned() -> (name: String) {
        "Construct".to_owned()
    }

    fn extract_from<'a>(handle: IConstructRef<'a>) -> (r: Option<&'a Construct>) {
        proof {
            lemma_hierarchy_names_distinct();
        }
        match handle {
            IConstructRef::Construct(c) => Some(c),
            _ => None,
        }
    }

    fn extract_from_mut<'a>(handle: &'a mut AnyConstruct) -> (r: Option<&'a mut Construct>) {
        proof {
            lemma_hierarchy_names_distinct();
        }
        match handle {
            AnyConstruct::Construct(c) => Some(c),
            _ => None,
        }
    }
}

impl Necromances for UIElement {
    open spec fn target_name() -> Seq<char> {
        "UIElement"@
    }

    open spec fn wrap(value: UIElement) -> AnyConstruct {
        AnyConstruct::UIElement(value)
    }

    fn target_name_owned() -> (name: String) {
        "UIElement".to_owned()
    }

    fn extract_from<'a>(handle: IConstructRef<'a>) -> (r: Option<&'a UIElement>) {
        proof {
            lemma_hierarchy_names_distinct();
        }
        match handle {
            IConstructRef::UIElement(u) => Some(u),
            _ => None,
        }
    }

    fn extract_from_mut<'a>(handle: &'a mut AnyConstruct) -> (r: Option<&'a mut UIElement>) {
        proof {
            lemma_hierarchy_names_distinct();
        }
        match handle {
            AnyConstruct::UIElement(u) => Some(u),
            _ => None,
        }
    }
}

impl Necromances for Checkbox {
    open spec fn target_name() -> Seq<char> {
        "Checkbox"@
    }

    open spec fn wrap(value: Checkbox) -> AnyConstruct {
        AnyConstruct::Checkbox(value)
    }

    fn target_name_owned() -> (name: String) {
        "Checkbox".to_owned()
    }

    fn extract_from<'a>(handle: IConstructRef<'a>) -> (r: Option<&'a Checkbox>) {
        proof {
            lemma_hierarchy_names_distinct();
        }
        match handle {
            IConstructRef::Checkbox(b) => Some(b),
            _ => None,
        }
    }

    fn extract_from_mut<'a>(handle: &'a mut AnyConstruct) -> (r: Option<&'a mut Checkbox>) {
        proof {
            lemma_hierarchy_names_distinct();
        }
        match handle {
            AnyConstruct::Checkbox(b) => Some(b),
            _ => None,
        }
    }
}

/// The struct through which casts from abstract handles to concrete
/// instances are requested.
pub struct Necromancer {}

impl Necromancer {
    /// Attempts to cast the given abstract handle to the concrete type `U`:
    /// performs the exact-type test against `U`'s registered identifier and,
    /// exactly when it passes, hands out a borrow of the underlying
    /// instance. The test is never skipped — extraction without it would be
    /// unsound in the presence of unrelated types with matching shapes.
    pub fn unearth_concrete<'a, U: Necromances + ConcreteDivinator>(
        handle: IConstructRef<'a>,
        registry: &TypeRegistry,
    ) -> (r: Option<&'a U>)
        requires
            registry.wf(),
            registry.contains_name(handle.spec_value().concrete_name()),
            registry.contains_name(U::target_name()),
        ensures
            r is Some <==> is_exact_type(
                *registry,
                handle.spec_value().concrete_name(),
                registry.id_of(U::target_name()),
            ),
            r matches Some(value) ==> handle.spec_value() == U::wrap(*value),
    {
        let target_name = U::target_name_owned();
        let target = registry.type_identifier_of(target_name.as_str());
        if handle.is(registry, target) {
            proof {
                if handle.spec_value().concrete_name() != U::target_name() {
                    lemma_registered_identifiers_unique(
                        *registry,
                        handle.spec_value().concrete_name(),
                        U::target_name(),
                    );
                }
            }
            U::extract_from(handle)
        } else {
            proof {
                if handle.spec_value().concrete_name() == U::target_name() {
                    assert(registry.id_of(handle.spec_value().concrete_name()) == target);
                }
            }
            None
        }
    }

    /// Attempts to cast the given mutable abstract handle to the concrete
    /// type `U`, under the same exact-type guard as
    /// [`Self::unearth_concrete`]. On success, changes made through the
    /// result are changes to the object behind the handle.
    pub fn unearth_concrete_mut<'a, U: Necromances + ConcreteDivinator>(
        handle: &'a mut AnyConstruct,
        registry: &TypeRegistry,
    ) -> (r: Option<&'a mut U>)
        requires
            registry.wf(),
            registry.contains_name(old(handle).concrete_name()),
            registry.contains_name(U::target_name()),
        ensures
            r is Some <==> is_exact_type(
                *registry,
                old(handle).concrete_name(),
                registry.id_of(U::target_name()),
            ),
            r matches Some(value) ==> *old(handle) == U::wrap(*value)
                && *final(handle) == U::wrap(*final(value)),
            r is None ==> *final(handle) == *old(handle),
    {
        let target_name = U::target_name_owned();
        let target = registry.type_identifier_of(target_name.as_str());
        if handle.is(registry, target) {
            proof {
                if handle.concrete_name() != U::target_name() {
                    lemma_registered_identifiers_unique(
                        *registry,
                        handle.concrete_name(),
                        U::target_name(),
                    );
                }
            }
            U::extract_from_mut(handle)
        } else {
            proof {
                if handle.concrete_name() == U::target_name() {
                    assert(registry.id_of(handle.concrete_name()) == target);
                }
            }
            None
        }
    }
}

impl AnyConstruct {
    /// Attempts to cast this abstract handle to the concrete type `U`,
    /// through [`Necromancer::unearth_concrete`]. Succeeds exactly when the
    /// exact-type test against `U`'s registered identifier passes, and then
    /// hands out a borrow of the underlying instance.
    pub fn as_concrete<'a, U: Necromances + ConcreteDivinator>(
        &'a self,
        registry: &TypeRegistry,
    ) -> (r: Option<&'a U>)
        requires
            registry.wf(),
            registry.contains_name(self.concrete_name()),
            registry.contains_name(U::target_name()),
        ensures
            r is Some <==> is_exact_type(
                *registry,
                self.concrete_name(),
                registry.id_of(U::target_name()),
            ),
            r matches Some(value) ==> *self == U::wrap(*value),
    {
        Necromancer::unearth_concrete::<U>(self.as_iconstruct(), registry)
    }

    /// Attempts to cast this mutable abstract handle to the concrete type
    /// `U`, through [`Necromancer::unearth_concrete_mut`]. On success,
    /// changes made through the result are changes to this handle's object.
    pub fn as_concrete_mut<'a, U: Necromances + ConcreteDivinator>(
        &'a mut self,
        registry: &TypeRegistry,
    ) -> (r: Option<&'a mut U>)
        requires
            registry.wf(),
            registry.contains_name(old(self).concrete_name()),
            registry.contains_name(U::target_name()),
        ensures
            r is Some <==> is_exact_type(
                *registry,
                old(self).concrete_name(),
                registry.id_of(U::target_name()),
            ),
            r matches Some(value) ==> *old(self) == U::wrap(*value)
                && *final(self) == U::wrap(*final(value)),
            r is None ==> *final(self) == *old(self),
    {
        Necromancer::unearth_concrete_mut::<U>(self, registry)
    }
}

} // verus!
