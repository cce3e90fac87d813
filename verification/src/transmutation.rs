//! Transmutation: routed downcasting between interface views.
//!
//! A downcast request names a target interface on a handle typed as some
//! ancestor interface. The caller need not know which library defines the
//! handle's concrete type: a routing table kept per target interface maps
//! the identifier of that library to the handler its library registered,
//! and the handler tries the exact-type test against each of its concrete
//! types, in registration order, narrowing on the first match and widening
//! the result back to the target interface. Two levels of indirection —
//! global by library, then library-local by concrete type — let the
//! hierarchy grow: a library that arrives later registers one handler, and
//! code that only knows the target interface downcasts its handles all the
//! same.
//!
//! Absence of a handler, or a concrete type the target interface does not
//! cover, yields an absent result, never an error. Registering two handlers
//! for the same library is a configuration error, reported at registration
//! time like a registry conflict.

use vstd::prelude::*;

use crate::handles::IConstructRef;
use crate::handles::ICheckboxRef;
use crate::handles::IUIElementRef;
use crate::handles::lemma_hierarchy_names_distinct;
use crate::thaumaturgy::ConcreteDivinator;
use crate::thaumaturgy::LibraryIdentifier;
use crate::thaumaturgy::TypeIdentifier;
use crate::thaumaturgy::TypeRegistry;

verus! {

/// A configuration error detected while registering a downcast handler.
/// Like registry conflicts, these are programmer mistakes made once at
/// startup, and callers are expected to treat them as fatal.
#[derive(Clone, Copy, Debug, PartialEq, Eq, Structural)]
pub enum RouterError {
    /// The library already has a handler for this target interface.
    DuplicateHandler,
}

/// One library's downcast handler for one target interface: the identifiers
/// of the concrete types, defined in that library, that the target interface
/// covers, in the order the library wants them tried.
pub struct DowncastHandler {
    /// The concrete types to try, first match wins.
    pub concrete_types: Vec<TypeIdentifier>,
}

impl DowncastHandler {
    /// The concrete-type identifiers this handler tries, in order.
    pub open spec fn types(self) -> Seq<TypeIdentifier> {
        self.concrete_types@
    }

    /// Creates a handler that tries the given concrete types, in order.
    pub fn new(concrete_types: Vec<TypeIdentifier>) -> (handler: DowncastHandler)
        ensures
            handler.types() == concrete_types@,
    {
        DowncastHandler { concrete_types }
    }
}

/// The routing table for one target interface: a mapping from library
/// identifier to the downcast handler that library registered. Callers own
/// their routers and pass them explicitly, one per downcastable interface.
pub struct DowncastRouter {
    target: TypeIdentifier,
    handlers: Vec<(LibraryIdentifier, DowncastHandler)>,
}

impl DowncastRouter {
    /// The identifier of the target interface this router serves.
    pub closed spec fn target(self) -> TypeIdentifier {
        self.target
    }

    /// The registered handlers, in registration order.
    pub closed spec fn handlers(self) -> Seq<(LibraryIdentifier, DowncastHandler)> {
        self.handlers@
    }

    /// True when the given library has registered a handler.
    pub open spec fn has_handler(self, library: LibraryIdentifier) -> bool {
        exists|i: int| 0 <= i < self.handlers().len() && #[trigger] self.handlers()[i].0 == library
    }

    /// The concrete types tried by the given library's handler (the first
    /// registered, which under `wf` is the only one). Meaningful only when
    /// `has_handler` holds.
    pub open spec fn handler_types(self, library: LibraryIdentifier) -> Seq<TypeIdentifier> {
        Self::lookup(self.handlers(), library)
    }

    /// First-match lookup over a sequence of handler registrations.
    pub open spec fn lookup(
        handlers: Seq<(LibraryIdentifier, DowncastHandler)>,
        library: LibraryIdentifier,
    ) -> Seq<TypeIdentifier>
        decreases handlers.len(),
    {
        if handlers.len() == 0 {
            Seq::empty()
        } else if handlers[0].0 == library {
            handlers[0].1.types()
        } else {
            Self::lookup(handlers.drop_first(), library)
        }
    }

    /// Well-formedness: at most one handler per library. Registration
    /// establishes and preserves it.
    pub open spec fn wf(self) -> bool {
        forall|i: int, j: int|
            0 <= i < self.handlers().len() && 0 <= j < self.handlers().len() && i != j
                ==> (#[trigger] self.handlers()[i]).0 != (#[trigger] self.handlers()[j]).0
    }

    /// Whether a downcast request routes to a listed concrete type: the
    /// defining library has a handler and that handler lists the concrete
    /// type's identifier.
    pub open spec fn spec_routes(
        self,
        library: LibraryIdentifier,
        concrete: TypeIdentifier,
    ) -> bool {
        self.has_handler(library) && self.handler_types(library).contains(concrete)
    }

    /// Creates an empty routing table for the given target interface.
    pub fn new(target: TypeIdentifier) -> (router: DowncastRouter)
        ensures
            router.wf(),
            router.target() == target,
            router.handlers().len() == 0,
            forall|library: LibraryIdentifier| !router.has_handler(library),
    {
        DowncastRouter { target, handlers: Vec::new() }
    }

    /// Registers the given handler to serve downcast requests whose concrete
    /// type is defined in the given library. Registering a second handler
    /// for the same library is a configuration error: the registration is
    /// refused and the table is left unchanged.
    pub fn register_handler(
        &mut self,
        library_identifier: LibraryIdentifier,
        handler: DowncastHandler,
    ) -> (r: Result<(), RouterError>)
        requires
            old(self).wf(),
        ensures
            final(self).wf(),
            final(self).target() == old(self).target(),
            old(self).has_handler(library_identifier) ==> r == Err::<(), RouterError>(
                RouterError::DuplicateHandler,
            ) && *final(self) == *old(self),
            !old(self).has_handler(library_identifier) ==> {
                &&& r == Ok::<(), RouterError>(())
                &&& forall|library: LibraryIdentifier|
                    final(self).has_handler(library) <==> (old(self).has_handler(library)
                        || library == library_identifier)
                &&& final(self).handler_types(library_identifier) == handler.types()
                &&& forall|library: LibraryIdentifier|
                    library != library_identifier ==> final(self).handler_types(library) == old(
                        self,
                    ).handler_types(library)
                &&& final(self).handlers().len() == old(self).handlers().len() + 1
            },
    {
        if self.holds_library(library_identifier) {
            return Err(RouterError::DuplicateHandler);
        }
        let ghost old_router = *self;
        let ghost handler_types = handler.types();
        self.handlers.push((library_identifier, handler));
        proof {
            let oh = old_router.handlers();
            let fh = self.handlers();
            assert(fh == oh.push(fh[oh.len() as int]));
            assert(fh[oh.len() as int].0 == library_identifier);
            assert(fh[oh.len() as int].1.types() == handler_types);
            assert forall|k: int| 0 <= k < oh.len() implies oh[k].0 != library_identifier by {
                if oh[k].0 == library_identifier {
                    assert(old_router.has_handler(library_identifier));
                }
            }
            assert forall|i: int, j: int|
                0 <= i < fh.len() && 0 <= j < fh.len() && i != j implies (#[trigger] fh[i]).0 != (
            #[trigger] fh[j]).0 by {
                if i < oh.len() && j < oh.len() {
                    assert(oh[i] == fh[i] && oh[j] == fh[j]);
                }
            }
            assert forall|library: LibraryIdentifier|
                self.has_handler(library) <==> (old_router.has_handler(library) || library
                    == library_identifier) by {
                if self.has_handler(library) {
                    let i = choose|i: int| 0 <= i < fh.len() && #[trigger] fh[i].0 == library;
                    if i < oh.len() {
                        assert(oh[i].0 == library);
                        assert(old_router.has_handler(library));
                    }
                }
                if old_router.has_handler(library) {
                    let i = choose|i: int| 0 <= i < oh.len() && #[trigger] oh[i].0 == library;
                    assert(fh[i].0 == library);
                    assert(self.has_handler(library));
                }
                if library == library_identifier {
                    assert(fh[oh.len() as int].0 == library);
                    assert(self.has_handler(library));
                }
            }
            lemma_handler_lookup_at_first_match(fh, library_identifier, oh.len() as int);
            assert forall|library: LibraryIdentifier| library != library_identifier implies self
                .handler_types(library) == old_router.handler_types(library) by {
                lemma_handler_lookup_push(oh, fh[oh.len() as int], library);
            }
        }
        Ok(())
    }

    /// Finds the handler registered for the given library, if any.
    pub fn find_handler(&self, library_identifier: LibraryIdentifier) -> (r: Option<
        &DowncastHandler,
    >)
        ensures
            match r {
                Some(handler) => self.has_handler(library_identifier) && handler.types()
                    == self.handler_types(library_identifier),
                None => !self.has_handler(library_identifier),
            },
    {
        let mut i: usize = 0;
        while i < self.handlers.len()
            invariant
                i <= self.handlers@.len(),
                forall|k: int| 0 <= k < i ==> self.handlers@[k].0 != library_identifier,
            decreases self.handlers@.len() - i,
        {
            if self.handlers[i].0 == library_identifier {
                proof {
                    assert(self.handlers()[i as int].0 == library_identifier);
                    lemma_handler_lookup_at_first_match(self.handlers(), library_identifier,
                        i as int);
                }
                return Some(&self.handlers[i].1);
            }
            i += 1;
        }
        None
    }

    /// True when some handler is already registered for the given library.
    fn holds_library(&self, library_identifier: LibraryIdentifier) -> (r: bool)
        ensures
            r == self.has_handler(library_identifier),
    {
        let mut i: usize = 0;
        while i < self.handlers.len()
            invariant
                i <= self.handlers@.len(),
                forall|k: int| 0 <= k < i ==> self.handlers@[k].0 != library_identifier,
            decreases self.handlers@.len() - i,
        {
            if self.handlers[i].0 == library_identifier {
                proof {
                    assert(self.handlers()[i as int].0 == library_identifier);
                }
                return true;
            }
            i += 1;
        }
        false
    }
}

/// First-match lookup returns the registration at the first matching index.
proof fn lemma_handler_lookup_at_first_match(
    handlers: Seq<(LibraryIdentifier, DowncastHandler)>,
    library: LibraryIdentifier,
    i: int,
)
    requires
        0 <= i < handlers.len(),
        handlers[i].0 == library,
        forall|k: int| 0 <= k < i ==> handlers[k].0 != library,
    ensures
        DowncastRouter::lookup(handlers, library) == handlers[i].1.types(),
    decreases i,
{
    if i == 0 {
    } else {
        assert(handlers[0].0 != library);
        lemma_handler_lookup_at_first_match(handlers.drop_first(), library, i - 1);
    }
}

/// Pushing a registration does not disturb the lookup of any other library.
proof fn lemma_handler_lookup_push(
    handlers: Seq<(LibraryIdentifier, DowncastHandler)>,
    pair: (LibraryIdentifier, DowncastHandler),
    library: LibraryIdentifier,
)
    requires
        pair.0 != library,
    ensures
        DowncastRouter::lookup(handlers.push(pair), library) == DowncastRouter::lookup(
            handlers,
            library,
        ),
    decreases handlers.len(),
{
    reveal_with_fuel(DowncastRouter::lookup, 3);
    if handlers.len() == 0 {
        assert(handlers.push(pair)[0] == pair);
        assert(handlers.push(pair).drop_first() =~= Seq::<(
            LibraryIdentifier,
            DowncastHandler,
        )>::empty());
    } else {
        assert(handlers.push(pair)[0] == handlers[0]);
        if handlers[0].0 != library {
            assert(handlers.push(pair).drop_first() =~= handlers.drop_first().push(pair));
            lemma_handler_lookup_push(handlers.drop_first(), pair, library);
        }
    }
}

/// Structural widening of a root-interface view to the UI-element interface:
/// succeeds exactly when the underlying concrete type declares it.
fn to_iui_element<'a>(handle: IConstructRef<'a>) -> (r: Option<IUIElementRef<'a>>)
    ensures
        r is Some <==> handle.spec_value().interface_names().contains("IUIElement"@),
        r matches Some(view) ==> view.spec_value() == handle.spec_value(),
{
    proof {
        lemma_hierarchy_names_distinct();
    }
    match handle {
        IConstructRef::Construct(c) => {
            proof {
                let names = c.interface_names();
                assert forall|k: int| 0 <= k < names.len() implies names[k] != "IUIElement"@ by {
                    assert(names[k] == "IConstruct"@);
                }
            }
            None
        },
        IConstructRef::UIElement(u) => {
            proof {
                assert(u.interface_names()[0] == "IUIElement"@);
            }
            Some(IUIElementRef::UIElement(u))
        },
        IConstructRef::Checkbox(b) => {
            proof {
                assert(b.interface_names()[1] == "IUIElement"@);
            }
            Some(IUIElementRef::Checkbox(b))
        },
    }
}

/// Structural widening of a root-interface view to the checkbox interface:
/// succeeds exactly when the underlying concrete type declares it.
fn to_icheckbox<'a>(handle: IConstructRef<'a>) -> (r: Option<ICheckboxRef<'a>>)
    ensures
        r is Some <==> handle.spec_value().interface_names().contains("ICheckbox"@),
        r matches Some(view) ==> view.spec_value() == handle.spec_value(),
{
    proof {
        lemma_hierarchy_names_distinct();
    }
    match handle {
        IConstructRef::Construct(c) => {
            proof {
                let names = c.interface_names();
                assert forall|k: int| 0 <= k < names.len() implies names[k] != "ICheckbox"@ by {
                    assert(names[k] == "IConstruct"@);
                }
            }
            None
        },
        IConstructRef::UIElement(u) => {
            proof {
                let names = u.interface_names();
                assert forall|k: int| 0 <= k < names.len() implies names[k] != "ICheckbox"@ by {
                    assert(names[k] == "IUIElement"@ || names[k] == "IConstruct"@);
                }
            }
            None
        },
        IConstructRef::Checkbox(b) => {
            proof {
                assert(b.interface_names()[0] == "ICheckbox"@);
            }
            Some(ICheckboxRef::Checkbox(b))
        },
    }
}

impl<'a> IConstructRef<'a> {
    /// Attempts to downcast this root-interface handle to the UI-element
    /// interface, routing the request to whichever handler the library of
    /// the underlying concrete type registered. Succeeds exactly when that
    /// library registered a handler listing the concrete type and the
    /// concrete type implements the target interface; the result then views
    /// the same underlying object. Absence of a handler, or a concrete type
    /// the handler does not list, yields an absent result, never an error.
    pub fn as_iui_element(self, registry: &TypeRegistry, router: &DowncastRouter) -> (r: Option<
        IUIElementRef<'a>,
    >)
        requires
            registry.contains_name(self.spec_value().concrete_name()),
        ensures
            r is Some <==> (router.spec_routes(
                registry.id_of(self.spec_value().concrete_name()).library_identifier,
                registry.id_of(self.spec_value().concrete_name()),
            ) && self.spec_value().interface_names().contains("IUIElement"@)),
            r matches Some(view) ==> view.spec_value() == self.spec_value(),
    {
        let concrete = self.concrete_type_identifier(registry);
        match router.find_handler(concrete.library_identifier) {
            None => None,
            Some(handler) => {
                let ghost library = concrete.library_identifier;
                let mut i: usize = 0;
                while i < handler.concrete_types.len()
                    invariant
                        i <= handler.types().len(),
                        registry.contains_name(self.spec_value().concrete_name()),
                        concrete == registry.id_of(self.spec_value().concrete_name()),
                        library == concrete.library_identifier,
                        router.has_handler(library),
                        handler.types() == router.handler_types(library),
                        forall|k: int| 0 <= k < i ==> handler.types()[k] != concrete,
                    decreases handler.types().len() - i,
                {
                    if self.is(registry, handler.concrete_types[i]) {
                        proof {
                            assert(router.handler_types(library)[i as int] == concrete);
                        }
                        return to_iui_element(self);
                    }
                    i += 1;
                }
                proof {
                    if router.handler_types(library).contains(concrete) {
                        let k = choose|k: int|
                            0 <= k < router.handler_types(library).len()
                                && router.handler_types(library)[k] == concrete;
                        assert(handler.types()[k] != concrete);
                    }
                }
                None
            },
        }
    }

    /// Attempts to downcast this root-interface handle to the checkbox
    /// interface, through the same routing protocol as
    /// [`Self::as_iui_element`].
    pub fn as_icheckbox(self, registry: &TypeRegistry, router: &DowncastRouter) -> (r: Option<
        ICheckboxRef<'a>,
    >)
        requires
            registry.contains_name(self.spec_value().concrete_name()),
        ensures
            r is Some <==> (router.spec_routes(
                registry.id_of(self.spec_value().concrete_name()).library_identifier,
                registry.id_of(self.spec_value().concrete_name()),
            ) && self.spec_value().interface_names().contains("ICheckbox"@)),
            r matches Some(view) ==> view.spec_value() == self.spec_value(),
    {
        let concrete = self.concrete_type_identifier(registry);
        match router.find_handler(concrete.library_identifier) {
            None => None,
            Some(handler) => {
                let ghost library = concrete.library_identifier;
                let mut i: usize = 0;
                while i < handler.concrete_types.len()
                    invariant
                        i <= handler.types().len(),
                        registry.contains_name(self.spec_value().concrete_name()),
                        concrete == registry.id_of(self.spec_value().concrete_name()),
                        library == concrete.library_identifier,
                        router.has_handler(library),
                        handler.types() == router.handler_types(library),
                        forall|k: int| 0 <= k < i ==> handler.types()[k] != concrete,
                    decreases handler.types().len() - i,
                {
                    if self.is(registry, handler.concrete_types[i]) {
                        proof {
                            assert(router.handler_types(library)[i as int] == concrete);
                        }
                        return to_icheckbox(self);
                    }
                    i += 1;
                }
                proof {
                    if router.handler_types(library).contains(concrete) {
                        let k = choose|k: int|
                            0 <= k < router.handler_types(library).len()
                                && router.handler_types(library)[k] == concrete;
                        assert(handler.types()[k] != concrete);
                    }
                }
                None
            },
        }
    }
}

impl<'a> IUIElementRef<'a> {
    /// Attempts to downcast this UI-element handle to the checkbox
    /// interface: widens to the root interface and routes from there.
    pub fn as_icheckbox(self, registry: &TypeRegistry, router: &DowncastRouter) -> (r: Option<
        ICheckboxRef<'a>,
    >)
        requires
            registry.contains_name(self.spec_value().concrete_name()),
        ensures
            r is Some <==> (router.spec_routes(
                registry.id_of(self.spec_value().concrete_name()).library_identifier,
                registry.id_of(self.spec_value().concrete_name()),
            ) && self.spec_value().interface_names().contains("ICheckbox"@)),
            r matches Some(view) ==> view.spec_value() == self.spec_value(),
    {
        self.as_iconstruct().as_icheckbox(registry, router)
    }
}

} // verus!
