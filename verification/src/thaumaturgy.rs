//! Divination: type identifiers and the registry that assigns them.
//!
//! Every type that takes part in the hierarchy — concrete types and the
//! interfaces they implement — is bound, once, to a caller-chosen 128-bit
//! discriminator together with the discriminator of the library that defines
//! it. The registry is the single source of truth for those bindings: it is
//! keyed by canonical type names, a name may be bound at most once, and a
//! discriminator may be bound to at most one name. Binding conflicts are
//! configuration errors reported at registration time; lookups of names that
//! were never bound are programmer errors and are excluded by precondition.

use vstd::prelude::*;

verus! {

/// The unique identifier for a library: an independently built unit that
/// defines one or more types of the hierarchy.
///
/// Instances should be treated as opaque blobs, requested only when needed
/// and passed on blindly. Discriminators are caller-chosen; randomly selected
/// 128-bit values are exceedingly unlikely to conflict.
#[derive(Clone, Copy, Debug, PartialEq, Eq, Structural)]
pub struct LibraryIdentifier {
    pub uuid: u128,
}

/// The identifier of one registered type: its own discriminator plus the
/// identifier of the library that defines it. Equality is field equality;
/// the registry keeps discriminators unique, so distinct registered types
/// compare unequal.
#[derive(Clone, Copy, Debug, PartialEq, Eq, Structural)]
pub struct TypeIdentifier {
    pub type_uuid: u128,
    pub library_identifier: LibraryIdentifier,
}

/// A configuration error detected at registration time. The registry is
/// populated once, at startup; these are programmer mistakes, not runtime
/// conditions to recover from, and callers are expected to treat them as
/// fatal.
#[derive(Clone, Copy, Debug, PartialEq, Eq, Structural)]
pub enum RegistryError {
    /// The name is already bound to an identifier.
    DuplicateTypeName,
    /// The type discriminator is already bound to a different name.
    DuplicateDiscriminator,
}

/// The registry that tracks every type of the hierarchy, keyed by canonical
/// type name. Callers own their registry and pass it explicitly: shared
/// reads borrow it immutably, registration borrows it exclusively.
pub struct TypeRegistry {
    entries: Vec<(String, TypeIdentifier)>,
}

impl TypeRegistry {
    /// The bindings held by the registry, in registration order.
    pub closed spec fn entries(self) -> Seq<(String, TypeIdentifier)> {
        self.entries@
    }

    /// True when the given canonical name is bound.
    pub open spec fn contains_name(self, name: Seq<char>) -> bool {
        exists|i: int| 0 <= i < self.entries().len() && #[trigger] self.entries()[i].0@ == name
    }

    /// True when the given type discriminator is bound to some name.
    pub open spec fn contains_uuid(self, type_uuid: u128) -> bool {
        exists|i: int| 0 <= i < self.entries().len()
            && #[trigger] self.entries()[i].1.type_uuid == type_uuid
    }

    /// The identifier bound to the given canonical name (the first binding,
    /// which under `wf` is the only one). Meaningful only when
    /// `contains_name` holds.
    pub open spec fn id_of(self, name: Seq<char>) -> TypeIdentifier {
        Self::lookup(self.entries(), name)
    }

    /// First-match lookup over a sequence of bindings.
    pub open spec fn lookup(entries: Seq<(String, TypeIdentifier)>, name: Seq<char>) -> TypeIdentifier
        decreases entries.len(),
    {
        if entries.len() == 0 {
            TypeIdentifier { type_uuid: 0, library_identifier: LibraryIdentifier { uuid: 0 } }
        } else if entries[0].0@ == name {
            entries[0].1
        } else {
            Self::lookup(entries.drop_first(), name)
        }
    }

    /// Well-formedness: a name is bound at most once and a discriminator is
    /// bound to at most one name. Registration establishes and preserves it.
    pub open spec fn wf(self) -> bool {
        forall|i: int, j: int|
            0 <= i < self.entries().len() && 0 <= j < self.entries().len() && i != j
                ==> (#[trigger] self.entries()[i]).0@ != (#[trigger] self.entries()[j]).0@
                    && self.entries()[i].1.type_uuid != self.entries()[j].1.type_uuid
    }

    /// Creates an empty registry.
    pub fn new() -> (registry: TypeRegistry)
        ensures
            registry.wf(),
            registry.entries().len() == 0,
            forall|n: Seq<char>| !registry.contains_name(n),
            forall|u: u128| !registry.contains_uuid(u),
    {
        TypeRegistry { entries: Vec::new() }
    }

    /// Binds a canonical type name to the given type discriminator and owning
    /// library. Registering a name twice, or a discriminator under two names,
    /// is a configuration error: the binding is refused, the registry is left
    /// unchanged, and the error says which rule was broken.
    pub fn register_type(&mut self, name: &str, type_uuid: u128, library_uuid: u128) -> (r: Result<
        (),
        RegistryError,
    >)
        requires
            old(self).wf(),
        ensures
            final(self).wf(),
            old(self).contains_name(name@) ==> r == Err::<(), RegistryError>(
                RegistryError::DuplicateTypeName,
            ) && *final(self) == *old(self),
            !old(self).contains_name(name@) && old(self).contains_uuid(type_uuid) ==> r == Err::<
                (),
                RegistryError,
            >(RegistryError::DuplicateDiscriminator) && *final(self) == *old(self),
            !old(self).contains_name(name@) && !old(self).contains_uuid(type_uuid) ==> {
                &&& r == Ok::<(), RegistryError>(())
                &&& forall|n: Seq<char>|
                    final(self).contains_name(n) <==> (old(self).contains_name(n) || n == name@)
                &&& forall|u: u128|
                    final(self).contains_uuid(u) <==> (old(self).contains_uuid(u) || u == type_uuid)
                &&& final(self).id_of(name@) == (TypeIdentifier {
                    type_uuid,
                    library_identifier: LibraryIdentifier { uuid: library_uuid },
                })
                &&& forall|n: Seq<char>|
                    n != name@ ==> final(self).id_of(n) == old(self).id_of(n)
                &&& final(self).entries().len() == old(self).entries().len() + 1
            },
    {
        let name_string: String = name.to_owned();
        if self.find_name_index(&name_string).is_some() {
            return Err(RegistryError::DuplicateTypeName);
        }
        if self.holds_uuid(type_uuid) {
            return Err(RegistryError::DuplicateDiscriminator);
        }
        let identifier = TypeIdentifier {
            type_uuid,
            library_identifier: LibraryIdentifier { uuid: library_uuid },
        };
        let ghost old_reg = *self;
        self.entries.push((name_string, identifier));
        proof {
            let oe = old_reg.entries();
            let fe = self.entries();
            assert(fe == oe.push(fe[oe.len() as int]));
            assert(fe[oe.len() as int].0@ == name@);
            assert(fe[oe.len() as int].1 == identifier);
            assert forall|k: int| 0 <= k < oe.len() implies oe[k].0@ != name@ by {
                if oe[k].0@ == name@ {
                    assert(old_reg.contains_name(name@));
                }
            }
            assert forall|k: int| 0 <= k < oe.len() implies oe[k].1.type_uuid != type_uuid by {
                if oe[k].1.type_uuid == type_uuid {
                    assert(old_reg.contains_uuid(type_uuid));
                }
            }
            assert forall|i: int, j: int|
                0 <= i < fe.len() && 0 <= j < fe.len() && i != j implies (#[trigger] fe[i]).0@ != (
            #[trigger] fe[j]).0@ && fe[i].1.type_uuid != fe[j].1.type_uuid by {
                if i < oe.len() && j < oe.len() {
                    assert(oe[i] == fe[i] && oe[j] == fe[j]);
                }
            }
            assert(self.wf());
            assert forall|n: Seq<char>|
                self.contains_name(n) <==> (old_reg.contains_name(n) || n == name@) by {
                if self.contains_name(n) {
                    let i = choose|i: int| 0 <= i < fe.len() && #[trigger] fe[i].0@ == n;
                    if i < oe.len() {
                        assert(oe[i].0@ == n);
                        assert(old_reg.contains_name(n));
                    }
                }
                if old_reg.contains_name(n) {
                    let i = choose|i: int| 0 <= i < oe.len() && #[trigger] oe[i].0@ == n;
                    assert(fe[i].0@ == n);
                    assert(self.contains_name(n));
                }
                if n == name@ {
                    assert(fe[oe.len() as int].0@ == n);
                    assert(self.contains_name(n));
                }
            }
            assert forall|u: u128|
                self.contains_uuid(u) <==> (old_reg.contains_uuid(u) || u == type_uuid) by {
                if self.contains_uuid(u) {
                    let i = choose|i: int| 0 <= i < fe.len() && #[trigger] fe[i].1.type_uuid == u;
                    if i < oe.len() {
                        assert(oe[i].1.type_uuid == u);
                        assert(old_reg.contains_uuid(u));
                    }
                }
                if old_reg.contains_uuid(u) {
                    let i = choose|i: int| 0 <= i < oe.len() && #[trigger] oe[i].1.type_uuid == u;
                    assert(fe[i].1.type_uuid == u);
                    assert(self.contains_uuid(u));
                }
                if u == type_uuid {
                    assert(fe[oe.len() as int].1.type_uuid == u);
                    assert(self.contains_uuid(u));
                }
            }
            lemma_lookup_at_first_match(fe, name@, oe.len() as int);
            assert forall|n: Seq<char>| n != name@ implies self.id_of(n) == old_reg.id_of(n) by {
                lemma_lookup_push(oe, fe[oe.len() as int], n);
            }
        }
        Ok(())
    }

    /// Retrieves the identifier bound to the given canonical type name.
    /// Looking up a name that was never registered is a programmer error and
    /// is excluded by precondition.
    pub fn type_identifier_of(&self, name: &str) -> (r: TypeIdentifier)
        requires
            self.contains_name(name@),
        ensures
            r == self.id_of(name@),
    {
        let name_string: String = name.to_owned();
        let index = self.find_name_index(&name_string);
        match index {
            Some(i) => {
                proof {
                    lemma_lookup_at_first_match(self.entries@, name@, i as int);
                }
                self.entries[i].1
            },
            None => {
                proof {
                    assert(false);
                }
                TypeIdentifier { type_uuid: 0, library_identifier: LibraryIdentifier { uuid: 0 } }
            },
        }
    }

    /// Retrieves the identifier of the library that defines the type bound to
    /// the given canonical name. Convenience derived from `type_identifier_of`.
    pub fn library_identifier_of(&self, name: &str) -> (r: LibraryIdentifier)
        requires
            self.contains_name(name@),
        ensures
            r == self.id_of(name@).library_identifier,
    {
        self.type_identifier_of(name).library_identifier
    }

    /// Finds the first entry bound to the given name, if any.
    fn find_name_index(&self, name: &String) -> (r: Option<usize>)
        ensures
            match r {
                Some(i) => 0 <= i < self.entries().len() && self.entries()[i as int].0@ == name@
                    && forall|k: int| 0 <= k < i ==> self.entries()[k].0@ != name@,
                None => !self.contains_name(name@),
            },
    {
        let mut i: usize = 0;
        while i < self.entries.len()
            invariant
                i <= self.entries@.len(),
                forall|k: int| 0 <= k < i ==> self.entries@[k].0@ != name@,
            decreases self.entries@.len() - i,
        {
            if self.entries[i].0 == *name {
                return Some(i);
            }
            i += 1;
        }
        None
    }

    /// True when some entry is already bound to the given discriminator.
    fn holds_uuid(&self, type_uuid: u128) -> (r: bool)
        ensures
            r == self.contains_uuid(type_uuid),
    {
        let mut i: usize = 0;
        while i < self.entries.len()
            invariant
                i <= self.entries@.len(),
                forall|k: int| 0 <= k < i ==> self.entries@[k].1.type_uuid != type_uuid,
            decreases self.entries@.len() - i,
        {
            if self.entries[i].1.type_uuid == type_uuid {
                proof {
                    assert(self.entries()[i as int].1.type_uuid == type_uuid);
                }
                return true;
            }
            i += 1;
        }
        false
    }
}

/// True for the characters that may appear in a bare type identifier:
/// ASCII letters, digits and underscore.
pub open spec fn is_ident_char(c: char) -> bool {
    ('A' as u32 <= c as u32 && c as u32 <= 'Z' as u32) || ('a' as u32 <= c as u32 && c as u32
        <= 'z' as u32) || ('0' as u32 <= c as u32 && c as u32 <= '9' as u32) || c == '_'
}

/// True for the characters that may appear inside a module-qualified type
/// name segment: identifier characters and the path separator colon.
pub open spec fn is_segment_char(c: char) -> bool {
    is_ident_char(c) || c == ':'
}

/// One past the index of the last identifier character of `s`, or `0` when
/// `s` holds no identifier character at all.
pub open spec fn ident_end(s: Seq<char>) -> int
    decreases s.len(),
{
    if s.len() == 0 {
        0
    } else if is_ident_char(s.last()) {
        s.len() as int
    } else {
        ident_end(s.drop_last())
    }
}

/// The start of the maximal run of segment characters that ends at `end`:
/// one past the index of the last non-segment character before `end`, or `0`
/// when every character before `end` is a segment character.
pub open spec fn segment_start(s: Seq<char>, end: int) -> int
    decreases end,
{
    if end <= 0 {
        0
    } else if !is_segment_char(s[end - 1]) {
        end
    } else {
        segment_start(s, end - 1)
    }
}

/// The canonical type name carried by a raw type-name string: the last
/// segment of identifier and path-separator characters, trimmed of any
/// trailing non-identifier noise (generic brackets, spaces, punctuation).
/// Meaningful only when the string holds an identifier character.
pub open spec fn canonical_type_name(s: Seq<char>) -> Seq<char> {
    s.subrange(segment_start(s, ident_end(s)), ident_end(s))
}

/// `ident_end` is pinned down by its characterization: everything at or after
/// it is a non-identifier character and, when positive, the character just
/// before it is an identifier character.
proof fn lemma_ident_end_unique(s: Seq<char>, e: int)
    requires
        0 <= e <= s.len(),
        e > 0 ==> is_ident_char(s[e - 1]),
        forall|k: int| e <= k < s.len() ==> !is_ident_char(#[trigger] s[k]),
    ensures
        ident_end(s) == e,
    decreases s.len(),
{
    if s.len() == 0 {
    } else if is_ident_char(s.last()) {
        assert(e == s.len());
    } else {
        assert(e < s.len());
        lemma_ident_end_unique(s.drop_last(), e);
    }
}

/// `segment_start` is pinned down by its characterization: everything from
/// it up to `end` is a segment character and, when positive, the character
/// just before it is not.
proof fn lemma_segment_start_unique(s: Seq<char>, end: int, start: int)
    requires
        0 <= start <= end <= s.len(),
        start > 0 ==> !is_segment_char(s[start - 1]),
        forall|k: int| start <= k < end ==> is_segment_char(#[trigger] s[k]),
    ensures
        segment_start(s, end) == start,
    decreases end,
{
    if end <= 0 {
    } else if !is_segment_char(s[end - 1]) {
        assert(start == end);
    } else {
        assert(start < end);
        lemma_segment_start_unique(s, end - 1, start);
    }
}

/// Executable test for `is_ident_char`.
fn char_is_ident(c: char) -> (r: bool)
    ensures
        r == is_ident_char(c),
{
    let u = c as u32;
    ('A' as u32 <= u && u <= 'Z' as u32) || ('a' as u32 <= u && u <= 'z' as u32) || ('0' as u32 <= u
        && u <= '9' as u32) || c == '_'
}

/// Executable test for `is_segment_char`.
fn char_is_segment(c: char) -> (r: bool)
    ensures
        r == is_segment_char(c),
{
    char_is_ident(c) || c == ':'
}

impl TypeRegistry {
    /// Extracts the canonical type name from a raw type-name string, as
    /// produced by the host language's type-naming facility: the bare
    /// identifier segment (module qualifiers kept, since the path separator
    /// is a segment character), trimmed of generic brackets and any other
    /// surrounding noise. Every identity and cast registration is keyed by a
    /// name prepared this way. Yields nothing when the string is empty or
    /// holds no identifier character at all — a misconfiguration the caller
    /// treats as fatal.
    pub fn get_type_name(rust_type_name: &str) -> (r: Option<String>)
        ensures
            r is Some <==> ident_end(rust_type_name@) > 0,
            r matches Some(name) ==> name@ == canonical_type_name(rust_type_name@),
    {
        let n = rust_type_name.unicode_len();
        if n == 0 {
            return None;
        }
        // Scan from the end for the last identifier character; everything
        // after it is trailing noise.
        let mut end: usize = n;
        let mut found_ident = false;
        while !found_ident && end > 0
            invariant
                end <= n,
                n == rust_type_name@.len(),
                found_ident ==> end > 0 && is_ident_char(rust_type_name@[end - 1]),
                forall|k: int| end <= k < n ==> !is_ident_char(#[trigger] rust_type_name@[k]),
            decreases end + if found_ident {
                0int
            } else {
                1int
            },
        {
            if char_is_ident(rust_type_name.get_char(end - 1)) {
                found_ident = true;
            } else {
                end -= 1;
            }
        }
        proof {
            lemma_ident_end_unique(rust_type_name@, end as int);
        }
        if end == 0 {
            return None;
        }
        // Scan left from there over identifier and path-separator characters;
        // the first other character bounds the segment.
        let mut start: usize = end;
        let mut found_break = false;
        while !found_break && start > 0
            invariant
                start <= end,
                end <= n,
                n == rust_type_name@.len(),
                found_break ==> start > 0 && !is_segment_char(rust_type_name@[start - 1]),
                forall|k: int| start <= k < end ==> is_segment_char(#[trigger] rust_type_name@[k]),
            decreases start + if found_break {
                0int
            } else {
                1int
            },
        {
            if char_is_segment(rust_type_name.get_char(start - 1)) {
                start -= 1;
            } else {
                found_break = true;
            }
        }
        proof {
            lemma_segment_start_unique(rust_type_name@, end as int, start as int);
        }
        let segment = rust_type_name.substring_char(start, end);
        Some(segment.to_owned())
    }
}

/// First-match lookup returns the binding at the first matching index.
proof fn lemma_lookup_at_first_match(
    entries: Seq<(String, TypeIdentifier)>,
    name: Seq<char>,
    i: int,
)
    requires
        0 <= i < entries.len(),
        entries[i].0@ == name,
        forall|k: int| 0 <= k < i ==> entries[k].0@ != name,
    ensures
        TypeRegistry::lookup(entries, name) == entries[i].1,
    decreases i,
{
    if i == 0 {
    } else {
        assert(entries[0].0@ != name);
        lemma_lookup_at_first_match(entries.drop_first(), name, i - 1);
    }
}

/// Pushing a binding does not disturb the lookup of any name bound before it,
/// and binds its own name when that name was free.
proof fn lemma_lookup_push(
    entries: Seq<(String, TypeIdentifier)>,
    pair: (String, TypeIdentifier),
    name: Seq<char>,
)
    requires
        pair.0@ != name,
    ensures
        TypeRegistry::lookup(entries.push(pair), name) == TypeRegistry::lookup(entries, name),
    decreases entries.len(),
{
    reveal_with_fuel(TypeRegistry::lookup, 3);
    if entries.len() == 0 {
        assert(entries.push(pair)[0] == pair);
        assert(entries.push(pair).drop_first() =~= Seq::<(String, TypeIdentifier)>::empty());
    } else {
        assert(entries.push(pair)[0] == entries[0]);
        if entries[0].0@ != name {
            assert(entries.push(pair).drop_first() =~= entries.drop_first().push(pair));
            lemma_lookup_push(entries.drop_first(), pair, name);
        }
    }
}

/// What the exact-type test answers: whether `test_type` is exactly the
/// identifier registered for the concrete type named `concrete_name`.
pub open spec fn is_exact_type(
    registry: TypeRegistry,
    concrete_name: Seq<char>,
    test_type: TypeIdentifier,
) -> bool {
    registry.id_of(concrete_name) == test_type
}

/// What the interface-membership test answers: whether `interface_type` is
/// the identifier registered for one of the names in `interface_names`.
pub open spec fn names_implement(
    registry: TypeRegistry,
    interface_names: Seq<Seq<char>>,
    interface_type: TypeIdentifier,
) -> bool {
    exists|k: int|
        0 <= k < interface_names.len() && registry.id_of(#[trigger] interface_names[k])
            == interface_type
}

/// The capability through which a type's identifier and the identifier of
/// the library in which it was defined can be retrieved.
///
/// The answer is about the *statically named* type through which the
/// capability is invoked: asking an interface-typed handle yields the
/// interface's identifier, not the identifier of the concrete type
/// underneath. For the latter, see [`ConcreteDivinator`].
pub trait Divinator {
    /// The canonical name of the statically named type this value is viewed
    /// as.
    spec fn divined_name(&self) -> Seq<char>;

    /// An owned copy of that name, used to key registry lookups.
    fn divined_name_owned(&self) -> (name: String)
        ensures
            name@ == self.divined_name(),
    ;

    /// Retrieves the type identifier for the statically named type.
    fn type_identifier(&self, registry: &TypeRegistry) -> (r: TypeIdentifier)
        requires
            registry.contains_name(self.divined_name()),
        ensures
            r == registry.id_of(self.divined_name()),
    {
        let name = self.divined_name_owned();
        registry.type_identifier_of(name.as_str())
    }

    /// Retrieves the identifier of the library in which the statically named
    /// type was defined.
    fn library_identifier(&self, registry: &TypeRegistry) -> (r: LibraryIdentifier)
        requires
            registry.contains_name(self.divined_name()),
        ensures
            r == registry.id_of(self.divined_name()).library_identifier,
    {
        let name = self.divined_name_owned();
        registry.library_identifier_of(name.as_str())
    }
}

/// The capability that exposes information about underlying concrete types
/// and the interfaces they implement, independent of which interface view of
/// the object the caller currently holds.
pub trait ConcreteDivinator {
    /// The canonical name of the object's concrete type, regardless of the
    /// view it is addressed through.
    spec fn concrete_name(&self) -> Seq<char>;

    /// The canonical names of the interfaces the concrete type declares: its
    /// introducing interface plus every ancestor interface reachable through
    /// composition, fixed at definition time.
    spec fn interface_names(&self) -> Seq<Seq<char>>;

    /// An owned copy of the concrete type's canonical name.
    fn concrete_name_owned(&self) -> (name: String)
        ensures
            name@ == self.concrete_name(),
    ;

    /// Owned copies of the declared interface names, in declaration order.
    fn interface_names_owned(&self) -> (names: Vec<String>)
        ensures
            names@.map_values(|n: String| n@) == self.interface_names(),
    ;

    /// Retrieves the identifier of the object's concrete type, regardless of
    /// which interface view the caller is holding.
    fn concrete_type_identifier(&self, registry: &TypeRegistry) -> (r: TypeIdentifier)
        requires
            registry.contains_name(self.concrete_name()),
        ensures
            r == registry.id_of(self.concrete_name()),
    {
        let name = self.concrete_name_owned();
        registry.type_identifier_of(name.as_str())
    }

    /// Retrieves the identifier of the library in which the object's concrete
    /// type is defined.
    fn concrete_library_identifier(&self, registry: &TypeRegistry) -> (r: LibraryIdentifier)
        requires
            registry.contains_name(self.concrete_name()),
        ensures
            r == registry.id_of(self.concrete_name()).library_identifier,
    {
        let name = self.concrete_name_owned();
        registry.library_identifier_of(name.as_str())
    }

    /// Determines whether the object's concrete type implements the
    /// indicated public interface: true exactly when `interface_type` is
    /// registered for one of the declared interface names.
    fn implements(&self, registry: &TypeRegistry, interface_type: TypeIdentifier) -> (r: bool)
        requires
            forall|k: int|
                0 <= k < self.interface_names().len() ==> registry.contains_name(
                    #[trigger] self.interface_names()[k],
                ),
        ensures
            r == names_implement(*registry, self.interface_names(), interface_type),
    {
        let names = self.interface_names_owned();
        let mut i: usize = 0;
        while i < names.len()
            invariant
                i <= names@.len(),
                names@.map_values(|n: String| n@) == self.interface_names(),
                forall|k: int|
                    0 <= k < self.interface_names().len() ==> registry.contains_name(
                        #[trigger] self.interface_names()[k],
                    ),
                forall|k: int|
                    0 <= k < i ==> registry.id_of(#[trigger] self.interface_names()[k])
                        != interface_type,
            decreases names@.len() - i,
        {
            proof {
                assert(self.interface_names()[i as int] == names@.map_values(|n: String| n@)[
                i as int]);
            }
            let id = registry.type_identifier_of(names[i].as_str());
            if id == interface_type {
                proof {
                    assert(registry.id_of(self.interface_names()[i as int]) == interface_type);
                }
                return true;
            }
            i += 1;
        }
        false
    }

    /// Determines whether the object's concrete type *literally* is the
    /// indicated type: true only when `test_type` is the exact identifier
    /// registered for the concrete type.
    ///
    /// This is intentionally not an "is-a" test: it answers false even when
    /// `test_type` names an ancestor or an implemented interface of the
    /// concrete type. Narrowing a handle produces a distinct reference, so
    /// exact identity and interface membership are kept separate; to ask
    /// about ancestry, call [`Self::implements`] with the ancestor's public
    /// interface instead.
    fn is(&self, registry: &TypeRegistry, test_type: TypeIdentifier) -> (r: bool)
        requires
            registry.contains_name(self.concrete_name()),
        ensures
            r == is_exact_type(*registry, self.concrete_name(), test_type),
    {
        let id = self.concrete_type_identifier(registry);
        id == test_type
    }
}

/// Exact-type test law: an object passes the test against the identifier
/// registered for its own concrete type, and fails it against the identifier
/// of any other registered name — ancestors and implemented interfaces
/// included.
pub proof fn lemma_exact_type_test<T: ConcreteDivinator>(
    object: &T,
    registry: TypeRegistry,
    other_name: Seq<char>,
)
    requires
        registry.wf(),
        registry.contains_name(object.concrete_name()),
        registry.contains_name(other_name),
    ensures
        is_exact_type(registry, object.concrete_name(), registry.id_of(object.concrete_name())),
        other_name != object.concrete_name() ==> !is_exact_type(
            registry,
            object.concrete_name(),
            registry.id_of(other_name),
        ),
{
    if other_name != object.concrete_name() {
        lemma_registered_identifiers_unique(registry, other_name, object.concrete_name());
    }
}

/// Interface-membership law: an object passes the membership test against
/// the identifier registered for an interface name exactly when that name is
/// among its concrete type's declared interfaces.
pub proof fn lemma_implements_exact<T: ConcreteDivinator>(
    object: &T,
    registry: TypeRegistry,
    interface_name: Seq<char>,
)
    requires
        registry.wf(),
        forall|k: int|
            0 <= k < object.interface_names().len() ==> registry.contains_name(
                #[trigger] object.interface_names()[k],
            ),
        registry.contains_name(interface_name),
    ensures
        names_implement(registry, object.interface_names(), registry.id_of(interface_name))
            <==> object.interface_names().contains(interface_name),
{
    let names = object.interface_names();
    if names_implement(registry, names, registry.id_of(interface_name)) {
        let k = choose|k: int|
            0 <= k < names.len() && registry.id_of(#[trigger] names[k]) == registry.id_of(
                interface_name,
            );
        if names[k] != interface_name {
            lemma_registered_identifiers_unique(registry, names[k], interface_name);
        }
        assert(names[k] == interface_name);
    }
    if names.contains(interface_name) {
        let k = choose|i: int| 0 <= i < names.len() && names[i] == interface_name;
        assert(registry.id_of(names[k]) == registry.id_of(interface_name));
    }
}

/// Identifiers are unique among registered types: in a well-formed registry,
/// two distinct registered names are bound to distinct identifiers. Together
/// with the lookup contracts this makes `type_identifier_of` stable across
/// repeated calls and injective over the registered names.
pub proof fn lemma_registered_identifiers_unique(
    registry: TypeRegistry,
    name1: Seq<char>,
    name2: Seq<char>,
)
    requires
        registry.wf(),
        registry.contains_name(name1),
        registry.contains_name(name2),
        name1 != name2,
    ensures
        registry.id_of(name1) != registry.id_of(name2),
        registry.id_of(name1).type_uuid != registry.id_of(name2).type_uuid,
{
    let entries = registry.entries();
    let i1 = choose|i: int| 0 <= i < entries.len() && #[trigger] entries[i].0@ == name1;
    let i2 = choose|i: int| 0 <= i < entries.len() && #[trigger] entries[i].0@ == name2;
    assert forall|k: int| 0 <= k < i1 implies entries[k].0@ != name1 by {
        assert(entries[k].0@ != entries[i1].0@);
    }
    assert forall|k: int| 0 <= k < i2 implies entries[k].0@ != name2 by {
        assert(entries[k].0@ != entries[i2].0@);
    }
    lemma_lookup_at_first_match(entries, name1, i1);
    lemma_lookup_at_first_match(entries, name2, i2);
}

} // verus!
