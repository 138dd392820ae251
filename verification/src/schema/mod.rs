//! Schema derivation: how a type describes itself, and how its description
//! is registered and referred to.

pub mod name;
pub mod option;
pub mod primitive;
pub mod set;
pub mod wrapper;

use vstd::prelude::*;
use crate::keyed::{
    contains_key, count_key, get, insert, keys_distinct, lemma_count_key, lemma_insert, preserved,
};
use crate::openapi::{
    reference_to, reference_token, resolve, Components, Registry, Schema, SchemaRef, SchemaRefView,
    SchemaView,
};

verus! {

/// A type that can describe itself as a schema.
///
/// A type with a name is registered under it and referred to by reference;
/// a type without one is described in place wherever it occurs.
pub trait ToSchema {
    /// Whether a property of this type must be present in its object.
    const REQUIRED: bool = true;

    /// The name under which the type is registered, if it has one.
    spec fn spec_name() -> Option<Seq<char>>;

    /// The schema of the type and the registry after it was produced, where
    /// the registry was `reg` before.
    spec fn spec_schema(reg: Registry) -> (SchemaView, Registry);

    /// Producing the schema keeps the registered names distinct and leaves
    /// every definition that was registered as it was.
    proof fn lemma_schema(reg: Registry)
        requires
            keys_distinct(reg),
        ensures
            keys_distinct(Self::spec_schema(reg).1),
            preserved(reg, Self::spec_schema(reg).1),
    ;

    /// The name under which the type is registered, if it has one.
    fn name() -> (r: Option<String>)
        ensures
            crate::openapi::option_text(r) == Self::spec_name(),
    ;

    /// The schema of the type. The types that it is made of are registered
    /// on the way.
    fn schema(components: &mut Components) -> (r: Schema)
        ensures
            r@ == Self::spec_schema(old(components)@).0,
            final(components)@ == Self::spec_schema(old(components)@).1,
    ;
}

/// The reference to, or the schema of, a type, and the registry afterwards.
///
/// A named type that is registered already is left alone. One that is not is
/// registered with its schema. A type without a name is given in place.
pub open spec fn spec_schema_ref<T: ToSchema>(reg: Registry) -> (SchemaRefView, Registry) {
    match T::spec_name() {
        Some(name) => {
            let reference = SchemaRefView::Reference { reference: reference_token(name) };
            if contains_key(reg, name) {
                (reference, reg)
            } else {
                let (schema, after) = T::spec_schema(reg);
                (reference, insert(after, name, schema))
            }
        },
        None => {
            let (schema, after) = T::spec_schema(reg);
            (SchemaRefView::Item(Box::new(schema)), after)
        },
    }
}

/// A reference to the registered schema of `T`, registering it first where
/// it is not yet; or the schema itself, where `T` has no name.
pub fn schema_ref<T: ToSchema>(components: &mut Components) -> (r: SchemaRef)
    ensures
        r@ == spec_schema_ref::<T>(old(components)@).0,
        final(components)@ == spec_schema_ref::<T>(old(components)@).1,
{
    match T::name() {
        Some(name) => {
            if !components.contains(name.as_str()) {
                let schema = T::schema(components);
                let reference = reference_to(name.as_str());
                components.insert(name, schema);
                reference
            } else {
                reference_to(name.as_str())
            }
        },
        None => SchemaRef::Item(Box::new(T::schema(components))),
    }
}

/// Referring to a type keeps the registered names distinct and leaves every
/// definition that was registered as it was.
pub proof fn lemma_schema_ref<T: ToSchema>(reg: Registry)
    requires
        keys_distinct(reg),
    ensures
        keys_distinct(spec_schema_ref::<T>(reg).1),
        preserved(reg, spec_schema_ref::<T>(reg).1),
{
    T::lemma_schema(reg);
    let after = T::spec_schema(reg).1;
    match T::spec_name() {
        Some(name) => {
            if !contains_key(reg, name) {
                lemma_insert(after, name, T::spec_schema(reg).0);
                let end = spec_schema_ref::<T>(reg).1;
                assert forall|key: Seq<char>| #[trigger] contains_key(reg, key) implies get(end, key)
                    == get(reg, key) by {
                    assert(key != name);
                    assert(get(end, key) == get(after, key));
                }
            }
        },
        None => {},
    }
}

/// Registration is idempotent.
///
/// Referring twice to a type with a name registers it once: the second
/// reference leaves the registry as the first left it, the name has one
/// entry there, and both references are the same token, which resolves to
/// the definition registered under that name.
pub proof fn lemma_registration_idempotent<T: ToSchema>(reg: Registry)
    requires
        keys_distinct(reg),
        T::spec_name().is_some(),
    ensures
        ({
            let name = T::spec_name().unwrap();
            let (first, once) = spec_schema_ref::<T>(reg);
            let (second, twice) = spec_schema_ref::<T>(once);
            &&& twice == once
            &&& second == first
            &&& count_key(once, name) == 1
            &&& resolve(once, first) == get(once, name)
            &&& resolve(once, first).is_some()
            &&& resolve(twice, second) == resolve(once, first)
        }),
{
    let name = T::spec_name().unwrap();
    let (first, once) = spec_schema_ref::<T>(reg);
    lemma_schema_ref::<T>(reg);
    if !contains_key(reg, name) {
        T::lemma_schema(reg);
        lemma_insert(T::spec_schema(reg).1, name, T::spec_schema(reg).0);
    }
    assert(contains_key(once, name));
    lemma_count_key(once, name);
    lemma_resolve_token(once, name);
}

/// The token of a name resolves to what is registered under the name.
pub proof fn lemma_resolve_token(reg: Registry, name: Seq<char>)
    ensures
        resolve(reg, SchemaRefView::Reference { reference: reference_token(name) }) == get(
            reg,
            name,
        ),
{
    let prefix = crate::openapi::reference_prefix();
    let token = reference_token(name);
    assert(token.subrange(0, prefix.len() as int) == prefix);
    assert(token.subrange(prefix.len() as int, token.len() as int) == name);
}

} // verus!
