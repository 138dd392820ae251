//! The schema of a set: one shape, whatever holds the elements.

use vstd::prelude::*;
use vstd::string::StringExecFns;
use crate::openapi::{
    title_or_unknown, ArrayType, ArrayTypeView, Components, Registry, Schema, SchemaKind,
    SchemaKindView, SchemaRefView, SchemaView,
};
use crate::schema::{lemma_schema_ref, schema_ref, spec_schema_ref, ToSchema};

verus! {

/// `indexmap`'s insertion-ordered set, known to Verus as an opaque type.
#[verifier::external_type_specification]
#[verifier::external_body]
#[verifier::reject_recursive_types(T)]
#[verifier::reject_recursive_types(S)]
pub struct ExIndexSet<T, S>(indexmap::set::IndexSet<T, S>);

/// The schema of a set: an array of the given items, of any length, in which
/// no item occurs twice, titled `Set<..>` after its element type.
pub open spec fn set_schema(inner: SchemaView, items: SchemaRefView) -> SchemaView {
    SchemaView {
        title: Some("Set<"@ + title_or_unknown(inner) + ">"@),
        nullable: false,
        kind: SchemaKindView::Array(
            ArrayTypeView {
                items: Some(items),
                min_items: None,
                max_items: None,
                unique_items: true,
            },
        ),
    }
}

/// The schema of a set of `T` and the registry after it was produced: the
/// title comes from `T`'s schema, the items refer to `T`.
pub open spec fn spec_set_schema<T: ToSchema>(reg: Registry) -> (SchemaView, Registry) {
    let (inner, mid) = T::spec_schema(reg);
    let (items, after) = spec_schema_ref::<T>(mid);
    (set_schema(inner, items), after)
}

/// Producing the schema of a set keeps the registered names distinct and
/// leaves every registered definition as it was.
pub proof fn lemma_set_schema<T: ToSchema>(reg: Registry)
    requires
        crate::keyed::keys_distinct(reg),
    ensures
        crate::keyed::keys_distinct(spec_set_schema::<T>(reg).1),
        crate::keyed::preserved(reg, spec_set_schema::<T>(reg).1),
{
    T::lemma_schema(reg);
    lemma_schema_ref::<T>(T::spec_schema(reg).1);
}

/// The schema of a set of `T`.
pub fn set_schema_of<T: ToSchema>(components: &mut Components) -> (r: Schema)
    ensures
        r@ == spec_set_schema::<T>(old(components)@).0,
        final(components)@ == spec_set_schema::<T>(old(components)@).1,
{
    let inner = T::schema(components);
    let mut title = "Set<".to_owned();
    title.append(inner.title_or_unknown().as_str());
    title.append(">");
    let items = schema_ref::<T>(components);
    Schema {
        title: Some(title),
        nullable: false,
        kind: SchemaKind::Array(
            ArrayType { items: Some(items), min_items: None, max_items: None, unique_items: true },
        ),
    }
}

impl<T: ToSchema> ToSchema for std::collections::BTreeSet<T> {
    open spec fn spec_name() -> Option<Seq<char>> {
        None
    }

    open spec fn spec_schema(reg: Registry) -> (SchemaView, Registry) {
        spec_set_schema::<T>(reg)
    }

    proof fn lemma_schema(reg: Registry) {
        lemma_set_schema::<T>(reg);
    }

    fn name() -> (r: Option<String>) {
        None
    }

    fn schema(components: &mut Components) -> (r: Schema) {
        set_schema_of::<T>(components)
    }
}

impl<T: ToSchema, S> ToSchema for std::collections::HashSet<T, S> {
    open spec fn spec_name() -> Option<Seq<char>> {
        None
    }

    open spec fn spec_schema(reg: Registry) -> (SchemaView, Registry) {
        spec_set_schema::<T>(reg)
    }

    proof fn lemma_schema(reg: Registry) {
        lemma_set_schema::<T>(reg);
    }

    fn name() -> (r: Option<String>) {
        None
    }

    fn schema(components: &mut Components) -> (r: Schema) {
        set_schema_of::<T>(components)
    }
}

impl<T: ToSchema, S> ToSchema for indexmap::set::IndexSet<T, S> {
    open spec fn spec_name() -> Option<Seq<char>> {
        None
    }

    open spec fn spec_schema(reg: Registry) -> (SchemaView, Registry) {
        spec_set_schema::<T>(reg)
    }

    proof fn lemma_schema(reg: Registry) {
        lemma_set_schema::<T>(reg);
    }

    fn name() -> (r: Option<String>) {
        None
    }

    fn schema(components: &mut Components) -> (r: Schema) {
        set_schema_of::<T>(components)
    }
}

/// The three sets over one element type have one schema.
///
/// Ordered, hashed or insertion-ordered, a set of `T` is an array without
/// bounds on its length whose items are unique and refer to `T`, titled
/// `Set<..>` after `T`; and the three register the same definitions.
pub proof fn lemma_set_shape<T: ToSchema, S1, S2>(reg: Registry)
    ensures
        <std::collections::BTreeSet<T> as ToSchema>::spec_schema(reg)
            == <std::collections::HashSet<T, S1> as ToSchema>::spec_schema(reg),
        <std::collections::BTreeSet<T> as ToSchema>::spec_schema(reg)
            == <indexmap::set::IndexSet<T, S2> as ToSchema>::spec_schema(reg),
        ({
            let (inner, mid) = T::spec_schema(reg);
            let (schema, after) = <std::collections::BTreeSet<T> as ToSchema>::spec_schema(reg);
            &&& schema.title == Some("Set<"@ + title_or_unknown(inner) + ">"@)
            &&& !schema.nullable
            &&& schema.kind == SchemaKindView::Array(
                ArrayTypeView {
                    items: Some(spec_schema_ref::<T>(mid).0),
                    min_items: None,
                    max_items: None,
                    unique_items: true,
                },
            )
            &&& after == spec_schema_ref::<T>(mid).1
        }),
{
}

/// A set must be present where it is a property, whatever holds its
/// elements.
pub proof fn lemma_sets_required<T: ToSchema, S1, S2>()
    ensures
        <std::collections::BTreeSet<T> as ToSchema>::REQUIRED,
        <std::collections::HashSet<T, S1> as ToSchema>::REQUIRED,
        <indexmap::set::IndexSet<T, S2> as ToSchema>::REQUIRED,
{
}

} // verus!
