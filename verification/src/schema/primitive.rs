//! Schemas of the primitive types and of lists of them.

use vstd::prelude::*;
use vstd::string::StringExecFns;
use crate::keyed::keys_distinct;
use crate::openapi::{
    primitive_schema, title_or_unknown, ArrayType, ArrayTypeView, Components, PrimitiveType,
    Registry, Schema, SchemaKind, SchemaKindView, SchemaRefView, SchemaView,
};
use crate::schema::{lemma_schema_ref, schema_ref, spec_schema_ref, ToSchema};

verus! {

impl ToSchema for String {
    open spec fn spec_name() -> Option<Seq<char>> {
        None
    }

    open spec fn spec_schema(reg: Registry) -> (SchemaView, Registry) {
        (primitive_schema("String"@, PrimitiveType::Text), reg)
    }

    proof fn lemma_schema(reg: Registry) {
    }

    fn name() -> (r: Option<String>) {
        None
    }

    fn schema(components: &mut Components) -> (r: Schema) {
        Schema::primitive("String", PrimitiveType::Text)
    }
}

impl ToSchema for u8 {
    open spec fn spec_name() -> Option<Seq<char>> {
        None
    }

    open spec fn spec_schema(reg: Registry) -> (SchemaView, Registry) {
        (primitive_schema("u8"@, PrimitiveType::Integer), reg)
    }

    proof fn lemma_schema(reg: Registry) {
    }

    fn name() -> (r: Option<String>) {
        None
    }

    fn schema(components: &mut Components) -> (r: Schema) {
        Schema::primitive("u8", PrimitiveType::Integer)
    }
}

/// The schema of a list: an array of the given items, of any length, in
/// which an item may occur again, titled `List<..>` after its item type.
pub open spec fn list_schema(inner: SchemaView, items: SchemaRefView) -> SchemaView {
    SchemaView {
        title: Some("List<"@ + title_or_unknown(inner) + ">"@),
        nullable: false,
        kind: SchemaKindView::Array(
            ArrayTypeView {
                items: Some(items),
                min_items: None,
                max_items: None,
                unique_items: false,
            },
        ),
    }
}

impl<T: ToSchema> ToSchema for Vec<T> {
    open spec fn spec_name() -> Option<Seq<char>> {
        None
    }

    open spec fn spec_schema(reg: Registry) -> (SchemaView, Registry) {
        let (inner, mid) = T::spec_schema(reg);
        let (items, after) = spec_schema_ref::<T>(mid);
        (list_schema(inner, items), after)
    }

    proof fn lemma_schema(reg: Registry) {
        T::lemma_schema(reg);
        lemma_schema_ref::<T>(T::spec_schema(reg).1);
    }

    fn name() -> (r: Option<String>) {
        None
    }

    fn schema(components: &mut Components) -> (r: Schema) {
        let inner = T::schema(components);
        let mut title = "List<".to_owned();
        title.append(inner.title_or_unknown().as_str());
        title.append(">");
        let items = schema_ref::<T>(components);
        Schema {
            title: Some(title),
            nullable: false,
            kind: SchemaKind::Array(
                ArrayType { items: Some(items), min_items: None, max_items: None, unique_items: false },
            ),
        }
    }
}

/// A text, a byte and a list must be present where they are properties.
pub proof fn lemma_primitives_required<T: ToSchema>()
    ensures
        <String as ToSchema>::REQUIRED,
        <u8 as ToSchema>::REQUIRED,
        <Vec<T> as ToSchema>::REQUIRED,
{
}

} // verus!
