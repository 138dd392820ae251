//! The schema of an optional value.

use vstd::prelude::*;
use vstd::string::StringExecFns;
use crate::openapi::{title_or_unknown, Components, Registry, Schema, SchemaView};
use crate::schema::ToSchema;

verus! {

/// The schema of an optional value: that of the value itself, made nullable
/// and titled `Option<..>` after it.
pub open spec fn optional_schema(inner: SchemaView) -> SchemaView {
    SchemaView {
        title: Some("Option<"@ + title_or_unknown(inner) + ">"@),
        nullable: true,
        kind: inner.kind,
    }
}

impl<T: ToSchema> ToSchema for Option<T> {
    const REQUIRED: bool = false;

    open spec fn spec_name() -> Option<Seq<char>> {
        None
    }

    open spec fn spec_schema(reg: Registry) -> (SchemaView, Registry) {
        let (inner, after) = T::spec_schema(reg);
        (optional_schema(inner), after)
    }

    proof fn lemma_schema(reg: Registry) {
        T::lemma_schema(reg);
    }

    fn name() -> (r: Option<String>) {
        None
    }

    fn schema(components: &mut Components) -> (r: Schema) {
        let mut schema = T::schema(components);
        let mut title = "Option<".to_owned();
        title.append(schema.title_or_unknown().as_str());
        title.append(">");
        schema.nullable = true;
        schema.title = Some(title);
        schema
    }
}

/// The schema of `Option<T>` is nullable and titled `Option<..>` after the
/// title of `T`'s schema, or after `Unknown` where that has none. In kind it
/// is `T`'s schema, and it registers what `T`'s schema registers. A property
/// of this type need not be present.
pub proof fn lemma_optional_schema<T: ToSchema>(reg: Registry)
    ensures
        ({
            let (inner, after) = T::spec_schema(reg);
            let (schema, end) = <Option<T> as ToSchema>::spec_schema(reg);
            &&& schema.nullable
            &&& schema.title == Some("Option<"@ + title_or_unknown(inner) + ">"@)
            &&& inner.title.is_none() ==> schema.title == Some("Option<"@ + "Unknown"@ + ">"@)
            &&& schema.kind == inner.kind
            &&& end == after
        }),
        !<Option<T> as ToSchema>::REQUIRED,
{
}

/// Making a schema optional a second time changes its title only.
pub proof fn lemma_optional_keeps_nullable(inner: SchemaView)
    ensures
        optional_schema(optional_schema(inner)).nullable,
        optional_schema(optional_schema(inner)).kind == inner.kind,
{
}

} // verus!
