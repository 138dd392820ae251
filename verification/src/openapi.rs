//! The documentation model: schema objects, media-type objects, the ordered
//! content mapping and the registry of named schemas.

use vstd::prelude::*;
use vstd::string::StringExecFns;
use indexmap::IndexMap;
use crate::keyed::{contains_key, get, insert, keys_distinct, lemma_insert, Entries};
use crate::text::{chars_of, str_eq, string_of};

verus! {

/// The kinds of primitive value a schema can describe.
#[derive(Debug, Clone, Copy, PartialEq, Eq, Structural)]
pub enum PrimitiveType {
    /// A text.
    Text,
    /// An integer.
    Integer,
    /// Opaque bytes.
    Binary,
}

/// An array: what its items are and how many there may be.
#[derive(Debug, PartialEq, Eq)]
pub struct ArrayType {
    /// The schema of each item.
    pub items: Option<SchemaRef>,
    /// The least number of items, where one is set.
    pub min_items: Option<usize>,
    /// The greatest number of items, where one is set.
    pub max_items: Option<usize>,
    /// Whether no item may occur twice.
    pub unique_items: bool,
}

/// The kind of a schema.
#[derive(Debug, PartialEq, Eq)]
pub enum SchemaKind {
    /// A primitive value.
    Primitive(PrimitiveType),
    /// An array.
    Array(ArrayType),
    /// An object with named properties.
    Object,
}

/// A structural description of a payload.
#[derive(Debug, PartialEq, Eq)]
pub struct Schema {
    /// A human-readable title.
    pub title: Option<String>,
    /// Whether the value may be absent.
    pub nullable: bool,
    /// What kind of value it is.
    pub kind: SchemaKind,
}

/// A schema given in place, or a reference to a registered one.
#[derive(Debug, PartialEq, Eq)]
pub enum SchemaRef {
    /// A reference token, `#/components/schemas/` followed by a name.
    Reference { reference: String },
    /// The schema itself.
    Item(Box<Schema>),
}

/// The mathematical value of an `ArrayType`.
pub ghost struct ArrayTypeView {
    pub items: Option<SchemaRefView>,
    pub min_items: Option<usize>,
    pub max_items: Option<usize>,
    pub unique_items: bool,
}

/// The mathematical value of a `SchemaKind`.
pub ghost enum SchemaKindView {
    Primitive(PrimitiveType),
    Array(ArrayTypeView),
    Object,
}

/// The mathematical value of a `Schema`.
pub ghost struct SchemaView {
    pub title: Option<Seq<char>>,
    pub nullable: bool,
    pub kind: SchemaKindView,
}

/// The mathematical value of a `SchemaRef`.
pub ghost enum SchemaRefView {
    Reference { reference: Seq<char> },
    Item(Box<SchemaView>),
}

/// The text of an optional string.
pub open spec fn option_text(s: Option<String>) -> Option<Seq<char>> {
    match s {
        Some(t) => Some(t@),
        None => None,
    }
}

/// The value of a schema.
pub open spec fn schema_view(s: Schema) -> SchemaView
    decreases s,
{
    SchemaView {
        title: option_text(s.title),
        nullable: s.nullable,
        kind: match s.kind {
            SchemaKind::Primitive(p) => SchemaKindView::Primitive(p),
            SchemaKind::Array(a) => SchemaKindView::Array(
                ArrayTypeView {
                    items: match a.items {
                        Some(r) => Some(schema_ref_view(r)),
                        None => None,
                    },
                    min_items: a.min_items,
                    max_items: a.max_items,
                    unique_items: a.unique_items,
                },
            ),
            SchemaKind::Object => SchemaKindView::Object,
        },
    }
}

/// The value of a schema or reference.
pub open spec fn schema_ref_view(r: SchemaRef) -> SchemaRefView
    decreases r,
{
    match r {
        SchemaRef::Reference { reference } => SchemaRefView::Reference { reference: reference@ },
        SchemaRef::Item(b) => SchemaRefView::Item(Box::new(schema_view(*b))),
    }
}

impl View for Schema {
    type V = SchemaView;

    open spec fn view(&self) -> SchemaView {
        schema_view(*self)
    }
}

impl View for SchemaRef {
    type V = SchemaRefView;

    open spec fn view(&self) -> SchemaRefView {
        schema_ref_view(*self)
    }
}

/// The title of a schema, or the placeholder `Unknown` where it has none.
pub open spec fn title_or_unknown(s: SchemaView) -> Seq<char> {
    match s.title {
        Some(t) => t,
        None => "Unknown"@,
    }
}

/// A schema of a primitive kind with the given title.
pub open spec fn primitive_schema(title: Seq<char>, ty: PrimitiveType) -> SchemaView {
    SchemaView { title: Some(title), nullable: false, kind: SchemaKindView::Primitive(ty) }
}

impl Schema {
    /// A schema of a primitive kind, titled and not nullable.
    pub fn primitive(title: &str, ty: PrimitiveType) -> (r: Schema)
        ensures
            r@ == primitive_schema(title@, ty),
    {
        Schema { title: Some(title.to_owned()), nullable: false, kind: SchemaKind::Primitive(ty) }
    }

    /// The title, or `Unknown` where there is none.
    pub fn title_or_unknown(&self) -> (r: String)
        ensures
            r@ == title_or_unknown(self@),
    {
        match &self.title {
            Some(t) => t.clone(),
            None => "Unknown".to_owned(),
        }
    }
}

/// The schema that a media type carries.
#[derive(Debug, PartialEq, Eq)]
pub struct MediaTypeObject {
    /// The schema of the payload, in place or by reference.
    pub schema: Option<SchemaRef>,
}

/// The mathematical value of a `MediaTypeObject`.
pub ghost struct MediaTypeObjectView {
    pub schema: Option<SchemaRefView>,
}

impl View for MediaTypeObject {
    type V = MediaTypeObjectView;

    open spec fn view(&self) -> MediaTypeObjectView {
        MediaTypeObjectView {
            schema: match self.schema {
                Some(r) => Some(r@),
                None => None,
            },
        }
    }
}

/// `indexmap`'s insertion-ordered map, known to Verus as an opaque type.
#[verifier::external_type_specification]
#[verifier::external_body]
#[verifier::reject_recursive_types(K)]
#[verifier::reject_recursive_types(V)]
#[verifier::reject_recursive_types(S)]
pub struct ExIndexMap<K, V, S>(IndexMap<K, V, S>);

/// The content of a request or response body: the media-type object of each
/// content type, in the order in which they were declared.
pub type Content = IndexMap<String, MediaTypeObject>;

/// What a content mapping holds: its `(content type, media-type object)`
/// entries in map order.
pub uninterp spec fn content_entries(content: Content) -> Entries<MediaTypeObjectView>;

/// The greatest capacity that an empty content mapping is made with.
const MAX_CONTENT_CAPACITY: usize = 1024;

/// An empty content mapping with room for `capacity` entries. Trusted: the
/// body is `IndexMap::with_capacity`, which makes a map without entries.
#[verifier::external_body]
fn content_with_capacity(capacity: usize) -> (r: Content)
    requires
        capacity <= MAX_CONTENT_CAPACITY,
    ensures
        content_entries(r) == Seq::<(Seq<char>, MediaTypeObjectView)>::empty(),
{
    IndexMap::with_capacity(capacity)
}

/// Puts `value` under `key`. Trusted: the body is `IndexMap::insert`. As its
/// documentation says, a key that is present keeps its place and gets the
/// new value, and a key that is not becomes the last entry.
#[verifier::external_body]
fn content_insert(content: &mut Content, key: String, value: MediaTypeObject)
    ensures
        content_entries(*final(content)) == insert(content_entries(*old(content)), key@, value@),
{
    content.insert(key, value);
}

/// The content mapping of a single representation.
pub fn single_content(media_type: &str, object: MediaTypeObject) -> (r: Content)
    ensures
        content_entries(r) == seq![(media_type@, object@)],
{
    let mut content = content_with_capacity(1);
    content_insert(&mut content, media_type.to_owned(), object);
    proof {
        let empty = Seq::<(Seq<char>, MediaTypeObjectView)>::empty();
        assert(!contains_key(empty, media_type@));
        assert(empty.push((media_type@, object@)) =~= seq![(media_type@, object@)]);
    }
    content
}

/// The documentation of a request body.
#[derive(Debug, PartialEq, Eq)]
pub struct RequestBody {
    /// The media-type object of each content type that is accepted.
    pub content: Content,
    /// Whether a request must carry a body.
    pub required: bool,
}

/// The documentation of a response.
#[derive(Debug, PartialEq, Eq)]
pub struct ResponseObject {
    /// What the response means.
    pub description: String,
    /// The media-type object of each content type that is served.
    pub content: Content,
}

/// The prefix of every reference token.
pub open spec fn reference_prefix() -> Seq<char> {
    "#/components/schemas/"@
}

/// The reference token of the schema registered under `name`.
pub open spec fn reference_token(name: Seq<char>) -> Seq<char> {
    reference_prefix() + name
}

/// The registry's contents: the named schemas in the order of registration.
pub type Registry = Entries<SchemaView>;

/// What a schema or reference stands for in a registry: the schema itself,
/// or the definition registered under the name that the token holds.
pub open spec fn resolve(reg: Registry, r: SchemaRefView) -> Option<SchemaView> {
    match r {
        SchemaRefView::Item(s) => Some(*s),
        SchemaRefView::Reference { reference } => {
            let n = reference_prefix().len();
            if reference.len() >= n && reference.subrange(0, n as int) == reference_prefix() {
                get(reg, reference.subrange(n as int, reference.len() as int))
            } else {
                None
            }
        },
    }
}

/// The named schemas of a registry, in the order of registration.
pub type Schemas = IndexMap<String, Schema>;

/// What a map of named schemas holds: its `(name, schema)` entries in map
/// order.
pub uninterp spec fn schema_entries(schemas: Schemas) -> Registry;

/// A map of named schemas without entries. Trusted: the body is
/// `IndexMap::new`.
#[verifier::external_body]
fn new_schemas() -> (r: Schemas)
    ensures
        schema_entries(r) == Seq::<(Seq<char>, SchemaView)>::empty(),
{
    IndexMap::new()
}

/// The number of entries. Trusted: the body is `IndexMap::len`.
#[verifier::external_body]
fn schemas_len(schemas: &Schemas) -> (r: usize)
    ensures
        r == schema_entries(*schemas).len(),
{
    schemas.len()
}

/// The schema stored under `name`. Trusted: the body is `IndexMap::get`,
/// which gives the stored value for a key that is present, and `None` for
/// one that is not.
#[verifier::external_body]
fn schemas_get<'a>(schemas: &'a Schemas, name: &str) -> (r: Option<&'a Schema>)
    ensures
        match r {
            Some(schema) => get(schema_entries(*schemas), name@) == Some(schema@),
            None => !contains_key(schema_entries(*schemas), name@),
        },
{
    schemas.get(name)
}

/// Puts `schema` under `name`. Trusted: the body is `IndexMap::insert`. As
/// its documentation says, a key that is present keeps its place and gets
/// the new value, and a key that is not becomes the last entry.
#[verifier::external_body]
fn schemas_insert(schemas: &mut Schemas, name: String, schema: Schema)
    ensures
        schema_entries(*final(schemas)) == insert(schema_entries(*old(schemas)), name@, schema@),
{
    schemas.insert(name, schema);
}

/// The registry of named schemas. No name is registered twice, and a name
/// keeps the place at which it was first registered.
#[derive(Debug)]
pub struct Components {
    schemas: Schemas,
}

impl View for Components {
    type V = Registry;

    closed spec fn view(&self) -> Registry {
        schema_entries(self.schemas)
    }
}

impl Components {
    #[verifier::type_invariant]
    spec fn names_distinct(self) -> bool {
        keys_distinct(self@)
    }

    /// An empty registry.
    pub fn new() -> (r: Components)
        ensures
            r@ == Seq::<(Seq<char>, SchemaView)>::empty(),
    {
        Components { schemas: new_schemas() }
    }

    /// The number of registered names.
    pub fn len(&self) -> (r: usize)
        ensures
            r == self@.len(),
            keys_distinct(self@),
    {
        proof {
            use_type_invariant(self);
        }
        schemas_len(&self.schemas)
    }

    /// Whether a schema is registered under `name`.
    pub fn contains(&self, name: &str) -> (r: bool)
        ensures
            r == contains_key(self@, name@),
            keys_distinct(self@),
    {
        proof {
            use_type_invariant(self);
        }
        schemas_get(&self.schemas, name).is_some()
    }

    /// The schema registered under `name`.
    pub fn get(&self, name: &str) -> (r: Option<&Schema>)
        ensures
            keys_distinct(self@),
            match r {
                Some(s) => get(self@, name@) == Some(s@),
                None => get(self@, name@).is_none(),
            },
    {
        proof {
            use_type_invariant(self);
        }
        schemas_get(&self.schemas, name)
    }

    /// Registers `schema` under `name`: in the place of the schema that the
    /// name had, or as the last entry where the name is new.
    pub fn insert(&mut self, name: String, schema: Schema)
        ensures
            final(self)@ == insert(old(self)@, name@, schema@),
            keys_distinct(final(self)@),
    {
        proof {
            use_type_invariant(&*self);
            lemma_insert(self@, name@, schema@);
        }
        let mut schemas = new_schemas();
        std::mem::swap(&mut self.schemas, &mut schemas);
        schemas_insert(&mut schemas, name, schema);
        std::mem::swap(&mut self.schemas, &mut schemas);
    }

    /// The named schemas, in the order of registration.
    pub fn schemas(&self) -> (r: &Schemas)
        ensures
            schema_entries(*r) == self@,
    {
        &self.schemas
    }

    /// What `r` stands for: the schema in place, or the registered
    /// definition that its token names.
    pub fn resolve<'a>(&'a self, r: &'a SchemaRef) -> (s: Option<&'a Schema>)
        ensures
            match s {
                Some(schema) => resolve(self@, r@) == Some(schema@),
                None => resolve(self@, r@).is_none(),
            },
    {
        match r {
            SchemaRef::Item(schema) => Some(&**schema),
            SchemaRef::Reference { reference } => {
                let token = chars_of(reference.as_str());
                let prefix = chars_of("#/components/schemas/");
                if token.len() < prefix.len() {
                    return None;
                }
                let head = string_of(&token, 0, prefix.len());
                if !str_eq(head.as_str(), "#/components/schemas/") {
                    return None;
                }
                let name = string_of(&token, prefix.len(), token.len());
                self.get(name.as_str())
            },
        }
    }
}

/// The reference to the schema registered under `name`.
pub fn reference_to(name: &str) -> (r: SchemaRef)
    ensures
        r@ == (SchemaRefView::Reference { reference: reference_token(name@) }),
{
    let mut reference = "#/components/schemas/".to_owned();
    reference.append(name);
    SchemaRef::Reference { reference }
}

} // verus!
