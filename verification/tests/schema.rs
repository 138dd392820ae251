use predawn::openapi::{
    Registry, SchemaView, reference_to, ArrayType, Components, PrimitiveType, Schema, SchemaKind, SchemaRef,
};
use predawn::schema::name::schema_name;
use predawn::schema::set::set_schema_of;
use predawn::schema::{schema_ref, ToSchema};
use std::cell::{Cell, RefCell};
use std::collections::{BTreeSet, HashSet};
use std::rc::Rc;
use std::sync::{Arc, Mutex, RwLock};

struct Pet;

impl ToSchema for Pet {
    fn spec_name() -> Option<vstd::seq::Seq<char>> {
        unreachable!()
    }

    fn spec_schema(_: Registry) -> (SchemaView, Registry) {
        unreachable!()
    }

    fn lemma_schema(_: Registry) {}

    fn name() -> Option<String> {
        Some("shop.Pet".to_string())
    }

    fn schema(_: &mut Components) -> Schema {
        Schema { title: Some("Pet".to_string()), nullable: false, kind: SchemaKind::Object }
    }
}

struct Untitled;

impl ToSchema for Untitled {
    fn spec_name() -> Option<vstd::seq::Seq<char>> {
        unreachable!()
    }

    fn spec_schema(_: Registry) -> (SchemaView, Registry) {
        unreachable!()
    }

    fn lemma_schema(_: Registry) {}

    fn name() -> Option<String> {
        None
    }

    fn schema(_: &mut Components) -> Schema {
        Schema { title: None, nullable: false, kind: SchemaKind::Object }
    }
}

struct Owner;

impl ToSchema for Owner {
    fn spec_name() -> Option<vstd::seq::Seq<char>> {
        unreachable!()
    }

    fn spec_schema(_: Registry) -> (SchemaView, Registry) {
        unreachable!()
    }

    fn lemma_schema(_: Registry) {}

    fn name() -> Option<String> {
        Some("shop.Owner".to_string())
    }

    fn schema(components: &mut Components) -> Schema {
        let pets = <Vec<Pet> as ToSchema>::schema(components);
        Schema { title: Some("Owner".to_string()), nullable: false, kind: pets.kind }
    }
}

fn pet_schema() -> Schema {
    Schema { title: Some("Pet".to_string()), nullable: false, kind: SchemaKind::Object }
}

fn pet_reference() -> SchemaRef {
    SchemaRef::Reference { reference: "#/components/schemas/shop.Pet".to_string() }
}

#[test]
fn string_schema() {
    let mut components = Components::new();
    let schema = <String as ToSchema>::schema(&mut components);
    assert_eq!(
        schema,
        Schema {
            title: Some("String".to_string()),
            nullable: false,
            kind: SchemaKind::Primitive(PrimitiveType::Text),
        }
    );
    assert_eq!(<String as ToSchema>::name(), None);
    assert!(<String as ToSchema>::REQUIRED);
    assert_eq!(components.len(), 0);
}

#[test]
fn byte_list_schema() {
    let mut components = Components::new();
    let schema = <Vec<u8> as ToSchema>::schema(&mut components);
    let byte = Schema {
        title: Some("u8".to_string()),
        nullable: false,
        kind: SchemaKind::Primitive(PrimitiveType::Integer),
    };
    assert_eq!(
        schema,
        Schema {
            title: Some("List<u8>".to_string()),
            nullable: false,
            kind: SchemaKind::Array(ArrayType {
                items: Some(SchemaRef::Item(Box::new(byte))),
                min_items: None,
                max_items: None,
                unique_items: false,
            }),
        }
    );
}

#[test]
fn optional_is_nullable_and_titled_after_its_inner() {
    let mut components = Components::new();
    let schema = <Option<String> as ToSchema>::schema(&mut components);
    assert!(schema.nullable);
    assert_eq!(schema.title.as_deref(), Some("Option<String>"));
    assert_eq!(schema.kind, SchemaKind::Primitive(PrimitiveType::Text));
    assert!(!<Option<String> as ToSchema>::REQUIRED);
    assert!(<Pet as ToSchema>::REQUIRED);
}

#[test]
fn optional_of_untitled_is_titled_unknown() {
    let mut components = Components::new();
    let schema = <Option<Untitled> as ToSchema>::schema(&mut components);
    assert!(schema.nullable);
    assert_eq!(schema.title.as_deref(), Some("Option<Unknown>"));
    assert_eq!(schema.kind, SchemaKind::Object);
}

#[test]
fn optional_of_optional_stays_nullable() {
    let mut components = Components::new();
    let schema = <Option<Option<Pet>> as ToSchema>::schema(&mut components);
    assert!(schema.nullable);
    assert_eq!(schema.title.as_deref(), Some("Option<Option<Pet>>"));
}

#[test]
fn set_is_a_unique_array_of_references() {
    let mut components = Components::new();
    let schema = <BTreeSet<Pet> as ToSchema>::schema(&mut components);
    assert_eq!(
        schema,
        Schema {
            title: Some("Set<Pet>".to_string()),
            nullable: false,
            kind: SchemaKind::Array(ArrayType {
                items: Some(pet_reference()),
                min_items: None,
                max_items: None,
                unique_items: true,
            }),
        }
    );
    assert_eq!(components.len(), 1);
    assert_eq!(components.get("shop.Pet"), Some(&pet_schema()));
}

#[test]
fn the_three_sets_have_one_shape() {
    let mut a = Components::new();
    let mut b = Components::new();
    let mut c = Components::new();
    let ordered = <BTreeSet<Pet> as ToSchema>::schema(&mut a);
    let hashed = <HashSet<Pet> as ToSchema>::schema(&mut b);
    let indexed = <indexmap::IndexSet<Pet> as ToSchema>::schema(&mut c);
    assert_eq!(ordered, hashed);
    assert_eq!(ordered, indexed);
    assert_eq!(a.schemas(), b.schemas());
    assert_eq!(a.schemas(), c.schemas());
    let mut d = Components::new();
    assert_eq!(set_schema_of::<Pet>(&mut d), ordered);
}

#[test]
fn set_of_untitled_is_titled_unknown() {
    let mut components = Components::new();
    let schema = <HashSet<Untitled> as ToSchema>::schema(&mut components);
    assert_eq!(schema.title.as_deref(), Some("Set<Unknown>"));
    assert_eq!(components.len(), 0);
}

#[test]
fn wrappers_are_transparent() {
    let mut components = Components::new();
    let plain = <Pet as ToSchema>::schema(&mut components);
    assert_eq!(<&Pet as ToSchema>::schema(&mut components), plain);
    assert_eq!(<&mut Pet as ToSchema>::schema(&mut components), plain);
    assert_eq!(<Box<Pet> as ToSchema>::schema(&mut components), plain);
    assert_eq!(<Rc<Pet> as ToSchema>::schema(&mut components), plain);
    assert_eq!(<Arc<Pet> as ToSchema>::schema(&mut components), plain);
    assert_eq!(<Mutex<Pet> as ToSchema>::schema(&mut components), plain);
    assert_eq!(<RwLock<Pet> as ToSchema>::schema(&mut components), plain);
    assert_eq!(<Cell<Pet> as ToSchema>::schema(&mut components), plain);
    assert_eq!(<RefCell<Pet> as ToSchema>::schema(&mut components), plain);
    assert_eq!(<std::num::Wrapping<Pet> as ToSchema>::schema(&mut components), plain);
    assert_eq!(<std::cmp::Reverse<Pet> as ToSchema>::schema(&mut components), plain);
    assert_eq!(<Box<Pet> as ToSchema>::name(), <Pet as ToSchema>::name());
    assert_eq!(<Arc<Pet> as ToSchema>::name(), Some("shop.Pet".to_string()));
    assert_eq!(components.len(), 0);
}

#[test]
fn copy_on_write_is_transparent() {
    let mut components = Components::new();
    let plain = <String as ToSchema>::schema(&mut components);
    assert_eq!(<std::borrow::Cow<'static, String> as ToSchema>::schema(&mut components), plain);
}

#[test]
fn wrapper_of_optional_is_the_optional() {
    let mut components = Components::new();
    let plain = <Option<Pet> as ToSchema>::schema(&mut components);
    assert_eq!(<Box<Option<Pet>> as ToSchema>::schema(&mut components), plain);
    assert_eq!(<Box<Option<Pet>> as ToSchema>::name(), None);
}

#[test]
fn a_named_type_is_referred_to() {
    let mut components = Components::new();
    let reference = schema_ref::<Pet>(&mut components);
    assert_eq!(reference, pet_reference());
    assert_eq!(components.len(), 1);
    assert!(components.contains("shop.Pet"));
    assert!(!components.contains("shop.Owner"));
    assert_eq!(components.resolve(&reference), Some(&pet_schema()));
}

#[test]
fn a_type_without_a_name_is_given_in_place() {
    let mut components = Components::new();
    let given = schema_ref::<Option<Pet>>(&mut components);
    match &given {
        SchemaRef::Item(schema) => {
            assert!(schema.nullable);
            assert_eq!(schema.title.as_deref(), Some("Option<Pet>"));
        }
        SchemaRef::Reference { .. } => panic!("an optional has no name"),
    }
    assert_eq!(components.len(), 0);
    assert_eq!(components.resolve(&given).map(|s| s.nullable), Some(true));
}

#[test]
fn registering_twice_registers_once() {
    let mut components = Components::new();
    let first = schema_ref::<Pet>(&mut components);
    let len = components.len();
    let second = schema_ref::<Pet>(&mut components);
    assert_eq!(components.len(), len);
    assert_eq!(len, 1);
    assert_eq!(first, second);
    assert_eq!(components.resolve(&first), components.resolve(&second));
    assert_eq!(components.resolve(&first), Some(&pet_schema()));
    let through = schema_ref::<Box<Pet>>(&mut components);
    assert_eq!(through, first);
    assert_eq!(components.len(), 1);
}

#[test]
fn nested_types_are_registered_first() {
    let mut components = Components::new();
    let reference = schema_ref::<Owner>(&mut components);
    assert_eq!(
        reference,
        SchemaRef::Reference { reference: "#/components/schemas/shop.Owner".to_string() }
    );
    let names: Vec<&str> = components.schemas().keys().map(|n| n.as_str()).collect();
    assert_eq!(names, vec!["shop.Pet", "shop.Owner"]);
    assert_eq!(components.get("shop.Pet"), Some(&pet_schema()));
}

#[test]
fn insert_replaces_in_place_and_appends_what_is_new() {
    let mut components = Components::new();
    components.insert("a".to_string(), pet_schema());
    components.insert("b".to_string(), pet_schema());
    let other = Schema { title: None, nullable: true, kind: SchemaKind::Object };
    components.insert("a".to_string(), Schema { title: None, nullable: true, kind: SchemaKind::Object });
    assert_eq!(components.len(), 2);
    let names: Vec<&str> = components.schemas().keys().map(|n| n.as_str()).collect();
    assert_eq!(names, vec!["a", "b"]);
    assert_eq!(components.get("a"), Some(&other));
    assert_eq!(components.get("b"), Some(&pet_schema()));
    assert_eq!(components.get("c"), None);
}

#[test]
fn resolve_reads_the_token() {
    let mut components = Components::new();
    components.insert("shop.Pet".to_string(), pet_schema());
    assert_eq!(components.resolve(&reference_to("shop.Pet")), Some(&pet_schema()));
    assert_eq!(components.resolve(&reference_to("shop.Cat")), None);
    let bare = SchemaRef::Reference { reference: "shop.Pet".to_string() };
    assert_eq!(components.resolve(&bare), None);
    let short = SchemaRef::Reference { reference: "#/".to_string() };
    assert_eq!(components.resolve(&short), None);
    let item = SchemaRef::Item(Box::new(pet_schema()));
    assert_eq!(components.resolve(&item), Some(&pet_schema()));
}

#[test]
fn schema_names_drop_generics_and_use_dots() {
    assert_eq!(schema_name("mod::Download<Foo>"), "mod.Download");
    assert_eq!(schema_name("a::b::C<d::E<f::G>>"), "a.b.C");
    assert_eq!(schema_name("Plain"), "Plain");
    assert_eq!(schema_name(""), "");
    assert_eq!(schema_name("a:b"), "a:b");
    assert_eq!(schema_name("a:::b"), "a.:b");
    assert_eq!(schema_name("a::::b"), "a..b");
    assert_eq!(schema_name("<T>"), "");
    assert_eq!(schema_name("a::b:"), "a.b:");
}

#[test]
fn title_or_unknown() {
    assert_eq!(pet_schema().title_or_unknown(), "Pet");
    let none = Schema { title: None, nullable: false, kind: SchemaKind::Object };
    assert_eq!(none.title_or_unknown(), "Unknown");
}
