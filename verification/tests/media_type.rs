use predawn::media_type::invalid::{report_of, InvalidContentType};
use predawn::media_type::{
    assert_response_media_type, MediaType, MultiRequestMediaType, MultiResponseMediaType,
    RequestMediaType, SingleMediaType,
};
use predawn::openapi::{Components, MediaTypeObject, PrimitiveType, Schema, SchemaKind, SchemaRef};
use predawn::payload::form::Form;
use predawn::payload::json::Json;
use predawn::response::download::Download;
use std::borrow::Cow;

#[test]
fn test_invalid_content_type() {
    let err = InvalidContentType {
        actual: "application/json".into(),
        expected: ["text/plain", "text/html"],
    };

    assert_eq!(
        err.message(),
        "invalid `content-type`: expected one of [\"text/plain\", \"text/html\"] but actual \"application/json\""
    );
}

#[test]
fn invalid_content_type_with_one_or_no_expectation() {
    let one = InvalidContentType { actual: "a/b".into(), expected: ["c/d"] };
    assert_eq!(
        one.message(),
        "invalid `content-type`: expected one of [\"c/d\"] but actual \"a/b\""
    );
    let none: InvalidContentType<0> = InvalidContentType { actual: "".into(), expected: [] };
    assert_eq!(none.message(), "invalid `content-type`: expected one of [] but actual \"\"");
}

#[test]
fn invalid_content_type_escapes_what_it_quotes() {
    let err = InvalidContentType { actual: "a\"b\n".into(), expected: ["x\\y"] };
    assert_eq!(
        err.message(),
        "invalid `content-type`: expected one of [\"x\\\\y\"] but actual \"a\\\"b\\n\""
    );
}

#[test]
fn declared_media_types() {
    assert_eq!(<String as MediaType>::MEDIA_TYPE, "text/plain; charset=utf-8");
    assert_eq!(<&'static str as MediaType>::MEDIA_TYPE, "text/plain; charset=utf-8");
    assert_eq!(<Cow<'static, str> as MediaType>::MEDIA_TYPE, "text/plain; charset=utf-8");
    assert_eq!(<Box<str> as MediaType>::MEDIA_TYPE, "text/plain; charset=utf-8");
    assert_eq!(<Vec<u8> as MediaType>::MEDIA_TYPE, "application/octet-stream");
    assert_eq!(<&'static [u8] as MediaType>::MEDIA_TYPE, "application/octet-stream");
    assert_eq!(<Cow<'static, [u8]> as MediaType>::MEDIA_TYPE, "application/octet-stream");
    assert_eq!(<Box<[u8]> as MediaType>::MEDIA_TYPE, "application/octet-stream");
    assert_eq!(<bytes::Bytes as MediaType>::MEDIA_TYPE, "application/octet-stream");
    assert_eq!(<bytes::BytesMut as MediaType>::MEDIA_TYPE, "application/octet-stream");
    assert_eq!(<[u8; 4] as MediaType>::MEDIA_TYPE, "application/octet-stream");
    assert_eq!(<&'static [u8; 16] as MediaType>::MEDIA_TYPE, "application/octet-stream");
    assert_eq!(<Json<u8> as MediaType>::MEDIA_TYPE, "application/json");
    assert_eq!(<Form<u8> as MediaType>::MEDIA_TYPE, "application/x-www-form-urlencoded");
    assert_eq!(<Download<Json<u8>> as MediaType>::MEDIA_TYPE, "application/json");
    assert_eq!(<Download<Vec<u8>> as MediaType>::MEDIA_TYPE, "application/octet-stream");
}

#[test]
fn texts_need_the_utf8_charset() {
    assert!(<String as RequestMediaType>::check_content_type("text/plain; charset=utf-8"));
    assert!(<String as RequestMediaType>::check_content_type("text/plain; charset=UTF-8"));
    assert!(<String as RequestMediaType>::check_content_type("text/plain;charset=utf-8"));
    assert!(!<String as RequestMediaType>::check_content_type("text/plain"));
    assert!(!<String as RequestMediaType>::check_content_type("text/plain; charset=latin1"));
    assert!(!<String as RequestMediaType>::check_content_type("text/html; charset=utf-8"));
    assert!(!<String as RequestMediaType>::check_content_type(""));
    assert!(<&'static str as RequestMediaType>::check_content_type("text/plain; charset=utf-8"));
    assert!(!<&'static str as RequestMediaType>::check_content_type("text/plain"));
    assert!(<Box<str> as RequestMediaType>::check_content_type("text/plain; charset=utf-8"));
    assert!(<Cow<'static, str> as RequestMediaType>::check_content_type(
        "text/plain; charset=utf-8"
    ));
}

#[test]
fn bytes_need_no_parameter() {
    assert!(<Vec<u8> as RequestMediaType>::check_content_type("application/octet-stream"));
    assert!(<Vec<u8> as RequestMediaType>::check_content_type(
        "application/octet-stream; anything=goes"
    ));
    assert!(!<Vec<u8> as RequestMediaType>::check_content_type("application/json"));
    assert!(!<Vec<u8> as RequestMediaType>::check_content_type(""));
    assert!(<[u8; 8] as RequestMediaType>::check_content_type("application/octet-stream"));
    assert!(!<[u8; 8] as RequestMediaType>::check_content_type("text/plain"));
    assert!(<&'static [u8; 2] as RequestMediaType>::check_content_type(
        "application/octet-stream"
    ));
    assert!(<bytes::Bytes as RequestMediaType>::check_content_type("application/octet-stream"));
    assert!(<bytes::BytesMut as RequestMediaType>::check_content_type(
        "application/octet-stream"
    ));
    assert!(<&'static [u8] as RequestMediaType>::check_content_type("application/octet-stream"));
    assert!(<Box<[u8]> as RequestMediaType>::check_content_type("application/octet-stream"));
    assert!(<Cow<'static, [u8]> as RequestMediaType>::check_content_type(
        "application/octet-stream"
    ));
}

#[test]
fn envelopes_test_their_own_content_type() {
    assert!(<Json<u8> as RequestMediaType>::check_content_type("application/json"));
    assert!(<Json<u8> as RequestMediaType>::check_content_type("application/json; charset=utf-8"));
    assert!(<Json<u8> as RequestMediaType>::check_content_type("application/problem+json"));
    assert!(!<Json<u8> as RequestMediaType>::check_content_type("text/plain"));
    assert!(!<Json<u8> as RequestMediaType>::check_content_type("text/json"));
    assert!(<Form<u8> as RequestMediaType>::check_content_type(
        "application/x-www-form-urlencoded"
    ));
    assert!(!<Form<u8> as RequestMediaType>::check_content_type("multipart/form-data"));
    assert!(!<Form<u8> as RequestMediaType>::check_content_type("application/json"));
}

#[test]
fn response_marker_is_on_the_payload_types() {
    assert_response_media_type::<String>();
    assert_response_media_type::<&'static str>();
    assert_response_media_type::<Vec<u8>>();
    assert_response_media_type::<[u8; 3]>();
    assert_response_media_type::<Json<u8>>();
    assert_response_media_type::<Form<u8>>();
    assert_response_media_type::<Download<Json<u8>>>();
}

fn text_schema() -> Schema {
    Schema {
        title: Some("String".to_string()),
        nullable: false,
        kind: SchemaKind::Primitive(PrimitiveType::Text),
    }
}

#[test]
fn text_documents_a_string_schema() {
    let mut components = Components::new();
    let object = <String as SingleMediaType>::media_type(&mut components);
    assert_eq!(object, MediaTypeObject { schema: Some(SchemaRef::Item(Box::new(text_schema()))) });
    assert_eq!(components.len(), 0);
    let borrowed = <&'static str as SingleMediaType>::media_type(&mut components);
    assert_eq!(borrowed, object);
    let boxed = <Box<str> as SingleMediaType>::media_type(&mut components);
    assert_eq!(boxed, object);
}

#[test]
fn bytes_document_a_byte_array_and_no_length() {
    let mut components = Components::new();
    let owned = <Vec<u8> as SingleMediaType>::media_type(&mut components);
    let shown = format!("{:?}", owned);
    assert!(shown.contains("List<u8>"));
    assert!(shown.contains("Integer"));
    assert!(shown.contains("unique_items: false"));
    let four = <[u8; 4] as SingleMediaType>::media_type(&mut components);
    let nine = <&'static [u8; 9] as SingleMediaType>::media_type(&mut components);
    let shared = <bytes::Bytes as SingleMediaType>::media_type(&mut components);
    assert_eq!(four, owned);
    assert_eq!(nine, owned);
    assert_eq!(shared, owned);
}

#[test]
fn default_request_content_is_the_single_representation() {
    let mut components = Components::new();
    let content = <String as MultiRequestMediaType>::content(&mut components);
    assert_eq!(content.len(), 1);
    let (key, value) = content.get_index(0).unwrap();
    assert_eq!(key, <String as MediaType>::MEDIA_TYPE);
    let mut again = Components::new();
    assert_eq!(*value, <String as SingleMediaType>::media_type(&mut again));
}

#[test]
fn default_response_content_is_the_single_representation() {
    let mut components = Components::new();
    let content = <Json<String> as MultiResponseMediaType>::content(&mut components);
    assert_eq!(content.len(), 1);
    let (key, value) = content.get_index(0).unwrap();
    assert_eq!(key, "application/json");
    let mut again = Components::new();
    assert_eq!(*value, <Json<String> as SingleMediaType>::media_type(&mut again));
    let bytes = <Vec<u8> as MultiResponseMediaType>::content(&mut components);
    assert_eq!(bytes.len(), 1);
    assert!(bytes.contains_key("application/octet-stream"));
    let form = <Form<String> as MultiRequestMediaType>::content(&mut components);
    assert_eq!(form.len(), 1);
    assert!(form.contains_key("application/x-www-form-urlencoded"));
}

#[test]
fn report_lists_what_it_is_given() {
    let expected = vec!["<a>".to_string(), "<b>".to_string(), "<c>".to_string()];
    assert_eq!(
        report_of(&expected, "<d>"),
        "invalid `content-type`: expected one of [<a>, <b>, <c>] but actual <d>"
    );
    assert_eq!(
        report_of(&Vec::new(), ""),
        "invalid `content-type`: expected one of [] but actual "
    );
    assert_eq!(
        report_of(&vec!["x".to_string()], "y"),
        "invalid `content-type`: expected one of [x] but actual y"
    );
}

#[test]
fn envelopes_give_their_value() {
    let json = Json(vec![1u8]);
    assert_eq!(json.len(), 1);
    assert_eq!(*json, vec![1u8]);
    let form = Form("x".to_string());
    assert_eq!(form.as_str(), "x");
}

struct TextOrJson;

impl MultiRequestMediaType for TextOrJson {
    fn spec_content(
        _: predawn::openapi::Registry,
    ) -> (predawn::keyed::Entries<predawn::openapi::MediaTypeObjectView>, predawn::openapi::Registry)
    {
        unreachable!()
    }

    fn content(components: &mut Components) -> predawn::openapi::Content {
        let mut content = <String as MultiRequestMediaType>::content(components);
        content.extend(<Json<String> as MultiRequestMediaType>::content(components));
        content
    }
}

#[test]
fn a_type_can_supply_its_own_representations() {
    let mut components = Components::new();
    let content = <TextOrJson as MultiRequestMediaType>::content(&mut components);
    let keys: Vec<&str> = content.keys().map(|k| k.as_str()).collect();
    assert_eq!(keys, vec!["text/plain; charset=utf-8", "application/json"]);
}
