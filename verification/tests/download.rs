use predawn::api::SingleResponse;
use predawn::media_type::SingleMediaType;
use predawn::openapi::{Components, MediaTypeObject, PrimitiveType, Schema, SchemaKind, SchemaRef};
use predawn::payload::json::Json;
use predawn::response::download::Download;
use predawn::response::{check_header_value, Response};
use predawn::response_error::{DownloadError, WriteJsonError};
use predawn::schema::ToSchema;
use std::collections::BTreeMap;

fn serve_json<T: serde::Serialize>(json: Json<T>) -> Result<Response, WriteJsonError> {
    json.into_response(|value| serde_json::to_vec(&value))
}

#[test]
fn attachment_names_the_file() {
    let download = Download::attachment(Json(vec![1u8, 2]), "report.json");
    assert_eq!(download.file_name(), Some("report.json"));
    let response = download.into_response(serve_json).unwrap();
    let headers = response.headers();
    assert_eq!(headers.get("content-type").unwrap(), "application/json");
    assert_eq!(
        headers.get("content-disposition").unwrap(),
        "attachment; filename=\"report.json\""
    );
    assert_eq!(headers.len(), 2);
    assert_eq!(response.status(), 200);
    assert_eq!(response.body().as_slice(), b"[1,2]");
}

#[test]
fn inline_names_no_file() {
    let download = Download::inline(Json("x".to_string()));
    assert_eq!(download.file_name(), None);
    let response = download.into_response(serve_json).unwrap();
    let headers = response.headers();
    assert_eq!(headers.get("content-type").unwrap(), "application/json");
    assert_eq!(headers.get("content-disposition").unwrap(), "inline");
    assert_eq!(response.body().as_slice(), b"\"x\"");
}

#[test]
fn download_declares_the_media_type_of_its_payload() {
    let inner = Response::new(b"abc".to_vec());
    let served = Download::<Vec<u8>>::respond::<WriteJsonError>(None, Ok(inner)).unwrap();
    assert_eq!(served.headers().get("content-type").unwrap(), "application/octet-stream");
    assert_eq!(served.body().as_slice(), b"abc");
}

#[test]
fn file_name_that_cannot_stand_in_a_header() {
    let download = Download::attachment(Json(1u8), "bad\nname");
    match download.into_response(serve_json) {
        Err(DownloadError::InvalidContentDisposition { file_name }) => {
            assert_eq!(file_name, "bad\nname")
        }
        _ => panic!("a line break cannot stand in a header"),
    }
    let deleted = Download::<Json<u8>>::content_disposition::<WriteJsonError>(Some(
        "a\u{7f}b".to_string(),
    ));
    assert!(matches!(deleted, Err(DownloadError::InvalidContentDisposition { .. })));
}

#[test]
fn file_names_that_can_stand_in_a_header() {
    let tab = Download::<Json<u8>>::content_disposition::<WriteJsonError>(Some("a\tb".to_string()));
    assert_eq!(tab.unwrap(), "attachment; filename=\"a\tb\"");
    let accent =
        Download::<Json<u8>>::content_disposition::<WriteJsonError>(Some("caf\u{e9}".to_string()));
    assert_eq!(accent.unwrap(), "attachment; filename=\"caf\u{e9}\"");
    let none = Download::<Json<u8>>::content_disposition::<WriteJsonError>(None);
    assert_eq!(none.unwrap(), "inline");
}

#[test]
fn failure_of_the_payload_comes_first() {
    let mut value: BTreeMap<(u8, u8), u8> = BTreeMap::new();
    value.insert((1, 2), 3);
    let download = Download::attachment(Json(value), "bad\nname");
    assert!(matches!(download.into_response(serve_json), Err(DownloadError::Inner(_))));
}

#[test]
fn header_values() {
    assert!(check_header_value("inline"));
    assert!(check_header_value(""));
    assert!(check_header_value("a\tb"));
    assert!(check_header_value("caf\u{e9} \u{4e2d}"));
    assert!(!check_header_value("a\nb"));
    assert!(!check_header_value("a\rb"));
    assert!(!check_header_value("a\u{0}b"));
    assert!(!check_header_value("a\u{1f}b"));
    assert!(!check_header_value("a\u{7f}b"));
}

#[test]
fn download_is_documented_as_binary_whatever_it_carries() {
    let mut components = Components::new();
    let json = <Download<Json<u8>> as SingleMediaType>::media_type(&mut components);
    let bytes = <Download<Vec<u8>> as SingleMediaType>::media_type(&mut components);
    let reference = SchemaRef::Reference {
        reference: "#/components/schemas/predawn.response.download.Download".to_string(),
    };
    assert_eq!(json, MediaTypeObject { schema: Some(reference) });
    assert_eq!(json, bytes);
    assert_eq!(components.len(), 1);
    assert_eq!(
        components.get("predawn.response.download.Download"),
        Some(&Schema {
            title: Some("Download".to_string()),
            nullable: false,
            kind: SchemaKind::Primitive(PrimitiveType::Binary),
        })
    );
    assert_eq!(
        <Download<Json<u8>> as ToSchema>::name(),
        Some("predawn.response.download.Download".to_string())
    );
}

#[test]
fn download_response_documents_the_payload_media_type() {
    let mut components = Components::new();
    let response = <Download<Json<u8>> as SingleResponse>::response(&mut components);
    assert_eq!(response.description, "");
    assert_eq!(response.content.len(), 1);
    assert!(response.content.contains_key("application/json"));
}

#[test]
fn download_gives_its_payload_back() {
    let download = Download::attachment(7u8, "seven");
    assert_eq!(download.into_inner(), 7);
}

#[test]
fn new_response_has_no_headers() {
    let mut response = Response::new(vec![1, 2]);
    assert_eq!(response.status(), 200);
    assert!(response.headers().is_empty());
    assert_eq!(response.body(), &vec![1, 2]);
    response.set_content_type("text/plain");
    response.set_content_type("text/html");
    assert_eq!(response.headers().len(), 1);
    assert_eq!(response.headers().get("content-type").unwrap(), "text/html");
    response.set_content_disposition("inline");
    assert_eq!(response.headers().len(), 2);
    assert_eq!(response.headers().get("content-type").unwrap(), "text/html");
}

#[test]
fn header_values_are_those_that_http_takes() {
    for code in 0u32..0x3000 {
        if let Some(c) = char::from_u32(code) {
            let text = format!("a{}b", c);
            assert_eq!(
                check_header_value(&text),
                http::HeaderValue::from_str(&text).is_ok(),
                "{:?}",
                text
            );
        }
    }
    assert!(check_header_value("\u{10ffff}"));
    assert!(http::HeaderValue::from_str("\u{10ffff}").is_ok());
}

#[test]
fn download_of_a_text_declares_plain_text() {
    let inner = Response::new(b"hi".to_vec());
    let served = Download::inline("hi".to_string()).into_response(|_| Ok::<_, WriteJsonError>(inner));
    let served = served.unwrap();
    assert_eq!(served.body().as_slice(), b"hi");
    assert_eq!(served.headers().get("content-type").unwrap(), "text/plain; charset=utf-8");
    assert_eq!(served.headers().get_all("content-type").iter().count(), 1);
    assert_eq!(served.headers().get("content-disposition").unwrap(), "inline");
}
