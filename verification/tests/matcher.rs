use predawn::media_type::has_media_type;
use predawn::media_type::matcher::MediaTypeParts;

fn parts(type_: &str, subtype: &str, suffix: Option<&str>, params: &[(&str, &str)]) -> MediaTypeParts {
    MediaTypeParts {
        type_: type_.to_string(),
        subtype: subtype.to_string(),
        suffix: suffix.map(|s| s.to_string()),
        params: params.iter().map(|(k, v)| (k.to_string(), v.to_string())).collect(),
    }
}

#[test]
fn json_header_matches_json_target() {
    assert!(has_media_type("application/json", "application", "json", "json", None));
}

#[test]
fn suffix_satisfies_plain_target() {
    assert!(has_media_type("application/vnd.foo+json", "application", "json", "json", None));
    assert!(has_media_type("image/svg+xml", "image", "svg", "none", None));
    assert!(has_media_type("image/svg+xml", "image", "none", "xml", None));
    assert!(!has_media_type("image/svg+xml", "image", "xml", "svg", None));
}

#[test]
fn full_header_matches_its_own_parts() {
    let header = "text/plain+txt; charset=utf-8";
    assert!(has_media_type(header, "text", "plain", "txt", Some(("charset", "utf-8"))));
}

#[test]
fn changing_the_type_stops_the_match() {
    let header = "text/plain+txt; charset=utf-8";
    assert!(!has_media_type(header, "application", "plain", "txt", Some(("charset", "utf-8"))));
}

#[test]
fn changing_subtype_and_suffix_stops_the_match() {
    let header = "text/plain+txt; charset=utf-8";
    assert!(has_media_type(header, "text", "html", "txt", Some(("charset", "utf-8"))));
    assert!(has_media_type(header, "text", "plain", "xml", Some(("charset", "utf-8"))));
    assert!(!has_media_type(header, "text", "html", "xml", Some(("charset", "utf-8"))));
}

#[test]
fn changing_the_parameter_value_stops_the_match() {
    let header = "text/plain+txt; charset=utf-8";
    assert!(!has_media_type(header, "text", "plain", "txt", Some(("charset", "latin1"))));
}

#[test]
fn missing_parameter_stops_the_match() {
    assert!(!has_media_type("text/plain", "text", "plain", "plain", Some(("charset", "utf-8"))));
    assert!(!has_media_type(
        "text/plain; format=flowed",
        "text",
        "plain",
        "plain",
        Some(("charset", "utf-8"))
    ));
}

#[test]
fn extra_parameters_never_disqualify() {
    assert!(has_media_type(
        "application/json; charset=utf-8; version=2",
        "application",
        "json",
        "json",
        None
    ));
    assert!(has_media_type(
        "text/plain; format=flowed; charset=utf-8",
        "text",
        "plain",
        "plain",
        Some(("charset", "utf-8"))
    ));
}

#[test]
fn names_are_compared_without_case() {
    assert!(has_media_type("Application/JSON", "application", "json", "json", None));
    assert!(has_media_type("application/json", "APPLICATION", "Json", "json", None));
    assert!(has_media_type(
        "TEXT/PLAIN; CHARSET=UTF-8",
        "text",
        "plain",
        "plain",
        Some(("charset", "utf-8"))
    ));
    assert!(has_media_type(
        "text/plain; charset=utf-8",
        "text",
        "plain",
        "plain",
        Some(("Charset", "UTF-8"))
    ));
}

#[test]
fn other_parameter_values_are_compared_exactly() {
    let header = "multipart/form-data; boundary=ABCDEFG";
    assert!(has_media_type(header, "multipart", "form-data", "x", Some(("boundary", "ABCDEFG"))));
    assert!(has_media_type(header, "multipart", "form-data", "x", Some(("Boundary", "ABCDEFG"))));
    assert!(!has_media_type(header, "multipart", "form-data", "x", Some(("boundary", "abcdefg"))));
}

#[test]
fn quoted_parameter_value_is_read_without_its_quotes() {
    assert!(has_media_type(
        "text/plain; charset=\"utf-8\"",
        "text",
        "plain",
        "plain",
        Some(("charset", "utf-8"))
    ));
}

#[test]
fn malformed_header_matches_nothing() {
    assert!(!has_media_type("", "application", "json", "json", None));
    assert!(!has_media_type("application", "application", "json", "json", None));
    assert!(!has_media_type("/json", "application", "json", "json", None));
    assert!(!has_media_type("application/json; charset", "application", "json", "json", None));
    assert!(!has_media_type("application/json; a=\"b", "application", "json", "json", None));
    assert!(!has_media_type("appli cation/json", "application", "json", "json", None));
    assert!(!has_media_type("application/jsön", "application", "json", "json", None));
}

#[test]
fn parts_match_as_the_header_does() {
    let m = parts("text", "plain", Some("txt"), &[("charset", "utf-8")]);
    assert!(m.matches("text", "plain", "txt", Some(("charset", "utf-8"))));
    assert!(m.matches("text", "plain", "txt", None));
    assert!(m.matches("TEXT", "other", "TXT", None));
    assert!(!m.matches("image", "plain", "txt", None));
    assert!(!m.matches("text", "html", "xml", None));
    assert!(!m.matches("text", "plain", "txt", Some(("charset", "ascii"))));
    assert!(!m.matches("text", "plain", "txt", Some(("format", "utf-8"))));
}

#[test]
fn parts_without_suffix_need_the_subtype() {
    let m = parts("text", "plain", None, &[]);
    assert!(m.matches("text", "plain", "plain", None));
    assert!(!m.matches("text", "html", "plain", None));
    assert!(!m.matches("text", "plain", "plain", Some(("charset", "utf-8"))));
}

#[test]
fn first_parameter_of_a_name_decides() {
    let m = parts("a", "b", None, &[("k", "one"), ("K", "two")]);
    assert!(m.has_param("k", "one"));
    assert!(m.has_param("K", "one"));
    assert!(!m.has_param("k", "two"));
    assert!(!m.has_param("k", "ONE"));
}

#[test]
fn charset_value_is_compared_without_case() {
    let m = parts("a", "b", None, &[("charset", "utf-8")]);
    assert!(m.has_param("charset", "UTF-8"));
    assert!(m.has_param("CHARSET", "utf-8"));
    assert!(!m.has_param("charset", "utf-16"));
}
