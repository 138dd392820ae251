//! The media types of the primitive payloads.
//!
//! There are two families. Texts travel as `text/plain; charset=utf-8` and
//! are read only from that content type with that character set. Bytes
//! travel as `application/octet-stream` and are read from it whatever its
//! parameters. `String` and `Vec<u8>` say what holds of their family; every
//! other member hands over to them.

use vstd::prelude::*;
use crate::media_type::matcher::{has_media_type, header_matches};
use crate::media_type::{MediaType, RequestMediaType, ResponseMediaType, SingleMediaType};
use crate::openapi::{Components, MediaTypeObject, MediaTypeObjectView, Registry};
use crate::schema::{schema_ref, spec_schema_ref};

verus! {

/// `bytes`' shared byte buffer, known to Verus as an opaque type.
#[verifier::external_type_specification]
#[verifier::external_body]
pub struct ExBytes(bytes::Bytes);

/// `bytes`' growable byte buffer, known to Verus as an opaque type.
#[verifier::external_type_specification]
#[verifier::external_body]
pub struct ExBytesMut(bytes::BytesMut);

/// The content types that a text is read from: `text/plain`, or a `text`
/// type with the suffix `+plain`, with the character set UTF-8.
pub open spec fn is_text_content_type(content_type: Seq<char>) -> bool {
    header_matches(content_type, "text"@, "plain"@, "plain"@, Some(("charset"@, "utf-8"@)))
}

/// The content types that bytes are read from: `application/octet-stream`,
/// or an `application` type with that suffix, parameters ignored.
pub open spec fn is_bytes_content_type(content_type: Seq<char>) -> bool {
    header_matches(content_type, "application"@, "octet-stream"@, "octet-stream"@, None)
}

impl MediaType for String {
    const MEDIA_TYPE: &'static str = "text/plain; charset=utf-8";

    proof fn lemma_media_type_is_header_value() {
        reveal_strlit("text/plain; charset=utf-8");
    }
}

impl RequestMediaType for String {
    open spec fn accepts(content_type: Seq<char>) -> bool {
        is_text_content_type(content_type)
    }

    fn check_content_type(content_type: &str) -> (r: bool) {
        has_media_type(content_type, "text", "plain", "plain", Some(("charset", "utf-8")))
    }
}

impl ResponseMediaType for String {

}

impl SingleMediaType for String {
    open spec fn spec_media_type(reg: Registry) -> (MediaTypeObjectView, Registry) {
        let (schema, after) = spec_schema_ref::<String>(reg);
        (MediaTypeObjectView { schema: Some(schema) }, after)
    }

    fn media_type(components: &mut Components) -> (r: MediaTypeObject) {
        MediaTypeObject { schema: Some(schema_ref::<String>(components)) }
    }
}

impl MediaType for Vec<u8> {
    const MEDIA_TYPE: &'static str = "application/octet-stream";

    proof fn lemma_media_type_is_header_value() {
        reveal_strlit("application/octet-stream");
    }
}

impl RequestMediaType for Vec<u8> {
    open spec fn accepts(content_type: Seq<char>) -> bool {
        is_bytes_content_type(content_type)
    }

    fn check_content_type(content_type: &str) -> (r: bool) {
        has_media_type(content_type, "application", "octet-stream", "octet-stream", None)
    }
}

impl ResponseMediaType for Vec<u8> {

}

impl SingleMediaType for Vec<u8> {
    open spec fn spec_media_type(reg: Registry) -> (MediaTypeObjectView, Registry) {
        let (schema, after) = spec_schema_ref::<Vec<u8>>(reg);
        (MediaTypeObjectView { schema: Some(schema) }, after)
    }

    fn media_type(components: &mut Components) -> (r: MediaTypeObject) {
        MediaTypeObject { schema: Some(schema_ref::<Vec<u8>>(components)) }
    }
}

impl MediaType for &'static str {
    const MEDIA_TYPE: &'static str = String::MEDIA_TYPE;

    proof fn lemma_media_type_is_header_value() {
        String::lemma_media_type_is_header_value();
    }
}

impl RequestMediaType for &'static str {
    open spec fn accepts(content_type: Seq<char>) -> bool {
        String::accepts(content_type)
    }

    fn check_content_type(content_type: &str) -> (r: bool) {
        String::check_content_type(content_type)
    }
}

impl ResponseMediaType for &'static str {

}

impl SingleMediaType for &'static str {
    open spec fn spec_media_type(reg: Registry) -> (MediaTypeObjectView, Registry) {
        String::spec_media_type(reg)
    }

    fn media_type(components: &mut Components) -> (r: MediaTypeObject) {
        String::media_type(components)
    }
}

impl MediaType for std::borrow::Cow<'static, str> {
    const MEDIA_TYPE: &'static str = String::MEDIA_TYPE;

    proof fn lemma_media_type_is_header_value() {
        String::lemma_media_type_is_header_value();
    }
}

impl RequestMediaType for std::borrow::Cow<'static, str> {
    open spec fn accepts(content_type: Seq<char>) -> bool {
        String::accepts(content_type)
    }

    fn check_content_type(content_type: &str) -> (r: bool) {
        String::check_content_type(content_type)
    }
}

impl ResponseMediaType for std::borrow::Cow<'static, str> {

}

impl SingleMediaType for std::borrow::Cow<'static, str> {
    open spec fn spec_media_type(reg: Registry) -> (MediaTypeObjectView, Registry) {
        String::spec_media_type(reg)
    }

    fn media_type(components: &mut Components) -> (r: MediaTypeObject) {
        String::media_type(components)
    }
}

impl MediaType for Box<str> {
    const MEDIA_TYPE: &'static str = String::MEDIA_TYPE;

    proof fn lemma_media_type_is_header_value() {
        String::lemma_media_type_is_header_value();
    }
}

impl RequestMediaType for Box<str> {
    open spec fn accepts(content_type: Seq<char>) -> bool {
        String::accepts(content_type)
    }

    fn check_content_type(content_type: &str) -> (r: bool) {
        String::check_content_type(content_type)
    }
}

impl ResponseMediaType for Box<str> {

}

impl SingleMediaType for Box<str> {
    open spec fn spec_media_type(reg: Registry) -> (MediaTypeObjectView, Registry) {
        String::spec_media_type(reg)
    }

    fn media_type(components: &mut Components) -> (r: MediaTypeObject) {
        String::media_type(components)
    }
}

impl MediaType for &'static [u8] {
    const MEDIA_TYPE: &'static str = Vec::<u8>::MEDIA_TYPE;

    proof fn lemma_media_type_is_header_value() {
        Vec::<u8>::lemma_media_type_is_header_value();
    }
}

impl RequestMediaType for &'static [u8] {
    open spec fn accepts(content_type: Seq<char>) -> bool {
        Vec::<u8>::accepts(content_type)
    }

    fn check_content_type(content_type: &str) -> (r: bool) {
        Vec::<u8>::check_content_type(content_type)
    }
}

impl ResponseMediaType for &'static [u8] {

}

impl SingleMediaType for &'static [u8] {
    open spec fn spec_media_type(reg: Registry) -> (MediaTypeObjectView, Registry) {
        Vec::<u8>::spec_media_type(reg)
    }

    fn media_type(components: &mut Components) -> (r: MediaTypeObject) {
        Vec::<u8>::media_type(components)
    }
}

impl MediaType for std::borrow::Cow<'static, [u8]> {
    const MEDIA_TYPE: &'static str = Vec::<u8>::MEDIA_TYPE;

    proof fn lemma_media_type_is_header_value() {
        Vec::<u8>::lemma_media_type_is_header_value();
    }
}

impl RequestMediaType for std::borrow::Cow<'static, [u8]> {
    open spec fn accepts(content_type: Seq<char>) -> bool {
        Vec::<u8>::accepts(content_type)
    }

    fn check_content_type(content_type: &str) -> (r: bool) {
        Vec::<u8>::check_content_type(content_type)
    }
}

impl ResponseMediaType for std::borrow::Cow<'static, [u8]> {

}

impl SingleMediaType for std::borrow::Cow<'static, [u8]> {
    open spec fn spec_media_type(reg: Registry) -> (MediaTypeObjectView, Registry) {
        Vec::<u8>::spec_media_type(reg)
    }

    fn media_type(components: &mut Components) -> (r: MediaTypeObject) {
        Vec::<u8>::media_type(components)
    }
}

impl MediaType for bytes::Bytes {
    const MEDIA_TYPE: &'static str = Vec::<u8>::MEDIA_TYPE;

    proof fn lemma_media_type_is_header_value() {
        Vec::<u8>::lemma_media_type_is_header_value();
    }
}

impl RequestMediaType for bytes::Bytes {
    open spec fn accepts(content_type: Seq<char>) -> bool {
        Vec::<u8>::accepts(content_type)
    }

    fn check_content_type(content_type: &str) -> (r: bool) {
        Vec::<u8>::check_content_type(content_type)
    }
}

impl ResponseMediaType for bytes::Bytes {

}

impl SingleMediaType for bytes::Bytes {
    open spec fn spec_media_type(reg: Registry) -> (MediaTypeObjectView, Registry) {
        Vec::<u8>::spec_media_type(reg)
    }

    fn media_type(components: &mut Components) -> (r: MediaTypeObject) {
        Vec::<u8>::media_type(components)
    }
}

impl MediaType for bytes::BytesMut {
    const MEDIA_TYPE: &'static str = Vec::<u8>::MEDIA_TYPE;

    proof fn lemma_media_type_is_header_value() {
        Vec::<u8>::lemma_media_type_is_header_value();
    }
}

impl RequestMediaType for bytes::BytesMut {
    open spec fn accepts(content_type: Seq<char>) -> bool {
        Vec::<u8>::accepts(content_type)
    }

    fn check_content_type(content_type: &str) -> (r: bool) {
        Vec::<u8>::check_content_type(content_type)
    }
}

impl ResponseMediaType for bytes::BytesMut {

}

impl SingleMediaType for bytes::BytesMut {
    open spec fn spec_media_type(reg: Registry) -> (MediaTypeObjectView, Registry) {
        Vec::<u8>::spec_media_type(reg)
    }

    fn media_type(components: &mut Components) -> (r: MediaTypeObject) {
        Vec::<u8>::media_type(components)
    }
}

impl MediaType for Box<[u8]> {
    const MEDIA_TYPE: &'static str = Vec::<u8>::MEDIA_TYPE;

    proof fn lemma_media_type_is_header_value() {
        Vec::<u8>::lemma_media_type_is_header_value();
    }
}

impl RequestMediaType for Box<[u8]> {
    open spec fn accepts(content_type: Seq<char>) -> bool {
        Vec::<u8>::accepts(content_type)
    }

    fn check_content_type(content_type: &str) -> (r: bool) {
        Vec::<u8>::check_content_type(content_type)
    }
}

impl ResponseMediaType for Box<[u8]> {

}

impl SingleMediaType for Box<[u8]> {
    open spec fn spec_media_type(reg: Registry) -> (MediaTypeObjectView, Registry) {
        Vec::<u8>::spec_media_type(reg)
    }

    fn media_type(components: &mut Components) -> (r: MediaTypeObject) {
        Vec::<u8>::media_type(components)
    }
}

impl<const N: usize> MediaType for [u8; N] {
    const MEDIA_TYPE: &'static str = Vec::<u8>::MEDIA_TYPE;

    proof fn lemma_media_type_is_header_value() {
        Vec::<u8>::lemma_media_type_is_header_value();
    }
}

impl<const N: usize> RequestMediaType for [u8; N] {
    open spec fn accepts(content_type: Seq<char>) -> bool {
        Vec::<u8>::accepts(content_type)
    }

    fn check_content_type(content_type: &str) -> (r: bool) {
        Vec::<u8>::check_content_type(content_type)
    }
}

impl<const N: usize> ResponseMediaType for [u8; N] {

}

impl<const N: usize> SingleMediaType for [u8; N] {
    open spec fn spec_media_type(reg: Registry) -> (MediaTypeObjectView, Registry) {
        Vec::<u8>::spec_media_type(reg)
    }

    fn media_type(components: &mut Components) -> (r: MediaTypeObject) {
        Vec::<u8>::media_type(components)
    }
}

impl<const N: usize> MediaType for &'static [u8; N] {
    const MEDIA_TYPE: &'static str = Vec::<u8>::MEDIA_TYPE;

    proof fn lemma_media_type_is_header_value() {
        Vec::<u8>::lemma_media_type_is_header_value();
    }
}

impl<const N: usize> RequestMediaType for &'static [u8; N] {
    open spec fn accepts(content_type: Seq<char>) -> bool {
        Vec::<u8>::accepts(content_type)
    }

    fn check_content_type(content_type: &str) -> (r: bool) {
        Vec::<u8>::check_content_type(content_type)
    }
}

impl<const N: usize> ResponseMediaType for &'static [u8; N] {

}

impl<const N: usize> SingleMediaType for &'static [u8; N] {
    open spec fn spec_media_type(reg: Registry) -> (MediaTypeObjectView, Registry) {
        Vec::<u8>::spec_media_type(reg)
    }

    fn media_type(components: &mut Components) -> (r: MediaTypeObject) {
        Vec::<u8>::media_type(components)
    }
}

/// Every text has the media type, the test and the documentation of
/// `String`, and every kind of bytes those of `Vec<u8>`; the length of an
/// array of bytes plays no part.
pub proof fn lemma_primitive_families<const N: usize>(content_type: Seq<char>, reg: Registry)
    ensures
        <&'static str>::MEDIA_TYPE@ == String::MEDIA_TYPE@,
        Box::<str>::MEDIA_TYPE@ == String::MEDIA_TYPE@,
        <&'static str>::accepts(content_type) == is_text_content_type(content_type),
        Box::<str>::accepts(content_type) == is_text_content_type(content_type),
        <&'static str>::spec_media_type(reg) == String::spec_media_type(reg),
        Box::<str>::spec_media_type(reg) == String::spec_media_type(reg),
        <&'static [u8]>::MEDIA_TYPE@ == Vec::<u8>::MEDIA_TYPE@,
        bytes::Bytes::MEDIA_TYPE@ == Vec::<u8>::MEDIA_TYPE@,
        bytes::BytesMut::MEDIA_TYPE@ == Vec::<u8>::MEDIA_TYPE@,
        Box::<[u8]>::MEDIA_TYPE@ == Vec::<u8>::MEDIA_TYPE@,
        <[u8; N]>::MEDIA_TYPE@ == Vec::<u8>::MEDIA_TYPE@,
        <&'static [u8; N]>::MEDIA_TYPE@ == Vec::<u8>::MEDIA_TYPE@,
        <[u8; N]>::accepts(content_type) == is_bytes_content_type(content_type),
        <&'static [u8; N]>::accepts(content_type) == is_bytes_content_type(content_type),
        bytes::Bytes::accepts(content_type) == is_bytes_content_type(content_type),
        <[u8; N]>::spec_media_type(reg) == Vec::<u8>::spec_media_type(reg),
        <&'static [u8; N]>::spec_media_type(reg) == Vec::<u8>::spec_media_type(reg),
        bytes::Bytes::spec_media_type(reg) == Vec::<u8>::spec_media_type(reg),
{
}

/// Every text declares `text/plain; charset=utf-8`.
pub proof fn lemma_text_media_type()
    ensures
        String::MEDIA_TYPE@ == "text/plain; charset=utf-8"@,
        <&'static str>::MEDIA_TYPE@ == "text/plain; charset=utf-8"@,
        std::borrow::Cow::<'static, str>::MEDIA_TYPE@ == "text/plain; charset=utf-8"@,
        Box::<str>::MEDIA_TYPE@ == "text/plain; charset=utf-8"@,
{
}

/// Every kind of bytes declares `application/octet-stream`, an array of any
/// length included.
pub proof fn lemma_bytes_media_type<const N: usize>()
    ensures
        Vec::<u8>::MEDIA_TYPE@ == "application/octet-stream"@,
        <&'static [u8]>::MEDIA_TYPE@ == "application/octet-stream"@,
        std::borrow::Cow::<'static, [u8]>::MEDIA_TYPE@ == "application/octet-stream"@,
        bytes::Bytes::MEDIA_TYPE@ == "application/octet-stream"@,
        bytes::BytesMut::MEDIA_TYPE@ == "application/octet-stream"@,
        Box::<[u8]>::MEDIA_TYPE@ == "application/octet-stream"@,
        <[u8; N]>::MEDIA_TYPE@ == "application/octet-stream"@,
        <&'static [u8; N]>::MEDIA_TYPE@ == "application/octet-stream"@,
{
}

} // verus!
