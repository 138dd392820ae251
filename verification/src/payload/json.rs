//! The JSON envelope.

use vstd::prelude::*;
use crate::api::{ApiRequest, RequestBodyView, ResponseObjectView, SingleResponse};
use crate::media_type::matcher::{has_media_type, header_matches};
use crate::media_type::{
    spec_single_content, MediaType, MultiRequestMediaType, MultiResponseMediaType,
    RequestMediaType, ResponseMediaType, SingleMediaType,
};
use crate::openapi::{
    Components, MediaTypeObject, MediaTypeObjectView, Registry, RequestBody, ResponseObject,
};
use crate::response::{content_type_name, no_headers, one_value, Response};
use crate::response_error::{
    json_error_category_of, read_json_error, JsonPathError, ReadJsonError, WriteJsonError,
};
use crate::schema::{schema_ref, spec_schema_ref, ToSchema};

verus! {

/// A value that travels as JSON.
#[derive(Debug, Default, Clone, Copy)]
pub struct Json<T>(pub T);

/// The content types that a JSON body is read from: `application/json`, and
/// any `application` type with the suffix `+json`, parameters ignored.
pub open spec fn is_json_content_type(content_type: Seq<char>) -> bool {
    header_matches(content_type, "application"@, "json"@, "json"@, None)
}

/// The text of a `Content-Type` header, empty where the header is absent.
pub open spec fn header_or_empty(content_type: Option<&str>) -> Seq<char> {
    match content_type {
        Some(text) => text@,
        None => Seq::empty(),
    }
}

/// The response that carries `body` declared as `media_type`: the status
/// 200 and the one header `Content-Type`.
pub open spec fn is_body_response(response: Response, media_type: Seq<char>, body: Seq<u8>) -> bool {
    &&& response.spec_status() == 200
    &&& response.spec_headers() == no_headers().insert(content_type_name(), one_value(media_type))
    &&& response.spec_body() == body
}

impl<T> std::ops::Deref for Json<T> {
    type Target = T;

    fn deref(&self) -> (r: &T)
        ensures
            *r == self.0,
    {
        &self.0
    }
}

impl<T> MediaType for Json<T> {
    const MEDIA_TYPE: &'static str = "application/json";

    proof fn lemma_media_type_is_header_value() {
        reveal_strlit("application/json");
    }
}

impl<T> RequestMediaType for Json<T> {
    open spec fn accepts(content_type: Seq<char>) -> bool {
        is_json_content_type(content_type)
    }

    fn check_content_type(content_type: &str) -> (r: bool) {
        has_media_type(content_type, "application", "json", "json", None)
    }
}

impl<T> ResponseMediaType for Json<T> {

}

impl<T: ToSchema> SingleMediaType for Json<T> {
    open spec fn spec_media_type(reg: Registry) -> (MediaTypeObjectView, Registry) {
        let (schema, after) = spec_schema_ref::<T>(reg);
        (MediaTypeObjectView { schema: Some(schema) }, after)
    }

    fn media_type(components: &mut Components) -> (r: MediaTypeObject) {
        MediaTypeObject { schema: Some(schema_ref::<T>(components)) }
    }
}

impl<T: ToSchema> ApiRequest for Json<T> {
    open spec fn spec_request_body(reg: Registry) -> (Option<RequestBodyView>, Registry) {
        let (content, after) = spec_single_content::<Json<T>>(reg);
        (Some(RequestBodyView { content, required: true }), after)
    }

    fn request_body(components: &mut Components) -> (r: Option<RequestBody>) {
        Some(
            RequestBody {
                content: <Self as MultiRequestMediaType>::content(components),
                required: true,
            },
        )
    }
}

impl<T: ToSchema> SingleResponse for Json<T> {
    open spec fn spec_response(reg: Registry) -> (ResponseObjectView, Registry) {
        let (content, after) = spec_single_content::<Json<T>>(reg);
        (ResponseObjectView { description: "JSON response"@, content }, after)
    }

    fn response(components: &mut Components) -> (r: ResponseObject) {
        ResponseObject {
            description: "JSON response".to_owned(),
            content: <Self as MultiResponseMediaType>::content(components),
        }
    }
}

impl<T> Json<T> {
    /// Decides from the `Content-Type` header of a request whether its body
    /// is to be read: it is where the header names a JSON content type, and
    /// the request is refused where it names another or is absent.
    pub fn from_request(content_type: Option<&str>) -> (r: Result<(), ReadJsonError>)
        ensures
            is_json_content_type(header_or_empty(content_type)) ==> r == Ok::<(), ReadJsonError>(()),
            !is_json_content_type(header_or_empty(content_type)) ==> r == Err::<(), ReadJsonError>(
                ReadJsonError::InvalidJsonContentType,
            ),
    {
        let content_type = match content_type {
            Some(text) => text,
            None => "",
        };
        proof {
            reveal_strlit("");
            assert(""@ =~= Seq::<char>::empty());
        }
        if <Self as RequestMediaType>::check_content_type(content_type) {
            Ok(())
        } else {
            Err(ReadJsonError::InvalidJsonContentType)
        }
    }

    /// What reading a JSON body gives, where decoding it gave `decoded`: the
    /// envelope of the decoded value, or the failure that the decoding error
    /// stands for.
    pub open spec fn read_outcome(
        decoded: Result<T, JsonPathError>,
        outcome: Result<Json<T>, ReadJsonError>,
    ) -> bool {
        match decoded {
            Ok(value) => outcome == Ok::<Json<T>, ReadJsonError>(Json(value)),
            Err(error) => outcome == Err::<Json<T>, ReadJsonError>(
                read_json_error(json_error_category_of(error), error),
            ),
        }
    }

    /// What serving a JSON value gives, where encoding it gave `encoded`:
    /// the response with the bytes as its body, declared as JSON; or the
    /// failure to encode, handed on.
    pub open spec fn write_outcome(
        encoded: Result<Vec<u8>, serde_json::Error>,
        outcome: Result<Response, WriteJsonError>,
    ) -> bool {
        match encoded {
            Ok(bytes) => outcome matches Ok(response) && is_body_response(
                response,
                "application/json"@,
                bytes@,
            ),
            Err(error) => outcome == Err::<Response, WriteJsonError>(WriteJsonError(error)),
        }
    }

    /// The envelope of a decoded value, or the failure that the decoding
    /// error stands for: a data error where the decoder reports data of the
    /// wrong shape, and a syntax error otherwise.
    pub fn from_decoded(decoded: Result<T, JsonPathError>) -> (r: Result<Json<T>, ReadJsonError>)
        ensures
            Self::read_outcome(decoded, r),
    {
        match decoded {
            Ok(value) => Ok(Json(value)),
            Err(error) => Err(ReadJsonError::from_decode_error(error)),
        }
    }

    /// Reads the bytes of a body with the decoder `decode`: what
    /// `from_decoded` makes of the outcome of `decode`.
    pub fn from_bytes<F: FnOnce(&[u8]) -> Result<T, JsonPathError>>(bytes: &[u8], decode: F) -> (r:
        Result<Json<T>, ReadJsonError>)
        requires
            call_requires(decode, (bytes,)),
        ensures
            exists|decoded: Result<T, JsonPathError>|
                call_ensures(decode, (bytes,), decoded) && Self::read_outcome(decoded, r),
    {
        Self::from_decoded(decode(bytes))
    }

    /// The response that serves an encoded value: the bytes as the body,
    /// declared as JSON; or the failure to encode, handed on.
    pub fn encoded_response(encoded: Result<Vec<u8>, serde_json::Error>) -> (r: Result<
        Response,
        WriteJsonError,
    >)
        ensures
            Self::write_outcome(encoded, r),
    {
        match encoded {
            Ok(bytes) => {
                let mut response = Response::new(bytes);
                proof {
                    Self::lemma_media_type_is_header_value();
                }
                response.set_content_type(Self::MEDIA_TYPE);
                Ok(response)
            },
            Err(error) => Err(WriteJsonError(error)),
        }
    }

    /// Serves the value with the encoder `encode`: what `encoded_response`
    /// makes of the outcome of `encode`.
    pub fn into_response<F: FnOnce(T) -> Result<Vec<u8>, serde_json::Error>>(self, encode: F) -> (r:
        Result<Response, WriteJsonError>)
        requires
            call_requires(encode, (self.0,)),
        ensures
            exists|encoded: Result<Vec<u8>, serde_json::Error>|
                call_ensures(encode, (self.0,), encoded) && Self::write_outcome(encoded, r),
    {
        Self::encoded_response(encode(self.0))
    }
}

/// A JSON envelope declares `application/json`, whatever it carries.
pub proof fn lemma_json_media_type<T>()
    ensures
        <Json<T> as MediaType>::MEDIA_TYPE@ == "application/json"@,
{
}

} // verus!
