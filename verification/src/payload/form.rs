//! The form envelope.

use vstd::prelude::*;
use vstd::string::StrSliceExecFns;
use crate::api::{ApiRequest, RequestBodyView, ResponseObjectView, SingleResponse};
use crate::media_type::matcher::{has_media_type, header_matches};
use crate::media_type::{
    spec_single_content, MediaType, MultiRequestMediaType, MultiResponseMediaType,
    RequestMediaType, ResponseMediaType, SingleMediaType,
};
use crate::openapi::{
    Components, MediaTypeObject, MediaTypeObjectView, Registry, RequestBody, ResponseObject,
};
use crate::payload::json::{header_or_empty, is_body_response};
use crate::response::{text_bytes, Response};
use crate::response_error::{ReadFormError, WriteFormError};
use crate::schema::{schema_ref, spec_schema_ref, ToSchema};

verus! {

/// A value that travels as a URL-encoded form.
#[derive(Debug, Default, Clone, Copy)]
pub struct Form<T>(pub T);

/// The content types that a form body is read from:
/// `application/x-www-form-urlencoded`, and any `application` type with
/// that suffix, parameters ignored.
pub open spec fn is_form_content_type(content_type: Seq<char>) -> bool {
    header_matches(
        content_type,
        "application"@,
        "x-www-form-urlencoded"@,
        "x-www-form-urlencoded"@,
        None,
    )
}

impl<T> std::ops::Deref for Form<T> {
    type Target = T;

    fn deref(&self) -> (r: &T)
        ensures
            *r == self.0,
    {
        &self.0
    }
}

impl<T> MediaType for Form<T> {
    const MEDIA_TYPE: &'static str = "application/x-www-form-urlencoded";

    proof fn lemma_media_type_is_header_value() {
        reveal_strlit("application/x-www-form-urlencoded");
    }
}

impl<T> RequestMediaType for Form<T> {
    open spec fn accepts(content_type: Seq<char>) -> bool {
        is_form_content_type(content_type)
    }

    fn check_content_type(content_type: &str) -> (r: bool) {
        has_media_type(
            content_type,
            "application",
            "x-www-form-urlencoded",
            "x-www-form-urlencoded",
            None,
        )
    }
}

impl<T> ResponseMediaType for Form<T> {

}

impl<T: ToSchema> SingleMediaType for Form<T> {
    open spec fn spec_media_type(reg: Registry) -> (MediaTypeObjectView, Registry) {
        let (schema, after) = spec_schema_ref::<T>(reg);
        (MediaTypeObjectView { schema: Some(schema) }, after)
    }

    fn media_type(components: &mut Components) -> (r: MediaTypeObject) {
        MediaTypeObject { schema: Some(schema_ref::<T>(components)) }
    }
}

impl<T: ToSchema> ApiRequest for Form<T> {
    open spec fn spec_request_body(reg: Registry) -> (Option<RequestBodyView>, Registry) {
        let (content, after) = spec_single_content::<Form<T>>(reg);
        (Some(RequestBodyView { content, required: true }), after)
    }

    fn request_body(components: &mut Components) -> (r: Option<RequestBody>) {
        Some(
            RequestBody {
                content: <Self as MultiRequestMediaType>::content(components),
                required: true,
            },
        )
    }
}

impl<T: ToSchema> SingleResponse for Form<T> {
    open spec fn spec_response(reg: Registry) -> (ResponseObjectView, Registry) {
        let (content, after) = spec_single_content::<Form<T>>(reg);
        (ResponseObjectView { description: "FORM response"@, content }, after)
    }

    fn response(components: &mut Components) -> (r: ResponseObject) {
        ResponseObject {
            description: "FORM response".to_owned(),
            content: <Self as MultiResponseMediaType>::content(components),
        }
    }
}

impl<T> Form<T> {
    /// Decides from the `Content-Type` header of a request whether its body
    /// is to be read: it is where the header names the content type of a
    /// form, and the request is refused where it names another or is absent.
    pub fn from_request(content_type: Option<&str>) -> (r: Result<(), ReadFormError>)
        ensures
            is_form_content_type(header_or_empty(content_type)) ==> r == Ok::<(), ReadFormError>(()),
            !is_form_content_type(header_or_empty(content_type)) ==> r == Err::<(), ReadFormError>(
                ReadFormError::InvalidFormContentType,
            ),
    {
        let content_type = match content_type {
            Some(text) => text,
            None => "",
        };
        proof {
            reveal_strlit("");
            assert(""@ =~= Seq::<char>::empty());
        }
        if <Self as RequestMediaType>::check_content_type(content_type) {
            Ok(())
        } else {
            Err(ReadFormError::InvalidFormContentType)
        }
    }

    /// What reading a form body gives, where decoding it gave `decoded`: the
    /// envelope of the decoded value, or the failure that holds the decoding
    /// error.
    pub open spec fn read_outcome(
        decoded: Result<T, serde::de::value::Error>,
        outcome: Result<Form<T>, ReadFormError>,
    ) -> bool {
        outcome == match decoded {
            Ok(value) => Ok::<Form<T>, ReadFormError>(Form(value)),
            Err(error) => Err::<Form<T>, ReadFormError>(ReadFormError::FormDeserializeError(error)),
        }
    }

    /// What serving a form gives, where encoding it gave `encoded`: the
    /// response with the bytes of the text as its body, declared as a form;
    /// or the failure to encode, handed on.
    pub open spec fn write_outcome(
        encoded: Result<String, serde_html_form::ser::Error>,
        outcome: Result<Response, WriteFormError>,
    ) -> bool {
        match encoded {
            Ok(text) => outcome matches Ok(response) && is_body_response(
                response,
                "application/x-www-form-urlencoded"@,
                text_bytes(text@),
            ),
            Err(error) => outcome == Err::<Response, WriteFormError>(WriteFormError(error)),
        }
    }

    /// The envelope of a decoded value, or the failure that holds the
    /// decoding error.
    pub fn from_decoded(decoded: Result<T, serde::de::value::Error>) -> (r: Result<
        Form<T>,
        ReadFormError,
    >)
        ensures
            Self::read_outcome(decoded, r),
    {
        match decoded {
            Ok(value) => Ok(Form(value)),
            Err(error) => Err(ReadFormError::FormDeserializeError(error)),
        }
    }

    /// Reads the bytes of a body with the decoder `decode`: what
    /// `from_decoded` makes of the outcome of `decode`.
    pub fn from_bytes<F: FnOnce(&[u8]) -> Result<T, serde::de::value::Error>>(
        bytes: &[u8],
        decode: F,
    ) -> (r: Result<Form<T>, ReadFormError>)
        requires
            call_requires(decode, (bytes,)),
        ensures
            exists|decoded: Result<T, serde::de::value::Error>|
                call_ensures(decode, (bytes,), decoded) && Self::read_outcome(decoded, r),
    {
        Self::from_decoded(decode(bytes))
    }

    /// The response that serves an encoded value: the bytes of the text as
    /// the body, declared as a form; or the failure to encode, handed on.
    pub fn encoded_response(encoded: Result<String, serde_html_form::ser::Error>) -> (r: Result<
        Response,
        WriteFormError,
    >)
        ensures
            Self::write_outcome(encoded, r),
    {
        match encoded {
            Ok(text) => {
                let mut response = Response::new(text.as_str().as_bytes_vec());
                proof {
                    Self::lemma_media_type_is_header_value();
                }
                response.set_content_type(Self::MEDIA_TYPE);
                Ok(response)
            },
            Err(error) => Err(WriteFormError(error)),
        }
    }

    /// Serves the value with the encoder `encode`: what `encoded_response`
    /// makes of the outcome of `encode`.
    pub fn into_response<F: FnOnce(T) -> Result<String, serde_html_form::ser::Error>>(
        self,
        encode: F,
    ) -> (r: Result<Response, WriteFormError>)
        requires
            call_requires(encode, (self.0,)),
        ensures
            exists|encoded: Result<String, serde_html_form::ser::Error>|
                call_ensures(encode, (self.0,), encoded) && Self::write_outcome(encoded, r),
    {
        Self::encoded_response(encode(self.0))
    }
}

/// A form envelope declares `application/x-www-form-urlencoded`, whatever it
/// carries.
pub proof fn lemma_form_media_type<T>()
    ensures
        <Form<T> as MediaType>::MEDIA_TYPE@ == "application/x-www-form-urlencoded"@,
{
}

} // verus!
