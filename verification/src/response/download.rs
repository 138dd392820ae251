//! The download envelope: a payload served for display or as a file.

use vstd::prelude::*;
use vstd::string::StringExecFns;
use crate::api::{ResponseObjectView, SingleResponse};
use crate::media_type::{
    spec_single_content, MediaType, MultiResponseMediaType, ResponseMediaType, SingleMediaType,
};
use crate::openapi::{
    primitive_schema, Components, MediaTypeObject, MediaTypeObjectView, PrimitiveType, Registry,
    ResponseObject, Schema, SchemaView,
};
use crate::response::{
    check_header_value, content_disposition_name, content_type_name, is_header_char,
    is_header_value, one_value, Response,
};
use crate::response_error::DownloadError;
use crate::schema::name::{schema_name, spec_schema_name};
use crate::schema::{schema_ref, spec_schema_ref, ToSchema};

verus! {

/// A payload served as a download: shown in place, or saved under a name.
#[derive(Debug)]
pub struct Download<T> {
    data: T,
    file_name: Option<String>,
}

/// The path of `Download`, as the compiler writes the type.
pub const DOWNLOAD_TYPE: &'static str = "predawn::response::download::Download<T>";

/// The value of the `Content-Disposition` header of a download: `inline`,
/// or `attachment` with the file name in quotes.
pub open spec fn disposition(file_name: Option<Seq<char>>) -> Seq<char> {
    match file_name {
        Some(name) => "attachment; filename=\""@ + name + "\""@,
        None => "inline"@,
    }
}

/// Whether a download can be saved under `file_name`: the name, if there is
/// one, may stand in the value of a header.
pub open spec fn is_file_name(file_name: Option<Seq<char>>) -> bool {
    match file_name {
        Some(name) => is_header_value(name),
        None => true,
    }
}

/// The disposition of a download can stand in a header exactly where its
/// file name can.
pub proof fn lemma_disposition_is_header_value(file_name: Option<Seq<char>>)
    ensures
        is_header_value(disposition(file_name)) == is_file_name(file_name),
{
    reveal_strlit("attachment; filename=\"");
    reveal_strlit("\"");
    reveal_strlit("inline");
    match file_name {
        Some(name) => {
            let head = "attachment; filename=\""@;
            let value = disposition(file_name);
            if is_header_value(name) {
                assert forall|i: int| 0 <= i < value.len() implies is_header_char(
                    #[trigger] value[i],
                ) by {
                    if i < head.len() {
                        assert(value[i] == head[i]);
                    } else if i < head.len() + name.len() {
                        assert(value[i] == name[i - head.len()]);
                    }
                }
            }
            if is_header_value(value) {
                assert forall|i: int| 0 <= i < name.len() implies is_header_char(
                    #[trigger] name[i],
                ) by {
                    assert(name[i] == value[i + head.len()]);
                }
            }
        },
        None => {},
    }
}

/// What serving a download gives, where serving the payload itself gave
/// `inner`: the payload's failure; the failure of a file name that cannot
/// stand in a header; or the payload's response with the media type
/// declared anew and the disposition added.
pub open spec fn download_outcome<E>(
    inner: Result<Response, E>,
    media_type: Seq<char>,
    file_name: Option<Seq<char>>,
    outcome: Result<Response, DownloadError<E>>,
) -> bool {
    match inner {
        Err(error) => outcome == Err::<Response, DownloadError<E>>(DownloadError::Inner(error)),
        Ok(response) => if is_file_name(file_name) {
            &&& outcome matches Ok(served)
            &&& served.spec_status() == response.spec_status()
            &&& served.spec_body() == response.spec_body()
            &&& served.spec_headers() == response.spec_headers().insert(
                content_type_name(),
                one_value(media_type),
            ).insert(content_disposition_name(), one_value(disposition(file_name)))
        } else {
            &&& outcome matches Err(DownloadError::InvalidContentDisposition { file_name: name })
            &&& Some(name@) == file_name
        },
    }
}

impl<T> Download<T> {
    /// The payload this download carries.
    pub closed spec fn spec_data(&self) -> T {
        self.data
    }

    /// The name under which the download is saved, if it is to be saved.
    pub closed spec fn spec_file_name(&self) -> Option<Seq<char>> {
        match self.file_name {
            Some(name) => Some(name@),
            None => None,
        }
    }

    /// A download that is shown in place.
    pub fn inline(data: T) -> (r: Self)
        ensures
            r.spec_data() == data,
            r.spec_file_name().is_none(),
    {
        Download { data, file_name: None }
    }

    /// A download that is saved under `file_name`.
    pub fn attachment(data: T, file_name: &str) -> (r: Self)
        ensures
            r.spec_data() == data,
            r.spec_file_name() == Some(file_name@),
    {
        Download { data, file_name: Some(file_name.to_owned()) }
    }

    /// The name under which the download is saved, if it is to be saved.
    pub fn file_name(&self) -> (r: Option<&str>)
        ensures
            match r {
                Some(name) => self.spec_file_name() == Some(name@),
                None => self.spec_file_name().is_none(),
            },
    {
        match &self.file_name {
            Some(name) => Some(name.as_str()),
            None => None,
        }
    }

    /// The payload, out of its envelope.
    pub fn into_inner(self) -> (r: T)
        ensures
            r == self.spec_data(),
    {
        self.data
    }

    /// The value of the `Content-Disposition` header for `file_name`, or the
    /// failure that holds the name, where the name cannot stand in a header.
    pub fn content_disposition<E>(file_name: Option<String>) -> (r: Result<String, DownloadError<E>>)
        ensures
            match r {
                Ok(value) => {
                    &&& is_file_name(crate::openapi::option_text(file_name))
                    &&& value@ == disposition(crate::openapi::option_text(file_name))
                    &&& is_header_value(value@)
                },
                Err(error) => {
                    &&& !is_file_name(crate::openapi::option_text(file_name))
                    &&& Some(error) == match file_name {
                        Some(name) => Some(
                            DownloadError::<E>::InvalidContentDisposition { file_name: name },
                        ),
                        None => None,
                    }
                },
            },
    {
        proof {
            lemma_disposition_is_header_value(crate::openapi::option_text(file_name));
        }
        match file_name {
            Some(file_name) => {
                let mut value = "attachment; filename=\"".to_owned();
                value.append(file_name.as_str());
                value.append("\"");
                if check_header_value(value.as_str()) {
                    Ok(value)
                } else {
                    Err(DownloadError::InvalidContentDisposition { file_name })
                }
            },
            None => {
                proof {
                    reveal_strlit("inline");
                }
                Ok("inline".to_owned())
            },
        }
    }
}

impl<T: MediaType> Download<T> {
    /// The response that serves a download saved under `file_name`, from
    /// what serving the payload gave: the payload's response under the
    /// payload's declared media type, with the disposition added.
    pub fn respond<E>(file_name: Option<String>, inner: Result<Response, E>) -> (r: Result<
        Response,
        DownloadError<E>,
    >)
        ensures
            download_outcome(inner, T::MEDIA_TYPE@, crate::openapi::option_text(file_name), r),
    {
        let mut response = match inner {
            Ok(response) => response,
            Err(error) => {
                return Err(DownloadError::Inner(error));
            },
        };
        proof {
            T::lemma_media_type_is_header_value();
        }
        response.set_content_type(T::MEDIA_TYPE);
        match Self::content_disposition::<E>(file_name) {
            Ok(value) => {
                response.set_content_disposition(value.as_str());
                Ok(response)
            },
            Err(error) => Err(error),
        }
    }

    /// The response that serves the download, where `serve` serves the
    /// payload: what `respond` makes of the outcome of `serve`.
    pub fn into_response<E, F: FnOnce(T) -> Result<Response, E>>(self, serve: F) -> (r: Result<
        Response,
        DownloadError<E>,
    >)
        requires
            call_requires(serve, (self.spec_data(),)),
        ensures
            exists|inner: Result<Response, E>|
                call_ensures(serve, (self.spec_data(),), inner) && download_outcome(
                    inner,
                    T::MEDIA_TYPE@,
                    self.spec_file_name(),
                    r,
                ),
    {
        let Download { data, file_name } = self;
        let inner = serve(data);
        Self::respond(file_name, inner)
    }
}

impl<T> ToSchema for Download<T> {
    const REQUIRED: bool = true;

    open spec fn spec_name() -> Option<Seq<char>> {
        Some(spec_schema_name(DOWNLOAD_TYPE@))
    }

    open spec fn spec_schema(reg: Registry) -> (SchemaView, Registry) {
        (primitive_schema("Download"@, PrimitiveType::Binary), reg)
    }

    proof fn lemma_schema(reg: Registry) {
    }

    fn name() -> (r: Option<String>) {
        Some(schema_name(DOWNLOAD_TYPE))
    }

    fn schema(components: &mut Components) -> (r: Schema) {
        Schema::primitive("Download", PrimitiveType::Binary)
    }
}

impl<T: MediaType> MediaType for Download<T> {
    const MEDIA_TYPE: &'static str = T::MEDIA_TYPE;

    proof fn lemma_media_type_is_header_value() {
        T::lemma_media_type_is_header_value();
    }
}

impl<T: ResponseMediaType> ResponseMediaType for Download<T> {

}

impl<T> SingleMediaType for Download<T> {
    open spec fn spec_media_type(reg: Registry) -> (MediaTypeObjectView, Registry) {
        let (schema, after) = spec_schema_ref::<Download<T>>(reg);
        (MediaTypeObjectView { schema: Some(schema) }, after)
    }

    fn media_type(components: &mut Components) -> (r: MediaTypeObject) {
        MediaTypeObject { schema: Some(schema_ref::<Self>(components)) }
    }
}

impl<T: MediaType + ResponseMediaType> SingleResponse for Download<T> {
    open spec fn spec_response(reg: Registry) -> (ResponseObjectView, Registry) {
        let (content, after) = spec_single_content::<Download<T>>(reg);
        (ResponseObjectView { description: Seq::empty(), content }, after)
    }

    fn response(components: &mut Components) -> (r: ResponseObject) {
        ResponseObject {
            description: String::new(),
            content: <Self as MultiResponseMediaType>::content(components),
        }
    }
}

/// What a download carries plays no part in how it is documented: the
/// downloads of any two payloads have one name, one schema and one
/// media-type object, and register the same definition.
pub proof fn lemma_download_schema_ignores_payload<A, B>(reg: Registry)
    ensures
        Download::<A>::spec_name() == Download::<B>::spec_name(),
        Download::<A>::spec_schema(reg) == Download::<B>::spec_schema(reg),
        Download::<A>::spec_media_type(reg) == Download::<B>::spec_media_type(reg),
{
}

/// A download declares the media type of what it carries, and must be
/// present where it is a property, as any type but an optional one.
pub proof fn lemma_download_media_type<T: MediaType>()
    ensures
        <Download<T> as MediaType>::MEDIA_TYPE@ == T::MEDIA_TYPE@,
        <Download<T> as ToSchema>::REQUIRED,
{
}

} // verus!
