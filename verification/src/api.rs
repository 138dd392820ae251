//! What a payload type contributes to the documentation of an operation.

use vstd::prelude::*;
use crate::keyed::Entries;
use crate::openapi::{
    content_entries, Components, MediaTypeObjectView, Registry, RequestBody, ResponseObject,
};

verus! {

/// The mathematical value of a `RequestBody`.
pub ghost struct RequestBodyView {
    pub content: Entries<MediaTypeObjectView>,
    pub required: bool,
}

/// The mathematical value of a `ResponseObject`.
pub ghost struct ResponseObjectView {
    pub description: Seq<char>,
    pub content: Entries<MediaTypeObjectView>,
}

impl View for RequestBody {
    type V = RequestBodyView;

    open spec fn view(&self) -> RequestBodyView {
        RequestBodyView { content: content_entries(self.content), required: self.required }
    }
}

impl View for ResponseObject {
    type V = ResponseObjectView;

    open spec fn view(&self) -> ResponseObjectView {
        ResponseObjectView {
            description: self.description@,
            content: content_entries(self.content),
        }
    }
}

/// A type that documents the request body it is read from.
pub trait ApiRequest {
    /// The request body of the type, if it has one, and the registry after
    /// it was produced, where the registry was `reg` before.
    spec fn spec_request_body(reg: Registry) -> (Option<RequestBodyView>, Registry);

    /// The documentation of the request body.
    fn request_body(components: &mut Components) -> (r: Option<RequestBody>)
        ensures
            match r {
                Some(body) => Self::spec_request_body(old(components)@).0 == Some(body@),
                None => Self::spec_request_body(old(components)@).0.is_none(),
            },
            final(components)@ == Self::spec_request_body(old(components)@).1,
    ;
}

/// A type that documents the one response it is served as.
pub trait SingleResponse {
    /// The response of the type and the registry after it was produced,
    /// where the registry was `reg` before.
    spec fn spec_response(reg: Registry) -> (ResponseObjectView, Registry);

    /// The documentation of the response.
    fn response(components: &mut Components) -> (r: ResponseObject)
        ensures
            r@ == Self::spec_response(old(components)@).0,
            final(components)@ == Self::spec_response(old(components)@).1,
    ;
}

} // verus!
