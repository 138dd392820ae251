//! Media types: what a payload type declares, accepts and documents.
//!
//! A payload type can have up to six capabilities: a declared media type, a
//! test of inbound content types, a marker that lets it be served, a
//! producer of its one documented representation, and producers of all the
//! representations that it accepts and that it is served as. A type with the
//! first, the fourth and the second has the request producer by default, and
//! one with the first, the fourth and the third has the response producer:
//! in both the one representation under the declared media type.

pub mod invalid;
pub mod matcher;
pub mod primitives;

pub use self::invalid::InvalidContentType;
pub use self::matcher::has_media_type;

use vstd::prelude::*;
use crate::keyed::Entries;
use crate::openapi::{
    content_entries, single_content, Components, Content, MediaTypeObject, MediaTypeObjectView,
    Registry,
};
use crate::response::is_header_value;

verus! {

/// A type with a declared media type.
pub trait MediaType {
    /// The one content type that values of this type travel as.
    const MEDIA_TYPE: &'static str;

    /// The declared media type can stand as the value of a header.
    proof fn lemma_media_type_is_header_value()
        ensures
            is_header_value(Self::MEDIA_TYPE@),
    ;
}

/// A type that can be read from a request body.
pub trait RequestMediaType {
    /// The content types that this type is read from.
    spec fn accepts(content_type: Seq<char>) -> bool;

    /// Whether a request with this `Content-Type` header can be read.
    fn check_content_type(content_type: &str) -> (r: bool)
        ensures
            r == Self::accepts(content_type@),
    ;
}

/// A type that can be served as a response body.
pub trait ResponseMediaType {

}

/// A type that documents its one representation.
pub trait SingleMediaType {
    /// The media-type object of the type and the registry after it was
    /// produced, where the registry was `reg` before.
    spec fn spec_media_type(reg: Registry) -> (MediaTypeObjectView, Registry);

    /// The media-type object of the type. What its schema is made of is
    /// registered on the way.
    fn media_type(components: &mut Components) -> (r: MediaTypeObject)
        ensures
            r@ == Self::spec_media_type(old(components)@).0,
            final(components)@ == Self::spec_media_type(old(components)@).1,
    ;
}

/// A type that documents every representation it is read from.
pub trait MultiRequestMediaType {
    /// The content mapping of the type and the registry after it was
    /// produced, where the registry was `reg` before.
    spec fn spec_content(reg: Registry) -> (Entries<MediaTypeObjectView>, Registry);

    /// The content mapping of the type as a request body.
    fn content(components: &mut Components) -> (r: Content)
        ensures
            content_entries(r) == Self::spec_content(old(components)@).0,
            final(components)@ == Self::spec_content(old(components)@).1,
    ;
}

/// A type that documents every representation it is served as.
pub trait MultiResponseMediaType {
    /// The content mapping of the type and the registry after it was
    /// produced, where the registry was `reg` before.
    spec fn spec_content(reg: Registry) -> (Entries<MediaTypeObjectView>, Registry);

    /// The content mapping of the type as a response body.
    fn content(components: &mut Components) -> (r: Content)
        ensures
            content_entries(r) == Self::spec_content(old(components)@).0,
            final(components)@ == Self::spec_content(old(components)@).1,
    ;
}

/// The content mapping of a type with one representation: that
/// representation under the declared media type.
pub open spec fn spec_single_content<T: MediaType + SingleMediaType>(reg: Registry) -> (
    Entries<MediaTypeObjectView>,
    Registry,
) {
    let (object, after) = T::spec_media_type(reg);
    (seq![(T::MEDIA_TYPE@, object)], after)
}

impl<T: MediaType + SingleMediaType + RequestMediaType> MultiRequestMediaType for T {
    open spec fn spec_content(reg: Registry) -> (Entries<MediaTypeObjectView>, Registry) {
        spec_single_content::<T>(reg)
    }

    fn content(components: &mut Components) -> (r: Content) {
        let object = T::media_type(components);
        single_content(T::MEDIA_TYPE, object)
    }
}

impl<T: MediaType + SingleMediaType + ResponseMediaType> MultiResponseMediaType for T {
    open spec fn spec_content(reg: Registry) -> (Entries<MediaTypeObjectView>, Registry) {
        spec_single_content::<T>(reg)
    }

    fn content(components: &mut Components) -> (r: Content) {
        let object = T::media_type(components);
        single_content(T::MEDIA_TYPE, object)
    }
}

/// Accepts the types that can be served, and nothing else: a call compiles
/// only where `T` has the marker.
pub fn assert_response_media_type<T: ResponseMediaType>() {
}

/// The default composition.
///
/// The request mapping of a type that declares a media type, documents one
/// representation and tests inbound content types has exactly one entry. Its
/// key is the declared media type, its value is what the single producer
/// gives, and the registry is left as the single producer leaves it.
pub proof fn lemma_default_request_content<T: MediaType + SingleMediaType + RequestMediaType>(
    reg: Registry,
)
    ensures
        ({
            let (entries, after) = <T as MultiRequestMediaType>::spec_content(reg);
            &&& entries.len() == 1
            &&& entries[0].0 == T::MEDIA_TYPE@
            &&& entries[0].1 == T::spec_media_type(reg).0
            &&& after == T::spec_media_type(reg).1
        }),
{
}

/// The default composition, for responses: as for requests, of a type that
/// declares a media type, documents one representation and can be served.
pub proof fn lemma_default_response_content<T: MediaType + SingleMediaType + ResponseMediaType>(
    reg: Registry,
)
    ensures
        ({
            let (entries, after) = <T as MultiResponseMediaType>::spec_content(reg);
            &&& entries.len() == 1
            &&& entries[0].0 == T::MEDIA_TYPE@
            &&& entries[0].1 == T::spec_media_type(reg).0
            &&& after == T::spec_media_type(reg).1
        }),
{
}

} // verus!
