//! Responses: a status, the headers and the bytes of the body.

pub mod download;

use vstd::prelude::*;
use http::{HeaderMap, HeaderName, HeaderValue};
use crate::text::chars_of;

verus! {

/// `http`'s header map, known to Verus as an opaque type.
#[verifier::external_type_specification]
#[verifier::external_body]
#[verifier::reject_recursive_types(T)]
pub struct ExHeaderMap<T>(HeaderMap<T>);

/// `http`'s header value, known to Verus as an opaque type.
#[verifier::external_type_specification]
#[verifier::external_body]
pub struct ExHeaderValue(HeaderValue);

/// The headers of a message: for each header name that is present, the bytes
/// of each of its values, in their order.
pub type Headers = Map<Seq<char>, Seq<Seq<u8>>>;

/// What a header map holds.
pub uninterp spec fn header_values(headers: HeaderMap<HeaderValue>) -> Headers;

/// No header at all.
pub open spec fn no_headers() -> Headers {
    Map::empty()
}

/// The name of the header that declares the media type of a body.
pub open spec fn content_type_name() -> Seq<char> {
    "content-type"@
}

/// The name of the header that says how a body is to be presented.
pub open spec fn content_disposition_name() -> Seq<char> {
    "content-disposition"@
}

/// The two headers that this crate writes have different names, so that
/// setting one leaves the other as it was.
pub proof fn lemma_header_names_differ()
    ensures
        content_type_name() != content_disposition_name(),
{
    reveal_strlit("content-type");
    reveal_strlit("content-disposition");
    assert(content_type_name().len() != content_disposition_name().len());
}

/// The bytes that a text travels as.
pub open spec fn text_bytes(text: Seq<char>) -> Seq<u8> {
    vstd::utf8::encode_utf8(text)
}

/// The one value that a header set to `text` has.
pub open spec fn one_value(text: Seq<char>) -> Seq<Seq<u8>> {
    seq![text_bytes(text)]
}

/// A character that may stand in the value of a header: a tab, or anything
/// from the space on but the delete character.
pub open spec fn is_header_char(c: char) -> bool {
    c == '\t' || (' ' <= c && c != '\x7f')
}

/// A text that may stand as the value of a header.
pub open spec fn is_header_value(text: Seq<char>) -> bool {
    forall|i: int| 0 <= i < text.len() ==> is_header_char(#[trigger] text[i])
}

/// A header map without entries. Trusted: the body is `HeaderMap::new`.
#[verifier::external_body]
fn new_headers() -> (r: HeaderMap<HeaderValue>)
    ensures
        header_values(r) == no_headers(),
{
    HeaderMap::new()
}

/// The names of the headers that this crate writes.
pub open spec fn written_names() -> Set<Seq<char>> {
    set![content_type_name(), content_disposition_name()]
}

/// Sets the header `name` to `value`. Trusted: the body is
/// `HeaderMap::insert`, which associates the name with the new value alone,
/// in place of every value that it had, and leaves the other names as they
/// were. The name is one of the two
/// standard headers that this crate writes, so `HeaderName::from_static`
/// takes it. The value is made by `HeaderValue::from_str`, which fails only
/// on a text with a byte below 32 other than the tab, or with the byte 127;
/// the bytes of a character beyond ASCII are all above 127, so a text that
/// `is_header_value` holds of is taken. And a map that holds no other name
/// than those two is far from the size at which `insert` gives up.
#[verifier::external_body]
fn insert_header(headers: &mut HeaderMap<HeaderValue>, name: &'static str, value: &str)
    requires
        name@ == content_type_name() || name@ == content_disposition_name(),
        is_header_value(value@),
        header_values(*old(headers)).dom().subset_of(written_names()),
    ensures
        header_values(*final(headers)) == header_values(*old(headers)).insert(
            name@,
            one_value(value@),
        ),
{
    headers.insert(HeaderName::from_static(name), HeaderValue::from_str(value).unwrap());
}

/// A response: the status, the headers and the bytes of the body.
#[derive(Debug)]
pub struct Response {
    status: u16,
    headers: HeaderMap<HeaderValue>,
    body: Vec<u8>,
}

impl Response {
    #[verifier::type_invariant]
    spec fn headers_are_written_names(self) -> bool {
        header_values(self.headers).dom().subset_of(written_names())
    }

    /// The status code.
    pub closed spec fn spec_status(&self) -> u16 {
        self.status
    }

    /// The headers.
    pub closed spec fn spec_headers(&self) -> Headers {
        header_values(self.headers)
    }

    /// The bytes of the body.
    pub closed spec fn spec_body(&self) -> Seq<u8> {
        self.body@
    }

    /// A response with the status 200 and the given body, without headers.
    pub fn new(body: Vec<u8>) -> (r: Response)
        ensures
            r.spec_status() == 200,
            r.spec_headers() == no_headers(),
            r.spec_body() == body@,
    {
        let headers = new_headers();
        assert(header_values(headers).dom() =~= Set::<Seq<char>>::empty());
        Response { status: 200, headers, body }
    }

    /// The status code.
    pub fn status(&self) -> (r: u16)
        ensures
            r == self.spec_status(),
    {
        self.status
    }

    /// The headers.
    pub fn headers(&self) -> (r: &HeaderMap<HeaderValue>)
        ensures
            header_values(*r) == self.spec_headers(),
    {
        &self.headers
    }

    /// The bytes of the body.
    pub fn body(&self) -> (r: &Vec<u8>)
        ensures
            r@ == self.spec_body(),
    {
        &self.body
    }

    /// The status, the headers and the body, each on its own.
    pub fn into_parts(self) -> (r: (u16, HeaderMap<HeaderValue>, Vec<u8>))
        ensures
            r.0 == self.spec_status(),
            header_values(r.1) == self.spec_headers(),
            r.2@ == self.spec_body(),
    {
        (self.status, self.headers, self.body)
    }

    /// Sets one of the headers that this crate writes.
    fn set_header(&mut self, name: &'static str, value: &str)
        requires
            name@ == content_type_name() || name@ == content_disposition_name(),
            is_header_value(value@),
        ensures
            final(self).spec_status() == old(self).spec_status(),
            final(self).spec_body() == old(self).spec_body(),
            final(self).spec_headers() == old(self).spec_headers().insert(name@, one_value(value@)),
    {
        proof {
            use_type_invariant(&*self);
        }
        let mut headers = new_headers();
        assert(header_values(headers).dom() =~= Set::<Seq<char>>::empty());
        std::mem::swap(&mut self.headers, &mut headers);
        insert_header(&mut headers, name, value);
        assert(header_values(headers).dom() =~= old(self).spec_headers().dom().insert(name@));
        std::mem::swap(&mut self.headers, &mut headers);
    }

    /// Declares the media type of the body, in place of what was declared.
    pub fn set_content_type(&mut self, media_type: &str)
        requires
            is_header_value(media_type@),
        ensures
            final(self).spec_status() == old(self).spec_status(),
            final(self).spec_body() == old(self).spec_body(),
            final(self).spec_headers() == old(self).spec_headers().insert(
                content_type_name(),
                one_value(media_type@),
            ),
    {
        self.set_header("content-type", media_type);
    }

    /// Says how the body is to be presented, in place of what was said.
    pub fn set_content_disposition(&mut self, disposition: &str)
        requires
            is_header_value(disposition@),
        ensures
            final(self).spec_status() == old(self).spec_status(),
            final(self).spec_body() == old(self).spec_body(),
            final(self).spec_headers() == old(self).spec_headers().insert(
                content_disposition_name(),
                one_value(disposition@),
            ),
    {
        self.set_header("content-disposition", disposition);
    }
}

/// Whether `c` may stand in the value of a header.
fn check_header_char(c: char) -> (r: bool)
    ensures
        r == is_header_char(c),
{
    c == '\t' || (' ' <= c && c != '\x7f')
}

/// Whether `text` may stand as the value of a header.
pub fn check_header_value(text: &str) -> (r: bool)
    ensures
        r == is_header_value(text@),
{
    let chars = chars_of(text);
    let mut i: usize = 0;
    while i < chars.len()
        invariant
            i <= chars.len(),
            chars@ == text@,
            forall|j: int| 0 <= j < i ==> is_header_char(#[trigger] chars@[j]),
        decreases chars.len() - i,
    {
        if !check_header_char(chars[i]) {
            return false;
        }
        i += 1;
    }
    true
}

} // verus!
