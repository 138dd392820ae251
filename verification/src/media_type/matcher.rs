//! The content-type matcher: does a raw `Content-Type` header name a given
//! media type?
//!
//! The header is parsed by the `mime` crate. What the matcher then decides is
//! stated over the parts of the parsed value, `MediaTypePartsView`.

use vstd::prelude::*;
use crate::text::{eq_ignore_ascii_case, str_eq, str_eq_ignore_ascii_case};

verus! {

/// The parts of a parsed media type, `type/subtype+suffix; name=value; ...`.
#[derive(Debug)]
pub struct MediaTypeParts {
    /// The top-level type, before the slash.
    pub type_: String,
    /// The subtype: after the slash, up to the last `+` if there is one.
    pub subtype: String,
    /// The structured-syntax suffix, after the last `+` of the subtype.
    pub suffix: Option<String>,
    /// The parameters, as `(name, value)` pairs in header order.
    pub params: Vec<(String, String)>,
}

/// The mathematical value of a `MediaTypeParts`.
pub ghost struct MediaTypePartsView {
    pub type_: Seq<char>,
    pub subtype: Seq<char>,
    pub suffix: Option<Seq<char>>,
    pub params: Seq<(Seq<char>, Seq<char>)>,
}

/// The `(name, value)` pairs of a parameter list as texts.
pub open spec fn params_view(params: Seq<(String, String)>) -> Seq<(Seq<char>, Seq<char>)> {
    Seq::new(params.len(), |i: int| (params[i].0@, params[i].1@))
}

impl View for MediaTypeParts {
    type V = MediaTypePartsView;

    open spec fn view(&self) -> MediaTypePartsView {
        MediaTypePartsView {
            type_: self.type_@,
            subtype: self.subtype@,
            suffix: match self.suffix {
                Some(s) => Some(s@),
                None => None,
            },
            params: params_view(self.params@),
        }
    }
}

/// What the `mime` crate makes of a header: the parts of the media type, or
/// `None` where the header is not one.
pub uninterp spec fn parsed_media_type(header: Seq<char>) -> Option<MediaTypePartsView>;

/// The name of the one parameter whose value is compared without regard to
/// ASCII case.
pub open spec fn charset_name() -> Seq<char> {
    seq!['c', 'h', 'a', 'r', 's', 'e', 't']
}

/// The first parameter of `params` whose name is `key`, ASCII case ignored.
pub open spec fn find_param(params: Seq<(Seq<char>, Seq<char>)>, key: Seq<char>) -> Option<
    (Seq<char>, Seq<char>),
>
    decreases params.len(),
{
    if params.len() == 0 {
        None
    } else if eq_ignore_ascii_case(params[0].0, key) {
        Some(params[0])
    } else {
        find_param(params.skip(1), key)
    }
}

/// A parameter `name=value` carries the value `expected`: exactly, but for
/// `charset`, whose value is compared without regard to ASCII case.
pub open spec fn param_value_is(name: Seq<char>, value: Seq<char>, expected: Seq<char>) -> bool {
    if name == charset_name() {
        eq_ignore_ascii_case(value, expected)
    } else {
        value == expected
    }
}

/// `params` carries the parameter `key` with the value `expected`.
pub open spec fn has_param(
    params: Seq<(Seq<char>, Seq<char>)>,
    key: Seq<char>,
    expected: Seq<char>,
) -> bool {
    match find_param(params, key) {
        Some((name, value)) => param_value_is(name, value, expected),
        None => false,
    }
}

/// A parsed media type satisfies a target: the top-level types agree, the
/// subtype or the suffix agrees, and a required parameter is carried with
/// its value. Without a required parameter the parameters play no part.
pub open spec fn media_type_matches(
    m: MediaTypePartsView,
    ty: Seq<char>,
    subtype: Seq<char>,
    suffix: Seq<char>,
    param: Option<(Seq<char>, Seq<char>)>,
) -> bool {
    &&& eq_ignore_ascii_case(m.type_, ty)
    &&& (eq_ignore_ascii_case(m.subtype, subtype) || match m.suffix {
        Some(s) => eq_ignore_ascii_case(s, suffix),
        None => false,
    })
    &&& match param {
        Some((key, value)) => has_param(m.params, key, value),
        None => true,
    }
}

/// A raw header satisfies a target: it parses, and what it parses to matches.
pub open spec fn header_matches(
    header: Seq<char>,
    ty: Seq<char>,
    subtype: Seq<char>,
    suffix: Seq<char>,
    param: Option<(Seq<char>, Seq<char>)>,
) -> bool {
    match parsed_media_type(header) {
        Some(m) => media_type_matches(m, ty, subtype, suffix, param),
        None => false,
    }
}

/// The texts of an optional `(key, value)` pair.
pub open spec fn param_view(param: Option<(&str, &str)>) -> Option<(Seq<char>, Seq<char>)> {
    match param {
        Some((key, value)) => Some((key@, value@)),
        None => None,
    }
}

/// Parses a header with `mime`. Trusted: the body is `str::parse::<mime::Mime>`
/// followed by `type_`, `subtype`, `suffix` and `params` of the parsed value,
/// each copied out as text. The contract names the outcome
/// `parsed_media_type` and claims nothing else of it.
#[verifier::external_body]
fn parse_media_type(header: &str) -> (r: Option<MediaTypeParts>)
    ensures
        match r {
            Some(parts) => parsed_media_type(header@) == Some(parts@),
            None => parsed_media_type(header@).is_none(),
        },
{
    match header.parse::<mime::Mime>() {
        Ok(m) => Some(
            MediaTypeParts {
                type_: m.type_().as_str().to_owned(),
                subtype: m.subtype().as_str().to_owned(),
                suffix: m.suffix().map(|s| s.as_str().to_owned()),
                params: m.params().map(|(k, v)| (k.as_str().to_owned(), v.as_str().to_owned())).collect(),
            },
        ),
        Err(_) => None,
    }
}

impl MediaTypeParts {
    /// Whether the parameter list carries `key` with the value `expected`.
    pub fn has_param(&self, key: &str, expected: &str) -> (r: bool)
        ensures
            r == has_param(self@.params, key@, expected@),
    {
        let mut i: usize = 0;
        assert(self@.params.skip(0) == self@.params);
        while i < self.params.len()
            invariant
                i <= self.params.len(),
                has_param(self@.params, key@, expected@) == has_param(
                    self@.params.skip(i as int),
                    key@,
                    expected@,
                ),
            decreases self.params.len() - i,
        {
            let ghost rest = self@.params.skip(i as int);
            assert(rest[0] == (self.params@[i as int].0@, self.params@[i as int].1@));
            assert(rest.skip(1) == self@.params.skip(i + 1));
            let name = self.params[i].0.as_str();
            let value = self.params[i].1.as_str();
            if str_eq_ignore_ascii_case(name, key) {
                proof {
                    reveal_strlit("charset");
                    assert("charset"@ == charset_name());
                }
                return if str_eq(name, "charset") {
                    str_eq_ignore_ascii_case(value, expected)
                } else {
                    str_eq(value, expected)
                };
            }
            i += 1;
        }
        false
    }

    /// Whether this media type satisfies the target `ty/subtype`, or
    /// `ty/*+suffix`, with the required parameter if one is given.
    pub fn matches(&self, ty: &str, subtype: &str, suffix: &str, param: Option<(&str, &str)>) -> (r:
        bool)
        ensures
            r == media_type_matches(self@, ty@, subtype@, suffix@, param_view(param)),
    {
        let suffix_matches = match &self.suffix {
            Some(s) => str_eq_ignore_ascii_case(s.as_str(), suffix),
            None => false,
        };
        let mut has = str_eq_ignore_ascii_case(self.type_.as_str(), ty) && (
        str_eq_ignore_ascii_case(self.subtype.as_str(), subtype) || suffix_matches);
        if let Some((key, value)) = param {
            has = has && self.has_param(key, value);
        }
        has
    }
}

/// Whether the header `content_type` names the media type `ty/subtype`, or
/// one with the structured-syntax suffix `suffix`, carrying the parameter
/// `param` if one is required. A header that does not parse matches nothing.
pub fn has_media_type(
    content_type: &str,
    ty: &str,
    subtype: &str,
    suffix: &str,
    param: Option<(&str, &str)>,
) -> (r: bool)
    ensures
        r == header_matches(content_type@, ty@, subtype@, suffix@, param_view(param)),
        parsed_media_type(content_type@).is_none() ==> !r,
{
    match parse_media_type(content_type) {
        Some(parts) => parts.matches(ty, subtype, suffix, param),
        None => false,
    }
}

/// Equality up to ASCII case holds of a text and itself.
pub proof fn lemma_eq_ignore_ascii_case_refl(a: Seq<char>)
    ensures
        eq_ignore_ascii_case(a, a),
{
}

/// The matcher is correct on a media type `t/s+fx; k=v`.
///
/// Asked for its own type, subtype, suffix and parameter, it matches, and so
/// it does with no parameter asked for. It stops matching when the type is
/// changed, when the subtype and the suffix are both changed, or when the
/// value asked of the parameter is changed. "Changed" is up to ASCII case
/// where the comparison ignores it: for the names always, for the value of
/// `charset` only.
pub proof fn lemma_matcher_correct(
    t: Seq<char>,
    s: Seq<char>,
    fx: Seq<char>,
    k: Seq<char>,
    v: Seq<char>,
    t2: Seq<char>,
    s2: Seq<char>,
    fx2: Seq<char>,
    v2: Seq<char>,
)
    ensures
        ({
            let m = MediaTypePartsView { type_: t, subtype: s, suffix: Some(fx), params: seq![(k, v)] };
            &&& media_type_matches(m, t, s, fx, Some((k, v)))
            &&& media_type_matches(m, t, s, fx, None)
            &&& media_type_matches(m, t, s, fx2, Some((k, v)))
            &&& media_type_matches(m, t, s2, fx, Some((k, v)))
            &&& !eq_ignore_ascii_case(t, t2) ==> !media_type_matches(m, t2, s, fx, Some((k, v)))
            &&& !eq_ignore_ascii_case(s, s2) && !eq_ignore_ascii_case(fx, fx2)
                ==> !media_type_matches(m, t, s2, fx2, Some((k, v)))
            &&& !param_value_is(k, v, v2) ==> !media_type_matches(m, t, s, fx, Some((k, v2)))
        }),
{
    let params = seq![(k, v)];
    lemma_eq_ignore_ascii_case_refl(t);
    lemma_eq_ignore_ascii_case_refl(s);
    lemma_eq_ignore_ascii_case_refl(fx);
    lemma_eq_ignore_ascii_case_refl(k);
    lemma_eq_ignore_ascii_case_refl(v);
    assert(params[0] == (k, v));
    assert(find_param(params, k) == Some((k, v)));
}

/// Parameters never disqualify a match when none is required: two media
/// types that differ in their parameters alone match the same targets.
pub proof fn lemma_params_ignored(
    m: MediaTypePartsView,
    params: Seq<(Seq<char>, Seq<char>)>,
    ty: Seq<char>,
    subtype: Seq<char>,
    suffix: Seq<char>,
)
    ensures
        media_type_matches(m, ty, subtype, suffix, None) == media_type_matches(
            MediaTypePartsView { params, ..m },
            ty,
            subtype,
            suffix,
            None,
        ),
{
}

} // verus!
