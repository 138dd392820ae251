//! Schema names made from the paths of types.

use vstd::prelude::*;
use crate::text::{chars_of, find_first, first_occurrence, string_of};

verus! {

/// `s` with each `::` made a dot, from the left.
pub open spec fn dotted(s: Seq<char>) -> Seq<char>
    decreases s.len(),
{
    if s.len() == 0 {
        s
    } else if s.len() >= 2 && s[0] == ':' && s[1] == ':' {
        seq!['.'] + dotted(s.skip(2))
    } else {
        seq![s[0]] + dotted(s.skip(1))
    }
}

/// `s` up to its first `<`, or all of it where it has none.
pub open spec fn without_generics(s: Seq<char>) -> Seq<char> {
    match first_occurrence(s, seq!['<']) {
        Some(at) => s.subrange(0, at),
        None => s,
    }
}

/// The schema name of the type whose path is `type_path`: the path without
/// its generic parameters, with dots between its segments.
pub open spec fn spec_schema_name(type_path: Seq<char>) -> Seq<char> {
    dotted(without_generics(type_path))
}

/// One step of `dotted` at a pair of colons.
proof fn lemma_dotted_colons(s: Seq<char>, done: Seq<char>, i: int)
    requires
        0 <= i,
        i + 2 <= s.len(),
        s[i] == ':',
        s[i + 1] == ':',
        done + dotted(s.skip(i)) == dotted(s),
    ensures
        done.push('.') + dotted(s.skip(i + 2)) == dotted(s),
{
    let rest = s.skip(i);
    assert(rest[0] == ':' && rest[1] == ':');
    assert(rest.skip(2) == s.skip(i + 2));
    assert(dotted(rest) == seq!['.'] + dotted(rest.skip(2)));
    assert(done.push('.') + dotted(s.skip(i + 2)) == done + (seq!['.'] + dotted(rest.skip(2))));
}

/// One step of `dotted` at a character that begins no pair of colons.
proof fn lemma_dotted_other(s: Seq<char>, done: Seq<char>, i: int)
    requires
        0 <= i < s.len(),
        !(i + 2 <= s.len() && s[i] == ':' && s[i + 1] == ':'),
        done + dotted(s.skip(i)) == dotted(s),
    ensures
        done.push(s[i]) + dotted(s.skip(i + 1)) == dotted(s),
{
    let rest = s.skip(i);
    assert(rest[0] == s[i]);
    if rest.len() >= 2 {
        assert(rest[1] == s[i + 1]);
    }
    assert(rest.skip(1) == s.skip(i + 1));
    assert(dotted(rest) == seq![rest[0]] + dotted(rest.skip(1)));
    assert(done.push(s[i]) + dotted(s.skip(i + 1)) == done + (seq![rest[0]] + dotted(rest.skip(1))));
}

/// The characters of `stem` with each pair of colons made a dot.
fn dots_for_colons(stem: &Vec<char>) -> (out: Vec<char>)
    ensures
        out@ == dotted(stem@),
{
    let mut out: Vec<char> = Vec::new();
    let mut i: usize = 0;
    assert(stem@.skip(0) == stem@);
    while i < stem.len()
        invariant
            i <= stem.len(),
            out@ + dotted(stem@.skip(i as int)) == dotted(stem@),
        decreases stem.len() - i,
    {
        if stem[i] == ':' && i + 1 < stem.len() && stem[i + 1] == ':' {
            proof {
                lemma_dotted_colons(stem@, out@, i as int);
            }
            out.push('.');
            i += 2;
        } else {
            proof {
                lemma_dotted_other(stem@, out@, i as int);
            }
            out.push(stem[i]);
            i += 1;
        }
    }
    assert(dotted(stem@.skip(i as int)) == Seq::<char>::empty());
    out
}

/// The characters `v[..end]`.
fn prefix_of(v: &Vec<char>, end: usize) -> (out: Vec<char>)
    requires
        end <= v.len(),
    ensures
        out@ == v@.subrange(0, end as int),
{
    let mut out: Vec<char> = Vec::new();
    let mut i: usize = 0;
    while i < end
        invariant
            i <= end <= v.len(),
            out@ == v@.subrange(0, i as int),
        decreases end - i,
    {
        out.push(v[i]);
        i += 1;
        assert(v@.subrange(0, i as int) == v@.subrange(0, i - 1).push(v@[i - 1]));
    }
    out
}

/// The index at which the generic parameters of `path` begin.
fn generics_start(path: &Vec<char>) -> (end: usize)
    ensures
        end <= path.len(),
        path@.subrange(0, end as int) == without_generics(path@),
{
    let mut bracket: Vec<char> = Vec::new();
    bracket.push('<');
    assert(bracket@ == seq!['<']);
    match find_first(path, &bracket) {
        Some(at) => at,
        None => {
            assert(path@.subrange(0, path.len() as int) == path@);
            path.len()
        },
    }
}

/// The schema name of the type whose path is `type_path`: `a::B<c::D>` is
/// named `a.B`.
pub fn schema_name(type_path: &str) -> (r: String)
    ensures
        r@ == spec_schema_name(type_path@),
{
    let path = chars_of(type_path);
    let end = generics_start(&path);
    let stem = prefix_of(&path, end);
    let out = dots_for_colons(&stem);
    assert(out@.subrange(0, out.len() as int) == out@);
    string_of(&out, 0, out.len())
}

} // verus!
