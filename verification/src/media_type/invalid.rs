//! The report of a content type that was not among those expected.

use vstd::prelude::*;
use vstd::string::StringExecFns;
use crate::text::{debug_quoted, debug_text};

verus! {

/// A content type was not one of those expected.
#[derive(Debug)]
pub struct InvalidContentType<const N: usize> {
    /// The content type that came.
    pub actual: Box<str>,
    /// The content types that would have been accepted.
    pub expected: [&'static str; N],
}

/// The texts of a list of strings.
pub open spec fn texts(items: Seq<String>) -> Seq<Seq<char>> {
    Seq::new(items.len(), |i: int| items[i]@)
}

/// The `Debug` forms of a list of string slices.
pub open spec fn debug_texts(items: Seq<&'static str>) -> Seq<Seq<char>> {
    Seq::new(items.len(), |i: int| debug_text(items[i]@))
}

/// The items with a comma and a space between them.
pub open spec fn joined(items: Seq<Seq<char>>) -> Seq<char>
    decreases items.len(),
{
    if items.len() == 0 {
        Seq::empty()
    } else if items.len() == 1 {
        items[0]
    } else {
        joined(items.drop_last()) + ", "@ + items.last()
    }
}

/// The message of the report, from the expected content types and the
/// actual one as they are to be shown: the expected ones as a bracketed
/// list, then the actual one.
pub open spec fn report(expected: Seq<Seq<char>>, actual: Seq<char>) -> Seq<char> {
    "invalid `content-type`: expected one of ["@ + joined(expected) + "] but actual "@ + actual
}

/// The message of the report, from the expected content types and the
/// actual one as they are to be shown.
pub fn report_of(expected: &Vec<String>, actual: &str) -> (r: String)
    ensures
        r@ == report(texts(expected@), actual@),
{
    let ghost items = texts(expected@);
    let mut out = "invalid `content-type`: expected one of [".to_owned();
    let ghost head = out@;
    let mut i: usize = 0;
    assert(items.take(0) == Seq::<Seq<char>>::empty());
    while i < expected.len()
        invariant
            i <= expected.len(),
            items == texts(expected@),
            out@ == head + joined(items.take(i as int)),
        decreases expected.len() - i,
    {
        let ghost done = items.take(i as int);
        let ghost next = items.take(i + 1);
        assert(next.drop_last() == done);
        assert(next.last() == expected@[i as int]@);
        if i > 0 {
            out.append(", ");
        }
        out.append(expected[i].as_str());
        i += 1;
    }
    assert(items.take(expected.len() as int) == items);
    out.append("] but actual ");
    out.append(actual);
    out
}

impl<const N: usize> InvalidContentType<N> {
    /// The message of the report: the expected content types and the actual
    /// one, each as `Debug` shows a string.
    pub fn message(&self) -> (r: String)
        ensures
            r@ == report(debug_texts(self.expected@), debug_text(self.actual@)),
    {
        let mut shown: Vec<String> = Vec::new();
        let mut i: usize = 0;
        while i < N
            invariant
                i <= N,
                N == self.expected@.len(),
                shown@.len() == i,
                forall|j: int| 0 <= j < i ==> (#[trigger] shown@[j])@ == debug_text(self.expected@[j]@),
            decreases N - i,
        {
            shown.push(debug_quoted(self.expected[i]));
            i += 1;
        }
        assert(texts(shown@) =~= debug_texts(self.expected@));
        let actual: &str = &self.actual;
        let actual_shown = debug_quoted(actual);
        report_of(&shown, actual_shown.as_str())
    }
}

} // verus!
