//! Source locations.

use vstd::prelude::*;

verus! {

/// A range of bytes in a named source file.
///
/// Spans are produced by the lexer and only carried around here: nothing in
/// this crate looks inside one except to compare two of them.
#[derive(Debug)]
pub struct Span {
    pub file: String,
    pub start: usize,
    pub end: usize,
}

/// The mathematical content of a [`Span`].
pub struct SpanView {
    pub file: Seq<char>,
    pub start: nat,
    pub end: nat,
}

impl View for Span {
    type V = SpanView;

    open spec fn view(&self) -> SpanView {
        SpanView { file: self.file@, start: self.start as nat, end: self.end as nat }
    }
}

impl Span {
    /// A span over bytes `start..end` of the file called `file`.
    pub fn new(file: &str, start: usize, end: usize) -> (span: Span)
        ensures
            span@ == (SpanView { file: file@, start: start as nat, end: end as nat }),
    {
        Span { file: file.to_owned(), start, end }
    }
}

impl Clone for Span {
    fn clone(&self) -> (copy: Span)
        ensures
            copy@ == self@,
    {
        Span { file: self.file.clone(), start: self.start, end: self.end }
    }
}

impl PartialEq for Span {
    fn eq(&self, other: &Span) -> (equal: bool) {
        self.file == other.file && self.start == other.start && self.end == other.end
    }
}

impl vstd::std_specs::cmp::PartialEqSpecImpl for Span {
    open spec fn obeys_eq_spec() -> bool {
        true
    }

    open spec fn eq_spec(&self, other: &Span) -> bool {
        self@ == other@
    }
}

} // verus!
