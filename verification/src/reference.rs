//! Dotted references.

use crate::text::{
    free_of, join, lemma_join_split, lemma_split_join, lemma_split_nonempty,
    lemma_split_pieces_are_free, lemma_split_single, same_texts, split, split_str, views,
};
use vstd::prelude::*;

verus! {

/// An identifier that refers to a field or type in a different location.
#[derive(Debug)]
pub struct RefIdentifier {
    /// The components in front of the last one.
    pub path: Vec<String>,
    /// The last component.
    pub name: String,
    /// The dotted text exactly as it was written.
    pub full_name: String,
}

/// The mathematical content of a [`RefIdentifier`].
pub struct RefIdentifierView {
    pub path: Seq<Seq<char>>,
    pub name: Seq<char>,
    pub full_name: Seq<char>,
}

impl RefIdentifierView {
    /// The dotted reference that `text` spells: every component but the last
    /// is a path segment, the last one is the name.
    ///
    /// A trailing dot leaves the name empty. That is kept as it is: nothing
    /// is validated here, and it is for later stages to object to an empty
    /// name.
    pub open spec fn of(text: Seq<char>) -> RefIdentifierView {
        RefIdentifierView {
            path: split(text, '.').drop_last(),
            name: split(text, '.').last(),
            full_name: text,
        }
    }

    /// A reference is well formed when it has at least one path segment and
    /// its full name is the segments and the name joined by dots.
    pub open spec fn wf(self) -> bool {
        &&& self.path.len() > 0
        &&& join(self.path.push(self.name), '.') == self.full_name
    }

    /// The reference read from a text is well formed exactly when the text
    /// holds a dot.
    pub proof fn lemma_of_wf(text: Seq<char>)
        ensures
            Self::of(text).wf() <==> text.contains('.'),
    {
        let parts = split(text, '.');
        lemma_split_nonempty(text, '.');
        lemma_split_single(text, '.');
        lemma_join_split(text, '.');
        assert(parts.drop_last().push(parts.last()) =~= parts);
    }

    /// No component of the reference read from a text holds a dot.
    pub proof fn lemma_of_components(text: Seq<char>)
        ensures
            free_of(Self::of(text).path.push(Self::of(text).name), '.'),
    {
        let parts = split(text, '.');
        lemma_split_nonempty(text, '.');
        lemma_split_pieces_are_free(text, '.');
        assert(parts.drop_last().push(parts.last()) =~= parts);
    }

    /// A well-formed reference whose components hold no dot is the one that
    /// its full name is read as: a dotted text has one reading only.
    pub proof fn lemma_of_full_name(self)
        requires
            self.wf(),
            free_of(self.path.push(self.name), '.'),
        ensures
            Self::of(self.full_name) == self,
    {
        let parts = self.path.push(self.name);
        lemma_split_join(parts, '.');
        assert(parts.drop_last() =~= self.path);
    }
}

impl View for RefIdentifier {
    type V = RefIdentifierView;

    open spec fn view(&self) -> RefIdentifierView {
        RefIdentifierView {
            path: views(self.path@),
            name: self.name@,
            full_name: self.full_name@,
        }
    }
}

impl RefIdentifier {
    /// Reads a dotted text into its path segments and name.
    pub fn from_dotted(text: &str) -> (reference: RefIdentifier)
        ensures
            reference@ == RefIdentifierView::of(text@),
            reference@.wf() <==> text@.contains('.'),
    {
        let mut path = split_str(text, '.');
        let ghost parts = path@;
        proof {
            lemma_split_nonempty(text@, '.');
            RefIdentifierView::lemma_of_wf(text@);
        }
        let name = path.pop().unwrap();
        proof {
            assert(views(path@) =~= views(parts).drop_last());
        }
        RefIdentifier { path, name, full_name: text.to_owned() }
    }
}

impl Clone for RefIdentifier {
    fn clone(&self) -> (copy: RefIdentifier)
        ensures
            copy@ == self@,
    {
        let path = self.path.clone();
        proof {
            assert(views(path@) =~= views(self.path@));
        }
        RefIdentifier { path, name: self.name.clone(), full_name: self.full_name.clone() }
    }
}

impl PartialEq for RefIdentifier {
    fn eq(&self, other: &RefIdentifier) -> (equal: bool) {
        same_texts(&self.path, &other.path) && self.name == other.name && self.full_name
            == other.full_name
    }
}

impl vstd::std_specs::cmp::PartialEqSpecImpl for RefIdentifier {
    open spec fn obeys_eq_spec() -> bool {
        true
    }

    open spec fn eq_spec(&self, other: &RefIdentifier) -> bool {
        self@ == other@
    }
}

} // verus!
