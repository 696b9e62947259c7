//! Identifiers and the rules that classify a lexeme as one.

use crate::reference::{RefIdentifier, RefIdentifierView};
use crate::span::{Span, SpanView};
use crate::text::{chars_of, contains_char, starts_with};
use vstd::prelude::*;

verus! {

/// A classified lexeme together with the place it was read from.
#[derive(Debug)]
pub enum Identifier {
    /// Starts with `env.`; holds what follows the prefix.
    ENV(String, Span),
    /// A path to a name, separated by `.`.
    Ref(RefIdentifier, Span),
    /// A word without `.` or `-`.
    Local(String, Span),
    /// A word that contains `-` and therefore stands for a string.
    String(String, Span),
    /// Something that cannot be used for anything.
    Invalid(String, Span),
}

/// The mathematical content of an [`Identifier`].
pub enum IdentifierView {
    ENV(Seq<char>, SpanView),
    Ref(RefIdentifierView, SpanView),
    Local(Seq<char>, SpanView),
    String(Seq<char>, SpanView),
    Invalid(Seq<char>, SpanView),
}

impl IdentifierView {
    /// The rules of classification. The first one that applies decides:
    ///
    /// 1. a text that starts with `env.` is an environment reference to
    ///    whatever follows the prefix, further dots included;
    /// 2. the bare word `env` is invalid;
    /// 3. a text with a `.` is a dotted reference;
    /// 4. a text with a `-` is a string;
    /// 5. anything else is a local name.
    pub open spec fn classify(text: Seq<char>, span: SpanView) -> IdentifierView {
        if "env."@.is_prefix_of(text) {
            IdentifierView::ENV(text.skip(4), span)
        } else if text == "env"@ {
            IdentifierView::Invalid(text, span)
        } else if text.contains('.') {
            IdentifierView::Ref(RefIdentifierView::of(text), span)
        } else if text.contains('-') {
            IdentifierView::String(text, span)
        } else {
            IdentifierView::Local(text, span)
        }
    }

    /// An identifier is well formed when the reference it holds, if it holds
    /// one, is well formed.
    pub open spec fn wf(self) -> bool {
        self matches IdentifierView::Ref(reference, _) ==> reference.wf()
    }

    /// The canonical text of the identifier.
    pub open spec fn rendered(self) -> Seq<char> {
        match self {
            IdentifierView::ENV(name, _) => "env."@ + name,
            IdentifierView::Ref(reference, _) => reference.full_name,
            IdentifierView::Local(name, _) => name,
            IdentifierView::String(text, _) => text,
            IdentifierView::Invalid(text, _) => text,
        }
    }

    /// The text under which the identifier is looked up.
    pub open spec fn name(self) -> Seq<char> {
        match self {
            IdentifierView::ENV(name, _) => name,
            IdentifierView::Ref(reference, _) => reference.full_name,
            IdentifierView::Local(name, _) => name,
            IdentifierView::String(text, _) => text,
            IdentifierView::Invalid(text, _) => text,
        }
    }

    /// The place the identifier was read from.
    pub open spec fn span(self) -> SpanView {
        match self {
            IdentifierView::ENV(_, span) => span,
            IdentifierView::Ref(_, span) => span,
            IdentifierView::Local(_, span) => span,
            IdentifierView::String(_, span) => span,
            IdentifierView::Invalid(_, span) => span,
        }
    }

    /// Only dotted references and local names can stand for a type.
    pub open spec fn is_valid_type(self) -> bool {
        self is Ref || self is Local
    }

    /// Environment references, local names and strings can stand for a value.
    pub open spec fn is_valid_value(self) -> bool {
        self is ENV || self is Local || self is String
    }
}

impl View for Identifier {
    type V = IdentifierView;

    open spec fn view(&self) -> IdentifierView {
        match self {
            Identifier::ENV(name, span) => IdentifierView::ENV(name@, span@),
            Identifier::Ref(reference, span) => IdentifierView::Ref(reference@, span@),
            Identifier::Local(name, span) => IdentifierView::Local(name@, span@),
            Identifier::String(text, span) => IdentifierView::String(text@, span@),
            Identifier::Invalid(text, span) => IdentifierView::Invalid(text@, span@),
        }
    }
}

impl Identifier {
    /// Classifies the lexeme `text`, read from `span`.
    ///
    /// Every text is classified: what looks malformed comes out as
    /// [`Identifier::Invalid`] or as a reference with an empty component.
    pub fn classify(text: &str, span: Span) -> (id: Identifier)
        ensures
            id@ == IdentifierView::classify(text@, span@),
            id@.wf(),
    {
        let chars = chars_of(text);
        let env = chars_of("env");
        if starts_with(&chars, &chars_of("env.")) {
            proof {
                reveal_strlit("env.");
            }
            Identifier::ENV(text.substring_char(4, chars.len()).to_owned(), span)
        } else if chars.len() == env.len() && starts_with(&chars, &env) {
            assert(text@ =~= "env"@);
            Identifier::Invalid(text.to_owned(), span)
        } else if contains_char(&chars, '.') {
            Identifier::Ref(RefIdentifier::from_dotted(text), span)
        } else if contains_char(&chars, '-') {
            Identifier::String(text.to_owned(), span)
        } else {
            Identifier::Local(text.to_owned(), span)
        }
    }

    /// The canonical text of the identifier: an environment reference gets
    /// its `env.` prefix back, everything else is the text it was read from.
    pub fn to_string(&self) -> (text: String)
        ensures
            text@ == self@.rendered(),
    {
        match self {
            Identifier::ENV(s, _) => String::from_str("env.").concat(s.as_str()),
            Identifier::Ref(ref_identifier, _) => ref_identifier.full_name.clone(),
            Identifier::Local(s, _) => s.clone(),
            Identifier::String(s, _) => s.clone(),
            Identifier::Invalid(s, _) => s.clone(),
        }
    }

    /// Whether the identifier can stand for a type.
    pub fn is_valid_type(&self) -> (valid: bool)
        ensures
            valid == self@.is_valid_type(),
    {
        match self {
            Identifier::ENV(_, _) => false,
            Identifier::Ref(_, _) => true,
            Identifier::Local(_, _) => true,
            Identifier::String(_, _) => false,
            Identifier::Invalid(_, _) => false,
        }
    }

    /// Whether the identifier can name a type.
    pub fn is_valid_type_name(&self) -> (valid: bool)
        ensures
            valid == self@.is_valid_type(),
    {
        match self {
            Identifier::ENV(_, _) => false,
            Identifier::Ref(_, _) => true,
            Identifier::Local(_, _) => true,
            Identifier::String(_, _) => false,
            Identifier::Invalid(_, _) => false,
        }
    }

    /// Whether the identifier can stand for a value.
    pub fn is_valid_value(&self) -> (valid: bool)
        ensures
            valid == self@.is_valid_value(),
    {
        match self {
            Identifier::ENV(_, _) => true,
            Identifier::Local(_, _) => true,
            Identifier::String(_, _) => true,
            Identifier::Ref(_, _) => false,
            Identifier::Invalid(_, _) => false,
        }
    }

    /// The place the identifier was read from.
    pub fn span(&self) -> (span: &Span)
        ensures
            span@ == self@.span(),
    {
        match self {
            Identifier::ENV(_, span) => span,
            Identifier::Ref(_, span) => span,
            Identifier::Local(_, span) => span,
            Identifier::String(_, span) => span,
            Identifier::Invalid(_, span) => span,
        }
    }

    /// The text under which the identifier is looked up: the whole dotted
    /// text for a reference, the stored text for everything else.
    pub fn name(&self) -> (name: &str)
        ensures
            name@ == self@.name(),
    {
        match self {
            Identifier::Ref(ref_identifier, _) => ref_identifier.full_name.as_str(),
            Identifier::Local(name, _) => name.as_str(),
            Identifier::String(s, _) => s.as_str(),
            Identifier::ENV(name, _) => name.as_str(),
            Identifier::Invalid(name, _) => name.as_str(),
        }
    }
}

impl Clone for Identifier {
    fn clone(&self) -> (copy: Identifier)
        ensures
            copy@ == self@,
    {
        match self {
            Identifier::ENV(s, span) => Identifier::ENV(s.clone(), span.clone()),
            Identifier::Ref(ref_identifier, span) => Identifier::Ref(
                ref_identifier.clone(),
                span.clone(),
            ),
            Identifier::Local(s, span) => Identifier::Local(s.clone(), span.clone()),
            Identifier::String(s, span) => Identifier::String(s.clone(), span.clone()),
            Identifier::Invalid(s, span) => Identifier::Invalid(s.clone(), span.clone()),
        }
    }
}

impl PartialEq for Identifier {
    fn eq(&self, other: &Identifier) -> (equal: bool) {
        match (self, other) {
            (Identifier::ENV(a, s), Identifier::ENV(b, t)) => *a == *b && *s == *t,
            (Identifier::Ref(a, s), Identifier::Ref(b, t)) => *a == *b && *s == *t,
            (Identifier::Local(a, s), Identifier::Local(b, t)) => *a == *b && *s == *t,
            (Identifier::String(a, s), Identifier::String(b, t)) => *a == *b && *s == *t,
            (Identifier::Invalid(a, s), Identifier::Invalid(b, t)) => *a == *b && *s == *t,
            _ => false,
        }
    }
}

impl vstd::std_specs::cmp::PartialEqSpecImpl for Identifier {
    open spec fn obeys_eq_spec() -> bool {
        true
    }

    open spec fn eq_spec(&self, other: &Identifier) -> bool {
        self@ == other@
    }
}

impl<'a> From<(&'a str, Span)> for Identifier {
    /// Classifies the lexeme in the first component, read from the span in
    /// the second.
    fn from(lexeme: (&'a str, Span)) -> (id: Identifier)
        ensures
            id@ == IdentifierView::classify(lexeme.0@, lexeme.1@),
            id@.wf(),
    {
        Identifier::classify(lexeme.0, lexeme.1)
    }
}

impl<'a> vstd::std_specs::convert::FromSpecImpl<(&'a str, Span)> for Identifier {
    /// Two strings with the same text need not be the same value, so the
    /// conversion is stated over views, on `from` itself, and not as an
    /// equation between values.
    open spec fn obeys_from_spec() -> bool {
        false
    }

    open spec fn from_spec(lexeme: (&'a str, Span)) -> Identifier {
        choose|id: Identifier|
            #[trigger] id.view() == IdentifierView::classify(lexeme.0@, lexeme.1@)
    }
}

} // verus!
