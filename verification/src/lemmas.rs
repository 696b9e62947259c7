//! What holds of classification on every input.
//!
//! Each statement is about [`IdentifierView::classify`] and the functions of
//! a classified identifier, the same functions in which the executable code
//! states its results.

use crate::identifier::IdentifierView;
use crate::reference::RefIdentifierView;
use crate::span::SpanView;
use vstd::prelude::*;

verus! {

/// A word without `.` and without `-`, other than the bare word `env`, is a
/// local name and is kept as it is. (Such a word cannot start with `env.`,
/// which holds a dot.)
pub proof fn lemma_plain_word_is_local(text: Seq<char>, span: SpanView)
    requires
        !text.contains('.'),
        !text.contains('-'),
        text != "env"@,
    ensures
        IdentifierView::classify(text, span) == IdentifierView::Local(text, span),
{
    reveal_strlit("env.");
    if "env."@.is_prefix_of(text) {
        assert(text[3] == "env."@[3]);
    }
}

/// The prefix `env.` decides before anything else is looked at: whatever
/// follows it, dots and hyphens included, is the name of an environment
/// reference, and the result is never a dotted reference.
pub proof fn lemma_env_prefix_wins(rest: Seq<char>, span: SpanView)
    ensures
        IdentifierView::classify("env."@ + rest, span) == IdentifierView::ENV(rest, span),
{
    reveal_strlit("env.");
    let text = "env."@ + rest;
    assert(text.subrange(0, 4) =~= "env."@);
    assert(text.skip(4) =~= rest);
}

/// Which kind a text is given, in terms of the text alone.
pub proof fn lemma_kind_of_classified(text: Seq<char>, span: SpanView)
    ensures
        ({
            let id = IdentifierView::classify(text, span);
            let dotted = text.contains('.');
            let hyphenated = text.contains('-');
            &&& id is ENV <==> "env."@.is_prefix_of(text)
            &&& id is Invalid <==> text == "env"@
            &&& id is Ref <==> dotted && !"env."@.is_prefix_of(text)
            &&& id is String <==> hyphenated && !dotted
            &&& id is Local <==> !hyphenated && !dotted && text != "env"@
        }),
{
    reveal_strlit("env.");
    reveal_strlit("env");
    if "env."@.is_prefix_of(text) {
        assert(text[3] == "env."@[3]);
    }
}

/// What comes out of classification is well formed.
pub proof fn lemma_classified_is_wf(text: Seq<char>, span: SpanView)
    ensures
        IdentifierView::classify(text, span).wf(),
{
    RefIdentifierView::lemma_of_wf(text);
}

/// The span given to classification is the span of its result.
pub proof fn lemma_span_of_classified(text: Seq<char>, span: SpanView)
    ensures
        IdentifierView::classify(text, span).span() == span,
{
}

/// The canonical text of a classified identifier is the text that was
/// classified.
pub proof fn lemma_rendered_is_source(text: Seq<char>, span: SpanView)
    ensures
        IdentifierView::classify(text, span).rendered() == text,
{
    reveal_strlit("env.");
    if "env."@.is_prefix_of(text) {
        assert("env."@ + text.skip(4) =~= text);
    }
}

/// Classifying the canonical text of a classified identifier gives the same
/// identifier again. This holds of every text, the bare word `env` and texts
/// that start with `env.` included.
pub proof fn lemma_classify_idempotent(text: Seq<char>, span: SpanView)
    ensures
        IdentifierView::classify(IdentifierView::classify(text, span).rendered(), span)
            == IdentifierView::classify(text, span),
{
    lemma_rendered_is_source(text, span);
}

/// The text under which a classified identifier is looked up is the text that
/// was classified, without the prefix `env.` where it had one. For a dotted
/// reference that is the whole dotted text, not its last component.
pub proof fn lemma_name_of_classified(text: Seq<char>, span: SpanView)
    ensures
        IdentifierView::classify(text, span).name() == if "env."@.is_prefix_of(text) {
            text.skip(4)
        } else {
            text
        },
{
}

} // verus!
