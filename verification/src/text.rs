//! Character sequences: cutting a text at a separator and putting it back
//! together.
//!
//! The specifications here speak of `Seq<char>`, the view of `str` and
//! `String`. The executable functions read a text once into a vector of
//! characters and work on that.

use vstd::prelude::*;

verus! {

/// The pieces of `s` that lie between the occurrences of `sep`.
///
/// There is always at least one piece: a text without any separator is its
/// own single piece, and a separator at either end leaves an empty piece
/// there. Reading `s` from the left, every separator closes the current piece
/// and opens a new, empty one; every other character extends the current
/// piece.
pub open spec fn split(s: Seq<char>, sep: char) -> Seq<Seq<char>>
    decreases s.len(),
{
    if s.len() == 0 {
        seq![Seq::empty()]
    } else {
        let before = split(s.drop_last(), sep);
        if s.last() == sep {
            before.push(Seq::empty())
        } else {
            before.drop_last().push(before.last().push(s.last()))
        }
    }
}

/// The pieces `parts` written one after the other with `sep` between each two
/// neighbours.
pub open spec fn join(parts: Seq<Seq<char>>, sep: char) -> Seq<char>
    decreases parts.len(),
{
    if parts.len() == 0 {
        Seq::empty()
    } else if parts.len() == 1 {
        parts[0]
    } else {
        join(parts.drop_last(), sep) + seq![sep] + parts.last()
    }
}

/// Whether none of the pieces `parts` holds `sep`.
pub open spec fn free_of(parts: Seq<Seq<char>>, sep: char) -> bool {
    forall|k: int| 0 <= k < parts.len() ==> !(#[trigger] parts[k]).contains(sep)
}

/// The texts held by a sequence of strings.
pub open spec fn views(strings: Seq<String>) -> Seq<Seq<char>> {
    strings.map_values(|s: String| s@)
}

/// Splitting never yields an empty list of pieces.
pub proof fn lemma_split_nonempty(s: Seq<char>, sep: char)
    ensures
        split(s, sep).len() >= 1,
    decreases s.len(),
{
    if s.len() > 0 {
        lemma_split_nonempty(s.drop_last(), sep);
    }
}

/// A text without the separator is its own single piece, and only such a text
/// splits into one piece.
pub proof fn lemma_split_single(s: Seq<char>, sep: char)
    ensures
        !s.contains(sep) ==> split(s, sep) == seq![s],
        s.contains(sep) ==> split(s, sep).len() >= 2,
    decreases s.len(),
{
    if s.len() == 0 {
        assert(s =~= Seq::<char>::empty());
    } else {
        let init = s.drop_last();
        lemma_split_single(init, sep);
        lemma_split_nonempty(init, sep);
        if s.contains(sep) {
            if s.last() != sep {
                let i = choose|i: int| 0 <= i < s.len() && s[i] == sep;
                assert(init[i] == sep);
            }
        } else {
            assert forall|i: int| 0 <= i < init.len() implies init[i] != sep by {
                assert(s[i] == init[i]);
            }
            assert(init.push(s.last()) =~= s);
            assert(seq![init].drop_last().push(s) =~= seq![s]);
        }
    }
}

/// No piece of a split holds the separator.
pub proof fn lemma_split_pieces_are_free(s: Seq<char>, sep: char)
    ensures
        free_of(split(s, sep), sep),
    decreases s.len(),
{
    if s.len() > 0 {
        let pieces = split(s, sep);
        let before = split(s.drop_last(), sep);
        lemma_split_pieces_are_free(s.drop_last(), sep);
        lemma_split_nonempty(s.drop_last(), sep);
        assert forall|k: int| 0 <= k < pieces.len() implies !(#[trigger] pieces[k]).contains(
            sep,
        ) by {
            if k < before.len() - 1 {
                assert(pieces[k] == before[k]);
            } else if s.last() != sep {
                let piece = before.last().push(s.last());
                assert(pieces[k] == piece);
                if piece.contains(sep) {
                    let j = choose|j: int| 0 <= j < piece.len() && piece[j] == sep;
                    assert(before.last()[j] == sep);
                }
            } else if k == before.len() - 1 {
                assert(pieces[k] == before[k]);
            }
        }
    }
}

/// Joining the pieces of a split with the same separator gives the text back.
pub proof fn lemma_join_split(s: Seq<char>, sep: char)
    ensures
        join(split(s, sep), sep) == s,
    decreases s.len(),
{
    if s.len() == 0 {
        assert(join(seq![Seq::<char>::empty()], sep) =~= s);
    } else {
        let init = s.drop_last();
        let before = split(init, sep);
        lemma_join_split(init, sep);
        lemma_split_nonempty(init, sep);
        if s.last() == sep {
            let parts = before.push(Seq::empty());
            assert(parts.drop_last() =~= before);
            assert(join(parts, sep) =~= s);
        } else {
            let piece = before.last().push(s.last());
            let parts = before.drop_last().push(piece);
            if before.len() == 1 {
                assert(join(parts, sep) =~= s);
            } else {
                assert(parts.drop_last() =~= before.drop_last());
                assert(join(parts, sep) =~= join(before, sep).push(s.last()));
                assert(join(parts, sep) =~= s);
            }
        }
    }
}

/// A non-empty list of pieces, none of which holds the separator, is what
/// splitting their join gives: the split of a text is the only such list that
/// joins to it.
pub proof fn lemma_split_join(parts: Seq<Seq<char>>, sep: char)
    requires
        parts.len() >= 1,
        free_of(parts, sep),
    ensures
        split(join(parts, sep), sep) == parts,
    decreases parts.len(), parts.last().len(),
{
    let s = join(parts, sep);
    let tail = parts.last();
    if tail.len() == 0 {
        assert(tail =~= Seq::<char>::empty());
        if parts.len() == 1 {
            assert(split(s, sep) =~= parts);
        } else {
            let front = parts.drop_last();
            assert(free_of(front, sep)) by {
                assert forall|k: int| 0 <= k < front.len() implies !(#[trigger] front[k]).contains(
                    sep,
                ) by {
                    assert(front[k] == parts[k]);
                }
            }
            lemma_split_join(front, sep);
            assert(s.drop_last() =~= join(front, sep));
            assert(s.last() == sep);
            assert(split(s, sep) =~= parts);
        }
    } else {
        let c = tail.last();
        assert(c != sep) by {
            assert(tail[tail.len() - 1] == c);
        }
        let shorter = parts.drop_last().push(tail.drop_last());
        assert(free_of(shorter, sep)) by {
            assert forall|k: int| 0 <= k < shorter.len() implies !(#[trigger] shorter[k]).contains(
                sep,
            ) by {
                if k < parts.len() - 1 {
                    assert(shorter[k] == parts[k]);
                } else if shorter[k].contains(sep) {
                    let j = choose|j: int| 0 <= j < shorter[k].len() && shorter[k][j] == sep;
                    assert(tail[j] == sep);
                }
            }
        }
        lemma_split_join(shorter, sep);
        assert(shorter.drop_last() =~= parts.drop_last());
        assert(s.drop_last() =~= join(shorter, sep));
        assert(s.last() == c);
        assert(tail.drop_last().push(c) =~= tail);
        assert(split(s, sep) =~= parts);
    }
}

/// The characters of `text`, in order.
pub fn chars_of(text: &str) -> (chars: Vec<char>)
    ensures
        chars@ == text@,
{
    let mut chars: Vec<char> = Vec::new();
    for c in it: text.chars()
        invariant
            it.seq() == text@,
            chars@ == it.seq().take(it.index()),
    {
        chars.push(c);
    }
    chars
}

/// Whether `chars` begins with all of `prefix`.
pub fn starts_with(chars: &Vec<char>, prefix: &Vec<char>) -> (found: bool)
    ensures
        found == prefix@.is_prefix_of(chars@),
{
    if prefix.len() > chars.len() {
        return false;
    }
    let mut i: usize = 0;
    while i < prefix.len()
        invariant
            i <= prefix.len() <= chars.len(),
            forall|k: int| 0 <= k < i ==> chars@[k] == prefix@[k],
        decreases prefix.len() - i,
    {
        if chars[i] != prefix[i] {
            assert(chars@.subrange(0, prefix@.len() as int)[i as int] != prefix@[i as int]);
            return false;
        }
        i += 1;
    }
    true
}

/// Whether `wanted` occurs anywhere in `chars`.
pub fn contains_char(chars: &Vec<char>, wanted: char) -> (found: bool)
    ensures
        found == chars@.contains(wanted),
{
    let mut i: usize = 0;
    while i < chars.len()
        invariant
            i <= chars.len(),
            forall|k: int| 0 <= k < i ==> chars@[k] != wanted,
        decreases chars.len() - i,
    {
        if chars[i] == wanted {
            return true;
        }
        i += 1;
    }
    false
}

/// Whether two lists of strings hold the same texts in the same order.
pub fn same_texts(left: &Vec<String>, right: &Vec<String>) -> (same: bool)
    ensures
        same == (views(left@) == views(right@)),
{
    if left.len() != right.len() {
        assert(views(left@).len() != views(right@).len());
        return false;
    }
    let mut i: usize = 0;
    while i < left.len()
        invariant
            i <= left.len() == right.len(),
            forall|k: int| 0 <= k < i ==> left@[k]@ == right@[k]@,
        decreases left.len() - i,
    {
        if left[i] != right[i] {
            assert(views(left@)[i as int] != views(right@)[i as int]);
            return false;
        }
        i += 1;
    }
    assert(views(left@) =~= views(right@));
    true
}

/// Cuts `text` at every `sep` and returns the pieces as owned strings.
pub fn split_str(text: &str, sep: char) -> (parts: Vec<String>)
    ensures
        views(parts@) == split(text@, sep),
{
    let chars = chars_of(text);
    let n = chars.len();
    let mut parts: Vec<String> = Vec::new();
    let mut start: usize = 0;
    let mut i: usize = 0;
    proof {
        assert(text@.take(0) =~= Seq::<char>::empty());
        assert(views(parts@).push(text@.subrange(0, 0)) =~= seq![Seq::<char>::empty()]);
    }
    while i < n
        invariant
            chars@ == text@,
            n == chars.len(),
            start <= i <= n,
            split(text@.take(i as int), sep) == views(parts@).push(
                text@.subrange(start as int, i as int),
            ),
        decreases n - i,
    {
        proof {
            let seen = text@.take(i + 1);
            assert(seen.drop_last() =~= text@.take(i as int));
            assert(seen.last() == text@[i as int]);
        }
        if chars[i] == sep {
            let piece = text.substring_char(start, i).to_owned();
            let ghost closed = views(parts@);
            parts.push(piece);
            start = i + 1;
            proof {
                assert(views(parts@) =~= closed.push(piece@));
                assert(text@.subrange(start as int, i + 1) =~= Seq::<char>::empty());
            }
        } else {
            proof {
                let open = text@.subrange(start as int, i as int);
                assert(views(parts@).push(open).drop_last() =~= views(parts@));
                assert(open.push(text@[i as int]) =~= text@.subrange(start as int, i + 1));
            }
        }
        i += 1;
    }
    let piece = text.substring_char(start, n).to_owned();
    let ghost closed = views(parts@);
    parts.push(piece);
    proof {
        assert(views(parts@) =~= closed.push(piece@));
        assert(text@.take(n as int) =~= text@);
    }
    parts
}

} // verus!
