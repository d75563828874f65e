//! Text and validation combinators that every element's contract is
//! written with.
use vstd::prelude::*;

use crate::error::Error;

verus! {

/// `s` when `present` holds, nothing otherwise.
pub open spec fn opt_text(present: bool, s: Seq<char>) -> Seq<char> {
    if present {
        s
    } else {
        Seq::empty()
    }
}

/// A single space followed by `s`: how an optional clause is joined to what
/// precedes it.
pub open spec fn spaced(s: Seq<char>) -> Seq<char> {
    " "@ + s
}

/// `parts` joined by `sep`, without a leading or trailing separator.
pub open spec fn join(parts: Seq<Seq<char>>, sep: Seq<char>) -> Seq<char>
    decreases parts.len(),
{
    if parts.len() == 0 {
        Seq::empty()
    } else if parts.len() == 1 {
        parts[0]
    } else {
        join(parts.drop_last(), sep) + sep + parts.last()
    }
}

/// Each of `parts` followed by `term`, concatenated.
pub open spec fn terminated(parts: Seq<Seq<char>>, term: Seq<char>) -> Seq<char>
    decreases parts.len(),
{
    if parts.len() == 0 {
        Seq::empty()
    } else {
        terminated(parts.drop_last(), term) + parts.last() + term
    }
}

/// What the length operation returns: the error of the shared validation, or
/// the number of characters of `text`.
pub open spec fn length_result(validity: Result<(), Error>, text: Seq<char>) -> Result<usize, Error> {
    match validity {
        Ok(_) => Ok(text.len() as usize),
        Err(e) => Err(e),
    }
}

/// What the emit operation appends to its buffer: `text` when the shared
/// validation passes, nothing otherwise.
pub open spec fn emitted(validity: Result<(), Error>, text: Seq<char>) -> Seq<char> {
    opt_text(validity is Ok, text)
}

/// The error of the first item of `items` that `validity` rejects, in order.
pub open spec fn first_error<T>(items: Seq<T>, validity: spec_fn(T) -> Result<(), Error>) -> Result<(), Error>
    decreases items.len(),
{
    if items.len() == 0 {
        Ok(())
    } else {
        match first_error(items.drop_last(), validity) {
            Err(e) => Err(e),
            Ok(_) => validity(items.last()),
        }
    }
}

/// Appending one more item to a joined prefix adds a separator (except in
/// front of the first item) and the item.
pub proof fn lemma_join_step(parts: Seq<Seq<char>>, sep: Seq<char>, i: int)
    requires
        0 <= i < parts.len(),
    ensures
        join(parts.subrange(0, i + 1), sep) == join(parts.subrange(0, i), sep) + opt_text(i > 0, sep)
            + parts[i],
{
    let q = parts.subrange(0, i + 1);
    assert(q.drop_last() =~= parts.subrange(0, i));
    if i == 0 {
        assert(join(parts.subrange(0, 0), sep) =~= Seq::empty());
        assert(join(q, sep) =~= join(parts.subrange(0, i), sep) + opt_text(i > 0, sep) + parts[i]);
    }
}

/// A joined prefix is never longer than the whole join.
pub proof fn lemma_join_prefix_len(parts: Seq<Seq<char>>, sep: Seq<char>, i: int)
    requires
        0 <= i <= parts.len(),
    ensures
        join(parts.subrange(0, i), sep).len() <= join(parts, sep).len(),
    decreases parts.len(),
{
    if i == parts.len() {
        assert(parts.subrange(0, i) =~= parts);
    } else if parts.len() == 1 {
        assert(parts.subrange(0, i) =~= Seq::<Seq<char>>::empty());
    } else {
        let p = parts.drop_last();
        lemma_join_prefix_len(p, sep, i);
        assert(p.subrange(0, i) =~= parts.subrange(0, i));
    }
}

/// Appending one more item to a terminated prefix adds the item and its
/// terminator.
pub proof fn lemma_terminated_step(parts: Seq<Seq<char>>, term: Seq<char>, i: int)
    requires
        0 <= i < parts.len(),
    ensures
        terminated(parts.subrange(0, i + 1), term) == terminated(parts.subrange(0, i), term)
            + parts[i] + term,
{
    assert(parts.subrange(0, i + 1).drop_last() =~= parts.subrange(0, i));
}

/// A terminated prefix is never longer than the whole.
pub proof fn lemma_terminated_prefix_len(parts: Seq<Seq<char>>, term: Seq<char>, i: int)
    requires
        0 <= i <= parts.len(),
    ensures
        terminated(parts.subrange(0, i), term).len() <= terminated(parts, term).len(),
    decreases parts.len(),
{
    if i == parts.len() {
        assert(parts.subrange(0, i) =~= parts);
    } else {
        let p = parts.drop_last();
        lemma_terminated_prefix_len(p, term, i);
        assert(p.subrange(0, i) =~= parts.subrange(0, i));
    }
}

/// Once a prefix of `items` has an error, every longer prefix has the same one.
pub proof fn lemma_first_error_prefix<T>(
    items: Seq<T>,
    validity: spec_fn(T) -> Result<(), Error>,
    i: int,
    j: int,
)
    requires
        0 <= i <= j <= items.len(),
        first_error(items.subrange(0, i), validity) is Err,
    ensures
        first_error(items.subrange(0, j), validity) == first_error(items.subrange(0, i), validity),
    decreases j - i,
{
    if j > i {
        lemma_first_error_prefix(items, validity, i, j - 1);
        assert(items.subrange(0, j).drop_last() =~= items.subrange(0, j - 1));
    }
}

/// The error of a prefix one item longer than an error-free prefix is the
/// new item's own.
pub proof fn lemma_first_error_step<T>(items: Seq<T>, validity: spec_fn(T) -> Result<(), Error>, i: int)
    requires
        0 <= i < items.len(),
        first_error(items.subrange(0, i), validity) is Ok,
    ensures
        first_error(items.subrange(0, i + 1), validity) == validity(items[i]),
{
    assert(items.subrange(0, i + 1).drop_last() =~= items.subrange(0, i));
}

} // verus!
