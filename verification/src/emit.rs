//! Joining pieces of generated source text.

use vstd::prelude::*;
use vstd::string::*;

verus! {

/// The pieces of text one after another.
pub open spec fn joined(parts: Seq<Seq<char>>) -> Seq<char>
    decreases parts.len(),
{
    if parts.len() == 0 {
        Seq::empty()
    } else {
        joined(parts.drop_last()) + parts.last()
    }
}

/// Each piece of text with `terminator` behind it.
pub open spec fn each_terminated(parts: Seq<Seq<char>>, terminator: Seq<char>) -> Seq<Seq<char>> {
    parts.map_values(|part: Seq<char>| part + terminator)
}

/// The pieces of text one after another, each with `terminator` behind it.
pub open spec fn terminated(parts: Seq<Seq<char>>, terminator: Seq<char>) -> Seq<char> {
    joined(each_terminated(parts, terminator))
}

/// No pieces join to no text, and one more piece joins behind the others.
pub proof fn lemma_joined_push(parts: Seq<Seq<char>>, part: Seq<char>)
    ensures
        joined(Seq::empty()) == Seq::<char>::empty(),
        joined(parts.push(part)) == joined(parts) + part,
{
    assert(parts.push(part).drop_last() == parts);
}

/// A single piece joins to itself.
pub proof fn lemma_joined_single(part: Seq<char>)
    ensures
        joined(seq![part]) == part,
{
    lemma_joined_push(Seq::empty(), part);
    assert(Seq::<Seq<char>>::empty().push(part) == seq![part]);
}

/// Writes the pieces of text one after another.
pub fn concat_all(parts: &Vec<String>) -> (text: String)
    ensures
        text@ == joined(parts.deep_view()),
{
    let ghost pieces = parts.deep_view();
    let mut text = String::new();
    let mut index: usize = 0;
    while index < parts.len()
        invariant
            index <= parts.len(),
            pieces == parts.deep_view(),
            text@ == joined(pieces.take(index as int)),
        decreases parts.len() - index,
    {
        assert(pieces.take(index + 1).drop_last() == pieces.take(index as int));
        text.append(parts[index].as_str());
        index = index + 1;
    }
    assert(pieces.take(index as int) == pieces);
    text
}

/// Writes the pieces of text one after another, each with `terminator`
/// behind it.
pub fn join_terminated(parts: &Vec<String>, terminator: &str) -> (text: String)
    ensures
        text@ == terminated(parts.deep_view(), terminator@),
{
    let ghost pieces = each_terminated(parts.deep_view(), terminator@);
    let mut text = String::new();
    let mut index: usize = 0;
    while index < parts.len()
        invariant
            index <= parts.len(),
            pieces == each_terminated(parts.deep_view(), terminator@),
            text@ == joined(pieces.take(index as int)),
        decreases parts.len() - index,
    {
        assert(pieces.take(index + 1).drop_last() == pieces.take(index as int));
        text.append(parts[index].as_str());
        text.append(terminator);
        index = index + 1;
    }
    assert(pieces.take(index as int) == pieces);
    text
}

} // verus!
