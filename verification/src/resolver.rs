//! The action key of a request: the token of the raw query string that names
//! the action a form was submitted to.

use vstd::prelude::*;
use vstd::std_specs::iter::IteratorSpec;
use vstd::string::*;

verus! {

broadcast use vstd::string::group_string_axioms;

/// Whether a token of a query string selects an action: it begins with `/`
/// and holds no `=`.
pub open spec fn is_action_key(token: Seq<char>) -> bool {
    &&& token.len() > 0
    &&& token[0] == '/'
    &&& forall|k: int| 0 <= k < token.len() ==> token[k] != '='
}

/// The tokens that the separator `&` cuts a query string into, in order. A
/// query with `n` separators has `n + 1` tokens, some of them perhaps empty.
pub open spec fn tokens(query: Seq<char>) -> Seq<Seq<char>>
    decreases query.len(),
{
    if query.len() == 0 {
        seq![Seq::empty()]
    } else {
        let before = tokens(query.drop_last());
        if query.last() == '&' {
            before.push(Seq::empty())
        } else {
            before.drop_last().push(before.last().push(query.last()))
        }
    }
}

/// The first of `tokens` that is an action key.
pub open spec fn first_key(tokens: Seq<Seq<char>>) -> Option<Seq<char>>
    decreases tokens.len(),
{
    if tokens.len() == 0 {
        None
    } else if is_action_key(tokens[0]) {
        Some(tokens[0])
    } else {
        first_key(tokens.drop_first())
    }
}

/// The action key of a request: the first token of its raw query that is an
/// action key. A request without a query has none.
pub open spec fn action_key(raw_query: Option<Seq<char>>) -> Option<Seq<char>> {
    match raw_query {
        Some(query) => first_key(tokens(query)),
        None => None,
    }
}

/// What an optional string slice holds.
pub open spec fn text_of(text: Option<&str>) -> Option<Seq<char>> {
    match text {
        Some(t) => Some(t@),
        None => None,
    }
}

/// Every query has at least one token.
pub proof fn lemma_tokens_nonempty(query: Seq<char>)
    ensures
        tokens(query).len() >= 1,
    decreases query.len(),
{
    if query.len() > 0 {
        lemma_tokens_nonempty(query.drop_last());
    }
}

/// A query without a separator is its own single token.
pub proof fn lemma_tokens_without_separator(query: Seq<char>)
    requires
        forall|k: int| 0 <= k < query.len() ==> query[k] != '&',
    ensures
        tokens(query) == seq![query],
    decreases query.len(),
{
    if query.len() == 0 {
        assert(query == Seq::<char>::empty());
    } else {
        lemma_tokens_without_separator(query.drop_last());
        assert(query.drop_last().push(query.last()) == query);
    }
}

/// The tokens with a separator between each two of them.
pub open spec fn rejoined(tokens: Seq<Seq<char>>) -> Seq<char>
    decreases tokens.len(),
{
    if tokens.len() == 0 {
        Seq::empty()
    } else if tokens.len() == 1 {
        tokens[0]
    } else {
        rejoined(tokens.drop_last()) + seq!['&'] + tokens.last()
    }
}

/// No token holds a separator.
pub proof fn lemma_tokens_hold_no_separator(query: Seq<char>, index: int, at: int)
    requires
        0 <= index < tokens(query).len(),
        0 <= at < tokens(query)[index].len(),
    ensures
        tokens(query)[index][at] != '&',
    decreases query.len(),
{
    if query.len() > 0 {
        let before = tokens(query.drop_last());
        lemma_tokens_nonempty(query.drop_last());
        if query.last() == '&' {
            if index < before.len() {
                lemma_tokens_hold_no_separator(query.drop_last(), index, at);
            }
        } else if index < before.len() - 1 {
            lemma_tokens_hold_no_separator(query.drop_last(), index, at);
        } else if at < before.last().len() {
            lemma_tokens_hold_no_separator(query.drop_last(), index, at);
        }
    }
}

/// The tokens are the whole query: with the separators put back between
/// them they give the query again.
pub proof fn lemma_tokens_rejoined(query: Seq<char>)
    ensures
        rejoined(tokens(query)) == query,
    decreases query.len(),
{
    if query.len() == 0 {
    } else {
        let before = tokens(query.drop_last());
        lemma_tokens_nonempty(query.drop_last());
        lemma_tokens_rejoined(query.drop_last());
        assert(query.drop_last().push(query.last()) == query);
        if query.last() == '&' {
            let now = before.push(Seq::empty());
            assert(now.drop_last() == before);
        } else {
            let grown = before.last().push(query.last());
            let now = before.drop_last().push(grown);
            if before.len() > 1 {
                assert(now.drop_last() == before.drop_last());
            }
        }
    }
}

/// The first key is the first of the tokens that is an action key: it is
/// one, no token before it is one, and there is none exactly where no token
/// is an action key.
pub proof fn lemma_first_key_is_first(tokens: Seq<Seq<char>>)
    ensures
        match first_key(tokens) {
            Some(key) => exists|index: int|
                {
                    &&& 0 <= index < tokens.len()
                    &&& #[trigger] tokens[index] == key
                    &&& is_action_key(key)
                    &&& forall|earlier: int| 0 <= earlier < index ==> !is_action_key(tokens[earlier])
                },
            None => forall|index: int| 0 <= index < tokens.len() ==> !is_action_key(tokens[index]),
        },
    decreases tokens.len(),
{
    if tokens.len() > 0 && !is_action_key(tokens[0]) {
        let rest = tokens.drop_first();
        lemma_first_key_is_first(rest);
        match first_key(rest) {
            Some(key) => {
                let index = choose|index: int|
                    {
                        &&& 0 <= index < rest.len()
                        &&& #[trigger] rest[index] == key
                        &&& is_action_key(key)
                        &&& forall|earlier: int|
                            0 <= earlier < index ==> !is_action_key(rest[earlier])
                    };
                assert forall|earlier: int| 0 <= earlier < index + 1 implies !is_action_key(
                    tokens[earlier],
                ) by {
                    if earlier > 0 {
                        assert(rest[earlier - 1] == tokens[earlier]);
                    }
                }
            },
            None => {
                assert forall|index: int| 0 <= index < tokens.len() implies !is_action_key(
                    tokens[index],
                ) by {
                    if index > 0 {
                        assert(rest[index - 1] == tokens[index]);
                    }
                }
            },
        }
    }
}

/// The tokens of two queries joined by a separator are the tokens of the
/// first followed by the tokens of the second.
pub proof fn lemma_tokens_joined(left: Seq<char>, right: Seq<char>)
    ensures
        tokens(left + seq!['&'] + right) == tokens(left) + tokens(right),
    decreases right.len(),
{
    let whole = left + seq!['&'] + right;
    lemma_tokens_nonempty(left);
    if right.len() == 0 {
        assert(whole.drop_last() == left);
    } else {
        let shorter = right.drop_last();
        lemma_tokens_joined(left, shorter);
        lemma_tokens_nonempty(shorter);
        assert(whole.drop_last() == left + seq!['&'] + shorter);
    }
}

/// The first key of two runs of tokens is that of the first run, and where
/// it has none, that of the second: an earlier token wins.
pub proof fn lemma_first_key_of_runs(first: Seq<Seq<char>>, second: Seq<Seq<char>>)
    ensures
        first_key(first + second) == if first_key(first) is Some {
            first_key(first)
        } else {
            first_key(second)
        },
    decreases first.len(),
{
    if first.len() == 0 {
    } else {
        assert((first + second).drop_first() == first.drop_first() + second);
        lemma_first_key_of_runs(first.drop_first(), second);
    }
}

/// The key of the prefix `query[..to]`, where the token `query[from..to]` is
/// its last and no earlier token is a key.
proof fn lemma_key_of_prefix(query: Seq<char>, from: int, to: int)
    requires
        0 <= from <= to <= query.len(),
        forall|k: int| from <= k < to ==> query[k] != '&',
        from > 0 ==> query[from - 1] == '&' && first_key(tokens(query.take(from - 1))) is None,
    ensures
        first_key(tokens(query.take(to))) == if is_action_key(query.subrange(from, to)) {
            Some(query.subrange(from, to))
        } else {
            None
        },
{
    let token = query.subrange(from, to);
    lemma_tokens_without_separator(token);
    assert(first_key(seq![token].drop_first()) is None);
    if from == 0 {
    } else {
        let earlier = query.take(from - 1);
        assert(query.take(to) == earlier + seq!['&'] + token);
        lemma_tokens_joined(earlier, token);
        lemma_first_key_of_runs(tokens(earlier), seq![token]);
    }
}

/// A key found in the prefix `query[..at]`, which a separator or the end of
/// the query follows, is the key of the whole query; a prefix that is the
/// whole query and has no key leaves the query without one.
proof fn lemma_key_of_whole(query: Seq<char>, at: int)
    requires
        0 <= at <= query.len(),
        at < query.len() ==> query[at] == '&',
        at < query.len() ==> first_key(tokens(query.take(at))) is Some,
    ensures
        first_key(tokens(query)) == first_key(tokens(query.take(at))),
{
    if at == query.len() {
        assert(query.take(at) == query);
    } else {
        let rest = query.skip(at + 1);
        assert(query == query.take(at) + seq!['&'] + rest);
        lemma_tokens_joined(query.take(at), rest);
        lemma_first_key_of_runs(tokens(query.take(at)), tokens(rest));
    }
}

/// Extracts the action key from the raw, undecoded query string of a
/// request: the first token between `&` separators that begins with `/` and
/// holds no `=`. Later tokens of that shape are ignored.
pub fn query_action(raw_query: Option<&str>) -> (key: Option<&str>)
    ensures
        text_of(key) == action_key(text_of(raw_query)),
{
    let query = match raw_query {
        Some(query) => query,
        None => {
            return None;
        },
    };
    let length: usize = query.unicode_len();
    let mut chars = query.chars();
    let mut start: usize = 0;
    let mut position: usize = 0;
    let mut has_equals = false;
    let mut leading_slash = false;
    loop
        invariant
            raw_query == Some(query),
            length == query@.len(),
            start <= position <= length,
            chars.remaining() == query@.subrange(position as int, length as int),
            forall|k: int| start <= k < position ==> query@[k] != '&',
            has_equals <==> exists|k: int| start <= k < position && query@[k] == '=',
            leading_slash <==> start < position && query@[start as int] == '/',
            start > 0 ==> query@[start - 1] == '&' && first_key(
                tokens(query@.take(start - 1)),
            ) is None,
        decreases length - position,
    {
        let ghost token = query@.subrange(start as int, position as int);
        proof {
            lemma_key_of_prefix(query@, start as int, position as int);
            if has_equals {
                let k = choose|k: int| start <= k < position && query@[k] == '=';
                assert(token[k - start] == '=');
            }
        }
        match chars.next() {
            Some(c) => {
                if c == '&' {
                    if !has_equals && leading_slash {
                        proof {
                            lemma_key_of_whole(query@, position as int);
                        }
                        return Some(query.substring_char(start, position));
                    }
                    start = position + 1;
                    has_equals = false;
                    leading_slash = false;
                } else {
                    if c == '=' {
                        has_equals = true;
                    }
                    if position == start && c == '/' {
                        leading_slash = true;
                    }
                }
                position = position + 1;
            },
            None => {
                proof {
                    lemma_key_of_whole(query@, position as int);
                }
                if !has_equals && leading_slash {
                    return Some(query.substring_char(start, position));
                }
                return None;
            },
        }
    }
}

} // verus!
