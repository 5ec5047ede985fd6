//! The decision that every generated dispatcher makes: which action, if
//! any, a request selects.

use crate::resolver::{action_key, query_action, text_of};
use vstd::prelude::*;
use vstd::std_specs::iter::IteratorSpec;
use vstd::string::*;

verus! {

broadcast use vstd::string::group_string_axioms;

/// Whether `index` is the first place at which `routes` holds `key`.
pub open spec fn is_first_match(routes: Seq<Seq<char>>, key: Seq<char>, index: int) -> bool {
    &&& 0 <= index < routes.len()
    &&& routes[index] == key
    &&& forall|earlier: int| 0 <= earlier < index ==> routes[earlier] != key
}

/// The first place at which `routes` holds `key`.
pub open spec fn position_of(routes: Seq<Seq<char>>, key: Seq<char>) -> Option<int>
    decreases routes.len(),
{
    if routes.len() == 0 {
        None
    } else {
        match position_of(routes.drop_last(), key) {
            Some(index) => Some(index),
            None => if routes.last() == key {
                Some(routes.len() - 1)
            } else {
                None
            },
        }
    }
}

/// The action that a request with the action key `key` selects among the
/// actions with the action keys `routes`, in declared order: the first whose
/// action key is that of the request.
pub open spec fn selection(key: Option<Seq<char>>, routes: Seq<Seq<char>>) -> Option<int> {
    match key {
        Some(key) => position_of(routes, key),
        None => None,
    }
}

/// A position, as a mathematical integer.
pub open spec fn index_of(position: Option<usize>) -> Option<int> {
    match position {
        Some(index) => Some(index as int),
        None => None,
    }
}

/// The position of a key is its first match, and a key has no position
/// exactly where no route is that key.
pub proof fn lemma_position_is_first_match(routes: Seq<Seq<char>>, key: Seq<char>)
    ensures
        match position_of(routes, key) {
            Some(index) => is_first_match(routes, key, index),
            None => forall|index: int| 0 <= index < routes.len() ==> routes[index] != key,
        },
    decreases routes.len(),
{
    if routes.len() > 0 {
        lemma_position_is_first_match(routes.drop_last(), key);
        let shorter = routes.drop_last();
        match position_of(shorter, key) {
            Some(index) => {
                assert forall|earlier: int| 0 <= earlier < index implies routes[earlier] != key by {
                    assert(shorter[earlier] == routes[earlier]);
                }
            },
            None => {
                assert forall|index: int| 0 <= index < routes.len() - 1 implies routes[index]
                    != key by {
                    assert(shorter[index] == routes[index]);
                }
            },
        }
    }
}

/// A first match is the position of the key.
pub proof fn lemma_first_match_is_position(routes: Seq<Seq<char>>, key: Seq<char>, index: int)
    requires
        is_first_match(routes, key, index),
    ensures
        position_of(routes, key) == Some(index),
{
    lemma_position_is_first_match(routes, key);
}

/// A request selects an action only by its own action key: with actions
/// whose keys differ from one another, the request whose key is that of the
/// action at `index` selects that action and no other.
pub proof fn lemma_key_selects_its_action(
    raw_query: Option<Seq<char>>,
    routes: Seq<Seq<char>>,
    index: int,
)
    requires
        0 <= index < routes.len(),
        forall|a: int, b: int| 0 <= a < b < routes.len() ==> routes[a] != routes[b],
        action_key(raw_query) == Some(routes[index]),
    ensures
        selection(action_key(raw_query), routes) == Some(index),
        forall|other: int|
            0 <= other < routes.len() && other != index ==> selection(action_key(raw_query), routes)
                != Some(other),
{
    lemma_first_match_is_position(routes, routes[index], index);
}

/// Among actions that share an action key the first one declared is
/// selected.
pub proof fn lemma_first_declared_wins(
    raw_query: Option<Seq<char>>,
    routes: Seq<Seq<char>>,
    index: int,
)
    requires
        selection(action_key(raw_query), routes) == Some(index),
    ensures
        0 <= index < routes.len(),
        action_key(raw_query) == Some(routes[index]),
        forall|earlier: int| 0 <= earlier < index ==> Some(routes[earlier]) != action_key(raw_query),
{
    lemma_position_is_first_match(routes, action_key(raw_query)->Some_0);
}

/// Without actions no request selects anything: every request is answered
/// as not found.
pub proof fn lemma_no_actions_select_nothing(raw_query: Option<Seq<char>>)
    ensures
        selection(action_key(raw_query), Seq::empty()) is None,
{
}

/// A request whose action key is that of no action selects nothing.
pub proof fn lemma_unknown_key_selects_nothing(
    raw_query: Option<Seq<char>>,
    routes: Seq<Seq<char>>,
)
    requires
        forall|index: int| 0 <= index < routes.len() ==> Some(routes[index]) != action_key(raw_query),
    ensures
        selection(action_key(raw_query), routes) is None,
{
    if action_key(raw_query) is Some {
        lemma_position_is_first_match(routes, action_key(raw_query)->Some_0);
    }
}

/// What a request selects depends on its action key alone: two requests
/// with the same action key select the same action, whatever else their
/// queries hold and whatever other requests are being served.
pub proof fn lemma_selection_depends_on_key_alone(
    first: Option<Seq<char>>,
    second: Option<Seq<char>>,
    routes: Seq<Seq<char>>,
)
    requires
        action_key(first) == action_key(second),
    ensures
        selection(action_key(first), routes) == selection(action_key(second), routes),
{
}

/// Whether two string slices hold the same text.
pub fn same_text(left: &str, right: &str) -> (same: bool)
    ensures
        same == (left@ == right@),
{
    let mut left_chars = left.chars();
    let mut right_chars = right.chars();
    let ghost mut position: int = 0;
    loop
        invariant
            0 <= position <= left@.len(),
            position <= right@.len(),
            left_chars.remaining() == left@.skip(position),
            right_chars.remaining() == right@.skip(position),
            left@.take(position) == right@.take(position),
        decreases left@.len() - position,
    {
        match left_chars.next() {
            Some(l) => {
                match right_chars.next() {
                    Some(r) => {
                        if l != r {
                            return false;
                        }
                        proof {
                            position = position + 1;
                        }
                    },
                    None => {
                        return false;
                    },
                }
            },
            None => {
                match right_chars.next() {
                    Some(_) => {
                        return false;
                    },
                    None => {
                        assert(left@.take(position) == left@);
                        assert(right@.take(position) == right@);
                        return true;
                    },
                }
            },
        }
    }
}

/// Selects the action that a request is for.
///
/// The action key of the request is resolved from its raw query and
/// compared with the action key of each action in declared order. The
/// result is the position of the first action whose key it is, and `None`
/// where the request has no action key or no action has that key.
pub fn select_action(raw_query: Option<&str>, routes: &[&str]) -> (selected: Option<usize>)
    ensures
        index_of(selected) == selection(action_key(text_of(raw_query)), routes.deep_view()),
{
    let key = match query_action(raw_query) {
        Some(key) => key,
        None => {
            return None;
        },
    };
    let ghost keys = routes.deep_view();
    let mut index: usize = 0;
    while index < routes.len()
        invariant
            index <= routes.len(),
            keys == routes.deep_view(),
            action_key(text_of(raw_query)) == Some(key@),
            position_of(keys.take(index as int), key@) is None,
        decreases routes.len() - index,
    {
        assert(keys.take(index + 1).drop_last() == keys.take(index as int));
        if same_text(routes[index], key) {
            proof {
                lemma_position_is_first_match(keys.take(index + 1), key@);
                assert(is_first_match(keys, key@, index as int)) by {
                    assert forall|earlier: int| 0 <= earlier < index implies keys[earlier]
                        != key@ by {
                        assert(keys.take(index + 1)[earlier] == keys[earlier]);
                    }
                }
                lemma_first_match_is_position(keys, key@, index as int);
            }
            return Some(index);
        }
        index = index + 1;
    }
    assert(keys.take(index as int) == keys);
    None
}

} // verus!
