//! Pieces of generated source text: decimal numbers and string literals.

use vstd::prelude::*;
use vstd::std_specs::iter::IteratorSpec;
use vstd::string::*;

verus! {

broadcast use vstd::string::group_string_axioms;

/// The character that writes the digit `value`, for `value` below ten.
pub open spec fn digit(value: nat) -> char {
    if value == 0 {
        '0'
    } else if value == 1 {
        '1'
    } else if value == 2 {
        '2'
    } else if value == 3 {
        '3'
    } else if value == 4 {
        '4'
    } else if value == 5 {
        '5'
    } else if value == 6 {
        '6'
    } else if value == 7 {
        '7'
    } else if value == 8 {
        '8'
    } else {
        '9'
    }
}

/// The decimal numeral of `number`, without sign or leading zeros.
pub open spec fn decimal(number: nat) -> Seq<char>
    decreases number,
{
    if number < 10 {
        seq![digit(number)]
    } else {
        decimal(number / 10).push(digit(number % 10))
    }
}

/// How one character is written inside a string literal: a backslash before
/// a quote or a backslash, a letter after a backslash for a newline, a
/// carriage return and a tab, and every other character as itself.
pub open spec fn escape_of(c: char) -> Seq<char> {
    if c == '"' {
        seq!['\\', '"']
    } else if c == '\\' {
        seq!['\\', '\\']
    } else if c == '\n' {
        seq!['\\', 'n']
    } else if c == '\r' {
        seq!['\\', 'r']
    } else if c == '\t' {
        seq!['\\', 't']
    } else {
        seq![c]
    }
}

/// Whether a character is written as itself inside a string literal.
pub open spec fn is_plain(c: char) -> bool {
    c != '"' && c != '\\' && c != '\n' && c != '\r' && c != '\t'
}

/// The characters of `text`, each written as inside a string literal.
pub open spec fn escaped(text: Seq<char>) -> Seq<char>
    decreases text.len(),
{
    if text.len() == 0 {
        Seq::empty()
    } else {
        escaped(text.drop_last()) + escape_of(text.last())
    }
}

/// The string literal that denotes `text`: its escaped characters between
/// two quotes.
pub open spec fn string_literal(text: Seq<char>) -> Seq<char> {
    seq!['"'] + escaped(text) + seq!['"']
}

/// The character that stands behind a backslash for `letter`, where the
/// two are an escape sequence.
pub open spec fn escape_value(letter: char) -> Option<char> {
    if letter == '"' {
        Some('"')
    } else if letter == '\\' {
        Some('\\')
    } else if letter == 'n' {
        Some('\n')
    } else if letter == 'r' {
        Some('\r')
    } else if letter == 't' {
        Some('\t')
    } else {
        None
    }
}

/// The text that escaped characters stand for, read from the front: a
/// backslash and the letter behind it stand for one character, every other
/// character but a quote for itself. Characters that end in the middle of
/// an escape sequence, or hold an unknown one or a bare quote, stand for
/// nothing.
pub open spec fn unescaped(body: Seq<char>) -> Option<Seq<char>>
    decreases body.len(),
{
    if body.len() == 0 {
        Some(Seq::empty())
    } else if body[0] == '\\' {
        if body.len() < 2 {
            None
        } else {
            match (escape_value(body[1]), unescaped(body.skip(2))) {
                (Some(c), Some(rest)) => Some(seq![c] + rest),
                _ => None,
            }
        }
    } else if body[0] == '"' {
        None
    } else {
        match unescaped(body.skip(1)) {
            Some(rest) => Some(seq![body[0]] + rest),
            None => None,
        }
    }
}

/// The text that a string literal denotes: what the characters between its
/// two quotes stand for.
pub open spec fn literal_value(literal: Seq<char>) -> Option<Seq<char>> {
    if literal.len() >= 2 && literal[0] == '"' && literal[literal.len() - 1] == '"' {
        unescaped(literal.subrange(1, literal.len() - 1))
    } else {
        None
    }
}

/// Escaping goes character by character, so it distributes over joining.
pub proof fn lemma_escaped_joined(left: Seq<char>, right: Seq<char>)
    ensures
        escaped(left + right) == escaped(left) + escaped(right),
    decreases right.len(),
{
    if right.len() == 0 {
    } else {
        assert((left + right).drop_last() == left + right.drop_last());
        lemma_escaped_joined(left, right.drop_last());
    }
}

/// Text made of plain characters only is its own escaped form.
pub proof fn lemma_escaped_plain(text: Seq<char>)
    requires
        forall|k: int| 0 <= k < text.len() ==> is_plain(text[k]),
    ensures
        escaped(text) == text,
    decreases text.len(),
{
    if text.len() > 0 {
        lemma_escaped_plain(text.drop_last());
    }
}

/// Escaped characters stand for the text that was escaped.
pub proof fn lemma_unescaped_escaped(text: Seq<char>)
    ensures
        unescaped(escaped(text)) == Some(text),
    decreases text.len(),
{
    if text.len() > 0 {
        let first = text[0];
        let rest = text.skip(1);
        assert(seq![first] + rest == text);
        assert(seq![first].drop_last() == Seq::<char>::empty());
        assert(escaped(seq![first]) == escape_of(first)) by {
            assert(escaped(Seq::<char>::empty()) == Seq::<char>::empty());
        }
        lemma_escaped_joined(seq![first], rest);
        lemma_unescaped_escaped(rest);
        let body = escaped(text);
        if is_plain(first) {
            assert(body.skip(1) == escaped(rest));
        } else {
            assert(body.skip(2) == escaped(rest));
        }
    }
}

/// The string literal that is written for a text denotes that text:
/// nothing is lost or changed on the way through the generated source.
pub proof fn lemma_literal_denotes_text(text: Seq<char>)
    ensures
        literal_value(string_literal(text)) == Some(text),
{
    let literal = string_literal(text);
    lemma_unescaped_escaped(text);
    assert(literal.subrange(1, literal.len() - 1) == escaped(text));
}

fn digit_text(value: usize) -> (text: &'static str)
    requires
        value < 10,
    ensures
        text@ == seq![digit(value as nat)],
{
    proof {
        reveal_strlit("0");
        reveal_strlit("1");
        reveal_strlit("2");
        reveal_strlit("3");
        reveal_strlit("4");
        reveal_strlit("5");
        reveal_strlit("6");
        reveal_strlit("7");
        reveal_strlit("8");
        reveal_strlit("9");
    }
    let text = if value == 0 {
        "0"
    } else if value == 1 {
        "1"
    } else if value == 2 {
        "2"
    } else if value == 3 {
        "3"
    } else if value == 4 {
        "4"
    } else if value == 5 {
        "5"
    } else if value == 6 {
        "6"
    } else if value == 7 {
        "7"
    } else if value == 8 {
        "8"
    } else {
        "9"
    };
    text
}

/// Writes `number` as a decimal numeral.
pub fn decimal_text(number: usize) -> (text: String)
    ensures
        text@ == decimal(number as nat),
    decreases number,
{
    if number < 10 {
        String::from_str(digit_text(number))
    } else {
        let mut text = decimal_text(number / 10);
        text.append(digit_text(number % 10));
        text
    }
}

/// The escape sequence of a character that is not written as itself.
fn escape_sequence(c: char) -> (sequence: Option<&'static str>)
    ensures
        match sequence {
            Some(s) => !is_plain(c) && s@ == escape_of(c),
            None => is_plain(c) && escape_of(c) == seq![c],
        },
{
    proof {
        reveal_strlit("\\\"");
        reveal_strlit("\\\\");
        reveal_strlit("\\n");
        reveal_strlit("\\r");
        reveal_strlit("\\t");
    }
    if c == '"' {
        Some("\\\"")
    } else if c == '\\' {
        Some("\\\\")
    } else if c == '\n' {
        Some("\\n")
    } else if c == '\r' {
        Some("\\r")
    } else if c == '\t' {
        Some("\\t")
    } else {
        None
    }
}

/// Writes `text` as a string literal of the generated source.
pub fn string_literal_text(text: &str) -> (literal: String)
    ensures
        literal@ == string_literal(text@),
{
    proof {
        reveal_strlit("\"");
    }
    let length: usize = text.unicode_len();
    let mut literal = String::from_str("\"");
    let mut chars = text.chars();
    let mut run: usize = 0;
    let mut position: usize = 0;
    loop
        invariant
            length == text@.len(),
            run <= position <= length,
            chars.remaining() == text@.subrange(position as int, length as int),
            forall|k: int| run <= k < position ==> is_plain(text@[k]),
            literal@ == seq!['"'] + escaped(text@.take(run as int)),
            "\""@ == seq!['"'],
        decreases length - position,
    {
        let ghost pending = text@.subrange(run as int, position as int);
        proof {
            lemma_escaped_plain(pending);
            lemma_escaped_joined(text@.take(run as int), pending);
            assert(text@.take(run as int) + pending == text@.take(position as int));
        }
        match chars.next() {
            Some(c) => {
                match escape_sequence(c) {
                    Some(sequence) => {
                        literal.append(text.substring_char(run, position));
                        literal.append(sequence);
                        proof {
                            let done = text@.take(position + 1);
                            assert(done.drop_last() == text@.take(position as int));
                        }
                        run = position + 1;
                    },
                    None => {},
                }
                position = position + 1;
            },
            None => {
                literal.append(text.substring_char(run, position));
                literal.append("\"");
                assert(text@.take(position as int) == text@);
                return literal;
            },
        }
    }
}

} // verus!
