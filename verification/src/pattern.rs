//! Matching text against a class of characters, by the regex crate.

use regex::RegexBuilder;
use vstd::prelude::*;

verus! {

/// The error of the regex crate, carried through and never looked into.
#[verifier::external_type_specification]
#[verifier::external_body]
pub struct ExRegexError(regex::Error);

/// The characters that, written between the brackets of a class, stand for
/// themselves wherever they stand there: ASCII letters and digits, and a few
/// marks that mean nothing special inside a class.
pub open spec fn stands_for_itself(c: char) -> bool {
    ||| ('a' <= c && c <= 'z')
    ||| ('A' <= c && c <= 'Z')
    ||| ('0' <= c && c <= '9')
    ||| c == '/'
    ||| c == ':'
    ||| c == '*'
    ||| c == '?'
    ||| c == '<'
    ||| c == '>'
    ||| c == '"'
    ||| c == '\''
    ||| c == '|'
    ||| c == '+'
    ||| c == '_'
}

/// The characters that the inside of a class names, where it is written with
/// nothing but characters that stand for themselves and escaped backslashes.
pub open spec fn class_members(body: Seq<char>) -> Option<Set<char>>
    decreases body.len(),
{
    if body.len() == 0 {
        Some(Set::empty())
    } else if stands_for_itself(body[0]) {
        match class_members(body.skip(1)) {
            Some(members) => Some(members.insert(body[0])),
            None => None,
        }
    } else if body[0] == '\\' && body.len() >= 2 && body[1] == '\\' {
        match class_members(body.skip(2)) {
            Some(members) => Some(members.insert('\\')),
            None => None,
        }
    } else {
        None
    }
}

/// The characters that a pattern matches, where the pattern is one class in
/// brackets, written as `class_members` reads it.
pub open spec fn literal_class(pattern: Seq<char>) -> Option<Set<char>> {
    if pattern.len() >= 3 && pattern[0] == '[' && pattern.last() == ']' {
        class_members(pattern.subrange(1, pattern.len() - 1))
    } else {
        None
    }
}

/// Whether the text holds one of the characters.
pub open spec fn has_any(text: Seq<char>, members: Set<char>) -> bool {
    exists|i: int| 0 <= i < text.len() && members.contains(#[trigger] text[i])
}

/// Builds the pattern with `regex::RegexBuilder` and calls `is_match` on the
/// text. Trusted, and only of a pattern that is one bracketed class of
/// characters that stand for themselves: such a pattern builds, and it
/// matches exactly where the text holds one of the class's characters.
/// Nothing is claimed of any other pattern.
#[verifier::external_body]
pub(crate) fn regex_is_match(pattern: &str, text: &str) -> (matched: Result<bool, regex::Error>)
    ensures
        literal_class(pattern@) is Some ==> matched is Ok,
        literal_class(pattern@) is Some ==> matched->Ok_0 == has_any(
            text@,
            literal_class(pattern@)->Some_0,
        ),
{
    let regex = RegexBuilder::new(pattern).build()?;
    Ok(regex.is_match(text))
}

} // verus!
