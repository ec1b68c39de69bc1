//! Formatting types into human-readable pretty strings

use std::fmt::Debug;

use twilight_model::guild::Permissions;
use vstd::prelude::*;
use vstd::string::*;

verus! {

/// The bit mask of a set of permission flags
pub uninterp spec fn permission_bits(permissions: Permissions) -> u64;

/// The names of the flags in a set of permissions, as its `Debug` text has
/// them: in upper case, with `_` between words and ` | ` between flags
pub uninterp spec fn debug_text(permissions: Permissions) -> Seq<char>;

/// The text in title case
pub uninterp spec fn titlecase_text(text: Seq<char>) -> Seq<char>;

/// Calls `Permissions::is_empty`, which holds when no bit of the mask is
/// set.
#[verifier::external_body]
fn has_no_flag(permissions: &Permissions) -> (empty: bool)
    ensures
        empty == (permission_bits(*permissions) == 0),
{
    permissions.is_empty()
}

/// Formats the permissions with their `Debug` impl. The contract gives the
/// text its name.
#[verifier::external_body]
fn debug_string(permissions: &Permissions) -> (text: String)
    ensures
        text@ == debug_text(*permissions),
{
    format!("{permissions:?}")
}

/// Calls `titlecase::titlecase`. The contract gives the result its name.
#[verifier::external_body]
fn titlecase_string(text: &str) -> (titled: String)
    ensures
        titled@ == titlecase_text(text@),
{
    titlecase::titlecase(text)
}

/// Calls `String::push`, which appends one character.
#[verifier::external_body]
fn push_char(text: &mut String, character: char)
    ensures
        final(text)@ == old(text)@.push(character),
{
    text.push(character)
}

/// The text with a line break in place of each ` | `, taken from the left
pub open spec fn lines_of(text: Seq<char>) -> Seq<char>
    decreases text.len(),
{
    if text.len() == 0 {
        text
    } else if text.len() >= 3 && text[0] == ' ' && text[1] == '|' && text[2] == ' ' {
        seq!['\n'] + lines_of(text.skip(3))
    } else {
        seq![text[0]] + lines_of(text.skip(1))
    }
}

/// The text with a space in place of each `_`
pub open spec fn words_of(text: Seq<char>) -> Seq<char> {
    text.map_values(
        |character: char|
            if character == '_' {
                ' '
            } else {
                character
            },
    )
}

/// Put each flag of a list on a line of its own
pub fn separate_lines(text: &str) -> (lines: String)
    ensures
        lines@ == lines_of(text@),
{
    let length = text.unicode_len();
    let mut lines = String::new();
    let mut at: usize = 0;
    proof {
        assert(text@.skip(0) =~= text@);
        assert(lines@ + lines_of(text@) =~= lines_of(text@));
    }
    while at < length
        invariant
            length == text@.len(),
            at <= length,
            lines@ + lines_of(text@.skip(at as int)) == lines_of(text@),
        decreases length - at,
    {
        let ghost rest = text@.skip(at as int);
        let ghost before = lines@;
        let first = text.get_char(at);
        let separator = first == ' ' && length - at >= 3 && text.get_char(at + 1) == '|'
            && text.get_char(at + 2) == ' ';
        proof {
            assert(rest.len() == length - at);
            assert(rest[0] == text@[at as int]);
            if length - at >= 3 {
                assert(rest[1] == text@[at + 1]);
                assert(rest[2] == text@[at + 2]);
            }
        }
        if separator {
            push_char(&mut lines, '\n');
            proof {
                assert(rest.skip(3) =~= text@.skip(at + 3));
                assert(lines_of(rest) == seq!['\n'] + lines_of(rest.skip(3)));
                assert(lines@ + lines_of(text@.skip(at + 3)) =~= before + lines_of(rest));
            }
            at = at + 3;
        } else {
            push_char(&mut lines, first);
            proof {
                assert(rest.skip(1) =~= text@.skip(at + 1));
                assert(lines_of(rest) == seq![first] + lines_of(rest.skip(1)));
                assert(lines@ + lines_of(text@.skip(at + 1)) =~= before + lines_of(rest));
            }
            at = at + 1;
        }
    }
    proof {
        assert(text@.skip(at as int).len() == 0);
        assert(lines@ + lines_of(text@.skip(at as int)) =~= lines@);
    }
    lines
}

/// Put a space between the words of each flag
pub fn separate_words(text: &str) -> (words: String)
    ensures
        words@ == words_of(text@),
{
    let length = text.unicode_len();
    let mut words = String::new();
    let mut at: usize = 0;
    proof {
        assert(words@ =~= words_of(text@.take(0)));
    }
    while at < length
        invariant
            length == text@.len(),
            at <= length,
            words@ == words_of(text@.take(at as int)),
        decreases length - at,
    {
        let character = text.get_char(at);
        let spaced = if character == '_' {
            ' '
        } else {
            character
        };
        push_char(&mut words, spaced);
        proof {
            assert(words@ =~= words_of(text@.take(at + 1)));
        }
        at = at + 1;
    }
    proof {
        assert(text@.take(at as int) =~= text@);
    }
    words
}

/// Implemented on types that can be turned into pretty strings
pub trait Prettify: Debug {
    /// The pretty string for this value
    spec fn pretty(&self) -> Seq<char>;

    /// Return the pretty string for this type
    fn prettify(&self) -> (text: String)
        ensures
            text@ == self.pretty(),
    ;
}

impl Prettify for Permissions {
    /// Nothing for no permissions; otherwise the names of the flags, each
    /// on a line of its own and in title case, with spaces between its
    /// words
    open spec fn pretty(&self) -> Seq<char> {
        if permission_bits(*self) == 0 {
            Seq::empty()
        } else {
            titlecase_text(words_of(lines_of(debug_text(*self))))
        }
    }

    fn prettify(&self) -> (text: String) {
        if has_no_flag(self) {
            return String::new();
        }
        let names = debug_string(self);
        let lines = separate_lines(names.as_str());
        let words = separate_words(lines.as_str());
        titlecase_string(words.as_str())
    }
}

} // verus!
