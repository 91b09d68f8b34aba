//! The user name: text that has passed every naming rule.
//!
//! A name must not be blank, must not be longer than [`MAX_GRAPHEMES`]
//! user-perceived characters, and must not contain any of nine forbidden
//! characters. The rules are checked in that order and the first one broken
//! is the one reported. Length is measured in grapheme clusters, while the
//! forbidden characters are looked for among the single characters of the
//! text, so one of them is found even inside a longer cluster.

use crate::errors::UserErrorCode;
use crate::graphemes::{count_graphemes, grapheme_count};
use crate::whitespace::{is_blank, lemma_trim_is_empty_iff_blank, trim};
use vstd::prelude::*;

verus! {

/// The most user-perceived characters a name may have.
pub const MAX_GRAPHEMES: usize = 256;

/// Whether `c` is one of the characters that no name may contain:
/// `/ ( ) " < > \ { }`.
pub open spec fn forbidden(c: char) -> bool {
    ||| c == '/'
    ||| c == '('
    ||| c == ')'
    ||| c == '"'
    ||| c == '<'
    ||| c == '>'
    ||| c == '\\'
    ||| c == '{'
    ||| c == '}'
}

/// Whether some character of `text` is forbidden.
pub open spec fn contains_forbidden(text: Seq<char>) -> bool {
    exists|i: int| 0 <= i < text.len() && forbidden(#[trigger] text[i])
}

/// The first naming rule that `text` breaks, given the number of its
/// graphemes, or `None` if it breaks none.
pub open spec fn broken_rule(text: Seq<char>, graphemes: nat) -> Option<UserErrorCode> {
    if trim(text).len() == 0 {
        Some(UserErrorCode::UserNameIsEmpty)
    } else if graphemes > MAX_GRAPHEMES {
        Some(UserErrorCode::UserNameTooLong)
    } else if contains_forbidden(text) {
        Some(UserErrorCode::UserNameContainForbiddenCharacters)
    } else {
        None
    }
}

/// Whether `text` may be a user name.
pub open spec fn valid(text: Seq<char>) -> bool {
    broken_rule(text, grapheme_count(text)) is None
}

/// A text of which trimming leaves nothing is refused as empty, whatever its
/// length and whatever characters it holds.
pub proof fn lemma_blank_text_is_empty(text: Seq<char>, graphemes: nat)
    requires
        trim(text).len() == 0,
    ensures
        broken_rule(text, graphemes) == Some(UserErrorCode::UserNameIsEmpty),
{
}

/// A text breaks no rule if trimming leaves something of it, it has no more
/// than [`MAX_GRAPHEMES`] graphemes and none of its characters is forbidden.
pub proof fn lemma_well_formed_text_breaks_no_rule(text: Seq<char>, graphemes: nat)
    requires
        trim(text).len() > 0,
        graphemes <= MAX_GRAPHEMES,
        !contains_forbidden(text),
    ensures
        broken_rule(text, graphemes) is None,
{
}

/// A text with more than [`MAX_GRAPHEMES`] graphemes, of which trimming
/// leaves something, is refused as too long, whether or not it also holds a
/// forbidden character: length is judged before the characters are.
pub proof fn lemma_long_text_is_too_long(text: Seq<char>, graphemes: nat)
    requires
        trim(text).len() > 0,
        graphemes > MAX_GRAPHEMES,
    ensures
        broken_rule(text, graphemes) == Some(UserErrorCode::UserNameTooLong),
{
}

/// A forbidden character is never whitespace, so a text that is not too long
/// and holds one is refused for that character and for no other reason. In
/// particular the text made of one forbidden character is refused so.
pub proof fn lemma_forbidden_character_is_refused(text: Seq<char>, at: int, graphemes: nat)
    requires
        0 <= at < text.len(),
        forbidden(text[at]),
        graphemes <= MAX_GRAPHEMES,
    ensures
        broken_rule(text, graphemes) == Some(UserErrorCode::UserNameContainForbiddenCharacters),
        broken_rule(seq![text[at]], graphemes) == Some(
            UserErrorCode::UserNameContainForbiddenCharacters,
        ),
{
    lemma_trim_is_empty_iff_blank(text);
    lemma_trim_is_empty_iff_blank(seq![text[at]]);
}

/// The limit itself is allowed: with exactly [`MAX_GRAPHEMES`] graphemes a
/// text that breaks no other rule breaks none, and with one more it is
/// refused as too long.
pub proof fn lemma_length_limit_is_inclusive(text: Seq<char>)
    requires
        trim(text).len() > 0,
        !contains_forbidden(text),
    ensures
        broken_rule(text, MAX_GRAPHEMES as nat) is None,
        broken_rule(text, (MAX_GRAPHEMES + 1) as nat) == Some(UserErrorCode::UserNameTooLong),
{
}

/// Decides [`forbidden`].
pub fn is_forbidden(c: char) -> (b: bool)
    ensures
        b == forbidden(c),
{
    c == '/' || c == '(' || c == ')' || c == '"' || c == '<' || c == '>' || c == '\\' || c == '{'
        || c == '}'
}

/// Looks for a forbidden character anywhere in `text`.
pub fn has_forbidden_characters(text: &str) -> (b: bool)
    ensures
        b == contains_forbidden(text@),
{
    for c in chars: text.chars()
        invariant
            chars.seq() == text@,
            forall|i: int| 0 <= i < chars.index() ==> !forbidden(#[trigger] text@[i]),
    {
        if is_forbidden(c) {
            return true;
        }
    }
    false
}

/// Applies the naming rules to `text`, of which `graphemes` is taken to be
/// the number of grapheme clusters, and returns the first rule that is
/// broken, if any is.
pub fn first_broken_rule(text: &str, graphemes: usize) -> (rule: Option<UserErrorCode>)
    ensures
        rule == broken_rule(text@, graphemes as nat),
{
    if is_blank(text) {
        return Some(UserErrorCode::UserNameIsEmpty);
    }
    if graphemes > MAX_GRAPHEMES {
        return Some(UserErrorCode::UserNameTooLong);
    }
    if has_forbidden_characters(text) {
        return Some(UserErrorCode::UserNameContainForbiddenCharacters);
    }
    None
}

/// A user name. Every value of this type holds text that is [`valid`]: the
/// only way to make one is [`UserName::parse`], and nothing changes it
/// afterwards.
#[derive(Debug)]
pub struct UserName(String);

impl View for UserName {
    type V = Seq<char>;

    closed spec fn view(&self) -> Seq<char> {
        self.0@
    }
}

impl UserName {
    #[verifier::type_invariant]
    spec fn holds_valid_text(&self) -> bool {
        valid(self.0@)
    }

    /// Makes a name of `s` if `s` breaks no rule, and says which rule it
    /// breaks first if it does. The name holds `s` as it was given: nothing
    /// is trimmed, folded or normalised.
    ///
    /// The first two clauses give the outcome for every `s`; the others
    /// spell it out rule by rule. The last two hold because a text never has
    /// more grapheme clusters than characters, and no forbidden character is
    /// whitespace.
    pub fn parse(s: String) -> (r: Result<UserName, UserErrorCode>)
        ensures
            r.err() == broken_rule(s@, grapheme_count(s@)),
            r matches Ok(name) ==> name@ == s@,
            trim(s@).len() == 0 ==> r.err() == Some(UserErrorCode::UserNameIsEmpty),
            trim(s@).len() > 0 && grapheme_count(s@) > MAX_GRAPHEMES ==> r.err() == Some(
                UserErrorCode::UserNameTooLong,
            ),
            trim(s@).len() > 0 && grapheme_count(s@) <= MAX_GRAPHEMES && !contains_forbidden(s@)
                ==> r is Ok,
            s@.len() <= MAX_GRAPHEMES ==> r.err() != Some(UserErrorCode::UserNameTooLong),
            s@.len() == 1 && forbidden(s@[0]) ==> r.err() == Some(
                UserErrorCode::UserNameContainForbiddenCharacters,
            ),
    {
        let graphemes: usize = count_graphemes(s.as_str());
        proof {
            if s@.len() == 1 && forbidden(s@[0]) {
                lemma_forbidden_character_is_refused(s@, 0, graphemes as nat);
            }
        }
        match first_broken_rule(s.as_str(), graphemes) {
            None => Ok(UserName(s)),
            Some(rule) => Err(rule),
        }
    }
}

impl AsRef<str> for UserName {
    /// The text of the name, as it was given to [`UserName::parse`].
    fn as_ref(&self) -> (text: &str)
        ensures
            text@ == self@,
            valid(text@),
    {
        proof {
            use_type_invariant(self);
        }
        self.0.as_str()
    }
}

} // verus!
