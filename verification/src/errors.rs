//! Classification of rejected input.

use vstd::prelude::*;

verus! {

/// The reason a piece of text was refused as a user name.
///
/// The variants carry no payload: the rule that was broken is identified by
/// the variant itself.
#[derive(Debug, Clone, Copy, PartialEq, Eq, Structural)]
pub enum UserErrorCode {
    /// Nothing is left of the text once surrounding whitespace is removed.
    UserNameIsEmpty,
    /// The text holds more user-perceived characters than a name may have.
    UserNameTooLong,
    /// The text holds a character that no name may contain.
    UserNameContainForbiddenCharacters,
}

} // verus!
