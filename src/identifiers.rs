//! Matrix user identifiers, held by their canonical text.

use vstd::prelude::*;

verus! {

/// The canonical text of a user identifier, or `None` where the text is no
/// valid user identifier.
pub uninterp spec fn user_id_text(s: Seq<char>) -> Option<Seq<char>>;

/// Relies on `ruma_identifiers::UserId::try_from(&str)`, which checks the
/// text and lowercases the localpart, and on its `Display`, which writes the
/// identifier back (without the default port).
#[verifier::external_body]
fn canonical_user_id(s: &str) -> (r: Option<String>)
    ensures
        match r {
            Some(t) => user_id_text(s@) == Some(t@),
            None => user_id_text(s@) is None,
        },
{
    match <ruma_identifiers::UserId as std::convert::TryFrom<&str>>::try_from(s) {
        Ok(u) => Some(u.to_string()),
        Err(_) => None,
    }
}

/// The identifier of a user: `@localpart:server`.
#[derive(Clone, Debug, PartialEq, Eq)]
pub struct UserId {
    text: String,
}

impl View for UserId {
    type V = Seq<char>;

    closed spec fn view(&self) -> Seq<char> {
        self.text@
    }
}

impl UserId {
    /// Parses a user identifier, `None` where the text is none.
    pub fn parse(s: &str) -> (r: Option<UserId>)
        ensures
            match r {
                Some(u) => user_id_text(s@) == Some(u@),
                None => user_id_text(s@) is None,
            },
    {
        match canonical_user_id(s) {
            Some(text) => Some(UserId { text }),
            None => None,
        }
    }

    /// The canonical text of the identifier.
    pub fn as_str(&self) -> (r: &str)
        ensures
            r@ == self@,
    {
        self.text.as_str()
    }
}

} // verus!
