//! The visibility levels of a post and their codes on the wire.
use crate::error::{ClientError, ErrorView};
use crate::text::same_text;
use vstd::prelude::*;

verus! {

/// Who may see a post.
#[derive(Debug, Clone, Copy, PartialEq, Eq, Structural)]
pub enum Visibility {
    /// Everyone.
    Public,
    /// The author alone.
    Private,
    /// The author's friends.
    FriendsOnly,
    /// The author's followers.
    FansOnly,
}

/// The level that a wire code stands for, if any.
pub open spec fn level_of_code(code: int) -> Option<Visibility> {
    if code == 0 {
        Some(Visibility::Public)
    } else if code == 1 {
        Some(Visibility::Private)
    } else if code == 2 {
        Some(Visibility::FriendsOnly)
    } else if code == 10 {
        Some(Visibility::FansOnly)
    } else {
        None
    }
}

/// The level that a lower-case keyword names, if any.
pub open spec fn level_of_keyword(word: Seq<char>) -> Option<Visibility> {
    if word == "public"@ || word == "公开"@ {
        Some(Visibility::Public)
    } else if word == "friends"@ || word == "好友"@ || word == "仅好友"@ {
        Some(Visibility::FriendsOnly)
    } else if word == "private"@ || word == "私密"@ || word == "仅自己"@ {
        Some(Visibility::Private)
    } else if word == "fans"@ || word == "粉丝"@ || word == "仅粉丝"@ {
        Some(Visibility::FansOnly)
    } else {
        None
    }
}

/// The lower-case form of a text, as `str::to_lowercase` gives it.
pub uninterp spec fn lowercase(text: Seq<char>) -> Seq<char>;

/// `str::to_lowercase`, which depends on the characters alone.
#[verifier::external_body]
fn to_lowercase(text: &str) -> (r: String)
    ensures
        r@ == lowercase(text@),
{
    text.to_lowercase()
}

impl Visibility {
    /// The code that stands for this level on the wire.
    pub open spec fn wire_code(self) -> int {
        match self {
            Visibility::Public => 0,
            Visibility::Private => 1,
            Visibility::FriendsOnly => 2,
            Visibility::FansOnly => 10,
        }
    }

    /// The name under which the platform shows this level.
    pub open spec fn label(self) -> Seq<char> {
        match self {
            Visibility::Public => "公开"@,
            Visibility::FriendsOnly => "仅好友可见"@,
            Visibility::Private => "仅自己可见"@,
            Visibility::FansOnly => "仅粉丝可见"@,
        }
    }

    /// The name under which the platform shows this level.
    pub fn as_str(&self) -> (r: &str)
        ensures
            r@ == self.label(),
    {
        match self {
            Visibility::Public => "公开",
            Visibility::FriendsOnly => "仅好友可见",
            Visibility::Private => "仅自己可见",
            Visibility::FansOnly => "仅粉丝可见",
        }
    }

    /// The code that stands for this level on the wire.
    pub fn code(self) -> (r: u32)
        ensures
            r == self.wire_code(),
            level_of_code(r as int) == Some(self),
    {
        match self {
            Visibility::Public => 0,
            Visibility::Private => 1,
            Visibility::FriendsOnly => 2,
            Visibility::FansOnly => 10,
        }
    }

    /// The level that a wire code stands for.
    pub fn from_code(code: u32) -> (r: Option<Visibility>)
        ensures
            r == level_of_code(code as int),
            r is Some ==> r.unwrap().wire_code() == code,
    {
        if code == 0 {
            Some(Visibility::Public)
        } else if code == 1 {
            Some(Visibility::Private)
        } else if code == 2 {
            Some(Visibility::FriendsOnly)
        } else if code == 10 {
            Some(Visibility::FansOnly)
        } else {
            None
        }
    }

    /// The level that a lower-case keyword names.
    pub fn from_keyword(word: &str) -> (r: Option<Visibility>)
        ensures
            r == level_of_keyword(word@),
    {
        if same_text(word, "public") || same_text(word, "公开") {
            Some(Visibility::Public)
        } else if same_text(word, "friends") || same_text(word, "好友") || same_text(
            word,
            "仅好友",
        ) {
            Some(Visibility::FriendsOnly)
        } else if same_text(word, "private") || same_text(word, "私密") || same_text(
            word,
            "仅自己",
        ) {
            Some(Visibility::Private)
        } else if same_text(word, "fans") || same_text(word, "粉丝") || same_text(word, "仅粉丝") {
            Some(Visibility::FansOnly)
        } else {
            None
        }
    }
}

/// Codes and levels correspond one to one: a level is found again from its code, a
/// code from its level, and two levels with one code are the same level.
pub proof fn codes_are_a_bijection(a: Visibility, b: Visibility, code: int)
    ensures
        level_of_code(a.wire_code()) == Some(a),
        level_of_code(code) is Some ==> level_of_code(code).unwrap().wire_code() == code,
        a.wire_code() == b.wire_code() ==> a == b,
{
}

/// Reads a visibility level from a word, whatever its letter case. The word is
/// accepted exactly where its lower-case form is a keyword.
pub fn parse_visibility(visibility_str: &str) -> (r: Result<Visibility, ClientError>)
    ensures
        match level_of_keyword(lowercase(visibility_str@)) {
            Some(level) => r == Ok::<Visibility, ClientError>(level),
            None => r is Err && r.unwrap_err()@ == (ErrorView::InvalidVisibility {
                value: visibility_str@,
            }),
        },
{
    let lowered = to_lowercase(visibility_str);
    match Visibility::from_keyword(lowered.as_str()) {
        Some(level) => Ok(level),
        None => Err(ClientError::InvalidVisibility { value: visibility_str.to_owned() }),
    }
}

} // verus!
