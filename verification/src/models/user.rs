//! The identity record.

use crate::flags::UserFlags;
use vstd::prelude::*;

verus! {

/// The characters of an optional string.
pub open spec fn text_of(text: Option<String>) -> Option<Seq<char>> {
    match text {
        Some(s) => Some(s@),
        None => None,
    }
}

/// A copy of an optional string.
pub fn clone_text(text: &Option<String>) -> (copy: Option<String>)
    ensures
        copy == *text,
{
    match text {
        Some(s) => Some(s.clone()),
        None => None,
    }
}

/// A user account, human or bot.
#[derive(Debug)]
pub struct User {
    /// The snowflake of the user.
    pub id: u64,
    /// The display name, without whitespace around it.
    pub username: String,
    /// The number the server gave out to tell equal names apart.
    pub discriminator: u16,
    /// The avatar, if one is set.
    pub avatar: Option<String>,
    /// The banner, if one is set.
    pub banner: Option<String>,
    /// The bio, if one is set.
    pub bio: Option<String>,
    /// Extra information about the account.
    pub flags: UserFlags,
}

/// [`User`] as a mathematical value.
pub struct UserView {
    pub id: u64,
    pub username: Seq<char>,
    pub discriminator: u16,
    pub avatar: Option<Seq<char>>,
    pub banner: Option<Seq<char>>,
    pub bio: Option<Seq<char>>,
    pub flags: UserFlags,
}

impl View for User {
    type V = UserView;

    open spec fn view(&self) -> UserView {
        UserView {
            id: self.id,
            username: self.username@,
            discriminator: self.discriminator,
            avatar: text_of(self.avatar),
            banner: text_of(self.banner),
            bio: text_of(self.bio),
            flags: self.flags,
        }
    }
}

impl Clone for User {
    fn clone(&self) -> (copy: Self)
        ensures
            copy == *self,
    {
        User {
            id: self.id,
            username: self.username.clone(),
            discriminator: self.discriminator,
            avatar: clone_text(&self.avatar),
            banner: clone_text(&self.banner),
            bio: clone_text(&self.bio),
            flags: self.flags,
        }
    }
}

impl User {
    /// Whether the account is a bot.
    pub fn is_bot(&self) -> (bot: bool)
        ensures
            bot == self.flags.spec_is_bot(),
    {
        self.flags.is_bot()
    }
}

} // verus!
