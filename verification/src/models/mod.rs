//! The records that are stored and sent.

pub mod bot;
pub mod guild;
pub mod invite;
pub mod user;

use crate::models::user::{User, UserView};
use vstd::prelude::*;

verus! {

/// A user where another record embeds one: either the whole record, or only
/// its identifier when the record was not fetched.
#[derive(Debug)]
pub enum MaybePartialUser {
    /// The whole record.
    Full(User),
    /// The identifier alone.
    Partial { id: u64 },
}

/// [`MaybePartialUser`] as a mathematical value.
pub enum MaybePartialUserView {
    Full(UserView),
    Partial { id: u64 },
}

impl MaybePartialUserView {
    /// The identifier, whichever form is held.
    pub open spec fn id(self) -> u64 {
        match self {
            MaybePartialUserView::Full(user) => user.id,
            MaybePartialUserView::Partial { id } => id,
        }
    }
}

impl View for MaybePartialUser {
    type V = MaybePartialUserView;

    open spec fn view(&self) -> MaybePartialUserView {
        match *self {
            MaybePartialUser::Full(user) => MaybePartialUserView::Full(user@),
            MaybePartialUser::Partial { id } => MaybePartialUserView::Partial { id },
        }
    }
}

impl Clone for MaybePartialUser {
    fn clone(&self) -> (copy: Self)
        ensures
            copy == *self,
    {
        match self {
            MaybePartialUser::Full(user) => MaybePartialUser::Full(user.clone()),
            MaybePartialUser::Partial { id } => MaybePartialUser::Partial { id: *id },
        }
    }
}

impl MaybePartialUser {
    /// The identifier, whichever form is held.
    pub fn id(&self) -> (id: u64)
        ensures
            id == self@.id(),
    {
        match self {
            MaybePartialUser::Full(user) => user.id,
            MaybePartialUser::Partial { id } => *id,
        }
    }

    /// Whether the whole record is held.
    pub fn is_full(&self) -> (full: bool)
        ensures
            full == (self@ is Full),
    {
        match self {
            MaybePartialUser::Full(_) => true,
            MaybePartialUser::Partial { .. } => false,
        }
    }

    /// Whether only the identifier is held.
    pub fn is_partial(&self) -> (partial: bool)
        ensures
            partial == (self@ is Partial),
    {
        match self {
            MaybePartialUser::Full(_) => false,
            MaybePartialUser::Partial { .. } => true,
        }
    }

    /// The whole record, if it is held.
    pub fn as_full(&self) -> (user: Option<&User>)
        ensures
            match user {
                Some(user) => self@ == MaybePartialUserView::Full(user@) && *self
                    == MaybePartialUser::Full(*user),
                None => self@ is Partial,
            },
    {
        match self {
            MaybePartialUser::Full(user) => Some(user),
            MaybePartialUser::Partial { .. } => None,
        }
    }

    /// The same user with nothing but the identifier.
    pub fn to_partial(&self) -> (partial: MaybePartialUser)
        ensures
            partial@ == (MaybePartialUserView::Partial { id: self@.id() }),
    {
        MaybePartialUser::Partial { id: self.id() }
    }
}

} // verus!
