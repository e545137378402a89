//! The bot account.

use crate::models::{MaybePartialUser, MaybePartialUserView};
use vstd::prelude::*;

verus! {

/// Represents a bot account.
#[derive(Debug)]
pub struct Bot {
    /// The bot user.
    pub user: MaybePartialUser,
    /// The owner ID of the bot.
    pub owner_id: u64,
}

/// [`Bot`] as a mathematical value.
pub struct BotView {
    pub user: MaybePartialUserView,
    pub owner_id: u64,
}

impl View for Bot {
    type V = BotView;

    open spec fn view(&self) -> BotView {
        BotView { user: self.user@, owner_id: self.owner_id }
    }
}

impl Clone for Bot {
    fn clone(&self) -> (copy: Self)
        ensures
            copy == *self,
    {
        Bot { user: self.user.clone(), owner_id: self.owner_id }
    }
}

impl Bot {
    /// The identifier of the bot, which is that of its user.
    pub fn id(&self) -> (id: u64)
        ensures
            id == self@.user.id(),
    {
        self.user.id()
    }
}

} // verus!
