//! The two tables as mathematical values, and what each statement does to them.
//!
//! `users(id PK, username UNIQUE, discriminator, avatar, banner, bio, flags)`
//! and `bots(id PK/FK -> users.id ON DELETE CASCADE, owner_id FK -> users.id)`.
//! The order of the rows carries no meaning.

use crate::db::bot::{BotDeletion, BotRegistrationView};
use crate::db::{column_of, BotRow, CountReplyView, RowReplyView, StatementView, UserRowView};
use crate::error::{
    duplicate_key, missing_reference, still_referenced, ErrorView, StorageFailureView,
};
use crate::models::bot::BotView;
use vstd::prelude::*;

verus! {

/// The rows of both tables.
pub struct Tables {
    pub users: Seq<UserRowView>,
    pub bots: Seq<BotRow>,
}

/// The columns of a user row that an insert does not name. The server fills
/// them in, each backend in its own way.
pub struct Assigned {
    pub discriminator: i16,
    pub avatar: Option<Seq<char>>,
    pub banner: Option<Seq<char>>,
    pub bio: Option<Seq<char>>,
}

impl Assigned {
    /// What the backend in memory fills in: discriminator 0 and nothing else.
    pub open spec fn defaults() -> Assigned {
        Assigned { discriminator: 0, avatar: None, banner: None, bio: None }
    }

    /// What the server filled in for `row`.
    pub open spec fn of(row: UserRowView) -> Assigned {
        Assigned {
            discriminator: row.discriminator,
            avatar: row.avatar,
            banner: row.banner,
            bio: row.bio,
        }
    }
}

/// The row that an insert of `id`, `username` and `flags` stores, with what
/// the server fills in.
pub open spec fn new_user_row(
    id: i64,
    username: Seq<char>,
    flags: i64,
    assigned: Assigned,
) -> UserRowView {
    UserRowView {
        id,
        username,
        discriminator: assigned.discriminator,
        avatar: assigned.avatar,
        banner: assigned.banner,
        bio: assigned.bio,
        flags,
    }
}

impl Tables {
    /// No rows at all.
    pub open spec fn empty() -> Tables {
        Tables { users: Seq::empty(), bots: Seq::empty() }
    }

    /// Whether `users` holds a row with this id.
    pub open spec fn has_user(self, id: i64) -> bool {
        exists|i: int| 0 <= i < self.users.len() && (#[trigger] self.users[i]).id == id
    }

    /// Whether `users` holds a row with this username.
    pub open spec fn username_taken(self, username: Seq<char>) -> bool {
        exists|i: int| 0 <= i < self.users.len() && (#[trigger] self.users[i]).username == username
    }

    /// Whether `bots` holds a row with this id.
    pub open spec fn has_bot(self, id: i64) -> bool {
        exists|i: int| 0 <= i < self.bots.len() && (#[trigger] self.bots[i]).id == id
    }

    /// Whether some bot other than `id` itself names `id` as its owner.
    pub open spec fn owns_another(self, id: i64) -> bool {
        exists|i: int|
            0 <= i < self.bots.len() && (#[trigger] self.bots[i]).owner_id == id && self.bots[i].id
                != id
    }

    /// Where the user row with this id stands, if there is one.
    pub open spec fn user_index(self, id: i64) -> int {
        choose|i: int| 0 <= i < self.users.len() && (#[trigger] self.users[i]).id == id
    }

    /// Where the bot row with this id stands, if there is one.
    pub open spec fn bot_index(self, id: i64) -> int {
        choose|i: int| 0 <= i < self.bots.len() && (#[trigger] self.bots[i]).id == id
    }

    /// The user row with this id.
    pub open spec fn user(self, id: i64) -> Option<UserRowView> {
        if self.has_user(id) {
            Some(self.users[self.user_index(id)])
        } else {
            None
        }
    }

    /// The bot row with this id.
    pub open spec fn bot(self, id: i64) -> Option<BotRow> {
        if self.has_bot(id) {
            Some(self.bots[self.bot_index(id)])
        } else {
            None
        }
    }

    /// The constraints of the schema: both primary keys and the username are
    /// unique, and every bot row refers to two user rows.
    pub open spec fn well_formed(self) -> bool {
        &&& forall|i: int, j: int|
            0 <= i < j < self.users.len() ==> (#[trigger] self.users[i]).id != (
            #[trigger] self.users[j]).id
        &&& forall|i: int, j: int|
            0 <= i < j < self.users.len() ==> (#[trigger] self.users[i]).username != (
            #[trigger] self.users[j]).username
        &&& forall|i: int, j: int|
            0 <= i < j < self.bots.len() ==> (#[trigger] self.bots[i]).id != (
            #[trigger] self.bots[j]).id
        &&& forall|i: int|
            0 <= i < self.bots.len() ==> self.has_user((#[trigger] self.bots[i]).id)
                && self.has_user(self.bots[i].owner_id)
    }

    /// Inserting a user. A username in use gives no row and no failure; an id
    /// in use is a failure; otherwise the row is stored and comes back.
    pub open spec fn insert_user(
        self,
        id: i64,
        username: Seq<char>,
        flags: i64,
        assigned: Assigned,
    ) -> (Tables, RowReplyView) {
        if self.username_taken(username) {
            (self, RowReplyView::NoRow)
        } else if self.has_user(id) {
            (self, RowReplyView::Failed(duplicate_key()))
        } else {
            let row = new_user_row(id, username, flags, assigned);
            (Tables { users: self.users.push(row), bots: self.bots }, RowReplyView::Row(row))
        }
    }

    /// Inserting a bot row. The id must be new in `bots`, and both the id
    /// and the owner must be users.
    pub open spec fn insert_bot(self, id: i64, owner_id: i64) -> (Tables, CountReplyView) {
        if self.has_bot(id) {
            (self, CountReplyView::Failed(duplicate_key()))
        } else if !self.has_user(id) || !self.has_user(owner_id) {
            (self, CountReplyView::Failed(missing_reference()))
        } else {
            (
                Tables { users: self.users, bots: self.bots.push(BotRow { id, owner_id }) },
                CountReplyView::Done { rows_affected: 1 },
            )
        }
    }

    /// Deleting a user. Where there is no such user nothing happens; an
    /// owner of other bots cannot go; otherwise the user row goes, and with
    /// it the bot row of the same id.
    pub open spec fn delete_user(self, id: i64) -> (Tables, CountReplyView) {
        if !self.has_user(id) {
            (self, CountReplyView::Done { rows_affected: 0 })
        } else if self.owns_another(id) {
            (self, CountReplyView::Failed(still_referenced()))
        } else {
            (
                Tables {
                    users: self.users.remove(self.user_index(id)),
                    bots: if self.has_bot(id) {
                        self.bots.remove(self.bot_index(id))
                    } else {
                        self.bots
                    },
                },
                CountReplyView::Done { rows_affected: 1 },
            )
        }
    }

    /// Running a statement and asking for at most one row. `assigned` is
    /// what the server fills in if the statement inserts a user.
    pub open spec fn fetch_optional(self, statement: StatementView, assigned: Assigned) -> (
        Tables,
        RowReplyView,
    ) {
        match statement {
            StatementView::InsertUser { id, username, flags } => self.insert_user(
                id,
                username,
                flags,
                assigned,
            ),
            StatementView::InsertBot { id, owner_id } => {
                let (tables, reply) = self.insert_bot(id, owner_id);
                (tables, no_row(reply))
            },
            StatementView::DeleteUser { id } => {
                let (tables, reply) = self.delete_user(id);
                (tables, no_row(reply))
            },
        }
    }

    /// Running a statement and asking for the number of rows it touched.
    /// `assigned` is what the server fills in if the statement inserts a user.
    pub open spec fn execute(self, statement: StatementView, assigned: Assigned) -> (
        Tables,
        CountReplyView,
    ) {
        match statement {
            StatementView::InsertUser { id, username, flags } => {
                let (tables, reply) = self.insert_user(id, username, flags, assigned);
                (tables, counted(reply))
            },
            StatementView::InsertBot { id, owner_id } => self.insert_bot(id, owner_id),
            StatementView::DeleteUser { id } => self.delete_user(id),
        }
    }

    /// Registering a bot: both statements in turn, the second only after a
    /// row came back from the first. `assigned` is what the server fills in
    /// for the user row.
    pub open spec fn register_bot(
        self,
        id: u64,
        owner_id: u64,
        username: Seq<char>,
        assigned: Assigned,
    ) -> (Tables, Result<BotView, ErrorView>) {
        let registration = BotRegistrationView::begin(id, owner_id, username);
        let (with_user, row_reply) = self.fetch_optional(registration.statement(), assigned);
        match registration.user_inserted(row_reply) {
            Err(error) => (with_user, Err(error)),
            Ok(ownership) => {
                let (with_bot, count_reply) = with_user.execute(ownership.statement(), assigned);
                (with_bot, ownership.bot_inserted(count_reply))
            },
        }
    }

    /// Deleting a bot: the one statement.
    pub open spec fn delete_bot(self, id: u64) -> (Tables, Result<(), StorageFailureView>) {
        let deletion = BotDeletion { id };
        let (tables, reply) = self.delete_user(column_of(id));
        (tables, deletion.spec_deleted(reply))
    }

    /// What a transaction leaves behind: its rows where it was committed,
    /// the rows from before where it was rolled back.
    pub open spec fn settled(self, after: Tables, committed: bool) -> Tables {
        if committed {
            after
        } else {
            self
        }
    }
}

/// The answer to a statement that returns no row, asked for a row.
pub open spec fn no_row(reply: CountReplyView) -> RowReplyView {
    match reply {
        CountReplyView::Done { .. } => RowReplyView::NoRow,
        CountReplyView::Failed(failure) => RowReplyView::Failed(failure),
    }
}

/// The answer to a statement that returns a row, asked for a count.
pub open spec fn counted(reply: RowReplyView) -> CountReplyView {
    match reply {
        RowReplyView::Row(_) => CountReplyView::Done { rows_affected: 1 },
        RowReplyView::NoRow => CountReplyView::Done { rows_affected: 0 },
        RowReplyView::Failed(failure) => CountReplyView::Failed(failure),
    }
}

} // verus!
