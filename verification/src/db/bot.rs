//! Creating and destroying bot accounts.
//!
//! A bot is two rows: one in `users`, flagged as a bot, and one in `bots`
//! that names its owner. Registering a bot takes two statements, and what
//! the second one is depends on the answer to the first. The types here hold
//! the decisions; whoever owns the transaction sends the statements:
//!
//! 1. [`BotRegistration::begin`], send [`BotRegistration::statement`];
//! 2. [`BotRegistration::user_inserted`] with the answer, send
//!    [`BotOwnership::statement`];
//! 3. [`BotOwnership::bot_inserted`] with the answer.
//!
//! On an `Err` the transaction must be rolled back; it must be committed to
//! keep the bot.

use crate::db::tables::{Assigned, Tables};
use crate::db::user::{construct_user, user_of_row};
use crate::db::{
    column_of, to_column, CountReply, CountReplyView, RowReply, RowReplyView, Statement,
    StatementView,
};
use crate::error::{username_taken, Error, ErrorView, StorageFailure, StorageFailureView};
use crate::flags::{widened, UserFlags, BOT};
use crate::models::bot::{Bot, BotView};
use crate::models::user::{User, UserView};
use crate::models::{MaybePartialUser, MaybePartialUserView};
use crate::text::{trim, trimmed};
use vstd::prelude::*;

verus! {

/// A registration that has not sent anything yet.
#[derive(Debug)]
pub struct BotRegistration {
    pub id: u64,
    pub owner_id: u64,
    /// The username as it will be stored.
    pub username: String,
}

/// [`BotRegistration`] as a mathematical value.
pub struct BotRegistrationView {
    pub id: u64,
    pub owner_id: u64,
    pub username: Seq<char>,
}

impl View for BotRegistration {
    type V = BotRegistrationView;

    open spec fn view(&self) -> BotRegistrationView {
        BotRegistrationView { id: self.id, owner_id: self.owner_id, username: self.username@ }
    }
}

/// A registration whose user row is in place and whose bot row is not.
#[derive(Debug)]
pub struct BotOwnership {
    pub id: u64,
    pub owner_id: u64,
    /// The user as the backend stored it.
    pub user: User,
}

/// [`BotOwnership`] as a mathematical value.
pub struct BotOwnershipView {
    pub id: u64,
    pub owner_id: u64,
    pub user: UserView,
}

impl View for BotOwnership {
    type V = BotOwnershipView;

    open spec fn view(&self) -> BotOwnershipView {
        BotOwnershipView { id: self.id, owner_id: self.owner_id, user: self.user@ }
    }
}

impl BotRegistrationView {
    /// The registration of `username` under `id` for `owner_id`.
    pub open spec fn begin(id: u64, owner_id: u64, username: Seq<char>) -> BotRegistrationView {
        BotRegistrationView { id, owner_id, username: trimmed(username) }
    }

    /// The first statement: the user row, flagged as a bot.
    pub open spec fn statement(self) -> StatementView {
        StatementView::InsertUser {
            id: column_of(self.id),
            username: self.username,
            flags: widened(BOT),
        }
    }

    /// What follows from the answer to the first statement.
    pub open spec fn user_inserted(self, reply: RowReplyView) -> Result<
        BotOwnershipView,
        ErrorView,
    > {
        match reply {
            RowReplyView::Row(row) => Ok(
                BotOwnershipView { id: self.id, owner_id: self.owner_id, user: user_of_row(row) },
            ),
            RowReplyView::NoRow => Err(username_taken()),
            RowReplyView::Failed(failure) => Err(ErrorView::Database(failure)),
        }
    }
}

impl BotOwnershipView {
    /// The second statement: the row that names the owner.
    pub open spec fn statement(self) -> StatementView {
        StatementView::InsertBot { id: column_of(self.id), owner_id: column_of(self.owner_id) }
    }

    /// What follows from the answer to the second statement.
    pub open spec fn bot_inserted(self, reply: CountReplyView) -> Result<BotView, ErrorView> {
        match reply {
            CountReplyView::Done { .. } => Ok(
                BotView { user: MaybePartialUserView::Full(self.user), owner_id: self.owner_id },
            ),
            CountReplyView::Failed(failure) => Err(ErrorView::Database(failure)),
        }
    }
}

impl BotRegistration {
    /// Starts the registration of a bot named `username` under `id`, owned by
    /// `owner_id`. The name is stored without the whitespace around it.
    /// Nothing is validated here.
    pub fn begin(id: u64, owner_id: u64, username: &str) -> (registration: BotRegistration)
        ensures
            registration@ == BotRegistrationView::begin(id, owner_id, username@),
    {
        BotRegistration { id, owner_id, username: trim(username).to_owned() }
    }

    /// The statement to send first.
    pub fn statement(&self) -> (statement: Statement)
        ensures
            statement@ == self@.statement(),
    {
        Statement::InsertUser {
            id: to_column(self.id),
            username: self.username.clone(),
            flags: UserFlags::bot().encode_i64(),
        }
    }

    /// Takes the answer to the first statement. A row means the user is in
    /// place; no row means the username is taken; a failure is handed on.
    pub fn user_inserted(self, reply: RowReply) -> (next: Result<BotOwnership, Error>)
        ensures
            match next {
                Ok(ownership) => self@.user_inserted(reply@) == Ok::<BotOwnershipView, ErrorView>(
                    ownership@,
                ),
                Err(error) => self@.user_inserted(reply@) == Err::<BotOwnershipView, ErrorView>(
                    error@,
                ),
            },
    {
        match reply {
            RowReply::Row(row) => Ok(
                BotOwnership { id: self.id, owner_id: self.owner_id, user: construct_user(row) },
            ),
            RowReply::NoRow => Err(Error::username_taken()),
            RowReply::Failed(failure) => Err(Error::Database(failure)),
        }
    }
}

impl BotOwnership {
    /// The statement to send second.
    pub fn statement(&self) -> (statement: Statement)
        ensures
            statement@ == self@.statement(),
    {
        Statement::InsertBot { id: to_column(self.id), owner_id: to_column(self.owner_id) }
    }

    /// Takes the answer to the second statement. The bot holds the whole user,
    /// as it was stored.
    pub fn bot_inserted(self, reply: CountReply) -> (result: Result<Bot, Error>)
        ensures
            match result {
                Ok(bot) => self@.bot_inserted(reply@) == Ok::<BotView, ErrorView>(bot@),
                Err(error) => self@.bot_inserted(reply@) == Err::<BotView, ErrorView>(error@),
            },
    {
        match reply {
            CountReply::Done { .. } => Ok(
                Bot { user: MaybePartialUser::Full(self.user), owner_id: self.owner_id },
            ),
            CountReply::Failed(failure) => Err(Error::Database(failure)),
        }
    }
}

/// The deletion of a bot: one statement, for the user row. The bot row goes
/// with it, by the cascade of the schema.
#[derive(Clone, Copy, Debug, PartialEq, Eq, Structural)]
pub struct BotDeletion {
    pub id: u64,
}

impl BotDeletion {
    /// The one statement of the deletion.
    pub open spec fn spec_statement(self) -> StatementView {
        StatementView::DeleteUser { id: column_of(self.id) }
    }

    /// What follows from the answer. A statement that touched no row has
    /// succeeded like any other.
    pub open spec fn spec_deleted(self, reply: CountReplyView) -> Result<(), StorageFailureView> {
        match reply {
            CountReplyView::Done { .. } => Ok(()),
            CountReplyView::Failed(failure) => Err(failure),
        }
    }

    /// Starts the deletion of the bot `id`.
    pub fn begin(id: u64) -> (deletion: BotDeletion)
        ensures
            deletion.id == id,
    {
        BotDeletion { id }
    }

    /// The statement to send.
    pub fn statement(&self) -> (statement: Statement)
        ensures
            statement@ == self.spec_statement(),
    {
        Statement::DeleteUser { id: to_column(self.id) }
    }

    /// Takes the answer. Deleting what is not there is no error.
    pub fn deleted(self, reply: CountReply) -> (result: Result<(), StorageFailure>)
        ensures
            match result {
                Ok(()) => self.spec_deleted(reply@) == Ok::<(), StorageFailureView>(()),
                Err(failure) => self.spec_deleted(reply@) == Err::<(), StorageFailureView>(
                    failure@,
                ),
            },
    {
        match reply {
            CountReply::Done { .. } => Ok(()),
            CountReply::Failed(failure) => Err(failure),
        }
    }
}

/// The two operations on bot accounts, for whatever holds a transaction.
///
/// Both leave it to the caller to end the transaction: to commit after
/// `Ok`, to roll back after `Err`.
pub trait BotDbExt {
    /// The rows that the transaction sees.
    spec fn tables(&self) -> Tables;

    /// Registers a bot in the database. No validation is done; it must be done
    /// before calling this method.
    ///
    /// A bot comes back only where the rows call for one. The rows are then
    /// what the two statements make of them, with the user row as the
    /// backend stored it: id, username and flags as they were sent, the other
    /// columns as the backend filled them in. A taken username comes back
    /// only where the name is in use, and no row has changed then. A failure
    /// of the backend may come at any time.
    fn register_bot(&mut self, id: u64, owner_id: u64, username: &str) -> (result: Result<
        Bot,
        Error,
    >)
        ensures
            match result {
                Ok(bot) => final(self).tables().user(column_of(id)) matches Some(row) && old(
                    self,
                ).tables().register_bot(id, owner_id, username@, Assigned::of(row)) == (
                    final(self).tables(),
                    Ok::<BotView, ErrorView>(bot@),
                ),
                Err(error) => error@ is Database || (error@ == username_taken() && old(
                    self,
                ).tables().username_taken(trimmed(username@)) && final(self).tables() == old(
                    self,
                ).tables()),
            },
    ;

    /// Deletes a bot from the database. Deleting a bot that is not there is
    /// no error.
    ///
    /// Success comes only where the rows allow it, and the rows are then what
    /// the statement makes of them. A failure of the backend may come at any
    /// time.
    fn delete_bot(&mut self, id: u64) -> (result: Result<(), StorageFailure>)
        ensures
            ({
                let (after, expected) = old(self).tables().delete_bot(id);
                result is Ok ==> expected is Ok && final(self).tables() == after
            }),
    ;
}

} // verus!
