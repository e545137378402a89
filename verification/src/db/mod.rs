//! What is said to the storage backend and what it answers.
//!
//! Nothing here talks to a backend. A caller that owns a connection sends each
//! [`Statement`] and hands the answer back as a [`RowReply`] or a
//! [`CountReply`]; [`memory`] holds a backend that lives in memory.

pub mod bot;
pub mod consistency;
pub mod memory;

pub mod tables;


pub mod user;

use crate::error::{StorageFailure, StorageFailureView};
use crate::models::user::{clone_text, text_of};
use vstd::prelude::*;

verus! {

/// The signed 64-bit column value that stores the identifier `id`: the same 64 bits.
pub open spec fn column_of(id: u64) -> i64 {
    id as i64
}

/// The identifier that the signed 64-bit column value `column` stores: the same 64 bits.
pub open spec fn id_of(column: i64) -> u64 {
    column as u64
}

/// The unsigned 16-bit number that a signed 16-bit column value stores: the same 16 bits.
pub open spec fn small_of(column: i16) -> u16 {
    column as u16
}

/// Identifiers below 2^63 are stored as themselves, the others 2^64 lower.
pub proof fn lemma_column_of(id: u64)
    ensures
        id <= i64::MAX ==> column_of(id) == id,
        id > i64::MAX ==> column_of(id) == id - 0x1_0000_0000_0000_0000,
{
    assert(id <= 0x7fff_ffff_ffff_ffffu64 ==> (id as i64) == id) by (bit_vector);
    assert(id > 0x7fff_ffff_ffff_ffffu64 ==> (id as i64) == id - 0x1_0000_0000_0000_0000)
        by (bit_vector);
}

/// Storing an identifier and reading it back gives the identifier.
pub proof fn lemma_id_round_trip(id: u64)
    ensures
        id_of(column_of(id)) == id,
{
    assert((id as i64) as u64 == id) by (bit_vector);
}

/// Reading a column value and storing it again gives the column value.
pub proof fn lemma_column_round_trip(column: i64)
    ensures
        column_of(id_of(column)) == column,
{
    assert((column as u64) as i64 == column) by (bit_vector);
}

/// Two identifiers are stored as the same column value only if they are the same.
pub proof fn lemma_column_of_injective(a: u64, b: u64)
    requires
        column_of(a) == column_of(b),
    ensures
        a == b,
{
    lemma_id_round_trip(a);
    lemma_id_round_trip(b);
}

/// The column value for an identifier.
pub fn to_column(id: u64) -> (column: i64)
    ensures
        column == column_of(id),
{
    #[verifier::truncate]
    (id as i64)
}

/// The identifier in a column value.
pub fn from_column(column: i64) -> (id: u64)
    ensures
        id == id_of(column),
{
    #[verifier::truncate]
    (column as u64)
}

/// A row of the `users` table.
#[derive(Debug)]
pub struct UserRow {
    pub id: i64,
    pub username: String,
    pub discriminator: i16,
    pub avatar: Option<String>,
    pub banner: Option<String>,
    pub bio: Option<String>,
    pub flags: i64,
}

/// [`UserRow`] as a mathematical value.
pub struct UserRowView {
    pub id: i64,
    pub username: Seq<char>,
    pub discriminator: i16,
    pub avatar: Option<Seq<char>>,
    pub banner: Option<Seq<char>>,
    pub bio: Option<Seq<char>>,
    pub flags: i64,
}

impl View for UserRow {
    type V = UserRowView;

    open spec fn view(&self) -> UserRowView {
        UserRowView {
            id: self.id,
            username: self.username@,
            discriminator: self.discriminator,
            avatar: text_of(self.avatar),
            banner: text_of(self.banner),
            bio: text_of(self.bio),
            flags: self.flags,
        }
    }
}

impl Clone for UserRow {
    fn clone(&self) -> (copy: Self)
        ensures
            copy == *self,
    {
        UserRow {
            id: self.id,
            username: self.username.clone(),
            discriminator: self.discriminator,
            avatar: clone_text(&self.avatar),
            banner: clone_text(&self.banner),
            bio: clone_text(&self.bio),
            flags: self.flags,
        }
    }
}

/// A row of the `bots` table.
#[derive(Clone, Copy, Debug, PartialEq, Eq, Structural)]
pub struct BotRow {
    pub id: i64,
    pub owner_id: i64,
}

/// A statement for the storage backend, with its parameters.
#[derive(Debug)]
pub enum Statement {
    /// Insert a user and ask for the whole row back. No row comes back when
    /// the username is in use.
    InsertUser { id: i64, username: String, flags: i64 },
    /// Insert the row that ties a bot to its owner.
    InsertBot { id: i64, owner_id: i64 },
    /// Delete a user; the bot row of that user goes with it.
    DeleteUser { id: i64 },
}

/// [`Statement`] as a mathematical value.
pub enum StatementView {
    InsertUser { id: i64, username: Seq<char>, flags: i64 },
    InsertBot { id: i64, owner_id: i64 },
    DeleteUser { id: i64 },
}

impl View for Statement {
    type V = StatementView;

    open spec fn view(&self) -> StatementView {
        match *self {
            Statement::InsertUser { id, username, flags } => StatementView::InsertUser {
                id,
                username: username@,
                flags,
            },
            Statement::InsertBot { id, owner_id } => StatementView::InsertBot { id, owner_id },
            Statement::DeleteUser { id } => StatementView::DeleteUser { id },
        }
    }
}

impl StatementView {
    /// The text of the statement, with `$n` for the n-th parameter.
    pub open spec fn sql(self) -> Seq<char> {
        match self {
            StatementView::InsertUser { .. } =>
                "INSERT INTO users (id, username, flags) VALUES ($1, $2, $3) ON CONFLICT (username) DO NOTHING RETURNING *"@,
            StatementView::InsertBot { .. } => "INSERT INTO bots VALUES ($1, $2)"@,
            StatementView::DeleteUser { .. } => "DELETE FROM users WHERE id = $1"@,
        }
    }

    /// Whether the statement asks for a row back.
    pub open spec fn returns_row(self) -> bool {
        self is InsertUser
    }
}

impl Statement {
    /// The text of the statement, with `$n` for the n-th parameter.
    pub fn sql(&self) -> (text: &'static str)
        ensures
            text@ == self@.sql(),
    {
        match self {
            Statement::InsertUser { .. } =>
                "INSERT INTO users (id, username, flags) VALUES ($1, $2, $3) ON CONFLICT (username) DO NOTHING RETURNING *",
            Statement::InsertBot { .. } => "INSERT INTO bots VALUES ($1, $2)",
            Statement::DeleteUser { .. } => "DELETE FROM users WHERE id = $1",
        }
    }

    /// Whether the statement asks for a row back, so that its answer is a
    /// [`RowReply`] and not a [`CountReply`].
    pub fn returns_row(&self) -> (row: bool)
        ensures
            row == self@.returns_row(),
    {
        match self {
            Statement::InsertUser { .. } => true,
            Statement::InsertBot { .. } => false,
            Statement::DeleteUser { .. } => false,
        }
    }
}

/// The answer to a statement that asks for at most one row.
#[derive(Debug)]
pub enum RowReply {
    /// The row.
    Row(UserRow),
    /// The statement ran and gave no row.
    NoRow,
    /// The backend failed.
    Failed(StorageFailure),
}

/// [`RowReply`] as a mathematical value.
pub enum RowReplyView {
    Row(UserRowView),
    NoRow,
    Failed(StorageFailureView),
}

impl View for RowReply {
    type V = RowReplyView;

    open spec fn view(&self) -> RowReplyView {
        match *self {
            RowReply::Row(row) => RowReplyView::Row(row@),
            RowReply::NoRow => RowReplyView::NoRow,
            RowReply::Failed(failure) => RowReplyView::Failed(failure@),
        }
    }
}

/// The answer to a statement that asks for no row.
#[derive(Debug)]
pub enum CountReply {
    /// The statement ran and touched this many rows.
    Done { rows_affected: u64 },
    /// The backend failed.
    Failed(StorageFailure),
}

/// [`CountReply`] as a mathematical value.
pub enum CountReplyView {
    Done { rows_affected: u64 },
    Failed(StorageFailureView),
}

impl View for CountReply {
    type V = CountReplyView;

    open spec fn view(&self) -> CountReplyView {
        match *self {
            CountReply::Done { rows_affected } => CountReplyView::Done { rows_affected },
            CountReply::Failed(failure) => CountReplyView::Failed(failure@),
        }
    }
}

} // verus!
