//! A backend that keeps both tables in memory.
//!
//! It follows the constraints of the schema and fails only where they call
//! for it, so what a registration or a deletion does to it is known exactly.
//! One transaction is open at a time: a second one cannot begin before the
//! first is committed or rolled back, so that it sees what the first left.

use crate::db::bot::{BotDbExt, BotDeletion, BotRegistration};
use crate::db::consistency::{
    lemma_bot_at, lemma_delete_user, lemma_execute, lemma_fetch_optional, lemma_insert_bot,
    lemma_insert_user, lemma_register_bot, lemma_registered_bot_is_stored, lemma_user_at,
};
use crate::db::tables::{new_user_row, Assigned, Tables};
use crate::db::user::{construct_user, user_of_row};
use crate::db::{
    column_of, from_column, id_of, to_column, BotRow, CountReply, RowReply, Statement, UserRow,
};
use crate::error::{
    no_transaction, transaction_open, Error, ErrorView, StorageFailure, StorageFailureView,
};
use crate::models::bot::{Bot, BotView};
use crate::models::user::User;
use crate::models::{MaybePartialUser, MaybePartialUserView};
use vstd::prelude::*;

verus! {

/// The rows of both tables, kept within the constraints of the schema.
struct Rows {
    users: Vec<UserRow>,
    bots: Vec<BotRow>,
}

/// The rows that are committed, and whether a transaction is open.
pub struct MemoryStore {
    rows: Rows,
    open: bool,
}

/// A transaction on a [`MemoryStore`]: rows of its own, which become the
/// store's when the transaction is committed.
pub struct MemoryTransaction {
    rows: Rows,
}

impl View for Rows {
    type V = Tables;

    closed spec fn view(&self) -> Tables {
        Tables { users: self.users@.map_values(|row: UserRow| row@), bots: self.bots@ }
    }
}

impl View for MemoryStore {
    type V = Tables;

    closed spec fn view(&self) -> Tables {
        self.rows@
    }
}

impl View for MemoryTransaction {
    type V = Tables;

    closed spec fn view(&self) -> Tables {
        self.rows@
    }
}

impl Rows {
    #[verifier::type_invariant]
    spec fn consistent(self) -> bool {
        self@.well_formed()
    }

    /// No rows.
    fn new() -> (rows: Rows)
        ensures
            rows@ == Tables::empty(),
            rows@.well_formed(),
    {
        let rows = Rows { users: Vec::new(), bots: Vec::new() };
        assert(rows@.users =~= Seq::empty());
        rows
    }

    /// Moves the rows out and leaves none behind.
    fn take(&mut self) -> (rows: Rows)
        ensures
            rows == *old(self),
            final(self)@ == Tables::empty(),
    {
        let mut rows = Rows::new();
        core::mem::swap(self, &mut rows);
        rows
    }

    fn find_user(&self, id: i64) -> (found: Option<usize>)
        ensures
            match found {
                Some(i) => i < self.users.len() && self.users[i as int].id == id
                    && self@.has_user(id) && self@.user_index(id) == i,
                None => !self@.has_user(id),
            },
    {
        proof {
            use_type_invariant(self);
        }
        let mut i: usize = 0;
        while i < self.users.len()
            invariant
                i <= self.users.len(),
                self@.well_formed(),
                forall|k: int| 0 <= k < i ==> (#[trigger] self@.users[k]).id != id,
            decreases self.users.len() - i,
        {
            if self.users[i].id == id {
                proof {
                    assert(self@.users[i as int].id == id);
                    lemma_user_at(self@, i as int);
                }
                return Some(i);
            }
            i += 1;
        }
        None
    }

    fn find_username(&self, username: &String) -> (taken: bool)
        ensures
            taken == self@.username_taken(username@),
    {
        let mut i: usize = 0;
        while i < self.users.len()
            invariant
                i <= self.users.len(),
                forall|k: int| 0 <= k < i ==> (#[trigger] self@.users[k]).username != username@,
            decreases self.users.len() - i,
        {
            if self.users[i].username == *username {
                assert(self@.users[i as int].username == username@);
                return true;
            }
            i += 1;
        }
        false
    }

    fn find_bot(&self, id: i64) -> (found: Option<usize>)
        ensures
            match found {
                Some(i) => i < self.bots.len() && self.bots[i as int].id == id && self@.has_bot(id)
                    && self@.bot_index(id) == i,
                None => !self@.has_bot(id),
            },
    {
        proof {
            use_type_invariant(self);
        }
        let mut i: usize = 0;
        while i < self.bots.len()
            invariant
                i <= self.bots.len(),
                self@.well_formed(),
                forall|k: int| 0 <= k < i ==> (#[trigger] self@.bots[k]).id != id,
            decreases self.bots.len() - i,
        {
            if self.bots[i].id == id {
                proof {
                    assert(self@.bots[i as int].id == id);
                    lemma_bot_at(self@, i as int);
                }
                return Some(i);
            }
            i += 1;
        }
        None
    }

    fn owns_another(&self, id: i64) -> (owner: bool)
        ensures
            owner == self@.owns_another(id),
    {
        let mut i: usize = 0;
        while i < self.bots.len()
            invariant
                i <= self.bots.len(),
                forall|k: int|
                    0 <= k < i ==> !((#[trigger] self@.bots[k]).owner_id == id && self@.bots[k].id
                        != id),
            decreases self.bots.len() - i,
        {
            if self.bots[i].owner_id == id && self.bots[i].id != id {
                assert(self@.bots[i as int].owner_id == id && self@.bots[i as int].id != id);
                return true;
            }
            i += 1;
        }
        false
    }

    fn insert_user(&mut self, id: i64, username: &String, flags: i64) -> (reply: RowReply)
        ensures
            (final(self)@, reply@) == old(self)@.insert_user(
                id,
                username@,
                flags,
                Assigned::defaults(),
            ),
    {
        proof {
            use_type_invariant(&*self);
            lemma_insert_user(self@, id, username@, flags, Assigned::defaults());
        }
        if self.find_username(username) {
            return RowReply::NoRow;
        }
        if self.find_user(id).is_some() {
            return RowReply::Failed(StorageFailure::duplicate_key());
        }
        let row = UserRow {
            id,
            username: username.clone(),
            discriminator: 0,
            avatar: None,
            banner: None,
            bio: None,
            flags,
        };
        let stored = row.clone();
        assert(row@ == new_user_row(id, username@, flags, Assigned::defaults()));
        assert(self.users@.push(stored).map_values(|row: UserRow| row@) =~= old(self)@.users.push(
            stored@,
        ));
        let Rows { mut users, bots } = self.take();
        users.push(stored);
        *self = Rows { users, bots };
        RowReply::Row(row)
    }

    fn insert_bot(&mut self, id: i64, owner_id: i64) -> (reply: CountReply)
        ensures
            (final(self)@, reply@) == old(self)@.insert_bot(id, owner_id),
    {
        proof {
            use_type_invariant(&*self);
            lemma_insert_bot(self@, id, owner_id);
        }
        if self.find_bot(id).is_some() {
            return CountReply::Failed(StorageFailure::duplicate_key());
        }
        if self.find_user(id).is_none() || self.find_user(owner_id).is_none() {
            return CountReply::Failed(StorageFailure::missing_reference());
        }
        let Rows { users, mut bots } = self.take();
        bots.push(BotRow { id, owner_id });
        *self = Rows { users, bots };
        CountReply::Done { rows_affected: 1 }
    }

    fn delete_user(&mut self, id: i64) -> (reply: CountReply)
        ensures
            (final(self)@, reply@) == old(self)@.delete_user(id),
    {
        proof {
            use_type_invariant(&*self);
            lemma_delete_user(self@, id);
        }
        let at = match self.find_user(id) {
            Some(at) => at,
            None => {
                return CountReply::Done { rows_affected: 0 };
            },
        };
        if self.owns_another(id) {
            return CountReply::Failed(StorageFailure::still_referenced());
        }
        let users = self.remaining_users(at);
        let bots = self.remaining_bots(id);
        *self = Rows { users, bots };
        CountReply::Done { rows_affected: 1 }
    }

    fn remaining_users(&self, at: usize) -> (users: Vec<UserRow>)
        requires
            at < self.users.len(),
        ensures
            users@.map_values(|row: UserRow| row@) == self@.users.remove(at as int),
    {
        let mut users: Vec<UserRow> = Vec::new();
        let mut i: usize = 0;
        while i < self.users.len()
            invariant
                i <= self.users.len(),
                at < self.users.len(),
                users@.len() == (if i <= at {
                    i as int
                } else {
                    i - 1
                }),
                forall|k: int|
                    0 <= k < users@.len() ==> (#[trigger] users@[k]) == self.users@[if k < at {
                        k
                    } else {
                        k + 1
                    }],
            decreases self.users.len() - i,
        {
            if i != at {
                users.push(self.users[i].clone());
            }
            i += 1;
        }
        assert(users@.map_values(|row: UserRow| row@) =~= self@.users.remove(at as int));
        users
    }

    fn remaining_bots(&self, id: i64) -> (bots: Vec<BotRow>)
        ensures
            bots@ == (if self@.has_bot(id) {
                self@.bots.remove(self@.bot_index(id))
            } else {
                self@.bots
            }),
    {
        let at = match self.find_bot(id) {
            Some(at) => at,
            None => self.bots.len(),
        };
        let mut bots: Vec<BotRow> = Vec::new();
        let mut i: usize = 0;
        while i < self.bots.len()
            invariant
                i <= self.bots.len(),
                at <= self.bots.len(),
                bots@.len() == (if i <= at {
                    i as int
                } else {
                    i - 1
                }),
                forall|k: int|
                    0 <= k < bots@.len() ==> (#[trigger] bots@[k]) == self.bots@[if k < at {
                        k
                    } else {
                        k + 1
                    }],
            decreases self.bots.len() - i,
        {
            if i != at {
                bots.push(self.bots[i]);
            }
            i += 1;
        }
        if at < self.bots.len() {
            assert(bots@ =~= self@.bots.remove(at as int));
        } else {
            assert(bots@ =~= self@.bots);
        }
        bots
    }

    fn duplicate(&self) -> (copy: Rows)
        ensures
            copy@ == self@,
    {
        proof {
            use_type_invariant(self);
        }
        let mut users: Vec<UserRow> = Vec::new();
        let mut i: usize = 0;
        while i < self.users.len()
            invariant
                i <= self.users.len(),
                users@ == self.users@.subrange(0, i as int),
            decreases self.users.len() - i,
        {
            users.push(self.users[i].clone());
            assert(users@ =~= self.users@.subrange(0, i + 1));
            i += 1;
        }
        let mut bots: Vec<BotRow> = Vec::new();
        let mut j: usize = 0;
        while j < self.bots.len()
            invariant
                j <= self.bots.len(),
                bots@ == self.bots@.subrange(0, j as int),
            decreases self.bots.len() - j,
        {
            bots.push(self.bots[j]);
            assert(bots@ =~= self.bots@.subrange(0, j + 1));
            j += 1;
        }
        assert(users@ =~= self.users@);
        assert(bots@ =~= self.bots@);
        Rows { users, bots }
    }

    /// Runs a statement and gives back the row it returned, if any.
    fn fetch_optional(&mut self, statement: &Statement) -> (reply: RowReply)
        ensures
            (final(self)@, reply@) == old(self)@.fetch_optional(
                statement@,
                Assigned::defaults(),
            ),
            old(self)@.well_formed(),
            final(self)@.well_formed(),
    {
        proof {
            use_type_invariant(&*self);
            lemma_fetch_optional(self@, statement@, Assigned::defaults());
        }
        match statement {
            Statement::InsertUser { id, username, flags } => self.insert_user(
                *id,
                username,
                *flags,
            ),
            Statement::InsertBot { id, owner_id } => {
                match self.insert_bot(*id, *owner_id) {
                    CountReply::Done { .. } => RowReply::NoRow,
                    CountReply::Failed(failure) => RowReply::Failed(failure),
                }
            },
            Statement::DeleteUser { id } => {
                match self.delete_user(*id) {
                    CountReply::Done { .. } => RowReply::NoRow,
                    CountReply::Failed(failure) => RowReply::Failed(failure),
                }
            },
        }
    }

    /// Runs a statement and gives back the number of rows it touched.
    fn execute(&mut self, statement: &Statement) -> (reply: CountReply)
        ensures
            (final(self)@, reply@) == old(self)@.execute(statement@, Assigned::defaults()),
            old(self)@.well_formed(),
            final(self)@.well_formed(),
    {
        proof {
            use_type_invariant(&*self);
            lemma_execute(self@, statement@, Assigned::defaults());
        }
        match statement {
            Statement::InsertUser { id, username, flags } => {
                match self.insert_user(*id, username, *flags) {
                    RowReply::Row(_) => CountReply::Done { rows_affected: 1 },
                    RowReply::NoRow => CountReply::Done { rows_affected: 0 },
                    RowReply::Failed(failure) => CountReply::Failed(failure),
                }
            },
            Statement::InsertBot { id, owner_id } => self.insert_bot(*id, *owner_id),
            Statement::DeleteUser { id } => self.delete_user(*id),
        }
    }

    /// The user stored under `id`, as a whole record.
    fn fetch_user(&self, id: u64) -> (user: Option<User>)
        ensures
            match user {
                Some(user) => self@.user(column_of(id)) matches Some(row) && user@ == user_of_row(
                    row,
                ),
                None => self@.user(column_of(id)) is None,
            },
    {
        match self.find_user(to_column(id)) {
            Some(at) => Some(construct_user(self.users[at].clone())),
            None => None,
        }
    }

    /// The bot stored under `id`, with no more of its user than the identifier.
    fn fetch_bot(&self, id: u64) -> (bot: Option<Bot>)
        ensures
            match bot {
                Some(bot) => self@.bot(column_of(id)) matches Some(row) && bot@ == (BotView {
                    user: MaybePartialUserView::Partial { id: id_of(row.id) },
                    owner_id: id_of(row.owner_id),
                }),
                None => self@.bot(column_of(id)) is None,
            },
    {
        match self.find_bot(to_column(id)) {
            Some(at) => {
                let row = self.bots[at];
                Some(
                    Bot {
                        user: MaybePartialUser::Partial { id: from_column(row.id) },
                        owner_id: from_column(row.owner_id),
                    },
                )
            },
            None => None,
        }
    }
}

impl MemoryStore {
    /// Whether a transaction is open.
    pub closed spec fn spec_is_open(&self) -> bool {
        self.open
    }

    /// A store without rows and without an open transaction.
    pub fn new() -> (store: MemoryStore)
        ensures
            store@ == Tables::empty(),
            store@.well_formed(),
            !store.spec_is_open(),
    {
        MemoryStore { rows: Rows::new(), open: false }
    }

    /// Whether a transaction is open.
    #[verifier::when_used_as_spec(spec_is_open)]
    pub fn is_open(&self) -> (open: bool)
        ensures
            open == self.spec_is_open(),
    {
        self.open
    }

    /// The user stored under `id`, as a whole record.
    pub fn fetch_user(&self, id: u64) -> (user: Option<User>)
        ensures
            match user {
                Some(user) => self@.user(column_of(id)) matches Some(row) && user@ == user_of_row(
                    row,
                ),
                None => self@.user(column_of(id)) is None,
            },
    {
        self.rows.fetch_user(id)
    }

    /// The bot stored under `id`, with no more of its user than the identifier.
    pub fn fetch_bot(&self, id: u64) -> (bot: Option<Bot>)
        ensures
            match bot {
                Some(bot) => self@.bot(column_of(id)) matches Some(row) && bot@ == (BotView {
                    user: MaybePartialUserView::Partial { id: id_of(row.id) },
                    owner_id: id_of(row.owner_id),
                }),
                None => self@.bot(column_of(id)) is None,
            },
    {
        self.rows.fetch_bot(id)
    }

    /// Opens a transaction that sees the rows as they are now, unless one is
    /// open already: whoever comes second waits for the first to end, and
    /// then sees what the first left.
    pub fn begin(&mut self) -> (result: Result<MemoryTransaction, StorageFailure>)
        ensures
            final(self)@ == old(self)@,
            final(self)@.well_formed(),
            final(self).is_open(),
            result is Ok <==> !old(self).is_open(),
            match result {
                Ok(transaction) => transaction@ == old(self)@,
                Err(failure) => failure@ == transaction_open(),
            },
    {
        proof {
            use_type_invariant(&self.rows);
        }
        if self.open {
            return Err(StorageFailure::transaction_open());
        }
        let transaction = MemoryTransaction { rows: self.rows.duplicate() };
        self.open = true;
        Ok(transaction)
    }

    /// Ends the open transaction and makes its rows the rows of the store.
    /// Where no transaction is open nothing changes and the failure says so.
    pub fn commit(&mut self, transaction: MemoryTransaction) -> (result: Result<
        (),
        StorageFailure,
    >)
        ensures
            final(self)@.well_formed(),
            transaction@.well_formed(),
            !final(self).is_open(),
            result is Ok <==> old(self).is_open(),
            match result {
                Ok(()) => final(self)@ == transaction@,
                Err(failure) => final(self)@ == old(self)@ && failure@ == no_transaction(),
            },
    {
        proof {
            use_type_invariant(&transaction.rows);
            use_type_invariant(&self.rows);
        }
        if !self.open {
            return Err(StorageFailure::no_transaction());
        }
        *self = MemoryStore { rows: transaction.rows, open: false };
        Ok(())
    }

    /// Ends the open transaction and keeps none of its rows.
    pub fn rollback(&mut self, transaction: MemoryTransaction)
        ensures
            final(self)@ == old(self)@,
            final(self)@.well_formed(),
            !final(self).is_open(),
    {
        proof {
            use_type_invariant(&self.rows);
        }
        self.open = false;
    }
}

impl MemoryTransaction {
    /// Runs a statement and gives back the row it returned, if any.
    pub fn fetch_optional(&mut self, statement: &Statement) -> (reply: RowReply)
        ensures
            (final(self)@, reply@) == old(self)@.fetch_optional(
                statement@,
                Assigned::defaults(),
            ),
            old(self)@.well_formed(),
            final(self)@.well_formed(),
    {
        self.rows.fetch_optional(statement)
    }

    /// Runs a statement and gives back the number of rows it touched.
    pub fn execute(&mut self, statement: &Statement) -> (reply: CountReply)
        ensures
            (final(self)@, reply@) == old(self)@.execute(statement@, Assigned::defaults()),
            old(self)@.well_formed(),
            final(self)@.well_formed(),
    {
        self.rows.execute(statement)
    }

    /// The user that the transaction sees under `id`, as a whole record.
    pub fn fetch_user(&self, id: u64) -> (user: Option<User>)
        ensures
            match user {
                Some(user) => self@.user(column_of(id)) matches Some(row) && user@ == user_of_row(
                    row,
                ),
                None => self@.user(column_of(id)) is None,
            },
    {
        self.rows.fetch_user(id)
    }

    /// The bot that the transaction sees under `id`, with no more of its user
    /// than the identifier.
    pub fn fetch_bot(&self, id: u64) -> (bot: Option<Bot>)
        ensures
            match bot {
                Some(bot) => self@.bot(column_of(id)) matches Some(row) && bot@ == (BotView {
                    user: MaybePartialUserView::Partial { id: id_of(row.id) },
                    owner_id: id_of(row.owner_id),
                }),
                None => self@.bot(column_of(id)) is None,
            },
    {
        self.rows.fetch_bot(id)
    }
}

impl BotDbExt for MemoryTransaction {
    open spec fn tables(&self) -> Tables {
        self@
    }

    /// Registers a bot within this transaction. The result and the rows are
    /// exactly what [`Tables::register_bot`] says for a server that fills in
    /// [`Assigned::defaults`].
    fn register_bot(&mut self, id: u64, owner_id: u64, username: &str) -> (result: Result<
        Bot,
        Error,
    >)
        ensures
            old(self)@.well_formed(),
            final(self)@.well_formed(),
            match result {
                Ok(bot) => old(self)@.register_bot(
                    id,
                    owner_id,
                    username@,
                    Assigned::defaults(),
                ) == (final(self)@, Ok::<BotView, ErrorView>(bot@)),
                Err(error) => old(self)@.register_bot(
                    id,
                    owner_id,
                    username@,
                    Assigned::defaults(),
                ) == (final(self)@, Err::<BotView, ErrorView>(error@)),
            },
    {
        let registration = BotRegistration::begin(id, owner_id, username);
        let statement = registration.statement();
        let reply = self.fetch_optional(&statement);
        proof {
            lemma_register_bot(old(self)@, id, owner_id, username@, Assigned::defaults());
            if old(self)@.register_bot(id, owner_id, username@, Assigned::defaults()).1 is Ok {
                lemma_registered_bot_is_stored(
                    old(self)@,
                    id,
                    owner_id,
                    username@,
                    Assigned::defaults(),
                );
            }
        }
        let ownership = match registration.user_inserted(reply) {
            Ok(ownership) => ownership,
            Err(error) => {
                return Err(error);
            },
        };
        let statement = ownership.statement();
        let reply = self.execute(&statement);
        ownership.bot_inserted(reply)
    }

    /// Deletes a bot within this transaction. The result and the rows are
    /// exactly what [`Tables::delete_bot`] says.
    fn delete_bot(&mut self, id: u64) -> (result: Result<(), StorageFailure>)
        ensures
            old(self)@.well_formed(),
            final(self)@.well_formed(),
            match result {
                Ok(()) => old(self)@.delete_bot(id) == (
                    final(self)@,
                    Ok::<(), StorageFailureView>(()),
                ),
                Err(failure) => old(self)@.delete_bot(id) == (
                    final(self)@,
                    Err::<(), StorageFailureView>(failure@),
                ),
            },
    {
        let deletion = BotDeletion::begin(id);
        let statement = deletion.statement();
        let reply = self.execute(&statement);
        deletion.deleted(reply)
    }
}

} // verus!
