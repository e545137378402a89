//! What holds of the tables, whatever is registered or deleted.

use crate::db::bot::BotRegistrationView;
use crate::db::tables::{new_user_row, Assigned, Tables};
use crate::db::user::user_of_row;
use crate::db::{
    column_of, lemma_column_of_injective, lemma_id_round_trip, BotRow, CountReplyView,
    RowReplyView, StatementView,
};
use crate::error::{
    duplicate_key, missing_reference, still_referenced, username_taken, ErrorView,
    StorageFailureView,
};
use crate::flags::{widened, BOT};
use crate::models::bot::BotView;
use crate::models::MaybePartialUserView;
use crate::text::trimmed;
use vstd::prelude::*;

verus! {

/// In well-formed tables a user row is found under its id, and nowhere else.
pub proof fn lemma_user_at(tables: Tables, i: int)
    requires
        tables.well_formed(),
        0 <= i < tables.users.len(),
    ensures
        tables.has_user(tables.users[i].id),
        tables.username_taken(tables.users[i].username),
        tables.user_index(tables.users[i].id) == i,
        tables.user(tables.users[i].id) == Some(tables.users[i]),
{
    let id = tables.users[i].id;
    let k = tables.user_index(id);
    assert(0 <= k < tables.users.len() && tables.users[k].id == id);
    if k < i {
        assert(tables.users[k].id != tables.users[i].id);
    } else if i < k {
        assert(tables.users[i].id != tables.users[k].id);
    }
}

/// In well-formed tables a bot row is found under its id, and nowhere else.
pub proof fn lemma_bot_at(tables: Tables, i: int)
    requires
        tables.well_formed(),
        0 <= i < tables.bots.len(),
    ensures
        tables.has_bot(tables.bots[i].id),
        tables.has_user(tables.bots[i].id),
        tables.has_user(tables.bots[i].owner_id),
        tables.bot_index(tables.bots[i].id) == i,
        tables.bot(tables.bots[i].id) == Some(tables.bots[i]),
{
    let id = tables.bots[i].id;
    let k = tables.bot_index(id);
    assert(0 <= k < tables.bots.len() && tables.bots[k].id == id);
    if k < i {
        assert(tables.bots[k].id != tables.bots[i].id);
    } else if i < k {
        assert(tables.bots[i].id != tables.bots[k].id);
    }
}

/// A bot is a user: where there is no user row there is no bot row, and
/// nobody is owned by a user that is not there.
pub proof fn lemma_no_user_no_bot(tables: Tables, id: i64)
    requires
        tables.well_formed(),
        !tables.has_user(id),
    ensures
        !tables.has_bot(id),
        !tables.owns_another(id),
{
    if tables.has_bot(id) {
        lemma_bot_at(tables, tables.bot_index(id));
    }
    if tables.owns_another(id) {
        let i = choose|i: int|
            0 <= i < tables.bots.len() && (#[trigger] tables.bots[i]).owner_id == id
                && tables.bots[i].id != id;
        lemma_bot_at(tables, i);
    }
}

/// What an inserted user row changes: it is there, and every other row is as before.
pub proof fn lemma_insert_user(
    tables: Tables,
    id: i64,
    username: Seq<char>,
    flags: i64,
    assigned: Assigned,
)
    requires
        tables.well_formed(),
    ensures
        ({
            let (after, reply) = tables.insert_user(id, username, flags, assigned);
            &&& after.well_formed()
            &&& after.bots == tables.bots
            &&& reply is Row <==> !tables.username_taken(username) && !tables.has_user(id)
            &&& reply is NoRow <==> tables.username_taken(username)
            &&& !(reply is Row) ==> after == tables
            &&& reply is Row ==> {
                &&& reply == RowReplyView::Row(new_user_row(id, username, flags, assigned))
                &&& after.user(id) == Some(new_user_row(id, username, flags, assigned))
                &&& forall|other: i64|
                    other != id ==> after.user(other) == tables.user(other) && (
                    #[trigger] after.has_user(other)) == tables.has_user(other)
                &&& forall|name: Seq<char>|
                    (#[trigger] after.username_taken(name)) == (tables.username_taken(name) || name
                        == username)
            }
        }),
{
    let (after, reply) = tables.insert_user(id, username, flags, assigned);
    if reply is Row {
        let row = new_user_row(id, username, flags, assigned);
        let n = tables.users.len() as int;
        assert(after.users[n] == row);
        assert forall|i: int, j: int| 0 <= i < j < after.users.len() implies (
        #[trigger] after.users[i]).id != (#[trigger] after.users[j]).id by {
            if j == n {
                assert(tables.users[i].id != id);
            }
        }
        assert forall|i: int, j: int| 0 <= i < j < after.users.len() implies (
        #[trigger] after.users[i]).username != (#[trigger] after.users[j]).username by {
            if j == n {
                assert(tables.users[i].username != username);
            }
        }
        assert forall|other: i64| tables.has_user(other) implies after.has_user(other) by {
            let k = tables.user_index(other);
            assert(after.users[k].id == other);
        }
        assert forall|i: int| 0 <= i < after.bots.len() implies after.has_user(
            (#[trigger] after.bots[i]).id,
        ) && after.has_user(after.bots[i].owner_id) by {
            assert(tables.has_user(tables.bots[i].id));
            assert(tables.has_user(tables.bots[i].owner_id));
        }
        assert(after.well_formed());
        lemma_user_at(after, n);
        assert forall|other: i64| other != id implies after.user(other) == tables.user(other) && (
        #[trigger] after.has_user(other)) == tables.has_user(other) by {
            if after.has_user(other) {
                let k = after.user_index(other);
                assert(k < n);
                assert(tables.users[k].id == other);
                lemma_user_at(tables, k);
                lemma_user_at(after, k);
            }
        }
        assert forall|name: Seq<char>| (#[trigger] after.username_taken(name)) == (
        tables.username_taken(name) || name == username) by {
            if tables.username_taken(name) {
                let k = choose|k: int|
                    0 <= k < tables.users.len() && (#[trigger] tables.users[k]).username == name;
                assert(after.users[k].username == name);
            }
            if after.username_taken(name) {
                let k = choose|k: int|
                    0 <= k < after.users.len() && (#[trigger] after.users[k]).username == name;
                if k < n {
                    assert(tables.users[k].username == name);
                }
            }
        }
    }
}

/// What an inserted bot row changes: it is there, and every other row is as before.
pub proof fn lemma_insert_bot(tables: Tables, id: i64, owner_id: i64)
    requires
        tables.well_formed(),
    ensures
        ({
            let (after, reply) = tables.insert_bot(id, owner_id);
            &&& after.well_formed()
            &&& after.users == tables.users
            &&& reply is Done <==> !tables.has_bot(id) && tables.has_user(id) && tables.has_user(
                owner_id,
            )
            &&& reply is Failed ==> after == tables
            &&& reply is Done ==> {
                &&& after.bot(id) == Some(BotRow { id, owner_id })
                &&& forall|other: i64|
                    other != id ==> (#[trigger] after.bot(other)) == tables.bot(other)
            }
        }),
{
    let (after, reply) = tables.insert_bot(id, owner_id);
    if reply is Done {
        let n = tables.bots.len() as int;
        assert(after.bots[n] == BotRow { id, owner_id });
        assert forall|i: int, j: int| 0 <= i < j < after.bots.len() implies (
        #[trigger] after.bots[i]).id != (#[trigger] after.bots[j]).id by {
            if j == n {
                assert(tables.bots[i].id != id);
            }
        }
        assert forall|i: int| 0 <= i < after.bots.len() implies after.has_user(
            (#[trigger] after.bots[i]).id,
        ) && after.has_user(after.bots[i].owner_id) by {
            if i < n {
                assert(tables.has_user(tables.bots[i].id));
                assert(tables.has_user(tables.bots[i].owner_id));
            }
        }
        assert(after.well_formed());
        lemma_bot_at(after, n);
        assert forall|other: i64| other != id implies (#[trigger] after.bot(other)) == tables.bot(
            other,
        ) by {
            if after.has_bot(other) {
                let k = after.bot_index(other);
                assert(k < n);
                assert(tables.bots[k].id == other);
                lemma_bot_at(tables, k);
                lemma_bot_at(after, k);
            }
            if tables.has_bot(other) {
                let k = tables.bot_index(other);
                assert(after.bots[k].id == other);
            }
        }
    }
}

/// What a deleted user changes: its user row and its bot row are gone, and
/// every other row is as before.
pub proof fn lemma_delete_user(tables: Tables, id: i64)
    requires
        tables.well_formed(),
    ensures
        ({
            let (after, reply) = tables.delete_user(id);
            &&& after.well_formed()
            &&& reply is Failed <==> tables.has_user(id) && tables.owns_another(id)
            &&& reply is Failed ==> after == tables && reply == CountReplyView::Failed(
                still_referenced(),
            )
            &&& !tables.has_user(id) ==> after == tables
            &&& reply is Done ==> {
                &&& !after.has_user(id)
                &&& !after.has_bot(id)
                &&& forall|other: i64|
                    other != id ==> (#[trigger] after.user(other)) == tables.user(other)
                &&& forall|other: i64|
                    other != id ==> (#[trigger] after.bot(other)) == tables.bot(other)
            }
        }),
{
    let (after, reply) = tables.delete_user(id);
    if tables.has_user(id) && !tables.owns_another(id) {
        let k = tables.user_index(id);
        lemma_user_at(tables, k);
        assert(after.users.len() == tables.users.len() - 1);
        assert forall|i: int| 0 <= i < after.users.len() implies #[trigger] after.users[i] == (if i
            < k {
            tables.users[i]
        } else {
            tables.users[i + 1]
        }) by {}
        assert forall|i: int, j: int| 0 <= i < j < after.users.len() implies (
        #[trigger] after.users[i]).id != (#[trigger] after.users[j]).id by {
            let a = if i < k { i } else { i + 1 };
            let b = if j < k { j } else { j + 1 };
            assert(tables.users[a].id != tables.users[b].id);
        }
        assert forall|i: int, j: int| 0 <= i < j < after.users.len() implies (
        #[trigger] after.users[i]).username != (#[trigger] after.users[j]).username by {
            let a = if i < k { i } else { i + 1 };
            let b = if j < k { j } else { j + 1 };
            assert(tables.users[a].username != tables.users[b].username);
        }
        assert forall|other: i64| other != id && tables.has_user(other) implies after.has_user(
            other,
        ) by {
            let a = tables.user_index(other);
            let b = if a < k { a } else { a - 1 };
            assert(after.users[b].id == other);
        }
        assert(!after.has_user(id)) by {
            if after.has_user(id) {
                let i = after.user_index(id);
                let a = if i < k { i } else { i + 1 };
                lemma_user_at(tables, a);
            }
        }
        if tables.has_bot(id) {
            let m = tables.bot_index(id);
            lemma_bot_at(tables, m);
            assert(after.bots.len() == tables.bots.len() - 1);
        }
        let m = if tables.has_bot(id) { tables.bot_index(id) } else { tables.bots.len() as int };
        assert forall|i: int| 0 <= i < after.bots.len() implies #[trigger] after.bots[i] == (if i
            < m {
            tables.bots[i]
        } else {
            tables.bots[i + 1]
        }) by {}
        assert forall|i: int, j: int| 0 <= i < j < after.bots.len() implies (
        #[trigger] after.bots[i]).id != (#[trigger] after.bots[j]).id by {
            let a = if i < m { i } else { i + 1 };
            let b = if j < m { j } else { j + 1 };
            assert(tables.bots[a].id != tables.bots[b].id);
        }
        assert forall|i: int| 0 <= i < after.bots.len() implies (#[trigger] after.bots[i]).id
            != id && after.bots[i].owner_id != id by {
            let a = if i < m { i } else { i + 1 };
            lemma_bot_at(tables, a);
            if tables.bots[a].id == id {
                assert(tables.has_bot(id));
            } else if tables.bots[a].owner_id == id {
                assert(tables.owns_another(id));
            }
        }
        assert forall|i: int| 0 <= i < after.bots.len() implies after.has_user(
            (#[trigger] after.bots[i]).id,
        ) && after.has_user(after.bots[i].owner_id) by {
            let a = if i < m { i } else { i + 1 };
            lemma_bot_at(tables, a);
        }
        assert(after.well_formed());
        assert(!after.has_bot(id));
        assert forall|other: i64| other != id implies (#[trigger] after.user(other))
            == tables.user(other) by {
            if tables.has_user(other) {
                let a = tables.user_index(other);
                let b = if a < k { a } else { a - 1 };
                assert(after.users[b].id == other);
                lemma_user_at(tables, a);
                lemma_user_at(after, b);
            }
            if after.has_user(other) {
                let b = after.user_index(other);
                let a = if b < k { b } else { b + 1 };
                assert(tables.users[a].id == other);
            }
        }
        assert forall|other: i64| other != id implies (#[trigger] after.bot(other)) == tables.bot(
            other,
        ) by {
            if tables.has_bot(other) {
                let a = tables.bot_index(other);
                let b = if a < m { a } else { a - 1 };
                assert(after.bots[b].id == other);
                lemma_bot_at(tables, a);
                lemma_bot_at(after, b);
            }
            if after.has_bot(other) {
                let b = after.bot_index(other);
                let a = if b < m { b } else { b + 1 };
                assert(tables.bots[a].id == other);
            }
        }
    }
}

/// A statement that asks for a row keeps the tables well formed.
pub proof fn lemma_fetch_optional(tables: Tables, statement: StatementView, assigned: Assigned)
    requires
        tables.well_formed(),
    ensures
        tables.fetch_optional(statement, assigned).0.well_formed(),
        tables.fetch_optional(statement, assigned).0 == tables.execute(statement, assigned).0,
{
    lemma_execute(tables, statement, assigned);
}

/// A statement that asks for a count keeps the tables well formed.
pub proof fn lemma_execute(tables: Tables, statement: StatementView, assigned: Assigned)
    requires
        tables.well_formed(),
    ensures
        tables.execute(statement, assigned).0.well_formed(),
{
    match statement {
        StatementView::InsertUser { id, username, flags } => {
            lemma_insert_user(tables, id, username, flags, assigned);
        },
        StatementView::InsertBot { id, owner_id } => {
            lemma_insert_bot(tables, id, owner_id);
        },
        StatementView::DeleteUser { id } => {
            lemma_delete_user(tables, id);
        },
    }
}

/// The user that a registration stores is a bot with the identifier asked for.
pub proof fn lemma_stored_user_is_bot(id: u64, username: Seq<char>, assigned: Assigned)
    ensures
        ({
            let user = user_of_row(new_user_row(column_of(id), username, widened(BOT), assigned));
            &&& user.id == id
            &&& user.username == username
            &&& user.flags.bits == BOT
            &&& user.flags.spec_is_bot()
        }),
{
    lemma_id_round_trip(id);
    assert(((1u32 as i64) as u32) == 1u32) by (bit_vector);
    assert(1u32 & 1u32 == 1u32) by (bit_vector);
}

/// Every outcome of a registration, and the inputs on which it comes.
///
/// With `name` for the username without the whitespace around it:
/// - `name` is in use: the error for a taken username, and no row has changed;
/// - else the id is in use: the backend's failure for a duplicate key, and no
///   row has changed;
/// - else the owner is neither a user nor the bot itself: the backend's
///   failure for a missing reference, and the transaction holds a user row
///   without a bot row, to be rolled back;
/// - else the bot, with both rows in place.
pub proof fn lemma_register_bot(
    tables: Tables,
    id: u64,
    owner_id: u64,
    username: Seq<char>,
    assigned: Assigned,
)
    requires
        tables.well_formed(),
    ensures
        ({
            let (after, result) = tables.register_bot(id, owner_id, username, assigned);
            let name = trimmed(username);
            let taken = tables.username_taken(name);
            let known = tables.has_user(column_of(id));
            let owned = tables.has_user(column_of(owner_id)) || owner_id == id;
            &&& after.well_formed()
            &&& taken ==> result == Err::<BotView, ErrorView>(username_taken()) && after == tables
            &&& !taken && known ==> result == Err::<BotView, ErrorView>(
                ErrorView::Database(duplicate_key()),
            ) && after == tables
            &&& !taken && !known && !owned ==> result == Err::<BotView, ErrorView>(
                ErrorView::Database(missing_reference()),
            ) && after == tables.insert_user(column_of(id), name, widened(BOT), assigned).0
            &&& !taken && !known && owned ==> result is Ok
        }),
{
    let name = trimmed(username);
    let registration = BotRegistrationView::begin(id, owner_id, username);
    let (with_user, row_reply) = tables.fetch_optional(registration.statement(), assigned);
    lemma_insert_user(tables, column_of(id), name, widened(BOT), assigned);
    if row_reply is Row {
        lemma_no_user_no_bot(tables, column_of(id));
        lemma_insert_bot(with_user, column_of(id), column_of(owner_id));
        assert(with_user.has_user(column_of(id)));
        if owner_id != id {
            if column_of(owner_id) == column_of(id) {
                lemma_column_of_injective(owner_id, id);
            }
            assert(with_user.has_user(column_of(owner_id)) == tables.has_user(column_of(owner_id)));
        }
        assert(!with_user.has_bot(column_of(id)));
    }
}

/// A bot registered under an unused name and an unused id, for an owner that
/// exists, is stored: its user row is flagged as a bot, its bot row names the
/// owner, the bot that comes back holds the whole user, and no other row
/// has changed.
pub proof fn lemma_registered_bot_is_stored(
    tables: Tables,
    id: u64,
    owner_id: u64,
    username: Seq<char>,
    assigned: Assigned,
)
    requires
        tables.well_formed(),
        !tables.username_taken(trimmed(username)),
        !tables.has_user(column_of(id)),
        tables.has_user(column_of(owner_id)) || owner_id == id,
    ensures
        ({
            let (after, result) = tables.register_bot(id, owner_id, username, assigned);
            &&& after.well_formed()
            &&& result matches Ok(bot)
            &&& bot.owner_id == owner_id
            &&& bot.user matches MaybePartialUserView::Full(user)
            &&& user.id == id
            &&& user.username == trimmed(username)
            &&& user.flags.spec_is_bot()
            &&& after.user(column_of(id)) matches Some(row)
            &&& row == new_user_row(column_of(id), trimmed(username), widened(BOT), assigned)
            &&& user_of_row(row) == user
            &&& after.bot(column_of(id)) == Some(
                BotRow { id: column_of(id), owner_id: column_of(owner_id) },
            )
            &&& after.username_taken(trimmed(username))
            &&& forall|other: i64|
                other != column_of(id) ==> (#[trigger] after.user(other)) == tables.user(other)
            &&& forall|other: i64|
                other != column_of(id) ==> (#[trigger] after.bot(other)) == tables.bot(other)
        }),
{
    let name = trimmed(username);
    let registration = BotRegistrationView::begin(id, owner_id, username);
    let (with_user, row_reply) = tables.fetch_optional(registration.statement(), assigned);
    lemma_register_bot(tables, id, owner_id, username, assigned);
    lemma_insert_user(tables, column_of(id), name, widened(BOT), assigned);
    lemma_stored_user_is_bot(id, name, assigned);
    lemma_insert_bot(with_user, column_of(id), column_of(owner_id));
    let (after, result) = tables.register_bot(id, owner_id, username, assigned);
    assert(after.users == with_user.users);
    assert(after.user(column_of(id)) == with_user.user(column_of(id)));
    assert(after.username_taken(name) == with_user.username_taken(name));
    assert forall|other: i64| other != column_of(id) implies (#[trigger] after.user(other))
        == tables.user(other) by {
        assert(after.user(other) == with_user.user(other));
    }
    assert forall|other: i64| other != column_of(id) implies (#[trigger] after.bot(other))
        == tables.bot(other) by {
        assert(with_user.bot(other) == tables.bot(other));
    }
}

/// Of two registrations under the same name, whichever runs first succeeds
/// and the other is refused because the name is taken, whatever its id and
/// owner. Afterwards there is one user row with that name and one bot row
/// for it, both from the registration that succeeded, and none from the other.
///
/// Transactions on one store do not overlap, so two registrations always run
/// one after the other.
pub proof fn lemma_same_username_registers_once(
    tables: Tables,
    first_id: u64,
    first_owner: u64,
    first_name: Seq<char>,
    first_assigned: Assigned,
    second_id: u64,
    second_owner: u64,
    second_name: Seq<char>,
    second_assigned: Assigned,
)
    requires
        tables.well_formed(),
        !tables.username_taken(trimmed(first_name)),
        !tables.has_user(column_of(first_id)),
        tables.has_user(column_of(first_owner)) || first_owner == first_id,
        trimmed(second_name) == trimmed(first_name),
    ensures
        ({
            let name = trimmed(first_name);
            let (committed, first) = tables.register_bot(
                first_id,
                first_owner,
                first_name,
                first_assigned,
            );
            let (after, second) = committed.register_bot(
                second_id,
                second_owner,
                second_name,
                second_assigned,
            );
            &&& first is Ok
            &&& second == Err::<BotView, ErrorView>(username_taken())
            &&& after == committed
            &&& after.user(column_of(first_id)) matches Some(row) && row.username == name
            &&& after.bot(column_of(first_id)) == Some(
                BotRow { id: column_of(first_id), owner_id: column_of(first_owner) },
            )
            &&& forall|i: int|
                0 <= i < after.users.len() && (#[trigger] after.users[i]).username == name
                    ==> after.users[i].id == column_of(first_id)
            &&& second_id != first_id && !tables.has_user(column_of(second_id))
                ==> !after.has_user(column_of(second_id)) && !after.has_bot(column_of(second_id))
        }),
{
    let name = trimmed(first_name);
    lemma_registered_bot_is_stored(tables, first_id, first_owner, first_name, first_assigned);
    let (committed, first) = tables.register_bot(first_id, first_owner, first_name, first_assigned);
    lemma_register_bot(committed, second_id, second_owner, second_name, second_assigned);
    let at = committed.user_index(column_of(first_id));
    assert(committed.has_user(column_of(first_id)));
    lemma_user_at(committed, at);
    assert forall|i: int|
        0 <= i < committed.users.len() && (#[trigger] committed.users[i]).username
            == name implies committed.users[i].id == column_of(first_id) by {
        if i < at {
            assert(committed.users[i].username != committed.users[at].username);
        } else if at < i {
            assert(committed.users[at].username != committed.users[i].username);
        }
    }
    if second_id != first_id && !tables.has_user(column_of(second_id)) {
        if column_of(second_id) == column_of(first_id) {
            lemma_column_of_injective(second_id, first_id);
        }
        lemma_no_user_no_bot(tables, column_of(second_id));
        assert(committed.user(column_of(second_id)) == tables.user(column_of(second_id)));
        assert(committed.bot(column_of(second_id)) == tables.bot(column_of(second_id)));
    }
}

/// A registration fails for a taken username exactly when the name, without the
/// whitespace around it, is in use; and then no row has been added, changed or
/// removed, so that an id that had no rows before has none after.
pub proof fn lemma_taken_username_changes_nothing(
    tables: Tables,
    id: u64,
    owner_id: u64,
    username: Seq<char>,
    assigned: Assigned,
)
    requires
        tables.well_formed(),
    ensures
        ({
            let (after, result) = tables.register_bot(id, owner_id, username, assigned);
            &&& result is Err && result->Err_0 is AlreadyTaken <==> tables.username_taken(
                trimmed(username),
            )
            &&& result is Err && result->Err_0 is AlreadyTaken ==> {
                &&& result == Err::<BotView, ErrorView>(username_taken())
                &&& after == tables
                &&& !tables.has_user(column_of(id)) ==> !after.has_user(column_of(id))
                    && !after.has_bot(column_of(id))
            }
        }),
{
    lemma_register_bot(tables, id, owner_id, username, assigned);
    if !tables.has_user(column_of(id)) {
        lemma_no_user_no_bot(tables, column_of(id));
    }
}

/// A registration is all or nothing. Committed after success, the tables
/// hold both rows of the bot; rolled back after any error, they are what they
/// were. A user row without its bot row is never left behind.
pub proof fn lemma_register_bot_all_or_nothing(
    tables: Tables,
    id: u64,
    owner_id: u64,
    username: Seq<char>,
    assigned: Assigned,
)
    requires
        tables.well_formed(),
    ensures
        ({
            let (after, result) = tables.register_bot(id, owner_id, username, assigned);
            let settled = tables.settled(after, result is Ok);
            &&& settled.well_formed()
            &&& result is Ok ==> settled.has_user(column_of(id)) && settled.has_bot(column_of(id))
            &&& result is Err ==> settled == tables
            &&& settled.has_bot(column_of(id)) == (tables.has_bot(column_of(id)) || result is Ok)
        }),
{
    lemma_register_bot(tables, id, owner_id, username, assigned);
    let (after, result) = tables.register_bot(id, owner_id, username, assigned);
    if result is Ok {
        lemma_registered_bot_is_stored(tables, id, owner_id, username, assigned);
        lemma_no_user_no_bot(tables, column_of(id));
    }
}

/// Deleting a bot removes its user row and its bot row and leaves every other
/// row alone. Deleting an id that has no user row succeeds and changes
/// nothing. The only failure is for a user that still owns another bot, and
/// it changes nothing either.
pub proof fn lemma_delete_bot(tables: Tables, id: u64)
    requires
        tables.well_formed(),
    ensures
        ({
            let (after, result) = tables.delete_bot(id);
            let column = column_of(id);
            &&& after.well_formed()
            &&& result is Err <==> tables.has_user(column) && tables.owns_another(column)
            &&& result is Err ==> result == Err::<(), StorageFailureView>(still_referenced())
                && after == tables
            &&& !tables.has_user(column) ==> result is Ok && after == tables
            &&& result is Ok ==> {
                &&& !after.has_user(column)
                &&& !after.has_bot(column)
                &&& forall|other: i64|
                    other != column ==> (#[trigger] after.user(other)) == tables.user(other)
                &&& forall|other: i64|
                    other != column ==> (#[trigger] after.bot(other)) == tables.bot(other)
            }
        }),
{
    lemma_delete_user(tables, column_of(id));
}

/// Deleting twice is deleting once.
pub proof fn lemma_delete_bot_idempotent(tables: Tables, id: u64)
    requires
        tables.well_formed(),
    ensures
        ({
            let (once, first) = tables.delete_bot(id);
            let (twice, second) = once.delete_bot(id);
            first is Ok ==> second is Ok && twice == once
        }),
{
    lemma_delete_bot(tables, id);
    let (once, first) = tables.delete_bot(id);
    lemma_delete_bot(once, id);
}

/// A bot that is registered and then deleted leaves the tables as they were.
pub proof fn lemma_register_then_delete(
    tables: Tables,
    id: u64,
    owner_id: u64,
    username: Seq<char>,
    assigned: Assigned,
)
    requires
        tables.well_formed(),
    ensures
        ({
            let (registered, result) = tables.register_bot(id, owner_id, username, assigned);
            let (after, deleted) = registered.delete_bot(id);
            result is Ok ==> deleted is Ok && after == tables
        }),
{
    let (registered, result) = tables.register_bot(id, owner_id, username, assigned);
    lemma_register_bot(tables, id, owner_id, username, assigned);
    if result is Ok {
        let column = column_of(id);
        lemma_registered_bot_is_stored(tables, id, owner_id, username, assigned);
        lemma_no_user_no_bot(tables, column);
        let users = tables.users.len() as int;
        let bots = tables.bots.len() as int;
        assert(registered.users == tables.users.push(registered.users[users]));
        assert(registered.bots == tables.bots.push(registered.bots[bots]));
        assert(registered.users[users].id == column);
        assert(registered.bots[bots].id == column);
        lemma_user_at(registered, users);
        lemma_bot_at(registered, bots);
        assert(!registered.owns_another(column)) by {
            if registered.owns_another(column) {
                let i = choose|i: int|
                    0 <= i < registered.bots.len() && (#[trigger] registered.bots[i]).owner_id
                        == column && registered.bots[i].id != column;
                assert(i < bots);
                assert(tables.bots[i].owner_id == column);
                lemma_bot_at(tables, i);
            }
        }
        let (after, deleted) = registered.delete_bot(id);
        assert(after.users =~= tables.users);
        assert(after.bots =~= tables.bots);
    }
}

} // verus!
