use bot_accounts::db::bot::{BotDeletion, BotRegistration};
use bot_accounts::db::user::construct_user;
use bot_accounts::db::{from_column, to_column, CountReply, RowReply, Statement, UserRow};
use bot_accounts::error::{Error, FailureKind, StorageFailure};
use bot_accounts::flags::UserFlags;
use bot_accounts::models::MaybePartialUser;

fn stored_row(id: i64, username: &str, flags: i64) -> UserRow {
    UserRow {
        id,
        username: username.to_string(),
        discriminator: 0,
        avatar: None,
        banner: None,
        bio: None,
        flags,
    }
}

fn lost_connection() -> StorageFailure {
    StorageFailure { kind: FailureKind::Other, message: "connection reset".to_string() }
}

#[test]
fn identifiers_are_stored_bit_for_bit() {
    assert_eq!(to_column(0), 0);
    assert_eq!(to_column(42), 42);
    assert_eq!(to_column(i64::MAX as u64), i64::MAX);
    assert_eq!(to_column(1 << 63), i64::MIN);
    assert_eq!(to_column(u64::MAX), -1);
    assert_eq!(from_column(-1), u64::MAX);
    assert_eq!(from_column(i64::MIN), 1 << 63);
    assert_eq!(from_column(7), 7);
    for id in [0u64, 1, 1 << 62, 1 << 63, u64::MAX - 5, u64::MAX] {
        assert_eq!(from_column(to_column(id)), id);
    }
    for column in [0i64, -1, 5, i64::MIN, i64::MAX] {
        assert_eq!(to_column(from_column(column)), column);
    }
}

#[test]
fn registration_trims_the_username() {
    let registration = BotRegistration::begin(1, 2, "  Helper ");
    assert_eq!(registration.username, "Helper");
    assert_eq!(registration.id, 1);
    assert_eq!(registration.owner_id, 2);
}

#[test]
fn trimming_follows_unicode_whitespace() {
    assert_eq!(BotRegistration::begin(1, 2, "\u{3000}\tbot\u{a0}\n").username, "bot");
    assert_eq!(BotRegistration::begin(1, 2, "\u{2003}\u{85}a b\u{205f}\u{1680}").username, "a b");
    assert_eq!(BotRegistration::begin(1, 2, " \r\n\u{2028} ").username, "");
    assert_eq!(BotRegistration::begin(1, 2, "").username, "");
    assert_eq!(BotRegistration::begin(1, 2, "two  words").username, "two  words");
    assert_eq!(BotRegistration::begin(1, 2, "\u{200b}x\u{200b}").username, "\u{200b}x\u{200b}");
    assert_eq!(BotRegistration::begin(1, 2, "\u{1f}x\u{feff}").username, "\u{1f}x\u{feff}");
}

#[test]
fn first_statement_inserts_a_flagged_user() {
    let statement = BotRegistration::begin(u64::MAX, 2, " Helper").statement();
    match &statement {
        Statement::InsertUser { id, username, flags } => {
            assert_eq!(*id, -1);
            assert_eq!(username, "Helper");
            assert_eq!(*flags, 1);
        }
        other => panic!("unexpected statement {:?}", other),
    }
    assert!(statement.returns_row());
    assert_eq!(
        statement.sql(),
        "INSERT INTO users (id, username, flags) VALUES ($1, $2, $3) ON CONFLICT (username) DO NOTHING RETURNING *"
    );
}

#[test]
fn no_row_means_the_username_is_taken() {
    let registration = BotRegistration::begin(1, 2, "Helper");
    match registration.user_inserted(RowReply::NoRow) {
        Err(Error::AlreadyTaken { what, message }) => {
            assert_eq!(what, "username");
            assert_eq!(message, "Username is already taken");
        }
        other => panic!("unexpected outcome {:?}", other),
    }
    assert!(Error::username_taken().is_conflict());
}

#[test]
fn failure_of_the_first_statement_is_handed_on() {
    let registration = BotRegistration::begin(1, 2, "Helper");
    match registration.user_inserted(RowReply::Failed(lost_connection())) {
        Err(Error::Database(failure)) => {
            assert_eq!(failure.kind, FailureKind::Other);
            assert_eq!(failure.message, "connection reset");
        }
        other => panic!("unexpected outcome {:?}", other),
    }
    assert!(!Error::Database(lost_connection()).is_conflict());
}

#[test]
fn row_leads_to_the_second_statement() {
    let registration = BotRegistration::begin(1, 1 << 63, "Helper");
    let ownership = registration.user_inserted(RowReply::Row(stored_row(1, "Helper", 1))).unwrap();
    assert_eq!(ownership.id, 1);
    assert_eq!(ownership.owner_id, 1 << 63);
    assert_eq!(ownership.user.id, 1);
    assert_eq!(ownership.user.username, "Helper");
    assert!(ownership.user.is_bot());
    let statement = ownership.statement();
    match &statement {
        Statement::InsertBot { id, owner_id } => {
            assert_eq!(*id, 1);
            assert_eq!(*owner_id, i64::MIN);
        }
        other => panic!("unexpected statement {:?}", other),
    }
    assert!(!statement.returns_row());
    assert_eq!(statement.sql(), "INSERT INTO bots VALUES ($1, $2)");
}

#[test]
fn bot_holds_the_full_user_as_stored() {
    let registration = BotRegistration::begin(1, 2, "  Helper ");
    let mut row = stored_row(1, "Helper", 1);
    row.discriminator = 17;
    row.bio = Some("beep".to_string());
    let ownership = registration.user_inserted(RowReply::Row(row)).unwrap();
    let bot = ownership.bot_inserted(CountReply::Done { rows_affected: 1 }).unwrap();
    assert_eq!(bot.owner_id, 2);
    assert_eq!(bot.id(), 1);
    match bot.user {
        MaybePartialUser::Full(user) => {
            assert_eq!(user.id, 1);
            assert_eq!(user.username, "Helper");
            assert_eq!(user.discriminator, 17);
            assert_eq!(user.avatar, None);
            assert_eq!(user.banner, None);
            assert_eq!(user.bio, Some("beep".to_string()));
            assert_eq!(user.flags, UserFlags::bot());
        }
        other => panic!("unexpected user {:?}", other),
    }
}

#[test]
fn failure_of_the_second_statement_is_not_a_conflict() {
    let registration = BotRegistration::begin(1, 2, "Helper");
    let ownership = registration.user_inserted(RowReply::Row(stored_row(1, "Helper", 1))).unwrap();
    let failure = StorageFailure::missing_reference();
    match ownership.bot_inserted(CountReply::Failed(failure)) {
        Err(Error::Database(failure)) => {
            assert_eq!(failure.kind, FailureKind::ForeignKeyViolation);
            assert_eq!(failure.message, "insert or update violates foreign key constraint");
        }
        other => panic!("unexpected outcome {:?}", other),
    }
}

#[test]
fn construct_user_converts_every_column() {
    let row = UserRow {
        id: -2,
        username: "ghost".to_string(),
        discriminator: -1,
        avatar: Some("a.png".to_string()),
        banner: Some("b.png".to_string()),
        bio: None,
        flags: 0x5_0000_0003,
    };
    let user = construct_user(row);
    assert_eq!(user.id, u64::MAX - 1);
    assert_eq!(user.username, "ghost");
    assert_eq!(user.discriminator, u16::MAX);
    assert_eq!(user.avatar, Some("a.png".to_string()));
    assert_eq!(user.banner, Some("b.png".to_string()));
    assert_eq!(user.bio, None);
    assert_eq!(user.flags.bits(), 3);
    assert!(user.is_bot());
    let plain = construct_user(stored_row(9, "human", 0));
    assert_eq!(plain.id, 9);
    assert_eq!(plain.discriminator, 0);
    assert!(!plain.is_bot());
}

#[test]
fn deletion_is_one_statement() {
    let deletion = BotDeletion::begin(u64::MAX);
    assert_eq!(deletion.id, u64::MAX);
    let statement = deletion.statement();
    match &statement {
        Statement::DeleteUser { id } => assert_eq!(*id, -1),
        other => panic!("unexpected statement {:?}", other),
    }
    assert!(!statement.returns_row());
    assert_eq!(statement.sql(), "DELETE FROM users WHERE id = $1");
}

#[test]
fn deleting_nothing_is_a_success() {
    assert!(BotDeletion::begin(5).deleted(CountReply::Done { rows_affected: 0 }).is_ok());
    assert!(BotDeletion::begin(5).deleted(CountReply::Done { rows_affected: 1 }).is_ok());
}

#[test]
fn failure_of_the_deletion_is_handed_on() {
    let failure = BotDeletion::begin(5).deleted(CountReply::Failed(lost_connection())).unwrap_err();
    assert_eq!(failure.kind, FailureKind::Other);
    assert_eq!(failure.message, "connection reset");
}

#[test]
fn storage_failures_of_the_schema() {
    let duplicate = StorageFailure::duplicate_key();
    assert_eq!(duplicate.kind, FailureKind::UniqueViolation);
    assert_eq!(duplicate.message, "duplicate key value violates unique constraint");
    let referenced = StorageFailure::still_referenced();
    assert_eq!(referenced.kind, FailureKind::ForeignKeyViolation);
    assert_eq!(referenced.message, "update or delete violates foreign key constraint");
    let copy = referenced.clone();
    assert_eq!(copy.kind, referenced.kind);
    assert_eq!(copy.message, referenced.message);
}
