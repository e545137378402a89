use bot_accounts::flags::UserFlags;
use bot_accounts::http::bot::{CreateBotPayload, CreateUserResponse, DeleteBotPayload};
use bot_accounts::models::bot::Bot;
use bot_accounts::models::guild::PartialGuild;
use bot_accounts::models::invite::{Invite, Timestamp};
use bot_accounts::models::user::User;
use bot_accounts::models::MaybePartialUser;

fn user(id: u64) -> User {
    User {
        id,
        username: "someone".to_string(),
        discriminator: 4,
        avatar: None,
        banner: Some("banner.png".to_string()),
        bio: None,
        flags: UserFlags::empty(),
    }
}

fn invite(uses: u32, max_uses: u32, max_age: u32) -> Invite {
    Invite {
        code: "abc123".to_string(),
        inviter_id: 1,
        guild: None,
        guild_id: 5,
        channel_id: Some(6),
        created_at: Timestamp { seconds: 1_000, nanoseconds: 500 },
        uses,
        max_uses,
        max_age,
    }
}

#[test]
fn partial_user_is_the_identifier_alone() {
    let partial = MaybePartialUser::Partial { id: 42 };
    assert_eq!(partial.id(), 42);
    assert!(partial.is_partial());
    assert!(!partial.is_full());
    assert!(partial.as_full().is_none());
    assert!(matches!(partial.to_partial(), MaybePartialUser::Partial { id: 42 }));
    assert!(matches!(partial.clone(), MaybePartialUser::Partial { id: 42 }));
}

#[test]
fn full_user_is_the_whole_record() {
    let full = MaybePartialUser::Full(user(7));
    assert_eq!(full.id(), 7);
    assert!(full.is_full());
    assert!(!full.is_partial());
    let inner = full.as_full().unwrap();
    assert_eq!(inner.username, "someone");
    assert_eq!(inner.banner, Some("banner.png".to_string()));
    assert!(matches!(full.to_partial(), MaybePartialUser::Partial { id: 7 }));
    match full.clone() {
        MaybePartialUser::Full(copy) => {
            assert_eq!(copy.id, 7);
            assert_eq!(copy.username, "someone");
            assert_eq!(copy.discriminator, 4);
            assert_eq!(copy.banner, Some("banner.png".to_string()));
        }
        other => panic!("unexpected user {:?}", other),
    }
}

#[test]
fn bot_takes_its_identifier_from_its_user() {
    let bot = Bot { user: MaybePartialUser::Full(user(9)), owner_id: 3 };
    assert_eq!(bot.id(), 9);
    let copy = bot.clone();
    assert_eq!(copy.owner_id, 3);
    assert_eq!(copy.id(), 9);
    let by_reference = Bot { user: MaybePartialUser::Partial { id: 11 }, owner_id: 3 };
    assert_eq!(by_reference.id(), 11);
}

#[test]
fn timestamp_in_nanoseconds() {
    assert_eq!(Timestamp { seconds: 0, nanoseconds: 0 }.nanos(), 0);
    assert_eq!(Timestamp { seconds: 1, nanoseconds: 5 }.nanos(), 1_000_000_005);
    assert_eq!(Timestamp { seconds: -1, nanoseconds: 1 }.nanos(), -999_999_999);
    assert_eq!(
        Timestamp { seconds: i64::MAX, nanoseconds: u32::MAX }.nanos(),
        9_223_372_036_854_775_807_i128 * 1_000_000_000 + 4_294_967_295
    );
    assert_eq!(
        Timestamp { seconds: i64::MIN, nanoseconds: 0 }.nanos(),
        -9_223_372_036_854_775_808_i128 * 1_000_000_000
    );
}

#[test]
fn invite_without_limits_is_always_usable() {
    let invite = invite(1_000_000, 0, 0);
    assert!(!invite.is_exhausted());
    assert!(!invite.is_expired(Timestamp { seconds: i64::MAX, nanoseconds: u32::MAX }));
    assert!(invite.is_usable(Timestamp { seconds: i64::MAX, nanoseconds: u32::MAX }));
    assert!(invite.is_usable(Timestamp { seconds: i64::MIN, nanoseconds: 0 }));
}

#[test]
fn invite_is_exhausted_at_its_limit() {
    let now = Timestamp { seconds: 1_000, nanoseconds: 500 };
    assert!(invite(0, 1, 0).is_usable(now));
    assert!(invite(4, 5, 0).is_usable(now));
    assert!(!invite(5, 5, 0).is_usable(now));
    assert!(invite(5, 5, 0).is_exhausted());
    assert!(!invite(6, 5, 0).is_usable(now));
    assert!(!invite(4, 5, 0).is_exhausted());
}

#[test]
fn invite_expires_max_age_seconds_after_creation() {
    let invite = invite(0, 0, 60);
    assert!(invite.is_usable(Timestamp { seconds: 1_000, nanoseconds: 500 }));
    assert!(invite.is_usable(Timestamp { seconds: 1_059, nanoseconds: 999_999_999 }));
    assert!(invite.is_usable(Timestamp { seconds: 1_060, nanoseconds: 499 }));
    assert!(!invite.is_usable(Timestamp { seconds: 1_060, nanoseconds: 500 }));
    assert!(invite.is_expired(Timestamp { seconds: 1_060, nanoseconds: 500 }));
    assert!(!invite.is_usable(Timestamp { seconds: 1_061, nanoseconds: 0 }));
    assert!(invite.is_usable(Timestamp { seconds: 0, nanoseconds: 0 }));
}

#[test]
fn invite_needs_both_uses_and_time() {
    let late = Timestamp { seconds: 2_000, nanoseconds: 0 };
    let early = Timestamp { seconds: 1_001, nanoseconds: 0 };
    assert!(invite(1, 2, 60).is_usable(early));
    assert!(!invite(2, 2, 60).is_usable(early));
    assert!(!invite(1, 2, 60).is_usable(late));
    assert!(!invite(2, 2, 60).is_usable(late));
}

#[test]
fn invite_at_the_end_of_time() {
    let mut invite = invite(0, 0, u32::MAX);
    invite.created_at = Timestamp { seconds: i64::MAX, nanoseconds: u32::MAX };
    assert!(invite.is_usable(Timestamp { seconds: i64::MAX, nanoseconds: u32::MAX }));
    invite.created_at = Timestamp { seconds: i64::MIN, nanoseconds: 0 };
    assert!(!invite.is_usable(Timestamp { seconds: 0, nanoseconds: 0 }));
}

#[test]
fn embedded_guild_is_the_guild_of_the_invite() {
    let mut invite = invite(0, 0, 0);
    assert!(invite.is_well_formed());
    invite.guild = Some(PartialGuild { id: 5 });
    assert!(invite.is_well_formed());
    invite.guild = Some(PartialGuild { id: 6 });
    assert!(!invite.is_well_formed());
    let copy = invite.clone();
    assert_eq!(copy.code, "abc123");
    assert_eq!(copy.guild, Some(PartialGuild { id: 6 }));
    assert_eq!(copy.channel_id, Some(6));
    assert_eq!(copy.created_at, Timestamp { seconds: 1_000, nanoseconds: 500 });
}

#[test]
fn payloads_hold_what_they_are_given() {
    let create = CreateBotPayload { username: "Helper".to_string() };
    assert_eq!(create.clone().username, "Helper");
    let response = CreateUserResponse { id: 1, token: "t0k3n".to_string() };
    assert_eq!(response.id, 1);
    assert_eq!(response.clone().token, "t0k3n");
    let delete = DeleteBotPayload { password: "hunter2".to_string() };
    assert_eq!(delete.clone().password, "hunter2");
}
