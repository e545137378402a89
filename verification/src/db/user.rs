//! From a stored row to a user.

use crate::db::{from_column, id_of, small_of, UserRow, UserRowView};
use crate::flags::{low_bits, UserFlags};
use crate::models::user::{User, UserView};
use vstd::prelude::*;

verus! {

/// The user that a row of the `users` table stands for.
pub open spec fn user_of_row(row: UserRowView) -> UserView {
    UserView {
        id: id_of(row.id),
        username: row.username,
        discriminator: small_of(row.discriminator),
        avatar: row.avatar,
        banner: row.banner,
        bio: row.bio,
        flags: UserFlags { bits: low_bits(row.flags) },
    }
}

/// Builds the user that a row of the `users` table stands for.
pub fn construct_user(row: UserRow) -> (user: User)
    ensures
        user@ == user_of_row(row@),
{
    User {
        id: from_column(row.id),
        username: row.username,
        discriminator: #[verifier::truncate]
        (row.discriminator as u16),
        avatar: row.avatar,
        banner: row.banner,
        bio: row.bio,
        flags: UserFlags::decode_i64(row.flags),
    }
}

} // verus!
