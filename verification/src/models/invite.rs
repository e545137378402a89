//! Invites to a guild.

use crate::models::guild::PartialGuild;
use vstd::prelude::*;

verus! {

/// Nanoseconds in a second.
pub const NANOS_PER_SECOND: i128 = 1_000_000_000;

/// A point in time, in UTC: whole seconds since the Unix epoch and the
/// nanoseconds past them.
#[derive(Clone, Copy, Debug, PartialEq, Eq, Structural)]
pub struct Timestamp {
    pub seconds: i64,
    pub nanoseconds: u32,
}

impl Timestamp {
    /// The nanoseconds since the Unix epoch.
    pub open spec fn instant(self) -> int {
        self.seconds * 1_000_000_000 + self.nanoseconds
    }

    /// The nanoseconds since the Unix epoch.
    pub fn nanos(&self) -> (nanos: i128)
        ensures
            nanos == self.instant(),
    {
        (self.seconds as i128) * NANOS_PER_SECOND + (self.nanoseconds as i128)
    }
}

/// A model representing an invite to a guild.
#[derive(Debug)]
pub struct Invite {
    /// The code of the invite.
    pub code: String,
    /// The ID of the user that created this invite.
    pub inviter_id: u64,
    /// Partial guild information about the guild this invite leads to. This is `None` when this is
    /// already fetched from a guild.
    pub guild: Option<PartialGuild>,
    /// The ID of the guild this invite leads to.
    pub guild_id: u64,
    /// The ID of the channel this invite leads to, or `None` if this invite leads to no channel.
    pub channel_id: Option<u64>,
    /// A timestamp representing when this invite was created.
    pub created_at: Timestamp,
    /// How many times this invite has been used.
    pub uses: u32,
    /// How many times this invite can be used. ``0`` if unlimited.
    pub max_uses: u32,
    /// How long this invite is valid for, in seconds. ``0`` if this invite never expires. This
    /// counts from the time the invite was created (see `created_at`).
    pub max_age: u32,
}

/// [`Invite`] as a mathematical value.
pub struct InviteView {
    pub code: Seq<char>,
    pub inviter_id: u64,
    pub guild: Option<PartialGuild>,
    pub guild_id: u64,
    pub channel_id: Option<u64>,
    pub created_at: Timestamp,
    pub uses: u32,
    pub max_uses: u32,
    pub max_age: u32,
}

impl View for Invite {
    type V = InviteView;

    open spec fn view(&self) -> InviteView {
        InviteView {
            code: self.code@,
            inviter_id: self.inviter_id,
            guild: self.guild,
            guild_id: self.guild_id,
            channel_id: self.channel_id,
            created_at: self.created_at,
            uses: self.uses,
            max_uses: self.max_uses,
            max_age: self.max_age,
        }
    }
}

impl InviteView {
    /// An embedded guild is the guild that the invite leads to.
    pub open spec fn well_formed(self) -> bool {
        self.guild matches Some(guild) ==> guild.id == self.guild_id
    }

    /// Whether the invite has been used as often as it may be.
    pub open spec fn exhausted(self) -> bool {
        self.max_uses != 0 && self.uses >= self.max_uses
    }

    /// Whether the invite has run out at `now`.
    pub open spec fn expired(self, now: Timestamp) -> bool {
        self.max_age != 0 && now.instant() >= self.created_at.instant() + self.max_age
            * 1_000_000_000
    }

    /// Whether the invite can be used at `now`: it has uses left, or no limit
    /// on them, and it has time left, or no limit on it.
    pub open spec fn usable(self, now: Timestamp) -> bool {
        &&& self.max_uses == 0 || self.uses < self.max_uses
        &&& self.max_age == 0 || now.instant() < self.created_at.instant() + self.max_age
            * 1_000_000_000
    }
}

impl Clone for Invite {
    fn clone(&self) -> (copy: Self)
        ensures
            copy == *self,
    {
        Invite {
            code: self.code.clone(),
            inviter_id: self.inviter_id,
            guild: self.guild,
            guild_id: self.guild_id,
            channel_id: self.channel_id,
            created_at: self.created_at,
            uses: self.uses,
            max_uses: self.max_uses,
            max_age: self.max_age,
        }
    }
}

impl Invite {
    /// Whether an embedded guild is the guild that the invite leads to.
    pub fn is_well_formed(&self) -> (ok: bool)
        ensures
            ok == self@.well_formed(),
    {
        match self.guild {
            Some(guild) => guild.id == self.guild_id,
            None => true,
        }
    }

    /// Whether the invite has been used as often as it may be.
    pub fn is_exhausted(&self) -> (exhausted: bool)
        ensures
            exhausted == self@.exhausted(),
    {
        self.max_uses != 0 && self.uses >= self.max_uses
    }

    /// Whether the invite has run out at `now`.
    pub fn is_expired(&self, now: Timestamp) -> (expired: bool)
        ensures
            expired == self@.expired(now),
    {
        self.max_age != 0 && now.nanos() >= self.created_at.nanos() + (self.max_age as i128)
            * NANOS_PER_SECOND
    }

    /// Whether the invite can be used at `now`.
    pub fn is_usable(&self, now: Timestamp) -> (usable: bool)
        ensures
            usable == self@.usable(now),
            usable == (!self@.exhausted() && !self@.expired(now)),
    {
        !self.is_exhausted() && !self.is_expired(now)
    }
}

} // verus!
