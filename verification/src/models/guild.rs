//! The guild, as far as other records embed it.

use vstd::prelude::*;

verus! {

/// A guild by reference: its identifier and nothing else.
#[derive(Clone, Copy, Debug, PartialEq, Eq, Structural)]
pub struct PartialGuild {
    /// The snowflake of the guild.
    pub id: u64,
}

} // verus!
