//! Payloads of the bot endpoints.

use vstd::prelude::*;

verus! {

/// Payload sent to create a new bot.
#[derive(Debug)]
pub struct CreateBotPayload {
    /// The username of the bot. Must be between 2 and 32 characters.
    pub username: String,
}

/// Data returned when creating a new bot.
#[derive(Debug)]
pub struct CreateUserResponse {
    /// The ID of the bot.
    pub id: u64,
    /// The token to use for authentication.
    pub token: String,
}

/// Payload sent when deleting a bot.
#[derive(Debug)]
pub struct DeleteBotPayload {
    /// The password of the bot owner.
    pub password: String,
}

impl Clone for CreateBotPayload {
    fn clone(&self) -> (copy: Self)
        ensures
            copy == *self,
    {
        CreateBotPayload { username: self.username.clone() }
    }
}

impl Clone for CreateUserResponse {
    fn clone(&self) -> (copy: Self)
        ensures
            copy == *self,
    {
        CreateUserResponse { id: self.id, token: self.token.clone() }
    }
}

impl Clone for DeleteBotPayload {
    fn clone(&self) -> (copy: Self)
        ensures
            copy == *self,
    {
        DeleteBotPayload { password: self.password.clone() }
    }
}

} // verus!
