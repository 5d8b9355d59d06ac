//! A user's bot as the rest of the system knows it.

use crate::domain::exchange::Exchange;
use vstd::prelude::*;

verus! {

#[derive(Debug)]
pub struct Bot {
    pub id: String,
    pub user_id: String,
    pub exchange: Exchange,
    pub name: String,
    pub api_key: String,
    pub secret_key: String,
    pub enabled: bool,
    /// Unix time in seconds.
    pub created_at: i64,
    /// Unix time in seconds.
    pub updated_at: i64,
}

impl Bot {
    pub fn new(
        id: String,
        user_id: String,
        exchange: Exchange,
        name: String,
        api_key: String,
        secret_key: String,
        enabled: bool,
        created_at: i64,
        updated_at: i64,
    ) -> (bot: Self)
        ensures
            bot == (Bot {
                id,
                user_id,
                exchange,
                name,
                api_key,
                secret_key,
                enabled,
                created_at,
                updated_at,
            }),
    {
        Self { id, user_id, exchange, name, api_key, secret_key, enabled, created_at, updated_at }
    }
}

impl Clone for Bot {
    fn clone(&self) -> (copy: Self)
        ensures
            copy == *self,
    {
        Bot {
            id: self.id.clone(),
            user_id: self.user_id.clone(),
            exchange: self.exchange,
            name: self.name.clone(),
            api_key: self.api_key.clone(),
            secret_key: self.secret_key.clone(),
            enabled: self.enabled,
            created_at: self.created_at,
            updated_at: self.updated_at,
        }
    }
}

} // verus!
