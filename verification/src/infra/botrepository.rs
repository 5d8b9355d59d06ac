//! The stored form of a bot.

use crate::domain::bot::Bot;
use crate::domain::exchange::Exchange;
use vstd::prelude::*;

verus! {

/// A bot as the store holds it: without the exchange and without times.
#[derive(Debug)]
pub struct BotItem {
    pub id: String,
    pub user_id: String,
    pub name: String,
    pub api_key: String,
    pub secret_key: String,
    pub enabled: bool,
}

impl BotItem {
    /// The bot that this item stands for. What the item does not hold is
    /// filled in: the default exchange, and time 0 for both times.
    pub fn to_domain(&self) -> (bot: Bot)
        ensures
            bot == (Bot {
                id: self.id,
                user_id: self.user_id,
                exchange: Exchange::Bybit,
                name: self.name,
                api_key: self.api_key,
                secret_key: self.secret_key,
                enabled: self.enabled,
                created_at: 0,
                updated_at: 0,
            }),
    {
        Bot {
            id: self.id.clone(),
            user_id: self.user_id.clone(),
            exchange: Exchange::default(),
            name: self.name.clone(),
            api_key: self.api_key.clone(),
            secret_key: self.secret_key.clone(),
            enabled: self.enabled,
            created_at: 0,
            updated_at: 0,
        }
    }

    /// The item under which a bot is stored.
    pub fn from_domain(bot: &Bot) -> (item: Self)
        ensures
            item == (BotItem {
                id: bot.id,
                user_id: bot.user_id,
                name: bot.name,
                api_key: bot.api_key,
                secret_key: bot.secret_key,
                enabled: bot.enabled,
            }),
    {
        Self {
            id: bot.id.clone(),
            user_id: bot.user_id.clone(),
            name: bot.name.clone(),
            api_key: bot.api_key.clone(),
            secret_key: bot.secret_key.clone(),
            enabled: bot.enabled,
        }
    }
}

} // verus!
