use pbtb_rust::config::ecs::EcsConfig;
use pbtb_rust::domain::bot::Bot;
use pbtb_rust::domain::botconfig::{insert_coin, is_listed, BotType, Coins};
use pbtb_rust::domain::clock::{seconds_since_epoch, Clock, MockClock, SystemClock};
use pbtb_rust::domain::exchange::Exchange;
use pbtb_rust::infra::botrepository::BotItem;

fn coins(long: &[&str], short: &[&str]) -> Coins {
    Coins::new(
        long.iter().map(|s| s.to_string()).collect(),
        short.iter().map(|s| s.to_string()).collect(),
    )
}

fn sample_bot() -> Bot {
    Bot::new(
        "bot-1".to_string(),
        "user-1".to_string(),
        Exchange::Bybit,
        "Test Bot".to_string(),
        "test-api-key".to_string(),
        "test-secret-key".to_string(),
        true,
        1_700_000_000,
        1_700_000_100,
    )
}

#[test]
fn exchange_is_read_in_any_case() {
    assert_eq!(Exchange::from_str("bybit"), Some(Exchange::Bybit));
    assert_eq!(Exchange::from_str("Bybit"), Some(Exchange::Bybit));
    assert_eq!(Exchange::from_str("BYBIT"), Some(Exchange::Bybit));
    assert_eq!(Exchange::from_str("ByBiT"), Some(Exchange::Bybit));
}

#[test]
fn unknown_exchange_is_none() {
    assert_eq!(Exchange::from_str(""), None);
    assert_eq!(Exchange::from_str("binance"), None);
    assert_eq!(Exchange::from_str("bybit "), None);
    assert_eq!(Exchange::from_str("by bit"), None);
}

#[test]
fn lowercase_name_is_read_exactly() {
    assert_eq!(Exchange::from_lowercase("bybit"), Some(Exchange::Bybit));
    assert_eq!(Exchange::from_lowercase("Bybit"), None);
    assert_eq!(Exchange::from_lowercase("BYBIT"), None);
    assert_eq!(Exchange::from_lowercase(""), None);
}

#[test]
fn exchange_name_round_trips() {
    assert_eq!(Exchange::Bybit.as_str(), "bybit");
    assert_eq!(Exchange::from_str(Exchange::Bybit.as_str()), Some(Exchange::Bybit));
    assert_eq!(Exchange::default(), Exchange::Bybit);
}

#[test]
fn bot_type_defaults_to_passivbot() {
    assert_eq!(BotType::default(), BotType::Passivbot);
}

#[test]
fn bot_new_keeps_every_field() {
    let bot = sample_bot();
    assert_eq!(bot.id, "bot-1");
    assert_eq!(bot.user_id, "user-1");
    assert_eq!(bot.exchange, Exchange::Bybit);
    assert_eq!(bot.name, "Test Bot");
    assert_eq!(bot.api_key, "test-api-key");
    assert_eq!(bot.secret_key, "test-secret-key");
    assert!(bot.enabled);
    assert_eq!(bot.created_at, 1_700_000_000);
    assert_eq!(bot.updated_at, 1_700_000_100);
}

#[test]
fn bot_clone_is_equal_field_by_field() {
    let bot = sample_bot();
    let copy = bot.clone();
    assert_eq!(copy.id, bot.id);
    assert_eq!(copy.user_id, bot.user_id);
    assert_eq!(copy.exchange, bot.exchange);
    assert_eq!(copy.name, bot.name);
    assert_eq!(copy.api_key, bot.api_key);
    assert_eq!(copy.secret_key, bot.secret_key);
    assert_eq!(copy.enabled, bot.enabled);
    assert_eq!(copy.created_at, bot.created_at);
    assert_eq!(copy.updated_at, bot.updated_at);
}

#[test]
fn bot_item_holds_what_the_store_keeps() {
    let bot = sample_bot();
    let item = BotItem::from_domain(&bot);
    assert_eq!(item.id, "bot-1");
    assert_eq!(item.user_id, "user-1");
    assert_eq!(item.name, "Test Bot");
    assert_eq!(item.api_key, "test-api-key");
    assert_eq!(item.secret_key, "test-secret-key");
    assert!(item.enabled);
}

#[test]
fn bot_item_becomes_a_bot_again() {
    let mut bot = sample_bot();
    bot.enabled = false;
    let back = BotItem::from_domain(&bot).to_domain();
    assert_eq!(back.id, bot.id);
    assert_eq!(back.user_id, bot.user_id);
    assert_eq!(back.name, bot.name);
    assert_eq!(back.api_key, bot.api_key);
    assert_eq!(back.secret_key, bot.secret_key);
    assert_eq!(back.enabled, false);
    assert_eq!(back.exchange, Exchange::Bybit);
    assert_eq!(back.created_at, 0);
    assert_eq!(back.updated_at, 0);
}

#[test]
fn coins_new_keeps_both_lists() {
    let c = coins(&["BTC", "ETH"], &["SOL"]);
    assert_eq!(c.long, vec!["BTC", "ETH"]);
    assert_eq!(c.short, vec!["SOL"]);
}

#[test]
fn all_coins_are_sorted_and_unique() {
    let c = coins(&["ETH", "BTC", "SOL", "BTC"], &["XRP", "ETH", "ADA"]);
    assert_eq!(c.all_coins(), vec!["ADA", "BTC", "ETH", "SOL", "XRP"]);
}

#[test]
fn all_coins_of_nothing_is_empty() {
    assert_eq!(coins(&[], &[]).all_coins(), Vec::<String>::new());
    assert_eq!(coins(&["BTC"], &[]).all_coins(), vec!["BTC"]);
    assert_eq!(coins(&[], &["BTC", "BTC"]).all_coins(), vec!["BTC"]);
}

#[test]
fn all_coins_agree_with_sort_and_dedup() {
    let long = ["eth", "ETH", "btc", "", "BTCUSDT", "BTC", "é", "1INCH"];
    let short = ["BTC", "zec", "ETH", "", "a", "A"];
    let mut expected: Vec<String> = long.iter().chain(short.iter()).map(|s| s.to_string()).collect();
    expected.sort();
    expected.dedup();
    assert_eq!(coins(&long, &short).all_coins(), expected);
}

#[test]
fn insert_coin_keeps_the_list_in_order() {
    let mut list: Vec<String> = Vec::new();
    for coin in ["SOL", "BTC", "XRP", "BTC", "ADA", "SOL"] {
        insert_coin(&mut list, coin);
    }
    assert_eq!(list, vec!["ADA", "BTC", "SOL", "XRP"]);
}

#[test]
fn coin_is_approved_where_either_list_has_it() {
    let c = coins(&["BTC", "ETH"], &["SOL"]);
    assert!(c.is_approved("BTC"));
    assert!(c.is_approved("ETH"));
    assert!(c.is_approved("SOL"));
    assert!(!c.is_approved("XRP"));
    assert!(!c.is_approved("btc"));
    assert!(!c.is_approved("BT"));
    assert!(!c.is_approved(""));
}

#[test]
fn is_listed_looks_at_whole_names() {
    let list = vec!["BTC".to_string(), "ETH".to_string()];
    assert!(is_listed(&list, "ETH"));
    assert!(!is_listed(&list, "ET"));
    assert!(!is_listed(&Vec::new(), "ETH"));
}

#[test]
fn coins_are_empty_when_both_lists_are() {
    assert!(coins(&[], &[]).is_empty());
    assert!(!coins(&["BTC"], &[]).is_empty());
    assert!(!coins(&[], &["BTC"]).is_empty());
}

#[test]
fn mock_clock_shows_its_time() {
    assert_eq!(MockClock { timestamp: 0 }.now(), 0);
    assert_eq!(MockClock { timestamp: 1_700_000_000 }.now(), 1_700_000_000);
    assert_eq!(MockClock { timestamp: -1 }.now(), -1);
}

#[test]
fn reading_of_the_clock_is_taken_in_whole_seconds() {
    assert_eq!(seconds_since_epoch(Some(0)), 0);
    assert_eq!(seconds_since_epoch(Some(1)), 1);
    assert_eq!(seconds_since_epoch(Some(1_700_000_000)), 1_700_000_000);
    assert_eq!(seconds_since_epoch(Some(i64::MAX as u64)), i64::MAX);
}

#[test]
fn reading_before_the_epoch_is_zero() {
    assert_eq!(seconds_since_epoch(None), 0);
}

#[test]
fn reading_that_does_not_fit_is_the_largest_time() {
    assert_eq!(seconds_since_epoch(Some(i64::MAX as u64 + 1)), i64::MAX);
    assert_eq!(seconds_since_epoch(Some(u64::MAX)), i64::MAX);
}

#[test]
fn system_clock_shows_a_time_of_this_era() {
    let clock = SystemClock;
    let first = clock.now();
    let second = clock.now();
    assert!(first > 1_600_000_000);
    assert!(second >= first);
    assert!(second - first < 60);
}

#[test]
fn launch_target_comes_from_the_settings() {
    let config = EcsConfig {
        region: "eu-west-1".to_string(),
        cluster_arn: "arn:cluster/bots".to_string(),
        td_passivbot_v741_arn: "arn:task-definition/passivbot:7".to_string(),
        td_passivbot_v741_container_name: "passivbot".to_string(),
    };
    let target = config.launch_target();
    assert_eq!(target.cluster_id, "arn:cluster/bots");
    assert_eq!(target.task_definition, "arn:task-definition/passivbot:7");
    assert_eq!(target.container_name, "passivbot");
}
