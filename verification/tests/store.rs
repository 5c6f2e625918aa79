use mfauth::error::Error;
use mfauth::persist::{
    find, find_toml, has_repeated_name, Account, AccountConfig, Cache, Config, Store, Tokens,
};

fn conf(id: &str) -> AccountConfig {
    AccountConfig {
        client_id: id.to_string(),
        client_secret: "secret".to_string(),
        authorize_url: "https://idp.example/auth".to_string(),
        token_url: "https://idp.example/token".to_string(),
        scope: "mail".to_string(),
    }
}

fn tokens(access: &str, refresh: &str, expiration: i64) -> Tokens {
    Tokens {
        access_token: access.to_string(),
        expiration,
        refresh_token: refresh.to_string(),
    }
}

fn load(config: Vec<(&str, AccountConfig)>, cache: Vec<(&str, Tokens)>) -> Store {
    Store::read(
        "/etc/mfauth/config.toml".to_string(),
        "/var/cache/mfauth/cache.toml".to_string(),
        Config { accounts: config.into_iter().map(|(n, c)| (n.to_string(), c)).collect() },
        Cache { accounts: cache.into_iter().map(|(n, t)| (n.to_string(), t)).collect() },
    )
    .unwrap()
}

#[test]
fn expired_tokens_need_refresh() {
    let account = Account { conf: conf("a"), tokens: Some(tokens("AT", "RT", 999)) };
    assert!(account.needs_refresh(1000));
    assert!(account.tokens.as_ref().unwrap().access_token_expired(1000));
}

#[test]
fn tokens_that_expire_later_need_no_refresh() {
    let account = Account { conf: conf("a"), tokens: Some(tokens("AT", "RT", 1001)) };
    assert!(!account.needs_refresh(1000));
}

#[test]
fn tokens_that_expire_now_need_no_refresh() {
    let account = Account { conf: conf("a"), tokens: Some(tokens("AT", "RT", 1000)) };
    assert!(!account.needs_refresh(1000));
    assert!(!account.tokens.as_ref().unwrap().access_token_expired(1000));
}

#[test]
fn account_without_tokens_needs_no_refresh() {
    let account = Account { conf: conf("a"), tokens: None };
    assert!(!account.needs_refresh(i64::MAX));
    assert!(!account.needs_refresh(i64::MIN));
}

#[test]
fn find_gives_the_first_entry_of_a_name() {
    let entries = vec![
        ("a".to_string(), 1u8),
        ("b".to_string(), 2u8),
        ("a".to_string(), 3u8),
    ];
    assert_eq!(find(&entries, "a"), Some(0));
    assert_eq!(find(&entries, "b"), Some(1));
    assert_eq!(find(&entries, "c"), None);
    assert_eq!(find(&Vec::<(String, u8)>::new(), "a"), None);
}

#[test]
fn read_merges_tokens_by_name() {
    let store = load(
        vec![("work", conf("w")), ("home", conf("h"))],
        vec![("home", tokens("AT-h", "RT-h", 50))],
    );
    assert_eq!(store.conf_path, "/etc/mfauth/config.toml");
    assert_eq!(store.cache_path, "/var/cache/mfauth/cache.toml");
    assert_eq!(store.accounts.len(), 2);
    assert_eq!(store.accounts[0].0, "work");
    assert_eq!(store.accounts[0].1, Account { conf: conf("w"), tokens: None });
    assert_eq!(store.accounts[1].0, "home");
    assert_eq!(
        store.accounts[1].1,
        Account { conf: conf("h"), tokens: Some(tokens("AT-h", "RT-h", 50)) }
    );
}

#[test]
fn read_with_an_empty_cache_gives_accounts_without_tokens() {
    let store = load(vec![("work", conf("w"))], vec![]);
    assert_eq!(store.get("work").unwrap().tokens, None);
    assert_eq!(store.write(), Cache { accounts: vec![] });
}

#[test]
fn get_fails_on_an_unconfigured_name_whatever_the_cache_holds() {
    let store = load(vec![("work", conf("w"))], vec![("ghost", tokens("AT", "RT", 5))]);
    assert_eq!(store.get("ghost"), Err(Error::UnknownAccount));
    assert_eq!(store.get("").err(), Some(Error::UnknownAccount));
    let empty = load(vec![], vec![("ghost", tokens("AT", "RT", 5))]);
    assert_eq!(empty.get("ghost"), Err(Error::UnknownAccount));
}

#[test]
fn get_mut_fails_on_an_unconfigured_name() {
    let mut store = load(vec![("work", conf("w"))], vec![("ghost", tokens("AT", "RT", 5))]);
    assert_eq!(store.get_mut("ghost").err(), Some(Error::UnknownAccount));
    assert_eq!(store.accounts.len(), 1);
}

#[test]
fn get_mut_installs_tokens_for_one_account_only() {
    let mut store = load(
        vec![("work", conf("w")), ("home", conf("h"))],
        vec![("work", tokens("AT1", "RT1", 10)), ("home", tokens("AT-h", "RT-h", 50))],
    );
    store.get_mut("work").unwrap().tokens = Some(tokens("AT2", "RT2", 20));
    assert_eq!(store.get("work").unwrap().tokens, Some(tokens("AT2", "RT2", 20)));
    assert_eq!(store.get("work").unwrap().conf, conf("w"));
    assert_eq!(store.get("home").unwrap().tokens, Some(tokens("AT-h", "RT-h", 50)));
}

#[test]
fn stale_cache_entries_are_dropped_and_stay_away() {
    let store = load(
        vec![("work", conf("w"))],
        vec![("gone", tokens("AT-g", "RT-g", 7)), ("work", tokens("AT", "RT", 9))],
    );
    assert_eq!(store.accounts.len(), 1);
    let cache = store.write();
    assert_eq!(cache.accounts, vec![("work".to_string(), tokens("AT", "RT", 9))]);
    assert!(cache.accounts.iter().all(|(name, _)| name != "gone"));
}

#[test]
fn write_keeps_only_accounts_with_tokens_and_no_settings() {
    let store = load(
        vec![("a", conf("1")), ("b", conf("2")), ("c", conf("3"))],
        vec![("c", tokens("AT-c", "RT-c", 3)), ("a", tokens("AT-a", "RT-a", 1))],
    );
    assert_eq!(
        store.write().accounts,
        vec![
            ("a".to_string(), tokens("AT-a", "RT-a", 1)),
            ("c".to_string(), tokens("AT-c", "RT-c", 3)),
        ]
    );
}

#[test]
fn persist_then_load_gives_the_same_tokens() {
    let store = load(
        vec![("work", conf("w")), ("home", conf("h")), ("idle", conf("i"))],
        vec![
            ("work", tokens("AT \u{e9}\u{1F600}", "RT/=+&", i64::MAX)),
            ("home", tokens("", "", i64::MIN)),
        ],
    );
    let again = Store::read(
        "c".to_string(),
        "k".to_string(),
        Config {
            accounts: vec![
                ("idle".to_string(), conf("i")),
                ("home".to_string(), conf("h")),
                ("work".to_string(), conf("w")),
            ],
        },
        store.write(),
    )
    .unwrap();
    for name in ["work", "home", "idle"] {
        assert_eq!(again.get(name).unwrap().tokens, store.get(name).unwrap().tokens);
    }
    assert_eq!(
        again.get("work").unwrap().tokens,
        Some(tokens("AT \u{e9}\u{1F600}", "RT/=+&", i64::MAX))
    );
    assert_eq!(again.get("idle").unwrap().tokens, None);
}

#[test]
fn tokens_clone_is_equal() {
    let t = tokens("AT", "RT", 77);
    assert_eq!(t.clone(), t);
    let c = conf("x");
    assert_eq!(c.clone(), c);
}

#[test]
fn find_toml_prefers_the_requested_path() {
    let requested = Some("/tmp/my.toml".to_string());
    assert_eq!(find_toml(&requested, Some("/home/u/.config".to_string()), "config.toml"), "/tmp/my.toml");
    assert_eq!(find_toml(&requested, None, "config.toml"), "/tmp/my.toml");
}

#[test]
fn find_toml_falls_back_to_the_user_directory() {
    assert_eq!(
        find_toml(&None, Some("/home/u/.config".to_string()), "config.toml"),
        "/home/u/.config/mfauth/config.toml"
    );
    assert_eq!(
        find_toml(&None, Some("/home/u/.cache/".to_string()), "cache.toml"),
        "/home/u/.cache/mfauth/cache.toml"
    );
}

#[test]
fn repeated_names_are_found() {
    let entry = |n: &str| (n.to_string(), 0u8);
    assert!(!has_repeated_name(&Vec::<(String, u8)>::new()));
    assert!(!has_repeated_name(&vec![entry("a")]));
    assert!(!has_repeated_name(&vec![entry("a"), entry("b"), entry("c")]));
    assert!(has_repeated_name(&vec![entry("a"), entry("b"), entry("a")]));
    assert!(has_repeated_name(&vec![entry("a"), entry("b"), entry("b")]));
    assert!(has_repeated_name(&vec![entry("b"), entry("b")]));
}

#[test]
fn read_refuses_a_configuration_with_a_repeated_name() {
    let r = Store::read(
        "c".to_string(),
        "k".to_string(),
        Config { accounts: vec![("work".to_string(), conf("1")), ("work".to_string(), conf("2"))] },
        Cache { accounts: vec![] },
    );
    assert_eq!(r, Err(Error::PersistenceError));
}

#[test]
fn read_refuses_a_cache_with_a_repeated_name() {
    let r = Store::read(
        "c".to_string(),
        "k".to_string(),
        Config { accounts: vec![("work".to_string(), conf("1"))] },
        Cache {
            accounts: vec![
                ("gone".to_string(), tokens("a", "b", 1)),
                ("gone".to_string(), tokens("c", "d", 2)),
            ],
        },
    );
    assert_eq!(r, Err(Error::PersistenceError));
}
