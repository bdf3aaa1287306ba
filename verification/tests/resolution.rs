use skipper::cache::ConfigCache;
use skipper::config::{default_error_interval, default_interval, get_config, Config};
use skipper::fields::Field;
use skipper::flags::{Chain, Flag, Flags};
use skipper::sources::Sources;
use skipper::values::ConfigError;

fn var(name: &str, value: &str) -> (String, String) {
    (name.to_string(), value.to_string())
}

fn sources(flags: Flags, environment: Vec<(String, String)>, file: Vec<(String, String)>) -> Sources {
    Sources { flags, environment, file }
}

fn development_environment() -> Vec<(String, String)> {
    vec![
        var("PATH", "/usr/bin"),
        var("SKIPPER_SUBSTRATE_WS_URL", "ws://127.0.0.1:9944"),
        var("SKIPPER_STASHES", "stash_1"),
    ]
}

#[test]
fn it_gets_a_config() {
    let config = get_config(&sources(Flags::new(), development_environment(), vec![])).unwrap();
    assert_ne!(config.substrate_ws_url, "".to_string());
}

#[test]
fn it_gets_a_config_from_the_lazy_static() {
    let mut cache = ConfigCache::new();
    let held = cache.get_or_resolve(&sources(Flags::new(), development_environment(), vec![]));
    let config = held.as_ref().unwrap();
    assert_ne!(config.substrate_ws_url, "".to_string());
}

#[test]
fn defaults_are_the_declared_ones() {
    assert_eq!(default_interval(), 21600);
    assert_eq!(default_error_interval(), 30);
}

#[test]
fn kusama_selector_with_nothing_else_but_an_empty_stash_list() {
    let mut flags = Flags::new();
    flags.select(Chain::Kusama);
    let config = get_config(&sources(flags, vec![var("SKIPPER_STASHES", "")], vec![])).unwrap();
    assert_eq!(config.substrate_ws_url, "wss://kusama-rpc.polkadot.io");
    assert_eq!(config.interval, 21600);
    assert_eq!(config.error_interval, 30);
    assert_eq!(config.stashes, Vec::<String>::new());
    assert!(!config.is_debug);
    assert!(!config.is_short);
    assert_eq!(config.hook_new_session_path, "");
    assert_eq!(config.hook_active_next_era_path, "./hooks/active_next_era.sh");
    assert_eq!(config.hook_inactive_next_era_path, "./hooks/inactive_next_era.sh");
    assert_eq!(config.matrix_user, "");
    assert_eq!(config.matrix_bot_user, "");
    assert_eq!(config.matrix_bot_password, "");
    assert!(!config.matrix_disabled);
    assert!(!config.matrix_public_room_disabled);
    assert!(!config.matrix_bot_display_name_disabled);
}

#[test]
fn kusama_selector_alone_lacks_the_watched_identities() {
    let mut flags = Flags::new();
    flags.select(Chain::Kusama);
    let outcome = get_config(&sources(flags, vec![], vec![]));
    assert_eq!(outcome, Err(ConfigError::MissingValue(Field::Stashes)));
}

#[test]
fn each_selector_gives_its_endpoint() {
    for (chain, url) in [
        (Chain::Westend, "wss://westend-rpc.polkadot.io"),
        (Chain::Kusama, "wss://kusama-rpc.polkadot.io"),
        (Chain::Polkadot, "wss://rpc.polkadot.io"),
    ] {
        let mut flags = Flags::new();
        flags.select(chain);
        flags.give(Flag::Stashes, Some("a".to_string()));
        let config = get_config(&sources(flags, development_environment(), vec![])).unwrap();
        assert_eq!(config.substrate_ws_url, url);
    }
}

#[test]
fn endpoint_flag_wins_over_selector() {
    let mut flags = Flags::new();
    flags.select(Chain::Polkadot);
    flags.give(Flag::SubstrateWsUrl, Some("wss://example.org".to_string()));
    let config = get_config(&sources(flags, development_environment(), vec![])).unwrap();
    assert_eq!(config.substrate_ws_url, "wss://example.org");
}

#[test]
fn stashes_flag_is_split_on_commas() {
    let mut flags = Flags::new();
    flags.give(Flag::Stashes, Some("stash_1,stash_2".to_string()));
    let environment = vec![var("SKIPPER_SUBSTRATE_WS_URL", "ws://127.0.0.1:9944")];
    let config = get_config(&sources(flags, environment, vec![])).unwrap();
    assert_eq!(config.stashes, vec!["stash_1".to_string(), "stash_2".to_string()]);
}

#[test]
fn blank_stash_entries_are_kept() {
    for (text, expected) in [
        ("a,,b", vec!["a", "", "b"]),
        ("a,", vec!["a", ""]),
        (",a", vec!["", "a"]),
        (",", vec!["", ""]),
        ("a", vec!["a"]),
        (" a , b ", vec![" a ", " b "]),
    ] {
        let mut flags = Flags::new();
        flags.give(Flag::Stashes, Some(text.to_string()));
        let config = get_config(&sources(flags, development_environment(), vec![])).unwrap();
        let expected: Vec<String> = expected.into_iter().map(String::from).collect();
        assert_eq!(config.stashes, expected, "for {:?}", text);
    }
}

#[test]
fn missing_endpoint_fails() {
    let outcome = get_config(&sources(Flags::new(), vec![var("SKIPPER_STASHES", "a")], vec![]));
    assert_eq!(outcome, Err(ConfigError::MissingValue(Field::SubstrateWsUrl)));
    let nothing = get_config(&sources(Flags::new(), vec![], vec![]));
    assert_eq!(nothing, Err(ConfigError::MissingValue(Field::SubstrateWsUrl)));
}

#[test]
fn missing_stashes_fails() {
    let environment = vec![var("SKIPPER_SUBSTRATE_WS_URL", "ws://127.0.0.1:9944")];
    let outcome = get_config(&sources(Flags::new(), environment, vec![]));
    assert_eq!(outcome, Err(ConfigError::MissingValue(Field::Stashes)));
}

#[test]
fn endpoint_flag_wins_over_file() {
    let mut flags = Flags::new();
    flags.give(Flag::SubstrateWsUrl, Some("wss://flag.example".to_string()));
    let file = vec![var("SKIPPER_SUBSTRATE_WS_URL", "wss://file.example"), var("SKIPPER_STASHES", "a")];
    let config = get_config(&sources(flags, vec![], file)).unwrap();
    assert_eq!(config.substrate_ws_url, "wss://flag.example");
}

#[test]
fn flag_wins_over_environment_wins_over_file_wins_over_default() {
    let file = vec![
        var("SKIPPER_SUBSTRATE_WS_URL", "wss://file.example"),
        var("SKIPPER_STASHES", "a"),
        var("SKIPPER_ERROR_INTERVAL", "7"),
        var("SKIPPER_INTERVAL", "8"),
        var("SKIPPER_HOOK_ACTIVE_NEXT_ERA_PATH", "/file/active.sh"),
    ];
    let environment = vec![var("SKIPPER_ERROR_INTERVAL", "5"), var("SKIPPER_MATRIX_USER", "@env:matrix.org")];

    let from_default = get_config(&sources(Flags::new(), development_environment(), vec![])).unwrap();
    assert_eq!(from_default.error_interval, 30);
    assert_eq!(from_default.hook_active_next_era_path, "./hooks/active_next_era.sh");

    let from_file = get_config(&sources(Flags::new(), vec![], file.clone())).unwrap();
    assert_eq!(from_file.error_interval, 7);
    assert_eq!(from_file.interval, 8);
    assert_eq!(from_file.hook_active_next_era_path, "/file/active.sh");
    assert_eq!(from_file.substrate_ws_url, "wss://file.example");

    let from_environment = get_config(&sources(Flags::new(), environment.clone(), file.clone())).unwrap();
    assert_eq!(from_environment.error_interval, 5);
    assert_eq!(from_environment.interval, 8);
    assert_eq!(from_environment.matrix_user, "@env:matrix.org");

    let mut flags = Flags::new();
    flags.give(Flag::ErrorInterval, Some("3".to_string()));
    flags.give(Flag::MatrixUser, Some("@flag:matrix.org".to_string()));
    flags.give(Flag::HookActiveNextEraPath, Some("/flag/active.sh".to_string()));
    let from_flags = get_config(&sources(flags, environment, file)).unwrap();
    assert_eq!(from_flags.error_interval, 3);
    assert_eq!(from_flags.matrix_user, "@flag:matrix.org");
    assert_eq!(from_flags.hook_active_next_era_path, "/flag/active.sh");
    assert_eq!(from_flags.interval, 8);
}

#[test]
fn presence_flags_set_their_fields() {
    let mut flags = Flags::new();
    for flag in [
        Flag::Debug,
        Flag::Short,
        Flag::DisableMatrix,
        Flag::DisablePublicMatrixRoom,
        Flag::DisableMatrixBotDisplayName,
    ] {
        flags.give(flag, None);
    }
    let environment = vec![
        var("SKIPPER_SUBSTRATE_WS_URL", "ws://127.0.0.1:9944"),
        var("SKIPPER_STASHES", "a"),
        var("SKIPPER_IS_DEBUG", "false"),
    ];
    let config = get_config(&sources(flags, environment, vec![])).unwrap();
    assert!(config.is_debug);
    assert!(config.is_short);
    assert!(config.matrix_disabled);
    assert!(config.matrix_public_room_disabled);
    assert!(config.matrix_bot_display_name_disabled);
}

#[test]
fn every_field_can_come_from_the_environment() {
    let environment = vec![
        var("SKIPPER_INTERVAL", "100"),
        var("SKIPPER_ERROR_INTERVAL", "10"),
        var("SKIPPER_SUBSTRATE_WS_URL", "wss://node.example"),
        var("SKIPPER_STASHES", "x,y,z"),
        var("SKIPPER_IS_DEBUG", "true"),
        var("SKIPPER_IS_SHORT", "true"),
        var("SKIPPER_HOOK_NEW_SESSION_PATH", "/h/new.sh"),
        var("SKIPPER_HOOK_ACTIVE_NEXT_ERA_PATH", "/h/active.sh"),
        var("SKIPPER_HOOK_INACTIVE_NEXT_ERA_PATH", "/h/inactive.sh"),
        var("SKIPPER_MATRIX_USER", "@me:matrix.org"),
        var("SKIPPER_MATRIX_BOT_USER", "@bot:matrix.org"),
        var("SKIPPER_MATRIX_BOT_PASSWORD", "p4ss"),
        var("SKIPPER_MATRIX_DISABLED", "true"),
        var("SKIPPER_MATRIX_PUBLIC_ROOM_DISABLED", "true"),
        var("SKIPPER_MATRIX_BOT_DISPLAY_NAME_DISABLED", "true"),
    ];
    let config = get_config(&sources(Flags::new(), environment, vec![])).unwrap();
    let expected = Config {
        interval: 100,
        error_interval: 10,
        substrate_ws_url: "wss://node.example".to_string(),
        stashes: vec!["x".to_string(), "y".to_string(), "z".to_string()],
        is_debug: true,
        is_short: true,
        hook_new_session_path: "/h/new.sh".to_string(),
        hook_active_next_era_path: "/h/active.sh".to_string(),
        hook_inactive_next_era_path: "/h/inactive.sh".to_string(),
        matrix_user: "@me:matrix.org".to_string(),
        matrix_bot_user: "@bot:matrix.org".to_string(),
        matrix_bot_password: "p4ss".to_string(),
        matrix_disabled: true,
        matrix_public_room_disabled: true,
        matrix_bot_display_name_disabled: true,
    };
    assert_eq!(config, expected);
    assert_eq!(config.clone(), expected);
}

#[test]
fn variable_names_match_in_any_case_after_an_exact_prefix() {
    let environment = vec![
        var("skipper_INTERVAL", "1"),
        var("SKIPPERINTERVAL", "3"),
        var("XSKIPPER_INTERVAL", "4"),
        var("SKIPPER_INTERVAL_", "5"),
        var("INTERVAL", "6"),
        var("SKIPPER_Interval", "7"),
        var("SKIPPER_INTERVAL", "8"),
        var("SKIPPER_substrate_ws_url", "wss://lower.example"),
        var("SKIPPER_StAsHeS", "a"),
    ];
    let config = get_config(&sources(Flags::new(), environment, vec![])).unwrap();
    assert_eq!(config.interval, 7);
    assert_eq!(config.substrate_ws_url, "wss://lower.example");
    assert_eq!(config.stashes, vec!["a".to_string()]);
}

#[test]
fn a_repeated_prefix_is_stripped_whole() {
    let mut environment = development_environment();
    environment.push(var("SKIPPER_SKIPPER_INTERVAL", "2"));
    let config = get_config(&sources(Flags::new(), environment, vec![])).unwrap();
    assert_eq!(config.interval, 2);
}

#[test]
fn a_letter_outside_ascii_is_folded_too() {
    let mut environment = development_environment();
    environment.push(var("SKIPPER_HOO\u{212A}_NEW_SESSION_PATH", "/kelvin.sh"));
    let config = get_config(&sources(Flags::new(), environment, vec![])).unwrap();
    assert_eq!(config.hook_new_session_path, "/kelvin.sh");
}

#[test]
fn the_first_variable_of_a_layer_wins() {
    let file = vec![
        var("SKIPPER_STASHES", "first"),
        var("SKIPPER_STASHES", "second"),
        var("SKIPPER_SUBSTRATE_WS_URL", "wss://one.example"),
        var("SKIPPER_substrate_ws_url", "wss://two.example"),
    ];
    let config = get_config(&sources(Flags::new(), vec![], file)).unwrap();
    assert_eq!(config.stashes, vec!["first".to_string()]);
    assert_eq!(config.substrate_ws_url, "wss://one.example");
}

#[test]
fn numbers_are_read_exactly() {
    for (text, expected) in [
        ("0", Some(0u64)),
        ("007", Some(7)),
        ("+5", Some(5)),
        ("21600", Some(21600)),
        ("18446744073709551615", Some(u64::MAX)),
        ("18446744073709551616", None),
        ("99999999999999999999999", None),
        ("-1", None),
        ("+", None),
        ("++1", None),
        ("1+", None),
        ("12a", None),
        (" 12", None),
        ("1_000", None),
        ("٣", None),
    ] {
        let mut environment = development_environment();
        environment.push(var("SKIPPER_INTERVAL", text));
        let outcome = get_config(&sources(Flags::new(), environment, vec![]));
        match expected {
            Some(n) => assert_eq!(outcome.unwrap().interval, n, "for {:?}", text),
            None => assert_eq!(
                outcome,
                Err(ConfigError::InvalidValue(Field::Interval, text.to_string())),
                "for {:?}",
                text
            ),
        }
    }
}

#[test]
fn truth_values_are_read_exactly() {
    for (text, expected) in [
        ("true", Some(true)),
        ("false", Some(false)),
        ("True", None),
        ("1", None),
        ("yes", None),
        ("true ", None),
    ] {
        let mut environment = development_environment();
        environment.push(var("SKIPPER_MATRIX_DISABLED", text));
        let outcome = get_config(&sources(Flags::new(), environment, vec![]));
        match expected {
            Some(b) => assert_eq!(outcome.unwrap().matrix_disabled, b, "for {:?}", text),
            None => assert_eq!(
                outcome,
                Err(ConfigError::InvalidValue(Field::MatrixDisabled, text.to_string())),
                "for {:?}",
                text
            ),
        }
    }
}

#[test]
fn an_empty_text_gives_the_default_of_a_field_that_has_one() {
    let mut environment = development_environment();
    environment.push(var("SKIPPER_INTERVAL", ""));
    environment.push(var("SKIPPER_IS_DEBUG", ""));
    environment.push(var("SKIPPER_HOOK_INACTIVE_NEXT_ERA_PATH", ""));
    let mut flags = Flags::new();
    flags.give(Flag::ErrorInterval, Some(String::new()));
    let file = vec![var("SKIPPER_INTERVAL", "5"), var("SKIPPER_ERROR_INTERVAL", "6")];
    let config = get_config(&sources(flags, environment, file)).unwrap();
    assert_eq!(config.interval, 21600);
    assert_eq!(config.error_interval, 30);
    assert!(!config.is_debug);
    assert_eq!(config.hook_inactive_next_era_path, "./hooks/inactive_next_era.sh");
}

#[test]
fn an_empty_endpoint_is_an_endpoint() {
    let environment = vec![var("SKIPPER_SUBSTRATE_WS_URL", ""), var("SKIPPER_STASHES", "")];
    let config = get_config(&sources(Flags::new(), environment, vec![])).unwrap();
    assert_eq!(config.substrate_ws_url, "");
    assert!(config.stashes.is_empty());
}

#[test]
fn the_first_failing_field_in_record_order_is_named() {
    let environment = vec![
        var("SKIPPER_MATRIX_DISABLED", "maybe"),
        var("SKIPPER_ERROR_INTERVAL", "soon"),
        var("SKIPPER_IS_SHORT", "no"),
    ];
    let first = get_config(&sources(Flags::new(), environment.clone(), vec![]));
    assert_eq!(first, Err(ConfigError::InvalidValue(Field::ErrorInterval, "soon".to_string())));

    let mut flags = Flags::new();
    flags.give(Flag::ErrorInterval, Some("1".to_string()));
    let second = get_config(&sources(flags.clone(), environment.clone(), vec![]));
    assert_eq!(second, Err(ConfigError::MissingValue(Field::SubstrateWsUrl)));

    flags.select(Chain::Westend);
    let third = get_config(&sources(flags.clone(), environment.clone(), vec![]));
    assert_eq!(third, Err(ConfigError::MissingValue(Field::Stashes)));

    flags.give(Flag::Stashes, Some("a".to_string()));
    let fourth = get_config(&sources(flags.clone(), environment.clone(), vec![]));
    assert_eq!(fourth, Err(ConfigError::InvalidValue(Field::IsShort, "no".to_string())));

    flags.give(Flag::Short, None);
    let fifth = get_config(&sources(flags, environment, vec![]));
    assert_eq!(fifth, Err(ConfigError::InvalidValue(Field::MatrixDisabled, "maybe".to_string())));
}

#[test]
fn failures_are_put_in_words() {
    let missing = ConfigError::MissingValue(Field::SubstrateWsUrl);
    assert_eq!(missing.message(), "missing value for field substrate_ws_url");
    assert_eq!(missing.field(), Field::SubstrateWsUrl);
    let invalid = ConfigError::InvalidValue(Field::Interval, "abc".to_string());
    assert_eq!(invalid.message(), "invalid value 'abc' for field interval");
    assert_eq!(invalid.field(), Field::Interval);
}

#[test]
fn resolution_is_repeatable() {
    let mut flags = Flags::new();
    flags.give(Flag::Stashes, Some("a,b".to_string()));
    let given = sources(flags, development_environment(), vec![var("SKIPPER_INTERVAL", "12")]);
    assert_eq!(get_config(&given), get_config(&given));
}

#[test]
fn a_holder_resolves_once() {
    let mut cache = ConfigCache::new();
    assert!(cache.get().is_none());
    let first = cache.get_or_resolve(&sources(Flags::new(), development_environment(), vec![])).clone();
    assert_eq!(first.as_ref().unwrap().substrate_ws_url, "ws://127.0.0.1:9944");

    let mut flags = Flags::new();
    flags.select(Chain::Kusama);
    let other = sources(flags, vec![var("SKIPPER_STASHES", "zzz")], vec![]);
    let second = cache.get_or_resolve(&other).clone();
    assert_eq!(first, second);
    cache.resolve_once(&other);
    assert_eq!(cache.get(), Some(&first));
    assert!(std::ptr::eq(cache.get().unwrap(), cache.get().unwrap()));
}

#[test]
fn a_holder_keeps_a_failure_too() {
    let mut cache = ConfigCache::new();
    let first = cache.get_or_resolve(&sources(Flags::new(), vec![], vec![])).clone();
    assert_eq!(first, Err(ConfigError::MissingValue(Field::SubstrateWsUrl)));
    let second = cache.get_or_resolve(&sources(Flags::new(), development_environment(), vec![])).clone();
    assert_eq!(second, first);
}
