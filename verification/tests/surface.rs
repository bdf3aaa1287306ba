use skipper::fields::{key_names_field, lookup, lookup_named, var_names_field, Field};
use skipper::flags::{Chain, Flag, Flags};
use skipper::sources::{config_path, Sources};
use skipper::text::{parse_truth, parse_unsigned, same_text, split_commas};
use skipper::values::{coerce, default_value, settle, ConfigError, FieldValue};

fn var(name: &str, value: &str) -> (String, String) {
    (name.to_string(), value.to_string())
}

#[test]
fn selector_names_are_a_closed_set() {
    assert_eq!(Chain::from_name("westend"), Some(Chain::Westend));
    assert_eq!(Chain::from_name("kusama"), Some(Chain::Kusama));
    assert_eq!(Chain::from_name("polkadot"), Some(Chain::Polkadot));
    assert_eq!(Chain::from_name("Kusama"), None);
    assert_eq!(Chain::from_name("rococo"), None);
    assert_eq!(Chain::from_name(""), None);
    assert_eq!(Chain::Kusama.url(), "wss://kusama-rpc.polkadot.io");
}

#[test]
fn the_flag_table_is_complete() {
    let all = Flag::all();
    assert_eq!(all.len(), 15);
    for (i, a) in all.iter().enumerate() {
        for b in all.iter().skip(i + 1) {
            assert_ne!(a, b);
            assert_ne!(a.long(), b.long());
        }
    }
    let longs: Vec<&str> = all.iter().map(|f| f.long()).collect();
    assert_eq!(
        longs,
        vec![
            "debug",
            "matrix-user",
            "matrix-bot-user",
            "matrix-bot-password",
            "disable-matrix",
            "disable-public-matrix-room",
            "disable-matrix-bot-display-name",
            "short",
            "error-interval",
            "stashes",
            "substrate-ws-url",
            "config-path",
            "hook-new-session-path",
            "hook-active-next-era-path",
            "hook-inactive-next-era-path",
        ]
    );
    let with_value: Vec<bool> = all.iter().map(|f| f.takes_value()).collect();
    assert_eq!(
        with_value,
        vec![false, true, true, true, false, false, false, false, true, true, true, true, true, true, true]
    );
    assert_eq!(Flag::Stashes.short(), Some("s"));
    assert_eq!(Flag::SubstrateWsUrl.short(), Some("w"));
    assert_eq!(Flag::ConfigPath.short(), Some("c"));
    assert_eq!(Flag::Debug.short(), None);
    assert_eq!(Flag::ErrorInterval.shown_default(), Some("30"));
    assert_eq!(Flag::ConfigPath.shown_default(), Some(".env"));
    assert_eq!(Flag::HookActiveNextEraPath.shown_default(), Some("./hooks/active_next_era.sh"));
    assert_eq!(Flag::HookInactiveNextEraPath.shown_default(), Some("./hooks/inactive_next_era.sh"));
    assert_eq!(Flag::HookNewSessionPath.shown_default(), None);
    assert_eq!(Flag::ConfigPath.field(), None);
    assert_eq!(Flag::MatrixUser.field(), Some(Field::MatrixUser));
    assert_eq!(Flag::DisableMatrix.field(), Some(Field::MatrixDisabled));
}

#[test]
fn a_given_flag_supplies_its_field() {
    for flag in Flag::all() {
        let mut flags = Flags::new();
        flags.give(flag, Some("value".to_string()));
        for other in Flag::all() {
            let Some(field) = other.field() else { continue };
            let expected = if other != flag {
                None
            } else if flag.takes_value() {
                Some("value")
            } else {
                Some("true")
            };
            assert_eq!(flags.explicit(field), expected, "{:?} after {:?}", other, flag);
        }
        assert_eq!(flags.config_path.is_some(), flag == Flag::ConfigPath);
        assert_eq!(flags.explicit(Field::Interval), None);
    }
}

#[test]
fn a_value_flag_without_a_value_changes_nothing() {
    let mut flags = Flags::new();
    flags.give(Flag::Stashes, None);
    assert_eq!(flags.stashes, None);
    flags.give(Flag::Stashes, Some("a".to_string()));
    flags.give(Flag::Stashes, Some("b".to_string()));
    assert_eq!(flags.value(Field::Stashes), Some("b"));
}

#[test]
fn the_selector_supplies_the_endpoint_only() {
    let mut flags = Flags::new();
    flags.select(Chain::Westend);
    assert_eq!(flags.explicit(Field::SubstrateWsUrl), None);
    assert_eq!(flags.value(Field::SubstrateWsUrl), Some("wss://westend-rpc.polkadot.io"));
    assert_eq!(flags.value(Field::Stashes), None);
}

#[test]
fn the_configuration_file_is_named_by_flag_then_variable_then_default() {
    let environment = vec![var("PATH", "/bin"), var("SKIPPER_CONFIG_FILENAME", ".env.kusama")];
    let mut flags = Flags::new();
    assert_eq!(config_path(&flags, &vec![]), ".env");
    assert_eq!(config_path(&flags, &vec![var("skipper_config_filename", "x")]), ".env");
    assert_eq!(config_path(&flags, &environment), ".env.kusama");
    flags.give(Flag::ConfigPath, Some("/etc/skipper.env".to_string()));
    assert_eq!(config_path(&flags, &environment), "/etc/skipper.env");
}

#[test]
fn the_file_name_variable_is_no_field() {
    let sources = Sources {
        flags: Flags::new(),
        environment: vec![var("SKIPPER_CONFIG_FILENAME", "x")],
        file: vec![],
    };
    for flag in Flag::all() {
        if let Some(field) = flag.field() {
            assert_eq!(sources.raw(field), None);
        }
    }
    assert_eq!(sources.raw(Field::Interval), None);
}

#[test]
fn lookups_find_the_first_match() {
    let vars = vec![var("A", "1"), var("SKIPPER_IS_SHORT", "x"), var("A", "2"), var("SKIPPER_is_short", "y")];
    assert_eq!(lookup(&vars, Field::IsShort), Some("x"));
    assert_eq!(lookup(&vars, Field::IsDebug), None);
    assert_eq!(lookup_named(&vars, "A"), Some("1"));
    assert_eq!(lookup_named(&vars, "SKIPPER_is_short"), Some("y"));
    assert_eq!(lookup_named(&vars, "a"), None);
    assert!(var_names_field("SKIPPER_Matrix_Bot_User", Field::MatrixBotUser));
    assert!(!var_names_field("SKIPPER_MATRIX_BOT_USER", Field::MatrixUser));
    assert!(!var_names_field("SKIPPER_", Field::MatrixUser));
    assert!(!var_names_field("", Field::MatrixUser));
    assert!(!var_names_field("matrix_user", Field::MatrixUser));
    assert!(!var_names_field("skipper_matrix_user", Field::MatrixUser));
    assert!(var_names_field("SKIPPER_matrix_user", Field::MatrixUser));
}

#[test]
fn a_key_names_the_field_it_spells() {
    assert!(key_names_field(&Some("interval".to_string()), Field::Interval));
    assert!(!key_names_field(&Some("INTERVAL".to_string()), Field::Interval));
    assert!(!key_names_field(&Some("interval".to_string()), Field::ErrorInterval));
    assert!(!key_names_field(&Some(String::new()), Field::Interval));
    assert!(!key_names_field(&None, Field::Interval));
    for flag in Flag::all() {
        if let Some(field) = flag.field() {
            assert!(key_names_field(&Some(field.name().to_string()), field));
            let variable = format!("SKIPPER_{}", field.name().to_uppercase());
            assert!(var_names_field(&variable, field), "{}", variable);
        }
    }
}

#[test]
fn text_primitives() {
    assert!(same_text("é", "é"));
    assert!(!same_text("ab", "abc"));
    assert!(!same_text("abc", "abd"));
    assert!(same_text("", ""));
    assert_eq!(parse_unsigned("42"), Some(42));
    assert_eq!(parse_unsigned(""), None);
    assert_eq!(parse_unsigned("+0"), Some(0));
    assert_eq!(parse_unsigned("18446744073709551615"), Some(u64::MAX));
    assert_eq!(parse_unsigned("18446744073709551616"), None);
    assert_eq!(parse_unsigned("184467440737095516150"), None);
    assert_eq!(parse_truth("true"), Some(true));
    assert_eq!(parse_truth("false"), Some(false));
    assert_eq!(parse_truth(""), None);
    assert_eq!(split_commas(""), Vec::<String>::new());
    assert_eq!(split_commas("a,b"), vec!["a".to_string(), "b".to_string()]);
    assert_eq!(split_commas("é,ü,"), vec!["é".to_string(), "ü".to_string(), String::new()]);
}

#[test]
fn standard_parsers_agree() {
    for text in ["0", "1", "+1", "-1", "", "+", "00", "1a", "18446744073709551615", "18446744073709551616", " 1"] {
        assert_eq!(parse_unsigned(text), text.parse::<u64>().ok(), "for {:?}", text);
    }
    for text in ["true", "false", "TRUE", "", "t"] {
        assert_eq!(parse_truth(text), text.parse::<bool>().ok(), "for {:?}", text);
    }
}

#[test]
fn fields_settle_by_their_shape() {
    assert_eq!(default_value(Field::Interval), Some(FieldValue::Number(21600)));
    assert_eq!(default_value(Field::ErrorInterval), Some(FieldValue::Number(30)));
    assert_eq!(default_value(Field::SubstrateWsUrl), None);
    assert_eq!(default_value(Field::Stashes), None);
    assert_eq!(default_value(Field::IsDebug), Some(FieldValue::Truth(false)));
    assert_eq!(default_value(Field::MatrixUser), Some(FieldValue::Text(String::new())));
    assert_eq!(coerce(Field::Interval, "12"), Some(FieldValue::Number(12)));
    assert_eq!(coerce(Field::Interval, "x"), None);
    assert_eq!(coerce(Field::IsShort, "true"), Some(FieldValue::Truth(true)));
    assert_eq!(coerce(Field::Stashes, "a,b"), Some(FieldValue::List(vec!["a".to_string(), "b".to_string()])));
    assert_eq!(coerce(Field::MatrixUser, "a,b"), Some(FieldValue::Text("a,b".to_string())));
    assert_eq!(settle(Field::Interval, None), Ok(FieldValue::Number(21600)));
    assert_eq!(settle(Field::Interval, Some("")), Ok(FieldValue::Number(21600)));
    assert_eq!(settle(Field::Interval, Some("9")), Ok(FieldValue::Number(9)));
    assert_eq!(
        settle(Field::Interval, Some("nine")),
        Err(ConfigError::InvalidValue(Field::Interval, "nine".to_string()))
    );
    assert_eq!(settle(Field::Stashes, None), Err(ConfigError::MissingValue(Field::Stashes)));
    assert_eq!(settle(Field::Stashes, Some("")), Ok(FieldValue::List(vec![])));
    assert_eq!(settle(Field::SubstrateWsUrl, Some("")), Ok(FieldValue::Text(String::new())));
    assert_eq!(
        settle(Field::HookActiveNextEraPath, Some("")),
        Ok(FieldValue::Text("./hooks/active_next_era.sh".to_string()))
    );
}
