use user_service::config::{config, load_config, ConfigNumber, ConfigValue};

fn s(x: &str) -> ConfigValue {
    ConfigValue::String(x.to_string())
}

fn sample() -> ConfigValue {
    ConfigValue::Mapping(vec![
        (s("http_web_addr"), s("0.0.0.0:8080")),
        (
            s("database"),
            ConfigValue::Mapping(vec![
                (s("url"), s("data.db")),
                (s("init_sql"), s("init.sql")),
                (s("pool"), ConfigValue::Number(ConfigNumber::PosInt(8))),
            ]),
        ),
        (
            s("user"),
            ConfigValue::Tagged(Box::new(ConfigValue::Mapping(vec![(
                s("token"),
                ConfigValue::Mapping(vec![
                    (s("salt"), s("pepper")),
                    (s("ttl"), s("-3600")),
                    (s("big"), ConfigValue::Number(ConfigNumber::PosInt(u64::MAX))),
                    (s("neg"), ConfigValue::Number(ConfigNumber::NegInt(-5))),
                    (s("ratio"), ConfigValue::Number(ConfigNumber::Float("0.5".to_string()))),
                    (s("on"), ConfigValue::Bool(true)),
                    (s("off"), ConfigValue::Bool(false)),
                    (s("nothing"), ConfigValue::Null),
                    (s("list"), ConfigValue::Sequence(vec![s("a")])),
                ]),
            )]))),
        ),
        (ConfigValue::Number(ConfigNumber::PosInt(1)), s("numeric key")),
        (s(""), s("empty key")),
    ])
}

#[test]
fn strings_by_dotted_path() {
    let c = config(sample());
    assert_eq!(c.get_string("http_web_addr").as_deref(), Some("0.0.0.0:8080"));
    assert_eq!(c.get_string("database.url").as_deref(), Some("data.db"));
    assert_eq!(c.get_string("database.pool").as_deref(), Some("8"));
    assert_eq!(c.get_string("user.token.salt").as_deref(), Some("pepper"));
    assert_eq!(c.get_string("user.token.big").as_deref(), Some("18446744073709551615"));
    assert_eq!(c.get_string("user.token.neg").as_deref(), Some("-5"));
    assert_eq!(c.get_string("user.token.ratio").as_deref(), Some("0.5"));
    assert_eq!(c.get_string("user.token.on").as_deref(), Some("true"));
    assert_eq!(c.get_string("user.token.off").as_deref(), Some("false"));
    assert_eq!(c.get_string("user.token.nothing"), None);
    assert_eq!(c.get_string("user.token.list"), None);
    assert_eq!(c.get_string("database"), None);
    assert_eq!(c.get_string("database.missing"), None);
    assert_eq!(c.get_string("database.url.more"), None);
    assert_eq!(c.get_string("1"), None);
    assert_eq!(c.get_string("").as_deref(), Some("empty key"));
}

#[test]
fn integers_by_dotted_path() {
    let c = config(sample());
    assert_eq!(c.get_i64("database.pool"), Some(8));
    assert_eq!(c.get_i64("user.token.ttl"), Some(-3600));
    assert_eq!(c.get_i64("user.token.neg"), Some(-5));
    assert_eq!(c.get_i64("user.token.big"), None);
    assert_eq!(c.get_i64("user.token.ratio"), None);
    assert_eq!(c.get_i64("user.token.on"), None);
    assert_eq!(c.get_i64("user.token.salt"), None);
    assert_eq!(c.get_i64("nowhere"), None);
}

#[test]
fn integer_reading_agrees_with_string_reading() {
    let c = config(sample());
    for path in [
        "database.pool", "user.token.ttl", "user.token.neg", "user.token.big", "user.token.on",
        "user.token.salt", "user.token.nothing", "nowhere", "http_web_addr",
    ] {
        let via_string = c.get_string(path).and_then(|t| t.parse::<i64>().ok());
        assert_eq!(c.get_i64(path), via_string, "path {}", path);
    }
}

#[test]
fn raw_data_finds_nodes() {
    let c = config(sample());
    assert!(matches!(c.raw_data("database"), Some(ConfigValue::Mapping(_))));
    assert!(matches!(c.raw_data("user"), Some(ConfigValue::Tagged(_))));
    assert!(c.raw_data("user.token.list.a").is_none());
}

#[test]
fn configuration_from_yaml_text() {
    let text = "http_web_addr: 0.0.0.0:8080\ndatabase:\n  url: data.db\n  pool: 8\n  ratio: 2.0\n  big: 1e300\n  low: -3\n  on: true\nuser: !tagged\n  token:\n    salt: pepper\n";
    let c = load_config(text).expect("a YAML document");
    assert_eq!(c.get_string("http_web_addr").as_deref(), Some("0.0.0.0:8080"));
    assert_eq!(c.get_string("database.url").as_deref(), Some("data.db"));
    assert_eq!(c.get_i64("database.pool"), Some(8));
    assert_eq!(c.get_string("database.ratio").as_deref(), Some("2.0"));
    assert_eq!(c.get_i64("database.ratio"), None);
    assert_eq!(c.get_string("database.big").as_deref(), Some("1e300"));
    assert_eq!(c.get_i64("database.low"), Some(-3));
    assert_eq!(c.get_string("database.on").as_deref(), Some("true"));
    assert_eq!(c.get_string("user.token.salt").as_deref(), Some("pepper"));
    assert_eq!(c.get_string("missing.key"), None);
    assert!(load_config("a: [1, 2").is_none());
}
