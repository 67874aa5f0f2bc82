use chatserver::api::ApiConfig;
use chatserver::config::{Config, ConfigSection, ConfigValue};
use chatserver::error::Error;
use chatserver::logger::LogLevel;
use chatserver::utils::connection_string::ConnectionString;
use chatserver::utils::decimal::decimal_string;

fn section(entries: Vec<(&str, ConfigValue)>) -> ConfigSection {
    let mut s = ConfigSection::new();
    for (k, v) in entries {
        s.insert(k, v);
    }
    s
}

fn text(s: &str) -> ConfigValue {
    ConfigValue::Text(s.to_string())
}

fn config_with(name: &str, s: ConfigSection) -> Config {
    let mut c = Config::new();
    c.insert(name, s);
    c
}

#[test]
fn test_get_level() {
    let level = Config::get_level(&section(vec![("level", text("trace"))])).unwrap();
    assert_eq!(level, LogLevel::Trace);

    let level = Config::get_level(&section(vec![("level", text("debug"))])).unwrap();
    assert_eq!(level, LogLevel::Debug);

    let level = Config::get_level(&section(vec![("level", text("info"))])).unwrap();
    assert_eq!(level, LogLevel::Info);

    let level = Config::get_level(&section(vec![("level", text("warn"))])).unwrap();
    assert_eq!(level, LogLevel::Warn);

    let level = Config::get_level(&section(vec![("level", text("error"))])).unwrap();
    assert_eq!(level, LogLevel::Error);

    let level = Config::get_level(&section(vec![("level", text("off"))])).unwrap();
    assert_eq!(level, LogLevel::Off);

    let level = Config::get_level(&section(vec![("level", text("invalid"))]));
    assert!(level.is_err());

    let level = Config::get_level(&section(vec![]));
    assert!(level.is_err());
}

#[test]
fn level_errors_name_their_cause() {
    assert_eq!(
        Config::get_level(&section(vec![("level", text("loud"))])),
        Err(Error::Configuration("Invalid log level".to_string()))
    );
    assert_eq!(
        Config::get_level(&section(vec![("level", ConfigValue::Unsigned(3))])),
        Err(Error::Configuration("No log level".to_string()))
    );
}

#[test]
fn logger_reads_logger_section() {
    let c = config_with("logger", section(vec![("level", text("warn"))]));
    assert_eq!(c.logger().unwrap().level, LogLevel::Warn);
    assert_eq!(
        Config::new().logger(),
        Err(Error::Configuration("No log level".to_string()))
    );
}

#[test]
fn api_requires_address() {
    let c = config_with("api", section(vec![("address", text("127.0.0.1:8080"))]));
    let api: ApiConfig = c.api().unwrap();
    assert_eq!(api.address, "127.0.0.1:8080");
    let missing = config_with("api", section(vec![("address", ConfigValue::Other)]));
    assert_eq!(
        missing.api().unwrap_err(),
        Error::Configuration("No address specified in api config".to_string())
    );
}

#[test]
fn lookup_takes_first_entry() {
    let s = section(vec![("level", text("info")), ("level", text("off"))]);
    assert_eq!(s.get_text("level"), Some("info".to_string()));
    assert_eq!(s.get("other"), None);
}

#[test]
fn db_requires_user_then_host() {
    let none = Config::new();
    assert_eq!(
        none.db().unwrap_err(),
        Error::Configuration("No user specified in db config".to_string())
    );
    let no_host = config_with("db", section(vec![("user", text("alice"))]));
    assert_eq!(
        no_host.db().unwrap_err(),
        Error::Configuration("No host specified in db config".to_string())
    );
    let no_user = config_with("db", section(vec![("host", text("db.local"))]));
    assert_eq!(
        no_user.db().unwrap_err(),
        Error::Configuration("No user specified in db config".to_string())
    );
    let user_not_text = config_with(
        "db",
        section(vec![("user", ConfigValue::Unsigned(1)), ("host", text("h"))]),
    );
    assert_eq!(
        user_not_text.db().unwrap_err(),
        Error::Configuration("No user specified in db config".to_string())
    );
}

#[test]
fn db_renders_minimal_descriptor() {
    let c = config_with("db", section(vec![("host", text("db.local")), ("user", text("alice"))]));
    let cs = c.db().unwrap();
    assert_eq!(cs.as_string(), "user=alice host=db.local");
}

#[test]
fn db_renders_fields_in_fixed_order() {
    let c = config_with(
        "db",
        section(vec![
            ("channel_binding", text("prefer")),
            ("port", ConfigValue::Unsigned(5432)),
            ("dbname", text("chat")),
            ("user", text("alice")),
            ("password", text("SECRET-REDACTED")),
            ("host", text("db.local")),
            ("sslmode", text("disable")),
            ("keepalives", ConfigValue::Other),
        ]),
    );
    let cs = c.db().unwrap();
    assert_eq!(
        cs.as_string(),
        "user=alice host=db.local password=SECRET-REDACTED dbname=chat sslmode=disable port=5432 channel_binding=prefer"
    );
    assert_eq!(cs.as_string(), c.db().unwrap().as_string());
}

#[test]
fn db_port_must_be_a_port_number() {
    let base = |port: ConfigValue| {
        config_with(
            "db",
            section(vec![("user", text("u")), ("host", text("h")), ("port", port)]),
        )
        .db()
        .unwrap()
        .port
    };
    assert_eq!(base(ConfigValue::Unsigned(65535)), Some("65535".to_string()));
    assert_eq!(base(ConfigValue::Unsigned(0)), Some("0".to_string()));
    assert_eq!(base(ConfigValue::Unsigned(65536)), None);
    assert_eq!(base(text("5432")), None);
    assert_eq!(base(ConfigValue::Other), None);
}

#[test]
fn default_descriptor_is_local_superuser() {
    let cs = ConnectionString::default();
    assert_eq!(cs.as_string(), "user=postgres host=localhost");
}

#[test]
fn every_optional_field_renders() {
    let mut cs = ConnectionString::default();
    cs.password = Some("p".to_string());
    cs.dbname = Some("d".to_string());
    cs.options = Some("o".to_string());
    cs.application_name = Some("a".to_string());
    cs.sslmode = Some("s".to_string());
    cs.port = Some("1".to_string());
    cs.connect_timeout = Some("2".to_string());
    cs.keepalives = Some("3".to_string());
    cs.keepalives_idle = Some("4".to_string());
    cs.target_session_attrs = Some("t".to_string());
    cs.channel_binding = Some("c".to_string());
    assert_eq!(
        cs.as_string(),
        "user=postgres host=localhost password=p dbname=d options=o application_name=a sslmode=s port=1 connect_timeout=2 keepalives=3 keepalives_idle=4 target_session_attrs=t channel_binding=c"
    );
}

#[test]
fn decimal_rendering() {
    assert_eq!(decimal_string(0), "0");
    assert_eq!(decimal_string(7), "7");
    assert_eq!(decimal_string(10), "10");
    assert_eq!(decimal_string(5432), "5432");
    assert_eq!(decimal_string(u64::MAX), "18446744073709551615");
}
