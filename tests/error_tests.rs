use chatserver::error::{handle_error, Error};

#[test]
fn describe_labels_each_kind() {
    assert_eq!(Error::Io("pipe".to_string()).describe(), "IO error: pipe");
    assert_eq!(Error::Db("gone".to_string()).describe(), "Database error: gone");
    assert_eq!(Error::Configuration("x".to_string()).describe(), "Config error: x");
    assert_eq!(Error::Server("s".to_string()).describe(), "Server error: s");
    assert_eq!(Error::Unspecified("u".to_string()).describe(), "Unspecified error: u");
}

#[test]
fn cause_is_the_carried_text() {
    assert_eq!(Error::Db("gone".to_string()).cause(), "gone");
}

#[test]
fn handle_error_message() {
    assert_eq!(
        handle_error(&Error::Db("gone".to_string())),
        "Caught error: Database error: gone"
    );
}
