use json_config::error::describe;
use json_config::ConfigError;

#[test]
fn read_error_names_path_and_cause() {
    let error = ConfigError::ReadError {
        path: String::from("/etc/app/config.json"),
        cause: String::from("Permission denied (os error 13)"),
    };
    assert_eq!(
        error.message(),
        "Failed to read config from \"/etc/app/config.json\": Permission denied (os error 13)"
    );
}

#[test]
fn parse_error_names_path_and_cause() {
    let error = ConfigError::ParseError {
        path: String::from("/etc/app/config.json"),
        cause: String::from("expected value at line 1 column 1"),
    };
    assert_eq!(
        error.message(),
        "Failed to parse config from \"/etc/app/config.json\": expected value at line 1 column 1"
    );
}

#[test]
fn directory_error_names_directory_and_cause() {
    let error = ConfigError::DirectoryError {
        path: String::from("/etc/app"),
        cause: String::from("Read-only file system (os error 30)"),
    };
    assert_eq!(
        error.message(),
        "Failed to create config directory \"/etc/app\": Read-only file system (os error 30)"
    );
}

#[test]
fn serialize_error_names_cause() {
    let error = ConfigError::SerializeError { cause: String::from("key must be a string") };
    assert_eq!(error.message(), "Failed to serialize config: key must be a string");
}

#[test]
fn write_error_names_path_and_cause() {
    let error = ConfigError::WriteError {
        path: String::from("/etc/app/config.json"),
        cause: String::from("No space left on device (os error 28)"),
    };
    assert_eq!(
        error.message(),
        "Failed to write config to \"/etc/app/config.json\": No space left on device (os error 28)"
    );
}

#[test]
fn home_dir_error_has_a_fixed_message() {
    assert_eq!(ConfigError::HomeDirError.message(), "Failed to get home directory");
}

#[test]
fn message_shows_the_path_quoted_and_escaped() {
    let error = ConfigError::ReadError {
        path: String::from("/tmp/odd \"name\".json"),
        cause: String::from("gone"),
    };
    assert_eq!(
        error.message(),
        "Failed to read config from \"/tmp/odd \\\"name\\\".json\": gone"
    );
    let expected = format!(
        "Failed to read config from {:?}: gone",
        std::path::Path::new("/tmp/odd \"name\".json")
    );
    assert_eq!(error.message(), expected);
}

#[test]
fn describe_joins_its_parts() {
    assert_eq!(describe("Failed at ", "\"x\"", "why"), "Failed at \"x\": why");
    assert_eq!(describe("", "", ""), ": ");
}

#[test]
fn errors_of_different_kinds_differ() {
    let read = ConfigError::ReadError { path: String::from("p"), cause: String::from("c") };
    let parse = ConfigError::ParseError { path: String::from("p"), cause: String::from("c") };
    assert_ne!(read, parse);
    assert_ne!(read.message(), parse.message());
}
