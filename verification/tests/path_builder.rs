use json_config::{ConfigError, ConfigPathBuilder};
use std::path::{Path, PathBuf};

#[test]
fn test_config_path_builder() {
    let builder = ConfigPathBuilder::new(String::from("/test/dir"));
    let path = PathBuf::from(builder.build("config.json"));

    if std::path::MAIN_SEPARATOR == '\\' {
        assert_eq!(path, PathBuf::from("\\test\\dir\\config.json"));
    } else {
        assert_eq!(path, PathBuf::from("/test/dir/config.json"));
    }
}

#[test]
fn build_puts_one_separator_between_base_and_name() {
    let builder = ConfigPathBuilder::new(String::from("/test/dir"));
    let expected = format!("/test/dir{}config.json", std::path::MAIN_SEPARATOR);
    assert_eq!(builder.build("config.json"), expected);
}

#[test]
fn build_agrees_with_the_platform() {
    let bases = ["/test/dir", "/test/dir/", "relative", "", "/"];
    let names = ["config.json", "sub/config.json", "/etc/config.json", ""];
    for base in bases {
        let builder = ConfigPathBuilder::new(String::from(base));
        for name in names {
            let built = builder.build(name);
            assert_eq!(PathBuf::from(&built), Path::new(base).join(name));
            assert_eq!(Some(built.as_str()), Path::new(base).join(name).to_str());
        }
    }
}

#[test]
fn build_keeps_the_base_directory() {
    let builder = ConfigPathBuilder::new(String::from("/srv/app"));
    let first = builder.build("a.json");
    let second = builder.build("b.json");
    assert_eq!(PathBuf::from(first), PathBuf::from("/srv/app/a.json"));
    assert_eq!(PathBuf::from(second), PathBuf::from("/srv/app/b.json"));
}

#[test]
fn build_does_not_hand_the_name_back() {
    let builder = ConfigPathBuilder::new(String::from("/test/dir"));
    assert_ne!(builder.build("config.json"), "config.json");
    assert_ne!(builder.build("config.json"), "/test/dir");
}

#[test]
fn with_home_joins_the_subdirectory() {
    let builder = ConfigPathBuilder::with_home(Some(String::from("/home/alice")), ".myapp");
    let builder = builder.unwrap();
    let path = PathBuf::from(builder.build("settings.json"));
    assert_eq!(path, PathBuf::from("/home/alice/.myapp/settings.json"));
}

#[test]
fn with_home_fails_without_a_home() {
    let result = ConfigPathBuilder::with_home(None, ".myapp");
    match result {
        Err(error) => {
            assert_eq!(error, ConfigError::HomeDirError);
            assert_eq!(error.message(), "Failed to get home directory");
        }
        Ok(_) => panic!("a builder was made without a home directory"),
    }
}

#[test]
fn from_home_subdir_builds_below_the_resolved_home() {
    let home = dirs::home_dir().and_then(|home| home.into_os_string().into_string().ok());
    let result = ConfigPathBuilder::from_home_subdir(".myapp");
    match home {
        Some(home) => {
            let path = PathBuf::from(result.unwrap().build("settings.json"));
            assert_eq!(path, Path::new(&home).join(".myapp").join("settings.json"));
        }
        None => match result {
            Err(error) => assert_eq!(error, ConfigError::HomeDirError),
            Ok(_) => panic!("a builder was made without a home directory"),
        },
    }
}
