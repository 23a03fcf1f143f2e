use open_cloud_luau_execute::{Config, Theme};

#[test]
fn default_config_is_empty() {
    let config = Config::default();
    assert_eq!(config.theme(), Theme::Default);
    assert_eq!(config.place_id(), "");
    assert_eq!(config.universe_id(), "");
    assert_eq!(config.version_number(), "");
}

#[test]
fn update_replaces_only_given_settings() {
    let mut config = Config::new(
        Theme::Light,
        "1".to_string(),
        "2".to_string(),
        "3".to_string(),
    );
    config.update(Some(Theme::Hotdog), None, Some("20".to_string()), None);
    assert_eq!(config.theme(), Theme::Hotdog);
    assert_eq!(config.place_id(), "1");
    assert_eq!(config.universe_id(), "20");
    assert_eq!(config.version_number(), "3");
    config.update(None, Some("10".to_string()), None, Some(String::new()));
    assert_eq!(config.theme(), Theme::Hotdog);
    assert_eq!(config.place_id(), "10");
    assert_eq!(config.version_number(), "");
}
