use backend::config::{default_listen_addr, default_static_file_directory, Config};

#[test]
fn defaults() {
    assert_eq!(default_listen_addr(), "0.0.0.0:3000");
    assert_eq!(default_static_file_directory(), "../frontend/dist");
}

#[test]
fn missing_settings_take_defaults() {
    let c = Config::from_settings(None, None);
    assert_eq!(c.listen_addr, "0.0.0.0:3000");
    assert_eq!(c.static_file_directory, "../frontend/dist");
}

#[test]
fn given_settings_are_kept() {
    let c = Config::from_settings(Some("127.0.0.1:8080".to_string()), Some("dist".to_string()));
    assert_eq!(c.listen_addr, "127.0.0.1:8080");
    assert_eq!(c.static_file_directory, "dist");
}
