//! Behaviour of the configuration store: round trips, the generic
//! accessor, validation, and the read-only guard.

use cloudpub_config::config::ClientConfig;
use cloudpub_config::error::ConfigError;

fn fresh() -> ClientConfig {
    ClientConfig::default()
}

#[test]
fn bootstrap_default_has_valid_agent_id() {
    let c = fresh();
    let id = c.agent_id.clone();
    assert_eq!(id.len(), 36);
    let bytes = id.as_bytes();
    assert_eq!(bytes[8], b'-');
    assert_eq!(bytes[13], b'-');
    assert_eq!(bytes[18], b'-');
    assert_eq!(bytes[23], b'-');
    assert_eq!(c.get("server").unwrap(), "https://cloudpub.ru/");
    assert_eq!(c.get("heartbeat_timeout").unwrap(), "40");
    assert_eq!(c.get("minimize_to_tray_on_close").unwrap(), "true");
    assert!(!c.readonly);
}

#[test]
fn bootstrap_default_document_reloads() {
    let c = fresh();
    let text = c.render();
    let c2 = ClientConfig::parse_config(&text).unwrap();
    assert_eq!(c2.agent_id, c.agent_id);
    assert_eq!(c2.server, c.server);
    assert_eq!(c2.heartbeat_timeout, c.heartbeat_timeout);
    assert!(c2.token == c.token);
    assert_eq!(c2.minimize_to_tray_on_close, Some(true));
}

#[test]
fn round_trip_preserves_every_persisted_field() {
    let mut c = fresh();
    c.set("server", "https://relay.example.net/base").unwrap();
    c.set("token", "secret-token").unwrap();
    c.set("heartbeat_timeout", "90").unwrap();
    c.set("1c_home", "/opt/1C").unwrap();
    c.set("1c_platform", "x32").unwrap();
    c.set("1c_publish_dir", "/srv/pub").unwrap();
    c.set("minecraft_server", "mc.example.net").unwrap();
    c.set("minecraft_java_opts", "-Xmx2G -Xms1G").unwrap();
    c.set("minimize_to_tray_on_close", "false").unwrap();
    c.set("unsafe_tls", "true").unwrap();
    let mut hw = c.clone();
    hw.hwid = Some("machine-17".to_string());
    let text = hw.render();
    let c2 = ClientConfig::parse_config(&text).unwrap();
    assert_eq!(c2.agent_id, hw.agent_id);
    assert_eq!(c2.hwid, hw.hwid);
    assert_eq!(c2.server, hw.server);
    assert!(c2.token == hw.token);
    assert_eq!(c2.heartbeat_timeout, 90);
    assert_eq!(c2.one_c_home, hw.one_c_home);
    assert_eq!(c2.one_c_platform, hw.one_c_platform);
    assert_eq!(c2.one_c_publish_dir, hw.one_c_publish_dir);
    assert_eq!(c2.minecraft_server, hw.minecraft_server);
    assert_eq!(c2.minecraft_java_opts, hw.minecraft_java_opts);
    assert_eq!(c2.minimize_to_tray_on_close, Some(false));
    assert!(c2.transport == hw.transport);
}

#[test]
fn round_trip_preserves_awkward_token_text() {
    let mut c = fresh();
    c.set("token", "a\"b\\c\nd\re = \"none\"").unwrap();
    let text = c.render();
    let c2 = ClientConfig::parse_config(&text).unwrap();
    assert_eq!(c2.get("token").unwrap(), "a\"b\\c\nd\re = \"none\"");
}

#[test]
fn accessor_symmetry_plain_keys() {
    let mut c = fresh();
    for (key, value) in [
        ("token", "tok-1"),
        ("1c_home", "C:\\Program Files\\1cv8\\"),
        ("1c_publish_dir", "pub"),
        ("minecraft_server", "mc.example.net:25565"),
        ("minecraft_java_opts", "-Xmx1G"),
    ] {
        c.set(key, value).unwrap();
        assert_eq!(c.get(key).unwrap(), value);
    }
}

#[test]
fn accessor_symmetry_clearing_optionals() {
    let mut c = fresh();
    c.set("1c_home", "somewhere").unwrap();
    c.set("1c_home", "").unwrap();
    assert_eq!(c.one_c_home, None);
    assert_eq!(c.get("1c_home").unwrap(), "");
    c.set("1c_platform", "x64").unwrap();
    c.set("1c_platform", "").unwrap();
    assert_eq!(c.one_c_platform, None);
    assert_eq!(c.get("1c_platform").unwrap(), "");
}

#[test]
fn accessor_symmetry_typed_keys() {
    let mut c = fresh();
    c.set("heartbeat_timeout", "90").unwrap();
    assert_eq!(c.get("heartbeat_timeout").unwrap(), "90");
    c.set("1c_platform", "x64").unwrap();
    assert_eq!(c.get("1c_platform").unwrap(), "x64");
    c.set("minimize_to_tray_on_close", "false").unwrap();
    assert_eq!(c.get("minimize_to_tray_on_close").unwrap(), "false");
    c.set("unsafe_tls", "false").unwrap();
    assert_eq!(c.get("unsafe_tls").unwrap(), "false");
}

#[test]
fn accessor_symmetry_server_normalizes_and_is_stable() {
    let mut c = fresh();
    c.set("server", "HTTPS://Example.COM/Path").unwrap();
    let got = c.get("server").unwrap();
    // the url crate lowers the scheme and the host: the wrapper did not
    // hand its argument back unchanged
    assert_eq!(got, "https://example.com/Path");
    // the rendered form reparses to itself
    c.set("server", &got).unwrap();
    assert_eq!(c.get("server").unwrap(), got);
}

#[test]
fn unknown_key_fails_without_mutation() {
    let mut c = fresh();
    let before = c.clone();
    let g = c.get("bogus");
    assert!(matches!(g, Err(ConfigError::UnknownKey(ref k)) if k.as_str() == "bogus"));
    let s = c.set("bogus", "x");
    assert!(matches!(s, Err(ConfigError::UnknownKey(ref k)) if k.as_str() == "bogus"));
    assert!(c == before);
}

#[test]
fn validation_fails_exactly_without_token() {
    let mut c = fresh();
    assert!(matches!(c.validate(), Err(ConfigError::AuthMissing)));
    c.set("token", "present").unwrap();
    assert!(c.validate().is_ok());
}

#[test]
fn readonly_guard_save_writes_nothing() {
    let mut c = fresh();
    c.set_location("ignored".to_string(), true);
    assert!(c.save_payload().is_none());
    assert!(c.save_payload().is_none());
    c.set_location("ignored".to_string(), false);
    let p1 = c.save_payload().unwrap();
    let p2 = c.save_payload().unwrap();
    assert_eq!(p1, p2);
    assert_eq!(p1, c.render());
}

#[test]
fn heartbeat_scenario_rejects_garbage_and_keeps_value() {
    let mut c = fresh();
    c.set("heartbeat_timeout", "90").unwrap();
    assert_eq!(c.get("heartbeat_timeout").unwrap(), "90");
    let r = c.set("heartbeat_timeout", "abc");
    assert!(matches!(r, Err(ConfigError::Parse(_))));
    assert_eq!(c.get("heartbeat_timeout").unwrap(), "90");
}

#[test]
fn heartbeat_bounds() {
    let mut c = fresh();
    c.set("heartbeat_timeout", "18446744073709551615").unwrap();
    assert_eq!(c.heartbeat_timeout, u64::MAX);
    assert_eq!(c.get("heartbeat_timeout").unwrap(), "18446744073709551615");
    let r = c.set("heartbeat_timeout", "18446744073709551616");
    assert!(matches!(r, Err(ConfigError::Parse(_))));
    assert_eq!(c.heartbeat_timeout, u64::MAX);
    c.set("heartbeat_timeout", "0").unwrap();
    assert_eq!(c.get("heartbeat_timeout").unwrap(), "0");
}

#[test]
fn unsafe_tls_scenario_creates_tls_section() {
    let mut c = fresh();
    assert!(c.transport.tls.is_none());
    assert_eq!(c.get("unsafe_tls").unwrap(), "");
    c.set("unsafe_tls", "true").unwrap();
    let tls = c.transport.tls.clone().unwrap();
    assert_eq!(tls.danger_ignore_certificate_verification, Some(true));
    assert_eq!(c.get("unsafe_tls").unwrap(), "true");
    let r = c.set("unsafe_tls", "maybe");
    assert!(matches!(r, Err(ConfigError::Parse(_))));
    assert_eq!(c.get("unsafe_tls").unwrap(), "true");
}

#[test]
fn invalid_server_url_rejected() {
    let mut c = fresh();
    let before = c.server.clone();
    let r = c.set("server", "not a url at all");
    assert!(matches!(r, Err(ConfigError::Parse(_))));
    assert_eq!(c.server, before);
}

#[test]
fn parse_rejects_malformed_documents() {
    assert!(matches!(
        ClientConfig::parse_config(""),
        Err(ConfigError::Parse(_))
    ));
    assert!(matches!(
        ClientConfig::parse_config("agent_id = \"x\"\n"),
        Err(ConfigError::Parse(_))
    ));
    let good = ClientConfig::default().render();
    let trailing = format!("{}extra\n", good);
    assert!(matches!(
        ClientConfig::parse_config(&trailing),
        Err(ConfigError::Parse(_))
    ));
}

#[test]
fn parse_rejects_invalid_server_in_document() {
    let mut c = ClientConfig::default();
    c.server = "%%not-a-url%%".to_string();
    let text = c.render();
    assert!(matches!(
        ClientConfig::parse_config(&text),
        Err(ConfigError::Parse(_))
    ));
}

#[test]
fn config_dir_paths() {
    let root = "/home/u/.config".to_string();
    let p = ClientConfig::get_config_dir(Some(&root), true, true).unwrap();
    assert_eq!(p, "/home/u/.config/cloudpub");
    let wroot = "C:\\Users\\u\\AppData\\Roaming".to_string();
    let p = ClientConfig::get_config_dir(Some(&wroot), true, false).unwrap();
    assert_eq!(p, "C:\\Users\\u\\AppData\\Roaming\\cloudpub");
    let p = ClientConfig::get_config_dir(None, false, true).unwrap();
    assert_eq!(p, "./etc/cloudpub");
    let p = ClientConfig::get_config_dir(None, false, false).unwrap();
    assert_eq!(
        p,
        "C:\\Windows\\system32\\config\\systemprofile\\AppData\\Local\\cloudpub"
    );
    let r = ClientConfig::get_config_dir(None, true, true);
    assert!(matches!(r, Err(ConfigError::Io(_))));
}

#[test]
fn config_path_location_attributes() {
    let mut c = ClientConfig::default();
    assert_eq!(c.get_config_path().as_str(), "");
    c.set_location("/tmp/cfg.txt".to_string(), true);
    assert_eq!(c.get_config_path().as_str(), "/tmp/cfg.txt");
    assert!(c.readonly);
}

#[test]
fn error_messages_name_their_cause() {
    assert_eq!(
        ConfigError::UnknownKey("bogus".to_string()).message(),
        "Unknown key: bogus"
    );
    assert_eq!(
        ConfigError::AuthMissing.message(),
        "Authentication token is missing"
    );
    assert_eq!(
        ConfigError::UnsupportedPlatform.message(),
        "Unsupported platform"
    );
    assert_eq!(ConfigError::Io("x".to_string()).message(), "I/O error: x");
    assert_eq!(
        ConfigError::Parse("y".to_string()).message(),
        "Parse error: y"
    );
}
