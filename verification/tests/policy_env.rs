//! Behaviour of the retry policy, the platform table, the platform enum,
//! and the masked secret.

use cloudpub_config::constants::DEFAULT_CLIENT_RETRY_INTERVAL_SECS;
use cloudpub_config::env::EnvConfig;
use cloudpub_config::env::OsFamily;
use cloudpub_config::error::ConfigError;
use cloudpub_config::masked::MaskedString;
use cloudpub_config::platform::Platform;
use cloudpub_config::retry::listen_backoff;
use cloudpub_config::retry::run_control_chan_backoff;

#[test]
fn platform_round_trip() {
    assert_eq!(Platform::from_str("x64").unwrap(), Platform::X64);
    assert_eq!(Platform::from_str("x32").unwrap(), Platform::X32);
    assert_eq!(Platform::X64.as_str(), "x64");
    assert_eq!(Platform::X32.as_str(), "x32");
    for bad in ["", "x86", "X64", "x640", " x64"] {
        assert!(matches!(
            Platform::from_str(bad),
            Err(ConfigError::Parse(_))
        ));
    }
}

#[test]
fn environment_table_entries() {
    let e = EnvConfig::environment_for(OsFamily::Linux, Platform::X64).unwrap();
    assert_eq!(e.home_1c, "/opt/1C");
    assert_eq!(e.redist, None);
    assert_eq!(e.httpd, "httpd-2.4.62-linux.zip");
    assert_eq!(e.httpd_dir, "httpd-x64");
    let e = EnvConfig::environment_for(OsFamily::Windows, Platform::X32).unwrap();
    assert_eq!(e.home_1c, "C:\\Program Files (x86)\\1cv8");
    assert_eq!(e.redist, Some("vc_redist.x86.exe".to_string()));
    assert_eq!(e.httpd, "httpd-2.4.61-240703-win32-vs17.zip");
    assert_eq!(e.httpd_dir, "httpd-x32");
    let e = EnvConfig::environment_for(OsFamily::MacOs, Platform::X64).unwrap();
    assert_eq!(e.home_1c, "/Applications/1C");
}

#[test]
fn environment_unsupported_is_recoverable() {
    assert!(matches!(
        EnvConfig::environment_for(OsFamily::Linux, Platform::X32),
        Err(ConfigError::UnsupportedPlatform)
    ));
    assert!(matches!(
        EnvConfig::environment_for(OsFamily::MacOs, Platform::X32),
        Err(ConfigError::UnsupportedPlatform)
    ));
}

#[test]
fn environment_native_selects_by_pointer_width() {
    let e = EnvConfig::native(OsFamily::Windows, true).unwrap();
    assert_eq!(e.httpd_dir, "httpd-x64");
    let e = EnvConfig::native(OsFamily::Windows, false).unwrap();
    assert_eq!(e.httpd_dir, "httpd-x32");
}

#[test]
fn control_chan_backoff_delays_stay_in_band() {
    let mut p = run_control_chan_backoff(DEFAULT_CLIENT_RETRY_INTERVAL_SECS);
    let max_ms = 60_000u64;
    let bound = max_ms + max_ms / 5;
    let mut prev_center_hit_max = false;
    for _ in 0..50 {
        let before = p.current_ms;
        let d = p.next_delay();
        assert!(d <= bound, "delay {} exceeds the jitter bound {}", d, bound);
        let jitter = before / 5;
        assert!(d >= before - jitter && d <= before + jitter);
        // the center never decreases, and sticks at the ceiling
        assert!(p.current_ms >= before);
        if prev_center_hit_max {
            assert_eq!(p.current_ms, max_ms);
        }
        if p.current_ms == max_ms {
            prev_center_hit_max = true;
        }
    }
    assert!(prev_center_hit_max);
}

#[test]
fn control_chan_backoff_grows_by_three() {
    let mut p = run_control_chan_backoff(1_000_000);
    assert_eq!(p.current_ms, 500);
    p.next_delay();
    assert_eq!(p.current_ms, 1500);
    p.next_delay();
    assert_eq!(p.current_ms, 4500);
}

#[test]
fn listen_backoff_caps_at_one_second() {
    let mut p = listen_backoff();
    for _ in 0..20 {
        let d = p.next_delay();
        assert!(d <= 1000 + 1000 / 2);
        assert!(p.current_ms <= 1000);
    }
    assert_eq!(p.current_ms, 1000);
}

#[test]
fn tiny_control_chan_ceiling_clamps_the_start() {
    let mut p = run_control_chan_backoff(0);
    assert_eq!(p.current_ms, 0);
    assert_eq!(p.next_delay(), 0);
}

#[test]
fn masked_secret_renders_only_the_mask() {
    let m = MaskedString::from_str("hunter2");
    assert_eq!(m.masked(), "********");
    assert_eq!(m.plaintext(), "hunter2");
    let m2 = MaskedString::new("hunter2".to_string());
    assert!(m == m2);
}
