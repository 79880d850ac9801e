use azrath::config::{ConfigValues, ServerConfig};
use std::time::Duration;

fn empty_values() -> ConfigValues {
    ConfigValues {
        max_workers: None,
        worker_keep_alive_secs: None,
        host: None,
        port: None,
        http1_keep_alive: None,
        http1_half_close: None,
        http1_max_buf_size: None,
        http1_pipeline_flush: None,
        http1_writev: None,
        http1_title_case_headers: None,
        http1_preserve_header_case: None,
        http1_only: None,
        http2_only: None,
        http2_initial_stream_window_size: None,
        http2_initial_connection_window_size: None,
        http2_adaptive_window: None,
        http2_max_frame_size: None,
        http2_max_concurrent_streams: None,
        http2_max_send_buf_size: None,
    }
}

#[test]
fn test_default_config() {
    let config = ServerConfig::default();
    assert_eq!(config.max_workers, num_cpus::get() * 15);
    assert_eq!(config.port, 8080);
    assert_eq!(config.host, "0.0.0.0");
}

#[test]
fn test_http2_config() {
    let config = ServerConfig::default();
    assert_eq!(config.http2_max_send_buf_size, 524288);
    assert!(!config.http2_only);
}

#[test]
fn default_config_other_fields() {
    let config = ServerConfig::default();
    assert_eq!(config.worker_keep_alive_secs, 10);
    assert!(config.http1_keep_alive);
    assert!(!config.http1_half_close);
    assert_eq!(config.http1_max_buf_size, 524_288);
    assert!(config.http1_writev);
    assert!(config.http2_adaptive_window);
    assert_eq!(config.http2_max_frame_size, None);
}

#[test]
fn from_values_applies_defaults() {
    let mut values = empty_values();
    values.http2_adaptive_window = Some(false);
    values.http2_max_send_buf_size = Some(65_536);
    let config = ServerConfig::from_values(values);
    assert_eq!(config.max_workers, num_cpus::get() * 15);
    assert_eq!(config.worker_keep_alive_secs, 6);
    assert_eq!(config.host, "127.0.0.1");
    assert_eq!(config.port, 3000);
    assert_eq!(config.http1_max_buf_size, 524_288);
    assert!(config.http1_keep_alive);
    assert!(!config.http1_writev);
    assert!(!config.http2_adaptive_window);
    assert_eq!(config.http2_max_send_buf_size, 65_536);
    assert_eq!(config.http2_initial_stream_window_size, None);
}

#[test]
fn from_values_keeps_given_values() {
    let mut values = empty_values();
    values.port = Some(9000);
    values.host = Some("127.0.0.1".to_string());
    values.max_workers = Some(4);
    values.http1_keep_alive = Some(false);
    values.http2_max_frame_size = Some(16_384);
    let config = ServerConfig::from_values(values);
    assert_eq!(config.port, 9000);
    assert_eq!(config.host, "127.0.0.1");
    assert_eq!(config.max_workers, 4);
    assert!(!config.http1_keep_alive);
    assert_eq!(config.http2_max_frame_size, Some(16_384));
}

#[test]
fn from_values_with_nothing_set_uses_every_default() {
    let config = ServerConfig::from_values(empty_values());
    assert_eq!(config.port, 3000);
    assert_eq!(config.host, "127.0.0.1");
    assert_eq!(config.max_workers, num_cpus::get() * 15);
    assert_eq!(config.worker_keep_alive_secs, 6);
    assert!(config.http1_keep_alive);
    assert!(!config.http1_half_close);
    assert_eq!(config.http1_max_buf_size, 524_288);
    assert!(!config.http1_pipeline_flush);
    assert!(!config.http1_only);
    assert!(!config.http2_only);
    assert!(config.http2_adaptive_window);
    assert_eq!(config.http2_max_send_buf_size, 524_288);
    assert_eq!(config.http2_initial_connection_window_size, None);
    assert_eq!(config.http2_max_concurrent_streams, None);
}

#[test]
fn worker_keep_alive_is_in_seconds() {
    let config = ServerConfig::default();
    assert_eq!(config.worker_keep_alive(), Duration::from_secs(10));
}

#[test]
fn bind_address_formats_host_and_port() {
    let mut config = ServerConfig::default();
    assert_eq!(config.bind_address(), "0.0.0.0:8080");
    config.host = "127.0.0.1".to_string();
    config.port = 0;
    assert_eq!(config.bind_address(), "127.0.0.1:0");
    config.port = 65535;
    assert_eq!(config.bind_address(), "127.0.0.1:65535");
    config.port = 3000;
    assert_eq!(config.bind_address(), "127.0.0.1:3000");
}

#[test]
fn default_helpers() {
    assert_eq!(azrath::config::default_keep_alive_secs(), 6);
    assert_eq!(azrath::config::default_host(), "127.0.0.1");
    assert_eq!(azrath::config::default_port(), 3000);
    assert_eq!(azrath::config::default_max_buf_size(), 524_288);
    assert_eq!(azrath::config::default_max_workers(), num_cpus::get() * 15);
}
