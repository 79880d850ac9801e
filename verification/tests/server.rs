use azrath::builder::HttpBuilder;
use azrath::server::{serve_step, AcceptOutcome, ServeStep};
use hyper::server::conn::Http;
use azrath::{Server, ServerConfig};
use std::time::Duration;

#[test]
fn test_server_builder_configuration() {
    let server = Server::with_listener("127.0.0.1:0")
        .max_workers(30)
        .worker_keep_alive(Duration::from_secs(10))
        .http1_keep_alive(true)
        .http1_half_close(false)
        .http1_max_buf_size(524288)
        .http1_pipeline_flush(false)
        .http1_writev(true)
        .http1_title_case_headers(false)
        .http1_preserve_header_case(false)
        .http1_only(false);

    assert_eq!(server.max_workers, Some(30));
    assert_eq!(server.worker_keep_alive, Some(Duration::from_secs(10)));
    assert_eq!(server.http1_keep_alive, Some(true));
    assert_eq!(server.http1_half_close, Some(false));
    assert_eq!(server.http1_max_buf_size, Some(524288));
    assert_eq!(server.http1_pipeline_flush, Some(false));
    assert_eq!(server.http1_writev, Some(true));
    assert_eq!(server.http1_title_case_headers, Some(false));
    assert_eq!(server.http1_preserve_header_case, Some(false));
    assert_eq!(server.http1_only, Some(false));
}

#[test]
fn test_http2_configuration() {
    let server = Server::with_listener("127.0.0.1:0")
        .http2_only(false)
        .http2_initial_stream_window_size(Some(65535))
        .http2_initial_connection_window_size(Some(1048576))
        .http2_adaptive_window(true)
        .http2_max_frame_size(Some(16384))
        .http2_max_concurrent_streams(Some(100))
        .http2_max_send_buf_size(524288);

    assert_eq!(server.http2_only, Some(false));
    assert_eq!(server.http2_initial_stream_window_size, Some(65535));
    assert_eq!(server.http2_initial_connection_window_size, Some(1048576));
    assert_eq!(server.http2_adaptive_window, Some(true));
    assert_eq!(server.http2_max_frame_size, Some(16384));
    assert_eq!(server.http2_max_concurrent_streams, Some(100));
    assert_eq!(server.http2_max_send_buf_size, Some(524288));
}

#[test]
fn server_with_config_takes_its_settings() {
    let mut config = ServerConfig::default();
    config.max_workers = 30;
    config.worker_keep_alive_secs = 10;
    config.http1_max_buf_size = 524288;
    let server = Server::with_config("127.0.0.1:3000", &config);
    assert_eq!(server.listener, Some("127.0.0.1:3000"));
    assert_eq!(server.max_workers, Some(30));
    assert_eq!(server.worker_keep_alive, Some(Duration::from_secs(10)));
    assert_eq!(server.http1_keep_alive, Some(true));
    assert_eq!(server.http1_half_close, Some(false));
    assert_eq!(server.http1_max_buf_size, Some(524288));
    assert_eq!(server.http2_max_send_buf_size, Some(524288));
    assert_eq!(server.http2_only, Some(false));
    assert_eq!(server.http1_writev, None);
    assert_eq!(server.http2_max_frame_size, None);
}

#[test]
fn default_server_has_no_settings() {
    let server: Server<()> = Server::default();
    assert!(server.listener.is_none());
    assert_eq!(server.max_workers, None);
    assert_eq!(server.http2_only, None);
    let server = Server::with_listener(7u8).http2_max_frame_size(Some(1)).http2_max_frame_size(None);
    assert_eq!(server.listener, Some(7));
    assert_eq!(server.http2_max_frame_size, Some(1));
}

#[test]
fn http2_none_leaves_settings_as_they_were() {
    let server = Server::with_listener(())
        .http2_initial_stream_window_size(Some(65535))
        .http2_initial_connection_window_size(Some(1048576))
        .http2_max_frame_size(Some(16384))
        .http2_max_concurrent_streams(Some(100))
        .http2_initial_stream_window_size(None)
        .http2_initial_connection_window_size(None)
        .http2_max_frame_size(None)
        .http2_max_concurrent_streams(None);
    assert_eq!(server.http2_initial_stream_window_size, Some(65535));
    assert_eq!(server.http2_initial_connection_window_size, Some(1048576));
    assert_eq!(server.http2_max_frame_size, Some(16384));
    assert_eq!(server.http2_max_concurrent_streams, Some(100));
    let unset: Server<()> = Server::default().http2_max_frame_size(None);
    assert_eq!(unset.http2_max_frame_size, None);
}

fn configured(server: &Server<()>) -> String {
    let mut builder = HttpBuilder::new(Http::new());
    server.configure(&mut builder);
    format!("{:?}", builder.into_inner())
}

#[test]
fn configure_hands_settings_to_hyper() {
    let server = Server::with_listener(())
        .http1_keep_alive(false)
        .http1_max_buf_size(16384)
        .http2_max_send_buf_size(65536)
        .http2_initial_stream_window_size(Some(65535));
    let mut expected = Http::new();
    expected.http1_keep_alive(false);
    expected.http2_initial_stream_window_size(65535);
    expected.http2_max_send_buf_size(65536);
    expected.max_buf_size(16384);
    assert_eq!(configured(&server), format!("{:?}", expected));
    assert_ne!(configured(&server), format!("{:?}", Http::new()));
}

#[test]
fn configure_hands_over_only_what_was_set() {
    let server = Server::with_listener(())
        .http1_max_buf_size(65536)
        .http1_pipeline_flush(true)
        .http1_keep_alive(false)
        .max_workers(4)
        .worker_keep_alive(Duration::from_secs(1));
    let mut expected = Http::new();
    expected.http1_keep_alive(false);
    expected.max_buf_size(65536);
    expected.pipeline_flush(true);
    assert_eq!(configured(&server), format!("{:?}", expected));
    let idle: Server<()> = Server::default().max_workers(4).worker_keep_alive(Duration::from_secs(1));
    assert_eq!(configured(&idle), format!("{:?}", Http::new()));
}

#[test]
fn configure_with_every_setting() {
    let server = Server::with_listener(())
        .http1_pipeline_flush(true)
        .http1_max_buf_size(8192)
        .http2_max_send_buf_size(1)
        .http2_max_concurrent_streams(Some(7))
        .http2_max_frame_size(Some(16384))
        .http2_adaptive_window(false)
        .http2_initial_connection_window_size(Some(2))
        .http2_initial_stream_window_size(Some(3))
        .http2_only(false)
        .http1_only(true)
        .http1_preserve_header_case(true)
        .http1_title_case_headers(true)
        .http1_writev(false)
        .http1_half_close(true)
        .http1_keep_alive(false);
    let mut expected = Http::new();
    expected.http1_keep_alive(false);
    expected.http1_half_close(true);
    expected.http1_writev(false);
    expected.http1_title_case_headers(true);
    expected.http1_preserve_header_case(true);
    expected.http1_only(true);
    expected.http2_only(false);
    expected.http2_initial_stream_window_size(3);
    expected.http2_initial_connection_window_size(2);
    expected.http2_adaptive_window(false);
    expected.http2_max_frame_size(16384);
    expected.http2_max_concurrent_streams(7);
    expected.http2_max_send_buf_size(1);
    expected.max_buf_size(8192);
    expected.pipeline_flush(true);
    assert_eq!(configured(&server), format!("{:?}", expected));
}

#[test]
fn accept_loop_decisions() {
    assert_eq!(serve_step(AcceptOutcome::Accepted), ServeStep::ServeConnection);
    assert_eq!(serve_step(AcceptOutcome::WouldBlock), ServeStep::YieldAndRetry);
    assert_eq!(serve_step(AcceptOutcome::Failed), ServeStep::Stop);
}
