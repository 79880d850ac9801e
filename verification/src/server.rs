//! The server builder: the settings of the HTTP server, how they are taken
//! from a [`ServerConfig`], and how they are handed to hyper's connection
//! builder.
//!
//! The listener is a type parameter: the socket is bound, and connections
//! are accepted and served, outside this crate.

use std::time::Duration;
use vstd::prelude::*;

use crate::builder::{
    set_http1_half_close, set_http1_keep_alive, set_http1_only, set_http1_preserve_header_case,
    set_http1_title_case_headers, set_http1_writev, set_http2_adaptive_window,
    set_http2_initial_connection_window_size, set_http2_initial_stream_window_size,
    set_http2_max_concurrent_streams, set_http2_max_frame_size, set_http2_max_send_buf_size,
    set_http2_only, set_max_buf_size, set_pipeline_flush, HttpBuilder,
};
use crate::config::{duration_of_secs, ServerConfig};

verus! {

/// The smallest HTTP/1 read buffer that hyper accepts
/// (`proto::h1::MINIMUM_MAX_BUFFER_SIZE`, 8192 in hyper's source).
pub const MIN_HTTP1_MAX_BUF_SIZE: usize = 8192;

/// One setting handed to hyper's connection builder, with its value.
#[derive(Debug, Clone, Copy, PartialEq, Eq, Structural)]
pub enum HttpSetting {
    Http1KeepAlive(bool),
    Http1HalfClose(bool),
    Http1Writev(bool),
    Http1TitleCaseHeaders(bool),
    Http1PreserveHeaderCase(bool),
    Http1Only(bool),
    Http2Only(bool),
    Http2InitialStreamWindowSize(u32),
    Http2InitialConnectionWindowSize(u32),
    Http2AdaptiveWindow(bool),
    Http2MaxFrameSize(u32),
    Http2MaxConcurrentStreams(u32),
    Http2MaxSendBufSize(usize),
    MaxBufSize(usize),
    PipelineFlush(bool),
}

/// The settings that are made among `options`, in their order.
pub open spec fn made_settings(options: Seq<Option<HttpSetting>>) -> Seq<HttpSetting>
    decreases options.len(),
{
    if options.len() == 0 {
        Seq::empty()
    } else {
        made_settings(options.drop_last()) + match options.last() {
            Some(s) => seq![s],
            None => Seq::empty(),
        }
    }
}

/// A setting is among those made in `options` exactly when `options` holds
/// it as made.
proof fn made_settings_contains(options: Seq<Option<HttpSetting>>, x: HttpSetting)
    ensures
        made_settings(options).contains(x) <==> options.contains(Some(x)),
    decreases options.len(),
{
    if options.len() > 0 {
        let front = options.drop_last();
        made_settings_contains(front, x);
        let m = made_settings(front);
        let tail = match options.last() {
            Some(t) => seq![t],
            None => Seq::<HttpSetting>::empty(),
        };
        assert(made_settings(options) == m + tail);
        if made_settings(options).contains(x) {
            let i = choose|i: int| 0 <= i < (m + tail).len() && (m + tail)[i] == x;
            if i < m.len() {
                assert(m[i] == x);
                assert(m.contains(x));
                let j = choose|j: int| 0 <= j < front.len() && front[j] == Some(x);
                assert(options[j] == Some(x));
            } else {
                assert(options[options.len() - 1] == Some(x));
            }
        }
        if options.contains(Some(x)) {
            let j = choose|j: int| 0 <= j < options.len() && options[j] == Some(x);
            if j < options.len() - 1 {
                assert(front[j] == Some(x));
                assert(front.contains(Some(x)));
                let i = choose|i: int| 0 <= i < m.len() && m[i] == x;
                assert((m + tail)[i] == x);
            } else {
                assert((m + tail)[m.len() as int] == x);
            }
        }
    }
}

/// The position of a setting's kind in hyper's builder order.
spec fn setting_slot(x: HttpSetting) -> int {
    match x {
        HttpSetting::Http1KeepAlive(_) => 0,
        HttpSetting::Http1HalfClose(_) => 1,
        HttpSetting::Http1Writev(_) => 2,
        HttpSetting::Http1TitleCaseHeaders(_) => 3,
        HttpSetting::Http1PreserveHeaderCase(_) => 4,
        HttpSetting::Http1Only(_) => 5,
        HttpSetting::Http2Only(_) => 6,
        HttpSetting::Http2InitialStreamWindowSize(_) => 7,
        HttpSetting::Http2InitialConnectionWindowSize(_) => 8,
        HttpSetting::Http2AdaptiveWindow(_) => 9,
        HttpSetting::Http2MaxFrameSize(_) => 10,
        HttpSetting::Http2MaxConcurrentStreams(_) => 11,
        HttpSetting::Http2MaxSendBufSize(_) => 12,
        HttpSetting::MaxBufSize(_) => 13,
        HttpSetting::PipelineFlush(_) => 14,
    }
}

/// Every setting made in `options` stands at the position of its kind.
spec fn slotted(options: Seq<Option<HttpSetting>>) -> bool {
    forall|j: int|
        0 <= j < options.len() && (#[trigger] options[j]) is Some ==> setting_slot(options[j]->0)
            == j
}

/// Extends `slotted` from the first `k` options to the first `k + 1`.
proof fn slotted_step(options: Seq<Option<HttpSetting>>, k: int)
    requires
        0 <= k < options.len(),
        slotted(options.take(k)),
        options[k] is Some ==> setting_slot(options[k]->0) == k,
    ensures
        slotted(options.take(k + 1)),
{
    assert forall|j: int|
        0 <= j < options.take(k + 1).len() && (#[trigger] options.take(k + 1)[j]) is Some implies setting_slot(
        options.take(k + 1)[j]->0,
    ) == j by {
        if j < k {
            assert(options.take(k + 1)[j] == options.take(k)[j]);
        }
    }
}

/// In slotted options, a setting that is made stands at its kind's position.
proof fn slotted_finds(options: Seq<Option<HttpSetting>>, x: HttpSetting)
    requires
        slotted(options),
        options.contains(Some(x)),
    ensures
        0 <= setting_slot(x) < options.len(),
        options[setting_slot(x)] == Some(x),
{
    let j = choose|j: int| 0 <= j < options.len() && options[j] == Some(x);
    assert(options[j] is Some);
}

/// Whether hyper's builder takes `s` without panicking: an HTTP/1 buffer of
/// at least 8192 bytes, an HTTP/2 send buffer that fits in a `u32`.
pub open spec fn setting_accepted(s: HttpSetting) -> bool {
    match s {
        HttpSetting::MaxBufSize(v) => v >= MIN_HTTP1_MAX_BUF_SIZE,
        HttpSetting::Http2MaxSendBufSize(v) => v <= u32::MAX,
        _ => true,
    }
}

/// Hands `s` to hyper's builder through the builder method it names.
fn apply_setting<E>(builder: &mut HttpBuilder<E>, s: HttpSetting)
    requires
        setting_accepted(s),
    ensures
        final(builder).handed_over() == old(builder).handed_over().push(s),
{
    match s {
        HttpSetting::Http1KeepAlive(val) => set_http1_keep_alive(builder, val),
        HttpSetting::Http1HalfClose(val) => set_http1_half_close(builder, val),
        HttpSetting::Http1Writev(val) => set_http1_writev(builder, val),
        HttpSetting::Http1TitleCaseHeaders(val) => set_http1_title_case_headers(builder, val),
        HttpSetting::Http1PreserveHeaderCase(val) => set_http1_preserve_header_case(builder, val),
        HttpSetting::Http1Only(val) => set_http1_only(builder, val),
        HttpSetting::Http2Only(val) => set_http2_only(builder, val),
        HttpSetting::Http2InitialStreamWindowSize(val) => set_http2_initial_stream_window_size(builder, val),
        HttpSetting::Http2InitialConnectionWindowSize(val) => set_http2_initial_connection_window_size(builder, val),
        HttpSetting::Http2AdaptiveWindow(val) => set_http2_adaptive_window(builder, val),
        HttpSetting::Http2MaxFrameSize(val) => set_http2_max_frame_size(builder, val),
        HttpSetting::Http2MaxConcurrentStreams(val) => set_http2_max_concurrent_streams(builder, val),
        HttpSetting::Http2MaxSendBufSize(val) => set_http2_max_send_buf_size(builder, val),
        HttpSetting::MaxBufSize(val) => set_max_buf_size(builder, val),
        HttpSetting::PipelineFlush(val) => set_pipeline_flush(builder, val),
    }
}

/// An HTTP server: a listener and the settings with which connections are
/// served. A setting left `None` keeps hyper's default.
pub struct Server<L> {
    /// The bound listener that accepts connections.
    pub listener: Option<L>,
    /// Whether to use keep-alive for HTTP/1 connections (hyper's default: true).
    pub http1_keep_alive: Option<bool>,
    /// Whether to support half-closures for HTTP/1 connections (hyper's default: false).
    pub http1_half_close: Option<bool>,
    pub http1_max_buf_size: Option<usize>,
    pub http1_pipeline_flush: Option<bool>,
    pub http1_writev: Option<bool>,
    pub http1_title_case_headers: Option<bool>,
    pub http1_preserve_header_case: Option<bool>,
    pub http1_only: Option<bool>,
    pub http2_only: Option<bool>,
    pub http2_initial_stream_window_size: Option<u32>,
    pub http2_initial_connection_window_size: Option<u32>,
    pub http2_adaptive_window: Option<bool>,
    pub http2_max_frame_size: Option<u32>,
    pub http2_max_concurrent_streams: Option<u32>,
    pub http2_max_send_buf_size: Option<usize>,
    pub worker_keep_alive: Option<Duration>,
    pub max_workers: Option<usize>,
}

impl<L> Server<L> {
    /// The server with no listener and no setting made.
    pub open spec fn spec_default() -> Self {
        Server {
            listener: None,
            http1_keep_alive: None,
            http1_half_close: None,
            http1_max_buf_size: None,
            http1_pipeline_flush: None,
            http1_writev: None,
            http1_title_case_headers: None,
            http1_preserve_header_case: None,
            http1_only: None,
            http2_only: None,
            http2_initial_stream_window_size: None,
            http2_initial_connection_window_size: None,
            http2_adaptive_window: None,
            http2_max_frame_size: None,
            http2_max_concurrent_streams: None,
            http2_max_send_buf_size: None,
            worker_keep_alive: None,
            max_workers: None,
        }
    }

    /// The settings that hyper's builder accepts without panicking: an
    /// HTTP/1 buffer of at least 8192 bytes, an HTTP/2 send buffer that fits
    /// in a `u32`.
    pub open spec fn settings_accepted(&self) -> bool {
        &&& self.http1_max_buf_size matches Some(v) ==> v >= MIN_HTTP1_MAX_BUF_SIZE
        &&& self.http2_max_send_buf_size matches Some(v) ==> v <= u32::MAX
    }

    /// Each option of hyper's builder in the order in which `configure`
    /// hands them over: the HTTP/1 and HTTP/2 options, then the HTTP/1
    /// buffer size and pipeline flush; `Some` where the setting has been
    /// made. The worker pool's settings are not among them.
    pub open spec fn http_options(&self) -> Seq<Option<HttpSetting>> {
        seq![
            match self.http1_keep_alive {
                Some(v) => Some(HttpSetting::Http1KeepAlive(v)),
                None => None,
            },
            match self.http1_half_close {
                Some(v) => Some(HttpSetting::Http1HalfClose(v)),
                None => None,
            },
            match self.http1_writev {
                Some(v) => Some(HttpSetting::Http1Writev(v)),
                None => None,
            },
            match self.http1_title_case_headers {
                Some(v) => Some(HttpSetting::Http1TitleCaseHeaders(v)),
                None => None,
            },
            match self.http1_preserve_header_case {
                Some(v) => Some(HttpSetting::Http1PreserveHeaderCase(v)),
                None => None,
            },
            match self.http1_only {
                Some(v) => Some(HttpSetting::Http1Only(v)),
                None => None,
            },
            match self.http2_only {
                Some(v) => Some(HttpSetting::Http2Only(v)),
                None => None,
            },
            match self.http2_initial_stream_window_size {
                Some(v) => Some(HttpSetting::Http2InitialStreamWindowSize(v)),
                None => None,
            },
            match self.http2_initial_connection_window_size {
                Some(v) => Some(HttpSetting::Http2InitialConnectionWindowSize(v)),
                None => None,
            },
            match self.http2_adaptive_window {
                Some(v) => Some(HttpSetting::Http2AdaptiveWindow(v)),
                None => None,
            },
            match self.http2_max_frame_size {
                Some(v) => Some(HttpSetting::Http2MaxFrameSize(v)),
                None => None,
            },
            match self.http2_max_concurrent_streams {
                Some(v) => Some(HttpSetting::Http2MaxConcurrentStreams(v)),
                None => None,
            },
            match self.http2_max_send_buf_size {
                Some(v) => Some(HttpSetting::Http2MaxSendBufSize(v)),
                None => None,
            },
            match self.http1_max_buf_size {
                Some(v) => Some(HttpSetting::MaxBufSize(v)),
                None => None,
            },
            match self.http1_pipeline_flush {
                Some(v) => Some(HttpSetting::PipelineFlush(v)),
                None => None,
            },
        ]
    }

    /// The settings that `configure` hands to hyper's builder, in order.
    pub open spec fn http_settings(&self) -> Seq<HttpSetting> {
        made_settings(self.http_options())
    }

    /// The options of `http_options`, as a vector.
    fn options(&self) -> (options: Vec<Option<HttpSetting>>)
        ensures
            options@ == self.http_options(),
    {
        let mut options: Vec<Option<HttpSetting>> = Vec::new();
        options.push(
            match self.http1_keep_alive {
                Some(v) => Some(HttpSetting::Http1KeepAlive(v)),
                None => None,
            },
        );
        assert(options@ =~= self.http_options().take(1));
        options.push(
            match self.http1_half_close {
                Some(v) => Some(HttpSetting::Http1HalfClose(v)),
                None => None,
            },
        );
        assert(options@ =~= self.http_options().take(2));
        options.push(
            match self.http1_writev {
                Some(v) => Some(HttpSetting::Http1Writev(v)),
                None => None,
            },
        );
        assert(options@ =~= self.http_options().take(3));
        options.push(
            match self.http1_title_case_headers {
                Some(v) => Some(HttpSetting::Http1TitleCaseHeaders(v)),
                None => None,
            },
        );
        assert(options@ =~= self.http_options().take(4));
        options.push(
            match self.http1_preserve_header_case {
                Some(v) => Some(HttpSetting::Http1PreserveHeaderCase(v)),
                None => None,
            },
        );
        assert(options@ =~= self.http_options().take(5));
        options.push(
            match self.http1_only {
                Some(v) => Some(HttpSetting::Http1Only(v)),
                None => None,
            },
        );
        assert(options@ =~= self.http_options().take(6));
        options.push(
            match self.http2_only {
                Some(v) => Some(HttpSetting::Http2Only(v)),
                None => None,
            },
        );
        assert(options@ =~= self.http_options().take(7));
        options.push(
            match self.http2_initial_stream_window_size {
                Some(v) => Some(HttpSetting::Http2InitialStreamWindowSize(v)),
                None => None,
            },
        );
        assert(options@ =~= self.http_options().take(8));
        options.push(
            match self.http2_initial_connection_window_size {
                Some(v) => Some(HttpSetting::Http2InitialConnectionWindowSize(v)),
                None => None,
            },
        );
        assert(options@ =~= self.http_options().take(9));
        options.push(
            match self.http2_adaptive_window {
                Some(v) => Some(HttpSetting::Http2AdaptiveWindow(v)),
                None => None,
            },
        );
        assert(options@ =~= self.http_options().take(10));
        options.push(
            match self.http2_max_frame_size {
                Some(v) => Some(HttpSetting::Http2MaxFrameSize(v)),
                None => None,
            },
        );
        assert(options@ =~= self.http_options().take(11));
        options.push(
            match self.http2_max_concurrent_streams {
                Some(v) => Some(HttpSetting::Http2MaxConcurrentStreams(v)),
                None => None,
            },
        );
        assert(options@ =~= self.http_options().take(12));
        options.push(
            match self.http2_max_send_buf_size {
                Some(v) => Some(HttpSetting::Http2MaxSendBufSize(v)),
                None => None,
            },
        );
        assert(options@ =~= self.http_options().take(13));
        options.push(
            match self.http1_max_buf_size {
                Some(v) => Some(HttpSetting::MaxBufSize(v)),
                None => None,
            },
        );
        assert(options@ =~= self.http_options().take(14));
        options.push(
            match self.http1_pipeline_flush {
                Some(v) => Some(HttpSetting::PipelineFlush(v)),
                None => None,
            },
        );
        assert(options@ =~= self.http_options());
        options
    }

    /// A server around a bound listener, with no setting made.
    pub fn with_listener(listener: L) -> (s: Self)
        ensures
            s == (Server { listener: Some(listener), ..Self::spec_default() }),
    {
        Server { listener: Some(listener), ..Self::default() }
    }

    /// A server around a bound listener, with the settings of `config`: the
    /// worker pool's size and keep-alive, HTTP/1 keep-alive, half-close and
    /// buffer size, and the HTTP/2 send buffer and HTTP/2-only mode.
    pub fn with_config(listener: L, config: &ServerConfig) -> (s: Self)
        ensures
            s == (Server {
                listener: Some(listener),
                max_workers: Some(config.max_workers),
                worker_keep_alive: Some(duration_of_secs(config.worker_keep_alive_secs)),
                http1_keep_alive: Some(config.http1_keep_alive),
                http1_half_close: Some(config.http1_half_close),
                http1_max_buf_size: Some(config.http1_max_buf_size),
                http2_max_send_buf_size: Some(config.http2_max_send_buf_size),
                http2_only: Some(config.http2_only),
                ..Self::spec_default()
            }),
    {
        let mut server = Server {
            listener: Some(listener),
            max_workers: Some(config.max_workers),
            worker_keep_alive: Some(config.worker_keep_alive()),
            http1_keep_alive: Some(config.http1_keep_alive),
            http1_half_close: Some(config.http1_half_close),
            http1_max_buf_size: Some(config.http1_max_buf_size),
            ..Self::default()
        };
        server.http2_max_send_buf_size = Some(config.http2_max_send_buf_size);
        server.http2_only = Some(config.http2_only);
        server
    }

    /// Sets the maximum number of threads in the worker pool.
    pub fn max_workers(self, val: usize) -> (s: Self)
        ensures
            s == (Server { max_workers: Some(val), ..self }),
    {
        Server { max_workers: Some(val), ..self }
    }

    /// Sets how long to keep alive an idle thread in the worker pool.
    pub fn worker_keep_alive(self, val: Duration) -> (s: Self)
        ensures
            s == (Server { worker_keep_alive: Some(val), ..self }),
    {
        Server { worker_keep_alive: Some(val), ..self }
    }

    /// Sets whether to use keep-alive for HTTP/1 connections.
    pub fn http1_keep_alive(self, val: bool) -> (s: Self)
        ensures
            s == (Server { http1_keep_alive: Some(val), ..self }),
    {
        Server { http1_keep_alive: Some(val), ..self }
    }

    /// Sets whether HTTP/1 connections support half-closures.
    pub fn http1_half_close(self, val: bool) -> (s: Self)
        ensures
            s == (Server { http1_half_close: Some(val), ..self }),
    {
        Server { http1_half_close: Some(val), ..self }
    }

    /// Sets the maximum HTTP/1 buffer size.
    pub fn http1_max_buf_size(self, val: usize) -> (s: Self)
        ensures
            s == (Server { http1_max_buf_size: Some(val), ..self }),
    {
        Server { http1_max_buf_size: Some(val), ..self }
    }

    /// Sets whether to bunch up HTTP/1 writes until the read buffer is empty.
    pub fn http1_pipeline_flush(self, val: bool) -> (s: Self)
        ensures
            s == (Server { http1_pipeline_flush: Some(val), ..self }),
    {
        Server { http1_pipeline_flush: Some(val), ..self }
    }

    /// Sets whether HTTP/1 connections try vectored writes.
    pub fn http1_writev(self, enabled: bool) -> (s: Self)
        ensures
            s == (Server { http1_writev: Some(enabled), ..self }),
    {
        Server { http1_writev: Some(enabled), ..self }
    }

    /// Sets whether HTTP/1 header names are written in title case.
    pub fn http1_title_case_headers(self, val: bool) -> (s: Self)
        ensures
            s == (Server { http1_title_case_headers: Some(val), ..self }),
    {
        Server { http1_title_case_headers: Some(val), ..self }
    }

    /// Sets whether the original case of HTTP/1 header names is preserved.
    pub fn http1_preserve_header_case(self, val: bool) -> (s: Self)
        ensures
            s == (Server { http1_preserve_header_case: Some(val), ..self }),
    {
        Server { http1_preserve_header_case: Some(val), ..self }
    }

    /// Sets whether HTTP/1 is required.
    pub fn http1_only(self, val: bool) -> (s: Self)
        ensures
            s == (Server { http1_only: Some(val), ..self }),
    {
        Server { http1_only: Some(val), ..self }
    }

    /// Sets whether HTTP/2 is required.
    pub fn http2_only(self, val: bool) -> (s: Self)
        ensures
            s == (Server { http2_only: Some(val), ..self }),
    {
        Server { http2_only: Some(val), ..self }
    }

    /// Sets the HTTP/2 stream-level initial window size. Passing `None` leaves
    /// the setting as it was.
    pub fn http2_initial_stream_window_size(self, sz: Option<u32>) -> (s: Self)
        ensures
            s == (match sz {
                Some(v) => Server { http2_initial_stream_window_size: Some(v), ..self },
                None => self,
            }),
    {
        match sz {
            Some(v) => Server { http2_initial_stream_window_size: Some(v), ..self },
            None => self,
        }
    }

    /// Sets the HTTP/2 connection-level initial window size. Passing `None`
    /// leaves the setting as it was.
    pub fn http2_initial_connection_window_size(self, sz: Option<u32>) -> (s: Self)
        ensures
            s == (match sz {
                Some(v) => Server { http2_initial_connection_window_size: Some(v), ..self },
                None => self,
            }),
    {
        match sz {
            Some(v) => Server { http2_initial_connection_window_size: Some(v), ..self },
            None => self,
        }
    }

    /// Sets whether HTTP/2 uses adaptive flow control.
    pub fn http2_adaptive_window(self, enabled: bool) -> (s: Self)
        ensures
            s == (Server { http2_adaptive_window: Some(enabled), ..self }),
    {
        Server { http2_adaptive_window: Some(enabled), ..self }
    }

    /// Sets the HTTP/2 maximum frame size. Passing `None` leaves the setting as
    /// it was.
    pub fn http2_max_frame_size(self, sz: Option<u32>) -> (s: Self)
        ensures
            s == (match sz {
                Some(v) => Server { http2_max_frame_size: Some(v), ..self },
                None => self,
            }),
    {
        match sz {
            Some(v) => Server { http2_max_frame_size: Some(v), ..self },
            None => self,
        }
    }

    /// Sets the HTTP/2 maximum number of concurrent streams. Passing `None`
    /// leaves the setting as it was.
    pub fn http2_max_concurrent_streams(self, max: Option<u32>) -> (s: Self)
        ensures
            s == (match max {
                Some(v) => Server { http2_max_concurrent_streams: Some(v), ..self },
                None => self,
            }),
    {
        match max {
            Some(v) => Server { http2_max_concurrent_streams: Some(v), ..self },
            None => self,
        }
    }

    /// Sets the HTTP/2 maximum write buffer size of a stream. Serving
    /// requires it to fit in a `u32`.
    pub fn http2_max_send_buf_size(self, max: usize) -> (s: Self)
        ensures
            s == (Server { http2_max_send_buf_size: Some(max), ..self }),
    {
        Server { http2_max_send_buf_size: Some(max), ..self }
    }

    /// Each option stands at the position of its kind.
    proof fn options_slotted(&self)
        ensures
            slotted(self.http_options()),
    {
        let o = self.http_options();
        assert(o.take(0) =~= Seq::<Option<HttpSetting>>::empty());
        slotted_step(o, 0);
        slotted_step(o, 1);
        slotted_step(o, 2);
        slotted_step(o, 3);
        slotted_step(o, 4);
        slotted_step(o, 5);
        slotted_step(o, 6);
        slotted_step(o, 7);
        slotted_step(o, 8);
        slotted_step(o, 9);
        slotted_step(o, 10);
        slotted_step(o, 11);
        slotted_step(o, 12);
        slotted_step(o, 13);
        slotted_step(o, 14);
        assert(o.take(15) =~= o);
    }

    /// `http1_keep_alive` is handed over, as `Http1KeepAlive`, exactly when it is set.
    proof fn lemma_http1_keep_alive_handed_over(&self, v: bool)
        ensures
            self.http_settings().contains(HttpSetting::Http1KeepAlive(v)) <==> self.http1_keep_alive == Some(v),
    {
        let o = self.http_options();
        made_settings_contains(o, HttpSetting::Http1KeepAlive(v));
        self.options_slotted();
        if o.contains(Some(HttpSetting::Http1KeepAlive(v))) {
            slotted_finds(o, HttpSetting::Http1KeepAlive(v));
        }
        if self.http1_keep_alive == Some(v) {
            assert(o[0] == Some(HttpSetting::Http1KeepAlive(v)));
        }
    }

    /// `http1_half_close` is handed over, as `Http1HalfClose`, exactly when it is set.
    proof fn lemma_http1_half_close_handed_over(&self, v: bool)
        ensures
            self.http_settings().contains(HttpSetting::Http1HalfClose(v)) <==> self.http1_half_close == Some(v),
    {
        let o = self.http_options();
        made_settings_contains(o, HttpSetting::Http1HalfClose(v));
        self.options_slotted();
        if o.contains(Some(HttpSetting::Http1HalfClose(v))) {
            slotted_finds(o, HttpSetting::Http1HalfClose(v));
        }
        if self.http1_half_close == Some(v) {
            assert(o[1] == Some(HttpSetting::Http1HalfClose(v)));
        }
    }

    /// `http1_writev` is handed over, as `Http1Writev`, exactly when it is set.
    proof fn lemma_http1_writev_handed_over(&self, v: bool)
        ensures
            self.http_settings().contains(HttpSetting::Http1Writev(v)) <==> self.http1_writev == Some(v),
    {
        let o = self.http_options();
        made_settings_contains(o, HttpSetting::Http1Writev(v));
        self.options_slotted();
        if o.contains(Some(HttpSetting::Http1Writev(v))) {
            slotted_finds(o, HttpSetting::Http1Writev(v));
        }
        if self.http1_writev == Some(v) {
            assert(o[2] == Some(HttpSetting::Http1Writev(v)));
        }
    }

    /// `http1_title_case_headers` is handed over, as `Http1TitleCaseHeaders`, exactly when it is set.
    proof fn lemma_http1_title_case_headers_handed_over(&self, v: bool)
        ensures
            self.http_settings().contains(HttpSetting::Http1TitleCaseHeaders(v)) <==> self.http1_title_case_headers == Some(v),
    {
        let o = self.http_options();
        made_settings_contains(o, HttpSetting::Http1TitleCaseHeaders(v));
        self.options_slotted();
        if o.contains(Some(HttpSetting::Http1TitleCaseHeaders(v))) {
            slotted_finds(o, HttpSetting::Http1TitleCaseHeaders(v));
        }
        if self.http1_title_case_headers == Some(v) {
            assert(o[3] == Some(HttpSetting::Http1TitleCaseHeaders(v)));
        }
    }

    /// `http1_preserve_header_case` is handed over, as `Http1PreserveHeaderCase`, exactly when it is set.
    proof fn lemma_http1_preserve_header_case_handed_over(&self, v: bool)
        ensures
            self.http_settings().contains(HttpSetting::Http1PreserveHeaderCase(v)) <==> self.http1_preserve_header_case == Some(v),
    {
        let o = self.http_options();
        made_settings_contains(o, HttpSetting::Http1PreserveHeaderCase(v));
        self.options_slotted();
        if o.contains(Some(HttpSetting::Http1PreserveHeaderCase(v))) {
            slotted_finds(o, HttpSetting::Http1PreserveHeaderCase(v));
        }
        if self.http1_preserve_header_case == Some(v) {
            assert(o[4] == Some(HttpSetting::Http1PreserveHeaderCase(v)));
        }
    }

    /// `http1_only` is handed over, as `Http1Only`, exactly when it is set.
    proof fn lemma_http1_only_handed_over(&self, v: bool)
        ensures
            self.http_settings().contains(HttpSetting::Http1Only(v)) <==> self.http1_only == Some(v),
    {
        let o = self.http_options();
        made_settings_contains(o, HttpSetting::Http1Only(v));
        self.options_slotted();
        if o.contains(Some(HttpSetting::Http1Only(v))) {
            slotted_finds(o, HttpSetting::Http1Only(v));
        }
        if self.http1_only == Some(v) {
            assert(o[5] == Some(HttpSetting::Http1Only(v)));
        }
    }

    /// `http2_only` is handed over, as `Http2Only`, exactly when it is set.
    proof fn lemma_http2_only_handed_over(&self, v: bool)
        ensures
            self.http_settings().contains(HttpSetting::Http2Only(v)) <==> self.http2_only == Some(v),
    {
        let o = self.http_options();
        made_settings_contains(o, HttpSetting::Http2Only(v));
        self.options_slotted();
        if o.contains(Some(HttpSetting::Http2Only(v))) {
            slotted_finds(o, HttpSetting::Http2Only(v));
        }
        if self.http2_only == Some(v) {
            assert(o[6] == Some(HttpSetting::Http2Only(v)));
        }
    }

    /// `http2_initial_stream_window_size` is handed over, as `Http2InitialStreamWindowSize`, exactly when it is set.
    proof fn lemma_http2_initial_stream_window_size_handed_over(&self, v: u32)
        ensures
            self.http_settings().contains(HttpSetting::Http2InitialStreamWindowSize(v)) <==> self.http2_initial_stream_window_size == Some(v),
    {
        let o = self.http_options();
        made_settings_contains(o, HttpSetting::Http2InitialStreamWindowSize(v));
        self.options_slotted();
        if o.contains(Some(HttpSetting::Http2InitialStreamWindowSize(v))) {
            slotted_finds(o, HttpSetting::Http2InitialStreamWindowSize(v));
        }
        if self.http2_initial_stream_window_size == Some(v) {
            assert(o[7] == Some(HttpSetting::Http2InitialStreamWindowSize(v)));
        }
    }

    /// `http2_initial_connection_window_size` is handed over, as `Http2InitialConnectionWindowSize`, exactly when it is set.
    proof fn lemma_http2_initial_connection_window_size_handed_over(&self, v: u32)
        ensures
            self.http_settings().contains(HttpSetting::Http2InitialConnectionWindowSize(v)) <==> self.http2_initial_connection_window_size == Some(v),
    {
        let o = self.http_options();
        made_settings_contains(o, HttpSetting::Http2InitialConnectionWindowSize(v));
        self.options_slotted();
        if o.contains(Some(HttpSetting::Http2InitialConnectionWindowSize(v))) {
            slotted_finds(o, HttpSetting::Http2InitialConnectionWindowSize(v));
        }
        if self.http2_initial_connection_window_size == Some(v) {
            assert(o[8] == Some(HttpSetting::Http2InitialConnectionWindowSize(v)));
        }
    }

    /// `http2_adaptive_window` is handed over, as `Http2AdaptiveWindow`, exactly when it is set.
    proof fn lemma_http2_adaptive_window_handed_over(&self, v: bool)
        ensures
            self.http_settings().contains(HttpSetting::Http2AdaptiveWindow(v)) <==> self.http2_adaptive_window == Some(v),
    {
        let o = self.http_options();
        made_settings_contains(o, HttpSetting::Http2AdaptiveWindow(v));
        self.options_slotted();
        if o.contains(Some(HttpSetting::Http2AdaptiveWindow(v))) {
            slotted_finds(o, HttpSetting::Http2AdaptiveWindow(v));
        }
        if self.http2_adaptive_window == Some(v) {
            assert(o[9] == Some(HttpSetting::Http2AdaptiveWindow(v)));
        }
    }

    /// `http2_max_frame_size` is handed over, as `Http2MaxFrameSize`, exactly when it is set.
    proof fn lemma_http2_max_frame_size_handed_over(&self, v: u32)
        ensures
            self.http_settings().contains(HttpSetting::Http2MaxFrameSize(v)) <==> self.http2_max_frame_size == Some(v),
    {
        let o = self.http_options();
        made_settings_contains(o, HttpSetting::Http2MaxFrameSize(v));
        self.options_slotted();
        if o.contains(Some(HttpSetting::Http2MaxFrameSize(v))) {
            slotted_finds(o, HttpSetting::Http2MaxFrameSize(v));
        }
        if self.http2_max_frame_size == Some(v) {
            assert(o[10] == Some(HttpSetting::Http2MaxFrameSize(v)));
        }
    }

    /// `http2_max_concurrent_streams` is handed over, as `Http2MaxConcurrentStreams`, exactly when it is set.
    proof fn lemma_http2_max_concurrent_streams_handed_over(&self, v: u32)
        ensures
            self.http_settings().contains(HttpSetting::Http2MaxConcurrentStreams(v)) <==> self.http2_max_concurrent_streams == Some(v),
    {
        let o = self.http_options();
        made_settings_contains(o, HttpSetting::Http2MaxConcurrentStreams(v));
        self.options_slotted();
        if o.contains(Some(HttpSetting::Http2MaxConcurrentStreams(v))) {
            slotted_finds(o, HttpSetting::Http2MaxConcurrentStreams(v));
        }
        if self.http2_max_concurrent_streams == Some(v) {
            assert(o[11] == Some(HttpSetting::Http2MaxConcurrentStreams(v)));
        }
    }

    /// `http2_max_send_buf_size` is handed over, as `Http2MaxSendBufSize`, exactly when it is set.
    proof fn lemma_http2_max_send_buf_size_handed_over(&self, v: usize)
        ensures
            self.http_settings().contains(HttpSetting::Http2MaxSendBufSize(v)) <==> self.http2_max_send_buf_size == Some(v),
    {
        let o = self.http_options();
        made_settings_contains(o, HttpSetting::Http2MaxSendBufSize(v));
        self.options_slotted();
        if o.contains(Some(HttpSetting::Http2MaxSendBufSize(v))) {
            slotted_finds(o, HttpSetting::Http2MaxSendBufSize(v));
        }
        if self.http2_max_send_buf_size == Some(v) {
            assert(o[12] == Some(HttpSetting::Http2MaxSendBufSize(v)));
        }
    }

    /// `http1_max_buf_size` is handed over, as `MaxBufSize`, exactly when it is set.
    proof fn lemma_http1_max_buf_size_handed_over(&self, v: usize)
        ensures
            self.http_settings().contains(HttpSetting::MaxBufSize(v)) <==> self.http1_max_buf_size == Some(v),
    {
        let o = self.http_options();
        made_settings_contains(o, HttpSetting::MaxBufSize(v));
        self.options_slotted();
        if o.contains(Some(HttpSetting::MaxBufSize(v))) {
            slotted_finds(o, HttpSetting::MaxBufSize(v));
        }
        if self.http1_max_buf_size == Some(v) {
            assert(o[13] == Some(HttpSetting::MaxBufSize(v)));
        }
    }

    /// `http1_pipeline_flush` is handed over, as `PipelineFlush`, exactly when it is set.
    proof fn lemma_http1_pipeline_flush_handed_over(&self, v: bool)
        ensures
            self.http_settings().contains(HttpSetting::PipelineFlush(v)) <==> self.http1_pipeline_flush == Some(v),
    {
        let o = self.http_options();
        made_settings_contains(o, HttpSetting::PipelineFlush(v));
        self.options_slotted();
        if o.contains(Some(HttpSetting::PipelineFlush(v))) {
            slotted_finds(o, HttpSetting::PipelineFlush(v));
        }
        if self.http1_pipeline_flush == Some(v) {
            assert(o[14] == Some(HttpSetting::PipelineFlush(v)));
        }
    }

    /// Each setting of the server reaches the builder method of its own name,
    /// with its own value: a setting with a given value is handed over exactly
    /// when the server's option of that name holds that value. An option left
    /// `None` hands nothing to its method.
    pub proof fn settings_go_to_their_own_methods(&self)
        ensures
            forall|v: bool| self.http_settings().contains(HttpSetting::Http1KeepAlive(v)) <==> self.http1_keep_alive == Some(v),
            forall|v: bool| self.http_settings().contains(HttpSetting::Http1HalfClose(v)) <==> self.http1_half_close == Some(v),
            forall|v: bool| self.http_settings().contains(HttpSetting::Http1Writev(v)) <==> self.http1_writev == Some(v),
            forall|v: bool| self.http_settings().contains(HttpSetting::Http1TitleCaseHeaders(v)) <==> self.http1_title_case_headers == Some(v),
            forall|v: bool| self.http_settings().contains(HttpSetting::Http1PreserveHeaderCase(v)) <==> self.http1_preserve_header_case == Some(v),
            forall|v: bool| self.http_settings().contains(HttpSetting::Http1Only(v)) <==> self.http1_only == Some(v),
            forall|v: bool| self.http_settings().contains(HttpSetting::Http2Only(v)) <==> self.http2_only == Some(v),
            forall|v: u32| self.http_settings().contains(HttpSetting::Http2InitialStreamWindowSize(v)) <==> self.http2_initial_stream_window_size == Some(v),
            forall|v: u32| self.http_settings().contains(HttpSetting::Http2InitialConnectionWindowSize(v)) <==> self.http2_initial_connection_window_size == Some(v),
            forall|v: bool| self.http_settings().contains(HttpSetting::Http2AdaptiveWindow(v)) <==> self.http2_adaptive_window == Some(v),
            forall|v: u32| self.http_settings().contains(HttpSetting::Http2MaxFrameSize(v)) <==> self.http2_max_frame_size == Some(v),
            forall|v: u32| self.http_settings().contains(HttpSetting::Http2MaxConcurrentStreams(v)) <==> self.http2_max_concurrent_streams == Some(v),
            forall|v: usize| self.http_settings().contains(HttpSetting::Http2MaxSendBufSize(v)) <==> self.http2_max_send_buf_size == Some(v),
            forall|v: usize| self.http_settings().contains(HttpSetting::MaxBufSize(v)) <==> self.http1_max_buf_size == Some(v),
            forall|v: bool| self.http_settings().contains(HttpSetting::PipelineFlush(v)) <==> self.http1_pipeline_flush == Some(v),
    {
        assert forall|v: bool| self.http_settings().contains(HttpSetting::Http1KeepAlive(v)) <==> self.http1_keep_alive
            == Some(v) by {
            self.lemma_http1_keep_alive_handed_over(v);
        }
        assert forall|v: bool| self.http_settings().contains(HttpSetting::Http1HalfClose(v)) <==> self.http1_half_close
            == Some(v) by {
            self.lemma_http1_half_close_handed_over(v);
        }
        assert forall|v: bool| self.http_settings().contains(HttpSetting::Http1Writev(v)) <==> self.http1_writev
            == Some(v) by {
            self.lemma_http1_writev_handed_over(v);
        }
        assert forall|v: bool| self.http_settings().contains(HttpSetting::Http1TitleCaseHeaders(v)) <==> self.http1_title_case_headers
            == Some(v) by {
            self.lemma_http1_title_case_headers_handed_over(v);
        }
        assert forall|v: bool| self.http_settings().contains(HttpSetting::Http1PreserveHeaderCase(v)) <==> self.http1_preserve_header_case
            == Some(v) by {
            self.lemma_http1_preserve_header_case_handed_over(v);
        }
        assert forall|v: bool| self.http_settings().contains(HttpSetting::Http1Only(v)) <==> self.http1_only
            == Some(v) by {
            self.lemma_http1_only_handed_over(v);
        }
        assert forall|v: bool| self.http_settings().contains(HttpSetting::Http2Only(v)) <==> self.http2_only
            == Some(v) by {
            self.lemma_http2_only_handed_over(v);
        }
        assert forall|v: u32| self.http_settings().contains(HttpSetting::Http2InitialStreamWindowSize(v)) <==> self.http2_initial_stream_window_size
            == Some(v) by {
            self.lemma_http2_initial_stream_window_size_handed_over(v);
        }
        assert forall|v: u32| self.http_settings().contains(HttpSetting::Http2InitialConnectionWindowSize(v)) <==> self.http2_initial_connection_window_size
            == Some(v) by {
            self.lemma_http2_initial_connection_window_size_handed_over(v);
        }
        assert forall|v: bool| self.http_settings().contains(HttpSetting::Http2AdaptiveWindow(v)) <==> self.http2_adaptive_window
            == Some(v) by {
            self.lemma_http2_adaptive_window_handed_over(v);
        }
        assert forall|v: u32| self.http_settings().contains(HttpSetting::Http2MaxFrameSize(v)) <==> self.http2_max_frame_size
            == Some(v) by {
            self.lemma_http2_max_frame_size_handed_over(v);
        }
        assert forall|v: u32| self.http_settings().contains(HttpSetting::Http2MaxConcurrentStreams(v)) <==> self.http2_max_concurrent_streams
            == Some(v) by {
            self.lemma_http2_max_concurrent_streams_handed_over(v);
        }
        assert forall|v: usize| self.http_settings().contains(HttpSetting::Http2MaxSendBufSize(v)) <==> self.http2_max_send_buf_size
            == Some(v) by {
            self.lemma_http2_max_send_buf_size_handed_over(v);
        }
        assert forall|v: usize| self.http_settings().contains(HttpSetting::MaxBufSize(v)) <==> self.http1_max_buf_size
            == Some(v) by {
            self.lemma_http1_max_buf_size_handed_over(v);
        }
        assert forall|v: bool| self.http_settings().contains(HttpSetting::PipelineFlush(v)) <==> self.http1_pipeline_flush
            == Some(v) by {
            self.lemma_http1_pipeline_flush_handed_over(v);
        }
    }

    /// Hands every setting that has been made to hyper's connection builder,
    /// in the order of `http_settings`: each with one call of the builder
    /// method it names, and nothing else. Settings left `None` and the
    /// worker pool's settings cause no call.
    pub fn configure<E>(&self, builder: &mut HttpBuilder<E>)
        requires
            self.settings_accepted(),
        ensures
            final(builder).handed_over() == old(builder).handed_over() + self.http_settings(),
    {
        let options = self.options();
        assert forall|j: int| 0 <= j < options@.len() && options@[j] is Some implies setting_accepted(
            options@[j]->0,
        ) by {
            assert(0 <= j < 15);
        }
        let mut i: usize = 0;
        while i < options.len()
            invariant
                0 <= i <= options@.len(),
                forall|j: int|
                    0 <= j < options@.len() && options@[j] is Some ==> setting_accepted(
                        options@[j]->0,
                    ),
                builder.handed_over() == old(builder).handed_over() + made_settings(
                    options@.take(i as int),
                ),
            decreases options.len() - i,
        {
            assert(options@.take(i + 1).drop_last() =~= options@.take(i as int));
            if let Some(setting) = options[i] {
                apply_setting(builder, setting);
            }
            i += 1;
            assert(builder.handed_over() =~= old(builder).handed_over() + made_settings(
                options@.take(i as int),
            ));
        }
        assert(options@.take(options@.len() as int) =~= options@);
    }
}

impl<L> Default for Server<L> {
    /// The server with no listener and no setting made.
    fn default() -> (s: Self)
        ensures
            s == Self::spec_default(),
    {
        Server {
            listener: None,
            http1_keep_alive: None,
            http1_half_close: None,
            http1_max_buf_size: None,
            http1_pipeline_flush: None,
            http1_writev: None,
            http1_title_case_headers: None,
            http1_preserve_header_case: None,
            http1_only: None,
            http2_only: None,
            http2_initial_stream_window_size: None,
            http2_initial_connection_window_size: None,
            http2_adaptive_window: None,
            http2_max_frame_size: None,
            http2_max_concurrent_streams: None,
            http2_max_send_buf_size: None,
            worker_keep_alive: None,
            max_workers: None,
        }
    }
}

/// How an attempt to accept a connection ended.
#[derive(Debug, PartialEq, Eq, Structural)]
pub enum AcceptOutcome {
    /// A connection was accepted.
    Accepted,
    /// No connection was waiting (`WouldBlock`).
    WouldBlock,
    /// Accepting failed with another error.
    Failed,
}

/// What the accept loop does next.
#[derive(Debug, PartialEq, Eq, Structural)]
pub enum ServeStep {
    /// Register the connection and serve it on a task of its own, then
    /// accept again.
    ServeConnection,
    /// Yield to the runtime, then accept again.
    YieldAndRetry,
    /// Stop serving and return the error.
    Stop,
}

/// The accept loop's decision on the outcome of one accept.
pub fn serve_step(outcome: AcceptOutcome) -> (step: ServeStep)
    ensures
        step == match outcome {
            AcceptOutcome::Accepted => ServeStep::ServeConnection,
            AcceptOutcome::WouldBlock => ServeStep::YieldAndRetry,
            AcceptOutcome::Failed => ServeStep::Stop,
        },
{
    match outcome {
        AcceptOutcome::Accepted => ServeStep::ServeConnection,
        AcceptOutcome::WouldBlock => ServeStep::YieldAndRetry,
        AcceptOutcome::Failed => ServeStep::Stop,
    }
}

} // verus!
