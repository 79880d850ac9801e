//! The hand-over of settings to hyper's connection builder.
//!
//! [`HttpBuilder`] holds hyper's builder together with the list of the
//! settings that have been handed to it. Only the functions of this module
//! call hyper's builder methods, each once, and each records its call; so the
//! list is exactly the calls made on the builder while it is held here.

use crate::server::{HttpSetting, MIN_HTTP1_MAX_BUF_SIZE};
use hyper::server::conn::Http;
use vstd::prelude::*;

verus! {

#[verifier::external_type_specification]
#[verifier::external_body]
#[verifier::reject_recursive_types(E)]
pub struct ExHttp<E>(Http<E>);

/// Hyper's connection builder, with the settings handed to it so far.
#[verifier::reject_recursive_types(E)]
pub struct HttpBuilder<E> {
    http: Http<E>,
    handed: Ghost<Seq<HttpSetting>>,
}

impl<E> HttpBuilder<E> {
    /// The settings handed to the builder while it was held here, in the
    /// order of the calls.
    pub closed spec fn handed_over(&self) -> Seq<HttpSetting> {
        self.handed@
    }

    /// Holds `http`, to which nothing has been handed yet.
    pub fn new(http: Http<E>) -> (b: Self)
        ensures
            b.handed_over() == Seq::<HttpSetting>::empty(),
    {
        HttpBuilder { http, handed: Ghost(Seq::empty()) }
    }

    /// Gives hyper's builder back.
    pub fn into_inner(self) -> Http<E> {
        self.http
    }
}

/// `Http::http1_keep_alive`: calls it once on the builder with `val` and
/// records the call. What the builder holds afterwards is opaque and not
/// stated.
#[verifier::external_body]
pub(crate) fn set_http1_keep_alive<E>(b: &mut HttpBuilder<E>, val: bool)
    ensures
        final(b).handed_over() == old(b).handed_over().push(HttpSetting::Http1KeepAlive(val)),
{
    b.http.http1_keep_alive(val);
}

/// `Http::http1_half_close`: calls it once on the builder with `val` and
/// records the call. What the builder holds afterwards is opaque and not
/// stated.
#[verifier::external_body]
pub(crate) fn set_http1_half_close<E>(b: &mut HttpBuilder<E>, val: bool)
    ensures
        final(b).handed_over() == old(b).handed_over().push(HttpSetting::Http1HalfClose(val)),
{
    b.http.http1_half_close(val);
}

/// `Http::http1_writev`: calls it once on the builder with `val` and records
/// the call. What the builder holds afterwards is opaque and not stated.
#[verifier::external_body]
pub(crate) fn set_http1_writev<E>(b: &mut HttpBuilder<E>, val: bool)
    ensures
        final(b).handed_over() == old(b).handed_over().push(HttpSetting::Http1Writev(val)),
{
    b.http.http1_writev(val);
}

/// `Http::http1_title_case_headers`: calls it once on the builder with `val`
/// and records the call. What the builder holds afterwards is opaque and not
/// stated.
#[verifier::external_body]
pub(crate) fn set_http1_title_case_headers<E>(b: &mut HttpBuilder<E>, val: bool)
    ensures
        final(b).handed_over() == old(b).handed_over().push(HttpSetting::Http1TitleCaseHeaders(val)),
{
    b.http.http1_title_case_headers(val);
}

/// `Http::http1_preserve_header_case`: calls it once on the builder with
/// `val` and records the call. What the builder holds afterwards is opaque
/// and not stated.
#[verifier::external_body]
pub(crate) fn set_http1_preserve_header_case<E>(b: &mut HttpBuilder<E>, val: bool)
    ensures
        final(b).handed_over() == old(b).handed_over().push(HttpSetting::Http1PreserveHeaderCase(val)),
{
    b.http.http1_preserve_header_case(val);
}

/// `Http::http1_only`: calls it once on the builder with `val` and records
/// the call. What the builder holds afterwards is opaque and not stated.
#[verifier::external_body]
pub(crate) fn set_http1_only<E>(b: &mut HttpBuilder<E>, val: bool)
    ensures
        final(b).handed_over() == old(b).handed_over().push(HttpSetting::Http1Only(val)),
{
    b.http.http1_only(val);
}

/// `Http::http2_only`: calls it once on the builder with `val` and records
/// the call. What the builder holds afterwards is opaque and not stated.
#[verifier::external_body]
pub(crate) fn set_http2_only<E>(b: &mut HttpBuilder<E>, val: bool)
    ensures
        final(b).handed_over() == old(b).handed_over().push(HttpSetting::Http2Only(val)),
{
    b.http.http2_only(val);
}

/// `Http::http2_initial_stream_window_size`: calls it once on the builder
/// with `val` and records the call. What the builder holds afterwards is
/// opaque and not stated.
#[verifier::external_body]
pub(crate) fn set_http2_initial_stream_window_size<E>(b: &mut HttpBuilder<E>, val: u32)
    ensures
        final(b).handed_over() == old(b).handed_over().push(HttpSetting::Http2InitialStreamWindowSize(val)),
{
    b.http.http2_initial_stream_window_size(val);
}

/// `Http::http2_initial_connection_window_size`: calls it once on the builder
/// with `val` and records the call. What the builder holds afterwards is
/// opaque and not stated.
#[verifier::external_body]
pub(crate) fn set_http2_initial_connection_window_size<E>(b: &mut HttpBuilder<E>, val: u32)
    ensures
        final(b).handed_over() == old(b).handed_over().push(HttpSetting::Http2InitialConnectionWindowSize(val)),
{
    b.http.http2_initial_connection_window_size(val);
}

/// `Http::http2_adaptive_window`: calls it once on the builder with `val` and
/// records the call. What the builder holds afterwards is opaque and not
/// stated.
#[verifier::external_body]
pub(crate) fn set_http2_adaptive_window<E>(b: &mut HttpBuilder<E>, val: bool)
    ensures
        final(b).handed_over() == old(b).handed_over().push(HttpSetting::Http2AdaptiveWindow(val)),
{
    b.http.http2_adaptive_window(val);
}

/// `Http::http2_max_frame_size`: calls it once on the builder with `val` and
/// records the call. What the builder holds afterwards is opaque and not
/// stated.
#[verifier::external_body]
pub(crate) fn set_http2_max_frame_size<E>(b: &mut HttpBuilder<E>, val: u32)
    ensures
        final(b).handed_over() == old(b).handed_over().push(HttpSetting::Http2MaxFrameSize(val)),
{
    b.http.http2_max_frame_size(val);
}

/// `Http::http2_max_concurrent_streams`: calls it once on the builder with
/// `val` and records the call. What the builder holds afterwards is opaque
/// and not stated.
#[verifier::external_body]
pub(crate) fn set_http2_max_concurrent_streams<E>(b: &mut HttpBuilder<E>, val: u32)
    ensures
        final(b).handed_over() == old(b).handed_over().push(HttpSetting::Http2MaxConcurrentStreams(val)),
{
    b.http.http2_max_concurrent_streams(val);
}

/// `Http::http2_max_send_buf_size`: calls it once on the builder with `val`
/// and records the call. Hyper asserts that the size fits in a `u32`. What
/// the builder holds afterwards is opaque and not stated.
#[verifier::external_body]
pub(crate) fn set_http2_max_send_buf_size<E>(b: &mut HttpBuilder<E>, val: usize)
    requires
        val <= u32::MAX,
    ensures
        final(b).handed_over() == old(b).handed_over().push(HttpSetting::Http2MaxSendBufSize(val)),
{
    b.http.http2_max_send_buf_size(val);
}

/// `Http::max_buf_size`: calls it once on the builder with `val` and records
/// the call. Hyper asserts that the size is at least its minimum of 8192.
/// What the builder holds afterwards is opaque and not stated.
#[verifier::external_body]
pub(crate) fn set_max_buf_size<E>(b: &mut HttpBuilder<E>, val: usize)
    requires
        val >= MIN_HTTP1_MAX_BUF_SIZE,
    ensures
        final(b).handed_over() == old(b).handed_over().push(HttpSetting::MaxBufSize(val)),
{
    b.http.max_buf_size(val);
}

/// `Http::pipeline_flush`: calls it once on the builder with `val` and
/// records the call. What the builder holds afterwards is opaque and not
/// stated.
#[verifier::external_body]
pub(crate) fn set_pipeline_flush<E>(b: &mut HttpBuilder<E>, val: bool)
    ensures
        final(b).handed_over() == old(b).handed_over().push(HttpSetting::PipelineFlush(val)),
{
    b.http.pipeline_flush(val);
}

} // verus!
