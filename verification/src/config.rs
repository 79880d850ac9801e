//! The server's configuration: its settings, the defaults of each, and the
//! address that it binds to.
//!
//! Settings come from a config file and from environment variables prefixed
//! with `AZRATH_`; what those sources hold is read outside this crate and
//! handed to [`ServerConfig::from_values`] as [`ConfigValues`].

use std::time::Duration;
use vstd::prelude::*;
use vstd::string::StringExecFns;

verus! {

/// The duration of `secs` whole seconds (`Duration::from_secs`).
pub uninterp spec fn duration_of_secs(secs: u64) -> Duration;

/// `Duration::from_secs`: the standard library documents it as the duration
/// of the given number of whole seconds; it is named by `duration_of_secs`.
pub assume_specification[ std::time::Duration::from_secs ](secs: u64) -> (d: Duration)
    ensures
        d == duration_of_secs(secs),
;

/// `num_cpus::get`: the number of logical processors that the process may
/// use. It depends on the machine, the affinity mask and the cgroup; the
/// crate documents that it is always at least 1, and that is all that is
/// stated of it.
#[verifier::external_body]
pub(crate) fn cpu_count() -> (n: usize)
    ensures
        n >= 1,
{
    num_cpus::get()
}

/// Configuration for the HTTP server, for HTTP/1.x and HTTP/2.
#[derive(Debug)]
pub struct ServerConfig {
    /// Maximum number of worker threads. Defaults to CPU count * 15.
    pub max_workers: usize,
    /// Keep-alive duration in seconds for worker threads. Defaults to 6 seconds.
    pub worker_keep_alive_secs: u64,
    /// Server host address. Defaults to "127.0.0.1".
    pub host: String,
    /// Server port number. Defaults to 3000.
    pub port: u16,
    pub http1_keep_alive: bool,
    pub http1_half_close: bool,
    /// Maximum buffer size for HTTP/1.x requests. Defaults to 512kb (524,288 bytes).
    pub http1_max_buf_size: usize,
    pub http1_pipeline_flush: bool,
    pub http1_writev: bool,
    pub http1_title_case_headers: bool,
    pub http1_preserve_header_case: bool,
    pub http1_only: bool,
    pub http2_only: bool,
    pub http2_initial_stream_window_size: Option<u32>,
    pub http2_initial_connection_window_size: Option<u32>,
    pub http2_adaptive_window: bool,
    pub http2_max_frame_size: Option<u32>,
    pub http2_max_concurrent_streams: Option<u32>,
    pub http2_max_send_buf_size: usize,
}

/// The settings that the configuration sources hold, each `None` where no
/// source sets it.
#[derive(Debug)]
pub struct ConfigValues {
    pub max_workers: Option<usize>,
    pub worker_keep_alive_secs: Option<u64>,
    pub host: Option<String>,
    pub port: Option<u16>,
    pub http1_keep_alive: Option<bool>,
    pub http1_half_close: Option<bool>,
    pub http1_max_buf_size: Option<usize>,
    pub http1_pipeline_flush: Option<bool>,
    pub http1_writev: Option<bool>,
    pub http1_title_case_headers: Option<bool>,
    pub http1_preserve_header_case: Option<bool>,
    pub http1_only: Option<bool>,
    pub http2_only: Option<bool>,
    pub http2_initial_stream_window_size: Option<u32>,
    pub http2_initial_connection_window_size: Option<u32>,
    pub http2_adaptive_window: Option<bool>,
    pub http2_max_frame_size: Option<u32>,
    pub http2_max_concurrent_streams: Option<u32>,
    pub http2_max_send_buf_size: Option<usize>,
}

/// The default number of worker threads: 15 per processor.
pub fn default_max_workers() -> (n: usize)
    ensures
        exists|cpus: usize| cpus >= 1 && n == crate::executor::spec_worker_limit(cpus as nat),
        n >= 15,
{
    let cpus = cpu_count();
    crate::executor::worker_limit_for(cpus)
}

/// The default keep-alive of an idle worker, in seconds.
pub fn default_keep_alive_secs() -> (secs: u64)
    ensures
        secs == 6,
{
    6
}

/// The default host address.
pub fn default_host() -> (host: String)
    ensures
        host@ == "127.0.0.1"@,
{
    String::from_str("127.0.0.1")
}

/// The default port.
pub fn default_port() -> (port: u16)
    ensures
        port == 3000,
{
    3000
}

/// The default maximum buffer size (512kb).
pub fn default_max_buf_size() -> (size: usize)
    ensures
        size == 524_288,
{
    524_288
}

/// The value of a setting, or `default` where none is set.
pub open spec fn or_default<T>(value: Option<T>, default: T) -> T {
    match value {
        Some(v) => v,
        None => default,
    }
}

/// The configuration that `values` give, each missing setting taking its
/// default.
pub open spec fn resolved_matches(values: ConfigValues, c: ServerConfig) -> bool {
    &&& values.max_workers matches Some(m) ==> c.max_workers == m
    &&& values.max_workers is None ==> exists|cpus: usize|
        cpus >= 1 && c.max_workers == crate::executor::spec_worker_limit(cpus as nat)
    &&& c.worker_keep_alive_secs == or_default(values.worker_keep_alive_secs, 6)
    &&& c.host@ == (match values.host {
        Some(h) => h@,
        None => "127.0.0.1"@,
    })
    &&& c.port == or_default(values.port, 3000)
    &&& c.http1_keep_alive == or_default(values.http1_keep_alive, true)
    &&& c.http1_half_close == or_default(values.http1_half_close, false)
    &&& c.http1_max_buf_size == or_default(values.http1_max_buf_size, 524_288)
    &&& c.http1_pipeline_flush == or_default(values.http1_pipeline_flush, false)
    &&& c.http1_writev == or_default(values.http1_writev, false)
    &&& c.http1_title_case_headers == or_default(values.http1_title_case_headers, false)
    &&& c.http1_preserve_header_case == or_default(values.http1_preserve_header_case, false)
    &&& c.http1_only == or_default(values.http1_only, false)
    &&& c.http2_only == or_default(values.http2_only, false)
    &&& c.http2_initial_stream_window_size == values.http2_initial_stream_window_size
    &&& c.http2_initial_connection_window_size == values.http2_initial_connection_window_size
    &&& c.http2_adaptive_window == or_default(values.http2_adaptive_window, true)
    &&& c.http2_max_frame_size == values.http2_max_frame_size
    &&& c.http2_max_concurrent_streams == values.http2_max_concurrent_streams
    &&& c.http2_max_send_buf_size == or_default(values.http2_max_send_buf_size, 524_288)
}

/// The character of a decimal digit.
pub open spec fn digit_char(d: nat) -> char {
    if d == 0 {
        '0'
    } else if d == 1 {
        '1'
    } else if d == 2 {
        '2'
    } else if d == 3 {
        '3'
    } else if d == 4 {
        '4'
    } else if d == 5 {
        '5'
    } else if d == 6 {
        '6'
    } else if d == 7 {
        '7'
    } else if d == 8 {
        '8'
    } else {
        '9'
    }
}

/// The decimal notation of `n`, without leading zeros.
pub open spec fn decimal(n: nat) -> Seq<char>
    decreases n,
{
    if n < 10 {
        seq![digit_char(n)]
    } else {
        decimal(n / 10) + seq![digit_char(n % 10)]
    }
}

/// Whether `c` is an ASCII decimal digit.
pub open spec fn is_ascii_digit(c: char) -> bool {
    '0' <= c && c <= '9'
}

/// The number that a string of ASCII digits denotes in base 10: each digit
/// is its distance from `'0'`.
pub open spec fn base10_value(s: Seq<char>) -> int
    decreases s.len(),
{
    if s.len() == 0 {
        0
    } else {
        10 * base10_value(s.drop_last()) + (s.last() as int - '0' as int)
    }
}

/// Each digit character is the ASCII digit of its value.
proof fn digit_char_is_ascii(d: nat)
    requires
        d < 10,
    ensures
        is_ascii_digit(digit_char(d)),
        digit_char(d) as int - '0' as int == d,
{
}

/// The decimal notation of `n` is made of ASCII digits, and read back in base
/// 10 it is `n`; it starts with a zero only for `n == 0`.
pub proof fn decimal_reads_back(n: nat)
    ensures
        forall|i: int| 0 <= i < decimal(n).len() ==> is_ascii_digit(#[trigger] decimal(n)[i]),
        base10_value(decimal(n)) == n,
        decimal(n).len() >= 1,
        n > 0 ==> decimal(n)[0] != '0',
    decreases n,
{
    if n < 10 {
        digit_char_is_ascii(n);
        let s = decimal(n);
        assert(s.drop_last() =~= Seq::<char>::empty());
        assert(base10_value(s.drop_last()) == 0);
        assert(base10_value(s) == 10 * base10_value(s.drop_last()) + (s.last() as int - '0' as int));
    } else {
        decimal_reads_back(n / 10);
        digit_char_is_ascii(n % 10);
        let s = decimal(n);
        assert(s.drop_last() =~= decimal(n / 10));
        assert(s.last() == digit_char(n % 10));
        assert(base10_value(s) == 10 * base10_value(s.drop_last()) + (s.last() as int - '0' as int));
        assert(n == 10 * (n / 10) + n % 10);
        assert forall|i: int| 0 <= i < s.len() implies is_ascii_digit(#[trigger] s[i]) by {
            if i < s.len() - 1 {
                assert(s[i] == decimal(n / 10)[i]);
            }
        }
    }
}

/// The one-character string of the digit `d`.
fn digit_str(d: u16) -> (s: &'static str)
    requires
        d < 10,
    ensures
        s@ == seq![digit_char(d as nat)],
{
    if d == 0 {
        proof { reveal_strlit("0"); }
        "0"
    } else if d == 1 {
        proof { reveal_strlit("1"); }
        "1"
    } else if d == 2 {
        proof { reveal_strlit("2"); }
        "2"
    } else if d == 3 {
        proof { reveal_strlit("3"); }
        "3"
    } else if d == 4 {
        proof { reveal_strlit("4"); }
        "4"
    } else if d == 5 {
        proof { reveal_strlit("5"); }
        "5"
    } else if d == 6 {
        proof { reveal_strlit("6"); }
        "6"
    } else if d == 7 {
        proof { reveal_strlit("7"); }
        "7"
    } else if d == 8 {
        proof { reveal_strlit("8"); }
        "8"
    } else {
        proof { reveal_strlit("9"); }
        "9"
    }
}

/// Appends the decimal notation of `n` to `s`.
fn push_decimal(s: &mut String, n: u16)
    ensures
        final(s)@ == old(s)@ + decimal(n as nat),
    decreases n,
{
    if n >= 10 {
        push_decimal(s, n / 10);
    }
    s.append(digit_str(n % 10));
    assert(final(s)@ =~= old(s)@ + decimal(n as nat));
}

impl ServerConfig {
    /// Builds the configuration from the settings that the sources hold.
    ///
    /// A missing setting takes its default: the default worker count for
    /// `max_workers` (computed only then), 6 seconds of worker keep-alive,
    /// host "127.0.0.1", port 3000, 524,288 bytes of HTTP/1 buffer, HTTP/1
    /// keep-alive on, HTTP/2 adaptive window on, 524,288 bytes of HTTP/2 send
    /// buffer, `false` for the other flags and `None` for the HTTP/2 limits.
    pub fn from_values(values: ConfigValues) -> (c: ServerConfig)
        ensures
            resolved_matches(values, c),
    {
        let max_workers = match values.max_workers {
            Some(m) => m,
            None => default_max_workers(),
        };
        let host = match values.host {
            Some(h) => h,
            None => default_host(),
        };
        ServerConfig {
            max_workers,
            worker_keep_alive_secs: match values.worker_keep_alive_secs {
                Some(s) => s,
                None => default_keep_alive_secs(),
            },
            host,
            port: match values.port {
                Some(p) => p,
                None => default_port(),
            },
            http1_keep_alive: match values.http1_keep_alive {
                Some(b) => b,
                None => true,
            },
            http1_half_close: match values.http1_half_close {
                Some(b) => b,
                None => false,
            },
            http1_max_buf_size: match values.http1_max_buf_size {
                Some(s) => s,
                None => default_max_buf_size(),
            },
            http1_pipeline_flush: match values.http1_pipeline_flush {
                Some(b) => b,
                None => false,
            },
            http1_writev: match values.http1_writev {
                Some(b) => b,
                None => false,
            },
            http1_title_case_headers: match values.http1_title_case_headers {
                Some(b) => b,
                None => false,
            },
            http1_preserve_header_case: match values.http1_preserve_header_case {
                Some(b) => b,
                None => false,
            },
            http1_only: match values.http1_only {
                Some(b) => b,
                None => false,
            },
            http2_only: match values.http2_only {
                Some(b) => b,
                None => false,
            },
            http2_initial_stream_window_size: values.http2_initial_stream_window_size,
            http2_initial_connection_window_size: values.http2_initial_connection_window_size,
            http2_adaptive_window: match values.http2_adaptive_window {
                Some(b) => b,
                None => true,
            },
            http2_max_frame_size: values.http2_max_frame_size,
            http2_max_concurrent_streams: values.http2_max_concurrent_streams,
            http2_max_send_buf_size: match values.http2_max_send_buf_size {
                Some(s) => s,
                None => default_max_buf_size(),
            },
        }
    }

    /// The worker keep-alive as a duration.
    pub fn worker_keep_alive(&self) -> (d: Duration)
        ensures
            d == duration_of_secs(self.worker_keep_alive_secs),
    {
        Duration::from_secs(self.worker_keep_alive_secs)
    }

    /// The address to bind: the host, a colon, and the port in decimal.
    pub fn bind_address(&self) -> (addr: String)
        ensures
            addr@ == self.host@ + seq![':'] + decimal(self.port as nat),
            base10_value(addr@.skip(self.host@.len() + 1int)) == self.port,
            forall|i: int|
                self.host@.len() + 1 <= i < addr@.len() ==> is_ascii_digit(#[trigger] addr@[i]),
    {
        let mut addr = String::from_str(self.host.as_str());
        proof { reveal_strlit(":"); }
        addr.append(":");
        push_decimal(&mut addr, self.port);
        proof {
            decimal_reads_back(self.port as nat);
            let d = decimal(self.port as nat);
            assert(addr@.skip(self.host@.len() + 1int) =~= d);
            assert forall|i: int|
                self.host@.len() + 1 <= i < addr@.len() implies is_ascii_digit(#[trigger] addr@[i]) by {
                assert(addr@[i] == d[i - self.host@.len() - 1]);
            }
        }
        addr
    }
}

impl Default for ServerConfig {
    /// The defaults of the configuration: 15 workers per processor, 10
    /// seconds of worker keep-alive, host "0.0.0.0", port 8080, HTTP/1
    /// keep-alive and vectored writes on, 512kb buffers, HTTP/2 adaptive
    /// window on, and everything else off or unset.
    fn default() -> (c: ServerConfig)
        ensures
            exists|cpus: usize| cpus >= 1 && c.max_workers == crate::executor::spec_worker_limit(cpus as nat),
            c.max_workers >= 15,
            c.worker_keep_alive_secs == 10,
            c.host@ == "0.0.0.0"@,
            c.port == 8080,
            c.http1_keep_alive,
            !c.http1_half_close,
            c.http1_max_buf_size == 524_288,
            !c.http1_pipeline_flush,
            c.http1_writev,
            !c.http1_title_case_headers,
            !c.http1_preserve_header_case,
            !c.http1_only,
            !c.http2_only,
            c.http2_initial_stream_window_size is None,
            c.http2_initial_connection_window_size is None,
            c.http2_adaptive_window,
            c.http2_max_frame_size is None,
            c.http2_max_concurrent_streams is None,
            c.http2_max_send_buf_size == 524_288,
    {
        ServerConfig {
            max_workers: crate::executor::worker_limit_for(cpu_count()),
            worker_keep_alive_secs: 10,
            host: String::from_str("0.0.0.0"),
            port: 8080,
            http1_keep_alive: true,
            http1_half_close: false,
            http1_max_buf_size: 524_288,
            http1_pipeline_flush: false,
            http1_writev: true,
            http1_title_case_headers: false,
            http1_preserve_header_case: false,
            http1_only: false,
            http2_only: false,
            http2_initial_stream_window_size: None,
            http2_initial_connection_window_size: None,
            http2_adaptive_window: true,
            http2_max_frame_size: None,
            http2_max_concurrent_streams: None,
            http2_max_send_buf_size: 524_288,
        }
    }
}

} // verus!
