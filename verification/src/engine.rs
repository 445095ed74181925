//! The configuration of a benchmark run, derived from its options.

use crate::cli::Args;
use crate::request::{
    bytes_from_string, bytes_from_vec, bytes_view, method_from_str, parse_method, parse_uri,
    uri_from_str,
};
use crate::text::{trim, trim_str};
use bytes::Bytes;
use http::method::InvalidMethod;
use http::uri::InvalidUri;
use http::{Method, Uri};
use std::time::Duration;
use vstd::prelude::*;
use vstd::utf8::encode_utf8;

verus! {

#[verifier::external_type_specification]
#[verifier::external_body]
pub struct ExIoError(std::io::Error);

/// Whether `i` is the position of the first `:` in `h`.
pub open spec fn is_first_colon(h: Seq<char>, i: int) -> bool {
    &&& 0 <= i < h.len()
    &&& h[i] == ':'
    &&& forall|k: int| 0 <= k < i ==> h[k] != ':'
}

/// The name and value of the header line `h`: the trimmed text before and
/// after its first `:`, or `None` where it has none.
pub open spec fn header_parts(h: Seq<char>) -> Option<(Seq<char>, Seq<char>)> {
    if exists|i: int| is_first_colon(h, i) {
        let i = choose|i: int| is_first_colon(h, i);
        Some((trim(h.subrange(0, i)), trim(h.subrange(i + 1, h.len() as int))))
    } else {
        None
    }
}

/// The message for a header line `h` without a `:`.
pub open spec fn header_error_text(h: Seq<char>) -> Seq<char> {
    "invalid header format: '"@ + h + "' (expected 'Key: Value')"@
}

/// Splits the header line `h` ("Key: Value") at its first `:`, and trims both
/// parts.
pub fn parse_header(h: &str) -> (r: Option<(String, String)>)
    ensures
        match header_parts(h@) {
            None => r is None,
            Some((k, v)) => r matches Some((a, b)) && a@ == k && b@ == v,
        },
{
    let n = h.unicode_len();
    let mut i: usize = 0;
    while i < n && h.get_char(i) != ':'
        invariant
            n == h@.len(),
            0 <= i <= n,
            forall|k: int| 0 <= k < i ==> h@[k] != ':',
        decreases n - i,
    {
        i = i + 1;
    }
    if i == n {
        assert forall|j: int| !is_first_colon(h@, j) by {
            if 0 <= j < n {
                assert(h@[j] != ':');
            }
        }
        None
    } else {
        assert(is_first_colon(h@, i as int));
        assert forall|j: int| is_first_colon(h@, j) implies j == i by {
            if j < i {
                assert(h@[j] != ':');
            }
            if j > i {
                assert(h@[i as int] != ':');
            }
        }
        let key = trim_str(h.substring_char(0, i)).to_owned();
        let value = trim_str(h.substring_char(i + 1, n)).to_owned();
        Some((key, value))
    }
}

/// The message for a header line `h` without a `:`.
pub fn header_error_message(h: &str) -> (r: String)
    ensures
        r@ == header_error_text(h@),
{
    let mut m = String::from_str("invalid header format: '");
    m.append(h);
    m.append("' (expected 'Key: Value')");
    m
}

/// Whether every header line in `hs` has a `:`.
pub open spec fn headers_valid(hs: Seq<String>) -> bool {
    forall|i: int| 0 <= i < hs.len() ==> (#[trigger] header_parts(hs[i]@)) is Some
}

/// Whether `i` is the first header line in `hs` without a `:`.
pub open spec fn is_first_bad_header(hs: Seq<String>, i: int) -> bool {
    &&& 0 <= i < hs.len()
    &&& header_parts(hs[i]@) is None
    &&& forall|k: int| 0 <= k < i ==> (#[trigger] header_parts(hs[k]@)) is Some
}

/// Whether `pairs` are the names and values of the header lines `hs`, in order.
pub open spec fn headers_parsed(pairs: Seq<(String, String)>, hs: Seq<String>) -> bool {
    &&& pairs.len() == hs.len()
    &&& forall|i: int|
        0 <= i < hs.len() ==> header_parts(#[trigger] hs[i]@) == Some(
            (pairs[i].0@, pairs[i].1@),
        )
}

/// Splits every header line of `hs`; fails with the message for the first
/// line without a `:`.
pub fn parse_headers(hs: &Vec<String>) -> (r: Result<Vec<(String, String)>, String>)
    ensures
        match r {
            Ok(pairs) => headers_valid(hs@) && headers_parsed(pairs@, hs@),
            Err(m) => exists|i: int|
                is_first_bad_header(hs@, i) && m@ == header_error_text(#[trigger] hs@[i]@),
        },
{
    let mut pairs: Vec<(String, String)> = Vec::new();
    let n = hs.len();
    let mut i: usize = 0;
    while i < n
        invariant
            n == hs@.len(),
            0 <= i <= n,
            pairs@.len() == i,
            forall|k: int| 0 <= k < i ==> (#[trigger] header_parts(hs@[k]@)) is Some,
            forall|k: int|
                0 <= k < i ==> header_parts(#[trigger] hs@[k]@) == Some(
                    (pairs@[k].0@, pairs@[k].1@),
                ),
        decreases n - i,
    {
        let h = hs[i].as_str();
        match parse_header(h) {
            Some(pair) => {
                pairs.push(pair);
            },
            None => {
                let m = header_error_message(h);
                assert(is_first_bad_header(hs@, i as int));
                return Err(m);
            },
        }
        i = i + 1;
    }
    Ok(pairs)
}

/// The rate limit of each of `workers` workers that share a rate of `rate`
/// requests per second: an equal share, at least one; 0 (no limit) where the
/// rate is 0.
pub open spec fn worker_rate(rate: u64, workers: usize) -> u64 {
    if rate > 0 {
        let share = rate as nat / workers as nat;
        if share < 1 {
            1
        } else {
            share as u64
        }
    } else {
        0
    }
}

/// Each worker's share of the rate limit `rate`.
pub fn rate_per_worker(rate: u64, num_workers: usize) -> (r: u64)
    requires
        rate > 0 ==> num_workers > 0,
    ensures
        r == worker_rate(rate, num_workers),
{
    if rate > 0 {
        let share = rate / (num_workers as u64);
        if share < 1 {
            1
        } else {
            share
        }
    } else {
        0
    }
}

/// Whether the body of the request comes from a file: where no body is
/// given and a body file is.
pub open spec fn reads_body_file(args: Args) -> bool {
    args.body is None && args.body_file is Some
}

/// The file to read the request body from, if the body comes from one.
pub fn body_file_to_read(args: &Args) -> (r: Option<&String>)
    ensures
        r is Some <==> reads_body_file(*args),
        r matches Some(p) ==> args.body_file == Some(*p),
{
    match &args.body {
        Some(_) => None,
        None => match &args.body_file {
            Some(p) => Some(p),
            None => None,
        },
    }
}

/// Why the options could not be turned into a configuration.
#[derive(Debug)]
pub enum ConfigError {
    /// The URL is no URI.
    InvalidUri(InvalidUri),
    /// The method is no HTTP method.
    InvalidMethod(InvalidMethod),
    /// A header has no `:`; the message says which.
    InvalidHeader(String),
    /// The body file could not be read.
    BodyFile(std::io::Error),
}

/// Configuration derived from the options, shared across workers.
#[derive(Clone)]
pub struct BenchConfig {
    pub uri: Uri,
    pub method: Method,
    pub headers: Vec<(String, String)>,
    pub body: Option<Bytes>,
    pub duration: Duration,
    pub timeout: Duration,
    pub http2: bool,
    pub rate_per_worker: u64,
}

/// Whether `body` is the request body that `args` asks for, where
/// `file_body` is what reading the body file gave.
pub open spec fn body_matches(
    body: Option<Bytes>,
    args: Args,
    file_body: Option<Result<Vec<u8>, std::io::Error>>,
) -> bool {
    match args.body {
        Some(b) => body matches Some(x) && bytes_view(x) == encode_utf8(b@),
        None => match file_body {
            Some(Ok(v)) => body matches Some(x) && bytes_view(x) == v@,
            _ => body is None,
        },
    }
}

/// Whether the URL, the method, every header and the body file pass the
/// checks of `from_args`.
pub open spec fn config_checks_pass(
    args: Args,
    file_body: Option<Result<Vec<u8>, std::io::Error>>,
) -> bool {
    &&& uri_from_str(args.url@) is Some
    &&& method_from_str(args.method@) is Some
    &&& headers_valid(args.headers@)
    &&& !(file_body matches Some(Err(_)))
}

/// Whether `r` is what `from_args` gives for `args`, `num_workers` workers and
/// the body file read `file_body`: the configuration they describe, or the
/// first failed check.
pub open spec fn from_args_result(
    args: Args,
    num_workers: usize,
    file_body: Option<Result<Vec<u8>, std::io::Error>>,
    r: Result<BenchConfig, ConfigError>,
) -> bool {
    match r {
        Ok(c) => {
            &&& uri_from_str(args.url@) == Some(c.uri)
            &&& method_from_str(args.method@) == Some(c.method)
            &&& headers_valid(args.headers@)
            &&& headers_parsed(c.headers@, args.headers@)
            &&& !(file_body matches Some(Err(_)))
            &&& body_matches(c.body, args, file_body)
            &&& c.duration == args.duration
            &&& c.timeout == args.timeout
            &&& c.http2 == args.http2
            &&& c.rate_per_worker == worker_rate(args.rate, num_workers)
        },
        Err(ConfigError::InvalidUri(_)) => uri_from_str(args.url@) is None,
        Err(ConfigError::InvalidMethod(_)) => {
            &&& uri_from_str(args.url@) is Some
            &&& method_from_str(args.method@) is None
        },
        Err(ConfigError::InvalidHeader(m)) => {
            &&& uri_from_str(args.url@) is Some
            &&& method_from_str(args.method@) is Some
            &&& exists|i: int|
                is_first_bad_header(args.headers@, i) && m@ == header_error_text(
                    #[trigger] args.headers@[i]@,
                )
        },
        Err(ConfigError::BodyFile(_)) => {
            &&& uri_from_str(args.url@) is Some
            &&& method_from_str(args.method@) is Some
            &&& headers_valid(args.headers@)
            &&& file_body matches Some(Err(_))
        },
    }
}

impl BenchConfig {
    /// The configuration that `args` describes for `num_workers` workers.
    /// `file_body` is what reading the body file gave, where the body comes
    /// from one (`body_file_to_read`). The URL, then the method, then each
    /// header, then the body file are checked, and the first failure is
    /// returned. Where all pass and there is a rate limit, the rate is shared
    /// among the workers, so there must be some.
    pub fn from_args(
        args: &Args,
        num_workers: usize,
        file_body: Option<Result<Vec<u8>, std::io::Error>>,
    ) -> (r: Result<Self, ConfigError>)
        requires
            args.rate > 0 && num_workers == 0 ==> !config_checks_pass(*args, file_body),
            file_body is Some <==> reads_body_file(*args),
        ensures
            from_args_result(*args, num_workers, file_body, r),
    {
        let uri = match parse_uri(args.url.as_str()) {
            Ok(u) => u,
            Err(e) => return Err(ConfigError::InvalidUri(e)),
        };
        let method = match parse_method(args.method.as_str()) {
            Ok(m) => m,
            Err(e) => return Err(ConfigError::InvalidMethod(e)),
        };
        let headers = match parse_headers(&args.headers) {
            Ok(pairs) => pairs,
            Err(m) => return Err(ConfigError::InvalidHeader(m)),
        };
        let body = match &args.body {
            Some(b) => Some(bytes_from_string(b.clone())),
            None => match file_body {
                Some(Ok(v)) => Some(bytes_from_vec(v)),
                Some(Err(e)) => return Err(ConfigError::BodyFile(e)),
                None => None,
            },
        };
        let rate = rate_per_worker(args.rate, num_workers);
        Ok(BenchConfig {
            uri,
            method,
            headers,
            body,
            duration: args.duration,
            timeout: args.timeout,
            http2: args.http2,
            rate_per_worker: rate,
        })
    }

    /// `from_args`, where it can run: `None` where all checks pass and a rate
    /// limit is to be shared among no workers; otherwise what `from_args`
    /// gives.
    pub fn try_from_args(
        args: &Args,
        num_workers: usize,
        file_body: Option<Result<Vec<u8>, std::io::Error>>,
    ) -> (r: Option<Result<Self, ConfigError>>)
        requires
            file_body is Some <==> reads_body_file(*args),
        ensures
            r is None <==> (args.rate > 0 && num_workers == 0 && config_checks_pass(
                *args,
                file_body,
            )),
            r matches Some(x) ==> from_args_result(*args, num_workers, file_body, x),
    {
        if args.rate > 0 && num_workers == 0 {
            match Self::from_args(args, 1, file_body) {
                Ok(_) => None,
                Err(e) => Some(Err(e)),
            }
        } else {
            Some(Self::from_args(args, num_workers, file_body))
        }
    }
}

/// Whether `url` is a URI, as the program checks before it starts.
pub fn url_is_valid(url: &str) -> (r: bool)
    ensures
        r == (uri_from_str(url@) is Some),
{
    match parse_uri(url) {
        Ok(_) => true,
        Err(_) => false,
    }
}

/// Every worker gets at least one request per second, and where the target
/// rate leaves each worker at least one, the workers together stay within it.
pub proof fn lemma_worker_rates_within_target(rate: u64, workers: usize)
    requires
        rate > 0,
        workers > 0,
    ensures
        worker_rate(rate, workers) >= 1,
        rate >= workers ==> worker_rate(rate, workers) * workers <= rate,
        rate < workers ==> worker_rate(rate, workers) == 1,
{
    let r = rate as nat;
    let w = workers as nat;
    assert((r / w) * w <= r) by (nonlinear_arith)
        requires
            w > 0,
    ;
    if r >= w {
        assert(r / w >= 1) by (nonlinear_arith)
            requires
                r >= w,
                w > 0,
        ;
    } else {
        assert(r / w == 0) by (nonlinear_arith)
            requires
                r < w,
                w > 0,
        ;
    }
}

} // verus!
