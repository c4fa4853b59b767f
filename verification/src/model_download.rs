//! Model download planning: model names and URLs, byte ranges, resume
//! decisions, `Content-Range` parsing and human-readable sizes.
//!
//! The transfers themselves (HTTP requests, files, worker threads) are run by
//! the program around this library; every decision they take is made here.

use vstd::prelude::*;
use crate::config::{paraformer_model_dir_under, paraformer_model_dir_in};
use crate::paths::{
    home_dir_or_dot, join_path, path_file_name, path_join, path_parent, std_path_file_name,
    std_path_parent,
};
use crate::text::{
    contains, copy_str, decimal, from_chars, parse_u64, parse_unsigned, push_char, split_char,
    split_str, str_contains, str_eq, to_chars, u64_to_decimal,
};

verus! {

/// Lines of download log kept for display.
pub const DOWNLOAD_LOG_MAX_LINES: usize = 120;

/// Bytes requested per range request in a serial download (4 MiB).
pub const DOWNLOAD_CHUNK_SIZE: u64 = 4194304;

/// Bytes per part in a parallel download (16 MiB).
pub const DOWNLOAD_PARALLEL_CHUNK_SIZE: u64 = 16777216;

/// Most parts fetched at the same time.
pub const DOWNLOAD_MAX_CONCURRENT_REQUESTS: usize = 8;

/// Seconds without progress after which a request is abandoned.
pub const DOWNLOAD_NO_PROGRESS_TIMEOUT_SECS: u64 = 300;

/// Attempts per request before a download gives up.
pub const DOWNLOAD_MAX_RETRIES: usize = 6;

/// The receiving end of a download's event channel.
#[verifier::external_type_specification]
#[verifier::external_body]
#[verifier::reject_recursive_types(T)]
pub struct ExReceiver<T>(std::sync::mpsc::Receiver<T>);

/// What is known of a download in progress.
#[derive(Debug, Clone)]
pub struct DownloadState {
    pub model_size: String,
    pub model_file_name: String,
    pub downloaded: u64,
    pub total: Option<u64>,
    pub in_progress: bool,
}

/// A report from a running download.
#[derive(Debug, Clone)]
pub enum DownloadEvent {
    Started { model_size: String, model_file_name: String, downloaded: u64, total: Option<u64> },
    Progress { downloaded: u64, total: Option<u64> },
    Finished,
    Failed(String),
    Log(String),
}

/// A download that has been started: its first state, its event channel and
/// the log lines to show before the first event.
pub struct DownloadStart {
    pub state: DownloadState,
    pub rx: std::sync::mpsc::Receiver<DownloadEvent>,
    pub initial_logs: Vec<String>,
}

// ---------------------------------------------------------------------------
// Model names and locations
// ---------------------------------------------------------------------------

/// The Whisper model file for a model size name.
pub open spec fn model_file_name_for(size: Seq<char>) -> Option<Seq<char>> {
    if size == "large"@ || size == "large-v3"@ {
        Some("ggml-large-v3.bin"@)
    } else if size == "turbo"@ || size == "large-v3-turbo"@ {
        Some("ggml-large-v3-turbo.bin"@)
    } else if size == "medium"@ {
        Some("ggml-medium.bin"@)
    } else {
        None
    }
}

/// The model file for a size name (`large`, `large-v3`, `turbo`,
/// `large-v3-turbo` or `medium`).
pub fn resolve_model_file_name(model_size: &str) -> (r: Option<&'static str>)
    ensures
        r is Some <==> model_file_name_for(model_size@) is Some,
        r matches Some(n) ==> model_file_name_for(model_size@) == Some(n@),
{
    if str_eq(model_size, "large") || str_eq(model_size, "large-v3") {
        Some("ggml-large-v3.bin")
    } else if str_eq(model_size, "turbo") || str_eq(model_size, "large-v3-turbo") {
        Some("ggml-large-v3-turbo.bin")
    } else if str_eq(model_size, "medium") {
        Some("ggml-medium.bin")
    } else {
        None
    }
}

/// Where Whisper model files are published.
pub open spec fn whisper_model_base_url() -> Seq<char> {
    "https://huggingface.co/ggerganov/whisper.cpp/resolve/main/"@
}

/// The download URL of a Whisper model file.
pub fn model_download_url(model_file_name: &str) -> (r: String)
    ensures
        r@ == whisper_model_base_url() + model_file_name@,
{
    let mut r = String::from_str("https://huggingface.co/ggerganov/whisper.cpp/resolve/main/");
    r.append(model_file_name);
    r
}

/// The files that make up the Paraformer model.
pub open spec fn paraformer_files() -> Seq<Seq<char>> {
    seq!["encoder.onnx"@, "decoder.onnx"@, "tokens.txt"@]
}

/// The files that make up the Paraformer model, in download order.
pub fn paraformer_model_files() -> (r: Vec<&'static str>)
    ensures
        r@.map_values(|s: &'static str| s@) == paraformer_files(),
{
    let r = vec!["encoder.onnx", "decoder.onnx", "tokens.txt"];
    assert(r@.map_values(|s: &'static str| s@) =~= paraformer_files());
    r
}

/// The Paraformer model directory below the home directory (or `.` when
/// there is none).
pub fn paraformer_model_dir() -> (r: String)
    ensures
        exists|base: Seq<char>| r@ == paraformer_model_dir_under(base),
{
    let home = home_dir_or_dot();
    paraformer_model_dir_in(home.as_str())
}

/// Where the Paraformer model files are published.
pub open spec fn paraformer_base_url() -> Seq<char> {
    "https://huggingface.co/csukuangfj/sherpa-onnx-streaming-paraformer-bilingual-zh-en/resolve/main/"@
}

/// The download URL of a Paraformer model file.
pub fn paraformer_model_download_url(file_name: &str) -> (r: String)
    ensures
        r@ == paraformer_base_url() + file_name@,
{
    let mut r = String::from_str(
        "https://huggingface.co/csukuangfj/sherpa-onnx-streaming-paraformer-bilingual-zh-en/resolve/main/",
    );
    r.append(file_name);
    r
}

// ---------------------------------------------------------------------------
// Sizes reported by the server
// ---------------------------------------------------------------------------

/// A `Content-Length` of zero says nothing about the size.
pub fn normalize_content_length(content_length: Option<u64>) -> (r: Option<u64>)
    ensures
        r == (match content_length {
            Some(len) => if len > 0 { Some(len) } else { None },
            None => None,
        }),
{
    match content_length {
        Some(len) => if len > 0 { Some(len) } else { None },
        None => None,
    }
}

/// The text after the last `/` of a `Content-Range` value (all of it when
/// there is no `/`).
pub open spec fn content_range_total_text(s: Seq<char>) -> Seq<char> {
    split_char(s, '/').last()
}

/// The total size in a `Content-Range` value such as `bytes 0-1023/2048`:
/// the text after the last `/`, read as an unsigned number.
pub fn parse_total_from_content_range(content_range: &str) -> (r: Option<u64>)
    ensures
        r matches Some(v) ==> parse_unsigned(content_range_total_text(content_range@), u64::MAX as nat)
            == Some(v as nat),
        r is None ==> parse_unsigned(content_range_total_text(content_range@), u64::MAX as nat) is None,
{
    let pieces = split_str(content_range, '/');
    proof {
        crate::text::lemma_split_char_nonempty(content_range@, '/');
    }
    let last = &pieces[pieces.len() - 1];
    assert(last@ == pieces@.map_values(|p: String| p@).last());
    parse_u64(last.as_str())
}

// ---------------------------------------------------------------------------
// Parallel downloads
// ---------------------------------------------------------------------------

/// One byte range of a parallel download and the file it is written to.
#[derive(Debug, Clone)]
pub struct DownloadPartPlan {
    pub index: usize,
    pub start: u64,
    pub end: u64,
    pub path: String,
}

/// `s` padded on the left with `0` to at least four characters.
pub open spec fn zero_pad4(s: Seq<char>) -> Seq<char> {
    if s.len() >= 4 {
        s
    } else {
        Seq::new((4 - s.len()) as nat, |_i: int| '0') + s
    }
}

/// The file name of part `i`: `part-` and its number in at least four
/// digits.
pub open spec fn part_file_name(i: nat) -> Seq<char> {
    "part-"@ + zero_pad4(decimal(i))
}

/// `format!("part-{:04}", index)`.
pub fn part_file_name_of(index: usize) -> (r: String)
    ensures
        r@ == part_file_name(index as nat),
{
    let digits = u64_to_decimal(index as u64);
    let d = to_chars(digits.as_str());
    let mut r = String::from_str("part-");
    let ghost prefix = r@;
    let mut k: usize = d.len();
    while k < 4
        invariant
            d.len() <= k <= 4 || (d.len() > 4 && k == d.len()),
            r@ == prefix + Seq::new((k - d.len()) as nat, |_i: int| '0'),
        decreases 4 - k,
    {
        push_char(&mut r, '0');
        assert(r@ =~= prefix + Seq::new((k + 1 - d.len()) as nat, |_i: int| '0'));
        k = k + 1;
    }
    r.append(digits.as_str());
    assert(r@ =~= part_file_name(index as nat));
    r
}

/// The last byte of the part that starts at `start`: a whole chunk, or up to
/// the end of the file.
pub open spec fn part_end(start: int, chunk: int, total: int) -> int {
    if start + chunk - 1 < total - 1 {
        start + chunk - 1
    } else {
        total - 1
    }
}

/// The parts of a file of `total` bytes cut into chunks of `chunk` bytes:
/// part `i` covers `[i * chunk, min(i * chunk + chunk, total))`, the parts
/// together cover the file exactly, and part `i` is written to
/// `part-{i:04}` in `parts_dir`. An empty file or a zero chunk gives none.
pub fn build_parallel_download_plan(total_size: u64, chunk_size: u64, parts_dir: &str) -> (r: Vec<
    DownloadPartPlan,
>)
    requires
        chunk_size == 0 || total_size <= chunk_size * (usize::MAX as int),
    ensures
        (total_size == 0 || chunk_size == 0) ==> r@.len() == 0,
        (total_size > 0 && chunk_size > 0) ==> r@.len() > 0 && r@.last().end == total_size - 1,
        forall|i: int|
            #![trigger r@[i]]
            0 <= i < r@.len() ==> {
                &&& r@[i].index == i
                &&& r@[i].start == i * chunk_size
                &&& r@[i].start < total_size
                &&& r@[i].end == part_end(i * chunk_size, chunk_size as int, total_size as int)
                &&& r@[i].path@ == path_join(parts_dir@, part_file_name(i as nat))
            },
{
    let mut plans: Vec<DownloadPartPlan> = Vec::new();
    if total_size == 0 || chunk_size == 0 {
        return plans;
    }
    let mut start: u64 = 0;
    let mut index: usize = 0;
    while start < total_size
        invariant
            chunk_size > 0,
            total_size > 0,
            total_size <= chunk_size * (usize::MAX as int),
            start <= total_size,
            start < total_size ==> start == index * chunk_size,
            start == total_size ==> index > 0,
            plans@.len() == index,
            index > 0 ==> plans@[index - 1].end + 1 == start,
            forall|i: int|
                #![trigger plans@[i]]
                0 <= i < plans@.len() ==> {
                    &&& plans@[i].index == i
                    &&& plans@[i].start == i * chunk_size
                    &&& plans@[i].start < total_size
                    &&& plans@[i].end == part_end(i * chunk_size, chunk_size as int, total_size as int)
                    &&& plans@[i].path@ == path_join(parts_dir@, part_file_name(i as nat))
                },
        decreases total_size - start,
    {
        assert(index < usize::MAX) by (nonlinear_arith)
            requires
                start == index * chunk_size,
                start < total_size,
                total_size <= chunk_size * (usize::MAX as int),
                chunk_size > 0,
        ;
        let end: u64 = if chunk_size - 1 < total_size - 1 - start {
            start + chunk_size - 1
        } else {
            total_size - 1
        };
        let name = part_file_name_of(index);
        let path = join_path(parts_dir, name.as_str());
        plans.push(DownloadPartPlan { index, start, end, path });
        assert((index + 1) * chunk_size == index * chunk_size + chunk_size) by (nonlinear_arith);
        start = end + 1;
        index = index + 1;
    }
    plans
}

/// A parallel download is tried only for a fresh download of a file of at
/// least two parallel chunks.
pub open spec fn parallel_download_worthwhile(total_size: Option<u64>, resume_size: u64) -> bool {
    resume_size == 0 && (total_size matches Some(t) && t >= 2 * DOWNLOAD_PARALLEL_CHUNK_SIZE)
}

/// Whether to try a parallel download.
pub fn should_try_parallel_download(total_size: Option<u64>, resume_size: u64) -> (r: bool)
    ensures
        r == parallel_download_worthwhile(total_size, resume_size),
{
    resume_size == 0 && match total_size {
        Some(t) => t >= 2 * DOWNLOAD_PARALLEL_CHUNK_SIZE,
        None => false,
    }
}

/// Whether a plan of `parts` chunks is worth fetching in parallel: a plan of
/// fewer than two chunks falls back to a single request.
pub fn parallel_plan_usable(parts: usize) -> (r: bool)
    ensures
        r == (parts >= 2),
{
    parts >= 2
}

/// How many parts are fetched at once: all of them, but no more than
/// `DOWNLOAD_MAX_CONCURRENT_REQUESTS`, and at least one.
pub fn parallel_worker_count(parts: usize) -> (r: usize)
    ensures
        r == if parts == 0 {
            1
        } else if parts > DOWNLOAD_MAX_CONCURRENT_REQUESTS {
            DOWNLOAD_MAX_CONCURRENT_REQUESTS
        } else {
            parts
        },
{
    if parts == 0 {
        1
    } else if parts > DOWNLOAD_MAX_CONCURRENT_REQUESTS {
        DOWNLOAD_MAX_CONCURRENT_REQUESTS
    } else {
        parts
    }
}

// ---------------------------------------------------------------------------
// Single-file downloads
// ---------------------------------------------------------------------------

/// The temporary file a download into `dest` writes first: `<name>.part`
/// beside it (`model` when `dest` has no file name, `.` when it has no
/// parent).
pub open spec fn tmp_path_for(dest: Seq<char>) -> Seq<char> {
    let name = match std_path_file_name(dest) {
        Some(n) => n,
        None => "model"@,
    };
    let dir = match std_path_parent(dest) {
        Some(p) => p,
        None => "."@,
    };
    path_join(dir, name + ".part"@)
}

/// The temporary path of a download into `dest_path`.
pub fn paraformer_tmp_path(dest_path: &str) -> (r: String)
    ensures
        r@ == tmp_path_for(dest_path@),
{
    let name = match path_file_name(dest_path) {
        Some(n) => n,
        None => String::from_str("model"),
    };
    let dir = match path_parent(dest_path) {
        Some(p) => p,
        None => String::from_str("."),
    };
    let mut file = name;
    file.append(".part");
    join_path(dir.as_str(), file.as_str())
}

/// A file already on disk is kept only when it is not empty and its size is
/// the known remote size.
pub open spec fn reusable(existing_size: u64, total_size: Option<u64>) -> bool {
    existing_size > 0 && total_size == Some(existing_size)
}

/// Whether an existing file (or temporary file) is already the complete
/// download.
pub fn should_reuse_existing_download(existing_size: u64, total_size: Option<u64>) -> (r: bool)
    ensures
        r == reusable(existing_size, total_size),
{
    existing_size > 0 && match total_size {
        Some(t) => existing_size == t,
        None => false,
    }
}

// ---------------------------------------------------------------------------
// Human-readable sizes
// ---------------------------------------------------------------------------

/// 2^53: integers below it are exact as `f64`.
pub open spec fn f64_exact_limit() -> nat {
    9007199254740992
}

/// The power of two that scales `n` down to fewer than 54 significant bits.
pub open spec fn f64_unit(n: nat) -> nat
    decreases n,
{
    if n < f64_exact_limit() {
        1
    } else {
        2 * f64_unit(n / 2)
    }
}

/// The value of `n as f64`: `n` rounded to 53 significant bits, to
/// nearest, ties to even.
pub open spec fn f64_value(n: nat) -> nat {
    let u = f64_unit(n);
    let m = n / u;
    let r = n % u;
    if 2 * r > u || (2 * r == u && m % 2 == 1) {
        (m + 1) * u
    } else {
        m * u
    }
}

/// `x / d` rounded to the nearest integer, ties to even.
pub open spec fn div_round_even(x: nat, d: nat) -> nat {
    let q = x / d;
    let r = x % d;
    if 2 * r > d || (2 * r == d && q % 2 == 1) {
        q + 1
    } else {
        q
    }
}

/// `x / d` printed with two decimals, as `{:.2}` prints it.
pub open spec fn fixed2(x: nat, d: nat) -> Seq<char> {
    let q = div_round_even(100 * x, d);
    decimal(q / 100) + seq!['.', digit_char_of((q % 100) / 10), digit_char_of(q % 10)]
}

/// The digit character of `d < 10`.
pub open spec fn digit_char_of(d: nat) -> char {
    crate::text::digit_char(d)
}

/// What `format_bytes` shows: bytes below 1 KiB as a whole number of `B`,
/// larger sizes in `KB`, `MB` or `GB` (powers of 1024) with two decimals.
/// The unit is chosen on the size as an `f64`.
pub open spec fn format_bytes_spec(bytes: nat) -> Seq<char> {
    let v = f64_value(bytes);
    if v >= 1073741824 {
        fixed2(v, 1073741824) + " GB"@
    } else if v >= 1048576 {
        fixed2(v, 1048576) + " MB"@
    } else if v >= 1024 {
        fixed2(v, 1024) + " KB"@
    } else {
        decimal(bytes) + " B"@
    }
}

/// `n as f64`, as an exact integer.
fn f64_value_of(n: u64) -> (v: u128)
    ensures
        v as nat == f64_value(n as nat),
        v <= 36893488147419103232,
        n < 9007199254740992 ==> v == n,
        n >= 9007199254740992 ==> v >= 9007199254740992,
{
    let mut t: u64 = n;
    let mut u: u128 = 1;
    while t >= 9007199254740992
        invariant
            1 <= u <= 4096,
            u * t <= n,
            u >= 2 ==> t >= 4503599627370496,
            t as nat == (n as nat) / (u as nat),
            f64_unit(n as nat) == (u as nat) * f64_unit(t as nat),
        decreases t,
    {
        assert(u < 2048) by (nonlinear_arith)
            requires
                u * t <= n,
                t >= 9007199254740992,
                n <= 18446744073709551615u64,
        ;
        proof {
            vstd::arithmetic::div_mod::lemma_div_denominator(n as int, u as int, 2);
            assert(f64_unit(t as nat) == 2 * f64_unit((t / 2) as nat));
            let x = f64_unit((t / 2) as nat);
            assert((u as nat) * (2 * x) == ((u * 2) as nat) * x) by (nonlinear_arith);
            assert((u * 2) * (t / 2) <= u * t) by (nonlinear_arith)
                requires
                    u >= 1,
            ;
        }
        t = t / 2;
        u = u * 2;
    }
    assert(f64_unit(t as nat) == 1);
    assert(f64_unit(n as nat) == u) by (nonlinear_arith)
        requires
            f64_unit(n as nat) == (u as nat) * f64_unit(t as nat),
            f64_unit(t as nat) == 1,
    ;
    let r: u128 = (n as u128) % u;
    let m: u128 = t as u128;
    proof {
        vstd::arithmetic::div_mod::lemma_fundamental_div_mod(n as int, u as int);
        if n >= 9007199254740992 {
            assert(u >= 2);
            assert(m * u >= 9007199254740992) by (nonlinear_arith)
                requires
                    m >= 4503599627370496,
                    u >= 2,
            ;
        }
    }
    if 2 * r > u || (2 * r == u && m % 2 == 1) {
        assert((m + 1) * u <= 36893488147419103232) by (nonlinear_arith)
            requires
                m < 9007199254740992,
                u <= 4096,
        ;
        assert((m + 1) * u >= m * u) by (nonlinear_arith);
        (m + 1) * u
    } else {
        assert(m * u <= 36893488147419103232) by (nonlinear_arith)
            requires
                m < 9007199254740992,
                u <= 4096,
        ;
        m * u
    }
}

/// `x / d` with two decimals.
fn fixed2_of(x: u128, d: u128) -> (r: String)
    requires
        x <= 36893488147419103232,
        1024 <= d <= 1073741824,
    ensures
        r@ == fixed2(x as nat, d as nat),
{
    let y: u128 = 100 * x;
    let q0: u128 = y / d;
    let rem: u128 = y % d;
    assert(q0 <= y / 1024) by {
        vstd::arithmetic::div_mod::lemma_div_is_ordered_by_denominator(y as int, 1024, d as int);
    }
    let q: u128 = if 2 * rem > d || (2 * rem == d && q0 % 2 == 1) {
        q0 + 1
    } else {
        q0
    };
    assert(q as nat == div_round_even(100 * (x as nat), d as nat));
    let whole: u64 = (q / 100) as u64;
    let tens: u64 = ((q % 100) / 10) as u64;
    let ones: u64 = (q % 10) as u64;
    let mut r = u64_to_decimal(whole);
    push_char(&mut r, '.');
    push_char(&mut r, crate::text::digit_to_char(tens));
    push_char(&mut r, crate::text::digit_to_char(ones));
    r
}

/// A byte count for people: `500 B`, `2.00 KB`, `1.50 MB`, `3.25 GB`.
pub fn format_bytes(bytes: u64) -> (r: String)
    ensures
        r@ == format_bytes_spec(bytes as nat),
{
    let v = f64_value_of(bytes);
    if v >= 1073741824 {
        let mut r = fixed2_of(v, 1073741824);
        r.append(" GB");
        r
    } else if v >= 1048576 {
        let mut r = fixed2_of(v, 1048576);
        r.append(" MB");
        r
    } else if v >= 1024 {
        let mut r = fixed2_of(v, 1024);
        r.append(" KB");
        r
    } else {
        let mut r = u64_to_decimal(bytes);
        r.append(" B");
        r
    }
}

// ---------------------------------------------------------------------------
// Decisions taken while transferring
// ---------------------------------------------------------------------------

/// HTTP `206 Partial Content`.
pub const HTTP_PARTIAL_CONTENT: u16 = 206;

/// HTTP `416 Range Not Satisfiable`.
pub const HTTP_RANGE_NOT_SATISFIABLE: u16 = 416;

/// A `2xx` status.
pub open spec fn http_success(status: u16) -> bool {
    200 <= status <= 299
}

/// `StatusCode::is_success`.
pub fn is_http_success(status: u16) -> (r: bool)
    ensures
        r == http_success(status),
{
    200 <= status && status <= 299
}

/// The download is complete once the known size has been reached.
pub open spec fn download_complete(downloaded: u64, total: Option<u64>) -> bool {
    total matches Some(t) && downloaded >= t
}

/// Whether `downloaded` bytes complete a download of `total` bytes.
pub fn is_download_complete(downloaded: u64, total: Option<u64>) -> (r: bool)
    ensures
        r == download_complete(downloaded, total),
{
    match total {
        Some(t) => downloaded >= t,
        None => false,
    }
}

/// A send error whose text (lower-cased) mentions a proxy, a tunnel or the
/// loopback address is taken for a proxy failure.
pub open spec fn proxy_error_text(message: Seq<char>) -> bool {
    let m = crate::text::lower(message);
    contains(m, "proxy"@) || contains(m, "tunnel"@) || contains(m, "127.0.0.1:7892"@) || contains(m, "127.0.0.1"@)
}

/// Whether the text of a failed request points at the proxy.
pub fn is_likely_proxy_error(message: &str) -> (r: bool)
    ensures
        r == proxy_error_text(message@),
{
    let m = crate::text::str_lower(message);
    str_contains(m.as_str(), "proxy") || str_contains(m.as_str(), "tunnel") || str_contains(
        m.as_str(),
        "127.0.0.1:7892",
    ) || str_contains(m.as_str(), "127.0.0.1")
}

/// What to do after a request could not be sent.
#[derive(Debug, Clone, Copy, PartialEq, Eq, Structural)]
pub enum RequestFailure {
    /// The proxy seems to be at fault: build a client without it and retry.
    SwitchToDirect,
    /// Wait this many seconds and try again.
    RetryAfterSecs(u64),
    /// Attempts are used up.
    GiveUp,
}

/// A failed send through a proxy is retried once without it; otherwise the
/// request is retried after as many seconds as attempts made, until
/// `DOWNLOAD_MAX_RETRIES` attempts.
pub open spec fn request_failure_spec(attempt: usize, using_direct_client: bool, proxy_error: bool) -> RequestFailure {
    if !using_direct_client && proxy_error {
        RequestFailure::SwitchToDirect
    } else if attempt >= DOWNLOAD_MAX_RETRIES {
        RequestFailure::GiveUp
    } else {
        RequestFailure::RetryAfterSecs(attempt as u64)
    }
}

/// The decision after attempt number `attempt` failed to send.
pub fn on_request_failure(attempt: usize, using_direct_client: bool, proxy_error: bool) -> (r: RequestFailure)
    ensures
        r == request_failure_spec(attempt, using_direct_client, proxy_error),
{
    if !using_direct_client && proxy_error {
        RequestFailure::SwitchToDirect
    } else if attempt >= DOWNLOAD_MAX_RETRIES {
        RequestFailure::GiveUp
    } else {
        RequestFailure::RetryAfterSecs(attempt as u64)
    }
}

/// The same retry rule for a failure that is not a send error: retry after
/// `attempt` seconds while attempts remain.
pub open spec fn retry_spec(attempt: usize) -> Option<u64> {
    if attempt >= DOWNLOAD_MAX_RETRIES {
        None
    } else {
        Some(attempt as u64)
    }
}

/// Seconds to wait before the next attempt, or `None` when attempts are
/// used up.
pub fn retry_delay(attempt: usize) -> (r: Option<u64>)
    ensures
        r == retry_spec(attempt),
{
    if attempt >= DOWNLOAD_MAX_RETRIES {
        None
    } else {
        Some(attempt as u64)
    }
}

/// The byte range of the next serial request.
#[derive(Debug, Clone, Copy, PartialEq, Eq, Structural)]
pub struct ChunkRange {
    pub start: u64,
    pub end: u64,
    pub target_len: u64,
}

/// The last byte of the next request: a whole chunk from `downloaded`, cut
/// at the end of the file when its size is known.
pub open spec fn chunk_range_end(downloaded: u64, total: Option<u64>, chunk: u64) -> int {
    let chunk_end = if downloaded + chunk > u64::MAX {
        u64::MAX - 1
    } else {
        downloaded + chunk - 1
    };
    match total {
        Some(t) => if chunk_end < t - 1 { chunk_end } else { t - 1 },
        None => chunk_end,
    }
}

/// The next range to request, or `None` when the download is complete.
pub fn next_chunk_range(downloaded: u64, total: Option<u64>, chunk: u64) -> (r: Option<ChunkRange>)
    requires
        chunk > 0,
    ensures
        r is None <==> download_complete(downloaded, total),
        r matches Some(c) ==> {
            &&& c.start == downloaded
            &&& c.end == chunk_range_end(downloaded, total, chunk)
            &&& total is Some ==> c.start <= c.end
            &&& c.target_len == if c.start <= c.end { c.end - c.start + 1 } else { 1 }
        },
{
    if is_download_complete(downloaded, total) {
        return None;
    }
    let chunk_end = downloaded.saturating_add(chunk).saturating_sub(1);
    let end = match total {
        Some(t) => if chunk_end < t - 1 { chunk_end } else { t - 1 },
        None => chunk_end,
    };
    let target_len = end.saturating_sub(downloaded).saturating_add(1);
    Some(ChunkRange { start: downloaded, end, target_len })
}

/// The `Range` header value `bytes=<start>-<end>`.
pub open spec fn range_header_spec(start: nat, end: nat) -> Seq<char> {
    "bytes="@ + decimal(start) + "-"@ + decimal(end)
}

/// `format!("bytes={}-{}", start, end)`.
pub fn range_header_value(start: u64, end: u64) -> (r: String)
    ensures
        r@ == range_header_spec(start as nat, end as nat),
{
    let mut r = String::from_str("bytes=");
    let a = u64_to_decimal(start);
    r.append(a.as_str());
    r.append("-");
    let b = u64_to_decimal(end);
    r.append(b.as_str());
    r
}

/// How a response to a range request is handled.
#[derive(Debug, Clone, Copy, PartialEq, Eq, Structural)]
pub enum ChunkStatus {
    /// `416`: nothing is left in that range; the size may be in the reply.
    RangeNotSatisfiable,
    /// An error status, or a full reply to a resumed download: try again.
    Retry,
    /// The body can be read.
    Accept,
}

/// `416` ends the chunk; any other non-`2xx` status, and a resumed download
/// answered without `206`, is retried; anything else is read.
pub open spec fn chunk_status_spec(status: u16, downloaded: u64) -> ChunkStatus {
    if status == HTTP_RANGE_NOT_SATISFIABLE {
        ChunkStatus::RangeNotSatisfiable
    } else if !http_success(status) {
        ChunkStatus::Retry
    } else if downloaded > 0 && status != HTTP_PARTIAL_CONTENT {
        ChunkStatus::Retry
    } else {
        ChunkStatus::Accept
    }
}

/// Classifies the status of a reply to a serial range request.
pub fn classify_chunk_status(status: u16, downloaded: u64) -> (r: ChunkStatus)
    ensures
        r == chunk_status_spec(status, downloaded),
{
    if status == HTTP_RANGE_NOT_SATISFIABLE {
        ChunkStatus::RangeNotSatisfiable
    } else if !is_http_success(status) {
        ChunkStatus::Retry
    } else if downloaded > 0 && status != HTTP_PARTIAL_CONTENT {
        ChunkStatus::Retry
    } else {
        ChunkStatus::Accept
    }
}

/// The size of the file learnt from a reply when it was not known: the total
/// in `Content-Range`, else a non-zero `Content-Length`, counted from
/// `downloaded` for a `206` reply.
pub open spec fn learnt_total(
    content_range_total: Option<u64>,
    content_length: Option<u64>,
    partial: bool,
    downloaded: u64,
) -> Option<int> {
    match content_range_total {
        Some(t) => Some(t as int),
        None => match content_length {
            Some(len) => if len > 0 {
                if partial {
                    Some(downloaded + len)
                } else {
                    Some(len as int)
                }
            } else {
                None
            },
            None => None,
        },
    }
}

/// The size after a reply: a known size is kept, otherwise it is learnt
/// from the reply.
pub fn update_total_size(
    total: Option<u64>,
    content_range_total: Option<u64>,
    content_length: Option<u64>,
    partial: bool,
    downloaded: u64,
) -> (r: Option<u64>)
    requires
        content_length matches Some(len) ==> downloaded + len <= u64::MAX,
    ensures
        total is Some ==> r == total,
        total is None ==> (match learnt_total(content_range_total, content_length, partial, downloaded) {
            Some(t) => r == Some(t as u64),
            None => r is None,
        }),
{
    if total.is_some() {
        return total;
    }
    match content_range_total {
        Some(t) => Some(t),
        None => match normalize_content_length(content_length) {
            Some(len) => if partial {
                Some(downloaded + len)
            } else {
                Some(len)
            },
            None => None,
        },
    }
}

/// How many of `n` bytes just read belong to the chunk: never past its
/// target length.
pub fn bytes_to_write(n: usize, target_len: u64, written: u64) -> (r: usize)
    ensures
        written <= target_len ==> r == if (n as int) < target_len - written {
            n as int
        } else {
            target_len - written
        },
        written > target_len ==> r == 0,
{
    if written > target_len {
        return 0;
    }
    let remain: u64 = target_len - written;
    if (n as u64) < remain || (n as u128) < (remain as u128) {
        n
    } else {
        remain as usize
    }
}

/// After a chunk, the serial loop ends when nothing was written and the
/// download is complete or its size is unknown.
pub open spec fn serial_loop_done(chunk_written: u64, downloaded: u64, total: Option<u64>) -> bool {
    chunk_written == 0 && (download_complete(downloaded, total) || total is None)
}

/// Whether the serial loop stops after a chunk.
pub fn serial_download_finished(chunk_written: u64, downloaded: u64, total: Option<u64>) -> (r: bool)
    ensures
        r == serial_loop_done(chunk_written, downloaded, total),
{
    chunk_written == 0 && (is_download_complete(downloaded, total) || total.is_none())
}

/// The length of the part of `n` bytes just read that belongs to a chunk of
/// `target_len` bytes of which `written` are written.
pub open spec fn write_len(n: usize, target_len: u64, written: u64) -> int {
    if written > target_len {
        0
    } else if (n as int) < target_len - written {
        n as int
    } else {
        target_len - written
    }
}

/// What a read from a reply body gave.
#[derive(Debug, Clone, Copy, PartialEq, Eq, Structural)]
pub enum ReadEvent {
    /// This many bytes were read.
    Data(usize),
    /// The body is at its end.
    End,
    /// The read failed.
    Failed,
}

/// What to do after a read.
#[derive(Debug, Clone, Copy, PartialEq, Eq, Structural)]
pub enum ReadAction {
    /// Write this many of the bytes read; `last` when the chunk is then
    /// complete and reading stops.
    Write { count: usize, last: bool },
    /// Stop reading this reply and judge the chunk.
    EndOfChunk,
    /// Retry the request after this many seconds.
    RetryAfterSecs(u64),
    /// Attempts are used up.
    GiveUp,
}

/// A failure that is retried while attempts remain.
pub open spec fn retry_action(attempt: usize) -> ReadAction {
    match retry_spec(attempt) {
        Some(secs) => ReadAction::RetryAfterSecs(secs),
        None => ReadAction::GiveUp,
    }
}

/// Bytes that fit the chunk are written; nothing left to write, or the end
/// of the body, ends the chunk.
pub open spec fn data_action(n: usize, target_len: u64, written: u64) -> ReadAction {
    let w = write_len(n, target_len, written);
    if w == 0 {
        ReadAction::EndOfChunk
    } else {
        ReadAction::Write { count: w as usize, last: written + w >= target_len }
    }
}

/// A read during a serial download: a failed read after some bytes of the
/// chunk were written ends the chunk with what was written; with nothing
/// written it is retried while attempts remain.
pub open spec fn serial_read_spec(written: u64, target_len: u64, attempt: usize, e: ReadEvent) -> ReadAction {
    match e {
        ReadEvent::Data(n) => data_action(n, target_len, written),
        ReadEvent::End => ReadAction::EndOfChunk,
        ReadEvent::Failed => if written > 0 {
            ReadAction::EndOfChunk
        } else {
            retry_action(attempt)
        },
    }
}

/// A read during the download of one parallel part: a failed read is
/// retried while attempts remain.
pub open spec fn part_read_spec(written: u64, target_len: u64, attempt: usize, e: ReadEvent) -> ReadAction {
    match e {
        ReadEvent::Data(n) => data_action(n, target_len, written),
        ReadEvent::End => ReadAction::EndOfChunk,
        ReadEvent::Failed => retry_action(attempt),
    }
}

fn retry_read_action(attempt: usize) -> (r: ReadAction)
    ensures
        r == retry_action(attempt),
{
    match retry_delay(attempt) {
        Some(secs) => ReadAction::RetryAfterSecs(secs),
        None => ReadAction::GiveUp,
    }
}

fn data_read_action(n: usize, target_len: u64, written: u64) -> (r: ReadAction)
    ensures
        r == data_action(n, target_len, written),
{
    let w = bytes_to_write(n, target_len, written);
    if w == 0 {
        ReadAction::EndOfChunk
    } else {
        let last = (w as u128) + (written as u128) >= (target_len as u128);
        ReadAction::Write { count: w, last }
    }
}

/// Decides what to do after a read in the serial download of a chunk of
/// `target_len` bytes of which `written` are written, at attempt `attempt`.
pub fn serial_read_step(written: u64, target_len: u64, attempt: usize, event: ReadEvent) -> (r: ReadAction)
    ensures
        r == serial_read_spec(written, target_len, attempt, event),
{
    match event {
        ReadEvent::Data(n) => data_read_action(n, target_len, written),
        ReadEvent::End => ReadAction::EndOfChunk,
        ReadEvent::Failed => if written > 0 {
            ReadAction::EndOfChunk
        } else {
            retry_read_action(attempt)
        },
    }
}

/// Decides what to do after a read in the download of a parallel part.
pub fn part_read_step(written: u64, target_len: u64, attempt: usize, event: ReadEvent) -> (r: ReadAction)
    ensures
        r == part_read_spec(written, target_len, attempt, event),
{
    match event {
        ReadEvent::Data(n) => data_read_action(n, target_len, written),
        ReadEvent::End => ReadAction::EndOfChunk,
        ReadEvent::Failed => retry_read_action(attempt),
    }
}

/// How a chunk ends once its reply has been read.
#[derive(Debug, Clone, Copy, PartialEq, Eq, Structural)]
pub enum ChunkOutcome {
    /// The chunk is done with this many bytes written.
    Done(u64),
    /// Retry the request after this many seconds.
    RetryAfterSecs(u64),
    /// Attempts are used up.
    GiveUp,
}

/// A failure that is retried while attempts remain.
pub open spec fn retry_outcome(attempt: usize) -> ChunkOutcome {
    match retry_spec(attempt) {
        Some(secs) => ChunkOutcome::RetryAfterSecs(secs),
        None => ChunkOutcome::GiveUp,
    }
}

/// A serial chunk with bytes written is done; one with none is done when
/// the download is complete, else retried while attempts remain.
pub open spec fn serial_chunk_spec(written: u64, downloaded: u64, total: Option<u64>, attempt: usize) -> ChunkOutcome {
    if written > 0 || download_complete(downloaded, total) {
        ChunkOutcome::Done(written)
    } else {
        retry_outcome(attempt)
    }
}

/// A parallel part is done when all its bytes were written, else retried
/// while attempts remain.
pub open spec fn part_chunk_spec(written: u64, target_len: u64, attempt: usize) -> ChunkOutcome {
    if written == target_len {
        ChunkOutcome::Done(written)
    } else {
        retry_outcome(attempt)
    }
}

fn retry_chunk_outcome(attempt: usize) -> (r: ChunkOutcome)
    ensures
        r == retry_outcome(attempt),
{
    match retry_delay(attempt) {
        Some(secs) => ChunkOutcome::RetryAfterSecs(secs),
        None => ChunkOutcome::GiveUp,
    }
}

/// Judges a serial chunk after its reply was read.
pub fn serial_chunk_outcome(written: u64, downloaded: u64, total: Option<u64>, attempt: usize) -> (r: ChunkOutcome)
    ensures
        r == serial_chunk_spec(written, downloaded, total, attempt),
{
    if written > 0 || is_download_complete(downloaded, total) {
        ChunkOutcome::Done(written)
    } else {
        retry_chunk_outcome(attempt)
    }
}

/// Judges a parallel part after its reply was read.
pub fn part_chunk_outcome(written: u64, target_len: u64, attempt: usize) -> (r: ChunkOutcome)
    ensures
        r == part_chunk_spec(written, target_len, attempt),
{
    if written == target_len {
        ChunkOutcome::Done(written)
    } else {
        retry_chunk_outcome(attempt)
    }
}

/// How the reply to the range probe `bytes=0-0` is read.
#[derive(Debug, Clone, Copy, PartialEq, Eq, Structural)]
pub enum RangeProbe {
    Supported,
    Unsupported,
    RetryAfterSecs(u64),
}

/// `206` means ranges work; another `2xx` means they do not; an error
/// status is retried while attempts remain, then counts as unsupported.
pub open spec fn range_probe_spec(status: u16, attempt: usize) -> RangeProbe {
    if status == HTTP_PARTIAL_CONTENT {
        RangeProbe::Supported
    } else if http_success(status) {
        RangeProbe::Unsupported
    } else if attempt >= DOWNLOAD_MAX_RETRIES {
        RangeProbe::Unsupported
    } else {
        RangeProbe::RetryAfterSecs(attempt as u64)
    }
}

/// Reads the status of a range probe.
pub fn classify_range_probe(status: u16, attempt: usize) -> (r: RangeProbe)
    ensures
        r == range_probe_spec(status, attempt),
{
    if status == HTTP_PARTIAL_CONTENT {
        RangeProbe::Supported
    } else if is_http_success(status) {
        RangeProbe::Unsupported
    } else if attempt >= DOWNLOAD_MAX_RETRIES {
        RangeProbe::Unsupported
    } else {
        RangeProbe::RetryAfterSecs(attempt as u64)
    }
}

/// The size found by a `bytes=0-0` probe when `HEAD` gave none: the total in
/// `Content-Range`, else, for a full `2xx` reply, a non-zero
/// `Content-Length`.
pub fn probed_total_size(status: u16, content_range_total: Option<u64>, content_length: Option<u64>) -> (r: Option<u64>)
    ensures
        r == (match content_range_total {
            Some(t) => Some(t),
            None => if http_success(status) && status != HTTP_PARTIAL_CONTENT {
                match content_length {
                    Some(len) => if len > 0 { Some(len) } else { None },
                    None => None,
                }
            } else {
                None
            },
        }),
{
    match content_range_total {
        Some(t) => Some(t),
        None => if is_http_success(status) && status != HTTP_PARTIAL_CONTENT {
            normalize_content_length(content_length)
        } else {
            None
        },
    }
}

/// Why a file already at the destination is deleted before downloading.
#[derive(Debug, Clone, Copy, PartialEq, Eq, Structural)]
pub enum StaleFileReason {
    Empty,
    SizeMismatch,
    UnknownRemoteSize,
}

/// What to do with a file already at the destination of a single-file
/// download.
#[derive(Debug, Clone, Copy, PartialEq, Eq, Structural)]
pub enum ExistingFileDecision {
    Keep,
    Delete(StaleFileReason),
}

/// A complete file is kept; otherwise it is deleted, for being empty, for
/// differing from the remote size, or because that size is unknown.
pub open spec fn existing_file_spec(existing_size: u64, total: Option<u64>) -> ExistingFileDecision {
    if reusable(existing_size, total) {
        ExistingFileDecision::Keep
    } else if existing_size == 0 {
        ExistingFileDecision::Delete(StaleFileReason::Empty)
    } else if total is Some {
        ExistingFileDecision::Delete(StaleFileReason::SizeMismatch)
    } else {
        ExistingFileDecision::Delete(StaleFileReason::UnknownRemoteSize)
    }
}

/// Decides on a file already at the destination.
pub fn existing_file_decision(existing_size: u64, total: Option<u64>) -> (r: ExistingFileDecision)
    ensures
        r == existing_file_spec(existing_size, total),
{
    if should_reuse_existing_download(existing_size, total) {
        ExistingFileDecision::Keep
    } else if existing_size == 0 {
        ExistingFileDecision::Delete(StaleFileReason::Empty)
    } else if total.is_some() {
        ExistingFileDecision::Delete(StaleFileReason::SizeMismatch)
    } else {
        ExistingFileDecision::Delete(StaleFileReason::UnknownRemoteSize)
    }
}

/// What to do with the temporary file of a single-file download.
#[derive(Debug, Clone, Copy, PartialEq, Eq, Structural)]
pub enum TmpFileDecision {
    /// It is already complete: rename it into place.
    UseComplete,
    /// It exists but is empty: delete it and start afresh.
    DeleteEmpty,
    /// It is larger than the remote file: delete it and start afresh.
    DeleteOversized,
    /// Continue from its end.
    Resume,
    /// There is nothing to resume.
    Fresh,
}

/// The rule for a temporary file of `resume_size` bytes.
pub open spec fn tmp_file_spec(resume_size: u64, tmp_exists: bool, total: Option<u64>) -> TmpFileDecision {
    if resume_size > 0 && reusable(resume_size, total) {
        TmpFileDecision::UseComplete
    } else if resume_size == 0 && tmp_exists {
        TmpFileDecision::DeleteEmpty
    } else if total matches Some(t) && resume_size > t {
        TmpFileDecision::DeleteOversized
    } else if resume_size > 0 {
        TmpFileDecision::Resume
    } else {
        TmpFileDecision::Fresh
    }
}

/// Decides on the temporary file of a single-file download.
pub fn tmp_file_decision(resume_size: u64, tmp_exists: bool, total: Option<u64>) -> (r: TmpFileDecision)
    ensures
        r == tmp_file_spec(resume_size, tmp_exists, total),
{
    if resume_size > 0 && should_reuse_existing_download(resume_size, total) {
        TmpFileDecision::UseComplete
    } else if resume_size == 0 && tmp_exists {
        TmpFileDecision::DeleteEmpty
    } else if match total {
        Some(t) => resume_size > t,
        None => false,
    } {
        TmpFileDecision::DeleteOversized
    } else if resume_size > 0 {
        TmpFileDecision::Resume
    } else {
        TmpFileDecision::Fresh
    }
}

/// Consecutive serial chunks tile the file: the chunk after one of which
/// `target_len` bytes were written starts right after its end, and never
/// goes past the last byte of a file of known size.
pub proof fn law_chunks_are_contiguous(downloaded: u64, total: Option<u64>, chunk: u64)
    requires
        chunk > 0,
        !download_complete(downloaded, total),
    ensures
        ({
            let end = chunk_range_end(downloaded, total, chunk);
            &&& total matches Some(t) ==> downloaded <= end <= t - 1
            &&& end - downloaded + 1 <= chunk
        }),
{
}

// ---------------------------------------------------------------------------
// Local models
// ---------------------------------------------------------------------------

/// What `Path::extension` gives for a file name: the text after its last
/// `.`, unless there is no `.`, the only `.` starts the name, or the name
/// is `..`.
pub open spec fn file_extension(name: Seq<char>) -> Option<Seq<char>> {
    let parts = split_char(name, '.');
    if name == ".."@ || parts.len() < 2 || (parts.len() == 2 && parts[0].len() == 0) {
        None
    } else {
        Some(parts.last())
    }
}

/// A model file has the extension `bin`, in any case.
pub open spec fn is_model_file_name(name: Seq<char>) -> bool {
    file_extension(name) matches Some(e) && crate::text::eq_ignore_case(e, "bin"@)
}

/// Whether a file name is a Whisper model file (extension `bin`).
pub fn is_model_file(name: &str) -> (r: bool)
    ensures
        r == is_model_file_name(name@),
{
    let parts = split_str(name, '.');
    proof {
        crate::text::lemma_split_char_nonempty(name@, '.');
    }
    let ghost pv = crate::keyboard::args_view(parts@);
    if str_eq(name, "..") || parts.len() < 2 {
        return false;
    }
    if parts.len() == 2 && to_chars(parts[0].as_str()).len() == 0 {
        assert(pv[0] == parts@[0]@);
        return false;
    }
    let last = &parts[parts.len() - 1];
    assert(pv.last() == last@);
    crate::text::str_eq_ignore_case(last.as_str(), "bin")
}

/// Lexicographic order on characters (which is the byte order of UTF-8).
pub open spec fn lex_le(a: Seq<char>, b: Seq<char>) -> bool
    decreases a.len(),
{
    if a.len() == 0 {
        true
    } else if b.len() == 0 {
        false
    } else if a[0] != b[0] {
        a[0] < b[0]
    } else {
        lex_le(a.drop_first(), b.drop_first())
    }
}

/// Any two strings are ordered one way or the other.
pub proof fn lemma_lex_total(a: Seq<char>, b: Seq<char>)
    ensures
        lex_le(a, b) || lex_le(b, a),
    decreases a.len(),
{
    if a.len() > 0 && b.len() > 0 && a[0] == b[0] {
        lemma_lex_total(a.drop_first(), b.drop_first());
    }
}

/// The order is transitive.
pub proof fn lemma_lex_trans(a: Seq<char>, b: Seq<char>, c: Seq<char>)
    requires
        lex_le(a, b),
        lex_le(b, c),
    ensures
        lex_le(a, c),
    decreases a.len(),
{
    if a.len() > 0 && b.len() > 0 && c.len() > 0 && a[0] == b[0] && b[0] == c[0] {
        lemma_lex_trans(a.drop_first(), b.drop_first(), c.drop_first());
    }
}

/// `a <= b` on strings.
pub fn str_lex_le(a: &str, b: &str) -> (r: bool)
    ensures
        r == lex_le(a@, b@),
{
    let x = to_chars(a);
    let y = to_chars(b);
    let mut i: usize = 0;
    assert(a@.skip(0) =~= a@);
    assert(b@.skip(0) =~= b@);
    while i < x.len() && i < y.len() && x[i] == y[i]
        invariant
            i <= x@.len(),
            i <= y@.len(),
            x@ == a@,
            y@ == b@,
            lex_le(a@, b@) == lex_le(a@.skip(i as int), b@.skip(i as int)),
        decreases x@.len() - i,
    {
        assert(a@.skip(i as int).drop_first() =~= a@.skip(i + 1));
        assert(b@.skip(i as int).drop_first() =~= b@.skip(i + 1));
        i = i + 1;
    }
    if i == x.len() {
        true
    } else if i == y.len() {
        false
    } else {
        x[i] < y[i]
    }
}

/// Sorted in ascending order.
pub open spec fn sorted_lex(s: Seq<Seq<char>>) -> bool {
    forall|i: int, j: int| 0 <= i < j < s.len() ==> lex_le(s[i], s[j])
}

/// The model files among `names`, in their order.
pub open spec fn model_names_in(names: Seq<Seq<char>>) -> Seq<Seq<char>>
    decreases names.len(),
{
    if names.len() == 0 {
        Seq::empty()
    } else if is_model_file_name(names.last()) {
        model_names_in(names.drop_last()).push(names.last())
    } else {
        model_names_in(names.drop_last())
    }
}

/// The model files among the names of a directory's entries, sorted.
pub fn local_model_names(names: &Vec<String>) -> (r: Vec<String>)
    ensures
        sorted_lex(crate::keyboard::args_view(r@)),
        crate::keyboard::args_view(r@).to_multiset() == model_names_in(
            crate::keyboard::args_view(names@),
        ).to_multiset(),
{
    broadcast use vstd::seq_lib::group_to_multiset_ensures;

    let ghost nv = crate::keyboard::args_view(names@);
    let mut out: Vec<String> = Vec::new();
    let mut i: usize = 0;
    assert(nv.take(0) =~= Seq::<Seq<char>>::empty());
    assert(crate::keyboard::args_view(out@).to_multiset() =~= vstd::multiset::Multiset::<Seq<char>>::empty());
    while i < names.len()
        invariant
            i <= names@.len(),
            nv == crate::keyboard::args_view(names@),
            sorted_lex(crate::keyboard::args_view(out@)),
            crate::keyboard::args_view(out@).to_multiset() == model_names_in(nv.take(i as int)).to_multiset(),
        decreases names@.len() - i,
    {
        assert(nv.take(i + 1).drop_last() =~= nv.take(i as int));
        assert(nv.take(i + 1).last() == nv[i as int]);
        assert(nv[i as int] == names@[i as int]@);
        if is_model_file(names[i].as_str()) {
            let x = crate::text::copy_str(names[i].as_str());
            let ghost ov = crate::keyboard::args_view(out@);
            let mut k: usize = 0;
            while k < out.len() && str_lex_le(out[k].as_str(), x.as_str())
                invariant
                    k <= out@.len(),
                    ov == crate::keyboard::args_view(out@),
                    forall|t: int| 0 <= t < k ==> #[trigger] lex_le(ov[t], x@),
                decreases out@.len() - k,
            {
                assert(ov[k as int] == out@[k as int]@);
                k = k + 1;
            }
            proof {
                if k < out@.len() {
                    assert(ov[k as int] == out@[k as int]@);
                    lemma_lex_total(ov[k as int], x@);
                }
            }
            out.insert(k, x);
            proof {
                let nvw = crate::keyboard::args_view(out@);
                assert(nvw =~= ov.insert(k as int, x@));
                assert forall|a: int, b: int| 0 <= a < b < nvw.len() implies lex_le(nvw[a], nvw[b]) by {
                    if b < k {
                    } else if b == k {
                        assert(nvw[a] == ov[a]);
                    } else if a < k {
                        assert(nvw[a] == ov[a] && nvw[b] == ov[b - 1]);
                    } else if a == k {
                        assert(nvw[a] == x@ && nvw[b] == ov[b - 1]);
                        if b - 1 > k as int {
                            lemma_lex_trans(x@, ov[k as int], ov[b - 1]);
                        }
                    } else {
                        assert(nvw[a] == ov[a - 1] && nvw[b] == ov[b - 1]);
                    }
                }
                assert(model_names_in(nv.take(i + 1)) =~= model_names_in(nv.take(i as int)).push(x@));
                vstd::seq_lib::to_multiset_insert(ov, k as int, x@);
                vstd::seq_lib::to_multiset_build(model_names_in(nv.take(i as int)), x@);
            }
        } else {
            assert(model_names_in(nv.take(i + 1)) =~= model_names_in(nv.take(i as int)));
        }
        i = i + 1;
    }
    assert(nv.take(names@.len() as int) =~= nv);
    out
}

// ---------------------------------------------------------------------------
// Starting a download
// ---------------------------------------------------------------------------

/// What a download starts from: its first state, where it downloads from,
/// and the first lines of its log.
pub struct DownloadPlan {
    pub state: DownloadState,
    pub url: String,
    pub initial_logs: Vec<String>,
}

/// The error for a model size that has no model file.
pub open spec fn unsupported_size_message(size: Seq<char>) -> Seq<char> {
    "不支持的模型大小: "@ + size
}

/// Plans the download of the Whisper model of size `model_size` into
/// `model_dir`: an unknown size is refused; otherwise the state starts at
/// nothing downloaded, and the log shows the equivalent `curl` command.
pub fn plan_model_download(model_size: &str, model_dir: &str) -> (r: Result<DownloadPlan, String>)
    ensures
        model_file_name_for(model_size@) is None ==> (r matches Err(e) && e@
            == unsupported_size_message(model_size@)),
        model_file_name_for(model_size@) matches Some(file) ==> (r matches Ok(p) && {
            &&& p.state.model_size@ == model_size@
            &&& p.state.model_file_name@ == file
            &&& p.state.downloaded == 0
            &&& p.state.total is None
            &&& p.state.in_progress
            &&& p.url@ == whisper_model_base_url() + file
            &&& crate::keyboard::args_view(p.initial_logs@) == seq![
                "[start] 准备下载模型 "@ + model_size@,
                "[equiv] curl -fL -C - -o \""@ + model_dir@ + "/"@ + file + ".part\" \""@
                    + whisper_model_base_url() + file + "\""@,
            ]
        }),
{
    let file = match resolve_model_file_name(model_size) {
        Some(f) => f,
        None => {
            let mut e = String::from_str("不支持的模型大小: ");
            e.append(model_size);
            return Err(e);
        },
    };
    let url = model_download_url(file);
    let mut first = String::from_str("[start] 准备下载模型 ");
    first.append(model_size);
    let mut second = String::from_str("[equiv] curl -fL -C - -o \"");
    second.append(model_dir);
    second.append("/");
    second.append(file);
    second.append(".part\" \"");
    second.append(url.as_str());
    second.append("\"");
    assert(second@ =~= "[equiv] curl -fL -C - -o \""@ + model_dir@ + "/"@ + file@ + ".part\" \""@
        + whisper_model_base_url() + file@ + "\""@);
    let ghost (v1, v2) = (first@, second@);
    let logs = vec![first, second];
    assert(crate::keyboard::args_view(logs@) =~= seq![v1, v2]);
    let state = DownloadState {
        model_size: copy_str(model_size),
        model_file_name: String::from_str(file),
        downloaded: 0,
        total: None,
        in_progress: true,
    };
    Ok(DownloadPlan { state, url, initial_logs: logs })
}

/// Plans the download of the Paraformer model files into `model_dir`.
pub fn plan_paraformer_download(model_dir: &str) -> (r: DownloadPlan)
    ensures
        r.state.model_size@ == "paraformer"@,
        r.state.model_file_name@ == "encoder.onnx"@,
        r.state.downloaded == 0,
        r.state.total is None,
        r.state.in_progress,
        r.url@ == paraformer_base_url(),
        crate::keyboard::args_view(r.initial_logs@) == seq![
            "[start] 准备下载 Sherpa Paraformer 模型"@,
            "[dir] 模型目录: "@ + model_dir@,
            "[info] 将下载以下文件: encoder.onnx, decoder.onnx, tokens.txt"@,
        ],
{
    let first = String::from_str("[start] 准备下载 Sherpa Paraformer 模型");
    let mut second = String::from_str("[dir] 模型目录: ");
    second.append(model_dir);
    let third = String::from_str("[info] 将下载以下文件: encoder.onnx, decoder.onnx, tokens.txt");
    let ghost (v1, v2, v3) = (first@, second@, third@);
    let logs = vec![first, second, third];
    assert(crate::keyboard::args_view(logs@) =~= seq![v1, v2, v3]);
    let state = DownloadState {
        model_size: String::from_str("paraformer"),
        model_file_name: String::from_str("encoder.onnx"),
        downloaded: 0,
        total: None,
        in_progress: true,
    };
    let url = String::from_str(
        "https://huggingface.co/csukuangfj/sherpa-onnx-streaming-paraformer-bilingual-zh-en/resolve/main/",
    );
    DownloadPlan { state, url, initial_logs: logs }
}

} // verus!
