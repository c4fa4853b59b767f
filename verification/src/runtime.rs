//! Runtime bookkeeping of the background service: where its files live,
//! which process holds the run lock, and the tail of its log.
//!
//! Locks, files and processes are handled by the program around this
//! library, which reports what it found and gets the decisions back.

use vstd::prelude::*;
use crate::keyboard::{args_view, join_strings, join_with};
use crate::paths::{home_dir, join_path, path_join};
use crate::text::{
    contains, from_chars_range, parse_u64, parse_unsigned, split_char, split_str, str_contains,
    to_chars, trim, trim_str,
};

verus! {

/// The run lock file, which also holds the running service's pid.
pub const RUN_LOCK_FILE_NAME: &'static str = "echopup.lock";

/// The background service's log file.
pub const RUN_LOG_FILE_NAME: &'static str = "echopup.log";

/// Checks for a started service before giving up.
pub const START_WAIT_RETRY: usize = 40;

/// Milliseconds between those checks.
pub const START_WAIT_INTERVAL_MS: u64 = 50;

/// Checks for a stopped service before giving up.
pub const STOP_WAIT_RETRY: usize = 50;

/// Milliseconds between those checks.
pub const STOP_WAIT_INTERVAL_MS: u64 = 100;

/// The error when no home directory can be found.
pub open spec fn no_home_message() -> Seq<char> {
    "无法获取用户目录"@
}

/// The service's directory below `home`.
pub open spec fn runtime_dir_under(home: Seq<char>) -> Seq<char> {
    path_join(home, ".echopup"@)
}

/// The model directory below `home`.
pub open spec fn model_dir_under(home: Seq<char>) -> Seq<char> {
    path_join(runtime_dir_under(home), "models"@)
}

/// The log file below `home`.
pub open spec fn log_path_under(home: Seq<char>) -> Seq<char> {
    path_join(runtime_dir_under(home), "echopup.log"@)
}

/// The trigger socket below `home`.
pub open spec fn socket_path_under(home: Seq<char>) -> Seq<char> {
    path_join(runtime_dir_under(home), "trigger.sock"@)
}

/// The lock file below `home`.
pub open spec fn lock_path_under(home: Seq<char>) -> Seq<char> {
    path_join(runtime_dir_under(home), "echopup.lock"@)
}

/// `~/.echopup` for a given home directory.
pub fn runtime_dir_in(home: &str) -> (r: String)
    ensures
        r@ == runtime_dir_under(home@),
{
    join_path(home, ".echopup")
}

/// `~/.echopup/models` for a given home directory.
pub fn model_dir_in(home: &str) -> (r: String)
    ensures
        r@ == model_dir_under(home@),
{
    let d = runtime_dir_in(home);
    join_path(d.as_str(), "models")
}

/// `~/.echopup/echopup.log` for a given home directory.
pub fn background_log_path_in(home: &str) -> (r: String)
    ensures
        r@ == log_path_under(home@),
{
    let d = runtime_dir_in(home);
    join_path(d.as_str(), "echopup.log")
}

/// `~/.echopup/trigger.sock` for a given home directory.
pub fn trigger_socket_path_in(home: &str) -> (r: String)
    ensures
        r@ == socket_path_under(home@),
{
    let d = runtime_dir_in(home);
    join_path(d.as_str(), "trigger.sock")
}

/// `~/.echopup/echopup.lock` for a given home directory.
pub fn lock_file_path_in(home: &str) -> (r: String)
    ensures
        r@ == lock_path_under(home@),
{
    let d = runtime_dir_in(home);
    join_path(d.as_str(), "echopup.lock")
}

/// The service's directory, or an error when there is no home directory.
pub fn runtime_dir_path() -> (r: Result<String, String>)
    ensures
        r matches Ok(p) ==> exists|home: Seq<char>| p@ == runtime_dir_under(home),
        r matches Err(e) ==> e@ == no_home_message(),
{
    match home_dir() {
        Some(h) => Ok(runtime_dir_in(h.as_str())),
        None => Err(String::from_str("无法获取用户目录")),
    }
}

/// The directory that holds the models.
pub fn model_dir() -> (r: Result<String, String>)
    ensures
        r matches Ok(p) ==> exists|home: Seq<char>| p@ == model_dir_under(home),
        r matches Err(e) ==> e@ == no_home_message(),
{
    match home_dir() {
        Some(h) => Ok(model_dir_in(h.as_str())),
        None => Err(String::from_str("无法获取用户目录")),
    }
}

/// The background service's log file.
pub fn background_log_path() -> (r: Result<String, String>)
    ensures
        r matches Ok(p) ==> exists|home: Seq<char>| p@ == log_path_under(home),
        r matches Err(e) ==> e@ == no_home_message(),
{
    match home_dir() {
        Some(h) => Ok(background_log_path_in(h.as_str())),
        None => Err(String::from_str("无法获取用户目录")),
    }
}

/// The socket on which the service takes trigger actions. Its directory
/// must exist before the socket is bound.
pub fn trigger_socket_path() -> (r: Result<String, String>)
    ensures
        r matches Ok(p) ==> exists|home: Seq<char>| p@ == socket_path_under(home),
        r matches Err(e) ==> e@ == no_home_message(),
{
    match home_dir() {
        Some(h) => Ok(trigger_socket_path_in(h.as_str())),
        None => Err(String::from_str("无法获取用户目录")),
    }
}

/// The run lock file.
pub fn lock_file_path() -> (r: Result<String, String>)
    ensures
        r matches Ok(p) ==> exists|home: Seq<char>| p@ == lock_path_under(home),
        r matches Err(e) ==> e@ == no_home_message(),
{
    match home_dir() {
        Some(h) => Ok(lock_file_path_in(h.as_str())),
        None => Err(String::from_str("无法获取用户目录")),
    }
}

// ---------------------------------------------------------------------------
// The lock file's pid
// ---------------------------------------------------------------------------

/// The pid in the lock file: its trimmed text read as a `u32`.
pub fn parse_pid(content: &str) -> (r: Option<u32>)
    ensures
        r matches Some(v) ==> parse_unsigned(trim(content@), u32::MAX as nat) == Some(v as nat),
        r is None ==> parse_unsigned(trim(content@), u32::MAX as nat) is None,
{
    let t = trim_str(content);
    match parse_u64(t.as_str()) {
        Some(v) => if v <= u32::MAX as u64 {
            Some(v as u32)
        } else {
            None
        },
        None => None,
    }
}

// ---------------------------------------------------------------------------
// Which process holds the lock
// ---------------------------------------------------------------------------

/// What a process is, judged by its command line.
#[derive(Clone, Copy, Debug, PartialEq, Eq, Structural)]
pub enum ProcessIdentity {
    Match,
    Mismatch,
    Unknown,
}

/// A process whose (lower-cased) command line is `cmd`: unknown when there
/// is none or it is blank, a mismatch when it is not echopup, a match when
/// it contains `fragment`, unknown otherwise.
pub open spec fn identity_spec(cmd: Option<Seq<char>>, fragment: Seq<char>) -> ProcessIdentity {
    match cmd {
        None => ProcessIdentity::Unknown,
        Some(c) => {
            let t = trim(c);
            if t.len() == 0 {
                ProcessIdentity::Unknown
            } else if !contains(t, "echopup"@) {
                ProcessIdentity::Mismatch
            } else if contains(t, fragment) {
                ProcessIdentity::Match
            } else {
                ProcessIdentity::Unknown
            }
        },
    }
}

/// Classifies a process from its lower-cased command line (`None` when
/// `ps` could not tell).
pub fn classify_process(cmd: Option<&str>, mode_fragment: &str) -> (r: ProcessIdentity)
    ensures
        r == identity_spec(
            match cmd {
                Some(c) => Some(c@),
                None => None,
            },
            mode_fragment@,
        ),
{
    match cmd {
        None => ProcessIdentity::Unknown,
        Some(c) => {
            let t = trim_str(c);
            if to_chars(t.as_str()).len() == 0 {
                ProcessIdentity::Unknown
            } else if !str_contains(t.as_str(), "echopup") {
                ProcessIdentity::Mismatch
            } else if str_contains(t.as_str(), mode_fragment) {
                ProcessIdentity::Match
            } else {
                ProcessIdentity::Unknown
            }
        },
    }
}

/// Whether a process is the `echopup run` service.
pub fn run_process_identity(cmd: Option<&str>) -> (r: ProcessIdentity)
    ensures
        r == identity_spec(
            match cmd {
                Some(c) => Some(c@),
                None => None,
            },
            " run"@,
        ),
{
    classify_process(cmd, " run")
}

/// Stopping the lock holder is refused when it is not an echopup process.
pub fn may_stop_lock_holder(identity: ProcessIdentity) -> (r: bool)
    ensures
        r == (identity != ProcessIdentity::Mismatch),
{
    identity != ProcessIdentity::Mismatch
}

/// One check while waiting for a background start.
#[derive(Clone, Copy, Debug, PartialEq, Eq, Structural)]
pub enum StartCheck {
    /// The service holds the run lock.
    Started,
    /// The child is still an echopup process: wait and check again.
    KeepWaiting,
    /// The child's pid now belongs to another program.
    NotEchopup,
    /// The child is gone.
    Exited,
}

/// The service has started once the lock is held by the child, or by a
/// process that is not known to be something else; otherwise the child is
/// looked at: still echopup, something else, or gone.
pub open spec fn start_check_spec(
    lock_pid: Option<u32>,
    expected_pid: u32,
    lock_holder: ProcessIdentity,
    child_cmd: Option<Seq<char>>,
) -> StartCheck {
    if lock_pid matches Some(p) && (p == expected_pid || lock_holder != ProcessIdentity::Mismatch) {
        StartCheck::Started
    } else {
        match child_cmd {
            Some(c) => if contains(c, "echopup"@) {
                StartCheck::KeepWaiting
            } else {
                StartCheck::NotEchopup
            },
            None => StartCheck::Exited,
        }
    }
}

/// Decides one check while waiting for the background service to start:
/// `lock_pid` is the pid in the held lock, `lock_holder` what that process
/// is, and `child_cmd` the lower-cased command line of the started child.
pub fn start_check(
    lock_pid: Option<u32>,
    expected_pid: u32,
    lock_holder: ProcessIdentity,
    child_cmd: Option<&str>,
) -> (r: StartCheck)
    ensures
        r == start_check_spec(
            lock_pid,
            expected_pid,
            lock_holder,
            match child_cmd {
                Some(c) => Some(c@),
                None => None,
            },
        ),
{
    if let Some(p) = lock_pid {
        if p == expected_pid || lock_holder != ProcessIdentity::Mismatch {
            return StartCheck::Started;
        }
    }
    match child_cmd {
        Some(c) => if str_contains(c, "echopup") {
            StartCheck::KeepWaiting
        } else {
            StartCheck::NotEchopup
        },
        None => StartCheck::Exited,
    }
}

// ---------------------------------------------------------------------------
// The tail of the log
// ---------------------------------------------------------------------------

/// A line without the `\r` of a `\r\n` ending.
pub open spec fn strip_cr(p: Seq<char>) -> Seq<char> {
    if p.len() > 0 && p.last() == '\r' {
        p.drop_last()
    } else {
        p
    }
}

/// What `str::lines` yields: the text split at `\n`, each line ended by it
/// without a `\r` before it, and no empty line after a final `\n`.
pub open spec fn lines_of(s: Seq<char>) -> Seq<Seq<char>> {
    let parts = split_char(s, '\n');
    let body = parts.drop_last().map_values(|p: Seq<char>| strip_cr(p));
    if parts.last().len() == 0 {
        body
    } else {
        body.push(parts.last())
    }
}

/// The last `n` lines of a text joined with `\n` (all of them when there
/// are fewer).
pub open spec fn recent_lines_spec(s: Seq<char>, n: nat) -> Seq<char> {
    let ls = lines_of(s);
    let start = if ls.len() > n { ls.len() - n } else { 0 };
    join_with(ls.skip(start), "\n"@)
}

fn strip_cr_string(p: &String) -> (r: String)
    ensures
        r@ == strip_cr(p@),
{
    let c = to_chars(p.as_str());
    if c.len() > 0 && c[c.len() - 1] == '\r' {
        from_chars_range(&c, 0, c.len() - 1)
    } else {
        from_chars_range(&c, 0, c.len())
    }
}

/// `content.lines()` as strings.
pub fn lines_vec(content: &str) -> (r: Vec<String>)
    ensures
        args_view(r@) == lines_of(content@),
{
    let parts = split_str(content, '\n');
    proof {
        crate::text::lemma_split_char_nonempty(content@, '\n');
    }
    let ghost pv = args_view(parts@);
    let n = parts.len();
    let mut out: Vec<String> = Vec::new();
    let mut i: usize = 0;
    while i + 1 < n
        invariant
            pv == args_view(parts@),
            pv == split_char(content@, '\n'),
            n == parts@.len(),
            n >= 1,
            i + 1 <= n,
            args_view(out@) == pv.take(i as int).map_values(|p: Seq<char>| strip_cr(p)),
        decreases n - i,
    {
        let line = strip_cr_string(&parts[i]);
        let ghost before = args_view(out@);
        assert(pv[i as int] == parts@[i as int]@);
        out.push(line);
        assert(args_view(out@) =~= before.push(strip_cr(pv[i as int])));
        assert(pv.take(i + 1).map_values(|p: Seq<char>| strip_cr(p)) =~= pv.take(i as int).map_values(
            |p: Seq<char>| strip_cr(p),
        ).push(strip_cr(pv[i as int])));
        i = i + 1;
    }
    assert(pv.take(i as int) =~= pv.drop_last());
    let last = &parts[n - 1];
    assert(pv.last() == last@);
    if to_chars(last.as_str()).len() > 0 {
        let l = crate::text::copy_str(last.as_str());
        let ghost before = args_view(out@);
        out.push(l);
        assert(args_view(out@) =~= before.push(pv.last()));
    }
    assert(args_view(out@) =~= lines_of(content@));
    out
}

/// The last `lines` lines of a log, joined with `\n`.
pub fn recent_lines(content: &str, lines: usize) -> (r: String)
    ensures
        r@ == recent_lines_spec(content@, lines as nat),
{
    let all = lines_vec(content);
    let start: usize = if all.len() > lines { all.len() - lines } else { 0 };
    let mut tail: Vec<String> = Vec::new();
    let mut i: usize = start;
    while i < all.len()
        invariant
            start <= i <= all@.len(),
            args_view(all@) == lines_of(content@),
            args_view(tail@) == args_view(all@).subrange(start as int, i as int),
        decreases all@.len() - i,
    {
        let ghost before = args_view(tail@);
        let item = crate::text::copy_str(all[i].as_str());
        tail.push(item);
        assert(args_view(tail@) =~= before.push(args_view(all@)[i as int]));
        assert(args_view(tail@) =~= args_view(all@).subrange(start as int, i + 1));
        i = i + 1;
    }
    assert(args_view(all@).subrange(start as int, all@.len() as int) =~= args_view(all@).skip(
        start as int,
    ));
    join_strings(&tail, "\n")
}

} // verus!
