//! Choice and ordering of the Linux command-line typing back ends.

use vstd::prelude::*;
use crate::text::{
    contains, eq_ignore_case, lower, split_char, split_str, str_contains, str_eq_ignore_case,
    str_lower, str_starts_with, starts_with, trim, trim_str, u64_to_decimal, decimal,
    all_digits, digits_value, lemma_decimal_reads_back,
};

verus! {

/// A Linux command that types text.
#[derive(Debug, Clone, Copy, PartialEq, Eq, Structural)]
pub enum LinuxTypingBackend {
    Eitype,
    Xdotool,
    Wtype,
}

/// The name (and command) of a back end.
pub open spec fn backend_name(b: LinuxTypingBackend) -> Seq<char> {
    match b {
        LinuxTypingBackend::Eitype => "eitype"@,
        LinuxTypingBackend::Xdotool => "xdotool"@,
        LinuxTypingBackend::Wtype => "wtype"@,
    }
}

/// The note shown when a back end is preferred.
pub open spec fn preferred_note_spec(b: LinuxTypingBackend, is_wayland: bool, desktop_prefers_eitype: bool) -> Option<Seq<char>> {
    match b {
        LinuxTypingBackend::Eitype => Some("首次使用可能弹出 RemoteDesktop 授权对话框"@),
        LinuxTypingBackend::Xdotool => if is_wayland {
            Some("当前只检测到 xdotool；它只对 XWayland 窗口可靠，原生 Wayland 焦点窗口通常不会收到输入"@)
        } else {
            None
        },
        LinuxTypingBackend::Wtype => if is_wayland && desktop_prefers_eitype {
            Some("检测到 GNOME/KDE Wayland；wtype 常因 compositor 不支持 virtual keyboard 协议而失败，建议安装 eitype"@)
        } else {
            None
        },
    }
}

/// The hint added when a back end's command fails.
pub open spec fn failure_hint_spec(b: LinuxTypingBackend, stderr: Seq<char>, stdout: Seq<char>, is_wayland: bool) -> Option<Seq<char>> {
    match b {
        LinuxTypingBackend::Eitype => Some(
            "eitype 依赖 XDG RemoteDesktop portal / libei；首次运行可能需要授权，且需要桌面环境提供对应能力"@,
        ),
        LinuxTypingBackend::Xdotool => if is_wayland {
            Some("xdotool 只对 X11 / XWayland 窗口可靠，原生 Wayland 窗口通常不会响应"@)
        } else {
            None
        },
        LinuxTypingBackend::Wtype => if contains(
            lower(stderr + seq!['\n'] + stdout),
            "virtual keyboard protocol"@,
        ) {
            Some("当前 compositor 不支持 wtype 依赖的 virtual keyboard 协议；GNOME/KDE Wayland 通常应改用 eitype"@)
        } else {
            None
        },
    }
}

impl LinuxTypingBackend {
    /// The back end's name.
    pub fn label(self) -> (r: &'static str)
        ensures
            r@ == backend_name(self),
    {
        match self {
            LinuxTypingBackend::Eitype => "eitype",
            LinuxTypingBackend::Xdotool => "xdotool",
            LinuxTypingBackend::Wtype => "wtype",
        }
    }

    /// The command the back end runs.
    pub fn command_name(self) -> (r: &'static str)
        ensures
            r@ == backend_name(self),
    {
        self.label()
    }

    /// A note on the preferred back end, for the session kind and whether
    /// the desktop (GNOME/KDE on Wayland) works better with eitype.
    pub fn preferred_note(self, is_wayland: bool, desktop_prefers_eitype: bool) -> (r: Option<&'static str>)
        ensures
            r matches Some(s) ==> preferred_note_spec(self, is_wayland, desktop_prefers_eitype) == Some(s@),
            r is None ==> preferred_note_spec(self, is_wayland, desktop_prefers_eitype) is None,
    {
        match self {
            LinuxTypingBackend::Eitype => Some("首次使用可能弹出 RemoteDesktop 授权对话框"),
            LinuxTypingBackend::Xdotool => if is_wayland {
                Some("当前只检测到 xdotool；它只对 XWayland 窗口可靠，原生 Wayland 焦点窗口通常不会收到输入")
            } else {
                None
            },
            LinuxTypingBackend::Wtype => if is_wayland && desktop_prefers_eitype {
                Some("检测到 GNOME/KDE Wayland；wtype 常因 compositor 不支持 virtual keyboard 协议而失败，建议安装 eitype")
            } else {
                None
            },
        }
    }

    /// A hint explaining a failure of the back end's command.
    pub fn failure_hint(self, stderr: &str, stdout: &str, is_wayland: bool) -> (r: Option<&'static str>)
        ensures
            r matches Some(s) ==> failure_hint_spec(self, stderr@, stdout@, is_wayland) == Some(s@),
            r is None ==> failure_hint_spec(self, stderr@, stdout@, is_wayland) is None,
    {
        match self {
            LinuxTypingBackend::Eitype => Some(
                "eitype 依赖 XDG RemoteDesktop portal / libei；首次运行可能需要授权，且需要桌面环境提供对应能力",
            ),
            LinuxTypingBackend::Xdotool => if is_wayland {
                Some("xdotool 只对 X11 / XWayland 窗口可靠，原生 Wayland 窗口通常不会响应")
            } else {
                None
            },
            LinuxTypingBackend::Wtype => {
                let mut combined = String::from_str(stderr);
                combined.append("\n");
                combined.append(stdout);
                let l = str_lower(combined.as_str());
                proof {
                    reveal_strlit("\n");
                    assert(combined@ =~= stderr@ + seq!['\n'] + stdout@);
                }
                if str_contains(l.as_str(), "virtual keyboard protocol") {
                    Some("当前 compositor 不支持 wtype 依赖的 virtual keyboard 协议；GNOME/KDE Wayland 通常应改用 eitype")
                } else {
                    None
                }
            },
        }
    }
}

/// A command line: the program and its arguments.
#[derive(Debug, Clone)]
pub struct CommandLine {
    pub program: String,
    pub args: Vec<String>,
}

/// The arguments of a command line, as sequences.
pub open spec fn args_view(args: Seq<String>) -> Seq<Seq<char>> {
    args.map_values(|a: String| a@)
}

/// The text argument, preceded by `--` when it starts with `-`.
pub open spec fn text_args(text: Seq<char>) -> Seq<Seq<char>> {
    if starts_with(text, seq!['-']) {
        seq!["--"@, text]
    } else {
        seq![text]
    }
}

/// The arguments that type `text` with a back end.
pub open spec fn type_text_args(b: LinuxTypingBackend, text: Seq<char>) -> Seq<Seq<char>> {
    match b {
        LinuxTypingBackend::Xdotool => seq!["type"@, "--clearmodifiers"@, "--delay"@, "1"@, "--"@, text],
        _ => text_args(text),
    }
}

/// `count` repetitions of `-k <key>`.
pub open spec fn repeat_key_args(key: Seq<char>, count: nat) -> Seq<Seq<char>>
    decreases count,
{
    if count == 0 {
        Seq::empty()
    } else {
        repeat_key_args(key, (count - 1) as nat) + seq!["-k"@, key]
    }
}

/// The arguments that send `count` backspaces with a back end.
pub open spec fn delete_args(b: LinuxTypingBackend, count: nat) -> Seq<Seq<char>> {
    match b {
        LinuxTypingBackend::Eitype => repeat_key_args("backspace"@, count),
        LinuxTypingBackend::Xdotool => seq!["key"@, "--repeat"@, decimal(count), "BackSpace"@],
        LinuxTypingBackend::Wtype => repeat_key_args("BackSpace"@, count),
    }
}

proof fn lemma_repeat_key_args(key: Seq<char>, count: nat)
    ensures
        repeat_key_args(key, count).len() == 2 * count,
        forall|j: int|
            0 <= j < 2 * count ==> #[trigger] repeat_key_args(key, count)[j] == if j % 2 == 0 {
                "-k"@
            } else {
                key
            },
    decreases count,
{
    if count > 0 {
        lemma_repeat_key_args(key, (count - 1) as nat);
        let prev = repeat_key_args(key, (count - 1) as nat);
        let a = repeat_key_args(key, count);
        assert(a =~= prev + seq!["-k"@, key]);
        assert forall|j: int| 0 <= j < 2 * count implies #[trigger] a[j] == if j % 2 == 0 {
            "-k"@
        } else {
            key
        } by {
            if j < prev.len() {
                assert(a[j] == prev[j]);
            } else if j == prev.len() {
                assert(a[j] == seq!["-k"@, key][0]);
            } else {
                assert(a[j] == seq!["-k"@, key][1]);
            }
        }
    }
}

/// The delete command sends exactly `count` backspaces with every back end:
/// xdotool gets `key --repeat N BackSpace` where `N` is written in decimal
/// digits and reads back as `count`; wtype and eitype get `count` pairs of
/// `-k` and their backspace key, and nothing more.
pub proof fn law_delete_sends_count_backspaces(b: LinuxTypingBackend, count: nat)
    ensures
        b == LinuxTypingBackend::Xdotool ==> {
            let a = delete_args(b, count);
            &&& a.len() == 4
            &&& a[0] == "key"@
            &&& a[1] == "--repeat"@
            &&& a[2].len() > 0
            &&& all_digits(a[2])
            &&& digits_value(a[2]) == count
            &&& a[3] == "BackSpace"@
        },
        b != LinuxTypingBackend::Xdotool ==> {
            let a = delete_args(b, count);
            let key = if b == LinuxTypingBackend::Eitype {
                "backspace"@
            } else {
                "BackSpace"@
            };
            &&& a.len() == 2 * count
            &&& forall|j: int|
                0 <= j < 2 * count ==> #[trigger] a[j] == if j % 2 == 0 {
                    "-k"@
                } else {
                    key
                }
        },
{
    lemma_decimal_reads_back(count);
    lemma_repeat_key_args("backspace"@, count);
    lemma_repeat_key_args("BackSpace"@, count);
}

fn push_arg(args: &mut Vec<String>, a: &str)
    ensures
        args_view(final(args)@) == args_view(old(args)@).push(a@),
{
    args.push(String::from_str(a));
    assert(args_view(args@) =~= args_view(old(args)@).push(a@));
}

/// The command that types `text` with a back end.
pub fn type_text_command(backend: LinuxTypingBackend, text: &str) -> (r: CommandLine)
    ensures
        r.program@ == backend_name(backend),
        args_view(r.args@) == type_text_args(backend, text@),
{
    let mut args: Vec<String> = Vec::new();
    match backend {
        LinuxTypingBackend::Xdotool => {
            push_arg(&mut args, "type");
            push_arg(&mut args, "--clearmodifiers");
            push_arg(&mut args, "--delay");
            push_arg(&mut args, "1");
            push_arg(&mut args, "--");
            push_arg(&mut args, text);
        },
        _ => {
            proof {
                reveal_strlit("-");
                assert("-"@ =~= seq!['-']);
            }
            if str_starts_with(text, "-") {
                push_arg(&mut args, "--");
            }
            push_arg(&mut args, text);
        },
    }
    assert(args_view(args@) =~= type_text_args(backend, text@));
    CommandLine { program: String::from_str(backend.command_name()), args }
}

/// The command that sends `count` backspaces with a back end.
pub fn delete_backward_command(backend: LinuxTypingBackend, count: usize) -> (r: CommandLine)
    ensures
        r.program@ == backend_name(backend),
        args_view(r.args@) == delete_args(backend, count as nat),
{
    let mut args: Vec<String> = Vec::new();
    match backend {
        LinuxTypingBackend::Xdotool => {
            push_arg(&mut args, "key");
            push_arg(&mut args, "--repeat");
            let n = u64_to_decimal(count as u64);
            push_arg(&mut args, n.as_str());
            push_arg(&mut args, "BackSpace");
            assert(args_view(args@) =~= delete_args(backend, count as nat));
        },
        _ => {
            let key = if backend == LinuxTypingBackend::Eitype {
                "backspace"
            } else {
                "BackSpace"
            };
            let mut i: usize = 0;
            assert(args_view(args@) =~= repeat_key_args(key@, 0));
            while i < count
                invariant
                    i <= count,
                    args_view(args@) == repeat_key_args(key@, i as nat),
                decreases count - i,
            {
                push_arg(&mut args, "-k");
                push_arg(&mut args, key);
                i = i + 1;
                assert(args_view(args@) =~= repeat_key_args(key@, i as nat));
            }
        },
    }
    CommandLine { program: String::from_str(backend.command_name()), args }
}

/// The back ends to try, in order, for a session.
pub open spec fn preferred_order(is_wayland: bool, prefer_eitype: bool) -> Seq<LinuxTypingBackend> {
    if is_wayland {
        if prefer_eitype {
            seq![LinuxTypingBackend::Eitype, LinuxTypingBackend::Wtype, LinuxTypingBackend::Xdotool]
        } else {
            seq![LinuxTypingBackend::Wtype, LinuxTypingBackend::Eitype, LinuxTypingBackend::Xdotool]
        }
    } else {
        seq![LinuxTypingBackend::Xdotool]
    }
}

/// The back ends to try, in order: on Wayland eitype first when the
/// desktop prefers it, otherwise wtype first; on X11 only xdotool.
pub fn preferred_linux_command_backends(is_wayland: bool, prefer_eitype_on_wayland: bool) -> (r: Vec<LinuxTypingBackend>)
    ensures
        r@ == preferred_order(is_wayland, prefer_eitype_on_wayland),
{
    let mut v: Vec<LinuxTypingBackend> = Vec::new();
    if is_wayland {
        if prefer_eitype_on_wayland {
            v.push(LinuxTypingBackend::Eitype);
            v.push(LinuxTypingBackend::Wtype);
        } else {
            v.push(LinuxTypingBackend::Wtype);
            v.push(LinuxTypingBackend::Eitype);
        }
        v.push(LinuxTypingBackend::Xdotool);
    } else {
        v.push(LinuxTypingBackend::Xdotool);
    }
    assert(v@ =~= preferred_order(is_wayland, prefer_eitype_on_wayland));
    v
}

/// The desktop names that prefer eitype on Wayland.
pub open spec fn prefers_eitype_name(entry: Seq<char>) -> bool {
    let e = lower(trim(entry));
    e == "gnome"@ || e == "kde"@ || e == "plasma"@
}

/// Some `:`-separated entry of `XDG_CURRENT_DESKTOP` is GNOME, KDE or Plasma.
pub open spec fn some_entry_prefers_eitype(entries: Seq<Seq<char>>) -> bool {
    exists|i: int| 0 <= i < entries.len() && prefers_eitype_name(#[trigger] entries[i])
}

/// Whether the desktop named by `XDG_CURRENT_DESKTOP` prefers eitype.
pub fn desktop_name_prefers_eitype(name: Option<&str>) -> (r: bool)
    ensures
        r == (name matches Some(n) && some_entry_prefers_eitype(split_char(n@, ':'))),
{
    let n = match name {
        None => return false,
        Some(n) => n,
    };
    let parts = split_str(n, ':');
    let ghost pv = parts@.map_values(|p: String| p@);
    let mut i: usize = 0;
    while i < parts.len()
        invariant
            i <= parts@.len(),
            pv == parts@.map_values(|p: String| p@),
            pv == split_char(n@, ':'),
            name == Some(n),
            forall|k: int| 0 <= k < i ==> !prefers_eitype_name(#[trigger] pv[k]),
        decreases parts@.len() - i,
    {
        let t = trim_str(parts[i].as_str());
        let l = str_lower(t.as_str());
        if crate::text::str_eq(l.as_str(), "gnome") || crate::text::str_eq(l.as_str(), "kde")
            || crate::text::str_eq(l.as_str(), "plasma") {
            assert(prefers_eitype_name(pv[i as int]));
            assert(prefers_eitype_name(split_char(n@, ':')[i as int]));
            assert(pv.len() == parts@.len());
            assert(some_entry_prefers_eitype(pv));
            return true;
        }
        i = i + 1;
    }
    false
}

/// Whether `XDG_SESSION_TYPE` denotes a Wayland session.
pub fn session_type_is_wayland(session_type: Option<&str>) -> (r: bool)
    ensures
        r == (session_type matches Some(t) && eq_ignore_case(t@, "wayland"@)),
{
    match session_type {
        Some(t) => str_eq_ignore_case(t, "wayland"),
        None => false,
    }
}

/// `acc` followed by each element of `s` not already present, in order.
pub open spec fn append_new(acc: Seq<LinuxTypingBackend>, s: Seq<LinuxTypingBackend>) -> Seq<LinuxTypingBackend>
    decreases s.len(),
{
    if s.len() == 0 {
        acc
    } else {
        let a = append_new(acc, s.drop_last());
        if a.contains(s.last()) {
            a
        } else {
            a.push(s.last())
        }
    }
}

/// `s` without the element `b`.
pub open spec fn without(s: Seq<LinuxTypingBackend>, b: LinuxTypingBackend) -> Seq<LinuxTypingBackend>
    decreases s.len(),
{
    if s.len() == 0 {
        s
    } else if s.last() == b {
        without(s.drop_last(), b)
    } else {
        without(s.drop_last(), b).push(s.last())
    }
}

/// The command back end in use and its fallbacks.
#[derive(Debug, Clone)]
pub struct LinuxCommandBackend {
    pub active: LinuxTypingBackend,
    pub fallbacks: Vec<LinuxTypingBackend>,
}

fn vec_contains(v: &Vec<LinuxTypingBackend>, b: LinuxTypingBackend) -> (r: bool)
    ensures
        r == v@.contains(b),
{
    let mut i: usize = 0;
    while i < v.len()
        invariant
            i <= v@.len(),
            forall|k: int| 0 <= k < i ==> v@[k] != b,
        decreases v@.len() - i,
    {
        if v[i] == b {
            return true;
        }
        i = i + 1;
    }
    false
}

impl LinuxCommandBackend {
    /// The first available back end becomes active, the rest fallbacks;
    /// `None` when none is available.
    pub fn from_available_backends(available: Vec<LinuxTypingBackend>) -> (r: Option<Self>)
        ensures
            available@.len() == 0 ==> r is None,
            available@.len() > 0 ==> (r matches Some(c) && c.active == available@[0]
                && c.fallbacks@ == available@.drop_first()),
    {
        if available.len() == 0 {
            return None;
        }
        let mut available = available;
        let active = available.remove(0);
        Some(LinuxCommandBackend { active, fallbacks: available })
    }

    /// The active back end's name.
    pub fn label(&self) -> (r: &'static str)
        ensures
            r@ == backend_name(self.active),
    {
        self.active.label()
    }

    /// The order in which back ends are tried: the active one, then each
    /// fallback not already listed.
    pub fn backends_in_order(&self) -> (r: Vec<LinuxTypingBackend>)
        ensures
            r@ == append_new(seq![self.active], self.fallbacks@),
    {
        let mut ordered: Vec<LinuxTypingBackend> = Vec::new();
        ordered.push(self.active);
        let mut i: usize = 0;
        assert(self.fallbacks@.take(0) =~= Seq::<LinuxTypingBackend>::empty());
        assert(ordered@ =~= seq![self.active]);
        while i < self.fallbacks.len()
            invariant
                i <= self.fallbacks@.len(),
                ordered@ == append_new(seq![self.active], self.fallbacks@.take(i as int)),
            decreases self.fallbacks@.len() - i,
        {
            let b = self.fallbacks[i];
            assert(self.fallbacks@.take(i + 1).drop_last() =~= self.fallbacks@.take(i as int));
            if !vec_contains(&ordered, b) {
                ordered.push(b);
            }
            i = i + 1;
        }
        assert(self.fallbacks@.take(self.fallbacks@.len() as int) =~= self.fallbacks@);
        ordered
    }

    /// Makes `backend` the active one; the previously active one becomes
    /// the first fallback and `backend` leaves the fallbacks.
    pub fn promote(&mut self, backend: LinuxTypingBackend)
        ensures
            old(self).active == backend ==> *final(self) == *old(self),
            old(self).active != backend ==> final(self).active == backend
                && final(self).fallbacks@ == seq![old(self).active] + without(old(self).fallbacks@, backend),
    {
        if backend == self.active {
            return;
        }
        let previous = self.active;
        let mut kept: Vec<LinuxTypingBackend> = Vec::new();
        kept.push(previous);
        let mut i: usize = 0;
        assert(self.fallbacks@.take(0) =~= Seq::<LinuxTypingBackend>::empty());
        assert(kept@ =~= seq![previous] + without(self.fallbacks@.take(0), backend));
        while i < self.fallbacks.len()
            invariant
                i <= self.fallbacks@.len(),
                kept@ == seq![previous] + without(self.fallbacks@.take(i as int), backend),
            decreases self.fallbacks@.len() - i,
        {
            let b = self.fallbacks[i];
            assert(self.fallbacks@.take(i + 1).drop_last() =~= self.fallbacks@.take(i as int));
            if b != backend {
                kept.push(b);
            }
            i = i + 1;
            assert(kept@ =~= seq![previous] + without(self.fallbacks@.take(i as int), backend));
        }
        assert(self.fallbacks@.take(self.fallbacks@.len() as int) =~= self.fallbacks@);
        self.fallbacks = kept;
        self.active = backend;
    }

    /// Starts trying the back ends in order for one operation.
    pub fn start_attempts(&self) -> (r: BackendAttempts)
        ensures
            r.order@ == append_new(seq![self.active], self.fallbacks@),
            r.tried == 0,
            r.errors@.len() == 0,
    {
        BackendAttempts { order: self.backends_in_order(), tried: 0, errors: Vec::new() }
    }
}

/// One operation tried on each back end in turn until one succeeds.
#[derive(Debug, Clone)]
pub struct BackendAttempts {
    pub order: Vec<LinuxTypingBackend>,
    pub tried: usize,
    pub errors: Vec<String>,
}

impl BackendAttempts {
    /// The next back end to try, if any is left.
    pub fn next_backend(&self) -> (r: Option<LinuxTypingBackend>)
        ensures
            self.tried < self.order@.len() ==> r == Some(self.order@[self.tried as int]),
            self.tried >= self.order@.len() ==> r is None,
    {
        if self.tried < self.order.len() {
            Some(self.order[self.tried])
        } else {
            None
        }
    }

    /// Records that the current back end failed with `err`.
    pub fn record_failure(&mut self, err: &str)
        requires
            old(self).tried < old(self).order@.len(),
        ensures
            final(self).order == old(self).order,
            final(self).tried == old(self).tried + 1,
            final(self).errors@.len() == old(self).errors@.len() + 1,
            final(self).errors@.last()@ == backend_name(old(self).order@[old(self).tried as int])
                + ": "@ + err@,
    {
        let n = self.order.len();
        let b = self.order[self.tried];
        let mut e = String::from_str(b.label());
        e.append(": ");
        e.append(err);
        self.errors.push(e);
        self.tried = self.tried + 1;
    }

    /// The error when every back end failed.
    pub fn failure_message(&self) -> (r: String)
        ensures
            r@ == "所有 Linux 文本输入后端均失败: "@ + join_with(
                args_view(self.errors@),
                " | "@,
            ),
    {
        let mut r = String::from_str("所有 Linux 文本输入后端均失败: ");
        let j = join_strings(&self.errors, " | ");
        r.append(j.as_str());
        r
    }
}

/// The pieces joined with `sep` between them.
pub open spec fn join_with(pieces: Seq<Seq<char>>, sep: Seq<char>) -> Seq<char>
    decreases pieces.len(),
{
    if pieces.len() == 0 {
        Seq::empty()
    } else if pieces.len() == 1 {
        pieces[0]
    } else {
        join_with(pieces.drop_last(), sep) + sep + pieces.last()
    }
}

/// `pieces.join(sep)`.
pub fn join_strings(pieces: &Vec<String>, sep: &str) -> (r: String)
    ensures
        r@ == join_with(args_view(pieces@), sep@),
{
    let ghost pv = args_view(pieces@);
    let mut r = String::new();
    let mut i: usize = 0;
    assert(pv.take(0) =~= Seq::<Seq<char>>::empty());
    while i < pieces.len()
        invariant
            i <= pieces@.len(),
            pv == args_view(pieces@),
            r@ == join_with(pv.take(i as int), sep@),
        decreases pieces@.len() - i,
    {
        assert(pv.take(i + 1).drop_last() =~= pv.take(i as int));
        if i > 0 {
            r.append(sep);
        }
        r.append(pieces[i].as_str());
        i = i + 1;
        assert(i == 1 ==> pv.take(i as int).len() == 1 && pv.take(i as int)[0] == pv[0]);
    }
    assert(pv.take(pieces@.len() as int) =~= pv);
    r
}

/// The error for a command of a back end that exited unsuccessfully:
/// trimmed standard error and output, then the back end's hint.
pub fn command_failure_message(
    backend: LinuxTypingBackend,
    action: &str,
    status: &str,
    stdout: &str,
    stderr: &str,
    is_wayland: bool,
) -> (r: String)
    ensures
        r@ == backend_name(backend) + " "@ + action@ + "返回非零状态 "@ + status@ + failure_suffix(
            failure_details(backend, trim(stdout@), trim(stderr@), is_wayland),
        ),
{
    let out = trim_str(stdout);
    let err = trim_str(stderr);
    let mut details: Vec<String> = Vec::new();
    if err.unicode_len() != 0 {
        let mut d = String::from_str("stderr: ");
        d.append(err.as_str());
        details.push(d);
    }
    if out.unicode_len() != 0 {
        let mut d = String::from_str("stdout: ");
        d.append(out.as_str());
        details.push(d);
    }
    match backend.failure_hint(err.as_str(), out.as_str(), is_wayland) {
        Some(h) => details.push(String::from_str(h)),
        None => {},
    }
    assert(args_view(details@) =~= failure_details(backend, out@, err@, is_wayland));
    let suffix = if details.len() == 0 {
        String::new()
    } else {
        let mut s = String::from_str(" (");
        let j = join_strings(&details, "; ");
        s.append(j.as_str());
        s.append(")");
        s
    };
    let mut r = String::from_str(backend.label());
    r.append(" ");
    r.append(action);
    r.append("返回非零状态 ");
    r.append(status);
    r.append(suffix.as_str());
    r
}

/// The details listed for a failed command.
pub open spec fn failure_details(b: LinuxTypingBackend, stdout: Seq<char>, stderr: Seq<char>, is_wayland: bool) -> Seq<Seq<char>> {
    let a = if stderr.len() > 0 { seq!["stderr: "@ + stderr] } else { Seq::empty() };
    let c = if stdout.len() > 0 { a.push("stdout: "@ + stdout) } else { a };
    match failure_hint_spec(b, stderr, stdout, is_wayland) {
        Some(h) => c.push(h),
        None => c,
    }
}

/// ` (d1; d2; ...)`, or nothing when there are no details.
pub open spec fn failure_suffix(details: Seq<Seq<char>>) -> Seq<char> {
    if details.len() == 0 {
        Seq::empty()
    } else {
        " ("@ + join_with(details, "; "@) + ")"@
    }
}

/// The preferred back ends whose commands are installed (`installed[i]`
/// tells whether `preferred[i]` is), in preference order.
pub fn select_installed(preferred: &Vec<LinuxTypingBackend>, installed: &Vec<bool>) -> (r: Vec<LinuxTypingBackend>)
    requires
        preferred@.len() == installed@.len(),
    ensures
        r@ == keep_installed(preferred@, installed@),
{
    let mut r: Vec<LinuxTypingBackend> = Vec::new();
    let mut i: usize = 0;
    assert(preferred@.take(0) =~= Seq::<LinuxTypingBackend>::empty());
    while i < preferred.len()
        invariant
            i <= preferred@.len() == installed@.len(),
            r@ == keep_installed(preferred@.take(i as int), installed@.take(i as int)),
        decreases preferred@.len() - i,
    {
        assert(preferred@.take(i + 1).drop_last() =~= preferred@.take(i as int));
        assert(installed@.take(i + 1).drop_last() =~= installed@.take(i as int));
        if installed[i] {
            r.push(preferred[i]);
        }
        i = i + 1;
    }
    assert(preferred@.take(preferred@.len() as int) =~= preferred@);
    assert(installed@.take(installed@.len() as int) =~= installed@);
    r
}

/// The elements of `p` whose flag in `f` is set.
pub open spec fn keep_installed(p: Seq<LinuxTypingBackend>, f: Seq<bool>) -> Seq<LinuxTypingBackend>
    decreases p.len(),
{
    if p.len() == 0 || f.len() == 0 {
        Seq::empty()
    } else if f.last() {
        keep_installed(p.drop_last(), f.drop_last()).push(p.last())
    } else {
        keep_installed(p.drop_last(), f.drop_last())
    }
}

/// The name of the typing back end that would be used, given the back ends
/// installed, in order of preference.
pub fn preferred_linux_command_backend_label(available: Vec<LinuxTypingBackend>) -> (r: Option<&'static str>)
    ensures
        available@.len() == 0 ==> r is None,
        available@.len() > 0 ==> (r matches Some(l) && l@ == backend_name(available@[0])),
{
    match LinuxCommandBackend::from_available_backends(available) {
        Some(b) => Some(b.label()),
        None => None,
    }
}

/// The advice about the typing back end that would be used, given the back
/// ends installed, in order of preference, and the session.
pub fn preferred_linux_command_backend_note(
    available: Vec<LinuxTypingBackend>,
    is_wayland: bool,
    desktop_prefers_eitype: bool,
) -> (r: Option<&'static str>)
    ensures
        available@.len() == 0 ==> r is None,
        available@.len() > 0 ==> match preferred_note_spec(available@[0], is_wayland, desktop_prefers_eitype) {
            Some(n) => r matches Some(x) && x@ == n,
            None => r is None,
        },
{
    match LinuxCommandBackend::from_available_backends(available) {
        Some(b) => b.active.preferred_note(is_wayland, desktop_prefers_eitype),
        None => None,
    }
}

/// Attempts to open the enigo keyboard before giving up on it.
pub const ENIGO_INIT_ATTEMPTS: u32 = 3;

/// Milliseconds between those attempts.
pub const ENIGO_RETRY_DELAY_MS: u64 = 500;

/// The keyboard back end chosen at start.
#[derive(Debug, Clone, Copy, PartialEq, Eq, Structural)]
pub enum KeyboardChoice {
    /// Typing commands (`eitype`, `wtype`, `xdotool`).
    LinuxCommand,
    /// The enigo library.
    Enigo,
    /// No way to type: typing fails with the reason.
    Unavailable,
}

/// Under Wayland the typing commands come first; elsewhere enigo, with the
/// commands as a fallback; with neither, typing is unavailable.
pub open spec fn keyboard_choice_spec(is_wayland: bool, command_available: bool, enigo_ok: bool) -> KeyboardChoice {
    if is_wayland && command_available {
        KeyboardChoice::LinuxCommand
    } else if enigo_ok {
        KeyboardChoice::Enigo
    } else if command_available {
        KeyboardChoice::LinuxCommand
    } else {
        KeyboardChoice::Unavailable
    }
}

/// Chooses the keyboard back end, given the session, whether a typing
/// command is installed and whether enigo could be opened (enigo is only
/// tried when the first rule does not apply).
pub fn keyboard_choice(is_wayland: bool, command_available: bool, enigo_ok: bool) -> (r: KeyboardChoice)
    ensures
        r == keyboard_choice_spec(is_wayland, command_available, enigo_ok),
{
    if is_wayland && command_available {
        KeyboardChoice::LinuxCommand
    } else if enigo_ok {
        KeyboardChoice::Enigo
    } else if command_available {
        KeyboardChoice::LinuxCommand
    } else {
        KeyboardChoice::Unavailable
    }
}

/// The error of an unavailable keyboard.
pub fn keyboard_unavailable_message(reason: &str) -> (r: String)
    ensures
        r@ == "键盘输入不可用: "@ + reason@,
{
    let mut r = String::from_str("键盘输入不可用: ");
    r.append(reason);
    r
}

} // verus!
