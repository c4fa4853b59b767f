//! Desktop feedback: whether notifications and sounds can be given, the
//! commands that give them, and how a command is looked up on `PATH`.

use vstd::prelude::*;
use crate::keyboard::{args_view, CommandLine};
use crate::paths::{join_path, path_join};
use crate::text::{contains, copy_str, is_ws, push_char, str_contains, to_chars};

verus! {

/// Whether desktop notifications work, and why: `notify-send` must be
/// installed and a graphical session present.
pub open spec fn notify_capability_spec(has_notify_send: bool, has_display: bool) -> (bool, Seq<char>) {
    if !has_notify_send {
        (false, "未找到 notify-send（请安装 libnotify-bin）"@)
    } else if !has_display {
        (false, "未检测到 DISPLAY/WAYLAND_DISPLAY（需要图形会话）"@)
    } else {
        (true, "linux notify-send"@)
    }
}

/// Judges desktop notifications, given whether `notify-send` is installed
/// and whether `DISPLAY` or `WAYLAND_DISPLAY` is set.
pub fn notify_capability(has_notify_send: bool, has_display: bool) -> (r: (bool, String))
    ensures
        (r.0, r.1@) == notify_capability_spec(has_notify_send, has_display),
{
    if !has_notify_send {
        (false, String::from_str("未找到 notify-send（请安装 libnotify-bin）"))
    } else if !has_display {
        (false, String::from_str("未检测到 DISPLAY/WAYLAND_DISPLAY（需要图形会话）"))
    } else {
        (true, String::from_str("linux notify-send"))
    }
}

/// Whether sound feedback works, and why: it must be enabled, and
/// `paplay` (preferred) or `aplay` installed.
pub open spec fn sound_capability_spec(user_enabled: bool, has_paplay: bool, has_aplay: bool) -> (bool, Seq<char>) {
    if !user_enabled {
        (false, "已在配置中关闭 sound_enabled"@)
    } else if has_paplay {
        (true, "linux paplay"@)
    } else if has_aplay {
        (true, "linux aplay"@)
    } else {
        (false, "未找到 paplay/aplay（请安装 pulseaudio-utils 或 alsa-utils）"@)
    }
}

/// Judges sound feedback.
pub fn sound_capability(user_enabled: bool, has_paplay: bool, has_aplay: bool) -> (r: (bool, String))
    ensures
        (r.0, r.1@) == sound_capability_spec(user_enabled, has_paplay, has_aplay),
{
    if !user_enabled {
        (false, String::from_str("已在配置中关闭 sound_enabled"))
    } else if has_paplay {
        (true, String::from_str("linux paplay"))
    } else if has_aplay {
        (true, String::from_str("linux aplay"))
    } else {
        (false, String::from_str("未找到 paplay/aplay（请安装 pulseaudio-utils 或 alsa-utils）"))
    }
}

/// The command that plays the feedback sound: `paplay` with the
/// freedesktop message sound, else `aplay` with the ALSA test sound.
pub fn feedback_sound_command(has_paplay: bool, has_aplay: bool) -> (r: Option<CommandLine>)
    ensures
        has_paplay ==> (r matches Some(c) && c.program@ == "paplay"@ && args_view(c.args@)
            == seq!["/usr/share/sounds/freedesktop/stereo/message.oga"@]),
        !has_paplay && has_aplay ==> (r matches Some(c) && c.program@ == "aplay"@ && args_view(
            c.args@,
        ) == seq!["/usr/share/sounds/alsa/Front_Center.wav"@]),
        !has_paplay && !has_aplay ==> r is None,
{
    if has_paplay {
        let args = vec![String::from_str("/usr/share/sounds/freedesktop/stereo/message.oga")];
        let c = CommandLine { program: String::from_str("paplay"), args };
        assert(args_view(c.args@) =~= seq!["/usr/share/sounds/freedesktop/stereo/message.oga"@]);
        Some(c)
    } else if has_aplay {
        let args = vec![String::from_str("/usr/share/sounds/alsa/Front_Center.wav")];
        let c = CommandLine { program: String::from_str("aplay"), args };
        assert(args_view(c.args@) =~= seq!["/usr/share/sounds/alsa/Front_Center.wav"@]);
        Some(c)
    } else {
        None
    }
}

/// The `notify-send` command for a notification: low urgency, from
/// EchoPup.
pub fn notify_command(title: &str, body: &str) -> (r: CommandLine)
    ensures
        r.program@ == "notify-send"@,
        args_view(r.args@) == seq!["-a"@, "EchoPup"@, "-u"@, "low"@, title@, body@],
{
    let args = vec![
        String::from_str("-a"),
        String::from_str("EchoPup"),
        String::from_str("-u"),
        String::from_str("low"),
        copy_str(title),
        copy_str(body),
    ];
    let r = CommandLine { program: String::from_str("notify-send"), args };
    assert(args_view(r.args@) =~= seq!["-a"@, "EchoPup"@, "-u"@, "low"@, title@, body@]);
    r
}

/// The files that may be the command `name`: none for an empty name, the
/// name itself when it contains `/`, otherwise `name` in each directory
/// of `PATH`, in order.
pub open spec fn command_candidates_spec(name: Seq<char>, path_dirs: Seq<Seq<char>>) -> Seq<Seq<char>> {
    if name.len() == 0 {
        Seq::empty()
    } else if contains(name, "/"@) {
        seq![name]
    } else {
        path_dirs.map_values(|d: Seq<char>| path_join(d, name))
    }
}

/// Where to look for the command `name`; it exists when one of these is a
/// file.
pub fn command_candidates(name: &str, path_dirs: &Vec<String>) -> (r: Vec<String>)
    ensures
        args_view(r@) == command_candidates_spec(name@, args_view(path_dirs@)),
{
    let mut r: Vec<String> = Vec::new();
    if to_chars(name).len() == 0 {
        assert(args_view(r@) =~= command_candidates_spec(name@, args_view(path_dirs@)));
        return r;
    }
    if str_contains(name, "/") {
        r.push(copy_str(name));
        assert(args_view(r@) =~= command_candidates_spec(name@, args_view(path_dirs@)));
        return r;
    }
    let ghost dv = args_view(path_dirs@);
    let mut i: usize = 0;
    while i < path_dirs.len()
        invariant
            i <= path_dirs@.len(),
            dv == args_view(path_dirs@),
            args_view(r@) == dv.take(i as int).map_values(|d: Seq<char>| path_join(d, name@)),
        decreases path_dirs@.len() - i,
    {
        let p = join_path(path_dirs[i].as_str(), name);
        let ghost before = args_view(r@);
        r.push(p);
        assert(args_view(r@) =~= before.push(path_join(dv[i as int], name@)));
        assert(dv.take(i + 1).map_values(|d: Seq<char>| path_join(d, name@)) =~= dv.take(
            i as int,
        ).map_values(|d: Seq<char>| path_join(d, name@)).push(path_join(dv[i as int], name@)));
        i = i + 1;
    }
    assert(dv.take(path_dirs@.len() as int) =~= dv);
    r
}

/// Words and the word being read after scanning `s`.
pub open spec fn word_scan(s: Seq<char>) -> (Seq<Seq<char>>, Seq<char>)
    decreases s.len(),
{
    if s.len() == 0 {
        (Seq::empty(), Seq::empty())
    } else {
        let (w, cur) = word_scan(s.drop_last());
        if is_ws(s.last()) {
            if cur.len() > 0 {
                (w.push(cur), Seq::empty())
            } else {
                (w, cur)
            }
        } else {
            (w, cur.push(s.last()))
        }
    }
}

/// What `split_whitespace` yields: the runs of non-whitespace characters.
pub open spec fn words(s: Seq<char>) -> Seq<Seq<char>> {
    let (w, cur) = word_scan(s);
    if cur.len() > 0 {
        w.push(cur)
    } else {
        w
    }
}

/// `s.split_whitespace()` as strings.
pub fn split_whitespace_words(s: &str) -> (r: Vec<String>)
    ensures
        args_view(r@) == words(s@),
{
    let c = to_chars(s);
    let mut out: Vec<String> = Vec::new();
    let mut cur = String::new();
    let mut i: usize = 0;
    assert(c@.take(0) =~= Seq::<char>::empty());
    while i < c.len()
        invariant
            i <= c@.len(),
            c@ == s@,
            (args_view(out@), cur@) == word_scan(c@.take(i as int)),
        decreases c@.len() - i,
    {
        assert(c@.take(i + 1).drop_last() =~= c@.take(i as int));
        let ch = c[i];
        if crate::text::char_is_ws(ch) {
            if to_chars(cur.as_str()).len() > 0 {
                let ghost before = args_view(out@);
                let done = cur;
                out.push(done);
                cur = String::new();
                assert(args_view(out@) =~= before.push(args_view(out@).last()));
            }
        } else {
            push_char(&mut cur, ch);
        }
        i = i + 1;
    }
    assert(c@.take(c@.len() as int) =~= c@);
    if to_chars(cur.as_str()).len() > 0 {
        let ghost before = args_view(out@);
        out.push(cur);
        assert(args_view(out@) =~= before.push(args_view(out@).last()));
    }
    out
}

/// The editor command for `config edit`: `$EDITOR` (or `vi`) split into
/// words, then the program and its arguments; `None` when it has no word.
pub fn editor_command(editor_env: Option<&str>) -> (r: Option<(String, Vec<String>)>)
    ensures
        ({
            let e = match editor_env {
                Some(v) => v@,
                None => "vi"@,
            };
            &&& words(e).len() == 0 ==> r is None
            &&& words(e).len() > 0 ==> (r matches Some(x) && x.0@ == words(e)[0] && args_view(
                x.1@,
            ) == words(e).drop_first())
        }),
{
    let mut parts = match editor_env {
        Some(v) => split_whitespace_words(v),
        None => split_whitespace_words("vi"),
    };
    if parts.len() == 0 {
        return None;
    }
    let ghost pv = args_view(parts@);
    let program = parts.remove(0);
    assert(args_view(parts@) =~= pv.drop_first());
    Some((program, parts))
}

} // verus!
