//! GNOME custom-shortcut handling for the Wayland trigger: parsing
//! `gsettings` output and deciding what to install.

use vstd::prelude::*;
use crate::keyboard::{args_view, join_strings, join_with};
use crate::text::{
    contains, decimal, eq_ignore_case, lower, parse_u64, parse_unsigned, push_char, split_char,
    split_str, str_contains, str_eq, str_eq_ignore_case, str_lower, to_chars, trim, trim_str,
    u64_to_decimal, copy_str, from_chars_range, starts_with, ends_with,
};

verus! {

/// The GNOME media-keys schema.
pub const MEDIA_KEYS_SCHEMA: &'static str = "org.gnome.settings-daemon.plugins.media-keys";

/// The schema of one custom keybinding.
pub const CUSTOM_KEYBINDING_SCHEMA: &'static str = "org.gnome.settings-daemon.plugins.media-keys.custom-keybinding";

/// The directory under which custom keybindings live.
pub const CUSTOM_KEYBINDING_BASE: &'static str = "/org/gnome/settings-daemon/plugins/media-keys/custom-keybindings/";

/// The name of EchoPup's shortcut.
pub const ECHOPUP_SHORTCUT_NAME: &'static str = "EchoPup Toggle Recording";

/// The outcome of installing the GNOME shortcut.
#[derive(Debug, Clone, PartialEq, Eq)]
pub enum ShortcutInstallResult {
    Installed,
    AlreadyInstalled { binding: Option<String> },
    BindingConflict { binding: String, shortcut_name: Option<String> },
    UnsupportedEnvironment,
    GsettingsUnavailable,
}

/// A shortcut bound to the same key as EchoPup's trigger.
#[derive(Debug, Clone, PartialEq, Eq)]
pub struct ShortcutConflict {
    pub name: Option<String>,
    pub command: Option<String>,
    pub binding: String,
}

/// One GNOME custom shortcut.
#[derive(Debug, Clone)]
pub struct ShortcutEntry {
    pub path: String,
    pub name: Option<String>,
    pub command: Option<String>,
    pub binding: Option<String>,
}

/// The view of an optional string.
pub open spec fn opt_view(o: Option<String>) -> Option<Seq<char>> {
    match o {
        Some(s) => Some(s@),
        None => None,
    }
}

/// The state of the `gsettings` array reader.
pub ghost struct ArrayReader {
    pub values: Seq<Seq<char>>,
    pub current: Seq<char>,
    pub in_string: bool,
}

/// One character of a `gsettings` string array: a quote opens or closes
/// a string; characters inside strings are collected; others are skipped.
pub open spec fn array_step(st: ArrayReader, ch: char) -> ArrayReader {
    if ch == '\'' {
        if st.in_string {
            ArrayReader { values: st.values.push(st.current), current: Seq::empty(), in_string: false }
        } else {
            ArrayReader { in_string: true, ..st }
        }
    } else if st.in_string {
        ArrayReader { current: st.current.push(ch), ..st }
    } else {
        st
    }
}

/// The reader state after `s`.
pub open spec fn array_read(s: Seq<char>) -> ArrayReader
    decreases s.len(),
{
    if s.len() == 0 {
        ArrayReader { values: Seq::empty(), current: Seq::empty(), in_string: false }
    } else {
        array_step(array_read(s.drop_last()), s.last())
    }
}

/// Reads the strings of a `gsettings` array such as `['/a/', '/b/']`.
pub fn parse_gsettings_string_array(raw: &str) -> (r: Vec<String>)
    ensures
        args_view(r@) == array_read(raw@).values,
{
    let v = to_chars(raw);
    let mut values: Vec<String> = Vec::new();
    let mut current = String::new();
    let mut in_string = false;
    let mut i: usize = 0;
    assert(v@.take(0) =~= Seq::<char>::empty());
    assert(args_view(values@) =~= Seq::<Seq<char>>::empty());
    while i < v.len()
        invariant
            i <= v@.len(),
            v@ == raw@,
            array_read(v@.take(i as int)).values == args_view(values@),
            array_read(v@.take(i as int)).current == current@,
            array_read(v@.take(i as int)).in_string == in_string,
        decreases v@.len() - i,
    {
        let ch = v[i];
        assert(v@.take(i + 1).drop_last() =~= v@.take(i as int));
        if ch == '\'' {
            if in_string {
                let ghost before = values@;
                let done = current;
                values.push(done);
                current = String::new();
                in_string = false;
                assert(args_view(values@) =~= args_view(before).push(values@.last()@));
            } else {
                in_string = true;
            }
        } else if in_string {
            push_char(&mut current, ch);
        }
        i = i + 1;
    }
    assert(v@.take(v@.len() as int) =~= v@);
    values
}

/// `s` with every `c` removed from both ends.
pub open spec fn trim_char(s: Seq<char>, c: char) -> Seq<char>
    decreases s.len(),
{
    if s.len() > 0 && s[0] == c {
        trim_char(s.drop_first(), c)
    } else if s.len() > 0 && s.last() == c {
        trim_char(s.drop_last(), c)
    } else {
        s
    }
}

/// `s` with every `c` removed from both ends, in characters.
fn trim_char_exec(v: &Vec<char>, c: char) -> (r: (usize, usize))
    ensures
        r.0 <= r.1 <= v@.len(),
        trim_char(v@, c) == v@.subrange(r.0 as int, r.1 as int),
{
    let mut i: usize = 0;
    let mut j: usize = v.len();
    assert(v@.subrange(0, v@.len() as int) =~= v@);
    while i < j && (v[i] == c || v[j - 1] == c)
        invariant
            i <= j <= v@.len(),
            trim_char(v@, c) == trim_char(v@.subrange(i as int, j as int), c),
        decreases j - i,
    {
        let ghost s = v@.subrange(i as int, j as int);
        if v[i] == c {
            assert(s.drop_first() =~= v@.subrange(i + 1, j as int));
            i = i + 1;
        } else {
            assert(s.drop_last() =~= v@.subrange(i as int, j - 1));
            j = j - 1;
        }
    }
    (i, j)
}

/// A `gsettings` value with whitespace and then quotes trimmed.
pub fn trim_gsettings_value(raw: &str) -> (r: String)
    ensures
        r@ == trim_char(trim(raw@), '\''),
{
    let t = trim_str(raw);
    let v = to_chars(t.as_str());
    let (a, b) = trim_char_exec(&v, '\'');
    from_chars_range(&v, a, b)
}

/// A value is absent when blank or `disabled`.
pub open spec fn value_present(v: Seq<char>) -> bool {
    trim(v).len() > 0 && !eq_ignore_case(trim(v), "disabled"@)
}

/// The trimmed value, or `None` when it is blank or `disabled`.
pub fn empty_to_none(value: String) -> (r: Option<String>)
    ensures
        value_present(value@) ==> opt_view(r) == Some(trim(value@)),
        !value_present(value@) ==> r is None,
{
    let t = trim_str(value.as_str());
    if t.unicode_len() == 0 || str_eq_ignore_case(t.as_str(), "disabled") {
        None
    } else {
        Some(t)
    }
}

/// The command invokes `echopup ... trigger toggle` (ASCII case ignored).
pub open spec fn looks_like_trigger(c: Seq<char>) -> bool {
    let l = lower(c);
    contains(l, "echopup"@) && contains(l, "trigger"@) && contains(l, "toggle"@)
}

/// Whether a shortcut command looks like EchoPup's trigger command.
pub fn looks_like_echopup_trigger_command(command: Option<&str>) -> (r: bool)
    ensures
        r == (command matches Some(c) && looks_like_trigger(c@)),
{
    let c = match command {
        None => return false,
        Some(c) => c,
    };
    let l = str_lower(c);
    str_contains(l.as_str(), "echopup") && str_contains(l.as_str(), "trigger") && str_contains(
        l.as_str(),
        "toggle",
    )
}

/// The entry is bound to `binding` and is EchoPup's (by name or command).
pub open spec fn is_echopup_shortcut_for(e: ShortcutEntry, binding: Seq<char>) -> bool {
    &&& opt_view(e.binding) == Some(binding)
    &&& (opt_view(e.name) == Some("EchoPup Toggle Recording"@) || (e.command matches Some(c)
        && looks_like_trigger(c@)))
}

fn opt_str_eq(o: &Option<String>, s: &str) -> (r: bool)
    ensures
        r == (opt_view(*o) == Some(s@)),
{
    match o {
        Some(x) => str_eq(x.as_str(), s),
        None => false,
    }
}

fn opt_as_str(o: &Option<String>) -> (r: Option<&str>)
    ensures
        match o {
            Some(x) => r matches Some(y) && y@ == x@,
            None => r is None,
        },
{
    match o {
        Some(x) => Some(x.as_str()),
        None => None,
    }
}

/// The first entry bound to `binding` that is EchoPup's shortcut.
pub fn find_matching_echopup_shortcut<'a>(entries: &'a [ShortcutEntry], binding: &str) -> (r: Option<&'a ShortcutEntry>)
    ensures
        match r {
            Some(e) => exists|i: int|
                0 <= i < entries@.len() && entries@[i] == *e && is_echopup_shortcut_for(*e, binding@)
                    && forall|k: int| 0 <= k < i ==> !is_echopup_shortcut_for(#[trigger] entries@[k], binding@),
            None => forall|k: int| 0 <= k < entries@.len() ==> !is_echopup_shortcut_for(#[trigger] entries@[k], binding@),
        },
{
    let mut i: usize = 0;
    while i < entries.len()
        invariant
            i <= entries@.len(),
            forall|k: int| 0 <= k < i ==> !is_echopup_shortcut_for(#[trigger] entries@[k], binding@),
        decreases entries@.len() - i,
    {
        let e = &entries[i];
        if opt_str_eq(&e.binding, binding) && (opt_str_eq(&e.name, ECHOPUP_SHORTCUT_NAME)
            || looks_like_echopup_trigger_command(opt_as_str(&e.command))) {
            return Some(e);
        }
        i = i + 1;
    }
    None
}

/// `schema:path` for a custom keybinding.
pub fn schema_with_path(path: &str) -> (r: String)
    ensures
        r@ == CUSTOM_KEYBINDING_SCHEMA@ + ":"@ + path@,
{
    let mut r = String::from_str(CUSTOM_KEYBINDING_SCHEMA);
    r.append(":");
    r.append(path);
    r
}

/// The `gsettings` value listing `paths`: `['p1', 'p2']`.
pub fn custom_binding_paths_value(paths: &Vec<String>) -> (r: String)
    ensures
        r@ == "["@ + join_with(quoted_all(args_view(paths@)), ", "@) + "]"@,
{
    let mut quoted: Vec<String> = Vec::new();
    let mut i: usize = 0;
    while i < paths.len()
        invariant
            i <= paths@.len(),
            args_view(quoted@) == quoted_all(args_view(paths@).take(i as int)),
        decreases paths@.len() - i,
    {
        let mut q = String::from_str("'");
        q.append(paths[i].as_str());
        q.append("'");
        let ghost before = quoted@;
        assert(q@ == "'"@ + args_view(paths@)[i as int] + "'"@);
        quoted.push(q);
        assert(args_view(quoted@) =~= args_view(before).push(q@));
        i = i + 1;
        assert(args_view(quoted@) =~= quoted_all(args_view(paths@).take(i as int)));
    }
    assert(args_view(paths@).take(paths@.len() as int) =~= args_view(paths@));
    let mut r = String::from_str("[");
    let j = join_strings(&quoted, ", ");
    r.append(j.as_str());
    r.append("]");
    r
}

/// Every path in single quotes.
pub open spec fn quoted_all(paths: Seq<Seq<char>>) -> Seq<Seq<char>> {
    paths.map_values(|p: Seq<char>| "'"@ + p + "'"@)
}

/// The index of a custom keybinding path `BASE + "custom" + n + "/"`.
pub open spec fn binding_index(path: Seq<char>) -> Option<nat> {
    let base = CUSTOM_KEYBINDING_BASE@;
    let pre = base + "custom"@;
    if starts_with(path, pre) && ends_with(path, "/"@) && path.len() >= pre.len() + 1 {
        parse_unsigned(path.subrange(pre.len() as int, path.len() - 1), usize::MAX as nat)
    } else {
        None
    }
}

/// The largest index among the paths, if any has one.
pub open spec fn max_binding_index(paths: Seq<Seq<char>>) -> Option<nat>
    decreases paths.len(),
{
    if paths.len() == 0 {
        None
    } else {
        let rest = max_binding_index(paths.drop_last());
        match (rest, binding_index(paths.last())) {
            (Some(a), Some(b)) => Some(if a >= b { a } else { b }),
            (Some(a), None) => Some(a),
            (None, b) => b,
        }
    }
}

/// The index of the next custom keybinding path: one more than the
/// largest in use, or 0.
pub open spec fn next_binding_index(paths: Seq<Seq<char>>) -> nat {
    match max_binding_index(paths) {
        Some(m) => m + 1,
        None => 0,
    }
}

/// The index of a custom keybinding path, if it has the expected shape.
pub fn custom_binding_index(path: &str) -> (r: Option<usize>)
    ensures
        r matches Some(n) ==> binding_index(path@) == Some(n as nat),
        r is None ==> binding_index(path@) is None,
{
    let v = to_chars(path);
    let mut pre = String::from_str(CUSTOM_KEYBINDING_BASE);
    pre.append("custom");
    let p = to_chars(pre.as_str());
    if !crate::text::matches_at(&v, &p, 0) || v.len() == p.len() || v[v.len() - 1] != '/' {
        proof {
            reveal_strlit("/");
            if starts_with(path@, pre@) && path@.len() >= pre@.len() + 1 {
                assert(path@.subrange(0, pre@.len() as int) =~= path@.take(pre@.len() as int));
            }
            if ends_with(path@, "/"@) {
                assert(path@.skip(path@.len() - 1)[0] == path@[path@.len() - 1]);
            }
        }
        return None;
    }
    proof {
        reveal_strlit("/");
        assert(path@.subrange(0, pre@.len() as int) =~= path@.take(pre@.len() as int));
        assert(path@.skip(path@.len() - 1) =~= "/"@);
    }
    let digits = from_chars_range(&v, p.len(), v.len() - 1);
    match parse_u64(digits.as_str()) {
        Some(n) => {
            if n <= usize::MAX as u64 {
                Some(n as usize)
            } else {
                proof {
                    lemma_parse_bound(digits@, n as nat);
                }
                None
            }
        },
        None => {
            proof {
                lemma_parse_none_smaller(digits@);
            }
            None
        },
    }
}

proof fn lemma_parse_bound(s: Seq<char>, n: nat)
    requires
        parse_unsigned(s, u64::MAX as nat) == Some(n),
        n > usize::MAX,
    ensures
        parse_unsigned(s, usize::MAX as nat) is None,
{
}

proof fn lemma_parse_none_smaller(s: Seq<char>)
    requires
        parse_unsigned(s, u64::MAX as nat) is None,
    ensures
        parse_unsigned(s, usize::MAX as nat) is None,
{
}

/// The path of the next custom keybinding.
pub fn next_custom_binding_path(existing_paths: &[String]) -> (r: String)
    requires
        max_binding_index(args_view(existing_paths@)) matches Some(m) ==> m < usize::MAX,
    ensures
        r@ == CUSTOM_KEYBINDING_BASE@ + "custom"@ + decimal(next_binding_index(args_view(existing_paths@)))
            + "/"@,
{
    let ghost pv = args_view(existing_paths@);
    let mut best: Option<usize> = None;
    let mut i: usize = 0;
    assert(pv.take(0) =~= Seq::<Seq<char>>::empty());
    while i < existing_paths.len()
        invariant
            i <= existing_paths@.len(),
            pv == args_view(existing_paths@),
            max_binding_index(pv.take(i as int)) == match best {
                Some(b) => Some(b as nat),
                None => None::<nat>,
            },
        decreases existing_paths@.len() - i,
    {
        assert(pv.take(i + 1).drop_last() =~= pv.take(i as int));
        let idx = custom_binding_index(existing_paths[i].as_str());
        best = match (best, idx) {
            (Some(a), Some(b)) => Some(if a >= b { a } else { b }),
            (Some(a), None) => Some(a),
            (None, b) => b,
        };
        i = i + 1;
    }
    assert(pv.take(existing_paths@.len() as int) =~= pv);
    let next: usize = match best {
        Some(m) => m + 1,
        None => 0,
    };
    let mut r = String::from_str(CUSTOM_KEYBINDING_BASE);
    r.append("custom");
    let d = u64_to_decimal(next as u64);
    r.append(d.as_str());
    r.append("/");
    r
}

/// Whether the session is GNOME on Wayland: `XDG_SESSION_TYPE` is
/// `wayland` and some `:`-entry of `XDG_CURRENT_DESKTOP` is `gnome` or
/// `ubuntu` (ASCII case ignored).
pub fn is_gnome_wayland_session(session_type: Option<&str>, current_desktop: &str) -> (r: bool)
    ensures
        r == ((session_type matches Some(t) && eq_ignore_case(t@, "wayland"@)) && exists|i: int|
            0 <= i < split_char(current_desktop@, ':').len() && is_gnome_entry(
                #[trigger] split_char(current_desktop@, ':')[i],
            )),
{
    let is_wayland = match session_type {
        Some(t) => str_eq_ignore_case(t, "wayland"),
        None => false,
    };
    let parts = split_str(current_desktop, ':');
    let ghost pv = args_view(parts@);
    let mut gnome = false;
    let mut i: usize = 0;
    while i < parts.len()
        invariant
            i <= parts@.len(),
            pv == args_view(parts@),
            pv == split_char(current_desktop@, ':'),
            gnome == exists|k: int| 0 <= k < i && is_gnome_entry(#[trigger] pv[k]),
        decreases parts@.len() - i,
    {
        let p = parts[i].as_str();
        if str_eq_ignore_case(p, "gnome") || str_eq_ignore_case(p, "ubuntu") {
            assert(is_gnome_entry(pv[i as int]));
            gnome = true;
        }
        i = i + 1;
    }
    assert(pv.len() == parts@.len());
    is_wayland && gnome
}

/// A desktop entry naming GNOME (Ubuntu's GNOME counts).
pub open spec fn is_gnome_entry(e: Seq<char>) -> bool {
    eq_ignore_case(e, "gnome"@) || eq_ignore_case(e, "ubuntu"@)
}


/// A copy of an optional string.
pub fn clone_opt(o: &Option<String>) -> (r: Option<String>)
    ensures
        opt_view(r) == opt_view(*o),
{
    match o {
        Some(x) => Some(copy_str(x.as_str())),
        None => None,
    }
}

/// The entry is EchoPup's shortcut: same command, or EchoPup's name.
pub open spec fn is_installed_entry(e: ShortcutEntry, command_line: Seq<char>) -> bool {
    opt_view(e.command) == Some(command_line) || opt_view(e.name) == Some("EchoPup Toggle Recording"@)
}

/// The entry is bound to `binding`.
pub open spec fn is_bound_to(e: ShortcutEntry, binding: Seq<char>) -> bool {
    opt_view(e.binding) == Some(binding)
}

/// What installing the shortcut needs, given the existing shortcuts.
#[derive(Debug, Clone)]
pub enum ShortcutPlan {
    /// EchoPup's shortcut exists already (with this binding).
    AlreadyInstalled { binding: Option<String> },
    /// Another shortcut uses the binding.
    BindingConflict { binding: String, shortcut_name: Option<String> },
    /// Write `paths` (the old ones and `new_path`), then the new shortcut
    /// at `new_path`.
    Install { paths: Vec<String>, new_path: String },
}

/// Decides how to install EchoPup's GNOME shortcut for `command_line` on
/// `binding`: keep an existing one, refuse a taken binding, or add a new
/// custom keybinding after the existing ones.
pub fn plan_shortcut_install(entries: &Vec<ShortcutEntry>, command_line: &str, binding: &str) -> (r: ShortcutPlan)
    requires
        max_binding_index(entry_paths(entries@)) matches Some(m) ==> m < usize::MAX,
    ensures
        match r {
            ShortcutPlan::AlreadyInstalled { binding: b } => exists|i: int|
                0 <= i < entries@.len() && is_installed_entry(#[trigger] entries@[i], command_line@)
                    && opt_view(b) == opt_view(entries@[i].binding)
                    && forall|k: int| 0 <= k < i ==> !is_installed_entry(#[trigger] entries@[k], command_line@),
            ShortcutPlan::BindingConflict { binding: b, shortcut_name } => (forall|k: int|
                0 <= k < entries@.len() ==> !is_installed_entry(#[trigger] entries@[k], command_line@))
                && b@ == binding@ && exists|i: int|
                0 <= i < entries@.len() && is_bound_to(#[trigger] entries@[i], binding@)
                    && opt_view(shortcut_name) == opt_view(entries@[i].name)
                    && forall|k: int| 0 <= k < i ==> !is_bound_to(#[trigger] entries@[k], binding@),
            ShortcutPlan::Install { paths, new_path } => (forall|k: int|
                0 <= k < entries@.len() ==> !is_installed_entry(#[trigger] entries@[k], command_line@)
                    && !is_bound_to(entries@[k], binding@))
                && new_path@ == CUSTOM_KEYBINDING_BASE@ + "custom"@ + decimal(next_binding_index(entry_paths(entries@))) + "/"@
                && args_view(paths@) == entry_paths(entries@).push(new_path@),
        },
{
    let mut i: usize = 0;
    while i < entries.len()
        invariant
            i <= entries@.len(),
            forall|k: int| 0 <= k < i ==> !is_installed_entry(#[trigger] entries@[k], command_line@),
        decreases entries@.len() - i,
    {
        if opt_str_eq(&entries[i].command, command_line) || opt_str_eq(&entries[i].name, ECHOPUP_SHORTCUT_NAME) {
            return ShortcutPlan::AlreadyInstalled { binding: clone_opt(&entries[i].binding) };
        }
        i = i + 1;
    }
    let mut j: usize = 0;
    while j < entries.len()
        invariant
            j <= entries@.len(),
            forall|k: int| 0 <= k < entries@.len() ==> !is_installed_entry(#[trigger] entries@[k], command_line@),
            forall|k: int| 0 <= k < j ==> !is_bound_to(#[trigger] entries@[k], binding@),
        decreases entries@.len() - j,
    {
        if opt_str_eq(&entries[j].binding, binding) {
            return ShortcutPlan::BindingConflict {
                binding: String::from_str(binding),
                shortcut_name: clone_opt(&entries[j].name),
            };
        }
        j = j + 1;
    }
    let paths = collect_paths(entries);
    let new_path = next_custom_binding_path(paths.as_slice());
    let mut all = paths;
    let ghost before = all@;
    all.push(copy_str(new_path.as_str()));
    assert(args_view(all@) =~= args_view(before).push(new_path@));
    ShortcutPlan::Install { paths: all, new_path }
}

/// The paths of the entries.
pub open spec fn entry_paths(entries: Seq<ShortcutEntry>) -> Seq<Seq<char>> {
    entries.map_values(|e: ShortcutEntry| e.path@)
}

fn collect_paths(entries: &Vec<ShortcutEntry>) -> (r: Vec<String>)
    ensures
        args_view(r@) == entry_paths(entries@),
{
    let mut r: Vec<String> = Vec::new();
    let mut i: usize = 0;
    while i < entries.len()
        invariant
            i <= entries@.len(),
            args_view(r@) == entry_paths(entries@).take(i as int),
        decreases entries@.len() - i,
    {
        let ghost before = r@;
        r.push(copy_str(entries[i].path.as_str()));
        assert(args_view(r@) =~= args_view(before).push(entries@[i as int].path@));
        i = i + 1;
        assert(args_view(r@) =~= entry_paths(entries@).take(i as int));
    }
    assert(entry_paths(entries@).take(entries@.len() as int) =~= entry_paths(entries@));
    r
}

/// The shortcut that would fire together with EchoPup's built-in hotkey
/// on `binding`, if any: an EchoPup shortcut bound to it.
pub fn find_echopup_shortcut_conflict_in(entries: &Vec<ShortcutEntry>, binding: &str) -> (r: Option<ShortcutConflict>)
    ensures
        match r {
            Some(c) => c.binding@ == binding@ && exists|i: int|
                0 <= i < entries@.len() && is_echopup_shortcut_for(#[trigger] entries@[i], binding@)
                    && opt_view(c.name) == opt_view(entries@[i].name)
                    && opt_view(c.command) == opt_view(entries@[i].command)
                    && forall|k: int| 0 <= k < i ==> !is_echopup_shortcut_for(#[trigger] entries@[k], binding@),
            None => forall|k: int| 0 <= k < entries@.len() ==> !is_echopup_shortcut_for(#[trigger] entries@[k], binding@),
        },
{
    match find_matching_echopup_shortcut(entries.as_slice(), binding) {
        Some(e) => Some(ShortcutConflict {
            name: clone_opt(&e.name),
            command: clone_opt(&e.command),
            binding: String::from_str(binding),
        }),
        None => None,
    }
}

/// `gsettings writable` says the keybindings can be written: it succeeded
/// and printed `true`.
pub fn gsettings_available(succeeded: bool, stdout: &str) -> (r: bool)
    ensures
        r == (succeeded && trim(stdout@) == "true"@),
{
    if !succeeded {
        return false;
    }
    let t = trim_str(stdout);
    str_eq(t.as_str(), "true")
}

/// The next step of installing EchoPup's GNOME shortcut.
#[derive(Debug, Clone)]
pub enum ShortcutInstallStep {
    /// Nothing to write; this is the outcome.
    Report(ShortcutInstallResult),
    /// Write `paths` as the list of custom keybindings, then the new
    /// shortcut's name, command and binding at `new_path`; the outcome is
    /// then `Installed`.
    Write { paths: Vec<String>, new_path: String },
}

/// Decides about EchoPup's GNOME shortcut: only on GNOME under Wayland,
/// only when `gsettings` can write, and then as `plan_shortcut_install`
/// decides on the existing `entries` (which are read only in that case).
pub fn maybe_install_gnome_wayland_shortcut(
    is_gnome_wayland: bool,
    gsettings_writable: bool,
    entries: &Vec<ShortcutEntry>,
    command_line: &str,
    binding: &str,
) -> (r: ShortcutInstallStep)
    requires
        max_binding_index(entry_paths(entries@)) matches Some(m) ==> m < usize::MAX,
    ensures
        !is_gnome_wayland ==> r matches ShortcutInstallStep::Report(
            ShortcutInstallResult::UnsupportedEnvironment,
        ),
        is_gnome_wayland && !gsettings_writable ==> r matches ShortcutInstallStep::Report(
            ShortcutInstallResult::GsettingsUnavailable,
        ),
        is_gnome_wayland && gsettings_writable ==> match r {
            ShortcutInstallStep::Report(ShortcutInstallResult::AlreadyInstalled { binding: b }) =>
                exists|i: int|
                0 <= i < entries@.len() && is_installed_entry(#[trigger] entries@[i], command_line@)
                    && opt_view(b) == opt_view(entries@[i].binding)
                    && forall|k: int| 0 <= k < i ==> !is_installed_entry(#[trigger] entries@[k], command_line@),
            ShortcutInstallStep::Report(ShortcutInstallResult::BindingConflict { binding: b, shortcut_name }) =>
                (forall|k: int|
                0 <= k < entries@.len() ==> !is_installed_entry(#[trigger] entries@[k], command_line@))
                && b@ == binding@ && exists|i: int|
                0 <= i < entries@.len() && is_bound_to(#[trigger] entries@[i], binding@)
                    && opt_view(shortcut_name) == opt_view(entries@[i].name)
                    && forall|k: int| 0 <= k < i ==> !is_bound_to(#[trigger] entries@[k], binding@),
            ShortcutInstallStep::Write { paths, new_path } => (forall|k: int|
                0 <= k < entries@.len() ==> !is_installed_entry(#[trigger] entries@[k], command_line@)
                    && !is_bound_to(entries@[k], binding@))
                && new_path@ == CUSTOM_KEYBINDING_BASE@ + "custom"@ + decimal(next_binding_index(entry_paths(entries@))) + "/"@
                && args_view(paths@) == entry_paths(entries@).push(new_path@),
            _ => false,
        },
{
    if !is_gnome_wayland {
        return ShortcutInstallStep::Report(ShortcutInstallResult::UnsupportedEnvironment);
    }
    if !gsettings_writable {
        return ShortcutInstallStep::Report(ShortcutInstallResult::GsettingsUnavailable);
    }
    match plan_shortcut_install(entries, command_line, binding) {
        ShortcutPlan::AlreadyInstalled { binding: b } => ShortcutInstallStep::Report(
            ShortcutInstallResult::AlreadyInstalled { binding: b },
        ),
        ShortcutPlan::BindingConflict { binding: b, shortcut_name } => ShortcutInstallStep::Report(
            ShortcutInstallResult::BindingConflict { binding: b, shortcut_name },
        ),
        ShortcutPlan::Install { paths, new_path } => ShortcutInstallStep::Write { paths, new_path },
    }
}

/// EchoPup's own shortcut on `binding`, when `gsettings` can be used; the
/// entries are read only in that case.
pub fn find_echopup_shortcut_conflict(
    gsettings_writable: bool,
    entries: &Vec<ShortcutEntry>,
    binding: &str,
) -> (r: Option<ShortcutConflict>)
    ensures
        !gsettings_writable ==> r is None,
        gsettings_writable ==> match r {
            Some(c) => c.binding@ == binding@ && exists|i: int|
                0 <= i < entries@.len() && is_echopup_shortcut_for(#[trigger] entries@[i], binding@)
                    && opt_view(c.name) == opt_view(entries@[i].name)
                    && opt_view(c.command) == opt_view(entries@[i].command)
                    && forall|k: int| 0 <= k < i ==> !is_echopup_shortcut_for(#[trigger] entries@[k], binding@),
            None => forall|k: int| 0 <= k < entries@.len() ==> !is_echopup_shortcut_for(#[trigger] entries@[k], binding@),
        },
{
    if !gsettings_writable {
        return None;
    }
    find_echopup_shortcut_conflict_in(entries, binding)
}

} // verus!
