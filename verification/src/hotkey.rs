//! Hotkey rules: which keys may serve as the recording hotkey, how the
//! listener is chosen, and the state machine of the low-level listener.

use vstd::prelude::*;
use crate::text::{
    decimal, lower, lower_chars, remove_chars, split_char, split_str, str_eq, to_chars, trim,
    trim_str, u64_to_decimal, from_chars,
};

verus! {

/// At most this many keys make up a hotkey.
pub const MAX_HOTKEY_KEYS: usize = 3;

/// Modifier bits of `keyboard_types::Modifiers`.
pub const MOD_ALT: u32 = 0x1;
pub const MOD_CONTROL: u32 = 0x8;
pub const MOD_META: u32 = 0x40;
pub const MOD_SHIFT: u32 = 0x200;

/// A hotkey event.
#[derive(Debug, Clone, Copy, PartialEq, Eq, Structural)]
pub enum HotkeyEvent {
    Pressed,
    Released,
}

/// Advice on acceptable hotkeys.
pub fn hotkey_policy_hint() -> (r: &'static str)
    ensures
        r@ == policy_hint(),
{
    "建议使用 ctrl/right_ctrl、单独 F1-F24，或至少包含 ctrl/alt/super 的组合键（最多3键，不支持仅 Shift 组合）"
}

/// The text of [`hotkey_policy_hint`].
pub open spec fn policy_hint() -> Seq<char> {
    "建议使用 ctrl/right_ctrl、单独 F1-F24，或至少包含 ctrl/alt/super 的组合键（最多3键，不支持仅 Shift 组合）"@
}

/// Why a global hotkey cannot be used in a Linux Wayland session.
pub fn linux_wayland_hotkey_unsupported_message() -> (r: &'static str)
    ensures
        r@ == wayland_message(),
{
    "当前 Linux Wayland 会话暂不支持 EchoPup 全局热键监听；请切换到 X11 会话运行。为避免静默失效，当前版本会直接报错。"
}

/// The text of [`linux_wayland_hotkey_unsupported_message`].
pub open spec fn wayland_message() -> Seq<char> {
    "当前 Linux Wayland 会话暂不支持 EchoPup 全局热键监听；请切换到 X11 会话运行。为避免静默失效，当前版本会直接报错。"@
}

/// Number of pieces that stay non-blank after trimming.
pub open spec fn count_nonblank(pieces: Seq<Seq<char>>) -> nat
    decreases pieces.len(),
{
    if pieces.len() == 0 {
        0
    } else {
        count_nonblank(pieces.drop_last()) + if trim(pieces.last()).len() > 0 {
            1nat
        } else {
            0nat
        }
    }
}

/// The number of keys in a hotkey: the non-blank `+`-separated parts.
pub open spec fn key_count(key: Seq<char>) -> nat {
    count_nonblank(split_char(key, '+'))
}

/// Counts the keys of a hotkey.
pub fn hotkey_key_count(key: &str) -> (r: usize)
    ensures
        r == key_count(key@),
{
    let parts = split_str(key, '+');
    let ghost pv = parts@.map_values(|p: String| p@);
    let mut n: usize = 0;
    let mut i: usize = 0;
    assert(pv.take(0) =~= Seq::<Seq<char>>::empty());
    while i < parts.len()
        invariant
            i <= parts@.len(),
            pv == parts@.map_values(|p: String| p@),
            n == count_nonblank(pv.take(i as int)),
            n <= i,
        decreases parts@.len() - i,
    {
        let t = trim_str(parts[i].as_str());
        assert(pv.take(i + 1).drop_last() =~= pv.take(i as int));
        if t.unicode_len() != 0 {
            n = n + 1;
        }
        i = i + 1;
    }
    assert(pv.take(parts@.len() as int) =~= pv);
    n
}

/// Characters dropped when normalizing a key name.
pub open spec fn is_key_name_separator(c: char) -> bool {
    c == ' ' || c == '_' || c == '-'
}

/// A key name lower-cased (ASCII) with spaces, `_` and `-` removed.
pub open spec fn normalized_key_name(key: Seq<char>) -> Seq<char> {
    remove_chars(lower(key), |c: char| is_key_name_separator(c))
}

/// Normalizes a key name.
pub fn normalize_key_name(key: &str) -> (r: String)
    ensures
        r@ == normalized_key_name(key@),
{
    let v = to_chars(key);
    let l = lower_chars(&v);
    let mut out: Vec<char> = Vec::new();
    let mut i: usize = 0;
    assert(l@.take(0) =~= Seq::<char>::empty());
    while i < l.len()
        invariant
            i <= l@.len(),
            l@ == lower(key@),
            out@ == remove_chars(l@.take(i as int), |c: char| is_key_name_separator(c)),
        decreases l@.len() - i,
    {
        let c = l[i];
        assert(l@.take(i + 1).drop_last() =~= l@.take(i as int));
        if !(c == ' ' || c == '_' || c == '-') {
            out.push(c);
        }
        i = i + 1;
    }
    assert(l@.take(l@.len() as int) =~= l@);
    from_chars(&out)
}

/// The names under which the Control key alone is accepted.
pub open spec fn is_ctrl_name(n: Seq<char>) -> bool {
    ||| n == "ctrl"@
    ||| n == "control"@
    ||| n == "leftctrl"@
    ||| n == "lctrl"@
    ||| n == "ctrlleft"@
    ||| n == "leftcontrol"@
    ||| n == "rightctrl"@
    ||| n == "rctrl"@
    ||| n == "ctrlright"@
    ||| n == "controlright"@
    ||| n == "rightcontrol"@
}

/// Whether `key` names the Control key alone (either side).
pub fn is_right_ctrl_alias(key: &str) -> (r: bool)
    ensures
        r == is_ctrl_name(normalized_key_name(key@)),
{
    let n = normalize_key_name(key);
    let s = n.as_str();
    str_eq(s, "ctrl") || str_eq(s, "control") || str_eq(s, "leftctrl") || str_eq(s, "lctrl")
        || str_eq(s, "ctrlleft") || str_eq(s, "leftcontrol") || str_eq(s, "rightctrl") || str_eq(
        s,
        "rctrl",
    ) || str_eq(s, "ctrlright") || str_eq(s, "controlright") || str_eq(s, "rightcontrol")
}

/// Reads the output of `defaults read -g com.apple.keyboard.fnState`.
pub fn parse_macos_fn_state_output(output: &str) -> (r: Option<bool>)
    ensures
        r == (if trim(output@) == "1"@ {
            Some(true)
        } else if trim(output@) == "0"@ {
            Some(false)
        } else {
            None
        }),
{
    let t = trim_str(output);
    if str_eq(t.as_str(), "1") {
        Some(true)
    } else if str_eq(t.as_str(), "0") {
        Some(false)
    } else {
        None
    }
}

/// A parsed hotkey: the modifier bits and the name of the main key, as
/// `keyboard_types::Code` displays it (for example `F12` or `KeyZ`).
#[derive(Debug, Clone)]
pub struct HotkeySpec {
    pub mods: u32,
    pub key: String,
}

/// The mathematical content of a hotkey parse result.
pub open spec fn parse_view(r: Result<HotkeySpec, String>) -> Result<(u32, Seq<char>), Seq<char>> {
    match r {
        Ok(h) => Ok((h.mods, h.key@)),
        Err(e) => Err(e@),
    }
}

/// What `global_hotkey` makes of a hotkey string: the modifier bits and the
/// main key's name, or the parse error's debug text.
pub uninterp spec fn hotkey_parse_result(key: Seq<char>) -> Result<(u32, Seq<char>), Seq<char>>;

/// Parses a hotkey with `global_hotkey::hotkey::HotKey`'s `FromStr`; the
/// result is named by [`hotkey_parse_result`] (the grammar is that crate's).
#[verifier::external_body]
fn parse_hotkey_wrapper(key: &str) -> (r: Result<HotkeySpec, String>)
    ensures
        parse_view(r) == hotkey_parse_result(key@),
{
    match key.parse::<global_hotkey::hotkey::HotKey>() {
        Ok(h) => Ok(HotkeySpec { mods: h.mods.bits(), key: h.key.to_string() }),
        Err(e) => Err(format!("{:?}", e)),
    }
}

/// Parses a hotkey string.
pub fn parse_hotkey(key: &str) -> (r: Result<HotkeySpec, String>)
    ensures
        parse_view(r) == hotkey_parse_result(key@),
{
    parse_hotkey_wrapper(key)
}

/// The number of a function key name `F1` .. `F35`, if it is one.
pub open spec fn function_key_number(name: Seq<char>) -> Option<nat> {
    if name.len() == 2 && name[0] == 'F' && '1' <= name[1] <= '9' {
        Some(((name[1] as u32) - 48) as nat)
    } else if name.len() == 3 && name[0] == 'F' && '1' <= name[1] <= '3' && '0' <= name[2] <= '9' {
        Some((((name[1] as u32) - 48) * 10 + ((name[2] as u32) - 48)) as nat)
    } else {
        None
    }
}

/// The key is one of `F1` .. `F24`.
pub open spec fn is_function_key(name: Seq<char>) -> bool {
    function_key_number(name) matches Some(n) && 1 <= n <= 24
}

/// The key is one of `F1` .. `F12`.
pub open spec fn is_f1_to_f12(name: Seq<char>) -> bool {
    function_key_number(name) matches Some(n) && 1 <= n <= 12
}

/// The number of a function key name.
pub fn function_key_index(name: &str) -> (r: Option<u8>)
    ensures
        r matches Some(n) ==> function_key_number(name@) == Some(n as nat),
        r is None ==> function_key_number(name@) is None,
{
    let v = to_chars(name);
    if v.len() == 2 && v[0] == 'F' && '1' <= v[1] && v[1] <= '9' {
        Some((v[1] as u32 - 48) as u8)
    } else if v.len() == 3 && v[0] == 'F' && '1' <= v[1] && v[1] <= '3' && '0' <= v[2] && v[2]
        <= '9' {
        Some(((v[1] as u32 - 48) * 10 + (v[2] as u32 - 48)) as u8)
    } else {
        None
    }
}

/// Control, Alt or Meta (Super) is held.
pub open spec fn has_primary_modifier(mods: u32) -> bool {
    mods & (MOD_CONTROL | MOD_ALT | MOD_META) != 0
}

/// A hotkey without a primary modifier that is not a function key would
/// swallow ordinary typing.
pub open spec fn too_broad(mods: u32, key: Seq<char>) -> bool {
    !has_primary_modifier(mods) && !is_function_key(key)
}

/// Why a hotkey is refused.
#[derive(Debug, Clone)]
pub enum HotkeyError {
    /// No key given.
    Empty,
    /// More keys than allowed.
    TooManyKeys { count: usize },
    /// Global hotkeys are not available in a Linux Wayland session.
    WaylandUnsupported,
    /// The hotkey could not be parsed.
    Unparsable { detail: String },
    /// Shift is the only modifier.
    ShiftOnly,
    /// The hotkey would swallow ordinary typing.
    TooBroad { key: String },
}

/// The mathematical content of a hotkey error.
pub ghost enum HotkeyErrorKind {
    Empty,
    TooManyKeys { count: nat },
    WaylandUnsupported,
    Unparsable { detail: Seq<char> },
    ShiftOnly,
    TooBroad { key: Seq<char> },
}

impl View for HotkeyError {
    type V = HotkeyErrorKind;

    open spec fn view(&self) -> HotkeyErrorKind {
        match self {
            HotkeyError::Empty => HotkeyErrorKind::Empty,
            HotkeyError::TooManyKeys { count } => HotkeyErrorKind::TooManyKeys {
                count: *count as nat,
            },
            HotkeyError::WaylandUnsupported => HotkeyErrorKind::WaylandUnsupported,
            HotkeyError::Unparsable { detail } => HotkeyErrorKind::Unparsable { detail: detail@ },
            HotkeyError::ShiftOnly => HotkeyErrorKind::ShiftOnly,
            HotkeyError::TooBroad { key } => HotkeyErrorKind::TooBroad { key: key@ },
        }
    }
}

/// The message of a hotkey error.
pub open spec fn hotkey_error_message(e: HotkeyErrorKind) -> Seq<char> {
    match e {
        HotkeyErrorKind::Empty => "热键不能为空"@,
        HotkeyErrorKind::TooManyKeys { count } => "热键最多支持 3 个键，当前为 "@ + decimal(count)
            + " 个"@,
        HotkeyErrorKind::WaylandUnsupported => wayland_message(),
        HotkeyErrorKind::Unparsable { detail } => "无法解析热键: "@ + detail,
        HotkeyErrorKind::ShiftOnly => "不支持仅使用 Shift 作为修饰键（例如 shift+z）。"@ + policy_hint(),
        HotkeyErrorKind::TooBroad { key } => "热键 '"@ + key + "' 会吞掉常用输入键，风险较高。"@
            + policy_hint(),
    }
}

impl HotkeyError {
    /// The message shown to the user.
    pub fn message(&self) -> (r: String)
        ensures
            r@ == hotkey_error_message(self@),
    {
        match self {
            HotkeyError::Empty => String::from_str("热键不能为空"),
            HotkeyError::TooManyKeys { count } => {
                let mut r = String::from_str("热键最多支持 3 个键，当前为 ");
                let d = u64_to_decimal(*count as u64);
                r.append(d.as_str());
                r.append(" 个");
                r
            },
            HotkeyError::WaylandUnsupported => String::from_str(
                linux_wayland_hotkey_unsupported_message(),
            ),
            HotkeyError::Unparsable { detail } => {
                let mut r = String::from_str("无法解析热键: ");
                r.append(detail.as_str());
                r
            },
            HotkeyError::ShiftOnly => {
                let mut r = String::from_str("不支持仅使用 Shift 作为修饰键（例如 shift+z）。");
                r.append(hotkey_policy_hint());
                r
            },
            HotkeyError::TooBroad { key } => {
                let mut r = String::from_str("热键 '");
                r.append(key.as_str());
                r.append("' 会吞掉常用输入键，风险较高。");
                r.append(hotkey_policy_hint());
                r
            },
        }
    }
}

/// The checks that follow parsing, on the parse result.
pub open spec fn check_parsed(key: Seq<char>, parsed: Result<(u32, Seq<char>), Seq<char>>) -> Result<
    (),
    HotkeyErrorKind,
> {
    match parsed {
        Err(detail) => Err(HotkeyErrorKind::Unparsable { detail }),
        Ok((mods, name)) => if !has_primary_modifier(mods) && mods & MOD_SHIFT != 0 {
            Err(HotkeyErrorKind::ShiftOnly)
        } else if too_broad(mods, name) {
            Err(HotkeyErrorKind::TooBroad { key })
        } else {
            Ok(())
        },
    }
}

/// The outcome of validating `key` in a session (`is_wayland`), given what
/// parsing `key` yields.
pub open spec fn validation(key: Seq<char>, is_wayland: bool, parsed: Result<(u32, Seq<char>), Seq<char>>) -> Result<(), HotkeyErrorKind> {
    let n = key_count(key);
    if n == 0 {
        Err(HotkeyErrorKind::Empty)
    } else if n > MAX_HOTKEY_KEYS {
        Err(HotkeyErrorKind::TooManyKeys { count: n })
    } else if is_wayland {
        Err(HotkeyErrorKind::WaylandUnsupported)
    } else if is_ctrl_name(normalized_key_name(key)) {
        Ok(())
    } else {
        check_parsed(key, parsed)
    }
}

/// The mathematical content of a validation result.
pub open spec fn result_view(r: Result<(), HotkeyError>) -> Result<(), HotkeyErrorKind> {
    match r {
        Ok(()) => Ok(()),
        Err(e) => Err(e@),
    }
}

/// The checks on a parsed hotkey: Shift may not be the only modifier, and
/// a hotkey without Control/Alt/Meta must be a function key.
pub fn validate_parsed_hotkey(key: &str, parsed: Result<HotkeySpec, String>) -> (r: Result<
    (),
    HotkeyError,
>)
    ensures
        result_view(r) == check_parsed(key@, parse_view(parsed)),
{
    match parsed {
        Err(detail) => Err(HotkeyError::Unparsable { detail }),
        Ok(h) => {
            let primary = h.mods & (MOD_CONTROL | MOD_ALT | MOD_META) != 0;
            if !primary && h.mods & MOD_SHIFT != 0 {
                return Err(HotkeyError::ShiftOnly);
            }
            let f = function_key_index(h.key.as_str());
            let is_fn = match f {
                Some(n) => 1 <= n && n <= 24,
                None => false,
            };
            if !primary && !is_fn {
                return Err(HotkeyError::TooBroad { key: String::from_str(key) });
            }
            Ok(())
        },
    }
}

/// Validates a hotkey for a session; `is_wayland` tells whether the
/// session is a Linux Wayland one.
pub fn validate_hotkey_config_for_session(key: &str, is_wayland: bool) -> (r: Result<
    (),
    HotkeyError,
>)
    ensures
        result_view(r) == validation(key@, is_wayland, hotkey_parse_result(key@)),
{
    let n = hotkey_key_count(key);
    if n == 0 {
        return Err(HotkeyError::Empty);
    }
    if n > MAX_HOTKEY_KEYS {
        return Err(HotkeyError::TooManyKeys { count: n });
    }
    if is_wayland {
        return Err(HotkeyError::WaylandUnsupported);
    }
    if is_right_ctrl_alias(key) {
        return Ok(());
    }
    let parsed = parse_hotkey(key);
    validate_parsed_hotkey(key, parsed)
}

/// Validates the hotkey for the current session, whose type is the value
/// of `XDG_SESSION_TYPE` (Wayland when it is `wayland` in any case).
pub fn validate_hotkey_config(key: &str, xdg_session_type: Option<&str>) -> (r: Result<(), HotkeyError>)
    ensures
        result_view(r) == validation(
            key@,
            xdg_session_type matches Some(t) && crate::text::eq_ignore_case(t@, "wayland"@),
            hotkey_parse_result(key@),
        ),
{
    let is_wayland = crate::keyboard::session_type_is_wayland(xdg_session_type);
    validate_hotkey_config_for_session(key, is_wayland)
}

/// Whether a plain F1..F12 hotkey is watched with the low-level listener:
/// on Linux only outside Wayland.
pub fn should_use_low_level_function_key_listener_for_session(hotkey: &HotkeySpec, is_wayland: bool) -> (r: bool)
    ensures
        r == (!is_wayland && hotkey.mods == 0 && is_f1_to_f12(hotkey.key@)),
{
    if is_wayland || hotkey.mods != 0 {
        return false;
    }
    match function_key_index(hotkey.key.as_str()) {
        Some(n) => 1 <= n && n <= 12,
        None => false,
    }
}

/// How the hotkey is watched.
#[derive(Debug, Clone, Copy, PartialEq, Eq, Structural)]
pub enum ListenerMode {
    /// Registered through `global_hotkey`.
    GlobalHotkey,
    /// Either Control key alone, through the low-level listener.
    RightCtrl,
    /// A function key without modifiers (its number), through the low-level listener.
    FunctionKeyNoMods(u8),
}

/// The listener mode for a valid hotkey.
pub open spec fn listener_mode_for(key: Seq<char>, parsed: Result<(u32, Seq<char>), Seq<char>>) -> Option<ListenerMode> {
    if is_ctrl_name(normalized_key_name(key)) {
        Some(ListenerMode::RightCtrl)
    } else {
        match parsed {
            Ok((mods, name)) => if mods == 0 && is_f1_to_f12(name) {
                match function_key_number(name) {
                    Some(n) => Some(ListenerMode::FunctionKeyNoMods(n as u8)),
                    None => None,
                }
            } else {
                Some(ListenerMode::GlobalHotkey)
            },
            Err(_) => None,
        }
    }
}

/// Decides how `key` is watched: validates it, then picks the listener
/// (what `HotkeyListener::set_hotkey` decides before registering).
pub fn plan_listener_mode(key: &str, is_wayland: bool) -> (r: Result<(ListenerMode, Option<HotkeySpec>), HotkeyError>)
    ensures
        ({
            let v = validation(key@, is_wayland, hotkey_parse_result(key@));
            match r {
                Err(e) => v == Err::<(), HotkeyErrorKind>(e@),
                Ok((m, h)) => v == Ok::<(), HotkeyErrorKind>(())
                    && listener_mode_for(key@, hotkey_parse_result(key@)) == Some(m)
                    && (h matches Some(h) ==> parse_view(Ok(h)) == hotkey_parse_result(key@)),
            }
        }),
{
    validate_hotkey_config_for_session(key, is_wayland)?;
    if is_right_ctrl_alias(key) {
        return Ok((ListenerMode::RightCtrl, None));
    }
    let parsed = parse_hotkey(key);
    match parsed {
        Ok(h) => {
            if should_use_low_level_function_key_listener_for_session(&h, false) {
                let n = function_key_index(h.key.as_str());
                match n {
                    Some(n) => Ok((ListenerMode::FunctionKeyNoMods(n), Some(h))),
                    None => Ok((ListenerMode::GlobalHotkey, Some(h))),
                }
            } else {
                Ok((ListenerMode::GlobalHotkey, Some(h)))
            }
        },
        Err(detail) => Err(HotkeyError::Unparsable { detail }),
    }
}

/// A key seen by the low-level listener.
#[derive(Debug, Clone, Copy, PartialEq, Eq, Structural)]
pub enum LowLevelKey {
    ControlLeft,
    ControlRight,
    /// A function key, by number.
    Function(u8),
    Other,
}

/// A low-level keyboard event.
#[derive(Debug, Clone, Copy, PartialEq, Eq, Structural)]
pub enum LowLevelEvent {
    KeyPress(LowLevelKey),
    KeyRelease(LowLevelKey),
    Other,
}

/// What the low-level listener watches.
#[derive(Debug, Clone, Copy, PartialEq, Eq, Structural)]
pub enum LowLevelTarget {
    Inactive,
    RightCtrl,
    FunctionKey(u8),
}

/// State of the low-level listener.
#[derive(Debug, Clone, Copy)]
pub struct LowLevelListenerRuntime {
    pub target: LowLevelTarget,
    pub pressed: bool,
    pub pressed_count: u8,
}

/// Either Control key.
pub open spec fn is_ctrl_key(k: LowLevelKey) -> bool {
    k == LowLevelKey::ControlLeft || k == LowLevelKey::ControlRight
}

impl Default for LowLevelListenerRuntime {
    fn default() -> (r: Self)
        ensures
            r.target == LowLevelTarget::Inactive,
            !r.pressed,
            r.pressed_count == 0,
    {
        LowLevelListenerRuntime { target: LowLevelTarget::Inactive, pressed: false, pressed_count: 0 }
    }
}

/// Handles one low-level event and returns the hotkey event it fires.
///
/// With the Control target, presses of either Control key are counted: the
/// first one fires `Pressed`, the release of the last one fires `Released`.
/// With a function-key target, presses and releases of that key fire
/// `Pressed` and `Released` once each.
pub fn handle_low_level_event(runtime: &mut LowLevelListenerRuntime, event: LowLevelEvent) -> (r: Option<HotkeyEvent>)
    ensures
        handle_low_level_event_post(*old(runtime), *final(runtime), event, r),
{
    match runtime.target {
        LowLevelTarget::Inactive => None,
        LowLevelTarget::RightCtrl => match event {
            LowLevelEvent::KeyPress(k) => {
                if k == LowLevelKey::ControlLeft || k == LowLevelKey::ControlRight {
                    let was_zero = runtime.pressed_count == 0;
                    runtime.pressed_count = runtime.pressed_count.saturating_add(1);
                    if was_zero {
                        runtime.pressed = true;
                        return Some(HotkeyEvent::Pressed);
                    }
                }
                None
            },
            LowLevelEvent::KeyRelease(k) => {
                if k == LowLevelKey::ControlLeft || k == LowLevelKey::ControlRight {
                    if runtime.pressed_count > 0 {
                        runtime.pressed_count = runtime.pressed_count - 1;
                    }
                    if runtime.pressed_count == 0 && runtime.pressed {
                        runtime.pressed = false;
                        return Some(HotkeyEvent::Released);
                    }
                }
                None
            },
            LowLevelEvent::Other => None,
        },
        LowLevelTarget::FunctionKey(f) => match event {
            LowLevelEvent::KeyPress(k) => {
                if k == LowLevelKey::Function(f) && !runtime.pressed {
                    runtime.pressed = true;
                    return Some(HotkeyEvent::Pressed);
                }
                None
            },
            LowLevelEvent::KeyRelease(k) => {
                if k == LowLevelKey::Function(f) && runtime.pressed {
                    runtime.pressed = false;
                    return Some(HotkeyEvent::Released);
                }
                None
            },
            LowLevelEvent::Other => None,
        },
    }
}

/// Points the low-level listener at a new target with nothing pressed.
pub fn activate_low_level_target(runtime: &mut LowLevelListenerRuntime, target: LowLevelTarget)
    ensures
        final(runtime).target == target,
        !final(runtime).pressed,
        final(runtime).pressed_count == 0,
{
    runtime.target = target;
    runtime.pressed = false;
    runtime.pressed_count = 0;
}

/// The low-level target of a listener mode (`None` for the global one).
pub fn low_level_target_for(mode: ListenerMode) -> (r: Option<LowLevelTarget>)
    ensures
        r == match mode {
            ListenerMode::GlobalHotkey => None,
            ListenerMode::RightCtrl => Some(LowLevelTarget::RightCtrl),
            ListenerMode::FunctionKeyNoMods(n) => if 1 <= n <= 12 {
                Some(LowLevelTarget::FunctionKey(n))
            } else {
                None
            },
        },
{
    match mode {
        ListenerMode::GlobalHotkey => None,
        ListenerMode::RightCtrl => Some(LowLevelTarget::RightCtrl),
        ListenerMode::FunctionKeyNoMods(n) => if 1 <= n && n <= 12 {
            Some(LowLevelTarget::FunctionKey(n))
        } else {
            None
        },
    }
}

/// With the Control target, `pressed` holds exactly while some Control key
/// is down (`pressed_count > 0`); every event keeps that, and `Pressed` and
/// `Released` alternate: `Pressed` fires only when not pressed, `Released`
/// only when pressed.
pub proof fn law_control_pressed_tracks_count(
    before: LowLevelListenerRuntime,
    after: LowLevelListenerRuntime,
    event: LowLevelEvent,
    fired: Option<HotkeyEvent>,
)
    requires
        before.target == LowLevelTarget::RightCtrl,
        before.pressed == (before.pressed_count > 0),
        handle_low_level_event_post(before, after, event, fired),
    ensures
        after.pressed == (after.pressed_count > 0),
        fired == Some(HotkeyEvent::Pressed) ==> !before.pressed && after.pressed,
        fired == Some(HotkeyEvent::Released) ==> before.pressed && !after.pressed,
{
}

/// With a function-key target, `pressed` says whether that key is down:
/// pressing it leaves it pressed and releasing it leaves it released, other
/// events change nothing; `Pressed` fires only from the released state and
/// `Released` only from the pressed one, so a press of a key that is already
/// down (auto-repeat) fires nothing and the two events alternate.
pub proof fn law_function_key_fires_once_per_press(
    f: u8,
    before: LowLevelListenerRuntime,
    after: LowLevelListenerRuntime,
    event: LowLevelEvent,
    fired: Option<HotkeyEvent>,
)
    requires
        before.target == LowLevelTarget::FunctionKey(f),
        handle_low_level_event_post(before, after, event, fired),
    ensures
        after.target == before.target,
        event == LowLevelEvent::KeyPress(LowLevelKey::Function(f)) ==> after.pressed,
        event == LowLevelEvent::KeyRelease(LowLevelKey::Function(f)) ==> !after.pressed,
        event != LowLevelEvent::KeyPress(LowLevelKey::Function(f)) && event != LowLevelEvent::KeyRelease(
            LowLevelKey::Function(f),
        ) ==> after == before && fired is None,
        fired == Some(HotkeyEvent::Pressed) ==> !before.pressed && after.pressed,
        fired == Some(HotkeyEvent::Released) ==> before.pressed && !after.pressed,
        fired is None ==> after.pressed == before.pressed,
{
}

/// The postcondition of [`handle_low_level_event`], as a relation.
pub open spec fn handle_low_level_event_post(
    o: LowLevelListenerRuntime,
    n: LowLevelListenerRuntime,
    event: LowLevelEvent,
    r: Option<HotkeyEvent>,
) -> bool {
    n.target == o.target && match (o.target, event) {
        (LowLevelTarget::RightCtrl, LowLevelEvent::KeyPress(k)) if is_ctrl_key(k) => {
            &&& n.pressed_count == if o.pressed_count == 255 { 255 } else { o.pressed_count + 1 }
            &&& if o.pressed_count == 0 {
                n.pressed && r == Some(HotkeyEvent::Pressed)
            } else {
                n.pressed == o.pressed && r is None
            }
        },
        (LowLevelTarget::RightCtrl, LowLevelEvent::KeyRelease(k)) if is_ctrl_key(k) => {
            let c = if o.pressed_count > 0 { o.pressed_count - 1 } else { 0 };
            &&& n.pressed_count == c
            &&& if c == 0 && o.pressed {
                !n.pressed && r == Some(HotkeyEvent::Released)
            } else {
                n.pressed == o.pressed && r is None
            }
        },
        (LowLevelTarget::FunctionKey(f), LowLevelEvent::KeyPress(k)) if k == LowLevelKey::Function(
            f,
        ) => {
            &&& n.pressed && n.pressed_count == o.pressed_count
            &&& r == if o.pressed { None } else { Some(HotkeyEvent::Pressed) }
        },
        (LowLevelTarget::FunctionKey(f), LowLevelEvent::KeyRelease(k)) if k == LowLevelKey::Function(
            f,
        ) => {
            &&& !n.pressed && n.pressed_count == o.pressed_count
            &&& r == if o.pressed { Some(HotkeyEvent::Released) } else { None }
        },
        _ => n == o && r is None,
    }
}

} // verus!
