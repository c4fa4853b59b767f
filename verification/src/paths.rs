//! Paths as strings, joined the way `PathBuf::join` joins relative parts,
//! and the user's home directory.

use vstd::prelude::*;
use crate::text::{copy_str, push_char, str_starts_with, starts_with, to_chars};

verus! {

/// What `PathBuf::from(base).join(part)` holds on Unix: an absolute part
/// replaces the base; otherwise a `/` separates the two unless the base is
/// empty or already ends with one.
pub open spec fn path_join(base: Seq<char>, part: Seq<char>) -> Seq<char> {
    if part.len() > 0 && part[0] == '/' {
        part
    } else if base.len() == 0 || base.last() == '/' {
        base + part
    } else {
        base + seq!['/'] + part
    }
}

/// `Path::new(base).join(part)` as a string.
pub fn join_path(base: &str, part: &str) -> (r: String)
    ensures
        r@ == path_join(base@, part@),
{
    let p = to_chars(part);
    if p.len() > 0 && p[0] == '/' {
        return copy_str(part);
    }
    let b = to_chars(base);
    let mut r = copy_str(base);
    if b.len() > 0 && b[b.len() - 1] != '/' {
        push_char(&mut r, '/');
    }
    r.append(part);
    r
}

/// The user's home directory, from `dirs::home_dir`, as a string. It
/// depends on the environment and the account database, so nothing is
/// stated of it.
#[verifier::external_body]
fn home_dir_wrapper() -> Option<String> {
    dirs::home_dir().map(|p| p.to_string_lossy().into_owned())
}

/// The user's home directory, if one can be found.
pub fn home_dir() -> Option<String> {
    home_dir_wrapper()
}

/// The user's configuration directory, from `dirs::config_dir`
/// (`$XDG_CONFIG_HOME` or `~/.config` on Linux), as a string. It depends on
/// the environment, so nothing is stated of it.
#[verifier::external_body]
fn config_dir_wrapper() -> Option<String> {
    dirs::config_dir().map(|p| p.to_string_lossy().into_owned())
}

/// A directory that was looked up, or `"."` when none was found.
pub open spec fn or_dot(found: Option<Seq<char>>) -> Seq<char> {
    match found {
        Some(d) => d,
        None => "."@,
    }
}

/// The directory found by a lookup, or `"."` in its place when the lookup
/// found none.
pub fn dir_or_dot(found: Option<String>) -> (r: String)
    ensures
        r@ == or_dot(
            match found {
                Some(d) => Some(d@),
                None => None,
            },
        ),
{
    match found {
        Some(d) => d,
        None => String::from_str("."),
    }
}

/// The configuration directory, or `"."` when it cannot be found.
pub fn config_dir_or_dot() -> String {
    dir_or_dot(config_dir_wrapper())
}

/// The home directory, or `"."` when it cannot be found.
pub fn home_dir_or_dot() -> String {
    dir_or_dot(home_dir_wrapper())
}

/// `true` when `s` is an absolute path.
pub fn is_absolute(s: &str) -> (b: bool)
    ensures
        b == starts_with(s@, seq!['/']),
{
    let mut slash = String::new();
    push_char(&mut slash, '/');
    assert(slash@ =~= seq!['/']);
    str_starts_with(s, slash.as_str())
}

/// What `Path::file_name` gives for a path, as text.
pub uninterp spec fn std_path_file_name(path: Seq<char>) -> Option<Seq<char>>;

/// What `Path::parent` gives for a path, as text.
pub uninterp spec fn std_path_parent(path: Seq<char>) -> Option<Seq<char>>;

/// `Path::new(path).file_name()`: the last component unless the path ends
/// in `..` or is a root. The components of a path are not modelled here;
/// the result is named.
#[verifier::external_body]
pub(crate) fn path_file_name(path: &str) -> (r: Option<String>)
    ensures
        r matches Some(n) ==> std_path_file_name(path@) == Some(n@),
        r is None ==> std_path_file_name(path@) is None,
{
    std::path::Path::new(path).file_name().map(|n| n.to_string_lossy().into_owned())
}

/// `Path::new(path).parent()`: the path without its last component, unless
/// it is a root or empty. The components of a path are not modelled here;
/// the result is named.
#[verifier::external_body]
pub(crate) fn path_parent(path: &str) -> (r: Option<String>)
    ensures
        r matches Some(p) ==> std_path_parent(path@) == Some(p@),
        r is None ==> std_path_parent(path@) is None,
{
    std::path::Path::new(path).parent().map(|p| p.to_string_lossy().into_owned())
}

} // verus!
