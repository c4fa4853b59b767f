//! External trigger actions and their wire format.

use vstd::prelude::*;
use crate::text::{is_ws, lemma_trim_of_solid, str_eq, trim, trim_end, trim_start, trim_str};

verus! {

/// An action sent by an external trigger (a desktop shortcut).
#[derive(Clone, Copy, Debug, PartialEq, Eq, Structural)]
pub enum ExternalTriggerAction {
    Press,
    Release,
    Toggle,
}

/// The wire form of an action.
pub open spec fn wire(a: ExternalTriggerAction) -> Seq<char> {
    match a {
        ExternalTriggerAction::Press => "press"@,
        ExternalTriggerAction::Release => "release"@,
        ExternalTriggerAction::Toggle => "toggle"@,
    }
}

/// The action a message denotes: its trimmed text is a wire form.
pub open spec fn parse_wire_spec(input: Seq<char>) -> Option<ExternalTriggerAction> {
    let t = trim(input);
    if t == "press"@ {
        Some(ExternalTriggerAction::Press)
    } else if t == "release"@ {
        Some(ExternalTriggerAction::Release)
    } else if t == "toggle"@ {
        Some(ExternalTriggerAction::Toggle)
    } else {
        None
    }
}

impl ExternalTriggerAction {
    /// The wire form of the action.
    pub fn as_wire(self) -> (r: &'static str)
        ensures
            r@ == wire(self),
    {
        match self {
            ExternalTriggerAction::Press => "press",
            ExternalTriggerAction::Release => "release",
            ExternalTriggerAction::Toggle => "toggle",
        }
    }

    /// Parses a message; surrounding whitespace is ignored.
    pub fn parse_wire(input: &str) -> (r: Option<Self>)
        ensures
            r == parse_wire_spec(input@),
    {
        let t = trim_str(input);
        if str_eq(t.as_str(), "press") {
            Some(ExternalTriggerAction::Press)
        } else if str_eq(t.as_str(), "release") {
            Some(ExternalTriggerAction::Release)
        } else if str_eq(t.as_str(), "toggle") {
            Some(ExternalTriggerAction::Toggle)
        } else {
            None
        }
    }
}

/// Trailing whitespace does not change the trim.
proof fn lemma_trim_trailing_ws(s: Seq<char>, c: char)
    requires
        s.len() > 0,
        !is_ws(s[0]),
        is_ws(c),
    ensures
        trim(s.push(c)) == trim(s),
{
    assert(s.push(c)[0] == s[0]);
    assert(s.push(c).drop_last() =~= s);
}

/// What the sender writes (the wire form and a newline), the trigger
/// server reads back as the same action; and the wire forms are distinct.
pub proof fn law_wire_roundtrip(a: ExternalTriggerAction)
    ensures
        parse_wire_spec(wire(a)) == Some(a),
        parse_wire_spec(wire(a).push('\n')) == Some(a),
{
    reveal_strlit("press");
    reveal_strlit("release");
    reveal_strlit("toggle");
    let w = wire(a);
    lemma_trim_of_solid(w);
    lemma_trim_trailing_ws(w, '\n');
    assert("press"@ != "release"@ && "press"@ != "toggle"@ && "release"@ != "toggle"@) by {
        assert("press"@.len() != "release"@.len());
        assert("press"@[0] != "toggle"@[0]);
        assert("release"@.len() != "toggle"@.len());
    }
}

/// What the sender writes to the trigger socket: the wire form and a
/// newline.
pub fn wire_message(action: ExternalTriggerAction) -> (r: String)
    ensures
        r@ == wire(action).push('\n'),
{
    let mut r = String::from_str(action.as_wire());
    crate::text::push_char(&mut r, '\n');
    r
}

} // verus!
