use vstd::prelude::*;
use vstd::string::StringExecFns;
use crate::text::{contains_any_folded, occurs_any};

verus! {

/// Fragments of the messages with which the system refuses input simulation
/// to an application that lacks the accessibility permission.
pub open spec fn permission_hints() -> Seq<&'static str> {
    seq!["accessibility", "not permitted", "permission denied", "not trusted", "trust"]
}

pub open spec fn permission_advice() -> Seq<char> {
    "Accessibility permission required. Grant access to Dikt in System Settings > Privacy & Security > Accessibility, then restart the app."@
}

/// Turns a refusal for want of the accessibility permission into advice on
/// granting it; any other message is kept.
pub fn wrap_accessibility_error(message: String) -> (r: String)
    ensures
        occurs_any(message@, permission_hints()) ==> r@ == permission_advice(),
        !occurs_any(message@, permission_hints()) ==> r == message,
{
    let hints = vec!["accessibility", "not permitted", "permission denied", "not trusted", "trust"];
    assert(hints@ == permission_hints());
    if contains_any_folded(message.as_str(), &hints) {
        String::from_str(
            "Accessibility permission required. Grant access to Dikt in System Settings > Privacy & Security > Accessibility, then restart the app.",
        )
    } else {
        message
    }
}

} // verus!
