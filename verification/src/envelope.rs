//! Envelopes: the structured wrappers placed around a handler's raw
//! success/error payload before it crosses back to the host. Success and
//! error envelopes share one well-formed object-shaped format.

use vstd::prelude::*;
use vstd::string::StringExecFns;

verus! {

/// The envelope wrapped around a successful payload.
pub open spec fn success_envelope_spec(payload: Seq<char>) -> Seq<char> {
    "{ ok: true, result: "@ + payload + " }"@
}

/// The envelope wrapped around an error payload.
pub open spec fn error_envelope_spec(payload: Seq<char>) -> Seq<char> {
    "{ ok: false, error: "@ + payload + " }"@
}

/// The envelope reporting an action name that no handler family recognizes.
pub open spec fn unhandled_envelope_spec(action: Seq<char>) -> Seq<char> {
    "{ ok: false, error: \"The sync action "@ + action + " was unhandled.\" }"@
}

/// The envelope reporting a result channel that closed before any terminal
/// message was received.
pub open spec fn closed_envelope_spec() -> Seq<char> {
    "{ ok: false, error: \"The channel closed with no terminal message.\" }"@
}

/// Wraps `prefix`, `middle` and `suffix` into one string.
fn join3(prefix: &str, middle: &str, suffix: &str) -> (r: String)
    ensures
        r@ == prefix@ + middle@ + suffix@,
{
    let mut s = prefix.to_owned();
    s.append(middle);
    s.append(suffix);
    proof {
        assert(s@ =~= prefix@ + middle@ + suffix@);
    }
    s
}

pub fn success_envelope(payload: &str) -> (r: String)
    ensures
        r@ == success_envelope_spec(payload@),
{
    join3("{ ok: true, result: ", payload, " }")
}

pub fn error_envelope(payload: &str) -> (r: String)
    ensures
        r@ == error_envelope_spec(payload@),
{
    join3("{ ok: false, error: ", payload, " }")
}

pub fn unhandled_envelope(action: &str) -> (r: String)
    ensures
        r@ == unhandled_envelope_spec(action@),
{
    join3("{ ok: false, error: \"The sync action ", action, " was unhandled.\" }")
}

pub fn closed_envelope() -> (r: String)
    ensures
        r@ == closed_envelope_spec(),
{
    let r = "{ ok: false, error: \"The channel closed with no terminal message.\" }".to_owned();
    r
}

} // verus!
