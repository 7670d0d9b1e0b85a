//! The relay's answer to a registration or heartbeat, and the rule that
//! decides whether it was accepted.

use vstd::prelude::*;
use vstd::string::StringExecFns;

verus! {

/// What the decision reads of a relay reply: its `ok` field where that is
/// a JSON boolean, and its `error` field where that is a JSON string.
pub struct RelayReply {
    pub ok: Option<bool>,
    pub error: Option<String>,
}

/// The message a rejected reply is reported with: its `error` text, or
/// `fallback` when it carries none.
pub open spec fn rejection_message(reply: RelayReply, fallback: Seq<char>) -> Seq<char> {
    match reply.error {
        Some(e) => e@,
        None => fallback,
    }
}

/// Decides a relay reply: accepted exactly when its `ok` field is the
/// boolean `true`; otherwise rejected with the reply's `error` text, or
/// `fallback` when it has none.
pub fn relay_verdict(reply: &RelayReply, fallback: &str) -> (verdict: Result<(), String>)
    ensures
        verdict is Ok <==> reply.ok == Some(true),
        verdict matches Err(m) ==> m@ == rejection_message(*reply, fallback@),
{
    if reply.ok == Some(true) {
        Ok(())
    } else {
        match &reply.error {
            Some(e) => Err(e.clone()),
            None => Err(String::from_str(fallback)),
        }
    }
}

/// Decides the reply to a registration; a rejection without an `error`
/// text reads `unknown error`.
pub fn register_verdict(reply: &RelayReply) -> (verdict: Result<(), String>)
    ensures
        verdict is Ok <==> reply.ok == Some(true),
        verdict matches Err(m) ==> m@ == rejection_message(*reply, "unknown error"@),
{
    relay_verdict(reply, "unknown error")
}

/// Decides the reply to a heartbeat (standard or SEO); a rejection without
/// an `error` text reads `unknown`.
pub fn heartbeat_verdict(reply: &RelayReply) -> (verdict: Result<(), String>)
    ensures
        verdict is Ok <==> reply.ok == Some(true),
        verdict matches Err(m) ==> m@ == rejection_message(*reply, "unknown"@),
{
    relay_verdict(reply, "unknown")
}

} // verus!
