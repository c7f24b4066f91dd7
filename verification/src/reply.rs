//! Request/response data carried between the bridge and the reply
//! transport: typed failure reasons, the reply payloads, and the one-shot
//! channel that ferries a single outcome from the host-thread trampoline
//! back to the awaiting caller.

use vstd::prelude::*;

verus! {

/// Typed reason a script request failed.
#[derive(Clone, Copy, PartialEq, Eq, Structural, Debug)]
pub enum ErrorCode {
    NoDebugActive,
    NoScenario,
    NotHost,
    NoScriptingInReplays,
    LeagueActive,
    ScriptParseError,
    InternalServerError,
}

/// Externally visible status category for a failure reason: the
/// forbidden class (403) for every state-precondition rejection, the
/// unprocessable class (422) for a native parse failure, and the
/// internal-error class (500) for anything else.
pub open spec fn spec_status_code(code: ErrorCode) -> u16 {
    match code {
        ErrorCode::NoDebugActive => 403u16,
        ErrorCode::NoScenario => 403u16,
        ErrorCode::NotHost => 403u16,
        ErrorCode::NoScriptingInReplays => 403u16,
        ErrorCode::LeagueActive => 403u16,
        ErrorCode::ScriptParseError => 422u16,
        ErrorCode::InternalServerError => 500u16,
    }
}

/// Human-readable description of each failure reason.
pub open spec fn spec_message(code: ErrorCode) -> Seq<char> {
    match code {
        ErrorCode::NoDebugActive => "Debug mode has been disabled"@,
        ErrorCode::NoScenario => "No scenario running"@,
        ErrorCode::NotHost => "Not host"@,
        ErrorCode::NoScriptingInReplays => "Scripting in replays is disabled"@,
        ErrorCode::LeagueActive => "Scripting in league games is not allowed"@,
        ErrorCode::ScriptParseError => "Parse error"@,
        ErrorCode::InternalServerError => "Internal server error"@,
    }
}

impl ErrorCode {
    /// The HTTP-style status category this reason maps to.
    pub fn status_code(&self) -> (r: u16)
        ensures
            r == spec_status_code(*self),
    {
        match self {
            ErrorCode::NoDebugActive => 403,
            ErrorCode::NoScenario => 403,
            ErrorCode::NotHost => 403,
            ErrorCode::NoScriptingInReplays => 403,
            ErrorCode::LeagueActive => 403,
            ErrorCode::ScriptParseError => 422,
            ErrorCode::InternalServerError => 500,
        }
    }

    /// Human-readable description of the failure reason.
    pub fn message(&self) -> (r: String)
        ensures
            r@ == spec_message(*self),
    {
        match self {
            ErrorCode::NoDebugActive => "Debug mode has been disabled".to_owned(),
            ErrorCode::NoScenario => "No scenario running".to_owned(),
            ErrorCode::NotHost => "Not host".to_owned(),
            ErrorCode::NoScriptingInReplays => "Scripting in replays is disabled".to_owned(),
            ErrorCode::LeagueActive => "Scripting in league games is not allowed".to_owned(),
            ErrorCode::ScriptParseError => "Parse error".to_owned(),
            ErrorCode::InternalServerError => "Internal server error".to_owned(),
        }
    }
}

/// Structured failure reply: the typed reason plus its description.
pub struct Error {
    pub code: ErrorCode,
    pub message: String,
}

impl Error {
    /// Builds the failure reply for a typed reason, carrying that reason's
    /// own description.
    pub fn from_code(code: ErrorCode) -> (r: Error)
        ensures
            r.code == code,
            r.message@ == spec_message(code),
    {
        let message = code.message();
        Error { code, message }
    }

    /// Builds the generic internal-error reply around a free-form message.
    pub fn from_message(message: String) -> (r: Error)
        ensures
            r.code == ErrorCode::InternalServerError,
            r.message@ == message@,
    {
        Error { code: ErrorCode::InternalServerError, message }
    }
}

/// Successful reply payload: the text the host's stringify step produced.
pub struct ScriptReply {
    pub result: String,
}

/// Final disposition of one script request.
#[derive(Clone, Debug, PartialEq, Eq)]
pub enum ScriptOutcome {
    /// The host executed the script; the value's text form is carried.
    Completed(String),
    /// Validation refused the request before any host-thread work.
    Rejected(ErrorCode),
    /// The request reached the host but execution failed.
    Failed(ErrorCode),
}

/// One-shot reply channel: accepts exactly one outcome, consumed by exactly
/// one waiter. Resolving an already-resolved channel is refused and leaves
/// the channel unchanged.
pub struct ReplyChannel {
    resolved: bool,
    slot: Option<ScriptOutcome>,
}

impl ReplyChannel {
    /// Whether an outcome has ever been sent into this channel.
    pub closed spec fn spec_resolved(&self) -> bool {
        self.resolved
    }

    /// The outcome waiting to be received, if any.
    pub closed spec fn spec_slot(&self) -> Option<ScriptOutcome> {
        self.slot
    }

    /// A fresh, unresolved channel.
    pub fn new() -> (r: ReplyChannel)
        ensures
            !r.spec_resolved(),
            r.spec_slot() is None,
    {
        ReplyChannel { resolved: false, slot: Option::None }
    }

    /// Whether an outcome has ever been sent into this channel.
    pub fn is_resolved(&self) -> (r: bool)
        ensures
            r == self.spec_resolved(),
    {
        self.resolved
    }

    /// Resolves the channel with an outcome. Succeeds exactly once: a second
    /// send is refused and the first outcome is kept.
    pub fn send(&mut self, outcome: ScriptOutcome) -> (ok: bool)
        ensures
            ok == !old(self).spec_resolved(),
            ok ==> final(self).spec_resolved() && final(self).spec_slot() == Option::Some(outcome),
            !ok ==> *final(self) == *old(self),
    {
        if self.resolved {
            false
        } else {
            self.resolved = true;
            self.slot = Option::Some(outcome);
            true
        }
    }

    /// Takes the resolved outcome, if one is waiting. Consuming does not
    /// make the channel reusable: it stays resolved.
    pub fn recv(&mut self) -> (r: Option<ScriptOutcome>)
        ensures
            r == old(self).spec_slot(),
            final(self).spec_slot() is None,
            final(self).spec_resolved() == old(self).spec_resolved(),
    {
        let taken = self.slot.take();
        taken
    }
}

} // verus!
