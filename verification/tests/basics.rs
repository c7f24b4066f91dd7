use lctwitch::config::Config;
use lctwitch::reply::{Error, ErrorCode, ReplyChannel, ScriptOutcome};
use lctwitch::script::{
    C4AulScriptStrict, CONTROL_MODE_REPLAY, INPUT_CONTROL_TAG, INPUT_DELIVERY, TARGET_OBJECT_NONE,
};
use lctwitch::DEFAULT_PORT;

#[test]
fn config_falls_back_when_absent() {
    let c = Config::new(None);
    assert_eq!(c.port(), 11116);
    assert_eq!(c.port(), DEFAULT_PORT);
}

#[test]
fn config_uses_stored_value_that_fits() {
    assert_eq!(Config::new(Some(8080)).port(), 8080);
    assert_eq!(Config::new(Some(65535)).port(), 65535);
    assert_eq!(Config::new(Some(0)).port(), 0);
}

#[test]
fn config_falls_back_on_oversized_value() {
    assert_eq!(Config::new(Some(65536)).port(), 11116);
    assert_eq!(Config::new(Some(4_000_000)).port(), 11116);
}

#[test]
fn status_codes_by_reason() {
    assert_eq!(ErrorCode::NoDebugActive.status_code(), 403);
    assert_eq!(ErrorCode::NoScenario.status_code(), 403);
    assert_eq!(ErrorCode::NotHost.status_code(), 403);
    assert_eq!(ErrorCode::NoScriptingInReplays.status_code(), 403);
    assert_eq!(ErrorCode::LeagueActive.status_code(), 403);
    assert_eq!(ErrorCode::ScriptParseError.status_code(), 422);
    assert_eq!(ErrorCode::InternalServerError.status_code(), 500);
}

#[test]
fn messages_by_reason() {
    assert_eq!(ErrorCode::NoDebugActive.message(), "Debug mode has been disabled");
    assert_eq!(ErrorCode::NoScenario.message(), "No scenario running");
    assert_eq!(ErrorCode::NotHost.message(), "Not host");
    assert_eq!(ErrorCode::NoScriptingInReplays.message(), "Scripting in replays is disabled");
    assert_eq!(ErrorCode::LeagueActive.message(), "Scripting in league games is not allowed");
    assert_eq!(ErrorCode::ScriptParseError.message(), "Parse error");
    assert_eq!(ErrorCode::InternalServerError.message(), "Internal server error");
}

#[test]
fn error_reply_carries_reason_and_its_message() {
    let e = Error::from_code(ErrorCode::NotHost);
    assert_eq!(e.code, ErrorCode::NotHost);
    assert_eq!(e.message, "Not host");
}

#[test]
fn error_reply_from_free_message_is_internal() {
    let e = Error::from_message("something odd".to_string());
    assert_eq!(e.code, ErrorCode::InternalServerError);
    assert_eq!(e.message, "something odd");
}

#[test]
fn reply_channel_resolves_exactly_once() {
    let mut ch = ReplyChannel::new();
    assert!(!ch.is_resolved());
    assert!(ch.send(ScriptOutcome::Completed("2".to_string())));
    assert!(ch.is_resolved());
    assert!(!ch.send(ScriptOutcome::Completed("other".to_string())));
    assert_eq!(ch.recv(), Some(ScriptOutcome::Completed("2".to_string())));
    assert_eq!(ch.recv(), None);
    assert!(ch.is_resolved());
}

#[test]
fn bridge_constants() {
    assert_eq!(CONTROL_MODE_REPLAY, 3);
    assert_eq!(TARGET_OBJECT_NONE, -2);
    assert_eq!(INPUT_CONTROL_TAG, 0x88);
    assert_eq!(INPUT_DELIVERY, 4);
    assert_eq!(C4AulScriptStrict::Strict3.value(), 3);
}
