use lctwitch::marshal::Marshaler;
use lctwitch::reply::{ErrorCode, ScriptOutcome};
use lctwitch::script::{
    control_script_execute, validate, HostExecResult, HostFlags, Script, TARGET_OBJECT_NONE,
};
use lctwitch::symbols::{HostImage, MemberInfo, SymbolAddr, TypeInfo};

fn member(name: &str, offset: usize) -> Option<MemberInfo> {
    Some(MemberInfo { name: name.to_string(), offset })
}

fn sym(name: &str, address: u64) -> SymbolAddr {
    SymbolAddr { name: name.to_string(), address }
}

/// A host image that describes every binding the bridge requires.
fn stub_image() -> HostImage {
    HostImage {
        types: vec![
            TypeInfo {
                name: "C4ControlScript".to_string(),
                size: 256,
                members: vec![member("iTargetObj", 32), member("Script", 48)],
            },
            TypeInfo {
                name: "C4Game".to_string(),
                size: 4096,
                members: vec![
                    member("IsRunning", 8),
                    member("Control", 16),
                    member("Network", 24),
                    member("Parameters", 40),
                    member("ScriptEngine", 56),
                ],
            },
            TypeInfo {
                name: "C4GameControl".to_string(),
                size: 128,
                members: vec![member("eMode", 4)],
            },
            TypeInfo {
                name: "C4GameParameters".to_string(),
                size: 512,
                members: vec![member("LeagueAddress", 100)],
            },
            TypeInfo { name: "C4Config".to_string(), size: 2048, members: vec![member("General", 0)] },
            TypeInfo {
                name: "C4ConfigGeneral".to_string(),
                size: 640,
                members: vec![member("AllowScriptingInReplays", 12)],
            },
            TypeInfo {
                name: "C4Network2".to_string(),
                size: 1024,
                members: vec![member("fHost", 2), member("Status", 64)],
            },
            TypeInfo {
                name: "C4Network2Status".to_string(),
                size: 16,
                members: vec![member("eState", 0)],
            },
        ],
        symbols: vec![
            sym("Game", 0x1000),
            sym("Config", 0x2000),
            sym("C4ControlPacket::C4ControlPacket", 0x3000),
            sym("StdStrBuf::Copy", 0x3100),
            sym("C4GameControl::DoInput", 0x3200),
            sym("C4ControlScript::`vftable'", 0x3300),
            sym("C4AulScript::DirectExec", 0x3400),
            sym("C4Value::GetDataString", 0x3500),
            sym("C4Value::~C4Value", 0x3600),
            sym("StdStrBuf::~StdStrBuf", 0x3700),
            sym("StdStrBuf::GrabPointer", 0x3800),
        ],
    }
}

fn stub_script() -> Script {
    let image = stub_image();
    let vtable = vec![0xAA, 0xE0, 0xE1, 0xE2, 0xE3, 0xE4, 0xE5, 0xE6];
    Script::new(&image, &vtable, 0x7777).expect("all bindings present")
}

fn passing_flags() -> HostFlags {
    HostFlags {
        is_running: true,
        network_enabled: false,
        is_host: false,
        control_mode: 0,
        allow_scripting_in_replays: false,
        league_address_len: 0,
    }
}

/// The stub host: what its native execute-and-stringify pass returns for a
/// record's script text. It also counts how often it was reached.
fn stub_host_execute(script: &str, calls: &mut usize) -> HostExecResult {
    *calls += 1;
    if script == "1+1" {
        HostExecResult::Value("2".to_string())
    } else {
        HostExecResult::ParseFailure
    }
}

#[test]
fn rejection_no_scenario_posts_nothing() {
    let script = stub_script();
    let mut marshaler = Marshaler::new();
    let mut flags = passing_flags();
    flags.is_running = false;
    let result = script.run_script(&flags, "1+1", &mut marshaler);
    assert_eq!(result, Err(ErrorCode::NoScenario));
    assert_eq!(marshaler.len(), 0);
}

#[test]
fn rejection_not_host_posts_nothing() {
    let script = stub_script();
    let mut marshaler = Marshaler::new();
    let mut flags = passing_flags();
    flags.network_enabled = true;
    flags.is_host = false;
    let result = script.run_script(&flags, "1+1", &mut marshaler);
    assert_eq!(result, Err(ErrorCode::NotHost));
    assert_eq!(marshaler.len(), 0);
}

#[test]
fn rejection_replay_posts_nothing() {
    let script = stub_script();
    let mut marshaler = Marshaler::new();
    let mut flags = passing_flags();
    flags.control_mode = 3;
    flags.allow_scripting_in_replays = false;
    let result = script.run_script(&flags, "1+1", &mut marshaler);
    assert_eq!(result, Err(ErrorCode::NoScriptingInReplays));
    assert_eq!(marshaler.len(), 0);
}

#[test]
fn rejection_league_posts_nothing() {
    let script = stub_script();
    let mut marshaler = Marshaler::new();
    let mut flags = passing_flags();
    flags.league_address_len = 21;
    let result = script.run_script(&flags, "1+1", &mut marshaler);
    assert_eq!(result, Err(ErrorCode::LeagueActive));
    assert_eq!(marshaler.len(), 0);
}

#[test]
fn not_host_takes_priority_over_league() {
    let mut flags = passing_flags();
    flags.network_enabled = true;
    flags.is_host = false;
    flags.league_address_len = 21;
    assert_eq!(validate(&flags), Some(ErrorCode::NotHost));

    let script = stub_script();
    let mut marshaler = Marshaler::new();
    let result = script.run_script(&flags, "1+1", &mut marshaler);
    assert_eq!(result, Err(ErrorCode::NotHost));
}

#[test]
fn replay_check_precedes_league_check() {
    let mut flags = passing_flags();
    flags.control_mode = 3;
    flags.league_address_len = 9;
    assert_eq!(validate(&flags), Some(ErrorCode::NoScriptingInReplays));
}

#[test]
fn replay_allowed_when_configured() {
    let mut flags = passing_flags();
    flags.control_mode = 3;
    flags.allow_scripting_in_replays = true;
    assert_eq!(validate(&flags), None);
}

#[test]
fn round_trip_through_stub_host() {
    let script = stub_script();
    let mut marshaler = Marshaler::new();
    let mut calls: usize = 0;

    let result = script.run_script(&passing_flags(), "1+1", &mut marshaler);
    assert_eq!(result, Ok(()));
    assert_eq!(marshaler.len(), 1);

    // The host loop pumps: the posted record is taken and dispatched, and
    // the trampoline drives the stub host's execute entry point.
    let mut record = marshaler.take_next().expect("one posted record");
    assert_eq!(record.script, "1+1");
    assert_eq!(record.target_obj, TARGET_OBJECT_NONE);
    assert_eq!(record.size, 256);
    let host_result = stub_host_execute(&record.script, &mut calls);
    let mut channel =
        control_script_execute(&mut record, host_result).expect("first firing resolves");
    assert_eq!(calls, 1);
    assert!(channel.is_resolved());
    assert_eq!(channel.recv(), Some(ScriptOutcome::Completed("2".to_string())));
}

#[test]
fn parse_failure_yields_script_parse_error() {
    let script = stub_script();
    let mut marshaler = Marshaler::new();
    let mut calls: usize = 0;

    script.run_script(&passing_flags(), "1+", &mut marshaler).expect("validation passes");
    let mut record = marshaler.take_next().expect("one posted record");
    let host_result = stub_host_execute(&record.script, &mut calls);
    let mut channel =
        control_script_execute(&mut record, host_result).expect("first firing resolves");
    assert_eq!(
        channel.recv(),
        Some(ScriptOutcome::Failed(ErrorCode::ScriptParseError))
    );
}

#[test]
fn rejected_request_never_reaches_stub_execute() {
    let script = stub_script();
    let mut marshaler = Marshaler::new();
    let mut calls: usize = 0;
    let mut flags = passing_flags();
    flags.is_running = false;

    let result = script.run_script(&flags, "1+1", &mut marshaler);
    assert_eq!(result, Err(ErrorCode::NoScenario));

    // Pump the host loop: nothing was posted, so the stub host's execute
    // entry point is never driven.
    while let Some(mut record) = marshaler.take_next() {
        let host_result = stub_host_execute(&record.script, &mut calls);
        let _ = control_script_execute(&mut record, host_result);
    }
    assert_eq!(calls, 0);
}

#[test]
fn context_slot_is_consumed_exactly_once() {
    let script = stub_script();
    let mut marshaler = Marshaler::new();

    script.run_script(&passing_flags(), "1+1", &mut marshaler).expect("validation passes");
    let mut record = marshaler.take_next().expect("one posted record");
    assert!(record.shim.has_context());

    let first = control_script_execute(&mut record, HostExecResult::Value("2".to_string()));
    let mut channel = first.expect("first firing resolves the reply channel");
    assert!(!record.shim.has_context());

    // A second firing against the same record is a defect: the appended
    // slot is already consumed, nothing is resolved again.
    let second = control_script_execute(&mut record, HostExecResult::Value("9".to_string()));
    assert!(second.is_none());

    // The single resolution carries the first firing's outcome.
    assert!(channel.is_resolved());
    assert_eq!(channel.recv(), Some(ScriptOutcome::Completed("2".to_string())));
    assert_eq!(channel.recv(), None);
}

#[test]
fn records_are_delivered_in_post_order() {
    let script = stub_script();
    let mut marshaler = Marshaler::new();

    script.run_script(&passing_flags(), "first", &mut marshaler).expect("validation passes");
    script.run_script(&passing_flags(), "second", &mut marshaler).expect("validation passes");
    assert_eq!(marshaler.len(), 2);

    let a = marshaler.take_next().expect("oldest record first");
    assert_eq!(a.script, "first");
    let b = marshaler.take_next().expect("then the next");
    assert_eq!(b.script, "second");
    assert!(marshaler.take_next().is_none());
}

#[test]
fn posted_record_carries_the_shim_clone() {
    let script = stub_script();
    let mut marshaler = Marshaler::new();

    script.run_script(&passing_flags(), "1+1", &mut marshaler).expect("validation passes");
    let record = marshaler.take_next().expect("one posted record");
    assert_eq!(record.shim.slots(), script.template.slots());
    // The trampoline stands in the execute slot of the installed copy.
    assert_eq!(record.shim.slots()[4], 0x7777);
}
