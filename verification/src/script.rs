//! The script execution bridge.
//!
//! At initialization every address and offset the bridge will ever need is
//! resolved against the host image; if any required binding is missing,
//! initialization fails as a whole and names the missing piece — no partial
//! bridge is ever constructed. Per request, the bridge validates the host's
//! state flags, and only a request that passes every check is turned into a
//! synthetic control record and posted to the host thread; the host's own
//! dispatch later fires the trampoline, which consumes the record's context
//! exactly once and resolves the reply channel.

use vstd::prelude::*;

use crate::marshal::{Marshaler, SyntheticRecord};
use crate::reply::{ErrorCode, ReplyChannel, ScriptOutcome};
use crate::shim::{
    prepare_vtable, spec_shim_slots, ExecuteInfo, ExecutionContext, ShimInstance, ShimTemplate,
    VTABLE_ENTRIES,
};
use crate::symbols::{
    find_function, spec_find_member, spec_find_symbol, spec_find_type, HostImage, TypeInfo,
};

verus! {

/// Strictness level handed to the host's direct-execute entry point.
#[derive(Clone, Copy, PartialEq, Eq, Structural, Debug)]
pub enum C4AulScriptStrict {
    Strict3,
}

impl C4AulScriptStrict {
    /// The numeric tag the host's entry point expects for this level.
    pub fn value(&self) -> (r: i32)
        ensures
            r == 3,
    {
        3
    }
}

/// Control-mode value meaning the host is playing back a replay.
pub const CONTROL_MODE_REPLAY: i32 = 3;

/// Sentinel for the record's target-object field: no game-object target.
pub const TARGET_OBJECT_NONE: i32 = -2;

/// Tag handed to the host's input-submission entry point for a control
/// record of this kind.
pub const INPUT_CONTROL_TAG: i32 = 0x80 | 0x08;

/// Delivery argument handed to the host's input-submission entry point.
pub const INPUT_DELIVERY: i32 = 4;

/// An initialization failure: the one required binding that could not be
/// resolved, by name. Initialization is all-or-nothing, so the first
/// missing binding aborts it.
#[derive(Clone, Debug, PartialEq, Eq)]
pub enum InitError {
    TypeNotFound(String),
    MemberNotFound(String),
    SymbolNotFound(String),
}

/// Which kind of required binding a resolution failure names.
#[derive(Clone, Copy, PartialEq, Eq, Structural, Debug)]
pub enum MissingKind {
    Type,
    Member,
    Symbol,
}

/// The kind of binding an initialization failure reports missing.
pub open spec fn spec_err_kind(e: InitError) -> MissingKind {
    match e {
        InitError::TypeNotFound(_) => MissingKind::Type,
        InitError::MemberNotFound(_) => MissingKind::Member,
        InitError::SymbolNotFound(_) => MissingKind::Symbol,
    }
}

/// The name an initialization failure reports missing.
pub open spec fn spec_err_name(e: InitError) -> Seq<char> {
    match e {
        InitError::TypeNotFound(s) => s@,
        InitError::MemberNotFound(s) => s@,
        InitError::SymbolNotFound(s) => s@,
    }
}

/// A member's byte offset inside a named composite type of the image, if
/// both the type and the member are described.
pub open spec fn spec_member(image: HostImage, ty: Seq<char>, member: Seq<char>) -> Option<usize> {
    match spec_find_type(image.types@, 0, ty) {
        Option::Some(i) => spec_find_member(image.types@[i].members@, 0, member),
        Option::None => Option::None,
    }
}

/// A named address of the image, if described.
pub open spec fn spec_symbol(image: HostImage, name: Seq<char>) -> Option<u64> {
    spec_find_symbol(image.symbols@, 0, name)
}

/// The byte size of a named composite type of the image.
pub open spec fn spec_type_size(image: HostImage, ty: Seq<char>) -> usize {
    image.types@[spec_find_type(image.types@, 0, ty)->0].size
}

/// The first required binding the image fails to describe, in resolution
/// order, as the kind and the name initialization reports — or nothing,
/// when every required binding resolves.
pub open spec fn spec_first_missing(image: HostImage) -> Option<(MissingKind, Seq<char>)> {
    if spec_find_type(image.types@, 0, "C4ControlScript"@) is None {
        Option::Some((MissingKind::Type, "C4ControlScript"@))
    } else if spec_member(image, "C4ControlScript"@, "iTargetObj"@) is None {
        Option::Some((MissingKind::Member, "iTargetObj"@))
    } else if spec_member(image, "C4ControlScript"@, "Script"@) is None {
        Option::Some((MissingKind::Member, "Script"@))
    } else if spec_find_type(image.types@, 0, "C4Game"@) is None {
        Option::Some((MissingKind::Type, "C4Game"@))
    } else if spec_symbol(image, "Game"@) is None {
        Option::Some((MissingKind::Symbol, "Game"@))
    } else if spec_member(image, "C4Game"@, "IsRunning"@) is None {
        Option::Some((MissingKind::Member, "IsRunning"@))
    } else if spec_member(image, "C4Game"@, "Control"@) is None {
        Option::Some((MissingKind::Member, "Control"@))
    } else if spec_member(image, "C4Game"@, "Network"@) is None {
        Option::Some((MissingKind::Member, "Network"@))
    } else if spec_member(image, "C4Game"@, "Parameters"@) is None {
        Option::Some((MissingKind::Member, "Parameters"@))
    } else if spec_member(image, "C4Game"@, "ScriptEngine"@) is None {
        Option::Some((MissingKind::Member, "ScriptEngine"@))
    } else if spec_find_type(image.types@, 0, "C4GameControl"@) is None {
        Option::Some((MissingKind::Type, "C4GameControl"@))
    } else if spec_member(image, "C4GameControl"@, "eMode"@) is None {
        Option::Some((MissingKind::Member, "eMode"@))
    } else if spec_find_type(image.types@, 0, "C4GameParameters"@) is None {
        Option::Some((MissingKind::Type, "C4GameParameters"@))
    } else if spec_member(image, "C4GameParameters"@, "LeagueAddress"@) is None {
        Option::Some((MissingKind::Member, "LeagueAddress"@))
    } else if spec_symbol(image, "Config"@) is None {
        Option::Some((MissingKind::Symbol, "Config"@))
    } else if spec_find_type(image.types@, 0, "C4Config"@) is None {
        Option::Some((MissingKind::Type, "C4Config"@))
    } else if spec_member(image, "C4Config"@, "General"@) is None {
        Option::Some((MissingKind::Member, "General"@))
    } else if spec_find_type(image.types@, 0, "C4ConfigGeneral"@) is None {
        Option::Some((MissingKind::Type, "C4ConfigGeneral"@))
    } else if spec_member(image, "C4ConfigGeneral"@, "AllowScriptingInReplays"@) is None {
        Option::Some((MissingKind::Member, "AllowScriptingInReplays"@))
    } else if spec_find_type(image.types@, 0, "C4Network2"@) is None {
        Option::Some((MissingKind::Type, "C4Network2"@))
    } else if spec_member(image, "C4Network2"@, "fHost"@) is None {
        Option::Some((MissingKind::Member, "fHost"@))
    } else if spec_member(image, "C4Network2"@, "Status"@) is None {
        Option::Some((MissingKind::Member, "Status"@))
    } else if spec_find_type(image.types@, 0, "C4Network2Status"@) is None {
        Option::Some((MissingKind::Type, "C4Network2Status"@))
    } else if spec_member(image, "C4Network2Status"@, "eState"@) is None {
        Option::Some((MissingKind::Member, "eState"@))
    } else if spec_symbol(image, "C4ControlPacket::C4ControlPacket"@) is None {
        Option::Some((MissingKind::Symbol, "C4ControlPacket::C4ControlPacket"@))
    } else if spec_symbol(image, "StdStrBuf::Copy"@) is None {
        Option::Some((MissingKind::Symbol, "StdStrBuf::Copy"@))
    } else if spec_symbol(image, "C4GameControl::DoInput"@) is None {
        Option::Some((MissingKind::Symbol, "C4GameControl::DoInput"@))
    } else if spec_symbol(image, "C4ControlScript::`vftable'"@) is None {
        Option::Some((MissingKind::Symbol, "C4ControlScript::`vftable'"@))
    } else if spec_symbol(image, "C4AulScript::DirectExec"@) is None {
        Option::Some((MissingKind::Symbol, "C4AulScript::DirectExec"@))
    } else if spec_symbol(image, "C4Value::GetDataString"@) is None {
        Option::Some((MissingKind::Symbol, "C4Value::GetDataString"@))
    } else if spec_symbol(image, "C4Value::~C4Value"@) is None {
        Option::Some((MissingKind::Symbol, "C4Value::~C4Value"@))
    } else if spec_symbol(image, "StdStrBuf::~StdStrBuf"@) is None {
        Option::Some((MissingKind::Symbol, "StdStrBuf::~StdStrBuf"@))
    } else if spec_symbol(image, "StdStrBuf::GrabPointer"@) is None {
        Option::Some((MissingKind::Symbol, "StdStrBuf::GrabPointer"@))
    } else {
        Option::None
    }
}

/// The composite types initialization must find, in resolution order.
pub open spec fn spec_required_types() -> Seq<Seq<char>> {
    seq![
        "C4ControlScript"@,
        "C4Game"@,
        "C4GameControl"@,
        "C4GameParameters"@,
        "C4Config"@,
        "C4ConfigGeneral"@,
        "C4Network2"@,
        "C4Network2Status"@,
    ]
}

/// The members initialization must find, as (owning type, member name)
/// pairs, in resolution order.
pub open spec fn spec_required_members() -> Seq<(Seq<char>, Seq<char>)> {
    seq![
        ("C4ControlScript"@, "iTargetObj"@),
        ("C4ControlScript"@, "Script"@),
        ("C4Game"@, "IsRunning"@),
        ("C4Game"@, "Control"@),
        ("C4Game"@, "Network"@),
        ("C4Game"@, "Parameters"@),
        ("C4Game"@, "ScriptEngine"@),
        ("C4GameControl"@, "eMode"@),
        ("C4GameParameters"@, "LeagueAddress"@),
        ("C4Config"@, "General"@),
        ("C4ConfigGeneral"@, "AllowScriptingInReplays"@),
        ("C4Network2"@, "fHost"@),
        ("C4Network2"@, "Status"@),
        ("C4Network2Status"@, "eState"@),
    ]
}

/// The named addresses initialization must find, in resolution order.
pub open spec fn spec_required_symbols() -> Seq<Seq<char>> {
    seq![
        "Game"@,
        "Config"@,
        "C4ControlPacket::C4ControlPacket"@,
        "StdStrBuf::Copy"@,
        "C4GameControl::DoInput"@,
        "C4ControlScript::`vftable'"@,
        "C4AulScript::DirectExec"@,
        "C4Value::GetDataString"@,
        "C4Value::~C4Value"@,
        "StdStrBuf::~StdStrBuf"@,
        "StdStrBuf::GrabPointer"@,
    ]
}

/// Whether the image describes every required composite type.
pub open spec fn spec_required_types_present(image: HostImage) -> bool {
    forall|j: int|
        0 <= j < spec_required_types().len() ==> spec_find_type(
            image.types@,
            0,
            #[trigger] spec_required_types()[j],
        ) is Some
}

/// Whether the image describes every required named address.
pub open spec fn spec_required_symbols_present(image: HostImage) -> bool {
    forall|j: int|
        0 <= j < spec_required_symbols().len() ==> spec_symbol(
            image,
            #[trigger] spec_required_symbols()[j],
        ) is Some
}

/// A host image missing exactly one required named member — every required
/// type and address is described, every other required member resolves —
/// makes resolution abort reporting exactly that member's name.
pub proof fn lemma_missing_member_reported(image: HostImage, i: int)
    requires
        0 <= i < spec_required_members().len(),
        spec_required_types_present(image),
        spec_required_symbols_present(image),
        spec_member(image, spec_required_members()[i].0, spec_required_members()[i].1) is None,
        forall|j: int|
            0 <= j < spec_required_members().len() && j != i ==> spec_member(
                image,
                (#[trigger] spec_required_members()[j]).0,
                spec_required_members()[j].1,
            ) is Some,
    ensures
        spec_first_missing(image) == Option::Some(
            (MissingKind::Member, spec_required_members()[i].1),
        ),
{
    let types = spec_required_types();
    let members = spec_required_members();
    let symbols = spec_required_symbols();
    assert(forall|j: int|
        0 <= j < types.len() ==> spec_find_type(image.types@, 0, #[trigger] types[j]) is Some);
    assert(forall|j: int|
        0 <= j < symbols.len() ==> spec_symbol(image, #[trigger] symbols[j]) is Some);
    assert(forall|j: int|
        0 <= j < members.len() && j != i ==> spec_member(
            image,
            (#[trigger] members[j]).0,
            members[j].1,
        ) is Some);
}

/// The resolved binding set: every global object address, per-type member
/// offset and function entry point the bridge needs, computed once at
/// initialization and read-only afterwards.
pub struct Script {
    /// Address of the host's global game-state object.
    pub game: u64,
    /// Address of the host's global configuration object.
    pub config: u64,
    /// Offsets of the state flags read during validation, inside the
    /// objects that own them.
    pub is_running_offset: usize,
    pub game_control_offset: usize,
    pub network_offset: usize,
    pub parameters_offset: usize,
    pub control_mode_offset: usize,
    pub league_address_offset: usize,
    pub general_offset: usize,
    pub allow_scripting_in_replays_offset: usize,
    pub is_host_offset: usize,
    pub network_status_offset: usize,
    pub network_enabled_offset: usize,
    /// Offset of the record's target-object field.
    pub target_obj_offset: usize,
    /// Entry points driven while building and submitting a record.
    pub constructor: u64,
    pub buf_copy: u64,
    pub do_input: u64,
    /// Address of the host's own dispatch table for the record type.
    pub vtable: u64,
    /// Everything the trampoline needs per request.
    pub execute_info: ExecuteInfo,
    /// The process-wide patched table copy, built once here.
    pub template: ShimTemplate,
}

impl Script {
    /// Resolves every required binding against the host image and builds
    /// the shim template from the original dispatch table's slots (header
    /// slot first) and the trampoline's address. If any required binding is
    /// missing, the whole initialization fails and the error names exactly
    /// the first missing piece, in resolution order.
    pub fn new(image: &HostImage, original_vtable: &Vec<u64>, trampoline: u64) -> (r: Result<
        Script,
        InitError,
    >)
        requires
            original_vtable@.len() == VTABLE_ENTRIES + 1,
        ensures
            r is Err <==> spec_first_missing(*image) is Some,
            r is Err ==> ({
                let missing = spec_first_missing(*image)->0;
                spec_err_kind(r->Err_0) == missing.0 && spec_err_name(r->Err_0) == missing.1
            }),
            r is Ok ==> ({
                let b = r->Ok_0;
                &&& b.game == spec_symbol(*image, "Game"@)->0
                &&& b.config == spec_symbol(*image, "Config"@)->0
                &&& b.execute_info.control_script_size == spec_type_size(
                    *image,
                    "C4ControlScript"@,
                )
                &&& b.target_obj_offset == spec_member(
                    *image,
                    "C4ControlScript"@,
                    "iTargetObj"@,
                )->0
                &&& b.execute_info.script_offset == spec_member(
                    *image,
                    "C4ControlScript"@,
                    "Script"@,
                )->0
                &&& b.is_running_offset == spec_member(*image, "C4Game"@, "IsRunning"@)->0
                &&& b.game_control_offset == spec_member(*image, "C4Game"@, "Control"@)->0
                &&& b.network_offset == spec_member(*image, "C4Game"@, "Network"@)->0
                &&& b.parameters_offset == spec_member(*image, "C4Game"@, "Parameters"@)->0
                &&& b.execute_info.script_engine_offset == spec_member(
                    *image,
                    "C4Game"@,
                    "ScriptEngine"@,
                )->0
                &&& b.control_mode_offset == spec_member(*image, "C4GameControl"@, "eMode"@)->0
                &&& b.league_address_offset == spec_member(
                    *image,
                    "C4GameParameters"@,
                    "LeagueAddress"@,
                )->0
                &&& b.general_offset == spec_member(*image, "C4Config"@, "General"@)->0
                &&& b.allow_scripting_in_replays_offset == spec_member(
                    *image,
                    "C4ConfigGeneral"@,
                    "AllowScriptingInReplays"@,
                )->0
                &&& b.is_host_offset == spec_member(*image, "C4Network2"@, "fHost"@)->0
                &&& b.network_status_offset == spec_member(*image, "C4Network2"@, "Status"@)->0
                &&& b.network_enabled_offset == spec_member(
                    *image,
                    "C4Network2Status"@,
                    "eState"@,
                )->0
                &&& b.constructor == spec_symbol(*image, "C4ControlPacket::C4ControlPacket"@)->0
                &&& b.buf_copy == spec_symbol(*image, "StdStrBuf::Copy"@)->0
                &&& b.do_input == spec_symbol(*image, "C4GameControl::DoInput"@)->0
                &&& b.vtable == spec_symbol(*image, "C4ControlScript::`vftable'"@)->0
                &&& b.execute_info.direct_exec == spec_symbol(
                    *image,
                    "C4AulScript::DirectExec"@,
                )->0
                &&& b.execute_info.get_data_string == spec_symbol(
                    *image,
                    "C4Value::GetDataString"@,
                )->0
                &&& b.execute_info.c4value_destructor == spec_symbol(*image, "C4Value::~C4Value"@)->0
                &&& b.execute_info.stdstrbuf_destructor == spec_symbol(
                    *image,
                    "StdStrBuf::~StdStrBuf"@,
                )->0
                &&& b.execute_info.grab_pointer == spec_symbol(*image, "StdStrBuf::GrabPointer"@)->0
                &&& b.template.spec_slots() == spec_shim_slots(original_vtable@, trampoline)
            }),
    {
        let control_script: &TypeInfo = match image.find_type("C4ControlScript") {
            Option::Some(t) => t,
            Option::None => {
                return Result::Err(InitError::TypeNotFound("C4ControlScript".to_owned()));
            },
        };
        let control_script_size = control_script.size;
        let target_obj_offset = match control_script.member_offset("iTargetObj") {
            Option::Some(o) => o,
            Option::None => {
                return Result::Err(InitError::MemberNotFound("iTargetObj".to_owned()));
            },
        };
        let script_offset = match control_script.member_offset("Script") {
            Option::Some(o) => o,
            Option::None => {
                return Result::Err(InitError::MemberNotFound("Script".to_owned()));
            },
        };
        let game_type: &TypeInfo = match image.find_type("C4Game") {
            Option::Some(t) => t,
            Option::None => {
                return Result::Err(InitError::TypeNotFound("C4Game".to_owned()));
            },
        };
        let game = match find_function(image, "Game") {
            Option::Some(a) => a,
            Option::None => {
                return Result::Err(InitError::SymbolNotFound("Game".to_owned()));
            },
        };
        let is_running_offset = match game_type.member_offset("IsRunning") {
            Option::Some(o) => o,
            Option::None => {
                return Result::Err(InitError::MemberNotFound("IsRunning".to_owned()));
            },
        };
        let game_control_offset = match game_type.member_offset("Control") {
            Option::Some(o) => o,
            Option::None => {
                return Result::Err(InitError::MemberNotFound("Control".to_owned()));
            },
        };
        let network_offset = match game_type.member_offset("Network") {
            Option::Some(o) => o,
            Option::None => {
                return Result::Err(InitError::MemberNotFound("Network".to_owned()));
            },
        };
        let parameters_offset = match game_type.member_offset("Parameters") {
            Option::Some(o) => o,
            Option::None => {
                return Result::Err(InitError::MemberNotFound("Parameters".to_owned()));
            },
        };
        let script_engine_offset = match game_type.member_offset("ScriptEngine") {
            Option::Some(o) => o,
            Option::None => {
                return Result::Err(InitError::MemberNotFound("ScriptEngine".to_owned()));
            },
        };
        let game_control_type: &TypeInfo = match image.find_type("C4GameControl") {
            Option::Some(t) => t,
            Option::None => {
                return Result::Err(InitError::TypeNotFound("C4GameControl".to_owned()));
            },
        };
        let control_mode_offset = match game_control_type.member_offset("eMode") {
            Option::Some(o) => o,
            Option::None => {
                return Result::Err(InitError::MemberNotFound("eMode".to_owned()));
            },
        };
        let parameters_type: &TypeInfo = match image.find_type("C4GameParameters") {
            Option::Some(t) => t,
            Option::None => {
                return Result::Err(InitError::TypeNotFound("C4GameParameters".to_owned()));
            },
        };
        let league_address_offset = match parameters_type.member_offset("LeagueAddress") {
            Option::Some(o) => o,
            Option::None => {
                return Result::Err(InitError::MemberNotFound("LeagueAddress".to_owned()));
            },
        };
        let config = match find_function(image, "Config") {
            Option::Some(a) => a,
            Option::None => {
                return Result::Err(InitError::SymbolNotFound("Config".to_owned()));
            },
        };
        let config_type: &TypeInfo = match image.find_type("C4Config") {
            Option::Some(t) => t,
            Option::None => {
                return Result::Err(InitError::TypeNotFound("C4Config".to_owned()));
            },
        };
        let general_offset = match config_type.member_offset("General") {
            Option::Some(o) => o,
            Option::None => {
                return Result::Err(InitError::MemberNotFound("General".to_owned()));
            },
        };
        let config_general_type: &TypeInfo = match image.find_type("C4ConfigGeneral") {
            Option::Some(t) => t,
            Option::None => {
                return Result::Err(InitError::TypeNotFound("C4ConfigGeneral".to_owned()));
            },
        };
        let allow_scripting_in_replays_offset = match config_general_type.member_offset(
            "AllowScriptingInReplays",
        ) {
            Option::Some(o) => o,
            Option::None => {
                return Result::Err(InitError::MemberNotFound("AllowScriptingInReplays".to_owned()));
            },
        };
        let network_type: &TypeInfo = match image.find_type("C4Network2") {
            Option::Some(t) => t,
            Option::None => {
                return Result::Err(InitError::TypeNotFound("C4Network2".to_owned()));
            },
        };
        let is_host_offset = match network_type.member_offset("fHost") {
            Option::Some(o) => o,
            Option::None => {
                return Result::Err(InitError::MemberNotFound("fHost".to_owned()));
            },
        };
        let network_status_offset = match network_type.member_offset("Status") {
            Option::Some(o) => o,
            Option::None => {
                return Result::Err(InitError::MemberNotFound("Status".to_owned()));
            },
        };
        let network_status_type: &TypeInfo = match image.find_type("C4Network2Status") {
            Option::Some(t) => t,
            Option::None => {
                return Result::Err(InitError::TypeNotFound("C4Network2Status".to_owned()));
            },
        };
        let network_enabled_offset = match network_status_type.member_offset("eState") {
            Option::Some(o) => o,
            Option::None => {
                return Result::Err(InitError::MemberNotFound("eState".to_owned()));
            },
        };
        let constructor = match find_function(image, "C4ControlPacket::C4ControlPacket") {
            Option::Some(a) => a,
            Option::None => {
                return Result::Err(
                    InitError::SymbolNotFound("C4ControlPacket::C4ControlPacket".to_owned()),
                );
            },
        };
        let buf_copy = match find_function(image, "StdStrBuf::Copy") {
            Option::Some(a) => a,
            Option::None => {
                return Result::Err(InitError::SymbolNotFound("StdStrBuf::Copy".to_owned()));
            },
        };
        let do_input = match find_function(image, "C4GameControl::DoInput") {
            Option::Some(a) => a,
            Option::None => {
                return Result::Err(InitError::SymbolNotFound("C4GameControl::DoInput".to_owned()));
            },
        };
        let vtable = match find_function(image, "C4ControlScript::`vftable'") {
            Option::Some(a) => a,
            Option::None => {
                return Result::Err(
                    InitError::SymbolNotFound("C4ControlScript::`vftable'".to_owned()),
                );
            },
        };
        let direct_exec = match find_function(image, "C4AulScript::DirectExec") {
            Option::Some(a) => a,
            Option::None => {
                return Result::Err(InitError::SymbolNotFound("C4AulScript::DirectExec".to_owned()));
            },
        };
        let get_data_string = match find_function(image, "C4Value::GetDataString") {
            Option::Some(a) => a,
            Option::None => {
                return Result::Err(InitError::SymbolNotFound("C4Value::GetDataString".to_owned()));
            },
        };
        let c4value_destructor = match find_function(image, "C4Value::~C4Value") {
            Option::Some(a) => a,
            Option::None => {
                return Result::Err(InitError::SymbolNotFound("C4Value::~C4Value".to_owned()));
            },
        };
        let stdstrbuf_destructor = match find_function(image, "StdStrBuf::~StdStrBuf") {
            Option::Some(a) => a,
            Option::None => {
                return Result::Err(InitError::SymbolNotFound("StdStrBuf::~StdStrBuf".to_owned()));
            },
        };
        let grab_pointer = match find_function(image, "StdStrBuf::GrabPointer") {
            Option::Some(a) => a,
            Option::None => {
                return Result::Err(InitError::SymbolNotFound("StdStrBuf::GrabPointer".to_owned()));
            },
        };

        let execute_info = ExecuteInfo {
            control_script_size,
            script_offset,
            script_engine_offset,
            direct_exec,
            get_data_string,
            c4value_destructor,
            stdstrbuf_destructor,
            grab_pointer,
        };
        let template = prepare_vtable(original_vtable, trampoline);
        Result::Ok(
            Script {
                game,
                config,
                is_running_offset,
                game_control_offset,
                network_offset,
                parameters_offset,
                control_mode_offset,
                league_address_offset,
                general_offset,
                allow_scripting_in_replays_offset,
                is_host_offset,
                network_status_offset,
                network_enabled_offset,
                target_obj_offset,
                constructor,
                buf_copy,
                do_input,
                vtable,
                execute_info,
                template,
            },
        )
    }
}

/// Snapshot of the raw host flags validation reads through the resolved
/// offsets, taken on the worker side right before a request is checked.
#[derive(Clone, Copy, PartialEq, Eq, Structural, Debug)]
pub struct HostFlags {
    /// Whether a scenario/session is active.
    pub is_running: bool,
    /// Whether networking is enabled.
    pub network_enabled: bool,
    /// Whether this process is acting as the network host.
    pub is_host: bool,
    /// The host's control mode.
    pub control_mode: i32,
    /// Whether scripting is allowed while a replay is playing back.
    pub allow_scripting_in_replays: bool,
    /// Length of the configured league connection address.
    pub league_address_len: usize,
}

/// The rejection rule table, checked in this order, first match wins:
/// no active scenario; networking enabled but not acting as host; replay
/// control mode with scripting in replays disallowed; a league connection
/// address configured.
pub open spec fn spec_validate(f: HostFlags) -> Option<ErrorCode> {
    if !f.is_running {
        Option::Some(ErrorCode::NoScenario)
    } else if f.network_enabled && !f.is_host {
        Option::Some(ErrorCode::NotHost)
    } else if f.control_mode == CONTROL_MODE_REPLAY && !f.allow_scripting_in_replays {
        Option::Some(ErrorCode::NoScriptingInReplays)
    } else if f.league_address_len > 0 {
        Option::Some(ErrorCode::LeagueActive)
    } else {
        Option::None
    }
}

/// Checks the host flags against the rejection rule table; the first
/// violated precondition, in table order, decides the reported reason.
pub fn validate(flags: &HostFlags) -> (r: Option<ErrorCode>)
    ensures
        r == spec_validate(*flags),
{
    if !flags.is_running {
        Option::Some(ErrorCode::NoScenario)
    } else if flags.network_enabled && !flags.is_host {
        Option::Some(ErrorCode::NotHost)
    } else if flags.control_mode == CONTROL_MODE_REPLAY && !flags.allow_scripting_in_replays {
        Option::Some(ErrorCode::NoScriptingInReplays)
    } else if flags.league_address_len > 0 {
        Option::Some(ErrorCode::LeagueActive)
    } else {
        Option::None
    }
}

/// Rejection priority is fixed by the rule table: whenever a scenario is
/// active and the process is a networked non-host, the reported reason is
/// `NotHost` — never `LeagueActive`, even if a league address is configured
/// at the same time. (With no active scenario, `NoScenario` precedes both.)
pub proof fn lemma_not_host_precedes_league(flags: HostFlags)
    requires
        flags.is_running,
        flags.network_enabled,
        !flags.is_host,
    ensures
        spec_validate(flags) == Option::<ErrorCode>::Some(ErrorCode::NotHost),
{
}

impl Script {
    /// Runs one request through validation and, only when every check
    /// passes, builds the synthetic record — a fresh shim instance with a
    /// fresh, unresolved reply channel in its appended slot, the sentinel
    /// target, and the script text in the embedded buffer — and posts its
    /// submission to the host thread. A rejected request is refused with
    /// the first violated rule's reason and posts no host-thread work at
    /// all.
    pub fn run_script(&self, flags: &HostFlags, script: &str, marshaler: &mut Marshaler) -> (r:
        Result<(), ErrorCode>)
        ensures
            match spec_validate(*flags) {
                Option::Some(e) => r == Result::<(), ErrorCode>::Err(e) && final(marshaler).spec_queue() == old(marshaler).spec_queue(),
                Option::None => r is Ok && final(marshaler).spec_queue().len() == old(marshaler).spec_queue().len() + 1 && final(marshaler).spec_queue().take(
                    old(marshaler).spec_queue().len() as int,
                ) == old(marshaler).spec_queue() && ({
                    let rec = final(marshaler).spec_queue().last();
                    &&& rec.size == self.execute_info.control_script_size
                    &&& rec.target_obj == TARGET_OBJECT_NONE
                    &&& rec.script@ == script@
                    &&& rec.shim.spec_slots() == self.template.spec_slots()
                    &&& rec.shim.spec_context() is Some
                    &&& rec.shim.spec_context()->0.info == self.execute_info
                    &&& !rec.shim.spec_context()->0.reply.spec_resolved()
                    &&& rec.shim.wf()
                }),
            },
    {
        match validate(flags) {
            Option::Some(reason) => Result::Err(reason),
            Option::None => {
                let context = ExecutionContext {
                    info: self.execute_info,
                    reply: ReplyChannel::new(),
                };
                let shim = ShimInstance::instantiate(&self.template, context);
                let record = SyntheticRecord {
                    size: self.execute_info.control_script_size,
                    shim,
                    target_obj: TARGET_OBJECT_NONE,
                    script: script.to_owned(),
                };
                marshaler.post(record);
                proof {
                    assert(marshaler.spec_queue().take(old(marshaler).spec_queue().len() as int)
                        =~= old(marshaler).spec_queue());
                }
                Result::Ok(())
            },
        }
    }
}

/// What the host's native execute-and-stringify pass produced for one
/// record: the resulting value's text, or a parse failure inside the host.
pub enum HostExecResult {
    Value(String),
    ParseFailure,
}

/// The outcome the trampoline resolves the reply channel with.
pub open spec fn spec_outcome(host: HostExecResult) -> ScriptOutcome {
    match host {
        HostExecResult::Value(s) => ScriptOutcome::Completed(s),
        HostExecResult::ParseFailure => ScriptOutcome::Failed(ErrorCode::ScriptParseError),
    }
}

/// The trampoline the shim installs in the execute slot, fired by the
/// host's own dispatch on the host thread. It reads the per-call context
/// out of the appended shim slot — consuming it, so the slot is read
/// exactly once per request — and resolves the context's one-shot reply
/// channel with the host's result. A second firing against the same record
/// finds the slot already consumed, changes nothing and reports the defect
/// by yielding no channel.
pub fn control_script_execute(record: &mut SyntheticRecord, host: HostExecResult) -> (r: Option<
    ReplyChannel,
>)
    requires
        old(record).shim.wf(),
    ensures
        final(record).shim.wf(),
        final(record).size == old(record).size,
        final(record).target_obj == old(record).target_obj,
        final(record).script@ == old(record).script@,
        final(record).shim.spec_slots() == old(record).shim.spec_slots(),
        final(record).shim.spec_context() is None,
        match old(record).shim.spec_context() {
            Option::Some(ctx) => r is Some && ({
                let ch = r->0;
                &&& ch.spec_resolved()
                &&& ch.spec_slot() == Option::Some(spec_outcome(host))
            }),
            Option::None => r is None,
        },
{
    let taken = record.shim.take_context();
    match taken {
        Option::Some(context) => {
            let outcome = match host {
                HostExecResult::Value(text) => ScriptOutcome::Completed(text),
                HostExecResult::ParseFailure => ScriptOutcome::Failed(ErrorCode::ScriptParseError),
            };
            let mut channel = context.reply;
            let sent = channel.send(outcome);
            proof {
                assert(sent);
            }
            Option::Some(channel)
        },
        Option::None => Option::None,
    }
}

} // verus!
