use bottles_server::bottle::calls::{
    answer, create_bottle, created_event, delete_bottle, done_event, progress_event, snapshot_event,
    take_changes, Action, BottleCall, BottleEvent, Command, Edit,
};
use bottles_server::bottle::convert::{
    bottle_state_to_proto, bottles_to_proto, component_to_proto, convert_progress,
    dependency_to_proto, filter_from_proto, filter_to_proto, gamescope_from_proto,
    gamescope_to_proto, mangohud_from_proto, mangohud_to_proto, program_from_proto,
    program_to_proto, program_with_id, requirement_to_proto, scaler_from_proto, scaler_to_proto,
    slot_from_proto, slot_to_proto, snapshot_to_proto, snapshots_to_proto, storage_from_proto,
    storage_to_proto, to_status,
};
use bottles_server::bottle::{message, model};
use bottles_server::machine::Machine;
use bottles_server::status::{
    AddonError, BottleError, Code, CoreError, ErrorKind, ProfileError, Status,
};

const ID: u128 = 0x936da01f_9abd_4d9d_80c7_02af85c822a8;
const ID_TEXT: &str = "936da01f-9abd-4d9d-80c7-02af85c822a8";

fn failure(kind: ErrorKind) -> CoreError {
    CoreError { kind, message: "it broke".to_string() }
}

fn code_of(kind: ErrorKind) -> Code {
    let status = to_status(failure(kind));
    assert_eq!(status.message, "it broke");
    assert!(status.details.is_empty() && status.metadata.is_empty());
    status.code
}

fn says(status: &Status, code: Code, text: &str) -> bool {
    status.code == code && status.message == text
}

#[test]
fn failures_of_a_bottle_have_their_codes() {
    for err in [BottleError::NotFound, BottleError::Deleted, BottleError::ProgramNotFound] {
        assert_eq!(code_of(ErrorKind::Bottle(err)), Code::NotFound);
    }
    for err in [BottleError::ComponentNotInstalled, BottleError::RequiresAddon] {
        assert_eq!(code_of(ErrorKind::Bottle(err)), Code::FailedPrecondition);
    }
    for err in [
        BottleError::InvalidProgram,
        BottleError::InvalidEnvironmentName,
        BottleError::InvalidEnvironmentValue,
        BottleError::InvalidDllName,
        BottleError::DllOverrideModeRequired,
        BottleError::InvalidComponentSlot,
        BottleError::IdMismatch,
    ] {
        assert_eq!(code_of(ErrorKind::Bottle(err)), Code::InvalidArgument);
    }
    assert_eq!(code_of(ErrorKind::Bottle(BottleError::Other)), Code::Internal);
    assert_eq!(code_of(ErrorKind::Addon(AddonError::NotFound)), Code::NotFound);
    assert_eq!(code_of(ErrorKind::Addon(AddonError::Other)), Code::Internal);
    assert_eq!(code_of(ErrorKind::Cancelled), Code::Cancelled);
    assert_eq!(code_of(ErrorKind::Profile(ProfileError::NotFound)), Code::Internal);
    assert_eq!(code_of(ErrorKind::Other), Code::Internal);
}

#[test]
fn status_of_another_service_is_passed_through() {
    let status = Status {
        code: Code::DataLoss,
        message: "theirs".to_string(),
        details: vec![1, 2],
        metadata: vec![("k".to_string(), vec![3])],
    };
    let answered = to_status(failure(ErrorKind::Status(status)));
    assert!(says(&answered, Code::DataLoss, "theirs"));
    assert_eq!(answered.details, vec![1, 2]);
    assert_eq!(answered.metadata, vec![("k".to_string(), vec![3])]);
}

#[test]
fn slots_read_back() {
    for slot in [
        model::Slot::WineBridge,
        model::Slot::Runner,
        model::Slot::Umu,
        model::Slot::Dxvk,
        model::Slot::Vkd3d,
        model::Slot::Nvapi,
        model::Slot::LatencyFlex,
    ] {
        assert_eq!(slot_from_proto(slot_to_proto(slot)).unwrap(), slot);
    }
    assert_eq!(slot_to_proto(model::Slot::WineBridge), message::Slot::Winebridge);
    for slot in [message::Slot::Unspecified, message::Slot::Unrecognized(99)] {
        let status = slot_from_proto(slot).unwrap_err();
        assert!(says(&status, Code::InvalidArgument, "slot is required"));
    }
}

#[test]
fn kinds_of_storage_read_back() {
    for storage in [model::Storage::Standard, model::Storage::Virgo] {
        assert_eq!(storage_from_proto(storage_to_proto(storage)).unwrap(), storage);
    }
    for storage in [message::Storage::Unspecified, message::Storage::Unrecognized(-1)] {
        let status = storage_from_proto(storage).unwrap_err();
        assert!(says(&status, Code::InvalidArgument, "storage is required"));
    }
}

#[test]
fn scalers_and_filters_read_back() {
    for scaler in [
        model::GamescopeScaler::Auto,
        model::GamescopeScaler::Integer,
        model::GamescopeScaler::Fit,
        model::GamescopeScaler::Fill,
        model::GamescopeScaler::Stretch,
    ] {
        assert_eq!(scaler_from_proto(scaler_to_proto(scaler)), Some(scaler));
    }
    for filter in [
        model::GamescopeFilter::Linear,
        model::GamescopeFilter::Nearest,
        model::GamescopeFilter::Fsr,
        model::GamescopeFilter::Nis,
        model::GamescopeFilter::Pixel,
    ] {
        assert_eq!(filter_from_proto(filter_to_proto(filter)), Some(filter));
    }
    assert_eq!(scaler_from_proto(message::Scaler::Unspecified), None);
    assert_eq!(scaler_from_proto(message::Scaler::Unrecognized(9)), None);
    assert_eq!(filter_from_proto(message::Filter::Unspecified), None);
    assert_eq!(filter_from_proto(message::Filter::Unrecognized(9)), None);
}

fn gamescope() -> model::GamescopeConfig {
    model::GamescopeConfig {
        enabled: true,
        game_width: Some(1280),
        game_height: Some(720),
        output_width: Some(1920),
        output_height: Some(1080),
        frame_rate: Some(60),
        unfocused_frame_rate: None,
        scaler: Some(model::GamescopeScaler::Fit),
        filter: Some(model::GamescopeFilter::Fsr),
        sharpness: Some(255),
        borderless: false,
        fullscreen: true,
    }
}

#[test]
fn gamescope_settings_read_back() {
    let shown = gamescope_to_proto(&gamescope());
    assert_eq!(shown.sharpness, Some(255));
    assert_eq!(shown.scaler, Some(message::Scaler::Fit));
    assert_eq!(gamescope_from_proto(shown), gamescope());
}

#[test]
fn settings_out_of_range_count_as_none() {
    let mut shown = gamescope_to_proto(&gamescope());
    shown.sharpness = Some(256);
    shown.scaler = Some(message::Scaler::Unspecified);
    shown.filter = Some(message::Filter::Unrecognized(7));
    let read = gamescope_from_proto(shown);
    assert_eq!(read.sharpness, None);
    assert_eq!(read.scaler, None);
    assert_eq!(read.filter, None);
    assert_eq!(read.game_width, Some(1280));
}

#[test]
fn mangohud_settings_read_back() {
    for enabled in [true, false] {
        let config = model::MangoHudConfig { enabled };
        assert_eq!(mangohud_to_proto(&config).enabled, enabled);
        assert_eq!(mangohud_from_proto(mangohud_to_proto(&config)), config);
    }
}

fn program() -> model::Program {
    model::Program {
        id: ID,
        name: "Game".to_string(),
        executable: "C:\\game.exe".to_string(),
        args: vec!["-a".to_string(), "b c".to_string()],
        working_directory: Some("C:\\".to_string()),
        new_console: true,
    }
}

#[test]
fn programs_read_back() {
    let shown = program_to_proto(&program());
    assert_eq!(shown.id, ID_TEXT);
    assert_eq!(shown.args, vec!["-a".to_string(), "b c".to_string()]);
    let read = program_from_proto(shown);
    assert_eq!(read.id, ID);
    assert_eq!(read.name, "Game");
    assert_eq!(read.executable, "C:\\game.exe");
    assert_eq!(read.args, vec!["-a".to_string(), "b c".to_string()]);
    assert_eq!(read.working_directory.as_deref(), Some("C:\\"));
    assert!(read.new_console);
}

#[test]
fn identifiers_are_read_in_every_form() {
    for text in [
        ID_TEXT.to_string(),
        ID_TEXT.to_uppercase(),
        ID_TEXT.replace('-', ""),
        format!("{{{ID_TEXT}}}"),
        format!("urn:uuid:{ID_TEXT}"),
        format!("URN:UUID:{ID_TEXT}"),
    ] {
        let mut shown = program_to_proto(&program());
        shown.id = text;
        assert_eq!(program_from_proto(shown).id, ID);
        assert_eq!(delete_bottle(&format!("{{{ID_TEXT}}}")).unwrap(), ID);
    }
}

#[test]
fn unreadable_identifiers_are_replaced_by_random_ones() {
    let mut seen = Vec::new();
    for text in ["", "none", "936da01f9abd-4d9d-80c7-02af85c822a8-", "(936da01f-9abd-4d9d-80c7-02af85c822a8)"] {
        let mut shown = program_to_proto(&program());
        shown.id = text.to_string();
        let read = program_from_proto(shown);
        assert_ne!(read.id, ID);
        assert_eq!((read.id >> 76) & 0xf, 4);
        assert_eq!((read.id >> 62) & 0x3, 2);
        assert_eq!(read.name, "Game");
        assert!(!seen.contains(&read.id));
        seen.push(read.id);
    }
}

#[test]
fn program_takes_a_given_identifier() {
    let shown = program_to_proto(&program());
    assert_eq!(program_with_id(shown, 7).id, 7);
}

fn component() -> model::Component {
    model::Component {
        id: ID,
        name: "dxvk".to_string(),
        version: "2.3".to_string(),
        requirements: vec![
            model::Requirement::Name("vulkan".to_string()),
            model::Requirement::Slot(model::Slot::Runner),
            model::Requirement::Id(1),
        ],
        slot: model::Slot::Dxvk,
    }
}

#[test]
fn requirements_keep_their_kind() {
    let shown = requirement_to_proto(&model::Requirement::Id(0));
    match shown.kind {
        Some(message::RequirementKind::Id(text)) => {
            assert_eq!(text, "00000000-0000-0000-0000-000000000000")
        }
        _ => panic!("another kind"),
    }
    assert!(matches!(
        requirement_to_proto(&model::Requirement::Slot(model::Slot::Umu)).kind,
        Some(message::RequirementKind::Slot(message::Slot::Umu))
    ));
}

#[test]
fn components_are_shown() {
    let shown = component_to_proto(&component());
    assert_eq!(shown.id, ID_TEXT);
    assert_eq!(shown.name, "dxvk");
    assert_eq!(shown.version, "2.3");
    assert_eq!(shown.slot, message::Slot::Dxvk);
    assert_eq!(shown.requirements.len(), 3);
    assert!(matches!(&shown.requirements[0].kind, Some(message::RequirementKind::Name(n)) if n == "vulkan"));
}

fn state() -> model::BottleState {
    model::BottleState {
        id: ID,
        name: "Bottle".to_string(),
        storage: model::Storage::Virgo,
        programs: vec![program()],
        components: vec![("dxvk".to_string(), component())],
        dependencies: vec![model::Dependency {
            id: 2,
            name: "d3dx9".to_string(),
            version: "1".to_string(),
            requirements: vec![],
        }],
        environment: vec![("A".to_string(), "1".to_string()), ("B".to_string(), "".to_string())],
        gamescope: gamescope(),
        mangohud: model::MangoHudConfig { enabled: true },
    }
}

#[test]
fn dependencies_are_shown() {
    let shown = dependency_to_proto(&state().dependencies[0]);
    assert_eq!(shown.id, "00000000-0000-0000-0000-000000000002");
    assert_eq!(shown.name, "d3dx9");
    assert!(shown.requirements.is_empty());
}

#[test]
fn bottles_are_shown() {
    let shown = bottle_state_to_proto(&state());
    assert_eq!(shown.id, ID_TEXT);
    assert_eq!(shown.name, "Bottle");
    assert_eq!(shown.storage, message::Storage::Virgo);
    assert_eq!(shown.programs.len(), 1);
    assert_eq!(shown.programs[0].id, ID_TEXT);
    assert_eq!(shown.components.len(), 1);
    assert_eq!(shown.components[0].0, "dxvk");
    assert_eq!(shown.components[0].1.slot, message::Slot::Dxvk);
    assert_eq!(shown.dependencies[0].version, "1");
    assert_eq!(shown.environment, state().environment);
    assert_eq!(shown.gamescope.map(gamescope_from_proto), Some(gamescope()));
    assert_eq!(shown.mangohud, Some(message::MangoHudConfig { enabled: true }));
}

#[test]
fn unreadable_bottles_are_left_out_of_a_list() {
    let mut other = state();
    other.name = "Other".to_string();
    let shown = bottles_to_proto(&[None, Some(state()), None, Some(other)]);
    let names: Vec<String> = shown.into_iter().map(|b| b.name).collect();
    assert_eq!(names, vec!["Bottle".to_string(), "Other".to_string()]);
}

#[test]
fn progress_is_shown_with_its_file_and_transfer() {
    let shown = convert_progress(model::Progress {
        stage: model::Stage::Downloading("a.tar".to_string()),
        transfer: Some(model::Transfer { current: 3, total: Some(9) }),
    });
    assert_eq!(shown.stage, message::Stage::Downloading);
    assert_eq!(shown.file.as_deref(), Some("a.tar"));
    assert_eq!(shown.transfer, Some(message::Transfer { current: 3, total: Some(9) }));
    let stages = vec![
        (model::Stage::Preparing, message::Stage::Preparing),
        (model::Stage::Stopping, message::Stage::Stopping),
        (model::Stage::Extracting, message::Stage::Extracting),
        (model::Stage::CreatingPrefix, message::Stage::CreatingPrefix),
        (model::Stage::Checkpointing, message::Stage::Checkpointing),
        (model::Stage::Restoring, message::Stage::Restoring),
        (model::Stage::Rebuilding, message::Stage::Rebuilding),
        (model::Stage::Configuring, message::Stage::Configuring),
        (model::Stage::Removing, message::Stage::Removing),
        (model::Stage::Committing, message::Stage::Committing),
    ];
    for (stage, expected) in stages {
        let shown = convert_progress(model::Progress { stage, transfer: None });
        assert_eq!(shown.stage, expected);
        assert!(shown.file.is_none() && shown.transfer.is_none());
    }
    let verifying = model::Stage::Verifying("b".to_string());
    let shown = convert_progress(model::Progress { stage: verifying, transfer: None });
    assert_eq!((shown.stage, shown.file.as_deref()), (message::Stage::Verifying, Some("b")));
}

fn snapshot() -> model::Snapshot {
    model::Snapshot {
        repository_path: "/r".to_string(),
        state_id: "s".to_string(),
        created_at: Some(model::Timestamp { seconds: 5, nanos: 6 }),
        file_count: 7,
        message: "m".to_string(),
        created: true,
    }
}

#[test]
fn snapshots_are_shown() {
    let shown = snapshot_to_proto(snapshot());
    assert_eq!(shown.repository_path, "/r");
    assert_eq!(shown.state_id, "s");
    assert_eq!(shown.created_at, Some(message::Timestamp { seconds: 5, nanos: 6 }));
    assert_eq!((shown.file_count, shown.message.as_str(), shown.created), (7, "m", true));
    let list = snapshots_to_proto(vec![
        model::SnapshotSummary {
            repository_path: "/r".to_string(),
            state_id: "1".to_string(),
            created_at: None,
            message: "x".to_string(),
            file_count: 1,
        },
        model::SnapshotSummary {
            repository_path: "/r".to_string(),
            state_id: "2".to_string(),
            created_at: Some(model::Timestamp { seconds: 1, nanos: 2 }),
            message: "y".to_string(),
            file_count: 2,
        },
    ]);
    assert_eq!(list.len(), 2);
    assert_eq!((list[0].state_id.as_str(), list[0].created_at), ("1", None));
    assert_eq!((list[1].message.as_str(), list[1].file_count), ("y", 2));
    assert_eq!(list[1].created_at, Some(message::Timestamp { seconds: 1, nanos: 2 }));
}

#[test]
fn new_bottle_needs_storage_before_its_runner() {
    let new = create_bottle("n".to_string(), message::Storage::Standard, ID_TEXT).unwrap();
    assert_eq!((new.name.as_str(), new.storage, new.runner), ("n", model::Storage::Standard, ID));
    let status = create_bottle("n".to_string(), message::Storage::Unspecified, "bad").unwrap_err();
    assert!(says(&status, Code::InvalidArgument, "storage is required"));
    let status = create_bottle("n".to_string(), message::Storage::Virgo, "bad").unwrap_err();
    assert!(says(&status, Code::InvalidArgument, "invalid runner_component_id"));
}

#[test]
fn bottle_to_delete_needs_an_identifier() {
    assert_eq!(delete_bottle(ID_TEXT).unwrap(), ID);
    assert!(says(&delete_bottle("x").unwrap_err(), Code::InvalidArgument, "invalid bottle_id"));
}

fn open(action: Action) -> BottleCall {
    let call = BottleCall::begin(ID_TEXT, action);
    assert!(matches!(&call, BottleCall::Open(id, _) if *id == ID));
    call.step(BottleEvent::Opened(Ok(())))
}

fn refusal(action: Action) -> String {
    match open(action) {
        BottleCall::Refuse(status) => {
            assert_eq!(status.code, Code::InvalidArgument);
            status.message
        }
        call => panic!("{call:?}"),
    }
}

fn performed(action: Action) -> Command {
    match open(action) {
        BottleCall::Perform(command) => command,
        call => panic!("{call:?}"),
    }
}

fn bad() -> String {
    "bad".to_string()
}

fn good() -> String {
    ID_TEXT.to_string()
}

#[test]
fn bad_bottle_identifier_is_refused_first() {
    match BottleCall::begin("x", Action::RunProgram { program_id: bad() }) {
        BottleCall::Refuse(status) => {
            assert!(says(&status, Code::InvalidArgument, "invalid bottle_id"))
        }
        call => panic!("{call:?}"),
    }
}

#[test]
fn missing_bottle_is_answered_before_a_flawed_argument() {
    let call = BottleCall::begin(ID_TEXT, Action::RunProgram { program_id: bad() });
    match call.step(BottleEvent::Opened(Err(failure(ErrorKind::Bottle(BottleError::NotFound))))) {
        BottleCall::Refuse(status) => assert!(says(&status, Code::NotFound, "it broke")),
        call => panic!("{call:?}"),
    }
}

#[test]
fn flawed_arguments_are_refused_by_name() {
    assert_eq!(refusal(Action::SetComponent { component_id: bad() }), "invalid component_id");
    assert_eq!(refusal(Action::RemoveComponent { slot: message::Slot::Unspecified }), "slot is required");
    assert_eq!(refusal(Action::InstallDependency { dependency_id: bad() }), "invalid dependency_id");
    assert_eq!(refusal(Action::RunProgram { program_id: bad() }), "invalid program_id");
    assert_eq!(refusal(Action::KillProcess { program_id: bad() }), "invalid program_id");
    let mode = message::DllOverrideMode { number: 77, recognized: false };
    assert_eq!(refusal(Action::SetDllOverride { dll: bad(), mode }), "invalid dll override mode");
    let operations = vec![message::EditOperation { change: Some(message::Change::RemoveProgramId(bad())) }];
    assert_eq!(refusal(Action::Edit { operations }), "invalid remove_program_id");
}

#[test]
fn actions_ask_for_their_commands() {
    assert!(matches!(performed(Action::Watch), Command::Watch));
    assert!(matches!(performed(Action::SetComponent { component_id: good() }), Command::SetComponent(ID)));
    assert!(matches!(
        performed(Action::RemoveComponent { slot: message::Slot::Nvapi }),
        Command::RemoveComponent(model::Slot::Nvapi)
    ));
    assert!(matches!(performed(Action::InstallDependency { dependency_id: good() }), Command::Install(ID)));
    assert!(matches!(performed(Action::RunProgram { program_id: good() }), Command::Run(ID)));
    assert!(matches!(performed(Action::ListProcesses), Command::ListProcesses));
    assert!(matches!(performed(Action::KillProcess { program_id: good() }), Command::Kill(ID)));
    assert!(matches!(performed(Action::Stop), Command::Stop));
    assert!(matches!(performed(Action::ListDllOverrides), Command::ListDllOverrides));
    let mode = message::DllOverrideMode { number: 2, recognized: true };
    assert!(matches!(
        performed(Action::SetDllOverride { dll: "d3d9".to_string(), mode }),
        Command::SetDllOverride(dll, 2) if dll == "d3d9"
    ));
    assert!(matches!(
        performed(Action::UnsetDllOverride { dll: "d3d9".to_string() }),
        Command::UnsetDllOverride(dll) if dll == "d3d9"
    ));
    assert!(matches!(
        performed(Action::CreateSnapshot { message: "m".to_string() }),
        Command::CreateSnapshot(text) if text == "m"
    ));
    assert!(matches!(performed(Action::ListSnapshots), Command::ListSnapshots));
    assert!(matches!(
        performed(Action::Rollback { state_id_or_prefix: "ab".to_string() }),
        Command::Rollback(text) if text == "ab"
    ));
}

#[test]
fn state_of_a_bottle_is_answered() {
    let call = open(Action::Get);
    assert!(matches!(call, BottleCall::ReadState));
    match call.step(BottleEvent::State(Ok(state()))) {
        BottleCall::Show(shown) => assert_eq!(shown.name, "Bottle"),
        call => panic!("{call:?}"),
    }
    match open(Action::Get).step(BottleEvent::State(Err(failure(ErrorKind::Other)))) {
        BottleCall::Refuse(status) => assert!(says(&status, Code::Internal, "it broke")),
        call => panic!("{call:?}"),
    }
}

fn change(change: message::Change) -> message::EditOperation {
    message::EditOperation { change: Some(change) }
}

fn operations() -> Vec<message::EditOperation> {
    vec![
        change(message::Change::Rename("New".to_string())),
        message::EditOperation { change: None },
        change(message::Change::SetEnv(message::EnvVar { key: "K".to_string(), value: "V".to_string() })),
        change(message::Change::UnsetEnv("U".to_string())),
        change(message::Change::AddProgram(program_to_proto(&program()))),
        change(message::Change::RemoveProgramId(good())),
        change(message::Change::SetGamescope(gamescope_to_proto(&gamescope()))),
        change(message::Change::SetMangohud(message::MangoHudConfig { enabled: true })),
    ]
}

#[test]
fn changes_are_taken_in_order() {
    let edits = take_changes(operations()).unwrap();
    assert_eq!(edits.len(), 7);
    assert!(matches!(&edits[0], Edit::Rename(name) if name == "New"));
    assert!(matches!(&edits[1], Edit::SetEnv(k, v) if k == "K" && v == "V"));
    assert!(matches!(&edits[2], Edit::UnsetEnv(k) if k == "U"));
    assert!(matches!(&edits[3], Edit::AddProgram(p) if p.id == ID && p.name == "Game"));
    assert!(matches!(&edits[4], Edit::RemoveProgram(id) if *id == ID));
    assert!(matches!(&edits[5], Edit::SetGamescope(config) if *config == gamescope()));
    assert!(matches!(&edits[6], Edit::SetMangohud(config) if config.enabled));
}

#[test]
fn one_flawed_change_refuses_them_all() {
    let mut all = operations();
    all.push(change(message::Change::RemoveProgramId("".to_string())));
    let status = take_changes(all).unwrap_err();
    assert!(says(&status, Code::InvalidArgument, "invalid remove_program_id"));
}

#[test]
fn edited_bottle_is_read_after_its_commit() {
    let call = open(Action::Edit { operations: operations() });
    assert!(matches!(&call, BottleCall::Commit(edits) if edits.len() == 7));
    let call = call.step(BottleEvent::Committed(Ok(())));
    assert!(matches!(&call, BottleCall::ReadState));
    assert!(matches!(call.step(BottleEvent::State(Ok(state()))), BottleCall::Show(_)));
    let call = open(Action::Edit { operations: vec![] });
    match call.step(BottleEvent::Committed(Err(failure(ErrorKind::Cancelled)))) {
        BottleCall::Refuse(status) => assert!(says(&status, Code::Cancelled, "it broke")),
        call => panic!("{call:?}"),
    }
}

#[test]
fn event_that_was_not_awaited_changes_nothing() {
    let call = open(Action::Get).step(BottleEvent::Committed(Ok(())));
    assert!(matches!(call, BottleCall::ReadState));
}

#[test]
fn operations_end_with_what_they_gave() {
    let event = done_event(Ok(5u8)).unwrap();
    assert!(matches!(event.event, Some(message::OperationUpdate::Done(5))));
    let status = done_event::<u8>(Err(failure(ErrorKind::Cancelled))).unwrap_err();
    assert!(says(&status, Code::Cancelled, "it broke"));
    assert_eq!(answer(Ok(3)).unwrap(), 3);
    assert_eq!(answer::<u8>(Err(failure(ErrorKind::Other))).unwrap_err().code, Code::Internal);
    let event = progress_event::<u8>(model::Progress { stage: model::Stage::Removing, transfer: None });
    assert!(matches!(
        event.event,
        Some(message::OperationUpdate::Progress(progress)) if progress.stage == message::Stage::Removing
    ));
}

#[test]
fn creation_of_an_unreadable_bottle_ends_with_an_empty_event() {
    assert!(created_event(Ok(None)).unwrap().event.is_none());
    assert!(matches!(
        created_event(Ok(Some(state()))).unwrap().event,
        Some(message::OperationUpdate::Done(shown)) if shown.id == ID_TEXT
    ));
    assert_eq!(created_event(Err(failure(ErrorKind::Other))).unwrap_err().code, Code::Internal);
}

#[test]
fn taking_a_snapshot_ends_with_the_snapshot() {
    assert!(matches!(
        snapshot_event(Ok(snapshot())).unwrap().event,
        Some(message::OperationUpdate::Done(shown)) if shown.state_id == "s"
    ));
    let err = failure(ErrorKind::Bottle(BottleError::Deleted));
    assert_eq!(snapshot_event(Err(err)).unwrap_err().code, Code::NotFound);
}
