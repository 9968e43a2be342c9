//! Bottles in the messages of the protocol. A number that the protocol does not know
//! is kept as `Unrecognized`.

use vstd::prelude::*;

verus! {

#[derive(Clone, Copy, Debug, PartialEq, Eq, Structural)]
pub enum Slot {
    Unspecified,
    Winebridge,
    Runner,
    Umu,
    Dxvk,
    Vkd3d,
    Nvapi,
    LatencyFlex,
    Unrecognized(i32),
}

#[derive(Clone, Copy, Debug, PartialEq, Eq, Structural)]
pub enum Storage {
    Unspecified,
    Standard,
    Virgo,
    Unrecognized(i32),
}

#[derive(Clone, Copy, Debug, PartialEq, Eq, Structural)]
pub enum Scaler {
    Unspecified,
    Auto,
    Integer,
    Fit,
    Fill,
    Stretch,
    Unrecognized(i32),
}

#[derive(Clone, Copy, Debug, PartialEq, Eq, Structural)]
pub enum Filter {
    Unspecified,
    Linear,
    Nearest,
    Fsr,
    Nis,
    Pixel,
    Unrecognized(i32),
}

#[derive(Clone, Copy, Debug, PartialEq, Eq, Structural)]
pub enum Stage {
    Preparing,
    Stopping,
    Downloading,
    Verifying,
    Extracting,
    CreatingPrefix,
    Checkpointing,
    Restoring,
    Rebuilding,
    Configuring,
    Removing,
    Committing,
}

/// A mode of a DLL override: its number, and whether the protocol knows it.
#[derive(Clone, Copy, Debug, PartialEq, Eq)]
pub struct DllOverrideMode {
    pub number: i32,
    pub recognized: bool,
}

#[derive(Debug)]
pub enum RequirementKind {
    Name(String),
    Slot(Slot),
    Id(String),
}

#[derive(Debug)]
pub struct Requirement {
    pub kind: Option<RequirementKind>,
}

#[derive(Debug)]
pub struct Component {
    pub id: String,
    pub name: String,
    pub version: String,
    pub requirements: Vec<Requirement>,
    pub slot: Slot,
}

#[derive(Debug)]
pub struct Dependency {
    pub id: String,
    pub name: String,
    pub version: String,
    pub requirements: Vec<Requirement>,
}

#[derive(Debug)]
pub struct Program {
    pub id: String,
    pub name: String,
    pub executable: String,
    pub args: Vec<String>,
    pub working_directory: Option<String>,
    pub new_console: bool,
}

#[derive(Clone, Copy, Debug, PartialEq, Eq)]
pub struct GamescopeConfig {
    pub enabled: bool,
    pub game_width: Option<u32>,
    pub game_height: Option<u32>,
    pub output_width: Option<u32>,
    pub output_height: Option<u32>,
    pub frame_rate: Option<u32>,
    pub unfocused_frame_rate: Option<u32>,
    pub scaler: Option<Scaler>,
    pub filter: Option<Filter>,
    pub sharpness: Option<u32>,
    pub borderless: bool,
    pub fullscreen: bool,
}

#[derive(Clone, Copy, Debug, PartialEq, Eq)]
pub struct MangoHudConfig {
    pub enabled: bool,
}

/// A bottle. The protocol sends `components` and `environment` as maps.
#[derive(Debug)]
pub struct BottleState {
    pub id: String,
    pub name: String,
    pub storage: Storage,
    pub programs: Vec<Program>,
    pub components: Vec<(String, Component)>,
    pub dependencies: Vec<Dependency>,
    pub environment: Vec<(String, String)>,
    pub gamescope: Option<GamescopeConfig>,
    pub mangohud: Option<MangoHudConfig>,
}

#[derive(Clone, Copy, Debug, PartialEq, Eq)]
pub struct Transfer {
    pub current: u64,
    pub total: Option<u64>,
}

#[derive(Debug)]
pub struct OperationProgress {
    pub stage: Stage,
    pub file: Option<String>,
    pub transfer: Option<Transfer>,
}

/// A moment, as `google.protobuf.Timestamp` has it.
#[derive(Clone, Copy, Debug, PartialEq, Eq)]
pub struct Timestamp {
    pub seconds: i64,
    pub nanos: i32,
}

#[derive(Debug)]
pub struct Snapshot {
    pub repository_path: String,
    pub state_id: String,
    pub created_at: Option<Timestamp>,
    pub file_count: u64,
    pub message: String,
    pub created: bool,
}

#[derive(Debug)]
pub struct SnapshotSummary {
    pub repository_path: String,
    pub state_id: String,
    pub created_at: Option<Timestamp>,
    pub message: String,
    pub file_count: u64,
}

#[derive(Debug)]
pub struct EnvVar {
    pub key: String,
    pub value: String,
}

/// A change of a bottle.
#[derive(Debug)]
pub enum Change {
    Rename(String),
    SetEnv(EnvVar),
    UnsetEnv(String),
    AddProgram(Program),
    RemoveProgramId(String),
    SetGamescope(GamescopeConfig),
    SetMangohud(MangoHudConfig),
}

/// One operation of an edit; it may hold no change.
#[derive(Debug)]
pub struct EditOperation {
    pub change: Option<Change>,
}

/// An event of a long operation; one that carries nothing says nothing.
#[derive(Debug)]
pub struct OperationEvent<T> {
    pub event: Option<OperationUpdate<T>>,
}

/// What an event of a long operation can carry.
#[derive(Debug)]
pub enum OperationUpdate<T> {
    Progress(OperationProgress),
    Done(T),
}

} // verus!
