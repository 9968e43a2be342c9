//! Bottles as the core library holds them.

use vstd::prelude::*;

verus! {

/// The places of a bottle that a component can take.
#[derive(Clone, Copy, Debug, PartialEq, Eq, Structural)]
pub enum Slot {
    WineBridge,
    Runner,
    Umu,
    Dxvk,
    Vkd3d,
    Nvapi,
    LatencyFlex,
}

/// How a bottle's files are kept.
#[derive(Clone, Copy, Debug, PartialEq, Eq, Structural)]
pub enum Storage {
    Standard,
    Virgo,
}

/// What an addon needs besides itself.
#[derive(Debug)]
pub enum Requirement {
    Name(String),
    Slot(Slot),
    Id(u128),
}

/// An addon that takes a slot.
#[derive(Debug)]
pub struct Component {
    pub id: u128,
    pub name: String,
    pub version: String,
    pub requirements: Vec<Requirement>,
    pub slot: Slot,
}

/// An addon that takes no slot.
#[derive(Debug)]
pub struct Dependency {
    pub id: u128,
    pub name: String,
    pub version: String,
    pub requirements: Vec<Requirement>,
}

/// A program that a bottle can run.
#[derive(Debug)]
pub struct Program {
    pub id: u128,
    pub name: String,
    pub executable: String,
    pub args: Vec<String>,
    pub working_directory: Option<String>,
    pub new_console: bool,
}

/// How gamescope scales a game.
#[derive(Clone, Copy, Debug, PartialEq, Eq, Structural)]
pub enum GamescopeScaler {
    Auto,
    Integer,
    Fit,
    Fill,
    Stretch,
}

/// How gamescope filters a game.
#[derive(Clone, Copy, Debug, PartialEq, Eq, Structural)]
pub enum GamescopeFilter {
    Linear,
    Nearest,
    Fsr,
    Nis,
    Pixel,
}

/// The settings of gamescope.
#[derive(Clone, Copy, Debug, PartialEq, Eq)]
pub struct GamescopeConfig {
    pub enabled: bool,
    pub game_width: Option<u32>,
    pub game_height: Option<u32>,
    pub output_width: Option<u32>,
    pub output_height: Option<u32>,
    pub frame_rate: Option<u32>,
    pub unfocused_frame_rate: Option<u32>,
    pub scaler: Option<GamescopeScaler>,
    pub filter: Option<GamescopeFilter>,
    pub sharpness: Option<u8>,
    pub borderless: bool,
    pub fullscreen: bool,
}

/// The settings of MangoHud.
#[derive(Clone, Copy, Debug, PartialEq, Eq)]
pub struct MangoHudConfig {
    pub enabled: bool,
}

/// A bottle: each component stands behind the name of its slot, each variable of the
/// environment behind its own.
#[derive(Debug)]
pub struct BottleState {
    pub id: u128,
    pub name: String,
    pub storage: Storage,
    pub programs: Vec<Program>,
    pub components: Vec<(String, Component)>,
    pub dependencies: Vec<Dependency>,
    pub environment: Vec<(String, String)>,
    pub gamescope: GamescopeConfig,
    pub mangohud: MangoHudConfig,
}

/// What a long operation is at. Downloads and verifications are of a file.
#[derive(Debug)]
pub enum Stage {
    Preparing,
    Stopping,
    Downloading(String),
    Verifying(String),
    Extracting,
    CreatingPrefix,
    Checkpointing,
    Restoring,
    Rebuilding,
    Configuring,
    Removing,
    Committing,
}

/// How much of something has been transferred.
#[derive(Clone, Copy, Debug, PartialEq, Eq)]
pub struct Transfer {
    pub current: u64,
    pub total: Option<u64>,
}

/// How far a long operation has come.
#[derive(Debug)]
pub struct Progress {
    pub stage: Stage,
    pub transfer: Option<Transfer>,
}

/// A moment: seconds since the epoch, and nanoseconds.
#[derive(Clone, Copy, Debug, PartialEq, Eq)]
pub struct Timestamp {
    pub seconds: i64,
    pub nanos: i32,
}

/// A snapshot that was taken of a bottle, or found to be there already.
#[derive(Debug)]
pub struct Snapshot {
    pub repository_path: String,
    pub state_id: String,
    pub created_at: Option<Timestamp>,
    pub file_count: u64,
    pub message: String,
    pub created: bool,
}

/// A snapshot in a list.
#[derive(Debug)]
pub struct SnapshotSummary {
    pub repository_path: String,
    pub state_id: String,
    pub created_at: Option<Timestamp>,
    pub message: String,
    pub file_count: u64,
}

} // verus!
