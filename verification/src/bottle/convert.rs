//! From the core library's view of a bottle to the messages of the protocol, and back.

use vstd::prelude::*;
use crate::bottle::message;
use crate::bottle::model;
use crate::ids::{denotes, fresh_id, hyphenated, id_text, is_version_4, parse_id};
use crate::status::{AddonError, BottleError, Code, CoreError, ErrorKind, Status};

verus! {

/// The code that a failure of the core library is answered with.
pub open spec fn failure_code(kind: ErrorKind) -> Code {
    match kind {
        ErrorKind::Bottle(err) => match err {
            BottleError::NotFound | BottleError::Deleted | BottleError::ProgramNotFound => {
                Code::NotFound
            },
            BottleError::ComponentNotInstalled | BottleError::RequiresAddon => {
                Code::FailedPrecondition
            },
            BottleError::Other => Code::Internal,
            _ => Code::InvalidArgument,
        },
        ErrorKind::Addon(AddonError::NotFound) => Code::NotFound,
        ErrorKind::Cancelled => Code::Cancelled,
        _ => Code::Internal,
    }
}

/// Answers a failure of the core library; the status of another service is passed
/// through as it is.
pub fn to_status(err: CoreError) -> (r: Status)
    ensures
        err.answered(failure_code(err.kind), r),
{
    let code: Code = match &err.kind {
        ErrorKind::Bottle(
            BottleError::NotFound | BottleError::Deleted | BottleError::ProgramNotFound,
        ) => Code::NotFound,
        ErrorKind::Bottle(BottleError::ComponentNotInstalled | BottleError::RequiresAddon) => {
            Code::FailedPrecondition
        },
        ErrorKind::Bottle(
            BottleError::InvalidProgram
            | BottleError::InvalidEnvironmentName
            | BottleError::InvalidEnvironmentValue
            | BottleError::InvalidDllName
            | BottleError::DllOverrideModeRequired
            | BottleError::InvalidComponentSlot
            | BottleError::IdMismatch,
        ) => Code::InvalidArgument,
        ErrorKind::Addon(AddonError::NotFound) => Code::NotFound,
        ErrorKind::Cancelled => Code::Cancelled,
        _ => Code::Internal,
    };
    err.answer(code)
}

/// The message of a slot.
pub open spec fn slot_message(slot: model::Slot) -> message::Slot {
    match slot {
        model::Slot::WineBridge => message::Slot::Winebridge,
        model::Slot::Runner => message::Slot::Runner,
        model::Slot::Umu => message::Slot::Umu,
        model::Slot::Dxvk => message::Slot::Dxvk,
        model::Slot::Vkd3d => message::Slot::Vkd3d,
        model::Slot::Nvapi => message::Slot::Nvapi,
        model::Slot::LatencyFlex => message::Slot::LatencyFlex,
    }
}

/// The message of a slot.
pub fn slot_to_proto(slot: model::Slot) -> (r: message::Slot)
    ensures
        r == slot_message(slot),
{
    match slot {
        model::Slot::WineBridge => message::Slot::Winebridge,
        model::Slot::Runner => message::Slot::Runner,
        model::Slot::Umu => message::Slot::Umu,
        model::Slot::Dxvk => message::Slot::Dxvk,
        model::Slot::Vkd3d => message::Slot::Vkd3d,
        model::Slot::Nvapi => message::Slot::Nvapi,
        model::Slot::LatencyFlex => message::Slot::LatencyFlex,
    }
}

/// The slot of a message; one that is unspecified or not recognized is refused.
pub fn slot_from_proto(slot: message::Slot) -> (r: Result<model::Slot, Status>)
    ensures
        match r {
            Ok(known) => slot == slot_message(known),
            Err(status) => (slot == message::Slot::Unspecified || slot is Unrecognized)
                && status.says(Code::InvalidArgument, "slot is required"@),
        },
{
    match slot {
        message::Slot::Winebridge => Ok(model::Slot::WineBridge),
        message::Slot::Runner => Ok(model::Slot::Runner),
        message::Slot::Umu => Ok(model::Slot::Umu),
        message::Slot::Dxvk => Ok(model::Slot::Dxvk),
        message::Slot::Vkd3d => Ok(model::Slot::Vkd3d),
        message::Slot::Nvapi => Ok(model::Slot::Nvapi),
        message::Slot::LatencyFlex => Ok(model::Slot::LatencyFlex),
        message::Slot::Unspecified | message::Slot::Unrecognized(_) => Err(
            Status::with(Code::InvalidArgument, "slot is required"),
        ),
    }
}

/// The message of a kind of storage.
pub open spec fn storage_message(storage: model::Storage) -> message::Storage {
    match storage {
        model::Storage::Standard => message::Storage::Standard,
        model::Storage::Virgo => message::Storage::Virgo,
    }
}

/// The message of a kind of storage.
pub fn storage_to_proto(storage: model::Storage) -> (r: message::Storage)
    ensures
        r == storage_message(storage),
{
    match storage {
        model::Storage::Standard => message::Storage::Standard,
        model::Storage::Virgo => message::Storage::Virgo,
    }
}

/// The kind of storage of a message; one that is unspecified or not recognized is
/// refused.
pub fn storage_from_proto(storage: message::Storage) -> (r: Result<model::Storage, Status>)
    ensures
        match r {
            Ok(known) => storage == storage_message(known),
            Err(status) => (storage == message::Storage::Unspecified || storage is Unrecognized)
                && status.says(Code::InvalidArgument, "storage is required"@),
        },
{
    match storage {
        message::Storage::Standard => Ok(model::Storage::Standard),
        message::Storage::Virgo => Ok(model::Storage::Virgo),
        message::Storage::Unspecified | message::Storage::Unrecognized(_) => Err(
            Status::with(Code::InvalidArgument, "storage is required"),
        ),
    }
}

impl message::Requirement {
    /// This is the message of a requirement.
    pub open spec fn shows(self, requirement: model::Requirement) -> bool {
        match (self.kind, requirement) {
            (Some(message::RequirementKind::Name(shown)), model::Requirement::Name(name)) => shown@
                == name@,
            (Some(message::RequirementKind::Slot(shown)), model::Requirement::Slot(slot)) => shown
                == slot_message(slot),
            (Some(message::RequirementKind::Id(shown)), model::Requirement::Id(id)) => shown@
                == hyphenated(id),
            _ => false,
        }
    }
}

/// The message of a requirement.
pub fn requirement_to_proto(requirement: &model::Requirement) -> (r: message::Requirement)
    ensures
        r.shows(*requirement),
{
    let kind = match requirement {
        model::Requirement::Name(name) => message::RequirementKind::Name(name.clone()),
        model::Requirement::Slot(slot) => message::RequirementKind::Slot(slot_to_proto(*slot)),
        model::Requirement::Id(id) => message::RequirementKind::Id(id_text(*id)),
    };
    message::Requirement { kind: Some(kind) }
}

/// The messages of some requirements, in order.
pub open spec fn requirements_shown(
    shown: Seq<message::Requirement>,
    requirements: Seq<model::Requirement>,
) -> bool {
    shown.len() == requirements.len() && forall|i: int|
        0 <= i < shown.len() ==> (#[trigger] shown[i]).shows(requirements[i])
}

fn requirements_to_proto(requirements: &Vec<model::Requirement>) -> (r: Vec<message::Requirement>)
    ensures
        requirements_shown(r@, requirements@),
{
    let mut shown: Vec<message::Requirement> = Vec::new();
    let mut i: usize = 0;
    while i < requirements.len()
        invariant
            i <= requirements@.len(),
            requirements_shown(shown@, requirements@.take(i as int)),
        decreases requirements@.len() - i,
    {
        shown.push(requirement_to_proto(&requirements[i]));
        i += 1;
    }
    assert(requirements@.take(i as int) =~= requirements@);
    shown
}

impl message::Component {
    /// This is the message of a component.
    pub open spec fn shows(self, component: model::Component) -> bool {
        &&& self.id@ == hyphenated(component.id)
        &&& self.name@ == component.name@
        &&& self.version@ == component.version@
        &&& requirements_shown(self.requirements@, component.requirements@)
        &&& self.slot == slot_message(component.slot)
    }
}

/// The message of a component.
pub fn component_to_proto(component: &model::Component) -> (r: message::Component)
    ensures
        r.shows(*component),
{
    message::Component {
        id: id_text(component.id),
        name: component.name.clone(),
        version: component.version.clone(),
        requirements: requirements_to_proto(&component.requirements),
        slot: slot_to_proto(component.slot),
    }
}

impl message::Dependency {
    /// This is the message of a dependency.
    pub open spec fn shows(self, dependency: model::Dependency) -> bool {
        &&& self.id@ == hyphenated(dependency.id)
        &&& self.name@ == dependency.name@
        &&& self.version@ == dependency.version@
        &&& requirements_shown(self.requirements@, dependency.requirements@)
    }
}

/// The message of a dependency.
pub fn dependency_to_proto(dependency: &model::Dependency) -> (r: message::Dependency)
    ensures
        r.shows(*dependency),
{
    message::Dependency {
        id: id_text(dependency.id),
        name: dependency.name.clone(),
        version: dependency.version.clone(),
        requirements: requirements_to_proto(&dependency.requirements),
    }
}

impl message::Program {
    /// This message holds a program, whatever identifier it gives.
    pub open spec fn shows_but_id(self, program: model::Program) -> bool {
        &&& self.name == program.name
        &&& self.executable == program.executable
        &&& self.args@ == program.args@
        &&& self.working_directory == program.working_directory
        &&& self.new_console == program.new_console
    }

    /// This is the message of a program.
    pub open spec fn shows(self, program: model::Program) -> bool {
        self.id@ == hyphenated(program.id) && self.shows_but_id(program)
    }

    /// This message stands for a program: its text stands for the program's identifier,
    /// and where it stands for none the program has a random one.
    pub open spec fn stands_for(self, program: model::Program) -> bool {
        &&& self.shows_but_id(program)
        &&& denotes(self.id@, program.id) || (is_version_4(program.id) && forall|id: u128|
            !denotes(self.id@, id))
    }
}

fn texts_copied(list: &Vec<String>) -> (r: Vec<String>)
    ensures
        r@ == list@,
{
    let mut copy: Vec<String> = Vec::new();
    let mut i: usize = 0;
    while i < list.len()
        invariant
            i <= list@.len(),
            copy@ == list@.take(i as int),
        decreases list@.len() - i,
    {
        copy.push(list[i].clone());
        assert(list@.take(i + 1) =~= list@.take(i as int).push(list@[i as int]));
        i += 1;
    }
    assert(list@.take(i as int) =~= list@);
    copy
}

/// The message of a program.
pub fn program_to_proto(program: &model::Program) -> (r: message::Program)
    ensures
        r.shows(*program),
{
    message::Program {
        id: id_text(program.id),
        name: program.name.clone(),
        executable: program.executable.clone(),
        args: texts_copied(&program.args),
        working_directory: match &program.working_directory {
            Some(dir) => Some(dir.clone()),
            None => None,
        },
        new_console: program.new_console,
    }
}

/// The program of a message under a given identifier.
pub fn program_with_id(program: message::Program, id: u128) -> (r: model::Program)
    ensures
        program.shows_but_id(r),
        r.id == id,
{
    model::Program {
        id,
        name: program.name,
        executable: program.executable,
        args: program.args,
        working_directory: program.working_directory,
        new_console: program.new_console,
    }
}

/// The program of a message. One whose identifier cannot be read gets a random one.
pub fn program_from_proto(program: message::Program) -> (r: model::Program)
    ensures
        program.stands_for(r),
{
    let id: u128 = match parse_id(program.id.as_str()) {
        Some(id) => id,
        None => fresh_id(),
    };
    program_with_id(program, id)
}

/// The message of a scaler.
pub open spec fn scaler_message(scaler: model::GamescopeScaler) -> message::Scaler {
    match scaler {
        model::GamescopeScaler::Auto => message::Scaler::Auto,
        model::GamescopeScaler::Integer => message::Scaler::Integer,
        model::GamescopeScaler::Fit => message::Scaler::Fit,
        model::GamescopeScaler::Fill => message::Scaler::Fill,
        model::GamescopeScaler::Stretch => message::Scaler::Stretch,
    }
}

/// The message of a scaler.
pub fn scaler_to_proto(scaler: model::GamescopeScaler) -> (r: message::Scaler)
    ensures
        r == scaler_message(scaler),
{
    match scaler {
        model::GamescopeScaler::Auto => message::Scaler::Auto,
        model::GamescopeScaler::Integer => message::Scaler::Integer,
        model::GamescopeScaler::Fit => message::Scaler::Fit,
        model::GamescopeScaler::Fill => message::Scaler::Fill,
        model::GamescopeScaler::Stretch => message::Scaler::Stretch,
    }
}

/// The scaler of a message; none where it is unspecified or not recognized.
pub fn scaler_from_proto(scaler: message::Scaler) -> (r: Option<model::GamescopeScaler>)
    ensures
        match r {
            Some(known) => scaler == scaler_message(known),
            None => scaler == message::Scaler::Unspecified || scaler is Unrecognized,
        },
{
    match scaler {
        message::Scaler::Unspecified | message::Scaler::Unrecognized(_) => None,
        message::Scaler::Auto => Some(model::GamescopeScaler::Auto),
        message::Scaler::Integer => Some(model::GamescopeScaler::Integer),
        message::Scaler::Fit => Some(model::GamescopeScaler::Fit),
        message::Scaler::Fill => Some(model::GamescopeScaler::Fill),
        message::Scaler::Stretch => Some(model::GamescopeScaler::Stretch),
    }
}

/// The message of a filter.
pub open spec fn filter_message(filter: model::GamescopeFilter) -> message::Filter {
    match filter {
        model::GamescopeFilter::Linear => message::Filter::Linear,
        model::GamescopeFilter::Nearest => message::Filter::Nearest,
        model::GamescopeFilter::Fsr => message::Filter::Fsr,
        model::GamescopeFilter::Nis => message::Filter::Nis,
        model::GamescopeFilter::Pixel => message::Filter::Pixel,
    }
}

/// The message of a filter.
pub fn filter_to_proto(filter: model::GamescopeFilter) -> (r: message::Filter)
    ensures
        r == filter_message(filter),
{
    match filter {
        model::GamescopeFilter::Linear => message::Filter::Linear,
        model::GamescopeFilter::Nearest => message::Filter::Nearest,
        model::GamescopeFilter::Fsr => message::Filter::Fsr,
        model::GamescopeFilter::Nis => message::Filter::Nis,
        model::GamescopeFilter::Pixel => message::Filter::Pixel,
    }
}

/// The filter of a message; none where it is unspecified or not recognized.
pub fn filter_from_proto(filter: message::Filter) -> (r: Option<model::GamescopeFilter>)
    ensures
        match r {
            Some(known) => filter == filter_message(known),
            None => filter == message::Filter::Unspecified || filter is Unrecognized,
        },
{
    match filter {
        message::Filter::Unspecified | message::Filter::Unrecognized(_) => None,
        message::Filter::Linear => Some(model::GamescopeFilter::Linear),
        message::Filter::Nearest => Some(model::GamescopeFilter::Nearest),
        message::Filter::Fsr => Some(model::GamescopeFilter::Fsr),
        message::Filter::Nis => Some(model::GamescopeFilter::Nis),
        message::Filter::Pixel => Some(model::GamescopeFilter::Pixel),
    }
}

/// The message of gamescope's settings.
pub open spec fn gamescope_message(config: model::GamescopeConfig) -> message::GamescopeConfig {
    message::GamescopeConfig {
        enabled: config.enabled,
        game_width: config.game_width,
        game_height: config.game_height,
        output_width: config.output_width,
        output_height: config.output_height,
        frame_rate: config.frame_rate,
        unfocused_frame_rate: config.unfocused_frame_rate,
        scaler: match config.scaler {
            Some(scaler) => Some(scaler_message(scaler)),
            None => None,
        },
        filter: match config.filter {
            Some(filter) => Some(filter_message(filter)),
            None => None,
        },
        sharpness: match config.sharpness {
            Some(sharpness) => Some(sharpness as u32),
            None => None,
        },
        borderless: config.borderless,
        fullscreen: config.fullscreen,
    }
}

/// The message of gamescope's settings.
pub fn gamescope_to_proto(config: &model::GamescopeConfig) -> (r: message::GamescopeConfig)
    ensures
        r == gamescope_message(*config),
{
    message::GamescopeConfig {
        enabled: config.enabled,
        game_width: config.game_width,
        game_height: config.game_height,
        output_width: config.output_width,
        output_height: config.output_height,
        frame_rate: config.frame_rate,
        unfocused_frame_rate: config.unfocused_frame_rate,
        scaler: match config.scaler {
            Some(scaler) => Some(scaler_to_proto(scaler)),
            None => None,
        },
        filter: match config.filter {
            Some(filter) => Some(filter_to_proto(filter)),
            None => None,
        },
        sharpness: match config.sharpness {
            Some(sharpness) => Some(sharpness as u32),
            None => None,
        },
        borderless: config.borderless,
        fullscreen: config.fullscreen,
    }
}

impl message::GamescopeConfig {
    /// This message gives some settings: a scaler or filter that says nothing, and a
    /// sharpness that is out of range, count as none.
    pub open spec fn gives(self, config: model::GamescopeConfig) -> bool {
        &&& config.enabled == self.enabled
        &&& config.game_width == self.game_width
        &&& config.game_height == self.game_height
        &&& config.output_width == self.output_width
        &&& config.output_height == self.output_height
        &&& config.frame_rate == self.frame_rate
        &&& config.unfocused_frame_rate == self.unfocused_frame_rate
        &&& match config.scaler {
            Some(scaler) => self.scaler == Some(scaler_message(scaler)),
            None => match self.scaler {
                Some(shown) => shown == message::Scaler::Unspecified || shown is Unrecognized,
                None => true,
            },
        }
        &&& match config.filter {
            Some(filter) => self.filter == Some(filter_message(filter)),
            None => match self.filter {
                Some(shown) => shown == message::Filter::Unspecified || shown is Unrecognized,
                None => true,
            },
        }
        &&& match config.sharpness {
            Some(sharpness) => self.sharpness == Some(sharpness as u32),
            None => match self.sharpness {
                Some(shown) => shown > u8::MAX,
                None => true,
            },
        }
        &&& config.borderless == self.borderless
        &&& config.fullscreen == self.fullscreen
    }
}

/// Gamescope's settings of a message.
pub fn gamescope_from_proto(config: message::GamescopeConfig) -> (r: model::GamescopeConfig)
    ensures
        config.gives(r),
{
    model::GamescopeConfig {
        enabled: config.enabled,
        game_width: config.game_width,
        game_height: config.game_height,
        output_width: config.output_width,
        output_height: config.output_height,
        frame_rate: config.frame_rate,
        unfocused_frame_rate: config.unfocused_frame_rate,
        scaler: match config.scaler {
            Some(scaler) => scaler_from_proto(scaler),
            None => None,
        },
        filter: match config.filter {
            Some(filter) => filter_from_proto(filter),
            None => None,
        },
        sharpness: match config.sharpness {
            Some(sharpness) => if sharpness <= 255 {
                Some(sharpness as u8)
            } else {
                None
            },
            None => None,
        },
        borderless: config.borderless,
        fullscreen: config.fullscreen,
    }
}

/// The message of MangoHud's settings.
pub fn mangohud_to_proto(config: &model::MangoHudConfig) -> (r: message::MangoHudConfig)
    ensures
        r.enabled == config.enabled,
{
    message::MangoHudConfig { enabled: config.enabled }
}

/// MangoHud's settings of a message.
pub fn mangohud_from_proto(config: message::MangoHudConfig) -> (r: model::MangoHudConfig)
    ensures
        r.enabled == config.enabled,
{
    model::MangoHudConfig { enabled: config.enabled }
}

/// The messages of some programs, in order.
pub open spec fn programs_shown(
    shown: Seq<message::Program>,
    programs: Seq<model::Program>,
) -> bool {
    shown.len() == programs.len() && forall|i: int|
        0 <= i < shown.len() ==> (#[trigger] shown[i]).shows(programs[i])
}

/// The messages of some components behind the names of their slots, in order.
pub open spec fn components_shown(
    shown: Seq<(String, message::Component)>,
    components: Seq<(String, model::Component)>,
) -> bool {
    shown.len() == components.len() && forall|i: int|
        0 <= i < shown.len() ==> (#[trigger] shown[i]).0 == components[i].0 && shown[i].1.shows(
            components[i].1,
        )
}

/// The messages of some dependencies, in order.
pub open spec fn dependencies_shown(
    shown: Seq<message::Dependency>,
    dependencies: Seq<model::Dependency>,
) -> bool {
    shown.len() == dependencies.len() && forall|i: int|
        0 <= i < shown.len() ==> (#[trigger] shown[i]).shows(dependencies[i])
}

impl message::BottleState {
    /// This is the message of a bottle.
    pub open spec fn shows(self, state: model::BottleState) -> bool {
        &&& self.id@ == hyphenated(state.id)
        &&& self.name@ == state.name@
        &&& self.storage == storage_message(state.storage)
        &&& programs_shown(self.programs@, state.programs@)
        &&& components_shown(self.components@, state.components@)
        &&& dependencies_shown(self.dependencies@, state.dependencies@)
        &&& self.environment@ == state.environment@
        &&& self.gamescope == Some(gamescope_message(state.gamescope))
        &&& self.mangohud == Some(message::MangoHudConfig { enabled: state.mangohud.enabled })
    }
}

fn programs_to_proto(programs: &Vec<model::Program>) -> (r: Vec<message::Program>)
    ensures
        programs_shown(r@, programs@),
{
    let mut shown: Vec<message::Program> = Vec::new();
    let mut i: usize = 0;
    while i < programs.len()
        invariant
            i <= programs@.len(),
            programs_shown(shown@, programs@.take(i as int)),
        decreases programs@.len() - i,
    {
        shown.push(program_to_proto(&programs[i]));
        i += 1;
    }
    assert(programs@.take(i as int) =~= programs@);
    shown
}

fn components_to_proto(components: &Vec<(String, model::Component)>) -> (r: Vec<
    (String, message::Component),
>)
    ensures
        components_shown(r@, components@),
{
    let mut shown: Vec<(String, message::Component)> = Vec::new();
    let mut i: usize = 0;
    while i < components.len()
        invariant
            i <= components@.len(),
            components_shown(shown@, components@.take(i as int)),
        decreases components@.len() - i,
    {
        shown.push((components[i].0.clone(), component_to_proto(&components[i].1)));
        i += 1;
    }
    assert(components@.take(i as int) =~= components@);
    shown
}

fn dependencies_to_proto(dependencies: &Vec<model::Dependency>) -> (r: Vec<message::Dependency>)
    ensures
        dependencies_shown(r@, dependencies@),
{
    let mut shown: Vec<message::Dependency> = Vec::new();
    let mut i: usize = 0;
    while i < dependencies.len()
        invariant
            i <= dependencies@.len(),
            dependencies_shown(shown@, dependencies@.take(i as int)),
        decreases dependencies@.len() - i,
    {
        shown.push(dependency_to_proto(&dependencies[i]));
        i += 1;
    }
    assert(dependencies@.take(i as int) =~= dependencies@);
    shown
}

fn environment_copied(environment: &Vec<(String, String)>) -> (r: Vec<(String, String)>)
    ensures
        r@ == environment@,
{
    let mut copy: Vec<(String, String)> = Vec::new();
    let mut i: usize = 0;
    while i < environment.len()
        invariant
            i <= environment@.len(),
            copy@ == environment@.take(i as int),
        decreases environment@.len() - i,
    {
        copy.push((environment[i].0.clone(), environment[i].1.clone()));
        assert(environment@.take(i + 1) =~= environment@.take(i as int).push(
            environment@[i as int],
        ));
        i += 1;
    }
    assert(environment@.take(i as int) =~= environment@);
    copy
}

/// The message of a bottle.
pub fn bottle_state_to_proto(state: &model::BottleState) -> (r: message::BottleState)
    ensures
        r.shows(*state),
{
    message::BottleState {
        id: id_text(state.id),
        name: state.name.clone(),
        storage: storage_to_proto(state.storage),
        programs: programs_to_proto(&state.programs),
        components: components_to_proto(&state.components),
        dependencies: dependencies_to_proto(&state.dependencies),
        environment: environment_copied(&state.environment),
        gamescope: Some(gamescope_to_proto(&state.gamescope)),
        mangohud: Some(mangohud_to_proto(&state.mangohud)),
    }
}

/// The message of what an operation is at, and the file that it is at it with.
pub open spec fn stage_message(stage: model::Stage) -> (message::Stage, Option<String>) {
    match stage {
        model::Stage::Preparing => (message::Stage::Preparing, None),
        model::Stage::Stopping => (message::Stage::Stopping, None),
        model::Stage::Downloading(file) => (message::Stage::Downloading, Some(file)),
        model::Stage::Verifying(file) => (message::Stage::Verifying, Some(file)),
        model::Stage::Extracting => (message::Stage::Extracting, None),
        model::Stage::CreatingPrefix => (message::Stage::CreatingPrefix, None),
        model::Stage::Checkpointing => (message::Stage::Checkpointing, None),
        model::Stage::Restoring => (message::Stage::Restoring, None),
        model::Stage::Rebuilding => (message::Stage::Rebuilding, None),
        model::Stage::Configuring => (message::Stage::Configuring, None),
        model::Stage::Removing => (message::Stage::Removing, None),
        model::Stage::Committing => (message::Stage::Committing, None),
    }
}

/// The message of how far an operation has come.
pub open spec fn progress_message(progress: model::Progress) -> message::OperationProgress {
    message::OperationProgress {
        stage: stage_message(progress.stage).0,
        file: stage_message(progress.stage).1,
        transfer: match progress.transfer {
            Some(transfer) => Some(
                message::Transfer { current: transfer.current, total: transfer.total },
            ),
            None => None,
        },
    }
}

/// The message of how far an operation has come.
pub fn convert_progress(progress: model::Progress) -> (r: message::OperationProgress)
    ensures
        r == progress_message(progress),
{
    let (stage, file) = match progress.stage {
        model::Stage::Preparing => (message::Stage::Preparing, None),
        model::Stage::Stopping => (message::Stage::Stopping, None),
        model::Stage::Downloading(file) => (message::Stage::Downloading, Some(file)),
        model::Stage::Verifying(file) => (message::Stage::Verifying, Some(file)),
        model::Stage::Extracting => (message::Stage::Extracting, None),
        model::Stage::CreatingPrefix => (message::Stage::CreatingPrefix, None),
        model::Stage::Checkpointing => (message::Stage::Checkpointing, None),
        model::Stage::Restoring => (message::Stage::Restoring, None),
        model::Stage::Rebuilding => (message::Stage::Rebuilding, None),
        model::Stage::Configuring => (message::Stage::Configuring, None),
        model::Stage::Removing => (message::Stage::Removing, None),
        model::Stage::Committing => (message::Stage::Committing, None),
    };
    message::OperationProgress {
        stage,
        file,
        transfer: match progress.transfer {
            Some(transfer) => Some(
                message::Transfer { current: transfer.current, total: transfer.total },
            ),
            None => None,
        },
    }
}

/// The message of a moment.
pub open spec fn timestamp_message(at: Option<model::Timestamp>) -> Option<message::Timestamp> {
    match at {
        Some(ts) => Some(message::Timestamp { seconds: ts.seconds, nanos: ts.nanos }),
        None => None,
    }
}

fn timestamp_to_proto(at: Option<model::Timestamp>) -> (r: Option<message::Timestamp>)
    ensures
        r == timestamp_message(at),
{
    match at {
        Some(ts) => Some(message::Timestamp { seconds: ts.seconds, nanos: ts.nanos }),
        None => None,
    }
}

/// The message of a snapshot.
pub open spec fn snapshot_message(snapshot: model::Snapshot) -> message::Snapshot {
    message::Snapshot {
        repository_path: snapshot.repository_path,
        state_id: snapshot.state_id,
        created_at: timestamp_message(snapshot.created_at),
        file_count: snapshot.file_count,
        message: snapshot.message,
        created: snapshot.created,
    }
}

/// The message of a snapshot.
pub fn snapshot_to_proto(snapshot: model::Snapshot) -> (r: message::Snapshot)
    ensures
        r == snapshot_message(snapshot),
{
    message::Snapshot {
        repository_path: snapshot.repository_path,
        state_id: snapshot.state_id,
        created_at: timestamp_to_proto(snapshot.created_at),
        file_count: snapshot.file_count,
        message: snapshot.message,
        created: snapshot.created,
    }
}

/// The message of a snapshot in a list.
pub open spec fn summary_message(summary: model::SnapshotSummary) -> message::SnapshotSummary {
    message::SnapshotSummary {
        repository_path: summary.repository_path,
        state_id: summary.state_id,
        created_at: timestamp_message(summary.created_at),
        message: summary.message,
        file_count: summary.file_count,
    }
}

/// The messages of the snapshots of a bottle, in order.
pub fn snapshots_to_proto(summaries: Vec<model::SnapshotSummary>) -> (r: Vec<
    message::SnapshotSummary,
>)
    ensures
        r@ == summaries@.map_values(|s: model::SnapshotSummary| summary_message(s)),
{
    let ghost wanted = summaries@.map_values(|s: model::SnapshotSummary| summary_message(s));
    let mut shown: Vec<message::SnapshotSummary> = Vec::new();
    for summary in it: summaries
        invariant
            it.seq() == summaries@,
            wanted == summaries@.map_values(|s: model::SnapshotSummary| summary_message(s)),
            shown@ == wanted.take(it.index() as int),
    {
        shown.push(
            message::SnapshotSummary {
                repository_path: summary.repository_path,
                state_id: summary.state_id,
                created_at: timestamp_to_proto(summary.created_at),
                message: summary.message,
                file_count: summary.file_count,
            },
        );
        assert(wanted.take(it.index() + 1) =~= wanted.take(it.index() as int).push(
            wanted[it.index() as int],
        ));
    }
    shown
}

/// The messages of the bottles whose state could be read, in order.
pub open spec fn bottles_shown(
    shown: Seq<message::BottleState>,
    states: Seq<Option<model::BottleState>>,
) -> bool
    decreases states.len(),
{
    if states.len() == 0 {
        shown.len() == 0
    } else {
        match states.last() {
            Some(state) => shown.len() > 0 && shown.last().shows(state) && bottles_shown(
                shown.drop_last(),
                states.drop_last(),
            ),
            None => bottles_shown(shown, states.drop_last()),
        }
    }
}

/// The messages of some bottles. One whose state could not be read is left out.
pub fn bottles_to_proto(states: &[Option<model::BottleState>]) -> (r: Vec<message::BottleState>)
    ensures
        bottles_shown(r@, states@),
{
    let mut shown: Vec<message::BottleState> = Vec::new();
    let mut i: usize = 0;
    while i < states.len()
        invariant
            i <= states@.len(),
            bottles_shown(shown@, states@.take(i as int)),
        decreases states@.len() - i,
    {
        assert(states@.take(i + 1).drop_last() =~= states@.take(i as int));
        match &states[i] {
            Some(state) => {
                let ghost before = shown@;
                shown.push(bottle_state_to_proto(state));
                assert(shown@.drop_last() =~= before);
            },
            None => {},
        }
        i += 1;
    }
    assert(states@.take(i as int) =~= states@);
    shown
}

/// The message of a slot is not refused, and is read back as that slot.
pub proof fn slot_reads_back(slot: model::Slot, read: model::Slot)
    ensures
        slot_message(slot) != message::Slot::Unspecified,
        !(slot_message(slot) is Unrecognized),
        slot_message(slot) == slot_message(read) <==> read == slot,
{
}

/// The message of a kind of storage is not refused, and is read back as that kind.
pub proof fn storage_reads_back(storage: model::Storage, read: model::Storage)
    ensures
        storage_message(storage) != message::Storage::Unspecified,
        !(storage_message(storage) is Unrecognized),
        storage_message(storage) == storage_message(read) <==> read == storage,
{
}

/// Gamescope's settings read back from their message are the same settings.
pub proof fn gamescope_reads_back(config: model::GamescopeConfig, read: model::GamescopeConfig)
    requires
        gamescope_message(config).gives(read),
    ensures
        read == config,
{
}

/// A program read back from its message is the same program, under the same identifier.
pub proof fn program_reads_back(
    program: model::Program,
    shown: message::Program,
    read: model::Program,
)
    requires
        shown.shows(program),
        shown.stands_for(read),
    ensures
        read.id == program.id,
        read.name == program.name,
        read.executable == program.executable,
        read.args@ == program.args@,
        read.working_directory == program.working_directory,
        read.new_console == program.new_console,
{
    crate::ids::written_id_reads_back(program.id, program.id);
    crate::ids::written_id_reads_back(program.id, read.id);
}

/// Where no two components stand behind one slot's name, no two messages of them do:
/// sent as a map, none is lost.
pub proof fn component_names_stay_apart(shown: message::BottleState, state: model::BottleState)
    requires
        shown.shows(state),
        forall|i: int, j: int|
            0 <= i < j < state.components@.len() ==> state.components@[i].0@
                != state.components@[j].0@,
    ensures
        shown.components@.len() == state.components@.len(),
        forall|i: int, j: int|
            0 <= i < j < shown.components@.len() ==> shown.components@[i].0@
                != shown.components@[j].0@,
{
    assert(forall|i: int|
        0 <= i < shown.components@.len() ==> shown.components@[i].0 == state.components@[i].0);
}

/// Each slot has the message of its own name, and no message of another.
pub proof fn slot_keeps_its_name(slot: model::Slot)
    ensures
        slot == model::Slot::WineBridge <==> slot_message(slot) == message::Slot::Winebridge,
        slot == model::Slot::Runner <==> slot_message(slot) == message::Slot::Runner,
        slot == model::Slot::Umu <==> slot_message(slot) == message::Slot::Umu,
        slot == model::Slot::Dxvk <==> slot_message(slot) == message::Slot::Dxvk,
        slot == model::Slot::Vkd3d <==> slot_message(slot) == message::Slot::Vkd3d,
        slot == model::Slot::Nvapi <==> slot_message(slot) == message::Slot::Nvapi,
        slot == model::Slot::LatencyFlex <==> slot_message(slot) == message::Slot::LatencyFlex,
{
}

/// Each kind of storage has the message of its own name, and no message of another.
pub proof fn storage_keeps_its_name(storage: model::Storage)
    ensures
        storage == model::Storage::Standard <==> storage_message(storage)
            == message::Storage::Standard,
        storage == model::Storage::Virgo <==> storage_message(storage) == message::Storage::Virgo,
{
}

/// Each scaler has the message of its own name, and no message of another.
pub proof fn scaler_keeps_its_name(scaler: model::GamescopeScaler)
    ensures
        scaler == model::GamescopeScaler::Auto <==> scaler_message(scaler)
            == message::Scaler::Auto,
        scaler == model::GamescopeScaler::Integer <==> scaler_message(scaler)
            == message::Scaler::Integer,
        scaler == model::GamescopeScaler::Fit <==> scaler_message(scaler) == message::Scaler::Fit,
        scaler == model::GamescopeScaler::Fill <==> scaler_message(scaler)
            == message::Scaler::Fill,
        scaler == model::GamescopeScaler::Stretch <==> scaler_message(scaler)
            == message::Scaler::Stretch,
{
}

/// Each filter has the message of its own name, and no message of another.
pub proof fn filter_keeps_its_name(filter: model::GamescopeFilter)
    ensures
        filter == model::GamescopeFilter::Linear <==> filter_message(filter)
            == message::Filter::Linear,
        filter == model::GamescopeFilter::Nearest <==> filter_message(filter)
            == message::Filter::Nearest,
        filter == model::GamescopeFilter::Fsr <==> filter_message(filter) == message::Filter::Fsr,
        filter == model::GamescopeFilter::Nis <==> filter_message(filter) == message::Filter::Nis,
        filter == model::GamescopeFilter::Pixel <==> filter_message(filter)
            == message::Filter::Pixel,
{
}

/// The message of gamescope's settings has each setting in the field of its own name.
pub proof fn gamescope_message_keeps_each_setting(config: model::GamescopeConfig)
    ensures
        ({
            let shown = gamescope_message(config);
            &&& shown.enabled == config.enabled
            &&& shown.game_width == config.game_width
            &&& shown.game_height == config.game_height
            &&& shown.output_width == config.output_width
            &&& shown.output_height == config.output_height
            &&& shown.frame_rate == config.frame_rate
            &&& shown.unfocused_frame_rate == config.unfocused_frame_rate
            &&& shown.borderless == config.borderless
            &&& shown.fullscreen == config.fullscreen
            &&& shown.scaler is Some <==> config.scaler is Some
            &&& config.scaler matches Some(scaler) ==> shown.scaler == Some(scaler_message(scaler))
            &&& shown.filter is Some <==> config.filter is Some
            &&& config.filter matches Some(filter) ==> shown.filter == Some(filter_message(filter))
            &&& shown.sharpness is Some <==> config.sharpness is Some
            &&& config.sharpness matches Some(n) ==> (shown.sharpness matches Some(m) && m == n)
        }),
{
}

/// The settings that a message gives have each value of the message under the name that
/// it has there, whoever wrote the message. A sharpness above the largest byte, and a
/// scaler or filter that names none, are the only values that are lost.
pub proof fn gamescope_reading_keeps_each_setting(
    config: message::GamescopeConfig,
    read: model::GamescopeConfig,
)
    requires
        config.gives(read),
    ensures
        read.enabled == config.enabled,
        read.game_width == config.game_width,
        read.game_height == config.game_height,
        read.output_width == config.output_width,
        read.output_height == config.output_height,
        read.frame_rate == config.frame_rate,
        read.unfocused_frame_rate == config.unfocused_frame_rate,
        read.borderless == config.borderless,
        read.fullscreen == config.fullscreen,
        match config.sharpness {
            Some(n) => if n <= 255 {
                read.sharpness matches Some(m) && m == n
            } else {
                read.sharpness is None
            },
            None => read.sharpness is None,
        },
        read.scaler is Some <==> (config.scaler matches Some(shown) && shown
            != message::Scaler::Unspecified && !(shown is Unrecognized)),
        read.scaler matches Some(scaler) ==> config.scaler == Some(scaler_message(scaler)),
        read.filter is Some <==> (config.filter matches Some(shown) && shown
            != message::Filter::Unspecified && !(shown is Unrecognized)),
        read.filter matches Some(filter) ==> config.filter == Some(filter_message(filter)),
{
}

/// What a failure of the core library is answered with, code by code: nothing else is
/// not found, cancelled, a failed precondition or an invalid argument.
pub proof fn failure_codes_are_apart(kind: ErrorKind)
    ensures
        failure_code(kind) == Code::NotFound <==> (kind == ErrorKind::Bottle(BottleError::NotFound)
            || kind == ErrorKind::Bottle(BottleError::Deleted) || kind == ErrorKind::Bottle(
            BottleError::ProgramNotFound,
        ) || kind == ErrorKind::Addon(AddonError::NotFound)),
        failure_code(kind) == Code::FailedPrecondition <==> (kind == ErrorKind::Bottle(
            BottleError::ComponentNotInstalled,
        ) || kind == ErrorKind::Bottle(BottleError::RequiresAddon)),
        failure_code(kind) == Code::Cancelled <==> kind == ErrorKind::Cancelled,
        failure_code(kind) == Code::InvalidArgument <==> (kind == ErrorKind::Bottle(
            BottleError::InvalidProgram,
        ) || kind == ErrorKind::Bottle(BottleError::InvalidEnvironmentName) || kind
            == ErrorKind::Bottle(BottleError::InvalidEnvironmentValue) || kind
            == ErrorKind::Bottle(BottleError::InvalidDllName) || kind == ErrorKind::Bottle(
            BottleError::DllOverrideModeRequired,
        ) || kind == ErrorKind::Bottle(BottleError::InvalidComponentSlot) || kind
            == ErrorKind::Bottle(BottleError::IdMismatch)),
        failure_code(kind) == Code::Internal <==> (kind is Status || kind is Profile || kind
            == ErrorKind::Other || kind == ErrorKind::Bottle(BottleError::Other) || kind
            == ErrorKind::Addon(AddonError::Other)),
{
}

/// A message that shows a requirement says what it is: a name with its characters, a
/// slot of the same name, or the digits of an identifier, and never another kind.
pub proof fn requirement_keeps_its_kind(
    shown: message::Requirement,
    requirement: model::Requirement,
)
    requires
        shown.shows(requirement),
    ensures
        shown.kind matches Some(kind) && match kind {
            message::RequirementKind::Name(name) => requirement matches model::Requirement::Name(
                own,
            ) && own@ == name@,
            message::RequirementKind::Slot(slot) => requirement matches model::Requirement::Slot(
                own,
            ) && slot_message(own) == slot,
            message::RequirementKind::Id(text) => requirement matches model::Requirement::Id(own)
                && denotes(text@, own),
        },
{
    if let model::Requirement::Id(id) = requirement {
        crate::ids::written_id_reads_back(id, id);
    }
}

/// A message that shows a component gives its identifier, its name, its version, its
/// slot and as many requirements, each under its own name.
pub proof fn component_keeps_each_field(shown: message::Component, component: model::Component)
    requires
        shown.shows(component),
    ensures
        denotes(shown.id@, component.id),
        shown.name@ == component.name@,
        shown.version@ == component.version@,
        shown.slot == slot_message(component.slot),
        shown.requirements@.len() == component.requirements@.len(),
        forall|i: int|
            0 <= i < component.requirements@.len() ==> (#[trigger] shown.requirements@[i]).shows(
                component.requirements@[i],
            ),
{
    crate::ids::written_id_reads_back(component.id, component.id);
}

/// A message that shows a dependency gives its identifier, its name, its version and as
/// many requirements, each under its own name.
pub proof fn dependency_keeps_each_field(
    shown: message::Dependency,
    dependency: model::Dependency,
)
    requires
        shown.shows(dependency),
    ensures
        denotes(shown.id@, dependency.id),
        shown.name@ == dependency.name@,
        shown.version@ == dependency.version@,
        shown.requirements@.len() == dependency.requirements@.len(),
        forall|i: int|
            0 <= i < dependency.requirements@.len() ==> (#[trigger] shown.requirements@[i]).shows(
                dependency.requirements@[i],
            ),
{
    crate::ids::written_id_reads_back(dependency.id, dependency.id);
}

/// A message that shows a program gives each of its fields under its own name.
pub proof fn program_keeps_each_field(shown: message::Program, program: model::Program)
    requires
        shown.shows(program),
    ensures
        denotes(shown.id@, program.id),
        shown.name == program.name,
        shown.executable == program.executable,
        shown.args@ == program.args@,
        shown.working_directory == program.working_directory,
        shown.new_console == program.new_console,
{
    crate::ids::written_id_reads_back(program.id, program.id);
}

/// A program that a message stands for has each field of the message under its own name,
/// whoever wrote the message. Its identifier is the one that the message gives, and a
/// random one only where the message gives none.
pub proof fn program_reading_keeps_each_field(
    shown: message::Program,
    read: model::Program,
    given: u128,
)
    requires
        shown.stands_for(read),
    ensures
        read.name == shown.name,
        read.executable == shown.executable,
        read.args@ == shown.args@,
        read.working_directory == shown.working_directory,
        read.new_console == shown.new_console,
        denotes(shown.id@, given) ==> read.id == given,
        (forall|id: u128| !denotes(shown.id@, id)) ==> is_version_4(read.id),
{
    if denotes(shown.id@, given) && denotes(shown.id@, read.id) {
        crate::ids::text_denotes_one_id(shown.id@, given, read.id);
    }
}

/// A message that shows a bottle gives its identifier, its name and its storage, each of
/// its programs, components and dependencies in place, its environment as it is, and its
/// settings.
pub proof fn bottle_keeps_each_part(shown: message::BottleState, state: model::BottleState)
    requires
        shown.shows(state),
    ensures
        denotes(shown.id@, state.id),
        shown.name@ == state.name@,
        shown.storage == storage_message(state.storage),
        shown.programs@.len() == state.programs@.len(),
        forall|i: int|
            0 <= i < state.programs@.len() ==> (#[trigger] shown.programs@[i]).shows(
                state.programs@[i],
            ),
        shown.components@.len() == state.components@.len(),
        forall|i: int|
            0 <= i < state.components@.len() ==> (#[trigger] shown.components@[i]).0
                == state.components@[i].0 && shown.components@[i].1.shows(state.components@[i].1),
        shown.dependencies@.len() == state.dependencies@.len(),
        forall|i: int|
            0 <= i < state.dependencies@.len() ==> (#[trigger] shown.dependencies@[i]).shows(
                state.dependencies@[i],
            ),
        shown.environment@ == state.environment@,
        shown.gamescope == Some(gamescope_message(state.gamescope)),
        shown.mangohud matches Some(config) && config.enabled == state.mangohud.enabled,
{
    crate::ids::written_id_reads_back(state.id, state.id);
}

/// The message of how far an operation has come names the stage that it is at, gives the
/// file where it downloads or verifies one and none otherwise, and gives what was
/// transferred.
pub proof fn progress_keeps_its_stage(progress: model::Progress)
    ensures
        ({
            let shown = progress_message(progress);
            &&& progress.stage == model::Stage::Preparing <==> shown.stage
                == message::Stage::Preparing
            &&& progress.stage == model::Stage::Stopping <==> shown.stage
                == message::Stage::Stopping
            &&& progress.stage is Downloading <==> shown.stage == message::Stage::Downloading
            &&& progress.stage is Verifying <==> shown.stage == message::Stage::Verifying
            &&& progress.stage == model::Stage::Extracting <==> shown.stage
                == message::Stage::Extracting
            &&& progress.stage == model::Stage::CreatingPrefix <==> shown.stage
                == message::Stage::CreatingPrefix
            &&& progress.stage == model::Stage::Checkpointing <==> shown.stage
                == message::Stage::Checkpointing
            &&& progress.stage == model::Stage::Restoring <==> shown.stage
                == message::Stage::Restoring
            &&& progress.stage == model::Stage::Rebuilding <==> shown.stage
                == message::Stage::Rebuilding
            &&& progress.stage == model::Stage::Configuring <==> shown.stage
                == message::Stage::Configuring
            &&& progress.stage == model::Stage::Removing <==> shown.stage
                == message::Stage::Removing
            &&& progress.stage == model::Stage::Committing <==> shown.stage
                == message::Stage::Committing
            &&& shown.file is Some <==> (progress.stage is Downloading || progress.stage
                is Verifying)
            &&& progress.stage matches model::Stage::Downloading(file) ==> shown.file == Some(file)
            &&& progress.stage matches model::Stage::Verifying(file) ==> shown.file == Some(file)
            &&& shown.transfer is Some <==> progress.transfer is Some
            &&& progress.transfer matches Some(own) ==> (shown.transfer matches Some(transfer)
                && transfer.current == own.current && transfer.total == own.total)
        }),
{
}

/// The messages of a snapshot, and of one in a list, have each part under its own name.
pub proof fn snapshots_keep_each_field(
    snapshot: model::Snapshot,
    summary: model::SnapshotSummary,
)
    ensures
        ({
            let shown = snapshot_message(snapshot);
            &&& shown.repository_path == snapshot.repository_path
            &&& shown.state_id == snapshot.state_id
            &&& shown.file_count == snapshot.file_count
            &&& shown.message == snapshot.message
            &&& shown.created == snapshot.created
            &&& shown.created_at is Some <==> snapshot.created_at is Some
            &&& snapshot.created_at matches Some(own) ==> (shown.created_at matches Some(at)
                && at.seconds == own.seconds && at.nanos == own.nanos)
        }),
        ({
            let shown = summary_message(summary);
            &&& shown.repository_path == summary.repository_path
            &&& shown.state_id == summary.state_id
            &&& shown.file_count == summary.file_count
            &&& shown.message == summary.message
            &&& shown.created_at is Some <==> summary.created_at is Some
            &&& summary.created_at matches Some(own) ==> (shown.created_at matches Some(at)
                && at.seconds == own.seconds && at.nanos == own.nanos)
        }),
{
}

/// A list of bottles has one message for each bottle whose state could be read, in the
/// order of the bottles, and no other.
pub proof fn every_readable_bottle_is_listed(
    shown: Seq<message::BottleState>,
    states: Seq<Option<model::BottleState>>,
)
    requires
        bottles_shown(shown, states),
    ensures
        ({
            let readable = states.filter(|state: Option<model::BottleState>| state is Some);
            &&& shown.len() == readable.len()
            &&& forall|k: int|
                0 <= k < shown.len() ==> (#[trigger] shown[k]).shows(readable[k]->0)
        }),
    decreases states.len(),
{
    reveal(Seq::filter);
    let is_readable = |state: Option<model::BottleState>| state is Some;
    if states.len() > 0 {
        let before = states.drop_last().filter(is_readable);
        match states.last() {
            Some(state) => {
                every_readable_bottle_is_listed(shown.drop_last(), states.drop_last());
                let readable = states.filter(is_readable);
                assert forall|k: int| 0 <= k < shown.len() implies (#[trigger] shown[k]).shows(
                    readable[k]->0,
                ) by {
                    if k < shown.len() - 1 {
                        assert(shown.drop_last()[k] == shown[k]);
                        assert(readable[k] == before[k]);
                    }
                }
            },
            None => {
                every_readable_bottle_is_listed(shown, states.drop_last());
            },
        }
    }
}

/// A slot of a message is read as the slot of the same name, and refused where it names
/// none.
pub proof fn slot_is_read_by_its_name(slot: message::Slot, r: Result<model::Slot, Status>)
    requires
        call_ensures(slot_from_proto, (slot,), r),
    ensures
        match slot {
            message::Slot::Winebridge => r == Ok::<_, Status>(model::Slot::WineBridge),
            message::Slot::Runner => r == Ok::<_, Status>(model::Slot::Runner),
            message::Slot::Umu => r == Ok::<_, Status>(model::Slot::Umu),
            message::Slot::Dxvk => r == Ok::<_, Status>(model::Slot::Dxvk),
            message::Slot::Vkd3d => r == Ok::<_, Status>(model::Slot::Vkd3d),
            message::Slot::Nvapi => r == Ok::<_, Status>(model::Slot::Nvapi),
            message::Slot::LatencyFlex => r == Ok::<_, Status>(model::Slot::LatencyFlex),
            _ => r matches Err(status) && status.code == Code::InvalidArgument && status.message@
                == "slot is required"@,
        },
{
}

/// A kind of storage of a message is read as the kind of the same name, and refused where
/// it names none.
pub proof fn storage_is_read_by_its_name(
    storage: message::Storage,
    r: Result<model::Storage, Status>,
)
    requires
        call_ensures(storage_from_proto, (storage,), r),
    ensures
        match storage {
            message::Storage::Standard => r == Ok::<_, Status>(model::Storage::Standard),
            message::Storage::Virgo => r == Ok::<_, Status>(model::Storage::Virgo),
            _ => r matches Err(status) && status.code == Code::InvalidArgument && status.message@
                == "storage is required"@,
        },
{
}

/// A scaler and a filter of a message are read as those of the same name, and as none
/// where they name none.
pub proof fn scaler_and_filter_are_read_by_their_names(
    scaler: message::Scaler,
    filter: message::Filter,
    s: Option<model::GamescopeScaler>,
    f: Option<model::GamescopeFilter>,
)
    requires
        call_ensures(scaler_from_proto, (scaler,), s),
        call_ensures(filter_from_proto, (filter,), f),
    ensures
        s == match scaler {
            message::Scaler::Auto => Some(model::GamescopeScaler::Auto),
            message::Scaler::Integer => Some(model::GamescopeScaler::Integer),
            message::Scaler::Fit => Some(model::GamescopeScaler::Fit),
            message::Scaler::Fill => Some(model::GamescopeScaler::Fill),
            message::Scaler::Stretch => Some(model::GamescopeScaler::Stretch),
            _ => None,
        },
        f == match filter {
            message::Filter::Linear => Some(model::GamescopeFilter::Linear),
            message::Filter::Nearest => Some(model::GamescopeFilter::Nearest),
            message::Filter::Fsr => Some(model::GamescopeFilter::Fsr),
            message::Filter::Nis => Some(model::GamescopeFilter::Nis),
            message::Filter::Pixel => Some(model::GamescopeFilter::Pixel),
            _ => None,
        },
{
}

/// What is shown of a slot, a storage, a scaler and a filter is read back as the same.
pub proof fn shown_names_are_read_back(
    slot: model::Slot,
    slot_shown: message::Slot,
    slot_read: Result<model::Slot, Status>,
    storage: model::Storage,
    storage_shown: message::Storage,
    storage_read: Result<model::Storage, Status>,
    scaler: model::GamescopeScaler,
    scaler_shown: message::Scaler,
    scaler_read: Option<model::GamescopeScaler>,
    filter: model::GamescopeFilter,
    filter_shown: message::Filter,
    filter_read: Option<model::GamescopeFilter>,
)
    requires
        call_ensures(slot_to_proto, (slot,), slot_shown),
        call_ensures(slot_from_proto, (slot_shown,), slot_read),
        call_ensures(storage_to_proto, (storage,), storage_shown),
        call_ensures(storage_from_proto, (storage_shown,), storage_read),
        call_ensures(scaler_to_proto, (scaler,), scaler_shown),
        call_ensures(scaler_from_proto, (scaler_shown,), scaler_read),
        call_ensures(filter_to_proto, (filter,), filter_shown),
        call_ensures(filter_from_proto, (filter_shown,), filter_read),
    ensures
        slot_read == Ok::<model::Slot, Status>(slot),
        storage_read == Ok::<model::Storage, Status>(storage),
        scaler_read == Some(scaler),
        filter_read == Some(filter),
{
}

/// Gamescope's settings are shown, and read from any message, field by field.
pub proof fn gamescope_is_shown_and_read_field_by_field(
    config: model::GamescopeConfig,
    shown: message::GamescopeConfig,
    sent: message::GamescopeConfig,
    read: model::GamescopeConfig,
)
    requires
        call_ensures(gamescope_to_proto, (&config,), shown),
        call_ensures(gamescope_from_proto, (sent,), read),
    ensures
        shown.enabled == config.enabled && read.enabled == sent.enabled,
        shown.game_width == config.game_width && read.game_width == sent.game_width,
        shown.game_height == config.game_height && read.game_height == sent.game_height,
        shown.output_width == config.output_width && read.output_width == sent.output_width,
        shown.output_height == config.output_height && read.output_height == sent.output_height,
        shown.frame_rate == config.frame_rate && read.frame_rate == sent.frame_rate,
        shown.unfocused_frame_rate == config.unfocused_frame_rate && read.unfocused_frame_rate
            == sent.unfocused_frame_rate,
        shown.borderless == config.borderless && read.borderless == sent.borderless,
        shown.fullscreen == config.fullscreen && read.fullscreen == sent.fullscreen,
        sent.sharpness matches Some(n) ==> (n <= 255 ==> read.sharpness == Some(n as u8)),
{
    gamescope_reading_keeps_each_setting(sent, read);
}

/// MangoHud is shown and read as enabled exactly where it is.
pub proof fn mangohud_is_shown_and_read(
    config: model::MangoHudConfig,
    shown: message::MangoHudConfig,
    sent: message::MangoHudConfig,
    read: model::MangoHudConfig,
)
    requires
        call_ensures(mangohud_to_proto, (&config,), shown),
        call_ensures(mangohud_from_proto, (sent,), read),
    ensures
        shown.enabled == config.enabled,
        read.enabled == sent.enabled,
{
}

/// A program under a given identifier has that identifier, and each field of its message.
pub proof fn program_takes_the_given_identifier(
    shown: message::Program,
    id: u128,
    read: model::Program,
)
    requires
        call_ensures(program_with_id, (shown, id), read),
    ensures
        read.id == id,
        read.name == shown.name,
        read.executable == shown.executable,
        read.args@ == shown.args@,
        read.working_directory == shown.working_directory,
        read.new_console == shown.new_console,
{
}

/// A failure of the core library is answered in its own words under the code of its kind,
/// and with the status of another service where it is one.
pub proof fn bottle_failures_are_answered(err: CoreError, status: Status)
    requires
        call_ensures(to_status, (err,), status),
    ensures
        err.kind matches ErrorKind::Status(own) ==> status == own,
        !(err.kind is Status) ==> status.message@ == err.message@ && status.code == failure_code(
            err.kind,
        ),
{
}

/// The snapshots of a bottle are shown each in its place.
pub proof fn snapshots_stay_in_place(
    summaries: Vec<model::SnapshotSummary>,
    shown: Vec<message::SnapshotSummary>,
    i: int,
)
    requires
        call_ensures(snapshots_to_proto, (summaries,), shown),
        0 <= i < summaries@.len(),
    ensures
        shown@.len() == summaries@.len(),
        shown@[i].repository_path == summaries@[i].repository_path,
        shown@[i].state_id == summaries@[i].state_id,
        shown@[i].message == summaries@[i].message,
        shown@[i].file_count == summaries@[i].file_count,
        shown@[i].created_at is Some <==> summaries@[i].created_at is Some,
        summaries@[i].created_at matches Some(own) ==> (shown@[i].created_at matches Some(at)
            && at.seconds == own.seconds && at.nanos == own.nanos),
{
}

/// Messages show what they are made of.
pub proof fn messages_show_what_they_are_made_of(
    requirement: model::Requirement,
    requirement_shown: message::Requirement,
    component: model::Component,
    component_shown: message::Component,
    dependency: model::Dependency,
    dependency_shown: message::Dependency,
    program: model::Program,
    program_shown: message::Program,
    state: model::BottleState,
    state_shown: message::BottleState,
)
    requires
        call_ensures(requirement_to_proto, (&requirement,), requirement_shown),
        call_ensures(component_to_proto, (&component,), component_shown),
        call_ensures(dependency_to_proto, (&dependency,), dependency_shown),
        call_ensures(program_to_proto, (&program,), program_shown),
        call_ensures(bottle_state_to_proto, (&state,), state_shown),
    ensures
        requirement_shown.shows(requirement),
        component_shown.shows(component),
        dependency_shown.shows(dependency),
        program_shown.shows(program),
        state_shown.shows(state),
{
}

/// Progress, a snapshot and a list of bottles are shown as their messages, and a program is
/// read as the one that its message stands for.
pub proof fn events_and_lists_show_what_they_are_made_of(
    progress: model::Progress,
    progress_shown: message::OperationProgress,
    snapshot: model::Snapshot,
    snapshot_shown: message::Snapshot,
    states: &[Option<model::BottleState>],
    states_shown: Vec<message::BottleState>,
    sent: message::Program,
    read: model::Program,
)
    requires
        call_ensures(convert_progress, (progress,), progress_shown),
        call_ensures(snapshot_to_proto, (snapshot,), snapshot_shown),
        call_ensures(bottles_to_proto, (states,), states_shown),
        call_ensures(program_from_proto, (sent,), read),
    ensures
        progress_shown == progress_message(progress),
        snapshot_shown == snapshot_message(snapshot),
        ({
            let readable = states@.filter(|state: Option<model::BottleState>| state is Some);
            &&& states_shown@.len() == readable.len()
            &&& forall|k: int|
                0 <= k < readable.len() ==> (#[trigger] states_shown@[k]).shows(readable[k]->0)
        }),
        sent.stands_for(read),
{
    every_readable_bottle_is_listed(states_shown@, states@);
}

} // verus!
