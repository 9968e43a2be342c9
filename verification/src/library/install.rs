//! Installing a game: fetching its manifest, downloading its files, and registering
//! the program that launches it.

use vstd::prelude::*;
use crate::ids::{denotes, hyphenated, id_text, parse_id};
use crate::launch::{
    find_goggame_primary_executable, find_primary_executable_heuristic, goggame_executable,
    goggame_info, goggame_info_path, guessed, install_root, install_root_name,
};
use crate::machine::{is_run, Machine};
use crate::path::{file_stem, stem_of};
use crate::registry::{parse_storefront, refused, require, Reach, Storefront, StorefrontRef};
use crate::status::{Code, Status};
use crate::text::{chars_of, join2, replaced, swapped, text_of, texts};

verus! {

/// A request about the installation of a game.
#[derive(Debug)]
pub struct InstallGameRequest {
    pub profile_id: String,
    pub storefront: StorefrontRef,
    pub game_id: String,
    pub bottle_id: String,
}

/// What an installation is known by while it runs: the profile, the storefront's number
/// and the game.
#[derive(Debug)]
pub struct InstallKey {
    pub profile_id: String,
    pub storefront: i32,
    pub game_id: String,
}

impl InstallGameRequest {
    /// The key of the installation that this request is about.
    pub open spec fn has_key(self, key: InstallKey) -> bool {
        &&& key.profile_id@ == self.profile_id@
        &&& key.storefront == self.storefront.number
        &&& key.game_id@ == self.game_id@
    }

    /// The key of the installation that this request is about.
    pub fn key(&self) -> (r: InstallKey)
        ensures
            self.has_key(r),
    {
        InstallKey {
            profile_id: self.profile_id.clone(),
            storefront: self.storefront.number,
            game_id: self.game_id.clone(),
        }
    }
}

/// A piece of a file.
#[derive(Debug)]
pub struct InstallChunk {
    pub download_url: String,
    pub compressed: bool,
}

/// A file, as the pieces that it is put together from.
#[derive(Debug)]
pub struct InstallFile {
    pub relative_path: String,
    pub chunks: Vec<InstallChunk>,
}

/// What a plugin says of the installation of a game.
#[derive(Debug)]
pub struct InstallManifest {
    pub install_directory: String,
    pub version: String,
    pub primary_executable: Option<String>,
    pub install_size_bytes: Option<u64>,
    pub files: Vec<InstallFile>,
}

/// What is to be downloaded, and where to.
#[derive(Debug)]
pub struct DownloadPlan {
    pub key: InstallKey,
    /// The directory below the bottle's drive that the files belong in.
    pub install_root: String,
    pub files: Vec<InstallFile>,
}

/// What is kept of a request and its manifest while the files are downloaded.
#[derive(Debug)]
pub struct Job {
    pub request: InstallGameRequest,
    pub install_directory: String,
    pub version: String,
    pub primary_executable: Option<String>,
    pub install_size_bytes: Option<u64>,
}

/// The preparation of an installation, by what is to be done next.
#[derive(Debug)]
pub enum InstallGame {
    /// Open the bottle with this identifier: an unknown bottle is refused before
    /// anything is downloaded.
    OpenBottle(InstallGameRequest, Storefront, u128),
    /// Reach the storefront's plugin.
    Reach(InstallGameRequest, Storefront),
    /// Have the plugin give the manifest of the profile's game.
    FetchManifest(InstallGameRequest, Storefront),
    /// Find the staging directory of the profile, the storefront and the game.
    FindStaging(InstallGameRequest, Storefront, InstallManifest),
    /// Start the download, and go on with the job.
    Download(DownloadPlan, Job),
    /// Answer with a failure.
    Refuse(Status),
}

/// What the preparation of an installation waits for.
#[derive(Debug)]
pub enum InstallEvent {
    Opened(Result<(), Status>),
    Reached(Reach),
    Manifest(Result<InstallManifest, Status>),
    Staging(Result<(), Status>),
}

impl InstallGame {
    /// Begins with the bottle. The storefront is checked first, then the bottle's
    /// identifier.
    pub fn begin(request: InstallGameRequest) -> (r: Self)
        ensures
            match r {
                InstallGame::OpenBottle(kept, storefront, id) => kept == request
                    && request.storefront.is_known_as(storefront) && denotes(
                    request.bottle_id@,
                    id,
                ),
                InstallGame::Refuse(status) => if request.storefront.name is None {
                    status.says(Code::InvalidArgument, "invalid storefront"@)
                } else {
                    (forall|id: u128| !denotes(request.bottle_id@, id)) && status.says(
                        Code::InvalidArgument,
                        "invalid bottle_id"@,
                    )
                },
                _ => false,
            },
    {
        match parse_storefront(&request.storefront) {
            Ok(storefront) => match parse_id(request.bottle_id.as_str()) {
                Some(id) => InstallGame::OpenBottle(request, storefront, id),
                None => InstallGame::Refuse(
                    Status::with(Code::InvalidArgument, "invalid bottle_id"),
                ),
            },
            Err(status) => InstallGame::Refuse(status),
        }
    }
}

impl DownloadPlan {
    /// This plan downloads a manifest's files for a request.
    pub open spec fn serves(self, request: InstallGameRequest, manifest: InstallManifest) -> bool {
        &&& request.has_key(self.key)
        &&& self.install_root@ == install_root(manifest.install_directory@)
        &&& self.files == manifest.files
    }
}

impl Job {
    /// This job goes on with a request and its manifest.
    pub open spec fn keeps(self, request: InstallGameRequest, manifest: InstallManifest) -> bool {
        &&& self.request == request
        &&& self.install_directory == manifest.install_directory
        &&& self.version == manifest.version
        &&& self.primary_executable == manifest.primary_executable
        &&& self.install_size_bytes == manifest.install_size_bytes
    }
}

impl Machine for InstallGame {
    type Event = InstallEvent;

    open spec fn awaits(self, event: InstallEvent) -> bool {
        match self {
            InstallGame::OpenBottle(_, _, _) => event is Opened,
            InstallGame::Reach(_, _) => event is Reached,
            InstallGame::FetchManifest(_, _) => event is Manifest,
            InstallGame::FindStaging(_, _, _) => event is Staging,
            _ => false,
        }
    }

    open spec fn stepped(self, event: InstallEvent, next: Self) -> bool {
        match (self, event) {
            (
                InstallGame::OpenBottle(request, storefront, _),
                InstallEvent::Opened(Ok(_)),
            ) => next == InstallGame::Reach(request, storefront),
            (InstallGame::OpenBottle(_, _, _), InstallEvent::Opened(Err(status))) => next
                == InstallGame::Refuse(status),
            (InstallGame::Reach(request, storefront), InstallEvent::Reached(reach)) => match reach {
                Reach::Connected => next == InstallGame::FetchManifest(request, storefront),
                _ => next matches InstallGame::Refuse(status) && refused(
                    storefront,
                    reach,
                    status,
                ),
            },
            (
                InstallGame::FetchManifest(request, storefront),
                InstallEvent::Manifest(Ok(manifest)),
            ) => next == InstallGame::FindStaging(request, storefront, manifest),
            (InstallGame::FetchManifest(_, _), InstallEvent::Manifest(Err(status))) => next
                == InstallGame::Refuse(status),
            (
                InstallGame::FindStaging(request, _, manifest),
                InstallEvent::Staging(Ok(_)),
            ) => next matches InstallGame::Download(plan, job) && plan.serves(request, manifest)
                && job.keeps(request, manifest),
            (InstallGame::FindStaging(_, _, _), InstallEvent::Staging(Err(status))) => next
                == InstallGame::Refuse(status),
            _ => next == self,
        }
    }

    fn step(self, event: InstallEvent) -> (next: Self) {
        match (self, event) {
            (
                InstallGame::OpenBottle(request, storefront, _),
                InstallEvent::Opened(Ok(_)),
            ) => InstallGame::Reach(request, storefront),
            (InstallGame::OpenBottle(_, _, _), InstallEvent::Opened(Err(status))) => {
                InstallGame::Refuse(status)
            },
            (InstallGame::Reach(request, storefront), InstallEvent::Reached(reach)) => {
                match require(&storefront, reach) {
                    Ok(_) => InstallGame::FetchManifest(request, storefront),
                    Err(status) => InstallGame::Refuse(status),
                }
            },
            (
                InstallGame::FetchManifest(request, storefront),
                InstallEvent::Manifest(Ok(manifest)),
            ) => InstallGame::FindStaging(request, storefront, manifest),
            (InstallGame::FetchManifest(_, _), InstallEvent::Manifest(Err(status))) => {
                InstallGame::Refuse(status)
            },
            (
                InstallGame::FindStaging(request, _, manifest),
                InstallEvent::Staging(Ok(_)),
            ) => {
                let plan = DownloadPlan {
                    key: request.key(),
                    install_root: install_root_name(manifest.install_directory.as_str()),
                    files: manifest.files,
                };
                let job = Job {
                    request,
                    install_directory: manifest.install_directory,
                    version: manifest.version,
                    primary_executable: manifest.primary_executable,
                    install_size_bytes: manifest.install_size_bytes,
                };
                InstallGame::Download(plan, job)
            },
            (InstallGame::FindStaging(_, _, _), InstallEvent::Staging(Err(status))) => {
                InstallGame::Refuse(status)
            },
            (state, _) => state,
        }
    }
}

/// How far a download has come.
#[derive(Debug)]
pub struct InstallProgress {
    pub current_file: String,
    pub bytes_downloaded: u64,
    pub total_bytes: u64,
    pub bytes_per_second: u64,
}

/// What was downloaded: the paths of the files below the bottle's drive, and their size.
#[derive(Debug)]
pub struct Downloaded {
    pub relative_paths: Vec<String>,
    pub install_size_bytes: u64,
}

/// What a download gives.
#[derive(Debug)]
pub enum DownloadItem {
    Progress(InstallProgress),
    Done(Downloaded),
}

/// What is told of an installation. `S` is the state of an installed game.
#[derive(Debug)]
pub enum InstallGameEvent<S> {
    Progress(InstallProgress),
    Done(S),
}

/// The program that launches a game: its name, and its path on the bottle's drive.
#[derive(Debug)]
pub struct LaunchProgram {
    pub name: String,
    pub windows_path: String,
}

impl LaunchProgram {
    /// This program launches an executable of a game: it is named after the
    /// executable, or after the game where the executable has no name.
    pub open spec fn launches(self, executable: Seq<char>, game_id: Seq<char>) -> bool {
        &&& self.name@ == match file_stem(executable) {
            Some(stem) => stem,
            None => game_id,
        }
        &&& self.windows_path@ == windows_path(executable)
    }
}

/// A path below the drive, as Windows writes it.
pub open spec fn windows_path(executable: Seq<char>) -> Seq<char> {
    "C:\\"@ + replaced(executable, '/', '\\')
}

/// The program that launches an executable of a game.
pub fn launch_program(executable: &str, game_id: &str) -> (r: LaunchProgram)
    ensures
        r.launches(executable@, game_id@),
{
    let chars = chars_of(executable);
    let name: String = match stem_of(chars.as_slice()) {
        Some(stem) => text_of(stem.as_slice()),
        None => game_id.to_owned(),
    };
    let path = text_of(swapped(chars.as_slice(), '/', '\\').as_slice());
    LaunchProgram { name, windows_path: join2("C:\\", path.as_str()) }
}

/// What is kept of a finished installation.
#[derive(Debug)]
pub struct InstallRecord {
    pub profile_id: String,
    pub storefront: i32,
    pub game_id: String,
    pub version: String,
    pub install_size_bytes: Option<u64>,
    pub bottle_id: String,
    pub relative_paths: Vec<String>,
    pub program_id: Option<String>,
}

impl InstallRecord {
    /// This record is of a job and what was downloaded for it. The size that the
    /// manifest gives comes before the one that was counted.
    pub open spec fn records(self, job: Job, downloaded: Downloaded) -> bool {
        &&& self.profile_id@ == job.request.profile_id@
        &&& self.storefront == job.request.storefront.number
        &&& self.game_id@ == job.request.game_id@
        &&& self.version@ == job.version@
        &&& self.install_size_bytes == match job.install_size_bytes {
            Some(size) => Some(size),
            None => Some(downloaded.install_size_bytes),
        }
        &&& self.bottle_id@ == job.request.bottle_id@
        &&& self.relative_paths == downloaded.relative_paths
    }

    /// This record names the program that was registered, or none.
    pub open spec fn names(self, program: Option<u128>) -> bool {
        match program {
            Some(id) => self.program_id matches Some(text) && text@ == hyphenated(id),
            None => self.program_id is None,
        }
    }
}

fn record(job: &Job, downloaded: Downloaded, program: Option<u128>) -> (r: InstallRecord)
    ensures
        r.records(*job, downloaded),
        r.names(program),
{
    InstallRecord {
        profile_id: job.request.profile_id.clone(),
        storefront: job.request.storefront.number,
        game_id: job.request.game_id.clone(),
        version: job.version.clone(),
        install_size_bytes: match job.install_size_bytes {
            Some(size) => Some(size),
            None => Some(downloaded.install_size_bytes),
        },
        bottle_id: job.request.bottle_id.clone(),
        relative_paths: downloaded.relative_paths,
        program_id: match program {
            Some(id) => Some(id_text(id)),
            None => None,
        },
    }
}

/// The executable that launches what was downloaded: the one that the manifest names,
/// or else the one that a goggame document names, or else the one that is guessed. The
/// bytes are those of the goggame document, where it could be read.
pub open spec fn launch_target(job: Job, paths: Seq<Seq<char>>, bytes: Option<Seq<u8>>) -> Option<
    Seq<char>,
> {
    match job.primary_executable {
        Some(named) => Some(named@),
        None => match (goggame_info(paths), bytes) {
            (Some(info), Some(document)) => match goggame_executable(info, document) {
                Some(executable) => Some(executable),
                None => guessed(paths, job.install_directory@),
            },
            _ => guessed(paths, job.install_directory@),
        },
    }
}

/// An installation whose files are being downloaded, by what is to be done next.
#[derive(Debug)]
pub enum InstallRun<S> {
    /// Wait for what the download gives next.
    Next(Job),
    /// Tell of the progress, and stop where nobody listens any more.
    Report(Job, InstallProgress),
    /// Read the goggame document at this path below the bottle's drive.
    ReadInfo(Job, Downloaded, String),
    /// Register the program in the bottle.
    Register(Job, Downloaded, LaunchProgram),
    /// Keep the record of the installation.
    Record(Job, InstallRecord),
    /// Tell how the installation went.
    Tell(Job, Result<InstallGameEvent<S>, Status>),
    /// Stop.
    Stopped,
}

/// What an installation waits for.
#[derive(Debug)]
pub enum RunEvent<S> {
    /// The next item of the download, its failure in words, or its end.
    Item(Option<Result<DownloadItem, String>>),
    /// Whether what was told was taken.
    Sent(bool),
    /// The bytes of the goggame document, where it could be read.
    Read(Option<Vec<u8>>),
    /// The identifier of the program, where it was registered.
    Registered(Option<u128>),
    /// The state of the installed game, once its record was kept.
    Recorded(Result<S, Status>),
}

/// With the launch target known, its program is registered; without one, the
/// installation is recorded without a program.
pub open spec fn settled<S>(
    job: Job,
    downloaded: Downloaded,
    target: Option<Seq<char>>,
    next: InstallRun<S>,
) -> bool {
    match target {
        Some(executable) => next matches InstallRun::Register(kept, files, program) && kept == job
            && files == downloaded && program.launches(executable, job.request.game_id@),
        None => next matches InstallRun::Record(kept, record) && kept == job && record.records(
            job,
            downloaded,
        ) && record.names(None),
    }
}

/// Everything was downloaded: a goggame document is read where the manifest names no
/// executable and there is such a document.
pub open spec fn downloaded_all<S>(job: Job, downloaded: Downloaded, next: InstallRun<S>) -> bool {
    let paths = texts(downloaded.relative_paths@);
    if job.primary_executable is None && goggame_info(paths) is Some {
        next matches InstallRun::ReadInfo(kept, files, path) && kept == job && files == downloaded
            && Some(path@) == goggame_info(paths)
    } else {
        settled(job, downloaded, launch_target(job, paths, None), next)
    }
}

fn settle<S>(job: Job, downloaded: Downloaded, target: Option<String>) -> (r: InstallRun<S>)
    ensures
        settled(
            job,
            downloaded,
            match target {
                Some(executable) => Some(executable@),
                None => None,
            },
            r,
        ),
{
    match target {
        Some(executable) => {
            let program = launch_program(executable.as_str(), job.request.game_id.as_str());
            InstallRun::Register(job, downloaded, program)
        },
        None => {
            let kept = record(&job, downloaded, None);
            InstallRun::Record(job, kept)
        },
    }
}

fn guess<S>(job: Job, downloaded: Downloaded) -> (r: InstallRun<S>)
    ensures
        settled(
            job,
            downloaded,
            guessed(texts(downloaded.relative_paths@), job.install_directory@),
            r,
        ),
{
    let target = find_primary_executable_heuristic(
        downloaded.relative_paths.as_slice(),
        job.install_directory.as_str(),
    );
    settle(job, downloaded, target)
}

fn finish<S>(job: Job, downloaded: Downloaded) -> (r: InstallRun<S>)
    ensures
        downloaded_all(job, downloaded, r),
{
    match &job.primary_executable {
        Some(named) => {
            let target = Some(named.clone());
            settle(job, downloaded, target)
        },
        None => match goggame_info_path(downloaded.relative_paths.as_slice()) {
            Some(path) => InstallRun::ReadInfo(job, downloaded, path),
            None => guess(job, downloaded),
        },
    }
}

fn read_info<S>(
    job: Job,
    downloaded: Downloaded,
    path: String,
    bytes: Option<Vec<u8>>,
) -> (r: InstallRun<S>)
    ensures
        settled(
            job,
            downloaded,
            match bytes {
                Some(document) => match goggame_executable(path@, document@) {
                    Some(executable) => Some(executable),
                    None => guessed(texts(downloaded.relative_paths@), job.install_directory@),
                },
                None => guessed(texts(downloaded.relative_paths@), job.install_directory@),
            },
            r,
        ),
{
    match bytes {
        Some(document) => match find_goggame_primary_executable(
            path.as_str(),
            document.as_slice(),
        ) {
            Some(executable) => settle(job, downloaded, Some(executable)),
            None => guess(job, downloaded),
        },
        None => guess(job, downloaded),
    }
}

impl<S> InstallRun<S> {
    /// Begins with the download of a job.
    pub fn begin(job: Job) -> (r: Self)
        ensures
            r == InstallRun::<S>::Next(job),
    {
        InstallRun::Next(job)
    }
}

impl<S> Machine for InstallRun<S> {
    type Event = RunEvent<S>;

    open spec fn awaits(self, event: RunEvent<S>) -> bool {
        match self {
            InstallRun::Next(_) => event is Item,
            InstallRun::Report(_, _) => event is Sent,
            InstallRun::ReadInfo(_, _, _) => event is Read,
            InstallRun::Register(_, _, _) => event is Registered,
            InstallRun::Record(_, _) => event is Recorded,
            InstallRun::Tell(_, _) => event is Sent,
            InstallRun::Stopped => false,
        }
    }

    open spec fn stepped(self, event: RunEvent<S>, next: Self) -> bool {
        match (self, event) {
            (InstallRun::Next(_), RunEvent::Item(None)) => next == InstallRun::<S>::Stopped,
            (
                InstallRun::Next(job),
                RunEvent::Item(Some(Ok(DownloadItem::Progress(progress)))),
            ) => next == InstallRun::<S>::Report(job, progress),
            (
                InstallRun::Next(job),
                RunEvent::Item(Some(Ok(DownloadItem::Done(downloaded)))),
            ) => downloaded_all(job, downloaded, next),
            (InstallRun::Next(job), RunEvent::Item(Some(Err(message)))) => next matches
                InstallRun::Tell(kept, Err(status)) && kept == job && status.says(
                Code::Internal,
                message@,
            ),
            (InstallRun::Report(job, _), RunEvent::Sent(taken)) => next == if taken {
                InstallRun::<S>::Next(job)
            } else {
                InstallRun::<S>::Stopped
            },
            (InstallRun::ReadInfo(job, downloaded, path), RunEvent::Read(bytes)) => settled(
                job,
                downloaded,
                match bytes {
                    Some(document) => match goggame_executable(path@, document@) {
                        Some(executable) => Some(executable),
                        None => guessed(texts(downloaded.relative_paths@), job.install_directory@),
                    },
                    None => guessed(texts(downloaded.relative_paths@), job.install_directory@),
                },
                next,
            ),
            (InstallRun::Register(job, downloaded, _), RunEvent::Registered(program)) => next
                matches InstallRun::Record(kept, record) && kept == job && record.records(
                job,
                downloaded,
            ) && record.names(program),
            (InstallRun::Record(job, _), RunEvent::Recorded(Ok(state))) => next
                == InstallRun::Tell(job, Ok(InstallGameEvent::Done(state))),
            (InstallRun::Record(job, _), RunEvent::Recorded(Err(status))) => next
                == InstallRun::<S>::Tell(job, Err(status)),
            (InstallRun::Tell(job, _), RunEvent::Sent(_)) => next == InstallRun::<S>::Next(job),
            _ => next == self,
        }
    }

    fn step(self, event: RunEvent<S>) -> (next: Self) {
        match (self, event) {
            (InstallRun::Next(_), RunEvent::Item(None)) => InstallRun::Stopped,
            (
                InstallRun::Next(job),
                RunEvent::Item(Some(Ok(DownloadItem::Progress(progress)))),
            ) => InstallRun::Report(job, progress),
            (
                InstallRun::Next(job),
                RunEvent::Item(Some(Ok(DownloadItem::Done(downloaded)))),
            ) => finish(job, downloaded),
            (InstallRun::Next(job), RunEvent::Item(Some(Err(message)))) => InstallRun::Tell(
                job,
                Err(Status::new(Code::Internal, message)),
            ),
            (InstallRun::Report(job, _), RunEvent::Sent(taken)) => if taken {
                InstallRun::Next(job)
            } else {
                InstallRun::Stopped
            },
            (InstallRun::ReadInfo(job, downloaded, path), RunEvent::Read(bytes)) => read_info(
                job,
                downloaded,
                path,
                bytes,
            ),
            (InstallRun::Register(job, downloaded, _), RunEvent::Registered(program)) => {
                let kept = record(&job, downloaded, program);
                InstallRun::Record(job, kept)
            },
            (InstallRun::Record(job, _), RunEvent::Recorded(Ok(state))) => InstallRun::Tell(
                job,
                Ok(InstallGameEvent::Done(state)),
            ),
            (InstallRun::Record(job, _), RunEvent::Recorded(Err(status))) => InstallRun::Tell(
                job,
                Err(status),
            ),
            (InstallRun::Tell(job, _), RunEvent::Sent(_)) => InstallRun::Next(job),
            (state, _) => state,
        }
    }
}

/// A download starts only once the bottle was opened, the plugin was reached, its
/// manifest was fetched and a staging directory was found. It is of the files of that
/// manifest.
pub proof fn download_passed_every_step(
    request: InstallGameRequest,
    storefront: Storefront,
    id: u128,
    plan: DownloadPlan,
    job: Job,
    states: Seq<InstallGame>,
    events: Seq<InstallEvent>,
)
    requires
        is_run(states, events),
        states[0] == InstallGame::OpenBottle(request, storefront, id),
        states.last() == InstallGame::Download(plan, job),
    ensures
        events.len() == 4,
        events[0] matches InstallEvent::Opened(Ok(_)),
        events[1] == InstallEvent::Reached(Reach::Connected),
        events[2] matches InstallEvent::Manifest(Ok(manifest)) && plan.serves(request, manifest)
            && job.keeps(request, manifest),
        events[3] matches InstallEvent::Staging(Ok(_)),
{
    assert(events.len() > 0);
    assert(states[0].awaits(events[0]));
    assert(events.len() > 1 ==> states[1].awaits(events[1]));
    assert(events.len() > 1);
    assert(events.len() > 2 ==> states[2].awaits(events[2]));
    assert(events.len() > 2);
    assert(events.len() > 3 ==> states[3].awaits(events[3]));
    assert(events.len() > 3);
    assert(events.len() > 4 ==> states[4].awaits(events[4]));
}

/// A request to cancel finds the installation that another request started, where both
/// are of the same profile, storefront and game.
pub proof fn cancelling_finds_the_installation(
    started: InstallGameRequest,
    cancelled: InstallGameRequest,
    key: InstallKey,
    found: InstallKey,
)
    requires
        started.has_key(key),
        cancelled.has_key(found),
    ensures
        (key.profile_id@ == found.profile_id@ && key.storefront == found.storefront
            && key.game_id@ == found.game_id@) == (started.profile_id@ == cancelled.profile_id@
            && started.storefront.number == cancelled.storefront.number && started.game_id@
            == cancelled.game_id@),
{
}

/// What is guessed to launch a game lies directly in the directory that its files were
/// downloaded to.
pub proof fn guess_lies_where_files_are_installed(
    request: InstallGameRequest,
    manifest: InstallManifest,
    plan: DownloadPlan,
    job: Job,
    paths: Seq<Seq<char>>,
    executable: Seq<char>,
)
    requires
        plan.serves(request, manifest),
        job.keeps(request, manifest),
        guessed(paths, job.install_directory@) == Some(executable),
    ensures
        (plan.install_root@ + "/"@).is_prefix_of(executable),
        !executable.skip((plan.install_root@ + "/"@).len() as int).contains('/'),
{
    crate::launch::guess_is_installed(paths, job.install_directory@, executable);
}

/// A path on a bottle's drive is written without a slash.
pub proof fn windows_path_has_no_slash(executable: Seq<char>)
    ensures
        !windows_path(executable).contains('/'),
{
    reveal_strlit("C:\\");
    let path = windows_path(executable);
    assert forall|i: int| 0 <= i < path.len() implies path[i] != '/' by {
        if i >= "C:\\"@.len() {
            assert(path[i] == replaced(executable, '/', '\\')[i - "C:\\"@.len()]);
        }
    }
}

/// The executable that a manifest names is launched, whatever was downloaded.
pub proof fn manifest_decides_the_launch_target(
    job: Job,
    named: String,
    paths: Seq<Seq<char>>,
    bytes: Option<Seq<u8>>,
)
    requires
        job.primary_executable == Some(named),
    ensures
        launch_target(job, paths, bytes) == Some(named@),
{
}

/// Where the manifest names no executable, the one that a goggame document names is
/// launched, whatever could be guessed.
pub proof fn goggame_document_comes_before_a_guess(
    job: Job,
    paths: Seq<Seq<char>>,
    info: Seq<char>,
    document: Seq<u8>,
    executable: Seq<char>,
)
    requires
        job.primary_executable is None,
        goggame_info(paths) == Some(info),
        goggame_executable(info, document) == Some(executable),
    ensures
        launch_target(job, paths, Some(document)) == Some(executable),
{
}

/// The bytes of the goggame document that was read in a run, right behind the download.
pub open spec fn document_read<S>(events: Seq<RunEvent<S>>) -> Option<Seq<u8>> {
    match events[1] {
        RunEvent::Read(Some(document)) => Some(document@),
        _ => None,
    }
}

/// Once everything was downloaded, a record follows in at most three steps. It is of
/// the job and the files. Where there is a launch target, a program that launches it was
/// to be registered, and the record names the program that was; otherwise it names none.
pub proof fn record_names_the_launch_target<S>(
    job: Job,
    downloaded: Downloaded,
    kept: Job,
    record: InstallRecord,
    states: Seq<InstallRun<S>>,
    events: Seq<RunEvent<S>>,
)
    requires
        is_run(states, events),
        states[0] == InstallRun::<S>::Next(job),
        events.len() > 0,
        events[0] == RunEvent::<S>::Item(Some(Ok(DownloadItem::Done(downloaded)))),
        states.last() == InstallRun::<S>::Record(kept, record),
        forall|i: int| 0 <= i < events.len() ==> !((#[trigger] states[i]) is Record),
    ensures
        events.len() <= 3,
        kept == job,
        record.records(job, downloaded),
        match launch_target(
            job,
            texts(downloaded.relative_paths@),
            if events.len() > 1 {
                document_read(events)
            } else {
                None
            },
        ) {
            Some(executable) => {
                &&& states[events.len() - 1] matches InstallRun::Register(_, _, program)
                    && program.launches(executable, job.request.game_id@)
                &&& events.last() matches RunEvent::Registered(registered) && record.names(
                    registered,
                )
            },
            None => record.names(None),
        },
{
    let paths = texts(downloaded.relative_paths@);
    assert(states[0].awaits(events[0]));
    assert(events.len() > 1 ==> states[1].awaits(events[1]));
    assert(events.len() > 2 ==> states[2].awaits(events[2]));
    assert(events.len() > 3 ==> states[3].awaits(events[3]));
    if states[1] is ReadInfo {
        assert(settled(
            job,
            downloaded,
            launch_target(job, paths, document_read(events)),
            states[2],
        ));
    }
}

/// An installation is told to be done only once its record was kept.
pub proof fn done_is_told_after_the_record<S>(
    first: Job,
    states: Seq<InstallRun<S>>,
    events: Seq<RunEvent<S>>,
    i: int,
)
    requires
        is_run(states, events),
        states[0] == InstallRun::<S>::Next(first),
        0 <= i < states.len(),
        states[i] matches InstallRun::Tell(_, Ok(_)),
    ensures
        i > 0,
        states[i - 1] is Record,
        events[i - 1] matches RunEvent::Recorded(Ok(state)) && (states[i] matches InstallRun::Tell(
            _,
            Ok(told),
        ) && told == InstallGameEvent::Done(state)),
{
    assert(i > 0);
    assert(states[i - 1].awaits(events[i - 1]));
}

impl<S> InstallRun<S> {
    /// The job that is being done.
    pub open spec fn job(self) -> Option<Job> {
        match self {
            InstallRun::Next(job) => Some(job),
            InstallRun::Report(job, _) => Some(job),
            InstallRun::ReadInfo(job, _, _) => Some(job),
            InstallRun::Register(job, _, _) => Some(job),
            InstallRun::Record(job, _) => Some(job),
            InstallRun::Tell(job, _) => Some(job),
            InstallRun::Stopped => None,
        }
    }
}

/// An installation stays with the job that it began with.
pub proof fn installation_keeps_its_job<S>(
    job: Job,
    states: Seq<InstallRun<S>>,
    events: Seq<RunEvent<S>>,
    i: int,
)
    requires
        is_run(states, events),
        states[0] == InstallRun::<S>::Next(job),
        0 <= i < states.len(),
    ensures
        states[i] is Stopped || states[i].job() == Some(job),
    decreases i,
{
    if i > 0 {
        installation_keeps_its_job(job, states, events, i - 1);
        assert(states[i - 1].awaits(events[i - 1]));
    }
}

/// An installation stops only where its download ended, or where nobody takes its
/// progress any more.
pub proof fn installation_stops_for_a_reason<S>(
    job: Job,
    states: Seq<InstallRun<S>>,
    events: Seq<RunEvent<S>>,
)
    requires
        is_run(states, events),
        states[0] == InstallRun::<S>::Next(job),
        states.last() is Stopped,
    ensures
        events.len() > 0,
        events.last() == RunEvent::<S>::Item(None) || (events.last() == RunEvent::<S>::Sent(false)
            && states[events.len() - 1] is Report),
{
    assert(events.len() > 0);
    assert(states[events.len() - 1].awaits(events[events.len() - 1]));
}

/// What a download gave, in order.
pub open spec fn items<S>(events: Seq<RunEvent<S>>) -> Seq<Result<DownloadItem, String>>
    decreases events.len(),
{
    if events.len() == 0 {
        seq![]
    } else {
        match events.last() {
            RunEvent::Item(Some(item)) => items(events.drop_last()).push(item),
            _ => items(events.drop_last()),
        }
    }
}

/// What was told of an installation, in order.
pub open spec fn told<S>(states: Seq<InstallRun<S>>) -> Seq<Result<InstallGameEvent<S>, Status>>
    decreases states.len(),
{
    if states.len() == 0 {
        seq![]
    } else {
        match states.last() {
            InstallRun::Report(_, progress) => told(states.drop_last()).push(
                Ok(InstallGameEvent::Progress(progress)),
            ),
            InstallRun::Tell(_, result) => told(states.drop_last()).push(result),
            _ => told(states.drop_last()),
        }
    }
}

/// What is told of one item of a download: its progress as it is, its failure with the
/// words of it, and its end as done or as the failure to keep the record.
pub open spec fn tells_of<S>(
    item: Result<DownloadItem, String>,
    event: Result<InstallGameEvent<S>, Status>,
) -> bool {
    match item {
        Ok(DownloadItem::Progress(progress)) => event == Ok::<_, Status>(
            InstallGameEvent::<S>::Progress(progress),
        ),
        Ok(DownloadItem::Done(_)) => match event {
            Ok(told) => told is Done,
            Err(_) => true,
        },
        Err(message) => event matches Err(status) && status.says(Code::Internal, message@),
    }
}

/// Each item of a download is told of once, in order, the last one as soon as its
/// installation is settled.
pub proof fn every_item_is_told_once<S>(
    job: Job,
    states: Seq<InstallRun<S>>,
    events: Seq<RunEvent<S>>,
)
    requires
        is_run(states, events),
        states[0] == InstallRun::<S>::Next(job),
    ensures
        forall|k: int|
            0 <= k < told(states).len() && k < items(events).len() ==> tells_of(
                items(events)[k],
                #[trigger] told(states)[k],
            ),
        match states.last() {
            InstallRun::ReadInfo(_, _, _)
            | InstallRun::Register(_, _, _)
            | InstallRun::Record(_, _) => told(states).len() + 1 == items(events).len()
                && items(events).last() matches Ok(DownloadItem::Done(_)),
            _ => told(states).len() == items(events).len(),
        },
    decreases events.len(),
{
    if events.len() == 0 {
        assert(states.drop_last() =~= seq![]);
        assert(told(states.drop_last()).len() == 0);
    } else {
        let n = events.len() - 1;
        assert(states.take(n + 1) =~= states.drop_last());
        assert(events.take(n) =~= events.drop_last());
        crate::machine::run_prefix(states, events, n as int);
        every_item_is_told_once(job, states.drop_last(), events.drop_last());
        assert(states[n].awaits(events[n]));
        assert(states.drop_last().last() == states[n]);
    }
}

/// The key of an installation has the profile, the storefront's number and the game of
/// its request, each in its own place.
pub proof fn key_is_of_the_request(request: InstallGameRequest, key: InstallKey)
    requires
        request.has_key(key),
    ensures
        key.profile_id@ == request.profile_id@,
        key.storefront == request.storefront.number,
        key.game_id@ == request.game_id@,
{
}

/// What is downloaded, and what is kept meanwhile, is of the request that the call began
/// with and of the manifest that the plugin gave: the files of the manifest, into its
/// directory below `Program Files`, under the key of the request.
pub proof fn download_is_of_the_request_and_its_manifest(
    request: InstallGameRequest,
    storefront: Storefront,
    id: u128,
    plan: DownloadPlan,
    job: Job,
    states: Seq<InstallGame>,
    events: Seq<InstallEvent>,
)
    requires
        is_run(states, events),
        states[0] == InstallGame::OpenBottle(request, storefront, id),
        states.last() == InstallGame::Download(plan, job),
    ensures
        events.len() > 2,
        events[2] matches InstallEvent::Manifest(Ok(manifest)) && {
            &&& plan.key.profile_id@ == request.profile_id@
            &&& plan.key.storefront == request.storefront.number
            &&& plan.key.game_id@ == request.game_id@
            &&& plan.install_root@ == "Program Files/"@ + manifest.install_directory@
            &&& plan.files == manifest.files
            &&& job.request == request
            &&& job.install_directory == manifest.install_directory
            &&& job.version == manifest.version
            &&& job.primary_executable == manifest.primary_executable
            &&& job.install_size_bytes == manifest.install_size_bytes
        },
{
    download_passed_every_step(request, storefront, id, plan, job, states, events);
}

/// What an installation asks for before its download, and what it is refused with: each
/// step is about the storefront and the request that the call began with, and the first
/// step that fails is answered with its own failure.
pub proof fn preparation_is_refused_by_its_first_failure(
    request: InstallGameRequest,
    storefront: Storefront,
    id: u128,
    states: Seq<InstallGame>,
    events: Seq<InstallEvent>,
)
    requires
        is_run(states, events),
        states[0] == InstallGame::OpenBottle(request, storefront, id),
    ensures
        events.len() > 0 ==> (events[0] matches InstallEvent::Opened(opened) && match opened {
            Err(status) => events.len() == 1 && states[1] == InstallGame::Refuse(status),
            Ok(_) => states[1] == InstallGame::Reach(request, storefront),
        }),
        events.len() > 1 ==> (events[1] matches InstallEvent::Reached(reach) && match reach {
            Reach::Connected => states[2] == InstallGame::FetchManifest(request, storefront),
            Reach::Absent => events.len() == 2 && (states[2] matches InstallGame::Refuse(status)
                && status.says(
                Code::Unavailable,
                "no plugin registered for "@ + storefront.name@,
            )),
            Reach::Failed(cause) => events.len() == 2 && states[2] == InstallGame::Refuse(cause),
        }),
        events.len() > 2 ==> (events[2] matches InstallEvent::Manifest(fetched) && match fetched {
            Err(status) => events.len() == 3 && states[3] == InstallGame::Refuse(status),
            Ok(manifest) => states[3] == InstallGame::FindStaging(request, storefront, manifest),
        }),
        events.len() > 3 ==> (events[3] matches InstallEvent::Staging(found) && match found {
            Err(status) => states[4] == InstallGame::Refuse(status),
            Ok(_) => states[4] is Download,
        }),
        events.len() <= 4,
{
    assert(events.len() > 0 ==> states[0].awaits(events[0]));
    assert(events.len() > 1 ==> states[1].awaits(events[1]));
    assert(events.len() > 2 ==> states[2].awaits(events[2]));
    assert(events.len() > 3 ==> states[3].awaits(events[3]));
    assert(events.len() > 4 ==> states[4].awaits(events[4]));
}

/// A path on a bottle's drive is the drive and the path below it, character by character,
/// with a backslash for each slash.
pub proof fn windows_path_keeps_the_executable(executable: Seq<char>)
    ensures
        windows_path(executable).len() == executable.len() + 3,
        windows_path(executable).take(3) == seq!['C', ':', '\\'],
        forall|i: int|
            0 <= i < executable.len() ==> #[trigger] windows_path(executable)[i + 3] == if executable[i]
                == '/' {
                '\\'
            } else {
                executable[i]
            },
{
    reveal_strlit("C:\\");
    assert(windows_path(executable).take(3) =~= seq!['C', ':', '\\']);
}

/// The program that launches an executable is at the executable's path on the drive. It
/// has the name of the file without its ending, or the game's name where there is no
/// file name.
pub proof fn program_is_named_after_its_file(
    program: LaunchProgram,
    dir: Seq<char>,
    front: Seq<char>,
    end: Seq<char>,
    game_id: Seq<char>,
)
    requires
        !front.contains('/'),
        !end.contains('/'),
        !end.contains('.'),
        front.len() > 0,
        front != seq!['.'] || end.len() > 0,
        program.launches(dir + seq!['/'] + (front + seq!['.'] + end), game_id),
    ensures
        program.name@ == front,
        program.windows_path@ == windows_path(dir + seq!['/'] + (front + seq!['.'] + end)),
{
    let name = front + seq!['.'] + end;
    assert(!name.contains('/')) by {
        if name.contains('/') {
            let i = choose|i: int| 0 <= i < name.len() && name[i] == '/';
            if i < front.len() {
                assert(front.contains(front[i]));
            } else {
                assert(i > front.len());
                assert(end.contains(end[i - front.len() - 1]));
            }
        }
    }
    assert(name.len() >= 2);
    assert(name == seq!['.', '.'] ==> front =~= seq!['.'] && end.len() == 0) by {
        if name == seq!['.', '.'] {
            assert(name.len() == 2);
            assert(front.len() == 1 && front[0] == name[0]);
        }
    }
    crate::path::last_name_is_the_file_name(dir, name);
    crate::path::stem_ends_at_the_last_dot(front, end);
}

/// A program whose executable has no file name is named after its game.
pub proof fn nameless_program_is_named_after_its_game(
    program: LaunchProgram,
    executable: Seq<char>,
    game_id: Seq<char>,
)
    requires
        program.launches(executable, game_id),
        crate::path::file_name(executable) is None,
    ensures
        program.name@ == game_id,
        program.windows_path@ == windows_path(executable),
{
}

/// The record of an installation has each part of the request, the manifest and the
/// download under its own name. Its size is the manifest's, or else the one that was
/// counted; its program is the registered one, written as an identifier, or none.
pub proof fn record_keeps_each_part(
    record: InstallRecord,
    job: Job,
    downloaded: Downloaded,
    program: Option<u128>,
)
    requires
        record.records(job, downloaded),
        record.names(program),
    ensures
        record.profile_id@ == job.request.profile_id@,
        record.storefront == job.request.storefront.number,
        record.game_id@ == job.request.game_id@,
        record.version@ == job.version@,
        record.bottle_id@ == job.request.bottle_id@,
        record.relative_paths == downloaded.relative_paths,
        job.install_size_bytes is Some ==> record.install_size_bytes == job.install_size_bytes,
        job.install_size_bytes is None ==> record.install_size_bytes == Some(
            downloaded.install_size_bytes,
        ),
        record.program_id is Some <==> program is Some,
        program matches Some(id) ==> denotes(record.program_id->0@, id),
{
    if let Some(id) = program {
        crate::ids::written_id_reads_back(id, id);
    }
}

/// Where the manifest names no executable, and no goggame document names one, what is
/// launched is what is guessed from the installed files and the install directory.
pub proof fn guess_is_the_last_resort(job: Job, paths: Seq<Seq<char>>, bytes: Option<Seq<u8>>)
    requires
        job.primary_executable is None,
        match (goggame_info(paths), bytes) {
            (Some(info), Some(document)) => goggame_executable(info, document) is None,
            _ => true,
        },
    ensures
        launch_target(job, paths, bytes) == guessed(paths, job.install_directory@),
{
}

/// What comes of a finished download: the goggame document is read exactly where the
/// manifest names no executable and there is such a document, and it is that document.
pub proof fn goggame_document_is_read_where_it_is_needed<S>(
    job: Job,
    downloaded: Downloaded,
    states: Seq<InstallRun<S>>,
    events: Seq<RunEvent<S>>,
    i: int,
)
    requires
        is_run(states, events),
        0 <= i < events.len(),
        states[i] == InstallRun::<S>::Next(job),
        events[i] == RunEvent::<S>::Item(Some(Ok(DownloadItem::Done(downloaded)))),
    ensures
        states[i + 1] is ReadInfo <==> (job.primary_executable is None && goggame_info(
            texts(downloaded.relative_paths@),
        ) is Some),
        states[i + 1] matches InstallRun::ReadInfo(kept, files, path) ==> kept == job && files
            == downloaded && goggame_info(texts(downloaded.relative_paths@)) == Some(path@),
{
    assert(states[i].awaits(events[i]));
}

/// What each step of an installation leads to besides: progress is told as it is and the
/// next item is waited for, unless nobody takes it; the end of the download stops the
/// installation; a failed download is told as an internal failure in its own words; a
/// kept record is told as done with the state that was kept, and one that could not be
/// kept by its own failure; and after that the next item is waited for in any case.
pub proof fn installation_goes_on_as_it_is_told<S>(
    states: Seq<InstallRun<S>>,
    events: Seq<RunEvent<S>>,
    i: int,
)
    requires
        is_run(states, events),
        0 <= i < events.len(),
    ensures
        states[i] matches InstallRun::Next(job) ==> (events[i] matches RunEvent::Item(item)
            && match item {
            None => states[i + 1] is Stopped,
            Some(Ok(DownloadItem::Progress(progress))) => states[i + 1] == InstallRun::<S>::Report(
                job,
                progress,
            ),
            Some(Ok(DownloadItem::Done(_))) => true,
            Some(Err(message)) => states[i + 1] matches InstallRun::Tell(kept, Err(status)) && kept
                == job && status.code == Code::Internal && status.message@ == message@,
        }),
        states[i] matches InstallRun::Report(job, _) ==> (events[i] matches RunEvent::Sent(taken)
            && (taken ==> states[i + 1] == InstallRun::<S>::Next(job)) && (!taken ==> states[i + 1]
            is Stopped)),
        states[i] matches InstallRun::Register(job, downloaded, _) ==> (events[i] matches
            RunEvent::Registered(program) && (states[i + 1] matches InstallRun::Record(kept, record)
            && kept == job && record.records(job, downloaded) && record.names(program))),
        states[i] matches InstallRun::Record(job, _) ==> (events[i] matches RunEvent::Recorded(
            recorded,
        ) && match recorded {
            Ok(state) => states[i + 1] == InstallRun::Tell(job, Ok(InstallGameEvent::Done(state))),
            Err(status) => states[i + 1] == InstallRun::<S>::Tell(job, Err(status)),
        }),
        states[i] matches InstallRun::Tell(job, _) ==> states[i + 1] == InstallRun::<S>::Next(job),
        !(states[i] is Stopped),
{
    assert(states[i].awaits(events[i]));
}

/// An installation begins with the bottle that its text denotes, for the storefront of the
/// request by its number and name. It is refused for its storefront first, and else for
/// its bottle.
pub proof fn installation_begins_with_its_bottle(
    request: InstallGameRequest,
    id: u128,
    call: InstallGame,
)
    requires
        call_ensures(InstallGame::begin, (request,), call),
    ensures
        request.storefront.name is None ==> (call matches InstallGame::Refuse(status) && status.code
            == Code::InvalidArgument && status.message@ == "invalid storefront"@),
        request.storefront.name is Some && (forall|other: u128|
            !denotes(request.bottle_id@, other)) ==> (call matches InstallGame::Refuse(status)
            && status.code == Code::InvalidArgument && status.message@ == "invalid bottle_id"@),
        request.storefront.name is Some && denotes(request.bottle_id@, id) ==> (call matches
            InstallGame::OpenBottle(kept, storefront, own) && kept == request && own == id
            && storefront.number == request.storefront.number && Some(storefront.name)
            == request.storefront.name),
{
    if denotes(request.bottle_id@, id) {
        if let InstallGame::OpenBottle(_, _, own) = call {
            crate::ids::text_denotes_one_id(request.bottle_id@, id, own);
        }
    }
}

/// The key of a request has its profile, its storefront's number and its game, and a run
/// begins with its job as it is.
pub proof fn key_and_run_begin_with_the_request<S>(
    request: InstallGameRequest,
    key: InstallKey,
    job: Job,
    run: InstallRun<S>,
)
    requires
        call_ensures(InstallGameRequest::key, (&request,), key),
        call_ensures(InstallRun::<S>::begin, (job,), run),
    ensures
        key.profile_id@ == request.profile_id@,
        key.storefront == request.storefront.number,
        key.game_id@ == request.game_id@,
        run == InstallRun::<S>::Next(job),
{
}

/// The program that launches an executable is at its path on the drive, with a backslash
/// for each slash and every other character as it is.
pub proof fn launch_program_is_at_its_path(
    executable: &str,
    game_id: &str,
    program: LaunchProgram,
    i: int,
)
    requires
        call_ensures(launch_program, (executable, game_id), program),
        0 <= i < executable@.len(),
    ensures
        program.windows_path@.len() == executable@.len() + 3,
        program.windows_path@.take(3) == seq!['C', ':', '\\'],
        program.windows_path@[i + 3] == if executable@[i] == '/' {
            '\\'
        } else {
            executable@[i]
        },
{
    windows_path_keeps_the_executable(executable@);
}

/// Whatever comes of a step of an installation is awaited there, and nothing is awaited at
/// the end.
pub proof fn installation_awaits_every_outcome<S>(
    call: InstallGame,
    done: Result<(), Status>,
    reach: Reach,
    manifest: Result<InstallManifest, Status>,
    preparing: InstallEvent,
    run: InstallRun<S>,
    item: Option<Result<DownloadItem, String>>,
    taken: bool,
    bytes: Option<Vec<u8>>,
    program: Option<u128>,
    recorded: Result<S, Status>,
    running: RunEvent<S>,
)
    ensures
        call is OpenBottle <==> call.awaits(InstallEvent::Opened(done)),
        call is Reach <==> call.awaits(InstallEvent::Reached(reach)),
        call is FetchManifest <==> call.awaits(InstallEvent::Manifest(manifest)),
        call is FindStaging <==> call.awaits(InstallEvent::Staging(done)),
        call is Download || call is Refuse ==> !call.awaits(preparing),
        run is Next <==> run.awaits(RunEvent::Item(item)),
        (run is Report || run is Tell) <==> run.awaits(RunEvent::Sent(taken)),
        run is ReadInfo <==> run.awaits(RunEvent::Read(bytes)),
        run is Register <==> run.awaits(RunEvent::Registered(program)),
        run is Record <==> run.awaits(RunEvent::Recorded(recorded)),
        run is Stopped ==> !run.awaits(running),
{
}

/// An event that the preparation of an installation does not wait for changes nothing.
pub proof fn stray_events_do_not_touch_a_preparation(state: InstallGame, event: InstallEvent, next: InstallGame)
    requires
        !state.awaits(event),
        state.stepped(event, next),
    ensures
        next == state,
{
}

/// An event that an installation does not wait for changes nothing.
pub proof fn stray_events_do_not_touch_an_installation<S>(state: InstallRun<S>, event: RunEvent<S>, next: InstallRun<S>)
    requires
        !state.awaits(event),
        state.stepped(event, next),
    ensures
        next == state,
{
}

} // verus!
