use bottles_server::library::games::{
    AuthState, Game, LinkedAccount, ListEvent, ListGames, WatchEvent, WatchGames,
};
use bottles_server::library::install::{
    launch_program, DownloadItem, Downloaded, InstallChunk, InstallEvent, InstallFile, InstallGame,
    InstallGameEvent, InstallGameRequest, InstallManifest, InstallProgress, InstallRun, Job,
    RunEvent,
};
use bottles_server::library::uninstall::{UninstallEvent, UninstallGame};
use bottles_server::machine::Machine;
use bottles_server::registry::{Reach, Storefront, StorefrontRef};
use bottles_server::status::{Code, Status};

const ID: u128 = 0x936da01f_9abd_4d9d_80c7_02af85c822a8;
const ID_TEXT: &str = "936da01f-9abd-4d9d-80c7-02af85c822a8";

fn gog() -> StorefrontRef {
    StorefrontRef { number: 2, name: Some("Gog".to_string()) }
}

fn unknown() -> StorefrontRef {
    StorefrontRef { number: 99, name: None }
}

fn request(storefront: StorefrontRef, bottle_id: &str) -> InstallGameRequest {
    InstallGameRequest {
        profile_id: "p".to_string(),
        storefront,
        game_id: "g".to_string(),
        bottle_id: bottle_id.to_string(),
    }
}

fn status(text: &str) -> Status {
    Status::with(Code::DataLoss, text)
}

fn manifest(executable: Option<&str>, size: Option<u64>) -> InstallManifest {
    InstallManifest {
        install_directory: "Game".to_string(),
        version: "1.2".to_string(),
        primary_executable: executable.map(str::to_string),
        install_size_bytes: size,
        files: vec![InstallFile {
            relative_path: "a.bin".to_string(),
            chunks: vec![InstallChunk { download_url: "http://u".to_string(), compressed: true }],
        }],
    }
}

fn prepared(executable: Option<&str>, size: Option<u64>) -> Job {
    let call = InstallGame::begin(request(gog(), ID_TEXT))
        .step(InstallEvent::Opened(Ok(())))
        .step(InstallEvent::Reached(Reach::Connected))
        .step(InstallEvent::Manifest(Ok(manifest(executable, size))))
        .step(InstallEvent::Staging(Ok(())));
    match call {
        InstallGame::Download(plan, job) => {
            assert_eq!(plan.install_root, "Program Files/Game");
            assert_eq!(plan.key.profile_id, "p");
            assert_eq!(plan.key.storefront, 2);
            assert_eq!(plan.key.game_id, "g");
            assert_eq!(plan.files.len(), 1);
            assert_eq!(plan.files[0].relative_path, "a.bin");
            assert_eq!(plan.files[0].chunks[0].download_url, "http://u");
            assert!(plan.files[0].chunks[0].compressed);
            job
        }
        call => panic!("{call:?}"),
    }
}

#[test]
fn installation_is_checked_before_anything_is_downloaded() {
    match InstallGame::begin(request(unknown(), "bad")) {
        InstallGame::Refuse(s) => {
            assert_eq!((s.code, s.message.as_str()), (Code::InvalidArgument, "invalid storefront"))
        }
        call => panic!("{call:?}"),
    }
    match InstallGame::begin(request(gog(), "bad")) {
        InstallGame::Refuse(s) => {
            assert_eq!((s.code, s.message.as_str()), (Code::InvalidArgument, "invalid bottle_id"))
        }
        call => panic!("{call:?}"),
    }
    match InstallGame::begin(request(gog(), ID_TEXT)) {
        InstallGame::OpenBottle(_, storefront, id) => {
            assert_eq!((storefront.number, storefront.name.as_str(), id), (2, "Gog", ID))
        }
        call => panic!("{call:?}"),
    }
}

fn refused(call: InstallGame) -> Status {
    match call {
        InstallGame::Refuse(status) => status,
        call => panic!("{call:?}"),
    }
}

#[test]
fn each_step_of_the_preparation_can_refuse() {
    let begun = || InstallGame::begin(request(gog(), ID_TEXT));
    assert_eq!(refused(begun().step(InstallEvent::Opened(Err(status("gone"))))).message, "gone");
    let opened = || begun().step(InstallEvent::Opened(Ok(())));
    let s = refused(opened().step(InstallEvent::Reached(Reach::Absent)));
    assert_eq!((s.code, s.message.as_str()), (Code::Unavailable, "no plugin registered for Gog"));
    let s = refused(opened().step(InstallEvent::Reached(Reach::Failed(status("dial")))));
    assert_eq!((s.code, s.message.as_str()), (Code::DataLoss, "dial"));
    let reached = || opened().step(InstallEvent::Reached(Reach::Connected));
    assert_eq!(refused(reached().step(InstallEvent::Manifest(Err(status("m"))))).message, "m");
    let fetched = || reached().step(InstallEvent::Manifest(Ok(manifest(None, None))));
    assert_eq!(refused(fetched().step(InstallEvent::Staging(Err(status("s"))))).message, "s");
}

#[test]
fn cancelling_uses_the_key_of_the_download() {
    let key = request(unknown(), "whatever").key();
    assert_eq!((key.profile_id.as_str(), key.storefront, key.game_id.as_str()), ("p", 99, "g"));
}

#[test]
fn launch_programs_are_named_after_their_executable() {
    let program = launch_program("Program Files/Game/My Game.exe", "g");
    assert_eq!(program.name, "My Game");
    assert_eq!(program.windows_path, "C:\\Program Files\\Game\\My Game.exe");
    let program = launch_program("..", "g");
    assert_eq!((program.name.as_str(), program.windows_path.as_str()), ("g", "C:\\.."));
}

type Run = InstallRun<&'static str>;

fn done(paths: &[&str]) -> RunEvent<&'static str> {
    RunEvent::Item(Some(Ok(DownloadItem::Done(Downloaded {
        relative_paths: paths.iter().map(|p| p.to_string()).collect(),
        install_size_bytes: 500,
    }))))
}

fn registering(run: Run) -> (String, Run) {
    match run {
        InstallRun::Register(job, files, program) => {
            (program.windows_path.clone(), InstallRun::Register(job, files, program))
        }
        run => panic!("{run:?}"),
    }
}

#[test]
fn manifest_names_the_launch_executable() {
    let run = Run::begin(prepared(Some("bin/epic.exe"), Some(9)))
        .step(done(&["Program Files/Game/goggame-1.info", "Program Files/Game/Game.exe"]));
    let (path, run) = registering(run);
    assert_eq!(path, "C:\\bin\\epic.exe");
    match run.step(RunEvent::Registered(Some(ID))) {
        InstallRun::Record(_, record) => {
            assert_eq!(record.program_id.as_deref(), Some(ID_TEXT));
            assert_eq!(record.install_size_bytes, Some(9));
            assert_eq!(record.version, "1.2");
            assert_eq!(record.bottle_id, ID_TEXT);
            assert_eq!((record.profile_id.as_str(), record.storefront), ("p", 2));
            assert_eq!(record.game_id, "g");
            assert_eq!(record.relative_paths.len(), 2);
        }
        run => panic!("{run:?}"),
    }
}

#[test]
fn goggame_document_is_read_before_guessing() {
    let files = ["Program Files/Game/Game.exe", "Program Files/Game/goggame-1.info"];
    let run = Run::begin(prepared(None, None)).step(done(&files));
    match &run {
        InstallRun::ReadInfo(_, _, path) => assert_eq!(path, "Program Files/Game/goggame-1.info"),
        run => panic!("{run:?}"),
    }
    let document = br#"{"playTasks": [{"isPrimary": true, "path": "bin\\real.exe"}]}"#;
    let (path, _) = registering(run.step(RunEvent::Read(Some(document.to_vec()))));
    assert_eq!(path, "C:\\Program Files\\Game\\bin\\real.exe");
}

#[test]
fn unreadable_goggame_document_leaves_the_guess() {
    for bytes in [None, Some(b"junk".to_vec())] {
        let files = ["Program Files/Game/Game.exe", "Program Files/Game/goggame-1.info"];
        let run = Run::begin(prepared(None, None)).step(done(&files)).step(RunEvent::Read(bytes));
        assert_eq!(registering(run).0, "C:\\Program Files\\Game\\Game.exe");
    }
}

#[test]
fn game_without_a_launch_executable_is_recorded_without_a_program() {
    match Run::begin(prepared(None, None)).step(done(&["Program Files/Game/data"])) {
        InstallRun::Record(_, record) => {
            assert_eq!(record.program_id, None);
            assert_eq!(record.install_size_bytes, Some(500));
        }
        run => panic!("{run:?}"),
    }
}

#[test]
fn program_that_was_not_registered_is_not_recorded() {
    let run = Run::begin(prepared(Some("a.exe"), None)).step(done(&[]));
    match run.step(RunEvent::Registered(None)) {
        InstallRun::Record(_, record) => assert_eq!(record.program_id, None),
        run => panic!("{run:?}"),
    }
}

#[test]
fn kept_record_is_told_as_done() {
    let recording = || Run::begin(prepared(None, None)).step(done(&[]));
    let run = recording().step(RunEvent::Recorded(Ok("installed")));
    assert!(matches!(&run, InstallRun::Tell(_, Ok(InstallGameEvent::Done("installed")))));
    assert!(matches!(run.step(RunEvent::Sent(false)), InstallRun::Next(_)));
    match recording().step(RunEvent::Recorded(Err(status("disk")))) {
        InstallRun::Tell(_, Err(s)) => assert_eq!((s.code, s.message.as_str()), (Code::DataLoss, "disk")),
        run => panic!("{run:?}"),
    }
}

#[test]
fn progress_is_forwarded_until_nobody_listens() {
    let progress = || {
        RunEvent::Item(Some(Ok(DownloadItem::Progress(InstallProgress {
            current_file: "f".to_string(),
            bytes_downloaded: 1,
            total_bytes: 2,
            bytes_per_second: 3,
        }))))
    };
    let run = Run::begin(prepared(None, None)).step(progress());
    match &run {
        InstallRun::Report(_, p) => {
            assert_eq!((p.current_file.as_str(), p.bytes_downloaded), ("f", 1));
            assert_eq!((p.total_bytes, p.bytes_per_second), (2, 3));
        }
        run => panic!("{run:?}"),
    }
    let run = run.step(RunEvent::Sent(true)).step(progress());
    assert!(matches!(run.step(RunEvent::Sent(false)), InstallRun::Stopped));
}

#[test]
fn failure_of_a_download_is_told_and_the_rest_goes_on() {
    let run = Run::begin(prepared(None, None)).step(RunEvent::Item(Some(Err("no space".to_string()))));
    match &run {
        InstallRun::Tell(_, Err(s)) => {
            assert_eq!((s.code, s.message.as_str()), (Code::Internal, "no space"))
        }
        run => panic!("{run:?}"),
    }
    let run = run.step(RunEvent::Sent(true));
    assert!(matches!(run.step(RunEvent::Item(None)), InstallRun::Stopped));
}

#[test]
fn uninstalling_opens_the_recorded_bottle() {
    let begun = || UninstallGame::begin(request(gog(), "ignored"));
    let call = begun().step(UninstallEvent::Found(Some(ID_TEXT.to_string())));
    assert!(matches!(&call, UninstallGame::OpenBottle(_, _, id) if *id == ID));
    let call = call.step(UninstallEvent::Opened(true));
    assert!(matches!(&call, UninstallGame::Remove(r, s, true) if r.game_id == "g" && s.number == 2));
    assert!(matches!(call.step(UninstallEvent::Removed(Ok(()))), UninstallGame::Done(Ok(()))));
    let call = begun().step(UninstallEvent::Found(Some(ID_TEXT.to_string())));
    assert!(matches!(call.step(UninstallEvent::Opened(false)), UninstallGame::Remove(_, _, false)));
}

#[test]
fn uninstalling_goes_on_without_a_bottle() {
    for found in [None, Some("bad".to_string())] {
        let call = UninstallGame::begin(request(gog(), ID_TEXT)).step(UninstallEvent::Found(found));
        assert!(matches!(&call, UninstallGame::Remove(_, _, false)));
        match call.step(UninstallEvent::Removed(Err(status("stuck")))) {
            UninstallGame::Done(Err(s)) => assert_eq!(s.message, "stuck"),
            call => panic!("{call:?}"),
        }
    }
    match UninstallGame::begin(request(unknown(), ID_TEXT)) {
        UninstallGame::Done(Err(s)) => assert_eq!(s.message, "invalid storefront"),
        call => panic!("{call:?}"),
    }
}

fn account(name: &str, number: i32, auth_state: AuthState) -> LinkedAccount {
    LinkedAccount { storefront: Storefront { number, name: name.to_string() }, auth_state }
}

fn accounts() -> Vec<LinkedAccount> {
    vec![
        account("Epic", 1, AuthState::Active),
        account("Stale", 5, AuthState::Other(2)),
        account("Gog", 2, AuthState::Active),
        account("Amazon", 3, AuthState::Active),
    ]
}

fn game(id: &str, storefront: StorefrontRef) -> Game<u8, char> {
    Game { id: id.to_string(), storefront, install_state: None, details: 'd' }
}

fn reaching(call: ListGames<u8, char>, expected: &str) -> ListGames<u8, char> {
    match call {
        ListGames::Reach(listing, storefront) => {
            assert_eq!(storefront.name, expected);
            ListGames::Reach(listing, storefront)
        }
        call => panic!("{call:?}"),
    }
}

#[test]
fn games_are_listed_across_the_storefronts_that_answer() {
    let call = ListGames::begin("p".to_string()).step(ListEvent::Profile(Ok(accounts())));
    let call = reaching(call, "Epic").step(ListEvent::Reached(Reach::Connected));
    assert!(matches!(&call, ListGames::List(listing, s) if s.number == 1 && listing.profile_id == "p"));
    let call = call.step(ListEvent::Listed(Ok(vec![game("e1", gog()), game("e2", unknown())])));
    let call = reaching(call, "Gog").step(ListEvent::Reached(Reach::Absent));
    let call = reaching(call, "Amazon").step(ListEvent::Reached(Reach::Connected));
    let call = call.step(ListEvent::Listed(Ok(vec![game("a1", gog())])));
    let call = match call {
        ListGames::Lookup(marking, game, storefront) => {
            assert_eq!((game.id.as_str(), storefront.number), ("e1", 2));
            assert_eq!(marking.profile_id, "p");
            ListGames::Lookup(marking, game, storefront)
        }
        call => panic!("{call:?}"),
    };
    let call = call.step(ListEvent::Record(Some(7)));
    assert!(matches!(&call, ListGames::Lookup(_, game, _) if game.id == "a1"));
    match call.step(ListEvent::Record(None)) {
        ListGames::Done(Ok(games)) => {
            let shown: Vec<(&str, Option<u8>)> =
                games.iter().map(|g| (g.id.as_str(), g.install_state)).collect();
            assert_eq!(shown, vec![("e1", Some(7)), ("e2", None), ("a1", None)]);
        }
        call => panic!("{call:?}"),
    }
}

#[test]
fn failing_plugins_leave_an_empty_list() {
    let call = ListGames::<u8, char>::begin("p".to_string()).step(ListEvent::Profile(Ok(accounts())));
    let call = call.step(ListEvent::Reached(Reach::Failed(status("dial"))));
    let call = reaching(call, "Gog").step(ListEvent::Reached(Reach::Connected));
    let call = reaching(call.step(ListEvent::Listed(Err(status("no")))), "Amazon");
    match call.step(ListEvent::Reached(Reach::Absent)) {
        ListGames::Done(Ok(games)) => assert!(games.is_empty()),
        call => panic!("{call:?}"),
    }
}

#[test]
fn list_of_an_unknown_profile_fails() {
    let call = ListGames::<u8, char>::begin("p".to_string());
    match call.step(ListEvent::Profile(Err(status("unknown")))) {
        ListGames::Done(Err(s)) => assert_eq!(s.message, "unknown"),
        call => panic!("{call:?}"),
    }
}

#[test]
fn reached_storefronts_are_watched() {
    let call = WatchGames::begin("p".to_string()).step(WatchEvent::Profile(Ok(accounts())));
    let call = call.step(WatchEvent::Reached(Reach::Connected));
    assert!(matches!(&call, WatchGames::Forward(w, s) if s.name == "Epic" && w.profile_id == "p"));
    let call = call.step(WatchEvent::Forwarding);
    assert!(matches!(&call, WatchGames::Reach(_, s) if s.name == "Gog"));
    let call = call.step(WatchEvent::Reached(Reach::Absent));
    let call = call.step(WatchEvent::Reached(Reach::Failed(status("x"))));
    assert!(matches!(call, WatchGames::Done(Ok(()))));
    let call = WatchGames::begin("p".to_string()).step(WatchEvent::Profile(Err(status("u"))));
    assert!(matches!(call, WatchGames::Done(Err(s)) if s.message == "u"));
}
