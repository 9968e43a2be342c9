use bottles_server::machine::Machine;
use bottles_server::prefix::{
    capture_layer, core_status, env_path, launched, layers_status, prepare_prefix, to_layers,
    winebridge_addr, LaunchEvent, LaunchInPrefix, LaunchInPrefixRequest, Layer, Notify, NotifyEvent,
    Sessions, DEFAULT_WINEBRIDGE_ADDR,
};
use bottles_server::status::{Code, CoreError, ErrorKind, Status};

fn failure() -> CoreError {
    CoreError {
        kind: ErrorKind::Status(Status::with(Code::NotFound, "theirs")),
        message: "it broke".to_string(),
    }
}

#[test]
fn winebridge_is_found_where_the_environment_says() {
    assert_eq!(winebridge_addr(Some("http://h:1".to_string())), "http://h:1");
    assert_eq!(winebridge_addr(None), "http://127.0.0.1:50051");
    assert_eq!(DEFAULT_WINEBRIDGE_ADDR, "http://127.0.0.1:50051");
}

#[test]
fn missing_variable_is_named() {
    assert_eq!(env_path("WINE_BIN", Some("/wine".to_string())).unwrap(), "/wine");
    let status = env_path("WINE_BIN", None).unwrap_err();
    assert_eq!(status.code, Code::FailedPrecondition);
    assert_eq!(status.message, "WINE_BIN not set");
}

#[test]
fn failures_below_a_prefix_are_internal() {
    let status = layers_status("mount".to_string());
    assert_eq!((status.code, status.message.as_str()), (Code::Internal, "mount"));
    let status = core_status(failure());
    assert_eq!((status.code, status.message.as_str()), (Code::Internal, "it broke"));
}

#[test]
fn layers_keep_their_order_and_state() {
    let refs = to_layers(&[
        Layer { repo: "/virgo".to_string(), state: None },
        Layer { repo: "/dep".to_string(), state: Some("abc".to_string()) },
    ]);
    assert_eq!(refs.len(), 2);
    assert_eq!((refs[0].repo.as_str(), refs[0].state.as_deref()), ("/virgo", None));
    assert_eq!((refs[1].repo.as_str(), refs[1].state.as_deref()), ("/dep", Some("abc")));
}

#[test]
fn prepared_prefixes_are_held_until_they_are_released() {
    let mut sessions = Sessions::new();
    let first = prepare_prefix(&mut sessions, Ok(('a', "/mnt1".to_string()))).unwrap();
    assert_eq!((first.session_id, first.mountpoint.as_str()), (0, "/mnt1"));
    let failed = prepare_prefix(&mut sessions, Err("busy".to_string())).unwrap_err();
    assert_eq!((failed.code, failed.message.as_str()), (Code::Internal, "busy"));
    let second = launched(&mut sessions, Ok(('b', "/mnt2".to_string(), 321))).unwrap();
    assert_eq!((second.session_id, second.mountpoint.as_str(), second.pid), (1, "/mnt2", 321));
    assert_eq!(launched::<char>(&mut sessions, Err(failure())).unwrap_err().message, "it broke");
    assert!(sessions.release(0));
    assert!(!sessions.release(0));
    assert!(sessions.release(1));
    assert!(!sessions.release(2));
    assert_eq!(sessions.insert('c'), 2);
}

#[test]
fn captured_layer_is_answered_with_a_yes() {
    assert!(capture_layer(Ok(())).unwrap());
    let status = capture_layer(Err("diff".to_string())).unwrap_err();
    assert_eq!((status.code, status.message.as_str()), (Code::Internal, "diff"));
}

fn request() -> LaunchInPrefixRequest {
    LaunchInPrefixRequest {
        lowers: vec![Layer { repo: "/virgo".to_string(), state: None }],
        upper: "/up".to_string(),
        mountpoint: "/mnt".to_string(),
        executable: "game.exe".to_string(),
        args: vec!["-w".to_string()],
        terminal: true,
        work_dir: Some("/work".to_string()),
    }
}

#[test]
fn program_is_launched_once_wine_and_winebridge_are_found() {
    let call = LaunchInPrefix::begin(request()).step(LaunchEvent::Env(Some("/wine".to_string())));
    assert!(matches!(&call, LaunchInPrefix::OpenWine(_, path) if path == "/wine"));
    let call = call.step(LaunchEvent::Wine(Ok(()))).step(LaunchEvent::Env(Some("/bridge".to_string())));
    match call {
        LaunchInPrefix::Launch(plan) => {
            assert_eq!(plan.winebridge, "/bridge");
            assert_eq!((plan.lowers.len(), plan.lowers[0].repo.as_str()), (1, "/virgo"));
            assert_eq!((plan.upper.as_str(), plan.mountpoint.as_str()), ("/up", "/mnt"));
            assert_eq!(plan.executable, "game.exe");
            assert_eq!(plan.args, vec!["-w".to_string()]);
            assert!(plan.terminal);
            assert_eq!(plan.work_dir.as_deref(), Some("/work"));
        }
        call => panic!("{call:?}"),
    }
}

fn refused(call: LaunchInPrefix) -> Status {
    match call {
        LaunchInPrefix::Refuse(status) => status,
        call => panic!("{call:?}"),
    }
}

#[test]
fn launch_is_refused_without_wine_or_winebridge() {
    let begun = || LaunchInPrefix::begin(request());
    let status = refused(begun().step(LaunchEvent::Env(None)));
    assert_eq!((status.code, status.message.as_str()), (Code::FailedPrecondition, "WINE_BIN not set"));
    let found = || begun().step(LaunchEvent::Env(Some("/wine".to_string())));
    let status = refused(found().step(LaunchEvent::Wine(Err(failure()))));
    assert_eq!((status.code, status.message.as_str()), (Code::Internal, "it broke"));
    let status = refused(found().step(LaunchEvent::Wine(Ok(()))).step(LaunchEvent::Env(None)));
    assert_eq!(
        (status.code, status.message.as_str()),
        (Code::FailedPrecondition, "WINEBRIDGE_BIN not set")
    );
}

#[test]
fn messages_are_passed_on_to_winebridge() {
    let call = Notify::begin(None, "hi".to_string());
    assert!(matches!(
        &call,
        Notify::Connect(addr, text) if addr == "http://127.0.0.1:50051" && text == "hi"
    ));
    let call = call.step(NotifyEvent::Connected(Ok(())));
    assert!(matches!(&call, Notify::Send(text) if text == "hi"));
    assert!(matches!(call.step(NotifyEvent::Sent(Ok(false))), Notify::Done(Ok(false))));
    let failed = Notify::begin(None, "hi".to_string())
        .step(NotifyEvent::Connected(Err(Status::with(Code::Unavailable, "down"))));
    assert!(matches!(failed, Notify::Done(Err(s)) if s.message == "down"));
}
