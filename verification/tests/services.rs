use bottles_server::accounts::{
    LinkAccount, LinkAccountRequest, LinkEvent, UnlinkAccount, UnlinkAccountRequest, UnlinkEvent,
};
use bottles_server::machine::Machine;
use bottles_server::profile::{
    answer, ActivateEvent, ActivateProfile, ActivateProfileRequest, ActivationOutcome,
};
use bottles_server::proxy::{unrouted, ProxyCall, ProxyEvent, Unrouted};
use bottles_server::registry::{
    parse_storefront, require, Dial, DialEvent, Reach, Storefront, StorefrontRef,
};
use bottles_server::relay::{Relay, RelayEvent};
use bottles_server::status::{Code, CoreError, ErrorKind, ProfileError, Status};
use bottles_server::steam::{
    to_event, LinkSteamAccount, LinkSteamAccountRequest, LinkSteamEvent, SteamUser,
};

fn epic() -> StorefrontRef {
    StorefrontRef { number: 1, name: Some("EpicGames".to_string()) }
}

fn numbered(number: i32) -> StorefrontRef {
    StorefrontRef { number, name: Some(format!("Store{number}")) }
}

fn unknown() -> StorefrontRef {
    StorefrontRef { number: 99, name: None }
}

fn status(text: &str) -> Status {
    Status::with(Code::DataLoss, text)
}

fn failure(kind: ErrorKind) -> CoreError {
    CoreError { kind, message: "it broke".to_string() }
}

fn says(status: &Status, code: Code, text: &str) -> bool {
    status.code == code && status.message == text
}

#[test]
fn storefronts_are_known_by_name() {
    let known = parse_storefront(&epic()).unwrap();
    assert_eq!((known.number, known.name.as_str()), (1, "EpicGames"));
    let refused = parse_storefront(&unknown()).unwrap_err();
    assert!(says(&refused, Code::InvalidArgument, "invalid storefront"));
}

fn dialled(events: Vec<DialEvent>) -> Reach {
    let mut dial = Dial::begin(Storefront { number: 1, name: "EpicGames".to_string() });
    for event in events {
        dial = dial.step(event);
    }
    match dial {
        Dial::Done(reach) => reach,
        dial => panic!("{dial:?}"),
    }
}

#[test]
fn registry_gives_the_endpoint_to_dial() {
    let dial = Dial::begin(Storefront { number: 1, name: "EpicGames".to_string() });
    assert!(matches!(&dial, Dial::Resolve(s) if s.number == 1));
    let dial = dial.step(DialEvent::Resolved(Ok(Some("http://x".to_string()))));
    assert!(matches!(&dial, Dial::Connect(_, endpoint) if endpoint == "http://x"));
    assert!(matches!(dial.step(DialEvent::Connected(None)), Dial::Done(Reach::Connected)));
    assert!(matches!(dialled(vec![DialEvent::Resolved(Ok(None))]), Reach::Absent));
    assert!(matches!(
        dialled(vec![DialEvent::Resolved(Err(status("down")))]),
        Reach::Failed(s) if s.message == "down"
    ));
}

#[test]
fn failed_dial_names_the_plugin_and_its_endpoint() {
    let reach = dialled(vec![
        DialEvent::Resolved(Ok(Some("http://x".to_string()))),
        DialEvent::Connected(Some("refused".to_string())),
    ]);
    assert!(matches!(
        reach,
        Reach::Failed(s) if says(&s, Code::Unavailable, "failed to dial EpicGames plugin at http://x: refused")
    ));
}

#[test]
fn missing_plugin_refuses_a_call_that_needs_it() {
    let storefront = Storefront { number: 1, name: "EpicGames".to_string() };
    assert!(require(&storefront, Reach::Connected).is_ok());
    let refused = require(&storefront, Reach::Absent).unwrap_err();
    assert!(says(&refused, Code::Unavailable, "no plugin registered for EpicGames"));
    assert_eq!(require(&storefront, Reach::Failed(status("x"))).unwrap_err().message, "x");
}

fn link_request(storefront: StorefrontRef) -> LinkAccountRequest {
    LinkAccountRequest {
        profile_id: "p".to_string(),
        storefront,
        challenge_id: "c".to_string(),
        user_input: "code".to_string(),
    }
}

#[test]
fn account_is_linked_after_its_login() {
    let call = LinkAccount::<u8>::begin(link_request(epic()));
    let call = call.step(LinkEvent::Profile(Ok(()))).step(LinkEvent::Reached(Reach::Connected));
    let call = match call {
        LinkAccount::CompleteLogin(login) => {
            assert_eq!((login.challenge_id.as_str(), login.profile_id.as_str()), ("c", "p"));
            assert_eq!((login.storefront, login.user_input.as_str()), (1, "code"));
            LinkAccount::CompleteLogin(login)
        }
        _ => panic!("no login"),
    };
    let call = call.step(LinkEvent::Login(Ok(42)));
    assert!(matches!(&call, LinkAccount::Attach(profile, 42) if profile == "p"));
    assert!(matches!(call.step(LinkEvent::Attached(Ok(()))), LinkAccount::Done(Ok(42))));
}

#[test]
fn login_is_not_spent_on_a_missing_profile() {
    let call = LinkAccount::<u8>::begin(link_request(unknown()));
    let missing = failure(ErrorKind::Profile(ProfileError::NotFound));
    assert!(matches!(
        call.step(LinkEvent::Profile(Err(missing))),
        LinkAccount::Done(Err(s)) if says(&s, Code::NotFound, "it broke")
    ));
}

#[test]
fn linking_fails_where_a_step_fails() {
    let begun = |s| LinkAccount::<u8>::begin(link_request(s)).step(LinkEvent::Profile(Ok(())));
    assert!(matches!(begun(unknown()), LinkAccount::Done(Err(s)) if s.message == "invalid storefront"));
    assert!(matches!(
        begun(epic()).step(LinkEvent::Reached(Reach::Absent)),
        LinkAccount::Done(Err(s)) if says(&s, Code::Unavailable, "no plugin registered for EpicGames")
    ));
    let reached = || begun(epic()).step(LinkEvent::Reached(Reach::Connected));
    assert!(matches!(
        reached().step(LinkEvent::Login(Err(status("denied")))),
        LinkAccount::Done(Err(s)) if s.message == "denied"
    ));
    let linked = failure(ErrorKind::Profile(ProfileError::SteamAccountAlreadyLinked));
    assert!(matches!(
        reached().step(LinkEvent::Login(Ok(1))).step(LinkEvent::Attached(Err(linked))),
        LinkAccount::Done(Err(s)) if s.code == Code::Internal
    ));
}

#[test]
fn account_is_unlinked_whatever_its_plugin_does() {
    let begin = |storefront| {
        UnlinkAccount::begin(UnlinkAccountRequest { profile_id: "p".to_string(), storefront })
    };
    let detaching = |call: &UnlinkAccount| {
        matches!(call, UnlinkAccount::Detach(r) if r.profile_id == "p")
    };
    assert!(detaching(&begin(unknown())));
    assert!(detaching(&begin(epic()).step(UnlinkEvent::Reached(Reach::Absent))));
    assert!(detaching(&begin(epic()).step(UnlinkEvent::Reached(Reach::Failed(status("x"))))));
    let revoking = || begin(epic()).step(UnlinkEvent::Reached(Reach::Connected));
    assert!(matches!(revoking(), UnlinkAccount::Revoke(_)));
    assert!(detaching(&revoking().step(UnlinkEvent::Revoked(Ok(())))));
    let call = revoking().step(UnlinkEvent::Revoked(Err(status("x"))));
    assert!(detaching(&call));
    assert!(matches!(call.step(UnlinkEvent::Detached(Ok(()))), UnlinkAccount::Done(Ok(()))));
    let missing = failure(ErrorKind::Profile(ProfileError::NotFound));
    assert!(matches!(
        begin(unknown()).step(UnlinkEvent::Detached(Err(missing))),
        UnlinkAccount::Done(Err(s)) if s.code == Code::NotFound
    ));
}

#[test]
fn failures_of_the_profile_store_have_their_codes() {
    let code = |kind| answer::<u8>(Err(failure(kind))).unwrap_err().code;
    assert_eq!(code(ErrorKind::Profile(ProfileError::NotFound)), Code::NotFound);
    assert_eq!(code(ErrorKind::Profile(ProfileError::SteamAccountAlreadyLinked)), Code::AlreadyExists);
    assert_eq!(code(ErrorKind::Profile(ProfileError::Other)), Code::Internal);
    assert_eq!(code(ErrorKind::Status(status("x"))), Code::DataLoss);
    assert_eq!(answer(Ok(3)).unwrap(), 3);
}

type Activate = ActivateProfile<&'static str, u8>;

#[test]
fn activation_reports_on_every_known_account() {
    let request = ActivateProfileRequest { profile_id: "p".to_string(), only: vec![] };
    let accounts = vec![numbered(1), unknown(), numbered(2), numbered(3), numbered(4), unknown()];
    let call = Activate::begin(request).step(ActivateEvent::Selected(Ok(accounts)));
    let call = call.step(ActivateEvent::Reached(Reach::Connected));
    assert!(matches!(&call, ActivateProfile::Refresh(run, s) if s.number == 1 && run.profile_id == "p"));
    let call = call.step(ActivateEvent::Refreshed(Ok(10)));
    let call = call.step(ActivateEvent::Reached(Reach::Connected));
    let call = call.step(ActivateEvent::Refreshed(Err(status("expired"))));
    let call = call.step(ActivateEvent::Reached(Reach::Absent));
    let call = call.step(ActivateEvent::Reached(Reach::Failed(status("dial"))));
    let call = match call {
        ActivateProfile::Apply(run) => {
            assert_eq!(run.updates.len(), 2);
            assert_eq!(run.updates.get(&1), Some(&Some(10)));
            assert_eq!(run.updates.get(&2), Some(&None));
            ActivateProfile::Apply(run)
        }
        _ => panic!("not to be stored"),
    };
    match call.step(ActivateEvent::Applied(Ok("profile"))) {
        ActivateProfile::Done(Ok(("profile", results))) => {
            let shown: Vec<(i32, ActivationOutcome, &str)> =
                results.iter().map(|r| (r.storefront, r.outcome, r.detail.as_str())).collect();
            assert_eq!(
                shown,
                vec![
                    (1, ActivationOutcome::Success, ""),
                    (2, ActivationOutcome::CredentialStale, "expired"),
                    (3, ActivationOutcome::PluginUnavailable, "no plugin registered for Store3"),
                    (4, ActivationOutcome::NetworkError, "dial"),
                ]
            );
        }
        _ => panic!("not done"),
    }
}

#[test]
fn activation_fails_with_the_profile_store() {
    let begun = || Activate::begin(ActivateProfileRequest { profile_id: "p".to_string(), only: vec![1] });
    let missing = || failure(ErrorKind::Profile(ProfileError::NotFound));
    assert!(matches!(
        begun().step(ActivateEvent::Selected(Err(missing()))),
        ActivateProfile::Done(Err(s)) if s.code == Code::NotFound
    ));
    let applying = begun().step(ActivateEvent::Selected(Ok(vec![])));
    assert!(matches!(
        applying.step(ActivateEvent::Applied(Err(missing()))),
        ActivateProfile::Done(Err(s)) if s.code == Code::NotFound
    ));
}

#[test]
fn calls_are_passed_on_to_the_plugin() {
    let call = ProxyCall::<&str, u8>::begin("request", &epic());
    let call = call.step(ProxyEvent::Reached(Reach::Connected));
    assert!(matches!(call, ProxyCall::Forward("request")));
    assert!(matches!(call.step(ProxyEvent::Answered(Ok(5))), ProxyCall::Done(Ok(5))));
    let call = ProxyCall::<&str, u8>::Forward("request");
    assert!(matches!(
        call.step(ProxyEvent::Answered(Err(status("theirs")))),
        ProxyCall::Done(Err(s)) if says(&s, Code::DataLoss, "theirs")
    ));
    let call = ProxyCall::<&str, u8>::begin("request", &epic());
    assert!(matches!(
        call.step(ProxyEvent::Reached(Reach::Absent)),
        ProxyCall::Done(Err(s)) if says(&s, Code::Unavailable, "no plugin registered for EpicGames")
    ));
    assert!(matches!(
        ProxyCall::<&str, u8>::begin("request", &unknown()),
        ProxyCall::Done(Err(s)) if says(&s, Code::InvalidArgument, "invalid storefront")
    ));
}

#[test]
fn calls_without_a_storefront_are_not_implemented() {
    assert!(says(
        &unrouted(Unrouted::ListGames),
        Code::Unimplemented,
        "call Library.ListGames for an aggregate view across storefronts"
    ));
    assert!(says(
        &unrouted(Unrouted::WatchGames),
        Code::Unimplemented,
        "call Library.WatchGames for an aggregate view across storefronts"
    ));
    assert!(says(
        &unrouted(Unrouted::GetInstallManifest),
        Code::Unimplemented,
        "call Library.InstallGame, which resolves the owning plugin itself"
    ));
}

#[test]
fn streams_are_forwarded_until_they_end_or_nobody_listens() {
    let relay = Relay::<u8>::begin(true).step(RelayEvent::Item(Some(1)));
    assert!(matches!(relay, Relay::Send(1)));
    let relay = relay.step(RelayEvent::Sent(true));
    assert!(matches!(relay, Relay::Next));
    assert!(matches!(relay.step(RelayEvent::Item(None)), Relay::Stopped));
    assert!(matches!(Relay::<u8>::Send(2).step(RelayEvent::Sent(false)), Relay::Stopped));
    assert!(matches!(Relay::<u8>::begin(false), Relay::Stopped));
}

#[test]
fn steam_account_is_linked_with_or_without_a_name() {
    for (name, expected) in [(Some("gordon".to_string()), "gordon"), (None, "")] {
        let call = LinkSteamAccount::begin(LinkSteamAccountRequest {
            profile_id: "p".to_string(),
            steam_id64: "765".to_string(),
            auto_activate: true,
        });
        let call = call.step(LinkSteamEvent::Name(name));
        match &call {
            LinkSteamAccount::Link(profile, link) => {
                assert_eq!((profile.as_str(), link.steam_id64.as_str()), ("p", "765"));
                assert_eq!(link.account_name, expected);
            }
            call => panic!("{call:?}"),
        }
        match call.step(LinkSteamEvent::Linked(Ok(()))) {
            LinkSteamAccount::Done(Ok(link)) => assert_eq!(link.account_name, expected),
            call => panic!("{call:?}"),
        }
    }
}

#[test]
fn steam_account_of_another_profile_is_not_linked() {
    let call = LinkSteamAccount::begin(LinkSteamAccountRequest {
        profile_id: "p".to_string(),
        steam_id64: "765".to_string(),
        auto_activate: false,
    });
    let taken = failure(ErrorKind::Profile(ProfileError::SteamAccountAlreadyLinked));
    assert!(matches!(
        call.step(LinkSteamEvent::Name(None)).step(LinkSteamEvent::Linked(Err(taken))),
        LinkSteamAccount::Done(Err(s)) if says(&s, Code::AlreadyExists, "it broke")
    ));
}

#[test]
fn steam_users_are_told_of_as_they_are() {
    let event = to_event(SteamUser {
        steam_id64: "765".to_string(),
        account_name: "gordon".to_string(),
        is_active: true,
    });
    assert_eq!((event.steam_id64.as_str(), event.account_name.as_str()), ("765", "gordon"));
    assert!(event.is_active);
}

#[test]
fn forwarded_items_are_those_of_the_stream() {
    let mut stream = vec!['a', 'b', 'c'].into_iter();
    let mut taken = Vec::new();
    let mut relay = Relay::begin(true);
    loop {
        let event = match &relay {
            Relay::Next => RelayEvent::Item(stream.next()),
            Relay::Send(item) => {
                taken.push(*item);
                RelayEvent::Sent(true)
            }
            Relay::Stopped => break,
        };
        relay = relay.step(event);
    }
    assert_eq!(taken, vec!['a', 'b', 'c']);
}
