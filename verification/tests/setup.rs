use filament::candidates::Inbound;
use filament::send_loop::{
    channel_ready, code_failed, code_minutes, device_appeared, establish_check, full_code,
    is_ceremony, is_stalled, is_stranger, lost_receiver, next_wait, offers_remembering,
    proves_again, stalled_error, vacate, Appeared, AuthStep, CodeFailed, Proving, ReadyStep,
    ReadyView, SendAuth, Wait, CLAIM_WAIT, ESTABLISH_WAIT, SLICE,
};
use filament::setup::{
    answered, asks_code, asks_device, asks_introduction, cancels, check_code, check_path,
    check_run, check_target, checks_first, comes_from, device_menu, find_device, goes_to, is_alike, leads_receive,
    name_warning, offered_name, picked_device, receive_again, relation_of, resolve_target,
    room_filter, send_again, time_limit, PathCheck, Payload, Relation, SendAsked, Target, TargetView,
};
use filament::shared_defs::SECOND;
use serde_json::Value;

fn sent(s: &str) -> Value {
    serde_json::from_str(s).unwrap()
}

fn list(v: &[&str]) -> Vec<String> {
    v.iter().map(|s| s.to_string()).collect()
}

fn asked() -> SendAsked {
    SendAsked {
        remember_only: false,
        interactive: true,
        requested: false,
        paths: true,
        use_code: false,
        to: false,
        room: false,
    }
}

#[test]
fn a_send_is_led_where_something_is_open() {
    assert!(asked().led());
    assert!(!SendAsked { use_code: true, ..asked() }.led());
    assert!(!SendAsked { to: true, ..asked() }.led());
    assert!(SendAsked { to: true, requested: true, ..asked() }.led());
    assert!(SendAsked { to: true, paths: false, ..asked() }.led());
    assert!(!SendAsked { interactive: false, ..asked() }.led());
    assert!(!SendAsked { remember_only: true, ..asked() }.led());
}

#[test]
fn a_code_is_made_where_nobody_is_asked() {
    let quiet = SendAsked { interactive: false, ..asked() };
    assert!(quiet.defaults_to_code());
    assert!(!asked().defaults_to_code());
    assert!(!SendAsked { to: true, ..quiet }.defaults_to_code());
    assert!(!SendAsked { room: true, ..quiet }.defaults_to_code());
    assert!(!SendAsked { remember_only: true, ..quiet }.defaults_to_code());
}

#[test]
fn without_paths_there_is_something_to_ask() {
    assert_eq!(asked().asks_path(), Ok(false));
    assert_eq!(SendAsked { paths: false, ..asked() }.asks_path(), Ok(true));
    assert_eq!(
        SendAsked { paths: false, interactive: false, ..asked() }.asks_path(),
        Err("nothing to send in non-interactive mode; pass a file, directory, or '-' for stdin".to_string())
    );
    assert_eq!(
        SendAsked { paths: false, interactive: false, remember_only: true, ..asked() }.asks_path(),
        Ok(false)
    );
    assert_eq!(answered(String::new()), Err("cancelled".to_string()));
    assert_eq!(answered("x".to_string()), Ok("x".to_string()));
    assert!(cancels("CANCEL") && !cancels("cancel "));
}

#[test]
fn a_path_that_is_not_there_is_asked_for_again() {
    assert!(checks_first(false, &list(&["a", "b"])));
    assert!(!checks_first(false, &list(&["a", "-"])));
    assert!(!checks_first(true, &list(&["a"])));
    assert!(!checks_first(false, &list(&[""])));
    assert!(matches!(check_path("a", None, true, 1), PathCheck::Fine));
    match check_path("a", Some("gone"), true, 1) {
        PathCheck::AskAgain { line } => assert_eq!(line, "  no such file or directory: 'a'"),
        _ => panic!("asked again"),
    }
    match check_path("a", Some("gone"), true, 2) {
        PathCheck::Fail { message } => assert_eq!(message, "cannot send 'a': gone"),
        _ => panic!("fails"),
    }
    assert!(matches!(check_path("a", Some("gone"), false, 1), PathCheck::Fail { .. }));
}

#[test]
fn devices_are_found_whatever_their_capitals() {
    assert!(is_alike("LapTop", "laptop"));
    assert!(!is_alike("straße", "STRASSE"));
    assert_eq!(find_device(&list(&["desk", "Laptop", "LAPTOP"]), "laptop"), Some(1));
    assert_eq!(find_device(&list(&["desk"]), "laptop"), None);
}

#[test]
fn an_unknown_target_is_refused() {
    let v = TargetView { indexed: false, daemon: false, opted_in: false };
    assert_eq!(check_target(&list(&["Desk"]), "desk", &v), Ok(()));
    assert_eq!(
        check_target(&list(&[]), "x", &v),
        Err("send --to 'x': no known device by that name; run `filament devices` to see who you can reach".to_string())
    );
    let fleet = TargetView { indexed: true, ..v };
    assert_eq!(
        check_target(&list(&[]), "x", &fleet),
        Err("send --to 'x': that is a fleet device, reachable on the mesh but not yet a `send` target. Use its mesh address (x.mesh) for now, or pair with it directly.".to_string())
    );
    assert_eq!(check_target(&list(&[]), "x", &TargetView { daemon: true, ..fleet }), Ok(()));
    assert_eq!(check_target(&list(&[]), "x", &TargetView { opted_in: true, ..fleet }), Ok(()));
}

#[test]
fn files_go_to_the_device_that_was_named() {
    let none = TargetView { indexed: false, daemon: false, opted_in: false };
    let fleet = TargetView { indexed: true, ..none };
    let (d, s) = (list(&["Desk"]), list(&["sec"]));
    assert!(matches!(resolve_target(None, None, &d, &s, None, &none), Ok(Target::Anyone)));
    match resolve_target(Some("desk"), None, &d, &s, Some("rv"), &none) {
        Ok(Target::Device { name, secret, fleet }) => {
            assert_eq!((name.as_str(), secret.as_str(), fleet), ("Desk", "sec", false))
        }
        _ => panic!("paired"),
    }
    match resolve_target(Some("phone"), Some("once"), &d, &s, Some("rv"), &fleet) {
        Ok(Target::Device { name, secret, fleet }) => {
            assert_eq!((name.as_str(), secret.as_str(), fleet), ("phone", "once", false))
        }
        _ => panic!("introduced"),
    }
    match resolve_target(Some("phone"), None, &d, &s, Some("rv"), &fleet) {
        Err(e) => assert_eq!(
            e,
            "send --to 'phone': your daemon has no verified link to it right now, so it cannot broker a private rendezvous. Start `filament up` on both devices and retry, or use its mesh address (phone.mesh)."
        ),
        _ => panic!("not introduced"),
    }
    let opted = TargetView { opted_in: true, ..fleet };
    match resolve_target(Some("phone"), None, &d, &s, Some("rv"), &opted) {
        Ok(Target::Device { name, secret, fleet }) => {
            assert_eq!((name.as_str(), secret.as_str(), fleet), ("phone", "rv", true))
        }
        _ => panic!("fleet"),
    }
    assert!(asks_introduction(true, true, true) && !asks_introduction(true, false, true));
}

#[test]
fn a_device_is_picked_from_a_menu() {
    assert!(asks_device(false, false, &list(&["a"]), true));
    assert!(!asks_device(false, false, &list(&["-"]), true));
    assert!(!asks_device(true, false, &list(&["a"]), true));
    let names = list(&["desk", "a-name-that-is-longer-than-twenty"]);
    let menu = device_menu(&names, &vec![relation_of(Some(true)), relation_of(None)]);
    assert_eq!(
        menu,
        vec![
            "desk                 MY DEVICE".to_string(),
            "a-name-that-is-longer-than-twenty PAIRED".to_string(),
            "shareable code / local network".to_string(),
        ]
    );
    assert_eq!(relation_of(Some(false)), Relation::External);
    assert_eq!(picked_device(&names, Some(0)), Some("desk".to_string()));
    assert_eq!(picked_device(&names, Some(2)), None);
    assert_eq!(picked_device(&names, None), None);
}

#[test]
fn payloads_have_names() {
    let file = Payload::File { base: Some("a.txt".to_string()) };
    assert_eq!(offered_name(&file, "/d/a.txt", None, true), "a.txt");
    assert_eq!(offered_name(&file, "/d/a.txt", Some("b"), true), "b");
    assert_eq!(offered_name(&file, "/d/a.txt", Some("b"), false), "a.txt");
    assert_eq!(offered_name(&Payload::File { base: None }, "/..", None, true), "/..");
    assert_eq!(offered_name(&Payload::Stdin, "-", None, true), "stdin.bin");
    assert_eq!(offered_name(&Payload::Stdin, "-", Some("b"), true), "b");
    let dir = Payload::Directory { base: Some("src".to_string()) };
    assert_eq!(offered_name(&dir, "src", Some("b"), true), "src.tar");
    assert_eq!(offered_name(&Payload::Directory { base: None }, "/", None, true), "dir.tar");
    assert_eq!(name_warning(false, 2, false), None);
    assert_eq!(name_warning(true, 1, false), None);
    assert_eq!(name_warning(true, 2, true), Some("--name is ignored when sending multiple paths"));
    assert_eq!(
        name_warning(true, 1, true),
        Some("--name is ignored for a directory (it's tarred under the directory name)")
    );
}

#[test]
fn a_command_can_be_said_again() {
    assert_eq!(
        send_again(&list(&["a", "'b c'"]), Some("desk"), true),
        "filament send a 'b c' --to desk"
    );
    assert_eq!(send_again(&list(&["a"]), None, true), "filament send a --code");
    assert_eq!(send_again(&list(&[]), None, false), "filament send");
    assert_eq!(
        receive_again(Some("brave-otter-371"), "/d", true),
        "filament receive brave-otter-371 --dir /d --yes"
    );
    assert_eq!(receive_again(None, ".", false), "filament receive --dir .");
    assert_eq!(goes_to(Some("desk"), true), "desk");
    assert_eq!(goes_to(None, true), "one-time code");
    assert_eq!(goes_to(None, false), "nearby receiver");
    assert_eq!(comes_from(None, true), "holder of this one-time code");
    assert_eq!(comes_from(None, false), "nearby sender");
    assert!(leads_receive(false, true, false, false));
    assert!(!leads_receive(false, true, true, false));
    assert!(!leads_receive(true, true, false, true));
}

#[test]
fn a_code_has_words_and_a_number() {
    assert_eq!(check_code("371", "brave-otter"), Ok(()));
    assert!(check_code("", "brave-otter").is_err());
    assert_eq!(
        check_code("371", ""),
        Err("that code doesn't look right, expected something like brave-otter-371".to_string())
    );
    assert_eq!(full_code("brave-otter", "371"), "brave-otter-371");
    assert_eq!(code_minutes(&sent("{}")), 10);
    assert_eq!(code_minutes(&sent(r#"{"ttl":125}"#)), 2);
}

#[test]
fn limits_are_set_in_seconds() {
    assert_eq!(time_limit(None, 60), 60 * SECOND);
    assert_eq!(time_limit(Some("5"), 60), 5 * SECOND);
    assert_eq!(time_limit(Some("+5"), 60), 5 * SECOND);
    assert_eq!(time_limit(Some("0"), 60), 0);
    assert_eq!(time_limit(Some("5s"), 60), 60 * SECOND);
    assert_eq!(time_limit(Some(""), 60), 60 * SECOND);
    assert_eq!(time_limit(Some("18446744073709551615"), 60), u64::MAX);
    assert_eq!(time_limit(Some("18446744073709551616"), 60), 60 * SECOND);
}

#[test]
fn the_wait_for_a_link_is_bounded() {
    assert_eq!(establish_check(false, ESTABLISH_WAIT, 0, ESTABLISH_WAIT - 1), None);
    assert_eq!(
        establish_check(false, ESTABLISH_WAIT, 0, ESTABLISH_WAIT),
        Some("no peer connected within 60s, is a receiver running / the page open? (set FILAMENT_SEND_TIMEOUT to change or 0 to disable)".to_string())
    );
    assert_eq!(establish_check(true, ESTABLISH_WAIT, 0, u64::MAX), None);
    assert_eq!(establish_check(false, 0, 0, u64::MAX), None);
    assert!(matches!(next_wait(true, 0, u64::MAX), Wait::Links));
    assert!(matches!(next_wait(false, 0, 0), Wait::Slice { nanos: SLICE }));
    assert!(matches!(next_wait(false, 0, CLAIM_WAIT - 1), Wait::Slice { nanos: 1 }));
    assert!(matches!(next_wait(false, 0, CLAIM_WAIT), Wait::Fail { .. }));
}

fn ready() -> ReadyView {
    ReadyView {
        fleet_target: false,
        wrong_device: false,
        fleet_proved: false,
        active: true,
        linked: true,
        use_code: false,
        pake_done: true,
        direct: false,
        secret: false,
        fingerprints: false,
    }
}

#[test]
fn files_are_offered_only_to_who_proved_itself() {
    let r = channel_ready(&ready());
    assert_eq!(r.step, ReadyStep::Offer(Proving::Nothing));
    assert!(r.established && !r.greet);
    assert_eq!(channel_ready(&ReadyView { active: false, ..ready() }).step, ReadyStep::Idle);
    let code = ReadyView { use_code: true, pake_done: false, ..ready() };
    assert_eq!(channel_ready(&code).step, ReadyStep::AwaitCode);
    assert!(matches!(
        channel_ready(&ReadyView { direct: true, ..code }).step,
        ReadyStep::Offer(Proving::Nothing)
    ));
    let fleet = ReadyView { fleet_target: true, ..ready() };
    let r = channel_ready(&fleet);
    assert_eq!(r.step, ReadyStep::AwaitFleet);
    assert!(r.greet && r.established);
    assert!(matches!(
        channel_ready(&ReadyView { fleet_proved: true, ..fleet }).step,
        ReadyStep::Offer(_)
    ));
    let r = channel_ready(&ReadyView { wrong_device: true, ..fleet });
    assert_eq!(r.step, ReadyStep::Drop);
    assert!(!r.established);
    let known = ReadyView { secret: true, ..ready() };
    assert_eq!(channel_ready(&known).step, ReadyStep::Offer(Proving::Unbound));
    assert_eq!(
        channel_ready(&ReadyView { fingerprints: true, ..known }).step,
        ReadyStep::Offer(Proving::Send)
    );
}

#[test]
fn a_receiver_proves_that_it_knows_the_code() {
    let mut a = SendAuth::new(true);
    assert!(!a.done);
    a.await_proof("p", 10, 60);
    a.await_proof("q", 20, 60);
    assert_eq!(a.peer, Some("p".to_string()));
    assert_eq!(a.deadline, Some(70));
    assert_eq!(a.overdue(70), None);
    assert_eq!(
        a.overdue(71),
        Some("the other device uses an older version and can't receive securely over a code. Update it (or this CLI) so the transfer runs the encrypted handshake. Nothing was sent.".to_string())
    );
    assert!(matches!(a.heard("p", Inbound::Running, ""), AuthStep::GoOn));
    assert!(matches!(a.heard("p", Inbound::Finished, ""), AuthStep::Authenticated));
    assert!(matches!(a.heard("p", Inbound::Finished, ""), AuthStep::GoOn));
    assert_eq!(a.overdue(1000), None);
}

#[test]
fn a_failed_ceremony_ends_the_send() {
    let mut a = SendAuth::new(true);
    match a.heard("p", Inbound::Failed, "wrong words") {
        AuthStep::Refused { message } => assert_eq!(
            message,
            "transfer REFUSED: wrong words. Nothing was sent; ask for a FRESH code."
        ),
        _ => panic!("refused"),
    }
    let mut none = SendAuth::new(false);
    assert!(none.done);
    assert!(matches!(none.heard("p", Inbound::Finished, ""), AuthStep::NotOurs));
    assert!(is_ceremony(&sent(r#"{"type":"pake-msg"}"#)));
    assert!(is_ceremony(&sent(r#"{"type":"pake-confirm"}"#)));
    assert!(!is_ceremony(&sent(r#"{"type":"offer"}"#)));
}

#[test]
fn each_peer_is_offered_to_be_remembered_once() {
    let mut offered = Vec::new();
    assert!(!offers_remembering(false, false, &mut offered, "p"));
    assert!(!offers_remembering(true, true, &mut offered, "p"));
    assert!(offers_remembering(true, false, &mut offered, "p"));
    assert!(!offers_remembering(true, false, &mut offered, "p"));
    assert!(offers_remembering(true, false, &mut offered, "q"));
}

#[test]
fn a_taken_code_is_made_anew() {
    let taken = sent(r#"{"error":"taken"}"#);
    assert!(matches!(code_failed(&taken, true, false), CodeFailed::Again { words: true }));
    assert!(matches!(code_failed(&taken, true, true), CodeFailed::Again { words: false }));
    match code_failed(&taken, false, false) {
        CodeFailed::Fail { message } => assert_eq!(message, "pairing failed: taken"),
        _ => panic!("fails"),
    }
    match code_failed(&sent("{}"), true, false) {
        CodeFailed::Fail { message } => assert_eq!(message, "pairing failed: ?"),
        _ => panic!("fails"),
    }
}

#[test]
fn news_of_peers_is_acted_on() {
    let mut seen = false;
    assert_eq!(device_appeared(true, true, false, &mut seen), Appeared::Ignore);
    assert_eq!(
        device_appeared(false, true, false, &mut seen),
        Appeared::Connect { announce: true }
    );
    assert_eq!(
        device_appeared(false, true, false, &mut seen),
        Appeared::Connect { announce: false }
    );
    assert_eq!(device_appeared(false, true, true, &mut seen), Appeared::Linked);
    let mut proved = Vec::new();
    let distrust = sent(r#"{"trusted":false}"#);
    assert!(!proves_again(&distrust, &mut proved, "p", false));
    assert!(proves_again(&distrust, &mut proved, "p", true));
    assert!(!proves_again(&distrust, &mut proved, "p", true));
    assert!(!proves_again(&sent(r#"{"trusted":true}"#), &mut proved, "q", true));
    assert!(is_stranger(&sent(r#"{"ok":false}"#)) && !is_stranger(&sent("{}")));
    let mut active = Some("p".to_string());
    vacate(&mut active, "q");
    assert_eq!(active, Some("p".to_string()));
    vacate(&mut active, "p");
    assert_eq!(active, None);
}

#[test]
fn a_send_ends_with_a_reason() {
    assert!(is_stalled(true, false) && is_stalled(false, true) && !is_stalled(false, false));
    assert!(stalled_error(true).contains("--no-relay"));
    assert_eq!(
        stalled_error(false),
        "transfer stalled and no usable path remains, partial kept; re-run to resume"
    );
    assert_eq!(lost_receiver(false), None);
    assert!(lost_receiver(true).unwrap().starts_with("lost the receiving peer after 5 attempts"));
}

#[test]
fn whoever_wants_to_be_remembered_meets_a_name() {
    let none = TargetView { indexed: false, daemon: false, opted_in: false };
    assert_eq!(check_run(true, Some("ann"), &list(&[]), &none), Ok(()));
    assert_eq!(check_run(false, None, &list(&[]), &none), Ok(()));
    assert_eq!(check_run(false, Some("Ann"), &list(&["ann"]), &none), Ok(()));
    assert_eq!(
        check_run(false, Some("ann"), &list(&[]), &none),
        check_target(&list(&[]), "ann", &none)
    );
    assert!(check_run(false, Some("ann"), &list(&[]), &none).is_err());
    let met = resolve_target(Some("ann"), None, &list(&[]), &list(&[]), None, &none).unwrap();
    assert_eq!(room_filter(Some("ann"), &met), Some("ann".to_string()));
    assert_eq!(room_filter(None, &Target::Anyone), None);
    let known = Target::Device { name: "ann".to_string(), secret: "s".to_string(), fleet: false };
    assert_eq!(room_filter(Some("ann"), &known), None);
}

#[test]
fn a_code_is_asked_for_where_somebody_can_answer() {
    assert!(asks_code(false, false, true));
    assert!(!asks_code(true, false, true));
    assert!(!asks_code(false, true, true));
    assert!(!asks_code(false, false, false));
}
