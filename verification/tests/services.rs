use filament::overlay_links::{
    advance, ceiling_routes, departed_frame, hears_announce, installable_routes, key_frame,
    parse_depart, takes_replay, tunnel_key, worker_ports, Stage, TunnelStep,
};
use filament::renewal_lifecycle::{
    burn_refusal, enroll_ack, enroll_challenge, enroll_error, enroll_name, enroll_request,
    free_name, invites, may_reanchor, open_invitation, record_name, renew_answer, renew_step,
    renew_ttl, renewal_request, renewal_standing_for, renewed_line, renewed_record,
    response_refusal, takes_renewal, InvitationView, NameStep, RenewOutcome, RenewStep,
    ResponseView,
};
use filament::requests::{
    add_pending_request, approve, deny, judge_approval, notify_hook, PendingRequest,
};
use filament::runtime_support::{
    asks_for_kind, is_light_command, next_wait, owner_only_verdict, recover_source, recovered,
    recovery_phrase, resolve_for_kind, stop_managed_service, unmount_fuse, ForError, NextWait,
    Platform, Recovered, ServiceManager, UiCapability, UnmountStep, WordsSource,
};
use filament::shared_defs::{MAX_PENDING, REJOIN_WINDOW, SECOND};
use filament::streams::{
    chunk_to_streams, close_frame, forward_step, is_exposed, is_l2_sid, l2_enabled,
    l2_open_allowed, mount_place, pty_params, pty_place, pty_step, reach_host, reach_port,
    refused_line,
    shell_legacy_ok, ssh_port, wire_sid, ForwardStep, PtyPlace, PtyStep, PtyView, ShellPolicy,
};
use filament::terminals::{parse_resize, Terminals};
use serde_json::Value;

fn asked_for(s: &str) -> Value {
    serde_json::from_str(s).unwrap()
}

fn words(v: &[&str]) -> Vec<String> {
    v.iter().map(|s| s.to_string()).collect()
}

const PUB: &str = "00112233445566778899aabbccddeeff00112233445566778899aabbccddeeff";

#[test]
fn shells_are_for_who_may_have_one() {
    assert!(!l2_enabled(&ShellPolicy::Granted, false, false));
    assert!(l2_enabled(&ShellPolicy::Granted, false, true));
    assert!(l2_enabled(&ShellPolicy::All, false, false));
    let only = ShellPolicy::Only(words(&["desk"]));
    assert!(only.enables_l2() && only.auto_allows("desk") && !only.auto_allows("x"));
    assert!(l2_open_allowed(true, false) && !l2_open_allowed(false, false));
    assert!(shell_legacy_ok(true, Some("desk"), false, false, &only));
    assert!(shell_legacy_ok(true, Some("x"), false, true, &only));
    assert!(!shell_legacy_ok(true, Some("desk"), true, true, &only));
    assert!(!shell_legacy_ok(false, Some("desk"), false, true, &only));
    assert!(!shell_legacy_ok(true, None, false, true, &only));
}

#[test]
fn stream_numbers_are_not_cut_down() {
    assert_eq!(wire_sid(&asked_for(r#"{"sid":4294967295}"#)), Some(u32::MAX));
    assert_eq!(wire_sid(&asked_for(r#"{"sid":4294967296}"#)), None);
    assert_eq!(wire_sid(&asked_for("{}")), None);
    assert!(is_l2_sid(0x8000_0001) && !is_l2_sid(1));
    assert!(chunk_to_streams(true, 0x8000_0001));
    assert!(!chunk_to_streams(false, 0x8000_0001) && !chunk_to_streams(true, 7));
    assert_eq!(reach_port(&asked_for(r#"{"rport":80,"port":22}"#)), 80);
    assert_eq!(reach_port(&asked_for(r#"{"port":22}"#)), 22);
    assert_eq!(reach_port(&asked_for("{}")), 0);
    assert!(is_exposed(80, &vec![22, 80]) && !is_exposed(0, &vec![0]));
    assert_eq!(ssh_port(&asked_for(r#"{"ssh_port":2222}"#)), 2222);
    assert_eq!(ssh_port(&asked_for(r#"{"ssh_port":70000}"#)), 22);
}

#[test]
fn forwards_are_answered() {
    let open = asked_for(r#"{"type":"l2-open","sid":5}"#);
    assert_eq!(forward_step(&open, true, true), ForwardStep::Open);
    assert_eq!(forward_step(&open, false, true), ForwardStep::Refuse { sid: 5 });
    assert_eq!(forward_step(&open, true, false), ForwardStep::Ignore);
    assert_eq!(
        forward_step(&asked_for(r#"{"type":"l2-close"}"#), false, true),
        ForwardStep::Close
    );
    assert_eq!(
        close_frame(5, "no"),
        asked_for(r#"{"type":"l2-close","sid":5,"err":"no"}"#)
    );
    assert_eq!(refused_line(0x8000_00ff, "no"), "l2: refused stream 0x800000ff: no");
}

#[test]
fn terminals_are_served_in_sessions() {
    let p = pty_params(
        &asked_for(r#"{"cols":100,"session":"s","term":"screen","resume":true}"#),
        Some("desk"),
        "p",
        7,
    );
    assert_eq!((p.cols, p.rows), (100, 24));
    assert_eq!(p.session, "desk\u{1}s");
    assert_eq!(p.term, "screen");
    assert!(p.resume && p.cmd.is_empty());
    let p = pty_params(&asked_for(r#"{"term":"bad term","cmd":"ls"}"#), None, "p", 0x1f);
    assert_eq!(p.session, "p:0x1f");
    assert_eq!(p.term, "xterm-256color");
    assert_eq!(p.cmd, "ls");
    let open = asked_for(r#"{"sid":2147483649}"#);
    assert_eq!(pty_step(&open, true), PtyStep::Gate { sid: 0x8000_0001 });
    assert_eq!(pty_step(&open, false), PtyStep::Off { sid: 0x8000_0001 });
    assert_eq!(pty_step(&asked_for(r#"{"sid":1}"#), true), PtyStep::Ignore);
    let v = PtyView { live: true, resume: false, streams_full: false, ptys_full: false, sid_free: true };
    assert_eq!(pty_place(&v), PtyPlace::Reattach);
    assert_eq!(pty_place(&PtyView { live: false, ..v }), PtyPlace::Spawn);
    assert_eq!(pty_place(&PtyView { live: false, resume: true, ..v }), PtyPlace::NoSession);
    assert_eq!(pty_place(&PtyView { streams_full: true, ..v }), PtyPlace::TooMany);
    assert_eq!(pty_place(&PtyView { sid_free: false, ..v }), PtyPlace::SidInUse);
    assert_eq!(mount_place(false, true), Ok(()));
    assert_eq!(mount_place(true, true), Err("too many streams".to_string()));
    assert_eq!(mount_place(false, false), Err("sid in use".to_string()));
}

fn pending(id: u64, cap: &str) -> PendingRequest {
    PendingRequest {
        id,
        peer: "desk".to_string(),
        capability: cap.to_string(),
        timestamp: 1,
        status: "pending".to_string(),
        granted_at: None,
    }
}

#[test]
fn a_full_queue_drops_its_oldest() {
    let mut q: Vec<PendingRequest> = (1..=MAX_PENDING as u64).map(|i| pending(i, "shell")).collect();
    let lines = add_pending_request("phone", "transfer", &mut q, 9);
    assert_eq!(lines.len(), 1);
    assert_eq!(q.len(), MAX_PENDING);
    assert_eq!(q[0].id, 2);
    let last = q.last().unwrap();
    assert_eq!((last.id, last.peer.as_str(), last.timestamp), (101, "phone", 9));
    let mut empty = Vec::new();
    assert!(add_pending_request("a", "b", &mut empty, 0).is_empty());
    assert_eq!(empty[0].id, 1);
    assert_eq!(notify_hook(Some("")), None);
    assert_eq!(notify_hook(Some("x")), Some("x"));
}

#[test]
fn requests_are_approved_or_denied() {
    let mut q = vec![pending(1, "shell"), pending(2, "transfer")];
    assert_eq!(judge_approval(&q, 2, "transfer", true), Ok(1));
    assert_eq!(
        judge_approval(&q, 9, "shell", true),
        Err("request 9 not found or not pending".to_string())
    );
    assert_eq!(
        judge_approval(&q, 1, "transfer", true),
        Err("request 1 is for 'shell', not 'transfer'".to_string())
    );
    assert_eq!(
        judge_approval(&q, 1, "shell", false),
        Err("grant expiry must be in the future".to_string())
    );
    assert_eq!(
        approve(&mut q, 1, "shell", true, Err("disk".to_string()), Ok(()), 5),
        Err("grant failed: disk".to_string())
    );
    assert_eq!(
        approve(&mut q, 1, "shell", true, Ok(()), Err("key".to_string()), 5),
        Err("signed grant failed: key".to_string())
    );
    assert_eq!(q[0].status, "pending");
    assert_eq!(approve(&mut q, 1, "shell", true, Ok(()), Ok(()), 5), Ok(()));
    assert_eq!((q[0].status.as_str(), q[0].granted_at), ("approved", Some(5)));
    assert_eq!(deny(&mut q, 2), Ok(()));
    assert_eq!(q[1].status, "denied");
    assert_eq!(deny(&mut q, 2), Err("request 2 not found or not pending".to_string()));
}

#[test]
fn secrets_are_read_from_private_files() {
    assert_eq!(owner_only_verdict(false, true, Some(0o100600), "/k"), Ok(()));
    assert_eq!(owner_only_verdict(false, true, None, "/k"), Ok(()));
    assert_eq!(
        owner_only_verdict(false, true, Some(0o100640), "/k"),
        Err("secret file must be owner-only (chmod 600 /k)".to_string())
    );
    assert_eq!(
        owner_only_verdict(true, true, None, "/k"),
        Err("secret input must be a regular file, not a symlink".to_string())
    );
    assert!(owner_only_verdict(false, false, None, "/k").is_err());
}

#[test]
fn an_identity_is_recovered_from_words() {
    let tty = UiCapability { interactive: true, json: false };
    let pipe = UiCapability { interactive: false, json: true };
    assert_eq!(
        recover_source(true, true, true, &tty),
        Err("an identity already exists; recovery will not overwrite it".to_string())
    );
    assert_eq!(recover_source(false, true, true, &tty), Ok(WordsSource::File));
    assert_eq!(recover_source(false, false, true, &tty), Ok(WordsSource::Fd));
    assert_eq!(recover_source(false, false, false, &tty), Ok(WordsSource::Terminal));
    assert_eq!(
        recover_source(false, false, false, &pipe),
        Err("non-interactive recovery requires --words-file <path> or --words-fd <fd>".to_string())
    );
    assert_eq!(recovery_phrase(" a b\n"), "a b");
    match recovered("fp", &pipe) {
        Recovered::Json(v) => assert_eq!(
            v,
            asked_for(r#"{"identity":"fp","restored":true,"revokedStolenDevices":false}"#)
        ),
        _ => panic!("json"),
    }
    match recovered("fp", &tty) {
        Recovered::Lines { done, warning } => {
            assert_eq!(done, "identity restored: fp");
            assert!(warning.contains("does not revoke"));
        }
        _ => panic!("lines"),
    }
}

#[test]
fn who_joins_is_said_or_asked() {
    let tty = UiCapability { interactive: true, json: false };
    let pipe = UiCapability { interactive: false, json: false };
    assert!(asks_for_kind(&tty, None) && asks_for_kind(&tty, Some("  ")));
    assert!(!asks_for_kind(&pipe, None) && !asks_for_kind(&tty, Some("runner")));
    let kind = |r: Result<(String, Option<String>), ForError>| r.ok().unwrap();
    assert_eq!(kind(resolve_for_kind(&pipe, Some("runner"), None)), ("runner".to_string(), None));
    assert_eq!(
        kind(resolve_for_kind(&pipe, Some("laptop"), None)),
        ("device".to_string(), Some("laptop".to_string()))
    );
    assert_eq!(kind(resolve_for_kind(&tty, None, Some(0))), ("device".to_string(), None));
    assert_eq!(kind(resolve_for_kind(&tty, None, Some(1))), ("person".to_string(), None));
    assert_eq!(kind(resolve_for_kind(&tty, None, Some(2))), ("runner".to_string(), None));
    assert!(matches!(resolve_for_kind(&tty, None, None), Err(ForError::Cancelled)));
    match resolve_for_kind(&pipe, None, Some(0)) {
        Err(ForError::Unsaid(e)) => assert!(e.starts_with("--for needs to know who is joining:")),
        _ => panic!("unsaid"),
    }
}

#[test]
fn services_and_mounts_are_undone() {
    assert_eq!(stop_managed_service(None), None);
    assert_eq!(
        stop_managed_service(Some(ServiceManager::SystemdSystem)),
        Some(words(&["stop", "filament"]))
    );
    assert_eq!(
        stop_managed_service(Some(ServiceManager::SystemdUser)),
        Some(words(&["--user", "stop", "filament"]))
    );
    let mut tried = Vec::new();
    let mut ran = Vec::new();
    while let UnmountStep::Run { program, args } = unmount_fuse(Platform::Linux, "/m", &tried) {
        ran.push((program, args));
        tried.push(false);
    }
    assert_eq!(
        ran,
        vec![
            ("fusermount3".to_string(), words(&["-u", "/m"])),
            ("fusermount".to_string(), words(&["-u", "/m"])),
            ("fusermount3".to_string(), words(&["-uz", "/m"])),
        ]
    );
    assert!(matches!(unmount_fuse(Platform::Linux, "/m", &vec![true]), UnmountStep::Done));
    match unmount_fuse(Platform::MacOs, "/m", &vec![]) {
        UnmountStep::Run { program, args } => {
            assert_eq!((program.as_str(), args), ("diskutil", words(&["unmount", "force", "/m"])))
        }
        _ => panic!("diskutil"),
    }
    assert!(matches!(unmount_fuse(Platform::Windows, "M:", &vec![]), UnmountStep::Done));
    assert!(is_light_command(None) && is_light_command(Some("devices")));
    assert!(!is_light_command(Some("send")));
}

#[test]
fn the_wait_for_a_peer_ticks() {
    assert!(matches!(
        next_wait(None, REJOIN_WINDOW, 0, false),
        NextWait::Wait { secs: 2, left: None }
    ));
    assert!(matches!(
        next_wait(Some(0), REJOIN_WINDOW, 20 * SECOND, false),
        NextWait::Wait { secs: 1, left: Some(100) }
    ));
    assert!(matches!(
        next_wait(Some(0), REJOIN_WINDOW, REJOIN_WINDOW, true),
        NextWait::Wait { secs: 1, left: None }
    ));
    match next_wait(Some(0), REJOIN_WINDOW, REJOIN_WINDOW + 1, false) {
        NextWait::Expired(e) => assert_eq!(
            e,
            "peer did not come back within 120s (partial state kept for resume)"
        ),
        _ => panic!("expired"),
    }
}

#[test]
fn standing_is_read_from_a_record() {
    let s = renewal_standing_for(None);
    assert!(!s.known && !s.revoked && !s.lapsed && s.stored_device_pub.is_none());
    let s = renewal_standing_for(Some(&asked_for(&format!(
        r#"{{"principalState":"lapsed","deviceCert":{{"devicePub":"{PUB}"}}}}"#
    ))));
    assert!(s.known && s.lapsed && !s.revoked);
    assert_eq!(s.stored_device_pub.unwrap()[..3], [0x00, 0x11, 0x22]);
    assert!(renewal_standing_for(Some(&asked_for(r#"{"certRevoked":true}"#))).revoked);
    assert!(renewal_standing_for(Some(&asked_for(r#"{"principalState":"revoked"}"#))).revoked);
}

#[test]
fn renewals_go_to_proven_devices() {
    assert!(matches!(renew_step(false, true, Some(vec![1]), true), RenewStep::Nothing));
    assert!(matches!(renew_step(true, true, Some(vec![1]), true), RenewStep::Decide { .. }));
    match renew_step(true, false, Some(vec![1]), true) {
        RenewStep::Refuse(f) => {
            assert_eq!(f, asked_for(r#"{"type":"identity-cert-renew-error"}"#))
        }
        _ => panic!("refused"),
    }
    assert_eq!(
        renew_answer(RenewOutcome::Signed(asked_for(r#"{"a":1}"#))),
        Some(asked_for(r#"{"type":"identity-cert-renew-ack","cert":{"a":1}}"#))
    );
    assert_eq!(renew_answer(RenewOutcome::Unsigned), None);
    assert_eq!(
        renew_answer(RenewOutcome::Refused),
        Some(asked_for(r#"{"type":"identity-cert-renew-error"}"#))
    );
    assert_eq!((renew_ttl(Some(5), 9), renew_ttl(None, 9)), (5, 9));
    assert_eq!(record_name(Some(&asked_for(r#"{"name":"desk"}"#))), Some("desk".to_string()));
    assert_eq!(renewed_line(&[0xab, 0xcd, 0xef, 0x01, 0x23]), "  renewed certificate for abcdef01");
    assert_eq!(renewed_line(&[0xab]), "  renewed certificate for ab");
    assert!(takes_renewal(true, true, true) && !takes_renewal(true, true, false));
    assert_eq!(
        renewed_record(Some(&asked_for(r#"{"name":"desk"}"#)), asked_for("1")),
        asked_for(r#"{"name":"desk","cert":1}"#)
    );
    assert_eq!(renewed_record(None, asked_for("1")), asked_for(r#"{"name":"","cert":1}"#));
    assert_eq!(
        renewal_request(false, true, true),
        Some(asked_for(r#"{"type":"identity-cert-renew-request"}"#))
    );
    assert_eq!(renewal_request(true, true, true), None);
}

#[test]
fn invitations_are_opened() {
    let denied = enroll_error("enrollment denied");
    assert_eq!(
        denied,
        asked_for(r#"{"type":"identity-auth-key-enroll-error","reason":"enrollment denied"}"#)
    );
    // "hi?" in the alphabet for URLs, without padding
    assert_eq!(enroll_request(&asked_for(r#"{"auth_key_v2":"aGk_"}"#), true), Ok(b"hi?".to_vec()));
    assert_eq!(
        enroll_request(&asked_for(r#"{"auth_key_v2":"aGk_"}"#), false),
        Err(denied.clone())
    );
    assert_eq!(enroll_request(&asked_for(r#"{"auth_key_v2":"a="}"#), true), Err(denied.clone()));
    assert_eq!(enroll_request(&asked_for("{}"), true), Err(denied.clone()));
    assert_eq!(open_invitation(Some(vec![1]), true), Ok(vec![1]));
    let good = InvitationView { readable: true, owner_key: true, verified: true, expires: 10 };
    let ask = |i: &InvitationView, now: u64| {
        enroll_challenge(i, now, Some(vec![1]), Some(vec![2]), asked_for("null"))
    };
    assert_eq!(
        ask(&good, 9),
        asked_for(
            r#"{"type":"identity-auth-key-enroll-challenge","nonce":"02","verifier_pub":"01","device_cert":null}"#
        )
    );
    assert_eq!(ask(&good, 10), denied);
    assert_eq!(ask(&InvitationView { verified: false, ..good }, 9), denied);
    assert!(invites(&good, 9) && !invites(&good, 10));
    assert!(!invites(&InvitationView { owner_key: false, ..good }, 9));
    let v = ResponseView {
        readable: true,
        owner_key: true,
        verifier: true,
        challenged: true,
        verified: true,
    };
    assert_eq!(response_refusal(&v), None);
    assert_eq!(response_refusal(&ResponseView { challenged: false, ..v }), Some(denied));
    assert_eq!(burn_refusal("key already used"), enroll_error("already used"));
    assert_eq!(burn_refusal("uses exhausted"), enroll_error("use limit reached"));
    assert_eq!(burn_refusal("rate-limited now"), enroll_error("rate-limited"));
    assert_eq!(burn_refusal("disk"), enroll_error("enrollment denied"));
}

#[test]
fn enrolled_devices_get_free_names() {
    let lapsed = asked_for(r#"{"principalState":"lapsed","name":"old"}"#);
    assert_eq!(enroll_name(Some("new"), Some(&lapsed), true), "old");
    assert_eq!(enroll_name(Some("new"), Some(&lapsed), false), "new");
    assert_eq!(enroll_name(None, None, true), "joined-device");
    assert!(may_reanchor(Some(&lapsed), "old") && !may_reanchor(Some(&lapsed), "new"));
    assert!(!may_reanchor(None, "old"));
    assert_eq!(free_name("a", &vec![]), NameStep::Probe("a".to_string()));
    assert_eq!(free_name("a", &vec![false]), NameStep::Use("a".to_string()));
    assert_eq!(free_name("a", &vec![true]), NameStep::Probe("a-2".to_string()));
    assert_eq!(free_name("a", &vec![true, false]), NameStep::Use("a-2".to_string()));
    assert_eq!(free_name("a", &vec![true; 998]), NameStep::Use("a-999".to_string()));
    assert_eq!(
        enroll_ack(asked_for(r#"{"x":1}"#), "n", "o", "s", &[0xff], asked_for("null")),
        asked_for(
            r#"{"x":1,"type":"identity-auth-key-enroll-ack","name":"n","owner_name":"o","secret":"s","device_pub":"ff","max_offline":null}"#
        )
    );
}

#[test]
fn a_route_is_earned_step_by_step() {
    let mut s = Stage::Verify;
    for yes in [true, true, true, true, true, true, true] {
        s = advance(s, yes);
    }
    assert_eq!(s, Stage::Install);
    assert_eq!(advance(Stage::Verify, false), Stage::Stop { forget: false });
    assert_eq!(advance(Stage::Pinned, false), Stage::Stop { forget: true });
    assert_eq!(advance(Stage::Provisional, false), Stage::Route);
    assert!(hears_announce(true, false) && !hears_announce(true, true));
    assert!(takes_replay(true, true, true) && !takes_replay(true, true, false));
    assert_eq!(
        ceiling_routes(&words(&["shell", "route:10.0.0.0/8", "route:"])),
        words(&["10.0.0.0/8", ""])
    );
    let nets = words(&["a", "b"]);
    assert_eq!(installable_routes(&nets, &vec![false, true], true), words(&["b"]));
    assert!(installable_routes(&nets, &vec![true, true], false).is_empty());
}

#[test]
fn overlay_frames_are_read() {
    let v = asked_for(r#"{"pubkey":"k","port":51820}"#);
    match tunnel_key(&v, true, true, true, true) {
        TunnelStep::Adopt { pubkey, port } => assert_eq!((pubkey.as_str(), port), ("k", 51820)),
        _ => panic!("adopted"),
    }
    assert!(matches!(tunnel_key(&v, false, true, true, true), TunnelStep::Off));
    assert!(matches!(tunnel_key(&v, true, true, false, true), TunnelStep::Ignore));
    assert!(matches!(
        tunnel_key(&asked_for(r#"{"pubkey":"k"}"#), true, true, true, true),
        TunnelStep::Ignore
    ));
    assert_eq!(worker_ports(&asked_for(r#"{"ports":[1,"x",65537]}"#)), vec![1, 1]);
    assert!(worker_ports(&asked_for("{}")).is_empty());
    let d = parse_depart(&asked_for(&format!(
        r#"{{"device_pub":"{PUB}","sig":"{PUB}{PUB}","msg":"bye"}}"#
    )))
    .unwrap();
    assert_eq!((d.device_pub.len(), d.sig.len(), d.msg.as_str()), (32, 64, "bye"));
    assert!(parse_depart(&asked_for(&format!(r#"{{"device_pub":"{PUB}","sig":"{PUB}"}}"#))).is_none());
}

#[test]
fn terminals_outlive_their_links() {
    let mut t = Terminals::new();
    t.attach("p", 1, "a");
    t.attach("p", 2, "b");
    t.attach("q", 1, "c");
    assert_eq!(t.session("p", 2), Some("b"));
    t.attach("p", 2, "a");
    assert_eq!(t.session("p", 2), Some("a"));
    assert_eq!(t.session("q", 2), None);
    t.attach("p", 3, "d");
    t.end("p", "a");
    assert_eq!((t.session("p", 1), t.session("p", 2)), (None, None));
    assert_eq!(t.session("p", 3), Some("d"));
    assert_eq!(t.lose("p"), vec!["d".to_string()]);
    assert_eq!(t.session("p", 3), None);
    assert_eq!(t.session("q", 1), Some("c"));
    let r = parse_resize(&asked_for(r#"{"sid":2147483649,"cols":100}"#)).unwrap();
    assert_eq!((r.sid, r.cols, r.rows), (0x8000_0001, 100, 24));
    assert!(parse_resize(&asked_for(r#"{"cols":100}"#)).is_none());
}

#[test]
fn tunnel_keys_are_told() {
    let f = key_frame("K", 51820);
    match tunnel_key(&f, true, true, true, true) {
        TunnelStep::Adopt { pubkey, port } => assert_eq!((pubkey.as_str(), port), ("K", 51820)),
        _ => panic!("adopted"),
    }
    assert_eq!(departed_frame("box"), asked_for(r#"{"type":"depart-ack","name":"box"}"#));
}

#[test]
fn a_forward_goes_to_this_machine_unless_it_says_otherwise() {
    assert_eq!(reach_host(&asked_for("{}")), "127.0.0.1");
    assert_eq!(reach_host(&asked_for(r#"{"host":7}"#)), "127.0.0.1");
    assert_eq!(reach_host(&asked_for(r#"{"host":"10.0.0.9"}"#)), "10.0.0.9");
}
