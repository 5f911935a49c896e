use filament::cadence::{Cadence, DEVICES_EVERY, STATE_EVERY, WATCHDOG_EVERY};
use filament::candidates::{
    asks_probe, parse_direct, timed_out_message, Admission, Candidates, Inbound, Progress,
    MAX_CANDIDATES,
};
use filament::channels::{arm_gate, scan, subscription, ArmStep};
use filament::fleet_links::{device_name, dials, FleetLinks, HelloStep, HelloVerdict};
use filament::keyed::Keyed;
use filament::overlay_links::parse_challenge;
use filament::pairing::{
    challenge_frame, fresh_challenge, fresh_link, introduction, keep_answer, keep_frame,
    match_proof, needs_proof, Command, Introduction, Keep, KeepAcked, KnownProof, LinkStep,
    PairSession,
};
use filament::reconcile::{is_unknown, reconcile, room_sourced, roster_ids, LinkSeen};
use filament::shared_defs::{MILLISECOND, SECOND};
use filament::signaling::{Heard, Signaling, WatchStep};
use serde_json::Value;

fn arrived(s: &str) -> Value {
    serde_json::from_str(s).unwrap()
}

fn names(v: &[&str]) -> Vec<String> {
    v.iter().map(|s| s.to_string()).collect()
}

const KEY: &str = "00112233445566778899aabbccddeeff00112233445566778899aabbccddeeff";

#[test]
fn candidates_are_bounded_in_number() {
    let mut c = Candidates::new(true);
    for i in 0..MAX_CANDIDATES {
        assert_eq!(c.enter(&format!("p{i}"), 0, 60, false), Admission::New);
    }
    assert_eq!(c.enter("p0", 0, 60, false), Admission::Known);
    assert_eq!(c.enter("late", 0, 60, false), Admission::Full);
    assert_eq!(c.expire(60).len(), 0);
    assert_eq!(c.expire(61).len(), MAX_CANDIDATES);
    assert_eq!(c.enter("late", 61, 60, false), Admission::New);
    assert_eq!(c.enter("p0", 61, 60, false), Admission::Dropped);
    assert_eq!(c.enter("p0", 61, 60, true), Admission::New);
    assert_eq!(c.enter("p0", 61, 60, false), Admission::Known);
    assert!(c.timed_out(61) && !c.timed_out(60));
}

#[test]
fn the_first_to_finish_is_the_sender() {
    let mut c = Candidates::new(true);
    c.enter("decoy", 0, 60, false);
    c.enter("p", 0, 60, false);
    assert!(c.buffer_offer("p", arrived(r#"{"id":"1"}"#)));
    assert!(!c.buffer_offer("stranger", arrived("{}")));
    assert!(c.buffer_direct("p", parse_direct(&arrived(r#"{"addrs":["a:1"]}"#))).is_none());
    assert!(matches!(c.advance("decoy", Inbound::Failed), Progress::Dropped));
    assert_eq!(c.enter("decoy", 0, 60, false), Admission::New);
    assert!(matches!(c.advance("p", Inbound::Running), Progress::Wait));
    match c.advance("p", Inbound::Finished) {
        Progress::Sender { direct, offer } => {
            assert_eq!(direct.unwrap().addrs, names(&["a:1"]));
            assert_eq!(offer, Some(arrived(r#"{"id":"1"}"#)));
        }
        _ => panic!("sender"),
    }
    assert_eq!(c.enter("late", 1, 60, false), Admission::Settled);
    assert!(!c.timed_out(1000));
    assert!(Candidates::new(false).settled);
    assert!(timed_out_message().ends_with("Nothing was received."));
}

#[test]
fn a_direct_offer_is_read() {
    let o = parse_direct(&arrived(
        r#"{"addrs":["a:1",7,"b:2"],"srflx":"s","server_public":"x","proto":900}"#,
    ));
    assert_eq!(o.addrs, names(&["a:1", "b:2"]));
    assert_eq!(o.srflx, Some("s".to_string()));
    assert_eq!(o.server_public, Some("x".to_string()));
    assert_eq!(o.proto, 255);
    let o = parse_direct(&arrived(r#"{"proto":0}"#));
    assert_eq!(o.proto, 1);
    assert!(o.addrs.is_empty() && o.srflx.is_none());
    assert!(asks_probe(&arrived(r#"{"probe":true}"#)) && !asks_probe(&arrived("{}")));
}

#[test]
fn a_peer_is_gone_after_two_rosters() {
    let mut missed: Keyed<u64> = Keyed::new();
    let links = vec![
        LinkSeen { pid: "p".to_string(), expected: true },
        LinkSeen { pid: "q".to_string(), expected: false },
    ];
    assert!(reconcile(&mut missed, &links, &names(&[])).is_empty());
    assert!(missed.contains("p") && !missed.contains("q"));
    assert!(reconcile(&mut missed, &links, &names(&["p"])).is_empty());
    assert!(!missed.contains("p"));
    assert!(reconcile(&mut missed, &links, &names(&[])).is_empty());
    assert_eq!(reconcile(&mut missed, &links, &names(&[])), names(&["p"]));
    assert!(!missed.contains("p"));
}

#[test]
fn rosters_name_peers() {
    let peers = vec![arrived(r#"{"id":"a"}"#), arrived("{}"), arrived(r#"{"id":"b"}"#)];
    assert_eq!(roster_ids(&peers), names(&["a", "b"]));
    assert!(is_unknown(&peers[0], &names(&["b"])));
    assert!(!is_unknown(&peers[0], &names(&["a"])));
    assert!(!is_unknown(&peers[1], &names(&[])));
    assert!(room_sourced(false, false, false));
    assert!(!room_sourced(true, false, false) && !room_sourced(false, true, false));
}

#[test]
fn silence_is_answered_with_one_heartbeat() {
    let mut s = Signaling::new(0);
    assert_eq!(s.watch(Heard::Other, 15, 14 * MILLISECOND), WatchStep::Nothing);
    assert_eq!(s.watch(Heard::Other, 15, 15 * MILLISECOND), WatchStep::Probe);
    assert_eq!(s.watch(Heard::Other, 15, 29 * MILLISECOND), WatchStep::Nothing);
    assert_eq!(s.watch(Heard::Other, 15, 30 * MILLISECOND), WatchStep::Silent { ms: 30 });
    assert!(s.redial(30 * MILLISECOND));
    assert!(!s.redial(31 * MILLISECOND));
    assert_eq!(s.watch(Heard::Alive, 15, 40 * MILLISECOND), WatchStep::Nothing);
    assert!(s.down_since.is_none() && s.attempt == 0);
    assert_eq!(s.watch(Heard::Down, 15, 41 * MILLISECOND), WatchStep::Closed);
    assert!(s.redial(41 * MILLISECOND));
    s.reconnected(50 * MILLISECOND);
    assert!(s.down_since.is_none() && !s.redial(10 * SECOND));
}

#[test]
fn redials_back_off() {
    let mut s = Signaling::new(0);
    s.watch(Heard::Down, 15, 0);
    assert!(s.redial(0));
    assert_eq!(s.attempt, 1);
    // the second delay is a second, and at most a quarter more
    assert!(!s.redial(749 * MILLISECOND));
    assert!(s.redial(1250 * MILLISECOND));
}

#[test]
fn fleet_links_prove_themselves() {
    let mut f = FleetLinks::new();
    f.appeared("p");
    assert!(f.pending.contains("p"));
    assert!(f.link_up("p", true, false));
    assert!(!f.link_up("x", false, true));
    f.defer("p", arrived(r#"{"id":"1"}"#), 0, 8);
    assert!(f.overdue(8).is_empty());
    match f.hello("p", HelloVerdict::Verified) {
        HelloStep::Welcome { fresh, greet, replay } => {
            assert!(fresh && greet);
            assert_eq!(replay.len(), 1);
        }
        _ => panic!("welcome"),
    }
    match f.hello("p", HelloVerdict::Verified) {
        HelloStep::Welcome { fresh, greet, replay } => {
            assert!(!fresh && !greet && replay.is_empty())
        }
        _ => panic!("welcome"),
    }
    assert!(matches!(f.hello("q", HelloVerdict::Unbound), HelloStep::Ignore));
    assert!(matches!(f.hello("q", HelloVerdict::Refused), HelloStep::Drop));
}

#[test]
fn offers_that_waited_are_marked() {
    let mut f = FleetLinks::new();
    f.defer("p", arrived(r#"{"id":"1"}"#), 0, 8);
    let due = f.overdue(9);
    assert_eq!(due.len(), 1);
    assert_eq!(due[0].offer, arrived(r#"{"id":"1","__fleet_waited":true}"#));
    assert!(f.deferred.is_empty());
}

#[test]
fn nonces_belong_to_a_link() {
    let mut f = FleetLinks::new();
    assert_eq!(f.our_nonce("p", vec![1; 16]), vec![1; 16]);
    assert_eq!(f.our_nonce("p", vec![2; 16]), vec![1; 16]);
    assert!(!f.their_nonce("p", Some(vec![0; 15])));
    assert!(!f.their_nonce("p", None));
    assert!(f.their_nonce("p", Some(vec![0; 16])));
    assert!(f.greet("p"));
    assert!(!f.greet("p"));
    f.drop_link("p");
    assert_eq!(f.our_nonce("p", vec![3; 16]), vec![3; 16]);
    assert!(!f.bind_theirs.contains("p"));
}

#[test]
fn only_a_verified_device_names_a_meeting_place() {
    let mut f = FleetLinks::new();
    let v = arrived(&format!(r#"{{"secret":"{KEY}"}}"#));
    assert_eq!(f.rendezvous("p", &v), None);
    f.hello("p", HelloVerdict::Verified);
    assert_eq!(f.rendezvous("p", &v), Some(KEY.to_string()));
    assert_eq!(f.rendezvous("p", &arrived(r#"{"secret":"abcd"}"#)), None);
    assert_eq!(f.rendezvous("p", &arrived(r#"{"secret":"xyz"}"#)), None);
    assert!(dials("a", "b") && !dials("b", "a") && !dials("a", "a"));
    assert_eq!(device_name(Some("desk"), "evil"), ("desk".to_string(), false));
    assert_eq!(device_name(None, "new"), ("new".to_string(), true));
}

#[test]
fn tasks_come_due() {
    let mut c = Cadence::new(0);
    let d = c.tick(true, false, DEVICES_EVERY);
    assert!(d.devices && !d.watchdog && !d.state);
    let d = c.tick(true, false, WATCHDOG_EVERY);
    assert!(d.watchdog && d.devices);
    let d = c.tick(false, false, STATE_EVERY);
    assert!(d.state && !d.watchdog && !d.devices && !d.warm);
    let d = c.tick(true, false, STATE_EVERY);
    assert!(d.warm && d.watchdog && !d.tunnel);
    assert!(!c.tick(true, true, STATE_EVERY).warm);
    c.pull_warm(STATE_EVERY + 1);
    assert!(c.tick(true, true, STATE_EVERY + 1).warm);
}

#[test]
fn channels_are_watched_once() {
    assert_eq!(
        subscription(&names(&["a", "b"]), Some("e".to_string()), Some("a".to_string())),
        names(&["a", "b", "e"])
    );
    let mut ch = names(&["a"]);
    assert_eq!(arm_gate(&mut ch, "e", true), ArmStep::Subscribe);
    assert_eq!(arm_gate(&mut ch, "e", true), ArmStep::Nothing);
    assert_eq!(ch, names(&["a", "e"]));
    assert_eq!(arm_gate(&mut ch, "e", false), ArmStep::Leave);
    assert_eq!(ch, names(&["a"]));
    let mut known = names(&["a"]);
    assert_eq!(scan(&mut known, &names(&["a", "b", "b"])), vec![false, true, false]);
    assert_eq!(known, names(&["a", "b"]));
}

#[test]
fn lines_are_commands() {
    let mut s = PairSession::new(false, KEY);
    let devices = names(&["desk"]);
    assert!(matches!(s.command("Devices", false, &devices, true), Command::Devices));
    match s.command("FORGET  Desk ", false, &devices, true) {
        Command::Forget { name } => assert_eq!(name, "desk"),
        _ => panic!("forget"),
    }
    match s.command("forget x", false, &devices, true) {
        Command::NoSuchDevice { line } => {
            assert_eq!(line, "  no device named 'x' (try `devices`)")
        }
        _ => panic!("no such device"),
    }
    assert!(matches!(s.command("pair", false, &devices, true), Command::Mint));
    assert_eq!(s.ceremony, Some(true));
    match s.command("Brave-Otter-371", true, &devices, true) {
        Command::Claim { code } => assert_eq!(code, "brave-otter-371"),
        _ => panic!("claim"),
    }
    assert_eq!(s.ceremony, Some(false));
    assert!(s.paired && s.claim_in_flight);
    assert!(matches!(s.command("Brave-Otter-372", true, &devices, true), Command::Busy));
    assert!(matches!(s.command("?", false, &devices, true), Command::Hint));
    assert!(matches!(s.command("", false, &devices, true), Command::Nothing));
    s.rejected();
    assert!(!s.paired && !s.claim_in_flight);
}

#[test]
fn one_side_hands_over_a_secret() {
    let mut minted = PairSession::new(false, KEY);
    minted.command("pair", false, &vec![], true);
    assert_eq!(minted.link_up("p", false), LinkStep::Nothing);
    assert_eq!(minted.link_up("p", true), LinkStep::Offer);
    assert_eq!(minted.link_up("q", true), LinkStep::Nothing);
    match minted.keep_acked("p", &arrived(r#"{"ok":true}"#), Some("phone"), "fresh") {
        KeepAcked::Store { name, secret } => {
            assert_eq!((name.as_str(), secret.as_str()), ("phone", KEY))
        }
        _ => panic!("stored"),
    }
    assert_eq!(minted.ceremony_secret, "fresh");
    assert!(matches!(
        minted.keep_acked("p", &arrived(r#"{"ok":true}"#), None, "x"),
        KeepAcked::NotOurs
    ));
    let mut claimed = PairSession::new(true, KEY);
    claimed.command("brave-otter-371", true, &vec![], true);
    claimed.matched();
    assert_eq!(claimed.link_up("p", true), LinkStep::Wait);
    assert!(claimed.fallback("p"));
    assert!(!claimed.fallback("p"));
    assert!(matches!(
        claimed.keep_acked("p", &arrived(r#"{"ok":false}"#), None, "x"),
        KeepAcked::Declined
    ));
}

#[test]
fn offered_secrets_are_kept_by_consent() {
    let offer = keep_frame(KEY);
    assert_eq!(offer, arrived(&format!(r#"{{"type":"pair-keep","secret":"{KEY}"}}"#)));
    let mut s = PairSession::new(false, "mine");
    let refused = s.keep_offered(&offer, None, false, Some("phone"));
    match &refused {
        Keep::Refuse { line } => assert_eq!(
            line,
            "phone offered to be remembered; nothing was stored. Re-run with --remember <name> (or --yes) to accept"
        ),
        _ => panic!("refused"),
    }
    assert_eq!(
        keep_answer(&offer, &refused),
        Some(arrived(r#"{"type":"pair-keep-ack","ok":false}"#))
    );
    match s.keep_offered(&offer, Some("desk"), true, Some("phone")) {
        Keep::Store { name, secret, ceremony } => {
            assert_eq!((name.as_str(), secret.as_str(), ceremony), ("desk", KEY, false))
        }
        _ => panic!("stored"),
    }
    s.ceremony = Some(false);
    let kept = s.keep_offered(&offer, None, true, None);
    match &kept {
        Keep::Store { name, ceremony, .. } => assert_eq!((name.as_str(), *ceremony), ("device", true)),
        _ => panic!("stored"),
    }
    assert_eq!(
        keep_answer(&offer, &kept),
        Some(arrived(r#"{"type":"pair-keep-ack","ok":true}"#))
    );
    let ignored = s.keep_offered(&arrived(r#"{"secret":"short"}"#), Some("x"), true, None);
    assert!(matches!(ignored, Keep::Ignore));
    assert_eq!(keep_answer(&offer, &ignored), None);
}

#[test]
fn proofs_tell_devices_apart() {
    let known = vec![
        KnownProof { name: "a".to_string(), mac: "1".to_string() },
        KnownProof { name: "b".to_string(), mac: "2".to_string() },
    ];
    assert_eq!(match_proof(false, &known, "2"), Some(1));
    assert_eq!(match_proof(false, &known, "3"), None);
    assert_eq!(match_proof(true, &known, "2"), None);
    assert!(needs_proof(true, true, false));
    assert!(!needs_proof(false, true, false) && !needs_proof(true, true, true));
    assert!(fresh_link(true, false, false, false));
    assert!(!fresh_link(true, true, false, false) && !fresh_link(true, false, true, false));
}

#[test]
fn introductions_need_trust() {
    let v = arrived(&format!(r#"{{"name":"tv","secret":"{KEY}"}}"#));
    match introduction(true, &v, "hub") {
        Introduction::Store { name, secret, line } => {
            assert_eq!((name.as_str(), secret.as_str()), ("tv", KEY));
            assert_eq!(line, "introduced to 'tv' by hub, now a known device");
        }
        _ => panic!("stored"),
    }
    match introduction(false, &v, "hub") {
        Introduction::Ignore { line } => {
            assert_eq!(line, "  ignored pair-intro from unverified peer hub")
        }
        _ => panic!("ignored"),
    }
}

#[test]
fn challenges_are_read_back() {
    let own = [7u8; 32];
    let c = parse_challenge(&challenge_frame(&[9u8; 32], &own)).unwrap();
    assert_eq!((c.nonce, c.receiver), (vec![9u8; 32], vec![7u8; 32]));
    let (nonce, frame) = fresh_challenge(&own);
    let c = parse_challenge(&frame).unwrap();
    assert_eq!(c.nonce, nonce);
    // two challenges in a row are not the same
    assert_ne!(fresh_challenge(&own).0, nonce);
    assert!(parse_challenge(&arrived(r#"{"nonce":"00"}"#)).is_none());
}

#[test]
fn a_secret_is_kept_on_a_yes_alone() {
    for f in [r#"{"type":"pair-keep-ack"}"#, r#"{"ok":"true"}"#, r#"{"ok":null}"#, r#"{"ok":1}"#] {
        let mut minted = PairSession::new(false, KEY);
        minted.command("pair", false, &vec![], true);
        assert_eq!(minted.link_up("p", true), LinkStep::Offer);
        let r = minted.keep_acked("p", &arrived(f), Some("phone"), "fresh");
        assert!(matches!(r, KeepAcked::Declined));
    }
}

#[test]
fn small_letters_are_obeyed() {
    let mut s = PairSession::new(false, KEY);
    let devices = names(&["desk"]);
    assert!(matches!(s.obey("devices".to_string(), false, false, &devices, true), Command::Devices));
    assert!(matches!(
        s.obey("forget desk".to_string(), false, false, &devices, true),
        Command::Forget { name } if name == "desk"
    ));
    assert!(matches!(s.obey(String::new(), true, false, &devices, true), Command::Nothing));
    assert!(matches!(s.obey("DEVICES".to_string(), false, false, &devices, true), Command::Hint));
    assert!(matches!(
        s.obey("brave-otter-371".to_string(), false, true, &devices, true),
        Command::Claim { code } if code == "brave-otter-371"
    ));
}

#[test]
fn a_blanket_yes_keeps_an_offered_secret() {
    let mut s = PairSession::new(false, "mine");
    let named = arrived(&format!(r#"{{"secret":"{KEY}","name":"my /desk/"}}"#));
    match s.keep_offered(&named, None, true, Some("phone")) {
        Keep::Store { name, secret, ceremony } => {
            assert_eq!((name.as_str(), secret.as_str(), ceremony), ("mydesk", KEY, false))
        }
        _ => panic!("stored"),
    }
    match s.keep_offered(&keep_frame(KEY), None, true, Some("pho ne")) {
        Keep::Store { name, .. } => assert_eq!(name, "phone"),
        _ => panic!("stored"),
    }
    match s.keep_offered(&keep_frame(KEY), None, true, None) {
        Keep::Store { name, .. } => assert_eq!(name, "device"),
        _ => panic!("stored"),
    }
    assert_eq!(s.ceremony, None);
}
