use filament::assembly::Settled;
use filament::candidates::{Inbound, Progress, MAX_CANDIDATES};
use filament::console::{Answered, Show};
use filament::dispatch::Received;
use filament::finish::{ExitStep, LeftStep};
use filament::fleet_links::{HelloStep, HelloVerdict};
use filament::pairing::{Command, Introduction, Keep, KeepAcked, LinkStep};
use filament::recv_files::VerifyResult;
use filament::recv_session::{
    Act, LinkView, PeerView, RecvPlan, RecvSession, SignalStep, Typed,
};
use filament::shared_defs::SECOND;
use filament::streams::{pty_params, session_name};
use serde_json::Value;

const HELLO: &str = "fleet-hello";
const SECRET: &str = "0123456789abcdef0123456789abcdef0123456789abcdef0123456789abcdef";

fn json(s: &str) -> Value {
    serde_json::from_str(s).unwrap()
}

fn plan(code_path: bool) -> RecvPlan {
    RecvPlan {
        code_path,
        daemon: false,
        keep_open: false,
        streams: true,
        remember: None,
        yes: false,
        output: None,
        budget: 60 * SECOND,
        window: 10 * SECOND,
        grace: 8 * SECOND,
    }
}

fn peer() -> PeerView {
    PeerView {
        linked: true,
        ready: true,
        overlay: false,
        trusted: false,
        bound: true,
        undecided: false,
        name: Some("laptop".to_string()),
        device: None,
    }
}

fn hear(s: &mut RecvSession, pid: &str, f: &str, p: &PeerView, now: u64) -> Act {
    s.hear(pid, &json(f), HELLO, p, "token", None, "fresh", now)
}

const OFFER: &str = r#"{"type":"file-offer","id":"f1","sid":7,"name":"a.txt","size":4}"#;

#[test]
fn without_a_code_offers_are_looked_at() {
    let mut s = RecvSession::new(plan(false), "secret", 0);
    match hear(&mut s, "p", OFFER, &peer(), 0) {
        Act::Look(o) => {
            assert_eq!(o.id, "f1");
            assert_eq!(o.sid, 7);
            assert_eq!(o.size, 4);
            assert!(!o.consented);
        }
        _ => panic!("looked at"),
    }
    let unready = PeerView { ready: false, ..peer() };
    assert!(matches!(hear(&mut s, "p", OFFER, &unready, 0), Act::Nothing));
    let consented = OFFER.replace("}", r#","__consent":"token"}"#);
    assert!(matches!(hear(&mut s, "p", &consented, &peer(), 0), Act::Look(o) if o.consented));
}

#[test]
fn a_code_holder_is_found_before_offers_are_looked_at() {
    let mut s = RecvSession::new(plan(true), "secret", 0);
    let message = json(r#"{"type":"pake-msg"}"#);
    assert!(matches!(hear(&mut s, "p", OFFER, &peer(), 0), Act::Nothing));
    assert!(matches!(s.signal("p", &message, 0), SignalStep::Ceremony { begin: true }));
    assert!(matches!(s.signal("p", &message, 1), SignalStep::Ceremony { begin: false }));
    let direct = json(r#"{"type":"transport-offer","addrs":["10.0.0.1:9"],"probe":true}"#);
    assert!(matches!(s.signal("p", &direct, 2), SignalStep::Held));
    assert!(matches!(hear(&mut s, "p", OFFER, &peer(), 3), Act::Held));
    match s.candidates.advance("p", Inbound::Finished) {
        Progress::Sender { direct: Some(d), offer: Some(o) } => {
            assert_eq!(d.addrs, vec!["10.0.0.1:9".to_string()]);
            assert_eq!(o["id"].as_str(), Some("f1"));
        }
        _ => panic!("settled"),
    }
    assert!(matches!(s.signal("q", &message, 4), SignalStep::Ignore));
    assert!(matches!(s.signal("p", &direct, 4), SignalStep::Direct { probe: true, .. }));
    let other = PeerView { bound: false, ..peer() };
    assert!(matches!(hear(&mut s, "q", OFFER, &other, 5), Act::Nothing));
    assert!(matches!(hear(&mut s, "p", OFFER, &peer(), 5), Act::Look(_)));
}

#[test]
fn ceremonies_are_bounded_and_need_a_code() {
    let mut s = RecvSession::new(plan(true), "secret", 0);
    let message = json(r#"{"type":"pake-confirm"}"#);
    for i in 0..MAX_CANDIDATES {
        let step = s.signal(&format!("p{i}"), &message, 0);
        assert!(matches!(step, SignalStep::Ceremony { begin: true }));
    }
    assert!(matches!(s.signal("late", &message, 0), SignalStep::Ignore));
    assert!(matches!(s.signal("p0", &message, 0), SignalStep::Ceremony { begin: false }));
    assert!(matches!(s.signal("p0", &json(r#"{"type":"sdp"}"#), 0), SignalStep::Apply));
    let mut open = RecvSession::new(plan(false), "secret", 0);
    assert!(matches!(open.signal("p", &message, 0), SignalStep::Apply));
}

#[test]
fn an_undecided_device_waits_for_its_proof() {
    let mut s = RecvSession::new(plan(false), "secret", 0);
    let p = PeerView { undecided: true, ..peer() };
    assert!(matches!(hear(&mut s, "p", OFFER, &p, 100), Act::Held));
    assert_eq!(s.fleet.deferred[0].deadline, 100 + 8 * SECOND);
    match s.fleet.hello("p", HelloVerdict::Verified) {
        HelloStep::Welcome { fresh: true, replay, .. } => {
            assert_eq!(replay.len(), 1);
            assert_eq!(replay[0].offer["id"].as_str(), Some("f1"));
        }
        _ => panic!("welcome"),
    }
    let waited = OFFER.replace("}", r#","__fleet_waited":true}"#);
    assert!(matches!(hear(&mut s, "q", &waited, &p, 0), Act::Look(_)));
    let announce = r#"{"type":"l3-announce"}"#;
    let overlay = PeerView { overlay: true, ..peer() };
    assert!(matches!(hear(&mut s, "q", announce, &overlay, 0), Act::Address));
    let open = PeerView { undecided: true, ..overlay };
    assert!(matches!(hear(&mut s, "q", announce, &open, 0), Act::Nothing));
}

#[test]
fn challenges_and_meeting_places_are_taken() {
    let mut s = RecvSession::new(plan(false), "secret", 0);
    let nonce = json(r#"{"type":"l3-nonce"}"#);
    let p = peer();
    let r = s.hear("p", &nonce, HELLO, &p, "t", Some(vec![1; 16]), "fresh", 0);
    assert!(matches!(r, Act::Announce { greet: true }));
    assert_eq!(s.fleet.bind_theirs.get("p"), Some(&vec![1; 16]));
    let r = s.hear("p", &nonce, HELLO, &p, "t", Some(vec![2; 15]), "fresh", 0);
    assert!(matches!(r, Act::Nothing));
    assert_eq!(s.fleet.bind_theirs.get("p"), Some(&vec![1; 16]));
    let meet = format!(r#"{{"type":"fleet-rendezvous","secret":"{SECRET}"}}"#);
    assert!(matches!(hear(&mut s, "p", &meet, &p, 0), Act::Nothing));
    assert!(matches!(hear(&mut s, "p", r#"{"type":"fleet-hello"}"#, &p, 0), Act::Check));
    let _ = s.fleet.hello("p", HelloVerdict::Verified);
    assert!(matches!(hear(&mut s, "p", &meet, &p, 0), Act::Meet { secret } if secret == SECRET));
    let r = s.hear("p", &nonce, HELLO, &p, "t", Some(vec![3; 32]), "fresh", 0);
    assert!(matches!(r, Act::Announce { greet: false }));
    let short = r#"{"type":"fleet-rendezvous","secret":"abcd"}"#;
    assert!(matches!(hear(&mut s, "p", short, &p, 0), Act::Nothing));
}

#[test]
fn terminals_and_ports_are_spoken_of() {
    let mut s = RecvSession::new(plan(false), "secret", 0);
    let p = peer();
    s.terminals.attach("p", 0x8000_0001, "sess");
    let resize = r#"{"type":"pty-resize","sid":2147483649,"cols":100,"rows":40}"#;
    match hear(&mut s, "p", resize, &p, 0) {
        Act::Resize { sid, shows, cols, rows } => {
            assert_eq!((sid, cols, rows), (0x8000_0001, 100, 40));
            assert_eq!(shows.as_deref(), Some("sess"));
        }
        _ => panic!("resize"),
    }
    match hear(&mut s, "q", resize, &p, 0) {
        Act::Resize { sid, shows: None, cols, rows } => {
            assert_eq!((sid, cols, rows), (0x8000_0001, 100, 40));
        }
        _ => panic!("resize"),
    }
    assert!(matches!(hear(&mut s, "p", r#"{"type":"pty-resize"}"#, &p, 0), Act::Nothing));
    let workers = r#"{"type":"worker-ports","for":"q","ports":[1,2]}"#;
    match hear(&mut s, "p", workers, &p, 0) {
        Act::Workers { peer, ports } => assert_eq!((peer.as_str(), ports), ("q", vec![1, 2])),
        _ => panic!("ports"),
    }
    assert!(matches!(hear(&mut s, "p", r#"{"type":"brb","ttl":7}"#, &p, 0), Act::Away { secs: 7 }));
    assert!(matches!(hear(&mut s, "p", r#"{"type":"state"}"#, &p, 0), Act::Back));
    let served = hear(&mut s, "p", r#"{"type":"exec-open"}"#, &p, 0);
    assert!(matches!(served, Act::Serve(Received::Exec)));
    assert!(matches!(hear(&mut s, "p", r#"{"type":"unheard-of"}"#, &p, 0), Act::Nothing));
}

#[test]
fn secrets_change_hands_once() {
    let up = LinkView { exists_: true, has_secret: false, in_fleet: false, shaped: false };
    let keep = format!(r#"{{"type":"pair-keep","secret":"{SECRET}","offer_id":"o"}}"#);
    let mut minted = RecvSession::new(RecvPlan { daemon: true, ..plan(false) }, "secret", 0);
    let typed = minted.typed("pair", false, &Vec::new(), "t", SECOND);
    assert!(matches!(typed, Typed::Command(Command::Mint)));
    assert_eq!(minted.link_up("p", &up, 0).pair, LinkStep::Offer);
    assert_eq!(minted.link_up("p", &up, 0).pair, LinkStep::Nothing);
    match hear(&mut minted, "p", r#"{"type":"pair-keep-ack","ok":true}"#, &peer(), 0) {
        Act::Kept(KeepAcked::Store { name, secret }) => {
            assert_eq!((name.as_str(), secret.as_str()), ("laptop", "secret"));
        }
        _ => panic!("kept"),
    }
    assert_eq!(minted.pair.ceremony_secret, "fresh");
    let mut claimed = RecvSession::new(RecvPlan { daemon: true, ..plan(false) }, "secret", 0);
    let _ = claimed.typed("brave-otter-123", true, &Vec::new(), "t", SECOND);
    assert_eq!(claimed.link_up("p", &up, 0).pair, LinkStep::Wait);
    let fallback = r#"{"type":"__pair_fallback"}"#;
    match hear(&mut claimed, "p", fallback, &peer(), 0) {
        Act::HandOver { frame } => assert_eq!(frame["secret"].as_str(), Some("secret")),
        _ => panic!("hand over"),
    }
    assert!(matches!(hear(&mut claimed, "p", fallback, &peer(), 0), Act::Nothing));
    match hear(&mut claimed, "p", &keep, &peer(), 0) {
        Act::Keep { keep: Keep::Refuse { .. }, answer: Some(a) } => {
            assert_eq!(a["ok"].as_bool(), Some(false));
            assert_eq!(a["offer_id"].as_str(), Some("o"));
        }
        _ => panic!("refused"),
    }
    let wished = RecvPlan { remember: Some("desk".to_string()), ..plan(false) };
    let mut wishes = RecvSession::new(wished, "secret", 0);
    match hear(&mut wishes, "p", &keep, &peer(), 0) {
        Act::Keep { keep: Keep::Store { name, secret, ceremony: false }, answer: Some(a) } => {
            assert_eq!((name.as_str(), secret.as_str()), ("desk", SECRET));
            assert_eq!(a["ok"].as_bool(), Some(true));
        }
        _ => panic!("stored"),
    }
    let proof = r#"{"type":"pair-proof","mac":"m"}"#;
    assert!(matches!(hear(&mut wishes, "p", proof, &peer(), 0), Act::Proof { mac } if mac == "m"));
    let intro = format!(r#"{{"type":"pair-intro","name":"n","secret":"{SECRET}"}}"#);
    let trusted = PeerView { trusted: true, ..peer() };
    match hear(&mut wishes, "p", &intro, &trusted, 0) {
        Act::Introduced(Introduction::Store { line, .. }) => {
            assert_eq!(line, "introduced to 'n' by laptop, now a known device");
        }
        _ => panic!("introduced"),
    }
    let vouched = hear(&mut wishes, "p", &intro, &peer(), 0);
    assert!(matches!(vouched, Act::Introduced(Introduction::Ignore { .. })));
}

#[test]
fn a_fleet_link_takes_no_part_in_a_pairing() {
    let mut s = RecvSession::new(RecvPlan { daemon: true, ..plan(false) }, "secret", 0);
    let _ = s.typed("pair", false, &Vec::new(), "t", SECOND);
    let shaped = LinkView { exists_: true, has_secret: false, in_fleet: true, shaped: true };
    let up = s.link_up("p", &shaped, 0);
    assert!(up.greet);
    assert!(!up.begin);
    assert_eq!(up.pair, LinkStep::Nothing);
    let other = LinkView { shaped: false, ..shaped };
    assert_eq!(s.link_up("q", &other, 0).pair, LinkStep::Offer);
    let mut code = RecvSession::new(plan(true), "secret", 0);
    assert!(code.link_up("p", &other, 0).begin);
    assert!(!code.link_up("p", &other, 0).begin);
}

#[test]
fn files_come_to_their_end() {
    let named = RecvPlan { output: Some("out.bin".to_string()), ..plan(false) };
    let mut s = RecvSession::new(named, "secret", 0);
    let end = r#"{"type":"file-end","sid":7}"#;
    assert!(matches!(hear(&mut s, "p", end, &peer(), 0), Act::Nothing));
    let full = Some("d".to_string());
    s.assembly.begin("p", 7, "f1", "a.txt", 4, 0, "a.txt.part", full);
    assert!(!s.take_stock());
    assert!(s.received_before);
    let _ = s.assembly.chunk("p", 7, Some(0));
    assert!(matches!(hear(&mut s, "p", end, &peer(), 0), Act::Nothing));
    assert!(s.assembly.stranded().is_empty());
    assert!(s.assembly.written("p", 7, 0, 4, true));
    assert_eq!(s.assembly.stranded(), vec![("p".to_string(), 7)]);
    assert!(matches!(hear(&mut s, "p", end, &peer(), 0), Act::Complete { sid: 7 }));
    let (settled, name) = s.settle("p", 7, VerifyResult::Match);
    assert!(matches!(settled, Settled::Place { ack: true, .. }));
    assert_eq!(name.as_deref(), Some("out.bin"));
    assert!(s.assembly.placed(true, true));
    s.assembly.begin("p", 8, "f2", "b.txt", 4, 0, "b.txt.part", None);
    let (settled, name) = s.settle("p", 8, VerifyResult::Match);
    assert!(matches!(settled, Settled::Place { ack: false, .. }));
    assert_eq!(name, None);
    let (settled, _) = s.settle("p", 8, VerifyResult::Match);
    assert!(matches!(settled, Settled::Unknown));
    assert!(s.take_stock());
}

#[test]
fn a_dash_is_the_standard_output() {
    let dash = RecvPlan { output: Some("-".to_string()), ..plan(false) };
    assert!(dash.to_stdout());
    assert!(!plan(false).to_stdout());
    let mut s = RecvSession::new(dash, "secret", 0);
    s.assembly.begin("p", 7, "f1", "a", 4, 0, "", None);
    let (settled, name) = s.settle("p", 7, VerifyResult::Match);
    assert!(matches!(settled, Settled::Streamed));
    assert_eq!(name, None);
    assert_eq!(s.assembly.completed, 1);
}

#[test]
fn a_receiver_leaves_when_everything_has_come() {
    let mut s = RecvSession::new(plan(true), "secret", 0);
    assert_eq!(s.leave(false, false, false, 0), ExitStep::Stay);
    assert_eq!(s.left(), LeftStep::Hold);
    assert_eq!(s.lost(true).as_deref(), Some("lost the sender after 5 attempts; the partial is kept, re-run `filament receive <code>` to resume"));
    assert_eq!(s.lost(false), None);
    assert!(!s.got_stuck());
    assert!(s.got_stuck());
    s.assembly.begin("p", 7, "f1", "a", 4, 0, "a.part", None);
    assert_eq!(s.left(), LeftStep::Park);
    assert!(s.assembly.files.is_empty());
    s.assembly.begin("p", 7, "f1", "a", 4, 4, "a.part", None);
    let _ = s.settle("p", 7, VerifyResult::Match);
    let _ = s.assembly.placed(true, false);
    assert_eq!(s.leave(true, false, false, 0), ExitStep::Stay);
    assert_eq!(s.leave(true, false, false, 10 * SECOND), ExitStep::Stay);
    assert_eq!(s.leave(true, false, false, 10 * SECOND + 1), ExitStep::DoneQuiet);
    assert_eq!(s.leave(true, false, true, 10 * SECOND + 1), ExitStep::Stay);
    assert_eq!(s.quiet, None);
    assert_eq!(s.leave(false, false, false, 11 * SECOND), ExitStep::Done);
    assert_eq!(s.left(), LeftStep::Done);
    assert_eq!(s.lost(true), None);
    assert!(s.take_stock());
    assert!(!s.got_stuck());
}

#[test]
fn an_open_question_owns_the_line() {
    let mut s = RecvSession::new(plan(false), "secret", 0);
    let names = vec!["desk".to_string()];
    let typed = s.typed("forget desk", false, &names, "t", 0);
    assert!(matches!(typed, Typed::Command(Command::Forget { name }) if name == "desk"));
    assert!(s.questions.ask("p", json(OFFER), 0));
    assert_eq!(s.leave(false, false, false, 0), ExitStep::Stay);
    match s.typed("y", false, &names, "t", SECOND) {
        Typed::Answer { answer: Answered::Accept { pid, offer }, show: Show::Closed } => {
            assert_eq!(pid, "p");
            assert_eq!(offer["__consent"].as_str(), Some("t"));
        }
        _ => panic!("accepted"),
    }
    let typed = s.typed("", false, &names, "t", SECOND);
    assert!(matches!(typed, Typed::Command(Command::Nothing)));
}

#[test]
fn closing_a_shell_ends_the_session_that_was_opened() {
    let mut s = RecvSession::new(plan(false), "secret", 0);
    let open = json(r#"{"type":"pty-open","session":"s","sid":2147483649}"#);
    let desk = PeerView { device: Some("desk".to_string()), ..peer() };
    let opened = pty_params(&open, Some("desk"), "p", 0x8000_0001).session;
    let other = pty_params(&open, Some("phone"), "p", 0x8000_0001).session;
    let nameless = pty_params(&open, None, "p", 0x8000_0001).session;
    assert_eq!(opened, "desk\u{1}s");
    assert_eq!(other, "phone\u{1}s");
    assert_eq!(nameless, "p\u{1}s");
    s.terminals.attach("p", 0x8000_0001, &opened);
    s.terminals.attach("q", 0x8000_0001, &other);
    let resize = r#"{"type":"pty-resize","sid":2147483649,"cols":100,"rows":40}"#;
    let close = r#"{"type":"pty-close","session":"s"}"#;
    match hear(&mut s, "p", close, &desk, 0) {
        Act::End { session } => assert_eq!(session, opened),
        _ => panic!("ended"),
    }
    assert!(matches!(hear(&mut s, "p", resize, &desk, 0), Act::Resize { shows: None, .. }));
    match hear(&mut s, "q", resize, &desk, 0) {
        Act::Resize { shows, .. } => assert_eq!(shows, Some(other)),
        _ => panic!("resize"),
    }
    assert!(matches!(hear(&mut s, "p", close, &peer(), 0), Act::End { session } if session == nameless));
    assert!(matches!(hear(&mut s, "p", r#"{"type":"pty-close"}"#, &desk, 0), Act::Nothing));
    assert_eq!(session_name(&json(close), Some("desk"), "p"), Some(opened));
    assert_eq!(session_name(&json("{}"), Some("desk"), "p"), None);
}

#[test]
fn a_candidate_out_of_time_is_not_heard_until_its_link_comes_up() {
    let mut s = RecvSession::new(plan(true), "secret", 0);
    let message = json(r#"{"type":"pake-msg"}"#);
    assert!(matches!(s.signal("p", &message, 0), SignalStep::Ceremony { begin: true }));
    assert!(matches!(s.signal("q", &message, SECOND), SignalStep::Ceremony { begin: true }));
    assert_eq!(s.candidates.expire(60 * SECOND + 1), vec!["p".to_string()]);
    assert!(matches!(s.signal("p", &message, 60 * SECOND + 2), SignalStep::Ignore));
    let up = LinkView { exists_: true, has_secret: false, in_fleet: false, shaped: false };
    assert!(s.link_up("p", &up, 60 * SECOND + 2).begin);
    assert!(matches!(
        s.signal("p", &message, 60 * SECOND + 3),
        SignalStep::Ceremony { begin: false }
    ));
    assert!(matches!(s.candidates.advance("q", Inbound::Failed), Progress::Dropped));
    assert!(s.candidates.offers.get("q").is_none());
    assert!(matches!(
        s.signal("q", &message, 60 * SECOND + 2),
        SignalStep::Ceremony { begin: true }
    ));
}

#[test]
fn a_new_receiver_has_no_clock_running() {
    let s = RecvSession::new(plan(true), "secret", 77);
    assert_eq!(s.candidates.overall, None);
    assert!(!s.candidates.timed_out(u64::MAX));
    assert!(!s.candidates.settled);
    assert!(s.questions.pending.is_empty() && !s.questions.open);
    assert!(s.pair.paired && !s.pair.claim_in_flight);
}

#[test]
fn a_receive_under_a_blanket_yes_remembers() {
    let yes = RecvPlan { yes: true, ..plan(false) };
    let mut s = RecvSession::new(yes, "secret", 0);
    let keep = format!(
        r#"{{"type":"pair-keep","v":2,"offer_id":"o","secret":"{SECRET}","name":"desk 1"}}"#
    );
    match hear(&mut s, "p", &keep, &peer(), 0) {
        Act::Keep { keep: Keep::Store { name, secret, ceremony: false }, answer: Some(a) } => {
            assert_eq!((name.as_str(), secret.as_str()), ("desk1", SECRET));
            assert_eq!(a, json(r#"{"type":"pair-keep-ack","ok":true,"offer_id":"o","v":2}"#));
        }
        _ => panic!("stored"),
    }
}

#[test]
fn senders_are_kept_in_touch_with_once_something_came() {
    let mut s = RecvSession::new(plan(false), "secret", 0);
    s.assembly.begin("p", 7, "f1", "a", 4, 0, "a.part", None);
    assert!(s.assembly.in_touch().is_empty());
    let _ = s.settle("p", 7, VerifyResult::Match);
    let _ = s.assembly.placed(true, false);
    assert!(s.assembly.in_touch().is_empty());
    s.assembly.begin("q", 8, "f2", "b", 4, 0, "b.part", None);
    s.assembly.begin("q", 9, "f3", "c", 4, 0, "c.part", None);
    assert_eq!(s.assembly.in_touch(), vec!["q".to_string(), "q".to_string()]);
}
