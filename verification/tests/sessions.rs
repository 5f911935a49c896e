use filament::ack_window::{ACK_REPROBE, ACK_WAIT};
use filament::assembly::Assembly;
use filament::dispatch::{answer, received, Answer, Received, ReceiverView, SenderView};
use filament::keyed::Keyed;
use filament::offer::{GateOutcome, IdentityState, PartFound, Standing};
use filament::offer_flow::{
    arrive, begin, begin_stream, part_names, reply, weigh, Arrival, Reply, Taking,
};
use filament::outgoing::{end_msg, offer_msg, Outbox, SendOutcome};
use filament::protocol::{accept_msg, decline_msg, delivery_ack_msg};
use filament::send_loop::{CLAIM_WAIT, ESTABLISH_WAIT, SLICE};
use filament::send_session::{After, Asked, Before, PeerView, SendSession, SignalStep};
use filament::setup::new_outgoing;
use filament::shared_defs::{PartMeta, SECOND};
use serde_json::Value;

fn json(s: &str) -> Value {
    serde_json::from_str(s).unwrap()
}

const HELLO: &str = "fleet-hello";

fn peer(can_prove: bool) -> PeerView {
    PeerView { unproved: false, ready: true, can_prove }
}

#[test]
fn frames_are_told_apart() {
    let v = ReceiverView { linked: true, verified: false, overlay: false, streams: true };
    let kind = |t: &str, v: &ReceiverView| received(&json(&format!(r#"{{"type":"{t}"}}"#)), HELLO, v);
    assert_eq!(kind("file-offer", &v), Received::FileOffer);
    assert_eq!(kind("fleet-hello", &v), Received::Hello);
    assert_eq!(kind("fleet-rendezvous", &v), Received::Nothing);
    assert_eq!(
        kind("fleet-rendezvous", &ReceiverView { verified: true, ..v }),
        Received::Rendezvous
    );
    assert_eq!(kind("l3-announce", &v), Received::Nothing);
    assert_eq!(kind("exec-open", &v), Received::Exec);
    assert_eq!(kind("l2-open", &v), Received::Forward);
    assert_eq!(kind("unheard-of", &v), Received::Nothing);
    assert_eq!(received(&json("{}"), HELLO, &v), Received::Nothing);
    let off = ReceiverView { streams: false, ..v };
    assert_eq!(kind("exec-open", &off), Received::StreamOff);
    assert_eq!(kind("l2-open", &off), Received::StreamOff);
    assert_eq!(kind("l2-close", &off), Received::Forward);
    assert_eq!(kind("ssh-sign-request", &off), Received::StreamOff);
    assert_eq!(kind("mount-open", &off), Received::Nothing);
    let unlinked = ReceiverView { linked: false, ..v };
    assert_eq!(kind("file-offer", &unlinked), Received::Nothing);
    assert_eq!(kind("roster", &unlinked), Received::Roster);
}

#[test]
fn answers_come_from_the_receiver() {
    let v = SenderView { unproved: false, active: true };
    let kind = |t: &str, v: &SenderView| answer(&json(&format!(r#"{{"type":"{t}"}}"#)), HELLO, v);
    assert_eq!(kind("file-accept", &v), Answer::Accept);
    assert_eq!(kind("delivery-ack", &v), Answer::Delivered);
    assert_eq!(kind("fleet-hello", &v), Answer::Nothing);
    let other = SenderView { active: false, ..v };
    assert_eq!(kind("delivery-ack", &other), Answer::Nothing);
    assert_eq!(kind("worker-ports", &other), Answer::WorkerPorts);
    assert_eq!(kind("l3-nonce", &SenderView { unproved: true, ..other }), Answer::Handshake);
}

fn session() -> SendSession {
    let files = vec![
        new_outgoing("s-u", 0, "a".to_string(), 100, None, Some("ff".to_string()), false),
        new_outgoing("s-u", 1, "b".to_string(), 50, None, Some("ee".to_string()), false),
    ];
    let mut s = SendSession::new(Outbox { files }, false, 0, ESTABLISH_WAIT, ACK_WAIT);
    s.active = Some("p".to_string());
    s.established = true;
    s
}

#[test]
fn a_send_runs_to_its_end() {
    let mut s = session();
    assert!(s.sends_to("p") && !s.sends_to("q"));
    assert!(matches!(s.before(false, 0), Before::Wait { nanos: None }));
    for (id, offset) in [("s-u-1", 0), ("s-u-2", 10)] {
        match s.hear("p", &accept_msg(id, offset), HELLO, &peer(false), 1) {
            Asked::Stream { id: i, offset: o } => assert_eq!((i.as_str(), o), (id, offset)),
            _ => panic!("stream"),
        }
        assert!(s.outbox.begin_stream(id, offset, 1).is_ok());
        assert!(s.outbox.end_stream(id, 2).is_none());
    }
    assert!(matches!(s.after(3, true), After::GoOn { flush: true, .. }));
    match s.hear("p", &delivery_ack_msg("s-u-1", 1), HELLO, &peer(false), 4) {
        Asked::Delivered { news } => assert!(news.is_some()),
        _ => panic!("delivered"),
    }
    // a word of somebody else counts for nothing
    assert!(matches!(
        s.hear("q", &delivery_ack_msg("s-u-2", 2), HELLO, &peer(false), 4),
        Asked::Nothing
    ));
    match s.after(5, true) {
        After::GoOn { flush, ends } => assert!(!flush && ends.is_empty()),
        _ => panic!("goes on"),
    }
    s.hear("p", &delivery_ack_msg("s-u-2", 2), HELLO, &peer(false), 6);
    match s.after(7, true) {
        After::Finished { outcome } => {
            assert_eq!(outcome, SendOutcome::Complete { completed: 2 })
        }
        _ => panic!("finished"),
    }
}

#[test]
fn a_send_without_a_word_fails() {
    let mut s = session();
    for o in s.outbox.files.iter_mut() {
        o.accepted_once = true;
        o.sent = true;
    }
    s.hear("p", &delivery_ack_msg("s-u-1", 1), HELLO, &peer(false), 0);
    assert!(matches!(s.after(0, true), After::GoOn { flush: true, .. }));
    match s.after(ACK_WAIT, true) {
        After::GoOn { flush, ends } => {
            assert!(!flush);
            assert_eq!(ends, vec![end_msg("s-u-2", 2)]);
        }
        _ => panic!("asked again"),
    }
    match s.after(ACK_WAIT + ACK_REPROBE, true) {
        After::Unconfirmed { lines, message } => {
            assert_eq!(lines.len(), 1);
            assert!(lines[0].starts_with("  b: delivery not confirmed"));
            assert!(message.starts_with("delivery not confirmed: 1 file(s)"));
        }
        _ => panic!("unconfirmed"),
    }
}

#[test]
fn a_declined_send_is_incomplete() {
    let mut s = session();
    match s.hear("p", &decline_msg("s-u-1"), HELLO, &peer(false), 0) {
        Asked::Declined { line } => assert_eq!(line, Some("declined: a".to_string())),
        _ => panic!("declined"),
    }
    s.hear("p", &delivery_ack_msg("s-u-2", 2), HELLO, &peer(false), 0);
    match s.after(0, true) {
        After::Finished { outcome } => {
            assert_eq!(outcome, SendOutcome::Declined { completed: 1, declined: 1 })
        }
        _ => panic!("finished"),
    }
}

#[test]
fn a_sender_hears_its_receiver() {
    let mut s = session();
    assert!(matches!(
        s.hear("p", &json(r#"{"type":"brb","ttl":30}"#), HELLO, &peer(false), 0),
        Asked::Away { secs: 30 }
    ));
    assert!(matches!(s.hear("p", &json(r#"{"type":"back"}"#), HELLO, &peer(false), 0), Asked::Back));
    s.hear("p", &delivery_ack_msg("s-u-1", 1), HELLO, &peer(false), 0);
    let state = json(r#"{"type":"state","transfers":{"s-u-1":5},"trusted":false}"#);
    match s.hear("p", &state, HELLO, &peer(true), 0) {
        Asked::State { offers, prove } => {
            assert!(prove);
            assert_eq!(offers, vec![offer_msg(&s.outbox.files[0], true)]);
        }
        _ => panic!("state"),
    }
    match s.hear("p", &state, HELLO, &peer(true), 0) {
        Asked::State { offers, prove } => assert!(!prove && offers.is_empty()),
        _ => panic!("state"),
    }
    match s.hear("x", &json(r#"{"type":"worker-ports","for":"p","ports":[7]}"#), HELLO, &peer(false), 0) {
        Asked::Workers { peer, ports } => assert_eq!((peer.as_str(), ports), ("p", vec![7])),
        _ => panic!("workers"),
    }
    assert!(matches!(
        s.hear("x", &json(r#"{"type":"identity-nonce-challenge"}"#), HELLO, &peer(false), 0),
        Asked::Identity { challenge: None }
    ));
    assert!(matches!(
        s.hear("p", &json(r#"{"type":"pair-proof-ack","ok":false}"#), HELLO, &peer(false), 0),
        Asked::Verdict { stranger: true }
    ));
}

#[test]
fn a_send_waits_for_a_peer() {
    let mut s = session();
    s.active = None;
    s.established = false;
    assert!(matches!(s.before(false, 0), Before::Wait { nanos: Some(SLICE) }));
    assert!(matches!(s.before(true, 0), Before::Wait { nanos: None }));
    assert!(matches!(s.before(true, ESTABLISH_WAIT), Before::Fail { .. }));
    s.establish_limit = 0;
    assert!(matches!(s.before(false, CLAIM_WAIT), Before::Fail { .. }));
    assert!(!s.tells_state(10 * SECOND - 1));
    assert!(s.tells_state(10 * SECOND));
    assert!(!s.tells_state(11 * SECOND));
}

fn taking() -> Taking {
    Taking { daemon: false, yes: true, authoritative: false, tty: true, to_stdout: false }
}

fn known() -> IdentityState {
    IdentityState { proven: true, device_known: true, link_ready: true, challenged: false }
}

fn open_standing() -> Standing {
    Standing { code_path: false, pake_done: true, bound: true, in_ceremony: false, fleet_pending: false }
}

#[test]
fn an_offer_runs_to_its_first_byte() {
    let v = json(r#"{"type":"file-offer","id":"i","sid":4,"name":"a.txt","size":10,"full":"ff"}"#);
    let o = match arrive(&v, "t", &open_standing()) {
        Arrival::Consider(o) => o,
        _ => panic!("considered"),
    };
    assert_eq!(part_names("a.txt"), ("a.txt.part".to_string(), "a.txt.part.meta".to_string()));
    let mut holds: Keyed<u64> = Keyed::new();
    let part = PartFound {
        len: 4,
        meta: Some(PartMeta { size: 10, head: None, full: Some("old".to_string()) }),
    };
    let w = weigh(&o, Some(part), &mut holds, "p", false, false, &known(), &taking(), 0).unwrap();
    assert_eq!((w.offset, w.fit), (4, true));
    let gate = GateOutcome { allowed: true, reason: None, hard_reason: None };
    let mut a = Assembly::new();
    match reply(&o, "a.txt", "/d/a.txt.part", "desk", &w, &gate, &taking(), &mut a, &vec![]) {
        Reply::Open { resume, full, meta } => {
            assert!(resume && meta.is_none());
            assert_eq!(full, Some("ff".to_string()));
            assert_eq!(
                begin(&mut a, "p", &o, "a.txt", "/d/a.txt.part", w.offset, full),
                accept_msg("i", 4)
            );
        }
        _ => panic!("open"),
    }
    assert_eq!(a.files[0].received, 4);
    // the same again, while the first still flows
    match reply(
        &o,
        "a.txt",
        "/d/a.txt.part",
        "desk",
        &w,
        &gate,
        &taking(),
        &mut a,
        &vec!["p".to_string()],
    ) {
        Reply::Duplicate { line } => assert_eq!(
            line,
            "  (duplicate offer for a.txt ignored, already receiving it)"
        ),
        _ => panic!("duplicate"),
    }
}

#[test]
fn a_new_file_keeps_its_description() {
    let v = json(r#"{"id":"i","sid":4,"name":"a","size":10,"head":"h"}"#);
    let o = match arrive(&v, "t", &open_standing()) {
        Arrival::Consider(o) => o,
        _ => panic!("considered"),
    };
    let mut holds: Keyed<u64> = Keyed::new();
    let w = weigh(&o, None, &mut holds, "p", false, true, &known(), &taking(), 0).unwrap();
    assert_eq!(w.offset, 0);
    let gate = GateOutcome { allowed: true, reason: None, hard_reason: None };
    let mut a = Assembly::new();
    match reply(&o, "a", "/d/a.part", "desk", &w, &gate, &taking(), &mut a, &vec![]) {
        Reply::Open { resume, full, meta } => {
            let m = meta.unwrap();
            assert!(!resume && full.is_none());
            assert_eq!((m.size, m.head, m.full), (10, Some("h".to_string()), None));
        }
        _ => panic!("open"),
    }
    let stdout = Taking { to_stdout: true, ..taking() };
    assert!(matches!(
        reply(&o, "a", "", "desk", &w, &gate, &stdout, &mut a, &vec![]),
        Reply::Stream
    ));
    assert_eq!(begin_stream(&mut a, "p", &o, "a"), accept_msg("i", 0));
    assert!(a.files[0].full.is_none() && a.files[0].part_path.is_empty());
}

#[test]
fn an_offer_is_turned_away() {
    let v = json(r#"{"id":"i","name":"a","size":1}"#);
    let s = Standing { code_path: true, pake_done: false, bound: false, ..open_standing() };
    assert!(matches!(arrive(&v, "t", &s), Arrival::Ignore));
    assert!(matches!(arrive(&v, "t", &Standing { in_ceremony: true, ..s }), Arrival::Buffer));
    assert!(matches!(
        arrive(&v, "t", &Standing { fleet_pending: true, ..open_standing() }),
        Arrival::Defer
    ));
    let o = match arrive(&v, "t", &open_standing()) {
        Arrival::Consider(o) => o,
        _ => panic!("considered"),
    };
    let mut holds: Keyed<u64> = Keyed::new();
    let stranger =
        IdentityState { proven: false, device_known: false, link_ready: false, challenged: false };
    assert!(weigh(&o, None, &mut holds, "p", true, false, &stranger, &taking(), 0).is_none());
    let quiet = Taking { yes: false, tty: false, ..taking() };
    let w = weigh(&o, None, &mut holds, "p", false, false, &known(), &quiet, 0).unwrap();
    assert!(!w.fit);
    let gate = GateOutcome { allowed: false, reason: None, hard_reason: None };
    let mut a = Assembly::new();
    match reply(&o, "a", "/d/a.part", "desk", &w, &gate, &quiet, &mut a, &vec![]) {
        Reply::Decline { frame, line, request } => {
            assert_eq!(frame, decline_msg("i"));
            assert_eq!(line, "  declined a from desk (no tty, use -y to auto-accept)");
            assert!(!request);
        }
        _ => panic!("declined"),
    }
    let tty = Taking { tty: true, ..quiet };
    assert!(matches!(
        reply(&o, "a", "/d/a.part", "desk", &w, &gate, &tty, &mut a, &vec![]),
        Reply::Ask
    ));
}

#[test]
fn a_challenge_to_enroll_is_read() {
    let mut s = session();
    let n = "ab".repeat(32);
    let f = json(&format!(
        r#"{{"type":"identity-auth-key-enroll-challenge","nonce":"{n}","verifier_pub":"{n}","device_cert":7}}"#
    ));
    match s.hear("x", &f, HELLO, &peer(false), 0) {
        Asked::Enroll { challenge } => {
            let c = challenge.unwrap();
            assert_eq!((c.nonce, c.verifier), (vec![0xAB; 32], vec![0xAB; 32]));
            assert_eq!(c.cert, json("7"));
        }
        _ => panic!("enroll"),
    }
    let f = json(r#"{"type":"identity-auth-key-enroll-challenge","nonce":"ab"}"#);
    assert!(matches!(
        s.hear("x", &f, HELLO, &peer(false), 0),
        Asked::Enroll { challenge: None }
    ));
}

#[test]
fn one_peer_has_the_files() {
    let mut s = SendSession::new(Outbox { files: Vec::new() }, true, 0, ESTABLISH_WAIT, ACK_WAIT);
    assert!(!s.take_up("p", false));
    assert!(s.take_up("p", true));
    assert!(!s.take_up("q", true));
    assert!(s.sends_to("p"));
    s.established = true;
    assert!(!s.got_stuck());
    s.give_up_on("q");
    assert!(s.sends_to("p"));
    assert!(!s.established);
    assert!(!s.got_stuck());
    assert!(s.got_stuck());
    s.give_up_on("p");
    assert_eq!(s.active, None);
    s.settle_on("q");
    s.settle_on("r");
    assert!(s.sends_to("r"));
}

#[test]
fn a_receiver_that_left_is_waited_for() {
    let files = vec![new_outgoing("s-u", 1, "a".to_string(), 1, None, None, false)];
    let id = files[0].id.clone();
    let mut s = SendSession::new(Outbox { files }, false, 0, ESTABLISH_WAIT, ACK_WAIT);
    assert_eq!(s.left().as_deref(), Some("disconnected, waiting up to 120s"));
    let off = PeerView { ready: false, ..peer(false) };
    s.settle_on("p");
    assert!(matches!(s.hear("p", &accept_msg(&id, 0), HELLO, &off, 0), Asked::Nothing));
    assert!(!s.outbox.files[0].accepted_once);
    s.hear("p", &delivery_ack_msg(&id, 1), HELLO, &peer(false), 0);
    assert_eq!(s.left(), None);
}

#[test]
fn signals_go_where_they_belong() {
    let code = SendSession::new(Outbox { files: Vec::new() }, true, 0, ESTABLISH_WAIT, ACK_WAIT);
    let open = SendSession::new(Outbox { files: Vec::new() }, false, 0, ESTABLISH_WAIT, ACK_WAIT);
    let direct = json(r#"{"type":"transport-offer","addrs":["a:1"],"proto":2}"#);
    match code.signal(&direct) {
        SignalStep::Direct { offer, probe } => {
            assert_eq!(offer.addrs, vec!["a:1".to_string()]);
            assert_eq!(offer.proto, 2);
            assert!(!probe);
        }
        _ => panic!("direct"),
    }
    let message = json(r#"{"type":"pake-msg"}"#);
    assert!(matches!(code.signal(&message), SignalStep::Ceremony));
    assert!(matches!(open.signal(&message), SignalStep::Apply));
    assert!(matches!(code.signal(&json(r#"{"type":"sdp"}"#)), SignalStep::Apply));
}

#[test]
fn a_send_that_was_declined_in_part_ends() {
    let mut s = session();
    s.hear("p", &decline_msg("s-u-1"), HELLO, &peer(false), 0);
    s.hear("p", &accept_msg("s-u-2", 0), HELLO, &peer(false), 0);
    assert!(s.outbox.begin_stream("s-u-2", 0, 0).is_ok());
    assert!(s.outbox.end_stream("s-u-2", 0).is_none());
    assert!(matches!(s.after(0, true), After::GoOn { flush: true, .. }));
    assert_eq!(s.window.sent_all_at, Some(0));
    match s.after(ACK_WAIT, true) {
        After::GoOn { flush: false, ends } => assert_eq!(ends, vec![end_msg("s-u-2", 2)]),
        _ => panic!("asked again"),
    }
    match s.after(ACK_WAIT + ACK_REPROBE, true) {
        After::Unconfirmed { lines, message } => {
            assert_eq!(lines.len(), 1);
            assert!(message.starts_with("delivery not confirmed: 1 file(s)"));
        }
        _ => panic!("unconfirmed"),
    }
}

#[test]
fn without_files_nobody_is_waited_for() {
    let s = SendSession::new(Outbox { files: Vec::new() }, true, 0, ESTABLISH_WAIT, ACK_WAIT);
    assert_eq!(s.left(), None);
}
