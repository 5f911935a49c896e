use filament::assembly::{Assembly, ChunkStep, EndStep, Settled};
use filament::console::{key, Answered, KeyStep, Questions, Show, SETTLE};
use filament::finish::{
    away_secs, code_rejected, done_line, exit_step, interrupted_line, link_change, lost_sender,
    peer_left, recv_transfer_done, state_frame, stuck_again, ExitStep, ExitView, LeftStep, Rejected,
};
use filament::keyed::Keyed;
use filament::offer::{
    decide_offer, effective_full, identity_hold, legacy_ok, offer_gate, parse_offer, resume_point,
    Decision, Gate, GateOutcome, IdentityState, PartFound, Standing, IDENTITY_HOLD,
};
use filament::recv_files::VerifyResult;
use filament::shared_defs::{PartMeta, SECOND};
use serde_json::Value;

fn got(s: &str) -> Value {
    serde_json::from_str(s).unwrap()
}

fn one_file() -> Assembly {
    let mut a = Assembly::new();
    a.begin("p", 1, "u-1", "a.txt", 10, 0, "/d/a.txt.part", Some("ff".to_string()));
    a
}

#[test]
fn chunks_arrive_in_any_order() {
    let mut a = one_file();
    assert_eq!(a.chunk("p", 2, Some(0)), ChunkStep::Unknown);
    assert_eq!(a.chunk("p", 1, None), ChunkStep::Offsetless);
    assert_eq!(a.chunk("p", 1, Some(5)), ChunkStep::Write { pos: 5 });
    assert_eq!(a.chunk("p", 1, Some(0)), ChunkStep::Write { pos: 0 });
    assert_eq!(a.file_end("p", 1), EndStep::Deferred);
    assert!(!a.written("p", 1, 5, 5, true));
    assert!(a.written("p", 1, 0, 5, true));
    assert_eq!(a.files[0].received, 10);
    assert_eq!(a.files[0].ranges, vec![(0, 10)]);
    assert_eq!(a.file_end("p", 9), EndStep::Unknown);
}

#[test]
fn a_verified_file_is_placed_and_acked() {
    let mut a = one_file();
    a.chunk("p", 1, Some(0));
    a.written("p", 1, 0, 10, true);
    assert_eq!(a.file_end("p", 1), EndStep::Ready);
    match a.settle("p", 1, false, VerifyResult::Match) {
        Settled::Place { file, ack } => {
            assert_eq!(file.name, "a.txt");
            assert!(ack);
        }
        _ => panic!("placed"),
    }
    assert!(a.files.is_empty());
    assert!(a.placed(true, true));
    assert_eq!(a.completed, 1);
    assert!(!a.placed(false, true));
    assert_eq!(a.completed, 1);
}

#[test]
fn a_corrupt_file_is_fetched_again_a_few_times() {
    let mut a = one_file();
    a.chunk("p", 1, Some(0));
    a.written("p", 1, 0, 10, true);
    for n in 1..=3u32 {
        match a.settle("p", 1, false, VerifyResult::Mismatch { restart_from_zero: true }) {
            Settled::Refetch { id, offset, attempt, restart } => {
                assert_eq!((id.as_str(), offset, attempt, restart), ("u-1", 0, n, true));
            }
            _ => panic!("again"),
        }
        assert_eq!(a.files[0].received, 0);
    }
    match a.settle("p", 1, false, VerifyResult::Mismatch { restart_from_zero: true }) {
        Settled::GiveUp { message } => assert_eq!(
            message,
            "  a.txt: whole-file checksum still wrong after 3 re-fetches, refusing to accept a corrupt file (partial kept)"
        ),
        _ => panic!("given up"),
    }
    assert!(a.files.is_empty());
}

#[test]
fn a_short_file_goes_on_from_what_is_there() {
    let mut a = one_file();
    a.chunk("p", 1, Some(0));
    a.written("p", 1, 0, 4, true);
    match a.settle("p", 1, false, VerifyResult::Mismatch { restart_from_zero: false }) {
        Settled::Refetch { offset, restart, .. } => assert_eq!((offset, restart), (4, false)),
        _ => panic!("again"),
    }
    assert!(matches!(a.settle("q", 1, false, VerifyResult::Match), Settled::Unknown));
    assert!(matches!(a.settle("p", 1, true, VerifyResult::Match), Settled::Streamed));
    assert_eq!(a.completed, 1);
}

#[test]
fn a_flowing_stream_keeps_its_file() {
    let mut a = one_file();
    assert!(!a.make_way("/d/a.txt.part", &vec!["p".to_string()]));
    assert_eq!(a.files.len(), 1);
    assert!(a.make_way("/d/a.txt.part", &vec![]));
    assert!(a.files.is_empty());
    let mut b = one_file();
    b.begin("q", 1, "v-1", "b.txt", 5, 3, "/d/b.txt.part", None);
    assert_eq!(b.files[1].received, 3);
    assert_eq!(b.files[1].ranges, vec![(0, 3)]);
    b.drop_peer("p");
    assert_eq!(b.files.len(), 1);
    assert_eq!(b.files[0].peer, "q");
    b.park_all();
    assert!(b.files.is_empty());
}

#[test]
fn only_the_authenticated_peer_is_heard() {
    let s = Standing {
        code_path: true,
        pake_done: false,
        bound: false,
        in_ceremony: true,
        fleet_pending: false,
    };
    let v = got("{}");
    assert_eq!(offer_gate(&s, &v), Gate::Buffer);
    assert_eq!(offer_gate(&Standing { in_ceremony: false, ..s }, &v), Gate::Ignore);
    let done = Standing { pake_done: true, bound: true, in_ceremony: false, ..s };
    assert_eq!(offer_gate(&done, &v), Gate::Consider);
    let open = Standing { code_path: false, fleet_pending: true, ..done };
    assert_eq!(offer_gate(&open, &v), Gate::Defer);
    assert_eq!(offer_gate(&open, &got(r#"{"__fleet_waited":true}"#)), Gate::Consider);
    assert_eq!(offer_gate(&Standing { pake_done: true, ..s }, &v), Gate::Ignore);
}

#[test]
fn offers_have_defaults() {
    let o = parse_offer(&got(r#"{"sid":4294967297,"__consent":"t"}"#), "t");
    assert_eq!((o.id.as_str(), o.sid, o.raw_name.as_str(), o.size), ("", 1, "file.bin", 0));
    assert!(o.consented && !o.resume);
    assert!(!parse_offer(&got(r#"{"__consent":"forged"}"#), "t").consented);
}

#[test]
fn a_partial_file_is_resumed_if_it_belongs() {
    let meta = |size: u64, head: Option<&str>| PartMeta {
        size,
        head: head.map(|s| s.to_string()),
        full: Some("ff".to_string()),
    };
    let part = |len: u64, m: PartMeta| Some(PartFound { len, meta: Some(m) });
    let head = Some("h".to_string());
    assert_eq!(resume_point(part(4, meta(10, Some("h"))), 10, &head), (4, Some("ff".to_string())));
    assert_eq!(resume_point(part(4, meta(10, None)), 10, &head), (4, Some("ff".to_string())));
    assert_eq!(resume_point(part(4, meta(10, Some("x"))), 10, &head), (0, None));
    assert_eq!(resume_point(part(4, meta(11, Some("h"))), 10, &head), (0, None));
    assert_eq!(resume_point(part(11, meta(10, Some("h"))), 10, &head), (0, None));
    assert_eq!(resume_point(Some(PartFound { len: 4, meta: None }), 10, &head), (0, None));
    assert_eq!(resume_point(None, 10, &head), (0, None));
    let some = |s: &str| Some(s.to_string());
    assert_eq!(effective_full(some("a"), some("b")), some("a"));
    assert_eq!(effective_full(None, some("b")), some("b"));
}

#[test]
fn an_offer_waits_for_an_identity_for_a_while() {
    let mut holds: Keyed<u64> = Keyed::new();
    let id = IdentityState { proven: false, device_known: false, link_ready: false, challenged: false };
    assert!(identity_hold(&mut holds, "p", true, false, &id, 0));
    assert!(!holds.contains("p"));
    let up = IdentityState { link_ready: true, ..id };
    assert!(identity_hold(&mut holds, "p", true, false, &up, 5));
    assert!(identity_hold(&mut holds, "p", true, false, &up, 5 + IDENTITY_HOLD - 1));
    assert!(!identity_hold(&mut holds, "p", true, false, &up, 5 + IDENTITY_HOLD));
    let known = IdentityState { device_known: true, ..up };
    assert!(!identity_hold(&mut holds, "q", true, false, &known, 0));
    let asked = IdentityState { challenged: true, ..known };
    assert!(identity_hold(&mut holds, "q", false, true, &asked, 0));
    assert!(!identity_hold(&mut holds, "q", false, false, &asked, 0));
}

#[test]
fn offers_are_decided() {
    assert!(legacy_ok(true, false, false, true, false, 0));
    assert!(!legacy_ok(true, true, true, false, true, 5));
    assert!(legacy_ok(false, true, false, false, false, 0));
    assert!(legacy_ok(false, false, false, false, true, 1));
    assert!(!legacy_ok(false, false, false, false, true, 0));
    let yes = GateOutcome { allowed: true, reason: None, hard_reason: None };
    assert!(matches!(decide_offer(&yes, "a", "desk", false, true), Decision::Accept));
    let no = GateOutcome { allowed: false, reason: None, hard_reason: None };
    assert!(matches!(decide_offer(&no, "a", "desk", false, true), Decision::Ask));
    match decide_offer(&no, "a", "desk", false, false) {
        Decision::Decline { line, request } => {
            assert_eq!(line, "  declined a from desk (no tty, use -y to auto-accept)");
            assert!(!request);
        }
        _ => panic!("declined"),
    }
    match decide_offer(&no, "a", "desk", true, false) {
        Decision::Decline { line, .. } => {
            assert_eq!(line, "  declined a from desk (unverified peer)")
        }
        _ => panic!("declined"),
    }
    let hard = GateOutcome {
        allowed: true,
        reason: None,
        hard_reason: Some("revoked".to_string()),
    };
    match decide_offer(&hard, "a", "desk", true, true) {
        Decision::Decline { line, request } => {
            assert_eq!(line, "  declined a from desk (revoked)");
            assert!(request);
        }
        _ => panic!("declined"),
    }
}

#[test]
fn keys_edit_a_line() {
    let mut line = String::new();
    assert_eq!(key(&mut line, b'y', true), KeyStep::Answer('y'));
    assert_eq!(key(&mut line, b'N', true), KeyStep::Answer('n'));
    assert_eq!(key(&mut line, b'y', false), KeyStep::Echo('y'));
    assert_eq!(key(&mut line, b'n', true), KeyStep::Echo('n'));
    assert_eq!(key(&mut line, 0x7f, true), KeyStep::Erase);
    assert_eq!(key(&mut line, b' ', false), KeyStep::Echo(' '));
    assert_eq!(key(&mut line, 27, false), KeyStep::Nothing);
    assert_eq!(key(&mut line, b'\r', false), KeyStep::Line("y".to_string()));
    assert_eq!(key(&mut line, 0x08, false), KeyStep::Nothing);
}

#[test]
fn questions_are_put_one_at_a_time() {
    let mut q = Questions::new(0);
    assert!(q.ask("p", got(r#"{"id":"1","name":"a"}"#), 0));
    assert!(!q.ask("q", got(r#"{"id":"2","name":"b"}"#), 1));
    assert!(q.open);
    let (a, show) = q.answer("y", "t", SETTLE - 1);
    assert!(matches!(a, Answered::Nothing) && show == Show::Leave);
    let (a, show) = q.answer("what", "t", SETTLE);
    assert!(matches!(a, Answered::Nothing) && show == Show::Again);
    let (a, show) = q.answer("YES", "t", SETTLE);
    match a {
        Answered::Accept { pid, offer } => {
            assert_eq!(pid, "p");
            assert_eq!(offer, got(r#"{"id":"1","name":"a","__consent":"t"}"#));
        }
        _ => panic!("accepted"),
    }
    assert_eq!(show, Show::New);
    let (a, show) = q.answer("n", "t", 2 * SETTLE);
    match a {
        Answered::Decline { pid, id, line } => {
            assert_eq!((pid.as_str(), id.as_str(), line.as_str()), ("q", "2", "  declined b"))
        }
        _ => panic!("declined"),
    }
    assert!(show == Show::Closed && !q.open);
}

#[test]
fn questions_of_dead_links_go() {
    let mut q = Questions::new(0);
    q.ask("p", got(r#"{"id":"1"}"#), 0);
    q.ask("q", got(r#"{"id":"2"}"#), 0);
    assert_eq!(q.purge(&vec!["p".to_string(), "q".to_string()], 9), Show::Leave);
    assert_eq!(q.purge(&vec!["q".to_string()], 9), Show::New);
    assert_eq!(q.shown, 9);
    assert_eq!(q.purge(&vec![], 10), Show::Closed);
    assert!(!q.open && q.pending.is_empty());
}

#[test]
fn a_settled_receiver_ends() {
    assert!(recv_transfer_done(1, false, true));
    assert!(!recv_transfer_done(1, true, true) && !recv_transfer_done(0, false, true));
    assert_eq!(done_line(1), "done (1 file).");
    assert_eq!(done_line(2), "done (2 files).");
    let v = ExitView {
        completed: 1,
        keep_open: false,
        idle: true,
        asking: false,
        linked: true,
        only_deferred: false,
        healthy: true,
    };
    let mut quiet = None;
    assert_eq!(exit_step(&v, &mut quiet, SECOND, 0), ExitStep::Stay);
    let deferred = ExitView { only_deferred: true, ..v };
    assert_eq!(exit_step(&deferred, &mut quiet, SECOND, 0), ExitStep::Done);
    assert_eq!(exit_step(&ExitView { linked: false, ..deferred }, &mut quiet, SECOND, 0), ExitStep::Done);
    let sick = ExitView { healthy: false, only_deferred: false, linked: true, ..deferred };
    let mut quiet = None;
    assert_eq!(exit_step(&sick, &mut quiet, SECOND, 0), ExitStep::Stay);
    assert_eq!(exit_step(&sick, &mut quiet, SECOND, SECOND), ExitStep::Stay);
    assert_eq!(exit_step(&sick, &mut quiet, SECOND, SECOND + 1), ExitStep::DoneQuiet);
}

#[test]
fn peers_that_leave_are_waited_for() {
    assert_eq!(peer_left(true, 0, false, true), LeftStep::Park);
    assert_eq!(peer_left(false, 1, false, true), LeftStep::Done);
    assert_eq!(peer_left(false, 0, false, true), LeftStep::Hold);
    assert_eq!(peer_left(false, 1, true, true), LeftStep::Listen);
    assert_eq!(lost_sender(true, true, false, 1), None);
    assert_eq!(
        lost_sender(true, true, false, 0),
        Some("lost the sender after 5 attempts; the partial is kept, re-run `filament receive <code>` to resume".to_string())
    );
    let mut n = 0;
    assert!(!stuck_again(&mut n, false));
    assert!(stuck_again(&mut n, false));
    assert!(!stuck_again(&mut n, true));
    assert_eq!(away_secs(&got("{}")), 120);
    assert_eq!(away_secs(&got(r#"{"ttl":9}"#)), 9);
    assert_eq!(away_secs(&got(r#"{"ttl":9000}"#)), 300);
    let c = link_change(true, "disconnected");
    assert!(c.close_streams && !c.detach_sessions);
    assert!(link_change(true, "failed").detach_sessions);
    assert!(!link_change(false, "closed").close_streams);
    assert_eq!(interrupted_line(true), "stopped serving; `filament up` starts again");
    assert_eq!(
        interrupted_line(false),
        "interrupted, partials kept; run the same command to resume"
    );
}

#[test]
fn a_state_frame_tells_what_is_there() {
    let mut a = one_file();
    a.chunk("p", 1, Some(0));
    a.written("p", 1, 0, 4, true);
    assert_eq!(
        state_frame(&a, "p", true),
        got(r#"{"type":"state","v":1,"transfers":{"u-1":4},"trusted":true,"away":false}"#)
    );
    assert_eq!(
        state_frame(&a, "q", false),
        got(r#"{"type":"state","v":1,"transfers":{},"trusted":false,"away":false}"#)
    );
}

#[test]
fn a_rejected_code_is_explained() {
    match code_rejected(&got(r#"{"error":"unknown"}"#), true, false, 0) {
        Rejected::Fail { message } => assert_eq!(
            message,
            "code rejected: unknown, codes burn after one use and expire after 10 min"
        ),
        _ => panic!("fails"),
    }
    match code_rejected(&got(r#"{"error":"x","why":"sender-gone"}"#), true, true, 0) {
        Rejected::GoOn { hint } => assert_eq!(
            hint,
            "the sender who made that code already left, ask them for a fresh one"
        ),
        _ => panic!("goes on"),
    }
}

#[test]
fn small_letters_are_an_answer() {
    let mut q = Questions::new(0);
    q.ask("p", got(r#"{"id":"1","name":"a"}"#), 0);
    let (a, show) = q.take_answer("Y", "t", SETTLE);
    assert!(matches!(a, Answered::Nothing) && show == Show::Again);
    let (a, show) = q.take_answer("y", "t", SETTLE);
    assert!(matches!(a, Answered::Accept { pid, .. } if pid == "p") && show == Show::Closed);
}

#[test]
fn the_same_offer_is_not_shown_twice() {
    for id in [r#""1""#, "true", "null", "7", "-7", "[1,{\"a\":[false]}]"] {
        let mut q = Questions::new(0);
        q.ask("p", got(&format!(r#"{{"id":{id},"name":"a"}}"#)), 0);
        q.ask("q", got(&format!(r#"{{"id":{id},"name":"b"}}"#)), 0);
        assert_eq!(q.purge(&vec!["q".to_string()], 9), Show::Leave);
        assert_eq!(q.shown, 0);
    }
    let mut q = Questions::new(0);
    q.ask("p", got(r#"{"id":7}"#), 0);
    q.ask("q", got(r#"{"id":-7}"#), 0);
    assert_eq!(q.purge(&vec!["q".to_string()], 9), Show::New);
}
