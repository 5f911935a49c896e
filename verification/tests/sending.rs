use filament::ack_window::{
    decide_ack_fallback, unconfirmed_error, unconfirmed_line, AckFallback, AckWindow, ACK_REPROBE,
    ACK_WAIT,
};
use filament::offer::parse_offer;
use filament::outgoing::{end_msg, offer_msg, send_outcome, Outbox, Outgoing, SendOutcome};
use filament::protocol::{accept_msg, decline_msg, delivery_ack_msg, proof_msg, verdict_msg};
use filament::setup::new_outgoing;
use filament::shared_defs::SECOND;
use filament::stream_plan::{spread, Cursor, Piece, Span};
use serde_json::Value;

fn value(s: &str) -> Value {
    serde_json::from_str(s).unwrap()
}

fn file(i: u32, name: &str, full: Option<&str>) -> Outgoing {
    new_outgoing("s-u", i, name.to_string(), 100, None, full.map(|s| s.to_string()), false)
}

fn box_of(files: Vec<Outgoing>) -> Outbox {
    Outbox { files }
}

#[test]
fn bytes_are_spread_in_equal_shares() {
    assert_eq!(
        spread(0, 10, 3),
        vec![
            Span { lane: 0, start: 0, end: 3 },
            Span { lane: 1, start: 3, end: 6 },
            Span { lane: 2, start: 6, end: 10 },
        ]
    );
    assert_eq!(
        spread(4, 10, 2),
        vec![Span { lane: 0, start: 4, end: 7 }, Span { lane: 1, start: 7, end: 10 }]
    );
}

#[test]
fn fewer_bytes_than_lanes_go_over_the_last() {
    assert_eq!(spread(0, 2, 4), vec![Span { lane: 3, start: 0, end: 2 }]);
    assert_eq!(spread(0, 5, 0), vec![Span { lane: 0, start: 0, end: 5 }]);
    assert_eq!(spread(10, 10, 3), vec![]);
    assert_eq!(spread(12, 10, 3), vec![]);
    assert_eq!(spread(u64::MAX, 5, 7), vec![]);
}

#[test]
fn every_byte_is_in_one_span() {
    for lanes in 0..6usize {
        for offset in 0..9u64 {
            let s = spread(offset, 8, lanes);
            for p in 0..8u64 {
                let n = s.iter().filter(|x| x.start <= p && p < x.end).count();
                assert_eq!(n, if p >= offset { 1 } else { 0 });
            }
        }
    }
}

#[test]
fn a_span_goes_out_in_pieces() {
    let mut c = Cursor::new(&Span { lane: 0, start: 100, end: 125 });
    assert_eq!(c.want(10), 10);
    assert_eq!(c.read(10), Piece::Send { at: 100, len: 10, tick: false });
    assert_eq!(c.read(3), Piece::Send { at: 110, len: 3, tick: false });
    assert_eq!(c.want(100), 12);
    assert_eq!(c.read(12), Piece::Send { at: 113, len: 12, tick: true });
    assert_eq!(c.want(100), 0);
    assert_eq!(c.read(0), Piece::Over);
}

#[test]
fn progress_is_shown_every_eighth_piece() {
    let mut c = Cursor::new(&Span { lane: 0, start: 0, end: 100 });
    let ticks: Vec<bool> = (0..9)
        .map(|_| match c.read(1) {
            Piece::Send { tick, .. } => tick,
            Piece::Over => false,
        })
        .collect();
    assert_eq!(ticks, vec![false, false, false, false, false, false, false, true, false]);
}

#[test]
fn a_file_is_numbered_from_one() {
    let o = file(0, "a.txt", Some("ff"));
    assert_eq!(o.sid, 1);
    assert_eq!(o.id, "s-u-1");
    assert!(!o.done && !o.sent && !o.acked && !o.accepted_once);
    assert_ne!(file(0, "a", None).id, file(1, "a", None).id);
}

#[test]
fn an_offer_is_read_as_it_was_meant() {
    let mut o = file(2, "a.txt", Some("ff"));
    o.head = Some("ee".to_string());
    let v = offer_msg(&o, true);
    assert_eq!(
        v,
        value(
            r#"{"type":"file-offer","id":"s-u-3","sid":3,"name":"a.txt","size":100,"resume":true,"head":"ee","full":"ff"}"#
        )
    );
    let r = parse_offer(&v, "token");
    assert_eq!(r.id, "s-u-3");
    assert_eq!(r.sid, 3);
    assert_eq!(r.raw_name, "a.txt");
    assert_eq!(r.size, 100);
    assert_eq!(r.head, Some("ee".to_string()));
    assert_eq!(r.full, Some("ff".to_string()));
    assert!(r.resume && !r.consented);
}

#[test]
fn an_offer_without_digests_has_none() {
    let v = offer_msg(&file(0, "a", None), false);
    assert_eq!(
        v,
        value(r#"{"type":"file-offer","id":"s-u-1","sid":1,"name":"a","size":100,"resume":false}"#)
    );
}

#[test]
fn only_what_is_not_done_is_offered() {
    let mut b = box_of(vec![file(0, "a", Some("f")), file(1, "b", Some("f")), file(2, "c", None)]);
    b.files[0].done = true;
    b.files[0].acked = true;
    b.files[1].accepted_once = true;
    let names: Vec<String> =
        b.offers().iter().map(|v| v["name"].as_str().unwrap().to_string()).collect();
    assert_eq!(names, vec!["b", "c"]);
    let resumes: Vec<bool> = b.offers().iter().map(|v| v["resume"].as_bool().unwrap()).collect();
    assert_eq!(resumes, vec![true, false]);
    assert_eq!(b.resumes().len(), 1);
    assert_eq!(b.ends(), vec![end_msg("s-u-2", 2), end_msg("s-u-3", 3)]);
    assert_eq!(b.unconfirmed(), vec!["b".to_string(), "c".to_string()]);
}

#[test]
fn a_delivered_file_is_done_once() {
    let mut b = box_of(vec![file(0, "a.txt", Some("ff"))]);
    assert_eq!(b.accepted(&accept_msg("s-u-1", 40)), ("s-u-1".to_string(), 40));
    assert!(b.files[0].accepted_once && b.busy());
    let of = b.begin_stream("s-u-1", 40, 5 * SECOND).ok().unwrap();
    assert_eq!((of.sid, of.name.as_str(), of.size), (1, "a.txt", 100));
    assert_eq!(b.files[0].stream_bytes, 60);
    assert!(b.end_stream("s-u-1", 6 * SECOND).is_none());
    assert!(b.all_sent() && !b.all_done() && !b.busy());
    let d = b.delivered(&delivery_ack_msg("s-u-1", 1), 8 * SECOND).unwrap();
    assert_eq!(d.line, "    a.txt delivered + verified (whole-file sha256 matched)");
    let s = d.summary.unwrap();
    assert_eq!((s.name.as_str(), s.bytes, s.nanos), ("a.txt", 60, 3 * SECOND));
    assert!(b.all_done());
    assert!(b.delivered(&delivery_ack_msg("s-u-1", 1), 9 * SECOND).is_none());
    assert_eq!(b.tally(), (1, 0));
}

#[test]
fn a_file_without_a_digest_is_done_when_it_was_sent() {
    let mut b = box_of(vec![file(0, "a", None)]);
    assert!(b.begin_stream("s-u-1", 0, 0).is_ok());
    let s = b.end_stream("s-u-1", 2 * SECOND).unwrap();
    assert_eq!((s.bytes, s.nanos), (100, 2 * SECOND));
    assert!(b.all_done());
}

#[test]
fn an_unknown_transfer_is_an_error() {
    let mut b = box_of(vec![file(0, "a", None)]);
    match b.begin_stream("x", 0, 0) {
        Err(e) => assert_eq!(e, "unknown transfer x"),
        Ok(_) => panic!("no such file"),
    }
    assert!(b.end_stream("x", 0).is_none());
    assert_eq!(b.accepted(&value("{}")), (String::new(), 0));
    assert!(!b.files[0].accepted_once);
}

#[test]
fn a_declined_file_is_done() {
    let mut b = box_of(vec![file(0, "a", Some("f")), file(1, "b", Some("f"))]);
    assert_eq!(b.refused(&decline_msg("s-u-2")), Some("declined: b".to_string()));
    assert!(b.files[1].done && b.files[1].declined && !b.files[1].acked);
    assert_eq!(b.refused(&decline_msg("nope")), None);
    assert_eq!(b.tally(), (0, 1));
}

#[test]
fn a_lost_tail_is_offered_again() {
    let mut b = box_of(vec![file(0, "a", Some("f")), file(1, "b", Some("f"))]);
    for o in b.files.iter_mut() {
        o.done = true;
        o.acked = true;
    }
    let again = b.reconcile(&value(r#"{"type":"state","transfers":{"s-u-1":99,"s-u-2":100}}"#));
    assert_eq!(again, vec![offer_msg(&b.files[0], true)]);
    assert!(!b.files[0].done && b.files[1].done);
    assert!(!b.files[0].acked && b.files[1].acked);
    assert!(b.delivered(&delivery_ack_msg("s-u-1", 1), 0).is_some());
    assert!(b.all_done());
    assert!(b.reconcile(&value(r#"{"type":"state"}"#)).is_empty());
}

#[test]
fn outcomes_say_what_was_delivered() {
    let all = send_outcome(2, 0);
    assert_eq!(all, SendOutcome::Complete { completed: 2 });
    assert_eq!(all.line(), "done.");
    assert_eq!(all.verdict(), Ok(()));
    let none = send_outcome(0, 2);
    assert_eq!(none.line(), "no files delivered (2 declined).");
    assert_eq!(none.verdict(), Err("send incomplete: 0 delivered, 2 declined".to_string()));
    let some = send_outcome(3, 1);
    assert_eq!(some.line(), "partial: 3 delivered, 1 declined.");
    assert_eq!(some.verdict(), Err("send incomplete: 3 delivered, 1 declined".to_string()));
}

#[test]
fn the_receiver_is_asked_again_once() {
    assert_eq!(decide_ack_fallback(true, false), AckFallback::Reprobe);
    assert_eq!(decide_ack_fallback(true, true), AckFallback::FailUnconfirmed);
    assert_eq!(decide_ack_fallback(false, false), AckFallback::FailUnconfirmed);
    let mut w = AckWindow::new();
    let s = w.step(0, ACK_WAIT, true, false, true);
    assert!(s.flush && s.act.is_none());
    let s = w.step(ACK_WAIT - 1, ACK_WAIT, true, false, true);
    assert!(!s.flush && s.act.is_none());
    assert_eq!(w.step(ACK_WAIT, ACK_WAIT, true, false, true).act, Some(AckFallback::Reprobe));
    assert_eq!(w.step(ACK_WAIT + 1, ACK_WAIT, true, false, true).act, None);
    let end = ACK_WAIT + ACK_REPROBE;
    assert_eq!(w.step(end, ACK_WAIT, true, false, true).act, Some(AckFallback::FailUnconfirmed));
}

#[test]
fn a_lost_link_is_not_asked_again() {
    let mut w = AckWindow::new();
    w.step(0, ACK_WAIT, true, false, false);
    assert_eq!(
        w.step(ACK_WAIT, ACK_WAIT, true, false, false).act,
        Some(AckFallback::FailUnconfirmed)
    );
    let mut done = AckWindow::new();
    let s = done.step(ACK_WAIT, 0, true, true, true);
    assert!(!s.flush && s.act.is_none() && done.sent_all_at.is_none());
}

#[test]
fn unconfirmed_sends_say_so() {
    assert_eq!(
        unconfirmed_line("a.txt"),
        "  a.txt: delivery not confirmed (no whole-file delivery-ack), the receiver may have gotten nothing; NOT marking complete"
    );
    assert_eq!(
        unconfirmed_error(0),
        "delivery not confirmed: 1 file(s) sent but never delivery-acked by the receiver (treating as unconfirmed, not delivered)"
    );
    assert!(unconfirmed_error(12).starts_with("delivery not confirmed: 12 file(s)"));
}

#[test]
fn answers_are_frames() {
    assert_eq!(accept_msg("i", 7), value(r#"{"type":"file-accept","id":"i","offset":7}"#));
    assert_eq!(decline_msg("i"), value(r#"{"type":"file-decline","id":"i"}"#));
    assert_eq!(delivery_ack_msg("i", 3), value(r#"{"type":"delivery-ack","id":"i","sid":3}"#));
    assert_eq!(end_msg("i", 3), value(r#"{"type":"file-end","id":"i","sid":3}"#));
    assert_eq!(proof_msg("m"), value(r#"{"type":"pair-proof","mac":"m"}"#));
    assert_eq!(verdict_msg(false), value(r#"{"type":"pair-proof-ack","ok":false}"#));
}

#[test]
fn a_declined_file_is_not_waited_for() {
    let mut b = box_of(vec![file(0, "a", Some("f")), file(1, "b", Some("f"))]);
    assert!(!b.all_sent());
    b.files[1].sent = true;
    assert!(!b.all_sent());
    b.refused(&decline_msg("s-u-1"));
    assert!(b.all_sent() && !b.all_done());
}
