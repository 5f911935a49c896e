use filament::remember::{
    ack_frame, answer_offer, apply_ack, first_version, judge_ack, judge_offer, make_offer, offer_frame, petname,
    Ack, AckStep, Answer, AnswerStep, Offer, Outcome,
};
use serde_json::Value;

fn parse(s: &str) -> Value {
    serde_json::from_str(s).unwrap()
}

const ID: &str = "00112233445566778899aabbccddeeff00112233445566778899aabbccddeeff";
const SECRET: &str = "ffeeddccbbaa99887766554433221100ffeeddccbbaa99887766554433221100";

fn offer() -> Offer {
    make_offer("laptop", "peer-1", ID, SECRET)
}

#[test]
fn an_offer_is_minted_from_fresh_secrets() {
    let o = offer();
    assert_eq!(o.offer_id, "0011223344556677");
    assert_eq!(o.secret, SECRET);
    assert_eq!(o.name, "laptop");
    assert_eq!(o.peer, "peer-1");
}

#[test]
fn an_offer_frame_holds_five_members() {
    let f = offer_frame(&offer(), "desk");
    let want = parse(&format!(
        r#"{{"type":"pair-keep","v":2,"offer_id":"0011223344556677","secret":"{SECRET}","name":"desk"}}"#
    ));
    assert_eq!(f, want);
}

#[test]
fn an_ack_echoes_the_offer_id() {
    let f = ack_frame(&offer_frame(&offer(), "desk"), true);
    let want =
        parse(r#"{"type":"pair-keep-ack","ok":true,"offer_id":"0011223344556677","v":2}"#);
    assert_eq!(f, want);
}

#[test]
fn an_ack_of_an_offer_without_id_carries_none() {
    let f = ack_frame(&parse(r#"{"type":"pair-keep","secret":"x"}"#), false);
    assert_eq!(f, parse(r#"{"type":"pair-keep-ack","ok":false}"#));
}

#[test]
fn an_accepting_ack_stores_once() {
    let mut pending = Some(offer());
    let ack = ack_frame(&offer_frame(&offer(), "desk"), true);
    assert_eq!(
        judge_ack(&pending, "peer-1", &ack),
        AckStep::Store { name: "laptop".to_string(), secret: SECRET.to_string() }
    );
    assert_eq!(
        apply_ack(&mut pending, "peer-1", &ack, Ok(())),
        Ok(Ack::Accepted { name: "laptop".to_string(), secret: SECRET.to_string() })
    );
    assert!(pending.is_none());
    assert_eq!(apply_ack(&mut pending, "peer-1", &ack, Ok(())), Ok(Ack::Unmatched));
}

#[test]
fn a_failed_store_leaves_the_offer_outstanding() {
    let mut pending = Some(offer());
    let ack = parse(r#"{"type":"pair-keep-ack","ok":true}"#);
    assert_eq!(
        apply_ack(&mut pending, "peer-1", &ack, Err("disk full".to_string())),
        Err("disk full".to_string())
    );
    assert!(pending.is_some());
}

#[test]
fn a_refusing_ack_drops_the_offer() {
    let mut pending = Some(offer());
    let ack = parse(r#"{"ok":false,"offer_id":"0011223344556677"}"#);
    assert_eq!(judge_ack(&pending, "peer-1", &ack), AckStep::Decline);
    assert_eq!(apply_ack(&mut pending, "peer-1", &ack, Ok(())), Ok(Ack::Declined));
    assert!(pending.is_none());
}

#[test]
fn a_stray_ack_is_ignored() {
    let mut pending = Some(offer());
    let other = parse(r#"{"ok":true,"offer_id":"ffffffffffffffff"}"#);
    assert_eq!(apply_ack(&mut pending, "peer-1", &other, Ok(())), Ok(Ack::Unmatched));
    let good = parse(r#"{"ok":true,"offer_id":"0011223344556677"}"#);
    assert_eq!(apply_ack(&mut pending, "peer-2", &good, Ok(())), Ok(Ack::Unmatched));
    assert!(pending.is_some());
}

#[test]
fn an_offer_is_answered_by_consent_alone() {
    let f = offer_frame(&offer(), "desk top!");
    assert_eq!(
        judge_offer(&f, Some("mine"), false, "them"),
        AnswerStep::Store { name: "mine".to_string(), secret: SECRET.to_string() }
    );
    assert_eq!(
        answer_offer(&f, None, true, "them", Ok(())),
        Ok(Answer::Kept { name: "desktop".to_string(), secret: SECRET.to_string() })
    );
    assert_eq!(
        answer_offer(&f, None, true, "them", Err("no".to_string())),
        Err("no".to_string())
    );
    let refused = answer_offer(&f, None, false, "them", Ok(())).unwrap();
    assert_eq!(
        refused,
        Answer::Refused {
            why: "them offered to be remembered; nothing was stored. Re-run with --remember <name> (or --yes) to accept".to_string()
        }
    );
    assert_eq!(refused.ok(), Some(false));
}

#[test]
fn an_offer_without_a_secret_is_ignored() {
    let short = parse(r#"{"type":"pair-keep","secret":"abc"}"#);
    let a = answer_offer(&short, Some("x"), true, "them", Ok(())).unwrap();
    assert_eq!(a, Answer::Ignored);
    assert_eq!(a.ok(), None);
    let none = parse(r#"{"type":"pair-keep"}"#);
    assert_eq!(answer_offer(&none, Some("x"), true, "them", Ok(())), Ok(Answer::Ignored));
}

#[test]
fn a_petname_holds_name_characters_only() {
    assert_eq!(petname(Some("  My Mac/../x\u{7}  "), "fb"), "MyMac..x");
    assert_eq!(petname(Some("///"), "fall back"), "fallback");
    assert_eq!(petname(None, "\u{e9}"), "device");
    assert_eq!(petname(Some(&"a".repeat(60)), "fb"), "a".repeat(40));
}

#[test]
fn an_outcome_claims_no_more_than_happened() {
    assert!(Outcome::Remembered("m".to_string()).stored());
    assert!(!Outcome::Declined.stored());
    assert!(!Outcome::Unanswered.stored());
    assert!(!Outcome::NoPeer.stored());
    assert_eq!(
        Outcome::Remembered("m".to_string()).line(),
        "remembered as 'm'. it is in `filament devices` and survives a restart; find each other with no code"
    );
    assert_eq!(
        Outcome::Declined.line(),
        "not remembered: the other side declined. nothing was stored here or there"
    );
    assert_eq!(
        Outcome::Unanswered.line(),
        "not remembered: the other side never answered, so nothing was stored (it needs --remember <name> or --yes)"
    );
    assert_eq!(
        Outcome::NoPeer.line(),
        "not remembered: no peer was reached, so nothing was offered and nothing was stored"
    );
}

#[test]
fn only_a_yes_is_a_yes() {
    for f in [
        r#"{"type":"pair-keep-ack","v":2,"offer_id":"0011223344556677"}"#,
        r#"{"type":"pair-keep-ack","v":2,"offer_id":"0011223344556677","ok":"true"}"#,
        r#"{"type":"pair-keep-ack","v":2,"offer_id":"0011223344556677","ok":null}"#,
        r#"{"type":"pair-keep-ack"}"#,
    ] {
        let mut pending = Some(offer());
        assert_eq!(judge_ack(&pending, "peer-1", &parse(f)), AckStep::Decline);
        assert_eq!(apply_ack(&mut pending, "peer-1", &parse(f), Ok(())), Ok(Ack::Declined));
        assert!(pending.is_none());
    }
}

#[test]
fn a_second_version_ack_names_its_offer() {
    let mut pending = Some(offer());
    let nameless = parse(r#"{"type":"pair-keep-ack","v":2,"ok":true}"#);
    assert_eq!(judge_ack(&pending, "peer-1", &nameless), AckStep::Unmatched);
    assert_eq!(apply_ack(&mut pending, "peer-1", &nameless, Ok(())), Ok(Ack::Unmatched));
    assert!(pending.is_some());
    let first = parse(r#"{"type":"pair-keep-ack","v":1,"ok":true}"#);
    assert!(matches!(
        apply_ack(&mut pending, "peer-1", &first, Ok(())),
        Ok(Ack::Accepted { .. })
    ));
    assert!(first_version(&first) && first_version(&parse("{}")));
    assert!(first_version(&parse(r#"{"v":null}"#)));
    assert!(!first_version(&nameless) && !first_version(&parse(r#"{"v":"1"}"#)));
}
