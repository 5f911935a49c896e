use filament::enrolment::{
    enroll_step, EnrollAction, EnrollEvent, EnrollStage, Enrolment, VerifiedKey,
};
use filament::renewal_lifecycle::{enroll_error, ResponseView};
use serde_json::Value;

fn json(s: &str) -> Value {
    serde_json::from_str(s).unwrap()
}

fn fresh() -> Enrolment {
    Enrolment::new(Some("phone".to_string()), "shared".to_string(), "hub".to_string())
}

fn good() -> ResponseView {
    ResponseView {
        readable: true,
        owner_key: true,
        verifier: true,
        challenged: true,
        verified: true,
    }
}

fn invitation(ephemeral: bool) -> Option<VerifiedKey> {
    Some(VerifiedKey {
        owner_pub: vec![1, 2],
        device_pub: vec![0xff, 3],
        expires: 99,
        caps: vec!["send".to_string(), "route:10.0.0.0/8".to_string()],
        ephemeral,
        max_offline: json("7"),
    })
}

fn refusal(a: EnrollAction) -> Value {
    match a {
        EnrollAction::Refuse { frame } => frame,
        _ => panic!("refused"),
    }
}

/// As far as the certificate, under the name that was asked for.
fn minting(ephemeral: bool) -> Enrolment {
    let mut s = fresh();
    assert!(matches!(enroll_step(&mut s, EnrollEvent::Came), EnrollAction::Verify));
    let e = EnrollEvent::Verified { view: good(), key: invitation(ephemeral) };
    match enroll_step(&mut s, e) {
        EnrollAction::LookUp { device_pub } => assert_eq!(device_pub, vec![0xff, 3]),
        _ => panic!("looked up"),
    }
    match enroll_step(&mut s, EnrollEvent::LookedUp { prior: None, refusal: None }) {
        EnrollAction::Clean { name } => assert_eq!(name, "phone"),
        _ => panic!("made fit"),
    }
    match enroll_step(&mut s, EnrollEvent::Cleaned { name: "phone".to_string() }) {
        EnrollAction::Probe { name } => assert_eq!(name, "phone"),
        _ => panic!("asked about"),
    }
    match enroll_step(&mut s, EnrollEvent::Probed { pinned: true }) {
        EnrollAction::Probe { name } => assert_eq!(name, "phone-2"),
        _ => panic!("asked about again"),
    }
    match enroll_step(&mut s, EnrollEvent::Probed { pinned: false }) {
        EnrollAction::Mint { device_pub, caps, expires, persistent } => {
            assert_eq!(device_pub, vec![0xff, 3]);
            assert_eq!(caps, vec!["send".to_string(), "route:10.0.0.0/8".to_string()]);
            assert_eq!((expires, persistent), (99, !ephemeral));
        }
        _ => panic!("minted"),
    }
    assert_eq!(s.name, "phone-2");
    s
}

fn burning(ephemeral: bool) -> Enrolment {
    let mut s = minting(ephemeral);
    let e = EnrollEvent::Minted { enrolment: Some(json(r#"{"cert":1}"#)) };
    assert!(matches!(enroll_step(&mut s, e), EnrollAction::Burn));
    s
}

fn check_admission(a: EnrollAction, called: &str) {
    match a {
        EnrollAction::Admit { name, owner_pub, device_pub, expires, caps } => {
            assert_eq!(name, called);
            assert_eq!((owner_pub, device_pub), (vec![1, 2], vec![0xff, 3]));
            assert_eq!(expires, 99);
            assert_eq!(caps, vec!["send".to_string(), "route:10.0.0.0/8".to_string()]);
        }
        _ => panic!("admitted"),
    }
}

fn check_end(s: &mut Enrolment, called: &str) {
    match enroll_step(s, EnrollEvent::Admitted) {
        EnrollAction::Ack { frame } => assert_eq!(
            frame,
            json(&format!(
                r#"{{"cert":1,"type":"identity-auth-key-enroll-ack","name":"{called}","owner_name":"hub","secret":"shared","device_pub":"ff03","max_offline":7}}"#
            ))
        ),
        _ => panic!("acknowledged"),
    }
    assert_eq!(s.stage, EnrollStage::Over);
    assert!(matches!(enroll_step(s, EnrollEvent::Admitted), EnrollAction::Nothing));
    assert!(matches!(enroll_step(s, EnrollEvent::Came), EnrollAction::Nothing));
}

#[test]
fn an_ephemeral_device_is_enrolled_without_a_record() {
    let mut s = burning(true);
    let a = enroll_step(&mut s, EnrollEvent::Burned { burned: Ok(()) });
    check_admission(a, "phone-2");
    check_end(&mut s, "phone-2");
}

#[test]
fn a_device_that_stays_is_stored_first() {
    let mut s = burning(false);
    match enroll_step(&mut s, EnrollEvent::Burned { burned: Ok(()) }) {
        EnrollAction::Store { name, secret, reanchor } => {
            assert_eq!((name.as_str(), secret.as_str(), reanchor), ("phone-2", "shared", false));
        }
        _ => panic!("stored"),
    }
    let a = enroll_step(&mut s, EnrollEvent::Stored { stored: Ok("phone-3".to_string()) });
    check_admission(a, "phone-3");
    check_end(&mut s, "phone-3");
}

#[test]
fn a_lapsed_device_comes_back_under_its_name() {
    let mut s = fresh();
    enroll_step(&mut s, EnrollEvent::Came);
    enroll_step(&mut s, EnrollEvent::Verified { view: good(), key: invitation(false) });
    let prior = Some(json(r#"{"name":"old","principalState":"lapsed"}"#));
    match enroll_step(&mut s, EnrollEvent::LookedUp { prior, refusal: None }) {
        EnrollAction::Clean { name } => assert_eq!(name, "old"),
        _ => panic!("made fit"),
    }
    let a = enroll_step(&mut s, EnrollEvent::Cleaned { name: "old".to_string() });
    assert!(matches!(a, EnrollAction::Mint { persistent: true, .. }));
    assert!(s.reanchor);
    assert_eq!(s.name, "old");
}

#[test]
fn an_answer_that_does_not_hold_is_refused() {
    let views = [
        ResponseView { readable: false, ..good() },
        ResponseView { owner_key: false, ..good() },
        ResponseView { verifier: false, ..good() },
        ResponseView { challenged: false, ..good() },
        ResponseView { verified: false, ..good() },
    ];
    for view in views {
        let mut s = fresh();
        enroll_step(&mut s, EnrollEvent::Came);
        let a = enroll_step(&mut s, EnrollEvent::Verified { view, key: invitation(true) });
        assert_eq!(refusal(a), enroll_error("enrollment denied"));
        assert_eq!(s.stage, EnrollStage::Over);
    }
    let mut s = fresh();
    enroll_step(&mut s, EnrollEvent::Came);
    let a = enroll_step(&mut s, EnrollEvent::Verified { view: good(), key: None });
    assert_eq!(refusal(a), enroll_error("enrollment denied"));
}

#[test]
fn a_revoked_device_does_not_use_up_an_invitation() {
    let mut s = fresh();
    enroll_step(&mut s, EnrollEvent::Came);
    enroll_step(&mut s, EnrollEvent::Verified { view: good(), key: invitation(false) });
    let e = EnrollEvent::LookedUp {
        prior: Some(json(r#"{"name":"old"}"#)),
        refusal: Some("revoked".to_string()),
    };
    assert_eq!(refusal(enroll_step(&mut s, e)), enroll_error("revoked"));
    assert_eq!(s.stage, EnrollStage::Over);
    let late = EnrollEvent::Minted { enrolment: Some(json("{}")) };
    assert!(matches!(enroll_step(&mut s, late), EnrollAction::Nothing));
}

#[test]
fn without_a_certificate_nothing_is_used_up() {
    for enrolment in [None, Some(json("7")), Some(json("[1]"))] {
        let mut s = minting(true);
        let a = enroll_step(&mut s, EnrollEvent::Minted { enrolment });
        assert_eq!(refusal(a), enroll_error("enrollment denied"));
    }
}

#[test]
fn a_spent_invitation_says_why() {
    for (m, why) in [
        ("key already used", "already used"),
        ("uses exhausted", "use limit reached"),
        ("rate-limited now", "rate-limited"),
        ("disk", "enrollment denied"),
    ] {
        let mut s = burning(false);
        let a = enroll_step(&mut s, EnrollEvent::Burned { burned: Err(m.to_string()) });
        assert_eq!(refusal(a), enroll_error(why));
    }
    let mut s = burning(false);
    enroll_step(&mut s, EnrollEvent::Burned { burned: Ok(()) });
    let a = enroll_step(&mut s, EnrollEvent::Stored { stored: Err("disk".to_string()) });
    assert_eq!(refusal(a), enroll_error("enrollment denied"));
}

#[test]
fn what_was_not_waited_for_changes_nothing() {
    let mut s = fresh();
    let a = enroll_step(&mut s, EnrollEvent::Burned { burned: Ok(()) });
    assert!(matches!(a, EnrollAction::Nothing));
    assert_eq!(s.stage, EnrollStage::Start);
    let mut s = burning(true);
    assert!(matches!(enroll_step(&mut s, EnrollEvent::Admitted), EnrollAction::Nothing));
    assert_eq!(s.stage, EnrollStage::Burning);
}
