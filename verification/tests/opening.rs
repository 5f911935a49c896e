use filament::receive_opening::{
    receive_set_up, CodeEntry, ReceiveSetUp, ReceiveStage, SetUpAction, SetUpEvent,
};
use filament::send_opening::{send_set_up, SendAction, SendEvent, SendSetUp, SendStage};
use filament::setup::{Relation, TargetView};

fn receive(daemon: bool, interactive: bool, requested: bool, code: Option<&str>) -> ReceiveSetUp {
    ReceiveSetUp::new(
        daemon,
        interactive,
        requested,
        code.map(|c| c.to_string()),
        None,
        "/tmp/fresh".to_string(),
        false,
        false,
    )
}

fn word(line: &str) -> SetUpEvent {
    SetUpEvent::Answered { line: line.to_string() }
}

#[test]
fn a_receive_is_cancelled_before_anything_is_made() {
    let mut s = receive(false, true, false, None);
    assert!(s.led);
    assert!(matches!(receive_set_up(&mut s, SetUpEvent::Begin), SetUpAction::EnterCode));
    let entry = CodeEntry::Submitted("brave-otter-371".to_string());
    match receive_set_up(&mut s, SetUpEvent::Entered { entry }) {
        SetUpAction::Confirm { from, into, consent } => {
            assert_eq!(from, "holder of this one-time code");
            assert_eq!(into, "/tmp/fresh");
            assert_eq!(consent, "ask before each offer");
        }
        _ => panic!("confirmed"),
    }
    assert!(s.led);
    assert_eq!(s.code.as_deref(), Some("brave-otter-371"));
    match receive_set_up(&mut s, word("Cancel")) {
        SetUpAction::Fail { message } => assert_eq!(message, "cancelled"),
        _ => panic!("cancelled"),
    }
    assert_eq!(s.stage, ReceiveStage::Over);
    assert!(matches!(receive_set_up(&mut s, word("")), SetUpAction::Nothing));
    assert!(matches!(receive_set_up(&mut s, SetUpEvent::Begin), SetUpAction::Nothing));
}

#[test]
fn a_receive_goes_on_after_the_last_word() {
    let mut s = receive(false, true, false, None);
    receive_set_up(&mut s, SetUpEvent::Begin);
    match receive_set_up(&mut s, SetUpEvent::Entered { entry: CodeEntry::Empty }) {
        SetUpAction::Confirm { from, .. } => assert_eq!(from, "nearby sender"),
        _ => panic!("confirmed"),
    }
    assert!(matches!(receive_set_up(&mut s, SetUpEvent::Begin), SetUpAction::Nothing));
    assert!(matches!(receive_set_up(&mut s, word("")), SetUpAction::Connect));
    let mut s = receive(false, true, true, Some("c"));
    s.to_stdout = true;
    s.yes = true;
    match receive_set_up(&mut s, SetUpEvent::Begin) {
        SetUpAction::Confirm { into, consent, .. } => {
            assert_eq!((into.as_str(), consent.as_str()), ("stdout", "accept matching offers"))
        }
        _ => panic!("confirmed"),
    }
    let mut s = receive(false, true, false, None);
    receive_set_up(&mut s, SetUpEvent::Begin);
    match receive_set_up(&mut s, SetUpEvent::Entered { entry: CodeEntry::Cancelled }) {
        SetUpAction::Fail { message } => assert_eq!(message, "cancelled"),
        _ => panic!("cancelled"),
    }
}

#[test]
fn a_receive_that_is_not_led_asks_nothing() {
    for mut s in [
        receive(false, true, false, Some("c")),
        receive(true, true, true, None),
        receive(false, false, true, None),
    ] {
        assert!(!s.led);
        assert!(matches!(receive_set_up(&mut s, SetUpEvent::Begin), SetUpAction::Connect));
        assert_eq!(s.stage, ReceiveStage::Over);
    }
}

fn send(interactive: bool, paths: &[&str], to: Option<&str>) -> SendSetUp {
    SendSetUp::new(
        false,
        interactive,
        false,
        false,
        paths.iter().map(|p| p.to_string()).collect(),
        false,
        None,
        to.map(|t| t.to_string()),
    )
}

fn typed(line: &str) -> SendEvent {
    SendEvent::Answered { line: line.to_string() }
}

fn known(names: &[&str]) -> SendEvent {
    SendEvent::Surveyed {
        devices: names.iter().map(|n| (n.to_string(), Relation::Paired)).collect(),
        view: TargetView { indexed: false, daemon: false, opted_in: false },
    }
}

fn failure(a: SendAction) -> String {
    match a {
        SendAction::Fail { message } => message,
        _ => panic!("failed"),
    }
}

/// As far as the choice of a device.
fn picking() -> SendSetUp {
    let mut s = send(true, &["/tmp/a.txt"], None);
    assert!(s.asked.led());
    match send_set_up(&mut s, SendEvent::Begin) {
        SendAction::Look { path } => assert_eq!(path, "/tmp/a.txt"),
        _ => panic!("looked"),
    }
    let a = send_set_up(&mut s, SendEvent::Looked { why: None });
    assert!(matches!(a, SendAction::Survey));
    match send_set_up(&mut s, known(&["laptop"])) {
        SendAction::Pick { items } => assert_eq!(
            items,
            vec![
                "laptop               PAIRED".to_string(),
                "shareable code / local network".to_string()
            ]
        ),
        _ => panic!("picked"),
    }
    s
}

#[test]
fn a_send_is_cancelled_before_anybody_is_dialled() {
    let mut s = picking();
    let a = send_set_up(&mut s, SendEvent::Picked { choice: Some(0) });
    assert!(matches!(a, SendAction::Gather));
    assert_eq!((s.to.as_deref(), s.use_code), (Some("laptop"), false));
    match send_set_up(&mut s, SendEvent::Gathered) {
        SendAction::Confirm { to } => assert_eq!(to, "laptop"),
        _ => panic!("confirmed"),
    }
    assert_eq!(failure(send_set_up(&mut s, typed("cancel"))), "cancelled");
    assert_eq!(s.stage, SendStage::Over);
    assert_eq!((s.word.as_deref(), s.use_code), (None, false));
    assert!(matches!(send_set_up(&mut s, typed("")), SendAction::Nothing));
}

#[test]
fn a_code_is_made_where_no_device_is_picked() {
    for choice in [None, Some(1), Some(9)] {
        let mut s = picking();
        assert!(matches!(send_set_up(&mut s, SendEvent::Picked { choice }), SendAction::Mint));
        assert!(!s.use_code);
        let e = SendEvent::Minted { words: "brave-otter".to_string() };
        assert!(matches!(send_set_up(&mut s, e), SendAction::Gather));
        assert_eq!((s.word.as_deref(), s.use_code), (Some("brave-otter"), true));
        match send_set_up(&mut s, SendEvent::Gathered) {
            SendAction::Confirm { to } => assert_eq!(to, "one-time code"),
            _ => panic!("confirmed"),
        }
        assert!(matches!(send_set_up(&mut s, typed("")), SendAction::Connect));
    }
    let mut s = send(true, &["-"], None);
    assert!(matches!(send_set_up(&mut s, SendEvent::Begin), SendAction::Survey));
    assert!(matches!(send_set_up(&mut s, known(&["laptop"])), SendAction::Gather));
    let mut s = send(true, &["a"], None);
    send_set_up(&mut s, SendEvent::Begin);
    send_set_up(&mut s, SendEvent::Looked { why: None });
    assert!(matches!(send_set_up(&mut s, known(&[])), SendAction::Mint));
}

#[test]
fn what_to_send_is_asked_first() {
    let mut s = send(true, &[], Some("laptop"));
    let a = send_set_up(&mut s, SendEvent::Begin);
    assert!(matches!(a, SendAction::AskPath { line: None }));
    assert!(matches!(send_set_up(&mut s, typed("x")), SendAction::Look { path } if path == "x"));
    let gone = || SendEvent::Looked { why: Some("gone".to_string()) };
    match send_set_up(&mut s, gone()) {
        SendAction::AskPath { line } => {
            assert_eq!(line.as_deref(), Some("  no such file or directory: 'x'"))
        }
        _ => panic!("asked again"),
    }
    assert!(matches!(send_set_up(&mut s, typed("y")), SendAction::Look { path } if path == "y"));
    assert_eq!(s.paths, vec!["y".to_string()]);
    send_set_up(&mut s, gone());
    assert_eq!(failure(send_set_up(&mut s, typed(""))), "cancelled");
    let mut s = send(true, &[], None);
    send_set_up(&mut s, SendEvent::Begin);
    assert_eq!(failure(send_set_up(&mut s, typed(""))), "cancelled");
    let mut s = send(false, &[], None);
    assert_eq!(
        failure(send_set_up(&mut s, SendEvent::Begin)),
        "nothing to send in non-interactive mode; pass a file, directory, or '-' for stdin"
    );
    let mut s = send(true, &["a", "b"], None);
    send_set_up(&mut s, SendEvent::Begin);
    assert_eq!(failure(send_set_up(&mut s, gone())), "cannot send 'a': gone");
}

#[test]
fn a_send_that_is_not_led_asks_nothing() {
    let mut s = send(false, &["a"], None);
    assert!(s.use_code && !s.asked.led());
    send_set_up(&mut s, SendEvent::Begin);
    send_set_up(&mut s, SendEvent::Looked { why: None });
    assert!(matches!(send_set_up(&mut s, known(&["laptop"])), SendAction::Gather));
    assert!(matches!(send_set_up(&mut s, SendEvent::Gathered), SendAction::Connect));
    let mut s = send(false, &["a"], Some("nobody"));
    assert!(!s.use_code);
    send_set_up(&mut s, SendEvent::Begin);
    send_set_up(&mut s, SendEvent::Looked { why: None });
    assert!(failure(send_set_up(&mut s, known(&["laptop"]))).starts_with("send --to 'nobody':"));
    let name = Some("ann".to_string());
    let mut s = SendSetUp::new(true, true, true, false, Vec::new(), false, None, name);
    assert!(!s.asked.led() && !s.use_code);
    assert!(matches!(send_set_up(&mut s, SendEvent::Begin), SendAction::Survey));
    assert!(matches!(send_set_up(&mut s, known(&[])), SendAction::Gather));
    assert!(matches!(send_set_up(&mut s, SendEvent::Gathered), SendAction::Connect));
}
