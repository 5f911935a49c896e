use filament::bootstrap::{
    ack_frame, denied_reply, deny_frame, granted_reply, installed_line, key_step, KeyStep, KeyView,
};
use filament::daemon::{
    carries, exposes_ports, lapsed_line, mount_gone, mount_gone_line, offers_tunnel, overlay_addr,
    overlay_mode, reconfigured, reexposed, reloading, starts_proxy, tunnels_on, up_line, Carry,
    OverlayAddr, OverlayMode,
};
use filament::presence::{
    appeared_line, brokered_answer, caps_frame, code_challenge, direct_up, is_news,
    rendezvous_frame, route, waits_for_proof, Identity, Route, Watched,
};
use serde_json::Value;

fn heard(s: &str) -> Value {
    serde_json::from_str(s).unwrap()
}

fn watched() -> Watched {
    Watched {
        devices: vec!["c1".to_string(), "c2".to_string()],
        brokered: vec!["b1".to_string(), "c2".to_string()],
        fleet: Some("f".to_string()),
        enroll: Some("e".to_string()),
    }
}

#[test]
fn a_peer_is_known_by_its_channel() {
    let w = watched();
    let at = |c: &str, id: &str| heard(&format!(r#"{{"channel":"{c}","id":"{id}"}}"#));
    assert_eq!(route(&at("c2", "p"), true, &w, "me", false), Route::Own);
    assert_eq!(route(&at("c2", "p"), false, &w, "me", false), Route::Device(1));
    assert_eq!(route(&at("b1", "p"), false, &w, "me", false), Route::Brokered(0));
    assert_eq!(route(&at("b1", ""), false, &w, "me", false), Route::Stranger);
    assert_eq!(
        route(&at("f", "p"), false, &w, "a", false),
        Route::Fleet { mark: true, dial: true }
    );
    assert_eq!(
        route(&at("f", "p"), false, &w, "z", true),
        Route::Fleet { mark: false, dial: false }
    );
    assert_eq!(route(&at("e", "p"), false, &w, "me", false), Route::Enroll);
    assert_eq!(route(&at("x", "p"), false, &w, "me", false), Route::Stranger);
    assert_eq!(route(&heard("{}"), false, &w, "me", false), Route::Stranger);
}

#[test]
fn only_news_is_told() {
    assert!(is_news(false, false, false));
    assert!(!is_news(true, false, false));
    assert!(!is_news(false, true, false));
    assert!(is_news(true, false, true));
    assert_eq!(appeared_line("desk"), "known device 'desk' appeared, connecting");
}

#[test]
fn devices_are_asked_to_prove_themselves() {
    let known = Identity { known: true, proven: false };
    let unknown = Identity { known: false, proven: false };
    let proven = Identity { known: true, proven: true };
    let up = direct_up(true, false, &known);
    assert!(up.challenge && up.hold);
    assert!(!direct_up(true, true, &unknown).challenge);
    assert!(!direct_up(true, true, &proven).challenge);
    let up = direct_up(false, true, &unknown);
    assert!(up.challenge && !up.hold);
    assert!(!direct_up(false, false, &unknown).challenge);
    assert!(code_challenge(true, true, &unknown));
    assert!(!code_challenge(true, false, &unknown));
    assert!(!code_challenge(true, true, &known));
    assert!(waits_for_proof(true, true, false));
    assert!(!waits_for_proof(true, true, true) && !waits_for_proof(false, true, false));
}

#[test]
fn a_meeting_place_is_handed_out() {
    assert_eq!(rendezvous_frame("s"), heard(r#"{"type":"fleet-rendezvous","secret":"s"}"#));
    assert_eq!(caps_frame(true), heard(r#"{"type":"caps","shell":true}"#));
    assert_eq!(brokered_answer("desk", Some(true), "s"), Ok(heard(r#"{"ok":true,"secret":"s"}"#)));
    assert_eq!(
        brokered_answer("desk", Some(false), "s"),
        Err("could not reach that peer over the warm link".to_string())
    );
    assert_eq!(
        brokered_answer("desk", None, "s"),
        Err("no verified link to 'desk'".to_string())
    );
}

fn asking() -> KeyView {
    KeyView {
        linked: true,
        enabled: true,
        off_reason: "shell serving is off".to_string(),
        waits: false,
        device: Some("desk".to_string()),
        allowed: true,
        deny_reason: "no shell cap / untrusted".to_string(),
        key: Ok("ssh-ed25519 AAAA".to_string()),
    }
}

#[test]
fn a_key_is_installed_for_an_allowed_device() {
    match key_step(asking()) {
        KeyStep::Install { device, key } => {
            assert_eq!((device.as_str(), key.as_str()), ("desk", "ssh-ed25519 AAAA"))
        }
        _ => panic!("installed"),
    }
    assert!(matches!(key_step(KeyView { linked: false, ..asking() }), KeyStep::Ignore));
    assert!(matches!(key_step(KeyView { waits: true, ..asking() }), KeyStep::Later));
}

#[test]
fn a_key_is_refused_with_a_reason() {
    match key_step(KeyView { enabled: false, ..asking() }) {
        KeyStep::Refuse { reason, line, enqueue } => {
            assert_eq!(reason, "shell serving is off");
            assert!(line.is_none() && !enqueue);
        }
        _ => panic!("off"),
    }
    match key_step(KeyView { allowed: false, ..asking() }) {
        KeyStep::Refuse { reason, line, enqueue } => {
            assert_eq!(reason, "shell capability not granted");
            assert_eq!(
                line,
                Some("l2: shell bootstrap refused: desk: no shell cap / untrusted".to_string())
            );
            assert!(enqueue);
        }
        _ => panic!("not granted"),
    }
    match key_step(KeyView { device: None, ..asking() }) {
        KeyStep::Refuse { line, .. } => assert_eq!(
            line,
            Some("l2: shell bootstrap refused: <unverified>: no shell cap / untrusted".to_string())
        ),
        _ => panic!("unverified"),
    }
    match key_step(KeyView { key: Err("two lines".to_string()), ..asking() }) {
        KeyStep::Refuse { reason, line, enqueue } => {
            assert_eq!(reason, "malformed pubkey");
            assert_eq!(
                line,
                Some("l2: shell bootstrap refused: malformed pubkey from 'desk': two lines".to_string())
            );
            assert!(!enqueue);
        }
        _ => panic!("malformed"),
    }
}

#[test]
fn bootstrap_answers_are_frames() {
    assert_eq!(deny_frame("no"), heard(r#"{"type":"shell-bootstrap-deny","reason":"no"}"#));
    let ack = ack_frame(
        &heard(r#"{"ssh_port":2222}"#),
        vec!["k1".to_string(), "k2".to_string()],
        "root",
        true,
    );
    assert_eq!(
        ack,
        heard(
            r#"{"type":"shell-bootstrap-ack","hostkeys":["k1","k2"],"user":"root","sshd":true,"ssh_port":2222}"#
        )
    );
    assert_eq!(
        granted_reply(&ack),
        heard(r#"{"ok":true,"hostkeys":["k1","k2"],"user":"root","sshd":true}"#)
    );
    assert_eq!(
        granted_reply(&heard("{}")),
        heard(r#"{"ok":true,"hostkeys":null,"user":null,"sshd":null}"#)
    );
    assert_eq!(denied_reply(&deny_frame("no")), heard(r#"{"ok":false,"err":"no"}"#));
    assert_eq!(
        denied_reply(&heard("{}")),
        heard(r#"{"ok":false,"err":"shell bootstrap denied"}"#)
    );
    assert_eq!(
        installed_line("desk", None),
        "l2: shell granted to 'desk', installed managed key (filament-managed block)"
    );
    assert_eq!(
        installed_line("desk", Some("disk full")),
        "l2: shell bootstrap install failed for 'desk': disk full"
    );
}

#[test]
fn a_daemon_reads_its_settings() {
    assert_eq!(overlay_mode(Some("kernel")), OverlayMode::Kernel);
    assert_eq!(overlay_mode(Some("userspace")), OverlayMode::Userspace);
    assert_eq!(overlay_mode(Some("auto")), OverlayMode::Auto);
    assert_eq!(overlay_mode(None), OverlayMode::Auto);
    assert!(matches!(overlay_addr(false, Some("auto")), OverlayAddr::Off));
    assert!(matches!(overlay_addr(true, None), OverlayAddr::Off));
    assert!(matches!(overlay_addr(true, Some("")), OverlayAddr::Off));
    assert!(matches!(overlay_addr(true, Some("auto")), OverlayAddr::Own));
    match overlay_addr(true, Some("10.0.0.1/24")) {
        OverlayAddr::Manual { cidr } => assert_eq!(cidr, "10.0.0.1/24"),
        _ => panic!("manual"),
    }
    assert!(exposes_ports(false, false, None));
    assert!(!exposes_ports(true, false, Some("auto")));
    assert!(exposes_ports(true, true, None) && exposes_ports(true, false, Some("userspace")));
    assert_eq!(carries(0, true), Carry::Nothing);
    assert_eq!(carries(1, true), Carry::Cannot);
    assert_eq!(carries(1, false), Carry::Enable);
    assert!(starts_proxy(true, true, false));
    assert!(!starts_proxy(true, true, true) && !starts_proxy(false, true, false));
    assert!(tunnels_on(Some("on")) && tunnels_on(Some("true")) && !tunnels_on(Some("off")));
    assert!(!tunnels_on(None));
    assert!(offers_tunnel(true, true, false) && !offers_tunnel(true, true, true));
    assert!(mount_gone(false, true) && mount_gone(true, false) && !mount_gone(true, true));
}

#[test]
fn a_daemon_answers_siblings() {
    assert_eq!(
        mount_gone_line("/m", "desk", "/home"),
        "mount /m is gone, removing from daemon tracking (was desk:/home)"
    );
    assert_eq!(up_line(1), "filament up, 1 known device");
    assert_eq!(up_line(2), "filament up, 2 known devices");
    assert_eq!(lapsed_line(0), None);
    assert_eq!(
        lapsed_line(2),
        Some("2 device(s) lapsed (offline past their budget)".to_string())
    );
    assert_eq!(reconfigured(true), heard(r#"{"ok":true,"live":true}"#));
    assert_eq!(reexposed(Some(3)), heard(r#"{"ok":true,"live":true,"count":3}"#));
    assert_eq!(reexposed(None), heard(r#"{"ok":true,"live":false,"count":0}"#));
    assert_eq!(reloading(false), heard(r#"{"ok":true,"reloading":false}"#));
}
