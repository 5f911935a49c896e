//! A peer asks to have its key put among those that may log in here.

use vstd::prelude::*;
use vstd::string::*;
use crate::frame;
use crate::frame::{copy, member, object, of_count, of_flag, of_text, of_texts, put};
use crate::offer;
use crate::offer::text_member;
use crate::streams;
use crate::streams::ssh_port;
use crate::text::{cat, cat3};

verus! {

/// What to do with the request.
pub enum KeyStep {
    /// It cannot be answered.
    Ignore,
    /// Look at it again shortly: the peer is just proving which device it is.
    Later,
    /// Refuse it; say `line` here, where there is one, and ask the operator where `enqueue`.
    Refuse { reason: String, line: Option<String>, enqueue: bool },
    /// Put this key among those that may log in.
    Install { device: String, key: String },
}

/// What is known when the request comes.
pub struct KeyView {
    /// The link can carry an answer.
    pub linked: bool,
    /// Terminals are served.
    pub enabled: bool,
    /// What to tell a peer where they are not.
    pub off_reason: String,
    /// The answer has to wait for the peer to prove which device it is.
    pub waits: bool,
    /// Which device it proved to be.
    pub device: Option<String>,
    /// It may have a shell.
    pub allowed: bool,
    /// Why not.
    pub deny_reason: String,
    /// The key, checked to be one line of one key, or why it is not.
    pub key: Result<String, String>,
}

impl KeyView {
    /// The key may be put among those that may log in.
    pub open spec fn may_install(self) -> bool {
        self.linked && self.enabled && !self.waits && self.allowed && self.device is Some
            && self.key is Ok
    }
}

/// What to do with the request. A device that is allowed and not known cannot be: it is refused
/// as one that is not allowed.
pub fn key_step(v: KeyView) -> (r: KeyStep)
    ensures
        r is Ignore <==> !v.linked,
        r is Later <==> v.linked && v.enabled && v.waits,
        r is Install <==> v.may_install(),
        r matches KeyStep::Install { device, key } ==> device@ == v.device->0@ && key@
            == v.key->Ok_0@,
        r matches KeyStep::Refuse { reason, line, enqueue } ==> {
            &&& enqueue == (v.enabled && (!v.allowed || v.device is None))
            &&& line is Some <==> v.enabled
            &&& !v.enabled ==> reason@ == v.off_reason@
            &&& enqueue ==> reason@ == "shell capability not granted"@ && line->0@
                == "l2: shell bootstrap refused: "@ + (match v.device {
                Some(d) => d@,
                None => "<unverified>"@,
            }) + ": "@ + v.deny_reason@
            &&& v.enabled && !enqueue ==> reason@ == "malformed pubkey"@ && v.key is Err
                && line->0@ == "l2: shell bootstrap refused: malformed pubkey from '"@ + v.device->0@
                + "': "@ + v.key->Err_0@
        },
{
    if !v.linked {
        return KeyStep::Ignore;
    }
    if !v.enabled {
        return KeyStep::Refuse { reason: v.off_reason, line: None, enqueue: false };
    }
    if v.waits {
        return KeyStep::Later;
    }
    match v.device {
        Some(d) => {
            if !v.allowed {
                let start = cat3("l2: shell bootstrap refused: ", d.as_str(), ": ");
                return KeyStep::Refuse {
                    reason: "shell capability not granted".to_owned(),
                    line: Some(cat(start.as_str(), v.deny_reason.as_str())),
                    enqueue: true,
                };
            }
            match v.key {
                Ok(k) => KeyStep::Install { device: d, key: k },
                Err(e) => {
                    let start = cat3(
                        "l2: shell bootstrap refused: malformed pubkey from '",
                        d.as_str(),
                        "': ",
                    );
                    KeyStep::Refuse {
                        reason: "malformed pubkey".to_owned(),
                        line: Some(cat(start.as_str(), e.as_str())),
                        enqueue: false,
                    }
                },
            }
        },
        None => {
            let start = cat3("l2: shell bootstrap refused: ", "<unverified>", ": ");
            KeyStep::Refuse {
                reason: "shell capability not granted".to_owned(),
                line: Some(cat(start.as_str(), v.deny_reason.as_str())),
                enqueue: true,
            }
        },
    }
}

/// The line about a key that was put among those that may log in; `failed` tells why it could
/// not be, where it could not.
pub fn installed_line(device: &str, failed: Option<&str>) -> (r: String)
    ensures
        r@ == (match failed {
            None => "l2: shell granted to '"@ + device@
                + "', installed managed key (filament-managed block)"@,
            Some(e) => "l2: shell bootstrap install failed for '"@ + device@ + "': "@ + e@,
        }),
{
    match failed {
        None => cat3(
            "l2: shell granted to '",
            device,
            "', installed managed key (filament-managed block)",
        ),
        Some(e) => {
            let start = cat3("l2: shell bootstrap install failed for '", device, "': ");
            cat(start.as_str(), e)
        },
    }
}

/// The frame that refuses the request.
pub open spec fn deny_json(reason: Seq<char>) -> frame::Json {
    frame::empty_object().with("type"@, frame::Json::Text("shell-bootstrap-deny"@)).with(
        "reason"@,
        frame::Json::Text(reason),
    )
}

/// The frame that refuses the request.
pub fn deny_frame(reason: &str) -> (r: serde_json::Value)
    ensures
        frame::json(r) == deny_json(reason@),
{
    let mut f = object();
    put(&mut f, "type", of_text("shell-bootstrap-deny"));
    put(&mut f, "reason", of_text(reason));
    f
}

/// The frame that grants the request.
pub open spec fn ack_json(hostkeys: frame::Json, user: Seq<char>, sshd: bool, port: u16) -> frame::Json {
    frame::empty_object().with("type"@, frame::Json::Text("shell-bootstrap-ack"@)).with(
        "hostkeys"@,
        hostkeys,
    ).with("user"@, frame::Json::Text(user)).with("sshd"@, frame::Json::Bool(sshd)).with(
        "ssh_port"@,
        frame::Json::Number(Some(port as u64)),
    )
}

/// The frame that grants the request: this machine's host keys, who to log in as, and whether
/// something listens on the port that was asked about.
pub fn ack_frame(request: &serde_json::Value, hostkeys: Vec<String>, user: &str, sshd: bool) -> (r:
    serde_json::Value)
    ensures
        frame::json(r) == ack_json(
            frame::Json::Array(hostkeys@.map_values(|s: String| frame::Json::Text(s@))),
            user@,
            sshd,
            streams::asked_port(frame::json(*request)),
        ),
{
    let mut f = object();
    put(&mut f, "type", of_text("shell-bootstrap-ack"));
    put(&mut f, "hostkeys", of_texts(hostkeys));
    put(&mut f, "user", of_text(user));
    put(&mut f, "sshd", of_flag(sshd));
    put(&mut f, "ssh_port", of_count(ssh_port(request) as u64));
    f
}

/// The answer to a sibling process that asked through us: the request was granted.
pub fn granted_reply(ack: &serde_json::Value) -> (r: serde_json::Value)
    ensures
        frame::json(r) == frame::empty_object().with("ok"@, frame::Json::Bool(true)).with(
            "hostkeys"@,
            frame::json(*ack).member("hostkeys"@),
        ).with("user"@, frame::json(*ack).member("user"@)).with(
            "sshd"@,
            frame::json(*ack).member("sshd"@),
        ),
{
    let mut f = object();
    put(&mut f, "ok", of_flag(true));
    put(&mut f, "hostkeys", copy(member(ack, "hostkeys")));
    put(&mut f, "user", copy(member(ack, "user")));
    put(&mut f, "sshd", copy(member(ack, "sshd")));
    f
}

/// The answer to a sibling process that asked through us: the request was refused.
pub fn denied_reply(deny: &serde_json::Value) -> (r: serde_json::Value)
    ensures
        frame::json(r) == frame::empty_object().with("ok"@, frame::Json::Bool(false)).with(
            "err"@,
            frame::Json::Text(
                offer::text_or(frame::json(*deny), "reason"@, "shell bootstrap denied"@),
            ),
        ),
{
    let why = text_member(deny, "reason", "shell bootstrap denied");
    let mut f = object();
    put(&mut f, "ok", of_flag(false));
    put(&mut f, "err", of_text(why.as_str()));
    f
}

} // verus!
