//! Streams over a link other than files: forwards, terminals and mounts.

use vstd::prelude::*;
use vstd::string::*;
use crate::frame;
use crate::frame::{count_at, flag_at, object, of_count, of_text, put, text_at};
use crate::keyed;
use crate::keyed::lists;
use crate::offer;
use crate::offer::{count_member, text_member};
use crate::shared_defs;
use crate::shared_defs::VERIFY_PROBE_SID;
use crate::text;
use crate::text::{cat3, same, to_hexadecimal};

verus! {

/// Where the numbers of such streams begin; below are those of files.
pub const STREAM_SIDS: u32 = 0x8000_0000;

/// The longest name of a terminal session that is taken from a peer, in bytes.
pub const MAX_SESSION: usize = 128;

/// The longest terminal type that is taken from a peer.
pub const MAX_TERM: usize = 64;

/// Which paired devices may have a shell without being granted it.
pub enum ShellPolicy {
    /// None.
    Granted,
    /// All of them.
    All,
    /// These.
    Only(Vec<String>),
}

impl ShellPolicy {
    /// A device may have a shell by the policy.
    pub open spec fn lets(self, name: Seq<char>) -> bool {
        match self {
            ShellPolicy::Granted => false,
            ShellPolicy::All => true,
            ShellPolicy::Only(v) => keyed::listed(v@, name),
        }
    }

    /// Whether a device may have a shell by the policy.
    pub fn auto_allows(&self, name: &str) -> (r: bool)
        ensures
            r == self.lets(name@),
    {
        match self {
            ShellPolicy::Granted => false,
            ShellPolicy::All => true,
            ShellPolicy::Only(v) => lists(v, name),
        }
    }

    /// Whether the policy turns streams on.
    pub fn enables_l2(&self) -> (r: bool)
        ensures
            r == !(self is Granted),
    {
        match self {
            ShellPolicy::Granted => false,
            _ => true,
        }
    }
}

/// Whether streams are served: by the policy, by the environment, or because some device was
/// granted a shell.
pub fn l2_enabled(policy: &ShellPolicy, opted_in: bool, any_grant: bool) -> (r: bool)
    ensures
        r == (!(policy is Granted) || opted_in || any_grant),
{
    policy.enables_l2() || opted_in || any_grant
}

/// Whether a peer may open a stream: any may where streams are on for all, otherwise one
/// that was granted a shell.
pub fn l2_open_allowed(blanket: bool, has_shell: bool) -> (r: bool)
    ensures
        r == (blanket || has_shell),
{
    blanket || has_shell
}

/// Whether a device may have a shell before capabilities are looked at: its link has proved
/// itself, it is not barred, and it is let by the policy or was granted one.
pub fn shell_legacy_ok(
    trusted: bool,
    device: Option<&str>,
    barred: bool,
    granted: bool,
    policy: &ShellPolicy,
) -> (r: bool)
    ensures
        r == (trusted && device is Some && !barred && (policy.lets(device->0@) || granted)),
{
    match device {
        Some(n) => trusted && !barred && (policy.auto_allows(n) || granted),
        None => false,
    }
}

/// The stream that a frame names: none where it is missing or out of range.
pub open spec fn named_sid(v: frame::Json) -> Option<u32> {
    match v.count_at("sid"@) {
        Some(n) => if n <= u32::MAX {
            Some(n as u32)
        } else {
            None
        },
        None => None,
    }
}

/// The stream that a frame names. One that is out of range is not cut down to one that is
/// in it.
pub fn wire_sid(v: &serde_json::Value) -> (r: Option<u32>)
    ensures
        r == named_sid(frame::json(*v)),
{
    match count_at(v, "sid") {
        Some(n) => if n <= u32::MAX as u64 {
            Some(n as u32)
        } else {
            None
        },
        None => None,
    }
}

/// A stream number is not one of a file's.
pub open spec fn stream_sid(sid: u32) -> bool {
    sid >= STREAM_SIDS
}

/// Whether a stream number is not one of a file's.
pub fn is_l2_sid(sid: u32) -> (r: bool)
    ensures
        r == stream_sid(sid),
{
    sid >= STREAM_SIDS
}

/// The stream that carries probes is none of these, so a probe is never served.
pub proof fn probes_are_not_streams()
    ensures
        !stream_sid(VERIFY_PROBE_SID),
{
}

/// Whether a chunk goes to the streams rather than to the files.
pub fn chunk_to_streams(enabled: bool, sid: u32) -> (r: bool)
    ensures
        r == (enabled && stream_sid(sid)),
{
    enabled && is_l2_sid(sid)
}

/// The low quarter of a number.
pub open spec fn low16(n: u64) -> u16 {
    (n % 0x1_0000) as u16
}

/// The port that an opening names.
pub open spec fn target_port(v: frame::Json) -> u16 {
    match v.count_at("rport"@) {
        Some(n) => low16(n),
        None => low16(offer::count_or_zero(v, "port"@)),
    }
}

/// The port that an opening names.
pub fn reach_port(v: &serde_json::Value) -> (r: u16)
    ensures
        r == target_port(frame::json(*v)),
{
    let n: u64 = match count_at(v, "rport") {
        Some(n) => n,
        None => count_member(v, "port"),
    };
    (n % 0x1_0000) as u16
}

/// The host that an opening names; this machine where it names none.
pub open spec fn target_host(v: frame::Json) -> Seq<char> {
    offer::text_or(v, "host"@, "127.0.0.1"@)
}

/// The host that an opening names.
pub fn reach_host(v: &serde_json::Value) -> (r: String)
    ensures
        r@ == target_host(frame::json(*v)),
{
    text_member(v, "host", "127.0.0.1")
}

/// Whether a port is one that the owner has exposed.
pub fn is_exposed(port: u16, exposed: &Vec<u16>) -> (r: bool)
    ensures
        r == (port != 0 && exposed@.contains(port)),
{
    if port == 0 {
        return false;
    }
    let mut i: usize = 0;
    while i < exposed.len()
        invariant
            i <= exposed@.len(),
            port != 0,
            forall|j: int| 0 <= j < i ==> exposed@[j] != port,
        decreases exposed.len() - i,
    {
        if exposed[i] == port {
            proof {
                assert(exposed@[i as int] == port);
            }
            return true;
        }
        i += 1;
    }
    false
}

/// The frame that closes a stream.
pub open spec fn close_json(sid: u64, err: Seq<char>) -> frame::Json {
    frame::empty_object().with("type"@, frame::Json::Text("l2-close"@)).with(
        "sid"@,
        frame::Json::Number(Some(sid)),
    ).with("err"@, frame::Json::Text(err))
}

/// The frame that closes a stream.
pub fn close_frame(sid: u64, err: &str) -> (r: serde_json::Value)
    ensures
        frame::json(r) == close_json(sid, err@),
{
    let mut f = object();
    put(&mut f, "type", of_text("l2-close"));
    put(&mut f, "sid", of_count(sid));
    put(&mut f, "err", of_text(err));
    f
}

/// What to do with a frame about a forward.
#[derive(Clone, Copy, Debug, PartialEq, Eq, Structural)]
pub enum ForwardStep {
    /// Take it: it closes a stream, which may be one that we opened.
    Close,
    /// Look at what the peer may do: it opens a stream.
    Open,
    /// Streams are off: refuse it in so many words, for the peer waits for an answer.
    Refuse { sid: u64 },
    /// Drop it: there is nobody to answer or nothing to name.
    Ignore,
}

/// What to do with a frame about a forward.
pub fn forward_step(v: &serde_json::Value, enabled: bool, linked: bool) -> (r: ForwardStep)
    ensures
        ({
            let j = frame::json(*v);
            let close = j.text_at("type"@) == Some("l2-close"@);
            if !linked {
                r is Ignore
            } else if close {
                r is Close
            } else if j.text_at("type"@) == Some("l2-open"@) {
                if enabled {
                    r is Open
                } else {
                    match j.count_at("sid"@) {
                        Some(n) => r == (ForwardStep::Refuse { sid: n }),
                        None => r is Ignore,
                    }
                }
            } else {
                r is Ignore
            }
        }),
{
    if !linked {
        return ForwardStep::Ignore;
    }
    match text_at(v, "type") {
        Some(t) => {
            if same(t, "l2-close") {
                return ForwardStep::Close;
            }
            if same(t, "l2-open") {
                if enabled {
                    return ForwardStep::Open;
                }
                return match count_at(v, "sid") {
                    Some(n) => ForwardStep::Refuse { sid: n },
                    None => ForwardStep::Ignore,
                };
            }
            ForwardStep::Ignore
        },
        None => ForwardStep::Ignore,
    }
}

/// The line about a stream that was refused.
pub fn refused_line(sid: u32, why: &str) -> (r: String)
    ensures
        r@ == "l2: refused stream 0x"@ + text::hexadecimal(sid as nat) + ": "@ + why@,
{
    let n = to_hexadecimal(sid as u64);
    let mut out = cat3("l2: refused stream 0x", n.as_str(), ": ");
    out.append(why);
    out
}

/// What a peer asks of a terminal.
pub struct PtyParams {
    pub cols: u16,
    pub rows: u16,
    /// The session to come back to after a link is lost.
    pub session: String,
    pub term: String,
    /// A command to run instead of a shell.
    pub cmd: String,
    /// Come back to a session, and start none.
    pub resume: bool,
}

/// A size, cut to what fits, or a default.
pub open spec fn size_or(v: frame::Json, key: Seq<char>, default: u16) -> u16 {
    match v.count_at(key) {
        Some(n) => low16(n),
        None => default,
    }
}

/// A terminal type is taken: visible ASCII, not empty, and no longer than `MAX_TERM`.
pub open spec fn good_term(s: Seq<char>) -> bool {
    &&& 0 < s.len() <= MAX_TERM
    &&& forall|i: int| 0 <= i < s.len() ==> 0x21 <= (#[trigger] s[i]) as int <= 0x7E
}

/// A session name is taken: not empty, and no longer than `MAX_SESSION` bytes.
pub open spec fn good_session(s: Seq<char>) -> bool {
    s.len() > 0 && text::byte_len(s) <= MAX_SESSION
}

/// The session that a frame names, if it names one. A name belongs to the device that gave it,
/// so that no device can name another's session.
pub open spec fn named_session(v: frame::Json, device: Option<Seq<char>>, pid: Seq<char>) -> Option<
    Seq<char>,
> {
    match v.text_at("session"@) {
        Some(s) => if good_session(s) {
            Some(
                (match device {
                    Some(d) => d,
                    None => pid,
                }) + "\u{1}"@ + s,
            )
        } else {
            None
        },
        None => None,
    }
}

/// The session that a frame names, if it names one.
pub fn session_name(v: &serde_json::Value, device: Option<&str>, pid: &str) -> (r: Option<String>)
    ensures
        shared_defs::view_of(r) == named_session(
            frame::json(*v),
            shared_defs::view_of_str(device),
            pid@,
        ),
{
    match text_at(v, "session") {
        Some(s) => if !s.is_empty() && s.len() <= MAX_SESSION {
            Some(
                cat3(
                    match device {
                        Some(d) => d,
                        None => pid,
                    },
                    "\u{1}",
                    s,
                ),
            )
        } else {
            None
        },
        None => None,
    }
}

/// The session that an opening is for: the one it names. Without a name, the stream makes one
/// that nobody comes back to.
pub open spec fn session_of(v: frame::Json, device: Option<Seq<char>>, pid: Seq<char>, sid: u32) -> Seq<
    char,
> {
    match named_session(v, device, pid) {
        Some(s) => s,
        None => pid + ":0x"@ + text::hexadecimal(sid as nat),
    }
}

/// The terminal type that an opening names, if it is taken.
pub open spec fn term_of(v: frame::Json) -> Seq<char> {
    match v.text_at("term"@) {
        Some(s) => if good_term(s) {
            s
        } else {
            "xterm-256color"@
        },
        None => "xterm-256color"@,
    }
}

fn visible(c: char) -> (r: bool)
    ensures
        r == (0x21 <= c as int <= 0x7E),
{
    let n: u32 = c as u32;
    0x21 <= n && n <= 0x7E
}

fn term_ok(s: &str) -> (r: bool)
    ensures
        r == good_term(s@),
{
    let n: usize = s.unicode_len();
    if n == 0 || n > MAX_TERM {
        return false;
    }
    let mut i: usize = 0;
    while i < n
        invariant
            i <= n,
            n == s@.len(),
            forall|j: int| 0 <= j < i ==> 0x21 <= (#[trigger] s@[j]) as int <= 0x7E,
        decreases n - i,
    {
        if !visible(s.get_char(i)) {
            return false;
        }
        i += 1;
    }
    true
}

pub(crate) fn size_member(v: &serde_json::Value, key: &str, default: u16) -> (r: u16)
    ensures
        r == size_or(frame::json(*v), key@, default),
{
    match count_at(v, key) {
        Some(n) => (n % 0x1_0000) as u16,
        None => default,
    }
}

/// What a peer asks of a terminal.
pub fn pty_params(v: &serde_json::Value, device: Option<&str>, pid: &str, sid: u32) -> (r: PtyParams)
    ensures
        ({
            let j = frame::json(*v);
            &&& r.cols == size_or(j, "cols"@, 80)
            &&& r.rows == size_or(j, "rows"@, 24)
            &&& r.session@ == session_of(j, shared_defs::view_of_str(device), pid@, sid)
            &&& r.term@ == term_of(j)
            &&& r.cmd@ == offer::text_or(j, "cmd"@, Seq::empty())
            &&& r.resume == (j.flag_at("resume"@) == Some(true))
        }),
{
    let session = match session_name(v, device, pid) {
        Some(s) => s,
        None => {
            let n = to_hexadecimal(sid as u64);
            cat3(pid, ":0x", n.as_str())
        },
    };
    let term = match text_at(v, "term") {
        Some(s) => if term_ok(s) {
            s.to_owned()
        } else {
            "xterm-256color".to_owned()
        },
        None => "xterm-256color".to_owned(),
    };
    let cmd = text_member(v, "cmd", "");
    proof {
        reveal_strlit("");
        assert(""@ =~= Seq::<char>::empty());
    }
    PtyParams {
        cols: size_member(v, "cols", 80),
        rows: size_member(v, "rows", 24),
        session,
        term,
        cmd,
        resume: match flag_at(v, "resume") {
            Some(b) => b,
            None => false,
        },
    }
}

/// What to do with the opening of a terminal.
#[derive(Clone, Copy, Debug, PartialEq, Eq, Structural)]
pub enum PtyStep {
    /// Streams are off: refuse it in so many words.
    Off { sid: u32 },
    /// It names no stream that it may have.
    Ignore,
    /// Look at what the peer may do.
    Gate { sid: u32 },
}

/// What to do with the opening of a terminal.
pub fn pty_step(v: &serde_json::Value, enabled: bool) -> (r: PtyStep)
    ensures
        r == (if !enabled {
            PtyStep::Off {
                sid: match named_sid(frame::json(*v)) {
                    Some(s) => s,
                    None => 0,
                },
            }
        } else {
            match named_sid(frame::json(*v)) {
                Some(s) => if stream_sid(s) {
                    PtyStep::Gate { sid: s }
                } else {
                    PtyStep::Ignore
                },
                None => PtyStep::Ignore,
            }
        }),
{
    let sid = wire_sid(v);
    if !enabled {
        return PtyStep::Off {
            sid: match sid {
                Some(s) => s,
                None => 0,
            },
        };
    }
    match sid {
        Some(s) => if is_l2_sid(s) {
            PtyStep::Gate { sid: s }
        } else {
            PtyStep::Ignore
        },
        None => PtyStep::Ignore,
    }
}

/// What bears on where a terminal that was let through is served.
pub struct PtyView {
    /// Its session is alive.
    pub live: bool,
    /// Only a session that is alive will do.
    pub resume: bool,
    /// The link carries as many streams as it may.
    pub streams_full: bool,
    /// There are as many terminals as there may be.
    pub ptys_full: bool,
    /// The stream is not in use.
    pub sid_free: bool,
}

/// Where a terminal is served.
#[derive(Clone, Copy, Debug, PartialEq, Eq, Structural)]
pub enum PtyPlace {
    /// In the session that is alive.
    Reattach,
    /// In a new one.
    Spawn,
    /// Nowhere: too much is open.
    TooMany,
    /// Nowhere: there is no session to come back to.
    NoSession,
    /// Nowhere: the stream is in use, and what uses it stays.
    SidInUse,
}

/// Where a terminal that was let through is served. A session that is asked for only if
/// alive is never started anew, and a stream in use is never taken over.
pub fn pty_place(v: &PtyView) -> (r: PtyPlace)
    ensures
        r is Reattach <==> v.live && !v.streams_full && v.sid_free,
        r is Spawn <==> !v.live && !v.resume && !v.streams_full && !v.ptys_full && v.sid_free,
        r is NoSession <==> !v.live && v.resume,
        r is TooMany <==> (v.live && v.streams_full) || (!v.live && !v.resume && (v.streams_full
            || v.ptys_full)),
        v.resume ==> r !is Spawn,
        !v.sid_free ==> r !is Spawn && r !is Reattach,
{
    if v.live {
        if v.streams_full {
            return PtyPlace::TooMany;
        }
        if !v.sid_free {
            return PtyPlace::SidInUse;
        }
        return PtyPlace::Reattach;
    }
    if v.resume {
        return PtyPlace::NoSession;
    }
    if v.streams_full || v.ptys_full {
        return PtyPlace::TooMany;
    }
    if !v.sid_free {
        return PtyPlace::SidInUse;
    }
    PtyPlace::Spawn
}

/// Where a mount that was let through is served: on its stream, if the link carries fewer
/// streams than it may and the stream is not in use.
pub fn mount_place(streams_full: bool, sid_free: bool) -> (r: Result<(), String>)
    ensures
        r is Ok <==> !streams_full && sid_free,
        streams_full ==> (r matches Err(e) && e@ == "too many streams"@),
        !streams_full && !sid_free ==> (r matches Err(e) && e@ == "sid in use"@),
{
    if streams_full {
        Err("too many streams".to_owned())
    } else if !sid_free {
        Err("sid in use".to_owned())
    } else {
        Ok(())
    }
}

/// The port of a shell daemon that a bootstrap names; the usual one where it names none that
/// can be a port.
pub open spec fn asked_port(v: frame::Json) -> u16 {
    match v.count_at("ssh_port"@) {
        Some(n) => if n <= 0xFFFF {
            n as u16
        } else {
            22
        },
        None => 22,
    }
}

/// The port of a shell daemon that a bootstrap names.
pub fn ssh_port(v: &serde_json::Value) -> (r: u16)
    ensures
        r == asked_port(frame::json(*v)),
{
    match count_at(v, "ssh_port") {
        Some(n) => if n <= 0xFFFF {
            n as u16
        } else {
            22
        },
        None => 22,
    }
}

/// No device names another's session: the sessions that two devices name differ, whatever
/// names they give, as long as no device name holds the mark that parts them.
pub proof fn sessions_are_apart(d1: Seq<char>, d2: Seq<char>, s1: Seq<char>, s2: Seq<char>)
    requires
        d1 != d2,
        !d1.contains('\u{1}'),
        !d2.contains('\u{1}'),
    ensures
        d1 + "\u{1}"@ + s1 != d2 + "\u{1}"@ + s2,
{
    reveal_strlit("\u{1}");
    assert("\u{1}"@.len() == 1 && "\u{1}"@[0] == '\u{1}');
    let (a, b) = (d1 + "\u{1}"@ + s1, d2 + "\u{1}"@ + s2);
    if a == b {
        if d1.len() < d2.len() {
            assert(a[d1.len() as int] == '\u{1}');
            assert(b[d1.len() as int] == d2[d1.len() as int]);
            assert(d2.contains('\u{1}'));
        } else if d2.len() < d1.len() {
            assert(b[d2.len() as int] == '\u{1}');
            assert(a[d2.len() as int] == d1[d2.len() as int]);
            assert(d1.contains('\u{1}'));
        } else {
            assert(d1 =~= d2) by {
                assert forall|i: int| 0 <= i < d1.len() implies d1[i] == d2[i] by {
                    assert(a[i] == d1[i] && b[i] == d2[i]);
                }
            }
        }
    }
}

} // verus!
