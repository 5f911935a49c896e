//! What is served over a link: streams, terminals and logins, to whom and as what.

use vstd::prelude::*;
use vstd::string::*;
use crate::bootstrap::{
    ack_frame, denied_reply, deny_frame, granted_reply, installed_line, key_step, KeyStep, KeyView,
};
use crate::frame;
use crate::keyed;
use crate::streams;
use crate::streams::{
    chunk_to_streams, close_frame, forward_step, is_exposed, is_l2_sid, l2_enabled, l2_open_allowed,
    mount_place, pty_params, pty_place, pty_step, reach_host, reach_port, refused_line, session_name,
    shell_legacy_ok, ssh_port, wire_sid, ForwardStep, PtyParams, PtyPlace, PtyStep, PtyView,
    ShellPolicy,
};
use crate::terminals;
use crate::terminals::{parse_resize, Resize, Terminals};
use crate::text;

verus! {

broadcast use frame::with_sets_one_member;

proof fn keys_are_apart()
    ensures
        "ok"@.len() == 2,
        "err"@.len() == 3,
        "err"@[0] == 'e',
        "sid"@.len() == 3,
        "sid"@[0] == 's',
        "sshd"@.len() == 4,
        "sshd"@[0] == 's',
        "type"@.len() == 4,
        "type"@[0] == 't',
        "user"@.len() == 4,
        "user"@[0] == 'u',
        "reason"@.len() == 6,
        "l2-open"@.len() == 7,
        "hostkeys"@.len() == 8,
        "hostkeys"@[0] == 'h',
        "l2-close"@.len() == 8,
        "l2-close"@[0] == 'l',
        "ssh_port"@.len() == 8,
        "ssh_port"@[0] == 's',
        "l2-open-ack"@.len() == 11,
{
    reveal_strlit("ok");
    reveal_strlit("err");
    reveal_strlit("sid");
    reveal_strlit("sshd");
    reveal_strlit("type");
    reveal_strlit("user");
    reveal_strlit("reason");
    reveal_strlit("l2-open");
    reveal_strlit("hostkeys");
    reveal_strlit("l2-close");
    reveal_strlit("ssh_port");
    reveal_strlit("l2-open-ack");
}

/// The shell policy lets in everybody, those it names, or nobody without a grant.
pub proof fn the_shell_policy_lets_in_whom_it_names(p: ShellPolicy, name: &str, r: bool, e: bool, i: int)
    requires
        call_ensures(ShellPolicy::auto_allows, (&p, name), r),
        call_ensures(ShellPolicy::enables_l2, (&p,), e),
    ensures
        p is Granted ==> !r && !e,
        p is All ==> r && e,
        p matches ShellPolicy::Only(v) ==> e && (0 <= i < v@.len() && v@[i]@ == name@ ==> r) && ((
        forall|j: int| 0 <= j < v@.len() ==> (#[trigger] v@[j])@ != name@) ==> !r),
{
    if p is Only {
        let v = p->Only_0;
        if 0 <= i < v@.len() && v@[i]@ == name@ {
            assert(keyed::listed(v@, name@));
        }
    }
}

/// Streams are served where the policy lets anybody in, where they were asked for, or where there is
/// a grant; and one is opened for whoever may have all of them, or a shell.
pub proof fn when_streams_are_served(p: ShellPolicy, opted: bool, grant: bool, r: bool, blanket: bool, shell: bool, o: bool)
    requires
        call_ensures(l2_enabled, (&p, opted, grant), r),
        call_ensures(l2_open_allowed, (blanket, shell), o),
    ensures
        opted || grant || p !is Granted ==> r,
        !opted && !grant && p is Granted ==> !r,
        blanket || shell ==> o,
        !blanket && !shell ==> !o,
{
}

/// A shell is for a trusted, known device that is not barred, and that was granted one or is let in
/// by the policy.
pub proof fn who_may_have_a_shell(
    trusted: bool,
    device: Option<&str>,
    barred: bool,
    granted: bool,
    p: ShellPolicy,
    r: bool,
)
    requires
        call_ensures(shell_legacy_ok, (trusted, device, barred, granted, &p), r),
    ensures
        !trusted || device is None || barred ==> !r,
        trusted && device is Some && !barred && (granted || p is All) ==> r,
        !granted && p is Granted ==> !r,
        !granted && (p matches ShellPolicy::Only(v) && device is Some && forall|j: int|
            0 <= j < v@.len() ==> (#[trigger] v@[j])@ != device->0@) ==> !r,
{
}

/// A stream is named by a number that fits, and streams are told from files by the top bit of it.
pub proof fn a_stream_is_named_by_its_number(v: serde_json::Value, r: Option<u32>, sid: u32, b: bool, on: bool, c: bool)
    requires
        call_ensures(wire_sid, (&v,), r),
        call_ensures(is_l2_sid, (sid,), b),
        call_ensures(chunk_to_streams, (on, sid), c),
    ensures
        frame::json(v).member("sid"@) matches frame::Json::Number(Some(n)) ==> (n <= 0xFFFF_FFFF ==> r
            == Some(n as u32)) && (n > 0xFFFF_FFFF ==> r is None),
        frame::json(v).member("sid"@) !is Number ==> r is None,
        b <==> sid >= 0x8000_0000,
        c <==> on && sid >= 0x8000_0000,
{
}

/// A connection goes to the port and the host that the frame names: the remote port before the port,
/// and this machine where no host is named.
pub proof fn a_connection_goes_where_it_says(v: serde_json::Value, p: u16, h: String)
    requires
        call_ensures(reach_port, (&v,), p),
        call_ensures(reach_host, (&v,), h),
    ensures
        frame::json(v).member("rport"@) matches frame::Json::Number(Some(n)) ==> p as int == n as int
            % 0x1_0000,
        frame::json(v).member("rport"@) is Null ==> (frame::json(v).member("port"@)
            matches frame::Json::Number(Some(n)) ==> p as int == n as int % 0x1_0000),
        frame::json(v).member("rport"@) is Null && frame::json(v).member("port"@) is Null ==> p == 0,
        frame::json(v).member("host"@) matches frame::Json::Text(t) ==> h@ == t,
        frame::json(v).member("host"@) !is Text ==> h@ == "127.0.0.1"@,
{
}

/// A port is reached only where it was opened to the fleet, and port zero never.
pub proof fn only_exposed_ports_are_reached(port: u16, exposed: Vec<u16>, r: bool, i: int)
    requires
        call_ensures(is_exposed, (port, &exposed), r),
    ensures
        port == 0 ==> !r,
        port != 0 && 0 <= i < exposed@.len() && exposed@[i] == port ==> r,
        r ==> exists|j: int| 0 <= j < exposed@.len() && #[trigger] exposed@[j] == port,
{
}

/// A stream that is closed is told so, with the reason.
pub proof fn a_closed_stream_is_told_why(sid: u64, err: &str, v: serde_json::Value, n: u32, why: &str, l: String)
    requires
        call_ensures(close_frame, (sid, err), v),
        call_ensures(refused_line, (n, why), l),
    ensures
        frame::json(v).member("type"@) == frame::Json::Text("l2-close"@),
        frame::json(v).member("sid"@) == frame::Json::Number(Some(sid)),
        frame::json(v).member("err"@) == frame::Json::Text(err@),
        l@ == "l2: refused stream 0x"@ + text::hexadecimal(n as nat) + ": "@ + why@,
{
    keys_are_apart();
}

/// A linked peer closes its streams at any time, and opens one where they are served; where they are
/// not it is told so, by the number it named. Nobody else does either.
pub proof fn streams_open_where_they_are_served(v: serde_json::Value, on: bool, linked: bool, r: ForwardStep)
    requires
        call_ensures(forward_step, (&v, on, linked), r),
    ensures
        !linked ==> r is Ignore,
        linked && frame::json(v).member("type"@) == frame::Json::Text("l2-close"@) ==> r is Close,
        linked && on && frame::json(v).member("type"@) == frame::Json::Text("l2-open"@) ==> r is Open,
        linked && !on && frame::json(v).member("type"@) == frame::Json::Text("l2-open"@) ==> (
        frame::json(v).member("sid"@) matches frame::Json::Number(Some(n)) ==> r == (
        ForwardStep::Refuse { sid: n })),
        r is Open ==> linked && on && frame::json(v).member("type"@) == frame::Json::Text("l2-open"@),
        r is Close ==> linked && frame::json(v).member("type"@) == frame::Json::Text("l2-close"@),
        r is Refuse ==> linked && !on,
{
    keys_are_apart();
}

/// A session is that of a device: it is named by it and by what the device calls it, if that is fit.
pub proof fn a_session_is_its_devices(v: serde_json::Value, device: Option<&str>, pid: &str, r: Option<String>, s: Seq<char>)
    requires
        call_ensures(session_name, (&v, device, pid), r),
    ensures
        frame::json(v).member("session"@) !is Text ==> r is None,
        frame::json(v).member("session"@) == frame::Json::Text(s) ==> {
            &&& s.len() == 0 || text::byte_len(s) > 128 ==> r is None
            &&& s.len() > 0 && text::byte_len(s) <= 128 && device is Some ==> r is Some && r->0@
                == device->0@ + "\u{1}"@ + s
            &&& s.len() > 0 && text::byte_len(s) <= 128 && device is None ==> r is Some && r->0@
                == pid@ + "\u{1}"@ + s
        },
{
}

/// A terminal that can be shown.
pub open spec fn fit_term(s: Seq<char>) -> bool {
    0 < s.len() <= 64 && forall|i: int| 0 <= i < s.len() ==> 0x21 <= (#[trigger] s[i]) as int <= 0x7E
}

/// A terminal is as large as asked for, or eighty by twenty-four; it is of the kind asked for where
/// that is fit, runs the command asked for, and goes on only where that is asked for.
pub proof fn a_terminal_is_as_asked_for(
    v: serde_json::Value,
    device: Option<&str>,
    pid: &str,
    sid: u32,
    r: PtyParams,
    n: Option<String>,
)
    requires
        call_ensures(pty_params, (&v, device, pid, sid), r),
        call_ensures(session_name, (&v, device, pid), n),
    ensures
        ({
            let f = frame::json(v);
            &&& f.member("cols"@) matches frame::Json::Number(Some(c)) ==> r.cols as int == c as int
                % 0x1_0000
            &&& f.member("cols"@) is Null ==> r.cols == 80
            &&& f.member("rows"@) matches frame::Json::Number(Some(c)) ==> r.rows as int == c as int
                % 0x1_0000
            &&& f.member("rows"@) is Null ==> r.rows == 24
            &&& f.member("cmd"@) matches frame::Json::Text(c) ==> r.cmd@ == c
            &&& f.member("cmd"@) !is Text ==> r.cmd@.len() == 0
            &&& f.member("term"@) matches frame::Json::Text(t) ==> (fit_term(t) ==> r.term@ == t) && (
            !fit_term(t) ==> r.term@ == "xterm-256color"@)
            &&& f.member("term"@) !is Text ==> r.term@ == "xterm-256color"@
            &&& r.resume <==> f.member("resume"@) == frame::Json::Bool(true)
            &&& n matches Some(s) ==> r.session@ == s@
            &&& n is None ==> r.session@ == pid@ + ":0x"@ + text::hexadecimal(sid as nat)
        }),
{
}

/// A terminal that is asked for is told off where streams are not served, is decided on over a
/// stream's own number, and is not listened to otherwise.
pub proof fn a_terminal_is_for_a_stream(v: serde_json::Value, on: bool, r: PtyStep, s: Option<u32>)
    requires
        call_ensures(pty_step, (&v, on), r),
        call_ensures(wire_sid, (&v,), s),
    ensures
        !on && s is Some ==> r == (PtyStep::Off { sid: s->0 }),
        !on && s is None ==> r == (PtyStep::Off { sid: 0 }),
        on && s is None ==> r is Ignore,
        on && s is Some && s->0 < 0x8000_0000 ==> r is Ignore,
        on && s is Some && s->0 >= 0x8000_0000 ==> r == (PtyStep::Gate { sid: s->0 }),
{
}

/// A session that lives is shown again; a new one is begun only where nobody asked to go on, and
/// only within the limits.
pub proof fn where_a_terminal_goes(v: PtyView, r: PtyPlace)
    requires
        call_ensures(pty_place, (&v,), r),
    ensures
        v.live && !v.streams_full && v.sid_free ==> r is Reattach,
        v.live && v.streams_full ==> r is TooMany,
        v.live && !v.streams_full && !v.sid_free ==> r is SidInUse,
        !v.live && v.resume ==> r is NoSession,
        !v.live && !v.resume && (v.streams_full || v.ptys_full) ==> r is TooMany,
        !v.live && !v.resume && !v.streams_full && !v.ptys_full && v.sid_free ==> r is Spawn,
        !v.live && !v.resume && !v.streams_full && !v.ptys_full && !v.sid_free ==> r is SidInUse,
{
}

/// A directory is served within the limits, and otherwise it is said which was met.
pub proof fn where_a_directory_goes(full: bool, free: bool, r: Result<(), String>)
    requires
        call_ensures(mount_place, (full, free), r),
    ensures
        !full && free ==> r is Ok,
        full ==> r is Err && r->Err_0@ == "too many streams"@,
        !full && !free ==> r is Err && r->Err_0@ == "sid in use"@,
{
}

/// A login goes to the port that was asked for, and to twenty-two where none was that fits.
pub proof fn the_login_port_is_as_asked_for(v: serde_json::Value, r: u16)
    requires
        call_ensures(ssh_port, (&v,), r),
    ensures
        frame::json(v).member("ssh_port"@) matches frame::Json::Number(Some(n)) ==> (n <= 65535 ==> r
            == n) && (n > 65535 ==> r == 22),
        frame::json(v).member("ssh_port"@) !is Number ==> r == 22,
{
}

/// What is shown over a stream is what was put there last, and no other stream is touched.
pub proof fn a_stream_shows_its_session(t: &mut Terminals, pid: &str, sid: u32, session: &str, q: &str, n: u32, r: Option<&str>)
    requires
        old(t).wf(),
        call_ensures(Terminals::attach, (t, pid, sid, session), ()),
        call_ensures(Terminals::session, (&*final(t), q, n), r),
    ensures
        q@ == pid@ && n == sid ==> r is Some && r->0@ == session@,
        q@ != pid@ || n != sid ==> (r is Some <==> old(t)@.contains_key((q@, n))) && (r is Some
            ==> r->0@ == old(t)@[(q@, n)]),
{
}

/// A session that is over is shown nowhere to the peer that ended it; its other sessions, and those
/// of others, stay.
pub proof fn an_ended_session_is_shown_nowhere(t: &mut Terminals, pid: &str, session: &str, q: Seq<char>, n: u32)
    requires
        call_ensures(Terminals::end, (t, pid, session), ()),
        old(t)@.contains_key((q, n)),
    ensures
        q == pid@ && old(t)@[(q, n)] == session@ ==> !final(t)@.contains_key((q, n)),
        q != pid@ || old(t)@[(q, n)] != session@ ==> final(t)@.contains_key((q, n)) && final(t)@[(q, n)]
            == old(t)@[(q, n)],
{
}

/// With its link go all sessions that a peer was shown, each is named, and nobody else's goes.
pub proof fn sessions_go_with_their_link(t: &mut Terminals, pid: &str, r: Vec<String>, q: Seq<char>, n: u32, i: int)
    requires
        call_ensures(Terminals::lose, (t, pid), r),
        old(t)@.contains_key((q, n)),
    ensures
        q == pid@ ==> !final(t)@.contains_key((q, n)) && exists|k: int|
            0 <= k < r@.len() && (#[trigger] r@[k])@ == old(t)@[(q, n)],
        q != pid@ ==> final(t)@.contains_key((q, n)) && final(t)@[(q, n)] == old(t)@[(q, n)],
{
    if q == pid@ {
        assert(old(t)@.contains_key((pid@, n)));
        assert(keyed::listed(r@, old(t)@[(q, n)]));
    }
}

/// No terminal is shown at first.
pub proof fn no_terminal_at_first(r: Terminals, q: Seq<char>, n: u32)
    requires
        call_ensures(Terminals::new, (), r),
    ensures
        !r@.contains_key((q, n)),
{
}

/// A terminal changes to the size that is named, or to eighty by twenty-four, where its stream is
/// named.
pub proof fn a_terminal_changes_to_the_named_size(v: serde_json::Value, r: Option<Resize>, s: Option<u32>)
    requires
        call_ensures(parse_resize, (&v,), r),
        call_ensures(wire_sid, (&v,), s),
    ensures
        s is None <==> r is None,
        r matches Some(z) ==> {
            let f = frame::json(v);
            &&& s == Some(z.sid)
            &&& f.member("cols"@) matches frame::Json::Number(Some(c)) ==> z.cols as int == c as int
                % 0x1_0000
            &&& f.member("cols"@) is Null ==> z.cols == 80
            &&& f.member("rows"@) matches frame::Json::Number(Some(c)) ==> z.rows as int == c as int
                % 0x1_0000
            &&& f.member("rows"@) is Null ==> z.rows == 24
        },
{
}

/// A key is put among those that may log in only for a linked, known device that was let in, where
/// this is served and the key is one; it is that key and that device.
pub proof fn only_a_granted_key_is_installed(v: KeyView, r: KeyStep)
    requires
        call_ensures(key_step, (v,), r),
    ensures
        !v.linked ==> r is Ignore,
        v.linked && !v.enabled ==> r is Refuse && r->reason@ == v.off_reason@ && r->line is None
            && !r->enqueue,
        v.linked && v.enabled && v.waits ==> r is Later,
        v.linked && v.enabled && !v.waits && (!v.allowed || v.device is None) ==> r is Refuse
            && r->reason@ == "shell capability not granted"@ && r->enqueue,
        v.linked && v.enabled && !v.waits && v.allowed && v.device is Some && v.key is Err ==> r is Refuse
            && r->reason@ == "malformed pubkey"@ && !r->enqueue && r->line is Some && r->line->0@
            == "l2: shell bootstrap refused: malformed pubkey from '"@ + v.device->0@ + "': "@
            + v.key->Err_0@,
        v.linked && v.enabled && !v.waits && v.allowed && v.device is Some && v.key is Ok ==> r is Install
            && r->device@ == v.device->0@ && r->key@ == v.key->Ok_0@,
        r is Refuse && r->enqueue && v.device is Some ==> r->line is Some && r->line->0@
            == "l2: shell bootstrap refused: "@ + v.device->0@ + ": "@ + v.deny_reason@,
        r is Refuse && r->enqueue && v.device is None ==> r->line is Some && r->line->0@
            == "l2: shell bootstrap refused: "@ + "<unverified>"@ + ": "@ + v.deny_reason@,
{
}

/// What is said of a key that was let in, and of one that could not be put there.
pub proof fn an_installed_key_is_told(device: &str, failed: Option<&str>, l: String)
    requires
        call_ensures(installed_line, (device, failed), l),
    ensures
        failed is None ==> l@ == "l2: shell granted to '"@ + device@
            + "', installed managed key (filament-managed block)"@,
        failed is Some ==> l@ == "l2: shell bootstrap install failed for '"@ + device@ + "': "@
            + failed->0@,
{
}

/// The answer to a key says whether it was taken: with the host's keys, the user and the port to go
/// to, or with the reason.
pub proof fn a_key_is_answered(
    reason: &str,
    d: serde_json::Value,
    request: serde_json::Value,
    keys: Vec<String>,
    user: &str,
    sshd: bool,
    a: serde_json::Value,
    port: u16,
    i: int,
)
    requires
        call_ensures(deny_frame, (reason,), d),
        call_ensures(ack_frame, (&request, keys, user, sshd), a),
        call_ensures(ssh_port, (&request,), port),
        0 <= i < keys@.len(),
    ensures
        frame::json(d).member("type"@) == frame::Json::Text("shell-bootstrap-deny"@),
        frame::json(d).member("reason"@) == frame::Json::Text(reason@),
        frame::json(a).member("type"@) == frame::Json::Text("shell-bootstrap-ack"@),
        frame::json(a).member("user"@) == frame::Json::Text(user@),
        frame::json(a).member("sshd"@) == frame::Json::Bool(sshd),
        frame::json(a).member("ssh_port"@) == frame::Json::Number(Some(port as u64)),
        frame::json(a).member("hostkeys"@) matches frame::Json::Array(h) && h.len() == keys@.len()
            && h[i] == frame::Json::Text(keys@[i]@),
{
    keys_are_apart();
}

/// What a peer answered to our key is passed on as it was: the host's keys, the user and the server,
/// or the reason.
pub proof fn an_answer_to_our_key_is_passed_on(ack: serde_json::Value, g: serde_json::Value, deny: serde_json::Value, d: serde_json::Value)
    requires
        call_ensures(granted_reply, (&ack,), g),
        call_ensures(denied_reply, (&deny,), d),
    ensures
        frame::json(g).member("ok"@) == frame::Json::Bool(true),
        frame::json(g).member("hostkeys"@) == frame::json(ack).member("hostkeys"@),
        frame::json(g).member("user"@) == frame::json(ack).member("user"@),
        frame::json(g).member("sshd"@) == frame::json(ack).member("sshd"@),
        frame::json(d).member("ok"@) == frame::Json::Bool(false),
        frame::json(deny).member("reason"@) matches frame::Json::Text(s) ==> frame::json(d).member(
            "err"@,
        ) == frame::Json::Text(s),
        frame::json(deny).member("reason"@) !is Text ==> frame::json(d).member("err"@)
            == frame::Json::Text("shell bootstrap denied"@),
{
    keys_are_apart();
}

} // verus!
