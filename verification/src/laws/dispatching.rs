//! Which frame is which, by the literal type that it carries.

use vstd::prelude::*;
use vstd::string::*;
use crate::dispatch::{answer, received, Answer, Received, ReceiverView, SenderView};
use crate::frame;

verus! {

/// A frame says that it is of this type.
pub open spec fn says(f: serde_json::Value, t: Seq<char>) -> bool {
    frame::json(f).member("type"@) == frame::Json::Text(t)
}

/// The types of the protocol are apart.
pub proof fn types_are_apart()
    ensures
        "brb"@.len() == 3,
        "back"@.len() == 4,
        "state"@.len() == 5,
        "depart"@.len() == 6,
        "depart"@[0] == 'd',
        "roster"@.len() == 6,
        "roster"@[0] == 'r',
        "wg-key"@.len() == 6,
        "wg-key"@[0] == 'w',
        "l2-open"@.len() == 7,
        "file-end"@.len() == 8,
        "file-end"@[0] == 'f',
        "file-end"@[1] == 'i',
        "l2-close"@.len() == 8,
        "l2-close"@[0] == 'l',
        "l2-close"@[1] == '2',
        "l3-nonce"@.len() == 8,
        "l3-nonce"@[0] == 'l',
        "l3-nonce"@[1] == '3',
        "pty-open"@.len() == 8,
        "pty-open"@[0] == 'p',
        "pty-open"@[1] == 't',
        "exec-open"@.len() == 9,
        "exec-open"@[0] == 'e',
        "exec-open"@[1] == 'x',
        "pair-keep"@.len() == 9,
        "pair-keep"@[0] == 'p',
        "pair-keep"@[1] == 'a',
        "pty-close"@.len() == 9,
        "pty-close"@[0] == 'p',
        "pty-close"@[1] == 't',
        "file-offer"@.len() == 10,
        "file-offer"@[0] == 'f',
        "file-offer"@[5] == 'o',
        "mount-open"@.len() == 10,
        "mount-open"@[0] == 'm',
        "mount-open"@[5] == '-',
        "pair-intro"@.len() == 10,
        "pair-intro"@[0] == 'p',
        "pair-intro"@[5] == 'i',
        "pair-proof"@.len() == 10,
        "pair-proof"@[0] == 'p',
        "pair-proof"@[5] == 'p',
        "pty-resize"@.len() == 10,
        "pty-resize"@[0] == 'p',
        "pty-resize"@[5] == 'e',
        "file-accept"@.len() == 11,
        "file-accept"@[0] == 'f',
        "file-accept"@[1] == 'i',
        "l2-open-ack"@.len() == 11,
        "l2-open-ack"@[0] == 'l',
        "l2-open-ack"@[1] == '2',
        "l3-announce"@.len() == 11,
        "l3-announce"@[0] == 'l',
        "l3-announce"@[1] == '3',
        "delivery-ack"@.len() == 12,
        "delivery-ack"@[0] == 'd',
        "delivery-ack"@[1] == 'e',
        "file-decline"@.len() == 12,
        "file-decline"@[0] == 'f',
        "file-decline"@[1] == 'i',
        "fleet-policy"@.len() == 12,
        "fleet-policy"@[0] == 'f',
        "fleet-policy"@[1] == 'l',
        "worker-ports"@.len() == 12,
        "worker-ports"@[0] == 'w',
        "worker-ports"@[1] == 'o',
        "pair-keep-ack"@.len() == 13,
        "pair-proof-ack"@.len() == 14,
        "__pair_fallback"@.len() == 15,
        "__pair_fallback"@[0] == '_',
        "identity-expose"@.len() == 15,
        "identity-expose"@[0] == 'i',
        "shell-bootstrap"@.len() == 15,
        "shell-bootstrap"@[0] == 's',
        "fleet-rendezvous"@.len() == 16,
        "fleet-rendezvous"@[0] == 'f',
        "ssh-sign-request"@.len() == 16,
        "ssh-sign-request"@[0] == 's',
        "shell-bootstrap-ack"@.len() == 19,
        "shell-bootstrap-deny"@.len() == 20,
        "identity-cert-renew-ack"@.len() == 23,
        "identity-nonce-challenge"@.len() == 24,
        "identity-cert-renew-error"@.len() == 25,
        "identity-cert-renew-request"@.len() == 27,
        "identity-auth-key-enroll-request"@.len() == 32,
        "identity-auth-key-enroll-response"@.len() == 33,
        "identity-auth-key-enroll-challenge"@.len() == 34,
{
    reveal_strlit("brb");
    reveal_strlit("back");
    reveal_strlit("state");
    reveal_strlit("depart");
    reveal_strlit("roster");
    reveal_strlit("wg-key");
    reveal_strlit("l2-open");
    reveal_strlit("file-end");
    reveal_strlit("l2-close");
    reveal_strlit("l3-nonce");
    reveal_strlit("pty-open");
    reveal_strlit("exec-open");
    reveal_strlit("pair-keep");
    reveal_strlit("pty-close");
    reveal_strlit("file-offer");
    reveal_strlit("mount-open");
    reveal_strlit("pair-intro");
    reveal_strlit("pair-proof");
    reveal_strlit("pty-resize");
    reveal_strlit("file-accept");
    reveal_strlit("l2-open-ack");
    reveal_strlit("l3-announce");
    reveal_strlit("delivery-ack");
    reveal_strlit("file-decline");
    reveal_strlit("fleet-policy");
    reveal_strlit("worker-ports");
    reveal_strlit("pair-keep-ack");
    reveal_strlit("pair-proof-ack");
    reveal_strlit("__pair_fallback");
    reveal_strlit("identity-expose");
    reveal_strlit("shell-bootstrap");
    reveal_strlit("fleet-rendezvous");
    reveal_strlit("ssh-sign-request");
    reveal_strlit("shell-bootstrap-ack");
    reveal_strlit("shell-bootstrap-deny");
    reveal_strlit("identity-cert-renew-ack");
    reveal_strlit("identity-nonce-challenge");
    reveal_strlit("identity-cert-renew-error");
    reveal_strlit("identity-cert-renew-request");
    reveal_strlit("identity-auth-key-enroll-request");
    reveal_strlit("identity-auth-key-enroll-response");
    reveal_strlit("identity-auth-key-enroll-challenge");
}

/// What comes before a link is there is told apart by its type whether or not one is: each type is
/// its own kind.
pub proof fn every_early_type_is_its_own_kind(
    f: serde_json::Value,
    hello: &str,
    v: ReceiverView,
    r: Received,
)
    requires
        call_ensures(received, (&f, hello, &v), r),
        !says(f, hello@),
    ensures
        says(f, "fleet-policy"@) ==> r is FleetPolicy,
        says(f, "l3-nonce"@) ==> r is Nonce,
        says(f, "identity-nonce-challenge"@) ==> r is IdentityChallenge,
        says(f, "identity-expose"@) ==> r is IdentityExpose,
        says(f, "worker-ports"@) ==> r is WorkerPorts,
        says(f, "wg-key"@) ==> r is TunnelKey,
        says(f, "identity-cert-renew-request"@) ==> r is RenewRequest,
        says(f, "identity-cert-renew-ack"@) ==> r is RenewAck,
        says(f, "identity-cert-renew-error"@) ==> r is RenewError,
        says(f, "identity-auth-key-enroll-request"@) ==> r is EnrollRequest,
        says(f, "identity-auth-key-enroll-response"@) ==> r is EnrollResponse,
        says(f, "depart"@) ==> r is Depart,
        says(f, "roster"@) ==> r is Roster,
        says(f, "fleet-rendezvous"@) ==> (if v.verified {
            r is Rendezvous
        } else {
            r is Nothing
        }),
        says(f, "l3-announce"@) ==> (if v.overlay {
            r is Announce
        } else {
            r is Nothing
        }),
{
    types_are_apart();
}

/// The type of a fleet certificate is whatever the fleet calls it, as long as that is no name for
/// grants or for a nonce.
pub proof fn a_certificate_is_a_hello(f: serde_json::Value, hello: &str, v: ReceiverView, r: Received)
    requires
        call_ensures(received, (&f, hello, &v), r),
        hello@ != "fleet-policy"@,
        hello@ != "l3-nonce"@,
    ensures
        says(f, hello@) <==> r is Hello,
{
}

/// From a linked peer every type of the protocol is its own kind, whatever is served here: a
/// terminal that is asked for is one whether or not streams are.
pub proof fn every_linked_type_is_its_own_kind(
    f: serde_json::Value,
    hello: &str,
    v: ReceiverView,
    r: Received,
)
    requires
        call_ensures(received, (&f, hello, &v), r),
        !says(f, hello@),
        v.linked,
    ensures
        says(f, "l2-close"@) ==> r is Forward,
        says(f, "shell-bootstrap-ack"@) ==> r is BootstrapAck,
        says(f, "shell-bootstrap-deny"@) ==> r is BootstrapDeny,
        says(f, "shell-bootstrap"@) ==> r is Bootstrap,
        says(f, "pty-open"@) ==> r is Pty,
        says(f, "brb"@) ==> r is Away,
        says(f, "back"@) ==> r is Back,
        says(f, "state"@) ==> r is State,
        says(f, "pair-keep"@) ==> r is Keep,
        says(f, "__pair_fallback"@) ==> r is KeepFallback,
        says(f, "pair-keep-ack"@) ==> r is KeepAck,
        says(f, "pair-proof"@) ==> r is Proof,
        says(f, "pair-intro"@) ==> r is Introduction,
        says(f, "file-offer"@) ==> r is FileOffer,
        says(f, "file-end"@) ==> r is FileEnd,
{
    types_are_apart();
}

/// What needs a stream is its own kind where streams are served. Where they are not, whoever asks
/// for a stream, a command or a certificate is told so, and what belongs to a stream that cannot
/// be there is not listened to.
pub proof fn every_stream_type_is_its_own_kind(
    f: serde_json::Value,
    hello: &str,
    v: ReceiverView,
    r: Received,
)
    requires
        call_ensures(received, (&f, hello, &v), r),
        !says(f, hello@),
        v.linked,
    ensures
        says(f, "l2-open-ack"@) ==> (if v.streams {
            r is OpenAck
        } else {
            r is Nothing
        }),
        says(f, "l2-open"@) ==> (if v.streams {
            r is Forward
        } else {
            r is StreamOff
        }),
        says(f, "exec-open"@) ==> (if v.streams {
            r is Exec
        } else {
            r is StreamOff
        }),
        says(f, "ssh-sign-request"@) ==> (if v.streams {
            r is SshSign
        } else {
            r is StreamOff
        }),
        says(f, "mount-open"@) ==> (if v.streams {
            r is Mount
        } else {
            r is Nothing
        }),
        says(f, "pty-resize"@) ==> (if v.streams {
            r is PtyResize
        } else {
            r is Nothing
        }),
        says(f, "pty-close"@) ==> (if v.streams {
            r is PtyClose
        } else {
            r is Nothing
        }),
{
    types_are_apart();
}

/// A kind is told by its type alone: no frame of another type is taken for it.
pub proof fn no_kind_without_its_type(f: serde_json::Value, hello: &str, v: ReceiverView, r: Received)
    requires
        call_ensures(received, (&f, hello, &v), r),
    ensures
        frame::json(f).text_at("type"@) is None ==> r is Nothing,
        r is Rendezvous ==> says(f, "fleet-rendezvous"@) && v.verified,
        r is Announce ==> says(f, "l3-announce"@) && v.overlay,
        r is Forward ==> v.linked && (says(f, "l2-close"@) || (says(f, "l2-open"@) && v.streams)),
        r is StreamOff ==> v.linked && !v.streams && (says(f, "l2-open"@) || says(
            f,
            "exec-open"@,
        ) || says(f, "ssh-sign-request"@)),
        r is FleetPolicy ==> says(f, "fleet-policy"@),
        r is Nonce ==> says(f, "l3-nonce"@),
        r is IdentityChallenge ==> says(f, "identity-nonce-challenge"@),
        r is IdentityExpose ==> says(f, "identity-expose"@),
        r is WorkerPorts ==> says(f, "worker-ports"@),
        r is TunnelKey ==> says(f, "wg-key"@),
        r is RenewRequest ==> says(f, "identity-cert-renew-request"@),
        r is RenewAck ==> says(f, "identity-cert-renew-ack"@),
        r is RenewError ==> says(f, "identity-cert-renew-error"@),
        r is EnrollRequest ==> says(f, "identity-auth-key-enroll-request"@),
        r is EnrollResponse ==> says(f, "identity-auth-key-enroll-response"@),
        r is Depart ==> says(f, "depart"@),
        r is Roster ==> says(f, "roster"@),
        r is BootstrapAck ==> v.linked && says(f, "shell-bootstrap-ack"@),
        r is BootstrapDeny ==> v.linked && says(f, "shell-bootstrap-deny"@),
        r is Bootstrap ==> v.linked && says(f, "shell-bootstrap"@),
        r is Pty ==> v.linked && says(f, "pty-open"@),
        r is Away ==> v.linked && says(f, "brb"@),
        r is Back ==> v.linked && says(f, "back"@),
        r is State ==> v.linked && says(f, "state"@),
        r is Keep ==> v.linked && says(f, "pair-keep"@),
        r is KeepFallback ==> v.linked && says(f, "__pair_fallback"@),
        r is KeepAck ==> v.linked && says(f, "pair-keep-ack"@),
        r is Proof ==> v.linked && says(f, "pair-proof"@),
        r is Introduction ==> v.linked && says(f, "pair-intro"@),
        r is FileOffer ==> v.linked && says(f, "file-offer"@),
        r is FileEnd ==> v.linked && says(f, "file-end"@),
        r is OpenAck ==> v.linked && v.streams && says(f, "l2-open-ack"@),
        r is Exec ==> v.linked && v.streams && says(f, "exec-open"@),
        r is SshSign ==> v.linked && v.streams && says(f, "ssh-sign-request"@),
        r is Mount ==> v.linked && v.streams && says(f, "mount-open"@),
        r is PtyResize ==> v.linked && v.streams && says(f, "pty-resize"@),
        r is PtyClose ==> v.linked && v.streams && says(f, "pty-close"@),
{
}

/// Two frames of different types are never one kind, but for the two that are about a stream and
/// for what is not listened to or not served.
pub proof fn different_types_are_different_kinds(
    f: serde_json::Value,
    g: serde_json::Value,
    hello: &str,
    v: ReceiverView,
    r: Received,
    s: Received,
)
    requires
        call_ensures(received, (&f, hello, &v), r),
        call_ensures(received, (&g, hello, &v), s),
        frame::json(f).text_at("type"@) != frame::json(g).text_at("type"@),
        r !is Nothing,
        r !is Forward,
        r !is StreamOff,
    ensures
        r != s,
{
}

/// What the receiver says is its own kind to a sender, from the peer that files go to.
pub proof fn every_answer_is_its_own_kind(f: serde_json::Value, hello: &str, v: SenderView, r: Answer)
    requires
        call_ensures(answer, (&f, hello, &v), r),
        !says(f, hello@),
    ensures
        says(f, "l3-nonce"@) ==> (if v.unproved {
            r is Handshake
        } else {
            r is Nothing
        }),
        says(f, "worker-ports"@) ==> r is WorkerPorts,
        says(f, "identity-nonce-challenge"@) ==> r is IdentityChallenge,
        says(f, "identity-auth-key-enroll-challenge"@) ==> r is EnrollChallenge,
        v.active && says(f, "brb"@) ==> r is Away,
        v.active && says(f, "back"@) ==> r is Back,
        v.active && says(f, "state"@) ==> r is State,
        v.active && says(f, "pair-keep-ack"@) ==> r is KeepAck,
        v.active && says(f, "pair-keep"@) ==> r is Keep,
        v.active && says(f, "pair-proof-ack"@) ==> r is Verdict,
        v.active && says(f, "file-accept"@) ==> r is Accept,
        v.active && says(f, "file-decline"@) ==> r is Decline,
        v.active && says(f, "delivery-ack"@) ==> r is Delivered,
{
    types_are_apart();
}

/// A device that is still to prove which it is does so with its certificate.
pub proof fn a_certificate_proves_the_device(f: serde_json::Value, hello: &str, v: SenderView, r: Answer)
    requires
        call_ensures(answer, (&f, hello, &v), r),
    ensures
        r is Handshake <==> v.unproved && (says(f, hello@) || says(f, "l3-nonce"@)),
{
}

/// No answer is taken for what its type does not say, and none about the files from anybody but the
/// peer that they go to.
pub proof fn no_answer_without_its_type(f: serde_json::Value, hello: &str, v: SenderView, r: Answer)
    requires
        call_ensures(answer, (&f, hello, &v), r),
    ensures
        frame::json(f).text_at("type"@) is None ==> r is Nothing,
        r is WorkerPorts ==> says(f, "worker-ports"@),
        r is IdentityChallenge ==> says(f, "identity-nonce-challenge"@),
        r is EnrollChallenge ==> says(f, "identity-auth-key-enroll-challenge"@),
        r is Away ==> v.active && says(f, "brb"@),
        r is Back ==> v.active && says(f, "back"@),
        r is State ==> v.active && says(f, "state"@),
        r is KeepAck ==> v.active && says(f, "pair-keep-ack"@),
        r is Keep ==> v.active && says(f, "pair-keep"@),
        r is Verdict ==> v.active && says(f, "pair-proof-ack"@),
        r is Accept ==> v.active && says(f, "file-accept"@),
        r is Decline ==> v.active && says(f, "file-decline"@),
        r is Delivered ==> v.active && says(f, "delivery-ack"@),
{
}

} // verus!
