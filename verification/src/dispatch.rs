//! Which frame is which. A frame says so by its type; what it may mean also depends on whether
//! its sender is linked, and on what is served here.

use vstd::prelude::*;
use vstd::string::*;
use crate::frame;
use crate::frame::text_at;
use crate::text::same;

verus! {

/// What a frame is to a receiver.
#[derive(Clone, Copy, Debug, PartialEq, Eq, Structural)]
pub enum Received {
    /// Capability grants of the owner, passed on by a device of the fleet.
    FleetPolicy,
    /// The peer's half of the challenge that binds proofs to this link.
    Nonce,
    /// A certificate of a device of the fleet.
    Hello,
    /// A meeting place that a verified device arranged.
    Rendezvous,
    /// The peer's address in the overlay.
    Announce,
    /// The peer wants to know which device we are.
    IdentityChallenge,
    /// The peer proves which device it is.
    IdentityExpose,
    /// The ports of further connections.
    WorkerPorts,
    /// The peer's tunnel key.
    TunnelKey,
    /// The peer wants its certificate renewed.
    RenewRequest,
    /// Our certificate, renewed.
    RenewAck,
    /// Our certificate was not renewed.
    RenewError,
    /// The peer wants to enroll.
    EnrollRequest,
    /// The peer answers the challenge to enroll.
    EnrollResponse,
    /// The peer leaves the fleet.
    Depart,
    /// The devices of the fleet, signed by the owner.
    Roster,
    /// A stream that we opened is connected.
    OpenAck,
    /// A stream is closed, or is to be opened.
    Forward,
    /// The peer took our key.
    BootstrapAck,
    /// The peer did not take our key.
    BootstrapDeny,
    /// A stream or a command is asked for and none is served.
    StreamOff,
    /// The peer wants its key put among those that may log in.
    Bootstrap,
    /// A terminal is asked for.
    Pty,
    /// A command is to be run.
    Exec,
    /// A certificate for a login is asked for.
    SshSign,
    /// A directory is asked for.
    Mount,
    /// A terminal changed its size.
    PtyResize,
    /// A terminal session is over.
    PtyClose,
    /// The peer steps away for a while.
    Away,
    /// The peer is back.
    Back,
    /// Where the peer's transfers stand.
    State,
    /// The peer offers a secret.
    Keep,
    /// The peer had its while to offer a secret.
    KeepFallback,
    /// The peer answers our offer of a secret.
    KeepAck,
    /// The peer proves that it holds a secret.
    Proof,
    /// The peer introduces another device.
    Introduction,
    /// A file is offered.
    FileOffer,
    /// The bytes of a file are over.
    FileEnd,
    /// Nothing that is listened to.
    Nothing,
}

/// What bears on what a frame is to a receiver.
#[derive(Clone, Copy, Debug, PartialEq, Eq, Structural)]
pub struct ReceiverView {
    /// There is a link to its sender.
    pub linked: bool,
    /// Its sender proved to be a device of the fleet.
    pub verified: bool,
    /// The overlay is up.
    pub overlay: bool,
    /// Streams are served.
    pub streams: bool,
}

/// What a frame of type `t` is to a receiver; `hello` is the type of a fleet certificate. What
/// comes before the question for a link is listened to as soon as it comes.
pub open spec fn received_as(t: Seq<char>, hello: Seq<char>, v: ReceiverView) -> Received {
    if t == "fleet-policy"@ {
        Received::FleetPolicy
    } else if t == "l3-nonce"@ {
        Received::Nonce
    } else if t == hello {
        Received::Hello
    } else if t == "fleet-rendezvous"@ && v.verified {
        Received::Rendezvous
    } else if t == "l3-announce"@ && v.overlay {
        Received::Announce
    } else if t == "identity-nonce-challenge"@ {
        Received::IdentityChallenge
    } else if t == "identity-expose"@ {
        Received::IdentityExpose
    } else if t == "worker-ports"@ {
        Received::WorkerPorts
    } else if t == "wg-key"@ {
        Received::TunnelKey
    } else if t == "identity-cert-renew-request"@ {
        Received::RenewRequest
    } else if t == "identity-cert-renew-ack"@ {
        Received::RenewAck
    } else if t == "identity-cert-renew-error"@ {
        Received::RenewError
    } else if t == "identity-auth-key-enroll-request"@ {
        Received::EnrollRequest
    } else if t == "identity-auth-key-enroll-response"@ {
        Received::EnrollResponse
    } else if t == "depart"@ {
        Received::Depart
    } else if t == "roster"@ {
        Received::Roster
    } else if !v.linked {
        Received::Nothing
    } else if t == "l2-open-ack"@ && v.streams {
        Received::OpenAck
    } else if t == "l2-close"@ {
        Received::Forward
    } else if t == "l2-open"@ && v.streams {
        Received::Forward
    } else if t == "shell-bootstrap-ack"@ {
        Received::BootstrapAck
    } else if t == "shell-bootstrap-deny"@ {
        Received::BootstrapDeny
    } else if (t == "l2-open"@ || t == "exec-open"@) && !v.streams {
        Received::StreamOff
    } else if t == "shell-bootstrap"@ {
        Received::Bootstrap
    } else if t == "pty-open"@ {
        Received::Pty
    } else if t == "exec-open"@ {
        Received::Exec
    } else if t == "ssh-sign-request"@ && !v.streams {
        Received::StreamOff
    } else if t == "ssh-sign-request"@ {
        Received::SshSign
    } else if t == "mount-open"@ && v.streams {
        Received::Mount
    } else if t == "pty-resize"@ && v.streams {
        Received::PtyResize
    } else if t == "pty-close"@ && v.streams {
        Received::PtyClose
    } else if t == "brb"@ {
        Received::Away
    } else if t == "back"@ {
        Received::Back
    } else if t == "state"@ {
        Received::State
    } else if t == "pair-keep"@ {
        Received::Keep
    } else if t == "__pair_fallback"@ {
        Received::KeepFallback
    } else if t == "pair-keep-ack"@ {
        Received::KeepAck
    } else if t == "pair-proof"@ {
        Received::Proof
    } else if t == "pair-intro"@ {
        Received::Introduction
    } else if t == "file-offer"@ {
        Received::FileOffer
    } else if t == "file-end"@ {
        Received::FileEnd
    } else {
        Received::Nothing
    }
}

fn received_type(t: &str, hello: &str, v: &ReceiverView) -> (r: Received)
    ensures
        r == received_as(t@, hello@, *v),
{
    if same(t, "fleet-policy") {
        Received::FleetPolicy
    } else if same(t, "l3-nonce") {
        Received::Nonce
    } else if same(t, hello) {
        Received::Hello
    } else if same(t, "fleet-rendezvous") && v.verified {
        Received::Rendezvous
    } else if same(t, "l3-announce") && v.overlay {
        Received::Announce
    } else if same(t, "identity-nonce-challenge") {
        Received::IdentityChallenge
    } else if same(t, "identity-expose") {
        Received::IdentityExpose
    } else if same(t, "worker-ports") {
        Received::WorkerPorts
    } else if same(t, "wg-key") {
        Received::TunnelKey
    } else if same(t, "identity-cert-renew-request") {
        Received::RenewRequest
    } else if same(t, "identity-cert-renew-ack") {
        Received::RenewAck
    } else if same(t, "identity-cert-renew-error") {
        Received::RenewError
    } else if same(t, "identity-auth-key-enroll-request") {
        Received::EnrollRequest
    } else if same(t, "identity-auth-key-enroll-response") {
        Received::EnrollResponse
    } else if same(t, "depart") {
        Received::Depart
    } else if same(t, "roster") {
        Received::Roster
    } else if !v.linked {
        Received::Nothing
    } else if same(t, "l2-open-ack") && v.streams {
        Received::OpenAck
    } else if same(t, "l2-close") {
        Received::Forward
    } else if same(t, "l2-open") && v.streams {
        Received::Forward
    } else if same(t, "shell-bootstrap-ack") {
        Received::BootstrapAck
    } else if same(t, "shell-bootstrap-deny") {
        Received::BootstrapDeny
    } else if (same(t, "l2-open") || same(t, "exec-open")) && !v.streams {
        Received::StreamOff
    } else if same(t, "shell-bootstrap") {
        Received::Bootstrap
    } else if same(t, "pty-open") {
        Received::Pty
    } else if same(t, "exec-open") {
        Received::Exec
    } else if same(t, "ssh-sign-request") && !v.streams {
        Received::StreamOff
    } else if same(t, "ssh-sign-request") {
        Received::SshSign
    } else if same(t, "mount-open") && v.streams {
        Received::Mount
    } else if same(t, "pty-resize") && v.streams {
        Received::PtyResize
    } else if same(t, "pty-close") && v.streams {
        Received::PtyClose
    } else if same(t, "brb") {
        Received::Away
    } else if same(t, "back") {
        Received::Back
    } else if same(t, "state") {
        Received::State
    } else if same(t, "pair-keep") {
        Received::Keep
    } else if same(t, "__pair_fallback") {
        Received::KeepFallback
    } else if same(t, "pair-keep-ack") {
        Received::KeepAck
    } else if same(t, "pair-proof") {
        Received::Proof
    } else if same(t, "pair-intro") {
        Received::Introduction
    } else if same(t, "file-offer") {
        Received::FileOffer
    } else if same(t, "file-end") {
        Received::FileEnd
    } else {
        Received::Nothing
    }
}

/// What a frame is to a receiver.
pub fn received(f: &serde_json::Value, hello: &str, v: &ReceiverView) -> (r: Received)
    ensures
        r == (match frame::json(*f).text_at("type"@) {
            Some(t) => received_as(t, hello@, *v),
            None => Received::Nothing,
        }),
{
    match text_at(f, "type") {
        Some(t) => received_type(t, hello, v),
        None => Received::Nothing,
    }
}

/// A frame that concerns a transfer, a secret, a stream or a shell.
pub open spec fn needs_link(r: Received) -> bool {
    ||| r is OpenAck
    ||| r is Forward
    ||| r is StreamOff
    ||| r is Bootstrap
    ||| r is Pty
    ||| r is Exec
    ||| r is SshSign
    ||| r is Mount
    ||| r is PtyResize
    ||| r is PtyClose
    ||| r is State
    ||| r is Keep
    ||| r is KeepAck
    ||| r is Proof
    ||| r is Introduction
    ||| r is FileOffer
    ||| r is FileEnd
}

/// Whoever is not linked cannot offer a file, a secret or a proof, nor ask for a stream or a
/// shell.
pub proof fn strangers_are_not_served(t: Seq<char>, hello: Seq<char>, v: ReceiverView)
    requires
        !v.linked,
    ensures
        !needs_link(received_as(t, hello, v)),
{
}

/// Where streams are off none is opened, run, signed for or mounted: what asks for one is told
/// so, or not listened to.
pub proof fn streams_that_are_off_stay_off(t: Seq<char>, hello: Seq<char>, v: ReceiverView)
    requires
        !v.streams,
    ensures
        !(received_as(t, hello, v) is Exec),
        !(received_as(t, hello, v) is SshSign),
        !(received_as(t, hello, v) is Mount),
        received_as(t, hello, v) is Forward ==> t == "l2-close"@,
{
}

/// What a frame is to a sender.
#[derive(Clone, Copy, Debug, PartialEq, Eq, Structural)]
pub enum Answer {
    /// Part of the proof which device of the fleet this is.
    Handshake,
    /// The ports of further connections.
    WorkerPorts,
    /// The receiver wants to know which device we are.
    IdentityChallenge,
    /// The owner challenges us, who want to enroll.
    EnrollChallenge,
    /// The receiver steps away for a while.
    Away,
    /// The receiver is back.
    Back,
    /// Where the transfers stand at the receiver.
    State,
    /// The receiver answers our offer to remember each other.
    KeepAck,
    /// The receiver offers that we remember each other.
    Keep,
    /// The receiver's verdict on our proof.
    Verdict,
    /// The receiver wants a file.
    Accept,
    /// The receiver does not want a file.
    Decline,
    /// A file arrived whole.
    Delivered,
    /// Nothing that is listened to.
    Nothing,
}

/// What bears on what a frame is to a sender.
#[derive(Clone, Copy, Debug, PartialEq, Eq, Structural)]
pub struct SenderView {
    /// The files go to one device of the fleet, and this peer has not proved to be it.
    pub unproved: bool,
    /// This peer is the one that files are sent to.
    pub active: bool,
}

/// What a frame of type `t` is to a sender; `hello` is the type of a fleet certificate.
pub open spec fn answer_as(t: Seq<char>, hello: Seq<char>, v: SenderView) -> Answer {
    if (t == "l3-nonce"@ || t == hello) && v.unproved {
        Answer::Handshake
    } else if t == "worker-ports"@ {
        Answer::WorkerPorts
    } else if t == "identity-nonce-challenge"@ {
        Answer::IdentityChallenge
    } else if t == "identity-auth-key-enroll-challenge"@ {
        Answer::EnrollChallenge
    } else if !v.active {
        Answer::Nothing
    } else if t == "brb"@ {
        Answer::Away
    } else if t == "back"@ {
        Answer::Back
    } else if t == "state"@ {
        Answer::State
    } else if t == "pair-keep-ack"@ {
        Answer::KeepAck
    } else if t == "pair-keep"@ {
        Answer::Keep
    } else if t == "pair-proof-ack"@ {
        Answer::Verdict
    } else if t == "file-accept"@ {
        Answer::Accept
    } else if t == "file-decline"@ {
        Answer::Decline
    } else if t == "delivery-ack"@ {
        Answer::Delivered
    } else {
        Answer::Nothing
    }
}

fn answer_type(t: &str, hello: &str, v: &SenderView) -> (r: Answer)
    ensures
        r == answer_as(t@, hello@, *v),
{
    if (same(t, "l3-nonce") || same(t, hello)) && v.unproved {
        Answer::Handshake
    } else if same(t, "worker-ports") {
        Answer::WorkerPorts
    } else if same(t, "identity-nonce-challenge") {
        Answer::IdentityChallenge
    } else if same(t, "identity-auth-key-enroll-challenge") {
        Answer::EnrollChallenge
    } else if !v.active {
        Answer::Nothing
    } else if same(t, "brb") {
        Answer::Away
    } else if same(t, "back") {
        Answer::Back
    } else if same(t, "state") {
        Answer::State
    } else if same(t, "pair-keep-ack") {
        Answer::KeepAck
    } else if same(t, "pair-keep") {
        Answer::Keep
    } else if same(t, "pair-proof-ack") {
        Answer::Verdict
    } else if same(t, "file-accept") {
        Answer::Accept
    } else if same(t, "file-decline") {
        Answer::Decline
    } else if same(t, "delivery-ack") {
        Answer::Delivered
    } else {
        Answer::Nothing
    }
}

/// What a frame is to a sender.
pub fn answer(f: &serde_json::Value, hello: &str, v: &SenderView) -> (r: Answer)
    ensures
        r == (match frame::json(*f).text_at("type"@) {
            Some(t) => answer_as(t, hello@, *v),
            None => Answer::Nothing,
        }),
{
    match text_at(f, "type") {
        Some(t) => answer_type(t, hello, v),
        None => Answer::Nothing,
    }
}

/// Only the peer that files are sent to accepts, declines or confirms one, and only its state
/// counts.
pub proof fn only_the_receiver_answers(t: Seq<char>, hello: Seq<char>, v: SenderView)
    requires
        !v.active,
    ensures
        ({
            let a = answer_as(t, hello, v);
            !(a is Accept || a is Decline || a is Delivered || a is State || a is Keep || a is KeepAck
                || a is Verdict)
        }),
{
}

} // verus!
