//! Certificate renewal and enrollment by invitation: what the owner's device answers, and
//! what a joined device takes from the answer.

use vstd::prelude::*;
use vstd::string::*;
use crate::frame;
use crate::frame::{copy, flag_at, member, object, of_text, put, text_at};
use crate::hexadecimal;
use crate::hexadecimal::{decode_exact, encode};
use crate::offer;
use crate::offer::text_member;
use crate::overlay_links;
use crate::shared_defs;
use crate::text;
use crate::text::{cat, cat3, contains, same, to_decimal};

verus! {

/// The state of a device that was away too long.
pub const PRINCIPAL_STATE_LAPSED: &'static str = "lapsed";

/// The state of a device that was removed.
pub const PRINCIPAL_STATE_REVOKED: &'static str = "revoked";

/// How the owner stands to a device.
pub struct Standing {
    /// There is a record of it.
    pub known: bool,
    pub revoked: bool,
    pub lapsed: bool,
    /// The device key in its record.
    pub stored_device_pub: Option<Vec<u8>>,
}

/// The state in a device's record is this.
pub open spec fn in_state(record: frame::Json, state: Seq<char>) -> bool {
    record.text_at("principalState"@) == Some(state)
}

/// The device key in a record, if it is one: 32 bytes in hexadecimal.
pub open spec fn recorded_key(record: frame::Json) -> Option<Seq<u8>> {
    match record.member("deviceCert"@).text_at("devicePub"@) {
        Some(h) => if hexadecimal::is_hex(h) && h.len() / 2 == 32 {
            Some(hexadecimal::hex_bytes(h))
        } else {
            None
        },
        None => None,
    }
}

/// How the owner stands to a device with this record, or with none.
pub fn renewal_standing_for(record: Option<&serde_json::Value>) -> (r: Standing)
    ensures
        r.known == (record is Some),
        record is None ==> !r.revoked && !r.lapsed && r.stored_device_pub is None,
        record matches Some(v) ==> ({
            let j = frame::json(*v);
            &&& r.revoked == (j.flag_at("certRevoked"@) == Some(true) || in_state(j, "revoked"@))
            &&& r.lapsed == in_state(j, "lapsed"@)
            &&& r.stored_device_pub is Some <==> recorded_key(j) is Some
            &&& r.stored_device_pub matches Some(k) ==> recorded_key(j) == Some(k@)
        }),
{
    match record {
        None => Standing { known: false, revoked: false, lapsed: false, stored_device_pub: None },
        Some(v) => {
            let stored = match text_at(member(v, "deviceCert"), "devicePub") {
                Some(h) => decode_exact(h, 32),
                None => None,
            };
            let flagged: bool = match flag_at(v, "certRevoked") {
                Some(b) => b,
                None => false,
            };
            let (revoked, lapsed) = match text_at(v, "principalState") {
                Some(s) => (same(s, "revoked"), same(s, "lapsed")),
                None => (false, false),
            };
            Standing { known: true, revoked: flagged || revoked, lapsed, stored_device_pub: stored }
        },
    }
}

/// The bare refusal to renew a certificate. It says nothing of why.
pub open spec fn renew_error_json() -> frame::Json {
    frame::empty_object().with("type"@, frame::Json::Text("identity-cert-renew-error"@))
}

fn renew_error() -> (r: serde_json::Value)
    ensures
        frame::json(r) == renew_error_json(),
{
    let mut f = object();
    put(&mut f, "type", of_text("identity-cert-renew-error"));
    f
}

/// What to do about a request to renew a certificate.
pub enum RenewStep {
    /// There is nobody to answer.
    Nothing,
    /// Refuse it with this frame.
    Refuse(serde_json::Value),
    /// Decide on it for the device with this key.
    Decide { device_pub: Vec<u8> },
}

/// What to do about a request to renew a certificate. The device it is for is the one that
/// has proved itself on the link, never one that the request names; and only a device with
/// the owner's key can renew.
pub fn renew_step(linked: bool, proven: bool, device_pub: Option<Vec<u8>>, owner_key: bool) -> (r:
    RenewStep)
    ensures
        r is Nothing <==> !linked,
        r is Decide <==> linked && proven && device_pub is Some && owner_key,
        r matches RenewStep::Decide { device_pub: d } ==> device_pub == Some(d),
        r matches RenewStep::Refuse(f) ==> frame::json(f) == renew_error_json(),
{
    if !linked {
        return RenewStep::Nothing;
    }
    match device_pub {
        Some(d) => if proven && owner_key {
            RenewStep::Decide { device_pub: d }
        } else {
            RenewStep::Refuse(renew_error())
        },
        None => RenewStep::Refuse(renew_error()),
    }
}

/// What came of deciding on a renewal.
pub enum RenewOutcome {
    /// The device has no standing.
    Refused,
    /// The certificate could not be signed.
    Unsigned,
    /// This is the new certificate.
    Signed(serde_json::Value),
}

/// The answer to a request to renew a certificate, if there is one.
pub fn renew_answer(outcome: RenewOutcome) -> (r: Option<serde_json::Value>)
    ensures
        outcome is Refused ==> (r matches Some(f) && frame::json(f) == renew_error_json()),
        outcome is Unsigned ==> r is None,
        outcome matches RenewOutcome::Signed(c) ==> (r matches Some(f) && frame::json(f)
            == frame::empty_object().with(
            "type"@,
            frame::Json::Text("identity-cert-renew-ack"@),
        ).with("cert"@, frame::json(c))),
{
    match outcome {
        RenewOutcome::Refused => Some(renew_error()),
        RenewOutcome::Unsigned => None,
        RenewOutcome::Signed(c) => {
            let mut f = object();
            put(&mut f, "type", of_text("identity-cert-renew-ack"));
            put(&mut f, "cert", c);
            Some(f)
        },
    }
}

/// For how long to renew: as long as the certificate at hand was for, and the usual time
/// where there is none.
pub fn renew_ttl(current: Option<u64>, usual: u64) -> (r: u64)
    ensures
        r == (match current {
            Some(t) => t,
            None => usual,
        }),
{
    match current {
        Some(t) => t,
        None => usual,
    }
}

/// The name under which the renewed certificate is recorded.
pub fn record_name(record: Option<&serde_json::Value>) -> (r: Option<String>)
    ensures
        shared_defs::view_of(r) == (match record {
            Some(v) => frame::json(*v).text_at("name"@),
            None => None,
        }),
{
    match record {
        Some(v) => match text_at(v, "name") {
            Some(n) => Some(n.to_owned()),
            None => None,
        },
        None => None,
    }
}

/// The line about a renewed certificate: the first eight digits of the key.
pub fn renewed_line(device_pub: &[u8]) -> (r: String)
    ensures
        ({
            let h = hexadecimal::hex_text(device_pub@);
            r@ == "  renewed certificate for "@ + (if h.len() > 8 {
                h.subrange(0, 8)
            } else {
                h
            })
        }),
{
    let h = encode(device_pub);
    let n: usize = h.as_str().unicode_len();
    if n > 8 {
        cat("  renewed certificate for ", h.as_str().substring_char(0, 8))
    } else {
        cat("  renewed certificate for ", h.as_str())
    }
}

/// Whether a renewed certificate is taken: it can be read, there is one to extend, and it
/// extends that one.
pub fn takes_renewal(readable: bool, has_certificate: bool, extends: bool) -> (r: bool)
    ensures
        r == (readable && has_certificate && extends),
{
    readable && has_certificate && extends
}

/// What is kept of a renewed certificate: the certificate, and the name in what was kept
/// before, if that can be read.
pub fn renewed_record(before: Option<&serde_json::Value>, cert: serde_json::Value) -> (r:
    serde_json::Value)
    ensures
        frame::json(r) == frame::empty_object().with(
            "name"@,
            frame::Json::Text(
                match before {
                    Some(b) => offer::text_or(frame::json(*b), "name"@, Seq::empty()),
                    None => Seq::empty(),
                },
            ),
        ).with("cert"@, frame::json(cert)),
{
    let name = match before {
        Some(b) => text_member(b, "name", ""),
        None => String::new(),
    };
    proof {
        reveal_strlit("");
        assert(""@ =~= Seq::<char>::empty());
    }
    let mut f = object();
    put(&mut f, "name", of_text(name.as_str()));
    put(&mut f, "cert", cert);
    f
}

/// The request to renew our certificate, if it is time: an owner's device signs its own, one
/// without a certificate has none to renew, and one that is not due waits.
pub fn renewal_request(owner_key: bool, has_certificate: bool, due: bool) -> (r: Option<
    serde_json::Value,
>)
    ensures
        r is Some <==> !owner_key && has_certificate && due,
        r matches Some(f) ==> frame::json(f) == frame::empty_object().with(
            "type"@,
            frame::Json::Text("identity-cert-renew-request"@),
        ),
{
    if owner_key || !has_certificate || !due {
        return None;
    }
    let mut f = object();
    put(&mut f, "type", of_text("identity-cert-renew-request"));
    Some(f)
}

/// What base64 text in the URL alphabet and without padding stands for, if it is that.
pub uninterp spec fn base64url(s: Seq<char>) -> Option<Seq<u8>>;

/// `base64::engine::general_purpose::URL_SAFE_NO_PAD` decodes text to the bytes it stands
/// for, and nothing where it is no such text. What that is, is named and not written out.
#[verifier::external_body]
pub(crate) fn decode_base64url(s: &str) -> (r: Option<Vec<u8>>)
    ensures
        r is Some <==> base64url(s@) is Some,
        r matches Some(b) ==> base64url(s@) == Some(b@),
{
    base64::Engine::decode(&base64::engine::general_purpose::URL_SAFE_NO_PAD, s).ok()
}

/// The refusal to enroll a device.
pub open spec fn enroll_error_json(reason: Seq<char>) -> frame::Json {
    frame::empty_object().with("type"@, frame::Json::Text("identity-auth-key-enroll-error"@)).with(
        "reason"@,
        frame::Json::Text(reason),
    )
}

/// The refusal to enroll a device.
pub fn enroll_error(reason: &str) -> (r: serde_json::Value)
    ensures
        frame::json(r) == enroll_error_json(reason@),
{
    let mut f = object();
    put(&mut f, "type", of_text("identity-auth-key-enroll-error"));
    put(&mut f, "reason", of_text(reason));
    f
}

/// The refusal that says nothing of why.
pub open spec fn denied_json() -> frame::Json {
    enroll_error_json("enrollment denied"@)
}

/// The invitation that a request to enroll carries.
pub open spec fn invitation(v: frame::Json) -> Option<Seq<u8>> {
    match v.text_at("auth_key_v2"@) {
        Some(s) => base64url(s),
        None => None,
    }
}

/// Take the bytes of an invitation, or refuse.
pub fn open_invitation(decoded: Option<Vec<u8>>, within_rate: bool) -> (r: Result<
    Vec<u8>,
    serde_json::Value,
>)
    ensures
        r is Ok <==> within_rate && decoded is Some,
        r matches Ok(b) ==> decoded == Some(b),
        r matches Err(f) ==> frame::json(f) == denied_json(),
{
    if !within_rate {
        return Err(enroll_error("enrollment denied"));
    }
    match decoded {
        Some(b) => Ok(b),
        None => Err(enroll_error("enrollment denied")),
    }
}

/// The invitation in a request to enroll. Every request counts against the rate, even one
/// that cannot be read, and the rate is looked at first.
pub fn enroll_request(v: &serde_json::Value, within_rate: bool) -> (r: Result<
    Vec<u8>,
    serde_json::Value,
>)
    ensures
        r is Ok <==> within_rate && invitation(frame::json(*v)) is Some,
        r matches Ok(b) ==> invitation(frame::json(*v)) == Some(b@),
        r matches Err(f) ==> frame::json(f) == denied_json(),
{
    if !within_rate {
        return open_invitation(None, false);
    }
    let decoded = match text_at(v, "auth_key_v2") {
        Some(s) => decode_base64url(s),
        None => None,
    };
    open_invitation(decoded, true)
}

/// What is known of an invitation.
pub struct InvitationView {
    /// It could be read.
    pub readable: bool,
    /// We hold the owner's key.
    pub owner_key: bool,
    /// It was made by the owner.
    pub verified: bool,
    /// When it expires, in seconds.
    pub expires: u64,
}

/// The challenge to a device that wants to enroll.
pub open spec fn enroll_challenge_json(nonce: Seq<u8>, verifier: Seq<u8>, cert: frame::Json) -> frame::Json {
    frame::empty_object().with(
        "type"@,
        frame::Json::Text("identity-auth-key-enroll-challenge"@),
    ).with("nonce"@, frame::Json::Text(hexadecimal::hex_text(nonce))).with(
        "verifier_pub"@,
        frame::Json::Text(hexadecimal::hex_text(verifier)),
    ).with("device_cert"@, cert)
}

/// An invitation is good: it can be read, was made by the owner whose key we hold, and has
/// not expired.
pub open spec fn good_invitation(i: InvitationView, now: u64) -> bool {
    i.readable && i.owner_key && i.verified && now < i.expires
}

/// Whether an invitation is good.
pub fn invites(i: &InvitationView, now: u64) -> (r: bool)
    ensures
        r == good_invitation(*i, now),
{
    i.readable && i.owner_key && i.verified && now < i.expires
}

/// The answer to a request to enroll: a challenge for a good invitation, where there are a
/// key to check with and a nonce; and otherwise a refusal that does not say which was
/// missing.
pub fn enroll_challenge(
    i: &InvitationView,
    now: u64,
    verifier: Option<Vec<u8>>,
    nonce: Option<Vec<u8>>,
    cert: serde_json::Value,
) -> (r: serde_json::Value)
    ensures
        good_invitation(*i, now) && verifier is Some && nonce is Some ==> frame::json(r)
            == enroll_challenge_json(nonce->0@, verifier->0@, frame::json(cert)),
        !(good_invitation(*i, now) && verifier is Some && nonce is Some) ==> frame::json(r)
            == denied_json(),
{
    if !invites(i, now) {
        return enroll_error("enrollment denied");
    }
    match (verifier, nonce) {
        (Some(k), Some(n)) => {
            let mut f = object();
            put(&mut f, "type", of_text("identity-auth-key-enroll-challenge"));
            put(&mut f, "nonce", of_text(encode(n.as_slice()).as_str()));
            put(&mut f, "verifier_pub", of_text(encode(k.as_slice()).as_str()));
            put(&mut f, "device_cert", cert);
            f
        },
        _ => enroll_error("enrollment denied"),
    }
}

/// A challenge to enroll, as the device that wants to reads it.
pub struct EnrollAsked {
    pub nonce: Vec<u8>,
    pub verifier: Vec<u8>,
    pub cert: serde_json::Value,
}

/// The challenge to enroll that a frame carries: a nonce and the key to check with, of 32
/// bytes each, and the certificate beside them.
pub open spec fn asks_to_enroll(j: frame::Json, r: Option<EnrollAsked>) -> bool {
    let nonce = offer::text_or(j, "nonce"@, Seq::empty());
    let key = offer::text_or(j, "verifier_pub"@, Seq::empty());
    &&& r is Some <==> overlay_links::is_bytes(nonce, 32) && overlay_links::is_bytes(key, 32)
    &&& r matches Some(c) ==> c.nonce@ == hexadecimal::hex_bytes(nonce) && c.verifier@
        == hexadecimal::hex_bytes(key) && frame::json(c.cert) == j.member("device_cert"@)
}

/// Read a challenge to enroll.
pub fn parse_enroll_challenge(v: &serde_json::Value) -> (r: Option<EnrollAsked>)
    ensures
        asks_to_enroll(frame::json(*v), r),
{
    let nonce = text_member(v, "nonce", "");
    let key = text_member(v, "verifier_pub", "");
    proof {
        reveal_strlit("");
        assert(""@ =~= Seq::<char>::empty());
    }
    match (decode_exact(nonce.as_str(), 32), decode_exact(key.as_str(), 32)) {
        (Some(nonce), Some(verifier)) => Some(
            EnrollAsked { nonce, verifier, cert: copy(member(v, "device_cert")) },
        ),
        _ => None,
    }
}

/// A device reads a challenge to enroll as it was put.
pub proof fn enroll_challenge_round_trip(nonce: Seq<u8>, verifier: Seq<u8>, cert: frame::Json)
    requires
        nonce.len() == 32,
        verifier.len() == 32,
    ensures
        ({
            let j = enroll_challenge_json(nonce, verifier, cert);
            let n = offer::text_or(j, "nonce"@, Seq::empty());
            let k = offer::text_or(j, "verifier_pub"@, Seq::empty());
            overlay_links::is_bytes(n, 32) && overlay_links::is_bytes(k, 32)
                && hexadecimal::hex_bytes(n) == nonce && hexadecimal::hex_bytes(k) == verifier
                && j.member("device_cert"@) == cert
        }),
{
    broadcast use frame::with_sets_one_member;

    reveal_strlit("nonce");
    reveal_strlit("verifier_pub");
    reveal_strlit("device_cert");
    assert("nonce"@.len() == 5 && "verifier_pub"@.len() == 12 && "device_cert"@.len() == 11);
    hexadecimal::hex_round_trip(nonce);
    hexadecimal::hex_round_trip(verifier);
}

/// What is known of a device's answer to the challenge.
pub struct ResponseView {
    /// It could be read.
    pub readable: bool,
    /// We hold the owner's key.
    pub owner_key: bool,
    /// There is a key to check with.
    pub verifier: bool,
    /// A challenge to this device was outstanding.
    pub challenged: bool,
    /// It proves what it claims, by that challenge.
    pub verified: bool,
}

/// Whether an answer to the challenge holds; if not, the refusal.
pub fn response_refusal(v: &ResponseView) -> (r: Option<serde_json::Value>)
    ensures
        r is None <==> v.readable && v.owner_key && v.verifier && v.challenged && v.verified,
        r matches Some(f) ==> frame::json(f) == denied_json(),
{
    if v.readable && v.owner_key && v.verifier && v.challenged && v.verified {
        None
    } else {
        Some(enroll_error("enrollment denied"))
    }
}

/// What a joiner is told of an invitation that could not be used up.
pub open spec fn burn_text(msg: Seq<char>) -> Seq<char> {
    if text::occurs(msg, "already used"@) {
        "already used"@
    } else if text::occurs(msg, "exhausted"@) {
        "use limit reached"@
    } else if text::occurs(msg, "rate-limited"@) {
        "rate-limited"@
    } else {
        "enrollment denied"@
    }
}

/// What a joiner is told of an invitation that could not be used up: the fact, where it is
/// one of those that a joiner may know.
pub fn burn_refusal(msg: &str) -> (r: serde_json::Value)
    ensures
        frame::json(r) == enroll_error_json(burn_text(msg@)),
{
    if contains(msg, "already used") {
        enroll_error("already used")
    } else if contains(msg, "exhausted") {
        enroll_error("use limit reached")
    } else if contains(msg, "rate-limited") {
        enroll_error("rate-limited")
    } else {
        enroll_error("enrollment denied")
    }
}

/// The name that a device asks for.
pub open spec fn requested(link_name: Option<Seq<char>>, prior: Option<frame::Json>, persistent: bool) -> Seq<
    char,
> {
    let own = match link_name {
        Some(n) => n,
        None => "joined-device"@,
    };
    match prior {
        Some(p) => if persistent && in_state(p, "lapsed"@) && p.text_at("name"@) is Some {
            p.text_at("name"@)->0
        } else {
            own
        },
        None => own,
    }
}

/// The name that a device asks for: its link's, except that one which was away too long and
/// comes back for good keeps the name it had.
pub fn enroll_name(link_name: Option<&str>, prior: Option<&serde_json::Value>, persistent: bool) -> (r:
    String)
    ensures
        r@ == requested(
            shared_defs::view_of_str(link_name),
            match prior {
                Some(p) => Some(frame::json(*p)),
                None => None,
            },
            persistent,
        ),
{
    if let Some(p) = prior {
        let lapsed: bool = match text_at(p, "principalState") {
            Some(s) => same(s, "lapsed"),
            None => false,
        };
        if persistent && lapsed {
            if let Some(n) = text_at(p, "name") {
                return n.to_owned();
            }
        }
    }
    match link_name {
        Some(n) => n.to_owned(),
        None => "joined-device".to_owned(),
    }
}

/// Whether a device may take over the record under `candidate`: only where that is the name
/// in its own record.
pub fn may_reanchor(prior: Option<&serde_json::Value>, candidate: &str) -> (r: bool)
    ensures
        r == (match prior {
            Some(p) => frame::json(*p).text_at("name"@) == Some(candidate@),
            None => false,
        }),
{
    match prior {
        Some(p) => match text_at(p, "name") {
            Some(n) => same(n, candidate),
            None => false,
        },
        None => false,
    }
}

/// How many names are tried for a device.
pub const NAMES_TRIED: usize = 999;

/// What is to be done about naming a device.
#[derive(Debug, PartialEq, Eq)]
pub enum NameStep {
    /// Find out whether this name belongs to another device.
    Probe(String),
    /// Use this name.
    Use(String),
}

/// The names that are tried: the name itself, then with `-2`, `-3` and so on.
pub open spec fn name_candidate(base: Seq<char>, k: int) -> Seq<char> {
    if k == 0 {
        base
    } else {
        base + "-"@ + text::decimal((k + 1) as nat)
    }
}

/// The name at `k` is the one to use: it is the first that belongs to no other device, or the
/// last that is tried.
pub open spec fn names(pinned: Seq<bool>, k: int) -> bool {
    &&& 0 <= k < NAMES_TRIED
    &&& forall|j: int| 0 <= j < k ==> pinned[j]
    &&& k == NAMES_TRIED - 1 || !pinned[k]
    &&& k == NAMES_TRIED - 1 || k < pinned.len()
    &&& k <= pinned.len()
}

/// How naming goes on, where `pinned` says of the names asked about so far, in order, whether
/// they belong to another device: while all do, the next one is asked about.
pub open spec fn goes_on(base: Seq<char>, pinned: Seq<bool>, r: NameStep) -> bool {
    match r {
        NameStep::Probe(p) => {
            &&& pinned.len() < NAMES_TRIED - 1
            &&& forall|j: int| 0 <= j < pinned.len() ==> pinned[j]
            &&& p@ == name_candidate(base, pinned.len() as int)
        },
        NameStep::Use(p) => exists|k: int| #[trigger]
            names(pinned, k) && p@ == name_candidate(base, k),
    }
}

/// The name for a device that asks for `base` and may not take over a record. `pinned` says of
/// the candidates asked about so far, in order, whether they belong to another device.
pub fn free_name(base: &str, pinned: &Vec<bool>) -> (r: NameStep)
    ensures
        goes_on(base@, pinned@, r),
{
    let mut k: usize = 0;
    while k < pinned.len() && k < NAMES_TRIED - 1 && pinned[k]
        invariant
            k <= pinned@.len(),
            k <= NAMES_TRIED - 1,
            forall|j: int| 0 <= j < k ==> pinned@[j],
        decreases pinned.len() - k,
    {
        k += 1;
    }
    let c = if k == 0 {
        base.to_owned()
    } else {
        let n = to_decimal(k as u64 + 1);
        cat3(base, "-", n.as_str())
    };
    if k < pinned.len() || k == NAMES_TRIED - 1 {
        proof {
            assert(names(pinned@, k as int));
        }
        NameStep::Use(c)
    } else {
        NameStep::Probe(c)
    }
}

/// A device never takes a name that belongs to another, unless every name that is tried does.
pub proof fn no_name_is_taken_over(pinned: Seq<bool>, k: int)
    requires
        names(pinned, k),
        k < pinned.len(),
        pinned[k],
    ensures
        forall|j: int| 0 <= j < NAMES_TRIED ==> pinned[j],
{
}

/// The answer to a device that was enrolled, on top of what it is enrolled with.
pub open spec fn enroll_ack_json(
    enrolment: frame::Json,
    name: Seq<char>,
    owner_name: Seq<char>,
    secret: Seq<char>,
    device_pub: Seq<u8>,
    max_offline: frame::Json,
) -> frame::Json {
    enrolment.with("type"@, frame::Json::Text("identity-auth-key-enroll-ack"@)).with(
        "name"@,
        frame::Json::Text(name),
    ).with("owner_name"@, frame::Json::Text(owner_name)).with(
        "secret"@,
        frame::Json::Text(secret),
    ).with("device_pub"@, frame::Json::Text(hexadecimal::hex_text(device_pub))).with(
        "max_offline"@,
        max_offline,
    )
}

/// The answer to a device that was enrolled, on top of what it is enrolled with.
pub fn enroll_ack(
    enrolment: serde_json::Value,
    name: &str,
    owner_name: &str,
    secret: &str,
    device_pub: &[u8],
    max_offline: serde_json::Value,
) -> (r: serde_json::Value)
    requires
        frame::json(enrolment) is Object,
    ensures
        frame::json(r) == enroll_ack_json(
            frame::json(enrolment),
            name@,
            owner_name@,
            secret@,
            device_pub@,
            frame::json(max_offline),
        ),
{
    let mut f = enrolment;
    put(&mut f, "type", of_text("identity-auth-key-enroll-ack"));
    put(&mut f, "name", of_text(name));
    put(&mut f, "owner_name", of_text(owner_name));
    put(&mut f, "secret", of_text(secret));
    put(&mut f, "device_pub", of_text(encode(device_pub).as_str()));
    put(&mut f, "max_offline", max_offline);
    f
}

/// A refusal to enroll gives nothing away: the one frame that answers every failure, in the
/// request or in the answer to the challenge, holds its type and one fixed reason, and nothing
/// else.
pub proof fn refusal_gives_nothing_away(key: Seq<char>)
    ensures
        denied_json().text_at("reason"@) == Some("enrollment denied"@),
        key != "type"@ && key != "reason"@ ==> denied_json().member(key) is Null,
{
    broadcast use frame::with_sets_one_member;

}

} // verus!
