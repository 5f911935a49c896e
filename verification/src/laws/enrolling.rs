//! Certificates: who is given one, who gets a new one, and what is answered to whoever is not.

use vstd::prelude::*;
use vstd::string::*;
use crate::enrolment;
use crate::enrolment::{
    enroll_step, EnrollAction, EnrollEvent, EnrollStage, Enrolment, VerifiedKey,
};
use crate::frame;
use crate::hexadecimal;
use crate::renewal_lifecycle;
use crate::renewal_lifecycle::{
    burn_refusal, enroll_ack, enroll_challenge, enroll_error, enroll_name, enroll_request, free_name,
    invites, may_reanchor, open_invitation, parse_enroll_challenge, record_name, renew_answer,
    renew_step, renew_ttl, renewal_request, renewal_standing_for, renewed_line, renewed_record,
    response_refusal, takes_renewal, EnrollAsked, InvitationView, NameStep, RenewOutcome, RenewStep,
    ResponseView, Standing,
};
use crate::text;

verus! {

broadcast use frame::with_sets_one_member;

proof fn keys_are_apart()
    ensures
        "cert"@.len() == 4,
        "cert"@[0] == 'c',
        "name"@.len() == 4,
        "name"@[0] == 'n',
        "type"@.len() == 4,
        "type"@[0] == 't',
        "nonce"@.len() == 5,
        "lapsed"@.len() == 6,
        "lapsed"@[0] == 'l',
        "reason"@.len() == 6,
        "reason"@[0] == 'r',
        "secret"@.len() == 6,
        "secret"@[0] == 's',
        "revoked"@.len() == 7,
        "device_pub"@.len() == 10,
        "device_pub"@[0] == 'd',
        "owner_name"@.len() == 10,
        "owner_name"@[0] == 'o',
        "device_cert"@.len() == 11,
        "device_cert"@[0] == 'd',
        "max_offline"@.len() == 11,
        "max_offline"@[0] == 'm',
        "verifier_pub"@.len() == 12,
{
    reveal_strlit("cert");
    reveal_strlit("name");
    reveal_strlit("type");
    reveal_strlit("nonce");
    reveal_strlit("lapsed");
    reveal_strlit("reason");
    reveal_strlit("secret");
    reveal_strlit("revoked");
    reveal_strlit("device_pub");
    reveal_strlit("owner_name");
    reveal_strlit("device_cert");
    reveal_strlit("max_offline");
    reveal_strlit("verifier_pub");
}

/// A device is revoked where its record says so in either way, and lapsed where its state says so;
/// nothing is known of a device without a record.
pub proof fn a_record_tells_where_a_device_stands(record: Option<&serde_json::Value>, r: Standing, key: Seq<u8>)
    requires
        call_ensures(renewal_standing_for, (record,), r),
    ensures
        record is None ==> !r.known && !r.revoked && !r.lapsed && r.stored_device_pub is None,
        record is Some ==> {
            let f = frame::json(*record->0);
            &&& r.known
            &&& f.member("certRevoked"@) == frame::Json::Bool(true) ==> r.revoked
            &&& f.member("principalState"@) == frame::Json::Text("revoked"@) ==> r.revoked && !r.lapsed
            &&& f.member("principalState"@) == frame::Json::Text("lapsed"@) ==> r.lapsed
            &&& f.member("certRevoked"@) != frame::Json::Bool(true) && f.member("principalState"@)
                != frame::Json::Text("revoked"@) ==> !r.revoked
            &&& f.member("principalState"@) != frame::Json::Text("lapsed"@) ==> !r.lapsed
            &&& f.member("deviceCert"@).member("devicePub"@) == frame::Json::Text(
                hexadecimal::hex_text(key),
            ) && key.len() == 32 ==> r.stored_device_pub is Some && r.stored_device_pub->0@ == key
            &&& f.member("deviceCert"@).member("devicePub"@) !is Text ==> r.stored_device_pub is None
        },
{
    keys_are_apart();
    hexadecimal::hex_round_trip(key);
}

/// A certificate is renewed by its owner, for a linked device that has proved which it is, and for
/// that device; anybody else over a link is refused.
pub proof fn whose_certificate_is_renewed(linked: bool, proven: bool, device: Option<Vec<u8>>, owner: bool, r: RenewStep)
    requires
        call_ensures(renew_step, (linked, proven, device, owner), r),
    ensures
        !linked ==> r is Nothing,
        linked && proven && owner && device is Some ==> r is Decide && r->device_pub == device->0,
        linked && (!proven || !owner || device is None) ==> r is Refuse,
        r matches RenewStep::Refuse(f) ==> frame::json(f).member("type"@) == frame::Json::Text(
            "identity-cert-renew-error"@,
        ),
{
}

/// A renewed certificate is sent as it was signed; a refusal is told; and where nothing was signed
/// nothing is said.
pub proof fn a_renewal_is_answered(o: RenewOutcome, r: Option<serde_json::Value>)
    requires
        call_ensures(renew_answer, (o,), r),
    ensures
        o matches RenewOutcome::Signed(c) ==> r is Some && frame::json(r->0).member("type"@)
            == frame::Json::Text("identity-cert-renew-ack"@) && frame::json(r->0).member("cert"@)
            == frame::json(c),
        o is Refused ==> r is Some && frame::json(r->0).member("type"@) == frame::Json::Text(
            "identity-cert-renew-error"@,
        ),
        o is Unsigned ==> r is None,
{
    keys_are_apart();
}

/// A certificate is renewed for as long as the one before, and for the usual time where there was
/// none; a record is known by its name.
pub proof fn a_renewal_lasts_as_before(current: Option<u64>, usual: u64, t: u64, record: Option<&serde_json::Value>, n: Option<String>)
    requires
        call_ensures(renew_ttl, (current, usual), t),
        call_ensures(record_name, (record,), n),
    ensures
        current is Some ==> t == current->0,
        current is None ==> t == usual,
        record is None ==> n is None,
        record is Some ==> (frame::json(*record->0).member("name"@) matches frame::Json::Text(s) ==> n
            is Some && n->0@ == s),
        record is Some && frame::json(*record->0).member("name"@) !is Text ==> n is None,
{
}

/// A renewal is told by the first eight digits of the device key, or all there are.
pub proof fn a_renewal_is_told(device: &[u8], l: String)
    requires
        call_ensures(renewed_line, (device,), l),
    ensures
        device@.len() > 4 ==> l@ == "  renewed certificate for "@ + hexadecimal::hex_text(
            device@,
        ).subrange(0, 8),
        device@.len() <= 4 ==> l@ == "  renewed certificate for "@ + hexadecimal::hex_text(device@),
{
}

/// A renewed certificate is taken where it can be read, there was one, and it extends it; it is kept
/// under the name there was.
pub proof fn a_renewal_is_kept_under_the_same_name(readable: bool, holds_one: bool, extends: bool, t: bool, before: Option<&serde_json::Value>, cert: serde_json::Value, r: serde_json::Value)
    requires
        call_ensures(takes_renewal, (readable, holds_one, extends), t),
        call_ensures(renewed_record, (before, cert), r),
    ensures
        t <==> readable && holds_one && extends,
        frame::json(r).member("cert"@) == frame::json(cert),
        before is Some ==> (frame::json(*before->0).member("name"@) matches frame::Json::Text(s)
            ==> frame::json(r).member("name"@) == frame::Json::Text(s)),
        before is None ==> (frame::json(r).member("name"@) matches frame::Json::Text(s) && s.len() == 0),
{
    keys_are_apart();
}

/// A renewal is asked for by a device that is not the owner, has a certificate, and for which it is
/// due.
pub proof fn who_asks_for_a_renewal(owner: bool, holds_one: bool, due: bool, r: Option<serde_json::Value>)
    requires
        call_ensures(renewal_request, (owner, holds_one, due), r),
    ensures
        owner || !holds_one || !due ==> r is None,
        !owner && holds_one && due ==> r is Some && frame::json(r->0).member("type"@) == frame::Json::Text(
            "identity-cert-renew-request"@,
        ),
{
}

/// The frame tells whoever wants to enroll that it was denied.
pub open spec fn denies(v: serde_json::Value) -> bool {
    &&& frame::json(v).member("type"@) == frame::Json::Text("identity-auth-key-enroll-error"@)
    &&& frame::json(v).member("reason"@) == frame::Json::Text("enrollment denied"@)
}

/// An error to whoever wants to enroll gives its reason.
pub proof fn an_error_gives_its_reason(why: &str, f: serde_json::Value)
    requires
        call_ensures(enroll_error, (why,), f),
    ensures
        frame::json(f).member("type"@) == frame::Json::Text("identity-auth-key-enroll-error"@),
        frame::json(f).member("reason"@) == frame::Json::Text(why@),
{
    keys_are_apart();
}

/// An invitation is looked at within the rate and as it was decoded; otherwise it is denied.
pub proof fn an_invitation_is_looked_at_within_the_rate(decoded: Option<Vec<u8>>, within: bool, r: Result<Vec<u8>, serde_json::Value>)
    requires
        call_ensures(open_invitation, (decoded, within), r),
    ensures
        within && decoded is Some ==> r is Ok && r->Ok_0 == decoded->0,
        !within || decoded is None ==> r is Err && denies(r->Err_0),
{
    keys_are_apart();
}

/// A request to enroll carries its invitation, and is denied without one, or beyond the rate.
pub proof fn a_request_carries_its_invitation(v: serde_json::Value, within: bool, r: Result<Vec<u8>, serde_json::Value>, s: Seq<char>)
    requires
        call_ensures(enroll_request, (&v, within), r),
    ensures
        !within ==> r is Err,
        frame::json(v).member("auth_key_v2"@) !is Text ==> r is Err,
        frame::json(v).member("auth_key_v2"@) == frame::Json::Text(s) && within ==> (r is Ok
            <==> renewal_lifecycle::base64url(s) is Some) && (r is Ok ==> r->Ok_0@
            == renewal_lifecycle::base64url(s)->0),
        r is Err ==> denies(r->Err_0),
{
    keys_are_apart();
}

/// An invitation holds where it can be read, is the owner's, was verified and has not run out.
pub proof fn when_an_invitation_holds(i: InvitationView, now: u64, r: bool)
    requires
        call_ensures(invites, (&i, now), r),
    ensures
        now >= i.expires || !i.readable || !i.owner_key || !i.verified ==> !r,
        now < i.expires && i.readable && i.owner_key && i.verified ==> r,
{
}

/// Whoever holds an invitation is challenged, and reads the challenge as it was made; anybody else
/// is denied.
pub proof fn an_invitation_is_challenged(i: InvitationView, now: u64, verifier: Option<Vec<u8>>, nonce: Option<Vec<u8>>, cert: serde_json::Value, f: serde_json::Value, c: Option<EnrollAsked>)
    requires
        call_ensures(enroll_challenge, (&i, now, verifier, nonce, cert), f),
        call_ensures(parse_enroll_challenge, (&f,), c),
    ensures
        i.readable && i.owner_key && i.verified && now < i.expires && verifier is Some && nonce is Some
            ==> {
            &&& frame::json(f).member("type"@) == frame::Json::Text(
                "identity-auth-key-enroll-challenge"@,
            )
            &&& c is Some <==> nonce->0@.len() == 32 && verifier->0@.len() == 32
            &&& c is Some ==> c->0.nonce@ == nonce->0@ && c->0.verifier@ == verifier->0@ && frame::json(
                c->0.cert,
            ) == frame::json(cert)
        },
        !i.readable || !i.owner_key || !i.verified || now >= i.expires || verifier is None || nonce
            is None ==> denies(f),
{
    keys_are_apart();
    if nonce is Some && verifier is Some {
        hexadecimal::hex_round_trip(nonce->0@);
        hexadecimal::hex_round_trip(verifier->0@);
    }
}

/// A challenge to enroll is what its members say.
pub proof fn a_challenge_to_enroll_is_read(v: serde_json::Value, c: Option<EnrollAsked>, nonce: Seq<u8>, key: Seq<u8>)
    requires
        call_ensures(parse_enroll_challenge, (&v,), c),
        frame::json(v).member("nonce"@) == frame::Json::Text(hexadecimal::hex_text(nonce)),
        frame::json(v).member("verifier_pub"@) == frame::Json::Text(hexadecimal::hex_text(key)),
    ensures
        c is Some <==> nonce.len() == 32 && key.len() == 32,
        c is Some ==> c->0.nonce@ == nonce && c->0.verifier@ == key && frame::json(c->0.cert)
            == frame::json(v).member("device_cert"@),
{
    hexadecimal::hex_round_trip(nonce);
    hexadecimal::hex_round_trip(key);
}

/// An answer to the challenge holds only if it holds in every respect.
pub proof fn an_answer_holds_in_every_respect(v: ResponseView, r: Option<serde_json::Value>)
    requires
        call_ensures(response_refusal, (&v,), r),
    ensures
        v.readable && v.owner_key && v.verifier && v.challenged && v.verified ==> r is None,
        !v.readable || !v.owner_key || !v.verifier || !v.challenged || !v.verified ==> r is Some
            && denies(r->0),
{
    keys_are_apart();
}

/// Why an invitation could not be used up is told by what is known of it, and no more.
pub proof fn why_an_invitation_was_not_used(msg: &str, f: serde_json::Value, a: Seq<char>, b: Seq<char>)
    requires
        call_ensures(burn_refusal, (msg,), f),
    ensures
        frame::json(f).member("type"@) == frame::Json::Text("identity-auth-key-enroll-error"@),
        msg@ == a + "already used"@ + b ==> frame::json(f).member("reason"@) == frame::Json::Text(
            "already used"@,
        ),
        msg@ == a + "exhausted"@ + b && !text::occurs(msg@, "already used"@) ==> frame::json(f).member(
            "reason"@,
        ) == frame::Json::Text("use limit reached"@),
        msg@ == a + "rate-limited"@ + b && !text::occurs(msg@, "already used"@) && !text::occurs(
            msg@,
            "exhausted"@,
        ) ==> frame::json(f).member("reason"@) == frame::Json::Text("rate-limited"@),
        !text::occurs(msg@, "already used"@) && !text::occurs(msg@, "exhausted"@) && !text::occurs(
            msg@,
            "rate-limited"@,
        ) ==> denies(f),
{
    keys_are_apart();
    let i = a.len() as int;
    if msg@ == a + "already used"@ + b {
        assert(msg@.subrange(i, i + "already used"@.len()) =~= "already used"@);
    }
    if msg@ == a + "exhausted"@ + b {
        assert(msg@.subrange(i, i + "exhausted"@.len()) =~= "exhausted"@);
    }
    if msg@ == a + "rate-limited"@ + b {
        assert(msg@.subrange(i, i + "rate-limited"@.len()) =~= "rate-limited"@);
    }
}

/// A device is called as its link is, unless it comes back: one that lapsed and is to stay has its
/// old name.
pub proof fn a_device_that_comes_back_has_its_name(link: Option<&str>, prior: Option<&serde_json::Value>, persistent: bool, r: String)
    requires
        call_ensures(enroll_name, (link, prior, persistent), r),
    ensures
        prior is None && link is Some ==> r@ == link->0@,
        prior is None && link is None ==> r@ == "joined-device"@,
        prior is Some ==> {
            let f = frame::json(*prior->0);
            let back = persistent && f.member("principalState"@) == frame::Json::Text("lapsed"@);
            &&& back && f.member("name"@) is Text ==> r@ == f.member("name"@)->Text_0
            &&& (!back || f.member("name"@) !is Text) && link is Some ==> r@ == link->0@
            &&& (!back || f.member("name"@) !is Text) && link is None ==> r@ == "joined-device"@
        },
{
}

/// A name is taken over only from the record that has it.
pub proof fn a_name_is_taken_over_from_its_record(prior: Option<&serde_json::Value>, name: &str, r: bool)
    requires
        call_ensures(may_reanchor, (prior, name), r),
    ensures
        prior is None ==> !r,
        prior is Some ==> (r <==> frame::json(*prior->0).member("name"@) == frame::Json::Text(name@)),
{
}

/// The first name that nobody has is used: the name itself, then with `-2`, `-3` and so on; the last
/// of nine hundred and ninety-nine is used without asking.
pub proof fn the_first_name_nobody_has_is_used(base: &str, pinned: Vec<bool>, r: NameStep, k: int)
    requires
        call_ensures(free_name, (base, &pinned), r),
    ensures
        0 <= k < pinned@.len() && k < 998 && !pinned@[k] && (forall|j: int| 0 <= j < k ==> pinned@[j])
            ==> (r matches NameStep::Use(p) && p@ == if k == 0 {
            base@
        } else {
            base@ + "-"@ + text::decimal((k + 1) as nat)
        }),
        pinned@.len() < 998 && (forall|j: int| 0 <= j < pinned@.len() ==> pinned@[j]) ==> (
        r matches NameStep::Probe(p) && p@ == if pinned@.len() == 0 {
            base@
        } else {
            base@ + "-"@ + text::decimal((pinned@.len() + 1) as nat)
        }),
        pinned@.len() >= 998 && (forall|j: int| 0 <= j < 998 ==> pinned@[j]) ==> (
        r matches NameStep::Use(p) && p@ == base@ + "-"@ + text::decimal(999)),
{
    if r is Use {
        let i = choose|i: int| #[trigger]
            renewal_lifecycle::names(pinned@, i) && r->Use_0@ == renewal_lifecycle::name_candidate(
                base@,
                i,
            );
        assert(renewal_lifecycle::names(pinned@, i));
        if 0 <= k < pinned@.len() && k < 998 && !pinned@[k] && (forall|j: int|
            0 <= j < k ==> pinned@[j]) {
            assert(i == k) by {
                if i < k {
                    assert(pinned@[i]);
                }
                if k < i {
                    assert(pinned@[k]);
                }
            }
        }
        if i < 998 {
            assert(!pinned@[i]);
        }
    }
}

/// Whoever was enrolled is told its name, the owner's, the secret they share and its own key, with
/// everything else that the enrolment carries.
pub proof fn an_enrolment_is_told(e: serde_json::Value, name: &str, owner: &str, secret: &str, key: &[u8], max: serde_json::Value, f: serde_json::Value, k: Seq<char>)
    requires
        frame::json(e) is Object,
        call_ensures(enroll_ack, (e, name, owner, secret, key, max), f),
    ensures
        frame::json(f).member("type"@) == frame::Json::Text("identity-auth-key-enroll-ack"@),
        frame::json(f).member("name"@) == frame::Json::Text(name@),
        frame::json(f).member("owner_name"@) == frame::Json::Text(owner@),
        frame::json(f).member("secret"@) == frame::Json::Text(secret@),
        frame::json(f).member("device_pub"@) == frame::Json::Text(hexadecimal::hex_text(key@)),
        frame::json(f).member("max_offline"@) == frame::json(max),
        k != "type"@ && k != "name"@ && k != "owner_name"@ && k != "secret"@ && k != "device_pub"@ && k
            != "max_offline"@ ==> frame::json(f).member(k) == frame::json(e).member(k),
{
    keys_are_apart();
}

/// Somebody who wants to enroll is verified first; what fails there, or is not fully shown, is denied
/// and over.
pub proof fn an_enrolment_is_verified_first(s: &mut Enrolment, v: &mut Enrolment, view: ResponseView, key: Option<VerifiedKey>, r: EnrollAction, a: EnrollAction)
    requires
        old(s).stage is Start,
        call_ensures(enroll_step, (s, EnrollEvent::Came), r),
        old(v).stage is Verifying,
        call_ensures(enroll_step, (v, EnrollEvent::Verified { view, key }), a),
    ensures
        r is Verify && final(s).stage is Verifying,
        view.readable && view.owner_key && view.verifier && view.challenged && view.verified && key
            is Some ==> final(v).stage is LookingUp && final(v).key == key && (
        a matches EnrollAction::LookUp { device_pub } && device_pub@ == key->0.device_pub@),
        !view.readable || !view.owner_key || !view.verifier || !view.challenged || !view.verified || key
            is None ==> final(v).stage is Over && (a matches EnrollAction::Refuse { frame: f } && denies(
            f,
        )),
{
    keys_are_apart();
}

/// A device that may enroll is asked for its name, and one that may not is told why.
pub proof fn an_enrolment_is_named(s: &mut Enrolment, prior: Option<serde_json::Value>, refusal: Option<String>, r: EnrollAction, link: Option<&str>, p: Option<&serde_json::Value>, n: String)
    requires
        old(s).wf(),
        old(s).stage is LookingUp,
        call_ensures(enroll_step, (s, EnrollEvent::LookedUp { prior, refusal }), r),
        link is Some <==> old(s).link_name is Some,
        link is Some ==> link->0@ == old(s).link_name->0@,
        p is Some <==> prior is Some,
        p is Some ==> *p->0 == prior->0,
        call_ensures(enroll_name, (link, p, !old(s).key->0.ephemeral), n),
    ensures
        refusal matches Some(why) ==> final(s).stage is Over && (r matches EnrollAction::Refuse { frame: f }
            && frame::json(f).member("type"@) == frame::Json::Text("identity-auth-key-enroll-error"@)
            && frame::json(f).member("reason"@) == frame::Json::Text(why@)),
        refusal is None ==> final(s).stage is Cleaning && final(s).prior == prior && (
        r matches EnrollAction::Clean { name } && name@ == n@),
{
    keys_are_apart();
}

/// A device that has its name already keeps it; another's name is looked for among those that are
/// free.
pub proof fn a_free_name_is_looked_for(s: &mut Enrolment, name: String, r: EnrollAction)
    requires
        old(s).wf(),
        old(s).stage is Cleaning,
        call_ensures(enroll_step, (s, EnrollEvent::Cleaned { name }), r),
    ensures
        ({
            let own = old(s).prior is Some && frame::json(old(s).prior->0).member("name"@)
                == frame::Json::Text(name@);
            &&& own ==> final(s).stage is Minting && final(s).reanchor && final(s).name == name && r is Mint
            &&& !own ==> final(s).stage is Probing && final(s).base == name && final(s).pinned@.len() == 0
                && (r matches EnrollAction::Probe { name: n } && n@ == name@)
        }),
        r matches EnrollAction::Mint { device_pub, caps, expires, persistent } ==> device_pub@ == old(
            s,
        ).key->0.device_pub@ && expires == old(s).key->0.expires && persistent == !old(
            s,
        ).key->0.ephemeral,
{
}

/// While names are taken the next is asked about; the first free one is used.
pub proof fn the_first_free_name_is_given(s: &mut Enrolment, pinned: bool, r: EnrollAction)
    requires
        old(s).wf(),
        old(s).stage is Probing,
        old(s).pinned@.len() < 900,
        forall|j: int| 0 <= j < old(s).pinned@.len() ==> old(s).pinned@[j],
        call_ensures(enroll_step, (s, EnrollEvent::Probed { pinned }), r),
    ensures
        pinned ==> final(s).stage is Probing && (r matches EnrollAction::Probe { name } && name@ == old(
            s,
        ).base@ + "-"@ + text::decimal((old(s).pinned@.len() + 2) as nat)),
        !pinned ==> final(s).stage is Minting && r is Mint && !final(s).reanchor && final(s).name@ == (
        if old(s).pinned@.len() == 0 {
            old(s).base@
        } else {
            old(s).base@ + "-"@ + text::decimal((old(s).pinned@.len() + 1) as nat)
        }),
{
    let n = old(s).pinned@.len() as int;
    let now = final(s).pinned@;
    assert(now[n] == pinned);
    assert forall|j: int| 0 <= j < n implies now[j] by {
        assert(old(s).pinned@[j]);
    }
    if r is Mint {
        let i = choose|i: int| #[trigger]
            renewal_lifecycle::names(now, i) && final(s).name@ == renewal_lifecycle::name_candidate(
                old(s).base@,
                i,
            );
        assert(renewal_lifecycle::names(now, i));
        assert(i == n);
    } else {
        if !pinned {
            assert(now[n]);
        }
    }
}

/// What was minted is used up before anything is stored, and what was not is denied.
pub proof fn an_invitation_is_used_up_before_anything_is_stored(s: &mut Enrolment, e: Option<serde_json::Value>, r: EnrollAction, b: &mut Enrolment, burned: Result<(), String>, a: EnrollAction)
    requires
        old(s).stage is Minting,
        call_ensures(enroll_step, (s, EnrollEvent::Minted { enrolment: e }), r),
        old(b).wf(),
        old(b).stage is Burning,
        call_ensures(enroll_step, (b, EnrollEvent::Burned { burned }), a),
    ensures
        e is Some && frame::json(e->0) is Object ==> r is Burn && final(s).stage is Burning && final(s).enrolment == e,
        !(e is Some && frame::json(e->0) is Object) ==> final(s).stage is Over && (
        r matches EnrollAction::Refuse { frame: f } && denies(f)),
        burned is Err ==> a is Refuse && final(b).stage is Over,
        burned is Ok && !old(b).key->0.ephemeral ==> final(b).stage is Storing && (
        a matches EnrollAction::Store { name, secret, reanchor } && name@ == old(b).name@ && secret@
            == old(b).secret@ && reanchor == old(b).reanchor),
        burned is Ok && old(b).key->0.ephemeral ==> final(b).stage is Admitting && a is Admit,
        a matches EnrollAction::Admit { name, owner_pub, device_pub, expires, caps } ==> name@ == old(
            b,
        ).name@ && owner_pub@ == old(b).key->0.owner_pub@ && device_pub@ == old(b).key->0.device_pub@
            && expires == old(b).key->0.expires,
{
    keys_are_apart();
}

/// A stored device is let in under the name it was stored under, as the key says, and is told once it
/// is in; what could not be stored is denied.
pub proof fn a_stored_device_is_let_in(s: &mut Enrolment, stored: Result<String, String>, r: EnrollAction, t: &mut Enrolment, a: EnrollAction)
    requires
        old(s).wf(),
        old(s).stage is Storing,
        call_ensures(enroll_step, (s, EnrollEvent::Stored { stored }), r),
        old(t).wf(),
        old(t).stage is Admitting,
        call_ensures(enroll_step, (t, EnrollEvent::Admitted), a),
    ensures
        stored is Err ==> final(s).stage is Over && (r matches EnrollAction::Refuse { frame: f } && denies(
            f,
        )),
        stored matches Ok(n) ==> final(s).stage is Admitting && final(s).name == n && (
        r matches EnrollAction::Admit { name, owner_pub, device_pub, expires, caps } && name@ == n@
            && owner_pub@ == old(s).key->0.owner_pub@ && device_pub@ == old(s).key->0.device_pub@
            && expires == old(s).key->0.expires && caps@.len() == old(s).key->0.caps@.len()),
        final(t).stage is Over,
        a matches EnrollAction::Ack { frame: f } && frame::json(f).member("type"@) == frame::Json::Text(
            "identity-auth-key-enroll-ack"@,
        ) && frame::json(f).member("name"@) == frame::Json::Text(old(t).name@) && frame::json(f).member(
            "owner_name"@,
        ) == frame::Json::Text(old(t).own_name@) && frame::json(f).member("secret"@)
            == frame::Json::Text(old(t).secret@) && frame::json(f).member("device_pub"@)
            == frame::Json::Text(hexadecimal::hex_text(old(t).key->0.device_pub@)) && frame::json(
            f,
        ).member("max_offline"@) == frame::json(old(t).key->0.max_offline),
{
    keys_are_apart();
    if stored is Ok && r is Admit {
        let caps = r->Admit_caps;
        assert(frame::views(caps@).len() == caps@.len());
        assert(frame::views(old(s).key->0.caps@).len() == old(s).key->0.caps@.len());
    }
}

/// What comes at the wrong time, or once it is over, changes nothing.
pub proof fn what_comes_late_changes_nothing(s: &mut Enrolment, e: EnrollEvent, r: EnrollAction)
    requires
        call_ensures(enroll_step, (s, e), r),
        old(s).stage is Over || (e is Came && !(old(s).stage is Start)) || (e is Verified && !(old(
            s,
        ).stage is Verifying)) || (e is Burned && !(old(s).stage is Burning)) || (e is Stored && !(old(
            s,
        ).stage is Storing)) || (e is Admitted && !(old(s).stage is Admitting)),
    ensures
        r is Nothing,
        *final(s) == *old(s),
{
}

/// An enrolment begins with what it is for.
pub proof fn an_enrolment_begins(link: Option<String>, secret: String, own: String, r: Enrolment)
    requires
        call_ensures(Enrolment::new, (link, secret, own), r),
    ensures
        r.stage is Start,
        r.link_name == link,
        r.secret == secret,
        r.own_name == own,
        r.key is None,
        !r.reanchor,
{
}

/// A certificate is minted and let in for just what the key carries.
pub proof fn a_certificate_is_for_what_the_key_carries(s: &mut Enrolment, name: String, r: EnrollAction, t: &mut Enrolment, stored: String, a: EnrollAction, i: int)
    requires
        old(s).wf(),
        old(s).stage is Cleaning,
        call_ensures(enroll_step, (s, EnrollEvent::Cleaned { name }), r),
        old(t).wf(),
        old(t).stage is Storing,
        call_ensures(enroll_step, (t, EnrollEvent::Stored { stored: Ok(stored) }), a),
    ensures
        r is Mint ==> r->Mint_caps@.len() == old(s).key->0.caps@.len() && (0 <= i < old(
            s,
        ).key->0.caps@.len() ==> r->Mint_caps@[i]@ == old(s).key->0.caps@[i]@),
        a is Admit ==> a->Admit_caps@.len() == old(t).key->0.caps@.len() && (0 <= i < old(
            t,
        ).key->0.caps@.len() ==> a->Admit_caps@[i]@ == old(t).key->0.caps@[i]@),
        final(s).key == old(s).key && final(t).key == old(t).key,
        final(s).secret == old(s).secret && final(t).secret == old(t).secret,
{
    if r is Mint {
        let v = frame::views(r->Mint_caps@);
        let k = frame::views(old(s).key->0.caps@);
        assert(v.len() == r->Mint_caps@.len());
        assert(k.len() == old(s).key->0.caps@.len());
        if 0 <= i < old(s).key->0.caps@.len() {
            assert(v[i] == r->Mint_caps@[i]@);
            assert(k[i] == old(s).key->0.caps@[i]@);
        }
    }
    if a is Admit {
        let v = frame::views(a->Admit_caps@);
        let k = frame::views(old(t).key->0.caps@);
        assert(v.len() == a->Admit_caps@.len());
        assert(k.len() == old(t).key->0.caps@.len());
        if 0 <= i < old(t).key->0.caps@.len() {
            assert(v[i] == a->Admit_caps@[i]@);
            assert(k[i] == old(t).key->0.caps@[i]@);
        }
    }
}

/// An enrolment keeps what it began with, and why an invitation was not used up is told as by
/// itself.
pub proof fn an_enrolment_keeps_what_it_began_with(s: &mut Enrolment, e: EnrollEvent, r: EnrollAction, m: String, msg: &str, f: serde_json::Value)
    requires
        old(s).wf(),
        call_ensures(enroll_step, (s, e), r),
        msg@ == m@,
        call_ensures(burn_refusal, (msg,), f),
    ensures
        final(s).link_name == old(s).link_name,
        final(s).secret == old(s).secret,
        final(s).own_name == old(s).own_name,
        !(e is Verified) ==> final(s).key == old(s).key,
        !(e is LookedUp) ==> final(s).prior == old(s).prior,
        !(e is Minted) ==> final(s).enrolment == old(s).enrolment,
        old(s).stage is Burning && e == (EnrollEvent::Burned { burned: Err(m) }) ==> (
        r matches EnrollAction::Refuse { frame: g } && frame::json(g) == frame::json(f)),
{
}

} // verus!
