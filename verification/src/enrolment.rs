//! Enrolling a device that answered the challenge: step by step, from its answer to the
//! acknowledgement.
//!
//! The invitation is used up only once nothing speaks against the device any more, and what the
//! device is admitted as is what its invitation says: the owner, the device, until when, and
//! what it may do.

use vstd::prelude::*;
use vstd::string::*;
use crate::frame;
use crate::frame::is_object;
use crate::renewal_lifecycle;
use crate::renewal_lifecycle::{
    burn_refusal, enroll_ack, enroll_error, enroll_name, free_name, may_reanchor, response_refusal,
    NameStep, ResponseView,
};
use crate::shared_defs;

verus! {

/// What an invitation says that a device has shown to be its own.
pub struct VerifiedKey {
    /// The owner that made it.
    pub owner_pub: Vec<u8>,
    /// The device that showed it.
    pub device_pub: Vec<u8>,
    /// Until when it holds, in seconds.
    pub expires: u64,
    /// What the device may do.
    pub caps: Vec<String>,
    /// The device leaves nothing behind.
    pub ephemeral: bool,
    /// How long the device may be away.
    pub max_offline: serde_json::Value,
}

/// What is waited for.
#[derive(Clone, Copy, Debug, PartialEq, Eq, Structural)]
pub enum EnrollStage {
    /// A device's answer.
    Start,
    /// Whether the answer holds.
    Verifying,
    /// Whether the device is known.
    LookingUp,
    /// The name that it asks for, made fit.
    Cleaning,
    /// Whether a name belongs to another device.
    Probing,
    /// Its certificate.
    Minting,
    /// The invitation to be used up.
    Burning,
    /// Its record to be stored.
    Storing,
    /// Its link to be told what it may do.
    Admitting,
    /// Nothing any more.
    Over,
}

/// How far an enrolment is.
pub struct Enrolment {
    pub stage: EnrollStage,
    /// What the device's link is called.
    pub link_name: Option<String>,
    /// The secret that will be shared with the device.
    pub secret: String,
    /// What this machine is called.
    pub own_name: String,
    /// What its invitation says, once it was verified.
    pub key: Option<VerifiedKey>,
    /// The record of it, if it is known.
    pub prior: Option<serde_json::Value>,
    /// The name that it asks for.
    pub base: String,
    /// Of the names asked about, whether they belong to another device.
    pub pinned: Vec<bool>,
    /// The name that it gets.
    pub name: String,
    /// It takes over the record that is its own.
    pub reanchor: bool,
    /// What it is enrolled with.
    pub enrolment: Option<serde_json::Value>,
}

/// What happened.
pub enum EnrollEvent {
    /// A device answers the challenge.
    Came,
    /// Its answer was checked; `key` is what its invitation says.
    Verified { view: ResponseView, key: Option<VerifiedKey> },
    /// It was looked up; `refusal` is why it may not come back, if it may not.
    LookedUp { prior: Option<serde_json::Value>, refusal: Option<String> },
    /// The name was made fit to be one.
    Cleaned { name: String },
    /// A name belongs to another device, or does not.
    Probed { pinned: bool },
    /// Its certificate was made, with what goes with it, or could not be.
    Minted { enrolment: Option<serde_json::Value> },
    /// The invitation was used up, or could not be.
    Burned { burned: Result<(), String> },
    /// Its record was stored under this name, or could not be.
    Stored { stored: Result<String, String> },
    /// Its link was told.
    Admitted,
}

/// What to do.
pub enum EnrollAction {
    /// Nothing: this was not waited for.
    Nothing,
    /// Check its answer by the challenge that was put to it.
    Verify,
    /// Look up the device.
    LookUp { device_pub: Vec<u8> },
    /// Make this name fit to be one.
    Clean { name: String },
    /// Find out whether this name belongs to another device.
    Probe { name: String },
    /// Make a certificate.
    Mint { device_pub: Vec<u8>, caps: Vec<String>, expires: u64, persistent: bool },
    /// Use up the invitation.
    Burn,
    /// Store the record of the device.
    Store { name: String, secret: String, reanchor: bool },
    /// Tell its link who it is and what it may do.
    Admit { name: String, owner_pub: Vec<u8>, device_pub: Vec<u8>, expires: u64, caps: Vec<String> },
    /// It is enrolled: send this.
    Ack { frame: serde_json::Value },
    /// It is not: send this.
    Refuse { frame: serde_json::Value },
}

impl EnrollStage {
    /// The answer was found to hold.
    pub open spec fn is_past_verifying(self) -> bool {
        !(self is Start || self is Verifying || self is Over)
    }
}

impl Enrolment {
    /// Whoever got past the check has a key, and whoever got a certificate has something to be
    /// enrolled with.
    pub open spec fn wf(self) -> bool {
        &&& self.stage.is_past_verifying() ==> self.key is Some
        &&& (self.stage is Burning || self.stage is Storing || self.stage is Admitting) ==> (
        self.enrolment matches Some(v) && frame::json(v) is Object)
    }

    /// It comes for good.
    pub open spec fn is_persistent(self) -> bool {
        self.key matches Some(k) && !k.ephemeral
    }

    /// Nothing has happened yet.
    pub fn new(link_name: Option<String>, secret: String, own_name: String) -> (r: Enrolment)
        ensures
            r.wf(),
            r.stage is Start,
            r.link_name == link_name,
            r.secret == secret,
            r.own_name == own_name,
            r.key is None,
            r.prior is None,
            r.base@.len() == 0,
            r.pinned@.len() == 0,
            r.name@.len() == 0,
            !r.reanchor,
            r.enrolment is None,
    {
        Enrolment {
            stage: EnrollStage::Start,
            link_name,
            secret,
            own_name,
            key: None,
            prior: None,
            base: String::new(),
            pinned: Vec::new(),
            name: String::new(),
            reanchor: false,
            enrolment: None,
        }
    }
}

/// The answer to the challenge holds.
pub open spec fn holds(v: ResponseView) -> bool {
    v.readable && v.owner_key && v.verifier && v.challenged && v.verified
}

/// The enrolment is over, and the device is told this.
pub open spec fn refused(was: Enrolment, now: Enrolment, r: EnrollAction, why: Seq<char>) -> bool {
    &&& r matches EnrollAction::Refuse { frame: f }
    &&& frame::json(f) == renewal_lifecycle::enroll_error_json(why)
    &&& now == (Enrolment { stage: EnrollStage::Over, ..was })
}

/// A certificate is made of what the key says.
pub open spec fn mints(r: EnrollAction, k: VerifiedKey) -> bool {
    &&& r matches EnrollAction::Mint { device_pub, caps, expires, persistent }
    &&& device_pub@ == k.device_pub@
    &&& frame::views(caps@) == frame::views(k.caps@)
    &&& expires == k.expires
    &&& persistent == !k.ephemeral
}

/// A link is told, under this name, what the key says.
pub open spec fn admits(r: EnrollAction, name: Seq<char>, k: VerifiedKey) -> bool {
    &&& r matches EnrollAction::Admit { name: n, owner_pub, device_pub, expires, caps }
    &&& n@ == name
    &&& owner_pub@ == k.owner_pub@
    &&& device_pub@ == k.device_pub@
    &&& expires == k.expires
    &&& frame::views(caps@) == frame::views(k.caps@)
}

/// The record of a device, as a frame.
pub open spec fn record_of(prior: Option<serde_json::Value>) -> Option<frame::Json> {
    match prior {
        Some(p) => Some(frame::json(p)),
        None => None,
    }
}

/// What an event makes of an enrolment, and what it calls for.
pub open spec fn enrol_next(was: Enrolment, now: Enrolment, e: EnrollEvent, r: EnrollAction) -> bool {
    let k = was.key->0;
    match (was.stage, e) {
        (EnrollStage::Start, EnrollEvent::Came) => {
            r is Verify && now == (Enrolment { stage: EnrollStage::Verifying, ..was })
        },
        (EnrollStage::Verifying, EnrollEvent::Verified { view, key }) => if holds(view) && key is Some {
            &&& r matches EnrollAction::LookUp { device_pub }
            &&& device_pub@ == key->0.device_pub@
            &&& now == (Enrolment { stage: EnrollStage::LookingUp, key, ..was })
        } else {
            refused(was, now, r, "enrollment denied"@)
        },
        (EnrollStage::LookingUp, EnrollEvent::LookedUp { prior, refusal }) => match refusal {
            Some(why) => refused(was, now, r, why@),
            None => {
                &&& r matches EnrollAction::Clean { name }
                &&& name@ == renewal_lifecycle::requested(
                    shared_defs::view_of(was.link_name),
                    record_of(prior),
                    was.is_persistent(),
                )
                &&& now == (Enrolment { stage: EnrollStage::Cleaning, prior, ..was })
            },
        },
        (EnrollStage::Cleaning, EnrollEvent::Cleaned { name }) => if record_of(was.prior) matches Some(
            p,
        ) && p.text_at("name"@) == Some(name@) {
            &&& mints(r, k)
            &&& now == (Enrolment { stage: EnrollStage::Minting, name, reanchor: true, ..was })
        } else {
            &&& r matches EnrollAction::Probe { name: n }
            &&& n@ == name@
            &&& now == (Enrolment {
                stage: EnrollStage::Probing,
                base: name,
                pinned: now.pinned,
                ..was
            })
            &&& now.pinned@.len() == 0
        },
        (EnrollStage::Probing, EnrollEvent::Probed { pinned }) => {
            &&& now.pinned@ == was.pinned@.push(pinned)
            &&& if r is Probe {
                &&& r matches EnrollAction::Probe { name }
                &&& renewal_lifecycle::goes_on(was.base@, now.pinned@, NameStep::Probe(name))
                &&& now == (Enrolment { pinned: now.pinned, ..was })
            } else {
                &&& mints(r, k)
                &&& renewal_lifecycle::goes_on(was.base@, now.pinned@, NameStep::Use(now.name))
                &&& now == (Enrolment {
                    stage: EnrollStage::Minting,
                    pinned: now.pinned,
                    name: now.name,
                    reanchor: false,
                    ..was
                })
            }
        },
        (EnrollStage::Minting, EnrollEvent::Minted { enrolment }) => if enrolment matches Some(v)
            && frame::json(v) is Object {
            r is Burn && now == (Enrolment { stage: EnrollStage::Burning, enrolment, ..was })
        } else {
            refused(was, now, r, "enrollment denied"@)
        },
        (EnrollStage::Burning, EnrollEvent::Burned { burned }) => match burned {
            Err(m) => refused(was, now, r, renewal_lifecycle::burn_text(m@)),
            Ok(_) => if was.is_persistent() {
                &&& r matches EnrollAction::Store { name, secret, reanchor }
                &&& name@ == was.name@
                &&& secret@ == was.secret@
                &&& reanchor == was.reanchor
                &&& now == (Enrolment { stage: EnrollStage::Storing, ..was })
            } else {
                &&& admits(r, was.name@, k)
                &&& now == (Enrolment { stage: EnrollStage::Admitting, ..was })
            },
        },
        (EnrollStage::Storing, EnrollEvent::Stored { stored }) => match stored {
            Err(_) => refused(was, now, r, "enrollment denied"@),
            Ok(name) => {
                &&& admits(r, name@, k)
                &&& now == (Enrolment { stage: EnrollStage::Admitting, name, ..was })
            },
        },
        (EnrollStage::Admitting, EnrollEvent::Admitted) => {
            &&& r matches EnrollAction::Ack { frame: f }
            &&& frame::json(f) == renewal_lifecycle::enroll_ack_json(
                frame::json(was.enrolment->0),
                was.name@,
                was.own_name@,
                was.secret@,
                k.device_pub@,
                frame::json(k.max_offline),
            )
            &&& now == (Enrolment { stage: EnrollStage::Over, ..was })
        },
        _ => r is Nothing && now == was,
    }
}

fn copied(b: &Vec<u8>) -> (r: Vec<u8>)
    ensures
        r@ == b@,
{
    let r = b.clone();
    proof {
        assert(r@ =~= b@);
    }
    r
}

fn copied_texts(v: &Vec<String>) -> (r: Vec<String>)
    ensures
        frame::views(r@) == frame::views(v@),
{
    let mut out: Vec<String> = Vec::new();
    let mut i: usize = 0;
    while i < v.len()
        invariant
            i <= v@.len(),
            out@.len() == i,
            forall|j: int| 0 <= j < i ==> (#[trigger] out@[j])@ == v@[j]@,
        decreases v.len() - i,
    {
        out.push(v[i].clone());
        i += 1;
    }
    proof {
        assert(frame::views(out@) =~= frame::views(v@));
    }
    out
}

fn mint(k: &VerifiedKey) -> (r: EnrollAction)
    ensures
        mints(r, *k),
{
    EnrollAction::Mint {
        device_pub: copied(&k.device_pub),
        caps: copied_texts(&k.caps),
        expires: k.expires,
        persistent: !k.ephemeral,
    }
}

fn admission(name: &str, k: &VerifiedKey) -> (r: EnrollAction)
    ensures
        admits(r, name@, *k),
{
    EnrollAction::Admit {
        name: name.to_owned(),
        owner_pub: copied(&k.owner_pub),
        device_pub: copied(&k.device_pub),
        expires: k.expires,
        caps: copied_texts(&k.caps),
    }
}

fn refuse(s: &mut Enrolment, frame: serde_json::Value) -> (r: EnrollAction)
    ensures
        r == (EnrollAction::Refuse { frame }),
        *final(s) == (Enrolment { stage: EnrollStage::Over, ..*old(s) }),
{
    s.stage = EnrollStage::Over;
    EnrollAction::Refuse { frame }
}

/// What an event makes of an enrolment, and what to do then.
pub fn enroll_step(s: &mut Enrolment, e: EnrollEvent) -> (r: EnrollAction)
    requires
        old(s).wf(),
    ensures
        final(s).wf(),
        enrol_next(*old(s), *final(s), e, r),
{
    let stage = s.stage;
    match e {
        EnrollEvent::Came => if stage == EnrollStage::Start {
            s.stage = EnrollStage::Verifying;
            return EnrollAction::Verify;
        },
        EnrollEvent::Verified { view, key } => if stage == EnrollStage::Verifying {
            if let Some(frame) = response_refusal(&view) {
                return refuse(s, frame);
            }
            match key {
                None => {
                    return refuse(s, enroll_error("enrollment denied"));
                },
                Some(k) => {
                    let device_pub = copied(&k.device_pub);
                    s.key = Some(k);
                    s.stage = EnrollStage::LookingUp;
                    return EnrollAction::LookUp { device_pub };
                },
            }
        },
        EnrollEvent::LookedUp { prior, refusal } => if stage == EnrollStage::LookingUp {
            if let Some(why) = refusal {
                return refuse(s, enroll_error(why.as_str()));
            }
            let persistent: bool = match &s.key {
                Some(k) => !k.ephemeral,
                None => false,
            };
            let link: Option<&str> = match &s.link_name {
                Some(n) => Some(n.as_str()),
                None => None,
            };
            let name = enroll_name(link, prior.as_ref(), persistent);
            s.prior = prior;
            s.stage = EnrollStage::Cleaning;
            return EnrollAction::Clean { name };
        },
        EnrollEvent::Cleaned { name } => if stage == EnrollStage::Cleaning {
            if may_reanchor(s.prior.as_ref(), name.as_str()) {
                s.name = name;
                s.reanchor = true;
                s.stage = EnrollStage::Minting;
                if let Some(k) = &s.key {
                    return mint(k);
                }
            } else {
                let n = name.clone();
                s.base = name;
                s.pinned = Vec::new();
                s.stage = EnrollStage::Probing;
                return EnrollAction::Probe { name: n };
            }
        },
        EnrollEvent::Probed { pinned } => if stage == EnrollStage::Probing {
            s.pinned.push(pinned);
            match free_name(s.base.as_str(), &s.pinned) {
                NameStep::Probe(name) => {
                    return EnrollAction::Probe { name };
                },
                NameStep::Use(name) => {
                    s.name = name;
                    s.reanchor = false;
                    s.stage = EnrollStage::Minting;
                    if let Some(k) = &s.key {
                        return mint(k);
                    }
                },
            }
        },
        EnrollEvent::Minted { enrolment } => if stage == EnrollStage::Minting {
            match enrolment {
                Some(v) => if is_object(&v) {
                    s.enrolment = Some(v);
                    s.stage = EnrollStage::Burning;
                    return EnrollAction::Burn;
                },
                None => {},
            }
            return refuse(s, enroll_error("enrollment denied"));
        },
        EnrollEvent::Burned { burned } => if stage == EnrollStage::Burning {
            match burned {
                Err(m) => {
                    return refuse(s, burn_refusal(m.as_str()));
                },
                Ok(_) => if let Some(k) = &s.key {
                    if !k.ephemeral {
                        s.stage = EnrollStage::Storing;
                        return EnrollAction::Store {
                            name: s.name.clone(),
                            secret: s.secret.clone(),
                            reanchor: s.reanchor,
                        };
                    }
                    let r = admission(s.name.as_str(), k);
                    s.stage = EnrollStage::Admitting;
                    return r;
                },
            }
        },
        EnrollEvent::Stored { stored } => if stage == EnrollStage::Storing {
            match stored {
                Err(_) => {
                    return refuse(s, enroll_error("enrollment denied"));
                },
                Ok(name) => if let Some(k) = &s.key {
                    let r = admission(name.as_str(), k);
                    s.name = name;
                    s.stage = EnrollStage::Admitting;
                    return r;
                },
            }
        },
        EnrollEvent::Admitted => if stage == EnrollStage::Admitting {
            if let (Some(k), Some(v)) = (&s.key, &s.enrolment) {
                let frame = enroll_ack(
                    frame::copy(v),
                    s.name.as_str(),
                    s.own_name.as_str(),
                    s.secret.as_str(),
                    k.device_pub.as_slice(),
                    frame::copy(&k.max_offline),
                );
                s.stage = EnrollStage::Over;
                return EnrollAction::Ack { frame };
            }
        },
    }
    EnrollAction::Nothing
}

/// One step of an enrolment: how far it was, what happened, and what was done.
pub struct Step {
    pub was: Enrolment,
    pub event: EnrollEvent,
    pub action: EnrollAction,
}

/// Step `i` leads to the next.
pub open spec fn leads_on(t: Seq<Step>, i: int) -> bool {
    enrol_next(t[i].was, t[i + 1].was, t[i].event, t[i].action)
}

/// The steps of one enrolment, from its start.
pub open spec fn is_run(t: Seq<Step>) -> bool {
    &&& t.len() > 0 ==> t[0].was.stage is Start && t[0].was.wf()
    &&& forall|i: int| 0 <= i < t.len() - 1 ==> #[trigger] leads_on(t, i)
}

/// The last step of a run was taken too, to `now`.
pub open spec fn is_run_to(t: Seq<Step>, now: Enrolment) -> bool {
    &&& t.len() > 0
    &&& is_run(t)
    &&& enrol_next(t.last().was, now, t.last().event, t.last().action)
}

/// The device's answer was found to hold, and its invitation says this.
pub open spec fn proves(e: EnrollEvent, k: VerifiedKey) -> bool {
    e matches EnrollEvent::Verified { view, key } && holds(view) && key == Some(k)
}

/// The device was looked up, and nothing spoke against it.
pub open spec fn passes(e: EnrollEvent) -> bool {
    e matches EnrollEvent::LookedUp { refusal, .. } && refusal is None
}

/// The device's certificate was made.
pub open spec fn makes(e: EnrollEvent) -> bool {
    e matches EnrollEvent::Minted { enrolment: Some(v) } && frame::json(v) is Object
}

/// The invitation was used up.
pub open spec fn burns(e: EnrollEvent) -> bool {
    e matches EnrollEvent::Burned { burned } && burned is Ok
}

/// The answer of the device with this key was found to hold before step `n`.
pub open spec fn proved_before(t: Seq<Step>, n: int, k: VerifiedKey) -> bool {
    exists|i: int| 0 <= i < n && #[trigger] proves(t[i].event, k)
}

/// Nothing spoke against the device, before step `n`.
pub open spec fn passed_before(t: Seq<Step>, n: int) -> bool {
    exists|i: int| 0 <= i < n && #[trigger] passes(t[i].event)
}

/// The device's certificate was made before step `n`.
pub open spec fn made_before(t: Seq<Step>, n: int) -> bool {
    exists|i: int| 0 <= i < n && #[trigger] makes(t[i].event)
}

/// The invitation was used up before step `n`.
pub open spec fn burned_before(t: Seq<Step>, n: int) -> bool {
    exists|i: int| 0 <= i < n && #[trigger] burns(t[i].event)
}

/// What must have happened for an enrolment to be where it is.
spec fn earned(t: Seq<Step>, n: int) -> bool {
    let s = t[n].was.stage;
    &&& t[n].was.wf()
    &&& s.is_past_verifying() ==> proved_before(t, n, t[n].was.key->0)
    &&& s.is_past_verifying() && !(s is LookingUp) ==> passed_before(t, n)
    &&& (s is Burning || s is Storing || s is Admitting) ==> made_before(t, n)
    &&& (s is Storing || s is Admitting) ==> burned_before(t, n)
    &&& !(s is Over) ==> forall|i: int| 0 <= i < n ==> (#[trigger] t[i]).action !is Refuse
}

/// What a single step does to what was earned.
proof fn one_step(p: Enrolment, s: Enrolment, e: EnrollEvent, a: EnrollAction)
    requires
        enrol_next(p, s, e, a),
        p.wf(),
    ensures
        s.wf(),
        p.stage is Over ==> s.stage is Over,
        !(s.stage is Over) ==> a !is Refuse,
        s.stage.is_past_verifying() ==> if p.stage is Verifying {
            proves(e, s.key->0) && s.stage is LookingUp
        } else {
            p.stage.is_past_verifying() && s.key == p.key
        },
        s.stage.is_past_verifying() && !(s.stage is LookingUp) && p.stage is LookingUp ==> passes(e),
        (s.stage is Burning || s.stage is Storing || s.stage is Admitting) ==> if p.stage is Minting {
            makes(e)
        } else {
            p.stage is Burning || p.stage is Storing || p.stage is Admitting
        },
        (s.stage is Storing || s.stage is Admitting) ==> if p.stage is Burning {
            burns(e)
        } else {
            p.stage is Storing || p.stage is Admitting
        },
        a is Burn ==> p.stage is Minting && makes(e),
        a is Refuse && p.stage is Burning ==> (e matches EnrollEvent::Burned { burned } && burned
            is Err),
        a is Refuse && p.stage is Storing ==> (e matches EnrollEvent::Stored { stored } && stored
            is Err),
        a is Admit ==> (p.stage is Storing || (p.stage is Burning && burns(e))) && admits(
            a,
            a->Admit_name@,
            p.key->0,
        ),
{
}

proof fn every_stage_is_earned(t: Seq<Step>, n: int)
    requires
        is_run(t),
        0 <= n < t.len(),
    ensures
        earned(t, n),
    decreases n,
{
    if n > 0 {
        let m = n - 1;
        every_stage_is_earned(t, m);
        let (p, s) = (t[m].was, t[n].was);
        assert(leads_on(t, m));
        one_step(p, s, t[m].event, t[m].action);
        if s.stage.is_past_verifying() {
            if p.stage is Verifying {
                assert(proves(t[m].event, s.key->0));
            } else {
                let i = choose|i: int| 0 <= i < m && #[trigger] proves(t[i].event, p.key->0);
                assert(proves(t[i].event, s.key->0));
            }
            if !(s.stage is LookingUp) {
                if p.stage is LookingUp {
                    assert(passes(t[m].event));
                } else {
                    let i = choose|i: int| 0 <= i < m && #[trigger] passes(t[i].event);
                    assert(passes(t[i].event));
                }
            }
            if s.stage is Burning || s.stage is Storing || s.stage is Admitting {
                if p.stage is Minting {
                    assert(makes(t[m].event));
                } else {
                    let i = choose|i: int| 0 <= i < m && #[trigger] makes(t[i].event);
                    assert(makes(t[i].event));
                }
            }
            if s.stage is Storing || s.stage is Admitting {
                if p.stage is Burning {
                    assert(burns(t[m].event));
                } else {
                    let i = choose|i: int| 0 <= i < m && #[trigger] burns(t[i].event);
                    assert(burns(t[i].event));
                }
            }
        }
    }
}

/// An invitation is used up only on success: where that is asked for, the device's answer was
/// found to hold, nothing that is known of the device speaks against it, its certificate could
/// be made, and it was refused nothing. After that the device is refused only where using the
/// invitation up, or storing the record, itself fails.
pub proof fn burned_only_on_success(t: Seq<Step>, now: Enrolment)
    requires
        is_run_to(t, now),
    ensures
        t.last().action is Burn ==> {
            &&& exists|k: VerifiedKey| #[trigger] proved_before(t, t.len() - 1, k)
            &&& passed_before(t, t.len() - 1)
            &&& makes(t.last().event)
            &&& forall|i: int| 0 <= i < t.len() ==> (#[trigger] t[i]).action !is Refuse
        },
        t.last().action is Refuse && (t.last().was.stage is Burning || t.last().was.stage is Storing)
            ==> match t.last().event {
            EnrollEvent::Burned { burned } => burned is Err,
            EnrollEvent::Stored { stored } => stored is Err,
            _ => false,
        },
{
    let n = t.len() - 1;
    every_stage_is_earned(t, n);
    one_step(t[n].was, now, t[n].event, t[n].action);
    if t.last().action is Burn {
        assert(proved_before(t, n, t[n].was.key->0));
    }
}

/// A device is admitted as what its verified invitation says, all four values together: the
/// owner, the device, until when, and what it may do. And it is admitted only once the
/// invitation was used up.
pub proof fn admitted_as_delegated(t: Seq<Step>, now: Enrolment)
    requires
        is_run_to(t, now),
    ensures
        t.last().action is Admit ==> {
            &&& exists|k: VerifiedKey| #[trigger]
                proved_before(t, t.len() - 1, k) && exists|name: Seq<char>| #[trigger]
                    admits(t.last().action, name, k)
            &&& passed_before(t, t.len() - 1)
            &&& burned_before(t, t.len() as int)
        },
{
    let n = t.len() - 1;
    every_stage_is_earned(t, n);
    one_step(t[n].was, now, t[n].event, t[n].action);
    if t.last().action is Admit {
        let k = t[n].was.key->0;
        assert(proved_before(t, n, k));
        assert(admits(t.last().action, t.last().action->Admit_name@, k));
        if t[n].was.stage is Burning {
            assert(burns(t[n].event));
        } else {
            let i = choose|i: int| 0 <= i < n && #[trigger] burns(t[i].event);
            assert(burns(t[i].event));
        }
    }
}

/// An enrolment that is over stays over: nothing that happens later does anything.
pub proof fn over_is_over(was: Enrolment, now: Enrolment, e: EnrollEvent, r: EnrollAction)
    requires
        was.stage is Over,
        enrol_next(was, now, e, r),
    ensures
        now == was,
        r is Nothing,
{
}

} // verus!
