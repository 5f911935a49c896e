//! The questions before a send, and in which order they are put: what to send, to which device,
//! and whether to go on. Nobody is dialled before the last of them was answered, and no code is
//! made before the operator was asked for a device.

use vstd::prelude::*;
use vstd::string::*;
use crate::setup;
use crate::setup::{
    answered, asks_device, cancels, check_path, check_run, checks_first, device_menu, goes_to,
    picked_device, PathCheck, Relation, SendAsked, TargetView,
};
use crate::shared_defs;

verus! {

/// What is waited for.
#[derive(Clone, Copy, Debug, PartialEq, Eq, Structural)]
pub enum SendStage {
    /// The start.
    Start,
    /// A path.
    AskingPath,
    /// Whether there is something at the first path.
    Looking,
    /// Another path in place of the first.
    AskingAgain,
    /// What is known of devices.
    Surveying,
    /// A device.
    Picking,
    /// The words of a code.
    Minting,
    /// The files.
    Gathering,
    /// The operator's last word.
    Confirming,
    /// Nothing any more.
    Over,
}

/// A send that is being set up.
pub struct SendSetUp {
    pub stage: SendStage,
    /// What was asked for, before anything else was.
    pub asked: SendAsked,
    pub paths: Vec<String>,
    /// The files go to whoever has a code.
    pub use_code: bool,
    /// The words of the code, where they are settled.
    pub word: Option<String>,
    /// The device that the files go to, if one was named.
    pub to: Option<String>,
    /// The devices that are known.
    pub devices: Vec<String>,
}

/// What happened.
pub enum SendEvent {
    /// The send was asked for.
    Begin,
    /// The operator answered with a line.
    Answered { line: String },
    /// The first path was looked at; `why` it could not be, if it could not.
    Looked { why: Option<String> },
    /// The devices that are known, and what is known of the one that was named.
    Surveyed { devices: Vec<(String, Relation)>, view: TargetView },
    /// The operator picked one of the lines, or none.
    Picked { choice: Option<usize> },
    /// The words of a code were made.
    Minted { words: String },
    /// The files were gathered.
    Gathered,
}

/// What to do.
pub enum SendAction {
    /// Nothing: this was not waited for.
    Nothing,
    /// Say `line`, where there is one, and ask what to send.
    AskPath { line: Option<String> },
    /// See whether there is something at this path.
    Look { path: String },
    /// See which devices are known.
    Survey,
    /// Let the operator pick one of these lines.
    Pick { items: Vec<String> },
    /// Make the words of a code.
    Mint,
    /// Gather the files.
    Gather,
    /// Show what the send will be, to this target, and ask for the last word on it.
    Confirm { to: String },
    /// Dial.
    Connect,
    /// Fail.
    Fail { message: String },
}

/// The set-up is over, and this is why.
pub open spec fn fails(was: SendSetUp, now: SendSetUp, r: SendAction, why: Seq<char>) -> bool {
    &&& r matches SendAction::Fail { message }
    &&& message@ == why
    &&& now == (SendSetUp { stage: SendStage::Over, ..was })
}

/// There are paths, as far as there have to be: the first is looked at, unless something comes
/// from the standard input.
pub open spec fn looks(was: SendSetUp, now: SendSetUp, r: SendAction) -> bool {
    if !was.asked.remember_only && !setup::has_stdin(was.paths@) && was.paths@.len() > 0
        && was.paths@[0]@.len() > 0 {
        &&& r matches SendAction::Look { path }
        &&& path@ == was.paths@[0]@
        &&& now == (SendSetUp { stage: SendStage::Looking, ..was })
    } else {
        r is Survey && now == (SendSetUp { stage: SendStage::Surveying, ..was })
    }
}

/// The operator is asked for a device: nothing says where the files go.
pub open spec fn wants_device(s: SendSetUp) -> bool {
    !s.use_code && s.to is None && !setup::has_stdin(s.paths@) && s.asked.interactive
}

/// The run may look for the device that it names, if it names one.
pub open spec fn may_go_on(s: SendSetUp, devices: Seq<String>, view: TargetView) -> bool {
    s.asked.remember_only || s.to is None || setup::reachable(devices, s.to->0@, view)
}

/// These are the names of the devices.
pub open spec fn are_named(names: Seq<String>, devices: Seq<(String, Relation)>) -> bool {
    &&& names.len() == devices.len()
    &&& forall|i: int| 0 <= i < names.len() ==> (#[trigger] names[i])@ == devices[i].0@
}

/// A line for each device, and one for none of them.
pub open spec fn is_menu(items: Seq<String>, devices: Seq<(String, Relation)>) -> bool {
    &&& items.len() == devices.len() + 1
    &&& forall|i: int|
        0 <= i < devices.len() ==> (#[trigger] items[i])@ == setup::menu_line(
            devices[i].0@,
            devices[i].1,
        )
    &&& items.last()@ == "shareable code / local network"@
}

/// The operator has picked a device.
pub open spec fn picks_one(s: SendSetUp, choice: Option<usize>) -> bool {
    choice is Some && choice->0 < s.devices@.len()
}

/// What an event makes of a set-up, and what it calls for.
pub open spec fn send_next(was: SendSetUp, now: SendSetUp, e: SendEvent, r: SendAction) -> bool {
    match (was.stage, e) {
        (SendStage::Start, SendEvent::Begin) => if was.asked.paths || was.asked.remember_only {
            looks(was, now, r)
        } else if was.asked.interactive {
            &&& r matches SendAction::AskPath { line }
            &&& line is None
            &&& now == (SendSetUp { stage: SendStage::AskingPath, ..was })
        } else {
            fails(
                was,
                now,
                r,
                "nothing to send in non-interactive mode; pass a file, directory, or '-' for stdin"@,
            )
        },
        (SendStage::AskingPath, SendEvent::Answered { line }) => if line@.len() == 0 {
            fails(was, now, r, "cancelled"@)
        } else {
            &&& now.paths@ == was.paths@.push(line)
            &&& looks(SendSetUp { paths: now.paths, ..was }, now, r)
        },
        (SendStage::Looking, SendEvent::Looked { why }) => match why {
            None => r is Survey && now == (SendSetUp { stage: SendStage::Surveying, ..was }),
            Some(m) => if was.asked.interactive && was.paths@.len() == 1 {
                &&& r matches SendAction::AskPath { line }
                &&& line is Some
                &&& line->0@ == "  no such file or directory: '"@ + was.paths@[0]@ + "'"@
                &&& now == (SendSetUp { stage: SendStage::AskingAgain, ..was })
            } else {
                fails(was, now, r, "cannot send '"@ + was.paths@[0]@ + "': "@ + m@)
            },
        },
        (SendStage::AskingAgain, SendEvent::Answered { line }) => if line@.len() == 0 {
            fails(was, now, r, "cancelled"@)
        } else {
            &&& r matches SendAction::Look { path }
            &&& path@ == line@
            &&& now.paths@ == was.paths@.update(0, line)
            &&& now == (SendSetUp { stage: SendStage::Looking, paths: now.paths, ..was })
        },
        (SendStage::Surveying, SendEvent::Surveyed { devices, view }) => {
            let mid = SendSetUp { devices: now.devices, ..was };
            &&& are_named(now.devices@, devices@)
            &&& if !may_go_on(was, now.devices@, view) {
                fails(mid, now, r, setup::unreachable_text(was.to->0@, view.indexed))
            } else if !wants_device(was) {
                r is Gather && now == (SendSetUp { stage: SendStage::Gathering, ..mid })
            } else if devices@.len() > 0 {
                &&& r matches SendAction::Pick { items }
                &&& is_menu(items@, devices@)
                &&& now == (SendSetUp { stage: SendStage::Picking, ..mid })
            } else {
                r is Mint && now == (SendSetUp { stage: SendStage::Minting, ..mid })
            }
        },
        (SendStage::Picking, SendEvent::Picked { choice }) => if picks_one(was, choice) {
            &&& r is Gather
            &&& now.to is Some
            &&& now.to->0@ == was.devices@[choice->0 as int]@
            &&& now == (SendSetUp { stage: SendStage::Gathering, to: now.to, ..was })
        } else {
            r is Mint && now == (SendSetUp { stage: SendStage::Minting, ..was })
        },
        (SendStage::Minting, SendEvent::Minted { words }) => {
            &&& r is Gather
            &&& now == (SendSetUp {
                stage: SendStage::Gathering,
                use_code: true,
                word: Some(words),
                ..was
            })
        },
        (SendStage::Gathering, SendEvent::Gathered) => if was.asked.is_led() {
            &&& r matches SendAction::Confirm { to }
            &&& to@ == setup::target_text(shared_defs::view_of(was.to), was.use_code)
            &&& now == (SendSetUp { stage: SendStage::Confirming, ..was })
        } else {
            r is Connect && now == (SendSetUp { stage: SendStage::Over, ..was })
        },
        (SendStage::Confirming, SendEvent::Answered { line }) => if setup::alike(line@, "cancel"@) {
            fails(was, now, r, "cancelled"@)
        } else {
            r is Connect && now == (SendSetUp { stage: SendStage::Over, ..was })
        },
        _ => r is Nothing && now == was,
    }
}

impl SendSetUp {
    /// A path that is looked at is there.
    pub open spec fn wf(self) -> bool {
        self.stage is Looking || self.stage is AskingAgain ==> self.paths@.len() > 0
    }

    /// A send was asked for; `requested` where the operator wants to be asked, and `room` where
    /// a room was named. Where nobody will be asked and nothing says where the files go, they
    /// go to whoever has a code.
    pub fn new(
        remember_only: bool,
        interactive: bool,
        requested: bool,
        room: bool,
        paths: Vec<String>,
        use_code: bool,
        word: Option<String>,
        to: Option<String>,
    ) -> (r: SendSetUp)
        ensures
            r.wf(),
            r.stage is Start,
            r.asked == (SendAsked {
                remember_only,
                interactive,
                requested,
                paths: paths@.len() > 0,
                use_code,
                to: to is Some,
                room,
            }),
            r.paths == paths,
            r.use_code == (use_code || r.asked.takes_a_code()),
            r.word == word,
            r.to == to,
            r.devices@.len() == 0,
    {
        let asked = SendAsked {
            remember_only,
            interactive,
            requested,
            paths: paths.len() > 0,
            use_code,
            to: to.is_some(),
            room,
        };
        let use_code: bool = use_code || asked.defaults_to_code();
        SendSetUp {
            stage: SendStage::Start,
            asked,
            paths,
            use_code,
            word,
            to,
            devices: Vec::new(),
        }
    }
}

fn fail_with(s: &mut SendSetUp, message: String) -> (r: SendAction)
    ensures
        fails(*old(s), *final(s), r, message@),
{
    s.stage = SendStage::Over;
    SendAction::Fail { message }
}

fn look(s: &mut SendSetUp) -> (r: SendAction)
    ensures
        looks(*old(s), *final(s), r),
        final(s).wf(),
{
    if checks_first(s.asked.remember_only, &s.paths) {
        s.stage = SendStage::Looking;
        SendAction::Look { path: s.paths[0].clone() }
    } else {
        s.stage = SendStage::Surveying;
        SendAction::Survey
    }
}

fn apart(devices: Vec<(String, Relation)>) -> (r: (Vec<String>, Vec<Relation>))
    ensures
        are_named(r.0@, devices@),
        r.1@.len() == devices@.len(),
        forall|i: int| 0 <= i < devices@.len() ==> #[trigger] r.1@[i] == devices@[i].1,
{
    let mut names: Vec<String> = Vec::new();
    let mut relations: Vec<Relation> = Vec::new();
    let mut i: usize = 0;
    while i < devices.len()
        invariant
            i <= devices@.len(),
            names@.len() == i,
            relations@.len() == i,
            forall|j: int| 0 <= j < i ==> (#[trigger] names@[j])@ == devices@[j].0@,
            forall|j: int| 0 <= j < i ==> #[trigger] relations@[j] == devices@[j].1,
        decreases devices.len() - i,
    {
        names.push(devices[i].0.clone());
        relations.push(devices[i].1);
        i += 1;
    }
    (names, relations)
}

fn survey(s: &mut SendSetUp, devices: Vec<(String, Relation)>, view: TargetView) -> (r: SendAction)
    requires
        old(s).stage is Surveying,
    ensures
        send_next(*old(s), *final(s), SendEvent::Surveyed { devices, view }, r),
        final(s).wf(),
{
    let (names, relations) = apart(devices);
    s.devices = names;
    let to: Option<&str> = match &s.to {
        Some(n) => Some(n.as_str()),
        None => None,
    };
    let run = check_run(s.asked.remember_only, to, &s.devices, &view);
    if let Err(message) = run {
        return fail_with(s, message);
    }
    if !asks_device(s.use_code, s.to.is_some(), &s.paths, s.asked.interactive) {
        s.stage = SendStage::Gathering;
        return SendAction::Gather;
    }
    if s.devices.len() > 0 {
        s.stage = SendStage::Picking;
        return SendAction::Pick { items: device_menu(&s.devices, &relations) };
    }
    s.stage = SendStage::Minting;
    SendAction::Mint
}

/// An event of the set-up of a send.
pub fn send_set_up(s: &mut SendSetUp, e: SendEvent) -> (r: SendAction)
    requires
        old(s).wf(),
    ensures
        final(s).wf(),
        send_next(*old(s), *final(s), e, r),
{
    let stage = s.stage;
    match e {
        SendEvent::Begin => if stage == SendStage::Start {
            return match s.asked.asks_path() {
                Err(message) => fail_with(s, message),
                Ok(true) => {
                    s.stage = SendStage::AskingPath;
                    SendAction::AskPath { line: None }
                },
                Ok(false) => look(s),
            };
        },
        SendEvent::Answered { line } => {
            if stage == SendStage::AskingPath {
                return match answered(line) {
                    Err(message) => fail_with(s, message),
                    Ok(path) => {
                        s.paths.push(path);
                        look(s)
                    },
                };
            }
            if stage == SendStage::AskingAgain {
                return match answered(line) {
                    Err(message) => fail_with(s, message),
                    Ok(path) => {
                        let shown = path.clone();
                        s.paths.set(0, path);
                        s.stage = SendStage::Looking;
                        SendAction::Look { path: shown }
                    },
                };
            }
            if stage == SendStage::Confirming {
                if cancels(line.as_str()) {
                    return fail_with(s, "cancelled".to_owned());
                }
                s.stage = SendStage::Over;
                return SendAction::Connect;
            }
        },
        SendEvent::Looked { why } => if stage == SendStage::Looking {
            let reason: Option<&str> = match &why {
                Some(m) => Some(m.as_str()),
                None => None,
            };
            let check = check_path(
                s.paths[0].as_str(),
                reason,
                s.asked.interactive,
                s.paths.len(),
            );
            return match check {
                PathCheck::Fine => {
                    s.stage = SendStage::Surveying;
                    SendAction::Survey
                },
                PathCheck::AskAgain { line } => {
                    s.stage = SendStage::AskingAgain;
                    SendAction::AskPath { line: Some(line) }
                },
                PathCheck::Fail { message } => fail_with(s, message),
            };
        },
        SendEvent::Surveyed { devices, view } => if stage == SendStage::Surveying {
            return survey(s, devices, view);
        },
        SendEvent::Picked { choice } => if stage == SendStage::Picking {
            return match picked_device(&s.devices, choice) {
                Some(name) => {
                    s.to = Some(name);
                    s.stage = SendStage::Gathering;
                    SendAction::Gather
                },
                None => {
                    s.stage = SendStage::Minting;
                    SendAction::Mint
                },
            };
        },
        SendEvent::Minted { words } => if stage == SendStage::Minting {
            s.use_code = true;
            s.word = Some(words);
            s.stage = SendStage::Gathering;
            return SendAction::Gather;
        },
        SendEvent::Gathered => if stage == SendStage::Gathering {
            if s.asked.led() {
                s.stage = SendStage::Confirming;
                let to: Option<&str> = match &s.to {
                    Some(n) => Some(n.as_str()),
                    None => None,
                };
                return SendAction::Confirm { to: goes_to(to, s.use_code).to_owned() };
            }
            s.stage = SendStage::Over;
            return SendAction::Connect;
        },
    }
    SendAction::Nothing
}

/// One step of a set-up: how far it was, what happened, and what was done.
pub struct SendStep {
    pub was: SendSetUp,
    pub event: SendEvent,
    pub action: SendAction,
}

/// Step `i` leads to the next.
pub open spec fn leads_on(t: Seq<SendStep>, i: int) -> bool {
    send_next(t[i].was, t[i + 1].was, t[i].event, t[i].action)
}

/// The steps of one set-up, from its start to `now`.
pub open spec fn is_set_up(t: Seq<SendStep>, now: SendSetUp) -> bool {
    &&& t.len() > 0
    &&& t[0].was.stage is Start
    &&& t[0].was.asked.paths == (t[0].was.paths@.len() > 0)
    &&& forall|i: int| 0 <= i < t.len() - 1 ==> #[trigger] leads_on(t, i)
    &&& send_next(t.last().was, now, t.last().event, t.last().action)
}

/// How far a set-up is. A path may be asked for again and again.
spec fn progress(s: SendStage) -> int {
    match s {
        SendStage::Start => 0,
        SendStage::AskingPath => 1,
        SendStage::Looking => 2,
        SendStage::AskingAgain => 2,
        SendStage::Surveying => 3,
        SendStage::Picking => 4,
        SendStage::Minting => 5,
        SendStage::Gathering => 6,
        SendStage::Confirming => 7,
        SendStage::Over => 8,
    }
}

/// The operator's last word is not to cancel.
pub open spec fn agrees(e: SendEvent) -> bool {
    e matches SendEvent::Answered { line } && !setup::alike(line@, "cancel"@)
}

/// The operator's last word is to cancel.
pub open spec fn calls_off(e: SendEvent) -> bool {
    e matches SendEvent::Answered { line } && setup::alike(line@, "cancel"@)
}

/// The devices were looked up, and the run may go on.
pub open spec fn surveyed(x: SendStep) -> bool {
    x.was.stage is Surveying && x.event is Surveyed && x.action !is Fail
}

/// The operator picked a device, or none.
pub open spec fn picked(x: SendStep) -> bool {
    x.was.stage is Picking && x.event is Picked
}

/// The operator picked a device.
pub open spec fn chose(x: SendStep) -> bool {
    picked(x) && picks_one(x.was, x.event->choice)
}

/// The words of a code were made.
pub open spec fn minted(x: SendStep) -> bool {
    x.was.stage is Minting && x.event is Minted
}

/// The operator picked a device, or none, before step `n`.
pub open spec fn picked_before(t: Seq<SendStep>, n: int) -> bool {
    exists|i: int| 0 <= i < n && #[trigger] picked(t[i])
}

/// The words of a code were made before step `n`.
pub open spec fn minted_before(t: Seq<SendStep>, n: int) -> bool {
    exists|i: int| 0 <= i < n && #[trigger] minted(t[i])
}

/// The operator was asked for the last word before step `n`.
pub open spec fn confirmed_before(t: Seq<SendStep>, n: int) -> bool {
    exists|i: int| 0 <= i < n && (#[trigger] t[i]).action is Confirm
}

/// The devices were looked up at step `i`, and where the operator was to be asked for one, they
/// were before step `n`: by a choice where some are known, and by a code where none is.
pub open spec fn settled_at(t: Seq<SendStep>, i: int, n: int) -> bool {
    &&& surveyed(t[i])
    &&& wants_device(t[i].was) ==> if t[i].event->devices@.len() > 0 {
        picked_before(t, n)
    } else {
        minted_before(t, n)
    }
}

/// Where the files go was settled before step `n`.
pub open spec fn settled_before(t: Seq<SendStep>, n: int) -> bool {
    exists|i: int| 0 <= i < n && #[trigger] settled_at(t, i, n)
}

/// What must have happened for a set-up to be where it is.
spec fn earned(t: Seq<SendStep>, n: int) -> bool {
    let s = t[n].was;
    &&& s.asked == t[0].was.asked
    &&& s.stage is Start ==> s == t[0].was
    &&& progress(s.stage) > 1 && !(s.stage is Over) && !s.asked.remember_only ==> s.paths@.len() > 0
    &&& s.stage is Picking ==> exists|i: int|
        0 <= i < n && surveyed(#[trigger] t[i]) && t[i].event->devices@.len() > 0
    &&& s.stage is Minting ==> exists|i: int|
        0 <= i < n && surveyed(#[trigger] t[i]) && (t[i].event->devices@.len() > 0 ==> picked_before(
            t,
            n,
        ))
    &&& s.stage is Gathering || s.stage is Confirming ==> settled_before(t, n)
    &&& s.stage is Confirming ==> s.asked.is_led() && confirmed_before(t, n)
    &&& forall|i: int|
        0 <= i < n ==> progress((#[trigger] t[i]).was.stage) <= progress(s.stage) && (
        t[i].action !is Nothing && t[i].action !is AskPath && t[i].action !is Look ==> progress(
            t[i].was.stage,
        ) < progress(s.stage))
    &&& !(s.stage is Over) ==> forall|i: int|
        0 <= i < n ==> (#[trigger] t[i]).action !is Connect && t[i].action !is Fail
}

/// What a single step does.
proof fn one_step(p: SendSetUp, s: SendSetUp, e: SendEvent, a: SendAction)
    requires
        send_next(p, s, e, a),
        p.stage is Start ==> p.asked.paths == (p.paths@.len() > 0),
        progress(p.stage) > 1 && !(p.stage is Over) && !p.asked.remember_only ==> p.paths@.len() > 0,
    ensures
        s.asked == p.asked,
        s.stage is Start ==> s == p,
        progress(s.stage) > 1 && !(s.stage is Over) && !s.asked.remember_only ==> s.paths@.len() > 0,
        progress(p.stage) <= progress(s.stage),
        a !is Nothing && a !is AskPath && a !is Look ==> progress(p.stage) < progress(s.stage),
        a is Nothing ==> s == p,
        a is Connect || a is Fail ==> s.stage is Over,
        s.stage is Picking ==> p.stage is Picking || (p.stage is Surveying && e is Surveyed && a
            !is Fail && e->devices@.len() > 0),
        s.stage is Minting ==> p.stage is Minting || (p.stage is Picking && e is Picked) || (p.stage
            is Surveying && e is Surveyed && a !is Fail && e->devices@.len() == 0),
        s.stage is Gathering ==> p.stage is Gathering || (p.stage is Surveying && e is Surveyed && a
            !is Fail && !wants_device(p)) || (p.stage is Picking && e is Picked) || (p.stage
            is Minting && e is Minted),
        s.stage is Confirming ==> p.stage is Confirming || (p.stage is Gathering && a is Confirm
            && p.asked.is_led()),
{
}

proof fn every_stage_is_earned(t: Seq<SendStep>, now: SendSetUp, n: int)
    requires
        is_set_up(t, now),
        0 <= n < t.len(),
    ensures
        earned(t, n),
    decreases n,
{
    if n > 0 {
        let m = n - 1;
        every_stage_is_earned(t, now, m);
        let (p, s, e) = (t[m].was, t[n].was, t[m].event);
        assert(leads_on(t, m));
        one_step(p, s, e, t[m].action);
        if picked_before(t, m) {
            let j = choose|j: int| 0 <= j < m && #[trigger] picked(t[j]);
            assert(picked(t[j]));
        }
        if minted_before(t, m) {
            let j = choose|j: int| 0 <= j < m && #[trigger] minted(t[j]);
            assert(minted(t[j]));
        }
        if p.stage is Picking && e is Picked {
            assert(picked(t[m]));
        }
        if p.stage is Minting && e is Minted {
            assert(minted(t[m]));
        }
        if p.stage is Surveying && e is Surveyed && t[m].action !is Fail {
            assert(surveyed(t[m]));
        }
        if s.stage is Gathering || s.stage is Confirming {
            let i = if p.stage is Gathering || p.stage is Confirming {
                choose|i: int| 0 <= i < m && #[trigger] settled_at(t, i, m)
            } else if p.stage is Picking {
                choose|i: int|
                    0 <= i < m && surveyed(#[trigger] t[i]) && t[i].event->devices@.len() > 0
            } else if p.stage is Minting {
                choose|i: int|
                    0 <= i < m && surveyed(#[trigger] t[i]) && (t[i].event->devices@.len() > 0
                        ==> picked_before(t, m))
            } else {
                m
            };
            assert(settled_at(t, i, n));
        }
        if s.stage is Confirming {
            if p.stage is Confirming {
                let i = choose|i: int| 0 <= i < m && (#[trigger] t[i]).action is Confirm;
                assert(t[i].action is Confirm);
            } else {
                assert(t[m].action is Confirm);
            }
        }
    }
}

/// Nobody is dialled before every question that applies was put and answered: there is something
/// to send, the device that was named can be reached, where nothing said where the files go a
/// device or a code was settled on, and where the operator is led they had the last word. Up to
/// then nothing failed.
pub proof fn send_connects_last(t: Seq<SendStep>, now: SendSetUp)
    requires
        is_set_up(t, now),
    ensures
        now.asked == t[0].was.asked,
        t.last().action is Connect ==> {
            &&& now.asked.remember_only || now.paths@.len() > 0
            &&& settled_before(t, t.len() - 1)
            &&& now.asked.is_led() ==> agrees(t.last().event) && confirmed_before(t, t.len() - 1)
            &&& forall|i: int| 0 <= i < t.len() ==> (#[trigger] t[i]).action !is Fail
        },
{
    let n = t.len() - 1;
    every_stage_is_earned(t, now, n);
    one_step(t[n].was, now, t[n].event, t[n].action);
}

/// A code is made only once the devices were looked up, and where some are known, only once the
/// operator was asked for one and picked none.
pub proof fn no_code_before_the_device_question(t: Seq<SendStep>, now: SendSetUp)
    requires
        is_set_up(t, now),
        t.last().action is Mint,
    ensures
        surveyed(t.last()) ==> t.last().event->devices@.len() == 0,
        !surveyed(t.last()) ==> picked(t.last()) && !chose(t.last()) && exists|i: int|
            0 <= i < t.len() - 1 && surveyed(#[trigger] t[i]) && t[i].event->devices@.len() > 0,
        forall|i: int| 0 <= i < t.len() ==> !minted(#[trigger] t[i]),
{
    let n = t.len() - 1;
    every_stage_is_earned(t, now, n);
}

/// After the operator has picked a device the set-up goes on with it.
proof fn choice_stands(t: Seq<SendStep>, now: SendSetUp, i: int, j: int)
    requires
        is_set_up(t, now),
        0 <= i < j < t.len(),
        chose(t[i]),
    ensures
        t[j].was.stage is Gathering || t[j].was.stage is Confirming || t[j].was.stage is Over,
        t[j].was.to is Some,
        t[j].was.to->0@ == t[i].was.devices@[t[i].event->choice->0 as int]@,
        t[j].was.use_code == t[i].was.use_code,
    decreases j,
{
    assert(leads_on(t, j - 1));
    if j > i + 1 {
        choice_stands(t, now, i, j - 1);
    }
}

/// Where the operator picked a device, no code is made, and the files go to that device: it is
/// what the last question names.
pub proof fn a_device_is_chosen_for_good(t: Seq<SendStep>, now: SendSetUp, i: int, j: int)
    requires
        is_set_up(t, now),
        0 <= i < t.len(),
        0 <= j < t.len(),
        chose(t[i]),
    ensures
        t[j].action !is Mint,
        j > i ==> {
            &&& t[j].was.to is Some
            &&& t[j].was.to->0@ == t[i].was.devices@[t[i].event->choice->0 as int]@
            &&& t[j].was.use_code == t[i].was.use_code
        },
        t[j].action matches SendAction::Confirm { to } ==> j > i && to@ == t[j].was.to->0@,
{
    if j < t.len() - 1 {
        assert(leads_on(t, j));
    }
    if j > i {
        choice_stands(t, now, i, j);
    } else if j < i {
        every_stage_is_earned(t, now, i);
        if j + 1 < i {
            assert(progress(t[j + 1].was.stage) <= progress(t[i].was.stage));
        }
    } else if i < t.len() - 1 {
        assert(leads_on(t, i));
    }
}

/// The operator is asked for a device once, and for the last word once; one code is made at most,
/// and once the send is begun or has failed nothing more is done.
pub proof fn send_asks_once(t: Seq<SendStep>, now: SendSetUp, i: int, j: int)
    requires
        is_set_up(t, now),
        0 <= i < j < t.len(),
    ensures
        !(t[i].action is Pick && t[j].action is Pick),
        !(t[i].action is Mint && t[j].action is Mint),
        !(t[i].action is Confirm && t[j].action is Confirm),
        t[i].action is Connect || t[i].action is Fail ==> t[j].action is Nothing,
{
    every_stage_is_earned(t, now, i);
    every_stage_is_earned(t, now, i + 1);
    every_stage_is_earned(t, now, j);
    assert(leads_on(t, i));
    if j < t.len() - 1 {
        assert(leads_on(t, j));
    }
    if i + 1 < j {
        assert(progress(t[i + 1].was.stage) <= progress(t[j].was.stage));
    }
}

/// A send that the operator cancels at the last question fails as cancelled, and nobody was
/// dialled, nor will be.
pub proof fn cancelled_send_does_nothing(t: Seq<SendStep>, now: SendSetUp)
    requires
        is_set_up(t, now),
        t.last().was.stage is Confirming,
        calls_off(t.last().event),
    ensures
        t.last().action matches SendAction::Fail { message } && message@ == "cancelled"@,
        now.stage is Over,
        forall|i: int| 0 <= i < t.len() ==> (#[trigger] t[i]).action !is Connect,
{
    every_stage_is_earned(t, now, t.len() - 1);
}

} // verus!
