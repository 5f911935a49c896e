//! The questions before a receive, and in which order they are put: nothing is made on disk and
//! nobody is dialled before the last of them was answered.

use vstd::prelude::*;
use vstd::string::*;
use crate::setup;
use crate::setup::{asks_code, cancels, comes_from, leads_receive};
use crate::shared_defs;

verus! {

/// What is waited for.
#[derive(Clone, Copy, Debug, PartialEq, Eq, Structural)]
pub enum ReceiveStage {
    /// The start.
    Start,
    /// A code.
    EnteringCode,
    /// The operator's last word.
    Confirming,
    /// Nothing any more.
    Over,
}

/// A receive that is being set up.
pub struct ReceiveSetUp {
    pub stage: ReceiveStage,
    /// The operator is led through the receive. That is settled before anything is asked.
    pub led: bool,
    /// It runs as a daemon.
    pub daemon: bool,
    /// Questions may be asked.
    pub interactive: bool,
    /// The code, if there is one.
    pub code: Option<String>,
    /// Whom the files come from, if somebody was named.
    pub to: Option<String>,
    /// Where the files go.
    pub dir: String,
    /// The files go to the standard output.
    pub to_stdout: bool,
    /// The operator says yes to everything.
    pub yes: bool,
}

/// What became of the question for a code.
pub enum CodeEntry {
    /// This was entered.
    Submitted(String),
    /// Nothing was.
    Empty,
    /// It was called off.
    Cancelled,
}

/// What happened.
pub enum SetUpEvent {
    /// The receive was asked for.
    Begin,
    /// The question for a code was answered.
    Entered { entry: CodeEntry },
    /// The operator's last word.
    Answered { line: String },
}

/// What to do.
pub enum SetUpAction {
    /// Nothing: this was not waited for.
    Nothing,
    /// Ask for a code.
    EnterCode,
    /// Show what the receive will be, and ask for the last word on it.
    Confirm { from: String, into: String, consent: String },
    /// Make the directory and dial.
    Connect,
    /// Fail.
    Fail { message: String },
}

/// What is shown of where the files go.
pub open spec fn goes_into(s: ReceiveSetUp) -> Seq<char> {
    if s.to_stdout {
        "stdout"@
    } else {
        s.dir@
    }
}

/// What is shown of how offers are taken.
pub open spec fn consent_text(yes: bool) -> Seq<char> {
    if yes {
        "accept matching offers"@
    } else {
        "ask before each offer"@
    }
}

/// The set-up is over, and this is why.
pub open spec fn fails(was: ReceiveSetUp, now: ReceiveSetUp, r: SetUpAction, why: Seq<char>) -> bool {
    &&& r matches SetUpAction::Fail { message }
    &&& message@ == why
    &&& now == (ReceiveSetUp { stage: ReceiveStage::Over, ..was })
}

/// Every question but the last was put: a receive that is led has that one left.
pub open spec fn goes_on(was: ReceiveSetUp, now: ReceiveSetUp, r: SetUpAction) -> bool {
    if was.led {
        &&& r matches SetUpAction::Confirm { from, into, consent }
        &&& from@ == setup::source_text(shared_defs::view_of(was.to), was.code is Some)
        &&& into@ == goes_into(was)
        &&& consent@ == consent_text(was.yes)
        &&& now == (ReceiveSetUp { stage: ReceiveStage::Confirming, ..was })
    } else {
        r is Connect && now == (ReceiveSetUp { stage: ReceiveStage::Over, ..was })
    }
}

/// What an event makes of a set-up, and what it calls for.
pub open spec fn receive_next(
    was: ReceiveSetUp,
    now: ReceiveSetUp,
    e: SetUpEvent,
    r: SetUpAction,
) -> bool {
    match (was.stage, e) {
        (ReceiveStage::Start, SetUpEvent::Begin) => if !was.daemon && was.code is None
            && was.interactive {
            r is EnterCode && now == (ReceiveSetUp { stage: ReceiveStage::EnteringCode, ..was })
        } else {
            goes_on(was, now, r)
        },
        (ReceiveStage::EnteringCode, SetUpEvent::Entered { entry }) => match entry {
            CodeEntry::Submitted(c) => goes_on(ReceiveSetUp { code: Some(c), ..was }, now, r),
            CodeEntry::Empty => goes_on(was, now, r),
            CodeEntry::Cancelled => fails(was, now, r, "cancelled"@),
        },
        (ReceiveStage::Confirming, SetUpEvent::Answered { line }) => if setup::alike(
            line@,
            "cancel"@,
        ) {
            fails(was, now, r, "cancelled"@)
        } else {
            r is Connect && now == (ReceiveSetUp { stage: ReceiveStage::Over, ..was })
        },
        _ => r is Nothing && now == was,
    }
}

impl ReceiveSetUp {
    /// A receive was asked for; `requested` where the operator wants to be asked.
    pub fn new(
        daemon: bool,
        interactive: bool,
        requested: bool,
        code: Option<String>,
        to: Option<String>,
        dir: String,
        to_stdout: bool,
        yes: bool,
    ) -> (r: ReceiveSetUp)
        ensures
            r == (ReceiveSetUp {
                stage: ReceiveStage::Start,
                led: !daemon && interactive && (code is None || requested),
                daemon,
                interactive,
                code,
                to,
                dir,
                to_stdout,
                yes,
            }),
    {
        let led: bool = leads_receive(daemon, interactive, code.is_some(), requested);
        ReceiveSetUp {
            stage: ReceiveStage::Start,
            led,
            daemon,
            interactive,
            code,
            to,
            dir,
            to_stdout,
            yes,
        }
    }
}

fn fail_with(s: &mut ReceiveSetUp, why: &str) -> (r: SetUpAction)
    ensures
        fails(*old(s), *final(s), r, why@),
{
    s.stage = ReceiveStage::Over;
    SetUpAction::Fail { message: why.to_owned() }
}

fn go_on(s: &mut ReceiveSetUp) -> (r: SetUpAction)
    ensures
        goes_on(*old(s), *final(s), r),
{
    if !s.led {
        s.stage = ReceiveStage::Over;
        return SetUpAction::Connect;
    }
    s.stage = ReceiveStage::Confirming;
    let to: Option<&str> = match &s.to {
        Some(n) => Some(n.as_str()),
        None => None,
    };
    let from = comes_from(to, s.code.is_some()).to_owned();
    let into = if s.to_stdout {
        "stdout".to_owned()
    } else {
        s.dir.clone()
    };
    let consent = if s.yes {
        "accept matching offers".to_owned()
    } else {
        "ask before each offer".to_owned()
    };
    SetUpAction::Confirm { from, into, consent }
}

/// An event of the set-up of a receive.
pub fn receive_set_up(s: &mut ReceiveSetUp, e: SetUpEvent) -> (r: SetUpAction)
    ensures
        receive_next(*old(s), *final(s), e, r),
{
    let stage = s.stage;
    match e {
        SetUpEvent::Begin => if stage == ReceiveStage::Start {
            if asks_code(s.daemon, s.code.is_some(), s.interactive) {
                s.stage = ReceiveStage::EnteringCode;
                return SetUpAction::EnterCode;
            }
            return go_on(s);
        },
        SetUpEvent::Entered { entry } => if stage == ReceiveStage::EnteringCode {
            match entry {
                CodeEntry::Submitted(c) => {
                    s.code = Some(c);
                    return go_on(s);
                },
                CodeEntry::Empty => {
                    return go_on(s);
                },
                CodeEntry::Cancelled => {
                    return fail_with(s, "cancelled");
                },
            }
        },
        SetUpEvent::Answered { line } => if stage == ReceiveStage::Confirming {
            if cancels(line.as_str()) {
                return fail_with(s, "cancelled");
            }
            s.stage = ReceiveStage::Over;
            return SetUpAction::Connect;
        },
    }
    SetUpAction::Nothing
}

/// One step of a set-up: how far it was, what happened, and what was done.
pub struct ReceiveStep {
    pub was: ReceiveSetUp,
    pub event: SetUpEvent,
    pub action: SetUpAction,
}

/// Step `i` leads to the next.
pub open spec fn leads_on(t: Seq<ReceiveStep>, i: int) -> bool {
    receive_next(t[i].was, t[i + 1].was, t[i].event, t[i].action)
}

/// The steps of one set-up, from its start to `now`.
pub open spec fn is_set_up(t: Seq<ReceiveStep>, now: ReceiveSetUp) -> bool {
    &&& t.len() > 0
    &&& t[0].was.stage is Start
    &&& forall|i: int| 0 <= i < t.len() - 1 ==> #[trigger] leads_on(t, i)
    &&& receive_next(t.last().was, now, t.last().event, t.last().action)
}

/// How far a set-up is.
spec fn progress(s: ReceiveStage) -> int {
    match s {
        ReceiveStage::Start => 0,
        ReceiveStage::EnteringCode => 1,
        ReceiveStage::Confirming => 2,
        ReceiveStage::Over => 3,
    }
}

/// A code was entered, or none, and it was not called off.
pub open spec fn code_settled(e: SetUpEvent) -> bool {
    e matches SetUpEvent::Entered { entry } && !(entry is Cancelled)
}

/// The operator's last word is not to cancel.
pub open spec fn agrees(e: SetUpEvent) -> bool {
    e matches SetUpEvent::Answered { line } && !setup::alike(line@, "cancel"@)
}

/// The operator's last word is to cancel.
pub open spec fn calls_off(e: SetUpEvent) -> bool {
    e matches SetUpEvent::Answered { line } && setup::alike(line@, "cancel"@)
}

/// The operator was asked for the last word before step `n`.
pub open spec fn confirmed_before(t: Seq<ReceiveStep>, n: int) -> bool {
    exists|i: int| 0 <= i < n && (#[trigger] t[i]).action is Confirm
}

/// The question for a code was put and answered before step `n`.
pub open spec fn entered_before(t: Seq<ReceiveStep>, n: int) -> bool {
    exists|i: int| 0 <= i < n && #[trigger] code_settled(t[i].event)
}

/// The question for a code is put.
pub open spec fn wants_code(s: ReceiveSetUp) -> bool {
    !s.daemon && s.code is None && s.interactive
}

/// What must have happened for a set-up to be where it is.
spec fn earned(t: Seq<ReceiveStep>, n: int) -> bool {
    let s = t[n].was;
    &&& s.led == t[0].was.led
    &&& s.stage is Start ==> s == t[0].was
    &&& s.stage is Confirming ==> s.led && confirmed_before(t, n)
    &&& s.stage is Confirming && wants_code(t[0].was) ==> entered_before(t, n)
    &&& forall|i: int|
        0 <= i < n ==> progress((#[trigger] t[i]).was.stage) <= progress(s.stage) && (
        t[i].action !is Nothing ==> progress(t[i].was.stage) < progress(s.stage))
    &&& !(s.stage is Over) ==> forall|i: int|
        0 <= i < n ==> (#[trigger] t[i]).action !is Connect && t[i].action !is Fail
}

proof fn every_stage_is_earned(t: Seq<ReceiveStep>, now: ReceiveSetUp, n: int)
    requires
        is_set_up(t, now),
        0 <= n < t.len(),
    ensures
        earned(t, n),
    decreases n,
{
    if n > 0 {
        let m = n - 1;
        every_stage_is_earned(t, now, m);
        assert(leads_on(t, m));
        if t[n].was.stage is Confirming {
            if t[m].was.stage is Confirming {
                let i = choose|i: int| 0 <= i < m && (#[trigger] t[i]).action is Confirm;
                assert(t[i].action is Confirm);
                if wants_code(t[0].was) {
                    let j = choose|j: int| 0 <= j < m && #[trigger] code_settled(t[j].event);
                    assert(code_settled(t[j].event));
                }
            } else {
                assert(t[m].action is Confirm);
                if wants_code(t[0].was) {
                    assert(code_settled(t[m].event));
                }
            }
        }
    }
}

/// Nothing is made and nobody is dialled before every question that is put was answered: whether
/// the operator is led is settled at the start, a receive that is led is gone on with on the
/// operator's last word alone, and the question for a code comes before that. Up to then nothing
/// failed.
pub proof fn receive_connects_last(t: Seq<ReceiveStep>, now: ReceiveSetUp)
    requires
        is_set_up(t, now),
    ensures
        now.led == t[0].was.led,
        t.last().action is Connect ==> {
            &&& t[0].was.led ==> agrees(t.last().event) && confirmed_before(t, t.len() - 1)
            &&& wants_code(t[0].was) ==> entered_before(t, t.len() as int)
            &&& forall|i: int| 0 <= i < t.len() ==> (#[trigger] t[i]).action !is Fail
        },
{
    let n = t.len() - 1;
    every_stage_is_earned(t, now, n);
    if t.last().action is Connect && wants_code(t[0].was) {
        if t[n].was.stage is Confirming {
            let j = choose|j: int| 0 <= j < n && #[trigger] code_settled(t[j].event);
            assert(code_settled(t[j].event));
        } else {
            assert(code_settled(t[n].event));
        }
    }
}

/// Every question is put once, and the receive is begun once at most.
pub proof fn receive_asks_once(t: Seq<ReceiveStep>, now: ReceiveSetUp, i: int, j: int)
    requires
        is_set_up(t, now),
        0 <= i < j < t.len(),
    ensures
        !(t[i].action is EnterCode && t[j].action is EnterCode),
        !(t[i].action is Confirm && t[j].action is Confirm),
        t[i].action is Connect || t[i].action is Fail ==> t[j].action is Nothing,
{
    every_stage_is_earned(t, now, i);
    every_stage_is_earned(t, now, i + 1);
    every_stage_is_earned(t, now, j);
    assert(leads_on(t, i));
    if j < t.len() - 1 {
        assert(leads_on(t, j));
    }
    if i + 1 < j {
        assert(progress(t[i + 1].was.stage) <= progress(t[j].was.stage));
    }
}

/// A receive that the operator cancels at the last question fails as cancelled, and nothing was
/// made and nobody dialled, nor will be.
pub proof fn cancelled_receive_does_nothing(t: Seq<ReceiveStep>, now: ReceiveSetUp)
    requires
        is_set_up(t, now),
        t.last().was.stage is Confirming,
        calls_off(t.last().event),
    ensures
        t.last().action matches SetUpAction::Fail { message } && message@ == "cancelled"@,
        now.stage is Over,
        forall|i: int| 0 <= i < t.len() ==> (#[trigger] t[i]).action !is Connect,
{
    every_stage_is_earned(t, now, t.len() - 1);
}

} // verus!
