//! The operator at the terminal: keys, questions about offers, and session commands.

use vstd::prelude::*;
use vstd::string::*;
use crate::frame;
use crate::frame::{member, of_text, put, same_value};
use crate::keyed;
use crate::keyed::lists;
use crate::offer;
use crate::offer::text_member;
use crate::shared_defs;
use crate::shared_defs::elapsed;
use crate::text;
use crate::text::{cat, same, to_lower, trim};

verus! {

/// What a key does.
#[derive(Debug, PartialEq, Eq)]
pub enum KeyStep {
    /// It answers the open question.
    Answer(char),
    /// It ends a line.
    Line(String),
    /// It takes back the last character.
    Erase,
    /// It adds this character to the line.
    Echo(char),
    /// Nothing.
    Nothing,
}

/// A key that answers a question: the small letter it stands for.
pub open spec fn answer_key(b: u8) -> Option<char> {
    if b == 121 || b == 89 {
        Some('y')
    } else if b == 110 || b == 78 {
        Some('n')
    } else {
        None
    }
}

/// A byte that stands for a control character.
pub open spec fn is_control(b: u8) -> bool {
    b < 0x20 || 0x7F <= b <= 0x9F
}

/// What a key does: with a question open and nothing typed yet, the letters of yes and no
/// answer it. Otherwise it edits the line.
pub fn key(line: &mut String, b: u8, question_open: bool) -> (r: KeyStep)
    ensures
        ({
            let answers = question_open && old(line)@.len() == 0 && answer_key(b) is Some;
            &&& answers ==> r == KeyStep::Answer(answer_key(b)->0) && final(line)@ == old(line)@
            &&& !answers && (b == 10 || b == 13) ==> (r matches KeyStep::Line(t) && t@
                == text::trimmed(old(line)@)) && final(line)@.len() == 0
            &&& !answers && (b == 0x7F || b == 0x08) ==> (if old(line)@.len() > 0 {
                r is Erase && final(line)@ == old(line)@.drop_last()
            } else {
                r is Nothing && final(line)@ == old(line)@
            })
            &&& !answers && !is_control(b) ==> r == KeyStep::Echo(b as char) && final(line)@ == old(
                line,
            )@.push(b as char)
            &&& !answers && is_control(b) && b != 10 && b != 13 && b != 0x7F && b != 0x08 ==> r
                is Nothing && final(line)@ == old(line)@
        }),
{
    if question_open && line.as_str().is_empty() {
        if b == 121 || b == 89 {
            return KeyStep::Answer('y');
        }
        if b == 110 || b == 78 {
            return KeyStep::Answer('n');
        }
    }
    if b == 10 || b == 13 {
        let t = trim(line.as_str()).to_owned();
        *line = String::new();
        return KeyStep::Line(t);
    }
    if b == 0x7F || b == 0x08 {
        let n: usize = line.as_str().unicode_len();
        if n == 0 {
            return KeyStep::Nothing;
        }
        let rest = line.as_str().substring_char(0, n - 1).to_owned();
        proof {
            assert(rest@ =~= line@.drop_last());
        }
        *line = rest;
        return KeyStep::Erase;
    }
    if b < 0x20 || (0x7F <= b && b <= 0x9F) {
        return KeyStep::Nothing;
    }
    line.push(b as char);
    KeyStep::Echo(b as char)
}

/// How long after a question appears keys are taken for strokes typed before it did.
pub const SETTLE: u64 = 300_000_000;

/// An offer that waits for the operator's answer.
pub struct Question {
    pub pid: String,
    pub offer: serde_json::Value,
}

/// The offers that wait for the operator's answer, the one asked about first.
pub struct Questions {
    pub pending: Vec<Question>,
    /// A question is open at the terminal.
    pub open: bool,
    /// When the question at the front was put.
    pub shown: u64,
}

/// What the operator's answer does.
pub enum Answered {
    /// Look at this offer again: the operator has said yes to it.
    Accept { pid: String, offer: serde_json::Value },
    /// Decline this offer and say so.
    Decline { pid: String, id: String, line: String },
    /// It was no answer.
    Nothing,
}

/// What to show of the question at the front.
#[derive(Clone, Copy, Debug, PartialEq, Eq, Structural)]
pub enum Show {
    /// A new one has come to the front: say it and keep it in view.
    New,
    /// Keep it in view.
    Again,
    /// None is left.
    Closed,
    /// Leave things as they are.
    Leave,
}

impl Questions {
    /// Every offer is a frame with members.
    pub open spec fn wf(self) -> bool {
        forall|i: int|
            0 <= i < self.pending@.len() ==> frame::json((#[trigger] self.pending@[i]).offer) is Object
    }

    /// No question.
    pub fn new(now: u64) -> (r: Questions)
        ensures
            r.wf(),
            r.pending@.len() == 0,
            !r.open,
            r.shown == now,
    {
        Questions { pending: Vec::new(), open: false, shown: now }
    }

    /// Put a question about an offer. Tells whether it is to be shown now: it is, if no
    /// other is waiting.
    pub fn ask(&mut self, pid: &str, v: serde_json::Value, now: u64) -> (r: bool)
        requires
            old(self).wf(),
            frame::json(v) is Object,
        ensures
            final(self).wf(),
            final(self).open,
            r == (old(self).pending@.len() == 0),
            final(self).shown == (if r {
                now
            } else {
                old(self).shown
            }),
            final(self).pending@.drop_last() == old(self).pending@,
            final(self).pending@.len() == old(self).pending@.len() + 1,
            final(self).pending@.last().pid@ == pid@,
            final(self).pending@.last().offer == v,
    {
        let first: bool = self.pending.len() == 0;
        let ghost was = self.pending@;
        self.pending.push(Question { pid: pid.to_owned(), offer: v });
        self.open = true;
        if first {
            self.shown = now;
        }
        proof {
            assert(self.pending@.drop_last() =~= was);
        }
        first
    }

    /// The operator has typed a line while a question was open. Only an explicit answer
    /// counts, and not before the question has been in view for `SETTLE`.
    pub fn answer(&mut self, line: &str, token: &str, now: u64) -> (r: (Answered, Show))
        requires
            old(self).wf(),
            old(self).pending@.len() > 0,
        ensures
            final(self).wf(),
            answered(*old(self), *final(self), text::lowercase(line@), token@, now, r.0, r.1),
    {
        self.take_answer(to_lower(line).as_str(), token, now)
    }

    /// The operator's line, in small letters, is taken for the answer to the question at the
    /// front.
    pub fn take_answer(&mut self, ans: &str, token: &str, now: u64) -> (r: (Answered, Show))
        requires
            old(self).wf(),
            old(self).pending@.len() > 0,
        ensures
            final(self).wf(),
            answered(*old(self), *final(self), ans@, token@, now, r.0, r.1),
    {
        if elapsed(now, self.shown) < SETTLE {
            return (Answered::Nothing, Show::Leave);
        }
        let ghost was = *self;
        let yes: bool = same(ans, "y") || same(ans, "yes");
        let no: bool = same(ans, "n") || same(ans, "no");
        let action = if yes {
            let q = self.pending.remove(0);
            let mut offer = q.offer;
            put(&mut offer, "__consent", of_text(token));
            Answered::Accept { pid: q.pid, offer }
        } else if no {
            let q = self.pending.remove(0);
            let name = text_member(&q.offer, "name", "file");
            let id = text_member(&q.offer, "id", "");
            proof {
                reveal_strlit("");
                assert(""@ =~= Seq::<char>::empty());
            }
            Answered::Decline { pid: q.pid, id, line: cat("  declined ", name.as_str()) }
        } else {
            Answered::Nothing
        };
        proof {
            if yes || no {
                assert(was.pending@.subrange(1, was.pending@.len() as int) =~= self.pending@);
            }
        }
        if self.pending.len() > 0 {
            if yes || no {
                self.shown = now;
                (action, Show::New)
            } else {
                (action, Show::Again)
            }
        } else {
            self.open = false;
            (action, Show::Closed)
        }
    }

    /// Drop the questions about offers whose links are gone: their senders offer again on
    /// new links, and a yes must not accept a stream that is dead.
    pub fn purge(&mut self, live: &Vec<String>, now: u64) -> (r: Show)
        requires
            old(self).wf(),
        ensures
            final(self).wf(),
            final(self).pending@ == of_live(old(self).pending@, live@),
            purged(*old(self), *final(self), live@, now, r),
    {
        let ghost was = *self;
        if self.pending.len() == 0 {
            proof {
                assert(of_live(was.pending@, live@) =~= was.pending@);
            }
            return Show::Leave;
        }
        let n: usize = self.pending.len();
        let mut out: Vec<Question> = Vec::new();
        let mut old_front: Option<serde_json::Value> = None;
        let mut i: usize = 0;
        proof {
            assert(of_live(was.pending@.subrange(0, 0), live@) =~= Seq::<Question>::empty());
            assert(was.pending@.subrange(0, n as int) =~= was.pending@);
        }
        while i < n
            invariant
                i <= n,
                0 < n == was.pending@.len(),
                was.wf(),
                self.open == was.open,
                self.shown == was.shown,
                self.pending@ == was.pending@.subrange(i as int, n as int),
                out@ == of_live(was.pending@.subrange(0, i as int), live@),
                i == 0 ==> old_front is None,
                i > 0 && !keyed::listed(live@, was.pending@[0].pid@) ==> old_front == Some(
                    was.pending@[0].offer,
                ),
                i > 0 && keyed::listed(live@, was.pending@[0].pid@) ==> old_front is None && out@.len() > 0
                    && out@[0] == was.pending@[0],
            decreases n - i,
        {
            let ghost upto = was.pending@.subrange(0, i + 1);
            let ghost q0 = was.pending@[i as int];
            let q = self.pending.remove(0);
            proof {
                assert(q == q0);
                assert(self.pending@ =~= was.pending@.subrange(i + 1, n as int));
                assert(upto.drop_last() =~= was.pending@.subrange(0, i as int));
                assert(upto.last() == q);
            }
            if lists(live, q.pid.as_str()) {
                out.push(q);
            } else if i == 0 {
                old_front = Some(q.offer);
            }
            i += 1;
        }
        self.pending = out;
        proof {
            assert(was.pending@.subrange(0, n as int) =~= was.pending@);
            of_live_are_from(was.pending@, live@);
            assert forall|k: int| 0 <= k < self.pending@.len() implies frame::json(
                (#[trigger] self.pending@[k]).offer,
            ) is Object by {
                let j = choose|j: int| 0 <= j < was.pending@.len() && was.pending@[j] == self.pending@[k];
                assert(frame::json(was.pending@[j].offer) is Object);
            }
        }
        match old_front {
            None => Show::Leave,
            Some(v) => {
                if self.pending.len() == 0 {
                    self.open = false;
                    return Show::Closed;
                }
                if same_value(member(&self.pending[0].offer, "id"), member(&v, "id")) {
                    return Show::Leave;
                }
                self.shown = now;
                Show::New
            },
        }
    }
}

/// The questions whose links are live, in order.
pub open spec fn of_live(p: Seq<Question>, live: Seq<String>) -> Seq<Question>
    decreases p.len(),
{
    if p.len() == 0 {
        p
    } else if keyed::listed(live, p.last().pid@) {
        of_live(p.drop_last(), live).push(p.last())
    } else {
        of_live(p.drop_last(), live)
    }
}

proof fn of_live_are_from(p: Seq<Question>, live: Seq<String>)
    ensures
        forall|k: int|
            #![trigger of_live(p, live)[k]]
            0 <= k < of_live(p, live).len() ==> exists|j: int|
                0 <= j < p.len() && p[j] == of_live(p, live)[k],
    decreases p.len(),
{
    if p.len() > 0 {
        let q = p.drop_last();
        of_live_are_from(q, live);
        assert forall|k: int| #![trigger of_live(p, live)[k]] 0 <= k < of_live(p, live).len() implies exists|
            j: int,
        | 0 <= j < p.len() && p[j] == of_live(p, live)[k] by {
            if k < of_live(q, live).len() {
                assert(of_live(p, live)[k] == of_live(q, live)[k]);
                let j = choose|j: int| 0 <= j < q.len() && q[j] == of_live(q, live)[k];
                assert(p[j] == of_live(p, live)[k]);
            } else {
                assert(p[p.len() - 1] == of_live(p, live)[k]);
            }
        }
    }
}

/// What the operator's line does to the questions.
pub open spec fn answered(
    was: Questions,
    now_q: Questions,
    ans: Seq<char>,
    token: Seq<char>,
    now: u64,
    action: Answered,
    show: Show,
) -> bool {
    let front = was.pending@[0];
    let offer = frame::json(front.offer);
    let yes = ans == "y"@ || ans == "yes"@;
    let no = ans == "n"@ || ans == "no"@;
    if shared_defs::since(now, was.shown) < SETTLE {
        action is Nothing && show is Leave && now_q == was
    } else {
        &&& yes ==> (action matches Answered::Accept { pid, offer: o } && pid@ == front.pid@
            && frame::json(o) == offer.with("__consent"@, frame::Json::Text(token)))
        &&& !yes && no ==> (action matches Answered::Decline { pid, id, line } && pid@ == front.pid@
            && id@ == offer::text_or(offer, "id"@, Seq::empty()) && line@ == "  declined "@
            + offer::text_or(offer, "name"@, "file"@))
        &&& !yes && !no ==> action is Nothing
        &&& now_q.pending@ == (if yes || no {
            was.pending@.subrange(1, was.pending@.len() as int)
        } else {
            was.pending@
        })
        &&& now_q.pending@.len() > 0 ==> now_q.open == was.open && show == (if yes || no {
            Show::New
        } else {
            Show::Again
        }) && now_q.shown == (if yes || no {
            now
        } else {
            was.shown
        })
        &&& now_q.pending@.len() == 0 ==> show is Closed && !now_q.open && now_q.shown == was.shown
    }
}

/// What dropping the questions of dead links does, beside dropping them: a question that
/// comes to the front is shown, unless it is about the same offer as the one that was
/// there.
pub open spec fn purged(
    was: Questions,
    now_q: Questions,
    live: Seq<String>,
    now: u64,
    show: Show,
) -> bool {
    let kept_front = was.pending@.len() > 0 && keyed::listed(live, was.pending@[0].pid@);
    let id_was = frame::json(was.pending@[0].offer).member("id"@);
    let id_now = frame::json(now_q.pending@[0].offer).member("id"@);
    &&& was.pending@.len() == 0 || kept_front ==> show is Leave
    &&& was.pending@.len() > 0 && now_q.pending@.len() == 0 ==> show is Closed
    &&& was.pending@.len() > 0 && now_q.pending@.len() > 0 && !kept_front ==> show is Leave || show
        is New
    &&& was.pending@.len() > 0 && now_q.pending@.len() > 0 && !kept_front && show is Leave ==> id_was
        == id_now
    &&& was.pending@.len() > 0 && now_q.pending@.len() > 0 && !kept_front
        && id_now.is_whole() && id_was == id_now ==> show is Leave
    &&& now_q.open == (was.open && !(show is Closed))
    &&& now_q.shown == (if show is New {
        now
    } else {
        was.shown
    })
}

} // verus!
