//! The operator's word: what is taken for a yes or a no, and what comes of it.

use vstd::prelude::*;
use vstd::string::*;
use crate::console;
use crate::console::{key, Answered, KeyStep, Question, Questions, Show};
use crate::frame;
use crate::keyed;
use crate::text;

verus! {

broadcast use frame::with_sets_one_member;

proof fn answers_are_apart()
    ensures
        "y"@ != "n"@,
        "y"@ != "no"@,
        "yes"@ != "n"@,
        "yes"@ != "no"@,
        "__consent"@ != "id"@,
        "__consent"@ != "name"@,
{
    reveal_strlit("y");
    reveal_strlit("n");
    reveal_strlit("yes");
    reveal_strlit("no");
    reveal_strlit("__consent");
    reveal_strlit("id");
    reveal_strlit("name");
    assert("__consent"@.len() == 9);
    assert("id"@.len() == 2);
    assert("name"@.len() == 4);
    assert("y"@.len() == 1 && "y"@[0] == 'y');
    assert("n"@.len() == 1 && "n"@[0] == 'n');
    assert("yes"@.len() == 3);
    assert("no"@.len() == 2);
}

/// An offer is marked with the operator's consent where the line that was typed says "y" or "yes",
/// in whatever case, and for no other line; it goes back to the peer it came from with nothing
/// else changed.
pub proof fn only_a_yes_consents(
    q: &mut Questions,
    line: &str,
    token: &str,
    now: u64,
    r: (Answered, Show),
)
    requires
        call_ensures(Questions::answer, (q, line, token, now), r),
        old(q).pending@.len() > 0,
    ensures
        r.0 is Accept ==> text::lowercase(line@) == "y"@ || text::lowercase(line@) == "yes"@,
        (text::lowercase(line@) == "y"@ || text::lowercase(line@) == "yes"@) && now - old(q).shown
            >= 300_000_000 ==> r.0 is Accept,
        r.0 matches Answered::Accept { pid, offer } ==> pid@ == old(q).pending@[0].pid@
            && frame::json(offer) == frame::json(old(q).pending@[0].offer).with(
            "__consent"@,
            frame::Json::Text(token@),
        ),
{
    answers_are_apart();
}

/// An offer is declined where the line says "n" or "no", in whatever case, and for no other line;
/// the sender is told by the id of its own offer.
pub proof fn only_a_no_declines(
    q: &mut Questions,
    line: &str,
    token: &str,
    now: u64,
    r: (Answered, Show),
)
    requires
        call_ensures(Questions::answer, (q, line, token, now), r),
        old(q).pending@.len() > 0,
    ensures
        r.0 is Decline ==> text::lowercase(line@) == "n"@ || text::lowercase(line@) == "no"@,
        (text::lowercase(line@) == "n"@ || text::lowercase(line@) == "no"@) && now - old(q).shown
            >= 300_000_000 ==> r.0 is Decline,
        r.0 matches Answered::Decline { pid, id, line } ==> {
            let offer = frame::json(old(q).pending@[0].offer);
            &&& pid@ == old(q).pending@[0].pid@
            &&& offer.text_at("id"@) matches Some(s) ==> id@ == s
            &&& offer.text_at("id"@) is None ==> id@.len() == 0
            &&& offer.text_at("name"@) matches Some(n) ==> line@ == "  declined "@ + n
            &&& offer.text_at("name"@) is None ==> line@ == "  declined file"@
        },
{
    answers_are_apart();
    reveal_strlit("  declined file");
    reveal_strlit("  declined ");
    reveal_strlit("file");
    assert("  declined "@ + "file"@ =~= "  declined file"@);
}

/// The line in small letters is taken as it stands: "y" and "yes" consent, "n" and "no" decline,
/// and nothing else answers.
pub proof fn a_small_line_is_taken_as_it_stands(
    q: &mut Questions,
    ans: &str,
    token: &str,
    now: u64,
    r: (Answered, Show),
)
    requires
        call_ensures(Questions::take_answer, (q, ans, token, now), r),
        old(q).pending@.len() > 0,
        now - old(q).shown >= 300_000_000,
    ensures
        ans@ == "y"@ ==> r.0 is Accept,
        ans@ == "yes"@ ==> r.0 is Accept,
        ans@ == "n"@ ==> r.0 is Decline,
        ans@ == "no"@ ==> r.0 is Decline,
        ans@ != "y"@ && ans@ != "yes"@ && ans@ != "n"@ && ans@ != "no"@ ==> r.0 is Nothing,
        r.0 matches Answered::Accept { pid, offer } ==> pid@ == old(q).pending@[0].pid@
            && frame::json(offer) == frame::json(old(q).pending@[0].offer).with(
            "__consent"@,
            frame::Json::Text(token@),
        ),
        r.0 matches Answered::Decline { pid, id, line } ==> pid@ == old(q).pending@[0].pid@ && (
        frame::json(old(q).pending@[0].offer).text_at("id"@) matches Some(s) ==> id@ == s),
{
    answers_are_apart();
}

/// A stroke typed before the question was in view for three tenths of a second answers nothing
/// and changes nothing.
pub proof fn early_strokes_answer_nothing(
    q: &mut Questions,
    ans: &str,
    token: &str,
    now: u64,
    r: (Answered, Show),
)
    requires
        call_ensures(Questions::take_answer, (q, ans, token, now), r),
        old(q).pending@.len() > 0,
        now - old(q).shown < 300_000_000,
    ensures
        r.0 is Nothing,
        r.1 is Leave,
        *final(q) == *old(q),
{
}

/// An answer takes the question at the front and leaves the others as they were, in order; what
/// is no answer leaves them all. The next one is in view from then on.
pub proof fn an_answer_takes_one_question(
    q: &mut Questions,
    ans: &str,
    token: &str,
    now: u64,
    r: (Answered, Show),
    k: int,
)
    requires
        call_ensures(Questions::take_answer, (q, ans, token, now), r),
        old(q).pending@.len() > 0,
    ensures
        r.0 is Nothing ==> final(q).pending@ == old(q).pending@ && final(q).shown == old(q).shown,
        r.0 !is Nothing ==> final(q).pending@.len() == old(q).pending@.len() - 1,
        r.0 !is Nothing && 0 <= k < old(q).pending@.len() - 1 ==> final(q).pending@[k] == old(
            q,
        ).pending@[k + 1],
        r.0 !is Nothing && old(q).pending@.len() > 1 ==> r.1 is New && final(q).shown == now
            && final(q).open == old(q).open,
        r.0 !is Nothing && old(q).pending@.len() == 1 ==> r.1 is Closed && !final(q).open,
        r.0 is Nothing && now - old(q).shown >= 300_000_000 ==> r.1 is Again,
{
    answers_are_apart();
}

/// What was asked last is answered last, and a question is said at once only where no other waits.
pub proof fn questions_queue_up(q: &mut Questions, pid: &str, v: serde_json::Value, now: u64, r: bool, k: int)
    requires
        call_ensures(Questions::ask, (q, pid, v, now), r),
    ensures
        final(q).open,
        final(q).pending@.len() == old(q).pending@.len() + 1,
        0 <= k < old(q).pending@.len() ==> final(q).pending@[k] == old(q).pending@[k],
        final(q).pending@[old(q).pending@.len() as int].pid@ == pid@,
        final(q).pending@[old(q).pending@.len() as int].offer == v,
        r <==> old(q).pending@.len() == 0,
        r ==> final(q).shown == now,
        !r ==> final(q).shown == old(q).shown,
{
    let m = final(q).pending@;
    if 0 <= k < old(q).pending@.len() {
        assert(m.drop_last()[k] == m[k]);
    }
}

/// There is no question to begin with.
pub proof fn no_question_at_first(now: u64, r: Questions)
    requires
        call_ensures(Questions::new, (now,), r),
    ensures
        r.pending@.len() == 0,
        !r.open,
        r.shown == now,
{
}

/// A question goes where its link is gone and stays where it is live.
pub proof fn questions_go_with_their_links(q: &mut Questions, live: Vec<String>, now: u64, r: Show, k: int)
    requires
        call_ensures(Questions::purge, (q, &live, now), r),
        0 <= k < old(q).pending@.len(),
    ensures
        (exists|j: int| 0 <= j < live@.len() && (#[trigger] live@[j])@ == old(q).pending@[k].pid@)
            ==> final(q).pending@.contains(old(q).pending@[k]),
        forall|i: int|
            0 <= i < final(q).pending@.len() ==> exists|j: int|
                0 <= j < live@.len() && (#[trigger] live@[j])@ == (
                #[trigger] final(q).pending@[i]).pid@,
        final(q).pending@.len() <= old(q).pending@.len(),
        final(q).pending@.len() == 0 ==> r is Closed && !final(q).open,
        r is Closed ==> final(q).pending@.len() == 0,
        r is New ==> final(q).shown == now,
        r !is New ==> final(q).shown == old(q).shown,
        (exists|j: int| 0 <= j < live@.len() && (#[trigger] live@[j])@ == old(q).pending@[0].pid@)
            ==> r is Leave && final(q).pending@[0] == old(q).pending@[0],
{
    of_live_keeps(old(q).pending@, live@);
}

proof fn of_live_keeps(p: Seq<Question>, live: Seq<String>)
    ensures
        console::of_live(p, live).len() <= p.len(),
        forall|k: int|
            0 <= k < p.len() && keyed::listed(live, (#[trigger] p[k]).pid@) ==> console::of_live(
                p,
                live,
            ).contains(p[k]),
        forall|i: int|
            0 <= i < console::of_live(p, live).len() ==> keyed::listed(
                live,
                (#[trigger] console::of_live(p, live)[i]).pid@,
            ),
        p.len() > 0 && keyed::listed(live, p[0].pid@) ==> console::of_live(p, live).len() > 0
            && console::of_live(p, live)[0] == p[0],
    decreases p.len(),
{
    if p.len() > 0 {
        let q = p.drop_last();
        of_live_keeps(q, live);
        let was = console::of_live(q, live);
        let now = console::of_live(p, live);
        assert forall|k: int| 0 <= k < p.len() && keyed::listed(live, (#[trigger] p[k]).pid@) implies now.contains(
            p[k],
        ) by {
            if k < p.len() - 1 {
                assert(q[k] == p[k]);
                assert(was.contains(q[k]));
                let i = was.index_of(q[k]);
                assert(now[i] == p[k]);
            } else {
                assert(now[now.len() - 1] == p[k]);
            }
        }
        if p.len() > 1 {
            assert(q[0] == p[0]);
        }
    }
}

/// With a question open and nothing typed the keys of yes and no answer it, and no other key does;
/// the line stays empty.
pub proof fn yes_and_no_are_keys(line: &mut String, b: u8, open: bool, r: KeyStep)
    requires
        call_ensures(key, (line, b, open), r),
    ensures
        r is Answer ==> open && old(line)@.len() == 0 && final(line)@.len() == 0,
        open && old(line)@.len() == 0 ==> {
            &&& r == KeyStep::Answer('y') <==> b == 121 || b == 89
            &&& r == KeyStep::Answer('n') <==> b == 110 || b == 78
        },
        r == KeyStep::Answer('y') ==> b == 121 || b == 89,
        r == KeyStep::Answer('n') ==> b == 110 || b == 78,
{
}

/// Other keys edit the line: one that shows is added at its end, rubbing out takes the last one
/// back, and the end of the line hands it over without the blanks around it and starts anew.
pub proof fn keys_edit_the_line(line: &mut String, b: u8, r: KeyStep)
    requires
        call_ensures(key, (line, b, false), r),
    ensures
        b == 10 || b == 13 ==> (r matches KeyStep::Line(t) && t@ == text::trimmed(old(line)@))
            && final(line)@.len() == 0,
        (b == 127 || b == 8) && old(line)@.len() > 0 ==> r is Erase && final(line)@ == old(
            line,
        )@.subrange(0, old(line)@.len() - 1),
        (b == 127 || b == 8) && old(line)@.len() == 0 ==> r is Nothing && final(line)@.len() == 0,
        32 <= b < 127 || b >= 160 ==> r == KeyStep::Echo(b as char) && final(line)@ == old(
            line,
        )@.push(b as char),
        b < 32 && b != 8 && b != 10 && b != 13 || 128 <= b < 160 ==> r is Nothing && final(line)@
            == old(line)@,
{
}

/// A question that comes to the front is said, unless it is about the offer that was there before.
pub proof fn a_new_front_is_said(q: &mut Questions, live: Vec<String>, now: u64, r: Show)
    requires
        call_ensures(Questions::purge, (q, &live, now), r),
        old(q).pending@.len() > 0,
        final(q).pending@.len() > 0,
        !keyed::listed(live@, old(q).pending@[0].pid@),
    ensures
        frame::json(old(q).pending@[0].offer).member("id"@) != frame::json(
            final(q).pending@[0].offer,
        ).member("id"@) ==> r is New && final(q).shown == now,
        frame::json(old(q).pending@[0].offer).member("id"@) == frame::json(
            final(q).pending@[0].offer,
        ).member("id"@) && frame::json(final(q).pending@[0].offer).member("id"@) is Text ==> r is Leave
            && final(q).shown == old(q).shown,
        final(q).open == old(q).open,
{
}

/// Where there is no question nothing is shown.
pub proof fn no_question_shows_nothing(q: &mut Questions, live: Vec<String>, now: u64, r: Show)
    requires
        call_ensures(Questions::purge, (q, &live, now), r),
        old(q).pending@.len() == 0,
    ensures
        r is Leave,
        final(q).pending@.len() == 0,
        final(q).open == old(q).open,
        final(q).shown == old(q).shown,
{
}

} // verus!
