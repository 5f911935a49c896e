//! The frames of a sender: each file is offered, ended and asked about as what it is.

use vstd::prelude::*;
use vstd::string::*;
use crate::frame;
use crate::offer::{parse_offer, FileOffer};
use crate::outgoing;
use crate::outgoing::{
    end_msg, offer_msg, send_outcome, Delivered, Outbox, Outgoing, SendOutcome, StreamOf, Summary,
};
use crate::text;

verus! {

broadcast use frame::with_sets_one_member;

/// The keys of a frame are apart.
pub proof fn keys_are_apart()
    ensures
        "id"@.len() == 2,
        "sid"@.len() == 3,
        "full"@.len() == 4,
        "full"@[0] == 'f',
        "head"@.len() == 4,
        "head"@[0] == 'h',
        "name"@.len() == 4,
        "name"@[0] == 'n',
        "size"@.len() == 4,
        "size"@[0] == 's',
        "type"@.len() == 4,
        "type"@[0] == 't',
        "offset"@.len() == 6,
        "offset"@[0] == 'o',
        "resume"@.len() == 6,
        "resume"@[0] == 'r',
        "__consent"@.len() == 9,
        "__consent"@[0] == '_',
        "transfers"@.len() == 9,
        "transfers"@[0] == 't',
{
    reveal_strlit("id");
    reveal_strlit("sid");
    reveal_strlit("full");
    reveal_strlit("head");
    reveal_strlit("name");
    reveal_strlit("size");
    reveal_strlit("type");
    reveal_strlit("offset");
    reveal_strlit("resume");
    reveal_strlit("__consent");
    reveal_strlit("transfers");
}

/// How many of the first `n` files are like this.
pub open spec fn how_many(files: Seq<Outgoing>, n: int, like: spec_fn(Outgoing) -> bool) -> nat
    decreases n,
{
    if n <= 0 {
        0
    } else {
        how_many(files, n - 1, like) + if like(files[n - 1]) {
            1nat
        } else {
            0
        }
    }
}

proof fn how_many_of_the_first(files: Seq<Outgoing>, n: int, like: spec_fn(Outgoing) -> bool)
    requires
        0 <= n < files.len(),
    ensures
        how_many(files.drop_last(), n, like) == how_many(files, n, like),
    decreases n,
{
    if n > 0 {
        how_many_of_the_first(files, n - 1, like);
    }
}

proof fn how_many_grows(files: Seq<Outgoing>, m: int, n: int, like: spec_fn(Outgoing) -> bool)
    requires
        0 <= m <= n,
    ensures
        how_many(files, m, like) <= how_many(files, n, like),
    decreases n,
{
    if m < n {
        how_many_grows(files, m, n - 1, like);
    }
}

/// The frame offers this file.
pub open spec fn offers_file(v: frame::Json, o: Outgoing, resume: bool) -> bool {
    &&& v.member("type"@) == frame::Json::Text("file-offer"@)
    &&& v.member("id"@) == frame::Json::Text(o.id@)
    &&& v.member("sid"@) == frame::Json::Number(Some(o.sid as u64))
    &&& v.member("name"@) == frame::Json::Text(o.name@)
    &&& v.member("size"@) == frame::Json::Number(Some(o.size))
    &&& v.member("resume"@) == frame::Json::Bool(resume)
    &&& v.member("head"@) == match o.head {
        Some(s) => frame::Json::Text(s@),
        None => frame::Json::Null,
    }
    &&& v.member("full"@) == match o.full {
        Some(s) => frame::Json::Text(s@),
        None => frame::Json::Null,
    }
    &&& v.member("__consent"@) is Null
}

/// The offer is of this file, as a receiver reads it.
pub open spec fn reads_as(r: FileOffer, o: Outgoing, resume: bool) -> bool {
    &&& r.id@ == o.id@
    &&& r.sid == o.sid
    &&& r.raw_name@ == o.name@
    &&& r.size == o.size
    &&& r.head is Some <==> o.head is Some
    &&& o.head is Some ==> r.head->0@ == o.head->0@
    &&& r.full is Some <==> o.full is Some
    &&& o.full is Some ==> r.full->0@ == o.full->0@
    &&& r.resume == resume
    &&& !r.consented
}

/// The frame that offers a file says which file, over which stream, how large, with which digests
/// and whether it goes on; it never claims the operator's consent.
pub proof fn an_offer_says_which_file(o: Outgoing, resume: bool, v: serde_json::Value)
    requires
        call_ensures(offer_msg, (&o, resume), v),
    ensures
        offers_file(frame::json(v), o, resume),
{
    keys_are_apart();
}

/// A receiver reads from an offer what the sender offered.
pub proof fn an_offer_is_read_as_it_was_made(
    o: Outgoing,
    resume: bool,
    v: serde_json::Value,
    token: &str,
    r: FileOffer,
)
    requires
        call_ensures(offer_msg, (&o, resume), v),
        call_ensures(parse_offer, (&v, token), r),
    ensures
        reads_as(r, o, resume),
{
    keys_are_apart();
    outgoing::offer_is_read_as_meant(o, resume, token@, r);
}

/// The frame that ends a stream names the file and the stream.
pub proof fn an_end_says_which_stream(id: &str, sid: u32, v: serde_json::Value)
    requires
        call_ensures(end_msg, (id, sid), v),
    ensures
        frame::json(v).member("type"@) == frame::Json::Text("file-end"@),
        frame::json(v).member("id"@) == frame::Json::Text(id@),
        frame::json(v).member("sid"@) == frame::Json::Number(Some(sid as u64)),
{
    keys_are_apart();
}

proof fn offers_of_by_place(files: Seq<Outgoing>, k: int, like: spec_fn(Outgoing) -> bool)
    requires
        forall|o: Outgoing| #[trigger] like(o) == (!o.done),
        0 <= k < files.len(),
    ensures
        outgoing::offers_of(files).len() == how_many(files, files.len() as int, like),
        like(files[k]) ==> how_many(files, k, like) < outgoing::offers_of(files).len() && outgoing::offers_of(files)[how_many(
            files,
            k,
            like,
        ) as int] == outgoing::offer_json(files[k], files[k].accepted_once),
    decreases files.len(),
{
    let n = files.len() as int;
    let short = files.drop_last();
    how_many_of_the_first(files, n - 1, like);
    if n > 1 {
        let j = if k < n - 1 {
            k
        } else {
            0
        };
        offers_of_by_place(short, j, like);
        if k < n - 1 {
            how_many_of_the_first(files, k, like);
            assert(short[k] == files[k]);
        }
    }
}

proof fn resumes_of_by_place(files: Seq<Outgoing>, k: int, like: spec_fn(Outgoing) -> bool)
    requires
        forall|o: Outgoing| #[trigger] like(o) == (o.accepted_once && !o.done),
        0 <= k < files.len(),
    ensures
        outgoing::resumes_of(files).len() == how_many(files, files.len() as int, like),
        like(files[k]) ==> how_many(files, k, like) < outgoing::resumes_of(files).len() && outgoing::resumes_of(files)[how_many(
            files,
            k,
            like,
        ) as int] == outgoing::offer_json(files[k], true),
    decreases files.len(),
{
    let n = files.len() as int;
    let short = files.drop_last();
    how_many_of_the_first(files, n - 1, like);
    if n > 1 {
        let j = if k < n - 1 {
            k
        } else {
            0
        };
        resumes_of_by_place(short, j, like);
        if k < n - 1 {
            how_many_of_the_first(files, k, like);
            assert(short[k] == files[k]);
        }
    }
}

/// The ends of the open files, one by one.
pub proof fn ends_of_by_place(files: Seq<Outgoing>, k: int, like: spec_fn(Outgoing) -> bool)
    requires
        forall|o: Outgoing| #[trigger] like(o) == (!o.done),
        0 <= k < files.len(),
    ensures
        outgoing::ends_of(files).len() == how_many(files, files.len() as int, like),
        like(files[k]) ==> how_many(files, k, like) < outgoing::ends_of(files).len() && outgoing::ends_of(files)[how_many(
            files,
            k,
            like,
        ) as int] == outgoing::end_json(files[k].id@, files[k].sid),
    decreases files.len(),
{
    let n = files.len() as int;
    let short = files.drop_last();
    how_many_of_the_first(files, n - 1, like);
    if n > 1 {
        let j = if k < n - 1 {
            k
        } else {
            0
        };
        ends_of_by_place(short, j, like);
        if k < n - 1 {
            how_many_of_the_first(files, k, like);
            assert(short[k] == files[k]);
        }
    }
}

/// The files that are offered again, one by one.
pub proof fn reoffers_of_by_place(files: Seq<Outgoing>, state: frame::Json, k: int, like: spec_fn(Outgoing) -> bool)
    requires
        forall|o: Outgoing| #[trigger] like(o) == (outgoing::diverges(o, state)),
        0 <= k < files.len(),
    ensures
        outgoing::reoffers_of(files, state).len() == how_many(files, files.len() as int, like),
        like(files[k]) ==> how_many(files, k, like) < outgoing::reoffers_of(files, state).len() && outgoing::reoffers_of(files, state)[how_many(
            files,
            k,
            like,
        ) as int] == outgoing::offer_json(files[k], true),
    decreases files.len(),
{
    let n = files.len() as int;
    let short = files.drop_last();
    how_many_of_the_first(files, n - 1, like);
    if n > 1 {
        let j = if k < n - 1 {
            k
        } else {
            0
        };
        reoffers_of_by_place(short, state, j, like);
        if k < n - 1 {
            how_many_of_the_first(files, k, like);
            assert(short[k] == files[k]);
        }
    }
}

/// Over a link that came up each file that is not done is offered, in order and as what it is, to
/// go on where it was accepted before; what is done is not. A receiver reads each offer as that
/// file.
pub proof fn each_open_file_is_offered(
    b: Outbox,
    r: Vec<serde_json::Value>,
    k: int,
    token: &str,
    o: FileOffer,
)
    requires
        call_ensures(Outbox::offers, (&b,), r),
        0 <= k < b.files@.len(),
    ensures
        r@.len() == how_many(b.files@, b.files@.len() as int, |f: Outgoing| !f.done),
        !b.files@[k].done ==> ({
            let at = how_many(b.files@, k, |f: Outgoing| !f.done) as int;
            &&& at < r@.len()
            &&& offers_file(frame::json(r@[at]), b.files@[k], b.files@[k].accepted_once)
            &&& call_ensures(parse_offer, (&r@[at], token), o) ==> reads_as(
                o,
                b.files@[k],
                b.files@[k].accepted_once,
            )
        }),
{
    let like = |f: Outgoing| !f.done;
    offers_of_by_place(b.files@, k, like);
    keys_are_apart();
    assert(outgoing::jsons(r@).len() == r@.len());
    if !b.files@[k].done {
        let at = how_many(b.files@, k, like) as int;
        assert(outgoing::jsons(r@)[at] == frame::json(r@[at]));
        if call_ensures(parse_offer, (&r@[at], token), o) {
            outgoing::offer_is_read_as_meant(b.files@[k], b.files@[k].accepted_once, token@, o);
        }
    }
}

/// Over a link that stalled each file that was accepted and is not done is offered, in order and
/// as what it is, to go on with what the receiver has; nothing else is.
pub proof fn each_accepted_file_is_taken_up(b: Outbox, r: Vec<serde_json::Value>, k: int)
    requires
        call_ensures(Outbox::resumes, (&b,), r),
        0 <= k < b.files@.len(),
    ensures
        r@.len() == how_many(
            b.files@,
            b.files@.len() as int,
            |f: Outgoing| f.accepted_once && !f.done,
        ),
        b.files@[k].accepted_once && !b.files@[k].done ==> ({
            let at = how_many(b.files@, k, |f: Outgoing| f.accepted_once && !f.done) as int;
            at < r@.len() && offers_file(frame::json(r@[at]), b.files@[k], true)
        }),
{
    let like = |f: Outgoing| f.accepted_once && !f.done;
    resumes_of_by_place(b.files@, k, like);
    keys_are_apart();
    assert(outgoing::jsons(r@).len() == r@.len());
    if b.files@[k].accepted_once && !b.files@[k].done {
        let at = how_many(b.files@, k, like) as int;
        assert(outgoing::jsons(r@)[at] == frame::json(r@[at]));
    }
}

/// Where no word came, the end of each file that is not done is sent again, in order, for its own
/// stream.
pub proof fn each_open_file_is_ended_again(b: Outbox, r: Vec<serde_json::Value>, k: int)
    requires
        call_ensures(Outbox::ends, (&b,), r),
        0 <= k < b.files@.len(),
    ensures
        r@.len() == how_many(b.files@, b.files@.len() as int, |f: Outgoing| !f.done),
        !b.files@[k].done ==> ({
            let at = how_many(b.files@, k, |f: Outgoing| !f.done) as int;
            let v = frame::json(r@[at]);
            &&& at < r@.len()
            &&& v.member("type"@) == frame::Json::Text("file-end"@)
            &&& v.member("id"@) == frame::Json::Text(b.files@[k].id@)
            &&& v.member("sid"@) == frame::Json::Number(Some(b.files@[k].sid as u64))
        }),
{
    let like = |f: Outgoing| !f.done;
    ends_of_by_place(b.files@, k, like);
    keys_are_apart();
    assert(outgoing::jsons(r@).len() == r@.len());
    if !b.files@[k].done {
        let at = how_many(b.files@, k, like) as int;
        assert(outgoing::jsons(r@)[at] == frame::json(r@[at]));
    }
}

/// The peer says that it holds less of this file than there is.
pub open spec fn holds_less(state: frame::Json, o: Outgoing) -> bool {
    state.member("transfers"@).member(o.id@).count() matches Some(n) && n < o.size
}

/// A file that was taken for done and of which the peer holds less is open again and offered, to
/// go on; every other file is left as it is and is not offered.
pub proof fn what_the_peer_lost_is_offered_again(
    b: &mut Outbox,
    state: serde_json::Value,
    r: Vec<serde_json::Value>,
    k: int,
)
    requires
        call_ensures(Outbox::reconcile, (b, &state), r),
        0 <= k < old(b).files@.len(),
    ensures
        final(b).files@.len() == old(b).files@.len(),
        r@.len() == how_many(
            old(b).files@,
            old(b).files@.len() as int,
            |f: Outgoing| f.done && holds_less(frame::json(state), f),
        ),
        ({
            let was = old(b).files@[k];
            let now = final(b).files@[k];
            let at = how_many(
                old(b).files@,
                k,
                |f: Outgoing| f.done && holds_less(frame::json(state), f),
            ) as int;
            if was.done && holds_less(frame::json(state), was) {
                &&& !now.done
                &&& !now.acked
                &&& now == (Outgoing { done: now.done, acked: now.acked, ..was })
                &&& at < r@.len()
                &&& offers_file(frame::json(r@[at]), was, true)
            } else {
                now == was
            }
        }),
{
    let s = frame::json(state);
    let like = |f: Outgoing| f.done && holds_less(s, f);
    assert(like =~= |f: Outgoing| f.done && holds_less(frame::json(state), f));
    assert forall|o: Outgoing| #[trigger] like(o) == outgoing::diverges(o, s) by {}
    reoffers_of_by_place(old(b).files@, s, k, like);
    keys_are_apart();
    assert(outgoing::jsons(r@).len() == r@.len());
    let at = how_many(old(b).files@, k, like) as int;
    if at < r@.len() {
        assert(outgoing::jsons(r@)[at] == frame::json(r@[at]));
    }
}

/// The first file called `id` is at `k`.
pub open spec fn first_called(files: Seq<Outgoing>, id: Seq<char>, k: int) -> bool {
    0 <= k < files.len() && files[k].id@ == id && forall|j: int|
        0 <= j < k ==> (#[trigger] files[j]).id@ != id
}

proof fn first_is_first(files: Seq<Outgoing>, id: Seq<char>, k: int)
    requires
        first_called(files, id, k),
    ensures
        outgoing::is_first(files, id, k),
        forall|i: int| #[trigger] outgoing::is_first(files, id, i) ==> i == k,
{
    assert forall|i: int| #[trigger] outgoing::is_first(files, id, i) implies i == k by {
        if i < k {
            assert(files[i].id@ != id);
        }
        if k < i {
            assert(files[k].id@ != id);
        }
    }
}

proof fn nobody_is_called(files: Seq<Outgoing>, id: Seq<char>)
    requires
        forall|j: int| 0 <= j < files.len() ==> (#[trigger] files[j]).id@ != id,
    ensures
        !outgoing::known(files, id),
{
}

/// A file is found by its id, the first of that name.
pub proof fn a_file_is_found_by_its_id(b: Outbox, id: &str, r: Option<usize>, k: int)
    requires
        call_ensures(Outbox::find, (&b, id), r),
    ensures
        first_called(b.files@, id@, k) ==> r == Some(k as usize),
        r matches Some(i) ==> first_called(b.files@, id@, i as int),
{
    if first_called(b.files@, id@, k) {
        first_is_first(b.files@, id@, k);
    }
}

/// An acceptance is for the file it names and from the byte it names: that file has been accepted
/// from then on, and nothing else changes.
pub proof fn an_acceptance_is_for_its_file(
    b: &mut Outbox,
    v: serde_json::Value,
    r: (String, u64),
    id: Seq<char>,
    k: int,
    j: int,
)
    requires
        call_ensures(Outbox::accepted, (b, &v), r),
        frame::json(v).member("id"@) == frame::Json::Text(id),
        first_called(old(b).files@, id, k),
        0 <= j < old(b).files@.len(),
    ensures
        r.0@ == id,
        frame::json(v).member("offset"@) matches frame::Json::Number(Some(n)) ==> r.1 == n,
        frame::json(v).member("offset"@) is Null ==> r.1 == 0,
        final(b).files@.len() == old(b).files@.len(),
        final(b).files@[k].accepted_once,
        final(b).files@[k] == (Outgoing { accepted_once: true, ..old(b).files@[k] }),
        j != k ==> final(b).files@[j] == old(b).files@[j],
{
    first_is_first(old(b).files@, id, k);
}

/// Word about a file that is not ours changes nothing.
pub proof fn word_about_another_file_changes_nothing(
    a: &mut Outbox,
    d: &mut Outbox,
    c: &mut Outbox,
    s: &mut Outbox,
    e: &mut Outbox,
    v: serde_json::Value,
    id: &str,
    offset: u64,
    now: u64,
    r: ((String, u64), Option<String>, Option<Delivered>, Result<StreamOf, String>, Option<Summary>),
)
    requires
        frame::json(v).member("id"@) == frame::Json::Text(id@),
        forall|j: int| 0 <= j < old(a).files@.len() ==> (#[trigger] old(a).files@[j]).id@ != id@,
        *old(d) == *old(a),
        *old(c) == *old(a),
        *old(s) == *old(a),
        *old(e) == *old(a),
        call_ensures(Outbox::accepted, (a, &v), r.0),
        call_ensures(Outbox::refused, (d, &v), r.1),
        call_ensures(Outbox::delivered, (c, &v, now), r.2),
        call_ensures(Outbox::begin_stream, (s, id, offset, now), r.3),
        call_ensures(Outbox::end_stream, (e, id, now), r.4),
    ensures
        final(a).files@ == old(a).files@,
        final(d).files@ == old(d).files@,
        final(c).files@ == old(c).files@,
        final(s).files@ == old(s).files@,
        final(e).files@ == old(e).files@,
        r.1 is None,
        r.2 is None,
        r.3 is Err && r.3->Err_0@ == "unknown transfer "@ + id@,
        r.4 is None,
{
    nobody_is_called(old(a).files@, id@);
}

/// The bytes of a file begin to go out over its own stream, under its own name and of its own size,
/// and what is left after the offset is what goes.
pub proof fn a_stream_carries_its_file(
    b: &mut Outbox,
    id: &str,
    offset: u64,
    now: u64,
    r: Result<StreamOf, String>,
    k: int,
    j: int,
)
    requires
        call_ensures(Outbox::begin_stream, (b, id, offset, now), r),
        first_called(old(b).files@, id@, k),
        0 <= j < old(b).files@.len(),
    ensures
        r matches Ok(s) && s.sid == old(b).files@[k].sid && s.name@ == old(b).files@[k].name@
            && s.size == old(b).files@[k].size,
        final(b).files@.len() == old(b).files@.len(),
        final(b).files@[k].stream_started == Some(now),
        offset <= old(b).files@[k].size ==> final(b).files@[k].stream_bytes + offset == old(
            b,
        ).files@[k].size,
        offset > old(b).files@[k].size ==> final(b).files@[k].stream_bytes == 0,
        final(b).files@[k] == (Outgoing {
            stream_started: final(b).files@[k].stream_started,
            stream_bytes: final(b).files@[k].stream_bytes,
            ..old(b).files@[k]
        }),
        j != k ==> final(b).files@[j] == old(b).files@[j],
{
    first_is_first(old(b).files@, id@, k);
}

/// That its bytes have left makes a file sent. It is done with that only where it has no digest for
/// the receiver to confirm it by.
pub proof fn sent_is_done_only_without_a_digest(
    b: &mut Outbox,
    id: &str,
    now: u64,
    r: Option<Summary>,
    k: int,
    j: int,
)
    requires
        call_ensures(Outbox::end_stream, (b, id, now), r),
        first_called(old(b).files@, id@, k),
        0 <= j < old(b).files@.len(),
    ensures
        ({
            let was = old(b).files@[k];
            let then = final(b).files@[k];
            &&& then.sent
            &&& was.full is Some ==> r is None && then.done == was.done && then.acked == was.acked
            &&& was.full is None ==> r is Some && then.done && then.acked
            &&& then == (Outgoing { sent: true, done: then.done, acked: then.acked, ..was })
            &&& r matches Some(s) ==> s.name@ == was.name@ && s.bytes == was.stream_bytes && (
            was.stream_started matches Some(t) ==> (now >= t ==> s.nanos == now - t) && (now < t
                ==> s.nanos == 0))
        }),
        final(b).files@.len() == old(b).files@.len(),
        j != k ==> final(b).files@[j] == old(b).files@[j],
{
    first_is_first(old(b).files@, id@, k);
}

/// A file that is not wanted is declined and done, and said so by its name.
pub proof fn a_refusal_is_for_its_file(
    b: &mut Outbox,
    v: serde_json::Value,
    r: Option<String>,
    id: Seq<char>,
    k: int,
    j: int,
)
    requires
        call_ensures(Outbox::refused, (b, &v), r),
        frame::json(v).member("id"@) == frame::Json::Text(id),
        first_called(old(b).files@, id, k),
        0 <= j < old(b).files@.len(),
    ensures
        final(b).files@[k].declined && final(b).files@[k].done,
        final(b).files@[k] == (Outgoing { declined: true, done: true, ..old(b).files@[k] }),
        final(b).files@.len() == old(b).files@.len(),
        j != k ==> final(b).files@[j] == old(b).files@[j],
        r matches Some(l) && l@ == "declined: "@ + old(b).files@[k].name@,
{
    first_is_first(old(b).files@, id, k);
}

/// The receiver's word that a file arrived whole makes it confirmed and done, and is news once.
pub proof fn a_delivery_counts_once(
    b: &mut Outbox,
    c: &mut Outbox,
    v: serde_json::Value,
    now: u64,
    later: u64,
    r: Option<Delivered>,
    s: Option<Delivered>,
    id: Seq<char>,
    k: int,
    j: int,
)
    requires
        call_ensures(Outbox::delivered, (b, &v, now), r),
        *old(c) == *final(b),
        call_ensures(Outbox::delivered, (c, &v, later), s),
        frame::json(v).member("id"@) == frame::Json::Text(id),
        first_called(old(b).files@, id, k),
        0 <= j < old(b).files@.len(),
        !old(b).files@[k].acked,
    ensures
        final(b).files@[k] == (Outgoing { acked: true, done: true, ..old(b).files@[k] }),
        j != k ==> final(b).files@[j] == old(b).files@[j],
        final(b).files@.len() == old(b).files@.len(),
        r matches Some(d) && d.line@ == "    "@ + old(b).files@[k].name@
            + " delivered + verified (whole-file sha256 matched)"@,
        r is Some && old(b).files@[k].stream_started is None ==> r->0.summary is None,
        r is Some && old(b).files@[k].stream_started is Some ==> r->0.summary is Some
            && r->0.summary->0.name@ == old(b).files@[k].name@ && r->0.summary->0.bytes
            == old(b).files@[k].stream_bytes && (now >= old(b).files@[k].stream_started->0
            ==> r->0.summary->0.nanos == now - old(b).files@[k].stream_started->0),
        s is None,
        final(c).files@ == final(b).files@,
{
    first_is_first(old(b).files@, id, k);
    assert(first_called(final(b).files@, id, k)) by {
        assert forall|i: int| 0 <= i < k implies (#[trigger] final(b).files@[i]).id@ != id by {
            assert(old(b).files@[i].id@ != id);
        }
    }
    first_is_first(final(b).files@, id, k);
}

/// Files are on their way while one of them was accepted and not sent; they are all sent once each
/// is sent or not wanted; and they are all done once each is.
pub proof fn where_the_files_stand(
    b: Outbox,
    busy: bool,
    sent: bool,
    done: bool,
    k: int,
)
    requires
        call_ensures(Outbox::busy, (&b,), busy),
        call_ensures(Outbox::all_sent, (&b,), sent),
        call_ensures(Outbox::all_done, (&b,), done),
    ensures
        busy <==> exists|i: int|
            0 <= i < b.files@.len() && (#[trigger] b.files@[i]).accepted_once && !b.files@[i].sent,
        sent <==> b.files@.len() > 0 && forall|i: int|
            0 <= i < b.files@.len() ==> (#[trigger] b.files@[i]).sent || b.files@[i].declined,
        done <==> b.files@.len() > 0 && forall|i: int|
            0 <= i < b.files@.len() ==> (#[trigger] b.files@[i]).done,
        b.files@.len() == 0 ==> !busy && !sent && !done,
        0 <= k < b.files@.len() && !b.files@[k].done ==> !done,
        0 <= k < b.files@.len() && !b.files@[k].sent && !b.files@[k].declined ==> !sent,
{
}

proof fn tally_counts(files: Seq<Outgoing>)
    ensures
        outgoing::delivered_count(files) == how_many(
            files,
            files.len() as int,
            |f: Outgoing| f.done && !f.declined,
        ),
        outgoing::declined_count(files) == how_many(
            files,
            files.len() as int,
            |f: Outgoing| f.declined,
        ),
    decreases files.len(),
{
    if files.len() > 0 {
        tally_counts(files.drop_last());
        how_many_of_the_first(files, files.len() - 1, |f: Outgoing| f.done && !f.declined);
        how_many_of_the_first(files, files.len() - 1, |f: Outgoing| f.declined);
    }
}

/// The tally is the number of files that are done and wanted, and that of those that are not
/// wanted.
pub proof fn the_tally_counts_files(b: Outbox, r: (usize, usize))
    requires
        call_ensures(Outbox::tally, (&b,), r),
    ensures
        r.0 == how_many(b.files@, b.files@.len() as int, |f: Outgoing| f.done && !f.declined),
        r.1 == how_many(b.files@, b.files@.len() as int, |f: Outgoing| f.declined),
{
    tally_counts(b.files@);
}

/// The names of the open files, one by one.
pub proof fn open_names_by_place(files: Seq<Outgoing>, k: int, like: spec_fn(Outgoing) -> bool)
    requires
        forall|o: Outgoing| #[trigger] like(o) == !o.done,
        0 <= k < files.len(),
    ensures
        Outbox::open_names(files).len() == how_many(files, files.len() as int, like),
        like(files[k]) ==> how_many(files, k, like) < Outbox::open_names(files).len()
            && Outbox::open_names(files)[how_many(files, k, like) as int] == files[k].name@,
    decreases files.len(),
{
    let n = files.len() as int;
    let short = files.drop_last();
    how_many_of_the_first(files, n - 1, like);
    if n > 1 {
        let j = if k < n - 1 {
            k
        } else {
            0
        };
        open_names_by_place(short, j, like);
        if k < n - 1 {
            how_many_of_the_first(files, k, like);
            assert(short[k] == files[k]);
        }
    }
}

/// What is not confirmed is named, each file that is not done and in order.
pub proof fn each_open_file_is_named(b: Outbox, r: Vec<String>, k: int)
    requires
        call_ensures(Outbox::unconfirmed, (&b,), r),
        0 <= k < b.files@.len(),
    ensures
        r@.len() == how_many(b.files@, b.files@.len() as int, |f: Outgoing| !f.done),
        !b.files@[k].done ==> ({
            let at = how_many(b.files@, k, |f: Outgoing| !f.done) as int;
            at < r@.len() && r@[at]@ == b.files@[k].name@
        }),
{
    let like = |f: Outgoing| !f.done;
    open_names_by_place(b.files@, k, like);
    assert(frame::views(r@).len() == r@.len());
    if !b.files@[k].done {
        let at = how_many(b.files@, k, like) as int;
        assert(frame::views(r@)[at] == r@[at]@);
    }
}

/// A send of which something was turned down did not succeed; any other did. What is said of it
/// tells how much arrived and how much was turned down.
pub proof fn a_send_succeeds_unless_turned_down(
    completed: usize,
    declined: usize,
    o: SendOutcome,
    l: String,
    v: Result<(), String>,
)
    requires
        call_ensures(send_outcome, (completed, declined), o),
        call_ensures(SendOutcome::line, (&o,), l),
        call_ensures(SendOutcome::verdict, (&o,), v),
    ensures
        v is Ok <==> declined == 0,
        declined == 0 ==> o == (SendOutcome::Complete { completed }) && l@ == "done."@,
        declined > 0 ==> o == (SendOutcome::Declined { completed, declined }) && v->Err_0@
            == "send incomplete: "@ + text::decimal(completed as nat) + " delivered, "@
            + text::decimal(declined as nat) + " declined"@,
        declined > 0 && completed == 0 ==> l@ == "no files delivered ("@ + text::decimal(
            declined as nat,
        ) + " declined)."@,
        declined > 0 && completed > 0 ==> l@ == "partial: "@ + text::decimal(completed as nat)
            + " delivered, "@ + text::decimal(declined as nat) + " declined."@,
{
}

/// How long the bytes of a file took is told where they were seen to go out, and is nothing
/// otherwise.
pub proof fn how_long_a_file_took(b: &mut Outbox, id: &str, now: u64, r: Option<Summary>, k: int)
    requires
        call_ensures(Outbox::end_stream, (b, id, now), r),
        first_called(old(b).files@, id@, k),
        old(b).files@[k].full is None,
    ensures
        r is Some,
        old(b).files@[k].stream_started is None ==> r->0.nanos == 0,
        old(b).files@[k].stream_started is Some && old(b).files@[k].stream_started->0 <= now
            ==> r->0.nanos == now - old(b).files@[k].stream_started->0,
{
    first_is_first(old(b).files@, id@, k);
}

} // verus!
