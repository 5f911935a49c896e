//! What becomes of a file offer: whether it is looked at, what is read from it, whether it waits,
//! and what the answer is.

use vstd::prelude::*;
use vstd::string::*;
use crate::assembly;
use crate::assembly::Assembly;
use crate::frame;
use crate::keyed;
use crate::keyed::Keyed;
use crate::offer;
use crate::offer::{
    count_member, decide_offer, effective_full, identity_hold, legacy_ok, offer_gate, optional_text,
    parse_offer, resume_point, text_member, Decision, FileOffer, Gate, GateOutcome, IdentityState,
    PartFound, Standing,
};
use crate::offer_flow;
use crate::offer_flow::{
    arrive, begin, begin_stream, part_names, reply, weigh, Arrival, Reply, Taking, Weighed,
};
use crate::recv_files::IncomingFile;
use crate::shared_defs::PartMeta;

verus! {

broadcast use frame::with_sets_one_member;

proof fn keys_are_apart()
    ensures
        "id"@.len() == 2,
        "type"@.len() == 4,
        "offset"@.len() == 6,
{
    reveal_strlit("id");
    reveal_strlit("type");
    reveal_strlit("offset");
}

/// The sender may offer: no code was typed, or it is the one that proved to know it.
pub open spec fn may_offer(s: Standing) -> bool {
    !s.code_path || (s.pake_done && s.bound)
}

/// The frame says that the wait for the fleet is over for it.
pub open spec fn waited_for_fleet(v: serde_json::Value) -> bool {
    frame::json(v).member("__fleet_waited"@) == frame::Json::Bool(true)
}

/// Only the sender that may offer is listened to; while the ceremony with another still runs, its
/// offer is kept for later. An offer waits for the fleet identity at most once.
pub proof fn only_who_may_offer_is_heard(s: Standing, v: serde_json::Value, r: Gate)
    requires
        call_ensures(offer_gate, (&s, &v), r),
    ensures
        r is Consider ==> may_offer(s),
        may_offer(s) && !s.fleet_pending ==> r is Consider,
        may_offer(s) && waited_for_fleet(v) ==> r is Consider,
        may_offer(s) && s.fleet_pending && !waited_for_fleet(v) ==> r is Defer,
        !may_offer(s) && s.in_ceremony && !s.pake_done ==> r is Buffer,
        !may_offer(s) && s.pake_done ==> r is Ignore,
        !may_offer(s) && !s.in_ceremony ==> r is Ignore,
{
}

/// An offer that came is read where its sender is heard, and otherwise dropped, kept or put off as
/// its standing says.
pub proof fn an_offer_is_read_where_its_sender_is_heard(
    v: serde_json::Value,
    token: &str,
    s: Standing,
    g: Gate,
    r: Arrival,
    o: FileOffer,
)
    requires
        call_ensures(offer_gate, (&s, &v), g),
        call_ensures(arrive, (&v, token, &s), r),
    ensures
        r is Buffer <==> g is Buffer,
        r is Ignore <==> g is Ignore,
        r is Defer <==> g is Defer,
        r is Consider <==> g is Consider,
        r is Consider ==> may_offer(s),
        r == Arrival::Consider(o) ==> read_from(v, token@, o),
{
}

/// The offer is what the members of the frame say, one by one.
pub open spec fn read_from(v: serde_json::Value, token: Seq<char>, o: FileOffer) -> bool {
    let f = frame::json(v);
    &&& f.member("id"@) matches frame::Json::Text(s) ==> o.id@ == s
    &&& f.member("id"@) !is Text ==> o.id@.len() == 0
    &&& f.member("sid"@) matches frame::Json::Number(Some(n)) ==> o.sid as int == n as int % 0x1_0000_0000
    &&& f.member("sid"@) is Null ==> o.sid == 0
    &&& f.member("name"@) matches frame::Json::Text(s) ==> o.raw_name@ == s
    &&& f.member("name"@) !is Text ==> o.raw_name@ == "file.bin"@
    &&& f.member("size"@) matches frame::Json::Number(Some(n)) ==> o.size == n
    &&& f.member("size"@) is Null ==> o.size == 0
    &&& f.member("head"@) matches frame::Json::Text(s) ==> o.head is Some && o.head->0@ == s
    &&& f.member("head"@) !is Text ==> o.head is None
    &&& f.member("full"@) matches frame::Json::Text(s) ==> o.full is Some && o.full->0@ == s
    &&& f.member("full"@) !is Text ==> o.full is None
    &&& o.resume <==> f.member("resume"@) == frame::Json::Bool(true)
    &&& o.consented <==> f.member("__consent"@) == frame::Json::Text(token)
}

/// What is read from an offer is what its members say.
pub proof fn an_offer_is_what_its_members_say(v: serde_json::Value, token: &str, o: FileOffer)
    requires
        call_ensures(parse_offer, (&v, token), o),
    ensures
        read_from(v, token@, o),
{
}

/// A member is read as what it is, and as the default where it is not there.
pub proof fn members_are_read_as_they_are(
    v: serde_json::Value,
    key: &str,
    default: &str,
    t: String,
    o: Option<String>,
    n: u64,
)
    requires
        call_ensures(text_member, (&v, key, default), t),
        call_ensures(optional_text, (&v, key), o),
        call_ensures(count_member, (&v, key), n),
    ensures
        frame::json(v).member(key@) matches frame::Json::Text(s) ==> t@ == s && o is Some && o->0@
            == s,
        frame::json(v).member(key@) !is Text ==> t@ == default@ && o is None,
        frame::json(v).member(key@) matches frame::Json::Number(Some(m)) ==> n == m,
        frame::json(v).member(key@) !is Number ==> n == 0,
{
}

/// What is there is of the offered file: kept with the same size, no longer than it, and with the
/// same head where both heads are known.
pub open spec fn is_of_the_file(part: Option<PartFound>, size: u64, head: Option<String>) -> bool {
    &&& part is Some
    &&& part->0.meta is Some
    &&& part->0.meta->0.size == size
    &&& part->0.len <= size
    &&& part->0.meta->0.head is Some && head is Some ==> part->0.meta->0.head->0@ == head->0@
}

/// A transfer is taken up after what is there of its own file, and from the start otherwise.
pub proof fn only_its_own_bytes_are_taken_up(
    part: Option<PartFound>,
    size: u64,
    head: Option<String>,
    r: (u64, Option<String>),
)
    requires
        call_ensures(resume_point, (part, size, &head), r),
    ensures
        r.0 <= size,
        is_of_the_file(part, size, head) ==> r.0 == part->0.len && r.1 == part->0.meta->0.full,
        !is_of_the_file(part, size, head) ==> r.0 == 0 && r.1 is None,
{
}

/// Over a typed code an offer of a sender that is not known waits: while the link comes up, and then
/// twenty seconds from the first look at it. Once it is over it is not begun again.
pub proof fn an_unknown_sender_is_waited_for(
    holds: &mut Keyed<u64>,
    pid: &str,
    authoritative: bool,
    id: IdentityState,
    now: u64,
    r: bool,
)
    requires
        call_ensures(identity_hold, (holds, pid, true, authoritative, &id, now), r),
        !id.proven,
        !id.device_known,
    ensures
        !id.link_ready ==> r && *final(holds) == *old(holds),
        id.link_ready && !old(holds)@.contains_key(pid@) ==> r && final(holds)@.contains_key(pid@)
            && final(holds)@[pid@] == now,
        id.link_ready && old(holds)@.contains_key(pid@) && now >= old(holds)@[pid@] ==> (r <==> now
            - old(holds)@[pid@] < 20_000_000_000) && *final(holds) == *old(holds),
{
}

/// Otherwise an offer waits only while capabilities decide and a challenge is unanswered.
pub proof fn a_known_sender_is_waited_for_while_challenged(
    holds: &mut Keyed<u64>,
    pid: &str,
    code_path: bool,
    authoritative: bool,
    id: IdentityState,
    now: u64,
    r: bool,
)
    requires
        call_ensures(identity_hold, (holds, pid, code_path, authoritative, &id, now), r),
        !code_path || id.proven || id.device_known,
    ensures
        r <==> authoritative && id.challenged && !id.proven,
        *final(holds) == *old(holds),
{
}

/// The clock of one sender is not that of another.
pub proof fn one_wait_does_not_touch_another(
    holds: &mut Keyed<u64>,
    pid: &str,
    code_path: bool,
    authoritative: bool,
    id: IdentityState,
    now: u64,
    r: bool,
    other: Seq<char>,
)
    requires
        call_ensures(identity_hold, (holds, pid, code_path, authoritative, &id, now), r),
        other != pid@,
    ensures
        final(holds)@.contains_key(other) == old(holds)@.contains_key(other),
        old(holds)@.contains_key(other) ==> final(holds)@[other] == old(holds)@[other],
{
}

/// A daemon takes files from trusted links alone. Otherwise a yes to everything, a yes to this
/// offer, a trusted link, or bytes that are there of a transfer that goes on each will do, and
/// nothing else.
pub proof fn what_makes_an_offer_fit(
    daemon: bool,
    yes: bool,
    consented: bool,
    trusted: bool,
    resume: bool,
    offset: u64,
    r: bool,
)
    requires
        call_ensures(legacy_ok, (daemon, yes, consented, trusted, resume, offset), r),
    ensures
        trusted ==> r,
        daemon && !trusted ==> !r,
        !daemon && (yes || consented) ==> r,
        !daemon && resume && offset > 0 ==> r,
        !trusted && !yes && !consented && !(resume && offset > 0) ==> !r,
{
}

/// An offer is accepted where nothing stands against it and it was let through, and the operator is
/// asked only at a terminal, outside a daemon, where no reason was given.
pub proof fn a_decision_follows_the_capabilities(
    g: GateOutcome,
    name: &str,
    sender: &str,
    daemon: bool,
    tty: bool,
    r: Decision,
)
    requires
        call_ensures(decide_offer, (&g, name, sender, daemon, tty), r),
    ensures
        g.hard_reason is Some ==> r is Decline,
        g.hard_reason is None && g.allowed ==> r is Accept,
        g.hard_reason is None && !g.allowed && (daemon || !tty || g.reason is Some) ==> r is Decline,
        g.hard_reason is None && !g.allowed && !daemon && tty && g.reason is None ==> r is Ask,
        r matches Decision::Decline { line, request } ==> {
            &&& request <==> g.hard_reason is Some && daemon
            &&& g.hard_reason matches Some(why) ==> line@ == "  declined "@ + name@ + " from "@ + sender@
                + " ("@ + why@ + ")"@
            &&& g.hard_reason is None && g.reason is Some ==> line@ == "  declined "@ + name@
                + " from "@ + sender@ + " ("@ + g.reason->0@ + ")"@
            &&& g.hard_reason is None && g.reason is None && daemon ==> line@ == "  declined "@ + name@
                + " from "@ + sender@ + " ("@ + "unverified peer"@ + ")"@
            &&& g.hard_reason is None && g.reason is None && !daemon ==> line@ == "  declined "@ + name@
                + " from "@ + sender@ + " ("@ + "no tty, use -y to auto-accept"@ + ")"@
        },
{
}

/// The digest to compare is the one offered, and where none was, the one kept.
pub proof fn the_offered_digest_comes_first(offered: Option<String>, prior: Option<String>, r: Option<String>)
    requires
        call_ensures(effective_full, (offered, prior), r),
    ensures
        offered is Some ==> r == offered,
        offered is None ==> r == prior,
{
}

/// An offer that does not wait is weighed: what is there of its own file counts, and so does what
/// makes it fit.
pub proof fn an_offer_is_weighed_by_what_is_there(
    o: FileOffer,
    part: Option<PartFound>,
    holds: &mut Keyed<u64>,
    pid: &str,
    code_path: bool,
    trusted: bool,
    id: IdentityState,
    t: Taking,
    now: u64,
    r: Option<Weighed>,
)
    requires
        call_ensures(weigh, (&o, part, holds, pid, code_path, trusted, &id, &t, now), r),
    ensures
        r matches Some(w) ==> {
            let there = is_of_the_file(part, o.size, o.head);
            &&& there ==> w.offset == part->0.len && w.prior == part->0.meta->0.full
            &&& !there ==> w.offset == 0 && w.prior is None
            &&& trusted ==> w.fit
            &&& t.daemon && !trusted ==> !w.fit
            &&& !t.daemon && (t.yes || o.consented || (o.resume && w.offset > 0)) ==> w.fit
            &&& !trusted && !t.yes && !o.consented && !(o.resume && w.offset > 0) ==> !w.fit
        },
        code_path && !id.proven && !id.device_known && !id.link_ready ==> r is None,
        code_path && !id.proven && !id.device_known && id.link_ready && !old(holds)@.contains_key(
            pid@,
        ) ==> r is None && final(holds)@ == old(holds)@.insert(pid@, now),
        code_path && !id.proven && !id.device_known && id.link_ready && old(holds)@.contains_key(
            pid@,
        ) && now >= old(holds)@[pid@] ==> (r is None <==> now - old(holds)@[pid@] < 20_000_000_000),
        !code_path || id.proven || id.device_known ==> (r is None <==> t.authoritative
            && id.challenged && !id.proven) && final(holds)@ == old(holds)@,
{
}

/// Someone whose link flows writes into this partial file.
pub open spec fn taken(files: Seq<IncomingFile>, part: Seq<char>, flowing: Seq<String>) -> bool {
    exists|i: int, f: int|
        0 <= i < files.len() && 0 <= f < flowing.len() && (#[trigger] files[i]).part_path@ == part && (
        #[trigger] flowing[f])@ == files[i].peer@
}

proof fn taken_is_flowing(files: Seq<IncomingFile>, part: Seq<char>, flowing: Seq<String>)
    ensures
        taken(files, part, flowing) == assembly::flowing_into(files, part, flowing),
{
    if taken(files, part, flowing) {
        let (i, f) = choose|i: int, f: int|
            0 <= i < files.len() && 0 <= f < flowing.len() && (#[trigger] files[i]).part_path@ == part
                && (#[trigger] flowing[f])@ == files[i].peer@;
        assert(keyed::listed(flowing, files[i].peer@));
    }
    if assembly::flowing_into(files, part, flowing) {
        let i = choose|i: int|
            0 <= i < files.len() && (#[trigger] files[i]).part_path@ == part && keyed::listed(
                flowing,
                files[i].peer@,
            );
        let f = choose|f: int| 0 <= f < flowing.len() && (#[trigger] flowing[f])@ == files[i].peer@;
        assert(files[i].part_path@ == part && flowing[f]@ == files[i].peer@);
    }
}

/// The answer to an offer follows the capabilities: what is let in is streamed, opened, or left where it is
/// on its way already; what is not is asked about or declined, and the sender is told by the id of
/// its own offer.
pub proof fn an_answer_follows_the_capabilities(
    o: FileOffer,
    name: &str,
    part_path: &str,
    sender: &str,
    w: Weighed,
    g: GateOutcome,
    t: Taking,
    a: &mut Assembly,
    flowing: Vec<String>,
    r: Reply,
)
    requires
        call_ensures(reply, (&o, name, part_path, sender, &w, &g, &t, a, &flowing), r),
    ensures
        ({
            let busy = taken(old(a).files@, part_path@, flowing@);
            let let_in = g.hard_reason is None && g.allowed;
            &&& let_in && t.to_stdout ==> r is Stream
            &&& let_in && !t.to_stdout && busy ==> r is Duplicate
            &&& let_in && !t.to_stdout && !busy ==> r is Open
            &&& !let_in && (g.hard_reason is Some || g.reason is Some || t.daemon || !t.tty)
                ==> r is Decline
            &&& !let_in && g.hard_reason is None && g.reason is None && !t.daemon && t.tty ==> r is Ask
            &&& r !is Open ==> final(a).files@ == old(a).files@
            &&& r is Open ==> forall|i: int|
                0 <= i < final(a).files@.len() ==> part_path@.len() == 0 || (
                #[trigger] final(a).files@[i]).part_path@ != part_path@
            &&& final(a).completed == old(a).completed
        }),
        r matches Reply::Decline { frame: f, line, request } ==> {
            &&& frame::json(f).member("type"@) == frame::Json::Text("file-decline"@)
            &&& frame::json(f).member("id"@) == frame::Json::Text(o.id@)
            &&& request <==> g.hard_reason is Some && t.daemon
        },
        r matches Reply::Duplicate { line } ==> line@ == "  (duplicate offer for "@ + name@
            + " ignored, already receiving it)"@,
        r matches Reply::Open { resume, full, meta } ==> {
            &&& resume <==> w.offset > 0
            &&& resume <==> meta is None
            &&& o.full matches Some(d) ==> full is Some && full->0@ == d@
            &&& o.full is None && w.prior is Some ==> full is Some && full->0@ == w.prior->0@
            &&& o.full is None && w.prior is None ==> full is None
            &&& meta matches Some(m) ==> m.size == o.size && (m.head is Some <==> o.head is Some) && (
            o.head is Some ==> m.head->0@ == o.head->0@) && (m.full is Some <==> full is Some) && (
            full is Some ==> m.full->0@ == full->0@)
        },
{
    taken_is_flowing(old(a).files@, part_path@, flowing@);
    keys_are_apart();
}

/// An accepted file begins as it was offered, and its sender is told from which byte on to send it.
pub proof fn an_accepted_file_begins_as_offered(
    a: &mut Assembly,
    pid: &str,
    o: FileOffer,
    name: &str,
    part_path: &str,
    offset: u64,
    full: Option<String>,
    r: serde_json::Value,
)
    requires
        call_ensures(begin, (a, pid, &o, name, part_path, offset, full), r),
    ensures
        ({
            let f = final(a).files@.last();
            &&& final(a).files@.len() > 0
            &&& f.peer@ == pid@
            &&& f.sid == o.sid
            &&& f.id@ == o.id@
            &&& f.name@ == name@
            &&& f.size == o.size
            &&& f.received == offset
            &&& f.part_path@ == part_path@
            &&& f.full == full
        }),
        frame::json(r).member("type"@) == frame::Json::Text("file-accept"@),
        frame::json(r).member("id"@) == frame::Json::Text(o.id@),
        frame::json(r).member("offset"@) == frame::Json::Number(Some(offset)),
        final(a).completed == old(a).completed,
{
    keys_are_apart();
}

/// A file that goes to the standard output begins at its first byte, with no digest to compare.
pub proof fn a_streamed_file_begins_at_its_start(
    a: &mut Assembly,
    pid: &str,
    o: FileOffer,
    name: &str,
    r: serde_json::Value,
)
    requires
        call_ensures(begin_stream, (a, pid, &o, name), r),
    ensures
        ({
            let f = final(a).files@.last();
            &&& final(a).files@.len() > 0
            &&& f.peer@ == pid@
            &&& f.sid == o.sid
            &&& f.id@ == o.id@
            &&& f.name@ == name@
            &&& f.size == o.size
            &&& f.received == 0
            &&& f.part_path@.len() == 0
            &&& f.full is None
        }),
        frame::json(r).member("type"@) == frame::Json::Text("file-accept"@),
        frame::json(r).member("id"@) == frame::Json::Text(o.id@),
        frame::json(r).member("offset"@) == frame::Json::Number(Some(0)),
{
    keys_are_apart();
}

/// The bytes of a file are kept under its name with `.part`, and what is known of them under that
/// with `.meta`.
pub proof fn parts_are_named_after_their_file(name: &str, r: (String, String))
    requires
        call_ensures(part_names, (name,), r),
    ensures
        r.0@ == name@ + ".part"@,
        r.1@ == r.0@ + ".meta"@,
{
    reveal_strlit(".part");
    reveal_strlit(".meta");
    reveal_strlit(".part.meta");
    assert(name@ + ".part.meta"@ =~= name@ + ".part"@ + ".meta"@);
}

/// A declined offer is said with the reason that was given: that for good, the one the capabilities
/// gave, or that there is nobody to ask.
pub proof fn a_declined_offer_is_said(
    o: FileOffer,
    name: &str,
    part_path: &str,
    sender: &str,
    w: Weighed,
    g: GateOutcome,
    t: Taking,
    a: &mut Assembly,
    flowing: Vec<String>,
    r: Reply,
)
    requires
        call_ensures(reply, (&o, name, part_path, sender, &w, &g, &t, a, &flowing), r),
        r is Decline,
    ensures
        g.hard_reason is Some ==> r->Decline_line@ == "  declined "@ + name@ + " from "@ + sender@ + " ("@
            + g.hard_reason->0@ + ")"@,
        g.hard_reason is None && g.reason is Some ==> r->Decline_line@ == "  declined "@ + name@
            + " from "@ + sender@ + " ("@ + g.reason->0@ + ")"@,
        g.hard_reason is None && g.reason is None && t.daemon ==> r->Decline_line@ == "  declined "@
            + name@ + " from "@ + sender@ + " ("@ + "unverified peer"@ + ")"@,
        g.hard_reason is None && g.reason is None && !t.daemon ==> r->Decline_line@ == "  declined "@
            + name@ + " from "@ + sender@ + " ("@ + "no tty, use -y to auto-accept"@ + ")"@,
        final(a).verify_fails == old(a).verify_fails,
{
}

/// Opening a file pushes out the streams that stalled into it, and no other file.
pub proof fn opening_pushes_out_only_its_own(
    o: FileOffer,
    name: &str,
    part_path: &str,
    sender: &str,
    w: Weighed,
    g: GateOutcome,
    t: Taking,
    a: &mut Assembly,
    flowing: Vec<String>,
    r: Reply,
    k: int,
)
    requires
        call_ensures(reply, (&o, name, part_path, sender, &w, &g, &t, a, &flowing), r),
        0 <= k < old(a).files@.len(),
        old(a).files@[k].part_path@ != part_path@,
    ensures
        final(a).files@.contains(old(a).files@[k]),
        final(a).verify_fails == old(a).verify_fails,
{
    if r is Open {
        kept_stays(old(a).files@, assembly::not_into(part_path@), k);
    } else {
        assert(final(a).files@[k] == old(a).files@[k]);
    }
}

proof fn kept_stays(s: Seq<IncomingFile>, keep: spec_fn(IncomingFile) -> bool, k: int)
    requires
        0 <= k < s.len(),
        keep(s[k]),
    ensures
        assembly::kept(s, keep).contains(s[k]),
    decreases s.len(),
{
    let t = s.subrange(1, s.len() as int);
    let was = assembly::kept(t, keep);
    let now = assembly::kept(s, keep);
    if k == 0 {
        assert(now[0] == s[0]);
    } else {
        assert(t[k - 1] == s[k]);
        kept_stays(t, keep, k - 1);
        let i = was.index_of(s[k]);
        assert(now[i + (now.len() - was.len())] == s[k]);
    }
}

/// A file that begins leaves the files of other streams as they are.
pub proof fn a_file_begins_beside_the_others(
    a: &mut Assembly,
    b: &mut Assembly,
    pid: &str,
    o: FileOffer,
    name: &str,
    part_path: &str,
    offset: u64,
    full: Option<String>,
    r: serde_json::Value,
    s: serde_json::Value,
    k: int,
)
    requires
        old(a).wf(),
        *old(b) == *old(a),
        call_ensures(begin, (a, pid, &o, name, part_path, offset, full), r),
        call_ensures(begin_stream, (b, pid, &o, name), s),
        0 <= k < old(a).files@.len(),
        old(a).files@[k].peer@ != pid@ || old(a).files@[k].sid != o.sid,
    ensures
        final(a).files@.contains(old(a).files@[k]),
        final(b).files@.contains(old(b).files@[k]),
        final(a).verify_fails == old(a).verify_fails,
        final(b).verify_fails == old(b).verify_fails,
        final(b).completed == old(b).completed,
{
    another_stays(old(a).files@, final(a).files@, pid@, o.sid, k);
    another_stays(old(b).files@, final(b).files@, pid@, o.sid, k);
}

proof fn another_stays(was: Seq<IncomingFile>, now: Seq<IncomingFile>, peer: Seq<char>, sid: u32, k: int)
    requires
        assembly::others_stay(was, now, peer, sid),
        now.len() > 0,
        0 <= k < was.len(),
        was[k].peer@ != peer || was[k].sid != sid,
    ensures
        now.contains(was[k]),
{
    if assembly::arriving(was, peer, sid) {
        let i = choose|i: int| #[trigger]
            assembly::is_at(was, peer, sid, i) && now.drop_last() == was.remove(i);
        assert(assembly::is_at(was, peer, sid, i));
        let j = if k < i {
            k
        } else {
            k - 1
        };
        assert(now.drop_last().len() == was.len() - 1);
        assert(now.drop_last()[j] == was.remove(i)[j]);
        assert(now[j] == was[k]);
    } else {
        assert(now.drop_last()[k] == now[k]);
        assert(now[k] == was[k]);
    }
}

/// What `offer_flow::reply` does not concern, of what has arrived, stays as it is.
pub proof fn what_reply_leaves_alone(
    o: FileOffer,
    name: &str,
    part_path: &str,
    sender: &str,
    w: Weighed,
    gate: GateOutcome,
    t: Taking,
    a: &mut Assembly,
    flowing: Vec<String>,
    r: Reply,
)
    requires
        call_ensures(offer_flow::reply, (&o, name, part_path, sender, &w, &gate, &t, a, &flowing), r),
    ensures
        final(a).completed == old(a).completed,
        final(a).verify_fails == old(a).verify_fails,
{
}

/// What `offer_flow::begin` does not concern, of what has arrived, stays as it is.
pub proof fn what_begin_leaves_alone(
    a: &mut Assembly,
    pid: &str,
    o: FileOffer,
    name: &str,
    part_path: &str,
    offset: u64,
    full: Option<String>,
    r: serde_json::Value,
)
    requires
        call_ensures(offer_flow::begin, (a, pid, &o, name, part_path, offset, full), r),
    ensures
        final(a).completed == old(a).completed,
        final(a).verify_fails == old(a).verify_fails,
{
}

/// What `offer_flow::begin_stream` does not concern, of what has arrived, stays as it is.
pub proof fn what_begin_stream_leaves_alone(
    a: &mut Assembly,
    pid: &str,
    o: FileOffer,
    name: &str,
    r: serde_json::Value,
)
    requires
        call_ensures(offer_flow::begin_stream, (a, pid, &o, name), r),
    ensures
        final(a).completed == old(a).completed,
        final(a).verify_fails == old(a).verify_fails,
{
}

/// Where a file is opened, no stream that still runs goes into its partial file.
pub proof fn what_is_opened_runs_alone(
    o: FileOffer,
    name: &str,
    part_path: &str,
    sender: &str,
    w: Weighed,
    gate: GateOutcome,
    t: Taking,
    a: &mut Assembly,
    flowing: Vec<String>,
    r: Reply,
    k: int,
)
    requires
        old(a).wf(),
        call_ensures(offer_flow::reply, (&o, name, part_path, sender, &w, &gate, &t, a, &flowing), r),
        r is Open,
        part_path@.len() > 0,
        0 <= k < final(a).files@.len(),
    ensures
        final(a).files@[k].part_path@ != part_path@,
{
}

} // verus!
