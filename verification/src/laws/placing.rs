//! The receiver's frames, and what is done with the bytes of a file once they are there.

use vstd::prelude::*;
use vstd::string::*;
use crate::coverage;
use crate::dispatch::{answer, received, Answer, Received, ReceiverView, SenderView};
use crate::frame;
use crate::outgoing::Outbox;
use crate::protocol::{accept_msg, decline_msg, delivery_ack_msg, proof_msg, verdict_msg};
use crate::recv_files;
use crate::recv_files::{
    decide_verify, extracted_line, final_name, finalize_incoming, is_archive, judge_incoming,
    log_line, resume_verdict, setting_peer, unique_path, verify_incoming, verify_plan,
    windows_create_verdict, windows_resume_verdict, Finalized, IncomingFile, PathStep, Verification,
    VerifyPlan, VerifyResult,
};
use crate::text;

verus! {

broadcast use frame::with_sets_one_member;

proof fn keys_are_apart()
    ensures
        "id"@.len() == 2,
        "id"@[0] == 'i',
        "ok"@.len() == 2,
        "ok"@[0] == 'o',
        "mac"@.len() == 3,
        "mac"@[0] == 'm',
        "sid"@.len() == 3,
        "sid"@[0] == 's',
        "type"@.len() == 4,
        "offset"@.len() == 6,
{
    reveal_strlit("id");
    reveal_strlit("ok");
    reveal_strlit("mac");
    reveal_strlit("sid");
    reveal_strlit("type");
    reveal_strlit("offset");
}

/// Each answer of a receiver says what it is, and which file it is about.
pub proof fn answers_say_what_they_are(
    id: &str,
    offset: u64,
    sid: u32,
    mac: &str,
    ok: bool,
    a: serde_json::Value,
    d: serde_json::Value,
    k: serde_json::Value,
    p: serde_json::Value,
    v: serde_json::Value,
)
    requires
        call_ensures(accept_msg, (id, offset), a),
        call_ensures(decline_msg, (id,), d),
        call_ensures(delivery_ack_msg, (id, sid), k),
        call_ensures(proof_msg, (mac,), p),
        call_ensures(verdict_msg, (ok,), v),
    ensures
        frame::json(a).member("type"@) == frame::Json::Text("file-accept"@),
        frame::json(a).member("id"@) == frame::Json::Text(id@),
        frame::json(a).member("offset"@) == frame::Json::Number(Some(offset)),
        frame::json(d).member("type"@) == frame::Json::Text("file-decline"@),
        frame::json(d).member("id"@) == frame::Json::Text(id@),
        frame::json(k).member("type"@) == frame::Json::Text("delivery-ack"@),
        frame::json(k).member("id"@) == frame::Json::Text(id@),
        frame::json(k).member("sid"@) == frame::Json::Number(Some(sid as u64)),
        frame::json(p).member("type"@) == frame::Json::Text("pair-proof"@),
        frame::json(p).member("mac"@) == frame::Json::Text(mac@),
        frame::json(v).member("type"@) == frame::Json::Text("pair-proof-ack"@),
        frame::json(v).member("ok"@) == frame::Json::Bool(ok),
{
    keys_are_apart();
}

/// The first of the names asked about that is free is used; while all are taken the next is asked
/// about, and after a thousand the last resort is used.
pub proof fn the_first_free_name_is_used(name: &str, taken: Vec<bool>, r: PathStep, k: int)
    requires
        call_ensures(unique_path, (name, &taken), r),
    ensures
        0 <= k < taken@.len() && k < 1000 && !taken@[k] && (forall|j: int| 0 <= j < k ==> taken@[j])
            ==> (r matches PathStep::Use(p) && p@ == if k == 0 {
            name@
        } else {
            name@ + "."@ + text::decimal(k as nat)
        }),
        taken@.len() < 1000 && (forall|j: int| 0 <= j < taken@.len() ==> taken@[j]) ==> (
        r matches PathStep::Probe(p) && p@ == if taken@.len() == 0 {
            name@
        } else {
            name@ + "."@ + text::decimal(taken@.len())
        }),
        taken@.len() >= 1000 && (forall|j: int| 0 <= j < 1000 ==> taken@[j]) ==> (
        r matches PathStep::Use(p) && p@ == name@ + ".dup"@),
{
    if r is Use {
        if exists|i: int| #[trigger]
            recv_files::first_free(taken@, i) && r->Use_0@ == recv_files::candidate(name@, i) {
            let i = choose|i: int| #[trigger]
                recv_files::first_free(taken@, i) && r->Use_0@ == recv_files::candidate(name@, i);
            if 0 <= k < taken@.len() && k < 1000 && !taken@[k] && (forall|j: int|
                0 <= j < k ==> taken@[j]) {
                assert(i == k) by {
                    if i < k {
                        assert(taken@[i]);
                    }
                    if k < i {
                        assert(taken@[k]);
                    }
                }
            }
            assert(!taken@[i]);
        } else {
            assert(recv_files::all_taken(taken@));
            if 0 <= k < taken@.len() && k < 1000 {
                assert(taken@[k]);
            }
        }
    }
}

/// Only a regular file is gone on with, and what stands in its place is named.
pub proof fn only_regular_files_are_resumed(
    regular: bool,
    kind: &str,
    r: Result<(), String>,
    reparse: bool,
    directory: bool,
    attributes: u32,
    c: Result<(), String>,
    w: Result<(), String>,
)
    requires
        call_ensures(resume_verdict, (regular, kind), r),
        call_ensures(windows_create_verdict, (reparse,), c),
        call_ensures(windows_resume_verdict, (reparse, directory, attributes), w),
    ensures
        regular ==> r is Ok,
        !regular ==> r is Err && r->Err_0@
            == "refusing to resume: .part is not a regular file (type: "@ + kind@ + ")"@,
        !reparse ==> c is Ok,
        reparse ==> c is Err && c->Err_0@
            == "refusing to create .part: path is a reparse point (symlink/junction)"@,
        !reparse && !directory ==> w is Ok,
        reparse ==> w is Err && w->Err_0@
            == "refusing to resume .part: path is a reparse point (symlink/junction)"@,
        !reparse && directory ==> w is Err && w->Err_0@
            == "refusing to resume: .part is a directory (attrs: 0x"@ + text::hexadecimal(
            attributes as nat,
        ) + ")"@,
{
}

/// Every byte that the sender promised was written.
pub open spec fn all_written(f: IncomingFile) -> bool {
    f.received >= f.size && forall|b: int| 0 <= b < f.size ==> coverage::covers(f.ranges@, b)
}

/// A digest is taken only of a file that is whole and has one to compare with.
pub proof fn only_a_whole_file_is_compared(
    f: IncomingFile,
    got: Option<&str>,
    p: VerifyPlan,
    v: Verification,
)
    requires
        call_ensures(verify_plan, (&f,), p),
        call_ensures(verify_incoming, (&f, got), v),
    ensures
        f.full is None ==> p is Accept && v is Match,
        f.full is Some && all_written(f) ==> p is Digest,
        f.full is Some && !all_written(f) ==> p is Incomplete && v == (Verification::Judge {
            digest_ok: None,
        }),
        f.full is Some && all_written(f) && got is Some && got->0@ == f.full->0@ ==> v == (
        Verification::Judge { digest_ok: Some(true) }),
        f.full is Some && all_written(f) && !(got is Some && got->0@ == f.full->0@) ==> v !is Match
            && v != (Verification::Judge { digest_ok: Some(true) }),
{
}

/// A file is good where it is long enough and its digest agrees; it is fetched from the start where
/// it is long enough and still wrong, and from where it ends otherwise.
pub proof fn a_wrong_file_starts_over(received: u64, size: u64, ok: Option<bool>, r: VerifyResult)
    requires
        call_ensures(decide_verify, (received, size, ok), r),
    ensures
        received >= size && ok == Some(true) ==> r is Match,
        received < size ==> r == (VerifyResult::Mismatch { restart_from_zero: false }),
        received >= size && ok != Some(true) ==> r == (VerifyResult::Mismatch {
            restart_from_zero: true,
        }),
{
}

/// A file with a digest is good exactly where each of its bytes was written and the digest of them
/// is the offered one.
pub proof fn a_good_file_is_whole_and_agrees(f: IncomingFile, got: Option<&str>, r: VerifyResult)
    requires
        call_ensures(judge_incoming, (&f, got), r),
    ensures
        f.full is None ==> r is Match,
        f.full is Some ==> (r is Match <==> all_written(f) && got is Some && got->0@ == f.full->0@),
        r matches VerifyResult::Mismatch { restart_from_zero } ==> (restart_from_zero <==> f.received
            >= f.size),
{
}

/// A finished file is called as was asked for, and by its own name otherwise; settings are those of
/// a peer with a name.
pub proof fn names_as_asked_for(name: &str, to: Option<&str>, r: &str, peer: &str, s: Option<&str>)
    requires
        call_ensures(final_name, (name, to), r),
        call_ensures(setting_peer, (peer,), s),
    ensures
        to is Some ==> r@ == to->0@,
        to is None ==> r@ == name@,
        peer@.len() == 0 ==> s is None,
        peer@.len() > 0 ==> s is Some && s->0@ == peer@,
{
}

/// An archive is told by the end of its name, in whatever case.
pub proof fn archives_are_told_by_their_name(name: &str, r: bool, stem: Seq<char>)
    requires
        call_ensures(is_archive, (name,), r),
    ensures
        ({
            let l = text::ascii_lowercase(name@);
            &&& l == stem + ".tar"@ ==> r
            &&& l == stem + ".tar.gz"@ ==> r
            &&& l == stem + ".tgz"@ ==> r
            &&& r ==> exists|t: Seq<char>| #[trigger]
                is_stem(t) && (l == t + ".tar"@ || l == t + ".tar.gz"@ || l == t + ".tgz"@)
        }),
{
    let l = text::ascii_lowercase(name@);
    let n = l.len() as int;
    let a = ".tar"@.len() as int;
    let b = ".tar.gz"@.len() as int;
    let c = ".tgz"@.len() as int;
    if l == stem + ".tar"@ {
        assert(l.subrange(n - a, n) =~= ".tar"@);
    }
    if l == stem + ".tar.gz"@ {
        assert(l.subrange(n - b, n) =~= ".tar.gz"@);
    }
    if l == stem + ".tgz"@ {
        assert(l.subrange(n - c, n) =~= ".tgz"@);
    }
    if r {
        if text::ends(l, ".tar"@) {
            let t = l.subrange(0, n - a);
            assert(is_stem(t));
            assert(l =~= t + ".tar"@);
        } else if text::ends(l, ".tar.gz"@) {
            let t = l.subrange(0, n - b);
            assert(is_stem(t));
            assert(l =~= t + ".tar.gz"@);
        } else {
            let t = l.subrange(0, n - c);
            assert(is_stem(t));
            assert(l =~= t + ".tgz"@);
        }
    }
}

/// Any text can come before the end of a name.
pub open spec fn is_stem(t: Seq<char>) -> bool {
    t.len() >= 0
}

/// A file that could not be moved was delivered before; one that was moved is unpacked only where it
/// is whole, is an archive and the operator wants it, and is noted by a daemon.
pub proof fn what_is_left_once_a_file_is_placed(
    f: IncomingFile,
    placed_as: &str,
    moved: Result<(), String>,
    auto: bool,
    daemon: bool,
    r: Finalized,
    archive: bool,
)
    requires
        call_ensures(finalize_incoming, (&f, placed_as, moved, auto, daemon), r),
        call_ensures(is_archive, (placed_as,), archive),
    ensures
        moved matches Err(e) ==> (r matches Finalized::Discarded { message } && message@
            == "  (stream for "@ + f.name@ + " already finalized, duplicate discarded: "@ + e@ + ")"@),
        moved is Ok ==> r is Placed,
        r matches Finalized::Placed { meta_name, size_ok, extract, log } ==> {
            &&& meta_name@ == f.name@ + ".part.meta"@
            &&& size_ok <==> f.received == f.size
            &&& extract <==> f.received == f.size && auto && archive
            &&& log == daemon
        },
{
}

/// What is said of a delivery.
pub proof fn deliveries_are_told(
    n: u64,
    dir: &str,
    e: String,
    now: &str,
    name: &str,
    amount: &str,
    from: &str,
    l: String,
)
    requires
        call_ensures(extracted_line, (n, dir), e),
        call_ensures(log_line, (now, name, amount, from), l),
    ensures
        n == 1 ==> e@ == "extracted "@ + text::decimal(1) + " file into "@ + dir@,
        n != 1 ==> e@ == "extracted "@ + text::decimal(n as nat) + " files into "@ + dir@,
        l@ == now@ + "  "@ + name@ + "  "@ + amount@ + "  from "@ + from@,
{
}

} // verus!
