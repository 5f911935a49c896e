//! Receive-side file assembly and whole-file verification: what to call a file, what
//! may be resumed, what to compare, and what is left to do once a file is placed.

use vstd::prelude::*;
use vstd::string::*;
use crate::coverage;
use crate::coverage::coverage_complete;
use crate::text;
use crate::text::{cat, cat3, cat5, ends_with, same, to_ascii_lower, to_decimal, to_hexadecimal};

verus! {

/// How many names are tried before the last resort.
pub const NAME_TRIES: usize = 1000;

/// What is to be done about naming a file.
#[derive(Debug, PartialEq, Eq)]
pub enum PathStep {
    /// Find out whether this name is taken.
    Probe(String),
    /// Use this name.
    Use(String),
}

/// The names that are tried: the name itself, then with `.1`, `.2` and so on.
pub open spec fn candidate(name: Seq<char>, i: int) -> Seq<char> {
    if i == 0 {
        name
    } else {
        name + "."@ + text::decimal(i as nat)
    }
}

/// Candidate `k` is the first of those tried that is not taken.
pub open spec fn first_free(taken: Seq<bool>, k: int) -> bool {
    &&& 0 <= k < taken.len()
    &&& k < NAME_TRIES
    &&& !taken[k]
    &&& forall|j: int| 0 <= j < k ==> taken[j]
}

/// Every candidate is taken.
pub open spec fn all_taken(taken: Seq<bool>) -> bool {
    taken.len() >= NAME_TRIES && forall|j: int| 0 <= j < NAME_TRIES ==> taken[j]
}

/// The name for a file that is called `name`, among names that may be taken: `taken`
/// says so of the candidates asked about so far, in order. The first free candidate is
/// used, and where all are taken, the name with `.dup`.
pub fn unique_path(name: &str, taken: &Vec<bool>) -> (r: PathStep)
    ensures
        r matches PathStep::Probe(p) ==> taken@.len() < NAME_TRIES && (forall|j: int|
            0 <= j < taken@.len() ==> taken@[j]) && p@ == candidate(name@, taken@.len() as int),
        r matches PathStep::Use(p) ==> (exists|k: int| #[trigger]
            first_free(taken@, k) && p@ == candidate(name@, k)) || (all_taken(taken@) && p@ == name@
            + ".dup"@),
{
    let mut i: usize = 0;
    while i < taken.len() && i < NAME_TRIES && taken[i]
        invariant
            i <= taken.len(),
            i <= NAME_TRIES,
            forall|j: int| 0 <= j < i ==> taken@[j],
        decreases taken.len() - i,
    {
        i += 1;
    }
    if i == NAME_TRIES {
        return PathStep::Use(cat(name, ".dup"));
    }
    let c = if i == 0 {
        name.to_owned()
    } else {
        let n = to_decimal(i as u64);
        cat3(name, ".", n.as_str())
    };
    if i < taken.len() {
        proof {
            assert(first_free(taken@, i as int));
        }
        PathStep::Use(c)
    } else {
        PathStep::Probe(c)
    }
}

/// No candidate is tried twice.
pub proof fn candidates_differ(name: Seq<char>, i: int, j: int)
    requires
        0 <= i,
        0 <= j,
        candidate(name, i) == candidate(name, j),
    ensures
        i == j,
{
    reveal_strlit(".");
    assert("."@.len() == 1);
    if i > 0 && j > 0 {
        let n = name.len() as int;
        let (a, b) = (candidate(name, i), candidate(name, j));
        assert(a.subrange(n + 1, a.len() as int) =~= text::decimal(i as nat));
        assert(b.subrange(n + 1, b.len() as int) =~= text::decimal(j as nat));
        text::decimal_is_injective(i as nat, j as nat);
    } else {
        assert(candidate(name, i).len() == candidate(name, j).len());
    }
}

/// A name is used only where it was found free, unless every candidate was taken.
pub proof fn used_name_was_free(taken: Seq<bool>, k: int, l: int)
    requires
        first_free(taken, k),
    ensures
        !taken[k],
        !all_taken(taken),
        first_free(taken, l) ==> k == l,
{
}

/// A partial file may be resumed if what was opened is a regular file. `kind` names what
/// was found instead.
pub fn resume_verdict(regular: bool, kind: &str) -> (r: Result<(), String>)
    ensures
        r is Ok <==> regular,
        r matches Err(e) ==> e@ == "refusing to resume: .part is not a regular file (type: "@ + kind@
            + ")"@,
{
    if regular {
        Ok(())
    } else {
        Err(cat3("refusing to resume: .part is not a regular file (type: ", kind, ")"))
    }
}

/// On Windows a fresh partial file must not be a reparse point.
pub fn windows_create_verdict(reparse_point: bool) -> (r: Result<(), String>)
    ensures
        r is Ok <==> !reparse_point,
        r matches Err(e) ==> e@
            == "refusing to create .part: path is a reparse point (symlink/junction)"@,
{
    if reparse_point {
        Err("refusing to create .part: path is a reparse point (symlink/junction)".to_owned())
    } else {
        Ok(())
    }
}

/// On Windows a partial file that is resumed must be neither a reparse point nor a
/// directory. `attributes` are what the system reports of it.
pub fn windows_resume_verdict(reparse_point: bool, directory: bool, attributes: u32) -> (r: Result<
    (),
    String,
>)
    ensures
        r is Ok <==> !reparse_point && !directory,
        reparse_point ==> (r matches Err(e) && e@
            == "refusing to resume .part: path is a reparse point (symlink/junction)"@),
        !reparse_point && directory ==> (r matches Err(e) && e@
            == "refusing to resume: .part is a directory (attrs: 0x"@ + text::hexadecimal(
            attributes as nat,
        ) + ")"@),
{
    if reparse_point {
        return Err("refusing to resume .part: path is a reparse point (symlink/junction)".to_owned());
    }
    if directory {
        let a = to_hexadecimal(attributes as u64);
        return Err(cat3("refusing to resume: .part is a directory (attrs: 0x", a.as_str(), ")"));
    }
    Ok(())
}

/// A file that is arriving over a stream.
pub struct IncomingFile {
    /// The peer and the stream it arrives over.
    pub peer: String,
    pub sid: u32,
    pub id: String,
    pub name: String,
    pub size: u64,
    /// How many of its bytes have been written.
    pub received: u64,
    /// Which of its bytes have been written.
    pub ranges: Vec<(u64, u64)>,
    /// Where its bytes are kept until it is complete.
    pub part_path: String,
    /// The digest that the sender offered.
    pub full: Option<String>,
    /// Writes that have been started and not finished.
    pub inflight: u64,
    /// The sender has said that the stream is over.
    pub end_seen: bool,
    /// The stream to name in the delivery ack.
    pub ack_sid: u32,
}

impl IncomingFile {
    /// The bytes written are counted, each once.
    pub open spec fn wf(self) -> bool {
        &&& coverage::disjoint_sorted(self.ranges@)
        &&& self.received == coverage::measure(self.ranges@)
    }

    /// Every byte that the sender promised has been written.
    pub open spec fn all_there(self) -> bool {
        self.received >= self.size && coverage::complete(self.ranges@, self.size as int)
    }
}

/// What is to be compared before a file may be taken for delivered.
#[derive(Debug, PartialEq, Eq)]
pub enum VerifyPlan {
    /// The sender offered no digest: the file is taken as it is.
    Accept,
    /// Bytes are missing: there is nothing to compare yet.
    Incomplete,
    /// Everything is there: take the digest of what was written.
    Digest,
}

/// What is to be compared before `inc` may be taken for delivered.
pub fn verify_plan(inc: &IncomingFile) -> (r: VerifyPlan)
    requires
        inc.wf(),
    ensures
        r is Accept <==> inc.full is None,
        r is Digest <==> inc.full is Some && inc.all_there(),
{
    if inc.full.is_none() {
        return VerifyPlan::Accept;
    }
    if inc.received < inc.size {
        return VerifyPlan::Incomplete;
    }
    if !coverage_complete(&inc.ranges, inc.size) {
        return VerifyPlan::Incomplete;
    }
    VerifyPlan::Digest
}

/// What is known of a file that is to be judged.
#[derive(Debug, PartialEq, Eq)]
pub enum Verification {
    /// Nothing is to be judged: the file is taken as it is.
    Match,
    /// Whether the digest agrees, and nothing where bytes are missing.
    Judge { digest_ok: Option<bool> },
}

/// What is known of `inc`, where `got` is the digest of what was written, if it could be
/// taken. A file with a gap is never judged by its digest.
pub fn verify_incoming(inc: &IncomingFile, got: Option<&str>) -> (r: Verification)
    requires
        inc.wf(),
    ensures
        r is Match <==> inc.full is None,
        r == (Verification::Judge { digest_ok: None }) <==> inc.full is Some && !inc.all_there(),
        r == (Verification::Judge { digest_ok: Some(true) }) <==> inc.full is Some
            && inc.all_there() && got is Some && got->0@ == inc.full->0@,
{
    match verify_plan(inc) {
        VerifyPlan::Accept => Verification::Match,
        VerifyPlan::Incomplete => Verification::Judge { digest_ok: None },
        VerifyPlan::Digest => {
            let ok: bool = match (&inc.full, got) {
                (Some(want), Some(g)) => same(g, want.as_str()),
                _ => false,
            };
            Verification::Judge { digest_ok: Some(ok) }
        },
    }
}

/// Whether a file is the one that was offered.
#[derive(Clone, Copy, Debug, PartialEq, Eq, Structural)]
pub enum VerifyResult {
    /// It is.
    Match,
    /// It is not yet: fetch the rest of it, or all of it again.
    Mismatch { restart_from_zero: bool },
}

/// Judge a file by how much of it is there and whether its digest agrees, if there was
/// anything to compare. A file that falls short is short of its rest, whatever its digest;
/// one that is long enough and still wrong is corrupt and fetched from the start.
pub fn decide_verify(received: u64, size: u64, digest_ok: Option<bool>) -> (r: VerifyResult)
    ensures
        r is Match <==> received >= size && digest_ok == Some(true),
        r matches VerifyResult::Mismatch { restart_from_zero } ==> restart_from_zero == (received
            >= size),
{
    if received < size {
        return VerifyResult::Mismatch { restart_from_zero: false };
    }
    match digest_ok {
        Some(true) => VerifyResult::Match,
        _ => VerifyResult::Mismatch { restart_from_zero: true },
    }
}

/// The verdict on a file whose digest came out as `got`.
pub open spec fn verdict_on(inc: IncomingFile, got: Option<Seq<char>>) -> VerifyResult {
    if inc.full is None {
        VerifyResult::Match
    } else if !inc.all_there() {
        VerifyResult::Mismatch { restart_from_zero: inc.received >= inc.size }
    } else if got == Some(inc.full->0@) {
        VerifyResult::Match
    } else {
        VerifyResult::Mismatch { restart_from_zero: true }
    }
}

/// The verdict on `inc`, where `got` is the digest of what was written, if it could be
/// taken.
pub fn judge_incoming(inc: &IncomingFile, got: Option<&str>) -> (r: VerifyResult)
    requires
        inc.wf(),
    ensures
        r == verdict_on(
            *inc,
            match got {
                Some(g) => Some(g@),
                None => None,
            },
        ),
{
    match verify_incoming(inc, got) {
        Verification::Match => VerifyResult::Match,
        Verification::Judge { digest_ok } => decide_verify(inc.received, inc.size, digest_ok),
    }
}

/// A file with an offered digest is delivered only if every byte of it was written and
/// the digest of what was written is the one offered: neither a truncated nor a corrupt
/// file is ever taken for done.
pub proof fn delivered_means_intact(inc: IncomingFile, got: Option<Seq<char>>)
    requires
        inc.full is Some,
        verdict_on(inc, got) is Match,
    ensures
        coverage::complete(inc.ranges@, inc.size as int),
        got == Some(inc.full->0@),
{
}

/// The name that a finished file is to have: `rename_to`, else its own.
pub fn final_name<'a>(name: &'a str, rename_to: Option<&'a str>) -> (r: &'a str)
    ensures
        r@ == (match rename_to {
            Some(n) => n@,
            None => name@,
        }),
{
    match rename_to {
        Some(n) => n,
        None => name,
    }
}

/// The peer whose settings apply: none where it has no name.
pub fn setting_peer(from_name: &str) -> (r: Option<&str>)
    ensures
        r is None <==> from_name@.len() == 0,
        r matches Some(p) ==> p@ == from_name@,
{
    if from_name.is_empty() {
        None
    } else {
        Some(from_name)
    }
}

/// A file name is that of an archive.
pub open spec fn archive_name(name: Seq<char>) -> bool {
    let l = text::ascii_lowercase(name);
    text::ends(l, ".tar"@) || text::ends(l, ".tar.gz"@) || text::ends(l, ".tgz"@)
}

/// Whether a file name is that of an archive, in whatever case.
pub fn is_archive(name: &str) -> (r: bool)
    ensures
        r == archive_name(name@),
{
    let l = to_ascii_lower(name);
    ends_with(l.as_str(), ".tar") || ends_with(l.as_str(), ".tar.gz") || ends_with(
        l.as_str(),
        ".tgz",
    )
}

/// What became of a file that was moved to its final name.
pub enum Finalized {
    /// The move failed: another stream has delivered the file already.
    Discarded { message: String },
    /// The file is in place.
    Placed {
        /// The side file to remove.
        meta_name: String,
        /// As many bytes were written as were promised.
        size_ok: bool,
        /// The file is to be unpacked where it is.
        extract: bool,
        /// The delivery is to be noted in the log.
        log: bool,
    },
}

/// What is left to do for `inc` after the move to `placed_as`, `moved` being what came of
/// the move. `auto_extract` is the operator's setting for the peer.
pub fn finalize_incoming(
    inc: &IncomingFile,
    placed_as: &str,
    moved: Result<(), String>,
    auto_extract: bool,
    daemon: bool,
) -> (r: Finalized)
    ensures
        r is Discarded <==> moved is Err,
        moved matches Err(e) ==> (r matches Finalized::Discarded { message } && message@
            == "  (stream for "@ + inc.name@ + " already finalized, duplicate discarded: "@ + e@
            + ")"@),
        r matches Finalized::Placed { meta_name, size_ok, extract, log } ==> meta_name@ == inc.name@
            + ".part.meta"@ && size_ok == (inc.received == inc.size) && extract == (size_ok
            && auto_extract && archive_name(placed_as@)) && log == daemon,
{
    match moved {
        Err(e) => Finalized::Discarded {
            message: cat5(
                "  (stream for ",
                inc.name.as_str(),
                " already finalized, duplicate discarded: ",
                e.as_str(),
                ")",
            ),
        },
        Ok(()) => {
            let size_ok: bool = inc.received == inc.size;
            Finalized::Placed {
                meta_name: cat(inc.name.as_str(), ".part.meta"),
                size_ok,
                extract: size_ok && is_archive(placed_as) && auto_extract,
                log: daemon,
            }
        },
    }
}

/// The line about an unpacked archive.
pub fn extracted_line(n: u64, dir: &str) -> (r: String)
    ensures
        r@ == "extracted "@ + text::decimal(n as nat) + (if n == 1 {
            " file into "@
        } else {
            " files into "@
        }) + dir@,
{
    let count = to_decimal(n);
    let mut out = cat("extracted ", count.as_str());
    if n == 1 {
        out.append(" file into ");
    } else {
        out.append(" files into ");
    }
    out.append(dir);
    out
}

/// The line about a delivery in the log.
pub fn log_line(now: &str, name: &str, amount: &str, from_name: &str) -> (r: String)
    ensures
        r@ == now@ + "  "@ + name@ + "  "@ + amount@ + "  from "@ + from_name@,
{
    let mut out = cat5(now, "  ", name, "  ", amount);
    out.append("  from ");
    out.append(from_name);
    out
}

} // verus!
