//! The files that are arriving: chunks written out of order, the end of a stream,
//! verification with bounded retries, and the count of what was delivered.

use vstd::prelude::*;
use vstd::string::*;
use crate::coverage;
use crate::coverage::{coverage_complete, record_range};
use crate::frame;
use crate::keyed;
use crate::keyed::{lists, Keyed};
use crate::recv_files::{IncomingFile, VerifyResult};
use crate::text::{cat3, same};

verus! {

/// How often a file is fetched again before it is given up as corrupt.
pub const MAX_VERIFY_FAILS: u32 = 3;

/// The files that are arriving and what became of earlier ones.
pub struct Assembly {
    /// One file for each peer and stream.
    pub files: Vec<IncomingFile>,
    /// How often each id has failed verification since it last succeeded.
    pub verify_fails: Keyed<u32>,
    /// Files delivered.
    pub completed: u64,
}

/// The file that arrives from `peer` over `sid` is at `i`.
pub open spec fn is_at(files: Seq<IncomingFile>, peer: Seq<char>, sid: u32, i: int) -> bool {
    0 <= i < files.len() && files[i].peer@ == peer && files[i].sid == sid
}

/// Some file arrives from `peer` over `sid`.
pub open spec fn arriving(files: Seq<IncomingFile>, peer: Seq<char>, sid: u32) -> bool {
    exists|i: int| is_at(files, peer, sid, i)
}

/// `a` and `b` hold the same files but for the one at `i`.
pub open spec fn same_but(a: Seq<IncomingFile>, b: Seq<IncomingFile>, i: int) -> bool {
    a.len() == b.len() && forall|j: int| 0 <= j < a.len() && j != i ==> a[j] == b[j]
}

/// `a` and `b` are the same file, as far as the sender described it.
pub open spec fn same_file(a: IncomingFile, b: IncomingFile) -> bool {
    &&& a.peer == b.peer
    &&& a.sid == b.sid
    &&& a.id == b.id
    &&& a.name == b.name
    &&& a.size == b.size
    &&& a.part_path == b.part_path
    &&& a.full == b.full
}

/// What to do with a chunk.
#[derive(Clone, Copy, Debug, PartialEq, Eq, Structural)]
pub enum ChunkStep {
    /// No file arrives over this stream: drop it.
    Unknown,
    /// It does not say where it belongs: drop it.
    Offsetless,
    /// Write it at `pos`.
    Write { pos: u64 },
}

/// What to do at the end of a stream.
#[derive(Clone, Copy, Debug, PartialEq, Eq, Structural)]
pub enum EndStep {
    /// No file arrives over this stream.
    Unknown,
    /// Writes are still under way: the last of them completes the file.
    Deferred,
    /// The file can be completed now.
    Ready,
}

/// What to do with a file whose stream is over and whose writes are done.
pub enum Settled {
    /// No file arrives over this stream.
    Unknown,
    /// Its bytes went to the standard output: it is delivered.
    Streamed,
    /// Move it to its final name; `ack` it once it is in place.
    Place { file: IncomingFile, ack: bool },
    /// It is still wrong after the last retry: it is given up, its partial bytes kept.
    GiveUp { message: String },
    /// Ask the sender for it from `offset` on; `restart` where that means its start and
    /// what was written is void.
    Refetch { id: String, offset: u64, attempt: u32, restart: bool },
}

/// How often `id` has failed.
pub open spec fn fails_of(fails: Map<Seq<char>, u32>, id: Seq<char>) -> int {
    if fails.contains_key(id) {
        fails[id] as int
    } else {
        0
    }
}

impl Assembly {
    /// Each peer and stream has one file, no two streams run into one partial file, and no count
    /// of failures is above the limit.
    pub open spec fn wf(self) -> bool {
        &&& one_stream_per_part(self.files@)
        &&& forall|i: int| 0 <= i < self.files@.len() ==> (#[trigger] self.files@[i]).wf()
        &&& forall|i: int, j: int|
            0 <= i < j < self.files@.len() ==> !((#[trigger] self.files@[i]).peer@ == (
            #[trigger] self.files@[j]).peer@ && self.files@[i].sid == self.files@[j].sid)
        &&& self.verify_fails.wf()
        &&& forall|id: Seq<char>| #[trigger]
            self.verify_fails@.contains_key(id) ==> 0 < self.verify_fails@[id] <= MAX_VERIFY_FAILS
    }

    /// Nothing arriving and nothing delivered.
    pub fn new() -> (r: Assembly)
        ensures
            r.wf(),
            r.files@.len() == 0,
            r.verify_fails@ == Map::<Seq<char>, u32>::empty(),
            r.completed == 0,
    {
        Assembly { files: Vec::new(), verify_fails: Keyed::new(), completed: 0 }
    }

    /// Where the file is that arrives from `peer` over `sid`.
    pub fn find(&self, peer: &str, sid: u32) -> (r: Option<usize>)
        ensures
            r is None <==> !arriving(self.files@, peer@, sid),
            r matches Some(i) ==> is_at(self.files@, peer@, sid, i as int),
    {
        let mut i: usize = 0;
        while i < self.files.len()
            invariant
                i <= self.files@.len(),
                forall|j: int| 0 <= j < i ==> !is_at(self.files@, peer@, sid, j),
            decreases self.files.len() - i,
        {
            if self.files[i].sid == sid && same(self.files[i].peer.as_str(), peer) {
                proof {
                    assert(is_at(self.files@, peer@, sid, i as int));
                }
                return Some(i);
            }
            i += 1;
        }
        None
    }

    /// A chunk has come for a stream. A chunk that is to be written counts as under way.
    pub fn chunk(&mut self, peer: &str, sid: u32, offset: Option<u64>) -> (r: ChunkStep)
        requires
            old(self).wf(),
            forall|i: int| 0 <= i < old(self).files@.len() ==> (#[trigger] old(self).files@[i]).inflight < u64::MAX,
        ensures
            final(self).wf(),
            final(self).verify_fails == old(self).verify_fails,
            final(self).completed == old(self).completed,
            r is Unknown <==> !arriving(old(self).files@, peer@, sid),
            r is Offsetless <==> arriving(old(self).files@, peer@, sid) && offset is None,
            r matches ChunkStep::Write { pos } ==> offset == Some(pos) && exists|i: int| #[trigger]
                is_at(old(self).files@, peer@, sid, i) && same_but(
                    old(self).files@,
                    final(self).files@,
                    i,
                ) && final(self).files@[i] == (IncomingFile {
                    inflight: (old(self).files@[i].inflight + 1) as u64,
                    ..old(self).files@[i]
                }),
            r !is Write ==> final(self).files@ == old(self).files@,
    {
        match self.find(peer, sid) {
            None => ChunkStep::Unknown,
            Some(i) => match offset {
                None => ChunkStep::Offsetless,
                Some(pos) => {
                    let ghost was = self.files@;
                    self.files[i].inflight = self.files[i].inflight + 1;
                    proof {
                        assert(is_at(was, peer@, sid, i as int));
                        assert(same_but(was, self.files@, i as int));
                    }
                    ChunkStep::Write { pos }
                },
            },
        }
    }

    /// A write of `len` bytes at `pos` is over; `wrote` says that the bytes landed. Bytes
    /// that did not land leave a gap. Tells whether the file can be completed now.
    pub fn written(&mut self, peer: &str, sid: u32, pos: u64, len: u64, wrote: bool) -> (r: bool)
        requires
            old(self).wf(),
            forall|i: int|
                is_at(old(self).files@, peer@, sid, i) ==> (#[trigger] old(self).files@[i]).inflight
                    > 0,
            wrote ==> pos + len <= u64::MAX,
        ensures
            final(self).wf(),
            final(self).verify_fails == old(self).verify_fails,
            final(self).completed == old(self).completed,
            !arriving(old(self).files@, peer@, sid) ==> !r && final(self).files@ == old(self).files@,
            arriving(old(self).files@, peer@, sid) ==> exists|i: int| #[trigger]
                is_at(old(self).files@, peer@, sid, i) && same_but(
                    old(self).files@,
                    final(self).files@,
                    i,
                ) && write_landed(old(self).files@[i], final(self).files@[i], pos, len, wrote) && r
                    == (final(self).files@[i].inflight == 0 && final(self).files@[i].end_seen),
    {
        match self.find(peer, sid) {
            None => false,
            Some(i) => {
                let ghost was = self.files@;
                if wrote {
                    let (_, all) = record_range(&mut self.files[i].ranges, pos, len);
                    proof {
                        coverage::measure_counts_bytes(was[i as int].ranges@);
                    }
                    if all > self.files[i].received {
                        self.files[i].received = all;
                    }
                }
                self.files[i].inflight = self.files[i].inflight - 1;
                proof {
                    assert(is_at(was, peer@, sid, i as int));
                    assert(same_but(was, self.files@, i as int));
                }
                self.files[i].inflight == 0 && self.files[i].end_seen
            },
        }
    }

    /// The sender says that a stream is over.
    pub fn file_end(&mut self, peer: &str, sid: u32) -> (r: EndStep)
        requires
            old(self).wf(),
        ensures
            final(self).wf(),
            final(self).verify_fails == old(self).verify_fails,
            final(self).completed == old(self).completed,
            r is Unknown <==> !arriving(old(self).files@, peer@, sid),
            r is Unknown ==> final(self).files@ == old(self).files@,
            r !is Unknown ==> exists|i: int| #[trigger]
                is_at(old(self).files@, peer@, sid, i) && same_but(
                    old(self).files@,
                    final(self).files@,
                    i,
                ) && (r is Deferred <==> old(self).files@[i].inflight > 0) && final(self).files@[i]
                    == (IncomingFile {
                    ack_sid: sid,
                    end_seen: old(self).files@[i].end_seen || r is Deferred,
                    ..old(self).files@[i]
                }),
    {
        match self.find(peer, sid) {
            None => EndStep::Unknown,
            Some(i) => {
                let ghost was = self.files@;
                self.files[i].ack_sid = sid;
                let busy: bool = self.files[i].inflight > 0;
                if busy {
                    self.files[i].end_seen = true;
                }
                proof {
                    assert(is_at(was, peer@, sid, i as int));
                    assert(same_but(was, self.files@, i as int));
                }
                if busy {
                    EndStep::Deferred
                } else {
                    EndStep::Ready
                }
            },
        }
    }

    /// A file whose stream is over and whose writes are done is delivered, given up or
    /// fetched again, by the verdict on it.
    pub fn settle(&mut self, peer: &str, sid: u32, to_stdout: bool, verdict: VerifyResult) -> (r:
        Settled)
        requires
            old(self).wf(),
            old(self).completed < u64::MAX,
        ensures
            final(self).wf(),
            r is Unknown <==> !arriving(old(self).files@, peer@, sid),
            r is Unknown ==> *final(self) == *old(self),
            r !is Unknown ==> exists|i: int| #[trigger]
                is_at(old(self).files@, peer@, sid, i) && settles(
                    *old(self),
                    *final(self),
                    i,
                    to_stdout,
                    verdict,
                    r,
                ),
    {
        match self.find(peer, sid) {
            None => Settled::Unknown,
            Some(i) => {
                let ghost was = *self;
                proof {
                    assert(is_at(was.files@, peer@, sid, i as int));
                }
                if to_stdout {
                    self.files.remove(i);
                    self.completed = self.completed + 1;
                    proof {
                        remove_keeps_wf(was, *self, i as int);
                    }
                    return Settled::Streamed;
                }
                if self.files[i].full.is_none() {
                    let file = self.files.remove(i);
                    proof {
                        remove_keeps_wf(was, *self, i as int);
                    }
                    return Settled::Place { file, ack: false };
                }
                match verdict {
                    VerifyResult::Match => {
                        let file = self.files.remove(i);
                        let _ = self.verify_fails.remove(file.id.as_str());
                        proof {
                            remove_keeps_wf(was, *self, i as int);
                        }
                        Settled::Place { file, ack: true }
                    },
                    VerifyResult::Mismatch { restart_from_zero } => {
                        let fails: u32 = match self.verify_fails.get(self.files[i].id.as_str()) {
                            Some(n) => *n + 1,
                            None => 1,
                        };
                        if fails > MAX_VERIFY_FAILS {
                            let file = self.files.remove(i);
                            let _ = self.verify_fails.remove(file.id.as_str());
                            proof {
                                remove_keeps_wf(was, *self, i as int);
                            }
                            return Settled::GiveUp {
                                message: cat3(
                                    "  ",
                                    file.name.as_str(),
                                    ": whole-file checksum still wrong after 3 re-fetches, refusing to accept a corrupt file (partial kept)",
                                ),
                            };
                        }
                        let id = self.files[i].id.clone();
                        self.verify_fails.insert(id.as_str(), fails);
                        if restart_from_zero {
                            self.files[i].received = 0;
                            self.files[i].ranges = Vec::new();
                        }
                        self.files[i].end_seen = false;
                        proof {
                            assert(same_but(was.files@, self.files@, i as int));
                        }
                        Settled::Refetch {
                            id,
                            offset: self.files[i].received,
                            attempt: fails,
                            restart: restart_from_zero,
                        }
                    },
                }
            },
        }
    }

    /// A file was moved to its final name, or was not. Tells whether the sender is to
    /// have its delivery ack: it is, if the file is in place and its digest was compared.
    pub fn placed(&mut self, in_place: bool, ack: bool) -> (r: bool)
        requires
            old(self).wf(),
            old(self).completed < u64::MAX,
        ensures
            final(self).wf(),
            r == (in_place && ack),
            final(self).files == old(self).files,
            final(self).verify_fails == old(self).verify_fails,
            final(self).completed == old(self).completed + (if in_place {
                1int
            } else {
                0
            }),
    {
        if in_place {
            self.completed = self.completed + 1;
        }
        in_place && ack
    }
}

/// The files for which `keep` holds, in order.
pub open spec fn kept(s: Seq<IncomingFile>, keep: spec_fn(IncomingFile) -> bool) -> Seq<IncomingFile>
    decreases s.len(),
{
    if s.len() == 0 {
        s
    } else {
        let rest = kept(s.subrange(1, s.len() as int), keep);
        if keep(s[0]) {
            seq![s[0]] + rest
        } else {
            rest
        }
    }
}

/// The files that do not run into the partial file `part`.
pub open spec fn not_into(part: Seq<char>) -> spec_fn(IncomingFile) -> bool {
    |f: IncomingFile| f.part_path@ != part
}

/// The files that do not come from `peer`.
pub open spec fn not_from(peer: Seq<char>) -> spec_fn(IncomingFile) -> bool {
    |f: IncomingFile| f.peer@ != peer
}

/// Every file that is kept was there, once, and in the same order.
proof fn kept_are_from(s: Seq<IncomingFile>, keep: spec_fn(IncomingFile) -> bool) -> (at: Seq<int>)
    ensures
        at.len() == kept(s, keep).len(),
        forall|i: int|
            0 <= i < at.len() ==> 0 <= #[trigger] at[i] < s.len() && kept(s, keep)[i] == s[at[i]]
                && keep(s[at[i]]),
        forall|i: int, j: int| 0 <= i < j < at.len() ==> #[trigger] at[i] < #[trigger] at[j],
    decreases s.len(),
{
    if s.len() == 0 {
        Seq::empty()
    } else {
        let tail = s.subrange(1, s.len() as int);
        let below = kept_are_from(tail, keep);
        let shifted = Seq::new(below.len(), |i: int| below[i] + 1);
        assert forall|i: int| 0 <= i < shifted.len() implies 0 <= #[trigger] shifted[i] < s.len()
            && kept(tail, keep)[i] == s[shifted[i]] && keep(s[shifted[i]]) && shifted[i] >= 1 by {
            assert(tail[below[i]] == s[below[i] + 1]);
        }
        assert forall|i: int, j: int| 0 <= i < j < shifted.len() implies #[trigger] shifted[i]
            < #[trigger] shifted[j] by {
            assert(below[i] < below[j]);
        }
        if keep(s[0]) {
            let at = seq![0int] + shifted;
            let k = kept(s, keep);
            assert forall|i: int| 0 <= i < at.len() implies 0 <= #[trigger] at[i] < s.len() && k[i]
                == s[at[i]] && keep(s[at[i]]) by {
                if i > 0 {
                    assert(at[i] == shifted[i - 1]);
                    assert(k[i] == kept(tail, keep)[i - 1]);
                }
            }
            assert forall|i: int, j: int| 0 <= i < j < at.len() implies #[trigger] at[i]
                < #[trigger] at[j] by {
                assert(at[j] == shifted[j - 1]);
                if i > 0 {
                    assert(at[i] == shifted[i - 1]);
                }
            }
            at
        } else {
            shifted
        }
    }
}

/// Keeping some of the files leaves one file for each peer and stream.
proof fn kept_keeps_wf(was: Assembly, now: Assembly, keep: spec_fn(IncomingFile) -> bool)
    requires
        was.wf(),
        now.files@ == kept(was.files@, keep),
        now.verify_fails == was.verify_fails,
    ensures
        now.wf(),
{
    let at = kept_are_from(was.files@, keep);
    assert forall|i: int, j: int| 0 <= i < j < now.files@.len() implies !((
    #[trigger] now.files@[i]).peer@ == (#[trigger] now.files@[j]).peer@ && now.files@[i].sid
        == now.files@[j].sid) by {
        assert(at[i] < at[j]);
        assert(now.files@[i] == was.files@[at[i]] && now.files@[j] == was.files@[at[j]]);
    }
    assert forall|i: int| 0 <= i < now.files@.len() implies (#[trigger] now.files@[i]).wf() by {
        assert(now.files@[i] == was.files@[at[i]]);
    }
    assert forall|i: int, j: int| 0 <= i < j < now.files@.len() implies (
    #[trigger] now.files@[i]).part_path@ != (#[trigger] now.files@[j]).part_path@
        || now.files@[i].part_path@.len() == 0 by {
        assert(at[i] < at[j]);
        assert(now.files@[i] == was.files@[at[i]] && now.files@[j] == was.files@[at[j]]);
    }
}

/// No two streams run into one partial file.
pub open spec fn one_stream_per_part(files: Seq<IncomingFile>) -> bool {
    forall|i: int, j: int|
        0 <= i < j < files.len() ==> (#[trigger] files[i]).part_path@ != (
        #[trigger] files[j]).part_path@ || files[i].part_path@.len() == 0
}

/// No stream runs into this partial file; what goes to the standard output has none.
pub open spec fn free_part(files: Seq<IncomingFile>, part: Seq<char>) -> bool {
    part.len() == 0 || forall|i: int|
        0 <= i < files.len() ==> (#[trigger] files[i]).part_path@ != part
}

/// Some stream runs into this partial file, from a peer whose link is flowing.
pub open spec fn flowing_into(files: Seq<IncomingFile>, part: Seq<char>, flowing: Seq<String>) -> bool {
    exists|i: int|
        0 <= i < files.len() && (#[trigger] files[i]).part_path@ == part && keyed::listed(
            flowing,
            files[i].peer@,
        )
}

impl Assembly {
    /// Make way for a stream into the partial file `part`: a stream into it from a peer
    /// whose link is flowing stays, and the new one is refused; stalled ones give way.
    pub fn make_way(&mut self, part: &str, flowing: &Vec<String>) -> (r: bool)
        requires
            old(self).wf(),
        ensures
            final(self).wf(),
            final(self).verify_fails == old(self).verify_fails,
            final(self).completed == old(self).completed,
            r == !flowing_into(old(self).files@, part@, flowing@),
            !r ==> final(self).files@ == old(self).files@,
            r ==> final(self).files@ == kept(
                old(self).files@,
                not_into(part@),
            ),
    {
        let ghost was = *self;
        let mut i: usize = 0;
        while i < self.files.len()
            invariant
                i <= self.files@.len(),
                *self == was,
                was.wf(),
                forall|a: int|
                    0 <= a < i ==> !((#[trigger] was.files@[a]).part_path@ == part@ && keyed::listed(
                        flowing@,
                        was.files@[a].peer@,
                    )),
            decreases self.files.len() - i,
        {
            if same(self.files[i].part_path.as_str(), part) && lists(
                flowing,
                self.files[i].peer.as_str(),
            ) {
                return false;
            }
            i += 1;
        }
        self.drop_where(true, part);
        true
    }

    /// Drop the files that run into a partial file, or come from a peer.
    fn drop_where(&mut self, by_part: bool, value: &str)
        requires
            old(self).wf(),
        ensures
            final(self).wf(),
            final(self).verify_fails == old(self).verify_fails,
            final(self).completed == old(self).completed,
            by_part ==> final(self).files@ == kept(
                old(self).files@,
                not_into(value@),
            ),
            !by_part ==> final(self).files@ == kept(
                old(self).files@,
                not_from(value@),
            ),
    {
        let ghost was = *self;
        let ghost keep = if by_part {
            not_into(value@)
        } else {
            not_from(value@)
        };
        let n: usize = self.files.len();
        let mut i: usize = n;
        proof {
            let none = was.files@.subrange(n as int, n as int);
            assert(kept(none, keep) =~= none);
            assert(was.files@ =~= was.files@.subrange(0, n as int) + none);
        }
        while i > 0
            invariant
                i <= n,
                n == was.files@.len(),
                by_part ==> keep == not_into(value@),
                !by_part ==> keep == not_from(value@),
                self.verify_fails == was.verify_fails,
                self.completed == was.completed,
                self.files@ == was.files@.subrange(0, i as int) + kept(
                    was.files@.subrange(i as int, n as int),
                    keep,
                ),
            decreases i,
        {
            i -= 1;
            proof {
                let rest = was.files@.subrange(i as int, n as int);
                assert(rest.subrange(1, rest.len() as int) =~= was.files@.subrange(
                    i + 1,
                    n as int,
                ));
                assert(self.files@[i as int] == was.files@[i as int]);
            }
            let hit: bool = if by_part {
                same(self.files[i].part_path.as_str(), value)
            } else {
                same(self.files[i].peer.as_str(), value)
            };
            if hit {
                self.files.remove(i);
            }
            proof {
                assert(self.files@ =~= was.files@.subrange(0, i as int) + kept(
                    was.files@.subrange(i as int, n as int),
                    keep,
                ));
            }
        }
        proof {
            assert(was.files@.subrange(0, n as int) =~= was.files@);
            assert(self.files@ =~= kept(was.files@, keep));
            kept_keeps_wf(was, *self, keep);
        }
    }

    /// Drop the files that arrive from `peer`, its link being gone or stalled. Their
    /// partial bytes stay on disk.
    pub fn drop_peer(&mut self, peer: &str)
        requires
            old(self).wf(),
        ensures
            final(self).wf(),
            final(self).verify_fails == old(self).verify_fails,
            final(self).completed == old(self).completed,
            final(self).files@ == kept(old(self).files@, not_from(peer@)),
    {
        self.drop_where(false, peer);
    }

    /// Drop every file that arrives. Their partial bytes stay on disk.
    pub fn park_all(&mut self)
        requires
            old(self).wf(),
        ensures
            final(self).wf(),
            final(self).verify_fails == old(self).verify_fails,
            final(self).completed == old(self).completed,
            final(self).files@.len() == 0,
    {
        self.files = Vec::new();
    }

    /// Start a file, in place of one that arrives over the same stream. What is there of
    /// it already, `offset` bytes, is its start.
    pub fn begin(
        &mut self,
        peer: &str,
        sid: u32,
        id: &str,
        name: &str,
        size: u64,
        offset: u64,
        part_path: &str,
        full: Option<String>,
    )
        requires
            old(self).wf(),
            free_part(old(self).files@, part_path@),
        ensures
            final(self).wf(),
            final(self).verify_fails == old(self).verify_fails,
            final(self).completed == old(self).completed,
            final(self).files@.len() > 0,
            others_stay(old(self).files@, final(self).files@, peer@, sid),
            starts(
                final(self).files@.last(),
                peer@,
                sid,
                id@,
                name@,
                size,
                offset,
                part_path@,
                full,
            ),
    {
        let ghost was = *self;
        if let Some(i) = self.find(peer, sid) {
            self.files.remove(i);
            proof {
                assert(is_at(was.files@, peer@, sid, i as int));
                remove_keeps_wf(was, *self, i as int);
                assert forall|j: int| !is_at(self.files@, peer@, sid, j) by {
                    if is_at(self.files@, peer@, sid, j) {
                        let k = if j < i {
                            j
                        } else {
                            j + 1
                        };
                        assert(self.files@[j] == was.files@[k]);
                        assert(was.files@[i as int].sid == sid);
                    }
                }
            }
        }
        let ghost mid = *self;
        let mut ranges: Vec<(u64, u64)> = Vec::new();
        if offset > 0 {
            ranges.push((0, offset));
            proof {
                assert(ranges@ =~= seq![(0u64, offset)]);
                assert(ranges@.drop_last() =~= Seq::<(u64, u64)>::empty());
                assert(coverage::measure(ranges@.drop_last()) == 0);
            }
        }
        let f = IncomingFile {
            peer: peer.to_owned(),
            sid,
            id: id.to_owned(),
            name: name.to_owned(),
            size,
            received: offset,
            ranges,
            part_path: part_path.to_owned(),
            full,
            inflight: 0,
            end_seen: false,
            ack_sid: 0,
        };
        self.files.push(f);
        proof {
            assert(self.files@.drop_last() =~= mid.files@);
            assert(self.files@.last() == f);
            assert forall|i: int, j: int| 0 <= i < j < self.files@.len() implies !((
            #[trigger] self.files@[i]).peer@ == (#[trigger] self.files@[j]).peer@
                && self.files@[i].sid == self.files@[j].sid) by {
                if j == mid.files@.len() {
                    assert(self.files@[i] == mid.files@[i]);
                    assert(!is_at(mid.files@, peer@, sid, i));
                } else {
                    assert(self.files@[i] == mid.files@[i] && self.files@[j] == mid.files@[j]);
                }
            }
        }
    }
}

/// The last of `now` has come to the files of `was`, in place of one that arrived over the same
/// stream.
pub open spec fn others_stay(
    was: Seq<IncomingFile>,
    now: Seq<IncomingFile>,
    peer: Seq<char>,
    sid: u32,
) -> bool {
    &&& !arriving(was, peer, sid) ==> now.drop_last() == was
    &&& arriving(was, peer, sid) ==> exists|i: int| #[trigger]
        is_at(was, peer, sid, i) && now.drop_last() == was.remove(i)
}

/// A file of which the first `offset` bytes are there.
pub open spec fn starts(
    f: IncomingFile,
    peer: Seq<char>,
    sid: u32,
    id: Seq<char>,
    name: Seq<char>,
    size: u64,
    offset: u64,
    part_path: Seq<char>,
    full: Option<String>,
) -> bool {
    &&& f.peer@ == peer
    &&& f.sid == sid
    &&& f.id@ == id
    &&& f.name@ == name
    &&& f.size == size
    &&& f.received == offset
    &&& f.ranges@ == (if offset > 0 {
        seq![(0u64, offset)]
    } else {
        Seq::empty()
    })
    &&& f.part_path@ == part_path
    &&& f.full == full
    &&& f.inflight == 0
    &&& !f.end_seen
    &&& f.ack_sid == 0
}

/// After way was made for a partial file no stream runs into it, and where no two streams
/// ran into one partial file before, none do after.
pub proof fn way_made_means_no_stream(was: Seq<IncomingFile>, part: Seq<char>)
    ensures
        forall|i: int|
            0 <= i < kept(was, not_into(part)).len() ==> (#[trigger] kept(
                was,
                not_into(part),
            )[i]).part_path@ != part,
        one_stream_per_part(was) ==> one_stream_per_part(
            kept(was, not_into(part)),
        ),
{
    let keep = not_into(part);
    let at = kept_are_from(was, keep);
    let k = kept(was, keep);
    assert forall|i: int| 0 <= i < k.len() implies (#[trigger] k[i]).part_path@ != part by {
        assert(keep(was[at[i]]));
    }
    if one_stream_per_part(was) {
        assert forall|i: int, j: int| 0 <= i < j < k.len() implies (#[trigger] k[i]).part_path@ != (
        #[trigger] k[j]).part_path@ || k[i].part_path@.len() == 0 by {
            assert(at[i] < at[j]);
            assert(k[i] == was[at[i]] && k[j] == was[at[j]]);
        }
    }
}

/// A stream that is started into a partial file that no stream runs into keeps it so that
/// no two streams run into one.
pub proof fn first_stream_wins(was: Seq<IncomingFile>, f: IncomingFile)
    requires
        one_stream_per_part(was),
        forall|i: int| 0 <= i < was.len() ==> (#[trigger] was[i]).part_path@ != f.part_path@,
    ensures
        one_stream_per_part(was.push(f)),
{
    let now = was.push(f);
    assert forall|i: int, j: int| 0 <= i < j < now.len() implies (#[trigger] now[i]).part_path@ != (
    #[trigger] now[j]).part_path@ || now[i].part_path@.len() == 0 by {
        assert(now[i] == was[i]);
        if j < was.len() {
            assert(now[j] == was[j]);
        }
    }
}

/// Every byte of a file is there and no write is under way. Of a file without bytes that says
/// nothing: it waits for its end.
pub open spec fn is_stranded(f: IncomingFile) -> bool {
    f.size > 0 && f.inflight == 0 && f.all_there()
}

/// The streams over which every byte of a file has come, in order.
pub open spec fn stranded_of(files: Seq<IncomingFile>) -> Seq<(Seq<char>, u32)>
    decreases files.len(),
{
    if files.len() == 0 {
        Seq::empty()
    } else if is_stranded(files.last()) {
        stranded_of(files.drop_last()).push((files.last().peer@, files.last().sid))
    } else {
        stranded_of(files.drop_last())
    }
}

/// What some streams are.
pub open spec fn streams_of(v: Seq<(String, u32)>) -> Seq<(Seq<char>, u32)> {
    Seq::new(v.len(), |i: int| (v[i].0@, v[i].1))
}

impl Assembly {
    /// The streams over which every byte of a file has come. Their files can be settled though
    /// nobody said that they are over, for that word can be lost with the link.
    pub fn stranded(&self) -> (r: Vec<(String, u32)>)
        requires
            self.wf(),
        ensures
            streams_of(r@) == stranded_of(self.files@),
    {
        let mut out: Vec<(String, u32)> = Vec::new();
        let mut i: usize = 0;
        proof {
            assert(self.files@.subrange(0, 0) =~= Seq::<IncomingFile>::empty());
            assert(streams_of(out@) =~= stranded_of(self.files@.subrange(0, 0)));
        }
        while i < self.files.len()
            invariant
                i <= self.files@.len(),
                self.wf(),
                streams_of(out@) == stranded_of(self.files@.subrange(0, i as int)),
            decreases self.files.len() - i,
        {
            let ghost before = streams_of(out@);
            let ghost upto = self.files@.subrange(0, i + 1);
            let f = &self.files[i];
            proof {
                assert(upto.drop_last() =~= self.files@.subrange(0, i as int));
                assert(upto.last() == *f);
                assert(f.wf());
            }
            if f.size > 0 && f.inflight == 0 && f.received >= f.size && coverage_complete(
                &f.ranges,
                f.size,
            ) {
                out.push((f.peer.clone(), f.sid));
                proof {
                    assert(streams_of(out@) =~= before.push((f.peer@, f.sid)));
                }
            }
            i += 1;
        }
        proof {
            assert(self.files@.subrange(0, self.files@.len() as int) =~= self.files@);
        }
        out
    }
}

/// The peers from which files arrive, one for each file.
pub open spec fn peers_of(files: Seq<IncomingFile>) -> Seq<Seq<char>> {
    Seq::new(files.len(), |i: int| files[i].peer@)
}

impl Assembly {
    /// The peers to stay in touch with should their links drop: those from which files arrive,
    /// once something was delivered.
    pub fn in_touch(&self) -> (r: Vec<String>)
        ensures
            frame::views(r@) == (if self.completed > 0 {
                peers_of(self.files@)
            } else {
                Seq::empty()
            }),
    {
        let mut out: Vec<String> = Vec::new();
        if self.completed == 0 {
            assert(frame::views(out@) =~= Seq::empty());
            return out;
        }
        let mut i: usize = 0;
        while i < self.files.len()
            invariant
                i <= self.files@.len(),
                out@.len() == i,
                forall|j: int| 0 <= j < i ==> (#[trigger] out@[j])@ == self.files@[j].peer@,
            decreases self.files.len() - i,
        {
            out.push(self.files[i].peer.clone());
            i += 1;
        }
        assert(frame::views(out@) =~= peers_of(self.files@));
        out
    }
}

/// A file of which every byte was written is noticed without its sender's word that it is
/// over, whichever other files arrive.
pub proof fn lost_end_is_noticed(files: Seq<IncomingFile>, i: int)
    requires
        0 <= i < files.len(),
        is_stranded(files[i]),
    ensures
        stranded_of(files).contains((files[i].peer@, files[i].sid)),
    decreases files.len(),
{
    let rest = files.drop_last();
    if i == files.len() - 1 {
        assert(stranded_of(files).last() == (files[i].peer@, files[i].sid));
    } else {
        assert(rest[i] == files[i]);
        lost_end_is_noticed(rest, i);
        let k = choose|k: int|
            0 <= k < stranded_of(rest).len() && stranded_of(rest)[k] == (files[i].peer@, files[i].sid);
        assert(stranded_of(files)[k] == stranded_of(rest)[k]);
    }
}

/// What a write of `len` bytes at `pos` does to a file.
pub open spec fn write_landed(
    was: IncomingFile,
    now: IncomingFile,
    pos: u64,
    len: u64,
    wrote: bool,
) -> bool {
    &&& same_file(was, now)
    &&& now.inflight == was.inflight - 1
    &&& now.end_seen == was.end_seen
    &&& now.ack_sid == was.ack_sid
    &&& now.wf()
    &&& wrote ==> forall|b: int| #[trigger]
        coverage::covers(now.ranges@, b) == (coverage::covers(was.ranges@, b) || pos <= b < pos + len)
    &&& !wrote ==> now.ranges == was.ranges && now.received == was.received
}

/// What settling the file at `i` does.
pub open spec fn settles(
    was: Assembly,
    now: Assembly,
    i: int,
    to_stdout: bool,
    verdict: VerifyResult,
    r: Settled,
) -> bool {
    let f = was.files@[i];
    let fails = was.verify_fails@;
    if to_stdout {
        &&& r is Streamed
        &&& now.files@ == was.files@.remove(i)
        &&& now.verify_fails == was.verify_fails
        &&& now.completed == was.completed + 1
    } else if f.full is None {
        &&& r == (Settled::Place { file: f, ack: false })
        &&& now.files@ == was.files@.remove(i)
        &&& now.verify_fails == was.verify_fails
        &&& now.completed == was.completed
    } else if verdict is Match {
        &&& r == (Settled::Place { file: f, ack: true })
        &&& now.files@ == was.files@.remove(i)
        &&& now.verify_fails@ == fails.remove(f.id@)
        &&& now.completed == was.completed
    } else if fails_of(fails, f.id@) >= MAX_VERIFY_FAILS {
        &&& r is GiveUp
        &&& r->message@ == "  "@ + f.name@
            + ": whole-file checksum still wrong after 3 re-fetches, refusing to accept a corrupt file (partial kept)"@
        &&& now.files@ == was.files@.remove(i)
        &&& now.verify_fails@ == fails.remove(f.id@)
        &&& now.completed == was.completed
    } else {
        &&& r matches Settled::Refetch { id, offset, attempt, restart }
        &&& id@ == f.id@
        &&& attempt == fails_of(fails, f.id@) + 1
        &&& restart == verdict->restart_from_zero
        &&& offset == (if restart {
            0
        } else {
            f.received
        })
        &&& same_but(was.files@, now.files@, i)
        &&& same_file(f, now.files@[i])
        &&& now.files@[i].received == offset
        &&& now.files@[i].ranges@ == (if restart {
            Seq::<(u64, u64)>::empty()
        } else {
            f.ranges@
        })
        &&& now.files@[i].inflight == f.inflight
        &&& now.files@[i].ack_sid == f.ack_sid
        &&& !now.files@[i].end_seen
        &&& now.verify_fails@ == fails.insert(f.id@, attempt)
        &&& now.completed == was.completed
    }
}

/// Taking a file out leaves one file for each peer and stream.
proof fn remove_keeps_wf(was: Assembly, now: Assembly, i: int)
    requires
        was.wf(),
        0 <= i < was.files@.len(),
        now.files@ == was.files@.remove(i),
        now.verify_fails.wf(),
        forall|id: Seq<char>| #[trigger]
            now.verify_fails@.contains_key(id) ==> 0 < now.verify_fails@[id] <= MAX_VERIFY_FAILS,
    ensures
        now.wf(),
{
    let (a, b) = (was.files@, now.files@);
    assert forall|x: int| 0 <= x < b.len() implies (#[trigger] b[x]).wf() by {
        let y = if x < i {
            x
        } else {
            x + 1
        };
        assert(b[x] == a[y]);
    }
    assert forall|x: int, y: int| 0 <= x < y < b.len() implies !((#[trigger] b[x]).peer@ == (
    #[trigger] b[y]).peer@ && b[x].sid == b[y].sid) by {
        let (p, q) = (
            if x < i {
                x
            } else {
                x + 1
            },
            if y < i {
                y
            } else {
                y + 1
            },
        );
        assert(b[x] == a[p] && b[y] == a[q]);
    }
}

/// A file is fetched again at most `MAX_VERIFY_FAILS` times in a row: the attempts of its
/// id count up from one, and at the limit it is given up and its count starts over.
pub proof fn refetches_are_bounded(
    was: Assembly,
    now: Assembly,
    i: int,
    verdict: VerifyResult,
    r: Settled,
)
    requires
        was.wf(),
        0 <= i < was.files@.len(),
        settles(was, now, i, false, verdict, r),
    ensures
        r matches Settled::Refetch { attempt, .. } ==> 1 <= attempt <= MAX_VERIFY_FAILS && fails_of(
            now.verify_fails@,
            was.files@[i].id@,
        ) == fails_of(was.verify_fails@, was.files@[i].id@) + 1,
        r is GiveUp ==> fails_of(was.verify_fails@, was.files@[i].id@) == MAX_VERIFY_FAILS
            && fails_of(now.verify_fails@, was.files@[i].id@) == 0,
{
}

/// Bytes that have been written stay written, whatever is written after them and in
/// whatever order: a file's count of written bytes never goes down by a write.
pub proof fn received_never_regresses(
    was: IncomingFile,
    now: IncomingFile,
    pos: u64,
    len: u64,
    wrote: bool,
)
    requires
        was.wf(),
        write_landed(was, now, pos, len, wrote),
    ensures
        was.received <= now.received,
        forall|b: int| coverage::covers(was.ranges@, b) ==> coverage::covers(now.ranges@, b),
{
    if wrote {
        coverage::measure_is_monotone(was.ranges@, now.ranges@);
    }
}

} // verus!
