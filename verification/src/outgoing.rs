//! The files that a sender offers, from the first offer to the receiver's word that they
//! arrived whole.

use vstd::prelude::*;
use vstd::string::*;
use crate::frame;
use crate::frame::{count_at, member, object, of_count, of_flag, of_text, put};
use crate::offer;
use crate::offer::{count_member, text_member, FileOffer};
use crate::shared_defs;
use crate::shared_defs::elapsed;
use crate::text;
use crate::text::{cat, cat3, cat5, same, to_decimal};

verus! {

broadcast use frame::with_sets_one_member;

/// A file that a sender offers.
pub struct Outgoing {
    pub id: String,
    /// The stream that carries it.
    pub sid: u32,
    pub name: String,
    pub size: u64,
    /// The digest of the head, where it could be computed.
    pub head: Option<String>,
    /// The digest of the whole, where it could be computed.
    pub full: Option<String>,
    /// It lies in a temporary file of ours.
    pub temp: bool,
    /// The receiver has accepted it at least once.
    pub accepted_once: bool,
    /// All of its bytes have left this side.
    pub sent: bool,
    /// The receiver has said that it arrived whole, or there is no digest to say so by.
    pub acked: bool,
    /// The receiver does not want it.
    pub declined: bool,
    /// There is nothing more to do about it.
    pub done: bool,
    /// When its bytes began to go out, last.
    pub stream_started: Option<u64>,
    /// How many bytes were to go out then.
    pub stream_bytes: u64,
}

impl Outgoing {
    /// A file is done only when the receiver has it or does not want it.
    pub open spec fn wf(self) -> bool {
        self.done ==> self.acked || self.declined
    }

    /// `self` and `o` are the same file.
    pub open spec fn same_file(self, o: Outgoing) -> bool {
        &&& self.id == o.id
        &&& self.sid == o.sid
        &&& self.name == o.name
        &&& self.size == o.size
        &&& self.head == o.head
        &&& self.full == o.full
        &&& self.temp == o.temp
    }
}

/// `o` with a text member, where there is a text.
pub open spec fn with_text(o: frame::Json, key: Seq<char>, t: Option<Seq<char>>) -> frame::Json {
    match t {
        Some(s) => o.with(key, frame::Json::Text(s)),
        None => o,
    }
}

/// The frame that offers a file; `resume` where the receiver is to go on with what it has
/// of it.
pub open spec fn offer_json(o: Outgoing, resume: bool) -> frame::Json {
    with_text(
        with_text(
            frame::empty_object().with("type"@, frame::Json::Text("file-offer"@)).with(
                "id"@,
                frame::Json::Text(o.id@),
            ).with("sid"@, frame::Json::Number(Some(o.sid as u64))).with(
                "name"@,
                frame::Json::Text(o.name@),
            ).with("size"@, frame::Json::Number(Some(o.size))).with(
                "resume"@,
                frame::Json::Bool(resume),
            ),
            "head"@,
            shared_defs::view_of(o.head),
        ),
        "full"@,
        shared_defs::view_of(o.full),
    )
}

/// The frame that offers a file.
pub fn offer_msg(o: &Outgoing, resume: bool) -> (r: serde_json::Value)
    ensures
        frame::json(r) == offer_json(*o, resume),
{
    let mut v = object();
    put(&mut v, "type", of_text("file-offer"));
    put(&mut v, "id", of_text(o.id.as_str()));
    put(&mut v, "sid", of_count(o.sid as u64));
    put(&mut v, "name", of_text(o.name.as_str()));
    put(&mut v, "size", of_count(o.size));
    put(&mut v, "resume", of_flag(resume));
    match &o.head {
        Some(h) => put(&mut v, "head", of_text(h.as_str())),
        None => {},
    }
    match &o.full {
        Some(f) => put(&mut v, "full", of_text(f.as_str())),
        None => {},
    }
    v
}

/// The frame that ends a stream.
pub open spec fn end_json(id: Seq<char>, sid: u32) -> frame::Json {
    frame::empty_object().with("type"@, frame::Json::Text("file-end"@)).with(
        "id"@,
        frame::Json::Text(id),
    ).with("sid"@, frame::Json::Number(Some(sid as u64)))
}

/// The frame that ends a stream.
pub fn end_msg(id: &str, sid: u32) -> (r: serde_json::Value)
    ensures
        frame::json(r) == end_json(id@, sid),
{
    let mut v = object();
    put(&mut v, "type", of_text("file-end"));
    put(&mut v, "id", of_text(id));
    put(&mut v, "sid", of_count(sid as u64));
    v
}

/// A receiver reads an offer as the sender meant it: the file, its size and digests, and
/// whether it goes on with an earlier transfer. No offer of a sender claims the operator's
/// consent.
pub proof fn offer_is_read_as_meant(o: Outgoing, resume: bool, token: Seq<char>, r: FileOffer)
    requires
        offer::describes(offer_json(o, resume), token, r),
    ensures
        r.id@ == o.id@,
        r.sid == o.sid,
        r.raw_name@ == o.name@,
        r.size == o.size,
        shared_defs::view_of(r.head) == shared_defs::view_of(o.head),
        shared_defs::view_of(r.full) == shared_defs::view_of(o.full),
        r.resume == resume,
        !r.consented,
{
    reveal_strlit("type");
    reveal_strlit("id");
    reveal_strlit("sid");
    reveal_strlit("name");
    reveal_strlit("size");
    reveal_strlit("resume");
    reveal_strlit("head");
    reveal_strlit("full");
    reveal_strlit("__consent");
    assert("id"@.len() == 2 && "sid"@.len() == 3 && "resume"@.len() == 6 && "__consent"@.len() == 9);
    assert("type"@[0] == 't' && "name"@[0] == 'n' && "size"@[0] == 's' && "head"@[0] == 'h'
        && "full"@[0] == 'f');
    assert("type"@.len() == 4 && "name"@.len() == 4 && "size"@.len() == 4 && "head"@.len() == 4
        && "full"@.len() == 4);
}

/// What the values hold, one by one.
pub open spec fn jsons(v: Seq<serde_json::Value>) -> Seq<frame::Json> {
    Seq::new(v.len(), |i: int| frame::json(v[i]))
}

/// `i` is where the first file called `id` is.
pub open spec fn is_first(files: Seq<Outgoing>, id: Seq<char>, i: int) -> bool {
    &&& 0 <= i < files.len()
    &&& files[i].id@ == id
    &&& forall|j: int| 0 <= j < i ==> (#[trigger] files[j]).id@ != id
}

/// Some file is called `id`.
pub open spec fn known(files: Seq<Outgoing>, id: Seq<char>) -> bool {
    exists|i: int| is_first(files, id, i)
}

/// The offers of what is not done, in order: those that were accepted before go on with
/// what the receiver has.
pub open spec fn offers_of(files: Seq<Outgoing>) -> Seq<frame::Json>
    decreases files.len(),
{
    if files.len() == 0 {
        Seq::empty()
    } else {
        let rest = offers_of(files.drop_last());
        let o = files.last();
        if o.done {
            rest
        } else {
            rest.push(offer_json(o, o.accepted_once))
        }
    }
}

/// The offers of what was accepted and is not done, in order, each to go on with what the
/// receiver has.
pub open spec fn resumes_of(files: Seq<Outgoing>) -> Seq<frame::Json>
    decreases files.len(),
{
    if files.len() == 0 {
        Seq::empty()
    } else {
        let rest = resumes_of(files.drop_last());
        let o = files.last();
        if o.accepted_once && !o.done {
            rest.push(offer_json(o, true))
        } else {
            rest
        }
    }
}

/// The ends of what is not done, in order.
pub open spec fn ends_of(files: Seq<Outgoing>) -> Seq<frame::Json>
    decreases files.len(),
{
    if files.len() == 0 {
        Seq::empty()
    } else {
        let rest = ends_of(files.drop_last());
        let o = files.last();
        if o.done {
            rest
        } else {
            rest.push(end_json(o.id@, o.sid))
        }
    }
}

/// The peer's state frame says that it holds less of a file than we believe to have
/// delivered.
pub open spec fn diverges(o: Outgoing, state: frame::Json) -> bool {
    o.done && (state.member("transfers"@).count_at(o.id@) matches Some(b) && b < o.size)
}

/// The offers of what the peer's state frame shows to be missing, in order.
pub open spec fn reoffers_of(files: Seq<Outgoing>, state: frame::Json) -> Seq<frame::Json>
    decreases files.len(),
{
    if files.len() == 0 {
        Seq::empty()
    } else {
        let rest = reoffers_of(files.drop_last(), state);
        let o = files.last();
        if diverges(o, state) {
            rest.push(offer_json(o, true))
        } else {
            rest
        }
    }
}

/// How many files the receiver has.
pub open spec fn delivered_count(files: Seq<Outgoing>) -> nat
    decreases files.len(),
{
    if files.len() == 0 {
        0
    } else {
        let o = files.last();
        delivered_count(files.drop_last()) + if o.done && !o.declined {
            1nat
        } else {
            0
        }
    }
}

/// How many files the receiver does not want.
pub open spec fn declined_count(files: Seq<Outgoing>) -> nat
    decreases files.len(),
{
    if files.len() == 0 {
        0
    } else {
        declined_count(files.drop_last()) + if files.last().declined {
            1nat
        } else {
            0
        }
    }
}

/// How a file went: `bytes` bytes in `nanos` nanoseconds.
pub struct Summary {
    pub name: String,
    pub bytes: u64,
    pub nanos: u64,
}

/// What a stream of a file needs.
pub struct StreamOf {
    pub sid: u32,
    pub name: String,
    pub size: u64,
}

/// The receiver has a file.
pub struct Delivered {
    pub line: String,
    /// How it went, where its bytes were seen to go out.
    pub summary: Option<Summary>,
}

/// The files that a sender offers.
pub struct Outbox {
    pub files: Vec<Outgoing>,
}

impl Outbox {
    /// Every file is done only when the receiver has it or does not want it.
    pub open spec fn wf(self) -> bool {
        forall|i: int| 0 <= i < self.files@.len() ==> (#[trigger] self.files@[i]).wf()
    }

    /// Where the first file called `id` is.
    pub fn find(&self, id: &str) -> (r: Option<usize>)
        ensures
            r is None <==> !known(self.files@, id@),
            r matches Some(i) ==> is_first(self.files@, id@, i as int),
    {
        let mut i: usize = 0;
        while i < self.files.len()
            invariant
                i <= self.files@.len(),
                forall|j: int| 0 <= j < i ==> (#[trigger] self.files@[j]).id@ != id@,
            decreases self.files.len() - i,
        {
            if same(self.files[i].id.as_str(), id) {
                proof {
                    assert(is_first(self.files@, id@, i as int));
                }
                return Some(i);
            }
            i += 1;
        }
        None
    }

    /// The offers to make over a link that came up.
    pub fn offers(&self) -> (r: Vec<serde_json::Value>)
        ensures
            jsons(r@) == offers_of(self.files@),
    {
        let mut out: Vec<serde_json::Value> = Vec::new();
        let mut i: usize = 0;
        proof {
            assert(jsons(out@) =~= offers_of(self.files@.take(0)));
        }
        while i < self.files.len()
            invariant
                i <= self.files@.len(),
                jsons(out@) == offers_of(self.files@.take(i as int)),
            decreases self.files.len() - i,
        {
            let ghost before = out@;
            let ghost t = self.files@.take(i + 1);
            proof {
                assert(t.drop_last() =~= self.files@.take(i as int));
                assert(t.last() == self.files@[i as int]);
            }
            if !self.files[i].done {
                out.push(offer_msg(&self.files[i], self.files[i].accepted_once));
                proof {
                    assert(jsons(out@) =~= jsons(before).push(frame::json(out@.last())));
                }
            }
            i += 1;
        }
        proof {
            assert(self.files@.take(i as int) =~= self.files@);
        }
        out
    }

    /// The offers to make over a link that stalled.
    pub fn resumes(&self) -> (r: Vec<serde_json::Value>)
        ensures
            jsons(r@) == resumes_of(self.files@),
    {
        let mut out: Vec<serde_json::Value> = Vec::new();
        let mut i: usize = 0;
        proof {
            assert(jsons(out@) =~= resumes_of(self.files@.take(0)));
        }
        while i < self.files.len()
            invariant
                i <= self.files@.len(),
                jsons(out@) == resumes_of(self.files@.take(i as int)),
            decreases self.files.len() - i,
        {
            let ghost before = out@;
            let ghost t = self.files@.take(i + 1);
            proof {
                assert(t.drop_last() =~= self.files@.take(i as int));
                assert(t.last() == self.files@[i as int]);
            }
            if self.files[i].accepted_once && !self.files[i].done {
                out.push(offer_msg(&self.files[i], true));
                proof {
                    assert(jsons(out@) =~= jsons(before).push(frame::json(out@.last())));
                }
            }
            i += 1;
        }
        proof {
            assert(self.files@.take(i as int) =~= self.files@);
        }
        out
    }

    /// The ends to send again where no word came that the files arrived.
    pub fn ends(&self) -> (r: Vec<serde_json::Value>)
        ensures
            jsons(r@) == ends_of(self.files@),
    {
        let mut out: Vec<serde_json::Value> = Vec::new();
        let mut i: usize = 0;
        proof {
            assert(jsons(out@) =~= ends_of(self.files@.take(0)));
        }
        while i < self.files.len()
            invariant
                i <= self.files@.len(),
                jsons(out@) == ends_of(self.files@.take(i as int)),
            decreases self.files.len() - i,
        {
            let ghost before = out@;
            let ghost t = self.files@.take(i + 1);
            proof {
                assert(t.drop_last() =~= self.files@.take(i as int));
                assert(t.last() == self.files@[i as int]);
            }
            if !self.files[i].done {
                out.push(end_msg(self.files[i].id.as_str(), self.files[i].sid));
                proof {
                    assert(jsons(out@) =~= jsons(before).push(frame::json(out@.last())));
                }
            }
            i += 1;
        }
        proof {
            assert(self.files@.take(i as int) =~= self.files@);
        }
        out
    }

    /// The receiver wants a file: which, and from which byte on.
    pub fn accepted(&mut self, v: &serde_json::Value) -> (r: (String, u64))
        requires
            old(self).wf(),
        ensures
            final(self).wf(),
            r.0@ == offer::text_or(frame::json(*v), "id"@, Seq::empty()),
            r.1 == offer::count_or_zero(frame::json(*v), "offset"@),
            !known(old(self).files@, r.0@) ==> final(self).files@ == old(self).files@,
            forall|i: int| #[trigger]
                is_first(old(self).files@, r.0@, i) ==> final(self).files@ == old(
                    self,
                ).files@.update(i, Outgoing { accepted_once: true, ..old(self).files@[i] }),
    {
        let id = text_member(v, "id", "");
        let offset: u64 = count_member(v, "offset");
        proof {
            reveal_strlit("");
            assert(""@ =~= Seq::<char>::empty());
        }
        match self.find(id.as_str()) {
            Some(i) => {
                self.files[i].accepted_once = true;
                proof {
                    only_one_is_first(old(self).files@, id@, i as int);
                }
            },
            None => {},
        }
        (id, offset)
    }

    /// The bytes of `id` from `offset` on begin to go out.
    pub fn begin_stream(&mut self, id: &str, offset: u64, now: u64) -> (r: Result<StreamOf, String>)
        requires
            old(self).wf(),
        ensures
            final(self).wf(),
            r is Ok <==> known(old(self).files@, id@),
            r matches Err(e) ==> e@ == "unknown transfer "@ + id@ && final(self).files@ == old(
                self,
            ).files@,
            forall|i: int| #[trigger]
                is_first(old(self).files@, id@, i) ==> r is Ok && r->Ok_0.sid == old(
                    self,
                ).files@[i].sid && r->Ok_0.name@ == old(self).files@[i].name@ && r->Ok_0.size
                    == old(self).files@[i].size && final(self).files@ == old(self).files@.update(
                    i,
                    Outgoing {
                        stream_started: Some(now),
                        stream_bytes: remaining(old(self).files@[i].size, offset),
                        ..old(self).files@[i]
                    },
                ),
    {
        match self.find(id) {
            Some(i) => {
                let size: u64 = self.files[i].size;
                let bytes: u64 = if offset <= size {
                    size - offset
                } else {
                    0
                };
                let of = StreamOf { sid: self.files[i].sid, name: self.files[i].name.clone(), size };
                self.files[i].stream_started = Some(now);
                self.files[i].stream_bytes = bytes;
                proof {
                    only_one_is_first(old(self).files@, id@, i as int);
                }
                Ok(of)
            },
            None => Err(cat("unknown transfer ", id)),
        }
    }

    /// All bytes of `id` have left this side. A file without a digest of the whole is done
    /// with that, for no word about it will come; any other is not.
    pub fn end_stream(&mut self, id: &str, now: u64) -> (r: Option<Summary>)
        requires
            old(self).wf(),
        ensures
            final(self).wf(),
            !known(old(self).files@, id@) ==> r is None && final(self).files@ == old(self).files@,
            forall|i: int| #[trigger]
                is_first(old(self).files@, id@, i) ==> final(self).files@ == old(
                    self,
                ).files@.update(i, after_stream(old(self).files@[i])) && (r is Some <==> old(
                    self,
                ).files@[i].full is None) && (r matches Some(s) ==> s.name@ == old(
                    self,
                ).files@[i].name@ && s.bytes == old(self).files@[i].stream_bytes && s.nanos
                    == took(old(self).files@[i], now)),
    {
        match self.find(id) {
            Some(i) => {
                let nanos: u64 = match self.files[i].stream_started {
                    Some(t) => elapsed(now, t),
                    None => 0,
                };
                self.files[i].sent = true;
                let mut summary: Option<Summary> = None;
                if self.files[i].full.is_none() {
                    self.files[i].acked = true;
                    self.files[i].done = true;
                    summary = Some(
                        Summary {
                            name: self.files[i].name.clone(),
                            bytes: self.files[i].stream_bytes,
                            nanos,
                        },
                    );
                }
                proof {
                    only_one_is_first(old(self).files@, id@, i as int);
                }
                summary
            },
            None => None,
        }
    }

    /// The receiver does not want a file.
    pub fn refused(&mut self, v: &serde_json::Value) -> (r: Option<String>)
        requires
            old(self).wf(),
        ensures
            final(self).wf(),
            !known(old(self).files@, id_of(frame::json(*v))) ==> r is None && final(self).files@
                == old(self).files@,
            forall|i: int| #[trigger]
                is_first(old(self).files@, id_of(frame::json(*v)), i) ==> final(self).files@ == old(
                    self,
                ).files@.update(i, Outgoing { declined: true, done: true, ..old(self).files@[i] })
                    && (r matches Some(l) && l@ == "declined: "@ + old(self).files@[i].name@),
    {
        let id = text_member(v, "id", "");
        proof {
            reveal_strlit("");
            assert(""@ =~= Seq::<char>::empty());
        }
        match self.find(id.as_str()) {
            Some(i) => {
                self.files[i].declined = true;
                self.files[i].done = true;
                proof {
                    only_one_is_first(old(self).files@, id@, i as int);
                }
                Some(cat("declined: ", self.files[i].name.as_str()))
            },
            None => None,
        }
    }

    /// The receiver says that a file arrived whole. It counts once.
    pub fn delivered(&mut self, v: &serde_json::Value, now: u64) -> (r: Option<Delivered>)
        requires
            old(self).wf(),
        ensures
            final(self).wf(),
            !known(old(self).files@, id_of(frame::json(*v))) ==> r is None && final(self).files@
                == old(self).files@,
            forall|i: int| #[trigger]
                is_first(old(self).files@, id_of(frame::json(*v)), i) ==> {
                    let o = old(self).files@[i];
                    &&& r is Some <==> !o.acked
                    &&& o.acked ==> final(self).files@ == old(self).files@
                    &&& !o.acked ==> final(self).files@ == old(self).files@.update(
                        i,
                        Outgoing { acked: true, done: true, ..o },
                    )
                    &&& r matches Some(d) ==> tells_of(o, now, d)
                },
    {
        let id = text_member(v, "id", "");
        proof {
            reveal_strlit("");
            assert(""@ =~= Seq::<char>::empty());
        }
        match self.find(id.as_str()) {
            Some(i) => {
                proof {
                    only_one_is_first(old(self).files@, id@, i as int);
                }
                if self.files[i].acked {
                    return None;
                }
                self.files[i].acked = true;
                self.files[i].done = true;
                let summary = match self.files[i].stream_started {
                    Some(t) => Some(
                        Summary {
                            name: self.files[i].name.clone(),
                            bytes: self.files[i].stream_bytes,
                            nanos: elapsed(now, t),
                        },
                    ),
                    None => None,
                };
                let line = cat3(
                    "    ",
                    self.files[i].name.as_str(),
                    " delivered + verified (whole-file sha256 matched)",
                );
                Some(Delivered { line, summary })
            },
            None => None,
        }
    }
}

impl Outbox {
    /// The peer's state frame tells how much of each file it holds. A file that we believe
    /// done and of which it holds less is neither done nor confirmed; it is offered again, to
    /// go on with what the peer has.
    pub fn reconcile(&mut self, state: &serde_json::Value) -> (r: Vec<serde_json::Value>)
        requires
            old(self).wf(),
        ensures
            final(self).wf(),
            final(self).files@.len() == old(self).files@.len(),
            forall|i: int|
                0 <= i < old(self).files@.len() ==> #[trigger] final(self).files@[i] == if diverges(
                    old(self).files@[i],
                    frame::json(*state),
                ) {
                    Outgoing { done: false, acked: false, ..old(self).files@[i] }
                } else {
                    old(self).files@[i]
                },
            jsons(r@) == reoffers_of(old(self).files@, frame::json(*state)),
    {
        let held = member(state, "transfers");
        let mut out: Vec<serde_json::Value> = Vec::new();
        let mut i: usize = 0;
        let ghost was = self.files@;
        let ghost s = frame::json(*state);
        proof {
            assert(jsons(out@) =~= reoffers_of(was.take(0), s));
        }
        while i < self.files.len()
            invariant
                i <= self.files@.len(),
                self.files@.len() == was.len(),
                s == frame::json(*state),
                frame::json(*held) == s.member("transfers"@),
                forall|j: int|
                    0 <= j < i ==> #[trigger] self.files@[j] == if diverges(was[j], s) {
                        Outgoing { done: false, acked: false, ..was[j] }
                    } else {
                        was[j]
                    },
                forall|j: int| i <= j < was.len() ==> #[trigger] self.files@[j] == was[j],
                jsons(out@) == reoffers_of(was.take(i as int), s),
            decreases self.files.len() - i,
        {
            let ghost before = out@;
            let ghost t = was.take(i + 1);
            proof {
                assert(t.drop_last() =~= was.take(i as int));
                assert(t.last() == was[i as int]);
            }
            let less: bool = match count_at(held, self.files[i].id.as_str()) {
                Some(b) => self.files[i].done && b < self.files[i].size,
                None => false,
            };
            if less {
                self.files[i].done = false;
                self.files[i].acked = false;
                out.push(offer_msg(&self.files[i], true));
                proof {
                    assert(jsons(out@) =~= jsons(before).push(frame::json(out@.last())));
                }
            }
            i += 1;
        }
        proof {
            assert(was.take(i as int) =~= was);
            assert forall|j: int| 0 <= j < self.files@.len() implies (#[trigger] self.files@[j]).wf() by {
                assert(was[j].wf());
            }
        }
        out
    }

    /// Some file is on its way: it was accepted and not all of it has left this side.
    pub open spec fn is_busy(self) -> bool {
        exists|i: int|
            0 <= i < self.files@.len() && (#[trigger] self.files@[i]).accepted_once
                && !self.files@[i].sent
    }

    /// Whether some file is on its way.
    pub fn busy(&self) -> (r: bool)
        ensures
            r == self.is_busy(),
    {
        let mut i: usize = 0;
        while i < self.files.len()
            invariant
                i <= self.files@.len(),
                forall|j: int|
                    0 <= j < i ==> !((#[trigger] self.files@[j]).accepted_once && !self.files@[j].sent),
            decreases self.files.len() - i,
        {
            if self.files[i].accepted_once && !self.files[i].sent {
                return true;
            }
            i += 1;
        }
        false
    }

    /// There are files, and all bytes that are wanted have left this side: what was declined is
    /// not sent.
    pub open spec fn is_all_sent(self) -> bool {
        self.files@.len() > 0 && forall|i: int|
            0 <= i < self.files@.len() ==> (#[trigger] self.files@[i]).sent
                || self.files@[i].declined
    }

    /// There are files and nothing more to do about any of them.
    pub open spec fn is_all_done(self) -> bool {
        self.files@.len() > 0 && forall|i: int|
            0 <= i < self.files@.len() ==> (#[trigger] self.files@[i]).done
    }

    /// Whether all bytes that are wanted have left this side.
    pub fn all_sent(&self) -> (r: bool)
        ensures
            r == self.is_all_sent(),
    {
        let mut i: usize = 0;
        while i < self.files.len()
            invariant
                i <= self.files@.len(),
                forall|j: int|
                    0 <= j < i ==> (#[trigger] self.files@[j]).sent || self.files@[j].declined,
            decreases self.files.len() - i,
        {
            if !self.files[i].sent && !self.files[i].declined {
                return false;
            }
            i += 1;
        }
        self.files.len() > 0
    }

    /// Whether there is nothing more to do about any file.
    pub fn all_done(&self) -> (r: bool)
        ensures
            r == self.is_all_done(),
    {
        let mut i: usize = 0;
        while i < self.files.len()
            invariant
                i <= self.files@.len(),
                forall|j: int| 0 <= j < i ==> (#[trigger] self.files@[j]).done,
            decreases self.files.len() - i,
        {
            if !self.files[i].done {
                return false;
            }
            i += 1;
        }
        self.files.len() > 0
    }

    /// How many files the receiver has and how many it does not want.
    pub fn tally(&self) -> (r: (usize, usize))
        ensures
            r.0 == delivered_count(self.files@),
            r.1 == declined_count(self.files@),
    {
        let mut completed: usize = 0;
        let mut declined: usize = 0;
        let mut i: usize = 0;
        while i < self.files.len()
            invariant
                i <= self.files@.len(),
                completed <= i,
                declined <= i,
                completed == delivered_count(self.files@.take(i as int)),
                declined == declined_count(self.files@.take(i as int)),
            decreases self.files.len() - i,
        {
            proof {
                let t = self.files@.take(i + 1);
                assert(t.drop_last() =~= self.files@.take(i as int));
                assert(t.last() == self.files@[i as int]);
            }
            if self.files[i].done && !self.files[i].declined {
                completed += 1;
            }
            if self.files[i].declined {
                declined += 1;
            }
            i += 1;
        }
        proof {
            assert(self.files@.take(i as int) =~= self.files@);
        }
        (completed, declined)
    }

    /// The names of what is not done, in order.
    pub open spec fn open_names(files: Seq<Outgoing>) -> Seq<Seq<char>>
        decreases files.len(),
    {
        if files.len() == 0 {
            Seq::empty()
        } else {
            let rest = Outbox::open_names(files.drop_last());
            if files.last().done {
                rest
            } else {
                rest.push(files.last().name@)
            }
        }
    }

    /// The names of what is not done.
    pub fn unconfirmed(&self) -> (r: Vec<String>)
        ensures
            frame::views(r@) == Outbox::open_names(self.files@),
    {
        let mut out: Vec<String> = Vec::new();
        let mut i: usize = 0;
        proof {
            assert(frame::views(out@) =~= Outbox::open_names(self.files@.take(0)));
        }
        while i < self.files.len()
            invariant
                i <= self.files@.len(),
                frame::views(out@) == Outbox::open_names(self.files@.take(i as int)),
            decreases self.files.len() - i,
        {
            let ghost before = out@;
            let ghost t = self.files@.take(i + 1);
            proof {
                assert(t.drop_last() =~= self.files@.take(i as int));
                assert(t.last() == self.files@[i as int]);
            }
            if !self.files[i].done {
                out.push(self.files[i].name.clone());
                proof {
                    assert(frame::views(out@) =~= frame::views(before).push(out@.last()@));
                }
            }
            i += 1;
        }
        proof {
            assert(self.files@.take(i as int) =~= self.files@);
        }
        out
    }
}

/// How a send ended.
#[derive(Clone, Copy, Debug, PartialEq, Eq, Structural)]
pub enum SendOutcome {
    /// The receiver has everything.
    Complete { completed: usize },
    /// It did not want some of it.
    Declined { completed: usize, declined: usize },
}

/// How a send ended of which the receiver has `completed` files and does not want
/// `declined`.
pub fn send_outcome(completed: usize, declined: usize) -> (r: SendOutcome)
    ensures
        r == if declined == 0 {
            SendOutcome::Complete { completed }
        } else {
            SendOutcome::Declined { completed, declined }
        },
{
    if declined == 0 {
        SendOutcome::Complete { completed }
    } else {
        SendOutcome::Declined { completed, declined }
    }
}

impl SendOutcome {
    /// What is said at the end.
    pub open spec fn said(self) -> Seq<char> {
        match self {
            SendOutcome::Complete { completed } => "done."@,
            SendOutcome::Declined { completed, declined } => if completed == 0 {
                "no files delivered ("@ + text::decimal(declined as nat) + " declined)."@
            } else {
                "partial: "@ + text::decimal(completed as nat) + " delivered, "@ + text::decimal(
                    declined as nat,
                ) + " declined."@
            },
        }
    }

    /// What is said at the end.
    pub fn line(&self) -> (r: String)
        ensures
            r@ == self.said(),
    {
        match self {
            SendOutcome::Complete { completed } => "done.".to_owned(),
            SendOutcome::Declined { completed, declined } => {
                let d = to_decimal(*declined as u64);
                if *completed == 0 {
                    cat3("no files delivered (", d.as_str(), " declined).")
                } else {
                    let c = to_decimal(*completed as u64);
                    cat5("partial: ", c.as_str(), " delivered, ", d.as_str(), " declined.")
                }
            },
        }
    }

    /// Whether the command succeeded, and if not, why.
    pub fn verdict(&self) -> (r: Result<(), String>)
        ensures
            r is Ok <==> self is Complete,
            r matches Err(e) ==> e@ == "send incomplete: "@ + text::decimal(
                self->Declined_completed as nat,
            ) + " delivered, "@ + text::decimal(self->declined as nat) + " declined"@,
    {
        match self {
            SendOutcome::Complete { completed } => Ok(()),
            SendOutcome::Declined { completed, declined } => {
                let d = to_decimal(*declined as u64);
                let c = to_decimal(*completed as u64);
                Err(cat5("send incomplete: ", c.as_str(), " delivered, ", d.as_str(), " declined"))
            },
        }
    }
}

/// The id that a frame is about.
pub open spec fn id_of(v: frame::Json) -> Seq<char> {
    offer::text_or(v, "id"@, Seq::empty())
}

/// What is told of a file that arrived.
pub open spec fn tells_of(o: Outgoing, now: u64, d: Delivered) -> bool {
    &&& d.line@ == "    "@ + o.name@ + " delivered + verified (whole-file sha256 matched)"@
    &&& d.summary is Some <==> o.stream_started is Some
    &&& d.summary matches Some(s) ==> s.name@ == o.name@ && s.bytes == o.stream_bytes && s.nanos
        == took(o, now)
}

/// What is left of `size` bytes after the first `offset`.
pub open spec fn remaining(size: u64, offset: u64) -> u64 {
    if offset <= size {
        (size - offset) as u64
    } else {
        0
    }
}

/// How long the bytes of a file have been going out.
pub open spec fn took(o: Outgoing, now: u64) -> int {
    match o.stream_started {
        Some(t) => shared_defs::since(now, t),
        None => 0,
    }
}

/// A file whose bytes have left this side.
pub open spec fn after_stream(o: Outgoing) -> Outgoing {
    if o.full is None {
        Outgoing { sent: true, acked: true, done: true, ..o }
    } else {
        Outgoing { sent: true, ..o }
    }
}

/// That the bytes of a file have left this side does not make it delivered: where there is a
/// digest of the whole, only the receiver's word does.
pub proof fn sending_is_not_delivery(o: Outgoing)
    requires
        o.full is Some,
    ensures
        after_stream(o).sent,
        after_stream(o).done == o.done,
        after_stream(o).acked == o.acked,
{
}

/// A send that ends well has every file at the receiver: each was confirmed, or had no digest
/// to confirm it by, and none was turned down.
pub proof fn complete_means_all_confirmed(b: Outbox)
    requires
        b.wf(),
        b.is_all_done(),
        declined_count(b.files@) == 0,
    ensures
        forall|i: int|
            0 <= i < b.files@.len() ==> (#[trigger] b.files@[i]).acked && !b.files@[i].declined,
        delivered_count(b.files@) == b.files@.len(),
{
    none_declined(b.files@);
    all_delivered(b.files@);
    assert forall|i: int| 0 <= i < b.files@.len() implies (#[trigger] b.files@[i]).acked
        && !b.files@[i].declined by {
        assert(b.files@[i].wf() && b.files@[i].done);
    }
}

proof fn none_declined(files: Seq<Outgoing>)
    requires
        declined_count(files) == 0,
    ensures
        forall|i: int| 0 <= i < files.len() ==> !(#[trigger] files[i]).declined,
    decreases files.len(),
{
    if files.len() > 0 {
        let rest = files.drop_last();
        none_declined(rest);
        assert forall|i: int| 0 <= i < files.len() implies !(#[trigger] files[i]).declined by {
            if i < rest.len() {
                assert(!rest[i].declined);
            }
        }
    }
}

proof fn all_delivered(files: Seq<Outgoing>)
    requires
        forall|i: int|
            0 <= i < files.len() ==> (#[trigger] files[i]).done && !files[i].declined,
    ensures
        delivered_count(files) == files.len(),
    decreases files.len(),
{
    if files.len() > 0 {
        let rest = files.drop_last();
        assert forall|i: int| 0 <= i < rest.len() implies (#[trigger] rest[i]).done
            && !rest[i].declined by {
            assert(files[i].done && !files[i].declined);
        }
        all_delivered(rest);
    }
}

proof fn only_one_is_first(files: Seq<Outgoing>, id: Seq<char>, i: int)
    requires
        is_first(files, id, i),
    ensures
        forall|j: int| #[trigger] is_first(files, id, j) ==> j == i,
{
    assert forall|j: int| #[trigger] is_first(files, id, j) implies j == i by {
        if j < i {
            assert(files[j].id@ != id);
        } else if i < j {
            assert(files[i].id@ != id);
        }
    }
}

} // verus!
