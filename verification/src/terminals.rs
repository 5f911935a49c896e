//! Which stream of which link shows which terminal session, and what peers say of it.
//!
//! A session outlives the link that shows it: a link that is lost leaves its sessions behind
//! for the peer to come back to, and only the peer's own word ends one.

use vstd::prelude::*;
use vstd::string::*;
use crate::frame;
use crate::keyed;
use crate::shared_defs;
use crate::streams;
use crate::streams::{size_member, wire_sid};
use crate::text::same;

verus! {

/// A stream that shows a session.
pub struct Shown {
    pub pid: String,
    pub sid: u32,
    pub session: String,
}

/// The stream of such an entry: its link and its number on that link.
pub open spec fn stream_of(b: Shown) -> (Seq<char>, u32) {
    (b.pid@, b.sid)
}

/// Which session each stream shows.
pub open spec fn shown(b: Seq<Shown>) -> Map<(Seq<char>, u32), Seq<char>>
    decreases b.len(),
{
    if b.len() == 0 {
        Map::empty()
    } else {
        shown(b.drop_last()).insert(stream_of(b.last()), b.last().session@)
    }
}

/// No stream is entered twice.
pub open spec fn once(b: Seq<Shown>) -> bool {
    forall|i: int, j: int|
        0 <= i < j < b.len() ==> stream_of(#[trigger] b[i]) != stream_of(#[trigger] b[j])
}

/// A stream of link `pid` is meant: all of them, or only number `sid`, or only those that show
/// `session`.
pub open spec fn meant(
    k: (Seq<char>, u32),
    s: Seq<char>,
    pid: Seq<char>,
    sid: Option<u32>,
    session: Option<Seq<char>>,
) -> bool {
    k.0 == pid && (sid matches Some(n) ==> k.1 == n) && (session matches Some(t) ==> s == t)
}

/// What is shown without the streams that are meant.
pub open spec fn without(
    m: Map<(Seq<char>, u32), Seq<char>>,
    pid: Seq<char>,
    sid: Option<u32>,
    session: Option<Seq<char>>,
) -> Map<(Seq<char>, u32), Seq<char>> {
    Map::new(
        |k: (Seq<char>, u32)| m.contains_key(k) && !meant(k, m[k], pid, sid, session),
        |k: (Seq<char>, u32)| m[k],
    )
}

/// Which stream of which link shows which session.
pub struct Terminals {
    pub entries: Vec<Shown>,
}

impl View for Terminals {
    type V = Map<(Seq<char>, u32), Seq<char>>;

    open spec fn view(&self) -> Map<(Seq<char>, u32), Seq<char>> {
        shown(self.entries@)
    }
}

proof fn entered(b: Seq<Shown>)
    ensures
        forall|k: (Seq<char>, u32)| #[trigger]
            shown(b).contains_key(k) <==> exists|i: int|
                0 <= i < b.len() && stream_of(#[trigger] b[i]) == k,
    decreases b.len(),
{
    if b.len() > 0 {
        let t = b.drop_last();
        entered(t);
        assert forall|k: (Seq<char>, u32)| #[trigger] shown(b).contains_key(k) implies exists|
            i: int,
        |
            0 <= i < b.len() && stream_of(#[trigger] b[i]) == k by {
            if k == stream_of(b.last()) {
                assert(stream_of(b[b.len() - 1]) == k);
            } else {
                assert(shown(t).contains_key(k));
                let i = choose|i: int| 0 <= i < t.len() && stream_of(#[trigger] t[i]) == k;
                assert(stream_of(b[i]) == k);
            }
        }
        assert forall|i: int| 0 <= i < b.len() implies shown(b).contains_key(
            stream_of(#[trigger] b[i]),
        ) by {
            if i < b.len() - 1 {
                assert(stream_of(t[i]) == stream_of(b[i]));
                assert(shown(t).contains_key(stream_of(t[i])));
            }
        }
    }
}

proof fn shows(b: Seq<Shown>, i: int)
    requires
        once(b),
        0 <= i < b.len(),
    ensures
        shown(b).contains_key(stream_of(b[i])),
        shown(b)[stream_of(b[i])] == b[i].session@,
    decreases b.len(),
{
    let t = b.drop_last();
    if i < b.len() - 1 {
        assert(t[i] == b[i]);
        assert(once(t)) by {
            assert forall|x: int, y: int| 0 <= x < y < t.len() implies stream_of(#[trigger] t[x])
                != stream_of(#[trigger] t[y]) by {
                assert(stream_of(b[x]) != stream_of(b[y]));
            }
        }
        shows(t, i);
        assert(stream_of(b[i]) != stream_of(b[b.len() - 1]));
    }
}

fn is_meant(b: &Shown, pid: &str, sid: Option<u32>, session: Option<&str>) -> (r: bool)
    ensures
        r == meant(
            stream_of(*b),
            b.session@,
            pid@,
            sid,
            shared_defs::view_of_str(session),
        ),
{
    same(b.pid.as_str(), pid) && (match sid {
        Some(n) => b.sid == n,
        None => true,
    }) && (match session {
        Some(t) => same(b.session.as_str(), t),
        None => true,
    })
}

impl Terminals {
    /// No stream shows two sessions.
    pub open spec fn wf(self) -> bool {
        once(self.entries@)
    }

    /// No stream shows a session.
    pub fn new() -> (r: Terminals)
        ensures
            r.wf(),
            r@ == Map::<(Seq<char>, u32), Seq<char>>::empty(),
    {
        Terminals { entries: Vec::new() }
    }

    fn drop_meant(&mut self, pid: &str, sid: Option<u32>, session: Option<&str>)
        requires
            old(self).wf(),
        ensures
            final(self).wf(),
            final(self)@ == without(
                old(self)@,
                pid@,
                sid,
                shared_defs::view_of_str(session),
            ),
    {
        let ghost b = self.entries@;
        let ghost of = shared_defs::view_of_str(session);
        let mut kept: Vec<Shown> = Vec::new();
        let mut i: usize = 0;
        proof {
            assert(shown(kept@) =~= without(shown(b.take(0)), pid@, sid, of));
        }
        while i < self.entries.len()
            invariant
                b == self.entries@,
                i <= b.len(),
                once(b),
                once(kept@),
                of == shared_defs::view_of_str(session),
                shown(kept@) == without(shown(b.take(i as int)), pid@, sid, of),
            decreases b.len() - i,
        {
            let e = &self.entries[i];
            let ghost t = b.take(i + 1);
            proof {
                assert(t.drop_last() =~= b.take(i as int));
                assert(t.last() == b[i as int]);
                entered(b.take(i as int));
                if shown(b.take(i as int)).contains_key(stream_of(*e)) {
                    let j = choose|j: int|
                        0 <= j < i && stream_of(#[trigger] b.take(i as int)[j]) == stream_of(*e);
                    assert(stream_of(b[j]) != stream_of(b[i as int]));
                }
            }
            if !is_meant(e, pid, sid, session) {
                let ghost was = kept@;
                kept.push(
                    Shown {
                        pid: e.pid.as_str().to_owned(),
                        sid: e.sid,
                        session: e.session.as_str().to_owned(),
                    },
                );
                proof {
                    assert(kept@.drop_last() =~= was);
                    entered(was);
                    assert forall|x: int, y: int| 0 <= x < y < kept@.len() implies stream_of(
                        #[trigger] kept@[x],
                    ) != stream_of(#[trigger] kept@[y]) by {
                        if y == was.len() {
                            assert(stream_of(was[x]) == stream_of(kept@[x]));
                            assert(shown(was).contains_key(stream_of(was[x])));
                        } else {
                            assert(stream_of(was[x]) != stream_of(was[y]));
                        }
                    }
                }
            }
            proof {
                assert(shown(kept@) =~= without(shown(t), pid@, sid, of));
            }
            i += 1;
        }
        proof {
            assert(b.take(b.len() as int) =~= b);
        }
        self.entries = kept;
    }

    /// A stream shows a session from now on, whatever it showed before.
    pub fn attach(&mut self, pid: &str, sid: u32, session: &str)
        requires
            old(self).wf(),
        ensures
            final(self).wf(),
            final(self)@ == old(self)@.insert((pid@, sid), session@),
    {
        let ghost m = self@;
        self.drop_meant(pid, Some(sid), None);
        let ghost was = self.entries@;
        self.entries.push(
            Shown { pid: pid.to_owned(), sid, session: session.to_owned() },
        );
        proof {
            let now = self.entries@;
            assert(now.drop_last() =~= was);
            entered(was);
            assert forall|x: int, y: int| 0 <= x < y < now.len() implies stream_of(
                #[trigger] now[x],
            ) != stream_of(#[trigger] now[y]) by {
                if y == was.len() {
                    assert(stream_of(was[x]) == stream_of(now[x]));
                    assert(shown(was).contains_key(stream_of(was[x])));
                } else {
                    assert(stream_of(was[x]) != stream_of(was[y]));
                }
            }
            assert(shown(now) =~= m.insert((pid@, sid), session@));
        }
    }

    /// The session that a stream shows.
    pub fn session(&self, pid: &str, sid: u32) -> (r: Option<&str>)
        requires
            self.wf(),
        ensures
            r is Some <==> self@.contains_key((pid@, sid)),
            r matches Some(s) ==> s@ == self@[(pid@, sid)],
    {
        let mut i: usize = 0;
        while i < self.entries.len()
            invariant
                self.wf(),
                i <= self.entries@.len(),
                forall|j: int| 0 <= j < i ==> stream_of(#[trigger] self.entries@[j]) != (pid@, sid),
            decreases self.entries@.len() - i,
        {
            let e = &self.entries[i];
            if e.sid == sid && same(e.pid.as_str(), pid) {
                proof {
                    shows(self.entries@, i as int);
                }
                return Some(e.session.as_str());
            }
            i += 1;
        }
        proof {
            entered(self.entries@);
        }
        None
    }

    /// A peer ends a session: none of its streams shows it any more.
    pub fn end(&mut self, pid: &str, session: &str)
        requires
            old(self).wf(),
        ensures
            final(self).wf(),
            final(self)@ == without(old(self)@, pid@, None, Some(session@)),
    {
        self.drop_meant(pid, None, Some(session));
    }

    /// A link is lost: the sessions that its streams showed are let go of, to be come back to.
    pub fn lose(&mut self, pid: &str) -> (r: Vec<String>)
        requires
            old(self).wf(),
        ensures
            final(self).wf(),
            final(self)@ == without(old(self)@, pid@, None, None),
            forall|s: Seq<char>| #[trigger]
                keyed::listed(r@, s) <==> exists|n: u32|
                    #![trigger old(self)@.contains_key((pid@, n))]
                    old(self)@.contains_key((pid@, n)) && old(self)@[(pid@, n)] == s,
    {
        let mut out: Vec<String> = Vec::new();
        let ghost b = self.entries@;
        let mut i: usize = 0;
        while i < self.entries.len()
            invariant
                self.entries@ == b,
                i <= b.len(),
                forall|s: Seq<char>| #[trigger]
                    keyed::listed(out@, s) <==> exists|j: int|
                        0 <= j < i && (#[trigger] b[j]).pid@ == pid@ && b[j].session@ == s,
            decreases b.len() - i,
        {
            let e = &self.entries[i];
            if same(e.pid.as_str(), pid) {
                let s = e.session.as_str().to_owned();
                let ghost was = out@;
                proof {
                    keyed::listed_push(out@, s);
                }
                out.push(s);
                assert forall|t: Seq<char>| #[trigger] keyed::listed(out@, t) implies exists|j: int|
                    0 <= j < i + 1 && (#[trigger] b[j]).pid@ == pid@ && b[j].session@ == t by {
                    if t == b[i as int].session@ {
                        assert(b[i as int].pid@ == pid@);
                    } else {
                        assert(keyed::listed(was, t));
                    }
                }
            }
            i += 1;
        }
        proof {
            entered(b);
            assert forall|s: Seq<char>| #[trigger] keyed::listed(out@, s) <==> exists|n: u32|
                #![trigger shown(b).contains_key((pid@, n))]
                shown(b).contains_key((pid@, n)) && shown(b)[(pid@, n)] == s by {
                if keyed::listed(out@, s) {
                    let j = choose|j: int|
                        0 <= j < b.len() && (#[trigger] b[j]).pid@ == pid@ && b[j].session@ == s;
                    shows(b, j);
                    assert(stream_of(b[j]) == (pid@, b[j].sid));
                }
                if exists|n: u32|
                    #![trigger shown(b).contains_key((pid@, n))]
                    shown(b).contains_key((pid@, n)) && shown(b)[(pid@, n)] == s {
                    let n = choose|n: u32|
                        #![trigger shown(b).contains_key((pid@, n))]
                        shown(b).contains_key((pid@, n)) && shown(b)[(pid@, n)] == s;
                    let j = choose|j: int|
                        0 <= j < b.len() && stream_of(#[trigger] b[j]) == (pid@, n);
                    shows(b, j);
                    assert(b[j].pid@ == pid@ && b[j].session@ == s);
                }
            }
        }
        self.drop_meant(pid, None, None);
        out
    }
}

/// Losing a link, or ending a session over it, changes nothing for the streams of other links.
pub proof fn links_are_apart(
    m: Map<(Seq<char>, u32), Seq<char>>,
    pid: Seq<char>,
    session: Option<Seq<char>>,
    other: Seq<char>,
    sid: u32,
)
    requires
        other != pid,
    ensures
        without(m, pid, None, session).contains_key((other, sid)) == m.contains_key((other, sid)),
        m.contains_key((other, sid)) ==> without(m, pid, None, session)[(other, sid)] == m[(
            other,
            sid,
        )],
{
}

/// What a peer asks of the size of a terminal.
pub struct Resize {
    pub sid: u32,
    pub cols: u16,
    pub rows: u16,
}

/// Read what a peer asks of the size of a terminal; nothing where it names no stream.
pub fn parse_resize(v: &serde_json::Value) -> (r: Option<Resize>)
    ensures
        ({
            let j = frame::json(*v);
            match r {
                Some(s) => streams::named_sid(j) == Some(s.sid) && s.cols == streams::size_or(
                    j,
                    "cols"@,
                    80,
                ) && s.rows == streams::size_or(j, "rows"@, 24),
                None => streams::named_sid(j) is None,
            }
        }),
{
    match wire_sid(v) {
        Some(sid) => Some(
            Resize { sid, cols: size_member(v, "cols", 80), rows: size_member(v, "rows", 24) },
        ),
        None => None,
    }
}

} // verus!
