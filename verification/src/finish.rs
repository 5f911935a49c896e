//! When a receiver is done, what it says, and what it makes of a peer that is gone.

use vstd::prelude::*;
use vstd::string::*;
use crate::assembly::Assembly;
use crate::frame;
use crate::frame::{count_at, object, of_count, of_flag, of_text, put};
use crate::shared_defs;
use crate::shared_defs::elapsed;
use crate::text;
use crate::text::{cat, cat3, same, to_decimal};

verus! {

/// How often a link that got stuck is made anew.
pub const MAX_ATTEMPTS: u32 = 5;

/// Everything that was to come has come: something was delivered, nothing is arriving, and
/// we are not to stay.
pub open spec fn all_received(completed: u64, keep_open: bool, idle: bool) -> bool {
    completed > 0 && !keep_open && idle
}

/// Whether everything that was to come has come.
pub fn recv_transfer_done(completed: u64, keep_open: bool, idle: bool) -> (r: bool)
    ensures
        r == all_received(completed, keep_open, idle),
{
    completed > 0 && !keep_open && idle
}

/// The line about what was delivered.
pub open spec fn done_text(completed: u64) -> Seq<char> {
    "done ("@ + text::decimal(completed as nat) + (if completed == 1 {
        " file)."@
    } else {
        " files)."@
    })
}

/// The line about what was delivered.
pub fn done_line(completed: u64) -> (r: String)
    ensures
        r@ == done_text(completed),
{
    let n = to_decimal(completed);
    cat3(
        "done (",
        n.as_str(),
        if completed == 1 {
            " file)."
        } else {
            " files)."
        },
    )
}

/// What bears on whether a receiver is done.
pub struct ExitView {
    /// Files delivered.
    pub completed: u64,
    /// We are to stay.
    pub keep_open: bool,
    /// Nothing is arriving.
    pub idle: bool,
    /// A question is open.
    pub asking: bool,
    /// There is a link.
    pub linked: bool,
    /// Every link is held only until it may be dropped.
    pub only_deferred: bool,
    /// Some link is up.
    pub healthy: bool,
}

impl ExitView {
    /// There is nothing left to wait for but peers.
    pub open spec fn settled(self) -> bool {
        all_received(self.completed, self.keep_open, self.idle) && !self.asking
    }
}

/// Whether a receiver is done.
#[derive(Clone, Copy, Debug, PartialEq, Eq, Structural)]
pub enum ExitStep {
    /// It is not.
    Stay,
    /// It is: every peer is gone, or held only until it may be dropped.
    Done,
    /// It is: no link has been up for a while, though nobody said that they were leaving.
    DoneQuiet,
}

/// Whether a receiver is done. Where links are left but none is up, it waits for `window`
/// first; `quiet` keeps since when.
pub fn exit_step(v: &ExitView, quiet: &mut Option<u64>, window: u64, now: u64) -> (r: ExitStep)
    ensures
        r is Done <==> v.settled() && (!v.linked || v.only_deferred),
        r is DoneQuiet <==> v.settled() && v.linked && !v.only_deferred && !v.healthy && (match *old(quiet) {
            Some(t) => shared_defs::since(now, t) > window,
            None => false,
        }),
        r is Stay ==> *final(quiet) == (if v.settled() && !v.healthy {
            match *old(quiet) {
                Some(t) => Some(t),
                None => Some(now),
            }
        } else {
            None
        }),
        r !is Stay ==> *final(quiet) == *old(quiet),
{
    let settled: bool = recv_transfer_done(v.completed, v.keep_open, v.idle) && !v.asking;
    if settled && (!v.linked || v.only_deferred) {
        return ExitStep::Done;
    }
    if settled && !v.healthy {
        match *quiet {
            None => {
                *quiet = Some(now);
                ExitStep::Stay
            },
            Some(t) => {
                if elapsed(now, t) > window {
                    ExitStep::DoneQuiet
                } else {
                    ExitStep::Stay
                }
            },
        }
    } else {
        *quiet = None;
        ExitStep::Stay
    }
}

/// A receiver with a file arriving, a question open, nothing delivered, or told to stay does
/// not leave.
pub proof fn unsettled_receiver_stays(v: ExitView)
    requires
        !v.idle || v.asking || v.completed == 0 || v.keep_open,
    ensures
        !v.settled(),
{
}

/// What to make of a peer that left.
#[derive(Clone, Copy, Debug, PartialEq, Eq, Structural)]
pub enum LeftStep {
    /// It left in the middle of a transfer: park what has arrived and wait for it.
    Park,
    /// Everything has come: leave too.
    Done,
    /// It may come back: hold the line.
    Hold,
    /// Go on listening.
    Listen,
}

/// What to make of a peer that left.
pub fn peer_left(arriving: bool, completed: u64, keep_open: bool, paired: bool) -> (r: LeftStep)
    ensures
        r is Park <==> arriving,
        r is Done <==> all_received(completed, keep_open, !arriving),
        r is Hold <==> !arriving && completed == 0 && paired && !keep_open,
{
    if arriving {
        LeftStep::Park
    } else if completed > 0 && !keep_open {
        LeftStep::Done
    } else if paired && !keep_open {
        LeftStep::Hold
    } else {
        LeftStep::Listen
    }
}

/// What is said where the sender is lost with nothing delivered.
pub open spec fn lost_text() -> Seq<char> {
    "lost the sender after 5 attempts; the partial is kept, re-run `filament receive <code>` to resume"@
}

/// Whether losing a link is fatal: it was dropped for good, it was to a particular sender,
/// and nothing was delivered.
pub fn lost_sender(dropped: bool, paired: bool, keep_open: bool, completed: u64) -> (r: Option<
    String,
>)
    ensures
        r is Some <==> dropped && paired && !keep_open && completed == 0,
        r matches Some(s) ==> s@ == lost_text(),
{
    if dropped && paired && !keep_open && completed == 0 {
        Some(
            "lost the sender after 5 attempts; the partial is kept, re-run `filament receive <code>` to resume".to_owned(),
        )
    } else {
        None
    }
}

/// A link got stuck before anything was received. Tells whether to hint at a local cause:
/// from the second time on.
pub fn stuck_again(count: &mut u32, received_before: bool) -> (r: bool)
    ensures
        received_before ==> !r && *final(count) == *old(count),
        !received_before ==> *final(count) == (if *old(count) < u32::MAX {
            (*old(count) + 1) as u32
        } else {
            u32::MAX
        }) && r == (*final(count) >= 2),
{
    if received_before {
        return false;
    }
    if *count < u32::MAX {
        *count = *count + 1;
    }
    *count >= 2
}

/// What a change of a link's state does to the tunnels over it.
#[derive(Clone, Copy, Debug, PartialEq, Eq, Structural)]
pub struct LinkChange {
    /// Close the streams over it.
    pub close_streams: bool,
    /// Detach its terminal sessions, which go on without it.
    pub detach_sessions: bool,
}

/// What a change of a link's state does. A link that is only disconnected may come back by
/// itself, so its sessions stay attached.
pub fn link_change(tunnels: bool, state: &str) -> (r: LinkChange)
    ensures
        r.close_streams == (tunnels && (state@ == "failed"@ || state@ == "closed"@ || state@
            == "disconnected"@)),
        r.detach_sessions == (tunnels && (state@ == "failed"@ || state@ == "closed"@)),
{
    let dead: bool = same(state, "failed") || same(state, "closed");
    LinkChange {
        close_streams: tunnels && (dead || same(state, "disconnected")),
        detach_sessions: tunnels && dead,
    }
}

/// For how long a peer that steps away is waited for, in seconds: as long as it says, two
/// minutes where it does not, five at most.
pub open spec fn away_of(v: frame::Json) -> u64 {
    match v.count_at("ttl"@) {
        None => 120,
        Some(n) => if n < 300 {
            n
        } else {
            300
        },
    }
}

/// For how long a peer that steps away is waited for, in seconds.
pub fn away_secs(v: &serde_json::Value) -> (r: u64)
    ensures
        r == away_of(frame::json(*v)),
{
    match count_at(v, "ttl") {
        None => 120,
        Some(n) => if n < 300 {
            n
        } else {
            300
        },
    }
}

/// Where the transfers from `peer` stand: for each id, how many bytes have been written.
pub open spec fn standings(files: Seq<crate::recv_files::IncomingFile>, peer: Seq<char>) -> Map<
    Seq<char>,
    frame::Json,
>
    decreases files.len(),
{
    if files.len() == 0 {
        Map::empty()
    } else {
        let rest = standings(files.drop_last(), peer);
        if files.last().peer@ == peer {
            rest.insert(files.last().id@, frame::Json::Number(Some(files.last().received)))
        } else {
            rest
        }
    }
}

/// The frame that tells a peer where its transfers stand.
pub open spec fn state_json(transfers: frame::Json, trusted: bool) -> frame::Json {
    frame::empty_object().with("type"@, frame::Json::Text("state"@)).with(
        "v"@,
        frame::Json::Number(Some(1)),
    ).with("transfers"@, transfers).with("trusted"@, frame::Json::Bool(trusted)).with(
        "away"@,
        frame::Json::Bool(false),
    )
}

/// The frame that tells `peer` where its transfers stand.
pub fn state_frame(a: &Assembly, peer: &str, trusted: bool) -> (r: serde_json::Value)
    ensures
        frame::json(r) == state_json(frame::Json::Object(standings(a.files@, peer@)), trusted),
{
    let mut transfers = object();
    let mut i: usize = 0;
    while i < a.files.len()
        invariant
            i <= a.files@.len(),
            frame::json(transfers) == frame::Json::Object(
                standings(a.files@.subrange(0, i as int), peer@),
            ),
        decreases a.files.len() - i,
    {
        proof {
            let upto = a.files@.subrange(0, i + 1);
            assert(upto.drop_last() =~= a.files@.subrange(0, i as int));
            assert(upto.last() == a.files@[i as int]);
        }
        if same(a.files[i].peer.as_str(), peer) {
            put(&mut transfers, a.files[i].id.as_str(), of_count(a.files[i].received));
        }
        i += 1;
    }
    proof {
        assert(a.files@.subrange(0, a.files@.len() as int) =~= a.files@);
    }
    let mut f = object();
    put(&mut f, "type", of_text("state"));
    put(&mut f, "v", of_count(1));
    put(&mut f, "transfers", transfers);
    put(&mut f, "trusted", of_flag(trusted));
    put(&mut f, "away", of_flag(false));
    f
}

/// What to say of a code that was rejected.
pub open spec fn rejection_hint(v: frame::Json) -> Seq<char> {
    if v.text_at("why"@) == Some("sender-gone"@) {
        "the sender who made that code already left, ask them for a fresh one"@
    } else {
        crate::offer::text_or(v, "error"@, "?"@)
            + ", codes burn after one use and expire after 10 min"@
    }
}

/// What to do about a code that was rejected.
pub enum Rejected {
    /// It was what we were started for: fail.
    Fail { message: String },
    /// Go on listening.
    GoOn { hint: String },
}

/// What to do about a code that was rejected: with nobody linked and nothing delivered, a
/// receiver that was started with it has nothing else to do.
pub fn code_rejected(v: &serde_json::Value, started_with_code: bool, linked: bool, completed: u64) -> (r:
    Rejected)
    ensures
        r is Fail <==> started_with_code && !linked && completed == 0,
        r matches Rejected::Fail { message } ==> message@ == "code rejected: "@ + rejection_hint(
            frame::json(*v),
        ),
        r matches Rejected::GoOn { hint } ==> hint@ == rejection_hint(frame::json(*v)),
{
    let gone: bool = match crate::frame::text_at(v, "why") {
        Some(w) => same(w, "sender-gone"),
        None => false,
    };
    let hint = if gone {
        "the sender who made that code already left, ask them for a fresh one".to_owned()
    } else {
        let why = crate::offer::text_member(v, "error", "?");
        cat(why.as_str(), ", codes burn after one use and expire after 10 min")
    };
    if started_with_code && !linked && completed == 0 {
        Rejected::Fail { message: cat("code rejected: ", hint.as_str()) }
    } else {
        Rejected::GoOn { hint }
    }
}

/// The line about a run that the operator interrupted. A daemon has nothing half-received to
/// speak of.
pub fn interrupted_line(daemon: bool) -> (r: &'static str)
    ensures
        r@ == if daemon {
            "stopped serving; `filament up` starts again"@
        } else {
            "interrupted, partials kept; run the same command to resume"@
        },
{
    if daemon {
        "stopped serving; `filament up` starts again"
    } else {
        "interrupted, partials kept; run the same command to resume"
    }
}

/// The file at `i` is the only one that arrives from `peer` under its id.
pub open spec fn only_under_its_id(
    files: Seq<crate::recv_files::IncomingFile>,
    peer: Seq<char>,
    i: int,
) -> bool {
    &&& 0 <= i < files.len()
    &&& files[i].peer@ == peer
    &&& forall|j: int|
        0 <= j < files.len() && j != i && (#[trigger] files[j]).peer@ == peer ==> files[j].id@
            != files[i].id@
}

proof fn standing_of(files: Seq<crate::recv_files::IncomingFile>, peer: Seq<char>, i: int)
    requires
        only_under_its_id(files, peer, i),
    ensures
        standings(files, peer).contains_key(files[i].id@),
        standings(files, peer)[files[i].id@] == frame::Json::Number(Some(files[i].received)),
    decreases files.len(),
{
    let rest = files.drop_last();
    if i < rest.len() {
        assert(rest[i] == files[i]);
        assert(only_under_its_id(rest, peer, i)) by {
            assert forall|j: int|
                0 <= j < rest.len() && j != i && (#[trigger] rest[j]).peer@ == peer implies rest[j].id@
                != rest[i].id@ by {
                assert(files[j] == rest[j]);
            }
        }
        standing_of(rest, peer, i);
        assert(files.last() == files[files.len() - 1]);
    }
}

/// A lost tail is noticed: where a sender believes a file done of which the receiver holds
/// fewer bytes, the receiver's next state frame makes it offer the file again.
pub proof fn lost_tail_is_noticed(
    files: Seq<crate::recv_files::IncomingFile>,
    peer: Seq<char>,
    i: int,
    trusted: bool,
    o: crate::outgoing::Outgoing,
)
    requires
        only_under_its_id(files, peer, i),
        o.id@ == files[i].id@,
        o.done,
        files[i].received < o.size,
    ensures
        crate::outgoing::diverges(
            o,
            state_json(frame::Json::Object(standings(files, peer)), trusted),
        ),
{
    broadcast use frame::with_sets_one_member;

    standing_of(files, peer, i);
    reveal_strlit("type");
    reveal_strlit("v");
    reveal_strlit("transfers");
    reveal_strlit("trusted");
    reveal_strlit("away");
    assert("type"@.len() == 4 && "v"@.len() == 1 && "transfers"@.len() == 9);
    assert("trusted"@.len() == 7 && "away"@.len() == 4);
}

} // verus!
