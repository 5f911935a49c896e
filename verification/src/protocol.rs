//! The frames that a receiver answers a sender with, and how the other side reads them.

use vstd::prelude::*;
use vstd::string::*;
use crate::frame;
use crate::frame::{object, of_count, of_flag, of_text, put};
use crate::offer;
use crate::outgoing;
use crate::shared_defs;

verus! {

/// The frame that accepts a file from byte `offset` on.
pub open spec fn accept_json(id: Seq<char>, offset: u64) -> frame::Json {
    frame::empty_object().with("type"@, frame::Json::Text("file-accept"@)).with(
        "id"@,
        frame::Json::Text(id),
    ).with("offset"@, frame::Json::Number(Some(offset)))
}

/// The frame that accepts a file from byte `offset` on.
pub fn accept_msg(id: &str, offset: u64) -> (r: serde_json::Value)
    ensures
        frame::json(r) == accept_json(id@, offset),
{
    let mut f = object();
    put(&mut f, "type", of_text("file-accept"));
    put(&mut f, "id", of_text(id));
    put(&mut f, "offset", of_count(offset));
    f
}

/// The frame that declines a file.
pub open spec fn decline_json(id: Seq<char>) -> frame::Json {
    frame::empty_object().with("type"@, frame::Json::Text("file-decline"@)).with(
        "id"@,
        frame::Json::Text(id),
    )
}

/// The frame that declines a file.
pub fn decline_msg(id: &str) -> (r: serde_json::Value)
    ensures
        frame::json(r) == decline_json(id@),
{
    let mut f = object();
    put(&mut f, "type", of_text("file-decline"));
    put(&mut f, "id", of_text(id));
    f
}

/// The frame that says that a file arrived whole.
pub open spec fn delivered_json(id: Seq<char>, sid: u32) -> frame::Json {
    frame::empty_object().with("type"@, frame::Json::Text("delivery-ack"@)).with(
        "id"@,
        frame::Json::Text(id),
    ).with("sid"@, frame::Json::Number(Some(sid as u64)))
}

/// The frame that says that a file arrived whole.
pub fn delivery_ack_msg(id: &str, sid: u32) -> (r: serde_json::Value)
    ensures
        frame::json(r) == delivered_json(id@, sid),
{
    let mut f = object();
    put(&mut f, "type", of_text("delivery-ack"));
    put(&mut f, "id", of_text(id));
    put(&mut f, "sid", of_count(sid as u64));
    f
}

/// The frame that proves that we hold a secret.
pub open spec fn proof_json(mac: Seq<char>) -> frame::Json {
    frame::empty_object().with("type"@, frame::Json::Text("pair-proof"@)).with(
        "mac"@,
        frame::Json::Text(mac),
    )
}

/// The frame that proves that we hold a secret.
pub fn proof_msg(mac: &str) -> (r: serde_json::Value)
    ensures
        frame::json(r) == proof_json(mac@),
{
    let mut f = object();
    put(&mut f, "type", of_text("pair-proof"));
    put(&mut f, "mac", of_text(mac));
    f
}

/// The frame that tells the verdict on such a proof.
pub open spec fn verdict_json(ok: bool) -> frame::Json {
    frame::empty_object().with("type"@, frame::Json::Text("pair-proof-ack"@)).with(
        "ok"@,
        frame::Json::Bool(ok),
    )
}

/// The frame that tells the verdict on such a proof.
pub fn verdict_msg(ok: bool) -> (r: serde_json::Value)
    ensures
        frame::json(r) == verdict_json(ok),
{
    let mut f = object();
    put(&mut f, "type", of_text("pair-proof-ack"));
    put(&mut f, "ok", of_flag(ok));
    f
}

proof fn keys_are_apart()
    ensures
        "type"@ != "id"@,
        "type"@ != "offset"@,
        "type"@ != "sid"@,
        "type"@ != "mac"@,
        "type"@ != "ok"@,
        "id"@ != "offset"@,
        "id"@ != "sid"@,
{
    reveal_strlit("type");
    reveal_strlit("id");
    reveal_strlit("offset");
    reveal_strlit("sid");
    reveal_strlit("mac");
    reveal_strlit("ok");
    assert("type"@.len() == 4 && "id"@.len() == 2 && "offset"@.len() == 6);
    assert("sid"@.len() == 3 && "mac"@.len() == 3 && "ok"@.len() == 2);
}

/// A sender reads an acceptance as the receiver meant it: which file, and from which byte on,
/// so the bytes that it sends are the ones that are missing.
pub proof fn acceptance_is_read_as_meant(id: Seq<char>, offset: u64)
    ensures
        outgoing::id_of(accept_json(id, offset)) == id,
        offer::count_or_zero(accept_json(id, offset), "offset"@) == offset,
{
    broadcast use frame::with_sets_one_member;

    keys_are_apart();
}

/// A sender takes a refusal and a delivery for the file that the receiver meant.
pub proof fn answers_name_their_file(id: Seq<char>, sid: u32)
    ensures
        outgoing::id_of(decline_json(id)) == id,
        outgoing::id_of(delivered_json(id, sid)) == id,
{
    broadcast use frame::with_sets_one_member;

    keys_are_apart();
}

/// A receiver takes the end of a stream for that of the stream that the sender meant.
pub proof fn end_names_its_stream(id: Seq<char>, sid: u32)
    ensures
        shared_defs::low_half(offer::count_or_zero(outgoing::end_json(id, sid), "sid"@)) == sid,
{
    broadcast use frame::with_sets_one_member;

    keys_are_apart();
}

/// A proof and the verdict on it are read as they were meant.
pub proof fn proofs_are_read_as_meant(mac: Seq<char>, ok: bool)
    ensures
        proof_json(mac).text_at("mac"@) == Some(mac),
        verdict_json(ok).flag_at("ok"@) == Some(ok),
{
    broadcast use frame::with_sets_one_member;

    keys_are_apart();
}

} // verus!
