//! The decision logic of a peer-to-peer file-transfer client.
//!
//! Everything here works on plain values: frames that came over a link, the
//! clock reading that goes with them, and what the surrounding program found on
//! disk or on the network. The answers are plain values too: the next state and
//! what to do about it.

#![allow(unused_imports)]

pub mod ack_window;
pub mod assembly;
pub mod bootstrap;
pub mod cadence;
pub mod candidates;
pub mod channels;
pub mod console;
pub mod coverage;
pub mod daemon;
pub mod digest;
pub mod dispatch;
pub mod enrolment;
pub mod finish;
pub mod fleet_links;
pub mod frame;
pub mod hexadecimal;
pub mod keyed;
pub mod laws;
pub mod offer;
pub mod offer_flow;
pub mod outgoing;
pub mod overlay_links;
pub mod pairing;
pub mod presence;
pub mod protocol;
pub mod receive_opening;
pub mod reconcile;
pub mod recv_files;
pub mod recv_session;
pub mod remember;
pub mod renewal_lifecycle;
pub mod requests;
pub mod runtime_support;
pub mod send_loop;
pub mod send_opening;
pub mod send_session;
pub mod setup;
pub mod shared_defs;
pub mod signaling;
pub mod stream_plan;
pub mod streams;
pub mod terminals;
pub mod text;
