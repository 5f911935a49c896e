//! When a sender offers its files over a link, and when it does not.

use vstd::prelude::*;
use crate::send_loop::{channel_ready, Proving, Ready, ReadyStep, ReadyView};

verus! {

/// The peer that files go to, over a link that is there, is offered them as soon as it has proved
/// what this send asks for: that it knows the code, where there is one and the link does not
/// prove it by itself, and that it is the device of the fleet, where one is meant.
pub proof fn a_proved_peer_is_offered_the_files(v: ReadyView, r: Ready)
    requires
        call_ensures(channel_ready, (&v,), r),
        v.active,
        v.linked,
        v.fleet_target ==> v.fleet_proved && !v.wrong_device,
        v.use_code ==> v.pake_done || v.direct,
    ensures
        r.step is Offer,
        r.established,
        !r.greet,
{
}

/// Nobody else is offered anything.
pub proof fn an_unproved_peer_is_offered_nothing(v: ReadyView, r: Ready)
    requires
        call_ensures(channel_ready, (&v,), r),
        !v.active || !v.linked || (v.use_code && !v.pake_done && !v.direct) || (v.fleet_target && (
        !v.fleet_proved || v.wrong_device)),
    ensures
        r.step !is Offer,
{
}

/// A peer that proved to be another device than the one meant is dropped, whatever else it is,
/// and nobody else is.
pub proof fn only_another_device_is_dropped(v: ReadyView, r: Ready)
    requires
        call_ensures(channel_ready, (&v,), r),
    ensures
        r.step is Drop <==> v.fleet_target && v.wrong_device,
        r.step is Drop ==> !r.established && !r.greet,
{
}

/// A link to somebody else, or one that is gone, is left alone.
pub proof fn another_link_idles(v: ReadyView, r: Ready)
    requires
        call_ensures(channel_ready, (&v,), r),
        !(v.fleet_target && v.wrong_device),
    ensures
        r.step is Idle <==> !(v.active && v.linked),
        !v.active ==> !r.established && !r.greet,
        v.active ==> r.established,
{
}

/// What is waited for is what is missing: the code first, and then the device.
pub proof fn the_missing_proof_is_waited_for(v: ReadyView, r: Ready)
    requires
        call_ensures(channel_ready, (&v,), r),
        v.active,
        v.linked,
        !v.wrong_device,
    ensures
        v.use_code && !v.direct && !v.pake_done ==> r.step is AwaitCode,
        (!v.use_code || v.direct || v.pake_done) && v.fleet_target && !v.fleet_proved
            ==> r.step is AwaitFleet,
        r.greet == (v.fleet_target && !v.fleet_proved),
{
}

/// Whoever shares a secret with us is given a proof of it with the offer, bound to the link where
/// it can be; a link that proves both ends by itself, or a peer without a secret, asks for none.
pub proof fn an_offer_comes_with_our_proof(v: ReadyView, r: Ready)
    requires
        call_ensures(channel_ready, (&v,), r),
        r.step is Offer,
    ensures
        r.step == ReadyStep::Offer(Proving::Send) <==> v.secret && !v.direct && v.fingerprints,
        r.step == ReadyStep::Offer(Proving::Unbound) <==> v.secret && !v.direct && !v.fingerprints,
        r.step == ReadyStep::Offer(Proving::Nothing) <==> v.direct || !v.secret,
{
}

/// Proving more never loses what was to be had: a peer that is offered the files is still
/// offered them once it has proved the code or the device too.
pub proof fn proving_more_loses_nothing(v: ReadyView, w: ReadyView, r: Ready, s: Ready)
    requires
        call_ensures(channel_ready, (&v,), r),
        call_ensures(channel_ready, (&w,), s),
        w == (ReadyView { pake_done: w.pake_done, fleet_proved: w.fleet_proved, ..v }),
        v.pake_done ==> w.pake_done,
        v.fleet_proved ==> w.fleet_proved,
        r.step is Offer,
    ensures
        s.step == r.step,
{
}

} // verus!
