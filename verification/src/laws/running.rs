//! The daemon: what its settings mean, and what it says.

use vstd::prelude::*;
use vstd::string::*;
use crate::daemon::{
    carries, exposes_ports, lapsed_line, mount_gone, mount_gone_line, offers_tunnel, overlay_addr,
    overlay_mode, reconfigured, reexposed, reloading, starts_proxy, tunnels_on, up_line, Carry,
    OverlayAddr, OverlayMode,
};
use crate::frame;
use crate::text;

verus! {

broadcast use frame::with_sets_one_member;

proof fn words_are_apart()
    ensures
        "ok"@.len() == 2,
        "ok"@[1] == 'k',
        "on"@.len() == 2,
        "on"@[1] == 'n',
        "auto"@.len() == 4,
        "auto"@[0] == 'a',
        "live"@.len() == 4,
        "live"@[0] == 'l',
        "true"@.len() == 4,
        "true"@[0] == 't',
        "count"@.len() == 5,
        "kernel"@.len() == 6,
        "reloading"@.len() == 9,
        "reloading"@[0] == 'r',
        "userspace"@.len() == 9,
        "userspace"@[0] == 'u',
{
    reveal_strlit("ok");
    reveal_strlit("on");
    reveal_strlit("auto");
    reveal_strlit("live");
    reveal_strlit("true");
    reveal_strlit("count");
    reveal_strlit("kernel");
    reveal_strlit("reloading");
    reveal_strlit("userspace");
}

/// The overlay runs as the setting says, and as it can where there is none.
pub proof fn the_overlay_runs_as_set(setting: Option<&str>, r: OverlayMode)
    requires
        call_ensures(overlay_mode, (setting,), r),
    ensures
        setting is None ==> r is Auto,
        setting is Some && setting->0@ == "kernel"@ ==> r is Kernel,
        setting is Some && setting->0@ == "userspace"@ ==> r is Userspace,
        setting is Some && setting->0@ != "kernel"@ && setting->0@ != "userspace"@ ==> r is Auto,
{
    words_are_apart();
}

/// Only a daemon has an address in the overlay: its own where that is asked for, and otherwise the
/// one that is set.
pub proof fn the_overlay_address_is_as_set(daemon: bool, setting: Option<&str>, r: OverlayAddr)
    requires
        call_ensures(overlay_addr, (daemon, setting), r),
    ensures
        !daemon || setting is None ==> r is Off,
        daemon && setting is Some && setting->0@.len() == 0 ==> r is Off,
        daemon && setting is Some && setting->0@ == "auto"@ ==> r is Own,
        daemon && setting is Some && setting->0@.len() > 0 && setting->0@ != "auto"@ ==> (
        r matches OverlayAddr::Manual { cidr } && cidr@ == setting->0@),
{
    words_are_apart();
}

/// Ports are opened to the fleet in the kernel, or in userspace where that is forced or set.
pub proof fn when_ports_are_opened(userspace: bool, forced: bool, setting: Option<&str>, r: bool)
    requires
        call_ensures(exposes_ports, (userspace, forced, setting), r),
    ensures
        !userspace || forced ==> r,
        setting is Some && setting->0@ == "userspace"@ ==> r,
        userspace && !forced && !(setting is Some && setting->0@ == "userspace"@) ==> !r,
{
}

/// Routes are carried where there are some, in the kernel alone; the proxy is for userspace, where
/// it is set and not forbidden; and tunnels are on where the setting says so.
pub proof fn what_the_daemon_starts(offered: usize, userspace: bool, c: Carry, setting: bool, forbidden: bool, p: bool, tunnels: Option<&str>, t: bool)
    requires
        call_ensures(carries, (offered, userspace), c),
        call_ensures(starts_proxy, (userspace, setting, forbidden), p),
        call_ensures(tunnels_on, (tunnels,), t),
    ensures
        offered == 0 ==> c is Nothing,
        offered > 0 && userspace ==> c is Cannot,
        offered > 0 && !userspace ==> c is Enable,
        p <==> userspace && setting && !forbidden,
        tunnels is None ==> !t,
        tunnels is Some ==> (t <==> tunnels->0@ == "on"@ || tunnels->0@ == "true"@),
{
}

/// A tunnel is offered once, over a direct link, by whoever has an address; and a mount is gone where
/// its directory is, or where nothing is mounted there.
pub proof fn what_the_daemon_notices(address: bool, direct: bool, told: bool, o: bool, there: bool, mounted: bool, g: bool)
    requires
        call_ensures(offers_tunnel, (address, direct, told), o),
        call_ensures(mount_gone, (there, mounted), g),
    ensures
        o <==> address && direct && !told,
        g <==> !there || !mounted,
{
}

/// What the daemon says.
pub proof fn what_the_daemon_says(local: &str, peer: &str, remote: &str, m: String, devices: usize, u: String, lapsed: usize, l: Option<String>)
    requires
        call_ensures(mount_gone_line, (local, peer, remote), m),
        call_ensures(up_line, (devices,), u),
        call_ensures(lapsed_line, (lapsed,), l),
    ensures
        m@ == "mount "@ + local@ + " is gone, removing from daemon tracking (was "@ + peer@ + ":"@
            + remote@ + ")"@,
        devices == 1 ==> u@ == "filament up, "@ + text::decimal(1) + " known device"@,
        devices != 1 ==> u@ == "filament up, "@ + text::decimal(devices as nat) + " known devices"@,
        lapsed == 0 ==> l is None,
        lapsed > 0 ==> l is Some && l->0@ == text::decimal(lapsed as nat)
            + " device(s) lapsed (offline past their budget)"@,
{
}

/// What the daemon answers to its operator.
pub proof fn what_the_daemon_answers(live: bool, c: serde_json::Value, ports: Option<u64>, e: serde_json::Value, supervised: bool, r: serde_json::Value)
    requires
        call_ensures(reconfigured, (live,), c),
        call_ensures(reexposed, (ports,), e),
        call_ensures(reloading, (supervised,), r),
    ensures
        frame::json(c).member("ok"@) == frame::Json::Bool(true),
        frame::json(c).member("live"@) == frame::Json::Bool(live),
        frame::json(e).member("ok"@) == frame::Json::Bool(true),
        ports matches Some(n) ==> frame::json(e).member("live"@) == frame::Json::Bool(true)
            && frame::json(e).member("count"@) == frame::Json::Number(Some(n)),
        ports is None ==> frame::json(e).member("live"@) == frame::Json::Bool(false) && frame::json(
            e,
        ).member("count"@) == frame::Json::Number(Some(0)),
        frame::json(r).member("ok"@) == frame::Json::Bool(true),
        frame::json(r).member("reloading"@) == frame::Json::Bool(supervised),
{
    words_are_apart();
}

} // verus!
