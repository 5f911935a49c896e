//! What a daemon makes of its settings, and its answers to sibling processes.

use vstd::prelude::*;
use vstd::string::*;
use crate::frame;
use crate::frame::{object, of_count, of_flag, put};
use crate::text;
use crate::text::{cat, cat3, same, to_decimal};

verus! {

/// How the overlay network is carried.
#[derive(Clone, Copy, Debug, PartialEq, Eq, Structural)]
pub enum OverlayMode {
    /// By the kernel.
    Kernel,
    /// By this process.
    Userspace,
    /// By the kernel where that can be, and by this process otherwise.
    Auto,
}

/// The setting is this text.
pub open spec fn is_set(setting: Option<&str>, t: Seq<char>) -> bool {
    setting matches Some(s) && s@ == t
}

fn set_to(setting: Option<&str>, t: &str) -> (r: bool)
    ensures
        r == is_set(setting, t@),
{
    match setting {
        Some(s) => same(s, t),
        None => false,
    }
}

/// How the overlay network is carried by the setting.
pub fn overlay_mode(setting: Option<&str>) -> (r: OverlayMode)
    ensures
        r is Kernel <==> is_set(setting, "kernel"@),
        r is Userspace <==> is_set(setting, "userspace"@),
{
    proof {
        reveal_strlit("kernel");
        reveal_strlit("userspace");
        assert("kernel"@.len() == 6 && "userspace"@.len() == 9);
    }
    if set_to(setting, "kernel") {
        OverlayMode::Kernel
    } else if set_to(setting, "userspace") {
        OverlayMode::Userspace
    } else {
        OverlayMode::Auto
    }
}

/// Where the address of this device in the overlay comes from.
pub enum OverlayAddr {
    /// There is no overlay.
    Off,
    /// From its own key: peers believe it by the signature.
    Own,
    /// From the operator.
    Manual { cidr: String },
}

/// Where the address of this device in the overlay comes from. Only a daemon has one.
pub fn overlay_addr(daemon: bool, setting: Option<&str>) -> (r: OverlayAddr)
    ensures
        r is Off <==> !daemon || setting is None || (setting->0@.len() == 0),
        r is Own <==> daemon && is_set(setting, "auto"@),
        r matches OverlayAddr::Manual { cidr } ==> cidr@ == setting->0@,
{
    proof {
        reveal_strlit("auto");
        assert("auto"@.len() == 4);
    }
    if !daemon {
        return OverlayAddr::Off;
    }
    match setting {
        None => OverlayAddr::Off,
        Some(s) => if s.unicode_len() == 0 {
            OverlayAddr::Off
        } else if same(s, "auto") {
            OverlayAddr::Own
        } else {
            OverlayAddr::Manual { cidr: s.to_owned() }
        },
    }
}

/// Whether ports of this machine are opened to the overlay. Where this process carries the
/// overlay the firewall of the machine does not see it, so there the operator must have asked
/// for it.
pub fn exposes_ports(userspace: bool, forced: bool, setting: Option<&str>) -> (r: bool)
    ensures
        r == (!userspace || forced || is_set(setting, "userspace"@)),
{
    !userspace || forced || set_to(setting, "userspace")
}

/// What to do about networks that this machine offers to carry traffic for.
#[derive(Clone, Copy, Debug, PartialEq, Eq, Structural)]
pub enum Carry {
    /// It offers none.
    Nothing,
    /// It cannot: only the kernel carries traffic on. Say so.
    Cannot,
    /// Tell the kernel to.
    Enable,
}

/// What to do about networks that this machine offers to carry traffic for.
pub fn carries(offered: usize, userspace: bool) -> (r: Carry)
    ensures
        r is Nothing <==> offered == 0,
        r is Cannot <==> offered > 0 && userspace,
{
    if offered == 0 {
        Carry::Nothing
    } else if userspace {
        Carry::Cannot
    } else {
        Carry::Enable
    }
}

/// Whether a proxy is started for programs of this machine: where the kernel has no route to
/// the overlay, unless the operator does not want it.
pub fn starts_proxy(userspace: bool, setting: bool, forbidden: bool) -> (r: bool)
    ensures
        r == (userspace && setting && !forbidden),
{
    userspace && setting && !forbidden
}

/// Whether tunnels of another kind are made between direct links.
pub fn tunnels_on(setting: Option<&str>) -> (r: bool)
    ensures
        r == (is_set(setting, "on"@) || is_set(setting, "true"@)),
{
    set_to(setting, "on") || set_to(setting, "true")
}

/// Whether to tell a peer our tunnel key: over a direct link only, for elsewhere there is no
/// address to send to, and once.
pub fn offers_tunnel(has_address: bool, direct: bool, told: bool) -> (r: bool)
    ensures
        r == (has_address && direct && !told),
{
    has_address && direct && !told
}

/// A mount is gone: its directory is, or nothing is mounted there.
pub fn mount_gone(there: bool, mounted: bool) -> (r: bool)
    ensures
        r == (!there || !mounted),
{
    !there || !mounted
}

/// The line about a mount that is gone.
pub fn mount_gone_line(local: &str, peer: &str, remote: &str) -> (r: String)
    ensures
        r@ == "mount "@ + local@ + " is gone, removing from daemon tracking (was "@ + peer@ + ":"@
            + remote@ + ")"@,
{
    let start = cat3("mount ", local, " is gone, removing from daemon tracking (was ");
    let at = cat3(start.as_str(), peer, ":");
    cat3(at.as_str(), remote, ")")
}

/// The line about a daemon that is up.
pub fn up_line(devices: usize) -> (r: String)
    ensures
        r@ == "filament up, "@ + text::decimal(devices as nat) + (if devices == 1 {
            " known device"@
        } else {
            " known devices"@
        }),
{
    let n = to_decimal(devices as u64);
    cat3(
        "filament up, ",
        n.as_str(),
        if devices == 1 {
            " known device"
        } else {
            " known devices"
        },
    )
}

/// The line about devices that have been offline for longer than they may.
pub fn lapsed_line(lapsed: usize) -> (r: Option<String>)
    ensures
        r is Some <==> lapsed > 0,
        r matches Some(l) ==> l@ == text::decimal(lapsed as nat)
            + " device(s) lapsed (offline past their budget)"@,
{
    if lapsed == 0 {
        return None;
    }
    let n = to_decimal(lapsed as u64);
    Some(cat(n.as_str(), " device(s) lapsed (offline past their budget)"))
}

/// The answer to a sibling that changed a setting: whether it took effect at once.
pub fn reconfigured(live: bool) -> (r: serde_json::Value)
    ensures
        frame::json(r) == frame::empty_object().with("ok"@, frame::Json::Bool(true)).with(
            "live"@,
            frame::Json::Bool(live),
        ),
{
    let mut f = object();
    put(&mut f, "ok", of_flag(true));
    put(&mut f, "live", of_flag(live));
    f
}

/// The answer to a sibling that changed which ports are open: how many are, where the overlay
/// is up.
pub fn reexposed(ports: Option<u64>) -> (r: serde_json::Value)
    ensures
        frame::json(r) == frame::empty_object().with("ok"@, frame::Json::Bool(true)).with(
            "live"@,
            frame::Json::Bool(ports is Some),
        ).with(
            "count"@,
            frame::Json::Number(
                Some(
                    match ports {
                        Some(n) => n,
                        None => 0,
                    },
                ),
            ),
        ),
{
    let mut f = object();
    put(&mut f, "ok", of_flag(true));
    put(&mut f, "live", of_flag(ports.is_some()));
    let n: u64 = match ports {
        Some(n) => n,
        None => 0,
    };
    put(&mut f, "count", of_count(n));
    f
}

/// The answer to a sibling that wants the daemon to start anew: only where something starts it
/// again.
pub fn reloading(supervised: bool) -> (r: serde_json::Value)
    ensures
        frame::json(r) == frame::empty_object().with("ok"@, frame::Json::Bool(true)).with(
            "reloading"@,
            frame::Json::Bool(supervised),
        ),
{
    let mut f = object();
    put(&mut f, "ok", of_flag(true));
    put(&mut f, "reloading", of_flag(supervised));
    f
}

} // verus!
