//! What the command line needs of the library beside transfers.

use vstd::prelude::*;
use vstd::string::*;
use crate::frame;
use crate::runtime_support;
use crate::runtime_support::{
    asks_for_kind, is_light_command, next_wait, owner_only_verdict, recover_source, recovered,
    recovery_phrase, resolve_for_kind, stop_managed_service, unmount_fuse, ForError, NextWait,
    Platform, Recovered, ServiceManager, UiCapability, UnmountStep, WordsSource,
};
use crate::text;

verus! {

broadcast use frame::with_sets_one_member;

proof fn words_are_apart()
    ensures
        "device"@.len() == 6,
        "device"@[0] == 'd',
        "person"@.len() == 6,
        "person"@[0] == 'p',
        "runner"@.len() == 6,
        "runner"@[0] == 'r',
        "identity"@.len() == 8,
        "identity"@[0] == 'i',
        "restored"@.len() == 8,
        "restored"@[0] == 'r',
        "revokedStolenDevices"@.len() == 20,
{
    reveal_strlit("device");
    reveal_strlit("person");
    reveal_strlit("runner");
    reveal_strlit("identity");
    reveal_strlit("restored");
    reveal_strlit("revokedStolenDevices");
}

/// A secret is read only from a regular file that nobody but its owner may touch.
pub proof fn a_secret_is_its_owners(symlink: bool, regular: bool, mode: Option<u32>, path: &str, r: Result<(), String>)
    requires
        call_ensures(owner_only_verdict, (symlink, regular, mode, path), r),
    ensures
        symlink || !regular ==> r is Err && r->Err_0@
            == "secret input must be a regular file, not a symlink"@,
        !symlink && regular && mode is None ==> r is Ok,
        !symlink && regular && mode is Some && mode->0 & 0o077 == 0 ==> r is Ok,
        !symlink && regular && mode is Some && mode->0 & 0o077 != 0 ==> r is Err && r->Err_0@
            == "secret file must be owner-only (chmod 600 "@ + path@ + ")"@,
{
}

/// An identity is never recovered over another; its words come from the file, else from the open
/// file, else from the terminal.
pub proof fn where_the_words_come_from(there: bool, file: bool, fd: bool, caps: UiCapability, r: Result<WordsSource, String>)
    requires
        call_ensures(recover_source, (there, file, fd, &caps), r),
    ensures
        there ==> r is Err && r->Err_0@ == "an identity already exists; recovery will not overwrite it"@,
        !there && file ==> r == Ok::<WordsSource, String>(WordsSource::File),
        !there && !file && fd ==> r == Ok::<WordsSource, String>(WordsSource::Fd),
        !there && !file && !fd && caps.interactive ==> r == Ok::<WordsSource, String>(
            WordsSource::Terminal,
        ),
        !there && !file && !fd && !caps.interactive ==> r is Err && r->Err_0@
            == "non-interactive recovery requires --words-file <path> or --words-fd <fd>"@,
{
}

/// The words count without the blanks around them, and what is said of the recovery promises no
/// more than it does.
pub proof fn what_is_said_of_a_recovery(words: &str, p: &str, print: &str, caps: UiCapability, r: Recovered)
    requires
        call_ensures(recovery_phrase, (words,), p),
        call_ensures(recovered, (print, &caps), r),
    ensures
        p@ == text::trimmed(words@),
        caps.json ==> r is Json,
        !caps.json ==> r is Lines,
        r matches Recovered::Json(v) ==> frame::json(v).member("identity"@) == frame::Json::Text(print@)
            && frame::json(v).member("restored"@) == frame::Json::Bool(true) && frame::json(v).member(
            "revokedStolenDevices"@,
        ) == frame::Json::Bool(false),
        r matches Recovered::Lines { done, warning } ==> done@ == "identity restored: "@ + print@
            && warning@ == "  Recovery does not revoke a stolen device or a key it already holds."@,
{
    words_are_apart();
}

/// Nothing was said of who joins.
pub open spec fn nothing_said(f: Option<&str>) -> bool {
    f is None || text::trimmed(f->0@).len() == 0
}

/// Who joins is asked at a terminal where it was not said.
pub proof fn when_who_joins_is_asked(caps: UiCapability, f: Option<&str>, r: bool)
    requires
        call_ensures(asks_for_kind, (&caps, f), r),
    ensures
        r <==> caps.interactive && nothing_said(f),
{
}

/// A device, a person and a runner are told by these words; any other word is the name of a device.
/// Where nothing was said, what was picked counts, and without a terminal it is an error.
pub proof fn who_joins(caps: UiCapability, f: Option<&str>, picked: Option<usize>, r: Result<(String, Option<String>), ForError>)
    requires
        call_ensures(resolve_for_kind, (&caps, f, picked), r),
    ensures
        !nothing_said(f) && f->0@ == "device"@ ==> (r matches Ok((k, n)) && k@ == "device"@ && n is None),
        !nothing_said(f) && f->0@ == "person"@ ==> (r matches Ok((k, n)) && k@ == "person"@ && n is None),
        !nothing_said(f) && f->0@ == "runner"@ ==> (r matches Ok((k, n)) && k@ == "runner"@ && n is None),
        !nothing_said(f) && f->0@ != "device"@ && f->0@ != "person"@ && f->0@ != "runner"@ ==> (
        r matches Ok((k, n)) && k@ == "device"@ && n is Some && n->0@ == f->0@),
        nothing_said(f) && !caps.interactive ==> r is Err && r->Err_0 is Unsaid,
        nothing_said(f) && caps.interactive && picked is None ==> r is Err && r->Err_0 is Cancelled,
        nothing_said(f) && caps.interactive && picked == Some(0usize) ==> (r matches Ok((k, n)) && k@
            == "device"@ && n is None),
        nothing_said(f) && caps.interactive && picked == Some(1usize) ==> (r matches Ok((k, n)) && k@
            == "person"@ && n is None),
        nothing_said(f) && caps.interactive && picked is Some && picked->0 > 1 ==> (r matches Ok((k, n))
            && k@ == "runner"@ && n is None),
{
    words_are_apart();
}

/// A managed service is stopped where it runs: by the system, or by the user.
pub proof fn how_a_service_is_stopped(m: Option<ServiceManager>, r: Option<Vec<String>>)
    requires
        call_ensures(stop_managed_service, (m,), r),
    ensures
        m is None ==> r is None,
        m == Some(ServiceManager::SystemdSystem) ==> r is Some && r->0@.len() == 2 && r->0@[0]@
            == "stop"@ && r->0@[1]@ == "filament"@,
        m == Some(ServiceManager::SystemdUser) ==> r is Some && r->0@.len() == 3 && r->0@[0]@
            == "--user"@ && r->0@[1]@ == "stop"@ && r->0@[2]@ == "filament"@,
{
    if r is Some {
        let v = frame::views(r->0@);
        assert(v.len() == r->0@.len());
        if m == Some(ServiceManager::SystemdSystem) {
            assert(v[0] == r->0@[0]@);
            assert(v[1] == r->0@[1]@);
        } else if m == Some(ServiceManager::SystemdUser) {
            assert(v[0] == r->0@[0]@);
            assert(v[1] == r->0@[1]@);
            assert(v[2] == r->0@[2]@);
        }
    }
}

/// A peer that left is waited for as long as the window, second by second; and while nobody is
/// waited for, two at a time.
pub proof fn how_long_a_peer_is_waited_for(waiting: Option<u64>, window: u64, now: u64, hide: bool, r: NextWait)
    requires
        call_ensures(next_wait, (waiting, window, now, hide), r),
    ensures
        waiting is None ==> r == (NextWait::Wait { secs: 2, left: None }),
        (waiting matches Some(t) && t <= now) ==> {
            let gone = now - waiting->0;
            &&& gone > window ==> r is Expired
            &&& gone <= window && hide ==> r == (NextWait::Wait { secs: 1, left: None })
            &&& gone <= window && !hide ==> r == (NextWait::Wait {
                secs: 1,
                left: Some(((window - gone) / 1_000_000_000) as u64),
            })
        },
        r matches NextWait::Expired(e) ==> e@ == "peer did not come back within "@ + text::decimal(
            (window / 1_000_000_000) as nat,
        ) + "s (partial state kept for resume)"@,
{
}

/// Commands that only look something up are light, and so is none.
pub proof fn which_commands_are_light(a: Option<&str>, r: bool)
    requires
        call_ensures(is_light_command, (a,), r),
    ensures
        a is None ==> r,
        a is Some ==> (r <==> (a->0@ == "--version"@ || a->0@ == "-V"@ || a->0@ == "--help"@ || a->0@
            == "-h"@ || a->0@ == "help"@ || a->0@ == "devices"@ || a->0@ == "id"@ || a->0@ == "status"@
            || a->0@ == "addr"@ || a->0@ == "set"@ || a->0@ == "completions"@ || a->0@ == "man"@)),
{
}

/// A directory is unmounted by the first tool that does it: on Linux the newer one, the older one,
/// and the newer one lazily; on a Mac by force and then plainly; on Windows there is none.
pub proof fn how_a_directory_is_unmounted(p: Platform, local: &str, tried: Vec<bool>, r: UnmountStep, i: int)
    requires
        call_ensures(unmount_fuse, (p, local, &tried), r),
    ensures
        0 <= i < tried@.len() && tried@[i] ==> r is Done,
        p is Windows ==> r is Done,
        p is Linux && tried@.len() >= 3 ==> r is Done,
        p is MacOs && tried@.len() >= 2 ==> r is Done,
        p is Linux && tried@.len() == 0 ==> r is Run && r->program@ == "fusermount3"@
            && r->args@.len() == 2 && r->args@[0]@ == "-u"@ && r->args@[1]@ == local@,
        p is Linux && tried@.len() == 1 && !tried@[0] ==> r is Run && r->program@ == "fusermount"@
            && r->args@.len() == 2 && r->args@[0]@ == "-u"@ && r->args@[1]@ == local@,
        p is Linux && tried@.len() == 2 && !tried@[0] && !tried@[1] ==> r is Run && r->program@
            == "fusermount3"@ && r->args@.len() == 2 && r->args@[0]@ == "-uz"@ && r->args@[1]@ == local@,
        p is MacOs && tried@.len() == 0 ==> r is Run && r->program@ == "diskutil"@ && r->args@.len()
            == 3 && r->args@[0]@ == "unmount"@ && r->args@[1]@ == "force"@ && r->args@[2]@ == local@,
        p is MacOs && tried@.len() == 1 && !tried@[0] ==> r is Run && r->program@ == "umount"@
            && r->args@.len() == 1 && r->args@[0]@ == local@,
{
    if 0 <= i < tried@.len() && tried@[i] {
        assert(tried@.contains(true));
    }
    if tried@.contains(true) {
        let k = tried@.index_of(true);
        assert(tried@[k]);
    }
    if r is Run {
        let v = frame::views(r->args@);
        assert(v.len() == r->args@.len());
        assert(forall|k: int| 0 <= k < v.len() ==> #[trigger] v[k] == r->args@[k]@);
        if p is MacOs {
            assert(v[0] == r->args@[0]@);
            if tried@.len() == 0 {
                assert(v[1] == r->args@[1]@);
                assert(v[2] == r->args@[2]@);
            }
        } else if p is Linux {
            assert(v[0] == r->args@[0]@);
            assert(v[1] == r->args@[1]@);
        }
    }
}

/// Where nothing was said of who joins and nobody can be asked, what can be said is shown.
pub proof fn what_can_be_said_is_shown(caps: UiCapability, picked: Option<usize>, r: Result<(String, Option<String>), ForError>)
    requires
        call_ensures(resolve_for_kind, (&caps, None, picked), r),
        !caps.interactive,
    ensures
        r matches Err(ForError::Unsaid(e)) && e@
            == "--for needs to know who is joining:\n\n  a device you own   filament add laptop --out laptop.invite\n  someone else       filament add --for person --out alice.invite\n  a CI runner        filament add --for runner --out ci.key\n\n  A bare name means a device, so `add laptop` is `--for laptop`.\n  They claim it with:  filament join <file>"@,
{
}

} // verus!
