//! Decisions behind the long-running paths: waiting for the next event, reading secrets,
//! recovering an identity, asking who joins, stopping a service, and unmounting.

use vstd::prelude::*;
use vstd::string::*;
use crate::frame;
use crate::frame::{object, of_flag, of_text, put};
use crate::shared_defs;
use crate::shared_defs::{elapsed, SECOND};
use crate::text;
use crate::text::{cat, cat3, same, to_decimal, trim};

verus! {

/// What the terminal can do.
pub struct UiCapability {
    /// There is somebody to ask.
    pub interactive: bool,
    /// Answers are to be in JSON.
    pub json: bool,
}

/// Whether a secret may be read from a file: it must be a regular file and no link, and,
/// where files have a mode, nobody but its owner may have a right to it.
pub fn owner_only_verdict(symlink: bool, regular: bool, mode: Option<u32>, path: &str) -> (r: Result<
    (),
    String,
>)
    ensures
        r is Ok <==> !symlink && regular && (mode is None || mode->0 & 0o077 == 0),
        symlink || !regular ==> (r matches Err(e) && e@
            == "secret input must be a regular file, not a symlink"@),
        !symlink && regular && mode is Some && mode->0 & 0o077 != 0 ==> (r matches Err(e) && e@
            == "secret file must be owner-only (chmod 600 "@ + path@ + ")"@),
{
    if symlink || !regular {
        return Err("secret input must be a regular file, not a symlink".to_owned());
    }
    if let Some(m) = mode {
        if m & 0o077 != 0 {
            return Err(cat3("secret file must be owner-only (chmod 600 ", path, ")"));
        }
    }
    Ok(())
}

/// Where recovery words come from.
#[derive(Clone, Copy, Debug, PartialEq, Eq, Structural)]
pub enum WordsSource {
    File,
    Fd,
    Terminal,
}

/// Where recovery words come from: a file, else a descriptor, else the terminal. An identity
/// that exists is never overwritten.
pub fn recover_source(
    exists_already: bool,
    has_file: bool,
    has_fd: bool,
    caps: &UiCapability,
) -> (r: Result<WordsSource, String>)
    ensures
        exists_already ==> (r matches Err(e) && e@
            == "an identity already exists; recovery will not overwrite it"@),
        !exists_already ==> match r {
            Ok(WordsSource::File) => has_file,
            Ok(WordsSource::Fd) => !has_file && has_fd,
            Ok(WordsSource::Terminal) => !has_file && !has_fd && caps.interactive,
            Err(e) => !has_file && !has_fd && !caps.interactive && e@
                == "non-interactive recovery requires --words-file <path> or --words-fd <fd>"@,
        },
{
    if exists_already {
        return Err("an identity already exists; recovery will not overwrite it".to_owned());
    }
    if has_file {
        Ok(WordsSource::File)
    } else if has_fd {
        Ok(WordsSource::Fd)
    } else if caps.interactive {
        Ok(WordsSource::Terminal)
    } else {
        Err(
            "non-interactive recovery requires --words-file <path> or --words-fd <fd>".to_owned(),
        )
    }
}

/// The words as they are restored from: without the white space around them.
pub fn recovery_phrase(words: &str) -> (r: &str)
    ensures
        r@ == text::trimmed(words@),
{
    trim(words)
}

/// What is said of a recovered identity.
pub enum Recovered {
    Json(serde_json::Value),
    Lines { done: String, warning: String },
}

/// What is said of a recovered identity. Either way it is said that recovery revokes nothing.
pub fn recovered(fingerprint: &str, caps: &UiCapability) -> (r: Recovered)
    ensures
        r is Json <==> caps.json,
        r matches Recovered::Json(v) ==> frame::json(v) == frame::empty_object().with(
            "identity"@,
            frame::Json::Text(fingerprint@),
        ).with("restored"@, frame::Json::Bool(true)).with(
            "revokedStolenDevices"@,
            frame::Json::Bool(false),
        ),
        r matches Recovered::Lines { done, warning } ==> done@ == "identity restored: "@ + fingerprint@
            && warning@ == "  Recovery does not revoke a stolen device or a key it already holds."@,
{
    if caps.json {
        let mut f = object();
        put(&mut f, "identity", of_text(fingerprint));
        put(&mut f, "restored", of_flag(true));
        put(&mut f, "revokedStolenDevices", of_flag(false));
        Recovered::Json(f)
    } else {
        Recovered::Lines {
            done: cat("identity restored: ", fingerprint),
            warning: "  Recovery does not revoke a stolen device or a key it already holds.".to_owned(),
        }
    }
}

/// Why it is not known who joins.
pub enum ForError {
    /// The operator left the question.
    Cancelled,
    /// There was nobody to ask.
    Unsaid(String),
}

/// What is said where there was nobody to ask.
pub open spec fn for_help() -> Seq<char> {
    "--for needs to know who is joining:\n\n  a device you own   filament add laptop --out laptop.invite\n  someone else       filament add --for person --out alice.invite\n  a CI runner        filament add --for runner --out ci.key\n\n  A bare name means a device, so `add laptop` is `--for laptop`.\n  They claim it with:  filament join <file>"@
}

/// Nothing was said of who joins: white space says nothing.
pub open spec fn unsaid(for_: Option<Seq<char>>) -> bool {
    for_ is None || text::trimmed(for_->0).len() == 0
}

/// Whether the operator is to be asked who joins.
pub fn asks_for_kind(caps: &UiCapability, for_: Option<&str>) -> (r: bool)
    ensures
        r == (caps.interactive && unsaid(shared_defs::view_of_str(for_))),
{
    let silent: bool = match for_ {
        None => true,
        Some(s) => trim(s).is_empty(),
    };
    caps.interactive && silent
}

/// Who joins: a device, a person or an unattended runner, and the name of the device where a
/// bare name was given. Where nothing was said the operator is asked, and `picked` is the
/// answer; without an operator it is an error, for a script that does not say must not be
/// taken to mean a device of one's own.
pub fn resolve_for_kind(caps: &UiCapability, for_: Option<&str>, picked: Option<usize>) -> (r: Result<
    (String, Option<String>),
    ForError,
>)
    ensures
        ({
            let said = shared_defs::view_of_str(for_);
            if unsaid(said) {
                if caps.interactive {
                    match picked {
                        None => r matches Err(ForError::Cancelled),
                        Some(i) => r matches Ok((kind, name)) && name is None && kind@ == (if i == 0 {
                            "device"@
                        } else if i == 1 {
                            "person"@
                        } else {
                            "runner"@
                        }),
                    }
                } else {
                    r matches Err(ForError::Unsaid(e)) && e@ == for_help()
                }
            } else if said->0 == "device"@ || said->0 == "person"@ || said->0 == "runner"@ {
                r matches Ok((kind, name)) && kind@ == said->0 && name is None
            } else {
                r matches Ok((kind, name)) && kind@ == "device"@ && name is Some && name->0@
                    == said->0
            }
        }),
{
    let silent: bool = match for_ {
        None => true,
        Some(s) => trim(s).is_empty(),
    };
    if silent {
        if !caps.interactive {
            return Err(
                ForError::Unsaid(
                    "--for needs to know who is joining:\n\n  a device you own   filament add laptop --out laptop.invite\n  someone else       filament add --for person --out alice.invite\n  a CI runner        filament add --for runner --out ci.key\n\n  A bare name means a device, so `add laptop` is `--for laptop`.\n  They claim it with:  filament join <file>".to_owned(),
                ),
            );
        }
        return match picked {
            None => Err(ForError::Cancelled),
            Some(i) => if i == 0 {
                Ok(("device".to_owned(), None))
            } else if i == 1 {
                Ok(("person".to_owned(), None))
            } else {
                Ok(("runner".to_owned(), None))
            },
        };
    }
    match for_ {
        Some(s) => if same(s, "device") || same(s, "person") || same(s, "runner") {
            Ok((s.to_owned(), None))
        } else {
            Ok(("device".to_owned(), Some(s.to_owned())))
        },
        None => Err(ForError::Cancelled),
    }
}

/// The manager that runs the daemon.
#[derive(Clone, Copy, Debug, PartialEq, Eq, Structural)]
pub enum ServiceManager {
    SystemdSystem,
    SystemdUser,
}

/// The arguments with which the manager that runs the daemon is told to stop it. Without one
/// nothing is run.
pub fn stop_managed_service(manager: Option<ServiceManager>) -> (r: Option<Vec<String>>)
    ensures
        r is None <==> manager is None,
        manager == Some(ServiceManager::SystemdSystem) ==> frame::views(r->0@) == seq![
            "stop"@,
            "filament"@,
        ],
        manager == Some(ServiceManager::SystemdUser) ==> frame::views(r->0@) == seq![
            "--user"@,
            "stop"@,
            "filament"@,
        ],
{
    match manager {
        None => None,
        Some(m) => {
            let mut args: Vec<String> = Vec::new();
            match m {
                ServiceManager::SystemdUser => {
                    args.push("--user".to_owned());
                },
                ServiceManager::SystemdSystem => {},
            }
            args.push("stop".to_owned());
            args.push("filament".to_owned());
            proof {
                if m is SystemdUser {
                    assert(frame::views(args@) =~= seq!["--user"@, "stop"@, "filament"@]);
                } else {
                    assert(frame::views(args@) =~= seq!["stop"@, "filament"@]);
                }
            }
            Some(args)
        },
    }
}

/// How the next event is waited for.
pub enum NextWait {
    /// A peer that left did not come back in time: fail.
    Expired(String),
    /// Wait for this many seconds at most; where a countdown is shown, this many are left.
    Wait { secs: u64, left: Option<u64> },
}

/// How the next event is waited for. `waiting` is since when a peer that left is waited for,
/// and `window` for how long. The wait never blocks for good: while a peer is waited for it
/// ends every second, so that the window can run out and be seen to.
pub fn next_wait(waiting: Option<u64>, window: u64, now: u64, hide_countdown: bool) -> (r: NextWait)
    ensures
        waiting matches Some(t) ==> (r is Expired <==> shared_defs::since(now, t) > window),
        r matches NextWait::Expired(e) ==> e@ == "peer did not come back within "@ + text::decimal(
            (window / SECOND) as nat,
        ) + "s (partial state kept for resume)"@,
        waiting is None ==> r == (NextWait::Wait { secs: 2, left: None }),
        r is Wait && waiting is Some ==> r == (NextWait::Wait {
            secs: 1,
            left: if hide_countdown {
                None
            } else {
                Some(((window - shared_defs::since(now, waiting->0)) / SECOND as int) as u64)
            },
        }),
{
    match waiting {
        None => NextWait::Wait { secs: 2, left: None },
        Some(t) => {
            let gone: u64 = elapsed(now, t);
            if gone > window {
                let n = to_decimal(window / SECOND);
                return NextWait::Expired(
                    cat3(
                        "peer did not come back within ",
                        n.as_str(),
                        "s (partial state kept for resume)",
                    ),
                );
            }
            NextWait::Wait {
                secs: 1,
                left: if hide_countdown {
                    None
                } else {
                    Some((window - gone) / SECOND)
                },
            }
        },
    }
}

/// A command does no concurrent work.
pub open spec fn light(a: Seq<char>) -> bool {
    ||| a == "--version"@
    ||| a == "-V"@
    ||| a == "--help"@
    ||| a == "-h"@
    ||| a == "help"@
    ||| a == "devices"@
    ||| a == "id"@
    ||| a == "status"@
    ||| a == "addr"@
    ||| a == "set"@
    ||| a == "completions"@
    ||| a == "man"@
}

/// Whether a command does no concurrent work and so needs no worker threads. None at all is
/// the tour, which does none either; any other that is not listed is taken to do some.
pub fn is_light_command(first_arg: Option<&str>) -> (r: bool)
    ensures
        r == (match first_arg {
            None => true,
            Some(a) => light(a@),
        }),
{
    match first_arg {
        None => true,
        Some(a) => same(a, "--version") || same(a, "-V") || same(a, "--help") || same(a, "-h") || same(
            a,
            "help",
        ) || same(a, "devices") || same(a, "id") || same(a, "status") || same(a, "addr") || same(
            a,
            "set",
        ) || same(a, "completions") || same(a, "man"),
    }
}

/// The systems that a mount is undone on.
#[derive(Clone, Copy, Debug, PartialEq, Eq, Structural)]
pub enum Platform {
    Linux,
    MacOs,
    Windows,
}

/// What to do about a mount.
pub enum UnmountStep {
    /// Run this program with these arguments and come back with what came of it.
    Run { program: String, args: Vec<String> },
    /// Nothing more.
    Done,
}

/// The programs that undo a mount, with their arguments, in the order in which they are
/// tried.
pub open spec fn unmount_tries(p: Platform, local: Seq<char>) -> Seq<(Seq<char>, Seq<Seq<char>>)> {
    match p {
        Platform::Linux => seq![
            ("fusermount3"@, seq!["-u"@, local]),
            ("fusermount"@, seq!["-u"@, local]),
            ("fusermount3"@, seq!["-uz"@, local]),
        ],
        Platform::MacOs => seq![
            ("diskutil"@, seq!["unmount"@, "force"@, local]),
            ("umount"@, seq![local]),
        ],
        Platform::Windows => Seq::empty(),
    }
}

fn two(a: &str, b: &str) -> (r: Vec<String>)
    ensures
        frame::views(r@) == seq![a@, b@],
{
    let mut v: Vec<String> = Vec::new();
    v.push(a.to_owned());
    v.push(b.to_owned());
    proof {
        assert(frame::views(v@) =~= seq![a@, b@]);
    }
    v
}

/// Undo a mount. `tried` says of each program run so far whether it succeeded: with the first
/// success, or with none left to try, it is done. The last one is a last resort, which detaches
/// even a busy mount where the system has one.
pub fn unmount_fuse(p: Platform, local: &str, tried: &Vec<bool>) -> (r: UnmountStep)
    ensures
        r is Done <==> tried@.contains(true) || tried@.len() >= unmount_tries(p, local@).len(),
        r matches UnmountStep::Run { program, args } ==> (program@, frame::views(args@))
            == unmount_tries(p, local@)[tried@.len() as int],
{
    let mut i: usize = 0;
    while i < tried.len()
        invariant
            i <= tried@.len(),
            forall|j: int| 0 <= j < i ==> !tried@[j],
        decreases tried.len() - i,
    {
        if tried[i] {
            proof {
                assert(tried@[i as int]);
            }
            return UnmountStep::Done;
        }
        i += 1;
    }
    match p {
        Platform::Linux => if i == 0 {
            UnmountStep::Run { program: "fusermount3".to_owned(), args: two("-u", local) }
        } else if i == 1 {
            UnmountStep::Run { program: "fusermount".to_owned(), args: two("-u", local) }
        } else if i == 2 {
            UnmountStep::Run { program: "fusermount3".to_owned(), args: two("-uz", local) }
        } else {
            UnmountStep::Done
        },
        Platform::MacOs => if i == 0 {
            let mut args = two("unmount", "force");
            let ghost both = frame::views(args@);
            args.push(local.to_owned());
            proof {
                assert(both[0] == "unmount"@ && both[1] == "force"@ && both.len() == 2);
                assert(frame::views(args@) =~= seq!["unmount"@, "force"@, local@]);
            }
            UnmountStep::Run { program: "diskutil".to_owned(), args }
        } else if i == 1 {
            let mut args: Vec<String> = Vec::new();
            args.push(local.to_owned());
            proof {
                assert(frame::views(args@) =~= seq![local@]);
            }
            UnmountStep::Run { program: "umount".to_owned(), args }
        } else {
            UnmountStep::Done
        },
        Platform::Windows => UnmountStep::Done,
    }
}

} // verus!
