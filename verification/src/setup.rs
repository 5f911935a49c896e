//! What a command makes of its arguments before anything goes over the network: what is
//! asked, what is refused, what the files are called, and how to say the same again in one
//! line.

use vstd::prelude::*;
use vstd::string::*;
use crate::frame;
use crate::outgoing::Outgoing;
use crate::shared_defs;
use crate::shared_defs::SECOND;
use crate::text;
use crate::text::{cat, cat3, cat5, pad, parse_number, same, to_ascii_lower, to_decimal};

verus! {

/// Two texts are the same but for ASCII capitals.
pub open spec fn alike(a: Seq<char>, b: Seq<char>) -> bool {
    text::ascii_lowercase(a) == text::ascii_lowercase(b)
}

/// Whether two texts are the same but for ASCII capitals.
pub fn is_alike(a: &str, b: &str) -> (r: bool)
    ensures
        r == alike(a@, b@),
{
    let x = to_ascii_lower(a);
    let y = to_ascii_lower(b);
    same(x.as_str(), y.as_str())
}

/// Whether an answer to the last question cancels.
pub fn cancels(answer: &str) -> (r: bool)
    ensures
        r == alike(answer@, "cancel"@),
{
    is_alike(answer, "cancel")
}

/// `secs` seconds, as far as the clock goes.
pub open spec fn nanos_of(secs: u64) -> u64 {
    if secs <= u64::MAX / SECOND {
        (secs * SECOND) as u64
    } else {
        u64::MAX
    }
}

/// A time limit in seconds that the operator may set: what they wrote, where it is a number,
/// and `default` otherwise.
pub fn time_limit(setting: Option<&str>, default: u64) -> (r: u64)
    ensures
        r == nanos_of(
            match setting {
                Some(s) => match text::number_in(s@) {
                    Some(n) => n,
                    None => default,
                },
                None => default,
            },
        ),
{
    let secs: u64 = match setting {
        Some(s) => match parse_number(s) {
            Some(n) => n,
            None => default,
        },
        None => default,
    };
    if secs <= u64::MAX / SECOND {
        secs * SECOND
    } else {
        u64::MAX
    }
}

/// What a send was asked for.
#[derive(Clone, Copy, Debug, PartialEq, Eq, Structural)]
pub struct SendAsked {
    /// There is nothing to send: we only want to be remembered.
    pub remember_only: bool,
    /// Questions may be asked.
    pub interactive: bool,
    /// The operator wants to be asked.
    pub requested: bool,
    /// Paths were given.
    pub paths: bool,
    /// A code was asked for.
    pub use_code: bool,
    /// A device was named.
    pub to: bool,
    /// A room was named.
    pub room: bool,
}

impl SendAsked {
    /// The operator is led through the send.
    pub open spec fn is_led(self) -> bool {
        !self.remember_only && self.interactive && (!self.paths || (!self.use_code && !self.to)
            || self.requested)
    }

    /// Whether the operator is led through the send.
    pub fn led(&self) -> (r: bool)
        ensures
            r == self.is_led(),
    {
        !self.remember_only && self.interactive && (!self.paths || (!self.use_code && !self.to)
            || self.requested)
    }

    /// A code is made though none was asked for: nobody will be asked, and nothing says where
    /// the files go.
    pub open spec fn takes_a_code(self) -> bool {
        !self.remember_only && !self.is_led() && !self.use_code && !self.to && !self.room
    }

    /// Whether a code is made though none was asked for: where nobody will be asked and
    /// nothing says where the files go.
    pub fn defaults_to_code(&self) -> (r: bool)
        ensures
            r == self.takes_a_code(),
    {
        !self.remember_only && !self.led() && !self.use_code && !self.to && !self.room
    }

    /// Whether to ask what to send. Without paths and without questions there is nothing.
    pub fn asks_path(&self) -> (r: Result<bool, String>)
        ensures
            r is Err <==> !self.paths && !self.remember_only && !self.interactive,
            r matches Ok(b) ==> b == (!self.paths && !self.remember_only),
            r matches Err(e) ==> e@
                == "nothing to send in non-interactive mode; pass a file, directory, or '-' for stdin"@,
    {
        if !self.paths && !self.remember_only {
            if !self.interactive {
                return Err(
                    "nothing to send in non-interactive mode; pass a file, directory, or '-' for stdin".to_owned(),
                );
            }
            return Ok(true);
        }
        Ok(false)
    }
}

/// An answer that must not be empty.
pub fn answered(answer: String) -> (r: Result<String, String>)
    ensures
        r is Err <==> answer@.len() == 0,
        r matches Ok(a) ==> a == answer,
        r matches Err(e) ==> e@ == "cancelled"@,
{
    if answer.as_str().unicode_len() == 0 {
        Err("cancelled".to_owned())
    } else {
        Ok(answer)
    }
}

/// One of the paths is the standard input.
pub open spec fn has_stdin(paths: Seq<String>) -> bool {
    crate::keyed::listed(paths, "-"@)
}

/// Whether the first path is looked at before anything else is asked.
pub fn checks_first(remember_only: bool, paths: &Vec<String>) -> (r: bool)
    ensures
        r == (!remember_only && !has_stdin(paths@) && paths@.len() > 0 && paths@[0]@.len() > 0),
{
    !remember_only && !crate::keyed::lists(paths, "-") && paths.len() > 0
        && paths[0].as_str().unicode_len() > 0
}

/// What to do about the first path.
pub enum PathCheck {
    /// It is there.
    Fine,
    /// Say so and ask again.
    AskAgain { line: String },
    /// Fail.
    Fail { message: String },
}

/// What to do about the first path; `why` it cannot be looked at, where it cannot. With one
/// path only, and questions allowed, the operator is asked again.
pub fn check_path(first: &str, why: Option<&str>, interactive: bool, count: usize) -> (r: PathCheck)
    ensures
        r is Fine <==> why is None,
        r is AskAgain <==> why is Some && interactive && count == 1,
        r matches PathCheck::AskAgain { line } ==> line@ == "  no such file or directory: '"@
            + first@ + "'"@,
        r matches PathCheck::Fail { message } ==> message@ == "cannot send '"@ + first@ + "': "@
            + why->0@,
{
    match why {
        None => PathCheck::Fine,
        Some(e) => if interactive && count == 1 {
            PathCheck::AskAgain { line: cat3("  no such file or directory: '", first, "'") }
        } else {
            let what = cat3("cannot send '", first, "': ");
            PathCheck::Fail { message: cat(what.as_str(), e) }
        },
    }
}

/// One of the devices is called `name`, but for ASCII capitals.
pub open spec fn has_device(devices: Seq<String>, name: Seq<char>) -> bool {
    exists|i: int| 0 <= i < devices.len() && alike((#[trigger] devices[i])@, name)
}

/// The first device that is called `name`, but for ASCII capitals.
pub fn find_device(devices: &Vec<String>, name: &str) -> (r: Option<usize>)
    ensures
        r is Some <==> has_device(devices@, name@),
        r matches Some(i) ==> i < devices@.len() && alike(devices@[i as int]@, name@) && forall|
            j: int,
        |
            0 <= j < i ==> !alike((#[trigger] devices@[j])@, name@),
{
    let mut i: usize = 0;
    while i < devices.len()
        invariant
            i <= devices@.len(),
            forall|j: int| 0 <= j < i ==> !alike((#[trigger] devices@[j])@, name@),
        decreases devices.len() - i,
    {
        if is_alike(devices[i].as_str(), name) {
            proof {
                assert(alike(devices@[i as int]@, name@));
            }
            return Some(i);
        }
        i += 1;
    }
    None
}

/// What is known of the device that a send names.
#[derive(Clone, Copy, Debug, PartialEq, Eq, Structural)]
pub struct TargetView {
    /// It is a device of the fleet.
    pub indexed: bool,
    /// A daemon of ours runs, which may introduce us.
    pub daemon: bool,
    /// The operator wants fleet devices tried without an introduction.
    pub opted_in: bool,
}

/// A send names a device that can be reached.
pub open spec fn reachable(devices: Seq<String>, target: Seq<char>, v: TargetView) -> bool {
    has_device(devices, target) || (v.indexed && (v.daemon || v.opted_in))
}

/// Why a device that cannot be reached is refused.
pub open spec fn unreachable_text(target: Seq<char>, indexed: bool) -> Seq<char> {
    if indexed {
        "send --to '"@ + target
            + "': that is a fleet device, reachable on the mesh but not yet a `send` target. Use its mesh address ("@
            + target + ".mesh) for now, or pair with it directly."@
    } else {
        "send --to '"@ + target
            + "': no known device by that name; run `filament devices` to see who you can reach"@
    }
}

/// Whether a run may go on to look for the peer that it names, if it names one. A send is to a
/// device that is known, and is refused rather than looked up nearby. A run that only wants to
/// be remembered has nothing to lose and names somebody who need not be known yet: it meets
/// them by that name.
pub fn check_run(
    remember_only: bool,
    to: Option<&str>,
    devices: &Vec<String>,
    v: &TargetView,
) -> (r: Result<(), String>)
    ensures
        r is Ok <==> remember_only || to is None || reachable(devices@, to->0@, *v),
        r matches Err(e) ==> e@ == unreachable_text(to->0@, v.indexed),
{
    match to {
        Some(target) => if remember_only {
            Ok(())
        } else {
            check_target(devices, target, v)
        },
        None => Ok(()),
    }
}

/// Refuse a device that is not known, rather than look for somebody nearby.
pub fn check_target(devices: &Vec<String>, target: &str, v: &TargetView) -> (r: Result<(), String>)
    ensures
        r is Ok <==> reachable(devices@, target@, *v),
        r matches Err(e) ==> e@ == unreachable_text(target@, v.indexed),
{
    if find_device(devices, target).is_some() || (v.indexed && (v.daemon || v.opted_in)) {
        return Ok(());
    }
    if v.indexed {
        return Err(
            cat5(
                "send --to '",
                target,
                "': that is a fleet device, reachable on the mesh but not yet a `send` target. Use its mesh address (",
                target,
                ".mesh) for now, or pair with it directly.",
            ),
        );
    }
    Err(
        cat3(
            "send --to '",
            target,
            "': no known device by that name; run `filament devices` to see who you can reach",
        ),
    )
}

/// Whom the files go to.
pub enum Target {
    /// The device called `name`, with which `secret` is shared. Where `fleet`, the secret is
    /// that of all devices of the fleet, and the device has to prove itself.
    Device { name: String, secret: String, fleet: bool },
    /// Whoever has the code, or is nearby.
    Anyone,
}

/// The name that a peer in the room must go by, if there is one: the name that was given, where
/// it is of no device that is known. A device that is known is told by its secret.
pub open spec fn wanted_name(to: Option<Seq<char>>, t: Target) -> Option<Seq<char>> {
    if t is Anyone {
        to
    } else {
        None
    }
}

/// The name that a peer in the room must go by, if there is one.
pub fn room_filter(to: Option<&str>, t: &Target) -> (r: Option<String>)
    ensures
        shared_defs::view_of(r) == wanted_name(shared_defs::view_of_str(to), *t),
{
    match t {
        Target::Anyone => match to {
            Some(n) => Some(n.to_owned()),
            None => None,
        },
        Target::Device { .. } => None,
    }
}

/// Whether a receiver asks for a code before it listens on the network around it: somebody is
/// there to answer, and none was given.
pub fn asks_code(daemon: bool, code_given: bool, interactive: bool) -> (r: bool)
    ensures
        r == (!daemon && !code_given && interactive),
{
    !daemon && !code_given && interactive
}

/// Whether our daemon is asked to introduce us to the device that a send names.
pub fn asks_introduction(to: bool, in_fleet: bool, indexed: bool) -> (r: bool)
    ensures
        r == (to && in_fleet && indexed),
{
    to && in_fleet && indexed
}

/// Whom the files go to, where the device `to` was named: `introduced` is the secret that our
/// daemon arranged with it, `devices` and `secrets` are the devices that we share a secret
/// with, `fleet` is the secret of the fleet.
pub fn resolve_target(
    to: Option<&str>,
    introduced: Option<&str>,
    devices: &Vec<String>,
    secrets: &Vec<String>,
    fleet: Option<&str>,
    v: &TargetView,
) -> (r: Result<Target, String>)
    requires
        devices@.len() == secrets@.len(),
        to is None ==> introduced is None,
    ensures
        r is Err <==> introduced is None && !v.opted_in && v.indexed && to is Some && !has_device(
            devices@,
            to->0@,
        ),
        r matches Err(e) ==> e@ == "send --to '"@ + to->0@
            + "': your daemon has no verified link to it right now, so it cannot broker a private rendezvous. Start `filament up` on both devices and retry, or use its mesh address ("@
            + to->0@ + ".mesh)."@,
        introduced is Some ==> (r matches Ok(Target::Device { name, secret, fleet }) && name@
            == to->0@ && secret@ == introduced->0@ && !fleet),
        introduced is None && to is Some && has_device(devices@, to->0@) ==> (r matches Ok(
            Target::Device { name, secret, fleet },
        ) && !fleet && exists|i: int|
            0 <= i < devices@.len() && alike((#[trigger] devices@[i])@, to->0@) && name@
                == devices@[i]@ && secret@ == secrets@[i]@ && forall|j: int|
                0 <= j < i ==> !alike((#[trigger] devices@[j])@, to->0@)),
        introduced is None && to is Some && !has_device(devices@, to->0@) && v.opted_in && v.indexed
            && fleet is Some ==> (r matches Ok(Target::Device { name, secret, fleet: f }) && f
            && name@ == to->0@ && secret@ == fleet->0@),
        introduced is None && r is Ok && (to is None || (!has_device(devices@, to->0@) && !(
        v.opted_in && v.indexed && fleet is Some))) ==> r->Ok_0 is Anyone,
{
    let t = match to {
        Some(t) => t,
        None => {
            return Ok(Target::Anyone);
        },
    };
    match introduced {
        Some(s) => {
            return Ok(
                Target::Device { name: t.to_owned(), secret: s.to_owned(), fleet: false },
            );
        },
        None => {},
    }
    match find_device(devices, t) {
        Some(i) => Ok(
            Target::Device { name: devices[i].clone(), secret: secrets[i].clone(), fleet: false },
        ),
        None => {
            if !v.opted_in {
                if v.indexed {
                    return Err(
                        cat5(
                            "send --to '",
                            t,
                            "': your daemon has no verified link to it right now, so it cannot broker a private rendezvous. Start `filament up` on both devices and retry, or use its mesh address (",
                            t,
                            ".mesh).",
                        ),
                    );
                }
                return Ok(Target::Anyone);
            }
            match fleet {
                Some(f) => if v.indexed {
                    Ok(Target::Device { name: t.to_owned(), secret: f.to_owned(), fleet: true })
                } else {
                    Ok(Target::Anyone)
                },
                None => Ok(Target::Anyone),
            }
        },
    }
}

/// Whether to ask which device to send to: nothing says it, nothing comes from the standard
/// input, and questions may be asked.
pub fn asks_device(use_code: bool, to: bool, paths: &Vec<String>, interactive: bool) -> (r: bool)
    ensures
        r == (!use_code && !to && !has_stdin(paths@) && interactive),
{
    !use_code && !to && !crate::keyed::lists(paths, "-") && interactive
}

/// Whose a device is.
#[derive(Clone, Copy, Debug, PartialEq, Eq, Structural)]
pub enum Relation {
    Mine,
    External,
    Paired,
}

impl Relation {
    /// What is shown of it.
    pub open spec fn shown(self) -> Seq<char> {
        match self {
            Relation::Mine => "MY DEVICE"@,
            Relation::External => "EXTERNAL"@,
            Relation::Paired => "PAIRED"@,
        }
    }

    /// What is shown of it.
    pub fn word(&self) -> (r: &'static str)
        ensures
            r@ == self.shown(),
    {
        match self {
            Relation::Mine => "MY DEVICE",
            Relation::External => "EXTERNAL",
            Relation::Paired => "PAIRED",
        }
    }
}

/// Whose a device is: `same_owner` tells whether its certificate names our owner, where it
/// has one and we know ours.
pub fn relation_of(same_owner: Option<bool>) -> (r: Relation)
    ensures
        r == (match same_owner {
            Some(true) => Relation::Mine,
            Some(false) => Relation::External,
            None => Relation::Paired,
        }),
{
    match same_owner {
        Some(true) => Relation::Mine,
        Some(false) => Relation::External,
        None => Relation::Paired,
    }
}

/// The line that stands for a device.
pub open spec fn menu_line(name: Seq<char>, relation: Relation) -> Seq<char> {
    text::padded(name, 20) + " "@ + relation.shown()
}

/// The lines to pick a device from: one for each, and one for none of them.
pub fn device_menu(names: &Vec<String>, relations: &Vec<Relation>) -> (r: Vec<String>)
    requires
        names@.len() == relations@.len(),
    ensures
        r@.len() == names@.len() + 1,
        forall|i: int|
            0 <= i < names@.len() ==> (#[trigger] r@[i])@ == menu_line(names@[i]@, relations@[i]),
        r@[names@.len() as int]@ == "shareable code / local network"@,
{
    let mut out: Vec<String> = Vec::new();
    let mut i: usize = 0;
    while i < names.len()
        invariant
            i <= names@.len(),
            names@.len() == relations@.len(),
            out@.len() == i,
            forall|j: int|
                0 <= j < i ==> (#[trigger] out@[j])@ == menu_line(names@[j]@, relations@[j]),
        decreases names.len() - i,
    {
        let name = pad(names[i].as_str(), 20);
        out.push(cat3(name.as_str(), " ", relations[i].word()));
        i += 1;
    }
    out.push("shareable code / local network".to_owned());
    out
}

/// The device that was picked. The last line, or none, picks none.
pub fn picked_device(names: &Vec<String>, choice: Option<usize>) -> (r: Option<String>)
    ensures
        r is Some <==> choice is Some && choice->0 < names@.len(),
        r matches Some(n) ==> n@ == names@[choice->0 as int]@,
{
    match choice {
        Some(i) => if i < names.len() {
            Some(names[i].clone())
        } else {
            None
        },
        None => None,
    }
}

/// What there is at a path.
pub enum Payload {
    /// The standard input.
    Stdin,
    /// A directory, packed into an archive; its own name, where it has one.
    Directory { base: Option<String> },
    /// A file; its own name, where it has one.
    File { base: Option<String> },
}

/// The name that the operator chose, where there is one thing to give it to.
pub open spec fn chosen_name(chosen: Option<Seq<char>>, single: bool) -> Option<Seq<char>> {
    if single {
        chosen
    } else {
        None
    }
}

/// The name that a payload is offered under.
pub open spec fn payload_name(
    p: Payload,
    path: Seq<char>,
    chosen: Option<Seq<char>>,
    single: bool,
) -> Seq<char> {
    match p {
        Payload::Stdin => match chosen_name(chosen, single) {
            Some(n) => n,
            None => "stdin.bin"@,
        },
        Payload::Directory { base } => match base {
            Some(b) => b@ + ".tar"@,
            None => "dir"@ + ".tar"@,
        },
        Payload::File { base } => match chosen_name(chosen, single) {
            Some(n) => n,
            None => match base {
                Some(b) => b@,
                None => path,
            },
        },
    }
}

/// The name that a payload is offered under: the chosen one where there is just one payload
/// and it is no directory, and its own otherwise.
pub fn offered_name(p: &Payload, path: &str, chosen: Option<&str>, single: bool) -> (r: String)
    ensures
        r@ == payload_name(*p, path@, shared_defs::view_of_str(chosen), single),
{
    match p {
        Payload::Directory { base } => match base {
            Some(b) => cat(b.as_str(), ".tar"),
            None => cat("dir", ".tar"),
        },
        Payload::Stdin => {
            if single {
                match chosen {
                    Some(n) => {
                        return n.to_owned();
                    },
                    None => {},
                }
            }
            "stdin.bin".to_owned()
        },
        Payload::File { base } => {
            if single {
                match chosen {
                    Some(n) => {
                        return n.to_owned();
                    },
                    None => {},
                }
            }
            match base {
                Some(b) => b.clone(),
                None => path.to_owned(),
            }
        },
    }
}

/// What to say where the chosen name is not used.
pub fn name_warning(chosen: bool, count: usize, directory: bool) -> (r: Option<&'static str>)
    ensures
        r is Some <==> chosen && (count > 1 || (directory && count == 1)),
        r matches Some(w) ==> w@ == if count > 1 {
            "--name is ignored when sending multiple paths"@
        } else {
            "--name is ignored for a directory (it's tarred under the directory name)"@
        },
{
    if chosen && count > 1 {
        Some("--name is ignored when sending multiple paths")
    } else if chosen && directory && count == 1 {
        Some("--name is ignored for a directory (it's tarred under the directory name)")
    } else {
        None
    }
}

/// The id of the file that a stream carries.
pub open spec fn file_id(uid: Seq<char>, sid: u32) -> Seq<char> {
    uid + "-"@ + text::decimal(sid as nat)
}

/// The `i`-th file of a send, not yet offered. Streams are numbered from one.
pub fn new_outgoing(
    uid: &str,
    i: u32,
    name: String,
    size: u64,
    head: Option<String>,
    full: Option<String>,
    temp: bool,
) -> (r: Outgoing)
    requires
        i < u32::MAX,
    ensures
        r.wf(),
        r.id@ == file_id(uid@, r.sid),
        r.sid == i + 1,
        r.name@ == name@,
        r.size == size,
        r.head == head,
        r.full == full,
        r.temp == temp,
        !r.accepted_once && !r.sent && !r.acked && !r.declined && !r.done,
        r.stream_started is None,
        r.stream_bytes == 0,
{
    let sid: u32 = i + 1;
    let n = to_decimal(sid as u64);
    Outgoing {
        id: cat3(uid, "-", n.as_str()),
        sid,
        name,
        size,
        head,
        full,
        temp,
        accepted_once: false,
        sent: false,
        acked: false,
        declined: false,
        done: false,
        stream_started: None,
        stream_bytes: 0,
    }
}

/// The files of one send have ids of their own, so that what is said of one is not taken for
/// another.
pub proof fn ids_are_apart(uid: Seq<char>, a: u32, b: u32)
    requires
        a != b,
    ensures
        file_id(uid, a) != file_id(uid, b),
{
    let (x, y) = (text::decimal(a as nat), text::decimal(b as nat));
    if file_id(uid, a) == file_id(uid, b) {
        let n = (uid + "-"@).len() as int;
        let (s, t) = (file_id(uid, a), file_id(uid, b));
        assert(s.subrange(n, s.len() as int) =~= x);
        assert(t.subrange(n, t.len() as int) =~= y);
        text::decimal_is_injective(a as nat, b as nat);
    }
}

/// What is shown of where the files go.
pub open spec fn target_text(to: Option<Seq<char>>, use_code: bool) -> Seq<char> {
    match to {
        Some(t) => t,
        None => if use_code {
            "one-time code"@
        } else {
            "nearby receiver"@
        },
    }
}

/// What is shown of where the files go.
pub fn goes_to<'a>(to: Option<&'a str>, use_code: bool) -> (r: &'a str)
    ensures
        r@ == target_text(shared_defs::view_of_str(to), use_code),
{
    match to {
        Some(t) => t,
        None => if use_code {
            "one-time code"
        } else {
            "nearby receiver"
        },
    }
}

/// What is shown of where files come from.
pub open spec fn source_text(to: Option<Seq<char>>, code: bool) -> Seq<char> {
    match to {
        Some(t) => t,
        None => if code {
            "holder of this one-time code"@
        } else {
            "nearby sender"@
        },
    }
}

/// What is shown of where files come from.
pub fn comes_from<'a>(to: Option<&'a str>, code: bool) -> (r: &'a str)
    ensures
        r@ == source_text(shared_defs::view_of_str(to), code),
{
    match to {
        Some(t) => t,
        None => if code {
            "holder of this one-time code"
        } else {
            "nearby sender"
        },
    }
}

/// `words` with a blank between every two.
pub open spec fn joined(words: Seq<Seq<char>>) -> Seq<char>
    decreases words.len(),
{
    if words.len() == 0 {
        Seq::empty()
    } else if words.len() == 1 {
        words[0]
    } else {
        joined(words.drop_last()) + " "@ + words.last()
    }
}

fn add_word(line: &mut String, word: &str)
    ensures
        final(line)@ == old(line)@ + " "@ + word@,
{
    line.append(" ");
    line.append(word);
}

proof fn joined_push(words: Seq<Seq<char>>, w: Seq<char>)
    requires
        words.len() > 0,
    ensures
        joined(words.push(w)) == joined(words) + " "@ + w,
{
    assert(words.push(w).drop_last() =~= words);
}

/// The words of the command that sends the same again.
pub open spec fn send_words(
    paths: Seq<Seq<char>>,
    to: Option<Seq<char>>,
    use_code: bool,
) -> Seq<Seq<char>> {
    let base = seq!["filament"@, "send"@] + paths;
    match to {
        Some(t) => base.push("--to"@).push(t),
        None => if use_code {
            base.push("--code"@)
        } else {
            base
        },
    }
}

/// The command that sends the same again; every argument as the shell reads it.
pub fn send_again(paths: &Vec<String>, to: Option<&str>, use_code: bool) -> (r: String)
    ensures
        r@ == joined(send_words(frame::views(paths@), shared_defs::view_of_str(to), use_code)),
{
    let mut line = "filament".to_owned();
    let ghost mut words = seq!["filament"@];
    add_word(&mut line, "send");
    proof {
        joined_push(words, "send"@);
        words = words.push("send"@);
        assert(words =~= seq!["filament"@, "send"@]);
    }
    let ghost all = frame::views(paths@);
    let mut i: usize = 0;
    proof {
        assert(words =~= seq!["filament"@, "send"@] + all.take(0));
    }
    while i < paths.len()
        invariant
            i <= paths@.len(),
            all == frame::views(paths@),
            words == seq!["filament"@, "send"@] + all.take(i as int),
            line@ == joined(words),
        decreases paths.len() - i,
    {
        add_word(&mut line, paths[i].as_str());
        proof {
            joined_push(words, all[i as int]);
            words = words.push(all[i as int]);
            assert(words =~= seq!["filament"@, "send"@] + all.take(i + 1));
        }
        i += 1;
    }
    proof {
        assert(all.take(all.len() as int) =~= all);
    }
    match to {
        Some(t) => {
            add_word(&mut line, "--to");
            add_word(&mut line, t);
            proof {
                joined_push(words, "--to"@);
                joined_push(words.push("--to"@), t@);
            }
        },
        None => if use_code {
            add_word(&mut line, "--code");
            proof {
                joined_push(words, "--code"@);
            }
        },
    }
    line
}

/// The words of the command that receives the same again.
pub open spec fn receive_words(code: Option<Seq<char>>, dir: Seq<char>, yes: bool) -> Seq<Seq<char>> {
    let start = match code {
        Some(c) => seq!["filament"@, "receive"@, c],
        None => seq!["filament"@, "receive"@],
    };
    let base = start.push("--dir"@).push(dir);
    if yes {
        base.push("--yes"@)
    } else {
        base
    }
}

/// The command that receives the same again; every argument as the shell reads it.
pub fn receive_again(code: Option<&str>, dir: &str, yes: bool) -> (r: String)
    ensures
        r@ == joined(receive_words(shared_defs::view_of_str(code), dir@, yes)),
{
    let mut line = "filament".to_owned();
    let ghost mut words = seq!["filament"@];
    add_word(&mut line, "receive");
    proof {
        joined_push(words, "receive"@);
        words = words.push("receive"@);
        assert(words =~= seq!["filament"@, "receive"@]);
    }
    match code {
        Some(c) => {
            add_word(&mut line, c);
            proof {
                joined_push(words, c@);
                words = words.push(c@);
                assert(words =~= seq!["filament"@, "receive"@, c@]);
            }
        },
        None => {},
    }
    add_word(&mut line, "--dir");
    add_word(&mut line, dir);
    proof {
        joined_push(words, "--dir"@);
        joined_push(words.push("--dir"@), dir@);
        words = words.push("--dir"@).push(dir@);
    }
    if yes {
        add_word(&mut line, "--yes");
        proof {
            joined_push(words, "--yes"@);
        }
    }
    line
}

/// Whether the operator is led through a receive.
pub fn leads_receive(daemon: bool, interactive: bool, code: bool, requested: bool) -> (r: bool)
    ensures
        r == (!daemon && interactive && (!code || requested)),
{
    !daemon && interactive && (!code || requested)
}

/// Refuse a code that lacks its words or its number.
pub fn check_code(nameplate: &str, words: &str) -> (r: Result<(), String>)
    ensures
        r is Ok <==> nameplate@.len() > 0 && words@.len() > 0,
        r matches Err(e) ==> e@
            == "that code doesn't look right, expected something like brave-otter-371"@,
{
    if words.unicode_len() == 0 || nameplate.unicode_len() == 0 {
        Err("that code doesn't look right, expected something like brave-otter-371".to_owned())
    } else {
        Ok(())
    }
}

} // verus!
