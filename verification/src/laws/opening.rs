//! Before the first link: what is asked of the operator, what is taken for the target, and when a
//! run begins.

use vstd::prelude::*;
use vstd::string::*;
use crate::frame;
use crate::keyed;
use crate::outgoing::Outgoing;
use crate::receive_opening;
use crate::receive_opening::{
    receive_set_up, CodeEntry, ReceiveSetUp, ReceiveStage, SetUpAction, SetUpEvent,
};
use crate::send_opening;
use crate::send_opening::{send_set_up, SendAction, SendEvent, SendSetUp, SendStage};
use crate::setup;
use crate::setup::{
    answered, asks_code, asks_device, asks_introduction, cancels, check_code, check_path, check_run,
    check_target, checks_first, comes_from, device_menu, find_device, goes_to, is_alike, leads_receive,
    name_warning, new_outgoing, offered_name, picked_device, receive_again, relation_of,
    resolve_target, room_filter, send_again, time_limit, PathCheck, Payload, Relation, SendAsked,
    Target, TargetView,
};
use crate::text;

verus! {

/// A letter in its small form.
pub open spec fn small(c: char) -> int {
    if 'A' <= c <= 'Z' {
        c as int + 32
    } else {
        c as int
    }
}

/// Two texts are the same but for the case of their letters.
pub open spec fn same_letters(a: Seq<char>, b: Seq<char>) -> bool {
    a.len() == b.len() && forall|i: int| 0 <= i < a.len() ==> small(#[trigger] a[i]) == small(b[i])
}

proof fn alike_is_same_letters(a: Seq<char>, b: Seq<char>)
    ensures
        setup::alike(a, b) == same_letters(a, b),
{
    let x = text::ascii_lowercase(a);
    let y = text::ascii_lowercase(b);
    if setup::alike(a, b) {
        assert(x.len() == y.len());
        assert forall|i: int| 0 <= i < a.len() implies small(#[trigger] a[i]) == small(b[i]) by {
            assert(x[i] == y[i]);
            assert(small(a[i]) == x[i] as int);
            assert(small(b[i]) == y[i] as int);
        }
    }
    if same_letters(a, b) {
        assert forall|i: int| 0 <= i < x.len() implies x[i] == y[i] by {
            assert(small(a[i]) == small(b[i]));
            assert(small(a[i]) == x[i] as int);
            assert(small(b[i]) == y[i] as int);
        }
        assert(x =~= y);
    }
}

/// Names are the same in whatever case, and the word that calls off is too.
pub proof fn names_are_the_same_in_any_case(a: &str, b: &str, r: bool, c: bool)
    requires
        call_ensures(is_alike, (a, b), r),
        call_ensures(cancels, (a,), c),
    ensures
        r <==> same_letters(a@, b@),
        c <==> same_letters(a@, "cancel"@),
{
    alike_is_same_letters(a@, b@);
    alike_is_same_letters(a@, "cancel"@);
}

/// A time limit is the seconds that are set, and the default where none are.
pub proof fn a_limit_is_in_seconds(setting: Option<&str>, default: u64, r: u64)
    requires
        call_ensures(time_limit, (setting, default), r),
    ensures
        setting is None && default <= 18_000_000_000 ==> r == default * 1_000_000_000,
        setting is Some && text::number_in(setting->0@) is None && default <= 18_000_000_000 ==> r
            == default * 1_000_000_000,
        setting is Some && text::number_in(setting->0@) is Some && text::number_in(setting->0@)->0
            <= 18_000_000_000 ==> r == text::number_in(setting->0@)->0 * 1_000_000_000,
{
}

/// A send is led through where there is an operator and something is left to say, or it was asked
/// for; otherwise, with nobody to send to, it takes a code.
pub proof fn when_a_send_is_led_through(a: SendAsked, l: bool, d: bool)
    requires
        call_ensures(SendAsked::led, (&a,), l),
        call_ensures(SendAsked::defaults_to_code, (&a,), d),
    ensures
        a.remember_only || !a.interactive ==> !l,
        !a.remember_only && a.interactive && (a.requested || !a.paths) ==> l,
        !a.remember_only && a.interactive && !a.use_code && !a.to ==> l,
        a.paths && !a.requested && (a.use_code || a.to) ==> !l,
        d <==> !a.remember_only && !l && !a.use_code && !a.to && !a.room,
{
}

/// What to send is asked for where it is not said; without an operator that is an error.
pub proof fn when_what_to_send_is_asked(a: SendAsked, r: Result<bool, String>)
    requires
        call_ensures(SendAsked::asks_path, (&a,), r),
    ensures
        a.paths || a.remember_only ==> r == Ok::<bool, String>(false),
        !a.paths && !a.remember_only && a.interactive ==> r == Ok::<bool, String>(true),
        !a.paths && !a.remember_only && !a.interactive ==> r is Err && r->Err_0@
            == "nothing to send in non-interactive mode; pass a file, directory, or '-' for stdin"@,
{
}

/// An empty answer calls off; any other is taken as it is.
pub proof fn an_empty_answer_calls_off(a: String, r: Result<String, String>)
    requires
        call_ensures(answered, (a,), r),
    ensures
        a@.len() == 0 ==> r is Err && r->Err_0@ == "cancelled"@,
        a@.len() > 0 ==> r is Ok && r->Ok_0 == a,
{
}

/// The standard input is among the paths.
pub open spec fn from_stdin(paths: Seq<String>) -> bool {
    exists|i: int| 0 <= i < paths.len() && (#[trigger] paths[i])@ == "-"@
}

/// The first path is looked at before anything else, unless there is none or the standard input is
/// to be sent; a device is asked for where nothing says to whom.
pub proof fn what_is_looked_at_first(only: bool, paths: Vec<String>, r: bool, code: bool, to: bool, interactive: bool, d: bool)
    requires
        call_ensures(checks_first, (only, &paths), r),
        call_ensures(asks_device, (code, to, &paths, interactive), d),
    ensures
        r <==> !only && !from_stdin(paths@) && paths@.len() > 0 && paths@[0]@.len() > 0,
        d <==> !code && !to && !from_stdin(paths@) && interactive,
{
    assert(from_stdin(paths@) == keyed::listed(paths@, "-"@));
}

/// A path that is not there is asked for again where it is the only one and there is an operator;
/// otherwise the run fails and says why.
pub proof fn a_missing_path_is_asked_for_again(first: &str, why: Option<&str>, interactive: bool, count: usize, r: PathCheck)
    requires
        call_ensures(check_path, (first, why, interactive, count), r),
    ensures
        why is None ==> r is Fine,
        why is Some && interactive && count == 1 ==> r is AskAgain && r->line@
            == "  no such file or directory: '"@ + first@ + "'"@,
        why is Some && (!interactive || count != 1) ==> r is Fail && r->message@ == "cannot send '"@
            + first@ + "': "@ + why->0@,
{
}

/// A device of this name is known.
pub open spec fn is_known(devices: Seq<String>, name: Seq<char>) -> bool {
    exists|i: int| 0 <= i < devices.len() && same_letters((#[trigger] devices[i])@, name)
}

proof fn known_is_had(devices: Seq<String>, name: Seq<char>)
    ensures
        is_known(devices, name) == setup::has_device(devices, name),
{
    if is_known(devices, name) {
        let i = choose|i: int| 0 <= i < devices.len() && same_letters((#[trigger] devices[i])@, name);
        alike_is_same_letters(devices[i]@, name);
        assert(setup::alike(devices[i]@, name));
    }
    if setup::has_device(devices, name) {
        let i = choose|i: int| 0 <= i < devices.len() && setup::alike((#[trigger] devices[i])@, name);
        alike_is_same_letters(devices[i]@, name);
        assert(same_letters(devices[i]@, name));
    }
}

/// A device is found by its name, the first of that name, in whatever case.
pub proof fn a_device_is_found_by_its_name(devices: Vec<String>, name: &str, r: Option<usize>, j: int)
    requires
        call_ensures(find_device, (&devices, name), r),
    ensures
        r is Some <==> is_known(devices@, name@),
        r matches Some(i) ==> i < devices@.len() && same_letters(devices@[i as int]@, name@) && (0 <= j
            < i ==> !same_letters(devices@[j]@, name@)),
{
    known_is_had(devices@, name@);
    if r is Some {
        alike_is_same_letters(devices@[r->0 as int]@, name@);
        if 0 <= j < r->0 {
            alike_is_same_letters(devices@[j]@, name@);
        }
    }
}

/// A target can be sent to where it is a known device, or one of the fleet that the daemon reaches or
/// that was opted in for.
pub open spec fn can_be_sent_to(devices: Seq<String>, target: Seq<char>, v: TargetView) -> bool {
    is_known(devices, target) || (v.indexed && (v.daemon || v.opted_in))
}

/// Only what can be sent to is a target, and it is said why something is none.
pub proof fn only_what_can_be_reached_is_a_target(devices: Vec<String>, target: &str, v: TargetView, r: Result<(), String>, only: bool, to: Option<&str>, c: Result<(), String>)
    requires
        call_ensures(check_target, (&devices, target, &v), r),
        call_ensures(check_run, (only, to, &devices, &v), c),
    ensures
        r is Ok <==> can_be_sent_to(devices@, target@, v),
        r is Err && v.indexed ==> r->Err_0@ == "send --to '"@ + target@
            + "': that is a fleet device, reachable on the mesh but not yet a `send` target. Use its mesh address ("@
            + target@ + ".mesh) for now, or pair with it directly."@,
        r is Err && !v.indexed ==> r->Err_0@ == "send --to '"@ + target@
            + "': no known device by that name; run `filament devices` to see who you can reach"@,
        only || to is None ==> c is Ok,
        !only && to is Some ==> (c is Ok <==> can_be_sent_to(devices@, to->0@, v)),
        !only && to is Some && to->0@ == target@ && c is Err ==> r is Err && c->Err_0@ == r->Err_0@,
{
    known_is_had(devices@, target@);
    if to is Some {
        known_is_had(devices@, to->0@);
    }
}

/// In the room somebody of the wanted name is waited for only where no device was found for it.
pub proof fn whom_the_room_is_searched_for(to: Option<&str>, t: Target, r: Option<String>)
    requires
        call_ensures(room_filter, (to, &t), r),
    ensures
        t is Device ==> r is None,
        t is Anyone && to is None ==> r is None,
        t is Anyone && to is Some ==> r is Some && r->0@ == to->0@,
{
}

/// A code is asked for where none was given and there is an operator; an introduction where the
/// target is one of our fleet.
pub proof fn what_is_asked_for(daemon: bool, given: bool, interactive: bool, c: bool, to: bool, fleet: bool, indexed: bool, i: bool, code: bool, requested: bool, l: bool)
    requires
        call_ensures(asks_code, (daemon, given, interactive), c),
        call_ensures(asks_introduction, (to, fleet, indexed), i),
        call_ensures(leads_receive, (daemon, interactive, code, requested), l),
    ensures
        c <==> !daemon && !given && interactive,
        i <==> to && fleet && indexed,
        l <==> !daemon && interactive && (!code || requested),
{
}

/// Files go to the device that was introduced, else to the known one of that name, else over the
/// fleet where that was opted in for, else to whoever comes.
pub proof fn whom_the_files_go_to(
    to: Option<&str>,
    introduced: Option<&str>,
    devices: Vec<String>,
    secrets: Vec<String>,
    fleet: Option<&str>,
    v: TargetView,
    r: Result<Target, String>,
    k: int,
)
    requires
        devices@.len() == secrets@.len(),
        to is None ==> introduced is None,
        call_ensures(resolve_target, (to, introduced, &devices, &secrets, fleet, &v), r),
    ensures
        to is None ==> r is Ok && r->Ok_0 is Anyone,
        to is Some && introduced is Some ==> (r matches Ok(Target::Device { name, secret, fleet: f })
            && name@ == to->0@ && secret@ == introduced->0@ && !f),
        to is Some && introduced is None && 0 <= k < devices@.len() && same_letters(
            devices@[k]@,
            to->0@,
        ) && (forall|j: int| 0 <= j < k ==> !same_letters((#[trigger] devices@[j])@, to->0@)) ==> (
        r matches Ok(Target::Device { name, secret, fleet: f }) && name@ == devices@[k]@ && secret@
            == secrets@[k]@ && !f),
        to is Some && introduced is None && !is_known(devices@, to->0@) && v.indexed && !v.opted_in
            ==> r is Err,
        to is Some && introduced is None && !is_known(devices@, to->0@) && v.indexed && v.opted_in
            && fleet is Some ==> (r matches Ok(Target::Device { name, secret, fleet: f }) && name@
            == to->0@ && secret@ == fleet->0@ && f),
        to is Some && introduced is None && !is_known(devices@, to->0@) && !v.indexed ==> r is Ok
            && r->Ok_0 is Anyone,
{
    if to is Some {
        known_is_had(devices@, to->0@);
        if introduced is None && 0 <= k < devices@.len() && same_letters(devices@[k]@, to->0@) && (
        forall|j: int| 0 <= j < k ==> !same_letters((#[trigger] devices@[j])@, to->0@)) {
            assert(is_known(devices@, to->0@));
            let i = choose|i: int|
                0 <= i < devices@.len() && setup::alike((#[trigger] devices@[i])@, to->0@)
                    && r->Ok_0->name@ == devices@[i]@ && r->Ok_0->secret@ == secrets@[i]@ && forall|
                    j: int,
                |
                    0 <= j < i ==> !setup::alike((#[trigger] devices@[j])@, to->0@);
            alike_is_same_letters(devices@[i]@, to->0@);
            alike_is_same_letters(devices@[k]@, to->0@);
            assert(i == k) by {
                if i < k {
                    assert(!same_letters(devices@[i]@, to->0@));
                }
                if k < i {
                    assert(!setup::alike(devices@[k]@, to->0@));
                }
            }
        }
    }
}

/// A device is ours, another's, or one we are paired with.
pub proof fn whose_a_device_is(same: Option<bool>, r: Relation, w: &'static str)
    requires
        call_ensures(relation_of, (same,), r),
        call_ensures(Relation::word, (&r,), w),
    ensures
        same == Some(true) ==> r is Mine && w@ == "MY DEVICE"@,
        same == Some(false) ==> r is External && w@ == "EXTERNAL"@,
        same is None ==> r is Paired && w@ == "PAIRED"@,
{
}

/// The menu lists the devices in order, each with whose it is, and a code last; what is picked from
/// it is the device in that place.
pub proof fn the_menu_is_picked_from_by_place(names: Vec<String>, relations: Vec<Relation>, m: Vec<String>, choice: Option<usize>, p: Option<String>, i: int)
    requires
        names@.len() == relations@.len(),
        call_ensures(device_menu, (&names, &relations), m),
        call_ensures(picked_device, (&names, choice), p),
    ensures
        m@.len() == names@.len() + 1,
        m@[names@.len() as int]@ == "shareable code / local network"@,
        0 <= i < names@.len() && relations@[i] is Mine ==> m@[i]@ == text::padded(names@[i]@, 20)
            + " "@ + "MY DEVICE"@,
        0 <= i < names@.len() && relations@[i] is External ==> m@[i]@ == text::padded(names@[i]@, 20)
            + " "@ + "EXTERNAL"@,
        0 <= i < names@.len() && relations@[i] is Paired ==> m@[i]@ == text::padded(names@[i]@, 20)
            + " "@ + "PAIRED"@,
        choice is None ==> p is None,
        choice is Some && choice->0 < names@.len() ==> p is Some && p->0@ == names@[choice->0 as int]@,
        choice is Some && choice->0 >= names@.len() ==> p is None,
{
    if 0 <= i < names@.len() {
        assert(m@[i]@ == setup::menu_line(names@[i]@, relations@[i]));
    }
}

/// What is sent is called as was chosen where it is one thing, and otherwise after what it is; a
/// directory is always an archive of its own name.
pub proof fn what_is_sent_is_called(p: Payload, path: &str, chosen: Option<&str>, single: bool, r: String)
    requires
        call_ensures(offered_name, (&p, path, chosen, single), r),
    ensures
        p is Stdin && single && chosen is Some ==> r@ == chosen->0@,
        p is Stdin && (!single || chosen is None) ==> r@ == "stdin.bin"@,
        p is Directory && p->Directory_base is Some ==> r@ == p->Directory_base->0@ + ".tar"@,
        p is Directory && p->Directory_base is None ==> r@ == "dir"@ + ".tar"@,
        p is File && single && chosen is Some ==> r@ == chosen->0@,
        p is File && (!single || chosen is None) && p->File_base is Some ==> r@ == p->File_base->0@,
        p is File && (!single || chosen is None) && p->File_base is None ==> r@ == path@,
{
}

/// A chosen name that does not count is warned of.
pub proof fn a_name_that_does_not_count_is_warned_of(chosen: bool, count: usize, dir: bool, r: Option<&'static str>)
    requires
        call_ensures(name_warning, (chosen, count, dir), r),
    ensures
        !chosen ==> r is None,
        chosen && count > 1 ==> r is Some && r->0@ == "--name is ignored when sending multiple paths"@,
        chosen && count == 1 && dir ==> r is Some && r->0@
            == "--name is ignored for a directory (it's tarred under the directory name)"@,
        chosen && count == 1 && !dir ==> r is None,
{
}

/// A file that is to go out has its own stream and an id made of the run and that stream; nothing was
/// done about it yet.
pub proof fn a_file_to_go_out_is_new(uid: &str, i: u32, name: String, size: u64, head: Option<String>, full: Option<String>, temp: bool, r: Outgoing)
    requires
        i < u32::MAX,
        call_ensures(new_outgoing, (uid, i, name, size, head, full, temp), r),
    ensures
        r.sid == i + 1,
        r.id@ == uid@ + "-"@ + text::decimal((i + 1) as nat),
        r.name@ == name@,
        r.size == size,
        r.head == head,
        r.full == full,
        r.temp == temp,
        !r.accepted_once,
        !r.sent,
        !r.acked,
        !r.declined,
        !r.done,
        r.stream_started is None,
{
}

/// Two files of one run are told apart by their ids.
pub proof fn files_of_a_run_are_told_apart(uid: &str, i: u32, j: u32, r: Outgoing, s: Outgoing, name: (String, String), size: (u64, u64), head: Option<String>, full: Option<String>, temp: bool)
    requires
        i < u32::MAX,
        j < u32::MAX,
        i != j,
        call_ensures(new_outgoing, (uid, i, name.0, size.0, head, full, temp), r),
        call_ensures(new_outgoing, (uid, j, name.1, size.1, head, full, temp), s),
    ensures
        r.id@ != s.id@,
        r.sid != s.sid,
{
    let a = text::decimal((i + 1) as nat);
    let b = text::decimal((j + 1) as nat);
    let front = uid@ + "-"@;
    if front + a == front + b {
        let n = front.len() as int;
        assert((front + a).subrange(n, n + a.len()) =~= a);
        assert((front + b).len() == (front + a).len());
        assert((front + b).subrange(n, n + b.len()) =~= b);
        text::decimal_is_injective((i + 1) as nat, (j + 1) as nat);
    }
}

/// What is said of where files go and come from.
pub proof fn where_files_go_and_come_from(to: Option<&str>, code: bool, g: &str, c: &str)
    requires
        call_ensures(goes_to, (to, code), g),
        call_ensures(comes_from, (to, code), c),
    ensures
        to is Some ==> g@ == to->0@ && c@ == to->0@,
        to is None && code ==> g@ == "one-time code"@ && c@ == "holder of this one-time code"@,
        to is None && !code ==> g@ == "nearby receiver"@ && c@ == "nearby sender"@,
{
}

/// The command that sends again names every path in order, and then to whom.
pub proof fn the_command_to_send_again(
    paths: Vec<String>,
    more: Vec<String>,
    none: Vec<String>,
    p: String,
    to: &str,
    plain: String,
    longer: String,
    with_to: String,
    with_code: String,
    bare: String,
)
    requires
        none@.len() == 0,
        more@ == paths@.push(p),
        call_ensures(send_again, (&none, None, false), bare),
        call_ensures(send_again, (&paths, None, false), plain),
        call_ensures(send_again, (&more, None, false), longer),
        call_ensures(send_again, (&paths, Some(to), false), with_to),
        call_ensures(send_again, (&paths, None, true), with_code),
    ensures
        bare@ == "filament"@ + " "@ + "send"@,
        longer@ == plain@ + " "@ + p@,
        with_to@ == plain@ + " "@ + "--to"@ + " "@ + to@,
        with_code@ == plain@ + " "@ + "--code"@,
{
    let a = frame::views(paths@);
    let base = seq!["filament"@, "send"@] + a;
    let two = seq!["filament"@, "send"@];
    assert(frame::views(none@) =~= Seq::<Seq<char>>::empty());
    assert(two + Seq::<Seq<char>>::empty() =~= two);
    assert(two.drop_last() =~= seq!["filament"@]);
    assert(setup::joined(two.drop_last()) == "filament"@);
    assert(setup::joined(two) == "filament"@ + " "@ + "send"@);
    assert(frame::views(more@) =~= a.push(p@));
    assert(seq!["filament"@, "send"@] + a.push(p@) =~= base.push(p@));
    assert(base.push(p@).drop_last() =~= base);
    assert(base.push("--code"@).drop_last() =~= base);
    let t = base.push("--to"@);
    assert(t.drop_last() =~= base);
    assert(t.push(to@).drop_last() =~= t);
    assert(setup::joined(t) == setup::joined(base) + " "@ + "--to"@);
}

/// The command that receives again names the code, where there is one, the directory, and the yes.
pub proof fn the_command_to_receive_again(code: &str, dir: &str, plain: String, with_code: String, with_yes: String)
    requires
        call_ensures(receive_again, (None, dir, false), plain),
        call_ensures(receive_again, (Some(code), dir, false), with_code),
        call_ensures(receive_again, (None, dir, true), with_yes),
    ensures
        plain@ == "filament"@ + " "@ + "receive"@ + " "@ + "--dir"@ + " "@ + dir@,
        with_code@ == "filament"@ + " "@ + "receive"@ + " "@ + code@ + " "@ + "--dir"@ + " "@ + dir@,
        with_yes@ == plain@ + " "@ + "--yes"@,
{
    let one = seq!["filament"@];
    let two = seq!["filament"@, "receive"@];
    let three = seq!["filament"@, "receive"@, code@];
    assert(two.drop_last() =~= one);
    assert(setup::joined(one) == "filament"@);
    assert(setup::joined(two) == "filament"@ + " "@ + "receive"@);
    assert(three.drop_last() =~= two);
    assert(setup::joined(three) == setup::joined(two) + " "@ + code@);
    let a = two.push("--dir"@);
    assert(a.drop_last() =~= two);
    assert(setup::joined(a) == setup::joined(two) + " "@ + "--dir"@);
    let b = a.push(dir@);
    assert(b.drop_last() =~= a);
    assert(setup::joined(b) == setup::joined(a) + " "@ + dir@);
    let c = three.push("--dir"@);
    assert(c.drop_last() =~= three);
    assert(setup::joined(c) == setup::joined(three) + " "@ + "--dir"@);
    let d = c.push(dir@);
    assert(d.drop_last() =~= c);
    assert(b.push("--yes"@).drop_last() =~= b);
}

/// A code has its number and its words.
pub proof fn a_code_has_number_and_words(nameplate: &str, words: &str, r: Result<(), String>)
    requires
        call_ensures(check_code, (nameplate, words), r),
    ensures
        nameplate@.len() > 0 && words@.len() > 0 ==> r is Ok,
        nameplate@.len() == 0 || words@.len() == 0 ==> r is Err && r->Err_0@
            == "that code doesn't look right, expected something like brave-otter-371"@,
{
}

/// A receive asks for a code where there is none and somebody to ask, and otherwise goes on.
pub proof fn a_receive_begins(s: &mut ReceiveSetUp, r: SetUpAction)
    requires
        old(s).stage is Start,
        call_ensures(receive_set_up, (s, SetUpEvent::Begin), r),
    ensures
        !old(s).daemon && old(s).interactive && old(s).code is None ==> r is EnterCode && final(s).stage is EnteringCode,
        (old(s).daemon || !old(s).interactive || old(s).code is Some) && old(s).led ==> r is Confirm
            && final(s).stage is Confirming,
        (old(s).daemon || !old(s).interactive || old(s).code is Some) && !old(s).led ==> r is Connect
            && final(s).stage is Over,
        final(s).code == old(s).code && final(s).yes == old(s).yes && final(s).dir == old(s).dir,
{
}

/// The code that was typed is the one that is used; without one it goes on without, and calling off
/// ends it.
pub proof fn the_typed_code_is_used(s: &mut ReceiveSetUp, entry: CodeEntry, r: SetUpAction)
    requires
        old(s).stage is EnteringCode,
        call_ensures(receive_set_up, (s, SetUpEvent::Entered { entry }), r),
    ensures
        entry matches CodeEntry::Submitted(c) ==> final(s).code == Some(c) && (if old(s).led {
            r is Confirm
        } else {
            r is Connect
        }),
        entry is Empty ==> final(s).code == old(s).code && (if old(s).led {
            r is Confirm
        } else {
            r is Connect
        }),
        entry is Cancelled ==> final(s).stage is Over && r is Fail && r->message@ == "cancelled"@,
        r matches SetUpAction::Confirm { from, into, consent } ==> {
            &&& old(s).to is Some ==> from@ == old(s).to->0@
            &&& old(s).to is None && final(s).code is Some ==> from@ == "holder of this one-time code"@
            &&& old(s).to is None && final(s).code is None ==> from@ == "nearby sender"@
            &&& old(s).to_stdout ==> into@ == "stdout"@
            &&& !old(s).to_stdout ==> into@ == old(s).dir@
            &&& old(s).yes ==> consent@ == "accept matching offers"@
            &&& !old(s).yes ==> consent@ == "ask before each offer"@
        },
{
}

/// A receive connects unless the operator calls it off, and what comes out of turn does nothing.
pub proof fn a_receive_connects_unless_called_off(s: &mut ReceiveSetUp, line: String, r: SetUpAction)
    requires
        call_ensures(receive_set_up, (s, SetUpEvent::Answered { line }), r),
    ensures
        old(s).stage is Confirming && same_letters(line@, "cancel"@) ==> r is Fail && r->message@
            == "cancelled"@ && final(s).stage is Over,
        old(s).stage is Confirming && !same_letters(line@, "cancel"@) ==> r is Connect && final(s).stage is Over,
        !(old(s).stage is Confirming) ==> r is Nothing && *final(s) == *old(s),
{
    alike_is_same_letters(line@, "cancel"@);
}

/// A receive is set up as it was asked for, and led through where there is an operator and no code,
/// or it was asked for.
pub proof fn a_receive_is_set_up_as_asked_for(daemon: bool, interactive: bool, requested: bool, code: Option<String>, to: Option<String>, dir: String, out: bool, yes: bool, r: ReceiveSetUp)
    requires
        call_ensures(ReceiveSetUp::new, (daemon, interactive, requested, code, to, dir, out, yes), r),
    ensures
        r.stage is Start,
        r.led <==> !daemon && interactive && (requested || code is None),
        r.daemon == daemon,
        r.interactive == interactive,
        r.code == code,
        r.to == to,
        r.dir == dir,
        r.to_stdout == out,
        r.yes == yes,
{
}

/// A send is set up as it was asked for; where nothing says to whom and nobody can be asked it goes
/// by code.
pub proof fn a_send_is_set_up_as_asked_for(only: bool, interactive: bool, requested: bool, room: bool, paths: Vec<String>, code: bool, word: Option<String>, to: Option<String>, r: SendSetUp)
    requires
        call_ensures(
            SendSetUp::new,
            (only, interactive, requested, room, paths, code, word, to),
            r,
        ),
    ensures
        r.stage is Start,
        r.paths == paths,
        r.to == to,
        r.word == word,
        code ==> r.use_code,
        !only && !interactive && !code && to is None && !room ==> r.use_code,
        !code && (only || to is Some || room || interactive) && paths@.len() == 0 ==> !r.use_code,
        !code && (to is Some || room || only) ==> !r.use_code,
        r.asked.interactive == interactive,
        r.asked.remember_only == only,
        r.asked.requested == requested,
        r.asked.paths <==> paths@.len() > 0,
        r.asked.to <==> to is Some,
        r.asked.use_code == code,
        r.asked.room == room,
{
}

/// A send without a path asks for one, or fails where nobody is there to ask; one with a path looks
/// at it first.
pub proof fn a_send_begins_with_its_path(s: &mut SendSetUp, r: SendAction)
    requires
        old(s).stage is Start,
        call_ensures(send_set_up, (s, SendEvent::Begin), r),
    ensures
        !old(s).asked.paths && !old(s).asked.remember_only && old(s).asked.interactive ==> r is AskPath
            && r->line is None && final(s).stage is AskingPath,
        !old(s).asked.paths && !old(s).asked.remember_only && !old(s).asked.interactive ==> r is Fail
            && final(s).stage is Over,
        old(s).asked.remember_only ==> r is Survey && final(s).stage is Surveying,
        old(s).asked.paths && !old(s).asked.remember_only && old(s).paths@.len() > 0 && old(
            s,
        ).paths@[0]@.len() > 0 && !from_stdin(old(s).paths@) ==> r is Look && r->path@ == old(
            s,
        ).paths@[0]@ && final(s).stage is Looking,
        old(s).asked.paths && from_stdin(old(s).paths@) ==> r is Survey && final(s).stage is Surveying,
{
    assert(from_stdin(old(s).paths@) == keyed::listed(old(s).paths@, "-"@));
}

/// The path that is typed is the one that is looked at, and an empty line calls off.
pub proof fn the_typed_path_is_looked_at(s: &mut SendSetUp, t: &mut SendSetUp, line: String, r: SendAction, a: SendAction)
    requires
        old(s).wf(),
        old(s).stage is AskingAgain,
        call_ensures(send_set_up, (s, SendEvent::Answered { line }), r),
        old(t).stage is AskingPath,
        call_ensures(send_set_up, (t, SendEvent::Answered { line }), a),
    ensures
        line@.len() == 0 ==> r is Fail && r->message@ == "cancelled"@ && final(s).stage is Over && a
            is Fail && a->message@ == "cancelled"@ && final(t).stage is Over,
        line@.len() > 0 ==> r is Look && r->path@ == line@ && final(s).paths@[0] == line && final(s).stage is Looking,
        line@.len() > 0 ==> final(t).paths@ == old(t).paths@.push(line),
{
}

/// A path that is there leads on; one that is not is asked for again, or the send fails.
pub proof fn a_path_that_is_there_leads_on(s: &mut SendSetUp, why: Option<String>, r: SendAction)
    requires
        old(s).wf(),
        old(s).stage is Looking,
        call_ensures(send_set_up, (s, SendEvent::Looked { why }), r),
    ensures
        why is None ==> r is Survey && final(s).stage is Surveying,
        why is Some && old(s).asked.interactive && old(s).paths@.len() == 1 ==> r is AskPath
            && r->line is Some && r->line->0@ == "  no such file or directory: '"@ + old(s).paths@[0]@
            + "'"@ && final(s).stage is AskingAgain,
        why is Some && (!old(s).asked.interactive || old(s).paths@.len() != 1) ==> r is Fail
            && r->message@ == "cannot send '"@ + old(s).paths@[0]@ + "': "@ + why->0@ && final(s).stage is Over,
{
}

/// Once the devices are known, a target that cannot be reached fails; a send with a target or a code
/// goes on; and one without asks for a device, or takes a code where there is none.
pub proof fn a_send_finds_its_target(s: &mut SendSetUp, devices: Vec<(String, Relation)>, view: TargetView, r: SendAction, names: Vec<String>)
    requires
        old(s).stage is Surveying,
        call_ensures(send_set_up, (s, SendEvent::Surveyed { devices, view }), r),
        names@ == final(s).devices@,
    ensures
        names@.len() == devices@.len(),
        ({
            let lost = !old(s).asked.remember_only && old(s).to is Some && !can_be_sent_to(
                names@,
                old(s).to->0@,
                view,
            );
            let asks = !old(s).use_code && old(s).to is None && !from_stdin(old(s).paths@) && old(
                s,
            ).asked.interactive;
            &&& lost ==> r is Fail && final(s).stage is Over
            &&& !lost && !asks ==> r is Gather && final(s).stage is Gathering
            &&& !lost && asks && devices@.len() > 0 ==> r is Pick && r->items@.len() == devices@.len()
                + 1 && final(s).stage is Picking
            &&& !lost && asks && devices@.len() == 0 ==> r is Mint && final(s).stage is Minting
        }),
        final(s).to == old(s).to && final(s).use_code == old(s).use_code && final(s).paths == old(
            s,
        ).paths,
{
    assert(from_stdin(old(s).paths@) == keyed::listed(old(s).paths@, "-"@));
    if old(s).to is Some {
        known_is_had(final(s).devices@, old(s).to->0@);
    }
}

/// The device that is picked is the target; anything else is a code, with the words that were made.
pub proof fn what_is_picked_is_the_target(s: &mut SendSetUp, choice: Option<usize>, r: SendAction, t: &mut SendSetUp, words: String, a: SendAction)
    requires
        old(s).stage is Picking,
        call_ensures(send_set_up, (s, SendEvent::Picked { choice }), r),
        old(t).stage is Minting,
        call_ensures(send_set_up, (t, SendEvent::Minted { words }), a),
    ensures
        choice is Some && choice->0 < old(s).devices@.len() ==> r is Gather && final(s).to is Some
            && final(s).to->0@ == old(s).devices@[choice->0 as int]@ && final(s).use_code == old(
            s,
        ).use_code && final(s).stage is Gathering,
        choice is None || choice->0 >= old(s).devices@.len() ==> r is Mint && final(s).stage is Minting
            && final(s).to == old(s).to,
        a is Gather && final(t).use_code && final(t).word == Some(words) && final(t).stage is Gathering
            && final(t).to == old(t).to,
{
}

/// A send that is led through is confirmed with whom it goes to, and one that is not connects; it
/// connects once confirmed, unless it is called off.
pub proof fn a_send_connects_unless_called_off(s: &mut SendSetUp, r: SendAction, t: &mut SendSetUp, line: String, a: SendAction, led: bool)
    requires
        old(s).stage is Gathering,
        call_ensures(send_set_up, (s, SendEvent::Gathered), r),
        call_ensures(SendAsked::led, (&old(s).asked,), led),
        old(t).stage is Confirming,
        call_ensures(send_set_up, (t, SendEvent::Answered { line }), a),
    ensures
        !led ==> r is Connect && final(s).stage is Over,
        led ==> r is Confirm && final(s).stage is Confirming,
        r is Confirm && old(s).to is Some ==> r->Confirm_to@ == old(s).to->0@,
        r is Confirm && old(s).to is None && old(s).use_code ==> r->Confirm_to@ == "one-time code"@,
        r is Confirm && old(s).to is None && !old(s).use_code ==> r->Confirm_to@ == "nearby receiver"@,
        same_letters(line@, "cancel"@) ==> a is Fail && a->message@ == "cancelled"@ && final(t).stage
            is Over,
        !same_letters(line@, "cancel"@) ==> a is Connect && final(t).stage is Over,
{
    alike_is_same_letters(line@, "cancel"@);
}

/// A limit that does not fit is the longest there is.
pub proof fn a_limit_that_does_not_fit(default: u64, r: u64)
    requires
        call_ensures(time_limit, (None, default), r),
        default > 18_446_744_073,
    ensures
        r == u64::MAX,
{
}

/// The menu of a send lists the devices that were found, by their names and in order.
pub proof fn the_menu_lists_what_was_found(s: &mut SendSetUp, devices: Vec<(String, Relation)>, view: TargetView, r: SendAction, i: int)
    requires
        old(s).stage is Surveying,
        call_ensures(send_set_up, (s, SendEvent::Surveyed { devices, view }), r),
        0 <= i < devices@.len(),
    ensures
        final(s).devices@[i]@ == devices@[i].0@,
        r is Pick && devices@[i].1 is Mine ==> r->items@[i]@ == text::padded(devices@[i].0@, 20) + " "@
            + "MY DEVICE"@,
        r is Pick && devices@[i].1 is External ==> r->items@[i]@ == text::padded(devices@[i].0@, 20)
            + " "@ + "EXTERNAL"@,
        r is Pick && devices@[i].1 is Paired ==> r->items@[i]@ == text::padded(devices@[i].0@, 20) + " "@
            + "PAIRED"@,
        r is Pick ==> r->items@[devices@.len() as int]@ == "shareable code / local network"@,
        final(s).word == old(s).word && final(s).asked == old(s).asked,
{
    assert(final(s).devices@[i]@ == devices@[i].0@);
    if r is Pick {
        assert(r->items@[i]@ == setup::menu_line(devices@[i].0@, devices@[i].1));
        assert(r->items@.last() == r->items@[devices@.len() as int]);
    }
}

/// Why a target is none is said as where it is asked about by itself.
pub proof fn why_a_target_is_none(s: &mut SendSetUp, devices: Vec<(String, Relation)>, view: TargetView, r: SendAction, target: &str, c: Result<(), String>, names: Vec<String>)
    requires
        old(s).stage is Surveying,
        call_ensures(send_set_up, (s, SendEvent::Surveyed { devices, view }), r),
        old(s).to is Some,
        target@ == old(s).to->0@,
        names@ == final(s).devices@,
        call_ensures(check_target, (&names, target, &view), c),
        r is Fail,
    ensures
        c is Err && r->message@ == c->Err_0@,
{
}

/// What comes out of turn does nothing to a send.
pub proof fn what_comes_out_of_turn_does_nothing(s: &mut SendSetUp, e: SendEvent, r: SendAction)
    requires
        call_ensures(send_set_up, (s, e), r),
        old(s).stage is Over || (e is Begin && !(old(s).stage is Start)) || (e is Gathered && !(old(
            s,
        ).stage is Gathering)) || (e is Minted && !(old(s).stage is Minting)) || (e is Picked && !(old(
            s,
        ).stage is Picking)) || (e is Looked && !(old(s).stage is Looking)) || (e is Surveyed && !(old(
            s,
        ).stage is Surveying)),
    ensures
        r is Nothing,
        *final(s) == *old(s),
{
}

/// A step of a set-up changes only what it is about.
pub proof fn a_step_changes_what_it_is_about(s: &mut SendSetUp, e: SendEvent, r: SendAction, t: &mut ReceiveSetUp, g: SetUpEvent, a: SetUpAction)
    requires
        call_ensures(send_set_up, (s, e), r),
        call_ensures(receive_set_up, (t, g), a),
    ensures
        final(s).asked == old(s).asked,
        !(e is Answered) ==> final(s).paths == old(s).paths,
        !(e is Picked) ==> final(s).to == old(s).to,
        !(e is Minted) ==> final(s).word == old(s).word && final(s).use_code == old(s).use_code,
        !(e is Surveyed) ==> final(s).devices == old(s).devices,
        !(g is Entered) ==> final(t).code == old(t).code,
        final(t).to == old(t).to,
        final(t).dir == old(t).dir,
        final(t).yes == old(t).yes,
        final(t).to_stdout == old(t).to_stdout,
        final(t).led == old(t).led,
        final(t).daemon == old(t).daemon,
{
}

} // verus!
