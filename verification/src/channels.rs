//! The meeting points that a daemon watches.

use vstd::prelude::*;
use vstd::string::*;
use crate::keyed;
use crate::keyed::lists;
use crate::text::same;

verus! {

/// A copy of some strings.
fn copied(v: &Vec<String>) -> (r: Vec<String>)
    ensures
        r@ == v@,
{
    let mut out: Vec<String> = Vec::new();
    let mut i: usize = 0;
    while i < v.len()
        invariant
            i <= v@.len(),
            out@ == v@.subrange(0, i as int),
        decreases v.len() - i,
    {
        out.push(v[i].clone());
        proof {
            assert(out@ =~= v@.subrange(0, i + 1));
        }
        i += 1;
    }
    proof {
        assert(v@.subrange(0, v@.len() as int) =~= v@);
    }
    out
}

/// A list with one text more, if it is given and new.
pub open spec fn with_extra(v: Seq<String>, extra: Option<String>) -> Seq<String> {
    match extra {
        Some(x) => if keyed::listed(v, x@) {
            v
        } else {
            v.push(x)
        },
        None => v,
    }
}

fn add_extra(v: &mut Vec<String>, extra: Option<String>)
    ensures
        final(v)@ == with_extra(old(v)@, extra),
{
    if let Some(x) = extra {
        if !lists(v, x.as_str()) {
            v.push(x);
        }
    }
}

/// What is watched from the start: the meeting point of each device, that of devices that want
/// to enroll where that is open, and that of the fleet; none of the last two twice.
pub fn subscription(devices: &Vec<String>, enroll: Option<String>, fleet: Option<String>) -> (r: Vec<
    String,
>)
    ensures
        r@ == with_extra(with_extra(devices@, enroll), fleet),
{
    let mut out = copied(devices);
    add_extra(&mut out, enroll);
    add_extra(&mut out, fleet);
    out
}

/// What to do about the meeting point of devices that want to enroll.
#[derive(Clone, Copy, Debug, PartialEq, Eq, Structural)]
pub enum ArmStep {
    Nothing,
    Subscribe,
    Leave,
}

/// The texts but for `x`, in order.
pub open spec fn without(v: Seq<String>, x: Seq<char>) -> Seq<String>
    decreases v.len(),
{
    if v.len() == 0 {
        v
    } else if v.last()@ == x {
        without(v.drop_last(), x)
    } else {
        without(v.drop_last(), x).push(v.last())
    }
}

/// Watch the meeting point of devices that want to enroll exactly while enrollment is open.
pub fn arm_gate(channels: &mut Vec<String>, enroll: &str, armed: bool) -> (r: ArmStep)
    ensures
        r is Subscribe <==> armed && !keyed::listed(old(channels)@, enroll@),
        r is Leave <==> !armed && keyed::listed(old(channels)@, enroll@),
        r is Nothing ==> final(channels)@ == old(channels)@,
        r is Subscribe ==> final(channels)@.len() == old(channels)@.len() + 1
            && final(channels)@.drop_last() == old(channels)@ && final(channels)@.last()@ == enroll@,
        r is Leave ==> final(channels)@ == without(old(channels)@, enroll@),
        keyed::listed(final(channels)@, enroll@) == armed,
{
    let subscribed: bool = lists(channels, enroll);
    let ghost was = channels@;
    if armed && !subscribed {
        channels.push(enroll.to_owned());
        proof {
            assert(channels@.drop_last() =~= was);
            keyed::listed_push(was, channels@.last());
        }
        ArmStep::Subscribe
    } else if !armed && subscribed {
        let mut out: Vec<String> = Vec::new();
        let mut i: usize = 0;
        while i < channels.len()
            invariant
                i <= channels@.len(),
                channels@ == was,
                out@ == without(was.subrange(0, i as int), enroll@),
                !keyed::listed(out@, enroll@),
            decreases channels.len() - i,
        {
            proof {
                let upto = was.subrange(0, i + 1);
                assert(upto.drop_last() =~= was.subrange(0, i as int));
                assert(upto.last() == was[i as int]);
            }
            if !same(channels[i].as_str(), enroll) {
                let ghost before = out@;
                out.push(channels[i].clone());
                proof {
                    keyed::listed_push(before, out@.last());
                }
            }
            i += 1;
        }
        proof {
            assert(was.subrange(0, was.len() as int) =~= was);
        }
        *channels = out;
        ArmStep::Leave
    } else {
        ArmStep::Nothing
    }
}

/// A device is new: its meeting point was not known, and no device before it in the store
/// has the same.
pub open spec fn is_new(known: Seq<String>, stored: Seq<String>, i: int) -> bool {
    !keyed::listed(known, stored[i]@) && forall|j: int| 0 <= j < i ==> (#[trigger] stored[j])@ != stored[i]@
}

/// A list holds what two others hold.
pub open spec fn is_union(u: Seq<String>, a: Seq<String>, b: Seq<String>) -> bool {
    forall|k: Seq<char>| #[trigger]
        keyed::listed(u, k) == (keyed::listed(a, k) || keyed::listed(b, k))
}

/// Look over the meeting points of the stored devices. Tells for each whether it is new;
/// the new ones are known from now on.
pub fn scan(known: &mut Vec<String>, stored: &Vec<String>) -> (r: Vec<bool>)
    ensures
        r@.len() == stored@.len(),
        forall|i: int| 0 <= i < r@.len() ==> #[trigger] r@[i] == is_new(old(known)@, stored@, i),
        is_union(final(known)@, old(known)@, stored@),
{
    let ghost was = known@;
    let mut out: Vec<bool> = Vec::new();
    let mut i: usize = 0;
    proof {
        assert(forall|k: Seq<char>| !keyed::listed(stored@.subrange(0, 0), k));
    }
    while i < stored.len()
        invariant
            i <= stored@.len(),
            out@.len() == i,
            forall|j: int| 0 <= j < i ==> #[trigger] out@[j] == is_new(was, stored@, j),
            forall|k: Seq<char>| #[trigger]
                keyed::listed(known@, k) == (keyed::listed(was, k) || keyed::listed(
                    stored@.subrange(0, i as int),
                    k,
                )),
        decreases stored.len() - i,
    {
        let ghost before = known@;
        let ghost sofar = stored@.subrange(0, i as int);
        let fresh: bool = !lists(known, stored[i].as_str());
        proof {
            let x = stored@[i as int];
            assert(keyed::listed(sofar, x@) == exists|j: int| 0 <= j < i && (#[trigger] stored@[j])@ == x@)
                by {
                if keyed::listed(sofar, x@) {
                    let j = choose|j: int| 0 <= j < sofar.len() && (#[trigger] sofar[j])@ == x@;
                    assert(stored@[j]@ == x@);
                }
                if exists|j: int| 0 <= j < i && (#[trigger] stored@[j])@ == x@ {
                    let j = choose|j: int| 0 <= j < i && (#[trigger] stored@[j])@ == x@;
                    assert(sofar[j]@ == x@);
                }
            }
            assert(fresh == is_new(was, stored@, i as int));
            assert(stored@.subrange(0, i + 1) =~= sofar.push(x));
            keyed::listed_push(sofar, x);
        }
        if fresh {
            known.push(stored[i].clone());
            proof {
                keyed::listed_push(before, known@.last());
            }
        }
        out.push(fresh);
        i += 1;
    }
    proof {
        assert(stored@.subrange(0, stored@.len() as int) =~= stored@);
    }
    out
}

} // verus!
