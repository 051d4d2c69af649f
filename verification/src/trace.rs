//! Rows of calls to a host.
//!
//! The loops of this library run on hosts: values of the surrounding program that have the
//! threads, the channels and the clock. A method of a host takes the host and gives it back. A host
//! is thus what the calls so far have made of it, and a contract can say which calls were made, in
//! which order, and that there were no others.
use vstd::prelude::*;

verus! {

/// A call to a host of type `H`, with what went into it and what came back.
pub trait HostCall<H>: Sized {
    /// The call took the host as `before` and gave it back as `after`.
    spec fn made(self, before: H, after: H) -> bool;
}

/// `hosts` are the host before the first of these calls, between each and the next, and after the
/// last.
pub open spec fn is_path<H, C: HostCall<H>>(hosts: Seq<H>, calls: Seq<C>) -> bool {
    &&& hosts.len() == calls.len() + 1
    &&& forall|i: int|
        0 <= i < calls.len() ==> (#[trigger] calls[i]).made(hosts[i], hosts[i + 1])
}

/// These calls, in this order, lead from the host `before` to the host `after`.
pub open spec fn leads<H, C: HostCall<H>>(before: H, calls: Seq<C>, after: H) -> bool {
    exists|hosts: Seq<H>| #[trigger]
        is_path(hosts, calls) && hosts[0] == before && hosts.last() == after
}

/// No call leaves the host as it is.
pub broadcast proof fn lemma_no_call<H, C: HostCall<H>>(host: H)
    ensures
        #[trigger] leads(host, Seq::<C>::empty(), host),
{
    let hosts = seq![host];
    assert(is_path(hosts, Seq::<C>::empty()));
}

/// One call more.
pub proof fn lemma_called<H, C: HostCall<H>>(before: H, calls: Seq<C>, mid: H, call: C, after: H)
    requires
        leads(before, calls, mid),
        call.made(mid, after),
    ensures
        leads(before, calls.push(call), after),
{
    let hosts = choose|hosts: Seq<H>| #[trigger]
        is_path(hosts, calls) && hosts[0] == before && hosts.last() == mid;
    let all = calls.push(call);
    let more = hosts.push(after);
    assert forall|i: int| 0 <= i < all.len() implies (#[trigger] all[i]).made(
        more[i],
        more[i + 1],
    ) by {
        if i < calls.len() {
            assert(all[i] == calls[i]);
        }
    }
    assert(is_path(more, all));
}

/// One row of calls after another.
pub proof fn lemma_joined<H, C: HostCall<H>>(
    before: H,
    first: Seq<C>,
    mid: H,
    second: Seq<C>,
    after: H,
)
    requires
        leads(before, first, mid),
        leads(mid, second, after),
    ensures
        leads(before, first + second, after),
{
    let one = choose|hosts: Seq<H>| #[trigger]
        is_path(hosts, first) && hosts[0] == before && hosts.last() == mid;
    let two = choose|hosts: Seq<H>| #[trigger]
        is_path(hosts, second) && hosts[0] == mid && hosts.last() == after;
    let all = first + second;
    let hosts = one + two.drop_first();
    assert forall|i: int| 0 <= i < all.len() implies (#[trigger] all[i]).made(
        hosts[i],
        hosts[i + 1],
    ) by {
        if i < first.len() {
            assert(all[i] == first[i]);
        } else {
            assert(all[i] == second[i - first.len()]);
        }
    }
    assert(is_path(hosts, all));
}

/// The host before the last call of a row.
pub proof fn lemma_last_call<H, C: HostCall<H>>(before: H, calls: Seq<C>, after: H) -> (mid: H)
    requires
        calls.len() > 0,
        leads(before, calls, after),
    ensures
        leads(before, calls.drop_last(), mid),
        calls.last().made(mid, after),
{
    let hosts = choose|hosts: Seq<H>| #[trigger]
        is_path(hosts, calls) && hosts[0] == before && hosts.last() == after;
    let front = calls.drop_last();
    let fewer = hosts.drop_last();
    assert forall|i: int| 0 <= i < front.len() implies (#[trigger] front[i]).made(
        fewer[i],
        fewer[i + 1],
    ) by {
        assert(front[i] == calls[i]);
    }
    assert(is_path(fewer, front));
    assert(calls[calls.len() - 1].made(hosts[calls.len() - 1], hosts[calls.len() as int]));
    fewer.last()
}

/// Of a row of calls that leads from one host to another, each call was made on the host to which
/// the calls before it lead, and the calls after it lead on from the host it gave back.
pub proof fn law_each_call_was_made<H, C: HostCall<H>>(
    before: H,
    calls: Seq<C>,
    after: H,
    i: int,
) -> (r: (H, H))
    requires
        leads(before, calls, after),
        0 <= i < calls.len(),
    ensures
        leads(before, calls.take(i), r.0),
        calls[i].made(r.0, r.1),
        leads(r.1, calls.skip(i + 1), after),
{
    let hosts = choose|hosts: Seq<H>| #[trigger]
        is_path(hosts, calls) && hosts[0] == before && hosts.last() == after;
    let front = calls.take(i);
    let back = calls.skip(i + 1);
    let to = hosts.take(i + 1);
    let from = hosts.skip(i + 1);
    assert forall|k: int| 0 <= k < front.len() implies (#[trigger] front[k]).made(
        to[k],
        to[k + 1],
    ) by {
        assert(front[k] == calls[k]);
    }
    assert(is_path(to, front));
    assert forall|k: int| 0 <= k < back.len() implies (#[trigger] back[k]).made(
        from[k],
        from[k + 1],
    ) by {
        assert(back[k] == calls[k + i + 1]);
    }
    assert(is_path(from, back));
    assert(calls[i].made(hosts[i], hosts[i + 1]));
    (hosts[i], hosts[i + 1])
}

/// A row of no calls leads nowhere else.
pub proof fn law_no_call_changes_nothing<H, C: HostCall<H>>(before: H, after: H)
    requires
        leads(before, Seq::<C>::empty(), after),
    ensures
        before == after,
{
}

} // verus!
