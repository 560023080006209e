//! Laws of the relay that span several operations, proved once and for all
//! over the registry's map model and the matching rule.
use vstd::prelude::*;

use crate::relay::spec_delivers;
use crate::router::{spec_matches, wildcard};

verus! {

/// Law: after a client is unregistered, no broadcast delivers to it — the
/// registry the broadcast sees no longer carries its identity, whatever the
/// event's subject. (Delivery planning itself is total: it never fails on
/// an absent client.)
pub proof fn lemma_unregistered_receives_nothing(
    reg: Map<u64, Seq<Seq<u8>>>,
    id: u64,
    subject: Seq<u8>,
)
    ensures
        !spec_delivers(reg.remove(id), id, subject),
{
}

/// Law: subscribing twice to the same subject changes no delivery
/// decision: the matching rule over a list that holds the subscription
/// twice agrees with the rule over the list that holds it once — so one
/// broadcast still delivers each event at most once to that client, which
/// the no-duplicates clause of delivery planning pins down.
pub proof fn lemma_duplicate_subscription_same_delivery(
    subs: Seq<Seq<u8>>,
    s: Seq<u8>,
    subject: Seq<u8>,
)
    ensures
        spec_matches(subs.push(s).push(s), subject) == spec_matches(subs.push(s), subject),
{
    let once = subs.push(s);
    let twice = once.push(s);
    if spec_matches(twice, subject) {
        let i = choose|i: int|
            0 <= i < twice.len() && (twice[i] == subject || twice[i] == wildcard());
        if i < once.len() {
            assert(once[i] == twice[i]);
            assert(spec_matches(once, subject));
        } else {
            let j = subs.len() as int;
            assert(once[j] == s && twice[i] == s);
            assert(spec_matches(once, subject));
        }
    }
    if spec_matches(once, subject) {
        let i = choose|i: int| 0 <= i < once.len() && (once[i] == subject || once[i] == wildcard());
        assert(twice[i] == once[i]);
        assert(spec_matches(twice, subject));
    }
}

/// Law: delivery to one client depends on that client's entry alone:
/// changing another client's subscriptions never changes the decision.
pub proof fn lemma_delivery_is_per_client(
    reg: Map<u64, Seq<Seq<u8>>>,
    id: u64,
    other: u64,
    subs: Seq<Seq<u8>>,
    subject: Seq<u8>,
)
    requires
        other != id,
    ensures
        spec_delivers(reg.insert(other, subs), id, subject) == spec_delivers(reg, id, subject),
        spec_delivers(reg.remove(other), id, subject) == spec_delivers(reg, id, subject),
{
}

} // verus!
