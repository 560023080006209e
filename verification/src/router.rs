//! Subscription matching: a client receives an event exactly when the event's
//! subject is literally present in the client's subscription list, or the
//! list holds the wildcard token `*`. Matching is case-sensitive and exact;
//! subjects are compared as UTF-8 byte strings.
use vstd::prelude::*;

verus! {

/// The single-byte wildcard token `*` as a byte sequence.
pub open spec fn wildcard() -> Seq<u8> {
    seq![42u8]
}

/// The byte sequences held by a list of byte vectors.
pub open spec fn views_of(subs: Seq<Vec<u8>>) -> Seq<Seq<u8>> {
    subs.map_values(|v: Vec<u8>| v@)
}

/// Whether a subscription list grants delivery of an event with this subject:
/// the subject itself, or the wildcard token, occurs in the list.
pub open spec fn spec_matches(subs: Seq<Seq<u8>>, subject: Seq<u8>) -> bool {
    exists|i: int| 0 <= i < subs.len() && (subs[i] == subject || subs[i] == wildcard())
}

/// Exact-match routing decision for one client.
pub fn subject_matches(subs: &Vec<Vec<u8>>, subject: &Vec<u8>) -> (r: bool)
    ensures
        r == spec_matches(views_of(subs@), subject@),
{
    let ghost vs = views_of(subs@);
    let mut i: usize = 0;
    while i < subs.len()
        invariant
            0 <= i <= subs.len(),
            vs == views_of(subs@),
            vs.len() == subs@.len(),
            forall|j: int| 0 <= j < i ==> vs[j] != subject@ && vs[j] != wildcard(),
        decreases subs.len() - i,
    {
        let entry = &subs[i];
        assert(vs[i as int] == entry@);
        if bytes_eq(entry, subject) {
            return true;
        }
        if entry.len() == 1 && entry[0] == 42u8 {
            assert(entry@ =~= wildcard());
            return true;
        }
        assert(entry@ != wildcard()) by {
            assert(wildcard().len() == 1);
            assert(wildcard()[0] == 42u8);
            if entry@ == wildcard() {
                assert(entry@.len() == 1);
                assert(entry@[0] == 42u8);
                assert(false);
            }
        }
        i += 1;
    }
    false
}

/// Byte-string equality, the comparison underlying exact-subject matching.
pub fn bytes_eq(a: &Vec<u8>, b: &Vec<u8>) -> (r: bool)
    ensures
        r == (a@ == b@),
{
    if a.len() != b.len() {
        assert(a@.len() != b@.len());
        return false;
    }
    let mut i: usize = 0;
    while i < a.len()
        invariant
            0 <= i <= a.len(),
            a.len() == b.len(),
            forall|j: int| 0 <= j < i ==> a@[j] == b@[j],
        decreases a.len() - i,
    {
        if a[i] != b[i] {
            return false;
        }
        i += 1;
    }
    assert(a@ =~= b@);
    true
}

} // verus!
