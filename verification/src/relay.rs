//! The relay's per-event and per-frame decisions, composed from the
//! registry, the router, the control decoder and the frame renderers: what
//! one inbound text frame does to the registry and what goes back to the
//! sender, which frame a broadcast carries and exactly which clients it
//! reaches, and how an upstream payload becomes a broadcast frame.
use vstd::prelude::*;

use crate::control::{
    parse_control, reencode_json, spec_control, spec_json_reencoded, Control,
};
use crate::frames::{
    render_confirmation_frame, render_event_frame, spec_confirmation_frame, spec_event_frame,
};
use crate::registry::Registry;
use crate::router::spec_matches;

verus! {

/// Whether a broadcast of an event with this subject reaches the client
/// with this identity, given the registry contents at broadcast time.
pub open spec fn spec_delivers(reg: Map<u64, Seq<Seq<u8>>>, id: u64, subject: Seq<u8>) -> bool {
    reg.contains_key(id) && spec_matches(reg[id], subject)
}

/// Relies on chrono's `Utc::now().to_rfc3339()`: the current time in
/// ISO-8601 form. The value depends on the clock, so only its shape is
/// stated: it is never empty.
#[verifier::external_body]
fn now_rfc3339_bytes() -> (r: Vec<u8>)
    ensures
        r@.len() > 0,
{
    chrono::Utc::now().to_rfc3339().into_bytes()
}

/// Relies on chrono's `Utc::now().timestamp_millis()`: the current time in
/// milliseconds since the epoch. The value depends on the clock, so nothing
/// is promised of it.
#[verifier::external_body]
fn now_unix_millis() -> (r: u64)
{
    chrono::Utc::now().timestamp_millis() as u64
}

/// Relies on `rand::random::<u32>`: a fresh, collision-acceptable client
/// identity (at most one live client owns a value at a time, because
/// registering a colliding identity replaces the old entry). Nothing more
/// can be promised of a random draw.
#[verifier::external_body]
fn draw_client_id() -> (r: u64)
    ensures
        r <= u32::MAX as u64,
{
    rand::random::<u32>() as u64
}

/// Allocates an identity for a newly accepted connection and stores the
/// client with an empty subscription list, returning the identity.
pub fn register_fresh(reg: &mut Registry) -> (id: u64)
    requires
        old(reg).wf(),
    ensures
        final(reg).wf(),
        final(reg)@ == old(reg)@.insert(id, Seq::<Seq<u8>>::empty()),
{
    let id = draw_client_id();
    reg.register(id);
    id
}

/// Applies one decoded control to the registry: the deterministic core of
/// frame handling, verified for every control and every confirmation time.
/// A subscribe appends the subject to the sender's list and yields the
/// confirmation frame; an absent sender (it raced to disconnect) and an
/// unknown control change nothing.
pub fn apply_control(reg: &mut Registry, id: u64, control: Control, time: &Vec<u8>) -> (confirm:
    Option<Vec<u8>>)
    requires
        old(reg).wf(),
    ensures
        final(reg).wf(),
        match control {
            Control::Subscribe(s) => {
                &&& (confirm is Some <==> old(reg)@.contains_key(id))
                &&& (old(reg)@.contains_key(id) ==> final(reg)@ == old(reg)@.insert(
                    id,
                    old(reg)@[id].push(s@),
                ) && (confirm matches Some(f) && f@ == spec_confirmation_frame(s@, time@)))
                &&& (!old(reg)@.contains_key(id) ==> final(reg)@ == old(reg)@)
            },
            Control::Unknown => final(reg)@ == old(reg)@ && confirm is None,
        },
{
    match control {
        Control::Subscribe(subject) => {
            let frame = render_confirmation_frame(&subject, time);
            let added = reg.add_subscription(id, subject);
            if added {
                Some(frame)
            } else {
                None
            }
        },
        Control::Unknown => None,
    }
}

/// Handles one inbound text frame from client `id`: decodes it, applies it,
/// and returns the confirmation frame to enqueue on the same client's
/// channel. A frame that is not a well-formed subscribe request — malformed
/// bytes, non-JSON text, or any other JSON shape — leaves the registry
/// unchanged and yields nothing, and is never an error.
pub fn handle_text_frame(reg: &mut Registry, id: u64, frame: &Vec<u8>) -> (confirm: Option<
    Vec<u8>>)
    requires
        old(reg).wf(),
    ensures
        final(reg).wf(),
        match spec_control(frame@) {
            Some(subj) => {
                &&& (confirm is Some <==> old(reg)@.contains_key(id))
                &&& (old(reg)@.contains_key(id) ==> final(reg)@ == old(reg)@.insert(
                    id,
                    old(reg)@[id].push(subj),
                ) && (confirm matches Some(f) && exists|t: Seq<u8>|
                    f@ == spec_confirmation_frame(subj, t)))
                &&& (!old(reg)@.contains_key(id) ==> final(reg)@ == old(reg)@)
            },
            None => final(reg)@ == old(reg)@ && confirm is None,
        },
{
    let control = parse_control(frame);
    let time = now_rfc3339_bytes();
    let confirm = apply_control(reg, id, control, &time);
    proof {
        let c = spec_control(frame@);
        if c is Some && old(reg)@.contains_key(id) {
            assert(confirm is Some && confirm->0@ == spec_confirmation_frame(c->0, time@));
        }
    }
    confirm
}

/// Plans one broadcast: the exact frame to send and the exact set of
/// identities to send it to — every registered client whose subscription
/// list holds the subject or the wildcard, each exactly once, and no one
/// else. A client that cannot be reached is the caller's concern; skipping
/// it must not skip the rest.
pub fn plan_broadcast(reg: &Registry, subject: &Vec<u8>, payload: &Vec<u8>, ts: Option<u64>) -> (r:
    (Vec<u8>, Vec<u64>))
    requires
        reg.wf(),
    ensures
        r.0@ == spec_event_frame(subject@, payload@, ts),
        forall|id: u64| #[trigger]
            r.1@.contains(id) <==> spec_delivers(reg@, id, subject@),
        r.1@.no_duplicates(),
{
    let frame = render_event_frame(subject, payload, ts);
    let ids = reg.recipients(subject);
    (frame, ids)
}

/// Plans one broadcast stamped with the current wall clock.
pub fn plan_broadcast_now(reg: &Registry, subject: &Vec<u8>, payload: &Vec<u8>) -> (r: (
    Vec<u8>,
    Vec<u64>,
))
    requires
        reg.wf(),
    ensures
        exists|t: u64| r.0@ == spec_event_frame(subject@, payload@, Some(t)),
        forall|id: u64| #[trigger]
            r.1@.contains(id) <==> spec_delivers(reg@, id, subject@),
        r.1@.no_duplicates(),
{
    let ts = now_unix_millis();
    let r = plan_broadcast(reg, subject, payload, Some(ts));
    proof {
        assert(r.0@ == spec_event_frame(subject@, payload@, Some(ts)));
    }
    r
}

/// Turns one upstream delivery into a broadcast frame with a known receive
/// timestamp: the deterministic core of upstream ingestion. The payload is
/// re-encoded in canonical form; a payload that is not valid JSON yields
/// nothing (the message is dropped, never fatal).
pub fn ingest_upstream_at(subject: &Vec<u8>, payload: &Vec<u8>, ts_millis: u64) -> (frame: Option<
    Vec<u8>>)
    ensures
        frame is Some <==> spec_json_reencoded(payload@) is Some,
        frame matches Some(f) ==> f@ == spec_event_frame(
            subject@,
            spec_json_reencoded(payload@)->0,
            Some(ts_millis),
        ),
{
    match reencode_json(payload) {
        Some(canonical) => Some(render_event_frame(subject, &canonical, Some(ts_millis))),
        None => None,
    }
}

/// Turns one upstream delivery into a broadcast frame stamped with a fresh
/// receive timestamp.
pub fn ingest_upstream(subject: &Vec<u8>, payload: &Vec<u8>) -> (frame: Option<Vec<u8>>)
    ensures
        frame is Some <==> spec_json_reencoded(payload@) is Some,
        frame matches Some(f) ==> exists|t: u64|
            f@ == spec_event_frame(subject@, spec_json_reencoded(payload@)->0, Some(t)),
{
    let ts = now_unix_millis();
    let frame = ingest_upstream_at(subject, payload, ts);
    proof {
        if frame is Some {
            assert(frame->0@ == spec_event_frame(
                subject@,
                spec_json_reencoded(payload@)->0,
                Some(ts),
            ));
        }
    }
    frame
}

} // verus!
