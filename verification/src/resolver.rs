//! The query-resolution pipeline as an explicit state machine. Each inbound
//! request walks `Validating -> CacheCheck -> {Respond | StoreLookupA ->
//! (StoreLookupB) -> CachePopulate -> Respond}`, or ends early in `Rejected`
//! (bad input) or `Failed` (backend fault). The machine itself is pure: the
//! surrounding runtime performs each returned action (a cache read, a store
//! query, a cache write, a response) and feeds the outcome back as the next
//! event, so every decision of the pipeline is made here.

use vstd::prelude::*;
use crate::errors::AutocompleteError;
use crate::escape::{escape_seq, to_search_pattern};
use crate::json::{json_of_tags, serialize_tags};
use crate::normalize::{canonical_of, len_rejected, validate_transform_tag};
use crate::tag::{Tag, views_of};

verus! {

/// Why a store round trip failed: the pool handed out no connection, or the
/// query itself failed (timeout, connection fault, malformed statement).
#[derive(Clone, Copy, Debug, PartialEq, Eq, Structural)]
pub enum StoreFault {
    PoolUnavailable,
    QueryFailed,
}

/// Where one request stands in the resolution pipeline.
pub enum ResolveState {
    /// The raw input has arrived and is not yet validated.
    Validating,
    /// The canonical key is known; the shared cache is being consulted.
    CacheCheck { key: String },
    /// Cache miss: the prefix-anchored primary lookup is running.
    StoreLookupA { key: String },
    /// The primary lookup returned no rows: the fallback lookup is running.
    StoreLookupB { key: String },
    /// The records are chosen and serialized; the body is being written back
    /// to the cache.
    CachePopulate { key: String, records: Vec<Tag>, body: String },
    /// Terminal: answer with this body and success status.
    Respond { body: String },
    /// Terminal: the input was rejected before any cache or store access.
    Rejected { error: AutocompleteError },
    /// Terminal: a backend fault ended the request.
    Failed { error: AutocompleteError },
}

/// What the runtime reports back to the machine.
pub enum ResolveEvent {
    /// A raw query string arrived.
    Submit { raw: String },
    /// The cache lookup finished, with the entry it found, if any.
    CacheReply { found: Option<String> },
    /// The primary lookup finished.
    TierAReply { rows: Result<Vec<Tag>, StoreFault> },
    /// The fallback lookup finished.
    TierBReply { rows: Result<Vec<Tag>, StoreFault> },
    /// The cache write returned.
    CacheWritten,
}

/// What the runtime must do next.
pub enum ResolveAction {
    /// Look the key up in the result cache.
    QueryCache { key: String },
    /// Run the prefix-anchored primary lookup with this pattern.
    QueryTierA { pattern: String },
    /// Run the fallback lookup against the canonical key itself.
    QueryTierB { key: String },
    /// Write the body into the cache under the key.
    WriteCache { key: String, body: String },
    /// Answer with this body and success status.
    RespondBody { body: String },
    /// Answer with this error.
    RespondError { error: AutocompleteError },
}

/// Which events a state accepts; the runtime feeds each state only the
/// outcome of the action that state asked for.
pub open spec fn step_allowed(s: ResolveState, e: ResolveEvent) -> bool {
    match (s, e) {
        (ResolveState::Validating, ResolveEvent::Submit { raw }) => vstd::utf8::encode_utf8(
            raw@,
        ).len() <= usize::MAX,
        (ResolveState::CacheCheck { .. }, ResolveEvent::CacheReply { .. }) => true,
        (ResolveState::StoreLookupA { .. }, ResolveEvent::TierAReply { .. }) => true,
        (ResolveState::StoreLookupB { .. }, ResolveEvent::TierBReply { .. }) => true,
        (ResolveState::CachePopulate { .. }, ResolveEvent::CacheWritten) => true,
        _ => false,
    }
}

/// The step outcome when a backend fault ends the request.
pub open spec fn fail_post(ns: ResolveState, a: ResolveAction) -> bool {
    &&& ns == (ResolveState::Failed { error: AutocompleteError::ServerError })
    &&& a == (ResolveAction::RespondError { error: AutocompleteError::ServerError })
}

/// The step outcome when rows were chosen: they are serialized and written
/// back under the key, exactly as chosen.
pub open spec fn populate_post(
    key: Seq<char>,
    rows: Seq<Tag>,
    ns: ResolveState,
    a: ResolveAction,
) -> bool {
    &&& (ns matches ResolveState::CachePopulate { key: k, records, body } && k@ == key && records@
        == rows && body@ == json_of_tags(views_of(rows)))
    &&& (a matches ResolveAction::WriteCache { key: k, body } && k@ == key && body@ == json_of_tags(
        views_of(rows),
    ))
}

/// The full transition relation of the pipeline: what the next state and the
/// demanded action are, for every state and the event it accepts.
pub open spec fn step_post(
    s: ResolveState,
    e: ResolveEvent,
    ns: ResolveState,
    a: ResolveAction,
) -> bool {
    match (s, e) {
        (ResolveState::Validating, ResolveEvent::Submit { raw }) => {
            if len_rejected(raw@) {
                &&& ns == (ResolveState::Rejected { error: AutocompleteError::BadRequest })
                &&& a == (ResolveAction::RespondError { error: AutocompleteError::BadRequest })
            } else {
                &&& (ns matches ResolveState::CacheCheck { key } && key@ == canonical_of(raw@))
                &&& (a matches ResolveAction::QueryCache { key } && key@ == canonical_of(raw@))
            }
        },
        (ResolveState::CacheCheck { key }, ResolveEvent::CacheReply { found }) => {
            match found {
                Option::Some(body) => {
                    &&& (ns matches ResolveState::Respond { body: b } && b@ == body@)
                    &&& (a matches ResolveAction::RespondBody { body: b } && b@ == body@)
                },
                Option::None => {
                    &&& (ns matches ResolveState::StoreLookupA { key: k } && k@ == key@)
                    &&& (a matches ResolveAction::QueryTierA { pattern } && pattern@ == escape_seq(
                        key@.push('*'),
                    ))
                },
            }
        },
        (ResolveState::StoreLookupA { key }, ResolveEvent::TierAReply { rows }) => {
            match rows {
                Result::Ok(found) => {
                    if found.len() > 0 {
                        populate_post(key@, found@, ns, a)
                    } else {
                        &&& (ns matches ResolveState::StoreLookupB { key: k } && k@ == key@)
                        &&& (a matches ResolveAction::QueryTierB { key: k } && k@ == key@)
                    }
                },
                Result::Err(_) => fail_post(ns, a),
            }
        },
        (ResolveState::StoreLookupB { key }, ResolveEvent::TierBReply { rows }) => {
            match rows {
                Result::Ok(found) => populate_post(key@, found@, ns, a),
                Result::Err(_) => fail_post(ns, a),
            }
        },
        (ResolveState::CachePopulate { body, .. }, ResolveEvent::CacheWritten) => {
            &&& (ns matches ResolveState::Respond { body: b } && b@ == body@)
            &&& (a matches ResolveAction::RespondBody { body: b } && b@ == body@)
        },
        _ => false,
    }
}

fn fail_step() -> (r: (ResolveState, ResolveAction))
    ensures
        fail_post(r.0, r.1),
{
    (
        ResolveState::Failed { error: AutocompleteError::ServerError },
        ResolveAction::RespondError { error: AutocompleteError::ServerError },
    )
}

fn populate_step(key: String, rows: Vec<Tag>) -> (r: (ResolveState, ResolveAction))
    ensures
        populate_post(key@, rows@, r.0, r.1),
{
    let body = serialize_tags(&rows);
    let body_copy = body.clone();
    let key_copy = key.clone();
    (
        ResolveState::CachePopulate { key, records: rows, body },
        ResolveAction::WriteCache { key: key_copy, body: body_copy },
    )
}

/// One transition of the pipeline: consumes the current state and the event
/// the runtime reported, and returns the next state with the action the
/// runtime must perform.
pub fn resolve_step(state: ResolveState, event: ResolveEvent) -> (r: (
    ResolveState,
    ResolveAction,
))
    requires
        step_allowed(state, event),
    ensures
        step_post(state, event, r.0, r.1),
{
    match (state, event) {
        (ResolveState::Validating, ResolveEvent::Submit { raw }) => {
            match validate_transform_tag(raw.as_str()) {
                Result::Ok(key) => {
                    let key_copy = key.clone();
                    (
                        ResolveState::CacheCheck { key },
                        ResolveAction::QueryCache { key: key_copy },
                    )
                },
                Result::Err(e) => {
                    (ResolveState::Rejected { error: e }, ResolveAction::RespondError { error: e })
                },
            }
        },
        (ResolveState::CacheCheck { key }, ResolveEvent::CacheReply { found }) => {
            match found {
                Option::Some(body) => {
                    let body_copy = body.clone();
                    (
                        ResolveState::Respond { body },
                        ResolveAction::RespondBody { body: body_copy },
                    )
                },
                Option::None => {
                    let pattern = to_search_pattern(&key);
                    (
                        ResolveState::StoreLookupA { key },
                        ResolveAction::QueryTierA { pattern },
                    )
                },
            }
        },
        (ResolveState::StoreLookupA { key }, ResolveEvent::TierAReply { rows }) => {
            match rows {
                Result::Ok(found) => {
                    if found.len() > 0 {
                        populate_step(key, found)
                    } else {
                        let key_copy = key.clone();
                        (
                            ResolveState::StoreLookupB { key },
                            ResolveAction::QueryTierB { key: key_copy },
                        )
                    }
                },
                Result::Err(_) => fail_step(),
            }
        },
        (ResolveState::StoreLookupB { key }, ResolveEvent::TierBReply { rows }) => {
            match rows {
                Result::Ok(found) => populate_step(key, found),
                Result::Err(_) => fail_step(),
            }
        },
        (ResolveState::CachePopulate { key: _, records: _, body }, ResolveEvent::CacheWritten) => {
            let body_copy = body.clone();
            (ResolveState::Respond { body }, ResolveAction::RespondBody { body: body_copy })
        },
        _ => {
            proof {
                assert(false);
            }
            fail_step()
        },
    }
}

/// Malformed input is rejected at once: for every raw input whose byte
/// length is under 3 or over 100, the first step ends in
/// `Rejected(BadRequest)` and demands only an error response — no cache
/// lookup, no store query, no cache write.
pub proof fn lemma_bad_input_rejected(
    raw: String,
    ns: ResolveState,
    a: ResolveAction,
)
    requires
        len_rejected(raw@),
        step_post(ResolveState::Validating, ResolveEvent::Submit { raw }, ns, a),
    ensures
        ns == (ResolveState::Rejected { error: AutocompleteError::BadRequest }),
        a == (ResolveAction::RespondError { error: AutocompleteError::BadRequest }),
{
}

/// A cache hit answers with the cached body, byte for byte, and demands only
/// the response — no store query and no cache write.
pub proof fn lemma_cache_hit_no_store(
    key: String,
    cached: String,
    ns: ResolveState,
    a: ResolveAction,
)
    requires
        step_post(
            ResolveState::CacheCheck { key },
            ResolveEvent::CacheReply { found: Option::Some(cached) },
            ns,
            a,
        ),
    ensures
        (ns matches ResolveState::Respond { body } && body@ == cached@),
        (a matches ResolveAction::RespondBody { body } && body@ == cached@),
{
}

/// Tier fallback: when the primary lookup returns no rows and the fallback
/// returns rows, the records the resolver settles on are exactly the
/// fallback's, and the body it caches is their serialization.
pub proof fn lemma_tier_fallback(
    key: String,
    a_rows: Vec<Tag>,
    b_rows: Vec<Tag>,
    mid: ResolveState,
    mid_action: ResolveAction,
    ns: ResolveState,
    a: ResolveAction,
)
    requires
        a_rows@.len() == 0,
        step_post(
            ResolveState::StoreLookupA { key },
            ResolveEvent::TierAReply { rows: Result::Ok(a_rows) },
            mid,
            mid_action,
        ),
        step_post(mid, ResolveEvent::TierBReply { rows: Result::Ok(b_rows) }, ns, a),
    ensures
        (ns matches ResolveState::CachePopulate { records, body, .. } && records@ == b_rows@
            && body@ == json_of_tags(views_of(b_rows@))),
        (a matches ResolveAction::WriteCache { body, .. } && body@ == json_of_tags(
            views_of(b_rows@),
        )),
{
}

/// The whole miss path, stitched together: starting from an accepted raw
/// input, a cache miss queries tier A with exactly the escaped canonical
/// key plus the store wildcard, and when tier A returns rows, their
/// serialization is written back under exactly the canonical key — the
/// cache key and the search basis are one and the same.
pub proof fn lemma_miss_path_caches_canonical_key(
    raw: String,
    rows: Vec<Tag>,
    s1: ResolveState,
    a1: ResolveAction,
    s2: ResolveState,
    a2: ResolveAction,
    s3: ResolveState,
    a3: ResolveAction,
)
    requires
        !len_rejected(raw@),
        step_post(ResolveState::Validating, ResolveEvent::Submit { raw }, s1, a1),
        step_post(s1, ResolveEvent::CacheReply { found: Option::None }, s2, a2),
        rows@.len() > 0,
        step_post(s2, ResolveEvent::TierAReply { rows: Result::Ok(rows) }, s3, a3),
    ensures
        (a1 matches ResolveAction::QueryCache { key } && key@ == canonical_of(raw@)),
        (a2 matches ResolveAction::QueryTierA { pattern } && pattern@ == escape_seq(
            canonical_of(raw@).push('*'),
        )),
        (a3 matches ResolveAction::WriteCache { key, body } && key@ == canonical_of(raw@) && body@
            == json_of_tags(views_of(rows@))),
{
}

/// Idempotence of repeated resolution: the first request responds with
/// exactly the body it wrote to the cache, and a second request for the same
/// key that finds that body responds with it unchanged — the two response
/// bodies are byte-identical.
pub proof fn lemma_repeat_resolution_identical(
    key1: String,
    key2: String,
    records: Vec<Tag>,
    body: String,
    cached: String,
    ns1: ResolveState,
    a1: ResolveAction,
    ns2: ResolveState,
    a2: ResolveAction,
)
    requires
        step_post(
            ResolveState::CachePopulate { key: key1, records, body },
            ResolveEvent::CacheWritten,
            ns1,
            a1,
        ),
        cached@ == body@,
        step_post(
            ResolveState::CacheCheck { key: key2 },
            ResolveEvent::CacheReply { found: Option::Some(cached) },
            ns2,
            a2,
        ),
    ensures
        (a1 matches ResolveAction::RespondBody { body: b } && b@ == body@),
        (a2 matches ResolveAction::RespondBody { body: b } && b@ == body@),
{
}

} // verus!
