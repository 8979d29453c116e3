//! The per-project cache entry: it owns the last known snapshot, collapses
//! concurrent refresh requests into one outstanding fetch, and runs the
//! admission checks against the cached state.
//!
//! All reads and writes of one entry are serialized through its single
//! owner. The owner calls [`Project::get_or_fetch_state`] on every state
//! request; when that call asks for a transport fetch to start, the owner
//! issues it and later delivers the outcome through
//! [`Project::complete_fetch`], broadcasting the result to every caller
//! that joined the pending fetch in between.

use crate::config::Config;
use crate::envelope::{
    enforce_limits, partial_scoping, triggered_limits, Envelope, EnvelopeView, RequestMeta,
    RequestMetaView,
};
use crate::quotas::{
    item_limited, limit_active, quota_views, Quota, QuotaView, RateLimitView, RateLimits,
};
use crate::scoping::{DataCategory, ProjectId, Scoping, ScopingView};
use crate::staleness::Outdated;
use crate::state::{
    check_request_spec, quotas_for_key, scoping_from_state, spec_outdated, DiscardReason,
    ProjectState, ProjectStateView,
};
use vstd::prelude::*;

verus! {

/// The mathematical content of a `Project`.
#[verifier::ext_equal]
pub struct ProjectView {
    /// The project this entry caches.
    pub id: ProjectId,
    /// The configuration constants the entry was created with.
    pub config: Config,
    /// The cached snapshot; absent until the first fetch completes.
    pub state: Option<ProjectStateView>,
    /// Whether a fetch is outstanding for this project.
    pub fetch_in_flight: bool,
    /// The accumulated rate limits.
    pub rate_limits: Seq<RateLimitView>,
    /// Whether the snapshot comes from local configuration, which bypasses
    /// the staleness policy.
    pub is_local: bool,
}

/// The per-project cache entry.
pub struct Project {
    id: ProjectId,
    config: Config,
    state: Option<ProjectState>,
    fetch_in_flight: bool,
    rate_limits: RateLimits,
    is_local: bool,
}

impl View for Project {
    type V = ProjectView;

    closed spec fn view(&self) -> ProjectView {
        ProjectView {
            id: self.id,
            config: self.config,
            state: match self.state {
                Some(s) => Some(s@),
                None => None,
            },
            fetch_in_flight: self.fetch_in_flight,
            rate_limits: self.rate_limits@,
            is_local: self.is_local,
        }
    }
}

/// The staleness verdict of the entry's snapshot; a missing snapshot
/// counts as hard-outdated.
pub open spec fn verdict_of(p: ProjectView, now: int) -> Outdated {
    match p.state {
        Some(s) => spec_outdated(s, p.id, p.config, now),
        None => Outdated::HardOutdated,
    }
}

/// Whether a state request finds no snapshot it may serve synchronously
/// and must wait for the fetch: locally sourced entries always defer to
/// the loader, and a missing or hard-outdated snapshot is unusable.
pub open spec fn must_await(p: ProjectView, now: int) -> bool {
    p.is_local || p.state is None || verdict_of(p, now) == Outdated::HardOutdated
}

/// Whether a state request wants a fetch running: always, except when a
/// fresh snapshot of this entry's own caching is served.
pub open spec fn wants_fetch(p: ProjectView, now: int) -> bool {
    p.is_local || p.state is None || verdict_of(p, now) != Outdated::Updated
}

/// The entry after one state request at `now`: a wanted fetch is in flight
/// afterwards; nothing else changes.
pub open spec fn after_poll(p: ProjectView, now: int) -> ProjectView {
    ProjectView { fetch_in_flight: p.fetch_in_flight || wants_fetch(p, now), ..p }
}

/// Whether a state request at `now` starts a transport fetch: only when
/// one is wanted and none is in flight.
pub open spec fn poll_starts_fetch(p: ProjectView, now: int) -> bool {
    wants_fetch(p, now) && !p.fetch_in_flight
}

/// How many transport fetches `n` consecutive state requests at `now`
/// start, with no fetch completion in between.
pub open spec fn fetches_started(p: ProjectView, now: int, n: nat) -> nat
    decreases n,
{
    if n == 0 {
        0
    } else {
        (if poll_starts_fetch(p, now) {
            1 as nat
        } else {
            0 as nat
        }) + fetches_started(after_poll(p, now), now, (n - 1) as nat)
    }
}

/// While a fetch is in flight, state requests join it and start none.
pub proof fn lemma_no_start_while_in_flight(p: ProjectView, now: int, n: nat)
    requires
        p.fetch_in_flight,
    ensures
        fetches_started(p, now, n) == 0,
    decreases n,
{
    if n > 0 {
        lemma_no_start_while_in_flight(after_poll(p, now), now, (n - 1) as nat);
    }
}

/// Single flight: out of any burst of concurrent state requests arriving
/// while no fetch is in flight and a fetch is wanted, exactly the first
/// starts a transport fetch; all others join it.
pub proof fn lemma_single_flight(p: ProjectView, now: int, n: nat)
    requires
        !p.fetch_in_flight,
        wants_fetch(p, now),
        n >= 1,
    ensures
        fetches_started(p, now, n) == 1,
{
    lemma_no_start_while_in_flight(after_poll(p, now), now, (n - 1) as nat);
}

/// The admission verdict of the entry at `now`: checked against the
/// snapshot where one exists; without a snapshot nothing is rejected here.
pub open spec fn admission_of(p: ProjectView, m: RequestMetaView, now: int) -> Result<
    (),
    DiscardReason,
> {
    match p.state {
        Some(s) => check_request_spec(s, p.id, m, p.config, now),
        None => Ok(()),
    }
}

/// The quotas the entry applies for a public key: those of the snapshot,
/// or none while no snapshot exists.
pub open spec fn quotas_of(p: ProjectView, key: Seq<char>) -> Seq<QuotaView> {
    match p.state {
        Some(s) => quotas_for_key(s, key),
        None => Seq::empty(),
    }
}

/// The scoping the entry resolves for a request: amended from the snapshot
/// where one exists, the request's partial scoping otherwise.
pub open spec fn spec_project_scoping(p: ProjectView, m: RequestMetaView) -> ScopingView {
    match p.state {
        Some(s) => scoping_from_state(s, m),
        None => partial_scoping(m),
    }
}

/// The entry after the rate-limit bookkeeping of one admission check at
/// `now`: expired entries are pruned; nothing else changes.
pub open spec fn after_bookkeeping(p: ProjectView, now: int) -> ProjectView {
    ProjectView {
        rate_limits: p.rate_limits.filter(|l: RateLimitView| limit_active(l, now)),
        ..p
    }
}

/// Every element of a filtered sequence comes from the original.
proof fn lemma_filter_subset<A>(s: Seq<A>, pred: spec_fn(A) -> bool, x: A)
    requires
        s.filter(pred).contains(x),
    ensures
        s.contains(x),
    decreases s.len(),
{
    reveal(Seq::filter);
    if s.len() > 0 {
        if x == s.last() {
            assert(s[s.len() - 1] == x);
        } else {
            if s.drop_last().filter(pred).contains(x) {
                lemma_filter_subset(s.drop_last(), pred, x);
                let i = choose|i: int| 0 <= i < s.drop_last().len() && s.drop_last()[i] == x;
                assert(s[i] == x);
            }
        }
    }
}

/// Filtering a sequence whose elements all satisfy the predicate returns
/// it unchanged.
proof fn lemma_filter_all<A>(s: Seq<A>, pred: spec_fn(A) -> bool)
    requires
        forall|i: int| 0 <= i < s.len() ==> pred(#[trigger] s[i]),
    ensures
        s.filter(pred) == s,
    decreases s.len(),
{
    reveal(Seq::filter);
    if s.len() > 0 {
        lemma_filter_all(s.drop_last(), pred);
        assert(s.drop_last().push(s.last()) =~= s);
    }
}

/// Admission checks are idempotent: the verdict depends on the snapshot,
/// the request and the clock alone, so the rate-limit bookkeeping of a
/// check changes neither the verdict nor which items are limited, and the
/// bookkeeping itself is idempotent. Two checks of the same request at the
/// same instant therefore return the same outcome.
pub proof fn lemma_check_idempotent(
    p: ProjectView,
    m: RequestMetaView,
    scoping: ScopingView,
    category: DataCategory,
    now: int,
)
    ensures
        admission_of(after_bookkeeping(p, now), m, now) == admission_of(p, m, now),
        item_limited(
            quotas_of(after_bookkeeping(p, now), scoping.public_key),
            after_bookkeeping(p, now).rate_limits,
            scoping,
            category,
            now,
        ) == item_limited(quotas_of(p, scoping.public_key), p.rate_limits, scoping, category, now),
        after_bookkeeping(after_bookkeeping(p, now), now) == after_bookkeeping(p, now),
{
    let active = |l: RateLimitView| limit_active(l, now);
    let cleaned = p.rate_limits.filter(active);
    let quotas = quotas_of(p, scoping.public_key);

    broadcast use vstd::seq_lib::group_filter_ensures;

    if exists|i: int| 0 <= i < cleaned.len() && crate::quotas::limit_matches(
        cleaned[i],
        scoping,
        category,
        now,
    ) {
        let i = choose|i: int|
            0 <= i < cleaned.len() && crate::quotas::limit_matches(
                cleaned[i],
                scoping,
                category,
                now,
            );
        assert(cleaned.contains(cleaned[i]));
        lemma_filter_subset(p.rate_limits, active, cleaned[i]);
        let j = choose|j: int| 0 <= j < p.rate_limits.len() && p.rate_limits[j] == cleaned[i];
        assert(crate::quotas::limit_matches(p.rate_limits[j], scoping, category, now));
    }
    if exists|j: int| 0 <= j < p.rate_limits.len() && crate::quotas::limit_matches(
        p.rate_limits[j],
        scoping,
        category,
        now,
    ) {
        let j = choose|j: int|
            0 <= j < p.rate_limits.len() && crate::quotas::limit_matches(
                p.rate_limits[j],
                scoping,
                category,
                now,
            );
        assert(active(p.rate_limits[j]));
        assert(cleaned.contains(p.rate_limits[j]));
        let i = choose|i: int| 0 <= i < cleaned.len() && cleaned[i] == p.rate_limits[j];
        assert(crate::quotas::limit_matches(cleaned[i], scoping, category, now));
    }

    assert(forall|i: int| 0 <= i < cleaned.len() ==> active(#[trigger] cleaned[i]));
    lemma_filter_all(cleaned, active);
    assert(after_bookkeeping(after_bookkeeping(p, now), now) =~= after_bookkeeping(p, now));
}

/// What a state request yields synchronously.
pub enum GetOrFetchState {
    /// A fresh snapshot: serve it; no fetch is needed.
    Cached(ProjectState),
    /// A soft-outdated snapshot: serve it while the refresh runs in the
    /// background.
    CachedRefresh(ProjectState),
    /// No snapshot may be served: the caller must await the in-flight
    /// fetch.
    Pending,
}

/// The outcome of a finished fetch, as delivered back to the entry.
pub struct FetchResponse {
    /// The freshly fetched snapshot.
    pub state: ProjectState,
    /// Whether the snapshot comes from local configuration.
    pub is_local: bool,
}

impl Project {
    /// The configuration constants are well formed.
    pub open spec fn wf(&self) -> bool {
        self@.config.wf()
    }

    /// A fresh entry for one project: no snapshot, no fetch in flight, no
    /// rate limits.
    pub fn new(id: ProjectId, config: Config) -> (r: Project)
        requires
            config.wf(),
        ensures
            r.wf(),
            r@.id == id,
            r@.config == config,
            r@.state is None,
            r@.fetch_in_flight == false,
            r@.rate_limits.len() == 0,
            r@.is_local == false,
    {
        Project {
            id,
            config,
            state: None,
            fetch_in_flight: false,
            rate_limits: RateLimits::new(),
            is_local: false,
        }
    }

    /// The cached snapshot, if any.
    pub fn state(&self) -> (r: Option<&ProjectState>)
        ensures
            match r {
                Some(s) => self@.state == Some(s@),
                None => self@.state is None,
            },
    {
        self.state.as_ref()
    }

    /// Serves a state request: a fresh snapshot is returned as is; a
    /// soft-outdated one is returned while a background fetch is ensured;
    /// for everything else the caller must await the fetch. The second
    /// component says whether this call starts the transport fetch — true
    /// at most for the first of any burst of concurrent requests.
    pub fn get_or_fetch_state(&mut self, now: u64) -> (r: (GetOrFetchState, bool))
        requires
            old(self).wf(),
        ensures
            final(self).wf(),
            final(self)@ == after_poll(old(self)@, now as int),
            r.1 == poll_starts_fetch(old(self)@, now as int),
            (r.0 is Pending) == must_await(old(self)@, now as int),
            match r.0 {
                GetOrFetchState::Cached(s) => old(self)@.state == Some(s@) && !old(self)@.is_local
                    && verdict_of(old(self)@, now as int) == Outdated::Updated,
                GetOrFetchState::CachedRefresh(s) => old(self)@.state == Some(s@) && !old(
                    self,
                )@.is_local && verdict_of(old(self)@, now as int) == Outdated::SoftOutdated,
                GetOrFetchState::Pending => true,
            },
    {
        let verdict = match &self.state {
            Some(s) => s.outdated(self.id, &self.config, now),
            None => Outdated::HardOutdated,
        };
        if !self.is_local {
            match &self.state {
                Some(s) => {
                    if verdict == Outdated::Updated {
                        let c = s.clone();
                        proof {
                            assert(final(self)@ =~= after_poll(old(self)@, now as int));
                        }
                        return (GetOrFetchState::Cached(c), false);
                    }
                },
                None => {},
            }
        }
        let started = !self.fetch_in_flight;
        self.fetch_in_flight = true;
        proof {
            assert(final(self)@ =~= after_poll(old(self)@, now as int));
        }
        if !self.is_local && verdict == Outdated::SoftOutdated {
            match &self.state {
                Some(s) => {
                    return (GetOrFetchState::CachedRefresh(s.clone()), started);
                },
                None => {},
            }
        }
        (GetOrFetchState::Pending, started)
    }

    /// Delivers the outcome of the outstanding fetch: on success the new
    /// snapshot replaces the old one wholesale and the local-source flag is
    /// recorded; on failure the previous snapshot, if any, stays in place.
    /// Either way the in-flight fetch is cleared, so the next stale request
    /// may start a new one.
    pub fn complete_fetch(&mut self, result: Option<FetchResponse>)
        ensures
            final(self)@.id == old(self)@.id,
            final(self)@.config == old(self)@.config,
            final(self)@.rate_limits == old(self)@.rate_limits,
            final(self)@.fetch_in_flight == false,
            match result {
                Some(resp) => final(self)@.state == Some(resp.state@) && final(self)@.is_local
                    == resp.is_local,
                None => final(self)@.state == old(self)@.state && final(self)@.is_local == old(
                    self,
                )@.is_local,
            },
    {
        self.fetch_in_flight = false;
        match result {
            Some(resp) => {
                self.state = Some(resp.state);
                self.is_local = resp.is_local;
            },
            None => {},
        }
    }

    /// The scoping for a request: resolved against the snapshot where one
    /// exists, the request's own partial scoping otherwise.
    pub fn get_scoping(&self, meta: &RequestMeta) -> (r: Scoping)
        ensures
            r@ == spec_project_scoping(self@, meta@),
    {
        match &self.state {
            Some(state) => state.get_scoping(meta),
            None => meta.get_partial_scoping(),
        }
    }

    /// Merges upstream-reported rate limits into the accumulated set;
    /// nothing already recorded is dropped or weakened.
    pub fn update_rate_limits(&mut self, message: UpdateRateLimits)
        ensures
            final(self)@ == (ProjectView {
                rate_limits: old(self)@.rate_limits + message.0@,
                ..old(self)@
            }),
    {
        let UpdateRateLimits(rate_limits) = message;
        self.rate_limits.merge(rate_limits);
        proof {
            assert(final(self)@ =~= ProjectView {
                rate_limits: old(self)@.rate_limits + message.0@,
                ..old(self)@
            });
        }
    }

    /// Checks an envelope against the snapshot and the rate limits: the
    /// admission policy first; when it admits, expired limits are pruned
    /// and every item over quota or rate limited is removed from the
    /// batch. Nothing but the rate-limit bookkeeping changes the entry, so
    /// repeating the check at the same instant repeats the outcome.
    pub fn check_envelope(&mut self, envelope: Envelope, scoping: &Scoping, now: u64) -> (r: Result<
        CheckedEnvelope,
        DiscardReason,
    >)
        requires
            old(self).wf(),
        ensures
            final(self).wf(),
            match admission_of(old(self)@, envelope@.meta, now as int) {
                Err(e) => r == Err::<CheckedEnvelope, DiscardReason>(e) && final(self)@ == old(
                    self,
                )@,
                Ok(u) => {
                    &&& final(self)@ == after_bookkeeping(old(self)@, now as int)
                    &&& match r {
                        Ok(ce) => {
                            &&& ce.envelope@.meta == envelope@.meta
                            &&& ce.envelope@.items == envelope@.items.filter(
                                |it: crate::envelope::Item|
                                    !item_limited(
                                        quotas_of(old(self)@, scoping@.public_key),
                                        after_bookkeeping(old(self)@, now as int).rate_limits,
                                        scoping@,
                                        it.category,
                                        now as int,
                                    ),
                            )
                            &&& ce.rate_limits@ == triggered_limits(
                                envelope@.items,
                                quotas_of(old(self)@, scoping@.public_key),
                                after_bookkeeping(old(self)@, now as int).rate_limits,
                                scoping@,
                                now as int,
                            )
                        },
                        Err(_) => false,
                    }
                },
            },
    {
        match &self.state {
            Some(state) => {
                match state.check_request(self.id, &envelope.meta, &self.config, now) {
                    Ok(_) => {},
                    Err(reason) => {
                        return Err(reason);
                    },
                }
            },
            None => {},
        }
        self.rate_limits.clean_expired(now);
        proof {
            assert(final(self)@ =~= after_bookkeeping(old(self)@, now as int));
        }
        let mut envelope = envelope;
        let triggered = match &self.state {
            Some(state) => {
                let quotas = state.get_quotas(scoping.public_key.as_str());
                enforce_limits(&mut envelope, scoping, quotas, &self.rate_limits, now)
            },
            None => {
                let empty: Vec<Quota> = Vec::new();
                proof {
                    assert(quota_views(empty@) =~= Seq::<QuotaView>::empty());
                }
                enforce_limits(&mut envelope, scoping, empty.as_slice(), &self.rate_limits, now)
            },
        };
        Ok(CheckedEnvelope { envelope, rate_limits: triggered })
    }

    /// Resolves the scoping of the message's request and checks its
    /// envelope against it.
    pub fn check_envelope_scoped(&mut self, message: CheckEnvelope, now: u64) -> (r:
        CheckEnvelopeResponse)
        requires
            old(self).wf(),
        ensures
            final(self).wf(),
            r.scoping@ == spec_project_scoping(old(self)@, message@.envelope.meta),
            match admission_of(old(self)@, message@.envelope.meta, now as int) {
                Err(e) => r.result == Err::<CheckedEnvelope, DiscardReason>(e) && final(self)@
                    == old(self)@,
                Ok(u) => {
                    &&& final(self)@ == after_bookkeeping(old(self)@, now as int)
                    &&& match r.result {
                        Ok(ce) => {
                            &&& ce.envelope@.meta == message@.envelope.meta
                            &&& ce.envelope@.items == message@.envelope.items.filter(
                                |it: crate::envelope::Item|
                                    !item_limited(
                                        quotas_of(
                                            old(self)@,
                                            spec_project_scoping(
                                                old(self)@,
                                                message@.envelope.meta,
                                            ).public_key,
                                        ),
                                        after_bookkeeping(old(self)@, now as int).rate_limits,
                                        spec_project_scoping(old(self)@, message@.envelope.meta),
                                        it.category,
                                        now as int,
                                    ),
                            )
                            &&& ce.rate_limits@ == triggered_limits(
                                message@.envelope.items,
                                quotas_of(
                                    old(self)@,
                                    spec_project_scoping(
                                        old(self)@,
                                        message@.envelope.meta,
                                    ).public_key,
                                ),
                                after_bookkeeping(old(self)@, now as int).rate_limits,
                                spec_project_scoping(old(self)@, message@.envelope.meta),
                                now as int,
                            )
                        },
                        Err(_) => false,
                    }
                },
            },
    {
        let scoping = self.get_scoping(message.envelope.meta());
        let result = self.check_envelope(message.envelope, &scoping, now);
        CheckEnvelopeResponse { result, scoping }
    }
}

/// Asks the entry for the freshest available state, fetching if it is
/// missing or outdated.
pub struct GetProjectState;

/// Asks the entry to check an envelope against project configuration and
/// rate limits.
#[derive(Debug)]
pub struct CheckEnvelope {
    envelope: Envelope,
    fetch: bool,
}

/// The mathematical content of a `CheckEnvelope`.
pub struct CheckEnvelopeView {
    /// The envelope to check.
    pub envelope: EnvelopeView,
    /// Whether the state should be refreshed before checking.
    pub fetch: bool,
}

impl View for CheckEnvelope {
    type V = CheckEnvelopeView;

    closed spec fn view(&self) -> CheckEnvelopeView {
        CheckEnvelopeView { envelope: self.envelope@, fetch: self.fetch }
    }
}

impl CheckEnvelope {
    /// Checks the envelope after ensuring the state is fetched and up to
    /// date.
    pub fn fetched(envelope: Envelope) -> (r: Self)
        ensures
            r@.envelope == envelope@,
            r@.fetch == true,
    {
        Self { envelope, fetch: true }
    }

    /// Checks the envelope against the cached state, however stale; a
    /// fetch must not block the request.
    pub fn cached(envelope: Envelope) -> (r: Self)
        ensures
            r@.envelope == envelope@,
            r@.fetch == false,
    {
        Self { envelope, fetch: false }
    }

    /// Whether the state should be refreshed before checking.
    pub fn fetch(&self) -> (r: bool)
        ensures
            r == self@.fetch,
    {
        self.fetch
    }
}

/// A checked envelope and the rate limits its check triggered. Items over
/// quota or rate limited have been removed from the envelope.
#[derive(Debug)]
pub struct CheckedEnvelope {
    /// The envelope with every over-limit item removed.
    pub envelope: Envelope,
    /// The rate limits that applied to removed items.
    pub rate_limits: RateLimits,
}

/// Scoping information along with a checked envelope.
#[derive(Debug)]
pub struct CheckEnvelopeResponse {
    /// The outcome of the check.
    pub result: Result<CheckedEnvelope, DiscardReason>,
    /// The scoping the check was performed under.
    pub scoping: Scoping,
}

/// Merges upstream-reported rate limits into the entry's accumulated set.
pub struct UpdateRateLimits(pub RateLimits);

} // verus!
