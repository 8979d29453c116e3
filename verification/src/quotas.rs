//! Quotas and accumulated rate limits.
//!
//! A quota with a limit of zero statically rejects every matching item.
//! Counted quotas are enforced upstream and reach this library as reported
//! rate limits, which accumulate in [`RateLimits`] and expire on their own
//! schedule. A scope is limited while any active entry matches it, so of
//! several coexisting entries the most restrictive remaining one wins.

use crate::scoping::{DataCategory, ProjectId, Scoping, ScopingView};
use vstd::prelude::*;

verus! {

/// A rate limit made from a rejecting quota never expires.
pub const REJECT_RETRY_UNTIL: u64 = u64::MAX;

/// The level at which a quota counts.
#[derive(Clone, Copy, Debug, PartialEq, Eq, Structural)]
pub enum QuotaScope {
    /// The whole organization.
    Organization,
    /// One project.
    Project,
    /// One public key.
    Key,
}

/// One quota definition from a project's configuration.
#[derive(Debug)]
pub struct Quota {
    /// The data categories the quota counts; empty means every category.
    pub categories: Vec<DataCategory>,
    /// The level at which the quota counts.
    pub scope: QuotaScope,
    /// Restricts the quota to one instance of its scope, by numeric id.
    pub scope_id: Option<u64>,
    /// The maximum count, or `None` for unlimited. `Some(0)` rejects every
    /// matching item outright.
    pub limit: Option<u64>,
}

/// The mathematical content of a `Quota`.
pub struct QuotaView {
    /// The data categories the quota counts; empty means every category.
    pub categories: Seq<DataCategory>,
    /// The level at which the quota counts.
    pub scope: QuotaScope,
    /// Restricts the quota to one instance of its scope, by numeric id.
    pub scope_id: Option<u64>,
    /// The maximum count, or `None` for unlimited.
    pub limit: Option<u64>,
}

impl View for Quota {
    type V = QuotaView;

    open spec fn view(&self) -> QuotaView {
        QuotaView {
            categories: self.categories@,
            scope: self.scope,
            scope_id: self.scope_id,
            limit: self.limit,
        }
    }
}

/// Copies a category list.
fn clone_categories(v: &Vec<DataCategory>) -> (r: Vec<DataCategory>)
    ensures
        r@ == v@,
{
    let mut r: Vec<DataCategory> = Vec::new();
    let mut i: usize = 0;
    while i < v.len()
        invariant
            0 <= i <= v@.len(),
            r@ == v@.take(i as int),
        decreases v@.len() - i,
    {
        r.push(v[i]);
        proof {
            assert(v@.take(i as int + 1) =~= v@.take(i as int).push(v@[i as int]));
        }
        i = i + 1;
    }
    proof {
        assert(v@.take(v@.len() as int) =~= v@);
    }
    r
}

impl Clone for Quota {
    /// Clones the quota; the copy has the same content.
    fn clone(&self) -> (r: Self)
        ensures
            r@ == self@,
    {
        Quota {
            categories: clone_categories(&self.categories),
            scope: self.scope,
            scope_id: self.scope_id,
            limit: self.limit,
        }
    }
}

/// The scope instance a rate limit applies to.
#[derive(Debug)]
pub enum RateLimitScope {
    /// Everything of one organization.
    Organization(u64),
    /// Everything of one project.
    Project(ProjectId),
    /// Everything sent with one public key.
    Key(String),
}

/// The mathematical content of a `RateLimitScope`.
pub enum RateLimitScopeView {
    /// Everything of one organization.
    Organization(u64),
    /// Everything of one project.
    Project(ProjectId),
    /// Everything sent with one public key.
    Key(Seq<char>),
}

impl View for RateLimitScope {
    type V = RateLimitScopeView;

    open spec fn view(&self) -> RateLimitScopeView {
        match self {
            RateLimitScope::Organization(o) => RateLimitScopeView::Organization(*o),
            RateLimitScope::Project(p) => RateLimitScopeView::Project(*p),
            RateLimitScope::Key(k) => RateLimitScopeView::Key(k@),
        }
    }
}

impl Clone for RateLimitScope {
    /// Clones the scope instance; the copy names the same scope.
    fn clone(&self) -> (r: Self)
        ensures
            r@ == self@,
    {
        match self {
            RateLimitScope::Organization(o) => RateLimitScope::Organization(*o),
            RateLimitScope::Project(p) => RateLimitScope::Project(*p),
            RateLimitScope::Key(k) => RateLimitScope::Key(k.clone()),
        }
    }
}

/// One active rate limit: a scope instance, the categories it covers, and
/// the instant it expires.
#[derive(Debug)]
pub struct RateLimit {
    /// The data categories the limit covers; empty means every category.
    pub categories: Vec<DataCategory>,
    /// The scope instance the limit applies to.
    pub scope: RateLimitScope,
    /// Unix time in seconds up to which the limit is active.
    pub retry_until: u64,
}

/// The mathematical content of a `RateLimit`.
pub struct RateLimitView {
    /// The data categories the limit covers; empty means every category.
    pub categories: Seq<DataCategory>,
    /// The scope instance the limit applies to.
    pub scope: RateLimitScopeView,
    /// Unix time in seconds up to which the limit is active.
    pub retry_until: u64,
}

impl View for RateLimit {
    type V = RateLimitView;

    open spec fn view(&self) -> RateLimitView {
        RateLimitView { categories: self.categories@, scope: self.scope@, retry_until: self.retry_until }
    }
}

impl Clone for RateLimit {
    /// Clones the rate limit; the copy has the same content.
    fn clone(&self) -> (r: Self)
        ensures
            r@ == self@,
    {
        RateLimit {
            categories: clone_categories(&self.categories),
            scope: self.scope.clone(),
            retry_until: self.retry_until,
        }
    }
}

/// Whether a category list covers a category: an empty list covers all.
pub open spec fn category_matches(categories: Seq<DataCategory>, category: DataCategory) -> bool {
    categories.len() == 0 || categories.contains(category)
}

/// Whether a quota applies to a request identity and category.
pub open spec fn quota_matches(q: QuotaView, scoping: ScopingView, category: DataCategory) -> bool {
    &&& category_matches(q.categories, category)
    &&& match q.scope_id {
        None => true,
        Some(id) => match q.scope {
            QuotaScope::Organization => scoping.organization_id == id,
            QuotaScope::Project => scoping.project_id.0 == id,
            QuotaScope::Key => scoping.key_id == Some(id),
        },
    }
}

/// Whether a quota statically rejects what it matches.
pub open spec fn quota_rejecting(q: QuotaView) -> bool {
    q.limit == Some(0u64)
}

/// Whether a quota rejects items of this identity and category.
pub open spec fn quota_rejects(q: QuotaView, scoping: ScopingView, category: DataCategory) -> bool {
    quota_rejecting(q) && quota_matches(q, scoping, category)
}

/// Whether a limit's scope instance covers a request identity.
pub open spec fn limit_scope_matches(scope: RateLimitScopeView, scoping: ScopingView) -> bool {
    match scope {
        RateLimitScopeView::Organization(o) => o == scoping.organization_id,
        RateLimitScopeView::Project(p) => p == scoping.project_id,
        RateLimitScopeView::Key(k) => k == scoping.public_key,
    }
}

/// Whether a limit is still active at `now`.
pub open spec fn limit_active(l: RateLimitView, now: int) -> bool {
    now < l.retry_until
}

/// Whether an active limit covers this identity and category at `now`.
pub open spec fn limit_matches(
    l: RateLimitView,
    scoping: ScopingView,
    category: DataCategory,
    now: int,
) -> bool {
    limit_active(l, now) && limit_scope_matches(l.scope, scoping) && category_matches(
        l.categories,
        category,
    )
}

/// The rate limit a rejecting quota turns into for one request identity.
pub open spec fn limit_from_quota(q: QuotaView, scoping: ScopingView) -> RateLimitView {
    RateLimitView {
        categories: q.categories,
        scope: match q.scope {
            QuotaScope::Organization => RateLimitScopeView::Organization(scoping.organization_id),
            QuotaScope::Project => RateLimitScopeView::Project(scoping.project_id),
            QuotaScope::Key => RateLimitScopeView::Key(scoping.public_key),
        },
        retry_until: REJECT_RETRY_UNTIL,
    }
}

/// Whether an item of the given category is over quota or rate limited.
pub open spec fn item_limited(
    quotas: Seq<QuotaView>,
    limits: Seq<RateLimitView>,
    scoping: ScopingView,
    category: DataCategory,
    now: int,
) -> bool {
    ||| exists|i: int| 0 <= i < quotas.len() && quota_rejects(quotas[i], scoping, category)
    ||| exists|i: int| 0 <= i < limits.len() && limit_matches(limits[i], scoping, category, now)
}

/// The views of a quota list.
pub open spec fn quota_views(qs: Seq<Quota>) -> Seq<QuotaView> {
    qs.map_values(|q: Quota| q@)
}

/// Exactly the limits owed for one identity and category: one limit for
/// each rejecting quota that matches, followed by every stored limit that
/// is active and matches.
pub open spec fn applicable_limits(
    quotas: Seq<QuotaView>,
    limits: Seq<RateLimitView>,
    scoping: ScopingView,
    category: DataCategory,
    now: int,
) -> Seq<RateLimitView> {
    quotas.filter(|q: QuotaView| quota_rejects(q, scoping, category)).map_values(
        |q: QuotaView| limit_from_quota(q, scoping),
    ) + limits.filter(|l: RateLimitView| limit_matches(l, scoping, category, now))
}

/// Filtering commutes with appending one element.
pub(crate) proof fn lemma_filter_push<A>(s: Seq<A>, x: A, pred: spec_fn(A) -> bool)
    ensures
        s.push(x).filter(pred) == if pred(x) {
            s.filter(pred).push(x)
        } else {
            s.filter(pred)
        },
{
    reveal(Seq::filter);
    assert(s.push(x).drop_last() =~= s);
}

/// Mapping commutes with appending one element.
pub(crate) proof fn lemma_map_push<A, B>(s: Seq<A>, x: A, f: spec_fn(A) -> B)
    ensures
        s.push(x).map_values(f) == s.map_values(f).push(f(x)),
{
    assert(s.push(x).map_values(f) =~= s.map_values(f).push(f(x)));
}

/// Accumulated rate limits: entries from local quota evaluation and from
/// upstream reports coexist; each expires at its own `retry_until`.
#[derive(Debug)]
pub struct RateLimits {
    limits: Vec<RateLimit>,
}

impl View for RateLimits {
    type V = Seq<RateLimitView>;

    closed spec fn view(&self) -> Seq<RateLimitView> {
        self.limits@.map_values(|l: RateLimit| l@)
    }
}

impl RateLimits {
    /// An empty set of rate limits.
    pub fn new() -> (r: Self)
        ensures
            r@ == Seq::<RateLimitView>::empty(),
    {
        let r = RateLimits { limits: Vec::new() };
        proof {
            assert(r@ =~= Seq::<RateLimitView>::empty());
        }
        r
    }

    /// Whether no entry is recorded.
    pub fn is_empty(&self) -> (r: bool)
        ensures
            r == (self@.len() == 0),
    {
        self.limits.len() == 0
    }

    /// How many entries are recorded.
    pub fn len(&self) -> (r: usize)
        ensures
            r == self@.len(),
    {
        self.limits.len()
    }

    /// The recorded entries.
    pub fn limits(&self) -> (r: &Vec<RateLimit>)
        ensures
            r@.map_values(|l: RateLimit| l@) == self@,
    {
        &self.limits
    }

    /// Records one more rate limit.
    pub fn add(&mut self, limit: RateLimit)
        ensures
            final(self)@ == old(self)@.push(limit@),
    {
        proof {
            lemma_map_push(self.limits@, limit, |l: RateLimit| l@);
        }
        self.limits.push(limit);
    }

    /// Merges reported limits into the accumulated set; nothing already
    /// recorded is dropped or weakened.
    pub fn merge(&mut self, other: RateLimits)
        ensures
            final(self)@ == old(self)@ + other@,
    {
        let ghost incoming = other@;
        let mut other = other;
        self.limits.append(&mut other.limits);
        proof {
            assert(self@ =~= old(self)@ + incoming);
        }
    }

    /// Drops every entry that has expired at `now`; active entries stay.
    pub fn clean_expired(&mut self, now: u64)
        ensures
            final(self)@ == old(self)@.filter(|l: RateLimitView| limit_active(l, now as int)),
    {
        let ghost pred = |l: RateLimitView| limit_active(l, now as int);
        let mut kept: Vec<RateLimit> = Vec::new();
        let mut i: usize = 0;
        while i < self.limits.len()
            invariant
                0 <= i <= self.limits@.len(),
                self@ == old(self)@,
                self.limits@ == old(self).limits@,
                kept@.map_values(|l: RateLimit| l@) == self@.take(i as int).filter(pred),
                pred == (|l: RateLimitView| limit_active(l, now as int)),
            decreases self.limits@.len() - i,
        {
            let ghost prefix = self@.take(i as int);
            let ghost lv = self.limits@[i as int]@;
            proof {
                assert(self@.take(i as int + 1) =~= prefix.push(lv));
                lemma_filter_push(prefix, lv, pred);
            }
            if now < self.limits[i].retry_until {
                let c = self.limits[i].clone();
                proof {
                    lemma_map_push(kept@, c, |l: RateLimit| l@);
                }
                kept.push(c);
            }
            i = i + 1;
        }
        proof {
            assert(self@.take(self.limits@.len() as int) =~= self@);
        }
        self.limits = kept;
    }

    /// The limits that currently apply to one identity and category: one
    /// limit for each rejecting quota, plus every stored entry that is
    /// active and matches. The result is non-empty exactly when the item is
    /// limited.
    pub fn check_with_quotas(
        &self,
        quotas: &[Quota],
        scoping: &Scoping,
        category: DataCategory,
        now: u64,
    ) -> (r: RateLimits)
        ensures
            r@ == applicable_limits(quota_views(quotas@), self@, scoping@, category, now as int),
            (r@.len() > 0) == item_limited(
                quota_views(quotas@),
                self@,
                scoping@,
                category,
                now as int,
            ),
    {
        let ghost qviews = quota_views(quotas@);
        let ghost qpred = |q: QuotaView| quota_rejects(q, scoping@, category);
        let ghost qmap = |q: QuotaView| limit_from_quota(q, scoping@);
        let ghost lpred = |l: RateLimitView| limit_matches(l, scoping@, category, now as int);

        let mut out: Vec<RateLimit> = Vec::new();
        let mut i: usize = 0;
        while i < quotas.len()
            invariant
                0 <= i <= quotas@.len(),
                qviews == quota_views(quotas@),
                qpred == (|q: QuotaView| quota_rejects(q, scoping@, category)),
                qmap == (|q: QuotaView| limit_from_quota(q, scoping@)),
                out@.map_values(|l: RateLimit| l@) == qviews.take(i as int).filter(qpred)
                    .map_values(qmap),
                (out@.len() > 0) == (exists|j: int| 0 <= j < i && qpred(qviews[j])),
            decreases quotas@.len() - i,
        {
            let ghost prefix = qviews.take(i as int);
            let ghost qv = quotas@[i as int]@;
            proof {
                assert(qviews[i as int] == qv);
                assert(qviews.take(i as int + 1) =~= prefix.push(qv));
                lemma_filter_push(prefix, qv, qpred);
                if qpred(qv) {
                    lemma_map_push(prefix.filter(qpred), qv, qmap);
                }
            }
            let q = &quotas[i];
            let is_zero = match q.limit {
                Some(l) => l == 0,
                None => false,
            };
            if is_zero && quota_matches_exec(q, scoping, category) {
                let l = make_limit(q, scoping);
                proof {
                    lemma_map_push(out@, l, |x: RateLimit| x@);
                }
                out.push(l);
            }
            i = i + 1;
        }
        proof {
            assert(qviews.take(qviews.len() as int) =~= qviews);
        }

        let ghost quota_part = qviews.filter(qpred).map_values(qmap);
        let mut j: usize = 0;
        while j < self.limits.len()
            invariant
                0 <= j <= self.limits@.len(),
                qviews == quota_views(quotas@),
                qpred == (|q: QuotaView| quota_rejects(q, scoping@, category)),
                qmap == (|q: QuotaView| limit_from_quota(q, scoping@)),
                lpred == (|l: RateLimitView| limit_matches(l, scoping@, category, now as int)),
                quota_part == qviews.filter(qpred).map_values(qmap),
                (quota_part.len() > 0) == (exists|k: int|
                    0 <= k < qviews.len() && qpred(qviews[k])),
                out@.map_values(|l: RateLimit| l@) == quota_part + self@.take(j as int).filter(
                    lpred,
                ),
                (out@.len() > 0) == (quota_part.len() > 0 || exists|k: int|
                    0 <= k < j && lpred(self@[k])),
            decreases self.limits@.len() - j,
        {
            let ghost prefix = self@.take(j as int);
            let ghost lv = self.limits@[j as int]@;
            proof {
                assert(self@[j as int] == lv);
                assert(self@.take(j as int + 1) =~= prefix.push(lv));
                lemma_filter_push(prefix, lv, lpred);
            }
            let l = &self.limits[j];
            if now < l.retry_until && limit_scope_matches_exec(&l.scope, scoping)
                && category_matches_exec(&l.categories, category) {
                let c = l.clone();
                proof {
                    lemma_map_push(out@, c, |x: RateLimit| x@);
                }
                out.push(c);
            }
            j = j + 1;
        }
        proof {
            assert(self@.take(self@.len() as int) =~= self@);
        }
        RateLimits { limits: out }
    }
}

/// Whether a category list covers a category.
fn category_matches_exec(categories: &Vec<DataCategory>, category: DataCategory) -> (r: bool)
    ensures
        r == category_matches(categories@, category),
{
    if categories.len() == 0 {
        return true;
    }
    let mut i: usize = 0;
    while i < categories.len()
        invariant
            0 <= i <= categories@.len(),
            forall|j: int| 0 <= j < i ==> categories@[j] != category,
        decreases categories@.len() - i,
    {
        if categories[i] == category {
            proof {
                assert(categories@[i as int] == category);
            }
            return true;
        }
        i = i + 1;
    }
    false
}

/// Whether a quota applies to a request identity and category.
fn quota_matches_exec(q: &Quota, scoping: &Scoping, category: DataCategory) -> (r:
    bool)
    ensures
        r == quota_matches(q@, scoping@, category),
{
    if !category_matches_exec(&q.categories, category) {
        return false;
    }
    match q.scope_id {
        None => true,
        Some(id) => match q.scope {
            QuotaScope::Organization => scoping.organization_id == id,
            QuotaScope::Project => scoping.project_id.0 == id,
            QuotaScope::Key => match scoping.key_id {
                Some(k) => k == id,
                None => false,
            },
        },
    }
}

/// Whether a limit's scope instance covers a request identity.
fn limit_scope_matches_exec(scope: &RateLimitScope, scoping: &Scoping) -> (r: bool)
    ensures
        r == limit_scope_matches(scope@, scoping@),
{
    match scope {
        RateLimitScope::Organization(o) => *o == scoping.organization_id,
        RateLimitScope::Project(p) => p.0 == scoping.project_id.0,
        RateLimitScope::Key(k) => *k == scoping.public_key,
    }
}

/// The rate limit a rejecting quota turns into for one request identity.
fn make_limit(q: &Quota, scoping: &Scoping) -> (r: RateLimit)
    ensures
        r@ == limit_from_quota(q@, scoping@),
{
    RateLimit {
        categories: clone_categories(&q.categories),
        scope: match q.scope {
            QuotaScope::Organization => RateLimitScope::Organization(scoping.organization_id),
            QuotaScope::Project => RateLimitScope::Project(scoping.project_id),
            QuotaScope::Key => RateLimitScope::Key(scoping.public_key.clone()),
        },
        retry_until: REJECT_RETRY_UNTIL,
    }
}

} // verus!
