//! Request batches: the metadata a request carries and the items it asks to
//! have admitted, together with the limiter that strips items over quota.

use crate::quotas::{
    applicable_limits, item_limited, quota_views, Quota, RateLimitView, RateLimits,
};
use crate::scoping::{DataCategory, ProjectId, Scoping, ScopingView};
use vstd::prelude::*;

verus! {

/// Request metadata as handed in by the surrounding server: the project
/// addressed, the public key the request authenticates with, and the origin
/// header if one was sent.
#[derive(Debug)]
pub struct RequestMeta {
    /// The project the request addresses.
    pub project_id: ProjectId,
    /// The public key the request authenticates with.
    pub public_key: String,
    /// The origin header, if the request carried one.
    pub origin: Option<String>,
}

/// The mathematical content of a `RequestMeta`.
pub struct RequestMetaView {
    /// The project the request addresses.
    pub project_id: ProjectId,
    /// The public key the request authenticates with.
    pub public_key: Seq<char>,
    /// The origin header, if the request carried one.
    pub origin: Option<Seq<char>>,
}

impl View for RequestMeta {
    type V = RequestMetaView;

    open spec fn view(&self) -> RequestMetaView {
        RequestMetaView {
            project_id: self.project_id,
            public_key: self.public_key@,
            origin: match self.origin {
                Some(o) => Some(o@),
                None => None,
            },
        }
    }
}

/// The scoping known from the request alone: the organization id and the
/// numeric key id are unknown until a snapshot supplies them.
pub open spec fn partial_scoping(m: RequestMetaView) -> ScopingView {
    ScopingView {
        organization_id: 0,
        project_id: m.project_id,
        public_key: m.public_key,
        key_id: None,
    }
}

impl RequestMeta {
    /// The scoping derivable from the request alone; organization id `0`
    /// and no key id until a snapshot fills them in.
    pub fn get_partial_scoping(&self) -> (r: Scoping)
        ensures
            r@ == partial_scoping(self@),
    {
        Scoping {
            organization_id: 0,
            project_id: self.project_id,
            public_key: self.public_key.clone(),
            key_id: None,
        }
    }
}

/// One item of a request batch.
#[derive(Clone, Copy, Debug, PartialEq, Eq, Structural)]
pub struct Item {
    /// The category of data the item carries.
    pub category: DataCategory,
}

/// A request batch: metadata plus the items to be admitted.
#[derive(Debug)]
pub struct Envelope {
    /// The request metadata.
    pub meta: RequestMeta,
    /// The items of the batch.
    pub items: Vec<Item>,
}

/// The mathematical content of an `Envelope`.
pub struct EnvelopeView {
    /// The request metadata.
    pub meta: RequestMetaView,
    /// The items of the batch.
    pub items: Seq<Item>,
}

impl View for Envelope {
    type V = EnvelopeView;

    open spec fn view(&self) -> EnvelopeView {
        EnvelopeView { meta: self.meta@, items: self.items@ }
    }
}

impl Envelope {
    /// An empty batch under the given metadata.
    pub fn new(meta: RequestMeta) -> (r: Envelope)
        ensures
            r@.meta == meta@,
            r@.items.len() == 0,
    {
        Envelope { meta, items: Vec::new() }
    }

    /// The request metadata.
    pub fn meta(&self) -> (r: &RequestMeta)
        ensures
            r@ == self@.meta,
    {
        &self.meta
    }

    /// Appends one item to the batch.
    pub fn add_item(&mut self, item: Item)
        ensures
            final(self)@.meta == old(self)@.meta,
            final(self)@.items == old(self)@.items.push(item),
    {
        self.items.push(item);
    }
}

/// The limits reported while enforcing a batch: for every removed item, the
/// limits that applied to it, in batch order.
pub open spec fn triggered_limits(
    items: Seq<Item>,
    quotas: Seq<crate::quotas::QuotaView>,
    limits: Seq<RateLimitView>,
    scoping: ScopingView,
    now: int,
) -> Seq<RateLimitView>
    decreases items.len(),
{
    if items.len() == 0 {
        Seq::empty()
    } else {
        triggered_limits(items.drop_last(), quotas, limits, scoping, now) + (if item_limited(
            quotas,
            limits,
            scoping,
            items.last().category,
            now,
        ) {
            applicable_limits(quotas, limits, scoping, items.last().category, now)
        } else {
            Seq::empty()
        })
    }
}

/// Enforces quotas and accumulated rate limits on a batch: every item whose
/// category is over quota or rate limited for this scoping is removed, and
/// the limits that caused removals are returned.
pub fn enforce_limits(
    envelope: &mut Envelope,
    scoping: &Scoping,
    quotas: &[Quota],
    limits: &RateLimits,
    now: u64,
) -> (r: RateLimits)
    ensures
        final(envelope)@.meta == old(envelope)@.meta,
        final(envelope)@.items == old(envelope)@.items.filter(
            |it: Item|
                !item_limited(quota_views(quotas@), limits@, scoping@, it.category, now as int),
        ),
        r@ == triggered_limits(
            old(envelope)@.items,
            quota_views(quotas@),
            limits@,
            scoping@,
            now as int,
        ),
{
    let ghost qv = quota_views(quotas@);
    let ghost keep_pred = |it: Item| !item_limited(qv, limits@, scoping@, it.category, now as int);
    let mut kept: Vec<Item> = Vec::new();
    let mut triggered = RateLimits::new();
    let mut i: usize = 0;
    while i < envelope.items.len()
        invariant
            0 <= i <= envelope.items@.len(),
            envelope@ == old(envelope)@,
            qv == quota_views(quotas@),
            keep_pred == (|it: Item|
                !item_limited(qv, limits@, scoping@, it.category, now as int)),
            kept@ == envelope.items@.take(i as int).filter(keep_pred),
            triggered@ == triggered_limits(
                envelope.items@.take(i as int),
                qv,
                limits@,
                scoping@,
                now as int,
            ),
        decreases envelope.items@.len() - i,
    {
        let ghost prefix = envelope.items@.take(i as int);
        let ghost it = envelope.items@[i as int];
        proof {
            assert(envelope.items@.take(i as int + 1) =~= prefix.push(it));
            crate::quotas::lemma_filter_push(prefix, it, keep_pred);
            assert(prefix.push(it).drop_last() =~= prefix);
        }
        let item = envelope.items[i];
        let item_limits = limits.check_with_quotas(quotas, scoping, item.category, now);
        if item_limits.is_empty() {
            kept.push(item);
        } else {
            triggered.merge(item_limits);
        }
        i = i + 1;
    }
    proof {
        assert(envelope.items@.take(envelope.items@.len() as int) =~= envelope.items@);
    }
    envelope.items = kept;
    triggered
}

} // verus!
