//! Tests for the per-project cache entry: single-flight fetch
//! coordination, snapshot replacement, and quota/rate-limit enforcement.

use project_cache::config::{Config, RelayMode};
use project_cache::envelope::{Envelope, Item, RequestMeta};
use project_cache::project::{
    CheckEnvelope, FetchResponse, GetOrFetchState, Project, UpdateRateLimits,
};
use project_cache::quotas::{
    Quota, QuotaScope, RateLimit, RateLimitScope, RateLimits,
};
use project_cache::scoping::{DataCategory, ProjectId, Scoping};
use project_cache::state::{ProjectConfig, ProjectState, PublicKeyConfig};

fn cache_config() -> Config {
    Config::new(RelayMode::Managed, 300, 60, 60)
}

fn cache_state(last_fetch: u64, quotas: Vec<Quota>) -> ProjectState {
    ProjectState {
        last_fetch,
        last_change: None,
        disabled: false,
        public_keys: vec![PublicKeyConfig {
            public_key: "K".to_string(),
            is_enabled: true,
            numeric_id: Some(7),
            legacy_quotas: Vec::new(),
        }],
        slug: Some("hydra".to_string()),
        config: ProjectConfig {
            quotas,
            ..ProjectConfig::default()
        },
        rev: None,
        organization_id: Some(3),
        invalid: false,
    }
}

fn cache_meta() -> RequestMeta {
    RequestMeta {
        project_id: ProjectId(17),
        public_key: "K".to_string(),
        origin: None,
    }
}

fn cache_envelope() -> Envelope {
    let mut envelope = Envelope::new(cache_meta());
    envelope.add_item(Item { category: DataCategory::Transaction });
    envelope.add_item(Item { category: DataCategory::Attachment });
    envelope.add_item(Item { category: DataCategory::Attachment });
    envelope
}

fn reject_transactions_quota() -> Quota {
    Quota {
        categories: vec![DataCategory::Transaction],
        scope: QuotaScope::Project,
        scope_id: None,
        limit: Some(0),
    }
}

// With last_fetch = 1000, project 17 and window 300: Updated at 1000,
// SoftOutdated at 1217, HardOutdated from 1277 on.

#[test]
fn burst_of_requests_starts_exactly_one_fetch() {
    let mut project = Project::new(ProjectId(17), cache_config());
    let mut started = 0;
    for _ in 0..5 {
        let (response, start) = project.get_or_fetch_state(1000);
        assert!(matches!(response, GetOrFetchState::Pending));
        if start {
            started += 1;
        }
    }
    assert_eq!(started, 1);
}

#[test]
fn completed_fetch_serves_from_cache_without_fetching() {
    let mut project = Project::new(ProjectId(17), cache_config());
    let (_, start) = project.get_or_fetch_state(1000);
    assert!(start);
    project.complete_fetch(Some(FetchResponse {
        state: cache_state(1000, Vec::new()),
        is_local: false,
    }));
    let (response, start) = project.get_or_fetch_state(1001);
    assert!(!start);
    match response {
        GetOrFetchState::Cached(state) => assert_eq!(state.last_fetch, 1000),
        _ => panic!("expected a cached snapshot"),
    }
}

#[test]
fn soft_outdated_snapshot_is_served_while_a_refresh_starts() {
    let mut project = Project::new(ProjectId(17), cache_config());
    project.complete_fetch(Some(FetchResponse {
        state: cache_state(1000, Vec::new()),
        is_local: false,
    }));
    let (response, start) = project.get_or_fetch_state(1220);
    assert!(start, "a background refresh must start");
    match response {
        GetOrFetchState::CachedRefresh(state) => assert_eq!(state.last_fetch, 1000),
        _ => panic!("expected the stale snapshot to be served"),
    }
    let (response, start) = project.get_or_fetch_state(1220);
    assert!(!start, "the second request joins the running refresh");
    assert!(matches!(response, GetOrFetchState::CachedRefresh(_)));
}

#[test]
fn hard_outdated_snapshot_makes_callers_wait() {
    let mut project = Project::new(ProjectId(17), cache_config());
    project.complete_fetch(Some(FetchResponse {
        state: cache_state(1000, Vec::new()),
        is_local: false,
    }));
    let (response, start) = project.get_or_fetch_state(5000);
    assert!(start);
    assert!(matches!(response, GetOrFetchState::Pending));
}

#[test]
fn failed_fetch_keeps_the_previous_snapshot() {
    let mut project = Project::new(ProjectId(17), cache_config());
    project.complete_fetch(Some(FetchResponse {
        state: cache_state(1000, Vec::new()),
        is_local: false,
    }));
    let (_, start) = project.get_or_fetch_state(5000);
    assert!(start);
    project.complete_fetch(None);
    let state = project.state().expect("previous snapshot must survive a failed fetch");
    assert_eq!(state.last_fetch, 1000);
    // the in-flight marker is cleared, so the next request may fetch again
    let (_, start) = project.get_or_fetch_state(5000);
    assert!(start);
}

#[test]
fn local_state_always_defers_to_the_loader() {
    let mut project = Project::new(ProjectId(17), cache_config());
    project.complete_fetch(Some(FetchResponse {
        state: cache_state(1000, Vec::new()),
        is_local: true,
    }));
    let (response, start) = project.get_or_fetch_state(1001);
    assert!(start);
    assert!(matches!(response, GetOrFetchState::Pending));
}

#[test]
fn scoping_is_amended_from_the_snapshot() {
    let mut project = Project::new(ProjectId(17), cache_config());
    let partial: Scoping = project.get_scoping(&cache_meta());
    assert_eq!(partial.organization_id, 0);
    assert_eq!(partial.key_id, None);
    project.complete_fetch(Some(FetchResponse {
        state: cache_state(1000, Vec::new()),
        is_local: false,
    }));
    let scoping = project.get_scoping(&cache_meta());
    assert_eq!(scoping.organization_id, 3);
    assert_eq!(scoping.project_id, ProjectId(17));
    assert_eq!(scoping.public_key, "K".to_string());
    assert_eq!(scoping.key_id, Some(7));
}

#[test]
fn rejecting_quota_strips_matching_items() {
    let mut project = Project::new(ProjectId(17), cache_config());
    project.complete_fetch(Some(FetchResponse {
        state: cache_state(1000, vec![reject_transactions_quota()]),
        is_local: false,
    }));
    let response = project.check_envelope_scoped(CheckEnvelope::cached(cache_envelope()), 1000);
    let checked = response.result.expect("the request itself is admitted");
    let categories: Vec<DataCategory> =
        checked.envelope.items.iter().map(|item| item.category).collect();
    assert_eq!(categories, vec![DataCategory::Attachment, DataCategory::Attachment]);
    let limits = checked.rate_limits.limits();
    assert_eq!(limits.len(), 1);
    assert!(matches!(limits[0].scope, RateLimitScope::Project(ProjectId(17))));
    assert_eq!(limits[0].categories, vec![DataCategory::Transaction]);
}

#[test]
fn without_matching_quota_all_items_pass() {
    let mut project = Project::new(ProjectId(17), cache_config());
    project.complete_fetch(Some(FetchResponse {
        state: cache_state(1000, Vec::new()),
        is_local: false,
    }));
    let response = project.check_envelope_scoped(CheckEnvelope::cached(cache_envelope()), 1000);
    let checked = response.result.expect("the request is admitted");
    assert_eq!(checked.envelope.items.len(), 3);
    assert!(checked.rate_limits.is_empty());
}

#[test]
fn check_without_snapshot_passes_the_envelope_through() {
    let mut project = Project::new(ProjectId(17), cache_config());
    let response = project.check_envelope_scoped(CheckEnvelope::cached(cache_envelope()), 1000);
    let checked = response.result.expect("nothing rejects without a snapshot");
    assert_eq!(checked.envelope.items.len(), 3);
    assert!(checked.rate_limits.is_empty());
}

#[test]
fn reported_rate_limits_strip_items_until_they_expire() {
    let mut project = Project::new(ProjectId(17), cache_config());
    project.complete_fetch(Some(FetchResponse {
        state: cache_state(1000, Vec::new()),
        is_local: false,
    }));
    let mut reported = RateLimits::new();
    reported.add(RateLimit {
        categories: vec![DataCategory::Attachment],
        scope: RateLimitScope::Organization(3),
        retry_until: 1100,
    });
    project.update_rate_limits(UpdateRateLimits(reported));

    // while the limit is active, attachments are removed
    let response = project.check_envelope_scoped(CheckEnvelope::cached(cache_envelope()), 1050);
    let checked = response.result.expect("the request is admitted");
    assert_eq!(checked.envelope.items.len(), 1);
    assert_eq!(checked.rate_limits.len(), 2);

    // at its expiry instant the limit no longer applies
    let response = project.check_envelope_scoped(CheckEnvelope::cached(cache_envelope()), 1100);
    let checked = response.result.expect("the request is admitted");
    assert_eq!(checked.envelope.items.len(), 3);
    assert!(checked.rate_limits.is_empty());
}

#[test]
fn checking_twice_returns_the_same_outcome() {
    let mut project = Project::new(ProjectId(17), cache_config());
    project.complete_fetch(Some(FetchResponse {
        state: cache_state(1000, vec![reject_transactions_quota()]),
        is_local: false,
    }));
    let first = project.check_envelope_scoped(CheckEnvelope::cached(cache_envelope()), 1000);
    let second = project.check_envelope_scoped(CheckEnvelope::cached(cache_envelope()), 1000);
    let first = first.result.expect("admitted");
    let second = second.result.expect("admitted");
    let first_cats: Vec<DataCategory> =
        first.envelope.items.iter().map(|item| item.category).collect();
    let second_cats: Vec<DataCategory> =
        second.envelope.items.iter().map(|item| item.category).collect();
    assert_eq!(first_cats, second_cats);
    assert_eq!(first.rate_limits.len(), second.rate_limits.len());
}

#[test]
fn rejected_request_leaves_the_envelope_checked_as_error() {
    let mut project = Project::new(ProjectId(17), cache_config());
    let mut state = cache_state(1000, Vec::new());
    state.disabled = true;
    project.complete_fetch(Some(FetchResponse { state, is_local: false }));
    let response = project.check_envelope_scoped(CheckEnvelope::cached(cache_envelope()), 1000);
    assert!(response.result.is_err());
}

#[test]
fn fetched_and_cached_messages_differ_only_in_the_fetch_flag() {
    assert!(CheckEnvelope::fetched(cache_envelope()).fetch());
    assert!(!CheckEnvelope::cached(cache_envelope()).fetch());
}

#[test]
fn rate_limits_expire_on_cleaning() {
    let mut limits = RateLimits::new();
    limits.add(RateLimit {
        categories: Vec::new(),
        scope: RateLimitScope::Key("K".to_string()),
        retry_until: 100,
    });
    limits.add(RateLimit {
        categories: Vec::new(),
        scope: RateLimitScope::Organization(1),
        retry_until: 200,
    });
    limits.clean_expired(50);
    assert_eq!(limits.len(), 2);
    limits.clean_expired(100);
    assert_eq!(limits.len(), 1);
    limits.clean_expired(200);
    assert!(limits.is_empty());
}

#[test]
fn merging_keeps_limits_from_both_sides() {
    let mut accumulated = RateLimits::new();
    accumulated.add(RateLimit {
        categories: Vec::new(),
        scope: RateLimitScope::Organization(1),
        retry_until: 100,
    });
    let mut reported = RateLimits::new();
    reported.add(RateLimit {
        categories: Vec::new(),
        scope: RateLimitScope::Project(ProjectId(17)),
        retry_until: 300,
    });
    accumulated.merge(reported);
    assert_eq!(accumulated.len(), 2);
}

#[test]
fn project_quotas_hide_legacy_key_quotas() {
    let legacy = Quota {
        categories: Vec::new(),
        scope: QuotaScope::Key,
        scope_id: None,
        limit: Some(0),
    };
    let mut state = cache_state(1000, vec![reject_transactions_quota()]);
    state.public_keys[0].legacy_quotas = vec![legacy];
    // with project quotas present, only they apply
    let quotas = state.get_quotas("K");
    assert_eq!(quotas.len(), 1);
    assert_eq!(quotas[0].scope, QuotaScope::Project);
    // without project quotas, the key's legacy quotas apply
    state.config.quotas = Vec::new();
    let quotas = state.get_quotas("K");
    assert_eq!(quotas.len(), 1);
    assert_eq!(quotas[0].scope, QuotaScope::Key);
    // an unknown key has no quotas at all
    assert_eq!(state.get_quotas("other").len(), 0);
}

#[test]
fn legacy_quota_of_the_key_strips_items_when_project_has_none() {
    let legacy = Quota {
        categories: Vec::new(),
        scope: QuotaScope::Key,
        scope_id: Some(7),
        limit: Some(0),
    };
    let mut state = cache_state(1000, Vec::new());
    state.public_keys[0].legacy_quotas = vec![legacy];
    let mut project = Project::new(ProjectId(17), cache_config());
    project.complete_fetch(Some(FetchResponse { state, is_local: false }));
    let response = project.check_envelope_scoped(CheckEnvelope::cached(cache_envelope()), 1000);
    let checked = response.result.expect("the request is admitted");
    assert_eq!(checked.envelope.items.len(), 0);
    let limits = checked.rate_limits.limits();
    assert!(!limits.is_empty());
    assert!(matches!(limits[0].scope, RateLimitScope::Key(_)));
}

#[test]
fn unlimited_quota_does_not_reject() {
    let counted = Quota {
        categories: Vec::new(),
        scope: QuotaScope::Organization,
        scope_id: None,
        limit: Some(1000),
    };
    let mut project = Project::new(ProjectId(17), cache_config());
    project.complete_fetch(Some(FetchResponse {
        state: cache_state(1000, vec![counted]),
        is_local: false,
    }));
    let response = project.check_envelope_scoped(CheckEnvelope::cached(cache_envelope()), 1000);
    let checked = response.result.expect("the request is admitted");
    assert_eq!(checked.envelope.items.len(), 3);
}
