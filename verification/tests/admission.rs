//! Tests for the admission policy: origin validation, key status, and the
//! staleness-dependent handling of unknown keys.

use project_cache::config::{Config, RelayMode};
use project_cache::envelope::RequestMeta;
use project_cache::scoping::ProjectId;
use project_cache::state::{
    DiscardReason, ProjectConfig, ProjectState, PublicKeyConfig, PublicKeyStatus,
};

fn adm_key(key: &str, enabled: bool) -> PublicKeyConfig {
    PublicKeyConfig {
        public_key: key.to_string(),
        is_enabled: enabled,
        numeric_id: Some(7),
        legacy_quotas: Vec::new(),
    }
}

fn adm_state(keys: Vec<PublicKeyConfig>) -> ProjectState {
    ProjectState {
        last_fetch: 1000,
        last_change: None,
        disabled: false,
        public_keys: keys,
        slug: Some("hydra".to_string()),
        config: ProjectConfig::default(),
        rev: None,
        organization_id: Some(3),
        invalid: false,
    }
}

fn adm_meta(key: &str, origin: Option<&str>) -> RequestMeta {
    RequestMeta {
        project_id: ProjectId(17),
        public_key: key.to_string(),
        origin: origin.map(|o| o.to_string()),
    }
}

fn adm_config(mode: RelayMode) -> Config {
    Config::new(mode, 300, 60, 60)
}

// With last_fetch = 1000, project 17 and window 300, the snapshot is
// `Updated` at now = 1000 and `HardOutdated` from 1277 on.
const FRESH: u64 = 1000;
const STALE: u64 = 5000;

#[test]
fn enabled_key_fresh_snapshot_no_origin_is_accepted() {
    let state = adm_state(vec![adm_key("K", true)]);
    let config = adm_config(RelayMode::Managed);
    let meta = adm_meta("K", None);
    assert_eq!(state.check_request(ProjectId(17), &meta, &config, FRESH), Ok(()));
}

#[test]
fn invalid_snapshot_rejects_even_enabled_keys() {
    let mut state = adm_state(vec![adm_key("K", true)]);
    state.invalid = true;
    let config = adm_config(RelayMode::Managed);
    let meta = adm_meta("K", None);
    assert_eq!(
        state.check_request(ProjectId(17), &meta, &config, FRESH),
        Err(DiscardReason::ProjectState)
    );
}

#[test]
fn invalid_snapshot_rejects_unknown_keys_with_state_reason() {
    let mut state = adm_state(vec![]);
    state.invalid = true;
    let config = adm_config(RelayMode::Managed);
    let meta = adm_meta("K", None);
    assert_eq!(
        state.check_request(ProjectId(17), &meta, &config, FRESH),
        Err(DiscardReason::ProjectState)
    );
}

#[test]
fn disabled_project_rejects_with_project_id() {
    let mut state = adm_state(vec![adm_key("K", true)]);
    state.disabled = true;
    let config = adm_config(RelayMode::Managed);
    let meta = adm_meta("K", None);
    assert_eq!(
        state.check_request(ProjectId(17), &meta, &config, FRESH),
        Err(DiscardReason::ProjectId)
    );
}

#[test]
fn unknown_key_on_hard_outdated_snapshot_is_accepted() {
    let state = adm_state(vec![]);
    let config = adm_config(RelayMode::Managed);
    let meta = adm_meta("K", None);
    assert_eq!(state.check_request(ProjectId(17), &meta, &config, STALE), Ok(()));
}

#[test]
fn disabled_key_on_hard_outdated_snapshot_still_rejects() {
    let state = adm_state(vec![adm_key("K", false)]);
    let config = adm_config(RelayMode::Managed);
    let meta = adm_meta("K", None);
    assert_eq!(
        state.check_request(ProjectId(17), &meta, &config, STALE),
        Err(DiscardReason::ProjectId)
    );
}

#[test]
fn hard_outdated_snapshot_skips_the_invalid_and_disabled_checks() {
    let mut state = adm_state(vec![adm_key("K", true)]);
    state.invalid = true;
    state.disabled = true;
    let config = adm_config(RelayMode::Managed);
    let meta = adm_meta("K", None);
    assert_eq!(state.check_request(ProjectId(17), &meta, &config, STALE), Ok(()));
}

#[test]
fn unknown_key_fresh_snapshot_rejects_in_strict_mode() {
    let state = adm_state(vec![]);
    let config = adm_config(RelayMode::Managed);
    let meta = adm_meta("K", None);
    assert_eq!(
        state.check_request(ProjectId(17), &meta, &config, FRESH),
        Err(DiscardReason::ProjectId)
    );
}

#[test]
fn unknown_key_fresh_snapshot_passes_in_proxy_mode() {
    let state = adm_state(vec![]);
    let config = adm_config(RelayMode::Proxy);
    let meta = adm_meta("K", None);
    assert_eq!(state.check_request(ProjectId(17), &meta, &config, FRESH), Ok(()));
}

#[test]
fn disabled_key_fresh_snapshot_rejects_even_in_proxy_mode() {
    let state = adm_state(vec![adm_key("K", false)]);
    let config = adm_config(RelayMode::Proxy);
    let meta = adm_meta("K", None);
    assert_eq!(
        state.check_request(ProjectId(17), &meta, &config, FRESH),
        Err(DiscardReason::ProjectId)
    );
}

#[test]
fn matching_origin_is_accepted() {
    let mut state = adm_state(vec![adm_key("K", true)]);
    state.config.allowed_domains = vec!["example.com".to_string()];
    let config = adm_config(RelayMode::Managed);
    let meta = adm_meta("K", Some("https://example.com"));
    assert_eq!(state.check_request(ProjectId(17), &meta, &config, FRESH), Ok(()));
}

#[test]
fn non_matching_origin_rejects_with_cors() {
    let mut state = adm_state(vec![adm_key("K", true)]);
    state.config.allowed_domains = vec!["example.com".to_string()];
    let config = adm_config(RelayMode::Managed);
    let meta = adm_meta("K", Some("https://evil.com"));
    assert_eq!(
        state.check_request(ProjectId(17), &meta, &config, FRESH),
        Err(DiscardReason::Cors)
    );
}

#[test]
fn empty_allow_list_rejects_every_origin() {
    let mut state = adm_state(vec![adm_key("K", true)]);
    state.config.allowed_domains = Vec::new();
    let config = adm_config(RelayMode::Managed);
    let meta = adm_meta("K", Some("https://example.com"));
    assert_eq!(
        state.check_request(ProjectId(17), &meta, &config, FRESH),
        Err(DiscardReason::Cors)
    );
}

#[test]
fn absent_origin_passes_regardless_of_allow_list() {
    let mut state = adm_state(vec![adm_key("K", true)]);
    state.config.allowed_domains = Vec::new();
    let config = adm_config(RelayMode::Managed);
    let meta = adm_meta("K", None);
    assert_eq!(state.check_request(ProjectId(17), &meta, &config, FRESH), Ok(()));
}

#[test]
fn origin_check_runs_before_staleness_handling() {
    let mut state = adm_state(vec![adm_key("K", true)]);
    state.config.allowed_domains = vec!["example.com".to_string()];
    let config = adm_config(RelayMode::Managed);
    let meta = adm_meta("K", Some("https://evil.com"));
    assert_eq!(
        state.check_request(ProjectId(17), &meta, &config, STALE),
        Err(DiscardReason::Cors)
    );
}

#[test]
fn origin_wildcard_accepts_everything() {
    let state = adm_state(vec![adm_key("K", true)]);
    assert!(state.is_valid_origin(Some(&"https://anything.example".to_string())));
}

#[test]
fn origin_pattern_with_scheme_pins_the_scheme() {
    let mut state = adm_state(vec![]);
    state.config.allowed_domains = vec!["https://example.com".to_string()];
    assert!(state.is_valid_origin(Some(&"https://example.com".to_string())));
    assert!(!state.is_valid_origin(Some(&"http://example.com".to_string())));
}

#[test]
fn origin_pattern_with_port_pins_the_port() {
    let mut state = adm_state(vec![]);
    state.config.allowed_domains = vec!["example.com:443".to_string()];
    assert!(state.is_valid_origin(Some(&"https://example.com:443".to_string())));
    assert!(!state.is_valid_origin(Some(&"https://example.com".to_string())));
}

#[test]
fn origin_matching_ignores_ascii_case() {
    let mut state = adm_state(vec![]);
    state.config.allowed_domains = vec!["Example.COM".to_string()];
    assert!(state.is_valid_origin(Some(&"https://example.com".to_string())));
}

#[test]
fn origin_scheme_wildcard_with_pinned_domain() {
    let mut state = adm_state(vec![]);
    state.config.allowed_domains = vec!["*://example.com".to_string()];
    assert!(state.is_valid_origin(Some(&"ftp://example.com".to_string())));
    assert!(!state.is_valid_origin(Some(&"ftp://other.com".to_string())));
}

#[test]
fn key_status_reflects_the_snapshot() {
    let state = adm_state(vec![adm_key("on", true), adm_key("off", false)]);
    assert_eq!(state.get_public_key_status("on"), PublicKeyStatus::Enabled);
    assert_eq!(state.get_public_key_status("off"), PublicKeyStatus::Disabled);
    assert_eq!(state.get_public_key_status("gone"), PublicKeyStatus::Unknown);
}

#[test]
fn key_lookup_returns_the_first_match() {
    let state = adm_state(vec![adm_key("K", true)]);
    let config = state.get_public_key_config("K").expect("key K is configured");
    assert_eq!(config.numeric_id, Some(7));
    assert!(state.get_public_key_config("other").is_none());
}

#[test]
fn missing_state_is_disabled_and_valid() {
    let state = ProjectState::missing();
    assert!(state.disabled());
    assert!(!state.invalid());
    assert!(state.public_keys.is_empty());
    assert!(state.slug.is_none());
    assert_eq!(state.config.allowed_domains, vec!["*".to_string()]);
}

#[test]
fn allowed_state_is_enabled() {
    let state = ProjectState::allowed();
    assert!(!state.disabled());
    assert!(!state.invalid());
}

#[test]
fn err_state_is_invalid() {
    let state = ProjectState::err();
    assert!(state.disabled());
    assert!(state.invalid());
}
