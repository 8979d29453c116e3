//! The cached project state and the admission policy applied against it.

use crate::clock::unix_now;
use crate::config::{Config, RelayMode};
use crate::envelope::{RequestMeta, RequestMetaView};
use crate::origin::{
    matches_any_origin, origin_allowed, pattern_allows, sdp_matches, spec_parse, str_eq,
    SchemeDomainPort,
};
use crate::quotas::{lemma_map_push, quota_views, Quota, QuotaView};
use crate::scoping::{ProjectId, Scoping, ScopingView};
use crate::staleness::{classify, classify_at, Outdated};
use vstd::prelude::*;

verus! {

/// The status of a public key within a snapshot.
#[derive(Debug, Clone, Copy, PartialEq, Eq, Hash, Structural)]
pub enum PublicKeyStatus {
    /// The key does not occur in the snapshot. It may not exist, or it may
    /// have been created after the snapshot was fetched; the two cases
    /// cannot be told apart, and the admission policy resolves the
    /// ambiguity through the freshness verdict.
    Unknown,
    /// The key is known and disabled.
    Disabled,
    /// The key is known and enabled.
    Enabled,
}

/// Why a request was rejected.
#[derive(Debug, Clone, Copy, PartialEq, Eq, Hash, Structural)]
pub enum DiscardReason {
    /// The origin header did not pass the project's allow-list.
    Cors,
    /// The project or the public key is disabled or unknown.
    ProjectId,
    /// The cached snapshot could not be parsed or validated upstream.
    ProjectState,
}

/// Configuration of one public key of a project.
#[derive(Debug)]
pub struct PublicKeyConfig {
    /// The public part of the key.
    pub public_key: String,
    /// Whether the key may be used.
    pub is_enabled: bool,
    /// The numeric id of the key, where known.
    pub numeric_id: Option<u64>,
    /// Per-key quotas from older upstream servers; consulted only when the
    /// project defines no quotas of its own.
    pub legacy_quotas: Vec<Quota>,
}

/// The mathematical content of a `PublicKeyConfig`.
#[verifier::ext_equal]
pub struct PublicKeyConfigView {
    /// The public part of the key.
    pub public_key: Seq<char>,
    /// Whether the key may be used.
    pub is_enabled: bool,
    /// The numeric id of the key, where known.
    pub numeric_id: Option<u64>,
    /// Per-key quotas from older upstream servers.
    pub legacy_quotas: Seq<QuotaView>,
}

impl View for PublicKeyConfig {
    type V = PublicKeyConfigView;

    open spec fn view(&self) -> PublicKeyConfigView {
        PublicKeyConfigView {
            public_key: self.public_key@,
            is_enabled: self.is_enabled,
            numeric_id: self.numeric_id,
            legacy_quotas: quota_views(self.legacy_quotas@),
        }
    }
}

/// Copies a quota list; the copy has the same content.
fn clone_quota_vec(v: &Vec<Quota>) -> (r: Vec<Quota>)
    ensures
        quota_views(r@) == quota_views(v@),
{
    let mut r: Vec<Quota> = Vec::new();
    let mut i: usize = 0;
    while i < v.len()
        invariant
            0 <= i <= v@.len(),
            quota_views(r@) == quota_views(v@.take(i as int)),
        decreases v@.len() - i,
    {
        let c = v[i].clone();
        proof {
            lemma_map_push(r@, c, |q: Quota| q@);
            lemma_map_push(v@.take(i as int), v@[i as int], |q: Quota| q@);
            assert(v@.take(i as int + 1) =~= v@.take(i as int).push(v@[i as int]));
        }
        r.push(c);
        i = i + 1;
    }
    proof {
        assert(v@.take(v@.len() as int) =~= v@);
    }
    r
}

/// Copies a string list; the copy holds the same strings.
fn clone_string_vec(v: &Vec<String>) -> (r: Vec<String>)
    ensures
        r@ == v@,
{
    let mut r: Vec<String> = Vec::new();
    let mut i: usize = 0;
    while i < v.len()
        invariant
            0 <= i <= v@.len(),
            r@ == v@.take(i as int),
        decreases v@.len() - i,
    {
        r.push(v[i].clone());
        proof {
            assert(v@.take(i as int + 1) =~= v@.take(i as int).push(v@[i as int]));
        }
        i = i + 1;
    }
    proof {
        assert(v@.take(v@.len() as int) =~= v@);
    }
    r
}

/// Copies an optional string.
fn clone_opt_string(v: &Option<String>) -> (r: Option<String>)
    ensures
        r == v,
{
    match v {
        Some(s) => Some(s.clone()),
        None => None,
    }
}

impl Clone for PublicKeyConfig {
    /// Clones the key configuration; the copy has the same content.
    fn clone(&self) -> (r: Self)
        ensures
            r@ == self@,
    {
        PublicKeyConfig {
            public_key: self.public_key.clone(),
            is_enabled: self.is_enabled,
            numeric_id: self.numeric_id,
            legacy_quotas: clone_quota_vec(&self.legacy_quotas),
        }
    }
}

/// The part of a project's configuration this library acts on. The PII,
/// grouping, filter and scrubbing settings are carried through for the
/// processing pipeline and are opaque here.
#[derive(Debug)]
pub struct ProjectConfig {
    /// Origin patterns permitted for cross-origin requests.
    pub allowed_domains: Vec<String>,
    /// Public keys of relays permitted to access this project.
    pub trusted_relays: Vec<String>,
    /// Serialized PII stripping configuration, carried through opaquely.
    pub pii_config: Option<String>,
    /// Serialized grouping configuration, carried through opaquely.
    pub grouping_config: Option<String>,
    /// Serialized filter rules, carried through opaquely.
    pub filter_settings: Option<String>,
    /// Serialized data scrubbing settings, carried through opaquely.
    pub datascrubbing_settings: Option<String>,
    /// Maximum event retention in days for the organization.
    pub event_retention: Option<u16>,
    /// The project's quotas. When non-empty they take precedence over every
    /// legacy per-key quota.
    pub quotas: Vec<Quota>,
}

/// The mathematical content of a `ProjectConfig`.
#[verifier::ext_equal]
pub struct ProjectConfigView {
    /// Origin patterns permitted for cross-origin requests.
    pub allowed_domains: Seq<Seq<char>>,
    /// Public keys of relays permitted to access this project.
    pub trusted_relays: Seq<Seq<char>>,
    /// Serialized PII stripping configuration.
    pub pii_config: Option<Seq<char>>,
    /// Serialized grouping configuration.
    pub grouping_config: Option<Seq<char>>,
    /// Serialized filter rules.
    pub filter_settings: Option<Seq<char>>,
    /// Serialized data scrubbing settings.
    pub datascrubbing_settings: Option<Seq<char>>,
    /// Maximum event retention in days for the organization.
    pub event_retention: Option<u16>,
    /// The project's quotas.
    pub quotas: Seq<QuotaView>,
}

/// The view of an optional string.
pub open spec fn opt_str_view(v: Option<String>) -> Option<Seq<char>> {
    match v {
        Some(s) => Some(s@),
        None => None,
    }
}

impl View for ProjectConfig {
    type V = ProjectConfigView;

    open spec fn view(&self) -> ProjectConfigView {
        ProjectConfigView {
            allowed_domains: self.allowed_domains@.map_values(|s: String| s@),
            trusted_relays: self.trusted_relays@.map_values(|s: String| s@),
            pii_config: opt_str_view(self.pii_config),
            grouping_config: opt_str_view(self.grouping_config),
            filter_settings: opt_str_view(self.filter_settings),
            datascrubbing_settings: opt_str_view(self.datascrubbing_settings),
            event_retention: self.event_retention,
            quotas: quota_views(self.quotas@),
        }
    }
}

/// The default configuration: every origin allowed, nothing else set.
pub open spec fn default_config() -> ProjectConfigView {
    ProjectConfigView {
        allowed_domains: seq!["*"@],
        trusted_relays: Seq::empty(),
        pii_config: None,
        grouping_config: None,
        filter_settings: None,
        datascrubbing_settings: None,
        event_retention: None,
        quotas: Seq::empty(),
    }
}

impl Default for ProjectConfig {
    /// The default configuration: every origin allowed, nothing else set.
    fn default() -> (r: Self)
        ensures
            r@ == default_config(),
    {
        let r = ProjectConfig {
            allowed_domains: vec!["*".to_owned()],
            trusted_relays: Vec::new(),
            pii_config: None,
            grouping_config: None,
            filter_settings: None,
            datascrubbing_settings: None,
            event_retention: None,
            quotas: Vec::new(),
        };
        proof {
            assert(r@ =~~= default_config());
        }
        r
    }
}

impl Clone for ProjectConfig {
    /// Clones the configuration; the copy has the same content.
    fn clone(&self) -> (r: Self)
        ensures
            r@ == self@,
    {
        ProjectConfig {
            allowed_domains: clone_string_vec(&self.allowed_domains),
            trusted_relays: clone_string_vec(&self.trusted_relays),
            pii_config: clone_opt_string(&self.pii_config),
            grouping_config: clone_opt_string(&self.grouping_config),
            filter_settings: clone_opt_string(&self.filter_settings),
            datascrubbing_settings: clone_opt_string(&self.datascrubbing_settings),
            event_retention: self.event_retention,
            quotas: clone_quota_vec(&self.quotas),
        }
    }
}

/// An immutable snapshot of a project's remote configuration at one point
/// in time. Refreshing a project replaces the whole snapshot; it is never
/// mutated in place.
#[derive(Debug)]
pub struct ProjectState {
    /// Unix time in seconds when the snapshot was fetched.
    pub last_fetch: u64,
    /// Unix time in seconds of the last change upstream, where known.
    pub last_change: Option<u64>,
    /// Whether the whole project is disabled.
    pub disabled: bool,
    /// The known public keys of the project.
    pub public_keys: Vec<PublicKeyConfig>,
    /// The project's slug, if it has been seen upstream. Its presence
    /// selects the cache-hit refresh window over the cache-miss one.
    pub slug: Option<String>,
    /// The project's configuration.
    pub config: ProjectConfig,
    /// The revision id of the snapshot, where known.
    pub rev: Option<String>,
    /// The organization id; absent in responses of older upstream servers.
    pub organization_id: Option<u64>,
    /// Whether the snapshot was fetched but could not be parsed or
    /// validated; such a snapshot rejects requests while it is fresh.
    pub invalid: bool,
}

/// The mathematical content of a `ProjectState`.
#[verifier::ext_equal]
pub struct ProjectStateView {
    /// Unix time in seconds when the snapshot was fetched.
    pub last_fetch: u64,
    /// Unix time in seconds of the last change upstream, where known.
    pub last_change: Option<u64>,
    /// Whether the whole project is disabled.
    pub disabled: bool,
    /// The known public keys of the project.
    pub public_keys: Seq<PublicKeyConfigView>,
    /// The project's slug, if it has been seen upstream.
    pub slug: Option<Seq<char>>,
    /// The project's configuration.
    pub config: ProjectConfigView,
    /// The revision id of the snapshot, where known.
    pub rev: Option<Seq<char>>,
    /// The organization id, where known.
    pub organization_id: Option<u64>,
    /// Whether the snapshot was fetched but could not be parsed.
    pub invalid: bool,
}

impl View for ProjectState {
    type V = ProjectStateView;

    open spec fn view(&self) -> ProjectStateView {
        ProjectStateView {
            last_fetch: self.last_fetch,
            last_change: self.last_change,
            disabled: self.disabled,
            public_keys: self.public_keys@.map_values(|k: PublicKeyConfig| k@),
            slug: opt_str_view(self.slug),
            config: self.config@,
            rev: opt_str_view(self.rev),
            organization_id: self.organization_id,
            invalid: self.invalid,
        }
    }
}

/// Copies a key list; the copy has the same content.
fn clone_key_vec(v: &Vec<PublicKeyConfig>) -> (r: Vec<PublicKeyConfig>)
    ensures
        r@.map_values(|k: PublicKeyConfig| k@) == v@.map_values(|k: PublicKeyConfig| k@),
{
    let mut r: Vec<PublicKeyConfig> = Vec::new();
    let mut i: usize = 0;
    while i < v.len()
        invariant
            0 <= i <= v@.len(),
            r@.map_values(|k: PublicKeyConfig| k@) == v@.take(i as int).map_values(
                |k: PublicKeyConfig| k@,
            ),
        decreases v@.len() - i,
    {
        let c = v[i].clone();
        proof {
            lemma_map_push(r@, c, |k: PublicKeyConfig| k@);
            lemma_map_push(v@.take(i as int), v@[i as int], |k: PublicKeyConfig| k@);
            assert(v@.take(i as int + 1) =~= v@.take(i as int).push(v@[i as int]));
        }
        r.push(c);
        i = i + 1;
    }
    proof {
        assert(v@.take(v@.len() as int) =~= v@);
    }
    r
}

impl Clone for ProjectState {
    /// Clones the snapshot; the copy has the same content.
    fn clone(&self) -> (r: Self)
        ensures
            r@ == self@,
    {
        let r = ProjectState {
            last_fetch: self.last_fetch,
            last_change: self.last_change,
            disabled: self.disabled,
            public_keys: clone_key_vec(&self.public_keys),
            slug: clone_opt_string(&self.slug),
            config: self.config.clone(),
            rev: clone_opt_string(&self.rev),
            organization_id: self.organization_id,
            invalid: self.invalid,
        };
        proof {
            assert(r@ =~~= self@);
        }
        r
    }
}

/// The first key of the list carrying the given public key, if any.
pub open spec fn find_key(keys: Seq<PublicKeyConfigView>, k: Seq<char>) -> Option<
    PublicKeyConfigView,
>
    decreases keys.len(),
{
    if keys.len() == 0 {
        None
    } else if keys[0].public_key == k {
        Some(keys[0])
    } else {
        find_key(keys.drop_first(), k)
    }
}

/// The status of a public key: enabled or disabled where the key occurs in
/// the snapshot, unknown otherwise.
pub open spec fn key_status(keys: Seq<PublicKeyConfigView>, k: Seq<char>) -> PublicKeyStatus {
    match find_key(keys, k) {
        Some(kc) => if kc.is_enabled {
            PublicKeyStatus::Enabled
        } else {
            PublicKeyStatus::Disabled
        },
        None => PublicKeyStatus::Unknown,
    }
}

/// Skipping keys that do not match leaves the first match unchanged.
proof fn lemma_find_key_skip(keys: Seq<PublicKeyConfigView>, k: Seq<char>, i: int)
    requires
        0 <= i <= keys.len(),
        forall|j: int| 0 <= j < i ==> keys[j].public_key != k,
    ensures
        find_key(keys, k) == find_key(keys.skip(i), k),
    decreases i,
{
    if i == 0 {
        assert(keys.skip(0) =~= keys);
    } else {
        lemma_find_key_skip(keys, k, i - 1);
        assert(keys.skip(i - 1)[0] == keys[i - 1]);
        assert(keys.skip(i - 1).len() > 0);
        assert(find_key(keys.skip(i - 1), k) == find_key(keys.skip(i - 1).drop_first(), k));
        assert(keys.skip(i - 1).drop_first() =~= keys.skip(i));
    }
}

/// The refresh window that applies to a snapshot: the cache-hit window for
/// projects seen upstream (the slug is present), the cache-miss window for
/// projects never seen.
pub open spec fn spec_expiry_window(s: ProjectStateView, config: Config) -> int {
    if s.slug is Some {
        config.project_cache_expiry as int
    } else {
        config.cache_miss_expiry as int
    }
}

/// The staleness verdict of a snapshot at `now`.
pub open spec fn spec_outdated(
    s: ProjectStateView,
    project_id: ProjectId,
    config: Config,
    now: int,
) -> Outdated {
    classify(
        s.last_fetch as int,
        project_id.0 as int,
        spec_expiry_window(s, config),
        config.project_grace_period as int,
        now,
    )
}

/// The scoping of a request resolved against a snapshot: the key id comes
/// from the key configuration, the organization id from the snapshot, or
/// `0` where the snapshot does not carry one.
pub open spec fn scoping_from_state(s: ProjectStateView, m: RequestMetaView) -> ScopingView {
    ScopingView {
        organization_id: match s.organization_id {
            Some(o) => o,
            None => 0,
        },
        project_id: m.project_id,
        public_key: m.public_key,
        key_id: match find_key(s.public_keys, m.public_key) {
            Some(kc) => kc.numeric_id,
            None => None,
        },
    }
}

/// The quotas that apply to a request with the given key: the project's own
/// quotas when it has any; otherwise the key's legacy quotas; otherwise
/// none. Non-empty project quotas hide the legacy quotas entirely.
pub open spec fn quotas_for_key(s: ProjectStateView, k: Seq<char>) -> Seq<QuotaView> {
    if s.config.quotas.len() > 0 {
        s.config.quotas
    } else {
        match find_key(s.public_keys, k) {
            Some(kc) => kc.legacy_quotas,
            None => Seq::empty(),
        }
    }
}

/// The admission verdict for a request against a snapshot.
///
/// The origin is checked first. A hard-outdated snapshot is then used
/// optimistically: enabled and unknown keys pass, only a disabled key
/// rejects. A fresh enough snapshot is trusted strictly: an invalid
/// snapshot rejects everything, a disabled project rejects everything, and
/// an unknown key rejects unless the relay forwards in proxy mode.
pub open spec fn check_request_spec(
    s: ProjectStateView,
    project_id: ProjectId,
    m: RequestMetaView,
    config: Config,
    now: int,
) -> Result<(), DiscardReason> {
    if !origin_allowed(s.config.allowed_domains, m.origin) {
        Err(DiscardReason::Cors)
    } else if spec_outdated(s, project_id, config, now) == Outdated::HardOutdated {
        match key_status(s.public_keys, m.public_key) {
            PublicKeyStatus::Enabled => Ok(()),
            PublicKeyStatus::Disabled => Err(DiscardReason::ProjectId),
            PublicKeyStatus::Unknown => Ok(()),
        }
    } else if s.invalid {
        Err(DiscardReason::ProjectState)
    } else if s.disabled {
        Err(DiscardReason::ProjectId)
    } else {
        match key_status(s.public_keys, m.public_key) {
            PublicKeyStatus::Enabled => Ok(()),
            PublicKeyStatus::Disabled => Err(DiscardReason::ProjectId),
            PublicKeyStatus::Unknown => if config.relay_mode == RelayMode::Proxy {
                Ok(())
            } else {
                Err(DiscardReason::ProjectId)
            },
        }
    }
}

impl ProjectState {
    /// The snapshot recorded for a project the upstream does not know:
    /// disabled, without keys, under the default configuration, fetched
    /// now.
    pub fn missing() -> (r: ProjectState)
        ensures
            r@.last_change is None,
            r@.disabled == true,
            r@.public_keys.len() == 0,
            r@.slug is None,
            r@.config == default_config(),
            r@.rev is None,
            r@.organization_id is None,
            r@.invalid == false,
    {
        let r = ProjectState {
            last_fetch: unix_now(),
            last_change: None,
            disabled: true,
            public_keys: Vec::new(),
            slug: None,
            config: ProjectConfig::default(),
            rev: None,
            organization_id: None,
            invalid: false,
        };
        proof {
            assert(r@.public_keys =~= Seq::<PublicKeyConfigView>::empty());
        }
        r
    }

    /// The snapshot for an unknown but admitted project, used for
    /// forwarding in proxy mode: as `missing`, but not disabled.
    pub fn allowed() -> (r: ProjectState)
        ensures
            r@.last_change is None,
            r@.disabled == false,
            r@.public_keys.len() == 0,
            r@.slug is None,
            r@.config == default_config(),
            r@.rev is None,
            r@.organization_id is None,
            r@.invalid == false,
    {
        let mut state = ProjectState::missing();
        state.disabled = false;
        state
    }

    /// The snapshot recorded when the upstream response could not be
    /// parsed: as `missing`, but marked invalid.
    pub fn err() -> (r: ProjectState)
        ensures
            r@.last_change is None,
            r@.disabled == true,
            r@.public_keys.len() == 0,
            r@.slug is None,
            r@.config == default_config(),
            r@.rev is None,
            r@.organization_id is None,
            r@.invalid == true,
    {
        let mut state = ProjectState::missing();
        state.invalid = true;
        state
    }

    /// The configuration of the given public key, where the snapshot knows
    /// it.
    pub fn get_public_key_config(&self, public_key: &str) -> (r: Option<&PublicKeyConfig>)
        ensures
            match r {
                Some(kc) => find_key(self@.public_keys, public_key@) == Some(kc@),
                None => find_key(self@.public_keys, public_key@) is None,
            },
    {
        let mut i: usize = 0;
        while i < self.public_keys.len()
            invariant
                0 <= i <= self.public_keys@.len(),
                forall|j: int| 0 <= j < i ==> self@.public_keys[j].public_key != public_key@,
            decreases self.public_keys@.len() - i,
        {
            if str_eq(self.public_keys[i].public_key.as_str(), public_key) {
                proof {
                    lemma_find_key_skip(self@.public_keys, public_key@, i as int);
                    assert(self@.public_keys.skip(i as int)[0] == self@.public_keys[i as int]);
                }
                return Some(&self.public_keys[i]);
            }
            i = i + 1;
        }
        proof {
            lemma_find_key_skip(self@.public_keys, public_key@, i as int);
        }
        None
    }

    /// The status of the given public key in this snapshot.
    pub fn get_public_key_status(&self, public_key: &str) -> (r: PublicKeyStatus)
        ensures
            r == key_status(self@.public_keys, public_key@),
    {
        match self.get_public_key_config(public_key) {
            Some(key) => if key.is_enabled {
                PublicKeyStatus::Enabled
            } else {
                PublicKeyStatus::Disabled
            },
            None => PublicKeyStatus::Unknown,
        }
    }

    /// Whether the whole project is disabled.
    pub fn disabled(&self) -> (r: bool)
        ensures
            r == self@.disabled,
    {
        self.disabled
    }

    /// Whether the snapshot was fetched but could not be parsed. Such a
    /// snapshot rejects requests like a disabled project, under its own
    /// reason.
    pub fn invalid(&self) -> (r: bool)
        ensures
            r == self@.invalid,
    {
        self.invalid
    }

    /// The staleness verdict of this snapshot at `now`.
    pub fn outdated(&self, project_id: ProjectId, config: &Config, now: u64) -> (r: Outdated)
        requires
            config.wf(),
        ensures
            r == spec_outdated(self@, project_id, *config, now as int),
    {
        let window = match &self.slug {
            Some(_) => config.project_cache_expiry,
            None => config.cache_miss_expiry,
        };
        classify_at(self.last_fetch, project_id.value(), window, config.project_grace_period, now)
    }

    /// The project configuration of this snapshot.
    pub fn config(&self) -> (r: &ProjectConfig)
        ensures
            r@ == self@.config,
    {
        &self.config
    }

    /// Whether the given origin passes this project's allow-list: an absent
    /// origin always passes, a present one must be matched by a pattern of
    /// a non-empty list.
    pub fn is_valid_origin(&self, origin: Option<&String>) -> (r: bool)
        ensures
            r == origin_allowed(
                self@.config.allowed_domains,
                match origin {
                    Some(o) => Some(o@),
                    None => None,
                },
            ),
    {
        match origin {
            None => true,
            Some(o) => {
                if self.config.allowed_domains.len() == 0 {
                    return false;
                }
                let mut patterns: Vec<SchemeDomainPort> = Vec::new();
                let mut i: usize = 0;
                while i < self.config.allowed_domains.len()
                    invariant
                        0 <= i <= self.config.allowed_domains@.len(),
                        patterns@.len() == i,
                        forall|j: int|
                            0 <= j < i ==> patterns@[j]@ == spec_parse(
                                self@.config.allowed_domains[j],
                            ),
                    decreases self.config.allowed_domains@.len() - i,
                {
                    patterns.push(SchemeDomainPort::parse(self.config.allowed_domains[i].as_str()));
                    i = i + 1;
                }
                let matched = matches_any_origin(Some(o.as_str()), &patterns);
                proof {
                    let allowed = self@.config.allowed_domains;
                    if exists|j: int|
                        0 <= j < patterns@.len() && sdp_matches(patterns@[j]@, spec_parse(o@)) {
                        let j = choose|j: int|
                            0 <= j < patterns@.len() && sdp_matches(
                                patterns@[j]@,
                                spec_parse(o@),
                            );
                        assert(pattern_allows(allowed[j], o@));
                    }
                    if exists|j: int| 0 <= j < allowed.len() && pattern_allows(allowed[j], o@) {
                        let j = choose|j: int|
                            0 <= j < allowed.len() && pattern_allows(allowed[j], o@);
                        assert(sdp_matches(patterns@[j]@, spec_parse(o@)));
                    }
                }
                matched
            },
        }
    }

    /// The scoping of a request resolved against this snapshot: the partial
    /// scoping of the request, with the key id and the organization id
    /// filled in from the snapshot.
    pub fn get_scoping(&self, meta: &RequestMeta) -> (r: Scoping)
        ensures
            r@ == scoping_from_state(self@, meta@),
    {
        let mut scoping = meta.get_partial_scoping();
        scoping.key_id = match self.get_public_key_config(meta.public_key.as_str()) {
            Some(config) => config.numeric_id,
            None => None,
        };
        scoping.organization_id = match self.organization_id {
            Some(o) => o,
            None => 0,
        };
        scoping
    }

    /// The quotas that apply to requests with the given key. Non-empty
    /// project quotas hide every legacy per-key quota; the key's legacy
    /// quotas apply only otherwise.
    pub fn get_quotas(&self, public_key: &str) -> (r: &[Quota])
        ensures
            quota_views(r@) == quotas_for_key(self@, public_key@),
    {
        if self.config.quotas.len() > 0 {
            self.config.quotas.as_slice()
        } else {
            match self.get_public_key_config(public_key) {
                Some(key_config) => key_config.legacy_quotas.as_slice(),
                None => {
                    proof {
                        assert(quota_views(self.config.quotas@) =~= Seq::<QuotaView>::empty());
                    }
                    self.config.quotas.as_slice()
                },
            }
        }
    }

    /// Decides whether a request is admitted against this snapshot.
    ///
    /// The origin is checked first; a failure is `Cors`. While the snapshot
    /// is hard-outdated it is used optimistically: enabled and unknown keys
    /// pass, a disabled key rejects with `ProjectId`. A fresh enough
    /// snapshot is trusted strictly: an invalid snapshot rejects with
    /// `ProjectState`, a disabled project with `ProjectId`, and an unknown
    /// key with `ProjectId` unless the relay forwards in proxy mode.
    pub fn check_request(
        &self,
        project_id: ProjectId,
        meta: &RequestMeta,
        config: &Config,
        now: u64,
    ) -> (r: Result<(), DiscardReason>)
        requires
            config.wf(),
        ensures
            r == check_request_spec(self@, project_id, meta@, *config, now as int),
    {
        if !self.is_valid_origin(meta.origin.as_ref()) {
            return Err(DiscardReason::Cors);
        }
        let verdict = self.outdated(project_id, config, now);
        if verdict == Outdated::HardOutdated {
            match self.get_public_key_status(meta.public_key.as_str()) {
                PublicKeyStatus::Enabled => Ok(()),
                PublicKeyStatus::Disabled => Err(DiscardReason::ProjectId),
                PublicKeyStatus::Unknown => Ok(()),
            }
        } else {
            if self.invalid {
                return Err(DiscardReason::ProjectState);
            }
            if self.disabled {
                return Err(DiscardReason::ProjectId);
            }
            match self.get_public_key_status(meta.public_key.as_str()) {
                PublicKeyStatus::Enabled => Ok(()),
                PublicKeyStatus::Disabled => Err(DiscardReason::ProjectId),
                PublicKeyStatus::Unknown => match config.relay_mode {
                    RelayMode::Proxy => Ok(()),
                    _ => Err(DiscardReason::ProjectId),
                },
            }
        }
    }
}

} // verus!
