//! The runtime settings that operators edit and that request logic reads.
use vstd::prelude::*;
use crate::model::ActionRule;

verus! {

/// A small map from names to values, kept as a list; a later entry for a name
/// shadows an earlier one.
#[derive(Debug)]
pub struct Keyed<V> {
    pub entries: Vec<(String, V)>,
}

/// The value of the last entry named `k`.
pub open spec fn lookup<V>(s: Seq<(String, V)>, k: Seq<char>) -> Option<V>
    decreases s.len(),
{
    if s.len() == 0 {
        None
    } else if s.last().0@ == k {
        Some(s.last().1)
    } else {
        lookup(s.drop_last(), k)
    }
}

impl<V: Copy> Keyed<V> {
    pub open spec fn spec_get(&self, k: Seq<char>) -> Option<V> {
        lookup(self.entries@, k)
    }

    pub fn new() -> (r: Self)
        ensures
            forall|k: Seq<char>| r.spec_get(k) is None,
    {
        Keyed { entries: Vec::new() }
    }

    pub fn get(&self, k: &str) -> (r: Option<V>)
        ensures
            r == self.spec_get(k@),
    {
        let mut i = self.entries.len();
        assert(self.entries@.take(i as int) == self.entries@);
        while i > 0
            invariant
                i <= self.entries.len(),
                self.spec_get(k@) == lookup(self.entries@.take(i as int), k@),
            decreases i,
        {
            let ghost pre = self.entries@.take(i as int);
            assert(pre.drop_last() == self.entries@.take(i - 1));
            if crate::text::str_eq(self.entries[i - 1].0.as_str(), k) {
                return Some(self.entries[i - 1].1);
            }
            i -= 1;
        }
        None
    }

    /// The entries of `self` without those named `k`.
    fn without(&self, k: &str) -> (r: Vec<(String, V)>)
        ensures
            forall|j: Seq<char>| #[trigger]
                lookup(r@, j) == if j == k@ {
                    None
                } else {
                    lookup(self.entries@, j)
                },
    {
        let mut out: Vec<(String, V)> = Vec::new();
        let mut i: usize = 0;
        while i < self.entries.len()
            invariant
                i <= self.entries.len(),
                forall|j: Seq<char>| #[trigger]
                    lookup(out@, j) == if j == k@ {
                        None
                    } else {
                        lookup(self.entries@.take(i as int), j)
                    },
            decreases self.entries.len() - i,
        {
            let ghost pre = self.entries@.take(i + 1);
            assert(pre.drop_last() == self.entries@.take(i as int));
            let ghost before = out@;
            let keep = !crate::text::str_eq(self.entries[i].0.as_str(), k);
            if keep {
                let name = self.entries[i].0.clone();
                let value = self.entries[i].1;
                out.push((name, value));
                assert(out@.drop_last() == before);
            }
            proof {
                assert forall|j: Seq<char>| #[trigger]
                    lookup(out@, j) == if j == k@ {
                        None
                    } else {
                        lookup(pre, j)
                    } by {
                    assert(pre.last() == self.entries@[i as int]);
                    if keep {
                        assert(out@.last().0@ == pre.last().0@);
                        assert(out@.last().1 == pre.last().1);
                    }
                    assert(lookup(before, j) == if j == k@ {
                        None
                    } else {
                        lookup(pre.drop_last(), j)
                    });
                }
            }
            i += 1;
        }
        assert(self.entries@.take(self.entries.len() as int) == self.entries@);
        out
    }

    /// Drops the entry named `k`.
    pub fn remove(&mut self, k: &str)
        ensures
            forall|j: Seq<char>| #[trigger]
                final(self).spec_get(j) == if j == k@ {
                    None
                } else {
                    old(self).spec_get(j)
                },
    {
        let entries = self.without(k);
        self.entries = entries;
    }

    /// Sets the entry named `k` to `v`.
    pub fn insert(&mut self, k: &str, v: V)
        ensures
            forall|j: Seq<char>| #[trigger]
                final(self).spec_get(j) == if j == k@ {
                    Some(v)
                } else {
                    old(self).spec_get(j)
                },
    {
        let mut entries = self.without(k);
        let ghost before = entries@;
        entries.push((k.to_owned(), v));
        assert(entries@.drop_last() == before);
        assert forall|j: Seq<char>| #[trigger]
            lookup(entries@, j) == if j == k@ {
                Some(v)
            } else {
                lookup(old(self).entries@, j)
            } by {
            assert(lookup(before, j) == if j == k@ {
                None
            } else {
                lookup(old(self).entries@, j)
            });
        }
        self.entries = entries;
    }

    /// A copy with the same entries.
    pub fn copy(&self) -> (r: Self)
        ensures
            forall|j: Seq<char>| #[trigger] r.spec_get(j) == self.spec_get(j),
    {
        let mut out: Vec<(String, V)> = Vec::new();
        let mut i: usize = 0;
        while i < self.entries.len()
            invariant
                i <= self.entries.len(),
                out@.len() == i,
                forall|m: int| 0 <= m < i ==> #[trigger] out@[m].0@ == self.entries@[m].0@ && out@[m].1
                    == self.entries@[m].1,
            decreases self.entries.len() - i,
        {
            out.push((self.entries[i].0.clone(), self.entries[i].1));
            i += 1;
        }
        proof {
            assert forall|j: Seq<char>| #[trigger] lookup(out@, j) == lookup(self.entries@, j) by {
                lemma_lookup_same_keys(out@, self.entries@, j);
            }
        }
        Keyed { entries: out }
    }
}

proof fn lemma_lookup_same_keys<V>(a: Seq<(String, V)>, b: Seq<(String, V)>, k: Seq<char>)
    requires
        a.len() == b.len(),
        forall|m: int| 0 <= m < a.len() ==> #[trigger] a[m].0@ == b[m].0@ && a[m].1 == b[m].1,
    ensures
        lookup(a, k) == lookup(b, k),
    decreases a.len(),
{
    if a.len() > 0 {
        assert(a.last().0@ == b.last().0@);
        lemma_lookup_same_keys(a.drop_last(), b.drop_last(), k);
    }
}

/// Which product areas are switched on.
#[derive(Clone, Copy, Debug, PartialEq, Eq, Structural)]
pub struct FeatureConfig {
    pub files: bool,
    pub pastes: bool,
    pub accounts: bool,
    pub api: bool,
    pub reports: bool,
    pub upload_by_url: bool,
    pub preview_pages: bool,
    pub public_browse: bool,
    pub oidc_login: bool,
    pub local_login: bool,
    pub paste_content_search: bool,
    pub paste_editing: bool,
}

/// Storage and upload quotas; `None` means unlimited.
#[derive(Clone, Copy, Debug, PartialEq, Eq, Structural)]
pub struct QuotaConfig {
    pub storage_bytes: Option<i64>,
    pub daily_upload_bytes: Option<i64>,
    pub monthly_upload_bytes: Option<i64>,
    pub item_count: Option<i64>,
}

#[derive(Debug)]
pub struct ExpiryConfig {
    pub allow_never: bool,
    pub anonymous_max_file_expiry: Option<String>,
    pub user_max_file_expiry: Option<String>,
    pub anonymous_max_paste_expiry: Option<String>,
    pub user_max_paste_expiry: Option<String>,
    pub allowed_presets: Vec<String>,
}

#[derive(Debug)]
pub struct LimitsConfig {
    pub max_upload_bytes: i64,
    pub max_paste_bytes: i64,
    pub max_tus_upload_bytes: i64,
    pub default_file_expiry: Option<String>,
    pub default_paste_expiry: Option<String>,
    pub anonymous_quota: QuotaConfig,
    pub role_quotas: Keyed<QuotaConfig>,
    pub expiry: ExpiryConfig,
}

#[derive(Clone, Copy, Debug, PartialEq, Eq, Structural)]
pub enum SignupMode {
    Disabled,
    Open,
    InviteOnly,
    AdminCreated,
}

#[derive(Clone, Copy, Debug, PartialEq, Eq, Structural)]
pub enum DeletePolicy {
    Disabled,
    DeleteTokens,
    NoAnonymousDelete,
    ClaimLater,
}

#[derive(Clone, Copy, Debug, PartialEq, Eq, Structural)]
pub struct PolicyConfig {
    pub signup: SignupMode,
    pub upload_file: ActionRule,
    pub create_paste: ActionRule,
    pub use_api: ActionRule,
    pub view_item: ActionRule,
    pub delete_own_item: ActionRule,
    pub delete_policy: DeletePolicy,
    pub claim_anonymous_item: ActionRule,
    pub create_account: ActionRule,
}

#[derive(Clone, Copy, Debug, PartialEq, Eq, Structural)]
pub enum ContentDispositionMode {
    Attachment,
    Inline,
}

#[derive(Clone, Copy, Debug, PartialEq, Eq, Structural)]
pub enum RiskyMimeMode {
    Attachment,
    InlineOnIsolatedOrigin,
    Plaintext,
}

#[derive(Clone, Copy, Debug, PartialEq, Eq, Structural)]
pub enum RateLimitBackend {
    Memory,
    Database,
}

#[derive(Clone, Copy, Debug, PartialEq, Eq, Structural)]
pub enum MetricsAccessMode {
    Public,
    Admin,
    Token,
    Loopback,
}

#[derive(Clone, Copy, Debug, PartialEq, Eq, Structural)]
pub enum ScanDecision {
    Allow,
    Quarantine,
    Reject,
}

#[derive(Clone, Copy, Debug, PartialEq, Eq, Structural)]
pub struct RateLimitConfig {
    pub requests: u32,
    pub window_seconds: u64,
    pub enabled: bool,
}

#[derive(Debug)]
pub struct ContentPolicy {
    pub allowed_mime_types: Vec<String>,
    pub forced_attachment_mime_types: Vec<String>,
    pub risky_mime_mode: RiskyMimeMode,
    pub max_filename_bytes: usize,
}

#[derive(Debug)]
pub struct UrlUploadConfig {
    pub block_private_ips: bool,
    pub max_redirects: usize,
    pub connect_timeout_seconds: u64,
    pub request_timeout_seconds: u64,
    pub max_response_bytes: Option<i64>,
    pub allowed_ports: Vec<u16>,
    pub blocked_ports: Vec<u16>,
    pub user_agent: Option<String>,
    pub allowed_hosts: Vec<String>,
    pub blocked_hosts: Vec<String>,
}

#[derive(Debug)]
pub struct SecurityConfig {
    pub secure_cookies: bool,
    pub content_disposition: ContentDispositionMode,
    pub reject_mime_mismatch: bool,
    pub rate_limit_backend: RateLimitBackend,
    pub content_policy: ContentPolicy,
    pub url_upload: UrlUploadConfig,
    pub rate_limits: Keyed<RateLimitConfig>,
}

#[derive(Debug)]
pub struct DeliveryConfig {
    pub public_cache_seconds: u64,
    pub static_cache_seconds: u64,
    pub public_file_base_url: Option<String>,
    pub isolated_file_origin: bool,
    pub signed_internal_urls: bool,
    pub internal_url_secret: Option<String>,
    pub internal_url_ttl_seconds: i64,
}

#[derive(Clone, Copy, Debug, PartialEq, Eq, Structural)]
pub struct ProcessingConfig {
    pub metadata_extraction: bool,
    pub metadata_stripping: bool,
    pub thumbnails: bool,
    pub thumbnail_max_dimension: u32,
    pub thumbnail_jpeg_quality: u8,
}

#[derive(Clone, Copy, Debug, PartialEq, Eq, Structural)]
pub struct DiscoveryConfig {
    pub robots_index: bool,
    pub page_size: u32,
}

#[derive(Clone, Copy, Debug, PartialEq, Eq, Structural)]
pub struct JobsConfig {
    pub enabled: bool,
    pub interval_seconds: u64,
    pub metadata_limit: u32,
    pub scanner_retry_limit: u32,
    pub storage_verify_interval_seconds: u64,
}

#[derive(Debug)]
pub struct UploadsConfig {
    pub temp_dir: Option<String>,
}

#[derive(Debug)]
pub struct MetricsConfig {
    pub enabled: bool,
    pub access: MetricsAccessMode,
    pub bearer_token: Option<String>,
}

#[derive(Clone, Copy, Debug, PartialEq, Eq, Structural)]
pub struct TokensConfig {
    pub default_ttl_seconds: Option<i64>,
    pub max_ttl_seconds: Option<i64>,
}

#[derive(Debug)]
pub struct ModerationConfig {
    pub notify_webhook_url: Option<String>,
    pub notify_webhook_secret: Option<String>,
}

/// One block of the home page: a title, a body and an optional link.
#[derive(Debug)]
pub struct HomepageBlock {
    pub title: String,
    pub body: String,
    pub href: Option<String>,
    pub link_label: Option<String>,
}

#[derive(Debug)]
pub struct BrandingConfig {
    pub instance_name: String,
    pub tagline: String,
    pub logo_url: Option<String>,
    pub favicon_url: Option<String>,
    pub accent_color: String,
    pub dark_mode: String,
    pub opengraph_description: String,
    pub opengraph_files: bool,
    pub opengraph_pastes: bool,
    pub takedown_page_text: String,
    pub homepage_blocks: Vec<HomepageBlock>,
    pub abuse_email: Option<String>,
    pub contact_url: Option<String>,
}

/// An external scanner that uploads are handed to.
#[derive(Debug)]
pub enum ScannerAdapterConfig {
    Command { program: String, args: Vec<String> },
    Webhook { url: String, secret: Option<String> },
    ClamAv { socket: String },
}

#[derive(Debug)]
pub struct ScanningConfig {
    pub enabled: bool,
    pub blocked_hashes: Vec<String>,
    pub blocked_mime_types: Vec<String>,
    pub default_on_error: ScanDecision,
    pub adapters: Vec<ScannerAdapterConfig>,
}

/// Everything an operator can change at run time.
#[derive(Debug)]
pub struct RuntimeSettings {
    pub features: FeatureConfig,
    pub limits: LimitsConfig,
    pub policy: PolicyConfig,
    pub security: SecurityConfig,
    pub delivery: DeliveryConfig,
    pub branding: BrandingConfig,
    pub scanning: ScanningConfig,
    pub processing: ProcessingConfig,
    pub discovery: DiscoveryConfig,
    pub jobs: JobsConfig,
    pub uploads: UploadsConfig,
    pub metrics: MetricsConfig,
    pub tokens: TokensConfig,
    pub moderation: ModerationConfig,
}

} // verus!
