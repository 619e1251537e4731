//! Agent configuration: the recognized options, their defaults, and the
//! normalization of legacy configuration files.
//!
//! Each section has a view whose string fields are `Seq<char>`; the
//! contracts of the detection pipeline and of the managers are stated over
//! `Config`'s view.

use vstd::prelude::*;
use vstd::string::StringExecFns;

verus! {

#[derive(Debug, Clone, Copy, PartialEq, Eq, Structural)]
pub enum Mode {
    Learning,
    Strict,
}

#[derive(Debug)]
pub struct LoggingConfig {
    pub level: String,
    pub retention_days: u64,
}

#[derive(Debug, Clone, Copy, PartialEq, Eq, Structural)]
pub struct KillSwitchConfig {
    pub enabled: bool,
    pub auto_trigger: bool,
    pub failsafe_minutes: u64,
}

#[derive(Debug)]
pub struct AllowlistConfig {
    pub publishers: Vec<String>,
    pub paths_allowlist: Vec<String>,
}

#[derive(Debug)]
pub struct ProtectedConfig {
    pub chrome_targets: Vec<String>,
    pub firefox_targets: Vec<String>,
}

#[derive(Debug)]
pub struct ThreatFeedConfig {
    pub auto_refresh: bool,
    pub refresh_interval_minutes: u64,
    pub endpoints: Vec<String>,
    pub allowlist_domains: Vec<String>,
    pub timeout_seconds: u64,
}

#[derive(Debug)]
pub struct Config {
    pub mode: Mode,
    pub correlation_window_seconds: u64,
    pub logging: LoggingConfig,
    pub killswitch: KillSwitchConfig,
    pub allowlist: AllowlistConfig,
    pub protected: ProtectedConfig,
    pub threat_feed: ThreatFeedConfig,
}

#[derive(Debug, Clone, Copy, Default)]
pub struct LegacySafetyConfig {
    pub strict_mode: bool,
}

/// The views of a list of strings.
pub open spec fn strs_view(v: Seq<String>) -> Seq<Seq<char>> {
    v.map_values(|s: String| s@)
}

#[verifier::ext_equal]
pub struct LoggingM {
    pub level: Seq<char>,
    pub retention_days: u64,
}

#[verifier::ext_equal]
pub struct AllowlistM {
    pub publishers: Seq<Seq<char>>,
    pub paths_allowlist: Seq<Seq<char>>,
}

#[verifier::ext_equal]
pub struct ProtectedM {
    pub chrome_targets: Seq<Seq<char>>,
    pub firefox_targets: Seq<Seq<char>>,
}

#[verifier::ext_equal]
pub struct ThreatFeedM {
    pub auto_refresh: bool,
    pub refresh_interval_minutes: u64,
    pub endpoints: Seq<Seq<char>>,
    pub allowlist_domains: Seq<Seq<char>>,
    pub timeout_seconds: u64,
}

#[verifier::ext_equal]
pub struct ConfigM {
    pub mode: Mode,
    pub correlation_window_seconds: u64,
    pub logging: LoggingM,
    pub killswitch: KillSwitchConfig,
    pub allowlist: AllowlistM,
    pub protected: ProtectedM,
    pub threat_feed: ThreatFeedM,
}

impl View for LoggingConfig {
    type V = LoggingM;

    open spec fn view(&self) -> LoggingM {
        LoggingM { level: self.level@, retention_days: self.retention_days }
    }
}

impl View for AllowlistConfig {
    type V = AllowlistM;

    open spec fn view(&self) -> AllowlistM {
        AllowlistM {
            publishers: strs_view(self.publishers@),
            paths_allowlist: strs_view(self.paths_allowlist@),
        }
    }
}

impl View for ProtectedConfig {
    type V = ProtectedM;

    open spec fn view(&self) -> ProtectedM {
        ProtectedM {
            chrome_targets: strs_view(self.chrome_targets@),
            firefox_targets: strs_view(self.firefox_targets@),
        }
    }
}

impl View for ThreatFeedConfig {
    type V = ThreatFeedM;

    open spec fn view(&self) -> ThreatFeedM {
        ThreatFeedM {
            auto_refresh: self.auto_refresh,
            refresh_interval_minutes: self.refresh_interval_minutes,
            endpoints: strs_view(self.endpoints@),
            allowlist_domains: strs_view(self.allowlist_domains@),
            timeout_seconds: self.timeout_seconds,
        }
    }
}

impl View for Config {
    type V = ConfigM;

    open spec fn view(&self) -> ConfigM {
        ConfigM {
            mode: self.mode,
            correlation_window_seconds: self.correlation_window_seconds,
            logging: self.logging@,
            killswitch: self.killswitch,
            allowlist: self.allowlist@,
            protected: self.protected@,
            threat_feed: self.threat_feed@,
        }
    }
}

/// A copy of a list of strings, equal element by element.
pub fn clone_strings(v: &Vec<String>) -> (r: Vec<String>)
    ensures
        r@ == v@,
{
    let mut r: Vec<String> = Vec::new();
    let mut i: usize = 0;
    while i < v.len()
        invariant
            i <= v.len(),
            r@ =~= v@.take(i as int),
        decreases v.len() - i,
    {
        r.push(v[i].clone());
        assert(r@ =~= v@.take(i + 1));
        i += 1;
    }
    assert(v@.take(v@.len() as int) =~= v@);
    r
}

impl Clone for LoggingConfig {
    fn clone(&self) -> (r: Self)
        ensures
            r@ == self@,
    {
        LoggingConfig { level: self.level.clone(), retention_days: self.retention_days }
    }
}

impl Clone for AllowlistConfig {
    fn clone(&self) -> (r: Self)
        ensures
            r@ == self@,
    {
        AllowlistConfig {
            publishers: clone_strings(&self.publishers),
            paths_allowlist: clone_strings(&self.paths_allowlist),
        }
    }
}

impl Clone for ProtectedConfig {
    fn clone(&self) -> (r: Self)
        ensures
            r@ == self@,
    {
        ProtectedConfig {
            chrome_targets: clone_strings(&self.chrome_targets),
            firefox_targets: clone_strings(&self.firefox_targets),
        }
    }
}

impl Clone for ThreatFeedConfig {
    fn clone(&self) -> (r: Self)
        ensures
            r@ == self@,
    {
        ThreatFeedConfig {
            auto_refresh: self.auto_refresh,
            refresh_interval_minutes: self.refresh_interval_minutes,
            endpoints: clone_strings(&self.endpoints),
            allowlist_domains: clone_strings(&self.allowlist_domains),
            timeout_seconds: self.timeout_seconds,
        }
    }
}

impl Clone for Config {
    fn clone(&self) -> (r: Self)
        ensures
            r@ == self@,
    {
        Config {
            mode: self.mode,
            correlation_window_seconds: self.correlation_window_seconds,
            logging: self.logging.clone(),
            killswitch: self.killswitch,
            allowlist: self.allowlist.clone(),
            protected: self.protected.clone(),
            threat_feed: self.threat_feed.clone(),
        }
    }
}

pub fn default_log_level() -> (r: String)
    ensures
        r@ == "info"@,
{
    String::from_str("info")
}

pub fn default_retention_days() -> (r: u64)
    ensures
        r == 14,
{
    14
}

pub fn default_true() -> (r: bool)
    ensures
        r,
{
    true
}

pub fn default_failsafe_minutes() -> (r: u64)
    ensures
        r == 10,
{
    10
}

pub fn default_correlation_window_seconds() -> (r: u64)
    ensures
        r == 120,
{
    120
}

pub fn default_refresh_interval_minutes() -> (r: u64)
    ensures
        r == 60,
{
    60
}

pub fn default_threat_feed_timeout_seconds() -> (r: u64)
    ensures
        r == 10,
{
    10
}

pub fn default_threat_feed_endpoints() -> (r: Vec<String>)
    ensures
        strs_view(r@) =~= seq!["https://updates.aidefender.shop/feed/"@],
{
    let mut v: Vec<String> = Vec::new();
    v.push(String::from_str("https://updates.aidefender.shop/feed/"));
    v
}

pub fn default_threat_feed_allowlist_domains() -> (r: Vec<String>)
    ensures
        strs_view(r@) =~= seq!["updates.aidefender.shop"@],
{
    let mut v: Vec<String> = Vec::new();
    v.push(String::from_str("updates.aidefender.shop"));
    v
}

pub fn default_allowlist_publishers() -> (r: Vec<String>)
    ensures
        strs_view(r@) =~= seq!["Microsoft Windows"@, "Google LLC"@, "Mozilla Corporation"@],
{
    let mut v: Vec<String> = Vec::new();
    v.push(String::from_str("Microsoft Windows"));
    v.push(String::from_str("Google LLC"));
    v.push(String::from_str("Mozilla Corporation"));
    v
}

pub fn default_chrome_targets() -> (r: Vec<String>)
    ensures
        strs_view(r@) =~= seq!["Login Data"@, "Cookies"@, "Local State"@],
{
    let mut v: Vec<String> = Vec::new();
    v.push(String::from_str("Login Data"));
    v.push(String::from_str("Cookies"));
    v.push(String::from_str("Local State"));
    v
}

pub fn default_firefox_targets() -> (r: Vec<String>)
    ensures
        strs_view(r@) =~= seq!["logins.json"@, "key4.db"@, "cookies.sqlite"@],
{
    let mut v: Vec<String> = Vec::new();
    v.push(String::from_str("logins.json"));
    v.push(String::from_str("key4.db"));
    v.push(String::from_str("cookies.sqlite"));
    v
}

pub open spec fn is_default_logging(l: LoggingM) -> bool {
    l.level == "info"@ && l.retention_days == 14
}

pub open spec fn is_default_killswitch(k: KillSwitchConfig) -> bool {
    k.enabled && k.auto_trigger && k.failsafe_minutes == 10
}

pub open spec fn is_default_allowlist(a: AllowlistM) -> bool {
    a.publishers =~= seq!["Microsoft Windows"@, "Google LLC"@, "Mozilla Corporation"@]
        && a.paths_allowlist.len() == 0
}

pub open spec fn is_default_protected(p: ProtectedM) -> bool {
    p.chrome_targets =~= seq!["Login Data"@, "Cookies"@, "Local State"@] && p.firefox_targets
        =~= seq!["logins.json"@, "key4.db"@, "cookies.sqlite"@]
}

pub open spec fn is_default_threat_feed(t: ThreatFeedM) -> bool {
    !t.auto_refresh && t.refresh_interval_minutes == 60 && t.endpoints
        =~= seq!["https://updates.aidefender.shop/feed/"@] && t.allowlist_domains
        =~= seq!["updates.aidefender.shop"@] && t.timeout_seconds == 10
}

pub open spec fn is_default_config(c: ConfigM) -> bool {
    c.mode == Mode::Learning && c.correlation_window_seconds == 120 && is_default_logging(c.logging)
        && is_default_killswitch(c.killswitch) && is_default_allowlist(c.allowlist)
        && is_default_protected(c.protected) && is_default_threat_feed(c.threat_feed)
}

impl Default for LoggingConfig {
    fn default() -> (r: LoggingConfig)
        ensures
            is_default_logging(r@),
    {
        LoggingConfig { level: default_log_level(), retention_days: default_retention_days() }
    }
}

impl Default for KillSwitchConfig {
    fn default() -> (r: KillSwitchConfig)
        ensures
            is_default_killswitch(r),
    {
        KillSwitchConfig {
            enabled: true,
            auto_trigger: true,
            failsafe_minutes: default_failsafe_minutes(),
        }
    }
}

impl Default for AllowlistConfig {
    fn default() -> (r: AllowlistConfig)
        ensures
            is_default_allowlist(r@),
    {
        AllowlistConfig { publishers: default_allowlist_publishers(), paths_allowlist: Vec::new() }
    }
}

impl Default for ProtectedConfig {
    fn default() -> (r: ProtectedConfig)
        ensures
            is_default_protected(r@),
    {
        ProtectedConfig {
            chrome_targets: default_chrome_targets(),
            firefox_targets: default_firefox_targets(),
        }
    }
}

impl Default for ThreatFeedConfig {
    fn default() -> (r: ThreatFeedConfig)
        ensures
            is_default_threat_feed(r@),
    {
        ThreatFeedConfig {
            auto_refresh: false,
            refresh_interval_minutes: default_refresh_interval_minutes(),
            endpoints: default_threat_feed_endpoints(),
            allowlist_domains: default_threat_feed_allowlist_domains(),
            timeout_seconds: default_threat_feed_timeout_seconds(),
        }
    }
}

impl Default for Config {
    fn default() -> (r: Config)
        ensures
            is_default_config(r@),
    {
        Config {
            mode: Mode::Learning,
            correlation_window_seconds: default_correlation_window_seconds(),
            logging: LoggingConfig::default(),
            killswitch: KillSwitchConfig::default(),
            allowlist: AllowlistConfig::default(),
            protected: ProtectedConfig::default(),
            threat_feed: ThreatFeedConfig::default(),
        }
    }
}

/// The scheme and host of a parsed URL, or `None` when the string is not a
/// URL: a function of the characters alone.
pub uninterp spec fn url_parts_of(s: Seq<char>) -> Option<(Seq<char>, Option<Seq<char>>)>;

/// Relies on `url::Url::parse` and its `scheme` / `host_str` accessors: the
/// parse result depends on the characters alone.
#[verifier::external_body]
fn parse_url_parts(s: &str) -> (r: Option<(String, Option<String>)>)
    ensures
        r is Some <==> url_parts_of(s@) is Some,
        r matches Some(p) ==> url_parts_of(s@) == Some((p.0@, crate::types::view_opt_str(p.1))),
{
    match url::Url::parse(s) {
        Ok(u) => Some((u.scheme().to_string(), u.host_str().map(|h| h.to_string()))),
        Err(_) => None,
    }
}

/// The endpoint parses as a URL whose scheme is `https` and whose host is one
/// of the allowlisted domains.
pub open spec fn endpoint_ok(e: Seq<char>, domains: Seq<Seq<char>>) -> bool {
    match url_parts_of(e) {
        None => false,
        Some((scheme, host)) => scheme == "https"@ && match host {
            None => false,
            Some(h) => domains.contains(h),
        },
    }
}

/// A refresh configuration is usable when its numbers are positive, its lists
/// are non-empty, and every endpoint is HTTPS with an allowlisted host.
pub open spec fn tf_config_valid(t: ThreatFeedM) -> bool {
    t.refresh_interval_minutes > 0 && t.timeout_seconds > 0 && t.endpoints.len() > 0
        && t.allowlist_domains.len() > 0 && (forall|i: int|
        0 <= i < t.endpoints.len() ==> endpoint_ok(t.endpoints[i], t.allowlist_domains))
}

fn host_allowlisted(host: &String, domains: &Vec<String>) -> (r: bool)
    ensures
        r == strs_view(domains@).contains(host@),
{
    let mut i: usize = 0;
    while i < domains.len()
        invariant
            i <= domains.len(),
            forall|j: int| 0 <= j < i ==> strs_view(domains@)[j] != host@,
        decreases domains.len() - i,
    {
        if domains[i].eq(host) {
            assert(strs_view(domains@)[i as int] == host@);
            return true;
        }
        i += 1;
    }
    false
}

fn endpoint_is_ok(e: &String, domains: &Vec<String>) -> (r: bool)
    ensures
        r == endpoint_ok(e@, strs_view(domains@)),
{
    match parse_url_parts(e.as_str()) {
        None => false,
        Some((scheme, host)) => {
            if !scheme.eq(&String::from_str("https")) {
                false
            } else {
                match host {
                    None => false,
                    Some(h) => host_allowlisted(&h, domains),
                }
            }
        },
    }
}

/// Checks a threat-feed configuration; returns a reason when it is unusable.
/// `None` is returned exactly when `tf_config_valid` holds.
pub fn validate_threat_feed_config(cfg: &ThreatFeedConfig) -> (r: Option<String>)
    ensures
        r is None <==> tf_config_valid(cfg@),
{
    if cfg.refresh_interval_minutes == 0 {
        return Some(String::from_str("refresh_interval_minutes must be > 0"));
    }
    if cfg.timeout_seconds == 0 {
        return Some(String::from_str("timeout_seconds must be > 0"));
    }
    if cfg.endpoints.len() == 0 {
        return Some(String::from_str("endpoints must not be empty"));
    }
    if cfg.allowlist_domains.len() == 0 {
        return Some(String::from_str("allowlist_domains must not be empty"));
    }
    let mut i: usize = 0;
    while i < cfg.endpoints.len()
        invariant
            i <= cfg.endpoints@.len(),
            forall|j: int| 0 <= j < i ==> endpoint_ok(cfg@.endpoints[j], cfg@.allowlist_domains),
        decreases cfg.endpoints@.len() - i,
    {
        let ok = endpoint_is_ok(&cfg.endpoints[i], &cfg.allowlist_domains);
        assert(cfg@.endpoints[i as int] == cfg.endpoints@[i as int]@);
        if !ok {
            return Some(String::from_str("endpoint must be HTTPS with an allowlisted host"));
        }
        i += 1;
    }
    None
}

/// The on-disk shape of the configuration file: every recognized option is
/// optional, plus the two legacy fields that older files carried.
#[derive(Debug)]
pub struct ConfigFile {
    pub mode: Option<Mode>,
    pub correlation_window_seconds: Option<u64>,
    pub logging: Option<LoggingConfig>,
    pub killswitch: Option<KillSwitchConfig>,
    pub allowlist: Option<AllowlistConfig>,
    pub protected: Option<ProtectedConfig>,
    pub threat_feed: Option<ThreatFeedConfig>,
    pub safety: Option<LegacySafetyConfig>,
    pub failsafe_minutes: Option<u64>,
}

pub open spec fn normalized_mode(f: &ConfigFile) -> Mode {
    match f.mode {
        Some(m) => m,
        None => {
            if (match f.safety {
                Some(s) => s.strict_mode,
                None => false,
            }) {
                Mode::Strict
            } else {
                Mode::Learning
            }
        },
    }
}

pub open spec fn normalized_failsafe_minutes(f: &ConfigFile) -> u64 {
    let base = match f.killswitch {
        Some(k) => k.failsafe_minutes,
        None => 10,
    };
    match f.failsafe_minutes {
        Some(legacy) => {
            if base == 10 {
                legacy
            } else {
                base
            }
        },
        None => base,
    }
}

impl ConfigFile {
    /// Fills missing options with their defaults, applies the legacy
    /// `safety.strict_mode` and top-level `failsafe_minutes` upgrades, and
    /// forces `auto_refresh` off when the threat-feed section does not
    /// validate.
    pub fn normalize(self) -> (r: Config)
        ensures
            r.mode == normalized_mode(&self),
            r.correlation_window_seconds == match self.correlation_window_seconds {
                Some(w) => w,
                None => 120u64,
            },
            (match self.logging {
                Some(l) => r.logging@ == l@,
                None => is_default_logging(r.logging@),
            }),
            r.killswitch.enabled == match self.killswitch {
                Some(k) => k.enabled,
                None => true,
            },
            r.killswitch.auto_trigger == match self.killswitch {
                Some(k) => k.auto_trigger,
                None => true,
            },
            r.killswitch.failsafe_minutes == normalized_failsafe_minutes(&self),
            (match self.allowlist {
                Some(a) => r.allowlist@ == a@,
                None => is_default_allowlist(r.allowlist@),
            }),
            (match self.protected {
                Some(p) => r.protected@ == p@,
                None => is_default_protected(r.protected@),
            }),
            (match self.threat_feed {
                Some(t) => r.threat_feed@.refresh_interval_minutes
                    == t@.refresh_interval_minutes && r.threat_feed@.endpoints == t@.endpoints
                    && r.threat_feed@.allowlist_domains == t@.allowlist_domains
                    && r.threat_feed@.timeout_seconds == t@.timeout_seconds
                    && r.threat_feed.auto_refresh == (t.auto_refresh && tf_config_valid(t@)),
                None => is_default_threat_feed(r.threat_feed@),
            }),
    {
        let mut cfg = Config::default();
        match self.mode {
            Some(mode) => {
                cfg.mode = mode;
            },
            None => {
                let strict = match &self.safety {
                    Some(s) => s.strict_mode,
                    None => false,
                };
                if strict {
                    cfg.mode = Mode::Strict;
                }
            },
        }
        if let Some(w) = self.correlation_window_seconds {
            cfg.correlation_window_seconds = w;
        }
        if let Some(l) = self.logging {
            cfg.logging = l;
        }
        let had_killswitch = self.killswitch.is_some();
        let mut base_failsafe_is_default = true;
        if let Some(k) = self.killswitch {
            base_failsafe_is_default = k.failsafe_minutes == 10;
            cfg.killswitch = k;
        }
        if let Some(legacy) = self.failsafe_minutes {
            if !had_killswitch || base_failsafe_is_default {
                cfg.killswitch.failsafe_minutes = legacy;
            }
        }
        if let Some(a) = self.allowlist {
            cfg.allowlist = a;
        }
        if let Some(p) = self.protected {
            cfg.protected = p;
        }
        if let Some(tf) = self.threat_feed {
            cfg.threat_feed = tf;
        }
        if cfg.threat_feed.auto_refresh {
            if validate_threat_feed_config(&cfg.threat_feed).is_some() {
                cfg.threat_feed.auto_refresh = false;
            }
        }
        cfg
    }

    /// Whether the file misses any recognized option, so that a normalized
    /// copy should be written back.
    pub fn needs_upgrade(&self) -> (r: bool)
        ensures
            r == (self.mode is None || self.correlation_window_seconds is None || self.logging
                is None || self.killswitch is None || self.allowlist is None || self.protected
                is None || self.threat_feed is None),
    {
        self.mode.is_none() || self.correlation_window_seconds.is_none() || self.logging.is_none()
            || self.killswitch.is_none() || self.allowlist.is_none() || self.protected.is_none()
            || self.threat_feed.is_none()
    }
}

/// The file shape of a configuration, with every option present and the
/// legacy fields cleared.
pub fn to_config_file(cfg: &Config) -> (r: ConfigFile)
    ensures
        r.mode == Some(cfg.mode),
        r.correlation_window_seconds == Some(cfg.correlation_window_seconds),
        r.logging matches Some(l) && l@ == cfg.logging@,
        r.killswitch == Some(cfg.killswitch),
        r.allowlist matches Some(a) && a@ == cfg.allowlist@,
        r.protected matches Some(p) && p@ == cfg.protected@,
        r.threat_feed matches Some(t) && t@ == cfg.threat_feed@,
        r.safety is None,
        r.failsafe_minutes is None,
{
    ConfigFile {
        mode: Some(cfg.mode),
        correlation_window_seconds: Some(cfg.correlation_window_seconds),
        logging: Some(cfg.logging.clone()),
        killswitch: Some(cfg.killswitch),
        allowlist: Some(cfg.allowlist.clone()),
        protected: Some(cfg.protected.clone()),
        threat_feed: Some(cfg.threat_feed.clone()),
        safety: None,
        failsafe_minutes: None,
    }
}

} // verus!
