//! The agent's settings and the updater's rules for where backups go.
use vstd::prelude::*;
use crate::checksum::{checksum_accepts, verify_checksum};
use crate::models::opt_view;
use crate::text::{copy_text, decimal_value, is_numeral, is_prefix, join2, parse_decimal, push_char, same_text, starts_with};

verus! {

/// Settings of the agent, read once at start.
#[derive(Clone, Debug)]
pub struct Config {
    /// Base URL of the server.
    pub server_url: String,
    /// The agent's token.
    pub api_key: String,
    /// Seconds between two check-ins.
    pub poll_interval_secs: u64,
    /// The managed service's directory.
    pub service_dir: String,
    /// Where backups go; never inside the service directory.
    pub backup_dir: String,
    /// Shell command that restarts the service.
    pub restart_command: String,
    /// Shell command whose exit status tells whether the service is healthy.
    pub health_check_command: Option<String>,
}

/// The raw settings, each as found (or not) in the environment.
pub struct Settings {
    pub server_url: Option<String>,
    pub api_key: Option<String>,
    pub poll_interval: Option<String>,
    pub service_dir: Option<String>,
    pub backup_dir: Option<String>,
    pub restart_command: Option<String>,
    pub health_check_command: Option<String>,
}

/// Why settings are refused.
#[derive(Clone, Copy, Debug, PartialEq, Eq, Structural)]
pub enum ConfigError {
    MissingServerUrl,
    MissingApiKey,
    /// The backup directory and the service directory lie one inside the other.
    BackupNotSibling,
}

/// A given text, or a default.
pub open spec fn or_default(o: Option<Seq<char>>, d: Seq<char>) -> Seq<char> {
    match o {
        Some(s) => s,
        None => d,
    }
}

/// The poll interval: the given number of seconds, or 30 where it is missing or
/// not a number.
pub open spec fn poll_interval_of(o: Option<Seq<char>>) -> u64 {
    match o {
        Some(s) => if is_numeral(s) && decimal_value(s) <= u64::MAX {
            decimal_value(s) as u64
        } else {
            30
        },
        None => 30,
    }
}

/// Whether path `p` is `base` or lies below it.
pub open spec fn within(base: Seq<char>, p: Seq<char>) -> bool {
    p == base || is_prefix(base.push('/'), p)
}

/// Whether two directories are siblings: neither lies inside the other.
pub open spec fn siblings(a: Seq<char>, b: Seq<char>) -> bool {
    !within(a, b) && !within(b, a)
}

/// Whether path `p` is `base` or lies below it.
pub fn is_within(base: &str, p: &str) -> (r: bool)
    ensures
        r == within(base@, p@),
{
    if same_text(base, p) {
        return true;
    }
    let mut b = copy_text(base);
    push_char(&mut b, '/');
    starts_with(p, b.as_str())
}

fn text_or(o: Option<String>, d: &str) -> (r: String)
    ensures
        r@ == or_default(opt_view(o), d@),
{
    match o {
        Some(s) => s,
        None => String::from_str(d),
    }
}

fn poll_interval(o: &Option<String>) -> (r: u64)
    ensures
        r == poll_interval_of(opt_view(*o)),
{
    match o {
        Some(s) => match parse_decimal(s.as_str(), u64::MAX) {
            Some(v) => v,
            None => 30,
        },
        None => 30,
    }
}

impl Config {
    /// Whether two settings records hold the same values.
    pub open spec fn same_as(&self, o: &Config) -> bool {
        &&& self.server_url@ == o.server_url@
        &&& self.api_key@ == o.api_key@
        &&& self.poll_interval_secs == o.poll_interval_secs
        &&& self.service_dir@ == o.service_dir@
        &&& self.backup_dir@ == o.backup_dir@
        &&& self.restart_command@ == o.restart_command@
        &&& opt_view(self.health_check_command) == opt_view(o.health_check_command)
    }

    /// A copy of the settings.
    pub fn duplicate(&self) -> (r: Config)
        ensures
            r.same_as(self),
    {
        Config {
            server_url: copy_text(self.server_url.as_str()),
            api_key: copy_text(self.api_key.as_str()),
            poll_interval_secs: self.poll_interval_secs,
            service_dir: copy_text(self.service_dir.as_str()),
            backup_dir: copy_text(self.backup_dir.as_str()),
            restart_command: copy_text(self.restart_command.as_str()),
            health_check_command: crate::models::copy_opt(&self.health_check_command),
        }
    }

    /// Whether the settings are usable: the backup directory is a sibling of the
    /// service directory.
    pub open spec fn wf(&self) -> bool {
        siblings(self.service_dir@, self.backup_dir@)
    }

    /// Settings for the daemon: the server URL and the token are required; the
    /// rest default to a 30 s interval, `./service`, `./backups` and
    /// `pm2 restart all`, and no health check.
    pub fn from_settings(s: Settings) -> (r: Result<Config, ConfigError>)
        ensures
            s.server_url is None ==> r == Err::<Config, ConfigError>(ConfigError::MissingServerUrl),
            s.server_url is Some && s.api_key is None ==> r == Err::<Config, ConfigError>(
                ConfigError::MissingApiKey,
            ),
            s.server_url is Some && s.api_key is Some ==> match r {
                Ok(c) => c.server_url@ == s.server_url.unwrap()@ && c.api_key@ == s.api_key.unwrap()@
                    && Config::defaults_applied(c, s) && c.wf(),
                Err(e) => e == ConfigError::BackupNotSibling && !siblings(
                    or_default(opt_view(s.service_dir), "./service"@),
                    or_default(opt_view(s.backup_dir), "./backups"@),
                ),
            },
    {
        let Settings {
            server_url,
            api_key,
            poll_interval,
            service_dir,
            backup_dir,
            restart_command,
            health_check_command,
        } = s;
        let server_url = match server_url {
            Some(u) => u,
            None => return Err(ConfigError::MissingServerUrl),
        };
        let api_key = match api_key {
            Some(k) => k,
            None => return Err(ConfigError::MissingApiKey),
        };
        let rest = Settings {
            server_url: None,
            api_key: None,
            poll_interval,
            service_dir,
            backup_dir,
            restart_command,
            health_check_command,
        };
        Config::build(server_url, api_key, rest)
    }

    /// Settings for local use (offline apply, status): no server is needed, so
    /// the server URL and the token default to empty.
    pub fn local_from_settings(s: Settings) -> (r: Result<Config, ConfigError>)
        ensures
            match r {
                Ok(c) => c.server_url@ == or_default(opt_view(s.server_url), Seq::empty())
                    && c.api_key@ == or_default(opt_view(s.api_key), Seq::empty())
                    && Config::defaults_applied(c, s) && c.wf(),
                Err(e) => e == ConfigError::BackupNotSibling && !siblings(
                    or_default(opt_view(s.service_dir), "./service"@),
                    or_default(opt_view(s.backup_dir), "./backups"@),
                ),
            },
    {
        let Settings {
            server_url,
            api_key,
            poll_interval,
            service_dir,
            backup_dir,
            restart_command,
            health_check_command,
        } = s;
        let server_url = text_or(server_url, "");
        let api_key = text_or(api_key, "");
        proof {
            reveal_strlit("");
        }
        let rest = Settings {
            server_url: None,
            api_key: None,
            poll_interval,
            service_dir,
            backup_dir,
            restart_command,
            health_check_command,
        };
        Config::build(server_url, api_key, rest)
    }

    /// Whether the optional settings took their given values or their defaults.
    pub open spec fn defaults_applied(c: Config, s: Settings) -> bool {
        &&& c.poll_interval_secs == poll_interval_of(opt_view(s.poll_interval))
        &&& c.service_dir@ == or_default(opt_view(s.service_dir), "./service"@)
        &&& c.backup_dir@ == or_default(opt_view(s.backup_dir), "./backups"@)
        &&& c.restart_command@ == or_default(opt_view(s.restart_command), "pm2 restart all"@)
        &&& opt_view(c.health_check_command) == opt_view(s.health_check_command)
    }

    fn build(server_url: String, api_key: String, s: Settings) -> (r: Result<Config, ConfigError>)
        ensures
            match r {
                Ok(c) => c.server_url == server_url && c.api_key == api_key
                    && Config::defaults_applied(c, s) && c.wf(),
                Err(e) => e == ConfigError::BackupNotSibling && !siblings(
                    or_default(opt_view(s.service_dir), "./service"@),
                    or_default(opt_view(s.backup_dir), "./backups"@),
                ),
            },
    {
        let poll_interval_secs = poll_interval(&s.poll_interval);
        let service_dir = text_or(s.service_dir, "./service");
        let backup_dir = text_or(s.backup_dir, "./backups");
        if is_within(service_dir.as_str(), backup_dir.as_str()) || is_within(
            backup_dir.as_str(),
            service_dir.as_str(),
        ) {
            return Err(ConfigError::BackupNotSibling);
        }
        let restart_command = text_or(s.restart_command, "pm2 restart all");
        Ok(Config {
            server_url,
            api_key,
            poll_interval_secs,
            service_dir,
            backup_dir,
            restart_command,
            health_check_command: s.health_check_command,
        })
    }
}

/// A path below a directory.
pub open spec fn path_join(dir: Seq<char>, name: Seq<char>) -> Seq<char> {
    dir.push('/') + name
}

/// A directory's path joined with a name.
pub fn join_path(dir: &str, name: &str) -> (r: String)
    ensures
        r@ == path_join(dir@, name@),
{
    let mut s = copy_text(dir);
    push_char(&mut s, '/');
    s.append(name);
    s
}

/// A version text made fit for a file name: separators become `_`.
pub open spec fn file_safe(s: Seq<char>) -> Seq<char> {
    s.map_values(|c: char| if c == '/' || c == '\\' { '_' } else { c })
}

/// The name of a backup of `version` taken at the UTC time written `stamp`:
/// `backup_<version>_<stamp>`, except that a path separator (`/` or `\`) in the
/// version becomes `_`, so that a backup is always a direct child of the backup
/// directory.
pub open spec fn backup_name_of(version: Seq<char>, stamp: Seq<char>) -> Seq<char> {
    "backup_"@ + file_safe(version) + "_"@ + stamp
}

/// The UTC time of a Unix second, written `YYYYMMDD_HHMMSS`.
pub uninterp spec fn utc_stamp_of(secs: int) -> Seq<char>;

/// Relies on chrono's `DateTime::from_timestamp` and `format("%Y%m%d_%H%M%S")`:
/// the UTC calendar time of the second, which depends on it alone.
#[verifier::external_body]
fn utc_stamp(secs: i64) -> (r: String)
    requires
        0 <= secs <= 253402300799,
    ensures
        r@ == utc_stamp_of(secs as int),
{
    match chrono::DateTime::from_timestamp(secs, 0) {
        Some(t) => t.format("%Y%m%d_%H%M%S").to_string(),
        None => String::new(),
    }
}

/// The agent's updater: the rules of the update transaction that depend on its
/// settings.
pub struct Updater {
    pub config: Config,
}

impl Updater {
    pub fn new(config: Config) -> (r: Updater)
        ensures
            r.config == config,
    {
        Updater { config }
    }

    /// Whether downloaded bytes match the expected checksum.
    pub fn verify_checksum(&self, data: &[u8], expected: &str) -> (r: bool)
        ensures
            r == checksum_accepts(data@, expected@),
    {
        verify_checksum(data, expected)
    }

    /// The name of a backup of `version` taken at `stamp`.
    pub fn backup_name(version: &str, stamp: &str) -> (r: String)
        ensures
            r@ == backup_name_of(version@, stamp@),
    {
        let mut s = String::from_str("backup_");
        let n = version.unicode_len();
        let mut i: usize = 0;
        proof {
            reveal_strlit("backup_");
        }
        while i < n
            invariant
                n == version@.len(),
                i <= n,
                s@ == "backup_"@ + file_safe(version@.subrange(0, i as int)),
            decreases n - i,
        {
            let c = version.get_char(i);
            let d = if c == '/' || c == '\\' { '_' } else { c };
            push_char(&mut s, d);
            assert(file_safe(version@.subrange(0, i + 1)) =~= file_safe(version@.subrange(0, i as int)).push(d));
            i = i + 1;
        }
        assert(version@.subrange(0, n as int) =~= version@);
        s.append("_");
        s.append(stamp);
        s
    }

    /// Where the backup of `version` taken at Unix second `secs` goes.
    pub fn backup_location(&self, version: &str, secs: i64) -> (r: String)
        requires
            0 <= secs <= 253402300799,
        ensures
            r@ == path_join(self.config.backup_dir@, backup_name_of(version@, utc_stamp_of(secs as int))),
    {
        let stamp = utc_stamp(secs);
        let name = Updater::backup_name(version, stamp.as_str());
        join_path(self.config.backup_dir.as_str(), name.as_str())
    }

    /// Where a backup of `version` taken at the current Unix second `now` goes:
    /// inside the backup directory, named after the version and the UTC time.
    /// `None` where `now` lies outside the years 1970 to 9999.
    pub fn backup_current_path(&self, version: &str, now: i64) -> (r: Option<String>)
        ensures
            (0 <= now <= 253402300799) == r is Some,
            r is Some ==> r.unwrap()@ == path_join(
                self.config.backup_dir@,
                backup_name_of(version@, utc_stamp_of(now as int)),
            ),
    {
        if now < 0 || now > 253402300799 {
            return None;
        }
        Some(self.backup_location(version, now))
    }
}

/// Backups never lie inside the service directory: where the backup directory is
/// a sibling of the service directory, every path below the backup directory is
/// outside the service directory, so replacing the service directory's contents
/// leaves the backups alone.
pub proof fn backup_outside_service(service_dir: Seq<char>, backup_dir: Seq<char>, name: Seq<char>)
    requires
        siblings(service_dir, backup_dir),
    ensures
        !within(service_dir, path_join(backup_dir, name)),
{
    let s = service_dir;
    let b = backup_dir;
    let p = path_join(b, name);
    assert(p.subrange(0, b.len() as int + 1) =~= b.push('/'));
    if p == s {
        assert(is_prefix(b.push('/'), s));
        assert(false);
    }
    if is_prefix(s.push('/'), p) {
        let ls = s.len() as int;
        let lb = b.len() as int;
        assert(p.subrange(0, ls + 1) == s.push('/'));
        if ls < lb {
            assert(b.subrange(0, ls + 1) =~= s.push('/')) by {
                assert forall|j: int| 0 <= j < ls + 1 implies b[j] == s.push('/')[j] by {
                    assert(p[j] == b[j]);
                    assert(p.subrange(0, ls + 1)[j] == p[j]);
                }
            }
            assert(within(s, b));
        } else if ls == lb {
            assert(b =~= s) by {
                assert forall|j: int| 0 <= j < ls implies b[j] == s[j] by {
                    assert(p[j] == b[j]);
                    assert(p.subrange(0, ls + 1)[j] == p[j]);
                }
            }
            assert(within(s, b));
        } else {
            assert(s.subrange(0, lb + 1) =~= b.push('/')) by {
                assert forall|j: int| 0 <= j < lb + 1 implies s[j] == b.push('/')[j] by {
                    assert(p.subrange(0, ls + 1)[j] == p[j]);
                    assert(p.subrange(0, lb + 1)[j] == p[j]);
                }
            }
            assert(within(b, s));
        }
    }
}

/// Whether an artifact URL is absolute (it names its own server).
pub open spec fn is_absolute_url(u: Seq<char>) -> bool {
    is_prefix("http"@, u)
}

/// Whether an artifact URL is absolute.
pub fn absolute_url(u: &str) -> (r: bool)
    ensures
        r == is_absolute_url(u@),
{
    starts_with(u, "http")
}

} // verus!
