//! The server's configuration, the overrides taken from the environment,
//! and the database file that the configured URL names.

use vstd::prelude::*;

use crate::text::{owned, same_text};

verus! {

/// The whole configuration.
#[derive(Debug, Clone)]
pub struct AppConfig {
    pub server: ServerConfig,
    pub database: DatabaseConfig,
    pub redis: RedisConfig,
    pub worker: WorkerConfig,
}

/// Where the HTTP server listens.
#[derive(Debug, Clone)]
pub struct ServerConfig {
    pub bind: String,
}

/// Where the ledger lives.
#[derive(Debug, Clone)]
pub struct DatabaseConfig {
    pub url: String,
}

/// How Redis is reached and used for the queue and the result cache.
#[derive(Debug, Clone)]
pub struct RedisConfig {
    pub url: String,
    pub pool_size: usize,
    pub queue_key: String,
    pub result_prefix: String,
    pub result_ttl_seconds: u64,
}

/// How many workers run and how long they get to finish at shutdown.
#[derive(Debug, Clone)]
pub struct WorkerConfig {
    pub concurrency: usize,
    pub shutdown_grace_seconds: u64,
}

/// The overriding values found in the environment, one per variable that
/// may override the configuration (`None` where the variable is unset).
#[derive(Debug, Clone)]
pub struct EnvOverrides {
    /// `COMPLEX_SERVER__SERVER__BIND`
    pub server_bind: Option<String>,
    /// `COMPLEX_SERVER__DATABASE__URL`
    pub database_url: Option<String>,
    /// `COMPLEX_SERVER__REDIS__URL`
    pub redis_url: Option<String>,
    /// `COMPLEX_SERVER__REDIS__POOL_SIZE`
    pub redis_pool_size: Option<String>,
    /// `COMPLEX_SERVER__REDIS__QUEUE_KEY`
    pub redis_queue_key: Option<String>,
    /// `COMPLEX_SERVER__REDIS__RESULT_PREFIX`
    pub redis_result_prefix: Option<String>,
    /// `COMPLEX_SERVER__REDIS__RESULT_TTL_SECONDS`
    pub redis_result_ttl_seconds: Option<String>,
    /// `COMPLEX_SERVER__WORKER__CONCURRENCY`
    pub worker_concurrency: Option<String>,
    /// `COMPLEX_SERVER__WORKER__SHUTDOWN_GRACE_SECONDS`
    pub worker_shutdown_grace_seconds: Option<String>,
}

/// `c` is one of the ASCII digits.
pub open spec fn is_ascii_digit(c: char) -> bool {
    '0' <= c && c <= '9'
}

/// The number that a string of ASCII digits denotes, read in base ten.
pub open spec fn decimal_digits_value(s: Seq<char>) -> nat
    decreases s.len(),
{
    if s.len() == 0 {
        0
    } else {
        (decimal_digits_value(s.drop_last()) * 10 + (s.last() as int - '0' as int)) as nat
    }
}

/// The text after an optional leading `+`.
pub open spec fn unsigned_digits_part(s: Seq<char>) -> Seq<char> {
    if s.len() > 0 && s[0] == '+' {
        s.drop_first()
    } else {
        s
    }
}

/// `d` is one or more ASCII digits and nothing else.
pub open spec fn all_ascii_digits(d: Seq<char>) -> bool {
    d.len() > 0 && forall|i: int| 0 <= i < d.len() ==> is_ascii_digit(#[trigger] d[i])
}

/// The number an unsigned integer text denotes: an optional `+` followed by
/// one or more ASCII digits, and nothing else; `None` for any other text.
pub open spec fn unsigned_text_value(s: Seq<char>) -> Option<nat> {
    if all_ascii_digits(unsigned_digits_part(s)) {
        Some(decimal_digits_value(unsigned_digits_part(s)))
    } else {
        None
    }
}

/// A digit string's value is at least that of each of its prefixes.
proof fn lemma_prefix_value_le(d: Seq<char>, k: int)
    requires
        0 <= k <= d.len(),
        forall|i: int| 0 <= i < d.len() ==> is_ascii_digit(#[trigger] d[i]),
    ensures
        decimal_digits_value(d.subrange(0, k)) <= decimal_digits_value(d),
    decreases d.len(),
{
    if k < d.len() {
        let p = d.drop_last();
        assert forall|i: int| 0 <= i < p.len() implies is_ascii_digit(#[trigger] p[i]) by {
            assert(p[i] == d[i]);
        }
        lemma_prefix_value_le(p, k);
        assert(p.subrange(0, k) =~= d.subrange(0, k));
        assert(is_ascii_digit(d[d.len() - 1]));
    } else {
        assert(d.subrange(0, k) =~= d);
    }
}

/// A text that is not all ASCII has no unsigned value.
proof fn lemma_non_ascii_has_no_value(s: Seq<char>)
    requires
        !vstd::utf8::is_ascii_chars(s),
    ensures
        unsigned_text_value(s) is None,
{
    let d = unsigned_digits_part(s);
    if all_ascii_digits(d) {
        assert forall|i: int| 0 <= i < s.len() implies '\0' <= #[trigger] s[i] <= '\u{7f}' by {
            if s.len() > 0 && s[0] == '+' {
                if i > 0 {
                    assert(s[i] == d[i - 1]);
                }
            } else {
                assert(s[i] == d[i]);
            }
        }
    }
}

/// Reads an unsigned decimal text (an optional `+`, then one or more ASCII
/// digits, and nothing else) whose value is at most `limit`; `None` for any
/// other text or a larger value.
fn parse_decimal(s: &str, limit: u64) -> (r: Option<u64>)
    ensures
        r is Some <==> (unsigned_text_value(s@) matches Some(v) && v <= limit),
        r matches Some(v) ==> unsigned_text_value(s@) == Some(v as nat),
{
    if !s.is_ascii() {
        proof {
            lemma_non_ascii_has_no_value(s@);
        }
        return None;
    }
    let b = s.as_bytes();
    proof {
        vstd::string::is_ascii_spec_bytes(s);
    }
    let n: usize = b.len();
    assert(n == s@.len());
    let ghost t = s@;
    let mut i: usize = 0;
    if n > 0 && b[0] == 43u8 {
        i = 1;
    }
    let start: usize = i;
    proof {
        assert(t.len() > 0 && t[0] == '+' <==> start == 1) by {
            if n > 0 {
                assert(b@[0] == t[0] as u8);
            }
        }
        assert(unsigned_digits_part(t) =~= t.subrange(start as int, n as int));
    }
    if start == n {
        return None;
    }
    let mut acc: u64 = 0;
    while i < n
        invariant
            start <= i <= n,
            n == t.len(),
            t == s@,
            b@ == Seq::new(t.len(), |k: int| t[k] as u8),
            unsigned_digits_part(t) =~= t.subrange(start as int, n as int),
            start < n,
            forall|k: int| start <= k < i ==> is_ascii_digit(#[trigger] t[k]),
            acc as nat == decimal_digits_value(t.subrange(start as int, i as int)),
            acc <= limit,
            vstd::utf8::is_ascii_chars(t),
        decreases n - i,
    {
        let c: u8 = b[i];
        let ghost d = unsigned_digits_part(t);
        assert(c == t[i as int] as u8);
        assert('\0' <= t[i as int] <= '\u{7f}');
        if c < 48u8 || c > 57u8 {
            proof {
                assert(d[i - start] == t[i as int]);
                assert(!is_ascii_digit(d[i - start]));
            }
            return None;
        }
        let digit: u64 = (c - 48u8) as u64;
        proof {
            assert(is_ascii_digit(t[i as int]));
            assert(t.subrange(start as int, i + 1).drop_last() =~= t.subrange(start as int, i as int));
            assert(t.subrange(start as int, i + 1).last() == t[i as int]);
            assert(digit as int == t[i as int] as int - '0' as int);
        }
        let ghost next: nat = decimal_digits_value(t.subrange(start as int, i + 1));
        assert(next == acc * 10 + digit);
        let fits: bool = acc <= (u64::MAX - digit) / 10 && acc * 10 + digit <= limit;
        if !fits {
            proof {
                assert(next > limit) by (nonlinear_arith)
                    requires
                        next == acc * 10 + digit,
                        !(acc <= (u64::MAX - digit) / 10 && acc * 10 + digit <= limit),
                        limit <= u64::MAX,
                        digit <= 9,
                ;
                if all_ascii_digits(d) {
                    assert(d.subrange(0, i + 1 - start) =~= t.subrange(start as int, i + 1));
                    lemma_prefix_value_le(d, i + 1 - start);
                }
            }
            return None;
        }
        acc = acc * 10 + digit;
        i = i + 1;
    }
    proof {
        assert(t.subrange(start as int, n as int) =~= unsigned_digits_part(t));
    }
    Some(acc)
}

/// Reads a count as `str::parse::<usize>` does: an optional `+` followed by
/// decimal digits, whose value fits in a `usize`.
pub(crate) fn parse_usize(s: &str) -> (r: Option<usize>)
    ensures
        r is Some <==> (unsigned_text_value(s@) matches Some(v) && v <= usize::MAX),
        r matches Some(v) ==> unsigned_text_value(s@) == Some(v as nat),
{
    match parse_decimal(s, usize::MAX as u64) {
        Some(v) => Some(v as usize),
        None => None,
    }
}

/// Reads a number as `str::parse::<u64>` does: an optional `+` followed by
/// decimal digits, whose value fits in a `u64`.
pub(crate) fn parse_u64(s: &str) -> (r: Option<u64>)
    ensures
        r is Some <==> (unsigned_text_value(s@) matches Some(v) && v <= u64::MAX),
        r matches Some(v) ==> unsigned_text_value(s@) == Some(v as nat),
{
    parse_decimal(s, u64::MAX)
}

/// The count an override text sets, where it is a count at all.
pub open spec fn override_count(text: Option<String>, current: usize) -> usize {
    match text {
        Some(t) => match unsigned_text_value(t@) {
            Some(v) => if v <= usize::MAX { v as usize } else { current },
            None => current,
        },
        None => current,
    }
}

/// The number of seconds an override text sets, where it reads as a `u64`.
pub open spec fn override_seconds(text: Option<String>, current: u64) -> u64 {
    match text {
        Some(t) => match unsigned_text_value(t@) {
            Some(v) => if v <= u64::MAX { v as u64 } else { current },
            None => current,
        },
        None => current,
    }
}

/// The text an override sets, or the current one where there is none.
pub open spec fn override_text(text: Option<String>, current: String) -> String {
    match text {
        Some(v) => v,
        None => current,
    }
}

/// A setting whose override is absent keeps its value; a numeric setting
/// whose override text is not a number keeps its value too; a text
/// override replaces its setting.
pub proof fn lemma_absent_overrides_keep_values(count: usize, seconds: u64, text: String, t: String)
    ensures
        override_count(None, count) == count,
        override_seconds(None, seconds) == seconds,
        override_text(None, text) == text,
        override_text(Some(t), text) == t,
        unsigned_text_value(t@) is None ==> override_count(Some(t), count) == count,
        unsigned_text_value(t@) is None ==> override_seconds(Some(t), seconds) == seconds,
{
}

impl AppConfig {
    /// Applies the overrides from the environment, one per setting: a text
    /// replaces its setting outright, and a number replaces its setting
    /// where the text reads as a number of that setting's type (a text that
    /// does not is ignored). A setting without an override keeps its value.
    pub fn apply_env_overrides(&mut self, env: EnvOverrides)
        ensures
            final(self).server.bind == override_text(env.server_bind, old(self).server.bind),
            final(self).database.url == override_text(env.database_url, old(self).database.url),
            final(self).redis.url == override_text(env.redis_url, old(self).redis.url),
            final(self).redis.pool_size == override_count(env.redis_pool_size, old(self).redis.pool_size),
            final(self).redis.queue_key == override_text(
                env.redis_queue_key,
                old(self).redis.queue_key,
            ),
            final(self).redis.result_prefix == override_text(
                env.redis_result_prefix,
                old(self).redis.result_prefix,
            ),
            final(self).redis.result_ttl_seconds == override_seconds(
                env.redis_result_ttl_seconds,
                old(self).redis.result_ttl_seconds,
            ),
            final(self).worker.concurrency == override_count(
                env.worker_concurrency,
                old(self).worker.concurrency,
            ),
            final(self).worker.shutdown_grace_seconds == override_seconds(
                env.worker_shutdown_grace_seconds,
                old(self).worker.shutdown_grace_seconds,
            ),
            env.server_bind is None ==> final(self).server.bind == old(self).server.bind,
            env.server_bind matches Some(t) ==> final(self).server.bind == t,
            env.database_url is None ==> final(self).database.url == old(self).database.url,
            env.database_url matches Some(t) ==> final(self).database.url == t,
            env.redis_url is None ==> final(self).redis.url == old(self).redis.url,
            env.redis_url matches Some(t) ==> final(self).redis.url == t,
            env.redis_queue_key is None ==> final(self).redis.queue_key == old(self).redis.queue_key,
            env.redis_queue_key matches Some(t) ==> final(self).redis.queue_key == t,
            env.redis_result_prefix is None ==> final(self).redis.result_prefix == old(self).redis.result_prefix,
            env.redis_result_prefix matches Some(t) ==> final(self).redis.result_prefix == t,
            env.redis_pool_size is None ==> final(self).redis.pool_size == old(self).redis.pool_size,
            env.redis_pool_size matches Some(t) ==> if unsigned_text_value(t@) matches Some(v) && v <= usize::MAX {
                final(self).redis.pool_size as nat == unsigned_text_value(t@)->0
            } else {
                final(self).redis.pool_size == old(self).redis.pool_size
            },
            env.redis_result_ttl_seconds is None ==> final(self).redis.result_ttl_seconds == old(self).redis.result_ttl_seconds,
            env.redis_result_ttl_seconds matches Some(t) ==> if unsigned_text_value(t@) matches Some(v) && v <= u64::MAX {
                final(self).redis.result_ttl_seconds as nat == unsigned_text_value(t@)->0
            } else {
                final(self).redis.result_ttl_seconds == old(self).redis.result_ttl_seconds
            },
            env.worker_concurrency is None ==> final(self).worker.concurrency == old(self).worker.concurrency,
            env.worker_concurrency matches Some(t) ==> if unsigned_text_value(t@) matches Some(v) && v <= usize::MAX {
                final(self).worker.concurrency as nat == unsigned_text_value(t@)->0
            } else {
                final(self).worker.concurrency == old(self).worker.concurrency
            },
            env.worker_shutdown_grace_seconds is None ==> final(self).worker.shutdown_grace_seconds == old(self).worker.shutdown_grace_seconds,
            env.worker_shutdown_grace_seconds matches Some(t) ==> if unsigned_text_value(t@) matches Some(v) && v <= u64::MAX {
                final(self).worker.shutdown_grace_seconds as nat == unsigned_text_value(t@)->0
            } else {
                final(self).worker.shutdown_grace_seconds == old(self).worker.shutdown_grace_seconds
            },
    {
        if let Some(v) = env.server_bind {
            self.server.bind = v;
        }
        if let Some(v) = env.database_url {
            self.database.url = v;
        }
        if let Some(v) = env.redis_url {
            self.redis.url = v;
        }
        if let Some(v) = env.redis_pool_size {
            if let Some(n) = parse_usize(v.as_str()) {
                self.redis.pool_size = n;
            }
        }
        if let Some(v) = env.redis_queue_key {
            self.redis.queue_key = v;
        }
        if let Some(v) = env.redis_result_prefix {
            self.redis.result_prefix = v;
        }
        if let Some(v) = env.redis_result_ttl_seconds {
            if let Some(n) = parse_u64(v.as_str()) {
                self.redis.result_ttl_seconds = n;
            }
        }
        if let Some(v) = env.worker_concurrency {
            if let Some(n) = parse_usize(v.as_str()) {
                self.worker.concurrency = n;
            }
        }
        if let Some(v) = env.worker_shutdown_grace_seconds {
            if let Some(n) = parse_u64(v.as_str()) {
                self.worker.shutdown_grace_seconds = n;
            }
        }
    }
}

/// The URL without its `sqlite://` scheme, where it has one.
pub open spec fn without_sqlite_scheme(url: Seq<char>) -> Seq<char> {
    if url.len() >= 9 && url.subrange(0, 9) == "sqlite://"@ {
        url.subrange(9, url.len() as int)
    } else {
        url
    }
}

/// `p` is the part of `s` before its first `?` (all of `s` if it has none).
pub open spec fn is_part_before_query(p: Seq<char>, s: Seq<char>) -> bool {
    &&& p.len() <= s.len()
    &&& p == s.subrange(0, p.len() as int)
    &&& forall|i: int| 0 <= i < p.len() ==> #[trigger] p[i] != '?'
    &&& (p.len() == s.len() || s[p.len() as int] == '?')
}

/// The path of the database file that a database URL names: the URL
/// without its `sqlite://` scheme, up to its first `?`.
pub fn database_file_path(url: &str) -> (r: String)
    ensures
        is_part_before_query(r@, without_sqlite_scheme(url@)),
{
    let n = url.unicode_len();
    let rest: &str = if n >= 9 && same_text(url.substring_char(0, 9), "sqlite://") {
        url.substring_char(9, n)
    } else {
        url
    };
    assert(rest@ == without_sqlite_scheme(url@));
    let m = rest.unicode_len();
    let mut i: usize = 0;
    while i < m
        invariant
            m == rest@.len(),
            i <= m,
            forall|j: int| 0 <= j < i ==> rest@[j] != '?',
        ensures
            i <= m,
            forall|j: int| 0 <= j < i ==> rest@[j] != '?',
            i == m || rest@[i as int] == '?',
        decreases m - i,
    {
        if rest.get_char(i) == '?' {
            break;
        }
        i = i + 1;
    }
    let p = owned(rest.substring_char(0, i));
    assert(p@ =~= rest@.subrange(0, i as int));
    p
}

} // verus!
