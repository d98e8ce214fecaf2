//! The server's configuration: which raw values are read from the
//! environment is the surrounding program's business; resolving them —
//! defaults, the required admin key, decimal parsing — is decided here.

use vstd::prelude::*;

verus! {

pub open spec fn is_digit_char(c: char) -> bool {
    '0' <= c && c <= '9'
}

pub open spec fn digit_val(c: char) -> int {
    c as int - '0' as int
}

/// A non-empty, all-digit character sequence.
pub open spec fn is_digit_seq(s: Seq<char>) -> bool {
    s.len() > 0 && forall|i: int| 0 <= i < s.len() ==> is_digit_char(s[i])
}

/// The number a digit sequence denotes.
pub open spec fn dec_val(s: Seq<char>) -> int
    decreases s.len(),
{
    if s.len() == 0 {
        0
    } else {
        dec_val(s.drop_last()) * 10 + digit_val(s.last())
    }
}

proof fn lemma_dec_val_nonneg(s: Seq<char>)
    requires
        forall|i: int| 0 <= i < s.len() ==> is_digit_char(s[i]),
    ensures
        dec_val(s) >= 0,
    decreases s.len(),
{
    if s.len() > 0 {
        lemma_dec_val_nonneg(s.drop_last());
    }
}

/// A digit sequence's value never falls below the value of any prefix.
proof fn lemma_dec_val_prefix(s: Seq<char>, k: int)
    requires
        0 <= k <= s.len(),
        forall|i: int| 0 <= i < s.len() ==> is_digit_char(s[i]),
    ensures
        dec_val(s.take(k)) <= dec_val(s),
    decreases s.len() - k,
{
    if k < s.len() {
        lemma_dec_val_prefix(s, k + 1);
        lemma_dec_val_nonneg(s.take(k));
        assert(s.take(k + 1).drop_last() =~= s.take(k));
        assert(s.take(k + 1).last() == s[k]);
        assert(dec_val(s.take(k + 1)) == dec_val(s.take(k)) * 10 + digit_val(s[k]));
    } else {
        assert(s.take(k) =~= s);
    }
}

/// Parses a decimal number: succeeds exactly on non-empty all-digit text
/// whose value fits, and then returns that value.
pub fn parse_u64(s: &str) -> (r: Option<u64>)
    ensures
        r is Some <==> is_digit_seq(s@) && dec_val(s@) <= u64::MAX,
        r matches Some(v) ==> v == dec_val(s@),
{
    let n = s.unicode_len();
    if n == 0 {
        return None;
    }
    let mut acc: u64 = 0;
    let mut k: usize = 0;
    while k < n
        invariant
            k <= n,
            n as nat == s@.len(),
            forall|i: int| 0 <= i < k ==> is_digit_char(s@[i]),
            acc == dec_val(s@.take(k as int)),
        decreases n - k,
    {
        let c = s.get_char(k);
        let code = c as u32;
        if code < 48 || code > 57 {
            return None;
        }
        let d: u64 = (code - 48) as u64;
        proof {
            assert(s@.take(k + 1 as int).drop_last() =~= s@.take(k as int));
            assert(s@.take(k + 1 as int).last() == s@[k as int]);
        }
        if acc > (u64::MAX - d) / 10 {
            proof {
                if is_digit_seq(s@) && dec_val(s@) <= u64::MAX {
                    lemma_dec_val_prefix(s@, k + 1 as int);
                    assert(dec_val(s@.take(k + 1 as int)) == acc * 10 + digit_val(s@[k as int]));
                }
            }
            return None;
        }
        acc = acc * 10 + d;
        k += 1;
    }
    proof {
        assert(s@.take(n as int) =~= s@);
    }
    Some(acc)
}

/// As `parse_u64`, for values that must fit a `u32`.
pub fn parse_u32(s: &str) -> (r: Option<u32>)
    ensures
        r is Some <==> is_digit_seq(s@) && dec_val(s@) <= u32::MAX,
        r matches Some(v) ==> v == dec_val(s@),
{
    match parse_u64(s) {
        None => None,
        Some(v) => {
            if v <= u32::MAX as u64 {
                Some(v as u32)
            } else {
                None
            }
        },
    }
}

/// The server's resolved configuration.
#[derive(Clone, Debug)]
pub struct Config {
    pub database_url: String,
    pub bind_address: String,
    pub admin_api_key: String,
    pub data_callback_url: Option<String>,
    pub max_connections: u32,
    pub sync_interval_seconds: u64,
    pub user_message_interval_secs: u64,
    pub room_event_callback_url: Option<String>,
    pub chat_history_callback_url: Option<String>,
    pub session_history_callback_url: Option<String>,
    pub periodic_sync_callback_url: Option<String>,
    pub chat_history_batch_size: u32,
    pub session_history_batch_size: u32,
    pub chat_history_batch_interval_seconds: u64,
    pub session_history_batch_interval_seconds: u64,
    pub callback_max_retries: u32,
    pub callback_retry_delay_seconds: u64,
    pub callback_timeout_seconds: u64,
}

/// The raw environment values the configuration is resolved from; `None`
/// where the variable is unset.
#[derive(Debug)]
pub struct RawConfig {
    pub database_url: Option<String>,
    pub bind_address: Option<String>,
    pub admin_api_key: Option<String>,
    pub data_callback_url: Option<String>,
    pub max_connections: Option<String>,
    pub sync_interval_seconds: Option<String>,
    pub user_message_interval_secs: Option<String>,
    pub room_event_callback_url: Option<String>,
    pub chat_history_callback_url: Option<String>,
    pub session_history_callback_url: Option<String>,
    pub periodic_sync_callback_url: Option<String>,
    pub chat_history_batch_size: Option<String>,
    pub session_history_batch_size: Option<String>,
    pub chat_history_batch_interval_seconds: Option<String>,
    pub session_history_batch_interval_seconds: Option<String>,
    pub callback_max_retries: Option<String>,
    pub callback_retry_delay_seconds: Option<String>,
    pub callback_timeout_seconds: Option<String>,
}

/// Why a configuration could not be resolved.
#[derive(Debug, PartialEq, Eq, Structural)]
pub enum ConfigError {
    /// The required admin API key is unset.
    MissingAdminKey,
    /// A numeric variable is set to something other than a fitting decimal
    /// number.
    BadNumber,
}

/// Whether an optional raw value parses as a decimal fitting `max` (an
/// unset value always does: the default is used).
pub open spec fn num_ok(v: Option<String>, max: int) -> bool {
    match v {
        Option::None => true,
        Option::Some(s) => is_digit_seq(s@) && dec_val(s@) <= max,
    }
}

/// The resolved number: the parsed value, or the default when unset.
pub open spec fn num_or(v: Option<String>, default: int) -> int {
    match v {
        Option::None => default,
        Option::Some(s) => dec_val(s@),
    }
}

/// The resolved text: the given value, or the default when unset.
pub open spec fn text_or(v: Option<String>, default: Seq<char>) -> Seq<char> {
    match v {
        Option::None => default,
        Option::Some(s) => s@,
    }
}

fn resolve_text(v: Option<String>, default: &str) -> (r: String)
    ensures
        r@ == text_or(v, default@),
{
    match v {
        Option::None => default.to_owned(),
        Option::Some(s) => s,
    }
}

fn resolve_u64(v: &Option<String>, default: u64) -> (r: Result<u64, ConfigError>)
    ensures
        r is Ok <==> num_ok(*v, u64::MAX as int),
        r matches Ok(n) ==> n == num_or(*v, default as int),
        r matches Err(e) ==> e == ConfigError::BadNumber,
{
    match v {
        Option::None => Ok(default),
        Option::Some(s) => match parse_u64(s.as_str()) {
            Option::Some(n) => Ok(n),
            Option::None => Err(ConfigError::BadNumber),
        },
    }
}

fn resolve_u32(v: &Option<String>, default: u32) -> (r: Result<u32, ConfigError>)
    ensures
        r is Ok <==> num_ok(*v, u32::MAX as int),
        r matches Ok(n) ==> n == num_or(*v, default as int),
        r matches Err(e) ==> e == ConfigError::BadNumber,
{
    match v {
        Option::None => Ok(default),
        Option::Some(s) => match parse_u32(s.as_str()) {
            Option::Some(n) => Ok(n),
            Option::None => Err(ConfigError::BadNumber),
        },
    }
}

impl Config {
    /// Resolves the configuration: the admin key is required, every other
    /// value has a default, and numeric values must be fitting decimals.
    pub fn from_values(raw: RawConfig) -> (r: Result<Config, ConfigError>)
        ensures
            r is Ok <==> raw.admin_api_key is Some && num_ok(raw.max_connections, u32::MAX as int)
                && num_ok(raw.sync_interval_seconds, u64::MAX as int) && num_ok(
                raw.user_message_interval_secs,
                u64::MAX as int,
            ) && num_ok(raw.chat_history_batch_size, u32::MAX as int) && num_ok(
                raw.session_history_batch_size,
                u32::MAX as int,
            ) && num_ok(raw.chat_history_batch_interval_seconds, u64::MAX as int) && num_ok(
                raw.session_history_batch_interval_seconds,
                u64::MAX as int,
            ) && num_ok(raw.callback_max_retries, u32::MAX as int) && num_ok(
                raw.callback_retry_delay_seconds,
                u64::MAX as int,
            ) && num_ok(raw.callback_timeout_seconds, u64::MAX as int),
            r matches Ok(c) ==> {
                &&& c.database_url@ == text_or(raw.database_url, "sqlite::memory:"@)
                &&& c.bind_address@ == text_or(raw.bind_address, "0.0.0.0:3000"@)
                &&& raw.admin_api_key matches Some(k) && c.admin_api_key == k
                &&& c.data_callback_url == raw.data_callback_url
                &&& c.max_connections == num_or(raw.max_connections, 100000)
                &&& c.sync_interval_seconds == num_or(raw.sync_interval_seconds, 300)
                &&& c.user_message_interval_secs == num_or(raw.user_message_interval_secs, 5)
                &&& c.room_event_callback_url == raw.room_event_callback_url
                &&& c.chat_history_callback_url == raw.chat_history_callback_url
                &&& c.session_history_callback_url == raw.session_history_callback_url
                &&& c.periodic_sync_callback_url == raw.periodic_sync_callback_url
                &&& c.chat_history_batch_size == num_or(raw.chat_history_batch_size, 1000)
                &&& c.session_history_batch_size == num_or(raw.session_history_batch_size, 500)
                &&& c.chat_history_batch_interval_seconds == num_or(
                    raw.chat_history_batch_interval_seconds,
                    300,
                )
                &&& c.session_history_batch_interval_seconds == num_or(
                    raw.session_history_batch_interval_seconds,
                    600,
                )
                &&& c.callback_max_retries == num_or(raw.callback_max_retries, 3)
                &&& c.callback_retry_delay_seconds == num_or(raw.callback_retry_delay_seconds, 5)
                &&& c.callback_timeout_seconds == num_or(raw.callback_timeout_seconds, 30)
            },
            r matches Err(e) ==> (e == ConfigError::MissingAdminKey <==> raw.admin_api_key
                is None),
    {
        let admin_api_key = match raw.admin_api_key {
            Option::Some(k) => k,
            Option::None => {
                return Err(ConfigError::MissingAdminKey);
            },
        };
        let max_connections = match resolve_u32(&raw.max_connections, 100000) {
            Ok(n) => n,
            Err(e) => {
                return Err(e);
            },
        };
        let sync_interval_seconds = match resolve_u64(&raw.sync_interval_seconds, 300) {
            Ok(n) => n,
            Err(e) => {
                return Err(e);
            },
        };
        let user_message_interval_secs = match resolve_u64(&raw.user_message_interval_secs, 5) {
            Ok(n) => n,
            Err(e) => {
                return Err(e);
            },
        };
        let chat_history_batch_size = match resolve_u32(&raw.chat_history_batch_size, 1000) {
            Ok(n) => n,
            Err(e) => {
                return Err(e);
            },
        };
        let session_history_batch_size = match resolve_u32(&raw.session_history_batch_size, 500) {
            Ok(n) => n,
            Err(e) => {
                return Err(e);
            },
        };
        let chat_history_batch_interval_seconds = match resolve_u64(
            &raw.chat_history_batch_interval_seconds,
            300,
        ) {
            Ok(n) => n,
            Err(e) => {
                return Err(e);
            },
        };
        let session_history_batch_interval_seconds = match resolve_u64(
            &raw.session_history_batch_interval_seconds,
            600,
        ) {
            Ok(n) => n,
            Err(e) => {
                return Err(e);
            },
        };
        let callback_max_retries = match resolve_u32(&raw.callback_max_retries, 3) {
            Ok(n) => n,
            Err(e) => {
                return Err(e);
            },
        };
        let callback_retry_delay_seconds = match resolve_u64(
            &raw.callback_retry_delay_seconds,
            5,
        ) {
            Ok(n) => n,
            Err(e) => {
                return Err(e);
            },
        };
        let callback_timeout_seconds = match resolve_u64(&raw.callback_timeout_seconds, 30) {
            Ok(n) => n,
            Err(e) => {
                return Err(e);
            },
        };
        Ok(
            Config {
                database_url: resolve_text(raw.database_url, "sqlite::memory:"),
                bind_address: resolve_text(raw.bind_address, "0.0.0.0:3000"),
                admin_api_key,
                data_callback_url: raw.data_callback_url,
                max_connections,
                sync_interval_seconds,
                user_message_interval_secs,
                room_event_callback_url: raw.room_event_callback_url,
                chat_history_callback_url: raw.chat_history_callback_url,
                session_history_callback_url: raw.session_history_callback_url,
                periodic_sync_callback_url: raw.periodic_sync_callback_url,
                chat_history_batch_size,
                session_history_batch_size,
                chat_history_batch_interval_seconds,
                session_history_batch_interval_seconds,
                callback_max_retries,
                callback_retry_delay_seconds,
                callback_timeout_seconds,
            },
        )
    }
}

} // verus!
