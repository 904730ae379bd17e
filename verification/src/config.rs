//! Application configuration: each setting from its environment value, or
//! its default where the value is absent.

use vstd::prelude::*;
use vstd::string::*;

verus! {

/// The application's settings.
#[derive(Debug)]
pub struct AppConfig {
    pub database_url: String,
    pub github_app_id: u64,
    pub github_private_key_path: String,
    pub github_webhook_secret: String,
    pub governance_repo: String,
    pub server_host: String,
    pub server_port: u16,
}

/// Which numeric setting failed to parse.
#[derive(Debug, PartialEq, Eq, Structural)]
pub enum ConfigError {
    InvalidGithubAppId,
    InvalidServerPort,
}

/// Every character is a decimal digit.
pub open spec fn all_digits(s: Seq<char>) -> bool {
    forall|i: int| 0 <= i < s.len() ==> '0' <= #[trigger] s[i] <= '9'
}

/// The value of a string of decimal digits.
pub open spec fn digits_value(s: Seq<char>) -> nat
    decreases s.len(),
{
    if s.len() == 0 {
        0
    } else {
        digits_value(s.drop_last()) * 10 + ((s.last() as int) - ('0' as int)) as nat
    }
}

/// The unsigned number a text denotes as Rust's integer parsing reads it: an
/// optional `+` followed by one or more decimal digits.
pub open spec fn unsigned_value(s: Seq<char>) -> Option<nat> {
    let d = if s.len() > 0 && s[0] == '+' { s.drop_first() } else { s };
    if d.len() > 0 && all_digits(d) { Some(digits_value(d)) } else { None }
}

/// The number a text denotes when it is at most `max`.
pub open spec fn bounded_value(s: Seq<char>, max: nat) -> Option<nat> {
    match unsigned_value(s) {
        Some(v) => if v <= max { Some(v) } else { None },
        None => None,
    }
}

/// Parses an unsigned number no greater than `max`.
pub fn parse_bounded(s: &str, max: u64) -> (r: Option<u64>)
    ensures
        r == (match bounded_value(s@, max as nat) { Some(v) => Some(v as u64), None => None::<u64> }),
{
    let n = s.unicode_len();
    let mut start: usize = 0;
    if n > 0 && s.get_char(0) == '+' {
        start = 1;
    }
    let ghost d = if s@.len() > 0 && s@[0] == '+' { s@.drop_first() } else { s@ };
    proof {
        assert(d =~= s@.subrange(start as int, n as int));
    }
    if start == n {
        return None;
    }
    let mut value: u64 = 0;
    let mut i: usize = start;
    while i < n
        invariant
            n == s@.len(),
            start <= i <= n,
            d == s@.subrange(start as int, n as int),
            d == (if s@.len() > 0 && s@[0] == '+' { s@.drop_first() } else { s@ }),
            all_digits(s@.subrange(start as int, i as int)),
            value == digits_value(s@.subrange(start as int, i as int)),
            value <= max,
        decreases n - i,
    {
        let c = s.get_char(i);
        proof {
            assert(s@.subrange(start as int, i + 1).drop_last() =~= s@.subrange(start as int, i as int));
        }
        if !('0' <= c && c <= '9') {
            proof {
                assert(d[i - start] == c);
                assert(!all_digits(d));
            }
            return None;
        }
        let digit: u64 = (c as u32 - '0' as u32) as u64;
        if digit > max || value > (max - digit) / 10 {
            proof {
                lemma_digits_monotone(d, (i - start + 1) as int);
                assert(s@.subrange(start as int, i + 1) =~= d.subrange(0, i - start + 1));
                if digit <= max {
                    assert(value * 10 + digit > max) by (nonlinear_arith)
                        requires value > (max - digit) / 10, digit <= 9, max >= digit;
                }
            }
            proof {
                if all_digits(d) {
                    assert(digits_value(d) > max);
                }
            }
            return None;
        }
        proof {
            assert(value * 10 + digit <= max) by (nonlinear_arith)
                requires value <= (max - digit) / 10, max >= digit;
        }
        value = value * 10 + digit;
        i = i + 1;
    }
    proof {
        assert(s@.subrange(start as int, n as int) =~= d);
    }
    Some(value)
}

/// A prefix of a digit string is worth no more than the whole string.
proof fn lemma_digits_monotone(d: Seq<char>, k: int)
    requires
        0 <= k <= d.len(),
    ensures
        all_digits(d) ==> digits_value(d.subrange(0, k)) <= digits_value(d),
    decreases d.len() - k,
{
    if k < d.len() {
        lemma_digits_monotone(d, k + 1);
        assert(d.subrange(0, k + 1).drop_last() =~= d.subrange(0, k));
        if all_digits(d) {
            assert('0' <= d[k] <= '9');
            assert(digits_value(d.subrange(0, k + 1)) >= digits_value(d.subrange(0, k)) * 10);
        }
    } else {
        assert(d.subrange(0, k) =~= d);
    }
}

fn value_or(v: Option<String>, default: &str) -> (r: String)
    ensures
        r@ == (match v { Some(s) => s@, None => default@ }),
{
    match v {
        Some(s) => s,
        None => String::from_str(default),
    }
}

impl AppConfig {
    /// The configuration from the environment's values (absent where the
    /// variable is unset): each text setting defaults, and the app id and
    /// port default to `123456` and `3000` and must parse as numbers.
    pub fn from_values(
        database_url: Option<String>,
        github_app_id: Option<String>,
        github_private_key_path: Option<String>,
        github_webhook_secret: Option<String>,
        governance_repo: Option<String>,
        server_host: Option<String>,
        server_port: Option<String>,
    ) -> (r: Result<AppConfig, ConfigError>)
        ensures
            ({
                let id_text = match github_app_id { Some(s) => s@, None => "123456"@ };
                let port_text = match server_port { Some(s) => s@, None => "3000"@ };
                match r {
                    Ok(c) => bounded_value(id_text, u64::MAX as nat) == Some(c.github_app_id as nat)
                        && bounded_value(port_text, u16::MAX as nat) == Some(c.server_port as nat)
                        && c.database_url@ == (match database_url { Some(s) => s@, None => "sqlite://governance.db"@ })
                        && c.github_private_key_path@ == (match github_private_key_path { Some(s) => s@, None => "/path/to/private-key.pem"@ })
                        && c.github_webhook_secret@ == (match github_webhook_secret { Some(s) => s@, None => "your_webhook_secret_here"@ })
                        && c.governance_repo@ == (match governance_repo { Some(s) => s@, None => "BTCDecoded/governance"@ })
                        && c.server_host@ == (match server_host { Some(s) => s@, None => "0.0.0.0"@ }),
                    Err(ConfigError::InvalidGithubAppId) => bounded_value(id_text, u64::MAX as nat) is None,
                    Err(ConfigError::InvalidServerPort) => bounded_value(id_text, u64::MAX as nat) is Some
                        && bounded_value(port_text, u16::MAX as nat) is None,
                }
            }),
    {
        let database_url = value_or(database_url, "sqlite://governance.db");
        let id_text = value_or(github_app_id, "123456");
        let github_app_id = match parse_bounded(id_text.as_str(), u64::MAX) {
            Some(v) => v,
            None => return Err(ConfigError::InvalidGithubAppId),
        };
        let github_private_key_path = value_or(github_private_key_path, "/path/to/private-key.pem");
        let github_webhook_secret = value_or(github_webhook_secret, "your_webhook_secret_here");
        let governance_repo = value_or(governance_repo, "BTCDecoded/governance");
        let server_host = value_or(server_host, "0.0.0.0");
        let port_text = value_or(server_port, "3000");
        let port = match parse_bounded(port_text.as_str(), 65535) {
            Some(v) => v as u16,
            None => return Err(ConfigError::InvalidServerPort),
        };
        Ok(AppConfig {
            database_url,
            github_app_id,
            github_private_key_path,
            github_webhook_secret,
            governance_repo,
            server_host,
            server_port: port,
        })
    }
}

} // verus!
