//! The settings of the gateway, made once from what the environment holds.

use vstd::prelude::*;
use vstd::string::*;
use crate::orchestrator::model::Retries;

verus! {

/// The value of a decimal digit, if `c` is one.
pub open spec fn digit_value(c: char) -> Option<nat> {
    if '0' <= c && c <= '9' {
        Some((c as nat - '0' as nat) as nat)
    } else {
        None
    }
}

/// Whether `s` is made of decimal digits only.
pub open spec fn all_digits(s: Seq<char>) -> bool {
    forall|i: int| 0 <= i < s.len() ==> digit_value(#[trigger] s[i]) is Some
}

/// The number that the digits of `s` write in base ten.
pub open spec fn decimal(s: Seq<char>) -> nat
    decreases s.len(),
{
    if s.len() == 0 {
        0
    } else {
        decimal(s.drop_last()) * 10 + digit_value(s.last()).unwrap_or(0)
    }
}

/// `s` without a leading plus sign.
pub open spec fn unsigned(s: Seq<char>) -> Seq<char> {
    if s.len() > 0 && s[0] == '+' {
        s.subrange(1, s.len() as int)
    } else {
        s
    }
}

/// The count that `s` writes: an optional plus sign, then at least one
/// decimal digit and nothing else, and a number that a machine word holds.
/// Anything else writes no count.
pub open spec fn count_of(s: Seq<char>) -> Option<usize> {
    let digits = unsigned(s);
    if digits.len() > 0 && all_digits(digits) && decimal(digits) <= usize::MAX {
        Some(decimal(digits) as usize)
    } else {
        None
    }
}

/// A longer run of digits writes no smaller a number.
proof fn lemma_decimal_grows(s: Seq<char>, k: int)
    requires
        0 <= k <= s.len(),
    ensures
        decimal(s.take(k)) <= decimal(s),
    decreases s.len() - k,
{
    if k < s.len() {
        lemma_decimal_grows(s, k + 1);
        assert(s.take(k + 1).drop_last() =~= s.take(k));
        assert(decimal(s.take(k)) <= decimal(s.take(k + 1))) by (nonlinear_arith)
            requires
                decimal(s.take(k + 1)) == decimal(s.take(k)) * 10 + digit_value(
                    s.take(k + 1).last(),
                ).unwrap_or(0),
        ;
    } else {
        assert(s.take(k) =~= s);
    }
}

/// The value of the decimal digit `c`, if it is one.
fn digit(c: char) -> (d: Option<usize>)
    ensures
        match d {
            Some(v) => digit_value(c) == Some(v as nat),
            None => digit_value(c) is None,
        },
{
    if '0' <= c && c <= '9' {
        Some((c as u32 - '0' as u32) as usize)
    } else {
        None
    }
}

/// Reads a count written in decimal.
pub fn parse_count(s: &str) -> (r: Option<usize>)
    ensures
        r == count_of(s@),
{
    let n = s.unicode_len();
    if n == 0 {
        return None;
    }
    let start: usize = if s.get_char(0) == '+' {
        1
    } else {
        0
    };
    if start == n {
        return None;
    }
    let ghost digits = unsigned(s@);
    let mut value: usize = 0;
    let mut i: usize = start;
    assert(digits.take(0) =~= Seq::<char>::empty());
    while i < n
        invariant
            n == s@.len(),
            start <= i <= n,
            start <= 1,
            digits == s@.subrange(start as int, n as int),
            digits == unsigned(s@),
            forall|j: int| 0 <= j < i - start ==> digit_value(#[trigger] digits[j]) is Some,
            value == decimal(digits.take(i - start)),
        decreases n - i,
    {
        let ghost k = i - start;
        proof {
            assert(digits.take(k + 1).drop_last() =~= digits.take(k));
            assert(digits.take(k + 1).last() == s@[i as int]);
            assert(digits[k] == s@[i as int]);
        }
        match digit(s.get_char(i)) {
            Some(d) => {
                if value > (usize::MAX - d) / 10 {
                    proof {
                        lemma_decimal_grows(digits, k + 1);
                    }
                    return None;
                }
                value = value * 10 + d;
            },
            None => {
                return None;
            },
        }
        i += 1;
    }
    proof {
        assert(digits.take(i - start) =~= digits);
    }
    Some(value)
}

/// The names that the gateway reads from the environment.
#[derive(Debug, Clone, Copy, PartialEq, Eq, Structural)]
pub enum Variable {
    WltApikey,
    WltEndpoint,
    WltVersion,
    WltRetry,
    WaEndpoint,
    WaId,
    WaApikey,
    WaVersion,
    WaRetry,
}

impl Variable {
    /// The name as the environment spells it.
    pub open spec fn spelling(self) -> Seq<char> {
        match self {
            Variable::WltApikey => "WLT_APIKEY"@,
            Variable::WltEndpoint => "WLT_ENDPOINT"@,
            Variable::WltVersion => "WLT_VERSION"@,
            Variable::WltRetry => "WLT_RETRY"@,
            Variable::WaEndpoint => "WA_ENDPOINT"@,
            Variable::WaId => "WA_ID"@,
            Variable::WaApikey => "WA_APIKEY"@,
            Variable::WaVersion => "WA_VERSION"@,
            Variable::WaRetry => "WA_RETRY"@,
        }
    }

    /// The name as the environment spells it.
    pub fn name(&self) -> (name: &'static str)
        ensures
            name@ == self.spelling(),
    {
        match self {
            Variable::WltApikey => "WLT_APIKEY",
            Variable::WltEndpoint => "WLT_ENDPOINT",
            Variable::WltVersion => "WLT_VERSION",
            Variable::WltRetry => "WLT_RETRY",
            Variable::WaEndpoint => "WA_ENDPOINT",
            Variable::WaId => "WA_ID",
            Variable::WaApikey => "WA_APIKEY",
            Variable::WaVersion => "WA_VERSION",
            Variable::WaRetry => "WA_RETRY",
        }
    }
}

/// What the environment holds under each name that the gateway reads;
/// `None` where it holds nothing.
#[derive(Debug)]
pub struct Environment {
    pub wlt_apikey: Option<String>,
    pub wlt_endpoint: Option<String>,
    pub wlt_version: Option<String>,
    pub wlt_retry: Option<String>,
    pub wa_endpoint: Option<String>,
    pub wa_id: Option<String>,
    pub wa_apikey: Option<String>,
    pub wa_version: Option<String>,
    pub wa_retry: Option<String>,
}

/// The settings of the gateway.
#[derive(Debug)]
pub struct Settings {
    pub wlt_api_key: String,
    pub wlt_endpoint: String,
    pub wlt_version: String,
    pub wlt_retry: usize,
    pub wa_endpoint: String,
    pub wa_id: String,
    pub wa_api_key: String,
    pub wa_version: String,
    pub wa_retry: usize,
}

/// Why the gateway cannot start.
#[derive(Debug, Clone, Copy, PartialEq, Eq, Structural)]
pub enum ConfigErr {
    /// The environment holds nothing under a name that is required.
    Undefined(Variable),
    /// The environment holds, as a retry count, something that is no count.
    NotNumeric(Variable),
}

/// How many retries are made when none are configured.
pub const DEFAULT_RETRY: usize = 1;

/// The retry count that `held` configures: the default where nothing is
/// held, else the count that is written, if one is.
pub open spec fn retry_of(held: Option<String>) -> Option<usize> {
    match held {
        Some(written) => count_of(written@),
        None => Some(DEFAULT_RETRY),
    }
}

/// The first name, in the order in which the settings are read, whose value
/// is missing or is no count; `None` if there is no such name.
pub open spec fn first_fault(env: Environment) -> Option<ConfigErr> {
    if env.wlt_apikey is None {
        Some(ConfigErr::Undefined(Variable::WltApikey))
    } else if env.wlt_endpoint is None {
        Some(ConfigErr::Undefined(Variable::WltEndpoint))
    } else if env.wlt_version is None {
        Some(ConfigErr::Undefined(Variable::WltVersion))
    } else if retry_of(env.wlt_retry) is None {
        Some(ConfigErr::NotNumeric(Variable::WltRetry))
    } else if env.wa_endpoint is None {
        Some(ConfigErr::Undefined(Variable::WaEndpoint))
    } else if env.wa_id is None {
        Some(ConfigErr::Undefined(Variable::WaId))
    } else if env.wa_apikey is None {
        Some(ConfigErr::Undefined(Variable::WaApikey))
    } else if env.wa_version is None {
        Some(ConfigErr::Undefined(Variable::WaVersion))
    } else if retry_of(env.wa_retry) is None {
        Some(ConfigErr::NotNumeric(Variable::WaRetry))
    } else {
        None
    }
}

/// The settings that an environment without a fault configures.
pub open spec fn settings_of(env: Environment) -> Settings {
    Settings {
        wlt_api_key: env.wlt_apikey->0,
        wlt_endpoint: env.wlt_endpoint->0,
        wlt_version: env.wlt_version->0,
        wlt_retry: retry_of(env.wlt_retry)->0,
        wa_endpoint: env.wa_endpoint->0,
        wa_id: env.wa_id->0,
        wa_api_key: env.wa_apikey->0,
        wa_version: env.wa_version->0,
        wa_retry: retry_of(env.wa_retry)->0,
    }
}

/// The retry count that `held` configures, if it configures one.
fn retry(held: &Option<String>) -> (r: Option<usize>)
    ensures
        r == retry_of(*held),
{
    match held {
        Some(written) => parse_count(written.as_str()),
        None => Some(DEFAULT_RETRY),
    }
}

impl Settings {
    /// Makes the settings from what the environment holds.
    ///
    /// The addresses, credentials, versions and the assistant's identifier
    /// are required. The retry counts are one each unless the environment
    /// says otherwise. The result is an error exactly when something
    /// required is missing or a retry count is no count, and the error names
    /// the first such fault.
    pub fn configure(env: Environment) -> (r: Result<Settings, ConfigErr>)
        ensures
            match first_fault(env) {
                Some(fault) => r == Err::<Settings, ConfigErr>(fault),
                None => r == Ok::<Settings, ConfigErr>(settings_of(env)),
            },
    {
        let wlt_api_key = match env.wlt_apikey {
            Some(value) => value,
            None => {
                return Err(ConfigErr::Undefined(Variable::WltApikey));
            },
        };
        let wlt_endpoint = match env.wlt_endpoint {
            Some(value) => value,
            None => {
                return Err(ConfigErr::Undefined(Variable::WltEndpoint));
            },
        };
        let wlt_version = match env.wlt_version {
            Some(value) => value,
            None => {
                return Err(ConfigErr::Undefined(Variable::WltVersion));
            },
        };
        let wlt_retry = match retry(&env.wlt_retry) {
            Some(count) => count,
            None => {
                return Err(ConfigErr::NotNumeric(Variable::WltRetry));
            },
        };
        let wa_endpoint = match env.wa_endpoint {
            Some(value) => value,
            None => {
                return Err(ConfigErr::Undefined(Variable::WaEndpoint));
            },
        };
        let wa_id = match env.wa_id {
            Some(value) => value,
            None => {
                return Err(ConfigErr::Undefined(Variable::WaId));
            },
        };
        let wa_api_key = match env.wa_apikey {
            Some(value) => value,
            None => {
                return Err(ConfigErr::Undefined(Variable::WaApikey));
            },
        };
        let wa_version = match env.wa_version {
            Some(value) => value,
            None => {
                return Err(ConfigErr::Undefined(Variable::WaVersion));
            },
        };
        let wa_retry = match retry(&env.wa_retry) {
            Some(count) => count,
            None => {
                return Err(ConfigErr::NotNumeric(Variable::WaRetry));
            },
        };
        Ok(
            Settings {
                wlt_api_key,
                wlt_endpoint,
                wlt_version,
                wlt_retry,
                wa_endpoint,
                wa_id,
                wa_api_key,
                wa_version,
                wa_retry,
            },
        )
    }

    /// The retry counts of the settings.
    pub fn retries(&self) -> (r: Retries)
        ensures
            r == (Retries { wlt: self.wlt_retry, wa: self.wa_retry }),
    {
        Retries { wlt: self.wlt_retry, wa: self.wa_retry }
    }
}

} // verus!
