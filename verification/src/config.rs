use vstd::prelude::*;

use crate::text::chars_of;

verus! {

/// The settings the server starts with.
#[derive(Clone)]
pub struct Env {
    pub app_name: String,
    pub app_port: u16,
    pub database_url: String,
    pub jwt_secret: String,
    pub jwt_access_expire_minutes: i64,
    pub jwt_refresh_expire_days: i64,
}

/// The environment variables the settings come from; `None` where a variable is unset or not
/// Unicode.
pub struct EnvVars {
    pub app_name: Option<String>,
    pub app_port: Option<String>,
    pub database_url: Option<String>,
    pub jwt_secret: Option<String>,
    pub jwt_access_expire_minutes: Option<String>,
    pub jwt_refresh_expire_days: Option<String>,
}

/// Why the settings could not be read: the message names the variable.
pub struct EnvError {
    pub message: String,
}

/// The signing algorithms a token may name.
#[derive(Clone, Copy, PartialEq, Eq, Structural, Debug)]
pub enum JwtAlgorithm {
    HS256,
    HS384,
    HS512,
    ES256,
    ES384,
    RS256,
    RS384,
    RS512,
    PS256,
    PS384,
    PS512,
    EdDSA,
}

/// How tokens are signed and how long they live.
#[derive(Clone)]
pub struct JwtConfig {
    pub secret: String,
    pub access_exp_minutes: i64,
    pub refresh_exp_days: i64,
    pub algorithm: JwtAlgorithm,
}

/// Whether an algorithm signs with a shared secret (HMAC).
pub open spec fn is_hmac(a: JwtAlgorithm) -> bool {
    a == JwtAlgorithm::HS256 || a == JwtAlgorithm::HS384 || a == JwtAlgorithm::HS512
}

/// The name of an algorithm, as a token header writes it.
pub open spec fn algorithm_name(a: JwtAlgorithm) -> Seq<char> {
    match a {
        JwtAlgorithm::HS256 => "HS256"@,
        JwtAlgorithm::HS384 => "HS384"@,
        JwtAlgorithm::HS512 => "HS512"@,
        JwtAlgorithm::ES256 => "ES256"@,
        JwtAlgorithm::ES384 => "ES384"@,
        JwtAlgorithm::RS256 => "RS256"@,
        JwtAlgorithm::RS384 => "RS384"@,
        JwtAlgorithm::RS512 => "RS512"@,
        JwtAlgorithm::PS256 => "PS256"@,
        JwtAlgorithm::PS384 => "PS384"@,
        JwtAlgorithm::PS512 => "PS512"@,
        JwtAlgorithm::EdDSA => "EdDSA"@,
    }
}

/// Whether a name is that of an HMAC algorithm.
pub open spec fn is_hmac_name(n: Seq<char>) -> bool {
    n == "HS256"@ || n == "HS384"@ || n == "HS512"@
}

impl JwtAlgorithm {
    /// The name of this algorithm, as a token header writes it.
    pub fn name(&self) -> (r: &'static str)
        ensures
            r@ == algorithm_name(*self),
            is_hmac_name(r@) == is_hmac(*self),
    {
        proof {
            reveal_strlit("HS256");
            reveal_strlit("HS384");
            reveal_strlit("HS512");
            reveal_strlit("ES256");
            reveal_strlit("ES384");
            reveal_strlit("RS256");
            reveal_strlit("RS384");
            reveal_strlit("RS512");
            reveal_strlit("PS256");
            reveal_strlit("PS384");
            reveal_strlit("PS512");
            reveal_strlit("EdDSA");
        }
        match self {
            JwtAlgorithm::HS256 => "HS256",
            JwtAlgorithm::HS384 => "HS384",
            JwtAlgorithm::HS512 => "HS512",
            JwtAlgorithm::ES256 => {
                assert("ES256"@[0] != "HS256"@[0]);
                "ES256"
            },
            JwtAlgorithm::ES384 => {
                assert("ES384"@[0] != "HS256"@[0]);
                "ES384"
            },
            JwtAlgorithm::RS256 => {
                assert("RS256"@[0] != "HS256"@[0]);
                "RS256"
            },
            JwtAlgorithm::RS384 => {
                assert("RS384"@[0] != "HS256"@[0]);
                "RS384"
            },
            JwtAlgorithm::RS512 => {
                assert("RS512"@[0] != "HS256"@[0]);
                "RS512"
            },
            JwtAlgorithm::PS256 => {
                assert("PS256"@[0] != "HS256"@[0]);
                "PS256"
            },
            JwtAlgorithm::PS384 => {
                assert("PS384"@[0] != "HS256"@[0]);
                "PS384"
            },
            JwtAlgorithm::PS512 => {
                assert("PS512"@[0] != "HS256"@[0]);
                "PS512"
            },
            JwtAlgorithm::EdDSA => {
                assert("EdDSA"@[0] != "HS256"@[0]);
                "EdDSA"
            },
        }
    }
}

impl JwtConfig {
    /// A configuration that signs with HS256.
    pub fn new(secret: String, access_exp_minutes: i64, refresh_exp_days: i64) -> (r: Self)
        ensures
            r.secret == secret,
            r.access_exp_minutes == access_exp_minutes,
            r.refresh_exp_days == refresh_exp_days,
            r.algorithm == JwtAlgorithm::HS256,
    {
        JwtConfig { secret, access_exp_minutes, refresh_exp_days, algorithm: JwtAlgorithm::HS256 }
    }
}

/// Whether a character is an ASCII decimal digit.
pub open spec fn is_digit(c: char) -> bool {
    '0' <= c && c <= '9'
}

/// The value of a decimal digit.
pub open spec fn digit_value(c: char) -> int {
    c as int - '0' as int
}

/// The value of a run of decimal digits, most significant first.
pub open spec fn digits_value(d: Seq<char>) -> int
    decreases d.len(),
{
    if d.len() == 0 {
        0
    } else {
        digits_value(d.drop_last()) * 10 + digit_value(d.last())
    }
}

/// Whether every character is a decimal digit.
pub open spec fn all_digits(d: Seq<char>) -> bool {
    forall|i: int| 0 <= i < d.len() ==> is_digit(#[trigger] d[i])
}

/// The integer a text writes, as the standard library's `from_str` reads it: an optional
/// `+` (or `-` when `signed`) followed by at least one decimal digit and nothing else.
pub open spec fn integer_text(s: Seq<char>, signed: bool) -> Option<int> {
    if s.len() == 0 {
        None
    } else if (s[0] == '+' || s[0] == '-') && s.len() == 1 {
        None
    } else {
        let neg = s[0] == '-' && signed;
        let d = if s[0] == '+' || neg {
            s.skip(1)
        } else {
            s
        };
        if all_digits(d) {
            Some(
                if neg {
                    -digits_value(d)
                } else {
                    digits_value(d)
                },
            )
        } else {
            None
        }
    }
}

/// `u16::from_str`.
pub open spec fn parse_u16(s: Seq<char>) -> Option<u16> {
    match integer_text(s, false) {
        Some(v) => if 0 <= v <= u16::MAX {
            Some(v as u16)
        } else {
            None
        },
        None => None,
    }
}

/// `i64::from_str`.
pub open spec fn parse_i64(s: Seq<char>) -> Option<i64> {
    match integer_text(s, true) {
        Some(v) => if i64::MIN <= v <= i64::MAX {
            Some(v as i64)
        } else {
            None
        },
        None => None,
    }
}

/// The decimal digit for `d` in `0..10`.
pub open spec fn digit_char(d: int) -> char {
    seq!['0', '1', '2', '3', '4', '5', '6', '7', '8', '9'][d]
}

/// The decimal text of `n`, most significant digit first, without sign or leading zeros.
pub open spec fn decimal_text(n: nat) -> Seq<char>
    decreases n,
{
    if n < 10 {
        seq![digit_char(n as int)]
    } else {
        decimal_text(n / 10).push(digit_char((n % 10) as int))
    }
}

proof fn lemma_decimal_text(n: nat)
    ensures
        decimal_text(n).len() >= 1,
        all_digits(decimal_text(n)),
        digits_value(decimal_text(n)) == n,
    decreases n,
{
    let ds = seq!['0', '1', '2', '3', '4', '5', '6', '7', '8', '9'];
    assert forall|d: int| 0 <= d < 10 implies is_digit(#[trigger] ds[d]) && digit_value(ds[d]) == d by {
        assert(ds[0] == '0' && ds[1] == '1' && ds[2] == '2' && ds[3] == '3' && ds[4] == '4');
        assert(ds[5] == '5' && ds[6] == '6' && ds[7] == '7' && ds[8] == '8' && ds[9] == '9');
    }
    if n < 10 {
        let t = decimal_text(n);
        assert(t.drop_last() =~= Seq::<char>::empty());
        assert(t.last() == ds[n as int]);
        assert(digit_value(ds[n as int]) == n);
        assert(digits_value(t) == digits_value(t.drop_last()) * 10 + digit_value(t.last()));
    } else {
        lemma_decimal_text(n / 10);
        let t = decimal_text(n);
        let last = ds[(n % 10) as int];
        assert(t.drop_last() =~= decimal_text(n / 10));
        assert(t.last() == last);
        assert(is_digit(last) && digit_value(last) == n % 10);
        assert(digits_value(t) == digits_value(t.drop_last()) * 10 + digit_value(t.last()));
        assert(n == (n / 10) * 10 + n % 10);
        assert forall|i: int| 0 <= i < t.len() implies is_digit(#[trigger] t[i]) by {
            if i < t.len() - 1 {
                assert(t[i] == decimal_text(n / 10)[i]);
            }
        }
    }
}

/// Law: `APP_PORT` (read as `u16::from_str` reads it) accepts the decimal text of every
/// port from 0 to 65535 as that port, and refuses the text of any larger number.
pub proof fn law_port_text_reads_every_u16(n: nat)
    ensures
        n <= u16::MAX ==> parse_u16(decimal_text(n)) == Some(n as u16),
        n > u16::MAX ==> parse_u16(decimal_text(n)) is None,
{
    lemma_decimal_text(n);
    let t = decimal_text(n);
    assert(is_digit(t[0]));
}

/// Law: with the required variables set and the lifetimes unset, the settings read the port
/// written in decimal in `APP_PORT` exactly when it is at most 65535; a larger number is
/// refused as "APP_PORT invalid".
pub proof fn law_settings_accept_every_port(vars: EnvVars, n: nat)
    requires
        vars.app_name is Some,
        vars.database_url is Some,
        vars.jwt_secret is Some,
        vars.jwt_access_expire_minutes is None,
        vars.jwt_refresh_expire_days is None,
        vars.app_port matches Some(p) && p@ == decimal_text(n),
    ensures
        n <= u16::MAX ==> (env_outcome(vars) matches Ok((_, port, _, _, access, refresh)) && port
            == n && access == 15 && refresh == 7),
        n > u16::MAX ==> env_outcome(vars) == Err::<
            (Seq<char>, u16, Seq<char>, Seq<char>, i64, i64),
            Seq<char>,
        >("APP_PORT invalid"@),
{
    law_port_text_reads_every_u16(n);
    law_port_text_reads_every_u16(15);
    law_port_text_reads_every_u16(7);
    reveal_strlit("15");
    reveal_strlit("7");
    assert(decimal_text(1) =~= seq!['1']);
    assert(decimal_text(15) =~= "15"@);
    assert(decimal_text(7) =~= "7"@);
    lemma_integer_text_of_decimal(15);
    lemma_integer_text_of_decimal(7);
}

/// The decimal text of `n` reads as `n`, signed or not.
proof fn lemma_integer_text_of_decimal(n: nat)
    ensures
        integer_text(decimal_text(n), true) == Some(n as int),
        integer_text(decimal_text(n), false) == Some(n as int),
{
    lemma_decimal_text(n);
    let t = decimal_text(n);
    assert(is_digit(t[0]));
}

proof fn lemma_digits_value_nonneg(d: Seq<char>)
    requires
        all_digits(d),
    ensures
        digits_value(d) >= 0,
    decreases d.len(),
{
    if d.len() > 0 {
        assert(all_digits(d.drop_last()));
        assert(is_digit(d[d.len() - 1]));
        lemma_digits_value_nonneg(d.drop_last());
    }
}

/// A longer run of digits is worth at least as much as its prefix.
proof fn lemma_digits_prefix_le(d: Seq<char>, k: int)
    requires
        all_digits(d),
        0 <= k <= d.len(),
    ensures
        digits_value(d.take(k)) <= digits_value(d),
    decreases d.len() - k,
{
    if k < d.len() {
        lemma_digits_prefix_le(d, k + 1);
        let t = d.take(k + 1);
        assert(t.drop_last() =~= d.take(k));
        assert(all_digits(d.take(k)));
        lemma_digits_value_nonneg(d.take(k));
        assert(is_digit(d[k]));
        assert(t.last() == d[k]);
    } else {
        assert(d.take(k) =~= d);
    }
}

/// Reads a decimal integer as the standard library does and keeps it when it lies in
/// `lo..=hi`.
fn parse_integer(s: &str, signed: bool, lo: i128, hi: i128) -> (r: Option<i128>)
    requires
        -0x8000_0000_0000_0000 <= lo <= hi <= 0x7fff_ffff_ffff_ffff,
    ensures
        r == match integer_text(s@, signed) {
            Some(v) => if lo <= v <= hi {
                Some(v as i128)
            } else {
                None::<i128>
            },
            None => None::<i128>,
        },
{
    let c = chars_of(s);
    let n = c.len();
    if n == 0 {
        return None;
    }
    if (c[0] == '+' || c[0] == '-') && n == 1 {
        return None;
    }
    let neg = c[0] == '-' && signed;
    let start: usize = if c[0] == '+' || neg {
        1
    } else {
        0
    };
    let ghost d = if c@[0] == '+' || neg {
        s@.skip(1)
    } else {
        s@
    };
    assert(d =~= s@.skip(start as int));
    assert(integer_text(s@, signed) == (if all_digits(d) {
        Some(
            if neg {
                -digits_value(d)
            } else {
                digits_value(d)
            },
        )
    } else {
        None
    }));
    let cap: i128 = 0x1_0000_0000_0000_0000;
    let mut acc: i128 = 0;
    let mut i: usize = start;
    while i < n
        invariant
            c@ == s@,
            n == c@.len(),
            start <= i <= n,
            d == s@.skip(start as int),
            0 <= acc <= cap,
            acc == digits_value(d.take(i - start)),
            all_digits(d.take(i - start)),
            cap == 0x1_0000_0000_0000_0000,
            -0x8000_0000_0000_0000 <= lo <= hi <= 0x7fff_ffff_ffff_ffff,
            integer_text(s@, signed) == (if all_digits(d) {
                Some(
                    if neg {
                        -digits_value(d)
                    } else {
                        digits_value(d)
                    },
                )
            } else {
                None
            }),
        decreases n - i,
    {
        let ch = c[i];
        let ghost pre = d.take(i - start);
        let ghost next = d.take(i - start + 1);
        assert(next.drop_last() =~= pre);
        assert(next.last() == ch);
        assert(d[i - start] == ch);
        if !('0' <= ch && ch <= '9') {
            assert(!is_digit(d[i - start]));
            assert(!all_digits(d));
            assert(integer_text(s@, signed) == None::<int>);
            return None;
        }
        let v = (ch as u32 - '0' as u32) as i128;
        acc = acc * 10 + v;
        assert(all_digits(next)) by {
            assert forall|j: int| 0 <= j < next.len() implies is_digit(#[trigger] next[j]) by {
                if j < next.len() - 1 {
                    assert(next[j] == pre[j]);
                }
            }
        }
        assert(acc == digits_value(next));
        if acc > cap {
            proof {
                lemma_digits_prefix_le_full(d, i - start + 1);
                if all_digits(d) {
                    assert(digits_value(d) > cap);
                }
            }
            assert(integer_text(s@, signed) is None || (integer_text(s@, signed)->0 > hi
                || integer_text(s@, signed)->0 < lo));
            return None;
        }
        i += 1;
    }
    assert(d.take(n - start) =~= d);
    let value: i128 = if neg {
        0 - acc
    } else {
        acc
    };
    if lo <= value && value <= hi {
        Some(value)
    } else {
        None
    }
}

/// Either a non-digit follows, or the whole run is worth at least its prefix.
proof fn lemma_digits_prefix_le_full(d: Seq<char>, k: int)
    requires
        0 <= k <= d.len(),
        all_digits(d.take(k)),
    ensures
        all_digits(d) ==> digits_value(d.take(k)) <= digits_value(d),
{
    if all_digits(d) {
        lemma_digits_prefix_le(d, k);
    }
}

fn env_error(message: &str) -> (e: EnvError)
    ensures
        e.message@ == message@,
{
    EnvError { message: message.to_owned() }
}

/// The value to parse: the variable's text, or the default when unset.
pub open spec fn text_or(v: Option<String>, default: Seq<char>) -> Seq<char> {
    match v {
        Some(s) => s@,
        None => default,
    }
}

fn setting_value(v: &Option<String>, default: &str, signed: bool, lo: i128, hi: i128) -> (r:
    Option<i128>)
    requires
        -0x8000_0000_0000_0000 <= lo <= hi <= 0x7fff_ffff_ffff_ffff,
    ensures
        r == match integer_text(text_or(*v, default@), signed) {
            Some(x) => if lo <= x <= hi {
                Some(x as i128)
            } else {
                None::<i128>
            },
            None => None::<i128>,
        },
{
    match v {
        Some(s) => parse_integer(s.as_str(), signed, lo, hi),
        None => parse_integer(default, signed, lo, hi),
    }
}

/// The settings that a set of variables gives, or the first of them that is missing or
/// invalid, in the order the fields are listed.
pub open spec fn env_outcome(vars: EnvVars) -> Result<
    (Seq<char>, u16, Seq<char>, Seq<char>, i64, i64),
    Seq<char>,
> {
    if vars.app_name is None {
        Err("APP_NAME missing"@)
    } else if parse_u16(text_or(vars.app_port, "3000"@)) is None {
        Err("APP_PORT invalid"@)
    } else if vars.database_url is None {
        Err("DATABASE_URL missing"@)
    } else if vars.jwt_secret is None {
        Err("JWT_SECRET missing"@)
    } else if parse_i64(text_or(vars.jwt_access_expire_minutes, "15"@)) is None {
        Err("JWT_ACCESS_EXPIRE_MINUTES invalid"@)
    } else if parse_i64(text_or(vars.jwt_refresh_expire_days, "7"@)) is None {
        Err("JWT_REFRESH_EXPIRE_DAYS invalid"@)
    } else {
        Ok(
            (
                vars.app_name->0@,
                parse_u16(text_or(vars.app_port, "3000"@))->0,
                vars.database_url->0@,
                vars.jwt_secret->0@,
                parse_i64(text_or(vars.jwt_access_expire_minutes, "15"@))->0,
                parse_i64(text_or(vars.jwt_refresh_expire_days, "7"@))->0,
            ),
        )
    }
}

impl EnvVars {
    /// Checks the variables in the order the settings are listed: APP_NAME, DATABASE_URL and
    /// JWT_SECRET must be set; APP_PORT (default 3000) must be a `u16`;
    /// JWT_ACCESS_EXPIRE_MINUTES (default 15) and JWT_REFRESH_EXPIRE_DAYS (default 7) must be
    /// `i64`s. The error names the first that is missing or invalid.
    pub fn check(&self) -> (r: Result<(), EnvError>)
        ensures
            match env_outcome(*self) {
                Ok(_) => r is Ok,
                Err(m) => r matches Err(e) && e.message@ == m,
            },
    {
        if self.app_name.is_none() {
            return Err(env_error("APP_NAME missing"));
        }
        if setting_value(&self.app_port, "3000", false, 0, 65535).is_none() {
            return Err(env_error("APP_PORT invalid"));
        }
        if self.database_url.is_none() {
            return Err(env_error("DATABASE_URL missing"));
        }
        if self.jwt_secret.is_none() {
            return Err(env_error("JWT_SECRET missing"));
        }
        if setting_value(
            &self.jwt_access_expire_minutes,
            "15",
            true,
            -0x8000_0000_0000_0000,
            0x7fff_ffff_ffff_ffff,
        ).is_none() {
            return Err(env_error("JWT_ACCESS_EXPIRE_MINUTES invalid"));
        }
        if setting_value(
            &self.jwt_refresh_expire_days,
            "7",
            true,
            -0x8000_0000_0000_0000,
            0x7fff_ffff_ffff_ffff,
        ).is_none() {
            return Err(env_error("JWT_REFRESH_EXPIRE_DAYS invalid"));
        }
        Ok(())
    }
}

impl Env {
    /// The settings the variables give, for variables that pass `EnvVars::check`: the server
    /// cannot start without them.
    pub fn from_env(vars: EnvVars) -> (e: Env)
        requires
            env_outcome(vars) is Ok,
        ensures
            env_outcome(vars) matches Ok((name, port, url, secret, access, refresh)) && e.app_name@
                == name && e.app_port == port && e.database_url@ == url && e.jwt_secret@ == secret
                && e.jwt_access_expire_minutes == access && e.jwt_refresh_expire_days == refresh,
    {
        let port = setting_value(&vars.app_port, "3000", false, 0, 65535).unwrap();
        let access = setting_value(
            &vars.jwt_access_expire_minutes,
            "15",
            true,
            -0x8000_0000_0000_0000,
            0x7fff_ffff_ffff_ffff,
        ).unwrap();
        let refresh = setting_value(
            &vars.jwt_refresh_expire_days,
            "7",
            true,
            -0x8000_0000_0000_0000,
            0x7fff_ffff_ffff_ffff,
        ).unwrap();
        Env {
            app_name: vars.app_name.unwrap(),
            app_port: port as u16,
            database_url: vars.database_url.unwrap(),
            jwt_secret: vars.jwt_secret.unwrap(),
            jwt_access_expire_minutes: access as i64,
            jwt_refresh_expire_days: refresh as i64,
        }
    }
}

} // verus!
