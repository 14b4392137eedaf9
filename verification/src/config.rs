//! Centralized environment configuration: every variable and its default.
use vstd::prelude::*;
use crate::text::{chars_of, string_of, string_of_chars, trim_end_char_seq};

verus! {

/// Application configuration.
#[derive(Debug, Clone)]
pub struct Config {
    /// Database connection URL. Required.
    pub database_url: String,
    /// Base URL for generating links in emails. Default: http://localhost:3000
    pub app_url: String,
    /// From/reply address for outgoing emails. Default: please-configure@example.com
    pub mail_from: String,
    /// Mail adapter: "console" or "smtp". Default: console
    pub mail_adapter: String,
    /// SMTP host. Required when mail_adapter=smtp.
    pub smtp_host: Option<String>,
    /// SMTP port. Default: 587
    pub smtp_port: u16,
    /// SMTP username. Optional for some servers.
    pub smtp_user: Option<String>,
    /// SMTP password. Optional for some servers.
    pub smtp_pass: Option<String>,
}

/// Value of a string of ASCII digits.
pub open spec fn decimal_value(d: Seq<char>) -> nat
    decreases d.len(),
{
    if d.len() == 0 {
        0
    } else {
        decimal_value(d.drop_last()) * 10 + ((d.last() as u32) - ('0' as u32)) as nat
    }
}

/// Whether every character of `d` is an ASCII digit.
pub open spec fn all_ascii_digits(d: Seq<char>) -> bool {
    forall|i: int| 0 <= i < d.len() ==> '0' <= #[trigger] d[i] <= '9'
}

/// `s` without a leading `+`.
pub open spec fn without_plus(s: Seq<char>) -> Seq<char> {
    if s.len() > 0 && s[0] == '+' {
        s.drop_first()
    } else {
        s
    }
}

/// What `str::parse::<u16>` gives: an optional `+`, then one or more ASCII
/// digits whose value fits in 16 bits.
pub open spec fn parse_u16_spec(s: Seq<char>) -> Option<u16> {
    let digits = without_plus(s);
    if digits.len() > 0 && all_ascii_digits(digits) && decimal_value(digits) <= u16::MAX {
        Some(decimal_value(digits) as u16)
    } else {
        None
    }
}

proof fn lemma_decimal_value_prefix(d: Seq<char>, i: int)
    requires
        0 <= i <= d.len(),
        forall|k: int| 0 <= k < d.len() ==> '0' <= #[trigger] d[k] <= '9',
    ensures
        decimal_value(d.take(i)) <= decimal_value(d),
    decreases d.len() - i,
{
    if i < d.len() {
        lemma_decimal_value_prefix(d.drop_last(), i);
        assert(d.drop_last().take(i) =~= d.take(i));
    } else {
        assert(d.take(i) =~= d);
    }
}

/// Parses a port number as `str::parse::<u16>` does.
pub fn parse_u16(s: &str) -> (r: Option<u16>)
    ensures
        r == parse_u16_spec(s@),
{
    let chars = chars_of(s);
    let start: usize = if chars.len() > 0 && chars[0] == '+' {
        1
    } else {
        0
    };
    let ghost digits = without_plus(s@);
    assert(digits =~= chars@.skip(start as int));
    if start == chars.len() {
        return None;
    }
    let mut value: u32 = 0;
    let mut i = start;
    while i < chars.len()
        invariant
            start <= i <= chars@.len(),
            chars@ == s@,
            digits == chars@.skip(start as int),
            digits == without_plus(s@),
            forall|k: int| start <= k < i ==> '0' <= #[trigger] chars@[k] <= '9',
            value == decimal_value(digits.take(i - start)),
            value <= u16::MAX,
        decreases chars@.len() - i,
    {
        let c = chars[i];
        if c < '0' || c > '9' {
            proof {
                assert(digits[i - start] == c);
                assert(!(forall|k: int| 0 <= k < digits.len() ==> '0' <= #[trigger] digits[k] <= '9'));
            }
            return None;
        }
        assert(digits.take(i - start + 1).drop_last() =~= digits.take(i - start));
        let next = value * 10 + ((c as u32) - ('0' as u32));
        assert(digits.take(i - start + 1).last() == c);
        assert(next == decimal_value(digits.take(i - start + 1)));
        if next > 65535 {
            proof {
                assert forall|k: int| 0 <= k < i - start + 1 implies '0' <= #[trigger] digits.take(
                    i - start + 1,
                )[k] <= '9' by {
                    assert(digits.take(i - start + 1)[k] == chars@[k + start]);
                }
                if forall|k: int| 0 <= k < digits.len() ==> '0' <= #[trigger] digits[k] <= '9' {
                    lemma_decimal_value_prefix(digits, i - start + 1);
                }
            }
            return None;
        }
        value = next;
        i = i + 1;
    }
    assert(digits.take(i - start) =~= digits);
    assert forall|k: int| 0 <= k < digits.len() implies '0' <= #[trigger] digits[k] <= '9' by {
        assert(digits[k] == chars@[k + start]);
    }
    Some(value as u16)
}

/// The base URL for links never ends in a slash, so appending a path that
/// starts with one never doubles it.
pub proof fn law_url_base_has_no_trailing_slash(url: Seq<char>)
    ensures
        trim_end_char_seq(url, '/').len() == 0 || trim_end_char_seq(url, '/').last() != '/',
    decreases url.len(),
{
    if url.len() > 0 && url.last() == '/' {
        law_url_base_has_no_trailing_slash(url.drop_last());
    }
}

impl Config {
    /// Builds the configuration from the values of the environment variables
    /// (`None` for an unset one): DATABASE_URL, APP_URL, MAIL_FROM,
    /// MAIL_ADAPTER, SMTP_HOST, SMTP_PORT, SMTP_USER, SMTP_PASS.
    pub fn from_env_values(
        database_url: Option<String>,
        app_url: Option<String>,
        mail_from: Option<String>,
        mail_adapter: Option<String>,
        smtp_host: Option<String>,
        smtp_port: Option<String>,
        smtp_user: Option<String>,
        smtp_pass: Option<String>,
    ) -> (res: Result<Config, String>)
        ensures
            database_url is None ==> (res matches Err(e) && e@ == "DATABASE_URL must be set in .env"@),
            (database_url is Some && smtp_port is Some && parse_u16_spec(smtp_port.unwrap()@) is None)
                ==> (res matches Err(e) && e@ == "SMTP_PORT must be a valid port number"@),
            res is Ok <==> (database_url is Some && (smtp_port is Some ==> parse_u16_spec(
                smtp_port.unwrap()@,
            ) is Some)),
            res matches Ok(c) ==> {
                &&& c.database_url@ == database_url.unwrap()@
                &&& c.app_url@ == (if app_url is Some { app_url.unwrap()@ } else { "http://localhost:3000"@ })
                &&& c.mail_from@ == (if mail_from is Some { mail_from.unwrap()@ } else { "please-configure@example.com"@ })
                &&& c.mail_adapter@ == (if mail_adapter is Some { mail_adapter.unwrap()@ } else { "console"@ })
                &&& c.smtp_host == smtp_host
                &&& c.smtp_port == (if smtp_port is Some { parse_u16_spec(smtp_port.unwrap()@).unwrap() } else { 587u16 })
                &&& c.smtp_user == smtp_user
                &&& c.smtp_pass == smtp_pass
            },
    {
        let database_url = match database_url {
            Some(u) => u,
            None => return Err(string_of("DATABASE_URL must be set in .env")),
        };
        let app_url = match app_url {
            Some(u) => u,
            None => string_of("http://localhost:3000"),
        };
        let mail_from = match mail_from {
            Some(u) => u,
            None => string_of("please-configure@example.com"),
        };
        let mail_adapter = match mail_adapter {
            Some(u) => u,
            None => string_of("console"),
        };
        let smtp_port = match smtp_port {
            Some(p) => match parse_u16(p.as_str()) {
                Some(v) => v,
                None => return Err(string_of("SMTP_PORT must be a valid port number")),
            },
            None => 587,
        };
        Ok(Config {
            database_url,
            app_url,
            mail_from,
            mail_adapter,
            smtp_host,
            smtp_port,
            smtp_user,
            smtp_pass,
        })
    }

    /// The base URL without trailing slashes, for building links.
    pub fn app_url_base(&self) -> (r: String)
        ensures
            r@ == trim_end_char_seq(self.app_url@, '/'),
    {
        let chars = chars_of(self.app_url.as_str());
        let mut j = chars.len();
        assert(chars@.take(j as int) =~= chars@);
        while j > 0 && chars[j - 1] == '/'
            invariant
                j <= chars@.len(),
                chars@ == self.app_url@,
                trim_end_char_seq(self.app_url@, '/') == trim_end_char_seq(chars@.take(j as int), '/'),
            decreases j,
        {
            assert(chars@.take(j as int).drop_last() =~= chars@.take(j - 1));
            j = j - 1;
        }
        proof {
            if j == chars@.len() {
                assert(chars@.take(j as int) =~= chars@);
            }
        }
        string_of_chars(&chars, 0, j)
    }

    /// Configuration for tests: in-memory database and console mailer.
    pub fn for_tests() -> (c: Config)
        ensures
            c.database_url@ == "sqlite::memory:"@,
            c.app_url@ == "http://localhost:3000"@,
            c.mail_from@ == "test@example.com"@,
            c.mail_adapter@ == "console"@,
            c.smtp_host is None,
            c.smtp_port == 587,
            c.smtp_user is None,
            c.smtp_pass is None,
    {
        Config {
            database_url: string_of("sqlite::memory:"),
            app_url: string_of("http://localhost:3000"),
            mail_from: string_of("test@example.com"),
            mail_adapter: string_of("console"),
            smtp_host: None,
            smtp_port: 587,
            smtp_user: None,
            smtp_pass: None,
        }
    }
}

} // verus!
