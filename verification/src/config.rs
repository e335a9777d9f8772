//! The broker's address and credentials, as the session is given them, with
//! the defaults that apply where a setting is absent.

use vstd::prelude::*;
use vstd::utf8::is_ascii_chars;

verus! {

broadcast use vstd::string::is_ascii_spec_bytes;

/// The broker that is taken where no host is set.
pub const DEFAULT_HOST: &'static str = "172.10.20.53";

/// The port that is taken where none is set.
pub const DEFAULT_PORT: u16 = 1883;

/// The identifier under which the client introduces itself.
pub const CLIENT_ID: &'static str = "rust-logger";

/// The one topic that is subscribed to.
pub const TOPIC: &'static str = "/broker_alive";

/// Seconds of silence after which the client pings the broker.
pub const KEEP_ALIVE_SECS: u64 = 5;

/// How many requests may wait between the client and its connection.
pub const REQUEST_CAPACITY: usize = 10;

/// Seconds between two ticks of the idle cycle that keeps the process alive.
pub const IDLE_INTERVAL_SECS: u64 = 1;

/// Why no configuration could be made of the settings.
#[derive(Clone, Copy, Debug, PartialEq, Eq, Structural)]
pub enum ConfigError {
    /// The port is set, and its text is no number from 0 to 65535.
    MalformedPort,
}

/// Everything a broker session is constructed from.
#[derive(Clone, Debug, PartialEq, Eq)]
pub struct BrokerConfig {
    pub host: String,
    pub port: u16,
    pub client_id: String,
    pub username: String,
    pub password: String,
    pub keep_alive_secs: u64,
}

/// A `BrokerConfig` as plain values.
pub struct BrokerConfigView {
    pub host: Seq<char>,
    pub port: u16,
    pub client_id: Seq<char>,
    pub username: Seq<char>,
    pub password: Seq<char>,
    pub keep_alive_secs: u64,
}

impl View for BrokerConfig {
    type V = BrokerConfigView;

    open spec fn view(&self) -> BrokerConfigView {
        BrokerConfigView {
            host: self.host@,
            port: self.port,
            client_id: self.client_id@,
            username: self.username@,
            password: self.password@,
            keep_alive_secs: self.keep_alive_secs,
        }
    }
}

/// Whether a character is one of the ten decimal digits.
pub open spec fn is_digit(c: char) -> bool {
    '0' <= c <= '9'
}

/// Whether every character of a text is a decimal digit.
pub open spec fn all_digits(text: Seq<char>) -> bool {
    forall|i: int| 0 <= i < text.len() ==> is_digit(#[trigger] text[i])
}

/// The number that a run of decimal digits writes, most significant first.
pub open spec fn decimal_value(digits: Seq<char>) -> nat
    decreases digits.len(),
{
    if digits.len() == 0 {
        0
    } else {
        (10 * decimal_value(digits.drop_last()) + (digits.last() as u32 - '0' as u32)) as nat
    }
}

/// A port's text without the one `+` that may stand in front of it.
pub open spec fn unsigned_part(text: Seq<char>) -> Seq<char> {
    if text.len() > 0 && text[0] == '+' {
        text.subrange(1, text.len() as int)
    } else {
        text
    }
}

/// The port that a text writes: an optional `+`, then one or more decimal
/// digits and nothing else, whose number is at most 65535.
pub open spec fn port_of(text: Seq<char>) -> Option<u16> {
    let digits = unsigned_part(text);
    if digits.len() > 0 && all_digits(digits) && decimal_value(digits) <= u16::MAX {
        Some(decimal_value(digits) as u16)
    } else {
        None
    }
}

/// A run of digits writes no smaller a number than any run it begins with.
proof fn lemma_decimal_value_grows(digits: Seq<char>, k: int)
    requires
        0 <= k <= digits.len(),
        all_digits(digits),
    ensures
        decimal_value(digits.subrange(0, k)) <= decimal_value(digits),
    decreases digits.len() - k,
{
    if k == digits.len() {
        assert(digits.subrange(0, k) =~= digits);
    } else {
        let longer = digits.subrange(0, k + 1);
        assert(longer.drop_last() =~= digits.subrange(0, k));
        assert(is_digit(digits[k]));
        assert(longer.last() == digits[k]);
        lemma_decimal_value_grows(digits, k + 1);
    }
}

/// Reads a port as `port_of` defines it.
pub fn parse_port(text: &str) -> (port: Option<u16>)
    ensures
        port == port_of(text@),
{
    if !text.is_ascii() {
        proof {
            let digits = unsigned_part(text@);
            if all_digits(digits) {
                assert forall|i: int| 0 <= i < text@.len() implies '\0' <= #[trigger] text@[i]
                    <= '\u{7f}' by {
                    if digits.len() == text@.len() {
                        assert(is_digit(digits[i]));
                    } else if i > 0 {
                        assert(is_digit(digits[i - 1]));
                    }
                }
            }
        }
        return None;
    }
    let bytes = text.as_bytes();
    let n = bytes.len();
    assert(n == text@.len() && forall|k: int| 0 <= k < n ==> bytes@[k] == text@[k] as u8);
    if n == 0 {
        return None;
    }
    let start: usize = if bytes[0] == 43u8 {
        1
    } else {
        0
    };
    let ghost digits = unsigned_part(text@);
    assert(digits =~= text@.subrange(start as int, n as int)) by {
        assert(text@[0] as u8 == 43u8 <==> text@[0] == '+');
    }
    if start == n {
        return None;
    }
    let mut value: u32 = 0;
    let mut i: usize = start;
    while i < n
        invariant
            start <= i <= n,
            n == text@.len(),
            n == bytes@.len(),
            is_ascii_chars(text@),
            forall|k: int| 0 <= k < n ==> bytes@[k] == text@[k] as u8,
            digits == unsigned_part(text@),
            digits == text@.subrange(start as int, n as int),
            all_digits(digits.subrange(0, i - start)),
            value == decimal_value(digits.subrange(0, i - start)),
            value <= u16::MAX,
        decreases n - i,
    {
        let b = bytes[i];
        let ghost c = text@[i as int];
        assert(c == digits[i - start]);
        assert(c as u32 == b as u32);
        if b < 48u8 || b > 57u8 {
            assert(!is_digit(digits[i - start]));
            return None;
        }
        let ghost longer = digits.subrange(0, i - start + 1);
        proof {
            assert(longer.drop_last() =~= digits.subrange(0, i - start));
            assert(longer.last() == c);
            assert(is_digit(c));
            assert forall|j: int| 0 <= j < longer.len() implies is_digit(#[trigger] longer[j]) by {
                if j < i - start {
                    assert(longer[j] == digits.subrange(0, i - start)[j]);
                }
            }
        }
        value = value * 10 + (b - 48u8) as u32;
        assert(value == decimal_value(longer));
        if value > 65535 {
            proof {
                if all_digits(digits) {
                    lemma_decimal_value_grows(digits, i - start + 1);
                }
            }
            return None;
        }
        i += 1;
    }
    assert(digits.subrange(0, i - start) =~= digits);
    Some(value as u16)
}

/// The port that a setting stands for: the default where it is absent.
pub open spec fn port_setting(port: Option<Seq<char>>) -> Option<u16> {
    match port {
        Some(text) => port_of(text),
        None => Some(DEFAULT_PORT),
    }
}

/// A setting's text, or the default's where it is absent.
pub open spec fn text_setting(setting: Option<Seq<char>>, default: Seq<char>) -> Seq<char> {
    match setting {
        Some(text) => text,
        None => default,
    }
}

/// The configuration that four optional settings stand for.
pub open spec fn config_of(
    host: Option<Seq<char>>,
    port: Option<Seq<char>>,
    username: Option<Seq<char>>,
    password: Option<Seq<char>>,
) -> Result<BrokerConfigView, ConfigError> {
    match port_setting(port) {
        Some(number) => Ok(
            BrokerConfigView {
                host: text_setting(host, DEFAULT_HOST@),
                port: number,
                client_id: CLIENT_ID@,
                username: text_setting(username, Seq::empty()),
                password: text_setting(password, Seq::empty()),
                keep_alive_secs: KEEP_ALIVE_SECS,
            },
        ),
        None => Err(ConfigError::MalformedPort),
    }
}

/// A configuration, or the reason there is none, as plain values.
pub open spec fn config_view(made: Result<BrokerConfig, ConfigError>) -> Result<
    BrokerConfigView,
    ConfigError,
> {
    match made {
        Ok(config) => Ok(config@),
        Err(error) => Err(error),
    }
}

impl BrokerConfig {
    /// Makes the configuration of the settings as they were found: an absent
    /// host, port, username or password takes its default; a port that is
    /// set and does not read as a port is refused.
    pub fn from_settings(
        host: Option<String>,
        port: Option<String>,
        username: Option<String>,
        password: Option<String>,
    ) -> (made: Result<BrokerConfig, ConfigError>)
        ensures
            config_view(made) == config_of(
                host.deep_view(),
                port.deep_view(),
                username.deep_view(),
                password.deep_view(),
            ),
    {
        let number = match port {
            Some(text) => match parse_port(text.as_str()) {
                Some(number) => number,
                None => {
                    return Err(ConfigError::MalformedPort);
                },
            },
            None => DEFAULT_PORT,
        };
        Ok(
            BrokerConfig {
                host: match host {
                    Some(text) => text,
                    None => DEFAULT_HOST.to_owned(),
                },
                port: number,
                client_id: CLIENT_ID.to_owned(),
                username: match username {
                    Some(text) => text,
                    None => String::new(),
                },
                password: match password {
                    Some(text) => text,
                    None => String::new(),
                },
                keep_alive_secs: KEEP_ALIVE_SECS,
            },
        )
    }
}

} // verus!
