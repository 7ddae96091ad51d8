//! From configured texts to the options of the bus client and the store.

use vstd::prelude::*;

verus! {

/// The port of a broker that was configured without one.
pub const DEFAULT_PORT: u16 = 1883;

/// The seconds between two keep-alive packets of the bus client.
pub const KEEP_ALIVE_SECS: u64 = 5;

/// White space as `char::is_whitespace` has it.
pub open spec fn is_space(c: char) -> bool {
    let u = c as u32;
    ||| 0x09 <= u <= 0x0D
    ||| u == 0x20
    ||| u == 0x85
    ||| u == 0xA0
    ||| u == 0x1680
    ||| 0x2000 <= u <= 0x200A
    ||| u == 0x2028
    ||| u == 0x2029
    ||| u == 0x202F
    ||| u == 0x205F
    ||| u == 0x3000
}

/// A text without the white space at its two ends.
pub open spec fn trimmed(text: Seq<char>) -> Seq<char>
    decreases text.len(),
{
    if text.len() > 0 && is_space(text.first()) {
        trimmed(text.drop_first())
    } else if text.len() > 0 && is_space(text.last()) {
        trimmed(text.drop_last())
    } else {
        text
    }
}

pub open spec fn is_digit(c: char) -> bool {
    '0' as u32 <= c as u32 <= '9' as u32
}

/// The value of a decimal digit; zero for any other character.
pub open spec fn digit_value(c: char) -> nat {
    if is_digit(c) {
        (c as u32 - '0' as u32) as nat
    } else {
        0
    }
}

/// The number that a text of decimal digits writes.
pub open spec fn decimal(digits: Seq<char>) -> nat
    decreases digits.len(),
{
    if digits.len() == 0 {
        0
    } else {
        decimal(digits.drop_last()) * 10 + digit_value(digits.last())
    }
}

pub open spec fn all_digits(digits: Seq<char>) -> bool {
    forall|i: int| 0 <= i < digits.len() ==> is_digit(#[trigger] digits[i])
}

/// A text without its leading plus sign, if it has one.
pub open spec fn unsigned_part(text: Seq<char>) -> Seq<char> {
    if text.len() > 0 && text.first() == '+' {
        text.drop_first()
    } else {
        text
    }
}

/// The port that a configured text names: white space at the ends is
/// ignored, then an optional plus sign and at least one decimal digit must
/// remain, and the number must fit sixteen bits.
pub open spec fn port_of(text: Seq<char>) -> Option<u16> {
    let digits = unsigned_part(trimmed(text));
    if digits.len() > 0 && all_digits(digits) && decimal(digits) <= u16::MAX {
        Some(decimal(digits) as u16)
    } else {
        None
    }
}

proof fn lemma_decimal_grows(digits: Seq<char>, n: int)
    requires
        0 <= n <= digits.len(),
    ensures
        decimal(digits.take(n)) <= decimal(digits),
    decreases digits.len() - n,
{
    if n == digits.len() {
        assert(digits.take(n) =~= digits);
    } else {
        lemma_decimal_grows(digits, n + 1);
        assert(digits.take(n + 1).drop_last() =~= digits.take(n));
    }
}

fn space(c: char) -> (b: bool)
    ensures
        b == is_space(c),
{
    let u = c as u32;
    (0x09 <= u && u <= 0x0D) || u == 0x20 || u == 0x85 || u == 0xA0 || u == 0x1680 || (0x2000 <= u
        && u <= 0x200A) || u == 0x2028 || u == 0x2029 || u == 0x202F || u == 0x205F || u == 0x3000
}

/// Reads a port number from a configured text.
pub fn parse_port(text: &str) -> (port: Option<u16>)
    ensures
        port == port_of(text@),
{
    let n = text.unicode_len();
    let mut start: usize = 0;
    assert(text@.subrange(0, n as int) =~= text@);
    while start < n && space(text.get_char(start))
        invariant
            start <= n,
            n == text@.len(),
            trimmed(text@) == trimmed(text@.subrange(start as int, n as int)),
        decreases n - start,
    {
        assert(text@.subrange(start as int, n as int).drop_first() =~= text@.subrange(
            start + 1,
            n as int,
        ));
        start += 1;
    }
    let mut end: usize = n;
    while end > start && space(text.get_char(end - 1))
        invariant
            start <= end <= n,
            n == text@.len(),
            start < n ==> !is_space(text@[start as int]),
            trimmed(text@) == trimmed(text@.subrange(start as int, end as int)),
        decreases end - start,
    {
        assert(text@.subrange(start as int, end as int).drop_last() =~= text@.subrange(
            start as int,
            end - 1,
        ));
        end -= 1;
    }
    let ghost core = text@.subrange(start as int, end as int);
    assert(trimmed(text@) == core);
    if start < end && text.get_char(start) == '+' {
        start += 1;
    }
    let ghost digits = text@.subrange(start as int, end as int);
    assert(digits =~= unsigned_part(core));
    if start == end {
        return None;
    }
    let mut value: u32 = 0;
    let mut i: usize = start;
    while i < end
        invariant
            start <= i <= end <= n,
            n == text@.len(),
            digits == text@.subrange(start as int, end as int),
            digits == unsigned_part(trimmed(text@)),
            value == decimal(digits.take(i - start)),
            value <= u16::MAX,
            all_digits(digits.take(i - start)),
        decreases end - i,
    {
        let c = text.get_char(i);
        let u = c as u32;
        assert(c == digits[i - start]);
        assert(digits.take(i - start + 1).drop_last() =~= digits.take(i - start));
        assert(digits.take(i - start + 1).last() == c);
        if !(u >= '0' as u32 && u <= '9' as u32) {
            assert(!is_digit(digits[i - start]));
            return None;
        }
        let next = value * 10 + (u - '0' as u32);
        if next > u16::MAX as u32 {
            proof {
                lemma_decimal_grows(digits, i - start + 1);
            }
            return None;
        }
        value = next;
        i += 1;
    }
    assert(digits.take(end - start) =~= digits);
    Some(value as u16)
}

/// Why the configured texts give no options.
#[derive(Clone, Copy, Debug, PartialEq, Eq, Structural)]
pub enum ConfigError {
    /// The port is no number that fits sixteen bits.
    InvalidPort,
    /// A port was configured and no host.
    PortWithoutHost,
    /// No topic was configured.
    MissingTopic,
}

/// The name and password of the bus client.
#[derive(Debug)]
pub struct Credentials {
    pub user: String,
    pub password: String,
}

/// What the bus client connects with.
#[derive(Debug)]
pub struct BrokerOptions {
    pub host: String,
    pub port: u16,
    /// Present only where both the name and the password were configured.
    pub credentials: Option<Credentials>,
    pub topic: String,
}

pub struct OptionsView {
    pub host: Seq<char>,
    pub port: u16,
    pub credentials: Option<(Seq<char>, Seq<char>)>,
    pub topic: Seq<char>,
}

impl View for BrokerOptions {
    type V = OptionsView;

    open spec fn view(&self) -> OptionsView {
        OptionsView {
            host: self.host@,
            port: self.port,
            credentials: match self.credentials {
                Some(c) => Some((c.user@, c.password@)),
                None => None,
            },
            topic: self.topic@,
        }
    }
}

/// The broker's host and port: the host defaults to `localhost` and the port
/// to 1883, and a port without a host is refused.
pub open spec fn endpoint_of(host: Option<Seq<char>>, port: Option<Seq<char>>) -> Result<
    (Seq<char>, u16),
    ConfigError,
> {
    match (host, port) {
        (None, None) => Ok(("localhost"@, DEFAULT_PORT)),
        (Some(h), None) => Ok((h, DEFAULT_PORT)),
        (Some(h), Some(p)) => match port_of(p) {
            Some(number) => Ok((h, number)),
            None => Err(ConfigError::InvalidPort),
        },
        (None, Some(_)) => Err(ConfigError::PortWithoutHost),
    }
}

/// Credentials are used only where both parts are configured.
pub open spec fn credentials_of(user: Option<Seq<char>>, password: Option<Seq<char>>) -> Option<
    (Seq<char>, Seq<char>),
> {
    match (user, password) {
        (Some(u), Some(p)) => Some((u, p)),
        _ => None,
    }
}

/// The options that the configured texts give. The endpoint is looked at
/// first, then the topic.
pub open spec fn options_of(
    host: Option<Seq<char>>,
    port: Option<Seq<char>>,
    user: Option<Seq<char>>,
    password: Option<Seq<char>>,
    topic: Option<Seq<char>>,
) -> Result<OptionsView, ConfigError> {
    match endpoint_of(host, port) {
        Err(error) => Err(error),
        Ok((h, number)) => match topic {
            None => Err(ConfigError::MissingTopic),
            Some(t) => Ok(
                OptionsView {
                    host: h,
                    port: number,
                    credentials: credentials_of(user, password),
                    topic: t,
                },
            ),
        },
    }
}

/// The text of an optional string.
pub open spec fn text_of(value: Option<String>) -> Option<Seq<char>> {
    match value {
        Some(s) => Some(s@),
        None => None,
    }
}

/// Makes the bus client's options from the five configured texts, each of
/// which may be missing.
pub fn broker_options(
    host: Option<String>,
    port: Option<String>,
    user: Option<String>,
    password: Option<String>,
    topic: Option<String>,
) -> (options: Result<BrokerOptions, ConfigError>)
    ensures
        match options {
            Ok(o) => options_of(
                text_of(host),
                text_of(port),
                text_of(user),
                text_of(password),
                text_of(topic),
            ) == Ok::<OptionsView, ConfigError>(o@),
            Err(error) => options_of(
                text_of(host),
                text_of(port),
                text_of(user),
                text_of(password),
                text_of(topic),
            ) == Err::<OptionsView, ConfigError>(error),
        },
{
    let (host, port) = match (host, port) {
        (None, None) => ("localhost".to_owned(), DEFAULT_PORT),
        (Some(h), None) => (h, DEFAULT_PORT),
        (Some(h), Some(p)) => match parse_port(p.as_str()) {
            Some(number) => (h, number),
            None => {
                return Err(ConfigError::InvalidPort);
            },
        },
        (None, Some(_)) => {
            return Err(ConfigError::PortWithoutHost);
        },
    };
    let topic = match topic {
        Some(t) => t,
        None => {
            return Err(ConfigError::MissingTopic);
        },
    };
    let credentials = match (user, password) {
        (Some(user), Some(password)) => Some(Credentials { user, password }),
        _ => None,
    };
    Ok(BrokerOptions { host, port, credentials, topic })
}

/// Where the store lives.
#[derive(Debug)]
pub enum StoreLocation {
    /// In the file at this path.
    File(String),
    /// In memory; nothing outlives the process.
    Memory,
}

/// A store without a configured path lives in memory.
pub fn store_location(path: Option<String>) -> (location: StoreLocation)
    ensures
        match location {
            StoreLocation::File(p) => text_of(path) == Some(p@),
            StoreLocation::Memory => path is None,
        },
{
    match path {
        Some(p) => StoreLocation::File(p),
        None => StoreLocation::Memory,
    }
}

} // verus!
