//! The values used where the environment configures nothing, and the
//! priority under which a log line is handed to the journal.

use vstd::prelude::*;
use vstd::string::*;

verus! {

/// The broker's port where none is configured.
pub const DEFAULT_PORT: u16 = 1883;

/// The largest packet sent or received: 512 KiB.
pub const MAX_PACKET_SIZE: usize = 524288;

/// How many requests the client queues.
pub const REQUEST_CAPACITY: usize = 10;

/// A setting after defaulting.
#[derive(Debug)]
pub struct Resolved {
    pub value: String,
    /// The default was taken, which is worth a warning.
    pub defaulted: bool,
}

/// Severity of a log record.
#[derive(Clone, Copy, Debug, PartialEq, Eq, Structural)]
pub enum LogLevel {
    Error,
    Warn,
    Info,
    Debug,
    Trace,
}

/// The journal priority of a severity.
pub open spec fn priority_of(level: LogLevel) -> u8 {
    match level {
        LogLevel::Error => 3u8,
        LogLevel::Warn => 4u8,
        LogLevel::Info => 6u8,
        LogLevel::Debug => 7u8,
        LogLevel::Trace => 7u8,
    }
}

/// The journal priority under which a record of this severity is written.
pub fn syslog_priority(level: LogLevel) -> (priority: u8)
    ensures
        priority == priority_of(level),
{
    match level {
        LogLevel::Error => 3,
        LogLevel::Warn => 4,
        LogLevel::Info => 6,
        LogLevel::Debug => 7,
        LogLevel::Trace => 7,
    }
}

/// The configured text, or `fallback` where nothing is configured.
pub fn text_or_default(configured: Option<String>, fallback: &str) -> (resolved: Resolved)
    ensures
        resolved.defaulted == (configured is None),
        resolved.value@ == match configured {
            Some(text) => text@,
            None => fallback@,
        },
{
    match configured {
        Some(text) => Resolved { value: text, defaulted: false },
        None => Resolved { value: String::from_str(fallback), defaulted: true },
    }
}

/// The configured port, or the default where none is configured or the
/// configured text was no port.
pub fn port_or_default(configured: Option<u16>) -> (port: u16)
    ensures
        port == match configured {
            Some(p) => p,
            None => DEFAULT_PORT,
        },
{
    match configured {
        Some(p) => p,
        None => DEFAULT_PORT,
    }
}

/// The database address where none is configured.
pub fn default_database_url() -> (url: String)
    ensures
        url@ == "postgresql:/sensors"@,
{
    String::from_str("postgresql:/sensors")
}

/// The broker's host where none is configured.
pub fn default_broker_host() -> (host: String)
    ensures
        host@ == "localhost"@,
{
    String::from_str("localhost")
}

/// The price region that is looked up.
pub fn default_region() -> (region: String)
    ensures
        region@ == "ee"@,
{
    String::from_str("ee")
}

/// The heaters that are switched, in the order in which they are addressed.
pub fn default_devices() -> (devices: Vec<String>)
    ensures
        devices@.len() == 2,
        devices@[0]@ == "0xb4e3f9fffe19faf7"@,
        devices@[1]@ == "0xb4e3f9fffe206084"@,
{
    let mut devices: Vec<String> = Vec::new();
    devices.push(String::from_str("0xb4e3f9fffe19faf7"));
    devices.push(String::from_str("0xb4e3f9fffe206084"));
    devices
}

/// A port after defaulting.
#[derive(Clone, Copy, Debug)]
pub struct ResolvedPort {
    pub port: u16,
    /// Nothing was configured, which is worth a warning.
    pub defaulted: bool,
}

/// Whether a character is one of the ten decimal digits.
pub open spec fn is_digit(c: char) -> bool {
    '0' <= c && c <= '9'
}

/// Whether a text is one or more decimal digits and nothing else.
pub open spec fn is_digits(text: Seq<char>) -> bool {
    &&& text.len() > 0
    &&& forall|i: int| 0 <= i < text.len() ==> is_digit(#[trigger] text[i])
}

/// The number that a text of decimal digits writes.
pub open spec fn digits_value(text: Seq<char>) -> nat
    decreases text.len(),
{
    if text.len() == 0 {
        0
    } else {
        digits_value(text.drop_last()) * 10 + (text.last() as nat - '0' as nat) as nat
    }
}

/// A text without the one `+` that may stand in front of a number.
pub open spec fn unsigned_part(text: Seq<char>) -> Seq<char> {
    if text.len() > 0 && text[0] == '+' {
        text.drop_first()
    } else {
        text
    }
}

/// The port that a text writes: an optional `+`, then one or more decimal
/// digits whose value is at most 65535. Any other text writes none.
pub open spec fn port_from_str(text: Seq<char>) -> Option<u16> {
    if is_digits(unsigned_part(text)) && digits_value(unsigned_part(text)) <= u16::MAX {
        Some(digits_value(unsigned_part(text)) as u16)
    } else {
        None
    }
}

/// Calls the standard library's `str::parse::<u16>` and drops the error.
/// Trusted: it accepts an optional `+` followed by decimal digits only,
/// refuses the empty text, any other character and a value above 65535, and
/// returns the value that the digits write.
#[verifier::external_body]
fn parse_port(text: &str) -> (port: Option<u16>)
    ensures
        port == port_from_str(text@),
{
    match text.parse::<u16>() {
        Ok(port) => Some(port),
        Err(_) => None,
    }
}

/// The port that a configured text leads to: what it reads as, the default
/// where it is no port, and the default where nothing is configured.
pub open spec fn resolved_port_of(configured: Option<Seq<char>>) -> u16 {
    match configured {
        Some(text) => match port_from_str(text) {
            Some(port) => port,
            None => DEFAULT_PORT,
        },
        None => DEFAULT_PORT,
    }
}

/// Resolves the broker's port from the configured text, if any.
pub fn resolve_port(configured: Option<&str>) -> (resolved: ResolvedPort)
    ensures
        resolved.defaulted == (configured is None),
        resolved.port == resolved_port_of(
            match configured {
                Some(text) => Some(text@),
                None => None,
            },
        ),
{
    match configured {
        Some(text) => ResolvedPort { port: port_or_default(parse_port(text)), defaulted: false },
        None => ResolvedPort { port: DEFAULT_PORT, defaulted: true },
    }
}

/// The digit that stands for a severity's journal priority.
pub open spec fn priority_digit(level: LogLevel) -> Seq<char> {
    match level {
        LogLevel::Error => "3"@,
        LogLevel::Warn => "4"@,
        LogLevel::Info => "6"@,
        LogLevel::Debug => "7"@,
        LogLevel::Trace => "7"@,
    }
}

/// A log line as the journal takes it: the priority in angle brackets, the
/// target, a colon and a space, the message.
pub open spec fn journal_line_of(level: LogLevel, target: Seq<char>, message: Seq<char>) -> Seq<
    char,
> {
    "<"@ + priority_digit(level) + ">"@ + target + ": "@ + message
}

/// Formats a record for the journal.
pub fn journal_line(level: LogLevel, target: &str, message: &str) -> (line: String)
    ensures
        line@ == journal_line_of(level, target@, message@),
{
    let digit = match level {
        LogLevel::Error => "3",
        LogLevel::Warn => "4",
        LogLevel::Info => "6",
        LogLevel::Debug => "7",
        LogLevel::Trace => "7",
    };
    String::from_str("<").concat(digit).concat(">").concat(target).concat(": ").concat(message)
}

/// Whether the configured log style asks for journal lines: it does when it
/// is exactly `SYSTEMD`.
pub fn is_journal_style(style: Option<String>) -> (journal: bool)
    ensures
        journal == (style matches Some(s) && s@ == "SYSTEMD"@),
{
    match style {
        Some(s) => {
            let wanted = String::from_str("SYSTEMD");
            s.eq(&wanted)
        },
        None => false,
    }
}

} // verus!
