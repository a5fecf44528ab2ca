//! A port to forward: a bare port number, or `service:port`.

use vstd::prelude::*;
use vstd::string::*;

use crate::text::{decimal, decimal_string, text_of};

verus! {

/// A port of the devcontainer, on the main service or on a named one.
#[derive(Debug, Clone, PartialEq, Eq)]
pub struct ForwardPort {
    pub service: Option<String>,
    pub port: u16,
}

/// A forwarded port as configuration writes it: a number or a text.
#[derive(Debug, Clone, PartialEq, Eq)]
pub enum Raw {
    Number(u16),
    Text(String),
}

/// Why a text names no forwarded port.
#[derive(Debug, Clone, Copy, PartialEq, Eq, Structural)]
pub enum PortError {
    /// There is no colon: the text is neither a port number nor
    /// `service:port`.
    NotAMapping,
    /// What follows the first colon is no port number.
    InvalidPort,
}

/// The value of a decimal digit, where the character is one.
pub open spec fn digit_value(c: char) -> Option<int> {
    if c == '0' {
        Some(0)
    } else if c == '1' {
        Some(1)
    } else if c == '2' {
        Some(2)
    } else if c == '3' {
        Some(3)
    } else if c == '4' {
        Some(4)
    } else if c == '5' {
        Some(5)
    } else if c == '6' {
        Some(6)
    } else if c == '7' {
        Some(7)
    } else if c == '8' {
        Some(8)
    } else if c == '9' {
        Some(9)
    } else {
        None
    }
}

/// The number that a text of decimal digits writes; nothing for the empty
/// text and for a text with anything else in it.
pub open spec fn number(text: Seq<char>) -> Option<nat>
    decreases text.len(),
{
    if text.len() == 0 {
        None
    } else if text.len() == 1 {
        match digit_value(text[0]) {
            Some(d) => Some(d as nat),
            None => None,
        }
    } else {
        match (number(text.drop_last()), digit_value(text.last())) {
            (Some(n), Some(d)) => Some((n * 10 + d) as nat),
            _ => None,
        }
    }
}

/// The port that a text writes: decimal digits, with a plus sign in front if
/// one likes, and no more than 65535.
pub open spec fn port_number(text: Seq<char>) -> Option<u16> {
    let digits = if text.len() > 0 && text[0] == '+' {
        text.skip(1)
    } else {
        text
    };
    match number(digits) {
        Some(n) => if n <= 65535 {
            Some(n as u16)
        } else {
            None
        },
        None => None,
    }
}

/// Where the first colon of `text` stands, if there is one.
pub open spec fn first_colon(text: Seq<char>) -> Option<int>
    decreases text.len(),
{
    if text.len() == 0 {
        None
    } else if text[0] == ':' {
        Some(0)
    } else {
        match first_colon(text.skip(1)) {
            Some(i) => Some(i + 1),
            None => None,
        }
    }
}

/// A forwarded port as contracts see it.
pub struct ForwardPortView {
    pub service: Option<Seq<char>>,
    pub port: u16,
}

impl View for ForwardPort {
    type V = ForwardPortView;

    open spec fn view(&self) -> ForwardPortView {
        ForwardPortView { service: text_of(self.service), port: self.port }
    }
}

/// What a text names: the service before the first colon and the port
/// behind it.
pub open spec fn parsed(text: Seq<char>) -> Result<ForwardPortView, PortError> {
    match first_colon(text) {
        Some(i) => match port_number(text.skip(i + 1)) {
            Some(port) => Ok(ForwardPortView { service: Some(text.take(i)), port }),
            None => Err(PortError::InvalidPort),
        },
        None => Err(PortError::NotAMapping),
    }
}

/// What a configured value names: a number is a port of the main service, a
/// text is parsed.
pub open spec fn from_raw_spec(raw: Raw) -> Result<ForwardPortView, PortError> {
    match raw {
        Raw::Number(port) => Ok(ForwardPortView { service: None, port }),
        Raw::Text(text) => parsed(text@),
    }
}

/// A forwarded port as it is shown: `service:port`, or the port alone.
pub open spec fn shown(port: ForwardPortView) -> Seq<char> {
    match port.service {
        Some(service) => service + seq![':'] + decimal(port.port as nat),
        None => decimal(port.port as nat),
    }
}

/// A number with more digits behind it is no smaller.
proof fn lemma_number_grows(text: Seq<char>, k: int)
    requires
        0 < k <= text.len(),
        number(text) is Some,
    ensures
        number(text.take(k)) is Some,
        number(text.take(k))->0 <= number(text)->0,
    decreases text.len(),
{
    if k == text.len() {
        assert(text.take(k) =~= text);
    } else {
        assert(text.len() > 1);
        assert(text.drop_last().take(k) =~= text.take(k));
        lemma_number_grows(text.drop_last(), k);
    }
}

/// The value of a decimal digit, where the character is one.
fn digit_of(c: char) -> (value: Option<u8>)
    ensures
        match value {
            Some(d) => Some(d as int),
            None => None,
        } == digit_value(c),
        value matches Some(d) ==> d < 10,
{
    if c == '0' {
        Some(0)
    } else if c == '1' {
        Some(1)
    } else if c == '2' {
        Some(2)
    } else if c == '3' {
        Some(3)
    } else if c == '4' {
        Some(4)
    } else if c == '5' {
        Some(5)
    } else if c == '6' {
        Some(6)
    } else if c == '7' {
        Some(7)
    } else if c == '8' {
        Some(8)
    } else if c == '9' {
        Some(9)
    } else {
        None
    }
}

/// Reads the port that the characters of `text` from `from` on write.
fn parse_port(text: &str, from: usize) -> (port: Option<u16>)
    requires
        from <= text@.len(),
    ensures
        port == port_number(text@.skip(from as int)),
{
    let len = text.unicode_len();
    let ghost tail = text@.skip(from as int);
    let mut i: usize = from;
    if i < len && text.get_char(i) == '+' {
        i += 1;
    }
    let ghost digits = text@.skip(i as int);
    assert(digits =~= if tail.len() > 0 && tail[0] == '+' {
        tail.skip(1)
    } else {
        tail
    });
    if i == len {
        return None;
    }
    let start = i;
    let mut value: u32 = 0;
    while i < len
        invariant
            start <= i <= len,
            len == text@.len(),
            from <= text@.len(),
            tail == text@.skip(from as int),
            digits == text@.skip(start as int),
            port_number(tail) == match number(digits) {
                Some(n) => if n <= 65535 {
                    Some(n as u16)
                } else {
                    None
                },
                None => None,
            },
            value <= 65535,
            i > start ==> number(digits.take(i - start)) == Some(value as nat),
            i == start ==> value == 0,
        decreases len - i,
    {
        let c = text.get_char(i);
        let ghost k = i - start;
        proof {
            assert(digits[k] == c);
            assert(digits.take(k + 1).drop_last() =~= digits.take(k));
            assert(digits.take(k + 1).last() == c);
        }
        match digit_of(c) {
            Some(d) => {
                value = value * 10 + d as u32;
                assert(number(digits.take(k + 1)) == Some(value as nat));
                if value > 65535 {
                    proof {
                        if number(digits) is Some {
                            lemma_number_grows(digits, k + 1);
                        }
                    }
                    return None;
                }
            },
            None => {
                proof {
                    assert(number(digits.take(k + 1)) is None);
                    if number(digits) is Some {
                        lemma_number_grows(digits, k + 1);
                    }
                }
                return None;
            },
        }
        i += 1;
    }
    proof {
        assert(digits.take(len - start) =~= digits);
    }
    Some(value as u16)
}

/// Finds the first colon of `text`.
fn find_colon(text: &str) -> (at: Option<usize>)
    ensures
        match at {
            Some(i) => Some(i as int),
            None => None,
        } == first_colon(text@),
        at matches Some(i) ==> i < text@.len() && i < usize::MAX,
{
    let len = text.unicode_len();
    let mut i: usize = 0;
    proof {
        assert(text@.skip(0) =~= text@);
    }
    while i < len
        invariant
            i <= len,
            len == text@.len(),
            first_colon(text@) == match first_colon(text@.skip(i as int)) {
                Some(j) => Some(j + i),
                None => None,
            },
        decreases len - i,
    {
        proof {
            let rest = text@.skip(i as int);
            assert(rest[0] == text@[i as int]);
            assert(rest.skip(1) =~= text@.skip(i + 1));
        }
        if text.get_char(i) == ':' {
            return Some(i);
        }
        i += 1;
    }
    None
}

impl ForwardPort {
    /// Reads `service:port`.
    pub fn parse(text: &str) -> (port: Result<ForwardPort, PortError>)
        ensures
            match port {
                Ok(p) => Ok(p@),
                Err(e) => Err(e),
            } == parsed(text@),
    {
        match find_colon(text) {
            Some(i) => match parse_port(text, i + 1) {
                Some(port) => {
                    let service = text.substring_char(0, i);
                    Ok(ForwardPort { service: Some(String::from_str(service)), port })
                },
                None => Err(PortError::InvalidPort),
            },
            None => Err(PortError::NotAMapping),
        }
    }

    /// Reads a configured value: a number is a port of the main service, a
    /// text must be `service:port`.
    pub fn from_raw(raw: Raw) -> (port: Result<ForwardPort, PortError>)
        ensures
            match port {
                Ok(p) => Ok(p@),
                Err(e) => Err(e),
            } == from_raw_spec(raw),
    {
        match raw {
            Raw::Number(port) => Ok(ForwardPort { service: None, port }),
            Raw::Text(text) => ForwardPort::parse(text.as_str()),
        }
    }

    /// The port as it is shown: `service:port`, or the port alone.
    pub fn to_string(&self) -> (text: String)
        ensures
            text@ == shown(self@),
    {
        match &self.service {
            Some(service) => {
                proof {
                    reveal_strlit(":");
                }
                let mut text = service.clone();
                text.append(":");
                text.append(decimal_string(self.port as u64).as_str());
                assert(text@ =~= shown(self@));
                text
            },
            None => decimal_string(self.port as u64),
        }
    }

    /// The port as configuration writes it: a text where it names a service,
    /// else a number.
    pub fn to_raw(&self) -> (raw: Raw)
        ensures
            match self.service {
                Some(_) => raw matches Raw::Text(text) && text@ == shown(self@),
                None => raw == Raw::Number(self.port),
            },
    {
        if self.service.is_some() {
            Raw::Text(self.to_string())
        } else {
            Raw::Number(self.port)
        }
    }
}

} // verus!
