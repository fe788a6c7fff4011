//! Names for the resolver that the thread-pool engine integrates.

use crate::traits::addr::{
    AsyncToSocketAddrs, IpAddress, Resolution, ResolutionView, ResolveError,
};
use crate::traits::executor::Ambient;
use crate::util::addr::SocketAddrsFromIpAddrs;
use vstd::prelude::*;
use vstd::string::StrSliceExecFns;

verus! {

/// Why a text is no host with a port.
#[derive(Debug, Clone, Copy, PartialEq, Eq, Structural)]
pub enum AddrParseError {
    /// The text has no colon, so no port.
    InvalidSocketAddress,
    /// What follows the last colon is no port number.
    InvalidPort,
}

/// The position of the last colon of a text, `-1` when it has none.
pub open spec fn last_colon(text: Seq<char>) -> int
    decreases text.len(),
{
    if text.len() == 0 {
        -1
    } else if text.last() == ':' {
        text.len() - 1
    } else {
        last_colon(text.drop_last())
    }
}

/// Whether a character is a decimal digit.
pub open spec fn is_digit(c: char) -> bool {
    '0' <= c <= '9'
}

/// The number that a run of decimal digits writes.
pub open spec fn decimal(digits: Seq<char>) -> nat
    decreases digits.len(),
{
    if digits.len() == 0 {
        0
    } else {
        (decimal(digits.drop_last()) * 10 + (digits.last() as u32 - '0' as u32)) as nat
    }
}

/// The digits of a port number: the text itself, without one leading plus
/// sign if it is followed by something.
pub open spec fn port_digits(text: Seq<char>) -> Seq<char> {
    if text.len() > 1 && text[0] == '+' {
        text.skip(1)
    } else {
        text
    }
}

/// The port that a text writes: at least one decimal digit and nothing else
/// but for one plus sign in front, with a value of at most 65535.
pub open spec fn parse_port(text: Seq<char>) -> Option<u16> {
    let digits = port_digits(text);
    if digits.len() > 0 && (forall|i: int| 0 <= i < digits.len() ==> is_digit(#[trigger] digits[i]))
        && decimal(digits) <= 65535 {
        Some(decimal(digits) as u16)
    } else {
        None
    }
}

/// The host and the port that a text writes: the host is all that stands
/// before the last colon, the port what follows it.
pub open spec fn parse_host_port(text: Seq<char>) -> Result<(Seq<char>, u16), AddrParseError> {
    let colon = last_colon(text);
    if colon < 0 {
        Err(AddrParseError::InvalidSocketAddress)
    } else {
        match parse_port(text.skip(colon + 1)) {
            Some(port) => Ok((text.take(colon), port)),
            None => Err(AddrParseError::InvalidPort),
        }
    }
}

/// The last colon is a colon, and no colon follows it; a text without a
/// colon has no last colon.
pub proof fn lemma_last_colon(text: Seq<char>)
    ensures
        -1 <= last_colon(text) < text.len(),
        last_colon(text) >= 0 ==> text[last_colon(text)] == ':',
        forall|j: int| last_colon(text) < j < text.len() ==> text[j] != ':',
    decreases text.len(),
{
    if text.len() > 0 && text.last() != ':' {
        lemma_last_colon(text.drop_last());
        assert forall|j: int| last_colon(text) < j < text.len() implies text[j] != ':' by {
            if j < text.len() - 1 {
                assert(text.drop_last()[j] == text[j]);
            }
        }
    }
}

/// A colon after which no colon follows is the last colon.
pub proof fn lemma_last_colon_at(text: Seq<char>, at: int)
    requires
        0 <= at < text.len(),
        text[at] == ':',
        forall|j: int| at < j < text.len() ==> text[j] != ':',
    ensures
        last_colon(text) == at,
    decreases text.len(),
{
    if text.last() != ':' {
        assert(at < text.len() - 1);
        assert(text.drop_last()[at] == text[at]);
        assert forall|j: int| at < j < text.drop_last().len() implies text.drop_last()[j]
            != ':' by {
            assert(text.drop_last()[j] == text[j]);
        }
        lemma_last_colon_at(text.drop_last(), at);
    }
}

/// A text without any colon has no last colon.
pub proof fn lemma_no_colon(text: Seq<char>)
    requires
        forall|j: int| 0 <= j < text.len() ==> text[j] != ':',
    ensures
        last_colon(text) == -1,
    decreases text.len(),
{
    if text.len() > 0 {
        assert(text.last() != ':');
        assert forall|j: int| 0 <= j < text.drop_last().len() implies text.drop_last()[j]
            != ':' by {
            assert(text.drop_last()[j] == text[j]);
        }
        lemma_no_colon(text.drop_last());
    }
}

/// A number grows with every digit that is written behind it.
proof fn lemma_decimal_grows(digits: Seq<char>, shorter: int)
    requires
        0 <= shorter <= digits.len(),
        forall|i: int| 0 <= i < digits.len() ==> is_digit(#[trigger] digits[i]),
    ensures
        decimal(digits.take(shorter)) <= decimal(digits),
    decreases digits.len() - shorter,
{
    if shorter < digits.len() {
        let longer = digits.take(shorter + 1);
        assert(longer.drop_last() =~= digits.take(shorter));
        assert(is_digit(digits[shorter]));
        assert(longer.last() == digits[shorter]);
        lemma_decimal_grows(digits, shorter + 1);
    } else {
        assert(digits.take(shorter) =~= digits);
    }
}

/// The port that the characters of `text` from `from` on write.
fn parse_port_from(text: &str, from: usize, len: usize) -> (port: Option<u16>)
    requires
        from <= len,
        len == text@.len(),
    ensures
        port == parse_port(text@.skip(from as int)),
{
    let ghost tail = text@.skip(from as int);
    let mut start: usize = from;
    if len - from > 1 && text.get_char(from) == '+' {
        start = from + 1;
    }
    let ghost digits = text@.skip(start as int);
    assert(digits =~= port_digits(tail));
    if start == len {
        return None;
    }
    let mut value: u32 = 0;
    let mut i: usize = start;
    while i < len
        invariant
            start <= i <= len,
            len == text@.len(),
            digits == text@.skip(start as int),
            digits == port_digits(text@.skip(from as int)),
            forall|j: int| 0 <= j < i - start ==> is_digit(#[trigger] digits[j]),
            value == decimal(digits.take(i - start)),
            value <= 65535,
        decreases len - i,
    {
        let c = text.get_char(i);
        assert(c == digits[i - start]);
        if !('0' <= c && c <= '9') {
            assert(!is_digit(digits[i - start]));
            return None;
        }
        let digit: u32 = c as u32 - '0' as u32;
        let next: u32 = value * 10 + digit;
        assert(digits.take(i + 1 - start).drop_last() =~= digits.take(i - start));
        assert(next == decimal(digits.take(i + 1 - start)));
        if next > 65535 {
            proof {
                if forall|j: int| 0 <= j < digits.len() ==> is_digit(#[trigger] digits[j]) {
                    lemma_decimal_grows(digits, i + 1 - start);
                }
            }
            return None;
        }
        value = next;
        i += 1;
    }
    assert(digits.take(i - start) =~= digits);
    Some(value as u16)
}

/// A host by its name, and a port on it.
#[derive(Debug, Clone)]
pub struct HickoryToSocketAddrs<T> {
    host: T,
    port: u16,
}

impl<T> HickoryToSocketAddrs<T> {
    /// The name of the host.
    pub closed spec fn host(&self) -> T {
        self.host
    }

    /// The port on the host.
    pub closed spec fn port(&self) -> u16 {
        self.port
    }

    /// A host and a port on it.
    pub fn new(host: T, port: u16) -> (name: Self)
        ensures
            name.host() == host,
            name.port() == port,
    {
        Self { host, port }
    }

    /// The name of the host.
    pub fn get_host(&self) -> (host: &T)
        ensures
            *host == self.host(),
    {
        &self.host
    }

    /// The port on the host.
    pub fn get_port(&self) -> (port: u16)
        ensures
            port == self.port(),
    {
        self.port
    }

    /// The name of the host and the port, taken apart.
    pub fn into_parts(self) -> (parts: (T, u16))
        ensures
            parts == (self.host(), self.port()),
    {
        (self.host, self.port)
    }

    /// Asks for a lookup of the host. The resolver belongs to the
    /// thread-pool engine: outside of its context the lookup is refused.
    pub fn lookup(self, ambient: Ambient) -> (request: Result<Self, ResolveError>)
        ensures
            request == if ambient.inside_tokio {
                Ok::<Self, ResolveError>(self)
            } else {
                Err::<Self, ResolveError>(ResolveError::Context)
            },
    {
        if !ambient.inside_tokio {
            return Err(ResolveError::Context);
        }
        Ok(self)
    }

    /// The socket addresses of the host, from the IP addresses that the
    /// lookup gave: each with the port, in the order of the lookup.
    pub fn socket_addrs(&self, ips: Vec<IpAddress>) -> (addrs: SocketAddrsFromIpAddrs)
        ensures
            addrs.remaining() == crate::util::addr::on_port(ips@, self.port()),
    {
        SocketAddrsFromIpAddrs::new(ips, self.port)
    }
}

impl HickoryToSocketAddrs<String> {
    /// Reads a host and a port from a text of the form `host:port`.
    pub fn from_str(text: &str) -> (name: Result<Self, AddrParseError>)
        ensures
            match name {
                Ok(parsed) => parse_host_port(text@) == Ok::<(Seq<char>, u16), AddrParseError>(
                    (parsed.host()@, parsed.port()),
                ),
                Err(e) => parse_host_port(text@) == Err::<(Seq<char>, u16), AddrParseError>(e),
            },
    {
        let len = text.unicode_len();
        let mut end: usize = len;
        while end > 0 && text.get_char(end - 1) != ':'
            invariant
                end <= len,
                len == text@.len(),
                forall|j: int| end <= j < len ==> text@[j] != ':',
            decreases end,
        {
            end -= 1;
        }
        if end == 0 {
            proof {
                lemma_no_colon(text@);
            }
            return Err(AddrParseError::InvalidSocketAddress);
        }
        let colon: usize = end - 1;
        proof {
            lemma_last_colon_at(text@, colon as int);
        }
        match parse_port_from(text, end, len) {
            Some(port) => {
                let host = text.substring_char(0, colon).to_owned();
                assert(text@.subrange(0, colon as int) =~= text@.take(colon as int));
                Ok(Self::new(host, port))
            },
            None => Err(AddrParseError::InvalidPort),
        }
    }
}

impl<T> AsyncToSocketAddrs for HickoryToSocketAddrs<T> {
    type Name = HickoryToSocketAddrs<T>;

    open spec fn resolution(self, ambient: Ambient) -> Result<
        ResolutionView<HickoryToSocketAddrs<T>>,
        ResolveError,
    > {
        if ambient.inside_tokio {
            Ok(ResolutionView::Native(self))
        } else {
            Err(ResolveError::Context)
        }
    }

    fn to_socket_addrs(self, ambient: Ambient) -> (got: Result<
        Resolution<HickoryToSocketAddrs<T>>,
        ResolveError,
    >) {
        match self.lookup(ambient) {
            Ok(name) => Ok(Resolution::Native(name)),
            Err(e) => Err(e),
        }
    }
}

} // verus!
