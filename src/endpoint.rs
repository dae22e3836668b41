//! Endpoints, that is an IP address and a port, and the reading of a port
//! number given as text.

use vstd::prelude::*;
use vstd::string::*;
use vstd::utf8::*;

verus! {

/// An IPv4 address as its 32 bits, or an IPv6 address as its 128 bits, most
/// significant first.
#[derive(Clone, Copy, Debug, PartialEq, Eq, Structural)]
pub enum IpAddress {
    V4(u32),
    V6(u128),
}

#[derive(Clone, Copy, Debug, PartialEq, Eq, Structural)]
pub struct Endpoint {
    pub ip: IpAddress,
    pub port: u16,
}

/// `0.0.0.0:<port>`: the given port on every local IPv4 address; port 0 asks
/// the system for a free one.
pub open spec fn any_v4(port: u16) -> Endpoint {
    Endpoint { ip: IpAddress::V4(0), port }
}

/// The local endpoint that a role binds: the given port, or an ephemeral one.
pub open spec fn local_for(port: Option<u16>) -> Endpoint {
    match port {
        Some(p) => any_v4(p),
        None => any_v4(0),
    }
}

impl Endpoint {
    pub fn any_v4(port: u16) -> (e: Endpoint)
        ensures
            e == any_v4(port),
    {
        Endpoint { ip: IpAddress::V4(0), port }
    }

    pub fn local_for(port: Option<u16>) -> (e: Endpoint)
        ensures
            e == local_for(port),
    {
        match port {
            Some(p) => Endpoint::any_v4(p),
            None => Endpoint::any_v4(0),
        }
    }
}

pub open spec fn is_digit(c: char) -> bool {
    '0' <= c <= '9'
}

pub open spec fn all_digits(s: Seq<char>) -> bool {
    forall|i: int| 0 <= i < s.len() ==> is_digit(#[trigger] s[i])
}

/// The number that a string of decimal digits writes.
pub open spec fn digits_value(s: Seq<char>) -> nat
    decreases s.len(),
{
    if s.len() == 0 {
        0
    } else {
        digits_value(s.drop_last()) * 10 + ((s.last() as u32 - '0' as u32) as nat)
    }
}

/// The digits of a port: the text without one leading `+`, if it has one.
pub open spec fn port_digits(s: Seq<char>) -> Seq<char> {
    if s.len() > 0 && s[0] == '+' {
        s.drop_first()
    } else {
        s
    }
}

/// The port that a text names, as `u16`'s `from_str` reads it: an optional
/// `+`, then one or more decimal digits whose value fits in 16 bits.
pub open spec fn port_of(s: Seq<char>) -> Option<u16> {
    let d = port_digits(s);
    if d.len() > 0 && all_digits(d) && digits_value(d) <= 65535 {
        Some(digits_value(d) as u16)
    } else {
        None
    }
}

proof fn lemma_digits_value_prefix(s: Seq<char>, n: int)
    requires
        all_digits(s),
        0 <= n <= s.len(),
    ensures
        digits_value(s.subrange(0, n)) <= digits_value(s),
    decreases s.len() - n,
{
    if n < s.len() {
        lemma_digits_value_prefix(s, n + 1);
        let p = s.subrange(0, n + 1);
        assert(p.drop_last() =~= s.subrange(0, n));
        assert(is_digit(s[n]));
    } else {
        assert(s.subrange(0, n) =~= s);
    }
}

/// Reads a port number written in decimal.
pub fn parse_port(s: &str) -> (r: Option<u16>)
    ensures
        r == port_of(s@),
{
    let ghost d = port_digits(s@);
    if !s.is_ascii() {
        proof {
            let k = choose|k: int| 0 <= k < s@.len() && !('\0' <= #[trigger] s@[k] <= '\u{7f}');
            if s@.len() > 0 && s@[0] == '+' {
                assert(d[k - 1] == s@[k]);
            } else {
                assert(d[k] == s@[k]);
            }
        }
        return None;
    }
    let b = s.as_bytes();
    proof {
        is_ascii_spec_bytes(s);
    }
    let n = b.len();
    let mut i: usize = 0;
    if n > 0 && b[0] == 43 {
        i = 1;
    }
    let start = i;
    proof {
        assert(d =~= s@.subrange(start as int, n as int));
    }
    if start == n {
        return None;
    }
    let mut v: u32 = 0;
    while i < n
        invariant
            b@.len() == n == s@.len(),
            forall|k: int| 0 <= k < n ==> b@[k] == #[trigger] s@[k] as u8,
            is_ascii_chars(s@),
            d == port_digits(s@),
            d =~= s@.subrange(start as int, n as int),
            start <= i <= n,
            all_digits(s@.subrange(start as int, i as int)),
            v as nat == digits_value(s@.subrange(start as int, i as int)),
            v <= 65535,
        decreases n - i,
    {
        let c = b[i];
        assert(s@[i as int] as u32 <= 127);
        assert(c as u32 == s@[i as int] as u32);
        if c < 48 || c > 57 {
            proof {
                assert(d[i - start] == s@[i as int]);
                assert(!is_digit(d[i - start]));
            }
            return None;
        }
        let nv = v * 10 + (c - 48) as u32;
        proof {
            let p = s@.subrange(start as int, i + 1);
            assert(p.drop_last() =~= s@.subrange(start as int, i as int));
            assert(p.last() == s@[i as int]);
        }
        if nv > 65535 {
            proof {
                let p = s@.subrange(start as int, i + 1);
                if all_digits(d) {
                    assert(p =~= d.subrange(0, i + 1 - start));
                    lemma_digits_value_prefix(d, i + 1 - start);
                }
            }
            return None;
        }
        v = nv;
        i = i + 1;
    }
    Some(v as u16)
}

} // verus!
