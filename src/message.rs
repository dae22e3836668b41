//! The three payloads of the protocol and the recognition of a probe.

use vstd::prelude::*;
use vstd::utf8::*;

verus! {

/// A payload of the protocol; each one is plain US-ASCII text.
#[derive(Clone, Copy, Debug, PartialEq, Eq, Structural)]
pub enum Message {
    Ping,
    Pong,
    Dong,
}

pub open spec fn ping_text() -> Seq<char> {
    seq!['p', 'i', 'n', 'g']
}

pub open spec fn pong_text() -> Seq<char> {
    seq!['p', 'o', 'n', 'g']
}

pub open spec fn dong_text() -> Seq<char> {
    seq!['d', 'o', 'n', 'g']
}

impl Message {
    pub open spec fn spec_text(self) -> Seq<char> {
        match self {
            Message::Ping => ping_text(),
            Message::Pong => pong_text(),
            Message::Dong => dong_text(),
        }
    }

    /// The bytes on the wire: the UTF-8 encoding of the text.
    pub open spec fn spec_bytes(self) -> Seq<u8> {
        encode_utf8(self.spec_text())
    }

    pub fn text(&self) -> (r: &'static str)
        ensures
            r@ == self.spec_text(),
    {
        match self {
            Message::Ping => {
                proof { reveal_strlit("ping"); }
                "ping"
            },
            Message::Pong => {
                proof { reveal_strlit("pong"); }
                "pong"
            },
            Message::Dong => {
                proof { reveal_strlit("dong"); }
                "dong"
            },
        }
    }

    pub fn to_bytes(&self) -> (r: Vec<u8>)
        ensures
            r@ == self.spec_bytes(),
    {
        let t = self.text();
        let b = t.as_bytes();
        let mut out: Vec<u8> = Vec::new();
        let mut i: usize = 0;
        while i < b.len()
            invariant
                b@ == self.spec_bytes(),
                i <= b@.len(),
                out@ == b@.subrange(0, i as int),
            decreases b@.len() - i,
        {
            out.push(b[i]);
            i = i + 1;
        }
        proof { assert(out@ =~= b@); }
        out
    }
}

/// Unicode's `White_Space` property, the notion of white space that
/// `str::trim` uses.
pub open spec fn is_white_space(c: char) -> bool {
    let u = c as u32;
    ||| 0x09 <= u <= 0x0d
    ||| u == 0x20
    ||| u == 0x85
    ||| u == 0xa0
    ||| u == 0x1680
    ||| 0x2000 <= u <= 0x200a
    ||| u == 0x2028
    ||| u == 0x2029
    ||| u == 0x202f
    ||| u == 0x205f
    ||| u == 0x3000
}

/// `s` without its leading white space.
pub open spec fn trim_start(s: Seq<char>) -> Seq<char>
    decreases s.len(),
{
    if s.len() > 0 && is_white_space(s[0]) {
        trim_start(s.drop_first())
    } else {
        s
    }
}

/// `s` without its trailing white space.
pub open spec fn trim_end(s: Seq<char>) -> Seq<char>
    decreases s.len(),
{
    if s.len() > 0 && is_white_space(s.last()) {
        trim_end(s.drop_last())
    } else {
        s
    }
}

/// `s` without leading and trailing white space.
pub open spec fn trimmed(s: Seq<char>) -> Seq<char> {
    trim_end(trim_start(s))
}

/// The text that `String::from_utf8_lossy` makes of bytes that are not
/// valid UTF-8: each invalid sequence is replaced by U+FFFD.
pub uninterp spec fn lossy_text(b: Seq<u8>) -> Seq<char>;

/// The text of a received payload: valid UTF-8 decodes as it stands.
pub open spec fn received_text(b: Seq<u8>) -> Seq<char> {
    if valid_utf8(b) {
        decode_utf8(b)
    } else {
        lossy_text(b)
    }
}

/// A payload is a probe when its text, trimmed, is exactly `ping`.
pub open spec fn is_probe_text_spec(t: Seq<char>) -> bool {
    trimmed(t) == ping_text()
}

pub open spec fn is_probe_spec(payload: Seq<u8>) -> bool {
    is_probe_text_spec(received_text(payload))
}

/// Relies on `String::from_utf8_lossy`: the text depends on the bytes alone,
/// and bytes that are valid UTF-8 are decoded as they stand.
#[verifier::external_body]
fn decode_lossy(b: &[u8]) -> (r: String)
    ensures
        valid_utf8(b@) ==> r@ == decode_utf8(b@),
        !valid_utf8(b@) ==> r@ == lossy_text(b@),
{
    String::from_utf8_lossy(b).into_owned()
}

/// Relies on `str::trim`: leading and trailing `White_Space` characters are
/// removed.
#[verifier::external_body]
fn trim(s: &str) -> (r: &str)
    ensures
        r@ == trimmed(s@),
{
    s.trim()
}

/// Whether two strings hold the same characters.
pub fn same_text(a: &str, b: &str) -> (r: bool)
    ensures
        r == (a@ == b@),
{
    let x = a.as_bytes();
    let y = b.as_bytes();
    proof {
        encode_utf8_decode_utf8(a@);
        encode_utf8_decode_utf8(b@);
    }
    if x.len() != y.len() {
        return false;
    }
    let mut i: usize = 0;
    while i < x.len()
        invariant
            x@ == encode_utf8(a@),
            y@ == encode_utf8(b@),
            x@.len() == y@.len(),
            i <= x@.len(),
            forall|k: int| 0 <= k < i ==> x@[k] == y@[k],
        decreases x@.len() - i,
    {
        if x[i] != y[i] {
            return false;
        }
        i = i + 1;
    }
    proof { assert(x@ =~= y@); }
    true
}

/// Whether an already decoded payload is a probe.
pub fn is_probe_text(t: &str) -> (r: bool)
    ensures
        r == is_probe_text_spec(t@),
{
    proof {
        reveal_strlit("ping");
        assert("ping"@ =~= ping_text());
    }
    same_text(trim(t), "ping")
}

/// Whether a received payload is a probe: its text, decoded as
/// `String::from_utf8_lossy` does and trimmed, is `ping`.
pub fn is_probe(payload: &[u8]) -> (r: bool)
    ensures
        r == is_probe_spec(payload@),
{
    let t = decode_lossy(payload);
    is_probe_text(t.as_str())
}

} // verus!
