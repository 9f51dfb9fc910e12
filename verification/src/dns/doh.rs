use crate::dns::message::{push_all, Message};
use vstd::prelude::*;
use vstd::string::*;

verus! {

/// Port on which an upstream serves DNS over HTTPS.
pub const DOH_PORT: u16 = 443;

/// Why a reply to a DNS-over-HTTPS request was turned down.
#[derive(Clone, Copy, Debug, PartialEq, Eq, Structural)]
pub enum DohError {
    /// The reply does not start with `HTTP/1.1 200 OK`.
    Status,
    /// The reply names no `Content-Length:`.
    MissingLength,
    /// What follows `Content-Length:` is no length that this machine can hold.
    BadLength,
}

/// The decimal digits of `n`, most significant first, as ASCII.
pub open spec fn decimal(n: nat) -> Seq<u8>
    decreases n,
{
    if n < 10 {
        seq![(48 + n) as u8]
    } else {
        decimal(n / 10).push((48 + n % 10) as u8)
    }
}

/// Appends the decimal digits of `n`.
pub fn push_decimal(out: &mut Vec<u8>, n: usize)
    ensures
        final(out)@ == old(out)@ + decimal(n as nat),
    decreases n,
{
    if n < 10 {
        out.push(48 + n as u8);
        assert(final(out)@ =~= old(out)@ + decimal(n as nat));
    } else {
        push_decimal(out, n / 10);
        out.push(48 + (n % 10) as u8);
        assert(final(out)@ =~= old(out)@ + decimal(n as nat));
    }
}

/// The request that carries `body` to the resolver named `host`: a POST to
/// `/dns-query` whose headers name the host, the media type and the length
/// of the body, then an empty line and the body.
pub open spec fn request_octets(host: Seq<u8>, body: Seq<u8>) -> Seq<u8> {
    "POST /dns-query HTTP/1.1\r\n".spec_bytes() + "Host: ".spec_bytes() + host
        + "\r\n".spec_bytes() + "Content-Type: application/dns-message\r\n".spec_bytes()
        + "Content-Length: ".spec_bytes() + decimal(body.len()) + "\r\n".spec_bytes()
        + "\r\n".spec_bytes() + body
}

/// Builds the HTTP request that carries `message` to the resolver `hostname`.
pub fn doh_request(hostname: &str, message: &Message) -> (out: Vec<u8>)
    ensures
        out@ == request_octets(hostname.spec_bytes(), message@),
{
    let body = message.as_octets();
    let mut out: Vec<u8> = Vec::new();
    push_all(&mut out, "POST /dns-query HTTP/1.1\r\n".as_bytes());
    push_all(&mut out, "Host: ".as_bytes());
    push_all(&mut out, hostname.as_bytes());
    push_all(&mut out, "\r\n".as_bytes());
    push_all(&mut out, "Content-Type: application/dns-message\r\n".as_bytes());
    push_all(&mut out, "Content-Length: ".as_bytes());
    push_decimal(&mut out, body.len());
    push_all(&mut out, "\r\n".as_bytes());
    push_all(&mut out, "\r\n".as_bytes());
    push_all(&mut out, body.as_slice());
    out
}

/// The status line of a reply that is accepted.
pub open spec fn status_ok() -> Seq<u8> {
    "HTTP/1.1 200 OK".spec_bytes()
}

/// The label of the header that gives the length of the body.
pub open spec fn length_label() -> Seq<u8> {
    "Content-Length:".spec_bytes()
}

/// Whether `needle` stands in `hay` at index `i`.
pub open spec fn occurs_at(hay: Seq<u8>, needle: Seq<u8>, i: int) -> bool {
    0 <= i && i + needle.len() <= hay.len() && hay.subrange(i, i + needle.len()) == needle
}

/// The least index at or after `from` where `needle` stands in `hay`, or the
/// length of `hay` where there is none.
pub open spec fn first_occurrence(hay: Seq<u8>, needle: Seq<u8>, from: int) -> int
    decreases hay.len() - from,
{
    if from < 0 || from >= hay.len() || from + needle.len() > hay.len() {
        hay.len() as int
    } else if occurs_at(hay, needle, from) {
        from
    } else {
        first_occurrence(hay, needle, from + 1)
    }
}

/// Whether `needle` stands in `hay` at index `i`.
pub fn matches_at(hay: &[u8], needle: &[u8], i: usize) -> (r: bool)
    ensures
        r == occurs_at(hay@, needle@, i as int),
{
    if needle.len() > hay.len() || i > hay.len() - needle.len() {
        return false;
    }
    let mut k: usize = 0;
    while k < needle.len()
        invariant
            k <= needle.len(),
            i + needle.len() <= hay.len(),
            forall|j: int| 0 <= j < k ==> hay@[i + j] == needle@[j],
        decreases needle.len() - k,
    {
        if hay[i + k] != needle[k] {
            assert(hay@.subrange(i as int, i + needle@.len())[k as int] == hay@[i + k]);
            return false;
        }
        k = k + 1;
    }
    assert(hay@.subrange(i as int, i + needle@.len()) =~= needle@);
    true
}

/// Finds where `needle` first stands in `hay`.
pub fn find(hay: &[u8], needle: &[u8]) -> (r: Option<usize>)
    ensures
        r matches Some(i) ==> i as int == first_occurrence(hay@, needle@, 0),
        r matches Some(i) ==> occurs_at(hay@, needle@, i as int),
        r is None ==> first_occurrence(hay@, needle@, 0) == hay@.len(),
        r is None ==> forall|i: int| 0 <= i < hay@.len() ==> !occurs_at(hay@, needle@, i),
        r matches Some(i) ==> forall|j: int| 0 <= j < i ==> !occurs_at(hay@, needle@, j),
{
    if needle.len() > hay.len() {
        return None;
    }
    let last: usize = hay.len() - needle.len();
    let mut i: usize = 0;
    while i < hay.len() && i <= last
        invariant
            last == hay.len() - needle.len(),
            first_occurrence(hay@, needle@, 0) == first_occurrence(hay@, needle@, i as int),
            forall|j: int| 0 <= j < i ==> !occurs_at(hay@, needle@, j),
        decreases hay.len() - i,
    {
        if matches_at(hay, needle, i) {
            return Some(i);
        }
        i = i + 1;
    }
    None
}

/// Index of the first carriage return of `s` at or after `from`, or the
/// length of `s` where there is none.
pub open spec fn line_end(s: Seq<u8>, from: int) -> int
    decreases s.len() - from,
{
    if from < 0 || from >= s.len() {
        s.len() as int
    } else if s[from] == 13 {
        from
    } else {
        line_end(s, from + 1)
    }
}

/// ASCII white space: the space, and the controls from tab to carriage return.
pub open spec fn is_space(b: u8) -> bool {
    b == 32 || (9 <= b && b <= 13)
}

/// The least index in `from..to` whose octet is no white space, or `to`.
pub open spec fn skip_spaces(s: Seq<u8>, from: int, to: int) -> int
    decreases to - from,
{
    if from >= to {
        to
    } else if is_space(s[from]) {
        skip_spaces(s, from + 1, to)
    } else {
        from
    }
}

/// The least index `e` in `from..=to` such that `e..to` is all white space.
pub open spec fn drop_spaces(s: Seq<u8>, from: int, to: int) -> int
    decreases to - from,
{
    if to <= from {
        from
    } else if is_space(s[to - 1]) {
        drop_spaces(s, from, to - 1)
    } else {
        to
    }
}

/// Whether every octet of `s` in `from..to` is an ASCII digit.
pub open spec fn all_digits(s: Seq<u8>, from: int, to: int) -> bool {
    forall|i: int| from <= i < to ==> 48 <= #[trigger] s[i] <= 57
}

/// The number that the decimal digits of `s` in `from..to` spell.
pub open spec fn digits_value(s: Seq<u8>, from: int, to: int) -> nat
    decreases to - from,
{
    if to <= from {
        0
    } else {
        (digits_value(s, from, to - 1) * 10 + (s[to - 1] - 48)) as nat
    }
}

/// The number that `s` spells in `from..to`: white space around it is
/// passed over, one plus sign may lead, and at least one digit must follow.
pub open spec fn field_value(s: Seq<u8>, from: int, to: int) -> Option<nat> {
    let a = skip_spaces(s, from, to);
    let b = drop_spaces(s, a, to);
    let d = if a < b && s[a] == 43 {
        a + 1
    } else {
        a
    };
    if d < b && all_digits(s, d, b) {
        Some(digits_value(s, d, b))
    } else {
        None
    }
}

/// The last `n` octets of `packet`, or all of it where it holds fewer.
pub open spec fn tail(packet: Seq<u8>, n: nat) -> Seq<u8> {
    if n >= packet.len() {
        packet
    } else {
        packet.subrange(packet.len() - n, packet.len() as int)
    }
}

/// The DNS message that an HTTP reply carries. The reply must start with the
/// status line `HTTP/1.1 200 OK`; the first `Content-Length:` in it gives,
/// up to the end of its line, the length of the body; the body is that many
/// octets taken from the end of the reply.
pub open spec fn response_body(packet: Seq<u8>) -> Result<Seq<u8>, DohError> {
    if !occurs_at(packet, status_ok(), 0) {
        Err(DohError::Status)
    } else {
        let at = first_occurrence(packet, length_label(), 0);
        if at >= packet.len() {
            Err(DohError::MissingLength)
        } else {
            let from = at + length_label().len();
            match field_value(packet, from, line_end(packet, from)) {
                Some(n) => if n <= usize::MAX {
                    Ok(tail(packet, n))
                } else {
                    Err(DohError::BadLength)
                },
                None => Err(DohError::BadLength),
            }
        }
    }
}

/// A longer run of digits spells no smaller number.
pub proof fn lemma_digits_value_grows(s: Seq<u8>, from: int, mid: int, to: int)
    requires
        from <= mid <= to,
        all_digits(s, from, to),
    ensures
        digits_value(s, from, mid) <= digits_value(s, from, to),
    decreases to - mid,
{
    if mid < to {
        lemma_digits_value_grows(s, from, mid, to - 1);
        assert(48 <= s[to - 1] <= 57);
    }
}

/// Reads the number that `s` spells in `from..to`.
pub fn parse_length(s: &[u8], from: usize, to: usize) -> (r: Option<usize>)
    requires
        from <= to <= s@.len(),
    ensures
        r matches Some(n) ==> field_value(s@, from as int, to as int) == Some(n as nat),
        r is None ==> match field_value(s@, from as int, to as int) {
            Some(n) => n > usize::MAX,
            None => true,
        },
{
    let mut a: usize = from;
    while a < to && (s[a] == 32 || (9 <= s[a] && s[a] <= 13))
        invariant
            from <= a <= to <= s@.len(),
            skip_spaces(s@, from as int, to as int) == skip_spaces(s@, a as int, to as int),
        decreases to - a,
    {
        a = a + 1;
    }
    let mut b: usize = to;
    while a < b && (s[b - 1] == 32 || (9 <= s[b - 1] && s[b - 1] <= 13))
        invariant
            a <= b <= to <= s@.len(),
            drop_spaces(s@, a as int, to as int) == drop_spaces(s@, a as int, b as int),
        decreases b - a,
    {
        b = b - 1;
    }
    let d: usize = if a < b && s[a] == 43 {
        a + 1
    } else {
        a
    };
    assert(skip_spaces(s@, from as int, to as int) == a);
    assert(drop_spaces(s@, a as int, to as int) == b);
    if d >= b {
        return None;
    }
    let mut acc: usize = 0;
    let mut i: usize = d;
    while i < b
        invariant
            d <= i <= b <= s@.len(),
            skip_spaces(s@, from as int, to as int) == a,
            drop_spaces(s@, a as int, to as int) == b,
            d == if a < b && s@[a as int] == 43 {
                a + 1
            } else {
                a as int
            },
            all_digits(s@, d as int, i as int),
            acc as nat == digits_value(s@, d as int, i as int),
        decreases b - i,
    {
        let c: u8 = s[i];
        if c < 48 || c > 57 {
            assert(!all_digits(s@, d as int, b as int)) by {
                assert(!(48 <= s@[i as int] <= 57));
            }
            return None;
        }
        let digit: usize = (c - 48) as usize;
        if acc > (usize::MAX - digit) / 10 {
            proof {
                assert(digits_value(s@, d as int, i + 1) == acc * 10 + digit);
                assert(acc * 10 + digit > usize::MAX);
                if all_digits(s@, d as int, b as int) {
                    lemma_digits_value_grows(s@, d as int, i + 1, b as int);
                }
            }
            return None;
        }
        acc = acc * 10 + digit;
        i = i + 1;
    }
    Some(acc)
}

/// Takes the DNS message out of an HTTP reply.
pub fn doh_response_body(packet: &[u8]) -> (r: Result<Vec<u8>, DohError>)
    ensures
        match r {
            Ok(body) => response_body(packet@) == Ok::<Seq<u8>, DohError>(body@),
            Err(e) => response_body(packet@) == Err::<Seq<u8>, DohError>(e),
        },
{
    let status = "HTTP/1.1 200 OK".as_bytes();
    let label = "Content-Length:".as_bytes();
    proof {
        reveal_strlit("Content-Length:");
        assert(is_ascii("Content-Length:"));
        assert(label@.len() == 15);
    }
    if !matches_at(packet, status, 0) {
        return Err(DohError::Status);
    }
    let found = find(packet, label);
    if found.is_none() {
        return Err(DohError::MissingLength);
    }
    let at: usize = found.unwrap();
    assert(occurs_at(packet@, label@, at as int));
    assert(at + label@.len() <= packet.len());
    let from: usize = at + label.len();
    let mut end: usize = from;
    while end < packet.len() && packet[end] != 13
        invariant
            from <= end <= packet@.len(),
            line_end(packet@, from as int) == line_end(packet@, end as int),
        decreases packet.len() - end,
    {
        end = end + 1;
    }
    let n: usize = match parse_length(packet, from, end) {
        Some(n) => n,
        None => {
            return Err(DohError::BadLength);
        },
    };
    let start: usize = if n >= packet.len() {
        0
    } else {
        packet.len() - n
    };
    let mut body: Vec<u8> = Vec::new();
    let mut i: usize = start;
    while i < packet.len()
        invariant
            start <= i <= packet@.len(),
            body@ == packet@.subrange(start as int, i as int),
        decreases packet.len() - i,
    {
        body.push(packet[i]);
        i = i + 1;
        assert(body@ =~= packet@.subrange(start as int, i as int));
    }
    assert(body@ =~= tail(packet@, n as nat));
    Ok(body)
}

} // verus!
