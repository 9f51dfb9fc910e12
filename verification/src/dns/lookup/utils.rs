use crate::dns::message::{be16, push_all, Header, Message};
use crate::dns::wire::{
    count_additionals, count_answers, count_authorities, read_answers, read_dnssec_ok,
    record_views, wire_additional_count, wire_answer_count, wire_answers,
    wire_authority_count, wire_dnssec_ok, Record, RecordView, RTYPE_A,
};
use crate::router::geoip::{is_domestic, is_domestic_code};
use vstd::prelude::*;

verus! {

/// How an answer was obtained.
#[derive(Clone, Copy, Debug, PartialEq, Eq, Structural)]
pub enum QueryType {
    UDP,
    TCP,
    DoT,
    DoH,
    Custom,
    Cache,
}

/// An answer together with the way it was obtained.
pub enum QueryResponse {
    UDP(Message),
    TCP(Message),
    DoT(Message),
    DoH(Message),
    Custom(Message),
    Cache(Message),
}

impl QueryResponse {
    /// The way the answer was obtained.
    pub open spec fn kind(self) -> QueryType {
        match self {
            QueryResponse::UDP(_) => QueryType::UDP,
            QueryResponse::TCP(_) => QueryType::TCP,
            QueryResponse::DoT(_) => QueryType::DoT,
            QueryResponse::DoH(_) => QueryType::DoH,
            QueryResponse::Custom(_) => QueryType::Custom,
            QueryResponse::Cache(_) => QueryType::Cache,
        }
    }

    /// The answer itself.
    pub open spec fn message(self) -> Message {
        match self {
            QueryResponse::UDP(m) => m,
            QueryResponse::TCP(m) => m,
            QueryResponse::DoT(m) => m,
            QueryResponse::DoH(m) => m,
            QueryResponse::Custom(m) => m,
            QueryResponse::Cache(m) => m,
        }
    }

    /// Tags a message with the way it was obtained.
    pub fn new(kind: QueryType, message: Message) -> (r: QueryResponse)
        ensures
            r.kind() == kind,
            r.message() == message,
    {
        match kind {
            QueryType::UDP => QueryResponse::UDP(message),
            QueryType::TCP => QueryResponse::TCP(message),
            QueryType::DoT => QueryResponse::DoT(message),
            QueryType::DoH => QueryResponse::DoH(message),
            QueryType::Custom => QueryResponse::Custom(message),
            QueryType::Cache => QueryResponse::Cache(message),
        }
    }
}

/// A message as it travels on a stream: its length in two octets, most
/// significant first, then the message.
pub open spec fn wrapped(message: Seq<u8>) -> Seq<u8> {
    seq![(message.len() / 256 % 256) as u8, (message.len() % 256) as u8] + message
}

/// What follows the two-octet length prefix of a framed message.
pub open spec fn unwrapped(packet: Seq<u8>) -> Seq<u8>
    recommends
        packet.len() >= 2,
{
    packet.subrange(2, packet.len() as int)
}

/// Frames a message for a stream transport.
pub fn get_wrapped_packet(message: &Message) -> (packet: Vec<u8>)
    ensures
        packet@ == wrapped(message@),
{
    let buf = message.as_octets();
    let len: usize = buf.len();
    let mut packet: Vec<u8> = Vec::with_capacity(2);
    packet.push((len / 256 % 256) as u8);
    packet.push((len % 256) as u8);
    push_all(&mut packet, buf.as_slice());
    assert(packet@ =~= wrapped(message@));
    packet
}

/// Strips the length prefix from what a stream transport delivered. Nothing
/// is returned when the packet is too short to hold the prefix.
pub fn get_unwrapped_packet(packet: &[u8]) -> (body: Option<Vec<u8>>)
    ensures
        body is Some <==> packet@.len() >= 2,
        body matches Some(b) ==> b@ == unwrapped(packet@),
{
    if packet.len() < 2 {
        return None;
    }
    let mut body: Vec<u8> = Vec::new();
    let mut i: usize = 2;
    while i < packet.len()
        invariant
            2 <= i <= packet.len(),
            body@ == packet@.subrange(2, i as int),
        decreases packet.len() - i,
    {
        body.push(packet[i]);
        i = i + 1;
        assert(body@ =~= packet@.subrange(2, i as int));
    }
    Some(body)
}

/// Framing then unframing gives the message back, whatever its length.
pub proof fn lemma_unwrap_wrap(message: Seq<u8>)
    ensures
        wrapped(message).len() == message.len() + 2,
        unwrapped(wrapped(message)) == message,
{
    assert(unwrapped(wrapped(message)) =~= message);
}

/// The prefix of a framed message spells the message's length, as long as
/// that length fits in sixteen bits.
pub proof fn lemma_wrap_prefix(message: Seq<u8>)
    requires
        message.len() <= 0xffff,
    ensures
        be16(wrapped(message)[0], wrapped(message)[1]) == message.len(),
{
}

/// Splits an answer from the way it was obtained.
pub fn get_message_from_response(response: QueryResponse) -> (r: (Message, QueryType))
    ensures
        r.0 == response.message(),
        r.1 == response.kind(),
{
    match response {
        QueryResponse::UDP(message) => (message, QueryType::UDP),
        QueryResponse::TCP(message) => (message, QueryType::TCP),
        QueryResponse::DoT(message) => (message, QueryType::DoT),
        QueryResponse::DoH(message) => (message, QueryType::DoH),
        QueryResponse::Custom(message) => (message, QueryType::Custom),
        QueryResponse::Cache(message) => (message, QueryType::Cache),
    }
}

/// Borrows an answer and tells the way it was obtained.
pub fn get_message_from_response_ref(response: &QueryResponse) -> (r: (&Message, QueryType))
    ensures
        *r.0 == response.message(),
        r.1 == response.kind(),
{
    match response {
        QueryResponse::UDP(message) => (message, QueryType::UDP),
        QueryResponse::TCP(message) => (message, QueryType::TCP),
        QueryResponse::DoT(message) => (message, QueryType::DoT),
        QueryResponse::DoH(message) => (message, QueryType::DoH),
        QueryResponse::Custom(message) => (message, QueryType::Custom),
        QueryResponse::Cache(message) => (message, QueryType::Cache),
    }
}

/// Whether a section could be reached and holds an item.
pub open spec fn non_empty(count: Option<nat>) -> bool {
    count matches Some(n) && n != 0
}

/// Whether a reply that came over a stream is accepted: it reports an
/// error, or it holds an additional record and an answer or an authority
/// record.
pub open spec fn valid_stream(
    is_error: bool,
    additional: Option<nat>,
    answer: Option<nat>,
    authority: Option<nat>,
) -> bool {
    is_error || (non_empty(additional) && (non_empty(answer) || non_empty(authority)))
}

/// Whether a reply that came as a datagram is accepted: as over a stream,
/// but a reply without error must also carry an OPT record with DNSSEC-OK
/// set.
pub open spec fn valid_udp(
    is_error: bool,
    additional: Option<nat>,
    answer: Option<nat>,
    authority: Option<nat>,
    dnssec_ok: Option<bool>,
) -> bool {
    is_error || (non_empty(additional) && (non_empty(answer) || non_empty(authority))
        && dnssec_ok == Some(true))
}

/// A count as a natural number.
pub open spec fn count_view(count: Option<usize>) -> Option<nat> {
    match count {
        Some(n) => Some(n as nat),
        None => None,
    }
}

/// Decides on a reply that came over a stream from what was read of it.
pub fn valid_stream_response(
    is_error: bool,
    additional: Option<usize>,
    answer: Option<usize>,
    authority: Option<usize>,
) -> (r: bool)
    ensures
        r == valid_stream(
            is_error,
            count_view(additional),
            count_view(answer),
            count_view(authority),
        ),
{
    if is_error {
        return true;
    }
    let has_additional = match additional {
        Some(n) => n != 0,
        None => false,
    };
    let has_answer = match answer {
        Some(n) => n != 0,
        None => false,
    };
    let has_authority = match authority {
        Some(n) => n != 0,
        None => false,
    };
    has_additional && (has_answer || has_authority)
}

/// Decides on a reply that came as a datagram from what was read of it.
pub fn valid_udp_response(
    is_error: bool,
    additional: Option<usize>,
    answer: Option<usize>,
    authority: Option<usize>,
    dnssec_ok: Option<bool>,
) -> (r: bool)
    ensures
        r == valid_udp(
            is_error,
            count_view(additional),
            count_view(answer),
            count_view(authority),
            dnssec_ok,
        ),
{
    if is_error {
        return true;
    }
    let set = match dnssec_ok {
        Some(flag) => flag,
        None => false,
    };
    set && valid_stream_response(is_error, additional, answer, authority)
}

/// Whether a reply that came as a datagram is accepted.
pub fn is_valid_response_udp(message: &Message) -> (r: bool)
    ensures
        r == valid_udp(
            Header::of(message@).rcode != 0,
            wire_additional_count(message@),
            wire_answer_count(message@),
            wire_authority_count(message@),
            wire_dnssec_ok(message@),
        ),
{
    let octets = message.as_octets().as_slice();
    valid_udp_response(
        message.is_error(),
        count_additionals(octets),
        count_answers(octets),
        count_authorities(octets),
        read_dnssec_ok(octets),
    )
}

/// Whether a reply that came over a stream is accepted.
pub fn is_valid_response(message: &Message) -> (r: bool)
    ensures
        r == valid_stream(
            Header::of(message@).rcode != 0,
            wire_additional_count(message@),
            wire_answer_count(message@),
            wire_authority_count(message@),
        ),
{
    let octets = message.as_octets().as_slice();
    valid_stream_response(
        message.is_error(),
        count_additionals(octets),
        count_answers(octets),
        count_authorities(octets),
    )
}

/// A datagram that reports no error and carries no OPT record with
/// DNSSEC-OK set is never accepted, whatever else it holds.
pub proof fn lemma_udp_needs_dnssec_ok(
    additional: Option<nat>,
    answer: Option<nat>,
    authority: Option<nat>,
    dnssec_ok: Option<bool>,
)
    requires
        dnssec_ok != Some(true),
    ensures
        !valid_udp(false, additional, answer, authority, dnssec_ok),
{
}

/// What a datagram must hold is what a stream reply must hold, and more.
pub proof fn lemma_udp_is_stricter(
    is_error: bool,
    additional: Option<nat>,
    answer: Option<nat>,
    authority: Option<nat>,
    dnssec_ok: Option<bool>,
)
    requires
        valid_udp(is_error, additional, answer, authority, dnssec_ok),
    ensures
        valid_stream(is_error, additional, answer, authority),
{
}

/// The addresses that decide on the side of a reply: one entry for each
/// IPv4 address record among the items that parsed, in their order; the
/// four octets of the address, or nothing where the data of the record is
/// no IPv4 address.
pub open spec fn addresses_of(items: Seq<Option<RecordView>>) -> Seq<Option<Seq<u8>>>
    decreases items.len(),
{
    if items.len() == 0 {
        Seq::<Option<Seq<u8>>>::empty()
    } else {
        let rest = addresses_of(items.drop_last());
        match items.last() {
            Some(r) => if r.rtype != RTYPE_A {
                rest
            } else if r.rdata.len() == 4 {
                rest.push(Some(r.rdata))
            } else {
                rest.push(None)
            },
            None => rest,
        }
    }
}

/// The addresses of a list, each as a sequence of octets.
pub open spec fn address_views(addresses: Seq<Option<[u8; 4]>>) -> Seq<Option<Seq<u8>>> {
    addresses.map_values(
        |a: Option<[u8; 4]>|
            match a {
                Some(octets) => Some(octets@),
                None => None,
            },
    )
}

/// The addresses that decide on the side of a message: those of its
/// answers, none where the answer section cannot be reached.
pub open spec fn message_addresses(octets: Seq<u8>) -> Seq<Option<Seq<u8>>> {
    match wire_answers(octets) {
        Some(items) => addresses_of(items),
        None => Seq::<Option<Seq<u8>>>::empty(),
    }
}

/// Lists the addresses that decide on the side of the items that were read.
pub fn list_addresses(items: &Vec<Option<Record>>) -> (r: Vec<Option<[u8; 4]>>)
    ensures
        address_views(r@) == addresses_of(record_views(items@)),
{
    let ghost views = record_views(items@);
    let mut out: Vec<Option<[u8; 4]>> = Vec::new();
    let mut i: usize = 0;
    assert(views.subrange(0, 0) =~= Seq::<Option<RecordView>>::empty());
    assert(address_views(out@) =~= Seq::<Option<Seq<u8>>>::empty());
    while i < items.len()
        invariant
            i <= items.len(),
            views == record_views(items@),
            views.len() == items@.len(),
            address_views(out@) == addresses_of(views.subrange(0, i as int)),
        decreases items.len() - i,
    {
        let ghost before = out@;
        proof {
            let prefix = views.subrange(0, i + 1);
            assert(prefix.drop_last() =~= views.subrange(0, i as int));
            assert(prefix.last() == views[i as int]);
        }
        match &items[i] {
            Some(r) => {
                if r.rtype == RTYPE_A {
                    if r.rdata.len() == 4 {
                        let ip: [u8; 4] = [r.rdata[0], r.rdata[1], r.rdata[2], r.rdata[3]];
                        assert(ip@ =~= r.rdata@);
                        out.push(Some(ip));
                        assert(address_views(out@) =~= address_views(before).push(Some(r.rdata@)));
                    } else {
                        out.push(None);
                        assert(address_views(out@) =~= address_views(before).push(None));
                    }
                }
            },
            None => {},
        }
        i = i + 1;
    }
    assert(views.subrange(0, i as int) =~= views);
    out
}

/// Lists the addresses that decide on the side of a message, for the
/// geolocation database to be asked about each.
pub fn answer_addresses(message: &Message) -> (r: Vec<Option<[u8; 4]>>)
    ensures
        address_views(r@) == message_addresses(message@),
{
    match read_answers(message.as_octets().as_slice()) {
        Some(items) => list_addresses(&items),
        None => {
            let none: Vec<Option<[u8; 4]>> = Vec::new();
            assert(address_views(none@) =~= Seq::<Option<Seq<u8>>>::empty());
            none
        },
    }
}

/// Country codes as plain values.
pub open spec fn code_views(codes: Seq<Option<String>>) -> Seq<Option<Seq<char>>> {
    codes.map_values(
        |c: Option<String>|
            match c {
                Some(code) => Some(code@),
                None => None,
            },
    )
}

/// Whether the country codes of the addresses of a reply place it on the
/// domestic side. The entries are gone through in order. The first address
/// in the domestic country decides for the domestic side; an entry without
/// a code, which stands for a record whose data is no address, decides
/// against it at once.
pub open spec fn domestic_codes(codes: Seq<Option<Seq<char>>>) -> bool
    decreases codes.len(),
{
    if codes.len() == 0 {
        false
    } else {
        match codes.first() {
            Some(code) => if is_domestic_code(code) {
                true
            } else {
                domestic_codes(codes.drop_first())
            },
            None => false,
        }
    }
}

/// Decides on the side of a reply from the country codes of its addresses.
pub fn classify_answers(codes: &Vec<Option<String>>) -> (r: bool)
    ensures
        r == domestic_codes(code_views(codes@)),
{
    let ghost views = code_views(codes@);
    let mut i: usize = 0;
    assert(views.subrange(0, views.len() as int) =~= views);
    while i < codes.len()
        invariant
            i <= codes.len(),
            views == code_views(codes@),
            views.len() == codes@.len(),
            domestic_codes(views) == domestic_codes(views.subrange(i as int, views.len() as int)),
        decreases codes.len() - i,
    {
        proof {
            let rest = views.subrange(i as int, views.len() as int);
            assert(rest.first() == views[i as int]);
            assert(rest.drop_first() =~= views.subrange(i + 1, views.len() as int));
        }
        match &codes[i] {
            Some(code) => {
                if is_domestic(code.as_str()) {
                    return true;
                }
            },
            None => {
                return false;
            },
        }
        i = i + 1;
    }
    false
}

/// Whether a message is on the domestic side, given the country codes of
/// its addresses: there must be one entry for each address that
/// `answer_addresses` lists, and the codes must decide for the domestic
/// side.
pub open spec fn china_site(octets: Seq<u8>, codes: Seq<Option<Seq<char>>>) -> bool {
    codes.len() == message_addresses(octets).len() && domestic_codes(codes)
}

/// Whether the answers of a reply place it on the domestic side, given the
/// country codes of the addresses that `answer_addresses` lists for it.
pub fn is_china_site(message: &Message, codes: &Vec<Option<String>>) -> (r: bool)
    ensures
        r == china_site(message@, code_views(codes@)),
{
    let addresses = answer_addresses(message);
    assert(address_views(addresses@).len() == addresses@.len());
    assert(code_views(codes@).len() == codes@.len());
    codes.len() == addresses.len() && classify_answers(codes)
}

} // verus!
