pub mod utils;

use crate::dns::doh::{doh_request, doh_response_body, request_octets, response_body, DohError};
use crate::dns::lookup::utils::{
    china_site, code_views, get_unwrapped_packet, get_wrapped_packet, is_china_site,
    is_valid_response, is_valid_response_udp, unwrapped, valid_stream, valid_udp, wrapped,
    QueryResponse, QueryType,
};
use crate::dns::message::{push_all, Header, Message, HEADER_LEN};
use crate::dns::settings::DNSServerUpstream;
use crate::dns::wire::{
    ip_literal, parse_ip, wire_additional_count, wire_answer_count, wire_authority_count,
    wire_dnssec_ok,
};
use crate::text::{decimal_text, push_decimal_text};
use vstd::prelude::*;
use vstd::string::*;

verus! {

/// Milliseconds a pool of upstream queries is given to produce an answer.
pub const POOL_TIMEOUT_MS: u64 = 5000;

/// Why a transport produced no answer from what it received.
#[derive(Clone, Copy, Debug, PartialEq, Eq, Structural)]
pub enum LookupError {
    /// What arrived is too short to hold a framed message.
    Short,
    /// The HTTP reply was turned down.
    Http(DohError),
    /// The message that arrived is not accepted as a reply.
    Invalid,
    /// The kind of query names no transport.
    NotATransport,
    /// The upstream could not be reached, or its time ran out.
    Transport,
}

/// The port on which an upstream is asked over a transport.
pub open spec fn port_of(t: QueryType) -> Option<u16> {
    match t {
        QueryType::UDP => Some(53u16),
        QueryType::TCP => Some(53u16),
        QueryType::DoT => Some(853u16),
        QueryType::DoH => Some(443u16),
        _ => None,
    }
}

/// Milliseconds a transport is given to deliver its reply.
pub open spec fn timeout_of(t: QueryType) -> Option<u64> {
    match t {
        QueryType::UDP => Some(2000u64),
        QueryType::TCP => Some(2000u64),
        QueryType::DoT => Some(1000u64),
        QueryType::DoH => Some(1000u64),
        _ => None,
    }
}

/// The port on which an upstream is asked over a transport.
pub fn transport_port(t: QueryType) -> (r: Option<u16>)
    ensures
        r == port_of(t),
{
    match t {
        QueryType::UDP => Some(53),
        QueryType::TCP => Some(53),
        QueryType::DoT => Some(853),
        QueryType::DoH => Some(443),
        _ => None,
    }
}

/// Milliseconds a transport is given to deliver its reply.
pub fn transport_timeout_ms(t: QueryType) -> (r: Option<u64>)
    ensures
        r == timeout_of(t),
{
    match t {
        QueryType::UDP => Some(2000),
        QueryType::TCP => Some(2000),
        QueryType::DoT => Some(1000),
        QueryType::DoH => Some(1000),
        _ => None,
    }
}

/// What is written to a transport to ask `message` of the upstream named
/// `host`: the message itself as a datagram, the message behind its length
/// on a stream, the message in an HTTP request over HTTPS.
pub open spec fn payload_of(t: QueryType, message: Seq<u8>, host: Seq<u8>) -> Option<Seq<u8>> {
    match t {
        QueryType::UDP => Some(message),
        QueryType::TCP => Some(wrapped(message)),
        QueryType::DoT => Some(wrapped(message)),
        QueryType::DoH => Some(request_octets(host, message)),
        _ => None,
    }
}

/// Builds what is written to a transport to ask `message` of `upstream`.
pub fn lookup_payload(t: QueryType, message: &Message, upstream: &DNSServerUpstream) -> (r: Option<
    Vec<u8>,
>)
    ensures
        match r {
            Some(v) => payload_of(t, message@, vstd::utf8::encode_utf8(upstream.hostname@)) == Some(
                v@,
            ),
            None => payload_of(t, message@, vstd::utf8::encode_utf8(upstream.hostname@)).is_none(),
        },
{
    match t {
        QueryType::UDP => {
            let mut out: Vec<u8> = Vec::new();
            push_all(&mut out, message.as_octets().as_slice());
            assert(out@ =~= message@);
            Some(out)
        },
        QueryType::TCP => Some(get_wrapped_packet(message)),
        QueryType::DoT => Some(get_wrapped_packet(message)),
        QueryType::DoH => Some(doh_request(upstream.hostname.as_str(), message)),
        _ => None,
    }
}

/// The message inside what a transport received.
pub open spec fn reply_body(t: QueryType, reply: Seq<u8>) -> Result<Seq<u8>, LookupError> {
    match t {
        QueryType::UDP => Ok(reply),
        QueryType::TCP | QueryType::DoT => if reply.len() < 2 {
            Err(LookupError::Short)
        } else {
            Ok(unwrapped(reply))
        },
        QueryType::DoH => match response_body(reply) {
            Ok(body) => Ok(body),
            Err(e) => Err(LookupError::Http(e)),
        },
        _ => Err(LookupError::NotATransport),
    }
}

/// Whether a message that arrived over a transport is accepted as a reply:
/// a datagram by the strict rule, anything else by the rule for streams.
pub open spec fn reply_valid(t: QueryType, body: Seq<u8>) -> bool {
    if t == QueryType::UDP {
        valid_udp(
            Header::of(body).rcode != 0,
            wire_additional_count(body),
            wire_answer_count(body),
            wire_authority_count(body),
            wire_dnssec_ok(body),
        )
    } else {
        valid_stream(
            Header::of(body).rcode != 0,
            wire_additional_count(body),
            wire_answer_count(body),
            wire_authority_count(body),
        )
    }
}

/// The answer that a transport has from what it received: the message
/// inside, where it holds a header and is accepted as a reply.
pub open spec fn lookup_result(t: QueryType, reply: Seq<u8>) -> Result<Seq<u8>, LookupError> {
    match reply_body(t, reply) {
        Err(e) => Err(e),
        Ok(body) => if body.len() < HEADER_LEN {
            Err(LookupError::Short)
        } else if reply_valid(t, body) {
            Ok(body)
        } else {
            Err(LookupError::Invalid)
        },
    }
}

/// Whether what a transport returned is what `lookup_result` gives.
pub open spec fn is_lookup_result(
    t: QueryType,
    reply: Seq<u8>,
    r: Result<QueryResponse, LookupError>,
) -> bool {
    match r {
        Ok(response) => lookup_result(t, reply) == Ok::<Seq<u8>, LookupError>(
            response.message()@,
        ) && response.kind() == t,
        Err(e) => lookup_result(t, reply) == Err::<Seq<u8>, LookupError>(e),
    }
}

/// Judges a datagram that came back from an upstream.
pub fn lookup_udp(reply: Vec<u8>) -> (r: Result<QueryResponse, LookupError>)
    ensures
        is_lookup_result(QueryType::UDP, reply@, r),
{
    match Message::from_octets(reply) {
        None => Err(LookupError::Short),
        Some(message) => {
            if is_valid_response_udp(&message) {
                Ok(QueryResponse::UDP(message))
            } else {
                Err(LookupError::Invalid)
            }
        },
    }
}

/// What a transport does with a datagram that came back.
pub enum UdpStep {
    /// The datagram is the answer.
    Accept(QueryResponse),
    /// The datagram is discarded; the transport goes on receiving until
    /// its time is up.
    KeepReceiving,
}

/// Decides on a datagram that came back from an upstream: it is the answer
/// exactly where it is accepted as a reply; anything else is discarded.
pub fn udp_step(reply: Vec<u8>) -> (r: UdpStep)
    ensures
        match r {
            UdpStep::Accept(response) => lookup_result(QueryType::UDP, reply@) == Ok::<
                Seq<u8>,
                LookupError,
            >(response.message()@) && response.kind() == QueryType::UDP,
            UdpStep::KeepReceiving => lookup_result(QueryType::UDP, reply@) is Err,
        },
{
    match lookup_udp(reply) {
        Ok(response) => UdpStep::Accept(response),
        Err(_) => UdpStep::KeepReceiving,
    }
}

/// Judges the message inside what a stream delivered.
fn judge_stream(t: QueryType, body: Vec<u8>) -> (r: Result<QueryResponse, LookupError>)
    requires
        t != QueryType::UDP,
    ensures
        match r {
            Ok(response) => body@.len() >= HEADER_LEN && reply_valid(t, body@)
                && response.message()@ == body@ && response.kind() == t,
            Err(e) => if body@.len() < HEADER_LEN {
                e == LookupError::Short
            } else {
                e == LookupError::Invalid && !reply_valid(t, body@)
            },
        },
{
    match Message::from_octets(body) {
        None => Err(LookupError::Short),
        Some(message) => {
            if is_valid_response(&message) {
                Ok(QueryResponse::new(t, message))
            } else {
                Err(LookupError::Invalid)
            }
        },
    }
}

/// Judges what came back from an upstream over TCP.
pub fn lookup_tcp(reply: &[u8]) -> (r: Result<QueryResponse, LookupError>)
    ensures
        is_lookup_result(QueryType::TCP, reply@, r),
{
    match get_unwrapped_packet(reply) {
        None => Err(LookupError::Short),
        Some(body) => judge_stream(QueryType::TCP, body),
    }
}

/// Judges what came back from an upstream over TLS.
pub fn lookup_dot(reply: &[u8]) -> (r: Result<QueryResponse, LookupError>)
    ensures
        is_lookup_result(QueryType::DoT, reply@, r),
{
    match get_unwrapped_packet(reply) {
        None => Err(LookupError::Short),
        Some(body) => judge_stream(QueryType::DoT, body),
    }
}

/// Judges what came back from an upstream over HTTPS.
pub fn lookup_doh(reply: &[u8]) -> (r: Result<QueryResponse, LookupError>)
    ensures
        is_lookup_result(QueryType::DoH, reply@, r),
{
    match doh_response_body(reply) {
        Err(e) => Err(LookupError::Http(e)),
        Ok(body) => judge_stream(QueryType::DoH, body),
    }
}

/// Judges what came back from an upstream over the transport `t`.
pub fn lookup(t: QueryType, reply: Vec<u8>) -> (r: Result<QueryResponse, LookupError>)
    ensures
        is_lookup_result(t, reply@, r),
{
    match t {
        QueryType::UDP => lookup_udp(reply),
        QueryType::TCP => lookup_tcp(reply.as_slice()),
        QueryType::DoT => lookup_dot(reply.as_slice()),
        QueryType::DoH => lookup_doh(reply.as_slice()),
        QueryType::Custom => Err(LookupError::NotATransport),
        QueryType::Cache => Err(LookupError::NotATransport),
    }
}

/// One query of a race: which upstream of the configured list is asked, and
/// over which transport.
#[derive(Clone, Copy, Debug, PartialEq, Eq, Structural)]
pub struct PlannedQuery {
    pub upstream: usize,
    pub transport: QueryType,
}

/// At most one query for an upstream over a transport.
pub open spec fn query_if(enabled: bool, index: usize, t: QueryType) -> Seq<PlannedQuery> {
    if enabled {
        seq![PlannedQuery { upstream: index, transport: t }]
    } else {
        Seq::<PlannedQuery>::empty()
    }
}

/// The queries for one upstream: one for each transport that is enabled,
/// in the order UDP, TCP, DoT, DoH. An upstream with no transport enabled
/// gets none.
pub open spec fn queries_of(u: DNSServerUpstream, index: usize) -> Seq<PlannedQuery> {
    query_if(u.enable_udp, index, QueryType::UDP) + query_if(u.enable_tcp, index, QueryType::TCP)
        + query_if(u.enable_dot, index, QueryType::DoT) + query_if(
        u.enable_doh,
        index,
        QueryType::DoH,
    )
}

/// The pool of queries on one side: the queries of every upstream that
/// belongs to the side, upstreams in the order of the configuration.
pub open spec fn pool(upstreams: Seq<DNSServerUpstream>, domestic: bool) -> Seq<PlannedQuery>
    decreases upstreams.len(),
{
    if upstreams.len() == 0 {
        Seq::<PlannedQuery>::empty()
    } else {
        let rest = pool(upstreams.drop_last(), domestic);
        if upstreams.last().is_china == domestic {
            rest + queries_of(upstreams.last(), (upstreams.len() - 1) as usize)
        } else {
            rest
        }
    }
}

/// Lists the queries of the pool on one side.
pub fn plan_pool(upstreams: &Vec<DNSServerUpstream>, domestic: bool) -> (r: Vec<PlannedQuery>)
    ensures
        r@ == pool(upstreams@, domestic),
        forall|k: int|
            0 <= k < r@.len() ==> (#[trigger] r@[k]).upstream < upstreams@.len()
                && upstreams@[r@[k].upstream as int].is_china == domestic,
{
    let mut out: Vec<PlannedQuery> = Vec::new();
    let mut i: usize = 0;
    assert(upstreams@.subrange(0, 0) =~= Seq::<DNSServerUpstream>::empty());
    while i < upstreams.len()
        invariant
            i <= upstreams.len(),
            out@ == pool(upstreams@.subrange(0, i as int), domestic),
            forall|k: int|
                0 <= k < out@.len() ==> (#[trigger] out@[k]).upstream < i
                    && upstreams@[out@[k].upstream as int].is_china == domestic,
        decreases upstreams.len() - i,
    {
        let u = &upstreams[i];
        let ghost before = out@;
        proof {
            let prefix = upstreams@.subrange(0, i + 1);
            assert(prefix.drop_last() =~= upstreams@.subrange(0, i as int));
            assert(prefix.last() == upstreams@[i as int]);
        }
        if u.is_china == domestic {
            if u.enable_udp {
                out.push(PlannedQuery { upstream: i, transport: QueryType::UDP });
            }
            if u.enable_tcp {
                out.push(PlannedQuery { upstream: i, transport: QueryType::TCP });
            }
            if u.enable_dot {
                out.push(PlannedQuery { upstream: i, transport: QueryType::DoT });
            }
            if u.enable_doh {
                out.push(PlannedQuery { upstream: i, transport: QueryType::DoH });
            }
            assert(out@ =~= before + queries_of(*u, i));
        }
        i = i + 1;
    }
    assert(upstreams@.subrange(0, i as int) =~= upstreams@);
    out
}

/// Which pool a race is waiting for.
#[derive(Clone, Copy, Debug, PartialEq, Eq, Structural)]
pub enum RaceStage {
    /// The domestic pool runs; the foreign pool has not been started.
    Domestic,
    /// The foreign pool runs.
    Foreign,
}

/// What a race does once the pool it waited for is through.
pub enum RaceAction {
    /// The race is won: the answer, and whether it is domestic. Every query
    /// still in flight is cancelled.
    Return(QueryResponse, bool),
    /// Start the foreign pool and wait for it.
    RaceForeign,
    /// Neither pool gave an answer: the race fails.
    TimedOut,
}

/// A race's next step with the answer, if any, as plain values.
pub enum RaceStep {
    Return(Seq<u8>, QueryType, bool),
    RaceForeign,
    TimedOut,
}

impl View for RaceAction {
    type V = RaceStep;

    open spec fn view(&self) -> RaceStep {
        match self {
            RaceAction::Return(response, domestic) => RaceStep::Return(
                response.message()@,
                response.kind(),
                *domestic,
            ),
            RaceAction::RaceForeign => RaceStep::RaceForeign,
            RaceAction::TimedOut => RaceStep::TimedOut,
        }
    }
}

/// The first answer of a pool, if it had one, as plain values.
pub open spec fn outcome_view(outcome: Option<QueryResponse>) -> Option<(Seq<u8>, QueryType)> {
    match outcome {
        Some(response) => Some((response.message()@, response.kind())),
        None => None,
    }
}

/// The next step of a race. `outcome` is the first answer of the pool that
/// was waited for, or nothing where every query of it failed or its time ran
/// out; `domestic` tells whether that answer is classified as domestic. An
/// answer of the domestic pool wins if it is domestic; otherwise it is
/// dropped and the foreign pool runs, as it does when the domestic pool had
/// no answer. An answer of the foreign pool wins as a foreign one.
pub open spec fn race_step(
    stage: RaceStage,
    outcome: Option<(Seq<u8>, QueryType)>,
    domestic: bool,
) -> RaceStep {
    match stage {
        RaceStage::Domestic => match outcome {
            Some((octets, kind)) => if domestic {
                RaceStep::Return(octets, kind, true)
            } else {
                RaceStep::RaceForeign
            },
            None => RaceStep::RaceForeign,
        },
        RaceStage::Foreign => match outcome {
            Some((octets, kind)) => RaceStep::Return(octets, kind, false),
            None => RaceStep::TimedOut,
        },
    }
}

/// Decides the next step of a race once the pool it waited for is through.
/// `codes` are the country codes of the addresses that `answer_addresses`
/// lists for the answer; they are looked at for an answer of the domestic
/// pool only.
pub fn batch_query(stage: RaceStage, outcome: Option<QueryResponse>, codes: &Vec<Option<String>>)
    -> (r: RaceAction)
    ensures
        r@ == race_step(
            stage,
            outcome_view(outcome),
            outcome matches Some(response) && china_site(
                response.message()@,
                code_views(codes@),
            ),
        ),
{
    match stage {
        RaceStage::Domestic => match outcome {
            Some(response) => {
                let (message, _) = crate::dns::lookup::utils::get_message_from_response_ref(
                    &response,
                );
                if is_china_site(message, codes) {
                    RaceAction::Return(response, true)
                } else {
                    RaceAction::RaceForeign
                }
            },
            None => RaceAction::RaceForeign,
        },
        RaceStage::Foreign => match outcome {
            Some(response) => RaceAction::Return(response, false),
            None => RaceAction::TimedOut,
        },
    }
}

/// A domestic answer of the domestic pool ends the race at once, so the
/// foreign pool is never started; and where the domestic pool has no answer,
/// or one that is not domestic, the foreign pool is started.
pub proof fn lemma_foreign_pool_runs_only_after_domestic_fails(
    outcome: Option<(Seq<u8>, QueryType)>,
    domestic: bool,
)
    ensures
        match outcome {
            Some((octets, kind)) => race_step(RaceStage::Domestic, outcome, domestic) == if domestic {
                RaceStep::Return(octets, kind, true)
            } else {
                RaceStep::RaceForeign
            },
            None => race_step(RaceStage::Domestic, outcome, domestic) == RaceStep::RaceForeign,
        },
{
}

/// A race fails only when the foreign pool is through without an answer,
/// and whatever wins in the foreign pool is marked foreign.
pub proof fn lemma_race_fails_only_after_both_pools(
    stage: RaceStage,
    outcome: Option<(Seq<u8>, QueryType)>,
    domestic: bool,
)
    ensures
        race_step(stage, outcome, domestic) == RaceStep::TimedOut <==> (stage
            == RaceStage::Foreign && outcome is None),
        match outcome {
            Some((octets, kind)) => stage == RaceStage::Foreign ==> race_step(
                stage,
                outcome,
                domestic,
            ) == RaceStep::Return(octets, kind, false),
            None => true,
        },
{
}

/// Where an upstream is reached over a transport: its address, which is an
/// IP literal, and the port of the transport; an IPv6 address stands in
/// square brackets.
pub open spec fn endpoint_of(address: Seq<char>, t: QueryType) -> Option<Seq<char>> {
    match (ip_literal(address), port_of(t)) {
        (Some(octets), Some(port)) => Some(
            if octets.len() == 4 {
                address + ":"@ + decimal_text(port as nat)
            } else {
                "["@ + address + "]:"@ + decimal_text(port as nat)
            },
        ),
        _ => None,
    }
}

/// Writes where an upstream is reached over a transport.
pub fn upstream_endpoint(address: &str, t: QueryType) -> (r: Option<String>)
    ensures
        match r {
            Some(text) => endpoint_of(address@, t) == Some(text@),
            None => endpoint_of(address@, t).is_none(),
        },
{
    let octets = match parse_ip(address) {
        Some(octets) => octets,
        None => {
            return None;
        },
    };
    let port = match transport_port(t) {
        Some(port) => port,
        None => {
            return None;
        },
    };
    let mut text = String::new();
    if octets.len() == 4 {
        text.append(address);
        text.append(":");
    } else {
        text.append("[");
        text.append(address);
        text.append("]:");
    }
    push_decimal_text(&mut text, port as usize);
    proof {
        if octets@.len() == 4 {
            assert(text@ =~= address@ + ":"@ + decimal_text(port as nat));
        } else {
            assert(text@ =~= "["@ + address@ + "]:"@ + decimal_text(port as nat));
        }
    }
    Some(text)
}

/// The local address from which an upstream is asked over UDP: any address
/// and any port, of the family of the upstream's address.
pub open spec fn bind_of(address: Seq<char>) -> Option<Seq<char>> {
    match ip_literal(address) {
        Some(octets) => Some(
            if octets.len() == 4 {
                "0.0.0.0:0"@
            } else {
                "[::]:0"@
            },
        ),
        None => None,
    }
}

/// Picks the local address from which an upstream is asked over UDP.
pub fn udp_bind_address(address: &str) -> (r: Option<&'static str>)
    ensures
        match r {
            Some(text) => bind_of(address@) == Some(text@),
            None => bind_of(address@).is_none(),
        },
{
    match parse_ip(address) {
        Some(octets) => if octets.len() == 4 {
            Some("0.0.0.0:0")
        } else {
            Some("[::]:0")
        },
        None => None,
    }
}

/// How many queries of a pool are still in flight.
#[derive(Clone, Copy, Debug, PartialEq, Eq, Structural)]
pub struct PoolState {
    pub pending: usize,
}

/// What happened in a pool.
pub enum PoolEvent {
    /// A query came to its end, with an answer or with a failure.
    Finished(Result<QueryResponse, LookupError>),
    /// The time of the pool ran out.
    TimedOut,
}

/// What a pool does after an event.
pub enum PoolAction {
    /// The pool has its answer; the queries still in flight are cancelled.
    Win(QueryResponse),
    /// Wait for the next event.
    Wait,
    /// The pool has no answer; the queries still in flight are cancelled.
    Fail,
}

/// A pool's step with the answer as plain values.
pub enum PoolStep {
    Win(Seq<u8>, QueryType),
    Wait,
    Fail,
}

impl View for PoolAction {
    type V = PoolStep;

    open spec fn view(&self) -> PoolStep {
        match self {
            PoolAction::Win(response) => PoolStep::Win(response.message()@, response.kind()),
            PoolAction::Wait => PoolStep::Wait,
            PoolAction::Fail => PoolStep::Fail,
        }
    }
}

/// What happened in a pool, the answer as plain values: `Some(Some(..))`
/// for an answer, `Some(None)` for a failed query, `None` for the timeout.
pub open spec fn pool_event_view(event: PoolEvent) -> Option<Option<(Seq<u8>, QueryType)>> {
    match event {
        PoolEvent::Finished(Ok(response)) => Some(Some((response.message()@, response.kind()))),
        PoolEvent::Finished(Err(_)) => Some(None),
        PoolEvent::TimedOut => None,
    }
}

/// The step of a pool: the first answer wins; a failed query leaves the
/// others to go on, and the pool fails with the last of them or when its
/// time runs out. A pool without queries in flight fails on any event.
pub open spec fn pool_step(state: PoolState, event: Option<Option<(Seq<u8>, QueryType)>>) -> (
    PoolState,
    PoolStep,
) {
    let over = PoolState { pending: 0 };
    if state.pending == 0 {
        (over, PoolStep::Fail)
    } else {
        match event {
            Some(Some((octets, kind))) => (over, PoolStep::Win(octets, kind)),
            Some(None) => if state.pending == 1 {
                (over, PoolStep::Fail)
            } else {
                (PoolState { pending: (state.pending - 1) as usize }, PoolStep::Wait)
            },
            None => (over, PoolStep::Fail),
        }
    }
}

/// One step of a pool: takes the number of queries in flight and what
/// happened, returns the number left and what to do.
pub fn first_ok(state: PoolState, event: PoolEvent) -> (r: (PoolState, PoolAction))
    ensures
        (r.0, r.1@) == pool_step(state, pool_event_view(event)),
{
    let over = PoolState { pending: 0 };
    if state.pending == 0 {
        return (over, PoolAction::Fail);
    }
    match event {
        PoolEvent::Finished(Ok(response)) => (over, PoolAction::Win(response)),
        PoolEvent::Finished(Err(_)) => {
            if state.pending == 1 {
                (over, PoolAction::Fail)
            } else {
                (PoolState { pending: state.pending - 1 }, PoolAction::Wait)
            }
        },
        PoolEvent::TimedOut => (over, PoolAction::Fail),
    }
}

/// A datagram that reports no error and carries no OPT record with
/// DNSSEC-OK set is turned down, so that the transport goes on receiving.
pub proof fn lemma_datagram_without_dnssec_ok_is_discarded(datagram: Seq<u8>)
    requires
        datagram.len() >= HEADER_LEN,
        Header::of(datagram).rcode == 0,
        wire_dnssec_ok(datagram) != Some(true),
    ensures
        lookup_result(QueryType::UDP, datagram) == Err::<Seq<u8>, LookupError>(
            LookupError::Invalid,
        ),
{
}

} // verus!
