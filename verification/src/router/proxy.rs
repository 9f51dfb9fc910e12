use crate::dns::message::{hi8, lo8, u16_to_be};
use vstd::prelude::*;

verus! {

/// Port of the local SOCKS5 server that carries foreign connections.
pub const SOCKS5_PORT: u16 = 1086;

/// Where the negotiation with the SOCKS5 server stands.
#[derive(Clone, Copy, Debug, PartialEq, Eq, Structural)]
pub enum ProxyState {
    /// Connected to the server, nothing sent yet.
    Connected,
    /// The greeting went out, its reply is awaited.
    Greeted,
    /// The CONNECT request went out, its reply is awaited.
    Requested,
    /// The tunnel stands: bytes are copied in both directions.
    Established,
    /// The negotiation failed: the connection is dropped.
    Failed(ProxyError),
}

/// Why a negotiation failed.
#[derive(Clone, Copy, Debug, PartialEq, Eq, Structural)]
pub enum ProxyError {
    /// The server did not accept the no-authentication greeting.
    Greeting,
    /// The server refused the CONNECT request; the octet is its status.
    Connect(u8),
}

/// What the caller does next on the connection to the server.
#[derive(Debug)]
pub enum ProxyAction {
    /// Send the octets, then read one reply.
    Send(Vec<u8>),
    /// Copy bytes in both directions until both have ended.
    Splice,
    /// Drop the connection.
    Fail(ProxyError),
}

/// The greeting that offers "no authentication" as the only method.
pub open spec fn greeting_octets() -> Seq<u8> {
    seq![5u8, 1u8, 0u8]
}

/// The CONNECT request for an IPv4 destination.
pub open spec fn connect_octets(ip: Seq<u8>, port: u16) -> Seq<u8> {
    seq![5u8, 1u8, 0u8, 1u8, ip[0], ip[1], ip[2], ip[3], hi8(port), lo8(port)]
}

/// A server accepts the greeting with exactly the octets `05 00`.
pub open spec fn greeting_accepted(reply: Seq<u8>) -> bool {
    reply.len() == 2 && reply[0] == 5 && reply[1] == 0
}

/// A server grants the request with ten octets that start `05 00`.
pub open spec fn connect_granted(reply: Seq<u8>) -> bool {
    reply.len() == 10 && reply[0] == 5 && reply[1] == 0
}

/// The status octet of a reply, zero where the reply is too short to hold one.
pub open spec fn reply_status(reply: Seq<u8>) -> u8 {
    if reply.len() >= 2 {
        reply[1]
    } else {
        0
    }
}

/// What a step of the negotiation asks for, with the octets to send as a
/// sequence.
pub enum ProxyStep {
    Send(Seq<u8>),
    Splice,
    Fail(ProxyError),
}

impl View for ProxyAction {
    type V = ProxyStep;

    open spec fn view(&self) -> ProxyStep {
        match self {
            ProxyAction::Send(octets) => ProxyStep::Send(octets@),
            ProxyAction::Splice => ProxyStep::Splice,
            ProxyAction::Fail(e) => ProxyStep::Fail(*e),
        }
    }
}

/// The state that follows `state` once `reply` has arrived. No reply has
/// arrived yet in the state `Connected`, where `reply` is not looked at.
pub open spec fn next_state(state: ProxyState, reply: Seq<u8>) -> ProxyState {
    match state {
        ProxyState::Connected => ProxyState::Greeted,
        ProxyState::Greeted => if greeting_accepted(reply) {
            ProxyState::Requested
        } else {
            ProxyState::Failed(ProxyError::Greeting)
        },
        ProxyState::Requested => if connect_granted(reply) {
            ProxyState::Established
        } else {
            ProxyState::Failed(ProxyError::Connect(reply_status(reply)))
        },
        ProxyState::Established => ProxyState::Established,
        ProxyState::Failed(e) => ProxyState::Failed(e),
    }
}

/// What is done on entering `state` on the way to `ip:port`.
pub open spec fn step_on_entering(state: ProxyState, ip: Seq<u8>, port: u16) -> ProxyStep {
    match state {
        ProxyState::Connected => ProxyStep::Fail(ProxyError::Greeting),
        ProxyState::Greeted => ProxyStep::Send(greeting_octets()),
        ProxyState::Requested => ProxyStep::Send(connect_octets(ip, port)),
        ProxyState::Established => ProxyStep::Splice,
        ProxyState::Failed(e) => ProxyStep::Fail(e),
    }
}

/// Builds the greeting.
pub fn greeting() -> (out: Vec<u8>)
    ensures
        out@ == greeting_octets(),
{
    let mut out: Vec<u8> = Vec::with_capacity(3);
    out.push(5);
    out.push(1);
    out.push(0);
    assert(out@ =~= greeting_octets());
    out
}

/// Builds the CONNECT request for `dst_ip:dst_port`.
pub fn connect_request(dst_ip: &[u8; 4], dst_port: u16) -> (out: Vec<u8>)
    ensures
        out@ == connect_octets(dst_ip@, dst_port),
{
    let (hi, lo) = u16_to_be(dst_port);
    let mut out: Vec<u8> = Vec::with_capacity(10);
    out.push(5);
    out.push(1);
    out.push(0);
    out.push(1);
    out.push(dst_ip[0]);
    out.push(dst_ip[1]);
    out.push(dst_ip[2]);
    out.push(dst_ip[3]);
    out.push(hi);
    out.push(lo);
    assert(out@ =~= connect_octets(dst_ip@, dst_port));
    out
}

/// Whether the server accepted the greeting.
pub fn is_greeting_accepted(reply: &[u8]) -> (ok: bool)
    ensures
        ok == greeting_accepted(reply@),
{
    reply.len() == 2 && reply[0] == 5 && reply[1] == 0
}

/// Whether the server granted the CONNECT request; if it did not, the status
/// octet of its reply.
pub fn check_connect_reply(reply: &[u8]) -> (r: Result<(), ProxyError>)
    ensures
        r is Ok <==> connect_granted(reply@),
        r is Err ==> r == Err::<(), ProxyError>(ProxyError::Connect(reply_status(reply@))),
{
    if reply.len() == 10 && reply[0] == 5 && reply[1] == 0 {
        Ok(())
    } else if reply.len() >= 2 {
        Err(ProxyError::Connect(reply[1]))
    } else {
        Err(ProxyError::Connect(0))
    }
}

/// One step of the negotiation. In the state `Connected` nothing has been
/// read yet and `reply` is ignored; in every other state `reply` is what the
/// server sent last. Returns the next state and what to do on the connection.
pub fn proxy(state: ProxyState, reply: &[u8], dst_ip: &[u8; 4], dst_port: u16) -> (r: (
    ProxyState,
    ProxyAction,
))
    ensures
        r.0 == next_state(state, reply@),
        r.1@ == step_on_entering(r.0, dst_ip@, dst_port),
{
    match state {
        ProxyState::Connected => (ProxyState::Greeted, ProxyAction::Send(greeting())),
        ProxyState::Greeted => {
            if is_greeting_accepted(reply) {
                (ProxyState::Requested, ProxyAction::Send(connect_request(dst_ip, dst_port)))
            } else {
                (
                    ProxyState::Failed(ProxyError::Greeting),
                    ProxyAction::Fail(ProxyError::Greeting),
                )
            }
        },
        ProxyState::Requested => match check_connect_reply(reply) {
            Ok(()) => (ProxyState::Established, ProxyAction::Splice),
            Err(e) => (ProxyState::Failed(e), ProxyAction::Fail(e)),
        },
        ProxyState::Established => (ProxyState::Established, ProxyAction::Splice),
        ProxyState::Failed(e) => (ProxyState::Failed(e), ProxyAction::Fail(e)),
    }
}

/// A negotiation that meets an accepting server twice ends established, having
/// sent the greeting and then the CONNECT request, and nothing else.
pub proof fn lemma_negotiation_succeeds(first: Seq<u8>, second: Seq<u8>, ip: Seq<u8>, port: u16)
    requires
        greeting_accepted(first),
        connect_granted(second),
    ensures
        ({
            let s1 = next_state(ProxyState::Connected, Seq::empty());
            let s2 = next_state(s1, first);
            let s3 = next_state(s2, second);
            &&& step_on_entering(s1, ip, port) == ProxyStep::Send(greeting_octets())
            &&& step_on_entering(s2, ip, port) == ProxyStep::Send(connect_octets(ip, port))
            &&& s3 == ProxyState::Established
            &&& step_on_entering(s3, ip, port) == ProxyStep::Splice
        }),
{
}

/// Once a reply deviates from what is expected the negotiation has failed for
/// good: no later reply revives it.
pub proof fn lemma_failure_is_final(e: ProxyError, reply: Seq<u8>)
    ensures
        next_state(ProxyState::Failed(e), reply) == ProxyState::Failed(e),
{
}

} // verus!
