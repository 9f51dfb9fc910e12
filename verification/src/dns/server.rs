use crate::dns::cache::{
    cache_entry, cache_identifier, cache_result, entry_octets, identifier_of,
    lemma_entry_round_trip, lookup_cache,
};
use crate::dns::custom::{
    custom_result, first_matching, load_patterns, lookup_custom, override_record, rule_views,
    usable_rules, CustomLookup, CustomResult,
};
use crate::dns::lookup::utils::{
    get_message_from_response, get_unwrapped_packet, get_wrapped_packet, unwrapped, wrapped,
    QueryResponse, QueryType,
};
use crate::dns::message::{push_all, Header, Message, HEADER_LEN};
use crate::dns::settings::DNSSettings;
use crate::dns::utils::{
    get_reply_message, get_request_message, lemma_reply_answers_the_query,
    lemma_response_echoes_questions, lemma_response_keeps_id, reply_octets, request_octets,
};
use crate::dns::wire::{questions_wire, read_questions, wire_questions};
use vstd::prelude::*;

verus! {

/// The transport on which a query came in, and on which its reply goes out.
#[derive(Clone, Copy, Debug, PartialEq, Eq, Structural)]
pub enum TargetType {
    UDP,
    TCP,
}

/// Where the handling of one query stands.
pub enum TaskState {
    /// Nothing has been looked at yet.
    Start,
    /// The cache was asked for the answer to `message`.
    Cache { message: Message, identifier: String },
    /// The upstreams were asked for the answer to `message`.
    Race { message: Message, identifier: String },
    /// The query is dealt with.
    Done,
}

/// What happened for a query.
pub enum TaskEvent {
    /// What the client sent arrived: a datagram, or what a stream delivered.
    Received(Vec<u8>),
    /// The cache returned an entry; an empty one where it had none, could
    /// not be asked, or is not configured.
    CacheRead(Vec<u8>),
    /// The race is over, with an answer and its side, or without.
    Raced(Option<(QueryResponse, bool)>),
}

/// What is stored after a reply: key, entry and the seconds it lives.
pub struct CacheWrite {
    pub identifier: String,
    pub entry: Vec<u8>,
    pub expire: usize,
}

/// What is done next for a query.
pub enum TaskAction {
    /// Nothing is sent: the query is dropped.
    Drop,
    /// Ask the cache for the entry under this key.
    ReadCache(String),
    /// Ask the upstreams with this query.
    Race(Message),
    /// Send `payload` back to the client, and store what `store` holds.
    Reply { payload: Vec<u8>, kind: QueryType, is_china: bool, store: Option<CacheWrite> },
}

/// A state as plain values.
pub enum TaskStateView {
    Start,
    Cache { message: Seq<u8>, identifier: Seq<char> },
    Race { message: Seq<u8>, identifier: Seq<char> },
    Done,
}

/// An event as plain values.
pub enum TaskEventView {
    Received(Seq<u8>),
    CacheRead(Seq<u8>),
    Raced(Option<(Seq<u8>, QueryType, bool)>),
}

/// An action as plain values.
pub enum TaskActionView {
    Drop,
    ReadCache(Seq<char>),
    Race(Seq<u8>),
    Reply {
        payload: Seq<u8>,
        kind: QueryType,
        is_china: bool,
        store: Option<(Seq<char>, Seq<u8>, usize)>,
    },
}

impl View for TaskState {
    type V = TaskStateView;

    open spec fn view(&self) -> TaskStateView {
        match self {
            TaskState::Start => TaskStateView::Start,
            TaskState::Cache { message, identifier } => TaskStateView::Cache {
                message: message@,
                identifier: identifier@,
            },
            TaskState::Race { message, identifier } => TaskStateView::Race {
                message: message@,
                identifier: identifier@,
            },
            TaskState::Done => TaskStateView::Done,
        }
    }
}

impl View for TaskEvent {
    type V = TaskEventView;

    open spec fn view(&self) -> TaskEventView {
        match self {
            TaskEvent::Received(octets) => TaskEventView::Received(octets@),
            TaskEvent::CacheRead(entry) => TaskEventView::CacheRead(entry@),
            TaskEvent::Raced(outcome) => TaskEventView::Raced(
                match outcome {
                    Some((response, is_china)) => Some(
                        (response.message()@, response.kind(), *is_china),
                    ),
                    None => None,
                },
            ),
        }
    }
}

impl View for TaskAction {
    type V = TaskActionView;

    open spec fn view(&self) -> TaskActionView {
        match self {
            TaskAction::Drop => TaskActionView::Drop,
            TaskAction::ReadCache(identifier) => TaskActionView::ReadCache(identifier@),
            TaskAction::Race(request) => TaskActionView::Race(request@),
            TaskAction::Reply { payload, kind, is_china, store } => TaskActionView::Reply {
                payload: payload@,
                kind: *kind,
                is_china: *is_china,
                store: match store {
                    Some(w) => Some((w.identifier@, w.entry@, w.expire)),
                    None => None,
                },
            },
        }
    }
}

/// A reply as it goes out on a transport: as it is in a datagram, behind
/// its length on a stream.
pub open spec fn framed(target: TargetType, reply: Seq<u8>) -> Seq<u8> {
    match target {
        TargetType::UDP => reply,
        TargetType::TCP => wrapped(reply),
    }
}

/// The seconds an answer is stored for: those of the settings where a cache
/// is configured, none otherwise.
pub open spec fn store_expire(settings: DNSSettings) -> Option<usize> {
    if settings.redis_server is Some {
        settings.cache_expire
    } else {
        None
    }
}

/// The first step for a query: a query too short for a header, or without
/// a question that parses, is dropped. An override rule that matches the
/// name answers at once, as a domestic answer that is not stored; one that
/// matches and cannot answer has the query dropped. Without such a rule the
/// cache is asked.
pub open spec fn step_received(
    octets: Seq<u8>,
    rules: Seq<(Seq<char>, Seq<char>)>,
    target: TargetType,
) -> (TaskStateView, TaskActionView) {
    if octets.len() < HEADER_LEN || wire_questions(octets).len() == 0 {
        (TaskStateView::Done, TaskActionView::Drop)
    } else {
        let question = wire_questions(octets)[0];
        match custom_result(octets, rules, question.qname) {
            CustomResult::Answer(reply) => (
                TaskStateView::Done,
                TaskActionView::Reply {
                    payload: framed(target, reply),
                    kind: QueryType::Custom,
                    is_china: true,
                    store: None,
                },
            ),
            CustomResult::Unusable => (TaskStateView::Done, TaskActionView::Drop),
            CustomResult::NoMatch => (
                TaskStateView::Cache { message: octets, identifier: identifier_of(question) },
                TaskActionView::ReadCache(identifier_of(question)),
            ),
        }
    }
}

/// The step after the cache was read: an entry that gives a reply answers,
/// and nothing is stored; otherwise the upstreams are asked, or the query is
/// dropped where no query for them can be built.
pub open spec fn step_cache_read(
    message: Seq<u8>,
    identifier: Seq<char>,
    entry: Seq<u8>,
    target: TargetType,
) -> (TaskStateView, TaskActionView) {
    match cache_result(message, entry) {
        Some((reply, is_china)) => (
            TaskStateView::Done,
            TaskActionView::Reply {
                payload: framed(target, reply),
                kind: QueryType::Cache,
                is_china,
                store: None,
            },
        ),
        None => match request_octets(message) {
            Some(request) => (
                TaskStateView::Race { message, identifier },
                TaskActionView::Race(request),
            ),
            None => (TaskStateView::Done, TaskActionView::Drop),
        },
    }
}

/// The step after the race for the query `message`: the answer goes to the
/// client made anew under the id and with the questions of the query, and
/// the answer as it came is stored with its side where the settings say
/// so; without an answer, or where no reply can be made from it, the query
/// is dropped.
pub open spec fn step_raced(
    message: Seq<u8>,
    identifier: Seq<char>,
    outcome: Option<(Seq<u8>, QueryType, bool)>,
    expire: Option<usize>,
    target: TargetType,
) -> (TaskStateView, TaskActionView) {
    match outcome {
        Some((answer, kind, is_china)) => match reply_octets(message, answer) {
            Some(reply) => (
                TaskStateView::Done,
                TaskActionView::Reply {
                    payload: framed(target, reply),
                    kind,
                    is_china,
                    store: match expire {
                        Some(seconds) => Some(
                            (identifier, entry_octets(answer, is_china), seconds),
                        ),
                        None => None,
                    },
                },
            ),
            None => (TaskStateView::Done, TaskActionView::Drop),
        },
        None => (TaskStateView::Done, TaskActionView::Drop),
    }
}

/// The query inside what arrived on a transport: a datagram is the query,
/// a stream delivers it behind its length. What is too short for that
/// length holds no query.
pub open spec fn inbound(target: TargetType, packet: Seq<u8>) -> Option<Seq<u8>> {
    match target {
        TargetType::UDP => Some(packet),
        TargetType::TCP => if packet.len() < 2 {
            None
        } else {
            Some(unwrapped(packet))
        },
    }
}

/// The first step for what arrived on a transport: the first step for the
/// query inside; where there is none, nothing is sent.
pub open spec fn step_arrived(
    packet: Seq<u8>,
    rules: Seq<(Seq<char>, Seq<char>)>,
    target: TargetType,
) -> (TaskStateView, TaskActionView) {
    match inbound(target, packet) {
        Some(octets) => step_received(octets, rules, target),
        None => (TaskStateView::Done, TaskActionView::Drop),
    }
}

/// One step of the handling of a query. An event that does not belong to
/// the state ends the handling without a reply.
pub open spec fn task_step(
    state: TaskStateView,
    event: TaskEventView,
    rules: Seq<(Seq<char>, Seq<char>)>,
    expire: Option<usize>,
    target: TargetType,
) -> (TaskStateView, TaskActionView) {
    match (state, event) {
        (TaskStateView::Start, TaskEventView::Received(packet)) => step_arrived(
            packet,
            rules,
            target,
        ),
        (
            TaskStateView::Cache { message, identifier },
            TaskEventView::CacheRead(entry),
        ) => step_cache_read(message, identifier, entry, target),
        (
            TaskStateView::Race { message, identifier },
            TaskEventView::Raced(outcome),
        ) => step_raced(message, identifier, outcome, expire, target),
        _ => (TaskStateView::Done, TaskActionView::Drop),
    }
}

/// Puts a reply into the form in which it goes out on a transport.
pub fn frame_reply(target: TargetType, reply: &Message) -> (payload: Vec<u8>)
    ensures
        payload@ == framed(target, reply@),
{
    match target {
        TargetType::UDP => {
            let mut payload: Vec<u8> = Vec::new();
            push_all(&mut payload, reply.as_octets().as_slice());
            assert(payload@ =~= reply@);
            payload
        },
        TargetType::TCP => get_wrapped_packet(reply),
    }
}

/// The DNS service: its settings and the override rules that are in force.
pub struct DNSServer {
    pub settings: DNSSettings,
    pub custom_patterns: Vec<(String, String)>,
}

impl DNSServer {
    /// Sets the service up: the override rules in force are those of the
    /// settings whose pattern compiles.
    pub fn new(settings: DNSSettings) -> (server: DNSServer)
        ensures
            server.settings == settings,
            rule_views(server.custom_patterns@) == usable_rules(
                rule_views(settings.custom_hosts@),
            ),
    {
        let custom_patterns = load_patterns(&settings);
        DNSServer { settings, custom_patterns }
    }

    /// Keeps the override rules of the settings whose pattern compiles, in
    /// the order of the configuration.
    pub fn load_patterns(settings: &DNSSettings) -> (patterns: Vec<(String, String)>)
        ensures
            rule_views(patterns@) == usable_rules(rule_views(settings.custom_hosts@)),
    {
        load_patterns(settings)
    }

    /// The address on which the service listens, over UDP and TCP.
    pub fn listen_address(&self) -> (text: String)
        ensures
            text@ == crate::text::endpoint_text(
                self.settings.listen_ip@,
                self.settings.listen_port,
            ),
    {
        crate::text::endpoint(self.settings.listen_ip.as_str(), self.settings.listen_port)
    }

    /// The seconds for which an answer is stored, if it is stored at all.
    pub fn cache_expire(&self) -> (r: Option<usize>)
        ensures
            r == store_expire(self.settings),
    {
        if self.settings.redis_server.is_some() {
            self.settings.cache_expire
        } else {
            None
        }
    }

    /// Handles the arrival of a query.
    fn on_received(&self, packet: Vec<u8>, target: TargetType) -> (r: (TaskState, TaskAction))
        ensures
            (r.0@, r.1@) == step_arrived(packet@, rule_views(self.custom_patterns@), target),
    {
        let octets = match target {
            TargetType::UDP => packet,
            TargetType::TCP => match get_unwrapped_packet(packet.as_slice()) {
                Some(octets) => octets,
                None => {
                    return (TaskState::Done, TaskAction::Drop);
                },
            },
        };
        let message = match Message::from_octets(octets) {
            Some(message) => message,
            None => {
                return (TaskState::Done, TaskAction::Drop);
            },
        };
        let questions = read_questions(message.as_octets().as_slice());
        if questions.len() == 0 {
            return (TaskState::Done, TaskAction::Drop);
        }
        assert(questions@[0]@ == wire_questions(message@)[0]);
        let domain = questions[0].qname.clone();
        let identifier = cache_identifier(&questions[0]);
        match lookup_custom(&message, &self.custom_patterns, &domain) {
            CustomLookup::Answer(response) => {
                let (reply, kind) = get_message_from_response(response);
                let payload = frame_reply(target, &reply);
                (
                    TaskState::Done,
                    TaskAction::Reply { payload, kind, is_china: true, store: None },
                )
            },
            CustomLookup::Unusable => (TaskState::Done, TaskAction::Drop),
            CustomLookup::NoMatch => {
                let key = identifier.clone();
                (TaskState::Cache { message, identifier }, TaskAction::ReadCache(key))
            },
        }
    }

    /// Handles what the cache returned.
    fn on_cache_read(message: Message, identifier: String, entry: Vec<u8>, target: TargetType)
        -> (r: (TaskState, TaskAction))
        ensures
            (r.0@, r.1@) == step_cache_read(message@, identifier@, entry@, target),
    {
        match lookup_cache(&message, entry) {
            Some((response, is_china)) => {
                let (reply, kind) = get_message_from_response(response);
                let payload = frame_reply(target, &reply);
                (TaskState::Done, TaskAction::Reply { payload, kind, is_china, store: None })
            },
            None => match get_request_message(&message) {
                Some(request) => (
                    TaskState::Race { message, identifier },
                    TaskAction::Race(request),
                ),
                None => (TaskState::Done, TaskAction::Drop),
            },
        }
    }

    /// Handles the end of the race.
    fn on_raced(
        &self,
        message: Message,
        identifier: String,
        outcome: Option<(QueryResponse, bool)>,
        target: TargetType,
    ) -> (r: (TaskState, TaskAction))
        ensures
            (r.0@, r.1@) == step_raced(
                message@,
                identifier@,
                match outcome {
                    Some((response, is_china)) => Some(
                        (response.message()@, response.kind(), is_china),
                    ),
                    None => None,
                },
                store_expire(self.settings),
                target,
            ),
    {
        match outcome {
            Some((response, is_china)) => {
                let (answer, kind) = get_message_from_response(response);
                let reply = match get_reply_message(&message, &answer) {
                    Some(reply) => reply,
                    None => {
                        return (TaskState::Done, TaskAction::Drop);
                    },
                };
                let payload = frame_reply(target, &reply);
                let store = match self.cache_expire() {
                    Some(expire) => Some(
                        CacheWrite {
                            identifier,
                            entry: cache_entry(answer.as_octets().as_slice(), is_china),
                            expire,
                        },
                    ),
                    None => None,
                };
                (TaskState::Done, TaskAction::Reply { payload, kind, is_china, store })
            },
            None => (TaskState::Done, TaskAction::Drop),
        }
    }

    /// One step of the handling of a query that came in on `target`: takes
    /// the state and what happened, returns the next state and what to do.
    pub fn run_task(&self, state: TaskState, event: TaskEvent, target: TargetType) -> (r: (
        TaskState,
        TaskAction,
    ))
        ensures
            (r.0@, r.1@) == task_step(
                state@,
                event@,
                rule_views(self.custom_patterns@),
                store_expire(self.settings),
                target,
            ),
    {
        match state {
            TaskState::Start => match event {
                TaskEvent::Received(octets) => self.on_received(octets, target),
                _ => (TaskState::Done, TaskAction::Drop),
            },
            TaskState::Cache { message, identifier } => match event {
                TaskEvent::CacheRead(entry) => Self::on_cache_read(
                    message,
                    identifier,
                    entry,
                    target,
                ),
                _ => (TaskState::Done, TaskAction::Drop),
            },
            TaskState::Race { message, identifier } => match event {
                TaskEvent::Raced(outcome) => self.on_raced(message, identifier, outcome, target),
                _ => (TaskState::Done, TaskAction::Drop),
            },
            TaskState::Done => (TaskState::Done, TaskAction::Drop),
        }
    }
}

/// Where an override rule matches the name that a query asks for, the
/// handling ends with the first step: the cache is not read and the
/// upstreams are not asked.
pub proof fn lemma_override_comes_first(
    octets: Seq<u8>,
    rules: Seq<(Seq<char>, Seq<char>)>,
    target: TargetType,
)
    requires
        octets.len() >= HEADER_LEN,
        wire_questions(octets).len() > 0,
        first_matching(rules, wire_questions(octets)[0].qname) is Some,
    ensures
        step_received(octets, rules, target).0 is Done,
        !(step_received(octets, rules, target).1 is ReadCache),
        !(step_received(octets, rules, target).1 is Race),
{
}

/// An answer that was sent back and stored after a race answers a later
/// query for the same key from the cache: with the side it was stored with,
/// without another race and without another write.
pub proof fn lemma_stored_answer_is_served(
    first: Seq<u8>,
    identifier: Seq<char>,
    answer: Seq<u8>,
    kind: QueryType,
    is_china: bool,
    seconds: usize,
    later: Seq<u8>,
    target: TargetType,
)
    requires
        later.len() >= HEADER_LEN,
        step_raced(
            first,
            identifier,
            Some((answer, kind, is_china)),
            Some(seconds),
            target,
        ).1 is Reply,
    ensures
        ({
            let raced = step_raced(
                first,
                identifier,
                Some((answer, kind, is_china)),
                Some(seconds),
                target,
            );
            let entry = entry_octets(answer, is_china);
            let served = step_cache_read(later, identifier, entry, target);
            &&& raced.1 matches TaskActionView::Reply { store, .. } && store == Some(
                (identifier, entry, seconds),
            )
            &&& served.0 is Done
            &&& served.1 matches TaskActionView::Reply { payload, kind, is_china: side, store }
                && kind == QueryType::Cache && side == is_china && store is None && Some(payload)
                == match reply_octets(later, answer) {
                Some(reply) => Some(framed(target, reply)),
                None => None,
            }
        }),
{
    lemma_entry_round_trip(answer, is_china);
    assert(reply_octets(first, answer) is Some);
    assert(reply_octets(later, answer) is Some);
}

/// Every reply carries the id of the query it answers and is a response,
/// whether an override rule, the cache or the race gave it, and whatever id
/// the stored or the upstream's message has. `reply` is what goes out,
/// before it is framed for the transport.
pub proof fn lemma_reply_keeps_id(
    octets: Seq<u8>,
    rules: Seq<(Seq<char>, Seq<char>)>,
    entry: Seq<u8>,
    answer: Seq<u8>,
    reply: Seq<u8>,
)
    requires
        wire_questions(octets).len() > 0,
        custom_result(octets, rules, wire_questions(octets)[0].qname) == CustomResult::Answer(
            reply,
        ) || (cache_result(octets, entry) matches Some((made, _)) && made == reply)
            || reply_octets(octets, answer) == Some(reply),
    ensures
        Header::of(reply).id == Header::of(octets).id,
        Header::of(reply).qr,
{
    let id = Header::of(octets).id;
    let domain = wire_questions(octets)[0].qname;
    if custom_result(octets, rules, domain) == CustomResult::Answer(reply) {
        let address = first_matching(rules, domain)->0;
        let record = override_record(domain, address)->0;
        lemma_response_keeps_id(id, octets, octets, Some(seq![record]), reply);
    } else if reply_octets(octets, answer) == Some(reply) {
        lemma_reply_answers_the_query(octets, answer, reply);
    } else {
        lemma_reply_answers_the_query(octets, entry.drop_last(), reply);
    }
}

/// Every reply carries the questions of the query it answers, one after
/// the other as they were read, right behind its header, whether an
/// override rule, the cache or the race gave it.
pub proof fn lemma_reply_echoes_questions(
    octets: Seq<u8>,
    rules: Seq<(Seq<char>, Seq<char>)>,
    entry: Seq<u8>,
    answer: Seq<u8>,
    reply: Seq<u8>,
)
    requires
        wire_questions(octets).len() > 0,
        custom_result(octets, rules, wire_questions(octets)[0].qname) == CustomResult::Answer(
            reply,
        ) || (cache_result(octets, entry) matches Some((made, _)) && made == reply)
            || reply_octets(octets, answer) == Some(reply),
    ensures
        ({
            let questions = questions_wire(wire_questions(octets));
            &&& reply.len() >= 12 + questions.len()
            &&& reply.subrange(12, 12 + questions.len() as int) == questions
        }),
{
    let domain = wire_questions(octets)[0].qname;
    if custom_result(octets, rules, domain) == CustomResult::Answer(reply) {
        let address = first_matching(rules, domain)->0;
        let record = override_record(domain, address)->0;
        lemma_response_echoes_questions(
            Header::of(octets).id,
            octets,
            octets,
            Some(seq![record]),
            reply,
        );
    } else if reply_octets(octets, answer) == Some(reply) {
        lemma_reply_answers_the_query(octets, answer, reply);
    } else {
        lemma_reply_answers_the_query(octets, entry.drop_last(), reply);
    }
}

/// Whatever a step sends back was made as one of the three kinds of reply
/// that `lemma_reply_keeps_id` and `lemma_reply_echoes_questions` speak of:
/// no step sends a message to the client as it came from elsewhere.
pub proof fn lemma_every_payload_is_a_made_reply(
    state: TaskStateView,
    event: TaskEventView,
    rules: Seq<(Seq<char>, Seq<char>)>,
    expire: Option<usize>,
    target: TargetType,
)
    requires
        task_step(state, event, rules, expire, target).1 is Reply,
    ensures
        ({
            let payload = task_step(state, event, rules, expire, target).1->payload;
            match (state, event) {
                (TaskStateView::Start, TaskEventView::Received(packet)) => inbound(
                    target,
                    packet,
                ) matches Some(octets) && custom_result(
                    octets,
                    rules,
                    wire_questions(octets)[0].qname,
                ) matches CustomResult::Answer(reply) && payload == framed(target, reply),
                (
                    TaskStateView::Cache { message, identifier },
                    TaskEventView::CacheRead(entry),
                ) => cache_result(message, entry) matches Some((reply, _)) && payload == framed(
                    target,
                    reply,
                ),
                (
                    TaskStateView::Race { message, identifier },
                    TaskEventView::Raced(outcome),
                ) => outcome matches Some((answer, _, _)) && reply_octets(message, answer)
                    matches Some(reply) && payload == framed(target, reply),
                _ => false,
            }
        }),
{
}

} // verus!
