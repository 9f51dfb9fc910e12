use crate::dns::message::{be16_octets, push_all, Header, Message, HEADER_LEN};
use crate::dns::wire::{
    assembled, compose_answer, compose_header, compose_opt, compose_query, name_ok,
    opt_message, questions_wire, read_additionals, read_answers, read_questions,
    record_views, records_ok, views_of, wire_additionals, wire_answers, wire_questions,
    OptSettings, Record, RecordView, RTYPE_OPT,
};
use vstd::prelude::*;

verus! {

/// Copies a record.
pub fn clone_record(r: &Record) -> (c: Record)
    ensures
        c@ == r@,
{
    let mut owner: Vec<u8> = Vec::new();
    push_all(&mut owner, r.owner.as_slice());
    let mut rdata: Vec<u8> = Vec::new();
    push_all(&mut rdata, r.rdata.as_slice());
    assert(owner@ =~= r.owner@);
    assert(rdata@ =~= r.rdata@);
    Record { owner, rtype: r.rtype, class: r.class, ttl: r.ttl, rdata }
}

/// The records of a section that was read which go into a message. With
/// `only_opt` the OPT records among the items that parsed are taken and the
/// rest is passed over; without it every item is taken, and one that did
/// not parse spoils the section.
pub open spec fn chosen(items: Seq<Option<RecordView>>, only_opt: bool) -> Option<
    Seq<RecordView>,
>
    decreases items.len(),
{
    if items.len() == 0 {
        Some(Seq::<RecordView>::empty())
    } else {
        match chosen(items.drop_last(), only_opt) {
            None => None,
            Some(records) => match items.last() {
                None => if only_opt {
                    Some(records)
                } else {
                    None
                },
                Some(r) => if only_opt && r.rtype != RTYPE_OPT {
                    Some(records)
                } else {
                    Some(records.push(r))
                },
            },
        }
    }
}

/// Once a prefix of a section is spoilt, the section is.
pub proof fn lemma_chosen_spoilt(items: Seq<Option<RecordView>>, k: int, only_opt: bool)
    requires
        0 <= k <= items.len(),
        chosen(items.subrange(0, k), only_opt).is_none(),
    ensures
        chosen(items, only_opt).is_none(),
    decreases items.len() - k,
{
    if k < items.len() {
        let next = items.subrange(0, k + 1);
        assert(next.drop_last() =~= items.subrange(0, k));
        lemma_chosen_spoilt(items, k + 1, only_opt);
    } else {
        assert(items.subrange(0, k) =~= items);
    }
}

/// Picks the records of a section that was read which go into a message.
pub fn choose_records(items: &Vec<Option<Record>>, only_opt: bool) -> (r: Option<Vec<Record>>)
    ensures
        match r {
            Some(records) => chosen(record_views(items@), only_opt) == Some(views_of(records@)),
            None => chosen(record_views(items@), only_opt).is_none(),
        },
{
    let ghost views = record_views(items@);
    let mut out: Vec<Record> = Vec::new();
    let mut i: usize = 0;
    assert(views.subrange(0, 0) =~= Seq::<Option<RecordView>>::empty());
    assert(views_of(out@) =~= Seq::<RecordView>::empty());
    while i < items.len()
        invariant
            i <= items.len(),
            views == record_views(items@),
            views.len() == items@.len(),
            chosen(views.subrange(0, i as int), only_opt) == Some(views_of(out@)),
        decreases items.len() - i,
    {
        let ghost before = out@;
        proof {
            let prefix = views.subrange(0, i + 1);
            assert(prefix.drop_last() =~= views.subrange(0, i as int));
            assert(prefix.last() == views[i as int]);
        }
        match &items[i] {
            None => {
                if !only_opt {
                    proof {
                        lemma_chosen_spoilt(views, i + 1, only_opt);
                    }
                    return None;
                }
            },
            Some(r) => {
                if !(only_opt && r.rtype != RTYPE_OPT) {
                    out.push(clone_record(r));
                    assert(views_of(out@) =~= views_of(before).push(r@));
                }
            },
        }
        i = i + 1;
    }
    assert(views.subrange(0, i as int) =~= views);
    Some(out)
}

/// The OPT record that goes out with a query that brought none: DNSSEC-OK
/// set, a UDP payload of 1024 octets, EDNS version 0, the client subnets
/// 122.233.242.188/24 and 240e:390:e5b:8280::1/64, 31 octets of padding, a
/// TCP keepalive of 20 and the key tag octets 1, 2, 3, 82.
pub open spec fn default_opt() -> OptSettings {
    OptSettings {
        udp_payload_size: 1024,
        version: 0,
        dnssec_ok: true,
        v4_source_prefix: 24,
        v4_scope_prefix: 0,
        v4_addr: 0x7ae9_f2bc,
        v6_source_prefix: 64,
        v6_scope_prefix: 0,
        v6_addr: 0x240e_0390_0e5b_8280_0000_0000_0000_0001,
        padding: 31,
        tcp_keepalive: 20,
        key_tag: 0x0102_0352,
    }
}

/// The settings of the default OPT record.
pub fn default_opt_settings() -> (s: OptSettings)
    ensures
        s == default_opt(),
        s.wf(),
{
    OptSettings {
        udp_payload_size: 1024,
        version: 0,
        dnssec_ok: true,
        v4_source_prefix: 24,
        v4_scope_prefix: 0,
        v4_addr: 0x7ae9_f2bc,
        v6_source_prefix: 64,
        v6_scope_prefix: 0,
        v6_addr: 0x240e_0390_0e5b_8280_0000_0000_0000_0001,
        padding: 31,
        tcp_keepalive: 20,
        key_tag: 0x0102_0352,
    }
}

/// The OPT records of a message, as they are read from it.
pub open spec fn opt_records(octets: Seq<u8>) -> Option<Seq<RecordView>> {
    match wire_additionals(octets) {
        Some(items) => chosen(items, true),
        None => None,
    }
}

/// The default OPT record, read back from the message that holds it.
pub open spec fn default_opt_records() -> Option<Seq<RecordView>> {
    match opt_message(default_opt()) {
        Some(octets) => opt_records(octets),
        None => None,
    }
}

/// The additional records of the query that goes upstream: the OPT records
/// of the client's query, or the default OPT record where it has none.
pub open spec fn request_records(origin: Seq<u8>) -> Option<Seq<RecordView>> {
    match opt_records(origin) {
        Some(own) => if own.len() > 0 {
            Some(own)
        } else {
            default_opt_records()
        },
        None => None,
    }
}

/// The header of a query that goes upstream for a client's query with the
/// given id: a standard query with RD, RA and AA set.
pub open spec fn request_header(id: u16) -> Header {
    Header {
        id,
        qr: false,
        opcode: 0,
        aa: true,
        tc: false,
        rd: true,
        ra: true,
        z: false,
        ad: false,
        cd: false,
        rcode: 0,
    }
}

/// The query that goes upstream for a client's query. It carries the id and
/// the first question of the client's query, and the OPT records of its
/// additional section, or the default OPT record where it has none. There
/// is no such query where the client's has no question that parses, where
/// its additional section cannot be reached, or where question and records
/// do not fit a message.
pub open spec fn request_octets(origin: Seq<u8>) -> Option<Seq<u8>> {
    let questions = wire_questions(origin);
    if questions.len() == 0 {
        None
    } else {
        match request_records(origin) {
            Some(records) => if name_ok(questions[0].name) && records_ok(records) {
                Some(
                    assembled(
                        request_header(Header::of(origin).id).octets(),
                        seq![questions[0]],
                        Seq::empty(),
                        records,
                    ),
                )
            } else {
                None
            },
            None => None,
        }
    }
}

/// Reads the OPT records of a message.
fn read_opt_records(octets: &[u8]) -> (r: Option<Vec<Record>>)
    ensures
        match r {
            Some(records) => opt_records(octets@) == Some(views_of(records@)),
            None => opt_records(octets@).is_none(),
        },
{
    match read_additionals(octets) {
        Some(items) => choose_records(&items, true),
        None => None,
    }
}

/// Builds the query that goes upstream for a client's query.
pub fn get_request_message(origin: &Message) -> (r: Option<Message>)
    ensures
        match r {
            Some(m) => request_octets(origin@) == Some(m@),
            None => request_octets(origin@).is_none(),
        },
{
    let octets = origin.as_octets();
    let questions = read_questions(octets.as_slice());
    if questions.len() == 0 {
        return None;
    }
    assert(questions@[0]@ == wire_questions(origin@)[0]);
    let header = Header {
        id: origin.header().id,
        qr: false,
        opcode: 0,
        aa: true,
        tc: false,
        rd: true,
        ra: true,
        z: false,
        ad: false,
        cd: false,
        rcode: 0,
    };
    let own = match read_opt_records(octets.as_slice()) {
        Some(own) => own,
        None => {
            return None;
        },
    };
    let records = if own.len() > 0 {
        own
    } else {
        let settings = default_opt_settings();
        let made = match compose_opt(&settings) {
            Some(made) => made,
            None => {
                return None;
            },
        };
        match read_opt_records(made.as_slice()) {
            Some(records) => records,
            None => {
                return None;
            },
        }
    };
    let head = compose_header(&header);
    assert(head@.subrange(0, 4) =~= header.octets());
    match compose_query(head.as_slice(), &questions[0], &records) {
        Some(out) => Message::from_octets(out),
        None => None,
    }
}

/// The header of a reply with the given id to a message with the header
/// `origin`: a response without error, CD set, that keeps the opcode and the
/// flags AA, TC, RD, RA and AD of `origin`.
pub open spec fn response_header(id: u16, origin: Header) -> Header {
    Header {
        id,
        qr: true,
        opcode: origin.opcode,
        aa: origin.aa,
        tc: origin.tc,
        rd: origin.rd,
        ra: origin.ra,
        z: false,
        ad: origin.ad,
        cd: true,
        rcode: 0,
    }
}

/// The answer section of a reply made from `origin`: the records given, or
/// where none are given the answers of `origin`, all of which must parse.
pub open spec fn response_answers(origin: Seq<u8>, force: Option<Seq<RecordView>>) -> Option<
    Seq<RecordView>,
> {
    match force {
        Some(records) => Some(records),
        None => match wire_answers(origin) {
            Some(items) => chosen(items, false),
            None => None,
        },
    }
}

/// The additional section of a reply made from `origin`: the additional
/// records of `origin`, all of which must parse.
pub open spec fn response_additionals(origin: Seq<u8>) -> Option<Seq<RecordView>> {
    match wire_additionals(origin) {
        Some(items) => chosen(items, false),
        None => None,
    }
}

/// The reply with the given id that carries the questions of the message
/// `asked`, the flags and the additional records of `origin`, the answers
/// given or else those of `origin`, and no authority records. There is no
/// such reply where one of the two messages holds no header, where a
/// section of `origin` that is needed cannot be read, or where the records
/// do not fit their sections.
pub open spec fn made_response(
    id: u16,
    asked: Seq<u8>,
    origin: Seq<u8>,
    force: Option<Seq<RecordView>>,
) -> Option<Seq<u8>> {
    match (response_answers(origin, force), response_additionals(origin)) {
        (Some(answers), Some(additionals)) => if asked.len() >= HEADER_LEN && origin.len()
            >= HEADER_LEN && records_ok(answers) && records_ok(additionals) {
            Some(
                assembled(
                    response_header(id, Header::of(origin)).octets(),
                    wire_questions(asked),
                    answers,
                    additionals,
                ),
            )
        } else {
            None
        },
        _ => None,
    }
}

/// The reply with the given id that is made from `origin` alone: it carries
/// the questions of `origin`.
pub open spec fn response_octets(id: u16, origin: Seq<u8>, force: Option<Seq<RecordView>>)
    -> Option<Seq<u8>> {
    made_response(id, origin, origin, force)
}

/// The reply to the client's query `query` that is made from the message
/// `origin`, which an upstream sent or the cache held: it carries the id
/// and the questions of `query`, and the flags, answers and additional
/// records of `origin`.
pub open spec fn reply_octets(query: Seq<u8>, origin: Seq<u8>) -> Option<Seq<u8>> {
    made_response(Header::of(query).id, query, origin, None)
}

/// The views of the records that may have been given.
pub open spec fn forced_views(force: Option<Vec<Record>>) -> Option<Seq<RecordView>> {
    match force {
        Some(records) => Some(views_of(records@)),
        None => None,
    }
}

/// Builds a reply from its parts.
fn make_response(id: u16, asked: &Message, origin: &Message, force_answers: Option<Vec<Record>>)
    -> (r: Option<Message>)
    ensures
        match r {
            Some(m) => made_response(id, asked@, origin@, forced_views(force_answers)) == Some(
                m@,
            ),
            None => made_response(id, asked@, origin@, forced_views(force_answers)).is_none(),
        },
{
    let octets = origin.as_octets();
    let from = origin.header();
    let header = Header {
        id,
        qr: true,
        opcode: from.opcode,
        aa: from.aa,
        tc: from.tc,
        rd: from.rd,
        ra: from.ra,
        z: false,
        ad: from.ad,
        cd: true,
        rcode: 0,
    };
    let answers = match force_answers {
        Some(records) => records,
        None => {
            let read = match read_answers(octets.as_slice()) {
                Some(items) => choose_records(&items, false),
                None => None,
            };
            match read {
                Some(records) => records,
                None => {
                    return None;
                },
            }
        },
    };
    let read = match read_additionals(octets.as_slice()) {
        Some(items) => choose_records(&items, false),
        None => None,
    };
    let additionals = match read {
        Some(records) => records,
        None => {
            return None;
        },
    };
    let head = compose_header(&header);
    assert(head@.subrange(0, 4) =~= header.octets());
    match compose_answer(head.as_slice(), asked.as_octets().as_slice(), &answers, &additionals) {
        Some(out) => Message::from_octets(out),
        None => None,
    }
}

/// Builds the reply with the given id from `origin`, with the answers given
/// or else with those of `origin`.
pub fn get_response_message(id: u16, origin: &Message, force_answers: Option<Vec<Record>>) -> (r:
    Option<Message>)
    ensures
        match r {
            Some(m) => response_octets(id, origin@, forced_views(force_answers)) == Some(m@),
            None => response_octets(id, origin@, forced_views(force_answers)).is_none(),
        },
{
    make_response(id, origin, origin, force_answers)
}

/// Builds the reply to a client's query from a message that an upstream
/// sent or the cache held.
pub fn get_reply_message(query: &Message, origin: &Message) -> (r: Option<Message>)
    ensures
        match r {
            Some(m) => reply_octets(query@, origin@) == Some(m@),
            None => reply_octets(query@, origin@).is_none(),
        },
{
    make_response(query.header().id, query, origin, None)
}

/// A reply that was made carries the id it was made for, and is a response
/// without error.
pub proof fn lemma_response_keeps_id(
    id: u16,
    asked: Seq<u8>,
    origin: Seq<u8>,
    force: Option<Seq<RecordView>>,
    reply: Seq<u8>,
)
    requires
        made_response(id, asked, origin, force) == Some(reply),
    ensures
        Header::of(reply).id == id,
        Header::of(reply).qr,
        Header::of(reply).rcode == 0,
{
    let h = response_header(id, Header::of(origin));
    h.lemma_of_octets();
    assert(reply.subrange(0, 4) =~= h.octets());
    assert(Header::of(reply) == Header::of(h.octets()));
}

/// A reply that was made carries the questions of the message it was asked
/// by, one after the other as they were read, right behind its header, and
/// counts them in its header.
pub proof fn lemma_response_echoes_questions(
    id: u16,
    asked: Seq<u8>,
    origin: Seq<u8>,
    force: Option<Seq<RecordView>>,
    reply: Seq<u8>,
)
    requires
        made_response(id, asked, origin, force) == Some(reply),
    ensures
        ({
            let questions = questions_wire(wire_questions(asked));
            &&& reply.len() >= 12 + questions.len()
            &&& reply.subrange(12, 12 + questions.len() as int) == questions
            &&& reply.subrange(4, 6) == be16_octets(wire_questions(asked).len() as u16)
        }),
{
    let questions = questions_wire(wire_questions(asked));
    assert(reply.subrange(12, 12 + questions.len() as int) =~= questions);
    assert(reply.subrange(4, 6) =~= be16_octets(wire_questions(asked).len() as u16));
}

/// A reply to a client's query carries the id and the questions of that
/// query, whatever id and questions the message it is made from has.
pub proof fn lemma_reply_answers_the_query(query: Seq<u8>, origin: Seq<u8>, reply: Seq<u8>)
    requires
        reply_octets(query, origin) == Some(reply),
    ensures
        Header::of(reply).id == Header::of(query).id,
        Header::of(reply).qr,
        ({
            let questions = questions_wire(wire_questions(query));
            &&& reply.len() >= 12 + questions.len()
            &&& reply.subrange(12, 12 + questions.len() as int) == questions
        }),
{
    lemma_response_keeps_id(Header::of(query).id, query, origin, None, reply);
    lemma_response_echoes_questions(Header::of(query).id, query, origin, None, reply);
}

/// Whether a reply can be made to a query from a message depends on the
/// message alone, once the query holds a header.
pub proof fn lemma_reply_depends_on_origin(first: Seq<u8>, later: Seq<u8>, origin: Seq<u8>)
    requires
        first.len() >= HEADER_LEN,
        later.len() >= HEADER_LEN,
    ensures
        reply_octets(first, origin) is Some <==> reply_octets(later, origin) is Some,
{
}

/// A query that goes upstream carries the id of the client's query.
pub proof fn lemma_request_keeps_id(origin: Seq<u8>, request: Seq<u8>)
    requires
        request_octets(origin) == Some(request),
    ensures
        Header::of(request) == request_header(Header::of(origin).id),
{
    let h = request_header(Header::of(origin).id);
    h.lemma_of_octets();
    assert(request.subrange(0, 4) =~= h.octets());
    assert(Header::of(request) == Header::of(h.octets()));
}

} // verus!
