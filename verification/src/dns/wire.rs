use crate::dns::message::{be16_octets, be32_octets, Header};
use domain::base::iana::{Class, Opcode, Rcode, Rtype};
use domain::base::net::IpAddr;
use domain::base::octets::Compose;
use domain::base::opt::rfc7830::PaddingMode;
use domain::base::opt::{ClientSubnet, KeyTag, Padding, TcpKeepalive};
use domain::base::{
    Dname, Header as WireHeader, Message as WireMessage, MessageBuilder, UnknownRecordData,
};
use domain::rdata::AllRecordData;
use vstd::prelude::*;

verus! {

/// Record type of an IPv4 address record.
pub const RTYPE_A: u16 = 1;

/// Record type of an IPv6 address record.
pub const RTYPE_AAAA: u16 = 28;

/// Record type of the EDNS pseudo-record.
pub const RTYPE_OPT: u16 = 41;

/// Class of the Internet.
pub const CLASS_IN: u16 = 1;

/// A question as plain values.
#[derive(Debug)]
pub struct Question {
    /// The name asked for, in text, without the trailing dot.
    pub qname: String,
    /// The name asked for in wire format, written out in full.
    pub name: Vec<u8>,
    pub qtype: u16,
    pub qclass: u16,
}

/// What a `Question` holds.
pub struct QuestionView {
    pub qname: Seq<char>,
    pub name: Seq<u8>,
    pub qtype: u16,
    pub qclass: u16,
}

impl View for Question {
    type V = QuestionView;

    open spec fn view(&self) -> QuestionView {
        QuestionView {
            qname: self.qname@,
            name: self.name@,
            qtype: self.qtype,
            qclass: self.qclass,
        }
    }
}

/// A resource record as plain values.
#[derive(Debug)]
pub struct Record {
    /// The owner name in wire format, written out in full.
    pub owner: Vec<u8>,
    pub rtype: u16,
    pub class: u16,
    pub ttl: u32,
    /// The record data in wire format, names in it written out in full.
    pub rdata: Vec<u8>,
}

/// What a `Record` holds.
pub struct RecordView {
    pub owner: Seq<u8>,
    pub rtype: u16,
    pub class: u16,
    pub ttl: u32,
    pub rdata: Seq<u8>,
}

impl View for Record {
    type V = RecordView;

    open spec fn view(&self) -> RecordView {
        RecordView {
            owner: self.owner@,
            rtype: self.rtype,
            class: self.class,
            ttl: self.ttl,
            rdata: self.rdata@,
        }
    }
}

/// The views of a list of questions.
pub open spec fn question_views(questions: Seq<Question>) -> Seq<QuestionView> {
    questions.map_values(|q: Question| q@)
}

/// The views of a list of records, each of which may be missing.
pub open spec fn record_views(records: Seq<Option<Record>>) -> Seq<Option<RecordView>> {
    records.map_values(
        |r: Option<Record>|
            match r {
                Some(r) => Some(r@),
                None => None,
            },
    )
}

/// The questions at the head of the question section of a message, up to
/// the first that does not parse, as the DNS library reads them.
pub uninterp spec fn wire_questions(octets: Seq<u8>) -> Seq<QuestionView>;

/// The items of the answer section of a message, as the DNS library reads
/// them: `None` for the message where the section cannot be reached, and
/// within the section `None` for an item that does not parse.
pub uninterp spec fn wire_answers(octets: Seq<u8>) -> Option<Seq<Option<RecordView>>>;

/// The items of the additional section of a message, read like the answers.
pub uninterp spec fn wire_additionals(octets: Seq<u8>) -> Option<Seq<Option<RecordView>>>;

/// Reads the questions of a message with `Message::question` of the DNS
/// library and hands each out as plain values: the name in display form
/// and composed anew in wire format, type and class as numbers. Octets too
/// short for a message have no questions. The result is what
/// `wire_questions` names.
#[verifier::external_body]
pub(crate) fn read_questions(octets: &[u8]) -> (r: Vec<Question>)
    ensures
        question_views(r@) == wire_questions(octets@),
{
    let Ok(msg) = WireMessage::from_octets(octets.to_vec()) else { return Vec::new() };
    let mut out = Vec::new();
    for q in msg.question().flatten() {
        let mut name = Vec::new();
        let _ = q.qname().compose(&mut name);
        out.push(Question {
            qname: q.qname().to_string(),
            name,
            qtype: q.qtype().to_int(),
            qclass: q.qclass().to_int(),
        });
    }
    out
}

/// Reads the answer section of a message with `Message::answer` of the DNS
/// library, every record type it knows included, and hands each record out
/// as plain values. The result is what `wire_answers` names.
#[verifier::external_body]
pub(crate) fn read_answers(octets: &[u8]) -> (r: Option<Vec<Option<Record>>>)
    ensures
        match r {
            Some(v) => wire_answers(octets@) == Some(record_views(v@)),
            None => wire_answers(octets@).is_none(),
        },
{
    let msg = WireMessage::from_octets(octets.to_vec()).ok()?;
    let section = msg.answer().ok()?;
    Some(section.limit_to::<AllRecordData<_, _>>().map(|item| {
        let rec = item.ok()?;
        let (mut owner, mut rdata) = (Vec::new(), Vec::new());
        let _ = rec.owner().compose(&mut owner);
        let _ = rec.data().compose(&mut rdata);
        let (rtype, class) = (rec.rtype().to_int(), rec.class().to_int());
        Some(Record { owner, rtype, class, ttl: rec.ttl(), rdata })
    }).collect())
}

/// Reads the additional section of a message with `Message::additional` of
/// the DNS library, as `read_answers` reads the answers. The result is what
/// `wire_additionals` names.
#[verifier::external_body]
pub(crate) fn read_additionals(octets: &[u8]) -> (r: Option<Vec<Option<Record>>>)
    ensures
        match r {
            Some(v) => wire_additionals(octets@) == Some(record_views(v@)),
            None => wire_additionals(octets@).is_none(),
        },
{
    let msg = WireMessage::from_octets(octets.to_vec()).ok()?;
    let section = msg.additional().ok()?;
    Some(section.limit_to::<AllRecordData<_, _>>().map(|item| {
        let rec = item.ok()?;
        let (mut owner, mut rdata) = (Vec::new(), Vec::new());
        let _ = rec.owner().compose(&mut owner);
        let _ = rec.data().compose(&mut rdata);
        let (rtype, class) = (rec.rtype().to_int(), rec.class().to_int());
        Some(Record { owner, rtype, class, ttl: rec.ttl(), rdata })
    }).collect())
}

/// The number of items that the DNS library counts in the answer section of
/// a message, `None` where the section cannot be reached.
pub uninterp spec fn wire_answer_count(octets: Seq<u8>) -> Option<nat>;

/// The number of items in the authority section, counted like the answers.
pub uninterp spec fn wire_authority_count(octets: Seq<u8>) -> Option<nat>;

/// The number of items in the additional section, counted like the answers.
pub uninterp spec fn wire_additional_count(octets: Seq<u8>) -> Option<nat>;

/// The DNSSEC-OK bit of the first OPT record that the DNS library finds in
/// the additional section of a message, `None` where it finds none.
pub uninterp spec fn wire_dnssec_ok(octets: Seq<u8>) -> Option<bool>;

/// Counts the answer section of a message with `Message::answer` of the DNS
/// library and the section's iterator. The result is what
/// `wire_answer_count` names.
#[verifier::external_body]
pub(crate) fn count_answers(octets: &[u8]) -> (r: Option<usize>)
    ensures
        match r {
            Some(n) => wire_answer_count(octets@) == Some(n as nat),
            None => wire_answer_count(octets@).is_none(),
        },
{
    let msg = WireMessage::from_octets(octets.to_vec()).ok()?;
    let section = msg.answer().ok()?;
    Some(section.count())
}

/// Counts the authority section of a message with `Message::authority` of
/// the DNS library. The result is what `wire_authority_count` names.
#[verifier::external_body]
pub(crate) fn count_authorities(octets: &[u8]) -> (r: Option<usize>)
    ensures
        match r {
            Some(n) => wire_authority_count(octets@) == Some(n as nat),
            None => wire_authority_count(octets@).is_none(),
        },
{
    let msg = WireMessage::from_octets(octets.to_vec()).ok()?;
    let section = msg.authority().ok()?;
    Some(section.count())
}

/// Counts the additional section of a message with `Message::additional` of
/// the DNS library. The result is what `wire_additional_count` names.
#[verifier::external_body]
pub(crate) fn count_additionals(octets: &[u8]) -> (r: Option<usize>)
    ensures
        match r {
            Some(n) => wire_additional_count(octets@) == Some(n as nat),
            None => wire_additional_count(octets@).is_none(),
        },
{
    let msg = WireMessage::from_octets(octets.to_vec()).ok()?;
    let section = msg.additional().ok()?;
    Some(section.count())
}

/// Finds the OPT record of a message with `Message::opt` of the DNS library
/// and reads its DNSSEC-OK bit. The result is what `wire_dnssec_ok` names.
#[verifier::external_body]
pub(crate) fn read_dnssec_ok(octets: &[u8]) -> (r: Option<bool>)
    ensures
        r == wire_dnssec_ok(octets@),
{
    let msg = WireMessage::from_octets(octets.to_vec()).ok()?;
    let opt = msg.opt()?;
    Some(opt.dnssec_ok())
}

/// The wire form of the absolute domain name that a text spells, as the DNS
/// library reads it; `None` where the text spells no name.
pub uninterp spec fn name_wire(text: Seq<char>) -> Option<Seq<u8>>;

/// Reads a domain name from text with `Dname::vec_from_str` of the DNS
/// library. The result is what `name_wire` names.
#[verifier::external_body]
pub(crate) fn name_from_text(text: &str) -> (r: Option<Vec<u8>>)
    ensures
        match r {
            Some(v) => name_wire(text@) == Some(v@),
            None => name_wire(text@).is_none(),
        },
{
    let name = Dname::vec_from_str(text).ok()?;
    Some(name.into_octets())
}

/// The mnemonic under which the DNS library displays a record type.
pub uninterp spec fn rtype_name(rtype: u16) -> Seq<char>;

/// The mnemonic under which the DNS library displays a class.
pub uninterp spec fn class_name(class: u16) -> Seq<char>;

/// Displays a record type as `Rtype` of the DNS library does. The result is
/// what `rtype_name` names.
#[verifier::external_body]
pub(crate) fn rtype_text(rtype: u16) -> (r: String)
    ensures
        r@ == rtype_name(rtype),
{
    Rtype::from_int(rtype).to_string()
}

/// Displays a class as `Class` of the DNS library does. The result is what
/// `class_name` names.
#[verifier::external_body]
pub(crate) fn class_text(class: u16) -> (r: String)
    ensures
        r@ == class_name(class),
{
    Class::from_int(class).to_string()
}

/// The octets of the IP address that a text spells, four for IPv4 and
/// sixteen for IPv6, as the standard library reads it; `None` where the text
/// spells no address.
pub uninterp spec fn ip_literal(text: Seq<char>) -> Option<Seq<u8>>;

/// Reads an IP address from text with the standard parser of `IpAddr`. The
/// result is what `ip_literal` names; it holds four or sixteen octets.
#[verifier::external_body]
pub(crate) fn parse_ip(text: &str) -> (r: Option<Vec<u8>>)
    ensures
        match r {
            Some(v) => ip_literal(text@) == Some(v@) && (v@.len() == 4 || v@.len() == 16),
            None => ip_literal(text@).is_none(),
        },
{
    match text.parse::<IpAddr>().ok()? {
        IpAddr::V4(addr) => Some(addr.octets().to_vec()),
        IpAddr::V6(addr) => Some(addr.octets().to_vec()),
    }
}

/// The values that go into an OPT record built from scratch.
#[derive(Clone, Copy, Debug)]
pub struct OptSettings {
    pub udp_payload_size: u16,
    pub version: u8,
    pub dnssec_ok: bool,
    /// Source prefix length of the client subnet over IPv4.
    pub v4_source_prefix: u8,
    /// Scope prefix length of the client subnet over IPv4.
    pub v4_scope_prefix: u8,
    /// Address of the client subnet over IPv4, as one number.
    pub v4_addr: u32,
    /// Source prefix length of the client subnet over IPv6.
    pub v6_source_prefix: u8,
    /// Scope prefix length of the client subnet over IPv6.
    pub v6_scope_prefix: u8,
    /// Address of the client subnet over IPv6, as one number.
    pub v6_addr: u128,
    /// Number of zero octets of padding.
    pub padding: u16,
    /// Idle timeout of the TCP keepalive option.
    pub tcp_keepalive: u16,
    /// The four octets of the key tag option, as one number.
    pub key_tag: u32,
}

impl OptSettings {
    /// The prefix lengths do not exceed the width of their addresses.
    pub open spec fn wf(self) -> bool {
        self.v4_source_prefix <= 32 && self.v6_source_prefix <= 128
    }
}

/// The message, in wire format, that the DNS library composes from the
/// settings: an empty header, and as its only record an OPT record with
/// the header fields of the settings and the options client subnet (IPv4),
/// client subnet (IPv6), padding with zeros, TCP keepalive and key tag, in
/// this order. `None` where the library turns the record down.
pub uninterp spec fn opt_message(settings: OptSettings) -> Option<Seq<u8>>;

/// Composes a message that holds one OPT record with
/// `AdditionalBuilder::opt` of the DNS library. The result is what
/// `opt_message` names. The prefix lengths must fit their addresses: the
/// library cuts each address to its source prefix.
#[verifier::external_body]
pub(crate) fn compose_opt(s: &OptSettings) -> (r: Option<Vec<u8>>)
    requires
        s.wf(),
    ensures
        match r {
            Some(v) => opt_message(*s) == Some(v@),
            None => opt_message(*s).is_none(),
        },
{
    let mut builder = MessageBuilder::new_vec().additional();
    builder.opt(|opt| {
        opt.set_dnssec_ok(s.dnssec_ok);
        opt.set_udp_payload_size(s.udp_payload_size);
        opt.set_version(s.version);
        opt.push(&ClientSubnet::new(s.v4_source_prefix, s.v4_scope_prefix, IpAddr::V4(s.v4_addr.into())))?;
        opt.push(&ClientSubnet::new(s.v6_source_prefix, s.v6_scope_prefix, IpAddr::V6(s.v6_addr.into())))?;
        opt.push(&Padding::new(s.padding, PaddingMode::Zero))?;
        opt.push(&TcpKeepalive::new(s.tcp_keepalive))?;
        opt.push(&KeyTag::new(s.key_tag.to_be_bytes()))
    }).ok()?;
    Some(builder.finish())
}

/// Whether the DNS library accepts octets as an absolute domain name in
/// wire format, written out in full.
pub uninterp spec fn name_ok(name: Seq<u8>) -> bool;

/// A question in wire format: name, type, class.
pub open spec fn question_wire(q: QuestionView) -> Seq<u8> {
    q.name + be16_octets(q.qtype) + be16_octets(q.qclass)
}

/// A record in wire format: owner, type, class, time to live, the length of
/// the data in two octets, and the data.
pub open spec fn record_wire(r: RecordView) -> Seq<u8> {
    r.owner + be16_octets(r.rtype) + be16_octets(r.class) + be32_octets(r.ttl) + be16_octets(
        r.rdata.len() as u16,
    ) + r.rdata
}

/// Questions in wire format, one after the other.
pub open spec fn questions_wire(questions: Seq<QuestionView>) -> Seq<u8>
    decreases questions.len(),
{
    if questions.len() == 0 {
        Seq::<u8>::empty()
    } else {
        questions_wire(questions.drop_last()) + question_wire(questions.last())
    }
}

/// Records in wire format, one after the other.
pub open spec fn records_wire(records: Seq<RecordView>) -> Seq<u8>
    decreases records.len(),
{
    if records.len() == 0 {
        Seq::<u8>::empty()
    } else {
        records_wire(records.drop_last()) + record_wire(records.last())
    }
}

/// Whether records fit a section: sixteen bits can count them, each owner
/// is a name, and sixteen bits can tell the length of each record's data.
pub open spec fn records_ok(records: Seq<RecordView>) -> bool {
    records.len() <= 0xffff && forall|i: int|
        0 <= i < records.len() ==> name_ok((#[trigger] records[i]).owner) && records[i].rdata.len()
            <= 0xffff
}

/// A message in wire format: the four octets of the header's id and flags,
/// the number of questions, of answers, of authority records (none) and of
/// additional records, then the sections.
pub open spec fn assembled(
    head: Seq<u8>,
    questions: Seq<QuestionView>,
    answers: Seq<RecordView>,
    additionals: Seq<RecordView>,
) -> Seq<u8> {
    head + be16_octets(questions.len() as u16) + be16_octets(answers.len() as u16) + be16_octets(
        0,
    ) + be16_octets(additionals.len() as u16) + questions_wire(questions) + records_wire(answers)
        + records_wire(additionals)
}

/// The views of a list of records.
pub open spec fn views_of(records: Seq<Record>) -> Seq<RecordView> {
    records.map_values(|r: Record| r@)
}

/// Composes the header of a message with the setters of `Header` of the DNS
/// library, on a fresh `MessageBuilder`, and hands out the twelve octets
/// that the builder holds: id and flags as set, and four counts that are
/// zero.
#[verifier::external_body]
pub(crate) fn compose_header(h: &Header) -> (r: Vec<u8>)
    requires
        h.wf(),
    ensures
        r@ == h.octets() + seq![0u8, 0u8, 0u8, 0u8, 0u8, 0u8, 0u8, 0u8],
{
    let mut b = MessageBuilder::new_vec();
    let w = b.header_mut();
    w.set_id(h.id);
    w.set_qr(h.qr);
    w.set_opcode(Opcode::from_int(h.opcode));
    w.set_aa(h.aa);
    w.set_tc(h.tc);
    w.set_rd(h.rd);
    w.set_ra(h.ra);
    w.set_z(h.z);
    w.set_ad(h.ad);
    w.set_cd(h.cd);
    w.set_rcode(Rcode::from_int(h.rcode));
    b.finish()
}

/// Composes a query with `MessageBuilder` of the DNS library: the id and
/// flags of `head`, one question, no answers, no authority records, the
/// additional records; names go through `Dname::from_octets`, record data
/// through `UnknownRecordData`. The library composes the message exactly
/// where the name of the question is a name and the records fit a section;
/// the message is then the header, the counts and the sections in wire
/// format.
#[verifier::external_body]
pub(crate) fn compose_query(head: &[u8], q: &Question, additionals: &Vec<Record>) -> (r: Option<
    Vec<u8>,
>)
    requires
        head@.len() >= 4,
    ensures
        match r {
            Some(v) => name_ok(q.name@) && records_ok(views_of(additionals@)) && v@ == assembled(
                head@.subrange(0, 4),
                seq![q@],
                Seq::empty(),
                views_of(additionals@),
            ),
            None => !(name_ok(q.name@) && records_ok(views_of(additionals@))),
        },
{
    let mut b = MessageBuilder::new_vec();
    *b.header_mut() = *WireHeader::for_message_slice(head);
    let mut b = b.question();
    b.push((Dname::from_octets(&q.name).ok()?, Rtype::from_int(q.qtype), Class::from_int(q.qclass))).ok()?;
    let mut b = b.additional();
    for r in additionals {
        let owner = Dname::from_octets(&r.owner).ok()?;
        let data = UnknownRecordData::from_octets(Rtype::from_int(r.rtype), &r.rdata);
        b.push((owner, Class::from_int(r.class), r.ttl, data)).ok()?;
    }
    Some(b.finish())
}

/// Composes an answer with `MessageBuilder::start_answer` of the DNS
/// library, which carries over the questions of the message `from`: then
/// the id and flags of `head` are set, and the answers and the additional
/// records pushed, as `compose_query` pushes records. The library composes
/// the message exactly where `from` holds a header and the records fit
/// their sections; the message is then the header, the counts and the
/// sections in wire format, its questions those that `wire_questions`
/// names for `from`.
#[verifier::external_body]
pub(crate) fn compose_answer(
    head: &[u8],
    from: &[u8],
    answers: &Vec<Record>,
    additionals: &Vec<Record>,
) -> (r: Option<Vec<u8>>)
    requires
        head@.len() >= 4,
    ensures
        match r {
            Some(v) => from@.len() >= 12 && records_ok(views_of(answers@)) && records_ok(
                views_of(additionals@),
            ) && v@ == assembled(
                head@.subrange(0, 4),
                wire_questions(from@),
                views_of(answers@),
                views_of(additionals@),
            ),
            None => !(from@.len() >= 12 && records_ok(views_of(answers@)) && records_ok(
                views_of(additionals@),
            )),
        },
{
    let msg = WireMessage::from_octets(from).ok()?;
    let mut b = MessageBuilder::new_vec().start_answer(&msg, Rcode::NoError).ok()?;
    *b.header_mut() = *WireHeader::for_message_slice(head);
    let rec = |r: &Record| Some((Dname::from_octets(r.owner.clone()).ok()?, Class::from_int(r.class), r.ttl, UnknownRecordData::from_octets(Rtype::from_int(r.rtype), r.rdata.clone())));
    for r in answers { b.push(rec(r)?).ok()?; }
    let mut b = b.additional();
    for r in additionals { b.push(rec(r)?).ok()?; }
    Some(b.finish())
}

} // verus!
