use aetheryte::dns::cache::{cache_entry, cache_identifier, decode_entry, lookup_cache};
use aetheryte::dns::custom::{
    find_override, load_patterns, lookup_custom, make_override_record, CustomLookup,
};
use aetheryte::dns::lookup::utils::{
    is_valid_response, is_valid_response_udp, valid_stream_response, valid_udp_response,
    QueryType,
};
use aetheryte::dns::lookup::{
    lookup, lookup_doh, lookup_dot, lookup_payload, lookup_tcp, lookup_udp, plan_pool,
    transport_port, transport_timeout_ms, udp_bind_address, udp_step, upstream_endpoint,
    LookupError, PlannedQuery, UdpStep,
};
use aetheryte::dns::doh::DohError;
use aetheryte::dns::message::Message;
use aetheryte::dns::settings::{DNSServerUpstream, DNSSettings};
use aetheryte::dns::utils::{
    choose_records, clone_record, default_opt_settings, get_reply_message,
    get_request_message, get_response_message,
};
use aetheryte::dns::wire::{Question, Record};
use domain::base::iana::{Class, Opcode, Rcode};
use domain::base::opt::rfc7830::PaddingMode;
use domain::base::opt::{ClientSubnet, KeyTag, Opt, Padding, TcpKeepalive};
use domain::base::{Dname, Message as WireMessage, MessageBuilder, Rtype};
use domain::rdata::{Aaaa, AllRecordData, Cname, A};

fn name(text: &str) -> Dname<Vec<u8>> {
    Dname::vec_from_str(text).unwrap()
}

/// A client's query for one name, without additional records.
fn bare_query(id: u16, qname: &str, qtype: Rtype) -> Vec<u8> {
    let mut b = MessageBuilder::new_vec();
    b.header_mut().set_id(id);
    b.header_mut().set_rd(true);
    let mut b = b.question();
    b.push((name(qname), qtype)).unwrap();
    b.finish()
}

/// A client's query that brings its own OPT record.
fn edns_query(id: u16, qname: &str, qtype: Rtype, payload: u16) -> Vec<u8> {
    let mut b = MessageBuilder::new_vec();
    b.header_mut().set_id(id);
    b.header_mut().set_rd(true);
    b.header_mut().set_ad(true);
    let mut b = b.question();
    b.push((name(qname), qtype)).unwrap();
    let mut b = b.additional();
    b.opt(|opt| {
        opt.set_udp_payload_size(payload);
        opt.push(&TcpKeepalive::new(7))
    })
    .unwrap();
    b.finish()
}

/// An upstream's answer with address records and an OPT record.
fn answer(id: u16, qname: &str, addrs: &[[u8; 4]], dnssec_ok: bool, with_opt: bool) -> Vec<u8> {
    let mut b = MessageBuilder::new_vec();
    b.header_mut().set_id(id);
    b.header_mut().set_qr(true);
    b.header_mut().set_rd(true);
    b.header_mut().set_ra(true);
    let mut b = b.question();
    b.push((name(qname), Rtype::A)).unwrap();
    let mut b = b.answer();
    for a in addrs {
        b.push((name(qname), Class::In, 300, A::from_octets(a[0], a[1], a[2], a[3])))
            .unwrap();
    }
    let mut b = b.additional();
    if with_opt {
        b.opt(|opt| {
            opt.set_dnssec_ok(dnssec_ok);
            opt.set_udp_payload_size(1232);
            Ok(())
        })
        .unwrap();
    }
    b.finish()
}

/// The query that the DNS library's builder makes for upstreams.
fn expected_request(origin: &[u8]) -> Vec<u8> {
    let origin = WireMessage::from_octets(origin.to_vec()).unwrap();
    let mut b = MessageBuilder::new_vec();
    b.header_mut().set_opcode(Opcode::Query);
    b.header_mut().set_id(origin.header().id());
    b.header_mut().set_rd(true);
    b.header_mut().set_aa(true);
    b.header_mut().set_ra(true);
    let mut b = b.question();
    b.push(origin.first_question().unwrap()).unwrap();
    let mut b = b.additional();
    let mut copied = false;
    for record in origin.additional().unwrap() {
        if let Ok(Some(opt)) = record.unwrap().into_record::<Opt<&[u8]>>() {
            b.push(&opt).unwrap();
            copied = true;
        }
    }
    if !copied {
        b.opt(|opt| {
            opt.set_dnssec_ok(true);
            opt.set_udp_payload_size(1024);
            opt.set_version(0);
            opt.push(&ClientSubnet::new(24, 0, "122.233.242.188".parse().unwrap()))?;
            opt.push(&ClientSubnet::new(64, 0, "240e:390:e5b:8280::1".parse().unwrap()))?;
            opt.push(&Padding::new(31, PaddingMode::Zero))?;
            opt.push(&TcpKeepalive::new(20))?;
            opt.push(&KeyTag::new(&[1u8, 2, 3, 82]))
        })
        .unwrap();
    }
    b.finish()
}

/// The reply that the DNS library's builder makes from a message.
fn expected_response(id: u16, origin: &[u8]) -> Vec<u8> {
    let origin = WireMessage::from_octets(origin.to_vec()).unwrap();
    let mut b = MessageBuilder::new_vec().start_answer(&origin, Rcode::NoError).unwrap();
    let from = origin.header();
    let h = b.header_mut();
    h.set_id(id);
    h.set_aa(from.aa());
    h.set_tc(from.tc());
    h.set_rd(from.rd());
    h.set_ra(from.ra());
    h.set_ad(from.ad());
    h.set_cd(true);
    h.set_qr(true);
    for item in origin.answer().unwrap().limit_to::<AllRecordData<_, _>>() {
        b.push(item.unwrap()).unwrap();
    }
    let mut b = b.additional();
    for item in origin.additional().unwrap().limit_to::<AllRecordData<_, _>>() {
        b.push(item.unwrap()).unwrap();
    }
    b.finish()
}

fn message(octets: Vec<u8>) -> Message {
    Message::from_octets(octets).unwrap()
}

#[test]
fn request_for_a_bare_query_gets_the_default_opt() {
    let origin = bare_query(0x1a2b, "example.cn", Rtype::A);
    let request = get_request_message(&message(origin.clone())).unwrap().into_octets();
    assert_eq!(request, expected_request(&origin));
    // id, then QR=0 opcode=0 AA=1 TC=0 RD=1, then RA=1 and rcode 0.
    assert_eq!(&request[..4], &[0x1a, 0x2b, 0x05, 0x80]);
    // one question, no answers, no authorities, one additional record.
    assert_eq!(&request[4..12], &[0, 1, 0, 0, 0, 0, 0, 1]);
}

#[test]
fn default_opt_holds_the_configured_constants() {
    let origin = bare_query(7, "a.example", Rtype::A);
    let request = get_request_message(&message(origin)).unwrap().into_octets();
    let parsed = WireMessage::from_octets(request).unwrap();
    let opt = parsed.opt().unwrap();
    assert!(opt.dnssec_ok());
    assert_eq!(opt.udp_payload_size(), 1024);
    assert_eq!(opt.version(), 0);
    let subnets: Vec<ClientSubnet> = opt.iter::<ClientSubnet>().map(|o| o.unwrap()).collect();
    assert_eq!(subnets.len(), 2);
    assert_eq!(subnets[0].source_prefix_len(), 24);
    assert_eq!(subnets[0].scope_prefix_len(), 0);
    assert_eq!(subnets[0].addr().to_string(), "122.233.242.0");
    assert_eq!(subnets[1].source_prefix_len(), 64);
    assert_eq!(subnets[1].scope_prefix_len(), 0);
    assert_eq!(subnets[1].addr().to_string(), "240e:390:e5b:8280::");
    let padding: Vec<Padding> = opt.iter::<Padding>().map(|o| o.unwrap()).collect();
    assert_eq!(padding.len(), 1);
    assert_eq!(padding[0].len(), 31);
    let keepalive: Vec<TcpKeepalive> = opt.iter::<TcpKeepalive>().map(|o| o.unwrap()).collect();
    assert_eq!(keepalive.len(), 1);
    assert_eq!(keepalive[0].timeout(), 20);
    let s = default_opt_settings();
    assert_eq!(s.v4_addr.to_be_bytes(), [122, 233, 242, 188]);
    assert_eq!(s.key_tag.to_be_bytes(), [1, 2, 3, 82]);
}

#[test]
fn request_copies_the_opt_record_of_the_query() {
    let origin = edns_query(0xbeef, "www.example.org", Rtype::Aaaa, 4096);
    let request = get_request_message(&message(origin.clone())).unwrap().into_octets();
    assert_eq!(request, expected_request(&origin));
    let parsed = WireMessage::from_octets(request).unwrap();
    let opt = parsed.opt().unwrap();
    assert_eq!(opt.udp_payload_size(), 4096);
    assert!(!opt.dnssec_ok());
    assert_eq!(parsed.header().id(), 0xbeef);
    assert!(!parsed.header().ad());
}

#[test]
fn request_carries_only_the_first_question() {
    let mut b = MessageBuilder::new_vec();
    b.header_mut().set_id(9);
    let mut b = b.question();
    b.push((name("one.example"), Rtype::A)).unwrap();
    b.push((name("two.example"), Rtype::Mx)).unwrap();
    let origin = b.finish();
    let request = get_request_message(&message(origin)).unwrap().into_octets();
    let parsed = WireMessage::from_octets(request).unwrap();
    assert_eq!(parsed.header_counts().qdcount(), 1);
    let q = parsed.first_question().unwrap();
    assert_eq!(q.qname().to_string(), "one.example");
    assert_eq!(q.qtype(), Rtype::A);
}

#[test]
fn no_request_without_a_question() {
    assert!(get_request_message(&message(vec![0u8; 12])).is_none());
    // One question announced, none there.
    let mut octets = vec![0u8; 12];
    octets[5] = 1;
    assert!(get_request_message(&message(octets)).is_none());
}

#[test]
fn no_request_when_the_additional_section_cannot_be_reached() {
    let mut origin = bare_query(3, "example.com", Rtype::A);
    origin[7] = 1; // one answer announced, none there
    assert!(get_request_message(&message(origin)).is_none());
}

#[test]
fn additional_record_that_does_not_parse_is_passed_over() {
    let plain = bare_query(3, "example.com", Rtype::A);
    let mut origin = plain.clone();
    origin[11] = 1; // one additional record announced, none there
    let request = get_request_message(&message(origin)).unwrap().into_octets();
    assert_eq!(request, expected_request(&plain));
}

#[test]
fn response_copies_answers_and_additionals_under_the_given_id() {
    let upstream = answer(0x0102, "example.cn", &[[114, 114, 114, 114], [1, 2, 3, 4]], true, true);
    let reply = get_response_message(0x7777, &message(upstream.clone()), None)
        .unwrap()
        .into_octets();
    assert_eq!(reply, expected_response(0x7777, &upstream));
    let parsed = WireMessage::from_octets(reply).unwrap();
    assert_eq!(parsed.header().id(), 0x7777);
    assert!(parsed.header().qr());
    assert!(parsed.header().cd());
    assert!(parsed.header().rd());
    assert!(parsed.header().ra());
    assert_eq!(parsed.header().rcode(), Rcode::NoError);
    assert_eq!(parsed.header_counts().ancount(), 2);
    assert_eq!(parsed.header_counts().arcount(), 1);
    assert_eq!(parsed.first_question().unwrap().qname().to_string(), "example.cn");
}

#[test]
fn response_expands_compressed_names() {
    // A reply whose answer names point back into the question.
    let mut octets = vec![0x00, 0x05, 0x81, 0x80, 0, 1, 0, 2, 0, 0, 0, 0];
    octets.extend_from_slice(&[3, b'w', b'w', b'w', 7]);
    octets.extend_from_slice(b"example");
    octets.extend_from_slice(&[3, b'c', b'o', b'm', 0, 0, 1, 0, 1]);
    // www.example.com CNAME example.com (pointer to offset 16)
    octets.extend_from_slice(&[0xc0, 12, 0, 5, 0, 1, 0, 0, 0, 60, 0, 2, 0xc0, 16]);
    // example.com A 93.184.216.34
    octets.extend_from_slice(&[0xc0, 16, 0, 1, 0, 1, 0, 0, 0, 60, 0, 4, 93, 184, 216, 34]);
    let reply = get_response_message(5, &message(octets.clone()), None).unwrap().into_octets();
    assert_eq!(reply, expected_response(5, &octets));
    let parsed = WireMessage::from_octets(reply).unwrap();
    let answers: Vec<_> = parsed
        .answer()
        .unwrap()
        .limit_to::<AllRecordData<_, _>>()
        .map(|r| r.unwrap())
        .collect();
    assert_eq!(answers.len(), 2);
    assert_eq!(answers[0].owner().to_string(), "www.example.com");
    assert_eq!(answers[0].data().to_string(), "example.com.");
    assert_eq!(answers[1].data().to_string(), "93.184.216.34");
}

#[test]
fn response_takes_forced_answers() {
    let origin = bare_query(0x4242, "host.example.lan", Rtype::A);
    let record = Record {
        owner: name("host.example.lan").into_octets(),
        rtype: 1,
        class: 1,
        ttl: 120,
        rdata: vec![10, 0, 0, 5],
    };
    let reply = get_response_message(0x4242, &message(origin), Some(vec![record]))
        .unwrap()
        .into_octets();
    let parsed = WireMessage::from_octets(reply).unwrap();
    assert_eq!(parsed.header().id(), 0x4242);
    assert!(parsed.header().qr());
    let answers: Vec<_> =
        parsed.answer().unwrap().limit_to::<A>().map(|r| r.unwrap()).collect();
    assert_eq!(answers.len(), 1);
    assert_eq!(answers[0].owner().to_string(), "host.example.lan");
    assert_eq!(answers[0].class(), Class::In);
    assert_eq!(answers[0].ttl(), 120);
    assert_eq!(answers[0].data().addr().octets(), [10, 0, 0, 5]);
}

#[test]
fn no_response_from_a_message_with_a_broken_answer() {
    let mut upstream = answer(1, "example.cn", &[[1, 2, 3, 4]], true, false);
    let len = upstream.len();
    upstream.truncate(len - 2);
    assert!(get_response_message(1, &message(upstream), None).is_none());
}

fn opt_record() -> Record {
    Record { owner: vec![0], rtype: 41, class: 512, ttl: 0x8000, rdata: vec![] }
}

fn a_record() -> Record {
    Record { owner: vec![0], rtype: 1, class: 1, ttl: 5, rdata: vec![1, 2, 3, 4] }
}

fn same(a: &Record, b: &Record) -> bool {
    a.owner == b.owner && a.rtype == b.rtype && a.class == b.class && a.ttl == b.ttl
        && a.rdata == b.rdata
}

#[test]
fn record_copy_holds_the_same_values() {
    let r = Record { owner: vec![1, b'a', 0], rtype: 0x0102, class: 1, ttl: 0x01020304, rdata: vec![9, 8, 7] };
    assert!(same(&clone_record(&r), &r));
}

#[test]
fn section_keeps_only_opt_records_when_asked() {
    let items = vec![Some(a_record()), None, Some(opt_record()), Some(a_record())];
    let chosen = choose_records(&items, true).unwrap();
    assert_eq!(chosen.len(), 1);
    assert!(same(&chosen[0], &opt_record()));
    assert_eq!(choose_records(&vec![None, Some(a_record())], true).unwrap().len(), 0);
}

#[test]
fn section_is_spoilt_by_an_item_that_did_not_parse() {
    let items = vec![Some(a_record()), None, Some(opt_record())];
    assert!(choose_records(&items, false).is_none());
    let items = vec![Some(a_record()), Some(opt_record())];
    let chosen = choose_records(&items, false).unwrap();
    assert_eq!(chosen.len(), 2);
    assert!(same(&chosen[0], &a_record()));
    assert!(same(&chosen[1], &opt_record()));
}

#[test]
fn record_wire_format_is_owner_type_class_ttl_length_data() {
    let origin = bare_query(1, "a", Rtype::A);
    let r = Record { owner: vec![1, b'b', 0], rtype: 0x0102, class: 3, ttl: 0x01020304, rdata: vec![9, 8, 7] };
    let reply = get_response_message(1, &message(origin.clone()), Some(vec![r]))
        .unwrap()
        .into_octets();
    assert_eq!(&reply[4..12], &[0, 1, 0, 1, 0, 0, 0, 0]);
    assert_eq!(&reply[12..origin.len()], &origin[12..]);
    assert_eq!(
        &reply[origin.len()..],
        &[1, b'b', 0, 0x01, 0x02, 0, 3, 0x01, 0x02, 0x03, 0x04, 0, 3, 9, 8, 7]
    );
}

#[test]
fn no_response_with_data_too_long_for_its_length_field() {
    let origin = bare_query(1, "a", Rtype::A);
    let long = Record { owner: vec![0], rtype: 16, class: 1, ttl: 0, rdata: vec![0; 65536] };
    assert!(get_response_message(1, &message(origin.clone()), Some(vec![a_record(), long])).is_none());
    let fits = Record { owner: vec![0], rtype: 16, class: 1, ttl: 0, rdata: vec![0; 65535] };
    let reply = get_response_message(1, &message(origin.clone()), Some(vec![fits]))
        .unwrap()
        .into_octets();
    assert_eq!(reply.len(), origin.len() + 11 + 65535);
    assert_eq!(&reply[origin.len() + 9..origin.len() + 11], &[0xff, 0xff]);
}

#[test]
fn no_response_with_an_owner_that_is_no_name() {
    let origin = bare_query(1, "a", Rtype::A);
    for owner in [vec![], vec![3, b'a', 0], vec![1, b'a'], vec![0, 0], vec![0xc0, 12]] {
        let r = Record { owner, rtype: 1, class: 1, ttl: 0, rdata: vec![1, 2, 3, 4] };
        assert!(get_response_message(1, &message(origin.clone()), Some(vec![r])).is_none());
    }
}

#[test]
fn reply_carries_id_and_question_of_the_query() {
    // The upstream answered under another id and spelt the name otherwise.
    let upstream = answer(0x9999, "EXAMPLE.cn", &[[114, 114, 114, 114]], true, true);
    let query = bare_query(0x1234, "example.cn", Rtype::A);
    let reply = get_reply_message(&message(query.clone()), &message(upstream.clone()))
        .unwrap()
        .into_octets();
    let parsed = WireMessage::from_octets(reply.clone()).unwrap();
    assert_eq!(parsed.header().id(), 0x1234);
    assert!(parsed.header().qr());
    assert!(parsed.header().cd());
    assert!(parsed.header().ra());
    assert_eq!(&reply[12..query.len()], &query[12..]);
    assert_eq!(parsed.first_question().unwrap().qname().to_string(), "example.cn");
    // Answers and additional records are the upstream's.
    assert_eq!(&reply[query.len()..], &upstream[query.len()..]);
    assert_eq!(parsed.header_counts().ancount(), 1);
    assert_eq!(parsed.header_counts().arcount(), 1);
}

#[test]
fn stream_validity_needs_additional_and_answer_or_authority() {
    assert!(valid_stream_response(true, None, None, None));
    assert!(valid_stream_response(false, Some(1), Some(1), None));
    assert!(valid_stream_response(false, Some(1), Some(0), Some(2)));
    assert!(!valid_stream_response(false, Some(0), Some(1), Some(1)));
    assert!(!valid_stream_response(false, None, Some(1), Some(1)));
    assert!(!valid_stream_response(false, Some(1), Some(0), Some(0)));
    assert!(!valid_stream_response(false, Some(1), None, None));
}

#[test]
fn udp_validity_also_needs_dnssec_ok() {
    assert!(valid_udp_response(true, None, None, None, None));
    assert!(valid_udp_response(false, Some(1), Some(1), None, Some(true)));
    assert!(!valid_udp_response(false, Some(1), Some(1), None, Some(false)));
    assert!(!valid_udp_response(false, Some(1), Some(1), None, None));
    assert!(!valid_udp_response(false, Some(0), Some(1), None, Some(true)));
}

#[test]
fn udp_validity_filter() {
    let poisoned = answer(1, "twitter.com", &[[127, 0, 0, 1]], false, false);
    let no_do = answer(1, "twitter.com", &[[127, 0, 0, 1]], false, true);
    let good = answer(1, "twitter.com", &[[104, 244, 42, 1]], true, true);
    assert!(!is_valid_response_udp(&message(poisoned.clone())));
    assert!(!is_valid_response_udp(&message(no_do.clone())));
    assert!(is_valid_response_udp(&message(good.clone())));
    // The transport keeps receiving after the crafted reply; the valid one wins.
    assert!(matches!(udp_step(poisoned.clone()), UdpStep::KeepReceiving));
    assert!(matches!(udp_step(no_do.clone()), UdpStep::KeepReceiving));
    assert!(matches!(udp_step(vec![1, 2, 3]), UdpStep::KeepReceiving));
    assert!(matches!(udp_step(good.clone()), UdpStep::Accept(
        aetheryte::dns::lookup::utils::QueryResponse::UDP(ref m)) if m.as_octets() == &good));
    assert_eq!(lookup_udp(poisoned).err(), Some(LookupError::Invalid));
    assert_eq!(lookup_udp(no_do.clone()).err(), Some(LookupError::Invalid));
    let won = lookup_udp(good.clone()).ok().unwrap();
    assert!(matches!(won, aetheryte::dns::lookup::utils::QueryResponse::UDP(ref m) if m.as_octets() == &good));
    // Over a stream the OPT record is not asked for, an additional record is.
    assert!(is_valid_response(&message(no_do)));
}

#[test]
fn error_replies_are_valid_as_they_are() {
    let mut octets = bare_query(1, "nx.example", Rtype::A);
    octets[2] |= 0x80;
    octets[3] = 3;
    assert!(is_valid_response_udp(&message(octets.clone())));
    assert!(is_valid_response(&message(octets)));
}

#[test]
fn reply_without_additional_records_is_not_valid() {
    let plain = answer(1, "example.com", &[[1, 2, 3, 4]], false, false);
    assert!(!is_valid_response(&message(plain.clone())));
    assert_eq!(
        lookup_tcp(&{
            let mut framed = vec![0, plain.len() as u8];
            framed.extend_from_slice(&plain);
            framed
        })
        .err(),
        Some(LookupError::Invalid)
    );
}

fn framed(body: &[u8]) -> Vec<u8> {
    let mut v = vec![(body.len() >> 8) as u8, body.len() as u8];
    v.extend_from_slice(body);
    v
}

#[test]
fn stream_transports_strip_the_length_prefix() {
    let good = answer(1, "example.com", &[[1, 2, 3, 4]], true, true);
    let r = lookup_tcp(&framed(&good)).ok().unwrap();
    assert!(matches!(r, aetheryte::dns::lookup::utils::QueryResponse::TCP(ref m) if m.as_octets() == &good));
    let r = lookup_dot(&framed(&good)).ok().unwrap();
    assert!(matches!(r, aetheryte::dns::lookup::utils::QueryResponse::DoT(ref m) if m.as_octets() == &good));
    assert_eq!(lookup_tcp(&[0]).err(), Some(LookupError::Short));
    assert_eq!(lookup_dot(&[0, 5, 1, 2, 3, 4, 5]).err(), Some(LookupError::Short));
    assert_eq!(lookup_udp(vec![0; 11]).err(), Some(LookupError::Short));
}

#[test]
fn doh_transport_takes_the_body_of_a_200_reply() {
    let good = answer(1, "example.com", &[[1, 2, 3, 4]], false, true);
    let mut packet = format!(
        "HTTP/1.1 200 OK\r\nContent-Type: application/dns-message\r\nContent-Length: {}\r\n\r\n",
        good.len()
    )
    .into_bytes();
    packet.extend_from_slice(&good);
    let r = lookup_doh(&packet).ok().unwrap();
    assert!(matches!(r, aetheryte::dns::lookup::utils::QueryResponse::DoH(ref m) if m.as_octets() == &good));
    assert_eq!(
        lookup_doh(b"HTTP/1.1 500 Oops\r\n\r\n").err(),
        Some(LookupError::Http(DohError::Status))
    );
    assert_eq!(
        lookup_doh(b"HTTP/1.1 200 OK\r\n\r\n").err(),
        Some(LookupError::Http(DohError::MissingLength))
    );
    assert_eq!(
        lookup_doh(b"HTTP/1.1 200 OK\r\nContent-Length: x\r\n\r\n").err(),
        Some(LookupError::Http(DohError::BadLength))
    );
    assert_eq!(
        lookup_doh(b"HTTP/1.1 200 OK\r\nContent-Length: 3\r\n\r\nabc").err(),
        Some(LookupError::Short)
    );
}

#[test]
fn lookup_dispatches_on_the_transport() {
    let good = answer(1, "example.com", &[[1, 2, 3, 4]], true, true);
    assert!(lookup(QueryType::UDP, good.clone()).is_ok());
    assert!(lookup(QueryType::TCP, framed(&good)).is_ok());
    assert!(lookup(QueryType::DoT, framed(&good)).is_ok());
    assert_eq!(lookup(QueryType::DoH, good.clone()).err(), Some(LookupError::Http(DohError::Status)));
    assert_eq!(lookup(QueryType::Custom, good.clone()).err(), Some(LookupError::NotATransport));
    assert_eq!(lookup(QueryType::Cache, good).err(), Some(LookupError::NotATransport));
}

fn upstream(address: &str, hostname: &str, flags: [bool; 4], is_china: bool) -> DNSServerUpstream {
    DNSServerUpstream {
        address: address.to_string(),
        hostname: hostname.to_string(),
        enable_udp: flags[0],
        enable_tcp: flags[1],
        enable_dot: flags[2],
        enable_doh: flags[3],
        is_china,
    }
}

#[test]
fn payload_depends_on_the_transport() {
    let q = bare_query(1, "example.com", Rtype::A);
    let m = message(q.clone());
    let u = upstream("8.8.8.8", "dns.google", [true; 4], false);
    assert_eq!(lookup_payload(QueryType::UDP, &m, &u), Some(q.clone()));
    assert_eq!(lookup_payload(QueryType::TCP, &m, &u), Some(framed(&q)));
    assert_eq!(lookup_payload(QueryType::DoT, &m, &u), Some(framed(&q)));
    let doh = lookup_payload(QueryType::DoH, &m, &u).unwrap();
    let head = format!(
        "POST /dns-query HTTP/1.1\r\nHost: dns.google\r\nContent-Type: application/dns-message\r\nContent-Length: {}\r\n\r\n",
        q.len()
    );
    assert_eq!(&doh[..head.len()], head.as_bytes());
    assert_eq!(&doh[head.len()..], &q[..]);
    assert_eq!(lookup_payload(QueryType::Cache, &m, &u), None);
    assert_eq!(lookup_payload(QueryType::Custom, &m, &u), None);
}

#[test]
fn transports_have_their_ports_and_timeouts() {
    assert_eq!(transport_port(QueryType::UDP), Some(53));
    assert_eq!(transport_port(QueryType::TCP), Some(53));
    assert_eq!(transport_port(QueryType::DoT), Some(853));
    assert_eq!(transport_port(QueryType::DoH), Some(443));
    assert_eq!(transport_port(QueryType::Cache), None);
    assert_eq!(transport_timeout_ms(QueryType::UDP), Some(2000));
    assert_eq!(transport_timeout_ms(QueryType::TCP), Some(2000));
    assert_eq!(transport_timeout_ms(QueryType::DoT), Some(1000));
    assert_eq!(transport_timeout_ms(QueryType::DoH), Some(1000));
    assert_eq!(transport_timeout_ms(QueryType::Custom), None);
    assert_eq!(aetheryte::dns::lookup::POOL_TIMEOUT_MS, 5000);
}

#[test]
fn endpoints_follow_the_family_of_the_address() {
    assert_eq!(upstream_endpoint("114.114.114.114", QueryType::UDP), Some("114.114.114.114:53".to_string()));
    assert_eq!(upstream_endpoint("1.1.1.1", QueryType::DoT), Some("1.1.1.1:853".to_string()));
    assert_eq!(upstream_endpoint("2001:4860:4860::8888", QueryType::DoH), Some("[2001:4860:4860::8888]:443".to_string()));
    assert_eq!(upstream_endpoint("dns.google", QueryType::UDP), None);
    assert_eq!(upstream_endpoint("1.1.1.1", QueryType::Cache), None);
    assert_eq!(udp_bind_address("8.8.8.8"), Some("0.0.0.0:0"));
    assert_eq!(udp_bind_address("::1"), Some("[::]:0"));
    assert_eq!(udp_bind_address("nonsense"), None);
}

#[test]
fn pools_list_enabled_transports_in_order() {
    let upstreams = vec![
        upstream("114.114.114.114", "a", [true, true, false, false], true),
        upstream("8.8.8.8", "dns.google", [false, false, true, true], false),
        upstream("9.9.9.9", "quad9", [false, false, false, false], false),
        upstream("223.5.5.5", "alidns", [true, false, false, true], true),
        upstream("1.1.1.1", "one", [true, true, true, true], false),
    ];
    let q = |upstream, transport| PlannedQuery { upstream, transport };
    assert_eq!(
        plan_pool(&upstreams, true),
        vec![
            q(0, QueryType::UDP),
            q(0, QueryType::TCP),
            q(3, QueryType::UDP),
            q(3, QueryType::DoH),
        ]
    );
    assert_eq!(
        plan_pool(&upstreams, false),
        vec![
            q(1, QueryType::DoT),
            q(1, QueryType::DoH),
            q(4, QueryType::UDP),
            q(4, QueryType::TCP),
            q(4, QueryType::DoT),
            q(4, QueryType::DoH),
        ]
    );
    assert_eq!(plan_pool(&vec![], true), vec![]);
}

#[test]
fn cache_entry_is_reply_then_flag() {
    assert_eq!(cache_entry(&[1, 2, 3], true), vec![1, 2, 3, 1]);
    assert_eq!(cache_entry(&[1, 2, 3], false), vec![1, 2, 3, 0]);
    assert_eq!(decode_entry(vec![1, 2, 3, 1]), Some((vec![1, 2, 3], true)));
    assert_eq!(decode_entry(vec![1, 2, 3, 0]), Some((vec![1, 2, 3], false)));
    assert_eq!(decode_entry(vec![9]), Some((vec![], true)));
    assert_eq!(decode_entry(vec![]), None);
    for flag in [true, false] {
        assert_eq!(decode_entry(cache_entry(&[7, 7], flag)), Some((vec![7, 7], flag)));
    }
}

#[test]
fn cache_identifier_is_name_type_class() {
    let q = Question { qname: "Example.CN".to_string(), name: vec![], qtype: 1, qclass: 1 };
    assert_eq!(cache_identifier(&q), "Example.CN|A|IN");
    let q = Question { qname: "example.org".to_string(), name: vec![], qtype: 28, qclass: 3 };
    assert_eq!(cache_identifier(&q), "example.org|AAAA|CH");
    let q = Question { qname: "x".to_string(), name: vec![], qtype: 65280, qclass: 1 };
    assert_eq!(cache_identifier(&q), format!("x|{}|{}", Rtype::from_int(65280), Class::In));
}

#[test]
fn cache_hit_is_rebuilt_under_the_new_id() {
    let stored = answer(0x1111, "example.cn", &[[114, 114, 114, 114]], true, true);
    let entry = cache_entry(&stored, true);
    let later = message(bare_query(0x2222, "example.cn", Rtype::A));
    let (response, is_china) = lookup_cache(&later, entry).unwrap();
    assert!(is_china);
    let (reply, kind) = aetheryte::dns::lookup::utils::get_message_from_response(response);
    assert_eq!(kind, QueryType::Cache);
    assert_eq!(reply.into_octets(), expected_response(0x2222, &stored));
}

#[test]
fn cache_miss_and_broken_entries_give_nothing() {
    let later = message(bare_query(0x2222, "example.cn", Rtype::A));
    assert!(lookup_cache(&later, vec![]).is_none());
    assert!(lookup_cache(&later, vec![1]).is_none());
    assert!(lookup_cache(&later, vec![0; 12]).is_none());
}

fn settings(custom_hosts: Vec<(&str, &str)>) -> DNSSettings {
    DNSSettings {
        listen_ip: "127.0.0.1".to_string(),
        listen_port: 5353,
        redis_server: None,
        cache_expire: None,
        query_timeout: 5000,
        upstreams: vec![],
        custom_hosts: custom_hosts
            .into_iter()
            .map(|(p, a)| (p.to_string(), a.to_string()))
            .collect(),
    }
}

#[test]
fn patterns_that_do_not_compile_are_left_out() {
    let s = settings(vec![("*.example.lan", "10.0.0.5"), ("a[", "10.0.0.6"), ("b**c", "10.0.0.7"), ("?.lan", "::1")]);
    assert_eq!(
        load_patterns(&s),
        vec![
            ("*.example.lan".to_string(), "10.0.0.5".to_string()),
            ("?.lan".to_string(), "::1".to_string()),
        ]
    );
}

#[test]
fn first_matching_rule_wins() {
    let rules = vec![
        ("*.example.lan".to_string(), "10.0.0.5".to_string()),
        ("host.*".to_string(), "10.0.0.6".to_string()),
        ("nas".to_string(), "10.0.0.7".to_string()),
    ];
    assert_eq!(find_override(&rules, "host.example.lan"), Some(0));
    assert_eq!(find_override(&rules, "host.other"), Some(1));
    assert_eq!(find_override(&rules, "nas"), Some(2));
    assert_eq!(find_override(&rules, "example.lan"), None);
    assert_eq!(find_override(&vec![], "nas"), None);
}

#[test]
fn override_record_follows_the_kind_of_the_address() {
    let r = make_override_record("host.example.lan", "10.0.0.5").unwrap();
    assert_eq!(r.owner, name("host.example.lan").into_octets());
    assert_eq!((r.rtype, r.class, r.ttl), (1, 1, 120));
    assert_eq!(r.rdata, vec![10, 0, 0, 5]);
    let r = make_override_record("host.example.lan", "fd00::5").unwrap();
    assert_eq!((r.rtype, r.class, r.ttl), (28, 1, 120));
    assert_eq!(r.rdata, vec![0xfd, 0, 0, 0, 0, 0, 0, 0, 0, 0, 0, 0, 0, 0, 0, 5]);
    assert!(make_override_record("host.example.lan", "10.0.0").is_none());
    assert!(make_override_record("bad..name", "10.0.0.5").is_none());
}

#[test]
fn override_hit() {
    let s = settings(vec![("*.example.lan", "10.0.0.5")]);
    let rules = load_patterns(&s);
    let query = message(bare_query(0x3c4d, "host.example.lan", Rtype::A));
    let found = lookup_custom(&query, &rules, &"host.example.lan".to_string());
    let reply = match found {
        CustomLookup::Answer(response) => {
            let (reply, kind) = aetheryte::dns::lookup::utils::get_message_from_response(response);
            assert_eq!(kind, QueryType::Custom);
            reply.into_octets()
        }
        _ => panic!("the rule must answer"),
    };
    let parsed = WireMessage::from_octets(reply).unwrap();
    assert_eq!(parsed.header().id(), 0x3c4d);
    assert!(parsed.header().qr());
    let answers: Vec<_> = parsed
        .answer()
        .unwrap()
        .limit_to::<AllRecordData<_, _>>()
        .map(|r| r.unwrap())
        .collect();
    assert_eq!(answers.len(), 1);
    assert_eq!(format!("{}.", answers[0].owner()), "host.example.lan.");
    assert_eq!(answers[0].class(), Class::In);
    assert_eq!(answers[0].ttl(), 120);
    assert_eq!(answers[0].rtype(), Rtype::A);
    assert_eq!(answers[0].data().to_string(), "10.0.0.5");
    assert_eq!(parsed.first_question().unwrap().qname().to_string(), "host.example.lan");
}

#[test]
fn override_with_ipv6_address_answers_with_aaaa() {
    let rules = vec![("*.lan".to_string(), "fd00::1".to_string())];
    let query = message(bare_query(1, "nas.lan", Rtype::Aaaa));
    match lookup_custom(&query, &rules, &"nas.lan".to_string()) {
        CustomLookup::Answer(response) => {
            let (reply, _) = aetheryte::dns::lookup::utils::get_message_from_response(response);
            let parsed = WireMessage::from_octets(reply.into_octets()).unwrap();
            let answers: Vec<_> =
                parsed.answer().unwrap().limit_to::<Aaaa>().map(|r| r.unwrap()).collect();
            assert_eq!(answers.len(), 1);
            assert_eq!(answers[0].data().to_string(), "fd00::1");
        }
        _ => panic!("the rule must answer"),
    }
}

#[test]
fn override_without_match_or_with_bad_address() {
    let rules = vec![("*.lan".to_string(), "not-an-address".to_string())];
    let query = message(bare_query(1, "nas.lan", Rtype::A));
    assert!(matches!(
        lookup_custom(&query, &rules, &"nas.lan".to_string()),
        CustomLookup::Unusable
    ));
    assert!(matches!(
        lookup_custom(&query, &rules, &"nas.wan".to_string()),
        CustomLookup::NoMatch
    ));
}

#[test]
fn cname_records_survive_the_rebuild() {
    let mut b = MessageBuilder::new_vec();
    b.header_mut().set_id(3);
    b.header_mut().set_qr(true);
    let mut b = b.question();
    b.push((name("www.example.com"), Rtype::A)).unwrap();
    let mut b = b.answer();
    b.push((name("www.example.com"), Class::In, 30, Cname::new(name("example.com")))).unwrap();
    b.push((name("example.com"), Class::In, 30, A::from_octets(5, 6, 7, 8))).unwrap();
    let upstream = b.finish();
    let reply = get_response_message(8, &message(upstream.clone()), None).unwrap().into_octets();
    assert_eq!(reply, expected_response(8, &upstream));
}
