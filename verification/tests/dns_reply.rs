use hickory_proto::op::{Message, MessageType, Query, ResponseCode};
use hickory_proto::rr::rdata::{A, NS};
use hickory_proto::rr::{Name, RData, Record, RecordType};
use microlane::dns::reply::{build_reply, count_outcome, outcome_counter, plan_reply_code, read_request, reply_bytes, DnsError};
use microlane::dns::response::RecordContent;
use microlane::metrics::{Counter, Metrics};
use microlane::upstream_resolver::UpstreamNameServer;
use std::str::FromStr;

fn request_bytes(id: u16, qname: Option<&str>) -> Vec<u8> {
    let mut m = Message::new();
    m.set_id(id);
    if let Some(n) = qname {
        m.add_query(Query::query(Name::from_str(n).unwrap(), RecordType::AAAA));
    }
    m.to_vec().unwrap()
}

#[test]
fn reads_the_id_and_first_question() {
    let req = read_request(&request_bytes(42, Some("www.example.com."))).unwrap();
    assert_eq!(req.id, 42);
    let q = req.question.unwrap();
    assert_eq!(q.qname, "www.example.com.");
    assert_eq!(q.qtype, 28);
}

#[test]
fn a_request_without_question_is_read_as_such() {
    let req = read_request(&request_bytes(7, None)).unwrap();
    assert_eq!(req.id, 7);
    assert!(req.question.is_none());
}

#[test]
fn garbage_is_not_a_request() {
    assert!(matches!(read_request(&[1, 2, 3]), Err(DnsError::Wire(_))));
}

#[test]
fn reply_codes() {
    assert_eq!(plan_reply_code(false, None), 1);
    assert_eq!(plan_reply_code(false, Some(0)), 1);
    assert_eq!(plan_reply_code(true, None), 2);
    assert_eq!(plan_reply_code(true, Some(3)), 3);
    assert_eq!(outcome_counter(1), Counter::QueriesFormerr);
    assert_eq!(outcome_counter(2), Counter::QueriesServfail);
    assert_eq!(outcome_counter(0), Counter::QueriesOk);
    assert_eq!(outcome_counter(3), Counter::QueriesOk);
}

#[test]
fn a_request_without_question_gets_format_error() {
    let reply = build_reply(9, None, None);
    assert_eq!(reply.code, 1);
    let m = Message::from_vec(&reply_bytes(&reply).unwrap()).unwrap();
    assert_eq!(m.id(), 9);
    assert_eq!(m.message_type(), MessageType::Response);
    assert_eq!(m.response_code(), ResponseCode::FormErr);
    assert!(m.recursion_desired() && m.recursion_available());
    assert!(m.queries().is_empty());
}

#[test]
fn a_failed_resolution_gets_server_failure() {
    let req = read_request(&request_bytes(11, Some("a.example."))).unwrap();
    let reply = build_reply(req.id, req.question.map(|q| q.query), None);
    assert_eq!(reply.code, 2);
    let m = Message::from_vec(&reply_bytes(&reply).unwrap()).unwrap();
    assert_eq!(m.response_code(), ResponseCode::ServFail);
    assert!(m.queries().is_empty());
}

#[test]
fn a_resolved_question_gets_the_records_and_code_of_the_result() {
    let req = read_request(&request_bytes(12, Some("a.example."))).unwrap();
    let owner = Name::from_str("a.example.").unwrap();
    let mut result = Message::new();
    result.set_response_code(ResponseCode::NoError);
    result.add_answer(Record::from_rdata(owner.clone(), 60, RData::A(A::new(1, 2, 3, 4))));
    result.add_name_server(Record::from_rdata(
        Name::from_str("example.").unwrap(),
        60,
        RData::NS(NS(Name::from_str("ns.example.").unwrap())),
    ));
    result.add_additional(Record::from_rdata(
        Name::from_str("ns.example.").unwrap(),
        60,
        RData::A(A::new(5, 6, 7, 8)),
    ));
    let reply = build_reply(req.id, req.question.map(|q| q.query), Some(&result));
    assert_eq!(reply.code, 0);
    let m = Message::from_vec(&reply_bytes(&reply).unwrap()).unwrap();
    assert_eq!(m.id(), 12);
    assert_eq!(m.queries().len(), 1);
    assert_eq!(m.answers(), result.answers());
    assert_eq!(m.name_servers(), result.name_servers());
    assert_eq!(m.additionals(), result.additionals());
}

#[test]
fn lookup_requests_ask_one_recursive_question() {
    let bytes = UpstreamNameServer::lookup_request("www.example.com.", 1).unwrap();
    let m = Message::from_vec(&bytes).unwrap();
    assert_eq!(m.id(), 6666);
    assert!(m.recursion_desired());
    assert_eq!(m.queries().len(), 1);
    assert_eq!(m.queries()[0].name(), &Name::from_str("www.example.com.").unwrap());
    assert_eq!(m.queries()[0].query_type(), RecordType::A);
}

#[test]
fn lookup_responses_are_summarised() {
    let mut m = Message::new();
    m.set_response_code(ResponseCode::NXDomain);
    m.add_answer(Record::from_rdata(Name::from_str("x.example.").unwrap(), 5, RData::A(A::new(10, 0, 0, 1))));
    m.add_name_server(Record::from_rdata(
        Name::from_str("example.").unwrap(),
        5,
        RData::NS(NS(Name::from_str("ns1.example.").unwrap())),
    ));
    let (_, info) = UpstreamNameServer::read_lookup_response(&m.to_vec().unwrap()).unwrap();
    assert_eq!(info.code, 3);
    assert_eq!(info.answers.len(), 1);
    assert!(matches!(info.answers[0].data, RecordContent::A(0x0a00_0001)));
    assert_eq!(info.authority.len(), 1);
    assert_eq!(info.authority[0].owner.labels, vec![b"example".to_vec()]);
    match &info.authority[0].data {
        RecordContent::Ns { target, text } => {
            assert_eq!(text, "ns1.example.");
            assert_eq!(target.labels, vec![b"ns1".to_vec(), b"example".to_vec()]);
        }
        _ => panic!("expected a name server record"),
    }
    assert!(info.additionals.is_empty());
    assert!(UpstreamNameServer::read_lookup_response(&[0xff]).is_err());
}

#[test]
fn unreadable_names_are_refused_for_lookups() {
    let long_label = "a".repeat(70);
    assert!(matches!(
        UpstreamNameServer::lookup_request(&format!("{long_label}.com."), 1),
        Err(DnsError::InvalidName)
    ));
}

#[test]
fn a_received_lookup_response_reports_the_upstream_breaker_closed() {
    let upstream = UpstreamNameServer::init(&[]);
    let mut metrics = Metrics::new();
    metrics.set_circuit_open(true);
    metrics.incr(Counter::UpstreamTimeouts);
    assert!(upstream.receive_lookup_response(&[0xff], &mut metrics).is_err());
    assert!(metrics.is_circuit_open(), "an unreadable answer leaves the flag as it was");

    let mut m = Message::new();
    m.set_id(6666);
    m.set_message_type(MessageType::Response);
    m.set_response_code(ResponseCode::ServFail);
    let (response, info) = upstream.receive_lookup_response(&m.to_vec().unwrap(), &mut metrics).unwrap();
    assert!(!metrics.is_circuit_open());
    assert_eq!(metrics.get(Counter::UpstreamTimeouts), 1);
    assert_eq!(response.id(), 6666);
    assert_eq!(info.code, 2);
}

#[test]
fn a_reply_carries_the_request_id_and_flags_and_nothing_else() {
    let reply = build_reply(0xbeef, None, None);
    assert_eq!(reply.message.id(), 0xbeef);
    assert_eq!(reply.message.message_type(), MessageType::Response);
    assert!(reply.message.recursion_desired());
    assert!(reply.message.recursion_available());
    assert!(reply.message.queries().is_empty());
    assert!(reply.message.answers().is_empty());
    assert!(reply.message.name_servers().is_empty());
    assert!(reply.message.additionals().is_empty());
    assert_eq!(reply.message.response_code(), ResponseCode::FormErr);
    assert_eq!(reply.code, 1);
}

#[test]
fn reply_bytes_are_the_encoding_of_the_reply() {
    let reply = build_reply(77, None, None);
    let bytes = reply_bytes(&reply).unwrap();
    assert_eq!(bytes, reply.message.to_vec().unwrap());
    assert!(!bytes.is_empty());
}

#[test]
fn a_request_with_two_questions_reads_the_first() {
    let mut m = Message::new();
    m.set_id(5);
    m.add_query(Query::query(Name::from_str("first.example.").unwrap(), RecordType::A));
    m.add_query(Query::query(Name::from_str("second.example.").unwrap(), RecordType::NS));
    let req = read_request(&m.to_vec().unwrap()).unwrap();
    assert_eq!(req.id, 5);
    let q = req.question.unwrap();
    assert_eq!(q.qname, "first.example.");
    assert_eq!(q.qtype, 1);
}

#[test]
fn lookup_messages_hold_one_recursive_question() {
    let name = Name::from_str("b.example.").unwrap();
    let m = UpstreamNameServer::lookup_message(name.clone(), 2);
    assert_eq!(m.id(), 6666);
    assert!(m.recursion_desired());
    assert!(!m.recursion_available());
    assert_eq!(m.message_type(), MessageType::Query);
    assert_eq!(m.queries().len(), 1);
    assert_eq!(m.queries()[0].name(), &name);
    assert_eq!(m.queries()[0].query_type(), RecordType::NS);
    assert!(m.answers().is_empty());
}

#[test]
fn each_reply_counts_under_exactly_one_outcome() {
    let mut metrics = Metrics::new();
    count_outcome(&build_reply(1, None, None), &mut metrics);
    assert_eq!(metrics.get(Counter::QueriesFormerr), 1);
    assert_eq!(metrics.get(Counter::QueriesOk), 0);
    assert_eq!(metrics.get(Counter::QueriesServfail), 0);
    let q = Query::query(Name::from_str("a.example.").unwrap(), RecordType::A);
    count_outcome(&build_reply(2, Some(q), None), &mut metrics);
    assert_eq!(metrics.get(Counter::QueriesServfail), 1);
    assert_eq!(metrics.queries_total(), 2);
}
