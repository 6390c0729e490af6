//! DNS messages on the wire, through `hickory_proto`. A `Message`, a
//! `Query`, a `Record` and a `Name` are opaque here: each wrapper below
//! makes one call into hickory, and what the resolver reads of a message is
//! converted into the plain values of `response` and `name`.

use vstd::prelude::*;
use std::str::FromStr;
use hickory_proto::error::ProtoError;
use hickory_proto::op::{Message, MessageType, Query, ResponseCode};
use hickory_proto::rr::{Name, RData, RecordType};
use super::name::DomainName;
use super::response::{record_views, ContentView, RecordContent, RecordSummary, RecordView, ResponseInfo};

verus! {

#[verifier::external_type_specification]
#[verifier::external_body]
pub struct ExMessage(Message);

#[verifier::external_type_specification]
#[verifier::external_body]
pub struct ExQuery(Query);

#[verifier::external_type_specification]
#[verifier::external_body]
pub struct ExName(Name);

#[verifier::external_type_specification]
#[verifier::external_body]
pub struct ExProtoError(ProtoError);

/// The labels of the name that `Name::from_str` reads from `text`, or `None`
/// where it refuses the text.
pub uninterp spec fn parsed_name(text: Seq<char>) -> Option<Seq<Seq<u8>>>;

/// Calls `Name::from_str` and hands back the labels of the name, leftmost
/// first; `None` where hickory refuses the text. Which texts it accepts and
/// how it splits and unescapes them is hickory's, and is named, not stated.
#[verifier::external_body]
pub(crate) fn parse_name(text: &str) -> (r: Option<DomainName>)
    ensures
        match r {
            Some(n) => parsed_name(text@) == Some(n@),
            None => parsed_name(text@) is None,
        },
{
    match Name::from_str(text) {
        Ok(n) => Some(DomainName { labels: n.iter().map(|l| l.to_vec()).collect() }),
        Err(_) => None,
    }
}

/// The name that `Name::from_labels` makes of `labels`, or `None` where it
/// refuses them.
pub uninterp spec fn name_of_labels(labels: Seq<Seq<u8>>) -> Option<Name>;

/// Calls `Name::from_labels` on the labels of `name`. hickory refuses more
/// than 255 labels and labels it cannot encode; which it refuses, and the
/// name it makes, are named, not stated.
#[verifier::external_body]
pub(crate) fn name_from_labels(name: &DomainName) -> (r: Result<Name, ProtoError>)
    ensures
        match r {
            Ok(n) => name_of_labels(name@) == Some(n),
            Err(_) => name_of_labels(name@) is None,
        },
{
    Name::from_labels(name.labels.iter().map(|l| l.as_slice()))
}

/// The question that `Query::query` makes for `name` and the record type
/// numbered `qtype`.
pub uninterp spec fn query_for(name: Name, qtype: u16) -> Query;

/// Calls `Query::query`: a question for `name` of the record type numbered
/// `qtype`.
#[verifier::external_body]
pub(crate) fn new_query(name: Name, qtype: u16) -> (q: Query)
    ensures
        q == query_for(name, qtype),
{
    Query::query(name, RecordType::from(qtype))
}

/// The data of a record as the wire layer hands it over: an IPv4 address
/// (its 32 bits), a name server (its labels and its name written as
/// `Name`'s `Display` writes it), or anything else.
pub enum WireData {
    A(u32),
    Ns(DomainName, String),
    Other,
}

/// A record as the wire layer hands it over: its owner's labels and its data.
pub struct WireRecord {
    pub owner: DomainName,
    pub data: WireData,
}

impl View for WireRecord {
    type V = RecordView;

    open spec fn view(&self) -> RecordView {
        RecordView {
            owner: self.owner@,
            data: match self.data {
                WireData::A(a) => ContentView::A(a),
                WireData::Ns(target, text) => ContentView::Ns(target@, text@),
                WireData::Other => ContentView::Other,
            },
        }
    }
}

pub open spec fn wire_views(s: Seq<WireRecord>) -> Seq<RecordView> {
    s.map_values(|r: WireRecord| r@)
}

/// The records of a message's answer section, in order, as plain values.
pub uninterp spec fn answer_section(m: Message) -> Seq<RecordView>;

/// The records of a message's authority section, in order, as plain values.
pub uninterp spec fn authority_section(m: Message) -> Seq<RecordView>;

/// The records of a message's additional section, in order, as plain values.
pub uninterp spec fn additional_section(m: Message) -> Seq<RecordView>;

/// The message that `Message::from_vec` decodes from `bytes`, or `None`
/// where it refuses them.
pub uninterp spec fn decoded(bytes: Seq<u8>) -> Option<Message>;

/// The wire bytes that `Message::to_vec` writes for `m`, or `None` where it
/// fails.
pub uninterp spec fn encoded(m: Message) -> Option<Seq<u8>>;

/// `Message::id`: the message's id.
pub uninterp spec fn id_of(m: Message) -> u16;

/// `Message::message_type`: whether the message is a response.
pub uninterp spec fn is_response(m: Message) -> bool;

/// `Message::recursion_desired`.
pub uninterp spec fn recursion_desired_of(m: Message) -> bool;

/// `Message::recursion_available`.
pub uninterp spec fn recursion_available_of(m: Message) -> bool;

/// `Message::response_code`, as its 16-bit number.
pub uninterp spec fn rcode_of(m: Message) -> u16;

/// `Message::queries`: the questions of the message, in order.
pub uninterp spec fn questions_of(m: Message) -> Seq<Query>;

/// What the resolver and the server read of a message.
pub struct MessageView {
    pub id: u16,
    pub response: bool,
    pub recursion_desired: bool,
    pub recursion_available: bool,
    pub rcode: u16,
    pub questions: Seq<Query>,
    pub answers: Seq<RecordView>,
    pub authority: Seq<RecordView>,
    pub additionals: Seq<RecordView>,
}

pub open spec fn message_view(m: Message) -> MessageView {
    MessageView {
        id: id_of(m),
        response: is_response(m),
        recursion_desired: recursion_desired_of(m),
        recursion_available: recursion_available_of(m),
        rcode: rcode_of(m),
        questions: questions_of(m),
        answers: answer_section(m),
        authority: authority_section(m),
        additionals: additional_section(m),
    }
}

/// What a new message reads as: a query with id 0, no recursion flag and
/// code 0, and nothing in any section.
pub open spec fn empty_view() -> MessageView {
    MessageView {
        id: 0,
        response: false,
        recursion_desired: false,
        recursion_available: false,
        rcode: 0,
        questions: Seq::empty(),
        answers: Seq::empty(),
        authority: Seq::empty(),
        additionals: Seq::empty(),
    }
}

/// Calls `Message::from_vec`: decodes a message from its wire bytes.
#[verifier::external_body]
pub(crate) fn decode_message(bytes: &[u8]) -> (r: Result<Message, ProtoError>)
    ensures
        match r {
            Ok(m) => decoded(bytes@) == Some(m),
            Err(_) => decoded(bytes@) is None,
        },
{
    Message::from_vec(bytes)
}

/// Calls `Message::to_vec`: encodes a message into its wire bytes.
#[verifier::external_body]
pub(crate) fn encode_message(m: &Message) -> (r: Result<Vec<u8>, ProtoError>)
    ensures
        match r {
            Ok(b) => encoded(*m) == Some(b@),
            Err(_) => encoded(*m) is None,
        },
{
    m.to_vec()
}

/// Calls `Message::new`: a query with id 0, op code and flags cleared,
/// code `NoError`, and every section empty.
#[verifier::external_body]
pub(crate) fn new_message() -> (m: Message)
    ensures
        id_of(m) == 0,
        !is_response(m),
        !recursion_desired_of(m),
        !recursion_available_of(m),
        rcode_of(m) == 0,
        questions_of(m).len() == 0,
        answer_section(m).len() == 0,
        authority_section(m).len() == 0,
        additional_section(m).len() == 0,
{
    Message::new()
}

/// Calls `Message::id`.
#[verifier::external_body]
pub(crate) fn message_id(m: &Message) -> (id: u16)
    ensures
        id == id_of(*m),
{
    m.id()
}

/// Calls `Message::response_code` and hands back its 16-bit number.
#[verifier::external_body]
pub(crate) fn response_code_of(m: &Message) -> (code: u16)
    ensures
        code == rcode_of(*m),
{
    u16::from(m.response_code())
}

/// Calls `Message::queries` and hands back a copy of the first query.
#[verifier::external_body]
pub(crate) fn first_query(m: &Message) -> (q: Option<Query>)
    ensures
        q == (if questions_of(*m).len() > 0 {
            Some(questions_of(*m)[0])
        } else {
            None
        }),
{
    m.queries().first().cloned()
}

/// Calls `Message::answers` and hands back each record, in order: the labels
/// of `Record::name`, and `Record::data` told apart by variant (an IPv4
/// address as its bits, a name server as its labels and its `Display` text).
#[verifier::external_body]
pub(crate) fn answer_records(m: &Message) -> (r: Vec<WireRecord>)
    ensures
        wire_views(r@) == answer_section(*m),
{
    m.answers().iter().map(|r| WireRecord {
        owner: DomainName { labels: r.name().iter().map(|l| l.to_vec()).collect() },
        data: match r.data() {
            Some(RData::A(a)) => WireData::A(u32::from(a.0)),
            Some(RData::NS(ns)) => WireData::Ns(
                DomainName { labels: ns.0.iter().map(|l| l.to_vec()).collect() },
                ns.0.to_string(),
            ),
            _ => WireData::Other,
        },
    }).collect()
}

/// Calls `Message::name_servers` and hands back each record, in order: the labels
/// of `Record::name`, and `Record::data` told apart by variant (an IPv4
/// address as its bits, a name server as its labels and its `Display` text).
#[verifier::external_body]
pub(crate) fn authority_records(m: &Message) -> (r: Vec<WireRecord>)
    ensures
        wire_views(r@) == authority_section(*m),
{
    m.name_servers().iter().map(|r| WireRecord {
        owner: DomainName { labels: r.name().iter().map(|l| l.to_vec()).collect() },
        data: match r.data() {
            Some(RData::A(a)) => WireData::A(u32::from(a.0)),
            Some(RData::NS(ns)) => WireData::Ns(
                DomainName { labels: ns.0.iter().map(|l| l.to_vec()).collect() },
                ns.0.to_string(),
            ),
            _ => WireData::Other,
        },
    }).collect()
}

/// Calls `Message::additionals` and hands back each record, in order: the labels
/// of `Record::name`, and `Record::data` told apart by variant (an IPv4
/// address as its bits, a name server as its labels and its `Display` text).
#[verifier::external_body]
pub(crate) fn additional_records(m: &Message) -> (r: Vec<WireRecord>)
    ensures
        wire_views(r@) == additional_section(*m),
{
    m.additionals().iter().map(|r| WireRecord {
        owner: DomainName { labels: r.name().iter().map(|l| l.to_vec()).collect() },
        data: match r.data() {
            Some(RData::A(a)) => WireData::A(u32::from(a.0)),
            Some(RData::NS(ns)) => WireData::Ns(
                DomainName { labels: ns.0.iter().map(|l| l.to_vec()).collect() },
                ns.0.to_string(),
            ),
            _ => WireData::Other,
        },
    }).collect()
}

/// The text that `Name`'s `Display` writes for a query's name.
pub uninterp spec fn query_text(q: Query) -> Seq<char>;

/// `Query::query_type`, as its 16-bit number.
pub uninterp spec fn query_type_of(q: Query) -> u16;

/// Calls `Query::name` and writes the name as `Name`'s `Display` does.
#[verifier::external_body]
pub(crate) fn query_name_text(q: &Query) -> (s: String)
    ensures
        s@ == query_text(*q),
{
    q.name().to_string()
}

/// Calls `Query::query_type` and hands back its 16-bit number.
#[verifier::external_body]
pub(crate) fn query_type_code(q: &Query) -> (t: u16)
    ensures
        t == query_type_of(*q),
{
    u16::from(q.query_type())
}

/// Calls `Message::set_id`, which sets the header's id and nothing else.
#[verifier::external_body]
pub(crate) fn set_id(m: &mut Message, id: u16)
    ensures
        message_view(*final(m)) == (MessageView { id, ..message_view(*old(m)) }),
{
    m.set_id(id);
}

/// Calls `Message::set_message_type`, with `MessageType::Response` where
/// `response` holds and `MessageType::Query` where it does not; nothing
/// else changes.
#[verifier::external_body]
pub(crate) fn set_message_type(m: &mut Message, response: bool)
    ensures
        message_view(*final(m)) == (MessageView { response, ..message_view(*old(m)) }),
{
    m.set_message_type(if response { MessageType::Response } else { MessageType::Query });
}

/// Calls `Message::set_recursion_desired`; nothing else changes.
#[verifier::external_body]
pub(crate) fn set_recursion_desired(m: &mut Message, desired: bool)
    ensures
        message_view(*final(m)) == (MessageView { recursion_desired: desired, ..message_view(*old(m)) }),
{
    m.set_recursion_desired(desired);
}

/// Calls `Message::set_recursion_available`; nothing else changes.
#[verifier::external_body]
pub(crate) fn set_recursion_available(m: &mut Message, available: bool)
    ensures
        message_view(*final(m)) == (MessageView { recursion_available: available, ..message_view(*old(m)) }),
{
    m.set_recursion_available(available);
}

/// Calls `Message::set_response_code` with the code numbered `code`;
/// `ResponseCode`'s conversions from and back to `u16` keep every number,
/// so the message then reads `code`; nothing else changes.
#[verifier::external_body]
pub(crate) fn set_response_code(m: &mut Message, code: u16)
    ensures
        message_view(*final(m)) == (MessageView { rcode: code, ..message_view(*old(m)) }),
{
    m.set_response_code(<ResponseCode as From<u16>>::from(code));
}

/// Calls `Message::add_query`, which appends `q` to the questions; nothing
/// else changes.
#[verifier::external_body]
pub(crate) fn add_query(m: &mut Message, q: Query)
    ensures
        message_view(*final(m)) == (MessageView {
            questions: questions_of(*old(m)).push(q),
            ..message_view(*old(m))
        }),
{
    m.add_query(q);
}

/// Calls `Message::add_answers` on `to` with copies of the records of `from`'s
/// `answers` section, in order; nothing else of `to` changes.
#[verifier::external_body]
pub(crate) fn copy_answers(to: &mut Message, from: &Message)
    ensures
        message_view(*final(to)) == (MessageView {
            answers: answer_section(*old(to)) + answer_section(*from),
            ..message_view(*old(to))
        }),
{
    to.add_answers(from.answers().iter().cloned());
}

/// Calls `Message::add_name_servers` on `to` with copies of the records of `from`'s
/// `name_servers` section, in order; nothing else of `to` changes.
#[verifier::external_body]
pub(crate) fn copy_name_servers(to: &mut Message, from: &Message)
    ensures
        message_view(*final(to)) == (MessageView {
            authority: authority_section(*old(to)) + authority_section(*from),
            ..message_view(*old(to))
        }),
{
    to.add_name_servers(from.name_servers().iter().cloned());
}

/// Calls `Message::add_additionals` on `to` with copies of the records of `from`'s
/// `additionals` section, in order; nothing else of `to` changes.
#[verifier::external_body]
pub(crate) fn copy_additionals(to: &mut Message, from: &Message)
    ensures
        message_view(*final(to)) == (MessageView {
            additionals: additional_section(*old(to)) + additional_section(*from),
            ..message_view(*old(to))
        }),
{
    to.add_additionals(from.additionals().iter().cloned());
}

fn summary(r: &WireRecord) -> (s: RecordSummary)
    ensures
        s@ == r@,
{
    let data = match &r.data {
        WireData::A(a) => RecordContent::A(*a),
        WireData::Ns(n, text) => RecordContent::Ns { target: n.copy(), text: text.clone() },
        WireData::Other => RecordContent::Other,
    };
    RecordSummary { owner: r.owner.copy(), data }
}

fn summaries(records: &Vec<WireRecord>) -> (s: Vec<RecordSummary>)
    ensures
        record_views(s@) == wire_views(records@),
{
    let mut out: Vec<RecordSummary> = Vec::new();
    let mut i: usize = 0;
    while i < records.len()
        invariant
            i <= records.len(),
            out.len() == i,
            record_views(out@) == wire_views(records@.take(i as int)),
        decreases records.len() - i,
    {
        let ghost prev = out@;
        let x = summary(&records[i]);
        out.push(x);
        proof {
            let n = i as int;
            assert(out@ == prev.push(x));
            assert forall|j: int| 0 <= j < n + 1 implies #[trigger] record_views(out@)[j]
                == wire_views(records@.take(n + 1))[j] by {
                if j < n {
                    assert(out@[j] == prev[j]);
                    assert(record_views(prev)[j] == wire_views(records@.take(n))[j]);
                } else {
                    assert(out@[j] == x);
                }
            }
            assert(record_views(out@) =~= wire_views(records@.take(n + 1)));
        }
        i = i + 1;
    }
    assert(records@.take(i as int) =~= records@);
    out
}

/// `info` holds what a resolution needs of `m`: its response code and its
/// three record sections, in order, one summary per record.
pub open spec fn summarizes(info: ResponseInfo, m: Message) -> bool {
    &&& info.code == rcode_of(m)
    &&& record_views(info.answers@) == answer_section(m)
    &&& record_views(info.authority@) == authority_section(m)
    &&& record_views(info.additionals@) == additional_section(m)
}

/// Reads what a resolution needs of a response: its code and the three
/// record sections, in order, one summary per record.
pub fn summarize(m: &Message) -> (info: ResponseInfo)
    ensures
        summarizes(info, *m),
{
    let answers = answer_records(m);
    let authority = authority_records(m);
    let additionals = additional_records(m);
    ResponseInfo {
        code: response_code_of(m),
        answers: summaries(&answers),
        authority: summaries(&authority),
        additionals: summaries(&additionals),
    }
}

} // verus!
