//! Answering a client: reading its request, and writing the reply from the
//! outcome of the resolution.

use vstd::prelude::*;
use hickory_proto::error::ProtoError;
use hickory_proto::op::{Message, Query};
use super::response::{RCODE_FORMAT_ERROR, RCODE_SERVER_FAILURE};
use super::wire::{
    add_query, additional_section, answer_section, authority_section, copy_additionals,
    copy_answers, copy_name_servers, decode_message, decoded, empty_view, encode_message, encoded,
    first_query, id_of, message_id, message_view, new_message, query_name_text, query_text,
    query_type_code, query_type_of, questions_of, rcode_of, response_code_of, set_id,
    set_message_type, set_recursion_available, set_recursion_desired, set_response_code,
    MessageView,
};
use crate::metrics::{Counter, Metrics};

verus! {

/// Why a message could not be read or written.
#[derive(Debug)]
pub enum DnsError {
    /// hickory could not decode or encode the message.
    Wire(ProtoError),
    /// A name that hickory cannot read.
    InvalidName,
}

/// The first question of a request: the query itself, its name written as
/// text, and its record type.
pub struct Question {
    pub query: Query,
    pub qname: String,
    pub qtype: u16,
}

/// A client's request: its id and its first question, if it has one.
pub struct Request {
    pub id: u16,
    pub question: Option<Question>,
}

/// A reply and the response code it carries.
pub struct Reply {
    pub message: Message,
    pub code: u16,
}

/// The response code of the reply: a request without a question is
/// malformed; a question whose resolution failed gets a server failure; a
/// resolved question gets the code of the response it was resolved with.
pub open spec fn reply_code(has_question: bool, resolved_code: Option<u16>) -> u16 {
    if !has_question {
        RCODE_FORMAT_ERROR
    } else {
        match resolved_code {
            Some(c) => c,
            None => RCODE_SERVER_FAILURE,
        }
    }
}

/// What the reply to a request with `id` reads as: a response with
/// recursion desired and available and that id. With a question and a
/// resolution it carries the question, the resolution's code and its three
/// record sections in order; otherwise it carries no question and no
/// record, and the code of a malformed request or of a server failure.
pub open spec fn reply_view(id: u16, question: Option<Query>, resolved: Option<&Message>) -> MessageView {
    let header = MessageView { id, response: true, recursion_desired: true, recursion_available: true, ..empty_view() };
    match (question, resolved) {
        (Some(q), Some(m)) => MessageView {
            rcode: rcode_of(*m),
            questions: seq![q],
            answers: answer_section(*m),
            authority: authority_section(*m),
            additionals: additional_section(*m),
            ..header
        },
        (Some(_), None) => MessageView { rcode: RCODE_SERVER_FAILURE, ..header },
        (None, _) => MessageView { rcode: RCODE_FORMAT_ERROR, ..header },
    }
}

/// The reply to a resolved question reports the resolution as it is: its
/// response code (so a name that does not exist is reported as not
/// existing), the question asked, and the resolution's records in order;
/// and it answers the request's id as a response with recursion.
pub proof fn lemma_reply_reports_the_resolution(id: u16, q: Query, m: Message)
    ensures
        reply_view(id, Some(q), Some(&m)).rcode == rcode_of(m),
        reply_view(id, Some(q), Some(&m)).id == id,
        reply_view(id, Some(q), Some(&m)).response,
        reply_view(id, Some(q), Some(&m)).questions == seq![q],
        reply_view(id, Some(q), Some(&m)).answers == answer_section(m),
        reply_view(id, Some(q), Some(&m)).authority == authority_section(m),
        reply_view(id, Some(q), Some(&m)).additionals == additional_section(m),
{
}

/// A reply without a resolution carries no question and no record, and
/// reports a malformed request where there was no question, a server
/// failure where there was one.
pub proof fn lemma_unresolved_reply_is_empty(id: u16, question: Option<Query>)
    ensures
        reply_view(id, question, None).rcode == (if question is Some {
            RCODE_SERVER_FAILURE
        } else {
            RCODE_FORMAT_ERROR
        }),
        reply_view(id, question, None).id == id,
        reply_view(id, question, None).questions.len() == 0,
        reply_view(id, question, None).answers.len() == 0,
        reply_view(id, question, None).authority.len() == 0,
        reply_view(id, question, None).additionals.len() == 0,
{
}

/// Which outcome counter a reply with `code` adds to: a malformed request,
/// a server failure, or an answered query.
pub open spec fn outcome_for(code: u16) -> Counter {
    if code == RCODE_FORMAT_ERROR {
        Counter::QueriesFormerr
    } else if code == RCODE_SERVER_FAILURE {
        Counter::QueriesServfail
    } else {
        Counter::QueriesOk
    }
}

pub fn plan_reply_code(has_question: bool, resolved_code: Option<u16>) -> (c: u16)
    ensures
        c == reply_code(has_question, resolved_code),
{
    if !has_question {
        RCODE_FORMAT_ERROR
    } else {
        match resolved_code {
            Some(c) => c,
            None => RCODE_SERVER_FAILURE,
        }
    }
}

/// The counter for a reply with `code`; every reply counts under exactly
/// one of the three outcomes.
pub fn outcome_counter(code: u16) -> (c: Counter)
    ensures
        c == outcome_for(code),
        c.is_outcome(),
{
    if code == RCODE_FORMAT_ERROR {
        Counter::QueriesFormerr
    } else if code == RCODE_SERVER_FAILURE {
        Counter::QueriesServfail
    } else {
        Counter::QueriesOk
    }
}

/// What a request reads of message `m`: its id, and its first question
/// with that question's name text and type, or no question where `m` has
/// none.
pub open spec fn reads_request(m: Message, req: Request) -> bool {
    &&& req.id == id_of(m)
    &&& match req.question {
        Some(q) => {
            &&& questions_of(m).len() > 0
            &&& q.query == questions_of(m)[0]
            &&& q.qname@ == query_text(q.query)
            &&& q.qtype == query_type_of(q.query)
        },
        None => questions_of(m).len() == 0,
    }
}

/// Decodes a client's request and reads its id and first question. Fails,
/// with hickory's error, exactly where hickory does not decode the bytes.
pub fn read_request(bytes: &[u8]) -> (r: Result<Request, DnsError>)
    ensures
        match decoded(bytes@) {
            Some(m) => (r matches Ok(req) && reads_request(m, req)),
            None => (r matches Err(DnsError::Wire(_))),
        },
{
    let message = match decode_message(bytes) {
        Ok(m) => m,
        Err(e) => return Err(DnsError::Wire(e)),
    };
    let id = message_id(&message);
    let question = match first_query(&message) {
        Some(q) => {
            let qname = query_name_text(&q);
            let qtype = query_type_code(&q);
            Some(Question { query: q, qname, qtype })
        },
        None => None,
    };
    Ok(Request { id, question })
}

/// The reply to a request with `id`: a response, with recursion desired
/// and available. Without a question it reports a malformed request. With
/// a question and no resolution it reports a server failure. With both, it
/// carries the question, the resolution's response code and copies of the
/// resolution's answer, authority and additional records.
pub fn build_reply(id: u16, question: Option<Query>, resolved: Option<&Message>) -> (r: Reply)
    ensures
        message_view(r.message) == reply_view(id, question, resolved),
        r.code == reply_view(id, question, resolved).rcode,
        r.code == message_view(r.message).rcode,
        message_view(r.message).id == id,
        message_view(r.message).response,
        message_view(r.message).recursion_desired,
        message_view(r.message).recursion_available,
        match (question, resolved) {
            (Some(q), Some(m)) => {
                &&& r.code == rcode_of(*m)
                &&& message_view(r.message).questions == seq![q]
                &&& message_view(r.message).answers == answer_section(*m)
                &&& message_view(r.message).authority == authority_section(*m)
                &&& message_view(r.message).additionals == additional_section(*m)
            },
            (Some(_), None) => {
                &&& r.code == RCODE_SERVER_FAILURE
                &&& message_view(r.message).questions.len() == 0
                &&& message_view(r.message).answers.len() == 0
                &&& message_view(r.message).authority.len() == 0
                &&& message_view(r.message).additionals.len() == 0
            },
            (None, _) => {
                &&& r.code == RCODE_FORMAT_ERROR
                &&& message_view(r.message).questions.len() == 0
                &&& message_view(r.message).answers.len() == 0
                &&& message_view(r.message).authority.len() == 0
                &&& message_view(r.message).additionals.len() == 0
            },
        },
{
    let mut reply = new_message();
    assert(questions_of(reply) =~= Seq::<Query>::empty());
    assert(answer_section(reply) =~= Seq::empty());
    assert(authority_section(reply) =~= Seq::empty());
    assert(additional_section(reply) =~= Seq::empty());
    assert(message_view(reply) == empty_view());
    set_id(&mut reply, id);
    set_message_type(&mut reply, true);
    set_recursion_desired(&mut reply, true);
    set_recursion_available(&mut reply, true);
    let has_question = question.is_some();
    let resolved_code = match resolved {
        Some(m) => Some(response_code_of(m)),
        None => None,
    };
    let code = plan_reply_code(has_question, resolved_code);
    match question {
        Some(q) => {
            match resolved {
                Some(result) => {
                    add_query(&mut reply, q);
                    set_response_code(&mut reply, code);
                    copy_answers(&mut reply, result);
                    copy_name_servers(&mut reply, result);
                    copy_additionals(&mut reply, result);
                    assert(questions_of(reply) =~= seq![q]);
                    assert(answer_section(reply) =~= answer_section(*result));
                    assert(authority_section(reply) =~= authority_section(*result));
                    assert(additional_section(reply) =~= additional_section(*result));
                },
                None => {
                    set_response_code(&mut reply, code);
                },
            }
        },
        None => {
            set_response_code(&mut reply, code);
        },
    }
    Reply { message: reply, code }
}

/// Counts a reply under its outcome: exactly one of the three outcome
/// counters goes up by one (wrapping at `u64::MAX`), and nothing else
/// changes.
pub fn count_outcome(reply: &Reply, metrics: &mut Metrics)
    ensures
        final(metrics)@ == old(metrics)@.incremented(outcome_for(reply.code)),
{
    metrics.incr(outcome_counter(reply.code));
}

/// Encodes a reply into its wire bytes: hickory's encoding of the reply's
/// message, or hickory's error where it cannot encode it.
pub fn reply_bytes(reply: &Reply) -> (r: Result<Vec<u8>, DnsError>)
    ensures
        match encoded(reply.message) {
            Some(b) => (r matches Ok(bytes) && bytes@ == b),
            None => (r matches Err(DnsError::Wire(_))),
        },
{
    match encode_message(&reply.message) {
        Ok(b) => Ok(b),
        Err(e) => Err(DnsError::Wire(e)),
    }
}

} // verus!
