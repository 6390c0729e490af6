//! The upstream servers and the messages exchanged with them.

use vstd::prelude::*;
use hickory_proto::op::{Message, Query};
use hickory_proto::rr::Name;
use crate::dns::reply::DnsError;
use crate::dns::response::ResponseInfo;
use crate::dns::wire::{
    add_query, additional_section, answer_section, authority_section, decode_message, decoded,
    empty_view, encode_message, encoded, message_view, name_from_labels, name_of_labels,
    new_message, new_query, parse_name, parsed_name, query_for, questions_of, set_id,
    set_recursion_desired, summarize, summarizes, MessageView,
};
use crate::client_guard::breaker::{
    breaker_permits, breaker_record_failure, breaker_record_success, breaker_settings,
    new_client_breaker, standard_settings, ClientCircuitBreaker,
};
use crate::metrics::{Counter, Metrics};
use crate::net::{IpAddress, ServerAddr};

verus! {

/// The server asked when no upstream server is given: 8.8.8.8, port 53.
pub open spec fn default_upstream() -> ServerAddr {
    ServerAddr { ip: IpAddress::V4(0x0808_0808), port: 53 }
}

/// The id of every lookup message.
pub const LOOKUP_ID: u16 = 6666;

/// The seed server of recursive resolution unless told otherwise: 8.8.4.4.
pub const DEFAULT_RECURSIVE_NS_SEED: u32 = 0x0808_0404;

/// What a lookup message reads as: a query with id 6666 and recursion
/// desired, asking `q` alone.
pub open spec fn lookup_view(q: Query) -> MessageView {
    MessageView { id: LOOKUP_ID, recursion_desired: true, questions: seq![q], ..empty_view() }
}

/// What the metrics record of the breaker's answer to a lookup: a refusal
/// is counted under `CircuitBreakerRejections` and reports the circuit
/// open; a permission changes nothing.
pub fn note_lookup_permission(permitted: bool, metrics: &mut Metrics)
    ensures
        permitted ==> final(metrics)@ == old(metrics)@,
        !permitted ==> final(metrics)@ == old(metrics)@.incremented(Counter::CircuitBreakerRejections).with_circuit(true),
{
    if !permitted {
        metrics.incr(Counter::CircuitBreakerRejections);
        metrics.set_circuit_open(true);
    }
}

/// The port of name servers unless told otherwise.
pub const DEFAULT_DNS_PORT: u16 = 53;

/// The upstream servers, the settings of recursive resolution, and one
/// circuit breaker, of the same kind as each client's, over all lookups.
pub struct UpstreamNameServer {
    resolvers: Vec<ServerAddr>,
    recursive_ns_seed: u32,
    upstream_dns_port: u16,
    breaker: ClientCircuitBreaker,
}

impl UpstreamNameServer {
    /// The breaker that guards the lookups.
    pub closed spec fn breaker(self) -> ClientCircuitBreaker {
        self.breaker
    }

    pub closed spec fn servers(self) -> Seq<ServerAddr> {
        self.resolvers@
    }

    pub closed spec fn seed(self) -> u32 {
        self.recursive_ns_seed
    }

    pub closed spec fn port(self) -> u16 {
        self.upstream_dns_port
    }

    /// Upstream servers exactly as given, with the default seed server and
    /// port for recursive resolution.
    pub fn new(resolvers: Vec<ServerAddr>) -> (s: Self)
        ensures
            s.servers() == resolvers@,
            s.seed() == DEFAULT_RECURSIVE_NS_SEED,
            s.port() == DEFAULT_DNS_PORT,
            breaker_settings(s.breaker()) == standard_settings(),
    {
        UpstreamNameServer {
            resolvers,
            recursive_ns_seed: DEFAULT_RECURSIVE_NS_SEED,
            upstream_dns_port: DEFAULT_DNS_PORT,
            breaker: new_client_breaker(),
        }
    }

    /// Upstream servers from a list: the list itself, or 8.8.8.8:53 alone
    /// where the list is empty.
    pub fn init(lookup_servers: &[ServerAddr]) -> (s: Self)
        ensures
            lookup_servers@.len() == 0 ==> s.servers() == seq![default_upstream()],
            lookup_servers@.len() > 0 ==> s.servers() == lookup_servers@,
            s.seed() == DEFAULT_RECURSIVE_NS_SEED,
            s.port() == DEFAULT_DNS_PORT,
            breaker_settings(s.breaker()) == standard_settings(),
    {
        let mut resolvers: Vec<ServerAddr> = Vec::new();
        if lookup_servers.len() == 0 {
            resolvers.push(ServerAddr { ip: IpAddress::V4(0x0808_0808), port: 53 });
            assert(resolvers@ =~= seq![default_upstream()]);
        } else {
            let mut i: usize = 0;
            while i < lookup_servers.len()
                invariant
                    i <= lookup_servers@.len(),
                    resolvers@ =~= lookup_servers@.take(i as int),
                decreases lookup_servers@.len() - i,
            {
                resolvers.push(lookup_servers[i]);
                i = i + 1;
                assert(resolvers@ =~= lookup_servers@.take(i as int));
            }
            assert(lookup_servers@.take(i as int) =~= lookup_servers@);
        }
        UpstreamNameServer::new(resolvers)
    }

    /// The same servers, with the given seed server and port for recursive
    /// resolution.
    pub fn with_recursion(self, recursive_ns_seed: u32, upstream_dns_port: u16) -> (s: Self)
        ensures
            s.servers() == self.servers(),
            s.seed() == recursive_ns_seed,
            s.port() == upstream_dns_port,
            s.breaker() == self.breaker(),
    {
        UpstreamNameServer { resolvers: self.resolvers, recursive_ns_seed, upstream_dns_port, breaker: self.breaker }
    }

    pub fn resolvers(&self) -> (r: &Vec<ServerAddr>)
        ensures
            r@ == self.servers(),
    {
        &self.resolvers
    }

    pub fn recursive_ns_seed(&self) -> (seed: u32)
        ensures
            seed == self.seed(),
    {
        self.recursive_ns_seed
    }

    pub fn upstream_dns_port(&self) -> (port: u16)
        ensures
            port == self.port(),
    {
        self.upstream_dns_port
    }

    /// Forwarding a raw query is not implemented: it answers with an empty
    /// message.
    pub fn resolve(&self, query: &[u8]) -> (r: Result<Vec<u8>, DnsError>)
        ensures
            r matches Ok(bytes) && bytes@.len() == 0,
    {
        Ok(Vec::new())
    }

    /// A lookup message: id 6666, recursion desired, and one question for
    /// `qtype` records of `name`.
    pub fn lookup_message(name: Name, qtype: u16) -> (m: Message)
        ensures
            message_view(m) == lookup_view(query_for(name, qtype)),
    {
        let mut message = new_message();
        assert(questions_of(message) =~= Seq::<Query>::empty());
        assert(answer_section(message) =~= Seq::empty());
        assert(authority_section(message) =~= Seq::empty());
        assert(additional_section(message) =~= Seq::empty());
        set_id(&mut message, LOOKUP_ID);
        add_query(&mut message, new_query(name, qtype));
        set_recursion_desired(&mut message, true);
        assert(questions_of(message) =~= seq![query_for(name, qtype)]);
        message
    }

    /// The wire bytes of a lookup: hickory's encoding of a message with id
    /// 6666 and recursion desired, asking one question for `qtype` records
    /// of `qname`. Fails where hickory cannot read the name, make a name of
    /// its labels, or encode the message.
    pub fn lookup_request(qname: &str, qtype: u16) -> (r: Result<Vec<u8>, DnsError>)
        ensures
            match parsed_name(qname@) {
                None => (r matches Err(DnsError::InvalidName)),
                Some(labels) => match name_of_labels(labels) {
                    None => (r matches Err(DnsError::Wire(_))),
                    Some(name) => exists|m: Message|
                        #![trigger encoded(m)]
                        message_view(m) == lookup_view(query_for(name, qtype)) && match encoded(m) {
                            Some(b) => (r matches Ok(bytes) && bytes@ == b),
                            None => (r matches Err(DnsError::Wire(_))),
                        },
                },
            },
    {
        let labels = match parse_name(qname) {
            Some(l) => l,
            None => return Err(DnsError::InvalidName),
        };
        let name = match name_from_labels(&labels) {
            Ok(n) => n,
            Err(e) => return Err(DnsError::Wire(e)),
        };
        let message = Self::lookup_message(name, qtype);
        match encode_message(&message) {
            Ok(b) => Ok(b),
            Err(e) => Err(DnsError::Wire(e)),
        }
    }

    /// Decodes the answer to a lookup, and reads from it what resolution
    /// needs: its response code and the three record sections of the
    /// message handed back, record for record. Fails, with hickory's error,
    /// exactly where hickory does not decode the bytes.
    pub fn read_lookup_response(bytes: &[u8]) -> (r: Result<(Message, ResponseInfo), DnsError>)
        ensures
            match decoded(bytes@) {
                Some(d) => (r matches Ok((m, info)) && m == d && summarizes(info, m)),
                None => (r matches Err(DnsError::Wire(_))),
            },
    {
        match decode_message(bytes) {
            Ok(m) => {
                let info = summarize(&m);
                Ok((m, info))
            },
            Err(e) => Err(DnsError::Wire(e)),
        }
    }

    /// Asks the breaker whether a lookup may go out. A refused lookup is
    /// counted under `CircuitBreakerRejections` and reports the circuit open;
    /// a permitted one changes nothing.
    pub fn admit_lookup(&self, metrics: &mut Metrics) -> (permitted: bool)
        ensures
            permitted ==> final(metrics)@ == old(metrics)@,
            !permitted ==> final(metrics)@ == old(metrics)@.incremented(Counter::CircuitBreakerRejections).with_circuit(
                true,
            ),
    {
        let permitted = breaker_permits(&self.breaker);
        note_lookup_permission(permitted, metrics);
        permitted
    }

    /// Takes the upstream's answer to a lookup: reads it as
    /// `read_lookup_response` does. A response is recorded as a success on
    /// the breaker and reports it closed on `metrics`, with no counter
    /// changed; an unreadable answer is recorded as a failure and leaves
    /// `metrics` as it was.
    pub fn receive_lookup_response(&self, bytes: &[u8], metrics: &mut Metrics) -> (r: Result<(Message, ResponseInfo), DnsError>)
        ensures
            match decoded(bytes@) {
                Some(d) => (r matches Ok((m, info)) && m == d && summarizes(info, m)),
                None => (r matches Err(DnsError::Wire(_))),
            },
            r is Ok ==> final(metrics)@ == old(metrics)@.with_circuit(false),
            r is Err ==> final(metrics)@ == old(metrics)@,
    {
        let r = Self::read_lookup_response(bytes);
        if r.is_ok() {
            breaker_record_success(&self.breaker);
            metrics.set_circuit_open(false);
        } else {
            breaker_record_failure(&self.breaker);
        }
        r
    }

    /// Records a lookup that got no answer on the breaker as a failure; one
    /// that timed out is also counted under `UpstreamTimeouts`.
    pub fn lookup_failed(&self, timed_out: bool, metrics: &mut Metrics)
        ensures
            timed_out ==> final(metrics)@ == old(metrics)@.incremented(Counter::UpstreamTimeouts),
            !timed_out ==> final(metrics)@ == old(metrics)@,
    {
        breaker_record_failure(&self.breaker);
        if timed_out {
            metrics.incr(Counter::UpstreamTimeouts);
        }
    }
}

} // verus!
