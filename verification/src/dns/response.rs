//! The parts of an upstream response that steer a resolution: its response
//! code, the addresses among its answers, its referrals to name servers, and
//! the glue addresses for those servers.

use vstd::prelude::*;
use super::name::{in_zone, same_name, DomainName};

verus! {

/// The response code for success.
pub const RCODE_NO_ERROR: u16 = 0;

/// The response code for a malformed query.
pub const RCODE_FORMAT_ERROR: u16 = 1;

/// The response code for a server failure.
pub const RCODE_SERVER_FAILURE: u16 = 2;

/// The response code for a name that does not exist.
pub const RCODE_NAME_ERROR: u16 = 3;

/// The record type of an IPv4 address record.
pub const RECORD_TYPE_A: u16 = 1;

/// The data of a record, as far as resolution reads it.
pub enum RecordContent {
    /// An IPv4 address, as its 32 bits.
    A(u32),
    /// A name server: its name, and that name written out as text.
    Ns { target: DomainName, text: String },
    /// Any other data, or none.
    Other,
}

/// A record: its owner name and its data.
pub struct RecordSummary {
    pub owner: DomainName,
    pub data: RecordContent,
}

/// The data of a record as plain values.
pub enum ContentView {
    A(u32),
    Ns(Seq<Seq<u8>>, Seq<char>),
    Other,
}

/// A record as plain values: its owner's labels and its data.
pub struct RecordView {
    pub owner: Seq<Seq<u8>>,
    pub data: ContentView,
}

impl View for RecordSummary {
    type V = RecordView;

    open spec fn view(&self) -> RecordView {
        RecordView {
            owner: self.owner@,
            data: match self.data {
                RecordContent::A(a) => ContentView::A(a),
                RecordContent::Ns { target, text } => ContentView::Ns(target@, text@),
                RecordContent::Other => ContentView::Other,
            },
        }
    }
}

/// The views of a sequence of records.
pub open spec fn record_views(s: Seq<RecordSummary>) -> Seq<RecordView> {
    s.map_values(|r: RecordSummary| r@)
}

/// A response: its code, and its answer, authority and additional sections
/// in order.
pub struct ResponseInfo {
    pub code: u16,
    pub answers: Vec<RecordSummary>,
    pub authority: Vec<RecordSummary>,
    pub additionals: Vec<RecordSummary>,
}

pub open spec fn address_of(r: RecordSummary) -> Option<u32> {
    match r.data {
        RecordContent::A(a) => Some(a),
        _ => None,
    }
}

/// The address of the first address record among `recs`.
pub open spec fn first_address(recs: Seq<RecordSummary>) -> Option<u32>
    decreases recs.len(),
{
    if recs.len() == 0 {
        None
    } else {
        match first_address(recs.drop_last()) {
            Some(a) => Some(a),
            None => address_of(recs.last()),
        }
    }
}

/// Whether `r` refers the query for `qname` to a name server: a name server
/// record whose owner is a zone holding `qname`.
pub open spec fn is_referral(r: RecordSummary, qname: Seq<Seq<u8>>) -> bool {
    r.data is Ns && in_zone(r.owner@, qname)
}

/// The address of the first address record among `adds` owned by `target`.
pub open spec fn glue_for(adds: Seq<RecordSummary>, target: Seq<Seq<u8>>) -> Option<u32>
    decreases adds.len(),
{
    if adds.len() == 0 {
        None
    } else {
        match glue_for(adds.drop_last(), target) {
            Some(a) => Some(a),
            None => if same_name(adds.last().owner@, target) {
                address_of(adds.last())
            } else {
                None
            },
        }
    }
}

/// Going through the referrals for `qname` in order, the first glue address
/// found for one of their name servers.
pub open spec fn referral_glue(auth: Seq<RecordSummary>, adds: Seq<RecordSummary>, qname: Seq<Seq<u8>>) -> Option<u32>
    decreases auth.len(),
{
    if auth.len() == 0 {
        None
    } else {
        match referral_glue(auth.drop_last(), adds, qname) {
            Some(a) => Some(a),
            None => if is_referral(auth.last(), qname) {
                glue_for(adds, auth.last().data->target@)
            } else {
                None
            },
        }
    }
}

/// The position of the first referral for `qname`.
pub open spec fn first_referral(auth: Seq<RecordSummary>, qname: Seq<Seq<u8>>) -> Option<int>
    decreases auth.len(),
{
    if auth.len() == 0 {
        None
    } else {
        match first_referral(auth.drop_last(), qname) {
            Some(i) => Some(i),
            None => if is_referral(auth.last(), qname) {
                Some(auth.len() - 1)
            } else {
                None
            },
        }
    }
}

/// Whether a response ends the search for its question: it answers without
/// error, or says the name does not exist.
pub open spec fn ends_search(info: ResponseInfo) -> bool {
    (info.answers@.len() > 0 && info.code == RCODE_NO_ERROR) || info.code == RCODE_NAME_ERROR
}

pub fn address_in(r: &RecordSummary) -> (a: Option<u32>)
    ensures
        a == address_of(*r),
{
    match r.data {
        RecordContent::A(a) => Some(a),
        _ => None,
    }
}

impl ResponseInfo {
    /// The address of the first address record among the answers.
    pub fn first_answer_address(&self) -> (a: Option<u32>)
        ensures
            a == first_address(self.answers@),
    {
        let mut i: usize = 0;
        while i < self.answers.len()
            invariant
                i <= self.answers.len(),
                first_address(self.answers@.take(i as int)) is None,
            decreases self.answers.len() - i,
        {
            assert(self.answers@.take(i + 1).drop_last() =~= self.answers@.take(i as int));
            let a = address_in(&self.answers[i]);
            if a.is_some() {
                proof {
                    let s = self.answers@.take(i + 1);
                    assert(s.last() == self.answers@[i as int]);
                    lemma_first_address_prefix(self.answers@, i + 1);
                }
                return a;
            }
            i = i + 1;
        }
        assert(self.answers@.take(i as int) =~= self.answers@);
        None
    }

    /// Whether the response ends the search for its question.
    pub fn is_final(&self) -> (r: bool)
        ensures
            r == ends_search(*self),
    {
        (self.answers.len() > 0 && self.code == RCODE_NO_ERROR) || self.code == RCODE_NAME_ERROR
    }

    /// The first glue address among the additionals for `target`.
    pub fn glue_address(&self, target: &DomainName) -> (a: Option<u32>)
        ensures
            a == glue_for(self.additionals@, target@),
    {
        let mut i: usize = 0;
        while i < self.additionals.len()
            invariant
                i <= self.additionals.len(),
                glue_for(self.additionals@.take(i as int), target@) is None,
            decreases self.additionals.len() - i,
        {
            assert(self.additionals@.take(i + 1).drop_last() =~= self.additionals@.take(i as int));
            let r = &self.additionals[i];
            if r.owner.same_as(target) {
                let a = address_in(r);
                if a.is_some() {
                    proof {
                        lemma_glue_prefix(self.additionals@, target@, i + 1);
                    }
                    return a;
                }
            }
            i = i + 1;
        }
        assert(self.additionals@.take(i as int) =~= self.additionals@);
        None
    }

    /// The address of a name server that the response refers `qname` to and
    /// whose address it carries as glue: the referrals are taken in order,
    /// and for each the additionals in order.
    pub fn referral_address(&self, qname: &DomainName) -> (a: Option<u32>)
        ensures
            a == referral_glue(self.authority@, self.additionals@, qname@),
    {
        let mut i: usize = 0;
        while i < self.authority.len()
            invariant
                i <= self.authority.len(),
                referral_glue(self.authority@.take(i as int), self.additionals@, qname@) is None,
            decreases self.authority.len() - i,
        {
            assert(self.authority@.take(i + 1).drop_last() =~= self.authority@.take(i as int));
            let r = &self.authority[i];
            match &r.data {
                RecordContent::Ns { target, text: _ } => {
                    if r.owner.is_zone_of(qname) {
                        let a = self.glue_address(target);
                        if a.is_some() {
                            proof {
                                lemma_referral_glue_prefix(self.authority@, self.additionals@, qname@, i + 1);
                            }
                            return a;
                        }
                    }
                },
                _ => {},
            }
            i = i + 1;
        }
        assert(self.authority@.take(i as int) =~= self.authority@);
        None
    }

    /// The position of the first record that refers `qname` to a name server.
    pub fn referral_index(&self, qname: &DomainName) -> (i: Option<usize>)
        ensures
            match i {
                Some(i) => first_referral(self.authority@, qname@) == Some(i as int),
                None => first_referral(self.authority@, qname@) is None,
            },
    {
        let mut i: usize = 0;
        while i < self.authority.len()
            invariant
                i <= self.authority.len(),
                first_referral(self.authority@.take(i as int), qname@) is None,
            decreases self.authority.len() - i,
        {
            assert(self.authority@.take(i + 1).drop_last() =~= self.authority@.take(i as int));
            let r = &self.authority[i];
            if r.data.is_ns() && r.owner.is_zone_of(qname) {
                proof {
                    lemma_first_referral_prefix(self.authority@, qname@, i + 1);
                }
                return Some(i);
            }
            i = i + 1;
        }
        assert(self.authority@.take(i as int) =~= self.authority@);
        None
    }
}

impl RecordContent {
    pub fn is_ns(&self) -> (r: bool)
        ensures
            r == (*self is Ns),
    {
        match self {
            RecordContent::Ns { .. } => true,
            _ => false,
        }
    }
}

proof fn lemma_first_address_prefix(s: Seq<RecordSummary>, n: int)
    requires
        0 < n <= s.len(),
        first_address(s.take(n - 1)) is None,
        address_of(s[n - 1]) is Some,
    ensures
        first_address(s) == address_of(s[n - 1]),
    decreases s.len() - n,
{
    assert(s.take(n).drop_last() =~= s.take(n - 1));
    if n < s.len() {
        lemma_first_address_extend(s, n);
    } else {
        assert(s.take(n) =~= s);
    }
}

proof fn lemma_first_address_extend(s: Seq<RecordSummary>, n: int)
    requires
        0 <= n <= s.len(),
        first_address(s.take(n)) is Some,
    ensures
        first_address(s) == first_address(s.take(n)),
    decreases s.len() - n,
{
    if n < s.len() {
        assert(s.take(n + 1).drop_last() =~= s.take(n));
        lemma_first_address_extend(s, n + 1);
    } else {
        assert(s.take(n) =~= s);
    }
}

proof fn lemma_glue_prefix(s: Seq<RecordSummary>, target: Seq<Seq<u8>>, n: int)
    requires
        0 < n <= s.len(),
        glue_for(s.take(n - 1), target) is None,
        same_name(s[n - 1].owner@, target),
        address_of(s[n - 1]) is Some,
    ensures
        glue_for(s, target) == address_of(s[n - 1]),
    decreases s.len() - n,
{
    assert(s.take(n).drop_last() =~= s.take(n - 1));
    lemma_glue_extend(s, target, n);
}

proof fn lemma_glue_extend(s: Seq<RecordSummary>, target: Seq<Seq<u8>>, n: int)
    requires
        0 <= n <= s.len(),
        glue_for(s.take(n), target) is Some,
    ensures
        glue_for(s, target) == glue_for(s.take(n), target),
    decreases s.len() - n,
{
    if n < s.len() {
        assert(s.take(n + 1).drop_last() =~= s.take(n));
        lemma_glue_extend(s, target, n + 1);
    } else {
        assert(s.take(n) =~= s);
    }
}

proof fn lemma_referral_glue_prefix(auth: Seq<RecordSummary>, adds: Seq<RecordSummary>, qname: Seq<Seq<u8>>, n: int)
    requires
        0 < n <= auth.len(),
        referral_glue(auth.take(n - 1), adds, qname) is None,
        is_referral(auth[n - 1], qname),
        glue_for(adds, auth[n - 1].data->target@) is Some,
    ensures
        referral_glue(auth, adds, qname) == glue_for(adds, auth[n - 1].data->target@),
    decreases auth.len() - n,
{
    assert(auth.take(n).drop_last() =~= auth.take(n - 1));
    lemma_referral_glue_extend(auth, adds, qname, n);
}

proof fn lemma_referral_glue_extend(auth: Seq<RecordSummary>, adds: Seq<RecordSummary>, qname: Seq<Seq<u8>>, n: int)
    requires
        0 <= n <= auth.len(),
        referral_glue(auth.take(n), adds, qname) is Some,
    ensures
        referral_glue(auth, adds, qname) == referral_glue(auth.take(n), adds, qname),
    decreases auth.len() - n,
{
    if n < auth.len() {
        assert(auth.take(n + 1).drop_last() =~= auth.take(n));
        lemma_referral_glue_extend(auth, adds, qname, n + 1);
    } else {
        assert(auth.take(n) =~= auth);
    }
}

proof fn lemma_first_referral_prefix(auth: Seq<RecordSummary>, qname: Seq<Seq<u8>>, n: int)
    requires
        0 < n <= auth.len(),
        first_referral(auth.take(n - 1), qname) is None,
        is_referral(auth[n - 1], qname),
    ensures
        first_referral(auth, qname) == Some(n - 1),
    decreases auth.len() - n,
{
    assert(auth.take(n).drop_last() =~= auth.take(n - 1));
    lemma_first_referral_extend(auth, qname, n);
}

proof fn lemma_first_referral_extend(auth: Seq<RecordSummary>, qname: Seq<Seq<u8>>, n: int)
    requires
        0 <= n <= auth.len(),
        first_referral(auth.take(n), qname) is Some,
    ensures
        first_referral(auth, qname) == first_referral(auth.take(n), qname),
    decreases auth.len() - n,
{
    if n < auth.len() {
        assert(auth.take(n + 1).drop_last() =~= auth.take(n));
        lemma_first_referral_extend(auth, qname, n + 1);
    } else {
        assert(auth.take(n) =~= auth);
    }
}

} // verus!
