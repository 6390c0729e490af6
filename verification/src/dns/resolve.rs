//! Iterative resolution, as a state machine. The machine decides; whoever
//! drives it performs the lookups it asks for and hands back each response.
//!
//! The state is a stack of frames, one per name being resolved. The top
//! frame is always active: it names the server to ask next. Every frame
//! below it is suspended: it waits for the address of a name server, and
//! keeps the referral response it got, to fall back on.

use vstd::prelude::*;
use super::response::{
    ends_search, first_address, first_referral, referral_glue, ResponseInfo, RecordContent,
    RECORD_TYPE_A,
};
use super::wire::{parse_name, parsed_name};

verus! {

pub enum FrameState<R> {
    /// Waiting for the answer of the server at this IPv4 address.
    Active(u32),
    /// Waiting for a name server's address; keeps the referral response and
    /// the first address among its answers.
    Suspended(R, Option<u32>),
}

pub struct Frame<R> {
    /// The name being resolved, as text.
    pub qname: String,
    /// The record type asked for.
    pub qtype: u16,
    pub state: FrameState<R>,
}

/// A lookup to perform: ask the server at `server` for `qtype` records of
/// `qname`.
pub struct LookupRequest {
    pub qname: String,
    pub qtype: u16,
    pub server: u32,
}

#[derive(Debug, PartialEq, Eq, Structural)]
pub enum ResolveError {
    /// The name being resolved is not a name hickory can read.
    InvalidName,
}

pub struct Resolution<R> {
    stack: Vec<Frame<R>>,
    seed: u32,
}

/// The shape every resolution keeps between steps: at least one frame, the
/// top one active, all others suspended.
pub open spec fn well_formed<R>(stack: Seq<Frame<R>>) -> bool {
    &&& stack.len() > 0
    &&& stack.last().state is Active
    &&& all_suspended(stack.drop_last())
}

pub open spec fn all_suspended<R>(stack: Seq<Frame<R>>) -> bool {
    forall|i: int| 0 <= i < stack.len() ==> (#[trigger] stack[i]).state is Suspended
}

pub open spec fn with_state<R>(f: Frame<R>, state: FrameState<R>) -> Frame<R> {
    Frame { qname: f.qname, qtype: f.qtype, state }
}

/// Hands `result` back down the stack. The top suspended frame resumes,
/// asking the server at the first address among `result`'s answers; where
/// there is none, the frame gives up and its kept referral response is
/// handed further down. When the stack runs out, `result` is the answer.
pub open spec fn unwind<R>(stack: Seq<Frame<R>>, result: R, result_addr: Option<u32>) -> (Seq<Frame<R>>, Option<R>)
    decreases stack.len(),
{
    if stack.len() == 0 {
        (stack, Some(result))
    } else {
        match stack.last().state {
            FrameState::Suspended(fallback, fallback_addr) => match result_addr {
                Some(ip) => (stack.drop_last().push(with_state(stack.last(), FrameState::Active(ip))), None),
                None => unwind(stack.drop_last(), fallback, fallback_addr),
            },
            FrameState::Active(_) => (stack, None),
        }
    }
}

/// One step, on the response to the top frame's lookup, where `qname` is
/// the top frame's name read as labels. A response that ends the search
/// (an answer without error, or no such name) is handed down the stack.
/// Otherwise a referral with a glue address makes the top frame ask that
/// address next; a referral without one suspends the top frame and starts
/// resolving the name server's own address from the seed server; and a
/// response with no lead at all is handed down like an answer.
pub open spec fn step<R>(stack: Seq<Frame<R>>, seed: u32, response: R, info: ResponseInfo, qname: Seq<Seq<u8>>) -> (Seq<Frame<R>>, Option<R>) {
    let top = stack.last();
    let rest = stack.drop_last();
    let addr = first_address(info.answers@);
    if ends_search(info) {
        unwind(rest, response, addr)
    } else {
        match referral_glue(info.authority@, info.additionals@, qname) {
            Some(ip) => (rest.push(with_state(top, FrameState::Active(ip))), None),
            None => match first_referral(info.authority@, qname) {
                Some(i) => (
                    rest.push(with_state(top, FrameState::Suspended(response, addr))).push(
                        Frame {
                            qname: info.authority@[i].data->text,
                            qtype: RECORD_TYPE_A,
                            state: FrameState::Active(seed),
                        },
                    ),
                    None,
                ),
                None => unwind(rest, response, addr),
            },
        }
    }
}

proof fn lemma_unwind_keeps_shape<R>(stack: Seq<Frame<R>>, result: R, result_addr: Option<u32>)
    requires
        all_suspended(stack),
    ensures
        unwind(stack, result, result_addr).1 is None ==> well_formed(unwind(stack, result, result_addr).0),
        unwind(stack, result, result_addr).0.len() <= stack.len(),
    decreases stack.len(),
{
    if stack.len() > 0 {
        let top = stack.last();
        assert(stack[stack.len() - 1].state is Suspended);
        match top.state {
            FrameState::Suspended(fallback, fallback_addr) => match result_addr {
                Some(ip) => {
                    let s = stack.drop_last().push(with_state(top, FrameState::Active(ip)));
                    assert(s.drop_last() =~= stack.drop_last());
                },
                None => {
                    lemma_unwind_keeps_shape(stack.drop_last(), fallback, fallback_addr);
                },
            },
            FrameState::Active(_) => {},
        }
    }
}

/// A resolution keeps its shape: after any step that does not finish, the
/// top frame is active and all others suspended; and a step adds at most
/// one frame.
pub proof fn lemma_step_keeps_shape<R>(stack: Seq<Frame<R>>, seed: u32, response: R, info: ResponseInfo, qname: Seq<Seq<u8>>)
    requires
        well_formed(stack),
    ensures
        step(stack, seed, response, info, qname).1 is None ==> well_formed(step(stack, seed, response, info, qname).0),
        step(stack, seed, response, info, qname).0.len() <= stack.len() + 1,
{
    let top = stack.last();
    let rest = stack.drop_last();
    let addr = first_address(info.answers@);
    lemma_unwind_keeps_shape(rest, response, addr);
    if !ends_search(info) {
        match referral_glue(info.authority@, info.additionals@, qname) {
            Some(ip) => {
                assert(rest.push(with_state(top, FrameState::Active(ip))).drop_last() =~= rest);
            },
            None => match first_referral(info.authority@, qname) {
                Some(i) => {
                    let s1 = rest.push(with_state(top, FrameState::Suspended(response, addr)));
                    let s2 = s1.push(Frame { qname: info.authority@[i].data->text, qtype: RECORD_TYPE_A, state: FrameState::Active(seed) });
                    assert(s2.drop_last() =~= s1);
                    assert(all_suspended(s1));
                },
                None => {},
            },
        }
    }
}

/// Where `unwind` finishes, its answer is the result handed in or a
/// referral response that one of the frames kept.
pub open spec fn kept_by<R>(stack: Seq<Frame<R>>, r: R) -> bool {
    exists|i: int| 0 <= i < stack.len() && keeps(#[trigger] stack[i], r)
}

/// Whether `f` is suspended and keeps `r` to fall back on.
pub open spec fn keeps<R>(f: Frame<R>, r: R) -> bool {
    match f.state {
        FrameState::Suspended(kept, _) => kept == r,
        FrameState::Active(_) => false,
    }
}

proof fn lemma_unwind_answer_origin<R>(stack: Seq<Frame<R>>, result: R, result_addr: Option<u32>)
    ensures
        unwind(stack, result, result_addr).1 matches Some(r) ==> r == result || kept_by(stack, r),
    decreases stack.len(),
{
    if stack.len() > 0 {
        match stack.last().state {
            FrameState::Suspended(fallback, fallback_addr) => match result_addr {
                Some(ip) => {},
                None => {
                    lemma_unwind_answer_origin(stack.drop_last(), fallback, fallback_addr);
                    if let Some(r) = unwind(stack, result, result_addr).1 {
                        if r == fallback {
                            assert(keeps(stack[stack.len() - 1], r));
                        } else if kept_by(stack.drop_last(), r) {
                            let i = choose|i: int|
                                0 <= i < stack.drop_last().len() && keeps(#[trigger] stack.drop_last()[i], r);
                            assert(stack[i] == stack.drop_last()[i]);
                        }
                    }
                },
            },
            FrameState::Active(_) => {},
        }
    }
}

/// The answer a resolution hands back is a response that it was given: the
/// response to the step that finished it, or a referral response that one
/// of its frames kept.
pub proof fn lemma_answer_was_received<R>(stack: Seq<Frame<R>>, seed: u32, response: R, info: ResponseInfo, qname: Seq<Seq<u8>>)
    requires
        well_formed(stack),
    ensures
        step(stack, seed, response, info, qname).1 matches Some(r) ==> r == response || kept_by(stack, r),
{
    let rest = stack.drop_last();
    lemma_unwind_answer_origin(rest, response, first_address(info.answers@));
    if let Some(r) = step(stack, seed, response, info, qname).1 {
        if r != response && kept_by(rest, r) {
            let i = choose|i: int| 0 <= i < rest.len() && keeps(#[trigger] rest[i], r);
            assert(stack[i] == rest[i]);
        }
    }
}

/// A lone frame whose lookup ends the search finishes the resolution with
/// that very response.
pub proof fn lemma_direct_answer_finishes<R>(frame: Frame<R>, seed: u32, response: R, info: ResponseInfo, qname: Seq<Seq<u8>>)
    requires
        ends_search(info),
    ensures
        step(seq![frame], seed, response, info, qname) == (Seq::<Frame<R>>::empty(), Some(response)),
{
    assert(seq![frame].drop_last() =~= Seq::<Frame<R>>::empty());
}

/// The glue address that a response hands a frame asking `qname`, where
/// the response does not end the search.
pub open spec fn glue_lead(info: ResponseInfo, qname: Seq<Seq<u8>>) -> Option<u32> {
    if ends_search(info) {
        None
    } else {
        referral_glue(info.authority@, info.additionals@, qname)
    }
}

/// The referral without glue that a response hands a frame asking
/// `qname`: the position of its name-server record, where the response
/// neither ends the search nor carries a glue address.
pub open spec fn glueless_lead(info: ResponseInfo, qname: Seq<Seq<u8>>) -> Option<int> {
    if ends_search(info) || referral_glue(info.authority@, info.additionals@, qname) is Some {
        None
    } else {
        first_referral(info.authority@, qname)
    }
}

/// A referral with a glue address moves the resolution on to that address
/// and nothing else: the question asked stays the same name and the same
/// record type, only the server changes, and every frame below stays.
pub proof fn lemma_glue_referral_keeps_the_question<R>(
    stack: Seq<Frame<R>>,
    seed: u32,
    response: R,
    info: ResponseInfo,
    qname: Seq<Seq<u8>>,
    ip: u32,
)
    requires
        well_formed(stack),
        glue_lead(info, qname) == Some(ip),
    ensures
        step(stack, seed, response, info, qname).1 is None,
        step(stack, seed, response, info, qname).0.len() == stack.len(),
        step(stack, seed, response, info, qname).0.drop_last() == stack.drop_last(),
        step(stack, seed, response, info, qname).0.last().qname == stack.last().qname,
        step(stack, seed, response, info, qname).0.last().qtype == stack.last().qtype,
        step(stack, seed, response, info, qname).0.last().state == FrameState::<R>::Active(ip),
{
    let rest = stack.drop_last();
    assert(rest.push(with_state(stack.last(), FrameState::Active(ip))).drop_last() =~= rest);
}

/// A referral without glue keeps the question and waits on the name
/// server: the frame that asked is suspended with the same name and record
/// type, keeping the referral and the first address among its answers, and
/// a new frame above it asks the seed server for the A records of the name
/// server named by the referral.
pub proof fn lemma_glueless_referral_asks_for_the_server<R>(
    stack: Seq<Frame<R>>,
    seed: u32,
    response: R,
    info: ResponseInfo,
    qname: Seq<Seq<u8>>,
    i: int,
)
    requires
        well_formed(stack),
        glueless_lead(info, qname) == Some(i),
    ensures
        step(stack, seed, response, info, qname).1 is None,
        step(stack, seed, response, info, qname).0.len() == stack.len() + 1,
        step(stack, seed, response, info, qname).0.take(stack.len() - 1) == stack.drop_last(),
        step(stack, seed, response, info, qname).0[stack.len() - 1].qname == stack.last().qname,
        step(stack, seed, response, info, qname).0[stack.len() - 1].qtype == stack.last().qtype,
        step(stack, seed, response, info, qname).0[stack.len() - 1].state == FrameState::Suspended(
            response,
            first_address(info.answers@),
        ),
        step(stack, seed, response, info, qname).0.last().qname == info.authority@[i].data->text,
        step(stack, seed, response, info, qname).0.last().qtype == RECORD_TYPE_A,
        step(stack, seed, response, info, qname).0.last().state == FrameState::<R>::Active(seed),
{
    let rest = stack.drop_last();
    let s1 = rest.push(with_state(stack.last(), FrameState::Suspended(response, first_address(info.answers@))));
    assert(s1.take(stack.len() - 1) =~= rest);
    let s2 = s1.push(Frame { qname: info.authority@[i].data->text, qtype: RECORD_TYPE_A, state: FrameState::Active(seed) });
    assert(s2.take(stack.len() - 1) =~= rest);
}

/// When a name server's address comes back, the frame that waited on it
/// resumes with its own question, the same name and record type, asking
/// the server at that address; the frames below it stay.
pub proof fn lemma_resumed_frame_keeps_its_question<R>(stack: Seq<Frame<R>>, result: R, ip: u32)
    requires
        stack.len() > 0,
        stack.last().state is Suspended,
    ensures
        unwind(stack, result, Some(ip)).1 is None,
        unwind(stack, result, Some(ip)).0.len() == stack.len(),
        unwind(stack, result, Some(ip)).0.drop_last() == stack.drop_last(),
        unwind(stack, result, Some(ip)).0.last().qname == stack.last().qname,
        unwind(stack, result, Some(ip)).0.last().qtype == stack.last().qtype,
        unwind(stack, result, Some(ip)).0.last().state == FrameState::<R>::Active(ip),
{
    assert(stack.drop_last().push(with_state(stack.last(), FrameState::Active(ip))).drop_last() =~= stack.drop_last());
}

impl<R> Resolution<R> {
    pub closed spec fn frames(self) -> Seq<Frame<R>> {
        self.stack@
    }

    /// The server that every resolution, and every lookup of a name
    /// server's own address, starts from.
    pub closed spec fn seed(self) -> u32 {
        self.seed
    }

    pub open spec fn wf(self) -> bool {
        well_formed(self.frames())
    }

    /// A resolution of `qname` for `qtype` records, starting at the seed
    /// server.
    pub fn new(qname: String, qtype: u16, seed: u32) -> (r: Self)
        ensures
            r.frames() == seq![Frame { qname, qtype, state: FrameState::<R>::Active(seed) }],
            r.seed() == seed,
            r.wf(),
    {
        let mut stack: Vec<Frame<R>> = Vec::new();
        stack.push(Frame { qname, qtype, state: FrameState::Active(seed) });
        let r = Resolution { stack, seed };
        assert(r.frames().drop_last() =~= Seq::<Frame<R>>::empty());
        assert(r.frames() =~= seq![Frame { qname, qtype, state: FrameState::<R>::Active(seed) }]);
        r
    }

    /// The number of frames.
    pub fn depth(&self) -> (n: usize)
        ensures
            n == self.frames().len(),
    {
        self.stack.len()
    }

    /// The lookup to perform next: the top frame's name and type, and the
    /// server it is waiting on.
    pub fn next_lookup(&self) -> (q: LookupRequest)
        requires
            self.wf(),
        ensures
            q.qname@ == self.frames().last().qname@,
            q.qtype == self.frames().last().qtype,
            self.frames().last().state == FrameState::<R>::Active(q.server),
    {
        let top = &self.stack[self.stack.len() - 1];
        let server = match top.state {
            FrameState::Active(ip) => ip,
            FrameState::Suspended(_, _) => 0,
        };
        LookupRequest { qname: top.qname.clone(), qtype: top.qtype, server }
    }

    /// Hands `result` (whose answers' first address is `result_addr`) down
    /// the stack, as `unwind` says.
    fn unwind_with(&mut self, result: R, result_addr: Option<u32>) -> (done: Option<R>)
        requires
            all_suspended(old(self).frames()),
        ensures
            (final(self).frames(), done) == unwind(old(self).frames(), result, result_addr),
            final(self).seed() == old(self).seed(),
    {
        let mut cur = result;
        let mut cur_addr = result_addr;
        let ghost goal = unwind(self.frames(), result, result_addr);
        loop
            invariant
                all_suspended(self.frames()),
                unwind(self.frames(), cur, cur_addr) == goal,
                goal == unwind(old(self).frames(), result, result_addr),
                self.seed() == old(self).seed(),
            decreases self.stack.len(),
        {
            if self.stack.len() == 0 {
                return Some(cur);
            }
            let ghost before = self.frames();
            let top = self.stack.pop().unwrap();
            assert(self.frames() =~= before.drop_last());
            assert(before[before.len() - 1] == top);
            let Frame { qname, qtype, state } = top;
            match state {
                FrameState::Suspended(fallback, fallback_addr) => {
                    match cur_addr {
                        Some(ip) => {
                            self.stack.push(Frame { qname, qtype, state: FrameState::Active(ip) });
                            return None;
                        },
                        None => {
                            cur = fallback;
                            cur_addr = fallback_addr;
                        },
                    }
                },
                FrameState::Active(ip) => {
                    assert(before[before.len() - 1].state is Suspended);
                    self.stack.push(Frame { qname, qtype, state: FrameState::Active(ip) });
                    assert(self.frames() =~= before);
                    return None;
                },
            }
        }
    }

    /// One step on the response to the lookup that `next_lookup` asked
    /// for, with `info` read from that response. The top frame's name is
    /// read with `Name::from_str` first; where hickory refuses it the
    /// resolution fails and nothing changes. Otherwise the frames move as
    /// `step` says, and the result is `Some(answer)` when the resolution is
    /// done, `None` when there is a next lookup to perform.
    pub fn advance(&mut self, response: R, info: ResponseInfo) -> (r: Result<Option<R>, ResolveError>)
        requires
            old(self).wf(),
        ensures
            final(self).seed() == old(self).seed(),
            match parsed_name(old(self).frames().last().qname@) {
                None => r == Err::<Option<R>, ResolveError>(ResolveError::InvalidName) && final(self).frames() == old(self).frames(),
                Some(q) => r matches Ok(done) && (final(self).frames(), done) == step(
                    old(self).frames(),
                    old(self).seed(),
                    response,
                    info,
                    q,
                ),
            },
            r == Ok::<Option<R>, ResolveError>(None) ==> final(self).wf(),
            final(self).frames().len() <= old(self).frames().len() + 1,
            match parsed_name(old(self).frames().last().qname@) {
                Some(q) => match glue_lead(info, q) {
                    Some(ip) => {
                        &&& r == Ok::<Option<R>, ResolveError>(None)
                        &&& final(self).frames().len() == old(self).frames().len()
                        &&& final(self).frames().drop_last() == old(self).frames().drop_last()
                        &&& final(self).frames().last().qname == old(self).frames().last().qname
                        &&& final(self).frames().last().qtype == old(self).frames().last().qtype
                        &&& final(self).frames().last().state == FrameState::<R>::Active(ip)
                    },
                    None => true,
                },
                None => true,
            },
            match parsed_name(old(self).frames().last().qname@) {
                Some(q) => match glueless_lead(info, q) {
                    Some(i) => {
                        let n = old(self).frames().len();
                        &&& r == Ok::<Option<R>, ResolveError>(None)
                        &&& final(self).frames().len() == n + 1
                        &&& final(self).frames().take(n - 1) == old(self).frames().drop_last()
                        &&& final(self).frames()[n - 1].qname == old(self).frames().last().qname
                        &&& final(self).frames()[n - 1].qtype == old(self).frames().last().qtype
                        &&& final(self).frames()[n - 1].state == FrameState::Suspended(
                            response,
                            first_address(info.answers@),
                        )
                        &&& final(self).frames().last().qname@ == info.authority@[i].data->text@
                        &&& final(self).frames().last().qtype == RECORD_TYPE_A
                        &&& final(self).frames().last().state == FrameState::<R>::Active(old(self).seed())
                    },
                    None => true,
                },
                None => true,
            },
    {
        let last = self.stack.len() - 1;
        let parsed = parse_name(self.stack[last].qname.as_str());
        let qname = match parsed {
            None => return Err(ResolveError::InvalidName),
            Some(n) => n,
        };
        proof {
            lemma_step_keeps_shape(self.frames(), self.seed, response, info, qname@);
            if let Some(ip) = glue_lead(info, qname@) {
                lemma_glue_referral_keeps_the_question(self.frames(), self.seed, response, info, qname@, ip);
            }
            if let Some(i) = glueless_lead(info, qname@) {
                lemma_glueless_referral_asks_for_the_server(self.frames(), self.seed, response, info, qname@, i);
            }
        }
        let ghost before = self.frames();
        let addr = info.first_answer_address();
        if info.is_final() {
            let _ = self.stack.pop();
            assert(self.frames() =~= before.drop_last());
            let done = self.unwind_with(response, addr);
            return Ok(done);
        }
        match info.referral_address(&qname) {
            Some(ip) => {
                let top = self.stack.pop().unwrap();
                assert(self.frames() =~= before.drop_last());
                let Frame { qname: name, qtype, state: _ } = top;
                self.stack.push(Frame { qname: name, qtype, state: FrameState::Active(ip) });
                Ok(None)
            },
            None => {
                match info.referral_index(&qname) {
                    Some(i) => {
                        let mut info = info;
                        proof {
                            lemma_referral_is_ns(info.authority@, qname@);
                        }
                        let record = info.authority.remove(i);
                        let text = match record.data {
                            RecordContent::Ns { target: _, text } => text,
                            _ => String::new(),
                        };
                        let top = self.stack.pop().unwrap();
                        assert(self.frames() =~= before.drop_last());
                        let Frame { qname: name, qtype, state: _ } = top;
                        self.stack.push(Frame { qname: name, qtype, state: FrameState::Suspended(response, addr) });
                        self.stack.push(Frame { qname: text, qtype: RECORD_TYPE_A, state: FrameState::Active(self.seed) });
                        Ok(None)
                    },
                    None => {
                        let _ = self.stack.pop();
                        assert(self.frames() =~= before.drop_last());
                        let done = self.unwind_with(response, addr);
                        Ok(done)
                    },
                }
            },
        }
    }
}

proof fn lemma_referral_is_ns(auth: Seq<super::response::RecordSummary>, qname: Seq<Seq<u8>>)
    ensures
        first_referral(auth, qname) matches Some(i) ==> 0 <= i < auth.len() && auth[i].data is Ns,
    decreases auth.len(),
{
    if auth.len() > 0 {
        lemma_referral_is_ns(auth.drop_last(), qname);
    }
}

} // verus!
