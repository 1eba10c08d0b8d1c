//! Failover delivery of one registration document: the endpoints of an
//! operation are contacted strictly in order, the scan stops at the
//! first endpoint whose response body equals the success marker, and
//! the operation fails once every endpoint has been tried in vain.
//!
//! The scan itself decides; whoever drives it performs the HTTP calls
//! and records each reply. A transport fault is recorded like a
//! declined reply: the scan goes on to the next endpoint either way.

use vstd::prelude::*;
use crate::model::str_eq;

verus! {

/// The response body by which a gateway accepts a registration.
pub open spec fn spec_success_marker() -> Seq<char> {
    "success"@
}

/// Whether a response body signals acceptance: it equals exactly the
/// literal success marker, case-sensitive, with no surrounding
/// whitespace tolerated.
pub fn is_success_body(body: &str) -> (r: bool)
    ensures
        r == (body@ == spec_success_marker()),
{
    str_eq(body, "success")
}

/// What one delivery attempt came back with, as recorded: the response
/// body, or `None` for a transport fault.
pub open spec fn spec_reply_view(reply: Option<&str>) -> Option<Seq<char>> {
    match reply {
        Some(b) => Some(b@),
        None => None,
    }
}

/// Whether a recorded reply accepted the registration.
pub open spec fn spec_reply_accepted(reply: Option<Seq<char>>) -> bool {
    match reply {
        Some(b) => b == spec_success_marker(),
        None => false,
    }
}

/// One registration operation in flight: a JSON document, the ordered
/// endpoint list of the operation, and how far the scan has come.
pub struct DeliveryScan {
    endpoints: Vec<String>,
    payload: String,
    next: usize,
    accepted: bool,
    replies: Ghost<Seq<Option<Seq<char>>>>,
}

impl DeliveryScan {
    /// The ordered endpoint list being scanned.
    pub closed spec fn endpoints_view(self) -> Seq<Seq<char>> {
        self.endpoints.deep_view()
    }

    /// The document delivered to each endpoint.
    pub closed spec fn payload_view(self) -> Seq<char> {
        self.payload@
    }

    /// Every reply recorded so far, in the order the endpoints were
    /// contacted.
    pub closed spec fn replies(self) -> Seq<Option<Seq<char>>> {
        self.replies@
    }

    /// Whether some endpoint has accepted the document.
    pub closed spec fn spec_accepted(self) -> bool {
        self.accepted
    }

    /// One reply per contacted endpoint; an endpoint accepted only as
    /// the last one contacted; every reply before that declined.
    pub closed spec fn wf(self) -> bool {
        &&& self.next == self.replies@.len()
        &&& self.next <= self.endpoints@.len()
        &&& (self.accepted ==> self.replies@.len() > 0 && spec_reply_accepted(self.replies@.last()))
        &&& forall|i: int|
            0 <= i < self.replies@.len() && !(self.accepted && i == self.replies@.len() - 1)
                ==> !spec_reply_accepted(#[trigger] self.replies@[i])
    }

    /// The operation's result: accepted, or failed with every endpoint
    /// exhausted, or still undecided.
    pub open spec fn spec_outcome(self) -> Option<bool> {
        if self.spec_accepted() {
            Some(true)
        } else if self.replies().len() == self.endpoints_view().len() {
            Some(false)
        } else {
            None
        }
    }

    /// Whether another endpoint is still to be contacted.
    pub open spec fn spec_pending(self) -> bool {
        self.spec_outcome() is None
    }

    /// Starts a scan over the given endpoints with the given document.
    pub fn new(endpoints: Vec<String>, payload: String) -> (s: Self)
        ensures
            s.wf(),
            s.endpoints_view() == endpoints.deep_view(),
            s.payload_view() == payload@,
            s.replies() == Seq::<Option<Seq<char>>>::empty(),
            !s.spec_accepted(),
    {
        DeliveryScan { endpoints, payload, next: 0, accepted: false, replies: Ghost(Seq::empty()) }
    }

    pub fn is_pending(&self) -> (r: bool)
        requires
            self.wf(),
        ensures
            r == self.spec_pending(),
    {
        !self.accepted && self.next < self.endpoints.len()
    }

    /// The endpoint to contact next.
    pub fn current_url(&self) -> (r: &String)
        requires
            self.wf(),
            self.spec_pending(),
        ensures
            r@ == self.endpoints_view()[self.replies().len() as int],
    {
        &self.endpoints[self.next]
    }

    /// The document to post to each endpoint.
    pub fn request_body(&self) -> (r: &String)
        ensures
            r@ == self.payload_view(),
    {
        &self.payload
    }

    /// How many endpoints have been contacted so far.
    pub fn attempts_made(&self) -> (r: usize)
        requires
            self.wf(),
        ensures
            r == self.replies().len(),
    {
        self.next
    }

    /// Records what the endpoint contacted last came back with and
    /// decides: stop on the success marker, otherwise go on.
    pub fn record(&mut self, reply: Option<&str>)
        requires
            old(self).wf(),
            old(self).spec_pending(),
        ensures
            final(self).wf(),
            final(self).endpoints_view() == old(self).endpoints_view(),
            final(self).payload_view() == old(self).payload_view(),
            final(self).replies() == old(self).replies().push(spec_reply_view(reply)),
            final(self).spec_accepted() == spec_reply_accepted(spec_reply_view(reply)),
    {
        let n = self.endpoints.len();
        proof {
            assert(self.next < n);
        }
        let ok = match reply {
            Some(b) => is_success_body(b),
            None => false,
        };
        self.replies = Ghost(self.replies@.push(spec_reply_view(reply)));
        self.accepted = ok;
        self.next = self.next + 1;
    }

    pub fn outcome(&self) -> (r: Option<bool>)
        requires
            self.wf(),
        ensures
            r == self.spec_outcome(),
    {
        if self.accepted {
            Some(true)
        } else if self.next == self.endpoints.len() {
            Some(false)
        } else {
            None
        }
    }
}

/// An operation whose first endpoint accepts stops there: exactly one
/// endpoint was contacted, and none later is.
pub proof fn lemma_early_exit(s: DeliveryScan)
    requires
        s.wf(),
        s.replies().len() > 0,
        spec_reply_accepted(s.replies()[0]),
    ensures
        s.spec_accepted(),
        s.replies().len() == 1,
        s.spec_outcome() == Some(true),
{
    if !s.spec_accepted() {
        assert(!spec_reply_accepted(s.replies()[0]));
    }
    if s.replies().len() > 1 {
        assert(!spec_reply_accepted(s.replies()[0]));
    }
}

/// An operation that reports failure has contacted every endpoint in
/// its list, and not one of them accepted.
pub proof fn lemma_all_declined(s: DeliveryScan)
    requires
        s.wf(),
        s.spec_outcome() == Some(false),
    ensures
        s.replies().len() == s.endpoints_view().len(),
        forall|i: int| 0 <= i < s.replies().len() ==> !spec_reply_accepted(#[trigger] s.replies()[i]),
{
}

/// Once every endpoint has replied without the success marker, the
/// operation's result is failure.
pub proof fn lemma_exhaustion_fails(s: DeliveryScan)
    requires
        s.wf(),
        s.replies().len() == s.endpoints_view().len(),
        forall|i: int| 0 <= i < s.replies().len() ==> !spec_reply_accepted(#[trigger] s.replies()[i]),
    ensures
        s.spec_outcome() == Some(false),
{
    if s.spec_accepted() {
        assert(!spec_reply_accepted(s.replies()[s.replies().len() - 1]));
    }
}

/// A finished delivery of one document: some endpoint, reached in
/// order, accepted it, and every endpoint contacted before declined.
pub open spec fn spec_descriptor_done(rs: Seq<Option<Seq<char>>>, n_eps: nat) -> bool {
    &&& 1 <= rs.len() <= n_eps
    &&& spec_reply_accepted(rs.last())
    &&& forall|j: int| 0 <= j < rs.len() - 1 ==> !spec_reply_accepted(#[trigger] rs[j])
}

/// Registration of a whole route-descriptor list in flight: one
/// document per descriptor, delivered in descriptor order, each with
/// its own failover scan over the metadata endpoints; the whole run
/// halts at the first descriptor whose endpoint list is exhausted.
pub struct MetadataScan {
    payloads: Vec<String>,
    endpoints: Vec<String>,
    desc_idx: usize,
    ep_idx: usize,
    attempts: Ghost<Seq<Seq<Option<Seq<char>>>>>,
}

impl MetadataScan {
    /// One JSON document per route descriptor, in descriptor order.
    pub closed spec fn payloads_view(self) -> Seq<Seq<char>> {
        self.payloads.deep_view()
    }

    /// The ordered metadata endpoint list.
    pub closed spec fn endpoints_view(self) -> Seq<Seq<char>> {
        self.endpoints.deep_view()
    }

    /// The replies recorded so far, grouped by descriptor, each group
    /// in the order the endpoints were contacted.
    pub closed spec fn attempts(self) -> Seq<Seq<Option<Seq<char>>>> {
        self.attempts@
    }

    /// How many descriptors have been registered so far.
    pub closed spec fn spec_descriptor(self) -> int {
        self.desc_idx as int
    }

    /// How many endpoints the current descriptor has tried so far.
    pub closed spec fn spec_ep(self) -> int {
        self.ep_idx as int
    }

    /// Every descriptor before the current one was accepted by some
    /// endpoint; the current one has so far only been declined.
    pub closed spec fn wf(self) -> bool {
        let a = self.attempts@;
        let n = self.payloads@.len();
        let m = self.endpoints@.len();
        &&& self.desc_idx <= n
        &&& (forall|d: int| 0 <= d < self.desc_idx ==> spec_descriptor_done(#[trigger] a[d], m))
        &&& if self.desc_idx < n {
            &&& a.len() == self.desc_idx + 1
            &&& a.last().len() == self.ep_idx
            &&& self.ep_idx <= m
            &&& forall|j: int| 0 <= j < a.last().len() ==> !spec_reply_accepted(#[trigger] a.last()[j])
        } else {
            &&& a.len() == n
            &&& self.ep_idx == 0
        }
    }

    /// The run's result: every descriptor registered, or halted with
    /// one descriptor's endpoints exhausted, or still undecided.
    pub open spec fn spec_outcome(self) -> Option<bool> {
        if self.spec_descriptor() == self.payloads_view().len() {
            Some(true)
        } else if self.spec_ep() == self.endpoints_view().len() {
            Some(false)
        } else {
            None
        }
    }

    pub open spec fn spec_pending(self) -> bool {
        self.spec_outcome() is None
    }

    /// Starts the run over the given documents and endpoints.
    pub fn new(payloads: Vec<String>, endpoints: Vec<String>) -> (s: Self)
        ensures
            s.wf(),
            s.payloads_view() == payloads.deep_view(),
            s.endpoints_view() == endpoints.deep_view(),
            s.spec_descriptor() == 0,
            s.attempts() == (if payloads.deep_view().len() == 0 {
                Seq::<Seq<Option<Seq<char>>>>::empty()
            } else {
                seq![Seq::<Option<Seq<char>>>::empty()]
            }),
    {
        let ghost a = if payloads@.len() == 0 {
            Seq::<Seq<Option<Seq<char>>>>::empty()
        } else {
            seq![Seq::<Option<Seq<char>>>::empty()]
        };
        MetadataScan { payloads, endpoints, desc_idx: 0, ep_idx: 0, attempts: Ghost(a) }
    }

    pub fn is_pending(&self) -> (r: bool)
        requires
            self.wf(),
        ensures
            r == self.spec_pending(),
    {
        self.desc_idx < self.payloads.len() && self.ep_idx < self.endpoints.len()
    }

    /// The endpoint to contact next for the current descriptor.
    pub fn current_url(&self) -> (r: &String)
        requires
            self.wf(),
            self.spec_pending(),
        ensures
            r@ == self.endpoints_view()[self.spec_ep()],
    {
        &self.endpoints[self.ep_idx]
    }

    /// The document of the current descriptor.
    pub fn request_body(&self) -> (r: &String)
        requires
            self.wf(),
            self.spec_pending(),
        ensures
            r@ == self.payloads_view()[self.spec_descriptor()],
    {
        &self.payloads[self.desc_idx]
    }

    /// Records what the endpoint contacted last came back with and
    /// decides: on the success marker move to the next descriptor, on
    /// anything else try the next endpoint, and halt once the current
    /// descriptor has no endpoint left.
    pub fn record(&mut self, reply: Option<&str>)
        requires
            old(self).wf(),
            old(self).spec_pending(),
        ensures
            final(self).wf(),
            final(self).payloads_view() == old(self).payloads_view(),
            final(self).endpoints_view() == old(self).endpoints_view(),
            ({
                let a = old(self).attempts();
                let cur = a.last().push(spec_reply_view(reply));
                if spec_reply_accepted(spec_reply_view(reply)) {
                    &&& final(self).spec_descriptor() == old(self).spec_descriptor() + 1
                    &&& final(self).attempts() == (if old(self).spec_descriptor() + 1 < old(
                        self,
                    ).payloads_view().len() {
                        a.update(a.len() - 1, cur).push(Seq::<Option<Seq<char>>>::empty())
                    } else {
                        a.update(a.len() - 1, cur)
                    })
                } else {
                    &&& final(self).spec_descriptor() == old(self).spec_descriptor()
                    &&& final(self).spec_ep() == old(self).spec_ep() + 1
                    &&& final(self).attempts() == a.update(a.len() - 1, cur)
                }
            }),
    {
        let n = self.payloads.len();
        let m = self.endpoints.len();
        proof {
            assert(self.desc_idx < n);
            assert(self.ep_idx < m);
        }
        let ok = match reply {
            Some(b) => is_success_body(b),
            None => false,
        };
        let ghost a = self.attempts@;
        let ghost cur = a.last().push(spec_reply_view(reply));
        if ok {
            self.desc_idx = self.desc_idx + 1;
            self.ep_idx = 0;
            if self.desc_idx < n {
                self.attempts = Ghost(a.update(a.len() - 1, cur).push(Seq::empty()));
            } else {
                self.attempts = Ghost(a.update(a.len() - 1, cur));
            }
        } else {
            self.ep_idx = self.ep_idx + 1;
            self.attempts = Ghost(a.update(a.len() - 1, cur));
        }
    }

    pub fn outcome(&self) -> (r: Option<bool>)
        requires
            self.wf(),
        ensures
            r == self.spec_outcome(),
    {
        if self.desc_idx == self.payloads.len() {
            Some(true)
        } else if self.ep_idx == self.endpoints.len() {
            Some(false)
        } else {
            None
        }
    }
}

/// How many deliveries a whole run made: the replies of all
/// descriptors counted together.
pub open spec fn spec_total(a: Seq<Seq<Option<Seq<char>>>>) -> nat
    decreases a.len(),
{
    if a.len() == 0 {
        0
    } else {
        spec_total(a.drop_last()) + a.last().len()
    }
}

proof fn lemma_total_of_single_tries(a: Seq<Seq<Option<Seq<char>>>>)
    requires
        forall|d: int| 0 <= d < a.len() ==> #[trigger] a[d].len() == 1,
    ensures
        spec_total(a) == a.len(),
    decreases a.len(),
{
    if a.len() > 0 {
        lemma_total_of_single_tries(a.drop_last());
    }
}

/// A run over N descriptors in which every descriptor is accepted by
/// its first configured endpoint makes exactly N deliveries: one per
/// descriptor, never more.
pub proof fn lemma_metadata_first_try(s: MetadataScan)
    requires
        s.wf(),
        s.spec_outcome() == Some(true),
        forall|d: int|
            0 <= d < s.attempts().len() ==> #[trigger] s.attempts()[d].len() >= 1
                && spec_reply_accepted(s.attempts()[d][0]),
    ensures
        s.attempts().len() == s.payloads_view().len(),
        spec_total(s.attempts()) == s.payloads_view().len(),
{
    assert forall|d: int| 0 <= d < s.attempts().len() implies #[trigger] s.attempts()[d].len()
        == 1 by {
        let rs = s.attempts()[d];
        if rs.len() > 1 {
            assert(!spec_reply_accepted(rs[0]));
        }
    }
    lemma_total_of_single_tries(s.attempts());
}

/// A run that reports failure halted at the descriptor whose endpoint
/// list was exhausted: that descriptor was declined by every endpoint,
/// every earlier descriptor had been accepted, and no later descriptor
/// was attempted at all.
pub proof fn lemma_metadata_halts(s: MetadataScan)
    requires
        s.wf(),
        s.spec_outcome() == Some(false),
    ensures
        s.spec_descriptor() < s.payloads_view().len(),
        s.attempts().len() == s.spec_descriptor() + 1,
        s.attempts().last().len() == s.endpoints_view().len(),
        forall|j: int|
            0 <= j < s.attempts().last().len() ==> !spec_reply_accepted(
                #[trigger] s.attempts().last()[j],
            ),
        forall|d: int|
            0 <= d < s.spec_descriptor() ==> spec_descriptor_done(
                #[trigger] s.attempts()[d],
                s.endpoints_view().len(),
            ),
{
}

/// One step of the composite registration: route metadata first, then
/// the route URI, then the discovery configuration.
#[derive(Debug, Clone, Copy, PartialEq, Eq, Structural)]
pub enum RegisterStep {
    Metadata,
    Uri,
    Discovery,
}

/// The step that runs at a given position of the composite flow.
pub open spec fn spec_step_of(pos: int) -> RegisterStep {
    if pos == 0 {
        RegisterStep::Metadata
    } else if pos == 1 {
        RegisterStep::Uri
    } else {
        RegisterStep::Discovery
    }
}

/// The composite registration in flight: its three steps run in order,
/// and any step's failure aborts the steps after it.
pub struct RegisterFlow {
    pos: usize,
    aborted: bool,
    results: Ghost<Seq<bool>>,
}

impl RegisterFlow {
    /// The result of every step run so far, in order.
    pub closed spec fn results(self) -> Seq<bool> {
        self.results@
    }

    pub closed spec fn spec_aborted(self) -> bool {
        self.aborted
    }

    /// One result per step run; a failure only as the last result;
    /// every result before that a success.
    pub closed spec fn wf(self) -> bool {
        &&& self.pos == self.results@.len()
        &&& self.pos <= 3
        &&& (self.aborted ==> self.results@.len() > 0 && !self.results@.last())
        &&& forall|i: int|
            0 <= i < self.results@.len() && !(self.aborted && i == self.results@.len() - 1)
                ==> #[trigger] self.results@[i]
    }

    /// The flow's result: all three steps succeeded, or a step failed
    /// and the flow aborted, or steps are still to run.
    pub open spec fn spec_outcome(self) -> Option<bool> {
        if self.spec_aborted() {
            Some(false)
        } else if self.results().len() == 3 {
            Some(true)
        } else {
            None
        }
    }

    /// The step to run next.
    pub open spec fn spec_current(self) -> Option<RegisterStep> {
        if self.spec_outcome() is None {
            Some(spec_step_of(self.results().len() as int))
        } else {
            None
        }
    }

    /// Starts the composite flow at the metadata step.
    pub fn new() -> (f: Self)
        ensures
            f.wf(),
            f.results() == Seq::<bool>::empty(),
            !f.spec_aborted(),
    {
        RegisterFlow { pos: 0, aborted: false, results: Ghost(Seq::empty()) }
    }

    pub fn current_step(&self) -> (r: Option<RegisterStep>)
        requires
            self.wf(),
        ensures
            r == self.spec_current(),
    {
        if self.aborted || self.pos >= 3 {
            None
        } else if self.pos == 0 {
            Some(RegisterStep::Metadata)
        } else if self.pos == 1 {
            Some(RegisterStep::Uri)
        } else {
            Some(RegisterStep::Discovery)
        }
    }

    /// Records the result of the step just run: a failure aborts the
    /// flow, a success moves on to the next step.
    pub fn on_result(&mut self, ok: bool)
        requires
            old(self).wf(),
            old(self).spec_current() is Some,
        ensures
            final(self).wf(),
            final(self).results() == old(self).results().push(ok),
            final(self).spec_aborted() == !ok,
    {
        self.results = Ghost(self.results@.push(ok));
        self.aborted = !ok;
        self.pos = self.pos + 1;
    }

    pub fn outcome(&self) -> (r: Option<bool>)
        requires
            self.wf(),
        ensures
            r == self.spec_outcome(),
    {
        if self.aborted {
            Some(false)
        } else if self.pos == 3 {
            Some(true)
        } else {
            None
        }
    }
}

/// A composite flow whose first step, the metadata run, failed aborted
/// at once: no further step ran, and the flow's result is failure.
pub proof fn lemma_flow_aborts_after_failure(f: RegisterFlow)
    requires
        f.wf(),
        f.results().len() >= 1,
        !f.results()[0],
    ensures
        f.results().len() == 1,
        f.spec_outcome() == Some(false),
{
    if !f.spec_aborted() {
        assert(f.results()[0]);
    }
    if f.results().len() > 1 {
        assert(f.results()[0]);
    }
}

} // verus!
