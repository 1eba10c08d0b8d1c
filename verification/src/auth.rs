//! Token acquisition: the login endpoints are contacted strictly in
//! order, and the scan stops at the first one whose response carries a
//! non-empty `data.token` string. If every login endpoint fails or
//! returns no token, authentication is exhausted and no client can be
//! built.

use vstd::prelude::*;
use crate::error::ShenYuError;
use crate::scan::spec_reply_view;

verus! {

/// The token, if any, that a login response body carries: the value of
/// the `data.token` field of the body parsed as JSON, where that field
/// is a string. A function of the body text alone.
pub uninterp spec fn spec_token_of(body: Seq<char>) -> Option<Seq<char>>;

/// Relies on serde_json: `from_str` parses the body into a JSON value,
/// `Value::get` reads the `"data"` and `"token"` fields of an object,
/// `Value::as_str` gives the field's text where it is a string. Each is
/// a function of its argument alone, so the whole result depends on the
/// body text alone; it is named `spec_token_of` and not stated further.
#[verifier::external_body]
fn extract_token(body: &str) -> (r: Option<String>)
    ensures
        r.deep_view() == spec_token_of(body@),
{
    match serde_json::from_str::<serde_json::Value>(body) {
        Ok(v) => match v.get("data") {
            Some(d) => match d.get("token") {
                Some(t) => match t.as_str() {
                    Some(s) => Some(s.to_string()),
                    None => None,
                },
                None => None,
            },
            None => None,
        },
        Err(_) => None,
    }
}

/// The usable token of one recorded login reply: a transport fault, an
/// unparsable body, a body without a `data.token` string, and an empty
/// token all yield none.
pub open spec fn spec_reply_token(reply: Option<Seq<char>>) -> Option<Seq<char>> {
    match reply {
        Some(b) => match spec_token_of(b) {
            Some(t) => if t.len() > 0 {
                Some(t)
            } else {
                None
            },
            None => None,
        },
        None => None,
    }
}

/// The usable token of one login reply, where `None` records a
/// transport fault.
pub fn reply_token(reply: Option<&str>) -> (r: Option<String>)
    ensures
        r.deep_view() == spec_reply_token(spec_reply_view(reply)),
{
    match reply {
        Some(b) => match extract_token(b) {
            Some(t) => if !t.as_str().is_empty() {
                Some(t)
            } else {
                None
            },
            None => None,
        },
        None => None,
    }
}

/// Token acquisition in flight: the ordered login endpoint list and
/// how far the scan has come.
pub struct AuthScan {
    endpoints: Vec<String>,
    next: usize,
    token: Option<String>,
    replies: Ghost<Seq<Option<Seq<char>>>>,
}

impl AuthScan {
    /// The ordered login endpoint list being scanned.
    pub closed spec fn endpoints_view(self) -> Seq<Seq<char>> {
        self.endpoints.deep_view()
    }

    /// Every reply recorded so far, in the order the endpoints were
    /// contacted.
    pub closed spec fn replies(self) -> Seq<Option<Seq<char>>> {
        self.replies@
    }

    /// The token found, if any.
    pub closed spec fn spec_token(self) -> Option<Seq<char>> {
        self.token.deep_view()
    }

    /// One reply per contacted endpoint; a token only from the last
    /// reply; no reply before that carried a usable token.
    pub closed spec fn wf(self) -> bool {
        &&& self.next == self.replies@.len()
        &&& self.next <= self.endpoints@.len()
        &&& (self.spec_token() matches Some(t) ==> self.replies@.len() > 0 && spec_reply_token(
            self.replies@.last(),
        ) == Some(t))
        &&& forall|i: int|
            0 <= i < self.replies@.len() && !(self.spec_token() is Some && i == self.replies@.len()
                - 1) ==> spec_reply_token(#[trigger] self.replies@[i]) is None
    }

    /// Every login endpoint was tried and none yielded a token.
    pub open spec fn spec_exhausted(self) -> bool {
        self.spec_token() is None && self.replies().len() == self.endpoints_view().len()
    }

    /// Whether another login endpoint is still to be contacted.
    pub open spec fn spec_pending(self) -> bool {
        self.spec_token() is None && self.replies().len() < self.endpoints_view().len()
    }

    /// Starts the scan over the given login endpoints.
    pub fn new(endpoints: Vec<String>) -> (s: Self)
        ensures
            s.wf(),
            s.endpoints_view() == endpoints.deep_view(),
            s.replies() == Seq::<Option<Seq<char>>>::empty(),
            s.spec_token() is None,
    {
        AuthScan { endpoints, next: 0, token: None, replies: Ghost(Seq::empty()) }
    }

    pub fn is_pending(&self) -> (r: bool)
        requires
            self.wf(),
        ensures
            r == self.spec_pending(),
    {
        self.token.is_none() && self.next < self.endpoints.len()
    }

    /// The login endpoint to contact next.
    pub fn current_url(&self) -> (r: &String)
        requires
            self.wf(),
            self.spec_pending(),
        ensures
            r@ == self.endpoints_view()[self.replies().len() as int],
    {
        &self.endpoints[self.next]
    }

    /// How many login endpoints have been contacted so far.
    pub fn attempts_made(&self) -> (r: usize)
        requires
            self.wf(),
        ensures
            r == self.replies().len(),
    {
        self.next
    }

    /// Records what the endpoint contacted last came back with and
    /// decides: stop at a non-empty `data.token` string, otherwise go
    /// on.
    pub fn record(&mut self, reply: Option<&str>)
        requires
            old(self).wf(),
            old(self).spec_pending(),
        ensures
            final(self).wf(),
            final(self).endpoints_view() == old(self).endpoints_view(),
            final(self).replies() == old(self).replies().push(spec_reply_view(reply)),
            final(self).spec_token() == spec_reply_token(spec_reply_view(reply)),
    {
        let n = self.endpoints.len();
        proof {
            assert(self.next < n);
        }
        let t = reply_token(reply);
        self.replies = Ghost(self.replies@.push(spec_reply_view(reply)));
        self.token = t;
        self.next = self.next + 1;
    }

    /// The token found, if any.
    pub fn token(&self) -> (r: Option<&String>)
        ensures
            match r {
                Some(t) => self.spec_token() == Some(t@),
                None => self.spec_token() is None,
            },
    {
        self.token.as_ref()
    }

    pub fn is_exhausted(&self) -> (r: bool)
        requires
            self.wf(),
        ensures
            r == self.spec_exhausted(),
    {
        self.token.is_none() && self.next == self.endpoints.len()
    }

    /// The scan's result: the token found, or the exhaustion error
    /// once every login endpoint has been tried in vain, or nothing
    /// while endpoints are still to be contacted.
    pub fn outcome(&self) -> (r: Option<Result<String, ShenYuError>>)
        requires
            self.wf(),
        ensures
            match r {
                None => self.spec_pending(),
                Some(res) => match res {
                    Ok(t) => self.spec_token() == Some(t@),
                    Err(e) => self.spec_exhausted() && e.spec_code() == 500 && e.spec_message()
                        == "Can't get register token"@,
                },
            },
    {
        match &self.token {
            Some(t) => Some(Ok(t.clone())),
            None => {
                if self.next == self.endpoints.len() {
                    Some(Err(ShenYuError::new(500, String::from_str("Can't get register token"))))
                } else {
                    None
                }
            },
        }
    }
}

/// The token comes from the first login endpoint, in list order, whose
/// reply carried a usable token: every endpoint contacted before it
/// yielded none, and no endpoint after it was contacted at all.
pub proof fn lemma_first_token(s: AuthScan, t: Seq<char>)
    requires
        s.wf(),
        s.spec_token() == Some(t),
    ensures
        s.replies().len() >= 1,
        spec_reply_token(s.replies()[s.replies().len() - 1]) == Some(t),
        forall|i: int|
            0 <= i < s.replies().len() - 1 ==> spec_reply_token(#[trigger] s.replies()[i]) is None,
{
}

/// Authentication exhausted: every login endpoint in the list was
/// contacted and not one reply carried a usable token.
pub proof fn lemma_exhausted(s: AuthScan)
    requires
        s.wf(),
        s.spec_exhausted(),
    ensures
        s.replies().len() == s.endpoints_view().len(),
        forall|i: int|
            0 <= i < s.replies().len() ==> spec_reply_token(#[trigger] s.replies()[i]) is None,
{
}

} // verus!
