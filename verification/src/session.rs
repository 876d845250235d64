//! The deletion loop as a state machine. The driver asks for the next
//! request with [`Session::next_request`], performs the DELETE, and hands the
//! status back through [`Session::on_status`], printing whatever lines come
//! back. Per topic the machine first tries the partitioned URI form; on a
//! not-found answer it retries once with the non-partitioned form; the
//! report always reflects the last attempt.

use vstd::prelude::*;

use crate::auth::{bearer_header, bearer_of};
use crate::outcome::report_lines_spec;
use crate::routes::{
    lemma_uri_forms_differ, non_partitioned_delete_uri, non_partitioned_delete_uri_spec,
    partitioned_delete_uri, partitioned_delete_uri_spec,
};

verus! {

/// Mathematical image of a [`Session`].
#[verifier::ext_equal]
pub struct SessionView {
    pub hostname: Seq<char>,
    pub tenant: Seq<char>,
    pub namespace: Seq<char>,
    pub topics: Seq<Seq<char>>,
    pub oauth_mode: bool,
    pub auth_header: Seq<char>,
    /// Index of the topic being worked on; all earlier topics are finished.
    pub idx: int,
    /// Whether the pending request is the non-partitioned fallback.
    pub second: bool,
}

impl SessionView {
    /// The machine never points past the topic list, and a fallback is only
    /// ever pending for a real topic.
    pub open spec fn wf(self) -> bool {
        0 <= self.idx <= self.topics.len() && (self.second ==> self.idx < self.topics.len())
    }

    /// Every topic has been handled.
    pub open spec fn done(self) -> bool {
        self.idx == self.topics.len()
    }

    /// The topic being worked on.
    pub open spec fn current_topic(self) -> Seq<char> {
        self.topics[self.idx]
    }

    /// The DELETE request the driver owes next, if any: the partitioned form
    /// on a first attempt, the non-partitioned form on the fallback.
    pub open spec fn pending_request(self) -> Option<Seq<char>> {
        if self.idx >= self.topics.len() {
            None
        } else if !self.second {
            Some(
                partitioned_delete_uri_spec(
                    self.hostname,
                    self.tenant,
                    self.namespace,
                    self.current_topic(),
                ),
            )
        } else {
            Some(
                non_partitioned_delete_uri_spec(
                    self.hostname,
                    self.tenant,
                    self.namespace,
                    self.current_topic(),
                ),
            )
        }
    }

    /// The state after one response: a not-found first attempt turns into
    /// the pending fallback; any other response finishes the topic.
    pub open spec fn step(self, status: u16) -> SessionView {
        if !self.second && status == 404 {
            SessionView { second: true, ..self }
        } else {
            SessionView { idx: self.idx + 1, second: false, ..self }
        }
    }

    /// The lines printed for one response: nothing while falling back, the
    /// two-line report of the final status otherwise.
    pub open spec fn step_lines(self, status: u16) -> Seq<Seq<char>> {
        if !self.second && status == 404 {
            Seq::empty()
        } else {
            report_lines_spec(status, self.namespace, self.current_topic(), self.oauth_mode)
        }
    }
}

/// The deletion loop's state: the run's immutable context plus the position
/// inside the topic list.
pub struct Session {
    hostname: String,
    tenant: String,
    namespace: String,
    topics: Vec<String>,
    oauth_mode: bool,
    auth_header: String,
    idx: usize,
    second: bool,
}

impl View for Session {
    type V = SessionView;

    closed spec fn view(&self) -> SessionView {
        SessionView {
            hostname: self.hostname@,
            tenant: self.tenant@,
            namespace: self.namespace@,
            topics: self.topics.deep_view(),
            oauth_mode: self.oauth_mode,
            auth_header: self.auth_header@,
            idx: self.idx as int,
            second: self.second,
        }
    }
}

impl Session {
    /// Starts a run over the configured topics with the resolved token. The
    /// `Authorization` header is fixed here, once, for every admin request
    /// of the run.
    pub fn new(
        hostname: String,
        tenant: String,
        namespace: String,
        topics: Vec<String>,
        oauth_mode: bool,
        token: &str,
    ) -> (s: Session)
        ensures
            s@ == (SessionView {
                hostname: hostname@,
                tenant: tenant@,
                namespace: namespace@,
                topics: topics.deep_view(),
                oauth_mode: oauth_mode,
                auth_header: bearer_of(token@),
                idx: 0,
                second: false,
            }),
            s@.wf(),
    {
        Session {
            hostname,
            tenant,
            namespace,
            topics,
            oauth_mode,
            auth_header: bearer_header(token),
            idx: 0,
            second: false,
        }
    }

    /// The `Authorization` header value attached to every request of this
    /// run.
    pub fn auth_header(&self) -> (r: &String)
        ensures
            r@ == self@.auth_header,
    {
        &self.auth_header
    }

    /// Whether every topic has been handled.
    pub fn done(&self) -> (b: bool)
        ensures
            b == self@.done(),
    {
        self.idx == self.topics.len()
    }

    /// The DELETE URI the driver owes next, if any.
    pub fn next_request(&self) -> (r: Option<String>)
        requires
            self@.wf(),
        ensures
            r is Some <==> self@.pending_request() is Some,
            r matches Some(u) ==> self@.pending_request() == Some(u@),
    {
        if self.idx >= self.topics.len() {
            None
        } else {
            let topic = &self.topics[self.idx];
            proof {
                assert(self@.topics[self.idx as int] == topic@);
            }
            if !self.second {
                Some(
                    partitioned_delete_uri(
                        self.hostname.as_str(),
                        self.tenant.as_str(),
                        self.namespace.as_str(),
                        topic.as_str(),
                    ),
                )
            } else {
                Some(
                    non_partitioned_delete_uri(
                        self.hostname.as_str(),
                        self.tenant.as_str(),
                        self.namespace.as_str(),
                        topic.as_str(),
                    ),
                )
            }
        }
    }

    /// Feeds the status of the pending request back into the machine and
    /// returns the lines to print, in order.
    pub fn on_status(&mut self, status: u16) -> (lines: Vec<String>)
        requires
            old(self)@.wf(),
            !old(self)@.done(),
        ensures
            final(self)@ == old(self)@.step(status),
            lines.deep_view() == old(self)@.step_lines(status),
            final(self)@.wf(),
    {
        if !self.second && status == 404 {
            self.second = true;
            let lines: Vec<String> = Vec::new();
            proof {
                assert(lines.deep_view() =~= old(self)@.step_lines(status));
                assert(final(self)@ =~= old(self)@.step(status));
            }
            lines
        } else {
            let topic = &self.topics[self.idx];
            proof {
                assert(self@.topics[self.idx as int] == topic@);
            }
            let lines = crate::outcome::report_lines(
                status,
                self.namespace.as_str(),
                topic.as_str(),
                self.oauth_mode,
            );
            self.second = false;
            let n = self.topics.len();
            proof {
                assert(self.topics.deep_view().len() == self.topics@.len());
                assert(self.idx < n);
            }
            self.idx = self.idx + 1;
            proof {
                assert(final(self)@ =~= old(self)@.step(status));
            }
            lines
        }
    }
}

/// The machine standing at the next topic's first attempt.
pub open spec fn advance(v: SessionView) -> SessionView {
    SessionView { idx: v.idx + 1, second: false, ..v }
}

/// The state after feeding a whole trace of response statuses, one per
/// request the driver performed; feeding stops once every topic is handled.
pub open spec fn run_steps(v: SessionView, statuses: Seq<u16>) -> SessionView
    decreases statuses.len(),
{
    if statuses.len() == 0 || v.done() {
        v
    } else {
        run_steps(v.step(statuses[0]), statuses.drop_first())
    }
}

/// Everything printed while feeding a whole trace, in order.
pub open spec fn run_lines(v: SessionView, statuses: Seq<u16>) -> Seq<Seq<char>>
    decreases statuses.len(),
{
    if statuses.len() == 0 || v.done() {
        Seq::empty()
    } else {
        v.step_lines(statuses[0]) + run_lines(v.step(statuses[0]), statuses.drop_first())
    }
}

/// The status each finished topic is reported with: the last status
/// received for it, a not-found first attempt being followed by the
/// fallback instead of ending the topic.
pub open spec fn final_statuses(v: SessionView, statuses: Seq<u16>) -> Seq<u16>
    decreases statuses.len(),
{
    if statuses.len() == 0 || v.done() {
        Seq::empty()
    } else if !v.second && statuses[0] == 404 {
        final_statuses(v.step(statuses[0]), statuses.drop_first())
    } else {
        seq![statuses[0]] + final_statuses(v.step(statuses[0]), statuses.drop_first())
    }
}

/// One two-line report per consecutive topic from `v.idx` on, each with its
/// final status.
pub open spec fn reports_in_order(v: SessionView, finals: Seq<u16>) -> Seq<Seq<char>>
    decreases finals.len(),
{
    if finals.len() == 0 {
        Seq::empty()
    } else {
        report_lines_spec(finals[0], v.namespace, v.topics[v.idx], v.oauth_mode)
            + reports_in_order(advance(v), finals.drop_first())
    }
}

/// Law: over a whole run, whatever the responses, the lines printed are
/// exactly one two-line report per finished topic, in configured order, and
/// the number of finished topics is exactly how far the machine moved
/// through the list.
pub proof fn lemma_run_reports_in_order(v: SessionView, statuses: Seq<u16>)
    requires
        v.wf(),
    ensures
        run_lines(v, statuses) == reports_in_order(v, final_statuses(v, statuses)),
        final_statuses(v, statuses).len() == run_steps(v, statuses).idx - v.idx,
        run_steps(v, statuses).wf(),
    decreases statuses.len(),
{
    if statuses.len() == 0 || v.done() {
        assert(run_lines(v, statuses) =~= reports_in_order(v, final_statuses(v, statuses)));
    } else {
        let s = statuses[0];
        let v1 = v.step(s);
        let rest = statuses.drop_first();
        assert(v1.wf());
        lemma_run_reports_in_order(v1, rest);
        if !v.second && s == 404 {
            let fs = final_statuses(v1, rest);
            assert(final_statuses(v, statuses) == fs);
            if fs.len() != 0 {
                assert(advance(v1) =~= advance(v));
                assert(reports_in_order(v1, fs) == report_lines_spec(
                    fs[0],
                    v1.namespace,
                    v1.topics[v1.idx],
                    v1.oauth_mode,
                ) + reports_in_order(advance(v1), fs.drop_first()));
                assert(reports_in_order(v1, fs) =~= reports_in_order(v, fs));
            }
            assert(run_lines(v, statuses) =~= reports_in_order(v, final_statuses(v, statuses)));
        } else {
            let fs = final_statuses(v, statuses);
            assert(fs == seq![s] + final_statuses(v1, rest));
            assert(fs[0] == s);
            assert(fs.drop_first() =~= final_statuses(v1, rest));
            assert(v1 =~= advance(v));
            assert(v.step_lines(s) == report_lines_spec(
                s,
                v.namespace,
                v.topics[v.idx],
                v.oauth_mode,
            ));
            assert(run_lines(v, statuses) =~= reports_in_order(v, fs));
        }
    }
}

/// Law: each topic is handled with one or two DELETE requests and exactly
/// one two-line report, after which the machine stands at the next topic;
/// topics are therefore handled one at a time, in configured order. A
/// first answer other than not-found finishes the topic with its report; a
/// not-found first answer prints nothing, owes exactly one more request, and
/// the following answer finishes the topic.
pub proof fn lemma_topic_lifecycle(v: SessionView, s1: u16, s2: u16)
    requires
        v.wf(),
        !v.done(),
        !v.second,
    ensures
        v.pending_request() == Some(
            partitioned_delete_uri_spec(v.hostname, v.tenant, v.namespace, v.topics[v.idx]),
        ),
        s1 != 404 ==> v.step(s1) == (SessionView { idx: v.idx + 1, second: false, ..v }),
        s1 != 404 ==> v.step_lines(s1) == report_lines_spec(
            s1,
            v.namespace,
            v.topics[v.idx],
            v.oauth_mode,
        ),
        s1 == 404 ==> v.step(s1).pending_request() is Some,
        s1 == 404 ==> v.step(s1).step_lines(s2) == report_lines_spec(
            s2,
            v.namespace,
            v.topics[v.idx],
            v.oauth_mode,
        ),
        s1 == 404 ==> v.step(s1).step(s2) == (SessionView { idx: v.idx + 1, second: false, ..v }),
{
    assert(s1 != 404 ==> v.step(s1) =~= (SessionView { idx: v.idx + 1, second: false, ..v }));
    assert(s1 == 404 ==> v.step(s1).step(s2) =~= (SessionView {
        idx: v.idx + 1,
        second: false,
        ..v
    }));
}

/// Law: after a not-found first attempt, the retry targets the *other* URI
/// form — the non-partitioned one, which always differs from the first URI —
/// and the report reflects the second attempt's status, not the first.
pub proof fn lemma_fallback_other_form(v: SessionView, s2: u16)
    requires
        v.wf(),
        !v.done(),
        !v.second,
    ensures
        v.step(404).pending_request() == Some(
            non_partitioned_delete_uri_spec(v.hostname, v.tenant, v.namespace, v.topics[v.idx]),
        ),
        v.step(404).pending_request() != v.pending_request(),
        v.step(404).step_lines(s2) == report_lines_spec(
            s2,
            v.namespace,
            v.topics[v.idx],
            v.oauth_mode,
        ),
{
    lemma_uri_forms_differ(v.hostname, v.tenant, v.namespace, v.topics[v.idx]);
}

/// Law: a no-content first answer finishes the topic at once — the machine
/// moves to the next topic and no fallback request is ever pending for this
/// one.
pub proof fn lemma_no_retry_on_success(v: SessionView)
    requires
        v.wf(),
        !v.done(),
        !v.second,
    ensures
        v.step(204).idx == v.idx + 1,
        !v.step(204).second,
        v.step_lines(204) == report_lines_spec(204, v.namespace, v.topics[v.idx], v.oauth_mode),
{
}

/// Law: no response ever changes the `Authorization` header — the token the
/// run started with is carried verbatim through every request.
pub proof fn lemma_auth_header_constant(v: SessionView, status: u16)
    ensures
        v.step(status).auth_header == v.auth_header,
{
}

/// Law: over a whole run, whatever the responses, the `Authorization`
/// header stands unchanged: every deletion request carries the token the
/// session started with.
pub proof fn lemma_run_header_constant(v: SessionView, statuses: Seq<u16>)
    ensures
        run_steps(v, statuses).auth_header == v.auth_header,
    decreases statuses.len(),
{
    if statuses.len() == 0 || v.done() {
    } else {
        lemma_run_header_constant(v.step(statuses[0]), statuses.drop_first());
    }
}

} // verus!
