//! The retry controller and the batch dispatcher.
//!
//! One notification's articles are delivered strictly in order, one
//! attempt in flight at a time. A rate-limited attempt is retried with
//! exponential backoff up to a fixed attempt ceiling; any other failure is
//! terminal for that article but never aborts the batch. A fixed pause
//! separates a delivered article from the next send.
//!
//! The dispatcher is a state machine: the caller performs one action at a
//! time (send one message, sleep once) and feeds the result back. A
//! verified driver, `run_dispatch`, runs the machine against a table of
//! precomputed attempt results and returns the outcome together with the
//! full step trace, which the specification functions below pin exactly.

use crate::delivery::AttemptResult;
use crate::miniflux::WebhookNewEntriesEvent;
use vstd::arithmetic::power2::pow2;
use vstd::prelude::*;

verus! {

/// Delivery attempts allowed per article, the first try included.
pub const MAX_RETRIES: u32 = 3;

/// Backoff delay after the first rate-limited attempt, in milliseconds.
pub const RETRY_DELAY_MS: u64 = 1000;

/// Fixed delay between a delivered article and the next send, chosen to
/// stay under the destination's per-minute ceiling.
pub const MESSAGE_INTERVAL_MS: u64 = 2500;

/// The backoff delay after attempt number `attempt` (counted from 0) was
/// rate-limited: the base delay doubled once per preceding attempt.
pub open spec fn backoff_after(attempt: nat) -> nat {
    (RETRY_DELAY_MS * pow2(attempt)) as nat
}

/// What the retry controller decides once one attempt has ended.
#[derive(Debug, Clone, PartialEq, Eq)]
pub enum RetryDecision {
    /// The article was delivered; its state is done (success).
    Success,
    /// The article is done (failure), with the recorded reason.
    Fail(String),
    /// Wait this many milliseconds, then attempt again.
    Backoff(u64),
}

fn pow2_u64(k: u32) -> (r: u64)
    requires
        k < 63,
    ensures
        r == pow2(k as nat),
{
    let mut i: u32 = 0;
    let mut r: u64 = 1;
    proof {
        vstd::arithmetic::power2::lemma2_to64();
    }
    while i < k
        invariant
            i <= k < 63,
            r == pow2(i as nat),
        decreases k - i,
    {
        proof {
            vstd::arithmetic::power2::lemma_pow2_strictly_increases(i as nat, 62);
            vstd::arithmetic::power2::lemma2_to64();
            vstd::arithmetic::power2::lemma2_to64_rest();
            vstd::arithmetic::power2::lemma_pow2_unfold((i + 1) as nat);
        }
        r = r * 2;
        i = i + 1;
    }
    r
}

/// One step of the retry controller: the decision after one attempt whose
/// result is `result`, `retries` rate-limited attempts having preceded it.
pub fn retry_step(retries: u32, result: AttemptResult) -> (r: RetryDecision)
    requires
        retries < MAX_RETRIES,
    ensures
        result is Accepted ==> r is Success,
        result matches AttemptResult::Failed(m) ==> (r matches RetryDecision::Fail(f) && f@
            == m@),
        result is RateLimited && retries + 1 == MAX_RETRIES ==> (r matches RetryDecision::Fail(f)
            && f@ == "max retries exceeded"@),
        result is RateLimited && retries + 1 < MAX_RETRIES ==> (r matches RetryDecision::Backoff(ms)
            && ms == backoff_after(retries as nat)),
{
    match result {
        AttemptResult::Accepted => RetryDecision::Success,
        AttemptResult::Failed(m) => RetryDecision::Fail(m),
        AttemptResult::RateLimited => {
            if retries + 1 >= MAX_RETRIES {
                RetryDecision::Fail("max retries exceeded".to_owned())
            } else {
                proof {
                    vstd::arithmetic::power2::lemma2_to64();
                }
                let factor = pow2_u64(retries);
                RetryDecision::Backoff(RETRY_DELAY_MS * factor)
            }
        },
    }
}

/// One observable step of a dispatch cycle.
#[derive(Debug, Clone, Copy, PartialEq, Eq, Structural)]
pub enum TraceStep {
    /// Delivery attempt number `attempt` (counted from 0) of `article`.
    Send { article: usize, attempt: u32 },
    /// The backoff wait after a rate-limited attempt of `article`.
    Backoff { article: usize, ms: u64 },
    /// The fixed wait between a delivered article and the next send.
    Pause { ms: u64 },
}

/// The per-notification aggregate: how many articles ended delivered and
/// how many ended failed.
#[derive(Debug, Clone, Copy, PartialEq, Eq, Structural)]
pub struct DispatchOutcome {
    pub success_count: usize,
    pub failed_count: usize,
}

/// How many attempts the retry controller makes for one article whose
/// successive attempt results are `rs`, counting from attempt `k` on: it
/// stops at the first result that is not rate-limited, and at the attempt
/// ceiling in any case.
pub open spec fn retry_attempts_from(rs: Seq<AttemptResult>, k: nat) -> nat
    decreases MAX_RETRIES - k,
{
    if k + 1 >= MAX_RETRIES || !(rs[k as int] is RateLimited) {
        k + 1
    } else {
        retry_attempts_from(rs, k + 1)
    }
}

pub open spec fn retry_attempts(rs: Seq<AttemptResult>) -> nat {
    retry_attempts_from(rs, 0)
}

/// Whether the article ends delivered: its last attempt is accepted.
pub open spec fn retry_succeeds(rs: Seq<AttemptResult>) -> bool {
    rs[retry_attempts(rs) - 1] is Accepted
}

/// The steps taken for one article from attempt `k` on: each attempt's
/// send, with a backoff wait after every rate-limited attempt that is
/// retried.
pub open spec fn article_trace_from(a: usize, rs: Seq<AttemptResult>, k: nat) -> Seq<TraceStep>
    decreases MAX_RETRIES - k,
{
    if k + 1 >= MAX_RETRIES || !(rs[k as int] is RateLimited) {
        seq![TraceStep::Send { article: a, attempt: k as u32 }]
    } else {
        seq![
            TraceStep::Send { article: a, attempt: k as u32 },
            TraceStep::Backoff { article: a, ms: backoff_after(k) as u64 },
        ] + article_trace_from(a, rs, k + 1)
    }
}

pub open spec fn article_trace(a: usize, rs: Seq<AttemptResult>) -> Seq<TraceStep> {
    article_trace_from(a, rs, 0)
}

/// The outcome pair (delivered, failed) of the articles from index `i` on.
pub open spec fn outcome_from(resp: Seq<Seq<AttemptResult>>, i: nat) -> (nat, nat)
    decreases resp.len() - i,
{
    if i >= resp.len() {
        (0nat, 0nat)
    } else {
        let rest = outcome_from(resp, i + 1);
        if retry_succeeds(resp[i as int]) {
            ((rest.0 + 1) as nat, rest.1)
        } else {
            (rest.0, (rest.1 + 1) as nat)
        }
    }
}

/// The outcome of one whole dispatch cycle, article by article.
pub open spec fn dispatch_outcome_model(resp: Seq<Seq<AttemptResult>>) -> (nat, nat) {
    outcome_from(resp, 0)
}

/// The pause inserted after article `i`: present exactly when the article
/// was delivered and another article follows.
pub open spec fn pause_part(resp: Seq<Seq<AttemptResult>>, i: nat) -> Seq<TraceStep> {
    if retry_succeeds(resp[i as int]) && i + 1 < resp.len() {
        seq![TraceStep::Pause { ms: MESSAGE_INTERVAL_MS }]
    } else {
        Seq::empty()
    }
}

/// The full step trace of dispatching the articles from index `i` on, in
/// input order.
pub open spec fn trace_from(resp: Seq<Seq<AttemptResult>>, i: nat) -> Seq<TraceStep>
    decreases resp.len() - i,
{
    if i >= resp.len() {
        Seq::empty()
    } else {
        article_trace(i as usize, resp[i as int]) + pause_part(resp, i) + trace_from(resp, (i + 1) as nat)
    }
}

/// The full step trace of one dispatch cycle.
pub open spec fn dispatch_trace(resp: Seq<Seq<AttemptResult>>) -> Seq<TraceStep> {
    trace_from(resp, 0)
}

/// The per-article response sequences of a response table.
pub open spec fn resp_model(responses: Seq<Vec<AttemptResult>>) -> Seq<Seq<AttemptResult>> {
    responses.map_values(|v: Vec<AttemptResult>| v@)
}

/// What the dispatcher waits for next.
#[derive(Debug, Clone, Copy, PartialEq, Eq, Structural)]
pub enum DispatchPhase {
    /// A message is out; the next event is its attempt result.
    AwaitingResponse,
    /// A wait (backoff or inter-item pause) is running.
    AwaitingSleep,
    /// Every article has reached a terminal state.
    Finished,
}

/// What the caller must do next.
#[derive(Debug, Clone, Copy, PartialEq, Eq, Structural)]
pub enum DispatchAction {
    /// Build and send the message of this article, then report the result.
    Send { article: usize },
    /// Sleep this many milliseconds, then report back.
    Sleep { ms: u64 },
    /// The cycle is over; answer with this outcome.
    Done { outcome: DispatchOutcome },
}

/// The dispatcher of one notification: walks the article list in order,
/// runs the retry controller per article to a terminal state, and counts
/// terminal successes and failures.
#[derive(Debug, Clone, Copy, PartialEq, Eq, Structural)]
pub struct Dispatcher {
    /// Number of articles of the notification.
    pub total: usize,
    /// The article currently being delivered (== `total` when finished).
    pub index: usize,
    /// Rate-limited attempts of the current article so far.
    pub retries: u32,
    /// Articles whose terminal state was success.
    pub success_count: usize,
    /// Articles whose terminal state was failure.
    pub failed_count: usize,
    /// What the dispatcher waits for.
    pub phase: DispatchPhase,
}

impl Dispatcher {
    /// The dispatcher's internal invariant: settled articles are exactly
    /// those before `index`, the retry counter stays under the ceiling,
    /// and the phase agrees with the position.
    pub open spec fn wf(self) -> bool {
        &&& self.index <= self.total
        &&& self.retries < MAX_RETRIES
        &&& self.success_count + self.failed_count == self.index
        &&& (self.phase is Finished <==> self.index == self.total)
    }

    /// Start a dispatch cycle: an empty article list is an immediate
    /// no-op success, otherwise the first article's first attempt goes
    /// out.
    pub fn new(n: &WebhookNewEntriesEvent) -> (r: (Dispatcher, DispatchAction))
        ensures
            r.0.wf(),
            r.0.total == n.entries@.len(),
            r.0.success_count == 0,
            r.0.failed_count == 0,
            r.0.retries == 0,
            r.0.index == 0,
            n.entries@.len() == 0 ==> r.0.phase is Finished && r.1 == (DispatchAction::Done {
                outcome: DispatchOutcome { success_count: 0, failed_count: 0 },
            }),
            n.entries@.len() > 0 ==> r.0.phase is AwaitingResponse && r.1
                == (DispatchAction::Send { article: 0 }),
    {
        let total = n.entries.len();
        if total == 0 {
            let d = Dispatcher {
                total,
                index: 0,
                retries: 0,
                success_count: 0,
                failed_count: 0,
                phase: DispatchPhase::Finished,
            };
            let outcome = DispatchOutcome { success_count: 0, failed_count: 0 };
            (d, DispatchAction::Done { outcome })
        } else {
            let d = Dispatcher {
                total,
                index: 0,
                retries: 0,
                success_count: 0,
                failed_count: 0,
                phase: DispatchPhase::AwaitingResponse,
            };
            (d, DispatchAction::Send { article: 0 })
        }
    }

    /// Consume the result of the attempt in flight. The retry controller
    /// decides: success settles the article (with a pause before the next
    /// send, if any); a terminal failure settles it with no pause; a
    /// retryable result schedules a backoff wait for the same article.
    pub fn on_response(&mut self, result: AttemptResult) -> (act: DispatchAction)
        requires
            old(self).wf(),
            old(self).phase is AwaitingResponse,
        ensures
            final(self).wf(),
            final(self).total == old(self).total,
            result is Accepted ==> {
                &&& final(self).success_count == old(self).success_count + 1
                &&& final(self).failed_count == old(self).failed_count
                &&& final(self).index == old(self).index + 1
                &&& final(self).retries == 0
                &&& if old(self).index + 1 < old(self).total {
                    final(self).phase is AwaitingSleep && act == (DispatchAction::Sleep {
                        ms: MESSAGE_INTERVAL_MS,
                    })
                } else {
                    final(self).phase is Finished && act == (DispatchAction::Done {
                        outcome: DispatchOutcome {
                            success_count: final(self).success_count,
                            failed_count: final(self).failed_count,
                        },
                    })
                }
            },
            result is Failed || (result is RateLimited && old(self).retries + 1 == MAX_RETRIES)
                ==> {
                &&& final(self).success_count == old(self).success_count
                &&& final(self).failed_count == old(self).failed_count + 1
                &&& final(self).index == old(self).index + 1
                &&& final(self).retries == 0
                &&& if old(self).index + 1 < old(self).total {
                    final(self).phase is AwaitingResponse && act == (DispatchAction::Send {
                        article: (old(self).index + 1) as usize,
                    })
                } else {
                    final(self).phase is Finished && act == (DispatchAction::Done {
                        outcome: DispatchOutcome {
                            success_count: final(self).success_count,
                            failed_count: final(self).failed_count,
                        },
                    })
                }
            },
            result is RateLimited && old(self).retries + 1 < MAX_RETRIES ==> {
                &&& final(self).success_count == old(self).success_count
                &&& final(self).failed_count == old(self).failed_count
                &&& final(self).index == old(self).index
                &&& final(self).retries == old(self).retries + 1
                &&& final(self).phase is AwaitingSleep
                &&& act == (DispatchAction::Sleep {
                    ms: backoff_after(old(self).retries as nat) as u64,
                })
            },
    {
        let decision = retry_step(self.retries, result);
        match decision {
            RetryDecision::Success => {
                self.success_count = self.success_count + 1;
                self.index = self.index + 1;
                self.retries = 0;
                if self.index < self.total {
                    self.phase = DispatchPhase::AwaitingSleep;
                    DispatchAction::Sleep { ms: MESSAGE_INTERVAL_MS }
                } else {
                    self.phase = DispatchPhase::Finished;
                    DispatchAction::Done {
                        outcome: DispatchOutcome {
                            success_count: self.success_count,
                            failed_count: self.failed_count,
                        },
                    }
                }
            },
            RetryDecision::Fail(_reason) => {
                self.failed_count = self.failed_count + 1;
                self.index = self.index + 1;
                self.retries = 0;
                if self.index < self.total {
                    self.phase = DispatchPhase::AwaitingResponse;
                    DispatchAction::Send { article: self.index }
                } else {
                    self.phase = DispatchPhase::Finished;
                    DispatchAction::Done {
                        outcome: DispatchOutcome {
                            success_count: self.success_count,
                            failed_count: self.failed_count,
                        },
                    }
                }
            },
            RetryDecision::Backoff(ms) => {
                self.retries = self.retries + 1;
                self.phase = DispatchPhase::AwaitingSleep;
                DispatchAction::Sleep { ms }
            },
        }
    }

    /// Consume the end of a wait: the next attempt of the current article
    /// goes out (attempt 0 after an inter-item pause, a re-attempt after
    /// a backoff).
    pub fn on_slept(&mut self) -> (act: DispatchAction)
        requires
            old(self).wf(),
            old(self).phase is AwaitingSleep,
        ensures
            *final(self) == (Dispatcher { phase: DispatchPhase::AwaitingResponse, ..*old(self) }),
            final(self).wf(),
            act == (DispatchAction::Send { article: old(self).index }),
    {
        self.phase = DispatchPhase::AwaitingResponse;
        DispatchAction::Send { article: self.index }
    }
}

/// Rate-limited attempts before attempt `k` do not change where the retry
/// run ends: counting attempts from `0` and from `k` agree.
proof fn lemma_retry_prefix(rs: Seq<AttemptResult>, k: nat)
    requires
        k < MAX_RETRIES,
        forall|j: int| 0 <= j < k ==> rs[j] is RateLimited,
    ensures
        retry_attempts_from(rs, 0) == retry_attempts_from(rs, k),
    decreases k,
{
    if k > 0 {
        lemma_retry_prefix(rs, (k - 1) as nat);
    }
}

/// Run one whole dispatch cycle against a table of attempt results:
/// `responses[i][k]` is what attempt `k` of article `i` would return.
/// Returns the aggregate outcome and the exact step trace.
#[verifier::rlimit(100)]
pub fn run_dispatch(n: &WebhookNewEntriesEvent, responses: &Vec<Vec<AttemptResult>>) -> (r: (
    DispatchOutcome,
    Vec<TraceStep>,
))
    requires
        responses@.len() == n.entries@.len(),
        forall|i: int| 0 <= i < responses@.len() ==> #[trigger] responses@[i]@.len()
            >= MAX_RETRIES,
    ensures
        r.0.success_count == dispatch_outcome_model(resp_model(responses@)).0,
        r.0.failed_count == dispatch_outcome_model(resp_model(responses@)).1,
        r.0.success_count + r.0.failed_count == n.entries@.len(),
        r.1@ == dispatch_trace(resp_model(responses@)),
{
    let ghost resp = resp_model(responses@);
    let (mut d, mut act) = Dispatcher::new(n);
    let mut trace: Vec<TraceStep> = Vec::new();
    proof {
        if resp.len() > 0 {
            assert(dispatch_trace(resp) =~= trace@ + article_trace_from(0, resp[0], 0)
                + pause_part(resp, 0) + trace_from(resp, 1));
        }
    }
    loop
        invariant
            d.wf(),
            d.total == responses@.len(),
            resp == resp_model(responses@),
            forall|i: int| 0 <= i < responses@.len() ==> #[trigger] responses@[i]@.len()
                >= MAX_RETRIES,
            dispatch_outcome_model(resp).0 == d.success_count + outcome_from(resp, d.index as nat).0,
            dispatch_outcome_model(resp).1 == d.failed_count + outcome_from(resp, d.index as nat).1,
            act matches DispatchAction::Send { article } ==> {
                &&& d.phase is AwaitingResponse
                &&& article == d.index
                &&& (forall|j: int| 0 <= j < d.retries ==> resp[d.index as int][j] is RateLimited)
                &&& dispatch_trace(resp) == trace@ + article_trace_from(
                    d.index,
                    resp[d.index as int],
                    d.retries as nat,
                ) + pause_part(resp, d.index as nat) + trace_from(resp, (d.index + 1) as nat)
            },
            act matches DispatchAction::Sleep { ms } ==> {
                &&& d.phase is AwaitingSleep
                &&& d.index < d.total
                &&& if d.retries > 0 {
                    &&& ms == backoff_after((d.retries - 1) as nat)
                    &&& (forall|j: int| 0 <= j < d.retries ==> resp[d.index as int][j] is RateLimited)
                    &&& dispatch_trace(resp) == trace@ + seq![
                        TraceStep::Backoff { article: d.index, ms },
                    ] + article_trace_from(d.index, resp[d.index as int], d.retries as nat)
                        + pause_part(resp, d.index as nat) + trace_from(resp, (d.index + 1) as nat)
                } else {
                    &&& ms == MESSAGE_INTERVAL_MS
                    &&& dispatch_trace(resp) == trace@ + seq![TraceStep::Pause { ms }] + trace_from(
                        resp,
                        d.index as nat,
                    )
                }
            },
            act matches DispatchAction::Done { outcome } ==> {
                &&& d.phase is Finished
                &&& outcome == (DispatchOutcome {
                    success_count: d.success_count,
                    failed_count: d.failed_count,
                })
                &&& dispatch_trace(resp) == trace@
            },
        ensures
            act matches DispatchAction::Done { outcome } && outcome.success_count
                == dispatch_outcome_model(resp).0 && outcome.failed_count == dispatch_outcome_model(
                resp,
            ).1 && outcome.success_count + outcome.failed_count == responses@.len() && trace@
                == dispatch_trace(resp),
        decreases d.total - d.index, MAX_RETRIES - d.retries, (if act is Sleep {
            1int
        } else {
            0int
        }),
    {
        match act {
            DispatchAction::Send { article } => {
                let ghost rs = resp[d.index as int];
                let ghost k = d.retries as nat;
                let result = responses[article][d.retries as usize].clone();
                trace.push(TraceStep::Send { article, attempt: d.retries });
                proof {
                    assert(result == rs[k as int]);
                    lemma_retry_prefix(rs, k);
                    if !(rs[k as int] is RateLimited) || k + 1 == MAX_RETRIES {
                        // the article settles at this attempt
                        assert(retry_attempts(rs) == k + 1);
                        assert(retry_succeeds(rs) == (rs[k as int] is Accepted));
                        assert(article_trace_from(d.index, rs, k) =~= seq![
                            TraceStep::Send { article: d.index, attempt: k as u32 },
                        ]);
                        assert(dispatch_trace(resp) =~= trace@ + pause_part(resp, d.index as nat)
                            + trace_from(resp, (d.index + 1) as nat));
                    } else {
                        assert(article_trace_from(d.index, rs, k) =~= seq![
                            TraceStep::Send { article: d.index, attempt: k as u32 },
                            TraceStep::Backoff { article: d.index, ms: backoff_after(k) as u64 },
                        ] + article_trace_from(d.index, rs, k + 1));
                        assert(dispatch_trace(resp) =~= trace@ + seq![
                            TraceStep::Backoff { article: d.index, ms: backoff_after(k) as u64 },
                        ] + article_trace_from(d.index, rs, k + 1) + pause_part(resp, d.index as nat)
                            + trace_from(resp, (d.index + 1) as nat));
                    }
                }
                let ghost old_d = d;
                act = d.on_response(result);
                proof {
                    let i = old_d.index as nat;
                    if result is Accepted {
                        assert(retry_succeeds(rs));
                        assert(outcome_from(resp, i) == ((outcome_from(resp, i + 1).0 + 1) as nat,
                            outcome_from(resp, i + 1).1));
                        if old_d.index + 1 < old_d.total {
                            assert(pause_part(resp, i) =~= seq![
                                TraceStep::Pause { ms: MESSAGE_INTERVAL_MS },
                            ]);
                            assert(dispatch_trace(resp) =~= trace@ + seq![
                                TraceStep::Pause { ms: MESSAGE_INTERVAL_MS },
                            ] + trace_from(resp, d.index as nat));
                        } else {
                            assert(pause_part(resp, i) =~= Seq::<TraceStep>::empty());
                            assert(trace_from(resp, (i + 1) as nat) =~= Seq::<TraceStep>::empty());
                            assert(outcome_from(resp, i + 1) == (0nat, 0nat));
                            assert(dispatch_trace(resp) =~= trace@);
                        }
                    } else if !(result is RateLimited) || k + 1 == MAX_RETRIES {
                        assert(!retry_succeeds(rs));
                        assert(outcome_from(resp, i) == (outcome_from(resp, i + 1).0, (outcome_from(
                            resp,
                            i + 1,
                        ).1 + 1) as nat));
                        assert(pause_part(resp, i) =~= Seq::<TraceStep>::empty());
                        if old_d.index + 1 < old_d.total {
                            assert(trace_from(resp, (i + 1) as nat) =~= article_trace_from(
                                d.index,
                                resp[d.index as int],
                                0,
                            ) + pause_part(resp, d.index as nat) + trace_from(
                                resp,
                                (d.index + 1) as nat,
                            ));
                            assert(dispatch_trace(resp) =~= trace@ + article_trace_from(
                                d.index,
                                resp[d.index as int],
                                0,
                            ) + pause_part(resp, d.index as nat) + trace_from(
                                resp,
                                (d.index + 1) as nat,
                            ));
                        } else {
                            assert(trace_from(resp, (i + 1) as nat) =~= Seq::<TraceStep>::empty());
                            assert(outcome_from(resp, i + 1) == (0nat, 0nat));
                            assert(dispatch_trace(resp) =~= trace@);
                        }
                    } else {
                        // rate limited with attempts left: backoff for the same article
                        assert(d.index == old_d.index && d.retries == old_d.retries + 1);
                        vstd::arithmetic::power2::lemma2_to64();
                        assert(k == 0 || k == 1);
                        assert(backoff_after(k) <= 2000);
                    }
                }
            },
            DispatchAction::Sleep { ms } => {
                if d.retries > 0 {
                    trace.push(TraceStep::Backoff { article: d.index, ms });
                } else {
                    trace.push(TraceStep::Pause { ms });
                }
                act = d.on_slept();
                proof {
                    if d.retries > 0 {
                        assert(dispatch_trace(resp) =~= trace@ + article_trace_from(
                            d.index,
                            resp[d.index as int],
                            d.retries as nat,
                        ) + pause_part(resp, d.index as nat) + trace_from(resp, (d.index + 1) as nat));
                    } else {
                        assert(trace_from(resp, d.index as nat) =~= article_trace_from(
                            d.index,
                            resp[d.index as int],
                            0,
                        ) + pause_part(resp, d.index as nat) + trace_from(resp, (d.index + 1) as nat));
                        assert(dispatch_trace(resp) =~= trace@ + article_trace_from(
                            d.index,
                            resp[d.index as int],
                            0,
                        ) + pause_part(resp, d.index as nat) + trace_from(resp, (d.index + 1) as nat));
                    }
                }
            },
            DispatchAction::Done { outcome: _ } => {
                proof {
                    assert(outcome_from(resp, d.index as nat) == (0nat, 0nat));
                }
                break ;
            },
        }
    }
    match act {
        DispatchAction::Done { outcome } => (outcome, trace),
        _ => vstd::pervasive::unreached(),
    }
}

/// The serialization gate: the process-wide token that at most one
/// dispatch cycle holds at a time. The token state is explicit so that
/// contracts tie every cycle to holding it; the blocking wait itself
/// belongs to the hosting process.
pub struct SerializationGate {
    pub held: bool,
}

impl SerializationGate {
    /// A fresh gate, held by nobody.
    pub fn new() -> (g: Self)
        ensures
            !g.held,
    {
        SerializationGate { held: false }
    }

    /// Take the token. Only a free gate can be acquired: a notification
    /// arriving while a cycle runs waits until the token is back.
    pub fn acquire(&mut self)
        requires
            !old(self).held,
        ensures
            final(self).held,
    {
        self.held = true;
    }

    /// Give the token back, unconditionally, when the cycle ends.
    pub fn release(&mut self)
        ensures
            !final(self).held,
    {
        self.held = false;
    }
}

/// Handle one whole notification: acquire the serialization token, run
/// its dispatch cycle, release the token. The answer is 200 when every
/// article was delivered and also for an empty batch; it is 500 when
/// some article failed.
pub fn handle_notification(
    gate: &mut SerializationGate,
    n: &WebhookNewEntriesEvent,
    responses: &Vec<Vec<AttemptResult>>,
) -> (r: (u16, Vec<TraceStep>))
    requires
        !old(gate).held,
        responses@.len() == n.entries@.len(),
        forall|i: int| 0 <= i < responses@.len() ==> #[trigger] responses@[i]@.len()
            >= MAX_RETRIES,
    ensures
        !final(gate).held,
        dispatch_outcome_model(resp_model(responses@)).1 == 0 ==> r.0 == 200,
        dispatch_outcome_model(resp_model(responses@)).1 != 0 ==> r.0 == 500,
        r.1@ == dispatch_trace(resp_model(responses@)),
{
    gate.acquire();
    let (outcome, trace) = run_dispatch(n, responses);
    let status = response_status(&outcome);
    gate.release();
    (status, trace)
}

/// Two notifications through one gate, back to back: the combined step
/// trace is the first cycle's whole trace followed by the second's — no
/// step of the second cycle precedes the completion of the first.
pub fn run_two_serialized(
    gate: &mut SerializationGate,
    first: &WebhookNewEntriesEvent,
    first_responses: &Vec<Vec<AttemptResult>>,
    second: &WebhookNewEntriesEvent,
    second_responses: &Vec<Vec<AttemptResult>>,
) -> (r: (u16, u16, Vec<TraceStep>))
    requires
        !old(gate).held,
        first_responses@.len() == first.entries@.len(),
        forall|i: int| 0 <= i < first_responses@.len() ==> #[trigger] first_responses@[i]@.len()
            >= MAX_RETRIES,
        second_responses@.len() == second.entries@.len(),
        forall|i: int| 0 <= i < second_responses@.len() ==> #[trigger] second_responses@[i]@.len()
            >= MAX_RETRIES,
    ensures
        !final(gate).held,
        dispatch_outcome_model(resp_model(first_responses@)).1 == 0 <==> r.0 == 200,
        dispatch_outcome_model(resp_model(second_responses@)).1 == 0 <==> r.1 == 200,
        r.2@ == dispatch_trace(resp_model(first_responses@)) + dispatch_trace(
            resp_model(second_responses@),
        ),
{
    let (first_status, mut combined) = handle_notification(gate, first, first_responses);
    let (second_status, mut second_trace) = handle_notification(gate, second, second_responses);
    combined.append(&mut second_trace);
    (first_status, second_status, combined)
}

/// An empty notification dispatches to outcome (0, 0) and an empty step
/// trace: no send at all is issued.
pub proof fn lemma_empty_dispatch(resp: Seq<Seq<AttemptResult>>)
    requires
        resp.len() == 0,
    ensures
        dispatch_outcome_model(resp) == (0nat, 0nat),
        dispatch_trace(resp) == Seq::<TraceStep>::empty(),
{
}

proof fn lemma_outcome_from_total(resp: Seq<Seq<AttemptResult>>, i: nat)
    requires
        i <= resp.len(),
    ensures
        outcome_from(resp, i).0 + outcome_from(resp, i).1 == resp.len() - i,
    decreases resp.len() - i,
{
    if i < resp.len() {
        lemma_outcome_from_total(resp, (i + 1) as nat);
    }
}

/// Every article is settled exactly once: the success and failure counts
/// of a dispatch cycle add up to the number of articles.
pub proof fn lemma_outcome_accounts_all(resp: Seq<Seq<AttemptResult>>)
    ensures
        dispatch_outcome_model(resp).0 + dispatch_outcome_model(resp).1 == resp.len(),
{
    lemma_outcome_from_total(resp, 0);
}

/// The article a step belongs to (a pause between articles carries none).
pub open spec fn step_article(s: TraceStep) -> usize {
    match s {
        TraceStep::Send { article, .. } => article,
        TraceStep::Backoff { article, .. } => article,
        TraceStep::Pause { .. } => 0,
    }
}

proof fn lemma_article_trace_articles(a: usize, rs: Seq<AttemptResult>, k: nat)
    ensures
        forall|p: int| 0 <= p < article_trace_from(a, rs, k).len() ==> !(#[trigger] article_trace_from(
            a,
            rs,
            k,
        )[p] is Pause) && step_article(article_trace_from(a, rs, k)[p]) == a,
    decreases MAX_RETRIES - k,
{
    if !(k + 1 >= MAX_RETRIES || !(rs[k as int] is RateLimited)) {
        lemma_article_trace_articles(a, rs, k + 1);
    }
}

proof fn lemma_trace_from_ordered(resp: Seq<Seq<AttemptResult>>, i: nat)
    requires
        resp.len() <= usize::MAX,
    ensures
        forall|p: int|
            0 <= p < trace_from(resp, i).len() && #[trigger] trace_from(resp, i)[p] is Send ==> i
                <= step_article(trace_from(resp, i)[p]) < resp.len(),
        forall|p: int, q: int|
            0 <= p < q < trace_from(resp, i).len() && trace_from(resp, i)[p] is Send && trace_from(
                resp,
                i,
            )[q] is Send ==> step_article(#[trigger] trace_from(resp, i)[p]) <= step_article(
                #[trigger] trace_from(resp, i)[q],
            ),
    decreases resp.len() - i,
{
    if i < resp.len() {
        lemma_trace_from_ordered(resp, (i + 1) as nat);
        lemma_article_trace_articles(i as usize, resp[i as int], 0);
        let head = article_trace(i as usize, resp[i as int]) + pause_part(resp, i);
        let rest = trace_from(resp, (i + 1) as nat);
        assert(trace_from(resp, i) =~= head + rest);
        assert forall|p: int|
            0 <= p < trace_from(resp, i).len() && #[trigger] trace_from(resp, i)[p] is Send implies i
            <= step_article(trace_from(resp, i)[p]) < resp.len() by {
            if p < head.len() {
                if p < article_trace(i as usize, resp[i as int]).len() {
                    assert(step_article(trace_from(resp, i)[p]) == i as usize);
                } else {
                    assert(trace_from(resp, i)[p] is Pause);
                }
            } else {
                assert(trace_from(resp, i)[p] == rest[p - head.len()]);
            }
        }
    }
}

/// Deliveries are strictly ordered by article: in the step trace of one
/// dispatch cycle a send of a later article never precedes a send of an
/// earlier one, so article `i`'s delivery begins only after article
/// `i - 1` has reached its terminal state.
pub proof fn lemma_sends_ordered(resp: Seq<Seq<AttemptResult>>)
    requires
        resp.len() <= usize::MAX,
    ensures
        forall|p: int, q: int|
            0 <= p < q < dispatch_trace(resp).len() && dispatch_trace(resp)[p] is Send
                && dispatch_trace(resp)[q] is Send ==> step_article(
                #[trigger] dispatch_trace(resp)[p],
            ) <= step_article(#[trigger] dispatch_trace(resp)[q]),
{
    lemma_trace_from_ordered(resp, 0);
}

/// A destination that always answers rate-limited: the retry controller
/// makes exactly `MAX_RETRIES` attempts for the article and it ends
/// failed, the waits between the attempts doubling from `RETRY_DELAY_MS`.
pub proof fn lemma_retry_exhaustion(a: usize, rs: Seq<AttemptResult>)
    requires
        rs.len() >= MAX_RETRIES,
        forall|j: int| 0 <= j < rs.len() ==> rs[j] is RateLimited,
    ensures
        retry_attempts(rs) == MAX_RETRIES,
        !retry_succeeds(rs),
        article_trace(a, rs) =~= seq![
            TraceStep::Send { article: a, attempt: 0 },
            TraceStep::Backoff { article: a, ms: RETRY_DELAY_MS },
            TraceStep::Send { article: a, attempt: 1 },
            TraceStep::Backoff { article: a, ms: (2 * RETRY_DELAY_MS) as u64 },
            TraceStep::Send { article: a, attempt: 2 },
        ],
{
    vstd::arithmetic::power2::lemma2_to64();
    reveal_with_fuel(retry_attempts_from, 4);
    reveal_with_fuel(article_trace_from, 4);
}

/// The HTTP status answered for one dispatch cycle: success only when no
/// article failed.
pub fn response_status(outcome: &DispatchOutcome) -> (s: u16)
    ensures
        outcome.failed_count == 0 ==> s == 200,
        outcome.failed_count != 0 ==> s == 500,
{
    if outcome.failed_count == 0 {
        200
    } else {
        500
    }
}

} // verus!
