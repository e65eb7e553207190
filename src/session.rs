//! The session engine's relay: after a backend has answered, decides event by
//! event what reaches the consumer, honouring cancellation, a closed consumer
//! and the per-turn event ceiling.
use vstd::prelude::*;

verus! {

/// The shared, write-once cancellation flag of a session.
#[verifier::external_type_specification]
#[verifier::external_body]
pub struct ExCancellationToken(tokio_util::sync::CancellationToken);

/// Relies on `tokio_util::sync::CancellationToken::new`: a token that is not
/// cancelled.
pub assume_specification[ tokio_util::sync::CancellationToken::new ]() -> tokio_util::sync::CancellationToken;

/// Relies on `CancellationToken`'s `Clone`: a handle on the same flag.
pub assume_specification[ <tokio_util::sync::CancellationToken as Clone>::clone ](
    t: &tokio_util::sync::CancellationToken,
) -> tokio_util::sync::CancellationToken;

/// One conversation turn's run against a backend `R`, with its settings and the
/// cancellation flag shared with the control loop.
pub struct AgentSession<R> {
    pub router: R,
    pub config: SessionConfig,
    pub cancel: tokio_util::sync::CancellationToken,
}

impl<R> AgentSession<R> {
    /// A session over `router` with `config` and a fresh cancellation flag.
    pub fn new(router: R, config: SessionConfig) -> (r: AgentSession<R>)
        ensures
            r.router == router,
            r.config == config,
    {
        AgentSession { router, config, cancel: tokio_util::sync::CancellationToken::new() }
    }

    /// A handle on this session's cancellation flag.
    pub fn cancel_token(&self) -> tokio_util::sync::CancellationToken {
        self.cancel.clone()
    }
}

/// Settings of a session.
#[derive(Debug, Clone, Copy)]
pub struct SessionConfig {
    /// The most backend events relayed for one turn.
    pub max_events: usize,
}

impl Default for SessionConfig {
    fn default() -> (r: SessionConfig)
        ensures
            r.max_events == 128,
    {
        SessionConfig { max_events: 128 }
    }
}

/// What the relay asks its driver to do next.
#[derive(Debug, Clone, Copy, PartialEq, Eq, Structural)]
pub enum RelayStep {
    /// Send the backend event at this index to the consumer.
    Emit(usize),
    /// Send the single `Cancelled` signal and stop.
    Cancel,
    /// Stop without sending anything more.
    Finish,
}

/// Progress of relaying one turn's backend events.
#[derive(Debug, Clone, Copy, PartialEq, Eq, Structural)]
pub struct Relay {
    /// Index of the next backend event to relay.
    pub next: usize,
    /// How many events may be relayed: the smaller of the number the backend
    /// produced and the ceiling.
    pub limit: usize,
    /// Whether the relay has stopped for good.
    pub stopped: bool,
}

/// The smaller of two counts.
pub open spec fn min_count(a: usize, b: usize) -> usize {
    if a <= b {
        a
    } else {
        b
    }
}

/// The relay of a turn whose backend produced `n_events` events.
pub open spec fn initial_relay(n_events: usize, config: SessionConfig) -> Relay {
    Relay { next: 0, limit: min_count(n_events, config.max_events), stopped: false }
}

/// One decision of the relay, given whether cancellation is observed now.
pub open spec fn relay_step(r: Relay, cancelled: bool) -> (Relay, RelayStep) {
    if r.stopped || r.next >= r.limit {
        (Relay { stopped: true, ..r }, RelayStep::Finish)
    } else if cancelled {
        (Relay { stopped: true, ..r }, RelayStep::Cancel)
    } else {
        (Relay { next: (r.next + 1) as usize, ..r }, RelayStep::Emit(r.next))
    }
}

/// The steps taken by a driver that, at each poll, observes the cancellation
/// flag as `polls[k].0` and, after an `Emit`, sees its send succeed exactly
/// when `polls[k].1` holds (a failed send means the consumer is gone).
pub open spec fn relay_trace(r: Relay, polls: Seq<(bool, bool)>) -> Seq<RelayStep>
    decreases polls.len(),
{
    if polls.len() == 0 {
        seq![]
    } else {
        let (r2, s) = relay_step(r, polls[0].0);
        match s {
            RelayStep::Emit(_) => {
                let r3 = if polls[0].1 {
                    r2
                } else {
                    Relay { stopped: true, ..r2 }
                };
                seq![s].add(relay_trace(r3, polls.drop_first()))
            },
            _ => seq![s],
        }
    }
}

/// The number of `Emit` steps in a trace.
pub open spec fn emitted(t: Seq<RelayStep>) -> nat
    decreases t.len(),
{
    if t.len() == 0 {
        0
    } else {
        (if t[0] is Emit {
            1nat
        } else {
            0nat
        }) + emitted(t.drop_first())
    }
}

/// The number of `Cancel` steps in a trace.
pub open spec fn cancels(t: Seq<RelayStep>) -> nat
    decreases t.len(),
{
    if t.len() == 0 {
        0
    } else {
        (if t[0] is Cancel {
            1nat
        } else {
            0nat
        }) + cancels(t.drop_first())
    }
}

impl Relay {
    /// Starts relaying a turn whose backend produced `n_events` events.
    pub fn new(n_events: usize, config: &SessionConfig) -> (r: Relay)
        ensures
            r == initial_relay(n_events, *config),
    {
        let limit = if n_events <= config.max_events {
            n_events
        } else {
            config.max_events
        };
        Relay { next: 0, limit, stopped: false }
    }

    /// Decides the next step; `cancelled` is the cancellation flag as observed now.
    pub fn step(&mut self, cancelled: bool) -> (s: RelayStep)
        ensures
            (*final(self), s) == relay_step(*old(self), cancelled),
    {
        if self.stopped || self.next >= self.limit {
            self.stopped = true;
            RelayStep::Finish
        } else if cancelled {
            self.stopped = true;
            RelayStep::Cancel
        } else {
            let i = self.next;
            self.next = self.next + 1;
            RelayStep::Emit(i)
        }
    }

    /// Records that the consumer is gone: nothing more is relayed.
    pub fn close(&mut self)
        ensures
            *final(self) == (Relay { stopped: true, ..*old(self) }),
    {
        self.stopped = true;
    }
}

proof fn lemma_trace_bound(r: Relay, polls: Seq<(bool, bool)>)
    requires
        r.next <= r.limit,
    ensures
        emitted(relay_trace(r, polls)) <= if r.stopped {
            0
        } else {
            r.limit - r.next
        },
        forall|k: int|
            0 <= k < relay_trace(r, polls).len() ==> (#[trigger] relay_trace(r, polls)[k] matches RelayStep::Emit(i) ==> r.next <= i < r.limit),
    decreases polls.len(),
{
    if polls.len() > 0 {
        let (r2, s) = relay_step(r, polls[0].0);
        if s is Emit {
            let r3 = if polls[0].1 {
                r2
            } else {
                Relay { stopped: true, ..r2 }
            };
            lemma_trace_bound(r3, polls.drop_first());
            let t = relay_trace(r, polls);
            let rest = relay_trace(r3, polls.drop_first());
            assert(t == seq![s].add(rest));
            assert(t.drop_first() =~= rest);
            assert(emitted(t) == 1 + emitted(rest));
            assert forall|k: int| 0 <= k < t.len() implies (#[trigger] t[k] matches RelayStep::Emit(
                i,
            ) ==> r.next <= i < r.limit) by {
                if k > 0 {
                    assert(t[k] == rest[k - 1]);
                }
            }
        } else {
            let t = relay_trace(r, polls);
            assert(t.drop_first() =~= Seq::<RelayStep>::empty());
            assert(emitted(t.drop_first()) == 0);
            assert(emitted(t) == 0);
        }
    }
}

/// However many events the backend produced and whatever the driver observes,
/// at most `config.max_events` of them are relayed, each one an event the
/// backend produced.
pub proof fn lemma_relay_ceiling(n_events: usize, config: SessionConfig, polls: Seq<(bool, bool)>)
    ensures
        emitted(relay_trace(initial_relay(n_events, config), polls)) <= config.max_events,
        forall|k: int|
            0 <= k < relay_trace(initial_relay(n_events, config), polls).len() ==> (
            #[trigger] relay_trace(initial_relay(n_events, config), polls)[k] matches RelayStep::Emit(
                i,
            ) ==> i < n_events && i < config.max_events),
{
    lemma_trace_bound(initial_relay(n_events, config), polls);
}

/// When cancellation is already set as the relay starts, and the backend
/// produced at least one event under a positive ceiling, the consumer gets no
/// event and exactly one `Cancelled` signal.
pub proof fn lemma_cancel_before_relay(
    n_events: usize,
    config: SessionConfig,
    polls: Seq<(bool, bool)>,
)
    requires
        n_events > 0,
        config.max_events > 0,
        polls.len() > 0,
        forall|k: int| 0 <= k < polls.len() ==> (#[trigger] polls[k]).0,
    ensures
        relay_trace(initial_relay(n_events, config), polls) == seq![RelayStep::Cancel],
        emitted(relay_trace(initial_relay(n_events, config), polls)) == 0,
        cancels(relay_trace(initial_relay(n_events, config), polls)) == 1,
{
    let t = relay_trace(initial_relay(n_events, config), polls);
    assert(polls[0].0);
    assert(t == seq![RelayStep::Cancel]);
    assert(t.drop_first() =~= Seq::<RelayStep>::empty());
    assert(emitted(t.drop_first()) == 0);
    assert(cancels(t.drop_first()) == 0);
}

/// The steps that emit the events at indices `a` up to, not including, `b`.
pub open spec fn emits(a: int, b: int) -> Seq<RelayStep> {
    Seq::new((b - a) as nat, |i: int| RelayStep::Emit((a + i) as usize))
}

/// Polls that observe no cancellation and whose sends all succeed.
pub open spec fn undisturbed(polls: Seq<(bool, bool)>, k: int) -> bool {
    forall|j: int| 0 <= j < k ==> !(#[trigger] polls[j]).0 && polls[j].1
}

proof fn lemma_trace_prefix(r: Relay, polls: Seq<(bool, bool)>, k: int)
    requires
        !r.stopped,
        0 <= k,
        r.next + k <= r.limit,
        polls.len() > k,
        undisturbed(polls, k),
    ensures
        relay_trace(r, polls) == emits(r.next as int, r.next + k) + relay_trace(
            Relay { next: (r.next + k) as usize, ..r },
            polls.subrange(k, polls.len() as int),
        ),
    decreases k,
{
    if k == 0 {
        assert(polls.subrange(0, polls.len() as int) =~= polls);
        assert(emits(r.next as int, r.next as int) =~= Seq::<RelayStep>::empty());
        assert(Relay { next: r.next, ..r } == r);
        assert(Seq::<RelayStep>::empty() + relay_trace(r, polls) =~= relay_trace(r, polls));
    } else {
        let r2 = Relay { next: (r.next + 1) as usize, ..r };
        let pd = polls.drop_first();
        assert(!polls[0].0 && polls[0].1);
        assert(undisturbed(pd, k - 1)) by {
            assert forall|j: int| 0 <= j < k - 1 implies !(#[trigger] pd[j]).0 && pd[j].1 by {
                assert(pd[j] == polls[j + 1]);
            }
        }
        lemma_trace_prefix(r2, pd, k - 1);
        assert(pd.subrange(k - 1, pd.len() as int) =~= polls.subrange(k, polls.len() as int));
        assert(Relay { next: (r2.next + (k - 1)) as usize, ..r2 } == Relay {
            next: (r.next + k) as usize,
            ..r
        });
        assert(relay_trace(r, polls) == seq![RelayStep::Emit(r.next)].add(relay_trace(r2, pd)));
        assert(seq![RelayStep::Emit(r.next)] + emits(r2.next as int, r.next + k) =~= emits(
            r.next as int,
            r.next + k,
        ));
    }
}

/// While cancellation is never observed and the consumer stays, the consumer
/// gets the backend's events in order, as many as the ceiling allows, and
/// then the relay finishes without a `Cancelled` signal.
pub proof fn lemma_relay_uninterrupted(
    n_events: usize,
    config: SessionConfig,
    polls: Seq<(bool, bool)>,
)
    requires
        polls.len() > min_count(n_events, config.max_events),
        undisturbed(polls, min_count(n_events, config.max_events) as int),
    ensures
        relay_trace(initial_relay(n_events, config), polls) == emits(
            0,
            min_count(n_events, config.max_events) as int,
        ).push(RelayStep::Finish),
{
    let r = initial_relay(n_events, config);
    let l = r.limit as int;
    lemma_trace_prefix(r, polls, l);
    let rest = polls.subrange(l, polls.len() as int);
    let rl = Relay { next: r.limit, ..r };
    assert(relay_trace(rl, rest) == seq![RelayStep::Finish]);
    assert(emits(0, l) + seq![RelayStep::Finish] =~= emits(0, l).push(RelayStep::Finish));
}

/// When cancellation is first observed after `k` events were relayed, with
/// more events still due, the consumer gets those `k` events in order and then
/// exactly one `Cancelled` signal, after which nothing more is relayed.
pub proof fn lemma_cancel_after(
    n_events: usize,
    config: SessionConfig,
    polls: Seq<(bool, bool)>,
    k: int,
)
    requires
        0 <= k < min_count(n_events, config.max_events),
        polls.len() > k,
        undisturbed(polls, k),
        polls[k].0,
    ensures
        relay_trace(initial_relay(n_events, config), polls) == emits(0, k).push(RelayStep::Cancel),
{
    let r = initial_relay(n_events, config);
    lemma_trace_prefix(r, polls, k);
    let rest = polls.subrange(k, polls.len() as int);
    let rk = Relay { next: k as usize, ..r };
    assert(rest[0] == polls[k]);
    assert(relay_trace(rk, rest) == seq![RelayStep::Cancel]);
    assert(emits(0, k) + seq![RelayStep::Cancel] =~= emits(0, k).push(RelayStep::Cancel));
}

} // verus!
