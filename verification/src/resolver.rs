//! The bounded poll that waits for a device to become ready.
//!
//! The device registry fills in asynchronously, so a device is looked up
//! again and again at a fixed interval until the registry reports it as
//! initialized or the attempt budget runs out. This module holds the
//! decisions of that loop as a state machine: the caller queries the
//! registry, hands the answer to [`step`], and carries out the action that
//! comes back. The registry's handle to the device passes through untouched.

use vstd::prelude::*;
use crate::failure::Failure;

verus! {

/// How many times the registry is asked before giving up.
pub const ATTEMPT_BUDGET: u32 = 200;

/// Milliseconds between two attempts.
pub const POLL_INTERVAL_MS: u32 = 50;

/// A progress notice is due each time this many attempts have gone by.
pub const NOTICE_EVERY: u32 = 20;

/// The budget and rhythm of a poll.
#[derive(Clone, Copy, Debug, PartialEq, Eq, Structural)]
pub struct PollPolicy {
    /// Number of attempts before the poll times out.
    pub attempts: u32,
    /// Sleep after each failed attempt, in milliseconds.
    pub interval_ms: u32,
    /// Attempts between two progress notices; zero for none.
    pub notice_every: u32,
}

impl PollPolicy {
    /// The time slept before attempt number `attempt`, in milliseconds.
    pub open spec fn elapsed_ms(self, attempt: int) -> int {
        attempt * self.interval_ms
    }

    /// Whether a progress notice precedes attempt number `attempt`.
    pub open spec fn announces(self, attempt: int) -> bool {
        self.notice_every > 0 && attempt > 0 && attempt % (self.notice_every as int) == 0
    }

    /// 200 attempts, 50 ms apart, with a notice every 20 attempts: a ceiling
    /// of ten seconds.
    pub fn standard() -> (policy: PollPolicy)
        ensures
            policy == (PollPolicy { attempts: 200, interval_ms: 50, notice_every: 20 }),
            policy.elapsed_ms(policy.attempts as int) == 10_000,
    {
        PollPolicy {
            attempts: ATTEMPT_BUDGET,
            interval_ms: POLL_INTERVAL_MS,
            notice_every: NOTICE_EVERY,
        }
    }
}

/// The registry index of the device that is taken when none is named.
pub const FIRST_DEVICE: i32 = 0;

/// Which device a lookup asks the registry for.
#[derive(Clone, Debug, PartialEq, Eq)]
pub enum Lookup {
    /// The device at this index of the registry's list.
    ByIndex(i32),
    /// The device with this serial number.
    BySerial(String),
}

/// The model of a [`Lookup`]: the serial number by its characters.
pub enum LookupView {
    ByIndex(i32),
    BySerial(Seq<char>),
}

impl DeepView for Lookup {
    type V = LookupView;

    open spec fn deep_view(&self) -> LookupView {
        match self {
            Lookup::ByIndex(index) => LookupView::ByIndex(*index),
            Lookup::BySerial(sn) => LookupView::BySerial(sn@),
        }
    }
}

/// The lookup for an optional serial number: by that number if there is one,
/// else the first device of the registry.
pub open spec fn spec_lookup(sn: Option<Seq<char>>) -> LookupView {
    match sn {
        Some(s) => LookupView::BySerial(s),
        None => LookupView::ByIndex(0),
    }
}

impl Lookup {
    /// The lookup for an optional serial number: by that number if there is
    /// one, else the first device of the registry.
    pub fn for_serial(sn: &Option<String>) -> (lookup: Lookup)
        ensures
            lookup.deep_view() == spec_lookup(sn.deep_view()),
    {
        match sn {
            Some(s) => Lookup::BySerial(s.clone()),
            None => Lookup::ByIndex(FIRST_DEVICE),
        }
    }
}

/// What the registry answered to one lookup. `H` is the registry's handle
/// to a device; nothing here looks inside it.
#[derive(Clone, Copy, Debug, PartialEq, Eq)]
pub enum Probe<H> {
    /// No such device.
    Absent,
    /// The device is there but not yet initialized.
    Uninitialized,
    /// The device is there and initialized; this is its handle.
    Ready(H),
}

/// Where a poll stands.
#[derive(Clone, Copy, Debug, PartialEq, Eq)]
pub enum PollState<H> {
    /// `attempt` lookups have failed; the next one is due.
    Polling { attempt: u32 },
    /// Lookup number `attempt` (counted from zero) found the device ready
    /// and returned `handle`.
    Done { attempt: u32, handle: H },
    /// The budget is spent and no device was ready.
    TimedOut,
}

/// What the caller does after a lookup.
#[derive(Clone, Copy, Debug, PartialEq, Eq, Structural)]
pub enum PollAction {
    /// The device is found; its handle is in the state.
    Accept,
    /// Sleep for `millis`; then, if `announce` holds the elapsed
    /// milliseconds, print a progress notice; then look up again.
    Retry { millis: u32, announce: Option<u64> },
    /// Sleep for `millis`, then report that no device was found.
    GiveUp { millis: u32 },
    /// The poll had already ended; nothing to do.
    Stay,
}

impl PollAction {
    /// The milliseconds this action sleeps.
    pub open spec fn sleep_ms(self) -> nat {
        match self {
            PollAction::Retry { millis, .. } => millis as nat,
            PollAction::GiveUp { millis } => millis as nat,
            _ => 0,
        }
    }
}

/// The state before the first lookup.
pub open spec fn spec_start<H>(policy: PollPolicy) -> PollState<H> {
    if policy.attempts == 0 {
        PollState::TimedOut
    } else {
        PollState::Polling { attempt: 0 }
    }
}

/// The transition of the poll: only a ready device ends it with success; an
/// absent and an uninitialized one both cost an attempt.
pub open spec fn spec_step<H>(policy: PollPolicy, state: PollState<H>, probe: Probe<H>) -> (
    PollState<H>,
    PollAction,
) {
    match state {
        PollState::Polling { attempt } => {
            if let Probe::Ready(handle) = probe {
                (PollState::Done { attempt, handle }, PollAction::Accept)
            } else if attempt + 1 < policy.attempts {
                (
                    PollState::Polling { attempt: (attempt + 1) as u32 },
                    PollAction::Retry {
                        millis: policy.interval_ms,
                        announce: if policy.announces(attempt + 1) {
                            Some(policy.elapsed_ms(attempt + 1) as u64)
                        } else {
                            None
                        },
                    },
                )
            } else {
                (PollState::TimedOut, PollAction::GiveUp { millis: policy.interval_ms })
            }
        },
        _ => (state, PollAction::Stay),
    }
}

/// The state reached from `state` when the registry answers `probes` in turn.
pub open spec fn run<H>(
    policy: PollPolicy,
    state: PollState<H>,
    probes: Seq<Probe<H>>,
) -> PollState<H>
    decreases probes.len(),
{
    if probes.len() == 0 {
        state
    } else {
        run(policy, spec_step(policy, state, probes[0]).0, probes.drop_first())
    }
}

/// The milliseconds slept on the way from `state` through `probes`.
pub open spec fn slept<H>(policy: PollPolicy, state: PollState<H>, probes: Seq<Probe<H>>) -> nat
    decreases probes.len(),
{
    if probes.len() == 0 {
        0
    } else {
        let (next, action) = spec_step(policy, state, probes[0]);
        action.sleep_ms() + slept(policy, next, probes.drop_first())
    }
}

impl<H> PollState<H> {
    /// Whether the state can come up in a poll under `policy`: the lookup it
    /// counts lies within the budget.
    pub open spec fn within_budget(self, policy: PollPolicy) -> bool {
        match self {
            PollState::Polling { attempt } => attempt < policy.attempts,
            PollState::Done { attempt, .. } => attempt < policy.attempts,
            PollState::TimedOut => true,
        }
    }

    /// The state before the first lookup: polling, unless the budget is empty.
    pub fn start(policy: &PollPolicy) -> (state: PollState<H>)
        ensures
            state == spec_start::<H>(*policy),
            state.within_budget(*policy),
    {
        if policy.attempts == 0 {
            PollState::TimedOut
        } else {
            PollState::Polling { attempt: 0 }
        }
    }

    /// How the poll ended, if it has: with the handle of the device, or with
    /// `DeviceNotFound` after a timeout. `None` while still polling.
    pub fn outcome(self) -> (result: Option<Result<H, Failure>>)
        ensures
            result == match self {
                PollState::Polling { .. } => None::<Result<H, Failure>>,
                PollState::Done { handle, .. } => Some(Ok(handle)),
                PollState::TimedOut => Some(Err(Failure::DeviceNotFound)),
            },
    {
        match self {
            PollState::Polling { .. } => None,
            PollState::Done { handle, .. } => Some(Ok(handle)),
            PollState::TimedOut => Some(Err(Failure::DeviceNotFound)),
        }
    }
}

/// Takes the registry's answer to the lookup that `state` was waiting for and
/// returns the next state with what to do before the next lookup.
pub fn step<H>(policy: &PollPolicy, state: PollState<H>, probe: Probe<H>) -> (next: (
    PollState<H>,
    PollAction,
))
    ensures
        next == spec_step(*policy, state, probe),
        state.within_budget(*policy) ==> next.0.within_budget(*policy),
{
    match state {
        PollState::Polling { attempt } => {
            match probe {
                Probe::Ready(handle) => (PollState::Done { attempt, handle }, PollAction::Accept),
                _ => {
                    if policy.attempts > 0 && attempt < policy.attempts - 1 {
                        let following: u32 = attempt + 1;
                        let announce = if policy.notice_every > 0 && following
                            % policy.notice_every == 0 {
                            assert(following * policy.interval_ms <= u64::MAX) by (nonlinear_arith)
                                requires
                                    following <= u32::MAX,
                                    policy.interval_ms <= u32::MAX,
                            ;
                            Some((following as u64) * (policy.interval_ms as u64))
                        } else {
                            None
                        };
                        (
                            PollState::Polling { attempt: following },
                            PollAction::Retry { millis: policy.interval_ms, announce },
                        )
                    } else {
                        (PollState::TimedOut, PollAction::GiveUp { millis: policy.interval_ms })
                    }
                },
            }
        },
        _ => (state, PollAction::Stay),
    }
}

/// Replays a recorded sequence of registry answers from the start of a poll
/// and returns the state it ends in.
pub fn replay<H: Copy>(policy: &PollPolicy, probes: &Vec<Probe<H>>) -> (end: PollState<H>)
    ensures
        end == run(*policy, spec_start(*policy), probes@),
{
    let mut state: PollState<H> = PollState::start(policy);
    let mut i: usize = 0;
    assert(probes@.skip(0) =~= probes@);
    while i < probes.len()
        invariant
            i <= probes.len(),
            run(*policy, state, probes@.skip(i as int)) == run(
                *policy,
                spec_start(*policy),
                probes@,
            ),
        decreases probes.len() - i,
    {
        proof {
            let rest = probes@.skip(i as int);
            assert(rest.drop_first() =~= probes@.skip(i + 1));
        }
        let (next, _) = step(policy, state, probes[i]);
        state = next;
        i += 1;
    }
    state
}

/// The position of the first ready answer in `probes`, or their number if
/// none is ready.
pub open spec fn first_ready<H>(probes: Seq<Probe<H>>) -> int
    decreases probes.len(),
{
    if probes.len() == 0 {
        0
    } else if probes[0] is Ready {
        0
    } else {
        1 + first_ready(probes.drop_first())
    }
}

/// `first_ready` is the least position that holds a ready answer.
pub proof fn lemma_first_ready<H>(probes: Seq<Probe<H>>)
    ensures
        0 <= first_ready(probes) <= probes.len(),
        first_ready(probes) < probes.len() ==> probes[first_ready(probes)] is Ready,
        forall|j: int| 0 <= j < first_ready(probes) ==> !(#[trigger] probes[j] is Ready),
    decreases probes.len(),
{
    if probes.len() > 0 && !(probes[0] is Ready) {
        let rest = probes.drop_first();
        lemma_first_ready(rest);
        assert forall|j: int| 0 <= j < first_ready(probes) implies !(#[trigger] probes[j]
            is Ready) by {
            if j > 0 {
                assert(probes[j] == rest[j - 1]);
            }
        }
    }
}

/// Once a poll has ended, further answers change nothing and cost no time.
pub proof fn lemma_ended_poll_stays<H>(
    policy: PollPolicy,
    state: PollState<H>,
    probes: Seq<Probe<H>>,
)
    requires
        !(state is Polling),
    ensures
        run(policy, state, probes) == state,
        slept(policy, state, probes) == 0,
    decreases probes.len(),
{
    if probes.len() > 0 {
        lemma_ended_poll_stays(policy, state, probes.drop_first());
    }
}

/// Where a poll that has made `attempt` failed lookups ends up: it accepts the
/// first ready answer if the budget reaches that far, times out if the
/// answers outlast the budget, and is still polling otherwise. Each failed
/// lookup costs one interval of sleep.
pub proof fn lemma_run_from<H>(policy: PollPolicy, attempt: u32, probes: Seq<Probe<H>>)
    requires
        attempt < policy.attempts,
    ensures
        ({
            let k = first_ready(probes);
            let start = PollState::<H>::Polling { attempt };
            if k < probes.len() && attempt + k < policy.attempts {
                &&& run(policy, start, probes) == (PollState::Done {
                    attempt: (attempt + k) as u32,
                    handle: probes[k]->Ready_0,
                })
                &&& slept(policy, start, probes) == k * policy.interval_ms
            } else if attempt + probes.len() >= policy.attempts {
                &&& run(policy, start, probes) == PollState::<H>::TimedOut
                &&& slept(policy, start, probes) == (policy.attempts - attempt)
                    * policy.interval_ms
            } else {
                &&& run(policy, start, probes) == (PollState::<H>::Polling {
                    attempt: (attempt + probes.len()) as u32,
                })
                &&& slept(policy, start, probes) == probes.len() * policy.interval_ms
            }
        }),
    decreases probes.len(),
{
    lemma_first_ready(probes);
    let interval = policy.interval_ms as int;
    if probes.len() > 0 {
        let rest = probes.drop_first();
        lemma_first_ready(rest);
        let (next, action) = spec_step(policy, PollState::<H>::Polling { attempt }, probes[0]);
        if probes[0] is Ready {
            lemma_ended_poll_stays(policy, next, rest);
        } else if attempt + 1 < policy.attempts {
            lemma_run_from(policy, (attempt + 1) as u32, rest);
            let k = first_ready(rest);
            if k < rest.len() {
                assert(probes[k + 1] == rest[k]);
            }
            assert(interval + k * interval == (k + 1) * interval) by (nonlinear_arith);
            assert(interval + (policy.attempts - attempt - 1) * interval == (policy.attempts
                - attempt) * interval) by (nonlinear_arith);
            assert(interval + rest.len() * interval == (rest.len() + 1) * interval)
                by (nonlinear_arith);
        } else {
            lemma_ended_poll_stays(policy, next, rest);
            assert((policy.attempts - attempt) * interval == interval) by (nonlinear_arith)
                requires
                    policy.attempts - attempt == 1,
            ;
        }
    }
}

/// A device that is ready at lookup `k`, and at none before it, is accepted at
/// that lookup with the handle it returned, after `k` intervals of sleep,
/// provided the budget reaches `k`.
pub proof fn lemma_accepts_first_ready<H>(policy: PollPolicy, probes: Seq<Probe<H>>, k: int)
    requires
        0 <= k < probes.len(),
        k < policy.attempts,
        probes[k] is Ready,
        forall|j: int| 0 <= j < k ==> !(#[trigger] probes[j] is Ready),
    ensures
        run(policy, spec_start(policy), probes) == (PollState::Done {
            attempt: k as u32,
            handle: probes[k]->Ready_0,
        }),
        slept(policy, spec_start(policy), probes) == policy.elapsed_ms(k),
{
    lemma_first_ready(probes);
    assert(first_ready(probes) == k);
    lemma_run_from(policy, 0, probes);
}

/// A poll whose every lookup within the budget fails times out, after one
/// interval of sleep per attempt of the budget.
pub proof fn lemma_gives_up_after_budget<H>(policy: PollPolicy, probes: Seq<Probe<H>>)
    requires
        probes.len() >= policy.attempts,
        forall|j: int| 0 <= j < policy.attempts ==> !(#[trigger] probes[j] is Ready),
    ensures
        run(policy, spec_start(policy), probes) == PollState::<H>::TimedOut,
        slept(policy, spec_start(policy), probes) == policy.elapsed_ms(policy.attempts as int),
{
    if policy.attempts == 0 {
        lemma_ended_poll_stays(policy, PollState::<H>::TimedOut, probes);
    } else {
        lemma_first_ready(probes);
        lemma_run_from(policy, 0, probes);
    }
}

/// A poll times out only when the whole budget has been spent on lookups
/// that did not find the device ready; until then it is polling or done.
pub proof fn lemma_times_out_only_after_budget<H>(policy: PollPolicy, probes: Seq<Probe<H>>)
    requires
        run(policy, spec_start(policy), probes) is TimedOut,
    ensures
        probes.len() >= policy.attempts,
        forall|j: int| 0 <= j < policy.attempts ==> !(#[trigger] probes[j] is Ready),
{
    if policy.attempts > 0 {
        lemma_first_ready(probes);
        lemma_run_from(policy, 0, probes);
    }
}

/// Every poll ends: once as many answers have come in as the budget has
/// attempts, the poll is done or has timed out, whatever the answers were.
/// Nor does a poll ever sleep longer than the budget times the interval.
pub proof fn lemma_poll_is_bounded<H>(policy: PollPolicy, probes: Seq<Probe<H>>)
    ensures
        probes.len() >= policy.attempts ==> !(run(policy, spec_start(policy), probes) is Polling),
        slept(policy, spec_start(policy), probes) <= policy.elapsed_ms(policy.attempts as int),
{
    if policy.attempts == 0 {
        lemma_ended_poll_stays(policy, PollState::<H>::TimedOut, probes);
    } else {
        lemma_first_ready(probes);
        lemma_run_from(policy, 0, probes);
        let interval = policy.interval_ms as int;
        let budget = policy.attempts as int;
        let k = first_ready(probes);
        assert(k < budget ==> k * interval <= budget * interval) by (nonlinear_arith)
            requires
                0 <= k,
                0 <= interval,
        ;
        assert(probes.len() < budget ==> probes.len() * interval <= budget * interval)
            by (nonlinear_arith)
            requires
                0 <= interval,
        ;
    }
}

/// Under the standard policy a device that never becomes ready is given up
/// after exactly 200 lookups and ten seconds of sleep, and not before.
pub proof fn lemma_standard_timeout<H>(probes: Seq<Probe<H>>)
    requires
        forall|j: int| 0 <= j < probes.len() ==> !(#[trigger] probes[j] is Ready),
    ensures
        ({
            let policy = PollPolicy { attempts: 200, interval_ms: 50, notice_every: 20 };
            &&& run(policy, spec_start(policy), probes) is TimedOut <==> probes.len() >= 200
            &&& probes.len() >= 200 ==> slept(policy, spec_start(policy), probes) == 10_000
        }),
{
    let policy = PollPolicy { attempts: 200, interval_ms: 50, notice_every: 20 };
    lemma_first_ready(probes);
    lemma_run_from(policy, 0, probes);
}

} // verus!
