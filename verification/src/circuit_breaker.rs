//! Circuit breaker that protects calls to external services.
//!
//! States:
//! - Closed: requests pass through, failures are counted;
//! - Open: the failure threshold was reached, requests fail fast;
//! - HalfOpen: the timeout elapsed, requests probe whether the service recovered.
//!
//! Time is read from a monotonic clock in milliseconds and handed in by the caller,
//! so every transition is a function of the breaker and the current instant.
use crate::text::{decimal, owned, push_all, push_decimal};
use vstd::prelude::*;

verus! {

/// Circuit breaker state.
#[derive(Debug, Clone, Copy, PartialEq, Eq, Structural)]
pub enum CircuitState {
    /// Normal operation: requests pass through.
    Closed,
    /// Failure threshold exceeded: fail fast.
    Open,
    /// Testing recovery: requests are let through to probe the service.
    HalfOpen,
}

/// Circuit breaker configuration (durations in milliseconds).
#[derive(Debug, Clone, Copy, PartialEq, Eq, Structural)]
pub struct CircuitBreakerConfig {
    /// Number of failures before opening the circuit.
    pub failure_threshold: u32,
    /// Number of successes needed to close the circuit from half-open.
    pub success_threshold: u32,
    /// Time to wait before moving from open to half-open.
    pub timeout: u64,
    /// Time window after which earlier failures are forgotten.
    pub failure_window: u64,
}

impl Default for CircuitBreakerConfig {
    fn default() -> (c: Self)
        ensures
            c == (CircuitBreakerConfig {
                failure_threshold: 5,
                success_threshold: 2,
                timeout: 30_000,
                failure_window: 60_000,
            }),
    {
        CircuitBreakerConfig {
            failure_threshold: 5,
            success_threshold: 2,
            timeout: 30_000,
            failure_window: 60_000,
        }
    }
}

impl CircuitBreakerConfig {
    /// Aggressive config for critical external services (LCU, Live Client).
    pub fn aggressive() -> (c: Self)
        ensures
            c == (CircuitBreakerConfig {
                failure_threshold: 3,
                success_threshold: 2,
                timeout: 10_000,
                failure_window: 30_000,
            }),
    {
        CircuitBreakerConfig {
            failure_threshold: 3,
            success_threshold: 2,
            timeout: 10_000,
            failure_window: 30_000,
        }
    }

    /// Tolerant config for non-critical services.
    pub fn tolerant() -> (c: Self)
        ensures
            c == (CircuitBreakerConfig {
                failure_threshold: 10,
                success_threshold: 3,
                timeout: 60_000,
                failure_window: 120_000,
            }),
    {
        CircuitBreakerConfig {
            failure_threshold: 10,
            success_threshold: 3,
            timeout: 60_000,
            failure_window: 120_000,
        }
    }
}

/// Abstract state of a breaker: the name of the service it guards, its
/// configuration, its state and its counters.
pub struct BreakerModel {
    pub name: Seq<char>,
    pub config: CircuitBreakerConfig,
    pub state: CircuitState,
    pub failure_count: u32,
    pub success_count: u32,
    pub last_failure_time: Option<u64>,
    pub last_state_change: u64,
}

/// Milliseconds elapsed from `since` to `now`, zero if the clock reads earlier.
pub open spec fn elapsed(since: u64, now: u64) -> int {
    if now >= since {
        now - since
    } else {
        0
    }
}

/// The counters never run past their thresholds.
pub open spec fn model_wf(m: BreakerModel) -> bool {
    &&& (m.state == CircuitState::Closed ==> m.failure_count == 0 || m.failure_count
        < m.config.failure_threshold)
    &&& (m.state == CircuitState::HalfOpen ==> m.success_count == 0 || m.success_count
        < m.config.success_threshold)
}

/// A fresh breaker: closed, no failures recorded.
pub open spec fn initial_model(name: Seq<char>, config: CircuitBreakerConfig, now: u64) -> BreakerModel {
    BreakerModel {
        name,
        config,
        state: CircuitState::Closed,
        failure_count: 0,
        success_count: 0,
        last_failure_time: None,
        last_state_change: now,
    }
}

/// What the admission check decides: `Err(remaining)` fails fast while the
/// circuit is open and `remaining` milliseconds of the timeout are left.
pub open spec fn gate_result(m: BreakerModel, now: u64) -> Result<(), u64> {
    if m.state == CircuitState::Open && elapsed(m.last_state_change, now) < m.config.timeout {
        Err((m.config.timeout - elapsed(m.last_state_change, now)) as u64)
    } else {
        Ok(())
    }
}

/// State after the admission check.
pub open spec fn gate_model(m: BreakerModel, now: u64) -> BreakerModel {
    match m.state {
        CircuitState::Open => {
            if elapsed(m.last_state_change, now) >= m.config.timeout {
                BreakerModel {
                    state: CircuitState::HalfOpen,
                    success_count: 0,
                    last_state_change: now,
                    ..m
                }
            } else {
                m
            }
        },
        CircuitState::HalfOpen => m,
        CircuitState::Closed => {
            match m.last_failure_time {
                Some(t) => {
                    if elapsed(t, now) > m.config.failure_window {
                        BreakerModel { failure_count: 0, last_failure_time: None, ..m }
                    } else {
                        m
                    }
                },
                None => m,
            }
        },
    }
}

/// State after a successful operation.
pub open spec fn success_model(m: BreakerModel, now: u64) -> BreakerModel {
    match m.state {
        CircuitState::HalfOpen => {
            if m.success_count + 1 >= m.config.success_threshold {
                BreakerModel {
                    state: CircuitState::Closed,
                    failure_count: 0,
                    success_count: 0,
                    last_failure_time: None,
                    last_state_change: now,
                    ..m
                }
            } else {
                BreakerModel { success_count: (m.success_count + 1) as u32, ..m }
            }
        },
        _ => m,
    }
}

/// State after a failed operation.
pub open spec fn failure_model(m: BreakerModel, now: u64) -> BreakerModel {
    match m.state {
        CircuitState::Closed => {
            if m.failure_count + 1 >= m.config.failure_threshold {
                BreakerModel {
                    state: CircuitState::Open,
                    failure_count: (m.failure_count + 1) as u32,
                    last_failure_time: Some(now),
                    last_state_change: now,
                    ..m
                }
            } else {
                BreakerModel {
                    failure_count: (m.failure_count + 1) as u32,
                    last_failure_time: Some(now),
                    ..m
                }
            }
        },
        CircuitState::HalfOpen => BreakerModel {
            state: CircuitState::Open,
            success_count: 0,
            last_state_change: now,
            ..m
        },
        CircuitState::Open => m,
    }
}

/// State after the manual reset.
pub open spec fn reset_model(m: BreakerModel, now: u64) -> BreakerModel {
    BreakerModel {
        state: CircuitState::Closed,
        failure_count: 0,
        success_count: 0,
        last_failure_time: None,
        last_state_change: now,
        ..m
    }
}

/// One guarded call at `now` whose operation, when admitted, succeeds or fails.
pub open spec fn call_model(m: BreakerModel, succeeded: bool, now: u64) -> BreakerModel {
    if gate_result(m, now) is Err {
        m
    } else if succeeded {
        success_model(gate_model(m, now), now)
    } else {
        failure_model(gate_model(m, now), now)
    }
}

/// `n` guarded calls at the same instant, all with the same outcome.
pub open spec fn repeat_calls(m: BreakerModel, succeeded: bool, now: u64, n: nat) -> BreakerModel
    decreases n,
{
    if n == 0 {
        m
    } else {
        repeat_calls(call_model(m, succeeded, now), succeeded, now, (n - 1) as nat)
    }
}

/// Unfolding `repeat_calls` from the back: the last call comes after the others.
pub proof fn lemma_repeat_calls_last(m: BreakerModel, succeeded: bool, now: u64, n: nat)
    ensures
        repeat_calls(m, succeeded, now, n + 1) == call_model(
            repeat_calls(m, succeeded, now, n),
            succeeded,
            now,
        ),
    decreases n,
{
    reveal_with_fuel(repeat_calls, 2);
    if n > 0 {
        lemma_repeat_calls_last(call_model(m, succeeded, now), succeeded, now, (n - 1) as nat);
    }
}

/// Calls never change the configuration.
pub proof fn lemma_repeat_calls_keep_config(m: BreakerModel, succeeded: bool, now: u64, n: nat)
    ensures
        repeat_calls(m, succeeded, now, n).config == m.config,
    decreases n,
{
    if n > 0 {
        lemma_repeat_calls_keep_config(call_model(m, succeeded, now), succeeded, now, (n - 1) as nat);
    }
}

/// Every guarded call keeps the counters within their thresholds.
pub proof fn law_calls_keep_counters_bounded(m: BreakerModel, succeeded: bool, now: u64)
    requires
        model_wf(m),
    ensures
        model_wf(call_model(m, succeeded, now)),
        model_wf(reset_model(m, now)),
{
}

/// A closed circuit without recorded failures stays closed, counting, for the
/// first `failure_threshold - 1` failed calls at one instant, and opens at the
/// `failure_threshold`-th.
pub proof fn law_opens_after_threshold_failures(m: BreakerModel, now: u64, j: nat)
    requires
        m.state == CircuitState::Closed,
        m.failure_count == 0,
        m.config.failure_threshold >= 1,
        j <= m.config.failure_threshold,
    ensures
        j < m.config.failure_threshold ==> repeat_calls(m, false, now, j).state
            == CircuitState::Closed && repeat_calls(m, false, now, j).failure_count == j,
        j == m.config.failure_threshold ==> repeat_calls(m, false, now, j).state
            == CircuitState::Open,
    decreases j,
{
    if j > 0 {
        let k = (j - 1) as nat;
        law_opens_after_threshold_failures(m, now, k);
        lemma_repeat_calls_last(m, false, now, k);
        let p = repeat_calls(m, false, now, k);
        if k > 0 {
            lemma_last_failure_is_now(m, now, k);
        }
        lemma_repeat_calls_keep_config(m, false, now, k);
    }
}

proof fn lemma_last_failure_is_now(m: BreakerModel, now: u64, k: nat)
    requires
        m.state == CircuitState::Closed,
        m.failure_count == 0,
        m.config.failure_threshold >= 1,
        0 < k < m.config.failure_threshold,
    ensures
        repeat_calls(m, false, now, k).last_failure_time == Some(now),
    decreases k,
{
    let q = (k - 1) as nat;
    lemma_repeat_calls_last(m, false, now, q);
    lemma_repeat_calls_keep_config(m, false, now, q);
    law_opens_after_threshold_failures(m, now, q);
    if q > 0 {
        lemma_last_failure_is_now(m, now, q);
    }
}

/// In the closed state failures are forgotten only once the last one is
/// older than the failure window: within the window the admission check keeps
/// the count, past it the count restarts, and the open timeout plays no part.
pub proof fn law_closed_forgets_failures_after_the_window(m: BreakerModel, now: u64, other_timeout: u64)
    requires
        m.state == CircuitState::Closed,
    ensures
        (m.last_failure_time matches Some(t) && elapsed(t, now) <= m.config.failure_window)
            ==> gate_model(m, now) == m,
        (m.last_failure_time matches Some(t) && elapsed(t, now) > m.config.failure_window)
            ==> gate_model(m, now).failure_count == 0,
        m.last_failure_time is None ==> gate_model(m, now) == m,
        gate_model(
            BreakerModel { config: CircuitBreakerConfig { timeout: other_timeout, ..m.config }, ..m },
            now,
        ).failure_count == gate_model(m, now).failure_count,
        gate_result(m, now) is Ok,
{
}

/// A failure that comes within the failure window of the previous one adds
/// to the count: the closed breaker counts it, and opens when the count
/// reaches the threshold.
pub proof fn law_failures_within_the_window_accumulate(m: BreakerModel, now: u64, t: u64)
    requires
        model_wf(m),
        m.state == CircuitState::Closed,
        m.last_failure_time == Some(t),
        elapsed(t, now) <= m.config.failure_window,
    ensures
        m.failure_count + 1 >= m.config.failure_threshold ==> call_model(m, false, now).state
            == CircuitState::Open,
        m.failure_count + 1 < m.config.failure_threshold ==> call_model(m, false, now).state
            == CircuitState::Closed && call_model(m, false, now).failure_count == m.failure_count
            + 1,
{
}

/// Within its timeout an open circuit fails fast and does not change.
pub proof fn law_open_fails_fast(m: BreakerModel, now: u64)
    requires
        m.state == CircuitState::Open,
        elapsed(m.last_state_change, now) < m.config.timeout,
    ensures
        gate_result(m, now) == Err::<(), u64>(
            (m.config.timeout - elapsed(m.last_state_change, now)) as u64,
        ),
        gate_model(m, now) == m,
        call_model(m, true, now) == m,
        call_model(m, false, now) == m,
{
}

/// Once the timeout has elapsed an open circuit lets the next request through
/// in the half-open state.
pub proof fn law_open_becomes_half_open_after_timeout(m: BreakerModel, now: u64)
    requires
        m.state == CircuitState::Open,
        elapsed(m.last_state_change, now) >= m.config.timeout,
    ensures
        gate_result(m, now) is Ok,
        gate_model(m, now).state == CircuitState::HalfOpen,
        gate_model(m, now).success_count == 0,
        gate_model(m, now).last_state_change == now,
{
}

/// A failure while half-open reopens the circuit.
pub proof fn law_half_open_failure_reopens(m: BreakerModel, now: u64)
    requires
        m.state == CircuitState::HalfOpen,
    ensures
        call_model(m, false, now).state == CircuitState::Open,
        call_model(m, false, now).last_state_change == now,
{
}

/// From half-open with no successes yet, the circuit stays half-open for the first
/// `success_threshold - 1` successful calls and closes, with both counters cleared,
/// at the `success_threshold`-th.
pub proof fn law_recovery_closes_after_threshold_successes(m: BreakerModel, now: u64, j: nat)
    requires
        m.state == CircuitState::HalfOpen,
        m.success_count == 0,
        m.config.success_threshold >= 1,
        j <= m.config.success_threshold,
    ensures
        j < m.config.success_threshold ==> repeat_calls(m, true, now, j).state
            == CircuitState::HalfOpen && repeat_calls(m, true, now, j).success_count == j,
        j == m.config.success_threshold ==> {
            &&& repeat_calls(m, true, now, j).state == CircuitState::Closed
            &&& repeat_calls(m, true, now, j).failure_count == 0
            &&& repeat_calls(m, true, now, j).success_count == 0
        },
    decreases j,
{
    if j > 0 {
        let k = (j - 1) as nat;
        law_recovery_closes_after_threshold_successes(m, now, k);
        lemma_repeat_calls_last(m, true, now, k);
        lemma_repeat_calls_keep_config(m, true, now, k);
    }
}

/// The manual reset always leaves a closed circuit with cleared counters.
pub proof fn law_reset_closes(m: BreakerModel, now: u64)
    ensures
        reset_model(m, now).state == CircuitState::Closed,
        reset_model(m, now).failure_count == 0,
        reset_model(m, now).success_count == 0,
        reset_model(m, now).last_failure_time is None,
{
}

/// Circuit breaker for protecting external service calls.
pub struct CircuitBreaker {
    config: CircuitBreakerConfig,
    name: String,
    state: CircuitState,
    failure_count: u32,
    success_count: u32,
    last_failure_time: Option<u64>,
    last_state_change: u64,
}

/// The digits of a millisecond fraction of a second (1 to 999), trailing
/// zeros dropped.
pub open spec fn fraction_text(m: nat) -> Seq<char> {
    if m % 100 == 0 {
        decimal(m / 100)
    } else if m % 10 == 0 {
        decimal(m / 100) + decimal((m / 10) % 10)
    } else {
        decimal(m / 100) + decimal((m / 10) % 10) + decimal(m % 10)
    }
}

/// A whole number of milliseconds as `Duration`'s `Debug` shows it: seconds
/// with their decimal fraction and `s`, or milliseconds and `ms` below one
/// second, or `0ns`.
pub open spec fn duration_text(ms: nat) -> Seq<char> {
    let secs = ms / 1000;
    let m = ms % 1000;
    if secs > 0 {
        decimal(secs) + (if m == 0 {
            Seq::empty()
        } else {
            "."@ + fraction_text(m)
        }) + "s"@
    } else if m > 0 {
        decimal(m) + "ms"@
    } else {
        "0ns"@
    }
}

/// The error of a request refused by an open breaker named `name`, which
/// opens again after `remaining_ms`.
pub open spec fn fail_fast_message(name: Seq<char>, remaining_ms: nat) -> Seq<char> {
    "Circuit breaker '"@ + name + "' is OPEN - failing fast (opens in "@ + duration_text(
        remaining_ms,
    ) + ")"@
}

/// Appends `duration_text(ms)`.
pub fn push_duration(s: &mut String, ms: u64)
    ensures
        final(s)@ == old(s)@ + duration_text(ms as nat),
{
    let secs = ms / 1000;
    let m = ms % 1000;
    if secs > 0 {
        push_decimal(s, secs);
        if m != 0 {
            push_all(s, ".");
            push_decimal(s, m / 100);
            if m % 100 != 0 {
                push_decimal(s, (m / 10) % 10);
                if m % 10 != 0 {
                    push_decimal(s, m % 10);
                }
            }
        }
        push_all(s, "s");
    } else if m > 0 {
        push_decimal(s, m);
        push_all(s, "ms");
    } else {
        push_all(s, "0ns");
    }
    assert(final(s)@ =~= old(s)@ + duration_text(ms as nat));
}

impl View for CircuitBreaker {
    type V = BreakerModel;

    closed spec fn view(&self) -> BreakerModel {
        BreakerModel {
            name: self.name@,
            config: self.config,
            state: self.state,
            failure_count: self.failure_count,
            success_count: self.success_count,
            last_failure_time: self.last_failure_time,
            last_state_change: self.last_state_change,
        }
    }
}

impl CircuitBreaker {
    #[verifier::type_invariant]
    closed spec fn inv(&self) -> bool {
        model_wf(self@)
    }

    /// The service name used in messages.
    pub closed spec fn spec_name(&self) -> Seq<char> {
        self.name@
    }

    /// A closed breaker with no recorded failures, created at `now`.
    pub fn new(name: String, config: CircuitBreakerConfig, now: u64) -> (b: Self)
        ensures
            b@ == initial_model(name@, config, now),
            b.spec_name() == name@,
    {
        CircuitBreaker {
            config,
            name,
            state: CircuitState::Closed,
            failure_count: 0,
            success_count: 0,
            last_failure_time: None,
            last_state_change: now,
        }
    }

    /// Admission check with the refusal as text: what `allow_request` does,
    /// with an open breaker's refusal given as its fail-fast error, which names
    /// the OPEN state.
    pub fn check_request(&mut self, now: u64) -> (r: Result<(), String>)
        ensures
            final(self)@ == gate_model(old(self)@, now),
            final(self).spec_name() == old(self).spec_name(),
            gate_result(old(self)@, now) is Ok ==> r is Ok,
            forall|ms: u64|
                gate_result(old(self)@, now) == Err::<(), u64>(ms) ==> (r matches Err(e) && e@
                    == fail_fast_message(old(self).spec_name(), ms as nat)),
    {
        match self.allow_request(now) {
            Ok(()) => Ok(()),
            Err(ms) => {
                let mut e = owned("Circuit breaker '");
                push_all(&mut e, self.name.as_str());
                push_all(&mut e, "' is OPEN - failing fast (opens in ");
                push_duration(&mut e, ms);
                push_all(&mut e, ")");
                Err(e)
            },
        }
    }

    /// The service name.
    pub fn name(&self) -> (r: &String)
        ensures
            r@ == self.spec_name(),
    {
        &self.name
    }

    /// The configuration the breaker was made with.
    pub fn config(&self) -> (c: CircuitBreakerConfig)
        ensures
            c == self@.config,
    {
        self.config
    }

    /// Current circuit state.
    pub fn get_state(&self) -> (s: CircuitState)
        ensures
            s == self@.state,
    {
        self.state
    }

    /// Current failure count.
    pub fn get_failure_count(&self) -> (n: u32)
        ensures
            n == self@.failure_count,
    {
        self.failure_count
    }

    fn elapsed_since(since: u64, now: u64) -> (e: u64)
        ensures
            e == elapsed(since, now),
    {
        if now >= since {
            now - since
        } else {
            0
        }
    }

    /// Admission check made before each operation.
    ///
    /// An open circuit whose timeout has elapsed moves to half-open and lets the
    /// request through; an open circuit within its timeout fails fast with the
    /// remaining milliseconds; a closed circuit forgets failures older than the window.
    pub fn allow_request(&mut self, now: u64) -> (r: Result<(), u64>)
        ensures
            r == gate_result(old(self)@, now),
            final(self)@ == gate_model(old(self)@, now),
            final(self).spec_name() == old(self).spec_name(),
    {
        proof {
            use_type_invariant(&*self);
        }
        match self.state {
            CircuitState::Open => {
                let e = Self::elapsed_since(self.last_state_change, now);
                if e >= self.config.timeout {
                    self.transition_to_half_open(now);
                    Ok(())
                } else {
                    Err(self.config.timeout - e)
                }
            },
            CircuitState::HalfOpen => Ok(()),
            CircuitState::Closed => {
                if let Some(last_failure) = self.last_failure_time {
                    if Self::elapsed_since(last_failure, now) > self.config.failure_window {
                        self.failure_count = 0;
                        self.last_failure_time = None;
                    }
                }
                Ok(())
            },
        }
    }

    /// Handle a successful operation.
    pub fn on_success(&mut self, now: u64)
        ensures
            final(self)@ == success_model(old(self)@, now),
            final(self).spec_name() == old(self).spec_name(),
    {
        proof {
            use_type_invariant(&*self);
        }
        match self.state {
            CircuitState::HalfOpen => {
                let next = self.success_count + 1;
                if next >= self.config.success_threshold {
                    self.failure_count = 0;
                    self.success_count = 0;
                    self.state = CircuitState::Closed;
                    self.last_failure_time = None;
                    self.last_state_change = now;
                } else {
                    self.success_count = next;
                }
            },
            _ => {},
        }
    }

    /// Handle a failed operation.
    pub fn on_failure(&mut self, now: u64)
        ensures
            final(self)@ == failure_model(old(self)@, now),
            final(self).spec_name() == old(self).spec_name(),
    {
        proof {
            use_type_invariant(&*self);
        }
        match self.state {
            CircuitState::Closed => {
                let next = self.failure_count + 1;
                if next >= self.config.failure_threshold {
                    self.state = CircuitState::Open;
                    self.failure_count = next;
                    self.last_failure_time = Some(now);
                    self.last_state_change = now;
                } else {
                    self.failure_count = next;
                    self.last_failure_time = Some(now);
                }
            },
            CircuitState::HalfOpen => {
                self.state = CircuitState::Open;
                self.success_count = 0;
                self.last_state_change = now;
            },
            CircuitState::Open => {},
        }
    }

    /// Record the outcome of an admitted operation.
    pub fn record(&mut self, succeeded: bool, now: u64)
        ensures
            final(self)@ == (if succeeded {
                success_model(old(self)@, now)
            } else {
                failure_model(old(self)@, now)
            }),
            final(self).spec_name() == old(self).spec_name(),
    {
        if succeeded {
            self.on_success(now);
        } else {
            self.on_failure(now);
        }
    }

    /// Manually reset the breaker to the closed state.
    pub fn reset(&mut self, now: u64)
        ensures
            final(self)@ == reset_model(old(self)@, now),
            final(self).spec_name() == old(self).spec_name(),
    {
        proof {
            use_type_invariant(&*self);
        }
        self.failure_count = 0;
        self.success_count = 0;
        self.state = CircuitState::Closed;
        self.last_failure_time = None;
        self.last_state_change = now;
    }

    /// Move an open circuit to half-open; other states are left as they are.
    pub fn transition_to_half_open(&mut self, now: u64)
        ensures
            final(self)@ == (if old(self)@.state == CircuitState::Open {
                BreakerModel {
                    state: CircuitState::HalfOpen,
                    success_count: 0,
                    last_state_change: now,
                    ..old(self)@
                }
            } else {
                old(self)@
            }),
            final(self).spec_name() == old(self).spec_name(),
    {
        if self.state == CircuitState::Open {
            self.success_count = 0;
            self.state = CircuitState::HalfOpen;
            self.last_state_change = now;
        }
    }
}

} // verus!
