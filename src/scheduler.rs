use vstd::prelude::*;

use crate::config::{config_error, config_valid, ConfigError, ShippingConfig};
use crate::log_buffer::{bump, buffer_wf, drain_spec, requeue_spec, BufferState, LogBuffer, LogEvent};

verus! {

/// Where the shipping loop stands between two events.
#[derive(Clone, Copy, Debug, PartialEq, Eq, Structural)]
pub enum Phase {
    /// Waiting for the next tick.
    Idle,
    /// A batch is out with the collector.
    Sending,
    /// A delivery failed; waiting out the delay.
    Backoff,
    /// Cancelled at a tick; the loop is over.
    Stopped,
}

/// What the loop that drives the scheduler does next.
#[derive(Clone, Copy, Debug, PartialEq, Eq, Structural)]
pub enum Action {
    /// Wait for the next tick.
    AwaitTick,
    /// Hand the pending batch to the collector and report the outcome.
    Send,
    /// Sleep this long, then report that the backoff elapsed.
    Sleep(u64),
    /// Exit the loop.
    Stop,
}

/// The content of a scheduler.
pub struct ShipState {
    pub config: ShippingConfig,
    pub phase: Phase,
    /// The batch being delivered, oldest first.
    pub pending: Seq<LogEvent>,
    /// Consecutive failed deliveries.
    pub failures: nat,
    /// Events given up after too many failed deliveries.
    pub dropped: nat,
}

/// The scheduler and the buffer after one event, and the action it asks for.
pub struct Step {
    pub ship: ShipState,
    pub buffer: BufferState,
    pub action: Action,
}

/// What every scheduler satisfies.
pub open spec fn ship_wf(s: ShipState) -> bool {
    &&& config_valid(s.config)
    &&& s.failures <= s.config.max_retries
    &&& s.dropped <= u64::MAX
    &&& s.phase != Phase::Sending ==> s.pending.len() == 0
}

/// The delay after the `n`-th consecutive failure: the first delay,
/// doubled at each further failure, never above the ceiling.
pub open spec fn backoff_delay(initial: nat, ceiling: nat, n: nat) -> nat
    decreases n,
{
    if n <= 1 {
        initial
    } else {
        let d = 2 * backoff_delay(initial, ceiling, (n - 1) as nat);
        if d > ceiling {
            ceiling
        } else {
            d
        }
    }
}

/// A tick. A cancelled tick stops the loop and leaves the buffer alone;
/// otherwise the buffer is drained, and a non-empty batch goes out.
pub open spec fn tick_spec(s: ShipState, b: BufferState, cancelled: bool) -> Step {
    if cancelled {
        Step { ship: ShipState { phase: Phase::Stopped, ..s }, buffer: b, action: Action::Stop }
    } else if b.events.len() == 0 {
        Step { ship: s, buffer: b, action: Action::AwaitTick }
    } else {
        Step {
            ship: ShipState { phase: Phase::Sending, pending: b.events, ..s },
            buffer: drain_spec(b),
            action: Action::Send,
        }
    }
}

/// The collector's answer on the pending batch. Success clears it. A
/// failure puts it back in the buffer and backs off, unless the batch has
/// failed more often than the options retry: then it is dropped and counted.
pub open spec fn delivered_spec(s: ShipState, b: BufferState, ok: bool) -> Step {
    if ok {
        Step {
            ship: ShipState { phase: Phase::Idle, pending: Seq::empty(), failures: 0, ..s },
            buffer: b,
            action: Action::AwaitTick,
        }
    } else if s.failures >= s.config.max_retries {
        Step {
            ship: ShipState {
                phase: Phase::Idle,
                pending: Seq::empty(),
                failures: 0,
                dropped: bump(s.dropped, s.pending.len()),
                ..s
            },
            buffer: b,
            action: Action::AwaitTick,
        }
    } else {
        let n = s.failures + 1;
        Step {
            ship: ShipState { phase: Phase::Backoff, pending: Seq::empty(), failures: n, ..s },
            buffer: requeue_spec(b, s.pending),
            action: Action::Sleep(
                backoff_delay(s.config.initial_backoff as nat, s.config.max_backoff as nat, n) as u64,
            ),
        }
    }
}

/// The end of a backoff delay: back to waiting for ticks.
pub open spec fn backoff_elapsed_spec(s: ShipState) -> ShipState {
    ShipState { phase: Phase::Idle, ..s }
}

/// Every delay lies between the first delay and the ceiling.
pub proof fn lemma_backoff_bounded(initial: nat, ceiling: nat, n: nat)
    requires
        initial <= ceiling,
    ensures
        initial <= backoff_delay(initial, ceiling, n) <= ceiling,
    decreases n,
{
    if n > 1 {
        lemma_backoff_bounded(initial, ceiling, (n - 1) as nat);
    }
}

/// Delays never shrink as failures go on.
pub proof fn lemma_backoff_grows(initial: nat, ceiling: nat, n: nat)
    requires
        initial <= ceiling,
    ensures
        backoff_delay(initial, ceiling, n) <= backoff_delay(initial, ceiling, n + 1),
    decreases n,
{
    lemma_backoff_bounded(initial, ceiling, n);
}

/// A collector that fails twice and then accepts gets every buffered event
/// exactly once and in order: each of the three sends carries the original
/// batch whole, and after the accepted one nothing is left to send and
/// nothing was dropped.
pub proof fn lemma_two_failures_then_delivery(s0: ShipState, b0: BufferState)
    requires
        ship_wf(s0),
        buffer_wf(b0),
        s0.phase == Phase::Idle,
        s0.failures == 0,
        s0.config.max_retries >= 2,
        b0.events.len() > 0,
    ensures
        ({
            let t1 = tick_spec(s0, b0, false);
            let f1 = delivered_spec(t1.ship, t1.buffer, false);
            let t2 = tick_spec(backoff_elapsed_spec(f1.ship), f1.buffer, false);
            let f2 = delivered_spec(t2.ship, t2.buffer, false);
            let t3 = tick_spec(backoff_elapsed_spec(f2.ship), f2.buffer, false);
            let ok = delivered_spec(t3.ship, t3.buffer, true);
            &&& t1.action == Action::Send && t1.ship.pending == b0.events
            &&& f1.action is Sleep
            &&& t2.action == Action::Send && t2.ship.pending == b0.events
            &&& f2.action is Sleep
            &&& t3.action == Action::Send && t3.ship.pending == b0.events
            &&& ok.action == Action::AwaitTick
            &&& ok.ship.pending.len() == 0
            &&& ok.buffer.events.len() == 0
            &&& ok.buffer.overflow == b0.overflow
            &&& ok.ship.dropped == s0.dropped
            &&& ok.ship.failures == 0
        }),
{
    let es = b0.events;
    let t1 = tick_spec(s0, b0, false);
    let f1 = delivered_spec(t1.ship, t1.buffer, false);
    assert(f1.buffer.events =~= es);
    let t2 = tick_spec(backoff_elapsed_spec(f1.ship), f1.buffer, false);
    let f2 = delivered_spec(t2.ship, t2.buffer, false);
    assert(f2.buffer.events =~= es);
}

/// The delay after `n` consecutive failures under `config`.
pub fn backoff_for(config: &ShippingConfig, n: u32) -> (r: u64)
    requires
        config_valid(*config),
    ensures
        r == backoff_delay(config.initial_backoff as nat, config.max_backoff as nat, n as nat),
{
    let ceiling = config.max_backoff;
    let mut d: u64 = config.initial_backoff;
    let mut i: u32 = 1;
    proof {
        lemma_backoff_bounded(config.initial_backoff as nat, ceiling as nat, 1);
    }
    while i < n
        invariant
            1 <= i <= n || (i == 1 && n <= 1),
            config_valid(*config),
            ceiling == config.max_backoff,
            d == backoff_delay(config.initial_backoff as nat, ceiling as nat, i as nat),
            d <= ceiling,
        decreases n - i,
    {
        d = if d > ceiling - d {
            ceiling
        } else {
            d + d
        };
        i = i + 1;
    }
    d
}

/// The shipping loop's decisions: which batch goes out, what a failure
/// costs, when to stop. Whoever drives it sleeps, sends and reports.
pub struct ShippingScheduler {
    config: ShippingConfig,
    phase: Phase,
    pending: Vec<LogEvent>,
    failures: u32,
    dropped: u64,
}

impl View for ShippingScheduler {
    type V = ShipState;

    closed spec fn view(&self) -> ShipState {
        ShipState {
            config: self.config,
            phase: self.phase,
            pending: self.pending@,
            failures: self.failures as nat,
            dropped: self.dropped as nat,
        }
    }
}

impl ShippingScheduler {
    /// The scheduler's invariant.
    pub open spec fn wf(&self) -> bool {
        ship_wf(self@)
    }

    /// An idle scheduler with `config`, refused when the options are unusable.
    pub fn new(config: ShippingConfig) -> (r: Result<ShippingScheduler, ConfigError>)
        ensures
            match config_error(config) {
                Some(e) => r == Err::<ShippingScheduler, ConfigError>(e),
                None => r matches Ok(s) && s.wf() && s@.config == config && s@.phase == Phase::Idle
                    && s@.pending.len() == 0 && s@.failures == 0 && s@.dropped == 0,
            },
    {
        match ShippingConfig::new(config.interval, config.initial_backoff, config.max_backoff, config.max_retries) {
            Err(e) => Err(e),
            Ok(c) => {
                let s = ShippingScheduler { config: c, phase: Phase::Idle, pending: Vec::new(), failures: 0, dropped: 0 };
                Ok(s)
            },
        }
    }

    /// The options.
    pub fn config(&self) -> (r: ShippingConfig)
        ensures
            r == self@.config,
    {
        self.config
    }

    /// Where the loop stands.
    pub fn phase(&self) -> (r: Phase)
        ensures
            r == self@.phase,
    {
        self.phase
    }

    /// The batch to hand to the collector.
    pub fn pending(&self) -> (r: &Vec<LogEvent>)
        ensures
            r@ == self@.pending,
    {
        &self.pending
    }

    /// Consecutive failed deliveries.
    pub fn failures(&self) -> (r: u32)
        ensures
            r == self@.failures,
    {
        self.failures
    }

    /// Events given up after too many failed deliveries.
    pub fn dropped(&self) -> (r: u64)
        ensures
            r == self@.dropped,
    {
        self.dropped
    }

    /// A tick of the timer; `cancelled` tells whether shutdown was asked for.
    pub fn tick(&mut self, buffer: &mut LogBuffer, cancelled: bool) -> (r: Action)
        requires
            old(self).wf(),
            old(buffer).wf(),
            old(self)@.phase == Phase::Idle,
        ensures
            final(self).wf(),
            final(buffer).wf(),
            final(self)@ == tick_spec(old(self)@, old(buffer)@, cancelled).ship,
            final(buffer)@ == tick_spec(old(self)@, old(buffer)@, cancelled).buffer,
            r == tick_spec(old(self)@, old(buffer)@, cancelled).action,
    {
        if cancelled {
            self.phase = Phase::Stopped;
            return Action::Stop;
        }
        if buffer.len() == 0 {
            return Action::AwaitTick;
        }
        self.pending = buffer.drain();
        self.phase = Phase::Sending;
        Action::Send
    }

    /// The collector's answer on the pending batch.
    pub fn delivered(&mut self, buffer: &mut LogBuffer, ok: bool) -> (r: Action)
        requires
            old(self).wf(),
            old(buffer).wf(),
            old(self)@.phase == Phase::Sending,
        ensures
            final(self).wf(),
            final(buffer).wf(),
            final(self)@ == delivered_spec(old(self)@, old(buffer)@, ok).ship,
            final(buffer)@ == delivered_spec(old(self)@, old(buffer)@, ok).buffer,
            r == delivered_spec(old(self)@, old(buffer)@, ok).action,
    {
        let mut batch: Vec<LogEvent> = Vec::new();
        std::mem::swap(&mut batch, &mut self.pending);
        assert(self.pending@ =~= Seq::<LogEvent>::empty());
        self.phase = Phase::Idle;
        if ok {
            self.failures = 0;
            Action::AwaitTick
        } else if self.failures >= self.config.max_retries {
            self.failures = 0;
            self.dropped = self.dropped.saturating_add(batch.len() as u64);
            Action::AwaitTick
        } else {
            self.failures = self.failures + 1;
            self.phase = Phase::Backoff;
            buffer.requeue(batch);
            Action::Sleep(backoff_for(&self.config, self.failures))
        }
    }

    /// The end of a backoff delay.
    pub fn backoff_elapsed(&mut self) -> (r: Action)
        requires
            old(self).wf(),
            old(self)@.phase == Phase::Backoff,
        ensures
            final(self).wf(),
            final(self)@ == backoff_elapsed_spec(old(self)@),
            r == Action::AwaitTick,
    {
        self.phase = Phase::Idle;
        Action::AwaitTick
    }
}

} // verus!
