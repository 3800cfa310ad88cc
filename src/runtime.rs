use vstd::prelude::*;

verus! {

/// Where a producer runtime stands in its life.
#[derive(Debug, Clone, Copy, PartialEq, Eq, Structural)]
pub enum RuntimePhase {
    /// Its execution context runs the producers.
    Running,
    /// Shutdown began: the cleanup request is to be broadcast.
    Broadcasting,
    /// The cleanup request went out; acknowledgments are awaited.
    AwaitingCleanup,
    /// Cleanup is over; the stop signal is to be sent.
    Stopping,
    /// The stop signal was sent.
    Stopped,
}

/// What the runtime's driver does next.
#[derive(Debug, Clone, Copy, PartialEq, Eq, Structural)]
pub enum RuntimeAction {
    /// Start a fresh execution context and drop the old one, with no cleanup.
    StartContext,
    /// Broadcast one acknowledgment channel to the cleanup subscribers.
    BroadcastCleanup,
    /// Wait for the next acknowledgment.
    AwaitAcknowledgment,
    /// Send the stop signal to the execution context.
    SendStop,
    /// Nothing is left to do.
    Finished,
}

/// What the acknowledgment channel yielded while cleanup was awaited.
#[derive(Debug, Clone, Copy, PartialEq, Eq, Structural)]
pub enum CleanupEvent {
    /// One subscriber finished its cleanup.
    Acknowledged,
    /// No sender is left: the remaining subscribers are gone.
    Disconnected,
}

/// The decisions of a module's producer runtime: reset, and shutdown with
/// its cleanup handshake.
///
/// The driver performs each action that a transition returns and reports
/// back what came of it.
pub struct RuntimeLifecycle {
    phase: RuntimePhase,
    context: u64,
    expected: usize,
    acknowledged: usize,
    disconnect_seen: bool,
    broadcasts: Ghost<nat>,
}

pub struct LifecycleView {
    pub phase: RuntimePhase,
    /// The number of the current execution context.
    pub context: u64,
    /// Cleanup subscribers counted when shutdown began.
    pub expected: usize,
    /// Acknowledgments received since.
    pub acknowledged: usize,
    /// Whether the subscribers were found gone before all acknowledged.
    pub disconnect_seen: bool,
    /// How many cleanup requests were broadcast so far.
    pub broadcasts: nat,
}

impl LifecycleView {
    /// The stop signal was decided on or sent.
    pub open spec fn stop_signalled(self) -> bool {
        self.phase == RuntimePhase::Stopping || self.phase == RuntimePhase::Stopped
    }

    /// The counts agree with the phase: no more acknowledgments than
    /// subscribers, waiting only while some are missing, and a stop only once
    /// all acknowledged or the rest were gone.
    pub open spec fn wf(self) -> bool {
        &&& self.acknowledged <= self.expected
        &&& self.stop_signalled() ==> self.acknowledged == self.expected || self.disconnect_seen
        &&& self.phase == RuntimePhase::AwaitingCleanup ==> self.acknowledged < self.expected
        &&& self.phase == RuntimePhase::Broadcasting ==> self.acknowledged == 0
    }

    /// The state after a reset: running on a fresh context, with no shutdown
    /// under way and no cleanup request broadcast.
    pub open spec fn after_reset(self) -> LifecycleView {
        LifecycleView {
            phase: RuntimePhase::Running,
            context: next_context(self.context),
            expected: 0,
            acknowledged: 0,
            disconnect_seen: false,
            ..self
        }
    }

    /// Shutdown begins with `subscribers` cleanup subscribers counted.
    pub open spec fn on_begin_shutdown(self, subscribers: usize) -> (LifecycleView, RuntimeAction) {
        (
            LifecycleView {
                phase: RuntimePhase::Broadcasting,
                expected: subscribers,
                acknowledged: 0,
                disconnect_seen: false,
                broadcasts: self.broadcasts + 1,
                ..self
            },
            RuntimeAction::BroadcastCleanup,
        )
    }

    /// The broadcast reached a subscriber (`delivered`) or nobody.
    pub open spec fn on_broadcast(self, delivered: bool) -> (LifecycleView, RuntimeAction) {
        if delivered && self.expected > 0 {
            (LifecycleView { phase: RuntimePhase::AwaitingCleanup, ..self }, RuntimeAction::AwaitAcknowledgment)
        } else {
            (
                LifecycleView { phase: RuntimePhase::Stopping, disconnect_seen: !delivered, ..self },
                RuntimeAction::SendStop,
            )
        }
    }

    /// The acknowledgment channel yielded `event`.
    pub open spec fn on_cleanup_event(self, event: CleanupEvent) -> (LifecycleView, RuntimeAction) {
        match event {
            CleanupEvent::Disconnected => (
                LifecycleView { phase: RuntimePhase::Stopping, disconnect_seen: true, ..self },
                RuntimeAction::SendStop,
            ),
            CleanupEvent::Acknowledged => if self.acknowledged + 1 == self.expected {
                (
                    LifecycleView {
                        phase: RuntimePhase::Stopping,
                        acknowledged: self.expected,
                        ..self
                    },
                    RuntimeAction::SendStop,
                )
            } else {
                (
                    LifecycleView { acknowledged: (self.acknowledged + 1) as usize, ..self },
                    RuntimeAction::AwaitAcknowledgment,
                )
            },
        }
    }

    /// The state after `k` acknowledgments while cleanup is awaited; it stays
    /// put once waiting is over.
    pub open spec fn after_acknowledgments(self, k: nat) -> LifecycleView
        decreases k,
    {
        if k == 0 {
            self
        } else {
            let prev = self.after_acknowledgments((k - 1) as nat);
            if prev.phase == RuntimePhase::AwaitingCleanup {
                prev.on_cleanup_event(CleanupEvent::Acknowledged).0
            } else {
                prev
            }
        }
    }
}

pub open spec fn next_context(c: u64) -> u64 {
    if c == u64::MAX {
        0
    } else {
        (c + 1) as u64
    }
}

impl View for RuntimeLifecycle {
    type V = LifecycleView;

    closed spec fn view(&self) -> LifecycleView {
        LifecycleView {
            phase: self.phase,
            context: self.context,
            expected: self.expected,
            acknowledged: self.acknowledged,
            disconnect_seen: self.disconnect_seen,
            broadcasts: self.broadcasts@,
        }
    }
}

impl RuntimeLifecycle {
    /// A runtime whose first execution context runs.
    pub fn new() -> (r: RuntimeLifecycle)
        ensures
            r@ == (LifecycleView {
                phase: RuntimePhase::Running,
                context: 0,
                expected: 0,
                acknowledged: 0,
                disconnect_seen: false,
                broadcasts: 0,
            }),
            r@.wf(),
    {
        RuntimeLifecycle {
            phase: RuntimePhase::Running,
            context: 0,
            expected: 0,
            acknowledged: 0,
            disconnect_seen: false,
            broadcasts: Ghost(0),
        }
    }

    pub fn phase(&self) -> (r: RuntimePhase)
        ensures
            r == self@.phase,
    {
        self.phase
    }

    pub fn context(&self) -> (r: u64)
        ensures
            r == self@.context,
    {
        self.context
    }

    /// Replaces the execution context by a fresh one. The old one is dropped
    /// without a cleanup request, whatever it still runs.
    pub fn reset(&mut self) -> (r: RuntimeAction)
        requires
            old(self)@.wf(),
        ensures
            final(self)@ == old(self)@.after_reset(),
            final(self)@.wf(),
            r == RuntimeAction::StartContext,
    {
        self.context = if self.context == u64::MAX {
            0
        } else {
            self.context + 1
        };
        self.phase = RuntimePhase::Running;
        self.expected = 0;
        self.acknowledged = 0;
        self.disconnect_seen = false;
        RuntimeAction::StartContext
    }

    /// Begins shutdown with `subscribers` cleanup subscribers counted.
    pub fn begin_shutdown(&mut self, subscribers: usize) -> (r: RuntimeAction)
        requires
            old(self)@.wf(),
        ensures
            (final(self)@, r) == old(self)@.on_begin_shutdown(subscribers),
            final(self)@.wf(),
    {
        self.phase = RuntimePhase::Broadcasting;
        self.expected = subscribers;
        self.acknowledged = 0;
        self.disconnect_seen = false;
        self.broadcasts = Ghost(self.broadcasts@ + 1);
        RuntimeAction::BroadcastCleanup
    }

    /// Reports whether the cleanup request reached any subscriber. Waiting
    /// starts only if it did and subscribers were counted; else the stop
    /// signal follows at once.
    pub fn broadcast_sent(&mut self, delivered: bool) -> (r: RuntimeAction)
        requires
            old(self)@.wf(),
            old(self)@.phase == RuntimePhase::Broadcasting,
        ensures
            (final(self)@, r) == old(self)@.on_broadcast(delivered),
            final(self)@.wf(),
    {
        if delivered && self.expected > 0 {
            self.phase = RuntimePhase::AwaitingCleanup;
            RuntimeAction::AwaitAcknowledgment
        } else {
            self.phase = RuntimePhase::Stopping;
            self.disconnect_seen = !delivered;
            RuntimeAction::SendStop
        }
    }

    /// Reports what the acknowledgment channel yielded. The stop signal
    /// follows the last acknowledgment, or the first sign that no sender is
    /// left.
    pub fn cleanup_event(&mut self, event: CleanupEvent) -> (r: RuntimeAction)
        requires
            old(self)@.wf(),
            old(self)@.phase == RuntimePhase::AwaitingCleanup,
        ensures
            (final(self)@, r) == old(self)@.on_cleanup_event(event),
            final(self)@.wf(),
    {
        match event {
            CleanupEvent::Disconnected => {
                self.phase = RuntimePhase::Stopping;
                self.disconnect_seen = true;
                RuntimeAction::SendStop
            },
            CleanupEvent::Acknowledged => {
                self.acknowledged = self.acknowledged + 1;
                if self.acknowledged == self.expected {
                    self.phase = RuntimePhase::Stopping;
                    RuntimeAction::SendStop
                } else {
                    RuntimeAction::AwaitAcknowledgment
                }
            },
        }
    }

    /// Reports that the stop signal was sent. Whether the context was still
    /// there to receive it makes no difference: shutdown never fails.
    pub fn stop_sent(&mut self) -> (r: RuntimeAction)
        requires
            old(self)@.wf(),
            old(self)@.phase == RuntimePhase::Stopping,
        ensures
            final(self)@ == (LifecycleView { phase: RuntimePhase::Stopped, ..old(self)@ }),
            final(self)@.wf(),
            r == RuntimeAction::Finished,
    {
        self.phase = RuntimePhase::Stopped;
        RuntimeAction::Finished
    }
}

/// Once the stop signal is decided on, every counted cleanup subscriber has
/// acknowledged, or the subscribers were found gone.
pub proof fn shutdown_waits_for_cleanup(v: LifecycleView)
    requires
        v.wf(),
        v.stop_signalled(),
    ensures
        v.acknowledged == v.expected || v.disconnect_seen,
{
}

proof fn acknowledgments_count(v: LifecycleView, k: nat)
    requires
        v.wf(),
        v.phase == RuntimePhase::AwaitingCleanup,
        v.acknowledged == 0,
        k <= v.expected,
    ensures
        v.after_acknowledgments(k).acknowledged == k,
        v.after_acknowledgments(k).expected == v.expected,
        v.after_acknowledgments(k).disconnect_seen == v.disconnect_seen,
        v.after_acknowledgments(k).phase == if k < v.expected {
            RuntimePhase::AwaitingCleanup
        } else {
            RuntimePhase::Stopping
        },
    decreases k,
{
    if k > 0 {
        acknowledgments_count(v, (k - 1) as nat);
    }
}

/// With `n` cleanup subscribers whose broadcast went out, the runtime keeps
/// waiting through the first `n - 1` acknowledgments and decides on the stop
/// signal at the `n`-th; a disconnect while waiting decides on it at once.
pub proof fn stop_follows_all_acknowledgments(v: LifecycleView, n: usize, k: nat)
    requires
        v.wf(),
        n > 0,
        k < n,
    ensures
        ({
            let waiting = v.on_begin_shutdown(n).0.on_broadcast(true);
            &&& waiting.1 == RuntimeAction::AwaitAcknowledgment
            &&& waiting.0.after_acknowledgments(k).phase == RuntimePhase::AwaitingCleanup
            &&& waiting.0.after_acknowledgments(k).on_cleanup_event(CleanupEvent::Acknowledged).1
                == if k + 1 == n {
                RuntimeAction::SendStop
            } else {
                RuntimeAction::AwaitAcknowledgment
            }
            &&& waiting.0.after_acknowledgments(k).on_cleanup_event(CleanupEvent::Disconnected).1
                == RuntimeAction::SendStop
        }),
{
    let waiting = v.on_begin_shutdown(n).0.on_broadcast(true);
    acknowledgments_count(waiting.0, k);
}

/// With no cleanup subscriber, the stop signal follows the broadcast at once,
/// whether or not the broadcast reached anyone.
pub proof fn no_subscribers_stop_at_once(v: LifecycleView, delivered: bool)
    requires
        v.wf(),
    ensures
        v.on_begin_shutdown(0).0.on_broadcast(delivered).1 == RuntimeAction::SendStop,
{
}

/// Two resets in a row leave the runtime running on one context, the second
/// fresh one, and broadcast no cleanup request.
pub proof fn reset_twice(v: LifecycleView)
    requires
        v.wf(),
    ensures
        v.after_reset().after_reset().phase == RuntimePhase::Running,
        v.after_reset().after_reset().context == next_context(next_context(v.context)),
        v.after_reset().after_reset().broadcasts == v.broadcasts,
        v.after_reset().after_reset().wf(),
{
}

} // verus!
