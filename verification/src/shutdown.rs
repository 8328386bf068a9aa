use vstd::prelude::*;

verus! {

/// The one cross-thread mutable value of the core: absent means "keep
/// running", present carries the shutdown payload (such as a reading count).
/// The surrounding program guards a value of this type with one lock and one
/// wait condition; every operation here is performed under that lock.
pub struct SharedShutdownState {
    pub value: Option<u32>,
}

/// The state after a writer requests shutdown: the transition is only ever
/// absent to present, so a request on an already-present state changes
/// nothing.
pub open spec fn spec_requested(s: SharedShutdownState, payload: u32) -> SharedShutdownState {
    match s.value {
        Some(_) => s,
        None => SharedShutdownState { value: Some(payload) },
    }
}

impl SharedShutdownState {
    pub fn new() -> (r: SharedShutdownState)
        ensures
            r.value is None,
    {
        SharedShutdownState { value: None }
    }

    /// The one writer transition: requests shutdown with a payload. Once the
    /// value is present it never changes again, so the transition is
    /// monotonic whatever a second writer does.
    pub fn request_shutdown(&mut self, payload: u32)
        ensures
            *final(self) == spec_requested(*old(self), payload),
            final(self).value is Some,
    {
        if self.value.is_none() {
            self.value = Some(payload);
        }
    }

    /// The value a reader observes under the lock.
    pub fn signalled(&self) -> (r: Option<u32>)
        ensures
            r == self.value,
    {
        self.value
    }
}

/// The coordinator's state machine: Running until the signal is observed,
/// then the absorbing terminal state, reached exactly once.
#[derive(Clone, Copy, PartialEq, Eq, Structural, Debug)]
pub enum CoordinatorPhase {
    Running,
    ShuttingDown(u32),
}

/// What the surrounding wait loop must do after one wake: poll the sensor
/// once and wait again, or begin the ordered teardown with the payload.
#[derive(Clone, Copy, PartialEq, Eq, Structural, Debug)]
pub enum WakeAction {
    PollSensor,
    BeginTeardown(u32),
}

/// The action one wake decides, from the observed shared value alone.
pub open spec fn spec_wake_action(observed: Option<u32>) -> WakeAction {
    match observed {
        Some(v) => WakeAction::BeginTeardown(v),
        None => WakeAction::PollSensor,
    }
}

/// Drives the timeout-bounded wait loop: on every wake the surrounding
/// program re-acquires the lock, reads the shared value, and hands it in
/// here; the decision whether to poll once more or to tear down is made
/// here. The bounded timeout exists so that sensor sampling happens
/// periodically even though the signal may arrive by notification at an
/// arbitrary time.
pub struct Coordinator {
    pub phase: CoordinatorPhase,
    /// How many timeout-driven wakes have polled the sensor.
    pub ticks: u64,
}

impl Coordinator {
    pub fn new() -> (r: Coordinator)
        ensures
            r.phase is Running,
            r.ticks == 0,
    {
        Coordinator { phase: CoordinatorPhase::Running, ticks: 0 }
    }

    /// One wake of the wait loop. A present value ends the loop at once:
    /// the phase becomes the absorbing terminal state carrying the payload,
    /// and no operation of the coordinator leaves that state again. An
    /// absent value means one sensor poll cycle, then waiting on.
    pub fn on_wake(&mut self, observed: Option<u32>) -> (a: WakeAction)
        requires
            old(self).phase is Running,
            old(self).ticks < u64::MAX,
        ensures
            a == spec_wake_action(observed),
            observed matches Some(v) ==> final(self).phase == CoordinatorPhase::ShuttingDown(v)
                && final(self).ticks == old(self).ticks,
            observed is None ==> final(self).phase is Running && final(self).ticks == old(
                self,
            ).ticks + 1,
    {
        match observed {
            Some(v) => {
                self.phase = CoordinatorPhase::ShuttingDown(v);
                WakeAction::BeginTeardown(v)
            },
            None => {
                self.ticks = self.ticks + 1;
                WakeAction::PollSensor
            },
        }
    }
}

/// Law: the shared shutdown transition is monotonic. A request on an absent
/// value makes it present; once present, no later request changes it, and
/// the coordinator's next wake on it decides teardown, leaving the wait loop
/// for good (the terminal phase is absorbing: no coordinator operation
/// accepts it as a starting state, so Running is never re-entered).
pub proof fn lemma_shutdown_monotonic(s: SharedShutdownState, payload: u32)
    ensures
        spec_requested(s, payload).value is Some,
        s.value is Some ==> spec_requested(s, payload) == s,
        s.value matches Some(v) ==> spec_wake_action(s.value) == WakeAction::BeginTeardown(v),
{
}

/// A failed sensor read: a degraded condition, never a fatal one.
#[derive(Clone, Copy, PartialEq, Eq, Structural, Debug)]
pub struct SensorFault {
    pub code: i32,
}

/// What one sensor poll cycle logs.
#[derive(Clone, Copy, PartialEq, Eq, Structural, Debug)]
pub enum SensorOutcome {
    /// The value read, in millivolts.
    Reading(u16),
    /// The read failed; the loop goes on regardless.
    Degraded,
}

/// Classifies one scoped sensor read. Total over every possible outcome of
/// the read: a failure is logged as degraded and never ends the process,
/// since the poll runs inside the coordinator's wait loop and must not block
/// shutdown.
pub fn classify_sensor_read(read: Result<u16, SensorFault>) -> (o: SensorOutcome)
    ensures
        read matches Ok(v) ==> o == SensorOutcome::Reading(v),
        read is Err ==> o == SensorOutcome::Degraded,
{
    match read {
        Ok(v) => SensorOutcome::Reading(v),
        Err(_) => SensorOutcome::Degraded,
    }
}

/// The two teardown completions, in the order the log records them.
#[derive(Clone, Copy, PartialEq, Eq, Structural, Debug)]
pub enum TeardownEvent {
    ServiceStopped,
    InterfaceStopped,
}

/// How far the ordered teardown has come.
#[derive(Clone, Copy, PartialEq, Eq, Structural, Debug)]
pub enum TeardownPhase {
    Pending,
    ServiceDown,
    Complete,
}

/// The strict teardown order: the service pipeline is stopped and confirmed
/// closed before the network interface is touched, so that no request
/// handling can reach a torn-down interface. The event log records each
/// completion.
pub struct Teardown {
    pub phase: TeardownPhase,
    pub log: Vec<TeardownEvent>,
}

impl Teardown {
    /// The log is always a prefix of the one admissible order.
    pub open spec fn wf(self) -> bool {
        match self.phase {
            TeardownPhase::Pending => self.log@ =~= Seq::<TeardownEvent>::empty(),
            TeardownPhase::ServiceDown => self.log@ =~= seq![TeardownEvent::ServiceStopped],
            TeardownPhase::Complete => self.log@ =~= seq![
                TeardownEvent::ServiceStopped,
                TeardownEvent::InterfaceStopped,
            ],
        }
    }

    pub fn new() -> (r: Teardown)
        ensures
            r.phase is Pending,
            r.log@ == Seq::<TeardownEvent>::empty(),
            r.wf(),
    {
        Teardown { phase: TeardownPhase::Pending, log: Vec::new() }
    }

    /// Records that the service pipeline stopped and its listener closed.
    /// Only possible first.
    pub fn stop_service(&mut self)
        requires
            old(self).wf(),
            old(self).phase is Pending,
        ensures
            final(self).wf(),
            final(self).phase is ServiceDown,
            final(self).log@ == old(self).log@.push(TeardownEvent::ServiceStopped),
    {
        self.log.push(TeardownEvent::ServiceStopped);
        self.phase = TeardownPhase::ServiceDown;
    }

    /// Records that the network interface stopped and the link was released.
    /// Only possible once the service pipeline is already down.
    pub fn stop_interface(&mut self)
        requires
            old(self).wf(),
            old(self).phase is ServiceDown,
        ensures
            final(self).wf(),
            final(self).phase is Complete,
            final(self).log@ == old(self).log@.push(TeardownEvent::InterfaceStopped),
    {
        self.log.push(TeardownEvent::InterfaceStopped);
        self.phase = TeardownPhase::Complete;
    }
}

/// Law: in every execution, the service pipeline stop completes before the
/// interface stop begins: wherever the log records the interface stopping,
/// an earlier entry records the service stopped.
pub proof fn lemma_teardown_order(t: Teardown)
    requires
        t.wf(),
    ensures
        forall|i: int|
            0 <= i < t.log@.len() && t.log@[i] is InterfaceStopped ==> exists|j: int|
                0 <= j < i && #[trigger] t.log@[j] is ServiceStopped,
{
    assert forall|i: int|
        0 <= i < t.log@.len() && t.log@[i] is InterfaceStopped implies exists|j: int|
        0 <= j < i && #[trigger] t.log@[j] is ServiceStopped by {
        assert(t.log@[0] is ServiceStopped);
    }
}

} // verus!
