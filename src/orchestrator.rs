use crate::config::DaemonConfig;
use crate::homeassistant::{
    availability_model, device_info_model, payloads_for, system_sensor_availability, topics_model,
    DeviceInfo, DeviceModel,
};
use crate::mqtt_client::{copy_payload, MqttPayload, MqttSensorTopics, PayloadModel, TopicsModel};
use crate::sensors::{SensorModel, SystemSensor};
use vstd::prelude::*;

verus! {

/// Availability is republished for every sensor on each cycle that is a multiple of this.
pub const REFRESH_EVERY: u32 = 20;

/// Pause after each message of an availability refresh.
pub const REFRESH_DELAY_MS: u64 = 20;

/// Pause after each message of the offline pass at shutdown.
pub const OFFLINE_DELAY_MS: u64 = 20;

/// Wait before the first cycle, so that the broker connection can come up.
pub const STARTUP_DELAY_SECS: u64 = 5;

/// The cycle counter after one more cycle; it wraps at the top of its range.
pub open spec fn next_cycle(c: u32) -> u32 {
    if c == u32::MAX {
        0
    } else {
        (c + 1) as u32
    }
}

/// Whether the cycle that has just been counted republishes availability.
pub open spec fn refresh_due(c: u32) -> bool {
    c % REFRESH_EVERY == 0
}

/// Which sensors have had their discovery message published, and how many cycles ran.
#[derive(Debug)]
pub struct PublishState {
    // A vector rather than a `HashSet`: vstd specifies hash sets keyed by strings
    // too weakly to prove membership after an insert, and a vector's contents are
    // exact. A run knows a few dozen sensors, so the linear lookup costs nothing.
    discovered: Vec<String>,
    cycle: u32,
}

/// The publish state as plain values.
pub ghost struct PublishStateModel {
    pub discovered: Set<Seq<char>>,
    pub cycle: u32,
}

impl View for PublishState {
    type V = PublishStateModel;

    closed spec fn view(&self) -> PublishStateModel {
        PublishStateModel {
            discovered: self.discovered@.map_values(|s: String| s@).to_set(),
            cycle: self.cycle,
        }
    }
}

impl PublishState {
    /// Nothing discovered yet, no cycle run.
    pub fn new() -> (r: PublishState)
        ensures
            r@.discovered == Set::<Seq<char>>::empty(),
            r@.cycle == 0,
    {
        let r = PublishState { discovered: Vec::new(), cycle: 0 };
        assert(r@.discovered =~= Set::<Seq<char>>::empty());
        r
    }

    /// Whether the discovery message of `name` has been published.
    pub fn is_discovered(&self, name: &String) -> (r: bool)
        ensures
            r == self@.discovered.contains(name@),
    {
        let ghost names = self.discovered@.map_values(|s: String| s@);
        let mut i: usize = 0;
        while i < self.discovered.len()
            invariant
                i <= self.discovered.len(),
                names == self.discovered@.map_values(|s: String| s@),
                forall|k: int| 0 <= k < i ==> names[k] != name@,
            decreases self.discovered.len() - i,
        {
            if self.discovered[i] == *name {
                assert(names[i as int] == name@);
                return true;
            }
            i = i + 1;
        }
        assert(!names.contains(name@));
        false
    }

    /// Records that the discovery message of `name` has been published.
    pub fn mark_discovered(&mut self, name: &String)
        ensures
            final(self)@.discovered == old(self)@.discovered.insert(name@),
            final(self)@.cycle == old(self)@.cycle,
    {
        let ghost before = self.discovered@.map_values(|s: String| s@);
        self.discovered.push(name.clone());
        let ghost after = self.discovered@.map_values(|s: String| s@);
        assert(after =~= before.push(name@));
        assert forall|x: Seq<char>| after.contains(x) <==> before.contains(x) || x == name@ by {
            if after.contains(x) {
                let k = choose|k: int| 0 <= k < after.len() && after[k] == x;
                if k < before.len() {
                    assert(before[k] == x);
                }
            }
            if before.contains(x) {
                let k = choose|k: int| 0 <= k < before.len() && before[k] == x;
                assert(after[k] == x);
            }
            if x == name@ {
                assert(after[before.len() as int] == x);
            }
        }
        assert(after.to_set() =~= before.to_set().insert(name@));
    }

    /// Counts one more cycle; true when that cycle republishes availability.
    pub fn advance_cycle(&mut self) -> (due: bool)
        ensures
            final(self)@.cycle == next_cycle(old(self)@.cycle),
            final(self)@.discovered == old(self)@.discovered,
            due == refresh_due(final(self)@.cycle),
    {
        self.cycle = if self.cycle == u32::MAX {
            0
        } else {
            self.cycle + 1
        };
        self.cycle % REFRESH_EVERY == 0
    }

    /// The number of cycles counted so far.
    pub fn cycle(&self) -> (r: u32)
        ensures
            r == self@.cycle,
    {
        self.cycle
    }
}

/// Where the orchestrator stands.
#[derive(Debug, Clone, Copy, PartialEq, Eq, Structural)]
pub enum Phase {
    /// Waiting for the connection to come up before the first cycle.
    Starting,
    /// Waiting for the snapshot that starts a cycle.
    Collecting,
    /// The discovery message of sensor `i` is out.
    Discover(usize),
    /// The first availability message of sensor `i` is out.
    Announce(usize),
    /// Pausing after the first-discovery sequence of sensor `i`.
    Settle(usize),
    /// The state message of sensor `i` is out.
    Report(usize),
    /// The refreshed availability message of sensor `i` is out.
    Refresh(usize),
    /// Pausing after refreshing sensor `i`.
    RefreshPause(usize),
    /// Sleeping until the next cycle.
    Waiting,
    /// Waiting for the snapshot that the offline pass covers.
    Closing,
    /// The offline message of sensor `i` of that snapshot is out.
    Offline(usize),
    /// Pausing after the offline message of sensor `i`.
    OfflinePause(usize),
    /// Finished; nothing more is sent.
    Done,
}

/// What a published message is for.
#[derive(Debug, Clone, Copy, PartialEq, Eq, Structural)]
pub enum Purpose {
    Discovery,
    Online,
    State,
    Refresh,
    Offline,
}

/// What the orchestrator asks its driver to do next.
#[derive(Debug)]
pub enum Action {
    /// Take a fresh sensor snapshot and hand it back as `Event::Collected`.
    Collect,
    /// Publish `message` and hand back `Event::Published` with the outcome.
    Publish { sensor: String, purpose: Purpose, message: MqttPayload },
    /// Wait this long, racing the shutdown signal; hand back `Event::Paused` or `Event::Shutdown`.
    Pause { millis: u64 },
    /// Wait this long, racing the shutdown signal; hand back `Event::Elapsed` or `Event::Shutdown`.
    Sleep { secs: u64 },
    /// Stop: the offline pass is complete.
    Stop,
}

/// An action as plain values.
pub ghost enum ActionModel {
    Collect,
    Publish { sensor: Seq<char>, purpose: Purpose, message: PayloadModel },
    Pause { millis: u64 },
    Sleep { secs: u64 },
    Stop,
}

impl View for Action {
    type V = ActionModel;

    open spec fn view(&self) -> ActionModel {
        match self {
            Action::Collect => ActionModel::Collect,
            Action::Publish { sensor, purpose, message } => ActionModel::Publish {
                sensor: sensor@,
                purpose: *purpose,
                message: message@,
            },
            Action::Pause { millis } => ActionModel::Pause { millis: *millis },
            Action::Sleep { secs } => ActionModel::Sleep { secs: *secs },
            Action::Stop => ActionModel::Stop,
        }
    }
}

/// What the driver reports back.
#[derive(Debug)]
pub enum Event {
    Collected(Vec<SystemSensor>),
    Published(bool),
    Paused,
    Elapsed,
    Shutdown,
}

/// An event as plain values.
pub ghost enum EventModel {
    Collected(Seq<SensorModel>),
    Published(bool),
    Paused,
    Elapsed,
    Shutdown,
}

impl View for Event {
    type V = EventModel;

    open spec fn view(&self) -> EventModel {
        match self {
            Event::Collected(s) => EventModel::Collected(s@.map_values(|x: SystemSensor| x@)),
            Event::Published(ok) => EventModel::Published(*ok),
            Event::Paused => EventModel::Paused,
            Event::Elapsed => EventModel::Elapsed,
            Event::Shutdown => EventModel::Shutdown,
        }
    }
}

impl Event {
    /// Every sensor of a snapshot carries a value within the supported precision.
    pub open spec fn wf(&self) -> bool {
        match self {
            Event::Collected(s) => forall|i: int| 0 <= i < s.len() ==> #[trigger] s@[i].wf(),
            _ => true,
        }
    }
}

/// The orchestrator as plain values.
pub ghost struct OrchestratorModel {
    pub discovered: Set<Seq<char>>,
    pub cycle: u32,
    pub device_name: Seq<char>,
    pub device: DeviceModel,
    pub discovery_delay_ms: u64,
    pub update_interval_secs: u64,
    pub topics: Seq<TopicsModel>,
    pub closing: Seq<SensorModel>,
    pub phase: Phase,
}

/// The phases of the shutdown path, which a further signal does not interrupt.
pub open spec fn is_closing(p: Phase) -> bool {
    p is Closing || p is Offline || p is OfflinePause || p is Done
}

/// Takes up sensor `i` of the cycle, or ends the cycle after the last one.
pub open spec fn enter_sensor(m: OrchestratorModel, i: int) -> OrchestratorModel {
    if i < m.topics.len() {
        if m.discovered.contains(m.topics[i].name) {
            OrchestratorModel { phase: Phase::Report(i as usize), ..m }
        } else {
            OrchestratorModel { phase: Phase::Discover(i as usize), ..m }
        }
    } else {
        let c = next_cycle(m.cycle);
        OrchestratorModel {
            cycle: c,
            phase: if refresh_due(c) && m.topics.len() > 0 {
                Phase::Refresh(0)
            } else {
                Phase::Waiting
            },
            ..m
        }
    }
}

/// The messages of a snapshot, in its order.
pub open spec fn snapshot_topics(m: OrchestratorModel, s: Seq<SensorModel>) -> Seq<TopicsModel> {
    s.map_values(|x: SensorModel| topics_model(x, m.device_name, m.device))
}

/// How one event moves the orchestrator.
pub open spec fn next(m: OrchestratorModel, e: EventModel) -> OrchestratorModel {
    match e {
        EventModel::Shutdown => if is_closing(m.phase) {
            m
        } else {
            OrchestratorModel { phase: Phase::Closing, ..m }
        },
        EventModel::Collected(s) => match m.phase {
            Phase::Collecting => enter_sensor(
                OrchestratorModel { topics: snapshot_topics(m, s), ..m },
                0,
            ),
            Phase::Closing => OrchestratorModel {
                closing: s,
                phase: if s.len() > 0 {
                    Phase::Offline(0)
                } else {
                    Phase::Done
                },
                ..m
            },
            _ => m,
        },
        EventModel::Published(ok) => match m.phase {
            Phase::Discover(i) => if ok {
                OrchestratorModel {
                    discovered: m.discovered.insert(m.topics[i as int].name),
                    phase: Phase::Announce(i),
                    ..m
                }
            } else {
                OrchestratorModel { phase: Phase::Settle(i), ..m }
            },
            Phase::Announce(i) => OrchestratorModel { phase: Phase::Settle(i), ..m },
            Phase::Report(i) => enter_sensor(m, i + 1),
            Phase::Refresh(i) => OrchestratorModel { phase: Phase::RefreshPause(i), ..m },
            Phase::Offline(i) => OrchestratorModel { phase: Phase::OfflinePause(i), ..m },
            _ => m,
        },
        EventModel::Paused => match m.phase {
            Phase::Settle(i) => OrchestratorModel { phase: Phase::Report(i), ..m },
            Phase::RefreshPause(i) => OrchestratorModel {
                phase: if i + 1 < m.topics.len() {
                    Phase::Refresh((i + 1) as usize)
                } else {
                    Phase::Waiting
                },
                ..m
            },
            Phase::OfflinePause(i) => OrchestratorModel {
                phase: if i + 1 < m.closing.len() {
                    Phase::Offline((i + 1) as usize)
                } else {
                    Phase::Done
                },
                ..m
            },
            _ => m,
        },
        EventModel::Elapsed => match m.phase {
            Phase::Starting | Phase::Waiting => OrchestratorModel { phase: Phase::Collecting, ..m },
            _ => m,
        },
    }
}

/// What the orchestrator asks for in a given state.
pub open spec fn action_of(m: OrchestratorModel) -> ActionModel {
    match m.phase {
        Phase::Starting => ActionModel::Sleep { secs: STARTUP_DELAY_SECS },
        Phase::Collecting | Phase::Closing => ActionModel::Collect,
        Phase::Discover(i) => ActionModel::Publish {
            sensor: m.topics[i as int].name,
            purpose: Purpose::Discovery,
            message: m.topics[i as int].discovery,
        },
        Phase::Announce(i) => ActionModel::Publish {
            sensor: m.topics[i as int].name,
            purpose: Purpose::Online,
            message: m.topics[i as int].availability,
        },
        Phase::Settle(_) => ActionModel::Pause { millis: m.discovery_delay_ms },
        Phase::Report(i) => ActionModel::Publish {
            sensor: m.topics[i as int].name,
            purpose: Purpose::State,
            message: m.topics[i as int].state,
        },
        Phase::Refresh(i) => ActionModel::Publish {
            sensor: m.topics[i as int].name,
            purpose: Purpose::Refresh,
            message: m.topics[i as int].availability,
        },
        Phase::RefreshPause(_) => ActionModel::Pause { millis: REFRESH_DELAY_MS },
        Phase::Waiting => ActionModel::Sleep { secs: m.update_interval_secs },
        Phase::Offline(i) => ActionModel::Publish {
            sensor: m.closing[i as int].name,
            purpose: Purpose::Offline,
            message: availability_model(m.closing[i as int], m.device_name, false),
        },
        Phase::OfflinePause(_) => ActionModel::Pause { millis: OFFLINE_DELAY_MS },
        Phase::Done => ActionModel::Stop,
    }
}

/// The snapshots fit in memory, the positions a phase names exist, and a sensor
/// awaiting discovery is not yet discovered.
pub open spec fn model_wf(m: OrchestratorModel) -> bool {
    &&& m.topics.len() <= usize::MAX
    &&& m.closing.len() <= usize::MAX
    &&& match m.phase {
        Phase::Discover(i) => i < m.topics.len() && !m.discovered.contains(m.topics[i as int].name),
        Phase::Announce(i) => i < m.topics.len(),
        Phase::Settle(i) => i < m.topics.len(),
        Phase::Report(i) => i < m.topics.len(),
        Phase::Refresh(i) => i < m.topics.len(),
        Phase::RefreshPause(i) => i < m.topics.len(),
        Phase::Offline(i) => i < m.closing.len(),
        Phase::OfflinePause(i) => i < m.closing.len(),
        _ => true,
    }
}

/// A snapshot an event carries fits in memory.
pub open spec fn event_fits(e: EventModel) -> bool {
    match e {
        EventModel::Collected(s) => s.len() <= usize::MAX,
        _ => true,
    }
}

/// The state before any event, for a configuration.
pub open spec fn initial_model(c: DaemonConfig) -> OrchestratorModel {
    OrchestratorModel {
        discovered: Set::empty(),
        cycle: 0,
        device_name: c.device.name@,
        device: device_info_model(c.device),
        discovery_delay_ms: c.discovery_delay_ms,
        update_interval_secs: c.update_interval_secs,
        topics: Seq::empty(),
        closing: Seq::empty(),
        phase: Phase::Starting,
    }
}

/// The publish loop as a state machine: it says what to do next, and is told what happened.
pub struct PublishOrchestrator {
    state: PublishState,
    device_name: String,
    device_info: DeviceInfo,
    discovery_delay_ms: u64,
    update_interval_secs: u64,
    topics: Vec<MqttSensorTopics>,
    closing: Vec<SystemSensor>,
    phase: Phase,
}

impl View for PublishOrchestrator {
    type V = OrchestratorModel;

    closed spec fn view(&self) -> OrchestratorModel {
        OrchestratorModel {
            discovered: self.state@.discovered,
            cycle: self.state@.cycle,
            device_name: self.device_name@,
            device: self.device_info@,
            discovery_delay_ms: self.discovery_delay_ms,
            update_interval_secs: self.update_interval_secs,
            topics: self.topics@.map_values(|t: MqttSensorTopics| t@),
            closing: self.closing@.map_values(|s: SystemSensor| s@),
            phase: self.phase,
        }
    }
}

impl PublishOrchestrator {
    /// The orchestrator's state is well formed; every state it reaches is.
    pub open spec fn wf(&self) -> bool {
        model_wf(self@)
    }

    /// An orchestrator that has run no cycle.
    pub fn new(config: &DaemonConfig) -> (r: PublishOrchestrator)
        ensures
            r@ == initial_model(*config),
            r.wf(),
    {
        let r = PublishOrchestrator {
            state: PublishState::new(),
            device_name: config.device.name.clone(),
            device_info: DeviceInfo::from_config(&config.device),
            discovery_delay_ms: config.discovery_delay_ms,
            update_interval_secs: config.update_interval_secs,
            topics: Vec::new(),
            closing: Vec::new(),
            phase: Phase::Starting,
        };
        assert(r@.topics =~= Seq::<TopicsModel>::empty());
        assert(r@.closing =~= Seq::<SensorModel>::empty());
        r
    }

    /// The number of cycles completed so far.
    pub fn cycle(&self) -> (r: u32)
        ensures
            r == self@.cycle,
    {
        self.state.cycle()
    }

    /// Whether the orchestrator has finished.
    pub fn is_done(&self) -> (r: bool)
        ensures
            r == (self@.phase is Done),
    {
        match self.phase {
            Phase::Done => true,
            _ => false,
        }
    }

    /// What to do next.
    pub fn pending(&self) -> (a: Action)
        requires
            self.wf(),
        ensures
            a@ == action_of(self@),
    {
        match self.phase {
            Phase::Starting => Action::Sleep { secs: STARTUP_DELAY_SECS },
            Phase::Collecting | Phase::Closing => Action::Collect,
            Phase::Discover(i) => Action::Publish {
                sensor: self.topics[i].name.clone(),
                purpose: Purpose::Discovery,
                message: copy_payload(&self.topics[i].discovery),
            },
            Phase::Announce(i) => Action::Publish {
                sensor: self.topics[i].name.clone(),
                purpose: Purpose::Online,
                message: copy_payload(&self.topics[i].availability),
            },
            Phase::Settle(_) => Action::Pause { millis: self.discovery_delay_ms },
            Phase::Report(i) => Action::Publish {
                sensor: self.topics[i].name.clone(),
                purpose: Purpose::State,
                message: copy_payload(&self.topics[i].state),
            },
            Phase::Refresh(i) => Action::Publish {
                sensor: self.topics[i].name.clone(),
                purpose: Purpose::Refresh,
                message: copy_payload(&self.topics[i].availability),
            },
            Phase::RefreshPause(_) => Action::Pause { millis: REFRESH_DELAY_MS },
            Phase::Waiting => Action::Sleep { secs: self.update_interval_secs },
            Phase::Offline(i) => Action::Publish {
                sensor: self.closing[i].name.clone(),
                purpose: Purpose::Offline,
                message: system_sensor_availability(
                    &self.closing[i],
                    self.device_name.as_str(),
                    false,
                ),
            },
            Phase::OfflinePause(_) => Action::Pause { millis: OFFLINE_DELAY_MS },
            Phase::Done => Action::Stop,
        }
    }

    fn enter_sensor(&mut self, i: usize)
        requires
            i <= old(self).topics.len(),
        ensures
            final(self)@ == enter_sensor(old(self)@, i as int),
            model_wf(final(self)@),
    {
        if i < self.topics.len() {
            if self.state.is_discovered(&self.topics[i].name) {
                self.phase = Phase::Report(i);
            } else {
                self.phase = Phase::Discover(i);
            }
        } else {
            let due = self.state.advance_cycle();
            if due && self.topics.len() > 0 {
                self.phase = Phase::Refresh(0);
            } else {
                self.phase = Phase::Waiting;
            }
        }
        assert(self@.topics.len() == self.topics.len());
        assert(self@.closing.len() == self.closing.len());
    }

    /// Takes in what happened.
    pub fn handle(&mut self, event: Event)
        requires
            old(self).wf(),
            event.wf(),
        ensures
            final(self).wf(),
            final(self)@ == next(old(self)@, event@),
    {
        let ghost m = self@;
        assert(m.topics.len() == self.topics.len());
        assert(m.closing.len() == self.closing.len());
        match event {
            Event::Shutdown => {
                match self.phase {
                    Phase::Closing | Phase::Offline(_) | Phase::OfflinePause(_) | Phase::Done => {},
                    _ => {
                        self.phase = Phase::Closing;
                    },
                }
            },
            Event::Collected(sensors) => {
                match self.phase {
                    Phase::Collecting => {
                        self.topics = payloads_for(&sensors, self.device_name.as_str(), &self.device_info);
                        assert(self@.topics =~= snapshot_topics(
                            m,
                            sensors@.map_values(|x: SystemSensor| x@),
                        ));
                        self.enter_sensor(0);
                    },
                    Phase::Closing => {
                        let n = sensors.len();
                        self.closing = sensors;
                        self.phase = if n > 0 {
                            Phase::Offline(0)
                        } else {
                            Phase::Done
                        };
                    },
                    _ => {},
                }
            },
            Event::Published(ok) => {
                match self.phase {
                    Phase::Discover(i) => {
                        if ok {
                            self.state.mark_discovered(&self.topics[i].name);
                            self.phase = Phase::Announce(i);
                        } else {
                            self.phase = Phase::Settle(i);
                        }
                    },
                    Phase::Announce(i) => {
                        self.phase = Phase::Settle(i);
                    },
                    Phase::Report(i) => {
                        self.enter_sensor(i + 1);
                    },
                    Phase::Refresh(i) => {
                        self.phase = Phase::RefreshPause(i);
                    },
                    Phase::Offline(i) => {
                        self.phase = Phase::OfflinePause(i);
                    },
                    _ => {},
                }
            },
            Event::Paused => {
                match self.phase {
                    Phase::Settle(i) => {
                        self.phase = Phase::Report(i);
                    },
                    Phase::RefreshPause(i) => {
                        self.phase = if i + 1 < self.topics.len() {
                            Phase::Refresh(i + 1)
                        } else {
                            Phase::Waiting
                        };
                    },
                    Phase::OfflinePause(i) => {
                        self.phase = if i + 1 < self.closing.len() {
                            Phase::Offline(i + 1)
                        } else {
                            Phase::Done
                        };
                    },
                    _ => {},
                }
            },
            Event::Elapsed => {
                match self.phase {
                    Phase::Starting | Phase::Waiting => {
                        self.phase = Phase::Collecting;
                    },
                    _ => {},
                }
            },
        }
    }
}

} // verus!
