//! What holds over whole runs of the publish orchestrator.
use crate::homeassistant::{availability_model, discovery_model, node_of, topic_path, DeviceModel};
use crate::orchestrator::{
    action_of, enter_sensor, event_fits, is_closing, model_wf, next, next_cycle, refresh_due, ActionModel,
    EventModel, OrchestratorModel, Phase, Purpose, OFFLINE_DELAY_MS, REFRESH_DELAY_MS,
};
use crate::sensors::SensorModel;
use vstd::prelude::*;

verus! {

/// The state after the events `es`, taken in order.
pub open spec fn run(m: OrchestratorModel, es: Seq<EventModel>) -> OrchestratorModel
    decreases es.len(),
{
    if es.len() == 0 {
        m
    } else {
        next(run(m, es.drop_last()), es.last())
    }
}

/// The state after the first `k` events of `es`.
pub open spec fn state_at(m: OrchestratorModel, es: Seq<EventModel>, k: int) -> OrchestratorModel {
    run(m, es.take(k))
}

/// The events of a pass that publishes one message per sensor and pauses after
/// each: the outcome of each publish, then the end of its pause.
pub open spec fn pass_events(outcomes: Seq<bool>) -> Seq<EventModel>
    decreases outcomes.len(),
{
    if outcomes.len() == 0 {
        Seq::empty()
    } else {
        pass_events(outcomes.drop_last()) + seq![
            EventModel::Published(outcomes.last()),
            EventModel::Paused,
        ]
    }
}

/// The action is the publication of a message of `purpose` for the sensor `name`.
pub open spec fn publishes(a: ActionModel, name: Seq<char>, purpose: Purpose) -> bool {
    a matches ActionModel::Publish { sensor, purpose: p, .. } && sensor == name && p == purpose
}

/// Every snapshot among the events fits in memory.
pub open spec fn events_fit(es: Seq<EventModel>) -> bool {
    forall|k: int| 0 <= k < es.len() ==> event_fits(#[trigger] es[k])
}

/// One event keeps the orchestrator well formed and forgets no discovered sensor.
pub proof fn lemma_next_wf(m: OrchestratorModel, e: EventModel)
    requires
        model_wf(m),
        event_fits(e),
    ensures
        model_wf(next(m, e)),
        m.discovered.subset_of(next(m, e).discovered),
{
}

/// Running the events `a` and then `b` is running `a + b`.
pub proof fn lemma_run_concat(m: OrchestratorModel, a: Seq<EventModel>, b: Seq<EventModel>)
    ensures
        run(m, a + b) == run(run(m, a), b),
    decreases b.len(),
{
    if b.len() == 0 {
        assert(a + b =~= a);
    } else {
        assert((a + b).drop_last() =~= a + b.drop_last());
        assert((a + b).last() == b.last());
        lemma_run_concat(m, a, b.drop_last());
    }
}

/// The state after `k + 1` events is the state after `k` events, moved by event `k`.
pub proof fn lemma_state_step(m: OrchestratorModel, es: Seq<EventModel>, k: int)
    requires
        0 <= k < es.len(),
    ensures
        state_at(m, es, k + 1) == next(state_at(m, es, k), es[k]),
{
    assert(es.take(k + 1).drop_last() =~= es.take(k));
    assert(es.take(k + 1).last() == es[k]);
}

/// Every state of a run from a well-formed state is well formed, and the set of
/// discovered sensors only grows along it.
pub proof fn lemma_run_monotonic(m: OrchestratorModel, es: Seq<EventModel>, i: int, j: int)
    requires
        model_wf(m),
        events_fit(es),
        0 <= i <= j <= es.len(),
    ensures
        model_wf(state_at(m, es, j)),
        state_at(m, es, i).discovered.subset_of(state_at(m, es, j).discovered),
    decreases j,
{
    if j == 0 {
        assert(es.take(0) =~= Seq::<EventModel>::empty());
    } else {
        lemma_state_step(m, es, j - 1);
        if i == j {
            lemma_run_monotonic(m, es, i - 1, j - 1);
            lemma_next_wf(state_at(m, es, j - 1), es[j - 1]);
        } else {
            lemma_run_monotonic(m, es, i, j - 1);
            lemma_next_wf(state_at(m, es, j - 1), es[j - 1]);
        }
    }
}

/// Discovery once: after the discovery message of a sensor has been published
/// successfully, no later state of the run asks to publish it again.
pub proof fn lemma_discovery_once(
    m: OrchestratorModel,
    es: Seq<EventModel>,
    name: Seq<char>,
    i: int,
    j: int,
)
    requires
        model_wf(m),
        events_fit(es),
        0 <= i < j <= es.len(),
        publishes(action_of(state_at(m, es, i)), name, Purpose::Discovery),
        es[i] == EventModel::Published(true),
    ensures
        !publishes(action_of(state_at(m, es, j)), name, Purpose::Discovery),
{
    lemma_run_monotonic(m, es, 0, i);
    lemma_state_step(m, es, i);
    let before = state_at(m, es, i);
    assert(before.phase is Discover);
    assert(state_at(m, es, i + 1).discovered.contains(name));
    lemma_run_monotonic(m, es, i + 1, j);
    let later = state_at(m, es, j);
    if publishes(action_of(later), name, Purpose::Discovery) {
        assert(later.phase is Discover);
        assert(later.discovered.contains(name));
    }
}

/// A sensor whose discovery failed stays undiscovered: when its turn comes in a
/// later cycle, its discovery message is what is published.
pub proof fn lemma_undiscovered_is_retried(m: OrchestratorModel, i: int)
    requires
        model_wf(m),
        0 <= i < m.topics.len(),
        !m.discovered.contains(m.topics[i].name),
    ensures
        action_of(enter_sensor(m, i)) == (ActionModel::Publish {
            sensor: m.topics[i].name,
            purpose: Purpose::Discovery,
            message: m.topics[i].discovery,
        }),
{
}

/// Sequencing: after a successful discovery of a sensor, its availability(true)
/// message is published next; then, whatever that outcome, the discovery pause;
/// then its state message.
pub proof fn lemma_discovery_sequence(m: OrchestratorModel, name: Seq<char>, outcome: bool)
    requires
        model_wf(m),
        publishes(action_of(m), name, Purpose::Discovery),
    ensures
        publishes(action_of(next(m, EventModel::Published(true))), name, Purpose::Online),
        action_of(next(next(m, EventModel::Published(true)), EventModel::Published(outcome)))
            == (ActionModel::Pause { millis: m.discovery_delay_ms }),
        publishes(
            action_of(
                next(
                    next(next(m, EventModel::Published(true)), EventModel::Published(outcome)),
                    EventModel::Paused,
                ),
            ),
            name,
            Purpose::State,
        ),
{
}

/// A failed discovery publishes no availability for the sensor: it leaves the
/// sensor undiscovered, pauses, then publishes the sensor's state.
pub proof fn lemma_failed_discovery(m: OrchestratorModel, name: Seq<char>)
    requires
        model_wf(m),
        publishes(action_of(m), name, Purpose::Discovery),
    ensures
        !next(m, EventModel::Published(false)).discovered.contains(name),
        action_of(next(m, EventModel::Published(false))) == (ActionModel::Pause {
            millis: m.discovery_delay_ms,
        }),
        publishes(
            action_of(next(next(m, EventModel::Published(false)), EventModel::Paused)),
            name,
            Purpose::State,
        ),
{
}

/// Refresh cadence: the cycle counter moves only when a cycle ends, by one; a
/// cycle's end starts the availability refresh exactly when the new count is a
/// multiple of the refresh period and there are sensors; no refresh starts otherwise.
pub proof fn lemma_refresh_cadence(m: OrchestratorModel, e: EventModel)
    requires
        model_wf(m),
    ensures
        next(m, e).cycle == m.cycle || next(m, e).cycle == next_cycle(m.cycle),
        next(m, e).cycle != m.cycle ==> (next(m, e).phase == Phase::Refresh(0) <==> (refresh_due(
            next(m, e).cycle,
        ) && next(m, e).topics.len() > 0)),
        next(m, e).cycle != m.cycle ==> (next(m, e).phase == Phase::Refresh(0) || next(m, e).phase
            == Phase::Waiting),
        (next(m, e).phase is Refresh && !(m.phase is Refresh) && !(m.phase is RefreshPause)) ==> (
        next(m, e).cycle != m.cycle && refresh_due(next(m, e).cycle)),
{
}

/// Two events in a row.
proof fn lemma_run_two(s: OrchestratorModel, e1: EventModel, e2: EventModel)
    ensures
        run(s, seq![e1, e2]) == next(next(s, e1), e2),
{
    assert(seq![e1, e2].drop_last() =~= seq![e1]);
    assert(seq![e1].drop_last() =~= Seq::<EventModel>::empty());
    reveal_with_fuel(run, 3);
}

proof fn lemma_refresh_step(m: OrchestratorModel, k: int, outcome: bool)
    requires
        model_wf(m),
        m.phase == Phase::Refresh(0),
        0 <= k < m.topics.len(),
    ensures
        next(next(refresh_state(m, k), EventModel::Published(outcome)), EventModel::Paused)
            == refresh_state(m, k + 1),
{
    let s1 = next(refresh_state(m, k), EventModel::Published(outcome));
    assert(s1 == OrchestratorModel { phase: Phase::RefreshPause(k as usize), ..m });
}

proof fn lemma_offline_step(m: OrchestratorModel, k: int, outcome: bool)
    requires
        model_wf(m),
        m.phase == Phase::Offline(0),
        0 <= k < m.closing.len(),
    ensures
        next(next(offline_state(m, k), EventModel::Published(outcome)), EventModel::Paused)
            == offline_state(m, k + 1),
{
    let s1 = next(offline_state(m, k), EventModel::Published(outcome));
    assert(s1 == OrchestratorModel { phase: Phase::OfflinePause(k as usize), ..m });
}

/// The events of a pass over `k + 1` sensors: those over `k`, then one publish and its pause.
proof fn lemma_pass_events_step(outcomes: Seq<bool>, k: int)
    requires
        0 <= k < outcomes.len(),
    ensures
        pass_events(outcomes.take(k + 1)) == pass_events(outcomes.take(k)) + seq![
            EventModel::Published(outcomes[k]),
            EventModel::Paused,
        ],
{
    assert(outcomes.take(k + 1).drop_last() =~= outcomes.take(k));
}

/// The state reached after `k` sensors of a refresh pass.
pub open spec fn refresh_state(m: OrchestratorModel, k: int) -> OrchestratorModel {
    OrchestratorModel {
        phase: if k < m.topics.len() {
            Phase::Refresh(k as usize)
        } else {
            Phase::Waiting
        },
        ..m
    }
}

/// The state reached after `k` sensors of an offline pass.
pub open spec fn offline_state(m: OrchestratorModel, k: int) -> OrchestratorModel {
    OrchestratorModel {
        phase: if k < m.closing.len() {
            Phase::Offline(k as usize)
        } else {
            Phase::Done
        },
        ..m
    }
}

#[verifier::rlimit(40)]
proof fn lemma_refresh_states(m: OrchestratorModel, outcomes: Seq<bool>, k: int)
    requires
        model_wf(m),
        m.phase == Phase::Refresh(0),
        outcomes.len() == m.topics.len(),
        0 <= k <= outcomes.len(),
    ensures
        run(m, pass_events(outcomes.take(k))) == refresh_state(m, k),
    decreases k,
{
    if k == 0 {
        assert(outcomes.take(0) =~= Seq::<bool>::empty());
        assert(refresh_state(m, 0) == m);
    } else {
        lemma_refresh_states(m, outcomes, k - 1);
        lemma_pass_events_step(outcomes, k - 1);
        let step = seq![EventModel::Published(outcomes[k - 1]), EventModel::Paused];
        lemma_run_concat(m, pass_events(outcomes.take(k - 1)), step);
        lemma_run_two(refresh_state(m, k - 1), step[0], step[1]);
        lemma_refresh_step(m, k - 1, outcomes[k - 1]);
    }
}

#[verifier::rlimit(40)]
proof fn lemma_offline_states(m: OrchestratorModel, outcomes: Seq<bool>, k: int)
    requires
        model_wf(m),
        m.phase == Phase::Offline(0),
        outcomes.len() == m.closing.len(),
        0 <= k <= outcomes.len(),
    ensures
        run(m, pass_events(outcomes.take(k))) == offline_state(m, k),
    decreases k,
{
    if k == 0 {
        assert(outcomes.take(0) =~= Seq::<bool>::empty());
        assert(offline_state(m, 0) == m);
    } else {
        lemma_offline_states(m, outcomes, k - 1);
        lemma_pass_events_step(outcomes, k - 1);
        let step = seq![EventModel::Published(outcomes[k - 1]), EventModel::Paused];
        lemma_run_concat(m, pass_events(outcomes.take(k - 1)), step);
        lemma_run_two(offline_state(m, k - 1), step[0], step[1]);
        lemma_offline_step(m, k - 1, outcomes[k - 1]);
    }
}

/// The refresh pass publishes the availability(true) message of every sensor of
/// the cycle, in order, each once, whatever the outcomes, and then sleeps.
pub proof fn lemma_refresh_pass(m: OrchestratorModel, outcomes: Seq<bool>, k: int)
    requires
        model_wf(m),
        m.phase == Phase::Refresh(0),
        outcomes.len() == m.topics.len(),
        0 <= k <= outcomes.len(),
    ensures
        k < outcomes.len() ==> action_of(run(m, pass_events(outcomes.take(k)))) == (
        ActionModel::Publish {
            sensor: m.topics[k].name,
            purpose: Purpose::Refresh,
            message: m.topics[k].availability,
        }),
        k < outcomes.len() ==> action_of(
            next(run(m, pass_events(outcomes.take(k))), EventModel::Published(outcomes[k])),
        ) == (ActionModel::Pause { millis: REFRESH_DELAY_MS }),
        k == outcomes.len() ==> action_of(run(m, pass_events(outcomes.take(k)))) == (
        ActionModel::Sleep { secs: m.update_interval_secs }),
{
    lemma_refresh_states(m, outcomes, k);
}

/// Shutdown completeness: from the fresh snapshot taken at shutdown, the offline
/// pass publishes the availability(false) message of every sensor, in order, each
/// once, whatever the outcomes, and then stops.
pub proof fn lemma_offline_pass(
    m: OrchestratorModel,
    sensors: Seq<SensorModel>,
    outcomes: Seq<bool>,
    k: int,
)
    requires
        model_wf(m),
        m.phase == Phase::Closing,
        sensors.len() <= usize::MAX,
        outcomes.len() == sensors.len(),
        0 <= k <= outcomes.len(),
    ensures
        k < outcomes.len() ==> action_of(
            run(next(m, EventModel::Collected(sensors)), pass_events(outcomes.take(k))),
        ) == (ActionModel::Publish {
            sensor: sensors[k].name,
            purpose: Purpose::Offline,
            message: availability_model(sensors[k], m.device_name, false),
        }),
        k < outcomes.len() ==> action_of(
            next(
                run(next(m, EventModel::Collected(sensors)), pass_events(outcomes.take(k))),
                EventModel::Published(outcomes[k]),
            ),
        ) == (ActionModel::Pause { millis: OFFLINE_DELAY_MS }),
        k == outcomes.len() ==> action_of(
            run(next(m, EventModel::Collected(sensors)), pass_events(outcomes.take(k))),
        ) == ActionModel::Stop,
{
    let m1 = next(m, EventModel::Collected(sensors));
    if sensors.len() == 0 {
        assert(outcomes.take(k) =~= Seq::<bool>::empty());
        assert(pass_events(outcomes.take(k)) =~= Seq::<EventModel>::empty());
    } else {
        lemma_offline_states(m1, outcomes, k);
    }
}

/// A termination signal outside the shutdown path starts it: the next action is a
/// fresh snapshot. Within the shutdown path a signal changes nothing, and once
/// stopped the orchestrator stays stopped whatever happens.
pub proof fn lemma_shutdown_path(m: OrchestratorModel, e: EventModel)
    ensures
        !is_closing(m.phase) ==> next(m, EventModel::Shutdown).phase == Phase::Closing
            && action_of(next(m, EventModel::Shutdown)) == ActionModel::Collect,
        is_closing(m.phase) ==> next(m, EventModel::Shutdown) == m,
        m.phase == Phase::Done ==> next(m, e) == m && action_of(m) == ActionModel::Stop,
{
}

/// Determinism: the discovery message is a function of the sensor, the device
/// name and the device block alone.
pub proof fn lemma_discovery_deterministic(
    s1: SensorModel,
    s2: SensorModel,
    device_name1: Seq<char>,
    device_name2: Seq<char>,
    d1: DeviceModel,
    d2: DeviceModel,
)
    requires
        s1 == s2,
        device_name1 == device_name2,
        d1 == d2,
    ensures
        discovery_model(s1, device_name1, d1) == discovery_model(s2, device_name2, d2),
{
}

} // verus!

verus! {

/// An empty snapshot publishes nothing: the cycle is counted and the
/// orchestrator sleeps until the next one.
pub proof fn lemma_empty_snapshot(m: OrchestratorModel)
    requires
        model_wf(m),
        m.phase == Phase::Collecting,
    ensures
        next(m, EventModel::Collected(Seq::empty())).cycle == next_cycle(m.cycle),
        action_of(next(m, EventModel::Collected(Seq::empty()))) == (ActionModel::Sleep {
            secs: m.update_interval_secs,
        }),
{
    let s = Seq::<SensorModel>::empty();
    assert(crate::orchestrator::snapshot_topics(m, s) =~= Seq::empty());
}

/// Distinct sensors of a device never share a topic.
pub proof fn lemma_topics_distinct(
    device_name: Seq<char>,
    a: Seq<char>,
    b: Seq<char>,
    sub: Seq<char>,
)
    requires
        a != b,
    ensures
        topic_path(device_name, a, sub) != topic_path(device_name, b, sub),
{
    let head = node_of(device_name) + seq!['/'];
    let tail = seq!['/'] + sub;
    let ta = topic_path(device_name, a, sub);
    let tb = topic_path(device_name, b, sub);
    assert(ta =~= head + a + tail);
    assert(tb =~= head + b + tail);
    if ta == tb {
        assert(a.len() == b.len());
        assert(a =~= ta.subrange(head.len() as int, (head.len() + a.len()) as int));
        assert(b =~= tb.subrange(head.len() as int, (head.len() + b.len()) as int));
    }
}

} // verus!
