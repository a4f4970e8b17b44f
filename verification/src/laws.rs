//! The machine's guarantees, stated and proved as lemmas over the reaction
//! and command functions: ordered progress along the stage sequence, stable
//! threading of peripheral-assigned handles, version-gated payload layout,
//! idle terminal stages, tolerance of unrelated events, and fail-stop on a
//! failure status.

use vstd::prelude::*;

use crate::machine::{
    lemma_react_preserves_wf, lemma_run_snoc, spec_actions, spec_run, spec_step, EventLoop,
};
use crate::stage::{
    ctx_ready, spec_act, spec_event_status, spec_expects, spec_next, spec_react, stage_index,
    State,
};
use crate::types::{
    Action, Context, Event, Status, TransportError, VendorEvent, spec_legacy_layout,
};

verus! {

/// One wait outcome of the happy path: a decoded event that the given stage
/// recognizes as its completion, carrying a success status.
pub open spec fn happy_step(s: State, r: Result<Event, TransportError>) -> bool {
    r matches Ok(e) && spec_expects(s, e) && spec_event_status(e) is Success
}

/// A stage's index never decreases, whatever event arrives: the machine
/// either stays, advances by one, or fail-stops past the end of the
/// sequence.
pub proof fn lemma_stage_index_never_decreases(s: State, c: Context, e: Event)
    ensures
        stage_index(spec_react(s, c, e).0) >= stage_index(s),
{
}

/// A recognized completion with a success status advances the machine to
/// the next stage in the documented order — by exactly one position, never
/// skipping and never repeating.
pub proof fn lemma_recognized_success_advances(s: State, c: Context, e: Event)
    requires
        spec_expects(s, e),
        spec_event_status(e) is Success,
    ensures
        spec_react(s, c, e).0 == spec_next(s),
        stage_index(spec_react(s, c, e).0) == stage_index(s) + 1,
{
}

/// Over the full happy-path event sequence the machine visits exactly the
/// documented stage order: after absorbing `i` matching success events the
/// stage index has advanced by exactly `i`, so every stage between start and
/// finish is visited once and none is skipped or repeated. The machine's
/// invariant holds along the whole run.
pub proof fn lemma_happy_path_visits_stages_in_order(
    m: EventLoop,
    rs: Seq<Result<Event, TransportError>>,
)
    requires
        m.wf(),
        forall|i: int|
            0 <= i < rs.len() ==> #[trigger] happy_step(spec_run(m, rs.take(i)).state, rs[i]),
    ensures
        forall|i: int|
            0 <= i <= rs.len() ==> stage_index(#[trigger] spec_run(m, rs.take(i)).state)
                == stage_index(m.state) + i,
        spec_run(m, rs).wf(),
    decreases rs.len(),
{
    if rs.len() == 0 {
        assert(rs.take(0) =~= rs);
        assert(spec_run(m, rs.take(0)) == m);
    } else {
        let n = rs.len() as int;
        let rs0 = rs.take(n - 1);
        assert forall|i: int| 0 <= i < rs0.len() implies #[trigger] happy_step(
            spec_run(m, rs0.take(i)).state,
            rs0[i],
        ) by {
            assert(rs0.take(i) =~= rs.take(i));
            assert(rs0[i] == rs[i]);
            assert(happy_step(spec_run(m, rs.take(i)).state, rs[i]));
        }
        lemma_happy_path_visits_stages_in_order(m, rs0);
        let mprev = spec_run(m, rs0);
        assert(stage_index(spec_run(m, rs0.take(n - 1)).state) == stage_index(m.state) + (n - 1));
        assert(rs0.take(n - 1) =~= rs0);
        assert(stage_index(mprev.state) == stage_index(m.state) + (n - 1));
        assert(happy_step(spec_run(m, rs.take(n - 1)).state, rs[n - 1]));
        assert(rs.take(n - 1) =~= rs0);
        let e = rs[n - 1]->Ok_0;
        lemma_recognized_success_advances(mprev.state, mprev.data, e);
        lemma_react_preserves_wf(mprev.state, mprev.data, e);
        assert(rs0.push(rs[n - 1]) =~= rs);
        lemma_run_snoc(m, rs0, rs[n - 1]);
        assert(spec_run(m, rs) == spec_step(mprev, rs[n - 1]));
        assert forall|i: int| 0 <= i <= rs.len() implies stage_index(
            #[trigger] spec_run(m, rs.take(i)).state,
        ) == stage_index(m.state) + i by {
            if i < n {
                assert(rs.take(i) =~= rs0.take(i));
                assert(stage_index(spec_run(m, rs0.take(i)).state) == stage_index(m.state) + i);
            } else {
                assert(rs.take(i) =~= rs);
            }
        }
    }
}

/// A reaction writes only the slots of the stage it completes: every other
/// slot of the context — the firmware version, the GAP handles, and each
/// service or characteristic handle — leaves the reaction exactly as it
/// entered it.
pub proof fn lemma_react_touches_only_own_slots(s: State, c: Context, e: Event)
    ensures
        s != State::GettingVersionInfo ==> spec_react(s, c, e).1.fw_version == c.fw_version,
        s != State::InitGap ==> spec_react(s, c, e).1.gap_service_handle == c.gap_service_handle
            && spec_react(s, c, e).1.dev_name_handle == c.dev_name_handle && spec_react(
            s,
            c,
            e,
        ).1.appearance_handle == c.appearance_handle,
        s != State::AddAccService ==> spec_react(s, c, e).1.acc_service_handle
            == c.acc_service_handle,
        s != State::AddEnvironmentalSensorService ==> spec_react(
            s,
            c,
            e,
        ).1.environmental_sensor_service_handle == c.environmental_sensor_service_handle,
        s != State::AddTemperatureCharacteristic ==> spec_react(
            s,
            c,
            e,
        ).1.temperature_characteristic_handle == c.temperature_characteristic_handle,
        s != State::AddPressureCharacteristic ==> spec_react(
            s,
            c,
            e,
        ).1.pressure_characteristic_handle == c.pressure_characteristic_handle,
        s != State::AddHumidityCharacteristic ==> spec_react(
            s,
            c,
            e,
        ).1.humidity_characteristic_handle == c.humidity_characteristic_handle,
        s != State::AddTimeService ==> spec_react(s, c, e).1.time_service_handle
            == c.time_service_handle,
        s != State::AddLedService ==> spec_react(s, c, e).1.led_service_handle
            == c.led_service_handle,
{
}

/// Once the machine has passed the stage that fills a slot, the slot's
/// value survives any further run unmodified: the index never falls back to
/// the setter stage, so no reaction ever writes the slot again.
pub proof fn lemma_recorded_values_stable(m: EventLoop, rs: Seq<Result<Event, TransportError>>)
    ensures
        stage_index(spec_run(m, rs).state) >= stage_index(m.state),
        stage_index(m.state) > stage_index(State::GettingVersionInfo) ==> spec_run(
            m,
            rs,
        ).data.fw_version == m.data.fw_version,
        stage_index(m.state) > stage_index(State::InitGap) ==> spec_run(
            m,
            rs,
        ).data.gap_service_handle == m.data.gap_service_handle && spec_run(
            m,
            rs,
        ).data.dev_name_handle == m.data.dev_name_handle && spec_run(m, rs).data.appearance_handle
            == m.data.appearance_handle,
        stage_index(m.state) > stage_index(State::AddAccService) ==> spec_run(
            m,
            rs,
        ).data.acc_service_handle == m.data.acc_service_handle,
        stage_index(m.state) > stage_index(State::AddEnvironmentalSensorService) ==> spec_run(
            m,
            rs,
        ).data.environmental_sensor_service_handle == m.data.environmental_sensor_service_handle,
        stage_index(m.state) > stage_index(State::AddTemperatureCharacteristic) ==> spec_run(
            m,
            rs,
        ).data.temperature_characteristic_handle == m.data.temperature_characteristic_handle,
        stage_index(m.state) > stage_index(State::AddPressureCharacteristic) ==> spec_run(
            m,
            rs,
        ).data.pressure_characteristic_handle == m.data.pressure_characteristic_handle,
        stage_index(m.state) > stage_index(State::AddHumidityCharacteristic) ==> spec_run(
            m,
            rs,
        ).data.humidity_characteristic_handle == m.data.humidity_characteristic_handle,
        stage_index(m.state) > stage_index(State::AddTimeService) ==> spec_run(
            m,
            rs,
        ).data.time_service_handle == m.data.time_service_handle,
        stage_index(m.state) > stage_index(State::AddLedService) ==> spec_run(
            m,
            rs,
        ).data.led_service_handle == m.data.led_service_handle,
    decreases rs.len(),
{
    if rs.len() > 0 {
        let m1 = spec_step(m, rs[0]);
        if let Ok(e) = rs[0] {
            lemma_stage_index_never_decreases(m.state, m.data, e);
            lemma_react_touches_only_own_slots(m.state, m.data, e);
        }
        lemma_recorded_values_stable(m1, rs.subrange(1, rs.len() as int));
    }
}

/// A context slot is populated only once the stage that fills it has
/// completed: before that, it is still empty. This holds of the machine as
/// it starts and is preserved by every reaction, so it holds of every
/// reachable machine.
pub open spec fn slots_follow_stage(s: State, c: Context) -> bool {
    &&& c.fw_version is Some ==> stage_index(s) > stage_index(State::GettingVersionInfo)
    &&& c.gap_service_handle is Some ==> stage_index(s) > stage_index(State::InitGap)
    &&& c.dev_name_handle is Some ==> stage_index(s) > stage_index(State::InitGap)
    &&& c.appearance_handle is Some ==> stage_index(s) > stage_index(State::InitGap)
    &&& c.acc_service_handle is Some ==> stage_index(s) > stage_index(State::AddAccService)
    &&& c.environmental_sensor_service_handle is Some ==> stage_index(s) > stage_index(
        State::AddEnvironmentalSensorService,
    )
    &&& c.temperature_characteristic_handle is Some ==> stage_index(s) > stage_index(
        State::AddTemperatureCharacteristic,
    )
    &&& c.pressure_characteristic_handle is Some ==> stage_index(s) > stage_index(
        State::AddPressureCharacteristic,
    )
    &&& c.humidity_characteristic_handle is Some ==> stage_index(s) > stage_index(
        State::AddHumidityCharacteristic,
    )
    &&& c.time_service_handle is Some ==> stage_index(s) > stage_index(State::AddTimeService)
    &&& c.led_service_handle is Some ==> stage_index(s) > stage_index(State::AddLedService)
}

/// The machine as it starts — first stage, empty context — populates its
/// slots in stage order.
pub proof fn lemma_initial_machine_slots_follow_stage()
    ensures
        slots_follow_stage(State::GettingVersionInfo, Context::spec_empty()),
{
}

/// Each context slot is filled at most once and never overwritten: in any
/// machine whose slots follow its stage, a reaction leaves every populated
/// slot exactly as it was — values learned from the peripheral are never
/// replaced — and the property is preserved, so it holds along every run
/// from the start.
pub proof fn lemma_slots_never_overwritten(s: State, c: Context, e: Event)
    requires
        slots_follow_stage(s, c),
    ensures
        slots_follow_stage(spec_react(s, c, e).0, spec_react(s, c, e).1),
        c.fw_version is Some ==> spec_react(s, c, e).1.fw_version == c.fw_version,
        c.gap_service_handle is Some ==> spec_react(s, c, e).1.gap_service_handle
            == c.gap_service_handle,
        c.dev_name_handle is Some ==> spec_react(s, c, e).1.dev_name_handle == c.dev_name_handle,
        c.appearance_handle is Some ==> spec_react(s, c, e).1.appearance_handle
            == c.appearance_handle,
        c.acc_service_handle is Some ==> spec_react(s, c, e).1.acc_service_handle
            == c.acc_service_handle,
        c.environmental_sensor_service_handle is Some ==> spec_react(
            s,
            c,
            e,
        ).1.environmental_sensor_service_handle == c.environmental_sensor_service_handle,
        c.temperature_characteristic_handle is Some ==> spec_react(
            s,
            c,
            e,
        ).1.temperature_characteristic_handle == c.temperature_characteristic_handle,
        c.pressure_characteristic_handle is Some ==> spec_react(
            s,
            c,
            e,
        ).1.pressure_characteristic_handle == c.pressure_characteristic_handle,
        c.humidity_characteristic_handle is Some ==> spec_react(
            s,
            c,
            e,
        ).1.humidity_characteristic_handle == c.humidity_characteristic_handle,
        c.time_service_handle is Some ==> spec_react(s, c, e).1.time_service_handle
            == c.time_service_handle,
        c.led_service_handle is Some ==> spec_react(s, c, e).1.led_service_handle
            == c.led_service_handle,
{
    lemma_stage_index_never_decreases(s, c, e);
    lemma_react_touches_only_own_slots(s, c, e);
}

/// Every command that creates a characteristic or a descriptor under a
/// service carries, unmodified, the handle the peripheral assigned when
/// that service was created, as the context records it; descriptor commands
/// carry the recorded characteristic handle the same way.
pub proof fn lemma_commands_use_recorded_handles(s: State, c: Context)
    requires
        ctx_ready(s, c),
    ensures
        (s == State::AddAccFreeFallCharacteristic || s == State::AddAccCharacteristic)
            ==> spec_act(s, c) is AddCharacteristic && spec_act(s, c)->AddCharacteristic_service
            == c.acc_service_handle.unwrap(),
        (s == State::AddTemperatureCharacteristic || s == State::AddPressureCharacteristic || s
            == State::AddHumidityCharacteristic) ==> spec_act(s, c) is AddCharacteristic
            && spec_act(s, c)->AddCharacteristic_service
            == c.environmental_sensor_service_handle.unwrap(),
        s == State::AddTemperatureCharacteristicDescriptor ==> spec_act(s, c) is AddDescriptor
            && spec_act(s, c)->AddDescriptor_service
            == c.environmental_sensor_service_handle.unwrap() && spec_act(
            s,
            c,
        )->AddDescriptor_characteristic == c.temperature_characteristic_handle.unwrap(),
        s == State::AddPressureCharacteristicDescriptor ==> spec_act(s, c) is AddDescriptor
            && spec_act(s, c)->AddDescriptor_service
            == c.environmental_sensor_service_handle.unwrap() && spec_act(
            s,
            c,
        )->AddDescriptor_characteristic == c.pressure_characteristic_handle.unwrap(),
        s == State::AddHumidityCharacteristicDescriptor ==> spec_act(s, c) is AddDescriptor
            && spec_act(s, c)->AddDescriptor_service
            == c.environmental_sensor_service_handle.unwrap() && spec_act(
            s,
            c,
        )->AddDescriptor_characteristic == c.humidity_characteristic_handle.unwrap(),
        (s == State::AddTimeCharacteristic || s == State::AddMinuteCharacteristic) ==> spec_act(
            s,
            c,
        ) is AddCharacteristic && spec_act(s, c)->AddCharacteristic_service
            == c.time_service_handle.unwrap(),
        s == State::AddLedCharacteristic ==> spec_act(s, c) is AddCharacteristic && spec_act(
            s,
            c,
        )->AddCharacteristic_service == c.led_service_handle.unwrap(),
{
}

/// Every command that creates a characteristic derives its payload-layout
/// flag from the recorded firmware version, by the documented lexicographic
/// comparison on (major, minor).
pub proof fn lemma_characteristic_layout_follows_version(s: State, c: Context)
    requires
        ctx_ready(s, c),
        c.fw_version is Some,
    ensures
        spec_act(s, c) matches Action::AddCharacteristic { legacy_layout, .. }
            ==> legacy_layout == spec_legacy_layout(c.fw_version.unwrap()),
{
}

/// An event the current stage does not recognize changes nothing: the stage
/// stays, and the context is not written at all.
pub proof fn lemma_unrecognized_event_ignored(s: State, c: Context, e: Event)
    requires
        !spec_expects(s, e),
    ensures
        spec_react(s, c, e) == (s, c),
{
}

/// An unrelated vendor event is recognized by no stage, so it never moves
/// the machine and never mutates the context.
pub proof fn lemma_unrelated_vendor_event_ignored(s: State, c: Context)
    ensures
        spec_react(s, c, Event::Vendor(VendorEvent::Other)) == (s, c),
{
}

/// A recognized completion with a failure status fail-stops the machine:
/// it moves to the fail-stop stage and leaves the context untouched.
pub proof fn lemma_failure_status_fail_stops(s: State, c: Context, e: Event)
    requires
        spec_expects(s, e),
        !(spec_event_status(e) is Success),
    ensures
        spec_react(s, c, e) == (State::Failed, c),
{
}

/// Both terminal stages idle: they issue no command beyond parking the
/// processor, and no event moves them or touches the context.
pub proof fn lemma_terminal_stage_idles(s: State, c: Context, e: Event)
    requires
        s == State::Complete || s == State::Failed,
    ensures
        spec_react(s, c, e) == (s, c),
        spec_act(s, c) == Action::Park,
{
}

/// A machine in a terminal stage stays exactly where it is for an arbitrary
/// number of further iterations, and every command it issues along the way
/// is the idle parking action: no transport traffic, no stage change, no
/// context change.
pub proof fn lemma_terminal_run_idles(m: EventLoop, rs: Seq<Result<Event, TransportError>>)
    requires
        m.state == State::Complete || m.state == State::Failed,
    ensures
        spec_run(m, rs) == m,
        spec_actions(m, rs).len() == rs.len(),
        forall|i: int| 0 <= i < rs.len() ==> spec_actions(m, rs)[i] == Action::Park,
    decreases rs.len(),
{
    if rs.len() > 0 {
        if let Ok(e) = rs[0] {
            lemma_terminal_stage_idles(m.state, m.data, e);
        }
        assert(spec_step(m, rs[0]) == m);
        lemma_terminal_run_idles(m, rs.subrange(1, rs.len() as int));
        assert forall|i: int| 0 <= i < rs.len() implies spec_actions(m, rs)[i]
            == Action::Park by {
            if i > 0 {
                assert(spec_actions(m, rs)[i] == spec_actions(
                    m,
                    rs.subrange(1, rs.len() as int),
                )[i - 1]);
            }
        }
    }
}

} // verus!
