//! What holds of every run of the lifecycle.

use crate::config::SettingsView;
use crate::dto::request_submit::Measurement;
use crate::service::client_service::accepted;
use crate::service::client_service::configuration_body;
use crate::service::client_service::default_configuration;
use crate::service::client_service::delivery;
use crate::service::client_service::kept;
use crate::service::client_service::response_text;
use crate::service::client_service::ConfigErrorView;
use crate::service::client_service::DecodedView;
use crate::service::client_service::ExchangeView;
use crate::service::client_service::PayloadView;
use crate::service::orchestrator_service::initial;
use crate::service::orchestrator_service::pending;
use crate::service::orchestrator_service::run;
use crate::service::orchestrator_service::stage_of;
use crate::service::orchestrator_service::step;
use crate::service::orchestrator_service::ActionView;
use crate::service::orchestrator_service::CLIMATE_READ_ATTEMPTS;
use crate::service::orchestrator_service::EventView;
use crate::service::orchestrator_service::LifecycleView;
use crate::service::orchestrator_service::Phase;
use crate::service::orchestrator_service::Stage;
use crate::service::peripheral_service::BlinkPattern;
use crate::service::peripheral_service::TIME_LONG;
use crate::service::peripheral_service::TIME_SHORT;
use vstd::prelude::*;
use vstd::utf8::valid_utf8;

verus! {

/// A run without events ends where it starts.
pub proof fn lemma_run_empty(s: LifecycleView)
    ensures
        run(s, Seq::empty()) == s,
{
    reveal_with_fuel(run, 1);
}

/// A run that takes one more event ends one step further.
pub proof fn lemma_run_push(s: LifecycleView, events: Seq<EventView>, e: EventView)
    ensures
        run(s, events.push(e)) == step(run(s, events), e),
{
    reveal_with_fuel(run, 1);
    assert(events.push(e).drop_last() =~= events);
}

/// A run of one event is one step.
pub proof fn lemma_run_one(s: LifecycleView, e: EventView)
    ensures
        run(s, seq![e]) == step(s, e),
{
    lemma_run_empty(s);
    lemma_run_push(s, Seq::empty(), e);
    assert(Seq::<EventView>::empty().push(e) =~= seq![e]);
}

/// A run that took at least one event ended with a step on the last one.
pub proof fn lemma_run_last(s: LifecycleView, events: Seq<EventView>)
    requires
        events.len() > 0,
    ensures
        run(s, events) == step(run(s, events.drop_last()), events.last()),
{
    lemma_run_push(s, events.drop_last(), events.last());
    assert(events.drop_last().push(events.last()) =~= events);
}

/// A run over two stretches of events is the run over the second from where
/// the first ended.
pub proof fn lemma_run_concat(s: LifecycleView, first: Seq<EventView>, second: Seq<EventView>)
    ensures
        run(s, first + second) == run(run(s, first), second),
    decreases second.len(),
{
    if second.len() == 0 {
        assert(first + second =~= first);
        assert(second =~= Seq::empty());
        lemma_run_empty(run(s, first));
    } else {
        lemma_run_concat(s, first, second.drop_last());
        assert((first + second).drop_last() =~= first + second.drop_last());
        assert((first + second).last() == second.last());
        lemma_run_last(s, first + second);
        lemma_run_last(run(s, first), second);
    }
}

/// Whether `e` tells `s` that the remote configuration cannot be had: the
/// post for it failed or its response is no text, or the response does not
/// decode to a configuration with a known unit.
pub open spec fn resolution_fails(s: LifecycleView, e: EventView) -> bool {
    match (s.phase, e) {
        (Phase::ResolvingConfig, EventView::Exchanged(exchange)) => configuration_body(exchange)
            is Err,
        (Phase::DecodingConfig, EventView::Decoded(decoded)) => accepted(decoded) is Err,
        _ => false,
    }
}

/// A post that did not get as far as a response has failed, whatever the
/// reason.
pub proof fn law_unreachable_server_fails(exchange: ExchangeView)
    requires
        exchange !is Received,
    ensures
        response_text(exchange) is Err,
        configuration_body(exchange) is Err,
{
}

/// A response that is not text, a body that does not decode, and a decoded
/// body whose unit is neither `"C"` nor `"F"` give no configuration; a decoded
/// body with one of these units is the configuration.
pub proof fn law_malformed_response_fails(bytes: Seq<u8>, decoded: DecodedView)
    ensures
        !valid_utf8(kept(bytes)) ==> configuration_body(ExchangeView::Received { bytes }) is Err,
        decoded is Err ==> accepted(decoded) is Err,
        decoded matches Ok(configuration) ==> {
            let unit = configuration.temperature_sensor_unit_of_measure;
            if unit == seq!['C'] || unit == seq!['F'] {
                accepted(decoded) == Ok::<_, ConfigErrorView>(configuration)
            } else {
                accepted(decoded) is Err
            }
        },
{
}

/// When the remote configuration cannot be had, a node that may run without
/// it takes exactly the built-in configuration and shows three short pulses;
/// a node that must have it halts. Nothing else of the state changes.
pub proof fn law_unresolved_configuration(s: LifecycleView, e: EventView)
    requires
        resolution_fails(s, e),
    ensures
        !s.settings.is_remote_configuration_mandatory ==> step(s, e) == (LifecycleView {
            configuration: default_configuration(s.settings),
            phase: Phase::AnnouncingFallback,
            ..s
        }) && pending(step(s, e)) == ActionView::Signal(
            BlinkPattern { pulses: 3, millis: TIME_SHORT },
        ),
        s.settings.is_remote_configuration_mandatory ==> step(s, e) == s.at(Phase::Halted)
            && pending(step(s, e)) == ActionView::Halt,
{
}

/// Two resolutions that fail under the same settings end with the same
/// configuration, whatever the two failures were.
pub proof fn law_fallback_is_idempotent(
    first: LifecycleView,
    first_failure: EventView,
    second: LifecycleView,
    second_failure: EventView,
)
    requires
        resolution_fails(first, first_failure),
        resolution_fails(second, second_failure),
        first.settings == second.settings,
        !first.settings.is_remote_configuration_mandatory,
    ensures
        step(first, first_failure).configuration == step(second, second_failure).configuration,
        step(first, first_failure).configuration == default_configuration(first.settings),
{
}

/// A halted node stays halted, unchanged, and is asked to do nothing.
pub proof fn law_halted_is_final(s: LifecycleView, events: Seq<EventView>)
    requires
        s.phase == Phase::Halted,
    ensures
        run(s, events) == s,
        pending(run(s, events)) == ActionView::Halt,
    decreases events.len(),
{
    if events.len() > 0 {
        law_halted_is_final(s, events.drop_last());
        lemma_run_last(s, events);
    } else {
        assert(events =~= Seq::empty());
        lemma_run_empty(s);
    }
}

/// A node halts only while it resolves its configuration, only if the remote
/// one is mandatory, and only because it cannot be had.
pub proof fn law_halt_has_one_cause(s: LifecycleView, e: EventView)
    requires
        s.phase != Phase::Halted,
        step(s, e).phase == Phase::Halted,
    ensures
        resolution_fails(s, e),
        s.settings.is_remote_configuration_mandatory,
{
}

/// Whether the configuration is resolved for good: the clock is being
/// synchronised or the node reports.
pub open spec fn past_resolution(phase: Phase) -> bool {
    stage_of(phase) == Stage::SyncingClock || stage_of(phase) == Stage::Reporting
}

/// Once the clock synchronisation has begun the node never goes back, and
/// once it reports it reports for ever.
pub proof fn law_no_way_back(s: LifecycleView, e: EventView)
    ensures
        past_resolution(s.phase) ==> past_resolution(step(s, e).phase),
        stage_of(s.phase) == Stage::Reporting ==> stage_of(step(s, e).phase) == Stage::Reporting,
{
}

/// The same over a whole run.
pub proof fn law_no_way_back_in_a_run(s: LifecycleView, events: Seq<EventView>)
    ensures
        past_resolution(s.phase) ==> past_resolution(run(s, events).phase),
        stage_of(s.phase) == Stage::Reporting ==> stage_of(run(s, events).phase)
            == Stage::Reporting,
    decreases events.len(),
{
    if events.len() > 0 {
        law_no_way_back_in_a_run(s, events.drop_last());
        law_no_way_back(run(s, events.drop_last()), events.last());
        lemma_run_last(s, events);
    } else {
        assert(events =~= Seq::empty());
        lemma_run_empty(s);
    }
}

/// The position of a stage in the order of the lifecycle. Halting ends it.
pub open spec fn stage_rank(stage: Stage) -> int {
    match stage {
        Stage::Booting => 0,
        Stage::ConnectingWifi => 1,
        Stage::ResolvingIdentity => 2,
        Stage::ResolvingConfig => 3,
        Stage::SyncingClock => 4,
        Stage::Reporting => 5,
        Stage::Halted => 6,
    }
}

/// The stages are passed in their order: no step leads to an earlier one.
pub proof fn law_stages_in_order(s: LifecycleView, e: EventView)
    ensures
        stage_rank(stage_of(s.phase)) <= stage_rank(stage_of(step(s, e).phase)),
{
}

/// A run that ends halted has never begun to synchronise the clock and has
/// never reported: at no point of it was the node past the resolution of its
/// configuration.
pub proof fn law_halt_comes_before_clock_sync(
    s: LifecycleView,
    events: Seq<EventView>,
    before: int,
)
    requires
        run(s, events).phase == Phase::Halted,
        0 <= before <= events.len(),
    ensures
        !past_resolution(run(s, events.take(before)).phase),
{
    let reached = run(s, events.take(before));
    if past_resolution(reached.phase) {
        let rest = events.skip(before);
        assert(events.take(before) + rest =~= events);
        lemma_run_concat(s, events.take(before), rest);
        law_no_way_back_in_a_run(reached, rest);
    }
}

/// The configuration changes only while it is being resolved; after that it
/// stays as it is, whatever happens.
pub proof fn law_configuration_is_settled(s: LifecycleView, e: EventView)
    requires
        s.phase != Phase::ResolvingConfig,
        s.phase != Phase::DecodingConfig,
    ensures
        step(s, e).configuration == s.configuration,
{
}

/// The same over a whole run that starts after the resolution.
pub proof fn law_configuration_is_settled_in_a_run(s: LifecycleView, events: Seq<EventView>)
    requires
        past_resolution(s.phase),
    ensures
        run(s, events).configuration == s.configuration,
    decreases events.len(),
{
    if events.len() > 0 {
        law_configuration_is_settled_in_a_run(s, events.drop_last());
        law_no_way_back_in_a_run(s, events.drop_last());
        law_configuration_is_settled(run(s, events.drop_last()), events.last());
        lemma_run_last(s, events);
    } else {
        assert(events =~= Seq::empty());
        lemma_run_empty(s);
    }
}

/// The settings and, once it is read, the identity of the device never
/// change.
pub proof fn law_settings_and_identity_are_kept(s: LifecycleView, e: EventView)
    ensures
        step(s, e).settings == s.settings,
        s.phase != Phase::ResolvingIdentity ==> step(s, e).mac_address == s.mac_address,
{
}

/// Whether the configuration has been asked for: the request for it is out or
/// answered.
pub open spec fn configuration_asked_for(phase: Phase) -> bool {
    phase != Phase::Booting && phase != Phase::ConnectingWifi && phase != Phase::ConnectBackoff
        && phase != Phase::ResolvingIdentity && phase != Phase::Registering && phase
        != Phase::ResolvingConfig
}

/// The configuration is asked for once: after the answer to the request, or
/// the failure of it, no run leads to a second request.
pub proof fn law_configuration_is_asked_for_once(s: LifecycleView, events: Seq<EventView>)
    requires
        configuration_asked_for(s.phase),
    ensures
        configuration_asked_for(run(s, events).phase),
        !(pending(run(s, events)) matches ActionView::Post(request) && request.payload
            is Configuration),
    decreases events.len(),
{
    if events.len() > 0 {
        law_configuration_is_asked_for_once(s, events.drop_last());
        lemma_run_last(s, events);
    } else {
        assert(events =~= Seq::empty());
        lemma_run_empty(s);
    }
}

/// A heartbeat or a submission that fails is not tried again in its cycle:
/// the failure is shown, and the cycle goes on to what comes next.
pub proof fn law_failed_posts_are_shown_not_retried(s: LifecycleView, exchange: ExchangeView)
    requires
        s.phase == Phase::SendingHeartbeat || s.phase == Phase::Submitting,
        delivery(exchange) is Err,
    ensures
        ({
            let shown = step(s, EventView::Exchanged(exchange));
            let next = step(shown, EventView::Signalled);
            if s.phase == Phase::SendingHeartbeat {
                &&& pending(shown) == ActionView::Signal(
                    BlinkPattern { pulses: 2, millis: TIME_SHORT },
                )
                &&& pending(next) == ActionView::ReadLux
            } else {
                &&& pending(shown) == ActionView::Signal(
                    BlinkPattern { pulses: 2, millis: TIME_LONG },
                )
                &&& pending(next) matches ActionView::Sleep { .. }
            }
        }),
{
}

/// Whether an action posts a heartbeat or a submission.
pub open spec fn is_telemetry(action: ActionView) -> bool {
    match action {
        ActionView::Post(request) => request.payload is Heartbeat || request.payload
            is Submission,
        _ => false,
    }
}

/// The phases of a cycle in which the link is known to be up: from the
/// heartbeat to the submission.
pub open spec fn link_confirmed(phase: Phase) -> bool {
    phase == Phase::SendingHeartbeat || phase == Phase::AnnouncingHeartbeatFailure || phase
        == Phase::ReadingLux || phase == Phase::ReadingClimate || phase == Phase::Submitting
}

/// Whether `e` tells `s` that the node is connected: the check of the link
/// found it up, or the one attempt to join again succeeded.
pub open spec fn confirms_link(s: LifecycleView, e: EventView) -> bool {
    (s.phase == Phase::CheckingLink && e == EventView::Link(true)) || (s.phase
        == Phase::Reconnecting && e == EventView::Connection(true))
}

/// Whether `e` tells `s` that the node is not connected: the attempt to join
/// again failed.
pub open spec fn denies_link(s: LifecycleView, e: EventView) -> bool {
    s.phase == Phase::Reconnecting && e == EventView::Connection(false)
}

/// A heartbeat or a submission is asked for only in a phase in which the link
/// is known to be up.
pub proof fn law_telemetry_needs_link(s: LifecycleView)
    requires
        is_telemetry(pending(s)),
    ensures
        link_confirmed(s.phase),
{
}

/// Such a phase is entered only on the news that the node is connected.
pub proof fn law_link_is_confirmed_by_check(s: LifecycleView, e: EventView)
    requires
        !link_confirmed(s.phase),
        link_confirmed(step(s, e).phase),
    ensures
        confirms_link(s, e),
{
}

/// When the link is down and the attempt to join again fails, the node shows
/// three long pulses twice, pauses, and checks the link again: no post is
/// asked for on the way.
pub proof fn law_failed_check_defers_the_cycle(s: LifecycleView, e: EventView)
    requires
        denies_link(s, e),
    ensures
        ({
            let shown = step(s, e);
            let shown_again = step(shown, EventView::Signalled);
            let paused = step(shown_again, EventView::Signalled);
            let back = step(paused, EventView::Elapsed);
            &&& pending(shown) == ActionView::Signal(BlinkPattern { pulses: 3, millis: TIME_LONG })
            &&& pending(shown_again) == ActionView::Signal(
                BlinkPattern { pulses: 3, millis: TIME_LONG },
            )
            &&& pending(paused) == (ActionView::Sleep { millis: 1000 })
            &&& pending(back) == ActionView::CheckLink
            &&& back == s.at(Phase::CheckingLink)
        }),
{
}

/// While the node is not known to be connected, no heartbeat and no
/// submission is asked for. Told in full: if a run starts where the link is
/// not confirmed and ends where it is, then at some point of the run the node
/// was told that it is connected, and from then on to the end the link stayed
/// confirmed, so no news that the node is not connected came in between.
pub proof fn law_link_confirmed_within_the_cycle(s: LifecycleView, events: Seq<EventView>)
    requires
        !link_confirmed(s.phase),
        link_confirmed(run(s, events).phase),
    ensures
        exists|at: int|
            0 <= at < events.len() && confirms_link(
                #[trigger] run(s, events.take(at)),
                events[at],
            ) && forall|later: int|
                at < later <= events.len() ==> link_confirmed(
                    #[trigger] run(s, events.take(later)).phase,
                ),
    decreases events.len(),
{
    let count = events.len() as int;
    if count == 0 {
        assert(events =~= Seq::empty());
        lemma_run_empty(s);
    }
    lemma_run_last(s, events);
    let before = events.drop_last();
    let reached = run(s, before);
    assert(events.take(count) =~= events);
    assert(events.take(count - 1) =~= before);
    if link_confirmed(reached.phase) {
        law_link_confirmed_within_the_cycle(s, before);
        let at = choose|at: int|
            0 <= at < before.len() && confirms_link(
                #[trigger] run(s, before.take(at)),
                before[at],
            ) && forall|later: int|
                at < later <= before.len() ==> link_confirmed(
                    #[trigger] run(s, before.take(later)).phase,
                );
        assert(before.take(at) =~= events.take(at));
        assert forall|later: int| at < later <= events.len() implies link_confirmed(
            #[trigger] run(s, events.take(later)).phase,
        ) by {
            if later < count {
                assert(before.take(later) =~= events.take(later));
            }
        }
        assert(confirms_link(run(s, events.take(at)), events[at]));
    } else {
        law_link_is_confirmed_by_check(reached, events.last());
        assert(confirms_link(run(s, events.take(count - 1)), events[count - 1]));
    }
}

/// So a heartbeat or a submission that is asked for at the end of a run was
/// preceded, in the same cycle, by the news that the node is connected.
pub proof fn law_no_telemetry_while_disconnected(s: LifecycleView, events: Seq<EventView>)
    requires
        !link_confirmed(s.phase),
        is_telemetry(pending(run(s, events))),
    ensures
        exists|at: int|
            0 <= at < events.len() && confirms_link(
                #[trigger] run(s, events.take(at)),
                events[at],
            ) && forall|later: int|
                at < later <= events.len() ==> link_confirmed(
                    #[trigger] run(s, events.take(later)).phase,
                ),
{
    law_telemetry_needs_link(run(s, events));
    law_link_confirmed_within_the_cycle(s, events);
}

/// A node that has just been powered on is not known to be connected.
pub proof fn law_power_on_is_disconnected(settings: SettingsView)
    ensures
        !link_confirmed(initial(settings).phase),
        !is_telemetry(pending(initial(settings))),
{
}

/// The events of reads of the climate sensor that fail, one for each message.
pub open spec fn failed_reads(messages: Seq<Seq<char>>) -> Seq<EventView> {
    Seq::new(messages.len(), |i: int| EventView::Climate(Err(messages[i])))
}

/// While reads remain, a failed read of the climate sensor is answered with
/// another read, and nothing but the count of the remaining reads changes.
pub proof fn lemma_failed_reads_are_retried(s: LifecycleView, messages: Seq<Seq<char>>)
    requires
        s.phase == Phase::ReadingClimate,
        messages.len() <= s.climate_reads_left,
    ensures
        run(s, failed_reads(messages)) == (LifecycleView {
            climate_reads_left: (s.climate_reads_left - messages.len()) as u32,
            ..s
        }),
    decreases messages.len(),
{
    if messages.len() > 0 {
        lemma_failed_reads_are_retried(s, messages.drop_last());
        assert(failed_reads(messages).drop_last() =~= failed_reads(messages.drop_last()));
        lemma_run_last(s, failed_reads(messages));
    } else {
        assert(failed_reads(messages) =~= Seq::empty());
        lemma_run_empty(s);
    }
}

/// The state in which a cycle submits its readings.
pub open spec fn submitting(
    s: LifecycleView,
    lux: u32,
    reads_left: u32,
    temperature: Option<Measurement>,
    humidity: Option<Measurement>,
) -> LifecycleView {
    LifecycleView {
        lux,
        climate_reads_left: reads_left,
        temperature,
        humidity,
        phase: Phase::Submitting,
        ..s
    }
}

/// A climate sensor that fails fewer times in a row than reads are allowed,
/// and then succeeds, gives the cycle its values: the submission carries that
/// temperature and that humidity.
pub proof fn law_transient_failures_are_overcome(
    s: LifecycleView,
    lux: u32,
    messages: Seq<Seq<char>>,
    values: (Measurement, Measurement),
)
    requires
        s.phase == Phase::ReadingLux,
        messages.len() < CLIMATE_READ_ATTEMPTS,
    ensures
        ({
            let events = seq![EventView::Lux(lux)] + failed_reads(messages) + seq![
                EventView::Climate(Ok(values)),
            ];
            let end = run(s, events);
            &&& end == submitting(
                s,
                lux,
                (CLIMATE_READ_ATTEMPTS - 1 - messages.len()) as u32,
                Some(values.0),
                Some(values.1),
            )
            &&& pending(end) == ActionView::Post(end.submission_request())
        }),
{
    let first = seq![EventView::Lux(lux)];
    let last = seq![EventView::Climate(Ok(values))];
    let reading = step(s, EventView::Lux(lux));
    lemma_run_one(s, EventView::Lux(lux));
    lemma_run_concat(s, first, failed_reads(messages));
    lemma_failed_reads_are_retried(reading, messages);
    lemma_run_concat(s, first + failed_reads(messages), last);
    lemma_run_one(run(s, first + failed_reads(messages)), EventView::Climate(Ok(values)));
}

/// A climate sensor that fails as many times in a row as reads are allowed
/// leaves temperature and humidity absent, and the cycle goes on: the
/// submission is asked for, without them.
pub proof fn law_persistent_failures_leave_fields_absent(
    s: LifecycleView,
    lux: u32,
    messages: Seq<Seq<char>>,
)
    requires
        s.phase == Phase::ReadingLux,
        messages.len() == CLIMATE_READ_ATTEMPTS,
    ensures
        ({
            let events = seq![EventView::Lux(lux)] + failed_reads(messages);
            let end = run(s, events);
            &&& end == submitting(s, lux, 0, None, None)
            &&& pending(end) == ActionView::Post(end.submission_request())
            &&& end.submission_request().payload matches PayloadView::Submission(readings)
            &&& readings.temperature is None
            &&& readings.humidity is None
        }),
{
    let first = seq![EventView::Lux(lux)];
    let reading = step(s, EventView::Lux(lux));
    lemma_run_one(s, EventView::Lux(lux));
    lemma_run_concat(s, first, failed_reads(messages));
    lemma_failed_reads_are_retried(reading, messages.drop_last());
    assert(failed_reads(messages).drop_last() =~= failed_reads(messages.drop_last()));
    lemma_run_last(reading, failed_reads(messages));
}

/// Whether `e` is the outcome of `action`.
pub open spec fn answers(action: ActionView, e: EventView) -> bool {
    match action {
        ActionView::AcquireHardware => e is HardwareReady,
        ActionView::Connect(_) => e is Connection,
        ActionView::Sleep { .. } => e is Elapsed,
        ActionView::ReadIdentity => e is Identity,
        ActionView::Post(_) => e is Exchanged,
        ActionView::Decode { .. } => e is Decoded,
        ActionView::Signal(_) => e is Signalled,
        ActionView::StartClock => e is ClockStarted,
        ActionView::PollClock => e is ClockCompleted,
        ActionView::CheckLink => e is Link,
        ActionView::ReadLux => e is Lux,
        ActionView::ReadClimate => e is Climate,
        ActionView::Halt => false,
    }
}

/// An event that is not the outcome of the action a state waits for leaves
/// the state as it is.
pub proof fn law_only_the_answer_moves_the_state(s: LifecycleView, e: EventView)
    requires
        !answers(pending(s), e),
    ensures
        step(s, e) == s,
{
}

/// Whether a cycle is under way: the link is confirmed, or the outcome of the
/// submission is being shown.
pub open spec fn in_cycle(phase: Phase) -> bool {
    link_confirmed(phase) || phase == Phase::AnnouncingSubmitted || phase
        == Phase::AnnouncingSubmitFailure
}

/// An upper bound on the number of actions that a cycle still performs before
/// the node sleeps.
pub open spec fn actions_before_sleep(s: LifecycleView) -> nat {
    match s.phase {
        Phase::SendingHeartbeat => 5 + CLIMATE_READ_ATTEMPTS as nat,
        Phase::AnnouncingHeartbeatFailure => 4 + CLIMATE_READ_ATTEMPTS as nat,
        Phase::ReadingLux => 3 + CLIMATE_READ_ATTEMPTS as nat,
        Phase::ReadingClimate => 3 + s.climate_reads_left as nat,
        Phase::Submitting => 2,
        Phase::AnnouncingSubmitted | Phase::AnnouncingSubmitFailure => 1,
        _ => 0,
    }
}

/// A cycle that has begun is completed: whatever the server and the sensors
/// answer, every answer brings the node nearer to its sleep, which it reaches
/// from the heartbeat after 105 actions at most, and it does not leave the
/// cycle before.
pub proof fn law_cycle_is_completed(s: LifecycleView, e: EventView)
    requires
        in_cycle(s.phase),
        answers(pending(s), e),
    ensures
        actions_before_sleep(step(s, e)) < actions_before_sleep(s),
        in_cycle(step(s, e).phase) || step(s, e).phase == Phase::Sleeping,
        s.phase == Phase::SendingHeartbeat ==> actions_before_sleep(s) == 105,
{
}

/// A node whose built-in configuration names a known unit runs on a
/// configuration with a known unit at every point of every run.
pub proof fn law_configuration_is_always_usable(settings: SettingsView, events: Seq<EventView>)
    requires
        default_configuration(settings).usable(),
    ensures
        run(initial(settings), events).settings == settings,
        run(initial(settings), events).configuration.usable(),
    decreases events.len(),
{
    if events.len() > 0 {
        law_configuration_is_always_usable(settings, events.drop_last());
        lemma_run_last(initial(settings), events);
    } else {
        assert(events =~= Seq::empty());
        lemma_run_empty(initial(settings));
    }
}

/// The six signals of the lifecycle differ from one another, so each tells
/// what happened.
pub proof fn law_signals_tell_apart()
    ensures
        ({
            let fallback = BlinkPattern { pulses: 3, millis: TIME_SHORT };
            let boot = BlinkPattern { pulses: 1, millis: TIME_LONG };
            let offline = BlinkPattern { pulses: 3, millis: TIME_LONG };
            let heartbeat_failure = BlinkPattern { pulses: 2, millis: TIME_SHORT };
            let submit_failure = BlinkPattern { pulses: 2, millis: TIME_LONG };
            let submitted = BlinkPattern { pulses: 1, millis: TIME_SHORT };
            &&& fallback != boot && fallback != offline && fallback != heartbeat_failure
            &&& fallback != submit_failure && fallback != submitted
            &&& boot != offline && boot != heartbeat_failure && boot != submit_failure
            &&& boot != submitted
            &&& offline != heartbeat_failure && offline != submit_failure && offline != submitted
            &&& heartbeat_failure != submit_failure && heartbeat_failure != submitted
            &&& submit_failure != submitted
        }),
{
}

} // verus!
