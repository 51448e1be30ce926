//! The dispatch loop as a state machine.
//!
//! The dispatcher never acts itself. It is told what happened, an [`Input`],
//! and answers with what to do next, an [`Action`]; the caller carries the
//! action out and comes back with its outcome. Run once, it asks for one
//! delivery and stops. Watching, it asks for the watches to be set up and
//! then, for as long as the stream of events lasts, for one delivery per
//! trigger, whatever became of the delivery before.

use crate::config::{endpoint_verdict, url_scheme, Config, ConfigError, ConfigView};
use crate::delivery::DeliveryResult;
use crate::encoder::{encoded_for, Encoded, EncodedView};
use crate::filter::{closes, moment_of, qualifies, quiet_at, remaining, step};
use crate::filter::{Burst, Moment, RawEvent, TriggerFilter};
use crate::watch::{plan_watches, watch_plan, WatchTarget, WatchTargetView};
use vstd::prelude::*;

verus! {

/// What the dispatcher is in the middle of.
#[derive(Clone, Copy, Debug, PartialEq, Eq, Structural)]
pub enum Phase {
    /// The watches are being set up.
    Arming,
    /// The next raw event, or the end of the quiet window, is awaited.
    Waiting,
    /// A delivery is under way; `last` says that nothing follows it.
    Delivering { last: bool },
    /// The loop has ended.
    Stopped,
}

/// An error that ends the program.
#[derive(Clone, Copy, Debug, PartialEq, Eq, Structural)]
pub enum Fatal {
    /// The configuration did not pass validation.
    Config(ConfigError),
    /// A watch could not be set up.
    WatchSetup,
}

/// What the caller reports to the dispatcher.
#[derive(Debug)]
pub enum Input {
    /// All watches are in place.
    WatchReady,
    /// A watch could not be set up.
    WatchFailed,
    /// The watch source handed over an event.
    Raw(RawEvent),
    /// The wait ran out, or could not begin, with no event at hand.
    Quiet,
    /// The watch source reported an error in place of an event.
    Fault,
    /// The watch source has shut down: no event will follow.
    Closed,
    /// The delivery that was asked for has ended.
    Delivered(DeliveryResult),
}

/// What the dispatcher asks the caller to do.
#[derive(Debug)]
pub enum Action {
    /// Set up these watches, all or none, and report how it went.
    Watch(Vec<WatchTarget>),
    /// Make one delivery attempt with this command and report its result.
    Deliver(Encoded),
    /// Wait for the next raw event, for at most this many milliseconds, or
    /// for as long as it takes where there is no limit.
    Await(Option<u64>),
    /// End the program with this outcome.
    Stop(Result<(), Fatal>),
    /// Nothing: the input did not belong to the current phase.
    Ignored,
}

/// The mathematical content of an [`Action`].
pub enum ActionView {
    Watch(Seq<WatchTargetView>),
    Deliver(EncodedView),
    Await(Option<u64>),
    Stop(Result<(), Fatal>),
    Ignored,
}

impl View for Action {
    type V = ActionView;

    open spec fn view(&self) -> ActionView {
        match *self {
            Action::Watch(targets) => ActionView::Watch(targets.deep_view()),
            Action::Deliver(ready) => ActionView::Deliver(ready@),
            Action::Await(limit) => ActionView::Await(limit),
            Action::Stop(outcome) => ActionView::Stop(outcome),
            Action::Ignored => ActionView::Ignored,
        }
    }
}

/// The mathematical content of a [`Dispatcher`].
pub struct DispatcherView {
    pub config: ConfigView,
    pub window: u64,
    pub burst: Burst,
    pub phase: Phase,
}

/// The delivery that a configuration calls for: its script, at its endpoint.
pub open spec fn delivery_for(config: ConfigView) -> ActionView {
    ActionView::Deliver(encoded_for(config.endpoint, config.script_path))
}

/// How a dispatcher starts out. Watching, it asks for the watches; else it
/// asks for the one delivery, after which nothing follows.
pub open spec fn begin_view(config: ConfigView, window: u64) -> (DispatcherView, ActionView) {
    if config.watch_enabled {
        (
            DispatcherView { config, window, burst: Burst::Idle, phase: Phase::Arming },
            ActionView::Watch(watch_plan(config)),
        )
    } else {
        (
            DispatcherView {
                config,
                window,
                burst: Burst::Idle,
                phase: Phase::Delivering { last: true },
            },
            delivery_for(config),
        )
    }
}

/// The wait that a dispatcher asks for when it has nothing to deliver.
pub open spec fn wait_for(state: DispatcherView, now: u64) -> ActionView {
    ActionView::Await(remaining(state.window, state.burst, now))
}

/// While the watches are set up: success starts the wait, failure is fatal.
pub open spec fn react_arming(state: DispatcherView, input: Input, now: u64) -> (
    DispatcherView,
    ActionView,
) {
    match input {
        Input::WatchReady => {
            let next = DispatcherView { phase: Phase::Waiting, ..state };
            (next, wait_for(next, now))
        },
        Input::WatchFailed => (
            DispatcherView { phase: Phase::Stopped, ..state },
            ActionView::Stop(Err(Fatal::WatchSetup)),
        ),
        _ => (state, ActionView::Ignored),
    }
}

/// While waiting, one moment goes through the filter. If it sets off a
/// trigger the delivery is asked for; if not, the wait goes on.
pub open spec fn react_moment(state: DispatcherView, moment: Moment, now: u64) -> (
    DispatcherView,
    ActionView,
) {
    let burst = step(state.window, state.burst, moment);
    if closes(state.window, state.burst, moment.at) {
        (
            DispatcherView { burst, phase: Phase::Delivering { last: false }, ..state },
            delivery_for(state.config),
        )
    } else {
        let next = DispatcherView { burst, ..state };
        (next, wait_for(next, now))
    }
}

/// While waiting: events and quiet moments go through the filter, an error
/// of the watch source changes nothing, and the end of the stream turns an
/// open burst into a last delivery or, with none open, ends the loop.
pub open spec fn react_waiting(state: DispatcherView, input: Input, now: u64) -> (
    DispatcherView,
    ActionView,
) {
    match input {
        Input::Raw(event) => react_moment(state, moment_of(event), now),
        Input::Quiet => react_moment(state, quiet_at(now), now),
        Input::Fault => (state, wait_for(state, now)),
        Input::Closed => if state.burst is Pending {
            (
                DispatcherView {
                    burst: Burst::Idle,
                    phase: Phase::Delivering { last: true },
                    ..state
                },
                delivery_for(state.config),
            )
        } else {
            (DispatcherView { phase: Phase::Stopped, ..state }, ActionView::Stop(Ok(())))
        },
        _ => (state, ActionView::Ignored),
    }
}

/// While delivering: when the delivery has ended, however it ended, the
/// loop stops after a last delivery and goes back to waiting after any
/// other.
pub open spec fn react_delivering(state: DispatcherView, last: bool, input: Input, now: u64) -> (
    DispatcherView,
    ActionView,
) {
    match input {
        Input::Delivered(_) => if last {
            (DispatcherView { phase: Phase::Stopped, ..state }, ActionView::Stop(Ok(())))
        } else {
            let next = DispatcherView { phase: Phase::Waiting, ..state };
            (next, wait_for(next, now))
        },
        _ => (state, ActionView::Ignored),
    }
}

/// The dispatcher's reaction to an input that reaches it when the clock
/// reads `now`: its next state and what it asks for.
pub open spec fn react(state: DispatcherView, input: Input, now: u64) -> (
    DispatcherView,
    ActionView,
) {
    match state.phase {
        Phase::Arming => react_arming(state, input, now),
        Phase::Waiting => react_waiting(state, input, now),
        Phase::Delivering { last } => react_delivering(state, last, input, now),
        Phase::Stopped => (state, ActionView::Ignored),
    }
}

/// The exit code for an outcome: zero for a normal end, one for a fatal
/// error.
pub open spec fn exit_code_of(outcome: Result<(), Fatal>) -> u8 {
    if outcome is Ok {
        0
    } else {
        1
    }
}

/// The exit code with which the program ends on `outcome`.
pub fn exit_code(outcome: &Result<(), Fatal>) -> (code: u8)
    ensures
        code == exit_code_of(*outcome),
        code == 0 <==> *outcome is Ok,
{
    match outcome {
        Ok(_) => 0,
        Err(_) => 1,
    }
}

/// The dispatch loop's state: the configuration, the trigger filter and the
/// phase.
#[derive(Debug)]
pub struct Dispatcher {
    config: Config,
    filter: TriggerFilter,
    phase: Phase,
}

impl View for Dispatcher {
    type V = DispatcherView;

    closed spec fn view(&self) -> DispatcherView {
        DispatcherView {
            config: self.config@,
            window: self.filter.window(),
            burst: self.filter.burst(),
            phase: self.phase,
        }
    }
}

impl Dispatcher {
    /// Validates the settings and, if they pass, starts a dispatcher on
    /// them. Where they do not pass there is no dispatcher, and so nothing
    /// that could ask for a watch or a delivery.
    pub fn launch(
        endpoint: &str,
        watch: bool,
        script: &str,
        dirs: Vec<String>,
        window: u64,
    ) -> (started: Result<(Dispatcher, Action), Fatal>)
        ensures
            match started {
                Ok((dispatcher, action)) => {
                    &&& endpoint_verdict(endpoint@) is Ok
                    &&& (dispatcher@, action@) == begin_view(
                        ConfigView {
                            endpoint: endpoint@,
                            script_path: script@,
                            watch_dirs: dirs.deep_view(),
                            watch_enabled: watch,
                        },
                        window,
                    )
                },
                Err(fatal) => {
                    &&& fatal matches Fatal::Config(error)
                    &&& endpoint_verdict(endpoint@) == Err::<(), ConfigError>(error)
                },
            },
            url_scheme(endpoint@) != Some("ws"@) ==> started is Err,
    {
        match Config::validate(endpoint, watch, script, dirs) {
            Ok(config) => Ok(Dispatcher::begin(config, window)),
            Err(error) => Err(Fatal::Config(error)),
        }
    }

    /// Starts a dispatcher on a validated configuration, with the given
    /// quiet window in milliseconds, and says what to do first.
    pub fn begin(config: Config, window: u64) -> (started: (Dispatcher, Action))
        ensures
            (started.0@, started.1@) == begin_view(config@, window),
    {
        let filter = TriggerFilter::new(window);
        if config.watch_enabled() {
            let targets = plan_watches(&config);
            (Dispatcher { config, filter, phase: Phase::Arming }, Action::Watch(targets))
        } else {
            let ready = config.command();
            (
                Dispatcher { config, filter, phase: Phase::Delivering { last: true } },
                Action::Deliver(ready),
            )
        }
    }

    /// The phase that the dispatcher is in.
    pub fn phase(&self) -> (phase: Phase)
        ensures
            phase == self@.phase,
    {
        self.phase
    }

    /// The configuration that the dispatcher works from.
    pub fn config(&self) -> (config: &Config)
        ensures
            config@ == self@.config,
    {
        &self.config
    }

    fn wait(&self, now: u64) -> (action: Action)
        ensures
            action@ == wait_for(self@, now),
    {
        Action::Await(self.filter.time_left(now))
    }

    fn deliver(&self) -> (action: Action)
        ensures
            action@ == delivery_for(self@.config),
    {
        Action::Deliver(self.config.command())
    }

    fn after_moment(&mut self, fired: bool, now: u64) -> (action: Action)
        requires
            old(self).phase == Phase::Waiting,
        ensures
            final(self)@ == (DispatcherView {
                phase: if fired {
                    Phase::Delivering { last: false }
                } else {
                    Phase::Waiting
                },
                ..old(self)@
            }),
            action@ == if fired {
                delivery_for(old(self)@.config)
            } else {
                wait_for(old(self)@, now)
            },
    {
        if fired {
            self.phase = Phase::Delivering { last: false };
            self.deliver()
        } else {
            self.wait(now)
        }
    }

    /// Takes in what the caller reports at clock reading `now`, moves on,
    /// and says what to do next.
    pub fn step(&mut self, input: Input, now: u64) -> (action: Action)
        ensures
            (final(self)@, action@) == react(old(self)@, input, now),
    {
        match self.phase {
            Phase::Arming => match input {
                Input::WatchReady => {
                    self.phase = Phase::Waiting;
                    self.wait(now)
                },
                Input::WatchFailed => {
                    self.phase = Phase::Stopped;
                    Action::Stop(Err(Fatal::WatchSetup))
                },
                _ => Action::Ignored,
            },
            Phase::Waiting => match input {
                Input::Raw(event) => {
                    let fired = self.filter.observe(&event);
                    self.after_moment(fired, now)
                },
                Input::Quiet => {
                    let fired = self.filter.poll(now);
                    self.after_moment(fired, now)
                },
                Input::Fault => self.wait(now),
                Input::Closed => {
                    if self.filter.flush() {
                        self.phase = Phase::Delivering { last: true };
                        self.deliver()
                    } else {
                        self.phase = Phase::Stopped;
                        Action::Stop(Ok(()))
                    }
                },
                _ => Action::Ignored,
            },
            Phase::Delivering { last } => match input {
                Input::Delivered(_) => {
                    if last {
                        self.phase = Phase::Stopped;
                        Action::Stop(Ok(()))
                    } else {
                        self.phase = Phase::Waiting;
                        self.wait(now)
                    }
                },
                _ => Action::Ignored,
            },
            Phase::Stopped => Action::Ignored,
        }
    }
}

/// The time that an input brings with it: a raw event its own time stamp,
/// anything else the clock reading at which it is handed over.
pub open spec fn time_of(input: Input, now: u64) -> u64 {
    match input {
        Input::Raw(event) => event.timestamp,
        _ => now,
    }
}

/// Whether an input is a raw event that qualifies.
pub open spec fn is_qualifying(input: Input) -> bool {
    input matches Input::Raw(event) && qualifies(event.kind)
}

/// The dispatcher's state after a sequence of inputs, each with the clock
/// reading at which it is handed over, taken in order from `start`, and the
/// number of deliveries that it asked for on the way.
pub open spec fn replay(start: DispatcherView, inputs: Seq<(Input, u64)>) -> (DispatcherView, nat)
    decreases inputs.len(),
{
    if inputs.len() == 0 {
        (start, 0)
    } else {
        let (state, asked) = replay(start, inputs.drop_last());
        let (next, action) = react(state, inputs.last().0, inputs.last().1);
        (
            next,
            if action is Deliver {
                asked + 1
            } else {
                asked
            },
        )
    }
}

/// Whether an input is one that cannot open a burst: a raw event that does
/// not qualify, a quiet moment, or an error of the watch source.
pub open spec fn passes_quietly(input: Input) -> bool {
    match input {
        Input::Raw(event) => !qualifies(event.kind),
        Input::Quiet => true,
        Input::Fault => true,
        _ => false,
    }
}

/// Run once, the dispatcher asks for exactly one delivery, that of the
/// configured script, and then stops with success, however the delivery
/// ended.
pub proof fn lemma_single_run_delivers_once(
    config: ConfigView,
    window: u64,
    result: DeliveryResult,
    now: u64,
)
    requires
        !config.watch_enabled,
    ensures
        ({
            let (start, first) = begin_view(config, window);
            let (end, second) = react(start, Input::Delivered(result), now);
            &&& first == delivery_for(config)
            &&& second == ActionView::Stop(Ok(()))
            &&& end.phase == Phase::Stopped
            &&& exit_code_of(Ok(())) == 0
        }),
{
}

/// Watching starts with the watches, the script's first and then one for
/// each directory, and a watch that cannot be set up is fatal: the
/// dispatcher stops with a failure before it has asked for any delivery.
pub proof fn lemma_failed_setup_is_fatal(config: ConfigView, window: u64, now: u64)
    requires
        config.watch_enabled,
    ensures
        ({
            let (start, first) = begin_view(config, window);
            let (end, second) = react(start, Input::WatchFailed, now);
            &&& first == ActionView::Watch(watch_plan(config))
            &&& watch_plan(config).len() == config.watch_dirs.len() + 1
            &&& second == ActionView::Stop(Err(Fatal::WatchSetup))
            &&& end.phase == Phase::Stopped
            &&& exit_code_of(Err(Fatal::WatchSetup)) != 0
        }),
{
}

/// A delivery that fails does not end the loop. When a delivery that is not
/// the last has ended, the dispatcher goes back to waiting for the next
/// trigger, and it does so in the same way whether the delivery went
/// through, could not connect or could not send.
pub proof fn lemma_failure_keeps_watching(state: DispatcherView, result: DeliveryResult, now: u64)
    requires
        state.phase == (Phase::Delivering { last: false }),
    ensures
        react(state, Input::Delivered(result), now).0 == (DispatcherView {
            phase: Phase::Waiting,
            ..state
        }),
        react(state, Input::Delivered(result), now).1 == wait_for(state, now),
        react(state, Input::Delivered(result), now) == react(
            state,
            Input::Delivered(DeliveryResult::Delivered),
            now,
        ),
{
}

/// Once the watches are in place, only the end of the event stream ends the
/// loop: on any other input a dispatcher that waits, or that delivers with
/// more to follow, still does one of the two afterwards and does not ask to
/// stop.
pub proof fn lemma_only_the_end_stops_a_watch(state: DispatcherView, input: Input, now: u64)
    requires
        state.phase == Phase::Waiting || state.phase == (Phase::Delivering { last: false }),
        !(input is Closed),
    ensures
        ({
            let (next, action) = react(state, input, now);
            &&& next.phase == Phase::Waiting || next.phase == (Phase::Delivering { last: false })
            &&& !(action is Stop)
        }),
{
}

/// A dispatcher that has stopped asks for nothing more.
pub proof fn lemma_stopped_is_final(state: DispatcherView, input: Input, now: u64)
    requires
        state.phase == Phase::Stopped,
    ensures
        react(state, input, now) == (state, ActionView::Ignored),
{
}

/// Every delivery is for the configured script at the configured endpoint,
/// whatever path the event that led to it was about; and neither the
/// configuration nor the quiet window ever changes.
pub proof fn lemma_deliveries_carry_the_configured_script(
    state: DispatcherView,
    input: Input,
    now: u64,
)
    ensures
        ({
            let (next, action) = react(state, input, now);
            &&& next.config == state.config
            &&& next.window == state.window
            &&& action is Deliver ==> action == delivery_for(state.config)
        }),
{
}

/// Events that do not qualify lead to no delivery: a waiting dispatcher
/// with no burst open that is handed creations, removals, other events,
/// quiet moments and watch errors, in any number and order, stays as it is
/// and asks for no delivery.
pub proof fn lemma_unqualified_lead_to_no_delivery(
    start: DispatcherView,
    inputs: Seq<(Input, u64)>,
)
    requires
        start.phase == Phase::Waiting,
        start.burst == Burst::Idle,
        forall|i: int| 0 <= i < inputs.len() ==> passes_quietly((#[trigger] inputs[i]).0),
    ensures
        replay(start, inputs) == (start, 0nat),
    decreases inputs.len(),
{
    if inputs.len() > 0 {
        let front = inputs.drop_last();
        assert forall|i: int| 0 <= i < front.len() implies passes_quietly(
            (#[trigger] front[i]).0,
        ) by {
            assert(front[i] == inputs[i]);
        }
        lemma_unqualified_lead_to_no_delivery(start, front);
        assert(passes_quietly(inputs[inputs.len() - 1].0));
    }
}

/// While a burst lasts, no delivery is asked for: a waiting dispatcher with
/// no burst open that is handed a run of qualifying events, each raised
/// before the window of the one before it has run out, keeps waiting, with
/// the burst open at the last of them.
pub proof fn lemma_burst_is_held_back(start: DispatcherView, inputs: Seq<(Input, u64)>)
    requires
        start.phase == Phase::Waiting,
        start.burst == Burst::Idle,
        inputs.len() >= 1,
        forall|i: int| 0 <= i < inputs.len() ==> is_qualifying((#[trigger] inputs[i]).0),
        forall|i: int|
            0 < i < inputs.len() ==> time_of((#[trigger] inputs[i]).0, inputs[i].1) < time_of(
                inputs[i - 1].0,
                inputs[i - 1].1,
            ) + start.window,
    ensures
        replay(start, inputs) == (
            DispatcherView {
                burst: Burst::Pending { last: time_of(inputs.last().0, inputs.last().1) },
                ..start
            },
            0nat,
        ),
    decreases inputs.len(),
{
    let front = inputs.drop_last();
    if front.len() == 0 {
        assert(replay(start, front) == (start, 0nat));
    } else {
        assert forall|i: int| 0 <= i < front.len() implies is_qualifying(
            (#[trigger] front[i]).0,
        ) by {
            assert(front[i] == inputs[i]);
        }
        assert forall|i: int| 0 < i < front.len() implies time_of(
            (#[trigger] front[i]).0,
            front[i].1,
        ) < time_of(front[i - 1].0, front[i - 1].1) + start.window by {
            assert(front[i] == inputs[i]);
            assert(front[i - 1] == inputs[i - 1]);
        }
        lemma_burst_is_held_back(start, front);
        let n = inputs.len() as int;
        assert(front.last() == inputs[n - 2]);
        assert(time_of(inputs[n - 1].0, inputs[n - 1].1) < time_of(
            inputs[n - 2].0,
            inputs[n - 2].1,
        ) + start.window);
    }
    assert(is_qualifying(inputs[inputs.len() - 1].0));
}

/// A burst leads to exactly one delivery: a waiting dispatcher with no burst
/// open that is handed a run of qualifying events, each raised before the
/// window of the one before it has run out, and then finds the clock past
/// the last window, has asked for one delivery in all, that of the script.
pub proof fn lemma_burst_is_delivered_once(
    start: DispatcherView,
    inputs: Seq<(Input, u64)>,
    now: u64,
)
    requires
        start.phase == Phase::Waiting,
        start.burst == Burst::Idle,
        inputs.len() >= 1,
        forall|i: int| 0 <= i < inputs.len() ==> is_qualifying((#[trigger] inputs[i]).0),
        forall|i: int|
            0 < i < inputs.len() ==> time_of((#[trigger] inputs[i]).0, inputs[i].1) < time_of(
                inputs[i - 1].0,
                inputs[i - 1].1,
            ) + start.window,
        time_of(inputs.last().0, inputs.last().1) + start.window <= now,
    ensures
        replay(start, inputs.push((Input::Quiet, now))) == (
            DispatcherView {
                burst: Burst::Idle,
                phase: Phase::Delivering { last: false },
                ..start
            },
            1nat,
        ),
        react(replay(start, inputs).0, Input::Quiet, now).1 == delivery_for(start.config),
{
    lemma_burst_is_held_back(start, inputs);
    let all = inputs.push((Input::Quiet, now));
    assert(all.drop_last() == inputs);
    assert(all.last() == (Input::Quiet, now));
}

} // verus!
