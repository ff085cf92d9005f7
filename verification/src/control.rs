//! The control loop's decisions: what to do when the timer ticks, when a
//! request to stop arrives and when the backend fails.
//!
//! The loop itself waits, reads the clock and talks to the backend; here is
//! the function it asks after every event. The function says which setting
//! to apply, how long to sleep and when to restore, and it is so made that
//! the display is restored exactly once on every way out.

use vstd::prelude::*;
use crate::transition::{
    lemma_fade_idempotent, lemma_stepped_wf, ColorSetting, Period, TransitionScheme,
};

verus! {

/// Milliseconds between two ticks while a short fade runs.
pub const SHORT_TICK_MS: u64 = 100;

/// Milliseconds between two ticks otherwise.
pub const LONG_TICK_MS: u64 = 5000;

/// Direction of the fade that a request to stop starts.
pub const EXIT_FADE_DELTA: i16 = -1;

/// Length of the fade that a request to stop starts.
pub const EXIT_FADE_LEN: u16 = 2;

/// Where the fade that a request to stop starts sets out from: a tenth.
pub const EXIT_FADE_ALPHA: i64 = 100_000;

/// Where the loop stands.
#[derive(Clone, Copy, Debug, PartialEq, Eq, Structural)]
pub enum LoopState {
    /// Following the sun.
    Running,
    /// Asked to stop, and fading out.
    Exiting,
    /// Done; the display has been handed back.
    Terminated,
}

/// What the loop waited for and got.
#[derive(Clone, Copy, Debug, PartialEq, Eq, Structural)]
pub enum Event {
    /// A request to stop.
    Signal,
    /// The timer, with the sun's elevation at this moment in millionths of a
    /// degree.
    Tick(i64),
    /// The backend refused the setting it was last given.
    BackendFailed,
}

/// What the loop is to do after an event, in this order: apply, then either
/// sleep or restore and leave.
#[derive(Clone, Copy, Debug, PartialEq, Eq)]
pub struct Action {
    /// The period of day, where it differs from the one last announced.
    pub announce: Option<Period>,
    /// The setting to hand to the backend, where it differs from the one last
    /// applied.
    pub apply: Option<ColorSetting>,
    /// Milliseconds after which the timer is to tick again.
    pub sleep_ms: Option<u64>,
    /// Whether to restore the display and leave the loop.
    pub restore: bool,
}

/// The control loop's state.
#[derive(Clone, Copy, Debug, PartialEq, Eq)]
pub struct ControlLoop {
    pub state: LoopState,
    pub scheme: TransitionScheme,
    /// The setting last handed to the backend, if any was.
    pub applied: Option<ColorSetting>,
    /// The period last announced.
    pub period: Period,
    /// Whether the loop ended because the backend failed.
    pub failed: bool,
}

impl Action {
    /// Nothing to do.
    pub open spec fn idle() -> Action {
        Action { announce: None, apply: None, sleep_ms: None, restore: false }
    }

    /// Restore and leave.
    pub open spec fn leave() -> Action {
        Action { announce: None, apply: None, sleep_ms: None, restore: true }
    }
}

/// The scheme with the fade armed that eases the display out: direction
/// down, length two, setting out from a tenth.
pub open spec fn armed(scheme: TransitionScheme) -> TransitionScheme {
    TransitionScheme {
        short_trans_delta: EXIT_FADE_DELTA,
        short_trans_len: EXIT_FADE_LEN,
        adjustment_alpha: EXIT_FADE_ALPHA,
        ..scheme
    }
}

impl ControlLoop {
    /// The loop's invariant: that of its scheme.
    pub open spec fn wf(self) -> bool {
        self.scheme.wf()
    }

    /// The loop before its first event.
    pub open spec fn initial(scheme: TransitionScheme) -> ControlLoop {
        ControlLoop {
            state: LoopState::Running,
            scheme,
            applied: None,
            period: Period::Unknown,
            failed: false,
        }
    }

    /// The scheme after a tick: one step further in its fade, where one runs.
    pub open spec fn ticked_scheme(self) -> TransitionScheme {
        self.scheme.stepped()
    }

    /// The setting that a tick at `elevation` arrives at: the scheme's
    /// setting for the elevation, drawn towards neutral where a fade ran
    /// when the tick came.
    pub open spec fn candidate(self, elevation: int) -> ColorSetting {
        let setting = self.scheme.setting_at(elevation);
        if self.scheme.fading() {
            setting.toward_neutral(self.ticked_scheme().adjustment_alpha as int)
        } else {
            setting
        }
    }

    /// Whether a tick ends the loop: it was asked to stop, and no fade runs
    /// any more.
    pub open spec fn tick_ends(self) -> bool {
        self.state == LoopState::Exiting && !self.ticked_scheme().fading()
    }

    /// The loop after `event`.
    pub open spec fn after(self, event: Event) -> ControlLoop {
        match self.state {
            LoopState::Terminated => match event {
                Event::BackendFailed => ControlLoop { failed: true, ..self },
                _ => self,
            },
            _ => match event {
                Event::Signal => if self.state == LoopState::Running {
                    ControlLoop { state: LoopState::Exiting, scheme: armed(self.scheme), ..self }
                } else {
                    ControlLoop { state: LoopState::Terminated, ..self }
                },
                Event::BackendFailed => ControlLoop {
                    state: LoopState::Terminated,
                    failed: true,
                    ..self
                },
                Event::Tick(elevation) => ControlLoop {
                    state: if self.tick_ends() {
                        LoopState::Terminated
                    } else {
                        self.state
                    },
                    scheme: self.ticked_scheme(),
                    applied: Some(self.candidate(elevation as int)),
                    period: self.scheme.period_at(elevation as int),
                    failed: self.failed,
                },
            },
        }
    }

    /// What the loop is to do after `event`.
    pub open spec fn action(self, event: Event) -> Action {
        match self.state {
            LoopState::Terminated => Action::idle(),
            _ => match event {
                Event::Signal => if self.state == LoopState::Running {
                    Action::idle()
                } else {
                    Action::leave()
                },
                Event::BackendFailed => Action::leave(),
                Event::Tick(elevation) => Action {
                    announce: if self.scheme.period_at(elevation as int) != self.period {
                        Some(self.scheme.period_at(elevation as int))
                    } else {
                        None
                    },
                    apply: if self.applied != Some(self.candidate(elevation as int)) {
                        Some(self.candidate(elevation as int))
                    } else {
                        None
                    },
                    sleep_ms: if self.tick_ends() {
                        None
                    } else if self.ticked_scheme().fading() {
                        Some(SHORT_TICK_MS)
                    } else {
                        Some(LONG_TICK_MS)
                    },
                    restore: self.tick_ends(),
                },
            },
        }
    }

    /// The loop after a sequence of events.
    pub open spec fn after_all(self, events: Seq<Event>) -> ControlLoop
        decreases events.len(),
    {
        if events.len() == 0 {
            self
        } else {
            self.after(events[0]).after_all(events.drop_first())
        }
    }

    /// How often the loop is told to restore over a sequence of events.
    pub open spec fn restores(self, events: Seq<Event>) -> nat
        decreases events.len(),
    {
        if events.len() == 0 {
            0
        } else {
            let now: nat = if self.action(events[0]).restore {
                1
            } else {
                0
            };
            now + self.after(events[0]).restores(events.drop_first())
        }
    }

    /// A loop that runs, with nothing applied or announced yet.
    pub fn new(scheme: TransitionScheme) -> (out: ControlLoop)
        requires
            scheme.wf(),
        ensures
            out == ControlLoop::initial(scheme),
            out.wf(),
    {
        ControlLoop {
            state: LoopState::Running,
            scheme,
            applied: None,
            period: Period::Unknown,
            failed: false,
        }
    }

    /// Tells whether the loop has ended.
    pub fn is_terminated(&self) -> (out: bool)
        ensures
            out == (self.state == LoopState::Terminated),
    {
        match self.state {
            LoopState::Terminated => true,
            _ => false,
        }
    }

    /// The status that the process is to leave with: nothing where the loop
    /// ended of its own accord, one where the backend failed.
    pub fn exit_code(&self) -> (out: i32)
        ensures
            out == if self.failed {
                1i32
            } else {
                0i32
            },
    {
        if self.failed {
            1
        } else {
            0
        }
    }

    /// Arms the fade that eases the display out.
    fn arm_exit_fade(&mut self)
        ensures
            final(self).scheme == armed(old(self).scheme),
            final(self).state == old(self).state,
            final(self).applied == old(self).applied,
            final(self).period == old(self).period,
            final(self).failed == old(self).failed,
    {
        self.scheme.short_trans_delta = EXIT_FADE_DELTA;
        self.scheme.short_trans_len = EXIT_FADE_LEN;
        self.scheme.adjustment_alpha = EXIT_FADE_ALPHA;
    }

    /// Handles a tick of the timer at the elevation `elevation`.
    fn tick(&mut self, elevation: i64) -> (out: Action)
        requires
            old(self).wf(),
            old(self).state != LoopState::Terminated,
        ensures
            *final(self) == old(self).after(Event::Tick(elevation)),
            out == old(self).action(Event::Tick(elevation)),
            final(self).wf(),
    {
        let period = self.scheme.get_period(elevation);
        let announce = if period != self.period {
            Some(period)
        } else {
            None
        };
        let mut setting = self.scheme.interpolate_color_settings(elevation);
        if self.scheme.short_transition() {
            self.scheme.adjust_transition_alpha();
            setting = self.scheme.blend_toward_neutral(setting);
        }
        let differs = match self.applied {
            Some(previous) => previous != setting,
            None => true,
        };
        let apply = if differs {
            Some(setting)
        } else {
            None
        };
        let fading = self.scheme.short_transition();
        let ends = match self.state {
            LoopState::Exiting => !fading,
            _ => false,
        };
        let sleep_ms = if ends {
            None
        } else if fading {
            Some(SHORT_TICK_MS)
        } else {
            Some(LONG_TICK_MS)
        };
        if ends {
            self.state = LoopState::Terminated;
        }
        self.applied = Some(setting);
        self.period = period;
        Action { announce, apply, sleep_ms, restore: ends }
    }

    /// Takes one event and says what to do.
    ///
    /// A tick computes the setting for the elevation, moves a running fade by
    /// one step and draws the setting towards neutral by it, asks for the
    /// setting to be applied where it differs from the last one applied, and
    /// then either ends the loop (where it was asked to stop and the fade is
    /// over) or says how long to sleep: shortly while a fade runs, long
    /// otherwise. The first request to stop starts the fade out; a second one
    /// ends the loop at once. A failure of the backend ends the loop at once
    /// and marks it failed. Whenever the loop ends, and only then, the action
    /// says to restore. A loop that has ended asks for nothing and stays as
    /// it is, but for a failure of the backend that comes in late, which
    /// still marks it failed.
    pub fn step(&mut self, event: Event) -> (out: Action)
        requires
            old(self).wf(),
        ensures
            *final(self) == old(self).after(event),
            out == old(self).action(event),
            final(self).wf(),
            out.restore <==> old(self).state != LoopState::Terminated && final(self).state
                == LoopState::Terminated,
            out.sleep_ms.is_some() ==> !out.restore,
    {
        match self.state {
            LoopState::Terminated => {
                match event {
                    Event::BackendFailed => {
                        self.failed = true;
                    },
                    _ => {},
                }
                return Action { announce: None, apply: None, sleep_ms: None, restore: false };
            },
            _ => {},
        }
        match event {
            Event::Signal => {
                match self.state {
                    LoopState::Running => {
                        self.state = LoopState::Exiting;
                        self.arm_exit_fade();
                        Action { announce: None, apply: None, sleep_ms: None, restore: false }
                    },
                    _ => {
                        self.state = LoopState::Terminated;
                        Action { announce: None, apply: None, sleep_ms: None, restore: true }
                    },
                }
            },
            Event::BackendFailed => {
                self.state = LoopState::Terminated;
                self.failed = true;
                Action { announce: None, apply: None, sleep_ms: None, restore: true }
            },
            Event::Tick(elevation) => self.tick(elevation),
        }
    }
}

/// Every event keeps the loop's invariant, and the action says to restore
/// exactly when the event ends the loop. The timer is set again exactly
/// after a tick that leaves the loop going, so that one request to the timer
/// is out at any time and never two; and only a tick applies a setting.
pub proof fn lemma_after_wf(state: ControlLoop, event: Event)
    requires
        state.wf(),
    ensures
        state.after(event).wf(),
        state.action(event).restore <==> state.state != LoopState::Terminated && state.after(
            event,
        ).state == LoopState::Terminated,
        state.state == LoopState::Terminated ==> state.after(event).state == LoopState::Terminated
            && state.action(event) == Action::idle(),
        state.state == LoopState::Terminated && event != Event::BackendFailed ==> state.after(event)
            == state,
        state.after(event).state == LoopState::Running ==> state.state == LoopState::Running,
        state.failed ==> state.after(event).failed,
        state.action(event).sleep_ms.is_some() <==> event is Tick && state.after(event).state
            != LoopState::Terminated,
        state.action(event).apply.is_some() ==> event is Tick && state.state
            != LoopState::Terminated,
{
    lemma_stepped_wf(state.scheme);
}

/// The display is restored exactly once on every way out: over any sequence
/// of events, a loop that has not ended is told to restore once if the
/// events end it and never if they do not; a loop that has ended is never
/// told again.
pub proof fn lemma_restore_exactly_once(state: ControlLoop, events: Seq<Event>)
    requires
        state.wf(),
    ensures
        state.after_all(events).wf(),
        state.state == LoopState::Terminated ==> state.restores(events) == 0 && state.after_all(
            events,
        ).state == LoopState::Terminated,
        state.state != LoopState::Terminated ==> state.restores(events) == (if state.after_all(
            events,
        ).state == LoopState::Terminated {
            1nat
        } else {
            0nat
        }),
    decreases events.len(),
{
    if events.len() > 0 {
        lemma_after_wf(state, events[0]);
        lemma_restore_exactly_once(state.after(events[0]), events.drop_first());
    }
}

/// A request to stop that arrives once: the loop goes from running to
/// exiting with the fade armed at a tenth; the first tick after it takes the
/// fade down by a twentieth, to a twentieth, and asks for a short sleep; the
/// second takes it down by another twentieth, to nothing, which ends the
/// fade and the loop, and says to restore. Over the three events the loop is
/// told to restore exactly once. This holds at whatever elevations the two
/// ticks find the sun.
pub proof fn lemma_shutdown_fade(state: ControlLoop, first: i64, second: i64)
    requires
        state.wf(),
        state.state == LoopState::Running,
    ensures
        ({
            let asked = state.after(Event::Signal);
            let faded = asked.after(Event::Tick(first));
            let done = faded.after(Event::Tick(second));
            &&& asked.state == LoopState::Exiting
            &&& state.action(Event::Signal) == Action::idle()
            &&& asked.scheme.adjustment_alpha == EXIT_FADE_ALPHA
            &&& asked.scheme.short_trans_delta == -1
            &&& asked.scheme.short_trans_len == 2
            &&& faded.state == LoopState::Exiting
            &&& faded.scheme.adjustment_alpha == asked.scheme.adjustment_alpha - 50_000
            &&& faded.scheme.fading()
            &&& asked.action(Event::Tick(first)).sleep_ms == Some(SHORT_TICK_MS)
            &&& !asked.action(Event::Tick(first)).restore
            &&& done.state == LoopState::Terminated
            &&& done.scheme.adjustment_alpha == faded.scheme.adjustment_alpha - 50_000
            &&& done.scheme.adjustment_alpha == 0
            &&& !done.scheme.fading()
            &&& faded.action(Event::Tick(second)).restore
            &&& faded.action(Event::Tick(second)).sleep_ms.is_none()
            &&& state.restores(seq![Event::Signal, Event::Tick(first), Event::Tick(second)]) == 1
        }),
{
    let asked = state.after(Event::Signal);
    let faded = asked.after(Event::Tick(first));
    let done = faded.after(Event::Tick(second));
    assert(asked.scheme.fade_step() == -50_000) by {
        assert((-1) * 100_000 == -100_000);
        assert(100_000int / 2 == 50_000);
    }
    assert(faded.scheme.fade_step() == -50_000) by {
        assert((-1) * 100_000 == -100_000);
        assert(100_000int / 2 == 50_000);
    }
    let events = seq![Event::Signal, Event::Tick(first), Event::Tick(second)];
    lemma_after_wf(state, Event::Signal);
    lemma_after_wf(asked, Event::Tick(first));
    lemma_restore_exactly_once(state, events);
    assert(events.drop_first() =~= seq![Event::Tick(first), Event::Tick(second)]);
    assert(events.drop_first().drop_first() =~= seq![Event::Tick(second)]);
    assert(events.drop_first().drop_first().drop_first() =~= Seq::<Event>::empty());
    assert(state.after_all(events) == done) by {
        assert(events[0] == Event::Signal);
        assert(events.drop_first()[0] == Event::Tick(first));
        assert(events.drop_first().drop_first()[0] == Event::Tick(second));
        assert(done.after_all(Seq::<Event>::empty()) == done);
        assert(faded.after_all(events.drop_first().drop_first()) == done);
        assert(asked.after_all(events.drop_first()) == done);
    }
}

/// A second request to stop ends the loop at once, whatever the fade is
/// doing, and says to restore.
pub proof fn lemma_second_signal_forces_exit(state: ControlLoop)
    requires
        state.wf(),
        state.state == LoopState::Exiting,
    ensures
        state.after(Event::Signal).state == LoopState::Terminated,
        state.action(Event::Signal) == Action::leave(),
        state.after(Event::Signal).scheme == state.scheme,
{
}

/// A failure of the backend ends the loop at once from wherever it stands,
/// says to restore, and leaves the loop marked as failed.
pub proof fn lemma_failure_is_fatal(state: ControlLoop)
    requires
        state.wf(),
        state.state != LoopState::Terminated,
    ensures
        state.after(Event::BackendFailed).state == LoopState::Terminated,
        state.after(Event::BackendFailed).failed,
        state.action(Event::BackendFailed) == Action::leave(),
{
}

/// While no fade runs and nobody asked to stop, a tick applies the scheme's
/// own setting for the elevation, asks for a long sleep, and applies nothing
/// when the same setting was applied last.
pub proof fn lemma_steady_tick(state: ControlLoop, elevation: i64)
    requires
        state.wf(),
        state.state == LoopState::Running,
        !state.scheme.fading(),
    ensures
        state.after(Event::Tick(elevation)).state == LoopState::Running,
        state.after(Event::Tick(elevation)).scheme == state.scheme,
        state.action(Event::Tick(elevation)).sleep_ms == Some(LONG_TICK_MS),
        state.action(Event::Tick(elevation)).apply.is_some() <==> state.applied != Some(
            state.scheme.setting_at(elevation as int),
        ),
        state.after(Event::Tick(elevation)).action(Event::Tick(elevation)).apply.is_none(),
{
    lemma_fade_idempotent(state.scheme);
}

} // verus!
