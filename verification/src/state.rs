//! The state of the sleep mode and what the timer does with it.
use vstd::prelude::*;

use crate::clock::{shown, Moment, WallClock};
use crate::settings::{default_settings, effective, effective_at, EffSettings, SleepSettings};

verus! {

/// How far the deck has gone to sleep.
#[derive(Clone, Copy, PartialEq, Eq, Structural, Debug)]
pub enum Phase {
    Awake,
    Dim,
    Off,
}

/// A recorded brightness that stands for none at all, so that the next tick of
/// the timer applies one.
pub const UNAPPLIED: u8 = 255;

/// The state of the sleep mode.
#[derive(Debug)]
pub struct SleepState {
    pub last_activity: Moment,
    pub phase: Phase,
    pub settings: SleepSettings,
    pub timer_started: bool,
    pub enabled: bool,
    /// The button's instance, and empty as long as there is none.
    pub context: String,
    /// The brightness that was applied last.
    pub last_brightness: u8,
}

/// What one tick of the timer sees.
#[derive(Clone, Copy, PartialEq, Eq, Structural, Debug)]
pub struct Observation {
    pub phase: Phase,
    pub enabled: bool,
    /// Seconds without activity.
    pub elapsed: u64,
    pub eff: EffSettings,
    pub last_brightness: u8,
}

/// A phase to go to, and the brightness to go there with.
#[derive(Clone, Copy, PartialEq, Eq, Structural, Debug)]
pub struct Transition {
    pub phase: Phase,
    pub brightness: u8,
}

/// Something to be carried out.
#[derive(Clone, Copy, PartialEq, Eq, Structural, Debug)]
pub enum Effect {
    /// Switch the display off, by the report of [`crate::device::hid_sleep_report`].
    HidSleep,
    /// Set the brightness, by the messages of [`crate::device::brightness_request`].
    Brightness(u8),
    /// Take this transition, by [`SleepState::commit`].
    Commit(Transition),
    /// Note this brightness as the one applied last, by
    /// [`SleepState::record_brightness`].
    RecordBrightness(u8),
    /// Show this on the button, by [`SleepState::button_messages`].
    Button { phase: Phase, enabled: bool },
    /// Show this in the property inspector, by [`SleepState::inspector_message`].
    Report { phase: Phase, enabled: bool },
    /// Write the status file, with the text of [`Observation::status_text`].
    WriteStatus(Observation),
}

impl EffSettings {
    /// The phase that is due after `idle` seconds without activity.
    pub open spec fn phase_after(self, idle: u64) -> Phase {
        if !self.no_off && idle >= self.off_at {
            Phase::Off
        } else if idle >= self.dim_at {
            Phase::Dim
        } else {
            Phase::Awake
        }
    }

    /// The brightness that goes with a phase.
    pub open spec fn brightness_in(self, phase: Phase) -> u8 {
        match phase {
            Phase::Awake => self.normal_br,
            Phase::Dim => self.dim_br,
            Phase::Off => 0,
        }
    }

    /// The phase that is due after `elapsed` seconds without activity.
    pub fn target_phase(&self, elapsed: u64) -> (phase: Phase)
        ensures
            phase == self.phase_after(elapsed),
    {
        if !self.no_off && elapsed >= self.off_at {
            Phase::Off
        } else if elapsed >= self.dim_at {
            Phase::Dim
        } else {
            Phase::Awake
        }
    }

    /// The brightness that goes with `phase`.
    pub fn brightness_for(&self, phase: &Phase) -> (brightness: u8)
        ensures
            brightness == self.brightness_in(*phase),
    {
        match phase {
            Phase::Awake => self.normal_br,
            Phase::Dim => self.dim_br,
            Phase::Off => 0,
        }
    }
}

impl Observation {
    /// Where the tick leads: nowhere while the sleep mode is disabled, and
    /// nowhere if phase and brightness are already those that are due.
    pub open spec fn next(self) -> Option<Transition> {
        let phase = self.eff.phase_after(self.elapsed);
        let brightness = self.eff.brightness_in(phase);
        if self.enabled && (phase != self.phase || brightness != self.last_brightness) {
            Some(Transition { phase, brightness })
        } else {
            None
        }
    }

    /// What the tick carries out: it tells how things stand, and then makes
    /// the transition, if it leads anywhere.
    pub open spec fn carries_out(self) -> Seq<Effect> {
        let told = seq![
            Effect::WriteStatus(self),
            Effect::Report { phase: self.phase, enabled: self.enabled },
        ];
        match self.next() {
            Some(transition) => told + transition.carries_out(),
            None => told,
        }
    }

    /// Decides where the tick leads.
    pub fn decide(&self) -> (transition: Option<Transition>)
        ensures
            transition == self.next(),
    {
        if !self.enabled {
            return None;
        }
        let target = self.eff.target_phase(self.elapsed);
        let target_br: u8 = self.eff.brightness_for(&target);
        if target != self.phase || target_br != self.last_brightness {
            Some(Transition { phase: target, brightness: target_br })
        } else {
            None
        }
    }

    /// What the tick carries out, in order.
    pub fn effects(&self) -> (effects: Vec<Effect>)
        ensures
            effects@ == self.carries_out(),
    {
        let mut effects = vec![
            Effect::WriteStatus(*self),
            Effect::Report { phase: self.phase, enabled: self.enabled },
        ];
        match self.decide() {
            Some(transition) => {
                let mut further = transition.effects();
                effects.append(&mut further);
            },
            None => {},
        }
        effects
    }
}

impl Transition {
    /// What the transition carries out: it is taken, the display is switched
    /// off where the phase is `Off` and its brightness set otherwise, and the
    /// button follows.
    pub open spec fn carries_out(self) -> Seq<Effect> {
        seq![
            Effect::Commit(self),
            if self.phase == Phase::Off {
                Effect::HidSleep
            } else {
                Effect::Brightness(self.brightness)
            },
            Effect::Button { phase: self.phase, enabled: true },
        ]
    }

    /// What the transition carries out, in order.
    pub fn effects(&self) -> (effects: Vec<Effect>)
        ensures
            effects@ == self.carries_out(),
    {
        let display = if self.phase == Phase::Off {
            Effect::HidSleep
        } else {
            Effect::Brightness(self.brightness)
        };
        vec![
            Effect::Commit(*self),
            display,
            Effect::Button { phase: self.phase, enabled: true },
        ]
    }
}

impl SleepState {
    /// What a tick at the moment `at` and the time of day `now` sees.
    pub open spec fn seen(self, at: Moment, now: WallClock) -> Observation {
        Observation {
            phase: self.phase,
            enabled: self.enabled,
            elapsed: at.secs_since(self.last_activity),
            eff: self.settings.values_at(now),
            last_brightness: self.last_brightness,
        }
    }

    /// The state after a transition.
    pub open spec fn after(self, transition: Transition) -> SleepState {
        SleepState {
            phase: transition.phase,
            last_brightness: transition.brightness,
            ..self
        }
    }

    /// The state after the timer was claimed.
    pub open spec fn claimed(self) -> SleepState {
        SleepState { timer_started: true, ..self }
    }

    /// The state after a read from the deck at the moment `at`: the number of
    /// bytes, or `None` for a failed read.
    pub open spec fn after_read(self, read: Option<usize>, at: Moment) -> SleepState {
        if self.enabled && read is Some && read->0 > 0 {
            SleepState { last_activity: at, ..self }
        } else {
            self
        }
    }

    /// The state after a brightness was noted.
    pub open spec fn recorded(self, brightness: u8) -> SleepState {
        SleepState { last_brightness: brightness, ..self }
    }

    /// The state after a whole tick at the moment `at` and the time of day
    /// `now`, in which nothing else happens to it.
    pub open spec fn ticked(self, at: Moment, now: WallClock) -> SleepState {
        match self.seen(at, now).next() {
            Some(transition) => self.after(transition),
            None => self,
        }
    }

    /// The state at the start of the program, with default settings and no
    /// brightness applied yet.
    pub fn new(at: Moment) -> (state: SleepState)
        ensures
            state.last_activity == at,
            state.phase == Phase::Awake,
            state.settings == default_settings(),
            !state.timer_started,
            state.enabled,
            state.context@.len() == 0,
            state.last_brightness == UNAPPLIED,
    {
        SleepState {
            last_activity: at,
            phase: Phase::Awake,
            settings: SleepSettings::default(),
            timer_started: false,
            enabled: true,
            context: String::new(),
            last_brightness: UNAPPLIED,
        }
    }

    /// Claims the start of the timer; only the first caller gets it.
    pub fn claim_timer(&mut self) -> (first: bool)
        ensures
            first == !old(self).timer_started,
            *final(self) == old(self).claimed(),
    {
        let first = !self.timer_started;
        self.timer_started = true;
        first
    }

    /// What the timer sees in a tick at the moment `at` and the time of day
    /// `now`.
    pub fn observe_at(&self, at: &Moment, now: &WallClock) -> (seen: Observation)
        requires
            now.wf(),
            self.settings.fits_at(*now),
        ensures
            seen == self.seen(*at, *now),
    {
        Observation {
            phase: self.phase,
            enabled: self.enabled,
            elapsed: at.elapsed_since(&self.last_activity),
            eff: effective_at(&self.settings, now),
            last_brightness: self.last_brightness,
        }
    }

    /// What the timer sees in a tick at the moment `at`, by the local clock.
    pub fn observe(&self, at: &Moment) -> (seen: Observation)
        requires
            self.settings.fits(),
        ensures
            exists|now: WallClock| #[trigger] now.wf() && seen == self.seen(*at, now),
            self.settings.night_enabled ==> exists|now: WallClock| #[trigger]
                shown(now) && now.wf() && seen == self.seen(*at, now),
    {
        Observation {
            phase: self.phase,
            enabled: self.enabled,
            elapsed: at.elapsed_since(&self.last_activity),
            eff: effective(&self.settings),
            last_brightness: self.last_brightness,
        }
    }

    /// Takes the transition that a tick has led to, whatever has happened since
    /// the tick saw the state.
    pub fn commit(&mut self, transition: &Transition)
        ensures
            *final(self) == old(self).after(*transition),
    {
        self.phase = transition.phase;
        self.last_brightness = transition.brightness;
    }

    /// Notes `brightness` as the one applied last.
    pub fn record_brightness(&mut self, brightness: u8)
        ensures
            *final(self) == old(self).recorded(brightness),
    {
        self.last_brightness = brightness;
    }

    /// Takes the outcome of one read from the deck at the moment `at`: the
    /// number of bytes, or `None` for a failed read. A press on the deck ends
    /// the idle time while the sleep mode is enabled. Returns whether to go on
    /// reading.
    pub fn deck_read(&mut self, read: Option<usize>, at: Moment) -> (go_on: bool)
        ensures
            go_on == read is Some,
            *final(self) == old(self).after_read(read, at),
    {
        match read {
            Some(n) => {
                if n > 0 && self.enabled {
                    self.last_activity = at;
                }
                true
            },
            None => false,
        }
    }
}

} // verus!
