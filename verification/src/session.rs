//! The session engine: focus, short-break and long-break phases, the intents
//! that drive them, and tick accounting.

use vstd::prelude::*;

verus! {

/// Milliseconds in one minute.
pub const MS_PER_MINUTE: u64 = 60_000;

/// Nominal cadence of the tick timer, in milliseconds.
pub const TICK_MS: u64 = 50;

/// The progress value that stands for a full ring: 100 %, in thousandths of a
/// percent.
pub const FULL_PROGRESS: u32 = 100_000;

/// The phase a session is in.
#[derive(Clone, Copy, Debug, PartialEq, Eq, Structural)]
pub enum TimerType {
    Focus,
    ShortBreak,
    LongBreak,
}

/// A user intent consumed by the engine.
#[derive(Clone, Copy, Debug, PartialEq, Eq, Structural)]
pub enum TimerAction {
    Start,
    Stop,
    Reset,
    Skip,
}

/// What the audio adapter has to do after an intent.
#[derive(Clone, Copy, Debug, PartialEq, Eq, Structural)]
pub enum AudioCommand {
    /// Leave the adapter as it is.
    Keep,
    /// Start looped playback of the selected song at the ambient volume.
    Play,
    /// Pause playback, keeping the loaded source.
    Pause,
    /// Stop playback and discard the loaded source.
    Stop,
    /// Apply the ambient volume at once.
    SetVolume,
}

/// The preferences the engine works from. Durations are in milliseconds.
#[derive(Clone, Copy, Debug, PartialEq, Eq, Structural)]
pub struct TimerConfig {
    pub focus: u64,
    pub short_break: u64,
    pub long_break: u64,
    /// Focus rounds before a long break.
    pub rounds: u32,
    pub auto_start_focus: bool,
    pub auto_start_break: bool,
}

impl TimerConfig {
    /// Every duration is positive and there is at least one round.
    pub open spec fn wf(self) -> bool {
        &&& self.focus > 0
        &&& self.short_break > 0
        &&& self.long_break > 0
        &&& self.rounds >= 1
    }

    /// Runtime test of [`TimerConfig::wf`].
    pub fn is_wf(&self) -> (ok: bool)
        ensures
            ok == self.wf(),
    {
        self.focus > 0 && self.short_break > 0 && self.long_break > 0 && self.rounds >= 1
    }
}

/// Mathematical model of a session.
pub struct SessionState {
    pub config: TimerConfig,
    pub active_timer: TimerType,
    pub active_round: u32,
    pub target_time: u64,
    pub remaining_time: u64,
    pub active: bool,
}

impl SessionState {
    /// The invariant of a session: the round lies in `[1, rounds]`, a short
    /// break never follows the last round, the phase has a positive length,
    /// and some of it, at most all of it, remains.
    pub open spec fn wf(self) -> bool {
        &&& self.config.wf()
        &&& 1 <= self.active_round <= self.config.rounds
        &&& self.active_timer == TimerType::ShortBreak ==> self.active_round < self.config.rounds
        &&& 0 < self.remaining_time <= self.target_time
    }

    /// The state a session starts in: focus, round one, the whole focus
    /// duration ahead, not running.
    pub open spec fn initial(config: TimerConfig) -> SessionState {
        SessionState {
            config,
            active_timer: TimerType::Focus,
            active_round: 1,
            target_time: config.focus,
            remaining_time: config.focus,
            active: false,
        }
    }

    /// The phase that follows the current one.
    pub open spec fn next_timer(self) -> TimerType {
        match self.active_timer {
            TimerType::Focus => if self.active_round == self.config.rounds {
                TimerType::LongBreak
            } else {
                TimerType::ShortBreak
            },
            TimerType::ShortBreak => TimerType::Focus,
            TimerType::LongBreak => TimerType::Focus,
        }
    }

    /// The round the following phase belongs to.
    pub open spec fn next_round(self) -> u32 {
        match self.active_timer {
            TimerType::Focus => if self.active_round == self.config.rounds {
                1u32
            } else {
                self.active_round
            },
            TimerType::ShortBreak => (self.active_round + 1) as u32,
            TimerType::LongBreak => 1u32,
        }
    }

    /// The configured length of a phase.
    pub open spec fn duration_of(self, timer: TimerType) -> u64 {
        match timer {
            TimerType::Focus => self.config.focus,
            TimerType::ShortBreak => self.config.short_break,
            TimerType::LongBreak => self.config.long_break,
        }
    }

    /// Whether a running session keeps running when it enters `timer`.
    pub open spec fn auto_starts(self, timer: TimerType) -> bool {
        match timer {
            TimerType::Focus => self.config.auto_start_focus,
            TimerType::ShortBreak => self.config.auto_start_break,
            TimerType::LongBreak => self.config.auto_start_break,
        }
    }

    /// The phase change: the next phase is entered with its whole duration
    /// ahead; the session keeps running only if it ran and the new phase
    /// starts by itself.
    pub open spec fn transition(self) -> SessionState {
        let timer = self.next_timer();
        SessionState {
            config: self.config,
            active_timer: timer,
            active_round: self.next_round(),
            target_time: self.duration_of(timer),
            remaining_time: self.duration_of(timer),
            active: self.active && self.auto_starts(timer),
        }
    }

    /// The state after a user intent.
    pub open spec fn apply(self, action: TimerAction) -> SessionState {
        match action {
            TimerAction::Start => SessionState { active: true, ..self },
            TimerAction::Stop => SessionState { active: false, ..self },
            TimerAction::Reset => SessionState { active: false, ..Self::initial(self.config) },
            TimerAction::Skip => self.transition(),
        }
    }

    /// Whether a tick of `delta` milliseconds ends the current phase.
    pub open spec fn tick_ends_phase(self, delta: u64) -> bool {
        self.active && delta >= self.remaining_time
    }

    /// The state after `delta` milliseconds have passed. A session that is
    /// not running ignores the tick.
    pub open spec fn tick(self, delta: u64) -> SessionState {
        if !self.active {
            self
        } else if delta < self.remaining_time {
            SessionState { remaining_time: (self.remaining_time - delta) as u64, ..self }
        } else {
            self.transition()
        }
    }

    /// The state after the preferences changed. The current phase keeps its
    /// length. A focus round beyond the new number of rounds becomes the last
    /// round; a short break after such a round becomes the long break that
    /// closes the cycle.
    pub open spec fn reconfigure(self, config: TimerConfig) -> SessionState {
        if self.active_timer == TimerType::ShortBreak && self.active_round >= config.rounds {
            SessionState { config, active_timer: TimerType::LongBreak, active_round: 1, ..self }
        } else if self.active_round > config.rounds {
            SessionState { config, active_round: config.rounds, ..self }
        } else {
            SessionState { config, ..self }
        }
    }

    /// What the audio adapter is asked to do for an intent.
    pub open spec fn audio_for(action: TimerAction) -> AudioCommand {
        match action {
            TimerAction::Start => AudioCommand::Play,
            TimerAction::Stop => AudioCommand::Pause,
            TimerAction::Reset => AudioCommand::Stop,
            TimerAction::Skip => AudioCommand::Keep,
        }
    }

    /// Remaining share of the current phase in thousandths of a percent,
    /// never more than [`FULL_PROGRESS`].
    pub open spec fn progress(self) -> int {
        if self.target_time == 0 || self.remaining_time >= self.target_time {
            FULL_PROGRESS as int
        } else {
            (self.remaining_time * FULL_PROGRESS) / (self.target_time as int)
        }
    }
}

/// A session: the state the engine owns between intents and ticks.
#[derive(Clone, Copy, Debug)]
pub struct Session {
    config: TimerConfig,
    active_timer: TimerType,
    active_round: u32,
    target_time: u64,
    remaining_time: u64,
    active: bool,
}

impl View for Session {
    type V = SessionState;

    closed spec fn view(&self) -> SessionState {
        SessionState {
            config: self.config,
            active_timer: self.active_timer,
            active_round: self.active_round,
            target_time: self.target_time,
            remaining_time: self.remaining_time,
            active: self.active,
        }
    }
}

impl Session {
    /// Whether the session satisfies its invariant.
    pub open spec fn wf(&self) -> bool {
        self@.wf()
    }

    /// A session in its initial state.
    pub fn new(config: TimerConfig) -> (session: Session)
        requires
            config.wf(),
        ensures
            session@ == SessionState::initial(config),
            session.wf(),
    {
        Session {
            config,
            active_timer: TimerType::Focus,
            active_round: 1,
            target_time: config.focus,
            remaining_time: config.focus,
            active: false,
        }
    }

    /// Runtime test of [`Session::wf`].
    pub fn is_wf(&self) -> (ok: bool)
        ensures
            ok == self.wf(),
    {
        let short_break_allowed: bool = match self.active_timer {
            TimerType::ShortBreak => self.active_round < self.config.rounds,
            _ => true,
        };
        self.config.is_wf() && 1 <= self.active_round && self.active_round <= self.config.rounds
            && short_break_allowed && 0 < self.remaining_time && self.remaining_time
            <= self.target_time
    }

    /// The preferences the session works from.
    pub fn config(&self) -> (config: TimerConfig)
        ensures
            config == self@.config,
    {
        self.config
    }

    /// The current phase.
    pub fn active_timer(&self) -> (timer: TimerType)
        ensures
            timer == self@.active_timer,
    {
        self.active_timer
    }

    /// The current round, counted from one.
    pub fn active_round(&self) -> (round: u32)
        ensures
            round == self@.active_round,
    {
        self.active_round
    }

    /// The length of the current phase in milliseconds.
    pub fn target_time(&self) -> (ms: u64)
        ensures
            ms == self@.target_time,
    {
        self.target_time
    }

    /// What remains of the current phase, in milliseconds.
    pub fn remaining_time(&self) -> (ms: u64)
        ensures
            ms == self@.remaining_time,
    {
        self.remaining_time
    }

    /// Whether the tick loop is running.
    pub fn is_active(&self) -> (active: bool)
        ensures
            active == self@.active,
    {
        self.active
    }

    /// Enters the next phase, whatever time remains.
    pub fn change_timer(&mut self)
        requires
            old(self).wf(),
        ensures
            final(self)@ == old(self)@.transition(),
            final(self).wf(),
    {
        let timer: TimerType = match self.active_timer {
            TimerType::Focus => {
                if self.active_round == self.config.rounds {
                    TimerType::LongBreak
                } else {
                    TimerType::ShortBreak
                }
            },
            TimerType::ShortBreak => TimerType::Focus,
            TimerType::LongBreak => TimerType::Focus,
        };
        let round: u32 = match self.active_timer {
            TimerType::Focus => {
                if self.active_round == self.config.rounds {
                    1
                } else {
                    self.active_round
                }
            },
            TimerType::ShortBreak => self.active_round + 1,
            TimerType::LongBreak => 1,
        };
        let (duration, auto_start): (u64, bool) = match timer {
            TimerType::Focus => (self.config.focus, self.config.auto_start_focus),
            TimerType::ShortBreak => (self.config.short_break, self.config.auto_start_break),
            TimerType::LongBreak => (self.config.long_break, self.config.auto_start_break),
        };
        self.active_timer = timer;
        self.active_round = round;
        self.target_time = duration;
        self.remaining_time = duration;
        self.active = self.active && auto_start;
    }

    /// Applies a user intent and says what the audio adapter has to do.
    pub fn action_timer(&mut self, action: TimerAction) -> (audio: AudioCommand)
        requires
            old(self).wf(),
        ensures
            final(self)@ == old(self)@.apply(action),
            audio == SessionState::audio_for(action),
            final(self).wf(),
    {
        match action {
            TimerAction::Start => {
                self.active = true;
                AudioCommand::Play
            },
            TimerAction::Stop => {
                self.active = false;
                AudioCommand::Pause
            },
            TimerAction::Reset => {
                self.active = false;
                self.active_timer = TimerType::Focus;
                self.active_round = 1;
                self.target_time = self.config.focus;
                self.remaining_time = self.config.focus;
                AudioCommand::Stop
            },
            TimerAction::Skip => {
                self.change_timer();
                AudioCommand::Keep
            },
        }
    }

    /// Accounts for `delta` elapsed milliseconds. Returns whether the phase
    /// changed.
    pub fn tick(&mut self, delta: u64) -> (phase_changed: bool)
        requires
            old(self).wf(),
        ensures
            final(self)@ == old(self)@.tick(delta),
            phase_changed == old(self)@.tick_ends_phase(delta),
            final(self).wf(),
    {
        if !self.active {
            false
        } else if delta < self.remaining_time {
            self.remaining_time = self.remaining_time - delta;
            false
        } else {
            self.change_timer();
            true
        }
    }

    /// Takes over changed preferences.
    pub fn set_config(&mut self, config: TimerConfig)
        requires
            old(self).wf(),
            config.wf(),
        ensures
            final(self)@ == old(self)@.reconfigure(config),
            final(self).wf(),
    {
        self.config = config;
        let after_last_round: bool = self.active_round >= config.rounds;
        match self.active_timer {
            TimerType::ShortBreak => {
                if after_last_round {
                    self.active_timer = TimerType::LongBreak;
                    self.active_round = 1;
                }
            },
            _ => {
                if self.active_round > config.rounds {
                    self.active_round = config.rounds;
                }
            },
        }
    }

    /// Remaining share of the current phase in thousandths of a percent.
    pub fn progress(&self) -> (p: u32)
        ensures
            p == self@.progress(),
            p <= FULL_PROGRESS,
    {
        if self.target_time == 0 || self.remaining_time >= self.target_time {
            FULL_PROGRESS
        } else {
            let scaled: u128 = (self.remaining_time as u128) * (FULL_PROGRESS as u128);
            let p: u128 = scaled / (self.target_time as u128);
            assert(p < FULL_PROGRESS) by (nonlinear_arith)
                requires
                    p == (self.remaining_time * FULL_PROGRESS) / (self.target_time as int),
                    self.remaining_time < self.target_time,
                    self.target_time > 0,
            ;
            p as u32
        }
    }
}

/// Every session starts inside its invariant.
pub proof fn initial_state_is_well_formed(config: TimerConfig)
    requires
        config.wf(),
    ensures
        SessionState::initial(config).wf(),
        SessionState::initial(config).active_round == 1,
        SessionState::initial(config).remaining_time == SessionState::initial(config).target_time,
{
}

/// A phase change always loads a whole phase of positive length: afterwards
/// the remaining time equals the target time, and the target time is not zero.
pub proof fn transition_loads_whole_phase(state: SessionState)
    requires
        state.wf(),
    ensures
        state.transition().remaining_time == state.transition().target_time,
        state.transition().target_time > 0,
        state.transition().wf(),
{
}

/// The round stays in `[1, rounds]` under every intent.
pub proof fn intent_keeps_round_in_range(state: SessionState, action: TimerAction)
    requires
        state.wf(),
    ensures
        state.apply(action).wf(),
        1 <= state.apply(action).active_round <= state.apply(action).config.rounds,
{
}

/// The round stays in `[1, rounds]` under every tick.
pub proof fn tick_keeps_round_in_range(state: SessionState, delta: u64)
    requires
        state.wf(),
    ensures
        state.tick(delta).wf(),
        1 <= state.tick(delta).active_round <= state.tick(delta).config.rounds,
{
}

/// The round stays in `[1, rounds]` when the preferences change, also when
/// the number of rounds shrinks below the current round.
pub proof fn reconfigure_keeps_round_in_range(state: SessionState, config: TimerConfig)
    requires
        state.wf(),
        config.wf(),
    ensures
        state.reconfigure(config).wf(),
        1 <= state.reconfigure(config).active_round <= config.rounds,
{
}

/// A tick that ends a phase leaves a whole phase ahead; any other tick of a
/// running session takes exactly `delta` off the remaining time.
pub proof fn tick_accounts_for_elapsed_time(state: SessionState, delta: u64)
    requires
        state.wf(),
        state.active,
    ensures
        state.tick_ends_phase(delta) ==> state.tick(delta) == state.transition(),
        !state.tick_ends_phase(delta) ==> state.tick(delta).remaining_time + delta
            == state.remaining_time,
{
}

/// Two `Stop` intents leave the state that one leaves.
pub proof fn stop_is_idempotent(state: SessionState)
    ensures
        state.apply(TimerAction::Stop).apply(TimerAction::Stop) == state.apply(TimerAction::Stop),
        state.apply(TimerAction::Stop).remaining_time == state.remaining_time,
{
}

/// Two `Reset` intents leave the state that one leaves.
pub proof fn reset_is_idempotent(state: SessionState)
    ensures
        state.apply(TimerAction::Reset).apply(TimerAction::Reset) == state.apply(
            TimerAction::Reset,
        ),
{
}

/// The remaining share never exceeds a full ring, and a whole phase ahead is a
/// full ring.
pub proof fn progress_is_bounded(state: SessionState)
    requires
        state.wf(),
    ensures
        0 <= state.progress() <= FULL_PROGRESS,
        state.remaining_time == state.target_time ==> state.progress() == FULL_PROGRESS,
{
    if state.remaining_time < state.target_time {
        let r = state.remaining_time as int;
        let t = state.target_time as int;
        assert(0 <= (r * 100_000) / t <= 100_000) by (nonlinear_arith)
            requires
                0 < r < t,
        ;
    }
}

} // verus!
