//! The state behind the application window, and what the user interface
//! controller decides when the view calls back.

use crate::session::{AudioCommand, Session, SessionState, TimerAction, TimerConfig};
use crate::settings::{BoolSettingTypes, IntSettingTypes, JsonSettings, SettingsView};
use crate::tasks::{task_views, Task, TaskView};
use crate::themes::{JsonTheme, Rgb, ThemeColors};
use vstd::prelude::*;

verus! {

/// What the audio adapter has to do, with the song and the volume that are
/// in force: `Play` plays this song at this volume, `SetVolume` applies this
/// volume.
#[derive(Clone, Debug, PartialEq, Eq)]
pub struct Playback {
    pub command: AudioCommand,
    /// The name of the selected song.
    pub song: String,
    /// The ambient volume in percent, at most one hundred.
    pub volume: u8,
}

/// What is left to do after a preference changed: the preferences are
/// written to the store, and the audio adapter may get a command.
#[derive(Debug)]
pub struct Change {
    /// The preferences to persist.
    pub saved: JsonSettings,
    /// The command for the audio adapter.
    pub audio: Playback,
}

/// Mathematical model of a [`Playback`].
pub struct PlaybackView {
    pub command: AudioCommand,
    pub song: Seq<char>,
    pub volume: int,
}

impl View for Playback {
    type V = PlaybackView;

    open spec fn view(&self) -> PlaybackView {
        PlaybackView { command: self.command, song: self.song@, volume: self.volume as int }
    }
}

/// The command that a changed number sends to the audio adapter: a changed
/// ambient volume is applied at once.
pub open spec fn audio_for_number(kind: IntSettingTypes) -> AudioCommand {
    match kind {
        IntSettingTypes::AmbientVolume => AudioCommand::SetVolume,
        _ => AudioCommand::Keep,
    }
}

/// Mathematical model of the window state.
pub struct WindowView {
    pub settings: SettingsView,
    pub session: SessionState,
    pub theme_index: nat,
    pub palette: ThemeColors<Rgb>,
    pub tasks: Seq<TaskView>,
}

impl WindowView {
    /// The invariant of the window state: the preferences are valid, the
    /// session is well formed and works from these preferences.
    pub open spec fn wf(self) -> bool {
        &&& self.settings.is_valid()
        &&& self.session.wf()
        &&& self.session.config == self.settings.timer_config()
    }

    /// The command `command` with the song and the volume of these
    /// preferences.
    pub open spec fn playback(self, command: AudioCommand) -> PlaybackView {
        PlaybackView {
            command,
            song: self.settings.song,
            volume: self.settings.ambient_volume,
        }
    }

    /// The window state with other preferences; the session takes them over.
    pub open spec fn with_settings(self, settings: SettingsView) -> WindowView {
        WindowView {
            settings,
            session: self.session.reconfigure(settings.timer_config()),
            ..self
        }
    }
}

/// The state behind the application window: the preferences as the view
/// shows them, the session, the theme in use and the list of the day.
#[derive(Debug)]
pub struct AppWindow {
    settings: JsonSettings,
    session: Session,
    theme_index: usize,
    palette: ThemeColors<Rgb>,
    tasks: Vec<Task>,
}

impl View for AppWindow {
    type V = WindowView;

    closed spec fn view(&self) -> WindowView {
        WindowView {
            settings: self.settings@,
            session: self.session@,
            theme_index: self.theme_index as nat,
            palette: self.palette,
            tasks: task_views(self.tasks@),
        }
    }
}

impl AppWindow {
    /// Whether the window state satisfies its invariant.
    pub open spec fn wf(&self) -> bool {
        self@.wf()
    }

    /// Runtime test of [`AppWindow::wf`].
    pub fn is_wf(&self) -> (ok: bool)
        ensures
            ok == self.wf(),
    {
        if !self.settings.check() || !self.session.is_wf() {
            return false;
        }
        let expected: TimerConfig = self.settings.timer_config();
        let actual: TimerConfig = self.session.config();
        expected.focus == actual.focus && expected.short_break == actual.short_break
            && expected.long_break == actual.long_break && expected.rounds == actual.rounds
            && expected.auto_start_focus == actual.auto_start_focus && expected.auto_start_break
            == actual.auto_start_break
    }

    /// The window state at start: the given preferences, a session in its
    /// initial state, the given theme and no tasks.
    pub fn new(settings: &JsonSettings, theme_index: usize, theme: &JsonTheme) -> (window:
        AppWindow)
        requires
            settings.is_valid(),
        ensures
            window.wf(),
            window@.settings == settings@,
            window@.session == SessionState::initial(settings@.timer_config()),
            window@.theme_index == theme_index,
            window@.palette == theme@.colors,
            window@.tasks == Seq::<TaskView>::empty(),
    {
        let window = AppWindow {
            settings: settings.duplicate(),
            session: Session::new(settings.timer_config()),
            theme_index,
            palette: theme.colors,
            tasks: Vec::new(),
        };
        assert(task_views(window.tasks@) =~= Seq::<TaskView>::empty());
        window
    }

    /// Shows `settings` in the view; the session takes them over.
    pub fn set_settings(&mut self, settings: &JsonSettings)
        requires
            old(self).wf(),
            settings.is_valid(),
        ensures
            final(self)@ == old(self)@.with_settings(settings@),
            final(self).wf(),
    {
        self.settings = settings.duplicate();
        self.session.set_config(settings.timer_config());
    }

    /// The preferences as the view shows them, to be written to the store.
    pub fn save_settings(&self) -> (saved: JsonSettings)
        ensures
            saved@ == self@.settings,
    {
        self.settings.duplicate()
    }

    /// The session.
    pub fn session(&self) -> (session: &Session)
        ensures
            session@ == self@.session,
    {
        &self.session
    }

    /// `command` with the song and the volume in force.
    fn playback(&self, command: AudioCommand) -> (playback: Playback)
        requires
            self.wf(),
        ensures
            playback@ == self@.playback(command),
            playback.volume <= 100,
    {
        Playback {
            command,
            song: self.settings.song.clone(),
            volume: self.settings.ambient_volume as u8,
        }
    }

    /// The name of the selected song.
    pub fn song(&self) -> (song: &str)
        ensures
            song@ == self@.settings.song,
    {
        self.settings.song.as_str()
    }

    /// The ambient volume in percent, for the audio adapter.
    pub fn ambient_volume(&self) -> (percent: u8)
        requires
            self.wf(),
        ensures
            percent == self@.settings.ambient_volume,
            percent <= 100,
    {
        self.settings.ambient_volume as u8
    }

    /// The position of the theme in use in the catalogue.
    pub fn theme_index(&self) -> (index: usize)
        ensures
            index == self@.theme_index,
    {
        self.theme_index
    }

    /// The palette of the theme in use.
    pub fn palette(&self) -> (palette: ThemeColors<Rgb>)
        ensures
            palette == self@.palette,
    {
        self.palette
    }

    /// The list of the day as the view shows it.
    pub fn tasks(&self) -> (tasks: &Vec<Task>)
        ensures
            task_views(tasks@) == self@.tasks,
    {
        &self.tasks
    }

    /// Shows a refreshed list of the day.
    pub fn set_tasks(&mut self, tasks: Vec<Task>)
        ensures
            final(self)@ == (WindowView { tasks: task_views(tasks@), ..old(self)@ }),
    {
        self.tasks = tasks;
    }

    /// A switch of the view was toggled: `value` is what it showed before.
    pub fn bool_changed(&mut self, kind: BoolSettingTypes, value: bool) -> (change: Change)
        requires
            old(self).wf(),
        ensures
            final(self)@ == old(self)@.with_settings(old(self)@.settings.with_toggled(kind, value)),
            final(self).wf(),
            change.saved@ == final(self)@.settings,
            change.audio@ == final(self)@.playback(AudioCommand::Keep),
    {
        let settings: JsonSettings = self.settings.toggled(kind, value);
        self.set_settings(&settings);
        Change { saved: self.settings.duplicate(), audio: self.playback(AudioCommand::Keep) }
    }

    /// A number of the view was set to `value`.
    pub fn int_changed(&mut self, kind: IntSettingTypes, value: i32) -> (change: Change)
        requires
            old(self).wf(),
        ensures
            final(self)@ == old(self)@.with_settings(
                old(self)@.settings.with_number(kind, value as int),
            ),
            final(self).wf(),
            change.saved@ == final(self)@.settings,
            change.audio@ == final(self)@.playback(audio_for_number(kind)),
    {
        let settings: JsonSettings = self.settings.with_number(kind, value);
        self.set_settings(&settings);
        let command: AudioCommand = match kind {
            IntSettingTypes::AmbientVolume => AudioCommand::SetVolume,
            _ => AudioCommand::Keep,
        };
        Change { saved: self.settings.duplicate(), audio: self.playback(command) }
    }

    /// Another theme was chosen: its name becomes the preference, its palette
    /// is published to the view.
    pub fn theme_changed(&mut self, index: usize, theme: &JsonTheme) -> (change: Change)
        requires
            old(self).wf(),
        ensures
            final(self)@ == (WindowView {
                settings: SettingsView { theme: theme@.name, ..old(self)@.settings },
                theme_index: index as nat,
                palette: theme@.colors,
                ..old(self)@
            }),
            final(self).wf(),
            change.saved@ == final(self)@.settings,
            change.audio@ == final(self)@.playback(AudioCommand::Keep),
    {
        self.settings.theme = theme.name.clone();
        self.theme_index = index;
        self.palette = theme.colors;
        Change { saved: self.settings.duplicate(), audio: self.playback(AudioCommand::Keep) }
    }

    /// Another song was chosen: its name becomes the preference, and a
    /// running session plays it from now on.
    pub fn song_changed(&mut self, song: &str) -> (change: Change)
        requires
            old(self).wf(),
        ensures
            final(self)@ == (WindowView {
                settings: SettingsView { song: song@, ..old(self)@.settings },
                ..old(self)@
            }),
            final(self).wf(),
            change.saved@ == final(self)@.settings,
            change.audio@ == final(self)@.playback(
                if old(self)@.session.active {
                    AudioCommand::Play
                } else {
                    AudioCommand::Keep
                },
            ),
    {
        self.settings.song = song.to_owned();
        let command: AudioCommand = if self.session.is_active() {
            AudioCommand::Play
        } else {
            AudioCommand::Keep
        };
        Change { saved: self.settings.duplicate(), audio: self.playback(command) }
    }

    /// The user started, stopped, reset or skipped the timer. A start plays
    /// the selected song at the ambient volume.
    pub fn action_timer(&mut self, action: TimerAction) -> (audio: Playback)
        requires
            old(self).wf(),
        ensures
            final(self)@ == (WindowView {
                session: old(self)@.session.apply(action),
                ..old(self)@
            }),
            final(self).wf(),
            audio@ == final(self)@.playback(SessionState::audio_for(action)),
    {
        let command: AudioCommand = self.session.action_timer(action);
        self.playback(command)
    }

    /// Enters the next phase.
    pub fn change_timer(&mut self)
        requires
            old(self).wf(),
        ensures
            final(self)@ == (WindowView {
                session: old(self)@.session.transition(),
                ..old(self)@
            }),
            final(self).wf(),
    {
        self.session.change_timer();
    }

    /// The tick timer fired after `delta` milliseconds. Returns whether the
    /// phase changed.
    pub fn tick(&mut self, delta: u64) -> (phase_changed: bool)
        requires
            old(self).wf(),
        ensures
            final(self)@ == (WindowView { session: old(self)@.session.tick(delta), ..old(self)@ }),
            final(self).wf(),
            phase_changed == old(self)@.session.tick_ends_phase(delta),
    {
        self.session.tick(delta)
    }
}

} // verus!
