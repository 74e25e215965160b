//! User preferences: their model, their validity, the built-in defaults and
//! the rule by which stored preferences are taken over.

use crate::session::{TimerConfig, MS_PER_MINUTE};
use vstd::prelude::*;

verus! {

/// The user's preferences. Durations are whole minutes, volumes are percent.
#[derive(Clone, Debug, PartialEq, Eq)]
pub struct JsonSettings {
    pub always_on_top: bool,
    pub auto_start_focus_timer: bool,
    pub auto_start_break_timer: bool,
    pub minimize_to_tray: bool,
    pub minimize_to_tray_on_close: bool,
    pub notifications: bool,
    pub focus: i32,
    pub short_break: i32,
    pub long_break: i32,
    pub rounds: i32,
    pub ambient_volume: i32,
    pub alerts_volume: i32,
    pub theme: String,
    pub song: String,
}

/// Mathematical model of the preferences.
pub struct SettingsView {
    pub always_on_top: bool,
    pub auto_start_focus_timer: bool,
    pub auto_start_break_timer: bool,
    pub minimize_to_tray: bool,
    pub minimize_to_tray_on_close: bool,
    pub notifications: bool,
    pub focus: int,
    pub short_break: int,
    pub long_break: int,
    pub rounds: int,
    pub ambient_volume: int,
    pub alerts_volume: int,
    pub theme: Seq<char>,
    pub song: Seq<char>,
}

impl View for JsonSettings {
    type V = SettingsView;

    open spec fn view(&self) -> SettingsView {
        SettingsView {
            always_on_top: self.always_on_top,
            auto_start_focus_timer: self.auto_start_focus_timer,
            auto_start_break_timer: self.auto_start_break_timer,
            minimize_to_tray: self.minimize_to_tray,
            minimize_to_tray_on_close: self.minimize_to_tray_on_close,
            notifications: self.notifications,
            focus: self.focus as int,
            short_break: self.short_break as int,
            long_break: self.long_break as int,
            rounds: self.rounds as int,
            ambient_volume: self.ambient_volume as int,
            alerts_volume: self.alerts_volume as int,
            theme: self.theme@,
            song: self.song@,
        }
    }
}

impl SettingsView {
    /// Every duration is at least one minute, there is at least one round,
    /// and both volumes lie in `[0, 100]`.
    pub open spec fn is_valid(self) -> bool {
        &&& 1 <= self.focus <= i32::MAX
        &&& 1 <= self.short_break <= i32::MAX
        &&& 1 <= self.long_break <= i32::MAX
        &&& 1 <= self.rounds <= i32::MAX
        &&& 0 <= self.ambient_volume <= 100
        &&& 0 <= self.alerts_volume <= 100
    }

    /// What the session engine works from: the durations in milliseconds,
    /// the rounds and the two auto-start flags.
    pub open spec fn timer_config(self) -> TimerConfig {
        TimerConfig {
            focus: (self.focus * MS_PER_MINUTE) as u64,
            short_break: (self.short_break * MS_PER_MINUTE) as u64,
            long_break: (self.long_break * MS_PER_MINUTE) as u64,
            rounds: self.rounds as u32,
            auto_start_focus: self.auto_start_focus_timer,
            auto_start_break: self.auto_start_break_timer,
        }
    }
}

/// The preferences that are switched on and off.
#[derive(Clone, Copy, Debug, PartialEq, Eq, Structural)]
pub enum BoolSettingTypes {
    AlwaysOnTop,
    AutoStartFocusTimer,
    AutoStartBreakTimer,
    MinimizeToTray,
    MinimizeToTrayOnClose,
    Notifications,
}

/// The preferences that hold a number.
#[derive(Clone, Copy, Debug, PartialEq, Eq, Structural)]
pub enum IntSettingTypes {
    Focus,
    ShortBreak,
    LongBreak,
    Rounds,
    AmbientVolume,
    AlertsVolume,
}

/// `value`, raised to one where it is below.
pub open spec fn at_least_one(value: int) -> int {
    if value < 1 {
        1
    } else {
        value
    }
}

/// `value` clamped to `[0, 100]`.
pub open spec fn clamp_percent(value: int) -> int {
    if value < 0 {
        0
    } else if value > 100 {
        100
    } else {
        value
    }
}

impl SettingsView {
    /// The preferences after the switch `kind`, shown as `value`, was
    /// toggled.
    pub open spec fn with_toggled(self, kind: BoolSettingTypes, value: bool) -> SettingsView {
        match kind {
            BoolSettingTypes::AlwaysOnTop => SettingsView { always_on_top: !value, ..self },
            BoolSettingTypes::AutoStartFocusTimer => SettingsView {
                auto_start_focus_timer: !value,
                ..self
            },
            BoolSettingTypes::AutoStartBreakTimer => SettingsView {
                auto_start_break_timer: !value,
                ..self
            },
            BoolSettingTypes::MinimizeToTray => SettingsView { minimize_to_tray: !value, ..self },
            BoolSettingTypes::MinimizeToTrayOnClose => SettingsView {
                minimize_to_tray_on_close: !value,
                ..self
            },
            BoolSettingTypes::Notifications => SettingsView { notifications: !value, ..self },
        }
    }

    /// The preferences after the number `kind` was set to `value`. A
    /// duration or a number of rounds below one becomes one; a volume is
    /// clamped to `[0, 100]`.
    pub open spec fn with_number(self, kind: IntSettingTypes, value: int) -> SettingsView {
        match kind {
            IntSettingTypes::Focus => SettingsView { focus: at_least_one(value), ..self },
            IntSettingTypes::ShortBreak => SettingsView {
                short_break: at_least_one(value),
                ..self
            },
            IntSettingTypes::LongBreak => SettingsView { long_break: at_least_one(value), ..self },
            IntSettingTypes::Rounds => SettingsView { rounds: at_least_one(value), ..self },
            IntSettingTypes::AmbientVolume => SettingsView {
                ambient_volume: clamp_percent(value),
                ..self
            },
            IntSettingTypes::AlertsVolume => SettingsView {
                alerts_volume: clamp_percent(value),
                ..self
            },
        }
    }
}

/// The built-in preferences.
pub open spec fn default_settings_view() -> SettingsView {
    SettingsView {
        always_on_top: false,
        auto_start_focus_timer: true,
        auto_start_break_timer: true,
        minimize_to_tray: false,
        minimize_to_tray_on_close: false,
        notifications: true,
        focus: 25,
        short_break: 5,
        long_break: 15,
        rounds: 4,
        ambient_volume: 50,
        alerts_volume: 50,
        theme: "Eclipse"@,
        song: "Colorful Flowers"@,
    }
}

/// The preferences that are in force for what was found in the store: the
/// stored ones where they are there and valid, the built-in ones otherwise.
pub open spec fn loaded_settings(stored: Option<SettingsView>) -> SettingsView {
    match stored {
        Some(found) => if found.is_valid() {
            found
        } else {
            default_settings_view()
        },
        None => default_settings_view(),
    }
}

impl JsonSettings {
    /// Whether the preferences are valid.
    pub open spec fn is_valid(&self) -> bool {
        self@.is_valid()
    }

    /// Runtime test of [`JsonSettings::is_valid`].
    pub fn check(&self) -> (ok: bool)
        ensures
            ok == self.is_valid(),
    {
        self.focus >= 1 && self.short_break >= 1 && self.long_break >= 1 && self.rounds >= 1
            && 0 <= self.ambient_volume && self.ambient_volume <= 100 && 0 <= self.alerts_volume
            && self.alerts_volume <= 100
    }

    /// A copy with the same contents.
    pub fn duplicate(&self) -> (copy: JsonSettings)
        ensures
            copy@ == self@,
    {
        JsonSettings {
            always_on_top: self.always_on_top,
            auto_start_focus_timer: self.auto_start_focus_timer,
            auto_start_break_timer: self.auto_start_break_timer,
            minimize_to_tray: self.minimize_to_tray,
            minimize_to_tray_on_close: self.minimize_to_tray_on_close,
            notifications: self.notifications,
            focus: self.focus,
            short_break: self.short_break,
            long_break: self.long_break,
            rounds: self.rounds,
            ambient_volume: self.ambient_volume,
            alerts_volume: self.alerts_volume,
            theme: self.theme.clone(),
            song: self.song.clone(),
        }
    }

    /// The engine's view of valid preferences.
    pub fn timer_config(&self) -> (config: TimerConfig)
        requires
            self.is_valid(),
        ensures
            config == self@.timer_config(),
            config.wf(),
    {
        TimerConfig {
            focus: self.focus as u64 * MS_PER_MINUTE,
            short_break: self.short_break as u64 * MS_PER_MINUTE,
            long_break: self.long_break as u64 * MS_PER_MINUTE,
            rounds: self.rounds as u32,
            auto_start_focus: self.auto_start_focus_timer,
            auto_start_break: self.auto_start_break_timer,
        }
    }
}

impl JsonSettings {
    /// The preferences after the switch `kind`, shown as `value`, was
    /// toggled.
    pub fn toggled(&self, kind: BoolSettingTypes, value: bool) -> (settings: JsonSettings)
        ensures
            settings@ == self@.with_toggled(kind, value),
            self.is_valid() ==> settings.is_valid(),
    {
        let mut settings: JsonSettings = self.duplicate();
        match kind {
            BoolSettingTypes::AlwaysOnTop => {
                settings.always_on_top = !value;
            },
            BoolSettingTypes::AutoStartFocusTimer => {
                settings.auto_start_focus_timer = !value;
            },
            BoolSettingTypes::AutoStartBreakTimer => {
                settings.auto_start_break_timer = !value;
            },
            BoolSettingTypes::MinimizeToTray => {
                settings.minimize_to_tray = !value;
            },
            BoolSettingTypes::MinimizeToTrayOnClose => {
                settings.minimize_to_tray_on_close = !value;
            },
            BoolSettingTypes::Notifications => {
                settings.notifications = !value;
            },
        }
        settings
    }

    /// The preferences after the number `kind` was set to `value`, brought
    /// into its range.
    pub fn with_number(&self, kind: IntSettingTypes, value: i32) -> (settings: JsonSettings)
        ensures
            settings@ == self@.with_number(kind, value as int),
            self.is_valid() ==> settings.is_valid(),
    {
        let at_least_one: i32 = if value < 1 {
            1
        } else {
            value
        };
        let percent: i32 = if value < 0 {
            0
        } else if value > 100 {
            100
        } else {
            value
        };
        let mut settings: JsonSettings = self.duplicate();
        match kind {
            IntSettingTypes::Focus => {
                settings.focus = at_least_one;
            },
            IntSettingTypes::ShortBreak => {
                settings.short_break = at_least_one;
            },
            IntSettingTypes::LongBreak => {
                settings.long_break = at_least_one;
            },
            IntSettingTypes::Rounds => {
                settings.rounds = at_least_one;
            },
            IntSettingTypes::AmbientVolume => {
                settings.ambient_volume = percent;
            },
            IntSettingTypes::AlertsVolume => {
                settings.alerts_volume = percent;
            },
        }
        settings
    }
}


/// The built-in preferences.
pub fn default_settings() -> (settings: JsonSettings)
    ensures
        settings@ == default_settings_view(),
        settings.is_valid(),
{
    JsonSettings {
        always_on_top: false,
        auto_start_focus_timer: true,
        auto_start_break_timer: true,
        minimize_to_tray: false,
        minimize_to_tray_on_close: false,
        notifications: true,
        focus: 25,
        short_break: 5,
        long_break: 15,
        rounds: 4,
        ambient_volume: 50,
        alerts_volume: 50,
        theme: "Eclipse".to_owned(),
        song: "Colorful Flowers".to_owned(),
    }
}

/// Decides which preferences are in force. `stored` is what the preference
/// file held: `None` where it was absent or unreadable. Stored preferences
/// that are not valid count as unreadable. The result is always valid.
pub fn load_settings(stored: Option<JsonSettings>) -> (settings: JsonSettings)
    ensures
        settings.is_valid(),
        settings@ == loaded_settings(
            match stored {
                Some(found) => Some(found@),
                None => None,
            },
        ),
{
    match stored {
        Some(found) => {
            if found.check() {
                found
            } else {
                default_settings()
            }
        },
        None => default_settings(),
    }
}

/// Valid preferences that were stored are the preferences that are loaded.
pub proof fn stored_settings_are_loaded(stored: SettingsView)
    requires
        stored.is_valid(),
    ensures
        loaded_settings(Some(stored)) == stored,
{
}

/// Whatever the store held, the loaded durations are at least one minute and
/// there is at least one round.
pub proof fn loaded_settings_are_valid(stored: Option<SettingsView>)
    ensures
        loaded_settings(stored).is_valid(),
        loaded_settings(stored).focus >= 1,
        loaded_settings(stored).short_break >= 1,
        loaded_settings(stored).long_break >= 1,
        loaded_settings(stored).rounds >= 1,
{
}

} // verus!
