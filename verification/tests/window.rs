use tranquilo::session::{AudioCommand, TimerAction, TimerType};
use tranquilo::settings::{default_settings, BoolSettingTypes, IntSettingTypes};
use tranquilo::tasks::{Task, TaskStatus};
use tranquilo::themes::{default_theme, load_themes, JsonThemeTemplate};
use tranquilo::window::{AppWindow, Playback};

fn playback(command: AudioCommand, song: &str, volume: u8) -> Playback {
    Playback { command, song: song.to_string(), volume }
}

fn window() -> AppWindow {
    let theme = default_theme().into_theme().unwrap();
    AppWindow::new(&default_settings(), 0, &theme)
}

#[test]
fn window_starts_from_the_preferences() {
    let w = window();
    assert_eq!(w.save_settings(), default_settings());
    assert_eq!(w.session().active_timer(), TimerType::Focus);
    assert_eq!(w.session().active_round(), 1);
    assert_eq!(w.session().target_time(), 1_500_000);
    assert_eq!(w.session().remaining_time(), 1_500_000);
    assert!(!w.session().is_active());
    assert_eq!(w.session().config(), default_settings().timer_config());
    assert_eq!(w.theme_index(), 0);
    assert_eq!(w.palette(), default_theme().into_theme().unwrap().colors);
    assert_eq!(w.song(), "Colorful Flowers");
    assert_eq!(w.ambient_volume(), 50);
    assert!(w.tasks().is_empty());
}

#[test]
fn volume_change_during_play_reaches_the_adapter() {
    let mut w = window();
    assert_eq!(
        w.action_timer(TimerAction::Start),
        playback(AudioCommand::Play, "Colorful Flowers", 50)
    );
    assert_eq!(w.ambient_volume(), 50);
    let change = w.int_changed(IntSettingTypes::AmbientVolume, 10);
    assert_eq!(change.audio, playback(AudioCommand::SetVolume, "Colorful Flowers", 10));
    assert_eq!(f32::from(change.audio.volume) / 100.0, 0.10);
    let mut expected = default_settings();
    expected.ambient_volume = 10;
    assert_eq!(change.saved, expected);
    assert_eq!(w.save_settings(), expected);
    assert_eq!(w.ambient_volume(), 10);
    assert!(w.session().is_active());
}

#[test]
fn volume_is_clamped_before_it_reaches_the_adapter() {
    let mut w = window();
    assert_eq!(
        w.int_changed(IntSettingTypes::AmbientVolume, 130).audio,
        playback(AudioCommand::SetVolume, "Colorful Flowers", 100)
    );
    assert_eq!(
        w.int_changed(IntSettingTypes::AmbientVolume, -4).audio,
        playback(AudioCommand::SetVolume, "Colorful Flowers", 0)
    );
    assert_eq!(w.save_settings().ambient_volume, 0);
    assert_eq!(
        w.int_changed(IntSettingTypes::AlertsVolume, 70).audio,
        playback(AudioCommand::Keep, "Colorful Flowers", 0)
    );
    assert_eq!(w.save_settings().alerts_volume, 70);
}

#[test]
fn changed_durations_are_saved_and_reach_the_session() {
    let mut w = window();
    let change = w.int_changed(IntSettingTypes::ShortBreak, 7);
    assert_eq!(change.audio.command, AudioCommand::Keep);
    assert_eq!(change.saved.short_break, 7);
    assert_eq!(w.session().config().short_break, 420_000);
    w.change_timer();
    assert_eq!(w.session().target_time(), 420_000);

    let change = w.int_changed(IntSettingTypes::Focus, 0);
    assert_eq!(change.saved.focus, 1);
    assert_eq!(w.session().config().focus, 60_000);
}

#[test]
fn changed_rounds_keep_the_round_in_range() {
    let mut w = window();
    for _ in 0..6 {
        w.action_timer(TimerAction::Skip);
    }
    assert_eq!(w.session().active_round(), 4);
    let change = w.int_changed(IntSettingTypes::Rounds, 2);
    assert_eq!(change.saved.rounds, 2);
    assert_eq!(w.session().active_round(), 2);
    assert_eq!(w.session().active_timer(), TimerType::Focus);
}

#[test]
fn toggled_switch_is_saved() {
    let mut w = window();
    let change = w.bool_changed(BoolSettingTypes::AutoStartBreakTimer, true);
    assert_eq!(change.audio, playback(AudioCommand::Keep, "Colorful Flowers", 50));
    assert!(!change.saved.auto_start_break_timer);
    assert!(!w.session().config().auto_start_break);

    w.action_timer(TimerAction::Start);
    assert!(w.tick(1_500_000));
    assert!(!w.session().is_active());

    let change = w.bool_changed(BoolSettingTypes::AlwaysOnTop, false);
    assert!(change.saved.always_on_top);
    assert_eq!(w.save_settings(), change.saved);
}

#[test]
fn chosen_theme_is_saved_and_published() {
    let themes = load_themes(vec![JsonThemeTemplate {
        name: "Nord".to_string(),
        colors: {
            let mut c = default_theme().colors;
            c.accent = "#88c0d0".to_string();
            c
        },
    }]);
    let mut w = window();
    let change = w.theme_changed(3, &themes[0]);
    assert_eq!(change.saved.theme, "Nord");
    assert_eq!(change.audio.command, AudioCommand::Keep);
    assert_eq!(w.theme_index(), 3);
    assert_eq!(w.palette(), themes[0].colors);
    assert_eq!(w.palette().accent.r, 0x88);
    assert_eq!(w.save_settings().theme, "Nord");
}

#[test]
fn chosen_song_plays_at_once_in_a_running_session() {
    let mut w = window();
    let change = w.song_changed("Rain");
    assert_eq!(change.audio, playback(AudioCommand::Keep, "Rain", 50));
    assert_eq!(change.saved.song, "Rain");
    assert_eq!(w.song(), "Rain");

    w.action_timer(TimerAction::Start);
    let change = w.song_changed("Waves");
    assert_eq!(change.audio, playback(AudioCommand::Play, "Waves", 50));
    assert_eq!(w.song(), "Waves");
    assert_eq!(w.save_settings().song, "Waves");
}

#[test]
fn timer_intents_reach_the_session() {
    let mut w = window();
    assert_eq!(w.action_timer(TimerAction::Start).command, AudioCommand::Play);
    assert!(!w.tick(50));
    assert_eq!(w.session().remaining_time(), 1_499_950);
    assert_eq!(w.action_timer(TimerAction::Stop).command, AudioCommand::Pause);
    assert_eq!(w.session().remaining_time(), 1_499_950);
    assert_eq!(w.action_timer(TimerAction::Skip).command, AudioCommand::Keep);
    assert_eq!(w.session().active_timer(), TimerType::ShortBreak);
    assert_eq!(
        w.action_timer(TimerAction::Reset),
        playback(AudioCommand::Stop, "Colorful Flowers", 50)
    );
    assert_eq!(w.session().active_timer(), TimerType::Focus);
    assert_eq!(w.session().progress(), 100_000);
}

#[test]
fn shown_preferences_can_be_replaced() {
    let mut w = window();
    let mut p = default_settings();
    p.focus = 40;
    p.song = "Rain".to_string();
    w.set_settings(&p);
    assert_eq!(w.save_settings(), p);
    assert_eq!(w.session().config().focus, 2_400_000);
    assert_eq!(w.session().target_time(), 1_500_000);
}

#[test]
fn refreshed_list_is_shown() {
    let mut w = window();
    let task = Task {
        id: "2".to_string(),
        text: "write".to_string(),
        status: TaskStatus::Pending,
        timestamp: "2024-05-01 12:00:00 UTC".to_string(),
    };
    w.set_tasks(vec![task.clone()]);
    assert_eq!(w.tasks(), &vec![task]);
    w.set_tasks(Vec::new());
    assert!(w.tasks().is_empty());
}

#[test]
fn window_state_stays_well_formed() {
    let mut w = window();
    assert!(w.is_wf());
    w.action_timer(TimerAction::Start);
    w.tick(1_500_000);
    w.int_changed(IntSettingTypes::Rounds, 1);
    w.bool_changed(BoolSettingTypes::AutoStartFocusTimer, true);
    w.song_changed("Rain");
    assert!(w.is_wf());
    assert!(w.session().is_wf());
}
