use resonance::control_bar::{
    load_art_visible, ArtUpdate, BarInputs, ControlBar, RevealUpdate, TrackInfo, WindowPage,
};
use resonance::controls::{
    button_command, popover_offset, sync_playing, sync_prev_next, ControlButton, PlayerCommand,
    TransportSensitivity,
};
use resonance::menu::create_menu;
use resonance::repeat::{repeat_mode_from_setting, set_repeat_mode_ui, RepeatHighlights, RepeatMode};

fn track(cover_art: Option<i64>) -> TrackInfo {
    TrackInfo {
        title: "Song".to_string(),
        album: "Record".to_string(),
        artist: "Band".to_string(),
        duration_text: "3:25".to_string(),
        cover_art,
    }
}

fn inputs(playing: bool, revealed: bool, folded: bool) -> BarInputs {
    BarInputs { playing, has_next: true, has_previous: false, revealed, folded }
}

fn revealed_after(revealed: bool, u: RevealUpdate) -> bool {
    u.action_bar_revealed.unwrap_or(revealed)
}

#[test]
fn repeat_setting_decodes_each_mode() {
    assert_eq!(repeat_mode_from_setting(0), RepeatMode::Normal);
    assert_eq!(repeat_mode_from_setting(1), RepeatMode::Loop);
    assert_eq!(repeat_mode_from_setting(2), RepeatMode::LoopSong);
    assert_eq!(repeat_mode_from_setting(3), RepeatMode::Shuffle);
}

#[test]
fn repeat_setting_out_of_range_is_normal() {
    assert_eq!(repeat_mode_from_setting(4), RepeatMode::Normal);
    assert_eq!(repeat_mode_from_setting(-1), RepeatMode::Normal);
    assert_eq!(repeat_mode_from_setting(i32::MAX), RepeatMode::Normal);
}

#[test]
fn repeat_highlights_light_one_button() {
    let none = RepeatHighlights { shuffle: false, loop_queue: false, loop_song: false };
    assert_eq!(set_repeat_mode_ui(RepeatMode::Normal), none);
    assert_eq!(
        set_repeat_mode_ui(RepeatMode::Loop),
        RepeatHighlights { shuffle: false, loop_queue: true, loop_song: false }
    );
    assert_eq!(
        set_repeat_mode_ui(RepeatMode::LoopSong),
        RepeatHighlights { shuffle: false, loop_queue: false, loop_song: true }
    );
    assert_eq!(
        set_repeat_mode_ui(RepeatMode::Shuffle),
        RepeatHighlights { shuffle: true, loop_queue: false, loop_song: false }
    );
}

#[test]
fn buttons_send_their_commands() {
    assert_eq!(button_command(ControlButton::Play), PlayerCommand::TogglePlayPause);
    assert_eq!(button_command(ControlButton::Previous), PlayerCommand::Previous);
    assert_eq!(button_command(ControlButton::Next), PlayerCommand::Next);
    assert_eq!(button_command(ControlButton::Loop), PlayerCommand::ChangeRepeat(RepeatMode::Loop));
    assert_eq!(button_command(ControlButton::Repeat), PlayerCommand::ChangeRepeat(RepeatMode::LoopSong));
    assert_eq!(button_command(ControlButton::Shuffle), PlayerCommand::ChangeRepeat(RepeatMode::Shuffle));
}

#[test]
fn play_button_offers_pause_while_playing() {
    let look = sync_playing(true);
    assert_eq!(look.icon_name, "media-playback-pause-symbolic");
    assert_eq!(look.tooltip, "Pause");
    let look = sync_playing(false);
    assert_eq!(look.icon_name, "media-playback-start-symbolic");
    assert_eq!(look.tooltip, "Play");
}

#[test]
fn play_and_next_follow_has_next() {
    assert_eq!(
        sync_prev_next(true, false),
        TransportSensitivity { play: true, previous: false, next: true }
    );
    assert_eq!(
        sync_prev_next(false, true),
        TransportSensitivity { play: false, previous: true, next: false }
    );
}

#[test]
fn popover_offset_is_relative_to_middle_and_bottom() {
    assert_eq!(popover_offset(100, 20, 301, 50), (-50, -30));
    assert_eq!(popover_offset(0, 0, 0, 0), (0, 0));
    assert_eq!(popover_offset(10, 5, -5, -7), (12, 12));
}

#[test]
fn menu_has_playback_and_navigate_sections() {
    let menu = create_menu();
    assert_eq!(menu.len(), 2);
    assert_eq!(menu[0].label, "Playback");
    let playback: Vec<(&str, &str)> =
        menu[0].entries.iter().map(|e| (e.label.as_str(), e.action.as_str())).collect();
    assert_eq!(
        playback,
        vec![
            ("Toggle Play Pause", "win.toggle-play-pause"),
            ("Previous", "win.prev"),
            ("Next", "win.next"),
            ("End Queue", "win.end-queue"),
        ]
    );
    assert_eq!(menu[1].label, "Navigate");
    assert_eq!(menu[1].entries.len(), 1);
    assert_eq!(menu[1].entries[0].label, "Go to Queue");
    assert_eq!(menu[1].entries[0].action, "win.go-to-queue");
}

#[test]
fn initialize_lights_stored_mode_and_builds_menu() {
    let init = ControlBar::initialize(3);
    assert_eq!(init.repeat, RepeatHighlights { shuffle: true, loop_queue: false, loop_song: false });
    assert_eq!(init.menu.len(), 2);
    let init = ControlBar::initialize(9);
    assert_eq!(init.repeat, RepeatHighlights { shuffle: false, loop_queue: false, loop_song: false });
}

#[test]
fn new_bar_is_empty() {
    let bar = ControlBar::new();
    assert!(bar.empty());
    assert_eq!(bar.window_page(), WindowPage::Albums);
}

#[test]
fn window_page_is_remembered() {
    let mut bar = ControlBar::new();
    bar.set_window_page(WindowPage::Queue);
    assert_eq!(bar.window_page(), WindowPage::Queue);
    bar.set_window_page(WindowPage::Genres);
    assert_eq!(bar.window_page(), WindowPage::Genres);
}

#[test]
fn showing_a_track_fills_the_bar_and_reveals_it() {
    let mut bar = ControlBar::new();
    let u = bar.update_current_track(Some(track(Some(42))), inputs(true, false, true));
    assert!(!bar.empty());
    assert_eq!(bar.track().title, "Song");
    assert_eq!(u.spent_time, "0:00");
    let labels = u.labels.unwrap();
    assert_eq!(labels.title, "Song");
    assert_eq!(labels.album, "Record");
    assert_eq!(labels.artist, "Band");
    assert_eq!(u.duration, " / 3:25");
    assert_eq!(u.play_sensitive, Some(true));
    assert!(u.next_sensitive);
    assert!(!u.previous_sensitive);
    assert_eq!(u.art, ArtUpdate::Load(42));
    assert_eq!(
        u.reveal,
        RevealUpdate { action_bar_revealed: Some(true), progress_bar_visible: Some(true) }
    );
}

#[test]
fn track_without_art_hides_art_and_unfolded_keeps_progress_bar() {
    let mut bar = ControlBar::new();
    let u = bar.update_current_track(Some(track(None)), inputs(false, false, false));
    assert_eq!(u.art, ArtUpdate::Hide);
    assert_eq!(
        u.reveal,
        RevealUpdate { action_bar_revealed: Some(true), progress_bar_visible: None }
    );
}

#[test]
fn no_track_hides_the_bar() {
    let mut bar = ControlBar::new();
    bar.update_current_track(Some(track(Some(1))), inputs(true, false, false));
    let u = bar.update_current_track(None, inputs(true, true, true));
    assert!(bar.empty());
    assert!(u.labels.is_none());
    assert_eq!(u.spent_time, "0:00");
    assert_eq!(u.duration, " / 0:00");
    assert_eq!(u.play_sensitive, None);
    assert!(!u.previous_sensitive);
    assert!(!u.next_sensitive);
    assert_eq!(u.art, ArtUpdate::Hide);
    assert_eq!(
        u.reveal,
        RevealUpdate { action_bar_revealed: Some(false), progress_bar_visible: Some(false) }
    );
}

#[test]
fn queue_page_hides_the_bar() {
    let mut bar = ControlBar::new();
    bar.update_current_track(Some(track(None)), inputs(true, false, false));
    bar.set_window_page(WindowPage::Queue);
    let u = bar.set_revealed(true, inputs(true, true, false));
    assert_eq!(u, RevealUpdate { action_bar_revealed: Some(false), progress_bar_visible: Some(false) });
    let u = bar.set_revealed(true, inputs(true, false, false));
    assert_eq!(u, RevealUpdate { action_bar_revealed: None, progress_bar_visible: None });
    let u = bar.update_view(inputs(false, false, true));
    assert_eq!(u.reveal, RevealUpdate { action_bar_revealed: None, progress_bar_visible: None });
}

#[test]
fn hide_request_is_ignored_while_playing() {
    let mut bar = ControlBar::new();
    bar.update_current_track(Some(track(None)), inputs(true, false, false));
    let u = bar.set_revealed(false, inputs(true, true, false));
    assert_eq!(u, RevealUpdate { action_bar_revealed: None, progress_bar_visible: None });
    let u = bar.set_revealed(false, inputs(false, true, false));
    assert_eq!(u, RevealUpdate { action_bar_revealed: Some(false), progress_bar_visible: None });
}

#[test]
fn reveal_decision_is_idempotent() {
    let mut bar = ControlBar::new();
    bar.update_current_track(Some(track(None)), inputs(false, false, true));
    for &(reveal, playing, revealed, folded) in &[
        (true, false, false, true),
        (false, false, true, false),
        (true, true, true, true),
        (false, true, false, true),
    ] {
        let first = bar.set_revealed(reveal, inputs(playing, revealed, folded));
        let now = revealed_after(revealed, first);
        let second = bar.set_revealed(reveal, inputs(playing, now, folded));
        assert_eq!(second, RevealUpdate { action_bar_revealed: None, progress_bar_visible: None });
    }
}

#[test]
fn art_shows_only_when_loaded() {
    assert!(load_art_visible(ArtUpdate::Load(7), true));
    assert!(!load_art_visible(ArtUpdate::Load(7), false));
    assert!(!load_art_visible(ArtUpdate::Hide, true));
}
