use vstd::prelude::*;
use crate::repeat::RepeatMode;

verus! {

/// The buttons of the control bar that act on the player when clicked.
#[derive(Clone, Copy, Debug, PartialEq, Eq, Structural)]
pub enum ControlButton {
    Play,
    Previous,
    Next,
    Loop,
    Repeat,
    Shuffle,
}

/// A request to the player.
#[derive(Clone, Copy, Debug, PartialEq, Eq, Structural)]
pub enum PlayerCommand {
    TogglePlayPause,
    Previous,
    Next,
    /// Ask the queue to change to this repeat mode.
    ChangeRepeat(RepeatMode),
}

/// The request that a click on each button makes.
pub open spec fn spec_command_for_button(button: ControlButton) -> PlayerCommand {
    match button {
        ControlButton::Play => PlayerCommand::TogglePlayPause,
        ControlButton::Previous => PlayerCommand::Previous,
        ControlButton::Next => PlayerCommand::Next,
        ControlButton::Loop => PlayerCommand::ChangeRepeat(RepeatMode::Loop),
        ControlButton::Repeat => PlayerCommand::ChangeRepeat(RepeatMode::LoopSong),
        ControlButton::Shuffle => PlayerCommand::ChangeRepeat(RepeatMode::Shuffle),
    }
}

/// The play button toggles play and pause, previous and next move in the
/// queue, and the loop, repeat and shuffle buttons ask for the `Loop`,
/// `LoopSong` and `Shuffle` modes; only those three change the repeat mode.
pub proof fn lemma_button_commands(button: ControlButton)
    ensures
        (spec_command_for_button(button) == PlayerCommand::TogglePlayPause) <==> button == ControlButton::Play,
        (spec_command_for_button(button) == PlayerCommand::Previous) <==> button == ControlButton::Previous,
        (spec_command_for_button(button) == PlayerCommand::Next) <==> button == ControlButton::Next,
        (spec_command_for_button(button) == PlayerCommand::ChangeRepeat(RepeatMode::Loop)) <==> button
            == ControlButton::Loop,
        (spec_command_for_button(button) == PlayerCommand::ChangeRepeat(RepeatMode::LoopSong)) <==> button
            == ControlButton::Repeat,
        (spec_command_for_button(button) == PlayerCommand::ChangeRepeat(RepeatMode::Shuffle)) <==> button
            == ControlButton::Shuffle,
        spec_command_for_button(button) != PlayerCommand::ChangeRepeat(RepeatMode::Normal),
{
}

/// What a click on `button` asks of the player.
pub fn button_command(button: ControlButton) -> (cmd: PlayerCommand)
    ensures
        cmd == spec_command_for_button(button),
{
    match button {
        ControlButton::Play => PlayerCommand::TogglePlayPause,
        ControlButton::Previous => PlayerCommand::Previous,
        ControlButton::Next => PlayerCommand::Next,
        ControlButton::Loop => PlayerCommand::ChangeRepeat(RepeatMode::Loop),
        ControlButton::Repeat => PlayerCommand::ChangeRepeat(RepeatMode::LoopSong),
        ControlButton::Shuffle => PlayerCommand::ChangeRepeat(RepeatMode::Shuffle),
    }
}

/// The icon and the (untranslated) tooltip of the play button.
pub struct PlayButtonLook {
    pub icon_name: &'static str,
    pub tooltip: &'static str,
}

/// While playing the button offers to pause, otherwise to play.
pub fn sync_playing(playing: bool) -> (look: PlayButtonLook)
    ensures
        playing ==> look.icon_name@ == "media-playback-pause-symbolic"@,
        playing ==> look.tooltip@ == "Pause"@,
        !playing ==> look.icon_name@ == "media-playback-start-symbolic"@,
        !playing ==> look.tooltip@ == "Play"@,
{
    if playing {
        PlayButtonLook { icon_name: "media-playback-pause-symbolic", tooltip: "Pause" }
    } else {
        PlayButtonLook { icon_name: "media-playback-start-symbolic", tooltip: "Play" }
    }
}

/// Whether the play, previous and next buttons accept clicks.
#[derive(Clone, Copy, Debug, PartialEq, Eq, Structural)]
pub struct TransportSensitivity {
    pub play: bool,
    pub previous: bool,
    pub next: bool,
}

/// The play and next buttons follow whether a next track exists, the
/// previous button whether a previous one does.
pub fn sync_prev_next(has_next: bool, has_previous: bool) -> (s: TransportSensitivity)
    ensures
        s.play == has_next,
        s.next == has_next,
        s.previous == has_previous,
{
    TransportSensitivity { play: has_next, previous: has_previous, next: has_next }
}

/// Half of `n`, rounded toward zero (the way integer division rounds).
pub open spec fn half_toward_zero(n: int) -> int {
    if n >= 0 { n / 2 } else { -((-n) / 2) }
}

/// Halving rounds toward zero: twice the half is `n` or one step closer to
/// zero than `n`, and the half has the sign of `n` (or is zero).
pub proof fn lemma_half_toward_zero(n: int)
    ensures
        n >= 0 ==> 0 <= half_toward_zero(n) && 2 * half_toward_zero(n) <= n < 2 * half_toward_zero(n) + 2,
        n < 0 ==> half_toward_zero(n) <= 0 && 2 * half_toward_zero(n) - 2 < n <= 2 * half_toward_zero(n),
        half_toward_zero(-n) == -half_toward_zero(n),
{
}

/// Where the context menu pops up for a secondary-button release at
/// (`x`, `y`) on a bar of size `width` by `height`: horizontally relative
/// to the middle of the bar, vertically relative to its bottom.
pub fn popover_offset(x: i32, y: i32, width: i32, height: i32) -> (offset: (i32, i32))
    requires
        i32::MIN <= x - half_toward_zero(width as int) <= i32::MAX,
        i32::MIN <= y - height <= i32::MAX,
    ensures
        offset.0 == x - half_toward_zero(width as int),
        offset.1 == y - height,
{
    let half = width / 2;
    (x - half, y - height)
}

} // verus!
