use vstd::prelude::*;

verus! {

/// How the play queue continues when a track ends.
#[derive(Clone, Copy, Debug, PartialEq, Eq, Structural)]
pub enum RepeatMode {
    Normal,
    Loop,
    LoopSong,
    Shuffle,
}

/// The repeat mode that a stored setting value stands for: 0 to 3 name
/// the four modes in order, any other value falls back to `Normal`.
pub open spec fn spec_repeat_mode_from_setting(value: int) -> RepeatMode {
    if value == 1 {
        RepeatMode::Loop
    } else if value == 2 {
        RepeatMode::LoopSong
    } else if value == 3 {
        RepeatMode::Shuffle
    } else {
        RepeatMode::Normal
    }
}

/// Decodes the "repeat-mode" setting.
pub fn repeat_mode_from_setting(value: i32) -> (mode: RepeatMode)
    ensures
        mode == spec_repeat_mode_from_setting(value as int),
{
    match value {
        0 => RepeatMode::Normal,
        1 => RepeatMode::Loop,
        2 => RepeatMode::LoopSong,
        3 => RepeatMode::Shuffle,
        _ => RepeatMode::Normal,
    }
}

/// Which of the three repeat buttons carry the highlight style.
#[derive(Clone, Copy, Debug, PartialEq, Eq, Structural)]
pub struct RepeatHighlights {
    pub shuffle: bool,
    pub loop_queue: bool,
    pub loop_song: bool,
}

/// The highlight of each button for a mode: the button that selects the
/// mode is lit, the others are not; in `Normal` none is lit.
pub open spec fn spec_repeat_highlights(mode: RepeatMode) -> RepeatHighlights {
    RepeatHighlights {
        shuffle: mode == RepeatMode::Shuffle,
        loop_queue: mode == RepeatMode::Loop,
        loop_song: mode == RepeatMode::LoopSong,
    }
}

/// The highlights that the repeat buttons take when the queue's mode is `mode`.
pub fn set_repeat_mode_ui(mode: RepeatMode) -> (h: RepeatHighlights)
    ensures
        h == spec_repeat_highlights(mode),
{
    match mode {
        RepeatMode::Normal => RepeatHighlights { shuffle: false, loop_queue: false, loop_song: false },
        RepeatMode::Loop => RepeatHighlights { shuffle: false, loop_queue: true, loop_song: false },
        RepeatMode::LoopSong => RepeatHighlights { shuffle: false, loop_queue: false, loop_song: true },
        RepeatMode::Shuffle => RepeatHighlights { shuffle: true, loop_queue: false, loop_song: false },
    }
}

/// The setting's values 0, 1, 2 and 3 stand for `Normal`, `Loop`,
/// `LoopSong` and `Shuffle`; every other value, negative or larger, falls
/// back to `Normal`.
pub proof fn lemma_setting_values(value: int)
    ensures
        value == 0 ==> spec_repeat_mode_from_setting(value) == RepeatMode::Normal,
        value == 1 ==> spec_repeat_mode_from_setting(value) == RepeatMode::Loop,
        value == 2 ==> spec_repeat_mode_from_setting(value) == RepeatMode::LoopSong,
        value == 3 ==> spec_repeat_mode_from_setting(value) == RepeatMode::Shuffle,
        (value < 0 || value > 3) ==> spec_repeat_mode_from_setting(value) == RepeatMode::Normal,
{
}

/// Each repeat button is lit exactly while the queue is in the mode that it
/// selects: shuffle in `Shuffle`, loop in `Loop`, repeat-song in `LoopSong`.
pub proof fn lemma_button_lit_iff_its_mode(mode: RepeatMode)
    ensures
        spec_repeat_highlights(mode).shuffle <==> mode == RepeatMode::Shuffle,
        spec_repeat_highlights(mode).loop_queue <==> mode == RepeatMode::Loop,
        spec_repeat_highlights(mode).loop_song <==> mode == RepeatMode::LoopSong,
{
}

/// At most one repeat button is lit, and it is lit exactly when its mode
/// is the current one; the highlights tell the mode back unless it is `Normal`.
pub proof fn lemma_highlights_identify_mode(m1: RepeatMode, m2: RepeatMode)
    ensures
        !(spec_repeat_highlights(m1).shuffle && spec_repeat_highlights(m1).loop_queue),
        !(spec_repeat_highlights(m1).shuffle && spec_repeat_highlights(m1).loop_song),
        !(spec_repeat_highlights(m1).loop_queue && spec_repeat_highlights(m1).loop_song),
        spec_repeat_highlights(m1) == spec_repeat_highlights(m2) ==> m1 == m2,
{
}

} // verus!
