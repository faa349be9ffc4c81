use vstd::prelude::*;
use crate::controls::sync_prev_next;
use crate::menu::{create_menu, menu_layout, MenuSection};
use crate::repeat::{
    repeat_mode_from_setting, set_repeat_mode_ui, spec_repeat_highlights, spec_repeat_mode_from_setting,
    RepeatHighlights,
};

verus! {

/// The pages of the main window. The control bar stays hidden while the
/// queue page is shown, since that page has playback controls of its own.
#[derive(Clone, Copy, Debug, PartialEq, Eq, Structural)]
pub enum WindowPage {
    Queue,
    Albums,
    Artists,
    Genres,
    Playlists,
}

/// What the control bar shows of a track, as plain values.
/// `duration_text` is the track's length already written out as text.
#[derive(Debug)]
pub struct TrackInfo {
    pub title: String,
    pub album: String,
    pub artist: String,
    pub duration_text: String,
    pub cover_art: Option<i64>,
}

/// What the bar reads of the player and of its own widgets when it decides.
#[derive(Clone, Copy, Debug, PartialEq, Eq, Structural)]
pub struct BarInputs {
    /// The player is playing.
    pub playing: bool,
    /// The queue has a track after the current one.
    pub has_next: bool,
    /// The queue has a track before the current one.
    pub has_previous: bool,
    /// The action bar is revealed right now.
    pub revealed: bool,
    /// The window's leaflet is folded right now.
    pub folded: bool,
}

/// What the bar sets up once, when it is built: the highlight of the
/// repeat buttons for the stored repeat mode, and its context menu.
pub struct InitialView {
    pub repeat: RepeatHighlights,
    pub menu: Vec<MenuSection>,
}

/// Changes to the action bar and to the thin progress bar; `None` leaves
/// the widget as it is.
#[derive(Clone, Copy, Debug, PartialEq, Eq, Structural)]
pub struct RevealUpdate {
    pub action_bar_revealed: Option<bool>,
    pub progress_bar_visible: Option<bool>,
}

/// What to do with the album art slot.
#[derive(Clone, Copy, Debug, PartialEq, Eq, Structural)]
pub enum ArtUpdate {
    /// Load the cover art with this id and show it; hide the slot if it
    /// cannot be loaded.
    Load(i64),
    /// Hide the slot.
    Hide,
}

/// Whether the art slot is visible once `update` has been carried out,
/// given whether loading the cover art worked: it shows only art that
/// was asked for and could be loaded.
pub fn load_art_visible(update: ArtUpdate, loaded: bool) -> (visible: bool)
    ensures
        visible == (update is Load && loaded),
{
    match update {
        ArtUpdate::Load(_) => loaded,
        ArtUpdate::Hide => false,
    }
}

/// The three texts shown for a track (each in the small, normal and big layout).
pub struct TrackLabels {
    pub title: String,
    pub album: String,
    pub artist: String,
}

/// All the widget changes that showing the current track makes.
pub struct ViewUpdate {
    pub spent_time: String,
    /// New track texts; `None` leaves the labels as they are.
    pub labels: Option<TrackLabels>,
    pub duration: String,
    /// New sensitivity of the play button; `None` leaves it as it is.
    pub play_sensitive: Option<bool>,
    pub previous_sensitive: bool,
    pub next_sensitive: bool,
    pub art: ArtUpdate,
    pub reveal: RevealUpdate,
}

/// The update that leaves both bars as they are.
pub open spec fn no_reveal_change() -> RevealUpdate {
    RevealUpdate { action_bar_revealed: None, progress_bar_visible: None }
}

/// The reveal decision. An empty bar, or one over the queue page, is
/// hidden (together with the progress bar) if it is revealed. Otherwise a
/// request to reveal is followed, and a request to hide is followed only
/// while nothing plays; the action bar is touched only when its state
/// changes, and revealing it on a folded window also shows the progress bar.
pub open spec fn spec_reveal_update(
    empty: bool,
    on_queue: bool,
    reveal: bool,
    playing: bool,
    revealed: bool,
    folded: bool,
) -> RevealUpdate {
    if empty || on_queue {
        if revealed {
            RevealUpdate { action_bar_revealed: Some(false), progress_bar_visible: Some(false) }
        } else {
            no_reveal_change()
        }
    } else if (reveal || !playing) && reveal != revealed {
        RevealUpdate {
            action_bar_revealed: Some(reveal),
            progress_bar_visible: if reveal && folded { Some(true) } else { None },
        }
    } else {
        no_reveal_change()
    }
}

/// Whether the action bar is revealed once `update` has been applied to a
/// bar whose state was `revealed`.
pub open spec fn revealed_after(revealed: bool, update: RevealUpdate) -> bool {
    match update.action_bar_revealed {
        Some(r) => r,
        None => revealed,
    }
}

/// The art slot's update for a track's cover art.
pub open spec fn spec_art_update(cover_art: Option<i64>) -> ArtUpdate {
    match cover_art {
        Some(id) => ArtUpdate::Load(id),
        None => ArtUpdate::Hide,
    }
}

/// `u` is the update that shows `track` (or the absence of one) on a bar
/// over the queue page or not (`on_queue`), given `inputs`.
pub open spec fn shows_track(u: ViewUpdate, track: Option<TrackInfo>, on_queue: bool, inputs: BarInputs) -> bool {
    match track {
        Some(t) => {
            &&& u.labels is Some
            &&& u.labels->0.title@ == t.title@
            &&& u.labels->0.album@ == t.album@
            &&& u.labels->0.artist@ == t.artist@
            &&& u.duration@ == " / "@ + t.duration_text@
            &&& u.play_sensitive == Some(inputs.has_next)
            &&& u.previous_sensitive == inputs.has_previous
            &&& u.next_sensitive == inputs.has_next
            &&& u.art == spec_art_update(t.cover_art)
            &&& u.reveal == spec_reveal_update(
                false,
                on_queue,
                true,
                inputs.playing,
                inputs.revealed,
                inputs.folded,
            )
        },
        None => {
            &&& u.labels is None
            &&& u.duration@ == " / 0:00"@
            &&& u.play_sensitive is None
            &&& !u.previous_sensitive
            &&& !u.next_sensitive
            &&& u.art == ArtUpdate::Hide
            &&& u.reveal == spec_reveal_update(
                true,
                on_queue,
                false,
                inputs.playing,
                inputs.revealed,
                inputs.folded,
            )
        },
    }
}

/// A bar with no track, or over the queue page, is hidden after any
/// reveal decision, whatever was asked and whatever plays.
pub proof fn lemma_hidden_when_empty_or_on_queue(
    empty: bool,
    on_queue: bool,
    reveal: bool,
    playing: bool,
    revealed: bool,
    folded: bool,
)
    requires
        empty || on_queue,
    ensures
        !revealed_after(revealed, spec_reveal_update(empty, on_queue, reveal, playing, revealed, folded)),
        spec_reveal_update(empty, on_queue, reveal, playing, revealed, folded).progress_bar_visible != Some(true),
{
}

/// On a bar with a track and away from the queue page, a request to reveal
/// is always followed; a request to hide is followed while nothing plays
/// and changes nothing while something plays.
pub proof fn lemma_requests_followed(reveal: bool, playing: bool, revealed: bool, folded: bool)
    ensures
        revealed_after(revealed, spec_reveal_update(false, false, reveal, playing, revealed, folded))
            == (if reveal { true } else if playing { revealed } else { false }),
{
}

/// Deciding a second time, on the state that the first decision left, with
/// the same request, changes nothing.
pub proof fn lemma_reveal_idempotent(
    empty: bool,
    on_queue: bool,
    reveal: bool,
    playing: bool,
    revealed: bool,
    folded: bool,
)
    ensures
        spec_reveal_update(
            empty,
            on_queue,
            reveal,
            playing,
            revealed_after(revealed, spec_reveal_update(empty, on_queue, reveal, playing, revealed, folded)),
            folded,
        ) == no_reveal_change(),
{
}

/// The action bar is only touched to change its state, and the progress
/// bar is only shown as the action bar is revealed on a folded window.
pub proof fn lemma_reveal_changes_only(
    empty: bool,
    on_queue: bool,
    reveal: bool,
    playing: bool,
    revealed: bool,
    folded: bool,
)
    ensures
        spec_reveal_update(empty, on_queue, reveal, playing, revealed, folded).action_bar_revealed
            != Some(revealed),
        spec_reveal_update(empty, on_queue, reveal, playing, revealed, folded).progress_bar_visible
            == Some(true) ==> folded && spec_reveal_update(
            empty,
            on_queue,
            reveal,
            playing,
            revealed,
            folded,
        ).action_bar_revealed == Some(true),
{
}

/// The reveal decision, case by case, in terms of its inputs:
/// - an empty bar, or one over the queue page, that is revealed gets both
///   the action bar and the progress bar hidden; if it is not revealed,
///   nothing changes;
/// - otherwise, revealing a hidden bar reveals it, and on a folded window
///   also shows the progress bar (and leaves it alone on an unfolded one),
///   whether or not anything plays;
/// - hiding a revealed bar while nothing plays hides the action bar and
///   leaves the progress bar alone;
/// - every other request changes nothing.
pub proof fn lemma_reveal_cases(
    empty: bool,
    on_queue: bool,
    reveal: bool,
    playing: bool,
    revealed: bool,
    folded: bool,
)
    ensures
        (empty || on_queue) && revealed ==> spec_reveal_update(empty, on_queue, reveal, playing, revealed, folded)
            == (RevealUpdate { action_bar_revealed: Some(false), progress_bar_visible: Some(false) }),
        (empty || on_queue) && !revealed ==> spec_reveal_update(empty, on_queue, reveal, playing, revealed, folded)
            == (RevealUpdate { action_bar_revealed: None, progress_bar_visible: None }),
        !empty && !on_queue && reveal && !revealed && folded ==> spec_reveal_update(
            empty,
            on_queue,
            reveal,
            playing,
            revealed,
            folded,
        ) == (RevealUpdate { action_bar_revealed: Some(true), progress_bar_visible: Some(true) }),
        !empty && !on_queue && reveal && !revealed && !folded ==> spec_reveal_update(
            empty,
            on_queue,
            reveal,
            playing,
            revealed,
            folded,
        ) == (RevealUpdate { action_bar_revealed: Some(true), progress_bar_visible: None }),
        !empty && !on_queue && reveal && revealed ==> spec_reveal_update(
            empty,
            on_queue,
            reveal,
            playing,
            revealed,
            folded,
        ) == (RevealUpdate { action_bar_revealed: None, progress_bar_visible: None }),
        !empty && !on_queue && !reveal && revealed && !playing ==> spec_reveal_update(
            empty,
            on_queue,
            reveal,
            playing,
            revealed,
            folded,
        ) == (RevealUpdate { action_bar_revealed: Some(false), progress_bar_visible: None }),
        !empty && !on_queue && !reveal && (!revealed || playing) ==> spec_reveal_update(
            empty,
            on_queue,
            reveal,
            playing,
            revealed,
            folded,
        ) == (RevealUpdate { action_bar_revealed: None, progress_bar_visible: None }),
{
}

/// What showing a track changes, field by field: the three texts are the
/// track's, the duration reads " / " and the track's length, the play and
/// next buttons accept clicks exactly when a next track exists and the
/// previous button exactly when a previous one does (each independent of
/// the other), the track's cover art is loaded whatever its id and the art
/// is hidden only for a track without one, and the bar is revealed (with
/// the progress bar on a folded window) unless the queue page is shown.
pub proof fn lemma_shown_track_fields(u: ViewUpdate, t: TrackInfo, on_queue: bool, inputs: BarInputs)
    requires
        shows_track(u, Some(t), on_queue, inputs),
    ensures
        u.labels is Some,
        u.labels->0.title@ == t.title@,
        u.labels->0.album@ == t.album@,
        u.labels->0.artist@ == t.artist@,
        u.duration@ == " / "@ + t.duration_text@,
        u.play_sensitive == Some(inputs.has_next),
        u.previous_sensitive == inputs.has_previous,
        u.next_sensitive == inputs.has_next,
        forall|id: i64| t.cover_art == Some(id) ==> u.art == ArtUpdate::Load(id),
        t.cover_art is None ==> u.art == ArtUpdate::Hide,
        u.art == ArtUpdate::Hide ==> t.cover_art is None,
        !on_queue && !inputs.revealed ==> u.reveal.action_bar_revealed == Some(true),
        !on_queue && !inputs.revealed && inputs.folded ==> u.reveal.progress_bar_visible == Some(true),
        !on_queue && inputs.revealed ==> u.reveal == (RevealUpdate {
            action_bar_revealed: None,
            progress_bar_visible: None,
        }),
        on_queue && inputs.revealed ==> u.reveal == (RevealUpdate {
            action_bar_revealed: Some(false),
            progress_bar_visible: Some(false),
        }),
        on_queue && !inputs.revealed ==> u.reveal == (RevealUpdate {
            action_bar_revealed: None,
            progress_bar_visible: None,
        }),
{
}

/// What showing no track changes: the labels stay, the duration reads
/// " / 0:00", the play button is left alone while previous and next are
/// disabled, the art is hidden, and a revealed bar is hidden together with
/// its progress bar.
pub proof fn lemma_shown_no_track_fields(u: ViewUpdate, on_queue: bool, inputs: BarInputs)
    requires
        shows_track(u, None, on_queue, inputs),
    ensures
        u.labels is None,
        u.duration@ == " / 0:00"@,
        u.play_sensitive is None,
        !u.previous_sensitive,
        !u.next_sensitive,
        u.art == ArtUpdate::Hide,
        inputs.revealed ==> u.reveal == (RevealUpdate {
            action_bar_revealed: Some(false),
            progress_bar_visible: Some(false),
        }),
        !inputs.revealed ==> u.reveal == (RevealUpdate {
            action_bar_revealed: None,
            progress_bar_visible: None,
        }),
{
}

/// Once the bar has shown its track (or the absence of one), it is
/// revealed exactly when there is a track and the window is away from the
/// queue page.
pub proof fn lemma_shown_track_reveals(u: ViewUpdate, track: Option<TrackInfo>, on_queue: bool, inputs: BarInputs)
    requires
        shows_track(u, track, on_queue, inputs),
    ensures
        revealed_after(inputs.revealed, u.reveal) == (track is Some && !on_queue),
{
}

/// The state that the control bar keeps besides its widgets: the track it
/// shows and the page that the window shows.
pub struct ControlBar {
    track: Option<TrackInfo>,
    window_page: WindowPage,
}

impl ControlBar {
    /// The track that the bar shows, if any.
    pub closed spec fn current_track(&self) -> Option<TrackInfo> {
        self.track
    }

    /// The page that the window shows, as last told to the bar.
    pub closed spec fn current_page(&self) -> WindowPage {
        self.window_page
    }

    /// The bar shows no track.
    pub open spec fn spec_empty(&self) -> bool {
        self.current_track() is None
    }

    /// The window shows the queue page.
    pub open spec fn spec_on_queue(&self) -> bool {
        self.current_page() == WindowPage::Queue
    }

    /// The bar is empty exactly when it has no track, and it is over the
    /// queue page exactly when the window's page is `Queue`.
    pub proof fn lemma_empty_and_queue(&self)
        ensures
            self.spec_empty() <==> self.current_track() is None,
            self.spec_on_queue() <==> self.current_page() == WindowPage::Queue,
    {
    }

    /// A bar with no track, over the albums page.
    pub fn new() -> (bar: ControlBar)
        ensures
            bar.current_track() is None,
            bar.current_page() == WindowPage::Albums,
    {
        ControlBar { track: None, window_page: WindowPage::Albums }
    }

    /// The set-up of a new bar, given the stored "repeat-mode" setting.
    pub fn initialize(repeat_setting: i32) -> (init: InitialView)
        ensures
            init.repeat == spec_repeat_highlights(spec_repeat_mode_from_setting(repeat_setting as int)),
            init.menu@.map_values(|s: MenuSection| s@) == menu_layout(),
    {
        let mode = repeat_mode_from_setting(repeat_setting);
        InitialView { repeat: set_repeat_mode_ui(mode), menu: create_menu() }
    }

    /// Whether the bar shows no track.
    pub fn empty(&self) -> (b: bool)
        ensures
            b == self.spec_empty(),
    {
        match &self.track {
            Some(_) => false,
            None => true,
        }
    }

    /// Tells the bar which page the window shows now.
    pub fn set_window_page(&mut self, page: WindowPage)
        ensures
            final(self).current_page() == page,
            final(self).current_track() == old(self).current_track(),
    {
        self.window_page = page;
    }

    /// The page that the window shows, as last told to the bar.
    pub fn window_page(&self) -> (page: WindowPage)
        ensures
            page == self.current_page(),
    {
        self.window_page
    }

    /// The track that the bar shows; only to be asked while there is one.
    pub fn track(&self) -> (t: &TrackInfo)
        requires
            self.current_track() is Some,
        ensures
            *t == self.current_track()->0,
    {
        self.track.as_ref().unwrap()
    }

    /// Asks for the bar to be revealed (`reveal`) or hidden, and says what
    /// that changes, given what the player and the widgets show now.
    pub fn set_revealed(&self, reveal: bool, inputs: BarInputs) -> (update: RevealUpdate)
        ensures
            update == spec_reveal_update(
                self.spec_empty(),
                self.spec_on_queue(),
                reveal,
                inputs.playing,
                inputs.revealed,
                inputs.folded,
            ),
    {
        let playing = inputs.playing;
        let empty = self.empty();
        if empty || self.window_page == WindowPage::Queue {
            if inputs.revealed {
                return RevealUpdate { action_bar_revealed: Some(false), progress_bar_visible: Some(false) };
            }
            return RevealUpdate { action_bar_revealed: None, progress_bar_visible: None };
        }
        if (reveal == playing || reveal == !empty) && reveal != inputs.revealed {
            let progress_bar_visible = if reveal && inputs.folded {
                Some(inputs.folded)
            } else {
                None
            };
            RevealUpdate { action_bar_revealed: Some(reveal), progress_bar_visible }
        } else {
            RevealUpdate { action_bar_revealed: None, progress_bar_visible: None }
        }
    }

    /// The widget changes that show the bar's current track: its texts,
    /// the transport buttons' sensitivity, its cover art, and the request
    /// to reveal the bar; with no track, the duration reads zero, the
    /// previous and next buttons are disabled, the art is hidden and the
    /// bar asks to be hidden. The time spent restarts at zero either way.
    pub fn update_view(&self, inputs: BarInputs) -> (u: ViewUpdate)
        ensures
            u.spent_time@ == "0:00"@,
            shows_track(u, self.current_track(), self.spec_on_queue(), inputs),
    {
        let spent_time = String::from_str("0:00");
        match &self.track {
            Some(track) => {
                let labels = TrackLabels {
                    title: track.title.clone(),
                    album: track.album.clone(),
                    artist: track.artist.clone(),
                };
                let duration = String::from_str(" / ").concat(track.duration_text.as_str());
                let sensitivity = sync_prev_next(inputs.has_next, inputs.has_previous);
                let art = match track.cover_art {
                    Some(id) => ArtUpdate::Load(id),
                    None => ArtUpdate::Hide,
                };
                let reveal = self.set_revealed(true, inputs);
                ViewUpdate {
                    spent_time,
                    labels: Some(labels),
                    duration,
                    play_sensitive: Some(sensitivity.play),
                    previous_sensitive: sensitivity.previous,
                    next_sensitive: sensitivity.next,
                    art,
                    reveal,
                }
            },
            None => {
                let reveal = self.set_revealed(false, inputs);
                ViewUpdate {
                    spent_time,
                    labels: None,
                    duration: String::from_str(" / 0:00"),
                    play_sensitive: None,
                    previous_sensitive: false,
                    next_sensitive: false,
                    art: ArtUpdate::Hide,
                    reveal,
                }
            },
        }
    }

    /// Takes the player's current track as the bar's track and shows it.
    pub fn update_current_track(&mut self, track: Option<TrackInfo>, inputs: BarInputs) -> (u: ViewUpdate)
        ensures
            final(self).current_track() == track,
            final(self).current_page() == old(self).current_page(),
            u.spent_time@ == "0:00"@,
            shows_track(u, track, old(self).spec_on_queue(), inputs),
    {
        self.track = track;
        self.update_view(inputs)
    }
}

} // verus!
