use vstd::prelude::*;

verus! {

/// One entry of the bar's context menu: its (untranslated) label and the
/// window action it triggers.
pub struct MenuEntry {
    pub label: String,
    pub action: String,
}

impl View for MenuEntry {
    type V = (Seq<char>, Seq<char>);

    open spec fn view(&self) -> (Seq<char>, Seq<char>) {
        (self.label@, self.action@)
    }
}

/// A titled section of the context menu.
pub struct MenuSection {
    pub label: String,
    pub entries: Vec<MenuEntry>,
}

impl View for MenuSection {
    type V = (Seq<char>, Seq<(Seq<char>, Seq<char>)>);

    open spec fn view(&self) -> (Seq<char>, Seq<(Seq<char>, Seq<char>)>) {
        (self.label@, self.entries@.map_values(|e: MenuEntry| e@))
    }
}

/// The context menu: a "Playback" section to toggle play and pause, go to
/// the previous or next track and end the queue, then a "Navigate" section
/// to go to the queue page.
pub open spec fn menu_layout() -> Seq<(Seq<char>, Seq<(Seq<char>, Seq<char>)>)> {
    seq![
        ("Playback"@, seq![
            ("Toggle Play Pause"@, "win.toggle-play-pause"@),
            ("Previous"@, "win.prev"@),
            ("Next"@, "win.next"@),
            ("End Queue"@, "win.end-queue"@),
        ]),
        ("Navigate"@, seq![("Go to Queue"@, "win.go-to-queue"@)]),
    ]
}

/// The menu has a "Playback" section of four entries (toggle play and
/// pause, previous, next, end queue) and a "Navigate" section with one
/// entry (go to the queue page).
pub proof fn lemma_menu_contents()
    ensures
        menu_layout().len() == 2,
        menu_layout()[0].0 == "Playback"@,
        menu_layout()[0].1.len() == 4,
        menu_layout()[0].1[0] == ("Toggle Play Pause"@, "win.toggle-play-pause"@),
        menu_layout()[0].1[1] == ("Previous"@, "win.prev"@),
        menu_layout()[0].1[2] == ("Next"@, "win.next"@),
        menu_layout()[0].1[3] == ("End Queue"@, "win.end-queue"@),
        menu_layout()[1].0 == "Navigate"@,
        menu_layout()[1].1.len() == 1,
        menu_layout()[1].1[0] == ("Go to Queue"@, "win.go-to-queue"@),
{
}

fn entry(label: &str, action: &str) -> (e: MenuEntry)
    ensures
        e@ == (label@, action@),
{
    MenuEntry { label: String::from_str(label), action: String::from_str(action) }
}

/// Builds the bar's context menu.
pub fn create_menu() -> (menu: Vec<MenuSection>)
    ensures
        menu@.map_values(|s: MenuSection| s@) == menu_layout(),
{
    let mut playback: Vec<MenuEntry> = Vec::new();
    playback.push(entry("Toggle Play Pause", "win.toggle-play-pause"));
    playback.push(entry("Previous", "win.prev"));
    playback.push(entry("Next", "win.next"));
    playback.push(entry("End Queue", "win.end-queue"));
    let mut navigate: Vec<MenuEntry> = Vec::new();
    navigate.push(entry("Go to Queue", "win.go-to-queue"));
    let mut menu: Vec<MenuSection> = Vec::new();
    menu.push(MenuSection { label: String::from_str("Playback"), entries: playback });
    menu.push(MenuSection { label: String::from_str("Navigate"), entries: navigate });
    proof {
        assert(menu@[0]@.1 =~= menu_layout()[0].1);
        assert(menu@[1]@.1 =~= menu_layout()[1].1);
        assert(menu@.map_values(|s: MenuSection| s@) =~= menu_layout());
    }
    menu
}

} // verus!
