# resonance control bar

The decisions behind the music player's control bar, verified with Verus.

- `src/repeat.rs`: the stored repeat-mode setting and which repeat button is lit.
- `src/controls.rs`: the commands of the transport buttons, the play button's
  look, the transport buttons' sensitivity, where the context menu pops up.
- `src/menu.rs`: the context menu's sections and entries.
- `src/control_bar.rs`: the bar's state (its track and the window's page),
  what showing a track changes, and when the bar is revealed, with the laws
  of that decision.
- `app/`: the GTK widgets, which apply what the library decides.
