# now_playing

A COSMIC panel applet that shows what an MPRIS media player is playing: the track's
title and artist in the panel, a popup with album art and transport controls, and a
panel button tinted with the album's colour.

- `src/` is the library, verified with Verus: the applet's state and its invariant,
  the choice of the player to show, the handling of each message, the decisions of the
  bus monitor, the decoding of album-art URLs and the settings files' format, with the
  laws that tie them together (for instance that saved settings read back unchanged,
  and that a selection survives every scan that still lists its player).
- `tests/` runs the library on concrete values.
- `app/` is the program around it: the session bus (through `mpris` and `dbus`), the
  settings directory (through `dirs`), the album-art colour (through `image`, in
  floating point) and the widgets.
