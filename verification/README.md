# macos_term

The control logic of a terminal window with a blurred, tinted, translucent
background, verified with Verus.

- `src/text.rs`: decimal numerals and ASCII lower case, with their laws.
- `src/style.rs`: colours, presets, slider labels and the style sheets.
- `src/effects.rs`: the opacity/tint state and what each control event does.
- `src/blur.rs`: the blur manager's decisions and its report lines.
- `src/transcript.rs`: the demonstration transcript.
- `app/main.rs`: the GTK window and the native blur bridge, which call the library.
