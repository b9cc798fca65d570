# movingtext

The logic behind MovingText, a Windows desktop marquee and Dynamic-Island
style notch, written in Verus and proved against its contracts.

## Layout

- `src/` — the verified library:
  - `config` — the configuration model and its defaults;
  - `state` — the notch's state machine (hover and collapse grace, pinning,
    the carousel, the inline focus editor) and its laws;
  - `hook` — what the low-level mouse hook swallows, counts and latches;
  - `overlay` — which edge-strip windows exist, where they sit, how they are
    styled (none while the master switch is off), and the repeated phrase
    they scroll;
  - `backdrop` — sizing of the blurred desktop capture and its alpha fix-up;
  - `color` — reading and writing `#RGB`, `#RGBA`, `#RRGGBB`, `#RRGGBBAA`;
  - `dialog` — UTF-16 buffers for the file dialog;
  - `tray` — the icon artwork, the context menu and its quick toggles;
  - `surface` — when an off-screen render target is rebuilt;
  - `screen`, `fonts`, `settings`, `text` — smaller pieces.
- `tests/` — tests of the library on concrete values.
- `app/` — the Windows program around it: windows, Direct2D painting, the
  egui settings window, the tray icon, threads and the configuration file.
  Floating-point motion and colour stay here.
