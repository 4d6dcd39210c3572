# luma11y

Backend of Luma11y, a colour-contrast checker with a native eyedropper.

- `src/` is the verified library (Verus): colour formatting and the dark/light text rule,
  the picker state machine shared by the X11, Windows and macOS overlays, decoding of
  captured screen pixels, redraw geometry, key-code mapping, what the magnifier shows,
  ICC profile selection, menu translation and menu event dispatch, and the X11 overlay's
  Wayland and grab-retry decisions. Every public function
  carries a contract; the laws that span several functions are public proof functions.
- `app/` is the Tauri application around it: window and menu plumbing, the platform
  overlays (x11rb and Cairo, Win32 and GDI+, AppKit and CoreGraphics), serde copies of
  the library types, and the floating-point WCAG contrast ratio.
- `tests/` exercises the library on concrete values.
