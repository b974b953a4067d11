# screen_grabber

A screenshot tool: select a region of the screen, crop or annotate it
(circle, line, cross, rectangle, free-hand line, arrow, highlighter, text),
then save it or copy it to the clipboard. A hotkey of up to three keys
starts a capture.

`src/` is the verified library (Verus):

- `text` – string helpers (ASCII upper-casing, joining, substring search,
  decimal numerals) with exact contracts.
- `input_field` – the positive-number field: parsing as `usize`, the value
  kept and the check while typing.
- `hotkeys` – the keyboard controller and the hotkey editor as a state
  machine, with its invariants.
- `capture` – the capture session: mouse handling over the screenshot,
  the windows that follow a selection, approve/reject/cancel/save, and the
  point lists of the drawn shapes.
- `imaging` – PNG decoding and encoding, cropping and the integer drawing
  operations, called through the `image` and `imageproc` crates.
- `settings` – the output-format list, the path line of the settings
  window and what is written to the settings file.

`app/` is the druid program around it: windows, file dialogs, screen
capture, clipboard, the settings file, and the floating-point geometry.
