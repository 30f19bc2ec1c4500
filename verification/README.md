# rustybara

A prepress PDF toolkit: growing pages to a bleed box, exporting pages as
images, inspecting and remapping colours, with a command line and a terminal
front end. Its trim command passes documents through unchanged: removing what
lies outside the trim box takes a content filter that it does not have.

`src/` is the verified library:

- `text` — decimal rendering, white-space trimming, splitting and `u32`
  parsing on characters, each against a specification of what it returns.
- `color::icc` — ICC profiles and the colour space their header declares.
- `stream::color_ops` — the colour make-up of a document's content streams
  and which colour remapping rewrites a CMYK colour operation.
- `pdf`, `pipeline` — the bridge to `lopdf` and a document being processed.
- `pages::boxes` — page bounding boxes.
- `process`, `encode` — output paths, export formats, run plans and reports.
- `error` — the error type and the messages shown for it.
- `tui::app`, `tui::ui`, `tui::laws` — the terminal front end as a state
  machine over a plain-value model (`AppView`), its screen texts, and the
  properties proved of its steps.

`app/` is the binary: argument parsing, the event loop, file-system work,
Pdfium rendering, image encoding and everything computed in floating point
(page coordinates, bleed sizes, colour tolerances).
