# storyboard

The verified core of a small GPU graphics toolkit. The library under `src/`
holds the parts that decide and compute; the GPU, window, font and thread
plumbing around them is left to the caller (a few of those pieces, which
need outside crates or floating point, are in `app/`).

- `observable`, `data::observable`: values that remember whether they changed.
- `text::layout`: cutting text into runs at control characters.
- `text::shape`: shaping text into glyphs, through `rustybuzz`.
- `text::line`: placing shaped glyphs on lines.
- `text::cache`, `text::store`: glyph atlases, rasterizing each glyph once.
- `packer`: the trusted interface to `rect_packer`, with its skylines.
- `texture`: packed textures, texture views, write regions.
- `batch`, `buffer`: vertex batches and index buffer sizing.
- `render`: when a frame is drawn, the order drawables are prepared in,
  what a render task does with a published frame, and when a surface or a
  target texture is set up anew.
- `frame`: component keys and the set of components still to update.
- `tick_task`: a repeated task run on the caller's thread.

Every public function carries a contract proved by Verus; laws that relate
several functions are public proof functions named `law_*`.
