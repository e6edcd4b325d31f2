# vipdf

A minimal PDF viewer with vim key bindings. The library under `src/` is
verified with Verus; `app/` is the window and event loop around it.

- `parser`: the key trie that turns typed letters (and a count typed in front)
  into commands; `key_laws` proves what key sequences do (`Ngg`, `Nj`, `Nk`).
- `decimal`: what `str::parse::<usize>` accepts, and decimal spelling.
- `navigation`: what a command does to the page shown and its scroll position.
- `frame`: where a page goes in the window and the pixels of the next frame.
- `fonts`: which font files stand in for fonts that a PDF does not embed.
- `hayro_renderer`, `render`: rendering with hayro (the default back end).
- `pdfium_renderer`: rendering with PDFium, loaded at run time.
