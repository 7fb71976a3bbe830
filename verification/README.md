# treemd_core

The verified core of a terminal markdown navigator that shows a document as
an expandable tree of its headings beside the selected section.

- `src/` is a Verus library. It holds the navigator's state (`app.rs`) and
  every decision taken on it: outline building, folding and todo filtering,
  moves and scrolling, outline and document search with highlighted matches,
  link following (relative files, anchors, wikilinks), file history,
  interactive elements and table editing, the command palette, the status
  bar, the file picker's listing, the image viewer and the Kitty graphics
  protocol commands. Each public function carries a contract, and
  `laws.rs` states the properties that span several calls.
- `app/` is the terminal program around it: reading files, watching them,
  parsing markdown with `turbovault-parser`, drawing with `ratatui`, reading
  keys with `crossterm`, and running each task the state hands back.
- `tests/` runs the library on concrete values.
