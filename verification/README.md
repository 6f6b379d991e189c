# flexplore

A flexbox layout model and code generators, verified with Verus.

A layout is a tree of `NodeConfig` nodes: containers with flexbox
properties and coloured leaf boxes. Lengths and flex factors are fixed-point
numbers in tenths (`ValueConfig::Px(805)` is 80.5 px). From a tree and a
palette the library writes equivalent code for Bevy, HTML/CSS, Tailwind,
React, React Native (and a web page that lays React Native views out in a
browser), SwiftUI, Flutter and Iced. Each generator's contract states its
output character for character: children in ascending `order` (stable),
leaves coloured from the palette in layout order, properties written only
where they differ from the target's defaults.

Layout of `src/`:

- `config` — the layout model, paths into the tree, the editor state
  (selection, rebuild requests) and its defaults.
- `edit` — the editor's tree commands (add a child or sibling, delete,
  move the selection) with what each one changes, and the decision taken
  at the end of each editor frame (record a change, end a hover preview).
- `history` — bounded undo/redo over editor states, with its laws.
- `order` — the stable sort of children by `order` and its laws.
- `fmt` — decimal text of the fixed-point numbers.
- `palette` — leaf colours from the `colorous` schemes.
- `codegen/*` — one module per target.
- `templates`, `fixtures` — ready-made layouts and the named layouts that
  the snapshot files are made from.
- `text` — counting the occurrences of a pattern in generated text, piece
  by piece; the generators use it to prove that their output holds one
  `div` (HTML, Tailwind) per node, one `rgb(` colour or `Text::new(` per
  leaf, and a Bevy field line exactly when the field is off its default.
- `naming` — the class name of a snapshot case and the `file:///` address
  of a rendered page, as the golden-image harnesses spell them.

`app/` is a small command-line program that writes, or checks, a snapshot
directory: an `input.json` per fixture (via serde) and one file per
generator.
