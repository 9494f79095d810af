# picker

The logic of a fuzzy picker for a terminal editor: options are ranked against a query as it is
typed, a cursor moves through the ranked list, and a preview pane shows the file of the selection.

- `src/` is the library, verified with Verus. The texts of the options come in as plain values; what
  is to be drawn, opened or asked for comes out as plain values.
- `app/` runs the library as components of an editor: it draws, reads files and waits for answers.
- `tests/` runs the library on concrete values.

| module | what it holds |
| --- | --- |
| `ranking` | matches, their order, sorting and filtering |
| `fuzzy_match` | fuzzy queries, on top of `fuzzy_matcher` |
| `text`, `item` | text helpers; options with their texts |
| `movement` | moving a cursor through a list |
| `picker`, `laws` | the picker and what holds of it in every state |
| `graphics`, `frame` | areas of the terminal and the layout of a picker |
| `input` | events, key bindings and their outcomes |
| `path` | paths of files, by their components |
| `content`, `preview`, `preview_cache` | judging, showing and remembering files |
| `file_picker`, `dynamic_picker` | a picker with a preview; one whose options come from a query |
