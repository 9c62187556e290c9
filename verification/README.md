# glrail

A model of railway infrastructure for a schematic track editor, with its
editing operations proved against their contracts.

- `src/infrastructure.rs`: tracks, nodes and trackside objects, kept in
  stable slots; reading, adding, changing and deleting them.
- `src/model.rs`: the editor's document and `Model::handle_event`, which
  applies infrastructure and scenario edits; its contract states the
  resulting model and result for every edit.
- `src/scenario.rs`, `src/view.rs`, `src/vehicle.rs`, `src/schematic.rs`,
  `src/dgraph.rs`, `src/interlocking.rs`, `src/issue.rs`: the parts of the
  document.
- `src/canvas.rs`: the tool and selection state machine of the drawing canvas.
- `src/laws.rs`: properties that relate several operations.
- `app/`: the window and its event loop (SDL2), drawing, and the
  floating-point conversions between screen and world coordinates.

Positions, lengths, times and world coordinates are integers in the model's
own units; the centre of the view is kept in hundredths of that unit, so
that a step of the view (0.15 of its width) is exact.
