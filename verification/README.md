# Altere workbench

The rules of the Altere workbench, written in Rust and proved with Verus.

The workbench is an editor with three additions: a knowledge tree, a priority
queue and a rotation through Markdown documents. A standalone runtime owns the
collection; the workbench asks it for projections and for changes, and shows what
it answers.

- `src/` is the verified library. Every function states what it returns or
  changes, and Verus proves it, but for four small wrappers around functions of
  other libraries, whose contracts are believed: `decode_lossy` and
  `to_upper_case` in `text`, `new_operation_id` in `operation` and
  `block_of_text` in `departure`.
  - `hierarchy`, `reparent`, `forest`: the rows of the tree, which of them show,
    and what a move keeps.
  - `knowledge_tree`, `priority_queue`: the two panels, with what they show, what
    they ask of the runtime and what they promise.
  - `queue_row`, `button`, `next_button`, `display`: what shows.
  - `next_repetition`, `departure`, `guided_attention`, `proposal_review`,
    `lifecycle`, `markdown_preview`: what happens around the open document, as
    state machines that are given events and ask for actions.
  - `runtime`, `invocation`, `operation`: the runtime and the commands for it.
  - `mode`, `keys`, `commands`, `dock`, `selection`, `paths`, `text`, `active_item`,
    `workbench`, `extension`: the rest.
  Paths are read as on a Unix machine.
- `app/` is a terminal front end: it reads settings, runs processes, decodes JSON
  and prints.
- `tests/` runs the library on concrete values.
