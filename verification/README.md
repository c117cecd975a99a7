# orchestrate

The verified core of the `orchestrate` tool call of an AI agent pane: an
accepted request fans out into one agent task per child, and the
confirmation card reports what became of them.

## Layout

- `src/` — the library, verified with Verus.
  - `model.rs`: the request, the task creation calls, the outcomes and the
    result, each with a view over sequences of characters.
  - `dispatch.rs`: `plan_dispatch` turns a request into one task creation
    call per child, in input order (or a failure for a request without
    children); `collect_outcomes` turns the replies into the launched
    result, one outcome per child in input order. Partial and total
    failures of the calls stay inside the launched result.
  - `card.rs`: the texts and status icons of the confirmation card: the
    streaming placeholder, the terminal status line ("Started M of N
    agent(s)" and the rest), the title, body, agent list and editor lines.
  - `task_id.rs`: task ids as hyphenated UUIDs, kept in lower case.
  - `text.rs`: whitespace (the Unicode `White_Space` property), decimal
    number text, and the one trusted item, a wrapper of `String::push`.
- `app/` — the asynchronous dispatch: it issues the planned calls in
  parallel against a task creation client (`futures::future::join_all`,
  which yields the replies in call order), turns each error into its text,
  and hands the replies to `collect_outcomes`.
- `tests/` — concrete cases of the contracts and laws, with a scripted
  client standing in for the service.

## What is not here

The card's widgets themselves (colours, icons, hover and click handling,
the picker dropdowns) are not in this crate. They are built with the pane's
own UI toolkit, which is not available as a crate. Everything they display
or decide is in `card.rs` over plain values: which card is shown
(`card_layout`), the title row's buttons and which of them is enabled
(`title_row_buttons`), the Local/Cloud toggle (`mode_toggle_segments`), the
editor's rows (`editor_rows`), and every text. What blocks Accept is taken
as given: the reason is computed from the pane's edit state, which is not
part of this crate.
