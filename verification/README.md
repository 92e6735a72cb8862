# What You Shouldn't Care About in 2026

A satirical terminal game, with its logic written in Verus and proved
against its contracts.

- `src/` is the verified library: the player profile and its clamped
  aspects (`state`), text helpers (`text`), keyboard commands and the two
  prompts as state machines (`input`), the Oracle verdict (`oracle`), the
  elevator, radio and mirror segments (`segments`), the menu and onboarding
  text (`ui`) and the decisions of one play-through (`session`).
- `app/` is the terminal front end: it reads keys through `crossterm`, draws
  the title screen with `ratatui`, feeds each command to the library and
  prints what comes back.
- `tests/` runs the library on concrete inputs.
