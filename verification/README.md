# tajagi

The verified core of the Tajagi composer ("AI typewriter"): a hotkey opens an
always-on-top composer, the draft can be transformed by a language model
(polish, translate to English, turn notes into an English prompt, or a custom
instruction), and the result is pasted back at the cursor of the previous app.

- `src/` is the library, verified with Verus:
  - `text` — Unicode white space, blank text, trimming, prefixes, string building.
  - `transform` — modes and their system prompts, error categories and their
    fixed messages, the cancellation generation counter, flattening of streamed
    batches, the per-item decisions of a streamed transform, and the checks made
    before a transform starts.
  - `settings` — key/value tables, the quick-action slot table, providers and
    the transform settings.
  - `secret` — API-key stores (in memory, OS keyring), layered lookup, writes
    and deletes, and the settings-to-keyring migration.
  - `commands` — the composer commit/focus rules and the transform commands.
- `tests/` exercises the library on concrete values.
- `app/` is the Tauri shell: commands, windows, focus, clipboard paste,
  settings file and network streaming, and serializable copies of the event
  types.
