# karukan_im

A Japanese input method engine, verified with Verus.

The engine takes key events one at a time (`InputMethodEngine::process_key`)
and answers with whether it took the key and the actions for its host
(commit text, show a preedit, show an auxiliary line). Every step is
specified by the spec function `engine::step` over the engine's view, and the
implementation is proved to follow it.

- `text`: string helpers (character lists, decimal numbers).
- `kana`: hiragana, katakana and half-width katakana conversions, specified
  per code point.
- `romaji`: Kunrei-style romaji input.
- `candidate`: the candidate list and its cursor.
- `keycode`, `keysym`: key events and the keysyms the engine reacts to.
- `engine`: the engine's types, its model (`step`) and key handling.
- `mode`: F6/F7/F8 kana conversion of the reading and the live conversion switch.
- `laws`: properties across calls (round trips, idempotence, one-shot
  katakana conversion, toggles), proved.
