# frontend

The client-side logic of an idle game's web frontend, written in Verus and
verified: what each operation does is stated in its `requires` / `ensures`
and proved.

- `src/` — the verified library: keyboard state, the access token and the
  backend's requests, the loot filter and the loot queue, the chat, values shared with the game
  server, rewards, side panels, the passive tree's automatic assignment,
  monsters' cards, the statuses on portraits, the skill shop, the added-damage lines of item effects, and the small formatting helpers. The `pub proof fn law_*`
  items state properties that span several operations.
- `tests/` — tests that run the library on concrete values.
- `app/` — the browser-facing glue (HTTP, JSON and MessagePack, identifiers,
  float conversions); it is ordinary Rust and calls the library.
