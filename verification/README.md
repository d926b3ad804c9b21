# casino_bot

The rules of a Discord casino bot, verified with Verus.

- `src/` is the verified library: the daily reward schedule
  (`commands::timely`), the dice and wheel games (`commands::betroll`,
  `commands::bankroll`), stealing (`commands::steal`), the paged
  leaderboard (`commands::top`), the starboard (`starboard`) and how it shows
  a message (`embed`), the reactions to
  server events (`events`), error messages (`errors`), instants and their
  arithmetic (`time`), text search, replacement and decimal notation (`text`),
  and the random source (`random`).
- `app/` is the bot itself: Discord commands and events (poise/serenity),
  the PostgreSQL records (ormlite), JSON configuration (serde), logging, and
  the arithmetic on balances and rewards, which are floating-point numbers.
- `tests/` runs the library on concrete values.
