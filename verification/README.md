# rustify

The core of a Telegram bot that watches what its users play on Spotify, looks
up the lyrics of each track, and reports lines with profanity.

The library under `src/` is written in Verus: every public function carries a
contract, and Verus proves the code against it.

- `profanity`, `queue::profanity_check`: censoring lyrics line by line, the
  overall verdict, which lines are reported, and how many fit in a message.
- `lyrics`: the providers (LrcLib, Genius, Musixmatch, AZLyrics), the order in
  which they are asked, how their answers are numbered and labelled.
- `error_handler`, `infrastructure::error_handler`: what to do about an error
  that came up while serving a user.
- `services`, `skippage_service`, `rickroll`: keys, limits and decisions of the
  Redis-backed bookkeeping (throttling, rate limits, AI detection, ...).
- `entity`, `serde_utils`: stored values and their round trips.
- `metrics`, `logger`, `settings`: configuration of metrics, logging and the
  bot itself.
- `highlight`: taking the spoiler marks out of a highlighted line.
- `text`, `format`, `numeric`, `patterns`, `language`, `urls`: string helpers,
  and the trusted wrappers around `regex`, `isolang`, `whatlang` and `url`.

`app/` holds some of the I/O around the library: the HTTP calls to the lyrics
providers, song.link and the AI-detection services, the Redis side of the
bookkeeping services, admin notifications and error notices sent over Telegram, settings read
from the environment, the command line's types, and the floating-point
similarity scores. It has no Telegram bot loop, no queue consumer, no metrics
push and no database access.
`tests/` exercises the library on concrete values.
