# anilist

A Discord bot for querying AniList: title, character, staff, studio and
user look-ups, seasonal and airing charts, a title quiz with a
leaderboard, watch parties, a shared server list, airing notifications
and scheduled posts.

## Layout

- `src/` — the verified library. Every reply the bot sends is built here
  as a plain `Embed` or text, with a contract that states it exactly:
  `embeds.rs`, `errors.rs`, `commands.rs`, `utility.rs`, `quiz.rs`,
  `help.rs`, `leaderboard.rs`, `schedule.rs`, `pagination.rs`.
  The decisions that sit between network calls are here too: which page a
  button leads to, how a quiz round changes the scores, how stored rows
  become records (`store.rs`), the rate limiter (`rate_limit.rs`), the
  response cache over moka (`cache.rs`), the rotating presence
  (`presence.rs`), and the text primitives they rest on (`text.rs`).
  Laws that span functions are proof functions next to them, such as the
  round trip of colour codes, the uniqueness of the help page's grouping,
  and the bound on AniList requests: each `RateLimiter::check` refills the
  bucket for the time since the limiter's recorded last refill and records
  its own clock reading, and over any run of such readings that never go
  back, the requests let through stay within a full bucket plus the rate
  times the time that passed (`throughput_in_real_time`).
- `tests/` — tests of the library on concrete values.
- `app/` — the program: Discord commands (poise/serenity), AniList HTTP
  requests (reqwest), the SQLite store (sqlx), the scheduler, and the
  serde forms of the response types.

## Running

Set `DISCORD_TOKEN` (and optionally `GUILD_ID` and `DATABASE_URL`, which
defaults to `sqlite:anilist.db?mode=rwc`) and run the `app` program.
