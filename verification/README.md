# ytbot

A Telegram bot that downloads videos and music with `yt-dlp` on request and
keeps small per-user state in Redis.

- `src/` is the verified library (Verus): routing of chat messages and
  button presses (`commands`), the database layout and the handling of its
  answers (`db`, `user_status`), preferences (`chat_config`), and the
  answers and download decisions (`handles`).
- `app/` is the program around it: the Telegram polling loop, Redis
  round trips, `yt-dlp` processes, temporary files, and the serde copies of
  the library's types for JSON and TOML.
- `tests/` runs the library on concrete values.

The bot reads its settings from `teleconfig.toml` (`vid_format`,
`aud_format`, optional `redis_address`, `telegram_token`).
