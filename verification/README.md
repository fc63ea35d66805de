# tigerbot

A Telegram bot that keeps the quotes of its chats: `/quote` stores the message
a command replies to, `/randomquote` and `/searchquote` send stored quotes back,
`/quoterankings` shows who is quoted most, and `/toggleoptout` lets a user leave
(deleting their quotes) or come back.

- `src/` is the library, verified with Verus: the SQL statements and the values
  bound to them (`queries`), the quote kinds as the database stores them
  (`types`), dates (`date`), users (`users`), the decisions of each command
  (`quotes`, `commands`) and of the opt-out buttons (`callbacks`), the settings
  (`config`) and the text helpers they share (`text`).
- `app/` runs the bot: it talks to Telegram, PostgreSQL and Redis, and follows
  the library's decisions.
- `tests/` exercises the library on concrete values.
