# rustmail

A Discord modmail bot: users write to the bot in direct messages, the bot opens
a private ticket channel for the staff, and the staff answer from there.

- `src/` is the verified library. Every function in it carries a contract that
  Verus proves: how commands and component ids are parsed, where a direct
  message goes, what each slash command offers to Discord, how audit-log
  entries are rendered, how ticket channels are
  named, which configuration is accepted, the error dictionaries of each
  language, and the decisions around scheduled closures, alerts and
  maintenance mode. Public proof functions state the properties that hold
  across calls (round trips of ids and numbers, idempotent trimming, the last
  permission overwrite winning, a later language laid over an earlier one,
  and so on).
- `tests/` runs the library on concrete values.
- `app/` is the program: it reads `config.toml`, talks to Discord through
  serenity and hands the library plain values.

Verify with Verus from this directory; the only call into an outside crate
that the library makes is the snippet-key pattern, checked with `regex`.
