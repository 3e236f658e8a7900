# clemen

The rules of a Telegram bot for a group of friends who watch films and share
music, verified with [Verus](https://github.com/verus-lang/verus).

- `src/` is the library. Everything in it is verified, but for eight wrappers
  around outside functions, whose contracts are trusted: `read_clock`,
  `date_naive`, `signed_days_since`, `display_date` and `default_date` in `clock`
  (chrono), `captures` in `youtube` (regex), and `to_lowercase` in `text` and
  `debug_track` in `message` (the standard library).
  - `data` keeps the queue of proposed films and the log of songs.
  - `command` says what is done for each command of the chat.
  - `message` says what is done with other messages, and holds the relay, which
    turns links to videos into audio messages.
  - `youtube` finds links in a text and reads what a video is called.
  - `clock` holds moments on the local clock and calendar dates.
  - `text` searches, splits, trims and writes text.
  - `words` holds what the bot says.
- `app/` is the bot around it: it talks to Telegram, TMDB, Last.fm and YouTube,
  keeps the data in `clemen.json`, and performs what the library asks for. It
  reads its keys from `clemen.env`, `clemen_tmdb.env` and `clemen_last.env`.
- `tests/` runs the library.

The functions named `law_...` state what holds of the library as a whole: no film
is queued twice, nobody but the organiser of the votes can take somebody else's
proposal out of the queue, no song that could still be listed is dropped from the
log, and the relay ends, tries no link more than three times and logs none twice.

`Cargo.toml` holds `takecell`, which teloxide uses, to 0.1.1: later versions need a
newer compiler.
