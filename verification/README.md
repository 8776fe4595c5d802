# storystream

An audiobook library: books, chapters, bookmarks and playlists; the rules of
its configuration; RSS and Atom feed parsing; LibriVox and Internet Archive
sources; the database row format; the terminal player's controls; and the
handle table behind the Android bindings.

## Layout

- `src/` is the library, written in Verus. Its functions carry
  `requires`/`ensures` contracts that Verus proves. Where the clock or the
  disk decides a result, a verified function takes the reading as an
  argument and is exact (`Timestamp::from_clock_reading`, the `SleepTimer`
  `*_at` forms, `Validator::path_verdict`); the function that reads states
  that its result is that function of some reading, and a bare disk check
  such as `database_exists`, whose every answer is possible, states nothing. The
  properties that span several functions stand as public `law_*` proof
  functions (the date sort of a feed, the round trip of a value through its database row, the
  order of config backups, the handle table, volume steps, view cycling,
  and others).
  Calls into outside crates (uuid, quick-xml, chrono, serde_json, std's
  clock and file system) go through small trusted wrappers whose doc
  comments say what their contracts claim.
- `tests/` runs the library on concrete values.
- `app/` is ordinary Rust around the library: configuration files and their
  watcher, the SQLite store, the LibriVox HTTP client, the JNI functions, and
  the playback values that hold floating-point numbers.
