# gequke

A crawler for the song site gequke.com: it reads the home page, the ranking
lists and search results, downloads songs with their lyrics, and keeps what
it saw in an SQLite database for later statistics.

The library under `src/` is written in Verus and verified:

- `text`, `numbers`, `pattern`: string handling, integer parsing and
  printing as `str::parse` and `Display` do it, and regular-expression
  captures (through the `regex` crate).
- `dom`: a parsed HTML document (through `scraper`) as a list of elements,
  with CSS selection over it.
- `crawlers`: what each page yields (home page, ranking, search, song page),
  the addresses and headers of the requests, file names, and the download of
  a song as a state machine whose actions the program performs.
- `models`, `sqlite`, `database`, `queries`, `rows`: the records, the
  statements and their parameters, and the typed rows read back (through
  `rusqlite`). The store keeps, as ghost state, the statements it has
  handed to SQLite, so that each operation's contract says what it wrote
  and what it read.
- `records`: which records a crawl stores, and storing them, with the
  statements each crawl writes stated in order.
- `timeargs`, `display`, `settings`, `cli`: the command line's time windows,
  what the commands print of stored rows, the setting keys, and the commands.

`app/` is the `gequ` program around the library: command-line parsing,
HTTP requests, files, the settings file, tables and colours.
