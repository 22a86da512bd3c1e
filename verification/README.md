# classfi

A terminal player for the Classical California streams, split in two:

- `src/` is the verified library. It holds the stations (`stations`), the
  stream addresses as the URL parser normalises them (`stream_url`), the
  address known per station (`station_urls`), the cache file's contents and
  what loading, saving and invalidating do to them (`cache`), the radio
  directory lookup with its retries (`lookup`), the player's state and its
  mpv requests (`player`), the station picker (`selector`), what the screen
  and the media controls show (`display`), and the program's state with its
  answers to keys, events and player reports (`app`).
- `app/` is the program around it: command line, logging, terminal drawing,
  mpv, the radio directory, the cache file on disk and the media controls.
  It hands plain values to the library and carries out the actions the
  library answers with.
