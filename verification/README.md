# esp32-lighting

Firmware for an ESP32 that switches a light from a small web page, lets a user
log in to Spotify, and polls Spotify for the song that is playing so that a
16x16 LED matrix can show it.

- `src/` is the library, verified with Verus: the LED matrix and the
  serpentine order in which its pixels are sent to the LED chain, the
  in-memory stores of the Spotify session and of the current song, form
  parameters and query strings, and what each web route and each poll step
  decides.
- `app/` is the firmware around it: Wi-Fi, the HTTP server and client, the
  LED driver, JSON decoding and the HTML page.
- `tests/` runs the library on concrete inputs.

Notes on choices:

- Form parameters are a `FormParams` value (distinct names, insertion order)
  rather than a `HashMap<&str, &str>`: vstd models `HashMap` only for keys it
  knows how to hash (integers), so nothing can be proved of a string-keyed
  map, and the walk order of a `HashMap` is unspecified anyway. Insertion
  order is one of the orders a `HashMap` may produce.
- Two LED grids are kept: `led::interface::LedRectangularArray` follows the
  serpentine wiring (chain starting at the left end of the bottom row,
  alternating direction row by row) and starts with every pixel off;
  `led::row_major::LedRectangularArray` sends row 0 first, each row left to
  right, and starts every pixel at (5, 10, 20).
- The web callback and the song poll are step functions in `src/`
  (`callback_step`, `poll_step`): the firmware performs each action they
  return and feeds back what happened, so the order of the steps is verified.
- The test `ordered_iter_mapping_correct` reads its table as (row, column)
  pairs, as the grid drawing in the test shows, and passes them to
  `set_pixel` as (column, row).
