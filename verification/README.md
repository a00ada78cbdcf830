# series_troxide

The logic of the Series Troxide TV-show tracker, verified with Verus: the
state machines behind its tabs, pages and settings widgets, the texts they
show, time splitting, fuzzy searching of the tabs, the stack of open series
pages and the ordering of its lists.

Each widget is a value with an `update` method that takes a message and
returns what the caller has to do next (load something, open a page, write
to the database). The caller performs that work and hands the answer back as
the next message; the drawing of the widgets is left to the caller too.

Layout:

- `src/`: the verified library. Each `update` states its effect in a spec
  function named after the widget (`*_step`), so that the widgets that hold
  other widgets state theirs exactly in terms of their parts.
- `tests/`: tests of the library on concrete values.
- `app/`: the parts that work on floating-point values (theme colours, the
  star rating, poster placeholder sizes).

Outside crates called by the library, each behind a trusted item:
`chrono` (dates, durations), `fuzzy-matcher` (search), `smallvec` (time
parts), `indexmap` (open series pages), `html2text` (summaries) and
`rust_iso3166` (the country list).
